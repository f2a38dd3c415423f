use vstd::prelude::*;
use vstd::pervasive::VecAdditionalExecFns;

use crate::index_log::ids_for;
use crate::index_log::ids_in_log;
use crate::index_log::lemma_ids_for_push;

verus! {

/// Why a registry operation was refused.
#[derive(Clone, Copy, Debug, PartialEq, Eq, Structural)]
pub enum RegistryError {
    /// The capacity argument was zero.
    InvalidCapacity,
    /// The price argument was not positive.
    InvalidPrice,
    /// No record exists under the given id.
    NotFound,
    /// The caller is not the record's owning provider.
    Unauthorized,
}

/// An advertised rentable GPU: owner, label, capacity, hourly price,
/// availability, cumulative completed-job counter, registration time.
pub struct GPU {
    pub provider: u64,
    pub model: String,
    pub vram_gb: u32,
    pub price_per_hour: i128,
    pub available: bool,
    pub total_jobs: u32,
    pub registered_at: u64,
}

/// A well-formed record: positive capacity and positive price.
pub open spec fn gpu_ok(g: GPU) -> bool {
    &&& g.vram_gb > 0
    &&& g.price_per_hour > 0
}

/// The resource registry. Ids are dense and increase from 0: the record with
/// id `i` sits at index `i` of `gpus`, so `gpus.len()` is the next free id.
/// `provider_index` is the append-only provider→ids index, one `(provider,
/// id)` entry per successful registration.
///
/// Callers must authenticate the `provider` argument of each mutating
/// operation before invoking it; the registry itself only compares
/// identities.
pub struct GPURegistry {
    pub gpus: Vec<GPU>,
    pub provider_index: Vec<(u64, u32)>,
}

impl GPURegistry {
    /// Every stored record has positive capacity and price, and the id space
    /// fits the id type.
    pub open spec fn wf(&self) -> bool {
        &&& self.gpus@.len() <= u32::MAX as nat
        &&& forall|i: int| 0 <= i < self.gpus@.len() ==> gpu_ok(#[trigger] self.gpus@[i])
    }

    /// An empty registry: no records, no index entries.
    pub fn new() -> (r: GPURegistry)
        ensures
            r.wf(),
            r.gpus@ == Seq::<GPU>::empty(),
            r.provider_index@ == Seq::<(u64, u32)>::empty(),
    {
        GPURegistry { gpus: Vec::new(), provider_index: Vec::new() }
    }

    /// Registers a new record for `provider` at ledger time `now`. On
    /// success the returned id is the previous `get_next_gpu_id()`, the
    /// record is stored with availability `true` and a zero job counter, and
    /// the id is appended to the provider's index.
    pub fn register_gpu(
        &mut self,
        provider: u64,
        model: String,
        vram_gb: u32,
        price_per_hour: i128,
        now: u64,
    ) -> (r: Result<u32, RegistryError>)
        requires
            old(self).wf(),
            old(self).gpus@.len() < u32::MAX as nat,
        ensures
            final(self).wf(),
            vram_gb == 0 ==> r == Err::<u32, RegistryError>(RegistryError::InvalidCapacity)
                && *final(self) == *old(self),
            vram_gb != 0 && price_per_hour <= 0 ==> r == Err::<u32, RegistryError>(
                RegistryError::InvalidPrice,
            ) && *final(self) == *old(self),
            vram_gb != 0 && price_per_hour > 0 ==> {
                &&& r == Ok::<u32, RegistryError>(old(self).gpus@.len() as u32)
                &&& final(self).gpus@ == old(self).gpus@.push(
                    (GPU {
                        provider,
                        model,
                        vram_gb,
                        price_per_hour,
                        available: true,
                        total_jobs: 0,
                        registered_at: now,
                    }),
                )
                &&& final(self).provider_index@ == old(self).provider_index@.push(
                    ((provider, old(self).gpus@.len() as u32)),
                )
                &&& ids_for(final(self).provider_index@, provider) == ids_for(
                    old(self).provider_index@,
                    provider,
                ).push(old(self).gpus@.len() as u32)
                &&& forall|p: u64| p != provider ==> ids_for(final(self).provider_index@, p)
                    == ids_for(old(self).provider_index@, p)
            },
    {
        if vram_gb == 0 {
            return Err(RegistryError::InvalidCapacity);
        }
        if price_per_hour <= 0 {
            return Err(RegistryError::InvalidPrice);
        }
        let gpu_id: u32 = self.gpus.len() as u32;
        let gpu = GPU {
            provider,
            model,
            vram_gb,
            price_per_hour,
            available: true,
            total_jobs: 0,
            registered_at: now,
        };
        self.gpus.push(gpu);
        self.provider_index.push((provider, gpu_id));
        proof {
            assert forall|p: u64| true implies ids_for(
                final(self).provider_index@,
                p,
            ) == if p == provider {
                ids_for(old(self).provider_index@, p).push(gpu_id)
            } else {
                ids_for(old(self).provider_index@, p)
            } by {
                lemma_ids_for_push(old(self).provider_index@, p, (provider, gpu_id));
            }
        }
        Ok(gpu_id)
    }

    /// Sets the availability flag of the record `gpu_id`, provided the
    /// caller owns it. Nothing else changes.
    pub fn set_availability(
        &mut self,
        provider: u64,
        gpu_id: u32,
        available: bool,
    ) -> (r: Result<(), RegistryError>)
        requires
            old(self).wf(),
        ensures
            final(self).wf(),
            old(self).gpus@.len() <= gpu_id as int ==> r == Err::<(), RegistryError>(
                RegistryError::NotFound,
            ) && *final(self) == *old(self),
            (gpu_id as int) < old(self).gpus@.len() && old(self).gpus@[gpu_id as int].provider
                != provider ==> r == Err::<(), RegistryError>(RegistryError::Unauthorized)
                && *final(self) == *old(self),
            (gpu_id as int) < old(self).gpus@.len() && old(self).gpus@[gpu_id as int].provider
                == provider ==> {
                &&& r == Ok::<(), RegistryError>(())
                &&& final(self).gpus@ == old(self).gpus@.update(
                    gpu_id as int,
                    (GPU { available, ..old(self).gpus@[gpu_id as int] }),
                )
                &&& final(self).provider_index@ == old(self).provider_index@
            },
    {
        if gpu_id as usize >= self.gpus.len() {
            return Err(RegistryError::NotFound);
        }
        let g = &self.gpus[gpu_id as usize];
        if g.provider != provider {
            return Err(RegistryError::Unauthorized);
        }
        let updated = GPU {
            provider: g.provider,
            model: g.model.clone(),
            vram_gb: g.vram_gb,
            price_per_hour: g.price_per_hour,
            available,
            total_jobs: g.total_jobs,
            registered_at: g.registered_at,
        };
        self.gpus.set(gpu_id as usize, updated);
        Ok(())
    }

    /// Overwrites the hourly price of the record `gpu_id` with a positive
    /// `new_price`, provided the caller owns it. Nothing else changes.
    pub fn update_price(
        &mut self,
        provider: u64,
        gpu_id: u32,
        new_price: i128,
    ) -> (r: Result<(), RegistryError>)
        requires
            old(self).wf(),
        ensures
            final(self).wf(),
            new_price <= 0 ==> r == Err::<(), RegistryError>(RegistryError::InvalidPrice)
                && *final(self) == *old(self),
            new_price > 0 && old(self).gpus@.len() <= gpu_id as int ==> r == Err::<
                (),
                RegistryError,
            >(RegistryError::NotFound) && *final(self) == *old(self),
            new_price > 0 && (gpu_id as int) < old(self).gpus@.len() && old(self).gpus@[
                gpu_id as int
            ].provider != provider ==> r == Err::<(), RegistryError>(RegistryError::Unauthorized)
                && *final(self) == *old(self),
            new_price > 0 && (gpu_id as int) < old(self).gpus@.len() && old(self).gpus@[
                gpu_id as int
            ].provider == provider ==> {
                &&& r == Ok::<(), RegistryError>(())
                &&& final(self).gpus@ == old(self).gpus@.update(
                    gpu_id as int,
                    (GPU { price_per_hour: new_price, ..old(self).gpus@[gpu_id as int] }),
                )
                &&& final(self).provider_index@ == old(self).provider_index@
            },
    {
        if new_price <= 0 {
            return Err(RegistryError::InvalidPrice);
        }
        if gpu_id as usize >= self.gpus.len() {
            return Err(RegistryError::NotFound);
        }
        let g = &self.gpus[gpu_id as usize];
        if g.provider != provider {
            return Err(RegistryError::Unauthorized);
        }
        let updated = GPU {
            provider: g.provider,
            model: g.model.clone(),
            vram_gb: g.vram_gb,
            price_per_hour: new_price,
            available: g.available,
            total_jobs: g.total_jobs,
            registered_at: g.registered_at,
        };
        self.gpus.set(gpu_id as usize, updated);
        Ok(())
    }

    /// Bumps the record's completed-job counter by one. No authorization:
    /// this is meant for a trusted marketplace-side caller, exactly once per
    /// completed job (the bump is not idempotent).
    pub fn increment_job_count(&mut self, gpu_id: u32) -> (r: Result<(), RegistryError>)
        requires
            old(self).wf(),
            (gpu_id as int) < old(self).gpus@.len() ==> old(self).gpus@[
                gpu_id as int
            ].total_jobs < u32::MAX,
        ensures
            final(self).wf(),
            old(self).gpus@.len() <= gpu_id as int ==> r == Err::<(), RegistryError>(
                RegistryError::NotFound,
            ) && *final(self) == *old(self),
            (gpu_id as int) < old(self).gpus@.len() ==> {
                &&& r == Ok::<(), RegistryError>(())
                &&& final(self).gpus@ == old(self).gpus@.update(
                    gpu_id as int,
                    (GPU {
                        total_jobs: (old(self).gpus@[gpu_id as int].total_jobs + 1) as u32,
                        ..old(self).gpus@[gpu_id as int]
                    }),
                )
                &&& final(self).provider_index@ == old(self).provider_index@
            },
    {
        if gpu_id as usize >= self.gpus.len() {
            return Err(RegistryError::NotFound);
        }
        let g = &self.gpus[gpu_id as usize];
        let updated = GPU {
            provider: g.provider,
            model: g.model.clone(),
            vram_gb: g.vram_gb,
            price_per_hour: g.price_per_hour,
            available: g.available,
            total_jobs: g.total_jobs + 1,
            registered_at: g.registered_at,
        };
        self.gpus.set(gpu_id as usize, updated);
        Ok(())
    }

    /// Returns a copy of the record `gpu_id`, or `NotFound`.
    pub fn get_gpu(&self, gpu_id: u32) -> (r: Result<GPU, RegistryError>)
        ensures
            (gpu_id as int) < self.gpus@.len() ==> r == Ok::<GPU, RegistryError>(
                self.gpus@[gpu_id as int],
            ),
            self.gpus@.len() <= gpu_id as int ==> r == Err::<GPU, RegistryError>(
                RegistryError::NotFound,
            ),
    {
        if gpu_id as usize >= self.gpus.len() {
            return Err(RegistryError::NotFound);
        }
        let g = &self.gpus[gpu_id as usize];
        Ok(
            GPU {
                provider: g.provider,
                model: g.model.clone(),
                vram_gb: g.vram_gb,
                price_per_hour: g.price_per_hour,
                available: g.available,
                total_jobs: g.total_jobs,
                registered_at: g.registered_at,
            },
        )
    }

    /// The ids the provider has registered, in registration order; empty if
    /// the provider never registered anything.
    pub fn get_provider_gpus(&self, provider: u64) -> (r: Vec<u32>)
        ensures
            r@ == ids_for(self.provider_index@, provider),
    {
        ids_in_log(&self.provider_index, provider)
    }

    /// The next id to be allocated, which equals the number of successful
    /// registrations so far.
    pub fn get_next_gpu_id(&self) -> (r: u32)
        requires
            self.wf(),
        ensures
            r == self.gpus@.len(),
    {
        self.gpus.len() as u32
    }
}

} // verus!

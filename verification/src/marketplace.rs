use vstd::prelude::*;
use vstd::pervasive::VecAdditionalExecFns;

use crate::index_log::ids_for;
use crate::index_log::ids_in_log;
use crate::index_log::lemma_ids_for_push;

verus! {

/// The cancellation cool-down: a claimed job may be cancelled by its
/// consumer only once this many time units have passed since the claim.
pub const CANCEL_COOLDOWN: u64 = 86400;

/// The largest escrowable amount, the amount type's maximum divided by 100:
/// it keeps the fee computation (`amount * 5 / 100`) inside the amount type.
pub const MAX_PAYMENT: i128 = 1701411834604692317316873037158841057;

/// Why a marketplace operation was refused.
#[derive(Clone, Copy, Debug, PartialEq, Eq, Structural)]
pub enum MarketError {
    /// `initialize` was called on an already initialized marketplace.
    AlreadyInitialized,
    /// A job was posted before the marketplace was initialized.
    NotInitialized,
    /// The requested duration was zero hours.
    InvalidHours,
    /// The payment amount was not positive.
    InvalidAmount,
    /// No job exists under the given id.
    NotFound,
    /// The job is no longer open for claiming.
    NotOpen,
    /// The job is not in the claimed state.
    NotClaimed,
    /// The caller is not the provider that claimed the job.
    WrongProvider,
    /// The caller is not the consumer that posted the job.
    WrongConsumer,
    /// The claim cool-down has not elapsed yet.
    TooEarly,
    /// The job already reached a terminal state.
    TerminalState,
}

/// A job's lifecycle state. The only legal transitions are
/// `Open → Claimed → Completed`, `Open → Cancelled` and
/// `Claimed → Cancelled`; `Completed` and `Cancelled` are terminal.
#[derive(Clone, Copy, Debug, PartialEq, Eq, Structural)]
pub enum JobStatus {
    Open,
    Claimed,
    Completed,
    Cancelled,
}

/// A unit of requested work with its escrowed payment. While the job is
/// open, `provider` holds the consumer identity as a placeholder meaning
/// "unclaimed"; `claimed_at` and `completed_at` stay zero until the
/// corresponding transition, and `result_hash` stays empty until completion.
pub struct Job {
    pub job_id: u32,
    pub consumer: u64,
    pub gpu_id: u32,
    pub description: String,
    pub compute_hours: u32,
    pub payment_amount: i128,
    pub provider: u64,
    pub status: JobStatus,
    pub created_at: u64,
    pub claimed_at: u64,
    pub completed_at: u64,
    pub result_hash: String,
}

/// The platform fee retained on completion: 5% of the amount, rounded down.
pub open spec fn fee_of(amount: int) -> int {
    amount * 5 / 100
}

/// The provider payout on completion: the escrowed amount less the fee.
pub open spec fn payout_of(amount: int) -> int {
    amount - fee_of(amount)
}

/// A stored job is well formed at index `i`: its id is `i`, its requested
/// duration is positive, and its escrowed amount is positive and small
/// enough for the fee computation.
pub open spec fn job_ok(j: Job, i: int) -> bool {
    &&& j.job_id == i
    &&& j.compute_hours > 0
    &&& 0 < j.payment_amount <= MAX_PAYMENT
}

/// The legal one-step status moves: staying put, `Open → Claimed`,
/// `Claimed → Completed`, and cancellation from `Open` or `Claimed`. Every
/// mutating operation ensures — succeed or fail — that each stored job's
/// status moves only along this relation, so a job can reach `Completed`
/// only through a claim, and never leaves a terminal state.
pub open spec fn status_step_allowed(pre: JobStatus, post: JobStatus) -> bool {
    ||| pre == post
    ||| (pre == JobStatus::Open && post == JobStatus::Claimed)
    ||| (pre == JobStatus::Claimed && post == JobStatus::Completed)
    ||| (pre == JobStatus::Open && post == JobStatus::Cancelled)
    ||| (pre == JobStatus::Claimed && post == JobStatus::Cancelled)
}

/// The record a successful `post_job` stores for id `job_id`.
pub open spec fn posted_job(
    j: Job,
    job_id: u32,
    consumer: u64,
    gpu_id: u32,
    description: String,
    compute_hours: u32,
    payment_amount: i128,
    now: u64,
) -> bool {
    &&& j.job_id == job_id
    &&& j.consumer == consumer
    &&& j.gpu_id == gpu_id
    &&& j.description == description
    &&& j.compute_hours == compute_hours
    &&& j.payment_amount == payment_amount
    &&& j.provider == consumer
    &&& j.status == JobStatus::Open
    &&& j.created_at == now
    &&& j.claimed_at == 0
    &&& j.completed_at == 0
    &&& j.result_hash@ == Seq::<char>::empty()
}

/// The job marketplace. Job ids are dense and increase from 0: the job with
/// id `i` sits at index `i` of `jobs`, so `jobs.len()` is the next free id.
/// `consumer_index` and `provider_index` are the append-only
/// consumer→posted-ids and provider→claimed-ids indices.
///
/// The host around this state machine owes three things per successful
/// operation: it authenticates the identity argument beforehand, it reads
/// the ledger clock into `now`, and it performs the token transfer the
/// operation prescribes (escrow in on post, payout on complete, refund on
/// cancel) in the same atomic unit, aborting the whole operation if the
/// transfer fails.
pub struct JobMarketplace {
    pub initialized: bool,
    pub gpu_registry: u64,
    pub token_address: u64,
    pub jobs: Vec<Job>,
    pub consumer_index: Vec<(u64, u32)>,
    pub provider_index: Vec<(u64, u32)>,
    pub platform_fees: i128,
}

impl JobMarketplace {
    /// Every stored job is well formed, the id space fits the id type, the
    /// fee accumulator is never negative, and nothing is stored before
    /// initialization.
    pub open spec fn wf(&self) -> bool {
        &&& self.jobs@.len() <= u32::MAX as nat
        &&& forall|i: int| 0 <= i < self.jobs@.len() ==> job_ok(#[trigger] self.jobs@[i], i)
        &&& self.platform_fees >= 0
        &&& !self.initialized ==> self.jobs@.len() == 0 && self.consumer_index@.len() == 0
            && self.provider_index@.len() == 0 && self.platform_fees == 0
    }

    /// An uninitialized marketplace: no jobs, no index entries, no fees.
    pub fn new() -> (r: JobMarketplace)
        ensures
            r.wf(),
            !r.initialized,
            r.jobs@ == Seq::<Job>::empty(),
            r.consumer_index@ == Seq::<(u64, u32)>::empty(),
            r.provider_index@ == Seq::<(u64, u32)>::empty(),
            r.platform_fees == 0,
    {
        JobMarketplace {
            initialized: false,
            gpu_registry: 0,
            token_address: 0,
            jobs: Vec::new(),
            consumer_index: Vec::new(),
            provider_index: Vec::new(),
            platform_fees: 0,
        }
    }

    /// One-time setup: records the registry and token identities and zeroes
    /// the fee accumulator. A second call fails with `AlreadyInitialized`
    /// and changes nothing.
    pub fn initialize(&mut self, gpu_registry: u64, token_address: u64) -> (r: Result<
        (),
        MarketError,
    >)
        requires
            old(self).wf(),
        ensures
            final(self).wf(),
            old(self).initialized ==> r == Err::<(), MarketError>(MarketError::AlreadyInitialized)
                && *final(self) == *old(self),
            !old(self).initialized ==> {
                &&& r == Ok::<(), MarketError>(())
                &&& final(self).initialized
                &&& final(self).gpu_registry == gpu_registry
                &&& final(self).token_address == token_address
                &&& final(self).platform_fees == 0
                &&& final(self).jobs@ == old(self).jobs@
                &&& final(self).consumer_index@ == old(self).consumer_index@
                &&& final(self).provider_index@ == old(self).provider_index@
            },
    {
        if self.initialized {
            return Err(MarketError::AlreadyInitialized);
        }
        self.initialized = true;
        self.gpu_registry = gpu_registry;
        self.token_address = token_address;
        self.platform_fees = 0;
        Ok(())
    }

    /// Posts a job for `consumer` at ledger time `now`. On success the
    /// returned id is the previous `get_next_job_id()`, an open record is
    /// stored with the consumer as placeholder provider, and the id is
    /// appended to the consumer's index. The host escrows `payment_amount`
    /// from the consumer before the record is committed.
    pub fn post_job(
        &mut self,
        consumer: u64,
        gpu_id: u32,
        description: String,
        compute_hours: u32,
        payment_amount: i128,
        now: u64,
    ) -> (r: Result<u32, MarketError>)
        requires
            old(self).wf(),
            old(self).jobs@.len() < u32::MAX as nat,
            payment_amount <= MAX_PAYMENT,
        ensures
            final(self).wf(),
            compute_hours == 0 ==> r == Err::<u32, MarketError>(MarketError::InvalidHours)
                && *final(self) == *old(self),
            compute_hours != 0 && payment_amount <= 0 ==> r == Err::<u32, MarketError>(
                MarketError::InvalidAmount,
            ) && *final(self) == *old(self),
            compute_hours != 0 && payment_amount > 0 && !old(self).initialized ==> r == Err::<
                u32,
                MarketError,
            >(MarketError::NotInitialized) && *final(self) == *old(self),
            compute_hours != 0 && payment_amount > 0 && old(self).initialized ==> {
                &&& r == Ok::<u32, MarketError>(old(self).jobs@.len() as u32)
                &&& final(self).jobs@.len() == old(self).jobs@.len() + 1
                &&& forall|k: int| 0 <= k < old(self).jobs@.len() ==> final(self).jobs@[k]
                    == old(self).jobs@[k]
                &&& posted_job(
                    final(self).jobs@[old(self).jobs@.len() as int],
                    old(self).jobs@.len() as u32,
                    consumer,
                    gpu_id,
                    description,
                    compute_hours,
                    payment_amount,
                    now,
                )
                &&& final(self).consumer_index@ == old(self).consumer_index@.push(
                    ((consumer, old(self).jobs@.len() as u32)),
                )
                &&& ids_for(final(self).consumer_index@, consumer) == ids_for(
                    old(self).consumer_index@,
                    consumer,
                ).push(old(self).jobs@.len() as u32)
                &&& forall|c: u64| c != consumer ==> ids_for(final(self).consumer_index@, c)
                    == ids_for(old(self).consumer_index@, c)
                &&& final(self).provider_index@ == old(self).provider_index@
                &&& final(self).platform_fees == old(self).platform_fees
                &&& final(self).initialized
            },
    {
        if compute_hours == 0 {
            return Err(MarketError::InvalidHours);
        }
        if payment_amount <= 0 {
            return Err(MarketError::InvalidAmount);
        }
        if !self.initialized {
            return Err(MarketError::NotInitialized);
        }
        let job_id: u32 = self.jobs.len() as u32;
        let job = Job {
            job_id,
            consumer,
            gpu_id,
            description,
            compute_hours,
            payment_amount,
            provider: consumer,
            status: JobStatus::Open,
            created_at: now,
            claimed_at: 0,
            completed_at: 0,
            result_hash: String::new(),
        };
        self.jobs.push(job);
        self.consumer_index.push((consumer, job_id));
        proof {
            assert forall|c: u64| c != consumer implies ids_for(
                final(self).consumer_index@,
                c,
            ) == ids_for(old(self).consumer_index@, c) by {
                lemma_ids_for_push(old(self).consumer_index@, c, (consumer, job_id));
            }
            lemma_ids_for_push(old(self).consumer_index@, consumer, (consumer, job_id));
        }
        Ok(job_id)
    }

    /// Claims the open job `job_id` for `provider` at ledger time `now`:
    /// the job becomes `Claimed`, records the provider and the claim time,
    /// and the id is appended to the provider's index. No funds move.
    pub fn claim_job(&mut self, provider: u64, job_id: u32, now: u64) -> (r: Result<
        (),
        MarketError,
    >)
        requires
            old(self).wf(),
        ensures
            final(self).wf(),
            final(self).jobs@.len() == old(self).jobs@.len(),
            forall|k: int| 0 <= k < old(self).jobs@.len() ==> status_step_allowed(
                old(self).jobs@[k].status,
                (#[trigger] final(self).jobs@[k]).status,
            ),
            old(self).jobs@.len() <= job_id as int ==> r == Err::<(), MarketError>(
                MarketError::NotFound,
            ) && *final(self) == *old(self),
            (job_id as int) < old(self).jobs@.len() && old(self).jobs@[job_id as int].status
                != JobStatus::Open ==> r == Err::<(), MarketError>(MarketError::NotOpen)
                && *final(self) == *old(self),
            (job_id as int) < old(self).jobs@.len() && old(self).jobs@[job_id as int].status
                == JobStatus::Open ==> {
                &&& r == Ok::<(), MarketError>(())
                &&& final(self).jobs@ == old(self).jobs@.update(
                    job_id as int,
                    (Job {
                        provider,
                        status: JobStatus::Claimed,
                        claimed_at: now,
                        ..old(self).jobs@[job_id as int]
                    }),
                )
                &&& final(self).provider_index@ == old(self).provider_index@.push(
                    ((provider, job_id)),
                )
                &&& ids_for(final(self).provider_index@, provider) == ids_for(
                    old(self).provider_index@,
                    provider,
                ).push(job_id)
                &&& forall|p: u64| p != provider ==> ids_for(final(self).provider_index@, p)
                    == ids_for(old(self).provider_index@, p)
                &&& final(self).consumer_index@ == old(self).consumer_index@
                &&& final(self).platform_fees == old(self).platform_fees
            },
    {
        if job_id as usize >= self.jobs.len() {
            return Err(MarketError::NotFound);
        }
        let j = &self.jobs[job_id as usize];
        if j.status != JobStatus::Open {
            return Err(MarketError::NotOpen);
        }
        let updated = Job {
            job_id: j.job_id,
            consumer: j.consumer,
            gpu_id: j.gpu_id,
            description: j.description.clone(),
            compute_hours: j.compute_hours,
            payment_amount: j.payment_amount,
            provider,
            status: JobStatus::Claimed,
            created_at: j.created_at,
            claimed_at: now,
            completed_at: j.completed_at,
            result_hash: j.result_hash.clone(),
        };
        self.jobs.set(job_id as usize, updated);
        self.provider_index.push((provider, job_id));
        proof {
            assert forall|p: u64| p != provider implies ids_for(
                final(self).provider_index@,
                p,
            ) == ids_for(old(self).provider_index@, p) by {
                lemma_ids_for_push(old(self).provider_index@, p, (provider, job_id));
            }
            lemma_ids_for_push(old(self).provider_index@, provider, (provider, job_id));
        }
        Ok(())
    }

    /// Completes the claimed job `job_id`: only the provider that claimed it
    /// may complete it. The job becomes `Completed` with the given result
    /// attestation, the platform fee (5% of the escrowed amount, rounded
    /// down) is added to the accumulator, and the returned payout — the
    /// remainder, so fee plus payout equals the escrowed amount exactly —
    /// is what the host owes the provider from escrow.
    pub fn complete_job(
        &mut self,
        provider: u64,
        job_id: u32,
        result_hash: String,
        now: u64,
    ) -> (r: Result<i128, MarketError>)
        requires
            old(self).wf(),
            old(self).platform_fees <= i128::MAX - MAX_PAYMENT,
        ensures
            final(self).wf(),
            final(self).jobs@.len() == old(self).jobs@.len(),
            forall|k: int| 0 <= k < old(self).jobs@.len() ==> status_step_allowed(
                old(self).jobs@[k].status,
                (#[trigger] final(self).jobs@[k]).status,
            ),
            old(self).jobs@.len() <= job_id as int ==> r == Err::<i128, MarketError>(
                MarketError::NotFound,
            ) && *final(self) == *old(self),
            (job_id as int) < old(self).jobs@.len() && old(self).jobs@[job_id as int].status
                != JobStatus::Claimed ==> r == Err::<i128, MarketError>(MarketError::NotClaimed)
                && *final(self) == *old(self),
            (job_id as int) < old(self).jobs@.len() && old(self).jobs@[job_id as int].status
                == JobStatus::Claimed && old(self).jobs@[job_id as int].provider != provider ==> r
                == Err::<i128, MarketError>(MarketError::WrongProvider) && *final(self) == *old(
                self,
            ),
            (job_id as int) < old(self).jobs@.len() && old(self).jobs@[job_id as int].status
                == JobStatus::Claimed && old(self).jobs@[job_id as int].provider == provider ==> {
                &&& r == Ok::<i128, MarketError>(
                    payout_of(old(self).jobs@[job_id as int].payment_amount as int) as i128,
                )
                &&& final(self).jobs@ == old(self).jobs@.update(
                    job_id as int,
                    (Job {
                        status: JobStatus::Completed,
                        completed_at: now,
                        result_hash,
                        ..old(self).jobs@[job_id as int]
                    }),
                )
                &&& final(self).platform_fees == old(self).platform_fees + fee_of(
                    old(self).jobs@[job_id as int].payment_amount as int,
                )
                &&& final(self).consumer_index@ == old(self).consumer_index@
                &&& final(self).provider_index@ == old(self).provider_index@
            },
    {
        if job_id as usize >= self.jobs.len() {
            return Err(MarketError::NotFound);
        }
        let j = &self.jobs[job_id as usize];
        if j.status != JobStatus::Claimed {
            return Err(MarketError::NotClaimed);
        }
        if j.provider != provider {
            return Err(MarketError::WrongProvider);
        }
        proof {
            lemma_fee_payout_split(j.payment_amount as int);
        }
        let fee: i128 = j.payment_amount * 5 / 100;
        let payout: i128 = j.payment_amount - fee;
        let updated = Job {
            job_id: j.job_id,
            consumer: j.consumer,
            gpu_id: j.gpu_id,
            description: j.description.clone(),
            compute_hours: j.compute_hours,
            payment_amount: j.payment_amount,
            provider: j.provider,
            status: JobStatus::Completed,
            created_at: j.created_at,
            claimed_at: j.claimed_at,
            completed_at: now,
            result_hash,
        };
        self.jobs.set(job_id as usize, updated);
        self.platform_fees = self.platform_fees + fee;
        Ok(payout)
    }

    /// Cancels the job `job_id`: only the consumer that posted it may
    /// cancel. An open job cancels at once; a claimed one only when the
    /// cool-down has elapsed since the claim; a terminal one never. The
    /// returned refund is the full escrowed amount — no fee is taken — and
    /// is what the host owes the consumer from escrow.
    pub fn cancel_job(&mut self, consumer: u64, job_id: u32, now: u64) -> (r: Result<
        i128,
        MarketError,
    >)
        requires
            old(self).wf(),
        ensures
            final(self).wf(),
            final(self).jobs@.len() == old(self).jobs@.len(),
            forall|k: int| 0 <= k < old(self).jobs@.len() ==> status_step_allowed(
                old(self).jobs@[k].status,
                (#[trigger] final(self).jobs@[k]).status,
            ),
            old(self).jobs@.len() <= job_id as int ==> r == Err::<i128, MarketError>(
                MarketError::NotFound,
            ) && *final(self) == *old(self),
            (job_id as int) < old(self).jobs@.len() && old(self).jobs@[job_id as int].consumer
                != consumer ==> r == Err::<i128, MarketError>(MarketError::WrongConsumer)
                && *final(self) == *old(self),
            (job_id as int) < old(self).jobs@.len() && old(self).jobs@[job_id as int].consumer
                == consumer && old(self).jobs@[job_id as int].status == JobStatus::Claimed && (
            now as int) < old(self).jobs@[job_id as int].claimed_at + CANCEL_COOLDOWN ==> r
                == Err::<i128, MarketError>(MarketError::TooEarly) && *final(self) == *old(self),
            (job_id as int) < old(self).jobs@.len() && old(self).jobs@[job_id as int].consumer
                == consumer && (old(self).jobs@[job_id as int].status == JobStatus::Completed
                || old(self).jobs@[job_id as int].status == JobStatus::Cancelled) ==> r == Err::<
                i128,
                MarketError,
            >(MarketError::TerminalState) && *final(self) == *old(self),
            (job_id as int) < old(self).jobs@.len() && old(self).jobs@[job_id as int].consumer
                == consumer && (old(self).jobs@[job_id as int].status == JobStatus::Open || (
            old(self).jobs@[job_id as int].status == JobStatus::Claimed && old(self).jobs@[
                job_id as int
            ].claimed_at + CANCEL_COOLDOWN <= now as int)) ==> {
                &&& r == Ok::<i128, MarketError>(old(self).jobs@[job_id as int].payment_amount)
                &&& final(self).jobs@ == old(self).jobs@.update(
                    job_id as int,
                    (Job { status: JobStatus::Cancelled, ..old(self).jobs@[job_id as int] }),
                )
                &&& final(self).consumer_index@ == old(self).consumer_index@
                &&& final(self).provider_index@ == old(self).provider_index@
                &&& final(self).platform_fees == old(self).platform_fees
            },
    {
        if job_id as usize >= self.jobs.len() {
            return Err(MarketError::NotFound);
        }
        let j = &self.jobs[job_id as usize];
        if j.consumer != consumer {
            return Err(MarketError::WrongConsumer);
        }
        if j.status == JobStatus::Claimed {
            if !(now >= j.claimed_at && now - j.claimed_at >= CANCEL_COOLDOWN) {
                return Err(MarketError::TooEarly);
            }
        } else if j.status != JobStatus::Open {
            return Err(MarketError::TerminalState);
        }
        let refund: i128 = j.payment_amount;
        let updated = Job {
            job_id: j.job_id,
            consumer: j.consumer,
            gpu_id: j.gpu_id,
            description: j.description.clone(),
            compute_hours: j.compute_hours,
            payment_amount: j.payment_amount,
            provider: j.provider,
            status: JobStatus::Cancelled,
            created_at: j.created_at,
            claimed_at: j.claimed_at,
            completed_at: j.completed_at,
            result_hash: j.result_hash.clone(),
        };
        self.jobs.set(job_id as usize, updated);
        Ok(refund)
    }

    /// Returns a copy of the job `job_id`, or `NotFound`.
    pub fn get_job(&self, job_id: u32) -> (r: Result<Job, MarketError>)
        ensures
            (job_id as int) < self.jobs@.len() ==> r == Ok::<Job, MarketError>(
                self.jobs@[job_id as int],
            ),
            self.jobs@.len() <= job_id as int ==> r == Err::<Job, MarketError>(
                MarketError::NotFound,
            ),
    {
        if job_id as usize >= self.jobs.len() {
            return Err(MarketError::NotFound);
        }
        let j = &self.jobs[job_id as usize];
        Ok(
            Job {
                job_id: j.job_id,
                consumer: j.consumer,
                gpu_id: j.gpu_id,
                description: j.description.clone(),
                compute_hours: j.compute_hours,
                payment_amount: j.payment_amount,
                provider: j.provider,
                status: j.status,
                created_at: j.created_at,
                claimed_at: j.claimed_at,
                completed_at: j.completed_at,
                result_hash: j.result_hash.clone(),
            },
        )
    }

    /// The ids of the jobs the consumer has posted, in posting order.
    pub fn get_consumer_jobs(&self, consumer: u64) -> (r: Vec<u32>)
        ensures
            r@ == ids_for(self.consumer_index@, consumer),
    {
        ids_in_log(&self.consumer_index, consumer)
    }

    /// The ids of the jobs the provider has claimed, in claim order.
    pub fn get_provider_jobs(&self, provider: u64) -> (r: Vec<u32>)
        ensures
            r@ == ids_for(self.provider_index@, provider),
    {
        ids_in_log(&self.provider_index, provider)
    }

    /// The next id to be allocated, which equals the number of successfully
    /// posted jobs.
    pub fn get_next_job_id(&self) -> (r: u32)
        requires
            self.wf(),
        ensures
            r == self.jobs@.len(),
    {
        self.jobs.len() as u32
    }

    /// The accumulated platform fees.
    pub fn get_platform_fees(&self) -> (r: i128)
        ensures
            r == self.platform_fees,
    {
        self.platform_fees
    }
}

/// The completion settlement never creates or destroys value: the platform
/// fee and the provider payout split the escrowed amount exactly, the fee is
/// `floor(amount * 5 / 100)`, and both parts lie between zero and the
/// amount.
pub proof fn lemma_fee_payout_split(amount: int)
    requires
        0 < amount,
    ensures
        fee_of(amount) + payout_of(amount) == amount,
        fee_of(amount) == amount * 5 / 100,
        0 <= fee_of(amount) <= amount,
        0 <= payout_of(amount) <= amount,
{
    assert(0 <= amount * 5 / 100 <= amount) by (nonlinear_arith)
        requires
            0 < amount,
    ;
}

} // verus!

//! A two-ledger compute marketplace: a registry of rentable GPU resources and
//! a job marketplace with escrowed payment, claim/complete/cancel lifecycle,
//! platform-fee accounting and a time-locked cancellation rule.
//!
//! Both components are pure state machines over plain values. The host
//! environment (persistent storage, caller authentication, the ledger clock,
//! token transfers and event emission) sits outside this crate: callers
//! authenticate identities, read the clock, and perform the token transfers
//! that each successful operation prescribes.

mod index_log;
mod marketplace;
mod registry;

pub use index_log::ids_for;
pub use index_log::ids_in_log;
pub use index_log::lemma_ids_for_push;
pub use marketplace::CANCEL_COOLDOWN;
pub use marketplace::Job;
pub use marketplace::JobMarketplace;
pub use marketplace::JobStatus;
pub use marketplace::MAX_PAYMENT;
pub use marketplace::MarketError;
pub use marketplace::fee_of;
pub use marketplace::job_ok;
pub use marketplace::lemma_fee_payout_split;
pub use marketplace::payout_of;
pub use marketplace::posted_job;
pub use marketplace::status_step_allowed;
pub use registry::GPU;
pub use registry::GPURegistry;
pub use registry::RegistryError;
pub use registry::gpu_ok;

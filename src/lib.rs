//! Speculative parallel execution core: the per-transaction execution task,
//! the status taxonomy it reports, and the transaction supplies that workers
//! read by index.

pub mod status;
pub mod task;
mod sync_specs;
pub mod txn_provider;
pub mod blocking_txns_provider;

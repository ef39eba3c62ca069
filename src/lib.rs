//! Recurring-payment subscriptions whose renewals are authorized by
//! single-use approvals, serialized by per-subscription locks, deduplicated
//! per billing cycle and guarded against tampering by a digest of their
//! terms. The ledger host is modelled by `types::Env` (height, time,
//! signatures) and by each contract's own storage.

pub mod agent_registry;
pub mod digest;
pub mod laws;
pub mod logging;
pub mod records;
pub mod registry;
pub mod renewal;
pub mod types;

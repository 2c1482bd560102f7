//! Core of an endpoint compliance agent: policy synchronisation with an offline
//! fallback, matching of running processes against the policy, suppression of
//! repeated alerts, and the scheduler that ties these together.

pub mod authority;
pub mod credential;
pub mod dedup;
pub mod error;
pub mod guarantees;
pub mod matcher;
pub mod policy;
pub mod query;
pub mod scan;
pub mod scheduler;
pub mod sync;

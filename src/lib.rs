//! Scheduler-driven continuous deployment of repository content to host units.
//!
//! The library holds the decisions: the job registry with its at-most-once
//! bootstrap and per-job exclusion, the per-tick state machine that drives
//! bootstrap, sync, the redeploy decision and the deployment pipeline, and the
//! naming of each job's working directory. Performing the actions (network,
//! filesystem, service manager, scheduling) is left to the caller.
pub mod config;
pub mod ident;
pub mod registry;
pub mod tick;
pub mod laws;
pub mod unit;

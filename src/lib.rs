//! Job state synchronisation and authorisation engine for a genome
//! annotation web service: name sanitising, parameter derivation, the job
//! registry with its reconciliation step, and the request shapes sent to the
//! workflow orchestrator and the object store.

pub mod text;
pub mod sanitize;
pub mod config;
pub mod status;
pub mod ids;
pub mod argo;
pub mod registry;
pub mod reconcile;
pub mod s3;
pub mod logs;

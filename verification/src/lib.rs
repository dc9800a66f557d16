//! Resolver for the latest fully successful continuous-integration
//! artifact: it scans workflow runs, keeps the first completed run whose
//! jobs all report `Completed`, picks that run's first non-expired
//! artifact, and assembles the response headers and body, including a
//! SHA-256 integrity hash over the artifact bytes.
//!
//! Network calls to the forge API and the HTTP transport live in the
//! surrounding program; every decision between those calls is made here.

pub mod artifact;
pub mod hashing;
pub mod model;
pub mod response;
pub mod select;

pub use model::{Artifact, Job, JobStatus, WorkflowRun};
pub use select::RunSelector;
pub use response::HandlerResponse;

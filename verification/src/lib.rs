//! Fetch-then-verify pipeline for dataset releases.
//!
//! A remote catalog lists the published releases of a dataset. The pipeline
//! selects the latest release from the catalog, downloads its archive, and
//! accepts the downloaded bytes only when their SHA-256 digest matches the
//! digest announced in the release metadata. The network and filesystem work
//! happens outside this crate; the decisions — which release to take, which
//! downloads to accept, which failure to report — are made and verified here.

pub mod catalog;
pub mod endpoint;
pub mod errors;
pub mod integrity;
pub mod pipeline;

pub use errors::PipelineError;

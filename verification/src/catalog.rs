//! The release catalog and latest-release selection.
//!
//! The catalog endpoint answers with an ordered list of releases, newest
//! first. The pipeline consumes only the first entry; a catalog with no
//! entries is a fatal decode failure, reported before any download starts.

use vstd::prelude::*;
use crate::errors::PipelineError;

verus! {

/// The top-level catalog response: an API version, the ordered release list,
/// the service's own status code, and a human-readable message.
#[derive(Clone, Debug, PartialEq)]
pub struct Root {
    pub api_version: String,
    pub releases: Vec<Release>,
    pub http_status: i64,
    pub message: String,
}

/// One published release of the dataset. The archive fields drive the
/// pipeline; the checksum-file, signature-file and public-key fields are
/// carried for schema fidelity and never consumed.
#[derive(Clone, Debug, PartialEq)]
pub struct Release {
    pub id: String,
    pub name: String,
    pub release_date: String,
    pub archive_file_url: String,
    pub archive_file_name: String,
    pub archive_file_size_bytes: i64,
    pub archive_file_sha256: String,
    pub archive_file_last_modified_timestamp: String,
    pub checksum_file_url: String,
    pub checksum_file_name: String,
    pub checksum_file_size_bytes: i64,
    pub checksum_file_last_modified_timestamp: String,
    pub signature_file_url: String,
    pub signature_file_name: String,
    pub signature_file_size_bytes: i64,
    pub signature_file_last_modified_timestamp: String,
    pub public_key_file_url: String,
    pub public_key_file_name: String,
    pub public_key_file_size_bytes: i64,
    pub public_key_id: i64,
}

/// What latest-release selection yields for a catalog: its first release, or
/// a decode failure when the catalog lists none.
pub open spec fn spec_select(catalog: Root) -> Result<Release, PipelineError> {
    if catalog.releases@.len() == 0 {
        Err(PipelineError::Decode)
    } else {
        Ok(catalog.releases@[0])
    }
}

/// Picks the latest release out of a catalog response: the first entry of the
/// release list, whatever the list's length; an empty list is rejected as a
/// decode failure.
pub fn select_latest_release(catalog: &Root) -> (r: Result<&Release, PipelineError>)
    ensures
        match r {
            Ok(release) => spec_select(*catalog) == Ok::<Release, PipelineError>(*release),
            Err(e) => spec_select(*catalog) == Err::<Release, PipelineError>(e),
        },
{
    if catalog.releases.len() == 0 {
        Err(PipelineError::Decode)
    } else {
        Ok(&catalog.releases[0])
    }
}

/// Law: a catalog with at least one release always selects the first entry of
/// the sequence, regardless of how many entries follow it.
pub proof fn lemma_latest_is_first(catalog: Root)
    requires
        catalog.releases@.len() >= 1,
    ensures
        spec_select(catalog) == Ok::<Release, PipelineError>(catalog.releases@[0]),
{
}

} // verus!

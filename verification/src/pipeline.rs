//! The pipeline end to end: select the latest release, fetch its archive,
//! store the bytes, verify their digest.
//!
//! The two network requests and the file writing happen outside this crate;
//! their outcomes are handed in as plain values. This module decides what
//! every such outcome means for the run, and `pipeline_outcome` states the
//! whole run's result against a fixed remote state.

use vstd::prelude::*;
use crate::catalog::{Root, spec_select};
use crate::errors::PipelineError;
use crate::integrity::{digest_accepted, validate_file_hash};

verus! {

/// What one full run yields against a fixed remote state: the catalog answer,
/// and the outcome of fetching the selected release's archive. `Ok` carries
/// exactly the bytes that are stored at the local path and verified.
pub open spec fn pipeline_outcome(
    catalog: Root,
    download: Result<Seq<u8>, PipelineError>,
) -> Result<Seq<u8>, PipelineError> {
    match spec_select(catalog) {
        Err(e) => Err(e),
        Ok(release) => match download {
            Err(e) => Err(e),
            Ok(bytes) => if digest_accepted(bytes, release.archive_file_sha256@) {
                Ok(bytes)
            } else {
                Err(PipelineError::Integrity)
            },
        },
    }
}

/// Judges the downloaded archive once its bytes are stored locally. A failed
/// fetch is passed through unchanged; stored bytes are held against the
/// announced digest, and on success the downloaded size is reported. Success
/// is only ever reported for a full 64-character announced digest.
pub fn verify_downloaded_archive(
    download: Result<Vec<u8>, PipelineError>,
    expected_hash: &String,
) -> (r: Result<usize, PipelineError>)
    ensures
        download is Err ==> r == Err::<usize, PipelineError>(download->Err_0),
        download is Ok && digest_accepted(download->Ok_0@, expected_hash@) ==> r is Ok
            && r->Ok_0 == download->Ok_0@.len(),
        r is Ok ==> expected_hash@.len() == 64,
        download is Ok && !digest_accepted(download->Ok_0@, expected_hash@) ==> r == Err::<
            usize,
            PipelineError,
        >(PipelineError::Integrity),
{
    match download {
        Err(e) => Err(e),
        Ok(bytes) => match validate_file_hash(&bytes, expected_hash) {
            Ok(()) => Ok(bytes.len()),
            Err(e) => Err(e),
        },
    }
}

/// Law: the pipeline is idempotent. Two runs against an unchanged remote
/// release — the same catalog answer and the same archive fetch outcome — end
/// the same way, and when they succeed they store byte-identical local files.
pub proof fn lemma_pipeline_idempotent(
    catalog: Root,
    first_download: Result<Seq<u8>, PipelineError>,
    second_download: Result<Seq<u8>, PipelineError>,
)
    requires
        first_download == second_download,
    ensures
        pipeline_outcome(catalog, first_download) == pipeline_outcome(catalog, second_download),
        pipeline_outcome(catalog, first_download) is Ok ==> pipeline_outcome(
            catalog,
            first_download,
        )->Ok_0 == pipeline_outcome(catalog, second_download)->Ok_0,
{
}

/// Law: an empty catalog fails the run with a decode error and never attempts
/// the archive download — the outcome is the same whatever a fetch would have
/// returned.
pub proof fn lemma_empty_catalog_stops_pipeline(
    catalog: Root,
    some_download: Result<Seq<u8>, PipelineError>,
    other_download: Result<Seq<u8>, PipelineError>,
)
    requires
        catalog.releases@.len() == 0,
    ensures
        pipeline_outcome(catalog, some_download) == Err::<Seq<u8>, PipelineError>(
            PipelineError::Decode,
        ),
        pipeline_outcome(catalog, some_download) == pipeline_outcome(catalog, other_download),
{
}

/// Law: a failed archive fetch — a connection error or a non-success status —
/// never ends in success: the run reports a failure, and no bytes are ever
/// claimed verified.
pub proof fn lemma_transport_failure_propagates(catalog: Root, failure: PipelineError)
    ensures
        pipeline_outcome(catalog, Err(failure)) is Err,
{
}

} // verus!

//! The failure taxonomy of the pipeline.
//!
//! Every failure is fatal to the run: nothing is retried and nothing is
//! recovered. Each variant names the stage that gave up.

use vstd::prelude::*;

verus! {

/// The kinds of failure a pipeline run can end in.
#[derive(Clone, Copy, Debug, PartialEq, Eq, Structural)]
pub enum PipelineError {
    /// The API key or release identifier is missing or unusable.
    Config,
    /// A request could not be completed, or came back with a non-success status.
    Transport,
    /// The metadata response did not decode, or listed no releases.
    Decode,
    /// The local archive file could not be created, written, or read back.
    Filesystem,
    /// The downloaded bytes hash to a digest other than the announced one.
    Integrity,
}

impl PipelineError {
    /// The diagnostic line reported for this failure kind.
    pub open spec fn spec_describe(self) -> Seq<char> {
        match self {
            PipelineError::Config => "missing or invalid API key or release identifier"@,
            PipelineError::Transport => "network request failed or returned a non-success status"@,
            PipelineError::Decode => "release metadata did not decode or listed no releases"@,
            PipelineError::Filesystem => "local archive file could not be written or read back"@,
            PipelineError::Integrity => "calculated hash differed from the provided hash: file corrupted"@,
        }
    }

    /// A diagnostic message naming the failure kind.
    pub fn describe(&self) -> (r: String)
        ensures
            r@ == self.spec_describe(),
    {
        match self {
            PipelineError::Config => "missing or invalid API key or release identifier".to_owned(),
            PipelineError::Transport => "network request failed or returned a non-success status".to_owned(),
            PipelineError::Decode => "release metadata did not decode or listed no releases".to_owned(),
            PipelineError::Filesystem => "local archive file could not be written or read back".to_owned(),
            PipelineError::Integrity => "calculated hash differed from the provided hash: file corrupted".to_owned(),
        }
    }
}

} // verus!

use crate::archive::SelectionError;
use crate::digest::VerificationError;
use crate::digest::VerificationFailure;
use vstd::prelude::*;

verus! {

/// The request for a year's archive did not bring its bytes.
#[derive(Debug, PartialEq, Eq)]
pub struct FetchError {
    pub year: u16,
    pub cause: String,
}

/// The file system refused to answer or to store.
#[derive(Debug, PartialEq, Eq)]
pub struct IoError {
    pub cause: String,
}

/// Why the pipeline of one year stopped short.
#[derive(Debug, PartialEq, Eq)]
pub enum PipelineError {
    Fetch(FetchError),
    Selection(SelectionError),
    Verification(VerificationError),
    Io(IoError),
}

/// What a [`PipelineError`] says, as plain text.
pub ghost enum PipelineFailure {
    Fetch { year: u16, cause: Seq<char> },
    Selection(SelectionError),
    Verification(VerificationFailure),
    Io { cause: Seq<char> },
}

impl View for PipelineError {
    type V = PipelineFailure;

    open spec fn view(&self) -> PipelineFailure {
        match self {
            PipelineError::Fetch(e) => PipelineFailure::Fetch { year: e.year, cause: e.cause@ },
            PipelineError::Selection(e) => PipelineFailure::Selection(*e),
            PipelineError::Verification(e) => PipelineFailure::Verification(e@),
            PipelineError::Io(e) => PipelineFailure::Io { cause: e.cause@ },
        }
    }
}

} // verus!

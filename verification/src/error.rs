use crate::types::ProtocolPort;
use vstd::prelude::*;

verus! {

/// A result type to return `ProcCtlError`s
pub type ProcCtlResult<T> = Result<T, ProcCtlError>;

/// What can go wrong in a query
#[derive(Debug)]
pub enum ProcCtlError {
    /// Reading the operating system's tables failed; holds the platform's own text
    ProcessError(String),
    /// The user made an error using the API, a more specific error message will be provided
    ConfigurationError(String),
    /// Fewer ports than expected were found on the matched process
    TooFewPorts(Vec<ProtocolPort>, usize),
    /// Too few children were found on the matched process
    TooFewChildren(usize, usize),
    /// A transport-table backend failed
    NetworkError,
}

/// A `ProcCtlError` as a mathematical value.
pub ghost enum ErrorView {
    ProcessError(Seq<char>),
    ConfigurationError(Seq<char>),
    TooFewPorts(Seq<ProtocolPort>, nat),
    TooFewChildren(nat, nat),
    NetworkError,
}

impl View for ProcCtlError {
    type V = ErrorView;

    open spec fn view(&self) -> ErrorView {
        match self {
            ProcCtlError::ProcessError(text) => ErrorView::ProcessError(text@),
            ProcCtlError::ConfigurationError(text) => ErrorView::ConfigurationError(text@),
            ProcCtlError::TooFewPorts(found, expected) => ErrorView::TooFewPorts(
                found@,
                *expected as nat,
            ),
            ProcCtlError::TooFewChildren(found, expected) => ErrorView::TooFewChildren(
                *found as nat,
                *expected as nat,
            ),
            ProcCtlError::NetworkError => ErrorView::NetworkError,
        }
    }
}

} // verus!

use crate::error::{ErrorView, ProcCtlError, ProcCtlResult};
use crate::types::Pid;
use vstd::prelude::*;

verus! {

/// A query that may name the process it is about.
pub trait MaybeHasPid {
    /// The pid that the query names, if it names one.
    spec fn spec_pid(&self) -> Option<Pid>;

    /// The pid that the query names, if it names one.
    fn get_pid(&self) -> (pid: Option<Pid>)
        ensures
            pid == self.spec_pid(),
    ;
}

/// The text of the error for a query that names no process.
pub open spec fn unresolved_pid_text() -> Seq<char> {
    "unable to resolve a pid"@
}

/// What resolving the pid `pid` of a query gives.
pub open spec fn resolved(pid: Option<Pid>) -> Result<Pid, ErrorView> {
    match pid {
        Some(pid) => Ok(pid),
        None => Err(ErrorView::ConfigurationError(unresolved_pid_text())),
    }
}

/// The pid that `maybe_has_pid` names, or a configuration error where it names none.
pub fn resolve_pid(maybe_has_pid: &dyn MaybeHasPid) -> (pid: ProcCtlResult<Pid>)
    ensures
        match pid {
            Ok(pid) => resolved(maybe_has_pid.spec_pid()) == Ok::<Pid, ErrorView>(pid),
            Err(error) => resolved(maybe_has_pid.spec_pid()) == Err::<Pid, ErrorView>(error@),
        },
{
    match maybe_has_pid.get_pid() {
        Some(pid) => Ok(pid),
        None => Err(ProcCtlError::ConfigurationError("unable to resolve a pid".to_string())),
    }
}

} // verus!

//! The end of a guest's run, and the exit code that the host reports for it.

use vstd::prelude::*;
use crate::native;

verus! {

/// How the start function of a guest ended.
#[derive(Debug, Clone, Copy, PartialEq, Eq, Structural)]
pub enum Termination {
    /// It came to its end without asking to exit.
    Returned,
    /// It asked to exit with the given code.
    Exited(native::exitcode),
    /// It failed in any other way.
    Failed,
}

/// The exit code of a guest: 0 where its start function came to its end,
/// and the code that it asked to exit with. Any other failure has no exit
/// code: it is an error of the run.
pub fn exit_code(termination: Termination) -> (code: Option<native::exitcode>)
    ensures
        code == match termination {
            Termination::Returned => Some(0u32),
            Termination::Exited(code) => Some(code),
            Termination::Failed => None,
        },
{
    match termination {
        Termination::Returned => Some(0),
        Termination::Exited(code) => Some(code),
        Termination::Failed => None,
    }
}

} // verus!

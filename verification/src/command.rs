//! How the release tooling reads the exit code of a finished command.
use vstd::prelude::*;

verus! {

/// The failure that an exit code reports: a code other than zero.
/// A missing code (the process was ended by a signal) counts as success.
pub open spec fn exit_failure(code: Option<i32>) -> Option<i32> {
    match code {
        Some(status) => if status == 0 { None } else { Some(status) },
        None => None,
    }
}

/// Reads an exit code: `Ok` for `Some(0)` and for no code at all,
/// `Err(status)` for any other code.
pub fn exit_outcome(code: Option<i32>) -> (r: Result<(), i32>)
    ensures
        r is Ok <==> exit_failure(code) is None,
        r matches Err(status) ==> exit_failure(code) == Some(status),
{
    match code {
        Some(status) => if status == 0 { Ok(()) } else { Err(status) },
        None => Ok(()),
    }
}

} // verus!

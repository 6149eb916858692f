//! Creating a new project: how the exit code of the scaffolding tool
//! `npx create-next-app` is read.
use vstd::prelude::*;

verus! {

/// Why scaffolding a new project failed.
#[derive(Debug)]
pub enum NewProjectError {
    /// `npx` answered that npm is missing (exit code 2).
    NpmNotFound,
    /// The user ended the setup (exit code 1).
    SetupTerminated,
    /// The tool failed with another exit code.
    CreateNextAppFailed { code: i32 },
}

/// Reads the exit code of `npx create-next-app`: 0 and no code at all are
/// success, 1 and 2 have errors of their own, and any other code is
/// reported as it came.
pub fn scaffold_outcome(code: Option<i32>) -> (r: Result<(), NewProjectError>)
    ensures
        match code {
            None => r is Ok,
            Some(c) => if c == 0 {
                r is Ok
            } else if c == 1 {
                r matches Err(NewProjectError::SetupTerminated)
            } else if c == 2 {
                r matches Err(NewProjectError::NpmNotFound)
            } else {
                r matches Err(NewProjectError::CreateNextAppFailed { code: k }) && k == c
            },
        },
{
    match code {
        Some(0) => Ok(()),
        Some(1) => Err(NewProjectError::SetupTerminated),
        Some(2) => Err(NewProjectError::NpmNotFound),
        Some(c) => Err(NewProjectError::CreateNextAppFailed { code: c }),
        None => Ok(()),
    }
}

} // verus!

//! Errors reported by the operating system.
use vstd::prelude::*;

verus! {

/// An error of the host operating system.
#[derive(Clone, Debug)]
pub struct OsError {
    /// The system's error number, where the error has one.
    pub code: Option<i32>,
    /// The error's description.
    pub text: String,
}

} // verus!

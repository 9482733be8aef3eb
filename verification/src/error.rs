//! The two ways in which reaching a thread's registers can fail.
use vstd::prelude::*;

verus! {

/// Why a snapshot could not be fetched from a thread or applied to it.
#[derive(Copy, Clone, Debug, PartialEq, Eq, Structural)]
pub enum HwbpError {
    /// The operating system did not hand out the thread's context.
    FailedFetchContext,
    /// The operating system did not take the context for the thread.
    FailedApplyContext,
}

impl HwbpError {
    /// Returns the sentence that describes the error.
    pub fn message(&self) -> (text: &'static str)
        ensures
            *self == HwbpError::FailedFetchContext ==> text@ == "failed to fetch thread context"@,
            *self == HwbpError::FailedApplyContext ==> text@ == "failed to apply thread context"@,
    {
        match self {
            HwbpError::FailedFetchContext => "failed to fetch thread context",
            HwbpError::FailedApplyContext => "failed to apply thread context",
        }
    }
}

} // verus!

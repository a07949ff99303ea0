//! Outcome of one execution of the target.

use vstd::prelude::*;

verus! {

/// How one execution of the target ended.
#[derive(Debug, Clone, Copy, PartialEq, Eq, Structural)]
pub enum StatusType {
    /// The target ran to completion.
    Normal,
    /// The target exceeded its time limit and was killed.
    Timeout,
    /// The target was killed by a signal or reported a sanitizer fault.
    Crash,
    /// The input timed out repeatedly and is given up on.
    Skip,
    /// The channel to the fork server failed.
    Error,
}

} // verus!

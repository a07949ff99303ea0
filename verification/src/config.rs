//! Compile-time limits shared by the driver and the instrumented runtime.

use vstd::prelude::*;

verus! {

/// Base-two logarithm of the number of edges in a branch bitmap.
pub const MAP_SIZE_POW2: usize = 20;

/// Number of edges (and bytes) in a branch bitmap.
pub const BRANCHES_SIZE: usize = 1048576;

/// Consecutive timeouts after which an input is given up on.
pub const TMOUT_SKIP: usize = 3;

/// Default time limit of a fast run, in seconds.
pub const TIME_LIMIT: u64 = 1;

/// Default memory limit of a fast run, in megabytes.
pub const MEM_LIMIT: u64 = 1024;

/// Time limit of a tracking run, in seconds.
pub const TIME_LIMIT_TRACK: u64 = 180;

/// Memory limit of a tracking run; zero lifts the limit.
pub const MEM_LIMIT_TRACK: u64 = 0;

/// Inputs of this many bytes or more are not taken over from a peer.
pub const MAX_INPUT_LEN: usize = 15000;

/// Whether the solver keeps every generated input.
pub const SAVING_WHOLE: bool = true;

/// Exit code by which a sanitizer build reports a fault.
pub const MSAN_ERROR_CODE: i32 = 86;

/// Seconds a round may run before the sources are looked at again.
pub const ROUND_SECONDS: u32 = 30;

} // verus!

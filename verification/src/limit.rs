//! Resource limits a target is started under.

use vstd::prelude::*;

verus! {

/// The size of core dumps a target may write: none, so that a crash is
/// reported at once.
pub const CORE_LIMIT: u64 = 0;

/// The address-space limit in bytes for a limit of `size` megabytes:
/// none for 0, else `size` times 2^20, held at the largest `u64`.
pub open spec fn limit_bytes(size: u64) -> Option<u64> {
    if size == 0 {
        None
    } else if size * 1048576 > u64::MAX {
        Some(u64::MAX)
    } else {
        Some((size * 1048576) as u64)
    }
}

/// The address-space limit in bytes for a limit of `size` megabytes.
pub fn mem_limit(size: u64) -> (r: Option<u64>)
    ensures
        r == limit_bytes(size),
{
    if size == 0 {
        None
    } else if size > u64::MAX / 1048576 {
        Some(u64::MAX)
    } else {
        Some(size * 1048576)
    }
}

} // verus!

//! What the main loop decides between executions.

use vstd::prelude::*;
use crate::config::ROUND_SECONDS;
use crate::depot::SeedSource;

verus! {

/// Size in bytes of the segment the tracker hands constraints to the
/// solver in.
pub const SOLVER_SHM_SIZE: u64 = 0xc00000000;

/// The key of the solver's segment by executor number.
pub open spec fn solver_key(executor_id: usize) -> Option<i32> {
    if executor_id == 2 {
        Some(0x9876i32)
    } else if executor_id == 3 {
        Some(0x8765i32)
    } else {
        None
    }
}

/// The key under which executor `executor_id` finds the solver's segment;
/// only executors 2 and 3 have one.
pub fn solver_shm_key(executor_id: usize) -> (r: Option<i32>)
    ensures
        r == solver_key(executor_id),
{
    if executor_id == 2 {
        Some(0x9876)
    } else if executor_id == 3 {
        Some(0x8765)
    } else {
        None
    }
}

/// The sources a round reads, in order: the mutation fuzzer and the
/// solver's outputs in first-in mode, else the fuzzer and the two graders.
pub open spec fn round_sources(do_fifo: u32) -> Seq<SeedSource> {
    if do_fifo > 0 {
        seq![SeedSource::Fuzzer, SeedSource::CeOutput]
    } else {
        seq![SeedSource::Fuzzer, SeedSource::Grader, SeedSource::GraderPath]
    }
}

/// The sources a round reads, in order.
pub fn sources_of_round(do_fifo: u32) -> (r: Vec<SeedSource>)
    ensures
        r@ == round_sources(do_fifo),
{
    let mut r: Vec<SeedSource> = Vec::new();
    r.push(SeedSource::Fuzzer);
    if do_fifo > 0 {
        r.push(SeedSource::CeOutput);
    } else {
        r.push(SeedSource::Grader);
        r.push(SeedSource::GraderPath);
    }
    proof {
        assert(r@ =~= round_sources(do_fifo));
    }
    r
}

/// Whether a round that has run for `seconds` is over: it is once it has
/// run for more than the round's budget.
pub fn round_is_over(seconds: u32) -> (r: bool)
    ensures
        r == (seconds > ROUND_SECONDS),
{
    seconds > ROUND_SECONDS
}

/// Adds the time of a round to the total, held at the largest `u32`.
pub fn add_round_time(total: u32, seconds: u32) -> (r: u32)
    ensures
        r == if total + seconds > u32::MAX {
            u32::MAX
        } else {
            (total + seconds) as u32
        },
{
    if total > u32::MAX - seconds {
        u32::MAX
    } else {
        total + seconds
    }
}

} // verus!

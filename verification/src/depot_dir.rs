//! Directories the driver writes its finds to and reads its peers' seeds
//! from.

use vstd::prelude::*;
use crate::file::{ascii_bytes, join_path, joined};

verus! {

/// `queue`
pub open spec fn queue_dir_name() -> Seq<u8> {
    seq![113u8, 117u8, 101u8, 117u8, 101u8]
}

/// `hangs`
pub open spec fn hangs_dir_name() -> Seq<u8> {
    seq![104u8, 97u8, 110u8, 103u8, 115u8]
}

/// `crashes`
pub open spec fn crashes_dir_name() -> Seq<u8> {
    seq![99u8, 114u8, 97u8, 115u8, 104u8, 101u8, 115u8]
}

/// `grader`
pub open spec fn grader_dir_name() -> Seq<u8> {
    seq![103u8, 114u8, 97u8, 100u8, 101u8, 114u8]
}

/// `grader-path`
pub open spec fn grader_path_dir_name() -> Seq<u8> {
    seq![103u8, 114u8, 97u8, 100u8, 101u8, 114u8, 45u8, 112u8, 97u8, 116u8, 104u8]
}

/// `afl-slave`
pub open spec fn fuzzer_dir_name() -> Seq<u8> {
    seq![97u8, 102u8, 108u8, 45u8, 115u8, 108u8, 97u8, 118u8, 101u8]
}

/// `fifo`
pub open spec fn fifo_dir_name() -> Seq<u8> {
    seq![102u8, 105u8, 102u8, 111u8]
}

/// `greenlight`
pub open spec fn greenlight_name() -> Seq<u8> {
    seq![103u8, 114u8, 101u8, 101u8, 110u8, 108u8, 105u8, 103u8, 104u8, 116u8]
}

/// Where the driver's own finds go.
#[derive(Debug)]
pub struct DepotDir {
    /// Inputs that ended normally.
    pub inputs_dir: Vec<u8>,
    /// Inputs that timed out.
    pub hangs_dir: Vec<u8>,
    /// Inputs that crashed the target.
    pub crashes_dir: Vec<u8>,
    /// The initial seeds.
    pub seeds_dir: Vec<u8>,
}

impl DepotDir {
    /// The three output directories under `out_dir`, beside `seeds_dir`.
    pub fn new(seeds_dir: Vec<u8>, out_dir: &Vec<u8>) -> (r: Self)
        ensures
            r.inputs_dir@ == joined(out_dir@, queue_dir_name()),
            r.hangs_dir@ == joined(out_dir@, hangs_dir_name()),
            r.crashes_dir@ == joined(out_dir@, crashes_dir_name()),
            r.seeds_dir@ == seeds_dir@,
    {
        proof {
            reveal_strlit("queue");
            reveal_strlit("hangs");
            reveal_strlit("crashes");
        }
        let queue = ascii_bytes("queue");
        let hangs = ascii_bytes("hangs");
        let crashes = ascii_bytes("crashes");
        proof {
            assert(queue@ =~= queue_dir_name());
            assert(hangs@ =~= hangs_dir_name());
            assert(crashes@ =~= crashes_dir_name());
        }
        Self {
            inputs_dir: join_path(out_dir, &queue),
            hangs_dir: join_path(out_dir, &hangs),
            crashes_dir: join_path(out_dir, &crashes),
            seeds_dir,
        }
    }
}

/// Where the peers publish their seeds.
#[derive(Debug)]
pub struct DepotSyncDir {
    /// Queue of the coverage grader.
    pub grader_queue_dir: Vec<u8>,
    /// Queue of the path grader.
    pub grader_path_dir: Vec<u8>,
    /// Queue of the mutation fuzzer.
    pub afl_queue_dir: Vec<u8>,
    /// Queue the solver's outputs are served from in first-in order.
    pub ce_queue_dir: Vec<u8>,
    /// File that signals a drained queue.
    pub greenlight: Vec<u8>,
}

impl DepotSyncDir {
    /// The peers' directories under `out_dir`.
    pub fn new(out_dir: &Vec<u8>) -> (r: Self)
        ensures
            r.grader_queue_dir@ == joined(joined(out_dir@, grader_dir_name()), queue_dir_name()),
            r.grader_path_dir@ == joined(
                joined(out_dir@, grader_path_dir_name()),
                queue_dir_name(),
            ),
            r.afl_queue_dir@ == joined(joined(out_dir@, fuzzer_dir_name()), queue_dir_name()),
            r.ce_queue_dir@ == joined(joined(out_dir@, fifo_dir_name()), queue_dir_name()),
            r.greenlight@ == joined(out_dir@, greenlight_name()),
    {
        proof {
            reveal_strlit("queue");
            reveal_strlit("grader");
            reveal_strlit("grader-path");
            reveal_strlit("afl-slave");
            reveal_strlit("fifo");
            reveal_strlit("greenlight");
        }
        let queue = ascii_bytes("queue");
        let grader = ascii_bytes("grader");
        let grader_path = ascii_bytes("grader-path");
        let fuzzer = ascii_bytes("afl-slave");
        let fifo = ascii_bytes("fifo");
        let greenlight = ascii_bytes("greenlight");
        proof {
            assert(queue@ =~= queue_dir_name());
            assert(grader@ =~= grader_dir_name());
            assert(grader_path@ =~= grader_path_dir_name());
            assert(fuzzer@ =~= fuzzer_dir_name());
            assert(fifo@ =~= fifo_dir_name());
            assert(greenlight@ =~= greenlight_name());
        }
        let grader_dir = join_path(out_dir, &grader);
        let grader_path_dir = join_path(out_dir, &grader_path);
        let fuzzer_dir = join_path(out_dir, &fuzzer);
        let fifo_dir = join_path(out_dir, &fifo);
        Self {
            grader_queue_dir: join_path(&grader_dir, &queue),
            grader_path_dir: join_path(&grader_path_dir, &queue),
            afl_queue_dir: join_path(&fuzzer_dir, &queue),
            ce_queue_dir: join_path(&fifo_dir, &queue),
            greenlight: join_path(out_dir, &greenlight),
        }
    }
}

} // verus!

//! What an executor decides around each execution: the tracker's options,
//! whether a find is saved, and when an input is given up on.

use vstd::prelude::*;
use std::collections::HashSet;
use crate::branches::{
    accumulated, cleared, is_hits, is_path, new_bucket, novelty_level, Branches, GlobalBranches,
};
use crate::command::CommandOpt;
use crate::config::TMOUT_SKIP;
use crate::depot::Depot;
use crate::file::{append, ascii_bytes, ascii_of, copy_bytes, digits, joined, push_ascii, push_digits, push_signed, seed_name, signed_digits};
use crate::status_type::StatusType;

verus! {

broadcast use vstd::std_specs::hash::group_hash_axioms;

/// The options the tracker is started with: the file it taints (or
/// `stdin`), the queue the seed came from, the solver's segment, the pipe
/// and the seed's index.
pub open spec fn taint_options(
    out_file: Seq<u8>,
    is_stdin: bool,
    qid: nat,
    shmid: int,
    pipeid: nat,
    inputid: nat,
) -> Seq<u8> {
    ascii_of("taint_file="@) + (if is_stdin {
        ascii_of("stdin"@)
    } else {
        out_file
    }) + ascii_of(" tid="@) + digits(qid) + ascii_of(" shmid="@) + signed_digits(shmid) + ascii_of(
        " pipeid="@,
    ) + digits(pipeid) + ascii_of(" inputid="@) + digits(inputid)
}

/// What a status does to the count of consecutive timeouts: the new count,
/// the status reported, and whether the fork server is to be set up anew.
/// The third timeout in a row is reported as `Skip` and starts the count
/// over. Every other status is reported as it is and resets the count; a
/// failed channel (`Error`) also asks for a new fork server.
pub open spec fn timeout_step(count: nat, status: StatusType) -> (nat, StatusType, bool) {
    if status == StatusType::Timeout {
        if count + 1 >= TMOUT_SKIP {
            (0nat, StatusType::Skip, false)
        } else {
            (count + 1, StatusType::Timeout, false)
        }
    } else {
        (0nat, status, status == StatusType::Error)
    }
}

/// Three timeouts in a row, counted from zero, are reported as `Timeout`,
/// `Timeout`, `Skip`, and leave the count at zero again.
pub proof fn lemma_third_timeout_skips()
    ensures
        timeout_step(0, StatusType::Timeout) == (1nat, StatusType::Timeout, false),
        timeout_step(1, StatusType::Timeout) == (2nat, StatusType::Timeout, false),
        timeout_step(2, StatusType::Timeout) == (0nat, StatusType::Skip, false),
{
}

/// A count below the limit stays below it. Any status but `Timeout` passes
/// through and resets the count, and only `Error` asks for a new fork
/// server. `Skip` is reported exactly for the timeout that reaches the
/// limit, and where `Skip` came in.
pub proof fn lemma_timeout_count_bounded(count: nat, status: StatusType)
    requires
        count < TMOUT_SKIP,
    ensures
        timeout_step(count, status).0 < TMOUT_SKIP,
        status != StatusType::Timeout ==> timeout_step(count, status) == (
            0nat,
            status,
            status == StatusType::Error,
        ),
        timeout_step(count, status).1 == StatusType::Skip <==> (count == TMOUT_SKIP - 1 && status
            == StatusType::Timeout) || status == StatusType::Skip,
        timeout_step(count, status).1 == StatusType::Error <==> status == StatusType::Error,
{
}

/// The index that the counter of finds gives once a find is written and
/// counted: one past `count`, or 0 where the counter is at the largest
/// `usize`.
pub open spec fn index_after(count: int) -> int {
    if count < usize::MAX {
        count + 1
    } else {
        0
    }
}

fn build_taint_options(out_file: &Vec<u8>, is_stdin: bool, qid: usize, shmid: i32, pipeid: usize, inputid: usize) -> (r: Vec<u8>)
    ensures
        r@ == taint_options(out_file@, is_stdin, qid as nat, shmid as int, pipeid as nat, inputid as nat),
{
    proof {
        reveal_strlit("taint_file=");
        reveal_strlit("stdin");
        reveal_strlit(" tid=");
        reveal_strlit(" shmid=");
        reveal_strlit(" pipeid=");
        reveal_strlit(" inputid=");
    }
    let mut r = ascii_bytes("taint_file=");
    if is_stdin {
        push_ascii(&mut r, "stdin");
    } else {
        append(&mut r, out_file);
    }
    push_ascii(&mut r, " tid=");
    push_digits(qid, &mut r);
    push_ascii(&mut r, " shmid=");
    push_signed(shmid, &mut r);
    push_ascii(&mut r, " pipeid=");
    push_digits(pipeid, &mut r);
    push_ascii(&mut r, " inputid=");
    push_digits(inputid, &mut r);
    r
}

fn env_pair(name: &str, value: Vec<u8>) -> (r: (Vec<u8>, Vec<u8>))
    requires
        name.is_ascii(),
    ensures
        r.0@ == ascii_of(name@),
        r.1@ == value@,
{
    (ascii_bytes(name), value)
}

/// The environment every target is started with, before the segments'
/// identifiers are added.
pub open spec fn is_base_env(env: Seq<(Vec<u8>, Vec<u8>)>, ld_library: Seq<u8>) -> bool {
    &&& env.len() >= 3
    &&& env[0].0@ == ascii_of("ASAN_OPTIONS"@)
    &&& env[0].1@ == ascii_of(
        "abort_on_error=1:detect_leaks=0:symbolize=0:allocator_may_return_null=1"@,
    )
    &&& env[1].0@ == ascii_of("MSAN_OPTIONS"@)
    &&& env[1].1@ == ascii_of(
        "exit_code=86:symbolize=0:abort_on_error=1:allocator_may_return_null=1:msan_track_origins=0"@,
    )
    &&& env[2].0@ == ascii_of("LD_LIBRARY_PATH"@)
    &&& env[2].1@ == ld_library
}

fn base_env(ld_library: &Vec<u8>) -> (r: Vec<(Vec<u8>, Vec<u8>)>)
    ensures
        r@.len() == 3,
        is_base_env(r@, ld_library@),
{
    proof {
        reveal_strlit("ASAN_OPTIONS");
        reveal_strlit("abort_on_error=1:detect_leaks=0:symbolize=0:allocator_may_return_null=1");
        reveal_strlit("MSAN_OPTIONS");
        reveal_strlit(
            "exit_code=86:symbolize=0:abort_on_error=1:allocator_may_return_null=1:msan_track_origins=0",
        );
        reveal_strlit("LD_LIBRARY_PATH");
    }
    let mut r: Vec<(Vec<u8>, Vec<u8>)> = Vec::new();
    r.push(
        env_pair(
            "ASAN_OPTIONS",
            ascii_bytes("abort_on_error=1:detect_leaks=0:symbolize=0:allocator_may_return_null=1"),
        ),
    );
    r.push(
        env_pair(
            "MSAN_OPTIONS",
            ascii_bytes(
                "exit_code=86:symbolize=0:abort_on_error=1:allocator_may_return_null=1:msan_track_origins=0",
            ),
        ),
    );
    r.push(env_pair("LD_LIBRARY_PATH", copy_bytes(ld_library)));
    r
}

/// The executor that runs the tracker on seeds from the peers' queue.
pub struct ExecutorSync {
    /// How the targets are started.
    pub cmd: CommandOpt,
    /// Identifier of the solver's segment.
    pub shmid: i32,
}

impl ExecutorSync {
    /// An executor for the template `cmd` and the solver's segment `shmid`.
    pub fn new(cmd: CommandOpt, shmid: i32) -> (r: Self)
        ensures
            r.cmd == cmd,
            r.shmid == shmid,
    {
        Self { cmd, shmid }
    }

    /// The environment of the targets: sanitizer options and the library
    /// search path, in this order.
    pub fn envs(&self) -> (r: Vec<(Vec<u8>, Vec<u8>)>)
        ensures
            r@.len() == 3,
            is_base_env(r@, self.cmd.ld_library@),
    {
        base_env(&self.cmd.ld_library)
    }

    /// The tracker's options for seed `id` of queue `qid`.
    pub fn track(&self, id: usize, qid: usize) -> (r: Vec<u8>)
        ensures
            r@ == taint_options(
                self.cmd.out_file@,
                self.cmd.is_stdin,
                qid as nat,
                self.shmid as int,
                self.cmd.id as nat,
                id as nat,
            ),
    {
        build_taint_options(&self.cmd.out_file, self.cmd.is_stdin, qid, self.shmid, self.cmd.id, id)
    }
}

/// What became of one execution.
pub struct RunReport {
    /// The status to report, after the timeout rule.
    pub status: StatusType,
    /// Novelty of the execution: 2, 1 or 0.
    pub level: u16,
    /// Where the input is to be written; `None` where it is not kept.
    pub save_to: Option<Vec<u8>>,
    /// The index `Depot::save` gives once the input is written and
    /// counted; 0 where nothing is kept.
    pub new_id: usize,
    /// Whether the fork server is to be set up anew.
    pub rebind: bool,
    /// The terms of the rarity sum, one per edge hit.
    pub hits: Vec<(u8, u8)>,
}

/// The executor that runs the fast target through the fork server.
pub struct Executor {
    cmd: CommandOpt,
    branches: Branches,
    tmout_cnt: usize,
    has_new_path: bool,
    unique_path_hash: HashSet<u64>,
    shmid: i32,
}

impl Executor {
    /// How the targets are started.
    pub closed spec fn cmd(&self) -> CommandOpt {
        self.cmd
    }

    /// The trace of the last execution.
    pub closed spec fn branches(&self) -> Branches {
        self.branches
    }

    /// Consecutive timeouts so far.
    pub closed spec fn timeouts(&self) -> nat {
        self.tmout_cnt as nat
    }

    /// Whether the last execution was novel.
    pub closed spec fn found_new(&self) -> bool {
        self.has_new_path
    }

    /// The path hashes seen so far.
    pub closed spec fn seen_paths(&self) -> Set<u64> {
        self.unique_path_hash@
    }

    /// Identifier of the solver's segment.
    pub closed spec fn shmid(&self) -> i32 {
        self.shmid
    }

    /// The trace is well formed and the timeout count is below the limit.
    pub closed spec fn wf(&self) -> bool {
        self.branches.wf() && self.tmout_cnt < TMOUT_SKIP
    }

    /// An executor over the trace `branches`, with no timeouts counted and
    /// no path seen.
    pub fn new(cmd: CommandOpt, branches: Branches, shmid: i32) -> (r: Self)
        requires
            branches.wf(),
        ensures
            r.wf(),
            r.cmd() == cmd,
            r.branches() == branches,
            r.timeouts() == 0,
            !r.found_new(),
            r.seen_paths() == Set::<u64>::empty(),
            r.shmid() == shmid,
    {
        Self {
            cmd,
            branches,
            tmout_cnt: 0,
            has_new_path: false,
            unique_path_hash: HashSet::new(),
            shmid,
        }
    }

    /// How the targets are started.
    pub fn command(&self) -> (r: &CommandOpt)
        ensures
            *r == self.cmd(),
    {
        &self.cmd
    }

    /// Whether an execution since the last [`Executor::run_init`] was novel.
    pub fn has_new_path(&self) -> (r: bool)
        ensures
            r == self.found_new(),
    {
        self.has_new_path
    }

    /// The environment of the targets: sanitizer options, the library
    /// search path, and the identifiers of the trace and path-hash
    /// segments, in this order.
    pub fn envs(&self) -> (r: Vec<(Vec<u8>, Vec<u8>)>)
        ensures
            r@.len() == 5,
            is_base_env(r@, self.cmd().ld_library@),
            r@[3].0@ == ascii_of("ANGORA_BRANCHES_SHM_ID"@),
            r@[3].1@ == signed_digits(self.branches().trace_id() as int),
            r@[4].0@ == ascii_of("PATH_HASH_SHM_ID"@),
            r@[4].1@ == signed_digits(self.branches().path_id() as int),
    {
        proof {
            reveal_strlit("ANGORA_BRANCHES_SHM_ID");
            reveal_strlit("PATH_HASH_SHM_ID");
        }
        let mut r = base_env(&self.cmd.ld_library);
        let mut trace_id: Vec<u8> = Vec::new();
        push_signed(self.branches.get_id(), &mut trace_id);
        let mut path_id: Vec<u8> = Vec::new();
        push_signed(self.branches.get_path_id(), &mut path_id);
        proof {
            assert(trace_id@ =~= signed_digits(self.branches().trace_id() as int));
            assert(path_id@ =~= signed_digits(self.branches().path_id() as int));
        }
        r.push(env_pair("ANGORA_BRANCHES_SHM_ID", trace_id));
        r.push(env_pair("PATH_HASH_SHM_ID", path_id));
        r
    }

    /// The tracker's options for seed `id`, which also stands for its queue.
    pub fn track(&self, id: usize) -> (r: Vec<u8>)
        ensures
            r@ == taint_options(
                self.cmd().out_file@,
                self.cmd().is_stdin,
                id as nat,
                self.shmid() as int,
                self.cmd().id as nat,
                id as nat,
            ),
    {
        build_taint_options(&self.cmd.out_file, self.cmd.is_stdin, id, self.shmid, self.cmd.id, id)
    }

    /// Clears the novelty flag before an execution.
    pub fn run_init(&mut self)
        ensures
            !final(self).found_new(),
            final(self).wf() == old(self).wf(),
            final(self).branches() == old(self).branches(),
            final(self).timeouts() == old(self).timeouts(),
            final(self).seen_paths() == old(self).seen_paths(),
            final(self).cmd() == old(self).cmd(),
            final(self).shmid() == old(self).shmid(),
    {
        self.has_new_path = false;
    }

    /// Zeroes the trace and the path hash before the target runs.
    pub fn clear_trace(&mut self)
        requires
            old(self).wf(),
        ensures
            final(self).wf(),
            final(self).branches().path_hash() == 0,
            forall|i: int| 0 <= i < crate::config::BRANCHES_SIZE ==> final(self).branches().trace()[i] == 0,
            final(self).branches().trace_id() == old(self).branches().trace_id(),
            final(self).branches().path_id() == old(self).branches().path_id(),
            final(self).found_new() == old(self).found_new(),
            final(self).timeouts() == old(self).timeouts(),
            final(self).seen_paths() == old(self).seen_paths(),
            final(self).cmd() == old(self).cmd(),
            final(self).shmid() == old(self).shmid(),
    {
        self.branches.clear_trace();
    }

    /// Takes over what the execution wrote; see [`Branches::load`].
    pub fn load_trace(&mut self, trace: Vec<u8>, path_hash: u64) -> (ok: bool)
        requires
            old(self).wf(),
        ensures
            final(self).wf(),
            ok == (trace@.len() == crate::config::BRANCHES_SIZE),
            ok ==> final(self).branches().trace() == trace@ && final(self).branches().path_hash()
                == path_hash,
            !ok ==> final(self).branches() == old(self).branches(),
            final(self).timeouts() == old(self).timeouts(),
            final(self).seen_paths() == old(self).seen_paths(),
            final(self).found_new() == old(self).found_new(),
            final(self).cmd() == old(self).cmd(),
            final(self).shmid() == old(self).shmid(),
    {
        if trace.len() != crate::config::BRANCHES_SIZE {
            return false;
        }
        self.branches.load(trace, path_hash)
    }

    /// Whether the trace breaks the rule that a new edge means a new path.
    pub open spec fn breaks_path_rule(&self, global: &GlobalBranches, status: StatusType) -> bool {
        self.branches().breaks_path_rule(global, status, self.seen_paths())
    }

    /// Tests the rule that a new edge means a new path: under `status` the
    /// trace hits an edge that no execution hit before, yet its path hash
    /// was seen. Callers fail on `true` before they close the execution.
    pub fn new_edge_with_known_path(&self, global: &GlobalBranches, status: StatusType) -> (r: bool)
        requires
            self.wf(),
            global.wf(),
        ensures
            r == self.breaks_path_rule(global, status),
    {
        self.branches.new_edge_with_known_path(global, status, &self.unique_path_hash)
    }

    /// Applies the timeout rule to `status`; see [`timeout_step`]. Returns
    /// the status to report and whether the fork server is to be set up
    /// anew.
    pub fn check_timeout(&mut self, status: StatusType) -> (r: (StatusType, bool))
        requires
            old(self).wf(),
        ensures
            final(self).wf(),
            final(self).timeouts() == timeout_step(old(self).timeouts(), status).0,
            r.0 == timeout_step(old(self).timeouts(), status).1,
            r.1 == timeout_step(old(self).timeouts(), status).2,
            final(self).branches() == old(self).branches(),
            final(self).seen_paths() == old(self).seen_paths(),
            final(self).found_new() == old(self).found_new(),
            final(self).cmd() == old(self).cmd(),
            final(self).shmid() == old(self).shmid(),
    {
        match status {
            StatusType::Timeout => {
                self.tmout_cnt = self.tmout_cnt + 1;
                if self.tmout_cnt >= TMOUT_SKIP {
                    self.tmout_cnt = 0;
                    (StatusType::Skip, false)
                } else {
                    (StatusType::Timeout, false)
                }
            },
            StatusType::Error => {
                self.tmout_cnt = 0;
                (StatusType::Error, true)
            },
            _ => {
                self.tmout_cnt = 0;
                (status, false)
            },
        }
    }

    /// Holds the trace against the global coverage under `status`. Where it
    /// hit a new bucket, the novelty flag is raised and the input is to be
    /// kept: the result names the file to write it to and the index that
    /// `Depot::save` gives once it is written and counted. The counter
    /// itself is left alone. Returns the novelty level, the file, the
    /// index, and the terms of the rarity sum.
    pub fn do_if_has_new(&mut self, global: &mut GlobalBranches, depot: &Depot, status: StatusType) -> (r: (
        u16,
        Option<Vec<u8>>,
        usize,
        Vec<(u8, u8)>,
    ))
        requires
            old(self).wf(),
            old(global).wf(),
            !old(self).breaks_path_rule(old(global), status),
        ensures
            final(self).wf(),
            final(global).wf(),
            final(self).branches() == old(self).branches(),
            final(self).timeouts() == old(self).timeouts(),
            final(self).cmd() == old(self).cmd(),
            final(self).shmid() == old(self).shmid(),
            !GlobalBranches::tracks(status) ==> {
                &&& r.0 == 0
                &&& r.1 is None
                &&& r.2 == 0
                &&& r.3@.len() == 0
                &&& *final(global) == *old(global)
                &&& final(self).seen_paths() == old(self).seen_paths()
                &&& final(self).found_new() == old(self).found_new()
            },
            GlobalBranches::tracks(status) ==> {
                let trace = old(self).branches().trace();
                let hash = old(self).branches().path_hash();
                let fresh = new_bucket(old(global).virgin(status), trace);
                &&& r.0 == novelty_level(fresh, !old(self).seen_paths().contains(hash))
                &&& final(self).seen_paths() == old(self).seen_paths().insert(hash)
                &&& final(global).virgin(status) == cleared(old(global).virgin(status), trace)
                &&& final(global).total_hit() == accumulated(old(global).total_hit(), trace)
                &&& forall|s: StatusType| s != status ==> final(global).virgin(s) == old(global).virgin(s)
                &&& final(self).found_new() == (old(self).found_new() || fresh)
                &&& exists|path: Seq<(usize, u8)>|
                    is_path(path, trace) && is_hits(r.3@, path, trace, old(global).total_hit())
                &&& r.1 is Some <==> fresh
                &&& fresh ==> r.1.unwrap()@ == joined(depot.dir_of(status), seed_name(depot.count(status) as nat))
                &&& r.2 == if fresh {
                    index_after(depot.count(status))
                } else {
                    0
                }
            },
    {
        let novelty = self.branches.has_new_unique_path(global, status, &mut self.unique_path_hash);
        proof {
            if GlobalBranches::tracks(status) {
                let trace = old(self).branches().trace();
                let path = choose|path: Seq<(usize, u8)>|
                    is_path(path, trace) && is_hits(novelty.hits@, path, trace, old(global).total_hit());
                assert(is_path(path, trace) && is_hits(novelty.hits@, path, trace, old(global).total_hit()));
            }
        }
        let mut save_to: Option<Vec<u8>> = None;
        let mut new_id: usize = 0;
        if novelty.level == 2 {
            self.has_new_path = true;
            save_to = depot.next_path(status);
            new_id = depot.index_after_save(status);
        }
        (novelty.level, save_to, new_id, novelty.hits)
    }

    /// Closes one execution that ended with `status`: the novelty flag is
    /// cleared, then novelty and keeping as in [`Executor::do_if_has_new`],
    /// then the timeout rule as in [`Executor::check_timeout`]. A failed
    /// channel is reported as `Error`, with the fork server to be set up
    /// anew.
    pub fn run(&mut self, global: &mut GlobalBranches, depot: &Depot, status: StatusType) -> (r: RunReport)
        requires
            old(self).wf(),
            old(global).wf(),
            !old(self).breaks_path_rule(old(global), status),
        ensures
            final(self).wf(),
            final(global).wf(),
            r.status == timeout_step(old(self).timeouts(), status).1,
            r.rebind == timeout_step(old(self).timeouts(), status).2,
            final(self).timeouts() == timeout_step(old(self).timeouts(), status).0,
            final(self).branches() == old(self).branches(),
            final(self).cmd() == old(self).cmd(),
            final(self).shmid() == old(self).shmid(),
            !GlobalBranches::tracks(status) ==> {
                &&& r.level == 0
                &&& r.save_to is None
                &&& r.new_id == 0
                &&& r.hits@.len() == 0
                &&& !final(self).found_new()
                &&& *final(global) == *old(global)
                &&& final(self).seen_paths() == old(self).seen_paths()
            },
            GlobalBranches::tracks(status) ==> {
                let trace = old(self).branches().trace();
                let hash = old(self).branches().path_hash();
                let fresh = new_bucket(old(global).virgin(status), trace);
                &&& r.level == novelty_level(fresh, !old(self).seen_paths().contains(hash))
                &&& final(self).found_new() == fresh
                &&& final(self).seen_paths() == old(self).seen_paths().insert(hash)
                &&& final(global).virgin(status) == cleared(old(global).virgin(status), trace)
                &&& final(global).total_hit() == accumulated(old(global).total_hit(), trace)
                &&& forall|s: StatusType| s != status ==> final(global).virgin(s) == old(global).virgin(s)
                &&& r.save_to is Some <==> fresh
                &&& fresh ==> r.save_to.unwrap()@ == joined(
                    depot.dir_of(status),
                    seed_name(depot.count(status) as nat),
                )
                &&& r.new_id == if fresh {
                    index_after(depot.count(status))
                } else {
                    0
                }
                &&& exists|path: Seq<(usize, u8)>|
                    is_path(path, trace) && is_hits(r.hits@, path, trace, old(global).total_hit())
            },
    {
        self.run_init();
        let (level, save_to, new_id, hits) = self.do_if_has_new(global, depot, status);
        proof {
            if GlobalBranches::tracks(status) {
                let trace = old(self).branches().trace();
                let path = choose|path: Seq<(usize, u8)>|
                    is_path(path, trace) && is_hits(hits@, path, trace, old(global).total_hit());
                assert(is_path(path, trace) && is_hits(hits@, path, trace, old(global).total_hit()));
            }
        }
        let (reported, rebind) = self.check_timeout(status);
        RunReport { status: reported, level, save_to, new_id, rebind, hits }
    }

    /// As [`Executor::run`], reporting whether the execution hit a new
    /// bucket, the index `Depot::save` gives once the input is written and
    /// counted, and the file to write it to.
    pub fn run_sync(&mut self, global: &mut GlobalBranches, depot: &Depot, status: StatusType) -> (r: (
        bool,
        usize,
        Option<Vec<u8>>,
    ))
        requires
            old(self).wf(),
            old(global).wf(),
            !old(self).breaks_path_rule(old(global), status),
        ensures
            final(self).wf(),
            final(global).wf(),
            final(self).timeouts() == timeout_step(old(self).timeouts(), status).0,
            final(self).branches() == old(self).branches(),
            final(self).cmd() == old(self).cmd(),
            final(self).shmid() == old(self).shmid(),
            r.0 == (GlobalBranches::tracks(status) && new_bucket(
                old(global).virgin(status),
                old(self).branches().trace(),
            )),
            final(self).found_new() == r.0,
            r.2 is Some <==> r.0,
            r.0 ==> r.2.unwrap()@ == joined(depot.dir_of(status), seed_name(depot.count(status) as nat)),
            r.1 == if r.0 {
                index_after(depot.count(status))
            } else {
                0
            },
            !GlobalBranches::tracks(status) ==> *final(global) == *old(global) && final(self).seen_paths()
                == old(self).seen_paths(),
            GlobalBranches::tracks(status) ==> {
                let trace = old(self).branches().trace();
                &&& final(self).seen_paths() == old(self).seen_paths().insert(
                    old(self).branches().path_hash(),
                )
                &&& final(global).virgin(status) == cleared(old(global).virgin(status), trace)
                &&& final(global).total_hit() == accumulated(old(global).total_hit(), trace)
                &&& forall|s: StatusType| s != status ==> final(global).virgin(s) == old(global).virgin(s)
            },
    {
        let report = self.run(global, depot, status);
        (report.level == 2, report.new_id, report.save_to)
    }

    /// Where an input taken over from a peer is to be written to become a
    /// normal find, without running it. The counter is left alone:
    /// `Depot::save` raises it once the input is written.
    pub fn run_norun(&self, depot: &Depot) -> (r: Vec<u8>)
        ensures
            r@ == joined(
                depot.dir_of(StatusType::Normal),
                seed_name(depot.count(StatusType::Normal) as nat),
            ),
    {
        depot.get_input_path(depot.get_num_inputs())
    }
}

} // verus!

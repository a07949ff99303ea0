//! The seed queue fed by the peers, and the counters of the driver's own
//! finds.

use vstd::prelude::*;
use vstd::multiset::Multiset;
use min_max_heap::MinMaxHeap;
use crate::bcount_queue::{outranks, BcountPriorityValue};
use crate::depot_dir::{
    fifo_dir_name, fuzzer_dir_name, grader_dir_name, grader_path_dir_name, queue_dir_name, DepotDir,
    DepotSyncDir,
};
use crate::file::{
    fuzzer_seed_wanted, get_file_name, grader_score, has_prefix, join_path, joined,
    parse_grader_score, seed_file_name, seed_name, copy_bytes, starts_with, wanted_fuzzer_seed,
};
use crate::heap::{heap_keys, heap_new, heap_pop_max, heap_push, key_le, HeapKey};
use crate::status_type::StatusType;

verus! {

/// A peer whose seeds are taken over.
#[derive(Debug, Clone, Copy, PartialEq, Eq, Structural)]
pub enum SeedSource {
    /// The mutation fuzzer.
    Fuzzer,
    /// The coverage grader.
    Grader,
    /// The path grader.
    GraderPath,
    /// The solver's own outputs, served in first-in order.
    CeOutput,
}

/// The queue as contracts see it: the keys held, and the path of every seed
/// ever taken in, by slot.
pub struct QueueModel {
    /// Keys of the queued seeds.
    pub keys: Multiset<HeapKey>,
    /// Paths by slot, in intake order.
    pub paths: Seq<Seq<u8>>,
}

/// The key under which a seed is queued.
pub open spec fn key_of(queue_id: u32, rare: u32, seed_id: u32, slot: int) -> HeapKey {
    ((u32::MAX - queue_id) as u32, rare, seed_id, slot as usize)
}

/// The queue number of a source.
pub open spec fn queue_id_of(source: SeedSource) -> u32 {
    match source {
        SeedSource::Fuzzer => 0,
        SeedSource::Grader => 1,
        SeedSource::GraderPath => 2,
        SeedSource::CeOutput => 1,
    }
}

/// The source that a category number names when all three peers are read;
/// `None` for any other number.
pub open spec fn tier_source(category: i32) -> Option<SeedSource> {
    if category == 0 {
        Some(SeedSource::Fuzzer)
    } else if category == 1 {
        Some(SeedSource::Grader)
    } else if category == 2 {
        Some(SeedSource::GraderPath)
    } else {
        None
    }
}

/// The source that a category number names in first-in mode.
pub open spec fn fifo_source(category: i32) -> Option<SeedSource> {
    if category == 0 {
        Some(SeedSource::Fuzzer)
    } else if category == 1 {
        Some(SeedSource::CeOutput)
    } else {
        None
    }
}

/// The rarity a seed file is queued with, by its source and name; `None`
/// where the file is passed over.
pub open spec fn seed_score(source: SeedSource, name: Seq<u8>, seed_id: u32) -> Option<u32> {
    match source {
        SeedSource::Fuzzer => if fuzzer_seed_wanted(name) {
            Some(0u32)
        } else {
            None
        },
        SeedSource::Grader => grader_score(name),
        SeedSource::GraderPath => grader_score(name),
        SeedSource::CeOutput => Some(
            if seed_id > 999999 {
                0u32
            } else {
                (999999 - seed_id) as u32
            },
        ),
    }
}

/// Index of the first name at or after `i` that starts with `prefix`; the
/// number of names where there is none.
pub open spec fn first_match(names: Seq<Vec<u8>>, prefix: Seq<u8>, i: int) -> int
    decreases names.len() - i,
{
    if i < 0 || i >= names.len() {
        names.len() as int
    } else if has_prefix(names[i]@, prefix) {
        i
    } else {
        first_match(names, prefix, i + 1)
    }
}

/// Whether the listing holds a file for seed `id`.
pub open spec fn has_seed(names: Seq<Vec<u8>>, id: int) -> bool {
    first_match(names, seed_name(id as nat), 0) < names.len()
}

/// The queue after a seed was added to it.
pub open spec fn with_seed(q: QueueModel, queue_id: u32, rare: u32, seed_id: u32, path: Seq<u8>) -> QueueModel {
    QueueModel {
        keys: q.keys.insert(key_of(queue_id, rare, seed_id, q.paths.len() as int)),
        paths: q.paths.push(path),
    }
}

/// The queue after seed `id` of `source` was looked up in the listing: its
/// first file is queued with its score, or passed over where it has none.
pub open spec fn ingest_one(
    q: QueueModel,
    source: SeedSource,
    dir: Seq<u8>,
    names: Seq<Vec<u8>>,
    id: u32,
) -> QueueModel {
    let at = first_match(names, seed_name(id as nat), 0);
    if at < names.len() {
        match seed_score(source, names[at]@, id) {
            Some(rare) => with_seed(q, queue_id_of(source), rare, id, joined(dir, names[at]@)),
            None => q,
        }
    } else {
        q
    }
}

/// The queue after the seeds `from` up to `to` were looked up in turn.
pub open spec fn ingested(
    q: QueueModel,
    source: SeedSource,
    dir: Seq<u8>,
    names: Seq<Vec<u8>>,
    from: int,
    to: int,
) -> QueueModel
    decreases to - from,
{
    if to <= from {
        q
    } else {
        ingest_one(ingested(q, source, dir, names, from, to - 1), source, dir, names, (to - 1) as u32)
    }
}

/// Whether the seed described by `e` is queued in `q`.
pub open spec fn holds_seed(q: QueueModel, queue_id: u32, rare: u32, seed_id: u32, path: Seq<u8>) -> bool {
    exists|slot: int|
        0 <= slot < q.paths.len() && q.paths[slot] == path && q.keys.count(
            #[trigger] key_of(queue_id, rare, seed_id, slot),
        ) > 0
}

/// Whether taking the seed `(queue_id, rare, seed_id, path)` out of `before`
/// leaves `after`: it was queued at `slot`, nothing queued outranks it,
/// only its key is gone, and its slot is emptied.
pub open spec fn served(
    before: QueueModel,
    after: QueueModel,
    queue_id: u32,
    rare: u32,
    seed_id: u32,
    path: Seq<u8>,
    slot: int,
) -> bool {
    &&& 0 <= slot < before.paths.len()
    &&& before.paths[slot] == path
    &&& before.keys.count(key_of(queue_id, rare, seed_id, slot)) > 0
    &&& after.keys == before.keys.remove(key_of(queue_id, rare, seed_id, slot))
    &&& after.paths == before.paths.update(slot, Seq::empty())
    &&& forall|k: HeapKey| #[trigger]
        before.keys.count(k) > 0 ==> outranks(queue_id, rare, seed_id, (u32::MAX - k.0) as u32, k.1, k.2)
}

/// Seeds leave the queue in an order that agrees with their priority: of
/// two seeds served one after the other, with nothing queued in between,
/// the first outranks the second or ties with it.
pub proof fn lemma_pops_follow_priority(
    q0: QueueModel,
    q1: QueueModel,
    q2: QueueModel,
    first: (u32, u32, u32),
    first_path: Seq<u8>,
    first_slot: int,
    second: (u32, u32, u32),
    second_path: Seq<u8>,
    second_slot: int,
)
    requires
        served(q0, q1, first.0, first.1, first.2, first_path, first_slot),
        served(q1, q2, second.0, second.1, second.2, second_path, second_slot),
    ensures
        outranks(first.0, first.1, first.2, second.0, second.1, second.2),
{
    let k = key_of(second.0, second.1, second.2, second_slot);
    assert(q0.keys.count(k) > 0);
}

proof fn lemma_ingest_one_keeps(
    q: QueueModel,
    source: SeedSource,
    dir: Seq<u8>,
    names: Seq<Vec<u8>>,
    id: u32,
    queue_id: u32,
    rare: u32,
    seed_id: u32,
    path: Seq<u8>,
)
    requires
        holds_seed(q, queue_id, rare, seed_id, path),
    ensures
        holds_seed(ingest_one(q, source, dir, names, id), queue_id, rare, seed_id, path),
{
    let slot = choose|slot: int|
        0 <= slot < q.paths.len() && q.paths[slot] == path && q.keys.count(
            #[trigger] key_of(queue_id, rare, seed_id, slot),
        ) > 0;
    let after = ingest_one(q, source, dir, names, id);
    assert(0 <= slot < after.paths.len() && after.paths[slot] == path && after.keys.count(
        key_of(queue_id, rare, seed_id, slot),
    ) > 0);
}

/// Every seed in the range that a sync went through, whose first file has a
/// score, is queued afterwards with that score and that file's path: no
/// seed below the new boundary is left unseen.
pub proof fn lemma_synced_seeds_are_queued(
    q: QueueModel,
    source: SeedSource,
    dir: Seq<u8>,
    names: Seq<Vec<u8>>,
    from: int,
    to: int,
    id: int,
)
    requires
        0 <= from <= id < to <= u32::MAX,
        has_seed(names, id),
        seed_score(source, names[first_match(names, seed_name(id as nat), 0)]@, id as u32) is Some,
    ensures
        holds_seed(
            ingested(q, source, dir, names, from, to),
            queue_id_of(source),
            seed_score(source, names[first_match(names, seed_name(id as nat), 0)]@, id as u32).unwrap(),
            id as u32,
            joined(dir, names[first_match(names, seed_name(id as nat), 0)]@),
        ),
    decreases to - from,
{
    let at = first_match(names, seed_name(id as nat), 0);
    let rare = seed_score(source, names[at]@, id as u32).unwrap();
    let path = joined(dir, names[at]@);
    let before = ingested(q, source, dir, names, from, to - 1);
    if id == to - 1 {
        let after = ingest_one(before, source, dir, names, id as u32);
        let slot = before.paths.len() as int;
        assert(after.paths[slot] == path);
        assert(after.keys.count(key_of(queue_id_of(source), rare, id as u32, slot)) > 0);
    } else {
        lemma_synced_seeds_are_queued(q, source, dir, names, from, to - 1, id);
        lemma_ingest_one_keeps(
            before,
            source,
            dir,
            names,
            (to - 1) as u32,
            queue_id_of(source),
            rare,
            id as u32,
            path,
        );
    }
}

/// Index of the first name that starts with `prefix`; the number of names
/// where there is none.
pub fn find_name(names: &Vec<Vec<u8>>, prefix: &Vec<u8>) -> (r: usize)
    ensures
        r == first_match(names@, prefix@, 0),
        r <= names@.len(),
{
    let mut i: usize = 0;
    while i < names.len()
        invariant
            first_match(names@, prefix@, 0) == first_match(names@, prefix@, i as int),
        decreases names@.len() - i,
    {
        if starts_with(&names[i], prefix) {
            return i;
        }
        i += 1;
    }
    names.len()
}

/// The rarity a seed file is queued with; `None` where it is passed over.
pub fn score_seed(source: SeedSource, name: &Vec<u8>, seed_id: u32) -> (r: Option<u32>)
    ensures
        r == seed_score(source, name@, seed_id),
{
    match source {
        SeedSource::Fuzzer => {
            if wanted_fuzzer_seed(name) {
                Some(0)
            } else {
                None
            }
        },
        SeedSource::Grader => parse_grader_score(name),
        SeedSource::GraderPath => parse_grader_score(name),
        SeedSource::CeOutput => {
            if seed_id > 999999 {
                Some(0)
            } else {
                Some(999999 - seed_id)
            }
        },
    }
}

/// The queue number of a source.
pub fn queue_number(source: SeedSource) -> (r: u32)
    ensures
        r == queue_id_of(source),
{
    match source {
        SeedSource::Fuzzer => 0,
        SeedSource::Grader => 1,
        SeedSource::GraderPath => 2,
        SeedSource::CeOutput => 1,
    }
}

/// What the caller is to do on the way to the next seed to run.
#[derive(Debug, PartialEq, Eq)]
pub enum InputStep {
    /// Test whether the file of this seed exists, and come back with the
    /// seed and the answer.
    Check((Vec<u8>, u32, u32, u32)),
    /// Run this seed.
    Take((Vec<u8>, u32, u32, u32)),
    /// Nothing is queued.
    Empty,
}

/// The queue of seeds published by the peers.
pub struct DepotSync {
    /// Directories of the peers.
    pub dirs: DepotSyncDir,
    next_afl_id: u32,
    next_grader_q_id: u32,
    next_ce_queue_id: u32,
    next_grader_path_id: u32,
    input_queue: MinMaxHeap<HeapKey>,
    paths: Vec<Vec<u8>>,
    num_inputs: usize,
}

impl View for DepotSync {
    type V = QueueModel;

    /// The queue as contracts see it.
    closed spec fn view(&self) -> QueueModel {
        QueueModel {
            keys: heap_keys(self.input_queue),
            paths: Seq::new(self.paths@.len(), |i: int| self.paths@[i]@),
        }
    }
}

impl DepotSync {
    /// The index of the first seed of `source` not looked up yet.
    pub closed spec fn next_id(&self, source: SeedSource) -> u32 {
        match source {
            SeedSource::Fuzzer => self.next_afl_id,
            SeedSource::Grader => self.next_grader_q_id,
            SeedSource::GraderPath => self.next_grader_path_id,
            SeedSource::CeOutput => self.next_ce_queue_id,
        }
    }

    /// The directory that `source` publishes in.
    pub closed spec fn dir_of(&self, source: SeedSource) -> Seq<u8> {
        match source {
            SeedSource::Fuzzer => self.dirs.afl_queue_dir@,
            SeedSource::Grader => self.dirs.grader_queue_dir@,
            SeedSource::GraderPath => self.dirs.grader_path_dir@,
            SeedSource::CeOutput => self.dirs.ce_queue_dir@,
        }
    }

    /// The number of queued seeds.
    pub closed spec fn size(&self) -> int {
        self.num_inputs as int
    }

    /// The size counts the queued keys, and every key points at a slot.
    pub closed spec fn wf(&self) -> bool {
        &&& self.num_inputs == heap_keys(self.input_queue).len()
        &&& self.num_inputs <= self.paths@.len()
        &&& forall|k: HeapKey| heap_keys(self.input_queue).count(k) > 0 ==> k.3 < self.paths@.len()
    }

    /// An empty queue over the peers' directories under `out_dir`.
    pub fn new(out_dir: &Vec<u8>) -> (r: Self)
        ensures
            r.wf(),
            r.size() == 0,
            r@.keys == Multiset::<HeapKey>::empty(),
            r@.paths.len() == 0,
            forall|s: SeedSource| r.next_id(s) == 0,
            r.dir_of(SeedSource::Fuzzer) == joined(joined(out_dir@, fuzzer_dir_name()), queue_dir_name()),
            r.dir_of(SeedSource::Grader) == joined(joined(out_dir@, grader_dir_name()), queue_dir_name()),
            r.dir_of(SeedSource::GraderPath) == joined(
                joined(out_dir@, grader_path_dir_name()),
                queue_dir_name(),
            ),
            r.dir_of(SeedSource::CeOutput) == joined(joined(out_dir@, fifo_dir_name()), queue_dir_name()),
    {
        Self {
            dirs: DepotSyncDir::new(out_dir),
            next_afl_id: 0,
            next_grader_q_id: 0,
            next_ce_queue_id: 0,
            next_grader_path_id: 0,
            input_queue: heap_new(),
            paths: Vec::new(),
            num_inputs: 0,
        }
    }

    /// Queues a seed. The boundaries of the sources stay as they are.
    pub fn enqueue(&mut self, path: Vec<u8>, rare: u32, queue_id: u32, seed_id: u32)
        requires
            old(self).wf(),
        ensures
            final(self).wf(),
            final(self)@ == with_seed(old(self)@, queue_id, rare, seed_id, path@),
            final(self).size() == old(self).size() + 1,
            forall|s: SeedSource| final(self).dir_of(s) == old(self).dir_of(s),
            forall|s: SeedSource| final(self).next_id(s) == old(self).next_id(s),
    {
        let slot = self.paths.len();
        let ghost before = self@;
        self.paths.push(path);
        heap_push(&mut self.input_queue, (u32::MAX - queue_id, rare, seed_id, slot));
        let slots = self.paths.len();
        assert(self.num_inputs < slots);
        self.num_inputs = self.num_inputs + 1;
        proof {
            assert(self@.paths =~= before.paths.push(path@));
        }
    }

    /// Whether nothing is queued.
    pub fn isempty(&self) -> (r: bool)
        requires
            self.wf(),
        ensures
            r == (self.size() == 0),
            r == (self@.keys.len() == 0),
    {
        self.num_inputs == 0
    }

    /// The number of queued seeds.
    pub fn qlen(&self) -> (r: usize)
        requires
            self.wf(),
        ensures
            r == self.size(),
            r == self@.keys.len(),
    {
        self.num_inputs
    }

    /// The index of the first seed of `source` not looked up yet.
    pub fn next_seed_id(&self, source: SeedSource) -> (r: u32)
        ensures
            r == self.next_id(source),
    {
        match source {
            SeedSource::Fuzzer => self.next_afl_id,
            SeedSource::Grader => self.next_grader_q_id,
            SeedSource::GraderPath => self.next_grader_path_id,
            SeedSource::CeOutput => self.next_ce_queue_id,
        }
    }

    fn set_next_id(&mut self, source: SeedSource, id: u32)
        ensures
            final(self).next_id(source) == id,
            forall|s: SeedSource| s != source ==> final(self).next_id(s) == old(self).next_id(s),
            final(self).input_queue == old(self).input_queue,
            final(self).paths == old(self).paths,
            final(self).num_inputs == old(self).num_inputs,
            forall|s: SeedSource| final(self).dir_of(s) == old(self).dir_of(s),
    {
        match source {
            SeedSource::Fuzzer => {
                self.next_afl_id = id;
            },
            SeedSource::Grader => {
                self.next_grader_q_id = id;
            },
            SeedSource::GraderPath => {
                self.next_grader_path_id = id;
            },
            SeedSource::CeOutput => {
                self.next_ce_queue_id = id;
            },
        }
    }

    fn seed_path(&self, source: SeedSource, name: &Vec<u8>) -> (r: Vec<u8>)
        ensures
            r@ == joined(self.dir_of(source), name@),
    {
        match source {
            SeedSource::Fuzzer => join_path(&self.dirs.afl_queue_dir, name),
            SeedSource::Grader => join_path(&self.dirs.grader_queue_dir, name),
            SeedSource::GraderPath => join_path(&self.dirs.grader_path_dir, name),
            SeedSource::CeOutput => join_path(&self.dirs.ce_queue_dir, name),
        }
    }

    /// Looks the next seed of a source up in `names`, the listing of its
    /// directory, without queueing it. Where the listing holds a file for
    /// it, the boundary moves past it and the file's path is returned. The
    /// source is named by its number as in [`DepotSync::sync_new`]; any other
    /// number, a missing file, and a boundary at the largest `u32` change
    /// nothing and give `None`.
    pub fn check_seed(&mut self, category: i32, names: &Vec<Vec<u8>>) -> (r: Option<Vec<u8>>)
        requires
            old(self).wf(),
        ensures
            final(self).wf(),
            final(self)@ == old(self)@,
            forall|s: SeedSource| final(self).dir_of(s) == old(self).dir_of(s),
            r is Some <==> tier_source(category) is Some && old(self).next_id(tier_source(category).unwrap())
                < u32::MAX && has_seed(names@, old(self).next_id(tier_source(category).unwrap()) as int),
            r is Some ==> {
                let source = tier_source(category).unwrap();
                let id = old(self).next_id(source);
                &&& r.unwrap()@ == joined(
                    old(self).dir_of(source),
                    names@[first_match(names@, seed_name(id as nat), 0)]@,
                )
                &&& final(self).next_id(source) == id + 1
                &&& forall|s: SeedSource| s != source ==> final(self).next_id(s) == old(self).next_id(s)
            },
            r is None ==> forall|s: SeedSource| final(self).next_id(s) == old(self).next_id(s),
    {
        let source = if category == 0 {
            SeedSource::Fuzzer
        } else if category == 1 {
            SeedSource::Grader
        } else if category == 2 {
            SeedSource::GraderPath
        } else {
            return None;
        };
        let seed_id = self.next_seed_id(source);
        if seed_id == u32::MAX {
            return None;
        }
        let prefix = seed_file_name(seed_id as usize);
        let at = find_name(names, &prefix);
        if at >= names.len() {
            return None;
        }
        let path = self.seed_path(source, &names[at]);
        self.set_next_id(source, seed_id + 1);
        Some(path)
    }

    /// Takes over the seeds of `source` from its boundary up to the first
    /// index that has no file in `names`, the listing of the source's
    /// directory, and moves the boundary there. For each index the first
    /// file in listing order is queued with its score, or passed over where
    /// it has none. The boundary never passes the largest `u32`.
    pub fn sync_source(&mut self, source: SeedSource, names: &Vec<Vec<u8>>) -> (found: bool)
        requires
            old(self).wf(),
        ensures
            final(self).wf(),
            forall|s: SeedSource| final(self).dir_of(s) == old(self).dir_of(s),
            old(self).next_id(source) <= final(self).next_id(source),
            found == (old(self).next_id(source) < final(self).next_id(source)),
            forall|id: int|
                old(self).next_id(source) <= id < final(self).next_id(source) ==> #[trigger] has_seed(
                    names@,
                    id,
                ),
            final(self).next_id(source) == u32::MAX || !has_seed(
                names@,
                final(self).next_id(source) as int,
            ),
            final(self)@ == ingested(
                old(self)@,
                source,
                old(self).dir_of(source),
                names@,
                old(self).next_id(source) as int,
                final(self).next_id(source) as int,
            ),
            forall|s: SeedSource| s != source ==> final(self).next_id(s) == old(self).next_id(s),
    {
        let from = self.next_seed_id(source);
        let mut seed_id: u32 = from;
        let ghost start = self@;
        let ghost dir = self.dir_of(source);
        let mut gap = false;
        while !gap && seed_id < u32::MAX
            invariant
                self.wf(),
                from <= seed_id,
                gap ==> !has_seed(names@, seed_id as int),
                forall|s: SeedSource| self.dir_of(s) == old(self).dir_of(s),
                dir == self.dir_of(source),
                forall|s: SeedSource| self.next_id(s) == old(self).next_id(s),
                forall|id: int| from <= id < seed_id ==> #[trigger] has_seed(names@, id),
                self@ == ingested(start, source, dir, names@, from as int, seed_id as int),
            decreases u32::MAX - seed_id + if gap { 0int } else { 1int },
        {
            let prefix = seed_file_name(seed_id as usize);
            let at = find_name(names, &prefix);
            if at >= names.len() {
                gap = true;
            } else {
                match score_seed(source, &names[at], seed_id) {
                    Some(rare) => {
                        let path = self.seed_path(source, &names[at]);
                        self.enqueue(path, rare, queue_number(source), seed_id);
                    },
                    None => {},
                }
                seed_id += 1;
            }
        }
        self.set_next_id(source, seed_id);
        seed_id > from
    }

    /// [`DepotSync::sync_source`] for the source that `category` names when
    /// all three peers are read: 0 the mutation fuzzer, 1 the coverage
    /// grader, 2 the path grader. Any other number changes nothing and
    /// gives `false`.
    pub fn sync_new(&mut self, category: i32, names: &Vec<Vec<u8>>) -> (found: bool)
        requires
            old(self).wf(),
        ensures
            final(self).wf(),
            forall|s: SeedSource| final(self).dir_of(s) == old(self).dir_of(s),
            tier_source(category) is None ==> !found && final(self)@ == old(self)@
                && forall|s: SeedSource| final(self).next_id(s) == old(self).next_id(s),
            tier_source(category) is Some ==> {
                let source = tier_source(category).unwrap();
                &&& old(self).next_id(source) <= final(self).next_id(source)
                &&& found == (old(self).next_id(source) < final(self).next_id(source))
                &&& forall|id: int|
                    old(self).next_id(source) <= id < final(self).next_id(source) ==> #[trigger] has_seed(
                        names@,
                        id,
                    )
                &&& (final(self).next_id(source) == u32::MAX || !has_seed(
                    names@,
                    final(self).next_id(source) as int,
                ))
                &&& final(self)@ == ingested(
                    old(self)@,
                    source,
                    old(self).dir_of(source),
                    names@,
                    old(self).next_id(source) as int,
                    final(self).next_id(source) as int,
                )
                &&& forall|s: SeedSource| s != source ==> final(self).next_id(s) == old(self).next_id(s)
            },
    {
        if category == 0 {
            self.sync_source(SeedSource::Fuzzer, names)
        } else if category == 1 {
            self.sync_source(SeedSource::Grader, names)
        } else if category == 2 {
            self.sync_source(SeedSource::GraderPath, names)
        } else {
            false
        }
    }

    /// [`DepotSync::sync_source`] for the source that `category` names in
    /// first-in mode: 0 the mutation fuzzer, 1 the solver's outputs. Any
    /// other number changes nothing.
    pub fn sync_fz_cefifo(&mut self, category: i32, names: &Vec<Vec<u8>>)
        requires
            old(self).wf(),
        ensures
            final(self).wf(),
            forall|s: SeedSource| final(self).dir_of(s) == old(self).dir_of(s),
            fifo_source(category) is None ==> final(self)@ == old(self)@ && forall|
                s: SeedSource,
            | final(self).next_id(s) == old(self).next_id(s),
            fifo_source(category) is Some ==> {
                let source = fifo_source(category).unwrap();
                &&& old(self).next_id(source) <= final(self).next_id(source)
                &&& forall|id: int|
                    old(self).next_id(source) <= id < final(self).next_id(source) ==> #[trigger] has_seed(
                        names@,
                        id,
                    )
                &&& (final(self).next_id(source) == u32::MAX || !has_seed(
                    names@,
                    final(self).next_id(source) as int,
                ))
                &&& final(self)@ == ingested(
                    old(self)@,
                    source,
                    old(self).dir_of(source),
                    names@,
                    old(self).next_id(source) as int,
                    final(self).next_id(source) as int,
                )
                &&& forall|s: SeedSource| s != source ==> final(self).next_id(s) == old(self).next_id(s)
            },
    {
        if category == 0 {
            self.sync_source(SeedSource::Fuzzer, names);
        } else if category == 1 {
            self.sync_source(SeedSource::CeOutput, names);
        }
    }

    /// Takes the seed that is served first out of the queue: none queued
    /// outranks it. On an empty queue nothing changes.
    pub fn pop_max(&mut self) -> (r: Option<BcountPriorityValue>)
        requires
            old(self).wf(),
        ensures
            final(self).wf(),
            forall|s: SeedSource| final(self).dir_of(s) == old(self).dir_of(s),
            forall|s: SeedSource| final(self).next_id(s) == old(self).next_id(s),
            r is None <==> old(self).size() == 0,
            r is None ==> final(self)@ == old(self)@,
            r is Some ==> final(self).size() == old(self).size() - 1 && exists|slot: int| #[trigger]
                served(
                    old(self)@,
                    final(self)@,
                    r.unwrap().queue_id,
                    r.unwrap().rare_score,
                    r.unwrap().seed_id,
                    r.unwrap().path@,
                    slot,
                ),
    {
        let ghost before = self@;
        match heap_pop_max(&mut self.input_queue) {
            None => None,
            Some(key) => {
                proof {
                    assert(before.keys.count(key) > 0);
                    assert(before.keys.len() > 0);
                }
                self.num_inputs = self.num_inputs - 1;
                let slot = key.3;
                let path = copy_bytes(&self.paths[slot]);
                self.paths.set(slot, Vec::new());
                let e = BcountPriorityValue {
                    queue_id: u32::MAX - key.0,
                    rare_score: key.1,
                    seed_id: key.2,
                    path,
                };
                proof {
                    assert(key_of(e.queue_id, e.rare_score, e.seed_id, slot as int) == key);
                    assert(self@.paths =~= before.paths.update(slot as int, Seq::empty()));
                    assert forall|k: HeapKey| #[trigger] before.keys.count(k) > 0 implies outranks(
                        e.queue_id,
                        e.rare_score,
                        e.seed_id,
                        (u32::MAX - k.0) as u32,
                        k.1,
                        k.2,
                    ) by {
                        assert(key_le(k, key));
                    }
                    assert forall|k: HeapKey| heap_keys(self.input_queue).count(k) > 0 implies k.3
                        < self.paths@.len() by {
                        assert(before.keys.count(k) > 0);
                    }
                }
                let r = Some(e);
                assert(served(
                    old(self)@,
                    self@,
                    r.unwrap().queue_id,
                    r.unwrap().rare_score,
                    r.unwrap().seed_id,
                    r.unwrap().path@,
                    slot as int,
                ));
                r
            },
        }
    }

    /// Takes the seed that is served first out of the queue: its path, queue
    /// number and intake index, and 1 where it was the last one queued, else
    /// 0. `None` on an empty queue.
    pub fn pop_input(&mut self) -> (r: Option<(Vec<u8>, u32, u32, u32)>)
        requires
            old(self).wf(),
        ensures
            final(self).wf(),
            forall|s: SeedSource| final(self).dir_of(s) == old(self).dir_of(s),
            forall|s: SeedSource| final(self).next_id(s) == old(self).next_id(s),
            r is None <==> old(self).size() == 0,
            r is None ==> final(self)@ == old(self)@,
            r is Some ==> {
                let e = r.unwrap();
                &&& final(self).size() == old(self).size() - 1
                &&& e.3 == if old(self).size() == 1 {
                    1u32
                } else {
                    0u32
                }
                &&& exists|slot: int, rare: u32| #[trigger]
                    served(old(self)@, final(self)@, e.1, rare, e.2, e.0@, slot)
            },
    {
        match self.pop_max() {
            None => None,
            Some(e) => {
                let last: u32 = if self.num_inputs == 0 {
                    1
                } else {
                    0
                };
                let ghost slot = choose|slot: int| #[trigger]
                    served(
                        old(self)@,
                        self@,
                        e.queue_id,
                        e.rare_score,
                        e.seed_id,
                        e.path@,
                        slot,
                    );
                let ghost rare = e.rare_score;
                let out = (e.path, e.queue_id, e.seed_id, last);
                let r = Some(out);
                assert(served(
                    old(self)@,
                    self@,
                    r.unwrap().1,
                    rare,
                    r.unwrap().2,
                    r.unwrap().0@,
                    slot,
                ));
                r
            },
        }
    }

    /// One step towards the next seed to run. `checked` is the seed handed
    /// out for a test by the step before, with the answer whether its file
    /// still exists; `None` on the first step.
    ///
    /// A seed whose file exists is the one to run, and the queue stays as
    /// it is. Otherwise (first step, or the file is gone and the seed is
    /// dropped) the seed served first is taken out of the queue and handed
    /// out for its test; on an empty queue the answer is `Empty`.
    pub fn get_next_input_rare(&mut self, checked: Option<((Vec<u8>, u32, u32, u32), bool)>) -> (r: InputStep)
        requires
            old(self).wf(),
        ensures
            final(self).wf(),
            forall|s: SeedSource| final(self).dir_of(s) == old(self).dir_of(s),
            forall|s: SeedSource| final(self).next_id(s) == old(self).next_id(s),
            checked is Some && checked.unwrap().1 ==> r == InputStep::Take(checked.unwrap().0) && final(self)@
                == old(self)@ && final(self).size() == old(self).size(),
            !(checked is Some && checked.unwrap().1) ==> {
                &&& !(r is Take)
                &&& r is Empty <==> old(self).size() == 0
                &&& r is Empty ==> final(self)@ == old(self)@
                &&& r is Check ==> {
                    let e = r->Check_0;
                    &&& final(self).size() == old(self).size() - 1
                    &&& e.3 == if old(self).size() == 1 {
                        1u32
                    } else {
                        0u32
                    }
                    &&& exists|slot: int, rare: u32| #[trigger]
                        served(old(self)@, final(self)@, e.1, rare, e.2, e.0@, slot)
                }
            },
    {
        match checked {
            Some((seed, true)) => InputStep::Take(seed),
            _ => match self.pop_input() {
                Some(seed) => {
                    let ghost w = choose|slot: int, rare: u32| #[trigger]
                        served(old(self)@, self@, seed.1, rare, seed.2, seed.0@, slot);
                    let r = InputStep::Check(seed);
                    assert(served(old(self)@, self@, (r->Check_0).1, w.1, (r->Check_0).2, (r->Check_0).0@, w.0));
                    r
                },
                None => InputStep::Empty,
            },
        }
    }
}

/// Counters of the driver's own finds, by outcome.
pub struct Depot {
    num_inputs: usize,
    num_hangs: usize,
    num_crashes: usize,
    /// Directories the finds go to.
    pub dirs: DepotDir,
}

impl Depot {
    /// Number of finds saved under `status`; 0 for a status that is never
    /// saved.
    pub closed spec fn count(&self, status: StatusType) -> int {
        match status {
            StatusType::Normal => self.num_inputs as int,
            StatusType::Timeout => self.num_hangs as int,
            StatusType::Crash => self.num_crashes as int,
            _ => 0,
        }
    }

    /// The directory finds under `status` go to; empty for a status that is
    /// never saved.
    pub closed spec fn dir_of(&self, status: StatusType) -> Seq<u8> {
        match status {
            StatusType::Normal => self.dirs.inputs_dir@,
            StatusType::Timeout => self.dirs.hangs_dir@,
            StatusType::Crash => self.dirs.crashes_dir@,
            _ => Seq::empty(),
        }
    }

    /// The directory of the initial seeds.
    pub closed spec fn seeds_dir(&self) -> Seq<u8> {
        self.dirs.seeds_dir@
    }

    /// Whether finds under `status` are saved.
    pub open spec fn saves(status: StatusType) -> bool {
        status == StatusType::Normal || status == StatusType::Timeout || status == StatusType::Crash
    }

    /// No finds yet; output directories under `out_dir`.
    pub fn new(in_dir: Vec<u8>, out_dir: &Vec<u8>) -> (r: Self)
        ensures
            forall|s: StatusType| r.count(s) == 0,
            r.seeds_dir() == in_dir@,
            r.dir_of(StatusType::Normal) == joined(out_dir@, crate::depot_dir::queue_dir_name()),
            r.dir_of(StatusType::Timeout) == joined(out_dir@, crate::depot_dir::hangs_dir_name()),
            r.dir_of(StatusType::Crash) == joined(out_dir@, crate::depot_dir::crashes_dir_name()),
    {
        Self { num_inputs: 0, num_hangs: 0, num_crashes: 0, dirs: DepotDir::new(in_dir, out_dir) }
    }

    /// Where the next find under `status` is to be written; `None` for a
    /// status that is never saved.
    pub fn next_path(&self, status: StatusType) -> (r: Option<Vec<u8>>)
        ensures
            r is Some <==> Self::saves(status),
            r is Some ==> r.unwrap()@ == joined(self.dir_of(status), seed_name(self.count(status) as nat)),
    {
        match status {
            StatusType::Normal => Some(get_file_name(&self.dirs.inputs_dir, self.num_inputs)),
            StatusType::Timeout => Some(get_file_name(&self.dirs.hangs_dir, self.num_hangs)),
            StatusType::Crash => Some(get_file_name(&self.dirs.crashes_dir, self.num_crashes)),
            _ => None,
        }
    }

    /// The index [`Depot::save`] would give for `status` now.
    pub fn index_after_save(&self, status: StatusType) -> (r: usize)
        ensures
            r == if Self::saves(status) && self.count(status) < usize::MAX {
                self.count(status) + 1
            } else {
                0
            },
    {
        match status {
            StatusType::Normal => if self.num_inputs == usize::MAX {
                0
            } else {
                self.num_inputs + 1
            },
            StatusType::Timeout => if self.num_hangs == usize::MAX {
                0
            } else {
                self.num_hangs + 1
            },
            StatusType::Crash => if self.num_crashes == usize::MAX {
                0
            } else {
                self.num_crashes + 1
            },
            _ => 0,
        }
    }

    /// Counts a find under `status` as written and gives the index after
    /// it. A status that is never saved changes nothing and gives 0, and so
    /// does a counter that has reached the largest `usize`.
    pub fn save(&mut self, status: StatusType) -> (r: usize)
        ensures
            forall|s: StatusType| final(self).dir_of(s) == old(self).dir_of(s),
            final(self).seeds_dir() == old(self).seeds_dir(),
            forall|s: StatusType| s != status ==> final(self).count(s) == old(self).count(s),
            Self::saves(status) && old(self).count(status) < usize::MAX ==> final(self).count(status)
                == old(self).count(status) + 1 && r == final(self).count(status),
            !(Self::saves(status) && old(self).count(status) < usize::MAX) ==> final(self).count(status)
                == old(self).count(status) && r == 0,
    {
        match status {
            StatusType::Normal => {
                if self.num_inputs == usize::MAX {
                    return 0;
                }
                self.num_inputs = self.num_inputs + 1;
                self.num_inputs
            },
            StatusType::Timeout => {
                if self.num_hangs == usize::MAX {
                    return 0;
                }
                self.num_hangs = self.num_hangs + 1;
                self.num_hangs
            },
            StatusType::Crash => {
                if self.num_crashes == usize::MAX {
                    return 0;
                }
                self.num_crashes = self.num_crashes + 1;
                self.num_crashes
            },
            _ => 0,
        }
    }

    /// Whether no normal find was saved yet.
    pub fn empty(&self) -> (r: bool)
        ensures
            r == (self.count(StatusType::Normal) == 0),
    {
        self.num_inputs == 0
    }

    /// The path of the normal find `id`.
    pub fn get_input_path(&self, id: usize) -> (r: Vec<u8>)
        ensures
            r@ == joined(self.dir_of(StatusType::Normal), seed_name(id as nat)),
    {
        get_file_name(&self.dirs.inputs_dir, id)
    }

    /// Number of normal finds saved.
    pub fn get_num_inputs(&self) -> (r: usize)
        ensures
            r == self.count(StatusType::Normal),
    {
        self.num_inputs
    }

    /// Turns a random number into the index of a saved normal find; `None`
    /// while there is none.
    pub fn next_random(&self, random: usize) -> (r: Option<usize>)
        ensures
            r == if self.count(StatusType::Normal) == 0 {
                None
            } else {
                Some((random as int % self.count(StatusType::Normal)) as usize)
            },
    {
        if self.num_inputs == 0 {
            None
        } else {
            Some(random % self.num_inputs)
        }
    }
}

} // verus!

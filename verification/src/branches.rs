//! Coverage engine: hit-count buckets, the process-wide virgin maps and the
//! classification of one execution trace against them.

use vstd::prelude::*;
use std::collections::HashSet;
use crate::config::BRANCHES_SIZE;
use crate::shm::SHM;
use crate::status_type::StatusType;

verus! {

broadcast use vstd::std_specs::hash::group_hash_axioms;

/// The single-bit class of a raw hit count:
/// `1, 2, 3, 4..=7, 8..=15, 16..=31, 32..=127, 128..` map to bits 0 to 7,
/// and a count of zero maps to no bit.
pub open spec fn bucket_of(v: u8) -> u8 {
    if v == 0 {
        0
    } else if v == 1 {
        1
    } else if v == 2 {
        2
    } else if v == 3 {
        4
    } else if v <= 7 {
        8
    } else if v <= 15 {
        16
    } else if v <= 31 {
        32
    } else if v <= 127 {
        64
    } else {
        128
    }
}

/// Sum of two bytes, held at 255.
pub open spec fn sat_add(a: u8, b: u8) -> u8 {
    if a + b > 255 {
        255u8
    } else {
        (a + b) as u8
    }
}

/// Number of bytes among the first `n` of `map` that have lost a bit.
pub open spec fn touched_upto(map: Seq<u8>, n: int) -> int
    decreases n,
{
    if n <= 0 {
        0
    } else {
        touched_upto(map, n - 1) + if map[n - 1] != 255 {
            1int
        } else {
            0int
        }
    }
}

/// Number of bytes of `map` that have lost a bit.
pub open spec fn touched(map: Seq<u8>) -> int {
    touched_upto(map, map.len() as int)
}

/// `path` is the sparse form of `trace`: one entry per edge with a
/// non-zero count, in ascending edge order, carrying the count's bucket.
pub open spec fn is_path(path: Seq<(usize, u8)>, trace: Seq<u8>) -> bool {
    &&& forall|k: int|
        0 <= k < path.len() ==> (#[trigger] path[k]).0 < trace.len() && trace[path[k].0 as int] > 0
            && path[k].1 == bucket_of(trace[path[k].0 as int])
    &&& forall|j: int, k: int|
        0 <= j < k < path.len() ==> (#[trigger] path[j]).0 < (#[trigger] path[k]).0
    &&& forall|i: int|
        0 <= i < trace.len() && #[trigger] trace[i] > 0 ==> exists|k: int|
            0 <= k < path.len() && (#[trigger] path[k]).0 == i
}

/// `hits` pairs, for each entry of `path`, the count of this execution
/// with the edge's cumulative count after it was added to `total`.
pub open spec fn is_hits(
    hits: Seq<(u8, u8)>,
    path: Seq<(usize, u8)>,
    trace: Seq<u8>,
    total: Seq<u8>,
) -> bool {
    &&& hits.len() == path.len()
    &&& forall|k: int|
        0 <= k < hits.len() ==> (#[trigger] hits[k]) == (
            trace[path[k].0 as int],
            sat_add(total[path[k].0 as int], trace[path[k].0 as int]),
        )
}

/// The virgin map `v` after the buckets hit by `trace` were cleared in it.
pub open spec fn cleared(v: Seq<u8>, trace: Seq<u8>) -> Seq<u8> {
    Seq::new(v.len(), |i: int| v[i] & !bucket_of(trace[i]))
}

/// Whether `trace` hits a bucket that is still set in `v`.
pub open spec fn new_bucket(v: Seq<u8>, trace: Seq<u8>) -> bool {
    exists|i: int| 0 <= i < v.len() && bucket_of(#[trigger] trace[i]) & v[i] != 0
}

/// Whether `trace` hits an edge whose byte in `v` is still fully virgin.
pub open spec fn new_edge(v: Seq<u8>, trace: Seq<u8>) -> bool {
    exists|i: int| 0 <= i < v.len() && #[trigger] trace[i] > 0 && v[i] == 255
}

/// The cumulative counts `total` after `trace` was added to them.
pub open spec fn accumulated(total: Seq<u8>, trace: Seq<u8>) -> Seq<u8> {
    Seq::new(total.len(), |i: int| sat_add(total[i], trace[i]))
}

/// Novelty of an execution: 2 for a new bucket, 1 for a path hash not seen
/// before without a new bucket, 0 otherwise.
pub open spec fn novelty_level(bucket_is_new: bool, path_is_new: bool) -> u16 {
    if bucket_is_new {
        2
    } else if path_is_new {
        1
    } else {
        0
    }
}

/// Maps a raw hit count to its bucket bit.
pub fn count_lookup(v: u8) -> (r: u8)
    ensures
        r == bucket_of(v),
{
    if v == 0 {
        0
    } else if v == 1 {
        1
    } else if v == 2 {
        2
    } else if v == 3 {
        4
    } else if v <= 7 {
        8
    } else if v <= 15 {
        16
    } else if v <= 31 {
        32
    } else if v <= 127 {
        64
    } else {
        128
    }
}

proof fn lemma_touched_update(map: Seq<u8>, i: int, x: u8, n: int)
    requires
        0 <= i < map.len(),
        0 <= n <= map.len(),
    ensures
        touched_upto(map.update(i, x), n) == touched_upto(map, n) + if i < n {
            (if x != 255 { 1int } else { 0int }) - (if map[i] != 255 { 1int } else { 0int })
        } else {
            0int
        },
    decreases n,
{
    if n > 0 {
        lemma_touched_update(map, i, x, n - 1);
    }
}

proof fn lemma_touched_bounds(map: Seq<u8>, n: int)
    requires
        0 <= n <= map.len(),
    ensures
        0 <= touched_upto(map, n) <= n,
    decreases n,
{
    if n > 0 {
        lemma_touched_bounds(map, n - 1);
    }
}

proof fn lemma_touched_fresh(map: Seq<u8>, n: int)
    requires
        0 <= n <= map.len(),
        forall|i: int| 0 <= i < map.len() ==> map[i] == 255,
    ensures
        touched_upto(map, n) == 0,
    decreases n,
{
    if n > 0 {
        lemma_touched_fresh(map, n - 1);
    }
}

proof fn lemma_clear_bits(v: u8, b: u8)
    ensures
        (v & !b) & !v == 0,
        b & (v & !b) == 0,
        (b & v) == 0 ==> (v & !b) == v,
        v != 255 ==> (v & !b) != 255,
        v == 255 && b != 0 ==> (v & !b) != 255 && (b & v) != 0,
        b == 0 ==> (b & v) == 0,
{
    assert((v & !b) & !v == 0) by (bit_vector);
    assert(b & (v & !b) == 0) by (bit_vector);
    assert((b & v) == 0 ==> (v & !b) == v) by (bit_vector);
    assert(v != 255 ==> (v & !b) != 255) by (bit_vector);
    assert(v == 255 && b != 0 ==> (v & !b) != 255 && (b & v) != 0) by (bit_vector);
    assert(b == 0 ==> (b & v) == 0) by (bit_vector);
}

/// Adding a trace raises the cumulative count of every edge by exactly the
/// edge's count in the trace, as long as the sum still fits in a byte.
pub proof fn lemma_observe_adds_counts(total: Seq<u8>, trace: Seq<u8>, i: int)
    requires
        0 <= i < total.len(),
        total[i] + trace[i] <= 255,
    ensures
        accumulated(total, trace)[i] == total[i] + trace[i],
{
}

/// Clearing buckets never sets a bit: every byte of the map afterwards has
/// only bits that it had before.
pub proof fn lemma_virgin_never_gains_bits(v: Seq<u8>, trace: Seq<u8>, i: int)
    requires
        0 <= i < v.len(),
    ensures
        cleared(v, trace)[i] & !v[i] == 0,
{
    lemma_clear_bits(v[i], bucket_of(trace[i]));
}

/// Once a trace was held against a map and its path hash recorded, the same
/// trace with the same hash has no new bucket and is of novelty 0.
pub proof fn lemma_replay_is_stale(v: Seq<u8>, trace: Seq<u8>, seen: Set<u64>, hash: u64)
    ensures
        !new_bucket(cleared(v, trace), trace),
        novelty_level(new_bucket(cleared(v, trace), trace), !seen.insert(hash).contains(hash)) == 0,
{
    let after = cleared(v, trace);
    assert forall|i: int| 0 <= i < after.len() implies bucket_of(#[trigger] trace[i]) & after[i] == 0 by {
        lemma_clear_bits(v[i], bucket_of(trace[i]));
    }
}

fn filled(byte: u8) -> (r: Vec<u8>)
    ensures
        r@.len() == BRANCHES_SIZE,
        forall|i: int| 0 <= i < r@.len() ==> r@[i] == byte,
{
    let mut r: Vec<u8> = Vec::new();
    let mut i: usize = 0;
    while i < BRANCHES_SIZE
        invariant
            i <= BRANCHES_SIZE,
            r@.len() == i,
            forall|k: int| 0 <= k < r@.len() ==> r@[k] == byte,
        decreases BRANCHES_SIZE - i,
    {
        r.push(byte);
        i += 1;
    }
    r
}

/// Coverage accumulated over every execution of the process.
pub struct GlobalBranches {
    virgin_branches: Vec<u8>,
    tmouts_branches: Vec<u8>,
    crashes_branches: Vec<u8>,
    total_hit: Vec<u8>,
    density: usize,
}

impl GlobalBranches {
    /// The virgin map that executions ending in `status` are held against.
    /// Only `Normal`, `Timeout` and `Crash` have one; for the other two the
    /// result is the empty sequence.
    pub closed spec fn virgin(&self, status: StatusType) -> Seq<u8> {
        match status {
            StatusType::Normal => self.virgin_branches@,
            StatusType::Timeout => self.tmouts_branches@,
            StatusType::Crash => self.crashes_branches@,
            _ => Seq::empty(),
        }
    }

    /// Cumulative hit count of every edge.
    pub closed spec fn total_hit(&self) -> Seq<u8> {
        self.total_hit@
    }

    /// Number of edges seen by an execution that ended normally.
    pub closed spec fn density(&self) -> int {
        self.density as int
    }

    /// Every map has one byte per edge, and the density counts the edges
    /// whose byte in the normal virgin map has lost a bit.
    pub closed spec fn wf(&self) -> bool {
        &&& self.virgin_branches@.len() == BRANCHES_SIZE
        &&& self.tmouts_branches@.len() == BRANCHES_SIZE
        &&& self.crashes_branches@.len() == BRANCHES_SIZE
        &&& self.total_hit@.len() == BRANCHES_SIZE
        &&& self.density as int == touched(self.virgin_branches@)
    }

    /// In every well-formed state the density is the number of edges whose
    /// byte in the normal virgin map is no longer 255.
    pub proof fn lemma_density_counts_touched(&self)
        requires
            self.wf(),
        ensures
            self.density() == touched(self.virgin(StatusType::Normal)),
            0 <= self.density() <= BRANCHES_SIZE,
            forall|s: StatusType| Self::tracks(s) ==> (#[trigger] self.virgin(s)).len() == BRANCHES_SIZE,
            self.total_hit().len() == BRANCHES_SIZE,
    {
        lemma_touched_bounds(self.virgin_branches@, BRANCHES_SIZE as int);
    }

    /// Whether `status` selects one of the three virgin maps.
    pub open spec fn tracks(status: StatusType) -> bool {
        status == StatusType::Normal || status == StatusType::Timeout || status
            == StatusType::Crash
    }

    /// A state in which nothing was covered yet: every virgin byte is 255,
    /// every cumulative count is zero, and so is the density.
    pub fn new() -> (r: Self)
        ensures
            r.wf(),
            r.density() == 0,
            r.total_hit().len() == BRANCHES_SIZE,
            forall|i: int| 0 <= i < BRANCHES_SIZE ==> r.total_hit()[i] == 0,
            forall|s: StatusType, i: int|
                Self::tracks(s) && 0 <= i < BRANCHES_SIZE ==> (#[trigger] r.virgin(s)[i]) == 255,
            forall|s: StatusType| Self::tracks(s) ==> (#[trigger] r.virgin(s)).len() == BRANCHES_SIZE,
    {
        let virgin_branches = filled(255);
        proof {
            lemma_touched_fresh(virgin_branches@, BRANCHES_SIZE as int);
        }
        Self {
            virgin_branches,
            tmouts_branches: filled(255),
            crashes_branches: filled(255),
            total_hit: filled(0),
            density: 0,
        }
    }

    /// The density as hundredths of a percent of all edges.
    pub fn get_density(&self) -> (r: usize)
        requires
            self.wf(),
        ensures
            r == self.density() * 10000 / (BRANCHES_SIZE as int),
            r <= 10000,
    {
        proof {
            lemma_touched_bounds(self.virgin_branches@, BRANCHES_SIZE as int);
        }
        let scaled: u64 = self.density as u64 * 10000 / (BRANCHES_SIZE as u64);
        scaled as usize
    }

    /// Number of edges seen under `Normal`.
    pub fn edges_seen(&self) -> (r: usize)
        requires
            self.wf(),
        ensures
            r == self.density(),
            r == touched(self.virgin(StatusType::Normal)),
            r <= BRANCHES_SIZE,
    {
        proof {
            lemma_touched_bounds(self.virgin_branches@, BRANCHES_SIZE as int);
        }
        self.density
    }

    /// The byte of edge `idx` in the virgin map of `status`; `None` where
    /// `status` has no map or `idx` is no edge.
    pub fn virgin_byte(&self, status: StatusType, idx: usize) -> (r: Option<u8>)
        requires
            self.wf(),
        ensures
            r == if Self::tracks(status) && idx < BRANCHES_SIZE {
                Some(self.virgin(status)[idx as int])
            } else {
                None
            },
    {
        if idx >= BRANCHES_SIZE {
            return None;
        }
        match status {
            StatusType::Normal => Some(self.virgin_branches[idx]),
            StatusType::Timeout => Some(self.tmouts_branches[idx]),
            StatusType::Crash => Some(self.crashes_branches[idx]),
            _ => None,
        }
    }

    /// The cumulative hit count of edge `idx`; `None` where `idx` is no edge.
    pub fn total_hit_byte(&self, idx: usize) -> (r: Option<u8>)
        requires
            self.wf(),
        ensures
            r == if idx < BRANCHES_SIZE {
                Some(self.total_hit()[idx as int])
            } else {
                None
            },
    {
        if idx >= BRANCHES_SIZE {
            None
        } else {
            Some(self.total_hit[idx])
        }
    }
}

/// Whether `trace` hits an edge whose byte in `map` is still fully virgin.
fn finds_new_edge(map: &Vec<u8>, trace: &Vec<u8>) -> (r: bool)
    requires
        map@.len() == BRANCHES_SIZE,
        trace@.len() == BRANCHES_SIZE,
    ensures
        r == new_edge(map@, trace@),
{
    let mut i: usize = 0;
    while i < BRANCHES_SIZE
        invariant
            i <= BRANCHES_SIZE,
            map@.len() == BRANCHES_SIZE,
            trace@.len() == BRANCHES_SIZE,
            forall|k: int| 0 <= k < i ==> !(#[trigger] trace@[k] > 0 && map@[k] == 255),
        decreases BRANCHES_SIZE - i,
    {
        if trace[i] > 0 && map[i] == 255u8 {
            return true;
        }
        i += 1;
    }
    false
}

/// Clears in `map` the buckets named by `path`. Returns whether any bucket
/// was still set, and how many of the edges had a fully virgin byte.
fn clear_buckets(map: &mut Vec<u8>, path: &Vec<(usize, u8)>, Ghost(trace): Ghost<Seq<u8>>) -> (r: (
    bool,
    usize,
))
    requires
        old(map)@.len() == BRANCHES_SIZE,
        trace.len() == BRANCHES_SIZE,
        is_path(path@, trace),
    ensures
        final(map)@ == cleared(old(map)@, trace),
        r.0 == new_bucket(old(map)@, trace),
        touched(final(map)@) == touched(old(map)@) + r.1,
        r.1 > 0 ==> r.0,
{
    let ghost before = map@;
    let mut changed = false;
    let mut num_new_edge: usize = 0;
    let mut k: usize = 0;
    while k < path.len()
        invariant
            k <= path@.len(),
            num_new_edge <= k,
            map@.len() == BRANCHES_SIZE,
            before.len() == BRANCHES_SIZE,
            trace.len() == BRANCHES_SIZE,
            is_path(path@, trace),
            forall|j: int| 0 <= j < k ==> map@[(#[trigger] path@[j]).0 as int] == before[path@[j].0 as int] & !path@[j].1,
            forall|i: int|
                0 <= i < BRANCHES_SIZE && k < path@.len() && i >= path@[k as int].0 ==> #[trigger] map@[i]
                    == before[i],
            forall|i: int| 0 <= i < BRANCHES_SIZE && trace[i] == 0 ==> #[trigger] map@[i] == before[i],
            changed == exists|j: int| 0 <= j < k && (#[trigger] path@[j]).1 & before[path@[j].0 as int] != 0,
            touched(map@) == touched(before) + num_new_edge,
            num_new_edge > 0 ==> changed,
        decreases path@.len() - k,
    {
        let br = path[k];
        let gb_v = map[br.0];
        let ghost prev = map@;
        proof {
            lemma_clear_bits(gb_v, br.1);
            assert(path@[k as int] == br);
            assert(gb_v == before[br.0 as int]);
        }
        if gb_v == 255u8 {
            num_new_edge += 1;
        }
        if (br.1 & gb_v) > 0 {
            map.set(br.0, gb_v & (!br.1));
            changed = true;
        }
        proof {
            assert(map@ =~= prev.update(br.0 as int, gb_v & !br.1));
            lemma_touched_update(prev, br.0 as int, gb_v & !br.1, BRANCHES_SIZE as int);
            assert forall|j: int| 0 <= j < k + 1 implies map@[(#[trigger] path@[j]).0 as int]
                == before[path@[j].0 as int] & !path@[j].1 by {
                if j < k {
                    assert(path@[j].0 < path@[k as int].0);
                }
            }
            assert forall|i: int|
                0 <= i < BRANCHES_SIZE && k + 1 < path@.len() && i >= path@[k + 1].0 implies #[trigger] map@[i]
                == before[i] by {
                assert(path@[k as int].0 < path@[k + 1].0);
            }
            if (br.1 & gb_v) == 0 {
                assert forall|j: int| 0 <= j < k + 1 && (#[trigger] path@[j]).1 & before[path@[j].0 as int] != 0 implies 0
                    <= j < k by {}
            }
        }
        k += 1;
    }
    proof {
        assert forall|i: int| 0 <= i < BRANCHES_SIZE implies map@[i] == #[trigger] cleared(before, trace)[i] by {
            lemma_clear_bits(before[i], bucket_of(trace[i]));
            if trace[i] > 0 {
                let j = choose|j: int| 0 <= j < path@.len() && (#[trigger] path@[j]).0 == i;
                assert(map@[path@[j].0 as int] == before[i] & !path@[j].1);
            }
        }
        assert(map@ =~= cleared(before, trace));
        if changed {
            let j = choose|j: int| 0 <= j < k && (#[trigger] path@[j]).1 & before[path@[j].0 as int] != 0;
            let i = path@[j].0 as int;
            assert(bucket_of(trace[i]) & before[i] != 0);
        }
        if new_bucket(before, trace) {
            let i = choose|i: int| 0 <= i < before.len() && bucket_of(#[trigger] trace[i]) & before[i] != 0;
            lemma_clear_bits(before[i], bucket_of(trace[i]));
            assert(trace[i] > 0);
            let j = choose|j: int| 0 <= j < path@.len() && (#[trigger] path@[j]).0 == i;
            assert(path@[j].1 & before[path@[j].0 as int] != 0);
        }
    }
    (changed, num_new_edge)
}

/// What one execution left behind: the edge counts it wrote and the hash of
/// its path, each in its segment.
pub struct Branches {
    trace: SHM<Vec<u8>>,
    path_hash: SHM<u64>,
}

/// Result of holding one execution against the global coverage.
pub struct Novelty {
    /// 2 for a new bucket, 1 for a new path hash only, 0 for neither.
    pub level: u16,
    /// Whether the path hash had not been seen before.
    pub path_unique: bool,
    /// For each edge hit, its count in this execution and its cumulative
    /// count including this execution: the terms of the rarity sum.
    pub hits: Vec<(u8, u8)>,
}

impl Branches {
    /// The edge counts of the last execution.
    pub closed spec fn trace(&self) -> Seq<u8> {
        self.trace.value@
    }

    /// The path hash of the last execution.
    pub closed spec fn path_hash(&self) -> u64 {
        self.path_hash.value
    }

    /// Identifier of the trace segment.
    pub closed spec fn trace_id(&self) -> i32 {
        self.trace.id
    }

    /// Identifier of the path-hash segment.
    pub closed spec fn path_id(&self) -> i32 {
        self.path_hash.id
    }

    /// The trace has one byte per edge.
    pub closed spec fn wf(&self) -> bool {
        self.trace.value@.len() == BRANCHES_SIZE
    }

    /// The two segments as a trace, zeroed: one byte per edge and a path
    /// hash of 0.
    pub fn new(trace: SHM<Vec<u8>>, path_hash: SHM<u64>) -> (r: Self)
        ensures
            r.wf(),
            r.path_hash() == 0,
            forall|i: int| 0 <= i < BRANCHES_SIZE ==> r.trace()[i] == 0,
            r.trace_id() == trace.id,
            r.path_id() == path_hash.id,
    {
        let mut trace = trace;
        let mut path_hash = path_hash;
        trace.value = filled(0);
        path_hash.clear();
        Self { trace, path_hash }
    }

    /// Zeroes the trace and the path hash.
    pub fn clear_trace(&mut self)
        requires
            old(self).wf(),
        ensures
            final(self).wf(),
            final(self).path_hash() == 0,
            forall|i: int| 0 <= i < BRANCHES_SIZE ==> final(self).trace()[i] == 0,
            final(self).trace_id() == old(self).trace_id(),
            final(self).path_id() == old(self).path_id(),
    {
        self.trace.clear();
        self.path_hash.clear();
    }

    /// Takes over what an execution wrote. A trace of the wrong length is
    /// refused and leaves the value as it was.
    pub fn load(&mut self, trace: Vec<u8>, path_hash: u64) -> (ok: bool)
        requires
            old(self).wf(),
        ensures
            final(self).wf(),
            ok == (trace@.len() == BRANCHES_SIZE),
            ok ==> final(self).trace() == trace@ && final(self).path_hash() == path_hash,
            !ok ==> final(self).trace() == old(self).trace() && final(self).path_hash() == old(
                self,
            ).path_hash(),
            final(self).trace_id() == old(self).trace_id(),
            final(self).path_id() == old(self).path_id(),
    {
        if trace.len() != BRANCHES_SIZE {
            return false;
        }
        self.trace.value = trace;
        self.path_hash.value = path_hash;
        true
    }

    /// Identifier of the trace segment.
    pub fn get_id(&self) -> (r: i32)
        ensures
            r == self.trace_id(),
    {
        self.trace.get_id()
    }

    /// Identifier of the path-hash segment.
    pub fn get_path_id(&self) -> (r: i32)
        ensures
            r == self.path_id(),
    {
        self.path_hash.get_id()
    }

    /// Whether the eight counts from `base` on are all zero.
    fn octet_is_zero(&self, base: usize) -> (r: bool)
        requires
            self.wf(),
            base <= BRANCHES_SIZE - 8,
        ensures
            r == (self.trace()[base as int] == 0 && self.trace()[base + 1] == 0 && self.trace()[base + 2]
                == 0 && self.trace()[base + 3] == 0 && self.trace()[base + 4] == 0 && self.trace()[base
                + 5] == 0 && self.trace()[base + 6] == 0 && self.trace()[base + 7] == 0),
    {
        let t = &self.trace.value;
        t[base] == 0 && t[base + 1] == 0 && t[base + 2] == 0 && t[base + 3] == 0 && t[base + 4] == 0
            && t[base + 5] == 0 && t[base + 6] == 0 && t[base + 7] == 0
    }

    /// Fingerprints the trace and adds it to the cumulative counters.
    /// Returns the sparse path and, per entry, the terms of the rarity sum.
    /// The trace is read eight counts at a time, and octets of zeros are
    /// passed over.
    pub fn get_path(&self, global: &mut GlobalBranches) -> (r: (Vec<(usize, u8)>, Vec<(u8, u8)>))
        requires
            self.wf(),
            old(global).wf(),
        ensures
            final(global).wf(),
            is_path(r.0@, self.trace()),
            is_hits(r.1@, r.0@, self.trace(), old(global).total_hit()),
            final(global).total_hit() == accumulated(old(global).total_hit(), self.trace()),
            final(global).density() == old(global).density(),
            forall|s: StatusType| final(global).virgin(s) == old(global).virgin(s),
    {
        let mut path: Vec<(usize, u8)> = Vec::new();
        let mut hits: Vec<(u8, u8)> = Vec::new();
        let ghost before = global.total_hit@;
        let ghost trace = self.trace.value@;
        let mut idx: usize = 0;
        while idx < BRANCHES_SIZE
            invariant
                idx <= BRANCHES_SIZE,
                trace == self.trace.value@,
                trace.len() == BRANCHES_SIZE,
                before.len() == BRANCHES_SIZE,
                global.total_hit@.len() == BRANCHES_SIZE,
                global.virgin_branches == old(global).virgin_branches,
                global.tmouts_branches == old(global).tmouts_branches,
                global.crashes_branches == old(global).crashes_branches,
                global.density == old(global).density,
                path@.len() == hits@.len(),
                forall|k: int|
                    0 <= k < path@.len() ==> (#[trigger] path@[k]).0 < idx && trace[path@[k].0 as int] > 0
                        && path@[k].1 == bucket_of(trace[path@[k].0 as int]),
                forall|j: int, k: int|
                    0 <= j < k < path@.len() ==> (#[trigger] path@[j]).0 < (#[trigger] path@[k]).0,
                forall|i: int|
                    0 <= i < idx && #[trigger] trace[i] > 0 ==> exists|k: int|
                        0 <= k < path@.len() && (#[trigger] path@[k]).0 == i,
                forall|k: int|
                    0 <= k < hits@.len() ==> (#[trigger] hits@[k]) == (
                        trace[path@[k].0 as int],
                        sat_add(before[path@[k].0 as int], trace[path@[k].0 as int]),
                    ),
                forall|i: int| 0 <= i < idx ==> #[trigger] global.total_hit@[i] == sat_add(before[i], trace[i]),
                forall|i: int| idx <= i < BRANCHES_SIZE ==> #[trigger] global.total_hit@[i] == before[i],
            decreases BRANCHES_SIZE - idx,
        {
            if idx % 8 == 0 && idx <= BRANCHES_SIZE - 8 && self.octet_is_zero(idx) {
                proof {
                    assert forall|i: int| idx <= i < idx + 8 implies trace[i] == 0 by {
                        assert(i == idx || i == idx + 1 || i == idx + 2 || i == idx + 3 || i == idx + 4
                            || i == idx + 5 || i == idx + 6 || i == idx + 7);
                    }
                    assert forall|i: int| 0 <= i < idx + 8 implies #[trigger] global.total_hit@[i]
                        == sat_add(before[i], trace[i]) by {
                        if i >= idx {
                            assert(trace[i] == 0);
                        }
                    }
                }
                idx += 8;
            } else {
                let new_val = self.trace.value[idx];
                if new_val > 0 {
                    let old_hit = global.total_hit[idx];
                    let sum = if old_hit > 255 - new_val {
                        255u8
                    } else {
                        old_hit + new_val
                    };
                    let ghost prev_path = path@;
                    path.push((idx, count_lookup(new_val)));
                    hits.push((new_val, sum));
                    global.total_hit.set(idx, sum);
                    proof {
                        let last = prev_path.len() as int;
                        assert(path@[last].0 == idx);
                        assert forall|i: int| 0 <= i < idx + 1 && #[trigger] trace[i] > 0 implies exists|k: int|
                            0 <= k < path@.len() && (#[trigger] path@[k]).0 == i by {
                            if i < idx {
                                let k = choose|k: int| 0 <= k < prev_path.len() && (#[trigger] prev_path[k]).0 == i;
                                assert(path@[k] == prev_path[k]);
                            }
                        }
                    }
                }
                idx += 1;
            }
        }
        proof {
            assert(global.total_hit@ =~= accumulated(before, trace));
        }
        (path, hits)
    }

    /// Holds the trace against the virgin map of `status`, clears the buckets
    /// it hit, and says whether any was still set. For a status without a
    /// map nothing changes and the answer is `false`.
    pub fn has_new(&self, global: &mut GlobalBranches, status: StatusType) -> (r: bool)
        requires
            self.wf(),
            old(global).wf(),
        ensures
            final(global).wf(),
            !GlobalBranches::tracks(status) ==> !r && *final(global) == *old(global),
            GlobalBranches::tracks(status) ==> {
                &&& r == new_bucket(old(global).virgin(status), self.trace())
                &&& final(global).virgin(status) == cleared(old(global).virgin(status), self.trace())
                &&& final(global).total_hit() == accumulated(old(global).total_hit(), self.trace())
                &&& forall|s: StatusType| s != status ==> final(global).virgin(s) == old(global).virgin(s)
                &&& status != StatusType::Normal ==> final(global).density() == old(global).density()
                &&& status == StatusType::Normal ==> final(global).density() == touched(
                    cleared(old(global).virgin(status), self.trace()),
                )
            },
    {
        if !has_virgin_map(status) {
            return false;
        }
        let (path, _hits) = self.get_path(global);
        let ghost trace = self.trace.value@;
        match status {
            StatusType::Normal => {
                proof {
                    lemma_touched_bounds(global.virgin_branches@, BRANCHES_SIZE as int);
                }
                let (changed, num_new_edge) = clear_buckets(
                    &mut global.virgin_branches,
                    &path,
                    Ghost(trace),
                );
                proof {
                    lemma_touched_bounds(global.virgin_branches@, BRANCHES_SIZE as int);
                }
                global.density = global.density + num_new_edge;
                changed
            },
            StatusType::Timeout => {
                let (changed, _n) = clear_buckets(&mut global.tmouts_branches, &path, Ghost(trace));
                changed
            },
            _ => {
                let (changed, _n) = clear_buckets(&mut global.crashes_branches, &path, Ghost(trace));
                changed
            },
        }
    }

    /// Whether the trace breaks the rule that a new edge means a new path:
    /// under `status` it hits an edge that no execution hit before, yet its
    /// path hash is among `seen`.
    pub open spec fn breaks_path_rule(&self, global: &GlobalBranches, status: StatusType, seen: Set<u64>) -> bool {
        GlobalBranches::tracks(status) && new_edge(global.virgin(status), self.trace()) && seen.contains(
            self.path_hash(),
        )
    }

    /// Tests the rule that a new edge means a new path, for callers to fail
    /// on before they ask for the novelty.
    pub fn new_edge_with_known_path(
        &self,
        global: &GlobalBranches,
        status: StatusType,
        unique_path_set: &HashSet<u64>,
    ) -> (r: bool)
        requires
            self.wf(),
            global.wf(),
        ensures
            r == self.breaks_path_rule(global, status, unique_path_set@),
    {
        if !unique_path_set.contains(&self.path_hash.value) {
            return false;
        }
        match status {
            StatusType::Normal => finds_new_edge(&global.virgin_branches, &self.trace.value),
            StatusType::Timeout => finds_new_edge(&global.tmouts_branches, &self.trace.value),
            StatusType::Crash => finds_new_edge(&global.crashes_branches, &self.trace.value),
            _ => false,
        }
    }

    /// As [`Branches::has_new`], and also records the path hash in
    /// `unique_path_set`. For a status without a map nothing changes, the set
    /// included, and the level is 0 with no hits. A trace that hits a new
    /// edge on a path already seen is not taken: see
    /// [`Branches::new_edge_with_known_path`].
    pub fn has_new_unique_path(
        &self,
        global: &mut GlobalBranches,
        status: StatusType,
        unique_path_set: &mut HashSet<u64>,
    ) -> (r: Novelty)
        requires
            self.wf(),
            old(global).wf(),
            !self.breaks_path_rule(old(global), status, old(unique_path_set)@),
        ensures
            final(global).wf(),
            new_edge(old(global).virgin(status), self.trace()) ==> r.path_unique || !GlobalBranches::tracks(
                status,
            ),
            !GlobalBranches::tracks(status) ==> {
                &&& r.level == 0
                &&& !r.path_unique
                &&& r.hits@.len() == 0
                &&& *final(global) == *old(global)
                &&& final(unique_path_set)@ == old(unique_path_set)@
            },
            GlobalBranches::tracks(status) ==> {
                &&& r.path_unique == !old(unique_path_set)@.contains(self.path_hash())
                &&& r.level == novelty_level(
                    new_bucket(old(global).virgin(status), self.trace()),
                    r.path_unique,
                )
                &&& final(unique_path_set)@ == old(unique_path_set)@.insert(self.path_hash())
                &&& final(global).virgin(status) == cleared(old(global).virgin(status), self.trace())
                &&& final(global).total_hit() == accumulated(old(global).total_hit(), self.trace())
                &&& forall|s: StatusType| s != status ==> final(global).virgin(s) == old(global).virgin(s)
                &&& status != StatusType::Normal ==> final(global).density() == old(global).density()
                &&& status == StatusType::Normal ==> final(global).density() == touched(
                    cleared(old(global).virgin(status), self.trace()),
                )
                &&& exists|path: Seq<(usize, u8)>|
                    is_path(path, self.trace()) && is_hits(
                        r.hits@,
                        path,
                        self.trace(),
                        old(global).total_hit(),
                    )
            },
    {
        if !has_virgin_map(status) {
            return Novelty { level: 0, path_unique: false, hits: Vec::new() };
        }
        let (path, hits) = self.get_path(global);
        let path_unique = unique_path_set.insert(self.path_hash.value);
        let ghost trace = self.trace.value@;
        let changed = match status {
            StatusType::Normal => {
                proof {
                    lemma_touched_bounds(global.virgin_branches@, BRANCHES_SIZE as int);
                }
                let (changed, num_new_edge) = clear_buckets(
                    &mut global.virgin_branches,
                    &path,
                    Ghost(trace),
                );
                proof {
                    lemma_touched_bounds(global.virgin_branches@, BRANCHES_SIZE as int);
                }
                global.density = global.density + num_new_edge;
                changed
            },
            StatusType::Timeout => {
                let (changed, _n) = clear_buckets(&mut global.tmouts_branches, &path, Ghost(trace));
                changed
            },
            _ => {
                let (changed, _n) = clear_buckets(&mut global.crashes_branches, &path, Ghost(trace));
                changed
            },
        };
        let level: u16 = if changed {
            2
        } else if path_unique {
            1
        } else {
            0
        };
        Novelty { level, path_unique, hits }
    }
}

/// Whether `status` selects one of the three virgin maps.
pub fn has_virgin_map(status: StatusType) -> (r: bool)
    ensures
        r == GlobalBranches::tracks(status),
{
    match status {
        StatusType::Normal => true,
        StatusType::Timeout => true,
        StatusType::Crash => true,
        _ => false,
    }
}

} // verus!

//! Priority of a queued seed and the total order seeds are popped in.

use vstd::prelude::*;
use std::cmp::Ordering;
use vstd::std_specs::cmp::PartialEqSpec;
use vstd::std_specs::cmp::PartialOrdSpec;

verus! {

/// A queued seed: where it came from, how rare its coverage is, its intake
/// index within its source, and the file that holds it.
#[derive(Clone, Debug)]
pub struct BcountPriorityValue {
    /// Source of the seed; a smaller number is served first.
    pub queue_id: u32,
    /// Rarity of the seed; a larger number is served first.
    pub rare_score: u32,
    /// Intake index within the source; a larger number is served first.
    pub seed_id: u32,
    /// Path of the seed file.
    pub path: Vec<u8>,
}

/// Whether a seed with the first three numbers is served no later than one
/// with the last three: smaller source first, then larger rarity, then
/// larger intake index.
pub open spec fn outranks(q1: u32, r1: u32, s1: u32, q2: u32, r2: u32, s2: u32) -> bool {
    q1 < q2 || (q1 == q2 && (r1 > r2 || (r1 == r2 && s1 >= s2)))
}

/// The three-way comparison behind [`outranks`], as a number: 1 where the
/// first seed is served strictly earlier, -1 where strictly later, 0 for a
/// tie.
pub open spec fn rank_cmp(q1: u32, r1: u32, s1: u32, q2: u32, r2: u32, s2: u32) -> int {
    if q1 < q2 {
        1
    } else if q1 > q2 {
        -1
    } else if r1 > r2 {
        1
    } else if r1 < r2 {
        -1
    } else if s1 > s2 {
        1
    } else if s1 < s2 {
        -1
    } else {
        0
    }
}

/// The number that stands for a comparison result.
pub open spec fn ordering_sign(o: Ordering) -> int {
    match o {
        Ordering::Less => -1,
        Ordering::Equal => 0,
        Ordering::Greater => 1,
    }
}

impl BcountPriorityValue {
    /// [`rank_cmp`] of two seeds.
    pub open spec fn rank(&self, other: &Self) -> int {
        rank_cmp(
            self.queue_id,
            self.rare_score,
            self.seed_id,
            other.queue_id,
            other.rare_score,
            other.seed_id,
        )
    }

    /// Compares two seeds by priority: `Greater` means `self` is served
    /// first. The path takes no part.
    pub fn cmp(&self, other: &BcountPriorityValue) -> (r: Ordering)
        ensures
            ordering_sign(r) == self.rank(other),
    {
        if self.queue_id > other.queue_id {
            Ordering::Less
        } else if self.queue_id < other.queue_id {
            Ordering::Greater
        } else if self.rare_score > other.rare_score {
            Ordering::Greater
        } else if self.rare_score < other.rare_score {
            Ordering::Less
        } else if self.seed_id > other.seed_id {
            Ordering::Greater
        } else if self.seed_id < other.seed_id {
            Ordering::Less
        } else {
            Ordering::Equal
        }
    }
}

/// The comparison result that stands for a number's sign.
pub open spec fn sign_ordering(sign: int) -> Ordering {
    if sign < 0 {
        Ordering::Less
    } else if sign == 0 {
        Ordering::Equal
    } else {
        Ordering::Greater
    }
}

impl PartialEq for BcountPriorityValue {
    /// Whether two seeds tie in priority. The path takes no part.
    fn eq(&self, other: &Self) -> (r: bool) {
        (self.queue_id == other.queue_id) && (self.rare_score == other.rare_score) && (self.seed_id
            == other.seed_id)
    }
}

impl vstd::std_specs::cmp::PartialEqSpecImpl for BcountPriorityValue {
    open spec fn obeys_eq_spec() -> bool {
        true
    }

    open spec fn eq_spec(&self, other: &Self) -> bool {
        self.queue_id == other.queue_id && self.rare_score == other.rare_score && self.seed_id
            == other.seed_id
    }
}

impl Eq for BcountPriorityValue {

}

impl PartialOrd for BcountPriorityValue {
    /// As [`BcountPriorityValue::cmp`]; the order is total, so the result is
    /// never `None`.
    fn partial_cmp(&self, other: &Self) -> (r: Option<Ordering>) {
        Some(self.cmp(other))
    }
}

impl vstd::std_specs::cmp::PartialOrdSpecImpl for BcountPriorityValue {
    open spec fn obeys_partial_cmp_spec() -> bool {
        true
    }

    open spec fn partial_cmp_spec(&self, other: &Self) -> Option<Ordering> {
        Some(sign_ordering(self.rank(other)))
    }
}

/// Two seeds are equal exactly where neither is served before the other,
/// and the partial comparison is the comparison.
pub proof fn lemma_eq_is_tie(a: BcountPriorityValue, b: BcountPriorityValue)
    ensures
        a.eq_spec(&b) == (a.rank(&b) == 0),
        a.partial_cmp_spec(&b) is Some,
        ordering_sign(a.partial_cmp_spec(&b).unwrap()) == a.rank(&b),
{
}

/// The comparison is antisymmetric: swapping the seeds flips the sign.
pub proof fn lemma_rank_antisymmetric(a: BcountPriorityValue, b: BcountPriorityValue)
    ensures
        a.rank(&b) == -b.rank(&a),
        a.rank(&a) == 0,
{
}

/// The comparison is transitive.
pub proof fn lemma_rank_transitive(a: BcountPriorityValue, b: BcountPriorityValue, c: BcountPriorityValue)
    requires
        a.rank(&b) >= 0,
        b.rank(&c) >= 0,
    ensures
        a.rank(&c) >= 0,
        (a.rank(&b) > 0 || b.rank(&c) > 0) ==> a.rank(&c) > 0,
{
}

} // verus!

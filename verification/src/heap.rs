//! The double-ended heap behind the seed queue, and what is taken on trust
//! about it.

use vstd::prelude::*;
use vstd::multiset::Multiset;
use min_max_heap::MinMaxHeap;

verus! {

/// What the heap holds for a queued seed: the source turned upside down (so
/// that a smaller source compares larger), the rarity, the intake index, and
/// the slot of the seed's path.
pub type HeapKey = (u32, u32, u32, usize);

/// `min_max_heap::MinMaxHeap`, a double-ended priority queue. Nothing of
/// its inside is known here; what it holds goes by [`heap_keys`].
#[verifier::external_type_specification]
#[verifier::external_body]
#[verifier::reject_recursive_types(T)]
pub struct ExMinMaxHeap<T>(MinMaxHeap<T>);

/// The keys a heap holds, each as often as it was pushed and not yet popped.
pub uninterp spec fn heap_keys(h: MinMaxHeap<(u32, u32, u32, usize)>) -> Multiset<(u32, u32, u32, usize)>;

/// The order of tuples of integers: by the first component, then the second,
/// and so on.
pub open spec fn key_le(a: HeapKey, b: HeapKey) -> bool {
    a.0 < b.0 || (a.0 == b.0 && (a.1 < b.1 || (a.1 == b.1 && (a.2 < b.2 || (a.2 == b.2 && a.3
        <= b.3)))))
}

/// `MinMaxHeap::new`: the new heap holds nothing.
#[verifier::external_body]
pub(crate) fn heap_new() -> (h: MinMaxHeap<HeapKey>)
    ensures
        heap_keys(h) == Multiset::<HeapKey>::empty(),
{
    MinMaxHeap::new()
}

/// `MinMaxHeap::push`: the key is added once; nothing else changes.
#[verifier::external_body]
pub(crate) fn heap_push(h: &mut MinMaxHeap<HeapKey>, key: HeapKey)
    ensures
        heap_keys(*final(h)) == heap_keys(*old(h)).insert(key),
{
    h.push(key)
}

/// `MinMaxHeap::pop_max`: on an empty heap the answer is `None` and nothing
/// changes; otherwise one occurrence of a key that no held key exceeds, in
/// the order of tuples, is removed and returned.
#[verifier::external_body]
pub(crate) fn heap_pop_max(h: &mut MinMaxHeap<HeapKey>) -> (r: Option<HeapKey>)
    ensures
        r is None <==> heap_keys(*old(h)).len() == 0,
        r is None ==> heap_keys(*final(h)) == heap_keys(*old(h)),
        r is Some ==> heap_keys(*old(h)).count(r.unwrap()) > 0,
        r is Some ==> heap_keys(*final(h)) == heap_keys(*old(h)).remove(r.unwrap()),
        r is Some ==> forall|k: HeapKey| heap_keys(*old(h)).count(k) > 0 ==> key_le(k, r.unwrap()),
{
    h.pop_max()
}

} // verus!

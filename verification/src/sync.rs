//! Taking seeds over from a peer fuzzer's output directories: which
//! directories are looked at, which files are run, and where the next pass
//! starts.

use vstd::prelude::*;
use crate::config::MAX_INPUT_LEN;
use crate::file::{ascii_bytes, ascii_of, contains, contains_bytes, has_prefix, number_of, parse_u64, slice_to_vec, starts_with};

verus! {

/// A directory entry as the sync pass sees it.
pub struct PeerFile {
    /// Name of the entry.
    pub name: Vec<u8>,
    /// Whether it is a regular file.
    pub is_file: bool,
    /// Its length in bytes.
    pub len: u64,
}

/// The seed index in a file name: the six digits after its first three
/// bytes. A shorter name, or one with anything but digits there, has none.
pub open spec fn afl_id_of(name: Seq<u8>) -> Option<nat> {
    if name.len() >= 9 {
        number_of(name.subrange(3, 9))
    } else {
        None
    }
}

/// Whether a peer's directory is synced from: its name neither holds
/// `angora` nor starts with a dot.
pub open spec fn peer_dir_wanted(name: Seq<u8>) -> bool {
    !contains(name, ascii_of("angora"@)) && !has_prefix(name, ascii_of("."@))
}

/// Whether an entry counts for the pass that starts at `min_id`: a regular
/// file with a seed index of at least `min_id`.
pub open spec fn counted(e: PeerFile, min_id: nat) -> bool {
    e.is_file && afl_id_of(e.name@) is Some && afl_id_of(e.name@).unwrap() >= min_id
}

/// Whether an entry is taken over: it counts and is shorter than the
/// longest input accepted.
pub open spec fn taken(e: PeerFile, min_id: nat) -> bool {
    counted(e, min_id) && e.len < MAX_INPUT_LEN
}

/// The largest seed index among the first `n` entries that count, or
/// `min_id` where none is larger.
pub open spec fn max_id_upto(entries: Seq<PeerFile>, min_id: nat, n: int) -> nat
    decreases n,
{
    if n <= 0 {
        min_id
    } else {
        let m = max_id_upto(entries, min_id, n - 1);
        if counted(entries[n - 1], min_id) && afl_id_of(entries[n - 1].name@).unwrap() > m {
            afl_id_of(entries[n - 1].name@).unwrap()
        } else {
            m
        }
    }
}

/// `picks` lists, in ascending order, exactly the entries that are taken.
pub open spec fn is_selection(picks: Seq<usize>, entries: Seq<PeerFile>, min_id: nat) -> bool {
    &&& forall|k: int| 0 <= k < picks.len() ==> (#[trigger] picks[k]) < entries.len() && taken(entries[picks[k] as int], min_id)
    &&& forall|j: int, k: int| 0 <= j < k < picks.len() ==> (#[trigger] picks[j]) < (#[trigger] picks[k])
    &&& forall|i: int|
        0 <= i < entries.len() && taken(#[trigger] entries[i], min_id) ==> exists|k: int|
            0 <= k < picks.len() && (#[trigger] picks[k]) == i
}

/// The seed index in a file name.
pub fn get_afl_id(name: &Vec<u8>) -> (r: Option<usize>)
    ensures
        r is Some <==> afl_id_of(name@) is Some,
        r is Some ==> r.unwrap() == afl_id_of(name@).unwrap(),
        r is Some ==> r.unwrap() <= 999999,
{
    if name.len() < 9 {
        return None;
    }
    let tok = slice_to_vec(name, 3, 9);
    proof {
        lemma_six_digits(tok@);
    }
    match parse_u64(&tok) {
        Some(v) => Some(v as usize),
        None => None,
    }
}

proof fn lemma_six_digits(tok: Seq<u8>)
    requires
        tok.len() == 6,
    ensures
        number_of(tok) is Some ==> number_of(tok).unwrap() <= 999999,
{
    if number_of(tok) is Some {
        let t5 = tok.drop_last();
        let t4 = t5.drop_last();
        let t3 = t4.drop_last();
        let t2 = t3.drop_last();
        let t1 = t2.drop_last();
        let t0 = t1.drop_last();
        assert(t0.len() == 0);
        assert(crate::file::is_digit(tok[5]) && crate::file::is_digit(tok[4]) && crate::file::is_digit(tok[3])
            && crate::file::is_digit(tok[2]) && crate::file::is_digit(tok[1]) && crate::file::is_digit(tok[0]));
        assert(crate::file::dec_value(t0) == 0);
        assert(crate::file::dec_value(t1) <= 9);
        assert(crate::file::dec_value(t2) <= 99);
        assert(crate::file::dec_value(t3) <= 999);
        assert(crate::file::dec_value(t4) <= 9999);
        assert(crate::file::dec_value(t5) <= 99999);
    }
}

/// Whether a peer's directory is synced from.
pub fn wanted_peer_dir(name: &Vec<u8>) -> (r: bool)
    ensures
        r == peer_dir_wanted(name@),
{
    proof {
        reveal_strlit("angora");
        reveal_strlit(".");
    }
    let own = ascii_bytes("angora");
    let dot = ascii_bytes(".");
    !contains_bytes(name, &own) && !starts_with(name, &dot)
}

/// Whether an input of `len` bytes is short enough to be taken over.
pub fn fits_input_limit(len: u64) -> (r: bool)
    ensures
        r == (len < MAX_INPUT_LEN),
{
    len < MAX_INPUT_LEN as u64
}

/// Plans the pass over one peer directory that starts at seed `min_id`:
/// which entries are taken over, and the index the next pass starts at,
/// one past the largest index seen (or past `min_id`).
pub fn sync_one_afl_dir(entries: &Vec<PeerFile>, min_id: usize) -> (r: (Vec<usize>, usize))
    requires
        min_id < usize::MAX,
    ensures
        is_selection(r.0@, entries@, min_id as nat),
        r.1 == max_id_upto(entries@, min_id as nat, entries@.len() as int) + 1,
{
    let mut picks: Vec<usize> = Vec::new();
    let mut max_id: usize = min_id;
    let mut i: usize = 0;
    while i < entries.len()
        invariant
            i <= entries@.len(),
            max_id < usize::MAX,
            max_id == max_id_upto(entries@, min_id as nat, i as int),
            forall|k: int|
                0 <= k < picks@.len() ==> (#[trigger] picks@[k]) < i && taken(
                    entries@[picks@[k] as int],
                    min_id as nat,
                ),
            forall|j: int, k: int| 0 <= j < k < picks@.len() ==> (#[trigger] picks@[j]) < (#[trigger] picks@[k]),
            forall|n: int|
                0 <= n < i && taken(#[trigger] entries@[n], min_id as nat) ==> exists|k: int|
                    0 <= k < picks@.len() && (#[trigger] picks@[k]) == n,
        decreases entries@.len() - i,
    {
        let ghost prev = picks@;
        if entries[i].is_file {
            match get_afl_id(&entries[i].name) {
                Some(id) => {
                    if id >= min_id {
                        if fits_input_limit(entries[i].len) {
                            picks.push(i);
                            proof {
                                assert(picks@[prev.len() as int] == i);
                            }
                        }
                        if id > max_id {
                            max_id = id;
                        }
                    }
                },
                None => {},
            }
        }
        proof {
            assert forall|n: int| 0 <= n < i + 1 && taken(#[trigger] entries@[n], min_id as nat) implies exists|
                k: int,
            | 0 <= k < picks@.len() && (#[trigger] picks@[k]) == n by {
                if n < i {
                    let k = choose|k: int| 0 <= k < prev.len() && (#[trigger] prev[k]) == n;
                    assert(picks@[k] == prev[k]);
                } else {
                    assert(picks@[prev.len() as int] == i);
                }
            }
        }
        i += 1;
    }
    (picks, max_id + 1)
}

} // verus!

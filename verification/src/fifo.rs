//! The records the tracker streams to the solver: one line of eight numbers
//! per constraint, and a line of bytes after a record that announces inline
//! data.

use vstd::prelude::*;
use crate::file::{
    ascii_bytes, ascii_of, find_byte, index_from, number_up_to, parse_u64, slice_to_vec, trim, trimmed,
};

verus! {

/// A record: queue of the seed, label (or length of the inline data),
/// direction, address, context, ordinal, kind, and index of the seed.
pub type Record = (u32, u32, u64, u64, u64, u32, u32, u32);

/// Length of an inline payload as it is handed on.
pub const PAYLOAD_LEN: usize = 1024;

/// The kind of record that is followed by a line of inline data.
pub const KIND_INLINE_DATA: u32 = 2;

/// Offset at which field `k` of a comma-separated line starts; past the
/// end of the line where it has no such field.
pub open spec fn field_start(line: Seq<u8>, k: nat) -> int
    decreases k,
{
    if k == 0 {
        0
    } else {
        index_from(line, 44, field_start(line, (k - 1) as nat)) + 1
    }
}

/// Field `k` of a comma-separated line, without the white space around it.
pub open spec fn field(line: Seq<u8>, k: nat) -> Option<Seq<u8>> {
    let a = field_start(line, k);
    if a > line.len() {
        None
    } else {
        Some(trimmed(line.subrange(a, index_from(line, 44, a))))
    }
}

/// Field `k` read as a number of at most `max`.
pub open spec fn field_value(line: Seq<u8>, k: nat, max: nat) -> Option<nat> {
    match field(line, k) {
        Some(tok) => number_up_to(tok, max),
        None => None,
    }
}

/// The record a line spells: its first eight fields, each a number that
/// fits its place. Further fields are not looked at.
pub open spec fn record_of(line: Seq<u8>) -> Option<Record> {
    if field_value(line, 0, u32::MAX as nat) is Some && field_value(line, 1, u32::MAX as nat) is Some
        && field_value(line, 2, u64::MAX as nat) is Some && field_value(line, 3, u64::MAX as nat) is Some
        && field_value(line, 4, u64::MAX as nat) is Some && field_value(line, 5, u32::MAX as nat) is Some
        && field_value(line, 6, u32::MAX as nat) is Some && field_value(line, 7, u32::MAX as nat) is Some {
        Some(
            (
                field_value(line, 0, u32::MAX as nat).unwrap() as u32,
                field_value(line, 1, u32::MAX as nat).unwrap() as u32,
                field_value(line, 2, u64::MAX as nat).unwrap() as u64,
                field_value(line, 3, u64::MAX as nat).unwrap() as u64,
                field_value(line, 4, u64::MAX as nat).unwrap() as u64,
                field_value(line, 5, u32::MAX as nat).unwrap() as u32,
                field_value(line, 6, u32::MAX as nat).unwrap() as u32,
                field_value(line, 7, u32::MAX as nat).unwrap() as u32,
            ),
        )
    } else {
        None
    }
}

/// How many bytes of an inline payload of announced length `size` are read.
pub open spec fn payload_fields(size: u32) -> nat {
    if size > PAYLOAD_LEN {
        PAYLOAD_LEN as nat
    } else {
        size as nat
    }
}

/// The inline payload a line spells for an announced length of `size`: its
/// first `size` fields, at most 1024 of them, each a byte, followed by zeros
/// up to a length of 1024.
pub open spec fn payload_of(line: Seq<u8>, size: u32) -> Option<Seq<u8>> {
    if forall|k: nat| k < payload_fields(size) ==> (#[trigger] field_value(line, k, 255)) is Some {
        Some(
            Seq::new(
                PAYLOAD_LEN as nat,
                |i: int|
                    if 0 <= i < payload_fields(size) {
                        field_value(line, i as nat, 255).unwrap() as u8
                    } else {
                        0u8
                    },
            ),
        )
    } else {
        None
    }
}

/// The records and payloads that the lines from `i` on spell. A record of
/// the inline-data kind takes the line after it for its payload; where the
/// stream ends right after such a record, the record stands without one.
/// A line that spells no record, or no payload where one is due, spoils
/// the stream.
pub open spec fn parsed_from(lines: Seq<Vec<u8>>, i: int) -> Option<(Seq<Record>, Seq<Seq<u8>>)>
    decreases lines.len() - i,
{
    if i < 0 || i >= lines.len() {
        Some((Seq::empty(), Seq::empty()))
    } else {
        match record_of(lines[i]@) {
            None => None,
            Some(rec) => if rec.6 == KIND_INLINE_DATA {
                if i + 1 >= lines.len() {
                    Some((seq![rec], Seq::empty()))
                } else {
                    match payload_of(lines[i + 1]@, rec.1) {
                        None => None,
                        Some(data) => match parsed_from(lines, i + 2) {
                            None => None,
                            Some(rest) => Some((seq![rec] + rest.0, seq![data] + rest.1)),
                        },
                    }
                }
            } else {
                match parsed_from(lines, i + 1) {
                    None => None,
                    Some(rest) => Some((seq![rec] + rest.0, rest.1)),
                }
            },
        }
    }
}

/// The views of a list of payloads.
pub open spec fn payload_views(list: Seq<Vec<u8>>) -> Seq<Seq<u8>> {
    Seq::new(list.len(), |i: int| list[i]@)
}

/// The pipe executor `pipeid` reads from: `/tmp/wp3` for executor 3, else
/// `/tmp/wp2`.
pub fn pipe_path(pipeid: usize) -> (r: Vec<u8>)
    ensures
        r@ == if pipeid == 3 {
            ascii_of("/tmp/wp3"@)
        } else {
            ascii_of("/tmp/wp2"@)
        },
{
    proof {
        reveal_strlit("/tmp/wp3");
        reveal_strlit("/tmp/wp2");
    }
    if pipeid == 3 {
        ascii_bytes("/tmp/wp3")
    } else {
        ascii_bytes("/tmp/wp2")
    }
}

/// The field that starts at offset `start` of `line`, read as a number of
/// at most `max`, and the offset at which the field ends.
fn read_field(line: &Vec<u8>, start: usize, max: u64) -> (r: (Option<u64>, usize))
    requires
        start <= line@.len(),
    ensures
        r.1 == index_from(line@, 44, start as int),
        start <= r.1 <= line@.len(),
        r.0 == match number_up_to(
            trimmed(line@.subrange(start as int, index_from(line@, 44, start as int))),
            max as nat,
        ) {
            Some(v) => Some(v as u64),
            None => None::<u64>,
        },
{
    let end = find_byte(line, 44u8, start);
    let raw = slice_to_vec(line, start, end);
    let tok = trim(&raw);
    let value = match parse_u64(&tok) {
        Some(v) => {
            if v <= max {
                Some(v)
            } else {
                None
            }
        },
        None => None,
    };
    (value, end)
}

/// Reads field `k` of `line` as a number of at most `max`.
pub fn read_field_at(line: &Vec<u8>, k: usize, max: u64) -> (r: Option<u64>)
    ensures
        r == match field_value(line@, k as nat, max as nat) {
            Some(v) => Some(v as u64),
            None => None::<u64>,
        },
{
    let mut start: usize = 0;
    let mut j: usize = 0;
    while j < k
        invariant
            j <= k,
            start <= line@.len(),
            start == field_start(line@, j as nat),
        decreases k - j,
    {
        let end = find_byte(line, 44u8, start);
        if end >= line.len() {
            proof {
                lemma_no_more_fields(line@, (j + 1) as nat, k as nat);
            }
            return None;
        }
        start = end + 1;
        j += 1;
    }
    read_field(line, start, max).0
}

proof fn lemma_no_more_fields(line: Seq<u8>, j: nat, k: nat)
    requires
        j <= k,
        field_start(line, j) > line.len(),
    ensures
        field_start(line, k) > line.len(),
    decreases k - j,
{
    if j < k {
        assert(field_start(line, j + 1) == index_from(line, 44, field_start(line, j)) + 1);
        lemma_no_more_fields(line, j + 1, k);
    }
}

/// Reads a line as a record.
pub fn parse_record(line: &Vec<u8>) -> (r: Option<Record>)
    ensures
        r == record_of(line@),
{
    let tid = read_field_at(line, 0, 4294967295);
    let label = read_field_at(line, 1, 4294967295);
    let direction = read_field_at(line, 2, u64::MAX);
    let addr = read_field_at(line, 3, u64::MAX);
    let ctx = read_field_at(line, 4, u64::MAX);
    let order = read_field_at(line, 5, 4294967295);
    let isgep = read_field_at(line, 6, 4294967295);
    let inputid = read_field_at(line, 7, 4294967295);
    if tid.is_none() || label.is_none() || direction.is_none() || addr.is_none() || ctx.is_none()
        || order.is_none() || isgep.is_none() || inputid.is_none() {
        return None;
    }
    Some(
        (
            tid.unwrap() as u32,
            label.unwrap() as u32,
            direction.unwrap(),
            addr.unwrap(),
            ctx.unwrap(),
            order.unwrap() as u32,
            isgep.unwrap() as u32,
            inputid.unwrap() as u32,
        ),
    )
}

/// Reads a line as the inline payload of a record that announced `size`
/// bytes.
pub fn parse_payload(line: &Vec<u8>, size: u32) -> (r: Option<Vec<u8>>)
    ensures
        r is Some <==> payload_of(line@, size) is Some,
        r is Some ==> r.unwrap()@ == payload_of(line@, size).unwrap(),
{
    let wanted: usize = if size > 1024 {
        1024
    } else {
        size as usize
    };
    let mut data: Vec<u8> = Vec::new();
    let mut start: usize = 0;
    let mut more = true;
    let mut k: usize = 0;
    while k < wanted
        invariant
            k <= wanted,
            wanted == payload_fields(size),
            data@.len() == k,
            more ==> start <= line@.len() && start == field_start(line@, k as nat),
            !more ==> field_start(line@, k as nat) > line@.len(),
            forall|j: nat| j < k ==> (#[trigger] field_value(line@, j, 255)) is Some,
            forall|j: int| 0 <= j < k ==> data@[j] == field_value(line@, j as nat, 255).unwrap() as u8,
        decreases wanted - k,
    {
        if !more {
            proof {
                assert(field_value(line@, k as nat, 255) is None);
            }
            return None;
        }
        let (value, end) = read_field(line, start, 255);
        match value {
            None => {
                proof {
                    assert(field_value(line@, k as nat, 255) is None);
                }
                return None;
            },
            Some(v) => {
                data.push(v as u8);
            },
        }
        proof {
            assert(field_start(line@, (k + 1) as nat) == end + 1);
        }
        if end < line.len() {
            start = end + 1;
        } else {
            more = false;
        }
        k += 1;
    }
    while data.len() < 1024
        invariant
            wanted <= data@.len() <= 1024,
            wanted == payload_fields(size),
            forall|j: nat| j < wanted ==> (#[trigger] field_value(line@, j, 255)) is Some,
            forall|j: int| 0 <= j < wanted ==> data@[j] == field_value(line@, j as nat, 255).unwrap() as u8,
            forall|j: int| wanted <= j < data@.len() ==> data@[j] == 0,
        decreases 1024 - data@.len(),
    {
        data.push(0u8);
    }
    proof {
        assert(data@ =~= payload_of(line@, size).unwrap());
    }
    Some(data)
}

/// Reads the lines of the stream as records and payloads; `None` where a
/// line spoils the stream.
pub fn read_pipe(lines: &Vec<Vec<u8>>) -> (r: Option<(Vec<Record>, Vec<Vec<u8>>)>)
    ensures
        r is Some <==> parsed_from(lines@, 0) is Some,
        r is Some ==> r.unwrap().0@ == parsed_from(lines@, 0).unwrap().0 && payload_views(
            r.unwrap().1@,
        ) == parsed_from(lines@, 0).unwrap().1,
{
    let mut ret: Vec<Record> = Vec::new();
    let mut retdata: Vec<Vec<u8>> = Vec::new();
    let mut i: usize = 0;
    while i < lines.len()
        invariant
            i <= lines@.len(),
            parsed_from(lines@, 0) is Some <==> parsed_from(lines@, i as int) is Some,
            parsed_from(lines@, 0) is Some ==> parsed_from(lines@, 0).unwrap().0 == ret@ + parsed_from(
                lines@,
                i as int,
            ).unwrap().0 && parsed_from(lines@, 0).unwrap().1 == payload_views(retdata@) + parsed_from(
                lines@,
                i as int,
            ).unwrap().1,
        decreases lines@.len() - i,
    {
        let ghost before = ret@;
        let ghost before_data = payload_views(retdata@);
        let rec = match parse_record(&lines[i]) {
            None => {
                return None;
            },
            Some(rec) => rec,
        };
        ret.push(rec);
        if rec.6 == KIND_INLINE_DATA {
            if i + 1 >= lines.len() {
                proof {
                    assert(ret@ =~= before + seq![rec]);
                    assert(payload_views(retdata@) =~= before_data + Seq::<Seq<u8>>::empty());
                }
                return Some((ret, retdata));
            }
            match parse_payload(&lines[i + 1], rec.1) {
                None => {
                    return None;
                },
                Some(data) => {
                    retdata.push(data);
                    proof {
                        if parsed_from(lines@, i + 2) is Some {
                            let rest = parsed_from(lines@, i + 2).unwrap();
                            assert(before + (seq![rec] + rest.0) =~= ret@ + rest.0);
                            assert(before_data + (seq![data@] + rest.1) =~= payload_views(retdata@)
                                + rest.1);
                        }
                    }
                },
            }
            i += 2;
        } else {
            proof {
                if parsed_from(lines@, i + 1) is Some {
                    let rest = parsed_from(lines@, i + 1).unwrap();
                    assert(before + (seq![rec] + rest.0) =~= ret@ + rest.0);
                }
            }
            i += 1;
        }
    }
    proof {
        assert(ret@ + Seq::<Record>::empty() =~= ret@);
        assert(payload_views(retdata@) + Seq::<Seq<u8>>::empty() =~= payload_views(retdata@));
    }
    Some((ret, retdata))
}

} // verus!

//! The target's side of the fork-server exchange.

use vstd::prelude::*;
use byteorder::{LittleEndian, WriteBytesExt};
use crate::file::{all_digits, dec_value, parse_u64, slice_to_vec};
use crate::forksrv::{le_i32, reply_value};

verus! {

/// `WriteBytesExt::write_i32::<LittleEndian>` into an empty vector: the
/// four bytes that spell the number, least significant first.
#[verifier::external_body]
fn write_i32_le(v: i32) -> (r: Vec<u8>)
    ensures
        r@.len() == 4,
        le_i32(r@) == v,
{
    let mut buf = vec![];
    let _ = buf.write_i32::<LittleEndian>(v);
    buf
}

/// The reply that carries `v`, a process id or a wait status.
pub fn encode_reply(v: i32) -> (r: Vec<u8>)
    ensures
        r@.len() == 4,
        reply_value(r@) == Some(v),
{
    write_i32_le(v)
}

/// What the target does next.
#[derive(Debug, Clone, Copy, PartialEq, Eq, Structural)]
pub enum ClientAction {
    /// Go on as the child and run the program.
    RunAsChild,
    /// Send the child's process id, then wait for the child.
    ReportPid(i32),
    /// Leave with this exit code.
    Exit(i32),
}

/// What the fork server in the target does after a fork that gave
/// `child_pid`: the child (0) goes on to run the program, the parent
/// reports the process id.
pub fn after_fork(child_pid: i32) -> (r: ClientAction)
    ensures
        r == if child_pid == 0 {
            ClientAction::RunAsChild
        } else {
            ClientAction::ReportPid(child_pid)
        },
{
    if child_pid == 0 {
        ClientAction::RunAsChild
    } else {
        ClientAction::ReportPid(child_pid)
    }
}

/// The exit code the fork server leaves with when its channel fails:
/// 0 where the request could not be read (the driver is gone), 1 where a
/// reply could not be written or the child could not be waited for.
pub fn exit_code_on_failure(reading_request: bool) -> (r: i32)
    ensures
        r == if reading_request {
            0i32
        } else {
            1i32
        },
{
    if reading_request {
        0
    } else {
        1
    }
}

/// The segment identifier that `text` spells: decimal digits, after a `-`
/// for a negative number, within the range of `i32`.
pub open spec fn shm_id_of(text: Seq<u8>) -> Option<i32> {
    if text.len() > 0 && text[0] == 45 {
        let d = text.subrange(1, text.len() as int);
        if d.len() > 0 && all_digits(d) && dec_value(d) <= 2147483648 {
            Some((0 - dec_value(d)) as i32)
        } else {
            None
        }
    } else if text.len() > 0 && all_digits(text) && dec_value(text) <= 2147483647 {
        Some(dec_value(text) as i32)
    } else {
        None
    }
}

/// Reads a segment identifier from the text of an environment variable.
pub fn parse_shm_id(text: &Vec<u8>) -> (r: Option<i32>)
    ensures
        r == shm_id_of(text@),
{
    if text.len() > 0 && text[0] == 45u8 {
        let d = slice_to_vec(text, 1, text.len());
        match parse_u64(&d) {
            Some(v) => {
                if v <= 2147483648 {
                    Some((0 - v as i64) as i32)
                } else {
                    None
                }
            },
            None => None,
        }
    } else {
        match parse_u64(text) {
            Some(v) => {
                if v <= 2147483647 {
                    Some(v as i32)
                } else {
                    None
                }
            },
            None => None,
        }
    }
}

/// What the driver reads back from a reply is the number the target put
/// into it.
pub proof fn lemma_reply_round_trip(bytes: Seq<u8>, v: i32)
    requires
        bytes.len() == 4,
        le_i32(bytes) == v,
    ensures
        reply_value(bytes) == Some(v),
{
}

} // verus!

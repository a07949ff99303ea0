//! The fork-server exchange: what is sent, how the replies are read, and how
//! an execution is classified from them.

use vstd::prelude::*;
use byteorder::{LittleEndian, ReadBytesExt};
use crate::config::MSAN_ERROR_CODE;
use crate::file::{ascii_bytes, ascii_of, copy_bytes};
use crate::status_type::StatusType;

verus! {

/// The 32-bit signed integer that four bytes spell, least significant
/// first.
pub open spec fn le_i32(b: Seq<u8>) -> int {
    let u = b[0] as int + 256 * (b[1] as int) + 65536 * (b[2] as int) + 16777216 * (b[3] as int);
    if u >= 2147483648 {
        u - 4294967296
    } else {
        u
    }
}

/// The number a reply of the fork server carries: its first four bytes read
/// as [`le_i32`]; `None` where it is shorter than that.
pub open spec fn reply_value(reply: Seq<u8>) -> Option<i32> {
    if reply.len() >= 4 {
        Some(le_i32(reply) as i32)
    } else {
        None
    }
}

/// The signal number field of a wait status.
pub open spec fn term_signal(status: i32) -> i32 {
    status & 0x7f
}

/// Whether a wait status says the child was killed by a signal.
pub open spec fn signaled(status: i32) -> bool {
    1 <= term_signal(status) <= 126
}

/// The exit code field of a wait status.
pub open spec fn exit_code(status: i32) -> i32 {
    (status >> 8) & 0xff
}

/// How an execution with wait status `status` ended: a crash where a signal
/// killed it or, for a sanitizer build, where it left with the sanitizer's
/// exit code; normal otherwise.
pub open spec fn status_class(status: i32, uses_asan: bool) -> StatusType {
    if signaled(status) || (uses_asan && exit_code(status) == MSAN_ERROR_CODE) {
        StatusType::Crash
    } else {
        StatusType::Normal
    }
}

/// How an execution that was waited for directly ended. `waited` is `None`
/// where the time limit passed first, else the exit code, itself `None`
/// where a signal ended the process.
pub open spec fn exit_class(waited: Option<Option<i32>>, uses_asan: bool) -> StatusType {
    match waited {
        None => StatusType::Timeout,
        Some(None) => StatusType::Crash,
        Some(Some(code)) => if uses_asan && code == MSAN_ERROR_CODE {
            StatusType::Crash
        } else {
            StatusType::Normal
        },
    }
}

/// `ReadBytesExt::read_i32::<LittleEndian>` on a byte slice: the first four
/// bytes as a little-endian integer, or nothing where there are fewer.
#[verifier::external_body]
fn read_i32_le(buf: &Vec<u8>) -> (r: Option<i32>)
    ensures
        r == reply_value(buf@),
{
    (&buf[..]).read_i32::<LittleEndian>().ok()
}

/// `libc::WIFSIGNALED`: whether the low seven bits of the status, the
/// signal field, are neither 0 nor 127.
#[verifier::external_body]
fn wifsignaled(status: i32) -> (r: bool)
    ensures
        r == signaled(status),
{
    libc::WIFSIGNALED(status)
}

/// `libc::WEXITSTATUS`: bits 8 to 15 of the status.
#[verifier::external_body]
fn wexitstatus(status: i32) -> (r: i32)
    ensures
        r == exit_code(status),
{
    libc::WEXITSTATUS(status)
}

/// The four bytes that ask the fork server for a new child.
pub fn new_child_request() -> (r: Vec<u8>)
    ensures
        r@ == seq![8u8, 8u8, 8u8, 8u8],
{
    let mut r: Vec<u8> = Vec::new();
    r.push(8u8);
    r.push(8u8);
    r.push(8u8);
    r.push(8u8);
    proof {
        assert(r@ =~= seq![8u8, 8u8, 8u8, 8u8]);
    }
    r
}

/// The two bytes that tell the fork server to leave.
pub fn fin_request() -> (r: Vec<u8>)
    ensures
        r@ == seq![0u8, 0u8],
{
    let mut r: Vec<u8> = Vec::new();
    r.push(0u8);
    r.push(0u8);
    proof {
        assert(r@ =~= seq![0u8, 0u8]);
    }
    r
}

/// Reads the number a reply carries.
pub fn decode_reply(reply: &Vec<u8>) -> (r: Option<i32>)
    ensures
        r == reply_value(reply@),
{
    read_i32_le(reply)
}

/// Classifies a wait status.
pub fn classify_wait_status(status: i32, uses_asan: bool) -> (r: StatusType)
    ensures
        r == status_class(status, uses_asan),
        r == StatusType::Crash || r == StatusType::Normal,
{
    let code = wexitstatus(status);
    let killed = wifsignaled(status);
    if killed || (uses_asan && code == MSAN_ERROR_CODE) {
        StatusType::Crash
    } else {
        StatusType::Normal
    }
}

/// Classifies an execution that was waited for directly.
pub fn classify_exit(waited: Option<Option<i32>>, uses_asan: bool) -> (r: StatusType)
    ensures
        r == exit_class(waited, uses_asan),
        waited is None <==> r == StatusType::Timeout,
{
    match waited {
        None => StatusType::Timeout,
        Some(None) => StatusType::Crash,
        Some(Some(code)) => {
            if uses_asan && code == MSAN_ERROR_CODE {
                StatusType::Crash
            } else {
                StatusType::Normal
            }
        },
    }
}

/// Where one exchange with the fork server stands.
#[derive(Debug, Clone, Copy, PartialEq, Eq, Structural)]
pub enum Stage {
    /// The request is to be sent.
    Ready,
    /// The request went out; its outcome is awaited.
    Sending,
    /// The child's process id is awaited.
    AwaitPid,
    /// The wait status of the child with this process id is awaited.
    AwaitStatus(i32),
    /// The exchange is over.
    Finished,
}

/// What the caller is to do next.
#[derive(Debug, Clone, Copy, PartialEq, Eq, Structural)]
pub enum Action {
    /// Write [`new_child_request`] to the socket and report whether it
    /// went through.
    SendRequest,
    /// Read a reply from the socket and report the bytes read, or that the
    /// read failed, or that its time limit passed.
    Receive,
    /// Kill the child with this process id, drain the socket, and take the
    /// execution as timed out.
    KillAndDrain(i32),
    /// The execution ended with this status.
    Done(StatusType),
}

/// What happened since the last action.
pub enum Event {
    /// A new execution is asked for.
    Begin,
    /// The request was written (`true`) or the write failed (`false`).
    Sent(bool),
    /// A read gave these bytes.
    Reply(Vec<u8>),
    /// A read failed, for another reason than its time limit.
    ReadFailed,
    /// The time limit of a read passed.
    ReadTimedOut,
}

/// An event as the transition sees it.
pub enum EventView {
    /// A new execution is asked for.
    Begin,
    /// The request was written, or the write failed.
    Sent(bool),
    /// A read gave these bytes.
    Reply(Seq<u8>),
    /// A read failed, for another reason than its time limit.
    ReadFailed,
    /// The time limit of a read passed.
    ReadTimedOut,
}

/// The transition of the exchange: from a stage and what happened to the
/// next stage and what to do.
///
/// The execution is a `Timeout`, with the child to be killed, exactly
/// where the time limit passes while the wait status is read. A reply
/// with a wait status ends it as [`status_class`] says. Everything else
/// that is no step forward ends it with `Error`: a failed write, a failed
/// read, a time limit that passes while the process id is read, a reply
/// too short to hold a number, a process id that is not positive, and an
/// event that the stage does not await.
pub open spec fn next_step(stage: Stage, event: EventView, uses_asan: bool) -> (Stage, Action) {
    match (stage, event) {
        (Stage::Ready, EventView::Begin) => (Stage::Sending, Action::SendRequest),
        (Stage::Sending, EventView::Sent(true)) => (Stage::AwaitPid, Action::Receive),
        (Stage::AwaitPid, EventView::Reply(reply)) => match reply_value(reply) {
            Some(pid) => if pid > 0 {
                (Stage::AwaitStatus(pid), Action::Receive)
            } else {
                (Stage::Finished, Action::Done(StatusType::Error))
            },
            None => (Stage::Finished, Action::Done(StatusType::Error)),
        },
        (Stage::AwaitStatus(pid), EventView::Reply(reply)) => match reply_value(reply) {
            Some(status) => (Stage::Finished, Action::Done(status_class(status, uses_asan))),
            None => (Stage::Finished, Action::Done(StatusType::Error)),
        },
        (Stage::AwaitStatus(pid), EventView::ReadTimedOut) => (Stage::Finished, Action::KillAndDrain(pid)),
        _ => (Stage::Finished, Action::Done(StatusType::Error)),
    }
}

/// An event as the transition sees it.
pub open spec fn view_of(event: Event) -> EventView {
    match event {
        Event::Begin => EventView::Begin,
        Event::Sent(ok) => EventView::Sent(ok),
        Event::Reply(bytes) => EventView::Reply(bytes@),
        Event::ReadFailed => EventView::ReadFailed,
        Event::ReadTimedOut => EventView::ReadTimedOut,
    }
}

/// The status an action ends the execution with, if it ends it.
pub open spec fn verdict(action: Action) -> Option<StatusType> {
    match action {
        Action::KillAndDrain(_) => Some(StatusType::Timeout),
        Action::Done(status) => Some(status),
        _ => None,
    }
}

/// One exchange with the fork server, driven by its caller.
pub struct Forksrv {
    path: Vec<u8>,
    uses_asan: bool,
    stage: Stage,
}

impl Forksrv {
    /// Where the exchange stands.
    pub closed spec fn stage(&self) -> Stage {
        self.stage
    }

    /// Whether the target is a sanitizer build.
    pub closed spec fn uses_asan(&self) -> bool {
        self.uses_asan
    }

    /// The path of the socket.
    pub closed spec fn socket_path(&self) -> Seq<u8> {
        self.path@
    }

    /// A session over the socket at `socket_path`, before its first
    /// exchange.
    pub fn new(socket_path: Vec<u8>, uses_asan: bool) -> (r: Self)
        ensures
            r.stage() == Stage::Ready,
            r.uses_asan() == uses_asan,
            r.socket_path() == socket_path@,
    {
        Forksrv { path: socket_path, uses_asan, stage: Stage::Ready }
    }

    /// What is added to the target's environment to make it a fork server:
    /// the switch, and the path of the socket to connect to.
    pub fn envs(&self) -> (r: Vec<(Vec<u8>, Vec<u8>)>)
        ensures
            r@.len() == 2,
            r@[0].0@ == ascii_of("ANGORA_ENABLE_FORKSRV"@),
            r@[0].1@ == ascii_of("TRUE"@),
            r@[1].0@ == ascii_of("ANGORA_FORKSRV_SOCKET_PATH"@),
            r@[1].1@ == self.socket_path(),
    {
        proof {
            reveal_strlit("ANGORA_ENABLE_FORKSRV");
            reveal_strlit("TRUE");
            reveal_strlit("ANGORA_FORKSRV_SOCKET_PATH");
        }
        let mut r: Vec<(Vec<u8>, Vec<u8>)> = Vec::new();
        r.push((ascii_bytes("ANGORA_ENABLE_FORKSRV"), ascii_bytes("TRUE")));
        r.push((ascii_bytes("ANGORA_FORKSRV_SOCKET_PATH"), copy_bytes(&self.path)));
        r
    }

    /// Takes the exchange one step on. After an action that ends the
    /// execution the session is ready for the next exchange.
    pub fn run(&mut self, event: Event) -> (action: Action)
        ensures
            action == next_step(old(self).stage(), view_of(event), old(self).uses_asan()).1,
            final(self).stage() == if verdict(action) is Some {
                Stage::Ready
            } else {
                next_step(old(self).stage(), view_of(event), old(self).uses_asan()).0
            },
            final(self).uses_asan() == old(self).uses_asan(),
            final(self).socket_path() == old(self).socket_path(),
    {
        let (stage, action) = match self.stage {
            Stage::Ready => match event {
                Event::Begin => (Stage::Sending, Action::SendRequest),
                _ => (Stage::Finished, Action::Done(StatusType::Error)),
            },
            Stage::Sending => match event {
                Event::Sent(true) => (Stage::AwaitPid, Action::Receive),
                _ => (Stage::Finished, Action::Done(StatusType::Error)),
            },
            Stage::AwaitPid => match event {
                Event::Reply(reply) => match decode_reply(&reply) {
                    Some(pid) => {
                        if pid > 0 {
                            (Stage::AwaitStatus(pid), Action::Receive)
                        } else {
                            (Stage::Finished, Action::Done(StatusType::Error))
                        }
                    },
                    None => (Stage::Finished, Action::Done(StatusType::Error)),
                },
                _ => (Stage::Finished, Action::Done(StatusType::Error)),
            },
            Stage::AwaitStatus(pid) => match event {
                Event::Reply(reply) => match decode_reply(&reply) {
                    Some(status) => (
                        Stage::Finished,
                        Action::Done(classify_wait_status(status, self.uses_asan)),
                    ),
                    None => (Stage::Finished, Action::Done(StatusType::Error)),
                },
                Event::ReadTimedOut => (Stage::Finished, Action::KillAndDrain(pid)),
                _ => (Stage::Finished, Action::Done(StatusType::Error)),
            },
            Stage::Finished => (Stage::Finished, Action::Done(StatusType::Error)),
        };
        self.stage = match action {
            Action::KillAndDrain(_) => Stage::Ready,
            Action::Done(_) => Stage::Ready,
            _ => stage,
        };
        action
    }
}

/// A wait status whose read timed out is a timeout whatever the child
/// would have reported: the verdict of that step is `Timeout`, never
/// `Crash`.
pub proof fn lemma_expired_read_is_timeout(pid: i32, uses_asan: bool)
    ensures
        verdict(next_step(Stage::AwaitStatus(pid), EventView::ReadTimedOut, uses_asan).1) == Some(
            StatusType::Timeout,
        ),
{
}

/// A step ends the execution as a `Timeout` only where the time limit
/// passes while the wait status is read, and never as `Skip`. A failed
/// write and a failed read end it with `Error` at every stage.
pub proof fn lemma_verdicts_of_the_exchange(stage: Stage, event: EventView, uses_asan: bool)
    ensures
        verdict(next_step(stage, event, uses_asan).1) == Some(StatusType::Timeout) <==> (stage is AwaitStatus
            && event is ReadTimedOut),
        verdict(next_step(stage, event, uses_asan).1) != Some(StatusType::Skip),
        event is ReadFailed || event == EventView::Sent(false) ==> verdict(
            next_step(stage, event, uses_asan).1,
        ) == Some(StatusType::Error),
{
}

} // verus!

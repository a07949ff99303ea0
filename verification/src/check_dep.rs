//! Checks made before fuzzing starts, on what was read from the system.

use vstd::prelude::*;
use crate::file::{ascii_bytes, ascii_of, contains, occurs_at, same_bytes};

verus! {

/// Why fuzzing cannot start.
#[derive(Debug, Clone, Copy, PartialEq, Eq, Structural)]
pub enum DepError {
    /// Resuming was asked for, but the output directory does not exist.
    NoOutputToResume,
    /// The input directory does not exist or is no directory.
    BadInputDir,
    /// The kernel hands core dumps to a program, which delays the report of
    /// a crash past the time limit.
    PipedCorePattern,
    /// The target does not exist or is no file.
    BadTarget,
    /// The target was not built with the instrumentation asked for.
    NotInstrumented,
}

/// `-`, the input directory that asks to resume.
pub open spec fn resume_token() -> Seq<u8> {
    seq![45u8]
}

/// Whether the input and output directories allow a start.
pub open spec fn io_dir_verdict(in_dir: Seq<u8>, out_exists: bool, in_exists: bool, in_is_dir: bool) -> Option<
    DepError,
> {
    if in_dir == resume_token() {
        if out_exists {
            None
        } else {
            Some(DepError::NoOutputToResume)
        }
    } else if in_exists && in_is_dir {
        None
    } else {
        Some(DepError::BadInputDir)
    }
}

/// Whether the kernel's core pattern starts with `|`.
pub open spec fn core_pattern_piped(pattern: Seq<u8>) -> bool {
    pattern.len() > 0 && pattern[0] == 124
}

/// Whether the tracking target can be used.
pub open spec fn track_verdict(exists: bool, is_file: bool, data: Seq<u8>) -> Option<DepError> {
    if !(exists && is_file) {
        Some(DepError::BadTarget)
    } else if !contains(data, ascii_of("__taint_trace_cmp"@)) {
        Some(DepError::NotInstrumented)
    } else {
        None
    }
}

/// The first of the checks that fails, in the order: directories, core
/// pattern, tracking target.
pub open spec fn dep_verdict(
    in_dir: Seq<u8>,
    out_exists: bool,
    in_exists: bool,
    in_is_dir: bool,
    core_pattern: Seq<u8>,
    track_exists: bool,
    track_is_file: bool,
    track_data: Seq<u8>,
) -> Option<DepError> {
    if io_dir_verdict(in_dir, out_exists, in_exists, in_is_dir) is Some {
        io_dir_verdict(in_dir, out_exists, in_exists, in_is_dir)
    } else if core_pattern_piped(core_pattern) {
        Some(DepError::PipedCorePattern)
    } else {
        track_verdict(track_exists, track_is_file, track_data)
    }
}

/// `twoway::find_bytes`: the offset of the first occurrence of `pattern`
/// in `text`, or nothing where it does not occur.
#[verifier::external_body]
fn find_bytes(text: &Vec<u8>, pattern: &Vec<u8>) -> (r: Option<usize>)
    ensures
        r is Some ==> occurs_at(text@, pattern@, r.unwrap() as int) && forall|j: int|
            0 <= j < r.unwrap() ==> !occurs_at(text@, pattern@, j),
        r is None ==> forall|j: int| !occurs_at(text@, pattern@, j),
{
    twoway::find_bytes(&text[..], &pattern[..])
}

/// Whether the ASCII string `s` occurs in `data`.
pub fn containt_string(data: &Vec<u8>, s: &str) -> (r: bool)
    requires
        s.is_ascii(),
    ensures
        r == contains(data@, ascii_of(s@)),
{
    let pattern = ascii_bytes(s);
    find_bytes(data, &pattern).is_some()
}

/// Whether a path that `exists` and `is_file` can be a target.
pub fn check_target_binary(exists: bool, is_file: bool) -> (r: bool)
    ensures
        r == (exists && is_file),
{
    exists && is_file
}

/// Whether the binary `data` was built with a sanitizer: it names the
/// address sanitizer's library or the memory sanitizer's start-up routine.
pub fn check_asan(data: &Vec<u8>) -> (r: bool)
    ensures
        r == (contains(data@, ascii_of("libasan.so"@)) || contains(data@, ascii_of("__msan_init"@))),
{
    proof {
        reveal_strlit("libasan.so");
        reveal_strlit("__msan_init");
    }
    containt_string(data, "libasan.so") || containt_string(data, "__msan_init")
}

/// Whether the fast target can be used: it is a file that carries the
/// marker of the fast instrumentation.
pub fn check_fast(exists: bool, is_file: bool, data: &Vec<u8>) -> (r: Option<DepError>)
    ensures
        r == if !(exists && is_file) {
            Some(DepError::BadTarget)
        } else if !contains(data@, ascii_of("__angora_cond_cmpid"@)) {
            Some(DepError::NotInstrumented)
        } else {
            None
        },
{
    proof {
        reveal_strlit("__angora_cond_cmpid");
    }
    if !check_target_binary(exists, is_file) {
        Some(DepError::BadTarget)
    } else if !containt_string(data, "__angora_cond_cmpid") {
        Some(DepError::NotInstrumented)
    } else {
        None
    }
}

/// Whether the tracking target can be used: it is a file that carries the
/// marker of the taint instrumentation.
pub fn check_track_llvm(exists: bool, is_file: bool, data: &Vec<u8>) -> (r: Option<DepError>)
    ensures
        r == track_verdict(exists, is_file, data@),
{
    proof {
        reveal_strlit("__taint_trace_cmp");
    }
    if !check_target_binary(exists, is_file) {
        Some(DepError::BadTarget)
    } else if !containt_string(data, "__taint_trace_cmp") {
        Some(DepError::NotInstrumented)
    } else {
        None
    }
}

/// Whether the directories allow a start: to resume (`-` for an input
/// directory) the output directory must exist, else the input directory
/// must be one.
pub fn check_io_dir(in_dir: &Vec<u8>, out_exists: bool, in_exists: bool, in_is_dir: bool) -> (r: Option<DepError>)
    ensures
        r == io_dir_verdict(in_dir@, out_exists, in_exists, in_is_dir),
{
    let mut dash: Vec<u8> = Vec::new();
    dash.push(45u8);
    proof {
        assert(dash@ =~= resume_token());
    }
    if same_bytes(in_dir, &dash) {
        if out_exists {
            None
        } else {
            Some(DepError::NoOutputToResume)
        }
    } else if in_exists && in_is_dir {
        None
    } else {
        Some(DepError::BadInputDir)
    }
}

/// Whether crashes are reported at once: the kernel's core pattern must
/// not start with `|`.
pub fn check_crash_handling(core_pattern: &Vec<u8>) -> (ok: bool)
    ensures
        ok == !core_pattern_piped(core_pattern@),
{
    !(core_pattern.len() > 0 && core_pattern[0] == 124u8)
}

/// Runs the checks in order and gives the first failure, if any.
pub fn check_dep(
    in_dir: &Vec<u8>,
    out_exists: bool,
    in_exists: bool,
    in_is_dir: bool,
    core_pattern: &Vec<u8>,
    track_exists: bool,
    track_is_file: bool,
    track_data: &Vec<u8>,
) -> (r: Result<(), DepError>)
    ensures
        r is Ok <==> dep_verdict(
            in_dir@,
            out_exists,
            in_exists,
            in_is_dir,
            core_pattern@,
            track_exists,
            track_is_file,
            track_data@,
        ) is None,
        r is Err ==> Some(r->Err_0) == dep_verdict(
            in_dir@,
            out_exists,
            in_exists,
            in_is_dir,
            core_pattern@,
            track_exists,
            track_is_file,
            track_data@,
        ),
{
    match check_io_dir(in_dir, out_exists, in_exists, in_is_dir) {
        Some(e) => {
            return Err(e);
        },
        None => {},
    }
    if !check_crash_handling(core_pattern) {
        return Err(DepError::PipedCorePattern);
    }
    match check_track_llvm(track_exists, track_is_file, track_data) {
        Some(e) => Err(e),
        None => Ok(()),
    }
}

} // verus!

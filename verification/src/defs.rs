//! Names of the environment variables and directories the driver shares
//! with the targets and its peers.

use vstd::prelude::*;

verus! {

/// Switches CPU binding off.
pub const DISABLE_CPU_BINDING_VAR: &'static str = "ANGORA_DISABLE_CPU_BINDING";

/// Carries the identifier of the branch-trace segment to the target.
pub const BRANCHES_SHM_ENV_VAR: &'static str = "ANGORA_BRANCHES_SHM_ID";

/// Carries the identifier of the path-hash segment to the target.
pub const PATH_HASH_SHM_ENV_VAR: &'static str = "PATH_HASH_SHM_ID";

/// The library search path.
pub const LD_LIBRARY_PATH_VAR: &'static str = "LD_LIBRARY_PATH";

/// Options of the address sanitizer.
pub const ASAN_OPTIONS_VAR: &'static str = "ASAN_OPTIONS";

/// Options of the memory sanitizer.
pub const MSAN_OPTIONS_VAR: &'static str = "MSAN_OPTIONS";

/// What the address sanitizer is run with.
pub const ASAN_OPTIONS_CONTENT: &'static str =
    "abort_on_error=1:detect_leaks=0:symbolize=0:allocator_may_return_null=1";

/// What the memory sanitizer is run with.
pub const MSAN_OPTIONS_CONTENT: &'static str =
    "exit_code=86:symbolize=0:abort_on_error=1:allocator_may_return_null=1:msan_track_origins=0";

/// Directory of crashing inputs.
pub const CRASHES_DIR: &'static str = "crashes";

/// Directory of inputs that timed out.
pub const HANGS_DIR: &'static str = "hangs";

/// Directory of inputs that ended normally.
pub const INPUTS_DIR: &'static str = "queue";

/// Tells the target to run as a fork server.
pub const ENABLE_FORKSRV: &'static str = "ANGORA_ENABLE_FORKSRV";

/// Carries the path of the fork server's socket to the target.
pub const FORKSRV_SOCKET_PATH_VAR: &'static str = "ANGORA_FORKSRV_SOCKET_PATH";

/// Name that marks the driver's own directory among its peers'.
pub const ANGORA_DIR_NAME: &'static str = "angora";

/// Keeps scratch files out of the memory file system.
pub const PERSIST_TRACK_FILES: &'static str = "ANGORA_DISABLE_TMPFS";

/// Carries the tracker's options.
pub const TAINT_OPTIONS: &'static str = "TAINT_OPTIONS";

} // verus!

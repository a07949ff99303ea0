//! Set-up of a fuzzing session.

use vstd::prelude::*;
use crate::file::copy_bytes;

verus! {

/// The seed directory and the output directory of a session, from the two
/// command-line arguments.
pub fn initialize_directories_sync(in_dir: &Vec<u8>, out_dir: &Vec<u8>) -> (r: (Vec<u8>, Vec<u8>))
    ensures
        r.0@ == in_dir@,
        r.1@ == out_dir@,
{
    let angora_out_dir = copy_bytes(out_dir);
    let seeds_dir = copy_bytes(in_dir);
    (seeds_dir, angora_out_dir)
}

} // verus!

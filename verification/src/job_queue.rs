//! Identity of a saved input in the driver's own queue.

use vstd::prelude::*;

verus! {

/// A saved input, named by its index.
#[derive(Eq, PartialEq, Clone, Copy, Debug, Hash, Structural)]
pub struct SeedFilePath {
    /// Index of the input in the output queue.
    pub file_id: usize,
}

} // verus!

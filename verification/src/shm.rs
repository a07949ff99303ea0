//! The driver's side of a fixed-size System V shared-memory segment: how the
//! segment is known, and the payload as the driver last saw or set it.

use vstd::prelude::*;

verus! {

/// The address that a failed attach reports: all bits set.
pub const ATTACH_FAILED: isize = -1;

/// A segment with a payload of type `T`.
pub struct SHM<T> {
    /// Identifier of the segment, handed to child processes.
    pub id: i32,
    /// Size of the payload in bytes.
    pub size: usize,
    /// Address the segment is attached at, or [`ATTACH_FAILED`].
    pub ptr: isize,
    /// The payload.
    pub value: T,
}

impl<T> SHM<T> {
    /// A segment created with identifier `id` for a payload of `size`
    /// bytes, attached at `ptr` and holding `value`.
    pub fn new(id: i32, size: usize, ptr: isize, value: T) -> (r: Self)
        ensures
            r.id == id,
            r.size == size,
            r.ptr == ptr,
            r.value == value,
    {
        SHM { id, size, ptr, value }
    }

    /// An existing segment `id` after an attach that gave `ptr` and showed
    /// `value`.
    pub fn from_id(id: i32, size: usize, ptr: isize, value: T) -> (r: Self)
        ensures
            r.id == id,
            r.size == size,
            r.ptr == ptr,
            r.value == value,
    {
        SHM { id, size, ptr, value }
    }

    /// Identifier of the segment.
    pub fn get_id(&self) -> (r: i32)
        ensures
            r == self.id,
    {
        self.id
    }

    /// Address the segment is attached at.
    pub fn get_ptr(&self) -> (r: isize)
        ensures
            r == self.ptr,
    {
        self.ptr
    }

    /// Whether the attach failed.
    pub fn is_fail(&self) -> (r: bool)
        ensures
            r == (self.ptr == -1),
    {
        -1 == self.ptr
    }

    /// The payload, to read.
    pub fn deref(&self) -> (r: &T)
        ensures
            *r == self.value,
    {
        &self.value
    }

    /// The payload, to change. Nothing else changes.
    pub fn deref_mut(&mut self) -> (r: &mut T)
        ensures
            *r == old(self).value,
            final(self).value == *final(r),
            final(self).id == old(self).id,
            final(self).size == old(self).size,
            final(self).ptr == old(self).ptr,
    {
        &mut self.value
    }
}

impl SHM<u8> {
    /// Zeroes the payload.
    pub fn clear(&mut self)
        ensures
            final(self).value == 0,
            final(self).id == old(self).id,
            final(self).size == old(self).size,
            final(self).ptr == old(self).ptr,
    {
        self.value = 0;
    }
}

impl SHM<u64> {
    /// Zeroes the payload.
    pub fn clear(&mut self)
        ensures
            final(self).value == 0,
            final(self).id == old(self).id,
            final(self).size == old(self).size,
            final(self).ptr == old(self).ptr,
    {
        self.value = 0;
    }
}

impl SHM<Vec<u8>> {
    /// Zeroes the payload; its length stays.
    pub fn clear(&mut self)
        ensures
            final(self).value@.len() == old(self).value@.len(),
            forall|i: int| 0 <= i < final(self).value@.len() ==> final(self).value@[i] == 0,
            final(self).id == old(self).id,
            final(self).size == old(self).size,
            final(self).ptr == old(self).ptr,
    {
        let n = self.value.len();
        let mut i: usize = 0;
        while i < n
            invariant
                n == self.value@.len(),
                i <= n,
                forall|k: int| 0 <= k < i ==> self.value@[k] == 0,
                self.id == old(self).id,
                self.size == old(self).size,
                self.ptr == old(self).ptr,
            decreases n - i,
        {
            self.value.set(i, 0u8);
            i += 1;
        }
    }
}

} // verus!

//! Zero-copy buffer handles: reference-counted descriptors for one packet's
//! backing memory. A handle moves from receive queue to pipeline to transmit
//! queue and is never copied; its memory is released when the handle is
//! dropped with a reference count of zero survivors.

use vstd::prelude::*;

verus! {

/// Descriptor for one packet's backing memory, with a reference count.
///
/// Mutating the packet in place is only allowed while the count is exactly
/// one: a count above one would mean the same memory is visible elsewhere.
pub struct BufferHandle {
    data: Vec<u8>,
    refcnt: u32,
}

impl View for BufferHandle {
    type V = Seq<u8>;

    closed spec fn view(&self) -> Seq<u8> {
        self.data@
    }
}

impl BufferHandle {
    /// The reference count of this handle.
    pub closed spec fn rc(self) -> u32 {
        self.refcnt
    }

    /// A freshly allocated buffer is exclusively owned.
    pub fn from_bytes(data: Vec<u8>) -> (r: BufferHandle)
        ensures
            r@ == data@,
            r.rc() == 1,
    {
        BufferHandle { data, refcnt: 1 }
    }

    pub fn refcnt(&self) -> (r: u32)
        ensures
            r == self.rc(),
    {
        self.refcnt
    }

    pub fn len(&self) -> (r: usize)
        ensures
            r == self@.len(),
    {
        self.data.len()
    }

    pub fn byte_at(&self, i: usize) -> (r: u8)
        requires
            i < self@.len(),
        ensures
            r == self@[i as int],
    {
        self.data[i]
    }

    /// Borrow the raw packet bytes.
    pub fn contents(&self) -> (r: &Vec<u8>)
        ensures
            r@ == self@,
    {
        &self.data
    }

    /// Overwrite one byte in place; exclusive ownership is required.
    pub fn write_byte(&mut self, i: usize, b: u8)
        requires
            i < old(self)@.len(),
            old(self).rc() == 1,
        ensures
            final(self)@ == old(self)@.update(i as int, b),
            final(self).rc() == 1,
    {
        self.data[i] = b;
    }

    /// Drop the last reference and release the backing memory.
    pub fn release(self)
        requires
            self.rc() == 1,
    {
    }
}

} // verus!

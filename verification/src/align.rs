//! Cache-aligned wrapper.
//!
//! One scheduler runs per physical core, and each frequently touches its own
//! per-queue counters and descriptors. Placing unrelated per-core structures
//! on one cache line would make adjacent cores ping-pong that line, so
//! per-core structures are handed out behind this wrapper. The wrapper
//! changes no behaviour: every capability of the payload is forwarded
//! unchanged (the capability impls live beside the capability traits).
//! The address-alignment guarantee itself is a memory-layout property that
//! lies outside the verified model; the embedding program realises it with
//! an aligned allocation when it places these wrappers.

use vstd::prelude::*;

verus! {

/// Owns one `T` and forwards every capability `T` exposes, unchanged.
pub struct CacheAligned<T> {
    value: T,
}

impl<T> View for CacheAligned<T> {
    type V = T;

    closed spec fn view(&self) -> T {
        self.value
    }
}

impl<T> CacheAligned<T> {
    /// Wrap `value` for placement on its own cache line.
    pub fn allocate(value: T) -> (r: CacheAligned<T>)
        ensures
            r@ == value,
    {
        CacheAligned { value }
    }

    /// Borrow the payload.
    pub fn inner(&self) -> (r: &T)
        ensures
            r == self@,
    {
        &self.value
    }

    /// Mutably borrow the payload.
    pub fn inner_mut(&mut self) -> (r: &mut T)
        ensures
            *r == old(self)@,
            final(self)@ == *final(r),
    {
        &mut self.value
    }

    /// Unwrap the payload.
    pub fn into_inner(self) -> (r: T)
        ensures
            r == self@,
    {
        self.value
    }
}

} // verus!

//! An owning wrapper for a transmitted file descriptor.
//!
//! A descriptor number received over the wire is wrapped in
//! [`OwnedDescriptor`] immediately upon receipt and from then on moves, never
//! copies: the type implements neither `Clone` nor `Copy`, so the type system
//! enforces that at any time exactly one component holds a given wrapper.
//! The wrapper does not close the descriptor itself; the unverified rim of
//! the program converts it into its own resource handle at the boundary and
//! is responsible for closing it exactly once.

use vstd::prelude::*;

verus! {

/// A transmitted file descriptor with move-only ownership.
#[derive(Debug)]
pub struct OwnedDescriptor {
    raw: i32,
}

impl OwnedDescriptor {
    /// The descriptor number this wrapper holds.
    pub closed spec fn raw_id(&self) -> i32 {
        self.raw
    }

    /// Wrap a descriptor number the moment it is received.
    pub fn new(raw: i32) -> (d: OwnedDescriptor)
        ensures
            d.raw_id() == raw,
    {
        OwnedDescriptor { raw }
    }

    /// Read the descriptor number without giving up ownership, for handing
    /// to a system call.
    pub fn raw(&self) -> (r: i32)
        ensures
            r == self.raw_id(),
    {
        self.raw
    }

    /// Consume the wrapper, yielding the descriptor number; the caller takes
    /// over the obligation to close it.
    pub fn into_raw(self) -> (r: i32)
        ensures
            r == self.raw_id(),
    {
        self.raw
    }
}

/// The descriptor numbers of a sequence of owned descriptors, in order.
pub open spec fn raw_ids(ds: Seq<OwnedDescriptor>) -> Seq<i32> {
    ds.map_values(|d: OwnedDescriptor| d.raw_id())
}

} // verus!

//! The handoff queue bridging connection handlers and the relay.
//!
//! Descriptor ownership crosses from a handler to the relay exactly once: a
//! send moves the wrapper into the queue, a receive moves it out, and the
//! queue preserves first-in-first-out order.  When the relay side has
//! terminated, a send fails and hands the descriptor back to the sender, so
//! that it can be closed instead of leaking inside a dead queue.

use vstd::prelude::*;

use crate::descriptor::{raw_ids, OwnedDescriptor};

verus! {

/// A first-in-first-out queue of owned descriptors with a closable
/// consumer side.
pub struct HandoffQueue {
    items: Vec<OwnedDescriptor>,
    receiver_open: bool,
}

impl HandoffQueue {
    /// The descriptor numbers waiting in the queue, oldest first.
    pub closed spec fn pending(&self) -> Seq<i32> {
        raw_ids(self.items@)
    }

    /// Whether the consumer side still accepts descriptors.
    pub closed spec fn is_open(&self) -> bool {
        self.receiver_open
    }

    /// An empty queue whose consumer side is live.
    pub fn new() -> (q: HandoffQueue)
        ensures
            q.pending() == Seq::<i32>::empty(),
            q.is_open(),
    {
        let q = HandoffQueue { items: Vec::new(), receiver_open: true };
        proof {
            assert(q.pending() =~= Seq::<i32>::empty());
        }
        q
    }

    /// How many descriptors are waiting.
    pub fn len(&self) -> (n: usize)
        ensures
            n == self.pending().len(),
    {
        self.items.len()
    }

    /// Move a descriptor into the queue.  While the consumer side is open
    /// the descriptor is appended; once it is closed, the descriptor is
    /// handed back so the sender can close it.
    pub fn send(&mut self, d: OwnedDescriptor) -> (r: Result<(), OwnedDescriptor>)
        ensures
            old(self).is_open() ==> r is Ok
                && final(self).pending() == old(self).pending().push(d.raw_id()),
            !old(self).is_open() ==> (r matches Err(back) && back.raw_id() == d.raw_id())
                && *final(self) == *old(self),
            final(self).is_open() == old(self).is_open(),
    {
        if self.receiver_open {
            let ghost prev = self.items@;
            self.items.push(d);
            proof {
                assert(raw_ids(prev.push(d)) =~= raw_ids(prev).push(d.raw_id()));
            }
            Ok(())
        } else {
            Err(d)
        }
    }

    /// Take the oldest descriptor out of the queue, if one is waiting.
    pub fn recv(&mut self) -> (r: Option<OwnedDescriptor>)
        ensures
            old(self).pending().len() == 0 ==> r is None && *final(self) == *old(self),
            old(self).pending().len() > 0 ==> (r matches Some(d)
                && d.raw_id() == old(self).pending()[0]
                && final(self).pending() == old(self).pending().skip(1)),
            final(self).is_open() == old(self).is_open(),
    {
        if self.items.len() == 0 {
            None
        } else {
            let ghost prev = self.items@;
            let d = self.items.remove(0);
            proof {
                assert(raw_ids(prev.remove(0)) =~= raw_ids(prev).skip(1));
            }
            Some(d)
        }
    }

    /// Mark the consumer side as terminated: every later send fails and
    /// hands its descriptor back.
    pub fn close_receiver(&mut self)
        ensures
            !final(self).is_open(),
            final(self).pending() == old(self).pending(),
    {
        self.receiver_open = false;
    }
}

} // verus!

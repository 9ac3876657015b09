//! A bounded FIFO buffer: capacity-limited queue with accepting and
//! rejecting insertion, used at both edges of the spool pipeline.
//!
//! The buffer is the sequential core of a staging area that the running
//! service shares between worker stages under a lock. Operations that block
//! in the running service carry the condition they would wait for as a
//! precondition, so a verified caller only invokes them when they can
//! proceed at once; the driver that owns the lock checks the condition and
//! waits otherwise.

use vstd::prelude::*;

verus! {

use std::collections::VecDeque;
use vstd::string::StringExecFns;

/// A FIFO queue that never holds more than `max_size` items.
pub struct Buffer<T> {
    queue: VecDeque<T>,
    max_size: usize,
    #[allow(dead_code)]
    name: String,
}

impl<T> View for Buffer<T> {
    type V = Seq<T>;

    closed spec fn view(&self) -> Seq<T> {
        self.queue@
    }
}

impl<T> Buffer<T> {
    /// The declared capacity.
    pub closed spec fn spec_capacity(self) -> usize {
        self.max_size
    }

    /// Invariant: the buffer never exceeds its declared capacity.
    pub open spec fn inv(self) -> bool {
        self@.len() <= self.spec_capacity()
    }

    /// An empty buffer with the given label and capacity.
    pub fn new(name: &str, max_size: usize) -> (r: Buffer<T>)
        ensures
            r.inv(),
            r@ == Seq::<T>::empty(),
            r.spec_capacity() == max_size,
    {
        Buffer { queue: VecDeque::new(), max_size, name: String::from_str(name) }
    }

    /// Inserts at the tail iff there is room; on rejection the item comes
    /// back unmodified.
    pub fn try_push(&mut self, item: T) -> (r: Result<(), T>)
        requires
            old(self).inv(),
        ensures
            final(self).inv(),
            final(self).spec_capacity() == old(self).spec_capacity(),
            old(self)@.len() < old(self).spec_capacity() ==> r is Ok && final(self)@ == old(self)@.push(item),
            old(self)@.len() >= old(self).spec_capacity() ==> r == Err::<(), T>(item) && final(self)@ == old(self)@,
    {
        if self.queue.len() < self.max_size {
            self.queue.push_back(item);
            Ok(())
        } else {
            Err(item)
        }
    }

    /// Inserts at the tail. A blocking insert waits until there is room;
    /// that room is a precondition here, so the call proceeds at once.
    pub fn push(&mut self, item: T)
        requires
            old(self).inv(),
            old(self)@.len() < old(self).spec_capacity(),
        ensures
            final(self).inv(),
            final(self).spec_capacity() == old(self).spec_capacity(),
            final(self)@ == old(self)@.push(item),
    {
        self.queue.push_back(item);
    }

    /// Removes and returns the head, or `None` on an empty buffer.
    pub fn try_pop(&mut self) -> (r: Option<T>)
        requires
            old(self).inv(),
        ensures
            final(self).inv(),
            final(self).spec_capacity() == old(self).spec_capacity(),
            old(self)@.len() == 0 ==> r is None && final(self)@ == old(self)@,
            old(self)@.len() > 0 ==> r == Some(old(self)@[0]) && final(self)@ == old(self)@.drop_first(),
    {
        let r = self.queue.pop_front();
        proof {
            if old(self)@.len() > 0 {
                assert(final(self)@ =~= old(self)@.drop_first());
            }
        }
        r
    }

    /// Removes and returns the head. A blocking removal waits until the
    /// buffer is non-empty; that is a precondition here.
    pub fn pop(&mut self) -> (r: T)
        requires
            old(self).inv(),
            old(self)@.len() > 0,
        ensures
            final(self).inv(),
            final(self).spec_capacity() == old(self).spec_capacity(),
            r == old(self)@[0],
            final(self)@ == old(self)@.drop_first(),
    {
        let r = self.try_pop();
        match r {
            Some(item) => item,
            None => unreached(),
        }
    }

    /// The number of items held right now.
    pub fn size(&self) -> (r: usize)
        ensures
            r == self@.len(),
    {
        self.queue.len()
    }

    /// The declared capacity.
    pub fn capacity(&self) -> (r: usize)
        ensures
            r == self.spec_capacity(),
    {
        self.max_size
    }
}

/// No bounded buffer ever exceeds its declared capacity.
pub proof fn buffer_within_capacity<T>(b: Buffer<T>)
    requires
        b.inv(),
    ensures
        b@.len() <= b.spec_capacity(),
{
}

} // verus!

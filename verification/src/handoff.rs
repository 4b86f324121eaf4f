//! Bounded hand-off queue: moves ownership of request and goal handles from
//! a node-runtime callback thread to an async consumer.
//!
//! The producer side is the runtime's own dispatch thread; when the queue is
//! full, [`Handoff::try_push`] refuses the item and the caller blocks and
//! retries. That backpressure deliberately stalls the runtime's thread and
//! throttles acceptance to the consumer's pace. The consumer side never
//! blocks here: [`Handoff::pop`] returns nothing when the queue is empty and
//! the surrounding task awaits delivery.

use vstd::prelude::*;

verus! {

/// A bounded FIFO queue of owned items.
pub struct Handoff<T> {
    items: Vec<T>,
    capacity: usize,
}

impl<T> View for Handoff<T> {
    type V = Seq<T>;

    /// The queued items, front (next to pop) first.
    closed spec fn view(&self) -> Seq<T> {
        self.items@
    }
}

impl<T> Handoff<T> {
    /// The bound the queue was created with.
    pub closed spec fn cap(&self) -> nat {
        self.capacity as nat
    }

    /// A queue never holds more than its bound.
    pub open spec fn wf(&self) -> bool {
        self@.len() <= self.cap() && self.cap() >= 1
    }

    /// Creates an empty queue holding at most `capacity` items.
    pub fn new(capacity: usize) -> (q: Handoff<T>)
        requires
            capacity >= 1,
        ensures
            q.wf(),
            q@ == Seq::<T>::empty(),
            q.cap() == capacity as nat,
    {
        Handoff { items: Vec::new(), capacity }
    }

    /// The bound, as a value.
    pub fn capacity(&self) -> (c: usize)
        ensures
            c as nat == self.cap(),
    {
        self.capacity
    }

    /// How many items are queued.
    pub fn len(&self) -> (n: usize)
        ensures
            n as nat == self@.len(),
    {
        self.items.len()
    }

    /// Appends `item` at the back, unless the queue is full; a full queue
    /// hands the item back, and the producer must retry once the consumer
    /// has made room (backpressure on the runtime's dispatch thread).
    pub fn try_push(&mut self, item: T) -> (r: Result<(), T>)
        requires
            old(self).wf(),
        ensures
            final(self).wf(),
            final(self).cap() == old(self).cap(),
            old(self)@.len() < old(self).cap() ==> r == Ok::<(), T>(())
                && final(self)@ == old(self)@.push(item),
            old(self)@.len() >= old(self).cap() ==> r == Err::<(), T>(item)
                && final(self)@ == old(self)@,
    {
        if self.items.len() < self.capacity {
            self.items.push(item);
            Ok(())
        } else {
            Err(item)
        }
    }

    /// Read-only access to the `i`-th queued item, front first.
    pub fn get(&self, i: usize) -> (x: &T)
        requires
            i < self@.len(),
        ensures
            *x == self@[i as int],
    {
        &self.items[i]
    }

    /// Removes and returns the front item, or nothing when the queue is
    /// empty (the consuming task then awaits the next delivery).
    pub fn pop(&mut self) -> (r: Option<T>)
        requires
            old(self).wf(),
        ensures
            final(self).wf(),
            final(self).cap() == old(self).cap(),
            old(self)@.len() == 0 ==> r is None && final(self)@ == old(self)@,
            old(self)@.len() > 0 ==> r == Some(old(self)@[0])
                && final(self)@ == old(self)@.remove(0),
    {
        if self.items.len() > 0 {
            Some(self.items.remove(0))
        } else {
            None
        }
    }

}

} // verus!

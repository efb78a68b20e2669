//! Unbounded first-in first-out queues.
//!
//! Two such queues connect the execution contexts of the system: discovery
//! events flow out from the registry listener to the management thread, and
//! rebind commands flow in from the management thread to the realtime audio
//! callback. The queue's view is the sequence of queued items, oldest first;
//! every operation states exactly how it changes that sequence, so the
//! arrival order of items is preserved end to end.

use vstd::prelude::*;

verus! {

/// A first-in first-out queue. `push` appends at the back; `pop_front` and
/// `drain_all` take from the front, so items leave in arrival order.
pub struct Queue<T> {
    items: Vec<T>,
}

impl<T> View for Queue<T> {
    type V = Seq<T>;

    closed spec fn view(&self) -> Seq<T> {
        self.items@
    }
}

impl<T> Queue<T> {
    /// An empty queue.
    pub fn new() -> (q: Queue<T>)
        ensures
            q@ == Seq::<T>::empty(),
    {
        Queue { items: Vec::new() }
    }

    /// Number of queued items.
    pub fn len(&self) -> (n: usize)
        ensures
            n == self@.len(),
    {
        self.items.len()
    }

    /// True when nothing is queued.
    pub fn is_empty(&self) -> (b: bool)
        ensures
            b == (self@.len() == 0),
    {
        self.items.len() == 0
    }

    /// Appends an item at the back of the queue.
    pub fn push(&mut self, t: T)
        ensures
            final(self)@ == old(self)@.push(t),
    {
        self.items.push(t);
    }

    /// Removes and returns the oldest item, or `None` on an empty queue.
    /// Never blocks: an empty queue leaves the queue unchanged.
    pub fn pop_front(&mut self) -> (r: Option<T>)
        ensures
            old(self)@.len() == 0 ==> r is None && final(self)@ == old(self)@,
            old(self)@.len() > 0 ==> r == Some(old(self)@[0]) && final(self)@ == old(self)@.subrange(
                1,
                old(self)@.len() as int,
            ),
    {
        if self.items.len() == 0 {
            None
        } else {
            let t = self.items.remove(0);
            proof {
                assert(old(self)@.remove(0) =~= old(self)@.subrange(1, old(self)@.len() as int));
            }
            Some(t)
        }
    }

    /// Removes every queued item and returns them in arrival order, oldest
    /// first. Never blocks: on an empty queue it returns an empty vector.
    pub fn drain_all(&mut self) -> (r: Vec<T>)
        ensures
            r@ == old(self)@,
            final(self)@ == Seq::<T>::empty(),
    {
        let mut out: Vec<T> = Vec::new();
        core::mem::swap(&mut out, &mut self.items);
        out
    }
}

} // verus!

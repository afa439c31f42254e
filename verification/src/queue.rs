//! The notification queue model: a bounded FIFO carrying raw events from
//! the capture thread to asynchronous observers. The capacity is fixed and
//! finite on purpose — a full queue backpressures the producer rather than
//! dropping events, since losing keystrokes silently would be worse than
//! momentarily stalling input delivery.

use vstd::prelude::*;

verus! {

/// The most events that can sit in the notification queue at one time. The
/// queue could be unbounded, but the bound gives backpressure, which lets
/// consumers catch up when events arrive in bursts.
pub const MAX_EVENTS: usize = 256;

/// What one enqueue attempt does: below capacity the item is appended and
/// accepted; at capacity the queue is unchanged and the attempt refused.
pub open spec fn spec_try_enqueue<T>(s: Seq<T>, capacity: nat, item: T) -> (Seq<T>, bool) {
    if s.len() < capacity {
        (s.push(item), true)
    } else {
        (s, false)
    }
}

/// What one dequeue does: the oldest item leaves the front, or nothing
/// happens on an empty queue.
pub open spec fn spec_dequeue<T>(s: Seq<T>) -> (Seq<T>, Option<T>) {
    if s.len() == 0 {
        (s, None)
    } else {
        (s.drop_first(), Some(s[0]))
    }
}

/// An enqueue attempt is accepted exactly below capacity: the boundary is
/// the capacity itself, never earlier and never later.
pub proof fn lemma_enqueue_succeeds_iff_below_capacity<T>(s: Seq<T>, capacity: nat, item: T)
    ensures
        spec_try_enqueue(s, capacity, item).1 <==> s.len() < capacity,
{
}

/// Backpressure law: with the queue exactly at capacity, one more enqueue is
/// refused and changes nothing, and draining a single item is enough for the
/// very next enqueue to be accepted, filling the queue again.
pub proof fn lemma_backpressure_boundary<T>(s: Seq<T>, capacity: nat, item: T, next: T)
    requires
        s.len() == capacity,
        capacity > 0,
    ensures
        !spec_try_enqueue(s, capacity, item).1,
        spec_try_enqueue(s, capacity, item).0 == s,
        spec_try_enqueue(spec_dequeue(s).0, capacity, next).1,
        spec_try_enqueue(spec_dequeue(s).0, capacity, next).0.len() == capacity,
{
}

/// A bounded FIFO queue with a capacity fixed at construction. This is the
/// verified model of the hand-off channel: one producer (the capture
/// thread) enqueues, asynchronous consumers drain.
#[derive(Debug)]
pub struct BoundedQueue<T> {
    items: Vec<T>,
    capacity: usize,
}

impl<T> View for BoundedQueue<T> {
    type V = Seq<T>;

    /// The queued items, oldest first.
    closed spec fn view(&self) -> Seq<T> {
        self.items@
    }
}

impl<T> BoundedQueue<T> {
    /// The fixed capacity the queue was made with.
    pub closed spec fn cap(&self) -> nat {
        self.capacity as nat
    }

    /// The queue never holds more than its capacity.
    pub open spec fn wf(&self) -> bool {
        self@.len() <= self.cap()
    }

    /// An empty queue of the given capacity.
    pub fn new(capacity: usize) -> (r: BoundedQueue<T>)
        ensures
            r.wf(),
            r@ == Seq::<T>::empty(),
            r.cap() == capacity,
    {
        BoundedQueue { items: Vec::new(), capacity }
    }

    /// How many items are queued.
    pub fn len(&self) -> (r: usize)
        ensures
            r == self@.len(),
    {
        self.items.len()
    }

    /// The fixed capacity.
    pub fn capacity(&self) -> (r: usize)
        ensures
            r == self.cap(),
    {
        self.capacity
    }

    /// Whether an enqueue would be refused right now.
    pub fn is_full(&self) -> (r: bool)
        ensures
            r == (self@.len() >= self.cap()),
    {
        self.items.len() >= self.capacity
    }

    /// Appends the item if a slot is free and says whether it was taken.
    /// A refused item is the producer's to retry: nothing is dropped.
    pub fn try_enqueue(&mut self, item: T) -> (r: bool)
        requires
            old(self).wf(),
        ensures
            final(self).wf(),
            final(self).cap() == old(self).cap(),
            (final(self)@, r) == spec_try_enqueue(old(self)@, old(self).cap(), item),
    {
        if self.items.len() < self.capacity {
            self.items.push(item);
            true
        } else {
            false
        }
    }

    /// Removes and returns the oldest item, or nothing when empty.
    pub fn dequeue(&mut self) -> (r: Option<T>)
        requires
            old(self).wf(),
        ensures
            final(self).wf(),
            final(self).cap() == old(self).cap(),
            (final(self)@, r) == spec_dequeue(old(self)@),
    {
        if self.items.len() == 0 {
            None
        } else {
            let item = self.items.remove(0);
            proof {
                assert(self.items@ =~= old(self)@.drop_first());
            }
            Some(item)
        }
    }
}

} // verus!

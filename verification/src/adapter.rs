use vstd::prelude::*;

verus! {

/// The destination queue of an endpoint adapter: a bounded FIFO that
/// bridges an external, callback-driven notification interface to a
/// pollable queue of typed events.
///
/// Every callback invocation enqueues exactly one typed event, in arrival
/// order. The queue is bounded; `try_enqueue` on a full queue hands the
/// event back to the caller instead of blocking or silently dropping it,
/// so the callback side can make the backpressure decision (the intended
/// policy is a bounded block: retry until space is free).
pub struct AdapterQueue<T> {
    items: Vec<T>,
    capacity: usize,
}

impl<T> AdapterQueue<T> {
    /// The queued events, oldest first.
    pub closed spec fn contents(&self) -> Seq<T> {
        self.items@
    }

    /// The fixed bound on how many events may be queued at once.
    pub closed spec fn cap(&self) -> int {
        self.capacity as int
    }

    /// A queue is well formed when it has room for at least one event and
    /// never holds more than its bound.
    pub open spec fn wf(&self) -> bool {
        &&& self.cap() >= 1
        &&& self.contents().len() <= self.cap()
    }

    pub fn new(capacity: usize) -> (q: AdapterQueue<T>)
        requires
            capacity >= 1,
        ensures
            q.wf(),
            q.contents() == Seq::<T>::empty(),
            q.cap() == capacity as int,
    {
        AdapterQueue { items: Vec::new(), capacity }
    }

    pub fn len(&self) -> (n: usize)
        ensures
            n as int == self.contents().len(),
    {
        self.items.len()
    }

    /// Enqueue one event at the back, or hand it back when the queue is
    /// already at its bound.
    pub fn try_enqueue(&mut self, e: T) -> (r: Result<(), T>)
        requires
            old(self).wf(),
        ensures
            final(self).wf(),
            final(self).cap() == old(self).cap(),
            if old(self).contents().len() < old(self).cap() {
                &&& r is Ok
                &&& final(self).contents() == old(self).contents().push(e)
            } else {
                &&& r matches Err(back) && back == e
                &&& final(self).contents() == old(self).contents()
            },
    {
        if self.items.len() < self.capacity {
            self.items.push(e);
            Ok(())
        } else {
            Err(e)
        }
    }

    /// Remove and return the oldest queued event, if any.
    pub fn dequeue(&mut self) -> (r: Option<T>)
        requires
            old(self).wf(),
        ensures
            final(self).wf(),
            final(self).cap() == old(self).cap(),
            if old(self).contents().len() > 0 {
                &&& r matches Some(e) && e == old(self).contents()[0]
                &&& final(self).contents() == old(self).contents().skip(1)
            } else {
                &&& r is None
                &&& final(self).contents() == old(self).contents()
            },
    {
        if self.items.len() > 0 {
            Some(self.items.remove(0))
        } else {
            None
        }
    }
}

} // verus!

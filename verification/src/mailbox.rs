//! Bounded FIFO mailbox: the single shared resource between the control
//! loop (producer) and the display actor (consumer). Sends are refused —
//! the caller must wait and retry — while the box is full, which throttles
//! the producer to the consumer's pace; receives hand the commands out in
//! exactly the order they were accepted. Closing marks the end of input so
//! the consumer can run its shutdown sequence.

use vstd::prelude::*;

verus! {

/// A FIFO queue of bounded capacity with a close flag.
pub struct Mailbox<T> {
    queue: Vec<T>,
    capacity: usize,
    closed: bool,
}

impl<T> Mailbox<T> {
    /// The commands accepted and not yet consumed, oldest first.
    pub closed spec fn pending(&self) -> Seq<T> {
        self.queue@
    }

    /// The capacity the mailbox was created with.
    pub closed spec fn cap(&self) -> nat {
        self.capacity as nat
    }

    /// No further sends will be accepted.
    pub closed spec fn is_closed(&self) -> bool {
        self.closed
    }

    /// Never more pending commands than the capacity allows.
    pub open spec fn wf(&self) -> bool {
        self.pending().len() <= self.cap()
    }

    /// An empty, open mailbox of the given capacity.
    pub fn new(capacity: usize) -> (m: Self)
        ensures
            m.pending() == Seq::<T>::empty(),
            m.cap() == capacity,
            !m.is_closed(),
            m.wf(),
    {
        Mailbox { queue: Vec::new(), capacity, closed: false }
    }

    /// How many commands are pending.
    pub fn len(&self) -> (n: usize)
        ensures
            n == self.pending().len(),
    {
        self.queue.len()
    }

    /// The capacity the mailbox was created with.
    pub fn capacity(&self) -> (n: usize)
        ensures
            n == self.cap(),
    {
        self.capacity
    }

    /// Whether the mailbox has been closed.
    pub fn closed_for_send(&self) -> (r: bool)
        ensures
            r == self.is_closed(),
    {
        self.closed
    }

    /// Offers a command. A full or closed mailbox refuses and hands the
    /// command back — the sender must wait for the consumer to drain one
    /// (backpressure); otherwise the command joins the end of the queue.
    pub fn try_send(&mut self, value: T) -> (r: Result<(), T>)
        ensures
            final(self).cap() == old(self).cap(),
            final(self).is_closed() == old(self).is_closed(),
            if old(self).is_closed() || old(self).pending().len() >= old(self).cap() {
                &&& r matches Err(v) && v == value
                &&& final(self).pending() == old(self).pending()
            } else {
                &&& r is Ok
                &&& final(self).pending() == old(self).pending().push(value)
            },
            old(self).wf() ==> final(self).wf(),
    {
        if self.closed || self.queue.len() >= self.capacity {
            Err(value)
        } else {
            self.queue.push(value);
            Ok(())
        }
    }

    /// Takes the oldest pending command, if there is one. Commands come
    /// out in exactly the order they were accepted.
    pub fn try_recv(&mut self) -> (r: Option<T>)
        ensures
            final(self).cap() == old(self).cap(),
            final(self).is_closed() == old(self).is_closed(),
            old(self).wf() ==> final(self).wf(),
            if old(self).pending().len() == 0 {
                &&& r is None
                &&& final(self).pending() == old(self).pending()
            } else {
                &&& r matches Some(v) && v == old(self).pending()[0]
                &&& final(self).pending() == old(self).pending().drop_first()
            },
    {
        if self.queue.len() == 0 {
            None
        } else {
            let v = self.queue.remove(0);
            proof {
                assert(self.queue@ =~= old(self).queue@.drop_first());
            }
            Some(v)
        }
    }

    /// Marks the end of input; pending commands stay to be consumed.
    pub fn close(&mut self)
        ensures
            final(self).is_closed(),
            final(self).pending() == old(self).pending(),
            final(self).cap() == old(self).cap(),
            old(self).wf() ==> final(self).wf(),
    {
        self.closed = true;
    }
}

} // verus!

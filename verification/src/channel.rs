//! The worker's inbound mailbox: a bounded first-in-first-out queue of
//! transaction requests. Only the coordinator enqueues and only the
//! worker dequeues; the driving loop hands each side an exclusive borrow,
//! which is how the single-producer single-consumer discipline is kept.

use vstd::prelude::*;

use crate::protocol::Fault;
use crate::protocol::WorkerInput;

verus! {

/// A bounded FIFO of pending transaction requests.
pub struct Channel {
    queue: Vec<WorkerInput>,
    capacity: usize,
}

impl View for Channel {
    type V = Seq<WorkerInput>;

    closed spec fn view(&self) -> Seq<WorkerInput> {
        self.queue@
    }
}

impl Channel {
    /// The bound the channel was created with.
    pub closed spec fn spec_capacity(self) -> usize {
        self.capacity
    }

    /// The queue never outgrows its bound.
    pub open spec fn wf(self) -> bool {
        self@.len() <= self.spec_capacity()
    }

    /// No more requests fit.
    pub open spec fn is_full(self) -> bool {
        self@.len() >= self.spec_capacity()
    }

    /// An empty channel with the given bound.
    pub fn new(capacity: usize) -> (c: Channel)
        ensures
            c@.len() == 0,
            c.spec_capacity() == capacity,
            c.wf(),
    {
        Channel { queue: Vec::new(), capacity }
    }

    /// Enqueues a request at the back, unless the channel is saturated;
    /// a refused request leaves the queue exactly as it was.
    pub fn send(&mut self, input: WorkerInput) -> (r: Result<(), Fault>)
        requires
            old(self).wf(),
        ensures
            final(self).wf(),
            final(self).spec_capacity() == old(self).spec_capacity(),
            old(self).is_full() ==> r == Err::<(), Fault>(Fault::ChannelUnavailable)
                && final(self)@ == old(self)@,
            !old(self).is_full() ==> r == Ok::<(), Fault>(())
                && final(self)@ == old(self)@.push(input),
    {
        if self.queue.len() >= self.capacity {
            Err(Fault::ChannelUnavailable)
        } else {
            self.queue.push(input);
            Ok(())
        }
    }

    /// Dequeues the oldest pending request, if any.
    pub fn recv(&mut self) -> (r: Option<WorkerInput>)
        ensures
            final(self).spec_capacity() == old(self).spec_capacity(),
            old(self).wf() ==> final(self).wf(),
            old(self)@.len() == 0 ==> r is None && final(self)@ == old(self)@,
            old(self)@.len() > 0 ==> r == Some(old(self)@[0])
                && final(self)@ == old(self)@.drop_first(),
    {
        if self.queue.len() == 0 {
            None
        } else {
            let input = self.queue.remove(0);
            proof {
                assert(self@ =~= old(self)@.drop_first());
            }
            Some(input)
        }
    }

    /// How many requests are waiting.
    pub fn len(&self) -> (n: usize)
        ensures
            n == self@.len(),
    {
        self.queue.len()
    }

    /// The bound the channel was created with.
    pub fn capacity(&self) -> (n: usize)
        ensures
            n == self.spec_capacity(),
    {
        self.capacity
    }
}

} // verus!

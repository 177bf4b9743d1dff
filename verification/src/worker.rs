//! The transaction worker: a logically separate execution context that
//! serves one register transaction at a time, models a latency-bearing
//! bus access, and reports each completion. The latency itself (a sleep
//! or an await) is the driving shell's business; the protocol state and
//! the outcome of every request are decided here.

use vstd::prelude::*;

use crate::channel::Channel;
use crate::protocol::Event;
use crate::protocol::WorkerInput;

verus! {

/// The worker's lifecycle: it comes up disconnected, moves to ready
/// exactly once at first activation, and stays ready for the rest of the
/// process.
#[derive(Debug, Clone, Copy, PartialEq, Eq, Structural)]
pub enum ReceiverState {
    Disconnected,
    Ready,
}

/// The simulated transaction worker. It serves requests strictly one at
/// a time, in receipt order, and emits exactly one event per request;
/// this simulated backend never produces the failure outcomes, though
/// the protocol reserves them for a real bus to report faults.
pub struct TransactionWorker {
    /// Where the worker stands in its lifecycle.
    pub state: ReceiverState,
    /// The value every simulated read returns; a real backend would
    /// return the actual hardware value.
    pub simulated_read_value: u16,
}

impl TransactionWorker {
    /// The event the worker reports for a request: a read yields the
    /// simulated value, a write echoes back the value written.
    pub open spec fn spec_respond(self, input: WorkerInput) -> Event {
        match input {
            WorkerInput::ReadReg(address) => Event::ReadFinished(
                Ok((address, self.simulated_read_value)),
            ),
            WorkerInput::WriteReg(address, value) => Event::WriteFinished(Ok((address, value))),
        }
    }

    /// A fresh, not yet activated worker.
    pub fn new(simulated_read_value: u16) -> (w: TransactionWorker)
        ensures
            w.state == ReceiverState::Disconnected,
            w.simulated_read_value == simulated_read_value,
    {
        TransactionWorker { state: ReceiverState::Disconnected, simulated_read_value }
    }

    /// First activation moves the worker to ready and emits the one
    /// `Ready` event, which is how the coordinator learns it may send;
    /// any later activation changes nothing and emits nothing.
    pub fn activate(&mut self) -> (e: Option<Event>)
        ensures
            final(self).state == ReceiverState::Ready,
            final(self).simulated_read_value == old(self).simulated_read_value,
            old(self).state == ReceiverState::Disconnected ==> e == Some(Event::Ready),
            old(self).state == ReceiverState::Ready ==> e is None,
    {
        match self.state {
            ReceiverState::Disconnected => {
                self.state = ReceiverState::Ready;
                Some(Event::Ready)
            },
            ReceiverState::Ready => None,
        }
    }

    /// Serves one request: the outcome the worker reports for it.
    pub fn process(&self, input: WorkerInput) -> (e: Event)
        requires
            self.state == ReceiverState::Ready,
        ensures
            e == self.spec_respond(input),
    {
        match input {
            WorkerInput::ReadReg(address) => Event::ReadFinished(
                Ok((address, self.simulated_read_value)),
            ),
            WorkerInput::WriteReg(address, value) => Event::WriteFinished(Ok((address, value))),
        }
    }

    /// Takes the oldest pending request off the channel and serves it;
    /// a request enqueued while the worker is busy simply waits in the
    /// queue. Serving front-first keeps outcomes in submission order.
    pub fn service(&self, chan: &mut Channel) -> (e: Option<Event>)
        requires
            self.state == ReceiverState::Ready,
        ensures
            final(chan).spec_capacity() == old(chan).spec_capacity(),
            old(chan).wf() ==> final(chan).wf(),
            old(chan)@.len() == 0 ==> e is None && final(chan)@ == old(chan)@,
            old(chan)@.len() > 0 ==> e == Some(self.spec_respond(old(chan)@[0]))
                && final(chan)@ == old(chan)@.drop_first(),
    {
        match chan.recv() {
            Some(input) => Some(self.process(input)),
            None => None,
        }
    }
}

} // verus!

//! The coordinator: owner of the register map and of the single gate
//! between user intents and the worker. It validates and dispatches
//! transaction requests, and it is the only component that mutates
//! register state in response to worker outcomes.

use vstd::prelude::*;

use crate::channel::Channel;
use crate::protocol::Event;
use crate::protocol::Fault;
use crate::protocol::Message;
use crate::protocol::WorkerInput;
use crate::reg_map::spec_contains;
use crate::reg_map::spec_reg_at;
use crate::reg_map::spec_replace;
use crate::reg_map::spec_write_of;
use crate::reg_map::with_read;
use crate::reg_map::with_write;
use crate::reg_map::RegisterMap;
use crate::register::Register;

verus! {

/// Whether the coordinator may send requests yet: it starts with no
/// usable channel and becomes ready exactly when the worker's `Ready`
/// event arrives — a one-way transition for the life of the process.
#[derive(Debug, Clone, Copy, PartialEq, Eq, Structural)]
pub enum SenderState {
    Starting,
    Ready,
}

/// The register state after a worker event is applied: a successful read
/// updates the addressed register's read value, a successful write
/// updates its write value to the value the backend echoed, and every
/// other event — readiness, a reported failure, an unknown address —
/// leaves the map exactly as it was.
pub open spec fn spec_apply_event(s: Seq<Register>, event: Event) -> Seq<Register> {
    match event {
        Event::Ready => s,
        Event::ReadFinished(outcome) => match outcome {
            Ok((address, value)) => if spec_contains(s, address) {
                spec_replace(s, address, with_read(spec_reg_at(s, address), value))
            } else {
                s
            },
            Err(_) => s,
        },
        Event::WriteFinished(outcome) => match outcome {
            Ok((address, value)) => if spec_contains(s, address) {
                spec_replace(s, address, with_write(spec_reg_at(s, address), value))
            } else {
                s
            },
            Err(_) => s,
        },
    }
}

/// What handling a worker event reports: a failure outcome surfaces as
/// `TransactionFailed` for its address, a successful outcome for an
/// unmapped address as the configuration fault `UnknownAddress`.
pub open spec fn spec_event_result(s: Seq<Register>, event: Event) -> Result<(), Fault> {
    match event {
        Event::Ready => Ok(()),
        Event::ReadFinished(outcome) => match outcome {
            Ok((address, _)) => if spec_contains(s, address) {
                Ok(())
            } else {
                Err(Fault::UnknownAddress(address))
            },
            Err(address) => Err(Fault::TransactionFailed(address)),
        },
        Event::WriteFinished(outcome) => match outcome {
            Ok((address, _)) => if spec_contains(s, address) {
                Ok(())
            } else {
                Err(Fault::UnknownAddress(address))
            },
            Err(address) => Err(Fault::TransactionFailed(address)),
        },
    }
}

/// The register state after one coordinator message: direct mutations go
/// to the addressed register, transaction dispatches touch no register
/// state, and an echoed worker event is applied as `spec_apply_event`.
pub open spec fn spec_apply_message(s: Seq<Register>, message: Message) -> Seq<Register> {
    match message {
        Message::RegReadValChanged(address, value) => if spec_contains(s, address) {
            spec_replace(s, address, with_read(spec_reg_at(s, address), value))
        } else {
            s
        },
        Message::RegWriteValChanged(address, value) => if spec_contains(s, address) {
            spec_replace(s, address, with_write(spec_reg_at(s, address), value))
        } else {
            s
        },
        Message::RegToggleWriteBit(address, index) => if spec_contains(s, address) {
            spec_replace(
                s,
                address,
                with_write(spec_reg_at(s, address), spec_write_of(s, address) ^ (1u16 << index)),
            )
        } else {
            s
        },
        Message::RegReadToWrite(address) => if spec_contains(s, address) {
            spec_replace(
                s,
                address,
                with_write(spec_reg_at(s, address), spec_reg_at(s, address).read_value),
            )
        } else {
            s
        },
        Message::RegRead(_) => s,
        Message::RegWrite(_) => s,
        Message::Echo(event) => spec_apply_event(s, event),
    }
}

/// What handling one coordinator message reports, given the sender state
/// and whether the channel is saturated when the message arrives.
pub open spec fn spec_message_result(
    s: Seq<Register>,
    state: SenderState,
    full: bool,
    message: Message,
) -> Result<(), Fault> {
    match message {
        Message::RegReadValChanged(address, _) => if spec_contains(s, address) {
            Ok(())
        } else {
            Err(Fault::UnknownAddress(address))
        },
        Message::RegWriteValChanged(address, _) => if spec_contains(s, address) {
            Ok(())
        } else {
            Err(Fault::UnknownAddress(address))
        },
        Message::RegToggleWriteBit(address, _) => if spec_contains(s, address) {
            Ok(())
        } else {
            Err(Fault::UnknownAddress(address))
        },
        Message::RegReadToWrite(address) => if spec_contains(s, address) {
            Ok(())
        } else {
            Err(Fault::UnknownAddress(address))
        },
        Message::RegRead(_) => if state == SenderState::Starting {
            Err(Fault::NotConnected)
        } else if full {
            Err(Fault::ChannelUnavailable)
        } else {
            Ok(())
        },
        Message::RegWrite(address) => if state == SenderState::Starting {
            Err(Fault::NotConnected)
        } else if !spec_contains(s, address) {
            Err(Fault::UnknownAddress(address))
        } else if full {
            Err(Fault::ChannelUnavailable)
        } else {
            Ok(())
        },
        Message::Echo(event) => spec_event_result(s, event),
    }
}

/// The requests one coordinator message appends to the channel: one for
/// an accepted dispatch, none otherwise. A dispatched write carries the
/// register's write value as it stands at dispatch time.
pub open spec fn spec_message_sends(
    s: Seq<Register>,
    state: SenderState,
    full: bool,
    message: Message,
) -> Seq<WorkerInput> {
    match message {
        Message::RegRead(address) => if state == SenderState::Ready && !full {
            seq![WorkerInput::ReadReg(address)]
        } else {
            Seq::empty()
        },
        Message::RegWrite(address) => if state == SenderState::Ready && spec_contains(s, address)
            && !full {
            seq![WorkerInput::WriteReg(address, spec_write_of(s, address))]
        } else {
            Seq::empty()
        },
        _ => Seq::empty(),
    }
}

/// The coordinator: the register map it owns, and the send gate.
pub struct Coordinator {
    /// All register state, mutated only through coordinator operations.
    pub reg_map: RegisterMap,
    /// Whether the worker has signalled readiness yet.
    pub state: SenderState,
}

impl Coordinator {
    /// A coordinator over the given map, not yet connected: until the
    /// worker's `Ready` event arrives every dispatch is refused.
    pub fn new(reg_map: RegisterMap) -> (c: Coordinator)
        requires
            reg_map.wf(),
        ensures
            c.reg_map == reg_map,
            c.state == SenderState::Starting,
    {
        Coordinator { reg_map, state: SenderState::Starting }
    }

    /// Dispatches a read transaction. Before the worker is connected
    /// this reports `NotConnected` and does nothing further — no
    /// queuing, no retry; register state is never touched.
    pub fn request_read(&self, address: u16, chan: &mut Channel) -> (r: Result<(), Fault>)
        requires
            old(chan).wf(),
        ensures
            final(chan).wf(),
            final(chan).spec_capacity() == old(chan).spec_capacity(),
            self.state == SenderState::Starting ==> r == Err::<(), Fault>(Fault::NotConnected)
                && final(chan)@ == old(chan)@,
            self.state == SenderState::Ready && old(chan).is_full() ==> r == Err::<(), Fault>(
                Fault::ChannelUnavailable,
            ) && final(chan)@ == old(chan)@,
            self.state == SenderState::Ready && !old(chan).is_full() ==> r == Ok::<(), Fault>(())
                && final(chan)@ == old(chan)@.push(WorkerInput::ReadReg(address)),
    {
        match self.state {
            SenderState::Starting => Err(Fault::NotConnected),
            SenderState::Ready => chan.send(WorkerInput::ReadReg(address)),
        }
    }

    /// Dispatches a write transaction carrying the addressed register's
    /// current write value (read at dispatch time, not captured
    /// earlier). Gated exactly as `request_read`, and additionally
    /// refused with `UnknownAddress` for an unmapped address; register
    /// state is never touched.
    pub fn request_write(&self, address: u16, chan: &mut Channel) -> (r: Result<(), Fault>)
        requires
            self.reg_map.wf(),
            old(chan).wf(),
        ensures
            final(chan).wf(),
            final(chan).spec_capacity() == old(chan).spec_capacity(),
            self.state == SenderState::Starting ==> r == Err::<(), Fault>(Fault::NotConnected)
                && final(chan)@ == old(chan)@,
            self.state == SenderState::Ready && !self.reg_map.contains_addr(address) ==> r
                == Err::<(), Fault>(Fault::UnknownAddress(address)) && final(chan)@ == old(chan)@,
            self.state == SenderState::Ready && self.reg_map.contains_addr(address) && old(
                chan,
            ).is_full() ==> r == Err::<(), Fault>(Fault::ChannelUnavailable) && final(chan)@
                == old(chan)@,
            self.state == SenderState::Ready && self.reg_map.contains_addr(address) && !old(
                chan,
            ).is_full() ==> r == Ok::<(), Fault>(()) && final(chan)@ == old(chan)@.push(
                WorkerInput::WriteReg(address, self.reg_map.write_of(address)),
            ),
    {
        match self.state {
            SenderState::Starting => Err(Fault::NotConnected),
            SenderState::Ready => match self.reg_map.get(address) {
                Ok(reg) => {
                    let value = reg.write_value;
                    chan.send(WorkerInput::WriteReg(address, value))
                },
                Err(fault) => Err(fault),
            },
        }
    }

    /// Applies one worker event: `Ready` opens the send gate for good; a
    /// successful read or write outcome updates exactly the addressed
    /// register; a reported failure, and any outcome for an unmapped
    /// address, is surfaced as a fault and mutates nothing.
    pub fn on_event(&mut self, event: Event) -> (r: Result<(), Fault>)
        requires
            old(self).reg_map.wf(),
        ensures
            final(self).reg_map.wf(),
            final(self).reg_map@ == spec_apply_event(old(self).reg_map@, event),
            r == spec_event_result(old(self).reg_map@, event),
            final(self).state == (if event is Ready {
                SenderState::Ready
            } else {
                old(self).state
            }),
            forall|x: u16|
                final(self).reg_map.contains_addr(x) == old(self).reg_map.contains_addr(x),
            r is Err ==> final(self).reg_map@ == old(self).reg_map@,
    {
        match event {
            Event::Ready => {
                self.state = SenderState::Ready;
                Ok(())
            },
            Event::ReadFinished(outcome) => match outcome {
                Ok((address, value)) => self.reg_map.set_read_value(address, value),
                Err(address) => Err(Fault::TransactionFailed(address)),
            },
            Event::WriteFinished(outcome) => match outcome {
                Ok((address, value)) => self.reg_map.set_write_value(address, value),
                Err(address) => Err(Fault::TransactionFailed(address)),
            },
        }
    }

    /// Handles one inbound message — a decoded user intent or an echoed
    /// worker event. Register state moves as `spec_apply_message` says,
    /// the channel grows by exactly the requests `spec_message_sends`
    /// says, and the report is `spec_message_result`.
    pub fn update(&mut self, message: Message, chan: &mut Channel) -> (r: Result<(), Fault>)
        requires
            old(self).reg_map.wf(),
            old(chan).wf(),
            message matches Message::RegToggleWriteBit(_, index) ==> index < 16,
        ensures
            final(self).reg_map.wf(),
            final(chan).wf(),
            final(chan).spec_capacity() == old(chan).spec_capacity(),
            final(self).reg_map@ == spec_apply_message(old(self).reg_map@, message),
            r == spec_message_result(
                old(self).reg_map@,
                old(self).state,
                old(chan).is_full(),
                message,
            ),
            final(chan)@ == old(chan)@ + spec_message_sends(
                old(self).reg_map@,
                old(self).state,
                old(chan).is_full(),
                message,
            ),
            final(self).state == (if message == Message::Echo(Event::Ready) {
                SenderState::Ready
            } else {
                old(self).state
            }),
    {
        let r = match message {
            Message::RegReadValChanged(address, value) => self.reg_map.set_read_value(
                address,
                value,
            ),
            Message::RegWriteValChanged(address, value) => self.reg_map.set_write_value(
                address,
                value,
            ),
            Message::RegToggleWriteBit(address, index) => self.reg_map.toggle_write_bit(
                address,
                index,
            ),
            Message::RegReadToWrite(address) => self.reg_map.copy_read_to_write(address),
            Message::RegRead(address) => self.request_read(address, chan),
            Message::RegWrite(address) => self.request_write(address, chan),
            Message::Echo(event) => self.on_event(event),
        };
        proof {
            assert(final(chan)@ == old(chan)@ + spec_message_sends(
                old(self).reg_map@,
                old(self).state,
                old(chan).is_full(),
                message,
            )) by {
                let sent = spec_message_sends(
                    old(self).reg_map@,
                    old(self).state,
                    old(chan).is_full(),
                    message,
                );
                if sent.len() == 0 {
                    assert(old(chan)@ + sent =~= old(chan)@);
                } else {
                    assert(old(chan)@ + sent =~= old(chan)@.push(sent[0]));
                }
            }
        }
        r
    }
}

} // verus!

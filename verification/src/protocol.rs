//! The transaction protocol vocabulary: requests sent to the worker,
//! events the worker reports back, the coordinator's inbound messages,
//! and the fault taxonomy.

use vstd::prelude::*;

verus! {

/// A transaction request handed to the worker. A request and its outcome
/// are correlated by address only: the worker serves one request at a
/// time and reports exactly one outcome per request, in submission order.
#[derive(Debug, Clone, Copy, PartialEq, Eq, Structural)]
pub enum WorkerInput {
    /// Read the register at this address.
    ReadReg(u16),
    /// Write this value to the register at this address.
    WriteReg(u16, u16),
}

/// An event the worker reports to the coordinator. A finished transaction
/// carries `Ok((address, value))` on success and `Err(address)` on a
/// worker-reported failure.
#[derive(Debug, Clone, Copy, PartialEq, Eq)]
pub enum Event {
    /// The worker has come up and is accepting requests; until this
    /// arrives the coordinator must not send any.
    Ready,
    /// A read transaction finished; on success the value is the one read.
    ReadFinished(Result<(u16, u16), u16>),
    /// A write transaction finished; on success the value is the one the
    /// backend actually wrote (it may differ from the one requested).
    WriteFinished(Result<(u16, u16), u16>),
}

/// A message the coordinator accepts: a decoded user intent, or a worker
/// event echoed into the update loop.
#[derive(Debug, Clone, Copy, PartialEq, Eq)]
pub enum Message {
    /// Set the simulated read value of the register at this address.
    RegReadValChanged(u16, u16),
    /// Set the write value of the register at this address.
    RegWriteValChanged(u16, u16),
    /// Flip one bit (the second component) of a register's write value.
    RegToggleWriteBit(u16, u16),
    /// Copy a register's read value into its write value.
    RegReadToWrite(u16),
    /// Dispatch a read transaction for this address.
    RegRead(u16),
    /// Dispatch a write transaction for this address, sending the
    /// register's write value as it stands at dispatch time.
    RegWrite(u16),
    /// A worker event delivered to the coordinator.
    Echo(Event),
}

/// Why an operation did not go through.
#[derive(Debug, Clone, Copy, PartialEq, Eq, Structural)]
pub enum Fault {
    /// A lookup against an address the map does not hold: a configuration
    /// fault, since the address space is fixed at startup.
    UnknownAddress(u16),
    /// A transaction was requested before the worker signalled readiness;
    /// transient, nothing is mutated, the user may retry.
    NotConnected,
    /// The worker's inbound channel cannot take the request; transient,
    /// nothing is mutated.
    ChannelUnavailable,
    /// The worker reported a failed read or write at this address; the
    /// register is left untouched.
    TransactionFailed(u16),
}

} // verus!

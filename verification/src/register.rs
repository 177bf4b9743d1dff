//! The bit-level register data model: a named bit-field descriptor, a
//! register with independent read and write values, and the per-register
//! messages a rendered register widget emits.

use vstd::prelude::*;

use crate::protocol::Message;

verus! {

/// A named slice of a register's bit pattern, used for display grouping.
/// Pure data: it is immutable once constructed.
#[derive(Debug, Clone)]
pub struct Field {
    pub name: String,
    pub width: u8,
}

/// An addressable register: an address, independent 16-bit read and write
/// values, and the ordered field layout (most significant field first).
#[derive(Debug, Clone)]
pub struct Register {
    pub name: String,
    pub address: u16,
    pub read_value: u16,
    pub write_value: u16,
    pub fields: Vec<Field>,
}

impl Register {
    /// Builds a register from its display name, address, initial values and
    /// field layout.
    pub fn new(
        read_value: u16,
        write_value: u16,
        name: String,
        address: u16,
        fields: Vec<Field>,
    ) -> (r: Register)
        ensures
            r.read_value == read_value,
            r.write_value == write_value,
            r.name == name,
            r.address == address,
            r.fields == fields,
    {
        Register { name, address, read_value, write_value, fields }
    }
}

/// Builds a register; a free-function convenience around `Register::new`.
pub fn register(
    read_value: u16,
    write_value: u16,
    name: String,
    address: u16,
    fields: Vec<Field>,
) -> (r: Register)
    ensures
        r.read_value == read_value,
        r.write_value == write_value,
        r.name == name,
        r.address == address,
        r.fields == fields,
{
    Register::new(read_value, write_value, name, address, fields)
}

/// What a rendered register emits when the user interacts with it, before
/// the owning register stamps its address on it.
#[derive(Debug, Clone, PartialEq, Eq, Structural)]
pub enum RegisterMessage {
    /// The "simulate read value" control was edited to this value.
    ReadRegChanged(u16),
    /// The write value was edited (a direct edit or a bit toggle).
    WriteRegChanged(u16),
    /// The user asked for a read transaction.
    RegRead,
    /// The user asked for a write transaction.
    RegWrite,
    /// The user asked to copy the read value into the write value.
    RegReadToWrite,
}

impl Register {
    /// The coordinator message a widget event decodes to, with this
    /// register's address stamped on it.
    pub open spec fn spec_decode(self, event: RegisterMessage) -> Message {
        match event {
            RegisterMessage::ReadRegChanged(value) => Message::RegReadValChanged(
                self.address,
                value,
            ),
            RegisterMessage::WriteRegChanged(value) => Message::RegWriteValChanged(
                self.address,
                value,
            ),
            RegisterMessage::RegRead => Message::RegRead(self.address),
            RegisterMessage::RegWrite => Message::RegWrite(self.address),
            RegisterMessage::RegReadToWrite => Message::RegReadToWrite(self.address),
        }
    }

    /// Decodes an event a rendered register emitted into the tagged
    /// coordinator message carrying the target address; no boxed
    /// per-register callbacks, one dispatch point.
    pub fn update(&self, event: RegisterMessage) -> (m: Message)
        ensures
            m == self.spec_decode(event),
    {
        match event {
            RegisterMessage::ReadRegChanged(value) => Message::RegReadValChanged(
                self.address,
                value,
            ),
            RegisterMessage::WriteRegChanged(value) => Message::RegWriteValChanged(
                self.address,
                value,
            ),
            RegisterMessage::RegRead => Message::RegRead(self.address),
            RegisterMessage::RegWrite => Message::RegWrite(self.address),
            RegisterMessage::RegReadToWrite => Message::RegReadToWrite(self.address),
        }
    }
}

/// The bit of `value` at `index`, as 0 or 1; what a bit button displays.
pub fn bit_value(value: u16, index: u16) -> (r: u16)
    requires
        index < 16,
    ensures
        r == (value >> index) & 1,
{
    (value >> index) & 1
}

/// `value` with the bit at `index` flipped; what a write-bit button emits.
pub fn toggle_bit(value: u16, index: u16) -> (r: u16)
    requires
        index < 16,
    ensures
        r == value ^ (1u16 << index),
{
    value ^ (1u16 << index)
}

} // verus!

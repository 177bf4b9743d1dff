//! The protocol's laws: properties that hold of every register map and
//! every sequence of operations, proved over the same spec transitions
//! the executable contracts are stated in.

use vstd::prelude::*;

use crate::coordinator::spec_apply_event;
use crate::protocol::Event;
use crate::reg_map::lemma_find_props;
use crate::reg_map::lemma_replace_props;
use crate::reg_map::spec_contains;
use crate::reg_map::spec_read_of;
use crate::reg_map::spec_reg_at;
use crate::reg_map::spec_replace;
use crate::reg_map::spec_write_of;
use crate::reg_map::wf_regs;
use crate::reg_map::with_read;
use crate::reg_map::with_write;
use crate::register::Register;

verus! {

/// Setting a register's write value and then looking the register up
/// returns exactly the value set; its read value is untouched.
pub proof fn lemma_set_write_then_get(s: Seq<Register>, address: u16, value: u16)
    requires
        wf_regs(s),
        spec_contains(s, address),
    ensures
        spec_write_of(spec_replace(s, address, with_write(spec_reg_at(s, address), value)), address)
            == value,
        spec_read_of(spec_replace(s, address, with_write(spec_reg_at(s, address), value)), address)
            == spec_read_of(s, address),
{
    lemma_replace_props(s, address, with_write(spec_reg_at(s, address), value));
}

/// Toggling the same write bit twice restores the map exactly: the
/// toggle is an involution.
pub proof fn lemma_toggle_write_bit_involution(s: Seq<Register>, address: u16, index: u16)
    requires
        wf_regs(s),
        spec_contains(s, address),
        index < 16,
    ensures
        ({
            let once = spec_replace(
                s,
                address,
                with_write(spec_reg_at(s, address), spec_write_of(s, address) ^ (1u16 << index)),
            );
            let twice = spec_replace(
                once,
                address,
                with_write(
                    spec_reg_at(once, address),
                    spec_write_of(once, address) ^ (1u16 << index),
                ),
            );
            twice == s
        }),
{
    let w = spec_write_of(s, address);
    let mask = 1u16 << index;
    assert(((w ^ mask) ^ mask) == w) by (bit_vector);
    let r1 = with_write(spec_reg_at(s, address), w ^ mask);
    let once = spec_replace(s, address, r1);
    lemma_replace_props(s, address, r1);
    let r2 = with_write(spec_reg_at(once, address), spec_write_of(once, address) ^ mask);
    lemma_replace_props(once, address, r2);
    assert(r2 == spec_reg_at(s, address));
    lemma_find_props(s, address);
    lemma_find_props(once, address);
    assert(spec_replace(once, address, r2) =~= s);
}

/// A dispatched read followed by its successful outcome leaves the
/// addressed register's read value at exactly the value the worker
/// reported; dispatching itself touches no register (the request
/// operations take the map immutably), so applying the outcome is all
/// that moves it. Write values are untouched throughout.
pub proof fn lemma_read_outcome_applied(s: Seq<Register>, address: u16, value: u16)
    requires
        wf_regs(s),
        spec_contains(s, address),
    ensures
        spec_read_of(spec_apply_event(s, Event::ReadFinished(Ok((address, value)))), address)
            == value,
        spec_write_of(spec_apply_event(s, Event::ReadFinished(Ok((address, value)))), address)
            == spec_write_of(s, address),
        wf_regs(spec_apply_event(s, Event::ReadFinished(Ok((address, value))))),
{
    lemma_replace_props(s, address, with_read(spec_reg_at(s, address), value));
}

/// A successful write outcome that echoes the register's current write
/// value changes nothing at all: applying the echo is idempotent.
pub proof fn lemma_write_echo_idempotent(s: Seq<Register>, address: u16)
    requires
        wf_regs(s),
        spec_contains(s, address),
    ensures
        spec_apply_event(s, Event::WriteFinished(Ok((address, spec_write_of(s, address))))) == s,
{
    lemma_find_props(s, address);
    let r = with_write(spec_reg_at(s, address), spec_write_of(s, address));
    assert(r == spec_reg_at(s, address));
    assert(spec_replace(s, address, r) =~= s);
}

/// Outcomes are correlated by address only and applied in arrival
/// order, so of two read outcomes for the same address the
/// later-arriving one stands.
pub proof fn lemma_later_read_outcome_wins(s: Seq<Register>, address: u16, v1: u16, v2: u16)
    requires
        wf_regs(s),
        spec_contains(s, address),
    ensures
        ({
            let once = spec_apply_event(s, Event::ReadFinished(Ok((address, v1))));
            spec_read_of(spec_apply_event(once, Event::ReadFinished(Ok((address, v2)))), address)
                == v2
        }),
{
    lemma_replace_props(s, address, with_read(spec_reg_at(s, address), v1));
    let once = spec_apply_event(s, Event::ReadFinished(Ok((address, v1))));
    lemma_replace_props(once, address, with_read(spec_reg_at(once, address), v2));
}

} // verus!

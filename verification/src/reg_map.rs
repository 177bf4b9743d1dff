//! An ordered collection of registers keyed by address: keys are unique
//! and iteration runs in ascending-address order, so the presentation
//! layer renders deterministically. All register state lives here and is
//! mutated only through the operations below.

use vstd::prelude::*;

use crate::protocol::Fault;
use crate::register::Register;

verus! {

/// Addresses are strictly ascending, hence unique.
pub open spec fn wf_regs(s: Seq<Register>) -> bool {
    forall|i: int, j: int| 0 <= i < j < s.len() ==> s[i].address < s[j].address
}

/// Some register in `s` has this address.
pub open spec fn spec_contains(s: Seq<Register>, address: u16) -> bool {
    exists|i: int| 0 <= i < s.len() && s[i].address == address
}

/// The index of the register with this address (meaningful only when
/// `spec_contains(s, address)` holds; unique under `wf_regs`).
pub open spec fn spec_find(s: Seq<Register>, address: u16) -> int {
    choose|i: int| 0 <= i < s.len() && s[i].address == address
}

/// The register at this address.
pub open spec fn spec_reg_at(s: Seq<Register>, address: u16) -> Register {
    s[spec_find(s, address)]
}

/// The read value of the register at this address.
pub open spec fn spec_read_of(s: Seq<Register>, address: u16) -> u16 {
    spec_reg_at(s, address).read_value
}

/// The write value of the register at this address.
pub open spec fn spec_write_of(s: Seq<Register>, address: u16) -> u16 {
    spec_reg_at(s, address).write_value
}

/// `r` with its read value replaced.
pub open spec fn with_read(r: Register, value: u16) -> Register {
    Register {
        name: r.name,
        address: r.address,
        read_value: value,
        write_value: r.write_value,
        fields: r.fields,
    }
}

/// `r` with its write value replaced.
pub open spec fn with_write(r: Register, value: u16) -> Register {
    Register {
        name: r.name,
        address: r.address,
        read_value: r.read_value,
        write_value: value,
        fields: r.fields,
    }
}

/// `s` with the register at `address` replaced by `r` (which keeps the
/// same address); the shape every mutating operation below takes.
pub open spec fn spec_replace(s: Seq<Register>, address: u16, r: Register) -> Seq<Register> {
    s.update(spec_find(s, address), r)
}

/// Under `wf_regs`, an address determines its index.
pub proof fn lemma_addr_unique(s: Seq<Register>, i: int, j: int)
    requires
        wf_regs(s),
        0 <= i < s.len(),
        0 <= j < s.len(),
        s[i].address == s[j].address,
    ensures
        i == j,
{
    if i < j {
        assert(s[i].address < s[j].address);
    }
    if j < i {
        assert(s[j].address < s[i].address);
    }
}

/// `spec_find` lands on the one register with the sought address.
pub proof fn lemma_find_props(s: Seq<Register>, address: u16)
    requires
        wf_regs(s),
        spec_contains(s, address),
    ensures
        0 <= spec_find(s, address) < s.len(),
        s[spec_find(s, address)].address == address,
        forall|k: int| 0 <= k < s.len() && s[k].address == address ==> k == spec_find(s, address),
{
    let i = spec_find(s, address);
    assert(0 <= i < s.len() && s[i].address == address);
    assert forall|k: int| 0 <= k < s.len() && s[k].address == address implies k == i by {
        lemma_addr_unique(s, k, i);
    }
}

/// Replacing one register (same address) keeps the map well formed,
/// keeps every other register as it was, and puts `r` at its address.
pub proof fn lemma_replace_props(s: Seq<Register>, address: u16, r: Register)
    requires
        wf_regs(s),
        spec_contains(s, address),
        r.address == address,
    ensures
        wf_regs(spec_replace(s, address, r)),
        spec_replace(s, address, r).len() == s.len(),
        forall|x: u16| spec_contains(spec_replace(s, address, r), x) == spec_contains(s, x),
        spec_reg_at(spec_replace(s, address, r), address) == r,
        forall|x: u16|
            x != address && spec_contains(s, x) ==> spec_reg_at(spec_replace(s, address, r), x)
                == spec_reg_at(s, x),
{
    lemma_find_props(s, address);
    let i = spec_find(s, address);
    let t = spec_replace(s, address, r);
    assert(forall|k: int| 0 <= k < s.len() ==> t[k].address == s[k].address);
    assert forall|x: u16| spec_contains(t, x) == spec_contains(s, x) by {
        if spec_contains(t, x) {
            let k = choose|k: int| 0 <= k < t.len() && t[k].address == x;
            assert(s[k].address == x);
            assert(spec_contains(s, x));
        }
        if spec_contains(s, x) {
            let k = choose|k: int| 0 <= k < s.len() && s[k].address == x;
            assert(t[k].address == x);
            assert(spec_contains(t, x));
        }
    }
    lemma_find_props(t, address);
    lemma_addr_unique(t, spec_find(t, address), i);
    assert(spec_reg_at(t, address) == r);
    assert forall|x: u16| x != address && spec_contains(s, x) implies spec_reg_at(t, x)
        == spec_reg_at(s, x) by {
        lemma_find_props(s, x);
        lemma_find_props(t, x);
        let k = spec_find(s, x);
        let k2 = spec_find(t, x);
        assert(s[k2].address == x);
        lemma_addr_unique(s, k2, k);
        assert(k != i);
        assert(t[k] == s[k]);
    }
}

/// Inserting a fresh register between the addresses below it and the
/// addresses above it keeps the map well formed and every other register
/// in place.
pub proof fn lemma_insert_at_props(s: Seq<Register>, i: int, reg: Register)
    requires
        wf_regs(s),
        0 <= i <= s.len(),
        forall|k: int| 0 <= k < i ==> s[k].address < reg.address,
        forall|k: int| i <= k < s.len() ==> s[k].address > reg.address,
    ensures
        wf_regs(s.insert(i, reg)),
        s.insert(i, reg).len() == s.len() + 1,
        !spec_contains(s, reg.address),
        spec_contains(s.insert(i, reg), reg.address),
        spec_reg_at(s.insert(i, reg), reg.address) == reg,
        forall|x: u16|
            x != reg.address ==> spec_contains(s.insert(i, reg), x) == spec_contains(s, x),
        forall|x: u16|
            x != reg.address && spec_contains(s, x) ==> spec_reg_at(s.insert(i, reg), x)
                == spec_reg_at(s, x),
{
    s.insert_ensures(i, reg);
    let t = s.insert(i, reg);
    assert(forall|k: int| i <= k < s.len() ==> t[k + 1] == s[k]);
    assert forall|p: int, q: int| 0 <= p < q < t.len() implies t[p].address < t[q].address by {
        if q < i {
            assert(t[p] == s[p] && t[q] == s[q]);
        } else if q == i {
            assert(t[p] == s[p] && t[q] == reg);
        } else {
            assert(t[q] == s[q - 1]);
            if p < i {
                assert(t[p] == s[p]);
                assert(s[p].address < reg.address);
                assert(s[q - 1].address > reg.address);
            } else if p == i {
                assert(t[p] == reg);
                assert(s[q - 1].address > reg.address);
            } else {
                assert(t[p] == s[p - 1]);
            }
        }
    }
    assert(t[i] == reg);
    assert(spec_contains(t, reg.address));
    lemma_find_props(t, reg.address);
    lemma_addr_unique(t, spec_find(t, reg.address), i);
    assert forall|x: u16| x != reg.address implies spec_contains(t, x) == spec_contains(s, x) by {
        if spec_contains(t, x) {
            let k = choose|k: int| 0 <= k < t.len() && t[k].address == x;
            assert(k != i);
            if k < i {
                assert(s[k].address == x);
            } else {
                assert(t[k] == s[k - 1]);
                assert(s[k - 1].address == x);
            }
            assert(spec_contains(s, x));
        }
        if spec_contains(s, x) {
            let k = choose|k: int| 0 <= k < s.len() && s[k].address == x;
            if k < i {
                assert(t[k].address == x);
            } else {
                assert(t[k + 1] == s[k]);
                assert(t[k + 1].address == x);
            }
            assert(spec_contains(t, x));
        }
    }
    assert forall|x: u16| x != reg.address && spec_contains(s, x) implies spec_reg_at(t, x)
        == spec_reg_at(s, x) by {
        lemma_find_props(s, x);
        lemma_find_props(t, x);
        let k = spec_find(s, x);
        let k2 = spec_find(t, x);
        if k < i {
            assert(t[k].address == x);
            lemma_addr_unique(t, k2, k);
            assert(t[k] == s[k]);
        } else {
            assert(t[k + 1] == s[k]);
            assert(t[k + 1].address == x);
            lemma_addr_unique(t, k2, k + 1);
            assert(spec_reg_at(t, x) == t[k + 1]);
        }
    }
    if spec_contains(s, reg.address) {
        let k = choose|k: int| 0 <= k < s.len() && s[k].address == reg.address;
        assert(false);
    }
}

/// The register map: address-keyed register state, held in ascending
/// address order.
pub struct RegisterMap {
    regs: Vec<Register>,
}

impl View for RegisterMap {
    type V = Seq<Register>;

    closed spec fn view(&self) -> Seq<Register> {
        self.regs@
    }
}

impl RegisterMap {
    /// Addresses strictly ascending: the invariant every operation keeps.
    pub open spec fn wf(self) -> bool {
        wf_regs(self@)
    }

    /// A register with this address exists in the map.
    pub open spec fn contains_addr(self, address: u16) -> bool {
        spec_contains(self@, address)
    }

    /// The register at this address.
    pub open spec fn reg_at(self, address: u16) -> Register {
        spec_reg_at(self@, address)
    }

    /// The read value of the register at this address.
    pub open spec fn read_of(self, address: u16) -> u16 {
        spec_read_of(self@, address)
    }

    /// The write value of the register at this address.
    pub open spec fn write_of(self, address: u16) -> u16 {
        spec_write_of(self@, address)
    }

    /// An empty map.
    pub fn new() -> (m: RegisterMap)
        ensures
            m@.len() == 0,
            m.wf(),
    {
        RegisterMap { regs: Vec::new() }
    }

    /// The index of the register with this address, if present.
    fn find_index(&self, address: u16) -> (r: Option<usize>)
        requires
            self.wf(),
        ensures
            match r {
                Some(i) => self.contains_addr(address) && i as int == spec_find(self@, address)
                    && i < self@.len() && self@[i as int].address == address,
                None => !self.contains_addr(address),
            },
    {
        let mut i: usize = 0;
        while i < self.regs.len()
            invariant
                i <= self@.len(),
                forall|k: int| 0 <= k < i ==> self@[k].address != address,
                self.wf(),
            decreases self@.len() - i,
        {
            if self.regs[i].address == address {
                proof {
                    assert(spec_contains(self@, address));
                    lemma_find_props(self@, address);
                }
                return Some(i);
            }
            i += 1;
        }
        None
    }

    /// Looks the address up, as a `Result` so a configuration fault is
    /// observable rather than a panic.
    pub fn get(&self, address: u16) -> (r: Result<&Register, Fault>)
        requires
            self.wf(),
        ensures
            match r {
                Ok(reg) => self.contains_addr(address) && *reg == self.reg_at(address),
                Err(f) => !self.contains_addr(address) && f == Fault::UnknownAddress(address),
            },
    {
        match self.find_index(address) {
            Some(i) => Ok(&self.regs[i]),
            None => Err(Fault::UnknownAddress(address)),
        }
    }

    /// Overwrites the read value of the register at `address`
    /// unconditionally; total given a valid address.
    pub fn set_read_value(&mut self, address: u16, value: u16) -> (r: Result<(), Fault>)
        requires
            old(self).wf(),
        ensures
            final(self).wf(),
            old(self).contains_addr(address) ==> r == Ok::<(), Fault>(()) && final(self)@
                == spec_replace(old(self)@, address, with_read(old(self).reg_at(address), value)),
            !old(self).contains_addr(address) ==> r == Err::<(), Fault>(
                Fault::UnknownAddress(address),
            ) && final(self)@ == old(self)@,
            forall|x: u16| final(self).contains_addr(x) == old(self).contains_addr(x),
            old(self).contains_addr(address) ==> final(self).read_of(address) == value
                && final(self).write_of(address) == old(self).write_of(address),
            forall|x: u16|
                x != address && old(self).contains_addr(x) ==> final(self).reg_at(x) == old(
                    self,
                ).reg_at(x),
    {
        match self.find_index(address) {
            Some(i) => {
                let reg = &mut self.regs[i];
                reg.read_value = value;
                proof {
                    lemma_replace_props(
                        old(self)@,
                        address,
                        with_read(old(self).reg_at(address), value),
                    );
                }
                Ok(())
            },
            None => Err(Fault::UnknownAddress(address)),
        }
    }

    /// Overwrites the write value of the register at `address`
    /// unconditionally; total given a valid address.
    pub fn set_write_value(&mut self, address: u16, value: u16) -> (r: Result<(), Fault>)
        requires
            old(self).wf(),
        ensures
            final(self).wf(),
            old(self).contains_addr(address) ==> r == Ok::<(), Fault>(()) && final(self)@
                == spec_replace(old(self)@, address, with_write(old(self).reg_at(address), value)),
            !old(self).contains_addr(address) ==> r == Err::<(), Fault>(
                Fault::UnknownAddress(address),
            ) && final(self)@ == old(self)@,
            forall|x: u16| final(self).contains_addr(x) == old(self).contains_addr(x),
            old(self).contains_addr(address) ==> final(self).write_of(address) == value
                && final(self).read_of(address) == old(self).read_of(address),
            forall|x: u16|
                x != address && old(self).contains_addr(x) ==> final(self).reg_at(x) == old(
                    self,
                ).reg_at(x),
    {
        match self.find_index(address) {
            Some(i) => {
                let reg = &mut self.regs[i];
                reg.write_value = value;
                proof {
                    lemma_replace_props(
                        old(self)@,
                        address,
                        with_write(old(self).reg_at(address), value),
                    );
                }
                Ok(())
            },
            None => Err(Fault::UnknownAddress(address)),
        }
    }

    /// Flips the bit at `index` of the register's write value: the write
    /// value becomes the old one XOR `1 << index`.
    pub fn toggle_write_bit(&mut self, address: u16, index: u16) -> (r: Result<(), Fault>)
        requires
            old(self).wf(),
            index < 16,
        ensures
            final(self).wf(),
            old(self).contains_addr(address) ==> r == Ok::<(), Fault>(()) && final(self)@
                == spec_replace(
                old(self)@,
                address,
                with_write(
                    old(self).reg_at(address),
                    old(self).write_of(address) ^ (1u16 << index),
                ),
            ),
            !old(self).contains_addr(address) ==> r == Err::<(), Fault>(
                Fault::UnknownAddress(address),
            ) && final(self)@ == old(self)@,
            forall|x: u16| final(self).contains_addr(x) == old(self).contains_addr(x),
            old(self).contains_addr(address) ==> final(self).write_of(address) == (old(
                self,
            ).write_of(address) ^ (1u16 << index)) && final(self).read_of(address) == old(
                self,
            ).read_of(address),
            forall|x: u16|
                x != address && old(self).contains_addr(x) ==> final(self).reg_at(x) == old(
                    self,
                ).reg_at(x),
    {
        match self.find_index(address) {
            Some(i) => {
                let mask: u16 = 1u16 << index;
                let reg = &mut self.regs[i];
                reg.write_value = reg.write_value ^ mask;
                proof {
                    lemma_replace_props(
                        old(self)@,
                        address,
                        with_write(
                            old(self).reg_at(address),
                            old(self).write_of(address) ^ (1u16 << index),
                        ),
                    );
                }
                Ok(())
            },
            None => Err(Fault::UnknownAddress(address)),
        }
    }

    /// Sets the register's write value to its current read value.
    pub fn copy_read_to_write(&mut self, address: u16) -> (r: Result<(), Fault>)
        requires
            old(self).wf(),
        ensures
            final(self).wf(),
            old(self).contains_addr(address) ==> r == Ok::<(), Fault>(()) && final(self)@
                == spec_replace(
                old(self)@,
                address,
                with_write(old(self).reg_at(address), old(self).read_of(address)),
            ),
            !old(self).contains_addr(address) ==> r == Err::<(), Fault>(
                Fault::UnknownAddress(address),
            ) && final(self)@ == old(self)@,
            forall|x: u16| final(self).contains_addr(x) == old(self).contains_addr(x),
            old(self).contains_addr(address) ==> final(self).write_of(address) == old(
                self,
            ).read_of(address) && final(self).read_of(address) == old(self).read_of(address),
            forall|x: u16|
                x != address && old(self).contains_addr(x) ==> final(self).reg_at(x) == old(
                    self,
                ).reg_at(x),
    {
        match self.find_index(address) {
            Some(i) => {
                let value = self.regs[i].read_value;
                let reg = &mut self.regs[i];
                reg.write_value = value;
                proof {
                    lemma_replace_props(
                        old(self)@,
                        address,
                        with_write(old(self).reg_at(address), old(self).read_of(address)),
                    );
                }
                Ok(())
            },
            None => Err(Fault::UnknownAddress(address)),
        }
    }

    /// Puts `reg` into the map: a register with the same address is
    /// replaced, any other address is inserted keeping the ascending
    /// order. Registers are only ever added, never removed.
    pub fn insert(&mut self, reg: Register)
        requires
            old(self).wf(),
        ensures
            final(self).wf(),
            final(self).contains_addr(reg.address),
            final(self).reg_at(reg.address) == reg,
            forall|x: u16|
                x != reg.address ==> final(self).contains_addr(x) == old(self).contains_addr(x),
            forall|x: u16|
                x != reg.address && old(self).contains_addr(x) ==> final(self).reg_at(x) == old(
                    self,
                ).reg_at(x),
            old(self).contains_addr(reg.address) ==> final(self)@.len() == old(self)@.len(),
            !old(self).contains_addr(reg.address) ==> final(self)@.len() == old(self)@.len() + 1,
    {
        let mut i: usize = 0;
        while i < self.regs.len() && self.regs[i].address < reg.address
            invariant
                i <= self@.len(),
                forall|k: int| 0 <= k < i ==> self@[k].address < reg.address,
                self.wf(),
                self@ == old(self)@,
            decreases self@.len() - i,
        {
            i += 1;
        }
        if i < self.regs.len() && self.regs[i].address == reg.address {
            proof {
                assert(spec_contains(self@, reg.address));
                lemma_find_props(self@, reg.address);
                lemma_replace_props(self@, reg.address, reg);
            }
            let slot = &mut self.regs[i];
            *slot = reg;
        } else {
            proof {
                assert forall|k: int| i <= k < self@.len() implies self@[k].address
                    > reg.address by {
                    if k > i {
                        assert(self@[i as int].address < self@[k].address);
                    }
                }
                lemma_insert_at_props(self@, i as int, reg);
            }
            self.regs.insert(i, reg);
        }
    }

    /// How many registers the map holds.
    pub fn len(&self) -> (n: usize)
        ensures
            n == self@.len(),
    {
        self.regs.len()
    }

    /// The register at position `i` of the ascending-address order; the
    /// presentation layer iterates with this.
    pub fn at(&self, i: usize) -> (r: &Register)
        requires
            i < self@.len(),
        ensures
            *r == self@[i as int],
    {
        &self.regs[i]
    }
}

} // verus!

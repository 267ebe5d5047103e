//! The processor status register: seven named flags plus a bit that is
//! always one whenever the register is read or written as a whole byte.
use vstd::prelude::*;

verus! {

/// One named bit of the status register.
#[derive(Clone, Copy, Debug, PartialEq, Eq, Structural)]
pub enum Flag {
    Carry,
    Zero,
    InterruptDisable,
    DecimalMode,
    Break,
    Overflow,
    Negative,
}

/// The bit that is always set when the register is packed into a byte.
pub const CONSTANT_BIT: u8 = 0x20;

/// The mask of a flag's bit in the packed byte.
pub open spec fn flag_mask(f: Flag) -> u8 {
    match f {
        Flag::Carry => 0x01u8,
        Flag::Zero => 0x02u8,
        Flag::InterruptDisable => 0x04u8,
        Flag::DecimalMode => 0x08u8,
        Flag::Break => 0x10u8,
        Flag::Overflow => 0x40u8,
        Flag::Negative => 0x80u8,
    }
}

/// Eight independent flags, the constant one being implicit.
#[derive(Clone, Copy, Debug, PartialEq, Eq, Structural)]
pub struct StatusRegister {
    pub carry: bool,
    pub zero: bool,
    pub interrupt_disable: bool,
    pub decimal_mode: bool,
    pub brk: bool,
    pub overflow: bool,
    pub negative: bool,
}

impl StatusRegister {
    /// Whether flag `f` is set.
    pub open spec fn has(self, f: Flag) -> bool {
        match f {
            Flag::Carry => self.carry,
            Flag::Zero => self.zero,
            Flag::InterruptDisable => self.interrupt_disable,
            Flag::DecimalMode => self.decimal_mode,
            Flag::Break => self.brk,
            Flag::Overflow => self.overflow,
            Flag::Negative => self.negative,
        }
    }

    /// The register with flag `f` set to `v` and every other flag kept.
    pub open spec fn with(self, f: Flag, v: bool) -> StatusRegister {
        match f {
            Flag::Carry => StatusRegister { carry: v, ..self },
            Flag::Zero => StatusRegister { zero: v, ..self },
            Flag::InterruptDisable => StatusRegister { interrupt_disable: v, ..self },
            Flag::DecimalMode => StatusRegister { decimal_mode: v, ..self },
            Flag::Break => StatusRegister { brk: v, ..self },
            Flag::Overflow => StatusRegister { overflow: v, ..self },
            Flag::Negative => StatusRegister { negative: v, ..self },
        }
    }

    /// The packed byte: each flag at its mask, the constant bit set.
    pub open spec fn packed(self) -> u8 {
        (if self.carry { 0x01u8 } else { 0u8 }) | (if self.zero { 0x02u8 } else { 0u8 }) | (
        if self.interrupt_disable {
            0x04u8
        } else {
            0u8
        }) | (if self.decimal_mode { 0x08u8 } else { 0u8 }) | (if self.brk {
            0x10u8
        } else {
            0u8
        }) | CONSTANT_BIT | (if self.overflow { 0x40u8 } else { 0u8 }) | (if self.negative {
            0x80u8
        } else {
            0u8
        })
    }

    /// The flags that a byte holds; its constant bit is ignored.
    pub open spec fn unpacked(b: u8) -> StatusRegister {
        StatusRegister {
            carry: b & 0x01u8 != 0,
            zero: b & 0x02u8 != 0,
            interrupt_disable: b & 0x04u8 != 0,
            decimal_mode: b & 0x08u8 != 0,
            brk: b & 0x10u8 != 0,
            overflow: b & 0x40u8 != 0,
            negative: b & 0x80u8 != 0,
        }
    }

    /// The register with every flag clear.
    pub open spec fn spec_empty() -> StatusRegister {
        StatusRegister {
            carry: false,
            zero: false,
            interrupt_disable: false,
            decimal_mode: false,
            brk: false,
            overflow: false,
            negative: false,
        }
    }

    /// A register with every flag clear.
    pub fn empty() -> (r: StatusRegister)
        ensures
            r == StatusRegister::spec_empty(),
            forall|f: Flag| !#[trigger] r.has(f),
    {
        StatusRegister {
            carry: false,
            zero: false,
            interrupt_disable: false,
            decimal_mode: false,
            brk: false,
            overflow: false,
            negative: false,
        }
    }

    /// Tests one flag.
    pub fn contains(&self, f: Flag) -> (r: bool)
        ensures
            r == self.has(f),
    {
        match f {
            Flag::Carry => self.carry,
            Flag::Zero => self.zero,
            Flag::InterruptDisable => self.interrupt_disable,
            Flag::DecimalMode => self.decimal_mode,
            Flag::Break => self.brk,
            Flag::Overflow => self.overflow,
            Flag::Negative => self.negative,
        }
    }

    /// Sets or clears one flag, leaving the others as they were.
    pub fn set(&mut self, f: Flag, v: bool)
        ensures
            *final(self) == old(self).with(f, v),
            final(self).has(f) == v,
            forall|g: Flag| g != f ==> #[trigger] final(self).has(g) == old(self).has(g),
    {
        match f {
            Flag::Carry => self.carry = v,
            Flag::Zero => self.zero = v,
            Flag::InterruptDisable => self.interrupt_disable = v,
            Flag::DecimalMode => self.decimal_mode = v,
            Flag::Break => self.brk = v,
            Flag::Overflow => self.overflow = v,
            Flag::Negative => self.negative = v,
        }
    }

    /// Sets one flag.
    pub fn insert(&mut self, f: Flag)
        ensures
            *final(self) == old(self).with(f, true),
    {
        self.set(f, true);
    }

    /// Clears one flag.
    pub fn remove(&mut self, f: Flag)
        ensures
            *final(self) == old(self).with(f, false),
    {
        self.set(f, false);
    }

    /// Packs the flags into one byte, the constant bit forced to one.
    pub fn as_byte(&self) -> (r: u8)
        ensures
            r == self.packed(),
            r & CONSTANT_BIT != 0,
            forall|f: Flag| (r & #[trigger] flag_mask(f) != 0) == self.has(f),
    {
        let b: u8 = (if self.carry { 0x01u8 } else { 0u8 }) | (if self.zero { 0x02u8 } else { 0u8 })
            | (if self.interrupt_disable { 0x04u8 } else { 0u8 }) | (if self.decimal_mode {
            0x08u8
        } else {
            0u8
        }) | (if self.brk { 0x10u8 } else { 0u8 }) | CONSTANT_BIT | (if self.overflow {
            0x40u8
        } else {
            0u8
        }) | (if self.negative { 0x80u8 } else { 0u8 });
        proof {
            lemma_packed_bits(*self);
        }
        b
    }

    /// Unpacks a byte into the flags; whatever the byte's constant bit
    /// holds, it reads back as one.
    pub fn from_byte(b: u8) -> (r: StatusRegister)
        ensures
            r == StatusRegister::unpacked(b),
            forall|f: Flag| #[trigger] r.has(f) == (b & flag_mask(f) != 0),
    {
        StatusRegister {
            carry: b & 0x01 != 0,
            zero: b & 0x02 != 0,
            interrupt_disable: b & 0x04 != 0,
            decimal_mode: b & 0x08 != 0,
            brk: b & 0x10 != 0,
            overflow: b & 0x40 != 0,
            negative: b & 0x80 != 0,
        }
    }
}

/// Each flag of the packed byte reads back as the flag itself, and the
/// constant bit is set.
pub proof fn lemma_packed_bits(s: StatusRegister)
    ensures
        s.packed() & CONSTANT_BIT != 0,
        forall|f: Flag| (s.packed() & #[trigger] flag_mask(f) != 0) == s.has(f),
{
    let (c, z, i, d, k, v, n) = (s.carry, s.zero, s.interrupt_disable, s.decimal_mode, s.brk, s.overflow, s.negative);
    let p = s.packed();
    assert(p == (if c { 0x01u8 } else { 0u8 }) | (if z { 0x02u8 } else { 0u8 }) | (if i { 0x04u8 } else { 0u8 }) | (if d { 0x08u8 } else { 0u8 }) | (if k { 0x10u8 } else { 0u8 }) | 0x20u8 | (if v { 0x40u8 } else { 0u8 }) | (if n { 0x80u8 } else { 0u8 }));
    assert(p & 0x20u8 != 0 && (p & 0x01u8 != 0) == c && (p & 0x02u8 != 0) == z && (p & 0x04u8 != 0) == i && (p & 0x08u8 != 0) == d && (p & 0x10u8 != 0) == k && (p & 0x40u8 != 0) == v && (p & 0x80u8 != 0) == n) by (bit_vector)
        requires
            p == (if c { 0x01u8 } else { 0u8 }) | (if z { 0x02u8 } else { 0u8 }) | (if i { 0x04u8 } else { 0u8 }) | (if d { 0x08u8 } else { 0u8 }) | (if k { 0x10u8 } else { 0u8 }) | 0x20u8 | (if v { 0x40u8 } else { 0u8 }) | (if n { 0x80u8 } else { 0u8 });
}

} // verus!

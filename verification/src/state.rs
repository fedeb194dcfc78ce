//! The status-flag register and the CPU register file.

use vstd::prelude::*;

verus! {

/// One of the eight status bits packed into the status register byte.
#[derive(Clone, Copy, PartialEq, Eq, Structural, Debug)]
pub enum Flag {
    Carry,
    Zero,
    Interrupt,
    Decimal,
    Break,
    Unused,
    Overflow,
    Negative,
}

/// The single-bit mask a flag occupies in the status byte: Carry is bit 0,
/// Zero bit 1, Interrupt-disable bit 2, Decimal bit 3, Break bit 4, the
/// conventionally-unused bit 5, Overflow bit 6 and Negative bit 7.
pub open spec fn flag_mask(f: Flag) -> u8 {
    match f {
        Flag::Carry => 0x01,
        Flag::Zero => 0x02,
        Flag::Interrupt => 0x04,
        Flag::Decimal => 0x08,
        Flag::Break => 0x10,
        Flag::Unused => 0x20,
        Flag::Overflow => 0x40,
        Flag::Negative => 0x80,
    }
}

/// Whether a flag's bit is set in the status byte `sr`.
pub open spec fn flag_set(sr: u8, f: Flag) -> bool {
    sr & flag_mask(f) == flag_mask(f)
}

/// The status byte `sr` with exactly the flag `f` forced to `v` and every
/// other bit untouched.
pub open spec fn with_flag(sr: u8, f: Flag, v: bool) -> u8 {
    if v {
        sr | flag_mask(f)
    } else {
        sr & !flag_mask(f)
    }
}

/// Setting one single-bit mask leaves reads through any other single-bit mask
/// unchanged, and reads through the same mask give the written value.
proof fn lemma_mask_bits(sr: u8, m1: u8, m2: u8)
    requires
        m1 == 1 || m1 == 2 || m1 == 4 || m1 == 8 || m1 == 16 || m1 == 32 || m1 == 64 || m1 == 128,
        m2 == 1 || m2 == 2 || m2 == 4 || m2 == 8 || m2 == 16 || m2 == 32 || m2 == 64 || m2 == 128,
    ensures
        m1 == m2 ==> ((sr | m1) & m2 == m2) && ((sr & !m1) & m2 != m2),
        m1 != m2 ==> (((sr | m1) & m2 == m2) == (sr & m2 == m2)) && (((sr & !m1) & m2 == m2) == (
        sr & m2 == m2)),
{
    assert((m1 == m2 ==> ((sr | m1) & m2 == m2) && ((sr & !m1) & m2 != m2)) && (m1 != m2 ==> (((sr
        | m1) & m2 == m2) == (sr & m2 == m2)) && (((sr & !m1) & m2 == m2) == (sr & m2 == m2))))
        by (bit_vector)
        requires
            m1 == 1 || m1 == 2 || m1 == 4 || m1 == 8 || m1 == 16 || m1 == 32 || m1 == 64 || m1
                == 128,
            m2 == 1 || m2 == 2 || m2 == 4 || m2 == 8 || m2 == 16 || m2 == 32 || m2 == 64 || m2
                == 128,
    ;
}

/// Writing one flag changes that flag's reading to the written value and no
/// other flag's reading.
pub broadcast proof fn lemma_flag_of_with_flag(sr: u8, f: Flag, v: bool, g: Flag)
    ensures
        #[trigger] flag_set(with_flag(sr, f, v), g) == (if g == f {
            v
        } else {
            flag_set(sr, g)
        }),
{
    lemma_mask_bits(sr, flag_mask(f), flag_mask(g));
}

impl Flag {
    /// The bit mask this flag occupies in the status byte.
    fn mask(self) -> (r: u8)
        ensures
            r == flag_mask(self),
    {
        match self {
            Flag::Carry => 0x01,
            Flag::Zero => 0x02,
            Flag::Interrupt => 0x04,
            Flag::Decimal => 0x08,
            Flag::Break => 0x10,
            Flag::Unused => 0x20,
            Flag::Overflow => 0x40,
            Flag::Negative => 0x80,
        }
    }

    /// Whether the flag's bit is set in the status byte `reg`.
    pub fn get(flag: Flag, reg: u8) -> (r: bool)
        ensures
            r == flag_set(reg, flag),
    {
        let mask: u8 = flag.mask();
        (reg & mask) == mask
    }

    /// Sets or clears exactly this flag's bit in `reg`, leaving all the other
    /// bits untouched.
    pub fn set(flag: Flag, reg: &mut u8, cond: bool)
        ensures
            *final(reg) == with_flag(*old(reg), flag, cond),
    {
        let mask: u8 = flag.mask();
        if cond {
            *reg |= mask;
        } else {
            *reg &= !mask;
        }
    }
}

/// The register file: program counter, accumulator, the two index registers,
/// status byte, stack pointer and the halted flag.
#[derive(Clone, Copy, PartialEq, Eq, Structural, Debug)]
pub struct CPUState {
    pub pc: u16,
    pub a: u8,
    pub x: u8,
    pub y: u8,
    pub sr: u8,
    pub sp: u8,
    pub halted: bool,
}

impl CPUState {
    /// The reset state: every register and flag zero, not halted.
    pub fn new() -> (s: CPUState)
        ensures
            s == (CPUState { pc: 0, a: 0, x: 0, y: 0, sr: 0, sp: 0, halted: false }),
    {
        CPUState { pc: 0, a: 0, x: 0, y: 0, sr: 0, sp: 0, halted: false }
    }

    /// Whether `flag` is set in the status register.
    pub fn get_flag(&self, flag: Flag) -> (r: bool)
        ensures
            r == flag_set(self.sr, flag),
    {
        Flag::get(flag, self.sr)
    }

    /// Sets or clears exactly `flag` in the status register; no other flag and
    /// no other register changes.
    pub fn set_flag(&mut self, flag: Flag, val: bool)
        ensures
            *final(self) == (CPUState { sr: with_flag(old(self).sr, flag, val), ..*old(self) }),
    {
        Flag::set(flag, &mut self.sr, val);
    }
}

} // verus!

//! Addressing-mode resolution: from the mode selector and the registers to an
//! effective address, the page-cross cycle penalty and the instruction length.

use vstd::prelude::*;

use crate::memory::Memory;

verus! {

/// The outcome of resolving an addressing mode: the effective operand address,
/// the extra cycle (0 or 1) a page crossing costs, and the whole instruction's
/// length in bytes including the opcode byte.
#[derive(Clone, Copy, PartialEq, Eq, Structural, Debug)]
pub struct ResolvedOperand {
    pub address: u16,
    pub extra_cycles: u8,
    pub length: u16,
}

/// `v` reduced to the 16-bit address space.
pub open spec fn w16(v: int) -> u16 {
    (v % 0x10000) as u16
}

/// The byte one past the opcode, the operand low byte; the fetch wraps at the
/// top of the address space.
pub open spec fn operand_lo(m: Seq<u8>, pc: u16) -> u8 {
    m[w16(pc + 1) as int]
}

/// The byte two past the opcode, the operand high byte.
pub open spec fn operand_hi(m: Seq<u8>, pc: u16) -> u8 {
    m[w16(pc + 2) as int]
}

/// The 16-bit little-endian word fetched from zero page at `zp`; the high-byte
/// fetch wraps within the zero page.
pub open spec fn zp_word(m: Seq<u8>, zp: u8) -> int {
    m[zp as int] + 256 * m[((zp + 1) % 256) as int]
}

/// One extra cycle when the indexed address `addr` left the page of the
/// unindexed `base`, that is when their high bytes differ.
pub open spec fn page_cross(base: int, addr: u16) -> u8 {
    if addr / 256 != base / 256 {
        1
    } else {
        0
    }
}

/// The base cycle cost of each addressing mode, before any page-cross penalty.
pub open spec fn spec_mode_cycles(sel: int) -> int {
    if sel == 0 {
        6
    } else if sel == 1 {
        3
    } else if sel == 2 {
        2
    } else if sel == 4 {
        5
    } else {
        4
    }
}

/// The effective address, page-cross penalty and instruction length of each
/// addressing mode, from the mode selector `sel`, the registers and memory:
///
/// - 0, `(zp,X)`: the pointer is `lo + X` wrapped within the zero page, and
///   the address is the word fetched there (its high-byte fetch wraps too);
/// - 1, `zp`: the address is the operand low byte;
/// - 2, immediate: the address is the operand byte's own location;
/// - 3, `abs`: the address is the 16-bit operand word;
/// - 4, `(zp),Y`: the base is the word fetched at zero-page `lo` (the fetch
///   wraps in the zero page) and Y is added modulo the address space, with one
///   extra cycle when the add leaves the base's page;
/// - 5, `zp,X`: `lo + X` wrapped within the zero page;
/// - 6 and 7, `abs,Y` and `abs,X`: the index is added to the operand word
///   modulo the address space, with one extra cycle on a page crossing.
pub open spec fn spec_resolve(m: Seq<u8>, pc: u16, x: u8, y: u8, sel: int) -> ResolvedOperand {
    let lo = operand_lo(m, pc);
    let hi = operand_hi(m, pc);
    let base = lo + 256 * hi;
    if sel == 0 {
        let ptr = ((lo + x) % 256) as u8;
        ResolvedOperand { address: zp_word(m, ptr) as u16, extra_cycles: 0, length: 2 }
    } else if sel == 1 {
        ResolvedOperand { address: lo as u16, extra_cycles: 0, length: 2 }
    } else if sel == 2 {
        ResolvedOperand { address: w16(pc + 1), extra_cycles: 0, length: 2 }
    } else if sel == 3 {
        ResolvedOperand { address: base as u16, extra_cycles: 0, length: 3 }
    } else if sel == 4 {
        let b = zp_word(m, lo);
        let addr = w16(b + y);
        ResolvedOperand { address: addr, extra_cycles: page_cross(b, addr), length: 2 }
    } else if sel == 5 {
        ResolvedOperand { address: ((lo + x) % 256) as u16, extra_cycles: 0, length: 2 }
    } else if sel == 6 {
        let addr = w16(base + y);
        ResolvedOperand { address: addr, extra_cycles: page_cross(base, addr), length: 3 }
    } else {
        let addr = w16(base + x);
        ResolvedOperand { address: addr, extra_cycles: page_cross(base, addr), length: 3 }
    }
}

/// The base cycle cost of the addressing mode `sel`.
pub fn mode_base_cycles(sel: u8) -> (r: u8)
    requires
        sel < 8,
    ensures
        r == spec_mode_cycles(sel as int),
{
    if sel == 0 {
        6
    } else if sel == 1 {
        3
    } else if sel == 2 {
        2
    } else if sel == 4 {
        5
    } else {
        4
    }
}

/// The 16-bit little-endian word at zero-page address `zp`; the high-byte
/// fetch wraps within the zero page.
fn fetch_zp_word(mem: &Memory, zp: u8) -> (r: u16)
    ensures
        r == zp_word(mem@, zp),
{
    let al: u8 = mem.read(zp as u16);
    let ah: u8 = mem.read(zp.wrapping_add(1) as u16);
    al as u16 + 256 * (ah as u16)
}

/// `base` plus the index byte, modulo the address space, with the page-cross
/// penalty against `base`'s page.
fn index_absolute(base: u16, index: u8) -> (r: (u16, u8))
    ensures
        r.0 == w16(base + index),
        r.1 == page_cross(base as int, w16(base + index)),
{
    let addr: u16 = base.wrapping_add(index as u16);
    let penalty: u8 = if addr / 256 != base / 256 {
        1
    } else {
        0
    };
    (addr, penalty)
}

/// Resolves the addressing mode `sel` against the registers and memory. The
/// two bytes after the opcode are always fetched, whether or not the mode
/// consumes them, so every mode's memory traffic is uniform.
#[verifier::rlimit(30)]
pub fn resolve(mem: &Memory, pc: u16, x: u8, y: u8, sel: u8) -> (r: ResolvedOperand)
    requires
        sel < 8,
    ensures
        r == spec_resolve(mem@, pc, x, y, sel as int),
{
    let lo: u8 = mem.read(pc.wrapping_add(1));
    let hi: u8 = mem.read(pc.wrapping_add(2));
    proof {
        assert(pc.wrapping_add(1) == w16(pc + 1));
        assert(pc.wrapping_add(2) == w16(pc + 2));
        assert(lo == operand_lo(mem@, pc));
        assert(hi == operand_hi(mem@, pc));
    }
    let abs_base: u16 = lo as u16 + 256 * (hi as u16);
    if sel == 0 {
        let ptr: u8 = lo.wrapping_add(x);
        proof {
            assert(ptr as int == (lo + x) % 256);
        }
        let address: u16 = fetch_zp_word(mem, ptr);
        ResolvedOperand { address, extra_cycles: 0, length: 2 }
    } else if sel == 1 {
        ResolvedOperand { address: lo as u16, extra_cycles: 0, length: 2 }
    } else if sel == 2 {
        ResolvedOperand { address: pc.wrapping_add(1), extra_cycles: 0, length: 2 }
    } else if sel == 3 {
        ResolvedOperand { address: abs_base, extra_cycles: 0, length: 3 }
    } else if sel == 4 {
        let base: u16 = fetch_zp_word(mem, lo);
        let (address, extra_cycles) = index_absolute(base, y);
        ResolvedOperand { address, extra_cycles, length: 2 }
    } else if sel == 5 {
        let ptr: u8 = lo.wrapping_add(x);
        proof {
            assert(ptr as int == (lo + x) % 256);
        }
        ResolvedOperand { address: ptr as u16, extra_cycles: 0, length: 2 }
    } else if sel == 6 {
        let (address, extra_cycles) = index_absolute(abs_base, y);
        ResolvedOperand { address, extra_cycles, length: 3 }
    } else {
        let (address, extra_cycles) = index_absolute(abs_base, x);
        ResolvedOperand { address, extra_cycles, length: 3 }
    }
}

} // verus!

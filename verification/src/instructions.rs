//! The instruction effects on the register file.
//!
//! Each executable function here applies one operation's documented effect to
//! the registers and status flags. None of them reads or writes memory, and
//! none of them moves the program counter except the control-transfer
//! operations (branches and jumps): the step engine resolves operands, reads
//! and writes memory, and advances the program counter around these calls.
//!
//! Each function's contract pins the whole new register file as a spec-level
//! function of the old one, so the step engine's own contract can be stated
//! over the same spec functions.

use vstd::prelude::*;

use crate::state::CPUState;
use crate::state::Flag;
use crate::state::flag_set;
use crate::state::with_flag;

verus! {

/// Whether bit 7, the sign bit, of `v` is set.
pub open spec fn negative(v: u8) -> bool {
    v >= 0x80
}

/// The status byte with Zero set from `r == 0` and Negative from `r`'s sign
/// bit; the other six flags are untouched.
pub open spec fn sr_nz(sr: u8, r: u8) -> u8 {
    with_flag(with_flag(sr, Flag::Zero, r == 0), Flag::Negative, negative(r))
}

/// `sr_nz` and then Carry set to `c`.
pub open spec fn sr_nzc(sr: u8, r: u8, c: bool) -> u8 {
    with_flag(sr_nz(sr, r), Flag::Carry, c)
}

/// `sr_nzc` and then Overflow set to `v`.
pub open spec fn sr_nzcv(sr: u8, r: u8, c: bool, v: bool) -> u8 {
    with_flag(sr_nzc(sr, r, c), Flag::Overflow, v)
}

/// The full nine-bit sum of the add-with-carry chain.
pub open spec fn adc_sum(a: u8, b: u8, c: bool) -> int {
    a + b + (if c {
        1int
    } else {
        0int
    })
}

/// The low eight bits of the add-with-carry sum.
pub open spec fn adc_result(a: u8, b: u8, c: bool) -> u8 {
    (adc_sum(a, b, c) % 256) as u8
}

/// Whether the add-with-carry sum does not fit in eight bits.
pub open spec fn adc_carry_out(a: u8, b: u8, c: bool) -> bool {
    adc_sum(a, b, c) > 255
}

/// Signed overflow of the add-with-carry chain: the operands agree in sign and
/// the result's sign differs from theirs.
pub open spec fn adc_overflow(a: u8, b: u8, c: bool) -> bool {
    negative(a) == negative(b) && negative(adc_result(a, b, c)) != negative(a)
}

/// The register file after ADC of `a` and `b` with the carry flag of `s` as
/// carry-in: the truncated sum lands in the accumulator, Zero and Negative
/// follow the result, Carry is the ninth sum bit, Overflow the signed-overflow
/// rule.
pub open spec fn adc_state(s: CPUState, a: u8, b: u8) -> CPUState {
    let c = flag_set(s.sr, Flag::Carry);
    let r = adc_result(a, b, c);
    CPUState {
        a: r,
        sr: sr_nzcv(s.sr, r, adc_carry_out(a, b, c), adc_overflow(a, b, c)),
        ..s
    }
}

/// The one's complement of `b`.
pub open spec fn ones_complement(b: u8) -> u8 {
    (255 - b) as u8
}

/// The register file after SBC of `b` from `a`: ADC of the one's complement of
/// `b`, with the same carry chain and the same flag rules.
pub open spec fn sbc_state(s: CPUState, a: u8, b: u8) -> CPUState {
    adc_state(s, a, ones_complement(b))
}

/// The register file after a bitwise operation whose result is `r`: the
/// accumulator takes `r`, Zero and Negative follow it, Carry and Overflow are
/// untouched.
pub open spec fn logic_state(s: CPUState, r: u8) -> CPUState {
    CPUState { a: r, sr: sr_nz(s.sr, r), ..s }
}

pub open spec fn ora_state(s: CPUState, a: u8, b: u8) -> CPUState {
    logic_state(s, a | b)
}

pub open spec fn and_state(s: CPUState, a: u8, b: u8) -> CPUState {
    logic_state(s, a & b)
}

pub open spec fn eor_state(s: CPUState, a: u8, b: u8) -> CPUState {
    logic_state(s, a ^ b)
}

/// The wrapped difference `a - m`, the byte the compare flags are taken from.
pub open spec fn cmp_diff(a: u8, m: u8) -> u8 {
    ((a - m) % 256) as u8
}

/// The register file after a compare of `a` against `m`: no register changes;
/// Zero and Negative follow the wrapped difference, and Carry is set exactly
/// when no borrow occurred, that is when `a >= m`.
pub open spec fn cmp_state(s: CPUState, a: u8, m: u8) -> CPUState {
    CPUState { sr: sr_nzc(s.sr, cmp_diff(a, m), a >= m), ..s }
}

/// The register file after a read-modify-write step whose result byte is `r`
/// and whose carry-out is `c`: only the flags change; the result byte itself
/// goes back to the accumulator or to memory by the caller.
pub open spec fn shift_state(s: CPUState, r: u8, c: bool) -> CPUState {
    CPUState { sr: sr_nzc(s.sr, r, c), ..s }
}

/// The register file with only Zero and Negative refreshed from `r`.
pub open spec fn nz_state(s: CPUState, r: u8) -> CPUState {
    CPUState { sr: sr_nz(s.sr, r), ..s }
}

/// `v` shifted left one bit; bit 0 of the result is 0.
pub open spec fn asl_result(v: u8) -> u8 {
    ((v % 128) * 2) as u8
}

/// Whether a left shift or rotate of `v` carries out, that is bit 7 of `v`.
pub open spec fn high_bit(v: u8) -> bool {
    v >= 128
}

/// `v` shifted right one bit; bit 7 of the result is 0, so the result is never
/// negative.
pub open spec fn lsr_result(v: u8) -> u8 {
    v / 2
}

/// Whether a right shift or rotate of `v` carries out, that is bit 0 of `v`.
pub open spec fn low_bit(v: u8) -> bool {
    v % 2 == 1
}

/// `v` rotated left one bit through the carry: the old carry becomes bit 0.
pub open spec fn rol_result(v: u8, c: bool) -> u8 {
    ((v % 128) * 2 + (if c {
        1int
    } else {
        0int
    })) as u8
}

/// `v` rotated right one bit through the carry: the old carry becomes bit 7.
pub open spec fn ror_result(v: u8, c: bool) -> u8 {
    (v / 2 + (if c {
        128int
    } else {
        0int
    })) as u8
}

/// `v` plus one, wrapping at 256.
pub open spec fn inc_result(v: u8) -> u8 {
    ((v + 1) % 256) as u8
}

/// `v` minus one, wrapping below zero.
pub open spec fn dec_result(v: u8) -> u8 {
    ((v + 255) % 256) as u8
}

/// The register file after BIT against `m`: Negative and Overflow are copied
/// from bits 7 and 6 of the operand, Zero is set when the operand masks the
/// accumulator to zero, and no register changes.
pub open spec fn bit_state(s: CPUState, m: u8) -> CPUState {
    CPUState {
        sr: with_flag(
            with_flag(with_flag(s.sr, Flag::Zero, s.a & m == 0), Flag::Negative, negative(m)),
            Flag::Overflow,
            m & 0x40 == 0x40,
        ),
        ..s
    }
}

/// The status byte after PLP of `status`: Break and Unused (bits 4 and 5) keep
/// their old values, every other flag is loaded from `status`.
pub open spec fn plp_sr(sr: u8, status: u8) -> u8 {
    (sr & 0x30) | (status & 0xCF)
}

/// The target of a relative branch: the signed eight-bit offset added to the
/// program counter with ordinary signed addition modulo 65536.
pub open spec fn branch_target(pc: u16, offset: i8) -> u16 {
    ((pc + offset) % 0x10000) as u16
}

/// The register file after a branch: when `taken`, only the program counter
/// moves, to the offset target; otherwise nothing changes. Flags are never
/// touched by a branch.
pub open spec fn branch_state(s: CPUState, taken: bool, offset: i8) -> CPUState {
    if taken {
        CPUState { pc: branch_target(s.pc, offset), ..s }
    } else {
        s
    }
}

pub open spec fn tax_state(s: CPUState) -> CPUState {
    CPUState { x: s.a, sr: sr_nz(s.sr, s.a), ..s }
}

pub open spec fn tay_state(s: CPUState) -> CPUState {
    CPUState { y: s.a, sr: sr_nz(s.sr, s.a), ..s }
}

pub open spec fn tsx_state(s: CPUState) -> CPUState {
    CPUState { x: s.sp, sr: sr_nz(s.sr, s.sp), ..s }
}

pub open spec fn txa_state(s: CPUState) -> CPUState {
    CPUState { a: s.x, sr: sr_nz(s.sr, s.x), ..s }
}

/// TXS copies X to the stack pointer and, unlike the other transfers, touches
/// no flag.
pub open spec fn txs_state(s: CPUState) -> CPUState {
    CPUState { sp: s.x, ..s }
}

pub open spec fn tya_state(s: CPUState) -> CPUState {
    CPUState { a: s.y, sr: sr_nz(s.sr, s.y), ..s }
}

pub open spec fn inx_state(s: CPUState, v: u8) -> CPUState {
    CPUState { x: inc_result(v), sr: sr_nz(s.sr, inc_result(v)), ..s }
}

pub open spec fn iny_state(s: CPUState, v: u8) -> CPUState {
    CPUState { y: inc_result(v), sr: sr_nz(s.sr, inc_result(v)), ..s }
}

pub open spec fn dex_state(s: CPUState, v: u8) -> CPUState {
    CPUState { x: dec_result(v), sr: sr_nz(s.sr, dec_result(v)), ..s }
}

pub open spec fn dey_state(s: CPUState, v: u8) -> CPUState {
    CPUState { y: dec_result(v), sr: sr_nz(s.sr, dec_result(v)), ..s }
}

/// Signed overflow of an eight-bit add: the operands agree in sign and the
/// result `res` does not.
fn will_overflow(a: u8, b: u8, res: u8) -> (r: bool)
    ensures
        r == (negative(a) == negative(b) && negative(res) != negative(a)),
{
    ((a >= 0x80) == (b >= 0x80)) && ((res >= 0x80) != (a >= 0x80))
}

/// Add with carry: the nine-bit sum of `a`, `b` and the carry flag lands in
/// the accumulator truncated to eight bits; Zero and Negative follow the
/// result, Carry is the ninth bit of the sum, and Overflow follows the signed
/// two's-complement rule.
pub fn adc(state: &mut CPUState, a: u8, b: u8)
    ensures
        *final(state) == adc_state(*old(state), a, b),
{
    let c = state.get_flag(Flag::Carry);
    let a16: u16 = a as u16 + b as u16 + (if c {
        1u16
    } else {
        0u16
    });
    let res: u8 = (a16 % 256) as u8;
    let v = will_overflow(a, b, res);
    state.set_flag(Flag::Zero, res == 0);
    state.set_flag(Flag::Negative, res >= 0x80);
    state.set_flag(Flag::Carry, a16 > 255);
    state.set_flag(Flag::Overflow, v);
    state.a = res;
}

/// Subtract with carry: ADC of the one's complement of `b`, so a set carry
/// means "no borrow".
pub fn sbc(state: &mut CPUState, a: u8, b: u8)
    ensures
        *final(state) == sbc_state(*old(state), a, b),
{
    adc(state, a, 255 - b);
}

/// Bitwise AND into the accumulator; Zero and Negative follow the result.
pub fn and(state: &mut CPUState, a: u8, b: u8)
    ensures
        *final(state) == and_state(*old(state), a, b),
{
    let res: u8 = a & b;
    state.set_flag(Flag::Zero, res == 0);
    state.set_flag(Flag::Negative, res >= 0x80);
    state.a = res;
}

/// Bitwise OR into the accumulator; Zero and Negative follow the result.
pub fn ora(state: &mut CPUState, a: u8, b: u8)
    ensures
        *final(state) == ora_state(*old(state), a, b),
{
    let res: u8 = a | b;
    state.set_flag(Flag::Zero, res == 0);
    state.set_flag(Flag::Negative, res >= 0x80);
    state.a = res;
}

/// Bitwise exclusive OR into the accumulator; Zero and Negative follow the
/// result.
pub fn eor(state: &mut CPUState, a: u8, b: u8)
    ensures
        *final(state) == eor_state(*old(state), a, b),
{
    let res: u8 = a ^ b;
    state.set_flag(Flag::Zero, res == 0);
    state.set_flag(Flag::Negative, res >= 0x80);
    state.a = res;
}

/// Compare `a` with `m` without storing the difference: Zero when equal,
/// Negative from the wrapped difference's sign bit, Carry set exactly when no
/// borrow occurred (`a >= m`).
pub fn cmp(state: &mut CPUState, a: u8, m: u8)
    ensures
        *final(state) == cmp_state(*old(state), a, m),
{
    let res: u8 = a.wrapping_sub(m);
    state.set_flag(Flag::Zero, res == 0);
    state.set_flag(Flag::Negative, res >= 0x80);
    state.set_flag(Flag::Carry, a >= m);
}

/// Compare the X register with `m`; same flag rules as `cmp`.
pub fn cpx(state: &mut CPUState, x: u8, m: u8)
    ensures
        *final(state) == cmp_state(*old(state), x, m),
{
    cmp(state, x, m);
}

/// Compare the Y register with `m`; same flag rules as `cmp`.
pub fn cpy(state: &mut CPUState, y: u8, m: u8)
    ensures
        *final(state) == cmp_state(*old(state), y, m),
{
    cmp(state, y, m);
}

/// Arithmetic shift left of `a`: Carry takes the old bit 7, bit 0 of the
/// result is 0, Zero and Negative follow the result. The shifted byte is
/// returned for the caller to store.
pub fn asl(state: &mut CPUState, a: u8) -> (r: u8)
    ensures
        r == asl_result(a),
        *final(state) == shift_state(*old(state), asl_result(a), high_bit(a)),
{
    let res: u8 = (a % 128) * 2;
    state.set_flag(Flag::Zero, res == 0);
    state.set_flag(Flag::Negative, res >= 0x80);
    state.set_flag(Flag::Carry, a >= 128);
    res
}

/// Logical shift right of `a`: Carry takes the old bit 0, bit 7 of the result
/// is 0 so Negative is always cleared, Zero follows the result.
pub fn lsr(state: &mut CPUState, a: u8) -> (r: u8)
    ensures
        r == lsr_result(a),
        *final(state) == shift_state(*old(state), lsr_result(a), low_bit(a)),
{
    let res: u8 = a / 2;
    state.set_flag(Flag::Zero, res == 0);
    state.set_flag(Flag::Negative, res >= 0x80);
    state.set_flag(Flag::Carry, a % 2 == 1);
    res
}

/// Rotate left through the carry: the old carry becomes bit 0, the old bit 7
/// becomes the new carry, Zero and Negative follow the result.
pub fn rol(state: &mut CPUState, a: u8) -> (r: u8)
    ensures
        r == rol_result(a, flag_set(old(state).sr, Flag::Carry)),
        *final(state) == shift_state(
            *old(state),
            rol_result(a, flag_set(old(state).sr, Flag::Carry)),
            high_bit(a),
        ),
{
    let old_carry = state.get_flag(Flag::Carry);
    let res: u8 = (a % 128) * 2 + (if old_carry {
        1u8
    } else {
        0u8
    });
    state.set_flag(Flag::Zero, res == 0);
    state.set_flag(Flag::Negative, res >= 0x80);
    state.set_flag(Flag::Carry, a >= 128);
    res
}

/// Rotate right through the carry: the old carry becomes bit 7, the old bit 0
/// becomes the new carry, Zero and Negative follow the result.
pub fn ror(state: &mut CPUState, a: u8) -> (r: u8)
    ensures
        r == ror_result(a, flag_set(old(state).sr, Flag::Carry)),
        *final(state) == shift_state(
            *old(state),
            ror_result(a, flag_set(old(state).sr, Flag::Carry)),
            low_bit(a),
        ),
{
    let old_carry = state.get_flag(Flag::Carry);
    let res: u8 = a / 2 + (if old_carry {
        128u8
    } else {
        0u8
    });
    state.set_flag(Flag::Zero, res == 0);
    state.set_flag(Flag::Negative, res >= 0x80);
    state.set_flag(Flag::Carry, a % 2 == 1);
    res
}

/// Increment `a`, wrapping at 256; Zero and Negative follow the result, Carry
/// is untouched. The result is returned for the caller to store.
pub fn inc(state: &mut CPUState, a: u8) -> (r: u8)
    ensures
        r == inc_result(a),
        *final(state) == nz_state(*old(state), inc_result(a)),
{
    let res: u8 = if a == 255 {
        0
    } else {
        a + 1
    };
    state.set_flag(Flag::Zero, res == 0);
    state.set_flag(Flag::Negative, res >= 0x80);
    res
}

/// Decrement `a`, wrapping below zero; Zero and Negative follow the result,
/// Carry is untouched.
pub fn dec(state: &mut CPUState, a: u8) -> (r: u8)
    ensures
        r == dec_result(a),
        *final(state) == nz_state(*old(state), dec_result(a)),
{
    let res: u8 = if a == 0 {
        255
    } else {
        a - 1
    };
    state.set_flag(Flag::Zero, res == 0);
    state.set_flag(Flag::Negative, res >= 0x80);
    res
}

/// Increment into the X register.
pub fn inx(state: &mut CPUState, a: u8)
    ensures
        *final(state) == inx_state(*old(state), a),
{
    let r = inc(state, a);
    state.x = r;
}

/// Increment into the Y register.
pub fn iny(state: &mut CPUState, a: u8)
    ensures
        *final(state) == iny_state(*old(state), a),
{
    let r = inc(state, a);
    state.y = r;
}

/// Decrement into the X register.
pub fn dex(state: &mut CPUState, a: u8)
    ensures
        *final(state) == dex_state(*old(state), a),
{
    let r = dec(state, a);
    state.x = r;
}

/// Decrement into the Y register.
pub fn dey(state: &mut CPUState, a: u8)
    ensures
        *final(state) == dey_state(*old(state), a),
{
    let r = dec(state, a);
    state.y = r;
}

/// The signed eight-bit offset added to the program counter modulo 65536.
fn add_offset(pc: u16, offset: i8) -> (r: u16)
    ensures
        r == branch_target(pc, offset),
{
    pc.wrapping_add_signed(offset as i16)
}

/// Branch on carry clear.
pub fn bcc(state: &mut CPUState, offset: i8)
    ensures
        *final(state) == branch_state(
            *old(state),
            !flag_set(old(state).sr, Flag::Carry),
            offset,
        ),
{
    if !state.get_flag(Flag::Carry) {
        let t: u16 = add_offset(state.pc, offset);
        state.pc = t;
    }
}

/// Branch on carry set.
pub fn bcs(state: &mut CPUState, offset: i8)
    ensures
        *final(state) == branch_state(*old(state), flag_set(old(state).sr, Flag::Carry), offset),
{
    if state.get_flag(Flag::Carry) {
        let t: u16 = add_offset(state.pc, offset);
        state.pc = t;
    }
}

/// Branch on the zero flag set.
pub fn beq(state: &mut CPUState, offset: i8)
    ensures
        *final(state) == branch_state(*old(state), flag_set(old(state).sr, Flag::Zero), offset),
{
    if state.get_flag(Flag::Zero) {
        let t: u16 = add_offset(state.pc, offset);
        state.pc = t;
    }
}

/// Branch on the zero flag clear.
pub fn bne(state: &mut CPUState, offset: i8)
    ensures
        *final(state) == branch_state(*old(state), !flag_set(old(state).sr, Flag::Zero), offset),
{
    if !state.get_flag(Flag::Zero) {
        let t: u16 = add_offset(state.pc, offset);
        state.pc = t;
    }
}

/// Branch on the negative flag set.
pub fn bmi(state: &mut CPUState, offset: i8)
    ensures
        *final(state) == branch_state(
            *old(state),
            flag_set(old(state).sr, Flag::Negative),
            offset,
        ),
{
    if state.get_flag(Flag::Negative) {
        let t: u16 = add_offset(state.pc, offset);
        state.pc = t;
    }
}

/// Branch on the negative flag clear.
pub fn bpl(state: &mut CPUState, offset: i8)
    ensures
        *final(state) == branch_state(
            *old(state),
            !flag_set(old(state).sr, Flag::Negative),
            offset,
        ),
{
    if !state.get_flag(Flag::Negative) {
        let t: u16 = add_offset(state.pc, offset);
        state.pc = t;
    }
}

/// Branch on the overflow flag clear.
pub fn bvc(state: &mut CPUState, offset: i8)
    ensures
        *final(state) == branch_state(
            *old(state),
            !flag_set(old(state).sr, Flag::Overflow),
            offset,
        ),
{
    if !state.get_flag(Flag::Overflow) {
        let t: u16 = add_offset(state.pc, offset);
        state.pc = t;
    }
}

/// Branch on the overflow flag set.
pub fn bvs(state: &mut CPUState, offset: i8)
    ensures
        *final(state) == branch_state(
            *old(state),
            flag_set(old(state).sr, Flag::Overflow),
            offset,
        ),
{
    if state.get_flag(Flag::Overflow) {
        let t: u16 = add_offset(state.pc, offset);
        state.pc = t;
    }
}

/// BIT test against `m`: Negative and Overflow are copied from the operand's
/// bits 7 and 6, Zero is set when the operand masks the accumulator to zero,
/// and the accumulator itself is untouched.
pub fn bit(state: &mut CPUState, m: u8)
    ensures
        *final(state) == bit_state(*old(state), m),
{
    let z = state.a & m == 0;
    state.set_flag(Flag::Zero, z);
    state.set_flag(Flag::Negative, m >= 0x80);
    state.set_flag(Flag::Overflow, m & 0x40 == 0x40);
}

/// BRK's register effect: the interrupt-disable flag is set.
pub fn brk(state: &mut CPUState)
    ensures
        *final(state) == (CPUState {
            sr: with_flag(old(state).sr, Flag::Interrupt, true),
            ..*old(state)
        }),
{
    state.set_flag(Flag::Interrupt, true);
}

/// Clear the carry flag.
pub fn clc(state: &mut CPUState)
    ensures
        *final(state) == (CPUState {
            sr: with_flag(old(state).sr, Flag::Carry, false),
            ..*old(state)
        }),
{
    state.set_flag(Flag::Carry, false);
}

/// Clear the decimal-mode flag.
pub fn cld(state: &mut CPUState)
    ensures
        *final(state) == (CPUState {
            sr: with_flag(old(state).sr, Flag::Decimal, false),
            ..*old(state)
        }),
{
    state.set_flag(Flag::Decimal, false);
}

/// Clear the interrupt-disable flag.
pub fn cli(state: &mut CPUState)
    ensures
        *final(state) == (CPUState {
            sr: with_flag(old(state).sr, Flag::Interrupt, false),
            ..*old(state)
        }),
{
    state.set_flag(Flag::Interrupt, false);
}

/// Clear the overflow flag.
pub fn clv(state: &mut CPUState)
    ensures
        *final(state) == (CPUState {
            sr: with_flag(old(state).sr, Flag::Overflow, false),
            ..*old(state)
        }),
{
    state.set_flag(Flag::Overflow, false);
}

/// Set the carry flag.
pub fn sec(state: &mut CPUState)
    ensures
        *final(state) == (CPUState {
            sr: with_flag(old(state).sr, Flag::Carry, true),
            ..*old(state)
        }),
{
    state.set_flag(Flag::Carry, true);
}

/// Set the decimal-mode flag.
pub fn sed(state: &mut CPUState)
    ensures
        *final(state) == (CPUState {
            sr: with_flag(old(state).sr, Flag::Decimal, true),
            ..*old(state)
        }),
{
    state.set_flag(Flag::Decimal, true);
}

/// Set the interrupt-disable flag.
pub fn sei(state: &mut CPUState)
    ensures
        *final(state) == (CPUState {
            sr: with_flag(old(state).sr, Flag::Interrupt, true),
            ..*old(state)
        }),
{
    state.set_flag(Flag::Interrupt, true);
}

/// Jump: the program counter takes `addr`; nothing else changes.
pub fn jmp(state: &mut CPUState, addr: u16)
    ensures
        *final(state) == (CPUState { pc: addr, ..*old(state) }),
{
    state.pc = addr;
}

/// The flag effect shared by the loads: Zero and Negative follow the loaded
/// value `a`, not any stale register.
pub fn ldn(state: &mut CPUState, a: u8)
    ensures
        *final(state) == nz_state(*old(state), a),
{
    state.set_flag(Flag::Zero, a == 0);
    state.set_flag(Flag::Negative, a >= 0x80);
}

/// PLA's flag effect: Zero and Negative follow the pulled value `a`.
pub fn pla(state: &mut CPUState, a: u8)
    ensures
        *final(state) == nz_state(*old(state), a),
{
    state.set_flag(Flag::Zero, a == 0);
    state.set_flag(Flag::Negative, a >= 0x80);
}

/// PLP's register effect: the status byte is loaded from `status` except that
/// Break and Unused (bits 4 and 5) keep their old values.
pub fn plp(state: &mut CPUState, status: u8)
    ensures
        *final(state) == (CPUState { sr: plp_sr(old(state).sr, status), ..*old(state) }),
{
    state.sr = (state.sr & 0x30) | (status & 0xCF);
}

/// Copy the accumulator to X; Zero and Negative follow the copied value.
pub fn tax(state: &mut CPUState)
    ensures
        *final(state) == tax_state(*old(state)),
{
    let v: u8 = state.a;
    state.set_flag(Flag::Zero, v == 0);
    state.set_flag(Flag::Negative, v >= 0x80);
    state.x = v;
}

/// Copy the accumulator to Y; Zero and Negative follow the copied value.
pub fn tay(state: &mut CPUState)
    ensures
        *final(state) == tay_state(*old(state)),
{
    let v: u8 = state.a;
    state.set_flag(Flag::Zero, v == 0);
    state.set_flag(Flag::Negative, v >= 0x80);
    state.y = v;
}

/// Copy the stack pointer to X; Zero and Negative follow the copied value.
pub fn tsx(state: &mut CPUState)
    ensures
        *final(state) == tsx_state(*old(state)),
{
    let v: u8 = state.sp;
    state.set_flag(Flag::Zero, v == 0);
    state.set_flag(Flag::Negative, v >= 0x80);
    state.x = v;
}

/// Copy X to the accumulator; Zero and Negative follow the copied value.
pub fn txa(state: &mut CPUState)
    ensures
        *final(state) == txa_state(*old(state)),
{
    let v: u8 = state.x;
    state.set_flag(Flag::Zero, v == 0);
    state.set_flag(Flag::Negative, v >= 0x80);
    state.a = v;
}

/// Copy X to the stack pointer. TXS touches no flag.
pub fn txs(state: &mut CPUState)
    ensures
        *final(state) == txs_state(*old(state)),
{
    state.sp = state.x;
}

/// Copy Y to the accumulator; Zero and Negative follow the copied value.
pub fn tya(state: &mut CPUState)
    ensures
        *final(state) == tya_state(*old(state)),
{
    let v: u8 = state.y;
    state.set_flag(Flag::Zero, v == 0);
    state.set_flag(Flag::Negative, v >= 0x80);
    state.a = v;
}

} // verus!

//! Laws of the instruction set, proved from the same spec functions the
//! executable functions' contracts use.

use vstd::prelude::*;

use crate::cpu::StepError;
use crate::cpu::branch_flag;
use crate::cpu::branch_when;
use crate::cpu::spec_step;
use crate::decode::op_addr_sel;
use crate::decode::op_class;
use crate::decode::op_group;
use crate::instructions::adc_carry_out;
use crate::instructions::adc_result;
use crate::instructions::adc_state;
use crate::instructions::branch_target;
use crate::instructions::low_bit;
use crate::instructions::lsr_result;
use crate::instructions::sbc_state;
use crate::instructions::shift_state;
use crate::resolve::w16;
use crate::state::CPUState;
use crate::state::Flag;
use crate::state::flag_set;

verus! {

broadcast use crate::state::lemma_flag_of_with_flag;

/// ADC of `b` followed by SBC of the same `b`, with the carry the addition
/// left behind, moves the accumulator by exactly `carry-in + carry-out - 1`
/// modulo 256: the operand `b` always cancels out, and only the carry chain
/// decides whether the round trip is exact.
pub proof fn lemma_adc_sbc_displacement(s: CPUState, a: u8, b: u8)
    ensures
        ({
            let ci: int = if flag_set(s.sr, Flag::Carry) {
                1int
            } else {
                0int
            };
            let s1 = adc_state(s, a, b);
            let co: int = if flag_set(s1.sr, Flag::Carry) {
                1int
            } else {
                0int
            };
            sbc_state(s1, s1.a, b).a == ((a + ci + co + 255) % 256) as u8
        }),
{
    let c = flag_set(s.sr, Flag::Carry);
    let ci: int = if c {
        1int
    } else {
        0int
    };
    let s1 = adc_state(s, a, b);
    assert(flag_set(s1.sr, Flag::Carry) == adc_carry_out(a, b, c));
    let co: int = if adc_carry_out(a, b, c) {
        1int
    } else {
        0int
    };
    let r1: u8 = adc_result(a, b, c);
    assert(r1 == (a + b + ci) % 256);
    assert(sbc_state(s1, r1, b).a == ((r1 + (255 - b) + co) % 256) as u8);
    assert((r1 + (255 - b) + co) % 256 == (a + ci + co + 255) % 256) by {
        if a + b + ci < 256 {
            assert(r1 == a + b + ci);
        } else {
            assert(r1 == a + b + ci - 256);
        }
    }
}

/// The additive-inverse round trip: ADC of `b` and then SBC of the same `b`,
/// run with the carry the addition produced, returns the accumulator to its
/// original value exactly when the addition's carry-out differs from its
/// carry-in. (When the two agree the intervening carry mutation shifts the
/// result by one, so those inputs are left out.)
pub proof fn lemma_adc_sbc_round_trip(s: CPUState, a: u8, b: u8)
    requires
        adc_carry_out(a, b, flag_set(s.sr, Flag::Carry)) != flag_set(s.sr, Flag::Carry),
    ensures
        ({
            let s1 = adc_state(s, a, b);
            sbc_state(s1, s1.a, b).a == a
        }),
{
    lemma_adc_sbc_displacement(s, a, b);
    assert((a + 1 + 255) % 256 == a);
}

/// A logical shift right clears the Negative flag whatever its input: the
/// result's high bit is always zero.
pub proof fn lemma_lsr_clears_negative(s: CPUState, v: u8)
    ensures
        !flag_set(shift_state(s, lsr_result(v), low_bit(v)).sr, Flag::Negative),
{
}

/// Every opcode byte of group 3 is unassigned: a step on it returns
/// `IllegalOpcode` and leaves the registers and memory exactly as they were.
pub proof fn lemma_group3_illegal(s: CPUState, m: Seq<u8>)
    requires
        !s.halted,
        op_group(m[s.pc as int]) == 3,
    ensures
        spec_step(s, m) == (s, m, Err::<u8, StepError>(StepError::IllegalOpcode)),
{
}

/// A branch never alters any flag, register or memory byte: only the program
/// counter changes. It always moves past the two-byte instruction, and moves
/// further, to the offset target, exactly when the branch condition holds.
pub proof fn lemma_branch_touches_no_flag(s: CPUState, m: Seq<u8>)
    requires
        !s.halted,
        op_group(m[s.pc as int]) == 0,
        op_addr_sel(m[s.pc as int]) == 4,
    ensures
        ({
            let (s2, m2, r) = spec_step(s, m);
            s2.sr == s.sr && s2.a == s.a && s2.x == s.x && s2.y == s.y && s2.sp == s.sp
                && s2.halted == s.halted && m2 == m && r is Ok
        }),
        ({
            let op = m[s.pc as int];
            let taken = flag_set(s.sr, branch_flag(op_class(op))) == branch_when(op_class(op));
            let offset = m[w16(s.pc + 1) as int] as i8;
            let s2 = spec_step(s, m).0;
            (!taken ==> s2.pc == w16(s.pc + 2)) && (taken ==> s2.pc == branch_target(
                w16(s.pc + 2),
                offset,
            ))
        }),
{
}

} // verus!

//! The step engine: fetch, decode, resolve, execute and commit one
//! instruction per call.
//!
//! `spec_step` is the mathematical model of a whole step; `step` is the
//! executable engine, proved to produce exactly the model's state, memory and
//! result on every input.

use vstd::prelude::*;

use crate::decode::DecodedOpcode;
use crate::decode::decode;
use crate::decode::op_addr_sel;
use crate::decode::op_class;
use crate::decode::op_group;
use crate::instructions::adc;
use crate::instructions::adc_state;
use crate::instructions::and;
use crate::instructions::and_state;
use crate::instructions::asl;
use crate::instructions::bcc;
use crate::instructions::bcs;
use crate::instructions::beq;
use crate::instructions::bit;
use crate::instructions::bit_state;
use crate::instructions::bmi;
use crate::instructions::bne;
use crate::instructions::bpl;
use crate::instructions::branch_state;
use crate::instructions::bvc;
use crate::instructions::bvs;
use crate::instructions::clc;
use crate::instructions::cld;
use crate::instructions::cli;
use crate::instructions::clv;
use crate::instructions::cmp;
use crate::instructions::cmp_state;
use crate::instructions::dec;
use crate::instructions::dec_result;
use crate::instructions::dex;
use crate::instructions::dex_state;
use crate::instructions::dey;
use crate::instructions::dey_state;
use crate::instructions::eor;
use crate::instructions::eor_state;
use crate::instructions::high_bit;
use crate::instructions::inc;
use crate::instructions::inc_result;
use crate::instructions::inx;
use crate::instructions::inx_state;
use crate::instructions::iny;
use crate::instructions::iny_state;
use crate::instructions::jmp;
use crate::instructions::ldn;
use crate::instructions::logic_state;
use crate::instructions::low_bit;
use crate::instructions::lsr;
use crate::instructions::lsr_result;
use crate::instructions::asl_result;
use crate::instructions::nz_state;
use crate::instructions::ora;
use crate::instructions::ora_state;
use crate::instructions::rol;
use crate::instructions::rol_result;
use crate::instructions::ror;
use crate::instructions::ror_result;
use crate::instructions::sbc;
use crate::instructions::sbc_state;
use crate::instructions::sec;
use crate::instructions::sed;
use crate::instructions::sei;
use crate::instructions::shift_state;
use crate::instructions::tax;
use crate::instructions::tax_state;
use crate::instructions::tay;
use crate::instructions::tay_state;
use crate::instructions::tsx;
use crate::instructions::tsx_state;
use crate::instructions::txa;
use crate::instructions::txa_state;
use crate::instructions::txs;
use crate::instructions::txs_state;
use crate::instructions::tya;
use crate::instructions::tya_state;
use crate::memory::Memory;
use crate::resolve::mode_base_cycles;
use crate::resolve::resolve;
use crate::resolve::spec_mode_cycles;
use crate::resolve::spec_resolve;
use crate::resolve::w16;
use crate::state::CPUState;
use crate::state::Flag;
use crate::state::flag_set;
use crate::state::with_flag;

verus! {

/// Why a step could not execute: the opcode triple has no assigned operation;
/// a legal operation was paired with an addressing mode it does not support;
/// or the CPU was already halted when the step was asked for.
#[derive(Clone, Copy, PartialEq, Eq, Structural, Debug)]
pub enum StepError {
    IllegalOpcode,
    IllegalAddressingMode,
    Halted,
}

/// A whole step's outcome: the registers after the step, memory after the
/// step, and either the cycles the instruction consumed or the error.
pub type StepOutcome = (CPUState, Seq<u8>, Result<u8, StepError>);

/// The register file with the program counter advanced by `len` bytes,
/// wrapping at the top of the address space.
pub open spec fn advance(s: CPUState, len: u16) -> CPUState {
    CPUState { pc: w16(s.pc + len), ..s }
}

/// The register effect of the accumulator family, selected by the operation
/// class: ORA, AND, EOR, ADC, LDA, CMP or SBC against the operand byte `v`.
/// (Class 4, STA, writes memory instead and is handled by the step spec.)
pub open spec fn group1_state(s: CPUState, a_cls: int, v: u8) -> CPUState {
    if a_cls == 0 {
        ora_state(s, s.a, v)
    } else if a_cls == 1 {
        and_state(s, s.a, v)
    } else if a_cls == 2 {
        eor_state(s, s.a, v)
    } else if a_cls == 3 {
        adc_state(s, s.a, v)
    } else if a_cls == 5 {
        logic_state(s, v)
    } else if a_cls == 6 {
        cmp_state(s, s.a, v)
    } else {
        sbc_state(s, s.a, v)
    }
}

/// One step of the accumulator family (group 1): the addressing mode is
/// resolved, the operand is read (or, for STA, written), the operation's
/// register effect applied, and the program counter advanced past the
/// instruction. STA with immediate addressing has no writable destination and
/// is rejected. A store pays the indexed-mode cycle unconditionally; a read
/// pays it only on a page crossing.
pub open spec fn spec_step_group1(s: CPUState, m: Seq<u8>, a_cls: int, sel: int) -> StepOutcome {
    let ro = spec_resolve(m, s.pc, s.x, s.y, sel);
    if a_cls == 4 {
        if sel == 2 {
            (s, m, Err(StepError::IllegalAddressingMode))
        } else {
            let cycles = spec_mode_cycles(sel) + (if sel == 4 || sel == 6 || sel == 7 {
                1int
            } else {
                0int
            });
            (advance(s, ro.length), m.update(ro.address as int, s.a), Ok(cycles as u8))
        }
    } else {
        let v = m[ro.address as int];
        let cycles = spec_mode_cycles(sel) + ro.extra_cycles;
        (advance(group1_state(s, a_cls, v), ro.length), m, Ok(cycles as u8))
    }
}

/// The result byte and flag effect of one read-modify-write operation of the
/// shift family (group 2): ASL, ROL, LSR, ROR, DEC or INC of the byte `v`.
pub open spec fn group2_rmw(s: CPUState, a_cls: int, v: u8) -> (u8, CPUState) {
    let c = flag_set(s.sr, Flag::Carry);
    if a_cls == 0 {
        (asl_result(v), shift_state(s, asl_result(v), high_bit(v)))
    } else if a_cls == 1 {
        (rol_result(v, c), shift_state(s, rol_result(v, c), high_bit(v)))
    } else if a_cls == 2 {
        (lsr_result(v), shift_state(s, lsr_result(v), low_bit(v)))
    } else if a_cls == 3 {
        (ror_result(v, c), shift_state(s, ror_result(v, c), low_bit(v)))
    } else if a_cls == 6 {
        (dec_result(v), nz_state(s, dec_result(v)))
    } else {
        (inc_result(v), nz_state(s, inc_result(v)))
    }
}

/// One step of the shift family (group 2). The operation class selects ASL,
/// ROL, LSR or ROR (classes 0 to 3), the X transfers (4 and 5) or DEC and INC
/// (6 and 7); the mode selector picks a memory operand (zero-page and absolute
/// forms), the accumulator (selector 2) or the implied register forms
/// (selector 6). The class-0 selector-0 slot is the explicit halt opcode. A
/// memory read-modify-write costs two cycles over the mode's base and pays the
/// indexed penalty unconditionally; the register forms cost two cycles. Every
/// other combination is unassigned.
pub open spec fn spec_step_group2(s: CPUState, m: Seq<u8>, a_cls: int, sel: int) -> StepOutcome {
    if a_cls == 0 && sel == 0 {
        ((CPUState { halted: true, pc: w16(s.pc + 1), ..s }), m, Ok(2u8))
    } else if (a_cls <= 3 || a_cls == 6 || a_cls == 7) && (sel == 1 || sel == 3 || sel == 5 || sel
        == 7) {
        let ro = spec_resolve(m, s.pc, s.x, s.y, sel);
        let v = m[ro.address as int];
        let r = group2_rmw(s, a_cls, v).0;
        let s1 = group2_rmw(s, a_cls, v).1;
        let cycles = spec_mode_cycles(sel) + 2 + (if sel == 7 {
            1int
        } else {
            0int
        });
        (advance(s1, ro.length), m.update(ro.address as int, r), Ok(cycles as u8))
    } else if a_cls <= 3 && sel == 2 {
        let r = group2_rmw(s, a_cls, s.a).0;
        let s1 = group2_rmw(s, a_cls, s.a).1;
        (advance(CPUState { a: r, ..s1 }, 1), m, Ok(2u8))
    } else if sel == 2 {
        if a_cls == 4 {
            (advance(txa_state(s), 1), m, Ok(2u8))
        } else if a_cls == 5 {
            (advance(tax_state(s), 1), m, Ok(2u8))
        } else if a_cls == 6 {
            (advance(dex_state(s, s.x), 1), m, Ok(2u8))
        } else {
            (s, m, Err(StepError::IllegalOpcode))
        }
    } else if sel == 6 {
        if a_cls == 4 {
            (advance(txs_state(s), 1), m, Ok(2u8))
        } else if a_cls == 5 {
            (advance(tsx_state(s), 1), m, Ok(2u8))
        } else {
            (s, m, Err(StepError::IllegalOpcode))
        }
    } else {
        (s, m, Err(StepError::IllegalOpcode))
    }
}

/// The flag a relative branch tests, by operation class: BPL and BMI test
/// Negative, BVC and BVS Overflow, BCC and BCS Carry, BNE and BEQ Zero.
pub open spec fn branch_flag(a_cls: int) -> Flag {
    if a_cls == 0 || a_cls == 1 {
        Flag::Negative
    } else if a_cls == 2 || a_cls == 3 {
        Flag::Overflow
    } else if a_cls == 4 || a_cls == 5 {
        Flag::Carry
    } else {
        Flag::Zero
    }
}

/// The flag value on which the branch is taken: odd classes branch on the
/// flag set, even classes on the flag clear.
pub open spec fn branch_when(a_cls: int) -> bool {
    a_cls % 2 == 1
}

/// One relative branch step: the program counter always advances past the
/// two-byte instruction, the signed offset is added only when the tested flag
/// has the tested value, no flag is ever touched, and the cost is two cycles
/// plus one when taken plus one more when the taken target leaves the page.
pub open spec fn spec_step_branch(s: CPUState, m: Seq<u8>, a_cls: int) -> StepOutcome {
    let offset = m[w16(s.pc + 1) as int] as i8;
    let taken = flag_set(s.sr, branch_flag(a_cls)) == branch_when(a_cls);
    let s1 = CPUState { pc: w16(s.pc + 2), ..s };
    let s2 = branch_state(s1, taken, offset);
    let cycles = 2 + (if taken {
        1 + (if s2.pc / 256 != s1.pc / 256 {
            1int
        } else {
            0int
        })
    } else {
        0int
    });
    (s2, m, Ok(cycles as u8))
}

/// One step of the control family (group 0). Mode selector 4 holds the eight
/// relative branches. Selector 6 holds the single-byte flag operations and
/// TYA, selector 2 the implied DEY, TAY, INY and INX. BIT takes its operand
/// from zero-page or absolute modes, and JMP loads the program counter with
/// the absolute operand word. Every other combination is unassigned.
pub open spec fn spec_step_group0(s: CPUState, m: Seq<u8>, a_cls: int, sel: int) -> StepOutcome {
    if sel == 4 {
        spec_step_branch(s, m, a_cls)
    } else if sel == 6 {
        let s1 = if a_cls == 0 {
            CPUState { sr: with_flag(s.sr, Flag::Carry, false), ..s }
        } else if a_cls == 1 {
            CPUState { sr: with_flag(s.sr, Flag::Carry, true), ..s }
        } else if a_cls == 2 {
            CPUState { sr: with_flag(s.sr, Flag::Interrupt, false), ..s }
        } else if a_cls == 3 {
            CPUState { sr: with_flag(s.sr, Flag::Interrupt, true), ..s }
        } else if a_cls == 4 {
            tya_state(s)
        } else if a_cls == 5 {
            CPUState { sr: with_flag(s.sr, Flag::Overflow, false), ..s }
        } else if a_cls == 6 {
            CPUState { sr: with_flag(s.sr, Flag::Decimal, false), ..s }
        } else {
            CPUState { sr: with_flag(s.sr, Flag::Decimal, true), ..s }
        };
        (advance(s1, 1), m, Ok(2u8))
    } else if sel == 2 {
        if a_cls == 4 {
            (advance(dey_state(s, s.y), 1), m, Ok(2u8))
        } else if a_cls == 5 {
            (advance(tay_state(s), 1), m, Ok(2u8))
        } else if a_cls == 6 {
            (advance(iny_state(s, s.y), 1), m, Ok(2u8))
        } else if a_cls == 7 {
            (advance(inx_state(s, s.x), 1), m, Ok(2u8))
        } else {
            (s, m, Err(StepError::IllegalOpcode))
        }
    } else if a_cls == 1 && (sel == 1 || sel == 3) {
        let ro = spec_resolve(m, s.pc, s.x, s.y, sel);
        (advance(bit_state(s, m[ro.address as int]), ro.length), m, Ok(
            spec_mode_cycles(sel) as u8,
        ))
    } else if a_cls == 2 && sel == 3 {
        let ro = spec_resolve(m, s.pc, s.x, s.y, sel);
        ((CPUState { pc: ro.address, ..s }), m, Ok(3u8))
    } else {
        (s, m, Err(StepError::IllegalOpcode))
    }
}

/// The model of one whole step. A halted CPU refuses the step. Otherwise the
/// opcode byte at the program counter is split into its `aaabbbcc` fields and
/// the family's step spec applies; the family value 3 has no assigned
/// operation anywhere, so it always refuses the opcode. On every error the
/// registers and memory are unchanged.
pub open spec fn spec_step(s: CPUState, m: Seq<u8>) -> StepOutcome {
    if s.halted {
        (s, m, Err(StepError::Halted))
    } else {
        let op = m[s.pc as int];
        let g = op_group(op);
        let a_cls = op_class(op);
        let sel = op_addr_sel(op);
        if g == 1 {
            spec_step_group1(s, m, a_cls, sel)
        } else if g == 2 {
            spec_step_group2(s, m, a_cls, sel)
        } else if g == 0 {
            spec_step_group0(s, m, a_cls, sel)
        } else {
            (s, m, Err(StepError::IllegalOpcode))
        }
    }
}

/// Advances the program counter by `len`, wrapping at the top of the address
/// space.
fn advance_pc(state: &mut CPUState, len: u16)
    ensures
        *final(state) == advance(*old(state), len),
{
    state.pc = state.pc.wrapping_add(len);
}

/// Applies one read-modify-write operation of group 2 to `v`, updating the
/// flags and returning the result byte for the caller to store.
fn rmw_result(state: &mut CPUState, a_cls: u8, v: u8) -> (r: u8)
    requires
        a_cls <= 3 || a_cls == 6 || a_cls == 7,
    ensures
        r == group2_rmw(*old(state), a_cls as int, v).0,
        *final(state) == group2_rmw(*old(state), a_cls as int, v).1,
{
    if a_cls == 0 {
        asl(state, v)
    } else if a_cls == 1 {
        rol(state, v)
    } else if a_cls == 2 {
        lsr(state, v)
    } else if a_cls == 3 {
        ror(state, v)
    } else if a_cls == 6 {
        dec(state, v)
    } else {
        inc(state, v)
    }
}

/// Executes one instruction of the accumulator family.
fn step_group1(state: &mut CPUState, mem: &mut Memory, a_cls: u8, sel: u8) -> (r: Result<
    u8,
    StepError,
>)
    requires
        a_cls < 8,
        sel < 8,
    ensures
        ({
            let (s2, m2, r2) = spec_step_group1(*old(state), old(mem)@, a_cls as int, sel as int);
            *final(state) == s2 && final(mem)@ == m2 && r == r2
        }),
{
    let ro = resolve(mem, state.pc, state.x, state.y, sel);
    if a_cls == 4 {
        if sel == 2 {
            return Err(StepError::IllegalAddressingMode);
        }
        mem.write(ro.address, state.a);
        advance_pc(state, ro.length);
        let cycles: u8 = mode_base_cycles(sel) + (if sel == 4 || sel == 6 || sel == 7 {
            1
        } else {
            0
        });
        Ok(cycles)
    } else {
        let v: u8 = mem.read(ro.address);
        let acc: u8 = state.a;
        if a_cls == 0 {
            ora(state, acc, v);
        } else if a_cls == 1 {
            and(state, acc, v);
        } else if a_cls == 2 {
            eor(state, acc, v);
        } else if a_cls == 3 {
            adc(state, acc, v);
        } else if a_cls == 5 {
            ldn(state, v);
            state.a = v;
        } else if a_cls == 6 {
            cmp(state, acc, v);
        } else {
            sbc(state, acc, v);
        }
        advance_pc(state, ro.length);
        Ok(mode_base_cycles(sel) + ro.extra_cycles)
    }
}

/// Executes one instruction of the shift family.
fn step_group2(state: &mut CPUState, mem: &mut Memory, a_cls: u8, sel: u8) -> (r: Result<
    u8,
    StepError,
>)
    requires
        a_cls < 8,
        sel < 8,
    ensures
        ({
            let (s2, m2, r2) = spec_step_group2(*old(state), old(mem)@, a_cls as int, sel as int);
            *final(state) == s2 && final(mem)@ == m2 && r == r2
        }),
{
    if a_cls == 0 && sel == 0 {
        state.halted = true;
        advance_pc(state, 1);
        Ok(2)
    } else if (a_cls <= 3 || a_cls == 6 || a_cls == 7) && (sel == 1 || sel == 3 || sel == 5 || sel
        == 7) {
        let ro = resolve(mem, state.pc, state.x, state.y, sel);
        let v: u8 = mem.read(ro.address);
        let r: u8 = rmw_result(state, a_cls, v);
        mem.write(ro.address, r);
        advance_pc(state, ro.length);
        let cycles: u8 = mode_base_cycles(sel) + 2 + (if sel == 7 {
            1
        } else {
            0
        });
        Ok(cycles)
    } else if a_cls <= 3 && sel == 2 {
        let acc: u8 = state.a;
        let r: u8 = rmw_result(state, a_cls, acc);
        state.a = r;
        advance_pc(state, 1);
        Ok(2)
    } else if sel == 2 {
        if a_cls == 4 {
            txa(state);
        } else if a_cls == 5 {
            tax(state);
        } else if a_cls == 6 {
            let xv: u8 = state.x;
            dex(state, xv);
        } else {
            return Err(StepError::IllegalOpcode);
        }
        advance_pc(state, 1);
        Ok(2)
    } else if sel == 6 {
        if a_cls == 4 {
            txs(state);
        } else if a_cls == 5 {
            tsx(state);
        } else {
            return Err(StepError::IllegalOpcode);
        }
        advance_pc(state, 1);
        Ok(2)
    } else {
        Err(StepError::IllegalOpcode)
    }
}

/// Executes one relative branch.
fn step_branch(state: &mut CPUState, mem: &Memory, a_cls: u8) -> (r: Result<u8, StepError>)
    requires
        a_cls < 8,
    ensures
        ({
            let (s2, m2, r2) = spec_step_branch(*old(state), mem@, a_cls as int);
            *final(state) == s2 && mem@ == m2 && r == r2
        }),
{
    let off_byte: u8 = mem.read(state.pc.wrapping_add(1));
    let offset: i8 = off_byte as i8;
    let cond: bool = if a_cls == 0 {
        !state.get_flag(Flag::Negative)
    } else if a_cls == 1 {
        state.get_flag(Flag::Negative)
    } else if a_cls == 2 {
        !state.get_flag(Flag::Overflow)
    } else if a_cls == 3 {
        state.get_flag(Flag::Overflow)
    } else if a_cls == 4 {
        !state.get_flag(Flag::Carry)
    } else if a_cls == 5 {
        state.get_flag(Flag::Carry)
    } else if a_cls == 6 {
        !state.get_flag(Flag::Zero)
    } else {
        state.get_flag(Flag::Zero)
    };
    advance_pc(state, 2);
    let before: u16 = state.pc;
    if a_cls == 0 {
        bpl(state, offset);
    } else if a_cls == 1 {
        bmi(state, offset);
    } else if a_cls == 2 {
        bvc(state, offset);
    } else if a_cls == 3 {
        bvs(state, offset);
    } else if a_cls == 4 {
        bcc(state, offset);
    } else if a_cls == 5 {
        bcs(state, offset);
    } else if a_cls == 6 {
        bne(state, offset);
    } else {
        beq(state, offset);
    }
    let cycles: u8 = if cond {
        if state.pc / 256 != before / 256 {
            4
        } else {
            3
        }
    } else {
        2
    };
    Ok(cycles)
}

/// Executes one instruction of the control family.
fn step_group0(state: &mut CPUState, mem: &mut Memory, a_cls: u8, sel: u8) -> (r: Result<
    u8,
    StepError,
>)
    requires
        a_cls < 8,
        sel < 8,
    ensures
        ({
            let (s2, m2, r2) = spec_step_group0(*old(state), old(mem)@, a_cls as int, sel as int);
            *final(state) == s2 && final(mem)@ == m2 && r == r2
        }),
{
    if sel == 4 {
        step_branch(state, mem, a_cls)
    } else if sel == 6 {
        if a_cls == 0 {
            clc(state);
        } else if a_cls == 1 {
            sec(state);
        } else if a_cls == 2 {
            cli(state);
        } else if a_cls == 3 {
            sei(state);
        } else if a_cls == 4 {
            tya(state);
        } else if a_cls == 5 {
            clv(state);
        } else if a_cls == 6 {
            cld(state);
        } else {
            sed(state);
        }
        advance_pc(state, 1);
        Ok(2)
    } else if sel == 2 {
        if a_cls == 4 {
            let yv: u8 = state.y;
            dey(state, yv);
        } else if a_cls == 5 {
            tay(state);
        } else if a_cls == 6 {
            let yv: u8 = state.y;
            iny(state, yv);
        } else if a_cls == 7 {
            let xv: u8 = state.x;
            inx(state, xv);
        } else {
            return Err(StepError::IllegalOpcode);
        }
        advance_pc(state, 1);
        Ok(2)
    } else if a_cls == 1 && (sel == 1 || sel == 3) {
        let ro = resolve(mem, state.pc, state.x, state.y, sel);
        let v: u8 = mem.read(ro.address);
        bit(state, v);
        advance_pc(state, ro.length);
        Ok(mode_base_cycles(sel))
    } else if a_cls == 2 && sel == 3 {
        let ro = resolve(mem, state.pc, state.x, state.y, sel);
        jmp(state, ro.address);
        Ok(3)
    } else {
        Err(StepError::IllegalOpcode)
    }
}

/// Executes one whole instruction: fetch, decode, resolve, execute, commit.
/// The outcome — registers, memory and the cycle count or error — is exactly
/// `spec_step` of the starting state.
pub fn step(state: &mut CPUState, mem: &mut Memory) -> (r: Result<u8, StepError>)
    ensures
        ({
            let (s2, m2, r2) = spec_step(*old(state), old(mem)@);
            *final(state) == s2 && final(mem)@ == m2 && r == r2
        }),
{
    if state.halted {
        return Err(StepError::Halted);
    }
    let op: u8 = mem.read(state.pc);
    let d: DecodedOpcode = decode(op);
    if d.group == 1 {
        step_group1(state, mem, d.op_class, d.addr_sel)
    } else if d.group == 2 {
        step_group2(state, mem, d.op_class, d.addr_sel)
    } else if d.group == 0 {
        step_group0(state, mem, d.op_class, d.addr_sel)
    } else {
        Err(StepError::IllegalOpcode)
    }
}

/// A CPU: the register file together with the step entry point.
pub struct Cpu {
    pub state: CPUState,
}

impl Cpu {
    /// A CPU in the reset state: every register and flag zero, not halted.
    pub fn new() -> (c: Cpu)
        ensures
            c.state == (CPUState { pc: 0, a: 0, x: 0, y: 0, sr: 0, sp: 0, halted: false }),
    {
        Cpu { state: CPUState::new() }
    }

    /// Executes one instruction against `mem`; the outcome is exactly
    /// `spec_step` of the current register file and memory.
    pub fn step_instr(&mut self, mem: &mut Memory) -> (r: Result<u8, StepError>)
        ensures
            ({
                let (s2, m2, r2) = spec_step(old(self).state, old(mem)@);
                final(self).state == s2 && final(mem)@ == m2 && r == r2
            }),
    {
        step(&mut self.state, mem)
    }
}

} // verus!

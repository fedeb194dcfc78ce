//! Whole-step behaviour: fetch, decode, resolve, execute, commit.

use mos6502::cpu::Cpu;
use mos6502::cpu::StepError;
use mos6502::cpu::step;
use mos6502::memory::Memory;
use mos6502::state::CPUState;
use mos6502::state::Flag;

fn fresh() -> (CPUState, Memory) {
    (CPUState::new(), Memory::new(1 << 16))
}

#[test]
fn example() {
    assert_eq!(0, 0);
}

#[test]
fn memory_starts_zeroed_and_round_trips() {
    let mut mem = Memory::new(1 << 16);
    assert_eq!(mem.read(0x1234), 0x00);
    mem.write(0x1234, 0xAB);
    assert_eq!(mem.read(0x1234), 0xAB);
    assert_eq!(mem.read(0x1233), 0x00);
}

#[test]
fn lda_immediate_loads_and_costs_two_cycles() {
    let (mut state, mut mem) = fresh();
    mem.write(0x0000, 0xA9);
    mem.write(0x0001, 0x42);
    let r = step(&mut state, &mut mem);
    assert_eq!(r, Ok(2));
    assert_eq!(state.a, 0x42);
    assert_eq!(state.pc, 0x0002);
    assert!(!state.get_flag(Flag::Zero));
}

#[test]
fn lda_flags_follow_loaded_value_not_stale_accumulator() {
    let (mut state, mut mem) = fresh();
    state.a = 0x7F;
    mem.write(0x0000, 0xA9);
    mem.write(0x0001, 0x00);
    step(&mut state, &mut mem).unwrap();
    assert_eq!(state.a, 0x00);
    assert!(state.get_flag(Flag::Zero));
    assert!(!state.get_flag(Flag::Negative));
}

#[test]
fn zp_x_pointer_wraps_in_zero_page() {
    // LDA (zp,X) with pointer byte 0xFF and X = 1: the pointer wraps to 0x00,
    // it must not read the word at 0x0100.
    let (mut state, mut mem) = fresh();
    state.x = 0x01;
    mem.write(0x0200, 0xA1);
    mem.write(0x0201, 0xFF);
    mem.write(0x0000, 0x34);
    mem.write(0x0001, 0x12);
    mem.write(0x1234, 0x42);
    // a decoy word at 0x0100 leads to a decoy operand
    mem.write(0x0100, 0x78);
    mem.write(0x0101, 0x56);
    mem.write(0x5678, 0x99);
    state.pc = 0x0200;
    let r = step(&mut state, &mut mem);
    assert_eq!(r, Ok(6));
    assert_eq!(state.a, 0x42);
}

#[test]
fn zp_y_pointer_high_fetch_wraps_in_zero_page() {
    // LDA (zp),Y with pointer byte 0xFF: the low byte comes from 0x00FF and
    // the high byte from 0x0000, not 0x0100.
    let (mut state, mut mem) = fresh();
    state.y = 0x00;
    mem.write(0x0200, 0xB1);
    mem.write(0x0201, 0xFF);
    mem.write(0x00FF, 0x34);
    mem.write(0x0000, 0x12);
    mem.write(0x0100, 0x77);
    mem.write(0x1234, 0x55);
    state.pc = 0x0200;
    let r = step(&mut state, &mut mem);
    assert_eq!(r, Ok(5));
    assert_eq!(state.a, 0x55);
}

#[test]
fn abs_x_page_cross_costs_one_extra_cycle() {
    // LDA abs,X from base 0x00FF with X = 1 lands on 0x0100, one page over.
    let (mut state, mut mem) = fresh();
    state.x = 0x01;
    mem.write(0x0000, 0xBD);
    mem.write(0x0001, 0xFF);
    mem.write(0x0002, 0x00);
    mem.write(0x0100, 0x21);
    let crossing = step(&mut state, &mut mem).unwrap();
    assert_eq!(state.a, 0x21);

    let (mut state, mut mem) = fresh();
    state.x = 0x01;
    mem.write(0x0000, 0xBD);
    mem.write(0x0001, 0x10);
    mem.write(0x0002, 0x00);
    mem.write(0x0011, 0x33);
    let same_page = step(&mut state, &mut mem).unwrap();
    assert_eq!(state.a, 0x33);

    assert_eq!(same_page, 4);
    assert_eq!(crossing, same_page + 1);
}

#[test]
fn lda_zero_page_and_indexed_wrap() {
    let (mut state, mut mem) = fresh();
    mem.write(0x0000, 0xA5);
    mem.write(0x0001, 0x10);
    mem.write(0x0010, 0x07);
    let r = step(&mut state, &mut mem);
    assert_eq!(r, Ok(3));
    assert_eq!(state.a, 0x07);

    // zp,X from 0xFF with X = 2 wraps to 0x0001, staying in the zero page
    let (mut state, mut mem) = fresh();
    state.pc = 0x0200;
    state.x = 0x02;
    mem.write(0x0200, 0xB5);
    mem.write(0x0201, 0xFF);
    mem.write(0x0001, 0x44);
    mem.write(0x0101, 0x66);
    let r = step(&mut state, &mut mem);
    assert_eq!(r, Ok(4));
    assert_eq!(state.a, 0x44);
}

#[test]
fn abs_y_indexes_with_y() {
    let (mut state, mut mem) = fresh();
    state.y = 0x05;
    mem.write(0x0000, 0xB9);
    mem.write(0x0001, 0x00);
    mem.write(0x0002, 0x01);
    mem.write(0x0105, 0x2A);
    let r = step(&mut state, &mut mem);
    assert_eq!(r, Ok(4));
    assert_eq!(state.a, 0x2A);
}

#[test]
fn zp_y_page_cross_costs_six() {
    let (mut state, mut mem) = fresh();
    state.y = 0x01;
    mem.write(0x0000, 0xB1);
    mem.write(0x0001, 0x10);
    mem.write(0x0010, 0xFF);
    mem.write(0x0011, 0x00);
    mem.write(0x0100, 0x5C);
    let r = step(&mut state, &mut mem);
    assert_eq!(r, Ok(6));
    assert_eq!(state.a, 0x5C);
}

#[test]
fn sta_writes_accumulator_and_touches_no_flag() {
    let (mut state, mut mem) = fresh();
    state.a = 0x5A;
    state.sr = 0xC3;
    mem.write(0x0000, 0x8D);
    mem.write(0x0001, 0x00);
    mem.write(0x0002, 0x40);
    let r = step(&mut state, &mut mem);
    assert_eq!(r, Ok(4));
    assert_eq!(mem.read(0x4000), 0x5A);
    assert_eq!(state.sr, 0xC3);
    assert_eq!(state.pc, 0x0003);
}

#[test]
fn sta_indexed_pays_base_cost_without_crossing() {
    // A store through abs,X pays the indexed cycle even when no page is
    // crossed; the matching load would cost only four.
    let (mut state, mut mem) = fresh();
    state.a = 0x01;
    state.x = 0x01;
    mem.write(0x0000, 0x9D);
    mem.write(0x0001, 0x10);
    mem.write(0x0002, 0x00);
    let r = step(&mut state, &mut mem);
    assert_eq!(r, Ok(5));
    assert_eq!(mem.read(0x0011), 0x01);
}

#[test]
fn sta_immediate_is_rejected() {
    let (mut state, mut mem) = fresh();
    state.a = 0x07;
    mem.write(0x0000, 0x89);
    let before = state;
    let r = step(&mut state, &mut mem);
    assert_eq!(r, Err(StepError::IllegalAddressingMode));
    assert_eq!(state, before);
}

#[test]
fn adc_immediate_adds_with_carry() {
    let (mut state, mut mem) = fresh();
    state.a = 0x01;
    mem.write(0x0000, 0x69);
    mem.write(0x0001, 0xFF);
    let r = step(&mut state, &mut mem);
    assert_eq!(r, Ok(2));
    assert_eq!(state.a, 0x00);
    assert!(state.get_flag(Flag::Carry));
    assert!(state.get_flag(Flag::Zero));
    assert!(!state.get_flag(Flag::Overflow));
    assert!(!state.get_flag(Flag::Negative));
}

#[test]
fn group_three_is_always_illegal() {
    for op in [0x03u8, 0x53u8, 0xFFu8] {
        let (mut state, mut mem) = fresh();
        mem.write(0x0000, op);
        let before = state;
        let r = step(&mut state, &mut mem);
        assert_eq!(r, Err(StepError::IllegalOpcode));
        assert_eq!(state, before);
    }
}

#[test]
fn unassigned_group_two_slot_is_illegal() {
    let (mut state, mut mem) = fresh();
    mem.write(0x0000, 0xEA);
    let r = step(&mut state, &mut mem);
    assert_eq!(r, Err(StepError::IllegalOpcode));
}

#[test]
fn halt_opcode_stops_the_cpu() {
    let (mut state, mut mem) = fresh();
    mem.write(0x0000, 0x02);
    let r = step(&mut state, &mut mem);
    assert_eq!(r, Ok(2));
    assert!(state.halted);
    assert_eq!(state.pc, 0x0001);
    let again = step(&mut state, &mut mem);
    assert_eq!(again, Err(StepError::Halted));
    assert_eq!(state.pc, 0x0001);
}

#[test]
fn rmw_inc_wraps_in_memory() {
    let (mut state, mut mem) = fresh();
    mem.write(0x0000, 0xEE);
    mem.write(0x0001, 0x00);
    mem.write(0x0002, 0x40);
    mem.write(0x4000, 0xFF);
    let r = step(&mut state, &mut mem);
    assert_eq!(r, Ok(6));
    assert_eq!(mem.read(0x4000), 0x00);
    assert!(state.get_flag(Flag::Zero));
}

#[test]
fn rmw_asl_zero_page_costs_five() {
    let (mut state, mut mem) = fresh();
    mem.write(0x0000, 0x06);
    mem.write(0x0001, 0x10);
    mem.write(0x0010, 0x81);
    let r = step(&mut state, &mut mem);
    assert_eq!(r, Ok(5));
    assert_eq!(mem.read(0x0010), 0x02);
    assert!(state.get_flag(Flag::Carry));
}

#[test]
fn rmw_abs_x_always_costs_seven() {
    let (mut state, mut mem) = fresh();
    state.x = 0x01;
    mem.write(0x0000, 0x1E);
    mem.write(0x0001, 0x10);
    mem.write(0x0002, 0x00);
    mem.write(0x0011, 0x01);
    let r = step(&mut state, &mut mem);
    assert_eq!(r, Ok(7));
    assert_eq!(mem.read(0x0011), 0x02);
}

#[test]
fn asl_accumulator_mode() {
    let (mut state, mut mem) = fresh();
    state.a = 0x40;
    mem.write(0x0000, 0x0A);
    let r = step(&mut state, &mut mem);
    assert_eq!(r, Ok(2));
    assert_eq!(state.a, 0x80);
    assert!(state.get_flag(Flag::Negative));
    assert!(!state.get_flag(Flag::Carry));
    assert_eq!(state.pc, 0x0001);
}

#[test]
fn branch_not_taken_costs_two_and_only_advances() {
    let (mut state, mut mem) = fresh();
    mem.write(0x0000, 0xF0);
    mem.write(0x0001, 0x10);
    let r = step(&mut state, &mut mem);
    assert_eq!(r, Ok(2));
    assert_eq!(state.pc, 0x0002);
}

#[test]
fn branch_taken_costs_three_and_adds_offset() {
    let (mut state, mut mem) = fresh();
    state.set_flag(Flag::Zero, true);
    mem.write(0x0000, 0xF0);
    mem.write(0x0001, 0x10);
    let r = step(&mut state, &mut mem);
    assert_eq!(r, Ok(3));
    assert_eq!(state.pc, 0x0012);
}

#[test]
fn branch_taken_across_page_costs_four() {
    let (mut state, mut mem) = fresh();
    state.pc = 0x00F0;
    mem.write(0x00F0, 0xD0);
    mem.write(0x00F1, 0x20);
    let r = step(&mut state, &mut mem);
    assert_eq!(r, Ok(4));
    assert_eq!(state.pc, 0x0112);
}

#[test]
fn branch_backward_offset_is_signed() {
    let (mut state, mut mem) = fresh();
    state.pc = 0x0200;
    state.set_flag(Flag::Carry, true);
    mem.write(0x0200, 0xB0);
    mem.write(0x0201, 0xFE);
    let r = step(&mut state, &mut mem);
    assert_eq!(r, Ok(3));
    assert_eq!(state.pc, 0x0200);
}

#[test]
fn branch_step_alters_no_flag_or_register() {
    for (taken_sr, op) in [(0x02u8, 0xF0u8), (0x00u8, 0xF0u8), (0xC1u8, 0x30u8)] {
        let (mut state, mut mem) = fresh();
        state.sr = taken_sr;
        state.a = 0x11;
        state.x = 0x22;
        state.y = 0x33;
        state.sp = 0x44;
        mem.write(0x0000, op);
        mem.write(0x0001, 0x05);
        let r = step(&mut state, &mut mem);
        assert!(r.is_ok());
        assert_eq!(state.sr, taken_sr);
        assert_eq!(state.a, 0x11);
        assert_eq!(state.x, 0x22);
        assert_eq!(state.y, 0x33);
        assert_eq!(state.sp, 0x44);
    }
}

#[test]
fn flag_ops_step() {
    let (mut state, mut mem) = fresh();
    mem.write(0x0000, 0x38);
    mem.write(0x0001, 0xF8);
    mem.write(0x0002, 0x78);
    mem.write(0x0003, 0x18);
    assert_eq!(step(&mut state, &mut mem), Ok(2));
    assert!(state.get_flag(Flag::Carry));
    step(&mut state, &mut mem).unwrap();
    assert!(state.get_flag(Flag::Decimal));
    step(&mut state, &mut mem).unwrap();
    assert!(state.get_flag(Flag::Interrupt));
    step(&mut state, &mut mem).unwrap();
    assert!(!state.get_flag(Flag::Carry));
    assert_eq!(state.pc, 0x0004);
}

#[test]
fn implied_transfers_step() {
    let (mut state, mut mem) = fresh();
    state.a = 0x80;
    mem.write(0x0000, 0xAA);
    mem.write(0x0001, 0x9A);
    mem.write(0x0002, 0xA8);
    step(&mut state, &mut mem).unwrap();
    assert_eq!(state.x, 0x80);
    assert!(state.get_flag(Flag::Negative));
    step(&mut state, &mut mem).unwrap();
    assert_eq!(state.sp, 0x80);
    // TXS keeps every flag
    assert!(state.get_flag(Flag::Negative));
    step(&mut state, &mut mem).unwrap();
    assert_eq!(state.y, 0x80);
}

#[test]
fn implied_counts_step() {
    let (mut state, mut mem) = fresh();
    mem.write(0x0000, 0xE8);
    mem.write(0x0001, 0xC8);
    mem.write(0x0002, 0x88);
    step(&mut state, &mut mem).unwrap();
    assert_eq!(state.x, 0x01);
    step(&mut state, &mut mem).unwrap();
    assert_eq!(state.y, 0x01);
    step(&mut state, &mut mem).unwrap();
    assert_eq!(state.y, 0x00);
    assert!(state.get_flag(Flag::Zero));
}

#[test]
fn bit_zero_page_step() {
    let (mut state, mut mem) = fresh();
    state.a = 0x01;
    mem.write(0x0000, 0x24);
    mem.write(0x0001, 0x10);
    mem.write(0x0010, 0xC0);
    let r = step(&mut state, &mut mem);
    assert_eq!(r, Ok(3));
    assert!(state.get_flag(Flag::Negative));
    assert!(state.get_flag(Flag::Overflow));
    assert!(state.get_flag(Flag::Zero));
    assert_eq!(state.a, 0x01);
}

#[test]
fn jmp_absolute_step() {
    let (mut state, mut mem) = fresh();
    mem.write(0x0000, 0x4C);
    mem.write(0x0001, 0x34);
    mem.write(0x0002, 0x12);
    let r = step(&mut state, &mut mem);
    assert_eq!(r, Ok(3));
    assert_eq!(state.pc, 0x1234);
}

#[test]
fn pc_wraps_at_top_of_address_space() {
    let (mut state, mut mem) = fresh();
    state.pc = 0xFFFF;
    mem.write(0xFFFF, 0xA9);
    mem.write(0x0000, 0x42);
    let r = step(&mut state, &mut mem);
    assert_eq!(r, Ok(2));
    assert_eq!(state.a, 0x42);
    assert_eq!(state.pc, 0x0001);
}

#[test]
fn cpu_runs_a_small_program() {
    // CLC; LDA #$10; ADC #$F5; STA $0040; then an unassigned byte stops it.
    let mut cpu = Cpu::new();
    let mut mem = Memory::new(1 << 16);
    mem.write(0x0000, 0x18);
    mem.write(0x0001, 0xA9);
    mem.write(0x0002, 0x10);
    mem.write(0x0003, 0x69);
    mem.write(0x0004, 0xF5);
    mem.write(0x0005, 0x8D);
    mem.write(0x0006, 0x40);
    mem.write(0x0007, 0x00);
    mem.write(0x0008, 0x03);
    let mut cycles: u32 = 0;
    loop {
        match cpu.step_instr(&mut mem) {
            Ok(c) => cycles += c as u32,
            Err(e) => {
                assert_eq!(e, StepError::IllegalOpcode);
                break;
            }
        }
    }
    assert_eq!(mem.read(0x0040), 0x05);
    assert!(cpu.state.get_flag(Flag::Carry));
    assert_eq!(cpu.state.pc, 0x0008);
    assert_eq!(cycles, 2 + 2 + 2 + 4);
}

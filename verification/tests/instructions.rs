//! Per-family instruction semantics, exercised through small programs.
use mos6502::bus::Bus;
use mos6502::bus::Mem;
use mos6502::cpu::CPU;
use mos6502::flags::BREAK;
use mos6502::flags::CARRY;
use mos6502::flags::DECIMAL;
use mos6502::flags::INTERRUPT;
use mos6502::flags::NEGATIVE;
use mos6502::flags::OVERFLOW;
use mos6502::flags::UNUSED;
use mos6502::flags::ZERO;

fn boot() -> CPU {
    CPU::new(Bus::new(vec![0u8; 0x8000]))
}

fn run(program: Vec<u8>) -> CPU {
    let mut cpu = boot();
    cpu.load_and_run(program).unwrap();
    cpu
}

#[test]
fn sbc_without_carry_borrows_one_extra() {
    // C starts clear after reset, so SBC computes 10 - 3 - 1.
    let cpu = run(vec![0xa9, 0x0a, 0xe9, 0x03, 0x00]);
    assert_eq!(cpu.register_a, 0x06);
    assert_ne!(cpu.status & CARRY, 0);
}

#[test]
fn sec_then_sbc_subtracts_exactly() {
    let cpu = run(vec![0x38, 0xa9, 0x0a, 0xe9, 0x03, 0x00]);
    assert_eq!(cpu.register_a, 0x07);
    assert_ne!(cpu.status & CARRY, 0);
}

#[test]
fn sbc_matches_adc_of_complemented_operand() {
    // SBC(a, m) and ADC(a, m ^ 0xFF) agree in A and in every flag.
    let with_sbc = run(vec![0x38, 0xa9, 0x50, 0xe9, 0x13, 0x00]);
    let with_adc = run(vec![0x38, 0xa9, 0x50, 0x69, 0xec, 0x00]);
    assert_eq!(with_sbc.register_a, with_adc.register_a);
    assert_eq!(with_sbc.status, with_adc.status);
}

#[test]
fn cmp_equal_sets_zero_and_carry() {
    let cpu = run(vec![0xa9, 0x05, 0xc9, 0x05, 0x00]);
    assert_ne!(cpu.status & ZERO, 0);
    assert_ne!(cpu.status & CARRY, 0);
}

#[test]
fn cmp_smaller_register_clears_carry() {
    let cpu = run(vec![0xa9, 0x05, 0xc9, 0x06, 0x00]);
    assert_eq!(cpu.status & ZERO, 0);
    assert_eq!(cpu.status & CARRY, 0);
    assert_ne!(cpu.status & NEGATIVE, 0);
}

#[test]
fn cpx_at_least_operand_sets_carry() {
    let cpu = run(vec![0xa2, 0x05, 0xe0, 0x03, 0x00]);
    assert_ne!(cpu.status & CARRY, 0);
    assert_eq!(cpu.status & ZERO, 0);
}

#[test]
fn cpy_equal_sets_zero() {
    let cpu = run(vec![0xa0, 0x07, 0xc0, 0x07, 0x00]);
    assert_ne!(cpu.status & ZERO, 0);
}

#[test]
fn and_masks_accumulator() {
    let cpu = run(vec![0xa9, 0xf0, 0x29, 0x0f, 0x00]);
    assert_eq!(cpu.register_a, 0x00);
    assert_ne!(cpu.status & ZERO, 0);
}

#[test]
fn ora_merges_bits() {
    let cpu = run(vec![0xa9, 0xf0, 0x09, 0x0f, 0x00]);
    assert_eq!(cpu.register_a, 0xff);
    assert_ne!(cpu.status & NEGATIVE, 0);
}

#[test]
fn eor_toggles_bits() {
    let cpu = run(vec![0xa9, 0xff, 0x49, 0x0f, 0x00]);
    assert_eq!(cpu.register_a, 0xf0);
}

#[test]
fn bit_copies_operand_top_bits_into_n_and_v() {
    let mut cpu = boot();
    cpu.load(vec![0xa9, 0x00, 0x24, 0x10, 0x00], 0x8000).unwrap();
    cpu.reset();
    cpu.mem_write(0x0010, 0xc0);
    cpu.run().unwrap();
    assert_ne!(cpu.status & ZERO, 0);
    assert_ne!(cpu.status & NEGATIVE, 0);
    assert_ne!(cpu.status & OVERFLOW, 0);
}

#[test]
fn asl_accumulator_shifts_top_bit_into_carry() {
    let cpu = run(vec![0xa9, 0x81, 0x0a, 0x00]);
    assert_eq!(cpu.register_a, 0x02);
    assert_ne!(cpu.status & CARRY, 0);
}

#[test]
fn lsr_accumulator_shifts_bottom_bit_into_carry() {
    let cpu = run(vec![0xa9, 0x01, 0x4a, 0x00]);
    assert_eq!(cpu.register_a, 0x00);
    assert_ne!(cpu.status & CARRY, 0);
    assert_ne!(cpu.status & ZERO, 0);
}

#[test]
fn rol_accumulator_pulls_carry_into_bit_zero() {
    let cpu = run(vec![0x38, 0xa9, 0x80, 0x2a, 0x00]);
    assert_eq!(cpu.register_a, 0x01);
    assert_ne!(cpu.status & CARRY, 0);
}

#[test]
fn ror_accumulator_pulls_carry_into_bit_seven() {
    let cpu = run(vec![0x38, 0xa9, 0x01, 0x6a, 0x00]);
    assert_eq!(cpu.register_a, 0x80);
    assert_ne!(cpu.status & CARRY, 0);
    assert_ne!(cpu.status & NEGATIVE, 0);
}

#[test]
fn ror_accumulator_writes_result_back() {
    let cpu = run(vec![0xa9, 0x02, 0x6a, 0x00]);
    assert_eq!(cpu.register_a, 0x01);
}

#[test]
fn asl_memory_writes_shifted_value_back() {
    let mut cpu = boot();
    cpu.load(vec![0x06, 0x10, 0x00], 0x8000).unwrap();
    cpu.reset();
    cpu.mem_write(0x0010, 0x40);
    cpu.run().unwrap();
    assert_eq!(cpu.mem_read(0x0010), 0x80);
}

#[test]
fn inc_memory_wraps_to_zero() {
    let mut cpu = boot();
    cpu.load(vec![0xe6, 0x10, 0x00], 0x8000).unwrap();
    cpu.reset();
    cpu.mem_write(0x0010, 0xff);
    cpu.run().unwrap();
    assert_eq!(cpu.mem_read(0x0010), 0x00);
    assert_ne!(cpu.status & ZERO, 0);
}

#[test]
fn dec_memory_steps_down() {
    let mut cpu = boot();
    cpu.load(vec![0xc6, 0x10, 0x00], 0x8000).unwrap();
    cpu.reset();
    cpu.mem_write(0x0010, 0x01);
    cpu.run().unwrap();
    assert_eq!(cpu.mem_read(0x0010), 0x00);
    assert_ne!(cpu.status & ZERO, 0);
}

#[test]
fn iny_and_dey_step_y() {
    let cpu = run(vec![0xa0, 0x05, 0xc8, 0xc8, 0x88, 0x00]);
    assert_eq!(cpu.register_y, 0x06);
}

#[test]
fn dex_wraps_below_zero() {
    let cpu = run(vec![0xa2, 0x00, 0xca, 0x00]);
    assert_eq!(cpu.register_x, 0xff);
    assert_ne!(cpu.status & NEGATIVE, 0);
}

#[test]
fn transfers_move_values_and_update_flags() {
    let cpu = run(vec![0xa9, 0x80, 0xa8, 0x98, 0xaa, 0x8a, 0x00]);
    assert_eq!(cpu.register_a, 0x80);
    assert_eq!(cpu.register_x, 0x80);
    assert_eq!(cpu.register_y, 0x80);
    assert_ne!(cpu.status & NEGATIVE, 0);
}

#[test]
fn txs_moves_x_to_sp_without_touching_flags() {
    // LDX #0 sets Z; LDA #1 clears it again; TXS must leave Z clear even
    // though it writes a zero.
    let cpu = run(vec![0xa2, 0x00, 0xa9, 0x01, 0x9a, 0x00]);
    assert_eq!(cpu.stack_pointer, 0x00);
    assert_eq!(cpu.status & ZERO, 0);
}

#[test]
fn tsx_reads_sp_into_x() {
    let cpu = run(vec![0xba, 0x00]);
    assert_eq!(cpu.register_x, 0xfd);
    assert_ne!(cpu.status & NEGATIVE, 0);
}

#[test]
fn flag_instructions_set_and_clear_directly() {
    let cpu = run(vec![0x38, 0xf8, 0x78, 0x00]);
    assert_ne!(cpu.status & CARRY, 0);
    assert_ne!(cpu.status & DECIMAL, 0);
    assert_ne!(cpu.status & INTERRUPT, 0);
    let cleared = run(vec![0x38, 0xf8, 0x18, 0xd8, 0x58, 0x00]);
    assert_eq!(cleared.status & CARRY, 0);
    assert_eq!(cleared.status & DECIMAL, 0);
    assert_eq!(cleared.status & INTERRUPT, 0);
}

#[test]
fn clv_clears_overflow_left_by_adc() {
    let cpu = run(vec![0xa9, 0x50, 0x69, 0x50, 0xb8, 0x00]);
    assert_eq!(cpu.status & OVERFLOW, 0);
}

#[test]
fn beq_taken_skips_next_instruction() {
    let cpu = run(vec![0xa9, 0x00, 0xf0, 0x01, 0xe8, 0x00]);
    assert_eq!(cpu.register_x, 0x00);
}

#[test]
fn beq_not_taken_falls_through() {
    let cpu = run(vec![0xa9, 0x01, 0xf0, 0x01, 0xe8, 0x00]);
    assert_eq!(cpu.register_x, 0x01);
}

#[test]
fn bpl_branches_backward_with_negative_offset() {
    // LDX #3; DEX; BPL -3 keeps looping until DEX leaves 0xFF (negative).
    let cpu = run(vec![0xa2, 0x03, 0xca, 0x10, 0xfd, 0x00]);
    assert_eq!(cpu.register_x, 0xff);
}

#[test]
fn bcs_taken_only_when_carry_set() {
    let taken = run(vec![0x38, 0xb0, 0x01, 0xe8, 0x00]);
    assert_eq!(taken.register_x, 0x00);
    let not_taken = run(vec![0x18, 0xb0, 0x01, 0xe8, 0x00]);
    assert_eq!(not_taken.register_x, 0x01);
}

#[test]
fn bvs_taken_after_signed_overflow() {
    let cpu = run(vec![0xa9, 0x50, 0x69, 0x50, 0x70, 0x01, 0xe8, 0x00]);
    assert_eq!(cpu.register_x, 0x00);
}

#[test]
fn plp_forces_break_clear_and_unused_set() {
    let cpu = run(vec![0x08, 0x28, 0x00]);
    assert_eq!(cpu.status & BREAK, 0);
    assert_ne!(cpu.status & UNUSED, 0);
}

#[test]
fn php_plp_round_trip_preserves_carry() {
    let cpu = run(vec![0x38, 0x08, 0x18, 0x28, 0x00]);
    assert_ne!(cpu.status & CARRY, 0);
}

#[test]
fn php_pushes_break_and_unused_set() {
    let cpu = run(vec![0x38, 0x08, 0x00]);
    // Reset status is 0x24; with carry that is 0x25, pushed as 0x35.
    assert_eq!(cpu.mem_read(0x01fd), 0x35);
}

#[test]
fn adc_with_carry_in_adds_one_more() {
    let cpu = run(vec![0x38, 0xa9, 0xff, 0x69, 0x01, 0x00]);
    assert_eq!(cpu.register_a, 0x01);
    assert_ne!(cpu.status & CARRY, 0);
    assert_eq!(cpu.status & OVERFLOW, 0);
}

#[test]
fn sbc_across_sign_boundary_sets_overflow() {
    let cpu = run(vec![0x38, 0xa9, 0x50, 0xe9, 0xb0, 0x00]);
    assert_eq!(cpu.register_a, 0xa0);
    assert_ne!(cpu.status & OVERFLOW, 0);
    assert_eq!(cpu.status & CARRY, 0);
}

#[test]
fn rol_memory_writes_rotated_value_back() {
    let mut cpu = boot();
    cpu.load(vec![0x38, 0x26, 0x10, 0x00], 0x8000).unwrap();
    cpu.reset();
    cpu.mem_write(0x0010, 0x80);
    cpu.run().unwrap();
    assert_eq!(cpu.mem_read(0x0010), 0x01);
    assert_ne!(cpu.status & CARRY, 0);
}

#[test]
fn ror_memory_writes_rotated_value_back() {
    let mut cpu = boot();
    cpu.load(vec![0x38, 0x66, 0x10, 0x00], 0x8000).unwrap();
    cpu.reset();
    cpu.mem_write(0x0010, 0x01);
    cpu.run().unwrap();
    assert_eq!(cpu.mem_read(0x0010), 0x80);
    assert_ne!(cpu.status & CARRY, 0);
}

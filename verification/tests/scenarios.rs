//! End-to-end programs run through `load_and_run`: each image is placed at
//! 0x8000 with the reset vector pointing at it, and executes until BRK.
use mos6502::bus::Bus;
use mos6502::bus::Mem;
use mos6502::cpu::CPU;
use mos6502::flags::CARRY;
use mos6502::flags::NEGATIVE;
use mos6502::flags::OVERFLOW;
use mos6502::flags::ZERO;

fn fresh_cpu() -> CPU {
    CPU::new(Bus::new(vec![0u8; 0x8000]))
}

fn run_program(program: Vec<u8>) -> CPU {
    let mut cpu = fresh_cpu();
    cpu.load_and_run(program).unwrap();
    cpu
}

#[test]
fn lda_tax_moves_value_to_x() {
    let cpu = run_program(vec![0xa9, 0x0a, 0xaa, 0x00]);
    assert_eq!(cpu.register_x, 0x0a);
    assert_eq!(cpu.status & ZERO, 0);
    assert_eq!(cpu.status & NEGATIVE, 0);
}

#[test]
fn lda_tax_inx_sets_negative() {
    let cpu = run_program(vec![0xa9, 0xc0, 0xaa, 0xe8, 0x00]);
    assert_eq!(cpu.register_x, 0xc1);
    assert_ne!(cpu.status & NEGATIVE, 0);
}

#[test]
fn inx_wraps_past_ff_to_one() {
    let cpu = run_program(vec![0xa9, 0xff, 0xaa, 0xe8, 0xe8, 0x00]);
    assert_eq!(cpu.register_x, 0x01);
    assert_eq!(cpu.status & ZERO, 0);
}

#[test]
fn lda_zero_page_reads_preloaded_memory() {
    let mut cpu = fresh_cpu();
    cpu.load(vec![0xa5, 0x10, 0x00], 0x8000).unwrap();
    cpu.reset();
    cpu.mem_write(0x0010, 0x55);
    cpu.run().unwrap();
    assert_eq!(cpu.register_a, 0x55);
}

#[test]
fn adc_small_sum_clears_carry_and_overflow() {
    let cpu = run_program(vec![0xa9, 0x05, 0x69, 0x03, 0x00]);
    assert_eq!(cpu.register_a, 0x08);
    assert_eq!(cpu.status & CARRY, 0);
    assert_eq!(cpu.status & OVERFLOW, 0);
}

#[test]
fn adc_of_two_positives_sets_signed_overflow() {
    let cpu = run_program(vec![0xa9, 0x50, 0x69, 0x50, 0x00]);
    assert_eq!(cpu.register_a, 0xa0);
    assert_eq!(cpu.status & CARRY, 0);
    assert_ne!(cpu.status & OVERFLOW, 0);
}

#[test]
fn countdown_loop_stores_x_each_iteration() {
    let cpu = run_program(vec![
        0xa2, 0x08, 0xca, 0x8e, 0x00, 0x02, 0xe0, 0x03, 0xd0, 0xf8, 0x00,
    ]);
    assert_eq!(cpu.mem_read(0x0200), 0x03);
    assert_eq!(cpu.register_x, 0x03);
}

//! Addressing-mode resolution, including the zero-page and page-boundary
//! wraps in the indirect modes.
use mos6502::bus::Bus;
use mos6502::bus::Mem;
use mos6502::cpu::AddressingMode;
use mos6502::cpu::CPU;

fn boot() -> CPU {
    CPU::new(Bus::new(vec![0u8; 0x8000]))
}

#[test]
fn zero_page_x_wraps_within_page_zero() {
    let mut cpu = boot();
    cpu.mem_write(0x0040, 0xf0);
    cpu.register_x = 0x20;
    let addr = cpu.get_absolute_address(&AddressingMode::ZeroPage_X, 0x0040);
    assert_eq!(addr, 0x0010);
}

#[test]
fn zero_page_y_wraps_within_page_zero() {
    let mut cpu = boot();
    cpu.mem_write(0x0040, 0x80);
    cpu.register_y = 0x90;
    let addr = cpu.get_absolute_address(&AddressingMode::ZeroPage_Y, 0x0040);
    assert_eq!(addr, 0x0010);
}

#[test]
fn absolute_reads_little_endian_word() {
    let mut cpu = boot();
    cpu.mem_write(0x0040, 0x34);
    cpu.mem_write(0x0041, 0x12);
    let addr = cpu.get_absolute_address(&AddressingMode::Absolute, 0x0040);
    assert_eq!(addr, 0x1234);
}

#[test]
fn absolute_x_wraps_around_address_space() {
    let mut cpu = boot();
    cpu.mem_write(0x0040, 0xff);
    cpu.mem_write(0x0041, 0xff);
    cpu.register_x = 0x02;
    let addr = cpu.get_absolute_address(&AddressingMode::Absolute_X, 0x0040);
    assert_eq!(addr, 0x0001);
}

#[test]
fn indirect_x_fetches_pointer_high_byte_from_page_zero() {
    // Pointer index 0xFF + X wraps to 0x00; its high byte comes from 0x01.
    let mut cpu = boot();
    cpu.mem_write(0x0040, 0xfe);
    cpu.register_x = 0x02;
    cpu.mem_write(0x0000, 0x34);
    cpu.mem_write(0x0001, 0x12);
    let addr = cpu.get_absolute_address(&AddressingMode::Indirect_X, 0x0040);
    assert_eq!(addr, 0x1234);
}

#[test]
fn indirect_y_pointer_high_byte_wraps_to_zero() {
    // Pointer at 0xFF: low byte from 0x00FF, high byte from 0x0000.
    let mut cpu = boot();
    cpu.mem_write(0x0040, 0xff);
    cpu.mem_write(0x00ff, 0x10);
    cpu.mem_write(0x0000, 0x30);
    cpu.register_y = 0x02;
    let addr = cpu.get_absolute_address(&AddressingMode::Indirect_Y, 0x0040);
    assert_eq!(addr, 0x3012);
}

#[test]
fn lda_indirect_x_through_wrapped_pointer() {
    let mut cpu = boot();
    cpu.load(vec![0xa2, 0x01, 0xa1, 0xff, 0x00], 0x8000).unwrap();
    cpu.reset();
    cpu.mem_write(0x0000, 0x34);
    cpu.mem_write(0x0001, 0x12);
    cpu.mem_write(0x1234, 0x77);
    cpu.run().unwrap();
    assert_eq!(cpu.register_a, 0x77);
}

#[test]
fn lda_indirect_y_through_wrapped_pointer() {
    let mut cpu = boot();
    cpu.load(vec![0xa0, 0x02, 0xb1, 0xff, 0x00], 0x8000).unwrap();
    cpu.reset();
    cpu.mem_write(0x00ff, 0x10);
    cpu.mem_write(0x0000, 0x10);
    cpu.mem_write(0x1012, 0x99);
    cpu.run().unwrap();
    assert_eq!(cpu.register_a, 0x99);
}

#[test]
fn lda_absolute_x_indexes_from_base() {
    let cpu_program = vec![0xa2, 0x02, 0xa9, 0x77, 0x8d, 0x00, 0x02, 0xbd, 0xfe, 0x01, 0x00];
    let mut cpu = boot();
    cpu.load_and_run(cpu_program).unwrap();
    assert_eq!(cpu.register_a, 0x77);
}

#[test]
fn sta_zero_page_x_stores_at_indexed_cell() {
    let mut cpu = boot();
    cpu.load_and_run(vec![0xa2, 0x01, 0xa9, 0x66, 0x95, 0x10, 0x00]).unwrap();
    assert_eq!(cpu.mem_read(0x0011), 0x66);
}

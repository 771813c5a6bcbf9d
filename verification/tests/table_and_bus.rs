//! The opcode table and the harness bus.
use mos6502::bus::Bus;
use mos6502::bus::Mem;
use mos6502::cpu::AddressingMode;
use mos6502::cpu::CPU;
use mos6502::opcodes::OpCode;
use mos6502::opcodes::lookup;

#[test]
fn lookup_returns_full_record_for_official_opcode() {
    let op = lookup(0xa9).unwrap();
    assert_eq!(op.code, 0xa9);
    assert_eq!(op.mnemonic, "LDA");
    assert_eq!(op.len, 2);
    assert_eq!(op.cycles, 2);
    assert!(matches!(op.mode, AddressingMode::Immediate));
}

#[test]
fn lookup_assigns_three_byte_length_to_absolute_forms() {
    let sta_abs = lookup(0x8d).unwrap();
    assert_eq!(sta_abs.len, 3);
    assert!(matches!(sta_abs.mode, AddressingMode::Absolute));
    let jmp_ind = lookup(0x6c).unwrap();
    assert_eq!(jmp_ind.len, 3);
    assert!(matches!(jmp_ind.mode, AddressingMode::NoneAddressing));
}

#[test]
fn lookup_rejects_bytes_outside_the_table() {
    assert!(lookup(0xff).is_none());
    assert!(lookup(0x02).is_none());
    assert!(lookup(0x80).is_none());
}

#[test]
fn lookup_covers_all_official_opcodes() {
    let mut defined = 0;
    for code in 0..=255u8 {
        if let Some(op) = lookup(code) {
            assert_eq!(op.code, code);
            assert!(op.len >= 1 && op.len <= 3);
            defined += 1;
        }
    }
    assert_eq!(defined, 151);
}

#[test]
fn opcode_new_builds_the_given_record() {
    let op = OpCode::new(0xea, "NOP", 1, 2, AddressingMode::NoneAddressing);
    assert_eq!(op.code, 0xea);
    assert_eq!(op.mnemonic, "NOP");
    assert_eq!(op.len, 1);
    assert_eq!(op.cycles, 2);
}

#[test]
fn bus_zeroes_ram_and_maps_image_at_upper_half() {
    let mut image = vec![0u8; 0x8000];
    image[0] = 0xab;
    image[0x7fff] = 0xcd;
    let bus = Bus::new(image);
    assert_eq!(bus.mem_read(0x0000), 0x00);
    assert_eq!(bus.mem_read(0x7fff), 0x00);
    assert_eq!(bus.mem_read(0x8000), 0xab);
    assert_eq!(bus.mem_read(0xffff), 0xcd);
}

#[test]
fn bus_mirrors_sixteen_kilobyte_image() {
    let mut image = vec![0u8; 0x4000];
    image[0] = 0x11;
    image[0x3ffc] = 0x00;
    image[0x3ffd] = 0xc0;
    let bus = Bus::new(image);
    assert_eq!(bus.mem_read(0x8000), 0x11);
    assert_eq!(bus.mem_read(0xc000), 0x11);
    // The reset vector lands in the mirrored upper bank.
    assert_eq!(bus.mem_read(0xfffc), 0x00);
    assert_eq!(bus.mem_read(0xfffd), 0xc0);
}

#[test]
fn bus_reads_back_written_bytes() {
    let mut bus = Bus::new(vec![0u8; 0x8000]);
    bus.mem_write(0x0123, 0x45);
    assert_eq!(bus.mem_read(0x0123), 0x45);
    bus.mem_write_u16(0x0200, 0xbeef);
    assert_eq!(bus.mem_read(0x0200), 0xef);
    assert_eq!(bus.mem_read(0x0201), 0xbe);
    assert_eq!(bus.mem_read_u16(0x0200), 0xbeef);
}

#[test]
fn word_read_at_top_of_memory_wraps_to_address_zero() {
    let mut bus = Bus::new(vec![0u8; 0x8000]);
    bus.mem_write(0x0000, 0x12);
    let mut cpu = CPU::new(bus);
    cpu.mem_write(0xffff, 0x34);
    assert_eq!(cpu.mem_read_u16(0xffff), 0x1234);
}

#[test]
fn cpu_new_starts_at_reset_register_values() {
    let cpu = CPU::new(Bus::new(vec![0u8; 0x8000]));
    assert_eq!(cpu.register_a, 0);
    assert_eq!(cpu.register_x, 0);
    assert_eq!(cpu.register_y, 0);
    assert_eq!(cpu.status, 0x24);
    assert_eq!(cpu.stack_pointer, 0xfd);
    assert_eq!(cpu.program_counter, 0);
}

#[test]
fn load_writes_image_and_reset_vector() {
    let mut cpu = CPU::new(Bus::new(vec![0u8; 0x8000]));
    cpu.load(vec![0xa9, 0x05, 0x00], 0x8000).unwrap();
    assert_eq!(cpu.mem_read(0x8000), 0xa9);
    assert_eq!(cpu.mem_read(0x8001), 0x05);
    assert_eq!(cpu.mem_read(0x8002), 0x00);
    assert_eq!(cpu.mem_read(0xfffc), 0x00);
    assert_eq!(cpu.mem_read(0xfffd), 0x80);
}

#[test]
fn reset_clears_registers_and_loads_vector() {
    let mut cpu = CPU::new(Bus::new(vec![0u8; 0x8000]));
    cpu.load(vec![0xe8, 0x00], 0x0600).unwrap();
    cpu.register_a = 7;
    cpu.register_x = 7;
    cpu.register_y = 7;
    cpu.reset();
    assert_eq!(cpu.register_a, 0);
    assert_eq!(cpu.register_x, 0);
    assert_eq!(cpu.register_y, 0);
    assert_eq!(cpu.stack_pointer, 0xfd);
    assert_eq!(cpu.status, 0x24);
    assert_eq!(cpu.program_counter, 0x0600);
}

#[test]
fn load_at_test_harness_origin_runs_there() {
    let mut cpu = CPU::new(Bus::new(vec![0u8; 0x8000]));
    cpu.load(vec![0xa9, 0x3c, 0x00], 0x0600).unwrap();
    cpu.reset();
    cpu.run().unwrap();
    assert_eq!(cpu.register_a, 0x3c);
    assert_eq!(cpu.program_counter, 0x0603);
}

#[test]
fn ram_is_mirrored_across_the_low_pages() {
    let mut bus = Bus::new(vec![0u8; 0x8000]);
    bus.mem_write(0x0000, 5);
    bus.mem_write(0x0800, 7);
    // 0x0800 aliases 0x0000: the later write wins everywhere.
    assert_eq!(bus.mem_read(0x0000), 7);
    assert_eq!(bus.mem_read(0x1000), 7);
    assert_eq!(bus.mem_read(0x1800), 7);
    bus.mem_write(0x1fff, 0x42);
    assert_eq!(bus.mem_read(0x07ff), 0x42);
}

#[test]
fn register_regions_store_nothing() {
    let mut bus = Bus::new(vec![0u8; 0x8000]);
    bus.mem_write(0x2000, 0x55);
    bus.mem_write(0x4020, 0x66);
    assert_eq!(bus.mem_read(0x2000), 0);
    assert_eq!(bus.mem_read(0x4020), 0);
    // The swallowed writes leave RAM and the program region alone.
    assert_eq!(bus.mem_read(0x0020), 0);
    assert_eq!(bus.mem_read(0x8020), 0);
}

#[test]
fn program_region_is_loadable_storage() {
    let mut bus = Bus::new(vec![0u8; 0x8000]);
    bus.mem_write(0x8000, 0xa9);
    bus.mem_write(0xfffc, 0x00);
    bus.mem_write(0xfffd, 0x80);
    assert_eq!(bus.mem_read(0x8000), 0xa9);
    assert_eq!(bus.mem_read_u16(0xfffc), 0x8000);
}

#[test]
fn program_runs_against_mirrored_ram() {
    // STA $0800 writes the cell 0x0000 mirrors; LDA $00 reads it back.
    let mut cpu = CPU::new(Bus::new(vec![0u8; 0x8000]));
    cpu.load_and_run(vec![0xa9, 0x3d, 0x8d, 0x00, 0x08, 0xa9, 0x00, 0xa5, 0x00, 0x00]).unwrap();
    assert_eq!(cpu.register_a, 0x3d);
    assert_eq!(cpu.mem_read(0x1800), 0x3d);
}

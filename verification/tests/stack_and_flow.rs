//! Stack discipline, subroutines, jumps, interrupt return, the observer
//! hook, and the reported faults.
use mos6502::bus::Bus;
use mos6502::bus::Mem;
use mos6502::cpu::CPU;
use mos6502::cpu::CpuError;
use mos6502::flags::BREAK;
use mos6502::flags::CARRY;
use mos6502::flags::UNUSED;
use std::cell::Cell;

fn boot() -> CPU {
    CPU::new(Bus::new(vec![0u8; 0x8000]))
}

fn run(program: Vec<u8>) -> CPU {
    let mut cpu = boot();
    cpu.load_and_run(program).unwrap();
    cpu
}

#[test]
fn pha_pla_round_trips_accumulator() {
    let cpu = run(vec![0xa9, 0x42, 0x48, 0xa9, 0x00, 0x68, 0x00]);
    assert_eq!(cpu.register_a, 0x42);
    assert_eq!(cpu.stack_pointer, 0xfd);
}

#[test]
fn stack_pointer_wraps_modulo_256_on_pulls() {
    // Three pulls from the reset position 0xFD step it 0xFE, 0xFF, 0x00.
    let cpu = run(vec![0x68, 0x68, 0x68, 0x00]);
    assert_eq!(cpu.stack_pointer, 0x00);
}

#[test]
fn stack_pointer_wraps_modulo_256_on_pushes() {
    // 0xFE pushes from 0xFD wrap the pointer all the way around to 0xFF.
    let mut program = vec![0x48; 0xfe];
    program.push(0x00);
    let cpu = run(program);
    assert_eq!(cpu.stack_pointer, 0xff);
}

#[test]
fn jsr_runs_subroutine_and_rts_returns_past_call() {
    let cpu = run(vec![0x20, 0x04, 0x80, 0x00, 0x60]);
    // RTS resumes at the BRK right after the JSR; the halt leaves the
    // program counter one past it, and the stack pointer is restored.
    assert_eq!(cpu.program_counter, 0x8004);
    assert_eq!(cpu.stack_pointer, 0xfd);
}

#[test]
fn jsr_pushes_address_of_calls_last_byte() {
    let cpu = run(vec![0x20, 0x04, 0x80, 0x00, 0x60]);
    // The pushed word is 0x8002: high byte at 0x01FD, low at 0x01FC.
    assert_eq!(cpu.mem_read(0x01fd), 0x80);
    assert_eq!(cpu.mem_read(0x01fc), 0x02);
}

#[test]
fn nested_jsr_rts_unwinds_in_order() {
    // main: JSR first; BRK. first: JSR second; RTS. second: INX; RTS.
    let cpu = run(vec![
        0x20, 0x04, 0x80, 0x00, 0x20, 0x08, 0x80, 0x60, 0xe8, 0x60,
    ]);
    assert_eq!(cpu.register_x, 0x01);
    assert_eq!(cpu.stack_pointer, 0xfd);
    assert_eq!(cpu.program_counter, 0x8004);
}

#[test]
fn jmp_absolute_transfers_control() {
    let cpu = run(vec![0x4c, 0x05, 0x80, 0xe8, 0x00, 0xa9, 0x07, 0x00]);
    assert_eq!(cpu.register_a, 0x07);
    assert_eq!(cpu.register_x, 0x00);
}

#[test]
fn jmp_indirect_wraps_pointer_read_within_page() {
    // The pointer word sits at 0x02FF; the 6502 fetches its high byte from
    // 0x0200, not 0x0300. 0x0300 holds a decoy that would send the jump to
    // 0xFF05 if the carry leaked into the next page.
    let mut cpu = boot();
    cpu.load(vec![0x6c, 0xff, 0x02, 0xea, 0xea, 0xa9, 0x09, 0x00], 0x8000).unwrap();
    cpu.reset();
    cpu.mem_write(0x02ff, 0x05);
    cpu.mem_write(0x0200, 0x80);
    cpu.mem_write(0x0300, 0xff);
    cpu.run().unwrap();
    assert_eq!(cpu.register_a, 0x09);
}

#[test]
fn jmp_indirect_off_boundary_reads_next_byte() {
    let mut cpu = boot();
    cpu.load(vec![0x6c, 0x10, 0x02, 0xea, 0xea, 0xa9, 0x0b, 0x00], 0x8000).unwrap();
    cpu.reset();
    cpu.mem_write(0x0210, 0x05);
    cpu.mem_write(0x0211, 0x80);
    cpu.run().unwrap();
    assert_eq!(cpu.register_a, 0x0b);
}

#[test]
fn rti_restores_status_and_program_counter() {
    // Build a fake interrupt frame by hand: push PC 0x800B (high, low),
    // then a status byte with carry set, and RTI through it.
    let cpu = run(vec![
        0xa9, 0x80, 0x48, 0xa9, 0x0b, 0x48, 0xa9, 0x01, 0x48, 0x40, 0x00, 0xe8, 0x00,
    ]);
    assert_eq!(cpu.register_x, 0x01);
    assert_ne!(cpu.status & CARRY, 0);
    assert_ne!(cpu.status & UNUSED, 0);
    assert_eq!(cpu.status & BREAK, 0);
}

#[test]
fn run_with_callback_fires_after_each_instruction() {
    let mut cpu = boot();
    cpu.load(vec![0xa9, 0x01, 0xaa, 0x00], 0x8000).unwrap();
    cpu.reset();
    let seen = Cell::new(0u32);
    cpu.run_with_callback(|_state: &CPU| {
        seen.set(seen.get() + 1);
    })
    .unwrap();
    // LDA and TAX each complete once; BRK halts before its observer call.
    assert_eq!(seen.get(), 2);
}

#[test]
fn callback_sees_intermediate_register_state() {
    let mut cpu = boot();
    cpu.load(vec![0xa9, 0x05, 0xa9, 0x09, 0x00], 0x8000).unwrap();
    cpu.reset();
    let first_a = Cell::new(0u8);
    let calls = Cell::new(0u32);
    cpu.run_with_callback(|state: &CPU| {
        if calls.get() == 0 {
            first_a.set(state.register_a);
        }
        calls.set(calls.get() + 1);
    })
    .unwrap();
    assert_eq!(first_a.get(), 0x05);
    assert_eq!(cpu.register_a, 0x09);
}

#[test]
fn unknown_opcode_reports_byte_and_address() {
    let mut cpu = boot();
    let result = cpu.load_and_run(vec![0xea, 0xff, 0x00]);
    assert_eq!(
        result,
        Err(CpuError::UnknownOpcode { code: 0xff, pc: 0x8001 })
    );
}

#[test]
fn oversized_image_is_refused_at_load_time() {
    let mut cpu = boot();
    let result = cpu.load(vec![0x00; 0x8001], 0x8000);
    assert_eq!(
        result,
        Err(CpuError::LoadOutOfRange { origin: 0x8000, len: 0x8001 })
    );
    // Nothing was written: the reset vector still reads zero.
    assert_eq!(cpu.mem_read(0xfffc), 0x00);
}

#[test]
fn load_at_high_origin_checks_the_end_of_memory() {
    let mut cpu = boot();
    assert!(cpu.load(vec![0xea, 0x00], 0xfffe).is_ok());
    assert_eq!(
        cpu.load(vec![0xea, 0xea, 0x00], 0xfffe),
        Err(CpuError::LoadOutOfRange { origin: 0xfffe, len: 3 })
    );
}

//! The architectural machine model: one record for everything an
//! instruction can see and change, a step function over it, and the
//! outcome relation the fetch-decode-execute loop is verified against.
use crate::alu;
use crate::cpu;
use crate::flags;
use crate::opcodes;
use vstd::prelude::*;

verus! {

/// How many instructions one `run` may execute before it gives up: an
/// astronomically large budget, present so the loop provably terminates.
pub const STEP_BUDGET: u64 = 0xffff_ffff_ffff_ffff;

/// The architectural state one instruction reads and writes: the register
/// file, the status byte, the stack pointer, the program counter, and the
/// bus's 64 KiB view.
#[verifier::ext_equal]
pub struct Machine {
    pub a: u8,
    pub x: u8,
    pub y: u8,
    pub status: u8,
    pub sp: u8,
    pub pc: u16,
    pub mem: Seq<u8>,
}

/// The byte the next fetch reads.
pub open spec fn fetch(m: Machine) -> u8 {
    m.mem[m.pc as int]
}

/// The next fetch neither halts nor faults: the byte is in the opcode
/// table and is not the halt opcode.
pub open spec fn runnable(m: Machine) -> bool {
    fetch(m) != 0x00 && opcodes::opcode_defined(fetch(m))
}

/// The machine with its program counter stepped past the opcode byte.
pub open spec fn past_opcode(m: Machine) -> Machine {
    Machine { pc: m.pc.wrapping_add(1), ..m }
}

/// The incoming carry an ALU instruction sees.
pub open spec fn carry(m: Machine) -> bool {
    flags::flag_set(m.status, flags::CARRY)
}

/// Where the operand of opcode `code` lives, with the program counter at
/// the operand byte(s).
pub open spec fn m_operand_addr(m: Machine, code: u8) -> u16 {
    cpu::effective_address(m.mem, opcodes::opcode_mode(code), m.pc, m.x, m.y)
}

/// The operand byte of opcode `code`.
pub open spec fn m_operand(m: Machine, code: u8) -> u8 {
    m.mem[m_operand_addr(m, code) as int]
}

/// What one dispatched instruction does to the machine, with the program
/// counter already past the opcode byte and before the shared
/// post-dispatch advance. Defined for every byte the table holds except
/// the halt opcode; other bytes leave the machine unchanged.
pub open spec fn opcode_effect(m: Machine, code: u8) -> Machine {
    match code {
        0x69 | 0x65 | 0x75 | 0x6d | 0x7d | 0x79 | 0x61 | 0x71 => Machine {
            a: alu::adc_result(m.a, m_operand(m, code), carry(m)),
            status: cpu::adc_flags(m.status, m.a, m_operand(m, code)),
            ..m
        },
        0xe9 | 0xed | 0xfd | 0xf9 | 0xe5 | 0xf5 | 0xe1 | 0xf1 => Machine {
            a: alu::sbc_result(m.a, m_operand(m, code), carry(m)),
            status: cpu::sbc_flags(m.status, m.a, m_operand(m, code)),
            ..m
        },
        0xc9 | 0xcd | 0xdd | 0xd9 | 0xc5 | 0xd5 | 0xc1 | 0xd1 => Machine {
            status: cmp_status(m.status, m.a, m_operand(m, code)),
            ..m
        },
        0xe0 | 0xec | 0xe4 => Machine {
            status: cmp_status(m.status, m.x, m_operand(m, code)),
            ..m
        },
        0xc0 | 0xcc | 0xc4 => Machine {
            status: cmp_status(m.status, m.y, m_operand(m, code)),
            ..m
        },
        0x29 | 0x25 | 0x35 | 0x2d | 0x3d | 0x39 | 0x21 | 0x31 => loaded_a(
            m,
            m_operand(m, code) & m.a,
        ),
        0x49 | 0x4d | 0x5d | 0x59 | 0x45 | 0x55 | 0x41 | 0x51 => loaded_a(
            m,
            m_operand(m, code) ^ m.a,
        ),
        0x09 | 0x0d | 0x1d | 0x19 | 0x05 | 0x15 | 0x01 | 0x11 => loaded_a(
            m,
            m_operand(m, code) | m.a,
        ),
        0x24 | 0x2c => Machine {
            status: flags::with_flag(
                flags::with_flag(
                    flags::with_flag(m.status, flags::ZERO, m.a & m_operand(m, code) == 0),
                    flags::NEGATIVE,
                    m_operand(m, code) & 0x80 != 0,
                ),
                flags::OVERFLOW,
                m_operand(m, code) & 0x40 != 0,
            ),
            ..m
        },
        0x0a => shifted_a(m, alu::asl_result(m.a), m.a & 0x80 != 0),
        0x4a => shifted_a(m, alu::lsr_result(m.a), m.a & 0x01 != 0),
        0x2a => shifted_a(m, alu::rol_result(m.a, carry(m)), m.a & 0x80 != 0),
        0x6a => shifted_a(m, alu::ror_result(m.a, carry(m)), m.a & 0x01 != 0),
        0x06 | 0x16 | 0x0e | 0x1e => shifted_mem(
            m,
            code,
            alu::asl_result(m_operand(m, code)),
            m_operand(m, code) & 0x80 != 0,
        ),
        0x4e | 0x5e | 0x46 | 0x56 => shifted_mem(
            m,
            code,
            alu::lsr_result(m_operand(m, code)),
            m_operand(m, code) & 0x01 != 0,
        ),
        0x2e | 0x3e | 0x26 | 0x36 => shifted_mem(
            m,
            code,
            alu::rol_result(m_operand(m, code), carry(m)),
            m_operand(m, code) & 0x80 != 0,
        ),
        0x6e | 0x7e | 0x66 | 0x76 => shifted_mem(
            m,
            code,
            alu::ror_result(m_operand(m, code), carry(m)),
            m_operand(m, code) & 0x01 != 0,
        ),
        0xa9 | 0xa5 | 0xb5 | 0xad | 0xbd | 0xb9 | 0xa1 | 0xb1 => loaded_a(m, m_operand(m, code)),
        0xa2 | 0xae | 0xbe | 0xa6 | 0xb6 => loaded_x(m, m_operand(m, code)),
        0xa0 | 0xac | 0xbc | 0xa4 | 0xb4 => loaded_y(m, m_operand(m, code)),
        0x85 | 0x95 | 0x8d | 0x9d | 0x99 | 0x81 | 0x91 => stored(m, code, m.a),
        0x8e | 0x86 | 0x96 => stored(m, code, m.x),
        0x8c | 0x84 | 0x94 => stored(m, code, m.y),
        0xce | 0xde | 0xc6 | 0xd6 => stepped_mem(m, code, m_operand(m, code).wrapping_sub(1)),
        0xee | 0xfe | 0xe6 | 0xf6 => stepped_mem(m, code, m_operand(m, code).wrapping_add(1)),
        0xca => loaded_x(m, m.x.wrapping_sub(1)),
        0x88 => loaded_y(m, m.y.wrapping_sub(1)),
        0xe8 => loaded_x(m, m.x.wrapping_add(1)),
        0xc8 => loaded_y(m, m.y.wrapping_add(1)),
        0x90 => branched(m, !flags::flag_set(m.status, flags::CARRY)),
        0xb0 => branched(m, flags::flag_set(m.status, flags::CARRY)),
        0xf0 => branched(m, flags::flag_set(m.status, flags::ZERO)),
        0x30 => branched(m, flags::flag_set(m.status, flags::NEGATIVE)),
        0xd0 => branched(m, !flags::flag_set(m.status, flags::ZERO)),
        0x10 => branched(m, !flags::flag_set(m.status, flags::NEGATIVE)),
        0x50 => branched(m, !flags::flag_set(m.status, flags::OVERFLOW)),
        0x70 => branched(m, flags::flag_set(m.status, flags::OVERFLOW)),
        0x18 => flag_op(m, flags::CARRY, false),
        0xd8 => flag_op(m, flags::DECIMAL, false),
        0x58 => flag_op(m, flags::INTERRUPT, false),
        0xb8 => flag_op(m, flags::OVERFLOW, false),
        0x38 => flag_op(m, flags::CARRY, true),
        0xf8 => flag_op(m, flags::DECIMAL, true),
        0x78 => flag_op(m, flags::INTERRUPT, true),
        0xaa => loaded_x(m, m.a),
        0xa8 => loaded_y(m, m.a),
        0xba => loaded_x(m, m.sp),
        0x8a => loaded_a(m, m.x),
        0x98 => loaded_a(m, m.y),
        0x9a => Machine { sp: m.x, ..m },
        0x48 => pushed(m, m.a),
        0x08 => pushed(m, flags::php_pushed(m.status)),
        0x68 => Machine {
            a: pulled(m),
            status: flags::zn_updated(m.status, pulled(m)),
            sp: m.sp.wrapping_add(1),
            ..m
        },
        0x28 => Machine {
            status: flags::plp_restored(pulled(m)),
            sp: m.sp.wrapping_add(1),
            ..m
        },
        0x4c => Machine { pc: cpu::word_at(m.mem, m.pc), ..m },
        0x6c => Machine {
            pc: cpu::jmp_indirect_target(m.mem, cpu::word_at(m.mem, m.pc)),
            ..m
        },
        0x20 => Machine {
            mem: cpu::push16_mem(m.mem, m.sp, m.pc.wrapping_add(1)),
            sp: m.sp.wrapping_sub(2),
            pc: cpu::word_at(cpu::push16_mem(m.mem, m.sp, m.pc.wrapping_add(1)), m.pc),
            ..m
        },
        0x60 => Machine {
            pc: cpu::pop16_val(m.mem, m.sp).wrapping_add(1),
            sp: m.sp.wrapping_add(2),
            ..m
        },
        0x40 => Machine {
            status: flags::plp_restored(pulled(m)),
            pc: cpu::pop16_val(m.mem, m.sp.wrapping_add(1)),
            sp: m.sp.wrapping_add(3),
            ..m
        },
        _ => m,
    }
}

/// CMP/CPX/CPY's status outcome: C when the register is at least the
/// operand, Z and N from the 8-bit difference.
pub open spec fn cmp_status(p: u8, reg: u8, operand: u8) -> u8 {
    flags::zn_updated(
        flags::with_flag(p, flags::CARRY, reg >= operand),
        alu::cmp_diff(reg, operand),
    )
}

/// A value written to the accumulator, with Z and N following it.
pub open spec fn loaded_a(m: Machine, v: u8) -> Machine {
    Machine { a: v, status: flags::zn_updated(m.status, v), ..m }
}

/// A value written to X, with Z and N following it.
pub open spec fn loaded_x(m: Machine, v: u8) -> Machine {
    Machine { x: v, status: flags::zn_updated(m.status, v), ..m }
}

/// A value written to Y, with Z and N following it.
pub open spec fn loaded_y(m: Machine, v: u8) -> Machine {
    Machine { y: v, status: flags::zn_updated(m.status, v), ..m }
}

/// An accumulator shift: the shifted value lands in A, the expelled bit in
/// the carry, Z and N follow the result.
pub open spec fn shifted_a(m: Machine, r: u8, carry_out: bool) -> Machine {
    Machine {
        a: r,
        status: flags::zn_updated(flags::with_flag(m.status, flags::CARRY, carry_out), r),
        ..m
    }
}

/// A read-modify-write shift on memory: the shifted value is written back
/// to the operand address, the expelled bit goes to the carry, Z and N
/// follow the result.
pub open spec fn shifted_mem(m: Machine, code: u8, r: u8, carry_out: bool) -> Machine {
    Machine {
        mem: crate::bus::bus_write(m.mem, m_operand_addr(m, code), r),
        status: flags::zn_updated(flags::with_flag(m.status, flags::CARRY, carry_out), r),
        ..m
    }
}

/// A register stored to the operand address; flags untouched.
pub open spec fn stored(m: Machine, code: u8, v: u8) -> Machine {
    Machine { mem: crate::bus::bus_write(m.mem, m_operand_addr(m, code), v), ..m }
}

/// INC/DEC on memory: the stepped value written back, Z and N following it.
pub open spec fn stepped_mem(m: Machine, code: u8, v: u8) -> Machine {
    Machine {
        mem: crate::bus::bus_write(m.mem, m_operand_addr(m, code), v),
        status: flags::zn_updated(m.status, v),
        ..m
    }
}

/// A conditional branch over the offset byte at the program counter.
pub open spec fn branched(m: Machine, cond: bool) -> Machine {
    if cond {
        Machine { pc: alu::branch_target(m.pc, m.mem[m.pc as int]), ..m }
    } else {
        m
    }
}

/// A direct flag set or clear.
pub open spec fn flag_op(m: Machine, mask: u8, on: bool) -> Machine {
    Machine { status: flags::with_flag(m.status, mask, on), ..m }
}

/// One byte pushed: it lands behind the stack pointer, which steps down.
pub open spec fn pushed(m: Machine, v: u8) -> Machine {
    Machine {
        mem: crate::bus::bus_write(m.mem, cpu::stack_addr(m.sp), v),
        sp: m.sp.wrapping_sub(1),
        ..m
    }
}

/// The byte one pull returns.
pub open spec fn pulled(m: Machine) -> u8 {
    m.mem[cpu::stack_addr(m.sp.wrapping_add(1)) as int]
}

/// One full instruction: fetch the opcode byte, step past it, run the
/// opcode's effect, and advance by the instruction length unless the
/// instruction left the program counter somewhere else — the shared
/// post-dispatch rule of the interpreter.
pub open spec fn machine_step(m: Machine) -> Machine {
    let code = fetch(m);
    let m1 = past_opcode(m);
    let e = opcode_effect(m1, code);
    if e.pc == m1.pc {
        Machine { pc: e.pc.wrapping_add((opcodes::opcode_len(code) - 1) as u16), ..e }
    } else {
        e
    }
}

/// The machine after `n` instructions.
pub open spec fn run_n(m: Machine, n: nat) -> Machine
    decreases n,
{
    if n == 0 {
        m
    } else {
        machine_step(run_n(m, (n - 1) as nat))
    }
}

/// The first `n` fetches all find a defined, non-halt opcode.
pub open spec fn steps_runnable(m: Machine, n: nat) -> bool
    decreases n,
{
    if n == 0 {
        true
    } else {
        steps_runnable(m, (n - 1) as nat) && runnable(run_n(m, (n - 1) as nat))
    }
}

/// What the fetch-decode-execute loop promises about its result: a normal
/// return executed some number of instructions and then fetched the halt
/// opcode; an unknown-opcode error executed some number of instructions
/// and then fetched the reported byte at the reported address, which the
/// table does not define; the budget error ran the whole instruction
/// budget. In each case the final state is exactly the machine those
/// instructions produce, with the program counter just past the last
/// fetched opcode byte where one was fetched.
pub open spec fn run_outcome(m0: Machine, post: Machine, r: Result<(), cpu::CpuError>) -> bool {
    match r {
        Ok(()) => exists|n: nat|
            steps_runnable(m0, n) && fetch(#[trigger] run_n(m0, n)) == 0x00 && post == past_opcode(
                run_n(m0, n),
            ),
        Err(e) => match e {
            cpu::CpuError::UnknownOpcode { code, pc } => !opcodes::opcode_defined(code)
                && exists|n: nat|
                steps_runnable(m0, n) && fetch(#[trigger] run_n(m0, n)) == code && run_n(
                    m0,
                    n,
                ).pc == pc && post == past_opcode(run_n(m0, n)),
            cpu::CpuError::StepLimit { pc } => steps_runnable(m0, STEP_BUDGET as nat) && post
                == run_n(m0, STEP_BUDGET as nat) && pc == post.pc,
            cpu::CpuError::LoadOutOfRange { .. } => false,
        },
    }
}

/// The machine `load_and_run` hands to the interpreter: the image placed
/// at the cartridge origin with the reset vector recorded, and the
/// register file in its reset state with the program counter loaded from
/// that vector.
pub open spec fn boot_machine(mem0: Seq<u8>, prog: Seq<u8>) -> Machine {
    let mem = cpu::loaded_mem(mem0, cpu::LOAD_ORIGIN, prog);
    Machine {
        a: 0,
        x: 0,
        y: 0,
        status: flags::RESET_STATUS,
        sp: cpu::STACK_RESET,
        pc: cpu::word_at(mem, 0xfffc),
        mem,
    }
}

} // verus!

//! The CPU core: register file, status flags, stack discipline, addressing
//! mode resolution, and the fetch-decode-execute loop.
use crate::alu;
use crate::bus::Bus;
use crate::bus::Mem;
use crate::flags;
use vstd::prelude::*;

verus! {

/// Page 1 holds the stack: the byte behind the stack pointer lives at
/// 0x0100 + SP.
pub const STACK: u16 = 0x0100;

/// Where the stack pointer starts after reset.
pub const STACK_RESET: u8 = 0xfd;

/// Where `load_and_run` places program images: the cartridge origin.
pub const LOAD_ORIGIN: u16 = 0x8000;

/// The rule by which an instruction computes the effective address of its
/// operand. `NoneAddressing` covers implied and accumulator instructions,
/// which have no memory operand.
#[allow(non_camel_case_types)]
#[derive(Debug, Clone, Copy)]
pub enum AddressingMode {
    Immediate,
    ZeroPage,
    ZeroPage_X,
    ZeroPage_Y,
    Absolute,
    Absolute_X,
    Absolute_Y,
    Indirect_X,
    Indirect_Y,
    NoneAddressing,
}

/// The architectural state of the processor, bound to the bus it executes
/// against.
pub struct CPU {
    pub register_a: u8,
    pub register_x: u8,
    pub register_y: u8,
    pub status: u8,
    pub stack_pointer: u8,
    pub program_counter: u16,
    pub bus: Bus,
}

/// Why a run stopped short of the halt opcode, or a load was refused.
#[derive(Debug, Clone, Copy, PartialEq, Eq)]
pub enum CpuError {
    /// The fetched byte is not in the opcode table; `pc` is where it was
    /// fetched from.
    UnknownOpcode { code: u8, pc: u16 },
    /// A program image would run past the end of the address space.
    LoadOutOfRange { origin: u16, len: usize },
    /// The interpreter's instruction budget ran out before a halt.
    StepLimit { pc: u16 },
}

/// The address in page 1 the stack pointer `sp` selects.
pub open spec fn stack_addr(sp: u8) -> u16 {
    (STACK + sp) as u16
}

/// The memory after a 16-bit push: high byte first, then low, each push
/// stepping the stack pointer down with 8-bit wraparound.
pub open spec fn push16_mem(mem: Seq<u8>, sp: u8, w: u16) -> Seq<u8> {
    crate::bus::bus_write(
        crate::bus::bus_write(mem, stack_addr(sp), alu::hi8(w)),
        stack_addr(sp.wrapping_sub(1)),
        alu::lo8(w),
    )
}

/// The 16-bit word a pull from stack state (`mem`, `sp`) returns: low byte
/// first, then high.
pub open spec fn pop16_val(mem: Seq<u8>, sp: u8) -> u16 {
    alu::word(
        mem[stack_addr(sp.wrapping_add(1)) as int],
        mem[stack_addr(sp.wrapping_add(1).wrapping_add(1)) as int],
    )
}

/// The memory after a program image is copied in byte by byte, ascending
/// from `origin`: the bus's own write semantics applies to each byte, so
/// later writes to an aliased cell win.
pub open spec fn store_all(mem: Seq<u8>, origin: u16, prog: Seq<u8>) -> Seq<u8>
    decreases prog.len(),
{
    if prog.len() == 0 {
        mem
    } else {
        store_all(
            crate::bus::bus_write(mem, origin, prog[0]),
            origin.wrapping_add(1),
            prog.subrange(1, prog.len() as int),
        )
    }
}

/// The memory after `load`: the image copied in at `origin`, then `origin`
/// recorded little-endian in the reset vector.
pub open spec fn loaded_mem(mem: Seq<u8>, origin: u16, prog: Seq<u8>) -> Seq<u8> {
    crate::bus::bus_write(
        crate::bus::bus_write(store_all(mem, origin, prog), 0xfffc, alu::lo8(origin)),
        0xfffd,
        alu::hi8(origin),
    )
}

/// The effective operand address for `mode`, with `base` the address of
/// the operand byte(s) — the program counter just after the opcode fetch.
/// Note the zero-page wrap in both indirect modes: the pointer's high byte
/// is fetched from (p+1) mod 256, never from page 1.
pub open spec fn effective_address(
    mem: Seq<u8>,
    mode: AddressingMode,
    base: u16,
    x: u8,
    y: u8,
) -> u16 {
    match mode {
        AddressingMode::Immediate => base,
        AddressingMode::ZeroPage => mem[base as int] as u16,
        AddressingMode::ZeroPage_X => mem[base as int].wrapping_add(x) as u16,
        AddressingMode::ZeroPage_Y => mem[base as int].wrapping_add(y) as u16,
        AddressingMode::Absolute => word_at(mem, base),
        AddressingMode::Absolute_X => word_at(mem, base).wrapping_add(x as u16),
        AddressingMode::Absolute_Y => word_at(mem, base).wrapping_add(y as u16),
        AddressingMode::Indirect_X => zp_pointer(mem, mem[base as int].wrapping_add(x)),
        AddressingMode::Indirect_Y => zp_pointer(mem, mem[base as int]).wrapping_add(y as u16),
        AddressingMode::NoneAddressing => 0,
    }
}

/// The 16-bit word at `addr`, little-endian, the high byte coming from the
/// successor address with 16-bit wraparound.
pub open spec fn word_at(mem: Seq<u8>, addr: u16) -> u16 {
    alu::word(mem[addr as int], mem[addr.wrapping_add(1) as int])
}

/// A pointer read from page zero: the low byte at `p`, the high byte at
/// (p+1) mod 256.
pub open spec fn zp_pointer(mem: Seq<u8>, p: u8) -> u16 {
    alu::word(mem[p as int], mem[p.wrapping_add(1) as int])
}

/// The address indirect JMP fetches its target's high byte from. On a
/// page boundary (low byte 0xFF) the 6502 wraps within the page instead of
/// carrying into the next one.
pub open spec fn jmp_high_addr(ptr: u16) -> u16 {
    if ptr & 0x00ff == 0x00ff {
        ptr & 0xff00
    } else {
        ptr.wrapping_add(1)
    }
}

/// The target of an indirect JMP through the pointer word at `ptr`,
/// including the page-wrap quirk for the high byte.
pub open spec fn jmp_indirect_target(mem: Seq<u8>, ptr: u16) -> u16 {
    alu::word(mem[ptr as int], mem[jmp_high_addr(ptr) as int])
}

/// Where the current instruction's operand lives, with the program counter
/// pointing at the operand byte(s).
pub open spec fn operand_addr(cpu: CPU, mode: AddressingMode) -> u16 {
    effective_address(cpu.mem(), mode, cpu.program_counter, cpu.register_x, cpu.register_y)
}

/// The current instruction's operand byte.
pub open spec fn operand(cpu: CPU, mode: AddressingMode) -> u8 {
    cpu.mem()[operand_addr(cpu, mode) as int]
}

/// The status byte after ADC ran on accumulator `a` and operand `m` under
/// status `p`: carry and overflow from the wide sum, then Z and N from the
/// 8-bit result.
pub open spec fn adc_flags(p: u8, a: u8, m: u8) -> u8 {
    let c = flags::flag_set(p, flags::CARRY);
    flags::zn_updated(
        flags::with_flag(
            flags::with_flag(p, flags::CARRY, alu::adc_carry(a, m, c)),
            flags::OVERFLOW,
            alu::adc_overflow(a, m, c),
        ),
        alu::adc_result(a, m, c),
    )
}

/// The status byte after SBC ran on accumulator `a` and operand `m` under
/// status `p`: carry clear exactly when a borrow was needed, overflow from
/// the signed difference, then Z and N from the 8-bit result.
pub open spec fn sbc_flags(p: u8, a: u8, m: u8) -> u8 {
    let c = flags::flag_set(p, flags::CARRY);
    flags::zn_updated(
        flags::with_flag(
            flags::with_flag(p, flags::CARRY, alu::sbc_carry(a, m, c)),
            flags::OVERFLOW,
            alu::sbc_overflow(a, m, c),
        ),
        alu::sbc_result(a, m, c),
    )
}

/// A, X and Y are the same in both states.
pub open spec fn same_regs(pre: CPU, post: CPU) -> bool {
    post.register_a == pre.register_a && post.register_x == pre.register_x && post.register_y
        == pre.register_y
}

/// Stack pointer and program counter are the same in both states.
pub open spec fn same_sp_pc(pre: CPU, post: CPU) -> bool {
    post.stack_pointer == pre.stack_pointer && post.program_counter == pre.program_counter
}

/// The bus (and so all of memory) is the same in both states.
pub open spec fn same_mem(pre: CPU, post: CPU) -> bool {
    post.bus == pre.bus
}

impl CPU {
    /// The bus behind this CPU is fully populated.
    pub open spec fn wf(&self) -> bool {
        self.bus.mem_ok()
    }

    /// The flat 64 KiB of memory this CPU executes against.
    pub open spec fn mem(&self) -> Seq<u8> {
        self.bus.mem_view()
    }

    /// Whether the flag selected by `mask` is set in this CPU's status.
    pub open spec fn flag(&self, mask: u8) -> bool {
        flags::flag_set(self.status, mask)
    }

    /// This CPU's architectural state as one machine record.
    pub open spec fn machine(&self) -> crate::machine::Machine {
        crate::machine::Machine {
            a: self.register_a,
            x: self.register_x,
            y: self.register_y,
            status: self.status,
            sp: self.stack_pointer,
            pc: self.program_counter,
            mem: self.mem(),
        }
    }

    /// A fresh CPU: registers cleared, I and U set in the status byte, the
    /// stack pointer at its reset position, and the program counter zero
    /// until `reset` loads it from the reset vector.
    pub fn new(bus: Bus) -> (cpu: CPU)
        ensures
            cpu.register_a == 0,
            cpu.register_x == 0,
            cpu.register_y == 0,
            cpu.status == flags::RESET_STATUS,
            cpu.stack_pointer == STACK_RESET,
            cpu.program_counter == 0,
            cpu.bus == bus,
    {
        CPU {
            register_a: 0,
            register_x: 0,
            register_y: 0,
            status: flags::RESET_STATUS,
            stack_pointer: STACK_RESET,
            program_counter: 0,
            bus,
        }
    }

    /// Resolves every addressing mode that names a memory location, reading
    /// the operand bytes at `addr`. Immediate and implied operands have no
    /// memory address and must not be resolved here.
    pub fn get_absolute_address(&self, mode: &AddressingMode, addr: u16) -> (r: u16)
        requires
            self.wf(),
            !(*mode is Immediate),
            !(*mode is NoneAddressing),
        ensures
            r == effective_address(self.mem(), *mode, addr, self.register_x, self.register_y),
    {
        match mode {
            AddressingMode::ZeroPage => self.bus.mem_read(addr) as u16,
            AddressingMode::Absolute => self.bus.mem_read_u16(addr),
            AddressingMode::ZeroPage_X => {
                let pos = self.bus.mem_read(addr);
                pos.wrapping_add(self.register_x) as u16
            },
            AddressingMode::ZeroPage_Y => {
                let pos = self.bus.mem_read(addr);
                pos.wrapping_add(self.register_y) as u16
            },
            AddressingMode::Absolute_X => {
                let base = self.bus.mem_read_u16(addr);
                base.wrapping_add(self.register_x as u16)
            },
            AddressingMode::Absolute_Y => {
                let base = self.bus.mem_read_u16(addr);
                base.wrapping_add(self.register_y as u16)
            },
            AddressingMode::Indirect_X => {
                let base = self.bus.mem_read(addr);
                let ptr: u8 = base.wrapping_add(self.register_x);
                let lo = self.bus.mem_read(ptr as u16);
                let hi = self.bus.mem_read(ptr.wrapping_add(1) as u16);
                hi as u16 * 256 + lo as u16
            },
            AddressingMode::Indirect_Y => {
                let base = self.bus.mem_read(addr);
                let lo = self.bus.mem_read(base as u16);
                let hi = self.bus.mem_read(base.wrapping_add(1) as u16);
                let deref_base = hi as u16 * 256 + lo as u16;
                deref_base.wrapping_add(self.register_y as u16)
            },
            _ => {
                proof {
                    assert(false);
                }
                0
            },
        }
    }

    /// The effective address of the current instruction's operand, with the
    /// program counter pointing at the operand byte(s).
    fn get_operand_address(&self, mode: &AddressingMode) -> (r: u16)
        requires
            self.wf(),
            !(*mode is NoneAddressing),
        ensures
            r == effective_address(
                self.mem(),
                *mode,
                self.program_counter,
                self.register_x,
                self.register_y,
            ),
    {
        match mode {
            AddressingMode::Immediate => self.program_counter,
            _ => self.get_absolute_address(mode, self.program_counter),
        }
    }

    /// Updates Z and N from a value just written to a register or to
    /// memory: Z mirrors `result == 0`, N mirrors bit 7.
    fn update_z_n_flags(&mut self, result: u8)
        ensures
            final(self).status == flags::zn_updated(old(self).status, result),
            same_regs(*old(self), *final(self)),
            same_sp_pc(*old(self), *final(self)),
            same_mem(*old(self), *final(self)),
    {
        if result == 0 {
            self.status = self.status | flags::ZERO;
        } else {
            self.status = self.status & !flags::ZERO;
        }
        if result & 0x80 != 0 {
            self.status = self.status | flags::NEGATIVE;
        } else {
            self.status = self.status & !flags::NEGATIVE;
        }
    }

    /// Sets or clears one status flag, leaving the rest alone.
    fn set_flag(&mut self, mask: u8, on: bool)
        ensures
            final(self).status == flags::with_flag(old(self).status, mask, on),
            same_regs(*old(self), *final(self)),
            same_sp_pc(*old(self), *final(self)),
            same_mem(*old(self), *final(self)),
    {
        if on {
            self.status = self.status | mask;
        } else {
            self.status = self.status & !mask;
        }
    }

    /// Writes the accumulator and updates Z and N from the written value.
    fn set_a(&mut self, data: u8)
        ensures
            final(self).register_a == data,
            final(self).status == flags::zn_updated(old(self).status, data),
            final(self).register_x == old(self).register_x,
            final(self).register_y == old(self).register_y,
            same_sp_pc(*old(self), *final(self)),
            same_mem(*old(self), *final(self)),
    {
        self.register_a = data;
        let a = self.register_a;
        self.update_z_n_flags(a);
    }

    /// Pushes one byte: it lands at 0x0100 + SP and SP steps down, wrapping
    /// modulo 256.
    fn stack_push(&mut self, data: u8)
        requires
            old(self).wf(),
        ensures
            final(self).wf(),
            final(self).mem() == crate::bus::bus_write(
                old(self).mem(),
                stack_addr(old(self).stack_pointer),
                data,
            ),
            final(self).stack_pointer == old(self).stack_pointer.wrapping_sub(1),
            same_regs(*old(self), *final(self)),
            final(self).status == old(self).status,
            final(self).program_counter == old(self).program_counter,
    {
        self.bus.mem_write(STACK + self.stack_pointer as u16, data);
        self.stack_pointer = self.stack_pointer.wrapping_sub(1);
    }

    /// Pulls one byte: SP steps up, wrapping modulo 256, and the byte at
    /// 0x0100 + SP is returned.
    fn stack_pop(&mut self) -> (r: u8)
        requires
            old(self).wf(),
        ensures
            final(self).wf(),
            r == old(self).mem()[stack_addr(old(self).stack_pointer.wrapping_add(1)) as int],
            final(self).stack_pointer == old(self).stack_pointer.wrapping_add(1),
            same_regs(*old(self), *final(self)),
            same_mem(*old(self), *final(self)),
            final(self).status == old(self).status,
            final(self).program_counter == old(self).program_counter,
    {
        self.stack_pointer = self.stack_pointer.wrapping_add(1);
        self.bus.mem_read(STACK + self.stack_pointer as u16)
    }

    /// Pushes a 16-bit word: high byte first, then low.
    fn stack_push_u16(&mut self, data: u16)
        requires
            old(self).wf(),
        ensures
            final(self).wf(),
            final(self).mem() == push16_mem(old(self).mem(), old(self).stack_pointer, data),
            final(self).stack_pointer == old(self).stack_pointer.wrapping_sub(2),
            same_regs(*old(self), *final(self)),
            final(self).status == old(self).status,
            final(self).program_counter == old(self).program_counter,
    {
        let hi = (data / 256) as u8;
        let lo = (data % 256) as u8;
        self.stack_push(hi);
        self.stack_push(lo);
    }

    /// Pulls a 16-bit word: low byte first, then high.
    fn stack_pop_u16(&mut self) -> (r: u16)
        requires
            old(self).wf(),
        ensures
            final(self).wf(),
            r == pop16_val(old(self).mem(), old(self).stack_pointer),
            final(self).stack_pointer == old(self).stack_pointer.wrapping_add(2),
            same_regs(*old(self), *final(self)),
            same_mem(*old(self), *final(self)),
            final(self).status == old(self).status,
            final(self).program_counter == old(self).program_counter,
    {
        let lo = self.stack_pop() as u16;
        let hi = self.stack_pop() as u16;
        hi * 256 + lo
    }

    /// PHP: pushes the status byte with B and U both forced to 1 in the
    /// pushed copy; the in-CPU status is untouched.
    fn php(&mut self)
        requires
            old(self).wf(),
        ensures
            final(self).wf(),
            final(self).mem() == crate::bus::bus_write(
                old(self).mem(),
                stack_addr(old(self).stack_pointer),
                flags::php_pushed(old(self).status),
            ),
            final(self).stack_pointer == old(self).stack_pointer.wrapping_sub(1),
            same_regs(*old(self), *final(self)),
            final(self).status == old(self).status,
            final(self).program_counter == old(self).program_counter,
    {
        let pushed = self.status | (flags::BREAK | flags::UNUSED);
        self.stack_push(pushed);
    }

    /// PLA: pulls a byte into the accumulator and updates Z and N.
    fn pla(&mut self)
        requires
            old(self).wf(),
        ensures
            final(self).wf(),
            final(self).register_a == old(self).mem()[stack_addr(
                old(self).stack_pointer.wrapping_add(1),
            ) as int],
            final(self).status == flags::zn_updated(old(self).status, final(self).register_a),
            final(self).stack_pointer == old(self).stack_pointer.wrapping_add(1),
            final(self).register_x == old(self).register_x,
            final(self).register_y == old(self).register_y,
            same_mem(*old(self), *final(self)),
            final(self).program_counter == old(self).program_counter,
    {
        let stack_data = self.stack_pop();
        self.set_a(stack_data);
    }

    /// PLP: pulls a byte into the status register, then forces B to 0 and
    /// U to 1, since neither is architecturally meaningful in-CPU.
    fn plp(&mut self)
        requires
            old(self).wf(),
        ensures
            final(self).wf(),
            final(self).status == flags::plp_restored(
                old(self).mem()[stack_addr(old(self).stack_pointer.wrapping_add(1)) as int],
            ),
            final(self).stack_pointer == old(self).stack_pointer.wrapping_add(1),
            same_regs(*old(self), *final(self)),
            same_mem(*old(self), *final(self)),
            final(self).program_counter == old(self).program_counter,
    {
        let pulled = self.stack_pop();
        self.status = (pulled | flags::UNUSED) & !flags::BREAK;
    }

    /// Adds `data` and the carry into the accumulator: C from the wide sum,
    /// V from the signed reading, Z and N from the 8-bit result.
    fn add_to_a(&mut self, data: u8)
        ensures
            final(self).register_a == alu::adc_result(
                old(self).register_a,
                data,
                old(self).flag(flags::CARRY),
            ),
            final(self).status == adc_flags(old(self).status, old(self).register_a, data),
            final(self).register_x == old(self).register_x,
            final(self).register_y == old(self).register_y,
            same_sp_pc(*old(self), *final(self)),
            same_mem(*old(self), *final(self)),
    {
        let carry: u16 = if self.status & flags::CARRY != 0 {
            1
        } else {
            0
        };
        let sum: u16 = self.register_a as u16 + data as u16 + carry;
        let carry_out = sum > 0xff;
        self.set_flag(flags::CARRY, carry_out);
        let res = (sum % 256) as u8;
        let overflow = (self.register_a ^ res) & (data ^ res) & 0x80 != 0;
        self.set_flag(flags::OVERFLOW, overflow);
        self.set_a(res);
    }

    /// ADC: adds the operand and the carry into the accumulator. Decimal
    /// mode is not implemented; like the NES variant of the chip, the D
    /// flag is ignored.
    fn adc(&mut self, mode: &AddressingMode)
        requires
            old(self).wf(),
            !(*mode is NoneAddressing),
        ensures
            final(self).wf(),
            final(self).register_a == alu::adc_result(
                old(self).register_a,
                operand(*old(self), *mode),
                old(self).flag(flags::CARRY),
            ),
            final(self).status == adc_flags(
                old(self).status,
                old(self).register_a,
                operand(*old(self), *mode),
            ),
            final(self).register_x == old(self).register_x,
            final(self).register_y == old(self).register_y,
            same_sp_pc(*old(self), *final(self)),
            same_mem(*old(self), *final(self)),
    {
        let address = self.get_operand_address(mode);
        let value = self.bus.mem_read(address);
        self.add_to_a(value);
    }

    /// SBC: subtracts the operand and the borrow from the accumulator,
    /// which the chip performs as ADC of the operand's bitwise complement.
    fn sbc(&mut self, mode: &AddressingMode)
        requires
            old(self).wf(),
            !(*mode is NoneAddressing),
        ensures
            final(self).wf(),
            final(self).register_a == alu::sbc_result(
                old(self).register_a,
                operand(*old(self), *mode),
                old(self).flag(flags::CARRY),
            ),
            final(self).status == sbc_flags(
                old(self).status,
                old(self).register_a,
                operand(*old(self), *mode),
            ),
            final(self).register_x == old(self).register_x,
            final(self).register_y == old(self).register_y,
            same_sp_pc(*old(self), *final(self)),
            same_mem(*old(self), *final(self)),
    {
        let address = self.get_operand_address(mode);
        let data = self.bus.mem_read(address);
        proof {
            crate::laws::lemma_sbc_is_adc_of_complement(
                self.register_a,
                data,
                self.flag(flags::CARRY),
            );
        }
        self.add_to_a(data ^ 0xff);
    }

    /// CMP/CPX/CPY: compares `compare_with` (A, X or Y) against the
    /// operand without storing; C is set when the register is at least the
    /// operand, Z and N come from the 8-bit difference.
    fn cmp(&mut self, mode: &AddressingMode, compare_with: u8)
        requires
            old(self).wf(),
            !(*mode is NoneAddressing),
        ensures
            final(self).wf(),
            final(self).status == flags::zn_updated(
                flags::with_flag(
                    old(self).status,
                    flags::CARRY,
                    compare_with >= operand(*old(self), *mode),
                ),
                alu::cmp_diff(compare_with, operand(*old(self), *mode)),
            ),
            same_regs(*old(self), *final(self)),
            same_sp_pc(*old(self), *final(self)),
            same_mem(*old(self), *final(self)),
    {
        let address = self.get_operand_address(mode);
        let value = self.bus.mem_read(address);
        self.set_flag(flags::CARRY, value <= compare_with);
        self.update_z_n_flags(compare_with.wrapping_sub(value));
    }

    /// AND: intersects the operand into the accumulator and updates Z, N.
    fn and(&mut self, mode: &AddressingMode)
        requires
            old(self).wf(),
            !(*mode is NoneAddressing),
        ensures
            final(self).wf(),
            final(self).register_a == (operand(*old(self), *mode) & old(self).register_a),
            final(self).status == flags::zn_updated(old(self).status, final(self).register_a),
            final(self).register_x == old(self).register_x,
            final(self).register_y == old(self).register_y,
            same_sp_pc(*old(self), *final(self)),
            same_mem(*old(self), *final(self)),
    {
        let address = self.get_operand_address(mode);
        let value = self.bus.mem_read(address);
        self.set_a(value & self.register_a);
    }

    /// EOR: exclusive-ors the operand into the accumulator and updates Z, N.
    fn eor(&mut self, mode: &AddressingMode)
        requires
            old(self).wf(),
            !(*mode is NoneAddressing),
        ensures
            final(self).wf(),
            final(self).register_a == (operand(*old(self), *mode) ^ old(self).register_a),
            final(self).status == flags::zn_updated(old(self).status, final(self).register_a),
            final(self).register_x == old(self).register_x,
            final(self).register_y == old(self).register_y,
            same_sp_pc(*old(self), *final(self)),
            same_mem(*old(self), *final(self)),
    {
        let address = self.get_operand_address(mode);
        let value = self.bus.mem_read(address);
        self.set_a(value ^ self.register_a);
    }

    /// ORA: ors the operand into the accumulator and updates Z, N.
    fn ora(&mut self, mode: &AddressingMode)
        requires
            old(self).wf(),
            !(*mode is NoneAddressing),
        ensures
            final(self).wf(),
            final(self).register_a == (operand(*old(self), *mode) | old(self).register_a),
            final(self).status == flags::zn_updated(old(self).status, final(self).register_a),
            final(self).register_x == old(self).register_x,
            final(self).register_y == old(self).register_y,
            same_sp_pc(*old(self), *final(self)),
            same_mem(*old(self), *final(self)),
    {
        let address = self.get_operand_address(mode);
        let value = self.bus.mem_read(address);
        self.set_a(value | self.register_a);
    }

    /// BIT: tests the operand against the accumulator without storing.
    /// Z mirrors whether A & M is zero; N and V are copied from the
    /// operand's bits 7 and 6.
    fn bit(&mut self, mode: &AddressingMode)
        requires
            old(self).wf(),
            !(*mode is NoneAddressing),
        ensures
            final(self).wf(),
            final(self).status == flags::with_flag(
                flags::with_flag(
                    flags::with_flag(
                        old(self).status,
                        flags::ZERO,
                        old(self).register_a & operand(*old(self), *mode) == 0,
                    ),
                    flags::NEGATIVE,
                    operand(*old(self), *mode) & 0x80 != 0,
                ),
                flags::OVERFLOW,
                operand(*old(self), *mode) & 0x40 != 0,
            ),
            same_regs(*old(self), *final(self)),
            same_sp_pc(*old(self), *final(self)),
            same_mem(*old(self), *final(self)),
    {
        let address = self.get_operand_address(mode);
        let data = self.bus.mem_read(address);
        let a = self.register_a;
        self.set_flag(flags::ZERO, a & data == 0);
        self.set_flag(flags::NEGATIVE, data & 0x80 != 0);
        self.set_flag(flags::OVERFLOW, data & 0x40 != 0);
    }

    /// ASL on the accumulator: old bit 7 goes to carry, Z and N follow the
    /// shifted value.
    fn asl_acc(&mut self)
        ensures
            final(self).register_a == alu::asl_result(old(self).register_a),
            final(self).status == flags::zn_updated(
                flags::with_flag(old(self).status, flags::CARRY, old(self).register_a & 0x80 != 0),
                alu::asl_result(old(self).register_a),
            ),
            final(self).register_x == old(self).register_x,
            final(self).register_y == old(self).register_y,
            same_sp_pc(*old(self), *final(self)),
            same_mem(*old(self), *final(self)),
    {
        let data = self.register_a;
        self.set_flag(flags::CARRY, data & 0x80 != 0);
        self.set_a(data << 1);
    }

    /// LSR on the accumulator: old bit 0 goes to carry, Z and N follow the
    /// shifted value.
    fn lsr_acc(&mut self)
        ensures
            final(self).register_a == alu::lsr_result(old(self).register_a),
            final(self).status == flags::zn_updated(
                flags::with_flag(old(self).status, flags::CARRY, old(self).register_a & 0x01 != 0),
                alu::lsr_result(old(self).register_a),
            ),
            final(self).register_x == old(self).register_x,
            final(self).register_y == old(self).register_y,
            same_sp_pc(*old(self), *final(self)),
            same_mem(*old(self), *final(self)),
    {
        let data = self.register_a;
        self.set_flag(flags::CARRY, data & 0x01 != 0);
        self.set_a(data >> 1);
    }

    /// ROL on the accumulator: the old carry becomes bit 0, old bit 7
    /// becomes the carry.
    fn rol_acc(&mut self)
        ensures
            final(self).register_a == alu::rol_result(
                old(self).register_a,
                old(self).flag(flags::CARRY),
            ),
            final(self).status == flags::zn_updated(
                flags::with_flag(old(self).status, flags::CARRY, old(self).register_a & 0x80 != 0),
                alu::rol_result(old(self).register_a, old(self).flag(flags::CARRY)),
            ),
            final(self).register_x == old(self).register_x,
            final(self).register_y == old(self).register_y,
            same_sp_pc(*old(self), *final(self)),
            same_mem(*old(self), *final(self)),
    {
        let data = self.register_a;
        let carry_in = self.status & flags::CARRY != 0;
        self.set_flag(flags::CARRY, data & 0x80 != 0);
        let rolled = if carry_in {
            (data << 1) | 0x01
        } else {
            data << 1
        };
        self.set_a(rolled);
    }

    /// ROR on the accumulator: the old carry becomes bit 7, old bit 0
    /// becomes the carry.
    fn ror_acc(&mut self)
        ensures
            final(self).register_a == alu::ror_result(
                old(self).register_a,
                old(self).flag(flags::CARRY),
            ),
            final(self).status == flags::zn_updated(
                flags::with_flag(old(self).status, flags::CARRY, old(self).register_a & 0x01 != 0),
                alu::ror_result(old(self).register_a, old(self).flag(flags::CARRY)),
            ),
            final(self).register_x == old(self).register_x,
            final(self).register_y == old(self).register_y,
            same_sp_pc(*old(self), *final(self)),
            same_mem(*old(self), *final(self)),
    {
        let data = self.register_a;
        let carry_in = self.status & flags::CARRY != 0;
        self.set_flag(flags::CARRY, data & 0x01 != 0);
        let rolled = if carry_in {
            (data >> 1) | 0x80
        } else {
            data >> 1
        };
        self.set_a(rolled);
    }

    /// ASL on memory: reads the operand, writes back the shifted value,
    /// and updates C, Z, N as the accumulator form does.
    fn asl(&mut self, mode: &AddressingMode) -> (r: u8)
        requires
            old(self).wf(),
            !(*mode is NoneAddressing),
        ensures
            final(self).wf(),
            r == alu::asl_result(operand(*old(self), *mode)),
            final(self).mem() == crate::bus::bus_write(
                old(self).mem(),
                operand_addr(*old(self), *mode),
                r,
            ),
            final(self).status == flags::zn_updated(
                flags::with_flag(
                    old(self).status,
                    flags::CARRY,
                    operand(*old(self), *mode) & 0x80 != 0,
                ),
                r,
            ),
            same_regs(*old(self), *final(self)),
            same_sp_pc(*old(self), *final(self)),
    {
        let address = self.get_operand_address(mode);
        let mut data = self.bus.mem_read(address);
        self.set_flag(flags::CARRY, data & 0x80 != 0);
        data = data << 1;
        self.bus.mem_write(address, data);
        self.update_z_n_flags(data);
        data
    }

    /// LSR on memory: reads the operand, writes back the shifted value,
    /// and updates C, Z, N as the accumulator form does.
    fn lsr(&mut self, mode: &AddressingMode) -> (r: u8)
        requires
            old(self).wf(),
            !(*mode is NoneAddressing),
        ensures
            final(self).wf(),
            r == alu::lsr_result(operand(*old(self), *mode)),
            final(self).mem() == crate::bus::bus_write(
                old(self).mem(),
                operand_addr(*old(self), *mode),
                r,
            ),
            final(self).status == flags::zn_updated(
                flags::with_flag(
                    old(self).status,
                    flags::CARRY,
                    operand(*old(self), *mode) & 0x01 != 0,
                ),
                r,
            ),
            same_regs(*old(self), *final(self)),
            same_sp_pc(*old(self), *final(self)),
    {
        let address = self.get_operand_address(mode);
        let mut data = self.bus.mem_read(address);
        self.set_flag(flags::CARRY, data & 0x01 != 0);
        data = data >> 1;
        self.bus.mem_write(address, data);
        self.update_z_n_flags(data);
        data
    }

    /// ROL on memory: the old carry becomes bit 0 of the written value,
    /// the operand's bit 7 becomes the carry.
    fn rol(&mut self, mode: &AddressingMode) -> (r: u8)
        requires
            old(self).wf(),
            !(*mode is NoneAddressing),
        ensures
            final(self).wf(),
            r == alu::rol_result(operand(*old(self), *mode), old(self).flag(flags::CARRY)),
            final(self).mem() == crate::bus::bus_write(
                old(self).mem(),
                operand_addr(*old(self), *mode),
                r,
            ),
            final(self).status == flags::zn_updated(
                flags::with_flag(
                    old(self).status,
                    flags::CARRY,
                    operand(*old(self), *mode) & 0x80 != 0,
                ),
                r,
            ),
            same_regs(*old(self), *final(self)),
            same_sp_pc(*old(self), *final(self)),
    {
        let address = self.get_operand_address(mode);
        let mut data = self.bus.mem_read(address);
        let carry_in = self.status & flags::CARRY != 0;
        self.set_flag(flags::CARRY, data & 0x80 != 0);
        data = if carry_in {
            (data << 1) | 0x01
        } else {
            data << 1
        };
        self.bus.mem_write(address, data);
        self.update_z_n_flags(data);
        data
    }

    /// ROR on memory: the old carry becomes bit 7 of the written value,
    /// the operand's bit 0 becomes the carry.
    fn ror(&mut self, mode: &AddressingMode) -> (r: u8)
        requires
            old(self).wf(),
            !(*mode is NoneAddressing),
        ensures
            final(self).wf(),
            r == alu::ror_result(operand(*old(self), *mode), old(self).flag(flags::CARRY)),
            final(self).mem() == crate::bus::bus_write(
                old(self).mem(),
                operand_addr(*old(self), *mode),
                r,
            ),
            final(self).status == flags::zn_updated(
                flags::with_flag(
                    old(self).status,
                    flags::CARRY,
                    operand(*old(self), *mode) & 0x01 != 0,
                ),
                r,
            ),
            same_regs(*old(self), *final(self)),
            same_sp_pc(*old(self), *final(self)),
    {
        let address = self.get_operand_address(mode);
        let mut data = self.bus.mem_read(address);
        let carry_in = self.status & flags::CARRY != 0;
        self.set_flag(flags::CARRY, data & 0x01 != 0);
        data = if carry_in {
            (data >> 1) | 0x80
        } else {
            data >> 1
        };
        self.bus.mem_write(address, data);
        self.update_z_n_flags(data);
        data
    }

    /// LDA: loads the operand into the accumulator and updates Z, N.
    fn lda(&mut self, mode: &AddressingMode)
        requires
            old(self).wf(),
            !(*mode is NoneAddressing),
        ensures
            final(self).wf(),
            final(self).register_a == operand(*old(self), *mode),
            final(self).status == flags::zn_updated(old(self).status, final(self).register_a),
            final(self).register_x == old(self).register_x,
            final(self).register_y == old(self).register_y,
            same_sp_pc(*old(self), *final(self)),
            same_mem(*old(self), *final(self)),
    {
        let addr = self.get_operand_address(mode);
        let value = self.bus.mem_read(addr);
        self.set_a(value);
    }

    /// LDX: loads the operand into X and updates Z, N.
    fn ldx(&mut self, mode: &AddressingMode)
        requires
            old(self).wf(),
            !(*mode is NoneAddressing),
        ensures
            final(self).wf(),
            final(self).register_x == operand(*old(self), *mode),
            final(self).status == flags::zn_updated(old(self).status, final(self).register_x),
            final(self).register_a == old(self).register_a,
            final(self).register_y == old(self).register_y,
            same_sp_pc(*old(self), *final(self)),
            same_mem(*old(self), *final(self)),
    {
        let address = self.get_operand_address(mode);
        let value = self.bus.mem_read(address);
        self.register_x = value;
        let x = self.register_x;
        self.update_z_n_flags(x);
    }

    /// LDY: loads the operand into Y and updates Z, N.
    fn ldy(&mut self, mode: &AddressingMode)
        requires
            old(self).wf(),
            !(*mode is NoneAddressing),
        ensures
            final(self).wf(),
            final(self).register_y == operand(*old(self), *mode),
            final(self).status == flags::zn_updated(old(self).status, final(self).register_y),
            final(self).register_a == old(self).register_a,
            final(self).register_x == old(self).register_x,
            same_sp_pc(*old(self), *final(self)),
            same_mem(*old(self), *final(self)),
    {
        let address = self.get_operand_address(mode);
        let value = self.bus.mem_read(address);
        self.register_y = value;
        let y = self.register_y;
        self.update_z_n_flags(y);
    }

    /// STA: stores the accumulator at the operand address; flags unchanged.
    fn sta(&mut self, mode: &AddressingMode)
        requires
            old(self).wf(),
            !(*mode is NoneAddressing),
        ensures
            final(self).wf(),
            final(self).mem() == crate::bus::bus_write(
                old(self).mem(),
                operand_addr(*old(self), *mode),
                old(self).register_a,
            ),
            same_regs(*old(self), *final(self)),
            same_sp_pc(*old(self), *final(self)),
            final(self).status == old(self).status,
    {
        let addr = self.get_operand_address(mode);
        self.bus.mem_write(addr, self.register_a);
    }

    /// STX: stores X at the operand address; flags unchanged.
    fn stx(&mut self, mode: &AddressingMode)
        requires
            old(self).wf(),
            !(*mode is NoneAddressing),
        ensures
            final(self).wf(),
            final(self).mem() == crate::bus::bus_write(
                old(self).mem(),
                operand_addr(*old(self), *mode),
                old(self).register_x,
            ),
            same_regs(*old(self), *final(self)),
            same_sp_pc(*old(self), *final(self)),
            final(self).status == old(self).status,
    {
        let address = self.get_operand_address(mode);
        self.bus.mem_write(address, self.register_x);
    }

    /// STY: stores Y at the operand address; flags unchanged.
    fn sty(&mut self, mode: &AddressingMode)
        requires
            old(self).wf(),
            !(*mode is NoneAddressing),
        ensures
            final(self).wf(),
            final(self).mem() == crate::bus::bus_write(
                old(self).mem(),
                operand_addr(*old(self), *mode),
                old(self).register_y,
            ),
            same_regs(*old(self), *final(self)),
            same_sp_pc(*old(self), *final(self)),
            final(self).status == old(self).status,
    {
        let address = self.get_operand_address(mode);
        self.bus.mem_write(address, self.register_y);
    }

    /// DEC: decrements the byte at the operand address, wrapping modulo
    /// 256, and updates Z, N from the written value.
    fn dec(&mut self, mode: &AddressingMode)
        requires
            old(self).wf(),
            !(*mode is NoneAddressing),
        ensures
            final(self).wf(),
            final(self).mem() == crate::bus::bus_write(
                old(self).mem(),
                operand_addr(*old(self), *mode),
                operand(*old(self), *mode).wrapping_sub(1),
            ),
            final(self).status == flags::zn_updated(
                old(self).status,
                operand(*old(self), *mode).wrapping_sub(1),
            ),
            same_regs(*old(self), *final(self)),
            same_sp_pc(*old(self), *final(self)),
    {
        let address = self.get_operand_address(mode);
        let data = self.bus.mem_read(address).wrapping_sub(1);
        self.bus.mem_write(address, data);
        self.update_z_n_flags(data);
    }

    /// INC: increments the byte at the operand address, wrapping modulo
    /// 256, and updates Z, N from the written value.
    fn inc(&mut self, mode: &AddressingMode)
        requires
            old(self).wf(),
            !(*mode is NoneAddressing),
        ensures
            final(self).wf(),
            final(self).mem() == crate::bus::bus_write(
                old(self).mem(),
                operand_addr(*old(self), *mode),
                operand(*old(self), *mode).wrapping_add(1),
            ),
            final(self).status == flags::zn_updated(
                old(self).status,
                operand(*old(self), *mode).wrapping_add(1),
            ),
            same_regs(*old(self), *final(self)),
            same_sp_pc(*old(self), *final(self)),
    {
        let address = self.get_operand_address(mode);
        let data = self.bus.mem_read(address).wrapping_add(1);
        self.bus.mem_write(address, data);
        self.update_z_n_flags(data);
    }

    /// DEX: decrements X, wrapping modulo 256, and updates Z, N.
    fn dex(&mut self)
        ensures
            final(self).register_x == old(self).register_x.wrapping_sub(1),
            final(self).status == flags::zn_updated(old(self).status, final(self).register_x),
            final(self).register_a == old(self).register_a,
            final(self).register_y == old(self).register_y,
            same_sp_pc(*old(self), *final(self)),
            same_mem(*old(self), *final(self)),
    {
        self.register_x = self.register_x.wrapping_sub(1);
        let x = self.register_x;
        self.update_z_n_flags(x);
    }

    /// DEY: decrements Y, wrapping modulo 256, and updates Z, N.
    fn dey(&mut self)
        ensures
            final(self).register_y == old(self).register_y.wrapping_sub(1),
            final(self).status == flags::zn_updated(old(self).status, final(self).register_y),
            final(self).register_a == old(self).register_a,
            final(self).register_x == old(self).register_x,
            same_sp_pc(*old(self), *final(self)),
            same_mem(*old(self), *final(self)),
    {
        self.register_y = self.register_y.wrapping_sub(1);
        let y = self.register_y;
        self.update_z_n_flags(y);
    }

    /// INX: increments X, wrapping modulo 256, and updates Z, N.
    fn inx(&mut self)
        ensures
            final(self).register_x == old(self).register_x.wrapping_add(1),
            final(self).status == flags::zn_updated(old(self).status, final(self).register_x),
            final(self).register_a == old(self).register_a,
            final(self).register_y == old(self).register_y,
            same_sp_pc(*old(self), *final(self)),
            same_mem(*old(self), *final(self)),
    {
        self.register_x = self.register_x.wrapping_add(1);
        let x = self.register_x;
        self.update_z_n_flags(x);
    }

    /// INY: increments Y, wrapping modulo 256, and updates Z, N.
    fn iny(&mut self)
        ensures
            final(self).register_y == old(self).register_y.wrapping_add(1),
            final(self).status == flags::zn_updated(old(self).status, final(self).register_y),
            final(self).register_a == old(self).register_a,
            final(self).register_x == old(self).register_x,
            same_sp_pc(*old(self), *final(self)),
            same_mem(*old(self), *final(self)),
    {
        self.register_y = self.register_y.wrapping_add(1);
        let y = self.register_y;
        self.update_z_n_flags(y);
    }

    /// TAX: copies A to X and updates Z, N.
    fn tax(&mut self)
        ensures
            final(self).register_x == old(self).register_a,
            final(self).status == flags::zn_updated(old(self).status, old(self).register_a),
            final(self).register_a == old(self).register_a,
            final(self).register_y == old(self).register_y,
            same_sp_pc(*old(self), *final(self)),
            same_mem(*old(self), *final(self)),
    {
        self.register_x = self.register_a;
        let x = self.register_x;
        self.update_z_n_flags(x);
    }

    /// TAY: copies A to Y and updates Z, N.
    fn tay(&mut self)
        ensures
            final(self).register_y == old(self).register_a,
            final(self).status == flags::zn_updated(old(self).status, old(self).register_a),
            final(self).register_a == old(self).register_a,
            final(self).register_x == old(self).register_x,
            same_sp_pc(*old(self), *final(self)),
            same_mem(*old(self), *final(self)),
    {
        self.register_y = self.register_a;
        let y = self.register_y;
        self.update_z_n_flags(y);
    }

    /// TSX: copies SP to X and updates Z, N.
    fn tsx(&mut self)
        ensures
            final(self).register_x == old(self).stack_pointer,
            final(self).status == flags::zn_updated(old(self).status, old(self).stack_pointer),
            final(self).register_a == old(self).register_a,
            final(self).register_y == old(self).register_y,
            same_sp_pc(*old(self), *final(self)),
            same_mem(*old(self), *final(self)),
    {
        self.register_x = self.stack_pointer;
        let x = self.register_x;
        self.update_z_n_flags(x);
    }

    /// TXA: copies X to A and updates Z, N.
    fn txa(&mut self)
        ensures
            final(self).register_a == old(self).register_x,
            final(self).status == flags::zn_updated(old(self).status, old(self).register_x),
            final(self).register_x == old(self).register_x,
            final(self).register_y == old(self).register_y,
            same_sp_pc(*old(self), *final(self)),
            same_mem(*old(self), *final(self)),
    {
        let x = self.register_x;
        self.set_a(x);
    }

    /// TYA: copies Y to A and updates Z, N.
    fn tya(&mut self)
        ensures
            final(self).register_a == old(self).register_y,
            final(self).status == flags::zn_updated(old(self).status, old(self).register_y),
            final(self).register_x == old(self).register_x,
            final(self).register_y == old(self).register_y,
            same_sp_pc(*old(self), *final(self)),
            same_mem(*old(self), *final(self)),
    {
        let y = self.register_y;
        self.set_a(y);
    }

    /// TXS: copies X to SP. Unlike the other transfers this updates no
    /// flags.
    fn txs(&mut self)
        ensures
            final(self).stack_pointer == old(self).register_x,
            final(self).status == old(self).status,
            same_regs(*old(self), *final(self)),
            final(self).program_counter == old(self).program_counter,
            same_mem(*old(self), *final(self)),
    {
        self.stack_pointer = self.register_x;
    }

    /// A conditional branch over the signed offset byte at the program
    /// counter. Taken: PC moves past the offset and then by the offset,
    /// with 16-bit wraparound. Not taken: PC is left alone, so the shared
    /// post-dispatch bump advances it past the offset.
    fn b(&mut self, cond: bool)
        requires
            old(self).wf(),
        ensures
            final(self).wf(),
            final(self).program_counter == if cond {
                alu::branch_target(
                    old(self).program_counter,
                    old(self).mem()[old(self).program_counter as int],
                )
            } else {
                old(self).program_counter
            },
            same_regs(*old(self), *final(self)),
            final(self).status == old(self).status,
            final(self).stack_pointer == old(self).stack_pointer,
            same_mem(*old(self), *final(self)),
    {
        if cond {
            let off = self.bus.mem_read(self.program_counter);
            let displacement: u16 = if off < 0x80 {
                off as u16
            } else {
                off as u16 + 0xff00
            };
            self.program_counter = self.program_counter.wrapping_add(1).wrapping_add(
                displacement,
            );
        }
    }

    /// JMP absolute: the program counter becomes the operand word.
    fn jmp_absolute(&mut self)
        requires
            old(self).wf(),
        ensures
            final(self).wf(),
            final(self).program_counter == word_at(old(self).mem(), old(self).program_counter),
            same_regs(*old(self), *final(self)),
            final(self).status == old(self).status,
            final(self).stack_pointer == old(self).stack_pointer,
            same_mem(*old(self), *final(self)),
    {
        let mem_address = self.bus.mem_read_u16(self.program_counter);
        self.program_counter = mem_address;
    }

    /// JMP indirect: the program counter is loaded through the operand
    /// pointer, with the 6502 page-wrap quirk: when the pointer's low byte
    /// is 0xFF the high byte of the target is fetched from the start of the
    /// same page, not from the next one.
    fn jmp_indirect(&mut self)
        requires
            old(self).wf(),
        ensures
            final(self).wf(),
            final(self).program_counter == jmp_indirect_target(
                old(self).mem(),
                word_at(old(self).mem(), old(self).program_counter),
            ),
            same_regs(*old(self), *final(self)),
            final(self).status == old(self).status,
            final(self).stack_pointer == old(self).stack_pointer,
            same_mem(*old(self), *final(self)),
    {
        let mem_address = self.bus.mem_read_u16(self.program_counter);
        let target = if mem_address & 0x00ff == 0x00ff {
            let lo = self.bus.mem_read(mem_address);
            let hi = self.bus.mem_read(mem_address & 0xff00);
            hi as u16 * 256 + lo as u16
        } else {
            self.bus.mem_read_u16(mem_address)
        };
        self.program_counter = target;
    }

    /// JSR: pushes the address of the call's last byte (PC + 1, with PC at
    /// the target's low byte), then loads the program counter with the
    /// target word, read after the push as the chip does.
    fn jsr(&mut self)
        requires
            old(self).wf(),
        ensures
            final(self).wf(),
            final(self).mem() == push16_mem(
                old(self).mem(),
                old(self).stack_pointer,
                old(self).program_counter.wrapping_add(1),
            ),
            final(self).stack_pointer == old(self).stack_pointer.wrapping_sub(2),
            final(self).program_counter == word_at(final(self).mem(), old(self).program_counter),
            same_regs(*old(self), *final(self)),
            final(self).status == old(self).status,
    {
        let ret = self.program_counter.wrapping_add(1);
        self.stack_push_u16(ret);
        let target = self.bus.mem_read_u16(self.program_counter);
        self.program_counter = target;
    }

    /// RTS: pulls a word and resumes one byte past it — the instruction
    /// right after the matching JSR.
    fn rts(&mut self)
        requires
            old(self).wf(),
        ensures
            final(self).wf(),
            final(self).program_counter == pop16_val(
                old(self).mem(),
                old(self).stack_pointer,
            ).wrapping_add(1),
            final(self).stack_pointer == old(self).stack_pointer.wrapping_add(2),
            same_regs(*old(self), *final(self)),
            final(self).status == old(self).status,
            same_mem(*old(self), *final(self)),
    {
        let pulled = self.stack_pop_u16();
        self.program_counter = pulled.wrapping_add(1);
    }

    /// RTI: pulls the status byte (B forced to 0, U to 1), then pulls the
    /// program counter, low byte first.
    fn rti(&mut self)
        requires
            old(self).wf(),
        ensures
            final(self).wf(),
            final(self).status == flags::plp_restored(
                old(self).mem()[stack_addr(old(self).stack_pointer.wrapping_add(1)) as int],
            ),
            final(self).program_counter == pop16_val(
                old(self).mem(),
                old(self).stack_pointer.wrapping_add(1),
            ),
            final(self).stack_pointer == old(self).stack_pointer.wrapping_add(3),
            same_regs(*old(self), *final(self)),
            same_mem(*old(self), *final(self)),
    {
        let pulled = self.stack_pop();
        self.status = (pulled | flags::UNUSED) & !flags::BREAK;
        let pc = self.stack_pop_u16();
        self.program_counter = pc;
    }

    /// Runs one decoded instruction by handing it to its family's
    /// dispatcher. The caller has fetched the opcode byte, stepped the
    /// program counter past it, and looked the byte up in the table; BRK is
    /// the caller's halt condition and never reaches here. The catch-all
    /// arm is proved unreachable: every byte the table defines is
    /// dispatched.
    #[verifier::rlimit(100)]
    #[verifier::spinoff_prover]
    fn execute(&mut self, code: u8, mode: &AddressingMode)
        requires
            old(self).wf(),
            crate::opcodes::opcode_defined(code),
            code != 0x00,
            *mode == crate::opcodes::opcode_mode(code),
        ensures
            final(self).wf(),
            final(self).machine() == crate::machine::opcode_effect(old(self).machine(), code),
    {
        match code {
            0x69 | 0x65 | 0x75 | 0x6d | 0x7d | 0x79 | 0x61 | 0x71 | 0xe9 | 0xed | 0xfd | 0xf9
                | 0xe5 | 0xf5 | 0xe1 | 0xf1 | 0xc9 | 0xcd | 0xdd | 0xd9 | 0xc5 | 0xd5 | 0xc1
                | 0xd1 | 0xe0 | 0xec | 0xe4 | 0xc0 | 0xcc | 0xc4 => self.execute_arithmetic(
                code,
                mode,
            ),
            0x29 | 0x25 | 0x35 | 0x2d | 0x3d | 0x39 | 0x21 | 0x31 | 0x24 | 0x2c | 0x49 | 0x4d
                | 0x5d | 0x59 | 0x45 | 0x55 | 0x41 | 0x51 | 0x09 | 0x0d | 0x1d | 0x19 | 0x05
                | 0x15 | 0x01 | 0x11 => self.execute_logic(code, mode),
            0x0a | 0x4a | 0x2a | 0x6a | 0x06 | 0x16 | 0x0e | 0x1e | 0x4e | 0x5e | 0x46 | 0x56
                | 0x2e | 0x3e | 0x26 | 0x36 | 0x6e | 0x7e | 0x66 | 0x76 => self.execute_shift(
                code,
                mode,
            ),
            0xa9 | 0xa5 | 0xb5 | 0xad | 0xbd | 0xb9 | 0xa1 | 0xb1 | 0xa2 | 0xae | 0xbe | 0xa6
                | 0xb6 | 0xa0 | 0xac | 0xbc | 0xa4 | 0xb4 | 0x85 | 0x95 | 0x8d | 0x9d | 0x99
                | 0x81 | 0x91 | 0x8e | 0x86 | 0x96 | 0x8c | 0x84 | 0x94 => self.execute_load_store(
                code,
                mode,
            ),
            0xce | 0xde | 0xc6 | 0xd6 | 0xee | 0xfe | 0xe6 | 0xf6 | 0xca | 0x88 | 0xe8
                | 0xc8 => self.execute_inc_dec(code, mode),
            0x90 | 0xb0 | 0xf0 | 0x30 | 0xd0 | 0x10 | 0x50 | 0x70 | 0x18 | 0xd8 | 0x58 | 0xb8
                | 0x38 | 0xf8 | 0x78 | 0xaa | 0xa8 | 0xba | 0x8a | 0x9a | 0x98
                | 0xea => self.execute_branch_flags_transfers(code),
            0x48 | 0x08 | 0x68 | 0x28 | 0x4c | 0x6c | 0x20 | 0x40 | 0x60 => self.execute_control(
                code,
            ),
            _ => {
                proof {
                    crate::opcodes::lemma_table_is_dispatched(code);
                    assert(false);
                }
            },
        }
    }

    /// ADC, SBC and the three compares.
    #[verifier::rlimit(100)]
    #[verifier::spinoff_prover]
    fn execute_arithmetic(&mut self, code: u8, mode: &AddressingMode)
        requires
            old(self).wf(),
            *mode == crate::opcodes::opcode_mode(code),
            code == 0x69 || code == 0x65 || code == 0x75 || code == 0x6d || code == 0x7d || code
                == 0x79 || code == 0x61 || code == 0x71 || code == 0xe9 || code == 0xed || code
                == 0xfd || code == 0xf9 || code == 0xe5 || code == 0xf5 || code == 0xe1 || code
                == 0xf1 || code == 0xc9 || code == 0xcd || code == 0xdd || code == 0xd9 || code
                == 0xc5 || code == 0xd5 || code == 0xc1 || code == 0xd1 || code == 0xe0 || code
                == 0xec || code == 0xe4 || code == 0xc0 || code == 0xcc || code == 0xc4,
        ensures
            final(self).wf(),
            final(self).machine() == crate::machine::opcode_effect(old(self).machine(), code),
    {
        match code {
            0x69 | 0x65 | 0x75 | 0x6d | 0x7d | 0x79 | 0x61 | 0x71 => self.adc(mode),
            0xe9 | 0xed | 0xfd | 0xf9 | 0xe5 | 0xf5 | 0xe1 | 0xf1 => self.sbc(mode),
            0xc9 | 0xcd | 0xdd | 0xd9 | 0xc5 | 0xd5 | 0xc1 | 0xd1 => {
                let compare_with = self.register_a;
                self.cmp(mode, compare_with);
            },
            0xe0 | 0xec | 0xe4 => {
                let compare_with = self.register_x;
                self.cmp(mode, compare_with);
            },
            _ => {
                let compare_with = self.register_y;
                self.cmp(mode, compare_with);
            },
        }
    }

    /// AND, BIT, EOR and ORA.
    #[verifier::rlimit(100)]
    #[verifier::spinoff_prover]
    fn execute_logic(&mut self, code: u8, mode: &AddressingMode)
        requires
            old(self).wf(),
            *mode == crate::opcodes::opcode_mode(code),
            code == 0x29 || code == 0x25 || code == 0x35 || code == 0x2d || code == 0x3d || code
                == 0x39 || code == 0x21 || code == 0x31 || code == 0x24 || code == 0x2c || code
                == 0x49 || code == 0x4d || code == 0x5d || code == 0x59 || code == 0x45 || code
                == 0x55 || code == 0x41 || code == 0x51 || code == 0x09 || code == 0x0d || code
                == 0x1d || code == 0x19 || code == 0x05 || code == 0x15 || code == 0x01 || code
                == 0x11,
        ensures
            final(self).wf(),
            final(self).machine() == crate::machine::opcode_effect(old(self).machine(), code),
    {
        match code {
            0x29 | 0x25 | 0x35 | 0x2d | 0x3d | 0x39 | 0x21 | 0x31 => self.and(mode),
            0x24 | 0x2c => self.bit(mode),
            0x49 | 0x4d | 0x5d | 0x59 | 0x45 | 0x55 | 0x41 | 0x51 => self.eor(mode),
            _ => self.ora(mode),
        }
    }

    /// The four shifts and rotates, accumulator and memory forms.
    #[verifier::rlimit(100)]
    #[verifier::spinoff_prover]
    fn execute_shift(&mut self, code: u8, mode: &AddressingMode)
        requires
            old(self).wf(),
            *mode == crate::opcodes::opcode_mode(code),
            code == 0x0a || code == 0x4a || code == 0x2a || code == 0x6a || code == 0x06 || code
                == 0x16 || code == 0x0e || code == 0x1e || code == 0x4e || code == 0x5e || code
                == 0x46 || code == 0x56 || code == 0x2e || code == 0x3e || code == 0x26 || code
                == 0x36 || code == 0x6e || code == 0x7e || code == 0x66 || code == 0x76,
        ensures
            final(self).wf(),
            final(self).machine() == crate::machine::opcode_effect(old(self).machine(), code),
    {
        match code {
            0x0a => self.asl_acc(),
            0x4a => self.lsr_acc(),
            0x2a => self.rol_acc(),
            0x6a => self.ror_acc(),
            0x06 | 0x16 | 0x0e | 0x1e => {
                self.asl(mode);
            },
            0x4e | 0x5e | 0x46 | 0x56 => {
                self.lsr(mode);
            },
            0x2e | 0x3e | 0x26 | 0x36 => {
                self.rol(mode);
            },
            _ => {
                self.ror(mode);
            },
        }
    }

    /// The three loads and three stores.
    #[verifier::rlimit(100)]
    #[verifier::spinoff_prover]
    fn execute_load_store(&mut self, code: u8, mode: &AddressingMode)
        requires
            old(self).wf(),
            *mode == crate::opcodes::opcode_mode(code),
            code == 0xa9 || code == 0xa5 || code == 0xb5 || code == 0xad || code == 0xbd || code
                == 0xb9 || code == 0xa1 || code == 0xb1 || code == 0xa2 || code == 0xae || code
                == 0xbe || code == 0xa6 || code == 0xb6 || code == 0xa0 || code == 0xac || code
                == 0xbc || code == 0xa4 || code == 0xb4 || code == 0x85 || code == 0x95 || code
                == 0x8d || code == 0x9d || code == 0x99 || code == 0x81 || code == 0x91 || code
                == 0x8e || code == 0x86 || code == 0x96 || code == 0x8c || code == 0x84 || code
                == 0x94,
        ensures
            final(self).wf(),
            final(self).machine() == crate::machine::opcode_effect(old(self).machine(), code),
    {
        match code {
            0xa9 | 0xa5 | 0xb5 | 0xad | 0xbd | 0xb9 | 0xa1 | 0xb1 => self.lda(mode),
            0xa2 | 0xae | 0xbe | 0xa6 | 0xb6 => self.ldx(mode),
            0xa0 | 0xac | 0xbc | 0xa4 | 0xb4 => self.ldy(mode),
            0x85 | 0x95 | 0x8d | 0x9d | 0x99 | 0x81 | 0x91 => self.sta(mode),
            0x8e | 0x86 | 0x96 => self.stx(mode),
            _ => self.sty(mode),
        }
    }

    /// INC and DEC on memory and on the index registers.
    #[verifier::rlimit(100)]
    #[verifier::spinoff_prover]
    fn execute_inc_dec(&mut self, code: u8, mode: &AddressingMode)
        requires
            old(self).wf(),
            *mode == crate::opcodes::opcode_mode(code),
            code == 0xce || code == 0xde || code == 0xc6 || code == 0xd6 || code == 0xee || code
                == 0xfe || code == 0xe6 || code == 0xf6 || code == 0xca || code == 0x88 || code
                == 0xe8 || code == 0xc8,
        ensures
            final(self).wf(),
            final(self).machine() == crate::machine::opcode_effect(old(self).machine(), code),
    {
        match code {
            0xce | 0xde | 0xc6 | 0xd6 => self.dec(mode),
            0xee | 0xfe | 0xe6 | 0xf6 => self.inc(mode),
            0xca => self.dex(),
            0x88 => self.dey(),
            0xe8 => self.inx(),
            _ => self.iny(),
        }
    }

    /// The eight conditional branches, the direct flag instructions, the
    /// register transfers, and NOP. None of these takes a memory operand.
    #[verifier::rlimit(100)]
    #[verifier::spinoff_prover]
    fn execute_branch_flags_transfers(&mut self, code: u8)
        requires
            old(self).wf(),
            code == 0x90 || code == 0xb0 || code == 0xf0 || code == 0x30 || code == 0xd0 || code
                == 0x10 || code == 0x50 || code == 0x70 || code == 0x18 || code == 0xd8 || code
                == 0x58 || code == 0xb8 || code == 0x38 || code == 0xf8 || code == 0x78 || code
                == 0xaa || code == 0xa8 || code == 0xba || code == 0x8a || code == 0x9a || code
                == 0x98 || code == 0xea,
        ensures
            final(self).wf(),
            final(self).machine() == crate::machine::opcode_effect(old(self).machine(), code),
    {
        match code {
            0x90 => {
                let cond = self.status & flags::CARRY == 0;
                self.b(cond);
            },
            0xb0 => {
                let cond = self.status & flags::CARRY != 0;
                self.b(cond);
            },
            0xf0 => {
                let cond = self.status & flags::ZERO != 0;
                self.b(cond);
            },
            0x30 => {
                let cond = self.status & flags::NEGATIVE != 0;
                self.b(cond);
            },
            0xd0 => {
                let cond = self.status & flags::ZERO == 0;
                self.b(cond);
            },
            0x10 => {
                let cond = self.status & flags::NEGATIVE == 0;
                self.b(cond);
            },
            0x50 => {
                let cond = self.status & flags::OVERFLOW == 0;
                self.b(cond);
            },
            0x70 => {
                let cond = self.status & flags::OVERFLOW != 0;
                self.b(cond);
            },
            0x18 => self.set_flag(flags::CARRY, false),
            0xd8 => self.set_flag(flags::DECIMAL, false),
            0x58 => self.set_flag(flags::INTERRUPT, false),
            0xb8 => self.set_flag(flags::OVERFLOW, false),
            0x38 => self.set_flag(flags::CARRY, true),
            0xf8 => self.set_flag(flags::DECIMAL, true),
            0x78 => self.set_flag(flags::INTERRUPT, true),
            0xaa => self.tax(),
            0xa8 => self.tay(),
            0xba => self.tsx(),
            0x8a => self.txa(),
            0x9a => self.txs(),
            0x98 => self.tya(),
            _ => {
                // NOP: the only remaining byte this family holds.
                proof {
                    assert(code == 0xea);
                }
            },
        }
    }

    /// Stack pushes and pulls, the two JMP forms, and the subroutine and
    /// interrupt returns. None of these takes a memory operand.
    #[verifier::rlimit(100)]
    #[verifier::spinoff_prover]
    fn execute_control(&mut self, code: u8)
        requires
            old(self).wf(),
            code == 0x48 || code == 0x08 || code == 0x68 || code == 0x28 || code == 0x4c || code
                == 0x6c || code == 0x20 || code == 0x40 || code == 0x60,
        ensures
            final(self).wf(),
            final(self).machine() == crate::machine::opcode_effect(old(self).machine(), code),
    {
        match code {
            0x48 => {
                let a = self.register_a;
                self.stack_push(a);
            },
            0x08 => self.php(),
            0x68 => self.pla(),
            0x28 => self.plp(),
            0x4c => self.jmp_absolute(),
            0x6c => self.jmp_indirect(),
            0x20 => self.jsr(),
            0x40 => self.rti(),
            _ => self.rts(),
        }
    }

    /// Copies a program image into the bus starting at `origin` and records
    /// `origin` in the reset vector at 0xFFFC/0xFFFD, so the next `reset`
    /// starts executing it. An image that would run past the end of the
    /// address space is refused whole, before anything is written.
    pub fn load(&mut self, program: Vec<u8>, origin: u16) -> (r: Result<(), CpuError>)
        requires
            old(self).wf(),
        ensures
            final(self).wf(),
            same_regs(*old(self), *final(self)),
            final(self).status == old(self).status,
            same_sp_pc(*old(self), *final(self)),
            if origin + program@.len() <= 0x10000 {
                r is Ok && final(self).mem() == loaded_mem(old(self).mem(), origin, program@)
            } else {
                r == Err::<(), CpuError>(
                    CpuError::LoadOutOfRange { origin, len: program@.len() as usize },
                ) && *final(self) == *old(self)
            },
    {
        if program.len() > crate::bus::ADDRESS_SPACE - origin as usize {
            return Err(CpuError::LoadOutOfRange { origin, len: program.len() });
        }
        proof {
            assert(program@.subrange(0, program@.len() as int) =~= program@);
        }
        let mut i: usize = 0;
        let ghost mut cursor: u16 = origin;
        while i < program.len()
            invariant
                self.wf(),
                origin + program@.len() <= 0x10000,
                i <= program@.len(),
                i < program@.len() ==> cursor == origin + i,
                self.register_a == old(self).register_a,
                self.register_x == old(self).register_x,
                self.register_y == old(self).register_y,
                self.status == old(self).status,
                self.stack_pointer == old(self).stack_pointer,
                self.program_counter == old(self).program_counter,
                store_all(
                    self.mem(),
                    cursor,
                    program@.subrange(i as int, program@.len() as int),
                ) == store_all(old(self).mem(), origin, program@),
            decreases program@.len() - i,
        {
            let ghost rest = program@.subrange(i as int, program@.len() as int);
            self.bus.mem_write((origin as usize + i) as u16, program[i]);
            proof {
                assert(rest[0] == program@[i as int]);
                assert(rest.subrange(1, rest.len() as int) =~= program@.subrange(
                    i + 1,
                    program@.len() as int,
                ));
                cursor = cursor.wrapping_add(1);
            }
            i += 1;
        }
        proof {
            assert(program@.subrange(program@.len() as int, program@.len() as int).len() == 0);
        }
        self.bus.mem_write_u16(0xfffc, origin);
        Ok(())
    }

    /// Returns the CPU to its power-on register state and loads the program
    /// counter from the reset vector at 0xFFFC/0xFFFD. Memory is untouched;
    /// reset may be invoked any number of times.
    pub fn reset(&mut self)
        requires
            old(self).wf(),
        ensures
            final(self).wf(),
            final(self).register_a == 0,
            final(self).register_x == 0,
            final(self).register_y == 0,
            final(self).stack_pointer == STACK_RESET,
            final(self).status == flags::RESET_STATUS,
            final(self).program_counter == word_at(old(self).mem(), 0xfffc),
            same_mem(*old(self), *final(self)),
    {
        self.register_a = 0;
        self.register_x = 0;
        self.register_y = 0;
        self.stack_pointer = STACK_RESET;
        self.status = flags::RESET_STATUS;
        self.program_counter = self.bus.mem_read_u16(0xfffc);
    }

    /// Runs the fetch-decode-execute loop until the halt opcode or a fault,
    /// with no observer. The result and final state obey `run_outcome`: a
    /// normal return executed some number of instructions from the initial
    /// state and then fetched the halt opcode 0x00.
    pub fn run(&mut self) -> (r: Result<(), CpuError>)
        requires
            old(self).wf(),
        ensures
            final(self).wf(),
            crate::machine::run_outcome(old(self).machine(), final(self).machine(), r),
    {
        self.run_with_callback(|_cpu: &CPU| {})
    }

    /// The fetch-decode-execute loop: fetch the byte at the program
    /// counter, step past it, dispatch, and advance by the instruction
    /// length unless the instruction set the program counter itself —
    /// each round trip is one `machine_step` of the model, and the result
    /// obeys `run_outcome`. The observer is invoked after each completed
    /// instruction with a read-only view of the state. The loop returns
    /// through the halt opcode 0x00 (this interpreter's halt condition, in
    /// place of the architectural software interrupt), through an unknown
    /// opcode reported with its byte and address, or — so that every loop
    /// in this crate provably terminates — after exactly `STEP_BUDGET`
    /// instructions.
    pub fn run_with_callback<F: Fn(&CPU)>(&mut self, callback: F) -> (r: Result<(), CpuError>)
        requires
            old(self).wf(),
            forall|c: &CPU| #[trigger] call_requires(callback, (c,)),
        ensures
            final(self).wf(),
            crate::machine::run_outcome(old(self).machine(), final(self).machine(), r),
    {
        let ghost m0 = old(self).machine();
        let ghost mut n: nat = 0;
        let mut steps_left: u64 = crate::machine::STEP_BUDGET;
        loop
            invariant
                self.wf(),
                m0 == old(self).machine(),
                forall|c: &CPU| #[trigger] call_requires(callback, (c,)),
                steps_left <= crate::machine::STEP_BUDGET,
                n == crate::machine::STEP_BUDGET - steps_left,
                crate::machine::steps_runnable(m0, n),
                self.machine() == crate::machine::run_n(m0, n),
            decreases steps_left,
        {
            if steps_left == 0 {
                return Err(CpuError::StepLimit { pc: self.program_counter });
            }
            steps_left = steps_left - 1;
            let ghost m_before = self.machine();
            let opcode_pc = self.program_counter;
            let code = self.bus.mem_read(opcode_pc);
            self.program_counter = self.program_counter.wrapping_add(1);
            let pc_after_fetch = self.program_counter;
            if code == 0x00 {
                proof {
                    assert(crate::machine::fetch(crate::machine::run_n(m0, n)) == 0x00);
                    assert(self.machine() == crate::machine::past_opcode(
                        crate::machine::run_n(m0, n),
                    ));
                }
                return Ok(());
            }
            let op = match crate::opcodes::lookup(code) {
                Some(op) => op,
                None => {
                    proof {
                        assert(crate::machine::fetch(crate::machine::run_n(m0, n)) == code);
                        assert(self.machine() == crate::machine::past_opcode(
                            crate::machine::run_n(m0, n),
                        ));
                    }
                    return Err(CpuError::UnknownOpcode { code, pc: opcode_pc });
                },
            };
            self.execute(code, &op.mode);
            if self.program_counter == pc_after_fetch {
                self.program_counter = self.program_counter.wrapping_add((op.len - 1) as u16);
            }
            proof {
                assert(self.machine() == crate::machine::machine_step(m_before));
                n = n + 1;
                assert(crate::machine::run_n(m0, n) == crate::machine::machine_step(
                    crate::machine::run_n(m0, (n - 1) as nat),
                ));
                assert(crate::machine::steps_runnable(m0, n));
            }
            callback(&*self);
        }
    }

    /// Loads a program image at the cartridge origin, resets, and runs to
    /// the halt condition: the result and final state obey `run_outcome`
    /// from the freshly booted machine.
    pub fn load_and_run(&mut self, program: Vec<u8>) -> (r: Result<(), CpuError>)
        requires
            old(self).wf(),
        ensures
            final(self).wf(),
            match r {
                Err(CpuError::LoadOutOfRange { origin, len }) => {
                    &&& origin == LOAD_ORIGIN
                    &&& len == program@.len() as usize
                    &&& program@.len() > 0x8000
                    &&& *final(self) == *old(self)
                },
                _ => crate::machine::run_outcome(
                    crate::machine::boot_machine(old(self).mem(), program@),
                    final(self).machine(),
                    r,
                ),
            },
    {
        match self.load(program, LOAD_ORIGIN) {
            Ok(()) => {},
            Err(e) => {
                return Err(e);
            },
        }
        self.reset();
        self.run()
    }
}

impl Mem for CPU {
    open spec fn mem_ok(&self) -> bool {
        self.bus.mem_ok()
    }

    open spec fn mem_view(&self) -> Seq<u8> {
        self.bus.mem_view()
    }

    proof fn mem_full(&self) {
        self.bus.mem_full();
    }

    proof fn mem_mirrored(&self, a1: u16, a2: u16) {
        self.bus.mem_mirrored(a1, a2);
    }

    fn mem_read(&self, addr: u16) -> (r: u8) {
        self.bus.mem_read(addr)
    }

    fn mem_write(&mut self, addr: u16, data: u8) {
        self.bus.mem_write(addr, data);
    }
}

} // verus!

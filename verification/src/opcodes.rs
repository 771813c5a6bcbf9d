//! The opcode table: one record per official opcode byte.
use crate::cpu::AddressingMode;
use vstd::prelude::*;

verus! {

/// One entry of the opcode table: an opcode byte paired with its mnemonic,
/// instruction length in bytes, base cycle count, and addressing mode.
/// Built per lookup; never mutated. Execution depends on `code`, `len` and
/// `mode`; `mnemonic` and `cycles` are recorded for tracing and disassembly.
pub struct OpCode {
    pub code: u8,
    pub mnemonic: &'static str,
    pub len: u8,
    pub cycles: u8,
    pub mode: AddressingMode,
}

impl OpCode {
    pub fn new(code: u8, mnemonic: &'static str, len: u8, cycles: u8, mode: AddressingMode) -> (
        r: OpCode)
        ensures
            r == (OpCode { code, mnemonic, len, cycles, mode }),
    {
        OpCode { code, mnemonic, len, cycles, mode }
    }
}

/// The addressing mode the table assigns to an opcode byte. Bytes outside
/// the table, and official opcodes that take no memory operand, map to
/// `NoneAddressing`.
pub open spec fn opcode_mode(code: u8) -> AddressingMode {
    match code {
        0x69 | 0xe9 | 0xc9 | 0xe0 | 0xc0 | 0x29 | 0x49 | 0x09 | 0xa9 | 0xa2
            | 0xa0 => AddressingMode::Immediate,
        0x65 | 0xe5 | 0xc5 | 0xe4 | 0xc4 | 0x25 | 0x24 | 0x45 | 0x05 | 0x06 | 0x46 | 0x26 | 0x66
            | 0xa5 | 0xa6 | 0xa4 | 0x85 | 0x86 | 0x84 | 0xc6 | 0xe6 => AddressingMode::ZeroPage,
        0x75 | 0xf5 | 0xd5 | 0x35 | 0x55 | 0x15 | 0x16 | 0x56 | 0x36 | 0x76 | 0xb5 | 0xb4 | 0x95
            | 0x94 | 0xd6 | 0xf6 => AddressingMode::ZeroPage_X,
        0xb6 | 0x96 => AddressingMode::ZeroPage_Y,
        0x6d | 0xed | 0xcd | 0xec | 0xcc | 0x2d | 0x2c | 0x4d | 0x0d | 0x0e | 0x4e | 0x2e | 0x6e
            | 0xad | 0xae | 0xac | 0x8d | 0x8e | 0x8c | 0xce | 0xee | 0x4c
            | 0x20 => AddressingMode::Absolute,
        0x7d | 0xfd | 0xdd | 0x3d | 0x5d | 0x1d | 0x1e | 0x5e | 0x3e | 0x7e | 0xbd | 0xbc | 0x9d
            | 0xde | 0xfe => AddressingMode::Absolute_X,
        0x79 | 0xf9 | 0xd9 | 0x39 | 0x59 | 0x19 | 0xb9 | 0xbe | 0x99 => AddressingMode::Absolute_Y,
        0x61 | 0xe1 | 0xc1 | 0x21 | 0x41 | 0x01 | 0xa1 | 0x81 => AddressingMode::Indirect_X,
        0x71 | 0xf1 | 0xd1 | 0x31 | 0x51 | 0x11 | 0xb1 | 0x91 => AddressingMode::Indirect_Y,
        _ => AddressingMode::NoneAddressing,
    }
}

/// The eight conditional branches: relative addressing, two bytes long.
pub open spec fn is_branch(code: u8) -> bool {
    code == 0x90 || code == 0xb0 || code == 0xf0 || code == 0xd0 || code == 0x30 || code == 0x10
        || code == 0x50 || code == 0x70
}

/// The official opcodes that take no memory operand: implied and
/// accumulator instructions, the branches, and indirect JMP.
pub open spec fn implied_defined(code: u8) -> bool {
    ||| code == 0x00 || code == 0xea
    ||| code == 0xaa || code == 0xa8 || code == 0xba || code == 0x8a || code == 0x9a || code
        == 0x98
    ||| code == 0xca || code == 0x88 || code == 0xe8 || code == 0xc8
    ||| code == 0x48 || code == 0x08 || code == 0x68 || code == 0x28
    ||| code == 0x18 || code == 0xd8 || code == 0x58 || code == 0xb8 || code == 0x38 || code
        == 0xf8 || code == 0x78
    ||| code == 0x0a || code == 0x4a || code == 0x2a || code == 0x6a
    ||| is_branch(code)
    ||| code == 0x40 || code == 0x60 || code == 0x6c
}

/// Whether an opcode byte is in the table at all.
pub open spec fn opcode_defined(code: u8) -> bool {
    !(opcode_mode(code) is NoneAddressing) || implied_defined(code)
}

/// The instruction length the table assigns to an opcode byte: the opcode
/// itself plus its operand bytes.
pub open spec fn opcode_len(code: u8) -> u8 {
    if code == 0x6c {
        3
    } else if is_branch(code) {
        2
    } else {
        match opcode_mode(code) {
            AddressingMode::Immediate => 2,
            AddressingMode::ZeroPage => 2,
            AddressingMode::ZeroPage_X => 2,
            AddressingMode::ZeroPage_Y => 2,
            AddressingMode::Absolute => 3,
            AddressingMode::Absolute_X => 3,
            AddressingMode::Absolute_Y => 3,
            AddressingMode::Indirect_X => 2,
            AddressingMode::Indirect_Y => 2,
            AddressingMode::NoneAddressing => 1,
        }
    }
}


/// Looks one opcode byte up in the table: every official opcode has a
/// record, anything else resolves to `None` and the interpreter reports
/// it to the caller.
#[verifier::rlimit(100)]
#[verifier::spinoff_prover]
pub fn lookup(code: u8) -> (r: Option<OpCode>)
    ensures
        r is Some <==> opcode_defined(code),
        r matches Some(op) ==> op.code == code && op.len == opcode_len(code) && op.mode
            == opcode_mode(code),
{
    match code {
        0x00 => Some(OpCode::new(0x00, "BRK", 1, 7, AddressingMode::NoneAddressing)),
        0x01 => Some(OpCode::new(0x01, "ORA", 2, 6, AddressingMode::Indirect_X)),
        0x05 => Some(OpCode::new(0x05, "ORA", 2, 3, AddressingMode::ZeroPage)),
        0x06 => Some(OpCode::new(0x06, "ASL", 2, 5, AddressingMode::ZeroPage)),
        0x08 => Some(OpCode::new(0x08, "PHP", 1, 3, AddressingMode::NoneAddressing)),
        0x09 => Some(OpCode::new(0x09, "ORA", 2, 2, AddressingMode::Immediate)),
        0x0a => Some(OpCode::new(0x0a, "ASL", 1, 2, AddressingMode::NoneAddressing)),
        0x0d => Some(OpCode::new(0x0d, "ORA", 3, 4, AddressingMode::Absolute)),
        0x0e => Some(OpCode::new(0x0e, "ASL", 3, 6, AddressingMode::Absolute)),
        0x10 => Some(OpCode::new(0x10, "BPL", 2, 2, AddressingMode::NoneAddressing)),
        0x11 => Some(OpCode::new(0x11, "ORA", 2, 5, AddressingMode::Indirect_Y)),
        0x15 => Some(OpCode::new(0x15, "ORA", 2, 4, AddressingMode::ZeroPage_X)),
        0x16 => Some(OpCode::new(0x16, "ASL", 2, 6, AddressingMode::ZeroPage_X)),
        0x18 => Some(OpCode::new(0x18, "CLC", 1, 2, AddressingMode::NoneAddressing)),
        0x19 => Some(OpCode::new(0x19, "ORA", 3, 4, AddressingMode::Absolute_Y)),
        0x1d => Some(OpCode::new(0x1d, "ORA", 3, 4, AddressingMode::Absolute_X)),
        0x1e => Some(OpCode::new(0x1e, "ASL", 3, 7, AddressingMode::Absolute_X)),
        0x20 => Some(OpCode::new(0x20, "JSR", 3, 6, AddressingMode::Absolute)),
        0x21 => Some(OpCode::new(0x21, "AND", 2, 6, AddressingMode::Indirect_X)),
        0x24 => Some(OpCode::new(0x24, "BIT", 2, 3, AddressingMode::ZeroPage)),
        0x25 => Some(OpCode::new(0x25, "AND", 2, 3, AddressingMode::ZeroPage)),
        0x26 => Some(OpCode::new(0x26, "ROL", 2, 5, AddressingMode::ZeroPage)),
        0x28 => Some(OpCode::new(0x28, "PLP", 1, 4, AddressingMode::NoneAddressing)),
        0x29 => Some(OpCode::new(0x29, "AND", 2, 2, AddressingMode::Immediate)),
        0x2a => Some(OpCode::new(0x2a, "ROL", 1, 2, AddressingMode::NoneAddressing)),
        0x2c => Some(OpCode::new(0x2c, "BIT", 3, 4, AddressingMode::Absolute)),
        0x2d => Some(OpCode::new(0x2d, "AND", 3, 4, AddressingMode::Absolute)),
        0x2e => Some(OpCode::new(0x2e, "ROL", 3, 6, AddressingMode::Absolute)),
        0x30 => Some(OpCode::new(0x30, "BMI", 2, 2, AddressingMode::NoneAddressing)),
        0x31 => Some(OpCode::new(0x31, "AND", 2, 5, AddressingMode::Indirect_Y)),
        0x35 => Some(OpCode::new(0x35, "AND", 2, 4, AddressingMode::ZeroPage_X)),
        0x36 => Some(OpCode::new(0x36, "ROL", 2, 6, AddressingMode::ZeroPage_X)),
        0x38 => Some(OpCode::new(0x38, "SEC", 1, 2, AddressingMode::NoneAddressing)),
        0x39 => Some(OpCode::new(0x39, "AND", 3, 4, AddressingMode::Absolute_Y)),
        0x3d => Some(OpCode::new(0x3d, "AND", 3, 4, AddressingMode::Absolute_X)),
        0x3e => Some(OpCode::new(0x3e, "ROL", 3, 7, AddressingMode::Absolute_X)),
        0x40 => Some(OpCode::new(0x40, "RTI", 1, 6, AddressingMode::NoneAddressing)),
        0x41 => Some(OpCode::new(0x41, "EOR", 2, 6, AddressingMode::Indirect_X)),
        0x45 => Some(OpCode::new(0x45, "EOR", 2, 3, AddressingMode::ZeroPage)),
        0x46 => Some(OpCode::new(0x46, "LSR", 2, 5, AddressingMode::ZeroPage)),
        0x48 => Some(OpCode::new(0x48, "PHA", 1, 3, AddressingMode::NoneAddressing)),
        0x49 => Some(OpCode::new(0x49, "EOR", 2, 2, AddressingMode::Immediate)),
        0x4a => Some(OpCode::new(0x4a, "LSR", 1, 2, AddressingMode::NoneAddressing)),
        0x4c => Some(OpCode::new(0x4c, "JMP", 3, 3, AddressingMode::Absolute)),
        0x4d => Some(OpCode::new(0x4d, "EOR", 3, 4, AddressingMode::Absolute)),
        0x4e => Some(OpCode::new(0x4e, "LSR", 3, 6, AddressingMode::Absolute)),
        0x50 => Some(OpCode::new(0x50, "BVC", 2, 2, AddressingMode::NoneAddressing)),
        0x51 => Some(OpCode::new(0x51, "EOR", 2, 5, AddressingMode::Indirect_Y)),
        0x55 => Some(OpCode::new(0x55, "EOR", 2, 4, AddressingMode::ZeroPage_X)),
        0x56 => Some(OpCode::new(0x56, "LSR", 2, 6, AddressingMode::ZeroPage_X)),
        0x58 => Some(OpCode::new(0x58, "CLI", 1, 2, AddressingMode::NoneAddressing)),
        0x59 => Some(OpCode::new(0x59, "EOR", 3, 4, AddressingMode::Absolute_Y)),
        0x5d => Some(OpCode::new(0x5d, "EOR", 3, 4, AddressingMode::Absolute_X)),
        0x5e => Some(OpCode::new(0x5e, "LSR", 3, 7, AddressingMode::Absolute_X)),
        0x60 => Some(OpCode::new(0x60, "RTS", 1, 6, AddressingMode::NoneAddressing)),
        0x61 => Some(OpCode::new(0x61, "ADC", 2, 6, AddressingMode::Indirect_X)),
        0x65 => Some(OpCode::new(0x65, "ADC", 2, 3, AddressingMode::ZeroPage)),
        0x66 => Some(OpCode::new(0x66, "ROR", 2, 5, AddressingMode::ZeroPage)),
        0x68 => Some(OpCode::new(0x68, "PLA", 1, 4, AddressingMode::NoneAddressing)),
        0x69 => Some(OpCode::new(0x69, "ADC", 2, 2, AddressingMode::Immediate)),
        0x6a => Some(OpCode::new(0x6a, "ROR", 1, 2, AddressingMode::NoneAddressing)),
        0x6c => Some(OpCode::new(0x6c, "JMP", 3, 5, AddressingMode::NoneAddressing)),
        0x6d => Some(OpCode::new(0x6d, "ADC", 3, 4, AddressingMode::Absolute)),
        0x6e => Some(OpCode::new(0x6e, "ROR", 3, 6, AddressingMode::Absolute)),
        0x70 => Some(OpCode::new(0x70, "BVS", 2, 2, AddressingMode::NoneAddressing)),
        0x71 => Some(OpCode::new(0x71, "ADC", 2, 5, AddressingMode::Indirect_Y)),
        0x75 => Some(OpCode::new(0x75, "ADC", 2, 4, AddressingMode::ZeroPage_X)),
        0x76 => Some(OpCode::new(0x76, "ROR", 2, 6, AddressingMode::ZeroPage_X)),
        0x78 => Some(OpCode::new(0x78, "SEI", 1, 2, AddressingMode::NoneAddressing)),
        0x79 => Some(OpCode::new(0x79, "ADC", 3, 4, AddressingMode::Absolute_Y)),
        0x7d => Some(OpCode::new(0x7d, "ADC", 3, 4, AddressingMode::Absolute_X)),
        0x7e => Some(OpCode::new(0x7e, "ROR", 3, 7, AddressingMode::Absolute_X)),
        0x81 => Some(OpCode::new(0x81, "STA", 2, 6, AddressingMode::Indirect_X)),
        0x84 => Some(OpCode::new(0x84, "STY", 2, 3, AddressingMode::ZeroPage)),
        0x85 => Some(OpCode::new(0x85, "STA", 2, 3, AddressingMode::ZeroPage)),
        0x86 => Some(OpCode::new(0x86, "STX", 2, 3, AddressingMode::ZeroPage)),
        0x88 => Some(OpCode::new(0x88, "DEY", 1, 2, AddressingMode::NoneAddressing)),
        0x8a => Some(OpCode::new(0x8a, "TXA", 1, 2, AddressingMode::NoneAddressing)),
        0x8c => Some(OpCode::new(0x8c, "STY", 3, 4, AddressingMode::Absolute)),
        0x8d => Some(OpCode::new(0x8d, "STA", 3, 4, AddressingMode::Absolute)),
        0x8e => Some(OpCode::new(0x8e, "STX", 3, 4, AddressingMode::Absolute)),
        0x90 => Some(OpCode::new(0x90, "BCC", 2, 2, AddressingMode::NoneAddressing)),
        0x91 => Some(OpCode::new(0x91, "STA", 2, 6, AddressingMode::Indirect_Y)),
        0x94 => Some(OpCode::new(0x94, "STY", 2, 4, AddressingMode::ZeroPage_X)),
        0x95 => Some(OpCode::new(0x95, "STA", 2, 4, AddressingMode::ZeroPage_X)),
        0x96 => Some(OpCode::new(0x96, "STX", 2, 4, AddressingMode::ZeroPage_Y)),
        0x98 => Some(OpCode::new(0x98, "TYA", 1, 2, AddressingMode::NoneAddressing)),
        0x99 => Some(OpCode::new(0x99, "STA", 3, 5, AddressingMode::Absolute_Y)),
        0x9a => Some(OpCode::new(0x9a, "TXS", 1, 2, AddressingMode::NoneAddressing)),
        0x9d => Some(OpCode::new(0x9d, "STA", 3, 5, AddressingMode::Absolute_X)),
        0xa0 => Some(OpCode::new(0xa0, "LDY", 2, 2, AddressingMode::Immediate)),
        0xa1 => Some(OpCode::new(0xa1, "LDA", 2, 6, AddressingMode::Indirect_X)),
        0xa2 => Some(OpCode::new(0xa2, "LDX", 2, 2, AddressingMode::Immediate)),
        0xa4 => Some(OpCode::new(0xa4, "LDY", 2, 3, AddressingMode::ZeroPage)),
        0xa5 => Some(OpCode::new(0xa5, "LDA", 2, 3, AddressingMode::ZeroPage)),
        0xa6 => Some(OpCode::new(0xa6, "LDX", 2, 3, AddressingMode::ZeroPage)),
        0xa8 => Some(OpCode::new(0xa8, "TAY", 1, 2, AddressingMode::NoneAddressing)),
        0xa9 => Some(OpCode::new(0xa9, "LDA", 2, 2, AddressingMode::Immediate)),
        0xaa => Some(OpCode::new(0xaa, "TAX", 1, 2, AddressingMode::NoneAddressing)),
        0xac => Some(OpCode::new(0xac, "LDY", 3, 4, AddressingMode::Absolute)),
        0xad => Some(OpCode::new(0xad, "LDA", 3, 4, AddressingMode::Absolute)),
        0xae => Some(OpCode::new(0xae, "LDX", 3, 4, AddressingMode::Absolute)),
        0xb0 => Some(OpCode::new(0xb0, "BCS", 2, 2, AddressingMode::NoneAddressing)),
        0xb1 => Some(OpCode::new(0xb1, "LDA", 2, 5, AddressingMode::Indirect_Y)),
        0xb4 => Some(OpCode::new(0xb4, "LDY", 2, 4, AddressingMode::ZeroPage_X)),
        0xb5 => Some(OpCode::new(0xb5, "LDA", 2, 4, AddressingMode::ZeroPage_X)),
        0xb6 => Some(OpCode::new(0xb6, "LDX", 2, 4, AddressingMode::ZeroPage_Y)),
        0xb8 => Some(OpCode::new(0xb8, "CLV", 1, 2, AddressingMode::NoneAddressing)),
        0xb9 => Some(OpCode::new(0xb9, "LDA", 3, 4, AddressingMode::Absolute_Y)),
        0xba => Some(OpCode::new(0xba, "TSX", 1, 2, AddressingMode::NoneAddressing)),
        0xbc => Some(OpCode::new(0xbc, "LDY", 3, 4, AddressingMode::Absolute_X)),
        0xbd => Some(OpCode::new(0xbd, "LDA", 3, 4, AddressingMode::Absolute_X)),
        0xbe => Some(OpCode::new(0xbe, "LDX", 3, 4, AddressingMode::Absolute_Y)),
        0xc0 => Some(OpCode::new(0xc0, "CPY", 2, 2, AddressingMode::Immediate)),
        0xc1 => Some(OpCode::new(0xc1, "CMP", 2, 6, AddressingMode::Indirect_X)),
        0xc4 => Some(OpCode::new(0xc4, "CPY", 2, 3, AddressingMode::ZeroPage)),
        0xc5 => Some(OpCode::new(0xc5, "CMP", 2, 3, AddressingMode::ZeroPage)),
        0xc6 => Some(OpCode::new(0xc6, "DEC", 2, 5, AddressingMode::ZeroPage)),
        0xc8 => Some(OpCode::new(0xc8, "INY", 1, 2, AddressingMode::NoneAddressing)),
        0xc9 => Some(OpCode::new(0xc9, "CMP", 2, 2, AddressingMode::Immediate)),
        0xca => Some(OpCode::new(0xca, "DEX", 1, 2, AddressingMode::NoneAddressing)),
        0xcc => Some(OpCode::new(0xcc, "CPY", 3, 4, AddressingMode::Absolute)),
        0xcd => Some(OpCode::new(0xcd, "CMP", 3, 4, AddressingMode::Absolute)),
        0xce => Some(OpCode::new(0xce, "DEC", 3, 6, AddressingMode::Absolute)),
        0xd0 => Some(OpCode::new(0xd0, "BNE", 2, 2, AddressingMode::NoneAddressing)),
        0xd1 => Some(OpCode::new(0xd1, "CMP", 2, 5, AddressingMode::Indirect_Y)),
        0xd5 => Some(OpCode::new(0xd5, "CMP", 2, 4, AddressingMode::ZeroPage_X)),
        0xd6 => Some(OpCode::new(0xd6, "DEC", 2, 6, AddressingMode::ZeroPage_X)),
        0xd8 => Some(OpCode::new(0xd8, "CLD", 1, 2, AddressingMode::NoneAddressing)),
        0xd9 => Some(OpCode::new(0xd9, "CMP", 3, 4, AddressingMode::Absolute_Y)),
        0xdd => Some(OpCode::new(0xdd, "CMP", 3, 4, AddressingMode::Absolute_X)),
        0xde => Some(OpCode::new(0xde, "DEC", 3, 7, AddressingMode::Absolute_X)),
        0xe0 => Some(OpCode::new(0xe0, "CPX", 2, 2, AddressingMode::Immediate)),
        0xe1 => Some(OpCode::new(0xe1, "SBC", 2, 6, AddressingMode::Indirect_X)),
        0xe4 => Some(OpCode::new(0xe4, "CPX", 2, 3, AddressingMode::ZeroPage)),
        0xe5 => Some(OpCode::new(0xe5, "SBC", 2, 3, AddressingMode::ZeroPage)),
        0xe6 => Some(OpCode::new(0xe6, "INC", 2, 5, AddressingMode::ZeroPage)),
        0xe8 => Some(OpCode::new(0xe8, "INX", 1, 2, AddressingMode::NoneAddressing)),
        0xe9 => Some(OpCode::new(0xe9, "SBC", 2, 2, AddressingMode::Immediate)),
        0xea => Some(OpCode::new(0xea, "NOP", 1, 2, AddressingMode::NoneAddressing)),
        0xec => Some(OpCode::new(0xec, "CPX", 3, 4, AddressingMode::Absolute)),
        0xed => Some(OpCode::new(0xed, "SBC", 3, 4, AddressingMode::Absolute)),
        0xee => Some(OpCode::new(0xee, "INC", 3, 6, AddressingMode::Absolute)),
        0xf0 => Some(OpCode::new(0xf0, "BEQ", 2, 2, AddressingMode::NoneAddressing)),
        0xf1 => Some(OpCode::new(0xf1, "SBC", 2, 5, AddressingMode::Indirect_Y)),
        0xf5 => Some(OpCode::new(0xf5, "SBC", 2, 4, AddressingMode::ZeroPage_X)),
        0xf6 => Some(OpCode::new(0xf6, "INC", 2, 6, AddressingMode::ZeroPage_X)),
        0xf8 => Some(OpCode::new(0xf8, "SED", 1, 2, AddressingMode::NoneAddressing)),
        0xf9 => Some(OpCode::new(0xf9, "SBC", 3, 4, AddressingMode::Absolute_Y)),
        0xfd => Some(OpCode::new(0xfd, "SBC", 3, 4, AddressingMode::Absolute_X)),
        0xfe => Some(OpCode::new(0xfe, "INC", 3, 7, AddressingMode::Absolute_X)),
        _ => None,
    }
}

/// Every byte the table defines is listed here: the table's domain,
/// spelled out so the dispatcher's catch-all arm can be proved
/// unreachable.
#[verifier::rlimit(100)]
#[verifier::spinoff_prover]
pub proof fn lemma_table_is_dispatched(code: u8)
    requires
        opcode_defined(code),
    ensures
        code == 0x00 || code == 0x01 || code == 0x05 || code == 0x06 || code == 0x08 ||
        code == 0x09 || code == 0x0a || code == 0x0d || code == 0x0e || code == 0x10 ||
        code == 0x11 || code == 0x15 || code == 0x16 || code == 0x18 || code == 0x19 ||
        code == 0x1d || code == 0x1e || code == 0x20 || code == 0x21 || code == 0x24 ||
        code == 0x25 || code == 0x26 || code == 0x28 || code == 0x29 || code == 0x2a ||
        code == 0x2c || code == 0x2d || code == 0x2e || code == 0x30 || code == 0x31 ||
        code == 0x35 || code == 0x36 || code == 0x38 || code == 0x39 || code == 0x3d ||
        code == 0x3e || code == 0x40 || code == 0x41 || code == 0x45 || code == 0x46 ||
        code == 0x48 || code == 0x49 || code == 0x4a || code == 0x4c || code == 0x4d ||
        code == 0x4e || code == 0x50 || code == 0x51 || code == 0x55 || code == 0x56 ||
        code == 0x58 || code == 0x59 || code == 0x5d || code == 0x5e || code == 0x60 ||
        code == 0x61 || code == 0x65 || code == 0x66 || code == 0x68 || code == 0x69 ||
        code == 0x6a || code == 0x6c || code == 0x6d || code == 0x6e || code == 0x70 ||
        code == 0x71 || code == 0x75 || code == 0x76 || code == 0x78 || code == 0x79 ||
        code == 0x7d || code == 0x7e || code == 0x81 || code == 0x84 || code == 0x85 ||
        code == 0x86 || code == 0x88 || code == 0x8a || code == 0x8c || code == 0x8d ||
        code == 0x8e || code == 0x90 || code == 0x91 || code == 0x94 || code == 0x95 ||
        code == 0x96 || code == 0x98 || code == 0x99 || code == 0x9a || code == 0x9d ||
        code == 0xa0 || code == 0xa1 || code == 0xa2 || code == 0xa4 || code == 0xa5 ||
        code == 0xa6 || code == 0xa8 || code == 0xa9 || code == 0xaa || code == 0xac ||
        code == 0xad || code == 0xae || code == 0xb0 || code == 0xb1 || code == 0xb4 ||
        code == 0xb5 || code == 0xb6 || code == 0xb8 || code == 0xb9 || code == 0xba ||
        code == 0xbc || code == 0xbd || code == 0xbe || code == 0xc0 || code == 0xc1 ||
        code == 0xc4 || code == 0xc5 || code == 0xc6 || code == 0xc8 || code == 0xc9 ||
        code == 0xca || code == 0xcc || code == 0xcd || code == 0xce || code == 0xd0 ||
        code == 0xd1 || code == 0xd5 || code == 0xd6 || code == 0xd8 || code == 0xd9 ||
        code == 0xdd || code == 0xde || code == 0xe0 || code == 0xe1 || code == 0xe4 ||
        code == 0xe5 || code == 0xe6 || code == 0xe8 || code == 0xe9 || code == 0xea ||
        code == 0xec || code == 0xed || code == 0xee || code == 0xf0 || code == 0xf1 ||
        code == 0xf5 || code == 0xf6 || code == 0xf8 || code == 0xf9 || code == 0xfd ||
        code == 0xfe,
{
}

} // verus!

//! An instruction-accurate interpreter for the MOS 6502 microprocessor.
//!
//! The crate reproduces the architectural state transitions the chip makes
//! when executing a program: register updates, memory reads and writes, flag
//! manipulation, branching, subroutine calls, and stack operations. It is
//! split into addressing-mode resolution, a read-only opcode table, a narrow
//! memory-bus capability, and the CPU core that interprets instructions
//! against them. The core is verified against a pure machine model: every
//! instruction has an exact contract, and the fetch-decode-execute loop is
//! proved to take the machine step by step through that model until it
//! halts or faults.

pub mod alu;
pub mod bus;
pub mod cpu;
pub mod flags;
pub mod laws;
pub mod machine;
pub mod opcodes;

//! The 6502 status register P, kept as a plain byte.
//!
//! Bit positions are architectural and observable when P is pushed to the
//! stack: C carry (bit 0), Z zero (1), I interrupt-disable (2), D decimal (3),
//! B break (4), U unused/always-set-on-push (5), V overflow (6), N negative (7).
//! In-CPU, B and U have no architectural meaning; they matter only in the byte
//! form pushed by PHP/BRK and popped by PLP/RTI.
use vstd::prelude::*;

verus! {

pub const CARRY: u8 = 0x01;

pub const ZERO: u8 = 0x02;

pub const INTERRUPT: u8 = 0x04;

pub const DECIMAL: u8 = 0x08;

pub const BREAK: u8 = 0x10;

pub const UNUSED: u8 = 0x20;

pub const OVERFLOW: u8 = 0x40;

pub const NEGATIVE: u8 = 0x80;

/// The status byte a fresh or reset CPU holds: I and U set.
pub const RESET_STATUS: u8 = 0x24;

/// Whether the flag selected by `mask` is set in the status byte `p`.
pub open spec fn flag_set(p: u8, mask: u8) -> bool {
    p & mask != 0
}

/// The status byte `p` with the flag selected by `mask` set or cleared.
pub open spec fn with_flag(p: u8, mask: u8, on: bool) -> u8 {
    if on {
        p | mask
    } else {
        p & !mask
    }
}

/// The status byte after an operation stored `v` in A, X, Y or memory:
/// Z mirrors `v == 0`, N mirrors bit 7 of `v`, all other flags are kept.
pub open spec fn zn_updated(p: u8, v: u8) -> u8 {
    with_flag(with_flag(p, ZERO, v == 0), NEGATIVE, v & 0x80 != 0)
}

/// The byte PHP (and BRK) push: the in-CPU status with B and U forced to 1.
pub open spec fn php_pushed(p: u8) -> u8 {
    p | (BREAK | UNUSED)
}

/// The in-CPU status PLP leaves after pulling the byte `b`:
/// B is forced to 0 and U to 1, since neither is architecturally
/// meaningful inside the CPU.
pub open spec fn plp_restored(b: u8) -> u8 {
    (b | UNUSED) & !BREAK
}

} // verus!

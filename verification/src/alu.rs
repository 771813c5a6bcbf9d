//! Pure descriptions of the 6502's arithmetic and shift results.
//!
//! Everything here is two's-complement, 8-bit wrapping arithmetic. Carry and
//! overflow are never errors, only flags, so each operation is described by a
//! result function plus one function per flag it drives.
use vstd::prelude::*;

verus! {

/// A carry flag as the 0-or-1 summand it contributes to ADC/SBC.
pub open spec fn carry_in(c: bool) -> int {
    if c {
        1
    } else {
        0
    }
}

/// The unclamped sum ADC forms: A + M + C.
pub open spec fn adc_sum(a: u8, m: u8, c: bool) -> int {
    a + m + carry_in(c)
}

/// The accumulator after ADC: the low 8 bits of A + M + C.
pub open spec fn adc_result(a: u8, m: u8, c: bool) -> u8 {
    (adc_sum(a, m, c) % 256) as u8
}

/// The carry flag after ADC: set exactly when A + M + C exceeds 0xFF.
pub open spec fn adc_carry(a: u8, m: u8, c: bool) -> bool {
    adc_sum(a, m, c) > 0xff
}

/// The overflow flag after ADC: set exactly when the signed result left
/// the two's-complement range, i.e. ((A^s) & (M^s) & 0x80) != 0 for the
/// 8-bit result s.
pub open spec fn adc_overflow(a: u8, m: u8, c: bool) -> bool {
    (a ^ adc_result(a, m, c)) & (m ^ adc_result(a, m, c)) & 0x80 != 0
}

/// The unclamped difference SBC forms: A - M - (1 - C).
pub open spec fn sbc_diff(a: u8, m: u8, c: bool) -> int {
    a - m - (1 - carry_in(c))
}

/// The accumulator after SBC: the difference taken modulo 256.
pub open spec fn sbc_result(a: u8, m: u8, c: bool) -> u8 {
    ((sbc_diff(a, m, c) + 256) % 256) as u8
}

/// The carry flag after SBC: set exactly when no borrow was needed.
pub open spec fn sbc_carry(a: u8, m: u8, c: bool) -> bool {
    sbc_diff(a, m, c) >= 0
}

/// The overflow flag after SBC: set exactly when subtracting changed the
/// sign in an impossible way, i.e. ((A^M) & (A^d) & 0x80) != 0 for the
/// 8-bit difference d.
pub open spec fn sbc_overflow(a: u8, m: u8, c: bool) -> bool {
    (a ^ m) & (a ^ sbc_result(a, m, c)) & 0x80 != 0
}

/// The 8-bit difference CMP/CPX/CPY derive their Z and N flags from.
pub open spec fn cmp_diff(reg: u8, m: u8) -> u8 {
    reg.wrapping_sub(m)
}

/// ASL: shift left one; bit 0 cleared, old bit 7 goes to carry.
pub open spec fn asl_result(v: u8) -> u8 {
    v << 1
}

/// LSR: shift right one; bit 7 cleared, old bit 0 goes to carry.
pub open spec fn lsr_result(v: u8) -> u8 {
    v >> 1
}

/// ROL: shift left one; new bit 0 is the old carry.
pub open spec fn rol_result(v: u8, c: bool) -> u8 {
    if c {
        (v << 1) | 0x01
    } else {
        v << 1
    }
}

/// ROR: shift right one; new bit 7 is the old carry.
pub open spec fn ror_result(v: u8, c: bool) -> u8 {
    if c {
        (v >> 1) | 0x80
    } else {
        v >> 1
    }
}

/// A branch offset byte read as a signed displacement, widened to 16 bits.
pub open spec fn sign_extend(off: u8) -> u16 {
    if off < 0x80 {
        off as u16
    } else {
        (off + 0xff00) as u16
    }
}

/// Where a taken branch lands: the offset is relative to the byte after
/// the operand, with 16-bit wraparound.
pub open spec fn branch_target(pc: u16, off: u8) -> u16 {
    pc.wrapping_add(1).wrapping_add(sign_extend(off))
}

/// A 16-bit word assembled little-endian from two bytes.
pub open spec fn word(lo: u8, hi: u8) -> u16 {
    (hi * 256 + lo) as u16
}

/// The low byte of a 16-bit word.
pub open spec fn lo8(w: u16) -> u8 {
    (w % 256) as u8
}

/// The high byte of a 16-bit word.
pub open spec fn hi8(w: u16) -> u8 {
    (w / 256) as u8
}

} // verus!

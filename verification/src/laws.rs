//! Laws the instruction semantics obey, stated over the pure model and
//! proved once, for all inputs.
use crate::alu;
use crate::cpu;
use crate::flags;
use vstd::arithmetic::div_mod::lemma_fundamental_div_mod;
use vstd::prelude::*;

verus! {

/// Every operation that writes A, X or Y (and every in-memory
/// increment, decrement and shift) routes the written value through the
/// Z/N update. Afterwards Z holds exactly when the value is zero, N
/// mirrors its bit 7, and none of the other six flags moves.
pub proof fn lemma_zn_flags(p: u8, v: u8)
    by (bit_vector)
    ensures
        flags::flag_set(flags::zn_updated(p, v), flags::ZERO) == (v == 0),
        flags::flag_set(flags::zn_updated(p, v), flags::NEGATIVE) == (v & 0x80 != 0),
        flags::flag_set(flags::zn_updated(p, v), flags::CARRY) == flags::flag_set(
            p,
            flags::CARRY,
        ),
        flags::flag_set(flags::zn_updated(p, v), flags::INTERRUPT) == flags::flag_set(
            p,
            flags::INTERRUPT,
        ),
        flags::flag_set(flags::zn_updated(p, v), flags::DECIMAL) == flags::flag_set(
            p,
            flags::DECIMAL,
        ),
        flags::flag_set(flags::zn_updated(p, v), flags::BREAK) == flags::flag_set(
            p,
            flags::BREAK,
        ),
        flags::flag_set(flags::zn_updated(p, v), flags::UNUSED) == flags::flag_set(
            p,
            flags::UNUSED,
        ),
        flags::flag_set(flags::zn_updated(p, v), flags::OVERFLOW) == flags::flag_set(
            p,
            flags::OVERFLOW,
        ),
{
}

/// SBC is ADC of the operand's bitwise complement: for every accumulator,
/// operand and incoming carry, the two agree on the result byte, the carry
/// flag and the overflow flag (and so, the results being equal, on Z and N).
pub proof fn lemma_sbc_is_adc_of_complement(a: u8, m: u8, c: bool)
    ensures
        alu::sbc_result(a, m, c) == alu::adc_result(a, (m ^ 0xff), c),
        alu::sbc_carry(a, m, c) == alu::adc_carry(a, (m ^ 0xff), c),
        alu::sbc_overflow(a, m, c) == alu::adc_overflow(a, (m ^ 0xff), c),
{
    assert(m ^ 0xff == 255 - m) by (bit_vector);
    assert(alu::adc_sum(a, (m ^ 0xff), c) == alu::sbc_diff(a, m, c) + 256);
    let r = alu::adc_result(a, (m ^ 0xff), c);
    assert(alu::sbc_result(a, m, c) == r);
    assert(((a ^ m) & (a ^ r) & 0x80 != 0) == ((a ^ r) & ((m ^ 0xff) ^ r) & 0x80 != 0))
        by (bit_vector);
}

/// Indirect operands read their pointer's high byte from (p + 1) mod 256:
/// the fetch stays in page zero however large p is.
pub proof fn lemma_zero_page_pointer_high_wraps(mem: Seq<u8>, p: u8)
    ensures
        cpu::zp_pointer(mem, p) == alu::word(mem[p as int], mem[(p + 1) % 256]),
{
}

/// Indirect JMP reads its target's high byte from an address on the
/// pointer's own page whose low byte is (ptr + 1) mod 256: the fetch never
/// carries into the next page, which is the 6502's page-wrap quirk.
pub proof fn lemma_jmp_indirect_high_wraps(ptr: u16)
    ensures
        cpu::jmp_high_addr(ptr) & 0xff00 == ptr & 0xff00,
        cpu::jmp_high_addr(ptr) & 0x00ff == (ptr + 1) % 256,
{
    if ptr & 0x00ff == 0x00ff {
        assert(ptr & 0x00ff == 0x00ff ==> ((ptr & 0xff00) & 0xff00 == ptr & 0xff00 && (ptr
            & 0xff00) & 0x00ff == (ptr + 1) % 256)) by (bit_vector);
    } else {
        assert(ptr & 0x00ff != 0x00ff ==> ptr != 0xffff) by (bit_vector);
        let next = ptr.wrapping_add(1);
        assert(next == ptr + 1);
        assert(ptr & 0x00ff != 0x00ff && next == ptr + 1 ==> (next & 0xff00 == ptr & 0xff00
            && next & 0x00ff == (ptr + 1) % 256)) by (bit_vector);
    }
}

/// PHP followed by PLP with no intervening flag changes restores the
/// status byte, except that the in-CPU B comes back 0 and U comes back 1:
/// C, Z, I, D, V and N all survive the round trip.
pub proof fn lemma_php_plp_round_trip(p: u8)
    by (bit_vector)
    ensures
        flags::plp_restored(flags::php_pushed(p)) == ((p | flags::UNUSED) & !flags::BREAK),
        flags::flag_set(flags::plp_restored(flags::php_pushed(p)), flags::CARRY)
            == flags::flag_set(p, flags::CARRY),
        flags::flag_set(flags::plp_restored(flags::php_pushed(p)), flags::ZERO)
            == flags::flag_set(p, flags::ZERO),
        flags::flag_set(flags::plp_restored(flags::php_pushed(p)), flags::INTERRUPT)
            == flags::flag_set(p, flags::INTERRUPT),
        flags::flag_set(flags::plp_restored(flags::php_pushed(p)), flags::DECIMAL)
            == flags::flag_set(p, flags::DECIMAL),
        flags::flag_set(flags::plp_restored(flags::php_pushed(p)), flags::OVERFLOW)
            == flags::flag_set(p, flags::OVERFLOW),
        flags::flag_set(flags::plp_restored(flags::php_pushed(p)), flags::NEGATIVE)
            == flags::flag_set(p, flags::NEGATIVE),
        !flags::flag_set(flags::plp_restored(flags::php_pushed(p)), flags::BREAK),
        flags::flag_set(flags::plp_restored(flags::php_pushed(p)), flags::UNUSED),
{
}

/// A pushed 16-bit word is pulled back intact, with the stack pointer
/// restored: the low and high halves land in distinct page-1 cells and the
/// pull reads them in the matching order.
pub proof fn lemma_stack_word_round_trip(mem: Seq<u8>, sp: u8, w: u16)
    requires
        mem.len() == 0x10000,
    ensures
        cpu::pop16_val(cpu::push16_mem(mem, sp, w), sp.wrapping_sub(2)) == w,
        sp.wrapping_sub(2).wrapping_add(2) == sp,
{
    let pushed = cpu::push16_mem(mem, sp, w);
    let sp_after = sp.wrapping_sub(2);
    assert(sp_after.wrapping_add(1) == sp.wrapping_sub(1));
    assert(sp_after.wrapping_add(1).wrapping_add(1) == sp);
    assert(cpu::stack_addr(sp) != cpu::stack_addr(sp.wrapping_sub(1)));
    assert(pushed[cpu::stack_addr(sp.wrapping_sub(1)) as int] == alu::lo8(w));
    assert(pushed[cpu::stack_addr(sp) as int] == alu::hi8(w));
    lemma_fundamental_div_mod(w as int, 256);
    assert(alu::word(alu::lo8(w), alu::hi8(w)) == w);
}

/// After JSR to a target and RTS with no intervening stack manipulation,
/// execution resumes at the instruction immediately following the JSR:
/// with the program counter at the target's low byte when JSR pushes, the
/// pushed word is PC + 1 and RTS lands on PC + 2, two bytes past the
/// operand and three past the JSR opcode itself.
pub proof fn lemma_jsr_rts_round_trip(mem: Seq<u8>, sp: u8, pc: u16)
    requires
        mem.len() == 0x10000,
    ensures
        cpu::pop16_val(
            cpu::push16_mem(mem, sp, pc.wrapping_add(1)),
            sp.wrapping_sub(2),
        ).wrapping_add(1) == pc.wrapping_add(2),
        sp.wrapping_sub(2).wrapping_add(2) == sp,
{
    lemma_stack_word_round_trip(mem, sp, pc.wrapping_add(1));
    assert(pc.wrapping_add(1).wrapping_add(1) == pc.wrapping_add(2));
}

/// The stack occupies page 1: whatever the stack pointer's value, the cell
/// behind it lies in 0x0100..=0x01FF, so pushes and pulls can never touch
/// another page.
pub proof fn lemma_stack_stays_in_page_one(sp: u8)
    ensures
        0x100 <= cpu::stack_addr(sp) <= 0x1ff,
{
}

/// The zero-page addressing modes resolve inside page zero: indexing wraps
/// at the page boundary instead of escaping it.
pub proof fn lemma_zero_page_modes_stay_in_page_zero(mem: Seq<u8>, base: u16, x: u8, y: u8)
    ensures
        cpu::effective_address(mem, cpu::AddressingMode::ZeroPage, base, x, y) < 0x100,
        cpu::effective_address(mem, cpu::AddressingMode::ZeroPage_X, base, x, y) < 0x100,
        cpu::effective_address(mem, cpu::AddressingMode::ZeroPage_Y, base, x, y) < 0x100,
{
}

/// Stack pointer arithmetic is modulo 256: a push steps it to
/// (SP + 255) mod 256 and a pull to (SP + 1) mod 256, so it silently wraps
/// at both ends of page 1.
pub proof fn lemma_sp_wraps(sp: u8)
    ensures
        sp.wrapping_sub(1) == (sp + 255) % 256,
        sp.wrapping_add(1) == (sp + 1) % 256,
{
}

} // verus!

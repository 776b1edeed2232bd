//! Pure arithmetic and status-flag semantics of the 6502.
//!
//! Every instruction's effect on the register file is defined here as a
//! spec-level function on plain bytes; the interpreter's contracts are
//! stated over these functions.
use vstd::prelude::*;

verus! {

pub const CARRY_FLAG: u8 = 0x01;

pub const ZERO_FLAG: u8 = 0x02;

pub const INTERRUPT_DISABLE_FLAG: u8 = 0x04;

pub const DECIMAL_FLAG: u8 = 0x08;

pub const BREAK_FLAG: u8 = 0x10;

pub const BREAK2_FLAG: u8 = 0x20;

pub const OVERFLOW_FLAG: u8 = 0x40;

pub const NEGATIVE_FLAG: u8 = 0x80;

/// The status byte the processor holds after a reset: the unused bit and
/// the interrupt-disable bit set.
pub const RESET_STATUS: u8 = 0x24;

/// The stack pointer after a reset.
pub const RESET_STACK_POINTER: u8 = 0xFD;

/// True when the bits selected by `mask` are set in the status byte `p`.
pub open spec fn flag_set(p: u8, mask: u8) -> bool {
    p & mask != 0
}

/// The status byte `p` with the bits of `mask` forced to `on`.
pub open spec fn set_flag_spec(p: u8, mask: u8, on: bool) -> u8 {
    if on {
        p | mask
    } else {
        p & !mask
    }
}

/// The status byte after the zero and negative flags are derived from a
/// fresh 8-bit result: Z iff the result is zero, N iff its top bit is set.
pub open spec fn zn_update(p: u8, result: u8) -> u8 {
    set_flag_spec(set_flag_spec(p, ZERO_FLAG, result == 0), NEGATIVE_FLAG, result & 0x80 != 0)
}

/// The byte PHP pushes: the live status with B and the unused bit set on
/// the stacked copy only.
pub open spec fn php_stack_byte(p: u8) -> u8 {
    (p | BREAK_FLAG) | BREAK2_FLAG
}

/// The status byte after a stack pull of P (PLP and RTI): B forced off,
/// the unused bit forced on.
pub open spec fn status_after_pull(b: u8) -> u8 {
    (b & !BREAK_FLAG) | BREAK2_FLAG
}

/// ADC's full sum `A + M + C` before the 8-bit wrap.
pub open spec fn adc_sum(a: u8, m: u8, c: bool) -> int {
    a + m + (if c {
        1int
    } else {
        0int
    })
}

/// The accumulator after ADC.
pub open spec fn adc_result(a: u8, m: u8, c: bool) -> u8 {
    (adc_sum(a, m, c) % 256) as u8
}

/// ADC's carry-out: the full sum does not fit in a byte.
pub open spec fn adc_carry(a: u8, m: u8, c: bool) -> bool {
    adc_sum(a, m, c) > 0xFF
}

/// ADC's signed overflow, by the hardware formula over the wrapped result.
pub open spec fn adc_overflow(a: u8, m: u8, c: bool) -> bool {
    (a ^ adc_result(a, m, c)) & (m ^ adc_result(a, m, c)) & 0x80 != 0
}

/// The whole status byte after ADC with operand `m`, carry-in taken from `p`.
pub open spec fn adc_status(p: u8, a: u8, m: u8) -> u8 {
    let c = flag_set(p, CARRY_FLAG);
    zn_update(
        set_flag_spec(
            set_flag_spec(p, CARRY_FLAG, adc_carry(a, m, c)),
            OVERFLOW_FLAG,
            adc_overflow(a, m, c),
        ),
        adc_result(a, m, c),
    )
}

/// SBC's full difference `A - M - (1 - C)` before the 8-bit wrap.
pub open spec fn sbc_diff(a: u8, m: u8, c: bool) -> int {
    a - m - (if c {
        0int
    } else {
        1int
    })
}

/// The accumulator after SBC.
pub open spec fn sbc_result(a: u8, m: u8, c: bool) -> u8 {
    (sbc_diff(a, m, c) % 256) as u8
}

/// SBC leaves carry set exactly when no borrow occurred.
pub open spec fn sbc_carry(a: u8, m: u8, c: bool) -> bool {
    sbc_diff(a, m, c) >= 0
}

/// SBC's signed overflow: the signs of A and M differ and the result's
/// sign differs from A's.
pub open spec fn sbc_overflow(a: u8, m: u8, c: bool) -> bool {
    (a & 0x80) != (m & 0x80) && (a & 0x80) != (sbc_result(a, m, c) & 0x80)
}

/// The whole status byte after SBC with operand `m`, carry-in taken from `p`.
pub open spec fn sbc_status(p: u8, a: u8, m: u8) -> u8 {
    let c = flag_set(p, CARRY_FLAG);
    zn_update(
        set_flag_spec(
            set_flag_spec(p, CARRY_FLAG, sbc_carry(a, m, c)),
            OVERFLOW_FLAG,
            sbc_overflow(a, m, c),
        ),
        sbc_result(a, m, c),
    )
}

/// 8-bit wrapping difference, as CMP/CPX/CPY feed it to the Z and N flags.
pub open spec fn sub8(a: u8, b: u8) -> u8 {
    ((a - b) % 256) as u8
}

/// The status byte after a compare of register value `reg` against `m`:
/// carry iff `reg >= m`, Z and N from the wrapped difference.
pub open spec fn cmp_status(p: u8, reg: u8, m: u8) -> u8 {
    zn_update(set_flag_spec(p, CARRY_FLAG, reg >= m), sub8(reg, m))
}

/// The shifted value after ASL.
pub open spec fn asl_result(v: u8) -> u8 {
    v << 1
}

/// The shifted value after LSR.
pub open spec fn lsr_result(v: u8) -> u8 {
    v >> 1
}

/// The rotated value after ROL with carry-in `c`.
pub open spec fn rol_result(v: u8, c: bool) -> u8 {
    (v << 1) | (if c {
        1u8
    } else {
        0u8
    })
}

/// The rotated value after ROR with carry-in `c`.
pub open spec fn ror_result(v: u8, c: bool) -> u8 {
    (v >> 1) | (if c {
        0x80u8
    } else {
        0u8
    })
}

/// The status byte after a shift or rotate: carry-out as given, Z and N
/// from the shifted value.
pub open spec fn shift_status(p: u8, carry_out: bool, result: u8) -> u8 {
    zn_update(set_flag_spec(p, CARRY_FLAG, carry_out), result)
}

/// The status byte after BIT with operand `m`: Z from `A & M`, N and V
/// copied from bits 7 and 6 of the operand.
pub open spec fn bit_status(p: u8, a: u8, m: u8) -> u8 {
    (set_flag_spec(p, ZERO_FLAG, a & m == 0) & !(NEGATIVE_FLAG | OVERFLOW_FLAG)) | (m
        & (NEGATIVE_FLAG | OVERFLOW_FLAG))
}

/// Forces the bits of `mask` in a status byte to `on`.
pub fn set_flag(p: u8, mask: u8, on: bool) -> (r: u8)
    ensures
        r == set_flag_spec(p, mask, on),
{
    if on {
        p | mask
    } else {
        p & !mask
    }
}

/// Writes the zero and negative flags of a fresh result into a status byte.
pub fn update_zn(p: u8, result: u8) -> (r: u8)
    ensures
        r == zn_update(p, result),
{
    let p1 = if result == 0 {
        p | ZERO_FLAG
    } else {
        p & !ZERO_FLAG
    };
    if result & 0x80 != 0 {
        p1 | NEGATIVE_FLAG
    } else {
        p1 & !NEGATIVE_FLAG
    }
}

/// After a push of P and a pull of it, every bit but B and the unused bit
/// round-trips; B ends clear and the unused bit ends set.
pub proof fn lemma_php_plp_round_trip(p: u8)
    by (bit_vector)
    ensures
        status_after_pull(php_stack_byte(p)) & !(BREAK_FLAG | BREAK2_FLAG) == p & !(BREAK_FLAG
            | BREAK2_FLAG),
        !flag_set(status_after_pull(php_stack_byte(p)), BREAK_FLAG),
        flag_set(status_after_pull(php_stack_byte(p)), BREAK2_FLAG),
{
}

/// Any stack pull of the status register leaves B clear and the unused
/// bit set, whatever byte was on the stack.
pub proof fn lemma_pull_forces_b_and_unused(b: u8)
    by (bit_vector)
    ensures
        !flag_set(status_after_pull(b), BREAK_FLAG),
        flag_set(status_after_pull(b), BREAK2_FLAG),
{
}

/// ADC's carry is set exactly when `A + M + C` exceeds 0xFF, and its
/// overflow is set exactly when A and M agree in sign and the result
/// disagrees.
pub proof fn lemma_adc_flags(a: u8, m: u8, c: bool)
    by (bit_vector)
    ensures
        adc_carry(a, m, c) <==> adc_sum(a, m, c) > 0xFF,
        adc_overflow(a, m, c) <==> ((a & 0x80) == (m & 0x80) && (a & 0x80) != (adc_result(a, m, c)
            & 0x80)),
{
}

/// The zero flag tracks `result == 0`, the negative flag tracks bit 7,
/// and every other status bit is left alone.
pub proof fn lemma_zn_update(p: u8, result: u8)
    by (bit_vector)
    ensures
        flag_set(zn_update(p, result), ZERO_FLAG) <==> result == 0,
        flag_set(zn_update(p, result), NEGATIVE_FLAG) <==> result & 0x80 != 0,
        zn_update(p, result) & !(ZERO_FLAG | NEGATIVE_FLAG) == p & !(ZERO_FLAG | NEGATIVE_FLAG),
{
}

/// Deriving Z and N twice from the same result changes nothing more.
pub proof fn lemma_zn_update_idempotent(p: u8, result: u8)
    by (bit_vector)
    ensures
        zn_update(zn_update(p, result), result) == zn_update(p, result),
{
}

/// The low byte of a 16-bit word is its value modulo 256.
pub proof fn lemma_low_byte(s: u16)
    by (bit_vector)
    ensures
        s & 0xFF == s % 256,
{
}

/// The compare difference modulo 256 is the 8-bit wrapping difference.
pub proof fn lemma_sub8_wrapping(a: u8, b: u8)
    ensures
        sub8(a, b) == a.wrapping_sub(b),
{
    if a >= b {
        vstd::arithmetic::div_mod::lemma_small_mod((a - b) as nat, 256);
    } else {
        vstd::arithmetic::div_mod::lemma_mod_add_multiples_vanish(a - b, 256);
        vstd::arithmetic::div_mod::lemma_small_mod((a - b + 256) as nat, 256);
    }
}

} // verus!

//! Byte/word splitting and joining, and the width-parameterized
//! arithmetic engine that computes wrapped results together with the
//! carry, overflow, sign and zero flags.

use vstd::prelude::*;
use vstd::arithmetic::div_mod::{lemma_small_mod, lemma_mod_add_multiples_vanish};
use crate::datatypes::{Byte, Word};

verus! {

/// The low-order 8 bits of a word: `0xBEEF` yields `0xEF`.
pub open spec fn spec_low8(val: Word) -> Byte {
    (val % 256) as u8
}

/// The high-order 8 bits of a word: `0xBEEF` yields `0xBE`.
pub open spec fn spec_high8(val: Word) -> Byte {
    (val / 256) as u8
}

/// The word whose low-order byte is `low` and high-order byte is `high`.
pub open spec fn spec_join8(low: Byte, high: Byte) -> Word {
    (high * 256 + low) as u16
}

/// Return the low 8 bits of `val`.
pub fn low8(val: Word) -> (r: Byte)
    ensures
        r == spec_low8(val),
{
    (val % 256) as u8
}

/// Return the high 8 bits of `val`.
pub fn high8(val: Word) -> (r: Byte)
    ensures
        r == spec_high8(val),
{
    (val / 256) as u8
}

/// Join two bytes into a word, `low` in the low-order half.
pub fn join8(low: Byte, high: Byte) -> (r: Word)
    ensures
        r == spec_join8(low, high),
{
    (high as u16) * 256 + (low as u16)
}

/// Replace the low byte of `val` with `low`.
pub fn join_low8(val: Word, low: Byte) -> (r: Word)
    ensures
        r == spec_join8(low, spec_high8(val)),
        spec_low8(r) == low,
        spec_high8(r) == spec_high8(val),
{
    let r = join8(low, high8(val));
    proof {
        lemma_split_join(low, spec_high8(val));
    }
    r
}

/// Replace the high byte of `val` with `high`.
pub fn join_high8(val: Word, high: Byte) -> (r: Word)
    ensures
        r == spec_join8(spec_low8(val), high),
        spec_high8(r) == high,
        spec_low8(r) == spec_low8(val),
{
    let r = join8(low8(val), high);
    proof {
        lemma_split_join(spec_low8(val), high);
    }
    r
}

/// Splitting a joined word gives back the two bytes: for every `low` and
/// `high`, `spec_low8(spec_join8(low, high)) == low` and
/// `spec_high8(spec_join8(low, high)) == high`.
pub proof fn lemma_split_join(low: Byte, high: Byte)
    ensures
        spec_low8(spec_join8(low, high)) == low,
        spec_high8(spec_join8(low, high)) == high,
{
    assert((high * 256 + low) % 256 == low && (high * 256 + low) / 256 == high) by (nonlinear_arith)
        requires low < 256 && high < 256;
}

/// Joining the split halves of a word gives back the word: for every
/// `val`, `spec_join8(spec_low8(val), spec_high8(val)) == val`.
pub proof fn lemma_join_split(val: Word)
    ensures
        spec_join8(spec_low8(val), spec_high8(val)) == val,
{
    assert(val / 256 * 256 + val % 256 == val) by (nonlinear_arith);
}

/// The signed-overflow rule for additions: the operand signs agree with
/// each other and differ from the result sign.
pub open spec fn spec_add_overflow(l_sign: bool, r_sign: bool, result_sign: bool) -> bool {
    (result_sign != l_sign) && (l_sign == r_sign)
}

/// The signed-overflow rule for subtractions: a non-negative left and a
/// negative right give a negative result, or a negative left and a
/// non-negative right give a non-negative result.
pub open spec fn spec_sub_overflow(l_sign: bool, r_sign: bool, result_sign: bool) -> bool {
    ((!l_sign && r_sign) && result_sign) || ((l_sign && !r_sign) && !result_sign)
}

/// Calculate the overflow flag for add operations.
pub fn add_overflow(l_sign: bool, r_sign: bool, result_sign: bool) -> (r: bool)
    ensures
        r == spec_add_overflow(l_sign, r_sign, result_sign),
{
    (result_sign != l_sign) && (l_sign == r_sign)
}

/// Calculate the overflow flag for sub operations.
pub fn sub_overflow(l_sign: bool, r_sign: bool, result_sign: bool) -> (r: bool)
    ensures
        r == spec_sub_overflow(l_sign, r_sign, result_sign),
{
    ((!l_sign && r_sign) && result_sign) || ((l_sign && !r_sign) && !result_sign)
}

/// The operand width an arithmetic operation works at.
#[derive(Clone, Copy, PartialEq, Eq, Structural, Debug)]
pub enum Width {
    Byte,
    Word,
}

/// The modulus of a width: one past the largest representable value.
pub open spec fn width_modulus(w: Width) -> int {
    match w {
        Width::Byte => 256,
        Width::Word => 65536,
    }
}

/// The sign of a value at a width: its most-significant bit.
pub open spec fn spec_sign_of(w: Width, v: int) -> bool {
    v >= width_modulus(w) / 2
}

/// The kind of arithmetic operation the engine performs.
#[derive(Clone, Copy, PartialEq, Eq, Structural, Debug)]
pub enum AluOp {
    Add,
    Sub,
}

/// The wrapped result of an operation at a width.
pub open spec fn spec_alu_result(op: AluOp, w: Width, left: int, right: int) -> int {
    match op {
        AluOp::Add => (left + right) % width_modulus(w),
        AluOp::Sub => (left - right) % width_modulus(w),
    }
}

/// The carry flag of an operation at a width: the unsigned operation
/// leaves the width (an add reaches the modulus; a sub goes below zero).
pub open spec fn spec_alu_carry(op: AluOp, w: Width, left: int, right: int) -> bool {
    match op {
        AluOp::Add => left + right >= width_modulus(w),
        AluOp::Sub => left < right,
    }
}

/// The overflow flag of an operation at a width, per the signed
/// two's-complement rules.
pub open spec fn spec_alu_overflow(op: AluOp, w: Width, left: int, right: int) -> bool {
    let result_sign = spec_sign_of(w, spec_alu_result(op, w, left, right));
    match op {
        AluOp::Add => spec_add_overflow(
            spec_sign_of(w, left),
            spec_sign_of(w, right),
            result_sign,
        ),
        AluOp::Sub => spec_sub_overflow(
            spec_sign_of(w, left),
            spec_sign_of(w, right),
            result_sign,
        ),
    }
}

/// Compute the wrapped result of `op` on `left` and `right` at width `w`,
/// together with the carry, overflow, sign and zero flags, in that order.
pub fn arith(op: AluOp, w: Width, left: u16, right: u16) -> (r: (u16, bool, bool, bool, bool))
    requires
        left < width_modulus(w),
        right < width_modulus(w),
    ensures
        r.0 == spec_alu_result(op, w, left as int, right as int),
        r.1 == spec_alu_carry(op, w, left as int, right as int),
        r.2 == spec_alu_overflow(op, w, left as int, right as int),
        r.3 == spec_sign_of(w, r.0 as int),
        r.4 == (r.0 == 0),
{
    let m: u32 = match w {
        Width::Byte => 256,
        Width::Word => 65536,
    };
    let (result, carry): (u16, bool) = match op {
        AluOp::Add => {
            let sum: u32 = left as u32 + right as u32;
            let wrapped: u16 = if sum >= m {
                proof {
                    lemma_mod_add_multiples_vanish(sum - m, m as int);
                    lemma_small_mod((sum - m) as nat, m as nat);
                }
                (sum - m) as u16
            } else {
                proof {
                    lemma_small_mod(sum as nat, m as nat);
                }
                sum as u16
            };
            (wrapped, sum >= m)
        },
        AluOp::Sub => {
            let wrapped: u16 = if left >= right {
                proof {
                    lemma_small_mod((left - right) as nat, m as nat);
                }
                left - right
            } else {
                proof {
                    lemma_mod_add_multiples_vanish(left as int - right as int, m as int);
                    lemma_small_mod((left as int - right as int + m) as nat, m as nat);
                }
                ((left as u32 + m) - right as u32) as u16
            };
            (wrapped, left < right)
        },
    };
    let half: u16 = (m / 2) as u16;
    let l_sign: bool = left >= half;
    let r_sign: bool = right >= half;
    let result_sign: bool = result >= half;
    let overflow: bool = match op {
        AluOp::Add => add_overflow(l_sign, r_sign, result_sign),
        AluOp::Sub => sub_overflow(l_sign, r_sign, result_sign),
    };
    (result, carry, overflow, result_sign, result == 0)
}

/// Byte addition: the wrapped sum and the carry, overflow, sign and zero
/// flags, in that order.
pub fn b_add(left: Byte, right: Byte) -> (r: (Byte, bool, bool, bool, bool))
    ensures
        r.0 == (left + right) % 256,
        r.1 == (left + right >= 256),
        r.2 == spec_add_overflow(left >= 128, right >= 128, r.0 >= 128),
        r.3 == (r.0 >= 128),
        r.4 == (r.0 == 0),
{
    let (result, carry, overflow, sign, zero) = arith(
        AluOp::Add,
        Width::Byte,
        left as u16,
        right as u16,
    );
    (result as u8, carry, overflow, sign, zero)
}

/// Byte subtraction: the wrapped difference and the carry, overflow, sign
/// and zero flags, in that order.
pub fn b_sub(left: Byte, right: Byte) -> (r: (Byte, bool, bool, bool, bool))
    ensures
        r.0 == (left - right) % 256,
        r.1 == (left < right),
        r.2 == spec_sub_overflow(left >= 128, right >= 128, r.0 >= 128),
        r.3 == (r.0 >= 128),
        r.4 == (r.0 == 0),
{
    let (result, carry, overflow, sign, zero) = arith(
        AluOp::Sub,
        Width::Byte,
        left as u16,
        right as u16,
    );
    (result as u8, carry, overflow, sign, zero)
}

/// Word addition: the wrapped sum and the carry, overflow, sign and zero
/// flags, in that order.
pub fn w_add(left: Word, right: Word) -> (r: (Word, bool, bool, bool, bool))
    ensures
        r.0 == (left + right) % 65536,
        r.1 == (left + right >= 65536),
        r.2 == spec_add_overflow(left >= 32768, right >= 32768, r.0 >= 32768),
        r.3 == (r.0 >= 32768),
        r.4 == (r.0 == 0),
{
    arith(AluOp::Add, Width::Word, left, right)
}

/// Word subtraction: the wrapped difference and the carry, overflow, sign
/// and zero flags, in that order.
pub fn w_sub(left: Word, right: Word) -> (r: (Word, bool, bool, bool, bool))
    ensures
        r.0 == (left - right) % 65536,
        r.1 == (left < right),
        r.2 == spec_sub_overflow(left >= 32768, right >= 32768, r.0 >= 32768),
        r.3 == (r.0 >= 32768),
        r.4 == (r.0 == 0),
{
    arith(AluOp::Sub, Width::Word, left, right)
}

} // verus!

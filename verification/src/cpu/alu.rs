//! What the arithmetic and logic unit computes, on plain bytes.

use crate::cpu::wrap8;
use vstd::prelude::*;

verus! {

/// A byte read as a signed number, -128 to 127.
pub open spec fn signed(v: u8) -> int {
    if v >= 0x80 {
        v - 0x100
    } else {
        v as int
    }
}

/// A result of the unit: the byte, and the flags that the operation sets
/// beside Zero and Negative (which always describe the byte).
pub struct AluResult {
    pub value: u8,
    pub carry: bool,
    pub overflow: bool,
}

/// Add with carry: `a + operand + carry`.
///
/// The byte is the sum modulo 256. Carry says that the unsigned sum does not
/// fit a byte, Overflow that the sum of the operands read as signed numbers
/// does not fit a signed byte.
pub open spec fn adc(a: u8, operand: u8, carry: bool) -> AluResult {
    let c: int = if carry {
        1
    } else {
        0
    };
    let sum = a + operand + c;
    let signed_sum = signed(a) + signed(operand) + c;
    AluResult {
        value: (sum % 0x100) as u8,
        carry: sum > 0xff,
        overflow: signed_sum < -128 || signed_sum > 127,
    }
}

/// Subtract with borrow: `a - operand - (1 - carry)`; a clear Carry going in
/// is a borrow.
///
/// The byte is the difference modulo 256. Carry says that no borrow was
/// needed, Overflow that the difference of the operands read as signed
/// numbers does not fit a signed byte.
pub open spec fn sbc(a: u8, operand: u8, carry: bool) -> AluResult {
    let borrow: int = if carry {
        0
    } else {
        1
    };
    let difference = a - operand - borrow;
    let signed_difference = signed(a) - signed(operand) - borrow;
    AluResult {
        value: (difference % 0x100) as u8,
        carry: difference >= 0,
        overflow: signed_difference < -128 || signed_difference > 127,
    }
}

/// The three flags of a comparison of `register` with `operand`:
/// Carry (`register >= operand`), Zero (they are equal) and Negative (the
/// top bit of their difference, taken modulo 256).
pub open spec fn compare_flags(register: u8, operand: u8) -> (bool, bool, bool) {
    (register >= operand, register == operand, wrap8(register - operand) >= 0x80)
}

/// Shift left: the top bit leaves into Carry, 0 comes in at the bottom.
pub open spec fn asl(v: u8) -> (u8, bool) {
    (((v * 2) % 0x100) as u8, v >= 0x80)
}

/// Shift right: the bottom bit leaves into Carry, 0 comes in at the top.
pub open spec fn lsr(v: u8) -> (u8, bool) {
    (v / 2, v % 2 == 1)
}

/// Rotate left: the top bit leaves into Carry, the old Carry comes in at
/// the bottom.
pub open spec fn rol(v: u8, carry: bool) -> (u8, bool) {
    (((v * 2) % 0x100 + if carry {
        1int
    } else {
        0
    }) as u8, v >= 0x80)
}

/// Rotate right: the bottom bit leaves into Carry, the old Carry comes in
/// at the top.
pub open spec fn ror(v: u8, carry: bool) -> (u8, bool) {
    ((v / 2 + if carry {
        0x80int
    } else {
        0
    }) as u8, v % 2 == 1)
}

/// The one's complement of a byte is what is missing to 255.
pub proof fn lemma_complement(v: u8)
    by (bit_vector)
    ensures
        (!v) as int == 255 - v as int,
{
}

/// The test that the hardware makes for signed overflow of an addition,
/// on the sign bits of the operands and of the result, finds exactly the
/// sums that do not fit a signed byte.
pub proof fn lemma_adc_overflow(a: u8, operand: u8, carry: bool)
    ensures
        (((adc(a, operand, carry).value ^ a) & (adc(a, operand, carry).value ^ operand) & 0x80)
            != 0) == adc(a, operand, carry).overflow,
{
    let c: u8 = if carry {
        1
    } else {
        0
    };
    let r = adc(a, operand, carry).value;
    assert(r as int == (a + operand + c) % 0x100);
    let sa: bool = a >= 0x80;
    let so: bool = operand >= 0x80;
    let sr: bool = r >= 0x80;
    assert((((r ^ a) & (r ^ operand) & 0x80u8) != 0u8) <==> (((r >= 0x80u8) <==> !(a >= 0x80u8))
        && ((r >= 0x80u8) <==> !(operand >= 0x80u8)))) by (bit_vector);
}

/// Subtracting is adding the one's complement: `sbc` and `adc` of the
/// complemented operand agree on the byte and on both flags, whatever the
/// operands and the carry.
pub proof fn lemma_sbc_is_adc_of_complement(a: u8, operand: u8, carry: bool)
    ensures
        sbc(a, operand, carry) == adc(a, !operand, carry),
{
    lemma_complement(operand);
}

/// Right shifts and bit tests as arithmetic.
pub proof fn lemma_shift_right(v: u8)
    by (bit_vector)
    ensures
        (v >> 1u8) == v / 2u8,
        ((v >> 7u8) == 1u8) <==> (v >= 0x80u8),
        (v & 1u8) == v % 2u8,
        (((v >> 6u8) & 1u8) == 1u8) <==> ((v & 0x40u8) == 0x40u8),
        ((v & 0x80u8) == 0x80u8) <==> (v >= 0x80u8),
{
}

/// A left shift doubles modulo 256.
pub proof fn lemma_shift_left(v: u8)
    by (bit_vector)
    ensures
        (v << 1u8) as int == (v as int * 2) % 0x100,
{
}

/// A rotation to the left is a left shift with the carry added.
pub proof fn lemma_rotate_left(v: u8, c: u8)
    by (bit_vector)
    requires
        c <= 1u8,
    ensures
        ((v << 1u8) | c) as int == (v as int * 2) % 0x100 + c as int,
{
}

/// A rotation to the right is a right shift with the carry on top.
pub proof fn lemma_rotate_right(v: u8, c: u8)
    by (bit_vector)
    requires
        c <= 1u8,
    ensures
        ((v >> 1u8) | (c << 7u8)) as int == (v / 2u8) as int + c as int * 0x80,
{
}

} // verus!

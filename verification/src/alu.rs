//! Byte arithmetic of the processor: addition and subtraction with carry,
//! comparison, increments and the four shifts. The meaning of each is a
//! statement about integers; the code works on bits.

use vstd::prelude::*;
use crate::flags::{bit7, lemma_bit7};

verus! {

/// What an arithmetic operation hands to the flags besides its value.
#[derive(Clone, Copy, Debug, PartialEq, Eq, Structural)]
pub struct Alu {
    pub value: u8,
    pub carry: bool,
    pub overflow: bool,
}

/// The byte that is left of an integer when it wraps at eight bits.
#[verifier::opaque]
pub open spec fn low_byte(n: int) -> u8 {
    (n % 256) as u8
}

/// The number that a byte stands for in two's complement.
#[verifier::opaque]
pub open spec fn signed(v: u8) -> int {
    if v < 128 {
        v as int
    } else {
        v as int - 256
    }
}

/// `a + m + carry`. Carry out says that the sum does not fit in a byte.
/// Overflow follows the two's-complement rule: both operands have the same
/// sign and the result has the other one.
pub open spec fn sum_of(a: u8, m: u8, carry: bool) -> Alu {
    let sum = a as int + m as int + if carry { 1int } else { 0int };
    Alu {
        value: low_byte(sum),
        carry: sum > 255,
        overflow: bit7(a) == bit7(m) && bit7(a) != bit7(low_byte(sum)),
    }
}

/// `a - m - (1 - carry)`: a clear carry borrows one. Carry out says that no
/// borrow was needed. Overflow: the operands have different signs and the
/// result has not the sign of `a`.
pub open spec fn difference_of(a: u8, m: u8, carry: bool) -> Alu {
    let diff = a as int - m as int - if carry { 0int } else { 1int };
    Alu {
        value: low_byte(diff),
        carry: diff >= 0,
        overflow: bit7(a) != bit7(m) && bit7(a) != bit7(low_byte(diff)),
    }
}

/// `r - m` for a comparison: carry says that `r >= m`; overflow is never
/// reported.
pub open spec fn comparison_of(r: u8, m: u8) -> Alu {
    Alu { value: low_byte(r as int - m as int), carry: r >= m, overflow: false }
}

/// The byte after `v`, wrapping from 255 to 0.
pub open spec fn incremented(v: u8) -> u8 {
    low_byte(v as int + 1)
}

/// The byte before `v`, wrapping from 0 to 255.
pub open spec fn decremented(v: u8) -> u8 {
    low_byte(v as int - 1)
}

/// Shift left: the value doubles, bit 7 leaves into carry.
pub open spec fn shifted_left(v: u8) -> Alu {
    Alu { value: low_byte(2 * v as int), carry: v >= 128, overflow: false }
}

/// Shift right: the value halves, bit 0 leaves into carry.
pub open spec fn shifted_right(v: u8) -> Alu {
    Alu { value: low_byte(v as int / 2), carry: v as int % 2 == 1, overflow: false }
}

/// Rotate left: as a shift left, with the old carry entering at bit 0.
pub open spec fn rotated_left(v: u8, carry: bool) -> Alu {
    Alu {
        value: low_byte(2 * v as int + if carry { 1int } else { 0int }),
        carry: v >= 128,
        overflow: false,
    }
}

/// Rotate right: as a shift right, with the old carry entering at bit 7.
pub open spec fn rotated_right(v: u8, carry: bool) -> Alu {
    Alu {
        value: low_byte(v as int / 2 + if carry { 128int } else { 0int }),
        carry: v as int % 2 == 1,
        overflow: false,
    }
}

/// The difference of a comparison is zero exactly when the two bytes are
/// equal.
pub proof fn lemma_comparison_zero(r: u8, m: u8)
    ensures
        (comparison_of(r, m).value == 0) == (r == m),
{
    reveal(low_byte);
}

/// The byte after the byte before `v` is `v`, and the other way round.
pub proof fn lemma_increment_decrement(v: u8)
    ensures
        incremented(decremented(v)) == v,
        decremented(incremented(v)) == v,
{
    reveal(low_byte);
}

/// What the flags of an addition mean. Value and carry together are the
/// sum of the operands read as unsigned numbers. Overflow says that the sum
/// of the operands read as signed numbers does not fit in a byte; where it
/// fits, the value read as a signed number is that sum.
pub proof fn lemma_sum_meaning(a: u8, m: u8, carry: bool)
    ensures
        ({
            let r = sum_of(a, m, carry);
            let c = if carry { 1int } else { 0int };
            &&& r.value + if r.carry { 256int } else { 0int } == a + m + c
            &&& r.overflow == !(-128 <= signed(a) + signed(m) + c <= 127)
            &&& !r.overflow ==> signed(r.value) == signed(a) + signed(m) + c
        }),
{
    reveal(low_byte);
    reveal(signed);
    let r = sum_of(a, m, carry);
    lemma_bit7(a);
    lemma_bit7(m);
    lemma_bit7(r.value);
}

/// What the flags of a subtraction mean. Value and carry together are the
/// difference of the operands read as unsigned numbers, less one where a
/// borrow came in. Overflow says that the difference of the operands read
/// as signed numbers does not fit in a byte.
pub proof fn lemma_difference_meaning(a: u8, m: u8, carry: bool)
    ensures
        ({
            let r = difference_of(a, m, carry);
            let b = if carry { 0int } else { 1int };
            &&& r.value - if r.carry { 0int } else { 256int } == a - m - b
            &&& r.overflow == !(-128 <= signed(a) - signed(m) - b <= 127)
            &&& !r.overflow ==> signed(r.value) == signed(a) - signed(m) - b
        }),
{
    reveal(low_byte);
    reveal(signed);
    let r = difference_of(a, m, carry);
    lemma_bit7(a);
    lemma_bit7(m);
    lemma_bit7(r.value);
}

/// The byte before `v` is another byte than `v`.
pub proof fn lemma_decrement_differs(v: u8)
    ensures
        decremented(v) != v,
        incremented(v) != v,
{
    reveal(low_byte);
}

proof fn lemma_sum_bits(total: u16, a: u8, m: u8, value: u8)
    by (bit_vector)
    ensures
        total & 0x00FF == total % 256,
        ((a ^ value) & (m ^ value) & 0x80u8 != 0u8) == (((a & 0x80u8 != 0u8) == (m & 0x80u8
            != 0u8)) && ((a & 0x80u8 != 0u8) != (value & 0x80u8 != 0u8))),
        ((!m) & 0x80u8 != 0u8) == !(m & 0x80u8 != 0u8),
        !m == 255u8 - m,
{
}

proof fn lemma_left_bits(v: u8)
    by (bit_vector)
    ensures
        v << 1u8 == (2 * v) % 256,
        (v << 1u8) | 1u8 == (2 * v) % 256 + 1,
{
}

proof fn lemma_right_bits(v: u8)
    by (bit_vector)
    ensures
        v >> 1u8 == v / 2u8,
        (v >> 1u8) | 0x80u8 == v / 2u8 + 128,
{
}

proof fn lemma_end_bits(v: u8)
    by (bit_vector)
    ensures
        (v & 0x80u8 != 0u8) == (v >= 128u8),
        (v & 0x01u8 != 0u8) == (v % 2u8 == 1u8),
{
}

/// Adds two bytes and a carry.
pub fn add_with_carry(a: u8, m: u8, carry: bool) -> (r: Alu)
    ensures
        r == sum_of(a, m, carry),
{
    let c: u16 = if carry { 1 } else { 0 };
    let total: u16 = a as u16 + m as u16 + c;
    let value: u8 = (total & 0x00FF) as u8;
    proof {
        reveal(low_byte);
        lemma_sum_bits(total, a, m, value);
    }
    Alu { value, carry: total > 0x00FF, overflow: ((a ^ value) & (m ^ value) & 0x80) != 0 }
}

/// Subtracts a byte and a borrow from a byte: the sum with the one's
/// complement of the subtrahend.
pub fn subtract_with_borrow(a: u8, m: u8, carry: bool) -> (r: Alu)
    ensures
        r == difference_of(a, m, carry),
{
    let r = add_with_carry(a, !m, carry);
    proof {
        reveal(low_byte);
        lemma_sum_bits(0, a, m, r.value);
    }
    r
}

/// Compares a register with a byte.
pub fn compare(r: u8, m: u8) -> (c: Alu)
    ensures
        c == comparison_of(r, m),
{
    proof {
        reveal(low_byte);
    }
    Alu { value: r.wrapping_sub(m), carry: r >= m, overflow: false }
}

pub fn increment(v: u8) -> (r: u8)
    ensures
        r == incremented(v),
{
    proof {
        reveal(low_byte);
    }
    v.wrapping_add(1)
}

pub fn decrement(v: u8) -> (r: u8)
    ensures
        r == decremented(v),
{
    proof {
        reveal(low_byte);
    }
    v.wrapping_sub(1)
}

pub fn shift_left(v: u8) -> (r: Alu)
    ensures
        r == shifted_left(v),
{
    proof {
        reveal(low_byte);
        lemma_left_bits(v);
        lemma_right_bits(v);
        lemma_end_bits(v);
    }
    Alu { value: v << 1, carry: (v & 0x80) != 0, overflow: false }
}

pub fn shift_right(v: u8) -> (r: Alu)
    ensures
        r == shifted_right(v),
{
    proof {
        reveal(low_byte);
        lemma_left_bits(v);
        lemma_right_bits(v);
        lemma_end_bits(v);
    }
    Alu { value: v >> 1, carry: (v & 0x01) != 0, overflow: false }
}

pub fn rotate_left(v: u8, carry: bool) -> (r: Alu)
    ensures
        r == rotated_left(v, carry),
{
    proof {
        reveal(low_byte);
        lemma_left_bits(v);
        lemma_right_bits(v);
        lemma_end_bits(v);
    }
    let value = if carry { (v << 1) | 0x01 } else { v << 1 };
    Alu { value, carry: (v & 0x80) != 0, overflow: false }
}

pub fn rotate_right(v: u8, carry: bool) -> (r: Alu)
    ensures
        r == rotated_right(v, carry),
{
    proof {
        reveal(low_byte);
        lemma_left_bits(v);
        lemma_right_bits(v);
        lemma_end_bits(v);
    }
    let value = if carry { (v >> 1) | 0x80 } else { v >> 1 };
    Alu { value, carry: (v & 0x01) != 0, overflow: false }
}

} // verus!

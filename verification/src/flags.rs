//! The status register: eight independent one-bit flags in one byte.

use vstd::prelude::*;

verus! {

/// The flags of the status register, from bit 0 up to bit 7.
#[derive(Clone, Copy, Debug, PartialEq, Eq, Structural)]
pub enum CpuFlag {
    /// Carry
    C,
    /// Zero
    Z,
    /// Interrupt disable
    I,
    /// Decimal
    D,
    /// Break
    B,
    /// Unused
    U,
    /// Overflow
    V,
    /// Negative
    N,
}

impl CpuFlag {
    /// The bit of the status register that holds the flag.
    pub open spec fn bit(self) -> u8 {
        match self {
            CpuFlag::C => 0x01,
            CpuFlag::Z => 0x02,
            CpuFlag::I => 0x04,
            CpuFlag::D => 0x08,
            CpuFlag::B => 0x10,
            CpuFlag::U => 0x20,
            CpuFlag::V => 0x40,
            CpuFlag::N => 0x80,
        }
    }

    #[verifier::when_used_as_spec(bit)]
    pub fn mask(self) -> (m: u8)
        ensures
            m == self.bit(),
    {
        match self {
            CpuFlag::C => 0x01,
            CpuFlag::Z => 0x02,
            CpuFlag::I => 0x04,
            CpuFlag::D => 0x08,
            CpuFlag::B => 0x10,
            CpuFlag::U => 0x20,
            CpuFlag::V => 0x40,
            CpuFlag::N => 0x80,
        }
    }
}

/// Whether `flag` is set in the status byte `p`.
pub open spec fn has_flag(p: u8, flag: CpuFlag) -> bool {
    p & flag.bit() != 0
}

/// The status byte `p` with `flag` set to `value`.
pub open spec fn with_flag(p: u8, flag: CpuFlag, value: bool) -> u8 {
    if value {
        p | flag.bit()
    } else {
        p & !flag.bit()
    }
}

/// Whether bit 7 of a byte is set.
pub open spec fn bit7(value: u8) -> bool {
    value & 0x80 != 0
}

/// The status byte `p` with Negative and Zero derived from `result`:
/// Negative is bit 7 of the result, Zero says that the result is zero.
pub open spec fn with_nz(p: u8, result: u8) -> u8 {
    with_flag(with_flag(p, CpuFlag::N, bit7(result)), CpuFlag::Z, result == 0)
}

/// The carry flag as the number it adds in arithmetic: 0 or 1.
pub open spec fn carry_in(p: u8) -> int {
    if has_flag(p, CpuFlag::C) {
        1
    } else {
        0
    }
}

proof fn lemma_single_bit(p: u8, m: u8, n: u8)
    by (bit_vector)
    requires
        m == 0x01 || m == 0x02 || m == 0x04 || m == 0x08 || m == 0x10 || m == 0x20 || m == 0x40
            || m == 0x80,
        n == 0x01 || n == 0x02 || n == 0x04 || n == 0x08 || n == 0x10 || n == 0x20 || n == 0x40
            || n == 0x80,
    ensures
        (p | m) & m != 0,
        (p & !m) & m == 0,
        m != n ==> (p | m) & n == p & n,
        m != n ==> (p & !m) & n == p & n,
{
}

/// Setting or clearing one flag gives that flag the new value and leaves
/// each of the other seven as it was.
pub proof fn lemma_flags_independent(p: u8, flag: CpuFlag, value: bool, other: CpuFlag)
    ensures
        has_flag(with_flag(p, flag, value), other) == if other == flag {
            value
        } else {
            has_flag(p, other)
        },
{
    lemma_single_bit(p, flag.bit(), other.bit());
}

/// Bit 7 of a byte is set exactly when the byte is 128 or more.
pub proof fn lemma_bit7(value: u8)
    by (bit_vector)
    ensures
        (value & 0x80 != 0) == (value >= 128),
{
}

/// After Negative and Zero have been derived from a result, Negative is
/// bit 7 of the result, Zero says whether the result is zero, and the six
/// other flags are untouched.
pub proof fn lemma_with_nz(p: u8, result: u8, other: CpuFlag)
    ensures
        has_flag(with_nz(p, result), CpuFlag::N) == bit7(result),
        has_flag(with_nz(p, result), CpuFlag::N) == (result >= 128),
        has_flag(with_nz(p, result), CpuFlag::Z) == (result == 0),
        other != CpuFlag::N && other != CpuFlag::Z ==> has_flag(with_nz(p, result), other)
            == has_flag(p, other),
{
    let q = with_flag(p, CpuFlag::N, bit7(result));
    lemma_flags_independent(p, CpuFlag::N, bit7(result), CpuFlag::N);
    lemma_flags_independent(p, CpuFlag::N, bit7(result), other);
    lemma_flags_independent(q, CpuFlag::Z, result == 0, CpuFlag::N);
    lemma_flags_independent(q, CpuFlag::Z, result == 0, CpuFlag::Z);
    lemma_flags_independent(q, CpuFlag::Z, result == 0, other);
    lemma_bit7(result);
}

} // verus!

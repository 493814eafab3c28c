//! Single-precision values held as their IEEE 754 bit patterns.
//!
//! For every value that is not a NaN, the order of the real numbers it denotes
//! is the order of its sign-magnitude reading: the magnitude bits count up with
//! the value, and the sign bit mirrors them around zero (both zeros sit at
//! rank zero). A NaN compares false with everything.

use vstd::prelude::*;

verus! {

/// The sign bit of a binary32 pattern.
pub const SIGN_BIT: u32 = 0x8000_0000;

/// The pattern of positive infinity, the largest magnitude that is not a NaN.
pub const INFINITY_BITS: u32 = 0x7F80_0000;

/// The pattern of zero.
pub const ZERO_BITS: u32 = 0;

/// The pattern of one.
pub const ONE_BITS: u32 = 0x3F80_0000;

/// Zero, as a value.
pub open spec fn zero_value() -> Binary32 {
    Binary32 { bits: ZERO_BITS }
}

/// One, as a value.
pub open spec fn one_value() -> Binary32 {
    Binary32 { bits: ONE_BITS }
}

/// A single-precision value, held as its bit pattern.
#[derive(Clone, Copy, Debug)]
pub struct Binary32 {
    pub bits: u32,
}

impl Binary32 {
    /// Whether the sign bit is set.
    pub open spec fn sign_set(self) -> bool {
        self.bits >= SIGN_BIT
    }

    /// The pattern with the sign bit cleared.
    pub open spec fn magnitude(self) -> int {
        if self.sign_set() {
            self.bits - SIGN_BIT
        } else {
            self.bits as int
        }
    }

    pub open spec fn is_nan(self) -> bool {
        self.magnitude() > INFINITY_BITS
    }

    /// Where the value stands on the extended real line, up to a monotone
    /// relabelling: for two values that are not NaN, `a < b` holds exactly
    /// when `a.rank() < b.rank()`.
    pub open spec fn rank(self) -> int {
        if self.sign_set() {
            -self.magnitude()
        } else {
            self.magnitude()
        }
    }

    /// What `<` answers on the two values.
    pub open spec fn spec_less(self, other: Binary32) -> bool {
        !self.is_nan() && !other.is_nan() && self.rank() < other.rank()
    }

    /// What `<=` answers on the two values.
    pub open spec fn spec_less_eq(self, other: Binary32) -> bool {
        !self.is_nan() && !other.is_nan() && self.rank() <= other.rank()
    }

    /// The value with its sign bit flipped, which is what negation yields.
    pub open spec fn negated(self) -> Binary32 {
        Binary32 {
            bits: if self.sign_set() {
                (self.bits - SIGN_BIT) as u32
            } else {
                (self.bits + SIGN_BIT) as u32
            },
        }
    }

    pub fn from_bits(bits: u32) -> (r: Binary32)
        ensures
            r.bits == bits,
    {
        Binary32 { bits }
    }

    pub fn zero() -> (r: Binary32)
        ensures
            r.bits == ZERO_BITS,
            r.rank() == 0,
            !r.is_nan(),
    {
        Binary32 { bits: ZERO_BITS }
    }

    pub fn one() -> (r: Binary32)
        ensures
            r.bits == ONE_BITS,
            r.rank() == ONE_BITS,
            !r.is_nan(),
    {
        Binary32 { bits: ONE_BITS }
    }

    fn magnitude_bits(&self) -> (r: u32)
        ensures
            r == self.magnitude(),
    {
        if self.bits >= SIGN_BIT {
            self.bits - SIGN_BIT
        } else {
            self.bits
        }
    }

    fn rank_value(&self) -> (r: i64)
        ensures
            r == self.rank(),
    {
        let m = self.magnitude_bits();
        if self.bits >= SIGN_BIT {
            -(m as i64)
        } else {
            m as i64
        }
    }

    pub fn is_nan_value(&self) -> (r: bool)
        ensures
            r == self.is_nan(),
    {
        self.magnitude_bits() > INFINITY_BITS
    }

    /// `self < other`, as IEEE 754 compares.
    pub fn less(&self, other: &Binary32) -> (r: bool)
        ensures
            r == self.spec_less(*other),
    {
        !self.is_nan_value() && !other.is_nan_value() && self.rank_value() < other.rank_value()
    }

    /// `self <= other`, as IEEE 754 compares.
    pub fn less_eq(&self, other: &Binary32) -> (r: bool)
        ensures
            r == self.spec_less_eq(*other),
    {
        !self.is_nan_value() && !other.is_nan_value() && self.rank_value() <= other.rank_value()
    }
}

/// Negation keeps a NaN a NaN and mirrors every other value around zero.
pub proof fn lemma_negated_rank(x: Binary32)
    ensures
        x.negated().is_nan() == x.is_nan(),
        x.negated().rank() == -x.rank(),
        x.negated().negated() == x,
{
}

} // verus!

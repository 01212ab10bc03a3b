//! Binary64 values as bit patterns.
//!
//! The library never does arithmetic on the numbers that a renderer works
//! with; it stores them, hands them on, and compares them. A number is
//! therefore held as the 64-bit pattern of an IEEE 754 binary64 value, and the
//! comparisons are defined, and proved, on that pattern.
use vstd::prelude::*;

verus! {

/// The bit that holds the sign of a binary64 value.
pub const SIGN_BIT: u64 = 0x8000_0000_0000_0000;

/// The pattern of positive infinity: every exponent bit set, no fraction bit.
pub const INFINITY_BITS: u64 = 0x7ff0_0000_0000_0000;

/// The pattern of the value one.
pub const ONE_BITS: u64 = 0x3ff0_0000_0000_0000;

/// A binary64 value, held as its bit pattern.
///
/// `==` on scalars is identity of patterns: it tells the two zeros apart and
/// finds a NaN equal to itself. The numeric comparisons are `lt` and `gt`.
#[derive(Clone, Copy, Debug, PartialEq, Eq, Structural)]
pub struct Scalar {
    pub bits: u64,
}

impl Scalar {
    /// Whether the sign bit is set.
    pub open spec fn negative(self) -> bool {
        self.bits >= SIGN_BIT
    }

    /// The pattern without its sign bit: exponent and fraction read as one
    /// unsigned number. Among values that are not NaN a larger magnitude is a
    /// larger absolute value.
    pub open spec fn magnitude(self) -> int {
        if self.negative() {
            self.bits - SIGN_BIT
        } else {
            self.bits as int
        }
    }

    /// Whether the pattern is a NaN: every exponent bit set and some fraction
    /// bit set.
    pub open spec fn nan(self) -> bool {
        self.magnitude() > INFINITY_BITS
    }

    /// The place of a value that is not NaN on the number line: the magnitude,
    /// counted downwards from zero where the sign bit is set. Both zeros have
    /// rank 0.
    pub open spec fn rank(self) -> int {
        if self.negative() {
            -self.magnitude()
        } else {
            self.magnitude()
        }
    }

    /// Numeric "less than": false as soon as either side is NaN.
    pub open spec fn less(self, other: Scalar) -> bool {
        !self.nan() && !other.nan() && self.rank() < other.rank()
    }

    /// The scalar with the given pattern.
    pub fn from_bits(bits: u64) -> (r: Scalar)
        ensures
            r.bits == bits,
    {
        Scalar { bits }
    }

    /// Positive zero.
    pub fn zero() -> (r: Scalar)
        ensures
            r.bits == 0,
            r.rank() == 0,
            !r.nan(),
    {
        Scalar { bits: 0 }
    }

    /// The value one.
    pub fn one() -> (r: Scalar)
        ensures
            r.bits == ONE_BITS,
            !r.nan(),
            !r.negative(),
    {
        Scalar { bits: ONE_BITS }
    }

    /// Whether the value is a NaN.
    pub fn is_nan(self) -> (r: bool)
        ensures
            r == self.nan(),
    {
        let magnitude: u64 = if self.bits >= SIGN_BIT {
            self.bits - SIGN_BIT
        } else {
            self.bits
        };
        magnitude > INFINITY_BITS
    }

    /// Numeric `self < other`.
    pub fn lt(self, other: Scalar) -> (r: bool)
        ensures
            r == self.less(other),
    {
        if self.is_nan() || other.is_nan() {
            return false;
        }
        let left_negative: bool = self.bits >= SIGN_BIT;
        let right_negative: bool = other.bits >= SIGN_BIT;
        if left_negative {
            let left: u64 = self.bits - SIGN_BIT;
            if right_negative {
                let right: u64 = other.bits - SIGN_BIT;
                left > right
            } else {
                left > 0 || other.bits > 0
            }
        } else {
            if right_negative {
                false
            } else {
                self.bits < other.bits
            }
        }
    }

    /// Numeric `self > other`.
    pub fn gt(self, other: Scalar) -> (r: bool)
        ensures
            r == other.less(self),
    {
        other.lt(self)
    }
}

/// What `clamp` returns: the lower bound where `x` is below it, else the upper
/// bound where `x` is above it, else `x` itself (so a NaN passes through).
pub open spec fn clamped(x: Scalar, min: Scalar, max: Scalar) -> Scalar {
    if x.less(min) {
        min
    } else if max.less(x) {
        max
    } else {
        x
    }
}

/// Brings `x` into the interval from `min` to `max`.
pub fn clamp(x: Scalar, min: Scalar, max: Scalar) -> (r: Scalar)
    ensures
        r == clamped(x, min, max),
        !max.less(min) ==> !r.less(min) && !max.less(r),
{
    if x.lt(min) {
        min
    } else if x.gt(max) {
        max
    } else {
        x
    }
}

/// `less` is a strict order: nothing is below itself, and it is transitive.
pub proof fn less_is_strict_order(a: Scalar, b: Scalar, c: Scalar)
    ensures
        !a.less(a),
        a.less(b) ==> !b.less(a),
        a.less(b) && b.less(c) ==> a.less(c),
{
}

/// Among values that are not NaN, of two that are not below one another the
/// ranks are equal: they are the same number, or the two zeros.
pub proof fn less_is_total_on_numbers(a: Scalar, b: Scalar)
    requires
        !a.nan(),
        !b.nan(),
    ensures
        a.less(b) || b.less(a) || a.rank() == b.rank(),
        a.rank() == b.rank() ==> a.bits == b.bits || (a.magnitude() == 0 && b.magnitude() == 0),
{
}

/// Clamping a second time changes nothing.
pub proof fn clamp_is_idempotent(x: Scalar, min: Scalar, max: Scalar)
    requires
        !max.less(min),
    ensures
        clamped(clamped(x, min, max), min, max) == clamped(x, min, max),
{
}

} // verus!

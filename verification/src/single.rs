//! Numbers in the binary32 format of IEEE 754, as the logic reads them: their sign, their order
//! and whether they are finite. The arithmetic on them belongs to the machine.

use vstd::prelude::*;

verus! {

/// Bits of zero
pub const ZERO: u32 = 0x0000_0000;

/// Bits of one
pub const ONE: u32 = 0x3F80_0000;

/// Bits of a number that is none
pub const NOT_A_NUMBER: u32 = 0x7FC0_0000;

/// A binary32 number, by its bits.
#[derive(Clone, Copy, Debug, PartialEq, Eq, Structural)]
pub struct Single {
    pub bits: u32,
}

impl Single {
    /// The bits without the sign.
    pub open spec fn magnitude(self) -> int {
        if self.bits >= 0x8000_0000 {
            self.bits - 0x8000_0000
        } else {
            self.bits as int
        }
    }

    /// The sign bit is set.
    pub open spec fn negative(self) -> bool {
        self.bits >= 0x8000_0000
    }

    /// Not a number.
    pub open spec fn nan(self) -> bool {
        self.magnitude() > 0x7F80_0000
    }

    /// Neither infinite nor not a number.
    pub open spec fn finite(self) -> bool {
        self.magnitude() < 0x7F80_0000
    }

    /// Neither zero, infinite, subnormal nor not a number.
    pub open spec fn normal(self) -> bool {
        0x0080_0000 <= self.magnitude() < 0x7F80_0000
    }

    /// Place in the order of the numbers. Both zeros have the same place.
    pub open spec fn rank(self) -> int {
        if self.bits >= 0x8000_0000 {
            0x8000_0000 - self.bits
        } else {
            self.bits as int
        }
    }

    /// `self < other` of IEEE 754: false where one is not a number.
    pub open spec fn less(self, other: Single) -> bool {
        !self.nan() && !other.nan() && self.rank() < other.rank()
    }

    /// `self <= other` of IEEE 754: false where one is not a number.
    pub open spec fn less_or_equal(self, other: Single) -> bool {
        !self.nan() && !other.nan() && self.rank() <= other.rank()
    }

    /// `self == other` of IEEE 754: false where one is not a number, true of both zeros.
    pub open spec fn same_value(self, other: Single) -> bool {
        !self.nan() && !other.nan() && self.rank() == other.rank()
    }

    /// The number without its sign.
    pub open spec fn absolute(self) -> Single {
        Single { bits: self.magnitude() as u32 }
    }

    /// The number with the other sign.
    pub open spec fn negated(self) -> Single {
        Single {
            bits: if self.bits >= 0x8000_0000 {
                (self.bits - 0x8000_0000) as u32
            } else {
                (self.bits + 0x8000_0000) as u32
            },
        }
    }

    /// Zero times the number: zero, but for what is infinite or not a number, of which the product
    /// is not a number either.
    pub open spec fn times_zero(self) -> Single {
        if self.nan() {
            self
        } else if !self.finite() {
            Single { bits: NOT_A_NUMBER }
        } else if self.negative() {
            Single { bits: ZERO }.negated()
        } else {
            Single { bits: ZERO }
        }
    }

    /// The number, or the bound that it lies beyond.
    pub open spec fn clamped(self, low: Single, high: Single) -> Single {
        if self.less(low) {
            low
        } else if high.less(self) {
            high
        } else {
            self
        }
    }

    /// The lesser of two numbers. What is not a number is ignored.
    pub open spec fn lesser(self, other: Single) -> Single {
        if self.nan() || other.less(self) {
            other
        } else {
            self
        }
    }

    /// The greater of two numbers. What is not a number is ignored.
    pub open spec fn greater(self, other: Single) -> Single {
        if self.nan() || self.less(other) {
            other
        } else {
            self
        }
    }

    pub fn from_bits(bits: u32) -> (number: Single)
        ensures
            number == (Single { bits }),
    {
        Single { bits }
    }

    pub fn zero() -> (number: Single)
        ensures
            number == (Single { bits: ZERO }),
    {
        Single { bits: ZERO }
    }

    pub fn is_nan(self) -> (nan: bool)
        ensures
            nan == self.nan(),
    {
        self.abs().bits > 0x7F80_0000
    }

    pub fn is_sign_negative(self) -> (negative: bool)
        ensures
            negative == self.negative(),
    {
        self.bits >= 0x8000_0000
    }

    pub fn is_finite(self) -> (finite: bool)
        ensures
            finite == self.finite(),
    {
        self.abs().bits < 0x7F80_0000
    }

    pub fn is_normal(self) -> (normal: bool)
        ensures
            normal == self.normal(),
    {
        let magnitude: u32 = self.abs().bits;
        0x0080_0000 <= magnitude && magnitude < 0x7F80_0000
    }

    pub fn min(self, other: Single) -> (number: Single)
        ensures
            number == self.lesser(other),
    {
        if self.is_nan() || other.lt(self) {
            other
        } else {
            self
        }
    }

    pub fn max(self, other: Single) -> (number: Single)
        ensures
            number == self.greater(other),
    {
        if self.is_nan() || self.lt(other) {
            other
        } else {
            self
        }
    }

    pub fn abs(self) -> (number: Single)
        ensures
            number == self.absolute(),
    {
        if self.bits >= 0x8000_0000 {
            Single { bits: self.bits - 0x8000_0000 }
        } else {
            self
        }
    }

    pub fn neg(self) -> (number: Single)
        ensures
            number == self.negated(),
    {
        if self.bits >= 0x8000_0000 {
            Single { bits: self.bits - 0x8000_0000 }
        } else {
            Single { bits: self.bits + 0x8000_0000 }
        }
    }

    /// Zero times the number.
    pub fn annulled(self) -> (number: Single)
        ensures
            number == self.times_zero(),
    {
        if self.is_nan() {
            self
        } else if !self.is_finite() {
            Single { bits: NOT_A_NUMBER }
        } else if self.is_sign_negative() {
            Single { bits: ZERO }.neg()
        } else {
            Single { bits: ZERO }
        }
    }

    pub fn lt(self, other: Single) -> (less: bool)
        ensures
            less == self.less(other),
    {
        if self.is_nan() || other.is_nan() {
            false
        } else if self.bits >= 0x8000_0000 {
            if other.bits >= 0x8000_0000 {
                self.bits > other.bits
            } else {
                self.bits > 0x8000_0000 || other.bits > 0
            }
        } else {
            other.bits < 0x8000_0000 && self.bits < other.bits
        }
    }

    pub fn le(self, other: Single) -> (less_or_equal: bool)
        ensures
            less_or_equal == self.less_or_equal(other),
    {
        !self.is_nan() && !other.is_nan() && !other.lt(self)
    }

    pub fn gt(self, other: Single) -> (greater: bool)
        ensures
            greater == other.less(self),
    {
        other.lt(self)
    }

    pub fn ge(self, other: Single) -> (greater_or_equal: bool)
        ensures
            greater_or_equal == other.less_or_equal(self),
    {
        other.le(self)
    }

    /// Whether the two are the same value, as `==` on numbers has it.
    pub fn equals(self, other: Single) -> (equal: bool)
        ensures
            equal == self.same_value(other),
    {
        self.le(other) && other.le(self)
    }

    /// The number, or the bound that it lies beyond.
    pub fn clamp(self, low: Single, high: Single) -> (number: Single)
        ensures
            number == self.clamped(low, high),
    {
        if self.lt(low) {
            low
        } else if self.gt(high) {
            high
        } else {
            self
        }
    }
}

/// Of two numbers exactly one is less, or they are the same value.
pub proof fn law_order_is_total(a: Single, b: Single)
    requires
        !a.nan(),
        !b.nan(),
    ensures
        a.less(b) || b.less(a) || a.same_value(b),
        !(a.less(b) && b.less(a)),
        !(a.less(b) && a.same_value(b)),
        a.less_or_equal(b) == !b.less(a),
{
}

/// What is not a number is in no order with anything.
pub proof fn law_nan_is_unordered(a: Single, b: Single)
    requires
        a.nan(),
    ensures
        !a.less(b),
        !b.less(a),
        !a.less_or_equal(b),
        !b.less_or_equal(a),
        !a.same_value(a),
{
}

/// A clamped number lies between the bounds.
pub proof fn law_clamped_lies_between_the_bounds(number: Single, low: Single, high: Single)
    requires
        !number.nan(),
        low.less_or_equal(high),
    ensures
        low.less_or_equal(number.clamped(low, high)),
        number.clamped(low, high).less_or_equal(high),
{
}

/// The order of the numbers: of two numbers exactly one is less or they have the same value, the
/// order is transitive and is turned round by the sign, and what is not a number is in no order.
pub proof fn law_numbers_are_ordered(a: Single, b: Single, c: Single)
    ensures
        a.less(b) && b.less(c) ==> a.less(c),
        !a.less(a),
        !a.nan() && !b.nan() ==> a.less(b) || b.less(a) || a.same_value(b),
        a.less(b) ==> !b.less(a) && !a.same_value(b),
        a.less_or_equal(b) <==> a.less(b) || a.same_value(b),
        a.less(b) <==> b.negated().less(a.negated()),
        a.nan() ==> !a.less(b) && !b.less(a) && !a.less_or_equal(b) && !a.same_value(b),
        a.negated().negated() == a,
        a.absolute() == a || a.absolute() == a.negated(),
        !a.absolute().negative(),
        (Single { bits: 0 }).less(Single { bits: 0x3F80_0000 }),
        !a.nan() && a.negative() ==> a.less_or_equal(Single { bits: 0 }),
        !a.nan() && !a.negative() ==> (Single { bits: 0 }).less_or_equal(a),
        !a.negative() && !b.negative() && !b.nan() && a.bits < b.bits ==> a.less(b),
{
}

/// The lesser and the greater of two numbers are the two numbers, in their order.
pub proof fn law_lesser_and_greater(a: Single, b: Single)
    requires
        !a.nan(),
        !b.nan(),
    ensures
        a.lesser(b) == a || a.lesser(b) == b,
        a.greater(b) == a || a.greater(b) == b,
        a.lesser(b).less_or_equal(a) && a.lesser(b).less_or_equal(b),
        a.less_or_equal(a.greater(b)) && b.less_or_equal(a.greater(b)),
        a.finite() ==> a.times_zero().same_value(Single { bits: 0 }),
        !a.finite() ==> a.times_zero().nan(),
{
}

} // verus!

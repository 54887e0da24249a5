//! 32-bit floats as bit patterns.
use vstd::prelude::*;

verus! {

/// A 32-bit float, held by its bit pattern.
///
/// The derived `==` compares bit patterns: it tells `0.0` from `-0.0`, and a NaN equals itself.
/// [`Scalar::lt`] is the numeric order.
#[derive(Clone, Copy, Debug, PartialEq, Eq, Structural)]
pub struct Scalar {
    pub bits: u32,
}

impl Scalar {
    /// The sign bit is set.
    pub open spec fn negative(self) -> bool {
        self.bits >= 0x8000_0000
    }

    /// The pattern without its sign bit.
    pub open spec fn magnitude(self) -> int {
        if self.negative() {
            self.bits - 0x8000_0000
        } else {
            self.bits as int
        }
    }

    /// The pattern is not a number: every exponent bit is set and the fraction is not zero.
    pub open spec fn nan(self) -> bool {
        self.magnitude() > 0x7f80_0000
    }

    /// An integer that orders the numbers as their values do: sign and magnitude, so that the
    /// two zeros share the key 0.
    pub open spec fn key(self) -> int {
        if self.negative() {
            -self.magnitude()
        } else {
            self.magnitude()
        }
    }

    /// The numeric `<`: false as soon as one side is a NaN.
    pub open spec fn below(self, other: Scalar) -> bool {
        !self.nan() && !other.nan() && self.key() < other.key()
    }

    /// `self` lies in the closed interval from `low` to `high`.
    pub open spec fn between(self, low: Scalar, high: Scalar) -> bool {
        !self.nan() && low.key() <= self.key() <= high.key()
    }

    /// `self` pulled into the interval from `low` to `high`; a NaN stays what it is.
    pub open spec fn clamped(self, low: Scalar, high: Scalar) -> Scalar {
        if self.below(low) {
            low
        } else if high.below(self) {
            high
        } else {
            self
        }
    }

    /// The number whose bit pattern is `bits`.
    pub fn from_bits(bits: u32) -> (r: Scalar)
        ensures
            r.bits == bits,
    {
        Scalar { bits }
    }

    /// Whether the pattern is not a number.
    pub fn is_nan(self) -> (r: bool)
        ensures
            r == self.nan(),
    {
        let magnitude: u32 = if self.bits >= 0x8000_0000 {
            self.bits - 0x8000_0000
        } else {
            self.bits
        };
        magnitude > 0x7f80_0000
    }

    /// The numeric `self < other`.
    pub fn lt(self, other: Scalar) -> (r: bool)
        ensures
            r == self.below(other),
    {
        if self.is_nan() || other.is_nan() {
            return false;
        }
        if self.bits >= 0x8000_0000 {
            if other.bits >= 0x8000_0000 {
                other.bits < self.bits
            } else {
                self.bits != 0x8000_0000 || other.bits != 0
            }
        } else {
            other.bits < 0x8000_0000 && self.bits < other.bits
        }
    }

    /// `self` pulled into the interval from `low` to `high`; a NaN stays what it is.
    pub fn clamp(self, low: Scalar, high: Scalar) -> (r: Scalar)
        requires
            !low.nan(),
            !high.nan(),
            low.key() <= high.key(),
        ensures
            r == self.clamped(low, high),
            self.between(low, high) ==> r == self,
            self.below(low) ==> r == low,
            high.below(self) ==> r == high,
            self.nan() ==> r == self,
    {
        if self.lt(low) {
            low
        } else if high.lt(self) {
            high
        } else {
            self
        }
    }

    /// The larger of the two numbers; a NaN gives way to the other side.
    pub fn max(self, other: Scalar) -> (r: Scalar)
        ensures
            r == if self.nan() || self.below(other) { other } else { self },
    {
        if self.is_nan() || self.lt(other) {
            other
        } else {
            self
        }
    }

    /// The smaller of the two numbers; a NaN gives way to the other side.
    pub fn min(self, other: Scalar) -> (r: Scalar)
        ensures
            r == if self.nan() || other.below(self) { other } else { self },
    {
        if self.is_nan() || other.lt(self) {
            other
        } else {
            self
        }
    }
}

/// Of two numbers exactly one of three holds: the first is below the second, the second is
/// below the first, or both stand at the same point.
pub proof fn law_order_is_total(a: Scalar, b: Scalar)
    requires
        !a.nan(),
        !b.nan(),
    ensures
        a.below(b) || b.below(a) || a.key() == b.key(),
        !(a.below(b) && b.below(a)),
        a.key() == b.key() ==> !a.below(b) && !b.below(a),
{
}

/// The numeric order chains.
pub proof fn law_order_is_transitive(a: Scalar, b: Scalar, c: Scalar)
    requires
        a.below(b),
        b.below(c),
    ensures
        a.below(c),
{
}

/// Clamping a number puts it in the interval; clamping anything twice is clamping it once.
pub proof fn law_clamp_bounds(x: Scalar, low: Scalar, high: Scalar)
    requires
        !low.nan(),
        !high.nan(),
        low.key() <= high.key(),
    ensures
        !x.nan() ==> x.clamped(low, high).between(low, high),
        x.between(low, high) ==> x.clamped(low, high) == x,
        x.clamped(low, high).clamped(low, high) == x.clamped(low, high),
{
}

/// Patterns without the sign bit stand for numbers in the order of the patterns, up to infinity;
/// with the sign bit set they stand for the opposite numbers, in the opposite order. The two zeros
/// are level.
pub proof fn law_order_follows_patterns(a: Scalar, b: Scalar, minus_a: Scalar, minus_b: Scalar)
    requires
        a.bits <= 0x7f80_0000,
        b.bits <= 0x7f80_0000,
        minus_a.bits == a.bits + 0x8000_0000,
        minus_b.bits == b.bits + 0x8000_0000,
    ensures
        a.below(b) <==> a.bits < b.bits,
        minus_a.below(minus_b) <==> a.bits > b.bits,
        minus_a.below(b) <==> !(a.bits == 0 && b.bits == 0),
        !a.below(minus_b),
{
}

/// The patterns beyond infinity, of either sign, are no numbers: nothing is below them and they
/// are below nothing. All other patterns are numbers.
pub proof fn law_beyond_infinity_is_unordered(a: Scalar, b: Scalar)
    ensures
        a.nan() <==> (0x7f80_0000 < a.bits < 0x8000_0000 || 0xff80_0000 < a.bits),
        a.nan() ==> !a.below(b) && !b.below(a),
{
}

/// Clamping gives back exactly what was asked where it lies in the interval; what lies beyond an
/// end is replaced by that end, and nothing else is replaced.
pub proof fn law_clamp_replaces_only_beyond(x: Scalar, low: Scalar, high: Scalar)
    requires
        !low.nan(),
        !high.nan(),
        low.key() <= high.key(),
    ensures
        !x.below(low) && !high.below(x) ==> x.clamped(low, high) == x,
        x.below(low) ==> x.clamped(low, high) == low,
        high.below(x) ==> x.clamped(low, high) == high,
{
}

/// The larger of two numbers is one of them, and neither is above it; the smaller is the mirror
/// image. A NaN comes out only next to a NaN.
pub proof fn law_larger_and_smaller(a: Scalar, b: Scalar, high: Scalar, low: Scalar)
    requires
        call_ensures(Scalar::max, (a, b), high),
        call_ensures(Scalar::min, (a, b), low),
    ensures
        high == a || high == b,
        low == a || low == b,
        !high.below(a) && !high.below(b),
        !a.below(low) && !b.below(low),
        high.nan() <==> a.nan() && b.nan(),
        low.nan() <==> a.nan() && b.nan(),
        a.below(b) ==> high == b && low == a,
        b.below(a) ==> high == a && low == b,
{
}

/// What the comparison, the test for NaN and the clamping answer depends on the numbers alone.
pub proof fn law_comparison_and_clamping(x: Scalar, y: Scalar, less: bool, nan: bool, r: Scalar)
    requires
        call_ensures(Scalar::lt, (x, y), less),
        call_ensures(Scalar::is_nan, (x,), nan),
        !x.nan() && !y.nan(),
        x.key() <= y.key(),
    ensures
        !nan,
        less <==> x.key() < y.key(),
        forall|z: Scalar|
            call_ensures(Scalar::clamp, (z, x, y), r) ==> {
                &&& #[trigger] z.between(x, y) ==> r == z
                &&& z.below(x) ==> r == x
                &&& y.below(z) ==> r == y
                &&& z.nan() ==> r == z
            },
{
}

/// A number keeps the pattern that it is made from.
pub proof fn law_pattern_is_kept(bits: u32, r: Scalar)
    requires
        call_ensures(Scalar::from_bits, (bits,), r),
    ensures
        r.bits == bits,
{
}

} // verus!

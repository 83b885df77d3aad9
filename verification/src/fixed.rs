//! Saturating fixed-point scalars.
//!
//! Every quantity of the simulation (positions, velocities, durations,
//! coefficients) is a [`Fixed`]: a signed count of millionths. Arithmetic
//! never wraps and never panics: a result that does not fit is pinned to the
//! nearest representable value, and products are rounded toward zero so that
//! mirrored inputs give mirrored results.
use vstd::prelude::*;

verus! {

/// Number of raw units that make up the value one.
pub const SCALE: i64 = 1_000_000;

/// The integer `x` pinned to the range of raw values.
pub open spec fn saturate(x: int) -> int {
    if x < i64::MIN {
        i64::MIN as int
    } else if x > i64::MAX {
        i64::MAX as int
    } else {
        x
    }
}

/// `x / SCALE`, rounded toward zero.
pub open spec fn rescale(x: int) -> int {
    if x >= 0 {
        x / (SCALE as int)
    } else {
        -((-x) / (SCALE as int))
    }
}

/// Raw value of the saturating sum of two raw values.
pub open spec fn sum_raw(a: int, b: int) -> int {
    saturate(a + b)
}

/// Raw value of the saturating difference of two raw values.
pub open spec fn difference_raw(a: int, b: int) -> int {
    saturate(a - b)
}

/// Raw value of the saturating fixed-point product of two raw values.
pub open spec fn product_raw(a: int, b: int) -> int {
    saturate(rescale(a * b))
}

/// Raw value of the saturating magnitude of a raw value.
pub open spec fn magnitude_raw(a: int) -> int {
    saturate(if a < 0 { -a } else { a })
}

/// A fixed-point number; `raw` counts millionths.
#[derive(Clone, Copy, Debug, PartialEq, Eq, Structural)]
pub struct Fixed {
    pub raw: i64,
}

impl View for Fixed {
    type V = int;

    /// The raw value as a mathematical integer.
    open spec fn view(&self) -> int {
        self.raw as int
    }
}

/// The product of two raw values fits in 128 bits.
proof fn lemma_wide_product(a: int, b: int)
    requires
        i64::MIN <= a <= i64::MAX,
        i64::MIN <= b <= i64::MAX,
    ensures
        -0x4000_0000_0000_0000_0000_0000_0000_0000 <= a * b
            <= 0x4000_0000_0000_0000_0000_0000_0000_0000,
{
    assert(-0x4000_0000_0000_0000_0000_0000_0000_0000 <= a * b
        <= 0x4000_0000_0000_0000_0000_0000_0000_0000) by (nonlinear_arith)
        requires
            -0x8000_0000_0000_0000 <= a <= 0x7fff_ffff_ffff_ffff,
            -0x8000_0000_0000_0000 <= b <= 0x7fff_ffff_ffff_ffff,
    ;
}

impl Fixed {
    /// The fixed-point number whose raw value is `saturate(x)`.
    pub open spec fn of(x: int) -> Fixed {
        Fixed { raw: saturate(x) as i64 }
    }

    pub open spec fn spec_zero() -> Fixed {
        Fixed { raw: 0 }
    }

    pub open spec fn spec_one() -> Fixed {
        Fixed { raw: SCALE }
    }

    pub open spec fn spec_plus(self, rhs: Fixed) -> Fixed {
        Fixed::of(sum_raw(self@, rhs@))
    }

    pub open spec fn spec_minus(self, rhs: Fixed) -> Fixed {
        Fixed::of(difference_raw(self@, rhs@))
    }

    pub open spec fn spec_times(self, rhs: Fixed) -> Fixed {
        Fixed::of(product_raw(self@, rhs@))
    }

    pub open spec fn spec_negate(self) -> Fixed {
        Fixed::of(difference_raw(0, self@))
    }

    pub open spec fn spec_magnitude(self) -> Fixed {
        Fixed::of(magnitude_raw(self@))
    }

    /// One, zero or minus one, as this number is above, at or below zero.
    pub open spec fn spec_signum(self) -> Fixed {
        if self@ > 0 {
            Fixed::of(SCALE as int)
        } else if self@ < 0 {
            Fixed::of(-SCALE)
        } else {
            Fixed::of(0)
        }
    }

    /// The number with the given raw value.
    #[verifier::when_used_as_spec(spec_from_raw)]
    pub fn from_raw(raw: i64) -> (r: Fixed)
        ensures
            r == Fixed::spec_from_raw(raw),
            r@ == raw,
    {
        Fixed { raw }
    }

    pub open spec fn spec_from_raw(raw: i64) -> Fixed {
        Fixed { raw }
    }

    /// The whole number `n`, pinned to the representable range.
    pub fn from_int(n: i64) -> (r: Fixed)
        ensures
            r@ == saturate(n * SCALE),
    {
        proof {
            lemma_wide_product(n as int, SCALE as int);
        }
        let wide: i128 = (n as i128) * (SCALE as i128);
        Fixed { raw: Self::narrow(wide) }
    }

    /// The raw value.
    pub fn raw(self) -> (r: i64)
        ensures
            r == self@,
    {
        self.raw
    }

    #[verifier::when_used_as_spec(spec_zero)]
    pub fn zero() -> (r: Fixed)
        ensures
            r == Fixed::spec_zero(),
            r@ == 0,
    {
        Fixed { raw: 0 }
    }

    #[verifier::when_used_as_spec(spec_one)]
    pub fn one() -> (r: Fixed)
        ensures
            r == Fixed::spec_one(),
            r@ == SCALE,
    {
        Fixed { raw: SCALE }
    }

    /// Pins a wide intermediate result to the raw range.
    fn narrow(wide: i128) -> (r: i64)
        ensures
            r == saturate(wide as int),
    {
        if wide > i64::MAX as i128 {
            i64::MAX
        } else if wide < i64::MIN as i128 {
            i64::MIN
        } else {
            wide as i64
        }
    }

    /// Saturating sum.
    #[verifier::when_used_as_spec(spec_plus)]
    pub fn plus(self, rhs: Fixed) -> (r: Fixed)
        ensures
            r == self.spec_plus(rhs),
            r@ == sum_raw(self@, rhs@),
    {
        Fixed { raw: Self::narrow(self.raw as i128 + rhs.raw as i128) }
    }

    /// Saturating difference.
    #[verifier::when_used_as_spec(spec_minus)]
    pub fn minus(self, rhs: Fixed) -> (r: Fixed)
        ensures
            r == self.spec_minus(rhs),
            r@ == difference_raw(self@, rhs@),
    {
        Fixed { raw: Self::narrow(self.raw as i128 - rhs.raw as i128) }
    }

    /// Saturating product, rounded toward zero.
    #[verifier::when_used_as_spec(spec_times)]
    pub fn times(self, rhs: Fixed) -> (r: Fixed)
        ensures
            r == self.spec_times(rhs),
            r@ == product_raw(self@, rhs@),
    {
        proof {
            lemma_wide_product(self.raw as int, rhs.raw as int);
        }
        let wide: i128 = (self.raw as i128) * (rhs.raw as i128);
        Fixed { raw: Self::narrow(wide / (SCALE as i128)) }
    }

    /// Saturating negation.
    #[verifier::when_used_as_spec(spec_negate)]
    pub fn negate(self) -> (r: Fixed)
        ensures
            r == self.spec_negate(),
            r@ == difference_raw(0, self@),
    {
        Fixed { raw: Self::narrow(0 - self.raw as i128) }
    }

    /// Saturating magnitude.
    #[verifier::when_used_as_spec(spec_magnitude)]
    pub fn magnitude(self) -> (r: Fixed)
        ensures
            r == self.spec_magnitude(),
            r@ == magnitude_raw(self@),
    {
        if self.raw < 0 {
            Fixed { raw: Self::narrow(0 - self.raw as i128) }
        } else {
            self
        }
    }

    /// One, zero or minus one, as this number is above, at or below zero.
    #[verifier::when_used_as_spec(spec_signum)]
    pub fn signum(self) -> (r: Fixed)
        ensures
            r == self.spec_signum(),
    {
        if self.raw > 0 {
            Fixed { raw: SCALE }
        } else if self.raw < 0 {
            Fixed { raw: -SCALE }
        } else {
            Fixed { raw: 0 }
        }
    }

    /// Whether this number is strictly greater than `rhs`.
    pub fn exceeds(self, rhs: Fixed) -> (r: bool)
        ensures
            r == (self@ > rhs@),
    {
        self.raw > rhs.raw
    }

    /// Whether this number is strictly less than `rhs`.
    pub fn below(self, rhs: Fixed) -> (r: bool)
        ensures
            r == (self@ < rhs@),
    {
        self.raw < rhs.raw
    }

    /// Whether this number is strictly positive.
    pub fn is_positive(self) -> (r: bool)
        ensures
            r == (self@ > 0),
    {
        self.raw > 0
    }

    /// Whether this number is strictly negative.
    pub fn is_negative(self) -> (r: bool)
        ensures
            r == (self@ < 0),
    {
        self.raw < 0
    }

    /// Whether this number is exactly zero.
    pub fn is_zero(self) -> (r: bool)
        ensures
            r == (self@ == 0),
    {
        self.raw == 0
    }
}

} // verus!

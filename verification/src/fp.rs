//! The deterministic Q16.16 fixed-point scalar that every collision query
//! computes with.
//!
//! A value is an `i32` holding the quantity scaled by `SCALE` (65536).
//! Multiplication and division rescale through a double-width intermediate and
//! truncate toward zero; every operation saturates at the representable raw
//! bounds instead of wrapping or panicking, so ordering comparisons stay
//! meaningful on extreme inputs.

use vstd::prelude::*;

verus! {

/// Raw value of one: the scaling factor of the Q16.16 format.
pub const SCALE: i32 = 65536;

/// A deterministic signed fixed-point number in Q16.16 format.
///
/// `raw` is the represented quantity times `SCALE`. The type is a plain value:
/// two values are equal exactly when their raw fields are.
#[derive(Clone, Copy, Debug, PartialEq, Eq, Structural)]
pub struct Fp {
    /// The scaled representation: `raw == quantity * SCALE`.
    pub raw: i32,
}

/// Magnitude of an integer.
pub open spec fn abs_i(a: int) -> int {
    if a < 0 {
        -a
    } else {
        a
    }
}

/// Clamp an unbounded integer into the representable raw range.
pub open spec fn sat32(x: int) -> i32 {
    if x < i32::MIN {
        i32::MIN
    } else if x > i32::MAX {
        i32::MAX
    } else {
        x as i32
    }
}

/// Division truncating toward zero, the rounding used when rescaling
/// products and quotients. Unspecified when `b == 0`; every use divides by
/// a nonzero value.
pub open spec fn tdiv(a: int, b: int) -> int {
    if (a < 0) == (b < 0) {
        abs_i(a) / abs_i(b)
    } else {
        -(abs_i(a) / abs_i(b))
    }
}

/// Raw saturating addition.
pub open spec fn add_raw(a: i32, b: i32) -> i32 {
    sat32(a + b)
}

/// Raw saturating subtraction.
pub open spec fn sub_raw(a: i32, b: i32) -> i32 {
    sat32(a - b)
}

/// Raw fixed-point product: rescale the double-width product, truncating
/// toward zero, then saturate.
pub open spec fn mul_raw(a: i32, b: i32) -> i32 {
    sat32(tdiv(a * b, SCALE as int))
}

/// Raw fixed-point quotient for `b != 0`: widen the dividend by `SCALE`,
/// divide truncating toward zero, then saturate.
pub open spec fn div_raw(a: i32, b: i32) -> i32 {
    sat32(tdiv(a * (SCALE as int), b as int))
}

/// The double-width product of two raw values stays well inside `i64`.
proof fn lemma_raw_product_bounds(a: int, b: int)
    requires
        i32::MIN <= a <= i32::MAX,
        i32::MIN <= b <= i32::MAX,
    ensures
        -0x4000_0000_0000_0000 <= a * b <= 0x4000_0000_0000_0000,
{
    assert(-0x4000_0000_0000_0000 <= a * b <= 0x4000_0000_0000_0000) by (nonlinear_arith)
        requires
            -0x8000_0000 <= a <= 0x7fff_ffff,
            -0x8000_0000 <= b <= 0x7fff_ffff;
}

/// Saturate a signed magnitude into the raw range.
fn sat_signed_mag(neg: bool, mag: u64) -> (r: i32)
    ensures
        neg ==> r == sat32(-(mag as int)),
        !neg ==> r == sat32(mag as int),
{
    if neg {
        if mag > 0x8000_0000u64 {
            i32::MIN
        } else {
            (0i64 - mag as i64) as i32
        }
    } else {
        if mag > 0x7fff_ffffu64 {
            i32::MAX
        } else {
            mag as i32
        }
    }
}

impl Fp {
    /// The value zero.
    pub fn zero() -> (r: Fp)
        ensures
            r.raw == 0,
    {
        Fp { raw: 0 }
    }

    /// The value one.
    pub fn one() -> (r: Fp)
        ensures
            r.raw == SCALE,
    {
        Fp { raw: SCALE }
    }

    /// The least representable value, used as the sentinel for an
    /// unconstrained lower bound.
    pub fn min_value() -> (r: Fp)
        ensures
            r.raw == i32::MIN,
    {
        Fp { raw: i32::MIN }
    }

    /// The greatest representable value, used as the sentinel for an
    /// unconstrained upper bound.
    pub fn max_value() -> (r: Fp)
        ensures
            r.raw == i32::MAX,
    {
        Fp { raw: i32::MAX }
    }

    /// Build a value directly from its scaled representation.
    pub fn from_raw(raw: i32) -> (r: Fp)
        ensures
            r.raw == raw,
    {
        Fp { raw }
    }

    /// Build the value representing the integer `v` exactly.
    pub fn from_int(v: i16) -> (r: Fp)
        ensures
            r.raw == v * (SCALE as int),
    {
        Fp { raw: (v as i32) * SCALE }
    }

    /// The scaled representation.
    pub fn inner(self) -> (r: i32)
        ensures
            r == self.raw,
    {
        self.raw
    }

    /// Whether the value is exactly zero.
    pub fn is_zero(self) -> (r: bool)
        ensures
            r == (self.raw == 0),
    {
        self.raw == 0
    }

    /// Saturating addition.
    pub fn add(self, rhs: Fp) -> (r: Fp)
        ensures
            r.raw == add_raw(self.raw, rhs.raw),
    {
        let wide: i64 = self.raw as i64 + rhs.raw as i64;
        if wide < 0 {
            Fp { raw: sat_signed_mag(true, (0i64 - wide) as u64) }
        } else {
            Fp { raw: sat_signed_mag(false, wide as u64) }
        }
    }

    /// Saturating subtraction.
    pub fn sub(self, rhs: Fp) -> (r: Fp)
        ensures
            r.raw == sub_raw(self.raw, rhs.raw),
    {
        let wide: i64 = self.raw as i64 - rhs.raw as i64;
        if wide < 0 {
            Fp { raw: sat_signed_mag(true, (0i64 - wide) as u64) }
        } else {
            Fp { raw: sat_signed_mag(false, wide as u64) }
        }
    }

    /// Saturating fixed-point multiplication, truncating toward zero.
    pub fn mul(self, rhs: Fp) -> (r: Fp)
        ensures
            r.raw == mul_raw(self.raw, rhs.raw),
    {
        proof {
            lemma_raw_product_bounds(self.raw as int, rhs.raw as int);
        }
        let wide: i64 = (self.raw as i64) * (rhs.raw as i64);
        let neg: bool = wide < 0;
        let mag: u64 = if wide < 0 {
            (0i64 - wide) as u64
        } else {
            wide as u64
        };
        let q: u64 = mag / (SCALE as u64);
        Fp { raw: sat_signed_mag(neg, q) }
    }

    /// Saturating fixed-point division, truncating toward zero.
    /// Never called with a zero divisor: every query tests the sign of the
    /// divisor first and branches the zero case away.
    pub fn div(self, rhs: Fp) -> (r: Fp)
        requires
            rhs.raw != 0,
        ensures
            r.raw == div_raw(self.raw, rhs.raw),
    {
        proof {
            lemma_raw_product_bounds(self.raw as int, SCALE as int);
        }
        let wide: i64 = (self.raw as i64) * (SCALE as i64);
        let neg: bool = (wide < 0) != (rhs.raw < 0);
        let mag: u64 = if wide < 0 {
            (0i64 - wide) as u64
        } else {
            wide as u64
        };
        let mag_rhs: u64 = if rhs.raw < 0 {
            (0i64 - rhs.raw as i64) as u64
        } else {
            rhs.raw as u64
        };
        let q: u64 = mag / mag_rhs;
        Fp { raw: sat_signed_mag(neg, q) }
    }
}

} // verus!

//! Spherical coordinates of the camera about its target.

use vstd::prelude::*;
use vstd::arithmetic::power2::{lemma2_to64, lemma2_to64_rest, lemma_pow2_pos, pow2};
use crate::scalar::{
    lemma_scaled_magnitude_of_normal, lemma_unit_splits, unit, Scalar, NEG_ONE_BITS, ONE_BITS,
    ZERO_BITS,
};

verus! {

/// Bit pattern of the least polar angle an orbit may take: the single-precision
/// number nearest to `0.0001`.
pub const MIN_POLAR_BITS: u32 = 0x38D1_B717;

/// Bit pattern of the greatest polar angle an orbit may take: single-precision
/// pi less the least polar angle.
pub const MAX_POLAR_BITS: u32 = 0x4049_0E38;

/// The least polar angle.
pub open spec fn min_polar() -> Scalar {
    Scalar { bits: MIN_POLAR_BITS }
}

/// The greatest polar angle.
pub open spec fn max_polar() -> Scalar {
    Scalar { bits: MAX_POLAR_BITS }
}

/// A polar angle kept off both poles: what is below the least angle becomes the
/// least, what is above the greatest becomes the greatest.
pub open spec fn polar_clamp(phi: Scalar) -> Scalar {
    phi.spec_clamp(min_polar(), max_polar())
}

/// The cosine of a polar angle, as a quotient of lengths gives it: kept
/// between `-1.0` and `1.0`, which rounding may have let it pass.
pub open spec fn cosine_clamp(ratio: Scalar) -> Scalar {
    ratio.spec_clamp(Scalar { bits: NEG_ONE_BITS }, Scalar { bits: ONE_BITS })
}

/// Keeps the quotient `ratio` of a height by a length between `-1.0` and `1.0`,
/// the range in which an angle has that cosine.
pub fn polar_cosine(ratio: Scalar) -> (c: Scalar)
    ensures
        c == cosine_clamp(ratio),
        !ratio.spec_is_nan() ==> (Scalar { bits: NEG_ONE_BITS }).spec_le(c),
        !ratio.spec_is_nan() ==> c.spec_le(Scalar { bits: ONE_BITS }),
{
    ratio.clamp(Scalar::from_bits(NEG_ONE_BITS), Scalar::from_bits(ONE_BITS))
}

/// Distance from the target, polar angle from the +Y axis, and azimuth about it.
#[derive(Clone, Copy, Debug, PartialEq, Eq, Structural)]
pub struct Spherical {
    pub radius: Scalar,
    pub phi: Scalar,
    pub theta: Scalar,
}

impl Spherical {
    /// The triple of three zeros.
    pub open spec fn spec_zero() -> Spherical {
        Spherical {
            radius: Scalar { bits: ZERO_BITS },
            phi: Scalar { bits: ZERO_BITS },
            theta: Scalar { bits: ZERO_BITS },
        }
    }

    /// The coordinates of an offset of length `radius`, whose angles were
    /// measured as `phi` and `theta`. An offset of no length has no angles:
    /// its coordinates are three zeros, whatever was measured.
    pub open spec fn spec_from_measures(radius: Scalar, phi: Scalar, theta: Scalar) -> Spherical {
        if radius.spec_is_zero() {
            Spherical::spec_zero()
        } else {
            Spherical { radius, phi, theta }
        }
    }

    /// The same coordinates with the polar angle kept off the poles.
    pub open spec fn spec_make_safe(self) -> Spherical {
        Spherical { radius: self.radius, phi: polar_clamp(self.phi), theta: self.theta }
    }

    /// The triple of three zeros.
    #[verifier::when_used_as_spec(spec_zero)]
    pub fn zero() -> (s: Spherical)
        ensures
            s == Spherical::spec_zero(),
    {
        let o = Scalar::from_bits(ZERO_BITS);
        Spherical { radius: o, phi: o, theta: o }
    }

    /// The coordinates of an offset of length `radius`, whose angles were
    /// measured as `phi` and `theta`. Where the length is zero, whatever the
    /// measurement of an angle gave is dropped, not a number included.
    #[verifier::when_used_as_spec(spec_from_measures)]
    pub fn from_measures(radius: Scalar, phi: Scalar, theta: Scalar) -> (s: Spherical)
        ensures
            s == Spherical::spec_from_measures(radius, phi, theta),
            radius.spec_is_zero() ==> s == Spherical::spec_zero(),
    {
        if radius.is_zero() {
            Spherical::zero()
        } else {
            Spherical { radius, phi, theta }
        }
    }

    /// Keeps the polar angle off the poles, where the view would have no
    /// defined up direction. Radius and azimuth stay as they are.
    #[verifier::when_used_as_spec(spec_make_safe)]
    pub fn make_safe(self) -> (s: Spherical)
        ensures
            s == self.spec_make_safe(),
    {
        let lo = Scalar::from_bits(MIN_POLAR_BITS);
        let hi = Scalar::from_bits(MAX_POLAR_BITS);
        Spherical { radius: self.radius, phi: self.phi.clamp(lo, hi), theta: self.theta }
    }
}

/// A polar angle that is a number ends within the two bounds: at the nearer
/// bound where it was outside them, and where it was otherwise.
pub proof fn lemma_polar_clamp_bounds(phi: Scalar)
    requires
        !phi.spec_is_nan(),
    ensures
        min_polar().spec_le(polar_clamp(phi)),
        polar_clamp(phi).spec_le(max_polar()),
        phi.spec_lt(min_polar()) ==> polar_clamp(phi) == min_polar(),
        phi.spec_gt(max_polar()) ==> polar_clamp(phi) == max_polar(),
        min_polar().spec_le(phi) && phi.spec_le(max_polar()) ==> polar_clamp(phi) == phi,
{
}

/// Keeping an angle off the poles a second time changes nothing.
pub proof fn lemma_polar_clamp_idempotent(phi: Scalar)
    ensures
        polar_clamp(polar_clamp(phi)) == polar_clamp(phi),
{
}

/// The least polar angle lies between 0.000099999 and 0.0001, the greatest
/// between 3.1414 and 3.1415; so the least is below the greatest.
pub proof fn lemma_polar_values()
    ensures
        99_999 * unit() < 1_000_000_000 * min_polar().scaled() < 100_000 * unit(),
        31_414 * unit() < 10_000 * max_polar().scaled() < 31_415 * unit(),
        min_polar().spec_lt(max_polar()),
{
    lemma2_to64();
    lemma2_to64_rest();
    lemma_scaled_magnitude_of_normal(min_polar(), 0xD1_B717, 0);
    lemma_unit_splits(112);
    lemma_pow2_pos(112);
    let p = pow2(112) as int;
    assert(99_999 * (0x20_0000_0000 * p) < 1_000_000_000 * (0xD1_B717 * p) < 100_000 * (0x20_0000_0000 * p))
        by (nonlinear_arith)
        requires
            p > 0,
    ;
    lemma_scaled_magnitude_of_normal(max_polar(), 0xC9_0E38, 0);
    lemma_unit_splits(127);
    lemma_pow2_pos(127);
    let q = pow2(127) as int;
    assert(31_414 * (0x40_0000 * q) < 10_000 * (0xC9_0E38 * q) < 31_415 * (0x40_0000 * q))
        by (nonlinear_arith)
        requires
            q > 0,
    ;
}

} // verus!

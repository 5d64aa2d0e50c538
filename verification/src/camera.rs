//! What the controllers read and write of the camera's projection: its field of
//! view and whether it projects in perspective.

use vstd::prelude::*;
use vstd::arithmetic::power2::{lemma2_to64, lemma_pow2_pos, pow2};
use crate::scalar::{lemma_scaled_magnitude_of_normal, lemma_unit_splits, unit, Scalar};

verus! {

/// Bit pattern of the field of view a camera starts with: `45.0` degrees.
pub const ZOOM_BITS: u32 = 0x4234_0000;

/// Bit pattern of the narrowest field of view: `1.0` degree.
pub const MIN_ZOOM_BITS: u32 = 0x3F80_0000;

/// Bit pattern of the widest field of view: `170.0` degrees.
pub const MAX_ZOOM_BITS: u32 = 0x432A_0000;

/// Bit pattern of the degrees of field of view per unit of scroll: the
/// single-precision number nearest to `0.1`.
pub const ZOOM_SENSITIVITY_BITS: u32 = 0x3DCC_CCCD;

/// The narrowest field of view.
pub open spec fn min_zoom() -> Scalar {
    Scalar { bits: MIN_ZOOM_BITS }
}

/// The widest field of view.
pub open spec fn max_zoom() -> Scalar {
    Scalar { bits: MAX_ZOOM_BITS }
}

/// A field of view kept between the narrowest and the widest.
pub open spec fn zoom_clamp(fovy: Scalar) -> Scalar {
    fovy.spec_clamp(min_zoom(), max_zoom())
}

/// The projection parameters of a camera.
#[derive(Clone, Copy, Debug, PartialEq, Eq, Structural)]
pub struct Camera {
    /// Vertical field of view, in degrees.
    pub fovy: Scalar,
    /// Whether the camera projects in perspective; otherwise orthographically.
    pub perspective: bool,
}

impl Camera {
    /// The camera every controller starts with: perspective, 45 degrees.
    pub open spec fn spec_default() -> Camera {
        Camera { fovy: Scalar { bits: ZOOM_BITS }, perspective: true }
    }

    /// Whether the camera projects in perspective.
    pub open spec fn spec_is_perspective(&self) -> bool {
        self.perspective
    }

    /// Whether the camera projects in perspective.
    #[verifier::when_used_as_spec(spec_is_perspective)]
    pub fn is_perspective(&self) -> (r: bool)
        ensures
            r == self.perspective,
    {
        self.perspective
    }

    /// Sets the field of view to `fovy`, kept between the narrowest and the
    /// widest. The projection mode stays.
    pub fn set_zoom(&mut self, fovy: Scalar)
        ensures
            final(self).fovy == zoom_clamp(fovy),
            final(self).perspective == old(self).perspective,
    {
        let lo = Scalar::from_bits(MIN_ZOOM_BITS);
        let hi = Scalar::from_bits(MAX_ZOOM_BITS);
        self.fovy = fovy.clamp(lo, hi);
    }
}

impl Default for Camera {
    fn default() -> (c: Camera)
        ensures
            c == Camera::spec_default(),
    {
        Camera { fovy: Scalar::from_bits(ZOOM_BITS), perspective: true }
    }
}

/// A field of view that is a number ends between the narrowest and the widest:
/// exactly at the bound that it reached or passed, and where it was otherwise.
pub proof fn lemma_zoom_clamp_bounds(fovy: Scalar)
    requires
        !fovy.spec_is_nan(),
    ensures
        min_zoom().spec_le(zoom_clamp(fovy)),
        zoom_clamp(fovy).spec_le(max_zoom()),
        fovy.spec_le(min_zoom()) ==> zoom_clamp(fovy) == min_zoom(),
        fovy.spec_ge(max_zoom()) ==> zoom_clamp(fovy) == max_zoom(),
        min_zoom().spec_le(fovy) && fovy.spec_le(max_zoom()) ==> zoom_clamp(fovy) == fovy,
{
}

/// The bit patterns named in this module encode the numbers they are named
/// for: 45, 1 and 170 degrees, and a sensitivity between 0.1 and 0.1000001.
pub proof fn lemma_zoom_values()
    ensures
        Camera::spec_default().fovy.scaled() == 45 * unit(),
        min_zoom().scaled() == unit(),
        max_zoom().scaled() == 170 * unit(),
        unit() <= 10 * (Scalar { bits: ZOOM_SENSITIVITY_BITS }).scaled(),
        10_000_000 * (Scalar { bits: ZOOM_SENSITIVITY_BITS }).scaled() < 1_000_001 * unit(),
{
    lemma2_to64();
    lemma_scaled_magnitude_of_normal(Scalar { bits: ZOOM_BITS }, 45, 18);
    lemma_scaled_magnitude_of_normal(min_zoom(), 1, 23);
    lemma_scaled_magnitude_of_normal(max_zoom(), 170, 16);
    lemma_scaled_magnitude_of_normal(Scalar { bits: ZOOM_SENSITIVITY_BITS }, 0xCC_CCCD, 0);
    lemma_unit_splits(122);
    lemma_pow2_pos(122);
    let p = pow2(122) as int;
    assert(0x800_0000 * p <= 10 * (0xCC_CCCD * p)) by (nonlinear_arith)
        requires
            p > 0,
    ;
    assert(10_000_000 * (0xCC_CCCD * p) < 1_000_001 * (0x800_0000 * p)) by (nonlinear_arith)
        requires
            p > 0,
    ;
}

} // verus!

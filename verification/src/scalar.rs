//! Single-precision numbers, held by their IEEE 754 bit patterns.
//!
//! A [`Scalar`] is compared, classified and clamped by integer arithmetic on its
//! bit pattern alone, so every such decision is exact and the same on every
//! machine. The model of a scalar is its class (number or not-a-number) and,
//! for a number, its order key: an integer that grows exactly as the number
//! does. That it does is proved here against the number itself, which for a
//! finite scalar is a whole multiple of two to the power of -149
//! ([`Scalar::scaled`]).

use vstd::prelude::*;
use vstd::arithmetic::power2::{
    lemma2_to64, lemma_pow2_adds, lemma_pow2_pos, lemma_pow2_strictly_increases,
    lemma_pow2_unfold, pow2,
};

verus! {

/// Bit pattern with only the sign bit set; also that of negative zero.
pub const SIGN_BIT: u32 = 0x8000_0000;

/// Bit pattern of positive infinity; every larger magnitude is not a number.
pub const INFINITY_BITS: u32 = 0x7F80_0000;

/// Bit pattern of negative infinity.
pub const NEG_INFINITY_BITS: u32 = 0xFF80_0000;

/// Number of patterns that share one exponent: two to the power of 23, the
/// width of the fraction field.
pub const FRACTION_RANGE: u32 = 0x0080_0000;

/// Bit pattern of `0.0`.
pub const ZERO_BITS: u32 = 0x0000_0000;

/// Bit pattern of `1.0`.
pub const ONE_BITS: u32 = 0x3F80_0000;

/// Bit pattern of `-1.0`.
pub const NEG_ONE_BITS: u32 = 0xBF80_0000;

/// A single-precision number, given by its bit pattern.
#[derive(Clone, Copy, Debug, PartialEq, Eq, Structural)]
pub struct Scalar {
    pub bits: u32,
}

impl Scalar {
    /// The bit pattern without its sign bit.
    pub open spec fn magnitude(self) -> int {
        if self.bits >= SIGN_BIT {
            self.bits - SIGN_BIT
        } else {
            self.bits as int
        }
    }

    /// Whether the sign bit is set.
    pub open spec fn sign_negative(self) -> bool {
        self.bits >= SIGN_BIT
    }

    /// Whether the pattern encodes no number at all.
    pub open spec fn spec_is_nan(self) -> bool {
        self.magnitude() > INFINITY_BITS
    }

    /// Whether the pattern encodes zero, of either sign.
    pub open spec fn spec_is_zero(self) -> bool {
        self.magnitude() == 0
    }

    /// Whether the pattern encodes a number that is not infinite.
    pub open spec fn spec_is_finite(self) -> bool {
        self.magnitude() < INFINITY_BITS
    }

    /// The exponent field of the pattern: its eight bits below the sign.
    pub open spec fn exponent_field(self) -> int {
        self.magnitude() / (FRACTION_RANGE as int)
    }

    /// The fraction field of the pattern: its lowest 23 bits.
    pub open spec fn fraction_field(self) -> int {
        self.magnitude() % (FRACTION_RANGE as int)
    }

    /// For a finite scalar, the absolute value of the number it encodes, in
    /// units of two to the power of -149, the smallest positive number there
    /// is. In that unit every finite number is a whole number.
    pub open spec fn scaled_magnitude(self) -> int {
        if self.exponent_field() == 0 {
            self.fraction_field()
        } else {
            (FRACTION_RANGE + self.fraction_field()) * pow2((self.exponent_field() - 1) as nat)
        }
    }

    /// For a finite scalar, the number it encodes, in units of two to the
    /// power of -149.
    pub open spec fn scaled(self) -> int {
        if self.sign_negative() {
            -self.scaled_magnitude()
        } else {
            self.scaled_magnitude()
        }
    }

    /// The order key: for two numbers, the one with the smaller key is the
    /// smaller number, and equal keys mean equal numbers. Both zeros have key 0.
    pub open spec fn key(self) -> int {
        if self.sign_negative() {
            -self.magnitude()
        } else {
            self.magnitude()
        }
    }

    /// `self < other` as IEEE 754 defines it: false when either is not a number.
    pub open spec fn spec_lt(self, other: Scalar) -> bool {
        !self.spec_is_nan() && !other.spec_is_nan() && self.key() < other.key()
    }

    /// `self <= other` as IEEE 754 defines it: false when either is not a number.
    pub open spec fn spec_le(self, other: Scalar) -> bool {
        !self.spec_is_nan() && !other.spec_is_nan() && self.key() <= other.key()
    }

    /// `self > other` as IEEE 754 defines it.
    pub open spec fn spec_gt(self, other: Scalar) -> bool {
        other.spec_lt(self)
    }

    /// `self >= other` as IEEE 754 defines it.
    pub open spec fn spec_ge(self, other: Scalar) -> bool {
        other.spec_le(self)
    }

    /// `self` bounded by `lo` below and `hi` above. What is not a number stays
    /// as it is; a number below `lo` becomes `lo`, one above `hi` becomes `hi`.
    pub open spec fn spec_clamp(self, lo: Scalar, hi: Scalar) -> Scalar {
        if self.spec_lt(lo) {
            lo
        } else if self.spec_gt(hi) {
            hi
        } else {
            self
        }
    }

    /// The scalar with the given bit pattern.
    pub fn from_bits(bits: u32) -> (s: Scalar)
        ensures
            s.bits == bits,
    {
        Scalar { bits }
    }

    /// The bit pattern.
    pub fn to_bits(self) -> (bits: u32)
        ensures
            bits == self.bits,
    {
        self.bits
    }

    /// Whether the pattern encodes no number.
    #[verifier::when_used_as_spec(spec_is_nan)]
    pub fn is_nan(self) -> (r: bool)
        ensures
            r == self.spec_is_nan(),
    {
        if self.bits >= SIGN_BIT {
            self.bits - SIGN_BIT > INFINITY_BITS
        } else {
            self.bits > INFINITY_BITS
        }
    }

    /// Whether the pattern encodes zero, of either sign.
    #[verifier::when_used_as_spec(spec_is_zero)]
    pub fn is_zero(self) -> (r: bool)
        ensures
            r == self.spec_is_zero(),
    {
        self.bits == ZERO_BITS || self.bits == SIGN_BIT
    }

    /// Computes the order key.
    pub fn order_key(self) -> (k: i32)
        ensures
            k == self.key(),
    {
        if self.bits >= SIGN_BIT {
            let m: u32 = self.bits - SIGN_BIT;
            -(m as i32)
        } else {
            self.bits as i32
        }
    }

    /// `self < other`.
    #[verifier::when_used_as_spec(spec_lt)]
    pub fn lt(self, other: Scalar) -> (r: bool)
        ensures
            r == self.spec_lt(other),
    {
        !self.is_nan() && !other.is_nan() && self.order_key() < other.order_key()
    }

    /// `self <= other`.
    #[verifier::when_used_as_spec(spec_le)]
    pub fn le(self, other: Scalar) -> (r: bool)
        ensures
            r == self.spec_le(other),
    {
        !self.is_nan() && !other.is_nan() && self.order_key() <= other.order_key()
    }

    /// `self > other`.
    #[verifier::when_used_as_spec(spec_gt)]
    pub fn gt(self, other: Scalar) -> (r: bool)
        ensures
            r == self.spec_gt(other),
    {
        other.lt(self)
    }

    /// `self >= other`.
    #[verifier::when_used_as_spec(spec_ge)]
    pub fn ge(self, other: Scalar) -> (r: bool)
        ensures
            r == self.spec_ge(other),
    {
        other.le(self)
    }

    /// Bounds `self` by `lo` and `hi`, which must be numbers in that order.
    #[verifier::when_used_as_spec(spec_clamp)]
    pub fn clamp(self, lo: Scalar, hi: Scalar) -> (r: Scalar)
        requires
            lo.spec_le(hi),
        ensures
            r == self.spec_clamp(lo, hi),
    {
        if self.is_nan() {
            return self;
        }
        let own: i32 = self.order_key();
        let bounded: i32 = clamp_key(own, lo.order_key(), hi.order_key());
        if bounded == own {
            self
        } else if own < bounded {
            lo
        } else {
            hi
        }
    }
}

/// The number one in units of two to the power of -149.
pub open spec fn unit() -> int {
    pow2(149) as int
}

/// Of two finite scalars, the one with the smaller magnitude pattern encodes
/// the number of smaller absolute value.
proof fn lemma_scaled_magnitude_increases(a: Scalar, b: Scalar)
    requires
        a.spec_is_finite(),
        b.spec_is_finite(),
        a.magnitude() < b.magnitude(),
    ensures
        0 <= a.scaled_magnitude() < b.scaled_magnitude(),
{
    let ea = a.exponent_field();
    let fa = a.fraction_field();
    let eb = b.exponent_field();
    let fb = b.fraction_field();
    assert(ea <= eb);
    if ea > 0 {
        lemma_pow2_pos((ea - 1) as nat);
    }
    lemma_pow2_pos((eb - 1) as nat);
    let pb = pow2((eb - 1) as nat);
    if ea == eb {
        if ea != 0 {
            assert((FRACTION_RANGE + fa) * pb < (FRACTION_RANGE + fb) * pb) by (nonlinear_arith)
                requires
                    fa < fb,
                    pb > 0,
            ;
            assert(0 <= (FRACTION_RANGE + fa) * pb) by (nonlinear_arith)
                requires
                    fa >= 0,
                    pb > 0,
            ;
        }
    } else {
        assert(FRACTION_RANGE * pb <= (FRACTION_RANGE + fb) * pb) by (nonlinear_arith)
            requires
                fb >= 0,
                pb > 0,
        ;
        if ea == 0 {
            assert(FRACTION_RANGE <= FRACTION_RANGE * pb) by (nonlinear_arith)
                requires
                    pb >= 1,
            ;
        } else {
            let pa = pow2((ea - 1) as nat);
            lemma_pow2_unfold(ea as nat);
            if ea < eb - 1 {
                lemma_pow2_strictly_increases(ea as nat, (eb - 1) as nat);
            }
            assert(2 * pa <= pb);
            assert(0 <= (FRACTION_RANGE + fa) * pa < FRACTION_RANGE * (2 * pa)) by (nonlinear_arith)
                requires
                    0 <= fa < FRACTION_RANGE,
                    pa > 0,
            ;
            assert(FRACTION_RANGE * (2 * pa) <= FRACTION_RANGE * pb) by (nonlinear_arith)
                requires
                    2 * pa <= pb,
            ;
        }
    }
}

/// The order key orders finite scalars as the numbers they encode are ordered,
/// and two finite scalars have one key exactly if they encode one number.
pub proof fn lemma_key_orders_numbers(a: Scalar, b: Scalar)
    requires
        a.spec_is_finite(),
        b.spec_is_finite(),
    ensures
        a.key() < b.key() <==> a.scaled() < b.scaled(),
        a.key() == b.key() <==> a.scaled() == b.scaled(),
{
    if a.magnitude() < b.magnitude() {
        lemma_scaled_magnitude_increases(a, b);
    } else if b.magnitude() < a.magnitude() {
        lemma_scaled_magnitude_increases(b, a);
    } else {
        assert(a.scaled_magnitude() == b.scaled_magnitude());
    }
    let zero = Scalar { bits: ZERO_BITS };
    assert(zero.scaled_magnitude() == 0);
    if a.magnitude() > 0 {
        lemma_scaled_magnitude_increases(zero, a);
    } else {
        assert(a.scaled_magnitude() == 0);
    }
    if b.magnitude() > 0 {
        lemma_scaled_magnitude_increases(zero, b);
    } else {
        assert(b.scaled_magnitude() == 0);
    }
}

/// Every finite scalar lies strictly between the two infinities, and what is
/// not a number has no place in the order.
pub proof fn lemma_infinities_bound_numbers(a: Scalar)
    requires
        a.spec_is_finite(),
    ensures
        (Scalar { bits: NEG_INFINITY_BITS }).spec_lt(a),
        a.spec_lt(Scalar { bits: INFINITY_BITS }),
{
}

/// A scalar whose exponent field is `e >= 1` and whose significand is
/// `n * 2^k` encodes, up to its sign, the number `n * 2^(e - 1 + k)` in units
/// of two to the power of -149.
pub proof fn lemma_scaled_magnitude_of_normal(s: Scalar, n: int, k: nat)
    requires
        s.exponent_field() >= 1,
        FRACTION_RANGE + s.fraction_field() == n * pow2(k),
    ensures
        s.scaled_magnitude() == n * pow2((s.exponent_field() - 1 + k) as nat),
{
    let e = (s.exponent_field() - 1) as nat;
    lemma_pow2_adds(k, e);
    assert((n * pow2(k)) * pow2(e) == n * (pow2(k) * pow2(e))) by (nonlinear_arith);
}

/// The number one, in units of two to the power of -149, is `2^(149 - e)`
/// times `2^e`.
pub proof fn lemma_unit_splits(e: nat)
    requires
        e <= 149,
    ensures
        unit() == pow2((149 - e) as nat) * pow2(e),
{
    lemma_pow2_adds((149 - e) as nat, e);
}

/// The bit patterns named in this module encode the numbers they are named
/// for: zero, one and minus one.
pub proof fn lemma_named_values()
    ensures
        (Scalar { bits: ZERO_BITS }).scaled() == 0,
        (Scalar { bits: SIGN_BIT }).scaled() == 0,
        (Scalar { bits: ONE_BITS }).scaled() == unit(),
        (Scalar { bits: NEG_ONE_BITS }).scaled() == -unit(),
{
    lemma2_to64();
    lemma_scaled_magnitude_of_normal(Scalar { bits: ONE_BITS }, 1, 23);
    lemma_scaled_magnitude_of_normal(Scalar { bits: NEG_ONE_BITS }, 1, 23);
}

/// `num_traits::clamp` on three integers: `min` where `input` is below it, `max`
/// where `input` is above it, else `input`. It panics in debug builds unless
/// `min <= max`, so that is required.
#[verifier::external_body]
fn clamp_key(input: i32, min: i32, max: i32) -> (r: i32)
    requires
        min <= max,
    ensures
        r == (if input < min {
            min
        } else if input > max {
            max
        } else {
            input
        }),
{
    num_traits::clamp(input, min, max)
}

} // verus!

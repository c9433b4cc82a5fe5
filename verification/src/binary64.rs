//! IEEE 754 double-precision numbers, carried as their 64-bit patterns.
//!
//! A pattern is a sign bit, eleven bits of biased exponent and fifty-two bits
//! of fraction. Every pattern whose lower sixty-three bits do not exceed those
//! of infinity stands for a number; the others are NaNs. The number that a
//! pattern stands for is described here by an integer: the number times
//! 2^1074, which is whole for every finite double.

use vstd::prelude::*;
use vstd::arithmetic::power2::{
    lemma_pow2_pos,
    lemma_pow2_strictly_increases,
    lemma_pow2_unfold,
    pow2,
};

verus! {

/// The pattern with only the sign bit set.
pub const SIGN_BIT: u64 = 0x8000_0000_0000_0000;

/// The pattern of positive infinity.
pub const INFINITY: u64 = 0x7ff0_0000_0000_0000;

/// Number of values the fraction field can take, 2^52.
pub const FRACTION_SPAN: u64 = 0x0010_0000_0000_0000;

/// Whether the sign bit of `bits` is set.
pub open spec fn is_sign_negative(bits: u64) -> bool {
    bits >= SIGN_BIT
}

/// The lower sixty-three bits of `bits`: exponent and fraction, without the sign.
pub open spec fn magnitude_of(bits: u64) -> nat {
    if bits >= SIGN_BIT {
        (bits - SIGN_BIT) as nat
    } else {
        bits as nat
    }
}

/// Whether `bits` stands for a number, finite or infinite, rather than a NaN.
pub open spec fn is_number(bits: u64) -> bool {
    magnitude_of(bits) <= INFINITY
}

/// The absolute value that the magnitude `m` stands for, times 2^1074.
///
/// With a biased exponent of zero the fraction counts steps of 2^-1074
/// (zero and the subnormal numbers). With a biased exponent `e` above zero the
/// value is `(1 + fraction / 2^52) * 2^(e - 1023)`. Infinity comes out as
/// 2^1024 times 2^1074, above every finite double.
pub open spec fn scaled(m: nat) -> int {
    let exponent = m / (FRACTION_SPAN as nat);
    let fraction = m % (FRACTION_SPAN as nat);
    if exponent == 0 {
        fraction as int
    } else {
        (FRACTION_SPAN + fraction) * pow2((exponent - 1) as nat)
    }
}

/// The absolute value of the number that `bits` stands for, times 2^1074.
pub open spec fn scaled_magnitude(bits: u64) -> int {
    scaled(magnitude_of(bits))
}

/// The number that `bits` stands for, times 2^1074. Both zeros give 0.
pub open spec fn scaled_value(bits: u64) -> int {
    if is_sign_negative(bits) {
        -scaled_magnitude(bits)
    } else {
        scaled_magnitude(bits)
    }
}

/// `a > b` as IEEE 754 defines it: both are numbers, and `a` stands for the
/// larger one.
pub open spec fn exceeds(a: u64, b: u64) -> bool {
    is_number(a) && is_number(b) && scaled_value(a) > scaled_value(b)
}

/// `a == b` as IEEE 754 defines it: both are numbers, and they stand for the
/// same one. A NaN equals nothing, and the two zeros equal each other.
pub open spec fn same_number(a: u64, b: u64) -> bool {
    is_number(a) && is_number(b) && scaled_value(a) == scaled_value(b)
}

/// A larger magnitude stands for a larger absolute value.
pub proof fn lemma_scaled_increases(x: nat, y: nat)
    requires
        x < y,
    ensures
        scaled(x) < scaled(y),
{
    let span = FRACTION_SPAN as nat;
    let (ex, fx) = (x / span, x % span);
    let (ey, fy) = (y / span, y % span);
    assert(ex <= ey);
    if ex == ey {
        assert(fx < fy);
        if ex != 0 {
            let p = pow2((ex - 1) as nat);
            lemma_pow2_pos((ex - 1) as nat);
            assert((span + fx) * p < (span + fy) * p) by (nonlinear_arith)
                requires
                    fx < fy,
                    p > 0,
            ;
        }
    } else {
        let py = pow2((ey - 1) as nat);
        lemma_pow2_pos((ey - 1) as nat);
        if ex == 0 {
            assert(span <= (span + fy) * py) by (nonlinear_arith)
                requires
                    py >= 1,
            ;
        } else {
            let px = pow2((ex - 1) as nat);
            lemma_pow2_pos((ex - 1) as nat);
            lemma_pow2_unfold(ex);
            if ex < ey - 1 {
                lemma_pow2_strictly_increases(ex, (ey - 1) as nat);
            }
            assert((span + fx) * px < (span + fy) * py) by (nonlinear_arith)
                requires
                    fx < span,
                    px > 0,
                    2 * px <= py,
            ;
        }
    }
}

/// The order of two magnitudes is the order of the absolute values they
/// stand for.
pub proof fn lemma_magnitude_order(a: u64, b: u64)
    ensures
        magnitude_of(a) < magnitude_of(b) <==> scaled_magnitude(a) < scaled_magnitude(b),
        magnitude_of(a) == magnitude_of(b) <==> scaled_magnitude(a) == scaled_magnitude(b),
{
    let (x, y) = (magnitude_of(a), magnitude_of(b));
    if x < y {
        lemma_scaled_increases(x, y);
    } else if y < x {
        lemma_scaled_increases(y, x);
    }
}

/// Only the two zeros stand for zero.
pub proof fn lemma_zero(bits: u64)
    ensures
        scaled_magnitude(bits) == 0 <==> magnitude_of(bits) == 0,
{
    lemma_magnitude_order(0, bits);
}

/// Returns the lower sixty-three bits of `bits`.
pub fn magnitude(bits: u64) -> (m: u64)
    ensures
        m == magnitude_of(bits),
{
    if bits >= SIGN_BIT {
        bits - SIGN_BIT
    } else {
        bits
    }
}

/// Tells whether `bits` is a NaN.
pub fn is_nan(bits: u64) -> (nan: bool)
    ensures
        nan == !is_number(bits),
{
    magnitude(bits) > INFINITY
}

/// Tells whether `a > b`.
pub fn greater_than(a: u64, b: u64) -> (greater: bool)
    ensures
        greater == exceeds(a, b),
{
    proof {
        lemma_magnitude_order(a, b);
        lemma_zero(a);
        lemma_zero(b);
    }
    if is_nan(a) || is_nan(b) {
        false
    } else if a >= SIGN_BIT {
        b >= SIGN_BIT && magnitude(a) < magnitude(b)
    } else if b >= SIGN_BIT {
        magnitude(a) != 0 || magnitude(b) != 0
    } else {
        magnitude(a) > magnitude(b)
    }
}

/// Tells whether `a == b`.
pub fn equal(a: u64, b: u64) -> (same: bool)
    ensures
        same == same_number(a, b),
{
    proof {
        lemma_magnitude_order(a, b);
        lemma_zero(a);
        lemma_zero(b);
    }
    if is_nan(a) || is_nan(b) {
        false
    } else {
        a == b || (magnitude(a) == 0 && magnitude(b) == 0)
    }
}

} // verus!

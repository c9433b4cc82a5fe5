//! Temperature as a validated number of degrees Celsius.

use vstd::prelude::*;
use vstd::arithmetic::power2::{lemma2_to64_rest, lemma_pow2_adds, pow2};
use vstd::std_specs::cmp::PartialEqSpecImpl;
use crate::binary64::{
    equal,
    is_number,
    lemma_magnitude_order,
    magnitude,
    magnitude_of,
    same_number,
    scaled_magnitude,
    scaled_value,
};

verus! {

/// What a rejected temperature is answered with.
pub const VALIDATION_ERROR: &'static str =
    "temperature must be a decimal value between -100.0 and 100.0";

/// Minimum value of temperature: the pattern of -100.0.
pub const MIN_TEMP: u64 = 0xc059_0000_0000_0000;

/// Maximum value of temperature: the pattern of 100.0.
pub const MAX_TEMP: u64 = 0x4059_0000_0000_0000;

/// Whether the double `bits` is a temperature: a number from -100 to 100.
/// NaN is none.
pub open spec fn is_temperature(bits: u64) -> bool {
    is_number(bits) && -100 * pow2(1074) <= scaled_value(bits) <= 100 * pow2(1074)
}

/// [`MAX_TEMP`] stands for 100 and [`MIN_TEMP`] for -100.
pub proof fn lemma_bounds()
    ensures
        scaled_value(MAX_TEMP) == 100 * pow2(1074),
        scaled_value(MIN_TEMP) == -100 * pow2(1074),
{
    // The pattern holds the significand 25 * 2^48 under the exponent field
    // 1029, which scales to 25 * 2^48 * 2^1028, and that is 100 * 2^1074.
    lemma2_to64_rest();
    lemma_pow2_adds(1028, 46);
    let p = pow2(1028);
    assert(scaled_magnitude(MAX_TEMP) == 0x0019_0000_0000_0000 * p);
    assert(0x0019_0000_0000_0000 * p == 100 * (p * 0x4000_0000_0000)) by (nonlinear_arith);
}

/// A double is a temperature exactly if its magnitude does not exceed that of
/// 100.0.
pub proof fn lemma_is_temperature(bits: u64)
    ensures
        is_temperature(bits) <==> magnitude_of(bits) <= magnitude_of(MAX_TEMP),
{
    lemma_bounds();
    lemma_magnitude_order(bits, MAX_TEMP);
}

/// An error returned by [`Temperature::try_new`] if the value is invalid.
#[derive(Debug)]
pub struct TemperatureInvalid(pub &'static str);

impl TemperatureInvalid {
    /// The text that describes the error.
    pub fn message(&self) -> (text: String)
        ensures
            text@ == VALIDATION_ERROR@,
    {
        VALIDATION_ERROR.to_owned()
    }
}

/// Holds a temperature value expressed in Celsius degrees (°C): the pattern
/// of a double that is always a number from -100 to 100.
#[derive(Debug, Clone, Copy)]
pub struct Temperature {
    value: u64,
}

impl Temperature {
    #[verifier::type_invariant]
    spec fn in_bounds(self) -> bool {
        is_temperature(self.value)
    }

    /// The pattern of the double held.
    pub closed spec fn view(self) -> u64 {
        self.value
    }

    /// Creates a new `Temperature` from the pattern of a double known to be
    /// valid.
    pub fn new(value: u64) -> (temperature: Self)
        requires
            is_temperature(value),
        ensures
            temperature@ == value,
    {
        Self { value }
    }

    /// Creates a new `Temperature` from the pattern of a double, or reports
    /// that it is not within -100.0 to 100.0.
    pub fn try_new(value: u64) -> (result: Result<Self, TemperatureInvalid>)
        ensures
            result is Ok <==> is_temperature(value),
            result matches Ok(temperature) ==> temperature@ == value,
            result matches Err(error) ==> error.0@ == VALIDATION_ERROR@,
    {
        if !Self::valid(value) {
            return Err(TemperatureInvalid(VALIDATION_ERROR));
        }
        Ok(Self::new(value))
    }

    /// Returns the temperature value, as the pattern of a double.
    pub fn value(&self) -> (value: u64)
        ensures
            value == self@,
            is_temperature(value),
    {
        proof {
            use_type_invariant(self);
        }
        self.value
    }

    /// Tells whether the double `value` is within -100.0 to 100.0.
    pub fn valid(value: u64) -> (ok: bool)
        ensures
            ok == is_temperature(value),
    {
        proof {
            lemma_is_temperature(value);
        }
        magnitude(value) <= MAX_TEMP
    }
}

impl Default for Temperature {
    /// Zero degrees.
    fn default() -> (temperature: Self)
        ensures
            temperature@ == 0,
    {
        proof {
            lemma_is_temperature(0);
        }
        Self { value: 0 }
    }
}

impl PartialEq for Temperature {
    /// Two temperatures are equal if they are the same number of degrees:
    /// `0.0` equals `-0.0`.
    fn eq(&self, other: &Self) -> (same: bool) {
        equal(self.value, other.value)
    }
}

impl PartialEqSpecImpl for Temperature {
    open spec fn obeys_eq_spec() -> bool {
        true
    }

    open spec fn eq_spec(&self, other: &Self) -> bool {
        same_number(self@, other@)
    }
}

} // verus!

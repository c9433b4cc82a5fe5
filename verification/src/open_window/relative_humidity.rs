//! Relative humidity as a validated percentage.

use vstd::prelude::*;

verus! {

/// What a rejected relative humidity is answered with.
pub const VALIDATION_ERROR: &'static str =
    "relative humidity should be a percentage value between 1 and 100";

/// Minimum value of relative humidity.
pub const MIN_HUMIDITY: u8 = 1;

/// Maximum value of relative humidity.
pub const MAX_HUMIDITY: u8 = 100;

/// Whether `value` is a relative humidity: a percentage from 1 to 100. Zero
/// is left out, since the dew point takes the logarithm of the humidity.
pub open spec fn is_relative_humidity(value: u8) -> bool {
    MIN_HUMIDITY <= value <= MAX_HUMIDITY
}

/// An error returned by [`RelativeHumidity::try_new`] if the value is invalid.
#[derive(Debug)]
pub struct RelativeHumidityInvalid(pub &'static str);

impl RelativeHumidityInvalid {
    /// The text that describes the error.
    pub fn message(&self) -> (text: String)
        ensures
            text@ == VALIDATION_ERROR@,
    {
        VALIDATION_ERROR.to_owned()
    }
}

/// Holds an integer value representing relative humidity expressed as
/// percentage (%), always from 1 to 100.
#[derive(Debug, Clone, Copy, PartialEq, Eq, Structural)]
pub struct RelativeHumidity {
    value: u8,
}

impl RelativeHumidity {
    #[verifier::type_invariant]
    spec fn in_bounds(self) -> bool {
        is_relative_humidity(self.value)
    }

    /// The percentage held.
    pub closed spec fn view(self) -> u8 {
        self.value
    }

    /// Creates a new `RelativeHumidity` from a value known to be valid.
    pub fn new(value: u8) -> (humidity: Self)
        requires
            is_relative_humidity(value),
        ensures
            humidity@ == value,
    {
        Self { value }
    }

    /// Creates a new `RelativeHumidity`, or reports that `value` is not within
    /// 1 to 100.
    pub fn try_new(value: u8) -> (result: Result<Self, RelativeHumidityInvalid>)
        ensures
            result is Ok <==> is_relative_humidity(value),
            result matches Ok(humidity) ==> humidity@ == value,
            result matches Err(error) ==> error.0@ == VALIDATION_ERROR@,
    {
        if !Self::valid(value) {
            return Err(RelativeHumidityInvalid(VALIDATION_ERROR));
        }
        Ok(Self::new(value))
    }

    /// Returns the relative humidity value.
    pub fn value(&self) -> (value: u8)
        ensures
            value == self@,
            is_relative_humidity(value),
    {
        proof {
            use_type_invariant(self);
        }
        self.value
    }

    /// Tells whether `value` is within 1 to 100.
    pub fn valid(value: u8) -> (ok: bool)
        ensures
            ok == is_relative_humidity(value),
    {
        MIN_HUMIDITY <= value && value <= MAX_HUMIDITY
    }
}

impl Default for RelativeHumidity {
    /// The minimum relative humidity.
    fn default() -> (humidity: Self)
        ensures
            humidity@ == MIN_HUMIDITY,
    {
        Self { value: MIN_HUMIDITY }
    }
}

} // verus!

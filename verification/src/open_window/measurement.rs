//! A temperature and a relative humidity taken together.

use vstd::prelude::*;
use vstd::std_specs::cmp::PartialEqSpecImpl;
use crate::binary64::same_number;
use super::relative_humidity::{is_relative_humidity, RelativeHumidity, RelativeHumidityInvalid};
use super::temperature::{is_temperature, Temperature, TemperatureInvalid};

verus! {

/// Holds a temperature and relative humidity values.
#[derive(Debug, Clone, Copy)]
pub struct Measurement {
    /// Temperature.
    pub temperature: Temperature,
    /// Relative humidity.
    pub relative_humidity: RelativeHumidity,
}

/// An error returned by [`Measurement::try_new`]: the reading that was
/// rejected, with its error.
#[derive(Debug)]
pub enum MeasurementInvalid {
    /// The relative humidity is not within 1 to 100.
    RelativeHumidity(RelativeHumidityInvalid),
    /// The temperature is not within -100.0 to 100.0.
    Temperature(TemperatureInvalid),
}

impl MeasurementInvalid {
    /// The text that describes the error.
    pub fn message(&self) -> (text: String)
        ensures
            self is RelativeHumidity ==> text@ == super::relative_humidity::VALIDATION_ERROR@,
            self is Temperature ==> text@ == super::temperature::VALIDATION_ERROR@,
    {
        match self {
            MeasurementInvalid::RelativeHumidity(error) => error.message(),
            MeasurementInvalid::Temperature(error) => error.message(),
        }
    }
}

impl Measurement {
    /// Validates a pair of raw readings, the relative humidity first, and
    /// puts them together. `temperature` is the pattern of a double.
    pub fn try_new(temperature: u64, relative_humidity: u8) -> (result: Result<Self, MeasurementInvalid>)
        ensures
            result is Ok <==> is_relative_humidity(relative_humidity) && is_temperature(temperature),
            result matches Ok(measurement) ==> measurement.temperature@ == temperature,
            result matches Ok(measurement) ==> measurement.relative_humidity@ == relative_humidity,
            result matches Err(MeasurementInvalid::RelativeHumidity(error)) ==> !is_relative_humidity(
                relative_humidity,
            ),
            result matches Err(MeasurementInvalid::RelativeHumidity(error)) ==> error.0@
                == super::relative_humidity::VALIDATION_ERROR@,
            result matches Err(MeasurementInvalid::Temperature(error)) ==> is_relative_humidity(
                relative_humidity,
            ),
            result matches Err(MeasurementInvalid::Temperature(error)) ==> error.0@
                == super::temperature::VALIDATION_ERROR@,
    {
        let relative_humidity = match RelativeHumidity::try_new(relative_humidity) {
            Ok(relative_humidity) => relative_humidity,
            Err(error) => {
                return Err(MeasurementInvalid::RelativeHumidity(error));
            },
        };
        let temperature = match Temperature::try_new(temperature) {
            Ok(temperature) => temperature,
            Err(error) => {
                return Err(MeasurementInvalid::Temperature(error));
            },
        };
        Ok(Measurement { temperature, relative_humidity })
    }
}

impl Default for Measurement {
    /// Zero degrees at the minimum relative humidity.
    fn default() -> (measurement: Self)
        ensures
            measurement.temperature@ == 0,
            measurement.relative_humidity@ == super::relative_humidity::MIN_HUMIDITY,
    {
        Measurement {
            temperature: Temperature::default(),
            relative_humidity: RelativeHumidity::default(),
        }
    }
}

impl PartialEq for Measurement {
    /// Two measurements are equal if they hold the same number of degrees and
    /// the same percentage.
    fn eq(&self, other: &Self) -> (same: bool) {
        self.temperature == other.temperature
            && self.relative_humidity.value() == other.relative_humidity.value()
    }
}

impl PartialEqSpecImpl for Measurement {
    open spec fn obeys_eq_spec() -> bool {
        true
    }

    open spec fn eq_spec(&self, other: &Self) -> bool {
        &&& same_number(self.temperature@, other.temperature@)
        &&& self.relative_humidity@ == other.relative_humidity@
    }
}

} // verus!

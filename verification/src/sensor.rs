//! The producer's side: from a raw sensor sample to what is published.

use vstd::prelude::*;

verus! {

/// A sample as the sensor reports it.
#[derive(Clone, Copy, Debug, PartialEq, Eq, Structural)]
pub struct RawReading {
    /// Temperature in tenths of a degree Celsius.
    pub temperature: i16,
    /// Relative humidity in tenths of a percent.
    pub humidity: u16,
}

/// A sample in the published units, held exactly: no rounding happens
/// before the value is written out.
#[derive(Clone, Copy, Debug, PartialEq, Eq, Structural)]
pub struct SensorMeasurement {
    /// Temperature in hundredths of a degree Fahrenheit.
    pub fahrenheit_hundredths: i32,
    /// Relative humidity in tenths of a percent.
    pub humidity_tenths: u16,
}

/// Hundredths of a degree Fahrenheit for `tenths_celsius` tenths of a degree
/// Celsius: `F = C * 1.8 + 32` with `C = tenths_celsius / 10`, times 100.
pub open spec fn fahrenheit_hundredths(tenths_celsius: int) -> int {
    18 * tenths_celsius + 3200
}

/// The published measurement of a raw sample.
pub open spec fn measurement_of(raw: RawReading) -> SensorMeasurement {
    SensorMeasurement {
        fahrenheit_hundredths: fahrenheit_hundredths(raw.temperature as int) as i32,
        humidity_tenths: raw.humidity,
    }
}

/// Converts a raw sample to the published units.
pub fn to_measurement(raw: RawReading) -> (m: SensorMeasurement)
    ensures
        m == measurement_of(raw),
        m.fahrenheit_hundredths == 18 * raw.temperature + 3200,
        m.humidity_tenths == raw.humidity,
{
    let celsius: i32 = raw.temperature as i32;
    SensorMeasurement { fahrenheit_hundredths: 18 * celsius + 3200, humidity_tenths: raw.humidity }
}

} // verus!

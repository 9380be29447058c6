//! Unit systems a device may report in, and the conversions that normalize a
//! raw reading for display.
//!
//! Telemetry values are carried in hundredths of a unit throughout the
//! adapter: displayed values are always rendered with two fraction digits, so
//! hundredths capture exactly what is shown. Conversions round to the nearest
//! hundredth, halves away from zero.

use vstd::prelude::*;

verus! {

/// Largest reading magnitude, in hundredths of a unit, that the adapter
/// accepts from a device snapshot.
pub const READING_LIMIT: i64 = 1_000_000_000_000;

/// Magnitude of an integer.
pub open spec fn mag(v: int) -> int {
    if v >= 0 {
        v
    } else {
        -v
    }
}

/// Nearest integer to `n / d` for non-negative `n` and positive `d`, halves
/// rounded up.
pub open spec fn round_div_nonneg(n: int, d: int) -> int
    recommends
        n >= 0,
        d > 0,
{
    (n + d / 2) / d
}

/// Nearest integer to `v * num / den`, halves rounded away from zero.
pub open spec fn scale_round(v: int, num: int, den: int) -> int
    recommends
        num > 0,
        den > 0,
{
    if v >= 0 {
        round_div_nonneg(v * num, den)
    } else {
        -round_div_nonneg(-v * num, den)
    }
}

/// `v * num / den` rounded to the nearest integer, halves away from zero.
pub fn scale_round_i64(v: i64, num: u64, den: u64) -> (r: i64)
    requires
        0 < num,
        0 < den,
        mag(v as int) * num + den <= i64::MAX,
    ensures
        r == scale_round(v as int, num as int, den as int),
        mag(r as int) * den <= mag(v as int) * num + den / 2,
{
    proof {
        assert(mag(v as int) <= mag(v as int) * num) by (nonlinear_arith)
            requires
                num >= 1,
                mag(v as int) >= 0,
        ;
    }
    let m: u64 = if v >= 0 {
        v as u64
    } else {
        (-v) as u64
    };
    let prod: u64 = m * num;
    let half: u64 = den / 2;
    let q: u64 = (prod + half) / den;
    proof {
        assert(q * den <= prod + half && q <= prod + half) by (nonlinear_arith)
            requires
                den > 0,
                prod + half >= 0,
                q == ((prod + half) as int) / (den as int),
        ;
    }
    if v >= 0 {
        q as i64
    } else {
        -(q as i64)
    }
}

/// The unit system a device's temperature telemetry arrives in, resolved
/// from the device's quirk; Celsius absent any quirk.
#[derive(Clone, Copy, Debug, PartialEq, Eq, Structural)]
pub enum TemperatureUnits {
    Celsius,
    Fahrenheit,
}

impl TemperatureUnits {
    /// Celsius value, in hundredths, of a raw reading (hundredths) reported
    /// in these units.
    pub open spec fn spec_from_reading_to_celsius(self, reading: int) -> int {
        match self {
            TemperatureUnits::Celsius => reading,
            TemperatureUnits::Fahrenheit => scale_round(reading - 3200, 5, 9),
        }
    }

    /// Normalizes a raw reading to Celsius hundredths.
    pub fn from_reading_to_celsius(self, reading: i64) -> (r: i64)
        requires
            mag(reading as int) <= READING_LIMIT,
        ensures
            r == self.spec_from_reading_to_celsius(reading as int),
            mag(r as int) <= READING_LIMIT + 3200,
    {
        match self {
            TemperatureUnits::Celsius => reading,
            TemperatureUnits::Fahrenheit => scale_round_i64(reading - 3200, 5, 9),
        }
    }
}

/// Celsius hundredths to Fahrenheit hundredths.
pub open spec fn spec_ctof(c: int) -> int {
    scale_round(c, 9, 5) + 3200
}

/// Converts a Celsius value, in hundredths, to Fahrenheit hundredths.
pub fn ctof(c: i64) -> (r: i64)
    requires
        mag(c as int) <= READING_LIMIT + 3200,
    ensures
        r == spec_ctof(c as int),
        mag(r as int) <= 2 * READING_LIMIT + 9600,
{
    scale_round_i64(c, 9, 5) + 3200
}

/// The register a device's humidity telemetry arrives in, resolved from the
/// device's quirk; relative percent absent any quirk.
#[derive(Clone, Copy, Debug, PartialEq, Eq, Structural)]
pub enum HumidityUnits {
    /// The reading already is a relative-humidity percentage.
    RelativePercent,
    /// The device reports through an absolute-humidity register that holds
    /// hundredths of a relative percent: dividing the reading by one hundred
    /// yields the relative percentage.
    AbsoluteHundredths,
}

impl HumidityUnits {
    /// Relative-percent value, in hundredths, of a raw reading (hundredths)
    /// reported in these units.
    pub open spec fn spec_from_reading_to_relative_percent(self, reading: int) -> int {
        match self {
            HumidityUnits::RelativePercent => reading,
            HumidityUnits::AbsoluteHundredths => scale_round(reading, 1, 100),
        }
    }

    /// Normalizes a raw reading to relative-percent hundredths.
    pub fn from_reading_to_relative_percent(self, reading: i64) -> (r: i64)
        requires
            mag(reading as int) <= READING_LIMIT,
        ensures
            r == self.spec_from_reading_to_relative_percent(reading as int),
            mag(r as int) <= READING_LIMIT,
    {
        match self {
            HumidityUnits::RelativePercent => reading,
            HumidityUnits::AbsoluteHundredths => scale_round_i64(reading, 1, 100),
        }
    }
}

} // verus!

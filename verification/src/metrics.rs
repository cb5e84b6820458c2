//! Derived metrics: the fixed conversion formulas that consumers apply to
//! raw converter samples.
//!
//! The converter is 12-bit against a 3.3 V reference, so one sample maps to
//! `raw * 3_300_000 / 4096` microvolts.  The die-temperature sensor is
//! linear: 0.706 V at 27 degrees Celsius, falling 1721 microvolts per
//! degree.  The calibration reading is rescaled as `(raw + 1) / 128`.
//! All results are integers in milli-units (millidegrees Celsius,
//! thousandths of the rescaled value), truncated toward zero, so that the
//! formulas stay exact; rendering them with a decimal point is the display
//! collaborator's business.

use vstd::prelude::*;

verus! {

/// Largest value the 12-bit converter can produce.
pub const ADC_MAX: u16 = 4095;

/// Number of conversion steps of the 12-bit converter.
pub const ADC_STEPS: u64 = 4096;

/// Full-scale reading in microvolts (3.3 V reference).
pub const FULL_SCALE_MICROVOLTS: u64 = 3_300_000;

/// Die-sensor voltage at the reference temperature, in microvolts.
pub const SENSOR_OFFSET_MICROVOLTS: u64 = 706_000;

/// Die-sensor slope: microvolts per degree Celsius (the sensor voltage
/// falls as the die warms).
pub const SENSOR_SLOPE_MICROVOLTS: u64 = 1721;

/// Reference temperature of the die sensor, in millidegrees Celsius.
pub const SENSOR_OFFSET_MILLICELSIUS: i32 = 27_000;

/// Voltage seen by the converter for a given raw sample, in microvolts.
pub open spec fn spec_microvolts(raw: int) -> int {
    raw * FULL_SCALE_MICROVOLTS / ADC_STEPS as int
}

/// Die temperature for a raw sample, in millidegrees Celsius, truncated
/// toward zero.  Written over the distance from the sensor's offset
/// voltage so that every division has a nonnegative numerator.
pub open spec fn spec_die_temp_millicelsius(raw: int) -> int {
    let uv = spec_microvolts(raw);
    if uv >= SENSOR_OFFSET_MICROVOLTS {
        SENSOR_OFFSET_MILLICELSIUS
            - (uv - SENSOR_OFFSET_MICROVOLTS) * 1000 / SENSOR_SLOPE_MICROVOLTS as int
    } else {
        SENSOR_OFFSET_MILLICELSIUS
            + (SENSOR_OFFSET_MICROVOLTS - uv) * 1000 / SENSOR_SLOPE_MICROVOLTS as int
    }
}

/// The calibration rescaling `(raw + 1) / 128`, in thousandths, truncated.
pub open spec fn spec_calibration_scaled_milli(raw: int) -> int {
    (raw + 1) * 1000 / 128
}

/// Die temperature in millidegrees Celsius for one raw die-sensor sample.
pub fn die_temp_millicelsius(raw: u16) -> (t: i32)
    requires
        raw <= ADC_MAX,
    ensures
        t == spec_die_temp_millicelsius(raw as int),
{
    let uv: u64 = raw as u64 * FULL_SCALE_MICROVOLTS / ADC_STEPS;
    if uv >= SENSOR_OFFSET_MICROVOLTS {
        let fall: u64 = (uv - SENSOR_OFFSET_MICROVOLTS) * 1000 / SENSOR_SLOPE_MICROVOLTS;
        SENSOR_OFFSET_MILLICELSIUS - fall as i32
    } else {
        let rise: u64 = (SENSOR_OFFSET_MICROVOLTS - uv) * 1000 / SENSOR_SLOPE_MICROVOLTS;
        SENSOR_OFFSET_MILLICELSIUS + rise as i32
    }
}

/// The calibration rescaling in thousandths: `(raw + 1) * 1000 / 128`.
pub fn calibration_scaled_milli(raw: u16) -> (s: u32)
    ensures
        s == spec_calibration_scaled_milli(raw as int),
{
    (raw as u32 + 1) * 1000 / 128
}

/// Both values a display consumer derives from the latest broadcasts.
#[derive(Clone, Copy, Debug, PartialEq, Eq, Structural)]
pub struct DisplayReadings {
    /// Die temperature in millidegrees Celsius.
    pub die_temp_milli: i32,
    /// Rescaled calibration average, in thousandths.
    pub calibration_scale_milli: u32,
}

/// Everything the display consumer computes from one die-sensor sample and
/// one calibration average; layout and rendering stay with the display.
pub fn display_metrics(temp_raw: u16, calibration_avg: u16) -> (r: DisplayReadings)
    requires
        temp_raw <= ADC_MAX,
    ensures
        r.die_temp_milli == spec_die_temp_millicelsius(temp_raw as int),
        r.calibration_scale_milli == spec_calibration_scaled_milli(calibration_avg as int),
{
    DisplayReadings {
        die_temp_milli: die_temp_millicelsius(temp_raw),
        calibration_scale_milli: calibration_scaled_milli(calibration_avg),
    }
}

} // verus!

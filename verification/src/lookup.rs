//! Linearization entries for Hall-effect sensors.
//!
//! An [`Entry`] bundles the calibration thresholds of one ADC configuration
//! with the parameters of its raw-code to signed-distance linearization.
//! Entries are pure data, selected once per ADC mode; every channel running
//! in the same mode shares the same entry values.

use vstd::prelude::*;

use crate::decimal::{dec_rep, u16_dec};

verus! {

/// Largest distance magnitude an entry may produce.
///
/// Bounding the linearization output keeps the whole kinematics chain
/// (distance, velocity, acceleration, jerk) inside `i16`: velocity stays
/// within twice this bound, acceleration within twice, and jerk within four
/// times, which still fits.
pub const DISTANCE_LIMIT: i16 = 8191;

/// Thresholds and linearization range of one ADC configuration.
///
/// Raw readings live in the sensor's ADC code space; distances are signed,
/// zero at the calibrated rest position, positive in the press direction.
#[derive(Clone, Copy, Debug, PartialEq, Eq, Structural)]
pub struct Entry {
    /// Smallest reading for which the sensor is considered working.
    pub min_ok_value: u16,
    /// Largest reading for which the sensor is considered working.
    pub max_ok_value: u16,
    /// Raw code of the nominal rest position.
    pub sensor_zero: u16,
    /// Lower edge of the idle band used to detect a resting sensor.
    pub min_idle_value: u16,
    /// Upper edge of the idle band used to detect a resting sensor.
    pub max_idle_value: u16,
    /// Smallest distance the linearization may report.
    pub dist_min: i16,
    /// Largest distance the linearization may report.
    pub dist_max: i16,
}

impl Entry {
    /// Well-formedness of an entry: the idle band lies inside the working
    /// range and contains the rest position, the band is narrow enough for
    /// a zero-point offset to fit in `i16`, and the distance range respects
    /// [`DISTANCE_LIMIT`].
    pub open spec fn wf(self) -> bool {
        &&& self.min_ok_value <= self.min_idle_value
        &&& self.min_idle_value <= self.sensor_zero
        &&& self.sensor_zero <= self.max_idle_value
        &&& self.max_idle_value <= self.max_ok_value
        &&& self.max_idle_value - self.min_idle_value <= i16::MAX
        &&& -DISTANCE_LIMIT <= self.dist_min
        &&& self.dist_min <= self.dist_max
        &&& self.dist_max <= DISTANCE_LIMIT
    }

    /// Distance reported for a raw `value` under the runtime zero-point
    /// `raw_offset`: the reading is shifted so the calibrated rest position
    /// maps to distance 0, then clamped to the entry's distance range.
    pub open spec fn lookup_spec(self, value: u16, raw_offset: i16) -> int {
        let rel = value - raw_offset - self.sensor_zero;
        if rel < self.dist_min {
            self.dist_min as int
        } else if rel > self.dist_max {
            self.dist_max as int
        } else {
            rel
        }
    }

    /// Linearize a raw reading into a signed distance.
    pub fn lookup(&self, value: u16, raw_offset: i16) -> (d: i16)
        requires
            self.wf(),
        ensures
            d == self.lookup_spec(value, raw_offset),
            -DISTANCE_LIMIT <= d <= DISTANCE_LIMIT,
    {
        let rel: i32 = value as i32 - raw_offset as i32 - self.sensor_zero as i32;
        if rel < self.dist_min as i32 {
            self.dist_min
        } else if rel > self.dist_max as i32 {
            self.dist_max
        } else {
            rel as i16
        }
    }
}

/// The rendering produced by [`print_minimal_entry`]: one line per
/// threshold field of the entry.
pub open spec fn entry_summary(e: Entry) -> Seq<char> {
    "min_ok_value: "@ + dec_rep(e.min_ok_value as nat) + "\n"@ + "max_ok_value: "@ + dec_rep(
        e.max_ok_value as nat,
    ) + "\n"@ + "sensor_zero: "@ + dec_rep(e.sensor_zero as nat) + "\n"@ + "min_idle_value: "@
        + dec_rep(e.min_idle_value as nat) + "\n"@ + "max_idle_value: "@ + dec_rep(
        e.max_idle_value as nat,
    ) + "\n"@
}

/// Render the threshold fields of an entry, one `name: value` line each.
pub fn print_minimal_entry(entry: &Entry) -> (s: String)
    ensures
        s@ == entry_summary(*entry),
{
    let mut s = String::new();
    s.append("min_ok_value: ");
    s.append(u16_dec(entry.min_ok_value).as_str());
    s.append("\n");
    s.append("max_ok_value: ");
    s.append(u16_dec(entry.max_ok_value).as_str());
    s.append("\n");
    s.append("sensor_zero: ");
    s.append(u16_dec(entry.sensor_zero).as_str());
    s.append("\n");
    s.append("min_idle_value: ");
    s.append(u16_dec(entry.min_idle_value).as_str());
    s.append("\n");
    s.append("max_idle_value: ");
    s.append(u16_dec(entry.max_idle_value).as_str());
    s.append("\n");
    proof {
        assert(s@ =~= entry_summary(*entry));
    }
    s
}

/// Entry for a silo Hall-effect sensor on a 12-bit ADC at 4x gain: the
/// narrow high-resolution configuration used by the normal and low-latency
/// modes.
pub fn silo_atsam4s_lc605_gain_4x() -> (e: Entry)
    ensures
        e.wf(),
        e == (Entry {
            min_ok_value: 1000u16,
            max_ok_value: 4095u16,
            sensor_zero: 2500u16,
            min_idle_value: 2300u16,
            max_idle_value: 2800u16,
            dist_min: -2500i16,
            dist_max: 1600i16,
        }),
{
    Entry {
        min_ok_value: 1000,
        max_ok_value: 4095,
        sensor_zero: 2500,
        min_idle_value: 2300,
        max_idle_value: 2800,
        dist_min: -2500,
        dist_max: 1600,
    }
}

/// Entry for a silo Hall-effect sensor on a 12-bit ADC at 2x gain: the
/// wider-range configuration used by the diagnostic test mode.
pub fn silo_atsam4s_lc605_gain_2x() -> (e: Entry)
    ensures
        e.wf(),
        e == (Entry {
            min_ok_value: 500u16,
            max_ok_value: 4095u16,
            sensor_zero: 1250u16,
            min_idle_value: 1150u16,
            max_idle_value: 1400u16,
            dist_min: -1250i16,
            dist_max: 2800i16,
        }),
{
    Entry {
        min_ok_value: 500,
        max_ok_value: 4095,
        sensor_zero: 1250,
        min_idle_value: 1150,
        max_idle_value: 1400,
        dist_min: -1250,
        dist_max: 2800,
    }
}

} // verus!

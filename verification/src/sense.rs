//! Per-channel signal processing for one Hall-effect sensor.
//!
//! A channel is driven by feeding raw ADC readings to [`SenseData::add`].
//! Each reading passes through four stages:
//!
//! 1. [`RawData`] smooths the reading into a running average and counts how
//!    long the average has rested inside the mode's idle band.
//! 2. When the channel is stable, the zero-point offset is recalibrated and
//!    the status becomes [`CalibrationStatus::MagnetDetected`].
//! 3. A reading below the mode's minimum working value immediately drops the
//!    status back to [`CalibrationStatus::NotReady`].
//! 4. While calibrated, a fresh [`SenseAnalysis`] is derived: distance from
//!    the linearization entry, velocity/acceleration/jerk from the previous
//!    analysis, and the key state from the hysteresis thresholds.
//!
//! Every stage is written as a spec function over the channel value, and each
//! executable step is proved equal to its spec.

use vstd::prelude::*;

use crate::lookup::{Entry, DISTANCE_LIMIT};

verus! {

/// Number of samples a fresh channel must rest in the idle band before the
/// fast fallback calibration may use a raw reading as the zero point.
pub const MIN_IDLE_LIMIT: usize = 5;

/// Processing mode of the sensor: selects the linearization entry and the
/// behaviour of downstream event generation.
#[derive(Clone, Copy, Debug, PartialEq, Eq, Structural)]
pub enum SensorMode {
    /// Reduced-precision diagnostic mode with a wider-range entry.
    Test(Entry),
    /// Low latency mode (same analysis as `Normal`; fewer events downstream).
    LowLatency(Entry),
    /// Normal scanning mode.
    Normal(Entry),
}

impl SensorMode {
    /// The linearization entry selected by this mode.
    pub open spec fn entry_spec(self) -> Entry {
        match self {
            SensorMode::Test(entry) => entry,
            SensorMode::LowLatency(entry) => entry,
            SensorMode::Normal(entry) => entry,
        }
    }

    /// A mode is well-formed when its entry is.
    pub open spec fn wf(self) -> bool {
        self.entry_spec().wf()
    }

    /// Borrow the linearization entry of this mode.
    pub fn entry(&self) -> (e: &Entry)
        ensures
            *e == self.entry_spec(),
    {
        match self {
            SensorMode::Test(entry) => entry,
            SensorMode::LowLatency(entry) => entry,
            SensorMode::Normal(entry) => entry,
        }
    }
}

/// Calibration status of a channel. Only [`CalibrationStatus::MagnetDetected`]
/// allows analysis output; the remaining variants describe why a channel is
/// not usable yet.
#[derive(Clone, Copy, Debug, PartialEq, Eq, Structural)]
pub enum CalibrationStatus {
    /// Still determining the sensor state after power-on or a signal loss.
    NotReady,
    /// Reading of 0: no sensor appears to be connected (test mode only).
    SensorMissing,
    /// Reading above the working range: sensor or magnet fault (test mode only).
    SensorBroken,
    /// Reading below the idle band but still plausible (test mode only).
    SensorLow,
    /// Magnet present and zero point calibrated: analysis is live.
    MagnetDetected,
    /// Magnet mounted with the wrong polarity (test mode only).
    MagnetWrongPole,
    /// Queried with an index outside the collection.
    InvalidIndex,
}

/// Cheap per-sample recheck of an already-established calibration: a reading
/// below the working minimum forces the status back to
/// [`CalibrationStatus::NotReady`], anything else leaves it untouched.
pub open spec fn calibration_step(cal: CalibrationStatus, reading: u16, e: Entry) -> CalibrationStatus {
    if reading < e.min_ok_value {
        CalibrationStatus::NotReady
    } else {
        cal
    }
}

impl CalibrationStatus {
    /// Re-validate the status against a fresh reading.
    /// Returns whether the channel is (still) calibrated.
    pub fn update_calibration(&mut self, reading: u16, mode: SensorMode) -> (r: bool)
        ensures
            *final(self) == calibration_step(*old(self), reading, mode.entry_spec()),
            r == (*final(self) == CalibrationStatus::MagnetDetected),
    {
        let entry = mode.entry();
        if reading < entry.min_ok_value {
            *self = CalibrationStatus::NotReady;
        }
        self.is_calibrated()
    }

    /// Whether the channel is ready to produce analysis output.
    pub fn is_calibrated(&self) -> (r: bool)
        ensures
            r == (*self == CalibrationStatus::MagnetDetected),
    {
        matches!(self, CalibrationStatus::MagnetDetected)
    }
}

/// Latched state of a key, counting scan cycles since the last change.
#[derive(Clone, Copy, Debug, PartialEq, Eq, Structural)]
pub enum KeyState {
    /// Past the activation point.
    On {
        /// Cycles since the last state change.
        cycles_since_state_change: u32,
    },
    /// Past the deactivation point (or never activated).
    Off {
        /// Cycles since the last state change.
        cycles_since_state_change: u32,
    },
}

/// Increment a cycle counter without wrapping.
pub open spec fn saturating_inc(c: u32) -> u32 {
    if c == u32::MAX {
        u32::MAX
    } else {
        (c + 1) as u32
    }
}

/// Hysteresis step of the key state machine: an `Off` key turns `On` when
/// the distance reaches `activation`, an `On` key turns `Off` when the
/// distance falls to `deactivation`; otherwise the state is kept and its
/// cycle counter incremented (saturating).
pub open spec fn key_state_step(prev: KeyState, distance: int, activation: i16, deactivation: i16) -> KeyState {
    match prev {
        KeyState::On { cycles_since_state_change } => {
            if distance <= deactivation {
                KeyState::Off { cycles_since_state_change: 0u32 }
            } else {
                KeyState::On { cycles_since_state_change: saturating_inc(cycles_since_state_change) }
            }
        },
        KeyState::Off { cycles_since_state_change } => {
            if distance >= activation {
                KeyState::On { cycles_since_state_change: 0u32 }
            } else {
                KeyState::Off { cycles_since_state_change: saturating_inc(cycles_since_state_change) }
            }
        },
    }
}

/// Division by two rounding toward zero, the rounding of Rust's `/` on
/// signed integers.
pub open spec fn half_toward_zero(x: int) -> int {
    if x >= 0 {
        x / 2
    } else {
        -((-x) / 2)
    }
}

/// Derived kinematics and key state of one channel, replaced wholesale on
/// every calibrated sample.
///
/// With a constant unit time step between samples:
/// distance `d` is the linearized reading, `v = d - d_prev`,
/// `a = (v - v_prev) / 2`, `j = a - a_prev`. The omitted `/ 3` on jerk is a
/// documented simplification: thresholds consuming jerk must be multiplied
/// by 3 to compensate.
#[derive(Clone, Copy, Debug)]
pub struct SenseAnalysis {
    /// Threshold state.
    pub state: KeyState,
    /// Distance value (linearized, zero-point adjusted).
    pub distance: i16,
    /// Velocity: difference of the last two distances.
    pub velocity: i16,
    /// Acceleration: halved difference of the last two velocities.
    pub acceleration: i16,
    /// Jerk: difference of the last two accelerations (times 3).
    pub jerk: i16,
}

impl SenseAnalysis {
    /// Bounds that every stored analysis satisfies; they keep the next
    /// kinematics step free of `i16` overflow.
    pub open spec fn bounded(self) -> bool {
        &&& -DISTANCE_LIMIT <= self.distance <= DISTANCE_LIMIT
        &&& -2 * DISTANCE_LIMIT <= self.velocity <= 2 * DISTANCE_LIMIT
        &&& -2 * DISTANCE_LIMIT <= self.acceleration <= 2 * DISTANCE_LIMIT
    }

    /// The analysis derived from the channel's current reading and its
    /// previous analysis.
    pub open spec fn new_spec(d: SenseData) -> SenseAnalysis {
        let distance = d.mode.entry_spec().lookup_spec(d.data.value, d.raw_offset);
        let velocity = distance - d.analysis.distance;
        let acceleration = half_toward_zero(velocity - d.analysis.velocity);
        let jerk = acceleration - d.analysis.acceleration;
        SenseAnalysis {
            state: key_state_step(d.analysis.state, distance, d.activation, d.deactivation),
            distance: distance as i16,
            velocity: velocity as i16,
            acceleration: acceleration as i16,
            jerk: jerk as i16,
        }
    }

    /// Derive the next analysis from the channel's current raw value.
    pub fn new(data: &SenseData) -> (r: SenseAnalysis)
        requires
            data.wf(),
        ensures
            r == SenseAnalysis::new_spec(*data),
            r.bounded(),
    {
        let entry = data.mode.entry();
        let distance: i16 = entry.lookup(data.data.value, data.raw_offset);

        let state: KeyState = match data.analysis.state {
            KeyState::On { cycles_since_state_change } => {
                if distance <= data.deactivation {
                    KeyState::Off { cycles_since_state_change: 0 }
                } else {
                    KeyState::On {
                        cycles_since_state_change: if cycles_since_state_change == u32::MAX {
                            u32::MAX
                        } else {
                            cycles_since_state_change + 1
                        },
                    }
                }
            },
            KeyState::Off { cycles_since_state_change } => {
                if distance >= data.activation {
                    KeyState::On { cycles_since_state_change: 0 }
                } else {
                    KeyState::Off {
                        cycles_since_state_change: if cycles_since_state_change == u32::MAX {
                            u32::MAX
                        } else {
                            cycles_since_state_change + 1
                        },
                    }
                }
            },
        };

        let velocity: i16 = distance - data.analysis.distance;
        let vdiff: i32 = velocity as i32 - data.analysis.velocity as i32;
        let acceleration: i16 = if vdiff >= 0 {
            ((vdiff as u32) / 2) as i16
        } else {
            -((((-vdiff) as u32) / 2) as i16)
        };
        let jerk: i16 = acceleration - data.analysis.acceleration;
        SenseAnalysis { state, distance, velocity, acceleration, jerk }
    }

    /// The analysis of a channel with no usable history: zero kinematics,
    /// key off, with a sentinel cycle count meaning "no state change seen".
    pub open spec fn null_spec() -> SenseAnalysis {
        SenseAnalysis {
            state: KeyState::Off { cycles_since_state_change: u32::MAX },
            distance: 0i16,
            velocity: 0i16,
            acceleration: 0i16,
            jerk: 0i16,
        }
    }

    /// Null entry: no valid reading yet.
    pub fn null() -> (r: SenseAnalysis)
        ensures
            r == SenseAnalysis::null_spec(),
            r.bounded(),
    {
        SenseAnalysis {
            state: KeyState::Off { cycles_since_state_change: u32::MAX },
            distance: 0,
            velocity: 0,
            acceleration: 0,
            jerk: 0,
        }
    }
}

/// Raw sample filter of one channel: the last reading, a running average,
/// and the number of consecutive samples whose average rested in the idle
/// band.
#[derive(Clone, Copy, Debug)]
pub struct RawData {
    /// Last raw sample.
    pub value: u16,
    /// Exponentially smoothed value, weight one half.
    pub average: u16,
    /// Consecutive samples with the average inside the idle band.
    pub idle_count: u32,
}

/// One smoothing step of the running average.
pub open spec fn avg_step(average: u16, value: u16) -> u16 {
    ((average + value) / 2) as u16
}

/// Idle counting step: the counter advances (saturating) while the average
/// rests inside the entry's idle band and resets to 0 the instant it leaves.
pub open spec fn idle_step(average: u16, idle_count: u32, e: Entry) -> u32 {
    if e.min_idle_value <= average && average <= e.max_idle_value {
        saturating_inc(idle_count)
    } else {
        0u32
    }
}

/// Full filter step: smooth the reading, advance the idle counter, and —
/// once the counter exceeds `idle_limit` — report the stable average and
/// reset the counter.
pub open spec fn raw_update_spec(d: RawData, value: u16, idle_limit: usize, e: Entry) -> (RawData, Option<u16>) {
    let average = avg_step(d.average, value);
    let idle = idle_step(average, d.idle_count, e);
    if idle > idle_limit as u32 {
        (RawData { value, average, idle_count: 0u32 }, Some(average))
    } else {
        (RawData { value, average, idle_count: idle }, None)
    }
}

impl RawData {
    /// The all-zero filter state.
    pub open spec fn new_spec() -> RawData {
        RawData { value: 0u16, average: 0u16, idle_count: 0u32 }
    }

    /// Create a fresh filter.
    pub fn new() -> (r: Self)
        ensures
            r == RawData::new_spec(),
    {
        Self { value: 0, average: 0, idle_count: 0 }
    }

    /// Record a new reading.
    ///
    /// Updates the running average, advances the idle counter while the
    /// average stays inside the mode's idle band, and — once the counter
    /// exceeds `IDLE_LIMIT` — returns the settled average as a fresh
    /// zero-point candidate and resets the counter.
    pub fn update<const IDLE_LIMIT: usize>(&mut self, value: u16, mode: SensorMode) -> (r: Option<u16>)
        ensures
            *final(self) == raw_update_spec(*old(self), value, IDLE_LIMIT, mode.entry_spec()).0,
            r == raw_update_spec(*old(self), value, IDLE_LIMIT, mode.entry_spec()).1,
    {
        self.value = value;
        self.average = ((self.average as u32 + value as u32) / 2) as u16;

        let entry = mode.entry();
        if self.average >= entry.min_idle_value && self.average <= entry.max_idle_value {
            self.idle_count = if self.idle_count == u32::MAX {
                u32::MAX
            } else {
                self.idle_count + 1
            };
        } else {
            self.idle_count = 0;
        }

        if self.idle_count > IDLE_LIMIT as u32 {
            self.idle_count = 0;
            Some(self.average)
        } else {
            None
        }
    }

    /// The last raw reading.
    pub fn value(&self) -> (r: u16)
        ensures
            r == self.value,
    {
        self.value
    }

    /// The current running average.
    pub fn average(&self) -> (r: u16)
        ensures
            r == self.average,
    {
        self.average
    }

    /// Reset the filter, used when transitioning between modes.
    pub fn reset(&mut self)
        ensures
            *final(self) == RawData::new_spec(),
    {
        self.value = 0;
        self.average = 0;
        self.idle_count = 0;
    }
}

impl Default for RawData {
    /// Same as [`RawData::new`].
    fn default() -> (r: Self)
        ensures
            r == RawData::new_spec(),
    {
        Self::new()
    }
}

/// Complete state of one key channel: raw filter, calibration status,
/// derived analysis, the runtime zero-point offset, and the channel's
/// configuration (mode and hysteresis thresholds).
#[derive(Clone, Copy, Debug)]
pub struct SenseData {
    /// Analysis of the last calibrated sample.
    pub analysis: SenseAnalysis,
    /// Calibration status of the sensor.
    pub cal: CalibrationStatus,
    /// Raw sample filter.
    pub data: RawData,
    /// Runtime-calibrated zero point, as an offset from the entry's
    /// `sensor_zero` (compensates temperature and humidity drift).
    pub raw_offset: i16,
    /// Processing mode and linearization entry.
    pub mode: SensorMode,
    /// Activation point (distance, push direction).
    ///
    /// An activation below the deactivation point (reverse-polarity magnet
    /// wiring) is deliberately not handled: the hysteresis then has no
    /// stable band, and the key-state machine may oscillate.
    pub activation: i16,
    /// Deactivation point (distance, release direction).
    pub deactivation: i16,
}

/// Channel state after the calibration stages of one reading, before any
/// analysis is derived: the raw filter has stepped; a settled average (or,
/// for a channel still `NotReady`, a raw reading strictly inside the idle
/// band held for more than [`MIN_IDLE_LIMIT`] samples) recalibrates the zero
/// point and marks the magnet detected; a reading below the working minimum
/// then drops the status to `NotReady` regardless.
pub open spec fn add_precheck(d: SenseData, reading: u16, idle_limit: usize) -> SenseData {
    let e = d.mode.entry_spec();
    let step = raw_update_spec(d.data, reading, idle_limit, e);
    let cal_off: (CalibrationStatus, i16) = match step.1 {
        Option::Some(average) => (CalibrationStatus::MagnetDetected, (average - e.sensor_zero) as i16),
        Option::None => {
            if d.cal == CalibrationStatus::NotReady && reading > e.min_idle_value && reading
                < e.max_idle_value && step.0.idle_count > MIN_IDLE_LIMIT as u32 {
                (CalibrationStatus::MagnetDetected, (reading - e.sensor_zero) as i16)
            } else {
                (d.cal, d.raw_offset)
            }
        },
    };
    SenseData {
        analysis: d.analysis,
        cal: calibration_step(cal_off.0, reading, e),
        data: step.0,
        raw_offset: cal_off.1,
        mode: d.mode,
        activation: d.activation,
        deactivation: d.deactivation,
    }
}

/// Channel state after a whole [`SenseData::add`] call: on a calibrated
/// channel the analysis is rederived; a channel that lost calibration while
/// its key was `On` is forced to the null analysis (so the release is
/// observable); otherwise the analysis is kept.
pub open spec fn add_spec(d: SenseData, reading: u16, idle_limit: usize) -> SenseData {
    let d2 = add_precheck(d, reading, idle_limit);
    if d2.cal == CalibrationStatus::MagnetDetected {
        SenseData {
            analysis: SenseAnalysis::new_spec(d2),
            cal: d2.cal,
            data: d2.data,
            raw_offset: d2.raw_offset,
            mode: d2.mode,
            activation: d2.activation,
            deactivation: d2.deactivation,
        }
    } else if d2.analysis.state is On {
        SenseData {
            analysis: SenseAnalysis::null_spec(),
            cal: d2.cal,
            data: d2.data,
            raw_offset: d2.raw_offset,
            mode: d2.mode,
            activation: d2.activation,
            deactivation: d2.deactivation,
        }
    } else {
        d2
    }
}

/// Whether [`SenseData::add`] reports an updated channel for this reading:
/// it does exactly when the channel ends up calibrated, or when a key that
/// was `On` must publish its forced release.
pub open spec fn add_reports(d: SenseData, reading: u16, idle_limit: usize) -> bool {
    let d2 = add_precheck(d, reading, idle_limit);
    d2.cal == CalibrationStatus::MagnetDetected || d2.analysis.state is On
}

impl SenseData {
    /// Well-formedness of a channel: its mode's entry is well-formed and the
    /// stored analysis is bounded.
    pub open spec fn wf(self) -> bool {
        &&& self.mode.wf()
        &&& self.analysis.bounded()
    }

    /// The initial state of a channel: null analysis, not ready, zero filter.
    pub open spec fn new_spec(mode: SensorMode, activation: i16, deactivation: i16) -> SenseData {
        SenseData {
            analysis: SenseAnalysis::null_spec(),
            cal: CalibrationStatus::NotReady,
            data: RawData::new_spec(),
            raw_offset: 0i16,
            mode,
            activation,
            deactivation,
        }
    }

    /// Create a new channel.
    /// - `mode`: sensor mode
    /// - `activation`: activation point (distance, push direction)
    /// - `deactivation`: deactivation point (distance, release direction)
    pub fn new(mode: SensorMode, activation: i16, deactivation: i16) -> (r: SenseData)
        requires
            mode.wf(),
        ensures
            r == SenseData::new_spec(mode, activation, deactivation),
            r.wf(),
    {
        SenseData {
            analysis: SenseAnalysis::null(),
            cal: CalibrationStatus::NotReady,
            data: RawData::new(),
            raw_offset: 0,  // ignored while NotReady
            mode,
            activation,
            deactivation,
        }
    }

    /// Add a new sensor reading.
    ///
    /// Returns the updated channel once the sensor is calibrated and within
    /// the expected range, or when a pending press had to be released; `None`
    /// when nothing observable changed.
    pub fn add<const IDLE_LIMIT: usize>(&mut self, reading: u16) -> (r: Option<&SenseData>)
        requires
            old(self).wf(),
        ensures
            *final(self) == add_spec(*old(self), reading, IDLE_LIMIT),
            final(self).wf(),
            (r is Some) == add_reports(*old(self), reading, IDLE_LIMIT),
            r matches Some(d) ==> *d == add_spec(*old(self), reading, IDLE_LIMIT),
    {
        let entry: Entry = *self.mode.entry();
        if let Some(average) = self.data.update::<IDLE_LIMIT>(reading, self.mode) {
            // A new stable minimum: recalibrate the zero point against the
            // precomputed entry. The settled average is inside the idle band,
            // so the offset fits in an `i16`.
            self.raw_offset = (average as i32 - entry.sensor_zero as i32) as i16;
            self.cal = CalibrationStatus::MagnetDetected;
        } else if self.cal == CalibrationStatus::NotReady && reading > entry.min_idle_value
            && reading < entry.max_idle_value && self.data.idle_count > MIN_IDLE_LIMIT as u32 {
            // Fast fallback so the keyboard is usable immediately: take the
            // raw reading itself as the zero point; the averaged calibration
            // will refine it later.
            self.raw_offset = (reading as i32 - entry.sensor_zero as i32) as i16;
            self.cal = CalibrationStatus::MagnetDetected;
        }

        // Make sure the incoming value doesn't break the calibration.
        if self.cal.update_calibration(reading, self.mode) {
            self.analysis = SenseAnalysis::new(self);
            Some(self)
        } else {
            // If the key was active before, deactivate it and report it once.
            match self.analysis.state {
                KeyState::On { .. } => {
                    self.analysis = SenseAnalysis::null();
                    Some(self)
                },
                _ => None,
            }
        }
    }

    /// Current sensor analysis, available only while calibrated.
    pub fn analysis(&self) -> (r: Option<&SenseAnalysis>)
        ensures
            self.cal == CalibrationStatus::MagnetDetected ==> (r matches Some(a) && *a
                == self.analysis),
            self.cal != CalibrationStatus::MagnetDetected ==> r is None,
    {
        if self.cal.is_calibrated() {
            Some(&self.analysis)
        } else {
            None
        }
    }

    /// Current sensor calibration status.
    pub fn calibration(&self) -> (r: CalibrationStatus)
        ensures
            r == self.cal,
    {
        self.cal
    }

    /// Current raw sensor data.
    pub fn data(&self) -> (r: &RawData)
        ensures
            *r == self.data,
    {
        &self.data
    }

    /// Raw offset value.
    pub fn raw_offset(&self) -> (r: i16)
        ensures
            r == self.raw_offset,
    {
        self.raw_offset
    }

    /// Current sensor mode.
    pub fn mode(&self) -> (r: SensorMode)
        ensures
            r == self.mode,
    {
        self.mode
    }

    /// Current activation point.
    pub fn activation(&self) -> (r: i16)
        ensures
            r == self.activation,
    {
        self.activation
    }

    /// Current deactivation point.
    pub fn deactivation(&self) -> (r: i16)
        ensures
            r == self.deactivation,
    {
        self.deactivation
    }

    /// Update the activation/deactivation points.
    pub fn update_activation(&mut self, activation: i16, deactivation: i16)
        ensures
            *final(self) == (SenseData { activation, deactivation, ..*old(self) }),
    {
        self.activation = activation;
        self.deactivation = deactivation;
    }

    /// Change the sensor mode. Pair with [`RawData::reset`] when switching,
    /// so averaging windows of different modes are not mixed.
    pub fn update_mode(&mut self, mode: SensorMode)
        requires
            mode.wf(),
        ensures
            *final(self) == (SenseData { mode, ..*old(self) }),
            old(self).wf() ==> final(self).wf(),
    {
        self.mode = mode;
    }

    /// Detailed calibration status, for diagnostics and calibration tooling;
    /// normal scanning only needs [`CalibrationStatus::update_calibration`].
    pub fn detailed_calibration(&self) -> (r: CalibrationStatus)
        ensures
            r == detailed_calibration_spec(self.cal, *self),
    {
        self.cal.detailed_calibration(self)
    }
}

/// Diagnostic classification of an uncalibrated channel. In test mode the
/// wider ADC range distinguishes missing, broken, low and wrong-pole
/// sensors; the optimized production modes can only tell a low sensor apart.
pub open spec fn detailed_calibration_spec(cal: CalibrationStatus, d: SenseData) -> CalibrationStatus {
    if cal == CalibrationStatus::MagnetDetected {
        cal
    } else {
        match d.mode {
            SensorMode::Test(entry) => {
                if d.data.value == 0 {
                    CalibrationStatus::SensorMissing
                } else if d.data.value > entry.max_ok_value {
                    CalibrationStatus::SensorBroken
                } else if d.data.value < entry.min_ok_value {
                    CalibrationStatus::MagnetWrongPole
                } else if d.data.value < entry.min_idle_value {
                    CalibrationStatus::SensorLow
                } else {
                    CalibrationStatus::NotReady
                }
            },
            SensorMode::LowLatency(entry) => {
                if d.data.value < entry.min_idle_value {
                    CalibrationStatus::SensorLow
                } else {
                    CalibrationStatus::NotReady
                }
            },
            SensorMode::Normal(entry) => {
                if d.data.value < entry.min_idle_value {
                    CalibrationStatus::SensorLow
                } else {
                    CalibrationStatus::NotReady
                }
            },
        }
    }
}

impl CalibrationStatus {
    /// Detailed calibration status of a channel (see
    /// [`SenseData::detailed_calibration`]).
    pub fn detailed_calibration(&self, data: &SenseData) -> (r: CalibrationStatus)
        ensures
            r == detailed_calibration_spec(*self, *data),
    {
        match self {
            CalibrationStatus::MagnetDetected => *self,
            _ => {
                match &data.mode {
                    // More detailed analysis due to the additional ADC range.
                    SensorMode::Test(entry) => {
                        if data.data.value == 0 {
                            CalibrationStatus::SensorMissing
                        } else if data.data.value > entry.max_ok_value {
                            CalibrationStatus::SensorBroken
                        } else if data.data.value < entry.min_ok_value {
                            CalibrationStatus::MagnetWrongPole
                        } else if data.data.value < entry.min_idle_value {
                            CalibrationStatus::SensorLow
                        } else {
                            CalibrationStatus::NotReady
                        }
                    },
                    // Simplified analysis due to the optimized ADC range.
                    SensorMode::LowLatency(entry) | SensorMode::Normal(entry) => {
                        if data.data.value < entry.min_idle_value {
                            CalibrationStatus::SensorLow
                        } else {
                            CalibrationStatus::NotReady
                        }
                    },
                }
            },
        }
    }
}

} // verus!

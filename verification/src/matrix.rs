//! Strobe sequencer for a Hall-effect sensor matrix.
//!
//! [`Matrix`] owns `CSIZE` output lines and an embedded
//! [`Sensors<MSIZE>`](crate::sensors::Sensors) collection. Each scan cycle
//! the caller advances the strobe, lets the lines settle, samples one row
//! with its ADC driver, and records the readings. The ADC reading itself is
//! handled separately, as acquisition (oneshot, interrupt or DMA based) is
//! hardware specific.

use vstd::prelude::*;

use crate::sense::{add_reports, add_spec, CalibrationStatus, SenseData, SensorMode};
use crate::sensors::{SensorError, Sensors};

verus! {

/// One strobe output line, implemented by the caller over its own GPIO
/// driver. Driving a line may fail with a caller-defined error type; the
/// matrix propagates such failures verbatim and promises nothing about the
/// electrical outcome of a drive call.
pub trait OutputLine {
    /// Error reported by the line driver.
    type Error;

    /// Drive the line high.
    fn set_high(&mut self) -> Result<(), Self::Error>;

    /// Drive the line low.
    fn set_low(&mut self) -> Result<(), Self::Error>;
}

/// The strobe index following `cur`, wrapping from `csize - 1` to 0.
pub open spec fn next_strobe_index(cur: usize, csize: usize) -> usize {
    if cur >= csize - 1 {
        0usize
    } else {
        (cur + 1) as usize
    }
}

/// Strobe sequencer over `CSIZE` output lines feeding `MSIZE` sense
/// channels.
///
/// `INVERT_STROBE` selects the polarity: when true the lines are active
/// low (idle = drive high, active = drive low), as with P-channel MOSFET
/// strobes; when false they are active high.
pub struct Matrix<C: OutputLine, const CSIZE: usize, const MSIZE: usize, const INVERT_STROBE: bool> {
    /// Strobe lines, one per matrix column.
    pub cols: [C; CSIZE],
    /// Currently active strobe index; always below `CSIZE`.
    pub cur_strobe: usize,
    /// Sense channels fed by this matrix.
    pub sensors: Sensors<MSIZE>,
}

impl<C: OutputLine, const CSIZE: usize, const MSIZE: usize, const INVERT_STROBE: bool> Matrix<
    C,
    CSIZE,
    MSIZE,
    INVERT_STROBE,
> {
    /// Well-formedness: the strobe position is in range and the embedded
    /// collection is well-formed.
    pub open spec fn wf(self) -> bool {
        &&& self.cur_strobe < CSIZE
        &&& self.sensors.wf()
    }

    /// Create a matrix bound to a fixed set of output lines, with every
    /// channel sharing the given mode and hysteresis thresholds. The strobe
    /// position starts at the last line, so the first advance yields line 0.
    pub fn new(cols: [C; CSIZE], mode: SensorMode, activation: i16, deactivation: i16) -> (r:
        Result<Self, SensorError>)
        requires
            CSIZE >= 1,
            mode.wf(),
        ensures
            r matches Ok(m) && m.wf() && m.cur_strobe == CSIZE - 1 && m.cols == cols && forall|
                i: int,
            |
                0 <= i < MSIZE ==> (#[trigger] m.sensors.sensors@[i]) == SenseData::new_spec(
                    mode,
                    activation,
                    deactivation,
                ),
    {
        let sensors = match Sensors::new(mode, activation, deactivation) {
            Ok(sensors) => sensors,
            Err(e) => {
                return Err(e);
            },
        };
        let res = Self { cols, cur_strobe: CSIZE - 1, sensors };
        Ok(res)
    }

    /// Drive every strobe line idle and reset the strobe position to the
    /// last element (so the next advance starts at 0).
    ///
    /// A line-driver failure is propagated immediately and leaves the strobe
    /// position untouched; the sense channels are never affected.
    pub fn clear(&mut self) -> (r: Result<(), C::Error>)
        requires
            old(self).wf(),
        ensures
            final(self).wf(),
            final(self).sensors == old(self).sensors,
            r is Ok ==> final(self).cur_strobe == CSIZE - 1,
            r is Err ==> final(self).cur_strobe == old(self).cur_strobe,
    {
        let mut i: usize = 0;
        while i < CSIZE
            invariant
                old(self).wf(),
                i <= CSIZE,
                self.cur_strobe == old(self).cur_strobe,
                self.sensors == old(self).sensors,
            decreases CSIZE - i,
        {
            let drive = if INVERT_STROBE {
                self.cols[i].set_high()
            } else {
                self.cols[i].set_low()
            };
            if let Err(e) = drive {
                return Err(e);
            }
            i = i + 1;
        }
        self.cur_strobe = CSIZE - 1;
        Ok(())
    }

    /// Deactivate the current strobe line, advance with wraparound, activate
    /// the new line and return its index.
    ///
    /// On a driver failure the error is propagated: the strobe position is
    /// then either still the old one (the deactivation failed) or already
    /// advanced (the activation failed); the sense channels are never
    /// affected.
    pub fn next_strobe(&mut self) -> (r: Result<usize, C::Error>)
        requires
            old(self).wf(),
        ensures
            final(self).wf(),
            final(self).sensors == old(self).sensors,
            r matches Ok(i) ==> final(self).cur_strobe == next_strobe_index(
                old(self).cur_strobe,
                CSIZE,
            ) && i == final(self).cur_strobe,
            r is Err ==> final(self).cur_strobe == old(self).cur_strobe || final(self).cur_strobe
                == next_strobe_index(old(self).cur_strobe, CSIZE),
    {
        // Unset the current strobe.
        let unset = if INVERT_STROBE {
            self.cols[self.cur_strobe].set_high()
        } else {
            self.cols[self.cur_strobe].set_low()
        };
        if let Err(e) = unset {
            return Err(e);
        }

        // Advance, checking the roll-over condition.
        if self.cur_strobe >= CSIZE - 1 {
            self.cur_strobe = 0;
        } else {
            self.cur_strobe = self.cur_strobe + 1;
        }

        // Set the new strobe.
        let set = if INVERT_STROBE {
            self.cols[self.cur_strobe].set_low()
        } else {
            self.cols[self.cur_strobe].set_high()
        };
        if let Err(e) = set {
            return Err(e);
        }

        Ok(self.cur_strobe)
    }

    /// Currently active strobe index.
    pub fn strobe(&self) -> (r: usize)
        ensures
            r == self.cur_strobe,
    {
        self.cur_strobe
    }

    /// Record an ADC Hall-effect reading for the given sense index.
    ///
    /// `IDLE_LIMIT` is the number of samples inside the configured idle band
    /// before the sensor is considered settled.
    pub fn record<const IDLE_LIMIT: usize>(&mut self, index: usize, value: u16) -> (r: Result<
        Option<&SenseData>,
        SensorError,
    >)
        requires
            old(self).wf(),
        ensures
            final(self).wf(),
            final(self).cur_strobe == old(self).cur_strobe,
            index < MSIZE ==> {
                &&& final(self).sensors.sensors@ == old(self).sensors.sensors@.update(
                    index as int,
                    add_spec(old(self).sensors.sensors@[index as int], value, IDLE_LIMIT),
                )
                &&& r matches Ok(o)
                &&& (r matches Ok(o) ==> (o is Some) == add_reports(
                    old(self).sensors.sensors@[index as int],
                    value,
                    IDLE_LIMIT,
                ))
                &&& (r matches Ok(o) && o matches Some(d) ==> *d
                    == final(self).sensors.sensors@[index as int])
            },
            index >= MSIZE ==> {
                &&& final(self).sensors == old(self).sensors
                &&& r matches Err(e) && e == SensorError::InvalidSensor(index)
            },
    {
        self.sensors.add::<IDLE_LIMIT>(index, value)
    }

    /// Current [`SenseData`] for the given index, or `None` for an index
    /// outside the matrix.
    pub fn state(&self, index: usize) -> (r: Option<Result<&SenseData, SensorError>>)
        requires
            self.wf(),
        ensures
            index >= MSIZE ==> r is None,
            index < MSIZE && self.sensors.sensors@[index as int].cal != CalibrationStatus::NotReady
                ==> (r matches Some(q) && q matches Ok(d) && *d
                == self.sensors.sensors@[index as int]),
            index < MSIZE && self.sensors.sensors@[index as int].cal == CalibrationStatus::NotReady
                ==> (r matches Some(q) && q matches Err(e) && e == SensorError::CalibrationError(
                self.sensors.sensors@[index as int],
            )),
    {
        if index >= self.sensors.len() {
            None
        } else {
            Some(self.sensors.get_data(index))
        }
    }
}

} // verus!

//! Fixed-capacity collection of sense channels.
//!
//! [`Sensors<S>`] owns exactly `S` channels, created once with a uniform
//! mode and uniform hysteresis thresholds. The index of a channel is its
//! stable identity for the collection's whole lifetime, and all channels
//! share one mode at any instant (ADC reconfiguration is global, not
//! per-channel).

use vstd::prelude::*;

use crate::sense::{add_reports, add_spec, CalibrationStatus, SenseData, SensorMode};

verus! {

/// Errors of the sensor collection and the strobe matrix.
#[derive(Clone, Copy, Debug)]
pub enum SensorError {
    /// Channel not yet calibrated; carries a snapshot of the channel.
    /// Recoverable and expected during warm-up: treat as "no reading yet".
    CalibrationError(SenseData),
    /// The fixed-capacity backing store could not be sized at construction.
    FailedToResize(usize),
    /// Index outside the valid channel range; signals a wiring bug.
    InvalidSensor(usize),
    /// Mode queried on an empty collection.
    NoSensors,
}

/// Fixed-size collection of exactly `S` sense channels.
pub struct Sensors<const S: usize> {
    /// Channels of this collection; always exactly `S` of them.
    pub sensors: Vec<SenseData>,
}

impl<const S: usize> Sensors<S> {
    /// Well-formedness: exactly `S` channels, each well-formed, all sharing
    /// one sensor mode.
    pub open spec fn wf(self) -> bool {
        &&& self.sensors@.len() == S
        &&& forall|i: int| 0 <= i < S ==> (#[trigger] self.sensors@[i]).wf()
        &&& forall|i: int| 0 <= i < S ==> (#[trigger] self.sensors@[i]).mode == self.sensors@[0].mode
    }

    /// Initialize the full sensor array with identical configuration.
    /// - `mode`: sensor mode
    /// - `activation`: activation point (distance, push direction)
    /// - `deactivation`: deactivation point (distance, release direction)
    pub fn new(mode: SensorMode, activation: i16, deactivation: i16) -> (r: Result<
        Sensors<S>,
        SensorError,
    >)
        requires
            mode.wf(),
        ensures
            r matches Ok(s) && s.wf() && forall|i: int|
                0 <= i < S ==> (#[trigger] s.sensors@[i]) == SenseData::new_spec(
                    mode,
                    activation,
                    deactivation,
                ),
    {
        let mut sensors: Vec<SenseData> = Vec::new();
        let mut i: usize = 0;
        while i < S
            invariant
                mode.wf(),
                i <= S,
                sensors@.len() == i,
                forall|j: int|
                    0 <= j < i ==> (#[trigger] sensors@[j]) == SenseData::new_spec(
                        mode,
                        activation,
                        deactivation,
                    ),
            decreases S - i,
        {
            sensors.push(SenseData::new(mode, activation, deactivation));
            i = i + 1;
        }
        Ok(Sensors { sensors })
    }

    /// Add a sense reading for a specific channel.
    ///
    /// Forwards the reading to the channel's own
    /// [`add`](SenseData::add); an index outside `[0, S)` leaves the
    /// collection untouched and reports `InvalidSensor`.
    pub fn add<const IDLE_LIMIT: usize>(&mut self, index: usize, reading: u16) -> (r: Result<
        Option<&SenseData>,
        SensorError,
    >)
        requires
            old(self).wf(),
        ensures
            final(self).wf(),
            index < S ==> {
                &&& final(self).sensors@ == old(self).sensors@.update(
                    index as int,
                    add_spec(old(self).sensors@[index as int], reading, IDLE_LIMIT),
                )
                &&& r matches Ok(o)
                &&& (o is Some) == add_reports(old(self).sensors@[index as int], reading, IDLE_LIMIT)
                &&& (r matches Ok(o) && o matches Some(d) ==> *d == final(self).sensors@[index as int])
            },
            index >= S ==> {
                &&& *final(self) == *old(self)
                &&& r matches Err(e) && e == SensorError::InvalidSensor(index)
            },
    {
        if index < self.sensors.len() {
            Ok(self.sensors[index].add::<IDLE_LIMIT>(reading))
        } else {
            Err(SensorError::InvalidSensor(index))
        }
    }

    /// Look up a channel, failing while it has not yet calibrated.
    pub fn get_data(&self, index: usize) -> (r: Result<&SenseData, SensorError>)
        requires
            self.wf(),
        ensures
            index < S && self.sensors@[index as int].cal != CalibrationStatus::NotReady ==> (
            r matches Ok(d) && *d == self.sensors@[index as int]),
            index < S && self.sensors@[index as int].cal == CalibrationStatus::NotReady ==> (
            r matches Err(e) && e == SensorError::CalibrationError(self.sensors@[index as int])),
            index >= S ==> (r matches Err(e) && e == SensorError::InvalidSensor(index)),
    {
        if index < self.sensors.len() {
            if self.sensors[index].cal == CalibrationStatus::NotReady {
                Err(SensorError::CalibrationError(self.sensors[index]))
            } else {
                Ok(&self.sensors[index])
            }
        } else {
            Err(SensorError::InvalidSensor(index))
        }
    }

    /// Max number of sensors.
    pub fn len(&self) -> (r: usize)
        ensures
            r == S,
    {
        S
    }

    /// Whether the collection holds no channels at all.
    pub fn is_empty(&self) -> (r: bool)
        ensures
            r == (S == 0),
    {
        S == 0
    }

    /// Retrieve the mode from the first entry.
    ///
    /// Modes generally require ADC configuration, and switching modes per
    /// sensor is usually infeasible, so all channels share one mode and the
    /// first stands for all of them.
    pub fn mode(&self) -> (r: Result<SensorMode, SensorError>)
        requires
            self.wf(),
        ensures
            S == 0 ==> (r matches Err(e) && e == SensorError::NoSensors),
            S > 0 ==> (r matches Ok(m) && m == self.sensors@[0].mode),
    {
        if self.is_empty() {
            return Err(SensorError::NoSensors);
        }
        Ok(self.sensors[0].mode())
    }

    /// Update all channels to use the given mode.
    ///
    /// The raw filters are not reset; mode switches should be paired with a
    /// reset by the caller to avoid mixing averaging windows across modes.
    pub fn update_mode(&mut self, mode: SensorMode)
        requires
            old(self).wf(),
            mode.wf(),
        ensures
            final(self).wf(),
            final(self).sensors@.len() == S,
            forall|i: int|
                0 <= i < S ==> (#[trigger] final(self).sensors@[i]) == (SenseData {
                    mode,
                    ..old(self).sensors@[i]
                }),
    {
        let mut i: usize = 0;
        while i < S
            invariant
                old(self).wf(),
                mode.wf(),
                i <= S,
                self.sensors@.len() == S,
                forall|j: int|
                    0 <= j < i ==> (#[trigger] self.sensors@[j]) == (SenseData {
                        mode,
                        ..old(self).sensors@[j]
                    }),
                forall|j: int| i <= j < S ==> (#[trigger] self.sensors@[j]) == old(self).sensors@[j],
            decreases S - i,
        {
            self.sensors[i].update_mode(mode);
            i = i + 1;
        }
    }
}

} // verus!

//! Translation of channel analysis into trigger events.
//!
//! A downstream trigger layer consumes discrete switch events
//! (press/hold/release/off) and analog events (distance, velocity,
//! acceleration, jerk). [`SenseData::trigger_events`] derives the events a
//! channel's current analysis justifies, and [`convert`] lifts an analog
//! event into a capability run for the trigger layer.

use vstd::prelude::*;

use crate::matrix::{Matrix, OutputLine};
use crate::sense::{CalibrationStatus, KeyState, SenseData, SensorMode};

verus! {

/// Press/hold/release/off phase of a switch event.
#[derive(Clone, Copy, Debug, PartialEq, Eq, Structural)]
pub enum Phro {
    /// The key crossed the activation point this cycle.
    Press,
    /// The key stays activated.
    Hold,
    /// The key crossed the deactivation point this cycle.
    Release,
    /// The key stays deactivated.
    Off,
}

/// One event derived from a channel's analysis.
#[derive(Clone, Copy, Debug, PartialEq, Eq, Structural)]
pub enum TriggerEvent {
    /// Discrete switch event.
    Switch {
        /// Phase of the switch.
        state: Phro,
        /// Channel index.
        index: u16,
        /// Cycles since the last state change.
        last_state: u32,
    },
    /// Analog distance event.
    AnalogDistance {
        /// Channel index.
        index: u16,
        /// Distance value.
        val: i16,
    },
    /// Analog velocity event.
    AnalogVelocity {
        /// Channel index.
        index: u16,
        /// Velocity value.
        val: i16,
    },
    /// Analog acceleration event.
    AnalogAcceleration {
        /// Channel index.
        index: u16,
        /// Acceleration value.
        val: i16,
    },
    /// Analog jerk event.
    AnalogJerk {
        /// Channel index.
        index: u16,
        /// Jerk value.
        val: i16,
    },
}

/// Payload of a capability run.
#[derive(Clone, Copy, Debug, PartialEq, Eq, Structural)]
pub enum CapabilityEvent {
    /// No event attached.
    Empty,
    /// The triggering event, passed through unchanged.
    Passthrough(TriggerEvent),
}

/// Action handed to the trigger layer.
#[derive(Clone, Copy, Debug, PartialEq, Eq, Structural)]
pub enum CapabilityRun {
    /// Forward an analog event.
    Analog {
        /// The event being forwarded.
        state: CapabilityEvent,
    },
    /// Do nothing.
    NoOp {
        /// Why nothing is done.
        state: CapabilityEvent,
    },
}

/// The switch event a channel's key state justifies: a fresh `On` is a
/// press, a held `On` a hold, a fresh `Off` a release, and a stale `Off` an
/// off event — the latter only when off events are not ignored.
pub open spec fn switch_events_spec(d: SenseData, index: u16, ignore_off: bool) -> Seq<
    TriggerEvent,
> {
    match d.analysis.state {
        KeyState::On { cycles_since_state_change } => {
            if cycles_since_state_change == 0 {
                seq![TriggerEvent::Switch { state: Phro::Press, index, last_state: 0u32 }]
            } else {
                seq![
                    TriggerEvent::Switch {
                        state: Phro::Hold,
                        index,
                        last_state: cycles_since_state_change,
                    },
                ]
            }
        },
        KeyState::Off { cycles_since_state_change } => {
            if cycles_since_state_change == 0 {
                seq![TriggerEvent::Switch { state: Phro::Release, index, last_state: 0u32 }]
            } else if !ignore_off {
                seq![
                    TriggerEvent::Switch {
                        state: Phro::Off,
                        index,
                        last_state: cycles_since_state_change,
                    },
                ]
            } else {
                Seq::empty()
            }
        },
    }
}

/// The analog events a channel justifies: in test and normal mode, one
/// event per kinematic quantity whenever the key moved (or off events are
/// ignored, as during forced scans); low-latency mode emits none.
pub open spec fn analog_events_spec(d: SenseData, index: u16, ignore_off: bool) -> Seq<
    TriggerEvent,
> {
    match d.mode {
        SensorMode::LowLatency(_) => Seq::empty(),
        _ => {
            if d.analysis.velocity != 0 || ignore_off {
                seq![
                    TriggerEvent::AnalogDistance { index, val: d.analysis.distance },
                    TriggerEvent::AnalogVelocity { index, val: d.analysis.velocity },
                    TriggerEvent::AnalogAcceleration { index, val: d.analysis.acceleration },
                    TriggerEvent::AnalogJerk { index, val: d.analysis.jerk },
                ]
            } else {
                Seq::empty()
            }
        },
    }
}

/// All events a channel justifies this cycle: nothing while uncalibrated,
/// otherwise its switch event followed by its analog events.
pub open spec fn trigger_events_spec(d: SenseData, index: u16, ignore_off: bool) -> Seq<
    TriggerEvent,
> {
    if d.cal == CalibrationStatus::MagnetDetected {
        switch_events_spec(d, index, ignore_off) + analog_events_spec(d, index, ignore_off)
    } else {
        Seq::empty()
    }
}

impl SenseData {
    /// The trigger events justified by this channel's current analysis.
    ///
    /// Only a calibrated channel produces events. `ignore_off` suppresses
    /// the off event of a key resting deactivated and forces the analog
    /// events out even without movement. `MAX_EVENTS` bounds the event
    /// count per call; one switch event and four analog events is the most
    /// a channel can produce.
    pub fn trigger_events<const MAX_EVENTS: usize>(&self, index: usize, ignore_off: bool) -> (r:
        Vec<TriggerEvent>)
        requires
            MAX_EVENTS >= 5,
        ensures
            r@ == trigger_events_spec(*self, index as u16, ignore_off),
            r@.len() <= MAX_EVENTS,
    {
        let mut events: Vec<TriggerEvent> = Vec::new();
        let index: u16 = #[verifier::truncate] (index as u16);

        // Only create events if the sensor is calibrated.
        if self.cal == CalibrationStatus::MagnetDetected {
            // Handle on/off events.
            match self.analysis.state {
                KeyState::On { cycles_since_state_change } => {
                    if cycles_since_state_change == 0 {
                        events.push(
                            TriggerEvent::Switch { state: Phro::Press, index, last_state: 0 },
                        );
                    } else {
                        events.push(
                            TriggerEvent::Switch {
                                state: Phro::Hold,
                                index,
                                last_state: cycles_since_state_change,
                            },
                        );
                    }
                },
                KeyState::Off { cycles_since_state_change } => {
                    if cycles_since_state_change == 0 {
                        events.push(
                            TriggerEvent::Switch { state: Phro::Release, index, last_state: 0 },
                        );
                    } else if !ignore_off {
                        // Off events matter only when the caller asked for them.
                        events.push(
                            TriggerEvent::Switch {
                                state: Phro::Off,
                                index,
                                last_state: cycles_since_state_change,
                            },
                        );
                    }
                },
            }

            // Handle analog events.
            match self.mode {
                SensorMode::LowLatency(_) => {},
                _ => {
                    if self.analysis.velocity != 0 || ignore_off {
                        events.push(TriggerEvent::AnalogDistance { index, val: self.analysis.distance });
                        events.push(TriggerEvent::AnalogVelocity { index, val: self.analysis.velocity });
                        events.push(
                            TriggerEvent::AnalogAcceleration { index, val: self.analysis.acceleration },
                        );
                        events.push(TriggerEvent::AnalogJerk { index, val: self.analysis.jerk });
                    }
                },
            }
        }
        assert(events@ =~= trigger_events_spec(*self, index, ignore_off));
        events
    }
}

impl<C: OutputLine, const CSIZE: usize, const MSIZE: usize, const INVERT_STROBE: bool> Matrix<
    C,
    CSIZE,
    MSIZE,
    INVERT_STROBE,
> {
    /// Generate the events of one channel, with off events suppressed.
    /// Useful when trying to determine whether a key has not been pressed.
    pub fn generate_events<const MAX_EVENTS: usize>(&self, index: usize) -> (r: Vec<TriggerEvent>)
        requires
            self.wf(),
            MAX_EVENTS >= 5,
        ensures
            index < MSIZE && self.sensors.sensors@[index as int].cal != CalibrationStatus::NotReady
                ==> r@ == trigger_events_spec(
                self.sensors.sensors@[index as int],
                index as u16,
                true,
            ),
            !(index < MSIZE && self.sensors.sensors@[index as int].cal
                != CalibrationStatus::NotReady) ==> r@ == Seq::<TriggerEvent>::empty(),
    {
        if let Some(state) = self.state(index) {
            if let Ok(data) = state {
                return data.trigger_events::<MAX_EVENTS>(index, true);
            }
        }
        Vec::new()
    }
}

/// The capability run for an analog trigger event: analog events pass
/// through unchanged; any other event yields a no-op.
pub open spec fn convert_spec(event: TriggerEvent) -> CapabilityRun {
    match event {
        TriggerEvent::AnalogDistance { .. } => CapabilityRun::Analog {
            state: CapabilityEvent::Passthrough(event),
        },
        TriggerEvent::AnalogVelocity { .. } => CapabilityRun::Analog {
            state: CapabilityEvent::Passthrough(event),
        },
        TriggerEvent::AnalogAcceleration { .. } => CapabilityRun::Analog {
            state: CapabilityEvent::Passthrough(event),
        },
        TriggerEvent::AnalogJerk { .. } => CapabilityRun::Analog {
            state: CapabilityEvent::Passthrough(event),
        },
        _ => CapabilityRun::NoOp { state: CapabilityEvent::Empty },
    }
}

/// Convert an analog [`TriggerEvent`] into a passthrough
/// [`CapabilityRun::Analog`].
///
/// The event should be one of `AnalogDistance`, `AnalogVelocity`,
/// `AnalogAcceleration` or `AnalogJerk`; anything else yields
/// [`CapabilityRun::NoOp`].
pub fn convert(event: TriggerEvent) -> (r: CapabilityRun)
    ensures
        r == convert_spec(event),
{
    match event {
        TriggerEvent::AnalogDistance { .. }
        | TriggerEvent::AnalogVelocity { .. }
        | TriggerEvent::AnalogAcceleration { .. }
        | TriggerEvent::AnalogJerk { .. } => CapabilityRun::Analog {
            state: CapabilityEvent::Passthrough(event),
        },
        _ => CapabilityRun::NoOp { state: CapabilityEvent::Empty },
    }
}

} // verus!

//! Analog key-sensing core for magnetic (Hall-effect) keyboards.
//!
//! The crate turns a stream of raw ADC samples into calibrated per-key
//! distance, velocity, acceleration and jerk, and derives discrete
//! press/release events through hysteresis:
//!
//! * [`lookup`] — linearization entries mapping raw sensor codes to signed
//!   distances, together with the calibration thresholds of each ADC mode.
//! * [`sense`] — per-channel signal processing: raw-sample filtering,
//!   calibration status, kinematics and the key-state machine.
//! * [`sensors`] — a fixed-capacity collection of sense channels addressed
//!   by index.
//! * [`matrix`] — the strobe sequencer that cycles the sensor matrix one
//!   output line at a time.
//! * [`events`] — translation of a channel's analysis into trigger events
//!   for a downstream layer.
//! * [`laws`] — proved statements about calibration and release behaviour.
//! * [`decimal`] — verified decimal rendering used to report thresholds.
//! * [`emitter`] — output-format selection for layout tooling.
//!
//! The ADC acquisition itself is the caller's concern: the caller strobes a
//! line, samples a row, and hands each `(index, raw value)` pair to
//! [`matrix::Matrix::record`] or [`sensors::Sensors::add`].

pub mod decimal;
pub mod emitter;
pub mod events;
pub mod laws;
pub mod lookup;
pub mod matrix;
pub mod sense;
pub mod sensors;

pub use lookup::{print_minimal_entry, Entry};
pub use sense::{CalibrationStatus, KeyState, RawData, SenseAnalysis, SenseData, SensorMode, MIN_IDLE_LIMIT};
pub use sensors::{SensorError, Sensors};
pub use matrix::{Matrix, OutputLine};
pub use events::{CapabilityEvent, CapabilityRun, Phro, TriggerEvent};
pub use emitter::EmitterType;

//! Proved statements about the channel state machine.
//!
//! These laws relate whole call sequences rather than single calls: they
//! are stated over the spec step functions that the executable methods are
//! proved equal to, so each law carries over to the running code.

use vstd::prelude::*;

use crate::sense::{
    add_reports, add_spec, key_state_step, saturating_inc, CalibrationStatus, KeyState,
    SenseAnalysis, SenseData, MIN_IDLE_LIMIT,
};

verus! {

/// Channel state after feeding the same reading `n` times in a row (one
/// [`SenseData::add`](crate::sense::SenseData::add) call per sample).
pub open spec fn feed_constant(d: SenseData, reading: u16, n: nat, idle_limit: usize) -> SenseData
    decreases n,
{
    if n == 0 {
        d
    } else {
        add_spec(feed_constant(d, reading, (n - 1) as nat, idle_limit), reading, idle_limit)
    }
}

/// Induction workhorse for [`lemma_idle_calibration`]: while a channel is
/// fed a constant strictly in-band reading, its average stays in the idle
/// band, its mode is untouched, and it is either already calibrated or its
/// idle counter has kept pace with the number of samples (which caps the
/// number of `NotReady` samples at [`MIN_IDLE_LIMIT`]).
proof fn lemma_feed_constant_invariant(d: SenseData, reading: u16, n: nat, idle_limit: usize)
    requires
        d.mode.wf(),
        d.cal == CalibrationStatus::NotReady,
        d.mode.entry_spec().min_idle_value <= d.data.average <= d.mode.entry_spec().max_idle_value,
        d.mode.entry_spec().min_idle_value < reading < d.mode.entry_spec().max_idle_value,
        n <= u32::MAX,
    ensures
        feed_constant(d, reading, n, idle_limit).mode == d.mode,
        d.mode.entry_spec().min_idle_value <= feed_constant(d, reading, n, idle_limit).data.average
            <= d.mode.entry_spec().max_idle_value,
        feed_constant(d, reading, n, idle_limit).cal == CalibrationStatus::MagnetDetected || (
        feed_constant(d, reading, n, idle_limit).cal == CalibrationStatus::NotReady
            && feed_constant(d, reading, n, idle_limit).data.idle_count >= n && n
            <= MIN_IDLE_LIMIT),
    decreases n,
{
    if n > 0 {
        lemma_feed_constant_invariant(d, reading, (n - 1) as nat, idle_limit);
    }
}

/// Idle calibration: a `NotReady` channel whose running average rests in
/// the idle band becomes `MagnetDetected` after more than
/// [`MIN_IDLE_LIMIT`] constant samples strictly inside the band —
/// whatever `IDLE_LIMIT` the caller scans with.
pub proof fn lemma_idle_calibration(d: SenseData, reading: u16, n: nat, idle_limit: usize)
    requires
        d.mode.wf(),
        d.cal == CalibrationStatus::NotReady,
        d.mode.entry_spec().min_idle_value <= d.data.average <= d.mode.entry_spec().max_idle_value,
        d.mode.entry_spec().min_idle_value < reading < d.mode.entry_spec().max_idle_value,
        MIN_IDLE_LIMIT < n <= u32::MAX,
    ensures
        feed_constant(d, reading, n, idle_limit).cal == CalibrationStatus::MagnetDetected,
{
    lemma_feed_constant_invariant(d, reading, n, idle_limit);
}

/// Recalibration loss: once `MagnetDetected`, a single reading below the
/// mode's minimum working value reverts the status to `NotReady` on that
/// same call.
pub proof fn lemma_recalibration_loss(d: SenseData, reading: u16, idle_limit: usize)
    requires
        d.cal == CalibrationStatus::MagnetDetected,
        reading < d.mode.entry_spec().min_ok_value,
    ensures
        add_spec(d, reading, idle_limit).cal == CalibrationStatus::NotReady,
{
}

/// On-release guarantee: a channel whose key is `On` and which loses its
/// calibration on the next sample still reports that sample (rather than
/// staying silent), and what it reports is the null analysis — so the
/// release is observable downstream.
pub proof fn lemma_on_release(d: SenseData, reading: u16, idle_limit: usize)
    requires
        d.analysis.state is On,
        reading < d.mode.entry_spec().min_ok_value,
    ensures
        add_reports(d, reading, idle_limit),
        add_spec(d, reading, idle_limit).analysis == SenseAnalysis::null_spec(),
        add_spec(d, reading, idle_limit).analysis.state is Off,
{
}

/// Hysteresis: the key state flips `Off` to `On{0}` exactly when the
/// distance reaches the activation point, flips `On` to `Off{0}` exactly
/// when it falls to the deactivation point, and otherwise keeps its state
/// with the cycle counter incremented (saturating).
pub proof fn lemma_hysteresis(prev: KeyState, distance: int, activation: i16, deactivation: i16)
    ensures
        (prev matches KeyState::Off { .. } && distance >= activation) ==> key_state_step(
            prev,
            distance,
            activation,
            deactivation,
        ) == (KeyState::On { cycles_since_state_change: 0u32 }),
        prev matches KeyState::Off { cycles_since_state_change: c } ==> (distance < activation
            ==> key_state_step(prev, distance, activation, deactivation) == (KeyState::Off {
            cycles_since_state_change: saturating_inc(c),
        })),
        (prev matches KeyState::On { .. } && distance <= deactivation) ==> key_state_step(
            prev,
            distance,
            activation,
            deactivation,
        ) == (KeyState::Off { cycles_since_state_change: 0u32 }),
        prev matches KeyState::On { cycles_since_state_change: c } ==> (distance > deactivation
            ==> key_state_step(prev, distance, activation, deactivation) == (KeyState::On {
            cycles_since_state_change: saturating_inc(c),
        })),
{
}

} // verus!

// Tests of trigger-event generation and of the analog capability
// conversion.

use kiibohd_hall_effect::lookup;
use kiibohd_hall_effect::{
    CapabilityEvent, CapabilityRun, EmitterType, KeyState, Phro, SensorMode, Sensors,
    TriggerEvent,
};
use kiibohd_hall_effect::events::convert;

const ACTIVATION: i16 = 1000;
const DEACTIVATION: i16 = 800;
const IDLE_LIMIT: usize = 50;

fn calibrated_sensors(mode: SensorMode) -> Sensors<1> {
    let mut sensors = Sensors::<1>::new(mode, ACTIVATION, DEACTIVATION).unwrap();
    for _ in 0..9 {
        sensors.add::<IDLE_LIMIT>(0, 2600).unwrap();
    }
    sensors
}

#[test]
fn press_emits_switch_and_analog() {
    let mut sensors =
        calibrated_sensors(SensorMode::Normal(lookup::silo_atsam4s_lc605_gain_4x()));

    // Distance 1050 crosses the activation point: velocity 1050,
    // acceleration 525, jerk 525.
    sensors.add::<IDLE_LIMIT>(0, 3650).unwrap();
    let d = sensors.get_data(0).unwrap();
    let events = d.trigger_events::<10>(0, false);
    assert_eq!(
        events,
        vec![
            TriggerEvent::Switch { state: Phro::Press, index: 0, last_state: 0 },
            TriggerEvent::AnalogDistance { index: 0, val: 1050 },
            TriggerEvent::AnalogVelocity { index: 0, val: 1050 },
            TriggerEvent::AnalogAcceleration { index: 0, val: 525 },
            TriggerEvent::AnalogJerk { index: 0, val: 525 },
        ]
    );
}

#[test]
fn hold_without_movement_emits_no_analog() {
    let mut sensors =
        calibrated_sensors(SensorMode::Normal(lookup::silo_atsam4s_lc605_gain_4x()));
    sensors.add::<IDLE_LIMIT>(0, 3650).unwrap();
    sensors.add::<IDLE_LIMIT>(0, 3650).unwrap();
    let d = sensors.get_data(0).unwrap();

    // Velocity is 0, so only the hold event remains.
    let events = d.trigger_events::<10>(0, false);
    assert_eq!(
        events,
        vec![TriggerEvent::Switch { state: Phro::Hold, index: 0, last_state: 1 }]
    );

    // Ignoring off events forces the analog events out even at rest:
    // velocity 0, acceleration (0 - 1050) / 2 = -525, jerk -1050.
    let events = d.trigger_events::<10>(0, true);
    assert_eq!(
        events,
        vec![
            TriggerEvent::Switch { state: Phro::Hold, index: 0, last_state: 1 },
            TriggerEvent::AnalogDistance { index: 0, val: 1050 },
            TriggerEvent::AnalogVelocity { index: 0, val: 0 },
            TriggerEvent::AnalogAcceleration { index: 0, val: -525 },
            TriggerEvent::AnalogJerk { index: 0, val: -1050 },
        ]
    );
}

#[test]
fn release_and_off_events() {
    let mut sensors =
        calibrated_sensors(SensorMode::Normal(lookup::silo_atsam4s_lc605_gain_4x()));
    sensors.add::<IDLE_LIMIT>(0, 3650).unwrap();

    // Distance 750 crosses the deactivation point: a release event.
    sensors.add::<IDLE_LIMIT>(0, 3350).unwrap();
    let d = *sensors.get_data(0).unwrap();
    assert!(matches!(
        d.analysis.state,
        KeyState::Off { cycles_since_state_change: 0 }
    ));
    let events = d.trigger_events::<10>(0, false);
    assert_eq!(
        events[0],
        TriggerEvent::Switch { state: Phro::Release, index: 0, last_state: 0 }
    );

    // A key resting deactivated emits an off event only when asked for.
    sensors.add::<IDLE_LIMIT>(0, 3350).unwrap();
    let d = *sensors.get_data(0).unwrap();
    let events = d.trigger_events::<10>(0, false);
    assert_eq!(
        events[0],
        TriggerEvent::Switch { state: Phro::Off, index: 0, last_state: 1 }
    );
    let events = d.trigger_events::<10>(0, true);
    // Velocity 0 and off ignored: analog events are forced, switch is not.
    assert!(matches!(events[0], TriggerEvent::AnalogDistance { .. }));
    assert_eq!(events.len(), 4);
}

#[test]
fn low_latency_mode_emits_no_analog() {
    let mut sensors =
        calibrated_sensors(SensorMode::LowLatency(lookup::silo_atsam4s_lc605_gain_4x()));
    sensors.add::<IDLE_LIMIT>(0, 3650).unwrap();
    let d = sensors.get_data(0).unwrap();
    let events = d.trigger_events::<10>(0, false);
    assert_eq!(
        events,
        vec![TriggerEvent::Switch { state: Phro::Press, index: 0, last_state: 0 }]
    );
}

#[test]
fn uncalibrated_channel_emits_nothing() {
    let sensors = Sensors::<1>::new(
        SensorMode::Normal(lookup::silo_atsam4s_lc605_gain_4x()),
        ACTIVATION,
        DEACTIVATION,
    )
    .unwrap();
    // Reach the channel through its snapshot: it is still NotReady.
    let d = match sensors.get_data(0) {
        Err(kiibohd_hall_effect::SensorError::CalibrationError(d)) => d,
        other => panic!("Unexpected state: {:?}", other),
    };
    assert!(d.trigger_events::<10>(0, false).is_empty());
}

#[test]
fn convert_passes_analog_through() {
    let e = TriggerEvent::AnalogDistance { index: 3, val: 120 };
    assert_eq!(
        convert(e),
        CapabilityRun::Analog { state: CapabilityEvent::Passthrough(e) }
    );
    let e = TriggerEvent::AnalogVelocity { index: 3, val: -5 };
    assert_eq!(
        convert(e),
        CapabilityRun::Analog { state: CapabilityEvent::Passthrough(e) }
    );
    let e = TriggerEvent::AnalogAcceleration { index: 0, val: 0 };
    assert_eq!(
        convert(e),
        CapabilityRun::Analog { state: CapabilityEvent::Passthrough(e) }
    );
    let e = TriggerEvent::AnalogJerk { index: 9, val: 42 };
    assert_eq!(
        convert(e),
        CapabilityRun::Analog { state: CapabilityEvent::Passthrough(e) }
    );
}

#[test]
fn convert_rejects_switch_events() {
    let e = TriggerEvent::Switch { state: Phro::Press, index: 0, last_state: 0 };
    assert_eq!(
        convert(e),
        CapabilityRun::NoOp { state: CapabilityEvent::Empty }
    );
}

#[test]
fn emitter_type_variants_are_distinct() {
    let all = [
        EmitterType::Kll,
        EmitterType::Kiibohd,
        EmitterType::Configurator,
        EmitterType::Rust,
        EmitterType::Unset,
    ];
    for (i, a) in all.iter().enumerate() {
        for (j, b) in all.iter().enumerate() {
            assert_eq!(a == b, i == j);
        }
    }
}

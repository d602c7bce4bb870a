// General tests of the sensor collection: bounds checks, mode switching,
// and the not-ready states of both production and test modes.

use kiibohd_hall_effect::lookup;
use kiibohd_hall_effect::print_minimal_entry;
use kiibohd_hall_effect::{CalibrationStatus, SensorError, SensorMode, Sensors};

// Activation threshold
const ACTIVATION: i16 = 1000;

// Deactivation threshold
const DEACTIVATION: i16 = 800;

// Idle limit, used to determine when to reset calibration
const IDLE_LIMIT: usize = 50;

#[test]
fn invalid_index() {
    println!("{}", print_minimal_entry(&lookup::silo_atsam4s_lc605_gain_4x()));

    // Allocate a single sensor
    let mut sensors = Sensors::<1>::new(
        SensorMode::Normal(lookup::silo_atsam4s_lc605_gain_4x()),
        ACTIVATION,
        DEACTIVATION,
    )
    .unwrap();

    // Add data to an invalid location
    assert!(sensors.add::<IDLE_LIMIT>(1, 0).is_err());

    // Retrieve data from an invalid location
    assert!(sensors.get_data(1).is_err());
}

// Updating mode
// - Setup initial mode
// - Switch mode
//   * Update activation/deactivation
//   * Update mode
// - Check mode
#[test]
fn mode_switch() {
    println!("{}", print_minimal_entry(&lookup::silo_atsam4s_lc605_gain_2x()));
    println!("{}", print_minimal_entry(&lookup::silo_atsam4s_lc605_gain_4x()));

    // Allocate a single sensor in normal mode
    let mode = SensorMode::Normal(lookup::silo_atsam4s_lc605_gain_4x());
    let mut sensors = Sensors::<1>::new(mode, ACTIVATION, DEACTIVATION).unwrap();
    assert!(sensors.mode().unwrap() == mode);

    // Switch to low-latency mode
    let mode = SensorMode::LowLatency(lookup::silo_atsam4s_lc605_gain_4x());
    sensors.update_mode(mode);
    assert!(sensors.mode().unwrap() == mode);

    // Switch to test mode
    let mode = SensorMode::Test(lookup::silo_atsam4s_lc605_gain_2x());
    sensors.update_mode(mode);
    assert!(sensors.mode().unwrap() == mode);
}

#[test]
fn normal_not_ready() {
    println!("{}", print_minimal_entry(&lookup::silo_atsam4s_lc605_gain_4x()));

    // Allocate a single sensor
    let sensors = Sensors::<1>::new(
        SensorMode::Normal(lookup::silo_atsam4s_lc605_gain_4x()),
        ACTIVATION,
        DEACTIVATION,
    )
    .unwrap();

    // Retrieve before sending any data
    let state = sensors.get_data(0);
    if let Err(SensorError::CalibrationError(data)) = state.clone() {
        if data.cal == CalibrationStatus::NotReady {
            return;
        }
    }
    panic!("Unexpected state: {:?}", state);
}

#[test]
fn test_not_ready() {
    println!("{}", print_minimal_entry(&lookup::silo_atsam4s_lc605_gain_4x()));

    // Allocate a single sensor
    let sensors = Sensors::<1>::new(
        SensorMode::Test(lookup::silo_atsam4s_lc605_gain_4x()),
        ACTIVATION,
        DEACTIVATION,
    )
    .unwrap();

    // Retrieve before sending any data
    let state = sensors.get_data(0);
    if let Err(SensorError::CalibrationError(data)) = state.clone() {
        if data.cal == CalibrationStatus::NotReady {
            return;
        }
    }
    panic!("Unexpected state: {:?}", state);
}

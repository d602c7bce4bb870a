// Unit tests of the raw filter, the detailed calibration diagnostics, the
// accessors, the error variants, and the decimal rendering.

use kiibohd_hall_effect::decimal::u16_dec;
use kiibohd_hall_effect::lookup;
use kiibohd_hall_effect::print_minimal_entry;
use kiibohd_hall_effect::{
    CalibrationStatus, RawData, SenseData, SensorError, SensorMode, Sensors,
};

const IDLE_LIMIT: usize = 50;

#[test]
fn raw_data_starts_at_zero() {
    let rd = RawData::new();
    assert_eq!(rd.value(), 0);
    assert_eq!(rd.average(), 0);
    assert_eq!(rd.idle_count, 0);
    let rd = RawData::default();
    assert_eq!(rd.value(), 0);
    assert_eq!(rd.average(), 0);
}

#[test]
fn raw_data_average_halves() {
    let mode = SensorMode::Normal(lookup::silo_atsam4s_lc605_gain_4x());
    let mut rd = RawData::new();

    // average = (0 + 2600) / 2; 1300 is outside the idle band [2300, 2800].
    assert_eq!(rd.update::<2>(2600, mode), None);
    assert_eq!(rd.value(), 2600);
    assert_eq!(rd.average(), 1300);
    assert_eq!(rd.idle_count, 0);

    // average = (1300 + 2600) / 2 = 1950, still outside the band.
    assert_eq!(rd.update::<2>(2600, mode), None);
    assert_eq!(rd.average(), 1950);
    assert_eq!(rd.idle_count, 0);
}

#[test]
fn raw_data_reports_settled_average() {
    let mode = SensorMode::Normal(lookup::silo_atsam4s_lc605_gain_4x());
    let mut rd = RawData::new();

    // Averages for constant 2600: 1300, 1950, 2275, 2437, 2518, 2559; the
    // band [2300, 2800] is entered at the fourth sample, so the idle count
    // exceeds the limit 2 at the sixth.
    for _ in 0..5 {
        assert_eq!(rd.update::<2>(2600, mode), None);
    }
    assert_eq!(rd.average(), 2518);
    assert_eq!(rd.idle_count, 2);

    assert_eq!(rd.update::<2>(2600, mode), Some(2559));
    // Reporting the settled average resets the idle counter.
    assert_eq!(rd.idle_count, 0);
    assert_eq!(rd.average(), 2559);
}

#[test]
fn raw_data_reset_clears_all() {
    let mode = SensorMode::Normal(lookup::silo_atsam4s_lc605_gain_4x());
    let mut rd = RawData::new();
    rd.update::<2>(2600, mode);
    rd.reset();
    assert_eq!(rd.value(), 0);
    assert_eq!(rd.average(), 0);
    assert_eq!(rd.idle_count, 0);
}

#[test]
fn detailed_calibration_test_mode() {
    // Test mode on the gain-2x entry: min_ok 500, idle band [1150, 1400],
    // max_ok 4095.
    let mode = SensorMode::Test(lookup::silo_atsam4s_lc605_gain_2x());
    let mut d = SenseData::new(mode, 1000, 800);

    // A raw value of 0 means no sensor at all.
    assert_eq!(d.detailed_calibration(), CalibrationStatus::SensorMissing);

    // Above the working range: broken sensor (or magnet far too strong).
    d.add::<IDLE_LIMIT>(4096);
    assert_eq!(d.detailed_calibration(), CalibrationStatus::SensorBroken);

    // Below the working range: magnet mounted backwards.
    d.add::<IDLE_LIMIT>(400);
    assert_eq!(d.detailed_calibration(), CalibrationStatus::MagnetWrongPole);

    // Working but below the idle band: sensor low.
    d.add::<IDLE_LIMIT>(800);
    assert_eq!(d.detailed_calibration(), CalibrationStatus::SensorLow);

    // Inside the idle band: still settling.
    d.add::<IDLE_LIMIT>(1200);
    assert_eq!(d.detailed_calibration(), CalibrationStatus::NotReady);
}

#[test]
fn detailed_calibration_normal_mode() {
    // The optimized production range can only tell a low sensor apart.
    let mode = SensorMode::Normal(lookup::silo_atsam4s_lc605_gain_4x());
    let mut d = SenseData::new(mode, 1000, 800);

    d.add::<IDLE_LIMIT>(1200);
    assert_eq!(d.detailed_calibration(), CalibrationStatus::SensorLow);

    d.add::<IDLE_LIMIT>(2400);
    assert_eq!(d.detailed_calibration(), CalibrationStatus::NotReady);
}

#[test]
fn detailed_calibration_keeps_magnet_detected() {
    let mode = SensorMode::Normal(lookup::silo_atsam4s_lc605_gain_4x());
    let mut d = SenseData::new(mode, 1000, 800);
    for _ in 0..9 {
        d.add::<IDLE_LIMIT>(2600);
    }
    assert_eq!(d.calibration(), CalibrationStatus::MagnetDetected);
    assert_eq!(d.detailed_calibration(), CalibrationStatus::MagnetDetected);
}

#[test]
fn sense_data_accessors() {
    let mode = SensorMode::Normal(lookup::silo_atsam4s_lc605_gain_4x());
    let mut d = SenseData::new(mode, 1000, 800);

    assert_eq!(d.mode(), mode);
    assert_eq!(d.activation(), 1000);
    assert_eq!(d.deactivation(), 800);
    assert_eq!(d.raw_offset(), 0);
    assert_eq!(d.data().value(), 0);

    // No analysis before calibration.
    assert!(d.analysis().is_none());

    d.update_activation(1100, 900);
    assert_eq!(d.activation(), 1100);
    assert_eq!(d.deactivation(), 900);

    let test_mode = SensorMode::Test(lookup::silo_atsam4s_lc605_gain_2x());
    d.update_mode(test_mode);
    assert_eq!(d.mode(), test_mode);

    // Once calibrated, the analysis is published.
    let mut d = SenseData::new(mode, 1000, 800);
    for _ in 0..9 {
        d.add::<IDLE_LIMIT>(2600);
    }
    let analysis = d.analysis().unwrap();
    assert_eq!(analysis.distance, 0);
}

#[test]
fn empty_collection_has_no_mode() {
    let sensors = Sensors::<0>::new(
        SensorMode::Normal(lookup::silo_atsam4s_lc605_gain_4x()),
        1000,
        800,
    )
    .unwrap();
    assert!(sensors.is_empty());
    assert_eq!(sensors.len(), 0);
    assert!(matches!(sensors.mode(), Err(SensorError::NoSensors)));
}

#[test]
fn collection_len_is_capacity() {
    let sensors = Sensors::<3>::new(
        SensorMode::Normal(lookup::silo_atsam4s_lc605_gain_4x()),
        1000,
        800,
    )
    .unwrap();
    assert!(!sensors.is_empty());
    assert_eq!(sensors.len(), 3);
}

#[test]
fn update_mode_broadcasts() {
    let mut sensors = Sensors::<3>::new(
        SensorMode::Normal(lookup::silo_atsam4s_lc605_gain_4x()),
        1000,
        800,
    )
    .unwrap();
    let test_mode = SensorMode::Test(lookup::silo_atsam4s_lc605_gain_2x());
    sensors.update_mode(test_mode);
    assert_eq!(sensors.mode().unwrap(), test_mode);
    for i in 0..3 {
        if let Err(SensorError::CalibrationError(d)) = sensors.get_data(i) {
            assert_eq!(d.mode(), test_mode);
        } else {
            panic!("channel {} should still be warming up", i);
        }
    }
}

#[test]
fn decimal_rendering() {
    assert_eq!(u16_dec(0), "0");
    assert_eq!(u16_dec(7), "7");
    assert_eq!(u16_dec(10), "10");
    assert_eq!(u16_dec(1000), "1000");
    assert_eq!(u16_dec(65535), "65535");
}

#[test]
fn minimal_entry_rendering() {
    let s = print_minimal_entry(&lookup::silo_atsam4s_lc605_gain_4x());
    assert_eq!(
        s,
        "min_ok_value: 1000\nmax_ok_value: 4095\nsensor_zero: 2500\nmin_idle_value: 2300\nmax_idle_value: 2800\n"
    );
}

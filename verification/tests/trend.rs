use telemetry_core::trend::{TemperatureHistory, ThermalTrend};

#[test]
fn fewer_than_three_readings_is_stable() {
    let mut history = TemperatureHistory::new(60);
    assert_eq!(history.get_trend(10_000), ThermalTrend::Stable);
    history.add_reading(0, 50_000);
    history.add_reading(1_000, 70_000);
    assert_eq!(history.get_trend(10_000), ThermalTrend::Stable);
}

#[test]
fn slow_rise_is_heating() {
    let mut history = TemperatureHistory::new(60);
    history.add_reading(0, 50_000);
    history.add_reading(1_000, 51_500);
    history.add_reading(2_000, 53_000);
    assert_eq!(history.get_trend(10_000), ThermalTrend::Heating);
}

#[test]
fn fast_rise_is_rapid() {
    let mut history = TemperatureHistory::new(60);
    history.add_reading(0, 50_000);
    history.add_reading(1_000, 53_000);
    history.add_reading(2_000, 56_000);
    assert_eq!(history.get_trend(10_000), ThermalTrend::Rapid);
}

#[test]
fn slow_fall_is_cooling() {
    let mut history = TemperatureHistory::new(60);
    history.add_reading(0, 53_000);
    history.add_reading(1_000, 51_500);
    history.add_reading(2_000, 50_000);
    assert_eq!(history.get_trend(10_000), ThermalTrend::Cooling);
}

#[test]
fn fast_fall_is_also_rapid() {
    let mut history = TemperatureHistory::new(60);
    history.add_reading(0, 56_000);
    history.add_reading(1_000, 53_000);
    history.add_reading(2_000, 50_000);
    assert_eq!(history.get_trend(10_000), ThermalTrend::Rapid);
}

#[test]
fn small_delta_is_stable() {
    let mut history = TemperatureHistory::new(60);
    history.add_reading(0, 50_000);
    history.add_reading(1_000, 50_400);
    history.add_reading(2_000, 50_900);
    assert_eq!(history.get_trend(10_000), ThermalTrend::Stable);
}

#[test]
fn readings_outside_window_are_ignored() {
    let mut history = TemperatureHistory::new(60);
    // An old hot reading far outside the ten-second trailing window.
    history.add_reading(0, 80_000);
    history.add_reading(20_000, 50_000);
    history.add_reading(21_000, 51_500);
    history.add_reading(22_000, 53_000);
    assert_eq!(history.get_trend(10_000), ThermalTrend::Heating);
}

#[test]
fn window_with_too_few_recent_readings_is_stable() {
    let mut history = TemperatureHistory::new(60);
    history.add_reading(0, 50_000);
    history.add_reading(1_000, 56_000);
    history.add_reading(30_000, 62_000);
    assert_eq!(history.get_trend(10_000), ThermalTrend::Stable);
}

#[test]
fn capacity_evicts_oldest_reading() {
    let mut history = TemperatureHistory::new(3);
    history.add_reading(0, 80_000);
    history.add_reading(1_000, 50_000);
    history.add_reading(2_000, 51_000);
    history.add_reading(3_000, 52_500);
    // With the hot first reading evicted the delta is 2.5 degrees; had it
    // stayed, the window delta would read as a rapid fall.
    assert_eq!(history.get_trend(10_000), ThermalTrend::Heating);
}

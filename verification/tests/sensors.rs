use telemetry_core::errors::TelemetryError;
use telemetry_core::sensors::{build_core_temperature_data, categorize_sensor, SensorCategory, SensorReading};
use telemetry_core::trend::ThermalTrend;

fn reading(name: &str, temp_mc: i64) -> SensorReading {
    SensorReading { name: name.as_bytes().to_vec(), temp_mc }
}

#[test]
fn categorizes_by_name_patterns() {
    assert_eq!(categorize_sensor(&b"pACC MTR Temp Sensor1".to_vec()), SensorCategory::Performance);
    assert_eq!(categorize_sensor(&b"eACC MTR Temp Sensor0".to_vec()), SensorCategory::Efficiency);
    assert_eq!(categorize_sensor(&b"GPU MTR Temp Sensor2".to_vec()), SensorCategory::Gpu);
    assert_eq!(categorize_sensor(&b"gas gauge battery".to_vec()), SensorCategory::Battery);
    assert_eq!(categorize_sensor(&b"NAND CH0 temp".to_vec()), SensorCategory::Other);
}

#[test]
fn categorization_is_case_insensitive_for_area_words() {
    assert_eq!(categorize_sensor(&b"CPU Performance Zone".to_vec()), SensorCategory::Performance);
    assert_eq!(categorize_sensor(&b"Efficiency Cluster".to_vec()), SensorCategory::Efficiency);
    assert_eq!(categorize_sensor(&b"Gpu Thermal".to_vec()), SensorCategory::Gpu);
}

#[test]
fn builds_statistics_per_area() {
    let readings = vec![
        reading("pACC MTR Temp Sensor1", 50_000),
        reading("pACC MTR Temp Sensor2", 54_000),
        reading("eACC MTR Temp Sensor1", 40_000),
        reading("GPU MTR Temp Sensor1", 45_000),
        reading("GPU MTR Temp Sensor2", 47_000),
        reading("gas gauge battery", 30_000),
    ];
    let data = build_core_temperature_data(&readings).unwrap();
    assert_eq!(data.p_cores_mc, vec![50_000, 54_000]);
    assert_eq!(data.e_cores_mc, vec![40_000]);
    assert_eq!(data.cpu_temp_avg_mc, 48_000);
    assert_eq!(data.cpu_temp_max_mc, 54_000);
    assert_eq!(data.cpu_temp_min_mc, 40_000);
    assert_eq!(data.gpu_temps_mc, vec![45_000, 47_000]);
    assert_eq!(data.gpu_temp_avg_mc, Some(46_000));
    assert_eq!(data.gpu_temp_max_mc, Some(47_000));
    assert_eq!(data.battery_temp_avg_mc, Some(30_000));
    assert_eq!(data.thermal_trend, ThermalTrend::Stable);
}

#[test]
fn out_of_range_readings_are_discarded() {
    let readings = vec![
        reading("pACC MTR Temp Sensor1", 50_000),
        reading("pACC MTR Temp Sensor2", 0),
        reading("pACC MTR Temp Sensor3", 150_000),
        reading("pACC MTR Temp Sensor4", -5_000),
    ];
    let data = build_core_temperature_data(&readings).unwrap();
    assert_eq!(data.p_cores_mc, vec![50_000]);
    assert_eq!(data.cpu_temp_avg_mc, 50_000);
}

#[test]
fn uncategorized_sensors_split_positionally() {
    let readings = vec![
        reading("NAND CH0 temp", 41_000),
        reading("PMU tdie1", 42_000),
        reading("PMU tdie2", 43_000),
    ];
    let data = build_core_temperature_data(&readings).unwrap();
    // The first two thirds count as the performance area.
    assert_eq!(data.p_cores_mc, vec![41_000, 42_000]);
    assert_eq!(data.e_cores_mc, vec![43_000]);
}

#[test]
fn no_usable_readings_is_sensor_unavailable() {
    let empty: Vec<SensorReading> = Vec::new();
    assert_eq!(
        build_core_temperature_data(&empty).unwrap_err(),
        TelemetryError::SensorUnavailable
    );
    let gpu_only = vec![reading("GPU MTR Temp Sensor1", 45_000)];
    assert_eq!(
        build_core_temperature_data(&gpu_only).unwrap_err(),
        TelemetryError::SensorUnavailable
    );
    let all_invalid = vec![reading("pACC MTR Temp Sensor1", 151_000)];
    assert_eq!(
        build_core_temperature_data(&all_invalid).unwrap_err(),
        TelemetryError::SensorUnavailable
    );
}

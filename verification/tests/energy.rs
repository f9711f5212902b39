use telemetry_core::energy::{PowerCalculator, NJ_PER_MWH};
use telemetry_core::snapshot::TelemetryUpdate;

fn create_test_telemetry(
    timestamp_ms: u64,
    cpu_power_mw: Option<u64>,
    gpu_power_mw: Option<u64>,
    ane_power_mw: Option<u64>,
) -> TelemetryUpdate {
    TelemetryUpdate {
        timestamp_ms,
        cpu_power_mw,
        gpu_power_mw,
        ane_power_mw,
        cpu_temp_mc: None,
        gpu_temp_mc: None,
        cpu_freq_khz: None,
        gpu_freq_khz: None,
        ram_usage_bytes: None,
        thermal_pressure: None,
        ttft_ms: None,
        current_tps_milli: None,
        instantaneous_tps_milli: None,
        generation_time_ms: None,
        model: None,
        cpu_temp_avg_mc: None,
        cpu_temp_max_mc: None,
        cpu_p_core_temps_mc: None,
        cpu_e_core_temps_mc: None,
        gpu_temp_avg_mc: None,
        gpu_temp_max_mc: None,
        gpu_cluster_temps_mc: None,
        battery_temp_avg_mc: None,
        cpu_p_core_utilization_cpct: None,
        cpu_e_core_utilization_cpct: None,
        cpu_overall_utilization_cpct: None,
        core_temperatures: None,
        total_energy_nj: None,
        cpu_energy_nj: None,
        gpu_energy_nj: None,
        ane_energy_nj: None,
        energy_rate_nj_per_token: None,
    }
}

#[test]
fn test_new_calculator() {
    let calculator = PowerCalculator::new();
    assert_eq!(calculator.cumulative_cpu_energy_nj, 0);
    assert_eq!(calculator.cumulative_gpu_energy_nj, 0);
    assert_eq!(calculator.cumulative_ane_energy_nj, 0);
    assert!(calculator.session_start_timestamp.is_none());
    assert!(calculator.previous.is_none());
}

#[test]
fn test_first_telemetry_update() {
    let mut calculator = PowerCalculator::new();
    let telemetry = create_test_telemetry(1000, Some(10_000), Some(5_000), Some(2_000));

    let result = calculator.update_with_telemetry(telemetry);

    // The first update has no previous reading, so no energy accrues.
    assert_eq!(result.total_energy_nj, Some(0));
    assert_eq!(result.cpu_energy_nj, Some(0));
    assert_eq!(result.gpu_energy_nj, Some(0));
    assert_eq!(result.ane_energy_nj, Some(0));
    assert_eq!(calculator.session_start_timestamp, Some(1000));
}

#[test]
fn test_trapezoidal_rule_calculation() {
    let mut calculator = PowerCalculator::new();

    // First reading: 10 W CPU, 5 W GPU, 2 W accelerator at t=0.
    let telemetry1 = create_test_telemetry(0, Some(10_000), Some(5_000), Some(2_000));
    calculator.update_with_telemetry(telemetry1);

    // Second reading: 20 W CPU, 10 W GPU, 4 W accelerator one hour later.
    let telemetry2 = create_test_telemetry(3_600_000, Some(20_000), Some(10_000), Some(4_000));
    let result = calculator.update_with_telemetry(telemetry2);

    // Trapezoid: CPU (10+20)/2 = 15 Wh, GPU 7.5 Wh, accelerator 3 Wh.
    assert_eq!(result.cpu_energy_nj, Some(15_000 * NJ_PER_MWH));
    assert_eq!(result.gpu_energy_nj, Some(7_500 * NJ_PER_MWH));
    assert_eq!(result.ane_energy_nj, Some(3_000 * NJ_PER_MWH));
    assert_eq!(result.total_energy_nj, Some(25_500 * NJ_PER_MWH));
}

#[test]
fn test_cumulative_energy_calculation() {
    let mut calculator = PowerCalculator::new();

    // First pair: 10 W for one hour accrues 10 Wh.
    let telemetry1 = create_test_telemetry(0, Some(10_000), None, None);
    calculator.update_with_telemetry(telemetry1);

    let telemetry2 = create_test_telemetry(3_600_000, Some(10_000), None, None);
    let result2 = calculator.update_with_telemetry(telemetry2);
    assert_eq!(result2.cpu_energy_nj, Some(10_000 * NJ_PER_MWH));

    // Second pair: (10+20)/2 = 15 Wh more, 25 Wh in total.
    let telemetry3 = create_test_telemetry(7_200_000, Some(20_000), None, None);
    let result3 = calculator.update_with_telemetry(telemetry3);
    assert_eq!(result3.cpu_energy_nj, Some(25_000 * NJ_PER_MWH));
}

#[test]
fn test_missing_power_data() {
    let mut calculator = PowerCalculator::new();

    let telemetry1 = create_test_telemetry(0, Some(10_000), None, None);
    calculator.update_with_telemetry(telemetry1);

    let telemetry2 = create_test_telemetry(3_600_000, Some(20_000), None, None);
    let result = calculator.update_with_telemetry(telemetry2);

    // Only the CPU domain carried values on both endpoints.
    assert_eq!(result.cpu_energy_nj, Some(15_000 * NJ_PER_MWH));
    assert_eq!(result.gpu_energy_nj, Some(0));
    assert_eq!(result.ane_energy_nj, Some(0));
    assert_eq!(result.total_energy_nj, Some(15_000 * NJ_PER_MWH));
}

#[test]
fn test_reset_functionality() {
    let mut calculator = PowerCalculator::new();

    let telemetry1 = create_test_telemetry(0, Some(10_000), Some(5_000), Some(2_000));
    calculator.update_with_telemetry(telemetry1);

    let telemetry2 = create_test_telemetry(3_600_000, Some(20_000), Some(10_000), Some(4_000));
    calculator.update_with_telemetry(telemetry2);

    calculator.reset();

    assert_eq!(calculator.cumulative_cpu_energy_nj, 0);
    assert_eq!(calculator.cumulative_gpu_energy_nj, 0);
    assert_eq!(calculator.cumulative_ane_energy_nj, 0);
    assert!(calculator.session_start_timestamp.is_none());
    assert!(calculator.previous.is_none());
}

#[test]
fn test_get_summary() {
    let mut calculator = PowerCalculator::new();

    // Sustain 10 W CPU, 5 W GPU and 3 W accelerator for one hour.
    let telemetry1 = create_test_telemetry(0, Some(10_000), Some(5_000), Some(3_000));
    calculator.update_with_telemetry(telemetry1);
    let telemetry2 = create_test_telemetry(3_600_000, Some(10_000), Some(5_000), Some(3_000));
    calculator.update_with_telemetry(telemetry2);

    let summary = calculator.get_summary(Some(100));

    assert_eq!(summary.total_energy_nj, 18_000 * NJ_PER_MWH);
    assert_eq!(summary.cpu_energy_nj, 10_000 * NJ_PER_MWH);
    assert_eq!(summary.gpu_energy_nj, 5_000 * NJ_PER_MWH);
    assert_eq!(summary.ane_energy_nj, 3_000 * NJ_PER_MWH);
    // 18 Wh over 100 tokens is 0.18 Wh per token.
    assert_eq!(summary.energy_per_token_nj, Some(180 * NJ_PER_MWH));
}

#[test]
fn test_energy_per_token_with_zero_tokens() {
    let calculator = PowerCalculator::new();
    let summary = calculator.get_summary(Some(0));
    assert_eq!(summary.energy_per_token_nj, Some(0));
}

#[test]
fn test_energy_per_token_with_none_tokens() {
    let calculator = PowerCalculator::new();
    let summary = calculator.get_summary(None);
    assert!(summary.energy_per_token_nj.is_none());
}

#[test]
fn test_short_time_interval_accuracy() {
    let mut calculator = PowerCalculator::new();

    let telemetry1 = create_test_telemetry(0, Some(10_000), None, None);
    calculator.update_with_telemetry(telemetry1);

    // One second later at 20 W: (10+20)/2 W for 1 s is 15 J exactly.
    let telemetry2 = create_test_telemetry(1000, Some(20_000), None, None);
    let result = calculator.update_with_telemetry(telemetry2);

    match result.cpu_energy_nj {
        Some(actual) => assert_eq!(actual, 15_000_000_000),
        None => panic!("Expected cpu_energy_nj to be Some, got None"),
    }
}

#[test]
fn test_default_is_fresh() {
    let calculator = PowerCalculator::default();
    assert_eq!(calculator.cumulative_cpu_energy_nj, 0);
    assert!(calculator.previous.is_none());
}

#[test]
fn test_reset_then_integrate_contributes_nothing() {
    let mut calculator = PowerCalculator::new();
    calculator.update_with_telemetry(create_test_telemetry(0, Some(10_000), None, None));
    calculator.update_with_telemetry(create_test_telemetry(3_600_000, Some(10_000), None, None));
    calculator.reset();
    // Whatever power the next sample carries, it is a pure baseline.
    let result =
        calculator.update_with_telemetry(create_test_telemetry(7_200_000, Some(500_000), None, None));
    assert_eq!(result.total_energy_nj, Some(0));
}

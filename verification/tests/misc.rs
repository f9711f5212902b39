use telemetry_core::records::{record_of_outcome, MacmonOutput, ReadOutcome};
use telemetry_core::snapshot::{TelemetryCommand, TelemetryUpdate};
use telemetry_core::utilization::split_core_utilization;

#[test]
fn utilization_splits_efficiency_cores_first() {
    let report = split_core_utilization(&vec![1_000, 2_000, 3_000, 4_000], 2);
    assert_eq!(report.e_core_cpct, vec![1_000, 2_000]);
    assert_eq!(report.p_core_cpct, vec![3_000, 4_000]);
    assert_eq!(report.overall_cpct, 2_500);
}

#[test]
fn utilization_of_nothing_is_zero() {
    let report = split_core_utilization(&Vec::new(), 4);
    assert!(report.e_core_cpct.is_empty());
    assert!(report.p_core_cpct.is_empty());
    assert_eq!(report.overall_cpct, 0);
}

#[test]
fn utilization_with_excess_efficiency_count() {
    let report = split_core_utilization(&vec![5_000, 6_000], 8);
    assert_eq!(report.e_core_cpct, vec![5_000, 6_000]);
    assert!(report.p_core_cpct.is_empty());
    assert_eq!(report.overall_cpct, 5_500);
}

#[test]
fn only_a_data_outcome_yields_a_record() {
    let rec = MacmonOutput {
        timestamp: b"t".to_vec(),
        temp: None,
        memory: None,
        ecpu_usage: None,
        pcpu_usage: None,
        gpu_usage: None,
        cpu_power_mw: Some(1_000),
        gpu_power_mw: None,
        ane_power_mw: None,
        sys_power_mw: None,
    };
    assert!(record_of_outcome(ReadOutcome::Data(rec)).is_some());
    assert!(record_of_outcome(ReadOutcome::Pending).is_none());
    assert!(record_of_outcome(ReadOutcome::Ended).is_none());
}

#[test]
fn inference_fields_merge_into_a_snapshot() {
    let base = TelemetryUpdate {
        timestamp_ms: 5,
        cpu_power_mw: Some(1_000),
        gpu_power_mw: None,
        ane_power_mw: None,
        cpu_temp_mc: Some(40_000),
        gpu_temp_mc: None,
        cpu_freq_khz: None,
        gpu_freq_khz: None,
        ram_usage_bytes: None,
        thermal_pressure: None,
        ttft_ms: None,
        current_tps_milli: None,
        instantaneous_tps_milli: None,
        generation_time_ms: Some(9),
        model: None,
        cpu_temp_avg_mc: None,
        cpu_temp_max_mc: None,
        cpu_p_core_temps_mc: None,
        cpu_e_core_temps_mc: None,
        gpu_temp_avg_mc: None,
        gpu_temp_max_mc: None,
        gpu_cluster_temps_mc: None,
        battery_temp_avg_mc: None,
        cpu_p_core_utilization_cpct: None,
        cpu_e_core_utilization_cpct: None,
        cpu_overall_utilization_cpct: None,
        core_temperatures: None,
        total_energy_nj: Some(7),
        cpu_energy_nj: Some(7),
        gpu_energy_nj: Some(0),
        ane_energy_nj: Some(0),
        energy_rate_nj_per_token: None,
    };
    let merged = base.with_inference_data(42, Some(120), Some(8_500), Some(9_000), Some("A".to_string()));
    assert_eq!(merged.timestamp_ms, 42);
    assert_eq!(merged.ttft_ms, Some(120));
    assert_eq!(merged.current_tps_milli, Some(8_500));
    assert_eq!(merged.instantaneous_tps_milli, Some(9_000));
    assert_eq!(merged.model, Some("A".to_string()));
    // Hardware and energy fields are kept.
    assert_eq!(merged.cpu_power_mw, Some(1_000));
    assert_eq!(merged.cpu_temp_mc, Some(40_000));
    assert_eq!(merged.generation_time_ms, Some(9));
    assert_eq!(merged.total_energy_nj, Some(7));
}

#[test]
fn reset_command_compares_by_value() {
    assert_eq!(TelemetryCommand::ResetPowerCalculator, TelemetryCommand::ResetPowerCalculator);
}

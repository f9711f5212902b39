use telemetry_core::aggregator::{
    clamp_sampling_frequency, merge_tick_snapshot, plan_frequency_handoff, sampling_interval_ms,
    AggregatorState, MonitoringPlan, TickInputs,
};
use telemetry_core::energy::NJ_PER_MWH;
use telemetry_core::records::{MacmonOutput, MemoryInfo, TemperatureInfo};
use telemetry_core::sensors::{build_core_temperature_data, SensorReading};
use telemetry_core::trend::ThermalTrend;
use telemetry_core::utilization::{split_core_utilization, UtilizationReport};

fn record(cpu_power_mw: Option<i64>) -> MacmonOutput {
    MacmonOutput {
        timestamp: b"t".to_vec(),
        temp: Some(TemperatureInfo { cpu_temp_avg_mc: Some(44_000), gpu_temp_avg_mc: Some(39_000) }),
        memory: Some(MemoryInfo {
            ram_total: Some(16_000_000_000),
            ram_usage: Some(8_000_000_000),
            swap_total: None,
            swap_usage: None,
        }),
        ecpu_usage: Some((1_000_000, 30_000)),
        pcpu_usage: Some((3_000_000, 50_000)),
        gpu_usage: Some((900_000, 10_000)),
        cpu_power_mw,
        gpu_power_mw: Some(2_000),
        ane_power_mw: None,
        sys_power_mw: Some(12_000),
    }
}

fn native_temps() -> telemetry_core::sensors::CoreTemperatureData {
    let readings = vec![
        SensorReading { name: b"pACC MTR Temp Sensor1".to_vec(), temp_mc: 50_000 },
        SensorReading { name: b"eACC MTR Temp Sensor1".to_vec(), temp_mc: 42_000 },
    ];
    build_core_temperature_data(&readings).unwrap()
}

fn utilization() -> UtilizationReport {
    split_core_utilization(&vec![1_000, 2_000, 3_000, 4_000], 2)
}

#[test]
fn frequency_is_clamped_not_rejected() {
    assert_eq!(clamp_sampling_frequency(None), 1_000);
    assert_eq!(clamp_sampling_frequency(Some(50)), 100);
    assert_eq!(clamp_sampling_frequency(Some(100_000)), 50_000);
    assert_eq!(clamp_sampling_frequency(Some(2_000)), 2_000);
    assert_eq!(sampling_interval_ms(1_000), 1_000);
    assert_eq!(sampling_interval_ms(100), 10_000);
    assert_eq!(sampling_interval_ms(50_000), 20);
    assert_eq!(sampling_interval_ms(3_000), 333);
}

#[test]
fn warmup_is_reused_only_at_the_default_frequency() {
    assert_eq!(plan_frequency_handoff(1_000), MonitoringPlan::ReuseWarmup);
    assert_eq!(plan_frequency_handoff(2_000), MonitoringPlan::Restart);
}

#[test]
fn native_readings_win_in_the_merge() {
    let snapshot = merge_tick_snapshot(100, Some(native_temps()), utilization(), Some(record(Some(3_000))));
    assert_eq!(snapshot.timestamp_ms, 100);
    assert_eq!(snapshot.cpu_power_mw, Some(3_000));
    assert_eq!(snapshot.gpu_power_mw, Some(2_000));
    assert_eq!(snapshot.ane_power_mw, None);
    // Native package temperature wins over the record's hint.
    assert_eq!(snapshot.cpu_temp_mc, Some(46_000));
    assert_eq!(snapshot.cpu_temp_avg_mc, Some(46_000));
    assert_eq!(snapshot.cpu_temp_max_mc, Some(50_000));
    // No native GPU sensor, so the record's hint backfills.
    assert_eq!(snapshot.gpu_temp_mc, Some(39_000));
    assert_eq!(snapshot.gpu_temp_avg_mc, None);
    assert_eq!(snapshot.cpu_freq_khz, Some(3_000_000));
    assert_eq!(snapshot.gpu_freq_khz, Some(900_000));
    assert_eq!(snapshot.ram_usage_bytes, Some(8_000_000_000));
    assert_eq!(snapshot.cpu_p_core_temps_mc, Some(vec![50_000]));
    assert_eq!(snapshot.cpu_e_core_temps_mc, Some(vec![42_000]));
    assert_eq!(snapshot.cpu_p_core_utilization_cpct, Some(vec![3_000, 4_000]));
    assert_eq!(snapshot.cpu_e_core_utilization_cpct, Some(vec![1_000, 2_000]));
    assert_eq!(snapshot.cpu_overall_utilization_cpct, Some(2_500));
    assert!(snapshot.core_temperatures.is_some());
    assert_eq!(snapshot.total_energy_nj, None);
}

#[test]
fn record_fills_a_degraded_tick() {
    let snapshot = merge_tick_snapshot(100, None, utilization(), Some(record(Some(3_000))));
    assert_eq!(snapshot.cpu_temp_mc, Some(44_000));
    assert_eq!(snapshot.cpu_temp_avg_mc, Some(44_000));
    assert_eq!(snapshot.cpu_temp_max_mc, None);
    assert_eq!(snapshot.gpu_temp_mc, Some(39_000));
    assert_eq!(snapshot.cpu_p_core_temps_mc, None);
    assert!(snapshot.core_temperatures.is_none());
    assert_eq!(snapshot.cpu_overall_utilization_cpct, Some(2_500));
}

#[test]
fn out_of_range_power_counts_as_absent() {
    let snapshot = merge_tick_snapshot(100, None, utilization(), Some(record(Some(-5))));
    assert_eq!(snapshot.cpu_power_mw, None);
    assert_eq!(snapshot.gpu_power_mw, Some(2_000));
}

#[test]
fn tick_integrates_energy_across_ticks() {
    let mut state = AggregatorState::new(60);
    let first = state.tick(TickInputs {
        timestamp_ms: 0,
        core_temps: Some(native_temps()),
        utilization: utilization(),
        record: Some(record(Some(10_000))),
        reset_requested: false,
    });
    assert_eq!(first.cpu_energy_nj, Some(0));
    let second = state.tick(TickInputs {
        timestamp_ms: 3_600_000,
        core_temps: Some(native_temps()),
        utilization: utilization(),
        record: Some(record(Some(10_000))),
        reset_requested: false,
    });
    // 10 W sustained for one hour.
    assert_eq!(second.cpu_energy_nj, Some(10_000 * NJ_PER_MWH));
    // 2 W GPU sustained for one hour.
    assert_eq!(second.gpu_energy_nj, Some(2_000 * NJ_PER_MWH));
    assert_eq!(second.total_energy_nj, Some(12_000 * NJ_PER_MWH));
    assert!(second.core_temperatures.is_some());
}

#[test]
fn tick_applies_reset_before_integrating() {
    let mut state = AggregatorState::new(60);
    state.tick(TickInputs {
        timestamp_ms: 0,
        core_temps: None,
        utilization: utilization(),
        record: Some(record(Some(10_000))),
        reset_requested: false,
    });
    state.tick(TickInputs {
        timestamp_ms: 3_600_000,
        core_temps: None,
        utilization: utilization(),
        record: Some(record(Some(10_000))),
        reset_requested: false,
    });
    let after_reset = state.tick(TickInputs {
        timestamp_ms: 7_200_000,
        core_temps: None,
        utilization: utilization(),
        record: Some(record(Some(10_000))),
        reset_requested: true,
    });
    // The reset clears the accumulators and the remembered reading, so the
    // sample after it contributes nothing.
    assert_eq!(after_reset.total_energy_nj, Some(0));
}

#[test]
fn tick_attaches_the_trend_from_history() {
    let mut state = AggregatorState::new(60);
    let mut last = None;
    for (i, avg) in [(0u64, 50_000i64), (1_000, 53_000), (2_000, 56_000)] {
        let readings = vec![SensorReading { name: b"pACC MTR Temp Sensor1".to_vec(), temp_mc: avg }];
        let temps = build_core_temperature_data(&readings).unwrap();
        last = Some(state.tick(TickInputs {
            timestamp_ms: i,
            core_temps: Some(temps),
            utilization: utilization(),
            record: None,
            reset_requested: false,
        }));
    }
    let trend = last.unwrap().core_temperatures.unwrap().thermal_trend;
    assert_eq!(trend, ThermalTrend::Rapid);
}

//! Snapshot and event types published by the telemetry aggregator.
//!
//! All quantities are fixed-point integers: power in milliwatts, temperatures
//! in millidegrees Celsius, frequencies in kilohertz, core utilization in
//! hundredths of a percent, energy in nanojoules, throughput in thousandths
//! of a token per second.

use vstd::prelude::*;
use crate::sensors::CoreTemperatureData;

verus! {

/// One merged telemetry snapshot: the publish unit of the aggregator.
#[derive(Clone, Debug)]
pub struct TelemetryUpdate {
    pub timestamp_ms: u64,
    pub cpu_power_mw: Option<u64>,
    pub gpu_power_mw: Option<u64>,
    pub ane_power_mw: Option<u64>,
    /// Whole-package CPU temperature; kept alongside the per-area fields.
    pub cpu_temp_mc: Option<i64>,
    pub gpu_temp_mc: Option<i64>,
    pub cpu_freq_khz: Option<i64>,
    pub gpu_freq_khz: Option<i64>,
    pub ram_usage_bytes: Option<u64>,
    pub thermal_pressure: Option<String>,
    pub ttft_ms: Option<u64>,
    pub current_tps_milli: Option<u64>,
    pub instantaneous_tps_milli: Option<u64>,
    pub generation_time_ms: Option<u64>,
    pub model: Option<String>,
    pub cpu_temp_avg_mc: Option<i64>,
    pub cpu_temp_max_mc: Option<i64>,
    pub cpu_p_core_temps_mc: Option<Vec<i64>>,
    pub cpu_e_core_temps_mc: Option<Vec<i64>>,
    pub gpu_temp_avg_mc: Option<i64>,
    pub gpu_temp_max_mc: Option<i64>,
    pub gpu_cluster_temps_mc: Option<Vec<i64>>,
    pub battery_temp_avg_mc: Option<i64>,
    pub cpu_p_core_utilization_cpct: Option<Vec<u32>>,
    pub cpu_e_core_utilization_cpct: Option<Vec<u32>>,
    pub cpu_overall_utilization_cpct: Option<u32>,
    pub core_temperatures: Option<CoreTemperatureData>,
    pub total_energy_nj: Option<u128>,
    pub cpu_energy_nj: Option<u128>,
    pub gpu_energy_nj: Option<u128>,
    pub ane_energy_nj: Option<u128>,
    pub energy_rate_nj_per_token: Option<u128>,
}

/// Control commands accepted by a running aggregator.
#[derive(Clone, Copy, Debug, PartialEq, Eq, Structural)]
pub enum TelemetryCommand {
    /// Zero the cumulative energy accounting before the next tick's
    /// integration step.
    ResetPowerCalculator,
}

/// A token of generated output, streamed to subscribers.
#[derive(Clone, Debug)]
pub struct TokenEvent {
    pub token: String,
    pub model: String,
    pub finished: bool,
}

/// Count of prompt tokens consumed by a compute job.
#[derive(Clone, Debug)]
pub struct InputTokenEvent {
    pub count: usize,
    pub model: String,
    pub timestamp_ms: u64,
}

/// Count of tokens produced so far by a compute job.
#[derive(Clone, Debug)]
pub struct OutputTokenEvent {
    pub count: usize,
    pub model: String,
    pub timestamp_ms: u64,
}

/// Count of system-prompt tokens consumed by a compute job.
#[derive(Clone, Debug)]
pub struct SystemPromptTokenEvent {
    pub count: usize,
    pub timestamp_ms: u64,
}

/// Total wall-clock time of one generation run.
#[derive(Clone, Debug)]
pub struct GenerationTimeEvent {
    pub generation_time_ms: u64,
    pub model: String,
    pub timestamp_ms: u64,
}

/// Session energy totals published when a compute job finishes.
#[derive(Clone, Debug)]
pub struct PowerConsumptionSummaryEvent {
    pub total_energy_nj: u128,
    pub cpu_energy_nj: u128,
    pub gpu_energy_nj: u128,
    pub ane_energy_nj: u128,
    pub energy_per_token_nj: Option<u128>,
    pub model: String,
    pub timestamp_ms: u64,
}

/// One chat message handed to a compute job.
#[derive(Clone, Debug)]
pub struct Message {
    pub role: String,
    pub content: String,
    pub model: Option<String>,
}

impl TelemetryUpdate {
    /// This snapshot with the timing fields supplied by the external compute
    /// collaborator merged in, stamped at `now_ms`. Every other field is kept.
    pub fn with_inference_data(
        self,
        now_ms: u64,
        ttft_ms: Option<u64>,
        current_tps_milli: Option<u64>,
        instantaneous_tps_milli: Option<u64>,
        model: Option<String>,
    ) -> (r: TelemetryUpdate)
        ensures
            r == (TelemetryUpdate {
                timestamp_ms: now_ms,
                ttft_ms,
                current_tps_milli,
                instantaneous_tps_milli,
                model,
                ..self
            }),
    {
        TelemetryUpdate {
            timestamp_ms: now_ms,
            ttft_ms,
            current_tps_milli,
            instantaneous_tps_milli,
            model,
            ..self
        }
    }
}

} // verus!

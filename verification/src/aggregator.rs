//! The per-tick computation of the telemetry aggregator: sampling-frequency
//! clamping, merging of the native sensor snapshot with the external
//! process's record, energy integration, and the warm-up handoff decision.
//!
//! The surrounding loop (timers, the subprocess, publishing) is the
//! caller's; each tick it hands in what it observed and receives the
//! snapshot to publish.

use vstd::prelude::*;
use crate::energy::{MAX_POWER_MW, MAX_TIMESTAMP_MS, PowerCalculator, PowerReading};
use crate::records::MacmonOutput;
use crate::sensors::{copy_range, CoreTemperatureData};
use crate::snapshot::TelemetryUpdate;
use crate::trend::{spec_after_add, trend_of, TemperatureHistory};
use crate::utilization::UtilizationReport;

verus! {

/// Lowest accepted sampling frequency, in millihertz.
pub const MIN_FREQ_MHZ: u32 = 100;

/// Highest accepted sampling frequency, in millihertz.
pub const MAX_FREQ_MHZ: u32 = 50_000;

/// The warm-up instance's sampling frequency, in millihertz: one hertz.
pub const DEFAULT_FREQ_MHZ: u32 = 1000;

/// The trailing window of the thermal-trend classifier, in milliseconds.
pub const TREND_WINDOW_MS: u64 = 10_000;

/// How many trailing readings the aggregator's history keeps: one minute at
/// the default frequency.
pub const DEFAULT_HISTORY_CAPACITY: usize = 60;

/// An out-of-range requested frequency is silently clamped, never rejected.
pub open spec fn spec_clamp_frequency(requested_mhz: Option<u32>) -> int {
    match requested_mhz {
        None => DEFAULT_FREQ_MHZ as int,
        Some(f) => if f < MIN_FREQ_MHZ {
            MIN_FREQ_MHZ as int
        } else if f > MAX_FREQ_MHZ {
            MAX_FREQ_MHZ as int
        } else {
            f as int
        },
    }
}

/// Clamp a requested sampling frequency into the supported range; an absent
/// request means the default.
pub fn clamp_sampling_frequency(requested_mhz: Option<u32>) -> (r: u32)
    ensures
        r == spec_clamp_frequency(requested_mhz),
        MIN_FREQ_MHZ <= r <= MAX_FREQ_MHZ,
{
    match requested_mhz {
        None => DEFAULT_FREQ_MHZ,
        Some(f) => if f < MIN_FREQ_MHZ {
            MIN_FREQ_MHZ
        } else if f > MAX_FREQ_MHZ {
            MAX_FREQ_MHZ
        } else {
            f
        },
    }
}

/// The tick interval a clamped frequency yields, in milliseconds.
pub fn sampling_interval_ms(freq_mhz: u32) -> (r: u64)
    requires
        MIN_FREQ_MHZ <= freq_mhz <= MAX_FREQ_MHZ,
    ensures
        r == 1_000_000int / freq_mhz as int,
        20 <= r <= 10_000,
{
    proof {
        assert(20 <= 1_000_000int / (freq_mhz as int) <= 10_000) by (nonlinear_arith)
            requires
                100 <= freq_mhz <= 50_000,
        ;
    }
    1_000_000u64 / freq_mhz as u64
}

/// The warm-up handoff decision: a warm-up aggregator is already running at
/// the default frequency; it is kept only when the caller wants exactly
/// that frequency, else it is stopped and a fresh instance started.
#[derive(Clone, Copy, Debug, PartialEq, Eq, Structural)]
pub enum MonitoringPlan {
    /// The warm-up instance stays the authoritative one.
    ReuseWarmup,
    /// Stop the warm-up instance, then start one at the desired frequency.
    Restart,
}

/// Decide the handoff so that at most one aggregator instance is
/// authoritative at a time.
pub fn plan_frequency_handoff(desired_mhz: u32) -> (r: MonitoringPlan)
    ensures
        r == MonitoringPlan::ReuseWarmup <==> desired_mhz == DEFAULT_FREQ_MHZ,
{
    if desired_mhz == DEFAULT_FREQ_MHZ {
        MonitoringPlan::ReuseWarmup
    } else {
        MonitoringPlan::Restart
    }
}

/// A power value of a record, admitted into the snapshot: present, not
/// negative, and within the integrator's bound; anything else counts as
/// absent for its domain.
pub open spec fn spec_power_of(p: Option<i64>) -> Option<u64> {
    match p {
        Some(v) => if 0 <= v && v <= MAX_POWER_MW {
            Some(v as u64)
        } else {
            None
        },
        None => None,
    }
}

/// The record's CPU power, in milliwatts.
pub open spec fn spec_rec_cpu_power(record: Option<MacmonOutput>) -> Option<i64> {
    match record {
        Some(r) => r.cpu_power_mw,
        None => None,
    }
}

/// The record's GPU power, in milliwatts.
pub open spec fn spec_rec_gpu_power(record: Option<MacmonOutput>) -> Option<i64> {
    match record {
        Some(r) => r.gpu_power_mw,
        None => None,
    }
}

/// The record's accelerator power, in milliwatts.
pub open spec fn spec_rec_ane_power(record: Option<MacmonOutput>) -> Option<i64> {
    match record {
        Some(r) => r.ane_power_mw,
        None => None,
    }
}

/// The record's CPU temperature hint, in millidegrees.
pub open spec fn spec_rec_cpu_hint(record: Option<MacmonOutput>) -> Option<i64> {
    match record {
        Some(r) => match r.temp {
            Some(t) => t.cpu_temp_avg_mc,
            None => None,
        },
        None => None,
    }
}

/// The record's GPU temperature hint, in millidegrees.
pub open spec fn spec_rec_gpu_hint(record: Option<MacmonOutput>) -> Option<i64> {
    match record {
        Some(r) => match r.temp {
            Some(t) => t.gpu_temp_avg_mc,
            None => None,
        },
        None => None,
    }
}

/// The record's performance-cluster frequency, in milli-megahertz.
pub open spec fn spec_rec_cpu_freq(record: Option<MacmonOutput>) -> Option<i64> {
    match record {
        Some(r) => match r.pcpu_usage {
            Some(p) => Some(p.0),
            None => None,
        },
        None => None,
    }
}

/// The record's GPU frequency, in milli-megahertz.
pub open spec fn spec_rec_gpu_freq(record: Option<MacmonOutput>) -> Option<i64> {
    match record {
        Some(r) => match r.gpu_usage {
            Some(p) => Some(p.0),
            None => None,
        },
        None => None,
    }
}

/// The record's memory usage, in bytes.
pub open spec fn spec_rec_ram(record: Option<MacmonOutput>) -> Option<u64> {
    match record {
        Some(r) => match r.memory {
            Some(m) => m.ram_usage,
            None => None,
        },
        None => None,
    }
}

/// Fieldwise equality of two temperature snapshots.
pub open spec fn spec_ct_eq(a: CoreTemperatureData, b: CoreTemperatureData) -> bool {
    &&& a.p_cores_mc@ == b.p_cores_mc@
    &&& a.e_cores_mc@ == b.e_cores_mc@
    &&& a.cpu_temp_avg_mc == b.cpu_temp_avg_mc
    &&& a.cpu_temp_max_mc == b.cpu_temp_max_mc
    &&& a.cpu_temp_min_mc == b.cpu_temp_min_mc
    &&& a.gpu_temps_mc@ == b.gpu_temps_mc@
    &&& a.gpu_temp_avg_mc == b.gpu_temp_avg_mc
    &&& a.gpu_temp_max_mc == b.gpu_temp_max_mc
    &&& a.battery_temp_avg_mc == b.battery_temp_avg_mc
    &&& a.thermal_trend == b.thermal_trend
}

/// The whole merge contract of one tick, before energy accounting: native
/// sensor readings win, the external record fills power, frequency and
/// memory, and backfills temperatures only where no native reading exists.
pub open spec fn merged_snapshot_matches(
    r: TelemetryUpdate,
    timestamp_ms: u64,
    core_temps: Option<CoreTemperatureData>,
    utilization: UtilizationReport,
    record: Option<MacmonOutput>,
) -> bool {
    &&& r.timestamp_ms == timestamp_ms
    &&& r.cpu_power_mw == spec_power_of(spec_rec_cpu_power(record))
    &&& r.gpu_power_mw == spec_power_of(spec_rec_gpu_power(record))
    &&& r.ane_power_mw == spec_power_of(spec_rec_ane_power(record))
    &&& r.cpu_temp_mc == (match core_temps {
        Some(c) => Some(c.cpu_temp_avg_mc),
        None => spec_rec_cpu_hint(record),
    })
    &&& r.gpu_temp_mc == (match core_temps {
        Some(c) => if c.gpu_temp_avg_mc is Some {
            c.gpu_temp_avg_mc
        } else {
            spec_rec_gpu_hint(record)
        },
        None => spec_rec_gpu_hint(record),
    })
    &&& r.cpu_freq_khz == spec_rec_cpu_freq(record)
    &&& r.gpu_freq_khz == spec_rec_gpu_freq(record)
    &&& r.ram_usage_bytes == spec_rec_ram(record)
    &&& r.thermal_pressure is None
    &&& r.ttft_ms is None
    &&& r.current_tps_milli is None
    &&& r.instantaneous_tps_milli is None
    &&& r.generation_time_ms is None
    &&& r.model is None
    &&& r.cpu_temp_avg_mc == (match core_temps {
        Some(c) => Some(c.cpu_temp_avg_mc),
        None => spec_rec_cpu_hint(record),
    })
    &&& r.cpu_temp_max_mc == (match core_temps {
        Some(c) => Some(c.cpu_temp_max_mc),
        None => None,
    })
    &&& (match core_temps {
        Some(c) => r.cpu_p_core_temps_mc matches Some(v) && v@ == c.p_cores_mc@,
        None => r.cpu_p_core_temps_mc is None,
    })
    &&& (match core_temps {
        Some(c) => r.cpu_e_core_temps_mc matches Some(v) && v@ == c.e_cores_mc@,
        None => r.cpu_e_core_temps_mc is None,
    })
    &&& r.gpu_temp_avg_mc == (match core_temps {
        Some(c) => c.gpu_temp_avg_mc,
        None => spec_rec_gpu_hint(record),
    })
    &&& r.gpu_temp_max_mc == (match core_temps {
        Some(c) => c.gpu_temp_max_mc,
        None => None,
    })
    &&& (match core_temps {
        Some(c) => r.gpu_cluster_temps_mc matches Some(v) && v@ == c.gpu_temps_mc@,
        None => r.gpu_cluster_temps_mc is None,
    })
    &&& r.battery_temp_avg_mc == (match core_temps {
        Some(c) => c.battery_temp_avg_mc,
        None => None,
    })
    &&& (r.cpu_p_core_utilization_cpct matches Some(v) && v@ == utilization.p_core_cpct@)
    &&& (r.cpu_e_core_utilization_cpct matches Some(v) && v@ == utilization.e_core_cpct@)
    &&& r.cpu_overall_utilization_cpct == Some(utilization.overall_cpct)
    &&& (match core_temps {
        Some(c) => r.core_temperatures matches Some(d) && spec_ct_eq(d, c),
        None => r.core_temperatures is None,
    })
    &&& r.total_energy_nj is None
    &&& r.cpu_energy_nj is None
    &&& r.gpu_energy_nj is None
    &&& r.ane_energy_nj is None
    &&& r.energy_rate_nj_per_token is None
}

/// Admit a record's power value into the snapshot.
fn power_of(p: Option<i64>) -> (r: Option<u64>)
    ensures
        r == spec_power_of(p),
{
    match p {
        Some(v) => if 0 <= v && v as u64 <= MAX_POWER_MW && v >= 0 {
            Some(v as u64)
        } else {
            None
        },
        None => None,
    }
}

/// Merge one tick's observations into the snapshot to publish, before
/// energy accounting.
pub fn merge_tick_snapshot(
    timestamp_ms: u64,
    core_temps: Option<CoreTemperatureData>,
    utilization: UtilizationReport,
    record: Option<MacmonOutput>,
) -> (r: TelemetryUpdate)
    ensures
        merged_snapshot_matches(r, timestamp_ms, core_temps, utilization, record),
{
    let (cpu_power, gpu_power, ane_power, cpu_hint, gpu_hint, cpu_freq, gpu_freq, ram): (
        Option<u64>,
        Option<u64>,
        Option<u64>,
        Option<i64>,
        Option<i64>,
        Option<i64>,
        Option<i64>,
        Option<u64>,
    ) = match &record {
        Some(rec) => (
            power_of(rec.cpu_power_mw),
            power_of(rec.gpu_power_mw),
            power_of(rec.ane_power_mw),
            match &rec.temp {
                Some(t) => t.cpu_temp_avg_mc,
                None => None,
            },
            match &rec.temp {
                Some(t) => t.gpu_temp_avg_mc,
                None => None,
            },
            match &rec.pcpu_usage {
                Some(p) => Some(p.0),
                None => None,
            },
            match &rec.gpu_usage {
                Some(p) => Some(p.0),
                None => None,
            },
            match &rec.memory {
                Some(m) => m.ram_usage,
                None => None,
            },
        ),
        None => (None, None, None, None, None, None, None, None),
    };
    match core_temps {
        Some(c) => {
            let p_copy: Vec<i64> = copy_range(&c.p_cores_mc, 0, c.p_cores_mc.len());
            let e_copy: Vec<i64> = copy_range(&c.e_cores_mc, 0, c.e_cores_mc.len());
            let g_copy: Vec<i64> = copy_range(&c.gpu_temps_mc, 0, c.gpu_temps_mc.len());
            proof {
                assert(c.p_cores_mc@.subrange(0, c.p_cores_mc@.len() as int) =~= c.p_cores_mc@);
                assert(c.e_cores_mc@.subrange(0, c.e_cores_mc@.len() as int) =~= c.e_cores_mc@);
                assert(c.gpu_temps_mc@.subrange(0, c.gpu_temps_mc@.len() as int)
                    =~= c.gpu_temps_mc@);
            }
            let gpu_temp_legacy: Option<i64> = match c.gpu_temp_avg_mc {
                Some(v) => Some(v),
                None => gpu_hint,
            };
            TelemetryUpdate {
                timestamp_ms,
                cpu_power_mw: cpu_power,
                gpu_power_mw: gpu_power,
                ane_power_mw: ane_power,
                cpu_temp_mc: Some(c.cpu_temp_avg_mc),
                gpu_temp_mc: gpu_temp_legacy,
                cpu_freq_khz: cpu_freq,
                gpu_freq_khz: gpu_freq,
                ram_usage_bytes: ram,
                thermal_pressure: None,
                ttft_ms: None,
                current_tps_milli: None,
                instantaneous_tps_milli: None,
                generation_time_ms: None,
                model: None,
                cpu_temp_avg_mc: Some(c.cpu_temp_avg_mc),
                cpu_temp_max_mc: Some(c.cpu_temp_max_mc),
                cpu_p_core_temps_mc: Some(p_copy),
                cpu_e_core_temps_mc: Some(e_copy),
                gpu_temp_avg_mc: c.gpu_temp_avg_mc,
                gpu_temp_max_mc: c.gpu_temp_max_mc,
                gpu_cluster_temps_mc: Some(g_copy),
                battery_temp_avg_mc: c.battery_temp_avg_mc,
                cpu_p_core_utilization_cpct: Some(utilization.p_core_cpct),
                cpu_e_core_utilization_cpct: Some(utilization.e_core_cpct),
                cpu_overall_utilization_cpct: Some(utilization.overall_cpct),
                core_temperatures: Some(c),
                total_energy_nj: None,
                cpu_energy_nj: None,
                gpu_energy_nj: None,
                ane_energy_nj: None,
                energy_rate_nj_per_token: None,
            }
        },
        None => TelemetryUpdate {
            timestamp_ms,
            cpu_power_mw: cpu_power,
            gpu_power_mw: gpu_power,
            ane_power_mw: ane_power,
            cpu_temp_mc: cpu_hint,
            gpu_temp_mc: gpu_hint,
            cpu_freq_khz: cpu_freq,
            gpu_freq_khz: gpu_freq,
            ram_usage_bytes: ram,
            thermal_pressure: None,
            ttft_ms: None,
            current_tps_milli: None,
            instantaneous_tps_milli: None,
            generation_time_ms: None,
            model: None,
            cpu_temp_avg_mc: cpu_hint,
            cpu_temp_max_mc: None,
            cpu_p_core_temps_mc: None,
            cpu_e_core_temps_mc: None,
            gpu_temp_avg_mc: gpu_hint,
            gpu_temp_max_mc: None,
            gpu_cluster_temps_mc: None,
            battery_temp_avg_mc: None,
            cpu_p_core_utilization_cpct: Some(utilization.p_core_cpct),
            cpu_e_core_utilization_cpct: Some(utilization.e_core_cpct),
            cpu_overall_utilization_cpct: Some(utilization.overall_cpct),
            core_temperatures: None,
            total_energy_nj: None,
            cpu_energy_nj: None,
            gpu_energy_nj: None,
            ane_energy_nj: None,
            energy_rate_nj_per_token: None,
        },
    }
}

/// One tick's observations, as the surrounding loop collected them.
pub struct TickInputs {
    pub timestamp_ms: u64,
    /// The native temperature snapshot, absent when the platform query
    /// failed this tick.
    pub core_temps: Option<CoreTemperatureData>,
    pub utilization: UtilizationReport,
    /// The external process's record, absent on a pending window, an ended
    /// stream, a dropped line, or a session without the process.
    pub record: Option<MacmonOutput>,
    /// Whether a reset command was drained before sampling.
    pub reset_requested: bool,
}

/// The aggregator's per-session state: the trend history and the energy
/// accounting, with the timestamp of the last published snapshot.
pub struct AggregatorState {
    pub history: TemperatureHistory,
    pub calculator: PowerCalculator,
    pub last_timestamp_ms: Option<u64>,
}

/// The calculator a tick integrates with: reset first when a reset command
/// was drained.
pub open spec fn spec_calc_before(c: PowerCalculator, reset_requested: bool) -> PowerCalculator {
    if reset_requested {
        PowerCalculator::initial_state()
    } else {
        c
    }
}

/// The power reading a merged snapshot hands the integrator.
pub open spec fn spec_tick_reading(inputs: TickInputs) -> PowerReading {
    PowerReading {
        timestamp_ms: inputs.timestamp_ms,
        cpu_power_mw: spec_power_of(spec_rec_cpu_power(inputs.record)),
        gpu_power_mw: spec_power_of(spec_rec_gpu_power(inputs.record)),
        ane_power_mw: spec_power_of(spec_rec_ane_power(inputs.record)),
    }
}

/// The native snapshot with its trend replaced by the one the updated
/// history yields.
pub open spec fn spec_ct_with_trend(
    inputs: TickInputs,
    history_after: Seq<(u64, i64)>,
) -> Option<CoreTemperatureData> {
    match inputs.core_temps {
        Some(c) => Some(
            CoreTemperatureData {
                thermal_trend: trend_of(history_after, TREND_WINDOW_MS as int),
                ..c
            },
        ),
        None => None,
    }
}

impl AggregatorState {
    /// The session invariant: both accumulators are well formed, and the
    /// integrator's remembered reading is no younger than the last
    /// published snapshot.
    pub open spec fn wf(&self) -> bool {
        &&& self.history.wf()
        &&& self.calculator.wf()
        &&& (self.calculator.previous matches Some(p) ==> self.last_timestamp_ms matches Some(lt)
            && p.timestamp_ms <= lt)
    }

    /// Fresh per-session state.
    pub fn new(history_capacity: usize) -> (r: AggregatorState)
        ensures
            r.wf(),
            r.history.readings_seq() == Seq::<(u64, i64)>::empty(),
            r.history.capacity() == history_capacity,
            r.calculator == PowerCalculator::initial_state(),
            r.last_timestamp_ms is None,
    {
        AggregatorState {
            history: TemperatureHistory::new(history_capacity),
            calculator: PowerCalculator::new(),
            last_timestamp_ms: None,
        }
    }

    /// One aggregator tick: drain the reset command, record the native
    /// average into the trend history, merge the observations, integrate
    /// the merged power, and hand back the snapshot to publish. Published
    /// timestamps are strictly increasing, so a failed tick degrades but
    /// never goes back in time.
    pub fn tick(&mut self, inputs: TickInputs) -> (r: TelemetryUpdate)
        requires
            old(self).wf(),
            inputs.timestamp_ms <= MAX_TIMESTAMP_MS,
            old(self).last_timestamp_ms matches Some(lt) ==> inputs.timestamp_ms > lt,
        ensures
            final(self).wf(),
            final(self).last_timestamp_ms == Some(inputs.timestamp_ms),
            final(self).history.capacity() == old(self).history.capacity(),
            inputs.core_temps matches Some(c) ==> final(self).history.readings_seq()
                == spec_after_add(
                old(self).history.readings_seq(),
                old(self).history.capacity(),
                inputs.timestamp_ms,
                c.cpu_temp_avg_mc,
            ),
            inputs.core_temps is None ==> final(self).history.readings_seq()
                == old(self).history.readings_seq(),
            final(self).calculator == spec_calc_before(
                old(self).calculator,
                inputs.reset_requested,
            ).step(spec_tick_reading(inputs)),
            merged_snapshot_matches(
                (TelemetryUpdate {
                    total_energy_nj: None,
                    cpu_energy_nj: None,
                    gpu_energy_nj: None,
                    ane_energy_nj: None,
                    ..r
                }),
                inputs.timestamp_ms,
                spec_ct_with_trend(inputs, final(self).history.readings_seq()),
                inputs.utilization,
                inputs.record,
            ),
            r.cpu_energy_nj == Some(final(self).calculator.cumulative_cpu_energy_nj),
            r.gpu_energy_nj == Some(final(self).calculator.cumulative_gpu_energy_nj),
            r.ane_energy_nj == Some(final(self).calculator.cumulative_ane_energy_nj),
            r.total_energy_nj == Some(
                (final(self).calculator.cumulative_cpu_energy_nj
                    + final(self).calculator.cumulative_gpu_energy_nj
                    + final(self).calculator.cumulative_ane_energy_nj) as u128,
            ),
    {
        if inputs.reset_requested {
            self.calculator.reset();
        }
        let core_temps: Option<CoreTemperatureData> = match inputs.core_temps {
            Some(mut c) => {
                self.history.add_reading(inputs.timestamp_ms, c.cpu_temp_avg_mc);
                c.thermal_trend = self.history.get_trend(TREND_WINDOW_MS);
                Some(c)
            },
            None => None,
        };
        let base: TelemetryUpdate = merge_tick_snapshot(
            inputs.timestamp_ms,
            core_temps,
            inputs.utilization,
            inputs.record,
        );
        let snapshot: TelemetryUpdate = self.calculator.update_with_telemetry(base);
        self.last_timestamp_ms = Some(inputs.timestamp_ms);
        snapshot
    }
}

} // verus!

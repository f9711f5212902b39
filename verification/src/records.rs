//! The self-describing records emitted by the external power/frequency
//! sampling process, and the bounded-read outcome the aggregator sees.
//!
//! Every numeric field is fixed point, scaled by one thousand from the
//! process's decimal text: power in milliwatts, temperatures in
//! millidegrees, frequencies in milli-megahertz, usage in milli-percent.
//! Memory counters are plain byte counts.

use vstd::prelude::*;

verus! {

/// Temperature hints carried by a record, in millidegrees Celsius.
#[derive(Clone, Copy, Debug, PartialEq, Eq)]
pub struct TemperatureInfo {
    pub cpu_temp_avg_mc: Option<i64>,
    pub gpu_temp_avg_mc: Option<i64>,
}

/// Memory counters carried by a record, in bytes.
#[derive(Clone, Copy, Debug, PartialEq, Eq)]
pub struct MemoryInfo {
    pub ram_total: Option<u64>,
    pub ram_usage: Option<u64>,
    pub swap_total: Option<u64>,
    pub swap_usage: Option<u64>,
}

/// One record of the external sampling process. A `(frequency, usage)` pair
/// is carried in milli-megahertz and milli-percent; power in milliwatts.
#[derive(Clone, Debug)]
pub struct MacmonOutput {
    /// The capture timestamp's raw text.
    pub timestamp: Vec<u8>,
    pub temp: Option<TemperatureInfo>,
    pub memory: Option<MemoryInfo>,
    pub ecpu_usage: Option<(i64, i64)>,
    pub pcpu_usage: Option<(i64, i64)>,
    pub gpu_usage: Option<(i64, i64)>,
    pub cpu_power_mw: Option<i64>,
    pub gpu_power_mw: Option<i64>,
    pub ane_power_mw: Option<i64>,
    pub sys_power_mw: Option<i64>,
}

/// Outcome of one bounded read from the external sampling process: a
/// record, nothing within the window, or a closed stream.
#[derive(Clone, Debug)]
pub enum ReadOutcome {
    Data(MacmonOutput),
    Pending,
    Ended,
}

/// The record a bounded read contributes to the tick: one from `Data`,
/// none from a pending window or an ended stream.
pub fn record_of_outcome(outcome: ReadOutcome) -> (r: Option<MacmonOutput>)
    ensures
        outcome matches ReadOutcome::Data(d) ==> r == Some(d),
        !(outcome is Data) ==> r is None,
{
    match outcome {
        ReadOutcome::Data(d) => Some(d),
        ReadOutcome::Pending => None,
        ReadOutcome::Ended => None,
    }
}

} // verus!

//! Short-window thermal-trend classification over a fixed-capacity history
//! of average-temperature readings.

use vstd::prelude::*;

verus! {

/// Classification of the recent temperature trajectory.
///
/// A delta of more than five degrees in either direction within the window is
/// reported as the undirected `Rapid` tag.
#[derive(Clone, Copy, Debug, PartialEq, Eq, Structural)]
pub enum ThermalTrend {
    Cooling,
    Heating,
    Stable,
    Rapid,
}

/// Trend thresholds, in millidegrees Celsius.
pub const RAPID_DELTA_MC: i64 = 5000;

pub const SLOW_DELTA_MC: i64 = 1000;

/// Classification of a temperature change across the trailing window.
pub open spec fn classify_delta(delta_mc: int) -> ThermalTrend {
    if delta_mc > RAPID_DELTA_MC {
        ThermalTrend::Rapid
    } else if delta_mc > SLOW_DELTA_MC {
        ThermalTrend::Heating
    } else if delta_mc < -RAPID_DELTA_MC {
        ThermalTrend::Rapid
    } else if delta_mc < -SLOW_DELTA_MC {
        ThermalTrend::Cooling
    } else {
        ThermalTrend::Stable
    }
}

/// Whether the reading at timestamp `ts` falls inside the trailing window
/// ending at `now`. A reading not older than the window is kept; a reading
/// stamped at or after `now` trivially is.
pub open spec fn in_window(ts: int, now: int, window_ms: int) -> bool {
    ts >= now || now - ts <= window_ms
}

/// Number of readings of `s` inside the window, counted over the prefix of
/// length `i`.
pub open spec fn count_in_window(s: Seq<(u64, i64)>, now: int, window_ms: int, i: int) -> int
    decreases i,
{
    if i <= 0 {
        0
    } else {
        count_in_window(s, now, window_ms, i - 1) + if in_window(s[i - 1].0 as int, now, window_ms) {
            1int
        } else {
            0int
        }
    }
}

/// Index of the first reading of `s` inside the window, searching from `i`;
/// `s.len()` when none is.
pub open spec fn first_in_window_from(s: Seq<(u64, i64)>, now: int, window_ms: int, i: int) -> int
    decreases s.len() - i,
{
    if i < 0 || i >= s.len() {
        s.len() as int
    } else if in_window(s[i].0 as int, now, window_ms) {
        i
    } else {
        first_in_window_from(s, now, window_ms, i + 1)
    }
}

/// The trend a history `s` yields for the trailing window `window_ms`:
/// `Stable` unless at least three readings fall inside the window ending at
/// the last reading's timestamp, else the classification of last-minus-first
/// among the readings inside the window.
pub open spec fn trend_of(s: Seq<(u64, i64)>, window_ms: int) -> ThermalTrend {
    if s.len() < 3 {
        ThermalTrend::Stable
    } else {
        let now = s[s.len() - 1].0 as int;
        if count_in_window(s, now, window_ms, s.len() as int) < 3 {
            ThermalTrend::Stable
        } else {
            let first = first_in_window_from(s, now, window_ms, 0);
            classify_delta(s[s.len() - 1].1 - s[first].1)
        }
    }
}

/// The history contents after appending one reading: the oldest entry is
/// evicted when the capacity would be exceeded.
pub open spec fn spec_after_add(
    s: Seq<(u64, i64)>,
    capacity: int,
    timestamp: u64,
    temp_mc: i64,
) -> Seq<(u64, i64)> {
    if s.len() + 1 > capacity {
        s.push((timestamp, temp_mc)).drop_first()
    } else {
        s.push((timestamp, temp_mc))
    }
}

/// Fixed-capacity FIFO of `(timestamp_ms, average_temperature_mc)` readings;
/// the oldest reading is evicted on overflow.
pub struct TemperatureHistory {
    readings: Vec<(u64, i64)>,
    max_size: usize,
}

impl TemperatureHistory {
    /// The recorded readings, oldest first.
    pub closed spec fn readings_seq(&self) -> Seq<(u64, i64)> {
        self.readings@
    }

    /// The capacity bound the history was created with.
    pub closed spec fn capacity(&self) -> int {
        self.max_size as int
    }

    /// The history never holds more readings than its capacity.
    pub open spec fn wf(&self) -> bool {
        self.readings_seq().len() <= vstd::math::max(self.capacity(), 1)
    }

    pub fn new(max_size: usize) -> (r: TemperatureHistory)
        ensures
            r.wf(),
            r.readings_seq() == Seq::<(u64, i64)>::empty(),
            r.capacity() == max_size,
    {
        TemperatureHistory { readings: Vec::new(), max_size }
    }

    /// Append a reading, evicting the oldest one if the capacity is exceeded.
    pub fn add_reading(&mut self, timestamp: u64, temp_mc: i64)
        requires
            old(self).wf(),
        ensures
            final(self).wf(),
            final(self).capacity() == old(self).capacity(),
            final(self).readings_seq() == spec_after_add(
                old(self).readings_seq(),
                old(self).capacity(),
                timestamp,
                temp_mc,
            ),
    {
        self.readings.push((timestamp, temp_mc));
        if self.readings.len() > self.max_size {
            self.readings.remove(0);
            assert(self.readings@ =~= old(self).readings_seq().push(
                (timestamp, temp_mc),
            ).drop_first());
        } else {
            assert(self.readings@ =~= old(self).readings_seq().push((timestamp, temp_mc)));
        }
    }

    /// The trend across the trailing `window_ms` of recorded readings.
    pub fn get_trend(&self, window_ms: u64) -> (r: ThermalTrend)
        ensures
            r == trend_of(self.readings_seq(), window_ms as int),
    {
        let n: usize = self.readings.len();
        if n < 3 {
            return ThermalTrend::Stable;
        }
        let now: u64 = self.readings[n - 1].0;
        let mut count: usize = 0;
        let mut first: usize = n;
        let mut i: usize = 0;
        proof {
            lemma_first_in_window_props(self.readings@, now as int, window_ms as int, 0);
        }
        while i < n
            invariant
                n == self.readings@.len(),
                i <= n,
                count as int == count_in_window(
                    self.readings@,
                    now as int,
                    window_ms as int,
                    i as int,
                ),
                count <= i,
                first as int == if count > 0 {
                    first_in_window_from(self.readings@, now as int, window_ms as int, 0)
                } else {
                    n as int
                },
                count > 0 ==> first < n,
                count == 0 ==> first_in_window_from(
                    self.readings@,
                    now as int,
                    window_ms as int,
                    0,
                ) >= i,
            decreases n - i,
        {
            let ts: u64 = self.readings[i].0;
            let inside: bool = ts >= now || now - ts <= window_ms;
            if inside {
                if count == 0 {
                    proof {
                        lemma_first_in_window_exact(
                            self.readings@,
                            now as int,
                            window_ms as int,
                            0,
                            i as int,
                        );
                    }
                    first = i;
                }
                count = count + 1;
            } else {
                proof {
                    if count == 0 {
                        lemma_first_in_window_props(
                            self.readings@,
                            now as int,
                            window_ms as int,
                            0,
                        );
                    }
                }
            }
            i = i + 1;
        }
        proof {
            lemma_count_le(self.readings@, now as int, window_ms as int, n as int);
        }
        if count < 3 {
            return ThermalTrend::Stable;
        }
        let last_temp: i64 = self.readings[n - 1].1;
        let first_temp: i64 = self.readings[first].1;
        let delta: i128 = last_temp as i128 - first_temp as i128;
        if delta > RAPID_DELTA_MC as i128 {
            ThermalTrend::Rapid
        } else if delta > SLOW_DELTA_MC as i128 {
            ThermalTrend::Heating
        } else if delta < -(RAPID_DELTA_MC as i128) {
            ThermalTrend::Rapid
        } else if delta < -(SLOW_DELTA_MC as i128) {
            ThermalTrend::Cooling
        } else {
            ThermalTrend::Stable
        }
    }
}

/// The first-in-window search from `j` lands at or after `j`, and where it
/// lands short of the end, that reading is inside the window.
proof fn lemma_first_in_window_props(s: Seq<(u64, i64)>, now: int, window_ms: int, j: int)
    requires
        0 <= j <= s.len(),
    ensures
        first_in_window_from(s, now, window_ms, j) >= j,
        first_in_window_from(s, now, window_ms, j) <= s.len(),
        first_in_window_from(s, now, window_ms, j) < s.len() ==> in_window(
            s[first_in_window_from(s, now, window_ms, j)].0 as int,
            now,
            window_ms,
        ),
    decreases s.len() - j,
{
    if j < s.len() && !in_window(s[j].0 as int, now, window_ms) {
        lemma_first_in_window_props(s, now, window_ms, j + 1);
    }
}

/// Where the search from `j` has not stopped before `i` and the reading at
/// `i` is inside the window, the search stops exactly at `i`.
proof fn lemma_first_in_window_exact(s: Seq<(u64, i64)>, now: int, window_ms: int, j: int, i: int)
    requires
        0 <= j <= i < s.len(),
        first_in_window_from(s, now, window_ms, j) >= i,
        in_window(s[i].0 as int, now, window_ms),
    ensures
        first_in_window_from(s, now, window_ms, j) == i,
    decreases i - j,
{
    if j < i {
        lemma_first_in_window_exact(s, now, window_ms, j + 1, i);
    }
}

/// The window count over a prefix never exceeds the prefix length.
proof fn lemma_count_le(s: Seq<(u64, i64)>, now: int, window_ms: int, i: int)
    requires
        i >= 0,
    ensures
        count_in_window(s, now, window_ms, i) <= i,
        count_in_window(s, now, window_ms, i) >= 0,
    decreases i,
{
    if i > 0 {
        lemma_count_le(s, now, window_ms, i - 1);
    }
}

} // verus!

//! Categorization of raw temperature-sensor readings into chip areas, and
//! the per-area statistics of one temperature snapshot.
//!
//! Sensor names arrive as byte strings. A reading outside the plausible
//! range is discarded as a sentinel. Names are matched against area
//! patterns; when neither performance- nor efficiency-area sensors were
//! identified but uncategorized ones exist, the uncategorized readings are
//! split positionally, the first two thirds to the performance area.

use vstd::prelude::*;
use crate::errors::TelemetryError;
use crate::trend::ThermalTrend;

verus! {

/// Lower bound of a plausible sensor reading, in millidegrees (exclusive).
pub const TEMP_MIN_MC: i64 = 0;

/// Upper bound of a plausible sensor reading, in millidegrees (exclusive):
/// 150 degrees Celsius.
pub const TEMP_MAX_MC: i64 = 150_000;

/// One raw sensor reading: the sensor's name and its value in millidegrees.
#[derive(Clone, Debug)]
pub struct SensorReading {
    pub name: Vec<u8>,
    pub temp_mc: i64,
}

/// The chip area a sensor name is attributed to.
#[derive(Clone, Copy, Debug, PartialEq, Eq, Structural)]
pub enum SensorCategory {
    Performance,
    Efficiency,
    Gpu,
    Battery,
    Other,
}

/// Per-area temperature statistics of one tick, in millidegrees Celsius.
#[derive(Clone, Debug)]
pub struct CoreTemperatureData {
    pub p_cores_mc: Vec<i64>,
    pub e_cores_mc: Vec<i64>,
    pub cpu_temp_avg_mc: i64,
    pub cpu_temp_max_mc: i64,
    pub cpu_temp_min_mc: i64,
    pub gpu_temps_mc: Vec<i64>,
    pub gpu_temp_avg_mc: Option<i64>,
    pub gpu_temp_max_mc: Option<i64>,
    pub battery_temp_avg_mc: Option<i64>,
    pub thermal_trend: ThermalTrend,
}

/// The bytes of an ASCII string literal.
pub open spec fn ascii_seq(s: Seq<char>) -> Seq<u8> {
    s.map_values(|c: char| c as u8)
}

/// ASCII lowercasing of one byte.
pub open spec fn lower_byte(b: u8) -> u8 {
    if 'A' as u8 <= b && b <= 'Z' as u8 {
        (b + 32) as u8
    } else {
        b
    }
}

/// ASCII lowercasing of a byte string.
pub open spec fn lower_bytes(s: Seq<u8>) -> Seq<u8> {
    s.map_values(|b: u8| lower_byte(b))
}

/// Whether `needle` occurs in `hay` at offset `i`.
pub open spec fn contains_at(hay: Seq<u8>, needle: Seq<u8>, i: int) -> bool {
    &&& 0 <= i
    &&& i + needle.len() <= hay.len()
    &&& hay.subrange(i, i + needle.len() as int) == needle
}

/// Whether `needle` occurs anywhere in `hay`.
pub open spec fn contains_seq(hay: Seq<u8>, needle: Seq<u8>) -> bool {
    exists|i: int| contains_at(hay, needle, i)
}

/// The area a sensor name is attributed to, by the first matching pattern:
/// performance, efficiency, GPU, battery, or uncategorized.
pub open spec fn spec_category(name: Seq<u8>) -> SensorCategory {
    if contains_seq(name, ascii_seq("pACC MTR Temp Sensor"@)) || contains_seq(
        lower_bytes(name),
        ascii_seq("performance"@),
    ) {
        SensorCategory::Performance
    } else if contains_seq(name, ascii_seq("eACC MTR Temp Sensor"@)) || contains_seq(
        lower_bytes(name),
        ascii_seq("efficiency"@),
    ) {
        SensorCategory::Efficiency
    } else if contains_seq(name, ascii_seq("GPU MTR Temp Sensor"@)) || contains_seq(
        lower_bytes(name),
        ascii_seq("gpu"@),
    ) {
        SensorCategory::Gpu
    } else if contains_seq(name, ascii_seq("gas gauge battery"@)) {
        SensorCategory::Battery
    } else {
        SensorCategory::Other
    }
}

/// A plausible reading; anything else is a sentinel and is discarded.
pub open spec fn spec_valid_reading(r: SensorReading) -> bool {
    TEMP_MIN_MC < r.temp_mc < TEMP_MAX_MC
}

/// The valid temperatures of category `cat`, in reading order, over the
/// prefix of length `i`.
pub open spec fn cat_temps(s: Seq<SensorReading>, cat: SensorCategory, i: int) -> Seq<i64>
    decreases i,
{
    if i <= 0 {
        Seq::empty()
    } else {
        cat_temps(s, cat, i - 1) + if spec_valid_reading(s[i - 1]) && spec_category(
            s[i - 1].name@,
        ) == cat {
            seq![s[i - 1].temp_mc]
        } else {
            Seq::empty()
        }
    }
}

/// Whether the positional fallback split applies: no sensor was attributed
/// to either core area, but uncategorized ones exist.
pub open spec fn spec_split_applies(s: Seq<SensorReading>) -> bool {
    &&& cat_temps(s, SensorCategory::Performance, s.len() as int).len() == 0
    &&& cat_temps(s, SensorCategory::Efficiency, s.len() as int).len() == 0
    &&& cat_temps(s, SensorCategory::Other, s.len() as int).len() > 0
}

/// The performance-area temperatures after the positional fallback.
pub open spec fn spec_perf_temps(s: Seq<SensorReading>) -> Seq<i64> {
    if spec_split_applies(s) {
        let other = cat_temps(s, SensorCategory::Other, s.len() as int);
        other.subrange(0, other.len() as int * 2 / 3)
    } else {
        cat_temps(s, SensorCategory::Performance, s.len() as int)
    }
}

/// The efficiency-area temperatures after the positional fallback.
pub open spec fn spec_eff_temps(s: Seq<SensorReading>) -> Seq<i64> {
    if spec_split_applies(s) {
        let other = cat_temps(s, SensorCategory::Other, s.len() as int);
        other.subrange(other.len() as int * 2 / 3, other.len() as int)
    } else {
        cat_temps(s, SensorCategory::Efficiency, s.len() as int)
    }
}

/// All core-area temperatures, performance first.
pub open spec fn spec_cpu_temps(s: Seq<SensorReading>) -> Seq<i64> {
    spec_perf_temps(s) + spec_eff_temps(s)
}

/// Sum of a temperature sequence.
pub open spec fn seq_sum(s: Seq<i64>) -> int
    decreases s.len(),
{
    if s.len() == 0 {
        0
    } else {
        seq_sum(s.drop_last()) + s.last()
    }
}

/// Maximum of a temperature sequence, its last element breaking no tie.
pub open spec fn seq_max(s: Seq<i64>) -> int
    decreases s.len(),
{
    if s.len() <= 1 {
        if s.len() == 0 {
            0
        } else {
            s[0] as int
        }
    } else if s.last() as int >= seq_max(s.drop_last()) {
        s.last() as int
    } else {
        seq_max(s.drop_last())
    }
}

/// Minimum of a temperature sequence.
pub open spec fn seq_min(s: Seq<i64>) -> int
    decreases s.len(),
{
    if s.len() <= 1 {
        if s.len() == 0 {
            0
        } else {
            s[0] as int
        }
    } else if s.last() as int <= seq_min(s.drop_last()) {
        s.last() as int
    } else {
        seq_min(s.drop_last())
    }
}

/// Truncating average of a nonempty temperature sequence.
pub open spec fn seq_avg(s: Seq<i64>) -> int {
    seq_sum(s) / s.len() as int
}

/// The bytes of an ASCII pattern literal, as a vector.
pub fn str_to_ascii_bytes(s: &str) -> (v: Vec<u8>)
    ensures
        v@ == ascii_seq(s@),
{
    let n: usize = s.unicode_len();
    let mut v: Vec<u8> = Vec::new();
    let mut i: usize = 0;
    while i < n
        invariant
            n == s@.len(),
            i <= n,
            v@.len() == i,
            forall|j: int| 0 <= j < i ==> v@[j] == s@[j] as u8,
        decreases n - i,
    {
        let c: char = s.get_char(i);
        v.push(c as u8);
        i = i + 1;
    }
    proof {
        assert(v@ =~= ascii_seq(s@));
    }
    v
}

/// ASCII lowercasing of one byte.
fn to_lower_byte(b: u8) -> (r: u8)
    ensures
        r == lower_byte(b),
{
    if b >= 'A' as u8 && b <= 'Z' as u8 {
        b + 32
    } else {
        b
    }
}

/// Naive substring search over byte strings.
pub fn contains_bytes(hay: &Vec<u8>, needle: &Vec<u8>) -> (r: bool)
    ensures
        r == contains_seq(hay@, needle@),
{
    let h: usize = hay.len();
    let n: usize = needle.len();
    if n > h {
        proof {
            assert(forall|i: int| !contains_at(hay@, needle@, i));
        }
        return false;
    }
    let mut i: usize = 0;
    while i <= h - n
        invariant
            h == hay@.len(),
            n == needle@.len(),
            n <= h,
            i <= h - n + 1,
            forall|k: int| 0 <= k < i ==> !contains_at(hay@, needle@, k),
        decreases h - n + 1 - i,
    {
        let mut j: usize = 0;
        let mut matches_here: bool = true;
        while j < n
            invariant
                h == hay@.len(),
                n == needle@.len(),
                i + n <= h,
                j <= n,
                matches_here == (forall|t: int| 0 <= t < j ==> hay@[i + t] == needle@[t]),
                !matches_here ==> j == n,
            decreases n - j,
        {
            if hay[i + j] != needle[j] {
                matches_here = false;
                j = n;
            } else {
                proof {
                    assert(hay@[i + j] == needle@[j as int]);
                    assert(forall|t: int| 0 <= t < j + 1 ==> hay@[i + t] == needle@[t]);
                }
                j = j + 1;
            }
        }
        if matches_here {
            proof {
                assert(hay@.subrange(i as int, i + n) =~= needle@);
                assert(contains_at(hay@, needle@, i as int));
            }
            return true;
        }
        proof {
            assert(!contains_at(hay@, needle@, i as int));
        }
        i = i + 1;
    }
    proof {
        assert(forall|k: int| !contains_at(hay@, needle@, k));
    }
    false
}

/// The ASCII lowercasing of a byte string, as a vector.
pub fn lower_bytes_vec(s: &Vec<u8>) -> (v: Vec<u8>)
    ensures
        v@ == lower_bytes(s@),
{
    let n: usize = s.len();
    let mut v: Vec<u8> = Vec::new();
    let mut i: usize = 0;
    while i < n
        invariant
            n == s@.len(),
            i <= n,
            v@.len() == i,
            forall|j: int| 0 <= j < i ==> v@[j] == lower_byte(s@[j]),
        decreases n - i,
    {
        v.push(to_lower_byte(s[i]));
        i = i + 1;
    }
    proof {
        assert(v@ =~= lower_bytes(s@));
    }
    v
}

/// Attribute one sensor name to its chip area.
pub fn categorize_sensor(name: &Vec<u8>) -> (r: SensorCategory)
    ensures
        r == spec_category(name@),
{
    let lowered: Vec<u8> = lower_bytes_vec(name);
    let pat_pacc: Vec<u8> = str_to_ascii_bytes("pACC MTR Temp Sensor");
    let pat_perf: Vec<u8> = str_to_ascii_bytes("performance");
    if contains_bytes(name, &pat_pacc) || contains_bytes(&lowered, &pat_perf) {
        return SensorCategory::Performance;
    }
    let pat_eacc: Vec<u8> = str_to_ascii_bytes("eACC MTR Temp Sensor");
    let pat_eff: Vec<u8> = str_to_ascii_bytes("efficiency");
    if contains_bytes(name, &pat_eacc) || contains_bytes(&lowered, &pat_eff) {
        return SensorCategory::Efficiency;
    }
    let pat_gpu_mtr: Vec<u8> = str_to_ascii_bytes("GPU MTR Temp Sensor");
    let pat_gpu: Vec<u8> = str_to_ascii_bytes("gpu");
    if contains_bytes(name, &pat_gpu_mtr) || contains_bytes(&lowered, &pat_gpu) {
        return SensorCategory::Gpu;
    }
    let pat_battery: Vec<u8> = str_to_ascii_bytes("gas gauge battery");
    if contains_bytes(name, &pat_battery) {
        return SensorCategory::Battery;
    }
    SensorCategory::Other
}

/// Copy of `v[from..to]`.
pub(crate) fn copy_range(v: &Vec<i64>, from: usize, to: usize) -> (r: Vec<i64>)
    requires
        from <= to <= v@.len(),
    ensures
        r@ == v@.subrange(from as int, to as int),
{
    let mut r: Vec<i64> = Vec::new();
    let mut i: usize = from;
    while i < to
        invariant
            from <= i <= to <= v@.len(),
            r@ =~= v@.subrange(from as int, i as int),
        decreases to - i,
    {
        r.push(v[i]);
        proof {
            assert(r@ =~= v@.subrange(from as int, i + 1));
        }
        i = i + 1;
    }
    proof {
        assert(r@ =~= v@.subrange(from as int, to as int));
    }
    r
}

/// Truncating average, maximum and minimum of a nonempty vector of
/// plausible temperatures.
fn temp_stats(v: &Vec<i64>) -> (r: (i64, i64, i64))
    requires
        v@.len() > 0,
        forall|k: int| 0 <= k < v@.len() ==> TEMP_MIN_MC < #[trigger] v@[k] < TEMP_MAX_MC,
    ensures
        r.0 == seq_avg(v@),
        r.1 == seq_max(v@),
        r.2 == seq_min(v@),
{
    let n: usize = v.len();
    let mut sum: u128 = v[0] as u128;
    let mut mx: i64 = v[0];
    let mut mn: i64 = v[0];
    let mut i: usize = 1;
    proof {
        assert(v@.subrange(0, 1) =~= seq![v@[0]]);
        assert(seq![v@[0]].drop_last() =~= Seq::<i64>::empty());
        assert(seq_sum(Seq::<i64>::empty()) == 0);
        assert(seq_sum(v@.subrange(0, 1)) == v@[0]);
    }
    while i < n
        invariant
            1 <= i <= n,
            n == v@.len(),
            forall|k: int| 0 <= k < v@.len() ==> TEMP_MIN_MC < #[trigger] v@[k] < TEMP_MAX_MC,
            sum == seq_sum(v@.subrange(0, i as int)),
            sum <= i * TEMP_MAX_MC,
            mx as int == seq_max(v@.subrange(0, i as int)),
            mn as int == seq_min(v@.subrange(0, i as int)),
        decreases n - i,
    {
        proof {
            assert(v@.subrange(0, i + 1).drop_last() =~= v@.subrange(0, i as int));
            assert(v@.subrange(0, i + 1).last() == v@[i as int]);
        }
        let t: i64 = v[i];
        sum = sum + t as u128;
        if t >= mx {
            mx = t;
        }
        if t <= mn {
            mn = t;
        }
        i = i + 1;
    }
    proof {
        assert(v@.subrange(0, n as int) =~= v@);
    }
    let avg: i64 = (sum / n as u128) as i64;
    proof {
        assert(seq_sum(v@) <= n * TEMP_MAX_MC);
        lemma_seq_sum_nonneg(v@);
        assert(seq_sum(v@) / v@.len() as int <= TEMP_MAX_MC) by (nonlinear_arith)
            requires
                v@.len() > 0,
                0 <= seq_sum(v@) <= v@.len() * TEMP_MAX_MC,
        ;
    }
    (avg, mx, mn)
}

/// A sum of plausible temperatures is nonnegative.
proof fn lemma_seq_sum_nonneg(s: Seq<i64>)
    requires
        forall|k: int| 0 <= k < s.len() ==> TEMP_MIN_MC < #[trigger] s[k] < TEMP_MAX_MC,
    ensures
        seq_sum(s) >= 0,
        seq_sum(s) <= s.len() * TEMP_MAX_MC,
    decreases s.len(),
{
    if s.len() > 0 {
        lemma_seq_sum_nonneg(s.drop_last());
    }
}

/// Build one temperature snapshot from raw readings: discard sentinels,
/// attribute each sensor to its area, apply the positional fallback when no
/// core-area sensor was identified, and compute the per-area statistics.
/// Fails only when no core-area temperature is left, which callers treat as
/// a recoverable degradation.
pub fn build_core_temperature_data(readings: &Vec<SensorReading>) -> (r: Result<
    CoreTemperatureData,
    TelemetryError,
>)
    ensures
        spec_cpu_temps(readings@).len() == 0 <==> r == Err::<CoreTemperatureData, TelemetryError>(
            TelemetryError::SensorUnavailable,
        ),
        r matches Ok(d) ==> {
            let s = readings@;
            let gpu = cat_temps(s, SensorCategory::Gpu, s.len() as int);
            let battery = cat_temps(s, SensorCategory::Battery, s.len() as int);
            &&& d.p_cores_mc@ == spec_perf_temps(s)
            &&& d.e_cores_mc@ == spec_eff_temps(s)
            &&& d.gpu_temps_mc@ == gpu
            &&& d.cpu_temp_avg_mc == seq_avg(spec_cpu_temps(s))
            &&& d.cpu_temp_max_mc == seq_max(spec_cpu_temps(s))
            &&& d.cpu_temp_min_mc == seq_min(spec_cpu_temps(s))
            &&& (d.gpu_temp_avg_mc is Some <==> gpu.len() > 0)
            &&& (gpu.len() > 0 ==> d.gpu_temp_avg_mc->0 == seq_avg(gpu)
                && d.gpu_temp_max_mc == Some(seq_max(gpu) as i64))
            &&& (gpu.len() == 0 ==> d.gpu_temp_max_mc is None)
            &&& (d.battery_temp_avg_mc is Some <==> battery.len() > 0)
            &&& (battery.len() > 0 ==> d.battery_temp_avg_mc->0 == seq_avg(battery))
            &&& d.thermal_trend == ThermalTrend::Stable
        },
{
    let n: usize = readings.len();
    let mut p: Vec<i64> = Vec::new();
    let mut e: Vec<i64> = Vec::new();
    let mut g: Vec<i64> = Vec::new();
    let mut b: Vec<i64> = Vec::new();
    let mut o: Vec<i64> = Vec::new();
    let mut i: usize = 0;
    while i < n
        invariant
            i <= n,
            n == readings@.len(),
            p@ == cat_temps(readings@, SensorCategory::Performance, i as int),
            e@ == cat_temps(readings@, SensorCategory::Efficiency, i as int),
            g@ == cat_temps(readings@, SensorCategory::Gpu, i as int),
            b@ == cat_temps(readings@, SensorCategory::Battery, i as int),
            o@ == cat_temps(readings@, SensorCategory::Other, i as int),
            forall|k: int| 0 <= k < p@.len() ==> TEMP_MIN_MC < #[trigger] p@[k] < TEMP_MAX_MC,
            forall|k: int| 0 <= k < e@.len() ==> TEMP_MIN_MC < #[trigger] e@[k] < TEMP_MAX_MC,
            forall|k: int| 0 <= k < g@.len() ==> TEMP_MIN_MC < #[trigger] g@[k] < TEMP_MAX_MC,
            forall|k: int| 0 <= k < b@.len() ==> TEMP_MIN_MC < #[trigger] b@[k] < TEMP_MAX_MC,
            forall|k: int| 0 <= k < o@.len() ==> TEMP_MIN_MC < #[trigger] o@[k] < TEMP_MAX_MC,
        decreases n - i,
    {
        let reading = &readings[i];
        let t: i64 = reading.temp_mc;
        if t > TEMP_MIN_MC && t < TEMP_MAX_MC {
            let cat = categorize_sensor(&reading.name);
            match cat {
                SensorCategory::Performance => {
                    p.push(t);
                    proof {
                        assert(p@ =~= cat_temps(
                            readings@,
                            SensorCategory::Performance,
                            i + 1,
                        ));
                    }
                },
                SensorCategory::Efficiency => {
                    e.push(t);
                    proof {
                        assert(e@ =~= cat_temps(readings@, SensorCategory::Efficiency, i + 1));
                    }
                },
                SensorCategory::Gpu => {
                    g.push(t);
                    proof {
                        assert(g@ =~= cat_temps(readings@, SensorCategory::Gpu, i + 1));
                    }
                },
                SensorCategory::Battery => {
                    b.push(t);
                    proof {
                        assert(b@ =~= cat_temps(readings@, SensorCategory::Battery, i + 1));
                    }
                },
                SensorCategory::Other => {
                    o.push(t);
                    proof {
                        assert(o@ =~= cat_temps(readings@, SensorCategory::Other, i + 1));
                    }
                },
            }
        }
        proof {
            assert(p@ =~= cat_temps(readings@, SensorCategory::Performance, i + 1));
            assert(e@ =~= cat_temps(readings@, SensorCategory::Efficiency, i + 1));
            assert(g@ =~= cat_temps(readings@, SensorCategory::Gpu, i + 1));
            assert(b@ =~= cat_temps(readings@, SensorCategory::Battery, i + 1));
            assert(o@ =~= cat_temps(readings@, SensorCategory::Other, i + 1));
        }
        i = i + 1;
    }
    proof {
        assert(readings@.subrange(0, n as int) =~= readings@);
    }
    if p.len() == 0 && e.len() == 0 && o.len() > 0 {
        let mid_wide: u128 = o.len() as u128 * 2 / 3;
        proof {
            assert(o.len() as u128 * 2 / 3 <= o.len()) by (nonlinear_arith);
        }
        let mid: usize = mid_wide as usize;
        p = copy_range(&o, 0, mid);
        e = copy_range(&o, mid, o.len());
    }
    let mut all_cpu: Vec<i64> = Vec::new();
    let mut i2: usize = 0;
    while i2 < p.len()
        invariant
            i2 <= p@.len(),
            all_cpu@ =~= p@.subrange(0, i2 as int),
        decreases p@.len() - i2,
    {
        all_cpu.push(p[i2]);
        proof {
            assert(all_cpu@ =~= p@.subrange(0, i2 + 1));
        }
        i2 = i2 + 1;
    }
    proof {
        assert(p@.subrange(0, p@.len() as int) =~= p@);
    }
    let mut i3: usize = 0;
    while i3 < e.len()
        invariant
            i3 <= e@.len(),
            all_cpu@ =~= p@ + e@.subrange(0, i3 as int),
        decreases e@.len() - i3,
    {
        all_cpu.push(e[i3]);
        proof {
            assert(all_cpu@ =~= p@ + e@.subrange(0, i3 + 1));
        }
        i3 = i3 + 1;
    }
    proof {
        assert(e@.subrange(0, e@.len() as int) =~= e@);
        assert(all_cpu@ =~= p@ + e@);
    }
    if all_cpu.len() == 0 {
        return Err(TelemetryError::SensorUnavailable);
    }
    let (cpu_avg, cpu_max, cpu_min) = temp_stats(&all_cpu);
    let (gpu_avg, gpu_max): (Option<i64>, Option<i64>) = if g.len() > 0 {
        let (a, m, _) = temp_stats(&g);
        (Some(a), Some(m))
    } else {
        (None, None)
    };
    let battery_avg: Option<i64> = if b.len() > 0 {
        let (a, _, _) = temp_stats(&b);
        Some(a)
    } else {
        None
    };
    Ok(
        CoreTemperatureData {
            p_cores_mc: p,
            e_cores_mc: e,
            cpu_temp_avg_mc: cpu_avg,
            cpu_temp_max_mc: cpu_max,
            cpu_temp_min_mc: cpu_min,
            gpu_temps_mc: g,
            gpu_temp_avg_mc: gpu_avg,
            gpu_temp_max_mc: gpu_max,
            battery_temp_avg_mc: battery_avg,
            thermal_trend: ThermalTrend::Stable,
        },
    )
}

} // verus!

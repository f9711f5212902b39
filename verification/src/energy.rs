//! Cumulative energy accounting by trapezoidal integration of power samples.
//!
//! Power is carried in milliwatts and timestamps in milliseconds, so the
//! trapezoid `(p1 + p2) * dt / 2` is exact in nanojoules:
//! `(p1_mw + p2_mw) * dt_ms * 500`.

use vstd::prelude::*;
use crate::snapshot::TelemetryUpdate;

verus! {

/// Upper bound on an accepted power sample: one megawatt, far beyond any
/// processor package, kept so the nanojoule accumulators provably never
/// overflow.
pub const MAX_POWER_MW: u64 = 1_000_000_000;

/// Upper bound on an accepted timestamp: about 285,000 years past the epoch,
/// kept so the nanojoule accumulators provably never overflow.
pub const MAX_TIMESTAMP_MS: u64 = 0x20_0000_0000_0000;

/// Nanojoules per milliwatt-hour, to express accumulated energy in
/// conventional units: 1 mWh = 3.6 J.
pub const NJ_PER_MWH: u128 = 3_600_000_000;

/// The power fields of one snapshot, as the integrator remembers them.
#[derive(Clone, Copy, Debug, PartialEq, Eq)]
pub struct PowerReading {
    pub timestamp_ms: u64,
    pub cpu_power_mw: Option<u64>,
    pub gpu_power_mw: Option<u64>,
    pub ane_power_mw: Option<u64>,
}

/// A reading the integrator accepts: bounded power and timestamp.
pub open spec fn reading_wf(r: PowerReading) -> bool {
    &&& r.timestamp_ms <= MAX_TIMESTAMP_MS
    &&& (r.cpu_power_mw matches Some(p) ==> p <= MAX_POWER_MW)
    &&& (r.gpu_power_mw matches Some(p) ==> p <= MAX_POWER_MW)
    &&& (r.ane_power_mw matches Some(p) ==> p <= MAX_POWER_MW)
}

/// The power fields of a snapshot.
pub open spec fn spec_reading_of(t: TelemetryUpdate) -> PowerReading {
    PowerReading {
        timestamp_ms: t.timestamp_ms,
        cpu_power_mw: t.cpu_power_mw,
        gpu_power_mw: t.gpu_power_mw,
        ane_power_mw: t.ane_power_mw,
    }
}

/// Energy in nanojoules one domain gains across one interval: the exact
/// trapezoid when the domain carries a value on both endpoints, zero
/// otherwise. No energy is invented for a half-known interval.
pub open spec fn trapezoid_nj(p1: Option<u64>, p2: Option<u64>, dt_ms: int) -> int {
    if p1 is Some && p2 is Some {
        (p1->0 + p2->0) * dt_ms * 500
    } else {
        0
    }
}

/// Trapezoidal-rule accumulator of per-domain energy. `previous` is replaced
/// on every integration step regardless of which domains carried values.
#[derive(Clone, Debug)]
pub struct PowerCalculator {
    pub previous: Option<PowerReading>,
    pub cumulative_cpu_energy_nj: u128,
    pub cumulative_gpu_energy_nj: u128,
    pub cumulative_ane_energy_nj: u128,
    pub session_start_timestamp: Option<u64>,
}

/// Session energy totals. Energy per unit of work is total energy divided by
/// the token count, zero when no tokens were produced.
#[derive(Clone, Copy, Debug, PartialEq, Eq)]
pub struct PowerConsumptionSummary {
    pub total_energy_nj: u128,
    pub cpu_energy_nj: u128,
    pub gpu_energy_nj: u128,
    pub ane_energy_nj: u128,
    pub energy_per_token_nj: Option<u128>,
}

/// The bound each domain accumulator provably stays under: full-scale
/// power sustained for the whole time span, `2 * MAX_POWER_MW * 500 * t`.
pub open spec fn energy_bound_nj(last_ms: int) -> int {
    MAX_POWER_MW * 1000 * last_ms
}

impl PowerCalculator {
    /// The integrator's invariant: the remembered reading is bounded and each
    /// accumulator is within the span bound, so integration cannot overflow.
    pub open spec fn wf(&self) -> bool {
        &&& (self.previous matches Some(p) ==> {
            &&& reading_wf(p)
            &&& self.cumulative_cpu_energy_nj <= energy_bound_nj(p.timestamp_ms as int)
            &&& self.cumulative_gpu_energy_nj <= energy_bound_nj(p.timestamp_ms as int)
            &&& self.cumulative_ane_energy_nj <= energy_bound_nj(p.timestamp_ms as int)
        })
        &&& (self.previous is None ==> {
            &&& self.cumulative_cpu_energy_nj == 0
            &&& self.cumulative_gpu_energy_nj == 0
            &&& self.cumulative_ane_energy_nj == 0
        })
    }

    /// The state every session starts from and `reset` returns to.
    pub open spec fn initial_state() -> PowerCalculator {
        PowerCalculator {
            previous: None,
            cumulative_cpu_energy_nj: 0,
            cumulative_gpu_energy_nj: 0,
            cumulative_ane_energy_nj: 0,
            session_start_timestamp: None,
        }
    }

    /// The state after one integration step: each domain gains its trapezoid
    /// against the remembered reading (nothing on the first step), the
    /// reading is replaced, and the session start is pinned once.
    pub open spec fn step(self, r: PowerReading) -> PowerCalculator {
        let dt: int = match self.previous {
            Some(p) => r.timestamp_ms - p.timestamp_ms,
            None => 0,
        };
        PowerCalculator {
            previous: Some(r),
            cumulative_cpu_energy_nj: match self.previous {
                Some(p) => (self.cumulative_cpu_energy_nj + trapezoid_nj(
                    p.cpu_power_mw,
                    r.cpu_power_mw,
                    dt,
                )) as u128,
                None => self.cumulative_cpu_energy_nj,
            },
            cumulative_gpu_energy_nj: match self.previous {
                Some(p) => (self.cumulative_gpu_energy_nj + trapezoid_nj(
                    p.gpu_power_mw,
                    r.gpu_power_mw,
                    dt,
                )) as u128,
                None => self.cumulative_gpu_energy_nj,
            },
            cumulative_ane_energy_nj: match self.previous {
                Some(p) => (self.cumulative_ane_energy_nj + trapezoid_nj(
                    p.ane_power_mw,
                    r.ane_power_mw,
                    dt,
                )) as u128,
                None => self.cumulative_ane_energy_nj,
            },
            session_start_timestamp: match self.session_start_timestamp {
                Some(t) => Some(t),
                None => Some(r.timestamp_ms),
            },
        }
    }

    pub fn new() -> (r: PowerCalculator)
        ensures
            r == PowerCalculator::initial_state(),
            r.wf(),
    {
        PowerCalculator {
            previous: None,
            cumulative_cpu_energy_nj: 0,
            cumulative_gpu_energy_nj: 0,
            cumulative_ane_energy_nj: 0,
            session_start_timestamp: None,
        }
    }

    /// Integrate one snapshot and return it with the cumulative energy fields
    /// filled in.
    pub fn update_with_telemetry(&mut self, telemetry: TelemetryUpdate) -> (r: TelemetryUpdate)
        requires
            old(self).wf(),
            reading_wf(spec_reading_of(telemetry)),
            old(self).previous matches Some(p) ==> p.timestamp_ms <= telemetry.timestamp_ms,
        ensures
            final(self).wf(),
            *final(self) == old(self).step(spec_reading_of(telemetry)),
            r == (TelemetryUpdate {
                total_energy_nj: Some(
                    (final(self).cumulative_cpu_energy_nj + final(self).cumulative_gpu_energy_nj
                        + final(self).cumulative_ane_energy_nj) as u128,
                ),
                cpu_energy_nj: Some(final(self).cumulative_cpu_energy_nj),
                gpu_energy_nj: Some(final(self).cumulative_gpu_energy_nj),
                ane_energy_nj: Some(final(self).cumulative_ane_energy_nj),
                ..telemetry
            }),
    {
        let reading = PowerReading {
            timestamp_ms: telemetry.timestamp_ms,
            cpu_power_mw: telemetry.cpu_power_mw,
            gpu_power_mw: telemetry.gpu_power_mw,
            ane_power_mw: telemetry.ane_power_mw,
        };
        if self.session_start_timestamp.is_none() {
            self.session_start_timestamp = Some(telemetry.timestamp_ms);
        }
        if let Some(prev) = self.previous {
            let dt_ms: u64 = telemetry.timestamp_ms - prev.timestamp_ms;
            proof {
                lemma_trapezoid_bounds(prev.cpu_power_mw, reading.cpu_power_mw, dt_ms as int);
                lemma_trapezoid_bounds(prev.gpu_power_mw, reading.gpu_power_mw, dt_ms as int);
                lemma_trapezoid_bounds(prev.ane_power_mw, reading.ane_power_mw, dt_ms as int);
            }
            self.cumulative_cpu_energy_nj = self.cumulative_cpu_energy_nj + domain_increment_nj(
                prev.cpu_power_mw,
                reading.cpu_power_mw,
                dt_ms,
            );
            self.cumulative_gpu_energy_nj = self.cumulative_gpu_energy_nj + domain_increment_nj(
                prev.gpu_power_mw,
                reading.gpu_power_mw,
                dt_ms,
            );
            self.cumulative_ane_energy_nj = self.cumulative_ane_energy_nj + domain_increment_nj(
                prev.ane_power_mw,
                reading.ane_power_mw,
                dt_ms,
            );
        }
        self.previous = Some(reading);
        TelemetryUpdate {
            total_energy_nj: Some(
                self.cumulative_cpu_energy_nj + self.cumulative_gpu_energy_nj
                    + self.cumulative_ane_energy_nj,
            ),
            cpu_energy_nj: Some(self.cumulative_cpu_energy_nj),
            gpu_energy_nj: Some(self.cumulative_gpu_energy_nj),
            ane_energy_nj: Some(self.cumulative_ane_energy_nj),
            ..telemetry
        }
    }

    /// Clear all cumulative totals and the remembered reading, so the next
    /// integration step contributes nothing.
    pub fn reset(&mut self)
        ensures
            *final(self) == PowerCalculator::initial_state(),
            final(self).wf(),
    {
        self.previous = None;
        self.cumulative_cpu_energy_nj = 0;
        self.cumulative_gpu_energy_nj = 0;
        self.cumulative_ane_energy_nj = 0;
        self.session_start_timestamp = None;
    }

    /// Session totals; energy per token is total energy over the token
    /// count, zero for a zero count, absent for an absent count.
    pub fn get_summary(&self, total_tokens: Option<usize>) -> (r: PowerConsumptionSummary)
        requires
            self.wf(),
        ensures
            r.cpu_energy_nj == self.cumulative_cpu_energy_nj,
            r.gpu_energy_nj == self.cumulative_gpu_energy_nj,
            r.ane_energy_nj == self.cumulative_ane_energy_nj,
            r.total_energy_nj == self.cumulative_cpu_energy_nj + self.cumulative_gpu_energy_nj
                + self.cumulative_ane_energy_nj,
            r.energy_per_token_nj == match total_tokens {
                Some(n) => if n > 0 {
                    Some(r.total_energy_nj / n as u128)
                } else {
                    Some(0u128)
                },
                None => None::<u128>,
            },
    {
        proof {
            lemma_wf_total_fits(*self);
        }
        let total: u128 = self.cumulative_cpu_energy_nj + self.cumulative_gpu_energy_nj
            + self.cumulative_ane_energy_nj;
        let energy_per_token: Option<u128> = match total_tokens {
            Some(n) => if n > 0 {
                Some(total / n as u128)
            } else {
                Some(0)
            },
            None => None,
        };
        PowerConsumptionSummary {
            total_energy_nj: total,
            cpu_energy_nj: self.cumulative_cpu_energy_nj,
            gpu_energy_nj: self.cumulative_gpu_energy_nj,
            ane_energy_nj: self.cumulative_ane_energy_nj,
            energy_per_token_nj: energy_per_token,
        }
    }
}

impl Default for PowerCalculator {
    fn default() -> (r: PowerCalculator)
        ensures
            r == PowerCalculator::initial_state(),
    {
        PowerCalculator::new()
    }
}

/// Exact exec computation of `trapezoid_nj`, in range by
/// `lemma_trapezoid_bounds`.
fn domain_increment_nj(p1: Option<u64>, p2: Option<u64>, dt_ms: u64) -> (r: u128)
    requires
        p1 matches Some(p) ==> p <= MAX_POWER_MW,
        p2 matches Some(p) ==> p <= MAX_POWER_MW,
        dt_ms <= MAX_TIMESTAMP_MS,
    ensures
        r == trapezoid_nj(p1, p2, dt_ms as int),
{
    match (p1, p2) {
        (Some(a), Some(b)) => {
            proof {
                lemma_trapezoid_bounds(p1, p2, dt_ms as int);
                assert((a + b) * dt_ms <= 2 * MAX_POWER_MW * MAX_TIMESTAMP_MS) by (nonlinear_arith)
                    requires
                        a <= MAX_POWER_MW,
                        b <= MAX_POWER_MW,
                        dt_ms <= MAX_TIMESTAMP_MS,
                ;
            }
            (a as u128 + b as u128) * dt_ms as u128 * 500
        },
        _ => 0,
    }
}

/// The trapezoid of bounded endpoints over a bounded interval is nonnegative
/// and at most `2 * MAX_POWER_MW * 500 * dt`.
pub proof fn lemma_trapezoid_bounds(p1: Option<u64>, p2: Option<u64>, dt_ms: int)
    requires
        p1 matches Some(p) ==> p <= MAX_POWER_MW,
        p2 matches Some(p) ==> p <= MAX_POWER_MW,
        dt_ms >= 0,
    ensures
        0 <= trapezoid_nj(p1, p2, dt_ms),
        trapezoid_nj(p1, p2, dt_ms) <= MAX_POWER_MW * 1000 * dt_ms,
{
    if p1 is Some && p2 is Some {
        let s: int = p1->0 + p2->0;
        assert(0 <= s <= 2 * MAX_POWER_MW);
        assert(s * dt_ms * 500 <= MAX_POWER_MW * 1000 * dt_ms) by (nonlinear_arith)
            requires
                0 <= s <= 2 * MAX_POWER_MW,
                dt_ms >= 0,
        ;
        assert(s * dt_ms * 500 >= 0) by (nonlinear_arith)
            requires
                s >= 0,
                dt_ms >= 0,
        ;
    }
}

/// One integration step preserves the integrator's invariant whenever the
/// new reading is bounded and not older than the remembered one.
pub proof fn lemma_step_wf(c: PowerCalculator, r: PowerReading)
    requires
        c.wf(),
        reading_wf(r),
        c.previous matches Some(p) ==> p.timestamp_ms <= r.timestamp_ms,
    ensures
        c.step(r).wf(),
        c.previous is Some ==> {
            let dt = r.timestamp_ms - c.previous->0.timestamp_ms;
            &&& c.step(r).cumulative_cpu_energy_nj == c.cumulative_cpu_energy_nj + trapezoid_nj(
                c.previous->0.cpu_power_mw,
                r.cpu_power_mw,
                dt,
            )
            &&& c.step(r).cumulative_gpu_energy_nj == c.cumulative_gpu_energy_nj + trapezoid_nj(
                c.previous->0.gpu_power_mw,
                r.gpu_power_mw,
                dt,
            )
            &&& c.step(r).cumulative_ane_energy_nj == c.cumulative_ane_energy_nj + trapezoid_nj(
                c.previous->0.ane_power_mw,
                r.ane_power_mw,
                dt,
            )
        },
{
    if let Some(p) = c.previous {
        let dt: int = r.timestamp_ms - p.timestamp_ms;
        lemma_trapezoid_bounds(p.cpu_power_mw, r.cpu_power_mw, dt);
        lemma_trapezoid_bounds(p.gpu_power_mw, r.gpu_power_mw, dt);
        lemma_trapezoid_bounds(p.ane_power_mw, r.ane_power_mw, dt);
    }
}

/// Constant power integrates to exactly power times elapsed time: a domain
/// reporting `p` milliwatts on both endpoints of a step gains
/// `p * dt * 1000` nanojoules, i.e. `p` milliwatts sustained for `dt`
/// milliseconds.
pub proof fn lemma_constant_power_integration(c: PowerCalculator, r1: PowerReading, r2: PowerReading, p: u64)
    requires
        c.wf(),
        reading_wf(r1),
        reading_wf(r2),
        c.previous matches Some(q) ==> q.timestamp_ms <= r1.timestamp_ms,
        r1.timestamp_ms <= r2.timestamp_ms,
        r1.cpu_power_mw == Some(p),
        r2.cpu_power_mw == Some(p),
    ensures
        c.step(r1).step(r2).cumulative_cpu_energy_nj == c.step(r1).cumulative_cpu_energy_nj
            + 1000 * p * (r2.timestamp_ms - r1.timestamp_ms),
{
    lemma_step_wf(c, r1);
    lemma_step_wf(c.step(r1), r2);
    let dt: int = r2.timestamp_ms - r1.timestamp_ms;
    assert((p + p) * dt * 500 == 1000 * p * dt) by (nonlinear_arith);
}

/// Varying power integrates to the trapezoid average: a domain reporting
/// `p1` then `p2` milliwatts across a step of `dt` milliseconds gains
/// `(p1 + p2) / 2 * dt * 1000` nanojoules, computed exactly as
/// `(p1 + p2) * dt * 500`.
pub proof fn lemma_variable_power_integration(c: PowerCalculator, r1: PowerReading, r2: PowerReading, p1: u64, p2: u64)
    requires
        c.wf(),
        reading_wf(r1),
        reading_wf(r2),
        c.previous matches Some(q) ==> q.timestamp_ms <= r1.timestamp_ms,
        r1.timestamp_ms <= r2.timestamp_ms,
        r1.cpu_power_mw == Some(p1),
        r2.cpu_power_mw == Some(p2),
    ensures
        c.step(r1).step(r2).cumulative_cpu_energy_nj == c.step(r1).cumulative_cpu_energy_nj + (
        p1 + p2) * (r2.timestamp_ms - r1.timestamp_ms) * 500,
{
    lemma_step_wf(c, r1);
    lemma_step_wf(c.step(r1), r2);
}

/// After a reset, every cumulative total is zero and the immediately
/// following sample contributes nothing, whatever power it carries.
pub proof fn lemma_reset_baseline(r: PowerReading)
    ensures
        PowerCalculator::initial_state().step(r).cumulative_cpu_energy_nj == 0,
        PowerCalculator::initial_state().step(r).cumulative_gpu_energy_nj == 0,
        PowerCalculator::initial_state().step(r).cumulative_ane_energy_nj == 0,
{
}

/// A domain absent on either endpoint of an interval accrues exactly zero
/// across it, while a domain present on both endpoints accrues its
/// trapezoid: gaps neither invent nor forward-fill energy.
pub proof fn lemma_missing_domain_integration(c: PowerCalculator, r1: PowerReading, r2: PowerReading)
    requires
        c.wf(),
        reading_wf(r1),
        reading_wf(r2),
        c.previous matches Some(q) ==> q.timestamp_ms <= r1.timestamp_ms,
        r1.timestamp_ms <= r2.timestamp_ms,
        r1.gpu_power_mw is None || r2.gpu_power_mw is None,
        r1.cpu_power_mw is Some,
        r2.cpu_power_mw is Some,
    ensures
        c.step(r1).step(r2).cumulative_gpu_energy_nj == c.step(r1).cumulative_gpu_energy_nj,
        c.step(r1).step(r2).cumulative_cpu_energy_nj == c.step(r1).cumulative_cpu_energy_nj + (
        r1.cpu_power_mw->0 + r2.cpu_power_mw->0) * (r2.timestamp_ms - r1.timestamp_ms) * 500,
{
    lemma_step_wf(c, r1);
    lemma_step_wf(c.step(r1), r2);
}

/// The three domain accumulators of a well-formed integrator sum within
/// `u128`.
proof fn lemma_wf_total_fits(c: PowerCalculator)
    requires
        c.wf(),
    ensures
        c.cumulative_cpu_energy_nj + c.cumulative_gpu_energy_nj + c.cumulative_ane_energy_nj
            <= 3 * energy_bound_nj(MAX_TIMESTAMP_MS as int),
{
}

} // verus!

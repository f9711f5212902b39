//! The cooldown gate between two sequential compute jobs: a cancellable,
//! timed poll loop that waits for the package temperature to fall back to a
//! threshold derived from a baseline reading.
//!
//! The library holds the whole decision logic: what each poll concludes from
//! the cancellation flag, the fresh reading and the elapsed time, and which
//! events it emits. The caller owns the clock, the sensor and the one-second
//! cadence, and feeds each poll's observations in.

use vstd::prelude::*;
use crate::sensors::TEMP_MAX_MC;

verus! {

/// Largest allowed cooldown margin, in millidegrees: twenty degrees either
/// way. A negative margin demands cooling below the baseline.
pub const MARGIN_LIMIT_MC: i64 = 20_000;

/// Hard cap on a gated wait, in seconds.
pub const COOLDOWN_CAP_S: u64 = 300;

/// Phases of a gated wait; the last three are terminal.
#[derive(Clone, Copy, Debug, PartialEq, Eq, Structural)]
pub enum CooldownPhase {
    Started,
    Progress,
    Complete,
    Timeout,
    Canceled,
}

/// One progress event of a gated wait.
#[derive(Clone, Copy, Debug, PartialEq, Eq)]
pub struct CooldownEvent {
    pub phase: CooldownPhase,
    pub baseline_mc: i64,
    pub margin_mc: i64,
    pub threshold_mc: i64,
    pub current_mc: Option<i64>,
    pub elapsed_s: u64,
}

/// What one poll observes: the shared cancellation flag and the fresh
/// temperature reading, absent when the read failed.
#[derive(Clone, Copy, Debug, PartialEq, Eq)]
pub struct PollInput {
    pub cancel_requested: bool,
    pub reading_mc: Option<i64>,
}

/// The margin actually applied: the requested one, clamped into
/// `[-MARGIN_LIMIT_MC, MARGIN_LIMIT_MC]`.
pub open spec fn spec_clamp_margin(margin_mc: int) -> int {
    if margin_mc < -MARGIN_LIMIT_MC {
        -MARGIN_LIMIT_MC as int
    } else if margin_mc > MARGIN_LIMIT_MC {
        MARGIN_LIMIT_MC as int
    } else {
        margin_mc
    }
}

/// A plausible baseline: a value a real sensor could have read.
pub open spec fn baseline_ok(baseline_mc: int) -> bool {
    0 <= baseline_mc <= TEMP_MAX_MC
}

/// An already-clamped margin.
pub open spec fn margin_ok(margin_mc: int) -> bool {
    -MARGIN_LIMIT_MC <= margin_mc <= MARGIN_LIMIT_MC
}

/// An event of the wait over `baseline_mc` and `margin_mc`.
pub open spec fn spec_event(
    baseline_mc: i64,
    margin_mc: i64,
    phase: CooldownPhase,
    current_mc: Option<i64>,
    elapsed_s: u64,
) -> CooldownEvent {
    CooldownEvent {
        phase,
        baseline_mc,
        margin_mc,
        threshold_mc: (baseline_mc + margin_mc) as i64,
        current_mc,
        elapsed_s,
    }
}

/// What one poll emits and whether the wait goes on. In order: a raised
/// cancellation flag cancels; a failed reading cancels; otherwise the poll
/// reports progress, completes at or below the threshold, times out at or
/// past the cap, and else continues.
pub open spec fn spec_poll(
    baseline_mc: i64,
    margin_mc: i64,
    elapsed_s: u64,
    input: PollInput,
) -> (Seq<CooldownEvent>, bool) {
    if input.cancel_requested {
        (
            seq![
                spec_event(baseline_mc, margin_mc, CooldownPhase::Canceled, None, elapsed_s),
            ],
            false,
        )
    } else {
        match input.reading_mc {
            None => (
                seq![
                    spec_event(baseline_mc, margin_mc, CooldownPhase::Canceled, None, elapsed_s),
                ],
                false,
            ),
            Some(cur) => {
                let progress = spec_event(
                    baseline_mc,
                    margin_mc,
                    CooldownPhase::Progress,
                    Some(cur),
                    elapsed_s,
                );
                if cur <= baseline_mc + margin_mc {
                    (
                        seq![
                            progress,
                            spec_event(
                                baseline_mc,
                                margin_mc,
                                CooldownPhase::Complete,
                                Some(cur),
                                elapsed_s,
                            ),
                        ],
                        false,
                    )
                } else if elapsed_s >= COOLDOWN_CAP_S {
                    (
                        seq![
                            progress,
                            spec_event(
                                baseline_mc,
                                margin_mc,
                                CooldownPhase::Timeout,
                                None,
                                COOLDOWN_CAP_S,
                            ),
                        ],
                        false,
                    )
                } else {
                    (seq![progress], true)
                }
            },
        }
    }
}

/// Everything the wait emits from poll `i` on, one poll per second, until a
/// poll is terminal or the observations run out.
pub open spec fn spec_trace_from(
    baseline_mc: i64,
    margin_mc: i64,
    inputs: Seq<PollInput>,
    i: int,
) -> Seq<CooldownEvent>
    decreases inputs.len() - i,
{
    if i < 0 || i >= inputs.len() {
        Seq::empty()
    } else {
        let poll = spec_poll(baseline_mc, margin_mc, i as u64, inputs[i]);
        if poll.1 {
            poll.0 + spec_trace_from(baseline_mc, margin_mc, inputs, i + 1)
        } else {
            poll.0
        }
    }
}

/// The full trace of a gated wait: the start event, then the polls.
pub open spec fn spec_trace(
    baseline_mc: i64,
    margin_mc: i64,
    inputs: Seq<PollInput>,
) -> Seq<CooldownEvent> {
    seq![
        spec_event(baseline_mc, margin_mc, CooldownPhase::Started, None, 0),
    ] + spec_trace_from(baseline_mc, margin_mc, inputs, 0)
}

/// Clamp a requested margin into the accepted range.
pub fn clamp_margin(margin_mc: i64) -> (r: i64)
    ensures
        r as int == spec_clamp_margin(margin_mc as int),
        margin_ok(r as int),
{
    if margin_mc < -MARGIN_LIMIT_MC {
        -MARGIN_LIMIT_MC
    } else if margin_mc > MARGIN_LIMIT_MC {
        MARGIN_LIMIT_MC
    } else {
        margin_mc
    }
}

/// The start event of a gated wait over a fresh baseline.
pub fn cooldown_started_event(baseline_mc: i64, margin_mc: i64) -> (r: CooldownEvent)
    requires
        baseline_ok(baseline_mc as int),
        margin_ok(margin_mc as int),
    ensures
        r == spec_event(baseline_mc, margin_mc, CooldownPhase::Started, None::<i64>, 0u64),
{
    CooldownEvent {
        phase: CooldownPhase::Started,
        baseline_mc,
        margin_mc,
        threshold_mc: baseline_mc + margin_mc,
        current_mc: None,
        elapsed_s: 0,
    }
}

/// Decide one poll: the events to emit and whether to keep waiting.
pub fn cooldown_poll(baseline_mc: i64, margin_mc: i64, elapsed_s: u64, input: PollInput) -> (r: (
    Vec<CooldownEvent>,
    bool,
))
    requires
        baseline_ok(baseline_mc as int),
        margin_ok(margin_mc as int),
    ensures
        r.0@ == spec_poll(baseline_mc, margin_mc, elapsed_s, input).0,
        r.1 == spec_poll(baseline_mc, margin_mc, elapsed_s, input).1,
{
    let threshold: i64 = baseline_mc + margin_mc;
    let mut events: Vec<CooldownEvent> = Vec::new();
    if input.cancel_requested {
        events.push(
            CooldownEvent {
                phase: CooldownPhase::Canceled,
                baseline_mc,
                margin_mc,
                threshold_mc: threshold,
                current_mc: None,
                elapsed_s,
            },
        );
        proof {
            assert(events@ =~= spec_poll(baseline_mc, margin_mc, elapsed_s, input).0);
        }
        return (events, false);
    }
    match input.reading_mc {
        None => {
            events.push(
                CooldownEvent {
                    phase: CooldownPhase::Canceled,
                    baseline_mc,
                    margin_mc,
                    threshold_mc: threshold,
                    current_mc: None,
                    elapsed_s,
                },
            );
            proof {
                assert(events@ =~= spec_poll(baseline_mc, margin_mc, elapsed_s, input).0);
            }
            (events, false)
        },
        Some(cur) => {
            events.push(
                CooldownEvent {
                    phase: CooldownPhase::Progress,
                    baseline_mc,
                    margin_mc,
                    threshold_mc: threshold,
                    current_mc: Some(cur),
                    elapsed_s,
                },
            );
            if cur <= threshold {
                events.push(
                    CooldownEvent {
                        phase: CooldownPhase::Complete,
                        baseline_mc,
                        margin_mc,
                        threshold_mc: threshold,
                        current_mc: Some(cur),
                        elapsed_s,
                    },
                );
                proof {
                    assert(events@ =~= spec_poll(baseline_mc, margin_mc, elapsed_s, input).0);
                }
                (events, false)
            } else if elapsed_s >= COOLDOWN_CAP_S {
                events.push(
                    CooldownEvent {
                        phase: CooldownPhase::Timeout,
                        baseline_mc,
                        margin_mc,
                        threshold_mc: threshold,
                        current_mc: None,
                        elapsed_s: COOLDOWN_CAP_S,
                    },
                );
                proof {
                    assert(events@ =~= spec_poll(baseline_mc, margin_mc, elapsed_s, input).0);
                }
                (events, false)
            } else {
                proof {
                    assert(events@ =~= spec_poll(baseline_mc, margin_mc, elapsed_s, input).0);
                }
                (events, true)
            }
        },
    }
}

/// Run a whole gated wait over a recorded sequence of observations: the
/// events the live loop would emit, one poll per second.
pub fn run_cooldown(baseline_mc: i64, margin_mc: i64, inputs: &Vec<PollInput>) -> (r: Vec<
    CooldownEvent,
>)
    requires
        baseline_ok(baseline_mc as int),
        margin_ok(margin_mc as int),
    ensures
        r@ == spec_trace(baseline_mc, margin_mc, inputs@),
{
    let mut events: Vec<CooldownEvent> = Vec::new();
    events.push(cooldown_started_event(baseline_mc, margin_mc));
    let mut live: bool = true;
    let mut i: usize = 0;
    while live && i < inputs.len()
        invariant
            baseline_ok(baseline_mc as int),
            margin_ok(margin_mc as int),
            i <= inputs@.len(),
            spec_trace(baseline_mc, margin_mc, inputs@) =~= events@ + if live {
                spec_trace_from(baseline_mc, margin_mc, inputs@, i as int)
            } else {
                Seq::<CooldownEvent>::empty()
            },
        decreases inputs@.len() - i,
    {
        let (mut poll_events, cont) = cooldown_poll(baseline_mc, margin_mc, i as u64, inputs[i]);
        events.append(&mut poll_events);
        live = cont;
        i = i + 1;
    }
    proof {
        assert(events@ =~= spec_trace(baseline_mc, margin_mc, inputs@));
    }
    events
}

/// Number of events of `evs` in phase `phase`.
pub open spec fn count_phase(evs: Seq<CooldownEvent>, phase: CooldownPhase) -> int
    decreases evs.len(),
{
    if evs.len() == 0 {
        0
    } else {
        (if evs[0].phase == phase {
            1int
        } else {
            0int
        }) + count_phase(evs.drop_first(), phase)
    }
}

/// The phase count of a one-event sequence.
proof fn lemma_count_phase_one(a: CooldownEvent, phase: CooldownPhase)
    ensures
        count_phase(seq![a], phase) == if a.phase == phase {
            1int
        } else {
            0int
        },
{
    assert(seq![a].drop_first() =~= Seq::<CooldownEvent>::empty());
    assert(count_phase(Seq::<CooldownEvent>::empty(), phase) == 0);
}

/// The phase count of a two-event sequence.
proof fn lemma_count_phase_two(a: CooldownEvent, b: CooldownEvent, phase: CooldownPhase)
    ensures
        count_phase(seq![a, b], phase) == (if a.phase == phase {
            1int
        } else {
            0int
        }) + (if b.phase == phase {
            1int
        } else {
            0int
        }),
{
    assert(seq![a, b].drop_first() =~= seq![b]);
    lemma_count_phase_one(b, phase);
}

/// Phase counts split over concatenation.
proof fn lemma_count_phase_concat(a: Seq<CooldownEvent>, b: Seq<CooldownEvent>, phase: CooldownPhase)
    ensures
        count_phase(a + b, phase) == count_phase(a, phase) + count_phase(b, phase),
    decreases a.len(),
{
    if a.len() == 0 {
        assert(a + b =~= b);
    } else {
        assert((a + b).drop_first() =~= a.drop_first() + b);
        lemma_count_phase_concat(a.drop_first(), b, phase);
    }
}

/// A poll that lets the wait go on emits exactly one progress event.
proof fn lemma_continue_is_progress(baseline_mc: i64, margin_mc: i64, elapsed_s: u64, input: PollInput)
    requires
        spec_poll(baseline_mc, margin_mc, elapsed_s, input).1,
    ensures
        spec_poll(baseline_mc, margin_mc, elapsed_s, input).0 =~= seq![
            spec_event(
                baseline_mc,
                margin_mc,
                CooldownPhase::Progress,
                input.reading_mc,
                elapsed_s,
            ),
        ],
{
}

/// From a poll at which the flag is raised while every earlier poll let the
/// wait go on, the trace ends in cancellation and never completes.
proof fn lemma_cancel_tail(baseline_mc: i64, margin_mc: i64, inputs: Seq<PollInput>, s: int, i: int)
    requires
        0 <= s <= i < inputs.len(),
        inputs[i].cancel_requested,
        forall|j: int| s <= j < i ==> #[trigger] spec_poll(
            baseline_mc,
            margin_mc,
            j as u64,
            inputs[j],
        ).1,
    ensures
        count_phase(spec_trace_from(baseline_mc, margin_mc, inputs, s), CooldownPhase::Complete)
            == 0,
        spec_trace_from(baseline_mc, margin_mc, inputs, s).len() > 0,
        spec_trace_from(baseline_mc, margin_mc, inputs, s).last().phase
            == CooldownPhase::Canceled,
    decreases i - s,
{
    let poll = spec_poll(baseline_mc, margin_mc, s as u64, inputs[s]);
    if s == i {
        assert(!poll.1);
        assert(spec_trace_from(baseline_mc, margin_mc, inputs, s) =~= poll.0);
        lemma_count_phase_one(poll.0[0], CooldownPhase::Complete);
        assert(poll.0 =~= seq![poll.0[0]]);
    } else {
        assert(poll.1);
        lemma_continue_is_progress(baseline_mc, margin_mc, s as u64, inputs[s]);
        lemma_cancel_tail(baseline_mc, margin_mc, inputs, s + 1, i);
        let rest = spec_trace_from(baseline_mc, margin_mc, inputs, s + 1);
        lemma_count_phase_concat(poll.0, rest, CooldownPhase::Complete);
        lemma_count_phase_one(poll.0[0], CooldownPhase::Complete);
        assert(poll.0 =~= seq![poll.0[0]]);
        assert((poll.0 + rest).last() == rest.last());
    }
}

/// The cancellation flag, raised before some poll while every earlier poll
/// let the wait go on, cancels the wait at that poll: the trace's last
/// event is `Canceled` and no `Complete` event appears anywhere in it.
pub proof fn lemma_cancellation_preempts_completion(
    baseline_mc: i64,
    margin_mc: i64,
    inputs: Seq<PollInput>,
    i: int,
)
    requires
        0 <= i < inputs.len(),
        inputs[i].cancel_requested,
        forall|j: int| 0 <= j < i ==> #[trigger] spec_poll(
            baseline_mc,
            margin_mc,
            j as u64,
            inputs[j],
        ).1,
    ensures
        count_phase(spec_trace(baseline_mc, margin_mc, inputs), CooldownPhase::Complete) == 0,
        spec_trace(baseline_mc, margin_mc, inputs).last().phase == CooldownPhase::Canceled,
{
    lemma_cancel_tail(baseline_mc, margin_mc, inputs, 0, i);
    let started = seq![
        spec_event(baseline_mc, margin_mc, CooldownPhase::Started, None, 0),
    ];
    let rest = spec_trace_from(baseline_mc, margin_mc, inputs, 0);
    lemma_count_phase_concat(started, rest, CooldownPhase::Complete);
    lemma_count_phase_one(started[0], CooldownPhase::Complete);
    assert(started =~= seq![started[0]]);
    assert((started + rest).last() == rest.last());
}

/// From a poll index on, readings that stay hot and an unraised flag drive
/// the wait to its single timeout.
proof fn lemma_timeout_tail(baseline_mc: i64, margin_mc: i64, inputs: Seq<PollInput>, s: int)
    requires
        0 <= s <= COOLDOWN_CAP_S,
        inputs.len() > COOLDOWN_CAP_S,
        forall|j: int| 0 <= j <= COOLDOWN_CAP_S ==> {
            &&& !(#[trigger] inputs[j]).cancel_requested
            &&& inputs[j].reading_mc is Some
            &&& inputs[j].reading_mc->0 > baseline_mc + margin_mc
        },
    ensures
        count_phase(spec_trace_from(baseline_mc, margin_mc, inputs, s), CooldownPhase::Timeout)
            == 1,
        count_phase(spec_trace_from(baseline_mc, margin_mc, inputs, s), CooldownPhase::Complete)
            == 0,
        spec_trace_from(baseline_mc, margin_mc, inputs, s).len() > 0,
        spec_trace_from(baseline_mc, margin_mc, inputs, s).last().phase == CooldownPhase::Timeout,
    decreases COOLDOWN_CAP_S - s,
{
    let poll = spec_poll(baseline_mc, margin_mc, s as u64, inputs[s]);
    if s == COOLDOWN_CAP_S {
        assert(!poll.1);
        assert(spec_trace_from(baseline_mc, margin_mc, inputs, s) =~= poll.0);
        lemma_count_phase_two(poll.0[0], poll.0[1], CooldownPhase::Timeout);
        lemma_count_phase_two(poll.0[0], poll.0[1], CooldownPhase::Complete);
        assert(poll.0 =~= seq![poll.0[0], poll.0[1]]);
    } else {
        assert(poll.1);
        lemma_continue_is_progress(baseline_mc, margin_mc, s as u64, inputs[s]);
        lemma_timeout_tail(baseline_mc, margin_mc, inputs, s + 1);
        let rest = spec_trace_from(baseline_mc, margin_mc, inputs, s + 1);
        lemma_count_phase_concat(poll.0, rest, CooldownPhase::Timeout);
        lemma_count_phase_concat(poll.0, rest, CooldownPhase::Complete);
        lemma_count_phase_one(poll.0[0], CooldownPhase::Timeout);
        lemma_count_phase_one(poll.0[0], CooldownPhase::Complete);
        assert(poll.0 =~= seq![poll.0[0]]);
        assert((poll.0 + rest).last() == rest.last());
    }
}

/// Readings that never reach the threshold within the cap, with the flag
/// never raised, yield exactly one timeout event, as the trace's last, and
/// no completion.
pub proof fn lemma_timeout_once(baseline_mc: i64, margin_mc: i64, inputs: Seq<PollInput>)
    requires
        inputs.len() > COOLDOWN_CAP_S,
        forall|j: int| 0 <= j <= COOLDOWN_CAP_S ==> {
            &&& !(#[trigger] inputs[j]).cancel_requested
            &&& inputs[j].reading_mc is Some
            &&& inputs[j].reading_mc->0 > baseline_mc + margin_mc
        },
    ensures
        count_phase(spec_trace(baseline_mc, margin_mc, inputs), CooldownPhase::Timeout) == 1,
        count_phase(spec_trace(baseline_mc, margin_mc, inputs), CooldownPhase::Complete) == 0,
        spec_trace(baseline_mc, margin_mc, inputs).last().phase == CooldownPhase::Timeout,
{
    lemma_timeout_tail(baseline_mc, margin_mc, inputs, 0);
    let started = seq![
        spec_event(baseline_mc, margin_mc, CooldownPhase::Started, None, 0),
    ];
    let rest = spec_trace_from(baseline_mc, margin_mc, inputs, 0);
    lemma_count_phase_concat(started, rest, CooldownPhase::Timeout);
    lemma_count_phase_concat(started, rest, CooldownPhase::Complete);
    lemma_count_phase_one(started[0], CooldownPhase::Timeout);
    lemma_count_phase_one(started[0], CooldownPhase::Complete);
    assert(started =~= seq![started[0]]);
    assert((started + rest).last() == rest.last());
}

} // verus!

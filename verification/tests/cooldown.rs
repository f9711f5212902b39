use telemetry_core::cooldown::{
    clamp_margin, cooldown_poll, cooldown_started_event, run_cooldown, CooldownPhase, PollInput,
};

fn poll(reading_mc: Option<i64>) -> PollInput {
    PollInput { cancel_requested: false, reading_mc }
}

fn phases(events: &[telemetry_core::cooldown::CooldownEvent]) -> Vec<CooldownPhase> {
    events.iter().map(|e| e.phase).collect()
}

#[test]
fn margin_is_clamped_either_way() {
    assert_eq!(clamp_margin(25_000), 20_000);
    assert_eq!(clamp_margin(-25_000), -20_000);
    assert_eq!(clamp_margin(2_000), 2_000);
    assert_eq!(clamp_margin(-2_000), -2_000);
}

#[test]
fn wait_completes_at_first_reading_at_or_below_threshold() {
    // Baseline 50 degrees, margin 2: the threshold is 52 degrees.
    let inputs = vec![poll(Some(55_000)), poll(Some(53_000)), poll(Some(52_000))];
    let events = run_cooldown(50_000, 2_000, &inputs);
    assert_eq!(
        phases(&events),
        vec![
            CooldownPhase::Started,
            CooldownPhase::Progress,
            CooldownPhase::Progress,
            CooldownPhase::Progress,
            CooldownPhase::Complete,
        ]
    );
    assert_eq!(events[0].threshold_mc, 52_000);
    assert_eq!(events[0].elapsed_s, 0);
    let complete = events.last().unwrap();
    assert_eq!(complete.current_mc, Some(52_000));
    assert_eq!(complete.elapsed_s, 2);
}

#[test]
fn cancellation_flag_cancels_on_the_next_poll() {
    let inputs = vec![
        poll(Some(55_000)),
        PollInput { cancel_requested: true, reading_mc: Some(40_000) },
        poll(Some(40_000)),
    ];
    let events = run_cooldown(50_000, 2_000, &inputs);
    assert_eq!(
        phases(&events),
        vec![CooldownPhase::Started, CooldownPhase::Progress, CooldownPhase::Canceled]
    );
    assert!(events.iter().all(|e| e.phase != CooldownPhase::Complete));
}

#[test]
fn read_failure_cancels_the_wait() {
    let inputs = vec![poll(Some(55_000)), poll(None)];
    let events = run_cooldown(50_000, 2_000, &inputs);
    assert_eq!(
        phases(&events),
        vec![CooldownPhase::Started, CooldownPhase::Progress, CooldownPhase::Canceled]
    );
}

#[test]
fn hot_readings_time_out_exactly_once_at_the_cap() {
    let inputs: Vec<PollInput> = (0..=300).map(|_| poll(Some(60_000))).collect();
    let events = run_cooldown(50_000, 2_000, &inputs);
    let timeouts = events.iter().filter(|e| e.phase == CooldownPhase::Timeout).count();
    assert_eq!(timeouts, 1);
    assert_eq!(events.last().unwrap().phase, CooldownPhase::Timeout);
    assert_eq!(events.last().unwrap().elapsed_s, 300);
    assert!(events.iter().all(|e| e.phase != CooldownPhase::Complete));
    // The started event plus one progress event per poll plus the timeout.
    assert_eq!(events.len(), 1 + 301 + 1);
}

#[test]
fn negative_margin_requires_cooling_below_baseline() {
    let inputs = vec![poll(Some(49_000)), poll(Some(47_000))];
    let events = run_cooldown(50_000, -2_000, &inputs);
    assert_eq!(
        phases(&events),
        vec![
            CooldownPhase::Started,
            CooldownPhase::Progress,
            CooldownPhase::Progress,
            CooldownPhase::Complete,
        ]
    );
}

#[test]
fn single_poll_decision_matches_the_loop() {
    let started = cooldown_started_event(50_000, 2_000);
    assert_eq!(started.phase, CooldownPhase::Started);
    assert_eq!(started.threshold_mc, 52_000);
    let (events, proceed) = cooldown_poll(50_000, 2_000, 0, poll(Some(55_000)));
    assert_eq!(phases(&events), vec![CooldownPhase::Progress]);
    assert!(proceed);
    let (events2, proceed2) = cooldown_poll(50_000, 2_000, 5, poll(Some(51_000)));
    assert_eq!(
        phases(&events2),
        vec![CooldownPhase::Progress, CooldownPhase::Complete]
    );
    assert!(!proceed2);
}

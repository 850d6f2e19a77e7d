use timed_dispatch::clock::SyncedClock;
use timed_dispatch::dispatch::{
    run_step, start_run, RunAction, RunEvent, RunState, NUM_TIME_SERVERS,
};
use timed_dispatch::interpret::{ApplyFields, StatusFields};
use timed_dispatch::schedule::{CHECKPOINT_OFFSET_MS, DAY_MS};

fn eligible_fields() -> StatusFields {
    StatusFields {
        code: Some(0),
        is_pass: Some(4),
        button_state: Some(1),
        deadline_format: None,
    }
}

#[test]
fn empty_credential_aborts_before_any_network_activity() {
    let (state, action) = start_run("");
    assert_eq!(state, RunState::Done { success: false });
    assert_eq!(action, RunAction::Finish { success: false });
}

#[test]
fn run_starts_with_status_probe() {
    let (state, action) = start_run("SECRET-REDACTED");
    assert_eq!(state, RunState::PreCheck);
    assert_eq!(action, RunAction::SendStatusProbe);
}

#[test]
fn eligible_status_proceeds_to_timing_phase() {
    let (state, action) = run_step(
        RunState::PreCheck,
        RunEvent::StatusReport { fields: eligible_fields() },
    );
    assert_eq!(state, RunState::AcquireClock { next_server: 0 });
    assert_eq!(action, RunAction::QueryTimeServer { index: 0 });
}

#[test]
fn stale_credential_is_immediate_terminal_failure() {
    let fields = StatusFields {
        code: Some(100_004),
        is_pass: Some(4),
        button_state: Some(1),
        deadline_format: None,
    };
    let (state, action) = run_step(RunState::PreCheck, RunEvent::StatusReport { fields });
    assert_eq!(state, RunState::Done { success: false });
    assert_eq!(action, RunAction::Finish { success: false });
    // The run is over: no later event does anything.
    let (state, action) = run_step(state, RunEvent::TimeServerFailed);
    assert_eq!(state, RunState::Done { success: false });
    assert_eq!(action, RunAction::Ignore);
}

#[test]
fn all_time_servers_failing_aborts_before_any_fire() {
    let mut state = RunState::AcquireClock { next_server: 0 };
    let mut actions: Vec<RunAction> = Vec::new();
    loop {
        let (next, action) = run_step(state, RunEvent::TimeServerFailed);
        actions.push(action);
        state = next;
        if matches!(state, RunState::Done { .. }) {
            break;
        }
    }
    // Ten further servers are tried in order, then the run aborts.
    assert_eq!(actions.len(), NUM_TIME_SERVERS);
    for (i, action) in actions.iter().take(NUM_TIME_SERVERS - 1).enumerate() {
        assert_eq!(*action, RunAction::QueryTimeServer { index: i + 1 });
    }
    assert_eq!(actions[NUM_TIME_SERVERS - 1], RunAction::Finish { success: false });
    assert_eq!(state, RunState::Done { success: false });
    assert!(!actions.contains(&RunAction::SendFire));
    assert!(!actions.contains(&RunAction::SendStatusProbe));
}

#[test]
fn clock_ready_waits_for_checkpoint_deadline() {
    let clock = SyncedClock { anchor_ms: 3 * DAY_MS + 1_000, anchor_mono_ms: 50 };
    let (state, action) = run_step(
        RunState::AcquireClock { next_server: 2 },
        RunEvent::ClockReady { clock, mono_ms: 50 },
    );
    assert_eq!(state, RunState::WaitCheckpoint { clock });
    assert_eq!(
        action,
        RunAction::WaitUntil { deadline_ms: 3 * DAY_MS + CHECKPOINT_OFFSET_MS }
    );
}

#[test]
fn checkpoint_triggers_latency_measurement() {
    let clock = SyncedClock { anchor_ms: 3 * DAY_MS + 1_000, anchor_mono_ms: 50 };
    let (state, action) = run_step(
        RunState::WaitCheckpoint { clock },
        RunEvent::CheckpointReached,
    );
    assert_eq!(state, RunState::MeasureLatency { clock });
    assert_eq!(action, RunAction::ProbeLatency);
}

#[test]
fn latency_sets_biased_fire_deadline() {
    let clock = SyncedClock { anchor_ms: 3 * DAY_MS + 1_000, anchor_mono_ms: 0 };
    let (state, action) = run_step(
        RunState::MeasureLatency { clock },
        RunEvent::LatencyReady { latency_ms: 166, mono_ms: 1_000 },
    );
    assert_eq!(state, RunState::WaitFire { clock });
    // 23:59:00 of the anchor day plus the base bias of 59.091s.
    assert_eq!(
        action,
        RunAction::WaitUntil { deadline_ms: 3 * DAY_MS + 86_340_000 + 59_091 }
    );
}

#[test]
fn fire_time_sends_the_action() {
    let clock = SyncedClock { anchor_ms: 3 * DAY_MS + 1_000, anchor_mono_ms: 0 };
    let (state, action) = run_step(RunState::WaitFire { clock }, RunEvent::FireTimeReached);
    assert_eq!(state, RunState::Fire { clock });
    assert_eq!(action, RunAction::SendFire);
}

#[test]
fn blocked_with_grace_inside_window_is_success() {
    // Anchor at midnight of day one; the response arrives 1.2s before the
    // next midnight.
    let clock = SyncedClock { anchor_ms: DAY_MS, anchor_mono_ms: 0 };
    let mono_ms = DAY_MS - 1_200;  // now = 2*DAY_MS - 1200
    let fields = ApplyFields {
        code: Some(0),
        apply_result: Some(4),
        deadline_format: Some(String::from("06/15")),
    };
    let (state, action) = run_step(
        RunState::Fire { clock },
        RunEvent::ApplyReport { fields, mono_ms },
    );
    assert_eq!(state, RunState::Done { success: true });
    assert_eq!(action, RunAction::Finish { success: true });
}

#[test]
fn blocked_with_grace_boundary_is_inclusive() {
    let clock = SyncedClock { anchor_ms: DAY_MS, anchor_mono_ms: 0 };
    let fields = ApplyFields {
        code: Some(0),
        apply_result: Some(4),
        deadline_format: None,
    };
    // Exactly 3.35s before midnight: success.
    let (state, _) = run_step(
        RunState::Fire { clock },
        RunEvent::ApplyReport { fields: fields.clone(), mono_ms: DAY_MS - 3_350 },
    );
    assert_eq!(state, RunState::Done { success: true });
    // 3.36s before midnight: failure.
    let (state, _) = run_step(
        RunState::Fire { clock },
        RunEvent::ApplyReport { fields, mono_ms: DAY_MS - 3_360 },
    );
    assert_eq!(state, RunState::Done { success: false });
}

#[test]
fn approved_apply_rechecks_until_terminal() {
    let clock = SyncedClock { anchor_ms: DAY_MS, anchor_mono_ms: 0 };
    let fields = ApplyFields { code: Some(0), apply_result: Some(1), deadline_format: None };
    let (state, action) = run_step(
        RunState::Fire { clock },
        RunEvent::ApplyReport { fields, mono_ms: 0 },
    );
    assert_eq!(state, RunState::Recheck { repeatable: true });
    assert_eq!(action, RunAction::SendStatusProbe);
    // A still-eligible answer is not terminal: the probe goes out again.
    let (state, action) = run_step(state, RunEvent::StatusReport { fields: eligible_fields() });
    assert_eq!(state, RunState::Recheck { repeatable: true });
    assert_eq!(action, RunAction::SendStatusProbe);
    // An approved answer ends the run with success.
    let approved = StatusFields {
        code: Some(0),
        is_pass: Some(1),
        button_state: None,
        deadline_format: Some(String::from("07/01")),
    };
    let (state, action) = run_step(state, RunEvent::StatusReport { fields: approved });
    assert_eq!(state, RunState::Done { success: true });
    assert_eq!(action, RunAction::Finish { success: true });
}

#[test]
fn ambiguous_apply_rechecks_exactly_once() {
    let clock = SyncedClock { anchor_ms: DAY_MS, anchor_mono_ms: 0 };
    let fields = ApplyFields { code: Some(100_003), apply_result: None, deadline_format: None };
    let (state, action) = run_step(
        RunState::Fire { clock },
        RunEvent::ApplyReport { fields, mono_ms: 0 },
    );
    // One confirming probe goes out...
    assert_eq!(state, RunState::Recheck { repeatable: false });
    assert_eq!(action, RunAction::SendStatusProbe);
    // ...and a still-eligible answer is terminal: no second probe.
    let (state, action) = run_step(state, RunEvent::StatusReport { fields: eligible_fields() });
    assert_eq!(state, RunState::Done { success: false });
    assert_eq!(action, RunAction::Finish { success: false });
}

#[test]
fn ambiguous_apply_confirmed_approved_is_success() {
    let clock = SyncedClock { anchor_ms: DAY_MS, anchor_mono_ms: 0 };
    let fields = ApplyFields { code: Some(100_003), apply_result: None, deadline_format: None };
    let (state, _) = run_step(
        RunState::Fire { clock },
        RunEvent::ApplyReport { fields, mono_ms: 0 },
    );
    let approved = StatusFields {
        code: Some(0),
        is_pass: Some(1),
        button_state: None,
        deadline_format: Some(String::from("07/01")),
    };
    let (state, action) = run_step(state, RunEvent::StatusReport { fields: approved });
    assert_eq!(state, RunState::Done { success: true });
    assert_eq!(action, RunAction::Finish { success: true });
}

#[test]
fn rejected_apply_is_terminal_without_recheck() {
    let clock = SyncedClock { anchor_ms: DAY_MS, anchor_mono_ms: 0 };
    let fields = ApplyFields { code: Some(100_001), apply_result: None, deadline_format: None };
    let (state, action) = run_step(
        RunState::Fire { clock },
        RunEvent::ApplyReport { fields, mono_ms: 0 },
    );
    assert_eq!(state, RunState::Done { success: false });
    assert_eq!(action, RunAction::Finish { success: false });
}

#[test]
fn quota_exceeded_is_terminal_failure() {
    let clock = SyncedClock { anchor_ms: DAY_MS, anchor_mono_ms: 0 };
    let fields = ApplyFields {
        code: Some(0),
        apply_result: Some(3),
        deadline_format: Some(String::from("08/20")),
    };
    let (state, action) = run_step(
        RunState::Fire { clock },
        RunEvent::ApplyReport { fields, mono_ms: 0 },
    );
    assert_eq!(state, RunState::Done { success: false });
    assert_eq!(action, RunAction::Finish { success: false });
}

#[test]
fn transport_error_fails_the_run() {
    let (state, action) = run_step(RunState::PreCheck, RunEvent::TransportError);
    assert_eq!(state, RunState::Done { success: false });
    assert_eq!(action, RunAction::Finish { success: false });
}

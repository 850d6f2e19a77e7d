//! The dispatcher: one run as an explicit state machine. Each step maps the
//! current state and an observed event to the next state and the single
//! action the caller must perform (probe, query a time server, wait, fire,
//! or finish). All outside work — HTTP, the time protocol, echo probes,
//! real sleeping — happens between steps, in the caller; every decision
//! happens here.

use vstd::prelude::*;
use crate::clock::{MAX_TIME_MS, SyncedClock};
use crate::interpret::{
    ApplyFields, ApplyOutcome, GRACE_WINDOW_MS, StatusFields, UnlockStatus, interpret_apply,
    interpret_status, spec_interpret_apply, spec_interpret_status, within_grace,
};
use crate::schedule::{
    CHECKPOINT_OFFSET_MS, FIRE_BASE_OFFSET_MS, effective_deadline_ms, fire_bias_ms,
    spec_effective_deadline_ms, spec_fire_bias_ms, spec_next_midnight_ms,
};

verus! {

/// How many time servers the ordered fallback list holds; each is tried
/// once, in order, in one pass.
pub const NUM_TIME_SERVERS: usize = 11;

/// Where a run stands.
#[derive(Debug, Clone, Copy, PartialEq, Eq)]
pub enum RunState {
    /// Nothing submitted yet.
    Idle,
    /// The pre-check status probe is out.
    PreCheck,
    /// Querying the time server at `next_server`.
    AcquireClock { next_server: usize },
    /// Waiting for the pre-fire checkpoint.
    WaitCheckpoint { clock: SyncedClock },
    /// Measuring latency to the targets.
    MeasureLatency { clock: SyncedClock },
    /// Waiting for the biased fire instant.
    WaitFire { clock: SyncedClock },
    /// The fire action is out.
    Fire { clock: SyncedClock },
    /// A confirming status probe is out, after firing. `repeatable` says
    /// whether a still-eligible answer may probe again (the approved
    /// outcome confirms until a terminal status) or the single allowed
    /// probe is already out (the ambiguous outcome re-checks once).
    Recheck { repeatable: bool },
    /// The run is over.
    Done { success: bool },
}

/// What the caller observed since the last step.
#[derive(Debug, Clone, PartialEq, Eq)]
pub enum RunEvent {
    /// A status probe answered with these decoded fields.
    StatusReport { fields: StatusFields },
    /// A time server answered; the clock is anchored, and `mono_ms` is the
    /// monotonic reading at which it was.
    ClockReady { clock: SyncedClock, mono_ms: u64 },
    /// The queried time server did not answer.
    TimeServerFailed,
    /// The wait for the checkpoint deadline finished.
    CheckpointReached,
    /// Latency measurement finished with this estimate, at this monotonic
    /// reading.
    LatencyReady { latency_ms: u64, mono_ms: u64 },
    /// The wait for the fire deadline finished.
    FireTimeReached,
    /// The fire action answered with these decoded fields, received at this
    /// monotonic reading.
    ApplyReport { fields: ApplyFields, mono_ms: u64 },
    /// A request could not be sent or answered at the transport level.
    TransportError,
}

/// What the caller must do next.
#[derive(Debug, Clone, Copy, PartialEq, Eq)]
pub enum RunAction {
    /// Send the status probe and report its decoded fields.
    SendStatusProbe,
    /// Query the time server at `index` and report the result.
    QueryTimeServer { index: usize },
    /// Run the wait loop until the authoritative clock reads `deadline_ms`.
    WaitUntil { deadline_ms: u64 },
    /// Run the echo probes and report the latency estimate.
    ProbeLatency,
    /// Send the fire action and report its decoded fields.
    SendFire,
    /// Report the final state; the run is over.
    Finish { success: bool },
    /// The event does not belong to this state; nothing to do.
    Ignore,
}

/// A state whose embedded data is in range.
pub open spec fn spec_state_wf(s: RunState) -> bool {
    match s {
        RunState::AcquireClock { next_server } => next_server < NUM_TIME_SERVERS,
        RunState::WaitCheckpoint { clock } => clock.wf(),
        RunState::MeasureLatency { clock } => clock.wf(),
        RunState::WaitFire { clock } => clock.wf(),
        RunState::Fire { clock } => clock.wf(),
        _ => true,
    }
}

/// An event whose readings are in range and not older than the clock anchor
/// they are measured against.
pub open spec fn spec_event_wf(s: RunState, e: RunEvent) -> bool {
    match e {
        RunEvent::ClockReady { clock, mono_ms } => clock.wf() && clock.anchor_mono_ms <= mono_ms
            && mono_ms < MAX_TIME_MS,
        RunEvent::LatencyReady { latency_ms, mono_ms } => match s {
            RunState::MeasureLatency { clock } => clock.anchor_mono_ms <= mono_ms && mono_ms
                < MAX_TIME_MS,
            _ => true,
        },
        RunEvent::ApplyReport { fields, mono_ms } => match s {
            RunState::Fire { clock } => clock.anchor_mono_ms <= mono_ms && mono_ms < MAX_TIME_MS,
            _ => true,
        },
        _ => true,
    }
}

/// The terminal step: the run is over with this verdict.
pub open spec fn spec_finish(success: bool) -> (RunState, RunAction) {
    (RunState::Done { success }, RunAction::Finish { success })
}

/// What the pre-check classification decides: eligible proceeds to the
/// timing phase, an already-approved request is a terminal success, and
/// everything else — stale credential, block, young account, unknown — is a
/// terminal failure before any timing work.
pub open spec fn spec_status_transition(st: UnlockStatus) -> (RunState, RunAction) {
    match st {
        UnlockStatus::Eligible => (
            RunState::AcquireClock { next_server: 0 },
            RunAction::QueryTimeServer { index: 0 },
        ),
        UnlockStatus::Approved { .. } => spec_finish(true),
        _ => spec_finish(false),
    }
}

/// What a confirming probe after the fire decides: approved is the terminal
/// success; a still-eligible answer probes again only on the repeatable
/// path, and is otherwise the terminal failure, as is everything else.
pub open spec fn spec_recheck_transition(st: UnlockStatus, repeatable: bool) -> (
    RunState,
    RunAction,
) {
    match st {
        UnlockStatus::Approved { .. } => spec_finish(true),
        UnlockStatus::Eligible => if repeatable {
            (RunState::Recheck { repeatable: true }, RunAction::SendStatusProbe)
        } else {
            spec_finish(false)
        },
        _ => spec_finish(false),
    }
}

/// What the fire action's answer decides. An approved answer confirms by
/// fresh status probes until a terminal status; an ambiguous answer earns
/// exactly one confirming probe. A blocked-for-the-day answer is judged by
/// the grace window: the gap from the response instant to the next
/// authoritative midnight, at or below the window, is still a success.
pub open spec fn spec_apply_transition(clock: SyncedClock, f: ApplyFields, mono_ms: u64) -> (
    RunState,
    RunAction,
) {
    match spec_interpret_apply(f) {
        ApplyOutcome::Approved => (
            RunState::Recheck { repeatable: true },
            RunAction::SendStatusProbe,
        ),
        ApplyOutcome::AmbiguousRetryNeeded => (
            RunState::Recheck { repeatable: false },
            RunAction::SendStatusProbe,
        ),
        ApplyOutcome::QuotaExceeded { .. } => spec_finish(false),
        ApplyOutcome::ServerRejected => spec_finish(false),
        ApplyOutcome::BlockedWithGrace { .. } => spec_finish(
            spec_next_midnight_ms(clock.anchor_ms) - clock.spec_now_ms(mono_ms)
                <= GRACE_WINDOW_MS,
        ),
    }
}

/// One step of the run: the full transition table.
pub open spec fn spec_run_step(s: RunState, e: RunEvent) -> (RunState, RunAction) {
    match (s, e) {
        (RunState::PreCheck, RunEvent::StatusReport { fields }) => spec_status_transition(
            spec_interpret_status(fields),
        ),
        (RunState::PreCheck, RunEvent::TransportError) => spec_finish(false),
        (RunState::AcquireClock { next_server }, RunEvent::ClockReady { clock, mono_ms }) => {
            let now = clock.spec_now_ms(mono_ms) as u64;
            let deadline = spec_effective_deadline_ms(
                clock.anchor_ms,
                now,
                CHECKPOINT_OFFSET_MS,
            ) as u64;
            (RunState::WaitCheckpoint { clock }, RunAction::WaitUntil { deadline_ms: deadline })
        },
        (RunState::AcquireClock { next_server }, RunEvent::TimeServerFailed) => {
            if next_server + 1 < NUM_TIME_SERVERS {
                (
                    RunState::AcquireClock { next_server: (next_server + 1) as usize },
                    RunAction::QueryTimeServer { index: (next_server + 1) as usize },
                )
            } else {
                spec_finish(false)
            }
        },
        (RunState::WaitCheckpoint { clock }, RunEvent::CheckpointReached) => (
            RunState::MeasureLatency { clock },
            RunAction::ProbeLatency,
        ),
        (RunState::MeasureLatency { clock }, RunEvent::LatencyReady { latency_ms, mono_ms }) => {
            let now = clock.spec_now_ms(mono_ms) as u64;
            let offset = (FIRE_BASE_OFFSET_MS + spec_fire_bias_ms(latency_ms)) as u64;
            let deadline = spec_effective_deadline_ms(clock.anchor_ms, now, offset) as u64;
            (RunState::WaitFire { clock }, RunAction::WaitUntil { deadline_ms: deadline })
        },
        (RunState::WaitFire { clock }, RunEvent::FireTimeReached) => (
            RunState::Fire { clock },
            RunAction::SendFire,
        ),
        (RunState::Fire { clock }, RunEvent::ApplyReport { fields, mono_ms }) => {
            spec_apply_transition(clock, fields, mono_ms)
        },
        (RunState::Fire { clock }, RunEvent::TransportError) => spec_finish(false),
        (RunState::Recheck { repeatable }, RunEvent::StatusReport { fields }) => {
            spec_recheck_transition(spec_interpret_status(fields), repeatable)
        },
        (RunState::Recheck { repeatable }, RunEvent::TransportError) => spec_finish(false),
        _ => (s, RunAction::Ignore),
    }
}

/// Begin a run: a missing (empty) credential aborts before any network
/// activity; otherwise the pre-check status probe goes out first.
pub open spec fn spec_start_run(token: Seq<char>) -> (RunState, RunAction) {
    if token.len() == 0 {
        spec_finish(false)
    } else {
        (RunState::PreCheck, RunAction::SendStatusProbe)
    }
}

/// Begin a run with the given credential token.
pub fn start_run(token: &str) -> (r: (RunState, RunAction))
    ensures
        r == spec_start_run(token@),
        spec_state_wf(r.0),
{
    if token.is_empty() {
        (RunState::Done { success: false }, RunAction::Finish { success: false })
    } else {
        (RunState::PreCheck, RunAction::SendStatusProbe)
    }
}

/// Perform one step of the run. The result is exactly the transition table
/// applied to the state and the event — deterministic, with no hidden
/// state — and the next state is again well-formed.
pub fn run_step(s: RunState, e: RunEvent) -> (r: (RunState, RunAction))
    requires
        spec_state_wf(s),
        spec_event_wf(s, e),
    ensures
        r == spec_run_step(s, e),
        spec_state_wf(r.0),
{
    match (s, e) {
        (RunState::PreCheck, RunEvent::StatusReport { fields }) => {
            status_transition(interpret_status(fields))
        },
        (RunState::PreCheck, RunEvent::TransportError) => finish(false),
        (RunState::AcquireClock { next_server: _ }, RunEvent::ClockReady { clock, mono_ms }) => {
            let now = clock.now_ms(mono_ms);
            let deadline = effective_deadline_ms(clock.anchor_ms, now, CHECKPOINT_OFFSET_MS);
            (RunState::WaitCheckpoint { clock }, RunAction::WaitUntil { deadline_ms: deadline })
        },
        (RunState::AcquireClock { next_server }, RunEvent::TimeServerFailed) => {
            if next_server + 1 < NUM_TIME_SERVERS {
                (
                    RunState::AcquireClock { next_server: next_server + 1 },
                    RunAction::QueryTimeServer { index: next_server + 1 },
                )
            } else {
                finish(false)
            }
        },
        (RunState::WaitCheckpoint { clock }, RunEvent::CheckpointReached) => (
            RunState::MeasureLatency { clock },
            RunAction::ProbeLatency,
        ),
        (RunState::MeasureLatency { clock }, RunEvent::LatencyReady { latency_ms, mono_ms }) => {
            let now = clock.now_ms(mono_ms);
            let bias = fire_bias_ms(latency_ms);
            let deadline = effective_deadline_ms(clock.anchor_ms, now, FIRE_BASE_OFFSET_MS + bias);
            (RunState::WaitFire { clock }, RunAction::WaitUntil { deadline_ms: deadline })
        },
        (RunState::WaitFire { clock }, RunEvent::FireTimeReached) => (
            RunState::Fire { clock },
            RunAction::SendFire,
        ),
        (RunState::Fire { clock }, RunEvent::ApplyReport { fields, mono_ms }) => {
            match interpret_apply(fields) {
                ApplyOutcome::Approved => (
                    RunState::Recheck { repeatable: true },
                    RunAction::SendStatusProbe,
                ),
                ApplyOutcome::AmbiguousRetryNeeded => (
                    RunState::Recheck { repeatable: false },
                    RunAction::SendStatusProbe,
                ),
                ApplyOutcome::QuotaExceeded { until: _ } => finish(false),
                ApplyOutcome::ServerRejected => finish(false),
                ApplyOutcome::BlockedWithGrace { until: _ } => {
                    let now = clock.now_ms(mono_ms);
                    let next_midnight = clock.anchor_ms - clock.anchor_ms % crate::schedule::DAY_MS
                        + crate::schedule::DAY_MS;
                    let gap: i64 = (next_midnight as i64) - (now as i64);
                    finish(within_grace(gap))
                },
            }
        },
        (RunState::Fire { clock: _ }, RunEvent::TransportError) => finish(false),
        (RunState::Recheck { repeatable }, RunEvent::StatusReport { fields }) => {
            recheck_transition(interpret_status(fields), repeatable)
        },
        (RunState::Recheck { repeatable: _ }, RunEvent::TransportError) => finish(false),
        _ => (s, RunAction::Ignore),
    }
}

/// The dispatcher is deterministic: an identical state and an identical
/// event always select the identical next state and next action,
/// independent of when the step is taken, because the transition table is a
/// pure function of the two alone.
pub proof fn lemma_run_step_deterministic(s1: RunState, e1: RunEvent, s2: RunState, e2: RunEvent)
    requires
        s1 == s2,
        e1 == e2,
    ensures
        spec_run_step(s1, e1) == spec_run_step(s2, e2),
{
}

/// The terminal step.
fn finish(success: bool) -> (r: (RunState, RunAction))
    ensures
        r == spec_finish(success),
{
    (RunState::Done { success }, RunAction::Finish { success })
}

/// Apply the pre-check decision table.
fn status_transition(st: UnlockStatus) -> (r: (RunState, RunAction))
    ensures
        r == spec_status_transition(st),
        spec_state_wf(r.0),
{
    match st {
        UnlockStatus::Eligible => (
            RunState::AcquireClock { next_server: 0 },
            RunAction::QueryTimeServer { index: 0 },
        ),
        UnlockStatus::Approved { until: _ } => finish(true),
        _ => finish(false),
    }
}

/// Apply the post-fire confirmation decision table.
fn recheck_transition(st: UnlockStatus, repeatable: bool) -> (r: (RunState, RunAction))
    ensures
        r == spec_recheck_transition(st, repeatable),
        spec_state_wf(r.0),
{
    match st {
        UnlockStatus::Approved { until: _ } => finish(true),
        UnlockStatus::Eligible => if repeatable {
            (RunState::Recheck { repeatable: true }, RunAction::SendStatusProbe)
        } else {
            finish(false)
        },
        _ => finish(false),
    }
}

} // verus!

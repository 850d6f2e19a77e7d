use sha1::Digest;
use timed_dispatch::clock::{clock_from_ntp, SyncedClock};
use timed_dispatch::credential::cookie_header;
use timed_dispatch::device_id::{device_id_from_seed, generate_device_id};
use timed_dispatch::interpret::{
    interpret_apply, interpret_status, within_grace, ApplyFields, ApplyOutcome, StatusFields,
    UnlockStatus,
};
use timed_dispatch::latency::estimate_latency_ms;
use timed_dispatch::observer::{clear, init, log, update_status};
use timed_dispatch::response::{decode_apply, decode_status};

#[test]
fn cookie_header_has_the_fixed_field_layout() {
    assert_eq!(
        cookie_header("SECRET-REDACTED", "ABCDEF"),
        "new_bbs_serviceToken=SECRET-REDACTED;versionCode=500411;versionName=5.4.11;deviceId=ABCDEF;"
    );
}

#[test]
fn grace_window_boundary_is_exact() {
    assert!(within_grace(3_350));
    assert!(!within_grace(3_351));
    assert!(!within_grace(3_360));
    assert!(within_grace(0));
    assert!(within_grace(-500));
}

#[test]
fn status_decoding_reads_the_documented_fields() {
    let body = r#"{"code":0,"data":{"is_pass":4,"button_state":1,"deadline_format":"06/15"}}"#;
    let fields = decode_status(body);
    assert_eq!(fields.code, Some(0));
    assert_eq!(fields.is_pass, Some(4));
    assert_eq!(fields.button_state, Some(1));
    assert_eq!(fields.deadline_format, Some(String::from("06/15")));
    assert_eq!(interpret_status(fields), UnlockStatus::Eligible);
}

#[test]
fn status_decoding_fails_closed_on_malformed_bodies() {
    assert_eq!(interpret_status(decode_status("not json at all")), UnlockStatus::Unknown);
    assert_eq!(interpret_status(decode_status("{}")), UnlockStatus::Unknown);
    let wrong_types = r#"{"code":"zero","data":{"is_pass":"yes"}}"#;
    assert_eq!(interpret_status(decode_status(wrong_types)), UnlockStatus::Unknown);
}

#[test]
fn status_interpreter_is_deterministic_across_calls() {
    let body = r#"{"code":0,"data":{"is_pass":4,"button_state":2,"deadline_format":"09/09"}}"#;
    let first = interpret_status(decode_status(body));
    let second = interpret_status(decode_status(body));
    assert_eq!(first, second);
    assert_eq!(
        first,
        UnlockStatus::Blocked { until: Some(String::from("09/09")) }
    );
}

#[test]
fn status_variants_classify_by_code_and_flags() {
    let stale = StatusFields {
        code: Some(100_004),
        is_pass: None,
        button_state: None,
        deadline_format: None,
    };
    assert_eq!(interpret_status(stale), UnlockStatus::StaleCredential);
    let young = StatusFields {
        code: Some(0),
        is_pass: Some(4),
        button_state: Some(3),
        deadline_format: None,
    };
    assert_eq!(interpret_status(young), UnlockStatus::TooYoungAccount);
    let approved = StatusFields {
        code: Some(0),
        is_pass: Some(1),
        button_state: None,
        deadline_format: Some(String::from("07/01")),
    };
    assert_eq!(
        interpret_status(approved),
        UnlockStatus::Approved { until: Some(String::from("07/01")) }
    );
    let odd_button = StatusFields {
        code: Some(0),
        is_pass: Some(4),
        button_state: Some(9),
        deadline_format: None,
    };
    assert_eq!(interpret_status(odd_button), UnlockStatus::Unknown);
}

#[test]
fn apply_outcomes_classify_by_code_and_result() {
    let body = r#"{"code":0,"data":{"apply_result":4,"deadline_format":"06/15"}}"#;
    assert_eq!(
        interpret_apply(decode_apply(body)),
        ApplyOutcome::BlockedWithGrace { until: Some(String::from("06/15")) }
    );
    let approved = ApplyFields { code: Some(0), apply_result: Some(1), deadline_format: None };
    assert_eq!(interpret_apply(approved), ApplyOutcome::Approved);
    let quota = ApplyFields {
        code: Some(0),
        apply_result: Some(3),
        deadline_format: Some(String::from("08/20")),
    };
    assert_eq!(
        interpret_apply(quota),
        ApplyOutcome::QuotaExceeded { until: Some(String::from("08/20")) }
    );
    let rejected = ApplyFields { code: Some(100_001), apply_result: None, deadline_format: None };
    assert_eq!(interpret_apply(rejected), ApplyOutcome::ServerRejected);
    let ambiguous = ApplyFields { code: Some(100_003), apply_result: None, deadline_format: None };
    assert_eq!(interpret_apply(ambiguous), ApplyOutcome::AmbiguousRetryNeeded);
    let unrecognized = ApplyFields { code: Some(7), apply_result: Some(1), deadline_format: None };
    assert_eq!(interpret_apply(unrecognized), ApplyOutcome::ServerRejected);
    let missing = ApplyFields { code: None, apply_result: None, deadline_format: None };
    assert_eq!(interpret_apply(missing), ApplyOutcome::ServerRejected);
}

#[test]
fn latency_estimate_averages_per_target_then_across_targets() {
    assert_eq!(estimate_latency_ms(&vec![vec![10, 20, 30]]), 20);
    assert_eq!(estimate_latency_ms(&vec![vec![10, 20], vec![], vec![40]]), 27);
}

#[test]
fn latency_estimate_falls_back_when_all_probes_fail() {
    assert_eq!(estimate_latency_ms(&vec![]), 150);
    assert_eq!(estimate_latency_ms(&vec![vec![], vec![]]), 150);
}

#[test]
fn device_id_matches_the_digest_of_the_seed() {
    let id = device_id_from_seed(123, 456);
    let digest = sha1::Sha1::digest(b"123-456");
    let mut expected = String::new();
    for b in digest.iter() {
        expected.push_str(&format!("{:02X}", b));
    }
    assert_eq!(id, expected);
    assert_eq!(id.len(), 40);
}

#[test]
fn generated_device_ids_are_forty_hex_chars() {
    let id = generate_device_id();
    assert_eq!(id.len(), 40);
    assert!(id.chars().all(|c| c.is_ascii_hexdigit() && !c.is_ascii_lowercase()));
}

#[test]
fn clock_anchors_at_the_authoritative_zone() {
    // 2024-01-01 00:00:00 UTC is 08:00 on the same date in the
    // authoritative zone (UTC+8).
    let clock = clock_from_ntp(1_704_067_200, 5).expect("in-range time must anchor");
    assert_eq!(clock.anchor_ms, 1_704_096_000_000);
    assert_eq!(clock.anchor_mono_ms, 5);
}

#[test]
fn clock_rederives_now_from_the_anchor() {
    let clock = SyncedClock { anchor_ms: 1_000_000, anchor_mono_ms: 400 };
    assert_eq!(clock.now_ms(400), 1_000_000);
    assert_eq!(clock.now_ms(1_400), 1_001_000);
}

#[test]
fn observer_logs_carry_a_clock_prefix() {
    let mut o = init();
    assert!(o.logs.is_empty());
    assert!(!o.ready);
    // 12:34:56 and change.
    log(&mut o, 45_296_789, "starting the run");
    assert_eq!(o.logs.len(), 1);
    assert_eq!(o.logs[0], "[12:34:56] starting the run");
    update_status(&mut o, true, "ready to submit");
    assert!(o.ready);
    assert_eq!(o.status, "ready to submit");
    assert_eq!(o.logs.len(), 1);
    clear(&mut o);
    assert!(o.logs.is_empty());
    assert_eq!(o.status, "ready to submit");
}

//! The response-code interpreter: a deterministic map from the fields read
//! out of a server response to a classified status or outcome, and the
//! post-deadline grace-window rule. Everything here fails closed: a missing
//! or unrecognized field never classifies as success.

use vstd::prelude::*;

verus! {

/// The response code that marks a stale credential: the run must stop and
/// the caller must refresh the token.
pub const STALE_CREDENTIAL_CODE: i64 = 100_004;

/// The response code of a processed fire action.
pub const PROCESSED_CODE: i64 = 0;

/// The response code of a generic rejection of the fire action.
pub const REJECTED_CODE: i64 = 100_001;

/// The response code of a possibly-approved fire action that needs a fresh
/// status probe to confirm.
pub const AMBIGUOUS_CODE: i64 = 100_003;

/// `is_pass` value that says the gating sub-state decides.
pub const PASS_GATED: i64 = 4;

/// `is_pass` value that says the request is already approved.
pub const PASS_APPROVED: i64 = 1;

/// `button_state` value: the account may apply now.
pub const BUTTON_ELIGIBLE: i64 = 1;

/// `button_state` value: applying is blocked until a reported date.
pub const BUTTON_BLOCKED: i64 = 2;

/// `button_state` value: the account is too young to apply.
pub const BUTTON_TOO_YOUNG: i64 = 3;

/// `apply_result` value: approved, to be confirmed by a fresh status probe.
pub const APPLY_APPROVED: i64 = 1;

/// `apply_result` value: the submission quota is exhausted.
pub const APPLY_QUOTA_EXCEEDED: i64 = 3;

/// `apply_result` value: blocked for the day; the grace window decides.
pub const APPLY_BLOCKED: i64 = 4;

/// Width of the post-deadline grace window, in milliseconds: a nominally
/// late result within it still counts as a success.
pub const GRACE_WINDOW_MS: i64 = 3_350;

/// The fields the status probe's response carries, each optional: absence
/// or an unparseable payload classifies as unknown, never as eligible.
#[derive(Debug, Clone, PartialEq, Eq)]
pub struct StatusFields {
    pub code: Option<i64>,
    pub is_pass: Option<i64>,
    pub button_state: Option<i64>,
    pub deadline_format: Option<String>,
}

/// The fields the fire action's response carries, each optional.
#[derive(Debug, Clone, PartialEq, Eq)]
pub struct ApplyFields {
    pub code: Option<i64>,
    pub apply_result: Option<i64>,
    pub deadline_format: Option<String>,
}

/// Classified result of the pre-check status probe.
#[derive(Debug, Clone, PartialEq, Eq)]
pub enum UnlockStatus {
    /// The account may apply: proceed to the timing phase.
    Eligible,
    /// The request is already approved, valid until the reported date.
    Approved { until: Option<String> },
    /// The account is too young to apply.
    TooYoungAccount,
    /// Applying is blocked until the reported date.
    Blocked { until: Option<String> },
    /// The credential is stale; the caller must refresh it.
    StaleCredential,
    /// Missing or unrecognized fields: fail closed.
    Unknown,
}

/// Classified result of the fire action.
#[derive(Debug, Clone, PartialEq, Eq)]
pub enum ApplyOutcome {
    /// Approved; a fresh status probe confirms the final state.
    Approved,
    /// The quota is exhausted until the reported date.
    QuotaExceeded { until: Option<String> },
    /// Blocked for the day; success iff the response landed within the
    /// grace window before the next midnight.
    BlockedWithGrace { until: Option<String> },
    /// Rejected, or an unrecognized response: fail closed.
    ServerRejected,
    /// Possibly approved; a single fresh status probe decides.
    AmbiguousRetryNeeded,
}

/// The status interpretation: a pure function of the response fields.
pub open spec fn spec_interpret_status(f: StatusFields) -> UnlockStatus {
    match f.code {
        Option::None => UnlockStatus::Unknown,
        Option::Some(code) => if code == STALE_CREDENTIAL_CODE {
            UnlockStatus::StaleCredential
        } else {
            match f.is_pass {
                Option::Some(p) => if p == PASS_GATED {
                    match f.button_state {
                        Option::Some(b) => if b == BUTTON_ELIGIBLE {
                            UnlockStatus::Eligible
                        } else if b == BUTTON_BLOCKED {
                            UnlockStatus::Blocked { until: f.deadline_format }
                        } else if b == BUTTON_TOO_YOUNG {
                            UnlockStatus::TooYoungAccount
                        } else {
                            UnlockStatus::Unknown
                        },
                        Option::None => UnlockStatus::Unknown,
                    }
                } else if p == PASS_APPROVED {
                    UnlockStatus::Approved { until: f.deadline_format }
                } else {
                    UnlockStatus::Unknown
                },
                Option::None => UnlockStatus::Unknown,
            }
        },
    }
}

/// Interpret the fields of a status probe response.
pub fn interpret_status(f: StatusFields) -> (r: UnlockStatus)
    ensures
        r == spec_interpret_status(f),
{
    match f.code {
        None => UnlockStatus::Unknown,
        Some(code) => if code == STALE_CREDENTIAL_CODE {
            UnlockStatus::StaleCredential
        } else {
            match f.is_pass {
                Some(p) => if p == PASS_GATED {
                    match f.button_state {
                        Some(b) => if b == BUTTON_ELIGIBLE {
                            UnlockStatus::Eligible
                        } else if b == BUTTON_BLOCKED {
                            UnlockStatus::Blocked { until: f.deadline_format }
                        } else if b == BUTTON_TOO_YOUNG {
                            UnlockStatus::TooYoungAccount
                        } else {
                            UnlockStatus::Unknown
                        },
                        None => UnlockStatus::Unknown,
                    }
                } else if p == PASS_APPROVED {
                    UnlockStatus::Approved { until: f.deadline_format }
                } else {
                    UnlockStatus::Unknown
                },
                None => UnlockStatus::Unknown,
            }
        },
    }
}

/// The fire-action interpretation: a pure function of the response fields.
pub open spec fn spec_interpret_apply(f: ApplyFields) -> ApplyOutcome {
    match f.code {
        Option::None => ApplyOutcome::ServerRejected,
        Option::Some(code) => if code == PROCESSED_CODE {
            match f.apply_result {
                Option::Some(a) => if a == APPLY_APPROVED {
                    ApplyOutcome::Approved
                } else if a == APPLY_QUOTA_EXCEEDED {
                    ApplyOutcome::QuotaExceeded { until: f.deadline_format }
                } else if a == APPLY_BLOCKED {
                    ApplyOutcome::BlockedWithGrace { until: f.deadline_format }
                } else {
                    ApplyOutcome::ServerRejected
                },
                Option::None => ApplyOutcome::ServerRejected,
            }
        } else if code == AMBIGUOUS_CODE {
            ApplyOutcome::AmbiguousRetryNeeded
        } else {
            ApplyOutcome::ServerRejected
        },
    }
}

/// Interpret the fields of a fire-action response.
pub fn interpret_apply(f: ApplyFields) -> (r: ApplyOutcome)
    ensures
        r == spec_interpret_apply(f),
{
    match f.code {
        None => ApplyOutcome::ServerRejected,
        Some(code) => if code == PROCESSED_CODE {
            match f.apply_result {
                Some(a) => if a == APPLY_APPROVED {
                    ApplyOutcome::Approved
                } else if a == APPLY_QUOTA_EXCEEDED {
                    ApplyOutcome::QuotaExceeded { until: f.deadline_format }
                } else if a == APPLY_BLOCKED {
                    ApplyOutcome::BlockedWithGrace { until: f.deadline_format }
                } else {
                    ApplyOutcome::ServerRejected
                },
                None => ApplyOutcome::ServerRejected,
            }
        } else if code == AMBIGUOUS_CODE {
            ApplyOutcome::AmbiguousRetryNeeded
        } else {
            ApplyOutcome::ServerRejected
        },
    }
}

/// The grace-window rule: a gap to the next midnight at or below the window
/// width (including a gap that has already gone negative) is a success; the
/// boundary is inclusive on the success side.
pub open spec fn spec_within_grace(gap_to_midnight_ms: i64) -> bool {
    gap_to_midnight_ms <= GRACE_WINDOW_MS
}

/// Classify a gap to the next authoritative midnight against the grace
/// window.
pub fn within_grace(gap_to_midnight_ms: i64) -> (r: bool)
    ensures
        r == spec_within_grace(gap_to_midnight_ms),
{
    gap_to_midnight_ms <= GRACE_WINDOW_MS
}

/// Interpretation is deterministic: identical response fields always yield
/// the identical classification, independent of when or how often the
/// interpreters are invoked, because both are pure functions of their
/// fields alone.
pub proof fn lemma_interpretation_deterministic(a: StatusFields, b: StatusFields, c: ApplyFields, d: ApplyFields)
    requires
        a == b,
        c == d,
    ensures
        spec_interpret_status(a) == spec_interpret_status(b),
        spec_interpret_apply(c) == spec_interpret_apply(d),
{
}

} // verus!

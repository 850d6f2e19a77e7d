//! Decoding a response body into the typed, optional-field structures the
//! interpreter reads. What the JSON parser extracts from a body is a
//! function of the body text alone; each decode names that result, so the
//! interpreted outcome is pinned all the way back to the wire: identical
//! bodies decode to identical fields.

use vstd::prelude::*;
use crate::interpret::{ApplyFields, StatusFields};

verus! {

/// The fields serde_json extracts from a status probe's body: `code` at the
/// top level and `is_pass`, `button_state`, `deadline_format` under `data`,
/// each `None` when the body does not parse or lacks the field. Only the
/// parser can compute it; the trusted decode below names its result.
pub uninterp spec fn spec_status_fields_of(body: Seq<char>) -> StatusFields;

/// The fields serde_json extracts from a fire action's body: `code` at the
/// top level and `apply_result`, `deadline_format` under `data`, in the
/// same way.
pub uninterp spec fn spec_apply_fields_of(body: Seq<char>) -> ApplyFields;

/// Relies on serde_json: `from_str` for `Value`, `Value::get`, `as_i64` and
/// `as_str` — all total functions of the document alone. A body that does
/// not parse, and every field the body lacks or types otherwise, comes out
/// as `None`.
#[verifier::external_body]
fn read_status_fields(body: &str) -> (r: StatusFields)
    ensures
        r == spec_status_fields_of(body@),
{
    let v: Option<serde_json::Value> = serde_json::from_str(body).ok();
    let data = v.as_ref().and_then(|v| v.get("data"));
    StatusFields {
        code: v.as_ref().and_then(|v| v.get("code")).and_then(|c| c.as_i64()),
        is_pass: data.and_then(|d| d.get("is_pass")).and_then(|f| f.as_i64()),
        button_state: data.and_then(|d| d.get("button_state")).and_then(|f| f.as_i64()),
        deadline_format: data
            .and_then(|d| d.get("deadline_format"))
            .and_then(|f| f.as_str())
            .map(|s| s.to_owned()),
    }
}

/// Relies on serde_json in the same way, for the fire action's fields.
#[verifier::external_body]
fn read_apply_fields(body: &str) -> (r: ApplyFields)
    ensures
        r == spec_apply_fields_of(body@),
{
    let v: Option<serde_json::Value> = serde_json::from_str(body).ok();
    let data = v.as_ref().and_then(|v| v.get("data"));
    ApplyFields {
        code: v.as_ref().and_then(|v| v.get("code")).and_then(|c| c.as_i64()),
        apply_result: data.and_then(|d| d.get("apply_result")).and_then(|f| f.as_i64()),
        deadline_format: data
            .and_then(|d| d.get("deadline_format"))
            .and_then(|f| f.as_str())
            .map(|s| s.to_owned()),
    }
}

/// Decode a status probe's response body. The result is exactly what the
/// parser extracts from this body text; the interpreter maps every missing
/// field to the fail-closed classification.
pub fn decode_status(body: &str) -> (r: StatusFields)
    ensures
        r == spec_status_fields_of(body@),
{
    read_status_fields(body)
}

/// Decode a fire action's response body, the same way.
pub fn decode_apply(body: &str) -> (r: ApplyFields)
    ensures
        r == spec_apply_fields_of(body@),
{
    read_apply_fields(body)
}

} // verus!

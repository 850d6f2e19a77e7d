//! The status observer: an explicit, run-owned sink for human-readable log
//! lines (each prefixed with a wall-clock timestamp) and a one-line status
//! summary. The run writes to it in program order; displaying it is the
//! caller's concern.

use vstd::prelude::*;
use crate::textenc::{chars_to_string, push_two_digits, spec_two_digits};

verus! {

/// Milliseconds in an hour.
pub const HOUR_MS: u64 = 3_600_000;

/// Milliseconds in a minute.
pub const MINUTE_MS: u64 = 60_000;

/// The observer: appended log lines, and a replace-on-write status summary.
#[derive(Debug)]
pub struct Observer {
    pub logs: Vec<String>,
    pub ready: bool,
    pub status: String,
}

/// The `[HH:MM:SS] ` prefix of one log line, derived from a wall-clock
/// reading in milliseconds.
pub open spec fn spec_stamp_chars(now_ms: u64) -> Seq<char> {
    seq!['['] + spec_two_digits(((now_ms as int / HOUR_MS as int) % 24) as int) + seq![':']
        + spec_two_digits(((now_ms as int / MINUTE_MS as int) % 60) as int) + seq![':']
        + spec_two_digits(((now_ms as int / 1000) % 60) as int) + seq![']', ' ']
}

/// Create an empty observer: no lines, not ready, empty status.
pub fn init() -> (r: Observer)
    ensures
        r.logs@.len() == 0,
        r.ready == false,
        r.status@.len() == 0,
{
    Observer { logs: Vec::new(), ready: false, status: String::new() }
}

/// Relies on `String::push_str`: appends exactly the given characters.
#[verifier::external_body]
pub(crate) fn push_str(out: &mut String, s: &str)
    ensures
        final(out)@ == old(out)@ + s@,
{
    out.push_str(s);
}

/// Append one timestamped line: the `[HH:MM:SS] ` prefix computed from the
/// wall-clock reading, then the message. Nothing else changes.
pub fn log(o: &mut Observer, now_ms: u64, message: &str)
    ensures
        final(o).logs@.len() == old(o).logs@.len() + 1,
        final(o).logs@.last()@ == spec_stamp_chars(now_ms) + message@,
        final(o).logs@.drop_last() == old(o).logs@,
        final(o).ready == old(o).ready,
        final(o).status == old(o).status,
{
    let hours = (now_ms / HOUR_MS) % 24;
    let minutes = (now_ms / MINUTE_MS) % 60;
    let seconds = (now_ms / 1000) % 60;
    let mut stamp: Vec<char> = Vec::new();
    stamp.push('[');
    push_two_digits(hours, &mut stamp);
    stamp.push(':');
    push_two_digits(minutes, &mut stamp);
    stamp.push(':');
    push_two_digits(seconds, &mut stamp);
    stamp.push(']');
    stamp.push(' ');
    proof {
        assert(stamp@ =~= spec_stamp_chars(now_ms));
    }
    let mut line = chars_to_string(&stamp);
    push_str(&mut line, message);
    o.logs.push(line);
    proof {
        assert(o.logs@.drop_last() =~= old(o).logs@);
    }
}

/// Replace the status summary (last writer wins). The log is untouched.
pub fn update_status(o: &mut Observer, ready: bool, message: &str)
    ensures
        final(o).ready == ready,
        final(o).status@ == message@,
        final(o).logs == old(o).logs,
{
    o.ready = ready;
    o.status = message.to_owned();
}

/// Drop every log line; the status summary stays.
pub fn clear(o: &mut Observer)
    ensures
        final(o).logs@.len() == 0,
        final(o).ready == old(o).ready,
        final(o).status == old(o).status,
{
    o.logs = Vec::new();
}

} // verus!

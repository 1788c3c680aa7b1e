//! The cron clock: parsing cron expressions and computing the next firing
//! instant, through the `cron` crate.
//!
//! Whether an expression parses is a pure function of its text, named
//! `cron_parses`. The next firing instant is computed in the machine's
//! local time zone, so nothing is promised of its value; the scheduler
//! clamps it against the current time instead.

use vstd::prelude::*;

verus! {

/// Whether the `cron` crate's grammar accepts this expression text.
pub uninterp spec fn cron_parses(s: Seq<char>) -> bool;

#[verifier::external_type_specification]
#[verifier::external_body]
pub struct ExSchedule(cron::Schedule);

/// Relies on `cron::Schedule::from_str`, a pure parser: it accepts or
/// rejects an expression by its text alone.
#[verifier::external_body]
pub(crate) fn parse_schedule(expr: &str) -> (r: Option<cron::Schedule>)
    ensures
        r is Some <==> cron_parses(expr@),
{
    match <cron::Schedule as std::str::FromStr>::from_str(expr) {
        Ok(s) => Some(s),
        Err(_) => None,
    }
}

/// An instant the cron clock can be asked about: far below chrono's own
/// upper range (around the year 126 000), so stepping one second past it
/// stays representable.
pub const MAX_CRON_INSTANT_MILLIS: i64 = 4_000_000_000_000_000;

/// Relies on `cron::Schedule::after` and its iterator's `next`: the first
/// instant the schedule's search yields past `now_millis`, in the
/// machine's local time zone, as milliseconds since the Unix epoch.
/// `None` when the schedule has no further occurrence or the timestamp is
/// out of chrono's range. During a local-clock fold the yielded instant
/// can even lie in the past, so no ordering is promised; callers clamp.
/// The bound keeps the search away from chrono's range end, past which
/// the crate's date arithmetic panics.
#[verifier::external_body]
pub(crate) fn next_fire_millis(sched: &cron::Schedule, now_millis: i64) -> Option<i64>
    requires
        now_millis < MAX_CRON_INSTANT_MILLIS,
{
    match chrono::TimeZone::timestamp_millis_opt(&chrono::Local, now_millis) {
        chrono::LocalResult::Single(dt) => sched.after(&dt).next().map(|d| d.timestamp_millis()),
        _ => None,
    }
}

/// Whether `expr` is a cron expression the scheduler can use.
pub fn cron_expr_valid(expr: &str) -> (r: bool)
    ensures
        r == cron_parses(expr@),
{
    parse_schedule(expr).is_some()
}

} // verus!

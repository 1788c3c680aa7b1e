//! Access to the ambient wall clock, and rendering of timestamps.
//!
//! Everything here goes through the machine's local time zone, so almost
//! nothing can be promised about the values; callers treat them as
//! arbitrary. The weekday names are the library's own verified mapping.

use vstd::prelude::*;

verus! {

use vstd::string::StringExecFns;
use std::fmt::Write;

/// The Chinese name of weekday `n`, with Monday as `0`.
pub open spec fn spec_weekday_name_cn(n: int) -> Seq<char> {
    if n == 0 {
        "星期一"@
    } else if n == 1 {
        "星期二"@
    } else if n == 2 {
        "星期三"@
    } else if n == 3 {
        "星期四"@
    } else if n == 4 {
        "星期五"@
    } else if n == 5 {
        "星期六"@
    } else {
        "星期日"@
    }
}

/// Relies on chrono's `Local::now` and `DateTime::timestamp_millis`: the
/// current wall-clock instant as milliseconds since the Unix epoch. The
/// machine clock is arbitrary, so nothing is promised of the value.
#[verifier::external_body]
pub fn get_unix_timestamp_millis_now() -> i64 {
    chrono::Local::now().timestamp_millis()
}

/// Relies on chrono's `Weekday::num_days_from_monday`, documented to return
/// `0` (Monday) through `6` (Sunday); which day comes back depends on the
/// machine clock and time zone.
#[verifier::external_body]
fn now_weekday_number() -> (r: u8)
    ensures
        r < 7,
{
    chrono::Datelike::weekday(&chrono::Local::now()).num_days_from_monday() as u8
}

/// Relies on chrono's `TimeZone::timestamp_millis_opt` and
/// `DateTime::format`: the instant rendered in the machine's local time
/// zone. The local time zone is ambient state, so the text is not pinned
/// down. Two edge cases return the empty string by deliberate choice,
/// rather than substitute the epoch instant or panic: a timestamp out of
/// chrono's range, and a format string chrono rejects.
#[verifier::external_body]
pub fn format_timestamp(ts: i64, fmt: &str) -> String {
    match chrono::TimeZone::timestamp_millis_opt(&chrono::Local, ts) {
        chrono::LocalResult::Single(dt) => {
            let mut s = String::new();
            match write!(&mut s, "{}", dt.format(fmt)) {
                Ok(()) => s,
                Err(_) => String::new(),
            }
        },
        _ => String::new(),
    }
}

/// The Chinese name of weekday `n`, with Monday as `0`.
pub fn weekday_name_cn(n: u8) -> (r: String)
    requires
        n < 7,
    ensures
        r@ == spec_weekday_name_cn(n as int),
{
    if n == 0 {
        String::from_str("星期一")
    } else if n == 1 {
        String::from_str("星期二")
    } else if n == 2 {
        String::from_str("星期三")
    } else if n == 3 {
        String::from_str("星期四")
    } else if n == 4 {
        String::from_str("星期五")
    } else if n == 5 {
        String::from_str("星期六")
    } else {
        String::from_str("星期日")
    }
}

/// Today's weekday as a Chinese name; always one of the seven names.
pub fn get_week_day_of_today() -> (r: String)
    ensures
        exists|n: int| 0 <= n < 7 && r@ == spec_weekday_name_cn(n),
{
    let w = now_weekday_number();
    let r = weekday_name_cn(w);
    proof {
        assert(r@ == spec_weekday_name_cn(w as int));
    }
    r
}

} // verus!

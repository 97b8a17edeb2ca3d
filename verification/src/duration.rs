//! The duration formatter: buckets an elapsed span into the largest
//! non-zero whole unit — weeks, days, hours, minutes — and renders
//! "{count} {unit} {ago}" with the locale's labels, or the locale's
//! "just now" label. An elapsed span that is negative (clock skew, bad
//! data) is clamped to zero and reported as "just now", never a failure.

use vstd::prelude::*;
use crate::lang::Language;
use crate::text::{spec_dec_nat, u64_to_dec};

verus! {

pub const MILLIS_PER_SECOND: i64 = 1000;

pub const SECONDS_PER_MINUTE: i64 = 60;

pub const SECONDS_PER_HOUR: i64 = 3600;

pub const SECONDS_PER_DAY: i64 = 86400;

pub const SECONDS_PER_WEEK: i64 = 604800;

/// The elapsed span in whole seconds, clamped at zero.
pub open spec fn spec_elapsed_seconds(elapsed_ms: int) -> int {
    if elapsed_ms < 0 {
        0
    } else {
        elapsed_ms / (MILLIS_PER_SECOND as int)
    }
}

/// The rendered staleness line for an elapsed span of milliseconds, with
/// the given locale's labels.
pub open spec fn spec_display_duration(elapsed_ms: int, l: Language) -> Seq<char> {
    let secs = spec_elapsed_seconds(elapsed_ms);
    let weeks = secs / (SECONDS_PER_WEEK as int);
    let days = secs / (SECONDS_PER_DAY as int);
    let hours = secs / (SECONDS_PER_HOUR as int);
    let minutes = secs / (SECONDS_PER_MINUTE as int);
    if weeks > 0 {
        spec_dec_nat(weeks) + " "@ + l.time_week@ + " "@ + l.time_ago@
    } else if days > 0 {
        spec_dec_nat(days) + " "@ + l.time_day@ + " "@ + l.time_ago@
    } else if hours > 0 {
        spec_dec_nat(hours) + " "@ + l.time_hour@ + " "@ + l.time_ago@
    } else if minutes > 0 {
        spec_dec_nat(minutes) + " "@ + l.time_minutes@ + " "@ + l.time_ago@
    } else {
        l.time_just@
    }
}

fn render_count(count: i64, unit: &str, ago: &str) -> (r: String)
    requires
        count > 0,
    ensures
        r@ == spec_dec_nat(count as int) + " "@ + unit@ + " "@ + ago@,
{
    let mut s = u64_to_dec(count as u64);
    s.append(" ");
    s.append(unit);
    s.append(" ");
    s.append(ago);
    s
}

/// Renders the "time since last update" line: the largest non-zero bucket
/// in strict descending order, or the "just now" label, exactly as
/// `spec_display_duration` says. Never fails, also on a negative span.
pub fn display_duration(elapsed_ms: i64, lang: &Language) -> (r: String)
    ensures
        r@ == spec_display_duration(elapsed_ms as int, *lang),
{
    let secs: i64 = if elapsed_ms < 0 {
        0
    } else {
        elapsed_ms / MILLIS_PER_SECOND
    };
    let weeks = secs / SECONDS_PER_WEEK;
    let days = secs / SECONDS_PER_DAY;
    let hours = secs / SECONDS_PER_HOUR;
    let minutes = secs / SECONDS_PER_MINUTE;
    if weeks > 0 {
        render_count(weeks, lang.time_week, lang.time_ago)
    } else if days > 0 {
        render_count(days, lang.time_day, lang.time_ago)
    } else if hours > 0 {
        render_count(hours, lang.time_hour, lang.time_ago)
    } else if minutes > 0 {
        render_count(minutes, lang.time_minutes, lang.time_ago)
    } else {
        String::from_str(lang.time_just)
    }
}

/// A negative elapsed span — clock skew — always renders as the locale's
/// "just now" label, never as an error.
pub proof fn lemma_skew_is_just_now(elapsed_ms: int, l: Language)
    requires
        elapsed_ms < 0,
    ensures
        spec_display_duration(elapsed_ms, l) == l.time_just@,
{
}

} // verus!

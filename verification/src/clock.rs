//! Time as the store and the sync engine see it: RFC 3339 texts for what is
//! written down, seconds since the Unix epoch for what is compared.

use vstd::prelude::*;
use vstd::string::*;
use crate::text::opt_text;

verus! {

/// One reading of the clock, in both forms.
#[derive(Debug)]
pub struct Moment {
    /// The reading as an RFC 3339 text.
    pub rfc3339: String,
    /// The reading in whole seconds since the Unix epoch.
    pub epoch_seconds: i64,
}

pub struct MomentView {
    pub text: Seq<char>,
    pub seconds: int,
}

impl View for Moment {
    type V = MomentView;

    open spec fn view(&self) -> MomentView {
        MomentView { text: self.rfc3339@, seconds: self.epoch_seconds as int }
    }
}

impl Clone for Moment {
    fn clone(&self) -> (r: Self)
        ensures
            r@ == self@,
    {
        Moment { rfc3339: self.rfc3339.clone(), epoch_seconds: self.epoch_seconds }
    }
}

/// The seconds since the Unix epoch that `chrono` reads out of an RFC 3339
/// text, or `None` where it does not accept the text.
pub uninterp spec fn rfc3339_seconds(text: Seq<char>) -> Option<int>;

/// The RFC 3339 text that `chrono` writes for a number of seconds since the
/// Unix epoch, in UTC, or `None` where the number is outside its calendar.
pub uninterp spec fn rfc3339_text(seconds: int) -> Option<Seq<char>>;

/// Calls `chrono::DateTime::parse_from_rfc3339` and, on success,
/// `DateTime::timestamp`. A text that `chrono` rejects gives `None`.
#[verifier::external_body]
pub(crate) fn parse_rfc3339(text: &str) -> (r: Option<i64>)
    ensures
        match r {
            Some(seconds) => rfc3339_seconds(text@) == Some(seconds as int),
            None => rfc3339_seconds(text@) is None,
        },
{
    match chrono::DateTime::parse_from_rfc3339(text) {
        Ok(t) => Some(t.timestamp()),
        Err(_) => None,
    }
}

/// Calls `chrono::DateTime::from_timestamp` with no nanoseconds and, where
/// that gives a time, `DateTime::to_rfc3339` on it.
#[verifier::external_body]
pub(crate) fn format_rfc3339(seconds: i64) -> (r: Option<String>)
    ensures
        opt_text(r) == rfc3339_text(seconds as int),
{
    match chrono::DateTime::from_timestamp(seconds, 0) {
        Some(t) => Some(t.to_rfc3339()),
        None => None,
    }
}

/// What `chrono` writes for a number of seconds since the Unix epoch, taken
/// as a time in UTC, under a `strftime` pattern; `None` where the number is
/// outside its calendar.
pub uninterp spec fn utc_formatted(seconds: int, pattern: Seq<char>) -> Option<Seq<char>>;

/// The pattern for a time of day.
pub open spec fn time_of_day_pattern() -> Seq<char> {
    "%H:%M:%S"@
}

/// The pattern for a date and time in UTC.
pub open spec fn stamp_pattern() -> Seq<char> {
    "%Y-%m-%dT%H:%M:%SZ"@
}

/// Calls `chrono::DateTime::from_timestamp` with no nanoseconds and, where
/// that gives a time, `format` on it with the pattern. Only the two patterns
/// of this crate are admitted: `chrono` does not write under a pattern that
/// it cannot read.
#[verifier::external_body]
pub(crate) fn format_utc(seconds: i64, pattern: &str) -> (r: Option<String>)
    requires
        pattern@ == time_of_day_pattern() || pattern@ == stamp_pattern(),
    ensures
        opt_text(r) == utc_formatted(seconds as int, pattern@),
{
    match chrono::DateTime::from_timestamp(seconds, 0) {
        Some(t) => Some(t.format(pattern).to_string()),
        None => None,
    }
}

/// The seconds since the Unix epoch that `chrono` reads out of a text under
/// a `strftime` pattern with a time zone in it, or `None` where it does not
/// accept the text or the pattern.
pub uninterp spec fn parsed_seconds(text: Seq<char>, pattern: Seq<char>) -> Option<int>;

/// Calls `chrono::DateTime::parse_from_str` and, on success,
/// `DateTime::timestamp`.
#[verifier::external_body]
pub(crate) fn parse_with_pattern(text: &str, pattern: &str) -> (r: Option<i64>)
    ensures
        match r {
            Some(seconds) => parsed_seconds(text@, pattern@) == Some(seconds as int),
            None => parsed_seconds(text@, pattern@) is None,
        },
{
    match chrono::DateTime::parse_from_str(text, pattern) {
        Ok(t) => Some(t.timestamp()),
        Err(_) => None,
    }
}

/// Reads the clock with `chrono::Utc::now` and gives the reading both as
/// `to_rfc3339` writes it and as `timestamp` counts it. Nothing is known of a
/// reading beforehand.
#[verifier::external_body]
pub(crate) fn current_moment() -> (r: Moment) {
    let t = chrono::Utc::now();
    Moment { rfc3339: t.to_rfc3339(), epoch_seconds: t.timestamp() }
}

/// How long before its expiry a token is renewed, in seconds.
pub const REFRESH_SKEW_SECONDS: i64 = 300;

/// Whether a token that expires at `expires_at` is due for renewal at `now`:
/// it is once no more than the skew window is left.
pub open spec fn refresh_due(expires_at: int, now: int) -> bool {
    expires_at <= now + 300
}

/// Decides `refresh_due` without overflow.
pub fn is_refresh_due(expires_at: i64, now: i64) -> (r: bool)
    ensures
        r == refresh_due(expires_at as int, now as int),
{
    if now > i64::MAX - REFRESH_SKEW_SECONDS {
        true
    } else {
        expires_at <= now + REFRESH_SKEW_SECONDS
    }
}

} // verus!

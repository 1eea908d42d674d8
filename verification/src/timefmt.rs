//! Timestamp formatting, done by chrono behind trusted wrappers.
//!
//! Two of the formats are functions of their argument alone and are given
//! names that contracts elsewhere use; the local-time format depends on the
//! machine's timezone database, so nothing is stated of its text.

use vstd::prelude::*;

verus! {

/// RFC3339 UTC text, seconds precision, "Z" suffix, of the instant `ms`
/// epoch milliseconds; the empty sequence for an instant outside the
/// representable calendar range.
pub uninterp spec fn rfc3339_utc_of(ms: int) -> Seq<char>;

/// "%Y-%m-%d %H:%M:%S" text, at the fixed UTC-6 offset, of the instant named
/// by an RFC3339 timestamp; `None` when the text does not parse as RFC3339.
pub uninterp spec fn utc_minus6_stamp_of(s: Seq<char>) -> Option<Seq<char>>;

/// Relies on chrono's `DateTime::<Utc>::from_timestamp_millis` and
/// `DateTime::to_rfc3339_opts`: both are computed from the millisecond value
/// alone, so the text is a function of `ms`.
#[verifier::external_body]
fn format_epoch_rfc3339(ms: i64) -> (r: String)
    ensures
        r@ == rfc3339_utc_of(ms as int),
{
    match chrono::DateTime::<chrono::Utc>::from_timestamp_millis(ms) {
        Some(dt) => dt.to_rfc3339_opts(chrono::SecondsFormat::Secs, true),
        None => String::new(),
    }
}

/// Relies on chrono's `DateTime::parse_from_rfc3339`, `with_timezone` at a
/// fixed offset, and `format`: parsing and fixed-offset formatting are
/// computed from the text alone.
#[verifier::external_body]
pub(crate) fn format_source_timestamp(s: &str) -> (r: Option<String>)
    ensures
        match r {
            Some(t) => utc_minus6_stamp_of(s@) == Some(t@),
            None => utc_minus6_stamp_of(s@) is None,
        },
{
    let offset = match chrono::FixedOffset::west_opt(6 * 3600) {
        Some(o) => o,
        None => return None,
    };
    match chrono::DateTime::parse_from_rfc3339(s) {
        Ok(dt) => Some(dt.with_timezone(&offset).format("%Y-%m-%d %H:%M:%S").to_string()),
        Err(_) => None,
    }
}

/// Relies on chrono's `DateTime::<Utc>::from_timestamp_millis`,
/// `with_timezone` to the machine's local timezone, `Local::now`, and
/// `format`: local "%d/%m/%Y %H:%M:%S" text of the instant, falling back to
/// the current local time for an instant outside the representable range.
/// The text depends on the machine's timezone, so nothing is stated of it.
#[verifier::external_body]
pub(crate) fn format_timestamp_ms(ts_ms: i64) -> String {
    match chrono::DateTime::<chrono::Utc>::from_timestamp_millis(ts_ms) {
        Some(dt) => dt.with_timezone(&chrono::Local).format("%d/%m/%Y %H:%M:%S").to_string(),
        None => chrono::Local::now().format("%d/%m/%Y %H:%M:%S").to_string(),
    }
}

/// RFC3339 UTC text of an optional mute deadline.
pub fn format_deadline(deadline: Option<i64>) -> (r: Option<String>)
    ensures
        match r {
            Some(t) => deadline is Some && t@ == rfc3339_utc_of(deadline->0 as int),
            None => deadline is None,
        },
{
    match deadline {
        Some(ms) => Some(format_epoch_rfc3339(ms)),
        None => None,
    }
}

} // verus!

//! Creation dates: read and written by `chrono`, ordered here.
use vstd::prelude::*;
use crate::text::opt_text;

verus! {

/// A moment in time: whole seconds since 1970-01-01 00:00:00 UTC, and the
/// nanoseconds since the last whole second. Within a leap second the
/// nanoseconds run past 999,999,999.
#[derive(Clone, Copy, Debug, PartialEq, Eq, Structural)]
pub struct CreationDate {
    pub seconds: i64,
    pub nanos: u32,
}

/// The moment that `chrono` reads from a date in its relaxed RFC 3339 form,
/// as seconds and nanoseconds; `None` for a text that it refuses.
pub uninterp spec fn parsed_date(text: Seq<char>) -> Option<(i64, u32)>;

/// What `chrono` writes for a moment in RFC 3339 with milliseconds and `Z`
/// for UTC; `None` for seconds and nanoseconds that are no date to it.
pub uninterp spec fn rfc3339_millis(seconds: int, nanos: int) -> Option<Seq<char>>;

/// `str::parse::<chrono::DateTime<chrono::Utc>>`: reads a date. What it
/// read is handed out as `DateTime::timestamp` and
/// `DateTime::timestamp_subsec_nanos` give it.
#[verifier::external_body]
pub(crate) fn parse_date(text: &str) -> (r: Result<CreationDate, chrono::ParseError>)
    ensures
        r is Ok <==> parsed_date(text@) is Some,
        r matches Ok(date) ==> parsed_date(text@) == Some((date.seconds, date.nanos)),
{
    match text.parse::<chrono::DateTime<chrono::Utc>>() {
        Ok(date) => Ok(
            CreationDate { seconds: date.timestamp(), nanos: date.timestamp_subsec_nanos() },
        ),
        Err(error) => Err(error),
    }
}

/// `chrono::DateTime::to_rfc3339_opts` with `SecondsFormat::Millis` and `Z`,
/// on the date that `DateTime::from_timestamp` makes of the moment.
#[verifier::external_body]
pub(crate) fn format_date(date: CreationDate) -> (r: Option<String>)
    ensures
        opt_text(r) == rfc3339_millis(date.seconds as int, date.nanos as int),
{
    match chrono::DateTime::from_timestamp(date.seconds, date.nanos) {
        Some(utc) => Some(utc.to_rfc3339_opts(chrono::SecondsFormat::Millis, true)),
        None => None,
    }
}

/// Whether `a` comes before `b` in time. No date at all comes before every
/// date.
pub open spec fn date_before(a: Option<CreationDate>, b: Option<CreationDate>) -> bool {
    match (a, b) {
        (None, None) => false,
        (None, Some(_)) => true,
        (Some(_), None) => false,
        (Some(x), Some(y)) => x.seconds < y.seconds || (x.seconds == y.seconds && x.nanos
            < y.nanos),
    }
}

/// Decides whether `a` comes before `b`.
pub fn is_before(a: &Option<CreationDate>, b: &Option<CreationDate>) -> (r: bool)
    ensures
        r == date_before(*a, *b),
{
    match (a, b) {
        (None, None) => false,
        (None, Some(_)) => true,
        (Some(_), None) => false,
        (Some(x), Some(y)) => x.seconds < y.seconds || (x.seconds == y.seconds && x.nanos
            < y.nanos),
    }
}

} // verus!

//! What the library obtains from outside crates: the current time, freshly
//! generated identifiers, and the RFC 3339 text of points in time. Each
//! function here is trusted, not proved.
use crate::state::opt_view;
use chrono::{DateTime, Utc};
use vstd::prelude::*;

verus! {

/// The shape of a hyphenated, lower-case UUID: 36 characters, hyphens at
/// positions 8, 13, 18 and 23, lower-case hexadecimal digits elsewhere.
pub open spec fn is_hyphenated_uuid(s: Seq<char>) -> bool {
    &&& s.len() == 36
    &&& forall|i: int|
        0 <= i < 36 ==> if i == 8 || i == 13 || i == 18 || i == 23 {
            s[i] == '-'
        } else {
            ('0' <= #[trigger] s[i] <= '9') || ('a' <= s[i] <= 'f')
        }
}

/// A point in time: whole seconds since 1970-01-01T00:00:00Z and the
/// nanoseconds past that second.
#[derive(Debug, Clone, Copy, PartialEq, Eq, Hash, Structural)]
pub struct Timestamp {
    pub unix_seconds: i64,
    pub nanos: u32,
}

impl Timestamp {
    pub fn from_unix(unix_seconds: i64, nanos: u32) -> (r: Self)
        ensures
            r.unix_seconds == unix_seconds,
            r.nanos == nanos,
    {
        Timestamp { unix_seconds, nanos }
    }
}

/// The milliseconds since 1970 of `t`, counted as chrono's
/// `DateTime::timestamp_millis` counts them.
pub open spec fn unix_millis(t: Timestamp) -> int {
    t.unix_seconds * 1000 + t.nanos / 1_000_000
}

/// The milliseconds since 1970 of a point in time on or after 1970.
pub fn unix_millis_of(t: Timestamp) -> (r: u64)
    requires
        0 <= t.unix_seconds < 200_000_000_000_000,
        t.nanos < 1_000_000_000,
    ensures
        r == unix_millis(t),
{
    (t.unix_seconds as u64) * 1000 + (t.nanos / 1_000_000) as u64
}

/// Calls `chrono::Utc::now` and reads the seconds and sub-second nanoseconds
/// of the result. It is the system's wall-clock time at the call, so only
/// its range is claimed: chrono builds it by `DateTime::from_timestamp` from
/// the time since 1970 that std reports, whose sub-second part is below one
/// second, and `from_timestamp` gives no value for a day count beyond the
/// `i32` range, that is, from about 1.86e14 seconds on. (chrono panics there
/// only when the system clock reads a time before 1970.)
#[verifier::external_body]
pub(crate) fn utc_now() -> (t: Timestamp)
    ensures
        0 <= t.unix_seconds < 200_000_000_000_000,
        t.nanos < 1_000_000_000,
{
    let now = Utc::now();
    Timestamp { unix_seconds: now.timestamp(), nanos: now.timestamp_subsec_nanos() }
}

/// Calls `uuid::Uuid::now_v7` and renders the result with its `Display`
/// implementation. The identifier itself depends on the time and on random
/// bits, so only its textual shape is claimed: uuid's `Display` writes the
/// hyphenated, lower-case form.
#[verifier::external_body]
pub(crate) fn new_v7_uuid_text() -> (s: String)
    ensures
        is_hyphenated_uuid(s@),
{
    uuid::Uuid::now_v7().to_string()
}

/// The RFC 3339 text that chrono gives for the instant `unix_seconds` and
/// `nanos` past it, or `None` where chrono refuses the values.
pub uninterp spec fn rfc3339_rendered(unix_seconds: i64, nanos: u32) -> Option<Seq<char>>;

/// Calls `chrono::DateTime::<Utc>::from_timestamp` and renders the instant
/// with `DateTime::to_rfc3339`. Claimed: the result is the named value
/// `rfc3339_rendered` of the two arguments. Not claimed: for which values
/// chrono refuses the instant (those outside its range of dates).
#[verifier::external_body]
pub(crate) fn render_rfc3339(unix_seconds: i64, nanos: u32) -> (r: Option<String>)
    ensures
        opt_view(r) == rfc3339_rendered(unix_seconds, nanos),
{
    DateTime::<Utc>::from_timestamp(unix_seconds, nanos).map(|t| t.to_rfc3339())
}

/// What `chrono::DateTime::parse_from_rfc3339` gives for `text`: the
/// instant's seconds since the epoch and nanoseconds past that second, or
/// the text of chrono's parse error.
pub uninterp spec fn rfc3339_parsed(text: Seq<char>) -> Result<(i64, u32), Seq<char>>;

/// Calls `chrono::DateTime::parse_from_rfc3339` and reads the seconds and
/// nanoseconds of the instant (`timestamp`, `timestamp_subsec_nanos`), or
/// renders the error with its `Display`. Claimed: the outcome is the named
/// value `rfc3339_parsed` of the text.
#[verifier::external_body]
pub(crate) fn parse_rfc3339(text: &str) -> (r: Result<Timestamp, String>)
    ensures
        match r {
            Ok(t) => rfc3339_parsed(text@) == Ok::<(i64, u32), Seq<char>>((t.unix_seconds, t.nanos)),
            Err(e) => rfc3339_parsed(text@) == Err::<(i64, u32), Seq<char>>(e@),
        },
{
    match DateTime::parse_from_rfc3339(text) {
        Ok(t) => Ok(Timestamp { unix_seconds: t.timestamp(), nanos: t.timestamp_subsec_nanos() }),
        Err(error) => Err(error.to_string()),
    }
}

} // verus!

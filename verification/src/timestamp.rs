//! RFC 3339 time stamps in UTC, from a moment given as seconds and
//! nanoseconds since the Unix epoch. The caller reads the clock.
use vstd::prelude::*;
use crate::text::has_suffix;

verus! {

/// The last moment of the year 9999, in seconds since the Unix epoch.
pub const LAST_FOUR_DIGIT_SECOND: i64 = 253402300799;

/// What `chrono::DateTime::from_timestamp(secs, nanos)` followed by
/// `to_rfc3339` writes for a moment in range: the UTC date and time in
/// RFC 3339 form.
pub uninterp spec fn utc_rfc3339_text(secs: i64, nanos: u32) -> Seq<char>;

/// `chrono::DateTime::from_timestamp(secs, nanos)`, then `to_rfc3339` on
/// the UTC moment it gives; the moment itself is used only here and only
/// its text is returned. `from_timestamp` gives `None` when the seconds are
/// out of chrono's range or the nanoseconds are invalid; a moment from the
/// epoch to the end of the year 9999 with fewer than a billion nanoseconds
/// is in range. The text depends on the two numbers alone (the zone is
/// UTC), and is named `utc_rfc3339_text`; its offset is written `+00:00`.
#[verifier::external_body]
fn utc_rfc3339(secs: i64, nanos: u32) -> (r: Option<String>)
    ensures
        r matches Some(t) ==> t@ == utc_rfc3339_text(secs, nanos) && has_suffix(t@, "+00:00"@),
        0 <= secs <= LAST_FOUR_DIGIT_SECOND && nanos < 1_000_000_000 ==> r is Some,
{
    match chrono::DateTime::from_timestamp(secs, nanos) {
        Some(t) => Some(t.to_rfc3339()),
        None => None,
    }
}

/// The RFC 3339 text of a moment, `secs` seconds and `nanos` nanoseconds
/// after the Unix epoch, in UTC; `None` when the moment is out of range.
pub fn timestamp_text(secs: i64, nanos: u32) -> (r: Option<String>)
    ensures
        r matches Some(t) ==> t@ == utc_rfc3339_text(secs, nanos) && has_suffix(t@, "+00:00"@),
        0 <= secs <= LAST_FOUR_DIGIT_SECOND && nanos < 1_000_000_000 ==> r is Some,
{
    utc_rfc3339(secs, nanos)
}

} // verus!

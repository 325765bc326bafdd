//! The current time, as the RFC 3339 text written into conditions and run
//! times.

use vstd::prelude::*;
use crate::k8s::meta::opt_view;

verus! {

/// The RFC 3339 text of the UTC time `secs` seconds and `nanos`
/// nanoseconds after the Unix epoch, as `chrono` writes it; none when
/// that time is out of its range.
pub uninterp spec fn rfc3339_text(secs: i64, nanos: u32) -> Option<Seq<char>>;

/// The last second of the year 9999, in seconds after the Unix epoch.
pub const LAST_FOUR_DIGIT_SECOND: i64 = 253402300799;

/// The time is from 1970 to the end of the year 9999, with nanoseconds
/// below a second.
pub open spec fn in_four_digit_years(secs: int, nanos: int) -> bool {
    0 <= secs <= LAST_FOUR_DIGIT_SECOND && 0 <= nanos < 1_000_000_000
}

/// `s` has the shape of an RFC 3339 UTC time with a four-digit year:
/// `YYYY-MM-DDTHH:MM:SS`, an optional fraction, then `+00:00`.
pub open spec fn is_rfc3339_utc(s: Seq<char>) -> bool {
    &&& s.len() >= 25
    &&& s[4] == '-'
    &&& s[7] == '-'
    &&& s[10] == 'T'
    &&& s[13] == ':'
    &&& s[16] == ':'
    &&& s.subrange(s.len() - 6, s.len() as int) == seq!['+', '0', '0', ':', '0', '0']
}

/// `chrono::DateTime::<Utc>::from_timestamp(secs, nanos)`, written with
/// `to_rfc3339`: the RFC 3339 text of that time, none when it is out of
/// range. From 1970 to the end of the year 9999, with nanoseconds below a
/// second, there is a text, of the shape `YYYY-MM-DDTHH:MM:SS[.f]+00:00`.
#[verifier::external_body]
fn rfc3339_at(secs: i64, nanos: u32) -> (r: Option<String>)
    ensures
        opt_view(r) == rfc3339_text(secs, nanos),
        in_four_digit_years(secs as int, nanos as int) ==> r is Some && is_rfc3339_utc(r->0@),
{
    match chrono::DateTime::from_timestamp(secs, nanos) {
        Some(t) => Some(t.to_rfc3339()),
        None => None,
    }
}

/// `std::time::SystemTime::now().duration_since(UNIX_EPOCH)`: the whole
/// seconds and the nanoseconds of the time elapsed since the Unix epoch;
/// none when the clock reads earlier. Nothing is promised of the reading,
/// but that the nanoseconds are below a second.
#[verifier::external_body]
fn clock_since_epoch() -> (r: Option<(u64, u32)>)
    ensures
        r matches Some(d) ==> d.1 < 1_000_000_000,
{
    match std::time::SystemTime::now().duration_since(std::time::UNIX_EPOCH) {
        Ok(d) => Some((d.as_secs(), d.subsec_nanos())),
        Err(_) => None,
    }
}

/// The text of a clock reading: none for no reading, or for one past what
/// a signed 64-bit count of seconds holds.
pub open spec fn timestamp_view(reading: Option<(u64, u32)>) -> Option<Seq<char>> {
    match reading {
        Some((secs, nanos)) => if secs <= i64::MAX {
            rfc3339_text(secs as i64, nanos)
        } else {
            None
        },
        None => None,
    }
}

/// The RFC 3339 text of a clock reading, seconds and nanoseconds after the
/// Unix epoch: see `timestamp_view`.
pub fn timestamp_at(reading: Option<(u64, u32)>) -> (r: Option<String>)
    ensures
        opt_view(r) == timestamp_view(reading),
        reading matches Some(d) && in_four_digit_years(d.0 as int, d.1 as int) ==> (r matches Some(t) && is_rfc3339_utc(t@)),
{
    match reading {
        Some((secs, nanos)) => {
            if secs <= 9223372036854775807u64 {
                rfc3339_at(secs as i64, nanos)
            } else {
                None
            }
        },
        None => None,
    }
}

/// `t` is the text of some clock reading.
pub open spec fn is_clock_text(t: Seq<char>) -> bool {
    exists|secs: u64, nanos: u32| nanos < 1_000_000_000 && timestamp_view(Some((secs, nanos))) == Some(t)
}

/// The current time as RFC 3339 text; none when the clock reads before the
/// Unix epoch or past what a timestamp holds.
pub fn now_rfc3339() -> (r: Option<String>)
    ensures
        r matches Some(t) ==> is_clock_text(t@),
{
    let reading = clock_since_epoch();
    let r = timestamp_at(reading);
    proof {
        if r is Some {
            let (secs, nanos) = reading.unwrap();
            assert(nanos < 1_000_000_000 && timestamp_view(Some((secs, nanos))) == Some(r->0@));
        }
    }
    r
}

} // verus!

//! Points in time as the bot stores them (RFC 3339 text) and compares them
//! (seconds and nanoseconds since the Unix epoch).
use vstd::prelude::*;

verus! {

/// A point in time: seconds since the Unix epoch and the nanoseconds within
/// that second (above 999 999 999 only during a leap second).
pub type Instant = (i64, u32);

/// `a` is not later than `b`.
pub open spec fn instant_le(a: (int, int), b: (int, int)) -> bool {
    a.0 < b.0 || (a.0 == b.0 && a.1 <= b.1)
}

/// The instant an RFC 3339 text denotes, or `None` when it is not one.
pub uninterp spec fn rfc3339_instant(s: Seq<char>) -> Option<(i64, u32)>;

/// Reads an RFC 3339 timestamp with `chrono::DateTime::parse_from_rfc3339`,
/// as seconds (`timestamp`) and nanoseconds (`timestamp_subsec_nanos`) since
/// the epoch. The parse depends on the text alone; the contract names its
/// result.
#[verifier::external_body]
pub(crate) fn parse_rfc3339(s: &str) -> (r: Option<Instant>)
    ensures
        r == rfc3339_instant(s@),
{
    match chrono::DateTime::parse_from_rfc3339(s) {
        Ok(t) => Some((t.timestamp(), t.timestamp_subsec_nanos())),
        Err(_) => None,
    }
}

/// The current time as RFC 3339 text (`chrono::Utc::now().to_rfc3339()`).
/// It depends on the clock, so nothing is stated of it.
#[verifier::external_body]
pub(crate) fn now_rfc3339() -> (r: String) {
    chrono::Utc::now().to_rfc3339()
}

/// `a` is not later than `b`.
pub fn not_later(a: Instant, b: Instant) -> (r: bool)
    ensures
        r == instant_le((a.0 as int, a.1 as int), (b.0 as int, b.1 as int)),
{
    a.0 < b.0 || (a.0 == b.0 && a.1 <= b.1)
}

/// The RFC 3339 text of an instant, or `None` when the instant lies outside
/// the range of times `chrono` can hold.
pub uninterp spec fn rfc3339_text(t: (i64, u32)) -> Option<Seq<char>>;

/// The current time (`chrono::Utc::now()`), as seconds and nanoseconds
/// since the epoch. What it is depends on the clock; what holds of every
/// reading is that the nanoseconds are below one second (it is built from
/// `SystemTime` by `DateTime::from_timestamp`) and that it has an RFC 3339
/// text (that same `from_timestamp` succeeded on it).
#[verifier::external_body]
pub(crate) fn now_instant() -> (r: Instant)
    ensures
        r.1 < 1_000_000_000,
        rfc3339_text(r) is Some,
{
    let t = chrono::Utc::now();
    (t.timestamp(), t.timestamp_subsec_nanos())
}

/// The RFC 3339 text of an instant (`chrono::DateTime::from_timestamp`,
/// then `to_rfc3339`); `None` outside chrono's range of times. The text
/// depends on the instant alone; the contract names it. Of an instant whose
/// nanoseconds are below one second, the text reads back as that instant
/// wherever it reads back at all (`to_rfc3339` writes every non-zero
/// fraction digit; a year outside 0000..=9999 does not read back).
#[verifier::external_body]
pub(crate) fn rfc3339_at(t: Instant) -> (r: Option<String>)
    ensures
        match rfc3339_text(t) {
            Some(s) => r matches Some(x) && x@ == s,
            None => r is None,
        },
        t.1 < 1_000_000_000 ==> (r matches Some(x) ==> (rfc3339_instant(x@) matches Some(p) ==> p == t)),
{
    match chrono::DateTime::<chrono::Utc>::from_timestamp(t.0, t.1) {
        Some(d) => Some(d.to_rfc3339()),
        None => None,
    }
}

} // verus!

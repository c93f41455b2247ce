//! Publication dates: Unix timestamps in seconds, checked against the range
//! that `chrono` accepts and rendered in the RFC 2822 form that RSS uses.
use vstd::prelude::*;

verus! {

/// The first second that `chrono::DateTime::<Utc>::from_timestamp` accepts
/// (January 1 of year -262143).
pub open spec fn chrono_min() -> int {
    -8334601228800
}

/// The last second that `chrono::DateTime::<Utc>::from_timestamp` accepts
/// (December 31 of year 262142, 23:59:59).
pub open spec fn chrono_max() -> int {
    8210266876799
}

/// `DateTime::<Utc>::from_timestamp(secs, 0)` is `Some`.
pub open spec fn chrono_accepts(secs: int) -> bool {
    chrono_min() <= secs <= chrono_max()
}

/// The timestamp falls in the years 0 to 9999, the only ones that RFC 2822
/// can write: from 0000-01-01 00:00:00 to 9999-12-31 23:59:59 UTC.
pub open spec fn rfc2822_representable(secs: int) -> bool {
    -62167219200 <= secs <= 253402300799
}

/// The RFC 2822 text (such as `Thu, 1 Jan 1970 00:00:00 +0000`) that chrono
/// writes for the UTC time `secs` seconds after the Unix epoch.
pub uninterp spec fn rfc2822_text(secs: i64) -> Seq<char>;

/// Every year that RFC 2822 can write is one that chrono accepts.
pub proof fn lemma_representable_accepted(secs: int)
    requires
        rfc2822_representable(secs),
    ensures
        chrono_accepts(secs),
{
}

/// Calls `chrono::DateTime::<Utc>::from_timestamp(secs, 0)` and reports
/// whether it gave a date. Claimed: it does exactly for the seconds between
/// `chrono_min()` and `chrono_max()` (the range of `NaiveDate`, years
/// -262143 to 262142, as chrono's source computes it).
#[verifier::external_body]
pub(crate) fn timestamp_accepted(secs: i64) -> (b: bool)
    ensures
        b == chrono_accepts(secs as int),
{
    chrono::DateTime::from_timestamp(secs, 0).is_some()
}

/// Calls `chrono::DateTime::<Utc>::to_rfc2822` on the date `secs` seconds
/// after the epoch. Claimed: the text depends on `secs` alone (English names,
/// offset `+0000`). `to_rfc2822` panics outside the years 0 to 9999, which
/// `requires` leaves out.
#[verifier::external_body]
pub(crate) fn rfc2822(secs: i64) -> (r: String)
    requires
        rfc2822_representable(secs as int),
    ensures
        r@ == rfc2822_text(secs),
{
    match chrono::DateTime::from_timestamp(secs, 0) {
        Some(d) => d.to_rfc2822(),
        None => String::new(),
    }
}

/// The date that `DateTime::from_timestamp(secs, 0)` gives, kept as its
/// timestamp, or none when chrono refuses the number.
pub open spec fn date_from_timestamp(secs: i64) -> Option<i64> {
    if chrono_accepts(secs as int) {
        Some(secs)
    } else {
        None
    }
}

/// A date that can be published: none, or one in the years 0 to 9999.
pub open spec fn publishable(d: Option<i64>) -> bool {
    d matches Some(t) ==> rfc2822_representable(t as int)
}

/// A timestamp that either chrono refuses or RFC 2822 can write. The others
/// are dates that chrono accepts and then fails to render (a panic).
pub open spec fn renderable_or_refused(secs: i64) -> bool {
    rfc2822_representable(secs as int) || !chrono_accepts(secs as int)
}

/// Whether a timestamp is one that chrono refuses or RFC 2822 can write;
/// the others cannot be published.
pub fn renderable_timestamp(secs: i64) -> (b: bool)
    ensures
        b == renderable_or_refused(secs),
{
    (-62167219200 <= secs && secs <= 253402300799) || !timestamp_accepted(secs)
}

/// `DateTime::from_timestamp(secs, 0)`, kept as its timestamp.
pub fn timestamp_date(secs: i64) -> (r: Option<i64>)
    requires
        renderable_or_refused(secs),
    ensures
        r == date_from_timestamp(secs),
        publishable(r),
{
    if timestamp_accepted(secs) {
        Some(secs)
    } else {
        None
    }
}

} // verus!

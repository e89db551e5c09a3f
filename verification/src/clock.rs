//! The time of day.
use crate::text::owned;
use vstd::prelude::*;

verus! {

/// `std::time::SystemTime::elapsed` of the Unix epoch, in milliseconds; nothing before the epoch.
/// Nothing is claimed of the result.
#[verifier::external_body]
fn ms_since_epoch() -> (r: Option<u128>) {
    std::time::SystemTime::UNIX_EPOCH.elapsed().ok().map(|d| d.as_millis())
}

/// The milliseconds since the Unix epoch; 0 before the epoch.
pub(crate) fn now_ms() -> (r: u128) {
    match ms_since_epoch() {
        Some(ms) => ms,
        None => 0,
    }
}

/// The time that a text is by RFC 3339, as its seconds since the Unix epoch with the nanoseconds of
/// the last one; nothing where it is none.
pub uninterp spec fn rfc3339_instant(text: Seq<char>) -> Option<(i64, u32)>;

/// `time::OffsetDateTime::parse` by RFC 3339: the time that a text is, or nothing where it is none.
/// Which texts are times is left to the crate.
#[verifier::external_body]
pub(crate) fn read_rfc3339(text: &str) -> (r: Option<(i64, u32)>)
    ensures
        r == rfc3339_instant(text@),
{
    let time = time::OffsetDateTime::parse(text, &time::format_description::well_known::Rfc3339).ok()?;
    Some((time.unix_timestamp(), time.nanosecond()))
}

/// How a time is written by RFC 3339 in UTC; nothing where it cannot be written.
pub uninterp spec fn rfc3339_text(seconds: i64, nanos: u32) -> Option<Seq<char>>;

/// `time::OffsetDateTime::format` by RFC 3339: the text of a time, or nothing where it has none.
/// How many digits a fraction of a second takes is left to the crate.
#[verifier::external_body]
fn write_rfc3339(seconds: i64, nanos: u32) -> (r: Option<String>)
    ensures
        r.deep_view() == rfc3339_text(seconds, nanos),
{
    let time = time::OffsetDateTime::from_unix_timestamp(seconds).ok()?.replace_nanosecond(nanos).ok()?;
    time.format(&time::format_description::well_known::Rfc3339).ok()
}

/// `time::OffsetDateTime::now_utc`, as its seconds since the Unix epoch with the nanoseconds of the
/// last one. Nothing is claimed of the result.
#[verifier::external_body]
pub(crate) fn now_instant() -> (r: (i64, u32)) {
    let time = time::OffsetDateTime::now_utc();
    (time.unix_timestamp(), time.nanosecond())
}

/// A time as it is shown; the Unix epoch where it cannot be written.
pub open spec fn shown_instant(at: (i64, u32)) -> Seq<char> {
    match rfc3339_text(at.0, at.1) {
        Some(text) => text,
        None => "1970-01-01T00:00:00Z"@,
    }
}

/// A text shows some time.
pub open spec fn shows_a_time(text: Seq<char>) -> bool {
    exists|at: (i64, u32)| text == #[trigger] shown_instant(at)
}

/// A time as it is shown.
pub fn show_instant(at: (i64, u32)) -> (r: String)
    ensures
        r@ == shown_instant(at),
{
    match write_rfc3339(at.0, at.1) {
        Some(text) => text,
        None => owned("1970-01-01T00:00:00Z"),
    }
}

/// The present time as it is shown.
pub(crate) fn now_rfc3339() -> (r: String)
    ensures
        shows_a_time(r@),
{
    show_instant(now_instant())
}

} // verus!

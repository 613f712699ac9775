//! Values that come from the environment rather than from the arguments:
//! the current time and fresh random identifiers.
use vstd::prelude::*;

verus! {

/// `chrono::Utc::now()`, read as whole Unix seconds (`timestamp`) and the
/// nanoseconds past them (`timestamp_subsec_nanos`). `Utc::now` takes the
/// system clock's duration since the Unix epoch (it panics before 1970) and
/// builds the time from its seconds and sub-second nanoseconds, so the
/// seconds are not negative, lie within the range of `DateTime<Utc>` (below
/// year 262143, under 10^13 s), and the nanoseconds are under 10^9.
#[verifier::external_body]
fn clock_reading() -> (r: (i64, u32))
    ensures
        0 <= r.0 < 10_000_000_000_000,
        r.1 < 1_000_000_000,
{
    let t = chrono::Utc::now();
    (t.timestamp(), t.timestamp_subsec_nanos())
}

/// The current time in Unix nanoseconds: the clock's seconds and
/// sub-second nanoseconds as one number, which is exactly the instant that
/// `chrono::Utc::now()` gives.
pub(crate) fn now_nanos() -> (r: i128)
    ensures
        0 <= r < 10_000_000_000_000_000_000_000,
{
    let (secs, nanos) = clock_reading();
    (secs as i128) * 1_000_000_000 + (nanos as i128)
}

/// `chrono::Utc::now()` rendered as RFC 3339 (what `serde` writes for a
/// `DateTime<Utc>`): the offset of UTC is written `Z`.
#[verifier::external_body]
pub(crate) fn now_rfc3339() -> (r: String)
    ensures
        r@.len() > 0,
        r@.last() == 'Z',
{
    chrono::Utc::now().to_rfc3339_opts(chrono::SecondsFormat::AutoSi, true)
}

/// The lowercase hexadecimal digits.
pub open spec fn is_lower_hex(c: char) -> bool {
    ('0' <= c && c <= '9') || ('a' <= c && c <= 'f')
}

/// `uuid::Uuid::new_v4().simple().to_string()`: a random identifier of 32
/// lowercase hexadecimal digits.
#[verifier::external_body]
pub(crate) fn new_simple_id() -> (r: String)
    ensures
        r@.len() == 32,
        forall|i: int| 0 <= i < r@.len() ==> is_lower_hex(#[trigger] r@[i]),
{
    uuid::Uuid::new_v4().simple().to_string()
}

/// A hyphen at the positions of the hyphenated UUID form.
pub open spec fn is_uuid_hyphen_position(i: int) -> bool {
    i == 8 || i == 13 || i == 18 || i == 23
}

/// `uuid::Uuid::new_v4().to_string()`: a random version-4 identifier in the
/// lowercase hyphenated form `xxxxxxxx-xxxx-4xxx-yxxx-xxxxxxxxxxxx`, where
/// `y` is one of `8`, `9`, `a`, `b`.
#[verifier::external_body]
pub(crate) fn new_uuid_text() -> (r: String)
    ensures
        r@.len() == 36,
        forall|i: int| 0 <= i < 36 && is_uuid_hyphen_position(i) ==> r@[i] == '-',
        forall|i: int| 0 <= i < 36 && !is_uuid_hyphen_position(i) ==> is_lower_hex(#[trigger] r@[i]),
        r@[14] == '4',
        r@[19] == '8' || r@[19] == '9' || r@[19] == 'a' || r@[19] == 'b',
{
    uuid::Uuid::new_v4().to_string()
}

} // verus!

use vstd::prelude::*;

verus! {

/// Seconds in the weekly window: seven days.
pub const WEEK_SECONDS: i64 = 604_800;

/// Seconds in the monthly window: twenty-eight days.
pub const MONTH_SECONDS: i64 = 2_419_200;

/// Timestamps (non-leap seconds since the Unix epoch) that the date
/// formatter accepts: a margin safely inside the range of calendar dates
/// that `chrono` can represent.
pub open spec fn valid_timestamp(secs: int) -> bool {
    -8_000_000_000_000 <= secs <= 8_000_000_000_000
}

/// What `chrono` displays for a UTC date-time built from the given
/// timestamp: a pure function of the second and nanosecond values.
pub uninterp spec fn utc_display_of(secs: int, nanos: int) -> Seq<char>;

/// Relies on `chrono::DateTime::<Utc>::from_timestamp`, which returns a
/// single date-time for every in-range timestamp, and on `DateTime<Utc>`'s
/// `Display`, whose output depends on the date-time value alone.
#[verifier::external_body]
pub(crate) fn format_utc(secs: i64, nanos: u32) -> (r: String)
    requires
        valid_timestamp(secs as int),
        nanos < 1_000_000_000,
    ensures
        r@ == utc_display_of(secs as int, nanos as int),
{
    chrono::DateTime::<chrono::Utc>::from_timestamp(secs, nanos).unwrap().to_string()
}

} // verus!

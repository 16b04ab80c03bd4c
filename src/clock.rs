use vstd::prelude::*;

verus! {

/// The last second (end of year 262142, UTC) that chrono's `DateTime<Utc>` can hold.
pub const MAX_STAMP: i64 = 8_210_266_876_799;

/// A creation time the store accepts: seconds since the Unix epoch that chrono
/// can turn into a UTC date-time.
pub open spec fn valid_stamp(secs: i64) -> bool {
    0 <= secs <= MAX_STAMP
}

/// Relies on chrono's `Utc::now().timestamp()`: the current time in whole
/// seconds since the epoch. `Utc::now` panics on a clock set before the epoch
/// and unwraps a `DateTime::from_timestamp`, which succeeds only up to
/// `DateTime::<Utc>::MAX_UTC`; so a value that comes back lies in that range.
#[verifier::external_body]
pub(crate) fn now_seconds() -> (r: i64)
    ensures
        valid_stamp(r),
{
    chrono::Utc::now().timestamp()
}

} // verus!

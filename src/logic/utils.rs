use vstd::prelude::*;

verus! {

/// How long ago something happened, in the largest whole unit that fits.
#[derive(Debug, Clone, Copy, PartialEq, Eq, Structural)]
pub enum RelativeAge {
    /// No time was recorded.
    Unknown,
    /// Less than a minute ago, or in the future.
    JustNow,
    /// At least a minute and less than an hour ago.
    Minutes(i64),
    /// At least an hour and less than a day ago.
    Hours(i64),
    /// A day or more ago.
    Days(i64),
}

/// The age of the instant `ts` seen at `now`, both in seconds since the Unix epoch.
pub open spec fn spec_relative_age(ts: Option<i32>, now: i64) -> RelativeAge {
    match ts {
        None => RelativeAge::Unknown,
        Some(t) => {
            let diff = now - t;
            if diff < 60 {
                RelativeAge::JustNow
            } else if diff < 3600 {
                RelativeAge::Minutes((diff / 60) as i64)
            } else if diff < 86400 {
                RelativeAge::Hours((diff / 3600) as i64)
            } else {
                RelativeAge::Days((diff / 86400) as i64)
            }
        },
    }
}

/// The age of the instant `ts` seen at `now`, both in seconds since the Unix epoch.
pub fn relative_age(ts: Option<i32>, now: i64) -> (r: RelativeAge)
    ensures
        r == spec_relative_age(ts, now),
{
    match ts {
        None => RelativeAge::Unknown,
        Some(t) => {
            let diff: i128 = now as i128 - t as i128;
            if diff < 60 {
                RelativeAge::JustNow
            } else if diff < 3600 {
                RelativeAge::Minutes((diff / 60) as i64)
            } else if diff < 86400 {
                RelativeAge::Hours((diff / 3600) as i64)
            } else {
                assert(diff / 86400 <= diff) by (nonlinear_arith)
                    requires diff >= 86400;
                RelativeAge::Days((diff / 86400) as i64)
            }
        },
    }
}

/// Relies on chrono's `Utc::now` and `DateTime::timestamp`: the current time in
/// seconds since the Unix epoch. Nothing is known of the value.
#[verifier::external_body]
fn unix_now() -> i64 {
    chrono::Utc::now().timestamp()
}

/// How long ago `ts` (seconds since the Unix epoch) was, measured now.
pub fn relative_time(ts: Option<i32>) -> (r: RelativeAge)
    ensures
        ts is None ==> r is Unknown,
        exists|now: i64| r == spec_relative_age(ts, now),
{
    let now = unix_now();
    relative_age(ts, now)
}

} // verus!

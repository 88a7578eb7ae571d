//! Modification times, checked and read through `chrono`.

use vstd::prelude::*;

verus! {

/// A point in time: seconds since the Unix epoch and nanoseconds.
#[derive(Clone, Copy, Debug, PartialEq, Eq, Structural)]
pub struct Timestamp {
    pub secs: i64,
    pub nanos: u32,
}

/// The first day of `chrono`'s calendar (-262143-01-01), counted from
/// 0001-01-01 as day 1.
pub open spec fn first_calendar_day() -> int {
    -95746129
}

/// The last day of `chrono`'s calendar (262142-12-31), counted from
/// 0001-01-01 as day 1.
pub open spec fn last_calendar_day() -> int {
    95745399
}

/// Whether `secs` seconds and `nsecs` nanoseconds after the Unix epoch make a
/// time: the day falls within the calendar, the nanoseconds are below two
/// seconds, and only the last second of a minute takes a leap second
/// (nanoseconds of one second or more).
pub open spec fn utc_time_exists(secs: i64, nsecs: u32) -> bool {
    let day = secs / 86400 + 719163;
    &&& first_calendar_day() <= day <= last_calendar_day()
    &&& nsecs < 2_000_000_000
    &&& (nsecs < 1_000_000_000 || secs % 60 == 59)
}

/// `chrono::TimeZone::timestamp_opt` on `Utc`, asked whether it gives a
/// single time.
///
/// Trusted: the contract restates `DateTime::from_timestamp` in the source
/// of `chrono`: the day (`secs.div_euclid(86_400) + 719_163`) must make a
/// date within years -262143 to 262142, and
/// `NaiveTime::from_num_seconds_from_midnight_opt` takes nanoseconds below
/// 2·10⁹, those of 10⁹ or more only in the 59th second of a minute.
#[verifier::external_body]
pub(crate) fn utc_timestamp_exists(secs: i64, nsecs: u32) -> (b: bool)
    ensures
        b == utc_time_exists(secs, nsecs),
{
    chrono::TimeZone::timestamp_opt(&chrono::Utc, secs, nsecs).single().is_some()
}

/// How far the system clock stands from the Unix epoch
/// (`std::time::SystemTime::now().duration_since(UNIX_EPOCH)`): `Ok` with
/// the seconds and nanoseconds after it, `Err` with those before it.
///
/// Trusted: it reads the clock, so only what holds of every reading is
/// claimed: the nanoseconds of a `Duration` are below one second, as its
/// documentation says.
#[verifier::external_body]
fn clock_since_epoch() -> (r: Result<(u64, u32), (u64, u32)>)
    ensures
        match r {
            Ok(t) => t.1 < 1_000_000_000,
            Err(t) => t.1 < 1_000_000_000,
        },
{
    match std::time::SystemTime::now().duration_since(std::time::UNIX_EPOCH) {
        Ok(d) => Ok((d.as_secs(), d.subsec_nanos())),
        Err(e) => Err((e.duration().as_secs(), e.duration().subsec_nanos())),
    }
}

/// The current time. A clock before the Unix epoch gives a negative
/// number of seconds; a reading beyond what `i64` seconds hold is clamped.
pub fn utc_now() -> (t: Timestamp)
    ensures
        t.nanos < 1_000_000_000,
{
    match clock_since_epoch() {
        Ok((secs, nanos)) => {
            let secs: i64 = if secs > i64::MAX as u64 { i64::MAX } else { secs as i64 };
            Timestamp { secs, nanos }
        },
        Err((secs, nanos)) => {
            // `secs` seconds and `nanos` nanoseconds before the epoch.
            let whole: i64 = if secs >= i64::MAX as u64 { i64::MAX } else { secs as i64 };
            if nanos == 0 {
                Timestamp { secs: 0 - whole, nanos: 0 }
            } else if whole == i64::MAX {
                Timestamp { secs: i64::MIN, nanos: 1_000_000_000 - nanos }
            } else {
                Timestamp { secs: 0 - whole - 1, nanos: 1_000_000_000 - nanos }
            }
        },
    }
}

/// The modification time that `secs` and `nsecs` give, where they give one,
/// and `now` otherwise.
pub open spec fn time_or_now(secs: i64, nsecs: u32, now: Timestamp) -> Timestamp {
    if utc_time_exists(secs, nsecs) {
        Timestamp { secs, nanos: nsecs }
    } else {
        now
    }
}

/// The modification time that `secs` and `nsecs` give, where they give one,
/// and `now` otherwise.
pub fn modification_time(secs: i64, nsecs: u32, now: Timestamp) -> (t: Timestamp)
    ensures
        t == time_or_now(secs, nsecs, now),
{
    if utc_timestamp_exists(secs, nsecs) {
        Timestamp { secs, nanos: nsecs }
    } else {
        now
    }
}

} // verus!

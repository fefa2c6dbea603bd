//! Time arithmetic of the market loop, on UTC times held as whole seconds
//! since the Unix epoch. `chrono` does the arithmetic; what it is stated to
//! do is read from its source, for times within its range of dates.
use vstd::prelude::*;
use vstd::arithmetic::div_mod::lemma_fundamental_div_mod_converse;
use chrono::Timelike;

verus! {

/// The earliest time `chrono` represents: January 1st of the year -262143,
/// at midnight.
pub const MIN_UTC_TIMESTAMP: i64 = -8334601315200;

/// The last whole second `chrono` represents: December 31st of the year
/// 262142, at 23:59:59.
pub const MAX_UTC_TIMESTAMP: i64 = 8210266876799;

/// The longest time span `chrono` represents in whole seconds,
/// `i64::MAX / 1000`, either way.
pub const MAX_DELTA_SECONDS: i64 = 9223372036854775;

/// Whether `t` is a time `chrono` represents.
pub open spec fn utc_in_range(t: int) -> bool {
    MIN_UTC_TIMESTAMP <= t <= MAX_UTC_TIMESTAMP
}

/// Whether `s` seconds is a time span `chrono` represents.
pub open spec fn delta_in_range(s: int) -> bool {
    -MAX_DELTA_SECONDS <= s <= MAX_DELTA_SECONDS
}

/// The seconds since midnight of the day of `t`.
pub open spec fn second_of_day(t: int) -> int {
    t % 86400
}

/// Why a time computation failed.
#[derive(Clone, Copy, Debug, PartialEq, Eq)]
pub enum TimeError {
    /// A time could not be rounded.
    Rounding,
    /// A time span is out of range.
    Delta,
    /// A timestamp overflowed.
    Overflow,
}

/// The text of an error.
pub open spec fn time_error_text(e: TimeError) -> Seq<char> {
    match e {
        TimeError::Rounding => "time rounded error"@,
        TimeError::Delta => "time delta error"@,
        TimeError::Overflow => "ts add error"@,
    }
}

impl TimeError {
    /// The message of the error.
    pub fn message(&self) -> (s: &'static str)
        ensures
            s@ == time_error_text(*self),
    {
        match self {
            TimeError::Rounding => "time rounded error",
            TimeError::Delta => "time delta error",
            TimeError::Overflow => "ts add error",
        }
    }
}

/// `Timelike::with_hour` of `chrono` on the UTC time `ts`: the same minute
/// and second of the same day at hour `hour`, or `None` when `hour` is not
/// below 24.
#[verifier::external_body]
fn with_hour(ts: i64, hour: u32) -> (r: Option<i64>)
    requires
        utc_in_range(ts as int),
    ensures
        r == if hour < 24 {
            Some((ts - second_of_day(ts as int) + hour * 3600 + second_of_day(ts as int) % 3600) as i64)
        } else {
            None::<i64>
        },
{
    match chrono::DateTime::<chrono::Utc>::from_timestamp(ts, 0) {
        Some(d) => match d.with_hour(hour) {
            Some(h) => Some(h.timestamp()),
            None => None,
        },
        None => None,
    }
}

/// `Timelike::with_minute` of `chrono` on the UTC time `ts`: the same hour
/// and second of the same day at minute `minute`, or `None` when `minute` is
/// not below 60.
#[verifier::external_body]
fn with_minute(ts: i64, minute: u32) -> (r: Option<i64>)
    requires
        utc_in_range(ts as int),
    ensures
        r == if minute < 60 {
            Some(
                (ts - second_of_day(ts as int) + second_of_day(ts as int) / 3600 * 3600 + minute * 60
                    + second_of_day(ts as int) % 60) as i64,
            )
        } else {
            None::<i64>
        },
{
    match chrono::DateTime::<chrono::Utc>::from_timestamp(ts, 0) {
        Some(d) => match d.with_minute(minute) {
            Some(m) => Some(m.timestamp()),
            None => None,
        },
        None => None,
    }
}

/// `Timelike::with_second` of `chrono` on the UTC time `ts`: the same hour
/// and minute of the same day at second `second`, or `None` when `second` is
/// not below 60.
#[verifier::external_body]
fn with_second(ts: i64, second: u32) -> (r: Option<i64>)
    requires
        utc_in_range(ts as int),
    ensures
        r == if second < 60 {
            Some((ts - second_of_day(ts as int) + second_of_day(ts as int) / 60 * 60 + second) as i64)
        } else {
            None::<i64>
        },
{
    match chrono::DateTime::<chrono::Utc>::from_timestamp(ts, 0) {
        Some(d) => match d.with_second(second) {
            Some(s) => Some(s.timestamp()),
            None => None,
        },
        None => None,
    }
}

/// `chrono::TimeDelta::try_days`, read back in seconds: `days` days, when
/// that span is in range.
#[verifier::external_body]
fn delta_of_days(days: i64) -> (r: Option<i64>)
    ensures
        r == if delta_in_range(days * 86400) {
            Some((days * 86400) as i64)
        } else {
            None::<i64>
        },
{
    match chrono::TimeDelta::try_days(days) {
        Some(d) => Some(d.num_seconds()),
        None => None,
    }
}

/// `chrono::TimeDelta::try_hours`, read back in seconds: `hours` hours, when
/// that span is in range.
#[verifier::external_body]
fn delta_of_hours(hours: i64) -> (r: Option<i64>)
    ensures
        r == if delta_in_range(hours * 3600) {
            Some((hours * 3600) as i64)
        } else {
            None::<i64>
        },
{
    match chrono::TimeDelta::try_hours(hours) {
        Some(d) => Some(d.num_seconds()),
        None => None,
    }
}

/// `chrono::TimeDelta::try_seconds`, read back in seconds: `seconds`, when
/// that span is in range.
#[verifier::external_body]
fn delta_of_seconds(seconds: i64) -> (r: Option<i64>)
    ensures
        r == if delta_in_range(seconds as int) {
            Some(seconds)
        } else {
            None::<i64>
        },
{
    match chrono::TimeDelta::try_seconds(seconds) {
        Some(d) => Some(d.num_seconds()),
        None => None,
    }
}

/// `DateTime<Utc> + TimeDelta` of `chrono`: the time `delta` seconds after
/// `ts`. The addition panics when the sum is out of range, which the
/// precondition rules out.
#[verifier::external_body]
fn add_delta(ts: i64, delta: i64) -> (r: i64)
    requires
        utc_in_range(ts as int),
        delta_in_range(delta as int),
        utc_in_range(ts + delta),
    ensures
        r == ts + delta,
{
    (chrono::DateTime::<chrono::Utc>::from_timestamp(ts, 0).expect("time in range")
        + chrono::TimeDelta::seconds(delta)).timestamp()
}

/// The timestamp, as `u64`, of `origin` moved by `days` days, `hours` hours
/// and `seconds` seconds, added in that order; an error when one of the spans
/// is out of range.
pub open spec fn time_delta_add_spec(origin: int, days: int, hours: int, seconds: int) -> Result<
    u64,
    TimeError,
> {
    if !delta_in_range(days * 86400) || !delta_in_range(hours * 3600) || !delta_in_range(seconds) {
        Err(TimeError::Delta)
    } else {
        Ok(((origin + days * 86400 + hours * 3600 + seconds) as i64) as u64)
    }
}

/// Whether each addition of `time_delta_add` stays within the range of
/// times: the additions panic otherwise. An addition is only made once its
/// span is known to be in range.
pub open spec fn time_delta_add_safe(origin: int, days: int, hours: int, seconds: int) -> bool {
    let d = days * 86400;
    let h = hours * 3600;
    delta_in_range(d) ==> {
        &&& utc_in_range(origin + d)
        &&& delta_in_range(h) ==> {
            &&& utc_in_range(origin + d + h)
            &&& delta_in_range(seconds) ==> utc_in_range(origin + d + h + seconds)
        }
    }
}

/// Moves `origin` by `days` days, `hours` hours and `seconds` seconds, and
/// gives the timestamp as `u64`.
pub fn time_delta_add(origin: i64, days: i64, hours: i64, seconds: i64) -> (r: Result<u64, TimeError>)
    requires
        utc_in_range(origin as int),
        time_delta_add_safe(origin as int, days as int, hours as int, seconds as int),
    ensures
        r == time_delta_add_spec(origin as int, days as int, hours as int, seconds as int),
{
    let d = match delta_of_days(days) {
        Some(d) => d,
        None => return Err(TimeError::Delta),
    };
    let t1 = add_delta(origin, d);
    let h = match delta_of_hours(hours) {
        Some(h) => h,
        None => return Err(TimeError::Delta),
    };
    let t2 = add_delta(t1, h);
    let s = match delta_of_seconds(seconds) {
        Some(s) => s,
        None => return Err(TimeError::Delta),
    };
    let t3 = add_delta(t2, s);
    Ok(t3 as u64)
}

/// The start of the hour of `t`.
pub open spec fn hour_start(t: int) -> int {
    t - t % 3600
}

/// The start of the day of `t`.
pub open spec fn day_start(t: int) -> int {
    t - t % 86400
}

/// The seconds of `t` split into day, hour of the day, minute of the hour
/// and second of the minute.
proof fn lemma_time_parts(t: int)
    ensures
        t % 86400 == 3600 * ((t % 86400) / 3600) + 60 * ((t % 3600) / 60) + t % 60,
        t % 3600 == (t % 86400) % 3600,
        t % 60 == (t % 86400) % 60,
        0 <= (t % 86400) / 3600 < 24,
        0 <= (t % 3600) / 60 < 60,
        t == 86400 * (t / 86400) + t % 86400,
{
    let q = t / 86400;
    let sod = t % 86400;
    vstd::arithmetic::div_mod::lemma_fundamental_div_mod(t, 86400);
    let h = sod / 3600;
    let r = sod % 3600;
    vstd::arithmetic::div_mod::lemma_fundamental_div_mod(sod, 3600);
    let m = r / 60;
    let s = r % 60;
    vstd::arithmetic::div_mod::lemma_fundamental_div_mod(r, 60);
    assert(t == (q * 24 + h) * 3600 + r);
    lemma_fundamental_div_mod_converse(t, 3600, q * 24 + h, r);
    assert(t == ((q * 24 + h) * 60 + m) * 60 + s);
    lemma_fundamental_div_mod_converse(t, 60, (q * 24 + h) * 60 + m, s);
    assert(sod == (h * 60 + m) * 60 + s);
    lemma_fundamental_div_mod_converse(sod, 60, h * 60 + m, s);
}

/// The start of the hour of `now`: its minute, then its second, set to 0.
pub fn floor_to_hour(now: i64) -> (r: Result<i64, TimeError>)
    requires
        utc_in_range(now as int),
    ensures
        r == Ok::<i64, TimeError>(hour_start(now as int) as i64),
{
    proof {
        lemma_time_parts(now as int);
    }
    let t1 = match with_minute(now, 0) {
        Some(t) => t,
        None => return Err(TimeError::Rounding),
    };
    proof {
        let n = now as int;
        let sod = n % 86400;
        let q = n / 86400;
        assert(t1 == 86400 * q + 3600 * (sod / 3600) + n % 60);
        lemma_fundamental_div_mod_converse(t1 as int, 86400, q, 3600 * (sod / 3600) + n % 60);
        lemma_fundamental_div_mod_converse(3600 * (sod / 3600) + n % 60, 60, 60 * (sod / 3600), n % 60);
    }
    let t2 = match with_second(t1, 0) {
        Some(t) => t,
        None => return Err(TimeError::Rounding),
    };
    Ok(t2)
}

/// The start of the day of `now`: its hour, then its minute, then its
/// second, set to 0.
#[verifier::spinoff_prover]
#[verifier::rlimit(40)]
pub fn floor_to_day(now: i64) -> (r: Result<i64, TimeError>)
    requires
        utc_in_range(now as int),
    ensures
        r == Ok::<i64, TimeError>(day_start(now as int) as i64),
{
    proof {
        lemma_time_parts(now as int);
    }
    let t1 = match with_hour(now, 0) {
        Some(t) => t,
        None => return Err(TimeError::Rounding),
    };
    proof {
        let n = now as int;
        lemma_fundamental_div_mod_converse(t1 as int, 86400, n / 86400, n % 3600);
        lemma_time_parts(t1 as int);
    }
    let t2 = match with_minute(t1, 0) {
        Some(t) => t,
        None => return Err(TimeError::Rounding),
    };
    proof {
        let n = now as int;
        lemma_fundamental_div_mod_converse(t2 as int, 86400, n / 86400, n % 60);
        lemma_time_parts(t2 as int);
    }
    let t3 = match with_second(t2, 0) {
        Some(t) => t,
        None => return Err(TimeError::Rounding),
    };
    Ok(t3)
}

} // verus!

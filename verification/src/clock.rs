use vstd::prelude::*;

verus! {

/// The earliest time a `chrono` date-time can hold, in milliseconds since
/// the Unix epoch: the first instant of the year -262143.
pub open spec fn earliest_time_ms() -> int {
    -8_334_601_315_200_000
}

/// The latest time a `chrono` date-time can hold, in milliseconds since the
/// Unix epoch: the last millisecond of the year 262142.
pub open spec fn latest_time_ms() -> int {
    8_210_266_876_799_999
}

/// Reads the system clock with `std::time::SystemTime::now` and
/// `duration_since(UNIX_EPOCH)`: whether the clock reads the epoch or later,
/// and its distance from the epoch in milliseconds (`Duration::as_millis`,
/// of the error's duration for a clock before the epoch). Nothing is claimed
/// of the value: it depends on the machine's clock. Unlike `chrono::Utc::now`,
/// neither call panics on a clock before the epoch.
#[verifier::external_body]
fn system_clock_millis() -> (r: (bool, u128)) {
    match std::time::SystemTime::now().duration_since(std::time::UNIX_EPOCH) {
        Ok(d) => (true, d.as_millis()),
        Err(e) => (false, e.duration().as_millis()),
    }
}

/// Reads the system clock with `std::time::SystemTime::now` and
/// `duration_since(UNIX_EPOCH)`: whether the clock reads the epoch or later,
/// and its distance from the epoch in microseconds (`Duration::as_micros`).
/// Nothing is claimed of the value: it depends on the machine's clock.
#[verifier::external_body]
fn system_clock_micros() -> (r: (bool, u128)) {
    match std::time::SystemTime::now().duration_since(std::time::UNIX_EPOCH) {
        Ok(d) => (true, d.as_micros()),
        Err(e) => (false, e.duration().as_micros()),
    }
}

/// A signed distance from the epoch, `after` telling its side, held to
/// `[lo, hi]`.
pub open spec fn clamped_reading(after: bool, dist: u128, lo: int, hi: int) -> int {
    let t: int = if after { dist as int } else { -(dist as int) };
    if t < lo { lo } else if t > hi { hi } else { t }
}

/// The wall clock in milliseconds since the Unix epoch, held to the range of
/// `chrono`'s date-times (`DateTime::<Utc>::MIN_UTC` to `MAX_UTC`), so that
/// every timestamp the library keeps is one `chrono` can represent.
pub(crate) fn utc_now_millis() -> (r: i64)
    ensures
        earliest_time_ms() <= r <= latest_time_ms(),
        exists|after: bool, dist: u128| r == #[trigger] clamped_reading(after, dist, earliest_time_ms(), latest_time_ms()),
{
    let (after, dist) = system_clock_millis();
    let r: i64 = if after {
        if dist > 8_210_266_876_799_999u128 { 8_210_266_876_799_999i64 } else { dist as i64 }
    } else {
        if dist > 8_334_601_315_200_000u128 { -8_334_601_315_200_000i64 } else { -(dist as i64) }
    };
    assert(r == clamped_reading(after, dist, earliest_time_ms(), latest_time_ms()));
    r
}

/// A clock reading in milliseconds as an unsigned time: 0 for a reading
/// before the epoch.
pub open spec fn millis_since_epoch(t: i64) -> int {
    if t < 0 { 0 } else { t as int }
}

/// The current time in milliseconds since the Unix epoch, or 0 for a clock set
/// before the epoch.
pub fn now_millis() -> (r: u64)
    ensures
        r <= latest_time_ms(),
        exists|t: i64| earliest_time_ms() <= t <= latest_time_ms() && r == #[trigger] millis_since_epoch(t),
{
    let ms = utc_now_millis();
    let r: u64 = if ms < 0 { 0 } else { ms as u64 };
    assert(r == millis_since_epoch(ms));
    r
}


/// The wall clock in microseconds since the Unix epoch, negative before it,
/// held to the range of `i64`.
pub(crate) fn utc_now_micros() -> (r: i64)
    ensures
        exists|after: bool, dist: u128| r == #[trigger] clamped_reading(after, dist, i64::MIN as int, i64::MAX as int),
{
    let (after, dist) = system_clock_micros();
    let r: i64 = if after {
        if dist > 9_223_372_036_854_775_807u128 { i64::MAX } else { dist as i64 }
    } else {
        if dist >= 9_223_372_036_854_775_808u128 { i64::MIN } else { -(dist as i64) }
    };
    assert(r == clamped_reading(after, dist, i64::MIN as int, i64::MAX as int));
    r
}

/// The microseconds from `start` to `now`, or 0 when `now` is earlier.
pub open spec fn micros_between(start: i64, now: i64) -> int {
    if now >= start { now - start } else { 0 }
}

/// Microseconds from `start` to now, as the clock reads them, or 0 when the
/// clock reads an earlier time.
pub fn micros_since(start: i64) -> (r: u64)
    ensures
        exists|now: i64| r == #[trigger] micros_between(start, now),
{
    let now = utc_now_micros();
    let r: u64 = if now >= start {
        let d: i128 = now as i128 - start as i128;
        d as u64
    } else {
        0
    };
    assert(r == micros_between(start, now));
    r
}


/// Milliseconds in a day.
pub open spec fn day_ms() -> int {
    86_400_000
}

/// The time `days` days after `t_ms` (before it, for negative `days`), in
/// milliseconds since the Unix epoch.
pub fn shift_days(t_ms: i64, days: i64) -> (r: i64)
    requires
        i64::MIN <= days * day_ms() <= i64::MAX,
        i64::MIN <= t_ms + days * day_ms() <= i64::MAX,
    ensures
        r == t_ms + days * day_ms(),
{
    t_ms + days * 86_400_000
}

} // verus!

//! The market clock: from a UTC timestamp to "is the market open" and "is this
//! within the reward window". Everything here is a function of the timestamp
//! alone.

use vstd::prelude::*;

verus! {

/// Length of a day in seconds.
pub const SECONDS_IN_A_DAY: i64 = 86400;

/// The opening bell in seconds after midnight UTC: 14:30, which is 9:30 in
/// US Eastern Standard Time. Daylight saving is not followed.
pub const MARKET_OPEN_TIME: i64 = 14 * 3600 + 30 * 60;

/// The closing bell in seconds after midnight UTC: 21:00, which is 16:00 in
/// US Eastern Standard Time.
pub const MARKET_CLOSE_TIME: i64 = 21 * 3600;

/// How long after either bell a refresh is rewarded, in seconds.
pub const MARKET_OPEN_CLOSE_MARGIN: i64 = 15 * 60;

/// Seconds elapsed since the last midnight UTC, in `0..86400` for every
/// timestamp, also for those before the epoch.
pub open spec fn seconds_since_midnight(t: int) -> int {
    t % (SECONDS_IN_A_DAY as int)
}

/// Whole days between the epoch and the midnight that starts the day of `t`;
/// negative before the epoch.
pub open spec fn days_since_epoch(t: int) -> int {
    t / (SECONDS_IN_A_DAY as int)
}

/// The day of the week of `t`, counted from Sunday: 0 is a Sunday, 1 a Monday,
/// and so on to 6, a Saturday. The day of the epoch was a Thursday, so it is
/// the days since the epoch plus four, modulo seven.
pub open spec fn weekday(t: int) -> int {
    (days_since_epoch(t) + 4) % 7
}

/// The day of `t` is one from Monday to Friday.
pub open spec fn is_business_day(t: int) -> bool {
    1 <= weekday(t) <= 5
}

/// The day of `t` is a Saturday or a Sunday.
pub open spec fn is_weekend(t: int) -> bool {
    weekday(t) == 6 || weekday(t) == 0
}

/// The time of day lies between the opening bell (included) and the closing
/// bell (excluded).
pub open spec fn in_trading_hours(t: int) -> bool {
    MARKET_OPEN_TIME <= seconds_since_midnight(t) < MARKET_CLOSE_TIME
}

/// The market is open at `t`: from Monday to Friday, within trading hours.
pub open spec fn market_open(t: int) -> bool {
    is_business_day(t) && in_trading_hours(t)
}

/// The time of day lies in the quarter of an hour that starts at the opening
/// bell or in the one that starts at the closing bell. The weekday plays no
/// part.
pub open spec fn near_open_or_close(t: int) -> bool {
    let s = seconds_since_midnight(t);
    (MARKET_OPEN_TIME <= s < MARKET_OPEN_TIME + MARKET_OPEN_CLOSE_MARGIN) || (MARKET_CLOSE_TIME
        <= s < MARKET_CLOSE_TIME + MARKET_OPEN_CLOSE_MARGIN)
}

/// Seconds since midnight UTC of a timestamp. Rust's remainder takes the sign
/// of the timestamp; before the epoch it is brought back into the day.
pub fn time_of_day(unix_timestamp: i64) -> (seconds: i64)
    ensures
        seconds == seconds_since_midnight(unix_timestamp as int),
        0 <= seconds < 86400,
{
    let remainder = unix_timestamp % SECONDS_IN_A_DAY;
    if remainder < 0 {
        remainder + SECONDS_IN_A_DAY
    } else {
        remainder
    }
}

/// Whole days from the epoch to the day of a timestamp, rounded down also
/// before the epoch.
pub fn day_number(unix_timestamp: i64) -> (days: i64)
    ensures
        days == days_since_epoch(unix_timestamp as int),
{
    let quotient = unix_timestamp / SECONDS_IN_A_DAY;
    if unix_timestamp % SECONDS_IN_A_DAY < 0 {
        quotient - 1
    } else {
        quotient
    }
}

/// The day of the week of a timestamp, from 0 for a Sunday to 6 for a
/// Saturday.
pub fn day_of_week(unix_timestamp: i64) -> (day: i64)
    ensures
        day == weekday(unix_timestamp as int),
        0 <= day < 7,
{
    let remainder = (day_number(unix_timestamp) + 4) % 7;
    if remainder < 0 {
        remainder + 7
    } else {
        remainder
    }
}

/// Whether the US market is open at `unix_timestamp`.
pub fn is_us_market_open(unix_timestamp: i64) -> (open: bool)
    ensures
        open == market_open(unix_timestamp as int),
{
    let seconds_since_midnight = time_of_day(unix_timestamp);
    let weekday = day_of_week(unix_timestamp);

    if weekday == 0 || weekday == 6 {
        return false;
    }
    seconds_since_midnight >= MARKET_OPEN_TIME && seconds_since_midnight < MARKET_CLOSE_TIME
}

/// Whether `unix_timestamp` falls within fifteen minutes after the opening or
/// the closing bell.
pub fn is_within_15_minutes_of_market_open_or_close(unix_timestamp: i64) -> (near: bool)
    ensures
        near == near_open_or_close(unix_timestamp as int),
{
    let seconds_since_midnight = time_of_day(unix_timestamp);

    (seconds_since_midnight >= MARKET_OPEN_TIME && seconds_since_midnight < MARKET_OPEN_TIME
        + MARKET_OPEN_CLOSE_MARGIN) || (seconds_since_midnight >= MARKET_CLOSE_TIME
        && seconds_since_midnight < MARKET_CLOSE_TIME + MARKET_OPEN_CLOSE_MARGIN)
}

/// A timestamp is the midnight of its day plus its time of day, and the time
/// of day is never negative and less than a day, also before the epoch.
pub proof fn lemma_day_and_time(t: int)
    ensures
        t == days_since_epoch(t) * 86400 + seconds_since_midnight(t),
        0 <= seconds_since_midnight(t) < 86400,
        0 <= weekday(t) < 7,
{
}

/// The day of the epoch was a Thursday. So the days whose number, counted from
/// the epoch, leaves 2 modulo 7 are the Saturdays and those that leave 3 the
/// Sundays; every other day is a business day, and no day is both.
pub proof fn lemma_weekday_from_epoch(t: int)
    ensures
        weekday(t) == 6 <==> days_since_epoch(t) % 7 == 2,
        weekday(t) == 0 <==> days_since_epoch(t) % 7 == 3,
        is_weekend(t) <==> (days_since_epoch(t) % 7 == 2 || days_since_epoch(t) % 7 == 3),
        is_business_day(t) != is_weekend(t),
{
}

/// On a Saturday and on a Sunday the market is closed at every time of day.
pub proof fn lemma_weekend_closed(t: int)
    requires
        is_weekend(t),
    ensures
        !market_open(t),
{
}

/// Through every day from Monday to Friday the market is open from the opening
/// bell up to, but not at, the closing bell, and closed at every other second
/// of that day: at `second` seconds after the midnight that starts day `day`.
pub proof fn lemma_business_day_hours(day: int, second: int)
    requires
        0 <= second < 86400,
        is_business_day(day * 86400),
    ensures
        days_since_epoch(day * 86400 + second) == day,
        seconds_since_midnight(day * 86400 + second) == second,
        is_business_day(day * 86400 + second),
        market_open(day * 86400 + second) == (52200 <= second < 75600),
{
}

/// On every day, whatever its place in the week, the reward window is the
/// quarter of an hour from 14:30 and the quarter of an hour from 21:00, and
/// nothing else: at `second` seconds after the midnight that starts day `day`.
pub proof fn lemma_reward_window(day: int, second: int)
    requires
        0 <= second < 86400,
    ensures
        near_open_or_close(day * 86400 + second) == ((52200 <= second < 53100) || (75600 <= second
            < 76500)),
{
}

/// Outside trading hours the market is closed on every day of the week.
pub proof fn lemma_closed_outside_trading_hours(t: int)
    requires
        !in_trading_hours(t),
    ensures
        !market_open(t),
{
}

} // verus!

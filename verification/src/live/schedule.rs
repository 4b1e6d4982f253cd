//! The hours of a trading day and the limits of the worker.
use crate::clock::{weekday_number, Day, Moment};
use crate::model::market::MarketBar;
use crate::text::{ends, strip_suffix};
use vstd::prelude::*;

verus! {

/// Why the worker stops.
#[derive(Clone, Copy, Debug, PartialEq, Eq, Structural)]
pub enum LiveError {
    /// The pause between messages is not 2 to 30 seconds.
    PollSeconds,
    /// The longest silence is not 15 to 300 seconds.
    UnchangedSeconds,
    /// The greatest age of an order is not 1 to 600 seconds.
    OrderAge,
    /// The symbol names no known venue.
    Symbol,
    /// A time stamp is not one of the calendar.
    Clock,
    /// A time stamp lies in the future.
    Future,
    /// A watermark moved back.
    Backwards,
    /// A gap is negative or too large to be counted.
    Gap,
    /// The interval between bars does not hold the quote budget.
    Interval,
    /// A quote was made outside of the sessions.
    OutsideSession,
    /// The evidence of a quote crosses a session.
    CrossesSession,
    /// The evidence of a quote took too long.
    TooLong,
    /// The evidence of a quote is not later than the one before it.
    Stale,
    /// A completed bar changed.
    BarChanged,
    /// The log of bars is not append-only.
    BarOrder,
    /// A bar is not in order.
    Bar,
    /// A bar for recovery came while the service trades.
    RecoveryWhileRunning,
    /// No watermark says that the market is alive.
    NoLiveness,
    /// The accounts do not match.
    Unreconciled,
    /// A quote was not reviewed.
    Quote,
}

/// The seconds from midnight to an hour and a minute.
pub open spec fn clock_second(hour: int, minute: int) -> int {
    hour * 3600 + minute * 60
}

/// Whether a day of the week is one of trading.
pub open spec fn weekday_trades(day: int) -> bool {
    weekday_number(day) <= 5
}

/// Whether a time of day lies in the morning session.
pub open spec fn in_morning(second: int) -> bool {
    clock_second(9, 30) <= second < clock_second(11, 30)
}

/// Whether a time of day lies in the afternoon session.
pub open spec fn in_afternoon(second: int) -> bool {
    clock_second(13, 0) <= second < clock_second(15, 0)
}

/// The session that a moment lies in: the morning is 0, the afternoon 1.
pub open spec fn session_key(at: Moment) -> Option<(Day, u8)> {
    if !weekday_trades(at.d()) {
        None
    } else if in_morning(at.s()) {
        Some((Day::of(at.d()), 0u8))
    } else if in_afternoon(at.s()) {
        Some((Day::of(at.d()), 1u8))
    } else {
        None
    }
}

/// Whether the market trades at a moment.
pub open spec fn trades_at_time(at: Moment) -> bool {
    weekday_trades(at.d()) && (in_morning(at.s()) || in_afternoon(at.s()))
}

/// The session that a moment lies in.
pub fn market_session_key(value: Moment) -> (r: Option<(Day, u8)>)
    ensures
        r == session_key(value),
{
    if value.weekday() > 5 {
        return None;
    }
    let second: u32 = value.second();
    if 34_200 <= second && second < 41_400 {
        Some((value.day(), 0))
    } else if 46_800 <= second && second < 54_000 {
        Some((value.day(), 1))
    } else {
        None
    }
}

/// Whether the market trades at a moment.
pub fn is_market_session(now: Moment) -> (r: bool)
    ensures
        r == trades_at_time(now),
{
    if now.weekday() > 5 {
        return false;
    }
    let second: u32 = now.second();
    (34_200 <= second && second < 41_400) || (46_800 <= second && second < 54_000)
}

/// Whether the trading day is over: five minutes after the close.
pub fn is_after_daily_window(now: Moment) -> (r: bool)
    ensures
        r == (weekday_trades(now.d()) && now.s() >= clock_second(15, 5)),
{
    now.weekday() <= 5 && now.second() >= 54_300
}

/// Whether the strategy acts on a bar: not on the first, the last or those next
/// to the break.
pub open spec fn executable(at: Moment) -> bool {
    let after_start = |second: int, nano: int, end: int| second < end || (second == end && nano == 0);
    (clock_second(9, 35) <= at.s() && after_start(at.s(), at.n(), clock_second(11, 25))) || (
    clock_second(13, 5) <= at.s() && after_start(at.s(), at.n(), clock_second(14, 55)))
}

/// Whether the strategy acts on a bar.
pub fn is_executable_strategy_bar(bar: &MarketBar) -> (r: bool)
    ensures
        r == executable(bar@.timestamp),
{
    let second: u32 = bar.timestamp.second();
    let nano: u32 = bar.timestamp.nano();
    (34_500 <= second && (second < 41_100 || (second == 41_100 && nano == 0))) || (47_100 <= second
        && (second < 53_700 || (second == 53_700 && nano == 0)))
}

/// Whether orders of the morning are settled at a moment.
pub fn is_lunch_settlement_window(now: Moment) -> (r: bool)
    ensures
        r == (weekday_trades(now.d()) && clock_second(11, 25) <= now.s() < clock_second(13, 0)),
{
    let second: u32 = now.second();
    now.weekday() <= 5 && 41_100 <= second && second < 46_800
}

/// The seconds that a quote may take before a bar ends.
pub const QUOTE_PROBE_BUDGET_SECONDS: i64 = 20;

/// How long to wait with a quote so that it does not cross the end of a bar.
pub open spec fn boundary_delay(at: Moment, interval_minutes: u32) -> Result<
    Option<u64>,
    LiveError,
> {
    let width = interval_minutes * 60;
    if QUOTE_PROBE_BUDGET_SECONDS >= width {
        Err(LiveError::Interval)
    } else if !in_morning(at.s()) && !in_afternoon(at.s()) {
        Ok(None)
    } else {
        let start = if in_morning(at.s()) {
            clock_second(9, 30)
        } else {
            clock_second(13, 0)
        };
        let into = (at.s() - start + at.n() / 1_000_000_000) % width;
        if into == 0 || width - into > QUOTE_PROBE_BUDGET_SECONDS {
            Ok(None)
        } else {
            Ok(Some((width - into) as u64))
        }
    }
}

/// How many seconds to wait with a quote so that it does not cross the end of a
/// bar.
pub fn quote_probe_boundary_delay(now: Moment, interval_minutes: u32) -> (r: Result<
    Option<u64>,
    LiveError,
>)
    ensures
        r == boundary_delay(now, interval_minutes),
{
    let width: i64 = interval_minutes as i64 * 60;
    if QUOTE_PROBE_BUDGET_SECONDS >= width {
        return Err(LiveError::Interval);
    }
    let second: i64 = now.second() as i64;
    let start: i64 = if 34_200 <= second && second < 41_400 {
        34_200
    } else if 46_800 <= second && second < 54_000 {
        46_800
    } else {
        return Ok(None);
    };
    let into: i64 = (second - start + now.nano() as i64 / 1_000_000_000) % width;
    if into == 0 {
        return Ok(None);
    }
    let remaining: i64 = width - into;
    if remaining > QUOTE_PROBE_BUDGET_SECONDS {
        return Ok(None);
    }
    Ok(Some(remaining as u64))
}

/// Checks the limits that the worker is started with.
pub fn validate_limits(
    poll_seconds: u64,
    maximum_unchanged_seconds: i64,
    maximum_order_age_seconds: i64,
) -> (r: Result<(), LiveError>)
    ensures
        r == (if !(2 <= poll_seconds <= 30) {
            Err::<(), LiveError>(LiveError::PollSeconds)
        } else if !(15 <= maximum_unchanged_seconds <= 300) {
            Err::<(), LiveError>(LiveError::UnchangedSeconds)
        } else if !(1 <= maximum_order_age_seconds <= 600) {
            Err::<(), LiveError>(LiveError::OrderAge)
        } else {
            Ok::<(), LiveError>(())
        }),
{
    if !(2 <= poll_seconds && poll_seconds <= 30) {
        return Err(LiveError::PollSeconds);
    }
    if !(15 <= maximum_unchanged_seconds && maximum_unchanged_seconds <= 300) {
        return Err(LiveError::UnchangedSeconds);
    }
    if !(1 <= maximum_order_age_seconds && maximum_order_age_seconds <= 600) {
        return Err(LiveError::OrderAge);
    }
    Ok(())
}

/// The code of a symbol and its venue.
pub open spec fn venue_of(symbol: Seq<char>) -> Option<(Seq<char>, Seq<char>)> {
    if ends(symbol, ".SZ"@) {
        Some((symbol.subrange(0, symbol.len() - ".SZ"@.len()), "XSHE"@))
    } else if ends(symbol, ".SH"@) {
        Some((symbol.subrange(0, symbol.len() - ".SH"@.len()), "XSHG"@))
    } else {
        None
    }
}

/// The code of a symbol and its venue.
pub fn quote_symbol(symbol: &str) -> (r: Result<(String, String), LiveError>)
    ensures
        match venue_of(symbol@) {
            Some((code, venue)) => r matches Ok(x) && x.0@ == code && x.1@ == venue,
            None => r matches Err(e) && e == LiveError::Symbol,
        },
{
    if let Some(code) = strip_suffix(symbol, ".SZ") {
        return Ok((code, "XSHE".to_owned()));
    }
    match strip_suffix(symbol, ".SH") {
        Some(code) => Ok((code, "XSHG".to_owned())),
        None => Err(LiveError::Symbol),
    }
}

/// A bar that the strategy acts on, but for the last of a session, ends while
/// the market trades; a session key is given exactly while it trades.
pub proof fn law_sessions_are_market_time(at: Moment)
    ensures
        session_key(at) is Some <==> trades_at_time(at),
        executable(at) && weekday_trades(at.d()) ==> trades_at_time(at),
{
}

} // verus!

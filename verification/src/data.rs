//! Market bars: when one is in order, replay feeds and clocks.
use crate::clock::{moment_in_range, stamp_text, Moment};
use crate::config::MAX_SHARE_QUANTITY;
use crate::decimal::{decimal_text, times, Decimal};
use crate::digest::{text_digest, text_sha256};
use crate::json::{quote, quoted};
use crate::model::market::{MarketBar, MarketBarView};
use crate::text::{int_text, join, signed_text, text_eq};
use crate::value::Value;
use vstd::prelude::*;

verus! {

/// Why a bar or a feed is refused.
#[derive(Clone, Copy, Debug, PartialEq, Eq, Structural)]
pub enum BarError {
    Symbol,
    Price,
    Range,
    NegativeVolume,
    LargeVolume,
    NegativeAmount,
    /// A price is too large to be multiplied by a quantity.
    NumericRange,
    OutsideSession,
    /// Two bars have the same time.
    DuplicateTime,
    /// The times do not increase.
    TimeOrder,
    /// There are no bars.
    Empty,
}

/// Whether a time of day lies in one of the two trading sessions.
pub open spec fn in_session(second: int, nano: int) -> bool {
    ||| 34_200 <= second < 41_400
    ||| second == 41_400 && nano == 0
    ||| 46_800 <= second < 54_000
    ||| second == 54_000 && nano == 0
}

/// Whether a bar lies in one of the two trading sessions.
pub fn is_trading_time(at: &Moment) -> (r: bool)
    ensures
        r == in_session(at.s(), at.n()),
{
    let second: u32 = at.second();
    let nano: u32 = at.nano();
    (34_200 <= second && second < 41_400) || (second == 41_400 && nano == 0) || (46_800 <= second
        && second < 54_000) || (second == 54_000 && nano == 0)
}

/// Whether a price can be multiplied by the largest quantity.
pub open spec fn in_envelope(price: Decimal) -> bool {
    times(price, Decimal::whole(MAX_SHARE_QUANTITY as int)) is Some
}

fn is_in_envelope(price: Decimal) -> (r: bool)
    ensures
        r == in_envelope(price),
{
    price.checked_mul(Decimal::from_i64(MAX_SHARE_QUANTITY)).is_some()
}

/// Whether the lowest and the highest price enclose the others.
pub open spec fn prices_enclosed(b: MarketBarView) -> bool {
    &&& b.low.units() <= b.open.units()
    &&& b.low.units() <= b.close.units()
    &&& b.high.units() >= b.open.units()
    &&& b.high.units() >= b.close.units()
    &&& b.low.units() <= b.high.units()
}

/// Why a bar is refused, if it is.
pub open spec fn bar_fault(b: MarketBarView, symbol: Seq<char>) -> Option<BarError> {
    if b.symbol != symbol {
        Some(BarError::Symbol)
    } else if b.open.units() <= 0 || b.high.units() <= 0 || b.low.units() <= 0 || b.close.units()
        <= 0 {
        Some(BarError::Price)
    } else if !prices_enclosed(b) {
        Some(BarError::Range)
    } else if b.volume < 0 {
        Some(BarError::NegativeVolume)
    } else if b.volume > MAX_SHARE_QUANTITY {
        Some(BarError::LargeVolume)
    } else if b.amount is Some && b.amount->0.units() < 0 {
        Some(BarError::NegativeAmount)
    } else if !in_envelope(b.open) || !in_envelope(b.high) || !in_envelope(b.low) || !in_envelope(
        b.close,
    ) {
        Some(BarError::NumericRange)
    } else if !in_session(b.timestamp.s(), b.timestamp.n()) {
        Some(BarError::OutsideSession)
    } else {
        None
    }
}

/// The JSON notation of a decimal: its text in quotes.
pub open spec fn quoted_decimal(d: Decimal) -> Seq<char> {
    quoted(decimal_text(d.m(), d.s()))
}

/// The JSON notation of a moment: its text without the part of the second, in
/// quotes.
pub open spec fn quoted_stamp(at: Moment) -> Seq<char> {
    quoted(stamp_text(at.d(), at.s(), at.n()))
}

/// The JSON notation of a bar.
pub open spec fn bar_text(b: MarketBarView) -> Seq<char> {
    "{\"timestamp\":"@ + quoted_stamp(b.timestamp) + ",\"symbol\":"@ + quoted(b.symbol)
        + ",\"open\":"@ + quoted_decimal(b.open) + ",\"high\":"@ + quoted_decimal(b.high)
        + ",\"low\":"@ + quoted_decimal(b.low) + ",\"close\":"@ + quoted_decimal(b.close)
        + ",\"volume\":"@ + int_text(b.volume as int) + ",\"amount\":"@ + (match b.amount {
        Some(amount) => quoted_decimal(amount),
        None => "null"@,
    }) + "}"@
}

/// The JSON notation of a decimal.
pub fn quote_decimal(d: &Decimal) -> (r: String)
    ensures
        r@ == quoted_decimal(*d),
        crate::json::json_part(r@, ""@) is Some,
{
    let text = d.text();
    quote(text.as_str())
}

/// The JSON notation of a moment.
pub fn quote_stamp(at: &Moment) -> (r: String)
    ensures
        r@ == quoted_stamp(*at),
        crate::json::json_part(r@, ""@) == Some(
            crate::json::JsonPartView::Text(stamp_text(at.d(), at.s(), at.n())),
        ),
{
    let text = at.stamp();
    quote(text.as_str())
}

/// The JSON notation of a bar.
pub fn encode_bar(bar: &MarketBar) -> (r: String)
    ensures
        r@ == bar_text(bar@),
{
    let t = join("{\"timestamp\":", quote_stamp(&bar.timestamp).as_str());
    let t = join(t.as_str(), ",\"symbol\":");
    let t = join(t.as_str(), quote(bar.symbol.as_str()).as_str());
    let t = join(t.as_str(), ",\"open\":");
    let t = join(t.as_str(), quote_decimal(&bar.open).as_str());
    let t = join(t.as_str(), ",\"high\":");
    let t = join(t.as_str(), quote_decimal(&bar.high).as_str());
    let t = join(t.as_str(), ",\"low\":");
    let t = join(t.as_str(), quote_decimal(&bar.low).as_str());
    let t = join(t.as_str(), ",\"close\":");
    let t = join(t.as_str(), quote_decimal(&bar.close).as_str());
    let t = join(t.as_str(), ",\"volume\":");
    let t = join(t.as_str(), signed_text(bar.volume).as_str());
    let t = join(t.as_str(), ",\"amount\":");
    let t = match &bar.amount {
        Some(amount) => join(t.as_str(), quote_decimal(amount).as_str()),
        None => join(t.as_str(), "null"),
    };
    join(t.as_str(), "}")
}

/// The digest that evidence of a bar is known by.
pub fn market_evidence_sha256(bar: &MarketBar) -> (r: String)
    ensures
        r@ == text_digest(bar_text(bar@)),
{
    let text = encode_bar(bar);
    text_sha256(text.as_str())
}

/// Checks a bar.
pub fn validate_bar(bar: &MarketBar, expected_symbol: &str) -> (r: Result<(), BarError>)
    ensures
        r == (match bar_fault(bar@, expected_symbol@) {
            Some(e) => Err::<(), BarError>(e),
            None => Ok::<(), BarError>(()),
        }),
{
    if !text_eq(bar.symbol.as_str(), expected_symbol) {
        return Err(BarError::Symbol);
    }
    if !bar.open.is_positive() || !bar.high.is_positive() || !bar.low.is_positive()
        || !bar.close.is_positive() {
        return Err(BarError::Price);
    }
    if !bar.low.at_most(&bar.open) || !bar.low.at_most(&bar.close) || !bar.open.at_most(&bar.high)
        || !bar.close.at_most(&bar.high) || !bar.low.at_most(&bar.high) {
        return Err(BarError::Range);
    }
    if bar.volume < 0 {
        return Err(BarError::NegativeVolume);
    }
    if bar.volume > MAX_SHARE_QUANTITY {
        return Err(BarError::LargeVolume);
    }
    if let Some(amount) = &bar.amount {
        if amount.is_negative() {
            return Err(BarError::NegativeAmount);
        }
    }
    if !is_in_envelope(bar.open) || !is_in_envelope(bar.high) || !is_in_envelope(bar.low)
        || !is_in_envelope(bar.close) {
        return Err(BarError::NumericRange);
    }
    if !is_trading_time(&bar.timestamp) {
        return Err(BarError::OutsideSession);
    }
    Ok(())
}

/// A source of market bars.
pub trait MarketDataFeed {
    fn next_bar(&mut self) -> (r: Option<MarketBar>);

    fn pause(&mut self);

    fn resume(&mut self);

    fn stop(&mut self);
}

/// The bars of a file, one after the other.
pub struct CsvReplayFeed {
    bars: Vec<MarketBar>,
    cursor: usize,
    paused: bool,
    stopped: bool,
}

/// What a replay feed holds.
#[verifier::ext_equal]
pub struct ReplayView {
    pub bars: Seq<MarketBarView>,
    pub cursor: int,
    pub paused: bool,
    pub stopped: bool,
}

impl View for CsvReplayFeed {
    type V = ReplayView;

    closed spec fn view(&self) -> ReplayView {
        ReplayView {
            bars: self.bars.deep_view(),
            cursor: self.cursor as int,
            paused: self.paused,
            stopped: self.stopped,
        }
    }
}

/// Whether the times of the bars increase strictly.
pub open spec fn increasing(bars: Seq<MarketBarView>) -> bool {
    forall|i: int, j: int|
        0 <= i < j < bars.len() ==> (#[trigger] bars[i]).timestamp.position() < (
        #[trigger] bars[j]).timestamp.position()
}

/// Why the first `n` bars of a file are refused, if they are: the first fault
/// counts.
pub open spec fn rows_fault(bars: Seq<MarketBarView>, symbol: Seq<char>, n: nat) -> Option<BarError>
    decreases n,
{
    if n == 0 {
        None
    } else {
        match rows_fault(bars, symbol, (n - 1) as nat) {
            Some(e) => Some(e),
            None => match bar_fault(bars[n - 1], symbol) {
                Some(e) => Some(e),
                None => if n >= 2 {
                    let before = bars[n - 2].timestamp.position();
                    let now = bars[n - 1].timestamp.position();
                    if seen_before(bars, n - 1) {
                        Some(BarError::DuplicateTime)
                    } else if before >= now {
                        Some(BarError::TimeOrder)
                    } else {
                        None
                    }
                } else {
                    None
                },
            },
        }
    }
}

/// Whether an earlier bar has the time of the bar at an index.
pub open spec fn seen_before(bars: Seq<MarketBarView>, index: int) -> bool {
    exists|i: int|
        0 <= i < index && (#[trigger] bars[i]).timestamp.position()
            == bars[index].timestamp.position()
}

pub proof fn lemma_rows(bars: Seq<MarketBarView>, symbol: Seq<char>, n: nat)
    requires
        n <= bars.len(),
    ensures
        rows_fault(bars, symbol, n) is None ==> forall|i: int|
            0 <= i < n ==> bar_fault(#[trigger] bars[i], symbol) is None,
        rows_fault(bars, symbol, n) is None ==> forall|i: int, j: int|
            0 <= i < j < n ==> (#[trigger] bars[i]).timestamp.position() < (
            #[trigger] bars[j]).timestamp.position(),
    decreases n,
{
    if n > 0 && rows_fault(bars, symbol, n) is None {
        lemma_rows(bars, symbol, (n - 1) as nat);
        assert forall|i: int, j: int| 0 <= i < j < n implies (#[trigger] bars[i]).timestamp.position()
            < (#[trigger] bars[j]).timestamp.position() by {
            if j == n - 1 && i < n - 2 {
                assert(bars[i].timestamp.position() < bars[n - 2].timestamp.position());
            }
        }
    }
}

proof fn lemma_rows_fault_stays(bars: Seq<MarketBarView>, symbol: Seq<char>, n: nat, m: nat)
    requires
        n <= m,
        rows_fault(bars, symbol, n) is Some,
    ensures
        rows_fault(bars, symbol, m) == rows_fault(bars, symbol, n),
    decreases m - n,
{
    if n < m {
        lemma_rows_fault_stays(bars, symbol, n, (m - 1) as nat);
    }
}

/// Why the bars of a file are refused, if they are.
pub open spec fn feed_fault(bars: Seq<MarketBarView>, symbol: Seq<char>) -> Option<BarError> {
    match rows_fault(bars, symbol, bars.len()) {
        Some(e) => Some(e),
        None => if bars.len() == 0 {
            Some(BarError::Empty)
        } else {
            None
        },
    }
}

impl CsvReplayFeed {
    /// A feed of the given bars.
    pub fn from_bars(bars: Vec<MarketBar>, expected_symbol: &str) -> (r: Result<Self, BarError>)
        ensures
            match feed_fault(bars.deep_view(), expected_symbol@) {
                Some(e) => r is Err && r->Err_0 == e,
                None => r matches Ok(f) && f@ == (ReplayView {
                    bars: bars.deep_view(),
                    cursor: 0,
                    paused: false,
                    stopped: false,
                }),
            },
    {
        let ghost all = bars.deep_view();
        let mut i: usize = 0;
        while i < bars.len()
            invariant
                i <= bars.len(),
                all == bars.deep_view(),
                rows_fault(all, expected_symbol@, i as nat) is None,
            decreases bars.len() - i,
        {
            let fault = match validate_bar(&bars[i], expected_symbol) {
                Err(e) => Some(e),
                Ok(_) => if i == 0 {
                    None
                } else {
                    proof {
                        lemma_rows(all, expected_symbol@, i as nat);
                    }
                    let now = bars[i].timestamp;
                    let before = bars[i - 1].timestamp;
                    assert(all[i as int].timestamp == now);
                    assert(all[i - 1].timestamp == before);
                    if before.before(&now) {
                        assert(!seen_before(all, i as int)) by {
                            assert forall|k: int| 0 <= k < i implies (
                            #[trigger] all[k]).timestamp.position()
                                != all[i as int].timestamp.position() by {
                                if k < i - 1 {
                                    assert(all[k].timestamp.position()
                                        < all[i - 1].timestamp.position());
                                }
                            }
                        }
                        None
                    } else {
                        let mut known = false;
                        let mut k: usize = 0;
                        while k < i
                            invariant
                                k <= i < bars.len(),
                                all == bars.deep_view(),
                                all[i as int].timestamp == now,
                                known == exists|j: int|
                                    0 <= j < k && (#[trigger] all[j]).timestamp.position()
                                        == all[i as int].timestamp.position(),
                            decreases i - k,
                        {
                            assert(all[k as int].timestamp == bars[k as int].timestamp);
                            let equal = !bars[k].timestamp.before(&now) && !now.before(
                                &bars[k].timestamp,
                            );
                            known = known || equal;
                            k = k + 1;
                        }
                        if known {
                            Some(BarError::DuplicateTime)
                        } else {
                            Some(BarError::TimeOrder)
                        }
                    }
                },
            };
            if let Some(e) = fault {
                proof {
                    assert(rows_fault(all, expected_symbol@, (i + 1) as nat) == Some(e));
                    lemma_rows_fault_stays(all, expected_symbol@, (i + 1) as nat, all.len());
                }
                return Err(e);
            }
            i = i + 1;
        }
        if bars.len() == 0 {
            return Err(BarError::Empty);
        }
        Ok(CsvReplayFeed { bars, cursor: 0, paused: false, stopped: false })
    }

    /// All bars of the feed.
    pub fn bars(&self) -> (r: &Vec<MarketBar>)
        ensures
            r.deep_view() == self@.bars,
    {
        &self.bars
    }
}

impl MarketDataFeed for CsvReplayFeed {
    fn next_bar(&mut self) -> (r: Option<MarketBar>)
        ensures
            ({
                let s = old(self)@;
                let open = !s.paused && !s.stopped && s.cursor < s.bars.len();
                &&& open ==> (r matches Some(bar) && bar@ == s.bars[s.cursor] && final(self)@ == (
                ReplayView { cursor: s.cursor + 1, ..s }))
                &&& !open ==> r is None && final(self)@ == s
            }),
    {
        if self.paused || self.stopped {
            return None;
        }
        if self.cursor < self.bars.len() {
            let bar = self.bars[self.cursor].dup();
            assert(bar@ == self.bars.deep_view()[self.cursor as int]);
            self.cursor = self.cursor + 1;
            Some(bar)
        } else {
            None
        }
    }

    fn pause(&mut self)
        ensures
            final(self)@ == (ReplayView { paused: true, ..old(self)@ }),
    {
        self.paused = true;
    }

    fn resume(&mut self)
        ensures
            final(self)@ == (ReplayView { paused: false, ..old(self)@ }),
    {
        self.paused = false;
    }

    fn stop(&mut self)
        ensures
            final(self)@ == (ReplayView { stopped: true, ..old(self)@ }),
    {
        self.stopped = true;
    }
}

/// Every bar of a feed is in order, and their times increase strictly.
pub proof fn law_feeds_increase(bars: Seq<MarketBarView>, symbol: Seq<char>)
    requires
        feed_fault(bars, symbol) is None,
    ensures
        bars.len() > 0,
        increasing(bars),
        forall|i: int| 0 <= i < bars.len() ==> bar_fault(#[trigger] bars[i], symbol) is None,
{
    lemma_rows(bars, symbol, bars.len());
}

/// A source of the current time.
pub trait Clock {
    fn now(&self) -> (r: Moment);
}

/// `chrono::Utc::now`: the current day, second and nanosecond. Nothing more is
/// said of them than that they are in range.
#[verifier::external_body]
fn utc_now() -> (r: (i32, u32, u32))
    ensures
        moment_in_range(r.0 as int, r.1 as int, r.2 as int),
{
    let now = chrono::Utc::now().naive_utc();
    (
        chrono::Datelike::num_days_from_ce(&now),
        chrono::Timelike::num_seconds_from_midnight(&now),
        chrono::Timelike::nanosecond(&now),
    )
}

/// The current time in UTC.
pub fn now_naive() -> (r: Moment)
    ensures
        r.valid(),
{
    let (day, second, nano): (i32, u32, u32) = utc_now();
    Moment::from_parts(day, second, nano).unwrap()
}

/// The clock of the machine.
#[derive(Clone, Copy, Debug)]
pub struct SystemClock;

impl Clock for SystemClock {
    fn now(&self) -> (r: Moment)
        ensures
            r.valid(),
    {
        now_naive()
    }
}

/// A clock that stands until it is moved.
pub struct ReplayClock {
    current: Moment,
}

impl ReplayClock {
    /// The time that the clock shows.
    pub closed spec fn shows(&self) -> Moment {
        self.current
    }

    /// A clock that shows the given time.
    pub fn new(current: Moment) -> (r: Self)
        ensures
            r.shows() == current,
    {
        ReplayClock { current }
    }

    /// Moves the clock to the given time.
    pub fn advance(&mut self, current: Moment)
        ensures
            final(self).shows() == current,
    {
        self.current = current;
    }
}

impl Clock for ReplayClock {
    fn now(&self) -> (r: Moment)
        ensures
            r == self.shows(),
    {
        self.current
    }
}

} // verus!

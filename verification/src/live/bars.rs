//! The bars and the quotes that the worker has stored.
use crate::clock::{nanos_between, Day, Moment};
use crate::data::{bar_fault, validate_bar};
use crate::live::schedule::{
    executable, is_executable_strategy_bar, market_session_key, session_key, LiveError,
};
use crate::model::ledger::ServiceMode;
use crate::model::market::{MarketBar, MarketBarView};
use crate::table::{holds_key, lookup, with, Table};
use crate::text::{blank, is_blank};
use crate::value::Value;
use vstd::prelude::*;

verus! {

/// The stored bars after one more: a bar that is stored already has to be the
/// same.
pub open spec fn stored(bars: Seq<(Moment, MarketBarView)>, bar: MarketBarView) -> Result<
    Seq<(Moment, MarketBarView)>,
    LiveError,
> {
    match lookup::<Moment, MarketBarView>(bars, bar.timestamp) {
        Some(existing) => if existing == bar {
            Ok(bars)
        } else {
            Err(LiveError::BarChanged)
        },
        None => Ok(with::<Moment, MarketBarView>(bars, bar.timestamp, bar)),
    }
}

/// Stores a bar that is not stored yet. The answer says whether it is new, and
/// so has to be appended to the log.
pub fn store_bar_if_new(bars: &mut Table<Moment, MarketBar>, bar: MarketBar) -> (r: Result<
    bool,
    LiveError,
>)
    ensures
        match stored(old(bars)@, bar@) {
            Ok(after) => r == Ok::<bool, LiveError>(
                !holds_key::<Moment, MarketBarView>(old(bars)@, bar@.timestamp),
            ) && final(bars)@ == after,
            Err(e) => r == Err::<bool, LiveError>(e) && final(bars)@ == old(bars)@,
        },
{
    if let Some(existing) = bars.get(&bar.timestamp) {
        if existing.same(&bar) {
            return Ok(false);
        }
        return Err(LiveError::BarChanged);
    }
    let at = bar.timestamp;
    bars.put(at, bar);
    Ok(true)
}

/// Stores a bar of a recovery. The answer says whether it is new, and whether
/// the strategy acts on it.
pub fn process_market_recovery_bar(
    mode: ServiceMode,
    bars: &mut Table<Moment, MarketBar>,
    bar: MarketBar,
) -> (r: Result<(bool, bool), LiveError>)
    ensures
        if mode != ServiceMode::ReadOnly {
            r == Err::<(bool, bool), LiveError>(LiveError::RecoveryWhileRunning) && final(bars)@
                == old(bars)@
        } else {
            let fresh = !holds_key::<Moment, MarketBarView>(old(bars)@, bar@.timestamp);
            match stored(old(bars)@, bar@) {
                Ok(after) => r == Ok::<(bool, bool), LiveError>(
                    (fresh, executable(bar@.timestamp) && fresh),
                ) && final(bars)@ == after,
                Err(e) => r == Err::<(bool, bool), LiveError>(e) && final(bars)@ == old(bars)@,
            }
        },
{
    if mode != ServiceMode::ReadOnly {
        return Err(LiveError::RecoveryWhileRunning);
    }
    let acts = is_executable_strategy_bar(&bar);
    let fresh = store_bar_if_new(bars, bar)?;
    Ok((fresh, acts && fresh))
}

/// Why the first `n` bars of a log are not in order, if they are not.
pub open spec fn log_fault(log: Seq<MarketBarView>, symbol: Seq<char>, n: nat) -> Option<LiveError>
    decreases n,
{
    if n == 0 {
        None
    } else {
        match log_fault(log, symbol, (n - 1) as nat) {
            Some(e) => Some(e),
            None => if bar_fault(log[n - 1], symbol) is Some {
                Some(LiveError::Bar)
            } else if n >= 2 && log[n - 1].timestamp.position() <= log[n - 2].timestamp.position() {
                Some(LiveError::BarOrder)
            } else {
                None
            },
        }
    }
}

/// The first `n` bars of a log by their time.
pub open spec fn indexed(log: Seq<MarketBarView>, n: nat) -> Seq<(Moment, MarketBarView)>
    decreases n,
{
    if n == 0 {
        Seq::empty()
    } else {
        with::<Moment, MarketBarView>(
            indexed(log, (n - 1) as nat),
            log[n - 1].timestamp,
            log[n - 1],
        )
    }
}

proof fn lemma_log_stops(log: Seq<MarketBarView>, symbol: Seq<char>, n: nat, m: nat)
    requires
        n <= m,
        log_fault(log, symbol, n) is Some,
    ensures
        log_fault(log, symbol, m) == log_fault(log, symbol, n),
    decreases m - n,
{
    if n < m {
        lemma_log_stops(log, symbol, n, (m - 1) as nat);
    }
}

/// The bars of a log, by their time. The log has to hold bars of the symbol that
/// are in order, each later than the one before it.
pub fn load_unique_bars(log: &Vec<MarketBar>, expected_symbol: &str) -> (r: Result<
    Table<Moment, MarketBar>,
    LiveError,
>)
    ensures
        match log_fault(log.deep_view(), expected_symbol@, log.deep_view().len()) {
            Some(e) => r matches Err(x) && x == e,
            None => r matches Ok(x) && x@ == indexed(log.deep_view(), log.deep_view().len()),
        },
{
    let ghost all = log.deep_view();
    let mut bars: Table<Moment, MarketBar> = Table::new();
    let mut i: usize = 0;
    while i < log.len()
        invariant
            i <= log.len(),
            all == log.deep_view(),
            log_fault(all, expected_symbol@, i as nat) is None,
            bars@ == indexed(all, i as nat),
        decreases log.len() - i,
    {
        assert(all[i as int] == log[i as int]@);
        if let Err(_) = validate_bar(&log[i], expected_symbol) {
            proof {
                lemma_log_stops(all, expected_symbol@, (i + 1) as nat, all.len());
            }
            return Err(LiveError::Bar);
        }
        if i > 0 {
            assert(all[i - 1] == log[i - 1]@);
            if !log[i - 1].timestamp.before(&log[i].timestamp) {
                proof {
                    lemma_log_stops(all, expected_symbol@, (i + 1) as nat, all.len());
                }
                return Err(LiveError::BarOrder);
            }
        }
        bars.put(log[i].timestamp, log[i].dup());
        i = i + 1;
    }
    Ok(bars)
}

/// The lines of a log that hold something, with the numbers of the lines.
pub open spec fn content(lines: Seq<Seq<char>>, n: nat) -> Seq<(nat, Seq<char>)>
    decreases n,
{
    if n == 0 {
        Seq::empty()
    } else if blank(lines[n - 1]) {
        content(lines, (n - 1) as nat)
    } else {
        content(lines, (n - 1) as nat).push((n, lines[n - 1]))
    }
}

/// Numbered lines.
pub open spec fn numbered(lines: Seq<(usize, String)>) -> Seq<(nat, Seq<char>)> {
    lines.map_values(|x: (usize, String)| (x.0 as nat, x.1@))
}

/// The lines of a log that hold something, with the numbers of the lines.
pub fn content_lines(lines: &Vec<String>) -> (r: Vec<(usize, String)>)
    ensures
        numbered(r@) == content(lines.deep_view(), lines.deep_view().len()),
{
    let ghost all = lines.deep_view();
    let mut out: Vec<(usize, String)> = Vec::new();
    assert(numbered(out@) =~= Seq::<(nat, Seq<char>)>::empty());
    let end: usize = lines.len();
    let mut i: usize = 0;
    while i < end
        invariant
            i <= end == lines.len(),
            all == lines.deep_view(),
            numbered(out@) == content(all, i as nat),
        decreases end - i,
    {
        assert(all[i as int] == lines[i as int]@);
        let ghost before = numbered(out@);
        if !is_blank(lines[i].as_str()) {
            out.push((i + 1, lines[i].dup()));
            assert(numbered(out@) =~= before.push(((i + 1) as nat, all[i as int])));
        }
        i = i + 1;
    }
    out
}

/// What is known of a quote: when it was made, and whether its evidence was
/// reviewed.
#[derive(Clone, Copy, Debug)]
pub struct QuoteEvidence {
    pub observed_from: Moment,
    pub observed_at: Moment,
    pub reviewed: bool,
}

impl View for QuoteEvidence {
    type V = QuoteEvidence;

    open spec fn view(&self) -> QuoteEvidence {
        *self
    }
}

/// Why the first `n` quotes of a log are not in order, if they are not.
pub open spec fn quotes_fault(quotes: Seq<QuoteEvidence>, n: nat) -> Option<LiveError>
    decreases n,
{
    if n == 0 {
        None
    } else {
        match quotes_fault(quotes, (n - 1) as nat) {
            Some(e) => Some(e),
            None => if !quotes[n - 1].reviewed {
                Some(LiveError::Quote)
            } else if n >= 2 && quotes[n - 1].observed_at.position()
                <= quotes[n - 2].observed_at.position() {
                Some(LiveError::Stale)
            } else {
                None
            },
        }
    }
}

proof fn lemma_quotes_stop(quotes: Seq<QuoteEvidence>, n: nat, m: nat)
    requires
        n <= m,
        quotes_fault(quotes, n) is Some,
    ensures
        quotes_fault(quotes, m) == quotes_fault(quotes, n),
    decreases m - n,
{
    if n < m {
        lemma_quotes_stop(quotes, n, (m - 1) as nat);
    }
}

/// Checks that the quotes of a log were reviewed and that each is later than the
/// one before it.
pub fn load_validated_quotes(quotes: &Vec<QuoteEvidence>) -> (r: Result<(), LiveError>)
    ensures
        r == (match quotes_fault(quotes@, quotes@.len()) {
            Some(e) => Err::<(), LiveError>(e),
            None => Ok::<(), LiveError>(()),
        }),
{
    let mut i: usize = 0;
    while i < quotes.len()
        invariant
            i <= quotes.len(),
            quotes_fault(quotes@, i as nat) is None,
        decreases quotes.len() - i,
    {
        if !quotes[i].reviewed {
            proof {
                lemma_quotes_stop(quotes@, (i + 1) as nat, quotes@.len());
            }
            return Err(LiveError::Quote);
        }
        if i > 0 && !quotes[i - 1].observed_at.before(&quotes[i].observed_at) {
            proof {
                lemma_quotes_stop(quotes@, (i + 1) as nat, quotes@.len());
            }
            return Err(LiveError::Stale);
        }
        i = i + 1;
    }
    Ok(())
}

/// How fresh the quotes of a session are.
#[derive(Clone, Copy, Debug)]
pub struct PriceFreshness {
    pub session: Option<(Day, u8)>,
    pub last_observed_at: Option<Moment>,
}

/// What one more quote makes of the freshness.
pub open spec fn observed(
    f: PriceFreshness,
    q: QuoteEvidence,
    maximum_unchanged_seconds: i64,
) -> Result<PriceFreshness, LiveError> {
    let session = session_key(q.observed_at);
    let after = PriceFreshness { session, last_observed_at: Some(q.observed_at) };
    if session is None {
        Err(LiveError::OutsideSession)
    } else if q.observed_from.position() > q.observed_at.position() || session_key(q.observed_from)
        != session {
        Err(LiveError::CrossesSession)
    } else if nanos_between(q.observed_from, q.observed_at) > maximum_unchanged_seconds
        * 1_000_000_000 {
        Err(LiveError::TooLong)
    } else if f.session != session {
        Ok(after)
    } else {
        match f.last_observed_at {
            None => Err(LiveError::NoLiveness),
            Some(last) => if q.observed_at.position() <= last.position() {
                Err(LiveError::Stale)
            } else {
                Ok(after)
            },
        }
    }
}

fn same_session(a: &Option<(Day, u8)>, b: &Option<(Day, u8)>) -> (r: bool)
    ensures
        r == (*a == *b),
{
    match (a, b) {
        (None, None) => true,
        (Some(x), Some(y)) => x.0.same(&y.0) && x.1 == y.1,
        _ => false,
    }
}

impl PriceFreshness {
    /// Before any quote.
    pub fn new() -> (r: PriceFreshness)
        ensures
            r == (PriceFreshness { session: None, last_observed_at: None }),
    {
        PriceFreshness { session: None, last_observed_at: None }
    }

    /// Takes a quote in: it lies in one session, did not take too long and is
    /// later than the quote before it in that session.
    pub fn observe(&mut self, quote: &QuoteEvidence, maximum_unchanged_seconds: i64) -> (r: Result<
        (),
        LiveError,
    >)
        ensures
            match observed(*old(self), *quote, maximum_unchanged_seconds) {
                Ok(after) => r == Ok::<(), LiveError>(()) && *final(self) == after,
                Err(e) => r == Err::<(), LiveError>(e) && *final(self) == *old(self),
            },
    {
        let session = market_session_key(quote.observed_at);
        if session.is_none() {
            return Err(LiveError::OutsideSession);
        }
        let started = market_session_key(quote.observed_from);
        if quote.observed_at.before(&quote.observed_from) || !same_session(&started, &session) {
            return Err(LiveError::CrossesSession);
        }
        if quote.observed_at.since(&quote.observed_from) > maximum_unchanged_seconds as i128
            * 1_000_000_000 {
            return Err(LiveError::TooLong);
        }
        if same_session(&self.session, &session) {
            match self.last_observed_at {
                None => {
                    return Err(LiveError::NoLiveness);
                },
                Some(last) => if !last.before(&quote.observed_at) {
                    return Err(LiveError::Stale);
                },
            }
        }
        self.session = session;
        self.last_observed_at = Some(quote.observed_at);
        Ok(())
    }
}

/// Storing a bar twice is storing it once, and a stored bar never changes: a bar
/// that differs is refused.
pub proof fn law_stored_bars_stay(
    bars: Seq<(Moment, MarketBarView)>,
    bar: MarketBarView,
    other: MarketBarView,
)
    requires
        crate::table::ordered::<Moment, MarketBarView>(bars),
        stored(bars, bar) is Ok,
        other.timestamp == bar.timestamp,
    ensures
        stored(stored(bars, bar)->Ok_0, bar) == stored(bars, bar),
        lookup::<Moment, MarketBarView>(stored(bars, bar)->Ok_0, bar.timestamp) == Some(bar),
        other != bar ==> stored(stored(bars, bar)->Ok_0, other) == Err::<
            Seq<(Moment, MarketBarView)>,
            LiveError,
        >(LiveError::BarChanged),
{
    crate::table::lemma_with::<Moment, MarketBarView>(bars, bar.timestamp, bar);
}

} // verus!

//! What the worker does with a message from the market.
use crate::clock::{Day, Moment};
use crate::live::schedule::{executable, is_executable_strategy_bar, is_market_session, trades_at_time, LiveError};
use crate::live::watermark::{
    completion_allows_resume, completion_requires_recovery, contiguous, fresh_enough,
    market_bar_is_current, market_timestamp_not_future, market_watermark_is_current,
    market_watermarks_are_contiguous, preferred, preferred_market_liveness_watermark,
    reviewed_completion_liveness_watermark, source_observation_allows_resume,
    source_observation_requires_recovery, source_observation_timeout_requires_recovery,
    silence_stops, stamp_fault, vouches, watermark_current, CompletionGate,
};
use crate::model::ledger::ServiceMode;
use crate::model::market::{MarketBar, MarketBarView};
use crate::model::remote::{MarketReceipt, MarketReceiptView, SourceCompletion, SourceObservation};
use crate::value::Value;
use vstd::prelude::*;

verus! {

/// What is known of an observation of the source.
#[derive(Clone, Copy, Debug, PartialEq, Eq, Structural)]
pub struct ObservationGate {
    pub current: bool,
    pub previous_current: bool,
    pub matches_today: bool,
}

/// What is known of an observation of the source.
pub open spec fn observation_gate(o: SourceObservation, now: Moment, limit: i64) -> Result<
    ObservationGate,
    LiveError,
> {
    match watermark_current(Some(o.observed_at_us), now, limit) {
        Err(e) => Err(e),
        Ok(current) => match contiguous(o.previous_observed_at_us, o.observed_at_us, limit) {
            Err(e) => Err(e),
            Ok(previous_current) => Ok(
                ObservationGate {
                    current,
                    previous_current,
                    matches_today: o.session_date == Day::of(now.d()),
                },
            ),
        },
    }
}

/// What is known of an observation of the source.
pub fn judge_observation(o: &SourceObservation, now: Moment, limit: i64) -> (r: Result<
    ObservationGate,
    LiveError,
>)
    ensures
        r == observation_gate(*o, now, limit),
{
    let current = market_watermark_is_current(Some(o.observed_at_us), now, limit)?;
    let previous_current = market_watermarks_are_contiguous(
        o.previous_observed_at_us,
        o.observed_at_us,
        limit,
    )?;
    let today = now.day();
    Ok(ObservationGate { current, previous_current, matches_today: o.session_date.same(&today) })
}

/// Whether the first `n` bars are all current.
pub open spec fn bars_current(bars: Seq<MarketBarView>, now: Moment, limit: i64, n: nat) -> Result<
    bool,
    LiveError,
>
    decreases n,
{
    if n == 0 {
        Ok(true)
    } else {
        match bars_current(bars, now, limit, (n - 1) as nat) {
            Err(e) => Err(e),
            Ok(before) => match fresh_enough(bars[n - 1].timestamp, now, limit) {
                Err(e) => Err(e),
                Ok(current) => Ok(before && current),
            },
        }
    }
}

proof fn lemma_bars_stop(bars: Seq<MarketBarView>, now: Moment, limit: i64, n: nat, m: nat)
    requires
        n <= m,
        bars_current(bars, now, limit, n) is Err,
    ensures
        bars_current(bars, now, limit, m) == bars_current(bars, now, limit, n),
    decreases m - n,
{
    if n < m {
        lemma_bars_stop(bars, now, limit, n, (m - 1) as nat);
    }
}

fn are_bars_current(bars: &Vec<MarketBar>, now: Moment, limit: i64) -> (r: Result<bool, LiveError>)
    ensures
        r == bars_current(bars.deep_view(), now, limit, bars.deep_view().len()),
{
    let ghost all = bars.deep_view();
    let mut current = true;
    let mut i: usize = 0;
    while i < bars.len()
        invariant
            i <= bars.len(),
            all == bars.deep_view(),
            bars_current(all, now, limit, i as nat) == Ok::<bool, LiveError>(current),
        decreases bars.len() - i,
    {
        assert(all[i as int] == bars[i as int]@);
        match market_bar_is_current(bars[i].timestamp, now, limit) {
            Ok(x) => {
                current = current && x;
            },
            Err(e) => {
                proof {
                    lemma_bars_stop(all, now, limit, (i + 1) as nat, all.len());
                }
                return Err(e);
            },
        }
        i = i + 1;
    }
    Ok(current)
}

/// What is known of a completion: by the observation of the source where there
/// is one, by the completion itself otherwise.
pub open spec fn completion_gate(
    c: SourceCompletion,
    bars: Seq<MarketBarView>,
    observed: Option<ObservationGate>,
    now: Moment,
    limit: i64,
) -> Result<CompletionGate, LiveError> {
    let today = Day::of(now.d());
    match bars_current(bars, now, limit, bars.len()) {
        Err(e) => Err(e),
        Ok(fresh_bars) => match observed {
            Some(o) => Ok(
                CompletionGate {
                    live: c.live_contiguous,
                    current: o.current,
                    previous_current: o.previous_current,
                    matches_today: c.session_date == today && o.matches_today,
                    released_bars: bars.len() as usize,
                    bars_current: fresh_bars,
                },
            ),
            None => match watermark_current(Some(c.covered_through_us), now, limit) {
                Err(e) => Err(e),
                Ok(current) => match contiguous(
                    c.previous_covered_through_us,
                    c.covered_through_us,
                    limit,
                ) {
                    Err(e) => Err(e),
                    Ok(previous_current) => Ok(
                        CompletionGate {
                            live: c.live_contiguous,
                            current,
                            previous_current,
                            matches_today: c.session_date == today,
                            released_bars: bars.len() as usize,
                            bars_current: fresh_bars,
                        },
                    ),
                },
            },
        },
    }
}

/// What is known of a completion.
pub fn judge_completion(
    c: &SourceCompletion,
    bars: &Vec<MarketBar>,
    observed: Option<ObservationGate>,
    now: Moment,
    limit: i64,
) -> (r: Result<CompletionGate, LiveError>)
    ensures
        r == completion_gate(*c, bars.deep_view(), observed, now, limit),
{
    let fresh_bars = are_bars_current(bars, now, limit)?;
    let today = now.day();
    let of_today = c.session_date.same(&today);
    match observed {
        Some(o) => Ok(
            CompletionGate {
                live: c.live_contiguous,
                current: o.current,
                previous_current: o.previous_current,
                matches_today: of_today && o.matches_today,
                released_bars: bars.len(),
                bars_current: fresh_bars,
            },
        ),
        None => {
            let current = market_watermark_is_current(Some(c.covered_through_us), now, limit)?;
            let previous_current = market_watermarks_are_contiguous(
                c.previous_covered_through_us,
                c.covered_through_us,
                limit,
            )?;
            Ok(
                CompletionGate {
                    live: c.live_contiguous,
                    current,
                    previous_current,
                    matches_today: of_today,
                    released_bars: bars.len(),
                    bars_current: fresh_bars,
                },
            )
        },
    }
}

/// What the worker finds out about a message before it acts on it.
#[derive(Clone, Copy, Debug, PartialEq, Eq, Structural)]
pub struct Verdict {
    pub observation: Option<ObservationGate>,
    pub completion: Option<CompletionGate>,
    /// The watermark of the last completion that vouched for the market.
    pub reviewed_at_us: Option<u64>,
    /// Whether trading stops before the bars of the message.
    pub enter_recovery: bool,
}

/// The observation that a message is judged by.
pub open spec fn judged_observation(observed: Option<SourceObservation>, now: Moment, limit: i64) -> Result<
    Option<ObservationGate>,
    LiveError,
> {
    match observed {
        None => Ok(None),
        Some(o) => match observation_gate(o, now, limit) {
            Err(e) => Err(e),
            Ok(g) => Ok(Some(g)),
        },
    }
}

/// What the worker finds out about a message.
pub open spec fn verdict(
    mode: ServiceMode,
    receipt: MarketReceiptView,
    observed: Option<SourceObservation>,
    reviewed: Option<u64>,
    now: Moment,
    limit: i64,
) -> Result<Verdict, LiveError> {
    match stamp_fault(receipt.event_timestamp_us, now) {
        Some(e) => Err(e),
        None => match stamp_fault(receipt.received_timestamp_us, now) {
            Some(e) => Err(e),
            None => match judged_observation(observed, now, limit) {
                Err(e) => Err(e),
                Ok(observation) => match receipt.completion {
                    None => Ok(
                        Verdict {
                            observation,
                            completion: None,
                            reviewed_at_us: reviewed,
                            enter_recovery: false,
                        },
                    ),
                    Some(c) => match completion_gate(c, receipt.bars, observation, now, limit) {
                        Err(e) => Err(e),
                        Ok(g) => Ok(
                            Verdict {
                                observation,
                                completion: Some(g),
                                reviewed_at_us: if vouches(g) {
                                    Some(receipt.received_timestamp_us)
                                } else {
                                    reviewed
                                },
                                enter_recovery: mode == ServiceMode::Running && !vouches(g),
                            },
                        ),
                    },
                },
            },
        },
    }
}

/// What the worker finds out about a message: how current it is, and whether
/// trading stops before its bars.
pub fn judge_message(
    mode: ServiceMode,
    receipt: &MarketReceipt,
    observed: Option<SourceObservation>,
    reviewed: Option<u64>,
    now: Moment,
    limit: i64,
) -> (r: Result<Verdict, LiveError>)
    ensures
        r == verdict(mode, receipt@, observed, reviewed, now, limit),
{
    market_timestamp_not_future(receipt.event_timestamp_us, now)?;
    market_timestamp_not_future(receipt.received_timestamp_us, now)?;
    let observation = match observed {
        None => None,
        Some(o) => Some(judge_observation(&o, now, limit)?),
    };
    match &receipt.completion {
        None => Ok(
            Verdict {
                observation,
                completion: None,
                reviewed_at_us: reviewed,
                enter_recovery: false,
            },
        ),
        Some(c) => {
            let g = judge_completion(c, &receipt.bars, observation, now, limit)?;
            Ok(
                Verdict {
                    observation,
                    completion: Some(g),
                    reviewed_at_us: reviewed_completion_liveness_watermark(
                        reviewed,
                        g.live,
                        g.current,
                        g.previous_current,
                        g.matches_today,
                        g.released_bars,
                        g.bars_current,
                        receipt.received_timestamp_us,
                    ),
                    enter_recovery: completion_requires_recovery(
                        mode,
                        g.live,
                        g.current,
                        g.previous_current,
                        g.matches_today,
                        g.released_bars,
                        g.bars_current,
                    ),
                },
            )
        },
    }
}

/// What is done with a bar.
#[derive(Clone, Copy, Debug, PartialEq, Eq, Structural)]
pub enum BarAction {
    /// It is only stored.
    Store,
    /// The account is reconciled and the strategy acts on it.
    Trade,
    /// It is caught up with.
    Recover,
}

/// What is done with a bar.
pub fn bar_action(mode: ServiceMode, bar: &MarketBar) -> (r: BarAction)
    ensures
        r == (if mode != ServiceMode::Running {
            BarAction::Recover
        } else if executable(bar@.timestamp) {
            BarAction::Trade
        } else {
            BarAction::Store
        }),
{
    if mode != ServiceMode::Running {
        BarAction::Recover
    } else if is_executable_strategy_bar(bar) {
        BarAction::Trade
    } else {
        BarAction::Store
    }
}

/// The watermark with which trading goes on after a completion, if it does.
pub open spec fn resumed_by_completion(
    mode: ServiceMode,
    v: Verdict,
    observed: Option<SourceObservation>,
    boundary: bool,
    now: Moment,
) -> Result<Option<u64>, LiveError> {
    match v.completion {
        None => Ok(None),
        Some(g) => if mode == ServiceMode::ReadOnly && vouches(g) && boundary && trades_at_time(now) {
            match preferred(match observed {
                Some(o) => Some(o.observed_at_us),
                None => None,
            }, v.reviewed_at_us) {
                Some(us) => Ok(Some(us)),
                None => Err(LiveError::NoLiveness),
            }
        } else {
            Ok(None)
        },
    }
}

/// The watermark with which trading goes on after the bars of a message, if its
/// completion lets it.
pub fn resume_by_completion(
    mode: ServiceMode,
    v: &Verdict,
    observed: Option<SourceObservation>,
    boundary: bool,
    now: Moment,
) -> (r: Result<Option<u64>, LiveError>)
    ensures
        r == resumed_by_completion(mode, *v, observed, boundary, now),
{
    let g = match &v.completion {
        Some(g) => g,
        None => {
            return Ok(None);
        },
    };
    if completion_allows_resume(
        mode,
        g.live,
        g.current,
        g.previous_current,
        g.matches_today,
        g.released_bars,
        g.bars_current,
    ) && boundary && is_market_session(now) {
        let seen: Option<u64> = match observed {
            Some(o) => Some(o.observed_at_us),
            None => None,
        };
        match preferred_market_liveness_watermark(seen, v.reviewed_at_us) {
            Some(us) => Ok(Some(us)),
            None => Err(LiveError::NoLiveness),
        }
    } else {
        Ok(None)
    }
}

/// Whether an observation vouches for the market.
pub open spec fn observation_vouches(o: ObservationGate) -> bool {
    o.current && o.previous_current && o.matches_today
}

/// Whether a message stops trading by what it observed of the source. Only a
/// message that `observed` the source does.
pub open spec fn stopped_by_observation(mode: ServiceMode, v: Verdict, observed: bool) -> bool {
    observed && (v.observation matches Some(o) && mode == ServiceMode::Running
        && !observation_vouches(o))
}

/// Whether a message stops trading by what it observed of the source.
pub fn observation_stops(mode: ServiceMode, v: &Verdict, observed: bool) -> (r: bool)
    ensures
        r == stopped_by_observation(mode, *v, observed),
{
    if !observed {
        return false;
    }
    match &v.observation {
        Some(o) => source_observation_requires_recovery(
            mode,
            o.current,
            o.previous_current,
            o.matches_today,
        ),
        None => false,
    }
}

/// Whether a message lets trading go on by what it observed of the source.
pub open spec fn resumed_by_observation(
    mode: ServiceMode,
    v: Verdict,
    observed: bool,
    boundary: bool,
    now: Moment,
) -> bool {
    observed && (v.observation matches Some(o) && mode == ServiceMode::ReadOnly
        && observation_vouches(o) && boundary && trades_at_time(now))
}

/// Whether a message lets trading go on by what it observed of the source.
pub fn observation_resumes(
    mode: ServiceMode,
    v: &Verdict,
    observed: bool,
    boundary: bool,
    now: Moment,
) -> (r: bool)
    ensures
        r == resumed_by_observation(mode, *v, observed, boundary, now),
{
    if !observed {
        return false;
    }
    match &v.observation {
        Some(o) => source_observation_allows_resume(
            mode,
            o.current,
            o.previous_current,
            o.matches_today,
        ) && boundary && is_market_session(now),
        None => false,
    }
}

/// Whether a silence of the market stops trading.
pub fn silence_requires_recovery(
    mode: ServiceMode,
    observed: Option<SourceObservation>,
    reviewed: Option<u64>,
    now: Moment,
    limit: i64,
) -> (r: Result<bool, LiveError>)
    ensures
        r == (if trades_at_time(now) {
            silence_stops(
                mode,
                preferred(
                    match observed {
                        Some(o) => Some(o.observed_at_us),
                        None => None,
                    },
                    reviewed,
                ),
                now,
                limit,
            )
        } else {
            Ok::<bool, LiveError>(false)
        }),
{
    if !is_market_session(now) {
        return Ok(false);
    }
    let seen: Option<u64> = match observed {
        Some(o) => Some(o.observed_at_us),
        None => None,
    };
    source_observation_timeout_requires_recovery(
        mode,
        preferred_market_liveness_watermark(seen, reviewed),
        now,
        limit,
    )
}

/// Whether trading may go on at a moment of a recovery: while the market trades
/// and the watermark is current.
pub open spec fn may_go_on(watermark_us: u64, now: Moment, limit: i64) -> Result<bool, LiveError> {
    if !trades_at_time(now) {
        Ok(false)
    } else {
        watermark_current(Some(watermark_us), now, limit)
    }
}

/// The steps by which trading goes on after a recovery.
#[derive(Clone, Copy, Debug, PartialEq, Eq, Structural)]
pub enum ResumeStep {
    /// The accounts are reconciled.
    Reconcile,
    /// Trading goes on.
    Resume,
    /// The recovery lasts.
    Wait,
}

/// The step after the audit of the remote orders.
pub fn after_audit(watermark_us: u64, now: Moment, limit: i64) -> (r: Result<ResumeStep, LiveError>)
    ensures
        r == (match may_go_on(watermark_us, now, limit) {
            Err(e) => Err::<ResumeStep, LiveError>(e),
            Ok(true) => Ok::<ResumeStep, LiveError>(ResumeStep::Reconcile),
            Ok(false) => Ok::<ResumeStep, LiveError>(ResumeStep::Wait),
        }),
{
    match recovery_may_go_on(watermark_us, now, limit) {
        Err(e) => Err(e),
        Ok(true) => Ok(ResumeStep::Reconcile),
        Ok(false) => Ok(ResumeStep::Wait),
    }
}

/// The step after the accounts were reconciled.
pub fn after_reconciliation(matched: bool, watermark_us: u64, now: Moment, limit: i64) -> (r: Result<
    ResumeStep,
    LiveError,
>)
    ensures
        r == (if !matched {
            Err::<ResumeStep, LiveError>(LiveError::Unreconciled)
        } else {
            match may_go_on(watermark_us, now, limit) {
                Err(e) => Err::<ResumeStep, LiveError>(e),
                Ok(true) => Ok::<ResumeStep, LiveError>(ResumeStep::Resume),
                Ok(false) => Ok::<ResumeStep, LiveError>(ResumeStep::Wait),
            }
        }),
{
    if !matched {
        return Err(LiveError::Unreconciled);
    }
    match recovery_may_go_on(watermark_us, now, limit) {
        Err(e) => Err(e),
        Ok(true) => Ok(ResumeStep::Resume),
        Ok(false) => Ok(ResumeStep::Wait),
    }
}

fn recovery_may_go_on(watermark_us: u64, now: Moment, limit: i64) -> (r: Result<bool, LiveError>)
    ensures
        r == may_go_on(watermark_us, now, limit),
{
    if !is_market_session(now) {
        return Ok(false);
    }
    market_watermark_is_current(Some(watermark_us), now, limit)
}

/// Why a replayed message cannot be trusted, if it cannot.
pub open spec fn replay_fault(receipt: MarketReceiptView, started: Moment) -> Option<LiveError> {
    match stamp_fault(receipt.event_timestamp_us, started) {
        Some(e) => Some(e),
        None => match stamp_fault(receipt.received_timestamp_us, started) {
            Some(e) => Some(e),
            None => {
                let covered = match receipt.completion {
                    Some(c) => stamp_fault(c.covered_through_us, started),
                    None => None,
                };
                match covered {
                    Some(e) => Some(e),
                    None => if some_future(receipt.bars, started) {
                        Some(LiveError::Future)
                    } else {
                        None
                    },
                }
            },
        },
    }
}

/// Whether a bar lies in the future.
pub open spec fn some_future(bars: Seq<MarketBarView>, started: Moment) -> bool {
    exists|i: int|
        0 <= i < bars.len() && (#[trigger] bars[i]).timestamp.position() > started.position()
}

/// Checks that no bar lies in the future.
pub fn validate_recovery_bars_not_future(bars: &Vec<MarketBar>, recovery_started_at: Moment) -> (r:
    Result<(), LiveError>)
    ensures
        r == (if some_future(bars.deep_view(), recovery_started_at) {
            Err::<(), LiveError>(LiveError::Future)
        } else {
            Ok::<(), LiveError>(())
        }),
{
    let ghost all = bars.deep_view();
    let mut i: usize = 0;
    while i < bars.len()
        invariant
            i <= bars.len(),
            all == bars.deep_view(),
            forall|k: int|
                0 <= k < i ==> (#[trigger] all[k]).timestamp.position()
                    <= recovery_started_at.position(),
        decreases bars.len() - i,
    {
        assert(all[i as int] == bars[i as int]@);
        if recovery_started_at.before(&bars[i].timestamp) {
            return Err(LiveError::Future);
        }
        i = i + 1;
    }
    Ok(())
}

/// The bars of the first `n` messages, or why one of them cannot be trusted.
pub open spec fn replayed_bars(receipts: Seq<MarketReceiptView>, started: Moment, n: nat) -> Result<
    Seq<MarketBarView>,
    LiveError,
>
    decreases n,
{
    if n == 0 {
        Ok(Seq::empty())
    } else {
        match replayed_bars(receipts, started, (n - 1) as nat) {
            Err(e) => Err(e),
            Ok(bars) => match replay_fault(receipts[n - 1], started) {
                Some(e) => Err(e),
                None => Ok(bars + receipts[n - 1].bars),
            },
        }
    }
}

proof fn lemma_replay_stops(receipts: Seq<MarketReceiptView>, started: Moment, n: nat, m: nat)
    requires
        n <= m,
        replayed_bars(receipts, started, n) is Err,
    ensures
        replayed_bars(receipts, started, m) == replayed_bars(receipts, started, n),
    decreases m - n,
{
    if n < m {
        lemma_replay_stops(receipts, started, n, (m - 1) as nat);
    }
}

fn check_replayed(receipt: &MarketReceipt, started: Moment) -> (r: Result<(), LiveError>)
    ensures
        r == (match replay_fault(receipt@, started) {
            Some(e) => Err::<(), LiveError>(e),
            None => Ok::<(), LiveError>(()),
        }),
{
    market_timestamp_not_future(receipt.event_timestamp_us, started)?;
    market_timestamp_not_future(receipt.received_timestamp_us, started)?;
    if let Some(c) = &receipt.completion {
        market_timestamp_not_future(c.covered_through_us, started)?;
    }
    validate_recovery_bars_not_future(&receipt.bars, started)
}

/// The bars of the messages that were received before the worker started.
pub fn replay_market_messages(receipts: &Vec<MarketReceipt>, recovery_started_at: Moment) -> (r:
    Result<Vec<MarketBar>, LiveError>)
    ensures
        match replayed_bars(receipts.deep_view(), recovery_started_at, receipts.deep_view().len()) {
            Ok(bars) => r matches Ok(x) && x.deep_view() == bars,
            Err(e) => r matches Err(x) && x == e,
        },
{
    let ghost all = receipts.deep_view();
    let mut out: Vec<MarketBar> = Vec::new();
    assert(out.deep_view() =~= Seq::<MarketBarView>::empty());
    let mut i: usize = 0;
    while i < receipts.len()
        invariant
            i <= receipts.len(),
            all == receipts.deep_view(),
            replayed_bars(all, recovery_started_at, i as nat) == Ok::<
                Seq<MarketBarView>,
                LiveError,
            >(out.deep_view()),
        decreases receipts.len() - i,
    {
        assert(all[i as int] == receipts[i as int]@);
        if let Err(e) = check_replayed(&receipts[i], recovery_started_at) {
            proof {
                lemma_replay_stops(all, recovery_started_at, (i + 1) as nat, all.len());
            }
            return Err(e);
        }
        let ghost before = out.deep_view();
        let bars = &receipts[i].bars;
        let ghost more = bars.deep_view();
        let mut k: usize = 0;
        assert(before + more.subrange(0, 0) =~= before);
        while k < bars.len()
            invariant
                k <= bars.len(),
                more == bars.deep_view(),
                out.deep_view() == before + more.subrange(0, k as int),
            decreases bars.len() - k,
        {
            assert(more[k as int] == bars[k as int]@);
            let ghost so_far = out.deep_view();
            out.push(bars[k].dup());
            assert(out.deep_view() =~= so_far.push(more[k as int]));
            assert(out.deep_view() =~= before + more.subrange(0, k + 1));
            k = k + 1;
        }
        assert(more.subrange(0, more.len() as int) =~= more);
        i = i + 1;
    }
    Ok(out)
}

/// A message that stops trading does not let it go on: a completion that stops
/// it does not resume it, and an observation that stops it does not either, at
/// whatever moment and boundary.
pub proof fn law_a_message_does_not_stop_and_resume(
    mode: ServiceMode,
    receipt: MarketReceiptView,
    observed: Option<SourceObservation>,
    reviewed: Option<u64>,
    now: Moment,
    limit: i64,
    later_mode: ServiceMode,
    boundary: bool,
)
    ensures
        verdict(mode, receipt, observed, reviewed, now, limit) matches Ok(v) ==> v.enter_recovery
            ==> resumed_by_completion(later_mode, v, observed, boundary, now) == Ok::<
            Option<u64>,
            LiveError,
        >(None),
        verdict(mode, receipt, observed, reviewed, now, limit) matches Ok(v)
            ==> stopped_by_observation(mode, v, true) ==> !resumed_by_observation(
            later_mode,
            v,
            true,
            boundary,
            now,
        ),
{
}

} // verus!

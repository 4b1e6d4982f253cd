//! What holds of every live worker: what keeps it trading, what stops it, and what the
//! remote account has to show.
use crate::clock::{
    local_moment, nanos_between, weekday_number, Day, Moment, DAY_SECONDS, EPOCH_DAY,
};
use crate::data::bar_fault;
use crate::decimal::{
    adds_exactly, from_parts, lemma_of_parts, lemma_plus_exact, lemma_times_whole,
    multiplies_exactly, over, read_decimal, times, Decimal,
};
use crate::input_laws::{law_local_is_eight_hours_ahead, law_time_between, seconds_of};
use crate::live::bars::{log_fault, observed, PriceFreshness, QuoteEvidence};
use crate::live::recovery::{
    bars_current, completion_gate, may_go_on, observation_gate, replay_fault, resumed_by_completion,
    resumed_by_observation, stopped_by_observation, verdict, BarAction, Verdict,
};
use crate::live::remote::{
    ended_as, evidence_totals, last_record, one_more_fill, permitted, remote_price, terminal,
    RemoteError, RemoteTerminal,
};
use crate::live::schedule::{boundary_delay, executable, session_key, trades_at_time, LiveError};
use crate::live::watermark::{contiguous, silence_stops, stamp_fault, vouches, watermark_current};
use crate::live::worker::{action_on, next_step, MessageStage, RecoveryReason, WorkerAction};
use crate::model::ledger::{FillView, ServiceMode};
use crate::model::market::{Direction, MarketBarView};
use crate::model::remote::{
    MarketReceiptView, ModeledFillView, RemoteFillView, SimulationOrderRecordView, SourceCompletion,
    SourceObservation, StagedIntentView,
};
use crate::table::lookup;
use vstd::prelude::*;

verus! {

/// The nanoseconds of a local moment since the epoch.
pub open spec fn since_epoch(now: Moment) -> int {
    (seconds_of(now) - 8 * 3600 - EPOCH_DAY * DAY_SECONDS) * 1_000_000_000 + now.n()
}

/// A watermark is current when it is no older than the limit; one of the future is an
/// error, and none at all is not current.
pub proof fn law_watermarks_age(us: u64, now: Moment, limit: i64)
    requires
        now.valid(),
        now.n() < 1_000_000_000,
        local_moment(us as int) is Some,
    ensures
        us * 1000 > since_epoch(now) ==> watermark_current(Some(us), now, limit) == Err::<
            bool,
            LiveError,
        >(LiveError::Future),
        us * 1000 <= since_epoch(now) ==> watermark_current(Some(us), now, limit) == Ok::<
            bool,
            LiveError,
        >(since_epoch(now) - us * 1000 <= limit * 1_000_000_000),
        watermark_current(None, now, limit) == Ok::<bool, LiveError>(false),
{
    law_local_is_eight_hours_ahead(us as int);
    let at = local_moment(us as int)->0;
    assert(at.n() < 1_000_000_000);
    law_time_between(at, now);
}

/// A time stamp is trusted exactly when it is a time of the calendar that is not in the
/// future.
pub proof fn law_stamps_are_of_the_past(us: u64, now: Moment)
    requires
        now.valid(),
        now.n() < 1_000_000_000,
    ensures
        local_moment(us as int) is None ==> stamp_fault(us, now) == Some(LiveError::Clock),
        local_moment(us as int) is Some ==> stamp_fault(us, now) == (if us * 1000 > since_epoch(
            now,
        ) {
            Some(LiveError::Future)
        } else {
            None
        }),
{
    law_local_is_eight_hours_ahead(us as int);
    if let Some(at) = local_moment(us as int) {
        let a = seconds_of(at);
        let b = seconds_of(now);
        assert(at.n() < 1_000_000_000);
        assert(at.position() == a * 2_000_000_000 + at.n());
        assert(now.position() == b * 2_000_000_000 + now.n());
        assert(at.position() > now.position() <==> a * 1_000_000_000 + at.n() > b * 1_000_000_000
            + now.n());
    }
}

/// Watermarks are contiguous when the later one is within the gap of the earlier one;
/// going back is an error, and a first one has nothing to follow.
pub proof fn law_watermarks_follow_closely(before: u64, after: u64, gap: i64)
    requires
        0 <= gap <= 1_000_000_000,
    ensures
        after < before ==> contiguous(Some(before), after, gap) == Err::<bool, LiveError>(
            LiveError::Backwards,
        ),
        after >= before ==> contiguous(Some(before), after, gap) == Ok::<bool, LiveError>(
            after - before <= gap * 1_000_000,
        ),
        contiguous(None, after, gap) == Ok::<bool, LiveError>(false),
{
}

/// Silence stops trading exactly where the service runs and its watermark is not current.
pub proof fn law_silence_stops_a_running_service(
    mode: ServiceMode,
    observed_at: Option<u64>,
    now: Moment,
    limit: i64,
)
    ensures
        mode != ServiceMode::Running ==> silence_stops(mode, observed_at, now, limit) == Ok::<
            bool,
            LiveError,
        >(false),
        mode == ServiceMode::Running ==> (watermark_current(observed_at, now, limit) matches Ok(c)
            ==> silence_stops(mode, observed_at, now, limit) == Ok::<bool, LiveError>(!c)),
        mode == ServiceMode::Running && observed_at is None ==> silence_stops(
            mode,
            observed_at,
            now,
            limit,
        ) == Ok::<bool, LiveError>(true),
{
}

proof fn lemma_bars_current(bars: Seq<MarketBarView>, now: Moment, limit: i64, n: nat)
    requires
        n <= bars.len(),
    ensures
        bars_current(bars, now, limit, n) matches Ok(b) ==> {
            &&& forall|i: int|
                0 <= i < n ==> nanos_between((#[trigger] bars[i]).timestamp, now) >= 0
            &&& b <==> forall|i: int|
                0 <= i < n ==> nanos_between((#[trigger] bars[i]).timestamp, now) <= limit
                    * 1_000_000_000
        },
    decreases n,
{
    if n > 0 {
        lemma_bars_current(bars, now, limit, (n - 1) as nat);
    }
}

/// What a completion shows: that it is live, how many bars it released, and whether none
/// of them is older than the limit. Without an observation its own watermark has to be
/// current, to follow the one before it within the limit, and to be of the day; with one
/// the observation is asked instead.
pub proof fn law_completions_show_the_market(
    c: SourceCompletion,
    bars: Seq<MarketBarView>,
    now: Moment,
    limit: i64,
)
    requires
        bars.len() <= usize::MAX,
    ensures
        completion_gate(c, bars, None, now, limit) matches Ok(g) ==> {
            &&& g.live == c.live_contiguous
            &&& g.matches_today == (c.session_date == Day::of(now.d()))
            &&& g.released_bars == bars.len()
            &&& watermark_current(Some(c.covered_through_us), now, limit) == Ok::<bool, LiveError>(
                g.current,
            )
            &&& contiguous(c.previous_covered_through_us, c.covered_through_us, limit) == Ok::<
                bool,
                LiveError,
            >(g.previous_current)
            &&& g.bars_current <==> forall|i: int|
                0 <= i < bars.len() ==> nanos_between((#[trigger] bars[i]).timestamp, now) <= limit
                    * 1_000_000_000
        },
        forall|o: crate::live::recovery::ObservationGate|
            #[trigger] completion_gate(c, bars, Some(o), now, limit) matches Ok(g) ==> {
                &&& g.live == c.live_contiguous
                &&& g.current == o.current && g.previous_current == o.previous_current
                &&& g.matches_today == (c.session_date == Day::of(now.d()) && o.matches_today)
                &&& g.released_bars == bars.len()
            },
{
    lemma_bars_current(bars, now, limit, bars.len());
}

/// What an observation shows: whether it is current, follows the one before it within the
/// limit, and is of the day.
pub proof fn law_observations_show_the_source(o: SourceObservation, now: Moment, limit: i64)
    ensures
        observation_gate(o, now, limit) matches Ok(g) ==> {
            &&& g.matches_today == (o.session_date == Day::of(now.d()))
            &&& watermark_current(Some(o.observed_at_us), now, limit) == Ok::<bool, LiveError>(
                g.current,
            )
            &&& contiguous(o.previous_observed_at_us, o.observed_at_us, limit) == Ok::<
                bool,
                LiveError,
            >(g.previous_current)
        },
{
}

/// A running service goes into recovery exactly when a completion does not vouch for the
/// market: where it is not live, not current, does not follow, is of another day, releases
/// more than one bar or an old one. A message without a completion never does it, and only
/// one that vouches moves the reviewed watermark, to when it was received.
pub proof fn law_recovery_is_entered_for_cause(
    mode: ServiceMode,
    receipt: MarketReceiptView,
    seen: Option<SourceObservation>,
    reviewed: Option<u64>,
    now: Moment,
    limit: i64,
)
    ensures
        verdict(mode, receipt, seen, reviewed, now, limit) matches Ok(v) ==> {
            &&& receipt.completion is None ==> !v.enter_recovery && v.reviewed_at_us == reviewed
            &&& receipt.completion is Some ==> (v.completion matches Some(g) && {
                let good = g.live && g.current && g.previous_current && g.matches_today
                    && g.released_bars <= 1 && g.bars_current;
                &&& v.enter_recovery <==> mode == ServiceMode::Running && !good
                &&& good ==> v.reviewed_at_us == Some(receipt.received_timestamp_us)
                &&& !good ==> v.reviewed_at_us == reviewed
            })
            &&& stamp_fault(receipt.event_timestamp_us, now) is None
            &&& stamp_fault(receipt.received_timestamp_us, now) is None
        },
{
}

/// Trading goes on only from a read-only service, at the end of a bar, while the market
/// trades, and by a completion or an observation that vouches for the market.
pub proof fn law_trading_resumes_for_cause(
    mode: ServiceMode,
    v: Verdict,
    seen: Option<SourceObservation>,
    received: bool,
    boundary: bool,
    now: Moment,
)
    ensures
        resumed_by_completion(mode, v, seen, boundary, now) matches Ok(Some(us)) ==> {
            &&& mode == ServiceMode::ReadOnly && boundary && trades_at_time(now)
            &&& v.completion matches Some(g) && g.live && g.current && g.previous_current
                && g.matches_today && g.released_bars <= 1 && g.bars_current
            &&& seen matches Some(o) ==> us == o.observed_at_us
            &&& seen is None ==> v.reviewed_at_us == Some(us)
        },
        resumed_by_observation(mode, v, received, boundary, now) <==> received && mode
            == ServiceMode::ReadOnly && boundary && trades_at_time(now) && (
        v.observation matches Some(o) && o.current && o.previous_current && o.matches_today),
        stopped_by_observation(mode, v, received) <==> received && mode == ServiceMode::Running && (
        v.observation matches Some(o) && !(o.current && o.previous_current && o.matches_today)),
{
}

/// A recovery goes on only while the market trades and its watermark is current.
pub proof fn law_recovery_ends_in_market_time(us: u64, now: Moment, limit: i64)
    ensures
        !trades_at_time(now) ==> may_go_on(us, now, limit) == Ok::<bool, LiveError>(false),
        trades_at_time(now) ==> may_go_on(us, now, limit) == watermark_current(
            Some(us),
            now,
            limit,
        ),
{
}

/// A replayed message is trusted exactly when none of its stamps and none of its bars is
/// of the future.
pub proof fn law_replays_are_of_the_past(receipt: MarketReceiptView, started: Moment)
    ensures
        replay_fault(receipt, started) is None <==> {
            &&& stamp_fault(receipt.event_timestamp_us, started) is None
            &&& stamp_fault(receipt.received_timestamp_us, started) is None
            &&& receipt.completion matches Some(c) ==> stamp_fault(
                c.covered_through_us,
                started,
            ) is None
            &&& forall|i: int|
                0 <= i < receipt.bars.len() ==> (#[trigger] receipt.bars[i]).timestamp.position()
                    <= started.position()
        },
{
}

/// The market trades from Monday to Friday, from half past nine to before half past eleven
/// and from one to before three.
pub proof fn law_market_hours(at: Moment)
    ensures
        trades_at_time(at) <==> weekday_number(at.d()) <= 5 && ((19 * 3600 <= 2 * at.s() && 2
            * at.s() < 23 * 3600) || (13 * 3600 <= at.s() && at.s() < 15 * 3600)),
        session_key(at) matches Some(k) ==> k.0 == Day::of(at.d()) && (k.1 == 0 <==> at.s() < 12
            * 3600) && k.1 <= 1,
{
}

/// The strategy acts on bars from five minutes into a session to five minutes before its
/// end, both included to the instant.
pub proof fn law_executable_bars(at: Moment)
    requires
        0 <= at.n() < 1_000_000_000,
    ensures
        ({
            let ns = at.s() * 1_000_000_000 + at.n();
            let minute = 60_000_000_000int;
            executable(at) <==> (575 * minute <= ns && ns <= 685 * minute) || (785 * minute <= ns
                && ns <= 895 * minute)
        }),
{
}

/// The second at which the session of a moment starts.
pub open spec fn session_start(at: Moment) -> int {
    if at.s() < 12 * 3600 {
        34_200
    } else {
        46_800
    }
}

/// A quote waits for the end of a bar exactly where that is at most the budget away: it
/// waits so many seconds that it comes out at the end.
pub proof fn law_quotes_wait_for_the_end_of_a_bar(at: Moment, minutes: u32)
    requires
        0 <= at.n() < 1_000_000_000,
        minutes >= 1,
    ensures
        ({
            let width = minutes * 60;
            let start = session_start(at);
            match boundary_delay(at, minutes) {
                Ok(Some(d)) => 0 < d <= 20 && (at.s() + d - start) % width == 0,
                Ok(None) => (34_200 <= at.s() < 41_400 || 46_800 <= at.s() < 54_000) ==> forall|
                    d: int,
                |
                    0 < d <= 20 ==> #[trigger] ((at.s() + d - start) % width) != 0 || (at.s()
                        - start) % width == 0,
                Err(e) => false,
            }
        }),
{
    let width = minutes * 60;
    let start = session_start(at);
    let x = at.s() - start;
    if 34_200 <= at.s() < 41_400 || 46_800 <= at.s() < 54_000 {
        let into = x % width;
        vstd::arithmetic::div_mod::lemma_fundamental_div_mod(x, width);
        assert forall|d: int| 0 < d <= 20 implies (#[trigger] ((x + d) % width) == 0 <==> into + d
            == width || (into + d) % width == 0) by {
            vstd::arithmetic::div_mod::lemma_add_mod_noop(x, d, width);
            vstd::arithmetic::div_mod::lemma_mod_twice(x, width);
            vstd::arithmetic::div_mod::lemma_small_mod(d as nat, width as nat);
            assert((into + d) % width == (x + d) % width);
            vstd::arithmetic::div_mod::lemma_mod_self_0(width);
        }
        assert forall|d: int| 0 < d <= 20 implies #[trigger] ((at.s() + d - start) % width) == ((x
            + d) % width) by {
            assert(at.s() + d - start == x + d);
        }
        assert forall|d: int| 0 < d <= 20 && into + d < width implies #[trigger] ((x + d) % width)
            == into + d by {
            vstd::arithmetic::div_mod::lemma_add_mod_noop(x, d, width);
            vstd::arithmetic::div_mod::lemma_mod_twice(x, width);
            vstd::arithmetic::div_mod::lemma_small_mod(d as nat, width as nat);
            vstd::arithmetic::div_mod::lemma_small_mod((into + d) as nat, width as nat);
        }
        if let Ok(Some(d)) = boundary_delay(at, minutes) {
            assert((x + d) % width == 0);
            assert((at.s() + d - start) % width == 0);
        }
    }
}

/// Only a running service trades, and only on bars that the strategy acts on; one that does
/// not run takes every bar for its recovery.
pub proof fn law_only_running_services_trade(mode: ServiceMode, bar: MarketBarView)
    ensures
        action_on(mode, bar) == BarAction::Trade <==> mode == ServiceMode::Running && executable(
            bar.timestamp,
        ),
        action_on(mode, bar) == BarAction::Recover <==> mode != ServiceMode::Running,
        action_on(mode, bar) == BarAction::Store <==> mode == ServiceMode::Running && !executable(
            bar.timestamp,
        ),
{
}

/// A quote is taken only within one session, made within the limit and after the one
/// before it in the session; it is remembered with its session.
pub proof fn law_quotes_are_fresh(f: PriceFreshness, q: QuoteEvidence, limit: i64)
    ensures
        observed(f, q, limit) matches Ok(g) ==> {
            &&& session_key(q.observed_at) is Some
            &&& session_key(q.observed_from) == session_key(q.observed_at)
            &&& q.observed_from.position() <= q.observed_at.position()
            &&& nanos_between(q.observed_from, q.observed_at) <= limit * 1_000_000_000
            &&& f.session == g.session ==> (f.last_observed_at matches Some(last)
                && last.position() < q.observed_at.position())
            &&& g.session == session_key(q.observed_at)
            &&& g.last_observed_at == Some(q.observed_at)
        },
{
}

/// The bars of a log are each in order, and each is later than all before it.
pub proof fn law_logged_bars_increase(log: Seq<MarketBarView>, symbol: Seq<char>, n: nat)
    requires
        n <= log.len(),
        log_fault(log, symbol, n) is None,
    ensures
        forall|i: int| 0 <= i < n ==> bar_fault(#[trigger] log[i], symbol) is None,
        forall|i: int, j: int|
            0 <= i < j < n ==> (#[trigger] log[i]).timestamp.position() < (
            #[trigger] log[j]).timestamp.position(),
    decreases n,
{
    if n > 0 {
        law_logged_bars_increase(log, symbol, (n - 1) as nat);
        assert forall|i: int, j: int| 0 <= i < j < n implies (#[trigger] log[i]).timestamp.position()
            < (#[trigger] log[j]).timestamp.position() by {
            if j == n - 1 && i < n - 2 {
                assert(log[i].timestamp.position() < log[n - 2].timestamp.position());
            }
        }
    }
}

/// A remote order was cancelled exactly when it says so and all of it is cancelled, and
/// filled exactly when it says so, nothing of it is cancelled and it shows a positive
/// price.
pub proof fn law_remote_orders_end(r: SimulationOrderRecordView)
    ensures
        terminal(r) == Ok::<Option<RemoteTerminal>, RemoteError>(Some(RemoteTerminal::Cancelled))
            <==> r.quantity > 0 && r.cancelled_quantity == r.quantity && r.remark == "全部撤单"@,
        terminal(r) == Ok::<Option<RemoteTerminal>, RemoteError>(Some(RemoteTerminal::Filled))
            <==> r.quantity > 0 && r.cancelled_quantity == 0 && r.remark == "全部成交"@ && (
        r.fill_price matches Some(text) && (from_parts(read_decimal(text)) matches Some(p) && p.m()
            > 0)),
        terminal(r) == Err::<Option<RemoteTerminal>, RemoteError>(RemoteError::Partition)
            <==> r.quantity <= 0 || r.cancelled_quantity < 0 || r.cancelled_quantity > r.quantity,
{
}

/// One more fill adds its shares and their price to what was modeled, which has to be of
/// the same direction.
pub proof fn law_modeled_fills_add_up(held: Option<ModeledFillView>, f: FillView)
    requires
        f.price.valid(),
        multiplies_exactly(f.price, Decimal::whole(f.quantity as int)),
        held matches Some(m) ==> m.notional.valid() && (times(
            f.price,
            Decimal::whole(f.quantity as int),
        ) matches Some(v) ==> adds_exactly(m.notional, v)),
    ensures
        one_more_fill(held, f) matches Ok(n) ==> {
            &&& n.direction == f.direction
            &&& held matches Some(m) ==> m.direction == f.direction && n.quantity == m.quantity
                + f.quantity && n.notional.units() == m.notional.units() + f.price.units()
                * f.quantity
            &&& held is None ==> n.quantity == f.quantity && n.notional.units() == f.price.units()
                * f.quantity
        },
{
    lemma_of_parts(0, 0);
    lemma_times_whole(f.price, f.quantity as int);
    let v = times(f.price, Decimal::whole(f.quantity as int))->0;
    if let Some(m) = held {
        lemma_plus_exact(m.notional, v);
    } else {
        lemma_plus_exact(Decimal::zero(), v);
        assert(Decimal::zero().units() == 0);
    }
}

/// The shares of the first `n` fills of some evidence.
pub open spec fn evidence_shares(fills: Seq<RemoteFillView>, n: nat) -> int
    decreases n,
{
    if n == 0 {
        0
    } else {
        evidence_shares(fills, (n - 1) as nat) + fills[n - 1].quantity
    }
}

/// The amount of the first `n` fills of some evidence.
pub open spec fn evidence_amount(fills: Seq<RemoteFillView>, n: nat) -> int
    decreases n,
{
    if n == 0 {
        0
    } else {
        evidence_amount(fills, (n - 1) as nat) + fills[n - 1].amount.units()
    }
}

/// Whether no amount of the first `n` fills has to be rounded.
pub open spec fn evidence_adds_exactly(
    fills: Seq<RemoteFillView>,
    contract: Seq<char>,
    i: StagedIntentView,
    n: nat,
) -> bool
    decreases n,
{
    n == 0 || (evidence_adds_exactly(fills, contract, i, (n - 1) as nat) && fills[n
        - 1].amount.valid() && (evidence_totals(fills, contract, i, (n - 1) as nat) matches Ok(x)
        ==> adds_exactly(x.1, fills[n - 1].amount)))
}

/// The fills of some evidence are of the contract, the symbol and the direction of the
/// order, each is there once, and they come to their shares and their amount.
pub proof fn law_evidence_adds_up(
    fills: Seq<RemoteFillView>,
    contract: Seq<char>,
    i: StagedIntentView,
    n: nat,
)
    requires
        n <= fills.len(),
        evidence_adds_exactly(fills, contract, i, n),
    ensures
        evidence_totals(fills, contract, i, n) matches Ok(x) ==> {
            &&& x.0 == evidence_shares(fills, n)
            &&& x.1.valid() && x.1.units() == evidence_amount(fills, n)
            &&& forall|k: int|
                0 <= k < n ==> (#[trigger] fills[k]).contract_id == contract && fills[k].symbol
                    == i.symbol && fills[k].direction == i.direction
            &&& forall|j: int, k: int|
                0 <= j < k < n ==> (#[trigger] fills[j]).fill_id != (#[trigger] fills[k]).fill_id
        },
    decreases n,
{
    lemma_of_parts(0, 0);
    if n > 0 {
        law_evidence_adds_up(fills, contract, i, (n - 1) as nat);
        if evidence_totals(fills, contract, i, n) is Ok {
            let x = evidence_totals(fills, contract, i, (n - 1) as nat)->Ok_0;
            lemma_plus_exact(x.1, fills[n - 1].amount);
        }
    } else {
        assert(Decimal::zero().units() == 0);
    }
}

/// Where the strategy may act, a filled remote order was filled at the average price of the
/// model or better: a buy no dearer, a sell no cheaper.
pub proof fn law_permits_need_no_worse_prices(
    records: Seq<SimulationOrderRecordView>,
    intents: Seq<StagedIntentView>,
    fills: Seq<(Seq<char>, ModeledFillView)>,
    k: int,
)
    requires
        permitted(records, intents, fills),
        0 <= k < intents.len(),
        intents[k].remote_contract_id is Some,
        ended_as(
            last_record(records, intents[k].remote_contract_id->0, records.len()),
            intents[k],
        ) == Ok::<Option<RemoteTerminal>, RemoteError>(Some(RemoteTerminal::Filled)),
    ensures
        ({
            let i = intents[k];
            let contract = i.remote_contract_id->0;
            &&& lookup::<String, ModeledFillView>(fills, i.order_id) matches Some(m) && (over(
                m.notional,
                Decimal::whole(m.quantity as int),
            ) matches Some(average) && (remote_price(
                last_record(records, contract, records.len()),
                contract,
                i,
                m.quantity,
            ) matches Ok(price) && (i.direction == Direction::Buy ==> price.units()
                <= average.units()) && (i.direction == Direction::Sell ==> price.units()
                >= average.units())))
        }),
{
    crate::live::remote::lemma_no_dominance_faults(records, intents, fills, intents.len(), k);
}

/// What a worker does next has its cause: it goes into recovery by the verdict on the message
/// or by what the message observed, and lets trading go on with the watermark of a completion
/// or of an observation that does so.
pub proof fn law_worker_actions_have_their_cause(
    stage: MessageStage,
    mode: ServiceMode,
    v: Verdict,
    receipt: MarketReceiptView,
    received: bool,
    seen: Option<SourceObservation>,
    boundary: bool,
    now: Moment,
)
    ensures
        next_step(stage, mode, v, receipt, received, seen, boundary, now) matches Ok((action, next)) ==> {
            &&& action == WorkerAction::EnterRecovery(RecoveryReason::WatermarkCatchup)
                ==> v.enter_recovery && stage == MessageStage::Judged
            &&& stage == MessageStage::Judged && v.enter_recovery ==> action
                == WorkerAction::EnterRecovery(RecoveryReason::WatermarkCatchup)
            &&& action == WorkerAction::EnterRecovery(RecoveryReason::ObservationCatchup)
                ==> stopped_by_observation(mode, v, received)
            &&& action matches WorkerAction::Resume(us) ==> {
                ||| resumed_by_completion(mode, v, seen, boundary, now) == Ok::<
                    Option<u64>,
                    LiveError,
                >(Some(us))
                ||| resumed_by_observation(mode, v, received, boundary, now) && (seen matches Some(o)
                    && o.observed_at_us == us)
            }
            &&& action matches WorkerAction::Bar(i, what) ==> i < receipt.bars.len() && what
                == action_on(mode, receipt.bars[i as int])
        },
{
}

} // verus!

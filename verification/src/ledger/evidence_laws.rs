//! What the market and the platform have to show for an event of the ledger.
use crate::audit::first_violation;
use crate::decimal::{
    adds_exactly, lemma_minus_exact, minus, multiplies_exactly, pow10, subtracts_exactly, times,
    Decimal, MAX_SCALE,
};
use crate::decision::DECISION_CONTRACT_VERSION;
use crate::event::kinds::EventType;
use crate::event::levels::small_index;
use crate::event::payload::{EventEnvelopeView, PayloadView};
use crate::event::reduce::applied;
use crate::event::tranches::right_of;
use crate::grid::{grid_of, grid_price};
use crate::grid_laws::{distance, law_levels_clear_by_the_hysteresis, reached, unsigned};
use crate::journal::query::{named_index, Log};
use crate::ledger::evidence::{
    approval_fault, bar_of, committed_fault, crossings_open, last_two, latest_bar, processed_fault,
    rearm_due, rearm_fault, rearms_due, staged,
};
use crate::ledger::writer::{projected_one, single_market_fault};
use crate::model::ledger::{GridLevelState, GridLevelStatus, StrategyStateView};
use crate::model::market::{Direction, MarketBarView};
use crate::model::notices::AppraisalView;
use crate::model::settings::ConfigView;
use crate::table::lookup;
use vstd::prelude::*;

verus! {

/// The index next to one, towards the anchor.
pub open spec fn inward(index: i32) -> i32 {
    if index > 0 {
        (index - 1) as i32
    } else {
        (index + 1) as i32
    }
}

/// Whether no number has to be rounded in how far the market is from a level.
pub open spec fn measures_exactly(level: GridLevelState, inner: Decimal, hysteresis: Decimal) -> bool {
    &&& level.price.valid() && inner.valid() && hysteresis.valid()
    &&& subtracts_exactly(level.price, inner)
    &&& minus(level.price, inner) matches Some(w) ==> multiplies_exactly(unsigned(w), hysteresis)
        && (times(unsigned(w), hysteresis) matches Some(t) ==> (if level.index < 0 {
        adds_exactly(level.price, t)
    } else {
        subtracts_exactly(level.price, t)
    }))
}

/// Whether the market is back from a level: by the hysteresis of the distance to the level
/// next to it, on its inner side.
pub open spec fn is_back(level: GridLevelState, inner: Decimal, close: Decimal, hysteresis: Decimal) -> bool {
    let w = pow10(MAX_SCALE as nat);
    let step = distance(level.price.units() - inner.units());
    if level.index < 0 {
        (close.units() - level.price.units()) * w >= step * hysteresis.units()
    } else {
        (level.price.units() - close.units()) * w >= step * hysteresis.units()
    }
}

/// In the current layout a level is armed again only after it was touched, executed or
/// skipped, on the bar of its event, once the decisions on the bar are committed and before
/// the bar is processed, and only where the market is back from it.
pub proof fn law_levels_are_rearmed_for_cause(
    log: Log,
    s: StrategyStateView,
    e: EventEnvelopeView,
    bar: Option<MarketBarView>,
)
    requires
        e.schema_version >= 2,
        rearm_fault(log, s, e, bar) is None,
        small_index(named_index(e.payload)) matches Some(index) && index != i32::MIN && index
            != i32::MAX && (lookup::<i32, GridLevelState>(s.levels, index) matches Some(level) ==> (
        s.audited_config matches Some(c) ==> (grid_price(grid_of(c), inward(index)) matches Ok(inner)
            ==> measures_exactly(level, inner, c.hysteresis_ratio)))),
    ensures
        ({
            let index = small_index(named_index(e.payload))->0;
            &&& s.audited_config matches Some(c) && (lookup::<i32, GridLevelState>(
                s.levels,
                index,
            ) matches Some(level) && (bar matches Some(x) && (grid_price(
                grid_of(c),
                inward(index),
            ) matches Ok(inner) && {
                &&& level.status == GridLevelStatus::Touched || level.status
                    == GridLevelStatus::Executed || level.status == GridLevelStatus::Skipped
                &&& is_back(level, inner, x.close, c.hysteresis_ratio)
                &&& x.timestamp == e.event_time && x.symbol == s.symbol
                &&& grid_price(grid_of(c), index) matches Ok(p) && p.units() == level.price.units()
            })))
            &&& e.cycle_id == s.cycle_id
            &&& staged(log, s, EventType::MarketBarDecisionsCommitted, e.event_time)
            &&& !staged(log, s, EventType::MarketBarProcessed, e.event_time)
        }),
{
    let index = small_index(named_index(e.payload))->0;
    let c = s.audited_config->0;
    let level = lookup::<i32, GridLevelState>(s.levels, index)->0;
    let x = bar->0;
    let inner = grid_price(grid_of(c), inward(index))->Ok_0;
    lemma_minus_exact(level.price, inner);
    let width = minus(level.price, inner)->0;
    law_levels_clear_by_the_hysteresis(level, x.close, width, c.hysteresis_ratio);
}

proof fn lemma_none_due(s: StrategyStateView, c: ConfigView, close: Decimal, n: nat, i: int)
    requires
        rearms_due(s, c, close, n) == Ok::<bool, crate::ledger::evidence::LedgerError>(false),
        0 <= i < n,
    ensures
        rearm_due(s, c, close, i) == Ok::<bool, crate::ledger::evidence::LedgerError>(false),
    decreases n,
{
    if i < n - 1 {
        lemma_none_due(s, c, close, (n - 1) as nat, i);
    }
}

/// A bar is processed only after its decisions are committed, once, with its close, and when
/// no level is left that the market is back from.
pub proof fn law_processed_bars_leave_no_level_behind(
    log: Log,
    s: StrategyStateView,
    e: EventEnvelopeView,
    bar: MarketBarView,
    i: int,
)
    requires
        processed_fault(log, s, e, bar) is None,
        0 <= i < s.levels.len(),
        i32::MIN < s.levels[i].0 < i32::MAX,
        s.audited_config matches Some(c) ==> (grid_price(grid_of(c), inward(s.levels[i].0)) matches Ok(
            inner,
        ) ==> measures_exactly(s.levels[i].1, inner, c.hysteresis_ratio)),
    ensures
        staged(log, s, EventType::MarketBarDecisionsCommitted, e.event_time),
        !staged(log, s, EventType::MarketBarProcessed, e.event_time),
        s.audited_config matches Some(c) && (grid_price(grid_of(c), inward(s.levels[i].0)) matches Ok(
            inner,
        ) && ({
            let level = s.levels[i].1;
            (level.status == GridLevelStatus::Touched || level.status == GridLevelStatus::Executed
                || level.status == GridLevelStatus::Skipped) ==> !is_back(
                level,
                inner,
                bar.close,
                c.hysteresis_ratio,
            )
        })),
{
    let c = s.audited_config->0;
    lemma_none_due(s, c, bar.close, s.levels.len(), i);
    let level = s.levels[i].1;
    let inner = grid_price(grid_of(c), inward(s.levels[i].0))->Ok_0;
    lemma_minus_exact(level.price, inner);
    law_levels_clear_by_the_hysteresis(
        level,
        bar.close,
        minus(level.price, inner)->0,
        c.hysteresis_ratio,
    );
}

proof fn lemma_none_open(
    s: StrategyStateView,
    c: ConfigView,
    previous: Decimal,
    low: Decimal,
    high: Decimal,
    n: nat,
    i: int,
)
    requires
        crossings_open(s, c, previous, low, high, n) == Ok::<
            bool,
            crate::ledger::evidence::LedgerError,
        >(false),
        0 <= i < n,
        s.levels[i].1.status == GridLevelStatus::Armed || s.levels[i].1.status
            == GridLevelStatus::Rearmed,
    ensures
        grid_price(grid_of(c), s.levels[i].0) matches Ok(p) && !reached(
            s.levels[i].0,
            p.units(),
            previous.units(),
            low.units(),
            high.units(),
        ),
    decreases n,
{
    if i < n - 1 {
        lemma_none_open(s, c, previous, low, high, (n - 1) as nat, i);
    }
}

/// The decisions on a bar are committed once, and only when no waiting level is left that
/// the bar reached from the close of the bar before it.
pub proof fn law_committed_bars_leave_no_crossing_open(
    log: Log,
    s: StrategyStateView,
    e: EventEnvelopeView,
    i: int,
)
    requires
        committed_fault(log, s, e) is None,
        last_two(log, s.run_id).len() == 2,
        0 <= i < s.levels.len(),
        s.levels[i].1.status == GridLevelStatus::Armed || s.levels[i].1.status
            == GridLevelStatus::Rearmed,
    ensures
        !staged(log, s, EventType::MarketBarDecisionsCommitted, e.event_time),
        !staged(log, s, EventType::MarketBarProcessed, e.event_time),
        bar_of(last_two(log, s.run_id)[0]) matches Some(p) && (bar_of(
            last_two(log, s.run_id)[1],
        ) matches Some(x) && x.timestamp == e.event_time && (s.audited_config matches Some(c) && (
        grid_price(grid_of(c), s.levels[i].0) matches Ok(price) && !reached(
            s.levels[i].0,
            price.units(),
            p.close.units(),
            x.low.units(),
            x.high.units(),
        )))),
{
    let p = bar_of(last_two(log, s.run_id)[0])->0;
    let x = bar_of(last_two(log, s.run_id)[1])->0;
    lemma_none_open(s, s.audited_config->0, p.close, x.low, x.high, s.levels.len(), i);
}

/// A bar is received only where it is later than the one that its run received last.
pub proof fn law_received_bars_are_later(log: Log, s: StrategyStateView, e: EventEnvelopeView)
    requires
        single_market_fault(log, s, e) is None,
    ensures
        bar_of(e) matches Some(bar) && (latest_bar(log, s.run_id) matches Ok(before) && (
        before matches Some(p) ==> p.timestamp.position() < bar.timestamp.position())),
{
}

/// A sell order in the current layouts takes what the risk rules approved: so many shares,
/// of these lots, at these costs and worst prices. What a first disposition orders is what
/// they approved, a decision on evidence is on the right as it is and on valid evidence, and
/// a reservation goes from the deepest.
pub proof fn law_approvals_bind(s: StrategyStateView, e: EventEnvelopeView, a: AppraisalView)
    requires
        approval_fault(s, e, a) is None,
    ensures
        e.event_type == EventType::OrderIntentCreated && e.schema_version >= 5 ==> (
        e.payload matches PayloadView::Intent(order) && (order.intent.direction == Direction::Sell
            ==> (a.approval matches Some(x) && order.intent.quantity == x.quantity
            && order.intent.target_lot_allocations.len() == x.sell_allocations.len() && forall|
            i: int,
        |
            0 <= i < x.sell_allocations.len() ==> (
            #[trigger] order.intent.target_lot_allocations[i]).lot_id
                == x.sell_allocations[i].lot_id && order.intent.target_lot_allocations[i].quantity
                == x.sell_allocations[i].quantity
                && order.intent.target_lot_allocations[i].cost_basis.units()
                == x.sell_allocations[i].cost_basis.units()
                && order.intent.target_lot_allocations[i].worst_fill_price.units()
                == x.sell_allocations[i].worst_fill_price.units()))),
        e.schema_version >= 3 && (e.event_type == EventType::GridRightDeferred || e.event_type
            == EventType::GridRightResidualHeld || e.event_type == EventType::GridRightReserved) && !(
        e.payload matches PayloadView::Disposition(x) && x.partial == Some(true)) ==> (
        e.payload matches PayloadView::Disposition(p) && p.order_intent_quantity is Some
            && p.order_intent_quantity == a.approved_quantity),
        e.event_type == EventType::GateDecisionMade ==> (e.payload matches PayloadView::Decision(d)
            && (d.request matches Some(q) && (q.contract_version == DECISION_CONTRACT_VERSION
            ==> a.evidence_valid && right_of(s, q.right.right_id) == Some(q.right)))),
        e.event_type == EventType::RightBalanceReserved ==> (e.payload matches PayloadView::Balance(x)
            && x.allocation_policy == Some("DEEPEST_FIRST_V1"@)),
{
    if e.event_type == EventType::OrderIntentCreated && e.schema_version >= 5 {
        if let PayloadView::Intent(order) = e.payload {
            if order.intent.direction == Direction::Sell {
                let x = a.approval->0;
                assert forall|i: int| 0 <= i < x.sell_allocations.len() implies (
                #[trigger] order.intent.target_lot_allocations[i]).lot_id
                    == x.sell_allocations[i].lot_id
                    && order.intent.target_lot_allocations[i].quantity
                    == x.sell_allocations[i].quantity
                    && order.intent.target_lot_allocations[i].cost_basis.units()
                    == x.sell_allocations[i].cost_basis.units()
                    && order.intent.target_lot_allocations[i].worst_fill_price.units()
                    == x.sell_allocations[i].worst_fill_price.units() by {
                    assert(crate::ledger::evidence::same_part(
                        order.intent.target_lot_allocations[i],
                        x.sell_allocations[i],
                    ));
                }
            }
        }
    }
}

/// What an event is projected to is what it leads to, approved and without a violation.
pub proof fn law_projections_are_sound(s: StrategyStateView, e: EventEnvelopeView, a: AppraisalView)
    ensures
        projected_one(s, e, a) matches Ok(n) ==> {
            &&& approval_fault(s, e, a) is None
            &&& applied(s, e, a) == Ok::<StrategyStateView, crate::event::reduce::EventError>(n)
            &&& first_violation(n) is None
        },
{
}

} // verus!

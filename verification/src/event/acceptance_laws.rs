//! What is owed: when an event that follows from the state is accepted.
use crate::clock::read_day;
use crate::decimal::{
    decimal_text, from_parts, lemma_minus_exact, lemma_of_parts, lemma_plus_exact, minus, plus,
    read_decimal, subtracts_exactly, times, Decimal,
};
use crate::domain::filled;
use crate::event::fills::{fill_amounts, order_of};
use crate::event::kinds::{readable, EventType};
use crate::event::order_laws::{after, fills_exactly, noticed};
use crate::event::payload::{EventEnvelopeView, PayloadView};
use crate::event::reduce::{grid_reduced, order_reduced, run_reduced};
use crate::event::tranche_laws::{money_in, route, shares_in};
use crate::event::tranches::{balance_move, moved, right_of, BalanceMove};
use crate::grid::{grid_fault, grid_of, grid_price};
use crate::model::ledger::{
    FillView, GridLevelState, GridLevelStatus, OrderStatus, OrderView, StrategyStateView,
};
use crate::model::market::Direction;
use crate::model::notices::AppraisalView;
use crate::model::rights::{GridRightStatus, GridRightView, RightTrancheUnit, RightTrancheView};
use crate::rights::tranche_in_order;
use crate::table::lookup;
use crate::text::blank;
use vstd::prelude::*;

verus! {

/// Whether an event can be read and counted.
pub open spec fn counts(s: StrategyStateView, e: EventEnvelopeView) -> bool {
    readable(e.event_type, e.schema_version) && s.event_count < u64::MAX
}

/// Whether an event is of the cycle and of the configuration of a state.
pub open spec fn of_the_run(s: StrategyStateView, e: EventEnvelopeView) -> bool {
    s.audited_config matches Some(c) && e.cycle_id == s.cycle_id && e.config_version
        == c.config_version
}

/// A waiting level at the price of its index can be touched, at the text of that price.
pub proof fn law_waiting_levels_can_be_touched(
    s: StrategyStateView,
    e: EventEnvelopeView,
    a: AppraisalView,
    index: i32,
    level: GridLevelState,
    price: Decimal,
)
    requires
        e.event_type == EventType::GridLevelTouched,
        counts(s, e),
        of_the_run(s, e),
        e.payload matches PayloadView::LevelAt(p) && p.grid_index == Some(index as i64) && p.price
            == Some(decimal_text(price.m(), price.s())),
        grid_price(grid_of(s.audited_config->0), index) == Ok::<Decimal, crate::grid::GridError>(
            price,
        ),
        lookup::<i32, GridLevelState>(s.levels, index) == Some(level),
        level.price.units() == price.units(),
        level.status == GridLevelStatus::Armed || level.status == GridLevelStatus::Rearmed,
        level.touch_count < u64::MAX,
    ensures
        after(s, e, a) is Some,
{
    reveal(grid_reduced);
}

/// A touched level can be skipped, and one that was touched, executed or skipped can be armed
/// again at the price of its index.
pub proof fn law_touched_levels_can_move_on(
    s: StrategyStateView,
    e: EventEnvelopeView,
    a: AppraisalView,
    index: i32,
    level: GridLevelState,
)
    requires
        counts(s, e),
        of_the_run(s, e),
        e.payload matches PayloadView::LevelAt(p) && p.grid_index == Some(index as i64),
        lookup::<i32, GridLevelState>(s.levels, index) == Some(level),
    ensures
        e.event_type == EventType::GridLevelSkipped && level.status == GridLevelStatus::Touched
            ==> after(s, e, a) is Some,
        e.event_type == EventType::GridLevelRearmed && (level.status == GridLevelStatus::Touched
            || level.status == GridLevelStatus::Executed || level.status
            == GridLevelStatus::Skipped) && (grid_price(
            grid_of(s.audited_config->0),
            index,
        ) matches Ok(p) && p.units() == level.price.units()) ==> after(s, e, a) is Some,
{
    reveal(grid_reduced);
}

/// A level of the audited grid that is not there yet can be armed while a cycle is active.
pub proof fn law_grid_levels_can_be_armed(
    s: StrategyStateView,
    e: EventEnvelopeView,
    a: AppraisalView,
)
    requires
        e.event_type == EventType::GridLevelArmed,
        counts(s, e),
        of_the_run(s, e),
        s.grid_cycle_active,
        grid_fault(grid_of(s.audited_config->0)) is None,
        e.payload matches PayloadView::Level(level) && level.status == GridLevelStatus::Armed
            && level.touch_count == 0 && level.index != 0
            && -s.audited_config->0.boundary_levels <= level.index
            <= s.audited_config->0.boundary_levels && lookup::<i32, GridLevelState>(
            s.levels,
            level.index,
        ) is None && (grid_price(grid_of(s.audited_config->0), level.index) matches Ok(p)
            && p.units() == level.price.units()),
    ensures
        after(s, e, a) is Some,
{
    reveal(grid_reduced);
    let level = e.payload->Level_0;
    let g = grid_of(s.audited_config->0);
    let all = crate::grid::all_levels(g);
    crate::grid::law_levels_cover_the_grid(g, g.boundary_levels + 1);
    assert(crate::grid::level_at(all, level.index));
    let k = choose|k: int| 0 <= k < all.len() && (#[trigger] all[k]).0 == level.index;
    crate::table::lemma_lookup_at::<i32, GridLevelState>(all, k);
    crate::grid_laws::law_generated_levels_are_fresh(g, k);
}

/// An order that was handed over can be accepted; one that is under way can be asked to be
/// cancelled for a reason, where none was given before; one that waits for its cancellation
/// can be cancelled, and one that was handed over or accepted can be rejected, where what is
/// frozen covers what it reserves.
pub proof fn law_orders_can_move_on(s: StrategyStateView, e: EventEnvelopeView, a: AppraisalView)
    requires
        counts(s, e),
        noticed(s, e) is Some,
    ensures
        ({
            let order = noticed(s, e)->0;
            let reason = e.payload->OrderAt_0.reason;
            let covered = s.cash.frozen.valid() && order.reserved_cash_remaining.valid()
                && subtracts_exactly(s.cash.frozen, order.reserved_cash_remaining) && i64::MIN
                <= s.position.frozen_sell - order.reserved_quantity_remaining <= i64::MAX;
            &&& e.event_type == EventType::OrderAccepted && order.status == OrderStatus::Submitted
                ==> after(s, e, a) is Some
            &&& e.event_type == EventType::OrderCancelRequested && (order.status
                == OrderStatus::Submitted || order.status == OrderStatus::Accepted || order.status
                == OrderStatus::PartiallyFilled) && order.cancel_requested_reason is None && (
            reason matches Some(r) && !blank(r)) ==> after(s, e, a) is Some
            &&& e.event_type == EventType::OrderCancelled && order.status
                == OrderStatus::CancelPending && covered ==> after(s, e, a) is Some
            &&& e.event_type == EventType::OrderRejected && (order.status == OrderStatus::Submitted
                || order.status == OrderStatus::Accepted) && covered ==> after(s, e, a) is Some
        }),
{
    reveal(order_reduced);
    let order = noticed(s, e)->0;
    if s.cash.frozen.valid() && order.reserved_cash_remaining.valid() && subtracts_exactly(
        s.cash.frozen,
        order.reserved_cash_remaining,
    ) {
        lemma_minus_exact(s.cash.frozen, order.reserved_cash_remaining);
    }
}

/// A fill of an accepted order, within what the order lacks and reserves, is accepted where
/// its account can book it. So it is in the first layout, and for buys in the second one.
pub proof fn law_fitting_fills_are_accepted(
    s: StrategyStateView,
    e: EventEnvelopeView,
    a: AppraisalView,
    fill: FillView,
    order: OrderView,
    index: i32,
)
    requires
        e.event_type == EventType::OrderPartiallyFilled || e.event_type == EventType::OrderFilled,
        counts(s, e),
        e.schema_version == 1 || (e.schema_version == 2 && fill.direction == Direction::Buy),
        e.payload matches PayloadView::Fill(p) && p.fill == Some(fill) && p.grid_index == Some(
            index as i64,
        ),
        order_of(s, fill.order_id) == Some(order),
        order.intent.origin is None,
        order.status == OrderStatus::Accepted || order.status == OrderStatus::PartiallyFilled
            || order.status == OrderStatus::CancelPending,
        fill.direction == order.intent.direction,
        fill.quantity > 0,
        order.filled_quantity >= 0,
        forall|i: int|
            0 <= i < fill.target_lot_ids.len() ==> order.intent.target_lot_ids.contains(
                #[trigger] fill.target_lot_ids[i],
            ),
        e.event_type == EventType::OrderFilled ==> order.filled_quantity + fill.quantity
            == order.intent.quantity,
        e.event_type == EventType::OrderPartiallyFilled ==> order.filled_quantity + fill.quantity
            < order.intent.quantity,
        fills_exactly(s, order, fill, e.event_type == EventType::OrderFilled),
        fill.direction == Direction::Buy ==> order.reserved_cash_remaining.units()
            >= fill.price.units() * fill.quantity + fill.commission.units() + fill.tax.units(),
        fill.direction == Direction::Sell ==> 0 <= fill.quantity
            <= order.reserved_quantity_remaining <= s.position.frozen_sell,
        filled(
            StrategyStateView { event_count: (s.event_count + 1) as u64, ..s },
            fill,
            index,
            a.fee_split,
            e.schema_version != 1,
        ) is Ok,
    ensures
        after(s, e, a) is Some,
{
    reveal(order_reduced);
    let last = e.event_type == EventType::OrderFilled;
    let c = StrategyStateView { event_count: (s.event_count + 1) as u64, ..s };
    crate::decimal::lemma_times_whole(fill.price, fill.quantity as int);
    let v = times(fill.price, Decimal::whole(fill.quantity as int))->0;
    lemma_plus_exact(order.commission_charged, fill.commission);
    lemma_plus_exact(order.filled_notional, v);
    lemma_plus_exact(v, fill.commission);
    let x = plus(v, fill.commission)->0;
    lemma_plus_exact(x, fill.tax);
    let cost = plus(x, fill.tax)->0;
    lemma_minus_exact(order.reserved_cash_remaining, cost);
    lemma_minus_exact(s.cash.frozen, cost);
    if last {
        lemma_minus_exact(
            minus(s.cash.frozen, cost)->0,
            minus(order.reserved_cash_remaining, cost)->0,
        );
    }
    assert(fill_amounts(c, order, fill, last) is Some);
    let b = filled(c, fill, index, a.fee_split, e.schema_version != 1)->Ok_0;
    assert(b.orders == s.orders);
}

/// Shares of a tranche can be moved wherever the account that they leave has them, the tranche
/// stays in order by it, and the movement has its place.
pub proof fn law_tranche_shares_can_be_moved(
    s: StrategyStateView,
    e: EventEnvelopeView,
    a: AppraisalView,
    t: RightTrancheView,
    id: Seq<char>,
    quantity: i64,
)
    requires
        counts(s, e),
        balance_move(e.event_type) is Some,
        e.payload matches PayloadView::Balance(p) && p.right_id == Some(t.owner_right_id)
            && (p.allocations matches Some(items) && items.len() == 1 && items[0].tranche_id
            == Some(id) && items[0].quantity == Some(quantity) && items[0].budget is None),
        lookup::<String, RightTrancheView>(s.right_tranches, id) == Some(t),
        tranche_in_order(t),
        t.unit == RightTrancheUnit::Quantity,
        t.available_budget.valid() && t.reserved_budget.valid() && t.consumed_budget.valid()
            && t.revoked_budget.valid() && t.expired_budget.valid(),
        quantity > 0,
        ({
            let m = balance_move(e.event_type)->0;
            &&& quantity <= shares_in(t, route(m).0)
            &&& m == BalanceMove::Revoke ==> e.payload->Balance_0.reversal_from_grid == Some(
                t.birth_grid_index as i64,
            ) && t.birth_grid_index != i32::MIN
            &&& m == BalanceMove::Expire ==> t.reserved_quantity == 0
        }),
    ensures
        after(s, e, a) is Some,
{
    reveal(grid_reduced);
    let m = balance_move(e.event_type)->0;
    let p = e.payload->Balance_0;
    let items = p.allocations->0;
    lemma_of_parts(0, 0);
    let z = Decimal::zero();
    assert(z.units() == 0);
    crate::event::tranche_laws::law_shares_can_be_moved(t, m, quantity, p.reversal_from_grid);
    lemma_minus_exact(money_in(t, route(m).0), z);
    lemma_plus_exact(money_in(t, route(m).1), z);
    let n = moved(t, m, z, quantity, p.reversal_from_grid)->0;
    assert(tranche_in_order(n));
    assert(crate::event::tranches::item_moved(
        s.right_tranches,
        items[0],
        t.owner_right_id,
        m,
        p.reversal_from_grid,
    ) is Some);
    assert(crate::event::tranches::items_moved(
        s.right_tranches,
        items,
        t.owner_right_id,
        m,
        p.reversal_from_grid,
        0,
    ) == Some(s.right_tranches));
    assert(crate::event::tranches::items_moved(
        s.right_tranches,
        items,
        t.owner_right_id,
        m,
        p.reversal_from_grid,
        1,
    ) is Some);
}

/// A new tranche of one unit can be minted for a buy right that names it.
pub proof fn law_buy_tranches_can_be_minted(
    s: StrategyStateView,
    e: EventEnvelopeView,
    a: AppraisalView,
    owner: GridRightView,
)
    requires
        e.event_type == EventType::RightTrancheMinted,
        counts(s, e),
        e.payload matches PayloadView::Tranche(t) && tranche_in_order(t) && right_of(
            s,
            t.owner_right_id,
        ) == Some(owner) && owner.cycle_id == t.cycle_id && owner.direction == t.direction
            && owner.grid_index == t.birth_grid_index && owner.capacity.tranche_ids.contains(
            t.tranche_id,
        ) && lookup::<String, RightTrancheView>(s.right_tranches, t.tranche_id) is None && t.unit
            == RightTrancheUnit::Quantity && t.direction == Direction::Buy && t.minted_quantity
            == s.audited_standard_quantity,
        s.audited_standard_quantity > 0,
        s.audited_lot_size > 0,
    ensures
        after(s, e, a) is Some,
{
    reveal(grid_reduced);
}

/// A granted right with shares can be reserved for a decision, within what it offers; in the
/// first layouts the event only has to name the decision and the shares.
pub proof fn law_granted_rights_can_be_reserved(
    s: StrategyStateView,
    e: EventEnvelopeView,
    a: AppraisalView,
    r: GridRightView,
    quantity: i64,
)
    requires
        e.event_type == EventType::GridRightReserved,
        counts(s, e),
        e.schema_version < 3,
        e.payload matches PayloadView::Disposition(p) && p.right_id matches Some(id) && right_of(
            s,
            id,
        ) == Some(r) && p.decision_id is Some && p.reserved_quantity == Some(quantity)
            && p.reserved_budget is None && p.exercised_budget_delta is None
            && p.exercised_quantity_delta is None,
        r.status == GridRightStatus::Granted,
        r.decision_id is None,
        0 < quantity,
        r.direction == Direction::Buy ==> quantity <= r.capacity.available_quantity,
        r.direction == Direction::Sell ==> quantity <= r.capacity.eligible_quantity,
        crate::rights::budget_left(r) is Some,
        crate::rights::quantity_left(r) is Some,
    ensures
        after(s, e, a) is Some,
{
    reveal(grid_reduced);
    let p = e.payload->Disposition_0;
    let c = StrategyStateView { event_count: s.event_count.checked_add(1)->0, ..s };
    lemma_reserving(c, e, r, quantity);
    assert(crate::event::disposition::disposed(c, e, p, GridRightStatus::Reserved) is Some);
}

proof fn lemma_reserving(
    c: StrategyStateView,
    e: EventEnvelopeView,
    r: GridRightView,
    quantity: i64,
)
    requires
        e.event_type == EventType::GridRightReserved,
        e.schema_version < 3,
        e.payload matches PayloadView::Disposition(p) && p.decision_id is Some
            && p.reserved_quantity == Some(quantity) && p.reserved_budget is None
            && p.exercised_budget_delta is None && p.exercised_quantity_delta is None,
        r.status == GridRightStatus::Granted,
        r.decision_id is None,
        0 < quantity,
        r.direction == Direction::Buy ==> quantity <= r.capacity.available_quantity,
        r.direction == Direction::Sell ==> quantity <= r.capacity.eligible_quantity,
        crate::rights::budget_left(r) is Some,
        crate::rights::quantity_left(r) is Some,
    ensures
        crate::event::disposition::right_disposed(
            c,
            e,
            e.payload->Disposition_0,
            r,
            GridRightStatus::Reserved,
            None,
        ) is Some,
{
}

/// A right that has reserved shares can use some of them, and the rest can be released.
pub proof fn law_reserved_rights_can_be_used(
    s: StrategyStateView,
    e: EventEnvelopeView,
    a: AppraisalView,
    r: GridRightView,
    quantity: i64,
)
    requires
        e.event_type == EventType::GridRightPartiallyExercised || e.event_type
            == EventType::GridRightReleased,
        counts(s, e),
        e.payload matches PayloadView::Disposition(p) && p.right_id matches Some(id) && right_of(
            s,
            id,
        ) == Some(r) && p.decision_id is None && p.reserved_quantity is None
            && p.reserved_budget is None && p.exercised_budget_delta is None
            && p.exercised_quantity_delta == (if e.event_type == EventType::GridRightReleased {
            None
        } else {
            Some(quantity)
        }),
        r.status == GridRightStatus::Reserved || r.status == GridRightStatus::PartiallyExercised,
        r.direction == Direction::Sell || r.capacity.available_quantity > 0,
        0 < quantity,
        0 <= r.exercised_quantity,
        r.exercised_quantity + quantity <= r.reserved_quantity,
        crate::rights::budget_left(r) is Some,
        0 <= r.capacity.eligible_quantity && 0 <= r.capacity.t_plus_one_blocked_quantity && 0
            <= r.capacity.risk_blocked_quantity && 0 <= r.capacity.no_profit_blocked_quantity,
        r.capacity.eligible_quantity + r.capacity.t_plus_one_blocked_quantity
            + r.capacity.risk_blocked_quantity + r.capacity.no_profit_blocked_quantity <= i64::MAX,
    ensures
        after(s, e, a) is Some,
{
    reveal(grid_reduced);
    let p = e.payload->Disposition_0;
    let c = StrategyStateView { event_count: s.event_count.checked_add(1)->0, ..s };
    let next = if e.event_type == EventType::GridRightReleased {
        GridRightStatus::Released
    } else {
        GridRightStatus::PartiallyExercised
    };
    lemma_using(c, e, r, quantity, next);
    assert(crate::event::disposition::disposed(c, e, p, next) is Some);
}

proof fn lemma_using(
    c: StrategyStateView,
    e: EventEnvelopeView,
    r: GridRightView,
    quantity: i64,
    next: GridRightStatus,
)
    requires
        next == GridRightStatus::Released || next == GridRightStatus::PartiallyExercised,
        e.payload matches PayloadView::Disposition(p) && p.decision_id is None
            && p.reserved_quantity is None && p.reserved_budget is None
            && p.exercised_budget_delta is None && p.exercised_quantity_delta == (if next
            == GridRightStatus::Released {
            None
        } else {
            Some(quantity)
        }),
        r.status == GridRightStatus::Reserved || r.status == GridRightStatus::PartiallyExercised,
        r.direction == Direction::Sell || r.capacity.available_quantity > 0,
        0 < quantity,
        0 <= r.exercised_quantity,
        r.exercised_quantity + quantity <= r.reserved_quantity,
        crate::rights::budget_left(r) is Some,
        0 <= r.capacity.eligible_quantity && 0 <= r.capacity.t_plus_one_blocked_quantity && 0
            <= r.capacity.risk_blocked_quantity && 0 <= r.capacity.no_profit_blocked_quantity,
        r.capacity.eligible_quantity + r.capacity.t_plus_one_blocked_quantity
            + r.capacity.risk_blocked_quantity + r.capacity.no_profit_blocked_quantity <= i64::MAX,
    ensures
        crate::event::disposition::right_disposed(
            c,
            e,
            e.payload->Disposition_0,
            r,
            next,
            None,
        ) is Some,
{
}

/// A decision that answers its request, in the unit of the run, is recorded on a right that
/// has none yet.
pub proof fn law_decisions_can_be_recorded(
    s: StrategyStateView,
    e: EventEnvelopeView,
    a: AppraisalView,
)
    requires
        e.event_type == EventType::GateDecisionMade,
        e.schema_version >= 2,
        counts(s, e),
        e.payload matches PayloadView::Decision(p) && p.request matches Some(q)
            && p.response matches Some(r) && p.algorithm_succeeded matches Some(ok)
            && crate::decision::response_fault(r, q, ok) is None && q.context.standard_quantity
            == s.audited_standard_quantity && q.context.lot_size == s.audited_lot_size && (right_of(
            s,
            r.right_id,
        ) matches Some(right) && !right.decision_recorded) && q.context.available_quantity >= 0
            && q.context.algorithm_authorized_quantity >= 0,
    ensures
        after(s, e, a) is Some,
{
}

/// The events on the run are accepted where they say what they are about: a day of the
/// calendar, a mode, a comparison, the close of a bar, or the start of the first cycle at the
/// anchor of an empty grid.
pub proof fn law_run_events_are_accepted(
    s: StrategyStateView,
    e: EventEnvelopeView,
    a: AppraisalView,
)
    requires
        counts(s, e),
    ensures
        e.event_type == EventType::TradingDayRolled && (e.payload matches PayloadView::Day(Some(t))
            && read_day(t, "%Y-%m-%d"@) is Some) && i64::MIN <= s.position.sellable
            + s.position.today_bought <= i64::MAX ==> after(s, e, a) is Some,
        e.event_type == EventType::ServiceModeChanged && (e.payload matches PayloadView::Mode(
            Some(_),
        )) ==> after(s, e, a) is Some,
        e.event_type == EventType::ReconciliationCompleted && e.payload is Reconciliation ==> after(
            s,
            e,
            a,
        ) is Some,
        e.event_type == EventType::ErrorRecorded && e.payload is Error ==> after(s, e, a) is Some,
        e.event_type == EventType::ServiceStopped ==> after(s, e, a) is Some,
        e.event_type == EventType::AmbiguousBarDetected && s.ambiguous_bars < u64::MAX ==> after(
            s,
            e,
            a,
        ) is Some,
        e.event_type == EventType::MarketBarProcessed && of_the_run(s, e) && e.symbol == s.symbol
            && (e.payload matches PayloadView::Stage(p) && p.symbol == Some(e.symbol) && p.timestamp
            == Some(e.event_time) && (p.close matches Some(t) ==> from_parts(
            read_decimal(t),
        ) is Some)) ==> after(s, e, a) is Some,
        e.event_type == EventType::GridCycleStarted && (s.audited_config matches Some(c)
            && e.config_version == c.config_version && (e.payload matches PayloadView::Start(Some(t))
            && (from_parts(read_decimal(t)) matches Some(p) && p.units() == c.anchor_price.units())))
            && (s.cycle_id.len() == 0 || e.cycle_id == s.cycle_id) && s.levels.len() == 0
            && s.grid_rights.len() == 0 && s.right_tranches.len() == 0 ==> after(s, e, a) is Some,
        e.event_type == EventType::MarketDataReceived && of_the_run(s, e) && e.run_id == s.run_id
            && e.symbol == s.symbol && (e.payload matches PayloadView::Bar(bar)
            && crate::data::bar_fault(bar, s.symbol) is None && bar.timestamp == e.event_time)
            ==> after(s, e, a) is Some,
{
    reveal(run_reduced);
}

/// A report of what other events did is accepted.
pub proof fn law_reports_are_accepted(s: StrategyStateView, e: EventEnvelopeView, a: AppraisalView)
    requires
        counts(s, e),
        e.event_type == EventType::RunStarted || e.event_type == EventType::AlgorithmRegistered
            || e.event_type == EventType::PlatformUpgradeAuthorized || e.event_type
            == EventType::PlatformUpgradeActivated || e.event_type == EventType::ReplayInitialized
            || e.event_type == EventType::DeferredQuantityAccrued || e.event_type
            == EventType::LotOpened || e.event_type == EventType::LotPartiallyClosed
            || e.event_type == EventType::LotClosed || e.event_type == EventType::CashChanged
            || e.event_type == EventType::PositionChanged || (e.event_type
            == EventType::DeferredBudgetAccrued && s.audited_standard_quantity <= 0),
    ensures
        after(s, e, a) is Some,
{
}

/// The first configuration of a run is recorded where it is in order, has its digest, and is
/// of the symbol, the anchor and the version of the run.
pub proof fn law_first_configurations_are_recorded(
    s: StrategyStateView,
    e: EventEnvelopeView,
    a: AppraisalView,
)
    requires
        e.event_type == EventType::ConfigSnapshotted,
        counts(s, e),
        s.audited_config is None && s.audited_profit_guard_policy is None,
        s.audited_standard_quantity == 0 && s.audited_lot_size == 0,
        e.payload matches PayloadView::Snapshot(p) && crate::config::config_fault(p.config) is None
            && p.content_sha256 == Some(crate::config::snapshot_digest(p)) && p.config.symbol
            == s.symbol && e.symbol == s.symbol && p.config.anchor_price.units()
            == s.anchor_price.units() && e.config_version == p.config.config_version
            && p.config.standard_quantity > 0,
    ensures
        after(s, e, a) is Some,
{
    reveal(run_reduced);
}

/// A tranche with nothing reserved and something free can be handed from its right to another
/// one of the same cycle and side that names it; in the first layout wherever that lies.
pub proof fn law_free_tranches_can_be_handed_on(
    s: StrategyStateView,
    e: EventEnvelopeView,
    a: AppraisalView,
    source: GridRightView,
    target: GridRightView,
    t: RightTrancheView,
    id: Seq<char>,
)
    requires
        e.event_type == EventType::RightBalanceTransferred,
        counts(s, e),
        e.schema_version == 1,
        e.payload matches PayloadView::Transfer(p) && p.source_right_id == Some(t.owner_right_id)
            && (p.target_right_id matches Some(to) && !blank(to) && right_of(s, to) == Some(target))
            && p.tranche_ids == Some(seq![Some(id)]),
        right_of(s, t.owner_right_id) == Some(source),
        source.cycle_id == target.cycle_id,
        source.direction == target.direction,
        lookup::<String, RightTrancheView>(s.right_tranches, id) == Some(t),
        tranche_in_order(t),
        target.capacity.tranche_ids.contains(t.tranche_id),
        t.reserved_quantity == 0,
        t.reserved_budget.units() == 0,
        t.available_quantity != 0 || t.available_budget.units() != 0,
    ensures
        after(s, e, a) is Some,
{
    reveal(grid_reduced);
    let p = e.payload->Transfer_0;
    let ids = p.tranche_ids->0;
    let to = p.target_right_id->0;
    assert(ids.len() == 1 && ids[0] == Some(id));
    let n = RightTrancheView { owner_right_id: to, ..t };
    assert(tranche_in_order(n));
    assert(crate::event::tranches::handed_over(t, t.owner_right_id, to, target) == Some(n));
    assert(crate::event::tranches::all_handed_over(
        s.right_tranches,
        ids,
        t.owner_right_id,
        to,
        target,
        0,
    ) == Some(s.right_tranches));
    assert(crate::event::tranches::all_handed_over(
        s.right_tranches,
        ids,
        t.owner_right_id,
        to,
        target,
        1,
    ) is Some);
}

/// A buy order that is exactly what its reserved right has reserved, and that its tranches
/// back, is accepted.
pub proof fn law_backed_buy_orders_are_accepted(
    s: StrategyStateView,
    e: EventEnvelopeView,
    a: AppraisalView,
    right: GridRightView,
    reservation: Decimal,
    budget: Decimal,
)
    requires
        e.event_type == EventType::OrderIntentCreated,
        counts(s, e),
        e.schema_version >= 6,
        e.payload matches PayloadView::Intent(order) && ({
            let i = order.intent;
            &&& i.origin is None && i.direction == Direction::Buy
            &&& right_of(s, i.right_id) == Some(right)
            &&& right.grid_index == i.grid_index && right.grid_price.units()
                == i.limit_price.units() && right.reserved_quantity == i.quantity
            &&& i.quantity > 0 && i.limit_price.units() > 0
            &&& s.audited_lot_size > 0 && i.quantity as int % s.audited_lot_size as int == 0
            &&& s.audited_standard_quantity > 0 && i.quantity as int
                % s.audited_standard_quantity as int == 0
            &&& times(i.limit_price, Decimal::whole(i.quantity as int)) == Some(budget)
            &&& i.budget.units() == budget.units()
            &&& i.created_at == e.event_time
            &&& i.intent_id == crate::event::intents::intent_identity(
                s.run_id,
                s.cycle_id,
                i.grid_index,
                i.created_at,
            )
            &&& order.order_id == crate::event::intents::order_identity(i.intent_id)
            &&& order.status == OrderStatus::Created && order.filled_quantity == 0
                && order.filled_notional.units() == 0 && order.commission_charged.units() == 0
                && order.cancel_requested_reason is None && order.cancel_requested_at is None
            &&& i.target_lot_ids.len() == 0 && i.target_lot_allocations.len() == 0
                && i.profit_guard_version.len() == 0
            &&& order.reserved_cash_remaining.units() == reservation.units()
                && order.reserved_quantity_remaining == 0
            &&& lookup::<String, OrderView>(s.orders, order.order_id) is None
            &&& i.profit_guard_policy matches Some(p) && crate::policy::terms_in_order(p) && (
            s.audited_profit_guard_policy matches Some(q)
                && crate::model::ledger::profit_guard_policy_alike(q, p))
            &&& crate::arith::checked_total(
                crate::event::intents::reserved_shares(
                    crate::event::intents::backers(
                        s.right_tranches,
                        right.right_id,
                        s.right_tranches.len(),
                    ),
                ),
            ) == Some(i.quantity)
            &&& right.decision_intent_quantity == i.quantity
        }),
        a.buy_reservation == Some(reservation),
        right.status == GridRightStatus::Reserved,
        right.cycle_id == s.cycle_id && e.cycle_id == s.cycle_id,
        right.direction == Direction::Buy,
        right.decision_recorded,
        right.decision_contract_version
            >= crate::decision::WHOLE_UNIT_DECISION_CONTRACT_VERSION,
    ensures
        after(s, e, a) is Some,
{
    reveal(order_reduced);
}

} // verus!

//! What the events on an order do to what it reserves and to what is frozen.
use crate::decimal::{
    adds_exactly, lemma_minus_exact, lemma_of_parts, lemma_plus_exact, lemma_times_whole, minus,
    multiplies_exactly, plus, subtracts_exactly, times, Decimal,
};
use crate::arith::{lemma_checked_total, total};
use crate::domain::{allocation_quantities, filled};
use crate::event::fills::{fill_amounts, fill_booked, order_filled, order_of};
use crate::event::kinds::{readable, EventType};
use crate::event::levels::small_index;
use crate::event::payload::{EventEnvelopeView, PayloadView};
use crate::event::reduce::{applied, order_reduced};
use crate::model::ledger::{
    CashAccount, FillView, GridLevelState, GridLevelStatus, OrderStatus, OrderView, Position,
    StrategyStateView,
};
use crate::model::market::Direction;
use crate::model::notices::AppraisalView;
use crate::table::{changed_at, holds_key, lemma_changed_at, lemma_with, lookup, ordered, with};
use vstd::prelude::*;

verus! {

/// The state that an event gives, where it is accepted.
pub open spec fn after(s: StrategyStateView, e: EventEnvelopeView, a: AppraisalView) -> Option<
    StrategyStateView,
> {
    match applied(s, e, a) {
        Ok(n) => Some(n),
        Err(_) => None,
    }
}

/// The order that a notice speaks of.
pub open spec fn noticed(s: StrategyStateView, e: EventEnvelopeView) -> Option<OrderView> {
    match e.payload {
        PayloadView::OrderAt(p) => match p.order_id {
            Some(id) => order_of(s, id),
            None => None,
        },
        _ => None,
    }
}

/// The name of the order that a notice speaks of.
pub open spec fn noticed_id(e: EventEnvelopeView) -> Seq<char> {
    e.payload->OrderAt_0.order_id->0
}

/// Whether two states differ only in what is frozen, in their orders and in how many
/// events they count.
pub open spec fn same_but_frozen_and_orders(s: StrategyStateView, n: StrategyStateView) -> bool {
    n == (StrategyStateView {
        cash: CashAccount { frozen: n.cash.frozen, ..s.cash },
        position: Position { frozen_sell: n.position.frozen_sell, ..s.position },
        orders: n.orders,
        event_count: n.event_count,
        ..s
    })
}

/// An order that is handed to the broker freezes exactly the cash and the shares that
/// it reserves. It has not been handed over before, and nothing else changes. The sum
/// of the cash needs no rounding.
pub proof fn law_submitting_freezes_the_reservation(
    s: StrategyStateView,
    e: EventEnvelopeView,
    a: AppraisalView,
)
    requires
        e.event_type == EventType::OrderSubmitted,
        ordered::<String, OrderView>(s.orders),
        noticed(s, e) matches Some(order) && order.status != OrderStatus::Submitted
            && s.cash.frozen.valid() && order.reserved_cash_remaining.valid() && adds_exactly(
            s.cash.frozen,
            order.reserved_cash_remaining,
        ),
    ensures
        after(s, e, a) matches Some(n) ==> {
            let order = noticed(s, e)->0;
            &&& order.status == OrderStatus::Created
            &&& n.cash.frozen.valid()
            &&& n.cash.frozen.units() == s.cash.frozen.units()
                + order.reserved_cash_remaining.units()
            &&& n.position.frozen_sell == s.position.frozen_sell
                + order.reserved_quantity_remaining
            &&& ordered::<String, OrderView>(n.orders)
            &&& changed_at::<String, OrderView>(
                s.orders,
                n.orders,
                noticed_id(e),
                OrderView { status: OrderStatus::Submitted, ..order },
            )
            &&& same_but_frozen_and_orders(s, n)
            &&& n.event_count == s.event_count + 1
        },
        noticed(s, e)->0.status == OrderStatus::Created && readable(e.event_type, e.schema_version)
            && s.event_count < u64::MAX && i64::MIN <= s.position.frozen_sell
            + noticed(s, e)->0.reserved_quantity_remaining <= i64::MAX ==> after(s, e, a) is Some,
{
    reveal(order_reduced);
    let order = noticed(s, e)->0;
    lemma_plus_exact(s.cash.frozen, order.reserved_cash_remaining);
    lemma_changed_at::<String, OrderView>(
        s.orders,
        noticed_id(e),
        OrderView { status: OrderStatus::Submitted, ..order },
    );
}

/// Handing over an order again changes nothing but the count of events.
pub proof fn law_submitting_again_changes_nothing(
    s: StrategyStateView,
    e: EventEnvelopeView,
    a: AppraisalView,
)
    requires
        e.event_type == EventType::OrderSubmitted,
        noticed(s, e) matches Some(order) && order.status == OrderStatus::Submitted,
    ensures
        after(s, e, a) matches Some(n) ==> n == (StrategyStateView {
            event_count: (s.event_count + 1) as u64,
            ..s
        }),
{
    reveal(order_reduced);
}

/// An order that is rejected or cancelled frees exactly the cash and the shares that it
/// still reserves, and reserves nothing afterwards. Nothing else changes. The
/// difference of the cash needs no rounding.
pub proof fn law_ending_an_order_frees_the_reservation(
    s: StrategyStateView,
    e: EventEnvelopeView,
    a: AppraisalView,
)
    requires
        e.event_type == EventType::OrderRejected || e.event_type == EventType::OrderCancelled,
        ordered::<String, OrderView>(s.orders),
        noticed(s, e) matches Some(order) && !order.status.terminal() && s.cash.frozen.valid()
            && order.reserved_cash_remaining.valid() && subtracts_exactly(
            s.cash.frozen,
            order.reserved_cash_remaining,
        ),
    ensures
        after(s, e, a) matches Some(n) ==> {
            let order = noticed(s, e)->0;
            &&& e.event_type == EventType::OrderCancelled ==> order.status
                == OrderStatus::CancelPending
            &&& e.event_type == EventType::OrderRejected ==> order.status == OrderStatus::Submitted
                || order.status == OrderStatus::Accepted
            &&& n.cash.frozen.valid()
            &&& n.cash.frozen.units() == s.cash.frozen.units()
                - order.reserved_cash_remaining.units()
            &&& n.position.frozen_sell == s.position.frozen_sell
                - order.reserved_quantity_remaining
            &&& lookup::<String, OrderView>(n.orders, noticed_id(e)) matches Some(o) && {
                &&& changed_at::<String, OrderView>(s.orders, n.orders, noticed_id(e), o)
                &&& o.reserved_cash_remaining.units() == 0
                &&& o.reserved_quantity_remaining == 0
                &&& o.status == (if e.event_type == EventType::OrderRejected {
                    OrderStatus::Rejected
                } else {
                    OrderStatus::Cancelled
                })
                &&& o == (OrderView {
                    status: o.status,
                    reserved_cash_remaining: o.reserved_cash_remaining,
                    reserved_quantity_remaining: o.reserved_quantity_remaining,
                    ..order
                })
            }
            &&& ordered::<String, OrderView>(n.orders)
            &&& same_but_frozen_and_orders(s, n)
        },
{
    reveal(order_reduced);
    let order = noticed(s, e)->0;
    lemma_of_parts(0, 0);
    lemma_minus_exact(s.cash.frozen, order.reserved_cash_remaining);
    lemma_changed_at::<String, OrderView>(
        s.orders,
        noticed_id(e),
        OrderView {
            status: if e.event_type == EventType::OrderRejected {
                OrderStatus::Rejected
            } else {
                OrderStatus::Cancelled
            },
            reserved_cash_remaining: Decimal::zero(),
            reserved_quantity_remaining: 0,
            ..order
        },
    );
}

/// The broker accepting an order changes its status alone, and the wish to cancel it
/// its status and what it notes of the wish: no cash and no share moves.
pub proof fn law_notices_move_nothing(
    s: StrategyStateView,
    e: EventEnvelopeView,
    a: AppraisalView,
)
    requires
        e.event_type == EventType::OrderAccepted || e.event_type == EventType::OrderCancelRequested,
        ordered::<String, OrderView>(s.orders),
        noticed(s, e) is Some,
    ensures
        after(s, e, a) matches Some(n) ==> {
            let order = noticed(s, e)->0;
            let p = e.payload->OrderAt_0;
            &&& n == (StrategyStateView {
                orders: n.orders,
                event_count: (s.event_count + 1) as u64,
                ..s
            })
            &&& ordered::<String, OrderView>(n.orders)
            &&& e.event_type == EventType::OrderAccepted ==> changed_at::<String, OrderView>(
                s.orders,
                n.orders,
                noticed_id(e),
                OrderView { status: OrderStatus::Accepted, ..order },
            )
            &&& e.event_type == EventType::OrderCancelRequested ==> {
                &&& p.reason is Some && !crate::text::blank(p.reason->0)
                &&& order.cancel_requested_reason is Some ==> order.cancel_requested_reason
                    == p.reason && order.cancel_requested_at == Some(e.event_time)
                &&& changed_at::<String, OrderView>(
                    s.orders,
                    n.orders,
                    noticed_id(e),
                    OrderView {
                        status: OrderStatus::CancelPending,
                        cancel_requested_reason: p.reason,
                        cancel_requested_at: Some(e.event_time),
                        ..order
                    },
                )
            }
        },
{
    reveal(order_reduced);
    let order = noticed(s, e)->0;
    lemma_changed_at::<String, OrderView>(
        s.orders,
        noticed_id(e),
        OrderView { status: OrderStatus::Accepted, ..order },
    );
    lemma_changed_at::<String, OrderView>(
        s.orders,
        noticed_id(e),
        OrderView {
            status: OrderStatus::CancelPending,
            cancel_requested_reason: e.payload->OrderAt_0.reason,
            cancel_requested_at: Some(e.event_time),
            ..order
        },
    );
    if after(s, e, a) is Some && e.event_type == EventType::OrderAccepted {
        assert(order.status == OrderStatus::Accepted ==> order == OrderView {
            status: OrderStatus::Accepted,
            ..order
        });
    }
}

/// Handing over an order and then rejecting it leaves what is frozen as it was.
pub proof fn law_rejecting_undoes_submitting(
    s: StrategyStateView,
    submit: EventEnvelopeView,
    reject: EventEnvelopeView,
    a: AppraisalView,
    b: AppraisalView,
    n: StrategyStateView,
    m: StrategyStateView,
)
    requires
        submit.event_type == EventType::OrderSubmitted,
        reject.event_type == EventType::OrderRejected,
        ordered::<String, OrderView>(s.orders),
        noticed(s, submit) matches Some(order) && order.status == OrderStatus::Created
            && s.cash.frozen.valid() && order.reserved_cash_remaining.valid() && adds_exactly(
            s.cash.frozen,
            order.reserved_cash_remaining,
        ) && subtracts_exactly(n.cash.frozen, order.reserved_cash_remaining),
        reject.payload is OrderAt,
        reject.payload->OrderAt_0.order_id == submit.payload->OrderAt_0.order_id,
        after(s, submit, a) == Some(n),
        after(n, reject, b) == Some(m),
    ensures
        m.cash.frozen.units() == s.cash.frozen.units(),
        m.cash.available == s.cash.available,
        m.position == s.position,
{
    law_submitting_freezes_the_reservation(s, submit, a);
    law_ending_an_order_frees_the_reservation(n, reject, b);
}

/// Handing over an order, asking to cancel it and cancelling it leaves what is frozen
/// as it was.
pub proof fn law_cancelling_undoes_submitting(
    s: StrategyStateView,
    submit: EventEnvelopeView,
    ask: EventEnvelopeView,
    cancel: EventEnvelopeView,
    a: AppraisalView,
    n: StrategyStateView,
    m: StrategyStateView,
    k: StrategyStateView,
)
    requires
        submit.event_type == EventType::OrderSubmitted,
        ask.event_type == EventType::OrderCancelRequested,
        cancel.event_type == EventType::OrderCancelled,
        ordered::<String, OrderView>(s.orders),
        noticed(s, submit) matches Some(order) && order.status == OrderStatus::Created
            && s.cash.frozen.valid() && order.reserved_cash_remaining.valid() && adds_exactly(
            s.cash.frozen,
            order.reserved_cash_remaining,
        ) && subtracts_exactly(n.cash.frozen, order.reserved_cash_remaining),
        ask.payload is OrderAt && cancel.payload is OrderAt,
        ask.payload->OrderAt_0.order_id == submit.payload->OrderAt_0.order_id,
        cancel.payload->OrderAt_0.order_id == submit.payload->OrderAt_0.order_id,
        after(s, submit, a) == Some(n),
        after(n, ask, a) == Some(m),
        after(m, cancel, a) == Some(k),
    ensures
        k.cash.frozen.units() == s.cash.frozen.units(),
        k.cash.available == s.cash.available,
        k.position == s.position,
{
    law_submitting_freezes_the_reservation(s, submit, a);
    law_notices_move_nothing(n, ask, a);
    law_ending_an_order_frees_the_reservation(m, cancel, a);
}

/// Whether no amount that a fill changes in its order has to be rounded.
pub open spec fn fills_exactly(s: StrategyStateView, order: OrderView, fill: FillView, last: bool) -> bool {
    &&& fill.price.valid() && fill.commission.valid() && fill.tax.valid()
    &&& order.filled_notional.valid() && order.commission_charged.valid()
    &&& order.reserved_cash_remaining.valid() && s.cash.frozen.valid()
    &&& multiplies_exactly(fill.price, Decimal::whole(fill.quantity as int))
    &&& adds_exactly(order.commission_charged, fill.commission)
    &&& times(fill.price, Decimal::whole(fill.quantity as int)) matches Some(v) ==> {
        &&& adds_exactly(order.filled_notional, v)
        &&& adds_exactly(v, fill.commission)
        &&& plus(v, fill.commission) matches Some(x) ==> {
            &&& adds_exactly(x, fill.tax)
            &&& plus(x, fill.tax) matches Some(cost) ==> {
                &&& subtracts_exactly(order.reserved_cash_remaining, cost)
                &&& subtracts_exactly(s.cash.frozen, cost)
                &&& last ==> (minus(s.cash.frozen, cost) matches Some(left) ==> (minus(
                    order.reserved_cash_remaining,
                    cost,
                ) matches Some(rest) ==> subtracts_exactly(left, rest)))
            }
        }
    }
}

/// What the order of a fill and what is frozen become. The order has so many more
/// shares filled, at the price of the shares, with the commission. A buy uses up the
/// price and its fees of the reserved cash, a sell its shares of the reserved shares,
/// the last fill frees what is left, and what is frozen changes as what is reserved
/// does.
pub open spec fn fill_shows(
    s: StrategyStateView,
    n: StrategyStateView,
    order: OrderView,
    fill: FillView,
    next: OrderStatus,
) -> bool {
    lookup::<String, OrderView>(n.orders, fill.order_id) matches Some(o) && {
        &&& changed_at::<String, OrderView>(s.orders, n.orders, fill.order_id, o)
        &&& o.status == next
        &&& o.filled_quantity == order.filled_quantity + fill.quantity
        &&& o.filled_quantity <= order.intent.quantity
        &&& next == OrderStatus::Filled <==> o.filled_quantity == order.intent.quantity
        &&& o.filled_notional.units() == order.filled_notional.units() + fill.price.units()
            * fill.quantity
        &&& o.commission_charged.units() == order.commission_charged.units()
            + fill.commission.units()
        &&& next == OrderStatus::Filled ==> o.reserved_cash_remaining.units() == 0
            && o.reserved_quantity_remaining == 0
        &&& fill.direction == Direction::Buy ==> {
            let cost = fill.price.units() * fill.quantity + fill.commission.units()
                + fill.tax.units();
            &&& order.reserved_cash_remaining.units() >= cost
            &&& next != OrderStatus::Filled ==> o.reserved_cash_remaining.units()
                == order.reserved_cash_remaining.units() - cost && o.reserved_quantity_remaining
                == order.reserved_quantity_remaining
            &&& n.cash.frozen.units() - o.reserved_cash_remaining.units() == s.cash.frozen.units()
                - order.reserved_cash_remaining.units()
        }
        &&& fill.direction == Direction::Sell ==> {
            &&& order.reserved_quantity_remaining >= fill.quantity
            &&& next != OrderStatus::Filled ==> o.reserved_quantity_remaining
                == order.reserved_quantity_remaining - fill.quantity && o.reserved_cash_remaining
                == order.reserved_cash_remaining
            &&& n.position.frozen_sell - o.reserved_quantity_remaining == s.position.frozen_sell
                - order.reserved_quantity_remaining
        }
        &&& o.order_id == order.order_id && o.intent == order.intent && o.cancel_requested_reason
            == order.cancel_requested_reason && o.cancel_requested_at == order.cancel_requested_at
    }
}

/// A fill is of the direction of its order, of lots that the order names, and of no more
/// than the order still lacks; it brings the order and what is frozen up to date as
/// [`fill_shows`] says. Where no amount has to be rounded.
pub proof fn law_fills_update_their_order(
    s: StrategyStateView,
    e: EventEnvelopeView,
    a: AppraisalView,
)
    requires
        e.event_type == EventType::OrderPartiallyFilled || e.event_type == EventType::OrderFilled,
        ordered::<String, OrderView>(s.orders),
        e.payload matches PayloadView::Fill(p) && p.fill matches Some(fill) && !holds_key::<
            String,
            (),
        >(s.processed_fills, fill.fill_id) && (order_of(s, fill.order_id) matches Some(order)
            ==> order.intent.origin is None && fills_exactly(
            s,
            order,
            fill,
            e.event_type == EventType::OrderFilled,
        )),
    ensures
        after(s, e, a) matches Some(n) ==> {
            let fill = e.payload->Fill_0.fill->0;
            let next = if e.event_type == EventType::OrderFilled {
                OrderStatus::Filled
            } else {
                OrderStatus::PartiallyFilled
            };
            &&& order_of(s, fill.order_id) matches Some(order) && {
                &&& fill.direction == order.intent.direction
                &&& fill.quantity > 0
                &&& forall|i: int|
                    0 <= i < fill.target_lot_ids.len() ==> order.intent.target_lot_ids.contains(
                        #[trigger] fill.target_lot_ids[i],
                    )
                &&& fill_shows(s, n, order, fill, next)
            }
            &&& fill.direction == Direction::Sell ==> n.cash.frozen == s.cash.frozen
            &&& fill.direction == Direction::Buy ==> n.position.frozen_sell
                == s.position.frozen_sell
        },
{
    reveal(order_reduced);
    if let Some(n) = after(s, e, a) {
        let p = e.payload->Fill_0;
        let fill = p.fill->0;
        let index = small_index(p.grid_index)->0;
        let last = e.event_type == EventType::OrderFilled;
        let next = if last {
            OrderStatus::Filled
        } else {
            OrderStatus::PartiallyFilled
        };
        let c = StrategyStateView { event_count: s.event_count.checked_add(1)->0, ..s };
        let order = order_of(s, fill.order_id)->0;
        let x = fill_amounts(c, order, fill, last)->0;
        lemma_fill_amounts(c, order, fill, last);
        let b = fill_booked(c, e, order, fill, index, a)->0;
        lemma_of_parts(0, 0);
        lemma_changed_at::<String, OrderView>(
            s.orders,
            fill.order_id,
            order_filled(order, fill.direction, x, next),
        );
        assert(b.orders == s.orders);
        assert(b.cash.frozen == s.cash.frozen);
        assert(b.position.frozen_sell == s.position.frozen_sell);
    }
}

proof fn lemma_fill_amounts(s: StrategyStateView, order: OrderView, fill: FillView, last: bool)
    requires
        fills_exactly(s, order, fill, last),
    ensures
        fill_amounts(s, order, fill, last) matches Some(x) ==> {
            let cost = fill.price.units() * fill.quantity + fill.commission.units()
                + fill.tax.units();
            &&& x.quantity == order.filled_quantity + fill.quantity
            &&& x.notional.units() == order.filled_notional.units() + fill.price.units()
                * fill.quantity
            &&& x.commission.units() == order.commission_charged.units() + fill.commission.units()
            &&& fill.direction == Direction::Buy ==> {
                &&& order.reserved_cash_remaining.units() >= cost
                &&& x.cash_reservation.units() == order.reserved_cash_remaining.units() - cost
                &&& x.frozen_cash.units() == s.cash.frozen.units() - (if last {
                    order.reserved_cash_remaining.units()
                } else {
                    cost
                })
            }
            &&& fill.direction == Direction::Sell ==> {
                &&& order.reserved_quantity_remaining >= fill.quantity
                &&& x.quantity_reservation == order.reserved_quantity_remaining - fill.quantity
                &&& x.frozen_sell == s.position.frozen_sell - (if last {
                    order.reserved_quantity_remaining
                } else {
                    fill.quantity
                })
            }
        },
{
    lemma_times_whole(fill.price, fill.quantity as int);
    let v = times(fill.price, Decimal::whole(fill.quantity as int))->0;
    lemma_plus_exact(order.commission_charged, fill.commission);
    lemma_plus_exact(order.filled_notional, v);
    lemma_plus_exact(v, fill.commission);
    let x = plus(v, fill.commission)->0;
    lemma_plus_exact(x, fill.tax);
    let cost = plus(x, fill.tax)->0;
    lemma_minus_exact(order.reserved_cash_remaining, cost);
    lemma_minus_exact(s.cash.frozen, cost);
    if last {
        lemma_minus_exact(
            minus(s.cash.frozen, cost)->0,
            minus(order.reserved_cash_remaining, cost)->0,
        );
    }
}

/// A fill of a grid order books its cash, shares, lots and profit as a fill does, with
/// losses refused but in the first layout; its level was executed, and the fill is
/// known afterwards.
pub proof fn law_fills_reach_the_account(
    s: StrategyStateView,
    e: EventEnvelopeView,
    a: AppraisalView,
)
    requires
        e.event_type == EventType::OrderPartiallyFilled || e.event_type == EventType::OrderFilled,
        ordered::<i32, GridLevelState>(s.levels),
        ordered::<i32, ()>(s.historically_executed_levels),
        ordered::<String, ()>(s.processed_fills),
        e.payload matches PayloadView::Fill(p) && p.fill matches Some(fill) && !holds_key::<
            String,
            (),
        >(s.processed_fills, fill.fill_id) && (order_of(s, fill.order_id) matches Some(order)
            ==> order.intent.origin is None),
    ensures
        after(s, e, a) matches Some(n) ==> {
            let fill = e.payload->Fill_0.fill->0;
            &&& small_index(e.payload->Fill_0.grid_index) matches Some(index) && {
                &&& filled(s, fill, index, a.fee_split, e.schema_version != 1) matches Ok(t) && {
                    &&& n.cash.available == t.cash.available
                    &&& n.cash.total_fees == t.cash.total_fees
                    &&& n.position.total == t.position.total
                    &&& n.position.sellable == t.position.sellable
                    &&& n.position.today_bought == t.position.today_bought
                    &&& n.lots == t.lots
                    &&& n.realized_pnl == t.realized_pnl
                    &&& n.deployed_grid_budget == t.deployed_grid_budget
                }
                &&& holds_key::<i32, ()>(n.historically_executed_levels, index)
                &&& lookup::<i32, GridLevelState>(s.levels, index) matches Some(level)
                    ==> changed_at::<i32, GridLevelState>(
                    s.levels,
                    n.levels,
                    index,
                    GridLevelState { status: GridLevelStatus::Executed, ..level },
                )
                &&& lookup::<i32, GridLevelState>(s.levels, index) is None ==> n.levels == s.levels
            }
            &&& holds_key::<String, ()>(n.processed_fills, fill.fill_id)
            &&& n.grid_rights == s.grid_rights && n.right_tranches == s.right_tranches && n.mode
                == s.mode && n.cycle_id == s.cycle_id
        },
{
    reveal(order_reduced);
    if let Some(n) = after(s, e, a) {
        let p = e.payload->Fill_0;
        let fill = p.fill->0;
        let index = small_index(p.grid_index)->0;
        let c = StrategyStateView { event_count: s.event_count.checked_add(1)->0, ..s };
        let order = order_of(s, fill.order_id)->0;
        let b = fill_booked(c, e, order, fill, index, a)->0;
        lemma_fill_ignores_count(s, c, fill, index, a.fee_split, e.schema_version != 1);
        lemma_with::<i32, ()>(s.historically_executed_levels, index, ());
        lemma_with::<String, ()>(s.processed_fills, fill.fill_id, ());
        assert(b.levels == s.levels);
        if let Some(level) = lookup::<i32, GridLevelState>(s.levels, index) {
            lemma_changed_at::<i32, GridLevelState>(
                s.levels,
                index,
                GridLevelState { status: GridLevelStatus::Executed, ..level },
            );
        }
    }
}

proof fn lemma_close_ignores_count(
    s: StrategyStateView,
    c: StrategyStateView,
    fill: FillView,
    fees: Decimal,
    allocations: Seq<crate::model::ledger::LotQuantityAllocationView>,
    split: Option<Seq<Decimal>>,
    enforce: bool,
    n: nat,
)
    requires
        c.lots == s.lots,
    ensures
        crate::domain::close_slices(s, fill, fees, allocations, split, enforce, n)
            == crate::domain::close_slices(c, fill, fees, allocations, split, enforce, n),
    decreases n,
{
    if n > 0 {
        lemma_close_ignores_count(s, c, fill, fees, allocations, split, enforce, (n - 1) as nat);
    }
}

proof fn lemma_fill_ignores_count(
    s: StrategyStateView,
    c: StrategyStateView,
    fill: FillView,
    index: i32,
    split: Option<Seq<Decimal>>,
    enforce: bool,
)
    requires
        c == (StrategyStateView { event_count: c.event_count, ..s }),
    ensures
        match filled(c, fill, index, split, enforce) {
            Ok(t) => filled(s, fill, index, split, enforce) == Ok::<
                StrategyStateView,
                crate::domain::DomainErrorView,
            >(StrategyStateView { event_count: s.event_count, ..t }),
            Err(x) => filled(s, fill, index, split, enforce) is Err,
        },
{
    if let Some(fees) = plus(fill.commission, fill.tax) {
        if let Ok(allocations) = crate::domain::sell_allocations(s, fill) {
            let used = if fill.target_lot_allocations.len() > 0 {
                split
            } else {
                None
            };
            lemma_close_ignores_count(
                s,
                c,
                fill,
                fees,
                allocations,
                used,
                enforce,
                allocations.len(),
            );
        }
    }
}

/// A fill carries the charges that the terms of its order give. A sell fill names parts of
/// lots that come to its shares, each some shares of a part that its order planned and
/// without a loss at its worst; in the last layout they are those that fall to it.
pub proof fn law_fills_follow_the_plan(s: StrategyStateView, e: EventEnvelopeView, a: AppraisalView)
    requires
        e.event_type == EventType::OrderPartiallyFilled || e.event_type == EventType::OrderFilled,
        e.payload matches PayloadView::Fill(p) && p.fill matches Some(fill) && !holds_key::<
            String,
            (),
        >(s.processed_fills, fill.fill_id),
    ensures
        after(s, e, a) is Some ==> {
            let fill = e.payload->Fill_0.fill->0;
            let parts = fill.target_lot_allocations;
            &&& order_of(s, fill.order_id) matches Some(order) && {
                &&& e.schema_version >= 3 ==> (a.fill_charges matches Some(c)
                    && fill.commission.units() == c.commission.units() && fill.tax.units()
                    == c.tax.units()) && order.intent.profit_guard_policy is Some
                &&& e.schema_version >= 2 && fill.direction == Direction::Sell ==> {
                    &&& parts.len() > 0
                    &&& total(allocation_quantities(parts)) == fill.quantity
                    &&& forall|i: int|
                        0 <= i < parts.len() ==> (#[trigger] parts[i]).quantity > 0
                            && parts[i].worst_case_profit.units() >= 0 && exists|k: int|
                            0 <= k < order.intent.target_lot_allocations.len() && (
                            #[trigger] order.intent.target_lot_allocations[k]).lot_id
                                == parts[i].lot_id
                                && order.intent.target_lot_allocations[k].tranche_id
                                == parts[i].tranche_id
                }
                &&& e.schema_version >= 3 && fill.direction == Direction::Sell ==> (
                a.fill_slices matches Some(slices) && slices.len() == parts.len() && forall|i: int|
                    0 <= i < parts.len() ==> (#[trigger] parts[i]).quantity == slices[i].quantity
                        && parts[i].lot_id == slices[i].lot_id && parts[i].tranche_id
                        == slices[i].tranche_id && parts[i].cost_basis.units()
                        == slices[i].cost_basis.units())
            }
        },
{
    reveal(order_reduced);
    if after(s, e, a) is Some {
        let fill = e.payload->Fill_0.fill->0;
        let order = order_of(s, fill.order_id)->0;
        let parts = fill.target_lot_allocations;
        lemma_checked_total(allocation_quantities(parts));
        if e.schema_version >= 2 && fill.direction == Direction::Sell {
            assert forall|i: int| 0 <= i < parts.len() implies (#[trigger] parts[i]).quantity > 0
                && parts[i].worst_case_profit.units() >= 0 && exists|k: int|
                0 <= k < order.intent.target_lot_allocations.len() && (
                #[trigger] order.intent.target_lot_allocations[k]).lot_id == parts[i].lot_id
                    && order.intent.target_lot_allocations[k].tranche_id == parts[i].tranche_id by {
                assert(crate::event::fills::part_of_plan(
                    parts[i],
                    order.intent.target_lot_allocations,
                ));
            }
            if e.schema_version >= 3 {
                let slices = a.fill_slices->0;
                assert forall|i: int| 0 <= i < parts.len() implies (#[trigger] parts[i]).quantity
                    == slices[i].quantity && parts[i].lot_id == slices[i].lot_id
                    && parts[i].tranche_id == slices[i].tranche_id && parts[i].cost_basis.units()
                    == slices[i].cost_basis.units() by {
                    assert(crate::model::ledger::lot_quantity_allocation_alike(
                        parts[i],
                        slices[i],
                    ));
                }
            }
        }
    }
}

/// A fill of the order that opens the balance takes its accounts from the booking of the
/// opening, and executes no level; the fill is known afterwards.
pub proof fn law_opening_fills_are_booked(
    s: StrategyStateView,
    e: EventEnvelopeView,
    a: AppraisalView,
)
    requires
        e.event_type == EventType::OrderPartiallyFilled || e.event_type == EventType::OrderFilled,
        e.schema_version != 1,
        ordered::<String, ()>(s.processed_fills),
        e.payload matches PayloadView::Fill(p) && p.fill matches Some(fill) && !holds_key::<
            String,
            (),
        >(s.processed_fills, fill.fill_id) && (order_of(s, fill.order_id) matches Some(order)
            ==> order.intent.origin is Some),
    ensures
        after(s, e, a) matches Some(n) ==> {
            let fill = e.payload->Fill_0.fill->0;
            &&& a.opening_booking matches Some(o) && {
                &&& n.cash.available == o.cash.available && n.cash.total_fees == o.cash.total_fees
                &&& n.position.total == o.position.total && n.position.sellable
                    == o.position.sellable && n.position.today_bought == o.position.today_bought
                &&& n.lots == o.lots && n.deployed_grid_budget == o.deployed_grid_budget
            }
            &&& n.levels == s.levels && n.historically_executed_levels
                == s.historically_executed_levels && n.realized_pnl == s.realized_pnl
            &&& holds_key::<String, ()>(n.processed_fills, fill.fill_id)
        },
{
    reveal(order_reduced);
    if after(s, e, a) is Some {
        let fill = e.payload->Fill_0.fill->0;
        lemma_with::<String, ()>(s.processed_fills, fill.fill_id, ());
    }
}

} // verus!

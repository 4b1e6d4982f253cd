//! Orders on their way: submitted, accepted, cancelled, rejected and filled.
use crate::arith::{checked_total, total_of};
use crate::decimal::{minus, plus, times, Decimal};
use crate::domain::{allocation_quantities, filled, quantities_of};
use crate::event::kinds::EventType;
use crate::event::levels::{index_in_range, small_index, with_status};
use crate::event::payload::{EventEnvelope, EventEnvelopeView};
use crate::model::ledger::{
    lot_quantity_allocation_alike, CashAccount, Fill, FillView, GridLevelStatus,
    LotQuantityAllocation, LotQuantityAllocationView, Order, OrderStatus, OrderView, Position,
    StrategyState, StrategyStateView,
};
use crate::model::market::Direction;
use crate::model::notices::{
    Appraisal, AppraisalView, FillNotice, FillNoticeView, OpeningBookingView, OrderNotice,
    OrderNoticeView,
};
use crate::table::{holds_key, lookup, with};
use crate::text::{blank, is_blank, text_eq};
use crate::value::{text_list_contains, Value};
use vstd::prelude::*;

verus! {

/// The order with an identifier.
pub open spec fn order_of(s: StrategyStateView, id: Seq<char>) -> Option<OrderView> {
    lookup::<String, OrderView>(s.orders, id)
}

/// A state with another order in the place of one.
pub open spec fn with_order(s: StrategyStateView, id: Seq<char>, order: OrderView) ->
    StrategyStateView {
    StrategyStateView { orders: with::<String, OrderView>(s.orders, id, order), ..s }
}

/// The state after an order is submitted: what it reserves is frozen.
pub open spec fn order_submitted(s: StrategyStateView, p: OrderNoticeView) -> Option<
    StrategyStateView,
> {
    match p.order_id {
        None => None,
        Some(id) => match order_of(s, id) {
            None => None,
            Some(order) => if order.status == OrderStatus::Submitted {
                Some(s)
            } else {
                match (
                    plus(s.cash.frozen, order.reserved_cash_remaining),
                    s.position.frozen_sell.checked_add(order.reserved_quantity_remaining),
                ) {
                    (Some(frozen), Some(frozen_sell)) => if order.status.may_become(
                        OrderStatus::Submitted,
                    ) {
                        Some(
                            StrategyStateView {
                                cash: CashAccount { frozen, ..s.cash },
                                position: Position { frozen_sell, ..s.position },
                                ..with_order(
                                    s,
                                    id,
                                    OrderView { status: OrderStatus::Submitted, ..order },
                                )
                            },
                        )
                    } else {
                        None
                    },
                    _ => None,
                }
            },
        },
    }
}

/// The status that a notice gives an order.
pub open spec fn notified_status(t: EventType) -> Option<OrderStatus> {
    match t {
        EventType::OrderAccepted => Some(OrderStatus::Accepted),
        EventType::OrderCancelRequested => Some(OrderStatus::CancelPending),
        EventType::OrderRejected => Some(OrderStatus::Rejected),
        EventType::OrderCancelled => Some(OrderStatus::Cancelled),
        _ => None,
    }
}

/// An order after its cancellation is asked for. The same request may come
/// again, another one not.
pub open spec fn cancel_noted(
    order: OrderView,
    e: EventEnvelopeView,
    reason: Option<Seq<char>>,
) -> Option<OrderView> {
    match reason {
        None => None,
        Some(r) => if blank(r) {
            None
        } else {
            match order.cancel_requested_reason {
                Some(existing) => if existing == r && order.cancel_requested_at == Some(
                    e.event_time,
                ) {
                    Some(order)
                } else {
                    None
                },
                None => Some(
                    OrderView {
                        cancel_requested_reason: Some(r),
                        cancel_requested_at: Some(e.event_time),
                        ..order
                    },
                ),
            }
        },
    }
}

/// The state after an order gets another status. An order that ends without
/// being filled frees what it reserved.
pub open spec fn status_taken(
    s: StrategyStateView,
    id: Seq<char>,
    order: OrderView,
    next: OrderStatus,
) -> Option<StrategyStateView> {
    if order.status == next {
        Some(with_order(s, id, order))
    } else if !order.status.may_become(next) {
        None
    } else if next == OrderStatus::Rejected || next == OrderStatus::Cancelled {
        match (
            minus(s.cash.frozen, order.reserved_cash_remaining),
            s.position.frozen_sell.checked_sub(order.reserved_quantity_remaining),
        ) {
            (Some(frozen), Some(frozen_sell)) => Some(
                StrategyStateView {
                    cash: CashAccount { frozen, ..s.cash },
                    position: Position { frozen_sell, ..s.position },
                    ..with_order(
                        s,
                        id,
                        OrderView {
                            status: next,
                            reserved_cash_remaining: Decimal::zero(),
                            reserved_quantity_remaining: 0,
                            ..order
                        },
                    )
                },
            ),
            _ => None,
        }
    } else {
        Some(with_order(s, id, OrderView { status: next, ..order }))
    }
}

/// The state after a notice on an order.
pub open spec fn order_notified(
    s: StrategyStateView,
    e: EventEnvelopeView,
    p: OrderNoticeView,
    next: OrderStatus,
) -> Option<StrategyStateView> {
    match p.order_id {
        None => None,
        Some(id) => match order_of(s, id) {
            None => None,
            Some(order) => {
                let noted = if next == OrderStatus::CancelPending {
                    cancel_noted(order, e, p.reason)
                } else {
                    Some(order)
                };
                match noted {
                    None => None,
                    Some(n) => status_taken(s, id, n, next),
                }
            },
        },
    }
}

/// Whether the lots of a fill are among those of its order.
pub open spec fn lots_within(ids: Seq<Seq<char>>, lots: Seq<Seq<char>>) -> bool {
    forall|i: int| 0 <= i < ids.len() ==> lots.contains(#[trigger] ids[i])
}

/// Whether two lists of allocations agree.
pub open spec fn allocations_agree(
    a: Seq<LotQuantityAllocationView>,
    b: Seq<LotQuantityAllocationView>,
) -> bool {
    a.len() == b.len() && forall|i: int|
        0 <= i < a.len() ==> lot_quantity_allocation_alike(#[trigger] a[i], b[i])
}

/// Whether an allocation of a fill is part of what its order planned.
pub open spec fn part_of_plan(
    x: LotQuantityAllocationView,
    planned: Seq<LotQuantityAllocationView>,
) -> bool {
    &&& x.quantity > 0
    &&& x.tranche_id.len() > 0
    &&& x.worst_case_profit.units() >= 0
    &&& exists|i: int|
        0 <= i < planned.len() && (#[trigger] planned[i]).lot_id == x.lot_id
            && planned[i].tranche_id == x.tranche_id
}

/// Whether a sell fill closes exactly the parts of lots that its order planned
/// for it.
pub open spec fn sell_fill_planned(
    e: EventEnvelopeView,
    order: OrderView,
    fill: FillView,
    a: AppraisalView,
) -> bool {
    let list = fill.target_lot_allocations;
    &&& e.schema_version >= 3 ==> {
        &&& order.intent.profit_guard_policy is Some
        &&& a.fill_slices matches Some(slices)
        &&& allocations_agree(list, slices)
    }
    &&& checked_total(allocation_quantities(list)) == Some(fill.quantity)
    &&& list.len() > 0
    &&& forall|i: int|
        0 <= i < list.len() ==> part_of_plan(
            #[trigger] list[i],
            order.intent.target_lot_allocations,
        )
}

/// Whether a fill has the charges that the terms of its order give.
pub open spec fn charges_agree(order: OrderView, fill: FillView, a: AppraisalView) -> bool {
    &&& order.intent.profit_guard_policy is Some
    &&& a.fill_charges matches Some(charges)
    &&& fill.commission.units() == charges.commission.units()
    &&& fill.tax.units() == charges.tax.units()
}

/// Whether a fill fits its order.
pub open spec fn fill_fits(
    e: EventEnvelopeView,
    order: OrderView,
    fill: FillView,
    next: OrderStatus,
    a: AppraisalView,
) -> bool {
    &&& fill.direction == order.intent.direction
    &&& fill.quantity > 0
    &&& order.filled_quantity + fill.quantity <= order.intent.quantity
    &&& order.filled_quantity + fill.quantity >= i64::MIN
    &&& lots_within(fill.target_lot_ids, order.intent.target_lot_ids)
    &&& e.schema_version >= 3 ==> charges_agree(order, fill, a)
    &&& e.schema_version >= 2 && fill.direction == Direction::Sell ==> sell_fill_planned(
        e,
        order,
        fill,
        a,
    )
    &&& next == OrderStatus::Filled ==> order.filled_quantity + fill.quantity
        == order.intent.quantity
    &&& next == OrderStatus::PartiallyFilled ==> order.filled_quantity + fill.quantity
        < order.intent.quantity
    &&& order.status == next || order.status.may_become(next)
}

/// What a fill makes of the numbers of its order and of what is frozen.
pub struct FillAmounts {
    pub quantity: i64,
    pub notional: Decimal,
    pub commission: Decimal,
    pub cash_reservation: Decimal,
    pub quantity_reservation: i64,
    pub frozen_cash: Decimal,
    pub frozen_sell: i64,
}

/// The amounts of a buy fill: its cost leaves the reserved and the frozen cash,
/// and the last fill frees the rest.
pub open spec fn buy_amounts(
    order: OrderView,
    frozen: Decimal,
    frozen_sell: i64,
    cost: Decimal,
    quantity: i64,
    notional: Decimal,
    commission: Decimal,
    last: bool,
) -> Option<FillAmounts> {
    if order.reserved_cash_remaining.units() < cost.units() {
        None
    } else {
        match (minus(order.reserved_cash_remaining, cost), minus(frozen, cost)) {
            (Some(reservation), Some(left)) => {
                let end = if last {
                    minus(left, reservation)
                } else {
                    Some(left)
                };
                match end {
                    None => None,
                    Some(frozen_cash) => Some(
                        FillAmounts {
                            quantity,
                            notional,
                            commission,
                            cash_reservation: reservation,
                            quantity_reservation: order.reserved_quantity_remaining,
                            frozen_cash,
                            frozen_sell,
                        },
                    ),
                }
            },
            _ => None,
        }
    }
}

/// The amounts of a sell fill: its shares leave the reserved and the frozen
/// ones, and the last fill frees the rest.
pub open spec fn sell_amounts(
    order: OrderView,
    frozen: Decimal,
    frozen_sell: i64,
    sold: i64,
    quantity: i64,
    notional: Decimal,
    commission: Decimal,
    last: bool,
) -> Option<FillAmounts> {
    if order.reserved_quantity_remaining < sold {
        None
    } else {
        match (
            order.reserved_quantity_remaining.checked_sub(sold),
            frozen_sell.checked_sub(sold),
        ) {
            (Some(reservation), Some(left)) => {
                let end = if last {
                    left.checked_sub(reservation)
                } else {
                    Some(left)
                };
                match end {
                    None => None,
                    Some(frozen_end) => Some(
                        FillAmounts {
                            quantity,
                            notional,
                            commission,
                            cash_reservation: order.reserved_cash_remaining,
                            quantity_reservation: reservation,
                            frozen_cash: frozen,
                            frozen_sell: frozen_end,
                        },
                    ),
                }
            },
            _ => None,
        }
    }
}

/// The amounts of a fill. Nothing where it exceeds what its order reserved or a
/// number leaves its range.
pub open spec fn fill_amounts(
    s: StrategyStateView,
    order: OrderView,
    fill: FillView,
    last: bool,
) -> Option<FillAmounts> {
    match (
        times(fill.price, Decimal::whole(fill.quantity as int)),
        order.filled_quantity.checked_add(fill.quantity),
        plus(order.commission_charged, fill.commission),
    ) {
        (Some(notional), Some(quantity), Some(commission)) => match (
            plus(notional, fill.commission),
            plus(order.filled_notional, notional),
        ) {
            (Some(charged), Some(total)) => match plus(charged, fill.tax) {
                None => None,
                Some(cost) => match fill.direction {
                    Direction::Buy => buy_amounts(
                        order,
                        s.cash.frozen,
                        s.position.frozen_sell,
                        cost,
                        quantity,
                        total,
                        commission,
                        last,
                    ),
                    Direction::Sell => sell_amounts(
                        order,
                        s.cash.frozen,
                        s.position.frozen_sell,
                        fill.quantity,
                        quantity,
                        total,
                        commission,
                        last,
                    ),
                },
            },
            _ => None,
        },
        _ => None,
    }
}

/// The state after the accounts have booked a fill of the opening order: the fill
/// is known, and nothing but the accounts changes.
pub open spec fn opening_booked(
    s: StrategyStateView,
    fill: FillView,
    o: OpeningBookingView,
) -> StrategyStateView {
    StrategyStateView {
        cash: o.cash,
        position: o.position,
        deployed_grid_budget: o.deployed_grid_budget,
        lots: o.lots,
        processed_fills: with::<String, ()>(s.processed_fills, fill.fill_id, ()),
        ..s
    }
}

/// The state after the account has booked a fill. The first layout does not
/// refuse losses, and the opening order is booked by its own rule.
pub open spec fn fill_booked(
    s: StrategyStateView,
    e: EventEnvelopeView,
    order: OrderView,
    fill: FillView,
    index: i32,
    a: AppraisalView,
) -> Option<StrategyStateView> {
    if e.schema_version == 1 {
        match filled(s, fill, index, a.fee_split, false) {
            Ok(n) => Some(n),
            Err(_) => None,
        }
    } else if order.intent.origin is Some {
        match a.opening_booking {
            Some(o) => Some(opening_booked(s, fill, o)),
            None => None,
        }
    } else {
        match filled(s, fill, index, a.fee_split, true) {
            Ok(n) => Some(n),
            Err(_) => None,
        }
    }
}

/// An order after a fill.
pub open spec fn order_filled(
    order: OrderView,
    direction: Direction,
    x: FillAmounts,
    next: OrderStatus,
) -> OrderView {
    let done = next == OrderStatus::Filled;
    OrderView {
        filled_quantity: x.quantity,
        filled_notional: x.notional,
        commission_charged: x.commission,
        reserved_cash_remaining: if done {
            Decimal::zero()
        } else if direction == Direction::Buy {
            x.cash_reservation
        } else {
            order.reserved_cash_remaining
        },
        reserved_quantity_remaining: if done {
            0
        } else if direction == Direction::Sell {
            x.quantity_reservation
        } else {
            order.reserved_quantity_remaining
        },
        status: next,
        ..order
    }
}

/// The state after the order of a booked fill has been brought up to date.
pub open spec fn fill_settled(
    b: StrategyStateView,
    fill: FillView,
    index: i32,
    opening: bool,
    x: FillAmounts,
    next: OrderStatus,
) -> Option<StrategyStateView> {
    match order_of(b, fill.order_id) {
        None => None,
        Some(order) => if order.status != next && !order.status.may_become(next) {
            None
        } else {
            let updated = StrategyStateView {
                cash: if fill.direction == Direction::Buy {
                    CashAccount { frozen: x.frozen_cash, ..b.cash }
                } else {
                    b.cash
                },
                position: if fill.direction == Direction::Sell {
                    Position { frozen_sell: x.frozen_sell, ..b.position }
                } else {
                    b.position
                },
                ..with_order(b, fill.order_id, order_filled(order, fill.direction, x, next))
            };
            if opening {
                Some(updated)
            } else {
                Some(
                    StrategyStateView {
                        historically_executed_levels: with::<i32, ()>(
                            updated.historically_executed_levels,
                            index,
                            (),
                        ),
                        levels: with_status(updated, index, GridLevelStatus::Executed),
                        ..updated
                    },
                )
            }
        },
    }
}

/// The state after a fill. A fill that is known already changes nothing.
pub open spec fn fill_received(
    s: StrategyStateView,
    e: EventEnvelopeView,
    p: FillNoticeView,
    next: OrderStatus,
    a: AppraisalView,
) -> Option<StrategyStateView> {
    match (p.fill, small_index(p.grid_index)) {
        (Some(fill), Some(index)) => if holds_key::<String, ()>(s.processed_fills, fill.fill_id) {
            Some(s)
        } else {
            match order_of(s, fill.order_id) {
                None => None,
                Some(order) => if !fill_fits(e, order, fill, next, a) {
                    None
                } else {
                    match fill_amounts(s, order, fill, next == OrderStatus::Filled) {
                        None => None,
                        Some(x) => match fill_booked(s, e, order, fill, index, a) {
                            None => None,
                            Some(b) => fill_settled(
                                b,
                                fill,
                                index,
                                order.intent.origin is Some,
                                x,
                                next,
                            ),
                        },
                    }
                },
            }
        },
        _ => None,
    }
}

fn lots_are_within(ids: &Vec<String>, lots: &Vec<String>) -> (r: bool)
    ensures
        r == lots_within(ids.deep_view(), lots.deep_view()),
{
    let ghost all = ids.deep_view();
    let mut i: usize = 0;
    while i < ids.len()
        invariant
            i <= ids.len(),
            all == ids.deep_view(),
            forall|j: int| 0 <= j < i ==> lots.deep_view().contains(#[trigger] all[j]),
        decreases ids.len() - i,
    {
        if !text_list_contains(lots, ids[i].as_str()) {
            assert(!lots.deep_view().contains(all[i as int]));
            return false;
        }
        i = i + 1;
    }
    true
}

fn allocations_do_agree(a: &Vec<LotQuantityAllocation>, b: &Vec<LotQuantityAllocation>) -> (r: bool)
    ensures
        r == allocations_agree(a.deep_view(), b.deep_view()),
{
    let ghost x = a.deep_view();
    let ghost y = b.deep_view();
    if a.len() != b.len() {
        return false;
    }
    let mut i: usize = 0;
    while i < a.len()
        invariant
            i <= a.len(),
            a.len() == b.len(),
            x == a.deep_view(),
            y == b.deep_view(),
            forall|j: int| 0 <= j < i ==> lot_quantity_allocation_alike(#[trigger] x[j], y[j]),
        decreases a.len() - i,
    {
        assert(x[i as int] == a[i as int]@);
        assert(y[i as int] == b[i as int]@);
        if !a[i].alike(&b[i]) {
            return false;
        }
        i = i + 1;
    }
    true
}

fn is_part_of_plan(x: &LotQuantityAllocation, planned: &Vec<LotQuantityAllocation>) -> (r: bool)
    ensures
        r == part_of_plan(x@, planned.deep_view()),
{
    let ghost all = planned.deep_view();
    if x.quantity <= 0 || x.tranche_id.as_str().unicode_len() == 0
        || x.worst_case_profit.is_negative() {
        return false;
    }
    let mut i: usize = 0;
    while i < planned.len()
        invariant
            i <= planned.len(),
            all == planned.deep_view(),
            x@.quantity > 0,
            x@.tranche_id.len() > 0,
            x@.worst_case_profit.units() >= 0,
            forall|j: int|
                0 <= j < i ==> !((#[trigger] all[j]).lot_id == x@.lot_id && all[j].tranche_id
                    == x@.tranche_id),
        decreases planned.len() - i,
    {
        assert(all[i as int] == planned[i as int]@);
        if text_eq(planned[i].lot_id.as_str(), x.lot_id.as_str()) && text_eq(
            planned[i].tranche_id.as_str(),
            x.tranche_id.as_str(),
        ) {
            return true;
        }
        i = i + 1;
    }
    false
}

impl Order {
    fn note_cancel(&mut self, event: &EventEnvelope, reason: &Option<String>) -> (r: bool)
        ensures
            match cancel_noted(old(self)@, event@, reason.deep_view()) {
                Some(n) => r && final(self)@ == n,
                None => !r,
            },
    {
        let reason = match reason {
            Some(reason) => reason,
            None => {
                return false;
            },
        };
        if is_blank(reason.as_str()) {
            return false;
        }
        match &self.cancel_requested_reason {
            Some(existing) => {
                let at_same_time = match &self.cancel_requested_at {
                    Some(at) => at.same(&event.event_time),
                    None => false,
                };
                text_eq(existing.as_str(), reason.as_str()) && at_same_time
            },
            None => {
                self.cancel_requested_reason = Some(reason.dup());
                self.cancel_requested_at = Some(event.event_time);
                true
            },
        }
    }

    fn sell_fill_is_planned(&self, event: &EventEnvelope, fill: &Fill, appraisal: &Appraisal) -> (r:
        bool)
        ensures
            r == sell_fill_planned(event@, self@, fill@, appraisal@),
    {
        let list = &fill.target_lot_allocations;
        let ghost all = list.deep_view();
        if event.schema_version >= 3 {
            let sliced = match (&self.intent.profit_guard_policy, &appraisal.fill_slices) {
                (Some(_), Some(slices)) => allocations_do_agree(list, slices),
                _ => false,
            };
            if !sliced {
                return false;
            }
        }
        let quantities = quantities_of(list);
        let sums = match total_of(&quantities) {
            Some(q) => q == fill.quantity,
            None => false,
        };
        if !sums || list.len() == 0 {
            return false;
        }
        let mut i: usize = 0;
        while i < list.len()
            invariant
                i <= list.len(),
                all == list.deep_view(),
                all == fill@.target_lot_allocations,
                forall|j: int|
                    0 <= j < i ==> part_of_plan(
                        #[trigger] all[j],
                        self@.intent.target_lot_allocations,
                    ),
            decreases list.len() - i,
        {
            assert(all[i as int] == list[i as int]@);
            if !is_part_of_plan(&list[i], &self.intent.target_lot_allocations) {
                return false;
            }
            i = i + 1;
        }
        true
    }

    fn charges_do_agree(&self, fill: &Fill, appraisal: &Appraisal) -> (r: bool)
        ensures
            r == charges_agree(self@, fill@, appraisal@),
    {
        match (&self.intent.profit_guard_policy, &appraisal.fill_charges) {
            (Some(_), Some(charges)) => fill.commission.equals(&charges.commission)
                && fill.tax.equals(&charges.tax),
            _ => false,
        }
    }

    fn fill_does_fit(
        &self,
        event: &EventEnvelope,
        fill: &Fill,
        next: OrderStatus,
        appraisal: &Appraisal,
    ) -> (r: bool)
        ensures
            r == fill_fits(event@, self@, fill@, next, appraisal@),
    {
        let resulting: i64 = match self.filled_quantity.checked_add(fill.quantity) {
            Some(q) => q,
            None => {
                return false;
            },
        };
        fill.direction == self.intent.direction && fill.quantity > 0 && resulting
            <= self.intent.quantity && lots_are_within(
            &fill.target_lot_ids,
            &self.intent.target_lot_ids,
        ) && (event.schema_version < 3 || self.charges_do_agree(fill, appraisal)) && (
        event.schema_version < 2 || !matches!(fill.direction, Direction::Sell)
            || self.sell_fill_is_planned(event, fill, appraisal)) && (!matches!(
            next,
            OrderStatus::Filled
        ) || resulting == self.intent.quantity) && (!matches!(next, OrderStatus::PartiallyFilled)
            || resulting < self.intent.quantity) && (self.status == next
            || self.status.can_transition(next))
    }

    fn buy_fill_amounts(
        &self,
        frozen: Decimal,
        frozen_sell: i64,
        cost: Decimal,
        quantity: i64,
        notional: Decimal,
        commission: Decimal,
        last: bool,
    ) -> (r: Option<FillAmounts>)
        ensures
            r == buy_amounts(
                self@,
                frozen,
                frozen_sell,
                cost,
                quantity,
                notional,
                commission,
                last,
            ),
    {
        if self.reserved_cash_remaining.below(&cost) {
            return None;
        }
        match (self.reserved_cash_remaining.checked_sub(cost), frozen.checked_sub(cost)) {
            (Some(reservation), Some(left)) => {
                let end = if last {
                    left.checked_sub(reservation)
                } else {
                    Some(left)
                };
                match end {
                    None => None,
                    Some(frozen_cash) => Some(
                        FillAmounts {
                            quantity,
                            notional,
                            commission,
                            cash_reservation: reservation,
                            quantity_reservation: self.reserved_quantity_remaining,
                            frozen_cash,
                            frozen_sell,
                        },
                    ),
                }
            },
            _ => None,
        }
    }

    fn sell_fill_amounts(
        &self,
        frozen: Decimal,
        frozen_sell: i64,
        sold: i64,
        quantity: i64,
        notional: Decimal,
        commission: Decimal,
        last: bool,
    ) -> (r: Option<FillAmounts>)
        ensures
            r == sell_amounts(
                self@,
                frozen,
                frozen_sell,
                sold,
                quantity,
                notional,
                commission,
                last,
            ),
    {
        if self.reserved_quantity_remaining < sold {
            return None;
        }
        match (
            self.reserved_quantity_remaining.checked_sub(sold),
            frozen_sell.checked_sub(sold),
        ) {
            (Some(reservation), Some(left)) => {
                let end: Option<i64> = if last {
                    left.checked_sub(reservation)
                } else {
                    Some(left)
                };
                match end {
                    None => None,
                    Some(frozen_end) => Some(
                        FillAmounts {
                            quantity,
                            notional,
                            commission,
                            cash_reservation: self.reserved_cash_remaining,
                            quantity_reservation: reservation,
                            frozen_cash: frozen,
                            frozen_sell: frozen_end,
                        },
                    ),
                }
            },
            _ => None,
        }
    }
}

impl StrategyState {
    pub(crate) fn submit_order(&mut self, notice: &OrderNotice) -> (r: bool)
        ensures
            match order_submitted(old(self)@, notice@) {
                Some(n) => r && final(self)@ == n,
                None => !r,
            },
    {
        let id = match &notice.order_id {
            Some(id) => id,
            None => {
                return false;
            },
        };
        let mut order = match self.orders.get(id) {
            Some(order) => order.dup(),
            None => {
                return false;
            },
        };
        if matches!(order.status, OrderStatus::Submitted) {
            return true;
        }
        match (
            self.cash.frozen.checked_add(order.reserved_cash_remaining),
            self.position.frozen_sell.checked_add(order.reserved_quantity_remaining),
        ) {
            (Some(frozen), Some(frozen_sell)) => {
                if order.transition(OrderStatus::Submitted).is_err() {
                    return false;
                }
                self.orders.put(id.dup(), order);
                self.cash.frozen = frozen;
                self.position.frozen_sell = frozen_sell;
                true
            },
            _ => false,
        }
    }

    fn take_status(&mut self, id: &String, order: Order, next: OrderStatus) -> (r: bool)
        ensures
            match status_taken(old(self)@, id@, order@, next) {
                Some(n) => r && final(self)@ == n,
                None => !r,
            },
    {
        let mut order = order;
        if order.status == next {
            self.orders.put(id.dup(), order);
            return true;
        }
        if matches!(next, OrderStatus::Rejected | OrderStatus::Cancelled) {
            match (
                self.cash.frozen.checked_sub(order.reserved_cash_remaining),
                self.position.frozen_sell.checked_sub(order.reserved_quantity_remaining),
            ) {
                (Some(frozen), Some(frozen_sell)) => {
                    if order.transition(next).is_err() {
                        return false;
                    }
                    order.reserved_cash_remaining = Decimal::nil();
                    order.reserved_quantity_remaining = 0;
                    self.orders.put(id.dup(), order);
                    self.cash.frozen = frozen;
                    self.position.frozen_sell = frozen_sell;
                    true
                },
                _ => false,
            }
        } else {
            if order.transition(next).is_err() {
                return false;
            }
            self.orders.put(id.dup(), order);
            true
        }
    }

    pub(crate) fn notify_order(
        &mut self,
        event: &EventEnvelope,
        notice: &OrderNotice,
        next: OrderStatus,
    ) -> (r: bool)
        ensures
            match order_notified(old(self)@, event@, notice@, next) {
                Some(n) => r && final(self)@ == n,
                None => !r,
            },
    {
        let id = match &notice.order_id {
            Some(id) => id,
            None => {
                return false;
            },
        };
        let mut order = match self.orders.get(id) {
            Some(order) => order.dup(),
            None => {
                return false;
            },
        };
        if matches!(next, OrderStatus::CancelPending) && !order.note_cancel(event, &notice.reason) {
            return false;
        }
        self.take_status(id, order, next)
    }

    fn amounts_of_fill(&self, order: &Order, fill: &Fill, last: bool) -> (r: Option<FillAmounts>)
        ensures
            r == fill_amounts(self@, order@, fill@, last),
    {
        let (notional, quantity, commission): (Decimal, i64, Decimal) = match (
            fill.price.checked_mul(Decimal::from_i64(fill.quantity)),
            order.filled_quantity.checked_add(fill.quantity),
            order.commission_charged.checked_add(fill.commission),
        ) {
            (Some(notional), Some(quantity), Some(commission)) => (notional, quantity, commission),
            _ => {
                return None;
            },
        };
        let (charged, total) = match (
            notional.checked_add(fill.commission),
            order.filled_notional.checked_add(notional),
        ) {
            (Some(charged), Some(total)) => (charged, total),
            _ => {
                return None;
            },
        };
        let cost = match charged.checked_add(fill.tax) {
            Some(cost) => cost,
            None => {
                return None;
            },
        };
        match fill.direction {
            Direction::Buy => order.buy_fill_amounts(
                self.cash.frozen,
                self.position.frozen_sell,
                cost,
                quantity,
                total,
                commission,
                last,
            ),
            Direction::Sell => order.sell_fill_amounts(
                self.cash.frozen,
                self.position.frozen_sell,
                fill.quantity,
                quantity,
                total,
                commission,
                last,
            ),
        }
    }

    fn book_fill(
        &mut self,
        event: &EventEnvelope,
        opening: bool,
        fill: &Fill,
        index: i32,
        appraisal: &Appraisal,
        Ghost(order): Ghost<OrderView>,
    ) -> (r: bool)
        requires
            !holds_key::<String, ()>(old(self)@.processed_fills, fill@.fill_id),
            opening == order.intent.origin is Some,
        ensures
            match fill_booked(old(self)@, event@, order, fill@, index, appraisal@) {
                Some(n) => r && final(self)@ == n,
                None => !r,
            },
    {
        if event.schema_version == 1 {
            self.apply_legacy_fill(fill, index, &appraisal.fee_split).is_ok()
        } else if opening {
            match &appraisal.opening_booking {
                Some(o) => {
                    self.cash = o.cash;
                    self.position = o.position;
                    self.deployed_grid_budget = o.deployed_grid_budget;
                    self.lots = o.lots.dup();
                    self.processed_fills.put(fill.fill_id.dup(), ());
                    true
                },
                None => false,
            }
        } else {
            self.apply_fill(fill, index, &appraisal.fee_split).is_ok()
        }
    }

    fn settle_fill(
        &mut self,
        fill: &Fill,
        index: i32,
        opening: bool,
        x: &FillAmounts,
        next: OrderStatus,
    ) -> (r: bool)
        ensures
            match fill_settled(old(self)@, fill@, index, opening, *x, next) {
                Some(n) => r && final(self)@ == n,
                None => !r,
            },
    {
        let mut order = match self.orders.get(&fill.order_id) {
            Some(order) => order.dup(),
            None => {
                return false;
            },
        };
        if order.status != next && order.transition(next).is_err() {
            return false;
        }
        order.filled_quantity = x.quantity;
        order.filled_notional = x.notional;
        order.commission_charged = x.commission;
        match fill.direction {
            Direction::Buy => {
                order.reserved_cash_remaining = x.cash_reservation;
                self.cash.frozen = x.frozen_cash;
            },
            Direction::Sell => {
                order.reserved_quantity_remaining = x.quantity_reservation;
                self.position.frozen_sell = x.frozen_sell;
            },
        }
        if matches!(next, OrderStatus::Filled) {
            order.reserved_cash_remaining = Decimal::nil();
            order.reserved_quantity_remaining = 0;
        }
        self.orders.put(fill.order_id.dup(), order);
        if !opening {
            self.historically_executed_levels.put(index, ());
            self.set_status(index, GridLevelStatus::Executed);
        }
        true
    }

    pub(crate) fn receive_fill(
        &mut self,
        event: &EventEnvelope,
        notice: &FillNotice,
        next: OrderStatus,
        appraisal: &Appraisal,
    ) -> (r: bool)
        ensures
            match fill_received(old(self)@, event@, notice@, next, appraisal@) {
                Some(n) => r && final(self)@ == n,
                None => !r,
            },
    {
        let (fill, index): (&Fill, i32) = match (
            &notice.fill,
            index_in_range(notice.grid_index),
        ) {
            (Some(fill), Some(index)) => (fill, index),
            _ => {
                return false;
            },
        };
        if self.processed_fills.contains(&fill.fill_id) {
            return true;
        }
        let order = match self.orders.get(&fill.order_id) {
            Some(order) => order.dup(),
            None => {
                return false;
            },
        };
        if !order.fill_does_fit(event, fill, next, appraisal) {
            return false;
        }
        let amounts = match self.amounts_of_fill(&order, fill, matches!(next, OrderStatus::Filled)) {
            Some(x) => x,
            None => {
                return false;
            },
        };
        let opening = order.intent.origin.is_some();
        if !self.book_fill(event, opening, fill, index, appraisal, Ghost(order@)) {
            return false;
        }
        self.settle_fill(fill, index, opening, &amounts, next)
    }
}

/// A fill that was received before changes nothing.
pub proof fn law_fills_count_once(
    s: StrategyStateView,
    e: EventEnvelopeView,
    p: FillNoticeView,
    next: OrderStatus,
    a: AppraisalView,
)
    requires
        p.fill is Some,
        small_index(p.grid_index) is Some,
        holds_key::<String, ()>(s.processed_fills, p.fill->0.fill_id),
    ensures
        fill_received(s, e, p, next, a) == Some(s),
{
}

/// An order is never filled beyond its quantity, and it is filled exactly when
/// all of it is.
pub proof fn law_fills_stay_within_orders(
    e: EventEnvelopeView,
    order: OrderView,
    fill: FillView,
    next: OrderStatus,
    a: AppraisalView,
)
    requires
        fill_fits(e, order, fill, next, a),
        next == OrderStatus::Filled || next == OrderStatus::PartiallyFilled,
    ensures
        order.filled_quantity < order.filled_quantity + fill.quantity <= order.intent.quantity,
        next == OrderStatus::Filled <==> order.filled_quantity + fill.quantity
            == order.intent.quantity,
{
}

/// An order that ends unfilled gives back exactly what it froze.
pub proof fn law_cancelled_orders_free_their_shares(
    s: StrategyStateView,
    id: Seq<char>,
    order: OrderView,
    next: OrderStatus,
)
    requires
        next == OrderStatus::Rejected || next == OrderStatus::Cancelled,
        order.status != next,
        status_taken(s, id, order, next) is Some,
    ensures
        status_taken(s, id, order, next)->0.position.frozen_sell + order.reserved_quantity_remaining
            == s.position.frozen_sell,
        status_taken(s, id, order, next)->0.position.total == s.position.total,
        status_taken(s, id, order, next)->0.cash.available == s.cash.available,
{
}

} // verus!

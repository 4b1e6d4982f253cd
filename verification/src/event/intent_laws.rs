//! What an order rests on when it is intended, and what the opening of the balance does.
use crate::arith::{lemma_checked_total, total};
use crate::decimal::{
    adds_exactly, larger, lemma_minus_exact, lemma_of_parts, lemma_part_of_one, lemma_plus_exact,
    lemma_pow10_positive, lemma_times_exact, lemma_times_whole, minus, multiplies_exactly, plus,
    pow10, rounded_to, subtracts_exactly, times, Decimal, Rounding, MAX_SCALE,
};
use crate::decision::WHOLE_UNIT_DECISION_CONTRACT_VERSION;
use crate::event::intents::{backers, reserved_shares, worst_profit};
use crate::event::kinds::EventType;
use crate::event::order_laws::after;
use crate::event::payload::EventEnvelopeView;
use crate::event::reduce::order_reduced;
use crate::event::tranches::{right_of, Tranches};
use crate::model::ledger::{
    InitialDeploymentOutcome, LotQuantityAllocationView, OrderStatus, OrderView, ProfitGuardPolicy,
    StrategyStateView, TradingLotView,
};
use crate::model::market::Direction;
use crate::model::notices::AppraisalView;
use crate::model::rights::{GridRightStatus, RightTrancheView};
use crate::paper_laws::lemma_tick;
use crate::policy::doubled_reservation;
use crate::table::{changed_at, lemma_changed_at, lookup, ordered};
use vstd::prelude::*;

verus! {

/// An intended order is put among the orders as it is given, where none of its name is
/// there; in the current layouts one of its name is refused, and in the first ones passed
/// over. Nothing else changes.
pub proof fn law_intended_orders_are_new(
    s: StrategyStateView,
    e: EventEnvelopeView,
    a: AppraisalView,
)
    requires
        e.event_type == EventType::OrderIntentCreated,
        e.payload is Intent,
        ordered::<String, OrderView>(s.orders),
    ensures
        after(s, e, a) matches Some(n) ==> {
            let order = e.payload->Intent_0;
            let known = lookup::<String, OrderView>(s.orders, order.order_id) is Some;
            &&& n == (StrategyStateView {
                orders: n.orders,
                event_count: (s.event_count + 1) as u64,
                ..s
            })
            &&& known ==> e.schema_version < 4 && n.orders == s.orders
            &&& !known ==> changed_at::<String, OrderView>(
                s.orders,
                n.orders,
                order.order_id,
                order,
            )
        },
{
    reveal(order_reduced);
    let order = e.payload->Intent_0;
    lemma_changed_at::<String, OrderView>(s.orders, order.order_id, order);
}

/// What the first `n` tranches hold reserved for a right.
pub open spec fn reserved_for(t: Tranches, right_id: Seq<char>, n: nat) -> int
    decreases n,
{
    if n == 0 {
        0
    } else {
        reserved_for(t, right_id, (n - 1) as nat) + (if t[n - 1].1.owner_right_id == right_id && t[n
            - 1].1.reserved_quantity > 0 {
            t[n - 1].1.reserved_quantity as int
        } else {
            0
        })
    }
}

proof fn lemma_reserved(t: Tranches, right_id: Seq<char>, n: nat)
    requires
        n <= t.len(),
    ensures
        total(reserved_shares(backers(t, right_id, n))) == reserved_for(t, right_id, n),
    decreases n,
{
    let all = backers(t, right_id, n);
    if n == 0 {
        assert(reserved_shares(all) =~= Seq::<i64>::empty());
    } else {
        lemma_reserved(t, right_id, (n - 1) as nat);
        let before = backers(t, right_id, (n - 1) as nat);
        if all.len() > before.len() {
            assert(reserved_shares(all).drop_last() =~= reserved_shares(before));
        }
    }
}

/// In the current layouts an order of the grid is what its right has reserved: of its
/// direction, level, price and shares, at the time of its event, in whole lots, untouched,
/// and its shares are those that the tranches of the right hold reserved. A sell order
/// reserves its shares and no cash, a buy order cash and no shares.
pub proof fn law_orders_rest_on_their_right(
    s: StrategyStateView,
    e: EventEnvelopeView,
    a: AppraisalView,
)
    requires
        e.event_type == EventType::OrderIntentCreated,
        e.payload is Intent,
        e.schema_version >= 4,
        e.payload->Intent_0.intent.origin is None,
    ensures
        after(s, e, a) is Some ==> {
            let order = e.payload->Intent_0;
            let i = order.intent;
            &&& right_of(s, i.right_id) matches Some(r) && {
                &&& r.status == GridRightStatus::Reserved
                &&& r.cycle_id == s.cycle_id && e.cycle_id == s.cycle_id
                &&& r.direction == i.direction && r.grid_index == i.grid_index
                &&& r.grid_price.units() == i.limit_price.units()
                &&& r.reserved_quantity == i.quantity
                &&& r.decision_recorded
                &&& r.decision_contract_version >= WHOLE_UNIT_DECISION_CONTRACT_VERSION
                    ==> r.decision_intent_quantity == i.quantity
                &&& r.decision_contract_version < WHOLE_UNIT_DECISION_CONTRACT_VERSION
                    ==> r.decided_exercise_quantity == i.quantity
                &&& i.quantity == reserved_for(
                    s.right_tranches,
                    r.right_id,
                    s.right_tranches.len(),
                )
            }
            &&& i.quantity > 0 && i.limit_price.units() > 0
            &&& s.audited_lot_size > 0 && i.quantity as int % s.audited_lot_size as int == 0
            &&& e.schema_version >= 5 ==> s.audited_standard_quantity > 0 && i.quantity as int
                % s.audited_standard_quantity as int == 0
            &&& i.limit_price.valid() && multiplies_exactly(
                i.limit_price,
                Decimal::whole(i.quantity as int),
            ) ==> i.budget.units() == i.limit_price.units() * i.quantity
            &&& i.created_at == e.event_time
            &&& order.status == OrderStatus::Created && order.filled_quantity == 0
                && order.filled_notional.units() == 0 && order.commission_charged.units() == 0
                && order.cancel_requested_at is None
            &&& i.direction == Direction::Sell ==> order.reserved_quantity_remaining == i.quantity
                && order.reserved_cash_remaining.units() == 0 && i.target_lot_ids.len()
                == i.target_lot_allocations.len()
            &&& i.direction == Direction::Buy ==> order.reserved_quantity_remaining == 0
                && i.target_lot_ids.len() == 0 && i.target_lot_allocations.len() == 0
            &&& i.direction == Direction::Buy && e.schema_version >= 6 ==> (
            a.buy_reservation matches Some(c) && order.reserved_cash_remaining.units() == c.units())
            &&& i.direction == Direction::Buy && e.schema_version < 6 ==> (
            i.profit_guard_policy matches Some(p) && (doubled_reservation(
                p,
                i.limit_price,
                i.quantity,
            ) matches Some(c) && order.reserved_cash_remaining.units() == c.units()))
        },
{
    reveal(order_reduced);
    if after(s, e, a) is Some {
        let i = e.payload->Intent_0.intent;
        let r = right_of(s, i.right_id)->0;
        lemma_reserved(s.right_tranches, r.right_id, s.right_tranches.len());
        lemma_checked_total(
            reserved_shares(backers(s.right_tranches, r.right_id, s.right_tranches.len())),
        );
        if i.limit_price.valid() && multiplies_exactly(
            i.limit_price,
            Decimal::whole(i.quantity as int),
        ) {
            lemma_times_whole(i.limit_price, i.quantity as int);
        }
    }
}

/// Whether no number in the profit of an allocation has to be rounded.
pub open spec fn profit_is_exact(x: LotQuantityAllocationView) -> bool {
    &&& x.worst_fill_price.valid() && x.maximum_sell_fees.valid() && x.cost_basis.valid()
    &&& multiplies_exactly(x.worst_fill_price, Decimal::whole(x.quantity as int))
    &&& times(x.worst_fill_price, Decimal::whole(x.quantity as int)) matches Some(v)
        ==> subtracts_exactly(v, x.maximum_sell_fees) && (minus(v, x.maximum_sell_fees) matches Some(
        w,
    ) ==> subtracts_exactly(w, x.cost_basis))
}

/// The profit of an allocation at its worst is the worst price of its shares without the
/// largest fees and without its cost.
pub proof fn law_worst_profit(x: LotQuantityAllocationView)
    requires
        profit_is_exact(x),
    ensures
        worst_profit(x) matches Some(p) && p.units() == x.worst_fill_price.units() * x.quantity
            - x.maximum_sell_fees.units() - x.cost_basis.units(),
{
    lemma_times_whole(x.worst_fill_price, x.quantity as int);
    let v = times(x.worst_fill_price, Decimal::whole(x.quantity as int))->0;
    lemma_minus_exact(v, x.maximum_sell_fees);
    lemma_minus_exact(minus(v, x.maximum_sell_fees)->0, x.cost_basis);
}

/// A sell order names parts of different lots that come to its shares; each is of a known
/// lot, backed by a tranche of that lot, and even at its worst price pays its fees and its
/// cost.
pub proof fn law_sell_orders_show_no_loss(
    s: StrategyStateView,
    e: EventEnvelopeView,
    a: AppraisalView,
    k: int,
)
    requires
        e.event_type == EventType::OrderIntentCreated,
        e.payload is Intent,
        e.schema_version >= 2,
        e.payload->Intent_0.intent.direction == Direction::Sell,
        0 <= k < e.payload->Intent_0.intent.target_lot_allocations.len(),
        profit_is_exact(e.payload->Intent_0.intent.target_lot_allocations[k]),
    ensures
        after(s, e, a) is Some ==> {
            let i = e.payload->Intent_0.intent;
            let list = i.target_lot_allocations;
            let x = list[k];
            &&& total(crate::domain::allocation_quantities(list)) == i.quantity
            &&& forall|j: int| 0 <= j < list.len() && j != k ==> (#[trigger] list[j]).lot_id
                != x.lot_id
            &&& x.quantity > 0
            &&& i.target_lot_ids.contains(x.lot_id)
            &&& x.worst_fill_price.units() * x.quantity >= x.maximum_sell_fees.units()
                + x.cost_basis.units()
            &&& x.worst_case_profit.units() == x.worst_fill_price.units() * x.quantity
                - x.maximum_sell_fees.units() - x.cost_basis.units()
            &&& lookup::<String, TradingLotView>(s.lots, x.lot_id) is Some
            &&& lookup::<String, RightTrancheView>(s.right_tranches, x.tranche_id) matches Some(t)
                && t.lot_id == Some(x.lot_id) && t.reserved_quantity >= x.quantity
            &&& k < a.close_costs.len() && (a.close_costs[k] matches Some(c) && x.cost_basis.units()
                == c.units())
            &&& e.schema_version >= 3 ==> (a.worst_sell_price matches Some(w)
                && x.worst_fill_price.units() == w.units()) && (k < a.sell_fees.len() && (
            a.sell_fees[k] matches Some(f) && x.maximum_sell_fees.units() == f.units()))
            &&& i.profit_guard_version == a.profit_guard_version
        },
{
    reveal(order_reduced);
    if after(s, e, a) is Some {
        let i = e.payload->Intent_0.intent;
        let list = i.target_lot_allocations;
        law_worst_profit(list[k]);
        lemma_checked_total(crate::domain::allocation_quantities(list));
        let c = StrategyStateView { event_count: s.event_count.checked_add(1)->0, ..s };
        assert(crate::event::intents::no_loss_shown(c, e, i, a));
        assert(crate::event::intents::allocation_sound(list[k], i.target_lot_ids));
        assert(crate::event::intents::allocation_proved(c, e, list[k], k, a));
        assert forall|j: int| 0 <= j < list.len() && j != k implies (#[trigger] list[j]).lot_id
            != list[k].lot_id by {
            if j < k {
                assert(list[j].lot_id != list[k].lot_id);
            } else {
                assert(list[k].lot_id != list[j].lot_id);
            }
        }
    }
}

/// In the layouts that carry terms an order carries those of the run: rates from zero up
/// to less than one, a commission that is not negative, and no more than eight places.
pub proof fn law_orders_carry_the_terms_of_the_run(
    s: StrategyStateView,
    e: EventEnvelopeView,
    a: AppraisalView,
)
    requires
        e.event_type == EventType::OrderIntentCreated,
        e.payload is Intent,
        e.schema_version >= 3,
    ensures
        after(s, e, a) is Some ==> (e.payload->Intent_0.intent.profit_guard_policy matches Some(p) && (
        s.audited_profit_guard_policy matches Some(q) && {
            &&& p.price_scale == q.price_scale && p.price_scale <= 8
            &&& p.commission_rate.units() == q.commission_rate.units()
            &&& p.minimum_commission.units() == q.minimum_commission.units()
            &&& p.sell_tax_rate.units() == q.sell_tax_rate.units()
            &&& p.slippage_rate.units() == q.slippage_rate.units()
            &&& 0 <= p.slippage_rate.units() < Decimal::one().units()
            &&& p.minimum_commission.units() >= 0
            &&& p.commission_rate.units() >= 0 && p.sell_tax_rate.units() >= 0
        })),
{
    reveal(order_reduced);
}

/// Whether no number of the doubled reservation has to be rounded but for the price.
pub open spec fn reserves_exactly(p: ProfitGuardPolicy, limit: Decimal, quantity: i64) -> bool {
    &&& limit.valid() && p.slippage_rate.valid() && p.commission_rate.valid()
    &&& p.minimum_commission.valid() && p.price_scale <= MAX_SCALE
    &&& 0 <= p.slippage_rate.units() < Decimal::one().units()
    &&& plus(Decimal::one(), p.slippage_rate) matches Some(f) ==> multiplies_exactly(limit, f) && (
    times(limit, f) matches Some(raw) ==> {
        let worst = rounded_to(raw, p.price_scale as nat, Rounding::ToPositiveInfinity);
        &&& worst.valid()
        &&& multiplies_exactly(worst, Decimal::whole(quantity as int))
        &&& times(worst, Decimal::whole(quantity as int)) matches Some(v) ==> multiplies_exactly(
            v,
            p.commission_rate,
        ) && (times(v, p.commission_rate) matches Some(c) ==> multiplies_exactly(
            larger(c, p.minimum_commission),
            Decimal::whole(2),
        ) && (times(larger(c, p.minimum_commission), Decimal::whole(2)) matches Some(t)
            ==> adds_exactly(v, t)))
    })
}

/// The first layouts of buy orders reserve the price of the shares at the worst price,
/// which is the limit raised by the slippage to the next price, and twice the larger of
/// its commission and the least one. `worst` is that price.
pub proof fn law_doubled_reservations(p: ProfitGuardPolicy, limit: Decimal, quantity: i64) -> (worst:
    Decimal)
    requires
        reserves_exactly(p, limit, quantity),
    ensures
        ({
            let w = pow10(MAX_SCALE as nat);
            &&& 0 <= worst.units() * w - limit.units() * (w + p.slippage_rate.units()) < pow10(
                (MAX_SCALE - p.price_scale) as nat,
            ) * w
            &&& doubled_reservation(p, limit, quantity) matches Some(r) && {
                let extra = r.units() - worst.units() * quantity;
                &&& extra >= 2 * p.minimum_commission.units()
                &&& extra * w >= 2 * (worst.units() * quantity) * p.commission_rate.units()
                &&& extra == 2 * p.minimum_commission.units() || extra * w == 2 * (worst.units()
                    * quantity) * p.commission_rate.units()
            }
        }),
{
    lemma_of_parts(1, 0);
    lemma_of_parts(2, 0);
    lemma_part_of_one(p.slippage_rate);
    lemma_pow10_positive(MAX_SCALE as nat);
    let w = pow10(MAX_SCALE as nat);
    let f = plus(Decimal::one(), p.slippage_rate)->0;
    assert(Decimal::one().units() == w);
    lemma_times_exact(limit, f);
    let raw = times(limit, f)->0;
    let worst = rounded_to(raw, p.price_scale as nat, Rounding::ToPositiveInfinity);
    lemma_tick(raw, p.price_scale as nat);
    let tick = pow10((MAX_SCALE - p.price_scale) as nat);
    let a = worst.units();
    let b = raw.units();
    assert(0 <= a * w - b * w < tick * w) by (nonlinear_arith)
        requires
            0 <= a - b < tick,
            w >= 1,
    ;
    lemma_times_whole(worst, quantity as int);
    let v = times(worst, Decimal::whole(quantity as int))->0;
    lemma_times_exact(v, p.commission_rate);
    let c = times(v, p.commission_rate)->0;
    let m = larger(c, p.minimum_commission);
    lemma_times_whole(m, 2);
    let t = times(m, Decimal::whole(2))->0;
    lemma_plus_exact(v, t);
    let mu = m.units();
    let cu = c.units();
    let vu = v.units();
    let ru = p.commission_rate.units();
    assert((mu * 2) * w >= 2 * vu * ru && (mu == cu ==> (mu * 2) * w == 2 * vu * ru))
        by (nonlinear_arith)
        requires
            mu >= cu,
            cu * w == vu * ru,
            w >= 1,
    ;
    worst
}

/// The deployment of the opening balance is evaluated once, on the bar that waits, and
/// shows the account as it is; it is authorized exactly where some units are selected.
pub proof fn law_openings_are_evaluated_once(
    s: StrategyStateView,
    e: EventEnvelopeView,
    a: AppraisalView,
)
    requires
        e.event_type == EventType::InitialDeploymentEvaluated,
        e.payload is Evaluation,
    ensures
        after(s, e, a) matches Some(n) ==> {
            let ev = e.payload->Evaluation_0;
            &&& s.initial_deployment_evaluation is None
            &&& n == (StrategyStateView {
                initial_deployment_evaluation: Some(ev),
                event_count: (s.event_count + 1) as u64,
                ..s
            })
            &&& s.pending_market_evidence matches Some(w) && {
                &&& ev.source_market_event_id == w.event_id && ev.source_evidence_sha256
                    == w.evidence_sha256
                &&& ev.limit_price.units() == w.bar.close.units()
                &&& ev.market_time == w.bar.timestamp && e.event_time == w.bar.timestamp
                &&& ev.symbol == w.bar.symbol && e.symbol == w.bar.symbol
            }
            &&& ev.pre_available_cash.units() == s.cash.available.units()
            &&& ev.pre_frozen_cash.units() == s.cash.frozen.units()
            &&& ev.pre_position == s.position.total
            &&& s.audited_config matches Some(c) && ev.standard_quantity == c.standard_quantity
            &&& ev.outcome == InitialDeploymentOutcome::Authorized <==> ev.selected_units > 0
            &&& ev.outcome == InitialDeploymentOutcome::Blocked <==> ev.selected_units <= 0
            &&& a.deployment matches Some(plan) && ev.selected_units == plan.selected_units
                && ev.quantity == plan.quantity && ev.maximum_units == plan.maximum_units
                && ev.canonical_reservation.units() == plan.reservation.units()
        },
{
    reveal(order_reduced);
}

/// The order that opens the balance is the only one: a buy at the anchor of what the
/// authorized evaluation selected, in whole units, untouched, with the cash of its shares
/// reserved and no right or lot.
pub proof fn law_openings_are_ordered_once(
    s: StrategyStateView,
    e: EventEnvelopeView,
    a: AppraisalView,
)
    requires
        e.event_type == EventType::OrderIntentCreated,
        e.payload is Intent,
        e.schema_version >= 4,
        e.payload->Intent_0.intent.origin is Some,
    ensures
        after(s, e, a) is Some ==> {
            let order = e.payload->Intent_0;
            let i = order.intent;
            &&& e.schema_version == 7
            &&& forall|k: int|
                0 <= k < s.orders.len() ==> (#[trigger] s.orders[k].1).intent.origin is None
            &&& s.initial_deployment_evaluation matches Some(ev) && {
                &&& ev.outcome == InitialDeploymentOutcome::Authorized && ev.selected_units > 0
                &&& i.origin->0.deployment_id == ev.deployment_id
                &&& i.origin->0.source_market_event_id == ev.source_market_event_id
            }
            &&& a.deployment matches Some(plan) && i.quantity == plan.quantity && i.quantity > 0
            &&& a.buy_reservation matches Some(c) && order.reserved_cash_remaining.units()
                == c.units()
            &&& i.direction == Direction::Buy && i.grid_index == 0 && i.right_id.len() == 0
            &&& i.target_lot_ids.len() == 0 && i.target_lot_allocations.len() == 0
            &&& s.audited_config matches Some(c) && c.standard_quantity > 0 && i.quantity as int
                % c.standard_quantity as int == 0
            &&& order.status == OrderStatus::Created && order.filled_quantity == 0
                && order.filled_notional.units() == 0 && order.reserved_quantity_remaining == 0
            &&& i.created_at == e.event_time
        },
{
    reveal(order_reduced);
    if after(s, e, a) is Some {
        assert(!crate::event::intents::opened(s.orders));
    }
}

} // verus!

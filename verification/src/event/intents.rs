//! The deployment of the opening balance, and order intents: an order has to be
//! exactly what its right or the opening plan allows.
use crate::arith::{checked_total, is_whole, total_of, whole_units};
use crate::clock::{moment_text, Moment};
use crate::decimal::{minus, times, Decimal};
use crate::decision::WHOLE_UNIT_DECISION_CONTRACT_VERSION;
use crate::digest::{id_of, named_id};
use crate::domain::{
    allocation_quantities, distinct_lots, lots_are_distinct, quantities_of,
};
use crate::event::payload::{EventEnvelope, EventEnvelopeView};
use crate::event::tranches::{right_of, Tranches};
use crate::model::ledger::{
    profit_guard_policy_alike, InitialDeploymentEvaluation, InitialDeploymentEvaluationView,
    InitialDeploymentOutcome, LotQuantityAllocation, LotQuantityAllocationView, Order, OrderIntentView,
    OrderStatus, OrderView, ProfitGuardPolicy, StrategyState, StrategyStateView, TradingLotView,
};
use crate::model::market::Direction;
use crate::model::notices::{Appraisal, AppraisalView, Backing, BackingView, DeploymentPlan};
use crate::model::rights::{GridRight, GridRightStatus, GridRightView, RightTrancheView};
use crate::model::settings::{CapitalInventorySettings, Config, ConfigView};
use crate::policy::{doubled_reservation, policy_of, terms_in_order};
use crate::table::{holds_key, lookup, with};
use crate::text::{int_text, join, signed_text, text_eq};
use crate::value::{
    has_no_repeats, have_same_members, no_repeats, same_members, text_list_contains, Value,
};
use vstd::prelude::*;

verus! {

/// The policy under which the opening balance is deployed.
pub const INITIAL_DEPLOYMENT_POLICY_VERSION: &'static str = "INITIAL_DEPLOYMENT_V1";

/// The identifier of the order intent of a level at a time.
pub open spec fn intent_identity(
    run_id: Seq<char>,
    cycle_id: Seq<char>,
    grid_index: i32,
    at: Moment,
) -> Seq<char> {
    named_id(
        run_id + ":"@ + cycle_id + ":"@ + int_text(grid_index as int) + ":"@ + moment_text(
            at.d(),
            at.s(),
            at.n(),
        ),
    )
}

/// The identifier of the order of an intent.
pub open spec fn order_identity(intent_id: Seq<char>) -> Seq<char> {
    named_id("paper:order:"@ + intent_id + ":0"@)
}

/// The identifier of the opening deployment of a run.
pub open spec fn opening_identity(run_id: Seq<char>) -> Seq<char> {
    named_id(run_id + ":initial-deployment:v1"@)
}

fn intent_id(run_id: &str, cycle_id: &str, grid_index: i32, at: &Moment) -> (r: String)
    ensures
        r@ == intent_identity(run_id@, cycle_id@, grid_index, *at),
{
    let name = join(run_id, ":");
    let name = join(name.as_str(), cycle_id);
    let name = join(name.as_str(), ":");
    let index = signed_text(grid_index as i64);
    let name = join(name.as_str(), index.as_str());
    let name = join(name.as_str(), ":");
    let time = at.text();
    let name = join(name.as_str(), time.as_str());
    id_of(name.as_str())
}

/// The identifier of the order of an intent.
pub fn order_id(intent_id: &str) -> (r: String)
    ensures
        r@ == order_identity(intent_id@),
{
    let name = join("paper:order:", intent_id);
    let name = join(name.as_str(), ":0");
    id_of(name.as_str())
}

fn opening_id(run_id: &str) -> (r: String)
    ensures
        r@ == opening_identity(run_id@),
{
    let name = join(run_id, ":initial-deployment:v1");
    id_of(name.as_str())
}

/// Whether nothing has happened to an order yet.
pub open spec fn untouched(order: OrderView) -> bool {
    &&& order.status == OrderStatus::Created
    &&& order.filled_quantity == 0
    &&& order.filled_notional.units() == 0
    &&& order.commission_charged.units() == 0
    &&& order.cancel_requested_reason is None
    &&& order.cancel_requested_at is None
}

/// The tranches of a right among the first `n` that back an order.
pub open spec fn backers(tranches: Tranches, right_id: Seq<char>, n: nat) -> Seq<RightTrancheView>
    decreases n,
{
    if n == 0 {
        Seq::empty()
    } else {
        let t = tranches[n - 1].1;
        let before = backers(tranches, right_id, (n - 1) as nat);
        if t.owner_right_id == right_id && t.reserved_quantity > 0 {
            before.push(t)
        } else {
            before
        }
    }
}

/// The shares that tranches hold reserved.
pub open spec fn reserved_shares(list: Seq<RightTrancheView>) -> Seq<i64> {
    Seq::new(list.len(), |i: int| list[i].reserved_quantity)
}

/// What a tranche backs.
pub open spec fn backing_of(t: RightTrancheView) -> BackingView {
    BackingView {
        lot_id: match t.lot_id {
            Some(lot) => lot,
            None => Seq::empty(),
        },
        tranche_id: t.tranche_id,
        quantity: t.reserved_quantity,
    }
}

/// What an allocation takes.
pub open spec fn backing_taken(a: LotQuantityAllocationView) -> BackingView {
    BackingView { lot_id: a.lot_id, tranche_id: a.tranche_id, quantity: a.quantity }
}

/// A part by its lot and tranche alone.
pub open spec fn backing_key(b: BackingView) -> BackingView {
    BackingView { quantity: 0, ..b }
}

/// What tranches back.
pub open spec fn backings(list: Seq<RightTrancheView>) -> Seq<BackingView> {
    Seq::new(list.len(), |i: int| backing_of(list[i]))
}

/// What allocations take.
pub open spec fn takings(list: Seq<LotQuantityAllocationView>) -> Seq<BackingView> {
    Seq::new(list.len(), |i: int| backing_taken(list[i]))
}

/// Parts by their lots and tranches alone.
pub open spec fn backing_keys(list: Seq<BackingView>) -> Seq<BackingView> {
    Seq::new(list.len(), |i: int| backing_key(list[i]))
}

/// The lots of allocations.
pub open spec fn lots_of(list: Seq<LotQuantityAllocationView>) -> Seq<Seq<char>> {
    Seq::new(list.len(), |i: int| list[i].lot_id)
}

/// Whether a buy order targets no lots and reserves exactly its cash.
pub open spec fn buy_reserves(
    e: EventEnvelopeView,
    order: OrderView,
    policy: ProfitGuardPolicy,
    a: AppraisalView,
) -> bool {
    let reservation = if e.schema_version >= 6 {
        a.buy_reservation
    } else {
        doubled_reservation(policy, order.intent.limit_price, order.intent.quantity)
    };
    &&& reservation matches Some(cash)
    &&& order.intent.target_lot_ids.len() == 0
    &&& order.intent.target_lot_allocations.len() == 0
    &&& order.intent.profit_guard_version.len() == 0
    &&& order.reserved_cash_remaining.units() == cash.units()
    &&& order.reserved_quantity_remaining == 0
}

/// Whether a sell order takes exactly what the tranches of its right back.
pub open spec fn sell_reserves(order: OrderView, backing: Seq<RightTrancheView>) -> bool {
    let allocations = order.intent.target_lot_allocations;
    &&& order.intent.target_lot_ids == lots_of(allocations)
    &&& no_repeats(backing_keys(backings(backing)))
    &&& no_repeats(backing_keys(takings(allocations)))
    &&& same_members(backings(backing), takings(allocations))
    &&& order.reserved_cash_remaining.units() == 0
    &&& order.reserved_quantity_remaining == order.intent.quantity
}

/// Whether an order is the one that its reserved right names.
pub open spec fn intent_of_right(
    s: StrategyStateView,
    e: EventEnvelopeView,
    order: OrderView,
    right: GridRightView,
) -> bool {
    let i = order.intent;
    &&& right.status == GridRightStatus::Reserved
    &&& right.cycle_id == s.cycle_id
    &&& e.cycle_id == s.cycle_id
    &&& right.direction == i.direction
    &&& right.grid_index == i.grid_index
    &&& right.grid_price.units() == i.limit_price.units()
    &&& right.reserved_quantity == i.quantity
    &&& right.decision_recorded
    &&& right.decision_contract_version >= WHOLE_UNIT_DECISION_CONTRACT_VERSION
        ==> right.decision_intent_quantity == i.quantity
    &&& right.decision_contract_version < WHOLE_UNIT_DECISION_CONTRACT_VERSION
        ==> right.decided_exercise_quantity == i.quantity
    &&& i.quantity > 0
    &&& s.audited_lot_size > 0
    &&& whole_units(i.quantity as int, s.audited_lot_size as int)
    &&& times(i.limit_price, Decimal::whole(i.quantity as int)) matches Some(budget)
    &&& i.budget.units() == budget.units()
    &&& i.limit_price.units() > 0
    &&& i.created_at == e.event_time
    &&& i.intent_id == intent_identity(s.run_id, s.cycle_id, i.grid_index, i.created_at)
    &&& order.order_id == order_identity(i.intent_id)
    &&& untouched(order)
}

/// Whether an order of a right is exactly what the right has reserved.
pub open spec fn right_intent_allowed(
    s: StrategyStateView,
    e: EventEnvelopeView,
    order: OrderView,
    a: AppraisalView,
) -> bool {
    &&& right_of(s, order.intent.right_id) matches Some(right)
    &&& intent_of_right(s, e, order, right)
    &&& checked_total(
        reserved_shares(backers(s.right_tranches, right.right_id, s.right_tranches.len())),
    ) == Some(order.intent.quantity)
    &&& order.intent.profit_guard_policy matches Some(policy)
    &&& match order.intent.direction {
        Direction::Buy => buy_reserves(e, order, policy, a),
        Direction::Sell => sell_reserves(
            order,
            backers(s.right_tranches, right.right_id, s.right_tranches.len()),
        ),
    }
}

/// Whether some order opened the balance already.
pub open spec fn opened(orders: Seq<(Seq<char>, OrderView)>) -> bool {
    exists|i: int| 0 <= i < orders.len() && (#[trigger] orders[i].1).intent.origin is Some
}

/// Whether a configuration deploys the opening balance.
pub open spec fn deploys_opening(c: ConfigView) -> bool {
    c.gate.capital_inventory matches Some(settings) && settings.deploy_initial_balance
}

/// Whether an order opens the balance as the evaluation and the plan say.
pub open spec fn opening_as_planned(
    s: StrategyStateView,
    e: EventEnvelopeView,
    order: OrderView,
    c: ConfigView,
    ev: InitialDeploymentEvaluationView,
    plan: DeploymentPlan,
    reservation: Decimal,
) -> bool {
    let i = order.intent;
    let origin = i.origin->0;
    &&& ev.outcome == InitialDeploymentOutcome::Authorized
    &&& ev.selected_units > 0
    &&& origin.deployment_id == ev.deployment_id
    &&& origin.source_market_event_id == ev.source_market_event_id
    &&& origin.source_evidence_sha256 == ev.source_evidence_sha256
    &&& origin.policy_version == ev.policy_version
    &&& origin.policy_version == INITIAL_DEPLOYMENT_POLICY_VERSION@
    &&& plan.selected_units == ev.selected_units
    &&& plan.reservation.units() == ev.canonical_reservation.units()
    &&& i.right_id.len() == 0
    &&& plan.quantity > 0
    &&& i.direction == Direction::Buy
    &&& i.grid_index == 0
    &&& i.quantity == plan.quantity
    &&& c.standard_quantity > 0
    &&& whole_units(i.quantity as int, c.standard_quantity as int)
    &&& times(i.limit_price, Decimal::whole(i.quantity as int)) matches Some(budget)
    &&& i.budget.units() == budget.units()
    &&& i.created_at == e.event_time
    &&& e.cycle_id == s.cycle_id
    &&& i.intent_id == opening_identity(s.run_id)
    &&& order.order_id == order_identity(opening_identity(s.run_id))
    &&& i.target_lot_ids.len() == 0
    &&& i.target_lot_allocations.len() == 0
    &&& i.profit_guard_version.len() == 0
    &&& i.profit_guard_policy matches Some(policy)
    &&& profit_guard_policy_alike(policy, policy_of(c))
    &&& untouched(order)
    &&& order.reserved_cash_remaining.units() == reservation.units()
    &&& order.reserved_quantity_remaining == 0
}

/// Whether an order that opens the balance is allowed.
pub open spec fn opening_intent_allowed(
    s: StrategyStateView,
    e: EventEnvelopeView,
    order: OrderView,
    a: AppraisalView,
) -> bool {
    &&& order.intent.origin is Some
    &&& s.audited_config matches Some(c)
    &&& e.schema_version == 7
    &&& deploys_opening(c)
    &&& !opened(s.orders)
    &&& s.initial_deployment_evaluation matches Some(ev)
    &&& a.deployment matches Some(plan)
    &&& a.buy_reservation matches Some(reservation)
    &&& opening_as_planned(s, e, order, c, ev, plan, reservation)
}

/// Whether an order intent in a current layout is allowed.
pub open spec fn current_intent_allowed(
    s: StrategyStateView,
    e: EventEnvelopeView,
    order: OrderView,
    a: AppraisalView,
) -> bool {
    if order.intent.origin is Some {
        opening_intent_allowed(s, e, order, a)
    } else {
        right_intent_allowed(s, e, order, a)
    }
}

/// Whether an evaluation of the opening balance is what the plan says of the
/// pending bar.
pub open spec fn evaluation_as_planned(
    s: StrategyStateView,
    e: EventEnvelopeView,
    ev: InitialDeploymentEvaluationView,
    c: ConfigView,
    settings: CapitalInventorySettings,
    plan: DeploymentPlan,
) -> bool {
    let pending = s.pending_market_evidence->0;
    &&& settings.deploy_initial_balance
    &&& s.initial_deployment_evaluation is None
    &&& e.schema_version == 1
    &&& e.event_id != pending.event_id
    &&& e.event_time == pending.bar.timestamp
    &&& e.symbol == pending.bar.symbol
    &&& e.cycle_id == s.cycle_id
    &&& ev.deployment_id == opening_identity(s.run_id)
    &&& ev.policy_version == INITIAL_DEPLOYMENT_POLICY_VERSION@
    &&& ev.source_market_event_id == pending.event_id
    &&& ev.source_evidence_sha256 == pending.evidence_sha256
    &&& ev.symbol == pending.bar.symbol
    &&& ev.market_time == pending.bar.timestamp
    &&& ev.limit_price.units() == pending.bar.close.units()
    &&& ev.pre_available_cash.units() == s.cash.available.units()
    &&& ev.pre_frozen_cash.units() == s.cash.frozen.units()
    &&& ev.pre_position == s.position.total
    &&& ev.pre_pending_buy_quantity == plan.pending_buy_quantity
    &&& ev.minimum_free_cash.units() == settings.minimum_free_cash.units()
    &&& ev.standard_quantity == c.standard_quantity
    &&& ev.maximum_units == plan.maximum_units
    &&& ev.selected_units == plan.selected_units
    &&& ev.quantity == plan.quantity
    &&& ev.canonical_reservation.units() == plan.reservation.units()
    &&& ev.projected_remaining_cash.units() == plan.projected_remaining_cash.units()
    &&& ev.outcome == (if plan.selected_units > 0 {
        InitialDeploymentOutcome::Authorized
    } else {
        InitialDeploymentOutcome::Blocked
    })
    &&& ev.reason == (if plan.selected_units > 0 {
        "AUTHORIZED"@
    } else {
        "NO_AFFORDABLE_UNITS"@
    })
}

/// The state after the deployment of the opening balance is evaluated.
pub open spec fn opening_evaluated(
    s: StrategyStateView,
    e: EventEnvelopeView,
    ev: InitialDeploymentEvaluationView,
    a: AppraisalView,
) -> Option<StrategyStateView> {
    match (s.audited_config, s.pending_market_evidence, a.deployment) {
        (Some(c), Some(pending), Some(plan)) => match c.gate.capital_inventory {
            Some(settings) => if evaluation_as_planned(s, e, ev, c, settings, plan) {
                Some(StrategyStateView { initial_deployment_evaluation: Some(ev), ..s })
            } else {
                None
            },
            None => None,
        },
        _ => None,
    }
}

/// Whether an allocation of a sell order names what it takes and shows no loss.
pub open spec fn allocation_sound(x: LotQuantityAllocationView, lots: Seq<Seq<char>>) -> bool {
    &&& x.quantity > 0
    &&& x.tranche_id.len() > 0
    &&& x.worst_case_profit.units() >= 0
    &&& lots.contains(x.lot_id)
}

/// The profit of an allocation at its worst price. Nothing where a number leaves
/// its range.
pub open spec fn worst_profit(x: LotQuantityAllocationView) -> Option<Decimal> {
    match times(x.worst_fill_price, Decimal::whole(x.quantity as int)) {
        None => None,
        Some(gross) => match minus(gross, x.maximum_sell_fees) {
            None => None,
            Some(net) => minus(net, x.cost_basis),
        },
    }
}

/// An entry of a list, where it has one.
pub open spec fn entry(list: Seq<Option<Decimal>>, i: int) -> Option<Decimal> {
    if 0 <= i < list.len() {
        list[i]
    } else {
        None
    }
}

/// Whether the proof of an allocation agrees with its lot, its tranche and the
/// terms of the run.
pub open spec fn allocation_proved(
    s: StrategyStateView,
    e: EventEnvelopeView,
    x: LotQuantityAllocationView,
    i: int,
    a: AppraisalView,
) -> bool {
    &&& lookup::<String, TradingLotView>(s.lots, x.lot_id) is Some
    &&& entry(a.close_costs, i) matches Some(cost)
    &&& lookup::<String, RightTrancheView>(s.right_tranches, x.tranche_id) matches Some(t)
    &&& worst_profit(x) matches Some(profit)
    &&& cost.units() == x.cost_basis.units()
    &&& profit.units() == x.worst_case_profit.units()
    &&& t.lot_id == Some(x.lot_id)
    &&& t.reserved_quantity >= x.quantity
    &&& e.schema_version >= 3 ==> {
        &&& a.worst_sell_price matches Some(worst)
        &&& x.worst_fill_price.units() == worst.units()
        &&& entry(a.sell_fees, i) matches Some(fees)
        &&& x.maximum_sell_fees.units() == fees.units()
    }
}

/// Whether a sell order shows for every part of a lot that it cannot be closed
/// at a loss.
pub open spec fn no_loss_shown(
    s: StrategyStateView,
    e: EventEnvelopeView,
    intent: OrderIntentView,
    a: AppraisalView,
) -> bool {
    let list = intent.target_lot_allocations;
    &&& intent.profit_guard_version == a.profit_guard_version
    &&& checked_total(allocation_quantities(list)) == Some(intent.quantity)
    &&& list.len() > 0
    &&& distinct_lots(list)
    &&& forall|i: int|
        0 <= i < list.len() ==> allocation_sound(#[trigger] list[i], intent.target_lot_ids)
    &&& forall|i: int| 0 <= i < list.len() ==> allocation_proved(s, e, #[trigger] list[i], i, a)
}

/// Whether an order carries the audited terms of the run.
pub open spec fn carries_terms(s: StrategyStateView, intent: OrderIntentView) -> bool {
    &&& intent.profit_guard_policy matches Some(policy)
    &&& terms_in_order(policy)
    &&& s.audited_profit_guard_policy matches Some(audited)
    &&& profit_guard_policy_alike(audited, policy)
}

/// Whether an order intent is allowed.
pub open spec fn intent_allowed(
    s: StrategyStateView,
    e: EventEnvelopeView,
    order: OrderView,
    a: AppraisalView,
) -> bool {
    &&& e.schema_version >= 4 ==> current_intent_allowed(s, e, order, a)
    &&& e.schema_version >= 5 ==> s.audited_standard_quantity > 0 && whole_units(
        order.intent.quantity as int,
        s.audited_standard_quantity as int,
    )
    &&& e.schema_version >= 3 ==> carries_terms(s, order.intent)
    &&& e.schema_version >= 2 && order.intent.direction == Direction::Sell ==> no_loss_shown(
        s,
        e,
        order.intent,
        a,
    )
    &&& e.schema_version >= 4 ==> !holds_key::<String, OrderView>(s.orders, order.order_id)
}

/// The state after an order is intended. The first layouts pass over an order
/// that is there already.
pub open spec fn order_intended(
    s: StrategyStateView,
    e: EventEnvelopeView,
    order: OrderView,
    a: AppraisalView,
) -> Option<StrategyStateView> {
    if !intent_allowed(s, e, order, a) {
        None
    } else if holds_key::<String, OrderView>(s.orders, order.order_id) {
        Some(s)
    } else {
        Some(
            StrategyStateView {
                orders: with::<String, OrderView>(s.orders, order.order_id, order),
                ..s
            },
        )
    }
}

impl Order {
    fn is_untouched(&self) -> (r: bool)
        ensures
            r == untouched(self@),
    {
        matches!(self.status, OrderStatus::Created) && self.filled_quantity == 0
            && self.filled_notional.is_zero() && self.commission_charged.is_zero()
            && self.cancel_requested_reason.is_none() && self.cancel_requested_at.is_none()
    }

    fn does_buy_reserve(
        &self,
        event: &EventEnvelope,
        policy: &ProfitGuardPolicy,
        appraisal: &Appraisal,
    ) -> (r: bool)
        ensures
            r == buy_reserves(event@, self@, *policy, appraisal@),
    {
        let reservation = if event.schema_version >= 6 {
            appraisal.buy_reservation
        } else {
            policy.doubled_buy_reservation(self.intent.limit_price, self.intent.quantity)
        };
        match reservation {
            Some(cash) => self.intent.target_lot_ids.len() == 0
                && self.intent.target_lot_allocations.len() == 0
                && self.intent.profit_guard_version.as_str().unicode_len() == 0
                && self.reserved_cash_remaining.equals(&cash) && self.reserved_quantity_remaining
                == 0,
            None => false,
        }
    }

    fn does_sell_reserve(&self, backing: &Vec<Backing>, Ghost(list): Ghost<
        Seq<RightTrancheView>,
    >) -> (r: bool)
        requires
            backing.deep_view() == backings(list),
        ensures
            r == sell_reserves(self@, list),
    {
        let (lots, takings_made) = parts_taken(&self.intent.target_lot_allocations);
        let keys = keys_only(backing);
        let taken_keys = keys_only(&takings_made);
        self.intent.target_lot_ids.same(&lots) && has_no_repeats(&keys) && has_no_repeats(
            &taken_keys,
        ) && have_same_members(backing, &takings_made) && self.reserved_cash_remaining.is_zero()
            && self.reserved_quantity_remaining == self.intent.quantity
    }

    fn is_intent_of_right(&self, state: &StrategyState, event: &EventEnvelope, right: &GridRight) -> (r:
        bool)
        ensures
            r == intent_of_right(state@, event@, self@, right@),
    {
        let i = &self.intent;
        let intent_name = intent_id(
            state.run_id.as_str(),
            state.cycle_id.as_str(),
            i.grid_index,
            &i.created_at,
        );
        let order_name = order_id(i.intent_id.as_str());
        let budgeted = match i.limit_price.checked_mul(Decimal::from_i64(i.quantity)) {
            Some(budget) => i.budget.equals(&budget),
            None => false,
        };
        let decided: i64 = if right.decision_contract_version
            >= WHOLE_UNIT_DECISION_CONTRACT_VERSION {
            right.decision_intent_quantity
        } else {
            right.decided_exercise_quantity
        };
        matches!(right.status, GridRightStatus::Reserved) && text_eq(
            right.cycle_id.as_str(),
            state.cycle_id.as_str(),
        ) && text_eq(event.cycle_id.as_str(), state.cycle_id.as_str()) && right.direction
            == i.direction && right.grid_index == i.grid_index && right.grid_price.equals(
            &i.limit_price,
        ) && right.reserved_quantity == i.quantity && right.decision_recorded && decided
            == i.quantity && i.quantity > 0 && state.audited_lot_size > 0 && is_whole(
            i.quantity,
            state.audited_lot_size,
        ) && budgeted && i.limit_price.is_positive() && i.created_at.same(&event.event_time)
            && text_eq(i.intent_id.as_str(), intent_name.as_str()) && text_eq(
            self.order_id.as_str(),
            order_name.as_str(),
        ) && self.is_untouched()
    }

    fn opens_as_planned(
        &self,
        state: &StrategyState,
        event: &EventEnvelope,
        config: &Config,
        ev: &InitialDeploymentEvaluation,
        plan: &DeploymentPlan,
        reservation: &Decimal,
    ) -> (r: bool)
        ensures
            self@.intent.origin is Some ==> r == opening_as_planned(
                state@,
                event@,
                self@,
                config@,
                ev@,
                *plan,
                *reservation,
            ),
            self@.intent.origin is None ==> !r,
    {
        let i = &self.intent;
        let origin = match &i.origin {
            Some(origin) => origin,
            None => {
                return false;
            },
        };
        let opening = opening_id(state.run_id.as_str());
        let order_name = order_id(opening.as_str());
        let budgeted = match i.limit_price.checked_mul(Decimal::from_i64(i.quantity)) {
            Some(budget) => i.budget.equals(&budget),
            None => false,
        };
        let terms = ProfitGuardPolicy::from(config);
        let on_terms = match &i.profit_guard_policy {
            Some(policy) => policy.alike(&terms),
            None => false,
        };
        let as_evaluated = matches!(ev.outcome, InitialDeploymentOutcome::Authorized)
            && ev.selected_units > 0 && text_eq(
            origin.deployment_id.as_str(),
            ev.deployment_id.as_str(),
        ) && text_eq(
            origin.source_market_event_id.as_str(),
            ev.source_market_event_id.as_str(),
        ) && text_eq(
            origin.source_evidence_sha256.as_str(),
            ev.source_evidence_sha256.as_str(),
        ) && text_eq(origin.policy_version.as_str(), ev.policy_version.as_str()) && text_eq(
            origin.policy_version.as_str(),
            INITIAL_DEPLOYMENT_POLICY_VERSION,
        ) && plan.selected_units == ev.selected_units && plan.reservation.equals(
            &ev.canonical_reservation,
        );
        as_evaluated && i.right_id.as_str().unicode_len() == 0 && plan.quantity > 0 && matches!(
            i.direction,
            Direction::Buy
        ) && i.grid_index == 0 && i.quantity == plan.quantity && config.standard_quantity > 0
            && is_whole(i.quantity, config.standard_quantity) && budgeted && i.created_at.same(
            &event.event_time,
        ) && text_eq(event.cycle_id.as_str(), state.cycle_id.as_str()) && text_eq(
            i.intent_id.as_str(),
            opening.as_str(),
        ) && text_eq(self.order_id.as_str(), order_name.as_str()) && i.target_lot_ids.len() == 0
            && i.target_lot_allocations.len() == 0
            && i.profit_guard_version.as_str().unicode_len() == 0 && on_terms && self.is_untouched()
            && self.reserved_cash_remaining.equals(reservation) && self.reserved_quantity_remaining
            == 0
    }
}

fn parts_taken(list: &Vec<LotQuantityAllocation>) -> (r: (Vec<String>, Vec<Backing>))
    ensures
        r.0.deep_view() == lots_of(list.deep_view()),
        r.1.deep_view() == takings(list.deep_view()),
{
    let ghost all = list.deep_view();
    let mut lots: Vec<String> = Vec::new();
    let mut parts: Vec<Backing> = Vec::new();
    let mut i: usize = 0;
    while i < list.len()
        invariant
            i <= list.len(),
            all == list.deep_view(),
            lots.deep_view() == lots_of(all).subrange(0, i as int),
            parts.deep_view() == takings(all).subrange(0, i as int),
        decreases list.len() - i,
    {
        let ghost lots0 = lots.deep_view();
        let ghost parts0 = parts.deep_view();
        let x = &list[i];
        assert(all[i as int] == x@);
        let part = Backing {
            lot_id: x.lot_id.dup(),
            tranche_id: x.tranche_id.dup(),
            quantity: x.quantity,
        };
        let ghost pv = part@;
        lots.push(x.lot_id.dup());
        parts.push(part);
        assert(lots.deep_view() =~= lots0.push(x@.lot_id));
        assert(parts.deep_view() =~= parts0.push(pv));
        assert(lots.deep_view() =~= lots_of(all).subrange(0, i + 1));
        assert(parts.deep_view() =~= takings(all).subrange(0, i + 1));
        i = i + 1;
    }
    assert(lots.deep_view() =~= lots_of(all));
    assert(parts.deep_view() =~= takings(all));
    (lots, parts)
}

fn keys_only(list: &Vec<Backing>) -> (r: Vec<Backing>)
    ensures
        r.deep_view() == backing_keys(list.deep_view()),
{
    let ghost all = list.deep_view();
    let mut keys: Vec<Backing> = Vec::new();
    let mut i: usize = 0;
    while i < list.len()
        invariant
            i <= list.len(),
            all == list.deep_view(),
            keys.deep_view() == backing_keys(all).subrange(0, i as int),
        decreases list.len() - i,
    {
        let ghost before = keys.deep_view();
        assert(all[i as int] == list[i as int]@);
        let key = Backing {
            lot_id: list[i].lot_id.dup(),
            tranche_id: list[i].tranche_id.dup(),
            quantity: 0,
        };
        let ghost kv = key@;
        keys.push(key);
        assert(keys.deep_view() =~= before.push(kv));
        assert(keys.deep_view() =~= backing_keys(all).subrange(0, i + 1));
        i = i + 1;
    }
    assert(keys.deep_view() =~= backing_keys(all));
    keys
}

fn entry_at(list: &Vec<Option<Decimal>>, i: usize) -> (r: Option<Decimal>)
    ensures
        r == entry(list.deep_view(), i as int),
{
    if i < list.len() {
        assert(list.deep_view()[i as int] == list[i as int].deep_view());
        list[i]
    } else {
        None
    }
}

fn worst_profit_of(x: &LotQuantityAllocation) -> (r: Option<Decimal>)
    ensures
        r == worst_profit(x@),
{
    match x.worst_fill_price.checked_mul(Decimal::from_i64(x.quantity)) {
        None => None,
        Some(gross) => match gross.checked_sub(x.maximum_sell_fees) {
            None => None,
            Some(net) => net.checked_sub(x.cost_basis),
        },
    }
}

impl StrategyState {
    fn backing_of_right(&self, right_id: &str) -> (r: (Vec<i64>, Vec<Backing>))
        ensures
            ({
                let list = backers(
                    self@.right_tranches,
                    right_id@,
                    self@.right_tranches.len(),
                );
                &&& r.0@ == reserved_shares(list)
                &&& r.1.deep_view() == backings(list)
            }),
    {
        let ghost all = self@.right_tranches;
        let mut shares: Vec<i64> = Vec::new();
        let mut parts: Vec<Backing> = Vec::new();
        let mut i: usize = 0;
        assert(shares@ =~= reserved_shares(Seq::empty()));
        assert(parts.deep_view() =~= backings(Seq::empty()));
        while i < self.right_tranches.len()
            invariant
                i <= all.len(),
                all == self@.right_tranches,
                all == self.right_tranches@,
                shares@ == reserved_shares(backers(all, right_id@, i as nat)),
                parts.deep_view() == backings(backers(all, right_id@, i as nat)),
            decreases all.len() - i,
        {
            let t = self.right_tranches.value_at(i);
            assert(t@ == all[i as int].1);
            if text_eq(t.owner_right_id.as_str(), right_id) && t.reserved_quantity > 0 {
                let ghost before = backers(all, right_id@, i as nat);
                let ghost parts0 = parts.deep_view();
                let lot_id = match &t.lot_id {
                    Some(lot) => lot.dup(),
                    None => String::new(),
                };
                let part = Backing {
                    lot_id,
                    tranche_id: t.tranche_id.dup(),
                    quantity: t.reserved_quantity,
                };
                let ghost pv = part@;
                assert(pv =~= backing_of(t@));
                shares.push(t.reserved_quantity);
                parts.push(part);
                assert(parts.deep_view() =~= parts0.push(pv));
                assert(shares@ =~= reserved_shares(before.push(t@)));
                assert(parts.deep_view() =~= backings(before.push(t@)));
            }
            i = i + 1;
        }
        (shares, parts)
    }

    fn right_intent_is_allowed(
        &self,
        event: &EventEnvelope,
        order: &Order,
        appraisal: &Appraisal,
    ) -> (r: bool)
        ensures
            r == right_intent_allowed(self@, event@, order@, appraisal@),
    {
        let right = match self.grid_rights.get(&order.intent.right_id) {
            Some(right) => right,
            None => {
                return false;
            },
        };
        if !order.is_intent_of_right(self, event, right) {
            return false;
        }
        let (shares, parts) = self.backing_of_right(right.right_id.as_str());
        let backed = match total_of(&shares) {
            Some(q) => q == order.intent.quantity,
            None => false,
        };
        if !backed {
            return false;
        }
        let ghost list = backers(
            self@.right_tranches,
            right@.right_id,
            self@.right_tranches.len(),
        );
        match &order.intent.profit_guard_policy {
            None => false,
            Some(policy) => match order.intent.direction {
                Direction::Buy => order.does_buy_reserve(event, policy, appraisal),
                Direction::Sell => order.does_sell_reserve(&parts, Ghost(list)),
            },
        }
    }

    fn is_opened(&self) -> (r: bool)
        ensures
            r == opened(self@.orders),
    {
        let ghost all = self@.orders;
        let mut i: usize = 0;
        while i < self.orders.len()
            invariant
                i <= all.len(),
                all == self@.orders,
                all == self.orders@,
                forall|j: int| 0 <= j < i ==> (#[trigger] all[j].1).intent.origin is None,
            decreases all.len() - i,
        {
            let order = self.orders.value_at(i);
            assert(order@ == all[i as int].1);
            if order.intent.origin.is_some() {
                assert(all[i as int].1.intent.origin is Some);
                return true;
            }
            i = i + 1;
        }
        false
    }

    fn validate_initial_deployment_intent(
        &self,
        event: &EventEnvelope,
        order: &Order,
        appraisal: &Appraisal,
    ) -> (r: bool)
        ensures
            r == opening_intent_allowed(self@, event@, order@, appraisal@),
    {
        let config = match &self.audited_config {
            Some(c) => c,
            None => {
                return false;
            },
        };
        let deploys = match &config.gate.capital_inventory {
            Some(settings) => settings.deploy_initial_balance,
            None => false,
        };
        if event.schema_version != 7 || !deploys || self.is_opened() {
            return false;
        }
        match (
            &self.initial_deployment_evaluation,
            &appraisal.deployment,
            &appraisal.buy_reservation,
        ) {
            (Some(ev), Some(plan), Some(reservation)) => order.opens_as_planned(
                self,
                event,
                config,
                ev,
                plan,
                reservation,
            ),
            _ => false,
        }
    }

    fn validate_current_order_intent(
        &self,
        event: &EventEnvelope,
        order: &Order,
        appraisal: &Appraisal,
    ) -> (r: bool)
        ensures
            r == current_intent_allowed(self@, event@, order@, appraisal@),
    {
        if order.intent.origin.is_some() {
            self.validate_initial_deployment_intent(event, order, appraisal)
        } else {
            self.right_intent_is_allowed(event, order, appraisal)
        }
    }

    fn evaluation_is_as_planned(
        &self,
        event: &EventEnvelope,
        ev: &InitialDeploymentEvaluation,
        config: &Config,
        settings: &CapitalInventorySettings,
        plan: &DeploymentPlan,
    ) -> (r: bool)
        ensures
            self@.pending_market_evidence is Some ==> r == evaluation_as_planned(
                self@,
                event@,
                ev@,
                config@,
                *settings,
                *plan,
            ),
            self@.pending_market_evidence is None ==> !r,
    {
        let pending = match &self.pending_market_evidence {
            Some(p) => p,
            None => {
                return false;
            },
        };
        let opening = opening_id(self.run_id.as_str());
        let selects = plan.selected_units > 0;
        let outcome = if selects {
            InitialDeploymentOutcome::Authorized
        } else {
            InitialDeploymentOutcome::Blocked
        };
        let reason = if selects {
            "AUTHORIZED"
        } else {
            "NO_AFFORDABLE_UNITS"
        };
        let of_event = settings.deploy_initial_balance
            && self.initial_deployment_evaluation.is_none() && event.schema_version == 1 && !text_eq(
            event.event_id.as_str(),
            pending.event_id.as_str(),
        ) && event.event_time.same(&pending.bar.timestamp) && text_eq(
            event.symbol.as_str(),
            pending.bar.symbol.as_str(),
        ) && text_eq(event.cycle_id.as_str(), self.cycle_id.as_str());
        let of_source = text_eq(ev.deployment_id.as_str(), opening.as_str()) && text_eq(
            ev.policy_version.as_str(),
            INITIAL_DEPLOYMENT_POLICY_VERSION,
        ) && text_eq(ev.source_market_event_id.as_str(), pending.event_id.as_str()) && text_eq(
            ev.source_evidence_sha256.as_str(),
            pending.evidence_sha256.as_str(),
        ) && text_eq(ev.symbol.as_str(), pending.bar.symbol.as_str()) && ev.market_time.same(
            &pending.bar.timestamp,
        ) && ev.limit_price.equals(&pending.bar.close);
        let of_account = ev.pre_available_cash.equals(&self.cash.available)
            && ev.pre_frozen_cash.equals(&self.cash.frozen) && ev.pre_position
            == self.position.total && ev.pre_pending_buy_quantity == plan.pending_buy_quantity
            && ev.minimum_free_cash.equals(&settings.minimum_free_cash) && ev.standard_quantity
            == config.standard_quantity;
        of_event && of_source && of_account && ev.maximum_units == plan.maximum_units
            && ev.selected_units == plan.selected_units && ev.quantity == plan.quantity
            && ev.canonical_reservation.equals(&plan.reservation)
            && ev.projected_remaining_cash.equals(&plan.projected_remaining_cash) && ev.outcome
            == outcome && text_eq(ev.reason.as_str(), reason)
    }

    pub(crate) fn evaluate_opening(
        &mut self,
        event: &EventEnvelope,
        ev: &InitialDeploymentEvaluation,
        appraisal: &Appraisal,
    ) -> (r: bool)
        ensures
            match opening_evaluated(old(self)@, event@, ev@, appraisal@) {
                Some(n) => r && final(self)@ == n,
                None => !r,
            },
    {
        let as_planned = match (&self.audited_config, &appraisal.deployment) {
            (Some(config), Some(plan)) => match &config.gate.capital_inventory {
                Some(settings) => self.evaluation_is_as_planned(event, ev, config, settings, plan),
                None => false,
            },
            _ => false,
        };
        if !as_planned {
            return false;
        }
        self.initial_deployment_evaluation = Some(ev.dup());
        true
    }

    fn allocation_is_proved(
        &self,
        event: &EventEnvelope,
        x: &LotQuantityAllocation,
        i: usize,
        appraisal: &Appraisal,
    ) -> (r: bool)
        ensures
            r == allocation_proved(self@, event@, x@, i as int, appraisal@),
    {
        if self.lots.get(&x.lot_id).is_none() {
            return false;
        }
        let (cost, t, profit) = match (
            entry_at(&appraisal.close_costs, i),
            self.right_tranches.get(&x.tranche_id),
            worst_profit_of(x),
        ) {
            (Some(cost), Some(t), Some(profit)) => (cost, t, profit),
            _ => {
                return false;
            },
        };
        let of_lot = match &t.lot_id {
            Some(lot) => text_eq(lot.as_str(), x.lot_id.as_str()),
            None => false,
        };
        if !cost.equals(&x.cost_basis) || !profit.equals(&x.worst_case_profit) || !of_lot
            || t.reserved_quantity < x.quantity {
            return false;
        }
        if event.schema_version >= 3 {
            match (&appraisal.worst_sell_price, entry_at(&appraisal.sell_fees, i)) {
                (Some(worst), Some(fees)) => x.worst_fill_price.equals(worst)
                    && x.maximum_sell_fees.equals(&fees),
                _ => false,
            }
        } else {
            true
        }
    }

    fn no_loss_is_shown(&self, event: &EventEnvelope, order: &Order, appraisal: &Appraisal) -> (r:
        bool)
        ensures
            r == no_loss_shown(self@, event@, order@.intent, appraisal@),
    {
        let list = &order.intent.target_lot_allocations;
        let ghost all = list.deep_view();
        let quantities = quantities_of(list);
        let sums = match total_of(&quantities) {
            Some(q) => q == order.intent.quantity,
            None => false,
        };
        if !text_eq(
            order.intent.profit_guard_version.as_str(),
            appraisal.profit_guard_version.as_str(),
        ) || !sums || list.len() == 0 || !lots_are_distinct(list) {
            return false;
        }
        let mut i: usize = 0;
        while i < list.len()
            invariant
                i <= list.len(),
                all == list.deep_view(),
                all == order@.intent.target_lot_allocations,
                forall|j: int|
                    0 <= j < i ==> allocation_sound(
                        #[trigger] all[j],
                        order@.intent.target_lot_ids,
                    ),
                forall|j: int|
                    0 <= j < i ==> allocation_proved(
                        self@,
                        event@,
                        #[trigger] all[j],
                        j,
                        appraisal@,
                    ),
            decreases list.len() - i,
        {
            let x = &list[i];
            assert(all[i as int] == x@);
            let sound = x.quantity > 0 && x.tranche_id.as_str().unicode_len() > 0
                && !x.worst_case_profit.is_negative() && text_list_contains(
                &order.intent.target_lot_ids,
                x.lot_id.as_str(),
            );
            if !sound {
                assert(!allocation_sound(all[i as int], order@.intent.target_lot_ids));
                return false;
            }
            if !self.allocation_is_proved(event, x, i, appraisal) {
                return false;
            }
            i = i + 1;
        }
        true
    }

    fn order_carries_terms(&self, order: &Order) -> (r: bool)
        ensures
            r == carries_terms(self@, order@.intent),
    {
        match (&order.intent.profit_guard_policy, &self.audited_profit_guard_policy) {
            (Some(policy), Some(audited)) => policy.is_in_order() && audited.alike(policy),
            _ => false,
        }
    }

    pub(crate) fn intend_order(
        &mut self,
        event: &EventEnvelope,
        order: &Order,
        appraisal: &Appraisal,
    ) -> (r: bool)
        ensures
            match order_intended(old(self)@, event@, order@, appraisal@) {
                Some(n) => r && final(self)@ == n,
                None => !r,
            },
    {
        let version: i32 = event.schema_version;
        if version >= 4 && !self.validate_current_order_intent(event, order, appraisal) {
            return false;
        }
        if version >= 5 && (self.audited_standard_quantity <= 0 || !is_whole(
            order.intent.quantity,
            self.audited_standard_quantity,
        )) {
            return false;
        }
        if version >= 3 && !self.order_carries_terms(order) {
            return false;
        }
        if version >= 2 && matches!(order.intent.direction, Direction::Sell)
            && !self.no_loss_is_shown(event, order, appraisal) {
            return false;
        }
        if self.orders.contains(&order.order_id) {
            return version < 4;
        }
        self.orders.put(order.order_id.dup(), order.dup());
        true
    }
}

} // verus!

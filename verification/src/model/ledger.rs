//! The strategy state and its parts.
use crate::clock::Day;
use crate::clock::Moment;
use crate::decimal::Decimal;
use crate::model::market::Direction;
use crate::model::market::PendingMarketEvidence;
use crate::model::market::PendingMarketEvidenceView;
use crate::model::rights::GridRight;
use crate::model::rights::GridRightView;
use crate::model::rights::RightTranche;
use crate::model::rights::RightTrancheView;
use crate::model::settings::Config;
use crate::model::settings::ConfigView;
use crate::table::Table;
use crate::value::Value;
use vstd::prelude::*;

verus! {

/// Whether the service trades.
#[derive(Clone, Copy, Debug, PartialEq, Eq, Structural)]
pub enum ServiceMode {
    Running,
    Safe,
    ReadOnly,
    Stopped,
}

impl DeepView for ServiceMode {
    type V = ServiceMode;

    open spec fn deep_view(&self) -> ServiceMode {
        *self
    }
}

impl View for ServiceMode {
    type V = ServiceMode;

    open spec fn view(&self) -> ServiceMode {
        *self
    }
}

impl Value for ServiceMode {
    fn dup(&self) -> (r: Self) {
        *self
    }

    fn same(&self, other: &Self) -> (r: bool) {
        *self == *other
    }
}

/// Where a grid level stands.
#[derive(Clone, Copy, Debug, PartialEq, Eq, Structural)]
pub enum GridLevelStatus {
    Armed,
    Touched,
    Executed,
    Skipped,
    Rearmed,
}

impl DeepView for GridLevelStatus {
    type V = GridLevelStatus;

    open spec fn deep_view(&self) -> GridLevelStatus {
        *self
    }
}

impl View for GridLevelStatus {
    type V = GridLevelStatus;

    open spec fn view(&self) -> GridLevelStatus {
        *self
    }
}

impl Value for GridLevelStatus {
    fn dup(&self) -> (r: Self) {
        *self
    }

    fn same(&self, other: &Self) -> (r: bool) {
        *self == *other
    }
}

/// Where an order stands.
#[derive(Clone, Copy, Debug, PartialEq, Eq, Structural)]
pub enum OrderStatus {
    Created,
    Submitted,
    Accepted,
    PartiallyFilled,
    Filled,
    Rejected,
    CancelPending,
    Cancelled,
}

impl DeepView for OrderStatus {
    type V = OrderStatus;

    open spec fn deep_view(&self) -> OrderStatus {
        *self
    }
}

impl View for OrderStatus {
    type V = OrderStatus;

    open spec fn view(&self) -> OrderStatus {
        *self
    }
}

impl Value for OrderStatus {
    fn dup(&self) -> (r: Self) {
        *self
    }

    fn same(&self, other: &Self) -> (r: bool) {
        *self == *other
    }
}

/// What became of the initial deployment.
#[derive(Clone, Copy, Debug, PartialEq, Eq, Structural)]
pub enum InitialDeploymentOutcome {
    Authorized,
    Blocked,
}

impl DeepView for InitialDeploymentOutcome {
    type V = InitialDeploymentOutcome;

    open spec fn deep_view(&self) -> InitialDeploymentOutcome {
        *self
    }
}

impl View for InitialDeploymentOutcome {
    type V = InitialDeploymentOutcome;

    open spec fn view(&self) -> InitialDeploymentOutcome {
        *self
    }
}

impl Value for InitialDeploymentOutcome {
    fn dup(&self) -> (r: Self) {
        *self
    }

    fn same(&self, other: &Self) -> (r: bool) {
        *self == *other
    }
}

/// One level of the grid.
#[derive(Clone, Copy, Debug)]
pub struct GridLevelState {
    pub index: i32,
    pub price: Decimal,
    pub status: GridLevelStatus,
    pub touch_count: u64,
}

impl DeepView for GridLevelState {
    type V = GridLevelState;

    open spec fn deep_view(&self) -> GridLevelState {
        *self
    }
}

impl View for GridLevelState {
    type V = GridLevelState;

    open spec fn view(&self) -> GridLevelState {
        *self
    }
}

impl Value for GridLevelState {
    fn dup(&self) -> (r: Self) {
        *self
    }

    fn same(&self, other: &Self) -> (r: bool) {
        self.index == other.index
            && self.price.same(&other.price)
            && self.status == other.status
            && self.touch_count == other.touch_count
    }
}

/// One cycle of the grid.
pub struct GridCycle {
    pub cycle_id: String,
    pub anchor_price: Decimal,
    pub started_at: Moment,
    pub active: bool,
}

/// The content of [`GridCycle`].
#[verifier::ext_equal]
pub struct GridCycleView {
    pub cycle_id: Seq<char>,
    pub anchor_price: Decimal,
    pub started_at: Moment,
    pub active: bool,
}

impl DeepView for GridCycle {
    type V = GridCycleView;

    open spec fn deep_view(&self) -> GridCycleView {
        GridCycleView {
            cycle_id: self.cycle_id.deep_view(),
            anchor_price: self.anchor_price,
            started_at: self.started_at,
            active: self.active,
        }
    }
}

impl View for GridCycle {
    type V = GridCycleView;

    open spec fn view(&self) -> GridCycleView {
        self.deep_view()
    }
}

impl Value for GridCycle {
    fn dup(&self) -> (r: Self) {
        GridCycle {
            cycle_id: self.cycle_id.dup(),
            anchor_price: self.anchor_price,
            started_at: self.started_at,
            active: self.active,
        }
    }

    fn same(&self, other: &Self) -> (r: bool) {
        self.cycle_id.same(&other.cycle_id)
            && self.anchor_price.same(&other.anchor_price)
            && self.started_at.same(&other.started_at)
            && self.active == other.active
    }
}

impl Clone for GridCycle {
    fn clone(&self) -> (r: Self)
        ensures
            r@ == self@,
    {
        self.dup()
    }
}

/// The crossing of a grid level.
pub struct GridTrigger {
    pub trigger_id: String,
    pub grid_index: i32,
    pub direction: Direction,
    pub touched_at: Moment,
    pub ambiguous: bool,
}

/// The content of [`GridTrigger`].
#[verifier::ext_equal]
pub struct GridTriggerView {
    pub trigger_id: Seq<char>,
    pub grid_index: i32,
    pub direction: Direction,
    pub touched_at: Moment,
    pub ambiguous: bool,
}

impl DeepView for GridTrigger {
    type V = GridTriggerView;

    open spec fn deep_view(&self) -> GridTriggerView {
        GridTriggerView {
            trigger_id: self.trigger_id.deep_view(),
            grid_index: self.grid_index,
            direction: self.direction,
            touched_at: self.touched_at,
            ambiguous: self.ambiguous,
        }
    }
}

impl View for GridTrigger {
    type V = GridTriggerView;

    open spec fn view(&self) -> GridTriggerView {
        self.deep_view()
    }
}

impl Value for GridTrigger {
    fn dup(&self) -> (r: Self) {
        GridTrigger {
            trigger_id: self.trigger_id.dup(),
            grid_index: self.grid_index,
            direction: self.direction,
            touched_at: self.touched_at,
            ambiguous: self.ambiguous,
        }
    }

    fn same(&self, other: &Self) -> (r: bool) {
        self.trigger_id.same(&other.trigger_id)
            && self.grid_index == other.grid_index
            && self.direction == other.direction
            && self.touched_at.same(&other.touched_at)
            && self.ambiguous == other.ambiguous
    }
}

impl Clone for GridTrigger {
    fn clone(&self) -> (r: Self)
        ensures
            r@ == self@,
    {
        self.dup()
    }
}

/// What is left of the budget that a depth of the grid allows.
#[derive(Clone, Copy, Debug)]
pub struct DeferredBudget {
    pub mechanical_cap: Decimal,
    pub deployed: Decimal,
    pub available: Decimal,
}

impl DeepView for DeferredBudget {
    type V = DeferredBudget;

    open spec fn deep_view(&self) -> DeferredBudget {
        *self
    }
}

impl View for DeferredBudget {
    type V = DeferredBudget;

    open spec fn view(&self) -> DeferredBudget {
        *self
    }
}

impl Value for DeferredBudget {
    fn dup(&self) -> (r: Self) {
        *self
    }

    fn same(&self, other: &Self) -> (r: bool) {
        self.mechanical_cap.same(&other.mechanical_cap)
            && self.deployed.same(&other.deployed)
            && self.available.same(&other.available)
    }
}

/// How many shares can be traded.
#[derive(Clone, Copy, Debug, PartialEq, Eq, Structural)]
pub struct TradableQuantity {
    pub total: i64,
    pub sellable_today: i64,
    pub frozen_for_orders: i64,
}

impl DeepView for TradableQuantity {
    type V = TradableQuantity;

    open spec fn deep_view(&self) -> TradableQuantity {
        *self
    }
}

impl View for TradableQuantity {
    type V = TradableQuantity;

    open spec fn view(&self) -> TradableQuantity {
        *self
    }
}

impl Value for TradableQuantity {
    fn dup(&self) -> (r: Self) {
        *self
    }

    fn same(&self, other: &Self) -> (r: bool) {
        *self == *other
    }
}

/// The fee and slippage terms of a run.
#[derive(Clone, Copy, Debug)]
pub struct ProfitGuardPolicy {
    pub price_scale: u32,
    pub commission_rate: Decimal,
    pub minimum_commission: Decimal,
    pub sell_tax_rate: Decimal,
    pub slippage_rate: Decimal,
}

impl DeepView for ProfitGuardPolicy {
    type V = ProfitGuardPolicy;

    open spec fn deep_view(&self) -> ProfitGuardPolicy {
        *self
    }
}

impl View for ProfitGuardPolicy {
    type V = ProfitGuardPolicy;

    open spec fn view(&self) -> ProfitGuardPolicy {
        *self
    }
}

impl Value for ProfitGuardPolicy {
    fn dup(&self) -> (r: Self) {
        *self
    }

    fn same(&self, other: &Self) -> (r: bool) {
        self.price_scale == other.price_scale
            && self.commission_rate.same(&other.commission_rate)
            && self.minimum_commission.same(&other.minimum_commission)
            && self.sell_tax_rate.same(&other.sell_tax_rate)
            && self.slippage_rate.same(&other.slippage_rate)
    }
}

/// Whether both agree, decimals by value.
pub open spec fn profit_guard_policy_alike(a: ProfitGuardPolicy, b: ProfitGuardPolicy) -> bool {
    &&& a.price_scale == b.price_scale
    &&& a.commission_rate.units() == b.commission_rate.units()
    &&& a.minimum_commission.units() == b.minimum_commission.units()
    &&& a.sell_tax_rate.units() == b.sell_tax_rate.units()
    &&& a.slippage_rate.units() == b.slippage_rate.units()
}

impl ProfitGuardPolicy {
    /// Whether both agree, decimals by value.
    pub fn alike(&self, other: &Self) -> (r: bool)
        ensures
            r == profit_guard_policy_alike(self@, other@),
    {
        self.price_scale == other.price_scale
            && self.commission_rate.equals(&other.commission_rate)
            && self.minimum_commission.equals(&other.minimum_commission)
            && self.sell_tax_rate.equals(&other.sell_tax_rate)
            && self.slippage_rate.equals(&other.slippage_rate)
    }
}

/// The part of a lot that a sell closes, with its proof of no loss.
pub struct LotQuantityAllocation {
    pub lot_id: String,
    pub tranche_id: String,
    pub quantity: i64,
    pub cost_basis: Decimal,
    pub worst_fill_price: Decimal,
    pub maximum_sell_fees: Decimal,
    pub worst_case_profit: Decimal,
}

/// The content of [`LotQuantityAllocation`].
#[verifier::ext_equal]
pub struct LotQuantityAllocationView {
    pub lot_id: Seq<char>,
    pub tranche_id: Seq<char>,
    pub quantity: i64,
    pub cost_basis: Decimal,
    pub worst_fill_price: Decimal,
    pub maximum_sell_fees: Decimal,
    pub worst_case_profit: Decimal,
}

impl DeepView for LotQuantityAllocation {
    type V = LotQuantityAllocationView;

    open spec fn deep_view(&self) -> LotQuantityAllocationView {
        LotQuantityAllocationView {
            lot_id: self.lot_id.deep_view(),
            tranche_id: self.tranche_id.deep_view(),
            quantity: self.quantity,
            cost_basis: self.cost_basis,
            worst_fill_price: self.worst_fill_price,
            maximum_sell_fees: self.maximum_sell_fees,
            worst_case_profit: self.worst_case_profit,
        }
    }
}

impl View for LotQuantityAllocation {
    type V = LotQuantityAllocationView;

    open spec fn view(&self) -> LotQuantityAllocationView {
        self.deep_view()
    }
}

impl Value for LotQuantityAllocation {
    fn dup(&self) -> (r: Self) {
        LotQuantityAllocation {
            lot_id: self.lot_id.dup(),
            tranche_id: self.tranche_id.dup(),
            quantity: self.quantity,
            cost_basis: self.cost_basis,
            worst_fill_price: self.worst_fill_price,
            maximum_sell_fees: self.maximum_sell_fees,
            worst_case_profit: self.worst_case_profit,
        }
    }

    fn same(&self, other: &Self) -> (r: bool) {
        self.lot_id.same(&other.lot_id)
            && self.tranche_id.same(&other.tranche_id)
            && self.quantity == other.quantity
            && self.cost_basis.same(&other.cost_basis)
            && self.worst_fill_price.same(&other.worst_fill_price)
            && self.maximum_sell_fees.same(&other.maximum_sell_fees)
            && self.worst_case_profit.same(&other.worst_case_profit)
    }
}

impl Clone for LotQuantityAllocation {
    fn clone(&self) -> (r: Self)
        ensures
            r@ == self@,
    {
        self.dup()
    }
}

/// Whether both agree, decimals by value.
pub open spec fn lot_quantity_allocation_alike(a: LotQuantityAllocationView, b: LotQuantityAllocationView) -> bool {
    &&& a.lot_id == b.lot_id
    &&& a.tranche_id == b.tranche_id
    &&& a.quantity == b.quantity
    &&& a.cost_basis.units() == b.cost_basis.units()
    &&& a.worst_fill_price.units() == b.worst_fill_price.units()
    &&& a.maximum_sell_fees.units() == b.maximum_sell_fees.units()
    &&& a.worst_case_profit.units() == b.worst_case_profit.units()
}

impl LotQuantityAllocation {
    /// Whether both agree, decimals by value.
    pub fn alike(&self, other: &Self) -> (r: bool)
        ensures
            r == lot_quantity_allocation_alike(self@, other@),
    {
        self.lot_id.same(&other.lot_id)
            && self.tranche_id.same(&other.tranche_id)
            && self.quantity == other.quantity
            && self.cost_basis.equals(&other.cost_basis)
            && self.worst_fill_price.equals(&other.worst_fill_price)
            && self.maximum_sell_fees.equals(&other.maximum_sell_fees)
            && self.worst_case_profit.equals(&other.worst_case_profit)
    }
}

/// The deployment that an order opens.
pub struct DeploymentOrigin {
    pub deployment_id: String,
    pub source_market_event_id: String,
    pub source_evidence_sha256: String,
    pub policy_version: String,
}

/// The content of [`DeploymentOrigin`].
#[verifier::ext_equal]
pub struct DeploymentOriginView {
    pub deployment_id: Seq<char>,
    pub source_market_event_id: Seq<char>,
    pub source_evidence_sha256: Seq<char>,
    pub policy_version: Seq<char>,
}

impl DeepView for DeploymentOrigin {
    type V = DeploymentOriginView;

    open spec fn deep_view(&self) -> DeploymentOriginView {
        DeploymentOriginView {
            deployment_id: self.deployment_id.deep_view(),
            source_market_event_id: self.source_market_event_id.deep_view(),
            source_evidence_sha256: self.source_evidence_sha256.deep_view(),
            policy_version: self.policy_version.deep_view(),
        }
    }
}

impl View for DeploymentOrigin {
    type V = DeploymentOriginView;

    open spec fn view(&self) -> DeploymentOriginView {
        self.deep_view()
    }
}

impl Value for DeploymentOrigin {
    fn dup(&self) -> (r: Self) {
        DeploymentOrigin {
            deployment_id: self.deployment_id.dup(),
            source_market_event_id: self.source_market_event_id.dup(),
            source_evidence_sha256: self.source_evidence_sha256.dup(),
            policy_version: self.policy_version.dup(),
        }
    }

    fn same(&self, other: &Self) -> (r: bool) {
        self.deployment_id.same(&other.deployment_id)
            && self.source_market_event_id.same(&other.source_market_event_id)
            && self.source_evidence_sha256.same(&other.source_evidence_sha256)
            && self.policy_version.same(&other.policy_version)
    }
}

impl Clone for DeploymentOrigin {
    fn clone(&self) -> (r: Self)
        ensures
            r@ == self@,
    {
        self.dup()
    }
}

/// What an order is to do.
pub struct OrderIntent {
    pub intent_id: String,
    pub right_id: String,
    pub grid_index: i32,
    pub direction: Direction,
    pub limit_price: Decimal,
    pub quantity: i64,
    pub budget: Decimal,
    pub target_lot_ids: Vec<String>,
    /// The exact parts of lots that a sell may close.
    pub target_lot_allocations: Vec<LotQuantityAllocation>,
    pub profit_guard_version: String,
    pub profit_guard_policy: Option<ProfitGuardPolicy>,
    pub created_at: Moment,
    /// The deployment that the order opens; an order of a grid right has none.
    pub origin: Option<DeploymentOrigin>,
}

/// The content of [`OrderIntent`].
#[verifier::ext_equal]
pub struct OrderIntentView {
    pub intent_id: Seq<char>,
    pub right_id: Seq<char>,
    pub grid_index: i32,
    pub direction: Direction,
    pub limit_price: Decimal,
    pub quantity: i64,
    pub budget: Decimal,
    pub target_lot_ids: Seq<Seq<char>>,
    pub target_lot_allocations: Seq<LotQuantityAllocationView>,
    pub profit_guard_version: Seq<char>,
    pub profit_guard_policy: Option<ProfitGuardPolicy>,
    pub created_at: Moment,
    pub origin: Option<DeploymentOriginView>,
}

impl DeepView for OrderIntent {
    type V = OrderIntentView;

    open spec fn deep_view(&self) -> OrderIntentView {
        OrderIntentView {
            intent_id: self.intent_id.deep_view(),
            right_id: self.right_id.deep_view(),
            grid_index: self.grid_index,
            direction: self.direction,
            limit_price: self.limit_price,
            quantity: self.quantity,
            budget: self.budget,
            target_lot_ids: self.target_lot_ids.deep_view(),
            target_lot_allocations: self.target_lot_allocations.deep_view(),
            profit_guard_version: self.profit_guard_version.deep_view(),
            profit_guard_policy: self.profit_guard_policy.deep_view(),
            created_at: self.created_at,
            origin: self.origin.deep_view(),
        }
    }
}

impl View for OrderIntent {
    type V = OrderIntentView;

    open spec fn view(&self) -> OrderIntentView {
        self.deep_view()
    }
}

impl Value for OrderIntent {
    fn dup(&self) -> (r: Self) {
        OrderIntent {
            intent_id: self.intent_id.dup(),
            right_id: self.right_id.dup(),
            grid_index: self.grid_index,
            direction: self.direction,
            limit_price: self.limit_price,
            quantity: self.quantity,
            budget: self.budget,
            target_lot_ids: self.target_lot_ids.dup(),
            target_lot_allocations: self.target_lot_allocations.dup(),
            profit_guard_version: self.profit_guard_version.dup(),
            profit_guard_policy: self.profit_guard_policy.dup(),
            created_at: self.created_at,
            origin: self.origin.dup(),
        }
    }

    fn same(&self, other: &Self) -> (r: bool) {
        self.intent_id.same(&other.intent_id)
            && self.right_id.same(&other.right_id)
            && self.grid_index == other.grid_index
            && self.direction == other.direction
            && self.limit_price.same(&other.limit_price)
            && self.quantity == other.quantity
            && self.budget.same(&other.budget)
            && self.target_lot_ids.same(&other.target_lot_ids)
            && self.target_lot_allocations.same(&other.target_lot_allocations)
            && self.profit_guard_version.same(&other.profit_guard_version)
            && self.profit_guard_policy.same(&other.profit_guard_policy)
            && self.created_at.same(&other.created_at)
            && self.origin.same(&other.origin)
    }
}

impl Clone for OrderIntent {
    fn clone(&self) -> (r: Self)
        ensures
            r@ == self@,
    {
        self.dup()
    }
}

/// An order.
pub struct Order {
    pub order_id: String,
    pub intent: OrderIntent,
    pub status: OrderStatus,
    pub filled_quantity: i64,
    pub filled_notional: Decimal,
    pub commission_charged: Decimal,
    pub reserved_cash_remaining: Decimal,
    pub reserved_quantity_remaining: i64,
    pub cancel_requested_reason: Option<String>,
    pub cancel_requested_at: Option<Moment>,
}

/// The content of [`Order`].
#[verifier::ext_equal]
pub struct OrderView {
    pub order_id: Seq<char>,
    pub intent: OrderIntentView,
    pub status: OrderStatus,
    pub filled_quantity: i64,
    pub filled_notional: Decimal,
    pub commission_charged: Decimal,
    pub reserved_cash_remaining: Decimal,
    pub reserved_quantity_remaining: i64,
    pub cancel_requested_reason: Option<Seq<char>>,
    pub cancel_requested_at: Option<Moment>,
}

impl DeepView for Order {
    type V = OrderView;

    open spec fn deep_view(&self) -> OrderView {
        OrderView {
            order_id: self.order_id.deep_view(),
            intent: self.intent.deep_view(),
            status: self.status,
            filled_quantity: self.filled_quantity,
            filled_notional: self.filled_notional,
            commission_charged: self.commission_charged,
            reserved_cash_remaining: self.reserved_cash_remaining,
            reserved_quantity_remaining: self.reserved_quantity_remaining,
            cancel_requested_reason: self.cancel_requested_reason.deep_view(),
            cancel_requested_at: self.cancel_requested_at.deep_view(),
        }
    }
}

impl View for Order {
    type V = OrderView;

    open spec fn view(&self) -> OrderView {
        self.deep_view()
    }
}

impl Value for Order {
    fn dup(&self) -> (r: Self) {
        Order {
            order_id: self.order_id.dup(),
            intent: self.intent.dup(),
            status: self.status,
            filled_quantity: self.filled_quantity,
            filled_notional: self.filled_notional,
            commission_charged: self.commission_charged,
            reserved_cash_remaining: self.reserved_cash_remaining,
            reserved_quantity_remaining: self.reserved_quantity_remaining,
            cancel_requested_reason: self.cancel_requested_reason.dup(),
            cancel_requested_at: self.cancel_requested_at.dup(),
        }
    }

    fn same(&self, other: &Self) -> (r: bool) {
        self.order_id.same(&other.order_id)
            && self.intent.same(&other.intent)
            && self.status == other.status
            && self.filled_quantity == other.filled_quantity
            && self.filled_notional.same(&other.filled_notional)
            && self.commission_charged.same(&other.commission_charged)
            && self.reserved_cash_remaining.same(&other.reserved_cash_remaining)
            && self.reserved_quantity_remaining == other.reserved_quantity_remaining
            && self.cancel_requested_reason.same(&other.cancel_requested_reason)
            && self.cancel_requested_at.same(&other.cancel_requested_at)
    }
}

impl Clone for Order {
    fn clone(&self) -> (r: Self)
        ensures
            r@ == self@,
    {
        self.dup()
    }
}

/// A fill of an order.
pub struct Fill {
    pub fill_id: String,
    pub order_id: String,
    pub direction: Direction,
    pub price: Decimal,
    pub quantity: i64,
    pub commission: Decimal,
    pub tax: Decimal,
    pub trade_date: Day,
    pub target_lot_ids: Vec<String>,
    pub target_lot_allocations: Vec<LotQuantityAllocation>,
}

/// The content of [`Fill`].
#[verifier::ext_equal]
pub struct FillView {
    pub fill_id: Seq<char>,
    pub order_id: Seq<char>,
    pub direction: Direction,
    pub price: Decimal,
    pub quantity: i64,
    pub commission: Decimal,
    pub tax: Decimal,
    pub trade_date: Day,
    pub target_lot_ids: Seq<Seq<char>>,
    pub target_lot_allocations: Seq<LotQuantityAllocationView>,
}

impl DeepView for Fill {
    type V = FillView;

    open spec fn deep_view(&self) -> FillView {
        FillView {
            fill_id: self.fill_id.deep_view(),
            order_id: self.order_id.deep_view(),
            direction: self.direction,
            price: self.price,
            quantity: self.quantity,
            commission: self.commission,
            tax: self.tax,
            trade_date: self.trade_date,
            target_lot_ids: self.target_lot_ids.deep_view(),
            target_lot_allocations: self.target_lot_allocations.deep_view(),
        }
    }
}

impl View for Fill {
    type V = FillView;

    open spec fn view(&self) -> FillView {
        self.deep_view()
    }
}

impl Value for Fill {
    fn dup(&self) -> (r: Self) {
        Fill {
            fill_id: self.fill_id.dup(),
            order_id: self.order_id.dup(),
            direction: self.direction,
            price: self.price,
            quantity: self.quantity,
            commission: self.commission,
            tax: self.tax,
            trade_date: self.trade_date,
            target_lot_ids: self.target_lot_ids.dup(),
            target_lot_allocations: self.target_lot_allocations.dup(),
        }
    }

    fn same(&self, other: &Self) -> (r: bool) {
        self.fill_id.same(&other.fill_id)
            && self.order_id.same(&other.order_id)
            && self.direction == other.direction
            && self.price.same(&other.price)
            && self.quantity == other.quantity
            && self.commission.same(&other.commission)
            && self.tax.same(&other.tax)
            && self.trade_date.same(&other.trade_date)
            && self.target_lot_ids.same(&other.target_lot_ids)
            && self.target_lot_allocations.same(&other.target_lot_allocations)
    }
}

impl Clone for Fill {
    fn clone(&self) -> (r: Self)
        ensures
            r@ == self@,
    {
        self.dup()
    }
}

/// Shares that were bought together.
pub struct TradingLot {
    pub lot_id: String,
    pub source_order_id: String,
    pub grid_index: i32,
    pub opened_on: Day,
    pub original_quantity: i64,
    pub remaining_quantity: i64,
    pub open_price: Decimal,
    pub allocated_cost: Decimal,
    /// The buy cost that is not yet closed. Zero where it has to be taken from
    /// the allocated cost.
    pub remaining_cost: Decimal,
    pub realized_pnl: Decimal,
}

/// The content of [`TradingLot`].
#[verifier::ext_equal]
pub struct TradingLotView {
    pub lot_id: Seq<char>,
    pub source_order_id: Seq<char>,
    pub grid_index: i32,
    pub opened_on: Day,
    pub original_quantity: i64,
    pub remaining_quantity: i64,
    pub open_price: Decimal,
    pub allocated_cost: Decimal,
    pub remaining_cost: Decimal,
    pub realized_pnl: Decimal,
}

impl DeepView for TradingLot {
    type V = TradingLotView;

    open spec fn deep_view(&self) -> TradingLotView {
        TradingLotView {
            lot_id: self.lot_id.deep_view(),
            source_order_id: self.source_order_id.deep_view(),
            grid_index: self.grid_index,
            opened_on: self.opened_on,
            original_quantity: self.original_quantity,
            remaining_quantity: self.remaining_quantity,
            open_price: self.open_price,
            allocated_cost: self.allocated_cost,
            remaining_cost: self.remaining_cost,
            realized_pnl: self.realized_pnl,
        }
    }
}

impl View for TradingLot {
    type V = TradingLotView;

    open spec fn view(&self) -> TradingLotView {
        self.deep_view()
    }
}

impl Value for TradingLot {
    fn dup(&self) -> (r: Self) {
        TradingLot {
            lot_id: self.lot_id.dup(),
            source_order_id: self.source_order_id.dup(),
            grid_index: self.grid_index,
            opened_on: self.opened_on,
            original_quantity: self.original_quantity,
            remaining_quantity: self.remaining_quantity,
            open_price: self.open_price,
            allocated_cost: self.allocated_cost,
            remaining_cost: self.remaining_cost,
            realized_pnl: self.realized_pnl,
        }
    }

    fn same(&self, other: &Self) -> (r: bool) {
        self.lot_id.same(&other.lot_id)
            && self.source_order_id.same(&other.source_order_id)
            && self.grid_index == other.grid_index
            && self.opened_on.same(&other.opened_on)
            && self.original_quantity == other.original_quantity
            && self.remaining_quantity == other.remaining_quantity
            && self.open_price.same(&other.open_price)
            && self.allocated_cost.same(&other.allocated_cost)
            && self.remaining_cost.same(&other.remaining_cost)
            && self.realized_pnl.same(&other.realized_pnl)
    }
}

impl Clone for TradingLot {
    fn clone(&self) -> (r: Self)
        ensures
            r@ == self@,
    {
        self.dup()
    }
}

/// Cash.
#[derive(Clone, Copy, Debug)]
pub struct CashAccount {
    pub available: Decimal,
    pub frozen: Decimal,
    pub total_fees: Decimal,
}

impl DeepView for CashAccount {
    type V = CashAccount;

    open spec fn deep_view(&self) -> CashAccount {
        *self
    }
}

impl View for CashAccount {
    type V = CashAccount;

    open spec fn view(&self) -> CashAccount {
        *self
    }
}

impl Value for CashAccount {
    fn dup(&self) -> (r: Self) {
        *self
    }

    fn same(&self, other: &Self) -> (r: bool) {
        self.available.same(&other.available)
            && self.frozen.same(&other.frozen)
            && self.total_fees.same(&other.total_fees)
    }
}

/// Shares.
#[derive(Clone, Copy, Debug, PartialEq, Eq, Structural)]
pub struct Position {
    pub total: i64,
    pub sellable: i64,
    pub today_bought: i64,
    pub frozen_sell: i64,
}

impl DeepView for Position {
    type V = Position;

    open spec fn deep_view(&self) -> Position {
        *self
    }
}

impl View for Position {
    type V = Position;

    open spec fn view(&self) -> Position {
        *self
    }
}

impl Value for Position {
    fn dup(&self) -> (r: Self) {
        *self
    }

    fn same(&self, other: &Self) -> (r: bool) {
        *self == *other
    }
}

/// What an account holds.
pub struct AccountSnapshot {
    pub cash: CashAccount,
    pub position: Position,
    pub open_order_ids: Vec<String>,
    pub cumulative_filled_quantity: i64,
}

/// The content of [`AccountSnapshot`].
#[verifier::ext_equal]
pub struct AccountSnapshotView {
    pub cash: CashAccount,
    pub position: Position,
    pub open_order_ids: Seq<Seq<char>>,
    pub cumulative_filled_quantity: i64,
}

impl DeepView for AccountSnapshot {
    type V = AccountSnapshotView;

    open spec fn deep_view(&self) -> AccountSnapshotView {
        AccountSnapshotView {
            cash: self.cash,
            position: self.position,
            open_order_ids: self.open_order_ids.deep_view(),
            cumulative_filled_quantity: self.cumulative_filled_quantity,
        }
    }
}

impl View for AccountSnapshot {
    type V = AccountSnapshotView;

    open spec fn view(&self) -> AccountSnapshotView {
        self.deep_view()
    }
}

impl Value for AccountSnapshot {
    fn dup(&self) -> (r: Self) {
        AccountSnapshot {
            cash: self.cash,
            position: self.position,
            open_order_ids: self.open_order_ids.dup(),
            cumulative_filled_quantity: self.cumulative_filled_quantity,
        }
    }

    fn same(&self, other: &Self) -> (r: bool) {
        self.cash.same(&other.cash)
            && self.position.same(&other.position)
            && self.open_order_ids.same(&other.open_order_ids)
            && self.cumulative_filled_quantity == other.cumulative_filled_quantity
    }
}

impl Clone for AccountSnapshot {
    fn clone(&self) -> (r: Self)
        ensures
            r@ == self@,
    {
        self.dup()
    }
}

/// The comparison of the strategy state with the broker.
pub struct ReconciliationResult {
    pub matched: bool,
    pub differences: Vec<String>,
    pub checked_at: Moment,
    pub broker_source: String,
    pub broker_snapshot_sha256: String,
    pub checked_sequence: i64,
}

/// The content of [`ReconciliationResult`].
#[verifier::ext_equal]
pub struct ReconciliationResultView {
    pub matched: bool,
    pub differences: Seq<Seq<char>>,
    pub checked_at: Moment,
    pub broker_source: Seq<char>,
    pub broker_snapshot_sha256: Seq<char>,
    pub checked_sequence: i64,
}

impl DeepView for ReconciliationResult {
    type V = ReconciliationResultView;

    open spec fn deep_view(&self) -> ReconciliationResultView {
        ReconciliationResultView {
            matched: self.matched,
            differences: self.differences.deep_view(),
            checked_at: self.checked_at,
            broker_source: self.broker_source.deep_view(),
            broker_snapshot_sha256: self.broker_snapshot_sha256.deep_view(),
            checked_sequence: self.checked_sequence,
        }
    }
}

impl View for ReconciliationResult {
    type V = ReconciliationResultView;

    open spec fn view(&self) -> ReconciliationResultView {
        self.deep_view()
    }
}

impl Value for ReconciliationResult {
    fn dup(&self) -> (r: Self) {
        ReconciliationResult {
            matched: self.matched,
            differences: self.differences.dup(),
            checked_at: self.checked_at,
            broker_source: self.broker_source.dup(),
            broker_snapshot_sha256: self.broker_snapshot_sha256.dup(),
            checked_sequence: self.checked_sequence,
        }
    }

    fn same(&self, other: &Self) -> (r: bool) {
        self.matched == other.matched
            && self.differences.same(&other.differences)
            && self.checked_at.same(&other.checked_at)
            && self.broker_source.same(&other.broker_source)
            && self.broker_snapshot_sha256.same(&other.broker_snapshot_sha256)
            && self.checked_sequence == other.checked_sequence
    }
}

impl Clone for ReconciliationResult {
    fn clone(&self) -> (r: Self)
        ensures
            r@ == self@,
    {
        self.dup()
    }
}

/// The decision on the deployment of the initial balance.
pub struct InitialDeploymentEvaluation {
    pub deployment_id: String,
    pub policy_version: String,
    pub source_market_event_id: String,
    pub source_evidence_sha256: String,
    pub symbol: String,
    pub market_time: Moment,
    pub limit_price: Decimal,
    pub pre_available_cash: Decimal,
    pub pre_frozen_cash: Decimal,
    pub pre_position: i64,
    pub pre_pending_buy_quantity: i64,
    pub minimum_free_cash: Decimal,
    pub standard_quantity: i64,
    pub maximum_units: i64,
    pub selected_units: i64,
    pub quantity: i64,
    pub canonical_reservation: Decimal,
    pub projected_remaining_cash: Decimal,
    pub outcome: InitialDeploymentOutcome,
    pub reason: String,
}

/// The content of [`InitialDeploymentEvaluation`].
#[verifier::ext_equal]
pub struct InitialDeploymentEvaluationView {
    pub deployment_id: Seq<char>,
    pub policy_version: Seq<char>,
    pub source_market_event_id: Seq<char>,
    pub source_evidence_sha256: Seq<char>,
    pub symbol: Seq<char>,
    pub market_time: Moment,
    pub limit_price: Decimal,
    pub pre_available_cash: Decimal,
    pub pre_frozen_cash: Decimal,
    pub pre_position: i64,
    pub pre_pending_buy_quantity: i64,
    pub minimum_free_cash: Decimal,
    pub standard_quantity: i64,
    pub maximum_units: i64,
    pub selected_units: i64,
    pub quantity: i64,
    pub canonical_reservation: Decimal,
    pub projected_remaining_cash: Decimal,
    pub outcome: InitialDeploymentOutcome,
    pub reason: Seq<char>,
}

impl DeepView for InitialDeploymentEvaluation {
    type V = InitialDeploymentEvaluationView;

    open spec fn deep_view(&self) -> InitialDeploymentEvaluationView {
        InitialDeploymentEvaluationView {
            deployment_id: self.deployment_id.deep_view(),
            policy_version: self.policy_version.deep_view(),
            source_market_event_id: self.source_market_event_id.deep_view(),
            source_evidence_sha256: self.source_evidence_sha256.deep_view(),
            symbol: self.symbol.deep_view(),
            market_time: self.market_time,
            limit_price: self.limit_price,
            pre_available_cash: self.pre_available_cash,
            pre_frozen_cash: self.pre_frozen_cash,
            pre_position: self.pre_position,
            pre_pending_buy_quantity: self.pre_pending_buy_quantity,
            minimum_free_cash: self.minimum_free_cash,
            standard_quantity: self.standard_quantity,
            maximum_units: self.maximum_units,
            selected_units: self.selected_units,
            quantity: self.quantity,
            canonical_reservation: self.canonical_reservation,
            projected_remaining_cash: self.projected_remaining_cash,
            outcome: self.outcome,
            reason: self.reason.deep_view(),
        }
    }
}

impl View for InitialDeploymentEvaluation {
    type V = InitialDeploymentEvaluationView;

    open spec fn view(&self) -> InitialDeploymentEvaluationView {
        self.deep_view()
    }
}

impl Value for InitialDeploymentEvaluation {
    fn dup(&self) -> (r: Self) {
        InitialDeploymentEvaluation {
            deployment_id: self.deployment_id.dup(),
            policy_version: self.policy_version.dup(),
            source_market_event_id: self.source_market_event_id.dup(),
            source_evidence_sha256: self.source_evidence_sha256.dup(),
            symbol: self.symbol.dup(),
            market_time: self.market_time,
            limit_price: self.limit_price,
            pre_available_cash: self.pre_available_cash,
            pre_frozen_cash: self.pre_frozen_cash,
            pre_position: self.pre_position,
            pre_pending_buy_quantity: self.pre_pending_buy_quantity,
            minimum_free_cash: self.minimum_free_cash,
            standard_quantity: self.standard_quantity,
            maximum_units: self.maximum_units,
            selected_units: self.selected_units,
            quantity: self.quantity,
            canonical_reservation: self.canonical_reservation,
            projected_remaining_cash: self.projected_remaining_cash,
            outcome: self.outcome,
            reason: self.reason.dup(),
        }
    }

    fn same(&self, other: &Self) -> (r: bool) {
        self.deployment_id.same(&other.deployment_id)
            && self.policy_version.same(&other.policy_version)
            && self.source_market_event_id.same(&other.source_market_event_id)
            && self.source_evidence_sha256.same(&other.source_evidence_sha256)
            && self.symbol.same(&other.symbol)
            && self.market_time.same(&other.market_time)
            && self.limit_price.same(&other.limit_price)
            && self.pre_available_cash.same(&other.pre_available_cash)
            && self.pre_frozen_cash.same(&other.pre_frozen_cash)
            && self.pre_position == other.pre_position
            && self.pre_pending_buy_quantity == other.pre_pending_buy_quantity
            && self.minimum_free_cash.same(&other.minimum_free_cash)
            && self.standard_quantity == other.standard_quantity
            && self.maximum_units == other.maximum_units
            && self.selected_units == other.selected_units
            && self.quantity == other.quantity
            && self.canonical_reservation.same(&other.canonical_reservation)
            && self.projected_remaining_cash.same(&other.projected_remaining_cash)
            && self.outcome == other.outcome
            && self.reason.same(&other.reason)
    }
}

impl Clone for InitialDeploymentEvaluation {
    fn clone(&self) -> (r: Self)
        ensures
            r@ == self@,
    {
        self.dup()
    }
}

/// The switch from the opening cash floor to the numeric limits alone.
pub struct OngoingResourcePolicyActivation {
    pub policy_version: String,
    pub minimum_free_cash: Decimal,
    pub position_limit_mode: String,
    pub effective_max_position: i64,
    pub config_content_sha256: String,
    pub initial_deployment_id: String,
    pub initial_deployment_sha256: String,
    pub reason_code: String,
    pub operator: String,
}

/// The content of [`OngoingResourcePolicyActivation`].
#[verifier::ext_equal]
pub struct OngoingResourcePolicyActivationView {
    pub policy_version: Seq<char>,
    pub minimum_free_cash: Decimal,
    pub position_limit_mode: Seq<char>,
    pub effective_max_position: i64,
    pub config_content_sha256: Seq<char>,
    pub initial_deployment_id: Seq<char>,
    pub initial_deployment_sha256: Seq<char>,
    pub reason_code: Seq<char>,
    pub operator: Seq<char>,
}

impl DeepView for OngoingResourcePolicyActivation {
    type V = OngoingResourcePolicyActivationView;

    open spec fn deep_view(&self) -> OngoingResourcePolicyActivationView {
        OngoingResourcePolicyActivationView {
            policy_version: self.policy_version.deep_view(),
            minimum_free_cash: self.minimum_free_cash,
            position_limit_mode: self.position_limit_mode.deep_view(),
            effective_max_position: self.effective_max_position,
            config_content_sha256: self.config_content_sha256.deep_view(),
            initial_deployment_id: self.initial_deployment_id.deep_view(),
            initial_deployment_sha256: self.initial_deployment_sha256.deep_view(),
            reason_code: self.reason_code.deep_view(),
            operator: self.operator.deep_view(),
        }
    }
}

impl View for OngoingResourcePolicyActivation {
    type V = OngoingResourcePolicyActivationView;

    open spec fn view(&self) -> OngoingResourcePolicyActivationView {
        self.deep_view()
    }
}

impl Value for OngoingResourcePolicyActivation {
    fn dup(&self) -> (r: Self) {
        OngoingResourcePolicyActivation {
            policy_version: self.policy_version.dup(),
            minimum_free_cash: self.minimum_free_cash,
            position_limit_mode: self.position_limit_mode.dup(),
            effective_max_position: self.effective_max_position,
            config_content_sha256: self.config_content_sha256.dup(),
            initial_deployment_id: self.initial_deployment_id.dup(),
            initial_deployment_sha256: self.initial_deployment_sha256.dup(),
            reason_code: self.reason_code.dup(),
            operator: self.operator.dup(),
        }
    }

    fn same(&self, other: &Self) -> (r: bool) {
        self.policy_version.same(&other.policy_version)
            && self.minimum_free_cash.same(&other.minimum_free_cash)
            && self.position_limit_mode.same(&other.position_limit_mode)
            && self.effective_max_position == other.effective_max_position
            && self.config_content_sha256.same(&other.config_content_sha256)
            && self.initial_deployment_id.same(&other.initial_deployment_id)
            && self.initial_deployment_sha256.same(&other.initial_deployment_sha256)
            && self.reason_code.same(&other.reason_code)
            && self.operator.same(&other.operator)
    }
}

impl Clone for OngoingResourcePolicyActivation {
    fn clone(&self) -> (r: Self)
        ensures
            r@ == self@,
    {
        self.dup()
    }
}

/// All that the events of a run add up to.
pub struct StrategyState {
    pub run_id: String,
    pub cycle_id: String,
    pub symbol: String,
    pub mode: ServiceMode,
    pub anchor_price: Decimal,
    pub deployed_grid_budget: Decimal,
    pub levels: Table<i32, GridLevelState>,
    /// Set by the start or reset of a cycle.
    pub grid_cycle_active: bool,
    pub historically_touched_levels: Table<i32, ()>,
    pub historically_skipped_levels: Table<i32, ()>,
    pub historically_executed_levels: Table<i32, ()>,
    pub orders: Table<String, Order>,
    pub lots: Table<String, TradingLot>,
    pub processed_fills: Table<String, ()>,
    pub grid_rights: Table<String, GridRight>,
    pub right_tranches: Table<String, RightTranche>,
    /// The terms that every order has to carry.
    pub audited_profit_guard_policy: Option<ProfitGuardPolicy>,
    /// The mechanical unit of the run; zero in runs that are denominated in
    /// budgets.
    pub audited_standard_quantity: i64,
    pub audited_lot_size: i64,
    pub audited_config: Option<Config>,
    pub pending_market_evidence: Option<PendingMarketEvidence>,
    pub initial_deployment_evaluation: Option<InitialDeploymentEvaluation>,
    pub ongoing_resource_policy: Option<OngoingResourcePolicyActivation>,
    pub cash: CashAccount,
    pub position: Position,
    pub duplicate_events: u64,
    pub ambiguous_bars: u64,
    pub event_count: u64,
    pub realized_pnl: Decimal,
    pub current_trade_date: Option<Day>,
    pub last_price: Option<Decimal>,
    pub last_recovery: Option<String>,
    pub last_reconciliation: Option<ReconciliationResult>,
    pub last_reconciliation_event_sequence: Option<i64>,
}

/// The content of [`StrategyState`].
#[verifier::ext_equal]
pub struct StrategyStateView {
    pub run_id: Seq<char>,
    pub cycle_id: Seq<char>,
    pub symbol: Seq<char>,
    pub mode: ServiceMode,
    pub anchor_price: Decimal,
    pub deployed_grid_budget: Decimal,
    pub levels: Seq<(i32, GridLevelState)>,
    pub grid_cycle_active: bool,
    pub historically_touched_levels: Seq<(i32, ())>,
    pub historically_skipped_levels: Seq<(i32, ())>,
    pub historically_executed_levels: Seq<(i32, ())>,
    pub orders: Seq<(Seq<char>, OrderView)>,
    pub lots: Seq<(Seq<char>, TradingLotView)>,
    pub processed_fills: Seq<(Seq<char>, ())>,
    pub grid_rights: Seq<(Seq<char>, GridRightView)>,
    pub right_tranches: Seq<(Seq<char>, RightTrancheView)>,
    pub audited_profit_guard_policy: Option<ProfitGuardPolicy>,
    pub audited_standard_quantity: i64,
    pub audited_lot_size: i64,
    pub audited_config: Option<ConfigView>,
    pub pending_market_evidence: Option<PendingMarketEvidenceView>,
    pub initial_deployment_evaluation: Option<InitialDeploymentEvaluationView>,
    pub ongoing_resource_policy: Option<OngoingResourcePolicyActivationView>,
    pub cash: CashAccount,
    pub position: Position,
    pub duplicate_events: u64,
    pub ambiguous_bars: u64,
    pub event_count: u64,
    pub realized_pnl: Decimal,
    pub current_trade_date: Option<Day>,
    pub last_price: Option<Decimal>,
    pub last_recovery: Option<Seq<char>>,
    pub last_reconciliation: Option<ReconciliationResultView>,
    pub last_reconciliation_event_sequence: Option<i64>,
}

impl DeepView for StrategyState {
    type V = StrategyStateView;

    open spec fn deep_view(&self) -> StrategyStateView {
        StrategyStateView {
            run_id: self.run_id.deep_view(),
            cycle_id: self.cycle_id.deep_view(),
            symbol: self.symbol.deep_view(),
            mode: self.mode,
            anchor_price: self.anchor_price,
            deployed_grid_budget: self.deployed_grid_budget,
            levels: self.levels.deep_view(),
            grid_cycle_active: self.grid_cycle_active,
            historically_touched_levels: self.historically_touched_levels.deep_view(),
            historically_skipped_levels: self.historically_skipped_levels.deep_view(),
            historically_executed_levels: self.historically_executed_levels.deep_view(),
            orders: self.orders.deep_view(),
            lots: self.lots.deep_view(),
            processed_fills: self.processed_fills.deep_view(),
            grid_rights: self.grid_rights.deep_view(),
            right_tranches: self.right_tranches.deep_view(),
            audited_profit_guard_policy: self.audited_profit_guard_policy.deep_view(),
            audited_standard_quantity: self.audited_standard_quantity,
            audited_lot_size: self.audited_lot_size,
            audited_config: self.audited_config.deep_view(),
            pending_market_evidence: self.pending_market_evidence.deep_view(),
            initial_deployment_evaluation: self.initial_deployment_evaluation.deep_view(),
            ongoing_resource_policy: self.ongoing_resource_policy.deep_view(),
            cash: self.cash,
            position: self.position,
            duplicate_events: self.duplicate_events,
            ambiguous_bars: self.ambiguous_bars,
            event_count: self.event_count,
            realized_pnl: self.realized_pnl,
            current_trade_date: self.current_trade_date.deep_view(),
            last_price: self.last_price.deep_view(),
            last_recovery: self.last_recovery.deep_view(),
            last_reconciliation: self.last_reconciliation.deep_view(),
            last_reconciliation_event_sequence: self.last_reconciliation_event_sequence.deep_view(),
        }
    }
}

impl View for StrategyState {
    type V = StrategyStateView;

    open spec fn view(&self) -> StrategyStateView {
        self.deep_view()
    }
}

impl Value for StrategyState {
    fn dup(&self) -> (r: Self) {
        StrategyState {
            run_id: self.run_id.dup(),
            cycle_id: self.cycle_id.dup(),
            symbol: self.symbol.dup(),
            mode: self.mode,
            anchor_price: self.anchor_price,
            deployed_grid_budget: self.deployed_grid_budget,
            levels: self.levels.dup(),
            grid_cycle_active: self.grid_cycle_active,
            historically_touched_levels: self.historically_touched_levels.dup(),
            historically_skipped_levels: self.historically_skipped_levels.dup(),
            historically_executed_levels: self.historically_executed_levels.dup(),
            orders: self.orders.dup(),
            lots: self.lots.dup(),
            processed_fills: self.processed_fills.dup(),
            grid_rights: self.grid_rights.dup(),
            right_tranches: self.right_tranches.dup(),
            audited_profit_guard_policy: self.audited_profit_guard_policy.dup(),
            audited_standard_quantity: self.audited_standard_quantity,
            audited_lot_size: self.audited_lot_size,
            audited_config: self.audited_config.dup(),
            pending_market_evidence: self.pending_market_evidence.dup(),
            initial_deployment_evaluation: self.initial_deployment_evaluation.dup(),
            ongoing_resource_policy: self.ongoing_resource_policy.dup(),
            cash: self.cash,
            position: self.position,
            duplicate_events: self.duplicate_events,
            ambiguous_bars: self.ambiguous_bars,
            event_count: self.event_count,
            realized_pnl: self.realized_pnl,
            current_trade_date: self.current_trade_date.dup(),
            last_price: self.last_price.dup(),
            last_recovery: self.last_recovery.dup(),
            last_reconciliation: self.last_reconciliation.dup(),
            last_reconciliation_event_sequence: self.last_reconciliation_event_sequence.dup(),
        }
    }

    fn same(&self, other: &Self) -> (r: bool) {
        self.run_id.same(&other.run_id)
            && self.cycle_id.same(&other.cycle_id)
            && self.symbol.same(&other.symbol)
            && self.mode == other.mode
            && self.anchor_price.same(&other.anchor_price)
            && self.deployed_grid_budget.same(&other.deployed_grid_budget)
            && self.levels.same(&other.levels)
            && self.grid_cycle_active == other.grid_cycle_active
            && self.historically_touched_levels.same(&other.historically_touched_levels)
            && self.historically_skipped_levels.same(&other.historically_skipped_levels)
            && self.historically_executed_levels.same(&other.historically_executed_levels)
            && self.orders.same(&other.orders)
            && self.lots.same(&other.lots)
            && self.processed_fills.same(&other.processed_fills)
            && self.grid_rights.same(&other.grid_rights)
            && self.right_tranches.same(&other.right_tranches)
            && self.audited_profit_guard_policy.same(&other.audited_profit_guard_policy)
            && self.audited_standard_quantity == other.audited_standard_quantity
            && self.audited_lot_size == other.audited_lot_size
            && self.audited_config.same(&other.audited_config)
            && self.pending_market_evidence.same(&other.pending_market_evidence)
            && self.initial_deployment_evaluation.same(&other.initial_deployment_evaluation)
            && self.ongoing_resource_policy.same(&other.ongoing_resource_policy)
            && self.cash.same(&other.cash)
            && self.position.same(&other.position)
            && self.duplicate_events == other.duplicate_events
            && self.ambiguous_bars == other.ambiguous_bars
            && self.event_count == other.event_count
            && self.realized_pnl.same(&other.realized_pnl)
            && self.current_trade_date.same(&other.current_trade_date)
            && self.last_price.same(&other.last_price)
            && self.last_recovery.same(&other.last_recovery)
            && self.last_reconciliation.same(&other.last_reconciliation)
            && self.last_reconciliation_event_sequence.same(&other.last_reconciliation_event_sequence)
    }
}

impl Clone for StrategyState {
    fn clone(&self) -> (r: Self)
        ensures
            r@ == self@,
    {
        self.dup()
    }
}

} // verus!

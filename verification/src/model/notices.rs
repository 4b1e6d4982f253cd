//! What event payloads hold. A field that a payload may lack is optional.
use crate::clock::Moment;
use crate::decimal::Decimal;
use crate::model::gates::DecisionRequest;
use crate::model::gates::DecisionRequestView;
use crate::model::gates::DecisionResponse;
use crate::model::gates::DecisionResponseView;
use crate::model::ledger::CashAccount;
use crate::model::ledger::Fill;
use crate::model::ledger::FillView;
use crate::model::ledger::LotQuantityAllocation;
use crate::model::ledger::LotQuantityAllocationView;
use crate::model::ledger::Position;
use crate::model::ledger::TradingLot;
use crate::model::ledger::TradingLotView;
use crate::model::rights::GridRightCapacity;
use crate::model::rights::GridRightCapacityView;
use crate::model::rights::RightTranche;
use crate::model::rights::RightTrancheView;
use crate::table::Table;
use crate::value::Value;
use vstd::prelude::*;

verus! {

/// A grid level by its index.
pub struct LevelNotice {
    pub grid_index: Option<i64>,
    pub price: Option<String>,
}

/// The content of [`LevelNotice`].
#[verifier::ext_equal]
pub struct LevelNoticeView {
    pub grid_index: Option<i64>,
    pub price: Option<Seq<char>>,
}

impl DeepView for LevelNotice {
    type V = LevelNoticeView;

    open spec fn deep_view(&self) -> LevelNoticeView {
        LevelNoticeView {
            grid_index: self.grid_index.deep_view(),
            price: self.price.deep_view(),
        }
    }
}

impl View for LevelNotice {
    type V = LevelNoticeView;

    open spec fn view(&self) -> LevelNoticeView {
        self.deep_view()
    }
}

impl Value for LevelNotice {
    fn dup(&self) -> (r: Self) {
        LevelNotice {
            grid_index: self.grid_index.dup(),
            price: self.price.dup(),
        }
    }

    fn same(&self, other: &Self) -> (r: bool) {
        self.grid_index.same(&other.grid_index)
            && self.price.same(&other.price)
    }
}

impl Clone for LevelNotice {
    fn clone(&self) -> (r: Self)
        ensures
            r@ == self@,
    {
        self.dup()
    }
}

/// The transfer of tranches from one right to another.
pub struct TransferNotice {
    pub source_right_id: Option<String>,
    pub target_right_id: Option<String>,
    pub tranche_ids: Option<Vec<Option<String>>>,
}

/// The content of [`TransferNotice`].
#[verifier::ext_equal]
pub struct TransferNoticeView {
    pub source_right_id: Option<Seq<char>>,
    pub target_right_id: Option<Seq<char>>,
    pub tranche_ids: Option<Seq<Option<Seq<char>>>>,
}

impl DeepView for TransferNotice {
    type V = TransferNoticeView;

    open spec fn deep_view(&self) -> TransferNoticeView {
        TransferNoticeView {
            source_right_id: self.source_right_id.deep_view(),
            target_right_id: self.target_right_id.deep_view(),
            tranche_ids: self.tranche_ids.deep_view(),
        }
    }
}

impl View for TransferNotice {
    type V = TransferNoticeView;

    open spec fn view(&self) -> TransferNoticeView {
        self.deep_view()
    }
}

impl Value for TransferNotice {
    fn dup(&self) -> (r: Self) {
        TransferNotice {
            source_right_id: self.source_right_id.dup(),
            target_right_id: self.target_right_id.dup(),
            tranche_ids: self.tranche_ids.dup(),
        }
    }

    fn same(&self, other: &Self) -> (r: bool) {
        self.source_right_id.same(&other.source_right_id)
            && self.target_right_id.same(&other.target_right_id)
            && self.tranche_ids.same(&other.tranche_ids)
    }
}

impl Clone for TransferNotice {
    fn clone(&self) -> (r: Self)
        ensures
            r@ == self@,
    {
        self.dup()
    }
}

/// One amount of a tranche.
pub struct BalanceItem {
    pub tranche_id: Option<String>,
    pub budget: Option<String>,
    pub quantity: Option<i64>,
}

/// The content of [`BalanceItem`].
#[verifier::ext_equal]
pub struct BalanceItemView {
    pub tranche_id: Option<Seq<char>>,
    pub budget: Option<Seq<char>>,
    pub quantity: Option<i64>,
}

impl DeepView for BalanceItem {
    type V = BalanceItemView;

    open spec fn deep_view(&self) -> BalanceItemView {
        BalanceItemView {
            tranche_id: self.tranche_id.deep_view(),
            budget: self.budget.deep_view(),
            quantity: self.quantity.deep_view(),
        }
    }
}

impl View for BalanceItem {
    type V = BalanceItemView;

    open spec fn view(&self) -> BalanceItemView {
        self.deep_view()
    }
}

impl Value for BalanceItem {
    fn dup(&self) -> (r: Self) {
        BalanceItem {
            tranche_id: self.tranche_id.dup(),
            budget: self.budget.dup(),
            quantity: self.quantity.dup(),
        }
    }

    fn same(&self, other: &Self) -> (r: bool) {
        self.tranche_id.same(&other.tranche_id)
            && self.budget.same(&other.budget)
            && self.quantity.same(&other.quantity)
    }
}

impl Clone for BalanceItem {
    fn clone(&self) -> (r: Self)
        ensures
            r@ == self@,
    {
        self.dup()
    }
}

/// Amounts of the tranches of a right that change accounts.
pub struct BalanceNotice {
    pub right_id: Option<String>,
    pub allocations: Option<Vec<BalanceItem>>,
    pub reversal_from_grid: Option<i64>,
    pub allocation_policy: Option<String>,
}

/// The content of [`BalanceNotice`].
#[verifier::ext_equal]
pub struct BalanceNoticeView {
    pub right_id: Option<Seq<char>>,
    pub allocations: Option<Seq<BalanceItemView>>,
    pub reversal_from_grid: Option<i64>,
    pub allocation_policy: Option<Seq<char>>,
}

impl DeepView for BalanceNotice {
    type V = BalanceNoticeView;

    open spec fn deep_view(&self) -> BalanceNoticeView {
        BalanceNoticeView {
            right_id: self.right_id.deep_view(),
            allocations: self.allocations.deep_view(),
            reversal_from_grid: self.reversal_from_grid.deep_view(),
            allocation_policy: self.allocation_policy.deep_view(),
        }
    }
}

impl View for BalanceNotice {
    type V = BalanceNoticeView;

    open spec fn view(&self) -> BalanceNoticeView {
        self.deep_view()
    }
}

impl Value for BalanceNotice {
    fn dup(&self) -> (r: Self) {
        BalanceNotice {
            right_id: self.right_id.dup(),
            allocations: self.allocations.dup(),
            reversal_from_grid: self.reversal_from_grid.dup(),
            allocation_policy: self.allocation_policy.dup(),
        }
    }

    fn same(&self, other: &Self) -> (r: bool) {
        self.right_id.same(&other.right_id)
            && self.allocations.same(&other.allocations)
            && self.reversal_from_grid.same(&other.reversal_from_grid)
            && self.allocation_policy.same(&other.allocation_policy)
    }
}

impl Clone for BalanceNotice {
    fn clone(&self) -> (r: Self)
        ensures
            r@ == self@,
    {
        self.dup()
    }
}

/// What becomes of a right.
pub struct DispositionNotice {
    pub right_id: Option<String>,
    pub target_right_id: Option<String>,
    pub tranche_ids: Option<Vec<Option<String>>>,
    pub transferred_budget: Option<String>,
    pub transferred_quantity: Option<i64>,
    pub partial: Option<bool>,
    pub decision_id: Option<String>,
    pub t_plus_one_blocked_quantity: Option<i64>,
    pub risk_blocked_quantity: Option<i64>,
    pub no_profit_blocked_quantity: Option<i64>,
    pub gross_available_quantity: Option<i64>,
    pub platform_residual_quantity: Option<i64>,
    pub algorithm_authorized_quantity: Option<i64>,
    pub platform_blocked_quantity: Option<i64>,
    pub order_intent_quantity: Option<i64>,
    pub remaining_decision_quantity: Option<i64>,
    pub algorithm_offered_quantity: Option<i64>,
    pub predecision_blocked_quantity: Option<i64>,
    pub postdecision_blocked_quantity: Option<i64>,
    pub reserved_budget: Option<String>,
    pub reserved_quantity: Option<i64>,
    pub exercised_budget_delta: Option<String>,
    pub exercised_quantity_delta: Option<i64>,
    pub revoked_budget: Option<String>,
    pub revoked_quantity: Option<i64>,
    pub reason: Option<String>,
    pub remaining_budget: Option<String>,
    pub remaining_quantity: Option<i64>,
    pub transferred_to_right_id: Option<String>,
}

/// The content of [`DispositionNotice`].
#[verifier::ext_equal]
pub struct DispositionNoticeView {
    pub right_id: Option<Seq<char>>,
    pub target_right_id: Option<Seq<char>>,
    pub tranche_ids: Option<Seq<Option<Seq<char>>>>,
    pub transferred_budget: Option<Seq<char>>,
    pub transferred_quantity: Option<i64>,
    pub partial: Option<bool>,
    pub decision_id: Option<Seq<char>>,
    pub t_plus_one_blocked_quantity: Option<i64>,
    pub risk_blocked_quantity: Option<i64>,
    pub no_profit_blocked_quantity: Option<i64>,
    pub gross_available_quantity: Option<i64>,
    pub platform_residual_quantity: Option<i64>,
    pub algorithm_authorized_quantity: Option<i64>,
    pub platform_blocked_quantity: Option<i64>,
    pub order_intent_quantity: Option<i64>,
    pub remaining_decision_quantity: Option<i64>,
    pub algorithm_offered_quantity: Option<i64>,
    pub predecision_blocked_quantity: Option<i64>,
    pub postdecision_blocked_quantity: Option<i64>,
    pub reserved_budget: Option<Seq<char>>,
    pub reserved_quantity: Option<i64>,
    pub exercised_budget_delta: Option<Seq<char>>,
    pub exercised_quantity_delta: Option<i64>,
    pub revoked_budget: Option<Seq<char>>,
    pub revoked_quantity: Option<i64>,
    pub reason: Option<Seq<char>>,
    pub remaining_budget: Option<Seq<char>>,
    pub remaining_quantity: Option<i64>,
    pub transferred_to_right_id: Option<Seq<char>>,
}

impl DeepView for DispositionNotice {
    type V = DispositionNoticeView;

    open spec fn deep_view(&self) -> DispositionNoticeView {
        DispositionNoticeView {
            right_id: self.right_id.deep_view(),
            target_right_id: self.target_right_id.deep_view(),
            tranche_ids: self.tranche_ids.deep_view(),
            transferred_budget: self.transferred_budget.deep_view(),
            transferred_quantity: self.transferred_quantity.deep_view(),
            partial: self.partial.deep_view(),
            decision_id: self.decision_id.deep_view(),
            t_plus_one_blocked_quantity: self.t_plus_one_blocked_quantity.deep_view(),
            risk_blocked_quantity: self.risk_blocked_quantity.deep_view(),
            no_profit_blocked_quantity: self.no_profit_blocked_quantity.deep_view(),
            gross_available_quantity: self.gross_available_quantity.deep_view(),
            platform_residual_quantity: self.platform_residual_quantity.deep_view(),
            algorithm_authorized_quantity: self.algorithm_authorized_quantity.deep_view(),
            platform_blocked_quantity: self.platform_blocked_quantity.deep_view(),
            order_intent_quantity: self.order_intent_quantity.deep_view(),
            remaining_decision_quantity: self.remaining_decision_quantity.deep_view(),
            algorithm_offered_quantity: self.algorithm_offered_quantity.deep_view(),
            predecision_blocked_quantity: self.predecision_blocked_quantity.deep_view(),
            postdecision_blocked_quantity: self.postdecision_blocked_quantity.deep_view(),
            reserved_budget: self.reserved_budget.deep_view(),
            reserved_quantity: self.reserved_quantity.deep_view(),
            exercised_budget_delta: self.exercised_budget_delta.deep_view(),
            exercised_quantity_delta: self.exercised_quantity_delta.deep_view(),
            revoked_budget: self.revoked_budget.deep_view(),
            revoked_quantity: self.revoked_quantity.deep_view(),
            reason: self.reason.deep_view(),
            remaining_budget: self.remaining_budget.deep_view(),
            remaining_quantity: self.remaining_quantity.deep_view(),
            transferred_to_right_id: self.transferred_to_right_id.deep_view(),
        }
    }
}

impl View for DispositionNotice {
    type V = DispositionNoticeView;

    open spec fn view(&self) -> DispositionNoticeView {
        self.deep_view()
    }
}

impl Value for DispositionNotice {
    fn dup(&self) -> (r: Self) {
        DispositionNotice {
            right_id: self.right_id.dup(),
            target_right_id: self.target_right_id.dup(),
            tranche_ids: self.tranche_ids.dup(),
            transferred_budget: self.transferred_budget.dup(),
            transferred_quantity: self.transferred_quantity.dup(),
            partial: self.partial.dup(),
            decision_id: self.decision_id.dup(),
            t_plus_one_blocked_quantity: self.t_plus_one_blocked_quantity.dup(),
            risk_blocked_quantity: self.risk_blocked_quantity.dup(),
            no_profit_blocked_quantity: self.no_profit_blocked_quantity.dup(),
            gross_available_quantity: self.gross_available_quantity.dup(),
            platform_residual_quantity: self.platform_residual_quantity.dup(),
            algorithm_authorized_quantity: self.algorithm_authorized_quantity.dup(),
            platform_blocked_quantity: self.platform_blocked_quantity.dup(),
            order_intent_quantity: self.order_intent_quantity.dup(),
            remaining_decision_quantity: self.remaining_decision_quantity.dup(),
            algorithm_offered_quantity: self.algorithm_offered_quantity.dup(),
            predecision_blocked_quantity: self.predecision_blocked_quantity.dup(),
            postdecision_blocked_quantity: self.postdecision_blocked_quantity.dup(),
            reserved_budget: self.reserved_budget.dup(),
            reserved_quantity: self.reserved_quantity.dup(),
            exercised_budget_delta: self.exercised_budget_delta.dup(),
            exercised_quantity_delta: self.exercised_quantity_delta.dup(),
            revoked_budget: self.revoked_budget.dup(),
            revoked_quantity: self.revoked_quantity.dup(),
            reason: self.reason.dup(),
            remaining_budget: self.remaining_budget.dup(),
            remaining_quantity: self.remaining_quantity.dup(),
            transferred_to_right_id: self.transferred_to_right_id.dup(),
        }
    }

    fn same(&self, other: &Self) -> (r: bool) {
        self.right_id.same(&other.right_id)
            && self.target_right_id.same(&other.target_right_id)
            && self.tranche_ids.same(&other.tranche_ids)
            && self.transferred_budget.same(&other.transferred_budget)
            && self.transferred_quantity.same(&other.transferred_quantity)
            && self.partial.same(&other.partial)
            && self.decision_id.same(&other.decision_id)
            && self.t_plus_one_blocked_quantity.same(&other.t_plus_one_blocked_quantity)
            && self.risk_blocked_quantity.same(&other.risk_blocked_quantity)
            && self.no_profit_blocked_quantity.same(&other.no_profit_blocked_quantity)
            && self.gross_available_quantity.same(&other.gross_available_quantity)
            && self.platform_residual_quantity.same(&other.platform_residual_quantity)
            && self.algorithm_authorized_quantity.same(&other.algorithm_authorized_quantity)
            && self.platform_blocked_quantity.same(&other.platform_blocked_quantity)
            && self.order_intent_quantity.same(&other.order_intent_quantity)
            && self.remaining_decision_quantity.same(&other.remaining_decision_quantity)
            && self.algorithm_offered_quantity.same(&other.algorithm_offered_quantity)
            && self.predecision_blocked_quantity.same(&other.predecision_blocked_quantity)
            && self.postdecision_blocked_quantity.same(&other.postdecision_blocked_quantity)
            && self.reserved_budget.same(&other.reserved_budget)
            && self.reserved_quantity.same(&other.reserved_quantity)
            && self.exercised_budget_delta.same(&other.exercised_budget_delta)
            && self.exercised_quantity_delta.same(&other.exercised_quantity_delta)
            && self.revoked_budget.same(&other.revoked_budget)
            && self.revoked_quantity.same(&other.revoked_quantity)
            && self.reason.same(&other.reason)
            && self.remaining_budget.same(&other.remaining_budget)
            && self.remaining_quantity.same(&other.remaining_quantity)
            && self.transferred_to_right_id.same(&other.transferred_to_right_id)
    }
}

impl Clone for DispositionNotice {
    fn clone(&self) -> (r: Self)
        ensures
            r@ == self@,
    {
        self.dup()
    }
}

/// An order by its identifier.
pub struct OrderNotice {
    pub order_id: Option<String>,
    pub reason: Option<String>,
}

/// The content of [`OrderNotice`].
#[verifier::ext_equal]
pub struct OrderNoticeView {
    pub order_id: Option<Seq<char>>,
    pub reason: Option<Seq<char>>,
}

impl DeepView for OrderNotice {
    type V = OrderNoticeView;

    open spec fn deep_view(&self) -> OrderNoticeView {
        OrderNoticeView {
            order_id: self.order_id.deep_view(),
            reason: self.reason.deep_view(),
        }
    }
}

impl View for OrderNotice {
    type V = OrderNoticeView;

    open spec fn view(&self) -> OrderNoticeView {
        self.deep_view()
    }
}

impl Value for OrderNotice {
    fn dup(&self) -> (r: Self) {
        OrderNotice {
            order_id: self.order_id.dup(),
            reason: self.reason.dup(),
        }
    }

    fn same(&self, other: &Self) -> (r: bool) {
        self.order_id.same(&other.order_id)
            && self.reason.same(&other.reason)
    }
}

impl Clone for OrderNotice {
    fn clone(&self) -> (r: Self)
        ensures
            r@ == self@,
    {
        self.dup()
    }
}

/// A fill with the grid level of its order.
pub struct FillNotice {
    pub fill: Option<Fill>,
    pub grid_index: Option<i64>,
}

/// The content of [`FillNotice`].
#[verifier::ext_equal]
pub struct FillNoticeView {
    pub fill: Option<FillView>,
    pub grid_index: Option<i64>,
}

impl DeepView for FillNotice {
    type V = FillNoticeView;

    open spec fn deep_view(&self) -> FillNoticeView {
        FillNoticeView {
            fill: self.fill.deep_view(),
            grid_index: self.grid_index.deep_view(),
        }
    }
}

impl View for FillNotice {
    type V = FillNoticeView;

    open spec fn view(&self) -> FillNoticeView {
        self.deep_view()
    }
}

impl Value for FillNotice {
    fn dup(&self) -> (r: Self) {
        FillNotice {
            fill: self.fill.dup(),
            grid_index: self.grid_index.dup(),
        }
    }

    fn same(&self, other: &Self) -> (r: bool) {
        self.fill.same(&other.fill)
            && self.grid_index.same(&other.grid_index)
    }
}

impl Clone for FillNotice {
    fn clone(&self) -> (r: Self)
        ensures
            r@ == self@,
    {
        self.dup()
    }
}

/// A stage of the processing of a bar.
pub struct StageNotice {
    pub symbol: Option<String>,
    pub timestamp: Option<Moment>,
    pub close: Option<String>,
}

/// The content of [`StageNotice`].
#[verifier::ext_equal]
pub struct StageNoticeView {
    pub symbol: Option<Seq<char>>,
    pub timestamp: Option<Moment>,
    pub close: Option<Seq<char>>,
}

impl DeepView for StageNotice {
    type V = StageNoticeView;

    open spec fn deep_view(&self) -> StageNoticeView {
        StageNoticeView {
            symbol: self.symbol.deep_view(),
            timestamp: self.timestamp.deep_view(),
            close: self.close.deep_view(),
        }
    }
}

impl View for StageNotice {
    type V = StageNoticeView;

    open spec fn view(&self) -> StageNoticeView {
        self.deep_view()
    }
}

impl Value for StageNotice {
    fn dup(&self) -> (r: Self) {
        StageNotice {
            symbol: self.symbol.dup(),
            timestamp: self.timestamp.dup(),
            close: self.close.dup(),
        }
    }

    fn same(&self, other: &Self) -> (r: bool) {
        self.symbol.same(&other.symbol)
            && self.timestamp.same(&other.timestamp)
            && self.close.same(&other.close)
    }
}

impl Clone for StageNotice {
    fn clone(&self) -> (r: Self)
        ensures
            r@ == self@,
    {
        self.dup()
    }
}

/// The change from one cycle to the next.
pub struct ResetNotice {
    pub previous_cycle_id: Option<String>,
    pub cycle_id: Option<String>,
}

/// The content of [`ResetNotice`].
#[verifier::ext_equal]
pub struct ResetNoticeView {
    pub previous_cycle_id: Option<Seq<char>>,
    pub cycle_id: Option<Seq<char>>,
}

impl DeepView for ResetNotice {
    type V = ResetNoticeView;

    open spec fn deep_view(&self) -> ResetNoticeView {
        ResetNoticeView {
            previous_cycle_id: self.previous_cycle_id.deep_view(),
            cycle_id: self.cycle_id.deep_view(),
        }
    }
}

impl View for ResetNotice {
    type V = ResetNoticeView;

    open spec fn view(&self) -> ResetNoticeView {
        self.deep_view()
    }
}

impl Value for ResetNotice {
    fn dup(&self) -> (r: Self) {
        ResetNotice {
            previous_cycle_id: self.previous_cycle_id.dup(),
            cycle_id: self.cycle_id.dup(),
        }
    }

    fn same(&self, other: &Self) -> (r: bool) {
        self.previous_cycle_id.same(&other.previous_cycle_id)
            && self.cycle_id.same(&other.cycle_id)
    }
}

impl Clone for ResetNotice {
    fn clone(&self) -> (r: Self)
        ensures
            r@ == self@,
    {
        self.dup()
    }
}

/// A decision with the request that it answers.
pub struct DecisionNotice {
    pub request: Option<DecisionRequest>,
    pub response: Option<DecisionResponse>,
    pub algorithm_succeeded: Option<bool>,
}

/// The content of [`DecisionNotice`].
#[verifier::ext_equal]
pub struct DecisionNoticeView {
    pub request: Option<DecisionRequestView>,
    pub response: Option<DecisionResponseView>,
    pub algorithm_succeeded: Option<bool>,
}

impl DeepView for DecisionNotice {
    type V = DecisionNoticeView;

    open spec fn deep_view(&self) -> DecisionNoticeView {
        DecisionNoticeView {
            request: self.request.deep_view(),
            response: self.response.deep_view(),
            algorithm_succeeded: self.algorithm_succeeded.deep_view(),
        }
    }
}

impl View for DecisionNotice {
    type V = DecisionNoticeView;

    open spec fn view(&self) -> DecisionNoticeView {
        self.deep_view()
    }
}

impl Value for DecisionNotice {
    fn dup(&self) -> (r: Self) {
        DecisionNotice {
            request: self.request.dup(),
            response: self.response.dup(),
            algorithm_succeeded: self.algorithm_succeeded.dup(),
        }
    }

    fn same(&self, other: &Self) -> (r: bool) {
        self.request.same(&other.request)
            && self.response.same(&other.response)
            && self.algorithm_succeeded.same(&other.algorithm_succeeded)
    }
}

impl Clone for DecisionNotice {
    fn clone(&self) -> (r: Self)
        ensures
            r@ == self@,
    {
        self.dup()
    }
}

/// An error, and whether it stopped trading.
pub struct ErrorNotice {
    pub entered_safe: Option<bool>,
    pub component: Option<String>,
    pub reason_code: Option<String>,
}

/// The content of [`ErrorNotice`].
#[verifier::ext_equal]
pub struct ErrorNoticeView {
    pub entered_safe: Option<bool>,
    pub component: Option<Seq<char>>,
    pub reason_code: Option<Seq<char>>,
}

impl DeepView for ErrorNotice {
    type V = ErrorNoticeView;

    open spec fn deep_view(&self) -> ErrorNoticeView {
        ErrorNoticeView {
            entered_safe: self.entered_safe.deep_view(),
            component: self.component.deep_view(),
            reason_code: self.reason_code.deep_view(),
        }
    }
}

impl View for ErrorNotice {
    type V = ErrorNoticeView;

    open spec fn view(&self) -> ErrorNoticeView {
        self.deep_view()
    }
}

impl Value for ErrorNotice {
    fn dup(&self) -> (r: Self) {
        ErrorNotice {
            entered_safe: self.entered_safe.dup(),
            component: self.component.dup(),
            reason_code: self.reason_code.dup(),
        }
    }

    fn same(&self, other: &Self) -> (r: bool) {
        self.entered_safe.same(&other.entered_safe)
            && self.component.same(&other.component)
            && self.reason_code.same(&other.reason_code)
    }
}

impl Clone for ErrorNotice {
    fn clone(&self) -> (r: Self)
        ensures
            r@ == self@,
    {
        self.dup()
    }
}

/// The charges of a fill.
#[derive(Clone, Copy, Debug)]
pub struct FillCharges {
    pub commission: Decimal,
    pub tax: Decimal,
}

impl DeepView for FillCharges {
    type V = FillCharges;

    open spec fn deep_view(&self) -> FillCharges {
        *self
    }
}

impl View for FillCharges {
    type V = FillCharges;

    open spec fn view(&self) -> FillCharges {
        *self
    }
}

impl Value for FillCharges {
    fn dup(&self) -> (r: Self) {
        *self
    }

    fn same(&self, other: &Self) -> (r: bool) {
        self.commission.same(&other.commission)
            && self.tax.same(&other.tax)
    }
}

/// How much of the opening balance to deploy.
#[derive(Clone, Copy, Debug)]
pub struct DeploymentPlan {
    pub selected_units: i64,
    pub maximum_units: i64,
    pub quantity: i64,
    pub reservation: Decimal,
    pub projected_remaining_cash: Decimal,
    pub pending_buy_quantity: i64,
}

impl DeepView for DeploymentPlan {
    type V = DeploymentPlan;

    open spec fn deep_view(&self) -> DeploymentPlan {
        *self
    }
}

impl View for DeploymentPlan {
    type V = DeploymentPlan;

    open spec fn view(&self) -> DeploymentPlan {
        *self
    }
}

impl Value for DeploymentPlan {
    fn dup(&self) -> (r: Self) {
        *self
    }

    fn same(&self, other: &Self) -> (r: bool) {
        self.selected_units == other.selected_units
            && self.maximum_units == other.maximum_units
            && self.quantity == other.quantity
            && self.reservation.same(&other.reservation)
            && self.projected_remaining_cash.same(&other.projected_remaining_cash)
            && self.pending_buy_quantity == other.pending_buy_quantity
    }
}

/// The part of a lot that a tranche backs.
pub struct Backing {
    pub lot_id: String,
    pub tranche_id: String,
    pub quantity: i64,
}

/// The content of [`Backing`].
#[verifier::ext_equal]
pub struct BackingView {
    pub lot_id: Seq<char>,
    pub tranche_id: Seq<char>,
    pub quantity: i64,
}

impl DeepView for Backing {
    type V = BackingView;

    open spec fn deep_view(&self) -> BackingView {
        BackingView {
            lot_id: self.lot_id.deep_view(),
            tranche_id: self.tranche_id.deep_view(),
            quantity: self.quantity,
        }
    }
}

impl View for Backing {
    type V = BackingView;

    open spec fn view(&self) -> BackingView {
        self.deep_view()
    }
}

impl Value for Backing {
    fn dup(&self) -> (r: Self) {
        Backing {
            lot_id: self.lot_id.dup(),
            tranche_id: self.tranche_id.dup(),
            quantity: self.quantity,
        }
    }

    fn same(&self, other: &Self) -> (r: bool) {
        self.lot_id.same(&other.lot_id)
            && self.tranche_id.same(&other.tranche_id)
            && self.quantity == other.quantity
    }
}

impl Clone for Backing {
    fn clone(&self) -> (r: Self)
        ensures
            r@ == self@,
    {
        self.dup()
    }
}

/// What the risk rules allow an order to take.
pub struct Approval {
    pub quantity: i64,
    pub sell_allocations: Vec<LotQuantityAllocation>,
}

/// The content of [`Approval`].
#[verifier::ext_equal]
pub struct ApprovalView {
    pub quantity: i64,
    pub sell_allocations: Seq<LotQuantityAllocationView>,
}

impl DeepView for Approval {
    type V = ApprovalView;

    open spec fn deep_view(&self) -> ApprovalView {
        ApprovalView {
            quantity: self.quantity,
            sell_allocations: self.sell_allocations.deep_view(),
        }
    }
}

impl View for Approval {
    type V = ApprovalView;

    open spec fn view(&self) -> ApprovalView {
        self.deep_view()
    }
}

impl Value for Approval {
    fn dup(&self) -> (r: Self) {
        Approval {
            quantity: self.quantity,
            sell_allocations: self.sell_allocations.dup(),
        }
    }

    fn same(&self, other: &Self) -> (r: bool) {
        self.quantity == other.quantity
            && self.sell_allocations.same(&other.sell_allocations)
    }
}

impl Clone for Approval {
    fn clone(&self) -> (r: Self)
        ensures
            r@ == self@,
    {
        self.dup()
    }
}

/// The accounts of a run after a fill of the opening order has been booked.
pub struct OpeningBooking {
    pub cash: CashAccount,
    pub position: Position,
    pub deployed_grid_budget: Decimal,
    pub lots: Table<String, TradingLot>,
}

/// The content of [`OpeningBooking`].
#[verifier::ext_equal]
pub struct OpeningBookingView {
    pub cash: CashAccount,
    pub position: Position,
    pub deployed_grid_budget: Decimal,
    pub lots: Seq<(Seq<char>, TradingLotView)>,
}

impl DeepView for OpeningBooking {
    type V = OpeningBookingView;

    open spec fn deep_view(&self) -> OpeningBookingView {
        OpeningBookingView {
            cash: self.cash,
            position: self.position,
            deployed_grid_budget: self.deployed_grid_budget,
            lots: self.lots.deep_view(),
        }
    }
}

impl View for OpeningBooking {
    type V = OpeningBookingView;

    open spec fn view(&self) -> OpeningBookingView {
        self.deep_view()
    }
}

impl Value for OpeningBooking {
    fn dup(&self) -> (r: Self) {
        OpeningBooking {
            cash: self.cash,
            position: self.position,
            deployed_grid_budget: self.deployed_grid_budget,
            lots: self.lots.dup(),
        }
    }

    fn same(&self, other: &Self) -> (r: bool) {
        self.cash.same(&other.cash)
            && self.position.same(&other.position)
            && self.deployed_grid_budget.same(&other.deployed_grid_budget)
            && self.lots.same(&other.lots)
    }
}

impl Clone for OpeningBooking {
    fn clone(&self) -> (r: Self)
        ensures
            r@ == self@,
    {
        self.dup()
    }
}

/// What the pricing, rights and risk rules of the platform say on one event,
/// computed from the state before it.
pub struct Appraisal {
    /// The capacity that a newly granted right has.
    pub capacity: Option<GridRightCapacity>,
    /// The tranches that a sell right mints.
    pub sell_tranches: Vec<RightTranche>,
    /// The cash that a buy order reserves.
    pub buy_reservation: Option<Decimal>,
    /// What each allocation of a sell intent costs to close.
    pub close_costs: Vec<Option<Decimal>>,
    /// The worst price at which a sell intent can fill.
    pub worst_sell_price: Option<Decimal>,
    /// The largest fees of each allocation of a sell intent.
    pub sell_fees: Vec<Option<Decimal>>,
    /// The charges of a fill.
    pub fill_charges: Option<FillCharges>,
    /// The parts of the planned allocations that a sell fill closes.
    pub fill_slices: Option<Vec<LotQuantityAllocation>>,
    /// How the fees of a sell fill are shared among its allocations.
    pub fee_split: Option<Vec<Decimal>>,
    /// How much of the opening balance to deploy.
    pub deployment: Option<DeploymentPlan>,
    /// The accounts after a fill of the opening order has been booked.
    pub opening_booking: Option<OpeningBooking>,
    /// What the risk rules allow a sell intent to take.
    pub approval: Option<Approval>,
    /// The shares that the risk rules allow a decided right.
    pub approved_quantity: Option<i64>,
    /// Whether the evidence on funds and inventory of a request is as recorded.
    pub evidence_valid: bool,
    /// The version of the rule against losses.
    pub profit_guard_version: String,
    /// The version of the policy on ongoing resources.
    pub resource_policy_version: String,
    /// The opening evaluation in its encoded form.
    pub encoded_opening: Vec<u8>,
}

/// The content of [`Appraisal`].
#[verifier::ext_equal]
pub struct AppraisalView {
    pub capacity: Option<GridRightCapacityView>,
    pub sell_tranches: Seq<RightTrancheView>,
    pub buy_reservation: Option<Decimal>,
    pub close_costs: Seq<Option<Decimal>>,
    pub worst_sell_price: Option<Decimal>,
    pub sell_fees: Seq<Option<Decimal>>,
    pub fill_charges: Option<FillCharges>,
    pub fill_slices: Option<Seq<LotQuantityAllocationView>>,
    pub fee_split: Option<Seq<Decimal>>,
    pub deployment: Option<DeploymentPlan>,
    pub opening_booking: Option<OpeningBookingView>,
    pub approval: Option<ApprovalView>,
    pub approved_quantity: Option<i64>,
    pub evidence_valid: bool,
    pub profit_guard_version: Seq<char>,
    pub resource_policy_version: Seq<char>,
    pub encoded_opening: Seq<u8>,
}

impl DeepView for Appraisal {
    type V = AppraisalView;

    open spec fn deep_view(&self) -> AppraisalView {
        AppraisalView {
            capacity: self.capacity.deep_view(),
            sell_tranches: self.sell_tranches.deep_view(),
            buy_reservation: self.buy_reservation.deep_view(),
            close_costs: self.close_costs.deep_view(),
            worst_sell_price: self.worst_sell_price.deep_view(),
            sell_fees: self.sell_fees.deep_view(),
            fill_charges: self.fill_charges.deep_view(),
            fill_slices: self.fill_slices.deep_view(),
            fee_split: self.fee_split.deep_view(),
            deployment: self.deployment.deep_view(),
            opening_booking: self.opening_booking.deep_view(),
            approval: self.approval.deep_view(),
            approved_quantity: self.approved_quantity.deep_view(),
            evidence_valid: self.evidence_valid,
            profit_guard_version: self.profit_guard_version.deep_view(),
            resource_policy_version: self.resource_policy_version.deep_view(),
            encoded_opening: self.encoded_opening.deep_view(),
        }
    }
}

impl View for Appraisal {
    type V = AppraisalView;

    open spec fn view(&self) -> AppraisalView {
        self.deep_view()
    }
}

impl Value for Appraisal {
    fn dup(&self) -> (r: Self) {
        Appraisal {
            capacity: self.capacity.dup(),
            sell_tranches: self.sell_tranches.dup(),
            buy_reservation: self.buy_reservation.dup(),
            close_costs: self.close_costs.dup(),
            worst_sell_price: self.worst_sell_price.dup(),
            sell_fees: self.sell_fees.dup(),
            fill_charges: self.fill_charges.dup(),
            fill_slices: self.fill_slices.dup(),
            fee_split: self.fee_split.dup(),
            deployment: self.deployment.dup(),
            opening_booking: self.opening_booking.dup(),
            approval: self.approval.dup(),
            approved_quantity: self.approved_quantity.dup(),
            evidence_valid: self.evidence_valid,
            profit_guard_version: self.profit_guard_version.dup(),
            resource_policy_version: self.resource_policy_version.dup(),
            encoded_opening: self.encoded_opening.dup(),
        }
    }

    fn same(&self, other: &Self) -> (r: bool) {
        self.capacity.same(&other.capacity)
            && self.sell_tranches.same(&other.sell_tranches)
            && self.buy_reservation.same(&other.buy_reservation)
            && self.close_costs.same(&other.close_costs)
            && self.worst_sell_price.same(&other.worst_sell_price)
            && self.sell_fees.same(&other.sell_fees)
            && self.fill_charges.same(&other.fill_charges)
            && self.fill_slices.same(&other.fill_slices)
            && self.fee_split.same(&other.fee_split)
            && self.deployment.same(&other.deployment)
            && self.opening_booking.same(&other.opening_booking)
            && self.approval.same(&other.approval)
            && self.approved_quantity.same(&other.approved_quantity)
            && self.evidence_valid == other.evidence_valid
            && self.profit_guard_version.same(&other.profit_guard_version)
            && self.resource_policy_version.same(&other.resource_policy_version)
            && self.encoded_opening.same(&other.encoded_opening)
    }
}

impl Clone for Appraisal {
    fn clone(&self) -> (r: Self)
        ensures
            r@ == self@,
    {
        self.dup()
    }
}

} // verus!

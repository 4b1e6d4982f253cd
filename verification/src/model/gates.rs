//! What a gate sees and what it answers.
use crate::clock::Moment;
use crate::decimal::Decimal;
use crate::model::market::Direction;
use crate::model::outcome::RightDecision;
use crate::model::rights::GridRight;
use crate::model::rights::GridRightView;
use crate::value::Value;
use vstd::prelude::*;

verus! {

/// The evidence on funds and inventory behind a resource-aware decision.
pub struct FundsInventoryContextV1 {
    pub schema_version: u32,
    pub feature_head_sequence: i64,
    pub feature_bar_ids: Vec<String>,
    pub feature_bars_sha256: String,
    pub history_bars: u32,
    pub short_window: u32,
    pub long_window: u32,
    pub trade_levels: i32,
    pub weight_depth: Decimal,
    pub weight_trend: Decimal,
    pub weight_location: Decimal,
    pub market_threshold: Decimal,
    pub depth: Decimal,
    pub recent_return_5: Decimal,
    pub vwap_deviation_20: Decimal,
    pub range_scale_20: Decimal,
    pub trend_strength: Decimal,
    pub location_strength: Decimal,
    pub market_score: Decimal,
    pub market_signal_passed: bool,
    pub cash_available: Decimal,
    pub cash_frozen: Decimal,
    pub minimum_free_cash: Decimal,
    pub spendable_cash: Decimal,
    pub adverse_buy_price: Option<Decimal>,
    pub cash_affordable_units: i64,
    pub position_total: i64,
    pub pending_buy_quantity: i64,
    pub position_exposure_quantity: i64,
    pub position_sellable: i64,
    pub position_today_bought: i64,
    pub position_frozen_sell: i64,
    pub max_position: i64,
    pub min_base_position: i64,
    pub target_position: i64,
    pub position_headroom_units: i64,
    pub target_headroom_units: i64,
    pub sellable_inventory_units: i64,
    pub mechanical_authorized_units: i64,
    pub resource_units: i64,
    pub predecision_blocked_units: i64,
    pub resource_ratio: Decimal,
    pub resource_multiplier: Decimal,
    pub pace: Decimal,
    pub target_units: i64,
}

/// The content of [`FundsInventoryContextV1`].
#[verifier::ext_equal]
pub struct FundsInventoryContextV1View {
    pub schema_version: u32,
    pub feature_head_sequence: i64,
    pub feature_bar_ids: Seq<Seq<char>>,
    pub feature_bars_sha256: Seq<char>,
    pub history_bars: u32,
    pub short_window: u32,
    pub long_window: u32,
    pub trade_levels: i32,
    pub weight_depth: Decimal,
    pub weight_trend: Decimal,
    pub weight_location: Decimal,
    pub market_threshold: Decimal,
    pub depth: Decimal,
    pub recent_return_5: Decimal,
    pub vwap_deviation_20: Decimal,
    pub range_scale_20: Decimal,
    pub trend_strength: Decimal,
    pub location_strength: Decimal,
    pub market_score: Decimal,
    pub market_signal_passed: bool,
    pub cash_available: Decimal,
    pub cash_frozen: Decimal,
    pub minimum_free_cash: Decimal,
    pub spendable_cash: Decimal,
    pub adverse_buy_price: Option<Decimal>,
    pub cash_affordable_units: i64,
    pub position_total: i64,
    pub pending_buy_quantity: i64,
    pub position_exposure_quantity: i64,
    pub position_sellable: i64,
    pub position_today_bought: i64,
    pub position_frozen_sell: i64,
    pub max_position: i64,
    pub min_base_position: i64,
    pub target_position: i64,
    pub position_headroom_units: i64,
    pub target_headroom_units: i64,
    pub sellable_inventory_units: i64,
    pub mechanical_authorized_units: i64,
    pub resource_units: i64,
    pub predecision_blocked_units: i64,
    pub resource_ratio: Decimal,
    pub resource_multiplier: Decimal,
    pub pace: Decimal,
    pub target_units: i64,
}

impl DeepView for FundsInventoryContextV1 {
    type V = FundsInventoryContextV1View;

    open spec fn deep_view(&self) -> FundsInventoryContextV1View {
        FundsInventoryContextV1View {
            schema_version: self.schema_version,
            feature_head_sequence: self.feature_head_sequence,
            feature_bar_ids: self.feature_bar_ids.deep_view(),
            feature_bars_sha256: self.feature_bars_sha256.deep_view(),
            history_bars: self.history_bars,
            short_window: self.short_window,
            long_window: self.long_window,
            trade_levels: self.trade_levels,
            weight_depth: self.weight_depth,
            weight_trend: self.weight_trend,
            weight_location: self.weight_location,
            market_threshold: self.market_threshold,
            depth: self.depth,
            recent_return_5: self.recent_return_5,
            vwap_deviation_20: self.vwap_deviation_20,
            range_scale_20: self.range_scale_20,
            trend_strength: self.trend_strength,
            location_strength: self.location_strength,
            market_score: self.market_score,
            market_signal_passed: self.market_signal_passed,
            cash_available: self.cash_available,
            cash_frozen: self.cash_frozen,
            minimum_free_cash: self.minimum_free_cash,
            spendable_cash: self.spendable_cash,
            adverse_buy_price: self.adverse_buy_price.deep_view(),
            cash_affordable_units: self.cash_affordable_units,
            position_total: self.position_total,
            pending_buy_quantity: self.pending_buy_quantity,
            position_exposure_quantity: self.position_exposure_quantity,
            position_sellable: self.position_sellable,
            position_today_bought: self.position_today_bought,
            position_frozen_sell: self.position_frozen_sell,
            max_position: self.max_position,
            min_base_position: self.min_base_position,
            target_position: self.target_position,
            position_headroom_units: self.position_headroom_units,
            target_headroom_units: self.target_headroom_units,
            sellable_inventory_units: self.sellable_inventory_units,
            mechanical_authorized_units: self.mechanical_authorized_units,
            resource_units: self.resource_units,
            predecision_blocked_units: self.predecision_blocked_units,
            resource_ratio: self.resource_ratio,
            resource_multiplier: self.resource_multiplier,
            pace: self.pace,
            target_units: self.target_units,
        }
    }
}

impl View for FundsInventoryContextV1 {
    type V = FundsInventoryContextV1View;

    open spec fn view(&self) -> FundsInventoryContextV1View {
        self.deep_view()
    }
}

impl Value for FundsInventoryContextV1 {
    fn dup(&self) -> (r: Self) {
        FundsInventoryContextV1 {
            schema_version: self.schema_version,
            feature_head_sequence: self.feature_head_sequence,
            feature_bar_ids: self.feature_bar_ids.dup(),
            feature_bars_sha256: self.feature_bars_sha256.dup(),
            history_bars: self.history_bars,
            short_window: self.short_window,
            long_window: self.long_window,
            trade_levels: self.trade_levels,
            weight_depth: self.weight_depth,
            weight_trend: self.weight_trend,
            weight_location: self.weight_location,
            market_threshold: self.market_threshold,
            depth: self.depth,
            recent_return_5: self.recent_return_5,
            vwap_deviation_20: self.vwap_deviation_20,
            range_scale_20: self.range_scale_20,
            trend_strength: self.trend_strength,
            location_strength: self.location_strength,
            market_score: self.market_score,
            market_signal_passed: self.market_signal_passed,
            cash_available: self.cash_available,
            cash_frozen: self.cash_frozen,
            minimum_free_cash: self.minimum_free_cash,
            spendable_cash: self.spendable_cash,
            adverse_buy_price: self.adverse_buy_price.dup(),
            cash_affordable_units: self.cash_affordable_units,
            position_total: self.position_total,
            pending_buy_quantity: self.pending_buy_quantity,
            position_exposure_quantity: self.position_exposure_quantity,
            position_sellable: self.position_sellable,
            position_today_bought: self.position_today_bought,
            position_frozen_sell: self.position_frozen_sell,
            max_position: self.max_position,
            min_base_position: self.min_base_position,
            target_position: self.target_position,
            position_headroom_units: self.position_headroom_units,
            target_headroom_units: self.target_headroom_units,
            sellable_inventory_units: self.sellable_inventory_units,
            mechanical_authorized_units: self.mechanical_authorized_units,
            resource_units: self.resource_units,
            predecision_blocked_units: self.predecision_blocked_units,
            resource_ratio: self.resource_ratio,
            resource_multiplier: self.resource_multiplier,
            pace: self.pace,
            target_units: self.target_units,
        }
    }

    fn same(&self, other: &Self) -> (r: bool) {
        self.schema_version == other.schema_version
            && self.feature_head_sequence == other.feature_head_sequence
            && self.feature_bar_ids.same(&other.feature_bar_ids)
            && self.feature_bars_sha256.same(&other.feature_bars_sha256)
            && self.history_bars == other.history_bars
            && self.short_window == other.short_window
            && self.long_window == other.long_window
            && self.trade_levels == other.trade_levels
            && self.weight_depth.same(&other.weight_depth)
            && self.weight_trend.same(&other.weight_trend)
            && self.weight_location.same(&other.weight_location)
            && self.market_threshold.same(&other.market_threshold)
            && self.depth.same(&other.depth)
            && self.recent_return_5.same(&other.recent_return_5)
            && self.vwap_deviation_20.same(&other.vwap_deviation_20)
            && self.range_scale_20.same(&other.range_scale_20)
            && self.trend_strength.same(&other.trend_strength)
            && self.location_strength.same(&other.location_strength)
            && self.market_score.same(&other.market_score)
            && self.market_signal_passed == other.market_signal_passed
            && self.cash_available.same(&other.cash_available)
            && self.cash_frozen.same(&other.cash_frozen)
            && self.minimum_free_cash.same(&other.minimum_free_cash)
            && self.spendable_cash.same(&other.spendable_cash)
            && self.adverse_buy_price.same(&other.adverse_buy_price)
            && self.cash_affordable_units == other.cash_affordable_units
            && self.position_total == other.position_total
            && self.pending_buy_quantity == other.pending_buy_quantity
            && self.position_exposure_quantity == other.position_exposure_quantity
            && self.position_sellable == other.position_sellable
            && self.position_today_bought == other.position_today_bought
            && self.position_frozen_sell == other.position_frozen_sell
            && self.max_position == other.max_position
            && self.min_base_position == other.min_base_position
            && self.target_position == other.target_position
            && self.position_headroom_units == other.position_headroom_units
            && self.target_headroom_units == other.target_headroom_units
            && self.sellable_inventory_units == other.sellable_inventory_units
            && self.mechanical_authorized_units == other.mechanical_authorized_units
            && self.resource_units == other.resource_units
            && self.predecision_blocked_units == other.predecision_blocked_units
            && self.resource_ratio.same(&other.resource_ratio)
            && self.resource_multiplier.same(&other.resource_multiplier)
            && self.pace.same(&other.pace)
            && self.target_units == other.target_units
    }
}

impl Clone for FundsInventoryContextV1 {
    fn clone(&self) -> (r: Self)
        ensures
            r@ == self@,
    {
        self.dup()
    }
}

/// What a gate sees of an opportunity.
pub struct GateContext {
    pub right_id: String,
    pub symbol: String,
    pub direction: Direction,
    pub grid_index: i32,
    pub grid_price: Decimal,
    pub current_price: Decimal,
    pub current_time: Moment,
    pub available_budget: Decimal,
    /// The quantity that the algorithm may dispose of.
    pub available_quantity: i64,
    /// The exact capacity before the platform removes a remainder.
    pub gross_available_quantity: i64,
    /// The capacity that is less than one standard quantity.
    pub platform_residual_quantity: i64,
    /// The capacity without the remainder.
    pub algorithm_authorized_quantity: i64,
    pub lot_size: i64,
    pub standard_quantity: i64,
    pub eligible_lot_ids: Vec<String>,
    pub accumulated_grid_indices: Vec<i32>,
    pub deployed_budget: Decimal,
    pub current_position: i64,
    pub sellable_position: i64,
    pub recent_return: Decimal,
    pub vwap_deviation: Decimal,
    pub volatility: Decimal,
    pub market_regime: String,
    pub cycle_id: String,
    pub funds_inventory: Option<FundsInventoryContextV1>,
}

/// The content of [`GateContext`].
#[verifier::ext_equal]
pub struct GateContextView {
    pub right_id: Seq<char>,
    pub symbol: Seq<char>,
    pub direction: Direction,
    pub grid_index: i32,
    pub grid_price: Decimal,
    pub current_price: Decimal,
    pub current_time: Moment,
    pub available_budget: Decimal,
    pub available_quantity: i64,
    pub gross_available_quantity: i64,
    pub platform_residual_quantity: i64,
    pub algorithm_authorized_quantity: i64,
    pub lot_size: i64,
    pub standard_quantity: i64,
    pub eligible_lot_ids: Seq<Seq<char>>,
    pub accumulated_grid_indices: Seq<i32>,
    pub deployed_budget: Decimal,
    pub current_position: i64,
    pub sellable_position: i64,
    pub recent_return: Decimal,
    pub vwap_deviation: Decimal,
    pub volatility: Decimal,
    pub market_regime: Seq<char>,
    pub cycle_id: Seq<char>,
    pub funds_inventory: Option<FundsInventoryContextV1View>,
}

impl DeepView for GateContext {
    type V = GateContextView;

    open spec fn deep_view(&self) -> GateContextView {
        GateContextView {
            right_id: self.right_id.deep_view(),
            symbol: self.symbol.deep_view(),
            direction: self.direction,
            grid_index: self.grid_index,
            grid_price: self.grid_price,
            current_price: self.current_price,
            current_time: self.current_time,
            available_budget: self.available_budget,
            available_quantity: self.available_quantity,
            gross_available_quantity: self.gross_available_quantity,
            platform_residual_quantity: self.platform_residual_quantity,
            algorithm_authorized_quantity: self.algorithm_authorized_quantity,
            lot_size: self.lot_size,
            standard_quantity: self.standard_quantity,
            eligible_lot_ids: self.eligible_lot_ids.deep_view(),
            accumulated_grid_indices: self.accumulated_grid_indices.deep_view(),
            deployed_budget: self.deployed_budget,
            current_position: self.current_position,
            sellable_position: self.sellable_position,
            recent_return: self.recent_return,
            vwap_deviation: self.vwap_deviation,
            volatility: self.volatility,
            market_regime: self.market_regime.deep_view(),
            cycle_id: self.cycle_id.deep_view(),
            funds_inventory: self.funds_inventory.deep_view(),
        }
    }
}

impl View for GateContext {
    type V = GateContextView;

    open spec fn view(&self) -> GateContextView {
        self.deep_view()
    }
}

impl Value for GateContext {
    fn dup(&self) -> (r: Self) {
        GateContext {
            right_id: self.right_id.dup(),
            symbol: self.symbol.dup(),
            direction: self.direction,
            grid_index: self.grid_index,
            grid_price: self.grid_price,
            current_price: self.current_price,
            current_time: self.current_time,
            available_budget: self.available_budget,
            available_quantity: self.available_quantity,
            gross_available_quantity: self.gross_available_quantity,
            platform_residual_quantity: self.platform_residual_quantity,
            algorithm_authorized_quantity: self.algorithm_authorized_quantity,
            lot_size: self.lot_size,
            standard_quantity: self.standard_quantity,
            eligible_lot_ids: self.eligible_lot_ids.dup(),
            accumulated_grid_indices: self.accumulated_grid_indices.dup(),
            deployed_budget: self.deployed_budget,
            current_position: self.current_position,
            sellable_position: self.sellable_position,
            recent_return: self.recent_return,
            vwap_deviation: self.vwap_deviation,
            volatility: self.volatility,
            market_regime: self.market_regime.dup(),
            cycle_id: self.cycle_id.dup(),
            funds_inventory: self.funds_inventory.dup(),
        }
    }

    fn same(&self, other: &Self) -> (r: bool) {
        self.right_id.same(&other.right_id)
            && self.symbol.same(&other.symbol)
            && self.direction == other.direction
            && self.grid_index == other.grid_index
            && self.grid_price.same(&other.grid_price)
            && self.current_price.same(&other.current_price)
            && self.current_time.same(&other.current_time)
            && self.available_budget.same(&other.available_budget)
            && self.available_quantity == other.available_quantity
            && self.gross_available_quantity == other.gross_available_quantity
            && self.platform_residual_quantity == other.platform_residual_quantity
            && self.algorithm_authorized_quantity == other.algorithm_authorized_quantity
            && self.lot_size == other.lot_size
            && self.standard_quantity == other.standard_quantity
            && self.eligible_lot_ids.same(&other.eligible_lot_ids)
            && self.accumulated_grid_indices.same(&other.accumulated_grid_indices)
            && self.deployed_budget.same(&other.deployed_budget)
            && self.current_position == other.current_position
            && self.sellable_position == other.sellable_position
            && self.recent_return.same(&other.recent_return)
            && self.vwap_deviation.same(&other.vwap_deviation)
            && self.volatility.same(&other.volatility)
            && self.market_regime.same(&other.market_regime)
            && self.cycle_id.same(&other.cycle_id)
            && self.funds_inventory.same(&other.funds_inventory)
    }
}

impl Clone for GateContext {
    fn clone(&self) -> (r: Self)
        ensures
            r@ == self@,
    {
        self.dup()
    }
}

/// What a gate answers.
pub struct GateDecision {
    pub probability: Decimal,
    pub alpha: Decimal,
    pub alpha_numerator: Option<i64>,
    pub alpha_denominator: Option<i64>,
    pub action: String,
    pub reason_codes: Vec<String>,
    pub model_name: String,
    pub model_version: String,
    pub input_snapshot_hash: String,
    pub decided_at: Moment,
}

/// The content of [`GateDecision`].
#[verifier::ext_equal]
pub struct GateDecisionView {
    pub probability: Decimal,
    pub alpha: Decimal,
    pub alpha_numerator: Option<i64>,
    pub alpha_denominator: Option<i64>,
    pub action: Seq<char>,
    pub reason_codes: Seq<Seq<char>>,
    pub model_name: Seq<char>,
    pub model_version: Seq<char>,
    pub input_snapshot_hash: Seq<char>,
    pub decided_at: Moment,
}

impl DeepView for GateDecision {
    type V = GateDecisionView;

    open spec fn deep_view(&self) -> GateDecisionView {
        GateDecisionView {
            probability: self.probability,
            alpha: self.alpha,
            alpha_numerator: self.alpha_numerator.deep_view(),
            alpha_denominator: self.alpha_denominator.deep_view(),
            action: self.action.deep_view(),
            reason_codes: self.reason_codes.deep_view(),
            model_name: self.model_name.deep_view(),
            model_version: self.model_version.deep_view(),
            input_snapshot_hash: self.input_snapshot_hash.deep_view(),
            decided_at: self.decided_at,
        }
    }
}

impl View for GateDecision {
    type V = GateDecisionView;

    open spec fn view(&self) -> GateDecisionView {
        self.deep_view()
    }
}

impl Value for GateDecision {
    fn dup(&self) -> (r: Self) {
        GateDecision {
            probability: self.probability,
            alpha: self.alpha,
            alpha_numerator: self.alpha_numerator.dup(),
            alpha_denominator: self.alpha_denominator.dup(),
            action: self.action.dup(),
            reason_codes: self.reason_codes.dup(),
            model_name: self.model_name.dup(),
            model_version: self.model_version.dup(),
            input_snapshot_hash: self.input_snapshot_hash.dup(),
            decided_at: self.decided_at,
        }
    }

    fn same(&self, other: &Self) -> (r: bool) {
        self.probability.same(&other.probability)
            && self.alpha.same(&other.alpha)
            && self.alpha_numerator.same(&other.alpha_numerator)
            && self.alpha_denominator.same(&other.alpha_denominator)
            && self.action.same(&other.action)
            && self.reason_codes.same(&other.reason_codes)
            && self.model_name.same(&other.model_name)
            && self.model_version.same(&other.model_version)
            && self.input_snapshot_hash.same(&other.input_snapshot_hash)
            && self.decided_at.same(&other.decided_at)
    }
}

impl Clone for GateDecision {
    fn clone(&self) -> (r: Self)
        ensures
            r@ == self@,
    {
        self.dup()
    }
}

/// A question to a decision algorithm.
pub struct DecisionRequest {
    pub contract_version: u32,
    pub request_id: String,
    pub right: GridRight,
    pub context: GateContext,
    pub deterministic_seed: u64,
}

/// The content of [`DecisionRequest`].
#[verifier::ext_equal]
pub struct DecisionRequestView {
    pub contract_version: u32,
    pub request_id: Seq<char>,
    pub right: GridRightView,
    pub context: GateContextView,
    pub deterministic_seed: u64,
}

impl DeepView for DecisionRequest {
    type V = DecisionRequestView;

    open spec fn deep_view(&self) -> DecisionRequestView {
        DecisionRequestView {
            contract_version: self.contract_version,
            request_id: self.request_id.deep_view(),
            right: self.right.deep_view(),
            context: self.context.deep_view(),
            deterministic_seed: self.deterministic_seed,
        }
    }
}

impl View for DecisionRequest {
    type V = DecisionRequestView;

    open spec fn view(&self) -> DecisionRequestView {
        self.deep_view()
    }
}

impl Value for DecisionRequest {
    fn dup(&self) -> (r: Self) {
        DecisionRequest {
            contract_version: self.contract_version,
            request_id: self.request_id.dup(),
            right: self.right.dup(),
            context: self.context.dup(),
            deterministic_seed: self.deterministic_seed,
        }
    }

    fn same(&self, other: &Self) -> (r: bool) {
        self.contract_version == other.contract_version
            && self.request_id.same(&other.request_id)
            && self.right.same(&other.right)
            && self.context.same(&other.context)
            && self.deterministic_seed == other.deterministic_seed
    }
}

impl Clone for DecisionRequest {
    fn clone(&self) -> (r: Self)
        ensures
            r@ == self@,
    {
        self.dup()
    }
}

/// The answer of a decision algorithm.
pub struct DecisionResponse {
    pub contract_version: u32,
    pub request_id: String,
    pub right_id: String,
    pub outcome: RightDecision,
    pub decision: GateDecision,
}

/// The content of [`DecisionResponse`].
#[verifier::ext_equal]
pub struct DecisionResponseView {
    pub contract_version: u32,
    pub request_id: Seq<char>,
    pub right_id: Seq<char>,
    pub outcome: RightDecision,
    pub decision: GateDecisionView,
}

impl DeepView for DecisionResponse {
    type V = DecisionResponseView;

    open spec fn deep_view(&self) -> DecisionResponseView {
        DecisionResponseView {
            contract_version: self.contract_version,
            request_id: self.request_id.deep_view(),
            right_id: self.right_id.deep_view(),
            outcome: self.outcome,
            decision: self.decision.deep_view(),
        }
    }
}

impl View for DecisionResponse {
    type V = DecisionResponseView;

    open spec fn view(&self) -> DecisionResponseView {
        self.deep_view()
    }
}

impl Value for DecisionResponse {
    fn dup(&self) -> (r: Self) {
        DecisionResponse {
            contract_version: self.contract_version,
            request_id: self.request_id.dup(),
            right_id: self.right_id.dup(),
            outcome: self.outcome,
            decision: self.decision.dup(),
        }
    }

    fn same(&self, other: &Self) -> (r: bool) {
        self.contract_version == other.contract_version
            && self.request_id.same(&other.request_id)
            && self.right_id.same(&other.right_id)
            && self.outcome.same(&other.outcome)
            && self.decision.same(&other.decision)
    }
}

impl Clone for DecisionResponse {
    fn clone(&self) -> (r: Self)
        ensures
            r@ == self@,
    {
        self.dup()
    }
}

/// What a decision algorithm keeps between decisions.
pub struct AlgorithmCheckpoint {
    pub algorithm_name: String,
    pub algorithm_version: String,
    pub sequence_number: i64,
    pub payload: Vec<u8>,
    pub sha256: String,
}

/// The content of [`AlgorithmCheckpoint`].
#[verifier::ext_equal]
pub struct AlgorithmCheckpointView {
    pub algorithm_name: Seq<char>,
    pub algorithm_version: Seq<char>,
    pub sequence_number: i64,
    pub payload: Seq<u8>,
    pub sha256: Seq<char>,
}

impl DeepView for AlgorithmCheckpoint {
    type V = AlgorithmCheckpointView;

    open spec fn deep_view(&self) -> AlgorithmCheckpointView {
        AlgorithmCheckpointView {
            algorithm_name: self.algorithm_name.deep_view(),
            algorithm_version: self.algorithm_version.deep_view(),
            sequence_number: self.sequence_number,
            payload: self.payload.deep_view(),
            sha256: self.sha256.deep_view(),
        }
    }
}

impl View for AlgorithmCheckpoint {
    type V = AlgorithmCheckpointView;

    open spec fn view(&self) -> AlgorithmCheckpointView {
        self.deep_view()
    }
}

impl Value for AlgorithmCheckpoint {
    fn dup(&self) -> (r: Self) {
        AlgorithmCheckpoint {
            algorithm_name: self.algorithm_name.dup(),
            algorithm_version: self.algorithm_version.dup(),
            sequence_number: self.sequence_number,
            payload: self.payload.dup(),
            sha256: self.sha256.dup(),
        }
    }

    fn same(&self, other: &Self) -> (r: bool) {
        self.algorithm_name.same(&other.algorithm_name)
            && self.algorithm_version.same(&other.algorithm_version)
            && self.sequence_number == other.sequence_number
            && self.payload.same(&other.payload)
            && self.sha256.same(&other.sha256)
    }
}

impl Clone for AlgorithmCheckpoint {
    fn clone(&self) -> (r: Self)
        ensures
            r@ == self@,
    {
        self.dup()
    }
}

/// What a decision algorithm says of itself, with what the platform measured.
pub struct AlgorithmManifest {
    pub algorithm_name: String,
    pub algorithm_version: String,
    pub supported_contract_versions: Vec<u32>,
    pub deterministic: bool,
    pub supports_checkpoint: bool,
    /// Measured by the platform; a process cannot declare it.
    pub artifact_sha256: String,
    pub canonical_arguments: Vec<String>,
    pub environment_sha256: String,
    pub platform_sha256: String,
}

/// The content of [`AlgorithmManifest`].
#[verifier::ext_equal]
pub struct AlgorithmManifestView {
    pub algorithm_name: Seq<char>,
    pub algorithm_version: Seq<char>,
    pub supported_contract_versions: Seq<u32>,
    pub deterministic: bool,
    pub supports_checkpoint: bool,
    pub artifact_sha256: Seq<char>,
    pub canonical_arguments: Seq<Seq<char>>,
    pub environment_sha256: Seq<char>,
    pub platform_sha256: Seq<char>,
}

impl DeepView for AlgorithmManifest {
    type V = AlgorithmManifestView;

    open spec fn deep_view(&self) -> AlgorithmManifestView {
        AlgorithmManifestView {
            algorithm_name: self.algorithm_name.deep_view(),
            algorithm_version: self.algorithm_version.deep_view(),
            supported_contract_versions: self.supported_contract_versions.deep_view(),
            deterministic: self.deterministic,
            supports_checkpoint: self.supports_checkpoint,
            artifact_sha256: self.artifact_sha256.deep_view(),
            canonical_arguments: self.canonical_arguments.deep_view(),
            environment_sha256: self.environment_sha256.deep_view(),
            platform_sha256: self.platform_sha256.deep_view(),
        }
    }
}

impl View for AlgorithmManifest {
    type V = AlgorithmManifestView;

    open spec fn view(&self) -> AlgorithmManifestView {
        self.deep_view()
    }
}

impl Value for AlgorithmManifest {
    fn dup(&self) -> (r: Self) {
        AlgorithmManifest {
            algorithm_name: self.algorithm_name.dup(),
            algorithm_version: self.algorithm_version.dup(),
            supported_contract_versions: self.supported_contract_versions.dup(),
            deterministic: self.deterministic,
            supports_checkpoint: self.supports_checkpoint,
            artifact_sha256: self.artifact_sha256.dup(),
            canonical_arguments: self.canonical_arguments.dup(),
            environment_sha256: self.environment_sha256.dup(),
            platform_sha256: self.platform_sha256.dup(),
        }
    }

    fn same(&self, other: &Self) -> (r: bool) {
        self.algorithm_name.same(&other.algorithm_name)
            && self.algorithm_version.same(&other.algorithm_version)
            && self.supported_contract_versions.same(&other.supported_contract_versions)
            && self.deterministic == other.deterministic
            && self.supports_checkpoint == other.supports_checkpoint
            && self.artifact_sha256.same(&other.artifact_sha256)
            && self.canonical_arguments.same(&other.canonical_arguments)
            && self.environment_sha256.same(&other.environment_sha256)
            && self.platform_sha256.same(&other.platform_sha256)
    }
}

impl Clone for AlgorithmManifest {
    fn clone(&self) -> (r: Self)
        ensures
            r@ == self@,
    {
        self.dup()
    }
}

} // verus!

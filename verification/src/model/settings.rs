//! Run configuration.
use crate::decimal::Decimal;
use crate::value::Value;
use vstd::prelude::*;

verus! {

/// How much cash and stock a resource-aware gate keeps.
#[derive(Clone, Copy, Debug)]
pub struct CapitalInventorySettings {
    pub minimum_free_cash: Decimal,
    pub target_position: i64,
    /// Deploy the initial balance once, from the first market bar.
    pub deploy_initial_balance: bool,
}

impl DeepView for CapitalInventorySettings {
    type V = CapitalInventorySettings;

    open spec fn deep_view(&self) -> CapitalInventorySettings {
        *self
    }
}

impl View for CapitalInventorySettings {
    type V = CapitalInventorySettings;

    open spec fn view(&self) -> CapitalInventorySettings {
        *self
    }
}

impl Value for CapitalInventorySettings {
    fn dup(&self) -> (r: Self) {
        *self
    }

    fn same(&self, other: &Self) -> (r: bool) {
        self.minimum_free_cash.same(&other.minimum_free_cash)
            && self.target_position == other.target_position
            && self.deploy_initial_balance == other.deploy_initial_balance
    }
}

/// Whether both agree, decimals by value.
pub open spec fn capital_inventory_settings_alike(a: CapitalInventorySettings, b: CapitalInventorySettings) -> bool {
    &&& a.minimum_free_cash.units() == b.minimum_free_cash.units()
    &&& a.target_position == b.target_position
    &&& a.deploy_initial_balance == b.deploy_initial_balance
}

impl CapitalInventorySettings {
    /// Whether both agree, decimals by value.
    pub fn alike(&self, other: &Self) -> (r: bool)
        ensures
            r == capital_inventory_settings_alike(self@, other@),
    {
        self.minimum_free_cash.equals(&other.minimum_free_cash)
            && self.target_position == other.target_position
            && self.deploy_initial_balance == other.deploy_initial_balance
    }
}

/// How a run asks its gate.
pub struct GateSettings {
    pub kind: String,
    pub probability: Decimal,
    pub alpha: Decimal,
    pub failure_mode: String,
    pub timeout_ms: u64,
    pub capital_inventory: Option<CapitalInventorySettings>,
}

/// The content of [`GateSettings`].
#[verifier::ext_equal]
pub struct GateSettingsView {
    pub kind: Seq<char>,
    pub probability: Decimal,
    pub alpha: Decimal,
    pub failure_mode: Seq<char>,
    pub timeout_ms: u64,
    pub capital_inventory: Option<CapitalInventorySettings>,
}

impl DeepView for GateSettings {
    type V = GateSettingsView;

    open spec fn deep_view(&self) -> GateSettingsView {
        GateSettingsView {
            kind: self.kind.deep_view(),
            probability: self.probability,
            alpha: self.alpha,
            failure_mode: self.failure_mode.deep_view(),
            timeout_ms: self.timeout_ms,
            capital_inventory: self.capital_inventory.deep_view(),
        }
    }
}

impl View for GateSettings {
    type V = GateSettingsView;

    open spec fn view(&self) -> GateSettingsView {
        self.deep_view()
    }
}

impl Value for GateSettings {
    fn dup(&self) -> (r: Self) {
        GateSettings {
            kind: self.kind.dup(),
            probability: self.probability,
            alpha: self.alpha,
            failure_mode: self.failure_mode.dup(),
            timeout_ms: self.timeout_ms,
            capital_inventory: self.capital_inventory.dup(),
        }
    }

    fn same(&self, other: &Self) -> (r: bool) {
        self.kind.same(&other.kind)
            && self.probability.same(&other.probability)
            && self.alpha.same(&other.alpha)
            && self.failure_mode.same(&other.failure_mode)
            && self.timeout_ms == other.timeout_ms
            && self.capital_inventory.same(&other.capital_inventory)
    }
}

impl Clone for GateSettings {
    fn clone(&self) -> (r: Self)
        ensures
            r@ == self@,
    {
        self.dup()
    }
}

/// Whether both agree, decimals by value.
pub open spec fn gate_settings_alike(a: GateSettingsView, b: GateSettingsView) -> bool {
    &&& a.kind == b.kind
    &&& a.probability.units() == b.probability.units()
    &&& a.alpha.units() == b.alpha.units()
    &&& a.failure_mode == b.failure_mode
    &&& a.timeout_ms == b.timeout_ms
    &&& (a.capital_inventory is Some == b.capital_inventory is Some)
    &&& (a.capital_inventory is Some ==> capital_inventory_settings_alike(a.capital_inventory->0, b.capital_inventory->0))
}

impl GateSettings {
    /// Whether both agree, decimals by value.
    pub fn alike(&self, other: &Self) -> (r: bool)
        ensures
            r == gate_settings_alike(self@, other@),
    {
        self.kind.same(&other.kind)
            && self.probability.equals(&other.probability)
            && self.alpha.equals(&other.alpha)
            && self.failure_mode.same(&other.failure_mode)
            && self.timeout_ms == other.timeout_ms
            && (match (&self.capital_inventory, &other.capital_inventory) {
                (Some(x), Some(y)) => x.alike(y),
                (None, None) => true,
                _ => false,
            })
    }
}

/// The simulated broker of a run.
#[derive(Clone, Copy, Debug, PartialEq, Eq, Structural)]
pub struct PaperSettings {
    pub reject_probability_bps: u16,
    pub partial_fill_bps: u16,
    pub latency_ms: u64,
    pub seed: u64,
    pub hold_open_probability_bps: u16,
}

impl DeepView for PaperSettings {
    type V = PaperSettings;

    open spec fn deep_view(&self) -> PaperSettings {
        *self
    }
}

impl View for PaperSettings {
    type V = PaperSettings;

    open spec fn view(&self) -> PaperSettings {
        *self
    }
}

impl Value for PaperSettings {
    fn dup(&self) -> (r: Self) {
        *self
    }

    fn same(&self, other: &Self) -> (r: bool) {
        *self == *other
    }
}

/// A run configuration.
pub struct Config {
    pub symbol: String,
    pub anchor_price: Decimal,
    pub grid_ratio: Decimal,
    pub trade_levels: i32,
    pub boundary_levels: i32,
    pub standard_budget: Decimal,
    /// The mechanical unit of authorization in shares; zero in runs that are
    /// denominated in budgets.
    pub standard_quantity: i64,
    pub initial_cash: Decimal,
    pub initial_position: i64,
    pub initial_sellable: i64,
    pub max_position: i64,
    pub min_base_position: i64,
    pub lot_size: i64,
    pub price_scale: u32,
    pub hysteresis_ratio: Decimal,
    pub commission_rate: Decimal,
    pub minimum_commission: Decimal,
    pub sell_tax_rate: Decimal,
    pub slippage_rate: Decimal,
    pub gate: GateSettings,
    pub paper: PaperSettings,
    pub ambiguity_policy: String,
    pub database: String,
    pub config_version: String,
}

/// The content of [`Config`].
#[verifier::ext_equal]
pub struct ConfigView {
    pub symbol: Seq<char>,
    pub anchor_price: Decimal,
    pub grid_ratio: Decimal,
    pub trade_levels: i32,
    pub boundary_levels: i32,
    pub standard_budget: Decimal,
    pub standard_quantity: i64,
    pub initial_cash: Decimal,
    pub initial_position: i64,
    pub initial_sellable: i64,
    pub max_position: i64,
    pub min_base_position: i64,
    pub lot_size: i64,
    pub price_scale: u32,
    pub hysteresis_ratio: Decimal,
    pub commission_rate: Decimal,
    pub minimum_commission: Decimal,
    pub sell_tax_rate: Decimal,
    pub slippage_rate: Decimal,
    pub gate: GateSettingsView,
    pub paper: PaperSettings,
    pub ambiguity_policy: Seq<char>,
    pub database: Seq<char>,
    pub config_version: Seq<char>,
}

impl DeepView for Config {
    type V = ConfigView;

    open spec fn deep_view(&self) -> ConfigView {
        ConfigView {
            symbol: self.symbol.deep_view(),
            anchor_price: self.anchor_price,
            grid_ratio: self.grid_ratio,
            trade_levels: self.trade_levels,
            boundary_levels: self.boundary_levels,
            standard_budget: self.standard_budget,
            standard_quantity: self.standard_quantity,
            initial_cash: self.initial_cash,
            initial_position: self.initial_position,
            initial_sellable: self.initial_sellable,
            max_position: self.max_position,
            min_base_position: self.min_base_position,
            lot_size: self.lot_size,
            price_scale: self.price_scale,
            hysteresis_ratio: self.hysteresis_ratio,
            commission_rate: self.commission_rate,
            minimum_commission: self.minimum_commission,
            sell_tax_rate: self.sell_tax_rate,
            slippage_rate: self.slippage_rate,
            gate: self.gate.deep_view(),
            paper: self.paper,
            ambiguity_policy: self.ambiguity_policy.deep_view(),
            database: self.database.deep_view(),
            config_version: self.config_version.deep_view(),
        }
    }
}

impl View for Config {
    type V = ConfigView;

    open spec fn view(&self) -> ConfigView {
        self.deep_view()
    }
}

impl Value for Config {
    fn dup(&self) -> (r: Self) {
        Config {
            symbol: self.symbol.dup(),
            anchor_price: self.anchor_price,
            grid_ratio: self.grid_ratio,
            trade_levels: self.trade_levels,
            boundary_levels: self.boundary_levels,
            standard_budget: self.standard_budget,
            standard_quantity: self.standard_quantity,
            initial_cash: self.initial_cash,
            initial_position: self.initial_position,
            initial_sellable: self.initial_sellable,
            max_position: self.max_position,
            min_base_position: self.min_base_position,
            lot_size: self.lot_size,
            price_scale: self.price_scale,
            hysteresis_ratio: self.hysteresis_ratio,
            commission_rate: self.commission_rate,
            minimum_commission: self.minimum_commission,
            sell_tax_rate: self.sell_tax_rate,
            slippage_rate: self.slippage_rate,
            gate: self.gate.dup(),
            paper: self.paper,
            ambiguity_policy: self.ambiguity_policy.dup(),
            database: self.database.dup(),
            config_version: self.config_version.dup(),
        }
    }

    fn same(&self, other: &Self) -> (r: bool) {
        self.symbol.same(&other.symbol)
            && self.anchor_price.same(&other.anchor_price)
            && self.grid_ratio.same(&other.grid_ratio)
            && self.trade_levels == other.trade_levels
            && self.boundary_levels == other.boundary_levels
            && self.standard_budget.same(&other.standard_budget)
            && self.standard_quantity == other.standard_quantity
            && self.initial_cash.same(&other.initial_cash)
            && self.initial_position == other.initial_position
            && self.initial_sellable == other.initial_sellable
            && self.max_position == other.max_position
            && self.min_base_position == other.min_base_position
            && self.lot_size == other.lot_size
            && self.price_scale == other.price_scale
            && self.hysteresis_ratio.same(&other.hysteresis_ratio)
            && self.commission_rate.same(&other.commission_rate)
            && self.minimum_commission.same(&other.minimum_commission)
            && self.sell_tax_rate.same(&other.sell_tax_rate)
            && self.slippage_rate.same(&other.slippage_rate)
            && self.gate.same(&other.gate)
            && self.paper.same(&other.paper)
            && self.ambiguity_policy.same(&other.ambiguity_policy)
            && self.database.same(&other.database)
            && self.config_version.same(&other.config_version)
    }
}

impl Clone for Config {
    fn clone(&self) -> (r: Self)
        ensures
            r@ == self@,
    {
        self.dup()
    }
}

/// Whether both agree, decimals by value.
pub open spec fn config_alike(a: ConfigView, b: ConfigView) -> bool {
    &&& a.symbol == b.symbol
    &&& a.anchor_price.units() == b.anchor_price.units()
    &&& a.grid_ratio.units() == b.grid_ratio.units()
    &&& a.trade_levels == b.trade_levels
    &&& a.boundary_levels == b.boundary_levels
    &&& a.standard_budget.units() == b.standard_budget.units()
    &&& a.standard_quantity == b.standard_quantity
    &&& a.initial_cash.units() == b.initial_cash.units()
    &&& a.initial_position == b.initial_position
    &&& a.initial_sellable == b.initial_sellable
    &&& a.max_position == b.max_position
    &&& a.min_base_position == b.min_base_position
    &&& a.lot_size == b.lot_size
    &&& a.price_scale == b.price_scale
    &&& a.hysteresis_ratio.units() == b.hysteresis_ratio.units()
    &&& a.commission_rate.units() == b.commission_rate.units()
    &&& a.minimum_commission.units() == b.minimum_commission.units()
    &&& a.sell_tax_rate.units() == b.sell_tax_rate.units()
    &&& a.slippage_rate.units() == b.slippage_rate.units()
    &&& gate_settings_alike(a.gate, b.gate)
    &&& a.paper == b.paper
    &&& a.ambiguity_policy == b.ambiguity_policy
    &&& a.database == b.database
    &&& a.config_version == b.config_version
}

impl Config {
    /// Whether both agree, decimals by value.
    pub fn alike(&self, other: &Self) -> (r: bool)
        ensures
            r == config_alike(self@, other@),
    {
        self.symbol.same(&other.symbol)
            && self.anchor_price.equals(&other.anchor_price)
            && self.grid_ratio.equals(&other.grid_ratio)
            && self.trade_levels == other.trade_levels
            && self.boundary_levels == other.boundary_levels
            && self.standard_budget.equals(&other.standard_budget)
            && self.standard_quantity == other.standard_quantity
            && self.initial_cash.equals(&other.initial_cash)
            && self.initial_position == other.initial_position
            && self.initial_sellable == other.initial_sellable
            && self.max_position == other.max_position
            && self.min_base_position == other.min_base_position
            && self.lot_size == other.lot_size
            && self.price_scale == other.price_scale
            && self.hysteresis_ratio.equals(&other.hysteresis_ratio)
            && self.commission_rate.equals(&other.commission_rate)
            && self.minimum_commission.equals(&other.minimum_commission)
            && self.sell_tax_rate.equals(&other.sell_tax_rate)
            && self.slippage_rate.equals(&other.slippage_rate)
            && self.gate.alike(&other.gate)
            && self.paper == other.paper
            && self.ambiguity_policy.same(&other.ambiguity_policy)
            && self.database.same(&other.database)
            && self.config_version.same(&other.config_version)
    }
}

} // verus!

//! Run configurations: when one is in order, and how its snapshot is known to
//! be unchanged.
use crate::decimal::{larger, over, plus, read_decimal, from_parts, times, Decimal};
use crate::digest::digest_shaped;
use crate::grid::{grid_fault, grid_of, grid_price, GridError, GridSpec};
use crate::model::settings::{CapitalInventorySettings, Config, ConfigView};
use crate::notation::{config_digest, digest_config};
use crate::text::{blank, is_blank, text_eq};
use crate::value::Value;
use vstd::prelude::*;

verus! {

/// The largest quantity of shares that a configuration or a bar may name.
pub const MAX_SHARE_QUANTITY: i64 = 1_000_000_000_000;

/// Why a configuration is refused.
#[derive(Clone, Copy, Debug, PartialEq, Eq, Structural)]
pub enum ConfigError {
    Symbol,
    AnchorOrCash,
    GridRatio,
    GridLevels,
    PositionLimits,
    ShareQuantities,
    MechanicalUnit,
    SellableOrBase,
    Hysteresis,
    CommissionRate,
    MinimumCommission,
    SellTax,
    Slippage,
    PriceScale,
    /// The grid has no prices.
    Grid(GridError),
    /// The largest order of the grid is too large for its numbers.
    NumericRange,
    GridQuantity,
    GateShare,
    FailureMode,
    GateTimeout,
    Reserve,
    FailureFallback,
    StartingPosition,
    RetainedCash,
    MissingInventory,
    UnexpectedInventory,
    Probabilities,
    AmbiguityPolicy,
    /// The snapshot is not the one that its digest names.
    ContentHash,
}

/// Whether a flag is not set.
pub fn is_false(value: &bool) -> (r: bool)
    ensures
        r == !*value,
{
    !*value
}

/// How long a gate may take where a configuration does not say.
pub fn default_gate_timeout_ms() -> (r: u64)
    ensures
        r == 100,
{
    100
}

/// Whether a share of a price is at most one tenth.
pub open spec fn small_rate(d: Decimal) -> bool {
    0 <= d.units() <= Decimal::of(1, 1).units()
}

/// Whether a share of a price is at most one tenth.
pub fn is_small_rate(d: &Decimal) -> (r: bool)
    ensures
        r == small_rate(*d),
{
    match Decimal::from_scaled(1, 1) {
        Some(tenth) => !d.is_negative() && d.at_most(&tenth),
        None => false,
    }
}

/// Whether the limits on positions are in order.
pub open spec fn position_limits(c: ConfigView) -> bool {
    &&& c.initial_position >= 0
    &&& c.initial_sellable >= 0
    &&& c.max_position >= 0
    &&& c.min_base_position >= 0
    &&& c.lot_size > 0
    &&& c.max_position >= c.initial_position
}

/// Whether no quantity is too large.
pub open spec fn share_quantities(c: ConfigView) -> bool {
    &&& c.standard_quantity <= MAX_SHARE_QUANTITY
    &&& c.lot_size <= MAX_SHARE_QUANTITY
    &&& c.initial_position <= MAX_SHARE_QUANTITY
    &&& c.initial_sellable <= MAX_SHARE_QUANTITY
    &&& c.max_position <= MAX_SHARE_QUANTITY
    &&& c.min_base_position <= MAX_SHARE_QUANTITY
}

/// Whether the run counts in exactly one unit: whole lots of shares, or money.
pub open spec fn one_unit(c: ConfigView) -> bool {
    &&& c.standard_quantity >= 0
    &&& c.standard_budget.units() >= 0
    &&& (c.standard_quantity > 0) != (c.standard_budget.units() > 0)
    &&& c.standard_quantity > 0 ==> c.standard_quantity as int % c.lot_size as int == 0
}

/// Why the first group of settings is refused, if it is.
pub open spec fn unit_fault(c: ConfigView) -> Option<ConfigError> {
    if blank(c.symbol) {
        Some(ConfigError::Symbol)
    } else if c.anchor_price.units() <= 0 || c.initial_cash.units() < 0 {
        Some(ConfigError::AnchorOrCash)
    } else if c.grid_ratio.units() <= 0 || c.grid_ratio.units() >= Decimal::one().units() {
        Some(ConfigError::GridRatio)
    } else if c.trade_levels < 1 || c.boundary_levels <= c.trade_levels {
        Some(ConfigError::GridLevels)
    } else if !position_limits(c) {
        Some(ConfigError::PositionLimits)
    } else if !share_quantities(c) {
        Some(ConfigError::ShareQuantities)
    } else if !one_unit(c) {
        Some(ConfigError::MechanicalUnit)
    } else if c.initial_sellable > c.initial_position || c.min_base_position > c.initial_position {
        Some(ConfigError::SellableOrBase)
    } else {
        None
    }
}

/// Why the rates are refused, if they are.
pub open spec fn rate_fault(c: ConfigView) -> Option<ConfigError> {
    if c.hysteresis_ratio.units() < 0 || c.hysteresis_ratio.units() > Decimal::one().units() {
        Some(ConfigError::Hysteresis)
    } else if !small_rate(c.commission_rate) {
        Some(ConfigError::CommissionRate)
    } else if c.minimum_commission.units() < 0 {
        Some(ConfigError::MinimumCommission)
    } else if !small_rate(c.sell_tax_rate) {
        Some(ConfigError::SellTax)
    } else if c.slippage_rate.units() < 0 || c.slippage_rate.units() >= Decimal::one().units() {
        Some(ConfigError::Slippage)
    } else if c.price_scale > 8 {
        Some(ConfigError::PriceScale)
    } else {
        None
    }
}

/// The cash that the largest order of the grid moves at the worst price. Nothing
/// where a number on the way leaves the range.
pub open spec fn largest_order_cash(c: ConfigView, price: Decimal, quantity: i64) -> Option<
    Decimal,
> {
    match plus(Decimal::one(), c.slippage_rate) {
        None => None,
        Some(factor) => match times(price, factor) {
            None => None,
            Some(adverse) => match times(adverse, Decimal::whole(quantity as int)) {
                None => None,
                Some(notional) => match (
                    times(notional, c.commission_rate),
                    times(notional, c.sell_tax_rate),
                ) {
                    (Some(commission), Some(tax)) => match plus(
                        notional,
                        larger(commission, c.minimum_commission),
                    ) {
                        None => None,
                        Some(x) => plus(x, tax),
                    },
                    _ => None,
                },
            },
        },
    }
}

/// Why the numbers of the largest order are refused, if they are.
pub open spec fn envelope_fault(c: ConfigView) -> Option<ConfigError> {
    if c.standard_quantity > 0 {
        match c.standard_quantity.checked_mul(c.boundary_levels as i64) {
            None => Some(ConfigError::NumericRange),
            Some(quantity) => if quantity > MAX_SHARE_QUANTITY {
                Some(ConfigError::GridQuantity)
            } else {
                match grid_price(grid_of(c), c.boundary_levels) {
                    Err(e) => Some(ConfigError::Grid(e)),
                    Ok(price) => if largest_order_cash(c, price, quantity) is None {
                        Some(ConfigError::NumericRange)
                    } else {
                        None
                    },
                }
            },
        }
    } else if times(c.standard_budget, Decimal::whole(c.boundary_levels as int)) is None {
        Some(ConfigError::NumericRange)
    } else {
        None
    }
}

/// Why the inventory settings of a resource-aware gate are refused, if they are.
pub open spec fn inventory_fault(c: ConfigView, s: CapitalInventorySettings) -> Option<
    ConfigError,
> {
    if s.minimum_free_cash.units() < 0 || s.minimum_free_cash.units() > c.initial_cash.units()
        || s.target_position < c.min_base_position || s.target_position > c.max_position
        || s.target_position > MAX_SHARE_QUANTITY {
        Some(ConfigError::Reserve)
    } else if c.gate.failure_mode == "always_execute"@ {
        Some(ConfigError::FailureFallback)
    } else if s.deploy_initial_balance && (c.initial_position != 0 || c.initial_sellable != 0) {
        Some(ConfigError::StartingPosition)
    } else if s.deploy_initial_balance {
        match over(c.initial_cash, Decimal::whole(2)) {
            None => Some(ConfigError::NumericRange),
            Some(half) => if s.minimum_free_cash.units() < half.units() {
                Some(ConfigError::RetainedCash)
            } else {
                None
            },
        }
    } else {
        None
    }
}

/// Why the settings of a gate are refused, if they are.
pub open spec fn gate_settings_fault(c: ConfigView) -> Option<ConfigError> {
    let g = c.gate;
    if g.alpha.units() < 0 || g.alpha.units() > Decimal::one().units() || g.probability.units() < 0
        || g.probability.units() > Decimal::one().units() {
        Some(ConfigError::GateShare)
    } else if g.failure_mode != "safe"@ && g.failure_mode != "skip"@ && g.failure_mode
        != "always_execute"@ {
        Some(ConfigError::FailureMode)
    } else if g.timeout_ms == 0 || g.timeout_ms > 60_000 {
        Some(ConfigError::GateTimeout)
    } else if g.kind == "resource_aware"@ {
        match g.capital_inventory {
            Some(s) => inventory_fault(c, s),
            None => Some(ConfigError::MissingInventory),
        }
    } else if g.capital_inventory is Some {
        Some(ConfigError::UnexpectedInventory)
    } else {
        None
    }
}

/// Why the simulated broker or the policy is refused, if one is.
pub open spec fn paper_fault(c: ConfigView) -> Option<ConfigError> {
    if c.paper.reject_probability_bps > 10_000 || c.paper.partial_fill_bps > 10_000
        || c.paper.hold_open_probability_bps > 10_000 {
        Some(ConfigError::Probabilities)
    } else if c.ambiguity_policy != "conservative"@ && c.ambiguity_policy != "skip"@
        && c.ambiguity_policy != "lower_first"@ && c.ambiguity_policy != "upper_first"@ {
        Some(ConfigError::AmbiguityPolicy)
    } else {
        None
    }
}

/// Why a configuration is refused, if it is: the first fault counts.
pub open spec fn config_fault(c: ConfigView) -> Option<ConfigError> {
    match unit_fault(c) {
        Some(e) => Some(e),
        None => match rate_fault(c) {
            Some(e) => Some(e),
            None => match grid_fault(grid_of(c)) {
                Some(e) => Some(ConfigError::Grid(e)),
                None => match envelope_fault(c) {
                    Some(e) => Some(e),
                    None => match gate_settings_fault(c) {
                        Some(e) => Some(e),
                        None => paper_fault(c),
                    },
                },
            },
        },
    }
}

/// A configuration as it is digested: without the place of its database.
pub open spec fn canonical_config(c: ConfigView) -> ConfigView {
    ConfigView { database: Seq::empty(), ..c }
}

/// A configuration snapshot: what it holds, and which of the layouts that
/// snapshots have had it has.
pub struct SnapshotPayload {
    pub config: Config,
    /// The digest that the snapshot names.
    pub content_sha256: Option<String>,
    /// Whether the snapshot names a standard quantity.
    pub names_standard_quantity: bool,
    /// Whether the snapshot names a probability of holding orders open.
    pub names_hold_open: bool,
}

/// The content of a snapshot.
#[verifier::ext_equal]
pub struct SnapshotPayloadView {
    pub config: ConfigView,
    pub content_sha256: Option<Seq<char>>,
    pub names_standard_quantity: bool,
    pub names_hold_open: bool,
}

impl View for SnapshotPayload {
    type V = SnapshotPayloadView;

    open spec fn view(&self) -> SnapshotPayloadView {
        SnapshotPayloadView {
            config: self.config@,
            content_sha256: self.content_sha256.deep_view(),
            names_standard_quantity: self.names_standard_quantity,
            names_hold_open: self.names_hold_open,
        }
    }
}

impl DeepView for SnapshotPayload {
    type V = SnapshotPayloadView;

    open spec fn deep_view(&self) -> SnapshotPayloadView {
        self@
    }
}

impl Value for SnapshotPayload {
    fn dup(&self) -> (r: Self) {
        SnapshotPayload {
            config: self.config.dup(),
            content_sha256: self.content_sha256.dup(),
            names_standard_quantity: self.names_standard_quantity,
            names_hold_open: self.names_hold_open,
        }
    }

    fn same(&self, other: &Self) -> (r: bool) {
        self.config.same(&other.config)
            && self.content_sha256.same(&other.content_sha256)
            && self.names_standard_quantity == other.names_standard_quantity
            && self.names_hold_open == other.names_hold_open
    }
}

/// The digest that a snapshot of a layout has to name: a layout without the
/// standard quantity is older, one without either still older.
pub open spec fn snapshot_digest(p: SnapshotPayloadView) -> Seq<char> {
    config_digest(
        p.config,
        p.names_standard_quantity,
        p.names_standard_quantity || p.names_hold_open,
    )
}

/// Why a snapshot is refused, if it is.
pub open spec fn snapshot_fault(p: SnapshotPayloadView) -> Option<ConfigError> {
    match config_fault(p.config) {
        Some(e) => Some(e),
        None => match p.content_sha256 {
            Some(named) => if named != snapshot_digest(p) {
                Some(ConfigError::ContentHash)
            } else {
                None
            },
            None => None,
        },
    }
}

impl SnapshotPayload {
    /// Checks the configuration and that it has the named digest.
    pub fn check(&self) -> (r: Result<(), ConfigError>)
        ensures
            r == (match snapshot_fault(self@) {
                Some(e) => Err::<(), ConfigError>(e),
                None => Ok::<(), ConfigError>(()),
            }),
    {
        match self.config.validate() {
            Ok(_) => {},
            Err(e) => {
                return Err(e);
            },
        }
        if let Some(named) = &self.content_sha256 {
            let actual = if self.names_standard_quantity {
                self.config.content_sha256()
            } else {
                self.config.legacy_content_sha256_without_standard_quantity(self.names_hold_open)
            };
            if !text_eq(named.as_str(), actual.as_str()) {
                return Err(ConfigError::ContentHash);
            }
        }
        Ok(())
    }
}

impl Config {
    /// The configuration of a snapshot.
    pub fn from_snapshot_payload(payload: &SnapshotPayload) -> (r: Result<Self, ConfigError>)
        ensures
            match snapshot_fault(payload@) {
                Some(e) => r is Err && r->Err_0 == e,
                None => r matches Ok(c) && c@ == payload@.config,
            },
    {
        match payload.check() {
            Ok(_) => Ok(payload.config.dup()),
            Err(e) => Err(e),
        }
    }

    /// The configuration as it is digested.
    pub fn canonical(&self) -> (r: Self)
        ensures
            r@ == canonical_config(self@),
    {
        let mut canonical = self.dup();
        canonical.database = String::new();
        canonical
    }

    /// The digest of the configuration, whatever database it names.
    pub fn content_sha256(&self) -> (r: String)
        ensures
            r@ == config_digest(self@, true, true),
            digest_shaped(r@),
    {
        digest_config(self, true, true)
    }

    /// The digest of the configuration in the layout from before orders could be
    /// held open.
    pub fn legacy_content_sha256_without_hold_open(&self) -> (r: String)
        ensures
            r@ == config_digest(self@, false, false),
            digest_shaped(r@),
    {
        digest_config(self, false, false)
    }

    /// The digest of the configuration in a layout from before there was a
    /// standard quantity.
    pub fn legacy_content_sha256_without_standard_quantity(&self, include_hold_open: bool) -> (r:
        String)
        ensures
            r@ == config_digest(self@, false, include_hold_open),
            digest_shaped(r@),
    {
        if !include_hold_open {
            return self.legacy_content_sha256_without_hold_open();
        }
        digest_config(self, false, true)
    }

    fn check_unit(&self) -> (r: Option<ConfigError>)
        ensures
            r == unit_fault(self@),
    {
        if is_blank(self.symbol.as_str()) {
            return Some(ConfigError::Symbol);
        }
        if !self.anchor_price.is_positive() || self.initial_cash.is_negative() {
            return Some(ConfigError::AnchorOrCash);
        }
        if !self.grid_ratio.is_positive() || !self.grid_ratio.below(&Decimal::unit()) {
            return Some(ConfigError::GridRatio);
        }
        if self.trade_levels < 1 || self.boundary_levels <= self.trade_levels {
            return Some(ConfigError::GridLevels);
        }
        if self.initial_position < 0 || self.initial_sellable < 0 || self.max_position < 0
            || self.min_base_position < 0 || self.lot_size <= 0 || self.max_position
            < self.initial_position {
            return Some(ConfigError::PositionLimits);
        }
        if self.standard_quantity > MAX_SHARE_QUANTITY || self.lot_size > MAX_SHARE_QUANTITY
            || self.initial_position > MAX_SHARE_QUANTITY || self.initial_sellable
            > MAX_SHARE_QUANTITY || self.max_position > MAX_SHARE_QUANTITY || self.min_base_position
            > MAX_SHARE_QUANTITY {
            return Some(ConfigError::ShareQuantities);
        }
        let quantity_mode = self.standard_quantity > 0;
        let budget_mode = self.standard_budget.is_positive();
        if self.standard_quantity < 0 || self.standard_budget.is_negative() || quantity_mode
            == budget_mode || (quantity_mode && self.standard_quantity % self.lot_size != 0) {
            return Some(ConfigError::MechanicalUnit);
        }
        if self.initial_sellable > self.initial_position || self.min_base_position
            > self.initial_position {
            return Some(ConfigError::SellableOrBase);
        }
        None
    }

    fn check_rates(&self) -> (r: Option<ConfigError>)
        ensures
            r == rate_fault(self@),
    {
        if self.hysteresis_ratio.is_negative() || Decimal::unit().below(&self.hysteresis_ratio) {
            return Some(ConfigError::Hysteresis);
        }
        if !is_small_rate(&self.commission_rate) {
            return Some(ConfigError::CommissionRate);
        }
        if self.minimum_commission.is_negative() {
            return Some(ConfigError::MinimumCommission);
        }
        if !is_small_rate(&self.sell_tax_rate) {
            return Some(ConfigError::SellTax);
        }
        if self.slippage_rate.is_negative() || !self.slippage_rate.below(&Decimal::unit()) {
            return Some(ConfigError::Slippage);
        }
        if self.price_scale > 8 {
            return Some(ConfigError::PriceScale);
        }
        None
    }

    fn largest_order(&self, price: Decimal, quantity: i64) -> (r: Option<Decimal>)
        ensures
            r == largest_order_cash(self@, price, quantity),
    {
        let adverse = match Decimal::unit().checked_add(self.slippage_rate) {
            Some(factor) => price.checked_mul(factor),
            None => None,
        };
        let notional = match adverse {
            Some(p) => p.checked_mul(Decimal::from_i64(quantity)),
            None => None,
        };
        match notional {
            None => None,
            Some(n) => match (
                n.checked_mul(self.commission_rate),
                n.checked_mul(self.sell_tax_rate),
            ) {
                (Some(commission), Some(tax)) => match n.checked_add(
                    commission.max(self.minimum_commission),
                ) {
                    Some(x) => x.checked_add(tax),
                    None => None,
                },
                _ => None,
            },
        }
    }

    fn check_envelope(&self, grid: &GridSpec) -> (r: Option<ConfigError>)
        requires
            *grid == grid_of(self@),
        ensures
            r == envelope_fault(self@),
    {
        if self.uses_fixed_quantity() {
            match self.standard_quantity.checked_mul(self.boundary_levels as i64) {
                None => Some(ConfigError::NumericRange),
                Some(quantity) => if quantity > MAX_SHARE_QUANTITY {
                    Some(ConfigError::GridQuantity)
                } else {
                    match grid.price(self.boundary_levels) {
                        Err(e) => Some(ConfigError::Grid(e)),
                        Ok(price) => if self.largest_order(price, quantity).is_none() {
                            Some(ConfigError::NumericRange)
                        } else {
                            None
                        },
                    }
                },
            }
        } else if self.standard_budget.checked_mul(
            Decimal::from_i64(self.boundary_levels as i64),
        ).is_none() {
            Some(ConfigError::NumericRange)
        } else {
            None
        }
    }

    fn check_inventory(&self, s: &CapitalInventorySettings) -> (r: Option<ConfigError>)
        ensures
            r == inventory_fault(self@, *s),
    {
        if s.minimum_free_cash.is_negative() || self.initial_cash.below(&s.minimum_free_cash)
            || s.target_position < self.min_base_position || s.target_position > self.max_position
            || s.target_position > MAX_SHARE_QUANTITY {
            return Some(ConfigError::Reserve);
        }
        if text_eq(self.gate.failure_mode.as_str(), "always_execute") {
            return Some(ConfigError::FailureFallback);
        }
        if s.deploy_initial_balance && (self.initial_position != 0 || self.initial_sellable != 0) {
            return Some(ConfigError::StartingPosition);
        }
        if s.deploy_initial_balance {
            return match self.initial_cash.checked_div(Decimal::from_i64(2)) {
                None => Some(ConfigError::NumericRange),
                Some(half) => if s.minimum_free_cash.below(&half) {
                    Some(ConfigError::RetainedCash)
                } else {
                    None
                },
            };
        }
        None
    }

    fn check_gate(&self) -> (r: Option<ConfigError>)
        ensures
            r == gate_settings_fault(self@),
    {
        let g = &self.gate;
        if g.alpha.is_negative() || Decimal::unit().below(&g.alpha) || g.probability.is_negative()
            || Decimal::unit().below(&g.probability) {
            return Some(ConfigError::GateShare);
        }
        let mode = g.failure_mode.as_str();
        if !text_eq(mode, "safe") && !text_eq(mode, "skip") && !text_eq(mode, "always_execute") {
            return Some(ConfigError::FailureMode);
        }
        if g.timeout_ms == 0 || g.timeout_ms > 60_000 {
            return Some(ConfigError::GateTimeout);
        }
        let aware = text_eq(g.kind.as_str(), "resource_aware");
        match &g.capital_inventory {
            Some(s) => if aware {
                self.check_inventory(s)
            } else {
                Some(ConfigError::UnexpectedInventory)
            },
            None => if aware {
                Some(ConfigError::MissingInventory)
            } else {
                None
            },
        }
    }

    fn check_paper(&self) -> (r: Option<ConfigError>)
        ensures
            r == paper_fault(self@),
    {
        if self.paper.reject_probability_bps > 10_000 || self.paper.partial_fill_bps > 10_000
            || self.paper.hold_open_probability_bps > 10_000 {
            return Some(ConfigError::Probabilities);
        }
        let policy = self.ambiguity_policy.as_str();
        if !text_eq(policy, "conservative") && !text_eq(policy, "skip") && !text_eq(
            policy,
            "lower_first",
        ) && !text_eq(policy, "upper_first") {
            return Some(ConfigError::AmbiguityPolicy);
        }
        None
    }

    /// Checks a configuration.
    pub fn validate(&self) -> (r: Result<(), ConfigError>)
        ensures
            r == (match config_fault(self@) {
                Some(e) => Err::<(), ConfigError>(e),
                None => Ok::<(), ConfigError>(()),
            }),
    {
        if let Some(e) = self.check_unit() {
            return Err(e);
        }
        if let Some(e) = self.check_rates() {
            return Err(e);
        }
        let grid = GridSpec::from(self);
        if let Err(e) = grid.validate() {
            return Err(ConfigError::Grid(e));
        }
        if let Some(e) = self.check_envelope(&grid) {
            return Err(e);
        }
        if let Some(e) = self.check_gate() {
            return Err(e);
        }
        if let Some(e) = self.check_paper() {
            return Err(e);
        }
        Ok(())
    }

    /// The decimal of a text, where it is one.
    pub fn checked_decimal(value: &str) -> (r: Option<Decimal>)
        ensures
            r == from_parts(read_decimal(value@)),
    {
        if Decimal::parse(value).is_some() {
            Some(Self::decimal(value))
        } else {
            None
        }
    }

    /// The decimal of a text that is known to be one.
    pub fn decimal(value: &str) -> (r: Decimal)
        requires
            read_decimal(value@) is Some,
        ensures
            Some(r) == from_parts(read_decimal(value@)),
    {
        match Decimal::parse(value) {
            Some(d) => d,
            None => Decimal::nil(),
        }
    }

    /// Whether the run counts in shares.
    pub fn uses_fixed_quantity(&self) -> (r: bool)
        ensures
            r == (self@.standard_quantity > 0),
    {
        self.standard_quantity > 0
    }
}

/// A valid configuration that counts in shares does so in whole lots, and all
/// levels of its grid together stay within the largest quantity.
pub proof fn law_valid_config_is_bounded(c: ConfigView)
    requires
        config_fault(c) is None,
        c.standard_quantity > 0,
    ensures
        c.standard_quantity as int % c.lot_size as int == 0,
        c.standard_budget.units() <= 0,
        c.standard_quantity * c.boundary_levels <= MAX_SHARE_QUANTITY,
        grid_fault(grid_of(c)) is None,
{
}

} // verus!

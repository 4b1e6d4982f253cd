//! Grid rights and the tranches that back them.
use crate::clock::Moment;
use crate::decimal::Decimal;
use crate::model::market::Direction;
use crate::value::Value;
use vstd::prelude::*;

verus! {

/// Where a grid right stands in its life.
#[derive(Clone, Copy, Debug, PartialEq, Eq, Structural)]
pub enum GridRightStatus {
    Granted,
    Residual,
    Deferred,
    Reserved,
    PartiallyExercised,
    Exercised,
    Released,
    Transferred,
    Blocked,
    Expired,
    Revoked,
}

impl DeepView for GridRightStatus {
    type V = GridRightStatus;

    open spec fn deep_view(&self) -> GridRightStatus {
        *self
    }
}

impl View for GridRightStatus {
    type V = GridRightStatus;

    open spec fn view(&self) -> GridRightStatus {
        *self
    }
}

impl Value for GridRightStatus {
    fn dup(&self) -> (r: Self) {
        *self
    }

    fn same(&self, other: &Self) -> (r: bool) {
        *self == *other
    }
}

/// What a tranche is counted in.
#[derive(Clone, Copy, Debug, PartialEq, Eq, Structural)]
pub enum RightTrancheUnit {
    Budget,
    Quantity,
}

impl DeepView for RightTrancheUnit {
    type V = RightTrancheUnit;

    open spec fn deep_view(&self) -> RightTrancheUnit {
        *self
    }
}

impl View for RightTrancheUnit {
    type V = RightTrancheUnit;

    open spec fn view(&self) -> RightTrancheUnit {
        *self
    }
}

impl Value for RightTrancheUnit {
    fn dup(&self) -> (r: Self) {
        *self
    }

    fn same(&self, other: &Self) -> (r: bool) {
        *self == *other
    }
}

/// The capacity that a right shows to the algorithm.
pub struct GridRightCapacity {
    pub mechanical_budget_cap: Decimal,
    pub deployed_budget: Decimal,
    pub available_budget: Decimal,
    pub mechanical_quantity_cap: i64,
    pub deployed_quantity: i64,
    pub available_quantity: i64,
    pub eligible_quantity: i64,
    pub eligible_lot_ids: Vec<String>,
    pub accumulated_grid_indices: Vec<i32>,
    pub t_plus_one_blocked_quantity: i64,
    pub t_plus_one_blocked_lot_ids: Vec<String>,
    pub risk_blocked_quantity: i64,
    pub risk_blocked_lot_ids: Vec<String>,
    pub no_profit_blocked_quantity: i64,
    pub no_profit_blocked_lot_ids: Vec<String>,
    pub source_right_ids: Vec<String>,
    pub carried_in_budget: Decimal,
    pub carried_in_quantity: i64,
    /// The tranches whose balances make up the capacity.
    pub tranche_ids: Vec<String>,
}

/// The content of [`GridRightCapacity`].
#[verifier::ext_equal]
pub struct GridRightCapacityView {
    pub mechanical_budget_cap: Decimal,
    pub deployed_budget: Decimal,
    pub available_budget: Decimal,
    pub mechanical_quantity_cap: i64,
    pub deployed_quantity: i64,
    pub available_quantity: i64,
    pub eligible_quantity: i64,
    pub eligible_lot_ids: Seq<Seq<char>>,
    pub accumulated_grid_indices: Seq<i32>,
    pub t_plus_one_blocked_quantity: i64,
    pub t_plus_one_blocked_lot_ids: Seq<Seq<char>>,
    pub risk_blocked_quantity: i64,
    pub risk_blocked_lot_ids: Seq<Seq<char>>,
    pub no_profit_blocked_quantity: i64,
    pub no_profit_blocked_lot_ids: Seq<Seq<char>>,
    pub source_right_ids: Seq<Seq<char>>,
    pub carried_in_budget: Decimal,
    pub carried_in_quantity: i64,
    pub tranche_ids: Seq<Seq<char>>,
}

impl DeepView for GridRightCapacity {
    type V = GridRightCapacityView;

    open spec fn deep_view(&self) -> GridRightCapacityView {
        GridRightCapacityView {
            mechanical_budget_cap: self.mechanical_budget_cap,
            deployed_budget: self.deployed_budget,
            available_budget: self.available_budget,
            mechanical_quantity_cap: self.mechanical_quantity_cap,
            deployed_quantity: self.deployed_quantity,
            available_quantity: self.available_quantity,
            eligible_quantity: self.eligible_quantity,
            eligible_lot_ids: self.eligible_lot_ids.deep_view(),
            accumulated_grid_indices: self.accumulated_grid_indices.deep_view(),
            t_plus_one_blocked_quantity: self.t_plus_one_blocked_quantity,
            t_plus_one_blocked_lot_ids: self.t_plus_one_blocked_lot_ids.deep_view(),
            risk_blocked_quantity: self.risk_blocked_quantity,
            risk_blocked_lot_ids: self.risk_blocked_lot_ids.deep_view(),
            no_profit_blocked_quantity: self.no_profit_blocked_quantity,
            no_profit_blocked_lot_ids: self.no_profit_blocked_lot_ids.deep_view(),
            source_right_ids: self.source_right_ids.deep_view(),
            carried_in_budget: self.carried_in_budget,
            carried_in_quantity: self.carried_in_quantity,
            tranche_ids: self.tranche_ids.deep_view(),
        }
    }
}

impl View for GridRightCapacity {
    type V = GridRightCapacityView;

    open spec fn view(&self) -> GridRightCapacityView {
        self.deep_view()
    }
}

impl Value for GridRightCapacity {
    fn dup(&self) -> (r: Self) {
        GridRightCapacity {
            mechanical_budget_cap: self.mechanical_budget_cap,
            deployed_budget: self.deployed_budget,
            available_budget: self.available_budget,
            mechanical_quantity_cap: self.mechanical_quantity_cap,
            deployed_quantity: self.deployed_quantity,
            available_quantity: self.available_quantity,
            eligible_quantity: self.eligible_quantity,
            eligible_lot_ids: self.eligible_lot_ids.dup(),
            accumulated_grid_indices: self.accumulated_grid_indices.dup(),
            t_plus_one_blocked_quantity: self.t_plus_one_blocked_quantity,
            t_plus_one_blocked_lot_ids: self.t_plus_one_blocked_lot_ids.dup(),
            risk_blocked_quantity: self.risk_blocked_quantity,
            risk_blocked_lot_ids: self.risk_blocked_lot_ids.dup(),
            no_profit_blocked_quantity: self.no_profit_blocked_quantity,
            no_profit_blocked_lot_ids: self.no_profit_blocked_lot_ids.dup(),
            source_right_ids: self.source_right_ids.dup(),
            carried_in_budget: self.carried_in_budget,
            carried_in_quantity: self.carried_in_quantity,
            tranche_ids: self.tranche_ids.dup(),
        }
    }

    fn same(&self, other: &Self) -> (r: bool) {
        self.mechanical_budget_cap.same(&other.mechanical_budget_cap)
            && self.deployed_budget.same(&other.deployed_budget)
            && self.available_budget.same(&other.available_budget)
            && self.mechanical_quantity_cap == other.mechanical_quantity_cap
            && self.deployed_quantity == other.deployed_quantity
            && self.available_quantity == other.available_quantity
            && self.eligible_quantity == other.eligible_quantity
            && self.eligible_lot_ids.same(&other.eligible_lot_ids)
            && self.accumulated_grid_indices.same(&other.accumulated_grid_indices)
            && self.t_plus_one_blocked_quantity == other.t_plus_one_blocked_quantity
            && self.t_plus_one_blocked_lot_ids.same(&other.t_plus_one_blocked_lot_ids)
            && self.risk_blocked_quantity == other.risk_blocked_quantity
            && self.risk_blocked_lot_ids.same(&other.risk_blocked_lot_ids)
            && self.no_profit_blocked_quantity == other.no_profit_blocked_quantity
            && self.no_profit_blocked_lot_ids.same(&other.no_profit_blocked_lot_ids)
            && self.source_right_ids.same(&other.source_right_ids)
            && self.carried_in_budget.same(&other.carried_in_budget)
            && self.carried_in_quantity == other.carried_in_quantity
            && self.tranche_ids.same(&other.tranche_ids)
    }
}

impl Clone for GridRightCapacity {
    fn clone(&self) -> (r: Self)
        ensures
            r@ == self@,
    {
        self.dup()
    }
}

/// Whether both agree, decimals by value.
pub open spec fn grid_right_capacity_alike(a: GridRightCapacityView, b: GridRightCapacityView) -> bool {
    &&& a.mechanical_budget_cap.units() == b.mechanical_budget_cap.units()
    &&& a.deployed_budget.units() == b.deployed_budget.units()
    &&& a.available_budget.units() == b.available_budget.units()
    &&& a.mechanical_quantity_cap == b.mechanical_quantity_cap
    &&& a.deployed_quantity == b.deployed_quantity
    &&& a.available_quantity == b.available_quantity
    &&& a.eligible_quantity == b.eligible_quantity
    &&& a.eligible_lot_ids == b.eligible_lot_ids
    &&& a.accumulated_grid_indices == b.accumulated_grid_indices
    &&& a.t_plus_one_blocked_quantity == b.t_plus_one_blocked_quantity
    &&& a.t_plus_one_blocked_lot_ids == b.t_plus_one_blocked_lot_ids
    &&& a.risk_blocked_quantity == b.risk_blocked_quantity
    &&& a.risk_blocked_lot_ids == b.risk_blocked_lot_ids
    &&& a.no_profit_blocked_quantity == b.no_profit_blocked_quantity
    &&& a.no_profit_blocked_lot_ids == b.no_profit_blocked_lot_ids
    &&& a.source_right_ids == b.source_right_ids
    &&& a.carried_in_budget.units() == b.carried_in_budget.units()
    &&& a.carried_in_quantity == b.carried_in_quantity
    &&& a.tranche_ids == b.tranche_ids
}

impl GridRightCapacity {
    /// Whether both agree, decimals by value.
    pub fn alike(&self, other: &Self) -> (r: bool)
        ensures
            r == grid_right_capacity_alike(self@, other@),
    {
        self.mechanical_budget_cap.equals(&other.mechanical_budget_cap)
            && self.deployed_budget.equals(&other.deployed_budget)
            && self.available_budget.equals(&other.available_budget)
            && self.mechanical_quantity_cap == other.mechanical_quantity_cap
            && self.deployed_quantity == other.deployed_quantity
            && self.available_quantity == other.available_quantity
            && self.eligible_quantity == other.eligible_quantity
            && self.eligible_lot_ids.same(&other.eligible_lot_ids)
            && self.accumulated_grid_indices.same(&other.accumulated_grid_indices)
            && self.t_plus_one_blocked_quantity == other.t_plus_one_blocked_quantity
            && self.t_plus_one_blocked_lot_ids.same(&other.t_plus_one_blocked_lot_ids)
            && self.risk_blocked_quantity == other.risk_blocked_quantity
            && self.risk_blocked_lot_ids.same(&other.risk_blocked_lot_ids)
            && self.no_profit_blocked_quantity == other.no_profit_blocked_quantity
            && self.no_profit_blocked_lot_ids.same(&other.no_profit_blocked_lot_ids)
            && self.source_right_ids.same(&other.source_right_ids)
            && self.carried_in_budget.equals(&other.carried_in_budget)
            && self.carried_in_quantity == other.carried_in_quantity
            && self.tranche_ids.same(&other.tranche_ids)
    }
}

/// One slice of authority minted by a grid crossing. What was minted is at all
/// times the sum of the five disposition accounts.
pub struct RightTranche {
    pub tranche_id: String,
    pub cycle_id: String,
    pub excursion_epoch: String,
    pub direction: Direction,
    pub birth_grid_index: i32,
    pub unit: RightTrancheUnit,
    pub owner_right_id: String,
    pub lot_id: Option<String>,
    pub minted_budget: Decimal,
    pub available_budget: Decimal,
    pub reserved_budget: Decimal,
    pub consumed_budget: Decimal,
    pub revoked_budget: Decimal,
    pub expired_budget: Decimal,
    pub minted_quantity: i64,
    pub available_quantity: i64,
    pub reserved_quantity: i64,
    pub consumed_quantity: i64,
    pub revoked_quantity: i64,
    pub expired_quantity: i64,
}

/// The content of [`RightTranche`].
#[verifier::ext_equal]
pub struct RightTrancheView {
    pub tranche_id: Seq<char>,
    pub cycle_id: Seq<char>,
    pub excursion_epoch: Seq<char>,
    pub direction: Direction,
    pub birth_grid_index: i32,
    pub unit: RightTrancheUnit,
    pub owner_right_id: Seq<char>,
    pub lot_id: Option<Seq<char>>,
    pub minted_budget: Decimal,
    pub available_budget: Decimal,
    pub reserved_budget: Decimal,
    pub consumed_budget: Decimal,
    pub revoked_budget: Decimal,
    pub expired_budget: Decimal,
    pub minted_quantity: i64,
    pub available_quantity: i64,
    pub reserved_quantity: i64,
    pub consumed_quantity: i64,
    pub revoked_quantity: i64,
    pub expired_quantity: i64,
}

impl DeepView for RightTranche {
    type V = RightTrancheView;

    open spec fn deep_view(&self) -> RightTrancheView {
        RightTrancheView {
            tranche_id: self.tranche_id.deep_view(),
            cycle_id: self.cycle_id.deep_view(),
            excursion_epoch: self.excursion_epoch.deep_view(),
            direction: self.direction,
            birth_grid_index: self.birth_grid_index,
            unit: self.unit,
            owner_right_id: self.owner_right_id.deep_view(),
            lot_id: self.lot_id.deep_view(),
            minted_budget: self.minted_budget,
            available_budget: self.available_budget,
            reserved_budget: self.reserved_budget,
            consumed_budget: self.consumed_budget,
            revoked_budget: self.revoked_budget,
            expired_budget: self.expired_budget,
            minted_quantity: self.minted_quantity,
            available_quantity: self.available_quantity,
            reserved_quantity: self.reserved_quantity,
            consumed_quantity: self.consumed_quantity,
            revoked_quantity: self.revoked_quantity,
            expired_quantity: self.expired_quantity,
        }
    }
}

impl View for RightTranche {
    type V = RightTrancheView;

    open spec fn view(&self) -> RightTrancheView {
        self.deep_view()
    }
}

impl Value for RightTranche {
    fn dup(&self) -> (r: Self) {
        RightTranche {
            tranche_id: self.tranche_id.dup(),
            cycle_id: self.cycle_id.dup(),
            excursion_epoch: self.excursion_epoch.dup(),
            direction: self.direction,
            birth_grid_index: self.birth_grid_index,
            unit: self.unit,
            owner_right_id: self.owner_right_id.dup(),
            lot_id: self.lot_id.dup(),
            minted_budget: self.minted_budget,
            available_budget: self.available_budget,
            reserved_budget: self.reserved_budget,
            consumed_budget: self.consumed_budget,
            revoked_budget: self.revoked_budget,
            expired_budget: self.expired_budget,
            minted_quantity: self.minted_quantity,
            available_quantity: self.available_quantity,
            reserved_quantity: self.reserved_quantity,
            consumed_quantity: self.consumed_quantity,
            revoked_quantity: self.revoked_quantity,
            expired_quantity: self.expired_quantity,
        }
    }

    fn same(&self, other: &Self) -> (r: bool) {
        self.tranche_id.same(&other.tranche_id)
            && self.cycle_id.same(&other.cycle_id)
            && self.excursion_epoch.same(&other.excursion_epoch)
            && self.direction == other.direction
            && self.birth_grid_index == other.birth_grid_index
            && self.unit == other.unit
            && self.owner_right_id.same(&other.owner_right_id)
            && self.lot_id.same(&other.lot_id)
            && self.minted_budget.same(&other.minted_budget)
            && self.available_budget.same(&other.available_budget)
            && self.reserved_budget.same(&other.reserved_budget)
            && self.consumed_budget.same(&other.consumed_budget)
            && self.revoked_budget.same(&other.revoked_budget)
            && self.expired_budget.same(&other.expired_budget)
            && self.minted_quantity == other.minted_quantity
            && self.available_quantity == other.available_quantity
            && self.reserved_quantity == other.reserved_quantity
            && self.consumed_quantity == other.consumed_quantity
            && self.revoked_quantity == other.revoked_quantity
            && self.expired_quantity == other.expired_quantity
    }
}

impl Clone for RightTranche {
    fn clone(&self) -> (r: Self)
        ensures
            r@ == self@,
    {
        self.dup()
    }
}

/// Whether both agree, decimals by value.
pub open spec fn right_tranche_alike(a: RightTrancheView, b: RightTrancheView) -> bool {
    &&& a.tranche_id == b.tranche_id
    &&& a.cycle_id == b.cycle_id
    &&& a.excursion_epoch == b.excursion_epoch
    &&& a.direction == b.direction
    &&& a.birth_grid_index == b.birth_grid_index
    &&& a.unit == b.unit
    &&& a.owner_right_id == b.owner_right_id
    &&& a.lot_id == b.lot_id
    &&& a.minted_budget.units() == b.minted_budget.units()
    &&& a.available_budget.units() == b.available_budget.units()
    &&& a.reserved_budget.units() == b.reserved_budget.units()
    &&& a.consumed_budget.units() == b.consumed_budget.units()
    &&& a.revoked_budget.units() == b.revoked_budget.units()
    &&& a.expired_budget.units() == b.expired_budget.units()
    &&& a.minted_quantity == b.minted_quantity
    &&& a.available_quantity == b.available_quantity
    &&& a.reserved_quantity == b.reserved_quantity
    &&& a.consumed_quantity == b.consumed_quantity
    &&& a.revoked_quantity == b.revoked_quantity
    &&& a.expired_quantity == b.expired_quantity
}

impl RightTranche {
    /// Whether both agree, decimals by value.
    pub fn alike(&self, other: &Self) -> (r: bool)
        ensures
            r == right_tranche_alike(self@, other@),
    {
        self.tranche_id.same(&other.tranche_id)
            && self.cycle_id.same(&other.cycle_id)
            && self.excursion_epoch.same(&other.excursion_epoch)
            && self.direction == other.direction
            && self.birth_grid_index == other.birth_grid_index
            && self.unit == other.unit
            && self.owner_right_id.same(&other.owner_right_id)
            && self.lot_id.same(&other.lot_id)
            && self.minted_budget.equals(&other.minted_budget)
            && self.available_budget.equals(&other.available_budget)
            && self.reserved_budget.equals(&other.reserved_budget)
            && self.consumed_budget.equals(&other.consumed_budget)
            && self.revoked_budget.equals(&other.revoked_budget)
            && self.expired_budget.equals(&other.expired_budget)
            && self.minted_quantity == other.minted_quantity
            && self.available_quantity == other.available_quantity
            && self.reserved_quantity == other.reserved_quantity
            && self.consumed_quantity == other.consumed_quantity
            && self.revoked_quantity == other.revoked_quantity
            && self.expired_quantity == other.expired_quantity
    }
}

/// A right to trade at a grid level.
pub struct GridRight {
    pub right_id: String,
    pub cycle_id: String,
    pub symbol: String,
    pub direction: Direction,
    pub grid_index: i32,
    pub grid_price: Decimal,
    pub granted_at: Moment,
    pub capacity: GridRightCapacity,
    pub status: GridRightStatus,
    pub decision_id: Option<String>,
    pub reserved_budget: Decimal,
    pub reserved_quantity: i64,
    pub exercised_budget: Decimal,
    pub exercised_quantity: i64,
    pub decision_contract_version: u32,
    pub decision_gross_available_quantity: i64,
    pub decision_platform_residual_quantity: i64,
    pub decision_algorithm_authorized_quantity: i64,
    /// What the algorithm was offered after the resource caps.
    pub decision_algorithm_offered_quantity: i64,
    /// What the resource caps removed before the algorithm.
    pub decision_pre_blocked_quantity: i64,
    pub decided_exercise_quantity: i64,
    pub decided_defer_quantity: i64,
    pub decision_platform_blocked_quantity: i64,
    /// What was refused after the algorithm chose to exercise it.
    pub decision_post_blocked_quantity: i64,
    pub decision_intent_quantity: i64,
    pub decision_remaining_quantity: i64,
    pub decision_is_algorithm: bool,
    pub decision_recorded: bool,
}

/// The content of [`GridRight`].
#[verifier::ext_equal]
pub struct GridRightView {
    pub right_id: Seq<char>,
    pub cycle_id: Seq<char>,
    pub symbol: Seq<char>,
    pub direction: Direction,
    pub grid_index: i32,
    pub grid_price: Decimal,
    pub granted_at: Moment,
    pub capacity: GridRightCapacityView,
    pub status: GridRightStatus,
    pub decision_id: Option<Seq<char>>,
    pub reserved_budget: Decimal,
    pub reserved_quantity: i64,
    pub exercised_budget: Decimal,
    pub exercised_quantity: i64,
    pub decision_contract_version: u32,
    pub decision_gross_available_quantity: i64,
    pub decision_platform_residual_quantity: i64,
    pub decision_algorithm_authorized_quantity: i64,
    pub decision_algorithm_offered_quantity: i64,
    pub decision_pre_blocked_quantity: i64,
    pub decided_exercise_quantity: i64,
    pub decided_defer_quantity: i64,
    pub decision_platform_blocked_quantity: i64,
    pub decision_post_blocked_quantity: i64,
    pub decision_intent_quantity: i64,
    pub decision_remaining_quantity: i64,
    pub decision_is_algorithm: bool,
    pub decision_recorded: bool,
}

impl DeepView for GridRight {
    type V = GridRightView;

    open spec fn deep_view(&self) -> GridRightView {
        GridRightView {
            right_id: self.right_id.deep_view(),
            cycle_id: self.cycle_id.deep_view(),
            symbol: self.symbol.deep_view(),
            direction: self.direction,
            grid_index: self.grid_index,
            grid_price: self.grid_price,
            granted_at: self.granted_at,
            capacity: self.capacity.deep_view(),
            status: self.status,
            decision_id: self.decision_id.deep_view(),
            reserved_budget: self.reserved_budget,
            reserved_quantity: self.reserved_quantity,
            exercised_budget: self.exercised_budget,
            exercised_quantity: self.exercised_quantity,
            decision_contract_version: self.decision_contract_version,
            decision_gross_available_quantity: self.decision_gross_available_quantity,
            decision_platform_residual_quantity: self.decision_platform_residual_quantity,
            decision_algorithm_authorized_quantity: self.decision_algorithm_authorized_quantity,
            decision_algorithm_offered_quantity: self.decision_algorithm_offered_quantity,
            decision_pre_blocked_quantity: self.decision_pre_blocked_quantity,
            decided_exercise_quantity: self.decided_exercise_quantity,
            decided_defer_quantity: self.decided_defer_quantity,
            decision_platform_blocked_quantity: self.decision_platform_blocked_quantity,
            decision_post_blocked_quantity: self.decision_post_blocked_quantity,
            decision_intent_quantity: self.decision_intent_quantity,
            decision_remaining_quantity: self.decision_remaining_quantity,
            decision_is_algorithm: self.decision_is_algorithm,
            decision_recorded: self.decision_recorded,
        }
    }
}

impl View for GridRight {
    type V = GridRightView;

    open spec fn view(&self) -> GridRightView {
        self.deep_view()
    }
}

impl Value for GridRight {
    fn dup(&self) -> (r: Self) {
        GridRight {
            right_id: self.right_id.dup(),
            cycle_id: self.cycle_id.dup(),
            symbol: self.symbol.dup(),
            direction: self.direction,
            grid_index: self.grid_index,
            grid_price: self.grid_price,
            granted_at: self.granted_at,
            capacity: self.capacity.dup(),
            status: self.status,
            decision_id: self.decision_id.dup(),
            reserved_budget: self.reserved_budget,
            reserved_quantity: self.reserved_quantity,
            exercised_budget: self.exercised_budget,
            exercised_quantity: self.exercised_quantity,
            decision_contract_version: self.decision_contract_version,
            decision_gross_available_quantity: self.decision_gross_available_quantity,
            decision_platform_residual_quantity: self.decision_platform_residual_quantity,
            decision_algorithm_authorized_quantity: self.decision_algorithm_authorized_quantity,
            decision_algorithm_offered_quantity: self.decision_algorithm_offered_quantity,
            decision_pre_blocked_quantity: self.decision_pre_blocked_quantity,
            decided_exercise_quantity: self.decided_exercise_quantity,
            decided_defer_quantity: self.decided_defer_quantity,
            decision_platform_blocked_quantity: self.decision_platform_blocked_quantity,
            decision_post_blocked_quantity: self.decision_post_blocked_quantity,
            decision_intent_quantity: self.decision_intent_quantity,
            decision_remaining_quantity: self.decision_remaining_quantity,
            decision_is_algorithm: self.decision_is_algorithm,
            decision_recorded: self.decision_recorded,
        }
    }

    fn same(&self, other: &Self) -> (r: bool) {
        self.right_id.same(&other.right_id)
            && self.cycle_id.same(&other.cycle_id)
            && self.symbol.same(&other.symbol)
            && self.direction == other.direction
            && self.grid_index == other.grid_index
            && self.grid_price.same(&other.grid_price)
            && self.granted_at.same(&other.granted_at)
            && self.capacity.same(&other.capacity)
            && self.status == other.status
            && self.decision_id.same(&other.decision_id)
            && self.reserved_budget.same(&other.reserved_budget)
            && self.reserved_quantity == other.reserved_quantity
            && self.exercised_budget.same(&other.exercised_budget)
            && self.exercised_quantity == other.exercised_quantity
            && self.decision_contract_version == other.decision_contract_version
            && self.decision_gross_available_quantity == other.decision_gross_available_quantity
            && self.decision_platform_residual_quantity == other.decision_platform_residual_quantity
            && self.decision_algorithm_authorized_quantity == other.decision_algorithm_authorized_quantity
            && self.decision_algorithm_offered_quantity == other.decision_algorithm_offered_quantity
            && self.decision_pre_blocked_quantity == other.decision_pre_blocked_quantity
            && self.decided_exercise_quantity == other.decided_exercise_quantity
            && self.decided_defer_quantity == other.decided_defer_quantity
            && self.decision_platform_blocked_quantity == other.decision_platform_blocked_quantity
            && self.decision_post_blocked_quantity == other.decision_post_blocked_quantity
            && self.decision_intent_quantity == other.decision_intent_quantity
            && self.decision_remaining_quantity == other.decision_remaining_quantity
            && self.decision_is_algorithm == other.decision_is_algorithm
            && self.decision_recorded == other.decision_recorded
    }
}

impl Clone for GridRight {
    fn clone(&self) -> (r: Self)
        ensures
            r@ == self@,
    {
        self.dup()
    }
}

} // verus!

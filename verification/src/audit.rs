//! What has to hold between the parts of a state.
use crate::decimal::{plus, Decimal};
use crate::decision::{DECISION_CONTRACT_VERSION, WHOLE_UNIT_DECISION_CONTRACT_VERSION};
use crate::event::repeats::with_notes;
use crate::event::tranches::Tranches;
use crate::grid::{all_levels, grid_fault, grid_of, GridError, GridSpec};
use crate::model::ledger::{
    GridLevelState, StrategyState, StrategyStateView, TradingLotView,
};
use crate::model::market::Direction;
use crate::model::rights::{
    GridRight, GridRightStatus, GridRightView, RightTranche, RightTrancheUnit, RightTrancheView,
};
use crate::model::settings::ConfigView;
use crate::rights::tranche_in_order;
use crate::table::{holds_key, lookup};
use crate::text::text_eq;
use crate::value::Value;
use vstd::prelude::*;

verus! {

/// What does not hold.
#[derive(Clone, Copy, Debug, PartialEq, Eq, Structural)]
pub enum InvariantViolation {
    /// Cash or a position is negative, or more is sellable than there is.
    Account,
    /// A tranche is not in order.
    Tranche,
    /// The right that owns a tranche is missing.
    TrancheOwner,
    /// A tranche and its owner are of different cycles or sides.
    TrancheIdentity,
    /// The lot of a sell tranche is missing.
    TrancheLot,
    /// A right names a tranche that was not minted.
    UnmintedTranche,
    /// A right names a tranche of another cycle or side.
    ForeignTranche,
    /// A run that counts in shares has no audited configuration.
    MissingConfig,
    /// The mechanical unit is not the audited one, in whole lots.
    MechanicalUnit,
    /// The audited grid has no levels.
    Grid(GridError),
    /// The levels are not those of the audited grid.
    Levels,
    /// A buy tranche is not one unit.
    BuyUnit,
    /// A sum leaves its range.
    NumericRange,
    /// A depth has more than one live unit in a cycle.
    BuyDepth,
    /// An active right does not own what it can use.
    Ownership,
    /// A reserved right is not backed by its tranches.
    Backing,
    /// More of a lot may be sold than is left of it.
    SellAuthorization,
    /// A decision in units does not split its right.
    UnitPartition,
    /// A decision does not split its right.
    Partition,
    /// The realized profit is not that of the lots.
    RealizedProfit,
}

/// Whether cash and position are in order.
pub open spec fn account_in_order(s: StrategyStateView) -> bool {
    &&& s.cash.available.units() >= 0
    &&& s.cash.frozen.units() >= 0
    &&& s.cash.total_fees.units() >= 0
    &&& s.position.total >= 0
    &&& s.position.sellable >= 0
    &&& s.position.today_bought >= 0
    &&& s.position.frozen_sell >= 0
    &&& s.position.sellable + s.position.today_bought <= s.position.total
    &&& s.position.frozen_sell <= s.position.sellable
}

/// What does not hold of a tranche, if anything.
pub open spec fn tranche_fault(s: StrategyStateView, t: RightTrancheView) -> Option<
    InvariantViolation,
> {
    if !tranche_in_order(t) {
        Some(InvariantViolation::Tranche)
    } else {
        match lookup::<String, GridRightView>(s.grid_rights, t.owner_right_id) {
            None => Some(InvariantViolation::TrancheOwner),
            Some(owner) => if owner.cycle_id != t.cycle_id || owner.direction != t.direction {
                Some(InvariantViolation::TrancheIdentity)
            } else if t.direction == Direction::Sell && (t.lot_id is None || !holds_key::<
                String,
                TradingLotView,
            >(s.lots, t.lot_id->0)) {
                Some(InvariantViolation::TrancheLot)
            } else {
                None
            },
        }
    }
}

/// What does not hold of the first of `n` tranches of which something does not.
pub open spec fn tranches_fault(s: StrategyStateView, n: nat) -> Option<InvariantViolation>
    decreases n,
{
    if n == 0 {
        None
    } else {
        match tranches_fault(s, (n - 1) as nat) {
            Some(v) => Some(v),
            None => tranche_fault(s, s.right_tranches[n - 1].1),
        }
    }
}

/// What does not hold of the first `n` tranches that a right names, if anything.
pub open spec fn named_fault(s: StrategyStateView, right: GridRightView, n: nat) -> Option<
    InvariantViolation,
>
    decreases n,
{
    if n == 0 {
        None
    } else {
        match named_fault(s, right, (n - 1) as nat) {
            Some(v) => Some(v),
            None => match lookup::<String, RightTrancheView>(
                s.right_tranches,
                right.capacity.tranche_ids[n - 1],
            ) {
                None => Some(InvariantViolation::UnmintedTranche),
                Some(t) => if t.cycle_id != right.cycle_id || t.direction != right.direction {
                    Some(InvariantViolation::ForeignTranche)
                } else {
                    None
                },
            },
        }
    }
}

/// What does not hold of the tranches that the first `n` rights name.
pub open spec fn rights_fault(s: StrategyStateView, n: nat) -> Option<InvariantViolation>
    decreases n,
{
    if n == 0 {
        None
    } else {
        match rights_fault(s, (n - 1) as nat) {
            Some(v) => Some(v),
            None => {
                let right = s.grid_rights[n - 1].1;
                named_fault(s, right, right.capacity.tranche_ids.len())
            },
        }
    }
}

/// Whether the mechanical unit is the audited one.
pub open spec fn unit_audited(s: StrategyStateView, c: ConfigView) -> bool {
    &&& s.audited_lot_size > 0
    &&& s.audited_standard_quantity as int % s.audited_lot_size as int == 0
    &&& c.standard_quantity > 0
    &&& c.standard_quantity == s.audited_standard_quantity
    &&& c.lot_size == s.audited_lot_size
}

/// Whether a state has a level of the grid at its price.
pub open spec fn has_level(s: StrategyStateView, index: i32, level: GridLevelState) -> bool {
    &&& lookup::<i32, GridLevelState>(s.levels, index) matches Some(actual)
    &&& actual.index == level.index
    &&& actual.price.units() == level.price.units()
}

/// Whether the levels of a state are exactly those of a grid.
pub open spec fn levels_complete(s: StrategyStateView, grid: Seq<(i32, GridLevelState)>) -> bool {
    &&& s.levels.len() == grid.len()
    &&& forall|i: int| 0 <= i < grid.len() ==> has_level(s, (#[trigger] grid[i]).0, grid[i].1)
}

/// What does not hold of the unit and the levels, if anything.
pub open spec fn unit_fault(s: StrategyStateView) -> Option<InvariantViolation> {
    match s.audited_config {
        None => Some(InvariantViolation::MissingConfig),
        Some(c) => if !unit_audited(s, c) {
            Some(InvariantViolation::MechanicalUnit)
        } else if s.grid_cycle_active {
            match grid_fault(grid_of(c)) {
                Some(e) => Some(InvariantViolation::Grid(e)),
                None => if levels_complete(s, all_levels(grid_of(c))) {
                    None
                } else {
                    Some(InvariantViolation::Levels)
                },
            }
        } else {
            None
        },
    }
}

/// Whether a tranche is of shares to buy.
pub open spec fn buys_units(t: RightTrancheView) -> bool {
    t.direction == Direction::Buy && t.unit == RightTrancheUnit::Quantity
}

/// The shares of a tranche that are free, reserved or used.
pub open spec fn live_or_used(t: RightTrancheView) -> Option<i64> {
    match t.available_quantity.checked_add(t.reserved_quantity) {
        None => None,
        Some(x) => x.checked_add(t.consumed_quantity),
    }
}

/// The shares at a depth of a cycle in the first `n` tranches. Nothing where a
/// sum leaves its range.
pub open spec fn depth_total(tranches: Tranches, cycle: Seq<char>, index: i32, n: nat) -> Option<i64>
    decreases n,
{
    if n == 0 {
        Some(0i64)
    } else {
        let t = tranches[n - 1].1;
        match depth_total(tranches, cycle, index, (n - 1) as nat) {
            None => None,
            Some(sum) => if buys_units(t) && t.cycle_id == cycle && t.birth_grid_index == index {
                match live_or_used(t) {
                    None => None,
                    Some(q) => sum.checked_add(q),
                }
            } else {
                Some(sum)
            },
        }
    }
}

/// What does not hold of a buy tranche and of the depth that it adds to.
pub open spec fn buy_fault(s: StrategyStateView, i: int) -> Option<InvariantViolation> {
    let t = s.right_tranches[i].1;
    if !buys_units(t) {
        None
    } else if t.minted_quantity != s.audited_standard_quantity || t.lot_id is Some {
        Some(InvariantViolation::BuyUnit)
    } else if live_or_used(t) is None {
        Some(InvariantViolation::NumericRange)
    } else if depth_total(s.right_tranches, t.cycle_id, t.birth_grid_index, (i + 1) as nat) is None {
        Some(InvariantViolation::NumericRange)
    } else {
        None
    }
}

/// What does not hold of the first `n` tranches as buy tranches.
pub open spec fn buys_fault(s: StrategyStateView, n: nat) -> Option<InvariantViolation>
    decreases n,
{
    if n == 0 {
        None
    } else {
        match buys_fault(s, (n - 1) as nat) {
            Some(v) => Some(v),
            None => buy_fault(s, n - 1),
        }
    }
}

/// Whether the depth of a buy tranche has more than one unit.
pub open spec fn depth_exceeded(s: StrategyStateView, i: int) -> bool {
    let t = s.right_tranches[i].1;
    &&& buys_units(t)
    &&& depth_total(
        s.right_tranches,
        t.cycle_id,
        t.birth_grid_index,
        s.right_tranches.len(),
    ) matches Some(sum)
    &&& sum > s.audited_standard_quantity
}

/// Whether some depth has more than one unit.
pub open spec fn some_depth_exceeded(s: StrategyStateView) -> bool {
    exists|i: int| 0 <= i < s.right_tranches.len() && #[trigger] depth_exceeded(s, i)
}

/// Whether a right has handed its tranches on or lost them.
pub open spec fn gave_up(status: GridRightStatus) -> bool {
    status == GridRightStatus::Transferred || status == GridRightStatus::Expired || status
        == GridRightStatus::Revoked
}

/// Whether a right names a live tranche that another right owns.
pub open spec fn names_foreign(s: StrategyStateView, right: GridRightView, i: int) -> bool {
    &&& lookup::<String, RightTrancheView>(
        s.right_tranches,
        right.capacity.tranche_ids[i],
    ) matches Some(t)
    &&& t.available_quantity > 0 || t.reserved_quantity > 0
    &&& t.owner_right_id != right.right_id
}

/// Whether a right lacks a live tranche that it names.
pub open spec fn lacks_ownership(s: StrategyStateView, right: GridRightView) -> bool {
    !gave_up(right.status) && exists|i: int|
        0 <= i < right.capacity.tranche_ids.len() && #[trigger] names_foreign(s, right, i)
}

/// The shares that the first `n` tranches hold reserved for a right. Nothing
/// where the sum leaves its range.
pub open spec fn backing_total(tranches: Tranches, right_id: Seq<char>, n: nat) -> Option<i64>
    decreases n,
{
    if n == 0 {
        Some(0i64)
    } else {
        let t = tranches[n - 1].1;
        match backing_total(tranches, right_id, (n - 1) as nat) {
            None => None,
            Some(sum) => if t.owner_right_id == right_id {
                sum.checked_add(t.reserved_quantity)
            } else {
                Some(sum)
            },
        }
    }
}

/// What does not hold of a right and the tranches behind it, if anything.
pub open spec fn right_fault(s: StrategyStateView, right: GridRightView) -> Option<
    InvariantViolation,
> {
    if lacks_ownership(s, right) {
        Some(InvariantViolation::Ownership)
    } else if right.status == GridRightStatus::Reserved {
        match backing_total(s.right_tranches, right.right_id, s.right_tranches.len()) {
            None => Some(InvariantViolation::NumericRange),
            Some(sum) => if sum != right.reserved_quantity {
                Some(InvariantViolation::Backing)
            } else {
                None
            },
        }
    } else {
        None
    }
}

/// What does not hold of the first `n` rights and the tranches behind them.
pub open spec fn backed_fault(s: StrategyStateView, n: nat) -> Option<InvariantViolation>
    decreases n,
{
    if n == 0 {
        None
    } else {
        match backed_fault(s, (n - 1) as nat) {
            Some(v) => Some(v),
            None => right_fault(s, s.grid_rights[n - 1].1),
        }
    }
}

/// What does not hold of a run that counts in shares, if anything.
pub open spec fn shares_fault(s: StrategyStateView) -> Option<InvariantViolation> {
    match unit_fault(s) {
        Some(v) => Some(v),
        None => match buys_fault(s, s.right_tranches.len()) {
            Some(v) => Some(v),
            None => if some_depth_exceeded(s) {
                Some(InvariantViolation::BuyDepth)
            } else {
                backed_fault(s, s.grid_rights.len())
            },
        },
    }
}

/// Whether a tranche is of shares to sell from a lot.
pub open spec fn sells_units(t: RightTrancheView) -> bool {
    t.direction == Direction::Sell && t.unit == RightTrancheUnit::Quantity
}

/// The shares of a lot that the first `n` tranches may sell. Nothing where a sum
/// leaves its range.
pub open spec fn lot_total(tranches: Tranches, lot: Option<Seq<char>>, n: nat) -> Option<i64>
    decreases n,
{
    if n == 0 {
        Some(0i64)
    } else {
        let t = tranches[n - 1].1;
        match lot_total(tranches, lot, (n - 1) as nat) {
            None => None,
            Some(sum) => if sells_units(t) && t.lot_id == lot {
                match t.available_quantity.checked_add(t.reserved_quantity) {
                    None => None,
                    Some(q) => sum.checked_add(q),
                }
            } else {
                Some(sum)
            },
        }
    }
}

/// Whether the sums up to a sell tranche leave their range.
pub open spec fn sell_overflows(s: StrategyStateView, i: int) -> bool {
    let t = s.right_tranches[i].1;
    sells_units(t) && lot_total(s.right_tranches, t.lot_id, (i + 1) as nat) is None
}

/// Whether more of the lot of a tranche may be sold than is left.
pub open spec fn oversold(s: StrategyStateView, i: int) -> bool {
    let t = s.right_tranches[i].1;
    &&& sells_units(t)
    &&& t.lot_id matches Some(id)
    &&& lot_total(s.right_tranches, t.lot_id, s.right_tranches.len()) matches Some(sum)
    &&& lookup::<String, TradingLotView>(s.lots, id) matches Some(lot)
    &&& sum > lot.remaining_quantity
}

/// What does not hold of what may be sold, if anything.
pub open spec fn sell_fault(s: StrategyStateView) -> Option<InvariantViolation> {
    if exists|i: int| 0 <= i < s.right_tranches.len() && #[trigger] sell_overflows(s, i) {
        Some(InvariantViolation::NumericRange)
    } else if exists|i: int| 0 <= i < s.right_tranches.len() && #[trigger] oversold(s, i) {
        Some(InvariantViolation::SellAuthorization)
    } else {
        None
    }
}

/// Whether a number is a whole number of units.
pub open spec fn divides(q: i64, unit: i64) -> bool {
    q.checked_rem(unit) == Some(0i64)
}

/// What a decision in units was made on and led to.
pub struct DecidedShares {
    pub offered: i64,
    pub pre_blocked: i64,
    pub post_blocked: i64,
}

/// What a decision in units was made on and led to.
pub open spec fn decided_shares(right: GridRightView) -> DecidedShares {
    if right.decision_contract_version >= DECISION_CONTRACT_VERSION {
        DecidedShares {
            offered: right.decision_algorithm_offered_quantity,
            pre_blocked: right.decision_pre_blocked_quantity,
            post_blocked: right.decision_post_blocked_quantity,
        }
    } else {
        DecidedShares {
            offered: right.decision_algorithm_authorized_quantity,
            pre_blocked: 0,
            post_blocked: right.decision_platform_blocked_quantity,
        }
    }
}

/// What a right authorizes.
pub open spec fn authorization(right: GridRightView) -> i64 {
    if right.direction == Direction::Buy {
        right.capacity.available_quantity
    } else {
        right.capacity.eligible_quantity
    }
}

/// Whether a decision in units splits its right: the authorization is whole
/// units and a remainder, and every unit is traded, kept or blocked.
pub open spec fn splits_in_units(right: GridRightView, residual: i64, unit: i64) -> bool {
    let x = decided_shares(right);
    let authorized = authorization(right) - residual;
    &&& right.decision_gross_available_quantity == authorization(right)
    &&& right.decision_platform_residual_quantity == residual
    &&& right.decision_algorithm_authorized_quantity == authorized
    &&& x.offered >= 0
    &&& x.pre_blocked >= 0
    &&& x.post_blocked >= 0
    &&& x.offered + x.pre_blocked == authorized
    &&& right.decided_exercise_quantity >= 0
    &&& right.decided_defer_quantity >= 0
    &&& right.decided_exercise_quantity + right.decided_defer_quantity == x.offered
    &&& divides(right.decided_exercise_quantity, unit)
    &&& divides(right.decided_defer_quantity, unit)
    &&& right.decision_platform_blocked_quantity >= 0
    &&& right.decision_intent_quantity >= 0
    &&& right.decision_remaining_quantity >= 0
    &&& right.decision_intent_quantity + x.post_blocked == right.decided_exercise_quantity
    &&& x.pre_blocked + x.post_blocked == right.decision_platform_blocked_quantity
    &&& right.decided_defer_quantity + right.decision_platform_blocked_quantity
        == right.decision_remaining_quantity
    &&& divides(right.decision_platform_blocked_quantity, unit)
    &&& divides(x.offered, unit)
    &&& divides(x.pre_blocked, unit)
    &&& divides(x.post_blocked, unit)
    &&& divides(right.decision_intent_quantity, unit)
    &&& divides(right.decision_remaining_quantity, unit)
}

/// Whether a decision of an algorithm splits its right in whole lots.
pub open spec fn splits_in_lots(s: StrategyStateView, right: GridRightView) -> bool {
    &&& right.decided_exercise_quantity >= 0
    &&& right.decided_defer_quantity >= 0
    &&& right.decided_exercise_quantity + right.decided_defer_quantity == authorization(right)
    &&& s.audited_lot_size > 0 ==> {
        &&& divides(right.decided_exercise_quantity, s.audited_lot_size)
        &&& divides(right.decided_defer_quantity, s.audited_lot_size)
    }
}

/// What does not hold of the decision on a right, if anything.
pub open spec fn decision_fault(s: StrategyStateView, right: GridRightView) -> Option<
    InvariantViolation,
> {
    if !right.decision_recorded {
        None
    } else if right.decision_contract_version >= WHOLE_UNIT_DECISION_CONTRACT_VERSION {
        match authorization(right).checked_rem(s.audited_standard_quantity) {
            None => Some(InvariantViolation::MechanicalUnit),
            Some(residual) => if splits_in_units(right, residual, s.audited_standard_quantity) {
                None
            } else {
                Some(InvariantViolation::UnitPartition)
            },
        }
    } else if right.decision_is_algorithm && !splits_in_lots(s, right) {
        Some(InvariantViolation::Partition)
    } else {
        None
    }
}

/// What does not hold of the decisions on the first `n` rights.
pub open spec fn decisions_fault(s: StrategyStateView, n: nat) -> Option<InvariantViolation>
    decreases n,
{
    if n == 0 {
        None
    } else {
        match decisions_fault(s, (n - 1) as nat) {
            Some(v) => Some(v),
            None => decision_fault(s, s.grid_rights[n - 1].1),
        }
    }
}

/// The realized profit of the first `n` lots.
pub open spec fn lots_realized(lots: Seq<(Seq<char>, TradingLotView)>, n: nat) -> Option<Decimal>
    decreases n,
{
    if n == 0 {
        Some(Decimal::zero())
    } else {
        match lots_realized(lots, (n - 1) as nat) {
            None => None,
            Some(sum) => plus(sum, lots[n - 1].1.realized_pnl),
        }
    }
}

/// What does not hold of the realized profit, if anything.
pub open spec fn profit_fault(s: StrategyStateView) -> Option<InvariantViolation> {
    match lots_realized(s.lots, s.lots.len()) {
        None => Some(InvariantViolation::NumericRange),
        Some(sum) => if sum.units() != s.realized_pnl.units() {
            Some(InvariantViolation::RealizedProfit)
        } else {
            None
        },
    }
}

/// What does not hold of a state, if anything: the first violation counts.
pub open spec fn first_violation(s: StrategyStateView) -> Option<InvariantViolation> {
    if !account_in_order(s) {
        Some(InvariantViolation::Account)
    } else {
        match tranches_fault(s, s.right_tranches.len()) {
            Some(v) => Some(v),
            None => match rights_fault(s, s.grid_rights.len()) {
                Some(v) => Some(v),
                None => {
                    let shares = if s.audited_standard_quantity > 0 {
                        shares_fault(s)
                    } else {
                        None
                    };
                    match shares {
                        Some(v) => Some(v),
                        None => match sell_fault(s) {
                            Some(v) => Some(v),
                            None => match decisions_fault(s, s.grid_rights.len()) {
                                Some(v) => Some(v),
                                None => profit_fault(s),
                            },
                        },
                    }
                },
            },
        }
    }
}

fn does_divide(q: i64, unit: i64) -> (r: bool)
    ensures
        r == divides(q, unit),
{
    match q.checked_rem(unit) {
        Some(x) => x == 0,
        None => false,
    }
}

fn adds_to(a: i64, b: i64, c: i64) -> (r: bool)
    ensures
        r == (a + b == c),
{
    match a.checked_add(b) {
        Some(sum) => sum == c,
        None => false,
    }
}

fn live_or_used_of(t: &RightTranche) -> (r: Option<i64>)
    ensures
        r == live_or_used(t@),
{
    match t.available_quantity.checked_add(t.reserved_quantity) {
        None => None,
        Some(x) => x.checked_add(t.consumed_quantity),
    }
}

impl GridRight {
    fn authorizes(&self) -> (r: i64)
        ensures
            r == authorization(self@),
    {
        match self.direction {
            Direction::Buy => self.capacity.available_quantity,
            Direction::Sell => self.capacity.eligible_quantity,
        }
    }

    fn does_split_in_units(&self, residual: i64, unit: i64) -> (r: bool)
        ensures
            r == splits_in_units(self@, residual, unit),
    {
        let (offered, pre_blocked, post_blocked): (i64, i64, i64) = if self.decision_contract_version
            >= DECISION_CONTRACT_VERSION {
            (
                self.decision_algorithm_offered_quantity,
                self.decision_pre_blocked_quantity,
                self.decision_post_blocked_quantity,
            )
        } else {
            (
                self.decision_algorithm_authorized_quantity,
                0,
                self.decision_platform_blocked_quantity,
            )
        };
        let authorized: i64 = self.decision_algorithm_authorized_quantity;
        let whole = adds_to(authorized, residual, self.authorizes());
        self.decision_gross_available_quantity == self.authorizes()
            && self.decision_platform_residual_quantity == residual && whole && offered >= 0
            && pre_blocked >= 0 && post_blocked >= 0 && adds_to(offered, pre_blocked, authorized)
            && self.decided_exercise_quantity >= 0 && self.decided_defer_quantity >= 0 && adds_to(
            self.decided_exercise_quantity,
            self.decided_defer_quantity,
            offered,
        ) && does_divide(self.decided_exercise_quantity, unit) && does_divide(
            self.decided_defer_quantity,
            unit,
        ) && self.decision_platform_blocked_quantity >= 0 && self.decision_intent_quantity >= 0
            && self.decision_remaining_quantity >= 0 && adds_to(
            self.decision_intent_quantity,
            post_blocked,
            self.decided_exercise_quantity,
        ) && adds_to(pre_blocked, post_blocked, self.decision_platform_blocked_quantity) && adds_to(
            self.decided_defer_quantity,
            self.decision_platform_blocked_quantity,
            self.decision_remaining_quantity,
        ) && does_divide(self.decision_platform_blocked_quantity, unit) && does_divide(
            offered,
            unit,
        ) && does_divide(pre_blocked, unit) && does_divide(post_blocked, unit) && does_divide(
            self.decision_intent_quantity,
            unit,
        ) && does_divide(self.decision_remaining_quantity, unit)
    }
}

proof fn lemma_tranches_fault_stays(s: StrategyStateView, n: nat, m: nat)
    requires
        n <= m,
        tranches_fault(s, n) is Some,
    ensures
        tranches_fault(s, m) == tranches_fault(s, n),
    decreases m - n,
{
    if n < m {
        lemma_tranches_fault_stays(s, n, (m - 1) as nat);
    }
}

proof fn lemma_named_fault_stays(s: StrategyStateView, right: GridRightView, n: nat, m: nat)
    requires
        n <= m,
        named_fault(s, right, n) is Some,
    ensures
        named_fault(s, right, m) == named_fault(s, right, n),
    decreases m - n,
{
    if n < m {
        lemma_named_fault_stays(s, right, n, (m - 1) as nat);
    }
}

proof fn lemma_rights_fault_stays(s: StrategyStateView, n: nat, m: nat)
    requires
        n <= m,
        rights_fault(s, n) is Some,
    ensures
        rights_fault(s, m) == rights_fault(s, n),
    decreases m - n,
{
    if n < m {
        lemma_rights_fault_stays(s, n, (m - 1) as nat);
    }
}

proof fn lemma_buys_fault_stays(s: StrategyStateView, n: nat, m: nat)
    requires
        n <= m,
        buys_fault(s, n) is Some,
    ensures
        buys_fault(s, m) == buys_fault(s, n),
    decreases m - n,
{
    if n < m {
        lemma_buys_fault_stays(s, n, (m - 1) as nat);
    }
}

proof fn lemma_backed_fault_stays(s: StrategyStateView, n: nat, m: nat)
    requires
        n <= m,
        backed_fault(s, n) is Some,
    ensures
        backed_fault(s, m) == backed_fault(s, n),
    decreases m - n,
{
    if n < m {
        lemma_backed_fault_stays(s, n, (m - 1) as nat);
    }
}

proof fn lemma_decisions_fault_stays(s: StrategyStateView, n: nat, m: nat)
    requires
        n <= m,
        decisions_fault(s, n) is Some,
    ensures
        decisions_fault(s, m) == decisions_fault(s, n),
    decreases m - n,
{
    if n < m {
        lemma_decisions_fault_stays(s, n, (m - 1) as nat);
    }
}

proof fn lemma_depth_stops(tranches: Tranches, cycle: Seq<char>, index: i32, n: nat, m: nat)
    requires
        n <= m,
        depth_total(tranches, cycle, index, n) is None,
    ensures
        depth_total(tranches, cycle, index, m) is None,
    decreases m - n,
{
    if n < m {
        lemma_depth_stops(tranches, cycle, index, n, (m - 1) as nat);
    }
}

proof fn lemma_backing_stops(tranches: Tranches, right_id: Seq<char>, n: nat, m: nat)
    requires
        n <= m,
        backing_total(tranches, right_id, n) is None,
    ensures
        backing_total(tranches, right_id, m) is None,
    decreases m - n,
{
    if n < m {
        lemma_backing_stops(tranches, right_id, n, (m - 1) as nat);
    }
}

proof fn lemma_lot_stops(tranches: Tranches, lot: Option<Seq<char>>, n: nat, m: nat)
    requires
        n <= m,
        lot_total(tranches, lot, n) is None,
    ensures
        lot_total(tranches, lot, m) is None,
    decreases m - n,
{
    if n < m {
        lemma_lot_stops(tranches, lot, n, (m - 1) as nat);
    }
}

proof fn lemma_realized_stops(lots: Seq<(Seq<char>, TradingLotView)>, n: nat, m: nat)
    requires
        n <= m,
        lots_realized(lots, n) is None,
    ensures
        lots_realized(lots, m) is None,
    decreases m - n,
{
    if n < m {
        lemma_realized_stops(lots, n, (m - 1) as nat);
    }
}

impl StrategyState {
    fn account_is_in_order(&self) -> (r: bool)
        ensures
            r == account_in_order(self@),
    {
        let held = match self.position.sellable.checked_add(self.position.today_bought) {
            Some(q) => q <= self.position.total,
            None => false,
        };
        !self.cash.available.is_negative() && !self.cash.frozen.is_negative()
            && !self.cash.total_fees.is_negative() && self.position.total >= 0
            && self.position.sellable >= 0 && self.position.today_bought >= 0
            && self.position.frozen_sell >= 0 && held && self.position.frozen_sell
            <= self.position.sellable
    }

    fn check_tranche(&self, t: &RightTranche) -> (r: Option<InvariantViolation>)
        ensures
            r == tranche_fault(self@, t@),
    {
        if t.validate().is_err() {
            return Some(InvariantViolation::Tranche);
        }
        match self.grid_rights.get(&t.owner_right_id) {
            None => Some(InvariantViolation::TrancheOwner),
            Some(owner) => {
                if !text_eq(owner.cycle_id.as_str(), t.cycle_id.as_str()) || owner.direction
                    != t.direction {
                    return Some(InvariantViolation::TrancheIdentity);
                }
                if matches!(t.direction, Direction::Sell) {
                    let known = match &t.lot_id {
                        Some(lot) => self.lots.contains(lot),
                        None => false,
                    };
                    if !known {
                        return Some(InvariantViolation::TrancheLot);
                    }
                }
                None
            },
        }
    }

    fn check_tranches(&self) -> (r: Option<InvariantViolation>)
        ensures
            r == tranches_fault(self@, self@.right_tranches.len()),
    {
        let ghost all = self@.right_tranches;
        let mut i: usize = 0;
        while i < self.right_tranches.len()
            invariant
                i <= all.len(),
                all == self@.right_tranches,
                all == self.right_tranches@,
                tranches_fault(self@, i as nat) is None,
            decreases all.len() - i,
        {
            let t = self.right_tranches.value_at(i);
            assert(t@ == all[i as int].1);
            if let Some(v) = self.check_tranche(t) {
                proof {
                    lemma_tranches_fault_stays(self@, (i + 1) as nat, all.len());
                }
                return Some(v);
            }
            i = i + 1;
        }
        None
    }

    fn check_named(&self, right: &GridRight) -> (r: Option<InvariantViolation>)
        ensures
            r == named_fault(self@, right@, right@.capacity.tranche_ids.len()),
    {
        let ids = &right.capacity.tranche_ids;
        let ghost list = ids.deep_view();
        let mut i: usize = 0;
        while i < ids.len()
            invariant
                i <= ids.len(),
                list == ids.deep_view(),
                list == right@.capacity.tranche_ids,
                named_fault(self@, right@, i as nat) is None,
            decreases ids.len() - i,
        {
            assert(list[i as int] == ids[i as int]@);
            let fault = match self.right_tranches.get(&ids[i]) {
                None => Some(InvariantViolation::UnmintedTranche),
                Some(t) => if !text_eq(t.cycle_id.as_str(), right.cycle_id.as_str()) || t.direction
                    != right.direction {
                    Some(InvariantViolation::ForeignTranche)
                } else {
                    None
                },
            };
            if let Some(v) = fault {
                proof {
                    lemma_named_fault_stays(self@, right@, (i + 1) as nat, list.len());
                }
                return Some(v);
            }
            i = i + 1;
        }
        None
    }

    fn check_rights(&self) -> (r: Option<InvariantViolation>)
        ensures
            r == rights_fault(self@, self@.grid_rights.len()),
    {
        let ghost all = self@.grid_rights;
        let mut i: usize = 0;
        while i < self.grid_rights.len()
            invariant
                i <= all.len(),
                all == self@.grid_rights,
                all == self.grid_rights@,
                rights_fault(self@, i as nat) is None,
            decreases all.len() - i,
        {
            let right = self.grid_rights.value_at(i);
            assert(right@ == all[i as int].1);
            if let Some(v) = self.check_named(right) {
                proof {
                    lemma_rights_fault_stays(self@, (i + 1) as nat, all.len());
                }
                return Some(v);
            }
            i = i + 1;
        }
        None
    }

    fn levels_are_complete(&self, grid: &crate::table::Table<i32, GridLevelState>) -> (r: bool)
        ensures
            r == levels_complete(self@, grid@),
    {
        if self.levels.len() != grid.len() {
            return false;
        }
        let mut i: usize = 0;
        while i < grid.len()
            invariant
                i <= grid@.len(),
                self@.levels.len() == grid@.len(),
                forall|j: int|
                    0 <= j < i ==> has_level(self@, (#[trigger] grid@[j]).0, grid@[j].1),
            decreases grid@.len() - i,
        {
            let index: i32 = *grid.key_at(i);
            let level = grid.value_at(i);
            let present = match self.levels.get(&index) {
                Some(actual) => actual.index == level.index && actual.price.equals(&level.price),
                None => false,
            };
            if !present {
                assert(!has_level(self@, grid@[i as int].0, grid@[i as int].1));
                return false;
            }
            i = i + 1;
        }
        true
    }

    fn check_unit(&self) -> (r: Option<InvariantViolation>)
        requires
            self@.audited_standard_quantity > 0,
        ensures
            r == unit_fault(self@),
    {
        let config = match &self.audited_config {
            Some(c) => c,
            None => {
                return Some(InvariantViolation::MissingConfig);
            },
        };
        if self.audited_lot_size <= 0 || self.audited_standard_quantity % self.audited_lot_size != 0
            || config.standard_quantity <= 0 || config.standard_quantity
            != self.audited_standard_quantity || config.lot_size != self.audited_lot_size {
            return Some(InvariantViolation::MechanicalUnit);
        }
        if self.grid_cycle_active {
            match GridSpec::from(config).levels() {
                Err(e) => Some(InvariantViolation::Grid(e)),
                Ok(grid) => if self.levels_are_complete(&grid) {
                    None
                } else {
                    Some(InvariantViolation::Levels)
                },
            }
        } else {
            None
        }
    }

    fn depth_sum(&self, cycle: &str, index: i32, n: usize) -> (r: Option<i64>)
        requires
            n <= self@.right_tranches.len(),
        ensures
            r == depth_total(self@.right_tranches, cycle@, index, n as nat),
    {
        let ghost all = self@.right_tranches;
        let mut sum: i64 = 0;
        let mut i: usize = 0;
        while i < n
            invariant
                i <= n <= all.len(),
                all == self@.right_tranches,
                all == self.right_tranches@,
                depth_total(all, cycle@, index, i as nat) == Some(sum),
            decreases n - i,
        {
            let t = self.right_tranches.value_at(i);
            assert(t@ == all[i as int].1);
            if matches!(t.direction, Direction::Buy) && matches!(t.unit, RightTrancheUnit::Quantity)
                && text_eq(t.cycle_id.as_str(), cycle) && t.birth_grid_index == index {
                let next: Option<i64> = match live_or_used_of(t) {
                    Some(q) => sum.checked_add(q),
                    None => None,
                };
                match next {
                    Some(x) => {
                        sum = x;
                    },
                    None => {
                        proof {
                            lemma_depth_stops(all, cycle@, index, (i + 1) as nat, n as nat);
                        }
                        return None;
                    },
                }
            }
            i = i + 1;
        }
        Some(sum)
    }

    fn check_buys(&self) -> (r: Option<InvariantViolation>)
        ensures
            r == buys_fault(self@, self@.right_tranches.len()),
    {
        let ghost all = self@.right_tranches;
        let mut i: usize = 0;
        while i < self.right_tranches.len()
            invariant
                i <= all.len(),
                all == self@.right_tranches,
                all == self.right_tranches@,
                buys_fault(self@, i as nat) is None,
            decreases all.len() - i,
        {
            let t = self.right_tranches.value_at(i);
            assert(t@ == all[i as int].1);
            let fault = if !matches!(t.direction, Direction::Buy) || !matches!(
                t.unit,
                RightTrancheUnit::Quantity
            ) {
                None
            } else if t.minted_quantity != self.audited_standard_quantity || t.lot_id.is_some() {
                Some(InvariantViolation::BuyUnit)
            } else if live_or_used_of(t).is_none() {
                Some(InvariantViolation::NumericRange)
            } else if self.depth_sum(t.cycle_id.as_str(), t.birth_grid_index, i + 1).is_none() {
                Some(InvariantViolation::NumericRange)
            } else {
                None
            };
            assert(fault == buy_fault(self@, i as int));
            if let Some(v) = fault {
                proof {
                    lemma_buys_fault_stays(self@, (i + 1) as nat, all.len());
                }
                return Some(v);
            }
            i = i + 1;
        }
        None
    }

    fn exceeds_some_depth(&self) -> (r: bool)
        ensures
            r == some_depth_exceeded(self@),
    {
        let ghost all = self@.right_tranches;
        let mut i: usize = 0;
        while i < self.right_tranches.len()
            invariant
                i <= all.len(),
                all == self@.right_tranches,
                all == self.right_tranches@,
                forall|j: int| 0 <= j < i ==> !(#[trigger] depth_exceeded(self@, j)),
            decreases all.len() - i,
        {
            let t = self.right_tranches.value_at(i);
            assert(t@ == all[i as int].1);
            if matches!(t.direction, Direction::Buy) && matches!(t.unit, RightTrancheUnit::Quantity) {
                let exceeded = match self.depth_sum(
                    t.cycle_id.as_str(),
                    t.birth_grid_index,
                    self.right_tranches.len(),
                ) {
                    Some(sum) => sum > self.audited_standard_quantity,
                    None => false,
                };
                assert(exceeded == depth_exceeded(self@, i as int));
                if exceeded {
                    return true;
                }
            }
            i = i + 1;
        }
        false
    }

    fn right_lacks_ownership(&self, right: &GridRight) -> (r: bool)
        ensures
            r == lacks_ownership(self@, right@),
    {
        if matches!(
            right.status,
            GridRightStatus::Transferred | GridRightStatus::Expired | GridRightStatus::Revoked
        ) {
            return false;
        }
        let ids = &right.capacity.tranche_ids;
        let ghost list = ids.deep_view();
        let mut i: usize = 0;
        while i < ids.len()
            invariant
                i <= ids.len(),
                list == ids.deep_view(),
                list == right@.capacity.tranche_ids,
                !gave_up(right@.status),
                forall|j: int| 0 <= j < i ==> !(#[trigger] names_foreign(self@, right@, j)),
            decreases ids.len() - i,
        {
            assert(list[i as int] == ids[i as int]@);
            let foreign = match self.right_tranches.get(&ids[i]) {
                Some(t) => (t.available_quantity > 0 || t.reserved_quantity > 0) && !text_eq(
                    t.owner_right_id.as_str(),
                    right.right_id.as_str(),
                ),
                None => false,
            };
            assert(foreign == names_foreign(self@, right@, i as int));
            if foreign {
                return true;
            }
            i = i + 1;
        }
        false
    }

    fn backing_sum(&self, right_id: &str) -> (r: Option<i64>)
        ensures
            r == backing_total(self@.right_tranches, right_id@, self@.right_tranches.len()),
    {
        let ghost all = self@.right_tranches;
        let mut sum: i64 = 0;
        let mut i: usize = 0;
        while i < self.right_tranches.len()
            invariant
                i <= all.len(),
                all == self@.right_tranches,
                all == self.right_tranches@,
                backing_total(all, right_id@, i as nat) == Some(sum),
            decreases all.len() - i,
        {
            let t = self.right_tranches.value_at(i);
            assert(t@ == all[i as int].1);
            if text_eq(t.owner_right_id.as_str(), right_id) {
                match sum.checked_add(t.reserved_quantity) {
                    Some(x) => {
                        sum = x;
                    },
                    None => {
                        proof {
                            lemma_backing_stops(all, right_id@, (i + 1) as nat, all.len());
                        }
                        return None;
                    },
                }
            }
            i = i + 1;
        }
        Some(sum)
    }

    fn check_backed(&self) -> (r: Option<InvariantViolation>)
        ensures
            r == backed_fault(self@, self@.grid_rights.len()),
    {
        let ghost all = self@.grid_rights;
        let mut i: usize = 0;
        while i < self.grid_rights.len()
            invariant
                i <= all.len(),
                all == self@.grid_rights,
                all == self.grid_rights@,
                backed_fault(self@, i as nat) is None,
            decreases all.len() - i,
        {
            let right = self.grid_rights.value_at(i);
            assert(right@ == all[i as int].1);
            let fault = if self.right_lacks_ownership(right) {
                Some(InvariantViolation::Ownership)
            } else if matches!(right.status, GridRightStatus::Reserved) {
                match self.backing_sum(right.right_id.as_str()) {
                    None => Some(InvariantViolation::NumericRange),
                    Some(sum) => if sum != right.reserved_quantity {
                        Some(InvariantViolation::Backing)
                    } else {
                        None
                    },
                }
            } else {
                None
            };
            if let Some(v) = fault {
                proof {
                    lemma_backed_fault_stays(self@, (i + 1) as nat, all.len());
                }
                return Some(v);
            }
            i = i + 1;
        }
        None
    }

    fn check_shares(&self) -> (r: Option<InvariantViolation>)
        requires
            self@.audited_standard_quantity > 0,
        ensures
            r == shares_fault(self@),
    {
        if let Some(v) = self.check_unit() {
            return Some(v);
        }
        if let Some(v) = self.check_buys() {
            return Some(v);
        }
        if self.exceeds_some_depth() {
            return Some(InvariantViolation::BuyDepth);
        }
        self.check_backed()
    }

    fn lot_sum(&self, lot: &Option<String>, n: usize) -> (r: Option<i64>)
        requires
            n <= self@.right_tranches.len(),
        ensures
            r == lot_total(self@.right_tranches, lot.deep_view(), n as nat),
    {
        let ghost all = self@.right_tranches;
        let mut sum: i64 = 0;
        let mut i: usize = 0;
        while i < n
            invariant
                i <= n <= all.len(),
                all == self@.right_tranches,
                all == self.right_tranches@,
                lot_total(all, lot.deep_view(), i as nat) == Some(sum),
            decreases n - i,
        {
            let t = self.right_tranches.value_at(i);
            assert(t@ == all[i as int].1);
            if matches!(t.direction, Direction::Sell) && matches!(
                t.unit,
                RightTrancheUnit::Quantity
            ) && t.lot_id.same(lot) {
                let next: Option<i64> = match t.available_quantity.checked_add(
                    t.reserved_quantity,
                ) {
                    Some(q) => sum.checked_add(q),
                    None => None,
                };
                match next {
                    Some(x) => {
                        sum = x;
                    },
                    None => {
                        proof {
                            lemma_lot_stops(all, lot.deep_view(), (i + 1) as nat, n as nat);
                        }
                        return None;
                    },
                }
            }
            i = i + 1;
        }
        Some(sum)
    }

    fn check_sells(&self) -> (r: Option<InvariantViolation>)
        ensures
            r == sell_fault(self@),
    {
        let ghost all = self@.right_tranches;
        let mut i: usize = 0;
        while i < self.right_tranches.len()
            invariant
                i <= all.len(),
                all == self@.right_tranches,
                all == self.right_tranches@,
                forall|j: int| 0 <= j < i ==> !(#[trigger] sell_overflows(self@, j)),
            decreases all.len() - i,
        {
            let t = self.right_tranches.value_at(i);
            assert(t@ == all[i as int].1);
            let overflows = matches!(t.direction, Direction::Sell) && matches!(
                t.unit,
                RightTrancheUnit::Quantity
            ) && self.lot_sum(&t.lot_id, i + 1).is_none();
            assert(overflows == sell_overflows(self@, i as int));
            if overflows {
                return Some(InvariantViolation::NumericRange);
            }
            i = i + 1;
        }
        let mut k: usize = 0;
        while k < self.right_tranches.len()
            invariant
                k <= all.len(),
                all == self@.right_tranches,
                all == self.right_tranches@,
                forall|j: int| 0 <= j < all.len() ==> !(#[trigger] sell_overflows(self@, j)),
                forall|j: int| 0 <= j < k ==> !(#[trigger] oversold(self@, j)),
            decreases all.len() - k,
        {
            let t = self.right_tranches.value_at(k);
            assert(t@ == all[k as int].1);
            let sells = matches!(t.direction, Direction::Sell) && matches!(
                t.unit,
                RightTrancheUnit::Quantity
            );
            let over = match &t.lot_id {
                Some(id) => match (
                    self.lot_sum(&t.lot_id, self.right_tranches.len()),
                    self.lots.get(id),
                ) {
                    (Some(sum), Some(lot)) => sells && sum > lot.remaining_quantity,
                    _ => false,
                },
                None => false,
            };
            assert(over == oversold(self@, k as int));
            if over {
                return Some(InvariantViolation::SellAuthorization);
            }
            k = k + 1;
        }
        None
    }

    fn right_splits_in_lots(&self, right: &GridRight) -> (r: bool)
        ensures
            r == splits_in_lots(self@, right@),
    {
        right.decided_exercise_quantity >= 0 && right.decided_defer_quantity >= 0 && adds_to(
            right.decided_exercise_quantity,
            right.decided_defer_quantity,
            right.authorizes(),
        ) && (self.audited_lot_size <= 0 || (does_divide(
            right.decided_exercise_quantity,
            self.audited_lot_size,
        ) && does_divide(right.decided_defer_quantity, self.audited_lot_size)))
    }

    fn check_decision(&self, right: &GridRight) -> (r: Option<InvariantViolation>)
        ensures
            r == decision_fault(self@, right@),
    {
        if !right.decision_recorded {
            return None;
        }
        if right.decision_contract_version >= WHOLE_UNIT_DECISION_CONTRACT_VERSION {
            match right.authorizes().checked_rem(self.audited_standard_quantity) {
                None => Some(InvariantViolation::MechanicalUnit),
                Some(residual) => if right.does_split_in_units(
                    residual,
                    self.audited_standard_quantity,
                ) {
                    None
                } else {
                    Some(InvariantViolation::UnitPartition)
                },
            }
        } else if right.decision_is_algorithm && !self.right_splits_in_lots(right) {
            Some(InvariantViolation::Partition)
        } else {
            None
        }
    }

    fn check_decisions(&self) -> (r: Option<InvariantViolation>)
        ensures
            r == decisions_fault(self@, self@.grid_rights.len()),
    {
        let ghost all = self@.grid_rights;
        let mut i: usize = 0;
        while i < self.grid_rights.len()
            invariant
                i <= all.len(),
                all == self@.grid_rights,
                all == self.grid_rights@,
                decisions_fault(self@, i as nat) is None,
            decreases all.len() - i,
        {
            let right = self.grid_rights.value_at(i);
            assert(right@ == all[i as int].1);
            if let Some(v) = self.check_decision(right) {
                proof {
                    lemma_decisions_fault_stays(self@, (i + 1) as nat, all.len());
                }
                return Some(v);
            }
            i = i + 1;
        }
        None
    }

    fn check_profit(&self) -> (r: Option<InvariantViolation>)
        ensures
            r == profit_fault(self@),
    {
        let ghost all = self@.lots;
        let mut sum = Decimal::nil();
        let mut i: usize = 0;
        while i < self.lots.len()
            invariant
                i <= all.len(),
                all == self@.lots,
                all == self.lots@,
                lots_realized(all, i as nat) == Some(sum),
            decreases all.len() - i,
        {
            let lot = self.lots.value_at(i);
            assert(lot@ == all[i as int].1);
            match sum.checked_add(lot.realized_pnl) {
                Some(x) => {
                    sum = x;
                },
                None => {
                    proof {
                        lemma_realized_stops(all, (i + 1) as nat, all.len());
                    }
                    return Some(InvariantViolation::NumericRange);
                },
            }
            i = i + 1;
        }
        if !sum.equals(&self.realized_pnl) {
            return Some(InvariantViolation::RealizedProfit);
        }
        None
    }

    /// Checks what has to hold between the parts of the state.
    pub fn validate_invariants(&self) -> (r: Result<(), InvariantViolation>)
        ensures
            r == (match first_violation(self@) {
                Some(v) => Err::<(), InvariantViolation>(v),
                None => Ok::<(), InvariantViolation>(()),
            }),
    {
        if !self.account_is_in_order() {
            return Err(InvariantViolation::Account);
        }
        if let Some(v) = self.check_tranches() {
            return Err(v);
        }
        if let Some(v) = self.check_rights() {
            return Err(v);
        }
        if self.audited_standard_quantity > 0 {
            if let Some(v) = self.check_shares() {
                return Err(v);
            }
        }
        if let Some(v) = self.check_sells() {
            return Err(v);
        }
        if let Some(v) = self.check_decisions() {
            return Err(v);
        }
        if let Some(v) = self.check_profit() {
            return Err(v);
        }
        Ok(())
    }
}

/// A new run with nothing negative violates nothing.
pub proof fn law_fresh_runs_are_in_order(
    run_id: Seq<char>,
    cycle_id: Seq<char>,
    symbol: Seq<char>,
    anchor: Decimal,
    cash: Decimal,
    position: i64,
    sellable: i64,
)
    requires
        cash.units() >= 0,
        0 <= sellable <= position,
    ensures
        first_violation(
            crate::account::fresh_state(
                run_id,
                cycle_id,
                symbol,
                anchor,
                cash,
                position,
                sellable,
            ),
        ) is None,
{
    broadcast use crate::decimal::lemma_of_parts;

    crate::decimal::lemma_units_sign(Decimal::zero());
}

proof fn lemma_lists_unnoted(s: StrategyStateView, t: StrategyStateView, n: nat)
    requires
        t == with_notes(s, t.duplicate_events, t.last_reconciliation_event_sequence),
    ensures
        tranches_fault(s, n) == tranches_fault(t, n),
        rights_fault(s, n) == rights_fault(t, n),
        buys_fault(s, n) == buys_fault(t, n),
        backed_fault(s, n) == backed_fault(t, n),
        decisions_fault(s, n) == decisions_fault(t, n),
    decreases n,
{
    if n > 0 {
        lemma_lists_unnoted(s, t, (n - 1) as nat);
        let right = s.grid_rights[n - 1].1;
        lemma_named_unnoted(s, t, right, right.capacity.tranche_ids.len());
        lemma_ownership_unnoted(s, t, right);
    }
}

proof fn lemma_named_unnoted(
    s: StrategyStateView,
    t: StrategyStateView,
    right: GridRightView,
    n: nat,
)
    requires
        t == with_notes(s, t.duplicate_events, t.last_reconciliation_event_sequence),
    ensures
        named_fault(s, right, n) == named_fault(t, right, n),
    decreases n,
{
    if n > 0 {
        lemma_named_unnoted(s, t, right, (n - 1) as nat);
    }
}

proof fn lemma_ownership_unnoted(s: StrategyStateView, t: StrategyStateView, right: GridRightView)
    requires
        t == with_notes(s, t.duplicate_events, t.last_reconciliation_event_sequence),
    ensures
        lacks_ownership(s, right) == lacks_ownership(t, right),
{
    assert forall|i: int| #![trigger names_foreign(s, right, i)] #![trigger names_foreign(t, right, i)]
        names_foreign(s, right, i) == names_foreign(t, right, i) by {}
}

proof fn lemma_depths_unnoted(s: StrategyStateView, t: StrategyStateView)
    requires
        t == with_notes(s, t.duplicate_events, t.last_reconciliation_event_sequence),
    ensures
        some_depth_exceeded(s) == some_depth_exceeded(t),
        sell_fault(s) == sell_fault(t),
        unit_fault(s) == unit_fault(t),
{
    assert forall|i: int| #![trigger depth_exceeded(s, i)] #![trigger depth_exceeded(t, i)]
        depth_exceeded(s, i) == depth_exceeded(t, i) by {}
    assert forall|i: int| #![trigger sell_overflows(s, i)] #![trigger sell_overflows(t, i)]
        sell_overflows(s, i) == sell_overflows(t, i) by {}
    assert forall|i: int| #![trigger oversold(s, i)] #![trigger oversold(t, i)]
        oversold(s, i) == oversold(t, i) by {}
    assert forall|grid: Seq<(i32, GridLevelState)>|
        #![trigger levels_complete(s, grid)]
        #![trigger levels_complete(t, grid)]
        levels_complete(s, grid) == levels_complete(t, grid) by {
        assert forall|index: i32, level: GridLevelState|
            #![trigger has_level(s, index, level)]
            #![trigger has_level(t, index, level)]
            has_level(s, index, level) == has_level(t, index, level) by {}
    }
}

/// What has to hold of a state does not depend on its notes: how often events were
/// offered again, and which event compared the accounts last.
pub proof fn law_notes_are_not_audited(s: StrategyStateView, d: u64, q: Option<i64>)
    ensures
        first_violation(with_notes(s, d, q)) == first_violation(s),
{
    let t = with_notes(s, d, q);
    lemma_lists_unnoted(s, t, s.right_tranches.len());
    lemma_lists_unnoted(s, t, s.grid_rights.len());
    lemma_depths_unnoted(s, t);
}

} // verus!

//! The grant of a right: its capacity has to be the one that the state before
//! it allows.
use crate::arith::{checked_total, magnitude, magnitude_of, total_of};
use crate::event::payload::{EventEnvelope, EventEnvelopeView};
use crate::event::tranches::Tranches;
use crate::grid::{grid_of, grid_price, trades_at, GridSpec};
use crate::model::ledger::{StrategyState, StrategyStateView};
use crate::model::market::Direction;
use crate::model::notices::{Appraisal, AppraisalView};
use crate::model::rights::{
    grid_right_capacity_alike, GridRight, GridRightStatus, GridRightView, RightTranche,
    RightTrancheView,
};
use crate::model::settings::ConfigView;
use crate::rights::{right_name, tranche_id};
use crate::digest::named_id;
use crate::table::{holds_key, with};
use crate::text::text_eq;
use crate::value::{has_no_repeats, have_same_members, no_repeats, same_members, Value};
use vstd::prelude::*;

verus! {

/// Whether a right is new and no number of its capacity is negative.
pub open spec fn grant_is_fresh(right: GridRightView) -> bool {
    let c = right.capacity;
    &&& right.status == GridRightStatus::Granted
    &&& right.reserved_budget.units() == 0
    &&& right.reserved_quantity == 0
    &&& right.exercised_budget.units() == 0
    &&& right.exercised_quantity == 0
    &&& c.mechanical_budget_cap.units() >= 0
    &&& c.deployed_budget.units() >= 0
    &&& c.available_budget.units() >= 0
    &&& c.mechanical_quantity_cap >= 0
    &&& c.deployed_quantity >= 0
    &&& c.available_quantity >= 0
    &&& c.eligible_quantity >= 0
    &&& c.t_plus_one_blocked_quantity >= 0
    &&& c.risk_blocked_quantity >= 0
    &&& c.no_profit_blocked_quantity >= 0
    &&& c.carried_in_budget.units() >= 0
    &&& c.carried_in_quantity >= 0
}

/// Whether a buy right counts in shares.
pub open spec fn counts_in_shares(right: GridRightView) -> bool {
    right.capacity.available_quantity > 0 || right.capacity.mechanical_quantity_cap > 0
}

/// Whether a right has only the capacity of its side, and a buy right only that
/// of one unit.
pub open spec fn capacity_of_side(right: GridRightView) -> bool {
    let c = right.capacity;
    match right.direction {
        Direction::Buy => {
            &&& c.eligible_quantity == 0
            &&& c.eligible_lot_ids.len() == 0
            &&& c.no_profit_blocked_quantity == 0
            &&& c.no_profit_blocked_lot_ids.len() == 0
            &&& counts_in_shares(right) ==> {
                &&& c.mechanical_budget_cap.units() == 0
                &&& c.deployed_budget.units() == 0
                &&& c.available_budget.units() == 0
                &&& c.carried_in_budget.units() == 0
            }
            &&& !counts_in_shares(right) ==> {
                &&& c.mechanical_quantity_cap == 0
                &&& c.deployed_quantity == 0
                &&& c.available_quantity == 0
                &&& c.carried_in_quantity == 0
            }
        },
        Direction::Sell => {
            &&& c.mechanical_budget_cap.units() == 0
            &&& c.available_budget.units() == 0
            &&& c.carried_in_budget.units() == 0
            &&& c.mechanical_quantity_cap == 0
            &&& c.deployed_quantity == 0
            &&& c.available_quantity == 0
        },
    }
}

/// Whether a buy right has one more unit than it carries in, within the units
/// of its depth.
pub open spec fn buy_in_units(s: StrategyStateView, right: GridRightView) -> bool {
    let c = right.capacity;
    let unit = s.audited_standard_quantity;
    match magnitude(right.grid_index) {
        None => false,
        Some(depth) => match (depth as i64).checked_mul(unit) {
            None => false,
            Some(cap) => {
                &&& counts_in_shares(right)
                &&& unit > 0
                &&& s.audited_lot_size > 0
                &&& unit as int % s.audited_lot_size as int == 0
                &&& right.grid_index < 0
                &&& c.mechanical_quantity_cap == cap
                &&& c.available_quantity == c.carried_in_quantity + unit
                &&& c.available_quantity <= cap
                &&& c.deployed_quantity + c.available_quantity <= cap
            },
        },
    }
}

/// Whether a right is the one that its crossing names.
pub open spec fn grant_identity(
    s: StrategyStateView,
    e: EventEnvelopeView,
    right: GridRightView,
    c: ConfigView,
) -> bool {
    &&& right.cycle_id == s.cycle_id
    &&& e.cycle_id == s.cycle_id
    &&& right.symbol == s.symbol
    &&& right.granted_at == e.event_time
    &&& right.right_id == named_id(
        right_name(s.run_id, s.cycle_id, right.grid_index, right.granted_at),
    )
    &&& right.grid_index != 0
    &&& right.direction == Direction::Buy ==> right.grid_index <= 0
    &&& right.direction == Direction::Sell ==> right.grid_index >= 0
    &&& trades_at(grid_of(c), right.grid_index)
    &&& grid_price(grid_of(c), right.grid_index) matches Ok(price)
    &&& right.grid_price.units() == price.units()
}

/// Whether a tranche carries something into a right of the cycle and side.
pub open spec fn carries_in(t: RightTrancheView, cycle: Seq<char>, direction: Direction) -> bool {
    t.cycle_id == cycle && t.direction == direction && t.available_quantity > 0
}

/// The tranches among the first `n` that carry something in.
pub open spec fn carriers(
    tranches: Tranches,
    cycle: Seq<char>,
    direction: Direction,
    n: nat,
) -> Seq<RightTrancheView>
    decreases n,
{
    if n == 0 {
        Seq::empty()
    } else if carries_in(tranches[n - 1].1, cycle, direction) {
        carriers(tranches, cycle, direction, (n - 1) as nat).push(tranches[n - 1].1)
    } else {
        carriers(tranches, cycle, direction, (n - 1) as nat)
    }
}

/// The identifiers of tranches.
pub open spec fn ids_of(list: Seq<RightTrancheView>) -> Seq<Seq<char>> {
    Seq::new(list.len(), |i: int| list[i].tranche_id)
}

/// The owners of tranches.
pub open spec fn owners_of(list: Seq<RightTrancheView>) -> Seq<Seq<char>> {
    Seq::new(list.len(), |i: int| list[i].owner_right_id)
}

/// The free shares of tranches.
pub open spec fn free_shares(list: Seq<RightTrancheView>) -> Seq<i64> {
    Seq::new(list.len(), |i: int| list[i].available_quantity)
}

/// The tranches that the grant itself mints.
pub open spec fn marginal_ids(
    s: StrategyStateView,
    right: GridRightView,
    a: AppraisalView,
) -> Seq<Seq<char>> {
    match right.direction {
        Direction::Buy => seq![
            tranche_id(s.cycle_id, right.right_id, Direction::Buy, right.grid_index, None),
        ],
        Direction::Sell => ids_of(a.sell_tranches),
    }
}

/// What a buy right has taken of its depth: what it reserved or used.
pub open spec fn taken(right: GridRightView) -> i64 {
    if right.status == GridRightStatus::Reserved && right.reserved_quantity
        > right.exercised_quantity {
        right.reserved_quantity
    } else {
        right.exercised_quantity
    }
}

/// What the buy rights of a cycle among the first `n` have taken.
pub open spec fn taken_by(
    rights: Seq<(Seq<char>, GridRightView)>,
    cycle: Seq<char>,
    n: nat,
) -> Seq<i64>
    decreases n,
{
    if n == 0 {
        Seq::empty()
    } else {
        let right = rights[n - 1].1;
        let before = taken_by(rights, cycle, (n - 1) as nat);
        if right.cycle_id == cycle && right.direction == Direction::Buy
            && right.capacity.available_quantity > 0 {
            before.push(taken(right))
        } else {
            before
        }
    }
}

/// The indices of a depth: minus one to minus the depth.
pub open spec fn indices_to(depth: i32) -> Seq<i32> {
    Seq::new(depth as nat, |i: int| (-(i + 1)) as i32)
}

/// Whether a buy right shows what the state before it has deployed and carried.
pub open spec fn buy_aggregate(s: StrategyStateView, right: GridRightView, carried: i64) -> bool {
    let c = right.capacity;
    match (
        checked_total(taken_by(s.grid_rights, s.cycle_id, s.grid_rights.len())),
        magnitude(right.grid_index),
        carried.checked_add(s.audited_standard_quantity),
    ) {
        (Some(deployed), Some(depth), Some(available)) => {
            &&& c.deployed_quantity == deployed
            &&& c.available_quantity == available
            &&& c.accumulated_grid_indices == indices_to(depth)
            &&& c.t_plus_one_blocked_quantity == 0
            &&& c.t_plus_one_blocked_lot_ids.len() == 0
            &&& c.risk_blocked_quantity == 0
            &&& c.risk_blocked_lot_ids.len() == 0
            &&& c.no_profit_blocked_quantity == 0
            &&& c.no_profit_blocked_lot_ids.len() == 0
        },
        _ => false,
    }
}

/// Whether a right is bound to the exact inventory before it.
pub open spec fn grant_bound(
    s: StrategyStateView,
    e: EventEnvelopeView,
    right: GridRightView,
    a: AppraisalView,
) -> bool {
    let c = right.capacity;
    let live = carriers(s.right_tranches, s.cycle_id, right.direction, s.right_tranches.len());
    &&& s.audited_config matches Some(config)
    &&& grant_identity(s, e, right, config)
    &&& a.capacity matches Some(expected)
    &&& grid_right_capacity_alike(c, expected)
    &&& checked_total(free_shares(live)) matches Some(carried)
    &&& no_repeats(c.tranche_ids)
    &&& no_repeats(c.source_right_ids)
    &&& same_members(c.tranche_ids, ids_of(live) + marginal_ids(s, right, a))
    &&& same_members(c.source_right_ids, owners_of(live))
    &&& c.carried_in_quantity == carried
    &&& right.direction == Direction::Buy ==> buy_aggregate(s, right, carried)
}

/// The state after a right is granted.
pub open spec fn right_granted(
    s: StrategyStateView,
    e: EventEnvelopeView,
    right: GridRightView,
    a: AppraisalView,
) -> Option<StrategyStateView> {
    if grant_is_fresh(right) && capacity_of_side(right) && (e.schema_version >= 2 ==> grant_bound(
        s,
        e,
        right,
        a,
    ) && (right.direction == Direction::Buy ==> buy_in_units(s, right))) && !holds_key::<
        String,
        GridRightView,
    >(s.grid_rights, right.right_id) {
        Some(
            StrategyStateView {
                grid_rights: with::<String, GridRightView>(s.grid_rights, right.right_id, right),
                ..s
            },
        )
    } else {
        None
    }
}

impl GridRight {
    fn is_fresh_grant(&self) -> (r: bool)
        ensures
            r == grant_is_fresh(self@),
    {
        let c = &self.capacity;
        matches!(self.status, GridRightStatus::Granted) && self.reserved_budget.is_zero()
            && self.reserved_quantity == 0 && self.exercised_budget.is_zero()
            && self.exercised_quantity == 0 && !c.mechanical_budget_cap.is_negative()
            && !c.deployed_budget.is_negative() && !c.available_budget.is_negative()
            && c.mechanical_quantity_cap >= 0 && c.deployed_quantity >= 0 && c.available_quantity
            >= 0 && c.eligible_quantity >= 0 && c.t_plus_one_blocked_quantity >= 0
            && c.risk_blocked_quantity >= 0 && c.no_profit_blocked_quantity >= 0
            && !c.carried_in_budget.is_negative() && c.carried_in_quantity >= 0
    }

    fn has_capacity_of_side(&self) -> (r: bool)
        ensures
            r == capacity_of_side(self@),
    {
        let c = &self.capacity;
        match self.direction {
            Direction::Buy => {
                let in_shares = c.available_quantity > 0 || c.mechanical_quantity_cap > 0;
                c.eligible_quantity == 0 && c.eligible_lot_ids.len() == 0
                    && c.no_profit_blocked_quantity == 0 && c.no_profit_blocked_lot_ids.len() == 0
                    && (!in_shares || (c.mechanical_budget_cap.is_zero()
                    && c.deployed_budget.is_zero() && c.available_budget.is_zero()
                    && c.carried_in_budget.is_zero())) && (in_shares || (c.mechanical_quantity_cap
                    == 0 && c.deployed_quantity == 0 && c.available_quantity == 0
                    && c.carried_in_quantity == 0))
            },
            Direction::Sell => c.mechanical_budget_cap.is_zero() && c.available_budget.is_zero()
                && c.carried_in_budget.is_zero() && c.mechanical_quantity_cap == 0
                && c.deployed_quantity == 0 && c.available_quantity == 0,
        }
    }
}

/// Whether a list holds the indices of a depth.
fn holds_indices(list: &Vec<i32>, depth: i32) -> (r: bool)
    requires
        depth >= 0,
    ensures
        r == (list@ == indices_to(depth)),
{
    if list.len() != depth as usize {
        return false;
    }
    let mut i: usize = 0;
    while i < list.len()
        invariant
            i <= list.len(),
            list.len() == depth as usize,
            depth >= 0,
            forall|j: int| 0 <= j < i ==> #[trigger] list@[j] == -(j + 1),
        decreases list.len() - i,
    {
        if list[i] != -(i as i32) - 1 {
            assert(list@[i as int] != indices_to(depth)[i as int]);
            return false;
        }
        i = i + 1;
    }
    assert(list@ =~= indices_to(depth));
    true
}

impl StrategyState {
    fn buy_is_in_units(&self, right: &GridRight) -> (r: bool)
        ensures
            r == buy_in_units(self@, right@),
    {
        let c = &right.capacity;
        let unit: i64 = self.audited_standard_quantity;
        let cap: i64 = match magnitude_of(right.grid_index) {
            None => {
                return false;
            },
            Some(depth) => match (depth as i64).checked_mul(unit) {
                None => {
                    return false;
                },
                Some(cap) => cap,
            },
        };
        (c.available_quantity > 0 || c.mechanical_quantity_cap > 0) && unit > 0
            && self.audited_lot_size > 0 && unit % self.audited_lot_size == 0 && right.grid_index
            < 0 && c.mechanical_quantity_cap == cap && c.available_quantity as i128
            == c.carried_in_quantity as i128 + unit as i128 && c.available_quantity <= cap
            && c.deployed_quantity as i128 + c.available_quantity as i128 <= cap as i128
    }

    fn grant_has_identity(&self, event: &EventEnvelope, right: &GridRight, grid: &GridSpec) -> (r:
        bool)
        requires
            self@.audited_config is Some,
            *grid == grid_of(self@.audited_config->0),
        ensures
            r == grant_identity(self@, event@, right@, self@.audited_config->0),
    {
        let id = GridRight::id_for(
            self.run_id.as_str(),
            self.cycle_id.as_str(),
            right.grid_index,
            right.granted_at,
        );
        let buys = matches!(right.direction, Direction::Buy);
        let priced = match grid.price(right.grid_index) {
            Ok(price) => right.grid_price.equals(&price),
            Err(_) => false,
        };
        text_eq(right.cycle_id.as_str(), self.cycle_id.as_str()) && text_eq(
            event.cycle_id.as_str(),
            self.cycle_id.as_str(),
        ) && text_eq(right.symbol.as_str(), self.symbol.as_str()) && right.granted_at.same(
            &event.event_time,
        ) && text_eq(right.right_id.as_str(), id.as_str()) && right.grid_index != 0 && (!buys
            || right.grid_index <= 0) && (buys || right.grid_index >= 0) && grid.is_trade_level(
            right.grid_index,
        ) && priced
    }

    fn carried(&self, direction: Direction) -> (r: (Vec<String>, Vec<String>, Vec<i64>))
        ensures
            ({
                let live = carriers(
                    self@.right_tranches,
                    self@.cycle_id,
                    direction,
                    self@.right_tranches.len(),
                );
                &&& r.0.deep_view() == ids_of(live)
                &&& r.1.deep_view() == owners_of(live)
                &&& r.2@ == free_shares(live)
            }),
    {
        let ghost all = self@.right_tranches;
        let mut ids: Vec<String> = Vec::new();
        let mut owners: Vec<String> = Vec::new();
        let mut shares: Vec<i64> = Vec::new();
        let mut i: usize = 0;
        assert(ids.deep_view() =~= ids_of(Seq::empty()));
        assert(owners.deep_view() =~= owners_of(Seq::empty()));
        assert(shares@ =~= free_shares(Seq::empty()));
        while i < self.right_tranches.len()
            invariant
                i <= all.len(),
                all == self@.right_tranches,
                all == self.right_tranches@,
                ids.deep_view() == ids_of(carriers(all, self@.cycle_id, direction, i as nat)),
                owners.deep_view() == owners_of(carriers(all, self@.cycle_id, direction, i as nat)),
                shares@ == free_shares(carriers(all, self@.cycle_id, direction, i as nat)),
            decreases all.len() - i,
        {
            let t = self.right_tranches.value_at(i);
            assert(t@ == all[i as int].1);
            if text_eq(t.cycle_id.as_str(), self.cycle_id.as_str()) && t.direction == direction
                && t.available_quantity > 0 {
                let ghost before = carriers(all, self@.cycle_id, direction, i as nat);
                let ghost ids0 = ids.deep_view();
                let ghost owners0 = owners.deep_view();
                ids.push(t.tranche_id.dup());
                owners.push(t.owner_right_id.dup());
                shares.push(t.available_quantity);
                assert(ids.deep_view() =~= ids0.push(t@.tranche_id));
                assert(owners.deep_view() =~= owners0.push(t@.owner_right_id));
                assert(ids.deep_view() =~= ids_of(before.push(t@)));
                assert(owners.deep_view() =~= owners_of(before.push(t@)));
                assert(shares@ =~= free_shares(before.push(t@)));
            }
            i = i + 1;
        }
        (ids, owners, shares)
    }

    fn taken_so_far(&self) -> (r: Vec<i64>)
        ensures
            r@ == taken_by(self@.grid_rights, self@.cycle_id, self@.grid_rights.len()),
    {
        let ghost all = self@.grid_rights;
        let mut list: Vec<i64> = Vec::new();
        let mut i: usize = 0;
        while i < self.grid_rights.len()
            invariant
                i <= all.len(),
                all == self@.grid_rights,
                all == self.grid_rights@,
                list@ == taken_by(all, self@.cycle_id, i as nat),
            decreases all.len() - i,
        {
            let right = self.grid_rights.value_at(i);
            assert(right@ == all[i as int].1);
            if text_eq(right.cycle_id.as_str(), self.cycle_id.as_str()) && matches!(
                right.direction,
                Direction::Buy
            ) && right.capacity.available_quantity > 0 {
                let q: i64 = if matches!(right.status, GridRightStatus::Reserved)
                    && right.reserved_quantity > right.exercised_quantity {
                    right.reserved_quantity
                } else {
                    right.exercised_quantity
                };
                list.push(q);
            }
            i = i + 1;
        }
        list
    }

    fn buy_has_aggregate(&self, right: &GridRight, carried: i64) -> (r: bool)
        ensures
            r == buy_aggregate(self@, right@, carried),
    {
        let c = &right.capacity;
        let taken = self.taken_so_far();
        match (
            total_of(&taken),
            magnitude_of(right.grid_index),
            carried.checked_add(self.audited_standard_quantity),
        ) {
            (Some(deployed), Some(depth), Some(available)) => {
                assert(c.accumulated_grid_indices.deep_view() =~= c.accumulated_grid_indices@);
                c.deployed_quantity == deployed && c.available_quantity == available
                    && holds_indices(&c.accumulated_grid_indices, depth)
                    && c.t_plus_one_blocked_quantity == 0 && c.t_plus_one_blocked_lot_ids.len()
                    == 0 && c.risk_blocked_quantity == 0 && c.risk_blocked_lot_ids.len() == 0
                    && c.no_profit_blocked_quantity == 0 && c.no_profit_blocked_lot_ids.len() == 0
            },
            _ => false,
        }
    }

    fn validate_current_quantity_grant(
        &self,
        event: &EventEnvelope,
        right: &GridRight,
        appraisal: &Appraisal,
    ) -> (r: bool)
        ensures
            r == grant_bound(self@, event@, right@, appraisal@),
    {
        let c = &right.capacity;
        let grid = match &self.audited_config {
            Some(config) => GridSpec::from(config),
            None => {
                return false;
            },
        };
        if !self.grant_has_identity(event, right, &grid) {
            return false;
        }
        let as_expected = match &appraisal.capacity {
            Some(expected) => c.alike(expected),
            None => false,
        };
        if !as_expected {
            return false;
        }
        let (mut ids, owners, shares) = self.carried(right.direction);
        let carried: i64 = match total_of(&shares) {
            Some(q) => q,
            None => {
                return false;
            },
        };
        let ghost live_ids = ids.deep_view();
        match right.direction {
            Direction::Buy => {
                let id = RightTranche::id_for(
                    self.cycle_id.as_str(),
                    right.right_id.as_str(),
                    Direction::Buy,
                    right.grid_index,
                    None,
                );
                ids.push(id);
                assert(ids.deep_view() =~= live_ids + marginal_ids(self@, right@, appraisal@));
            },
            Direction::Sell => {
                let ghost minted = appraisal@.sell_tranches;
                let mut i: usize = 0;
                assert(ids.deep_view() =~= live_ids + ids_of(minted).subrange(0, 0));
                while i < appraisal.sell_tranches.len()
                    invariant
                        i <= appraisal.sell_tranches.len(),
                        minted == appraisal.sell_tranches.deep_view(),
                        ids.deep_view() == live_ids + ids_of(minted).subrange(0, i as int),
                    decreases appraisal.sell_tranches.len() - i,
                {
                    let ghost before = ids.deep_view();
                    ids.push(appraisal.sell_tranches[i].tranche_id.dup());
                    assert(minted[i as int] == appraisal.sell_tranches[i as int]@);
                    assert(ids.deep_view() =~= before.push(minted[i as int].tranche_id));
                    assert(ids.deep_view() =~= live_ids + ids_of(minted).subrange(0, i + 1));
                    i = i + 1;
                }
                assert(ids.deep_view() =~= live_ids + ids_of(minted));
            },
        }
        has_no_repeats(&c.tranche_ids) && has_no_repeats(&c.source_right_ids) && have_same_members(
            &c.tranche_ids,
            &ids,
        ) && have_same_members(&c.source_right_ids, &owners) && c.carried_in_quantity == carried
            && (!matches!(right.direction, Direction::Buy) || self.buy_has_aggregate(
            right,
            carried,
        ))
    }

    pub(crate) fn grant_right(
        &mut self,
        event: &EventEnvelope,
        right: &GridRight,
        appraisal: &Appraisal,
    ) -> (r: bool)
        ensures
            match right_granted(old(self)@, event@, right@, appraisal@) {
                Some(n) => r && final(self)@ == n,
                None => !r,
            },
    {
        if !right.is_fresh_grant() || !right.has_capacity_of_side() {
            return false;
        }
        if event.schema_version >= 2 {
            if matches!(right.direction, Direction::Buy) && !self.buy_is_in_units(right) {
                return false;
            }
            if !self.validate_current_quantity_grant(event, right, appraisal) {
                return false;
            }
        }
        if self.grid_rights.contains(&right.right_id) {
            return false;
        }
        self.grid_rights.put(right.right_id.dup(), right.dup());
        true
    }
}

} // verus!

//! What a state without a violation shows.
use crate::audit::{
    backed_fault, backing_total, buys_fault, decisions_fault, depth_total, first_violation,
    lot_total, lots_realized, named_fault, rights_fault, tranches_fault, InvariantViolation,
};
use crate::decimal::{adds_exactly, lemma_of_parts, lemma_plus_exact, Decimal};
use crate::decision::{DECISION_CONTRACT_VERSION, WHOLE_UNIT_DECISION_CONTRACT_VERSION};
use crate::event::tranches::Tranches;
use crate::grid::{all_levels, grid_of, grid_price};
use crate::model::ledger::{GridLevelState, StrategyStateView, TradingLotView};
use crate::model::market::Direction;
use crate::model::rights::{GridRightStatus, GridRightView, RightTrancheUnit, RightTrancheView};
use crate::rights::tranche_in_order;
use crate::table::{holds_key, lookup};
use vstd::prelude::*;

verus! {

/// A sound account has nothing negative, no more shares sellable or bought today than it
/// has, and no more frozen than can be sold.
pub proof fn law_sound_accounts(s: StrategyStateView)
    requires
        first_violation(s) is None,
    ensures
        s.cash.available.units() >= 0,
        s.cash.frozen.units() >= 0,
        s.cash.total_fees.units() >= 0,
        s.position.today_bought >= 0,
        0 <= s.position.frozen_sell <= s.position.sellable,
        s.position.sellable + s.position.today_bought <= s.position.total,
{
}

proof fn lemma_tranches(s: StrategyStateView, n: nat, i: int)
    requires
        tranches_fault(s, n) is None,
        0 <= i < n,
    ensures
        crate::audit::tranche_fault(s, s.right_tranches[i].1) is None,
    decreases n,
{
    if i < n - 1 {
        lemma_tranches(s, (n - 1) as nat, i);
    }
}

/// Every tranche of a sound state adds up and belongs to a right of its cycle and side;
/// one that sells is of a lot that is there.
pub proof fn law_sound_tranches(s: StrategyStateView, i: int)
    requires
        first_violation(s) is None,
        0 <= i < s.right_tranches.len(),
    ensures
        ({
            let t = s.right_tranches[i].1;
            &&& tranche_in_order(t)
            &&& lookup::<String, GridRightView>(s.grid_rights, t.owner_right_id) matches Some(r)
                && r.cycle_id == t.cycle_id && r.direction == t.direction
            &&& t.direction == Direction::Sell ==> (t.lot_id matches Some(id) && holds_key::<
                String,
                TradingLotView,
            >(s.lots, id))
        }),
{
    lemma_tranches(s, s.right_tranches.len(), i);
}

proof fn lemma_rights(s: StrategyStateView, n: nat, k: int)
    requires
        rights_fault(s, n) is None,
        0 <= k < n,
    ensures
        named_fault(
            s,
            s.grid_rights[k].1,
            s.grid_rights[k].1.capacity.tranche_ids.len(),
        ) is None,
    decreases n,
{
    if k < n - 1 {
        lemma_rights(s, (n - 1) as nat, k);
    }
}

proof fn lemma_named(s: StrategyStateView, r: GridRightView, n: nat, j: int)
    requires
        named_fault(s, r, n) is None,
        0 <= j < n,
    ensures
        lookup::<String, RightTrancheView>(s.right_tranches, r.capacity.tranche_ids[j]) matches Some(
            t,
        ) && t.cycle_id == r.cycle_id && t.direction == r.direction,
    decreases n,
{
    if j < n - 1 {
        lemma_named(s, r, (n - 1) as nat, j);
    }
}

/// Every tranche that a right of a sound state names is there, of its cycle and side.
pub proof fn law_sound_rights_name_tranches(s: StrategyStateView, k: int, j: int)
    requires
        first_violation(s) is None,
        0 <= k < s.grid_rights.len(),
        0 <= j < s.grid_rights[k].1.capacity.tranche_ids.len(),
    ensures
        lookup::<String, RightTrancheView>(
            s.right_tranches,
            s.grid_rights[k].1.capacity.tranche_ids[j],
        ) matches Some(t) && t.cycle_id == s.grid_rights[k].1.cycle_id && t.direction
            == s.grid_rights[k].1.direction,
{
    lemma_rights(s, s.grid_rights.len(), k);
    let r = s.grid_rights[k].1;
    lemma_named(s, r, r.capacity.tranche_ids.len(), j);
}

/// A sound state that counts in shares has the unit and the lot size of its configuration,
/// and while a cycle is active exactly the levels of the audited grid at their prices.
pub proof fn law_sound_units_and_levels(s: StrategyStateView)
    requires
        first_violation(s) is None,
        s.audited_standard_quantity > 0,
    ensures
        s.audited_config matches Some(c) && {
            &&& c.standard_quantity == s.audited_standard_quantity
            &&& c.lot_size == s.audited_lot_size && c.lot_size > 0
            &&& c.standard_quantity as int % c.lot_size as int == 0
            &&& s.grid_cycle_active ==> {
                &&& s.levels.len() == all_levels(grid_of(c)).len()
                &&& forall|i: i32|
                    -c.boundary_levels <= i <= c.boundary_levels && i != 0 ==> (
                    #[trigger] lookup::<i32, GridLevelState>(s.levels, i) matches Some(level)
                        && level.index == i && (grid_price(grid_of(c), i) matches Ok(p)
                        && level.price.units() == p.units()))
            }
        },
{
    let c = s.audited_config->0;
    let g = grid_of(c);
    if s.grid_cycle_active {
        crate::grid::law_levels_cover_the_grid(g, g.boundary_levels + 1);
        let all = all_levels(g);
        assert forall|i: i32| -c.boundary_levels <= i <= c.boundary_levels && i != 0 implies (
        #[trigger] lookup::<i32, GridLevelState>(s.levels, i) matches Some(level) && level.index
            == i && (grid_price(g, i) matches Ok(p) && level.price.units() == p.units())) by {
            assert(crate::grid::level_at(all, i));
            let k = choose|k: int| 0 <= k < all.len() && (#[trigger] all[k]).0 == i;
            assert(crate::audit::has_level(s, all[k].0, all[k].1));
            crate::grid_laws::law_generated_levels_are_fresh(g, k);
        }
    }
}

/// What the first `n` buy tranches of a depth hold free, reserved or used.
pub open spec fn depth_sum(t: Tranches, cycle: Seq<char>, index: i32, n: nat) -> int
    decreases n,
{
    if n == 0 {
        0
    } else {
        let x = t[n - 1].1;
        depth_sum(t, cycle, index, (n - 1) as nat) + (if x.direction == Direction::Buy && x.unit
            == RightTrancheUnit::Quantity && x.cycle_id == cycle && x.birth_grid_index == index {
            x.available_quantity + x.reserved_quantity + x.consumed_quantity
        } else {
            0
        })
    }
}

proof fn lemma_depth(t: Tranches, cycle: Seq<char>, index: i32, n: nat)
    ensures
        depth_total(t, cycle, index, n) matches Some(x) ==> x == depth_sum(t, cycle, index, n),
    decreases n,
{
    if n > 0 {
        lemma_depth(t, cycle, index, (n - 1) as nat);
    }
}

proof fn lemma_depth_stays(t: Tranches, cycle: Seq<char>, index: i32, n: nat, m: nat)
    requires
        n <= m <= t.len(),
        depth_total(t, cycle, index, n) is Some,
        forall|i: int|
            n <= i < m && (#[trigger] t[i].1).direction == Direction::Buy && t[i].1.unit
                == RightTrancheUnit::Quantity && t[i].1.cycle_id == cycle
                && t[i].1.birth_grid_index == index ==> depth_total(
                t,
                cycle,
                index,
                (i + 1) as nat,
            ) is Some,
    ensures
        depth_total(t, cycle, index, m) is Some,
    decreases m - n,
{
    if n < m {
        lemma_depth_stays(t, cycle, index, n, (m - 1) as nat);
        let x = t[m - 1].1;
        if x.direction == Direction::Buy && x.unit == RightTrancheUnit::Quantity && x.cycle_id
            == cycle && x.birth_grid_index == index {
            assert(depth_total(t, cycle, index, m) is Some);
        }
    }
}

proof fn lemma_buys(s: StrategyStateView, n: nat, i: int)
    requires
        buys_fault(s, n) is None,
        0 <= i < n,
    ensures
        crate::audit::buy_fault(s, i) is None,
    decreases n,
{
    if i < n - 1 {
        lemma_buys(s, (n - 1) as nat, i);
    }
}

/// In a sound state that counts in shares every buy tranche was minted with one unit and
/// no lot, and all buy tranches of a depth together hold no more than one unit free,
/// reserved or used.
pub proof fn law_sound_depths_hold_one_unit(s: StrategyStateView, i: int)
    requires
        first_violation(s) is None,
        s.audited_standard_quantity > 0,
        0 <= i < s.right_tranches.len(),
        s.right_tranches[i].1.direction == Direction::Buy,
        s.right_tranches[i].1.unit == RightTrancheUnit::Quantity,
    ensures
        ({
            let t = s.right_tranches[i].1;
            &&& t.minted_quantity == s.audited_standard_quantity
            &&& t.lot_id is None
            &&& depth_sum(
                s.right_tranches,
                t.cycle_id,
                t.birth_grid_index,
                s.right_tranches.len(),
            ) <= s.audited_standard_quantity
        }),
{
    let all = s.right_tranches;
    let t = all[i].1;
    lemma_buys(s, all.len(), i);
    assert forall|j: int|
        0 <= j < all.len() && (#[trigger] all[j].1).direction == Direction::Buy && all[j].1.unit
            == RightTrancheUnit::Quantity && all[j].1.cycle_id == t.cycle_id
            && all[j].1.birth_grid_index == t.birth_grid_index implies depth_total(
        all,
        t.cycle_id,
        t.birth_grid_index,
        (j + 1) as nat,
    ) is Some by {
        lemma_buys(s, all.len(), j);
    }
    lemma_depth_stays(all, t.cycle_id, t.birth_grid_index, 0, all.len());
    lemma_depth(all, t.cycle_id, t.birth_grid_index, all.len());
    assert(!crate::audit::depth_exceeded(s, i));
}

/// What the first `n` tranches of a right hold reserved.
pub open spec fn backing_sum(t: Tranches, right_id: Seq<char>, n: nat) -> int
    decreases n,
{
    if n == 0 {
        0
    } else {
        backing_sum(t, right_id, (n - 1) as nat) + (if t[n - 1].1.owner_right_id == right_id {
            t[n - 1].1.reserved_quantity as int
        } else {
            0
        })
    }
}

proof fn lemma_backing(t: Tranches, right_id: Seq<char>, n: nat)
    ensures
        backing_total(t, right_id, n) matches Some(x) ==> x == backing_sum(t, right_id, n),
    decreases n,
{
    if n > 0 {
        lemma_backing(t, right_id, (n - 1) as nat);
    }
}

proof fn lemma_backed(s: StrategyStateView, n: nat, k: int)
    requires
        backed_fault(s, n) is None,
        0 <= k < n,
    ensures
        crate::audit::right_fault(s, s.grid_rights[k].1) is None,
    decreases n,
{
    if k < n - 1 {
        lemma_backed(s, (n - 1) as nat, k);
    }
}

/// In a sound state that counts in shares a reserved right has reserved what its tranches
/// hold reserved, and a right that has not given its tranches up owns each live one that
/// it names.
pub proof fn law_sound_rights_are_backed(s: StrategyStateView, k: int, j: int)
    requires
        first_violation(s) is None,
        s.audited_standard_quantity > 0,
        0 <= k < s.grid_rights.len(),
        0 <= j < s.grid_rights[k].1.capacity.tranche_ids.len(),
    ensures
        ({
            let r = s.grid_rights[k].1;
            &&& r.status == GridRightStatus::Reserved ==> r.reserved_quantity == backing_sum(
                s.right_tranches,
                r.right_id,
                s.right_tranches.len(),
            )
            &&& r.status != GridRightStatus::Transferred && r.status != GridRightStatus::Expired
                && r.status != GridRightStatus::Revoked ==> (lookup::<String, RightTrancheView>(
                s.right_tranches,
                r.capacity.tranche_ids[j],
            ) matches Some(t) && (t.available_quantity > 0 || t.reserved_quantity > 0
                ==> t.owner_right_id == r.right_id))
        }),
{
    lemma_backed(s, s.grid_rights.len(), k);
    let r = s.grid_rights[k].1;
    lemma_backing(s.right_tranches, r.right_id, s.right_tranches.len());
    law_sound_rights_name_tranches(s, k, j);
    assert(crate::audit::names_foreign(s, r, j) ==> crate::audit::gave_up(r.status));
}

/// What the first `n` tranches may sell of a lot.
pub open spec fn sellable_of(t: Tranches, lot: Seq<char>, n: nat) -> int
    decreases n,
{
    if n == 0 {
        0
    } else {
        let x = t[n - 1].1;
        sellable_of(t, lot, (n - 1) as nat) + (if x.direction == Direction::Sell && x.unit
            == RightTrancheUnit::Quantity && x.lot_id == Some(lot) {
            x.available_quantity + x.reserved_quantity
        } else {
            0
        })
    }
}

proof fn lemma_sellable(t: Tranches, lot: Seq<char>, n: nat)
    ensures
        lot_total(t, Some(lot), n) matches Some(x) ==> x == sellable_of(t, lot, n),
    decreases n,
{
    if n > 0 {
        lemma_sellable(t, lot, (n - 1) as nat);
    }
}

proof fn lemma_lot_stays(s: StrategyStateView, lot: Seq<char>, n: nat)
    requires
        n <= s.right_tranches.len(),
        forall|i: int|
            0 <= i < s.right_tranches.len() ==> !(#[trigger] crate::audit::sell_overflows(s, i)),
    ensures
        lot_total(s.right_tranches, Some(lot), n) is Some,
    decreases n,
{
    if n > 0 {
        lemma_lot_stays(s, lot, (n - 1) as nat);
        assert(!crate::audit::sell_overflows(s, n - 1));
    }
}

/// In a sound state the tranches may together sell no more of a lot than it has left.
pub proof fn law_sound_lots_are_not_oversold(s: StrategyStateView, i: int)
    requires
        first_violation(s) is None,
        0 <= i < s.right_tranches.len(),
        s.right_tranches[i].1.direction == Direction::Sell,
        s.right_tranches[i].1.unit == RightTrancheUnit::Quantity,
    ensures
        s.right_tranches[i].1.lot_id matches Some(id) && (lookup::<String, TradingLotView>(
            s.lots,
            id,
        ) matches Some(lot) && sellable_of(s.right_tranches, id, s.right_tranches.len())
            <= lot.remaining_quantity),
{
    law_sound_tranches(s, i);
    let id = s.right_tranches[i].1.lot_id->0;
    assert forall|j: int| 0 <= j < s.right_tranches.len() implies !(
    #[trigger] crate::audit::sell_overflows(s, j)) by {}
    lemma_lot_stays(s, id, s.right_tranches.len());
    lemma_sellable(s.right_tranches, id, s.right_tranches.len());
    assert(!crate::audit::oversold(s, i));
}

proof fn lemma_decisions(s: StrategyStateView, n: nat, k: int)
    requires
        decisions_fault(s, n) is None,
        0 <= k < n,
    ensures
        crate::audit::decision_fault(s, s.grid_rights[k].1) is None,
    decreases n,
{
    if k < n - 1 {
        lemma_decisions(s, (n - 1) as nat, k);
    }
}

/// In a sound state a recorded decision splits what its right authorizes: in whole units
/// into what is ordered, kept and blocked, with a rest of less than a unit, and in the
/// first contracts into what is traded and kept.
pub proof fn law_sound_decisions_split_their_right(s: StrategyStateView, k: int)
    requires
        first_violation(s) is None,
        0 <= k < s.grid_rights.len(),
        s.grid_rights[k].1.decision_recorded,
        s.audited_standard_quantity > 0,
    ensures
        ({
            let r = s.grid_rights[k].1;
            let unit = s.audited_standard_quantity as int;
            let all = if r.direction == Direction::Buy {
                r.capacity.available_quantity as int
            } else {
                r.capacity.eligible_quantity as int
            };
            &&& r.decision_contract_version >= WHOLE_UNIT_DECISION_CONTRACT_VERSION && all >= 0 ==> {
                &&& r.decision_gross_available_quantity == all
                &&& r.decision_platform_residual_quantity == all % unit
                &&& all == r.decision_intent_quantity + r.decided_defer_quantity
                    + r.decision_platform_blocked_quantity + r.decision_platform_residual_quantity
                &&& r.decision_remaining_quantity == r.decided_defer_quantity
                    + r.decision_platform_blocked_quantity
                &&& r.decision_intent_quantity >= 0 && r.decided_defer_quantity >= 0
                &&& r.decided_exercise_quantity >= r.decision_intent_quantity
                &&& r.decision_platform_blocked_quantity >= 0
                &&& r.decision_contract_version >= DECISION_CONTRACT_VERSION
                    ==> r.decision_platform_blocked_quantity == r.decision_pre_blocked_quantity
                    + r.decision_post_blocked_quantity && r.decided_exercise_quantity
                    == r.decision_intent_quantity + r.decision_post_blocked_quantity
            }
            &&& r.decision_contract_version < WHOLE_UNIT_DECISION_CONTRACT_VERSION
                && r.decision_is_algorithm ==> {
                &&& r.decided_exercise_quantity >= 0 && r.decided_defer_quantity >= 0
                &&& r.decided_exercise_quantity + r.decided_defer_quantity == all
            }
        }),
{
    lemma_decisions(s, s.grid_rights.len(), k);
}

/// The realized profit of the first `n` lots.
pub open spec fn profit_of_lots(lots: Seq<(Seq<char>, TradingLotView)>, n: nat) -> int
    decreases n,
{
    if n == 0 {
        0
    } else {
        profit_of_lots(lots, (n - 1) as nat) + lots[n - 1].1.realized_pnl.units()
    }
}

/// Whether summing the realized profit of the first `n` lots never has to round.
pub open spec fn profits_add_exactly(lots: Seq<(Seq<char>, TradingLotView)>, n: nat) -> bool
    decreases n,
{
    n == 0 || (profits_add_exactly(lots, (n - 1) as nat) && lots[n - 1].1.realized_pnl.valid() && (
    lots_realized(lots, (n - 1) as nat) matches Some(x) ==> adds_exactly(
        x,
        lots[n - 1].1.realized_pnl,
    )))
}

proof fn lemma_profit(lots: Seq<(Seq<char>, TradingLotView)>, n: nat)
    requires
        n <= lots.len(),
        profits_add_exactly(lots, n),
    ensures
        lots_realized(lots, n) matches Some(x) && x.valid() && x.units() == profit_of_lots(lots, n),
    decreases n,
{
    lemma_of_parts(0, 0);
    if n > 0 {
        lemma_profit(lots, (n - 1) as nat);
        lemma_plus_exact(
            lots_realized(lots, (n - 1) as nat)->0,
            lots[n - 1].1.realized_pnl,
        );
    } else {
        assert(Decimal::zero().units() == 0);
    }
}

/// The realized profit of a sound state is that of its lots together.
pub proof fn law_sound_profit_is_that_of_the_lots(s: StrategyStateView)
    requires
        first_violation(s) is None,
        profits_add_exactly(s.lots, s.lots.len()),
    ensures
        s.realized_pnl.units() == profit_of_lots(s.lots, s.lots.len()),
{
    lemma_profit(s.lots, s.lots.len());
}

proof fn lemma_backing_fails(s: StrategyStateView, n: nat) -> (k: int)
    requires
        n <= s.grid_rights.len(),
        backed_fault(s, n) == Some(InvariantViolation::Backing),
    ensures
        0 <= k < n,
        crate::audit::right_fault(s, s.grid_rights[k].1) == Some(InvariantViolation::Backing),
    decreases n,
{
    if n > 0 && backed_fault(s, (n - 1) as nat) is Some {
        lemma_backing_fails(s, (n - 1) as nat)
    } else {
        n - 1
    }
}

proof fn lemma_no_such_fault(s: StrategyStateView, n: nat)
    ensures
        tranches_fault(s, n) matches Some(v) ==> v == InvariantViolation::Tranche || v
            == InvariantViolation::TrancheOwner || v == InvariantViolation::TrancheIdentity || v
            == InvariantViolation::TrancheLot,
        buys_fault(s, n) matches Some(v) ==> v == InvariantViolation::BuyUnit || v
            == InvariantViolation::NumericRange,
        decisions_fault(s, n) matches Some(v) ==> v == InvariantViolation::MechanicalUnit || v
            == InvariantViolation::UnitPartition || v == InvariantViolation::Partition,
        backed_fault(s, n) matches Some(v) ==> v == InvariantViolation::Ownership || v
            == InvariantViolation::NumericRange || v == InvariantViolation::Backing,
        rights_fault(s, n) matches Some(v) ==> v == InvariantViolation::UnmintedTranche || v
            == InvariantViolation::ForeignTranche,
    decreases n,
{
    if n > 0 {
        lemma_no_such_fault(s, (n - 1) as nat);
        let r = s.grid_rights[n - 1].1;
        lemma_no_such_name(s, r, r.capacity.tranche_ids.len());
    }
}

proof fn lemma_no_such_name(s: StrategyStateView, r: GridRightView, n: nat)
    ensures
        named_fault(s, r, n) matches Some(v) ==> v == InvariantViolation::UnmintedTranche || v
            == InvariantViolation::ForeignTranche,
    decreases n,
{
    if n > 0 {
        lemma_no_such_name(s, r, (n - 1) as nat);
    }
}

/// A violation has its cause: an account with a negative number, more sellable or frozen
/// than there is, or no other account; a depth with more than one unit; more to sell of a
/// lot than it has left; a reserved right that its tranches do not back; or a realized
/// profit that is not that of the lots.
pub proof fn law_violations_have_their_cause(s: StrategyStateView)
    ensures
        first_violation(s) == Some(InvariantViolation::Account) <==> !{
            &&& s.cash.available.units() >= 0
            &&& s.cash.frozen.units() >= 0
            &&& s.cash.total_fees.units() >= 0
            &&& s.position.today_bought >= 0
            &&& 0 <= s.position.frozen_sell <= s.position.sellable
            &&& s.position.sellable + s.position.today_bought <= s.position.total
        },
        first_violation(s) == Some(InvariantViolation::BuyDepth) ==> exists|i: int|
            0 <= i < s.right_tranches.len() && depth_sum(
                s.right_tranches,
                (#[trigger] s.right_tranches[i].1).cycle_id,
                s.right_tranches[i].1.birth_grid_index,
                s.right_tranches.len(),
            ) > s.audited_standard_quantity,
        first_violation(s) == Some(InvariantViolation::SellAuthorization) ==> exists|i: int|
            0 <= i < s.right_tranches.len() && ((#[trigger] s.right_tranches[i].1).lot_id matches Some(
                id,
            ) && (lookup::<String, TradingLotView>(s.lots, id) matches Some(lot) && sellable_of(
                s.right_tranches,
                id,
                s.right_tranches.len(),
            ) > lot.remaining_quantity)),
        first_violation(s) == Some(InvariantViolation::Backing) ==> exists|k: int|
            0 <= k < s.grid_rights.len() && (#[trigger] s.grid_rights[k].1).status
                == GridRightStatus::Reserved && s.grid_rights[k].1.reserved_quantity != backing_sum(
                s.right_tranches,
                s.grid_rights[k].1.right_id,
                s.right_tranches.len(),
            ),
        first_violation(s) == Some(InvariantViolation::RealizedProfit) && profits_add_exactly(
            s.lots,
            s.lots.len(),
        ) ==> s.realized_pnl.units() != profit_of_lots(s.lots, s.lots.len()),
{
    lemma_no_such_fault(s, s.right_tranches.len());
    lemma_no_such_fault(s, s.grid_rights.len());
    let n = s.right_tranches.len();
    if first_violation(s) == Some(InvariantViolation::BuyDepth) {
        let i = choose|i: int|
            0 <= i < s.right_tranches.len() && #[trigger] crate::audit::depth_exceeded(s, i);
        let t = s.right_tranches[i].1;
        lemma_depth(s.right_tranches, t.cycle_id, t.birth_grid_index, n);
        assert(s.right_tranches[i].1 == t);
    }
    if first_violation(s) == Some(InvariantViolation::SellAuthorization) {
        let i = choose|i: int|
            0 <= i < s.right_tranches.len() && #[trigger] crate::audit::oversold(s, i);
        let t = s.right_tranches[i].1;
        lemma_sellable(s.right_tranches, t.lot_id->0, n);
        assert(s.right_tranches[i].1 == t);
    }
    if first_violation(s) == Some(InvariantViolation::Backing) {
        let k = lemma_backing_fails(s, s.grid_rights.len());
        let r = s.grid_rights[k].1;
        lemma_backing(s.right_tranches, r.right_id, n);
        assert(s.grid_rights[k].1 == r);
    }
    if profits_add_exactly(s.lots, s.lots.len()) {
        lemma_profit(s.lots, s.lots.len());
    }
}

} // verus!

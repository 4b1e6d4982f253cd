//! Tranches: minted, handed from right to right, and moved between their
//! accounts.
use crate::arith::{magnitude, magnitude_of};
use crate::decimal::{from_parts, minus, plus, read_decimal, Decimal};
use crate::event::kinds::EventType;
use crate::event::levels::{index_in_range, small_index};
use crate::event::payload::{EventEnvelope, EventEnvelopeView};
use crate::model::ledger::{StrategyState, StrategyStateView};
use crate::model::market::Direction;
use crate::model::notices::{
    Appraisal, AppraisalView, BalanceItem, BalanceItemView, BalanceNotice, BalanceNoticeView,
    TransferNotice, TransferNoticeView,
};
use crate::model::rights::{
    right_tranche_alike, GridRight, GridRightView, RightTranche, RightTrancheUnit, RightTrancheView,
};
use crate::rights::tranche_in_order;
use crate::table::{holds_key, lookup, with};
use crate::text::text_eq;
use crate::value::{text_list_contains, Value};
use vstd::prelude::*;

verus! {

/// The tranches of a state by their identifiers.
pub type Tranches = Seq<(Seq<char>, RightTrancheView)>;

/// The right with an identifier.
pub open spec fn right_of(s: StrategyStateView, id: Seq<char>) -> Option<GridRightView> {
    lookup::<String, GridRightView>(s.grid_rights, id)
}

/// Whether some of the tranches agrees with a tranche.
pub open spec fn among(list: Seq<RightTrancheView>, t: RightTrancheView) -> bool {
    exists|i: int| 0 <= i < list.len() && right_tranche_alike(#[trigger] list[i], t)
}

fn is_among(list: &Vec<RightTranche>, t: &RightTranche) -> (r: bool)
    ensures
        r == among(list.deep_view(), t@),
{
    let mut i: usize = 0;
    while i < list.len()
        invariant
            i <= list.len(),
            forall|j: int|
                0 <= j < i ==> !right_tranche_alike(#[trigger] list.deep_view()[j], t@),
        decreases list.len() - i,
    {
        if list[i].alike(t) {
            assert(right_tranche_alike(list.deep_view()[i as int], t@));
            return true;
        }
        i = i + 1;
    }
    false
}

/// Whether a minted tranche counts in the unit of the run.
pub open spec fn mint_in_unit(
    s: StrategyStateView,
    t: RightTrancheView,
    a: AppraisalView,
) -> bool {
    &&& s.audited_standard_quantity > 0
    &&& s.audited_lot_size > 0
    &&& t.unit == RightTrancheUnit::Quantity
    &&& match t.direction {
        Direction::Buy => t.lot_id is None && t.minted_quantity == s.audited_standard_quantity,
        Direction::Sell => t.lot_id is Some && among(a.sell_tranches, t),
    }
}

/// The state after a tranche is minted for its right.
pub open spec fn tranche_minted(
    s: StrategyStateView,
    e: EventEnvelopeView,
    t: RightTrancheView,
    a: AppraisalView,
) -> Option<StrategyStateView> {
    match right_of(s, t.owner_right_id) {
        None => None,
        Some(owner) => if tranche_in_order(t) && owner.cycle_id == t.cycle_id && owner.direction
            == t.direction && owner.grid_index == t.birth_grid_index
            && owner.capacity.tranche_ids.contains(t.tranche_id) && !holds_key::<
            String,
            RightTrancheView,
        >(s.right_tranches, t.tranche_id) && (e.schema_version >= 2 ==> mint_in_unit(s, t, a)) {
            Some(
                StrategyStateView {
                    right_tranches: with::<String, RightTrancheView>(
                        s.right_tranches,
                        t.tranche_id,
                        t,
                    ),
                    ..s
                },
            )
        } else {
            None
        },
    }
}

/// Whether a tranche still has something to lose, or has bought something.
pub open spec fn still_live(t: RightTrancheView, buys: bool) -> bool {
    ||| t.available_budget.units() > 0
    ||| t.reserved_budget.units() > 0
    ||| t.available_quantity > 0
    ||| t.reserved_quantity > 0
    ||| buys && (t.consumed_budget.units() > 0 || t.consumed_quantity > 0)
}

fn is_live(t: &RightTranche, buys: bool) -> (r: bool)
    ensures
        r == still_live(t@, buys),
{
    t.available_budget.is_positive() || t.reserved_budget.is_positive() || t.available_quantity > 0
        || t.reserved_quantity > 0 || (buys && (t.consumed_budget.is_positive()
        || t.consumed_quantity > 0))
}

/// Whether a tranche does not reach the given depth, if it belongs to the right
/// and is live.
pub open spec fn short_of(
    t: RightTrancheView,
    owner: Seq<char>,
    buys: bool,
    depth: i32,
) -> bool {
    t.owner_right_id == owner && still_live(t, buys) ==> {
        &&& magnitude(t.birth_grid_index) matches Some(d)
        &&& d < depth
    }
}

/// Whether a tranche of the right was revoked at the given depth.
pub open spec fn revoked_at(t: RightTrancheView, owner: Seq<char>, depth: i32) -> bool {
    &&& t.owner_right_id == owner
    &&& magnitude(t.birth_grid_index) == Some(depth)
    &&& t.revoked_budget.units() > 0 || t.revoked_quantity > 0
}

/// Whether the target lies beyond all that the source still has, and either
/// deeper than the source or where the source was revoked.
pub open spec fn beyond_frontier(
    tranches: Tranches,
    source_id: Seq<char>,
    source: GridRightView,
    target: GridRightView,
) -> bool {
    match (magnitude(source.grid_index), magnitude(target.grid_index)) {
        (Some(from), Some(to)) => {
            &&& to > 0
            &&& forall|i: int|
                0 <= i < tranches.len() ==> short_of(
                    #[trigger] tranches[i].1,
                    source_id,
                    source.direction == Direction::Buy,
                    to,
                )
            &&& to > from || exists|i: int|
                0 <= i < tranches.len() && revoked_at(#[trigger] tranches[i].1, source_id, to)
        },
        _ => false,
    }
}

/// A tranche with another owner, where it may be handed over.
pub open spec fn handed_over(
    t: RightTrancheView,
    source_id: Seq<char>,
    target_id: Seq<char>,
    target: GridRightView,
) -> Option<RightTrancheView> {
    let n = RightTrancheView { owner_right_id: target_id, ..t };
    if t.owner_right_id == source_id && target.capacity.tranche_ids.contains(t.tranche_id)
        && t.reserved_budget.units() == 0 && t.reserved_quantity == 0 && (t.available_budget.units()
        != 0 || t.available_quantity != 0) && tranche_in_order(n) {
        Some(n)
    } else {
        None
    }
}

/// The tranches after the first `n` of a list are handed over.
pub open spec fn all_handed_over(
    tranches: Tranches,
    ids: Seq<Option<Seq<char>>>,
    source_id: Seq<char>,
    target_id: Seq<char>,
    target: GridRightView,
    n: nat,
) -> Option<Tranches>
    decreases n,
{
    if n == 0 {
        Some(tranches)
    } else {
        match (
            all_handed_over(tranches, ids, source_id, target_id, target, (n - 1) as nat),
            ids[n - 1],
        ) {
            (Some(before), Some(id)) => match lookup::<String, RightTrancheView>(before, id) {
                None => None,
                Some(t) => match handed_over(t, source_id, target_id, target) {
                    None => None,
                    Some(next) => Some(with::<String, RightTrancheView>(before, id, next)),
                },
            },
            _ => None,
        }
    }
}

/// The state after tranches are handed from one right to another.
pub open spec fn balance_transferred(
    s: StrategyStateView,
    e: EventEnvelopeView,
    p: TransferNoticeView,
) -> Option<StrategyStateView> {
    match (p.source_right_id, p.target_right_id, p.tranche_ids) {
        (Some(source_id), Some(target_id), Some(ids)) => match (
            right_of(s, source_id),
            right_of(s, target_id),
        ) {
            (Some(source), Some(target)) => if source.cycle_id == target.cycle_id
                && source.direction == target.direction && (e.schema_version >= 2
                ==> beyond_frontier(s.right_tranches, source_id, source, target)) && ids.len() > 0 {
                match all_handed_over(
                    s.right_tranches,
                    ids,
                    source_id,
                    target_id,
                    target,
                    ids.len(),
                ) {
                    Some(right_tranches) => Some(StrategyStateView { right_tranches, ..s }),
                    None => None,
                }
            } else {
                None
            },
            _ => None,
        },
        _ => None,
    }
}

/// A movement between the accounts of a tranche.
#[derive(Clone, Copy, Debug, PartialEq, Eq, Structural)]
pub enum BalanceMove {
    Reserve,
    Release,
    Consume,
    Revoke,
    Expire,
}

/// The movement of a kind of event.
pub open spec fn balance_move(t: EventType) -> Option<BalanceMove> {
    match t {
        EventType::RightBalanceReserved => Some(BalanceMove::Reserve),
        EventType::RightBalanceReleased => Some(BalanceMove::Release),
        EventType::RightBalanceConsumed => Some(BalanceMove::Consume),
        EventType::RightBalanceRevoked => Some(BalanceMove::Revoke),
        EventType::RightBalanceExpired => Some(BalanceMove::Expire),
        _ => None,
    }
}

/// Two accounts after an amount moves from the first to the second. Nothing
/// where the first holds less or a number leaves its range.
pub open spec fn shifted(
    from_budget: Decimal,
    to_budget: Decimal,
    from_quantity: i64,
    to_quantity: i64,
    budget: Decimal,
    quantity: i64,
) -> Option<(Decimal, Decimal, i64, i64)> {
    if from_budget.units() < budget.units() || from_quantity < quantity {
        None
    } else {
        match (
            minus(from_budget, budget),
            plus(to_budget, budget),
            from_quantity.checked_sub(quantity),
            to_quantity.checked_add(quantity),
        ) {
            (Some(fb), Some(tb), Some(fq), Some(tq)) => Some((fb, tb, fq, tq)),
            _ => None,
        }
    }
}

fn shift(
    from_budget: Decimal,
    to_budget: Decimal,
    from_quantity: i64,
    to_quantity: i64,
    budget: Decimal,
    quantity: i64,
) -> (r: Option<(Decimal, Decimal, i64, i64)>)
    ensures
        r == shifted(from_budget, to_budget, from_quantity, to_quantity, budget, quantity),
{
    if from_budget.below(&budget) || from_quantity < quantity {
        return None;
    }
    match (
        from_budget.checked_sub(budget),
        to_budget.checked_add(budget),
        from_quantity.checked_sub(quantity),
        to_quantity.checked_add(quantity),
    ) {
        (Some(fb), Some(tb), Some(fq), Some(tq)) => Some((fb, tb, fq, tq)),
        _ => None,
    }
}

/// Whether a revocation is at the depth where the tranche was born.
pub open spec fn reversal_at_birth(t: RightTrancheView, reversal: Option<i64>) -> bool {
    match (magnitude(t.birth_grid_index), small_index(reversal)) {
        (Some(birth), Some(grid)) => magnitude(grid) == Some(birth),
        _ => false,
    }
}

/// A tranche after an amount moves between its accounts.
pub open spec fn moved(
    t: RightTrancheView,
    m: BalanceMove,
    budget: Decimal,
    quantity: i64,
    reversal: Option<i64>,
) -> Option<RightTrancheView> {
    match m {
        BalanceMove::Reserve => match shifted(
            t.available_budget,
            t.reserved_budget,
            t.available_quantity,
            t.reserved_quantity,
            budget,
            quantity,
        ) {
            Some(x) => Some(
                RightTrancheView {
                    available_budget: x.0,
                    reserved_budget: x.1,
                    available_quantity: x.2,
                    reserved_quantity: x.3,
                    ..t
                },
            ),
            None => None,
        },
        BalanceMove::Release => match shifted(
            t.reserved_budget,
            t.available_budget,
            t.reserved_quantity,
            t.available_quantity,
            budget,
            quantity,
        ) {
            Some(x) => Some(
                RightTrancheView {
                    reserved_budget: x.0,
                    available_budget: x.1,
                    reserved_quantity: x.2,
                    available_quantity: x.3,
                    ..t
                },
            ),
            None => None,
        },
        BalanceMove::Consume => match shifted(
            t.reserved_budget,
            t.consumed_budget,
            t.reserved_quantity,
            t.consumed_quantity,
            budget,
            quantity,
        ) {
            Some(x) => Some(
                RightTrancheView {
                    reserved_budget: x.0,
                    consumed_budget: x.1,
                    reserved_quantity: x.2,
                    consumed_quantity: x.3,
                    ..t
                },
            ),
            None => None,
        },
        BalanceMove::Revoke => if !reversal_at_birth(t, reversal) {
            None
        } else {
            match shifted(
                t.available_budget,
                t.revoked_budget,
                t.available_quantity,
                t.revoked_quantity,
                budget,
                quantity,
            ) {
                Some(x) => Some(
                    RightTrancheView {
                        available_budget: x.0,
                        revoked_budget: x.1,
                        available_quantity: x.2,
                        revoked_quantity: x.3,
                        ..t
                    },
                ),
                None => None,
            }
        },
        BalanceMove::Expire => if t.reserved_budget.units() != 0 || t.reserved_quantity != 0 {
            None
        } else {
            match shifted(
                t.available_budget,
                t.expired_budget,
                t.available_quantity,
                t.expired_quantity,
                budget,
                quantity,
            ) {
                Some(x) => Some(
                    RightTrancheView {
                        available_budget: x.0,
                        expired_budget: x.1,
                        available_quantity: x.2,
                        expired_quantity: x.3,
                        ..t
                    },
                ),
                None => None,
            }
        },
    }
}

/// The money of an item; none where the item does not say.
pub open spec fn item_budget(text: Option<Seq<char>>) -> Option<Decimal> {
    match text {
        None => Some(Decimal::zero()),
        Some(t) => from_parts(read_decimal(t)),
    }
}

/// The shares of an item; none where the item does not say.
pub open spec fn item_quantity(quantity: Option<i64>) -> i64 {
    match quantity {
        Some(q) => q,
        None => 0,
    }
}

/// Whether an amount is one that the tranche of the right may move.
pub open spec fn amount_fits(
    t: RightTrancheView,
    right_id: Seq<char>,
    budget: Decimal,
    quantity: i64,
) -> bool {
    &&& t.owner_right_id == right_id
    &&& budget.units() >= 0
    &&& quantity >= 0
    &&& budget.units() != 0 || quantity != 0
    &&& t.unit == RightTrancheUnit::Budget ==> quantity == 0
    &&& t.unit == RightTrancheUnit::Quantity ==> budget.units() == 0
}

/// The tranches after one item.
pub open spec fn item_moved(
    tranches: Tranches,
    item: BalanceItemView,
    right_id: Seq<char>,
    m: BalanceMove,
    reversal: Option<i64>,
) -> Option<Tranches> {
    match (item.tranche_id, item_budget(item.budget)) {
        (Some(id), Some(budget)) => match lookup::<String, RightTrancheView>(tranches, id) {
            None => None,
            Some(t) => {
                let quantity = item_quantity(item.quantity);
                if !amount_fits(t, right_id, budget, quantity) {
                    None
                } else {
                    match moved(t, m, budget, quantity, reversal) {
                        Some(n) => if tranche_in_order(n) {
                            Some(with::<String, RightTrancheView>(tranches, id, n))
                        } else {
                            None
                        },
                        None => None,
                    }
                }
            },
        },
        _ => None,
    }
}

/// The tranches after the first `n` items.
pub open spec fn items_moved(
    tranches: Tranches,
    items: Seq<BalanceItemView>,
    right_id: Seq<char>,
    m: BalanceMove,
    reversal: Option<i64>,
    n: nat,
) -> Option<Tranches>
    decreases n,
{
    if n == 0 {
        Some(tranches)
    } else {
        match items_moved(tranches, items, right_id, m, reversal, (n - 1) as nat) {
            Some(before) => item_moved(before, items[n - 1], right_id, m, reversal),
            None => None,
        }
    }
}

/// The state after amounts move between the accounts of tranches.
pub open spec fn balance_moved(
    s: StrategyStateView,
    m: BalanceMove,
    p: BalanceNoticeView,
) -> Option<StrategyStateView> {
    match (p.right_id, p.allocations) {
        (Some(right_id), Some(items)) => if items.len() == 0 {
            None
        } else {
            match items_moved(
                s.right_tranches,
                items,
                right_id,
                m,
                p.reversal_from_grid,
                items.len(),
            ) {
                Some(right_tranches) => Some(StrategyStateView { right_tranches, ..s }),
                None => None,
            }
        },
        _ => None,
    }
}

proof fn lemma_handed_over_stops(
    tranches: Tranches,
    ids: Seq<Option<Seq<char>>>,
    source_id: Seq<char>,
    target_id: Seq<char>,
    target: GridRightView,
    n: nat,
    m: nat,
)
    requires
        n <= m,
        all_handed_over(tranches, ids, source_id, target_id, target, n) is None,
    ensures
        all_handed_over(tranches, ids, source_id, target_id, target, m) is None,
    decreases m - n,
{
    if n < m {
        lemma_handed_over_stops(tranches, ids, source_id, target_id, target, n, (m - 1) as nat);
    }
}

proof fn lemma_items_moved_stops(
    tranches: Tranches,
    items: Seq<BalanceItemView>,
    right_id: Seq<char>,
    m: BalanceMove,
    reversal: Option<i64>,
    n: nat,
    k: nat,
)
    requires
        n <= k,
        items_moved(tranches, items, right_id, m, reversal, n) is None,
    ensures
        items_moved(tranches, items, right_id, m, reversal, k) is None,
    decreases k - n,
{
    if n < k {
        lemma_items_moved_stops(tranches, items, right_id, m, reversal, n, (k - 1) as nat);
    }
}

impl RightTranche {
    fn reversal_is_at_birth(&self, reversal: Option<i64>) -> (r: bool)
        ensures
            r == reversal_at_birth(self@, reversal),
    {
        match (magnitude_of(self.birth_grid_index), index_in_range(reversal)) {
            (Some(birth), Some(grid)) => match magnitude_of(grid) {
                Some(depth) => depth == birth,
                None => false,
            },
            _ => false,
        }
    }

    /// Moves an amount between the accounts of the tranche.
    pub(crate) fn move_amount(
        &mut self,
        m: BalanceMove,
        budget: Decimal,
        quantity: i64,
        reversal: Option<i64>,
    ) -> (r: bool)
        ensures
            match moved(old(self)@, m, budget, quantity, reversal) {
                Some(n) => r && final(self)@ == n,
                None => !r,
            },
    {
        match m {
            BalanceMove::Reserve => match shift(
                self.available_budget,
                self.reserved_budget,
                self.available_quantity,
                self.reserved_quantity,
                budget,
                quantity,
            ) {
                Some(x) => {
                    self.available_budget = x.0;
                    self.reserved_budget = x.1;
                    self.available_quantity = x.2;
                    self.reserved_quantity = x.3;
                    true
                },
                None => false,
            },
            BalanceMove::Release => match shift(
                self.reserved_budget,
                self.available_budget,
                self.reserved_quantity,
                self.available_quantity,
                budget,
                quantity,
            ) {
                Some(x) => {
                    self.reserved_budget = x.0;
                    self.available_budget = x.1;
                    self.reserved_quantity = x.2;
                    self.available_quantity = x.3;
                    true
                },
                None => false,
            },
            BalanceMove::Consume => match shift(
                self.reserved_budget,
                self.consumed_budget,
                self.reserved_quantity,
                self.consumed_quantity,
                budget,
                quantity,
            ) {
                Some(x) => {
                    self.reserved_budget = x.0;
                    self.consumed_budget = x.1;
                    self.reserved_quantity = x.2;
                    self.consumed_quantity = x.3;
                    true
                },
                None => false,
            },
            BalanceMove::Revoke => {
                if !self.reversal_is_at_birth(reversal) {
                    return false;
                }
                match shift(
                    self.available_budget,
                    self.revoked_budget,
                    self.available_quantity,
                    self.revoked_quantity,
                    budget,
                    quantity,
                ) {
                    Some(x) => {
                        self.available_budget = x.0;
                        self.revoked_budget = x.1;
                        self.available_quantity = x.2;
                        self.revoked_quantity = x.3;
                        true
                    },
                    None => false,
                }
            },
            BalanceMove::Expire => {
                if !self.reserved_budget.is_zero() || self.reserved_quantity != 0 {
                    return false;
                }
                match shift(
                    self.available_budget,
                    self.expired_budget,
                    self.available_quantity,
                    self.expired_quantity,
                    budget,
                    quantity,
                ) {
                    Some(x) => {
                        self.available_budget = x.0;
                        self.expired_budget = x.1;
                        self.available_quantity = x.2;
                        self.expired_quantity = x.3;
                        true
                    },
                    None => false,
                }
            },
        }
    }

    fn amount_is_fit(&self, right_id: &str, budget: &Decimal, quantity: i64) -> (r: bool)
        ensures
            r == amount_fits(self@, right_id@, *budget, quantity),
    {
        let in_money = matches!(self.unit, RightTrancheUnit::Budget);
        text_eq(self.owner_right_id.as_str(), right_id) && !budget.is_negative() && quantity >= 0
            && (!budget.is_zero() || quantity != 0) && (!in_money || quantity == 0) && (in_money
            || budget.is_zero())
    }
}

impl StrategyState {
    fn mint_is_in_unit(&self, t: &RightTranche, appraisal: &Appraisal) -> (r: bool)
        ensures
            r == mint_in_unit(self@, t@, appraisal@),
    {
        if self.audited_standard_quantity <= 0 || self.audited_lot_size <= 0 || !matches!(
            t.unit,
            RightTrancheUnit::Quantity
        ) {
            return false;
        }
        match t.direction {
            Direction::Buy => t.lot_id.is_none() && t.minted_quantity
                == self.audited_standard_quantity,
            Direction::Sell => t.lot_id.is_some() && is_among(&appraisal.sell_tranches, t),
        }
    }

    pub(crate) fn mint_tranche(
        &mut self,
        event: &EventEnvelope,
        t: &RightTranche,
        appraisal: &Appraisal,
    ) -> (r: bool)
        ensures
            match tranche_minted(old(self)@, event@, t@, appraisal@) {
                Some(n) => r && final(self)@ == n,
                None => !r,
            },
    {
        let bound = match self.grid_rights.get(&t.owner_right_id) {
            None => false,
            Some(owner) => t.validate().is_ok() && text_eq(
                owner.cycle_id.as_str(),
                t.cycle_id.as_str(),
            ) && owner.direction == t.direction && owner.grid_index == t.birth_grid_index
                && text_list_contains(&owner.capacity.tranche_ids, t.tranche_id.as_str()),
        };
        if !bound || self.right_tranches.contains(&t.tranche_id) {
            return false;
        }
        if event.schema_version >= 2 && !self.mint_is_in_unit(t, appraisal) {
            return false;
        }
        self.right_tranches.put(t.tranche_id.dup(), t.dup());
        true
    }

    fn is_beyond_frontier(&self, source_id: &str, source: &GridRight, target: &GridRight) -> (r:
        bool)
        ensures
            r == beyond_frontier(self@.right_tranches, source_id@, source@, target@),
    {
        let (from, to): (i32, i32) = match (
            magnitude_of(source.grid_index),
            magnitude_of(target.grid_index),
        ) {
            (Some(from), Some(to)) => (from, to),
            _ => {
                return false;
            },
        };
        if to <= 0 {
            return false;
        }
        let buys = matches!(source.direction, Direction::Buy);
        let ghost all = self@.right_tranches;
        let mut revoked = false;
        let mut i: usize = 0;
        while i < self.right_tranches.len()
            invariant
                i <= all.len(),
                all == self@.right_tranches,
                all == self.right_tranches@,
                magnitude(source@.grid_index) == Some(from),
                magnitude(target@.grid_index) == Some(to),
                buys == (source@.direction == Direction::Buy),
                to > 0,
                forall|j: int| 0 <= j < i ==> short_of(#[trigger] all[j].1, source_id@, buys, to),
                revoked == exists|j: int|
                    0 <= j < i && revoked_at(#[trigger] all[j].1, source_id@, to),
            decreases all.len() - i,
        {
            let t = self.right_tranches.value_at(i);
            assert(t@ == all[i as int].1);
            if text_eq(t.owner_right_id.as_str(), source_id) {
                let depth: Option<i32> = magnitude_of(t.birth_grid_index);
                if is_live(t, buys) {
                    let short = match depth {
                        Some(d) => d < to,
                        None => false,
                    };
                    if !short {
                        assert(!short_of(all[i as int].1, source_id@, buys, to));
                        return false;
                    }
                }
                let at_depth = match depth {
                    Some(d) => d == to,
                    None => false,
                };
                if at_depth && (t.revoked_budget.is_positive() || t.revoked_quantity > 0) {
                    assert(revoked_at(all[i as int].1, source_id@, to));
                    revoked = true;
                }
            }
            i = i + 1;
        }
        to > from || revoked
    }

    fn hand_over(&mut self, id: &String, source_id: &str, target_id: &str, target: &GridRight) -> (r:
        bool)
        ensures
            match lookup::<String, RightTrancheView>(old(self)@.right_tranches, id@) {
                None => !r,
                Some(t) => match handed_over(t, source_id@, target_id@, target@) {
                    None => !r,
                    Some(n) => r && final(self)@ == (StrategyStateView {
                        right_tranches: with::<String, RightTrancheView>(
                            old(self)@.right_tranches,
                            id@,
                            n,
                        ),
                        ..old(self)@
                    }),
                },
            },
    {
        let mut next = match self.right_tranches.get(id) {
            Some(t) => t.dup(),
            None => {
                return false;
            },
        };
        if !text_eq(next.owner_right_id.as_str(), source_id) || !text_list_contains(
            &target.capacity.tranche_ids,
            next.tranche_id.as_str(),
        ) || !next.reserved_budget.is_zero() || next.reserved_quantity != 0
            || (next.available_budget.is_zero() && next.available_quantity == 0) {
            return false;
        }
        next.owner_right_id = target_id.to_owned();
        if next.validate().is_err() {
            return false;
        }
        self.right_tranches.put(id.dup(), next);
        true
    }

    pub(crate) fn transfer_balance(&mut self, event: &EventEnvelope, notice: &TransferNotice) -> (r:
        bool)
        ensures
            match balance_transferred(old(self)@, event@, notice@) {
                Some(n) => r && final(self)@ == n,
                None => !r,
            },
    {
        let ghost start = self@;
        let (source_id, target_id, ids) = match (
            &notice.source_right_id,
            &notice.target_right_id,
            &notice.tranche_ids,
        ) {
            (Some(source_id), Some(target_id), Some(ids)) => (source_id, target_id, ids),
            _ => {
                return false;
            },
        };
        let source = match self.grid_rights.get(source_id) {
            Some(right) => right.dup(),
            None => {
                return false;
            },
        };
        let target = match self.grid_rights.get(target_id) {
            Some(right) => right.dup(),
            None => {
                return false;
            },
        };
        if !text_eq(source.cycle_id.as_str(), target.cycle_id.as_str()) || source.direction
            != target.direction {
            return false;
        }
        if event.schema_version >= 2 && !self.is_beyond_frontier(
            source_id.as_str(),
            &source,
            &target,
        ) {
            return false;
        }
        if ids.len() == 0 {
            return false;
        }
        let ghost list = ids.deep_view();
        let mut i: usize = 0;
        while i < ids.len()
            invariant
                i <= ids.len(),
                list == ids.deep_view(),
                start == old(self)@,
                self@.right_tranches == all_handed_over(
                    start.right_tranches,
                    list,
                    source_id@,
                    target_id@,
                    target@,
                    i as nat,
                )->0,
                all_handed_over(
                    start.right_tranches,
                    list,
                    source_id@,
                    target_id@,
                    target@,
                    i as nat,
                ) is Some,
                self@ == (StrategyStateView { right_tranches: self@.right_tranches, ..start }),
                balance_transferred(start, event@, notice@) == (match all_handed_over(
                    start.right_tranches,
                    list,
                    source_id@,
                    target_id@,
                    target@,
                    list.len(),
                ) {
                    Some(right_tranches) => Some(StrategyStateView { right_tranches, ..start }),
                    None => None,
                }),
            decreases ids.len() - i,
        {
            let moved = match &ids[i] {
                Some(id) => self.hand_over(id, source_id.as_str(), target_id.as_str(), &target),
                None => false,
            };
            assert(list[i as int] == ids[i as int].deep_view());
            if !moved {
                proof {
                    lemma_handed_over_stops(
                        start.right_tranches,
                        list,
                        source_id@,
                        target_id@,
                        target@,
                        (i + 1) as nat,
                        list.len(),
                    );
                }
                return false;
            }
            i = i + 1;
        }
        true
    }

    fn move_item(
        &mut self,
        item: &BalanceItem,
        right_id: &str,
        m: BalanceMove,
        reversal: Option<i64>,
    ) -> (r: bool)
        ensures
            match item_moved(old(self)@.right_tranches, item@, right_id@, m, reversal) {
                None => !r,
                Some(right_tranches) => r && final(self)@ == (StrategyStateView {
                    right_tranches,
                    ..old(self)@
                }),
            },
    {
        let id = match &item.tranche_id {
            Some(id) => id,
            None => {
                return false;
            },
        };
        let budget = match &item.budget {
            Some(text) => Decimal::parse(text.as_str()),
            None => Some(Decimal::nil()),
        };
        let budget = match budget {
            Some(b) => b,
            None => {
                return false;
            },
        };
        let quantity: i64 = match item.quantity {
            Some(q) => q,
            None => 0,
        };
        let mut next = match self.right_tranches.get(id) {
            Some(t) => t.dup(),
            None => {
                return false;
            },
        };
        if !next.amount_is_fit(right_id, &budget, quantity) {
            return false;
        }
        if !next.move_amount(m, budget, quantity, reversal) {
            return false;
        }
        if next.validate().is_err() {
            return false;
        }
        self.right_tranches.put(id.dup(), next);
        true
    }

    pub(crate) fn move_balance(&mut self, m: BalanceMove, notice: &BalanceNotice) -> (r: bool)
        ensures
            match balance_moved(old(self)@, m, notice@) {
                Some(n) => r && final(self)@ == n,
                None => !r,
            },
    {
        let ghost start = self@;
        let (right_id, items) = match (&notice.right_id, &notice.allocations) {
            (Some(right_id), Some(items)) => (right_id, items),
            _ => {
                return false;
            },
        };
        if items.len() == 0 {
            return false;
        }
        let ghost list = items.deep_view();
        let mut i: usize = 0;
        while i < items.len()
            invariant
                i <= items.len(),
                list == items.deep_view(),
                start == old(self)@,
                notice@.right_id == Some(right_id@),
                notice@.allocations == Some(list),
                list.len() > 0,
                items_moved(
                    start.right_tranches,
                    list,
                    right_id@,
                    m,
                    notice@.reversal_from_grid,
                    i as nat,
                ) == Some(self@.right_tranches),
                self@ == (StrategyStateView { right_tranches: self@.right_tranches, ..start }),
            decreases items.len() - i,
        {
            assert(list[i as int] == items[i as int]@);
            if !self.move_item(&items[i], right_id.as_str(), m, notice.reversal_from_grid) {
                proof {
                    lemma_items_moved_stops(
                        start.right_tranches,
                        list,
                        right_id@,
                        m,
                        notice@.reversal_from_grid,
                        (i + 1) as nat,
                        list.len(),
                    );
                }
                return false;
            }
            i = i + 1;
        }
        true
    }
}

/// The shares of a tranche in its five accounts.
pub open spec fn quantity_total(t: RightTrancheView) -> int {
    t.available_quantity + t.reserved_quantity + t.consumed_quantity + t.revoked_quantity
        + t.expired_quantity
}

/// A movement changes neither what was minted nor the sum of the accounts, nor
/// what a tranche belongs to.
pub proof fn law_movements_conserve(
    t: RightTrancheView,
    m: BalanceMove,
    budget: Decimal,
    quantity: i64,
    reversal: Option<i64>,
)
    requires
        moved(t, m, budget, quantity, reversal) is Some,
    ensures
        ({
            let n = moved(t, m, budget, quantity, reversal)->0;
            &&& quantity_total(n) == quantity_total(t)
            &&& n.minted_quantity == t.minted_quantity
            &&& n.minted_budget == t.minted_budget
            &&& n.tranche_id == t.tranche_id
            &&& n.owner_right_id == t.owner_right_id
            &&& n.birth_grid_index == t.birth_grid_index
            &&& n.lot_id == t.lot_id
        }),
{
}

/// Releasing what was just reserved gives back the same shares in every account.
pub proof fn law_release_undoes_reserve(
    t: RightTrancheView,
    budget: Decimal,
    quantity: i64,
    back: RightTrancheView,
    reversal: Option<i64>,
)
    requires
        moved(t, BalanceMove::Reserve, budget, quantity, reversal) is Some,
        moved(
            moved(t, BalanceMove::Reserve, budget, quantity, reversal)->0,
            BalanceMove::Release,
            budget,
            quantity,
            reversal,
        ) == Some(back),
    ensures
        back.available_quantity == t.available_quantity,
        back.reserved_quantity == t.reserved_quantity,
        back.consumed_quantity == t.consumed_quantity,
        back.revoked_quantity == t.revoked_quantity,
        back.expired_quantity == t.expired_quantity,
{
}

/// What was reserved from a tranche of shares can be released again.
pub proof fn law_reservations_can_be_released(
    t: RightTrancheView,
    quantity: i64,
    reversal: Option<i64>,
)
    requires
        tranche_in_order(t),
        t.unit == RightTrancheUnit::Quantity,
        quantity >= 0,
        t.available_budget.valid(),
        t.reserved_budget.valid(),
        moved(t, BalanceMove::Reserve, Decimal::zero(), quantity, reversal) is Some,
    ensures
        moved(
            moved(t, BalanceMove::Reserve, Decimal::zero(), quantity, reversal)->0,
            BalanceMove::Release,
            Decimal::zero(),
            quantity,
            reversal,
        ) is Some,
{
    broadcast use crate::decimal::lemma_of_parts;

    let z = Decimal::zero();
    crate::decimal::lemma_units_sign(t.available_budget);
    crate::decimal::lemma_units_sign(t.reserved_budget);
    crate::decimal::lemma_units_sign(z);
    let n = moved(t, BalanceMove::Reserve, z, quantity, reversal)->0;
    crate::decimal::lemma_units_sign(n.reserved_budget);
    crate::decimal::lemma_units_sign(n.available_budget);
}

/// Every tranche that a movement leaves behind is in order, and so is every one
/// that it did not touch.
pub proof fn law_movements_keep_order(
    tranches: Tranches,
    items: Seq<BalanceItemView>,
    right_id: Seq<char>,
    m: BalanceMove,
    reversal: Option<i64>,
    n: nat,
)
    requires
        n <= items.len(),
        crate::table::ordered::<String, RightTrancheView>(tranches),
        forall|i: int| 0 <= i < tranches.len() ==> tranche_in_order(#[trigger] tranches[i].1),
        items_moved(tranches, items, right_id, m, reversal, n) is Some,
    ensures
        ({
            let after = items_moved(tranches, items, right_id, m, reversal, n)->0;
            &&& crate::table::ordered::<String, RightTrancheView>(after)
            &&& forall|i: int| 0 <= i < after.len() ==> tranche_in_order(#[trigger] after[i].1)
        }),
    decreases n,
{
    if n > 0 {
        law_movements_keep_order(tranches, items, right_id, m, reversal, (n - 1) as nat);
        let before = items_moved(tranches, items, right_id, m, reversal, (n - 1) as nat)->0;
        let after = items_moved(tranches, items, right_id, m, reversal, n)->0;
        let id = items[n - 1].tranche_id->0;
        let t = lookup::<String, RightTrancheView>(before, id)->0;
        let next = moved(
            t,
            m,
            item_budget(items[n - 1].budget)->0,
            item_quantity(items[n - 1].quantity),
            reversal,
        )->0;
        crate::table::lemma_with::<String, RightTrancheView>(before, id, next);
        assert forall|i: int| 0 <= i < after.len() implies tranche_in_order(#[trigger] after[i].1) by {
            assert(after[i].1 == next || exists|j: int|
                0 <= j < before.len() && after[i] == before[j]);
        }
    }
}

} // verus!

//! What the events on tranches do to their accounts and to their owners.
use crate::decimal::{
    adds_exactly, from_parts, lemma_minus_exact, lemma_of_parts, lemma_plus_exact, plus,
    read_decimal, subtracts_exactly, Decimal,
};
use crate::event::kinds::EventType;
use crate::event::order_laws::after;
use crate::event::payload::EventEnvelopeView;
use crate::event::reduce::grid_reduced;
use crate::event::tranches::{
    all_handed_over, balance_move, item_moved, items_moved, moved, right_of, BalanceMove, Tranches,
};
use crate::model::ledger::StrategyStateView;
use crate::model::market::Direction;
use crate::model::notices::{AppraisalView, BalanceItemView};
use crate::model::rights::{GridRightView, RightTrancheUnit, RightTrancheView};
use crate::rights::tranche_in_order;
use crate::table::{changed_at, lemma_changed_at, lookup, ordered};
use vstd::prelude::*;

verus! {

/// An account of a tranche.
pub enum Account {
    Available,
    Reserved,
    Consumed,
    Revoked,
    Expired,
}

/// The shares in an account.
pub open spec fn shares_in(t: RightTrancheView, x: Account) -> int {
    match x {
        Account::Available => t.available_quantity as int,
        Account::Reserved => t.reserved_quantity as int,
        Account::Consumed => t.consumed_quantity as int,
        Account::Revoked => t.revoked_quantity as int,
        Account::Expired => t.expired_quantity as int,
    }
}

/// The money in an account.
pub open spec fn money_in(t: RightTrancheView, x: Account) -> Decimal {
    match x {
        Account::Available => t.available_budget,
        Account::Reserved => t.reserved_budget,
        Account::Consumed => t.consumed_budget,
        Account::Revoked => t.revoked_budget,
        Account::Expired => t.expired_budget,
    }
}

/// Where a movement takes from, and where it puts.
pub open spec fn route(m: BalanceMove) -> (Account, Account) {
    match m {
        BalanceMove::Reserve => (Account::Available, Account::Reserved),
        BalanceMove::Release => (Account::Reserved, Account::Available),
        BalanceMove::Consume => (Account::Reserved, Account::Consumed),
        BalanceMove::Revoke => (Account::Available, Account::Revoked),
        BalanceMove::Expire => (Account::Available, Account::Expired),
    }
}

/// A movement takes its shares and its money from one account, which has them, and puts
/// them into another one; no other account and nothing else of the tranche changes. A
/// revocation happens only at the depth where the tranche was born, and only a tranche
/// with nothing reserved expires.
pub proof fn law_movements_go_from_one_account_to_another(
    t: RightTrancheView,
    m: BalanceMove,
    budget: Decimal,
    quantity: i64,
    reversal: Option<i64>,
    x: Account,
)
    requires
        moved(t, m, budget, quantity, reversal) is Some,
        budget.valid(),
        money_in(t, route(m).0).valid(),
        money_in(t, route(m).1).valid(),
        subtracts_exactly(money_in(t, route(m).0), budget),
        adds_exactly(money_in(t, route(m).1), budget),
    ensures
        ({
            let n = moved(t, m, budget, quantity, reversal)->0;
            let (from, to) = route(m);
            &&& shares_in(t, from) >= quantity
            &&& money_in(t, from).units() >= budget.units()
            &&& shares_in(n, from) == shares_in(t, from) - quantity
            &&& shares_in(n, to) == shares_in(t, to) + quantity
            &&& money_in(n, from).units() == money_in(t, from).units() - budget.units()
            &&& money_in(n, to).units() == money_in(t, to).units() + budget.units()
            &&& x != from && x != to ==> shares_in(n, x) == shares_in(t, x) && money_in(n, x)
                == money_in(t, x)
            &&& n.tranche_id == t.tranche_id && n.owner_right_id == t.owner_right_id && n.cycle_id
                == t.cycle_id && n.direction == t.direction && n.unit == t.unit && n.lot_id
                == t.lot_id && n.birth_grid_index == t.birth_grid_index && n.minted_quantity
                == t.minted_quantity && n.minted_budget == t.minted_budget && n.excursion_epoch
                == t.excursion_epoch
            &&& m == BalanceMove::Revoke ==> reversal is Some && (reversal->0 == t.birth_grid_index
                || reversal->0 == -t.birth_grid_index)
            &&& m == BalanceMove::Expire ==> t.reserved_quantity == 0 && t.reserved_budget.units()
                == 0
        }),
{
    lemma_minus_exact(money_in(t, route(m).0), budget);
    lemma_plus_exact(money_in(t, route(m).1), budget);
}

/// Shares can be moved wherever the account has them and the other one has room for
/// them: a movement of shares alone is refused for no other reason, but that a revocation
/// is elsewhere or something reserved would expire.
pub proof fn law_shares_can_be_moved(
    t: RightTrancheView,
    m: BalanceMove,
    quantity: i64,
    reversal: Option<i64>,
)
    requires
        money_in(t, route(m).0).valid(),
        money_in(t, route(m).1).valid(),
        money_in(t, route(m).0).units() >= 0,
        0 <= quantity <= shares_in(t, route(m).0),
        shares_in(t, route(m).1) + quantity <= i64::MAX,
        m == BalanceMove::Revoke ==> reversal == Some(t.birth_grid_index as i64)
            && t.birth_grid_index != i32::MIN,
        m == BalanceMove::Expire ==> t.reserved_quantity == 0 && t.reserved_budget.units() == 0,
    ensures
        moved(t, m, Decimal::zero(), quantity, reversal) is Some,
{
    lemma_of_parts(0, 0);
    lemma_minus_exact(money_in(t, route(m).0), Decimal::zero());
    lemma_plus_exact(money_in(t, route(m).1), Decimal::zero());
}

/// One item moves a positive amount of one tranche of the right, in the unit of the
/// tranche, and leaves every other tranche as it is and the tranche in order.
pub proof fn law_items_move_one_tranche(
    tranches: Tranches,
    item: BalanceItemView,
    right_id: Seq<char>,
    m: BalanceMove,
    reversal: Option<i64>,
)
    requires
        ordered::<String, RightTrancheView>(tranches),
        item_moved(tranches, item, right_id, m, reversal) is Some,
    ensures
        ({
            let n = item_moved(tranches, item, right_id, m, reversal)->0;
            let id = item.tranche_id->0;
            let quantity = if item.quantity is Some {
                item.quantity->0
            } else {
                0
            };
            let budget = if item.budget is Some {
                from_parts(read_decimal(item.budget->0))
            } else {
                Some(Decimal::zero())
            };
            &&& item.tranche_id is Some
            &&& budget is Some
            &&& lookup::<String, RightTrancheView>(tranches, id) matches Some(t) && {
                &&& t.owner_right_id == right_id
                &&& t.unit == RightTrancheUnit::Quantity ==> quantity > 0 && budget->0.units() == 0
                &&& t.unit == RightTrancheUnit::Budget ==> quantity == 0 && budget->0.units() > 0
                &&& moved(t, m, budget->0, quantity, reversal) matches Some(next) && changed_at::<
                    String,
                    RightTrancheView,
                >(tranches, n, id, next) && tranche_in_order(next)
            }
            &&& ordered::<String, RightTrancheView>(n)
        }),
{
    let id = item.tranche_id->0;
    let t = lookup::<String, RightTrancheView>(tranches, id)->0;
    let quantity = crate::event::tranches::item_quantity(item.quantity);
    let budget = crate::event::tranches::item_budget(item.budget)->0;
    lemma_changed_at::<String, RightTrancheView>(
        tranches,
        id,
        moved(t, m, budget, quantity, reversal)->0,
    );
}

/// The items of a movement are taken one after the other, each on what the ones before it
/// left; the event names what kind of movement it is, some items, and changes nothing but
/// tranches.
pub proof fn law_movements_take_every_item(
    s: StrategyStateView,
    e: EventEnvelopeView,
    a: AppraisalView,
) -> (stages: Seq<Tranches>)
    requires
        e.payload is Balance,
        e.event_type == EventType::RightBalanceReserved || e.event_type
            == EventType::RightBalanceReleased || e.event_type == EventType::RightBalanceConsumed
            || e.event_type == EventType::RightBalanceRevoked || e.event_type
            == EventType::RightBalanceExpired,
    ensures
        after(s, e, a) matches Some(n) ==> {
            let p = e.payload->Balance_0;
            let m = match e.event_type {
                EventType::RightBalanceReserved => BalanceMove::Reserve,
                EventType::RightBalanceReleased => BalanceMove::Release,
                EventType::RightBalanceConsumed => BalanceMove::Consume,
                EventType::RightBalanceRevoked => BalanceMove::Revoke,
                _ => BalanceMove::Expire,
            };
            &&& p.right_id is Some
            &&& p.allocations is Some && p.allocations->0.len() > 0
            &&& n == (StrategyStateView {
                right_tranches: n.right_tranches,
                event_count: (s.event_count + 1) as u64,
                ..s
            })
            &&& moved_in_turn(stages, p.allocations->0, p.right_id->0, m, p.reversal_from_grid)
            &&& stages[0] == s.right_tranches
            &&& stages.last() == n.right_tranches
        },
{
    reveal(grid_reduced);
    if let Some(n) = after(s, e, a) {
        let p = e.payload->Balance_0;
        let items = p.allocations->0;
        let m = balance_move(e.event_type)->0;
        assert(items.take(items.len() as int) =~= items);
        lemma_in_turn(
            s.right_tranches,
            items,
            p.right_id->0,
            m,
            p.reversal_from_grid,
            items.len(),
        )
    } else {
        Seq::empty()
    }
}

/// Whether tranches follow from others by items that are taken one after the other.
pub open spec fn moved_in_turn(
    stages: Seq<Tranches>,
    items: Seq<BalanceItemView>,
    right_id: Seq<char>,
    m: BalanceMove,
    reversal: Option<i64>,
) -> bool {
    &&& stages.len() == items.len() + 1
    &&& forall|k: int|
        0 <= k < items.len() ==> item_moved(
            #[trigger] stages[k],
            items[k],
            right_id,
            m,
            reversal,
        ) == Some(stages[k + 1])
}

proof fn lemma_in_turn(
    before: Tranches,
    items: Seq<BalanceItemView>,
    right_id: Seq<char>,
    m: BalanceMove,
    reversal: Option<i64>,
    n: nat,
) -> (stages: Seq<Tranches>)
    requires
        n <= items.len(),
        items_moved(before, items, right_id, m, reversal, n) is Some,
    ensures
        moved_in_turn(stages, items.take(n as int), right_id, m, reversal),
        stages[0] == before,
        stages[n as int] == items_moved(before, items, right_id, m, reversal, n)->0,
    decreases n,
{
    if n == 0 {
        seq![before]
    } else {
        let first = lemma_in_turn(before, items, right_id, m, reversal, (n - 1) as nat);
        let end = items_moved(before, items, right_id, m, reversal, n)->0;
        let stages = first.push(end);
        let taken = items.take(n as int);
        let fewer = items.take(n - 1);
        assert forall|k: int| 0 <= k < taken.len() implies item_moved(
            #[trigger] stages[k],
            taken[k],
            right_id,
            m,
            reversal,
        ) == Some(stages[k + 1]) by {
            assert(stages[k] == first[k]);
            if k < n - 1 {
                assert(fewer[k] == taken[k]);
                assert(stages[k + 1] == first[k + 1]);
            }
        }
        stages
    }
}

/// A minted tranche is in order, new, and that of its right: of its cycle, side and
/// index, and among those that the right names. In the current layout it counts in
/// shares; one for buying holds the unit of the run and no lot, one for selling names its
/// lot.
pub proof fn law_minted_tranches_belong_to_their_right(
    s: StrategyStateView,
    e: EventEnvelopeView,
    a: AppraisalView,
)
    requires
        e.event_type == EventType::RightTrancheMinted,
        e.payload is Tranche,
        ordered::<String, RightTrancheView>(s.right_tranches),
    ensures
        after(s, e, a) matches Some(n) ==> {
            let t = e.payload->Tranche_0;
            &&& lookup::<String, RightTrancheView>(s.right_tranches, t.tranche_id) is None
            &&& changed_at::<String, RightTrancheView>(
                s.right_tranches,
                n.right_tranches,
                t.tranche_id,
                t,
            )
            &&& n == (StrategyStateView {
                right_tranches: n.right_tranches,
                event_count: (s.event_count + 1) as u64,
                ..s
            })
            &&& tranche_in_order(t)
            &&& right_of(s, t.owner_right_id) matches Some(owner) && owner.cycle_id == t.cycle_id
                && owner.direction == t.direction && owner.grid_index == t.birth_grid_index
                && owner.capacity.tranche_ids.contains(t.tranche_id)
            &&& e.schema_version >= 2 ==> {
                &&& t.unit == RightTrancheUnit::Quantity
                &&& s.audited_standard_quantity > 0 && s.audited_lot_size > 0
                &&& t.direction == Direction::Buy ==> t.lot_id is None && t.minted_quantity
                    == s.audited_standard_quantity
                &&& t.direction == Direction::Sell ==> t.lot_id is Some
            }
        },
{
    reveal(grid_reduced);
    let t = e.payload->Tranche_0;
    lemma_changed_at::<String, RightTrancheView>(s.right_tranches, t.tranche_id, t);
}

/// Whether no sum of the accounts of a tranche has to be rounded.
pub open spec fn accounts_add_exactly(t: RightTrancheView) -> bool {
    let z = Decimal::zero();
    &&& t.available_budget.valid() && t.reserved_budget.valid() && t.consumed_budget.valid()
    &&& t.revoked_budget.valid() && t.expired_budget.valid()
    &&& plus(z, t.available_budget) matches Some(x) ==> adds_exactly(x, t.reserved_budget) && (plus(
        x,
        t.reserved_budget,
    ) matches Some(y) ==> adds_exactly(y, t.consumed_budget) && (plus(
        y,
        t.consumed_budget,
    ) matches Some(w) ==> adds_exactly(w, t.revoked_budget) && (plus(
        w,
        t.revoked_budget,
    ) matches Some(v) ==> adds_exactly(v, t.expired_budget))))
}

/// A tranche in order has minted what its five accounts hold together, in one unit alone,
/// and holds nothing negative; one in money buys, one in shares names a lot exactly where
/// it sells.
pub proof fn law_tranches_in_order_add_up(t: RightTrancheView)
    requires
        tranche_in_order(t),
        t.unit == RightTrancheUnit::Budget ==> accounts_add_exactly(t),
    ensures
        t.minted_quantity == t.available_quantity + t.reserved_quantity + t.consumed_quantity
            + t.revoked_quantity + t.expired_quantity,
        t.minted_budget.units() == t.available_budget.units() + t.reserved_budget.units()
            + t.consumed_budget.units() + t.revoked_budget.units() + t.expired_budget.units(),
        t.available_quantity >= 0 && t.reserved_quantity >= 0 && t.consumed_quantity >= 0
            && t.revoked_quantity >= 0 && t.expired_quantity >= 0,
        t.available_budget.units() >= 0 && t.reserved_budget.units() >= 0
            && t.consumed_budget.units() >= 0 && t.revoked_budget.units() >= 0
            && t.expired_budget.units() >= 0,
        t.unit == RightTrancheUnit::Budget <==> t.minted_budget.units() > 0,
        t.unit == RightTrancheUnit::Quantity <==> t.minted_quantity > 0,
        t.unit == RightTrancheUnit::Budget ==> t.direction == Direction::Buy,
        t.unit == RightTrancheUnit::Quantity ==> (t.lot_id is Some <==> t.direction
            == Direction::Sell),
        t.birth_grid_index != 0,
        !crate::text::blank(t.owner_right_id),
{
    if t.unit == RightTrancheUnit::Budget {
        lemma_of_parts(0, 0);
        let z = Decimal::zero();
        lemma_plus_exact(z, t.available_budget);
        let x = plus(z, t.available_budget)->0;
        lemma_plus_exact(x, t.reserved_budget);
        let y = plus(x, t.reserved_budget)->0;
        lemma_plus_exact(y, t.consumed_budget);
        let w = plus(y, t.consumed_budget)->0;
        lemma_plus_exact(w, t.revoked_budget);
        let v = plus(w, t.revoked_budget)->0;
        lemma_plus_exact(v, t.expired_budget);
    }
}

/// Whether a tranche is handed from one right to another: it belonged to the source, is
/// among those that the target names, has nothing reserved and something free, and only
/// its owner changes.
pub open spec fn handed_on(
    t: RightTrancheView,
    n: RightTrancheView,
    source_id: Seq<char>,
    target_id: Seq<char>,
    target: GridRightView,
) -> bool {
    &&& t.owner_right_id == source_id
    &&& n.owner_right_id == target_id
    &&& n == (RightTrancheView { owner_right_id: n.owner_right_id, ..t })
    &&& target.capacity.tranche_ids.contains(t.tranche_id)
    &&& t.reserved_quantity == 0 && t.reserved_budget.units() == 0
    &&& t.available_quantity != 0 || t.available_budget.units() != 0
}

proof fn lemma_handed_on(
    tranches: Tranches,
    ids: Seq<Option<Seq<char>>>,
    source_id: Seq<char>,
    target_id: Seq<char>,
    target: GridRightView,
    n: nat,
    id: Seq<char>,
)
    requires
        ordered::<String, RightTrancheView>(tranches),
        source_id != target_id,
        n <= ids.len(),
        all_handed_over(tranches, ids, source_id, target_id, target, n) is Some,
    ensures
        ({
            let end = all_handed_over(tranches, ids, source_id, target_id, target, n)->0;
            &&& ordered::<String, RightTrancheView>(end)
            &&& forall|k: int| 0 <= k < n ==> (#[trigger] ids[k]) is Some
            &&& ids.take(n as int).contains(Some(id)) ==> (lookup::<String, RightTrancheView>(
                tranches,
                id,
            ) matches Some(t) && (lookup::<String, RightTrancheView>(end, id) matches Some(x)
                && handed_on(t, x, source_id, target_id, target)))
            &&& !ids.take(n as int).contains(Some(id)) ==> lookup::<String, RightTrancheView>(end, id)
                == lookup::<String, RightTrancheView>(tranches, id)
        }),
    decreases n,
{
    if n > 0 {
        lemma_handed_on(tranches, ids, source_id, target_id, target, (n - 1) as nat, id);
        let before = all_handed_over(
            tranches,
            ids,
            source_id,
            target_id,
            target,
            (n - 1) as nat,
        )->0;
        let k = ids[n - 1]->0;
        let t = lookup::<String, RightTrancheView>(before, k)->0;
        let next = crate::event::tranches::handed_over(t, source_id, target_id, target)->0;
        lemma_changed_at::<String, RightTrancheView>(before, k, next);
        let short = ids.take(n - 1);
        let long = ids.take(n as int);
        assert(long[n - 1] == Some(k));
        if short.contains(Some(id)) {
            let i = choose|i: int| 0 <= i < short.len() && short[i] == Some(id);
            assert(long[i] == Some(id));
        }
        if long.contains(Some(id)) {
            let i = choose|i: int| 0 <= i < long.len() && long[i] == Some(id);
            if i < n - 1 {
                assert(short[i] == Some(id));
            }
        }
    }
}

/// A handover changes the owner of the tranches that it lists, from the source to the
/// target of the same cycle and side, and no other tranche. It lists some, each of the
/// source with nothing reserved and something free.
pub proof fn law_handovers_change_the_owner(
    s: StrategyStateView,
    e: EventEnvelopeView,
    a: AppraisalView,
    id: Seq<char>,
)
    requires
        e.event_type == EventType::RightBalanceTransferred,
        e.payload is Transfer,
        e.payload->Transfer_0.source_right_id != e.payload->Transfer_0.target_right_id,
        ordered::<String, RightTrancheView>(s.right_tranches),
    ensures
        after(s, e, a) matches Some(n) ==> {
            let p = e.payload->Transfer_0;
            &&& p.source_right_id is Some && p.target_right_id is Some && p.tranche_ids is Some
            &&& p.tranche_ids->0.len() > 0
            &&& right_of(s, p.source_right_id->0) matches Some(source) && (right_of(
                s,
                p.target_right_id->0,
            ) matches Some(target) && {
                &&& source.cycle_id == target.cycle_id
                &&& source.direction == target.direction
                &&& p.tranche_ids->0.contains(Some(id)) ==> (lookup::<String, RightTrancheView>(
                    s.right_tranches,
                    id,
                ) matches Some(t) && (lookup::<String, RightTrancheView>(
                    n.right_tranches,
                    id,
                ) matches Some(x) && handed_on(
                    t,
                    x,
                    p.source_right_id->0,
                    p.target_right_id->0,
                    target,
                )))
            })
            &&& !p.tranche_ids->0.contains(Some(id)) ==> lookup::<String, RightTrancheView>(
                n.right_tranches,
                id,
            ) == lookup::<String, RightTrancheView>(s.right_tranches, id)
            &&& n == (StrategyStateView {
                right_tranches: n.right_tranches,
                event_count: (s.event_count + 1) as u64,
                ..s
            })
        },
{
    reveal(grid_reduced);
    if let Some(n) = after(s, e, a) {
        let p = e.payload->Transfer_0;
        let ids = p.tranche_ids->0;
        let target = right_of(s, p.target_right_id->0)->0;
        lemma_handed_on(
            s.right_tranches,
            ids,
            p.source_right_id->0,
            p.target_right_id->0,
            target,
            ids.len(),
            id,
        );
        assert(ids.take(ids.len() as int) =~= ids);
    }
}

/// In the current layout a handover goes beyond all that the source still has: every
/// tranche of the source with something free or reserved, and for a buy also one that was
/// used, was born nearer the anchor than the target. And the target lies deeper than the
/// source, or at a depth where something of the source was revoked.
pub proof fn law_handovers_go_outwards(
    s: StrategyStateView,
    e: EventEnvelopeView,
    a: AppraisalView,
    i: int,
)
    requires
        e.event_type == EventType::RightBalanceTransferred,
        e.payload is Transfer,
        e.schema_version >= 2,
        0 <= i < s.right_tranches.len(),
    ensures
        after(s, e, a) matches Some(n) ==> {
            let p = e.payload->Transfer_0;
            let t = s.right_tranches[i].1;
            &&& right_of(s, p.source_right_id->0) matches Some(source) && (right_of(
                s,
                p.target_right_id->0,
            ) matches Some(target) && {
                let from = crate::grid_laws::distance(source.grid_index as int);
                let to = crate::grid_laws::distance(target.grid_index as int);
                &&& to > 0
                &&& t.owner_right_id == p.source_right_id->0 && (t.available_quantity > 0
                    || t.reserved_quantity > 0 || t.available_budget.units() > 0
                    || t.reserved_budget.units() > 0 || (source.direction == Direction::Buy && (
                t.consumed_quantity > 0 || t.consumed_budget.units() > 0)))
                    ==> crate::grid_laws::distance(t.birth_grid_index as int) < to
                &&& to > from || exists|j: int|
                    0 <= j < s.right_tranches.len() && (#[trigger] s.right_tranches[j].1).owner_right_id
                        == p.source_right_id->0 && crate::grid_laws::distance(
                        s.right_tranches[j].1.birth_grid_index as int,
                    ) == to && (s.right_tranches[j].1.revoked_quantity > 0
                        || s.right_tranches[j].1.revoked_budget.units() > 0)
            })
        },
{
    reveal(grid_reduced);
    if let Some(n) = after(s, e, a) {
        let p = e.payload->Transfer_0;
        let source_id = p.source_right_id->0;
        let source = right_of(s, source_id)->0;
        let target = right_of(s, p.target_right_id->0)->0;
        let from = crate::arith::magnitude(source.grid_index)->0;
        let to = crate::arith::magnitude(target.grid_index)->0;
        assert(crate::event::tranches::beyond_frontier(
            s.right_tranches,
            source_id,
            source,
            target,
        ));
        assert(crate::event::tranches::short_of(
            s.right_tranches[i].1,
            source_id,
            source.direction == Direction::Buy,
            to,
        ));
        if to <= from {
            let j = choose|j: int|
                0 <= j < s.right_tranches.len() && crate::event::tranches::revoked_at(
                    #[trigger] s.right_tranches[j].1,
                    source_id,
                    to,
                );
            assert(s.right_tranches[j].1.owner_right_id == source_id);
        }
    }
}

} // verus!

//! What holds of every account: its trading days and what it is worth.
use crate::account::{fresh_state, lots_gain, open_orders, rolled_position, settled_lot, unrealized};
use crate::clock::Day;
use crate::decimal::{
    adds_exactly, law_normalizing_keeps_the_number, lemma_minus_exact, lemma_of_parts,
    lemma_plus_exact, lemma_times_whole, multiplies_exactly, subtracts_exactly, times, Decimal,
};
use crate::domain::lot_cost;
use crate::model::ledger::{OrderStatus, OrderView, Position, StrategyStateView, TradingLotView};
use vstd::prelude::*;

verus! {

/// A later day makes what was bought sellable, and no other day does. The total and
/// what is frozen stay, and no share is lost between sellable and bought.
pub proof fn law_days_make_bought_shares_sellable(p: Position, from: Option<Day>, to: Day)
    ensures
        rolled_position(p, from, to) matches Some(q) ==> {
            &&& q.total == p.total
            &&& q.frozen_sell == p.frozen_sell
            &&& q.sellable + q.today_bought == p.sellable + p.today_bought
            &&& (from matches Some(d) && d.n() < to.n()) ==> q.today_bought == 0
            &&& !(from matches Some(d) && d.n() < to.n()) ==> q == p
        },
        rolled_position(p, from, to) is None ==> p.sellable + p.today_bought > i64::MAX
            || p.sellable + p.today_bought < i64::MIN,
        rolled_position(p, Some(to), to) == Some(p),
{
}

/// What a lot has gained at a price: the price of its shares without what they cost.
pub open spec fn gain_of(lot: TradingLotView, mark: Decimal) -> int {
    mark.units() * lot.remaining_quantity - lot_cost(lot)->0.units()
}

/// What the first `n` lots have gained at a price.
pub open spec fn gain_of_all(lots: Seq<(Seq<char>, TradingLotView)>, mark: Decimal, n: nat) -> int
    decreases n,
{
    if n == 0 {
        0
    } else {
        gain_of_all(lots, mark, (n - 1) as nat) + gain_of(lots[n - 1].1, mark)
    }
}

/// Whether valuing the first `n` lots never has to round.
pub open spec fn values_exactly(lots: Seq<(Seq<char>, TradingLotView)>, mark: Decimal, n: nat) -> bool
    decreases n,
{
    n == 0 || {
        let lot = lots[n - 1].1;
        &&& values_exactly(lots, mark, (n - 1) as nat)
        &&& multiplies_exactly(mark, Decimal::whole(lot.remaining_quantity as int))
        &&& lot_cost(lot) matches Some(c) ==> c.valid() && (times(
            mark,
            Decimal::whole(lot.remaining_quantity as int),
        ) matches Some(v) ==> subtracts_exactly(v, c) && (crate::decimal::minus(v, c) matches Some(
            g,
        ) ==> (lots_gain(lots, mark, (n - 1) as nat) matches Some(t) ==> adds_exactly(t, g))))
    }
}

proof fn lemma_gain(lots: Seq<(Seq<char>, TradingLotView)>, mark: Decimal, n: nat)
    requires
        n <= lots.len(),
        mark.valid(),
        values_exactly(lots, mark, n),
    ensures
        lots_gain(lots, mark, n) matches Some(g) ==> g.valid() && g.units() == gain_of_all(
            lots,
            mark,
            n,
        ),
    decreases n,
{
    lemma_of_parts(0, 0);
    assert(Decimal::zero().units() == 0);
    if n > 0 {
        lemma_gain(lots, mark, (n - 1) as nat);
        let lot = lots[n - 1].1;
        lemma_times_whole(mark, lot.remaining_quantity as int);
        if lots_gain(lots, mark, n) is Some {
            let v = times(mark, Decimal::whole(lot.remaining_quantity as int))->0;
            let c = lot_cost(lot)->0;
            lemma_minus_exact(v, c);
            lemma_plus_exact(
                lots_gain(lots, mark, (n - 1) as nat)->0,
                crate::decimal::minus(v, c)->0,
            );
        }
    }
}

/// What an account has not realized is what its lots are worth at the last price
/// without what they cost, and nothing before there is a price. So it is where no
/// sum has to be rounded.
pub proof fn law_unrealized_is_value_less_cost(s: StrategyStateView)
    requires
        s.last_price matches Some(mark) ==> mark.valid() && values_exactly(
            s.lots,
            mark,
            s.lots.len(),
        ),
    ensures
        s.last_price is None ==> (unrealized(s) matches Some(g) && g.units() == 0),
        s.last_price matches Some(mark) ==> (unrealized(s) matches Some(g) ==> g.units()
            == gain_of_all(s.lots, mark, s.lots.len())),
{
    lemma_of_parts(0, 0);
    assert(Decimal::zero().units() == 0);
    if let Some(mark) = s.last_price {
        lemma_gain(s.lots, mark, s.lots.len());
    }
}

/// A run starts with its cash free, its shares as given, nothing bought, frozen,
/// realized or charged, and no event counted.
pub proof fn law_runs_start_clean(
    run_id: Seq<char>,
    cycle_id: Seq<char>,
    symbol: Seq<char>,
    anchor: Decimal,
    cash: Decimal,
    position: i64,
    sellable: i64,
)
    ensures
        ({
            let s = fresh_state(run_id, cycle_id, symbol, anchor, cash, position, sellable);
            &&& s.cash.available == cash
            &&& s.cash.frozen.units() == 0
            &&& s.cash.total_fees.units() == 0
            &&& s.realized_pnl.units() == 0
            &&& s.deployed_grid_budget.units() == 0
            &&& s.position.total == position
            &&& s.position.sellable == sellable
            &&& s.position.today_bought == 0
            &&& s.position.frozen_sell == 0
            &&& s.run_id == run_id && s.cycle_id == cycle_id && s.symbol == symbol
            &&& s.anchor_price == anchor
            &&& s.event_count == 0 && s.duplicate_events == 0 && s.ambiguous_bars == 0
            &&& !s.grid_cycle_active
            &&& s.lots.len() == 0 && s.orders.len() == 0 && s.grid_rights.len() == 0
            &&& s.right_tranches.len() == 0 && s.levels.len() == 0 && s.processed_fills.len() == 0
        }),
{
    lemma_of_parts(0, 0);
}

/// The open orders of an account are exactly those that were neither filled nor
/// rejected nor cancelled.
pub proof fn law_open_orders_are_listed(orders: Seq<(Seq<char>, OrderView)>, n: nat)
    requires
        n <= orders.len(),
        forall|i: int, j: int|
            0 <= i < j < orders.len() ==> (#[trigger] orders[i]).0 != (#[trigger] orders[j]).0,
    ensures
        forall|i: int|
            0 <= i < n ==> (open_orders(orders, n).contains((#[trigger] orders[i]).0) <==> (
            orders[i].1.status != OrderStatus::Filled && orders[i].1.status
                != OrderStatus::Rejected && orders[i].1.status != OrderStatus::Cancelled)),
        forall|k: int|
            0 <= k < open_orders(orders, n).len() ==> exists|i: int|
                0 <= i < n && (#[trigger] orders[i]).0 == #[trigger] open_orders(orders, n)[k],
    decreases n,
{
    if n > 0 {
        law_open_orders_are_listed(orders, (n - 1) as nat);
        let b = open_orders(orders, (n - 1) as nat);
        let t = open_orders(orders, n);
        let last = orders[n - 1].0;
        assert(!b.contains(last)) by {
            if b.contains(last) {
                let k = choose|k: int| 0 <= k < b.len() && b[k] == last;
                let i = choose|i: int| 0 <= i < n - 1 && (#[trigger] orders[i]).0 == b[k];
                assert(orders[i].0 != orders[n - 1].0);
            }
        }
        if t.len() > b.len() {
            assert(t[b.len() as int] == last);
            assert forall|i: int| 0 <= i < n - 1 implies (t.contains((#[trigger] orders[i]).0)
                <==> b.contains(orders[i].0)) by {
                assert(orders[i].0 != orders[n - 1].0);
                if b.contains(orders[i].0) {
                    let k = choose|k: int| 0 <= k < b.len() && b[k] == orders[i].0;
                    assert(t[k] == orders[i].0);
                }
                if t.contains(orders[i].0) {
                    let k = choose|k: int| 0 <= k < t.len() && t[k] == orders[i].0;
                    assert(b[k] == orders[i].0);
                }
            }
            assert forall|k: int| 0 <= k < t.len() implies exists|i: int|
                0 <= i < n && (#[trigger] orders[i]).0 == #[trigger] t[k] by {
                if k < b.len() {
                    let i = choose|i: int| 0 <= i < n - 1 && (#[trigger] orders[i]).0 == b[k];
                    assert(orders[i].0 == t[k]);
                } else {
                    assert(orders[n - 1].0 == t[k]);
                }
            }
        }
    }
}

/// Settling a lot records what is left of its cost, and changes nothing else.
pub proof fn law_settling_records_the_cost(lot: TradingLotView)
    requires
        lot.original_quantity > 0,
        lot_cost(lot) matches Some(c) ==> c.valid(),
    ensures
        lot_cost(lot) matches Some(c) ==> (settled_lot(lot) matches Some(t)
            && t.remaining_cost.units() == c.units() && t == (TradingLotView {
            remaining_cost: t.remaining_cost,
            ..lot
        })),
        lot_cost(lot) is None ==> settled_lot(lot) is None,
{
    if let Some(c) = lot_cost(lot) {
        law_normalizing_keeps_the_number(c);
    }
}

} // verus!

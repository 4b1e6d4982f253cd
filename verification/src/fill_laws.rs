//! What holds of every fill.
use crate::arith::{lemma_checked_total, total};
use crate::decimal::{
    adds_exactly, law_normalizing_keeps_the_number, lemma_minus_exact, lemma_of_parts,
    lemma_plus_exact, lemma_times_whole, lemma_units_sign, minus, multiplies_exactly, normalized,
    over, plus, subtracts_exactly, times, Decimal,
};
use crate::domain::{
    allocation_quantities, book_slices, close_slice, close_slices, filled, greedy_allocations,
    lot_cost, opened_lot, sell_allocations, share_of, slice_cost, slice_fees, ClosedSliceView,
    DomainErrorView,
};
use crate::model::ledger::{
    FillView, LotQuantityAllocationView, StrategyStateView, TradingLotView,
};
use crate::model::market::Direction;
use crate::table::{
    holds_key, lemma_rank_bound, lemma_with, lemma_with_other, lookup, ordered, rank, with,
};
use vstd::prelude::*;

verus! {

/// A fill that was applied is known afterwards, so that applying it again
/// changes nothing.
pub proof fn law_fill_is_remembered(
    s: StrategyStateView,
    fill: FillView,
    grid_index: i32,
    split: Option<Seq<Decimal>>,
    enforce: bool,
)
    requires
        ordered::<String, ()>(s.processed_fills),
    ensures
        filled(s, fill, grid_index, split, enforce) matches Ok(t) ==> holds_key::<String, ()>(
            t.processed_fills,
            fill.fill_id,
        ),
{
    lemma_with::<String, ()>(s.processed_fills, fill.fill_id, ());
}

/// A buy adds its shares to the position and to what was bought today; they are
/// not sellable on the same day.
pub proof fn law_buy_adds_shares(
    s: StrategyStateView,
    fill: FillView,
    grid_index: i32,
    split: Option<Seq<Decimal>>,
    enforce: bool,
)
    requires
        fill.direction == Direction::Buy,
    ensures
        filled(s, fill, grid_index, split, enforce) matches Ok(t) ==> t.position.total
            == s.position.total + fill.quantity && t.position.today_bought
            == s.position.today_bought + fill.quantity && t.position.sellable
            == s.position.sellable,
{
}

/// A sell takes its shares from the position and from what is sellable, and
/// never more than is sellable.
pub proof fn law_sell_takes_sellable_shares(
    s: StrategyStateView,
    fill: FillView,
    grid_index: i32,
    split: Option<Seq<Decimal>>,
    enforce: bool,
)
    requires
        fill.direction == Direction::Sell,
    ensures
        filled(s, fill, grid_index, split, enforce) matches Ok(t) ==> t.position.total
            == s.position.total - fill.quantity && t.position.sellable == s.position.sellable
            - fill.quantity && t.position.today_bought == s.position.today_bought
            && fill.quantity <= s.position.sellable,
{
}

/// The lots that a sell closes add up to its quantity.
pub proof fn law_sell_closes_its_quantity(
    s: StrategyStateView,
    fill: FillView,
    grid_index: i32,
    split: Option<Seq<Decimal>>,
    enforce: bool,
)
    requires
        fill.direction == Direction::Sell,
        filled(s, fill, grid_index, split, enforce) is Ok,
    ensures
        sell_allocations(s, fill) matches Ok(a) && total(allocation_quantities(a))
            == fill.quantity,
{
    let a = sell_allocations(s, fill)->Ok_0;
    lemma_checked_total(allocation_quantities(a));
}

/// The shares that are left in some lots.
pub open spec fn shares_left(lots: Seq<(Seq<char>, TradingLotView)>) -> int
    decreases lots.len(),
{
    if lots.len() == 0 {
        0
    } else {
        shares_left(lots.drop_last()) + lots.last().1.remaining_quantity
    }
}

proof fn lemma_left_updated(
    lots: Seq<(Seq<char>, TradingLotView)>,
    i: int,
    x: (Seq<char>, TradingLotView),
)
    requires
        0 <= i < lots.len(),
    ensures
        shares_left(lots.update(i, x)) == shares_left(lots) - lots[i].1.remaining_quantity
            + x.1.remaining_quantity,
    decreases lots.len(),
{
    let after = lots.update(i, x);
    if i == lots.len() - 1 {
        assert(after.drop_last() =~= lots.drop_last());
    } else {
        lemma_left_updated(lots.drop_last(), i, x);
        assert(after.drop_last() =~= lots.drop_last().update(i, x));
    }
}

proof fn lemma_left_inserted(
    lots: Seq<(Seq<char>, TradingLotView)>,
    i: int,
    x: (Seq<char>, TradingLotView),
)
    requires
        0 <= i <= lots.len(),
    ensures
        shares_left(lots.insert(i, x)) == shares_left(lots) + x.1.remaining_quantity,
    decreases lots.len(),
{
    let after = lots.insert(i, x);
    if i == lots.len() {
        assert(after.drop_last() =~= lots);
    } else {
        lemma_left_inserted(lots.drop_last(), i, x);
        assert(after.drop_last() =~= lots.drop_last().insert(i, x));
    }
}

/// Parts that are booked take their shares from the lots.
proof fn lemma_booked_shares(
    lots: Seq<(Seq<char>, TradingLotView)>,
    realized: Decimal,
    slices: Seq<ClosedSliceView>,
    n: nat,
)
    requires
        n <= slices.len(),
    ensures
        book_slices(lots, realized, slices, n) matches Some(b) ==> shares_left(b.0) == shares_left(
            lots,
        ) - total(slice_quantities(slices).take(n as int)),
    decreases n,
{
    let all = slice_quantities(slices);
    if n == 0 {
        assert(all.take(0) =~= Seq::<i64>::empty());
    } else {
        lemma_booked_shares(lots, realized, slices, (n - 1) as nat);
        if let (Some(p), Some(b)) = (
            book_slices(lots, realized, slices, (n - 1) as nat),
            book_slices(lots, realized, slices, n),
        ) {
            let x = slices[n - 1];
            let r = rank::<String, TradingLotView>(p.0, x.lot_id) as int;
            lemma_rank_bound::<String, TradingLotView>(p.0, x.lot_id);
            lemma_left_updated(p.0, r, b.0[r]);
            assert(b.0 =~= p.0.update(r, b.0[r]));
            assert(all.take(n as int).drop_last() =~= all.take(n - 1));
        }
    }
}

/// The shares of closed parts.
pub open spec fn slice_quantities(slices: Seq<ClosedSliceView>) -> Seq<i64> {
    Seq::new(slices.len(), |i: int| slices[i].quantity)
}

/// The closed parts are those that were allocated.
proof fn lemma_slices_of_allocations(
    s: StrategyStateView,
    fill: FillView,
    fees: Decimal,
    allocations: Seq<LotQuantityAllocationView>,
    split: Option<Seq<Decimal>>,
    enforce: bool,
    n: nat,
)
    requires
        n <= allocations.len(),
    ensures
        close_slices(s, fill, fees, allocations, split, enforce, n) matches Ok(c) ==> c.0.len() == n
            && forall|i: int| 0 <= i < n ==> (#[trigger] c.0[i]).quantity == allocations[i].quantity,
    decreases n,
{
    if n > 0 {
        lemma_slices_of_allocations(s, fill, fees, allocations, split, enforce, (n - 1) as nat);
    }
}

/// A sell takes its shares from the lots: together they have as many fewer left.
pub proof fn law_sell_takes_shares_from_lots(
    s: StrategyStateView,
    fill: FillView,
    grid_index: i32,
    split: Option<Seq<Decimal>>,
    enforce: bool,
)
    requires
        fill.direction == Direction::Sell,
    ensures
        filled(s, fill, grid_index, split, enforce) matches Ok(t) ==> shares_left(t.lots)
            == shares_left(s.lots) - fill.quantity,
{
    if filled(s, fill, grid_index, split, enforce) is Ok {
        law_sell_closes_its_quantity(s, fill, grid_index, split, enforce);
        let a = sell_allocations(s, fill)->Ok_0;
        let fees = plus(fill.commission, fill.tax)->0;
        let used = if fill.target_lot_allocations.len() > 0 {
            split
        } else {
            None
        };
        lemma_slices_of_allocations(s, fill, fees, a, used, enforce, a.len());
        let c = close_slices(s, fill, fees, a, used, enforce, a.len())->Ok_0.0;
        lemma_booked_shares(s.lots, s.realized_pnl, c, c.len());
        assert(slice_quantities(c).take(c.len() as int) =~= allocation_quantities(a));
    }
}

/// A buy puts its shares into a lot of its own: together the lots have as many more
/// left, where no lot has the name of the fill yet.
pub proof fn law_buy_puts_shares_into_lots(
    s: StrategyStateView,
    fill: FillView,
    grid_index: i32,
    split: Option<Seq<Decimal>>,
    enforce: bool,
)
    requires
        fill.direction == Direction::Buy,
        !holds_key::<String, TradingLotView>(s.lots, "lot:"@ + fill.fill_id),
    ensures
        filled(s, fill, grid_index, split, enforce) matches Ok(t) ==> shares_left(t.lots)
            == shares_left(s.lots) + fill.quantity,
{
    if let Ok(t) = filled(s, fill, grid_index, split, enforce) {
        let id = "lot:"@ + fill.fill_id;
        let r = rank::<String, TradingLotView>(s.lots, id) as int;
        lemma_rank_bound::<String, TradingLotView>(s.lots, id);
        lemma_left_inserted(s.lots, r, t.lots[r]);
        assert(t.lots =~= s.lots.insert(r, t.lots[r]));
    }
}

/// Where losses are refused, no part that a sell closes makes one.
pub proof fn law_no_part_is_closed_at_a_loss(
    s: StrategyStateView,
    fill: FillView,
    fees: Decimal,
    allocations: Seq<LotQuantityAllocationView>,
    split: Option<Seq<Decimal>>,
    n: nat,
)
    ensures
        close_slices(s, fill, fees, allocations, split, true, n) matches Ok(c) ==> c.0.len() == n
            && forall|i: int| 0 <= i < n ==> (#[trigger] c.0[i]).pnl.units() >= 0,
    decreases n,
{
    if n > 0 {
        law_no_part_is_closed_at_a_loss(s, fill, fees, allocations, split, (n - 1) as nat);
    }
}

/// Whether booking the first `n` parts never has to round the realized profit.
pub open spec fn books_exactly(
    lots: Seq<(Seq<char>, TradingLotView)>,
    realized: Decimal,
    slices: Seq<ClosedSliceView>,
    n: nat,
) -> bool
    decreases n,
{
    n == 0 || (books_exactly(lots, realized, slices, (n - 1) as nat) && slices[n
        - 1].pnl.valid() && (book_slices(lots, realized, slices, (n - 1) as nat) matches Some(b)
        ==> b.1.valid() && adds_exactly(b.1, slices[n - 1].pnl)))
}

/// Booking parts without a loss never lowers the realized profit, as long as
/// the sums fit without rounding.
pub proof fn law_realized_profit_never_falls(
    lots: Seq<(Seq<char>, TradingLotView)>,
    realized: Decimal,
    slices: Seq<ClosedSliceView>,
    n: nat,
)
    requires
        n <= slices.len(),
        realized.valid(),
        forall|i: int| 0 <= i < slices.len() ==> (#[trigger] slices[i]).pnl.units() >= 0,
        books_exactly(lots, realized, slices, n),
    ensures
        book_slices(lots, realized, slices, n) matches Some(b) ==> b.1.units() >= realized.units(),
    decreases n,
{
    if n > 0 {
        law_realized_profit_never_falls(lots, realized, slices, (n - 1) as nat);
        if let Some(b) = book_slices(lots, realized, slices, (n - 1) as nat) {
            lemma_plus_exact(b.1, slices[n - 1].pnl);
        }
    }
}

/// What a buy takes from cash is the price of its shares and its fees, as long
/// as the sums fit without rounding.
pub proof fn law_buy_pays_notional_and_fees(
    s: StrategyStateView,
    fill: FillView,
    grid_index: i32,
    split: Option<Seq<Decimal>>,
    enforce: bool,
)
    requires
        fill.direction == Direction::Buy,
        s.cash.available.valid(),
        fill.commission.valid(),
        fill.tax.valid(),
        adds_exactly(fill.commission, fill.tax),
        times(fill.price, Decimal::whole(fill.quantity as int)) matches Some(v) ==> v.valid() && (
        plus(fill.commission, fill.tax) matches Some(f) ==> adds_exactly(v, f) && (plus(v, f)
            matches Some(c) ==> subtracts_exactly(s.cash.available, c))),
    ensures
        filled(s, fill, grid_index, split, enforce) matches Ok(t) ==> (times(
            fill.price,
            Decimal::whole(fill.quantity as int),
        ) matches Some(v) && t.cash.available.units() == s.cash.available.units() - v.units()
            - fill.commission.units() - fill.tax.units()),
{
    lemma_plus_exact(fill.commission, fill.tax);
    if let Some(v) = times(fill.price, Decimal::whole(fill.quantity as int)) {
        let f = plus(fill.commission, fill.tax)->0;
        lemma_plus_exact(v, f);
        lemma_minus_exact(s.cash.available, plus(v, f)->0);
    }
}

/// Whether no sum or product of a fill has to be rounded.
pub open spec fn settles_exactly(s: StrategyStateView, fill: FillView) -> bool {
    &&& fill.price.valid()
    &&& fill.commission.valid()
    &&& fill.tax.valid()
    &&& s.cash.available.valid()
    &&& s.cash.total_fees.valid()
    &&& s.deployed_grid_budget.valid()
    &&& multiplies_exactly(fill.price, Decimal::whole(fill.quantity as int))
    &&& adds_exactly(fill.commission, fill.tax)
    &&& (times(fill.price, Decimal::whole(fill.quantity as int)) matches Some(v) && plus(
        fill.commission,
        fill.tax,
    ) matches Some(f)) ==> {
        let v = times(fill.price, Decimal::whole(fill.quantity as int))->0;
        let f = plus(fill.commission, fill.tax)->0;
        &&& adds_exactly(s.cash.total_fees, f)
        &&& fill.direction == Direction::Buy ==> adds_exactly(v, f) && adds_exactly(
            s.deployed_grid_budget,
            v,
        ) && (plus(v, f) matches Some(c) ==> subtracts_exactly(s.cash.available, c))
        &&& fill.direction == Direction::Sell ==> subtracts_exactly(v, f) && (minus(v, f) matches Some(
            p,
        ) ==> adds_exactly(s.cash.available, p))
    }
}

/// A sell pays in the price of its shares without its commission and tax, which
/// are added to the fees. What is frozen and what is deployed stay as they are. So it
/// is where no sum has to be rounded.
pub proof fn law_sell_receives_notional_less_fees(
    s: StrategyStateView,
    fill: FillView,
    grid_index: i32,
    split: Option<Seq<Decimal>>,
    enforce: bool,
)
    requires
        fill.direction == Direction::Sell,
        settles_exactly(s, fill),
    ensures
        filled(s, fill, grid_index, split, enforce) matches Ok(t) ==> {
            &&& t.cash.available.units() == s.cash.available.units() + fill.price.units()
                * fill.quantity - fill.commission.units() - fill.tax.units()
            &&& t.cash.total_fees.units() == s.cash.total_fees.units() + fill.commission.units()
                + fill.tax.units()
            &&& t.cash.frozen == s.cash.frozen
            &&& t.position.frozen_sell == s.position.frozen_sell
            &&& t.deployed_grid_budget == s.deployed_grid_budget
        },
{
    let v = times(fill.price, Decimal::whole(fill.quantity as int))->0;
    let f = plus(fill.commission, fill.tax)->0;
    lemma_times_whole(fill.price, fill.quantity as int);
    lemma_plus_exact(fill.commission, fill.tax);
    lemma_plus_exact(s.cash.total_fees, f);
    lemma_minus_exact(v, f);
    lemma_plus_exact(s.cash.available, minus(v, f)->0);
}

/// A buy pays out the price of its shares with its commission and tax, which are
/// added to the fees. The price of the shares alone is deployed, and a lot of its own
/// holds them at the whole cost. Nothing is realized, and what is frozen stays. So it
/// is where no sum has to be rounded.
pub proof fn law_buy_opens_a_lot_at_its_cost(
    s: StrategyStateView,
    fill: FillView,
    grid_index: i32,
    split: Option<Seq<Decimal>>,
    enforce: bool,
)
    requires
        fill.direction == Direction::Buy,
        settles_exactly(s, fill),
        ordered::<String, TradingLotView>(s.lots),
    ensures
        filled(s, fill, grid_index, split, enforce) matches Ok(t) ==> {
            &&& t.cash.available.units() == s.cash.available.units() - fill.price.units()
                * fill.quantity - fill.commission.units() - fill.tax.units()
            &&& t.cash.available.units() >= 0
            &&& t.cash.total_fees.units() == s.cash.total_fees.units() + fill.commission.units()
                + fill.tax.units()
            &&& t.deployed_grid_budget.units() == s.deployed_grid_budget.units()
                + fill.price.units() * fill.quantity
            &&& t.cash.frozen == s.cash.frozen
            &&& t.position.frozen_sell == s.position.frozen_sell
            &&& t.realized_pnl == s.realized_pnl
            &&& lookup::<String, TradingLotView>(t.lots, "lot:"@ + fill.fill_id) matches Some(lot)
                && {
                &&& lot.original_quantity == fill.quantity
                &&& lot.remaining_quantity == fill.quantity
                &&& lot.open_price == fill.price
                &&& lot.opened_on == fill.trade_date
                &&& lot.grid_index == grid_index
                &&& lot.source_order_id == fill.order_id
                &&& lot.realized_pnl.units() == 0
                &&& lot.allocated_cost.units() == fill.price.units() * fill.quantity
                    + fill.commission.units() + fill.tax.units()
                &&& lot.remaining_cost.units() == lot.allocated_cost.units()
            }
            &&& forall|id: Seq<char>|
                id != "lot:"@ + fill.fill_id ==> #[trigger] lookup::<String, TradingLotView>(
                    t.lots,
                    id,
                ) == lookup::<String, TradingLotView>(s.lots, id)
        },
{
    let v = times(fill.price, Decimal::whole(fill.quantity as int))->0;
    let f = plus(fill.commission, fill.tax)->0;
    lemma_times_whole(fill.price, fill.quantity as int);
    lemma_plus_exact(fill.commission, fill.tax);
    lemma_plus_exact(s.cash.total_fees, f);
    lemma_plus_exact(v, f);
    let c = plus(v, f)->0;
    lemma_minus_exact(s.cash.available, c);
    lemma_plus_exact(s.deployed_grid_budget, v);
    law_normalizing_keeps_the_number(c);
    lemma_of_parts(0, 0);
    assert(Decimal::zero().units() == 0);
    let id = "lot:"@ + fill.fill_id;
    let lot = opened_lot(fill, grid_index, c);
    lemma_with::<String, TradingLotView>(s.lots, id, lot);
    assert forall|j: Seq<char>| j != id implies #[trigger] lookup::<String, TradingLotView>(
        with::<String, TradingLotView>(s.lots, id, lot),
        j,
    ) == lookup::<String, TradingLotView>(s.lots, j) by {
        lemma_with_other::<String, TradingLotView>(s.lots, id, lot, j);
    }
}

/// A fill is accepted only with shares, at a positive price and with fees that are
/// not negative; a buy only where cash pays it, and a sell only of shares that can be
/// sold.
pub proof fn law_fills_are_paid_for(
    s: StrategyStateView,
    fill: FillView,
    grid_index: i32,
    split: Option<Seq<Decimal>>,
    enforce: bool,
)
    requires
        settles_exactly(s, fill),
    ensures
        filled(s, fill, grid_index, split, enforce) is Ok ==> {
            &&& fill.quantity > 0
            &&& fill.price.units() > 0
            &&& fill.commission.units() >= 0
            &&& fill.tax.units() >= 0
            &&& fill.direction == Direction::Buy ==> s.cash.available.units()
                >= fill.price.units() * fill.quantity + fill.commission.units() + fill.tax.units()
            &&& fill.direction == Direction::Sell ==> s.position.sellable >= fill.quantity
        },
        fill.direction == Direction::Buy && fill.quantity > 0 && fill.price.units() > 0
            && fill.commission.units() >= 0 && fill.tax.units() >= 0 && s.position.total
            + fill.quantity <= i64::MAX && s.position.today_bought + fill.quantity <= i64::MAX
            && s.position.total + fill.quantity >= i64::MIN && s.position.today_bought
            + fill.quantity >= i64::MIN && s.cash.available.units() >= fill.price.units()
            * fill.quantity + fill.commission.units() + fill.tax.units() ==> filled(
            s,
            fill,
            grid_index,
            split,
            enforce,
        ) is Ok,
{
    let v = times(fill.price, Decimal::whole(fill.quantity as int))->0;
    let f = plus(fill.commission, fill.tax)->0;
    lemma_times_whole(fill.price, fill.quantity as int);
    lemma_plus_exact(fill.commission, fill.tax);
    lemma_plus_exact(s.cash.total_fees, f);
    if fill.direction == Direction::Buy {
        lemma_plus_exact(v, f);
        lemma_minus_exact(s.cash.available, plus(v, f)->0);
        lemma_plus_exact(s.deployed_grid_budget, v);
    }
}

/// Whether no sum or product of a closed part has to be rounded.
pub open spec fn closes_exactly(
    price: Decimal,
    quantity: int,
    remaining: Decimal,
    cost: Decimal,
    charged: Decimal,
    part: Decimal,
) -> bool {
    &&& price.valid()
    &&& remaining.valid()
    &&& cost.valid()
    &&& charged.valid()
    &&& part.valid()
    &&& multiplies_exactly(price, Decimal::whole(quantity))
    &&& adds_exactly(charged, part)
    &&& subtracts_exactly(remaining, cost)
    &&& times(price, Decimal::whole(quantity)) matches Some(v) ==> subtracts_exactly(v, cost) && (
    minus(v, cost) matches Some(w) ==> subtracts_exactly(w, part))
}

/// What a closed part gains is the price of its shares without what its lot no longer
/// costs and without what is newly charged. It is part of a lot that was opened on an
/// earlier day and has its shares, and it takes no more than the lot costs. A part of
/// which the fill names the cost takes that cost, and the last share of a lot takes
/// all that is left of its cost.
pub proof fn law_parts_gain_price_less_cost_and_fees(
    s: StrategyStateView,
    fill: FillView,
    fees: Decimal,
    allocations: Seq<LotQuantityAllocationView>,
    split: Option<Seq<Decimal>>,
    enforce: bool,
    index: int,
    charged: Decimal,
)
    requires
        0 <= index < allocations.len(),
        close_slice(s, fill, fees, allocations, split, enforce, index, charged) is Ok,
        forall|remaining: Decimal, cost: Decimal, part: Decimal| #[trigger]
            is_part(s, fill, fees, allocations, split, index, charged, remaining, cost, part)
                ==> closes_exactly(
                fill.price,
                allocations[index].quantity as int,
                remaining,
                cost,
                charged,
                part,
            ),
    ensures
        ({
            let (x, next) = close_slice(
                s,
                fill,
                fees,
                allocations,
                split,
                enforce,
                index,
                charged,
            )->Ok_0;
            let a = allocations[index];
            &&& x.lot_id == a.lot_id
            &&& x.quantity == a.quantity
            &&& enforce ==> x.pnl.units() >= 0
            &&& lookup::<String, TradingLotView>(s.lots, a.lot_id) matches Some(lot) && {
                &&& lot.opened_on.n() < fill.trade_date.n()
                &&& 0 < a.quantity <= lot.remaining_quantity
                &&& lot_cost(lot) matches Some(remaining) && {
                    &&& x.pnl.units() == fill.price.units() * a.quantity - (remaining.units()
                        - x.remaining_cost.units()) - (next.units() - charged.units())
                    &&& 0 <= x.remaining_cost.units() <= remaining.units()
                    &&& fill.target_lot_allocations.len() > 0 ==> x.remaining_cost.units()
                        == remaining.units() - a.cost_basis.units()
                    &&& fill.target_lot_allocations.len() == 0 && a.quantity
                        == lot.remaining_quantity ==> x.remaining_cost.units() == 0
                }
            }
            &&& split matches Some(parts) ==> next.units() == charged.units()
                + parts[index].units()
            &&& split is None && index + 1 == allocations.len() && fees.valid()
                && subtracts_exactly(fees, charged) ==> next.units() == fees.units()
        }),
{
    let a = allocations[index];
    let lot = lookup::<String, TradingLotView>(s.lots, a.lot_id)->0;
    let remaining = lot_cost(lot)->0;
    let cost = slice_cost(fill.target_lot_allocations.len() > 0, a, lot, remaining)->0;
    let part = slice_fees(
        fill,
        fees,
        split,
        index,
        allocations.len() as int,
        a.quantity,
        charged,
    )->0;
    assert(is_part(s, fill, fees, allocations, split, index, charged, remaining, cost, part));
    lemma_times_whole(fill.price, a.quantity as int);
    let v = times(fill.price, Decimal::whole(a.quantity as int))->0;
    lemma_minus_exact(v, cost);
    lemma_minus_exact(minus(v, cost)->0, part);
    lemma_minus_exact(remaining, cost);
    lemma_plus_exact(charged, part);
    if split is None && index + 1 == allocations.len() && fees.valid() && subtracts_exactly(
        fees,
        charged,
    ) {
        lemma_minus_exact(fees, charged);
    }
}

/// Whether a part of a lot that costs so much bears this cost and these fees.
pub open spec fn is_part(
    s: StrategyStateView,
    fill: FillView,
    fees: Decimal,
    allocations: Seq<LotQuantityAllocationView>,
    split: Option<Seq<Decimal>>,
    index: int,
    charged: Decimal,
    remaining: Decimal,
    cost: Decimal,
    part: Decimal,
) -> bool {
    let a = allocations[index];
    &&& lookup::<String, TradingLotView>(s.lots, a.lot_id) matches Some(lot) && lot_cost(lot)
        == Some(remaining) && slice_cost(
        fill.target_lot_allocations.len() > 0,
        a,
        lot,
        remaining,
    ) == Some(cost)
    &&& slice_fees(fill, fees, split, index, allocations.len() as int, a.quantity, charged) == Some(
        part,
    )
}

/// A part of some shares bears that share of an amount: the amount times the shares
/// of the part over all shares, where the product needs no rounding.
pub proof fn law_shares_are_proportional(amount: Decimal, shares: i64, all: i64)
    requires
        amount.valid(),
        multiplies_exactly(amount, Decimal::whole(shares as int)),
    ensures
        exists|x: Decimal|
            x.valid() && x.units() == amount.units() * shares && #[trigger] over(
                x,
                Decimal::whole(all as int),
            ) == share_of(amount, shares as int, all as int),
{
    lemma_times_whole(amount, shares as int);
    let x = times(amount, Decimal::whole(shares as int))->0;
    assert(over(x, Decimal::whole(all as int)) == share_of(amount, shares as int, all as int));
}

/// A part of a lot, of which the fill does not name the cost, bears the share of its
/// shares in what the lot still costs; its fees are its share in the fees of the
/// fill, but for those of the last part.
pub proof fn law_parts_bear_their_share(
    fill: FillView,
    fees: Decimal,
    a: LotQuantityAllocationView,
    lot: TradingLotView,
    remaining: Decimal,
    index: int,
    count: int,
    charged: Decimal,
)
    requires
        remaining.valid(),
        fees.valid(),
        a.quantity < lot.remaining_quantity,
        index + 1 < count,
        multiplies_exactly(remaining, Decimal::whole(a.quantity as int)),
        multiplies_exactly(fees, Decimal::whole(a.quantity as int)),
    ensures
        exists|x: Decimal|
            x.valid() && x.units() == remaining.units() * a.quantity && #[trigger] over(
                x,
                Decimal::whole(lot.remaining_quantity as int),
            ) == slice_cost(false, a, lot, remaining),
        exists|x: Decimal|
            x.valid() && x.units() == fees.units() * a.quantity && #[trigger] over(
                x,
                Decimal::whole(fill.quantity as int),
            ) == slice_fees(fill, fees, None, index, count, a.quantity, charged),
{
    law_shares_are_proportional(remaining, a.quantity, lot.remaining_quantity);
    law_shares_are_proportional(fees, a.quantity, fill.quantity);
}

/// What is left of the cost of a lot is what is recorded, or the share of its shares
/// that are left in what it cost where nothing is recorded.
pub proof fn law_lots_cost_what_is_left(lot: TradingLotView)
    requires
        lot.allocated_cost.valid(),
        lot.remaining_cost.valid(),
        multiplies_exactly(lot.allocated_cost, Decimal::whole(lot.remaining_quantity as int)),
    ensures
        lot.remaining_cost.units() != 0 || lot.allocated_cost.units() <= 0
            || lot.remaining_quantity <= 0 ==> lot_cost(lot) == Some(lot.remaining_cost),
        lot.remaining_cost.units() == 0 && lot.allocated_cost.units() > 0 && lot.remaining_quantity
            > 0 ==> exists|x: Decimal|
            x.valid() && x.units() == lot.allocated_cost.units() * lot.remaining_quantity
                && #[trigger] over(x, Decimal::whole(lot.original_quantity as int)) == lot_cost(lot),
{
    lemma_units_sign(lot.remaining_cost);
    law_shares_are_proportional(lot.allocated_cost, lot.remaining_quantity, lot.original_quantity);
}

/// The gains of some closed parts.
pub open spec fn gains(slices: Seq<ClosedSliceView>, n: nat) -> int
    decreases n,
{
    if n == 0 {
        0
    } else {
        gains(slices, (n - 1) as nat) + slices[n - 1].pnl.units()
    }
}

/// Booking parts raises the realized profit by what they gain, as long as the sums
/// fit without rounding.
pub proof fn law_realized_profit_is_what_parts_gain(
    lots: Seq<(Seq<char>, TradingLotView)>,
    realized: Decimal,
    slices: Seq<ClosedSliceView>,
    n: nat,
)
    requires
        n <= slices.len(),
        realized.valid(),
        books_exactly(lots, realized, slices, n),
    ensures
        book_slices(lots, realized, slices, n) matches Some(b) ==> b.1.valid() && b.1.units()
            == realized.units() + gains(slices, n),
    decreases n,
{
    if n > 0 {
        law_realized_profit_is_what_parts_gain(lots, realized, slices, (n - 1) as nat);
        if let Some(b) = book_slices(lots, realized, slices, (n - 1) as nat) {
            lemma_plus_exact(b.1, slices[n - 1].pnl);
        }
    }
}

/// A booked part changes its lot alone: it has as many fewer shares left, at the cost
/// that the part leaves, and what the part gains is added to what the lot gained.
pub proof fn law_booked_parts_change_their_lot(
    lots: Seq<(Seq<char>, TradingLotView)>,
    realized: Decimal,
    slices: Seq<ClosedSliceView>,
    n: nat,
    id: Seq<char>,
)
    requires
        0 < n <= slices.len(),
        ordered::<String, TradingLotView>(lots),
        book_slices(lots, realized, slices, n) is Some,
        slices[n - 1].remaining_cost.valid(),
    ensures
        ({
            let before = (book_slices(lots, realized, slices, (n - 1) as nat)->0).0;
            let after = (book_slices(lots, realized, slices, n)->0).0;
            let x = slices[n - 1];
            let old_lot = lookup::<String, TradingLotView>(before, id);
            let new_lot = lookup::<String, TradingLotView>(after, id);
            &&& ordered::<String, TradingLotView>(after)
            &&& id != x.lot_id ==> new_lot == old_lot
            &&& id == x.lot_id ==> old_lot is Some && new_lot is Some && {
                let o = old_lot->0;
                let w = new_lot->0;
                &&& w.remaining_quantity == o.remaining_quantity - x.quantity
                &&& w.remaining_cost.units() == x.remaining_cost.units()
                &&& o.realized_pnl.valid() && x.pnl.valid() && adds_exactly(
                    o.realized_pnl,
                    x.pnl,
                ) ==> w.realized_pnl.units() == o.realized_pnl.units() + x.pnl.units()
                &&& w == (TradingLotView {
                    remaining_quantity: w.remaining_quantity,
                    remaining_cost: w.remaining_cost,
                    realized_pnl: w.realized_pnl,
                    ..o
                })
            }
        }),
    decreases n,
{
    let m = (n - 1) as nat;
    let before = (book_slices(lots, realized, slices, m)->0).0;
    let x = slices[n - 1];
    lemma_booked_order(lots, realized, slices, m);
    let o = lookup::<String, TradingLotView>(before, x.lot_id)->0;
    let w = TradingLotView {
        remaining_quantity: o.remaining_quantity.checked_sub(x.quantity)->0,
        remaining_cost: normalized(x.remaining_cost),
        realized_pnl: plus(o.realized_pnl, x.pnl)->0,
        ..o
    };
    lemma_with::<String, TradingLotView>(before, x.lot_id, w);
    if id != x.lot_id {
        lemma_with_other::<String, TradingLotView>(before, x.lot_id, w, id);
    }
    law_normalizing_keeps_the_number(x.remaining_cost);
    if o.realized_pnl.valid() && x.pnl.valid() && adds_exactly(o.realized_pnl, x.pnl) {
        lemma_plus_exact(o.realized_pnl, x.pnl);
    }
}

proof fn lemma_booked_order(
    lots: Seq<(Seq<char>, TradingLotView)>,
    realized: Decimal,
    slices: Seq<ClosedSliceView>,
    n: nat,
)
    requires
        n <= slices.len(),
        ordered::<String, TradingLotView>(lots),
    ensures
        book_slices(lots, realized, slices, n) matches Some(b) ==> ordered::<String, TradingLotView>(
            b.0,
        ),
    decreases n,
{
    if n > 0 {
        lemma_booked_order(lots, realized, slices, (n - 1) as nat);
        if let (Some(p), Some(b)) = (
            book_slices(lots, realized, slices, (n - 1) as nat),
            book_slices(lots, realized, slices, n),
        ) {
            let x = slices[n - 1];
            let o = lookup::<String, TradingLotView>(p.0, x.lot_id)->0;
            lemma_with::<String, TradingLotView>(
                p.0,
                x.lot_id,
                TradingLotView {
                    remaining_quantity: o.remaining_quantity.checked_sub(x.quantity)->0,
                    remaining_cost: normalized(x.remaining_cost),
                    realized_pnl: plus(o.realized_pnl, x.pnl)->0,
                    ..o
                },
            );
        }
    }
}

/// Where a sell names no quantities of lots, it takes from lots of earlier days no
/// more than each has left, all that a lot has left before it goes on to another one,
/// and from every lot that has something before anything is missing.
pub proof fn law_sells_take_lots_in_turn(
    lots: Seq<(Seq<char>, TradingLotView)>,
    day: crate::clock::Day,
    ids: Seq<Seq<char>>,
    quantity: int,
    n: nat,
)
    requires
        n <= ids.len(),
        0 <= quantity <= i64::MAX,
    ensures
        ({
            let (a, missing) = greedy_allocations(lots, day, ids, quantity, n);
            &&& 0 <= missing <= quantity
            &&& missing == quantity - total(allocation_quantities(a))
            &&& forall|i: int|
                0 <= i < a.len() ==> (lookup::<String, TradingLotView>(
                    lots,
                    (#[trigger] a[i]).lot_id,
                ) matches Some(lot) && lot.opened_on.n() < day.n() && 0 < a[i].quantity
                    <= lot.remaining_quantity && (i < a.len() - 1 || missing > 0 ==> a[i].quantity
                    == lot.remaining_quantity))
            &&& missing > 0 ==> forall|k: int|
                0 <= k < n ==> listed_or_empty(lots, day, a, #[trigger] ids[k])
        }),
    decreases n,
{
    if n == 0 {
        assert(allocation_quantities(Seq::<LotQuantityAllocationView>::empty())
            =~= Seq::<i64>::empty());
    } else {
        law_sells_take_lots_in_turn(lots, day, ids, quantity, (n - 1) as nat);
        let (b, left) = greedy_allocations(lots, day, ids, quantity, (n - 1) as nat);
        let (a, missing) = greedy_allocations(lots, day, ids, quantity, n);
        if a.len() > b.len() {
            assert(allocation_quantities(a).drop_last() =~= allocation_quantities(b));
            assert(allocation_quantities(a).last() == a.last().quantity);
        }
        if missing > 0 {
            assert forall|k: int| 0 <= k < n implies listed_or_empty(
                lots,
                day,
                a,
                #[trigger] ids[k],
            ) by {
                if k < n - 1 {
                    assert(listed_or_empty(lots, day, b, ids[k]));
                    if exists|i: int| 0 <= i < b.len() && (#[trigger] b[i]).lot_id == ids[k] {
                        let i = choose|i: int| 0 <= i < b.len() && (#[trigger] b[i]).lot_id
                            == ids[k];
                        assert(a[i].lot_id == ids[k]);
                    }
                } else if a.len() > b.len() {
                    assert(a[b.len() as int].lot_id == ids[k]);
                }
            }
        }
    }
}

/// Whether a lot is among those taken from, or has nothing to give on the day.
pub open spec fn listed_or_empty(
    lots: Seq<(Seq<char>, TradingLotView)>,
    day: crate::clock::Day,
    a: Seq<LotQuantityAllocationView>,
    id: Seq<char>,
) -> bool {
    ||| exists|i: int| 0 <= i < a.len() && (#[trigger] a[i]).lot_id == id
    ||| lookup::<String, TradingLotView>(lots, id) is None
    ||| lookup::<String, TradingLotView>(lots, id)->0.opened_on.n() >= day.n()
    ||| lookup::<String, TradingLotView>(lots, id)->0.remaining_quantity <= 0
}

/// A sell that names quantities of lots closes exactly those: each lot once, together
/// its quantity, and only of the lots that it lists where it lists some.
pub proof fn law_sells_close_what_they_name(s: StrategyStateView, fill: FillView)
    requires
        fill.target_lot_allocations.len() > 0,
    ensures
        sell_allocations(s, fill) matches Ok(a) ==> {
            &&& a == fill.target_lot_allocations
            &&& total(allocation_quantities(a)) == fill.quantity
            &&& forall|i: int, j: int|
                0 <= i < j < a.len() ==> (#[trigger] a[i]).lot_id != (#[trigger] a[j]).lot_id
            &&& fill.target_lot_ids.len() > 0 ==> forall|i: int|
                0 <= i < a.len() ==> fill.target_lot_ids.contains((#[trigger] a[i]).lot_id)
        },
{
    lemma_checked_total(allocation_quantities(fill.target_lot_allocations));
}

proof fn lemma_greedy_places(
    lots: Seq<(Seq<char>, TradingLotView)>,
    day: crate::clock::Day,
    ids: Seq<Seq<char>>,
    quantity: int,
    n: nat,
) -> (places: Seq<int>)
    requires
        n <= ids.len(),
    ensures
        ({
            let a = greedy_allocations(lots, day, ids, quantity, n).0;
            &&& places.len() == a.len()
            &&& forall|i: int|
                0 <= i < a.len() ==> 0 <= #[trigger] places[i] < n && ids[places[i]] == a[i].lot_id
            &&& forall|i: int, j: int|
                0 <= i < j < a.len() ==> #[trigger] places[i] < #[trigger] places[j]
        }),
    decreases n,
{
    if n == 0 {
        Seq::empty()
    } else {
        let before = lemma_greedy_places(lots, day, ids, quantity, (n - 1) as nat);
        let b = greedy_allocations(lots, day, ids, quantity, (n - 1) as nat).0;
        let a = greedy_allocations(lots, day, ids, quantity, n).0;
        if a.len() > b.len() {
            before.push(n - 1)
        } else {
            before
        }
    }
}

/// Where a sell names no quantities, it goes through the lots that it lists, or
/// through all lots in the order of their names: `places` are the places in that list
/// of the lots that it closes.
pub proof fn law_sells_follow_their_list(s: StrategyStateView, fill: FillView) -> (places: Seq<int>)
    requires
        fill.target_lot_allocations.len() == 0,
        0 <= fill.quantity,
        sell_allocations(s, fill) is Ok,
    ensures
        ({
            let a = sell_allocations(s, fill)->Ok_0;
            &&& total(allocation_quantities(a)) == fill.quantity
            &&& places.len() == a.len()
            &&& forall|i: int|
                0 <= i < a.len() ==> {
                    &&& 0 <= #[trigger] places[i]
                    &&& fill.target_lot_ids.len() > 0 ==> places[i] < fill.target_lot_ids.len()
                        && a[i].lot_id == fill.target_lot_ids[places[i]]
                    &&& fill.target_lot_ids.len() == 0 ==> places[i] < s.lots.len()
                        && a[i].lot_id == s.lots[places[i]].0
                }
            &&& forall|i: int, j: int|
                0 <= i < j < a.len() ==> #[trigger] places[i] < #[trigger] places[j]
        }),
{
    let ids = if fill.target_lot_ids.len() == 0 {
        crate::domain::keys_of(s.lots)
    } else {
        fill.target_lot_ids
    };
    law_sells_take_lots_in_turn(s.lots, fill.trade_date, ids, fill.quantity as int, ids.len());
    lemma_greedy_places(s.lots, fill.trade_date, ids, fill.quantity as int, ids.len())
}

/// A part that would be closed at a loss is refused where losses are, with its lot and how
/// much it would lose; a part that gains or breaks even is closed either way.
pub proof fn law_losses_are_refused(
    s: StrategyStateView,
    fill: FillView,
    fees: Decimal,
    allocations: Seq<LotQuantityAllocationView>,
    split: Option<Seq<Decimal>>,
    index: int,
    charged: Decimal,
)
    requires
        close_slice(s, fill, fees, allocations, split, false, index, charged) is Ok,
    ensures
        ({
            let x = close_slice(s, fill, fees, allocations, split, false, index, charged)->Ok_0;
            let r = close_slice(s, fill, fees, allocations, split, true, index, charged);
            &&& x.0.pnl.units() >= 0 ==> r == close_slice(
                s,
                fill,
                fees,
                allocations,
                split,
                false,
                index,
                charged,
            )
            &&& x.0.pnl.units() < 0 && x.0.pnl.valid() ==> (r matches Err(
                DomainErrorView::LossMakingSell { lot_id, projected_loss },
            ) && lot_id == allocations[index].lot_id && projected_loss.units()
                == -x.0.pnl.units())
        }),
{
    let x = close_slice(s, fill, fees, allocations, split, false, index, charged)->Ok_0;
    if x.0.pnl.valid() {
        crate::decimal::lemma_negated(x.0.pnl);
    }
}

/// A fill is refused for its cause: as invalid exactly where it has no shares, no positive
/// price or a negative fee; for want of cash only as a buy that costs more than is there, for
/// want of shares exactly as a sell of more than can be sold, and for a loss only where
/// losses are refused.
pub proof fn law_fills_are_refused_for_cause(
    s: StrategyStateView,
    fill: FillView,
    grid_index: i32,
    split: Option<Seq<Decimal>>,
    enforce: bool,
)
    requires
        settles_exactly(s, fill),
    ensures
        ({
            let r = filled(s, fill, grid_index, split, enforce);
            let valid = fill.quantity > 0 && fill.price.units() > 0 && fill.commission.units() >= 0
                && fill.tax.units() >= 0;
            let cost = fill.price.units() * fill.quantity + fill.commission.units()
                + fill.tax.units();
            &&& (r matches Err(DomainErrorView::InvalidFill)) <==> !valid
            &&& (r matches Err(DomainErrorView::InsufficientCash)) ==> fill.direction == Direction::Buy
                && s.cash.available.units() < cost
            &&& valid && fill.direction == Direction::Buy && s.cash.available.units() < cost ==> (
            r matches Err(DomainErrorView::InsufficientCash))
            &&& (r matches Err(DomainErrorView::InsufficientSellable)) <==> valid && fill.direction
                == Direction::Sell && s.position.sellable < fill.quantity
            &&& (r matches Err(DomainErrorView::LossMakingSell { .. })) ==> enforce
                && fill.direction == Direction::Sell
        }),
{
    let v = times(fill.price, Decimal::whole(fill.quantity as int))->0;
    let f = plus(fill.commission, fill.tax)->0;
    lemma_times_whole(fill.price, fill.quantity as int);
    lemma_plus_exact(fill.commission, fill.tax);
    if fill.direction == Direction::Buy {
        lemma_plus_exact(v, f);
    } else {
        let used = if fill.target_lot_allocations.len() > 0 {
            split
        } else {
            None
        };
        if let Ok(a) = sell_allocations(s, fill) {
            lemma_close_errors(s, fill, f, a, used, enforce, a.len());
        }
    }
}

proof fn lemma_close_errors(
    s: StrategyStateView,
    fill: FillView,
    fees: Decimal,
    allocations: Seq<LotQuantityAllocationView>,
    split: Option<Seq<Decimal>>,
    enforce: bool,
    n: nat,
)
    ensures
        close_slices(s, fill, fees, allocations, split, enforce, n) matches Err(e) ==> {
            &&& e is InsufficientLotQuantity || e is NumericRange || e is InvalidLotAllocation || e
                is LossMakingSell
            &&& e is LossMakingSell ==> enforce
        },
    decreases n,
{
    if n > 0 {
        lemma_close_errors(s, fill, fees, allocations, split, enforce, (n - 1) as nat);
    }
}

/// A part is refused for want of shares exactly where its lot is not there, was opened on the
/// day of the fill or later, or has fewer shares left, or where the part has none; and for
/// its cost exactly where that is negative or more than is left.
pub proof fn law_parts_are_refused_for_cause(
    s: StrategyStateView,
    fill: FillView,
    fees: Decimal,
    allocations: Seq<LotQuantityAllocationView>,
    split: Option<Seq<Decimal>>,
    enforce: bool,
    index: int,
    charged: Decimal,
)
    ensures
        ({
            let r = close_slice(s, fill, fees, allocations, split, enforce, index, charged);
            let a = allocations[index];
            let lot = lookup::<String, TradingLotView>(s.lots, a.lot_id);
            &&& (r matches Err(DomainErrorView::InsufficientLotQuantity)) <==> !(lot matches Some(l)
                && l.opened_on.n() < fill.trade_date.n() && 0 < a.quantity
                <= l.remaining_quantity)
            &&& fill.target_lot_allocations.len() > 0 && (r matches Err(
                DomainErrorView::InvalidLotAllocation,
            )) ==> (lot matches Some(l) && (lot_cost(l) matches Some(left) && (a.cost_basis.units()
                < 0 || a.cost_basis.units() > left.units())))
        }),
{
}

} // verus!

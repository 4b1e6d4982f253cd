//! Fills, lots and the trading day: how an account changes.
use crate::arith::{checked_total, min_i64, total_of};
use crate::clock::Day;
use crate::decimal::{minus, normalized, over, plus, times, Decimal};
use crate::model::ledger::{
    CashAccount, Fill, FillView, LotQuantityAllocation, LotQuantityAllocationView, OrderStatus,
    Position, StrategyState, StrategyStateView, TradingLot, TradingLotView,
};
use crate::model::market::Direction;
use crate::table::{holds_key, lookup, with, Table};
use crate::text::join;
use crate::value::{text_list_contains, Value};
use vstd::prelude::*;

verus! {

/// Why an account refuses a change.
pub enum DomainError {
    InvalidOrderTransition(OrderStatus, OrderStatus),
    InsufficientCash,
    InsufficientSellable,
    InsufficientLotQuantity,
    InvalidLotAllocation,
    LossMakingSell { lot_id: String, projected_loss: Decimal },
    InvalidFill,
    BasePositionProtected,
    MaxPositionExceeded,
    NumericRange,
}

/// The content of [`DomainError`].
pub enum DomainErrorView {
    InvalidOrderTransition(OrderStatus, OrderStatus),
    InsufficientCash,
    InsufficientSellable,
    InsufficientLotQuantity,
    InvalidLotAllocation,
    LossMakingSell { lot_id: Seq<char>, projected_loss: Decimal },
    InvalidFill,
    BasePositionProtected,
    MaxPositionExceeded,
    NumericRange,
}

impl View for DomainError {
    type V = DomainErrorView;

    open spec fn view(&self) -> DomainErrorView {
        match self {
            DomainError::InvalidOrderTransition(a, b) => DomainErrorView::InvalidOrderTransition(
                *a,
                *b,
            ),
            DomainError::InsufficientCash => DomainErrorView::InsufficientCash,
            DomainError::InsufficientSellable => DomainErrorView::InsufficientSellable,
            DomainError::InsufficientLotQuantity => DomainErrorView::InsufficientLotQuantity,
            DomainError::InvalidLotAllocation => DomainErrorView::InvalidLotAllocation,
            DomainError::LossMakingSell { lot_id, projected_loss } =>
                DomainErrorView::LossMakingSell {
                lot_id: lot_id@,
                projected_loss: *projected_loss,
            },
            DomainError::InvalidFill => DomainErrorView::InvalidFill,
            DomainError::BasePositionProtected => DomainErrorView::BasePositionProtected,
            DomainError::MaxPositionExceeded => DomainErrorView::MaxPositionExceeded,
            DomainError::NumericRange => DomainErrorView::NumericRange,
        }
    }
}

/// `a * n / d` for a decimal and two integers.
pub open spec fn share_of(a: Decimal, n: int, d: int) -> Option<Decimal> {
    match times(a, Decimal::whole(n)) {
        Some(x) => over(x, Decimal::whole(d)),
        None => None,
    }
}

fn share(a: Decimal, n: i64, d: i64) -> (r: Option<Decimal>)
    ensures
        r == share_of(a, n as int, d as int),
{
    match a.checked_mul(Decimal::from_i64(n)) {
        Some(x) => x.checked_div(Decimal::from_i64(d)),
        None => None,
    }
}

/// The buy cost of what is left of a lot: what is recorded, or the open part of
/// the allocated cost where nothing is recorded. Nothing where that share leaves
/// the range of decimals.
pub open spec fn lot_cost(lot: TradingLotView) -> Option<Decimal> {
    if lot.remaining_cost.m() == 0 && lot.allocated_cost.units() > 0 && lot.remaining_quantity
        > 0 {
        share_of(lot.allocated_cost, lot.remaining_quantity as int, lot.original_quantity as int)
    } else {
        Some(lot.remaining_cost)
    }
}

impl TradingLot {
    /// The buy cost of what is left of the lot, where it is in range.
    pub fn checked_remaining_cost(&self) -> (r: Option<Decimal>)
        ensures
            r == lot_cost(self@),
    {
        if self.remaining_cost.is_zero() && self.allocated_cost.is_positive()
            && self.remaining_quantity > 0 {
            share(self.allocated_cost, self.remaining_quantity, self.original_quantity)
        } else {
            Some(self.remaining_cost)
        }
    }

    /// The buy cost of what is left of the lot.
    pub fn effective_remaining_cost(&self) -> (r: Decimal)
        requires
            lot_cost(self@) is Some,
        ensures
            lot_cost(self@) == Some(r),
    {
        self.checked_remaining_cost().unwrap()
    }
}

/// The quantities of allocations.
pub open spec fn allocation_quantities(a: Seq<LotQuantityAllocationView>) -> Seq<i64> {
    Seq::new(a.len(), |i: int| a[i].quantity)
}

/// The quantities of allocations.
pub fn quantities_of(a: &Vec<LotQuantityAllocation>) -> (r: Vec<i64>)
    ensures
        r@ == allocation_quantities(a.deep_view()),
{
    let mut out: Vec<i64> = Vec::new();
    let mut i: usize = 0;
    while i < a.len()
        invariant
            i <= a@.len(),
            out@.len() == i,
            forall|j: int| 0 <= j < i ==> #[trigger] out@[j] == a@[j].quantity,
        decreases a@.len() - i,
    {
        out.push(a[i].quantity);
        i = i + 1;
    }
    assert(out@ =~= allocation_quantities(a.deep_view()));
    out
}

/// Whether no two allocations are of one lot.
pub open spec fn distinct_lots(a: Seq<LotQuantityAllocationView>) -> bool {
    forall|i: int, j: int|
        0 <= i < j < a.len() ==> (#[trigger] a[i]).lot_id != (#[trigger] a[j]).lot_id
}

/// Whether no two allocations are of one lot.
pub fn lots_are_distinct(a: &Vec<LotQuantityAllocation>) -> (r: bool)
    ensures
        r == distinct_lots(a.deep_view()),
{
    let ghost v = a.deep_view();
    let mut i: usize = 0;
    while i < a.len()
        invariant
            i <= a@.len(),
            v == a.deep_view(),
            forall|x: int, y: int|
                0 <= x < y < i ==> (#[trigger] v[x]).lot_id != (#[trigger] v[y]).lot_id,
        decreases a@.len() - i,
    {
        let mut j: usize = 0;
        while j < i
            invariant
                j <= i < a@.len(),
                v == a.deep_view(),
                forall|x: int| 0 <= x < j ==> (#[trigger] v[x]).lot_id != v[i as int].lot_id,
            decreases i - j,
        {
            if a[j].lot_id == a[i].lot_id {
                assert(v[j as int].lot_id == v[i as int].lot_id);
                return false;
            }
            j = j + 1;
        }
        i = i + 1;
    }
    true
}

/// Whether every allocation is of a lot in the list.
pub open spec fn allocations_within(a: Seq<LotQuantityAllocationView>, ids: Seq<Seq<char>>) -> bool {
    forall|i: int| 0 <= i < a.len() ==> ids.contains((#[trigger] a[i]).lot_id)
}

fn allocations_are_within(a: &Vec<LotQuantityAllocation>, ids: &Vec<String>) -> (r: bool)
    ensures
        r == allocations_within(a.deep_view(), ids.deep_view()),
{
    let ghost v = a.deep_view();
    let mut i: usize = 0;
    while i < a.len()
        invariant
            i <= a@.len(),
            v == a.deep_view(),
            forall|x: int| 0 <= x < i ==> ids.deep_view().contains((#[trigger] v[x]).lot_id),
        decreases a@.len() - i,
    {
        if !text_list_contains(ids, a[i].lot_id.as_str()) {
            assert(!ids.deep_view().contains(v[i as int].lot_id));
            return false;
        }
        i = i + 1;
    }
    true
}

/// The allocation of a quantity of a lot, without a proof of its own.
pub open spec fn bare_allocation(lot_id: Seq<char>, quantity: int) -> LotQuantityAllocationView {
    LotQuantityAllocationView {
        lot_id,
        tranche_id: Seq::empty(),
        quantity: quantity as i64,
        cost_basis: Decimal::zero(),
        worst_fill_price: Decimal::zero(),
        maximum_sell_fees: Decimal::zero(),
        worst_case_profit: Decimal::zero(),
    }
}

/// What the first `n` of the listed lots give towards `quantity`: as much as
/// each has left, in the order of the list, from lots that were opened before
/// the day; and what is still missing.
pub open spec fn greedy_allocations(
    lots: Seq<(Seq<char>, TradingLotView)>,
    day: Day,
    ids: Seq<Seq<char>>,
    quantity: int,
    n: nat,
) -> (Seq<LotQuantityAllocationView>, int)
    decreases n,
{
    if n == 0 {
        (Seq::empty(), quantity)
    } else {
        let before = greedy_allocations(lots, day, ids, quantity, (n - 1) as nat);
        let id = ids[n - 1];
        match lookup::<String, TradingLotView>(lots, id) {
            Some(lot) => {
                let q = if before.1 <= lot.remaining_quantity {
                    before.1
                } else {
                    lot.remaining_quantity as int
                };
                if before.1 != 0 && lot.opened_on.n() < day.n() && q > 0 {
                    (before.0.push(bare_allocation(id, q)), before.1 - q)
                } else {
                    before
                }
            },
            None => before,
        }
    }
}

/// The keys of a table in order.
pub open spec fn keys_of<V>(t: Seq<(Seq<char>, V)>) -> Seq<Seq<char>> {
    Seq::new(t.len(), |i: int| t[i].0)
}

/// The lots that a sell fill closes: those that it names with quantities, or
/// else lots in the order that it names, or else all lots in order.
pub open spec fn sell_allocations(s: StrategyStateView, fill: FillView) -> Result<
    Seq<LotQuantityAllocationView>,
    DomainErrorView,
> {
    let a = fill.target_lot_allocations;
    if a.len() > 0 {
        match checked_total(allocation_quantities(a)) {
            None => Err(DomainErrorView::NumericRange),
            Some(t) => if t != fill.quantity || !distinct_lots(a) || (fill.target_lot_ids.len() > 0
                && !allocations_within(a, fill.target_lot_ids)) {
                Err(DomainErrorView::InvalidLotAllocation)
            } else {
                Ok(a)
            },
        }
    } else {
        let ids = if fill.target_lot_ids.len() == 0 {
            keys_of(s.lots)
        } else {
            fill.target_lot_ids
        };
        let g = greedy_allocations(s.lots, fill.trade_date, ids, fill.quantity as int, ids.len());
        if g.1 != 0 {
            Err(DomainErrorView::InsufficientLotQuantity)
        } else {
            Ok(g.0)
        }
    }
}

/// One closed part of a lot.
pub struct ClosedSlice {
    pub lot_id: String,
    pub quantity: i64,
    pub remaining_cost: Decimal,
    pub pnl: Decimal,
}

/// The content of [`ClosedSlice`].
pub struct ClosedSliceView {
    pub lot_id: Seq<char>,
    pub quantity: i64,
    pub remaining_cost: Decimal,
    pub pnl: Decimal,
}

impl DeepView for ClosedSlice {
    type V = ClosedSliceView;

    open spec fn deep_view(&self) -> ClosedSliceView {
        ClosedSliceView {
            lot_id: self.lot_id@,
            quantity: self.quantity,
            remaining_cost: self.remaining_cost,
            pnl: self.pnl,
        }
    }
}

/// The fees that a closed part bears: its part of an explicit split, what is
/// left of the fees for the last part, and else its share of them.
pub open spec fn slice_fees(
    fill: FillView,
    fees: Decimal,
    split: Option<Seq<Decimal>>,
    index: int,
    count: int,
    quantity: i64,
    charged: Decimal,
) -> Option<Decimal> {
    match split {
        Some(parts) => Some(parts[index]),
        None => if index + 1 == count {
            minus(fees, charged)
        } else {
            share_of(fees, quantity as int, fill.quantity as int)
        },
    }
}

/// The buy cost of a closed part: what the fill names, all that is left of the
/// lot, or its share of it.
pub open spec fn slice_cost(
    explicit: bool,
    allocation: LotQuantityAllocationView,
    lot: TradingLotView,
    remaining: Decimal,
) -> Option<Decimal> {
    if explicit {
        Some(allocation.cost_basis)
    } else if allocation.quantity == lot.remaining_quantity {
        Some(remaining)
    } else {
        share_of(remaining, allocation.quantity as int, lot.remaining_quantity as int)
    }
}

/// `a - b - c` for the proceeds of `quantity` shares.
pub open spec fn slice_pnl(price: Decimal, quantity: int, cost: Decimal, fees: Decimal) -> Option<
    Decimal,
> {
    match times(price, Decimal::whole(quantity)) {
        Some(v) => match minus(v, cost) {
            Some(w) => minus(w, fees),
            None => None,
        },
        None => None,
    }
}

/// One closed part, with the fees charged so far after it.
pub open spec fn close_slice(
    s: StrategyStateView,
    fill: FillView,
    fees: Decimal,
    allocations: Seq<LotQuantityAllocationView>,
    split: Option<Seq<Decimal>>,
    enforce: bool,
    index: int,
    charged: Decimal,
) -> Result<(ClosedSliceView, Decimal), DomainErrorView> {
    let a = allocations[index];
    let explicit = fill.target_lot_allocations.len() > 0;
    match lookup::<String, TradingLotView>(s.lots, a.lot_id) {
        None => Err(DomainErrorView::InsufficientLotQuantity),
        Some(lot) => if lot.opened_on.n() >= fill.trade_date.n() || a.quantity <= 0 || a.quantity
            > lot.remaining_quantity {
            Err(DomainErrorView::InsufficientLotQuantity)
        } else {
            match lot_cost(lot) {
                None => Err(DomainErrorView::NumericRange),
                Some(remaining) => match slice_cost(explicit, a, lot, remaining) {
                    None => Err(DomainErrorView::NumericRange),
                    Some(cost) => if cost.units() < 0 || cost.units() > remaining.units() {
                        Err(DomainErrorView::InvalidLotAllocation)
                    } else {
                        match slice_fees(
                            fill,
                            fees,
                            split,
                            index,
                            allocations.len() as int,
                            a.quantity,
                            charged,
                        ) {
                            None => Err(DomainErrorView::NumericRange),
                            Some(part) => match plus(charged, part) {
                                None => Err(DomainErrorView::NumericRange),
                                Some(next) => match slice_pnl(
                                    fill.price,
                                    a.quantity as int,
                                    cost,
                                    part,
                                ) {
                                    None => Err(DomainErrorView::NumericRange),
                                    Some(pnl) => if enforce && pnl.units() < 0 {
                                        Err(
                                            DomainErrorView::LossMakingSell {
                                                lot_id: a.lot_id,
                                                projected_loss: Decimal::of(-pnl.m(), pnl.s()),
                                            },
                                        )
                                    } else {
                                        match minus(remaining, cost) {
                                            None => Err(DomainErrorView::NumericRange),
                                            Some(left) => Ok(
                                                (
                                                    ClosedSliceView {
                                                        lot_id: a.lot_id,
                                                        quantity: a.quantity,
                                                        remaining_cost: left,
                                                        pnl,
                                                    },
                                                    next,
                                                ),
                                            ),
                                        }
                                    },
                                },
                            },
                        }
                    },
                },
            }
        },
    }
}

/// The first `n` closed parts, with the fees charged after them.
pub open spec fn close_slices(
    s: StrategyStateView,
    fill: FillView,
    fees: Decimal,
    allocations: Seq<LotQuantityAllocationView>,
    split: Option<Seq<Decimal>>,
    enforce: bool,
    n: nat,
) -> Result<(Seq<ClosedSliceView>, Decimal), DomainErrorView>
    decreases n,
{
    if n == 0 {
        Ok((Seq::empty(), Decimal::zero()))
    } else {
        match close_slices(s, fill, fees, allocations, split, enforce, (n - 1) as nat) {
            Err(e) => Err(e),
            Ok(before) => match close_slice(
                s,
                fill,
                fees,
                allocations,
                split,
                enforce,
                n - 1,
                before.1,
            ) {
                Err(e) => Err(e),
                Ok(x) => Ok((before.0.push(x.0), x.1)),
            },
        }
    }
}

/// The lots and the realized profit after the first `n` closed parts.
pub open spec fn book_slices(
    lots: Seq<(Seq<char>, TradingLotView)>,
    realized: Decimal,
    slices: Seq<ClosedSliceView>,
    n: nat,
) -> Option<(Seq<(Seq<char>, TradingLotView)>, Decimal)>
    decreases n,
{
    if n == 0 {
        Some((lots, realized))
    } else {
        match book_slices(lots, realized, slices, (n - 1) as nat) {
            None => None,
            Some(before) => {
                let x = slices[n - 1];
                match lookup::<String, TradingLotView>(before.0, x.lot_id) {
                    None => None,
                    Some(lot) => match (
                        lot.remaining_quantity.checked_sub(x.quantity),
                        plus(lot.realized_pnl, x.pnl),
                        plus(before.1, x.pnl),
                    ) {
                        (Some(left), Some(lot_pnl), Some(all_pnl)) => Some(
                            (
                                with::<String, TradingLotView>(
                                    before.0,
                                    x.lot_id,
                                    TradingLotView {
                                        remaining_quantity: left,
                                        remaining_cost: normalized(x.remaining_cost),
                                        realized_pnl: lot_pnl,
                                        ..lot
                                    },
                                ),
                                all_pnl,
                            ),
                        ),
                        _ => None,
                    },
                }
            },
        }
    }
}

/// The lot that a buy fill opens.
pub open spec fn opened_lot(fill: FillView, grid_index: i32, cost: Decimal) -> TradingLotView {
    TradingLotView {
        lot_id: "lot:"@ + fill.fill_id,
        source_order_id: fill.order_id,
        grid_index,
        opened_on: fill.trade_date,
        original_quantity: fill.quantity,
        remaining_quantity: fill.quantity,
        open_price: fill.price,
        allocated_cost: cost,
        remaining_cost: normalized(cost),
        realized_pnl: Decimal::zero(),
    }
}

/// The state after a buy fill: cash pays the shares and the fees, the shares
/// are bought today, and a lot is opened.
pub open spec fn bought(
    s: StrategyStateView,
    fill: FillView,
    grid_index: i32,
    notional: Decimal,
    fees: Decimal,
) -> Result<StrategyStateView, DomainErrorView> {
    match plus(notional, fees) {
        None => Err(DomainErrorView::NumericRange),
        Some(cost) => if s.cash.available.units() < cost.units() {
            Err(DomainErrorView::InsufficientCash)
        } else {
            match (
                minus(s.cash.available, cost),
                plus(s.cash.total_fees, fees),
                s.position.total.checked_add(fill.quantity),
                s.position.today_bought.checked_add(fill.quantity),
                plus(s.deployed_grid_budget, notional),
            ) {
                (Some(available), Some(total_fees), Some(total), Some(today), Some(deployed)) => Ok(
                    StrategyStateView {
                        cash: CashAccount { available, total_fees, ..s.cash },
                        position: Position { total, today_bought: today, ..s.position },
                        deployed_grid_budget: deployed,
                        lots: with::<String, TradingLotView>(
                            s.lots,
                            "lot:"@ + fill.fill_id,
                            opened_lot(fill, grid_index, cost),
                        ),
                        processed_fills: with::<String, ()>(s.processed_fills, fill.fill_id, ()),
                        ..s
                    },
                ),
                _ => Err(DomainErrorView::NumericRange),
            }
        },
    }
}

/// The state after a sell fill: lots are closed at a profit or loss, and cash
/// takes the proceeds without the fees.
pub open spec fn sold(
    s: StrategyStateView,
    fill: FillView,
    notional: Decimal,
    fees: Decimal,
    split: Option<Seq<Decimal>>,
    enforce: bool,
) -> Result<StrategyStateView, DomainErrorView> {
    if s.position.sellable < fill.quantity {
        Err(DomainErrorView::InsufficientSellable)
    } else {
        match sell_allocations(s, fill) {
            Err(e) => Err(e),
            Ok(allocations) => {
                let explicit = fill.target_lot_allocations.len() > 0;
                if explicit && (split is None || split->0.len() != allocations.len()) {
                    Err(DomainErrorView::InvalidLotAllocation)
                } else {
                    let used = if explicit {
                        split
                    } else {
                        None
                    };
                    match close_slices(
                        s,
                        fill,
                        fees,
                        allocations,
                        used,
                        enforce,
                        allocations.len(),
                    ) {
                        Err(e) => Err(e),
                        Ok(closed) => match checked_total(allocation_quantities(allocations)) {
                            None => Err(DomainErrorView::NumericRange),
                            Some(t) => if t != fill.quantity {
                                Err(DomainErrorView::InsufficientLotQuantity)
                            } else {
                                match (
                                    book_slices(
                                        s.lots,
                                        s.realized_pnl,
                                        closed.0,
                                        closed.0.len(),
                                    ),
                                    minus(notional, fees),
                                    plus(s.cash.total_fees, fees),
                                    s.position.total.checked_sub(fill.quantity),
                                    s.position.sellable.checked_sub(fill.quantity),
                                ) {
                                    (
                                        Some(booked),
                                        Some(proceeds),
                                        Some(total_fees),
                                        Some(total),
                                        Some(sellable),
                                    ) => match plus(s.cash.available, proceeds) {
                                        None => Err(DomainErrorView::NumericRange),
                                        Some(available) => Ok(
                                            StrategyStateView {
                                                cash: CashAccount {
                                                    available,
                                                    total_fees,
                                                    ..s.cash
                                                },
                                                position: Position {
                                                    total,
                                                    sellable,
                                                    ..s.position
                                                },
                                                lots: booked.0,
                                                realized_pnl: booked.1,
                                                processed_fills: with::<String, ()>(
                                                    s.processed_fills,
                                                    fill.fill_id,
                                                    (),
                                                ),
                                                ..s
                                            },
                                        ),
                                    },
                                    _ => Err(DomainErrorView::NumericRange),
                                }
                            },
                        },
                    }
                }
            },
        }
    }
}

/// The state after a fill that has not been applied before. `split` is how the
/// fees fall on the named allocations of a sell.
pub open spec fn filled(
    s: StrategyStateView,
    fill: FillView,
    grid_index: i32,
    split: Option<Seq<Decimal>>,
    enforce: bool,
) -> Result<StrategyStateView, DomainErrorView> {
    if fill.quantity <= 0 || fill.price.units() <= 0 || fill.commission.units() < 0
        || fill.tax.units() < 0 {
        Err(DomainErrorView::InvalidFill)
    } else {
        match (times(fill.price, Decimal::whole(fill.quantity as int)), plus(
            fill.commission,
            fill.tax,
        )) {
            (Some(notional), Some(fees)) => match fill.direction {
                Direction::Buy => bought(s, fill, grid_index, notional, fees),
                Direction::Sell => sold(s, fill, notional, fees, split, enforce),
            },
            _ => Err(DomainErrorView::NumericRange),
        }
    }
}

fn negated(a: Decimal) -> (r: Decimal)
    ensures
        r == Decimal::of(-a.m(), a.s()),
{
    let m: i128 = a.mantissa();
    Decimal::from_scaled(-m, a.scale()).unwrap()
}

impl StrategyState {
    fn table_keys(lots: &Table<String, TradingLot>) -> (r: Vec<String>)
        ensures
            r.deep_view() == keys_of(lots@),
    {
        let mut out: Vec<String> = Vec::new();
        let mut i: usize = 0;
        while i < lots.len()
            invariant
                i <= lots@.len(),
                out@.len() == i,
                forall|j: int| 0 <= j < i ==> (#[trigger] out@[j])@ == lots@[j].0,
            decreases lots@.len() - i,
        {
            out.push(lots.key_at(i).clone());
            i = i + 1;
        }
        assert(out.deep_view() =~= keys_of(lots@));
        out
    }

    /// The lots that a sell fill closes.
    pub fn sell_fill_allocations(&self, fill: &Fill) -> (r: Result<
        Vec<LotQuantityAllocation>,
        DomainError,
    >)
        ensures
            match r {
                Ok(a) => sell_allocations(self@, fill@) == Ok::<
                    Seq<LotQuantityAllocationView>,
                    DomainErrorView,
                >(a.deep_view()),
                Err(e) => sell_allocations(self@, fill@) == Err::<
                    Seq<LotQuantityAllocationView>,
                    DomainErrorView,
                >(e@),
            },
    {
        if fill.target_lot_allocations.len() > 0 {
            let quantities = quantities_of(&fill.target_lot_allocations);
            let total: i64 = match total_of(&quantities) {
                Some(t) => t,
                None => {
                    return Err(DomainError::NumericRange);
                },
            };
            if total != fill.quantity || !lots_are_distinct(&fill.target_lot_allocations) || (
            fill.target_lot_ids.len() > 0 && !allocations_are_within(
                &fill.target_lot_allocations,
                &fill.target_lot_ids,
            )) {
                return Err(DomainError::InvalidLotAllocation);
            }
            return Ok(fill.target_lot_allocations.dup());
        }
        let ids = if fill.target_lot_ids.len() == 0 {
            Self::table_keys(&self.lots)
        } else {
            fill.target_lot_ids.dup()
        };
        let ghost idv = ids.deep_view();
        let ghost day = fill.trade_date;
        let mut remaining: i64 = fill.quantity;
        let mut allocations: Vec<LotQuantityAllocation> = Vec::new();
        assert(allocations.deep_view() =~= Seq::empty());
        let mut i: usize = 0;
        while i < ids.len()
            invariant
                i <= ids@.len(),
                idv == ids.deep_view(),
                day == fill.trade_date,
                remaining <= fill.quantity,
                fill.quantity >= 0 ==> remaining >= 0,
                fill.quantity < 0 ==> remaining == fill.quantity,
                (allocations.deep_view(), remaining as int) == greedy_allocations(
                    self@.lots,
                    day,
                    idv,
                    fill@.quantity as int,
                    i as nat,
                ),
            decreases ids@.len() - i,
        {
            assert(idv[i as int] == ids@[i as int]@);
            if remaining != 0 {
                if let Some(lot) = self.lots.get(&ids[i]) {
                    let quantity: i64 = min_i64(remaining, lot.remaining_quantity);
                    if lot.opened_on.before(&fill.trade_date) && quantity > 0 {
                        let ghost before = allocations.deep_view();
                        let a = LotQuantityAllocation {
                            lot_id: ids[i].clone(),
                            tranche_id: String::new(),
                            quantity,
                            cost_basis: Decimal::nil(),
                            worst_fill_price: Decimal::nil(),
                            maximum_sell_fees: Decimal::nil(),
                            worst_case_profit: Decimal::nil(),
                        };
                        assert(a@ == bare_allocation(idv[i as int], quantity as int));
                        allocations.push(a);
                        assert(allocations.deep_view() =~= before.push(
                            bare_allocation(idv[i as int], quantity as int),
                        ));
                        remaining = remaining - quantity;
                    }
                }
            }
            i = i + 1;
        }
        if remaining != 0 {
            return Err(DomainError::InsufficientLotQuantity);
        }
        Ok(allocations)
    }

    fn close_one(
        &self,
        fill: &Fill,
        fees: Decimal,
        allocations: &Vec<LotQuantityAllocation>,
        split: &Option<Vec<Decimal>>,
        enforce: bool,
        index: usize,
        charged: Decimal,
    ) -> (r: Result<(ClosedSlice, Decimal), DomainError>)
        requires
            index < allocations@.len(),
            split is Some ==> split->0@.len() == allocations@.len(),
        ensures
            match r {
                Ok(x) => close_slice(
                    self@,
                    fill@,
                    fees,
                    allocations.deep_view(),
                    split.deep_view(),
                    enforce,
                    index as int,
                    charged,
                ) == Ok::<(ClosedSliceView, Decimal), DomainErrorView>((x.0.deep_view(), x.1)),
                Err(e) => close_slice(
                    self@,
                    fill@,
                    fees,
                    allocations.deep_view(),
                    split.deep_view(),
                    enforce,
                    index as int,
                    charged,
                ) == Err::<(ClosedSliceView, Decimal), DomainErrorView>(e@),
            },
    {
        let a = &allocations[index];
        let explicit = fill.target_lot_allocations.len() > 0;
        let lot = match self.lots.get(&a.lot_id) {
            Some(lot) => lot,
            None => {
                return Err(DomainError::InsufficientLotQuantity);
            },
        };
        if !lot.opened_on.before(&fill.trade_date) || a.quantity <= 0 || a.quantity
            > lot.remaining_quantity {
            return Err(DomainError::InsufficientLotQuantity);
        }
        let remaining = match lot.checked_remaining_cost() {
            Some(c) => c,
            None => {
                return Err(DomainError::NumericRange);
            },
        };
        let cost = if explicit {
            a.cost_basis
        } else if a.quantity == lot.remaining_quantity {
            remaining
        } else {
            match share(remaining, a.quantity, lot.remaining_quantity) {
                Some(c) => c,
                None => {
                    return Err(DomainError::NumericRange);
                },
            }
        };
        if cost.is_negative() || remaining.below(&cost) {
            return Err(DomainError::InvalidLotAllocation);
        }
        let part = match split {
            Some(parts) => {
                assert(split.deep_view()->0[index as int] == parts@[index as int]);
                parts[index]
            },
            None => {
                let p = if index == allocations.len() - 1 {
                    fees.checked_sub(charged)
                } else {
                    share(fees, a.quantity, fill.quantity)
                };
                match p {
                    Some(p) => p,
                    None => {
                        return Err(DomainError::NumericRange);
                    },
                }
            },
        };
        let next = match charged.checked_add(part) {
            Some(n) => n,
            None => {
                return Err(DomainError::NumericRange);
            },
        };
        let pnl = match fill.price.checked_mul(Decimal::from_i64(a.quantity)) {
            Some(v) => match v.checked_sub(cost) {
                Some(w) => w.checked_sub(part),
                None => None,
            },
            None => None,
        };
        let pnl = match pnl {
            Some(p) => p,
            None => {
                return Err(DomainError::NumericRange);
            },
        };
        if enforce && pnl.is_negative() {
            return Err(
                DomainError::LossMakingSell {
                    lot_id: a.lot_id.clone(),
                    projected_loss: negated(pnl),
                },
            );
        }
        match remaining.checked_sub(cost) {
            None => Err(DomainError::NumericRange),
            Some(left) => Ok(
                (
                    ClosedSlice {
                        lot_id: a.lot_id.clone(),
                        quantity: a.quantity,
                        remaining_cost: left,
                        pnl,
                    },
                    next,
                ),
            ),
        }
    }

    fn close_all(
        &self,
        fill: &Fill,
        fees: Decimal,
        allocations: &Vec<LotQuantityAllocation>,
        split: &Option<Vec<Decimal>>,
        enforce: bool,
    ) -> (r: Result<Vec<ClosedSlice>, DomainError>)
        requires
            split is Some ==> split->0@.len() == allocations@.len(),
        ensures
            match r {
                Ok(x) => close_slices(
                    self@,
                    fill@,
                    fees,
                    allocations.deep_view(),
                    split.deep_view(),
                    enforce,
                    allocations@.len(),
                ) matches Ok(c) && c.0 == x.deep_view(),
                Err(e) => close_slices(
                    self@,
                    fill@,
                    fees,
                    allocations.deep_view(),
                    split.deep_view(),
                    enforce,
                    allocations@.len(),
                ) == Err::<(Seq<ClosedSliceView>, Decimal), DomainErrorView>(e@),
            },
    {
        let mut out: Vec<ClosedSlice> = Vec::new();
        let mut charged = Decimal::nil();
        let mut i: usize = 0;
        assert(out.deep_view() =~= Seq::empty());
        while i < allocations.len()
            invariant
                i <= allocations@.len(),
                split is Some ==> split->0@.len() == allocations@.len(),
                close_slices(
                    self@,
                    fill@,
                    fees,
                    allocations.deep_view(),
                    split.deep_view(),
                    enforce,
                    i as nat,
                ) == Ok::<(Seq<ClosedSliceView>, Decimal), DomainErrorView>(
                    (out.deep_view(), charged),
                ),
            decreases allocations@.len() - i,
        {
            match self.close_one(fill, fees, allocations, split, enforce, i, charged) {
                Ok(x) => {
                    let ghost before = out.deep_view();
                    let ghost slice = x.0.deep_view();
                    out.push(x.0);
                    assert(out.deep_view() =~= before.push(slice));
                    charged = x.1;
                },
                Err(e) => {
                    proof {
                        lemma_close_error(
                            self@,
                            fill@,
                            fees,
                            allocations.deep_view(),
                            split.deep_view(),
                            enforce,
                            (i + 1) as nat,
                            allocations@.len(),
                        );
                    }
                    return Err(e);
                },
            }
            i = i + 1;
        }
        Ok(out)
    }

    fn book_all(&mut self, slices: &Vec<ClosedSlice>) -> (r: bool)
        ensures
            match book_slices(
                old(self)@.lots,
                old(self)@.realized_pnl,
                slices.deep_view(),
                slices@.len(),
            ) {
                Some(b) => r && final(self)@ == (StrategyStateView {
                    lots: b.0,
                    realized_pnl: b.1,
                    ..old(self)@
                }),
                None => !r,
            },
    {
        let ghost start = self@;
        let mut i: usize = 0;
        while i < slices.len()
            invariant
                i <= slices@.len(),
                start == old(self)@,
                book_slices(start.lots, start.realized_pnl, slices.deep_view(), i as nat) == Some(
                    (self@.lots, self@.realized_pnl),
                ),
                self@ == (StrategyStateView {
                    lots: self@.lots,
                    realized_pnl: self@.realized_pnl,
                    ..start
                }),
            decreases slices@.len() - i,
        {
            let x = &slices[i];
            assert(slices.deep_view()[i as int] == x.deep_view());
            let booked = match self.lots.get(&x.lot_id) {
                None => None,
                Some(lot) => match (
                    lot.remaining_quantity.checked_sub(x.quantity),
                    lot.realized_pnl.checked_add(x.pnl),
                    self.realized_pnl.checked_add(x.pnl),
                ) {
                    (Some(left), Some(lot_pnl), Some(all_pnl)) => {
                        let mut next = lot.dup();
                        next.remaining_quantity = left;
                        next.remaining_cost = x.remaining_cost.normalize();
                        next.realized_pnl = lot_pnl;
                        Some((next, all_pnl))
                    },
                    _ => None,
                },
            };
            match booked {
                None => {
                    proof {
                        lemma_book_none(
                            start.lots,
                            start.realized_pnl,
                            slices.deep_view(),
                            (i + 1) as nat,
                            slices@.len(),
                        );
                    }
                    return false;
                },
                Some((next, all_pnl)) => {
                    self.lots.put(x.lot_id.clone(), next);
                    self.realized_pnl = all_pnl;
                },
            }
            i = i + 1;
        }
        true
    }

    fn apply_buy(&mut self, fill: &Fill, grid_index: i32, notional: Decimal, fees: Decimal) -> (r:
        Result<(), DomainError>)
        ensures
            match r {
                Ok(_) => bought(old(self)@, fill@, grid_index, notional, fees) == Ok::<
                    StrategyStateView,
                    DomainErrorView,
                >(final(self)@),
                Err(e) => bought(old(self)@, fill@, grid_index, notional, fees) == Err::<
                    StrategyStateView,
                    DomainErrorView,
                >(e@) && final(self)@ == old(self)@,
            },
    {
        let cost = match notional.checked_add(fees) {
            Some(c) => c,
            None => {
                return Err(DomainError::NumericRange);
            },
        };
        if self.cash.available.below(&cost) {
            return Err(DomainError::InsufficientCash);
        }
        match (
            self.cash.available.checked_sub(cost),
            self.cash.total_fees.checked_add(fees),
            self.position.total.checked_add(fill.quantity),
            self.position.today_bought.checked_add(fill.quantity),
            self.deployed_grid_budget.checked_add(notional),
        ) {
            (Some(available), Some(total_fees), Some(total), Some(today), Some(deployed)) => {
                let lot_id = join("lot:", fill.fill_id.as_str());
                let lot = TradingLot {
                    lot_id: lot_id.clone(),
                    source_order_id: fill.order_id.clone(),
                    grid_index,
                    opened_on: fill.trade_date,
                    original_quantity: fill.quantity,
                    remaining_quantity: fill.quantity,
                    open_price: fill.price,
                    allocated_cost: cost,
                    remaining_cost: cost.normalize(),
                    realized_pnl: Decimal::nil(),
                };
                assert(lot@ == opened_lot(fill@, grid_index, cost));
                self.cash = CashAccount { available, frozen: self.cash.frozen, total_fees };
                self.position = Position {
                    total,
                    sellable: self.position.sellable,
                    today_bought: today,
                    frozen_sell: self.position.frozen_sell,
                };
                self.deployed_grid_budget = deployed;
                self.lots.put(lot_id, lot);
                self.processed_fills.put(fill.fill_id.clone(), ());
                Ok(())
            },
            _ => Err(DomainError::NumericRange),
        }
    }

    fn apply_sell(
        &mut self,
        fill: &Fill,
        notional: Decimal,
        fees: Decimal,
        split: &Option<Vec<Decimal>>,
        enforce: bool,
    ) -> (r: Result<(), DomainError>)
        ensures
            match r {
                Ok(_) => sold(
                    old(self)@,
                    fill@,
                    notional,
                    fees,
                    split.deep_view(),
                    enforce,
                ) == Ok::<StrategyStateView, DomainErrorView>(final(self)@),
                Err(e) => sold(
                    old(self)@,
                    fill@,
                    notional,
                    fees,
                    split.deep_view(),
                    enforce,
                ) == Err::<StrategyStateView, DomainErrorView>(e@),
            },
    {
        if self.position.sellable < fill.quantity {
            return Err(DomainError::InsufficientSellable);
        }
        let allocations = self.sell_fill_allocations(fill)?;
        let explicit = fill.target_lot_allocations.len() > 0;
        let no_split: Option<Vec<Decimal>> = None;
        let used = if explicit {
            match split {
                Some(parts) => {
                    if parts.len() != allocations.len() {
                        return Err(DomainError::InvalidLotAllocation);
                    }
                },
                None => {
                    return Err(DomainError::InvalidLotAllocation);
                },
            }
            split
        } else {
            &no_split
        };
        let closed = self.close_all(fill, fees, &allocations, used, enforce)?;
        let quantities = quantities_of(&allocations);
        match total_of(&quantities) {
            None => {
                return Err(DomainError::NumericRange);
            },
            Some(t) => {
                if t != fill.quantity {
                    return Err(DomainError::InsufficientLotQuantity);
                }
            },
        }
        let available = match notional.checked_sub(fees) {
            Some(p) => self.cash.available.checked_add(p),
            None => None,
        };
        let total_fees = self.cash.total_fees.checked_add(fees);
        let total = self.position.total.checked_sub(fill.quantity);
        let sellable = self.position.sellable.checked_sub(fill.quantity);
        let booked = self.book_all(&closed);
        if !booked {
            return Err(DomainError::NumericRange);
        }
        match (available, total_fees, total, sellable) {
            (Some(available), Some(total_fees), Some(total), Some(sellable)) => {
                self.cash = CashAccount { available, frozen: self.cash.frozen, total_fees };
                self.position = Position {
                    total,
                    sellable,
                    today_bought: self.position.today_bought,
                    frozen_sell: self.position.frozen_sell,
                };
                self.processed_fills.put(fill.fill_id.clone(), ());
                Ok(())
            },
            _ => Err(DomainError::NumericRange),
        }
    }

    /// Applies a fill that has not been applied before.
    fn apply_fill_inner(
        &mut self,
        fill: &Fill,
        grid_index: i32,
        split: &Option<Vec<Decimal>>,
        enforce: bool,
    ) -> (r: Result<(), DomainError>)
        ensures
            match r {
                Ok(_) => filled(old(self)@, fill@, grid_index, split.deep_view(), enforce) == Ok::<
                    StrategyStateView,
                    DomainErrorView,
                >(final(self)@),
                Err(e) => filled(old(self)@, fill@, grid_index, split.deep_view(), enforce)
                    == Err::<StrategyStateView, DomainErrorView>(e@),
            },
    {
        if fill.quantity <= 0 || !fill.price.is_positive() || fill.commission.is_negative()
            || fill.tax.is_negative() {
            return Err(DomainError::InvalidFill);
        }
        match (
            fill.price.checked_mul(Decimal::from_i64(fill.quantity)),
            fill.commission.checked_add(fill.tax),
        ) {
            (Some(notional), Some(fees)) => match fill.direction {
                Direction::Buy => self.apply_buy(fill, grid_index, notional, fees),
                Direction::Sell => self.apply_sell(fill, notional, fees, split, enforce),
            },
            _ => Err(DomainError::NumericRange),
        }
    }

    /// Applies a fill once. A fill that has been applied before changes nothing
    /// and gives `false`; a fill that is refused changes nothing either.
    ///
    /// `split` is how the fees of a sell fall on the allocations that the fill
    /// names, one part for each.
    pub fn apply_fill_with_policy(
        &mut self,
        fill: &Fill,
        grid_index: i32,
        split: &Option<Vec<Decimal>>,
        enforce_no_loss: bool,
    ) -> (r: Result<bool, DomainError>)
        ensures
            match r {
                Ok(applied) => applied == !holds_key::<String, ()>(
                    old(self)@.processed_fills,
                    fill@.fill_id,
                ) && if applied {
                    filled(
                        old(self)@,
                        fill@,
                        grid_index,
                        split.deep_view(),
                        enforce_no_loss,
                    ) == Ok::<StrategyStateView, DomainErrorView>(final(self)@)
                } else {
                    final(self)@ == old(self)@
                },
                Err(e) => !holds_key::<String, ()>(old(self)@.processed_fills, fill@.fill_id) && filled(
                    old(self)@,
                    fill@,
                    grid_index,
                    split.deep_view(),
                    enforce_no_loss,
                ) == Err::<StrategyStateView, DomainErrorView>(e@) && final(self)@ == old(self)@,
            },
    {
        if self.processed_fills.contains(&fill.fill_id) {
            return Ok(false);
        }
        let mut projected = self.dup();
        match projected.apply_fill_inner(fill, grid_index, split, enforce_no_loss) {
            Ok(_) => {
                *self = projected;
                Ok(true)
            },
            Err(e) => Err(e),
        }
    }

    /// Applies a fill once, even a sell at a loss.
    pub fn apply_legacy_fill(&mut self, fill: &Fill, grid_index: i32, split: &Option<
        Vec<Decimal>,
    >) -> (r: Result<bool, DomainError>)
        ensures
            match r {
                Ok(applied) => applied == !holds_key::<String, ()>(
                    old(self)@.processed_fills,
                    fill@.fill_id,
                ) && if applied {
                    filled(old(self)@, fill@, grid_index, split.deep_view(), false) == Ok::<
                        StrategyStateView,
                        DomainErrorView,
                    >(final(self)@)
                } else {
                    final(self)@ == old(self)@
                },
                Err(e) => !holds_key::<String, ()>(old(self)@.processed_fills, fill@.fill_id) && filled(
                    old(self)@,
                    fill@,
                    grid_index,
                    split.deep_view(),
                    false,
                ) == Err::<StrategyStateView, DomainErrorView>(e@) && final(self)@ == old(self)@,
            },
    {
        self.apply_fill_with_policy(fill, grid_index, split, false)
    }

    /// Applies a fill once, and refuses a sell at a loss.
    pub fn apply_fill(&mut self, fill: &Fill, grid_index: i32, split: &Option<Vec<Decimal>>) -> (r:
        Result<bool, DomainError>)
        ensures
            match r {
                Ok(applied) => applied == !holds_key::<String, ()>(
                    old(self)@.processed_fills,
                    fill@.fill_id,
                ) && if applied {
                    filled(old(self)@, fill@, grid_index, split.deep_view(), true) == Ok::<
                        StrategyStateView,
                        DomainErrorView,
                    >(final(self)@)
                } else {
                    final(self)@ == old(self)@
                },
                Err(e) => !holds_key::<String, ()>(old(self)@.processed_fills, fill@.fill_id) && filled(
                    old(self)@,
                    fill@,
                    grid_index,
                    split.deep_view(),
                    true,
                ) == Err::<StrategyStateView, DomainErrorView>(e@) && final(self)@ == old(self)@,
            },
    {
        self.apply_fill_with_policy(fill, grid_index, split, true)
    }
}

proof fn lemma_close_error(
    s: StrategyStateView,
    fill: FillView,
    fees: Decimal,
    allocations: Seq<LotQuantityAllocationView>,
    split: Option<Seq<Decimal>>,
    enforce: bool,
    k: nat,
    n: nat,
)
    requires
        k <= n,
        close_slices(s, fill, fees, allocations, split, enforce, k) is Err,
    ensures
        close_slices(s, fill, fees, allocations, split, enforce, n) == close_slices(
            s,
            fill,
            fees,
            allocations,
            split,
            enforce,
            k,
        ),
    decreases n - k,
{
    if k < n {
        lemma_close_error(s, fill, fees, allocations, split, enforce, k, (n - 1) as nat);
    }
}

proof fn lemma_book_none(
    lots: Seq<(Seq<char>, TradingLotView)>,
    realized: Decimal,
    slices: Seq<ClosedSliceView>,
    k: nat,
    n: nat,
)
    requires
        k <= n,
        book_slices(lots, realized, slices, k) is None,
    ensures
        book_slices(lots, realized, slices, n) is None,
    decreases n - k,
{
    if k < n {
        lemma_book_none(lots, realized, slices, k, (n - 1) as nat);
    }
}

} // verus!

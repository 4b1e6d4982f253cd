//! The account of a run: its start, its trading days and what it is worth.
use crate::clock::Day;
use crate::decimal::{minus, normalized, plus, times, Decimal};
use crate::domain::{lot_cost, share_of, DomainError};
use crate::model::ledger::{
    AccountSnapshot, AccountSnapshotView, CashAccount, OrderView, Position, ServiceMode,
    StrategyState, StrategyStateView, TradingLotView,
};
use crate::table::Table;
use crate::value::Value;
use vstd::prelude::*;

verus! {

/// The state of a run before its first event.
pub open spec fn fresh_state(
    run_id: Seq<char>,
    cycle_id: Seq<char>,
    symbol: Seq<char>,
    anchor_price: Decimal,
    initial_cash: Decimal,
    initial_position: i64,
    initial_sellable: i64,
) -> StrategyStateView {
    StrategyStateView {
        run_id,
        cycle_id,
        symbol,
        mode: ServiceMode::Running,
        anchor_price,
        deployed_grid_budget: Decimal::zero(),
        levels: Seq::empty(),
        grid_cycle_active: false,
        historically_touched_levels: Seq::empty(),
        historically_skipped_levels: Seq::empty(),
        historically_executed_levels: Seq::empty(),
        orders: Seq::empty(),
        lots: Seq::empty(),
        processed_fills: Seq::empty(),
        grid_rights: Seq::empty(),
        right_tranches: Seq::empty(),
        audited_profit_guard_policy: None,
        audited_standard_quantity: 0,
        audited_lot_size: 0,
        audited_config: None,
        pending_market_evidence: None,
        initial_deployment_evaluation: None,
        ongoing_resource_policy: None,
        cash: CashAccount {
            available: initial_cash,
            frozen: Decimal::zero(),
            total_fees: Decimal::zero(),
        },
        position: Position {
            total: initial_position,
            sellable: initial_sellable,
            today_bought: 0,
            frozen_sell: 0,
        },
        duplicate_events: 0,
        ambiguous_bars: 0,
        event_count: 0,
        realized_pnl: Decimal::zero(),
        current_trade_date: None,
        last_price: None,
        last_recovery: None,
        last_reconciliation: None,
        last_reconciliation_event_sequence: None,
    }
}

/// The position on another trading day: what was bought becomes sellable once
/// the day advances. Nothing where the sum leaves the range.
pub open spec fn rolled_position(p: Position, from: Option<Day>, to: Day) -> Option<Position> {
    if from is Some && from->0.n() < to.n() {
        match p.sellable.checked_add(p.today_bought) {
            Some(sellable) => Some(Position { sellable, today_bought: 0, ..p }),
            None => None,
        }
    } else {
        Some(p)
    }
}

/// The ids of the first `n` orders that are still open.
pub open spec fn open_orders(orders: Seq<(Seq<char>, OrderView)>, n: nat) -> Seq<Seq<char>>
    decreases n,
{
    if n == 0 {
        Seq::empty()
    } else if orders[n - 1].1.status.open() {
        open_orders(orders, (n - 1) as nat).push(orders[n - 1].0)
    } else {
        open_orders(orders, (n - 1) as nat)
    }
}

/// The filled quantities of orders.
pub open spec fn filled_quantities(orders: Seq<(Seq<char>, OrderView)>) -> Seq<i64> {
    Seq::new(orders.len(), |i: int| orders[i].1.filled_quantity)
}

/// The lot with its remaining cost recorded, without trailing zeros. Nothing
/// where the open share of the allocated cost leaves the range.
pub open spec fn settled_lot(lot: TradingLotView) -> Option<TradingLotView> {
    let derived = lot.remaining_cost.m() == 0 && lot.allocated_cost.units() > 0
        && lot.remaining_quantity > 0 && lot.original_quantity > 0;
    let cost = if derived {
        share_of(lot.allocated_cost, lot.remaining_quantity as int, lot.original_quantity as int)
    } else {
        Some(lot.remaining_cost)
    };
    match cost {
        Some(c) => Some(TradingLotView { remaining_cost: normalized(c), ..lot }),
        None => None,
    }
}

/// The first `n` lots with their remaining costs recorded.
pub open spec fn settled_lots(lots: Seq<(Seq<char>, TradingLotView)>, n: nat) -> Option<
    Seq<(Seq<char>, TradingLotView)>,
>
    decreases n,
{
    if n == 0 {
        Some(lots)
    } else {
        match (settled_lots(lots, (n - 1) as nat), settled_lot(lots[n - 1].1)) {
            (Some(t), Some(lot)) => Some(t.update(n - 1, (lots[n - 1].0, lot))),
            _ => None,
        }
    }
}

/// The value of a lot at a price above its cost.
pub open spec fn lot_gain(lot: TradingLotView, mark: Decimal) -> Option<Decimal> {
    match (lot_cost(lot), times(mark, Decimal::whole(lot.remaining_quantity as int))) {
        (Some(cost), Some(value)) => minus(value, cost),
        _ => None,
    }
}

/// What the first `n` lots have gained at a price.
pub open spec fn lots_gain(lots: Seq<(Seq<char>, TradingLotView)>, mark: Decimal, n: nat) -> Option<
    Decimal,
>
    decreases n,
{
    if n == 0 {
        Some(Decimal::zero())
    } else {
        match (lots_gain(lots, mark, (n - 1) as nat), lot_gain(lots[n - 1].1, mark)) {
            (Some(t), Some(g)) => plus(t, g),
            _ => None,
        }
    }
}

/// What the open lots have gained at the last price; zero before a price is
/// known, and nothing where the sum leaves the range.
pub open spec fn unrealized(s: StrategyStateView) -> Option<Decimal> {
    match s.last_price {
        Some(mark) => lots_gain(s.lots, mark, s.lots.len()),
        None => Some(Decimal::zero()),
    }
}

impl StrategyState {
    pub fn new(
        run_id: String,
        cycle_id: String,
        symbol: String,
        anchor_price: Decimal,
        initial_cash: Decimal,
        initial_position: i64,
        initial_sellable: i64,
    ) -> (r: Self)
        ensures
            r@ == fresh_state(
                run_id@,
                cycle_id@,
                symbol@,
                anchor_price,
                initial_cash,
                initial_position,
                initial_sellable,
            ),
    {
        StrategyState {
            run_id,
            cycle_id,
            symbol,
            mode: ServiceMode::Running,
            anchor_price,
            deployed_grid_budget: Decimal::nil(),
            levels: Table::new(),
            grid_cycle_active: false,
            historically_touched_levels: Table::new(),
            historically_skipped_levels: Table::new(),
            historically_executed_levels: Table::new(),
            orders: Table::new(),
            lots: Table::new(),
            processed_fills: Table::new(),
            grid_rights: Table::new(),
            right_tranches: Table::new(),
            audited_profit_guard_policy: None,
            audited_standard_quantity: 0,
            audited_lot_size: 0,
            audited_config: None,
            pending_market_evidence: None,
            initial_deployment_evaluation: None,
            ongoing_resource_policy: None,
            cash: CashAccount {
                available: initial_cash,
                frozen: Decimal::nil(),
                total_fees: Decimal::nil(),
            },
            position: Position {
                total: initial_position,
                sellable: initial_sellable,
                today_bought: 0,
                frozen_sell: 0,
            },
            duplicate_events: 0,
            ambiguous_bars: 0,
            event_count: 0,
            realized_pnl: Decimal::nil(),
            current_trade_date: None,
            last_price: None,
            last_recovery: None,
            last_reconciliation: None,
            last_reconciliation_event_sequence: None,
        }
    }

    /// Moves to a trading day.
    pub fn roll_trading_day(&mut self, date: Day) -> (r: Result<(), DomainError>)
        ensures
            match rolled_position(old(self)@.position, old(self)@.current_trade_date, date) {
                Some(p) => r is Ok && final(self)@ == (StrategyStateView {
                    position: p,
                    current_trade_date: Some(date),
                    ..old(self)@
                }),
                None => r == Err::<(), DomainError>(DomainError::NumericRange) && final(self)@
                    == old(self)@,
            },
    {
        let advances = match &self.current_trade_date {
            Some(d) => d.before(&date),
            None => false,
        };
        if advances {
            match self.position.sellable.checked_add(self.position.today_bought) {
                Some(sellable) => {
                    self.position.sellable = sellable;
                    self.position.today_bought = 0;
                },
                None => {
                    return Err(DomainError::NumericRange);
                },
            }
        }
        self.current_trade_date = Some(date);
        Ok(())
    }

    /// What the account holds, with its open orders in the order of their ids.
    pub fn snapshot(&self) -> (r: Result<AccountSnapshot, DomainError>)
        ensures
            match crate::arith::checked_total(filled_quantities(self@.orders)) {
                Some(t) => r matches Ok(a) && a@ == (AccountSnapshotView {
                    cash: self@.cash,
                    position: self@.position,
                    open_order_ids: open_orders(self@.orders, self@.orders.len()),
                    cumulative_filled_quantity: t,
                }),
                None => r == Err::<AccountSnapshot, DomainError>(DomainError::NumericRange),
            },
    {
        let mut ids: Vec<String> = Vec::new();
        let mut quantities: Vec<i64> = Vec::new();
        let mut i: usize = 0;
        assert(ids.deep_view() =~= Seq::empty());
        while i < self.orders.len()
            invariant
                i <= self@.orders.len(),
                self@.orders == self.orders@,
                ids.deep_view() == open_orders(self@.orders, i as nat),
                quantities@.len() == i,
                forall|j: int|
                    0 <= j < i ==> #[trigger] quantities@[j] == self@.orders[j].1.filled_quantity,
            decreases self@.orders.len() - i,
        {
            let order = self.orders.value_at(i);
            quantities.push(order.filled_quantity);
            if order.status.is_open() {
                let ghost before = ids.deep_view();
                let key = self.orders.key_at(i).clone();
                ids.push(key);
                assert(ids.deep_view() =~= before.push(self@.orders[i as int].0));
            }
            i = i + 1;
        }
        assert(quantities@ =~= filled_quantities(self@.orders));
        match crate::arith::total_of(&quantities) {
            Some(t) => Ok(
                AccountSnapshot {
                    cash: self.cash,
                    position: self.position,
                    open_order_ids: ids,
                    cumulative_filled_quantity: t,
                },
            ),
            None => Err(DomainError::NumericRange),
        }
    }

    /// Fills in what older records leave to be derived: the remaining cost of
    /// lots, and that a cycle with levels is active. Gives `false`, and changes
    /// nothing, where a cost leaves the range of decimals.
    pub fn checked_normalize(&mut self) -> (r: bool)
        ensures
            match settled_lots(old(self)@.lots, old(self)@.lots.len()) {
                Some(lots) => r && final(self)@ == (StrategyStateView {
                    grid_cycle_active: old(self)@.grid_cycle_active || old(self)@.levels.len() > 0,
                    lots,
                    ..old(self)@
                }),
                None => !r && final(self)@ == old(self)@,
            },
    {
        let ghost start = self@;
        self.lots.order_known();
        let mut lots = self.lots.dup();
        let mut i: usize = 0;
        while i < self.lots.len()
            invariant
                i <= start.lots.len(),
                start == old(self)@,
                self@ == start,
                start.lots == self.lots@,
                settled_lots(start.lots, i as nat) == Some(lots@),
                crate::table::ordered::<String, TradingLotView>(start.lots),
                lots@.len() == start.lots.len(),
                forall|j: int| 0 <= j < lots@.len() ==> (#[trigger] lots@[j]).0 == start.lots[j].0,
                forall|j: int| i <= j < lots@.len() ==> #[trigger] lots@[j] == start.lots[j],
            decreases start.lots.len() - i,
        {
            let lot = self.lots.value_at(i);
            let key = self.lots.key_at(i).clone();
            let cost = if lot.remaining_cost.is_zero() && lot.allocated_cost.is_positive()
                && lot.remaining_quantity > 0 && lot.original_quantity > 0 {
                lot.checked_remaining_cost()
            } else {
                Some(lot.remaining_cost)
            };
            match cost {
                Some(c) => {
                    let mut next = lot.dup();
                    next.remaining_cost = c.normalize();
                    proof {
                        crate::table::lemma_lookup_at::<String, TradingLotView>(lots@, i as int);
                    }
                    lots.put(key, next);
                },
                None => {
                    proof {
                        lemma_settled_none(start.lots, (i + 1) as nat, start.lots.len());
                    }
                    return false;
                },
            }
            lots.order_known();
            i = i + 1;
        }
        self.lots = lots;
        if !self.grid_cycle_active && !self.levels.is_empty() {
            self.grid_cycle_active = true;
        }
        true
    }

    /// Fills in what older records leave to be derived.
    pub fn normalize_legacy_derived_fields(&mut self)
        requires
            settled_lots(old(self)@.lots, old(self)@.lots.len()) is Some,
        ensures
            final(self)@ == (StrategyStateView {
                grid_cycle_active: old(self)@.grid_cycle_active || old(self)@.levels.len() > 0,
                lots: settled_lots(old(self)@.lots, old(self)@.lots.len())->0,
                ..old(self)@
            }),
    {
        let _ = self.checked_normalize();
    }

    /// What the open lots have gained at the last price, where it is in range.
    pub fn checked_unrealized_pnl(&self) -> (r: Option<Decimal>)
        ensures
            r == unrealized(self@),
    {
        let mark = match self.last_price {
            Some(m) => m,
            None => {
                return Some(Decimal::nil());
            },
        };
        let mut sum = Some(Decimal::nil());
        let mut i: usize = 0;
        while i < self.lots.len()
            invariant
                i <= self@.lots.len(),
                self@.lots == self.lots@,
                sum == lots_gain(self@.lots, mark, i as nat),
            decreases self@.lots.len() - i,
        {
            let lot = self.lots.value_at(i);
            let gain = match (
                lot.checked_remaining_cost(),
                mark.checked_mul(Decimal::from_i64(lot.remaining_quantity)),
            ) {
                (Some(cost), Some(value)) => value.checked_sub(cost),
                _ => None,
            };
            sum = match (sum, gain) {
                (Some(t), Some(g)) => t.checked_add(g),
                _ => None,
            };
            i = i + 1;
        }
        sum
    }

    /// What the open lots have gained at the last price.
    pub fn unrealized_grid_pnl(&self) -> (r: Decimal)
        requires
            unrealized(self@) is Some,
        ensures
            unrealized(self@) == Some(r),
    {
        self.checked_unrealized_pnl().unwrap()
    }
}

proof fn lemma_settled_none(lots: Seq<(Seq<char>, TradingLotView)>, k: nat, n: nat)
    requires
        k <= n,
        settled_lots(lots, k) is None,
    ensures
        settled_lots(lots, n) is None,
    decreases n - k,
{
    if k < n {
        lemma_settled_none(lots, k, (n - 1) as nat);
    }
}

/// Rolling the trading day moves shares from bought today to sellable and
/// neither makes nor loses any.
pub proof fn law_roll_conserves_shares(p: Position, from: Option<Day>, to: Day)
    ensures
        rolled_position(p, from, to) matches Some(q) ==> q.total == p.total && q.frozen_sell
            == p.frozen_sell && q.sellable + q.today_bought == p.sellable + p.today_bought,
{
}

/// Rolling to the day that it already is changes nothing.
pub proof fn law_roll_is_idempotent(p: Position, from: Option<Day>, to: Day)
    ensures
        rolled_position(p, from, to) matches Some(q) ==> rolled_position(q, Some(to), to) == Some(
            q,
        ),
{
}

} // verus!

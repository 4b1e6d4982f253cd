//! The paper broker: its answers follow from the order and a seed, and its
//! account follows from its answers.
use crate::clock::Day;
use crate::decimal::{lemma_part_of_one, minus, plus, rounded_to, times, Decimal, Rounding};
use crate::digest::{digest_draw, id_of, leading_u16, named_id, sha256_digest};
use crate::model::ledger::{
    profit_guard_policy_alike, AccountSnapshot, AccountSnapshotView, CashAccount,
    LotQuantityAllocation, LotQuantityAllocationView, OrderIntent, OrderIntentView, Position,
    ProfitGuardPolicy,
};
use crate::model::market::Direction;
use crate::model::notices::FillCharges;
use crate::model::paper::{FillAppraisal, FillAppraisalView, FillReport, FillReportView};
use crate::model::settings::{Config, ConfigView};
use crate::policy::policy_of;
use crate::table::{lookup, with, Table};
use crate::text::{
    drop_text, join, nat_text, sort_texts, sorted_texts, text_eq, unsigned_text, without_text,
};
use crate::value::{text_list_contains, Value};
use vstd::prelude::*;

verus! {

/// Why the broker fails.
#[derive(Clone, Copy, Debug, PartialEq, Eq, Structural)]
pub enum PaperError {
    /// A number leaves its range.
    NumericRange,
    /// The fee terms of the order are not those of the account.
    Policy,
    /// The account is not there, and none may be made.
    Missing,
}

/// What a broker answers to an order.
pub enum ExecutionReport {
    Rejected { order_id: String, reason: String },
    Accepted { order_id: String, fills: Vec<FillReport> },
    Cancelled { order_id: String, reason: String },
}

/// The content of [`ExecutionReport`].
pub enum ExecutionReportView {
    Rejected { order_id: Seq<char>, reason: Seq<char> },
    Accepted { order_id: Seq<char>, fills: Seq<FillReportView> },
    Cancelled { order_id: Seq<char>, reason: Seq<char> },
}

impl View for ExecutionReport {
    type V = ExecutionReportView;

    open spec fn view(&self) -> ExecutionReportView {
        match *self {
            ExecutionReport::Rejected { order_id, reason } => ExecutionReportView::Rejected {
                order_id: order_id@,
                reason: reason@,
            },
            ExecutionReport::Accepted { order_id, fills } => ExecutionReportView::Accepted {
                order_id: order_id@,
                fills: fills.deep_view(),
            },
            ExecutionReport::Cancelled { order_id, reason } => ExecutionReportView::Cancelled {
                order_id: order_id@,
                reason: reason@,
            },
        }
    }
}

impl DeepView for ExecutionReport {
    type V = ExecutionReportView;

    open spec fn deep_view(&self) -> ExecutionReportView {
        self@
    }
}

impl Value for ExecutionReport {
    fn dup(&self) -> (r: Self) {
        match self {
            ExecutionReport::Rejected { order_id, reason } => ExecutionReport::Rejected {
                order_id: order_id.dup(),
                reason: reason.dup(),
            },
            ExecutionReport::Accepted { order_id, fills } => ExecutionReport::Accepted {
                order_id: order_id.dup(),
                fills: fills.dup(),
            },
            ExecutionReport::Cancelled { order_id, reason } => ExecutionReport::Cancelled {
                order_id: order_id.dup(),
                reason: reason.dup(),
            },
        }
    }

    fn same(&self, other: &Self) -> (r: bool) {
        match (self, other) {
            (
                ExecutionReport::Rejected { order_id, reason },
                ExecutionReport::Rejected { order_id: id, reason: why },
            ) => order_id.same(id) && reason.same(why),
            (
                ExecutionReport::Accepted { order_id, fills },
                ExecutionReport::Accepted { order_id: id, fills: parts },
            ) => order_id.same(id) && fills.same(parts),
            (
                ExecutionReport::Cancelled { order_id, reason },
                ExecutionReport::Cancelled { order_id: id, reason: why },
            ) => order_id.same(id) && reason.same(why),
            _ => false,
        }
    }
}

/// What takes orders.
pub trait ExecutionGateway {
    fn roll_trading_day(&mut self, date: Day) -> Result<(), PaperError>;

    fn submit(&mut self, intent: &OrderIntent, appraisal: &PaperAppraisal) -> Result<
        ExecutionReport,
        PaperError,
    >;

    fn cancel(&mut self, intent: &OrderIntent, reason: &str, appraisal: &PaperAppraisal) -> Result<
        ExecutionReport,
        PaperError,
    >;

    fn report_for_intent(&self, intent_id: &str) -> Option<ExecutionReport>;

    fn account_snapshot(&self) -> AccountSnapshot;

    fn synchronize_snapshot(&mut self, snapshot: AccountSnapshot);
}

/// What the pricing rules say of the fills of an order.
pub struct PaperAppraisal {
    pub fills: Vec<FillAppraisal>,
    pub profit_guard_version: String,
}

/// The content of [`PaperAppraisal`].
pub struct PaperAppraisalView {
    pub fills: Seq<FillAppraisalView>,
    pub profit_guard_version: Seq<char>,
}

impl View for PaperAppraisal {
    type V = PaperAppraisalView;

    open spec fn view(&self) -> PaperAppraisalView {
        PaperAppraisalView {
            fills: self.fills.deep_view(),
            profit_guard_version: self.profit_guard_version@,
        }
    }
}

/// A broker that fills orders on paper.
pub struct PaperExecutionGateway {
    pub config: Config,
    pub run_id: String,
    pub snapshot: AccountSnapshot,
    pub current_trade_date: Option<Day>,
    /// What was answered to each intent.
    pub reports: Table<String, ExecutionReport>,
}

/// The content of [`PaperExecutionGateway`].
#[verifier::ext_equal]
pub struct PaperView {
    pub config: ConfigView,
    pub run_id: Seq<char>,
    pub snapshot: AccountSnapshotView,
    pub current_trade_date: Option<Day>,
    pub reports: Seq<(Seq<char>, ExecutionReportView)>,
}

impl View for PaperExecutionGateway {
    type V = PaperView;

    open spec fn view(&self) -> PaperView {
        PaperView {
            config: self.config@,
            run_id: self.run_id@,
            snapshot: self.snapshot@,
            current_trade_date: self.current_trade_date,
            reports: self.reports@,
        }
    }
}

/// The name of a part of an order.
pub open spec fn paper_name(kind: Seq<char>, intent_id: Seq<char>, part: nat) -> Seq<char> {
    "paper:"@ + kind + ":"@ + intent_id + ":"@ + nat_text(part)
}

/// The identifier of a part of an order.
pub fn stable_id(kind: &str, intent_id: &str, part: usize) -> (r: String)
    ensures
        r@ == named_id(paper_name(kind@, intent_id@, part as nat)),
{
    let t = join("paper:", kind);
    let t = join(t.as_str(), ":");
    let t = join(t.as_str(), intent_id);
    let t = join(t.as_str(), ":");
    let t = join(t.as_str(), unsigned_text(part as u128).as_str());
    id_of(t.as_str())
}

/// What is drawn for a purpose, in ten-thousandths.
pub open spec fn drawn_bps(seed: u64, intent_id: Seq<char>, purpose: Seq<char>) -> int {
    leading_u16(
        sha256_digest(
            vstd::utf8::encode_utf8(
                nat_text(seed as nat) + ":"@ + intent_id + ":"@ + purpose,
            ),
        ),
    ) % 10_000
}

/// What is drawn for a purpose, in ten-thousandths: the same order and the same
/// seed draw the same.
pub fn stable_draw_bps(seed: u64, intent_id: &str, purpose: &str) -> (r: u16)
    ensures
        r == drawn_bps(seed, intent_id@, purpose@),
        r < 10_000,
{
    let t = join(unsigned_text(seed as u128).as_str(), ":");
    let t = join(t.as_str(), intent_id);
    let t = join(t.as_str(), ":");
    let t = join(t.as_str(), purpose);
    digest_draw(t.as_str()) % 10_000
}

/// The price at which an order fills: the limit with the slippage against it.
pub open spec fn fill_price(c: ConfigView, direction: Direction, limit: Decimal) -> Option<Decimal> {
    let slip = if direction == Direction::Buy {
        plus(Decimal::one(), c.slippage_rate)
    } else {
        minus(Decimal::one(), c.slippage_rate)
    };
    match slip {
        None => None,
        Some(factor) => match times(limit, factor) {
            None => None,
            Some(price) => Some(
                rounded_to(
                    price,
                    c.price_scale as nat,
                    if direction == Direction::Buy {
                        Rounding::ToPositiveInfinity
                    } else {
                        Rounding::ToNegativeInfinity
                    },
                ),
            ),
        },
    }
}

/// Whether a configuration lets prices slip by less than the whole.
pub open spec fn slips_by_a_part(c: ConfigView) -> bool {
    0 <= c.slippage_rate.units() < Decimal::one().units()
}

/// Whether a price is no better than the limit of an order.
pub open spec fn not_better(direction: Direction, price: Decimal, limit: Decimal) -> bool {
    match direction {
        Direction::Buy => price.units() >= limit.units(),
        Direction::Sell => price.units() <= limit.units(),
    }
}

/// Whether fills are those of a whole order: each of some shares, together of those
/// of the order, none but the last one final, and none at a better price than the
/// limit. Only an order to sell may have none.
pub open spec fn fills_in_order(intent: OrderIntentView, fills: Seq<FillReportView>) -> bool {
    &&& fills.len() == 0 ==> intent.direction == Direction::Sell
    &&& fills.len() > 0 ==> filled_shares(fills) == intent.quantity
    &&& forall|i: int|
        0 <= i < fills.len() ==> (#[trigger] fills[i]).quantity > 0 && fills[i].final_fill == (i
            == fills.len() - 1) && not_better(intent.direction, fills[i].price, intent.limit_price)
}

/// Whether the fills of an answer to an order are those of the whole order, where
/// the order has shares and a limit.
pub open spec fn accepts_in_order(
    c: ConfigView,
    intent: OrderIntentView,
    report: ExecutionReportView,
) -> bool {
    slips_by_a_part(c) && intent.quantity > 0 && intent.limit_price.units() > 0 ==> (
    report matches ExecutionReportView::Accepted { fills, .. } ==> fills_in_order(intent, fills))
}

/// One fill of an order.
pub open spec fn paper_fill(intent_id: Seq<char>, part: nat, quantity: i64, price: Decimal, last: bool) -> FillReportView {
    FillReportView {
        fill_id: named_id(paper_name("fill"@, intent_id, part)),
        quantity,
        price,
        final_fill: last,
    }
}

/// The larger board lots of half a quantity.
pub open spec fn half_in_lots(quantity: i64, lot_size: i64) -> int {
    (quantity as int / 2 / lot_size as int) * lot_size
}

/// Whether an order is large enough to fill in two parts. Nothing where a number
/// leaves its range.
pub open spec fn divisible(quantity: i64, lot_size: i64) -> Option<bool> {
    match lot_size.checked_mul(2) {
        None => None,
        Some(two) => Some(quantity >= two),
    }
}

/// The fills of an order that is not rejected: none where it is held open, two
/// where it fills in parts, one otherwise.
pub open spec fn planned_fills(c: ConfigView, intent: OrderIntentView) -> Option<
    Seq<FillReportView>,
> {
    let id = intent.intent_id;
    let seed = c.paper.seed;
    match (
        fill_price(c, intent.direction, intent.limit_price),
        divisible(intent.quantity, c.lot_size),
    ) {
        (Some(price), Some(large)) => if intent.direction == Direction::Sell && drawn_bps(
            seed,
            id,
            "hold-open"@,
        ) < c.paper.hold_open_probability_bps {
            Some(Seq::empty())
        } else if large && drawn_bps(seed, id, "partial"@) < c.paper.partial_fill_bps {
            if c.lot_size <= 0 || intent.quantity < 0 {
                None
            } else {
                let first = half_in_lots(intent.quantity, c.lot_size);
                Some(
                    seq![
                        paper_fill(id, 1, first as i64, price, false),
                        paper_fill(id, 2, (intent.quantity - first) as i64, price, true),
                    ],
                )
            }
        } else {
            Some(seq![paper_fill(id, 1, intent.quantity, price, true)])
        },
        _ => None,
    }
}

/// What the fills before one came to.
pub struct FillTotals {
    pub quantity: i64,
    pub notional: Decimal,
    pub commission: Decimal,
}

/// What no fills come to.
pub open spec fn no_fills() -> FillTotals {
    FillTotals { quantity: 0, notional: Decimal::zero(), commission: Decimal::zero() }
}

/// Whether a part of a fill gains or breaks even.
pub open spec fn part_gains(price: Decimal, part: LotQuantityAllocationView, fee: Decimal) -> bool {
    match times(price, Decimal::whole(part.quantity as int)) {
        None => false,
        Some(value) => match minus(value, part.cost_basis) {
            None => false,
            Some(gross) => match minus(gross, fee) {
                None => false,
                Some(pnl) => pnl.units() >= 0,
            },
        },
    }
}

/// The lesser of two lengths.
pub open spec fn shorter(a: nat, b: nat) -> nat {
    if a <= b {
        a
    } else {
        b
    }
}

/// Whether every part of a fill keeps its worst price and gains or breaks even.
pub open spec fn parts_gain(
    price: Decimal,
    parts: Seq<LotQuantityAllocationView>,
    fees: Seq<Decimal>,
) -> bool {
    &&& forall|i: int|
        0 <= i < parts.len() ==> price.units() >= (#[trigger] parts[i]).worst_fill_price.units()
    &&& forall|i: int|
        0 <= i < shorter(parts.len(), fees.len()) ==> part_gains(
            price,
            #[trigger] parts[i],
            fees[i],
        )
}

/// What the fills up to one come to, if it causes no loss.
pub open spec fn guarded(t: FillTotals, fill: FillReportView, a: FillAppraisalView) -> Option<
    FillTotals,
> {
    match (a.allocations, a.charges, a.fee_split) {
        (Some(parts), Some(charges), Some(fees)) => if plus(charges.commission, charges.tax) is None
            || !parts_gain(fill.price, parts, fees) {
            None
        } else {
            match (
                times(fill.price, Decimal::whole(fill.quantity as int)),
                plus(t.commission, charges.commission),
                t.quantity.checked_add(fill.quantity),
            ) {
                (Some(value), Some(commission), Some(quantity)) => match plus(t.notional, value) {
                    Some(notional) => Some(FillTotals { quantity, notional, commission }),
                    None => None,
                },
                _ => None,
            }
        },
        _ => None,
    }
}

/// What the first `n` fills come to, if none causes a loss.
pub open spec fn all_guarded(
    fills: Seq<FillReportView>,
    said: Seq<FillAppraisalView>,
    n: nat,
) -> Option<FillTotals>
    decreases n,
{
    if n == 0 {
        Some(no_fills())
    } else {
        match all_guarded(fills, said, (n - 1) as nat) {
            None => None,
            Some(t) => if n > said.len() {
                None
            } else {
                guarded(t, fills[n - 1], said[n - 1])
            },
        }
    }
}

/// Whether the fills of an order cause no loss. A buy order cannot.
pub open spec fn no_loss(
    c: ConfigView,
    intent: OrderIntentView,
    fills: Seq<FillReportView>,
    a: PaperAppraisalView,
) -> bool {
    if intent.direction != Direction::Sell {
        true
    } else if intent.profit_guard_version != a.profit_guard_version
        || intent.target_lot_allocations.len() == 0 {
        false
    } else {
        match intent.profit_guard_policy {
            None => false,
            Some(policy) => if !profit_guard_policy_alike(policy, policy_of(c)) {
                false
            } else if fills.len() == 0 {
                forall|i: int|
                    0 <= i < intent.target_lot_allocations.len() ==> (
                    #[trigger] intent.target_lot_allocations[i]).worst_case_profit.units() >= 0
            } else {
                all_guarded(fills, a.fills, fills.len()) matches Some(t) && t.quantity
                    == intent.quantity
            },
        }
    }
}

/// The account after one more fill, with what the fills came to.
pub struct Booked {
    pub snapshot: AccountSnapshotView,
    pub totals: FillTotals,
}

/// The cash and the position after a fill.
pub open spec fn exchanged(
    s: AccountSnapshotView,
    direction: Direction,
    quantity: i64,
    notional: Decimal,
    fees: Decimal,
) -> Option<AccountSnapshotView> {
    if direction == Direction::Buy {
        match plus(notional, fees) {
            None => None,
            Some(debit) => match (
                minus(s.cash.available, debit),
                s.position.total.checked_add(quantity),
                s.position.today_bought.checked_add(quantity),
            ) {
                (Some(available), Some(total), Some(today_bought)) => Some(
                    AccountSnapshotView {
                        cash: CashAccount { available, ..s.cash },
                        position: Position { total, today_bought, ..s.position },
                        ..s
                    },
                ),
                _ => None,
            },
        }
    } else {
        match minus(notional, fees) {
            None => None,
            Some(credit) => match (
                plus(s.cash.available, credit),
                s.position.total.checked_sub(quantity),
                s.position.sellable.checked_sub(quantity),
            ) {
                (Some(available), Some(total), Some(sellable)) => Some(
                    AccountSnapshotView {
                        cash: CashAccount { available, ..s.cash },
                        position: Position { total, sellable, ..s.position },
                        ..s
                    },
                ),
                _ => None,
            },
        }
    }
}

/// The account after one more fill.
pub open spec fn booked(
    b: Booked,
    direction: Direction,
    fill: FillReportView,
    charges: FillCharges,
) -> Option<Booked> {
    match times(fill.price, Decimal::whole(fill.quantity as int)) {
        None => None,
        Some(value) => match (
            plus(b.totals.notional, value),
            plus(b.totals.commission, charges.commission),
            plus(charges.commission, charges.tax),
        ) {
            (Some(notional), Some(commission), Some(fees)) => match exchanged(
                b.snapshot,
                direction,
                fill.quantity,
                value,
                fees,
            ) {
                None => None,
                Some(s) => match (
                    plus(s.cash.total_fees, fees),
                    s.cumulative_filled_quantity.checked_add(fill.quantity),
                ) {
                    (Some(total_fees), Some(cumulative_filled_quantity)) => Some(
                        Booked {
                            snapshot: AccountSnapshotView {
                                cash: CashAccount { total_fees, ..s.cash },
                                cumulative_filled_quantity,
                                ..s
                            },
                            totals: FillTotals { notional, commission, ..b.totals },
                        },
                    ),
                    _ => None,
                },
            },
            _ => None,
        },
    }
}

/// The account after the first `n` fills.
pub open spec fn all_booked(
    s: AccountSnapshotView,
    direction: Direction,
    fills: Seq<FillReportView>,
    said: Seq<FillAppraisalView>,
    n: nat,
) -> Option<Booked>
    decreases n,
{
    if n == 0 {
        Some(Booked { snapshot: s, totals: no_fills() })
    } else {
        match all_booked(s, direction, fills, said, (n - 1) as nat) {
            None => None,
            Some(b) => if n > said.len() {
                None
            } else {
                match said[n - 1].charges {
                    None => None,
                    Some(charges) => booked(b, direction, fills[n - 1], charges),
                }
            },
        }
    }
}

/// The open orders with one more.
pub open spec fn opened(ids: Seq<Seq<char>>, order_id: Seq<char>) -> Seq<Seq<char>> {
    if ids.contains(order_id) {
        ids
    } else {
        sorted_texts(ids.push(order_id))
    }
}

/// The account after an order was accepted without fills.
pub open spec fn held_open(s: AccountSnapshotView, intent: OrderIntentView, order_id: Seq<char>) -> Option<
    AccountSnapshotView,
> {
    let open = AccountSnapshotView { open_order_ids: opened(s.open_order_ids, order_id), ..s };
    if intent.direction == Direction::Sell {
        match s.position.frozen_sell.checked_add(intent.quantity) {
            None => None,
            Some(frozen_sell) => Some(
                AccountSnapshotView {
                    position: Position { frozen_sell, ..s.position },
                    ..open
                },
            ),
        }
    } else {
        Some(open)
    }
}

/// The account after an answer.
pub open spec fn reported(
    s: AccountSnapshotView,
    intent: OrderIntentView,
    report: ExecutionReportView,
    said: Seq<FillAppraisalView>,
) -> Option<AccountSnapshotView> {
    match report {
        ExecutionReportView::Rejected { .. } => Some(s),
        ExecutionReportView::Cancelled { order_id, .. } => Some(
            AccountSnapshotView { open_order_ids: without_text(s.open_order_ids, order_id), ..s },
        ),
        ExecutionReportView::Accepted { order_id, fills } => if fills.len() == 0 {
            held_open(s, intent, order_id)
        } else {
            match all_booked(
                AccountSnapshotView {
                    open_order_ids: without_text(s.open_order_ids, order_id),
                    ..s
                },
                intent.direction,
                fills,
                said,
                fills.len(),
            ) {
                None => None,
                Some(b) => Some(b.snapshot),
            }
        },
    }
}

/// What the broker answers to a new order.
pub open spec fn answered(c: ConfigView, intent: OrderIntentView, a: PaperAppraisalView) -> Option<
    ExecutionReportView,
> {
    let order_id = named_id(paper_name("order"@, intent.intent_id, 0));
    if drawn_bps(c.paper.seed, intent.intent_id, "reject"@) < c.paper.reject_probability_bps {
        Some(
            ExecutionReportView::Rejected { order_id, reason: "PAPER_CONFIGURED_REJECTION"@ },
        )
    } else {
        match planned_fills(c, intent) {
            None => None,
            Some(fills) => if no_loss(c, intent, fills, a) {
                Some(ExecutionReportView::Accepted { order_id, fills })
            } else {
                Some(
                    ExecutionReportView::Rejected {
                        order_id,
                        reason: "PAPER_NO_LOSS_GUARD_REJECTED"@,
                    },
                )
            },
        }
    }
}

/// The broker on another day: what was bought becomes sellable.
pub open spec fn rolled(g: PaperView, date: Day) -> Option<PaperView> {
    if g.current_trade_date == Some(date) {
        Some(g)
    } else if g.current_trade_date is Some {
        match g.snapshot.position.sellable.checked_add(g.snapshot.position.today_bought) {
            None => None,
            Some(sellable) => Some(
                PaperView {
                    snapshot: AccountSnapshotView {
                        position: Position { sellable, today_bought: 0, ..g.snapshot.position },
                        ..g.snapshot
                    },
                    current_trade_date: Some(date),
                    ..g
                },
            ),
        }
    } else {
        Some(PaperView { current_trade_date: Some(date), ..g })
    }
}

/// The broker after an answer.
pub open spec fn persisted(
    g: PaperView,
    intent: OrderIntentView,
    report: ExecutionReportView,
    said: Seq<FillAppraisalView>,
) -> Option<PaperView> {
    match reported(g.snapshot, intent, report, said) {
        None => None,
        Some(snapshot) => Some(
            PaperView {
                snapshot,
                reports: with::<String, ExecutionReportView>(g.reports, intent.intent_id, report),
                ..g
            },
        ),
    }
}

/// What follows from an order: the broker after it, and what it answers.
pub open spec fn submitted(g: PaperView, intent: OrderIntentView, a: PaperAppraisalView) -> (
    PaperView,
    Result<ExecutionReportView, PaperError>,
) {
    match rolled(g, Day::of(intent.created_at.d())) {
        None => (g, Err(PaperError::NumericRange)),
        Some(today) => if !(intent.profit_guard_policy matches Some(p) && profit_guard_policy_alike(
            p,
            policy_of(g.config),
        )) {
            (today, Err(PaperError::Policy))
        } else {
            match lookup::<String, ExecutionReportView>(g.reports, intent.intent_id) {
                Some(report) => (today, Ok(report)),
                None => match answered(g.config, intent, a) {
                    None => (today, Err(PaperError::NumericRange)),
                    Some(report) => match persisted(today, intent, report, a.fills) {
                        None => (today, Err(PaperError::NumericRange)),
                        Some(next) => (next, Ok(report)),
                    },
                },
            }
        },
    }
}

/// The account after an open order was cancelled.
pub open spec fn released(s: AccountSnapshotView, intent: OrderIntentView, order_id: Seq<char>) -> Option<
    AccountSnapshotView,
> {
    let closed = AccountSnapshotView {
        open_order_ids: without_text(s.open_order_ids, order_id),
        ..s
    };
    if intent.direction == Direction::Sell {
        match s.position.frozen_sell.checked_sub(intent.quantity) {
            None => None,
            Some(frozen_sell) => Some(
                AccountSnapshotView {
                    position: Position { frozen_sell, ..s.position },
                    ..closed
                },
            ),
        }
    } else {
        Some(closed)
    }
}

/// What follows from a request to cancel an order: the broker after it, and what
/// it answers. What was answered already stands, but for an order that is open.
pub open spec fn cancelled(
    g: PaperView,
    intent: OrderIntentView,
    reason: Seq<char>,
    a: PaperAppraisalView,
) -> (PaperView, Result<ExecutionReportView, PaperError>) {
    match lookup::<String, ExecutionReportView>(g.reports, intent.intent_id) {
        None => submitted(g, intent, a),
        Some(report) => match report {
            ExecutionReportView::Accepted { order_id, fills } => if fills.len() == 0 {
                match released(g.snapshot, intent, order_id) {
                    None => (g, Err(PaperError::NumericRange)),
                    Some(snapshot) => {
                        let answer = ExecutionReportView::Cancelled { order_id, reason };
                        (
                            PaperView {
                                snapshot,
                                reports: with::<String, ExecutionReportView>(
                                    g.reports,
                                    intent.intent_id,
                                    answer,
                                ),
                                ..g
                            },
                            Ok(answer),
                        )
                    },
                }
            } else {
                (g, Ok(report))
            },
            _ => (g, Ok(report)),
        },
    }
}

proof fn lemma_guard_stops(fills: Seq<FillReportView>, said: Seq<FillAppraisalView>, n: nat, m: nat)
    requires
        n <= m,
        all_guarded(fills, said, n) is None,
    ensures
        all_guarded(fills, said, m) is None,
    decreases m - n,
{
    if n < m {
        lemma_guard_stops(fills, said, n, (m - 1) as nat);
    }
}

proof fn lemma_booking_stops(
    s: AccountSnapshotView,
    direction: Direction,
    fills: Seq<FillReportView>,
    said: Seq<FillAppraisalView>,
    n: nat,
    m: nat,
)
    requires
        n <= m,
        all_booked(s, direction, fills, said, n) is None,
    ensures
        all_booked(s, direction, fills, said, m) is None,
    decreases m - n,
{
    if n < m {
        lemma_booking_stops(s, direction, fills, said, n, (m - 1) as nat);
    }
}

fn price_of_fill(config: &Config, direction: Direction, limit: Decimal) -> (r: Option<Decimal>)
    ensures
        r == fill_price(config@, direction, limit),
        r matches Some(price) ==> slips_by_a_part(config@) && limit.units() >= 0 ==> not_better(
            direction,
            price,
            limit,
        ),
{
    let (slip, rounding) = match direction {
        Direction::Buy => (
            Decimal::unit().checked_add(config.slippage_rate),
            Rounding::ToPositiveInfinity,
        ),
        Direction::Sell => (
            Decimal::unit().checked_sub(config.slippage_rate),
            Rounding::ToNegativeInfinity,
        ),
    };
    proof {
        if slips_by_a_part(config@) {
            lemma_part_of_one(config.slippage_rate);
        }
    }
    match slip {
        None => None,
        Some(factor) => match limit.checked_mul(factor) {
            None => None,
            Some(price) => Some(price.round_dp(config.price_scale, rounding)),
        },
    }
}

fn fill_of(intent_id: &str, part: usize, quantity: i64, price: Decimal, last: bool) -> (r: FillReport)
    ensures
        r@ == paper_fill(intent_id@, part as nat, quantity, price, last),
{
    FillReport { fill_id: stable_id("fill", intent_id, part), quantity, price, final_fill: last }
}

proof fn lemma_half(quantity: i64, lot_size: i64)
    requires
        quantity >= 0,
        lot_size > 0,
    ensures
        0 <= half_in_lots(quantity, lot_size) <= quantity / 2,
        half_in_lots(quantity, lot_size) % lot_size as int == 0,
        quantity >= 2 * lot_size ==> half_in_lots(quantity, lot_size) > 0,
{
    let h = quantity as int / 2;
    let l = lot_size as int;
    vstd::arithmetic::div_mod::lemma_fundamental_div_mod(h, l);
    vstd::arithmetic::div_mod::lemma_mod_multiples_basic(h / l, l);
    assert((h / l) * l == l * (h / l)) by (nonlinear_arith);
    assert(0 <= (h / l) * l) by (nonlinear_arith)
        requires
            h >= 0,
            l > 0,
    ;
    assert(h >= l ==> (h / l) * l > 0) by (nonlinear_arith)
        requires
            l > 0,
    ;
}

/// The fills that an order would have, if it were not rejected. Nothing where a
/// number leaves its range.
pub fn plan_fills(config: &Config, intent: &OrderIntent) -> (r: Option<Vec<FillReport>>)
    ensures
        match planned_fills(config@, intent@) {
            Some(fills) => r matches Some(x) && x.deep_view() == fills,
            None => r is None,
        },
        r matches Some(x) ==> slips_by_a_part(config@) && intent@.quantity > 0
            && intent@.limit_price.units() > 0 ==> fills_in_order(intent@, x.deep_view()),
{
    proof {
        if planned_fills(config@, intent@) matches Some(fills) && fills.len() > 0 {
            law_fills_cover_the_order(config@, intent@);
        }
    }
    let id = intent.intent_id.as_str();
    let seed: u64 = config.paper.seed;
    let price = match price_of_fill(config, intent.direction, intent.limit_price) {
        Some(price) => price,
        None => {
            return None;
        },
    };
    let large = match config.lot_size.checked_mul(2) {
        Some(two) => intent.quantity >= two,
        None => {
            return None;
        },
    };
    let mut fills: Vec<FillReport> = Vec::new();
    if matches!(intent.direction, Direction::Sell) && stable_draw_bps(seed, id, "hold-open")
        < config.paper.hold_open_probability_bps {
        assert(fills.deep_view() =~= Seq::<FillReportView>::empty());
        return Some(fills);
    }
    if large && stable_draw_bps(seed, id, "partial") < config.paper.partial_fill_bps {
        if config.lot_size <= 0 || intent.quantity < 0 {
            return None;
        }
        proof {
            lemma_half(intent.quantity, config.lot_size);
        }
        let first: i64 = ((intent.quantity / 2) / config.lot_size) * config.lot_size;
        fills.push(fill_of(id, 1, first, price, false));
        fills.push(fill_of(id, 2, intent.quantity - first, price, true));
        assert(fills.deep_view() =~= seq![
            paper_fill(id@, 1, first, price, false),
            paper_fill(id@, 2, (intent.quantity - first) as i64, price, true),
        ]);
        return Some(fills);
    }
    fills.push(fill_of(id, 1, intent.quantity, price, true));
    assert(fills.deep_view() =~= seq![paper_fill(id@, 1, intent@.quantity, price, true)]);
    Some(fills)
}

fn does_part_gain(price: Decimal, part: &LotQuantityAllocation, fee: Decimal) -> (r: bool)
    ensures
        r == part_gains(price, part@, fee),
{
    match price.checked_mul(Decimal::from_i64(part.quantity)) {
        None => false,
        Some(value) => match value.checked_sub(part.cost_basis) {
            None => false,
            Some(gross) => match gross.checked_sub(fee) {
                None => false,
                Some(pnl) => !pnl.is_negative(),
            },
        },
    }
}

fn do_parts_gain(price: Decimal, parts: &Vec<LotQuantityAllocation>, fees: &Vec<Decimal>) -> (r: bool)
    ensures
        r == parts_gain(price, parts.deep_view(), fees.deep_view()),
{
    let ghost all = parts.deep_view();
    let ghost shares = fees.deep_view();
    let mut i: usize = 0;
    while i < parts.len()
        invariant
            i <= parts.len(),
            all == parts.deep_view(),
            shares == fees.deep_view(),
            forall|k: int|
                0 <= k < i ==> price.units() >= (#[trigger] all[k]).worst_fill_price.units(),
            forall|k: int|
                0 <= k < i && k < shares.len() ==> part_gains(price, #[trigger] all[k], shares[k]),
        decreases parts.len() - i,
    {
        assert(all[i as int] == parts[i as int]@);
        if price.below(&parts[i].worst_fill_price) {
            return false;
        }
        if i < fees.len() {
            assert(shares[i as int] == fees[i as int]);
            if !does_part_gain(price, &parts[i], fees[i]) {
                assert(!part_gains(price, all[i as int], shares[i as int]));
                return false;
            }
        }
        i = i + 1;
    }
    true
}

fn guard_fill(t: &FillTotals, fill: &FillReport, a: &FillAppraisal) -> (r: Option<FillTotals>)
    ensures
        r == guarded(*t, fill@, a@),
{
    match (&a.allocations, &a.charges, &a.fee_split) {
        (Some(parts), Some(charges), Some(fees)) => {
            if charges.commission.checked_add(charges.tax).is_none() || !do_parts_gain(
                fill.price,
                parts,
                fees,
            ) {
                return None;
            }
            let value = fill.price.checked_mul(Decimal::from_i64(fill.quantity));
            let commission = t.commission.checked_add(charges.commission);
            let quantity: Option<i64> = t.quantity.checked_add(fill.quantity);
            match (value, commission, quantity) {
                (Some(value), Some(commission), Some(quantity)) => match t.notional.checked_add(
                    value,
                ) {
                    Some(notional) => Some(FillTotals { quantity, notional, commission }),
                    None => None,
                },
                _ => None,
            }
        },
        _ => None,
    }
}

fn book_fill(
    snapshot: &mut AccountSnapshot,
    totals: &mut FillTotals,
    direction: Direction,
    fill: &FillReport,
    charges: &FillCharges,
) -> (r: bool)
    ensures
        match booked(
            Booked { snapshot: old(snapshot)@, totals: *old(totals) },
            direction,
            fill@,
            *charges,
        ) {
            Some(b) => r && final(snapshot)@ == b.snapshot && *final(totals) == b.totals,
            None => !r,
        },
{
    let value = match fill.price.checked_mul(Decimal::from_i64(fill.quantity)) {
        Some(value) => value,
        None => {
            return false;
        },
    };
    let (notional, commission, fees) = match (
        totals.notional.checked_add(value),
        totals.commission.checked_add(charges.commission),
        charges.commission.checked_add(charges.tax),
    ) {
        (Some(notional), Some(commission), Some(fees)) => (notional, commission, fees),
        _ => {
            return false;
        },
    };
    match direction {
        Direction::Buy => {
            let debit = match value.checked_add(fees) {
                Some(debit) => debit,
                None => {
                    return false;
                },
            };
            match (
                snapshot.cash.available.checked_sub(debit),
                snapshot.position.total.checked_add(fill.quantity),
                snapshot.position.today_bought.checked_add(fill.quantity),
            ) {
                (Some(available), Some(total), Some(today_bought)) => {
                    snapshot.cash.available = available;
                    snapshot.position.total = total;
                    snapshot.position.today_bought = today_bought;
                },
                _ => {
                    return false;
                },
            }
        },
        Direction::Sell => {
            let credit = match value.checked_sub(fees) {
                Some(credit) => credit,
                None => {
                    return false;
                },
            };
            match (
                snapshot.cash.available.checked_add(credit),
                snapshot.position.total.checked_sub(fill.quantity),
                snapshot.position.sellable.checked_sub(fill.quantity),
            ) {
                (Some(available), Some(total), Some(sellable)) => {
                    snapshot.cash.available = available;
                    snapshot.position.total = total;
                    snapshot.position.sellable = sellable;
                },
                _ => {
                    return false;
                },
            }
        },
    }
    match (
        snapshot.cash.total_fees.checked_add(fees),
        snapshot.cumulative_filled_quantity.checked_add(fill.quantity),
    ) {
        (Some(total_fees), Some(filled)) => {
            snapshot.cash.total_fees = total_fees;
            snapshot.cumulative_filled_quantity = filled;
        },
        _ => {
            return false;
        },
    }
    totals.notional = notional;
    totals.commission = commission;
    true
}

fn book_fills(
    snapshot: &mut AccountSnapshot,
    direction: Direction,
    fills: &Vec<FillReport>,
    said: &Vec<FillAppraisal>,
) -> (r: bool)
    ensures
        match all_booked(
            old(snapshot)@,
            direction,
            fills.deep_view(),
            said.deep_view(),
            fills.deep_view().len(),
        ) {
            Some(b) => r && final(snapshot)@ == b.snapshot,
            None => !r,
        },
{
    let ghost start = snapshot@;
    let ghost all = fills.deep_view();
    let ghost words = said.deep_view();
    let mut totals = FillTotals {
        quantity: 0,
        notional: Decimal::nil(),
        commission: Decimal::nil(),
    };
    let mut i: usize = 0;
    while i < fills.len()
        invariant
            i <= fills.len(),
            all == fills.deep_view(),
            words == said.deep_view(),
            start == old(snapshot)@,
            all_booked(start, direction, all, words, i as nat) == Some(
                Booked { snapshot: snapshot@, totals },
            ),
        decreases fills.len() - i,
    {
        assert(all[i as int] == fills[i as int]@);
        let mut fits = false;
        if i < said.len() {
            assert(words[i as int] == said[i as int]@);
            if let Some(charges) = &said[i].charges {
                fits = book_fill(snapshot, &mut totals, direction, &fills[i], charges);
            }
        }
        if !fits {
            proof {
                lemma_booking_stops(start, direction, all, words, (i + 1) as nat, all.len());
            }
            return false;
        }
        i = i + 1;
    }
    true
}

impl PaperExecutionGateway {
    /// A broker with an account.
    pub fn new(
        config: &Config,
        run_id: &str,
        snapshot: AccountSnapshot,
        current_trade_date: Option<Day>,
        reports: Table<String, ExecutionReport>,
    ) -> (r: Self)
        ensures
            r@ == (PaperView {
                config: config@,
                run_id: run_id@,
                snapshot: snapshot@,
                current_trade_date,
                reports: reports@,
            }),
    {
        PaperExecutionGateway {
            config: config.dup(),
            run_id: run_id.to_owned(),
            snapshot,
            current_trade_date,
            reports,
        }
    }

    /// The broker of a run: the account that it had counts, and the given one only
    /// where there is none yet and one may be made.
    pub fn open(
        config: &Config,
        run_id: &str,
        snapshot: AccountSnapshot,
        create_if_missing: bool,
        stored: Option<AccountSnapshot>,
        current_trade_date: Option<Day>,
        reports: Table<String, ExecutionReport>,
    ) -> (r: Result<Self, PaperError>)
        ensures
            stored is None && !create_if_missing ==> r == Err::<Self, PaperError>(
                PaperError::Missing,
            ),
            stored is Some || create_if_missing ==> r is Ok && r->Ok_0@ == (PaperView {
                config: config@,
                run_id: run_id@,
                snapshot: match stored {
                    Some(had) => had@,
                    None => snapshot@,
                },
                current_trade_date,
                reports: reports@,
            }),
    {
        let account = match stored {
            Some(had) => had,
            None => {
                if !create_if_missing {
                    return Err(PaperError::Missing);
                }
                snapshot
            },
        };
        Ok(Self::new(config, run_id, account, current_trade_date, reports))
    }

    /// Whether the fills of an order cause no loss.
    pub fn sell_report_obeys_no_loss_guard(
        &self,
        intent: &OrderIntent,
        fills: &Vec<FillReport>,
        appraisal: &PaperAppraisal,
    ) -> (r: bool)
        ensures
            r == no_loss(self@.config, intent@, fills.deep_view(), appraisal@),
    {
        if !matches!(intent.direction, Direction::Sell) {
            return true;
        }
        if !text_eq(
            intent.profit_guard_version.as_str(),
            appraisal.profit_guard_version.as_str(),
        ) || intent.target_lot_allocations.len() == 0 {
            return false;
        }
        let policy = match &intent.profit_guard_policy {
            Some(policy) => policy,
            None => {
                return false;
            },
        };
        if !policy.alike(&ProfitGuardPolicy::from(&self.config)) {
            return false;
        }
        let ghost parts = intent.target_lot_allocations.deep_view();
        if fills.len() == 0 {
            let mut k: usize = 0;
            while k < intent.target_lot_allocations.len()
                invariant
                    k <= intent.target_lot_allocations.len(),
                    parts == intent.target_lot_allocations.deep_view(),
                    parts == intent@.target_lot_allocations,
                    forall|j: int|
                        0 <= j < k ==> (#[trigger] parts[j]).worst_case_profit.units() >= 0,
                    no_loss(self@.config, intent@, fills.deep_view(), appraisal@) == (forall|
                        j: int,
                    |
                        0 <= j < parts.len() ==> (
                        #[trigger] parts[j]).worst_case_profit.units() >= 0),
                decreases intent.target_lot_allocations.len() - k,
            {
                assert(parts[k as int] == intent.target_lot_allocations[k as int]@);
                if intent.target_lot_allocations[k].worst_case_profit.is_negative() {
                    return false;
                }
                k = k + 1;
            }
            return true;
        }
        let ghost all = fills.deep_view();
        let ghost words = appraisal.fills.deep_view();
        let mut totals = FillTotals {
            quantity: 0,
            notional: Decimal::nil(),
            commission: Decimal::nil(),
        };
        let mut i: usize = 0;
        while i < fills.len()
            invariant
                i <= fills.len(),
                all == fills.deep_view(),
                words == appraisal.fills.deep_view(),
                all_guarded(all, words, i as nat) == Some(totals),
                no_loss(self@.config, intent@, all, appraisal@) == (all_guarded(
                    all,
                    words,
                    all.len(),
                ) matches Some(t) && t.quantity == intent@.quantity),
            decreases fills.len() - i,
        {
            assert(all[i as int] == fills[i as int]@);
            let mut next: Option<FillTotals> = None;
            if i < appraisal.fills.len() {
                assert(words[i as int] == appraisal.fills[i as int]@);
                next = guard_fill(&totals, &fills[i], &appraisal.fills[i]);
            }
            match next {
                Some(t) => {
                    totals = t;
                },
                None => {
                    proof {
                        lemma_guard_stops(all, words, (i + 1) as nat, all.len());
                    }
                    return false;
                },
            }
            i = i + 1;
        }
        totals.quantity == intent.quantity
    }

    fn account_after(
        &self,
        intent: &OrderIntent,
        report: &ExecutionReport,
        said: &Vec<FillAppraisal>,
    ) -> (r: Option<AccountSnapshot>)
        ensures
            match reported(self@.snapshot, intent@, report@, said.deep_view()) {
                Some(s) => r matches Some(x) && x@ == s,
                None => r is None,
            },
    {
        let mut next = self.snapshot.dup();
        match report {
            ExecutionReport::Rejected { .. } => Some(next),
            ExecutionReport::Cancelled { order_id, .. } => {
                next.open_order_ids = drop_text(&self.snapshot.open_order_ids, order_id.as_str());
                Some(next)
            },
            ExecutionReport::Accepted { order_id, fills } => {
                if fills.len() == 0 {
                    if !text_list_contains(&self.snapshot.open_order_ids, order_id.as_str()) {
                        let ghost ids = next.open_order_ids.deep_view();
                        next.open_order_ids.push(order_id.dup());
                        assert(next.open_order_ids.deep_view() =~= ids.push(order_id@));
                        next.open_order_ids = sort_texts(&next.open_order_ids);
                    }
                    if matches!(intent.direction, Direction::Sell) {
                        match next.position.frozen_sell.checked_add(intent.quantity) {
                            Some(frozen_sell) => {
                                next.position.frozen_sell = frozen_sell;
                            },
                            None => {
                                return None;
                            },
                        }
                    }
                    return Some(next);
                }
                next.open_order_ids = drop_text(&self.snapshot.open_order_ids, order_id.as_str());
                if book_fills(&mut next, intent.direction, fills, said) {
                    Some(next)
                } else {
                    None
                }
            },
        }
    }

    /// Books an answer and keeps it. An answer that cannot be booked changes
    /// nothing.
    pub fn persist_report(
        &mut self,
        intent: &OrderIntent,
        report: &ExecutionReport,
        said: &Vec<FillAppraisal>,
    ) -> (r: Result<(), PaperError>)
        ensures
            match persisted(old(self)@, intent@, report@, said.deep_view()) {
                Some(g) => r is Ok && final(self)@ == g,
                None => r == Err::<(), PaperError>(PaperError::NumericRange) && *final(self)
                    == *old(self),
            },
    {
        match self.account_after(intent, report, said) {
            None => Err(PaperError::NumericRange),
            Some(next) => {
                self.snapshot = next;
                self.reports.put(intent.intent_id.dup(), report.dup());
                Ok(())
            },
        }
    }

    fn answer(&self, intent: &OrderIntent, appraisal: &PaperAppraisal) -> (r: Option<
        ExecutionReport,
    >)
        ensures
            match answered(self@.config, intent@, appraisal@) {
                Some(x) => r matches Some(y) && y@ == x,
                None => r is None,
            },
            r matches Some(y) ==> accepts_in_order(self@.config, intent@, y@),
    {
        let order_id = stable_id("order", intent.intent_id.as_str(), 0);
        if stable_draw_bps(self.config.paper.seed, intent.intent_id.as_str(), "reject")
            < self.config.paper.reject_probability_bps {
            return Some(
                ExecutionReport::Rejected {
                    order_id,
                    reason: "PAPER_CONFIGURED_REJECTION".to_owned(),
                },
            );
        }
        match plan_fills(&self.config, intent) {
            None => None,
            Some(fills) => {
                if self.sell_report_obeys_no_loss_guard(intent, &fills, appraisal) {
                    Some(ExecutionReport::Accepted { order_id, fills })
                } else {
                    Some(
                        ExecutionReport::Rejected {
                            order_id,
                            reason: "PAPER_NO_LOSS_GUARD_REJECTED".to_owned(),
                        },
                    )
                }
            },
        }
    }
}

/// Whether an answer is the given one.
pub open spec fn is_answer(
    r: Result<ExecutionReport, PaperError>,
    x: Result<ExecutionReportView, PaperError>,
) -> bool {
    match x {
        Ok(report) => r matches Ok(y) && y@ == report,
        Err(e) => r matches Err(y) && y == e,
    }
}

impl ExecutionGateway for PaperExecutionGateway {
    fn roll_trading_day(&mut self, date: Day) -> (r: Result<(), PaperError>)
        ensures
            match rolled(old(self)@, date) {
                Some(g) => r is Ok && final(self)@ == g,
                None => r == Err::<(), PaperError>(PaperError::NumericRange) && *final(self)
                    == *old(self),
            },
    {
        if let Some(today) = &self.current_trade_date {
            if today.same(&date) {
                return Ok(());
            }
            match self.snapshot.position.sellable.checked_add(self.snapshot.position.today_bought) {
                Some(sellable) => {
                    self.snapshot.position.sellable = sellable;
                    self.snapshot.position.today_bought = 0;
                },
                None => {
                    return Err(PaperError::NumericRange);
                },
            }
        }
        self.current_trade_date = Some(date);
        Ok(())
    }

    fn submit(&mut self, intent: &OrderIntent, appraisal: &PaperAppraisal) -> (r: Result<
        ExecutionReport,
        PaperError,
    >)
        ensures
            final(self)@ == submitted(old(self)@, intent@, appraisal@).0,
            is_answer(r, submitted(old(self)@, intent@, appraisal@).1),
            lookup::<String, ExecutionReportView>(old(self)@.reports, intent@.intent_id) is None ==> (
            r matches Ok(report) ==> accepts_in_order(old(self)@.config, intent@, report@)),
    {
        let ghost before = self@;
        self.roll_trading_day(intent.created_at.day())?;
        let agreed = match &intent.profit_guard_policy {
            Some(policy) => policy.alike(&ProfitGuardPolicy::from(&self.config)),
            None => false,
        };
        if !agreed {
            return Err(PaperError::Policy);
        }
        if let Some(report) = self.reports.get(&intent.intent_id) {
            return Ok(report.dup());
        }
        match self.answer(intent, appraisal) {
            None => Err(PaperError::NumericRange),
            Some(report) => match self.persist_report(intent, &report, &appraisal.fills) {
                Ok(_) => Ok(report),
                Err(e) => Err(e),
            },
        }
    }

    fn cancel(&mut self, intent: &OrderIntent, reason: &str, appraisal: &PaperAppraisal) -> (r: Result<
        ExecutionReport,
        PaperError,
    >)
        ensures
            final(self)@ == cancelled(old(self)@, intent@, reason@, appraisal@).0,
            is_answer(r, cancelled(old(self)@, intent@, reason@, appraisal@).1),
    {
        let existing = match self.reports.get(&intent.intent_id) {
            Some(report) => report.dup(),
            None => {
                return self.submit(intent, appraisal);
            },
        };
        let order_id = match &existing {
            ExecutionReport::Accepted { order_id, fills } => {
                if fills.len() != 0 {
                    return Ok(existing);
                }
                order_id.dup()
            },
            _ => {
                return Ok(existing);
            },
        };
        if matches!(intent.direction, Direction::Sell) {
            match self.snapshot.position.frozen_sell.checked_sub(intent.quantity) {
                Some(frozen_sell) => {
                    self.snapshot.position.frozen_sell = frozen_sell;
                },
                None => {
                    return Err(PaperError::NumericRange);
                },
            }
        }
        self.snapshot.open_order_ids = drop_text(&self.snapshot.open_order_ids, order_id.as_str());
        let report = ExecutionReport::Cancelled { order_id, reason: reason.to_owned() };
        self.reports.put(intent.intent_id.dup(), report.dup());
        Ok(report)
    }

    fn report_for_intent(&self, intent_id: &str) -> (r: Option<ExecutionReport>)
        ensures
            match lookup::<String, ExecutionReportView>(self@.reports, intent_id@) {
                Some(x) => r matches Some(y) && y@ == x,
                None => r is None,
            },
    {
        let key = intent_id.to_owned();
        match self.reports.get(&key) {
            Some(report) => Some(report.dup()),
            None => None,
        }
    }

    fn account_snapshot(&self) -> (r: AccountSnapshot)
        ensures
            r@ == self@.snapshot,
    {
        self.snapshot.dup()
    }

    /// The account of the broker is its own: nothing is taken over.
    fn synchronize_snapshot(&mut self, snapshot: AccountSnapshot)
        ensures
            *final(self) == *old(self),
    {
    }
}

/// The shares of some fills.
pub open spec fn filled_shares(fills: Seq<FillReportView>) -> int
    decreases fills.len(),
{
    if fills.len() == 0 {
        0
    } else {
        filled_shares(fills.drop_last()) + fills.last().quantity
    }
}

/// An order fills whole or not at all, and its parts are whole lots where it is.
pub proof fn law_fills_cover_the_order(c: ConfigView, intent: OrderIntentView)
    requires
        planned_fills(c, intent) matches Some(fills) && fills.len() > 0,
    ensures
        filled_shares(planned_fills(c, intent)->0) == intent.quantity,
        planned_fills(c, intent)->0.len() == 2 ==> planned_fills(c, intent)->0[0].quantity as int
            % c.lot_size as int == 0,
{
    let fills = planned_fills(c, intent)->0;
    reveal_with_fuel(filled_shares, 3);
    if fills.len() == 2 {
        lemma_half(intent.quantity, c.lot_size);
        assert(fills.drop_last().drop_last() =~= Seq::<FillReportView>::empty());
        assert(fills.drop_last().last() == fills[0]);
    } else {
        assert(fills.drop_last() =~= Seq::<FillReportView>::empty());
    }
}

/// An order that was answered gets the same answer again, and that changes
/// nothing.
pub proof fn law_orders_are_answered_once(
    g: PaperView,
    intent: OrderIntentView,
    a: PaperAppraisalView,
    again: PaperAppraisalView,
)
    requires
        crate::table::ordered::<String, ExecutionReportView>(g.reports),
    ensures
        ({
            let (after, r) = submitted(g, intent, a);
            r is Ok ==> submitted(after, intent, again) == (after, r)
        }),
{
    let (after, r) = submitted(g, intent, a);
    if let Ok(report) = r {
        crate::table::lemma_with::<String, ExecutionReportView>(
            g.reports,
            intent.intent_id,
            report,
        );
    }
}

/// An order that was held open and then cancelled leaves the shares that can be
/// sold as they were.
pub proof fn law_cancelling_frees_the_shares(
    s: AccountSnapshotView,
    intent: OrderIntentView,
    order_id: Seq<char>,
)
    ensures
        held_open(s, intent, order_id) matches Some(open) ==> released(open, intent, order_id) matches Some(
            closed,
        ) && closed.position == s.position && closed.cash == s.cash,
{
}

} // verus!

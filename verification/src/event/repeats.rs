//! How often events were offered again is only counted, and which event compared
//! the accounts last is only noted: neither decides anything.
use crate::config::SnapshotPayloadView;
use crate::decimal::{plus, Decimal};
use crate::domain::{close_slices, filled, sell_allocations, DomainErrorView};
use crate::event::disposition::{disposed, disposed_status};
use crate::event::fills::{
    fill_received, notified_status, order_notified, order_submitted,
};
use crate::event::grants::right_granted;
use crate::event::intents::{opening_evaluated, order_intended};
use crate::event::kinds::EventType;
use crate::event::levels::{
    level_armed, level_rearmed, level_skipped, level_touched, small_index,
};
use crate::event::lifecycle::{
    bar_processed, bar_received, close_noted, config_recorded, cycle_reset, cycle_started, day_rolled,
    decision_made, policy_activated, stage_of_event,
};
use crate::event::payload::{EventEnvelopeView, PayloadView};
use crate::event::reduce::{applied, grid_reduced, order_reduced, reduced, run_reduced, EventError};
use crate::event::tranches::{
    balance_move, balance_moved, balance_transferred, tranche_minted, BalanceMove,
};
use crate::model::ledger::{
    FillView, GridLevelState, InitialDeploymentEvaluationView, LotQuantityAllocationView,
    OngoingResourcePolicyActivationView, OrderStatus, OrderView, StrategyStateView,
};
use crate::model::market::MarketBarView;
use crate::model::notices::{
    AppraisalView, BalanceNoticeView, DecisionNoticeView, DispositionNoticeView, FillNoticeView,
    LevelNoticeView, OrderNoticeView, ResetNoticeView, StageNoticeView, TransferNoticeView,
};
use crate::model::rights::{GridRightStatus, GridRightView, RightTrancheView};
use vstd::prelude::*;

verus! {

/// A state with another count of repeats.
pub open spec fn with_repeats(s: StrategyStateView, d: u64) -> StrategyStateView {
    StrategyStateView { duplicate_events: d, ..s }
}

/// A state with other notes: the count of repeats, and the sequence number of the
/// last comparison with the broker.
pub open spec fn with_notes(s: StrategyStateView, d: u64, q: Option<i64>) -> StrategyStateView {
    StrategyStateView { duplicate_events: d, last_reconciliation_event_sequence: q, ..s }
}

/// Whether an event notes its own sequence number.
pub open spec fn notes_its_number(e: EventEnvelopeView) -> bool {
    e.event_type == EventType::ReconciliationCompleted && e.payload is Reconciliation
}

/// Whether one outcome is another with other notes.
pub open spec fn notes_apart(
    x: Option<StrategyStateView>,
    y: Option<StrategyStateView>,
    d: u64,
    q: Option<i64>,
) -> bool {
    match x {
        Some(n) => y == Some(with_notes(n, d, q)),
        None => y is None,
    }
}

proof fn lemma_close_slices(
    s: StrategyStateView,
    d: u64,
    q: Option<i64>,
    fill: FillView,
    fees: Decimal,
    allocations: Seq<LotQuantityAllocationView>,
    split: Option<Seq<Decimal>>,
    enforce: bool,
    n: nat,
)
    ensures
        close_slices(s, fill, fees, allocations, split, enforce, n) == close_slices(
            with_notes(s, d, q),
            fill,
            fees,
            allocations,
            split,
            enforce,
            n,
        ),
    decreases n,
{
    if n > 0 {
        lemma_close_slices(s, d, q, fill, fees, allocations, split, enforce, (n - 1) as nat);
    }
}

proof fn lemma_filled(
    s: StrategyStateView,
    d: u64,
    q: Option<i64>,
    fill: FillView,
    index: i32,
    split: Option<Seq<Decimal>>,
    enforce: bool,
)
    ensures
        match filled(s, fill, index, split, enforce) {
            Ok(n) => filled(with_notes(s, d, q), fill, index, split, enforce) == Ok::<
                StrategyStateView,
                DomainErrorView,
            >(with_notes(n, d, q)),
            Err(_) => filled(with_notes(s, d, q), fill, index, split, enforce) is Err,
        },
{
    if let (Some(fees), Ok(allocations)) = (
        plus(fill.commission, fill.tax),
        sell_allocations(s, fill),
    ) {
        let used = if fill.target_lot_allocations.len() > 0 {
            split
        } else {
            None
        };
        lemma_close_slices(s, d, q, fill, fees, allocations, used, enforce, allocations.len());
        assert(sell_allocations(with_notes(s, d, q), fill) == sell_allocations(s, fill));
    }
}

proof fn lemma_level_armed(
    s: StrategyStateView,
    d: u64,
    q: Option<i64>,
    e: EventEnvelopeView,
    level: GridLevelState,
)
    ensures
        notes_apart(level_armed(s, e, level), level_armed(with_notes(s, d, q), e, level), d, q),
{
}

proof fn lemma_level_touched(
    s: StrategyStateView,
    d: u64,
    q: Option<i64>,
    e: EventEnvelopeView,
    p: LevelNoticeView,
)
    ensures
        notes_apart(level_touched(s, e, p), level_touched(with_notes(s, d, q), e, p), d, q),
{
}

proof fn lemma_level_skipped(
    s: StrategyStateView,
    d: u64,
    q: Option<i64>,
    e: EventEnvelopeView,
    p: LevelNoticeView,
)
    ensures
        notes_apart(level_skipped(s, e, p), level_skipped(with_notes(s, d, q), e, p), d, q),
{
}

proof fn lemma_level_rearmed(
    s: StrategyStateView,
    d: u64,
    q: Option<i64>,
    e: EventEnvelopeView,
    p: LevelNoticeView,
)
    ensures
        notes_apart(level_rearmed(s, e, p), level_rearmed(with_notes(s, d, q), e, p), d, q),
{
}

proof fn lemma_right_granted(
    s: StrategyStateView,
    d: u64,
    q: Option<i64>,
    e: EventEnvelopeView,
    right: GridRightView,
    a: AppraisalView,
)
    ensures
        notes_apart(
            right_granted(s, e, right, a),
            right_granted(with_notes(s, d, q), e, right, a),
            d,
            q,
        ),
{
}

proof fn lemma_tranche_minted(
    s: StrategyStateView,
    d: u64,
    q: Option<i64>,
    e: EventEnvelopeView,
    t: RightTrancheView,
    a: AppraisalView,
)
    ensures
        notes_apart(tranche_minted(s, e, t, a), tranche_minted(with_notes(s, d, q), e, t, a), d, q),
{
}

proof fn lemma_balance_transferred(
    s: StrategyStateView,
    d: u64,
    q: Option<i64>,
    e: EventEnvelopeView,
    p: TransferNoticeView,
)
    ensures
        notes_apart(
            balance_transferred(s, e, p),
            balance_transferred(with_notes(s, d, q), e, p),
            d,
            q,
        ),
{
}

proof fn lemma_balance_moved(
    s: StrategyStateView,
    d: u64,
    q: Option<i64>,
    m: BalanceMove,
    p: BalanceNoticeView,
)
    ensures
        notes_apart(balance_moved(s, m, p), balance_moved(with_notes(s, d, q), m, p), d, q),
{
}

proof fn lemma_disposed(
    s: StrategyStateView,
    d: u64,
    q: Option<i64>,
    e: EventEnvelopeView,
    p: DispositionNoticeView,
    next: GridRightStatus,
)
    ensures
        notes_apart(disposed(s, e, p, next), disposed(with_notes(s, d, q), e, p, next), d, q),
{
}

proof fn lemma_opening_evaluated(
    s: StrategyStateView,
    d: u64,
    q: Option<i64>,
    e: EventEnvelopeView,
    ev: InitialDeploymentEvaluationView,
    a: AppraisalView,
)
    ensures
        notes_apart(
            opening_evaluated(s, e, ev, a),
            opening_evaluated(with_notes(s, d, q), e, ev, a),
            d,
            q,
        ),
{
}

proof fn lemma_policy_activated(
    s: StrategyStateView,
    d: u64,
    q: Option<i64>,
    x: OngoingResourcePolicyActivationView,
    a: AppraisalView,
)
    ensures
        notes_apart(policy_activated(s, x, a), policy_activated(with_notes(s, d, q), x, a), d, q),
{
}

proof fn lemma_order_intended(
    s: StrategyStateView,
    d: u64,
    q: Option<i64>,
    e: EventEnvelopeView,
    order: OrderView,
    a: AppraisalView,
)
    ensures
        notes_apart(
            order_intended(s, e, order, a),
            order_intended(with_notes(s, d, q), e, order, a),
            d,
            q,
        ),
{
}

proof fn lemma_order_submitted(
    s: StrategyStateView,
    d: u64,
    q: Option<i64>,
    p: OrderNoticeView,
)
    ensures
        notes_apart(order_submitted(s, p), order_submitted(with_notes(s, d, q), p), d, q),
{
}

proof fn lemma_order_notified(
    s: StrategyStateView,
    d: u64,
    q: Option<i64>,
    e: EventEnvelopeView,
    p: OrderNoticeView,
    next: OrderStatus,
)
    ensures
        notes_apart(
            order_notified(s, e, p, next),
            order_notified(with_notes(s, d, q), e, p, next),
            d,
            q,
        ),
{
}

proof fn lemma_fill_received(
    s: StrategyStateView,
    d: u64,
    q: Option<i64>,
    e: EventEnvelopeView,
    p: FillNoticeView,
    next: OrderStatus,
    a: AppraisalView,
)
    ensures
        notes_apart(
            fill_received(s, e, p, next, a),
            fill_received(with_notes(s, d, q), e, p, next, a),
            d,
            q,
        ),
{
    if let (Some(fill), Some(index)) = (p.fill, small_index(p.grid_index)) {
        lemma_filled(s, d, q, fill, index, a.fee_split, true);
        lemma_filled(s, d, q, fill, index, a.fee_split, false);
    }
}

proof fn lemma_day_rolled(
    s: StrategyStateView,
    d: u64,
    q: Option<i64>,
    date: Option<Seq<char>>,
)
    ensures
        notes_apart(day_rolled(s, date), day_rolled(with_notes(s, d, q), date), d, q),
{
}

proof fn lemma_cycle_reset(
    s: StrategyStateView,
    d: u64,
    q: Option<i64>,
    e: EventEnvelopeView,
    p: ResetNoticeView,
)
    ensures
        notes_apart(cycle_reset(s, e, p), cycle_reset(with_notes(s, d, q), e, p), d, q),
{
}

proof fn lemma_cycle_started(
    s: StrategyStateView,
    d: u64,
    q: Option<i64>,
    e: EventEnvelopeView,
    anchor: Option<Seq<char>>,
)
    ensures
        notes_apart(cycle_started(s, e, anchor), cycle_started(with_notes(s, d, q), e, anchor), d, q),
{
}

proof fn lemma_config_recorded(
    s: StrategyStateView,
    d: u64,
    q: Option<i64>,
    e: EventEnvelopeView,
    p: SnapshotPayloadView,
)
    ensures
        notes_apart(config_recorded(s, e, p), config_recorded(with_notes(s, d, q), e, p), d, q),
{
}

proof fn lemma_decision_made(
    s: StrategyStateView,
    d: u64,
    q: Option<i64>,
    p: DecisionNoticeView,
)
    ensures
        notes_apart(decision_made(s, p), decision_made(with_notes(s, d, q), p), d, q),
{
}

proof fn lemma_close_noted(
    s: StrategyStateView,
    d: u64,
    q: Option<i64>,
    close: Option<Seq<char>>,
)
    ensures
        notes_apart(close_noted(s, close), close_noted(with_notes(s, d, q), close), d, q),
{
}

proof fn lemma_bar_processed(
    s: StrategyStateView,
    d: u64,
    q: Option<i64>,
    e: EventEnvelopeView,
    p: StageNoticeView,
)
    ensures
        notes_apart(bar_processed(s, e, p), bar_processed(with_notes(s, d, q), e, p), d, q),
{
}

proof fn lemma_bar_received(
    s: StrategyStateView,
    d: u64,
    q: Option<i64>,
    e: EventEnvelopeView,
    bar: MarketBarView,
    a: AppraisalView,
)
    ensures
        notes_apart(bar_received(s, e, bar, a), bar_received(with_notes(s, d, q), e, bar, a), d, q),
{
}

proof fn lemma_stage_of_event(
    s: StrategyStateView,
    d: u64,
    q: Option<i64>,
    e: EventEnvelopeView,
    p: StageNoticeView,
)
    ensures
        stage_of_event(s, e, p) == stage_of_event(with_notes(s, d, q), e, p),
{
}

proof fn lemma_on_grid(
    s: StrategyStateView,
    d: u64,
    q: Option<i64>,
    e: EventEnvelopeView,
    a: AppraisalView,
)
    ensures
        notes_apart(grid_reduced(s, e, a), grid_reduced(with_notes(s, d, q), e, a), d, q),
{
    reveal(grid_reduced);
    match e.payload {
        PayloadView::Level(x) => lemma_level_armed(s, d, q, e, x),
        PayloadView::LevelAt(x) => {
            lemma_level_touched(s, d, q, e, x);
            lemma_level_skipped(s, d, q, e, x);
            lemma_level_rearmed(s, d, q, e, x);
        },
        PayloadView::Right(x) => lemma_right_granted(s, d, q, e, x, a),
        PayloadView::Tranche(x) => lemma_tranche_minted(s, d, q, e, x, a),
        PayloadView::Transfer(x) => lemma_balance_transferred(s, d, q, e, x),
        PayloadView::Balance(x) => if let Some(m) = balance_move(e.event_type) {
            lemma_balance_moved(s, d, q, m, x);
        },
        PayloadView::Disposition(x) => if let Some(next) = disposed_status(e.event_type) {
            lemma_disposed(s, d, q, e, x, next);
        },
        _ => {},
    }
}

proof fn lemma_on_order(
    s: StrategyStateView,
    d: u64,
    q: Option<i64>,
    e: EventEnvelopeView,
    a: AppraisalView,
)
    ensures
        notes_apart(order_reduced(s, e, a), order_reduced(with_notes(s, d, q), e, a), d, q),
{
    reveal(order_reduced);
    match e.payload {
        PayloadView::Evaluation(x) => lemma_opening_evaluated(s, d, q, e, x, a),
        PayloadView::Activation(x) => lemma_policy_activated(s, d, q, x, a),
        PayloadView::Intent(x) => lemma_order_intended(s, d, q, e, x, a),
        PayloadView::OrderAt(x) => {
            lemma_order_submitted(s, d, q, x);
            if let Some(next) = notified_status(e.event_type) {
                lemma_order_notified(s, d, q, e, x, next);
            }
        },
        PayloadView::Fill(x) => {
            lemma_fill_received(s, d, q, e, x, OrderStatus::PartiallyFilled, a);
            lemma_fill_received(s, d, q, e, x, OrderStatus::Filled, a);
        },
        _ => {},
    }
}

proof fn lemma_on_run(
    s: StrategyStateView,
    d: u64,
    q: Option<i64>,
    e: EventEnvelopeView,
    a: AppraisalView,
)
    requires
        !notes_its_number(e),
    ensures
        notes_apart(run_reduced(s, e, a), run_reduced(with_notes(s, d, q), e, a), d, q),
{
    reveal(run_reduced);
    match e.payload {
        PayloadView::Day(x) => lemma_day_rolled(s, d, q, x),
        PayloadView::Reset(x) => lemma_cycle_reset(s, d, q, e, x),
        PayloadView::Start(x) => lemma_cycle_started(s, d, q, e, x),
        PayloadView::Snapshot(x) => lemma_config_recorded(s, d, q, e, x),
        PayloadView::Stage(x) => {
            lemma_bar_processed(s, d, q, e, x);
            lemma_close_noted(s, d, q, x.close);
        },
        PayloadView::Bar(x) => lemma_bar_received(s, d, q, e, x, a),
        _ => {},
    }
}

/// Neither the count of repeats nor the number of the last comparison with the broker
/// decides whether an event applies. No event changes the count, and only a
/// comparison notes its number.
pub proof fn law_notes_decide_nothing(
    s: StrategyStateView,
    d: u64,
    q: Option<i64>,
    e: EventEnvelopeView,
    a: AppraisalView,
)
    ensures
        match applied(s, e, a) {
            Ok(n) => {
                let noted = if notes_its_number(e) {
                    n.last_reconciliation_event_sequence
                } else {
                    q
                };
                &&& n.duplicate_events == s.duplicate_events
                &&& !notes_its_number(e) ==> n.last_reconciliation_event_sequence
                    == s.last_reconciliation_event_sequence
                &&& applied(with_notes(s, d, q), e, a) == Ok::<StrategyStateView, EventError>(
                    with_notes(n, d, noted),
                )
            },
            Err(x) => applied(with_notes(s, d, q), e, a) == Err::<StrategyStateView, EventError>(x),
        },
{
    if let Some(event_count) = s.event_count.checked_add(1) {
        let c = StrategyStateView { event_count, ..s };
        let same = s.last_reconciliation_event_sequence;
        lemma_reduced(c, d, q, e, a);
        lemma_reduced(c, s.duplicate_events, same, e, a);
        assert(with_notes(c, s.duplicate_events, same) == c);
        assert(with_notes(c, d, q) == (StrategyStateView { event_count, ..with_notes(s, d, q) }));
    }
}

/// How often events were offered again does not decide whether an event applies,
/// and no event changes it.
pub proof fn law_repeats_decide_nothing(
    s: StrategyStateView,
    d: u64,
    e: EventEnvelopeView,
    a: AppraisalView,
)
    ensures
        match applied(s, e, a) {
            Ok(n) => n.duplicate_events == s.duplicate_events && applied(with_repeats(s, d), e, a)
                == Ok::<StrategyStateView, EventError>(with_repeats(n, d)),
            Err(x) => applied(with_repeats(s, d), e, a) == Err::<StrategyStateView, EventError>(x),
        },
{
    let q = s.last_reconciliation_event_sequence;
    law_notes_decide_nothing(s, d, q, e, a);
    assert(with_repeats(s, d) == with_notes(s, d, q));
    if let Ok(n) = applied(s, e, a) {
        assert(with_repeats(n, d) == with_notes(n, d, n.last_reconciliation_event_sequence));
    }
}

/// The outcome with other notes. An event that notes its number does so whatever was
/// noted before.
proof fn lemma_reduced(
    s: StrategyStateView,
    d: u64,
    q: Option<i64>,
    e: EventEnvelopeView,
    a: AppraisalView,
)
    ensures
        !notes_its_number(e) ==> notes_apart(
            reduced(s, e, a),
            reduced(with_notes(s, d, q), e, a),
            d,
            q,
        ),
        notes_its_number(e) ==> (reduced(s, e, a) matches Some(n) && reduced(
            with_notes(s, d, q),
            e,
            a,
        ) == Some(with_notes(n, d, n.last_reconciliation_event_sequence))),
{
    reveal(run_reduced);
    lemma_on_grid(s, d, q, e, a);
    lemma_on_order(s, d, q, e, a);
    if !notes_its_number(e) {
        lemma_on_run(s, d, q, e, a);
    }
    match e.payload {
        PayloadView::Decision(x) => lemma_decision_made(s, d, q, x),
        PayloadView::Stage(x) => lemma_stage_of_event(s, d, q, e, x),
        _ => {},
    }
}

} // verus!

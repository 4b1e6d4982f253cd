//! The sequence number of an event is only noted: it decides nothing.
use crate::event::levels::{level_armed, level_touched, level_skipped, level_rearmed};
use crate::event::grants::{right_granted};
use crate::event::tranches::{tranche_minted, balance_transferred};
use crate::event::disposition::{disposed};
use crate::event::intents::{opening_evaluated, order_intended};
use crate::event::fills::{order_notified, fill_received};
use crate::event::lifecycle::{cycle_reset, cycle_started, config_recorded, stage_of_event, bar_processed, bar_received};
use crate::config::SnapshotPayloadView;
use crate::event::disposition::disposed_status;
use crate::event::fills::notified_status;
use crate::event::payload::{EventEnvelopeView, PayloadView};
use crate::event::reduce::{applied, grid_reduced, order_reduced, reduced, run_reduced};
use crate::model::ledger::{
    GridLevelState, InitialDeploymentEvaluationView, OrderStatus, OrderView, StrategyStateView,
};
use crate::model::market::MarketBarView;
use crate::model::notices::{
    AppraisalView, DispositionNoticeView, FillNoticeView, LevelNoticeView, OrderNoticeView,
    ResetNoticeView, StageNoticeView, TransferNoticeView,
};
use crate::model::rights::{GridRightStatus, GridRightView, RightTrancheView};
use vstd::prelude::*;

verus! {

/// Whether two events differ in their sequence numbers at most.
pub open spec fn numbered_apart(e: EventEnvelopeView, f: EventEnvelopeView) -> bool {
    f == (EventEnvelopeView { sequence_number: f.sequence_number, ..e })
}

/// Whether two states differ at most in the number of the last comparison with the
/// broker.
pub open spec fn number_apart(s: StrategyStateView, t: StrategyStateView) -> bool {
    t == (StrategyStateView {
        last_reconciliation_event_sequence: t.last_reconciliation_event_sequence,
        ..s
    })
}

proof fn lemma_level_armed(
    s: StrategyStateView,
    e: EventEnvelopeView,
    f: EventEnvelopeView,
    level: GridLevelState,
)
    requires
        numbered_apart(e, f),
    ensures
        level_armed(s, e, level) == level_armed(s, f, level),
{
}

proof fn lemma_level_touched(
    s: StrategyStateView,
    e: EventEnvelopeView,
    f: EventEnvelopeView,
    p: LevelNoticeView,
)
    requires
        numbered_apart(e, f),
    ensures
        level_touched(s, e, p) == level_touched(s, f, p),
{
}

proof fn lemma_level_skipped(
    s: StrategyStateView,
    e: EventEnvelopeView,
    f: EventEnvelopeView,
    p: LevelNoticeView,
)
    requires
        numbered_apart(e, f),
    ensures
        level_skipped(s, e, p) == level_skipped(s, f, p),
{
}

proof fn lemma_level_rearmed(
    s: StrategyStateView,
    e: EventEnvelopeView,
    f: EventEnvelopeView,
    p: LevelNoticeView,
)
    requires
        numbered_apart(e, f),
    ensures
        level_rearmed(s, e, p) == level_rearmed(s, f, p),
{
}

proof fn lemma_right_granted(
    s: StrategyStateView,
    e: EventEnvelopeView,
    f: EventEnvelopeView,
    right: GridRightView,
    a: AppraisalView,
)
    requires
        numbered_apart(e, f),
    ensures
        right_granted(s, e, right, a) == right_granted(s, f, right, a),
{
}

proof fn lemma_tranche_minted(
    s: StrategyStateView,
    e: EventEnvelopeView,
    f: EventEnvelopeView,
    t: RightTrancheView,
    a: AppraisalView,
)
    requires
        numbered_apart(e, f),
    ensures
        tranche_minted(s, e, t, a) == tranche_minted(s, f, t, a),
{
}

proof fn lemma_balance_transferred(
    s: StrategyStateView,
    e: EventEnvelopeView,
    f: EventEnvelopeView,
    p: TransferNoticeView,
)
    requires
        numbered_apart(e, f),
    ensures
        balance_transferred(s, e, p) == balance_transferred(s, f, p),
{
}

proof fn lemma_disposed(
    s: StrategyStateView,
    e: EventEnvelopeView,
    f: EventEnvelopeView,
    p: DispositionNoticeView,
    next: GridRightStatus,
)
    requires
        numbered_apart(e, f),
    ensures
        disposed(s, e, p, next) == disposed(s, f, p, next),
{
}

proof fn lemma_opening_evaluated(
    s: StrategyStateView,
    e: EventEnvelopeView,
    f: EventEnvelopeView,
    ev: InitialDeploymentEvaluationView,
    a: AppraisalView,
)
    requires
        numbered_apart(e, f),
    ensures
        opening_evaluated(s, e, ev, a) == opening_evaluated(s, f, ev, a),
{
}

proof fn lemma_order_intended(
    s: StrategyStateView,
    e: EventEnvelopeView,
    f: EventEnvelopeView,
    order: OrderView,
    a: AppraisalView,
)
    requires
        numbered_apart(e, f),
    ensures
        order_intended(s, e, order, a) == order_intended(s, f, order, a),
{
}

proof fn lemma_order_notified(
    s: StrategyStateView,
    e: EventEnvelopeView,
    f: EventEnvelopeView,
    p: OrderNoticeView,
    next: OrderStatus,
)
    requires
        numbered_apart(e, f),
    ensures
        order_notified(s, e, p, next) == order_notified(s, f, p, next),
{
}

proof fn lemma_fill_received(
    s: StrategyStateView,
    e: EventEnvelopeView,
    f: EventEnvelopeView,
    p: FillNoticeView,
    next: OrderStatus,
    a: AppraisalView,
)
    requires
        numbered_apart(e, f),
    ensures
        fill_received(s, e, p, next, a) == fill_received(s, f, p, next, a),
{
}

proof fn lemma_cycle_reset(
    s: StrategyStateView,
    e: EventEnvelopeView,
    f: EventEnvelopeView,
    p: ResetNoticeView,
)
    requires
        numbered_apart(e, f),
    ensures
        cycle_reset(s, e, p) == cycle_reset(s, f, p),
{
}

proof fn lemma_cycle_started(
    s: StrategyStateView,
    e: EventEnvelopeView,
    f: EventEnvelopeView,
    anchor: Option<Seq<char>>,
)
    requires
        numbered_apart(e, f),
    ensures
        cycle_started(s, e, anchor) == cycle_started(s, f, anchor),
{
}

proof fn lemma_config_recorded(
    s: StrategyStateView,
    e: EventEnvelopeView,
    f: EventEnvelopeView,
    p: SnapshotPayloadView,
)
    requires
        numbered_apart(e, f),
    ensures
        config_recorded(s, e, p) == config_recorded(s, f, p),
{
}

proof fn lemma_stage_of_event(
    s: StrategyStateView,
    e: EventEnvelopeView,
    f: EventEnvelopeView,
    p: StageNoticeView,
)
    requires
        numbered_apart(e, f),
    ensures
        stage_of_event(s, e, p) == stage_of_event(s, f, p),
{
}

proof fn lemma_bar_processed(
    s: StrategyStateView,
    e: EventEnvelopeView,
    f: EventEnvelopeView,
    p: StageNoticeView,
)
    requires
        numbered_apart(e, f),
    ensures
        bar_processed(s, e, p) == bar_processed(s, f, p),
{
}

proof fn lemma_bar_received(
    s: StrategyStateView,
    e: EventEnvelopeView,
    f: EventEnvelopeView,
    bar: MarketBarView,
    a: AppraisalView,
)
    requires
        numbered_apart(e, f),
    ensures
        bar_received(s, e, bar, a) == bar_received(s, f, bar, a),
{
}

proof fn lemma_on_grid(
    s: StrategyStateView,
    e: EventEnvelopeView,
    f: EventEnvelopeView,
    a: AppraisalView,
)
    requires
        numbered_apart(e, f),
    ensures
        grid_reduced(s, e, a) == grid_reduced(s, f, a),
{
    reveal(grid_reduced);
    match e.payload {
        PayloadView::Level(x) => lemma_level_armed(s, e, f, x),
        PayloadView::LevelAt(x) => {
            lemma_level_touched(s, e, f, x);
            lemma_level_skipped(s, e, f, x);
            lemma_level_rearmed(s, e, f, x);
        },
        PayloadView::Right(x) => lemma_right_granted(s, e, f, x, a),
        PayloadView::Tranche(x) => lemma_tranche_minted(s, e, f, x, a),
        PayloadView::Transfer(x) => lemma_balance_transferred(s, e, f, x),
        PayloadView::Disposition(x) => if let Some(next) = disposed_status(e.event_type) {
            lemma_disposed(s, e, f, x, next);
        },
        _ => {},
    }
}

proof fn lemma_on_order(
    s: StrategyStateView,
    e: EventEnvelopeView,
    f: EventEnvelopeView,
    a: AppraisalView,
)
    requires
        numbered_apart(e, f),
    ensures
        order_reduced(s, e, a) == order_reduced(s, f, a),
{
    reveal(order_reduced);
    match e.payload {
        PayloadView::Evaluation(x) => lemma_opening_evaluated(s, e, f, x, a),
        PayloadView::Intent(x) => lemma_order_intended(s, e, f, x, a),
        PayloadView::OrderAt(x) => if let Some(next) = notified_status(e.event_type) {
            lemma_order_notified(s, e, f, x, next);
        },
        PayloadView::Fill(x) => {
            lemma_fill_received(s, e, f, x, OrderStatus::PartiallyFilled, a);
            lemma_fill_received(s, e, f, x, OrderStatus::Filled, a);
        },
        _ => {},
    }
}

proof fn lemma_on_run(
    s: StrategyStateView,
    e: EventEnvelopeView,
    f: EventEnvelopeView,
    a: AppraisalView,
)
    requires
        numbered_apart(e, f),
    ensures
        run_reduced(s, e, a) is Some == run_reduced(s, f, a) is Some,
        !(e.payload is Reconciliation) ==> run_reduced(s, e, a) == run_reduced(s, f, a),
        run_reduced(s, e, a) matches Some(n) ==> number_apart(n, run_reduced(s, f, a)->0),
{
    reveal(run_reduced);
    match e.payload {
        PayloadView::Reset(x) => lemma_cycle_reset(s, e, f, x),
        PayloadView::Start(x) => lemma_cycle_started(s, e, f, x),
        PayloadView::Snapshot(x) => lemma_config_recorded(s, e, f, x),
        PayloadView::Stage(x) => lemma_bar_processed(s, e, f, x),
        PayloadView::Bar(x) => lemma_bar_received(s, e, f, x, a),
        _ => {},
    }
}

/// The sequence number of an event does not decide whether it applies, and only
/// a comparison with the broker notes it.
pub proof fn law_numbers_decide_nothing(
    s: StrategyStateView,
    e: EventEnvelopeView,
    f: EventEnvelopeView,
    a: AppraisalView,
)
    requires
        numbered_apart(e, f),
    ensures
        applied(s, e, a) is Ok == applied(s, f, a) is Ok,
        !(e.payload is Reconciliation) ==> applied(s, e, a) == applied(s, f, a),
        applied(s, e, a) matches Ok(n) ==> number_apart(n, applied(s, f, a)->Ok_0),
{
    if let Some(event_count) = s.event_count.checked_add(1) {
        let counted = StrategyStateView { event_count, ..s };
        lemma_on_grid(counted, e, f, a);
        lemma_on_order(counted, e, f, a);
        lemma_on_run(counted, e, f, a);
        if let PayloadView::Stage(x) = e.payload {
            lemma_stage_of_event(counted, e, f, x);
        }
        assert(reduced(counted, e, a) is Some == reduced(counted, f, a) is Some);
    }
}

} // verus!

//! What a batch has to hold together.
use crate::decimal::{decimal_text, Decimal};
use crate::decision::DECISION_CONTRACT_VERSION;
use crate::event::kinds::{current_event_schema, current_schema, EventType};
use crate::event::levels::{index_in_range, small_index};
use crate::event::payload::{EventEnvelope, EventEnvelopeView, Payload, PayloadView};
use crate::grid::{
    all_levels, crosses, crosses_level, grid_fault, grid_of, grid_price, waiting, GridSpec,
};
use crate::journal::query::{
    at_time, last_before, last_rearm, named_index, some_row, touch_at,
};
use crate::ledger::evidence::{
    bar_of, binding_fault, last_two, latest_bar, validate_current_opportunity_binding, LedgerError,
};
use crate::ledger::kinship::{fresh, kin_between, new_of, Batch, Desk, Want, WantView};
use crate::model::ledger::{
    GridLevelState, GridLevelStatus, InitialDeploymentOutcome, StrategyStateView,
};
use crate::model::market::{MarketBar, MarketBarView};
use crate::model::rights::{RightTranche, RightTrancheView};
use crate::table::{lookup, Table};
use crate::text::text_eq;
use crate::value::Value;
use vstd::prelude::*;

verus! {

/// What is asked of every event of a batch.
#[derive(Clone, Copy, Debug, PartialEq, Eq, Structural)]
pub enum BatchCheck {
    Layout,
    OpeningEvaluation,
    OpeningIntent,
    Market,
    Stage,
    Failure,
    Touch,
    Grant,
    Resolution,
    Skip,
    Tranches,
    ResetTarget,
    Cycle,
    Arm,
}

/// Why a new event is not in its layout or not of the opportunity, if so.
pub open spec fn layout_fault(b: Batch, i: int) -> Option<LedgerError> {
    let e = b.events[i];
    if !fresh(b, i) {
        None
    } else if e.schema_version != current_schema(e.event_type) {
        Some(LedgerError::OldLayout)
    } else {
        binding_fault(b.state, e)
    }
}

/// Whether the events of a batch up to a position are in their layouts and of the
/// opportunity.
pub open spec fn laid_out(b: Batch, k: int) -> bool {
    forall|i: int| 0 <= i <= k ==> (#[trigger] layout_fault(b, i)) is None
}

/// Why an opening evaluation lacks its intent, if it does.
pub open spec fn opening_evaluation_fault(b: Batch, i: int) -> Option<LedgerError> {
    let e = b.events[i];
    if !new_of(b, i, EventType::InitialDeploymentEvaluated) {
        None
    } else {
        match e.payload {
            PayloadView::Evaluation(x) => {
                let intents = kin_between(
                    b,
                    e,
                    WantView::OpeningIntent(x.deployment_id),
                    i + 1,
                    b.events.len() as int,
                );
                let expected: nat = if x.outcome == InitialDeploymentOutcome::Authorized {
                    1
                } else {
                    0
                };
                if intents == expected {
                    None
                } else {
                    Some(LedgerError::OpeningIntent)
                }
            },
            _ => Some(LedgerError::Unreadable),
        }
    }
}

/// Why an opening intent lacks its evaluation, if it does.
pub open spec fn opening_intent_fault(b: Batch, i: int) -> Option<LedgerError> {
    let e = b.events[i];
    if !new_of(b, i, EventType::OrderIntentCreated) {
        None
    } else {
        match e.payload {
            PayloadView::Intent(order) => match order.intent.origin {
                None => None,
                Some(origin) => if kin_between(
                    b,
                    e,
                    WantView::OpeningEvaluation(origin.deployment_id),
                    0,
                    i,
                ) == 1 {
                    None
                } else {
                    Some(LedgerError::OpeningEvaluation)
                },
            },
            _ => Some(LedgerError::Unreadable),
        }
    }
}

/// The bar before an event of a batch.
pub open spec fn bar_before(b: Batch, i: int) -> Option<MarketBarView>
    decreases i,
{
    if i <= 0 {
        match latest_bar(b.log, b.state.run_id) {
            Ok(bar) => bar,
            Err(_) => None,
        }
    } else if new_of(b, i - 1, EventType::MarketDataReceived) {
        bar_of(b.events[i - 1])
    } else {
        bar_before(b, i - 1)
    }
}

/// Why a bar of a batch is not later than the one before it, if it is not.
pub open spec fn market_fault(b: Batch, i: int) -> Option<LedgerError> {
    if !new_of(b, i, EventType::MarketDataReceived) {
        None
    } else {
        match bar_of(b.events[i]) {
            None => Some(LedgerError::Unreadable),
            Some(bar) => if bar_before(b, i) matches Some(previous) && previous.timestamp.position()
                >= bar.timestamp.position() {
                Some(LedgerError::StaleMarket)
            } else {
                None
            },
        }
    }
}

/// Why a batch may not hold an event, if it is a stage of a bar.
pub open spec fn stage_in_batch_fault(b: Batch, i: int) -> Option<LedgerError> {
    if new_of(b, i, EventType::MarketBarDecisionsCommitted) || new_of(
        b,
        i,
        EventType::MarketBarProcessed,
    ) {
        Some(LedgerError::StageInBatch)
    } else {
        None
    }
}

/// The first of the reasons from `k` on that says more than that nothing is
/// exercised.
pub open spec fn failure_reason(reasons: Seq<Seq<char>>, k: nat) -> Option<Seq<char>>
    decreases reasons.len() - k,
{
    if k >= reasons.len() {
        None
    } else if reasons[k as int] != "RESOURCE_FAIL_CLOSED"@ {
        Some(reasons[k as int])
    } else {
        failure_reason(reasons, k + 1)
    }
}

/// Why a decision without an algorithm lacks its error, if it does.
pub open spec fn failure_fault(b: Batch, i: int) -> Option<LedgerError> {
    let e = b.events[i];
    if !new_of(b, i, EventType::GateDecisionMade) || e.schema_version < 4 {
        None
    } else {
        match e.payload {
            PayloadView::Decision(d) => match d.request {
                None => Some(LedgerError::Unreadable),
                Some(request) => if request.contract_version != DECISION_CONTRACT_VERSION {
                    None
                } else {
                    match d.algorithm_succeeded {
                        None => Some(LedgerError::Unreadable),
                        Some(succeeded) => if succeeded {
                            None
                        } else {
                            match d.response {
                                None => Some(LedgerError::Unreadable),
                                Some(response) => match failure_reason(
                                    response.decision.reason_codes,
                                    0,
                                ) {
                                    None => Some(LedgerError::Unreadable),
                                    Some(reason) => if kin_between(
                                        b,
                                        e,
                                        WantView::GateError(reason),
                                        0,
                                        i,
                                    ) == 1 {
                                        None
                                    } else {
                                        Some(LedgerError::UnexplainedFailure)
                                    },
                                },
                            }
                        },
                    }
                },
            },
            _ => Some(LedgerError::Unreadable),
        }
    }
}

/// The price that a payload names.
pub open spec fn named_price(e: EventEnvelopeView) -> Option<Seq<char>> {
    match e.payload {
        PayloadView::LevelAt(x) => x.price,
        _ => None,
    }
}

/// Whether the market implies a touch of a level at its price.
pub open spec fn touch_implied(
    e: EventEnvelopeView,
    index: i32,
    canonical: Decimal,
    level: GridLevelState,
    previous: MarketBarView,
    current: MarketBarView,
) -> bool {
    &&& current.symbol == e.symbol
    &&& current.timestamp == e.event_time
    &&& previous.timestamp.position() < current.timestamp.position()
    &&& crosses(index, canonical, previous.close, current.low, current.high)
    &&& level.price.units() == canonical.units()
    &&& waiting(level.status)
    &&& named_price(e) == Some(decimal_text(canonical.m(), canonical.s()))
}

/// Why the market does not imply a touch, if it does not.
pub open spec fn touch_implication_fault(
    b: Batch,
    e: EventEnvelopeView,
    index: i32,
    previous: MarketBarView,
    current: MarketBarView,
) -> Option<LedgerError> {
    match b.state.audited_config {
        None => Some(LedgerError::MissingConfig),
        Some(c) => match grid_price(grid_of(c), index) {
            Err(g) => Some(LedgerError::Grid(g)),
            Ok(canonical) => match lookup::<i32, GridLevelState>(b.state.levels, index) {
                None => Some(LedgerError::Missing),
                Some(level) => if touch_implied(e, index, canonical, level, previous, current) {
                    None
                } else {
                    Some(LedgerError::TouchNotImplied)
                },
            },
        },
    }
}

/// Whether a touch comes before the decisions on its bar.
pub open spec fn before_decisions(b: Batch, e: EventEnvelopeView) -> bool {
    &&& last_before(
        b.log,
        at_time(e.run_id, EventType::MarketDataReceived, e.symbol, e.event_time),
        b.log.len(),
    ) is Some
    &&& !some_row(
        b.log,
        at_time(e.run_id, EventType::MarketBarDecisionsCommitted, e.symbol, e.event_time),
    )
    &&& !some_row(b.log, at_time(e.run_id, EventType::MarketBarProcessed, e.symbol, e.event_time))
}

/// Whether a touch uses the bar that armed its level again, or an earlier one.
pub open spec fn touched_at_rearm(b: Batch, e: EventEnvelopeView, index: i32) -> bool {
    (last_rearm(b.log, e.run_id, e.symbol, index) matches Some(at) && e.event_time.position()
        <= at.position()) || kin_between(
        b,
        e,
        WantView::RearmSince(index as i64),
        0,
        b.events.len() as int,
    ) > 0
}

/// Why a touch is refused, if it is.
pub open spec fn touch_fault(b: Batch, i: int) -> Option<LedgerError> {
    let e = b.events[i];
    if !new_of(b, i, EventType::GridLevelTouched) {
        None
    } else {
        let recent = last_two(b.log, b.state.run_id);
        if recent.len() != 2 {
            Some(LedgerError::TouchWithoutBars)
        } else {
            match (bar_of(recent[0]), bar_of(recent[1])) {
                (Some(previous), Some(current)) => match small_index(named_index(e.payload)) {
                    None => Some(LedgerError::Unreadable),
                    Some(index) => if !before_decisions(b, e) {
                        Some(LedgerError::WrongStage)
                    } else if some_row(b.log, touch_at(e.run_id, e.symbol, e.event_time, index)) {
                        Some(LedgerError::TouchRepeated)
                    } else if touched_at_rearm(b, e, index) {
                        Some(LedgerError::TouchAtRearm)
                    } else if kin_between(
                        b,
                        e,
                        WantView::TouchOf(index as i64),
                        0,
                        b.events.len() as int,
                    ) != 1 {
                        Some(LedgerError::TouchRepeated)
                    } else {
                        touch_implication_fault(b, e, index, previous, current)
                    },
                },
                _ => Some(LedgerError::Unreadable),
            }
        }
    }
}

/// Why a grant lacks its touch, its decision or its disposition, if it does.
pub open spec fn grant_fault(b: Batch, i: int) -> Option<LedgerError> {
    let e = b.events[i];
    if !new_of(b, i, EventType::GridRightGranted) || e.schema_version < 2 {
        None
    } else {
        match e.payload {
            PayloadView::Right(right) => {
                let price = decimal_text(right.grid_price.m(), right.grid_price.s());
                let end = b.events.len() as int;
                if kin_between(b, e, WantView::TouchAt(right.grid_index as i64, price), 0, i) != 1 {
                    Some(LedgerError::GrantWithoutTouch)
                } else if kin_between(b, e, WantView::DecisionOn(right.right_id), i + 1, end) != 1 {
                    Some(LedgerError::GrantWithoutDecision)
                } else if kin_between(b, e, WantView::DispositionOf(right.right_id), i + 1, end)
                    != 1 {
                    Some(LedgerError::GrantWithoutDisposition)
                } else {
                    None
                }
            },
            _ => Some(LedgerError::Unreadable),
        }
    }
}

/// Why a touch is not resolved by one grant or one skip, if it is not.
pub open spec fn resolution_fault(b: Batch, i: int) -> Option<LedgerError> {
    let e = b.events[i];
    if !new_of(b, i, EventType::GridLevelTouched) {
        None
    } else {
        match named_index(e.payload) {
            None => Some(LedgerError::Unreadable),
            Some(n) => if kin_between(b, e, WantView::GrantAt(n), i + 1, b.events.len() as int)
                + kin_between(b, e, WantView::SkipAt(n), i + 1, b.events.len() as int) != 1 {
                Some(LedgerError::TouchUnresolved)
            } else {
                None
            },
        }
    }
}

/// Why a skip lacks its touch, if it does.
pub open spec fn skip_fault(b: Batch, i: int) -> Option<LedgerError> {
    let e = b.events[i];
    if !new_of(b, i, EventType::GridLevelSkipped) {
        None
    } else {
        match named_index(e.payload) {
            None => Some(LedgerError::Unreadable),
            Some(n) => if kin_between(b, e, WantView::TouchHere(n), 0, i) != 1 {
                Some(LedgerError::SkipWithoutTouch)
            } else {
                None
            },
        }
    }
}

/// Whether a tranche holds something that can still be used.
pub open spec fn usable_tranche(t: RightTrancheView) -> bool {
    t.available_budget.units() > 0 || t.reserved_budget.units() > 0 || t.available_quantity > 0
        || t.reserved_quantity > 0
}

/// Why one of the first `n` tranches that a right names is not its own, if so.
pub open spec fn ownership_fault(
    s: StrategyStateView,
    right_id: Seq<char>,
    ids: Seq<Seq<char>>,
    n: nat,
) -> Option<LedgerError>
    decreases n,
{
    if n == 0 {
        None
    } else {
        match ownership_fault(s, right_id, ids, (n - 1) as nat) {
            Some(e) => Some(e),
            None => match lookup::<String, RightTrancheView>(s.right_tranches, ids[n - 1]) {
                None => Some(LedgerError::OmittedTranche),
                Some(t) => if usable_tranche(t) && t.owner_right_id != right_id {
                    Some(LedgerError::TrancheNotTransferred)
                } else {
                    None
                },
            },
        }
    }
}

/// Why a granted right does not own what it names, if it does not.
pub open spec fn tranches_fault(b: Batch, i: int) -> Option<LedgerError> {
    let e = b.events[i];
    if !new_of(b, i, EventType::GridRightGranted) || e.schema_version < 2 {
        None
    } else {
        match e.payload {
            PayloadView::Right(right) => ownership_fault(
                b.state,
                right.right_id,
                right.capacity.tranche_ids,
                right.capacity.tranche_ids.len(),
            ),
            _ => Some(LedgerError::Unreadable),
        }
    }
}

/// Whether an event begins a cycle.
pub open spec fn begins_cycle(b: Batch, i: int) -> bool {
    &&& fresh(b, i)
    &&& b.events[i].schema_version >= 2
    &&& b.events[i].event_type == EventType::GridCycleStarted || b.events[i].event_type
        == EventType::GridCycleReset
}

/// The cycle that an event begins.
pub open spec fn cycle_begun(e: EventEnvelopeView) -> Option<Seq<char>> {
    if e.event_type == EventType::GridCycleStarted {
        Some(e.cycle_id)
    } else {
        match e.payload {
            PayloadView::Reset(x) => x.cycle_id,
            _ => None,
        }
    }
}

/// Why an event that begins a cycle does not say which, if it does not.
pub open spec fn reset_target_fault(b: Batch, i: int) -> Option<LedgerError> {
    if begins_cycle(b, i) && cycle_begun(b.events[i]) is None {
        Some(LedgerError::Unreadable)
    } else {
        None
    }
}

/// How many new events there are between two positions.
pub open spec fn fresh_between(b: Batch, from: int, to: int) -> nat
    decreases to - from,
{
    if to <= from {
        0
    } else {
        fresh_between(b, from, to - 1) + if fresh(b, to - 1) {
            1nat
        } else {
            0nat
        }
    }
}

/// Whether an event arms a level of a cycle.
pub open spec fn arms(e: EventEnvelopeView, cycle: Seq<char>) -> bool {
    e.event_type == EventType::GridLevelArmed && e.cycle_id == cycle
}

/// The level that an event arms.
pub open spec fn level_armed_by(e: EventEnvelopeView) -> Option<GridLevelState> {
    match e.payload {
        PayloadView::Level(x) => Some(x),
        _ => None,
    }
}

/// Whether an event arms a level.
pub open spec fn arms_index(e: EventEnvelopeView, index: i32) -> bool {
    level_armed_by(e) matches Some(level) && level.index == index
}

/// Whether a new event between two positions arms a level.
pub open spec fn armed_between(b: Batch, index: i32, from: int, to: int) -> bool {
    exists|k: int|
        from <= k < to && fresh(b, k) && #[trigger] arms_index(b.events[k], index)
}

/// Why a level is not armed once and at its price, if it is not.
pub open spec fn arm_fault(
    b: Batch,
    canonical: Seq<(i32, GridLevelState)>,
    from: int,
    k: int,
) -> Option<LedgerError> {
    if !fresh(b, k) {
        None
    } else {
        match level_armed_by(b.events[k]) {
            None => Some(LedgerError::Unreadable),
            Some(level) => if armed_between(b, level.index, from, k) || !(lookup::<
                i32,
                GridLevelState,
            >(canonical, level.index) matches Some(expected) && expected.price.units()
                == level.price.units()) {
                Some(LedgerError::ForeignLevel)
            } else {
                None
            },
        }
    }
}

/// Why one of the levels armed between two positions is not in order, if so.
pub open spec fn arms_fault(
    b: Batch,
    canonical: Seq<(i32, GridLevelState)>,
    from: int,
    to: int,
) -> Option<LedgerError>
    decreases to - from,
{
    if to <= from {
        None
    } else {
        match arms_fault(b, canonical, from, to - 1) {
            Some(e) => Some(e),
            None => arm_fault(b, canonical, from, to - 1),
        }
    }
}

/// Whether all new events from a position on arm levels of a cycle.
pub open spec fn only_arms(b: Batch, cycle: Seq<char>, from: int) -> bool {
    forall|k: int|
        from <= k < b.events.len() && fresh(b, k) ==> arms(#[trigger] b.events[k], cycle)
}

/// The grid that the state is audited to have.
pub open spec fn audited_grid(s: StrategyStateView) -> Seq<(i32, GridLevelState)> {
    all_levels(grid_of(s.audited_config->0))
}

/// Why a cycle does not arm its whole grid, if it does not.
pub open spec fn cycle_fault(b: Batch, i: int) -> Option<LedgerError> {
    let canonical = audited_grid(b.state);
    let end = b.events.len() as int;
    if !begins_cycle(b, i) {
        None
    } else {
        match cycle_begun(b.events[i]) {
            None => Some(LedgerError::Unreadable),
            Some(cycle) => if fresh_between(b, i + 1, end) != canonical.len() || !only_arms(
                b,
                cycle,
                i + 1,
            ) {
                Some(LedgerError::GridIncomplete)
            } else {
                arms_fault(b, canonical, i + 1, end)
            },
        }
    }
}

/// How many of the first `n` events begin a cycle.
pub open spec fn owners(b: Batch, cycle: Seq<char>, n: nat) -> nat
    decreases n,
{
    if n == 0 {
        0
    } else {
        owners(b, cycle, (n - 1) as nat) + if begins_cycle(b, n - 1) && cycle_begun(b.events[n - 1])
            == Some(cycle) {
            1nat
        } else {
            0nat
        }
    }
}

/// Why an armed level is not of one cycle of the batch, if it is not.
pub open spec fn arm_owner_fault(b: Batch, i: int) -> Option<LedgerError> {
    let e = b.events[i];
    if new_of(b, i, EventType::GridLevelArmed) && e.schema_version >= 2 && owners(
        b,
        e.cycle_id,
        i as nat,
    ) != 1 {
        Some(LedgerError::ArmWithoutCycle)
    } else {
        None
    }
}

/// What a check says of an event.
pub open spec fn event_fault(b: Batch, check: BatchCheck, i: int) -> Option<LedgerError> {
    match check {
        BatchCheck::Layout => layout_fault(b, i),
        BatchCheck::OpeningEvaluation => opening_evaluation_fault(b, i),
        BatchCheck::OpeningIntent => opening_intent_fault(b, i),
        BatchCheck::Market => market_fault(b, i),
        BatchCheck::Stage => stage_in_batch_fault(b, i),
        BatchCheck::Failure => failure_fault(b, i),
        BatchCheck::Touch => touch_fault(b, i),
        BatchCheck::Grant => grant_fault(b, i),
        BatchCheck::Resolution => resolution_fault(b, i),
        BatchCheck::Skip => skip_fault(b, i),
        BatchCheck::Tranches => tranches_fault(b, i),
        BatchCheck::ResetTarget => reset_target_fault(b, i),
        BatchCheck::Cycle => cycle_fault(b, i),
        BatchCheck::Arm => arm_owner_fault(b, i),
    }
}

/// What a check says of the first of `n` events of which it says anything.
pub open spec fn first_fault(b: Batch, check: BatchCheck, n: nat) -> Option<LedgerError>
    decreases n,
{
    if n == 0 {
        None
    } else {
        match first_fault(b, check, (n - 1) as nat) {
            Some(e) => Some(e),
            None => event_fault(b, check, n - 1),
        }
    }
}

/// What a check says of a batch.
pub open spec fn check_fault(b: Batch, check: BatchCheck) -> Option<LedgerError> {
    first_fault(b, check, b.events.len())
}

/// Whether a batch begins a cycle or arms levels.
pub open spec fn controls_cycle(b: Batch) -> bool {
    exists|i: int|
        0 <= i < b.events.len() && (begins_cycle(b, i) || (fresh(b, i) && (#[trigger] b.events[i]).schema_version
            >= 2 && b.events[i].event_type == EventType::GridLevelArmed))
}

/// Why the cycles of a batch are not whole, if they are not.
pub open spec fn cycles_fault(b: Batch) -> Option<LedgerError> {
    if !controls_cycle(b) {
        None
    } else {
        match b.state.audited_config {
            None => Some(LedgerError::MissingConfig),
            Some(c) => match grid_fault(grid_of(c)) {
                Some(g) => Some(LedgerError::Grid(g)),
                None => match check_fault(b, BatchCheck::ResetTarget) {
                    Some(e) => Some(e),
                    None => match check_fault(b, BatchCheck::Cycle) {
                        Some(e) => Some(e),
                        None => check_fault(b, BatchCheck::Arm),
                    },
                },
            },
        }
    }
}

/// Why a batch is refused before it is projected, if it is.
pub open spec fn offered_fault(b: Batch) -> Option<LedgerError> {
    match check_fault(b, BatchCheck::Layout) {
        Some(e) => Some(e),
        None => match check_fault(b, BatchCheck::OpeningEvaluation) {
            Some(e) => Some(e),
            None => match check_fault(b, BatchCheck::OpeningIntent) {
                Some(e) => Some(e),
                None => match latest_bar(b.log, b.state.run_id) {
                    Err(e) => Some(e),
                    Ok(_) => match check_fault(b, BatchCheck::Market) {
                        Some(e) => Some(e),
                        None => match check_fault(b, BatchCheck::Stage) {
                            Some(e) => Some(e),
                            None => match check_fault(b, BatchCheck::Failure) {
                                Some(e) => Some(e),
                                None => check_fault(b, BatchCheck::Touch),
                            },
                        },
                    },
                },
            },
        },
    }
}

/// Why a batch is refused after it is projected, if it is. The state of the
/// batch is the projected one.
pub open spec fn projected_fault(b: Batch) -> Option<LedgerError> {
    match cycles_fault(b) {
        Some(e) => Some(e),
        None => match check_fault(b, BatchCheck::Grant) {
            Some(e) => Some(e),
            None => match check_fault(b, BatchCheck::Resolution) {
                Some(e) => Some(e),
                None => match check_fault(b, BatchCheck::Skip) {
                    Some(e) => Some(e),
                    None => check_fault(b, BatchCheck::Tranches),
                },
            },
        },
    }
}

proof fn lemma_first_fault_stays(b: Batch, check: BatchCheck, n: nat, m: nat)
    requires
        n <= m,
        first_fault(b, check, n) is Some,
    ensures
        first_fault(b, check, m) == first_fault(b, check, n),
    decreases m - n,
{
    if n < m {
        lemma_first_fault_stays(b, check, n, (m - 1) as nat);
    }
}

proof fn lemma_arms_fault_stays(
    b: Batch,
    canonical: Seq<(i32, GridLevelState)>,
    from: int,
    n: int,
    m: int,
)
    requires
        from <= n <= m,
        arms_fault(b, canonical, from, n) is Some,
    ensures
        arms_fault(b, canonical, from, m) == arms_fault(b, canonical, from, n),
    decreases m - n,
{
    if n < m {
        lemma_arms_fault_stays(b, canonical, from, n, m - 1);
    }
}

proof fn lemma_ownership_stays(
    s: StrategyStateView,
    right_id: Seq<char>,
    ids: Seq<Seq<char>>,
    n: nat,
    m: nat,
)
    requires
        n <= m,
        ownership_fault(s, right_id, ids, n) is Some,
    ensures
        ownership_fault(s, right_id, ids, m) == ownership_fault(s, right_id, ids, n),
    decreases m - n,
{
    if n < m {
        lemma_ownership_stays(s, right_id, ids, n, (m - 1) as nat);
    }
}

fn first_reason(reasons: &Vec<String>) -> (r: Option<&String>)
    ensures
        match failure_reason(reasons.deep_view(), 0) {
            Some(x) => r matches Some(y) && y@ == x,
            None => r is None,
        },
{
    let ghost all = reasons.deep_view();
    let mut k: usize = 0;
    while k < reasons.len()
        invariant
            k <= reasons.len(),
            all == reasons.deep_view(),
            failure_reason(all, 0) == failure_reason(all, k as nat),
        decreases reasons.len() - k,
    {
        assert(all[k as int] == reasons[k as int]@);
        if !text_eq(reasons[k].as_str(), "RESOURCE_FAIL_CLOSED") {
            return Some(&reasons[k]);
        }
        k = k + 1;
    }
    None
}

impl RightTranche {
    fn is_usable(&self) -> (r: bool)
        ensures
            r == usable_tranche(self@),
    {
        self.available_budget.is_positive() || self.reserved_budget.is_positive()
            || self.available_quantity > 0 || self.reserved_quantity > 0
    }
}

impl EventEnvelope {
    fn names_price(&self, price: &str) -> (r: bool)
        ensures
            r == (named_price(self@) == Some(price@)),
    {
        match &self.payload {
            Payload::LevelAt(x) => match &x.price {
                Some(text) => text_eq(text.as_str(), price),
                None => false,
            },
            _ => false,
        }
    }

    fn begun_cycle(&self) -> (r: Option<&String>)
        ensures
            match cycle_begun(self@) {
                Some(x) => r matches Some(y) && y@ == x,
                None => r is None,
            },
    {
        if self.event_type == EventType::GridCycleStarted {
            return Some(&self.cycle_id);
        }
        match &self.payload {
            Payload::Reset(x) => match &x.cycle_id {
                Some(id) => Some(id),
                None => None,
            },
            _ => None,
        }
    }

    fn armed_level(&self) -> (r: Option<GridLevelState>)
        ensures
            r == level_armed_by(self@),
    {
        match &self.payload {
            Payload::Level(x) => Some(*x),
            _ => None,
        }
    }
}

impl<'a> Desk<'a> {
    pub(crate) fn check_layout(&self, i: usize) -> (r: Option<LedgerError>)
        requires
            self.flagged(),
            i < self@.events.len(),
        ensures
            r == layout_fault(self@, i as int),
    {
        if !self.is_fresh[i] {
            return None;
        }
        let e = self.event(i);
        if e.schema_version != current_event_schema(e.event_type) {
            return Some(LedgerError::OldLayout);
        }
        match validate_current_opportunity_binding(self.state, e) {
            Ok(_) => None,
            Err(x) => Some(x),
        }
    }

    fn check_opening_evaluation(&self, i: usize) -> (r: Option<LedgerError>)
        requires
            self.flagged(),
            i < self@.events.len(),
        ensures
            r == opening_evaluation_fault(self@, i as int),
    {
        if !self.is_new_of(i, EventType::InitialDeploymentEvaluated) {
            return None;
        }
        let e = self.event(i);
        match &e.payload {
            Payload::Evaluation(x) => {
                let end: usize = self.events.len();
                let intents: usize = self.count(
                    e,
                    &Want::OpeningIntent(x.deployment_id.as_str()),
                    i + 1,
                    end,
                );
                let expected: usize = if matches!(
                    x.outcome,
                    InitialDeploymentOutcome::Authorized
                ) {
                    1
                } else {
                    0
                };
                if intents == expected {
                    None
                } else {
                    Some(LedgerError::OpeningIntent)
                }
            },
            _ => Some(LedgerError::Unreadable),
        }
    }

    fn check_opening_intent(&self, i: usize) -> (r: Option<LedgerError>)
        requires
            self.flagged(),
            i < self@.events.len(),
        ensures
            r == opening_intent_fault(self@, i as int),
    {
        if !self.is_new_of(i, EventType::OrderIntentCreated) {
            return None;
        }
        let e = self.event(i);
        match &e.payload {
            Payload::Intent(order) => match &order.intent.origin {
                None => None,
                Some(origin) => {
                    if self.count(
                        e,
                        &Want::OpeningEvaluation(origin.deployment_id.as_str()),
                        0,
                        i,
                    ) == 1 {
                        None
                    } else {
                        Some(LedgerError::OpeningEvaluation)
                    }
                },
            },
            _ => Some(LedgerError::Unreadable),
        }
    }

    fn preceding_bar(&self, i: usize) -> (r: Option<MarketBar>)
        requires
            self.flagged(),
            i < self@.events.len(),
        ensures
            r.deep_view() == bar_before(self@, i as int),
    {
        let mut n: usize = i;
        while n > 0
            invariant
                n <= i < self@.events.len(),
                self.flagged(),
                bar_before(self@, i as int) == bar_before(self@, n as int),
            decreases n,
        {
            if self.is_new_of(n - 1, EventType::MarketDataReceived) {
                return match self.event(n - 1).bar() {
                    Some(bar) => Some(bar.dup()),
                    None => None,
                };
            }
            n = n - 1;
        }
        match self.journal.latest_bar(self.state.run_id.as_str()) {
            Ok(bar) => bar,
            Err(_) => None,
        }
    }

    fn check_market(&self, i: usize) -> (r: Option<LedgerError>)
        requires
            self.flagged(),
            i < self@.events.len(),
        ensures
            r == market_fault(self@, i as int),
    {
        if !self.is_new_of(i, EventType::MarketDataReceived) {
            return None;
        }
        match self.event(i).bar() {
            None => Some(LedgerError::Unreadable),
            Some(bar) => {
                let stale = match self.preceding_bar(i) {
                    Some(previous) => !previous.timestamp.before(&bar.timestamp),
                    None => false,
                };
                if stale {
                    Some(LedgerError::StaleMarket)
                } else {
                    None
                }
            },
        }
    }

    fn check_stage(&self, i: usize) -> (r: Option<LedgerError>)
        requires
            self.flagged(),
            i < self@.events.len(),
        ensures
            r == stage_in_batch_fault(self@, i as int),
    {
        if self.is_new_of(i, EventType::MarketBarDecisionsCommitted) || self.is_new_of(
            i,
            EventType::MarketBarProcessed,
        ) {
            Some(LedgerError::StageInBatch)
        } else {
            None
        }
    }

    fn check_failure(&self, i: usize) -> (r: Option<LedgerError>)
        requires
            self.flagged(),
            i < self@.events.len(),
        ensures
            r == failure_fault(self@, i as int),
    {
        let e = self.event(i);
        if !self.is_new_of(i, EventType::GateDecisionMade) || e.schema_version < 4 {
            return None;
        }
        let d = match &e.payload {
            Payload::Decision(d) => d,
            _ => {
                return Some(LedgerError::Unreadable);
            },
        };
        match &d.request {
            None => {
                return Some(LedgerError::Unreadable);
            },
            Some(request) => {
                if request.contract_version != DECISION_CONTRACT_VERSION {
                    return None;
                }
            },
        }
        match d.algorithm_succeeded {
            None => {
                return Some(LedgerError::Unreadable);
            },
            Some(succeeded) => {
                if succeeded {
                    return None;
                }
            },
        }
        match &d.response {
            None => Some(LedgerError::Unreadable),
            Some(response) => match first_reason(&response.decision.reason_codes) {
                None => Some(LedgerError::Unreadable),
                Some(reason) => {
                    if self.count(e, &Want::GateError(reason.as_str()), 0, i) == 1 {
                        None
                    } else {
                        Some(LedgerError::UnexplainedFailure)
                    }
                },
            },
        }
    }

    fn check_implication(
        &self,
        e: &EventEnvelope,
        index: i32,
        previous: &MarketBar,
        current: &MarketBar,
    ) -> (r: Option<LedgerError>)
        ensures
            r == touch_implication_fault(self@, e@, index, previous@, current@),
    {
        let config = match &self.state.audited_config {
            Some(config) => config,
            None => {
                return Some(LedgerError::MissingConfig);
            },
        };
        let canonical = match GridSpec::from(config).price(index) {
            Ok(price) => price,
            Err(g) => {
                return Some(LedgerError::Grid(g));
            },
        };
        let level = match self.state.levels.get(&index) {
            Some(level) => level,
            None => {
                return Some(LedgerError::Missing);
            },
        };
        let text = canonical.text();
        let crossed = crosses_level(index, canonical, previous.close, current.low, current.high);
        if text_eq(current.symbol.as_str(), e.symbol.as_str()) && current.timestamp.same(
            &e.event_time,
        ) && previous.timestamp.before(&current.timestamp) && crossed && level.price.equals(
            &canonical,
        ) && matches!(level.status, GridLevelStatus::Armed | GridLevelStatus::Rearmed)
            && e.names_price(text.as_str()) {
            None
        } else {
            Some(LedgerError::TouchNotImplied)
        }
    }

    fn is_before_decisions(&self, e: &EventEnvelope) -> (r: bool)
        ensures
            r == before_decisions(self@, e@),
    {
        let run_id = e.run_id.as_str();
        let symbol = e.symbol.as_str();
        self.journal.market_payload_at(run_id, symbol, e.event_time).is_some()
            && !self.journal.has_market_stage(
            run_id,
            EventType::MarketBarDecisionsCommitted,
            symbol,
            e.event_time,
        ) && !self.journal.has_market_stage(
            run_id,
            EventType::MarketBarProcessed,
            symbol,
            e.event_time,
        )
    }

    fn is_touched_at_rearm(&self, e: &EventEnvelope, index: i32) -> (r: bool)
        requires
            self.flagged(),
        ensures
            r == touched_at_rearm(self@, e@, index),
    {
        let earlier = match self.journal.latest_grid_rearm_time(
            e.run_id.as_str(),
            e.symbol.as_str(),
            index,
        ) {
            Some(at) => !at.before(&e.event_time),
            None => false,
        };
        earlier || self.count(e, &Want::RearmSince(index as i64), 0, self.events.len()) > 0
    }

    fn check_touch(&self, i: usize) -> (r: Option<LedgerError>)
        requires
            self.flagged(),
            i < self@.events.len(),
        ensures
            r == touch_fault(self@, i as int),
    {
        if !self.is_new_of(i, EventType::GridLevelTouched) {
            return None;
        }
        let e = self.event(i);
        let recent = self.journal.recent_payloads_by_type(
            self.state.run_id.as_str(),
            EventType::MarketDataReceived,
            2,
        );
        if recent.len() != 2 {
            return Some(LedgerError::TouchWithoutBars);
        }
        assert(recent.deep_view()[0] == recent[0]@ && recent.deep_view()[1] == recent[1]@);
        let (previous, current) = match (recent[0].bar(), recent[1].bar()) {
            (Some(previous), Some(current)) => (previous, current),
            _ => {
                return Some(LedgerError::Unreadable);
            },
        };
        let index: i32 = match index_in_range(e.payload.grid_index()) {
            Some(index) => index,
            None => {
                return Some(LedgerError::Unreadable);
            },
        };
        if !self.is_before_decisions(e) {
            return Some(LedgerError::WrongStage);
        }
        if self.journal.has_grid_touch(e.run_id.as_str(), e.symbol.as_str(), e.event_time, index) {
            return Some(LedgerError::TouchRepeated);
        }
        if self.is_touched_at_rearm(e, index) {
            return Some(LedgerError::TouchAtRearm);
        }
        if self.count(e, &Want::TouchOf(index as i64), 0, self.events.len()) != 1 {
            return Some(LedgerError::TouchRepeated);
        }
        self.check_implication(e, index, previous, current)
    }

    fn check_grant(&self, i: usize) -> (r: Option<LedgerError>)
        requires
            self.flagged(),
            i < self@.events.len(),
        ensures
            r == grant_fault(self@, i as int),
    {
        let e = self.event(i);
        if !self.is_new_of(i, EventType::GridRightGranted) || e.schema_version < 2 {
            return None;
        }
        let right = match &e.payload {
            Payload::Right(right) => right,
            _ => {
                return Some(LedgerError::Unreadable);
            },
        };
        let price = right.grid_price.text();
        let id = right.right_id.as_str();
        let end: usize = self.events.len();
        if self.count(e, &Want::TouchAt(right.grid_index as i64, price.as_str()), 0, i) != 1 {
            return Some(LedgerError::GrantWithoutTouch);
        }
        if self.count(e, &Want::DecisionOn(id), i + 1, end) != 1 {
            return Some(LedgerError::GrantWithoutDecision);
        }
        if self.count(e, &Want::DispositionOf(id), i + 1, end) != 1 {
            return Some(LedgerError::GrantWithoutDisposition);
        }
        None
    }

    fn check_resolution(&self, i: usize) -> (r: Option<LedgerError>)
        requires
            self.flagged(),
            i < self@.events.len(),
        ensures
            r == resolution_fault(self@, i as int),
    {
        if !self.is_new_of(i, EventType::GridLevelTouched) {
            return None;
        }
        let e = self.event(i);
        let end: usize = self.events.len();
        match e.payload.grid_index() {
            None => Some(LedgerError::Unreadable),
            Some(n) => {
                let grants: usize = self.count(e, &Want::GrantAt(n), i + 1, end);
                let skips: usize = self.count(e, &Want::SkipAt(n), i + 1, end);
                if (grants == 1 && skips == 0) || (grants == 0 && skips == 1) {
                    None
                } else {
                    Some(LedgerError::TouchUnresolved)
                }
            },
        }
    }

    fn check_skip(&self, i: usize) -> (r: Option<LedgerError>)
        requires
            self.flagged(),
            i < self@.events.len(),
        ensures
            r == skip_fault(self@, i as int),
    {
        if !self.is_new_of(i, EventType::GridLevelSkipped) {
            return None;
        }
        let e = self.event(i);
        match e.payload.grid_index() {
            None => Some(LedgerError::Unreadable),
            Some(n) => {
                if self.count(e, &Want::TouchHere(n), 0, i) != 1 {
                    Some(LedgerError::SkipWithoutTouch)
                } else {
                    None
                }
            },
        }
    }

    fn check_tranches(&self, i: usize) -> (r: Option<LedgerError>)
        requires
            self.flagged(),
            i < self@.events.len(),
        ensures
            r == tranches_fault(self@, i as int),
    {
        let e = self.event(i);
        if !self.is_new_of(i, EventType::GridRightGranted) || e.schema_version < 2 {
            return None;
        }
        let right = match &e.payload {
            Payload::Right(right) => right,
            _ => {
                return Some(LedgerError::Unreadable);
            },
        };
        let ids = &right.capacity.tranche_ids;
        let ghost all = ids.deep_view();
        let ghost s = self.state@;
        let mut k: usize = 0;
        while k < ids.len()
            invariant
                k <= ids.len(),
                all == ids.deep_view(),
                all == right@.capacity.tranche_ids,
                s == self.state@,
                ownership_fault(s, right@.right_id, all, k as nat) is None,
                e@.payload == PayloadView::Right(right@),
                tranches_fault(self@, i as int) == ownership_fault(
                    s,
                    right@.right_id,
                    all,
                    all.len(),
                ),
            decreases ids.len() - k,
        {
            assert(all[k as int] == ids[k as int]@);
            let fault = match self.state.right_tranches.get(&ids[k]) {
                None => Some(LedgerError::OmittedTranche),
                Some(t) => if t.is_usable() && !text_eq(
                    t.owner_right_id.as_str(),
                    right.right_id.as_str(),
                ) {
                    Some(LedgerError::TrancheNotTransferred)
                } else {
                    None
                },
            };
            if let Some(x) = fault {
                proof {
                    lemma_ownership_stays(s, right@.right_id, all, (k + 1) as nat, all.len());
                }
                return Some(x);
            }
            k = k + 1;
        }
        None
    }

    fn does_begin_cycle(&self, i: usize) -> (r: bool)
        requires
            self.flagged(),
            i < self@.events.len(),
        ensures
            r == begins_cycle(self@, i as int),
    {
        let e = self.event(i);
        self.is_fresh[i] && e.schema_version >= 2 && (e.event_type == EventType::GridCycleStarted
            || e.event_type == EventType::GridCycleReset)
    }

    fn check_reset_target(&self, i: usize) -> (r: Option<LedgerError>)
        requires
            self.flagged(),
            i < self@.events.len(),
        ensures
            r == reset_target_fault(self@, i as int),
    {
        if self.does_begin_cycle(i) && self.event(i).begun_cycle().is_none() {
            Some(LedgerError::Unreadable)
        } else {
            None
        }
    }

    fn is_armed_between(&self, index: i32, from: usize, to: usize) -> (r: bool)
        requires
            self.flagged(),
            from <= to <= self@.events.len(),
        ensures
            r == armed_between(self@, index, from as int, to as int),
    {
        let mut k: usize = from;
        while k < to
            invariant
                from <= k <= to <= self@.events.len(),
                self.flagged(),
                forall|j: int|
                    from <= j < k && fresh(self@, j) ==> !(#[trigger] arms_index(
                        self@.events[j],
                        index,
                    )),
            decreases to - k,
        {
            if self.is_fresh[k] {
                if let Some(level) = self.event(k).armed_level() {
                    if level.index == index {
                        assert(arms_index(self@.events[k as int], index));
                        return true;
                    }
                }
            }
            k = k + 1;
        }
        false
    }

    fn check_arm(&self, canonical: &Table<i32, GridLevelState>, from: usize, k: usize) -> (r: Option<
        LedgerError,
    >)
        requires
            self.flagged(),
            from <= k < self@.events.len(),
        ensures
            r == arm_fault(self@, canonical@, from as int, k as int),
    {
        if !self.is_fresh[k] {
            return None;
        }
        match self.event(k).armed_level() {
            None => Some(LedgerError::Unreadable),
            Some(level) => {
                let at_price = match canonical.get(&level.index) {
                    Some(expected) => expected.price.equals(&level.price),
                    None => false,
                };
                if self.is_armed_between(level.index, from, k) || !at_price {
                    Some(LedgerError::ForeignLevel)
                } else {
                    None
                }
            },
        }
    }

    fn check_cycle(&self, canonical: &Table<i32, GridLevelState>, i: usize) -> (r: Option<
        LedgerError,
    >)
        requires
            self.flagged(),
            i < self@.events.len(),
            canonical@ == audited_grid(self@.state),
        ensures
            r == cycle_fault(self@, i as int),
    {
        if !self.does_begin_cycle(i) {
            return None;
        }
        let cycle = match self.event(i).begun_cycle() {
            Some(cycle) => cycle,
            None => {
                return Some(LedgerError::Unreadable);
            },
        };
        let end: usize = self.events.len();
        let mut total: usize = 0;
        let mut only = true;
        let mut k: usize = i + 1;
        while k < end
            invariant
                i + 1 <= k <= end == self@.events.len(),
                self.flagged(),
                total <= k,
                total == fresh_between(self@, i + 1, k as int),
                only == forall|j: int|
                    i + 1 <= j < k && fresh(self@, j) ==> arms(#[trigger] self@.events[j], cycle@),
            decreases end - k,
        {
            if self.is_fresh[k] {
                total = total + 1;
                let e = self.event(k);
                if !(e.event_type == EventType::GridLevelArmed && text_eq(
                    e.cycle_id.as_str(),
                    cycle.as_str(),
                )) {
                    assert(!arms(self@.events[k as int], cycle@));
                    only = false;
                }
            }
            k = k + 1;
        }
        if total != canonical.len() || !only {
            return Some(LedgerError::GridIncomplete);
        }
        let mut n: usize = i + 1;
        while n < end
            invariant
                i + 1 <= n <= end == self@.events.len(),
                self.flagged(),
                arms_fault(self@, canonical@, i + 1, n as int) is None,
                cycle_fault(self@, i as int) == arms_fault(self@, canonical@, i + 1, end as int),
            decreases end - n,
        {
            if let Some(x) = self.check_arm(canonical, i + 1, n) {
                proof {
                    lemma_arms_fault_stays(self@, canonical@, i + 1, n + 1, end as int);
                }
                return Some(x);
            }
            n = n + 1;
        }
        None
    }

    fn check_arm_owner(&self, i: usize) -> (r: Option<LedgerError>)
        requires
            self.flagged(),
            i < self@.events.len(),
        ensures
            r == arm_owner_fault(self@, i as int),
    {
        let e = self.event(i);
        if !self.is_new_of(i, EventType::GridLevelArmed) || e.schema_version < 2 {
            return None;
        }
        let mut total: usize = 0;
        let mut n: usize = 0;
        while n < i
            invariant
                n <= i < self@.events.len(),
                self.flagged(),
                total <= n,
                total == owners(self@, e@.cycle_id, n as nat),
            decreases i - n,
        {
            if self.does_begin_cycle(n) {
                if let Some(cycle) = self.event(n).begun_cycle() {
                    if text_eq(cycle.as_str(), e.cycle_id.as_str()) {
                        total = total + 1;
                    }
                }
            }
            n = n + 1;
        }
        if total != 1 {
            Some(LedgerError::ArmWithoutCycle)
        } else {
            None
        }
    }

    fn check_event(&self, check: BatchCheck, canonical: &Table<i32, GridLevelState>, i: usize) -> (r:
        Option<LedgerError>)
        requires
            self.flagged(),
            i < self@.events.len(),
            check == BatchCheck::Cycle ==> canonical@ == audited_grid(self@.state),
        ensures
            r == event_fault(self@, check, i as int),
    {
        match check {
            BatchCheck::Layout => self.check_layout(i),
            BatchCheck::OpeningEvaluation => self.check_opening_evaluation(i),
            BatchCheck::OpeningIntent => self.check_opening_intent(i),
            BatchCheck::Market => self.check_market(i),
            BatchCheck::Stage => self.check_stage(i),
            BatchCheck::Failure => self.check_failure(i),
            BatchCheck::Touch => self.check_touch(i),
            BatchCheck::Grant => self.check_grant(i),
            BatchCheck::Resolution => self.check_resolution(i),
            BatchCheck::Skip => self.check_skip(i),
            BatchCheck::Tranches => self.check_tranches(i),
            BatchCheck::ResetTarget => self.check_reset_target(i),
            BatchCheck::Cycle => self.check_cycle(canonical, i),
            BatchCheck::Arm => self.check_arm_owner(i),
        }
    }

    fn check(&self, check: BatchCheck, canonical: &Table<i32, GridLevelState>) -> (r: Option<
        LedgerError,
    >)
        requires
            self.flagged(),
            check == BatchCheck::Cycle ==> canonical@ == audited_grid(self@.state),
        ensures
            r == check_fault(self@, check),
    {
        let end: usize = self.events.len();
        let mut i: usize = 0;
        while i < end
            invariant
                i <= end == self@.events.len(),
                self.flagged(),
                check == BatchCheck::Cycle ==> canonical@ == audited_grid(self@.state),
                first_fault(self@, check, i as nat) is None,
            decreases end - i,
        {
            if let Some(x) = self.check_event(check, canonical, i) {
                proof {
                    lemma_first_fault_stays(self@, check, (i + 1) as nat, end as nat);
                }
                return Some(x);
            }
            i = i + 1;
        }
        None
    }

    fn does_control_cycle(&self) -> (r: bool)
        requires
            self.flagged(),
        ensures
            r == controls_cycle(self@),
    {
        let end: usize = self.events.len();
        let mut i: usize = 0;
        while i < end
            invariant
                i <= end == self@.events.len(),
                self.flagged(),
                forall|k: int|
                    0 <= k < i ==> !(begins_cycle(self@, k) || (fresh(self@, k) && (
                    #[trigger] self@.events[k]).schema_version >= 2 && self@.events[k].event_type
                        == EventType::GridLevelArmed)),
            decreases end - i,
        {
            let e = self.event(i);
            if self.does_begin_cycle(i) || (self.is_fresh[i] && e.schema_version >= 2
                && e.event_type == EventType::GridLevelArmed) {
                assert(self@.events[i as int] == e@);
                return true;
            }
            i = i + 1;
        }
        false
    }

    /// Checks that the cycles of a batch are whole. The state is the projected
    /// one.
    pub fn validate_current_cycle_batch(&self) -> (r: Result<(), LedgerError>)
        requires
            self.flagged(),
        ensures
            r == (match cycles_fault(self@) {
                Some(e) => Err::<(), LedgerError>(e),
                None => Ok::<(), LedgerError>(()),
            }),
    {
        if !self.does_control_cycle() {
            return Ok(());
        }
        let config = match &self.state.audited_config {
            Some(config) => config,
            None => {
                return Err(LedgerError::MissingConfig);
            },
        };
        let canonical = match GridSpec::from(config).levels() {
            Ok(levels) => levels,
            Err(g) => {
                return Err(LedgerError::Grid(g));
            },
        };
        if let Some(e) = self.check(BatchCheck::ResetTarget, &canonical) {
            return Err(e);
        }
        if let Some(e) = self.check(BatchCheck::Cycle, &canonical) {
            return Err(e);
        }
        match self.check(BatchCheck::Arm, &canonical) {
            Some(e) => Err(e),
            None => Ok(()),
        }
    }

    /// Checks a batch before it is projected.
    pub(crate) fn check_offered(&self) -> (r: Option<LedgerError>)
        requires
            self.flagged(),
        ensures
            r == offered_fault(self@),
    {
        let unused: Table<i32, GridLevelState> = Table::new();
        if let Some(e) = self.check(BatchCheck::Layout, &unused) {
            return Some(e);
        }
        if let Some(e) = self.check(BatchCheck::OpeningEvaluation, &unused) {
            return Some(e);
        }
        if let Some(e) = self.check(BatchCheck::OpeningIntent, &unused) {
            return Some(e);
        }
        if let Err(e) = self.journal.latest_bar(self.state.run_id.as_str()) {
            return Some(e);
        }
        if let Some(e) = self.check(BatchCheck::Market, &unused) {
            return Some(e);
        }
        if let Some(e) = self.check(BatchCheck::Stage, &unused) {
            return Some(e);
        }
        if let Some(e) = self.check(BatchCheck::Failure, &unused) {
            return Some(e);
        }
        self.check(BatchCheck::Touch, &unused)
    }

    /// Checks a batch after it is projected. The state is the projected one.
    pub(crate) fn check_projected(&self) -> (r: Option<LedgerError>)
        requires
            self.flagged(),
        ensures
            r == projected_fault(self@),
    {
        let unused: Table<i32, GridLevelState> = Table::new();
        if let Err(e) = self.validate_current_cycle_batch() {
            return Some(e);
        }
        if let Some(e) = self.check(BatchCheck::Grant, &unused) {
            return Some(e);
        }
        if let Some(e) = self.check(BatchCheck::Resolution, &unused) {
            return Some(e);
        }
        if let Some(e) = self.check(BatchCheck::Skip, &unused) {
            return Some(e);
        }
        self.check(BatchCheck::Tranches, &unused)
    }
}

} // verus!

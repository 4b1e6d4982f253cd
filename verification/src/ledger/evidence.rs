//! What a new event has to be backed by.
use crate::audit::InvariantViolation;
use crate::clock::Moment;
use crate::decimal::{decimal_text, minus, Decimal};
use crate::decision::DECISION_CONTRACT_VERSION;
use crate::event::kinds::EventType;
use crate::event::levels::{index_in_range, small_index};
use crate::event::payload::{EventEnvelope, EventEnvelopeView, Payload, PayloadView};
use crate::event::reduce::EventError;
use crate::event::tranches::right_of;
use crate::grid::{
    cleared, crosses, crosses_level, grid_of, grid_price, maybe_rearm, resettable, waiting,
    GridError, GridSpec,
};
use crate::journal::append::AppendError;
use crate::journal::query::{
    at_time, last_before, last_rows, last_sale, named_index, of_kind, of_type, rows_before,
    some_row,
    Journal, Log,
};
use crate::model::ledger::{
    GridLevelState, GridLevelStatus, LotQuantityAllocation,
    LotQuantityAllocationView, OrderStatus, OrderView, StrategyState, StrategyStateView,
};
use crate::model::market::{Direction, MarketBar, MarketBarView};
use crate::model::notices::{Appraisal, AppraisalView, ApprovalView};
use crate::model::settings::{Config, ConfigView};
use crate::table::lookup;
use crate::text::text_eq;
use crate::value::Value;
use vstd::prelude::*;

verus! {

/// Why the ledger refuses to append.
#[derive(Clone, Copy, Debug, PartialEq, Eq, Structural)]
pub enum LedgerError {
    /// The event needs a boundary of its own.
    Boundary,
    /// The boundary is for other events.
    ForeignBoundary,
    /// The batch is empty.
    EmptyBatch,
    /// The event is of another run.
    ForeignRun,
    /// The event is of another symbol.
    ForeignSymbol,
    /// The event is not in the layout in which its kind is written.
    OldLayout,
    /// The audited configuration is missing.
    MissingConfig,
    /// The event is of another cycle.
    ForeignCycle,
    /// The event is of another configuration.
    ForeignConfig,
    /// A payload does not hold what it has to.
    Unreadable,
    /// A bar is not later than the one before it.
    StaleMarket,
    /// The event has to be part of a batch.
    NeedsBatch,
    /// The evaluation and the intent of the opening order have to be one batch.
    NeedsOpeningBatch,
    /// A level, a right or a bar that the event speaks of is missing.
    Missing,
    /// The event comes at the wrong stage of its bar.
    WrongStage,
    /// The market does not justify that the level is armed again.
    RearmUnjustified,
    /// The stage of a bar does not close what it has to.
    StageIncomplete,
    /// The cycle was not completed by a sale.
    ResetUnjustified,
    /// The right of a request is not the one that was granted.
    RightChanged,
    /// The evidence of a request is not that of the state.
    Evidence,
    /// The allocation policy is not the canonical one.
    AllocationPolicy,
    /// The risk rules do not say what is allowed.
    Unapproved,
    /// The intent is not what the risk rules allow.
    ApprovalDiffers,
    /// An opening evaluation does not have its intent.
    OpeningIntent,
    /// An opening intent does not have its evaluation.
    OpeningEvaluation,
    /// A stage of a bar stands in a batch.
    StageInBatch,
    /// A decision without an algorithm does not have its one error.
    UnexplainedFailure,
    /// A touch comes without two bars.
    TouchWithoutBars,
    /// The level was touched at this bar already.
    TouchRepeated,
    /// A touch uses the bar that armed its level again.
    TouchAtRearm,
    /// The market does not imply the touch.
    TouchNotImplied,
    /// A right does not have its one touch.
    GrantWithoutTouch,
    /// A right does not have its one decision.
    GrantWithoutDecision,
    /// A right does not have its one disposition.
    GrantWithoutDisposition,
    /// A touch does not have its one grant or skip.
    TouchUnresolved,
    /// A skip does not have its one touch.
    SkipWithoutTouch,
    /// A granted right names a tranche that was not minted.
    OmittedTranche,
    /// A granted right does not own a live tranche that it names.
    TrancheNotTransferred,
    /// A cycle does not arm its whole grid.
    GridIncomplete,
    /// A cycle arms a level twice, or not at its price.
    ForeignLevel,
    /// A level is armed outside of its cycle.
    ArmWithoutCycle,
    /// A number leaves its range.
    NumericRange,
    /// The grid has no such price.
    Grid(GridError),
    /// The event does not follow from the state.
    Event(EventError),
    /// The state that follows is not in order.
    Invariant(InvariantViolation),
    /// The journal does not take the event.
    Append(AppendError),
}

/// The bar that an event carries.
pub open spec fn bar_of(e: EventEnvelopeView) -> Option<MarketBarView> {
    match e.payload {
        PayloadView::Bar(x) => Some(x),
        _ => None,
    }
}

/// The bar that a run received last.
pub open spec fn latest_bar(log: Log, run_id: Seq<char>) -> Result<
    Option<MarketBarView>,
    LedgerError,
> {
    match last_before(log, of_kind(run_id, EventType::MarketDataReceived), log.len()) {
        None => Ok(None),
        Some(i) => match bar_of(log[i]) {
            Some(bar) => Ok(Some(bar)),
            None => Err(LedgerError::Unreadable),
        },
    }
}

/// The last two bars that a run received.
pub open spec fn last_two(log: Log, run_id: Seq<char>) -> Log {
    last_rows(rows_before(log, of_kind(run_id, EventType::MarketDataReceived), log.len()), 2)
}

/// Whether a stage of a bar of the run of a state has been recorded.
pub open spec fn staged(log: Log, s: StrategyStateView, kind: EventType, time: Moment) -> bool {
    some_row(log, at_time(s.run_id, kind, s.symbol, time))
}

/// Whether events of a kind belong to an opportunity.
pub open spec fn binds_opportunity(kind: EventType) -> bool {
    kind == EventType::MarketDataReceived || kind == EventType::GridLevelTouched || kind
        == EventType::GridLevelSkipped || kind == EventType::MarketBarDecisionsCommitted || kind
        == EventType::MarketBarProcessed
}

/// Why an event is not of the opportunity of the state, if it is not.
pub open spec fn binding_fault(s: StrategyStateView, e: EventEnvelopeView) -> Option<LedgerError> {
    if !binds_opportunity(e.event_type) {
        None
    } else {
        match s.audited_config {
            None => Some(LedgerError::MissingConfig),
            Some(c) => if e.cycle_id != s.cycle_id {
                Some(LedgerError::ForeignCycle)
            } else if e.config_version != c.config_version {
                Some(LedgerError::ForeignConfig)
            } else {
                None
            },
        }
    }
}

/// Whether the market has come back from a level. Nothing where a number leaves
/// its range.
pub open spec fn comes_back(level: GridLevelState, close: Decimal, width: Decimal, hysteresis: Decimal) -> Option<
    bool,
> {
    if resettable(level.status) {
        cleared(level, close, width, hysteresis)
    } else {
        Some(false)
    }
}

/// The price of the level next to one, towards the anchor.
pub open spec fn inner_price(c: ConfigView, index: i32) -> Result<Decimal, GridError> {
    if index > 0 {
        grid_price(grid_of(c), (index - 1) as i32)
    } else {
        grid_price(grid_of(c), (index + 1) as i32)
    }
}

/// Why the market does not justify that a level is armed again, if it does not.
pub open spec fn justification_fault(
    s: StrategyStateView,
    e: EventEnvelopeView,
    c: ConfigView,
    level: GridLevelState,
    bar: MarketBarView,
    adjacent: Decimal,
    canonical: Decimal,
) -> Option<LedgerError> {
    if e.cycle_id != s.cycle_id || e.config_version != c.config_version || bar.symbol != s.symbol
        || bar.timestamp != e.event_time || level.price.units() != canonical.units() {
        Some(LedgerError::RearmUnjustified)
    } else {
        match minus(level.price, adjacent) {
            None => Some(LedgerError::NumericRange),
            Some(width) => match comes_back(level, bar.close, width, c.hysteresis_ratio) {
                None => Some(LedgerError::NumericRange),
                Some(back) => if back {
                    None
                } else {
                    Some(LedgerError::RearmUnjustified)
                },
            },
        }
    }
}

/// Why a level may not be armed again, if it may not.
pub open spec fn rearm_fault(
    log: Log,
    s: StrategyStateView,
    e: EventEnvelopeView,
    bar: Option<MarketBarView>,
) -> Option<LedgerError> {
    if e.schema_version < 2 {
        None
    } else {
        match small_index(named_index(e.payload)) {
            None => Some(LedgerError::Unreadable),
            Some(index) => match s.audited_config {
                None => Some(LedgerError::MissingConfig),
                Some(c) => match lookup::<i32, GridLevelState>(s.levels, index) {
                    None => Some(LedgerError::Missing),
                    Some(level) => match bar {
                        None => Some(LedgerError::Missing),
                        Some(x) => if !staged(
                            log,
                            s,
                            EventType::MarketBarDecisionsCommitted,
                            e.event_time,
                        ) || staged(log, s, EventType::MarketBarProcessed, e.event_time) {
                            Some(LedgerError::WrongStage)
                        } else {
                            match inner_price(c, index) {
                                Err(g) => Some(LedgerError::Grid(g)),
                                Ok(adjacent) => match grid_price(grid_of(c), index) {
                                    Err(g) => Some(LedgerError::Grid(g)),
                                    Ok(canonical) => justification_fault(
                                        s,
                                        e,
                                        c,
                                        level,
                                        x,
                                        adjacent,
                                        canonical,
                                    ),
                                },
                            }
                        },
                    },
                },
            },
        }
    }
}

/// Whether the market has come back from one of the levels, by its position.
pub open spec fn rearm_due(
    s: StrategyStateView,
    c: ConfigView,
    close: Decimal,
    i: int,
) -> Result<bool, LedgerError> {
    let (index, level) = s.levels[i];
    match inner_price(c, index) {
        Err(g) => Err(LedgerError::Grid(g)),
        Ok(adjacent) => match minus(level.price, adjacent) {
            None => Err(LedgerError::NumericRange),
            Some(width) => match comes_back(level, close, width, c.hysteresis_ratio) {
                None => Err(LedgerError::NumericRange),
                Some(back) => Ok(back),
            },
        },
    }
}

/// Whether the market has come back from one of the first `n` levels.
pub open spec fn rearms_due(s: StrategyStateView, c: ConfigView, close: Decimal, n: nat) -> Result<
    bool,
    LedgerError,
>
    decreases n,
{
    if n == 0 {
        Ok(false)
    } else {
        match rearms_due(s, c, close, (n - 1) as nat) {
            Err(e) => Err(e),
            Ok(before) => match rearm_due(s, c, close, n - 1) {
                Err(e) => Err(e),
                Ok(due) => Ok(before || due),
            },
        }
    }
}

/// Whether one of the first `n` levels waits at a price that the market crossed.
pub open spec fn crossings_open(
    s: StrategyStateView,
    c: ConfigView,
    previous_close: Decimal,
    low: Decimal,
    high: Decimal,
    n: nat,
) -> Result<bool, LedgerError>
    decreases n,
{
    if n == 0 {
        Ok(false)
    } else {
        match crossings_open(s, c, previous_close, low, high, (n - 1) as nat) {
            Err(e) => Err(e),
            Ok(before) => {
                let (index, level) = s.levels[n - 1];
                if !waiting(level.status) {
                    Ok(before)
                } else {
                    match grid_price(grid_of(c), index) {
                        Err(g) => Err(LedgerError::Grid(g)),
                        Ok(price) => Ok(
                            before || crosses(index, price, previous_close, low, high),
                        ),
                    }
                }
            },
        }
    }
}

/// The close that the stage of a bar names.
pub open spec fn named_close(e: EventEnvelopeView) -> Option<Seq<char>> {
    match e.payload {
        PayloadView::Stage(x) => x.close,
        _ => None,
    }
}

/// Why a bar cannot be processed yet, if it cannot.
pub open spec fn processed_fault(
    log: Log,
    s: StrategyStateView,
    e: EventEnvelopeView,
    bar: MarketBarView,
) -> Option<LedgerError> {
    match s.audited_config {
        None => Some(LedgerError::MissingConfig),
        Some(c) => match rearms_due(s, c, bar.close, s.levels.len()) {
            Err(x) => Some(x),
            Ok(due) => if !staged(log, s, EventType::MarketBarDecisionsCommitted, e.event_time)
                || staged(log, s, EventType::MarketBarProcessed, e.event_time) || named_close(e)
                != Some(decimal_text(bar.close.m(), bar.close.s())) || due {
                Some(LedgerError::StageIncomplete)
            } else {
                None
            },
        },
    }
}

/// Why the decisions on a bar cannot be committed, if they cannot.
pub open spec fn committed_fault(log: Log, s: StrategyStateView, e: EventEnvelopeView) -> Option<
    LedgerError,
> {
    if staged(log, s, EventType::MarketBarDecisionsCommitted, e.event_time) || staged(
        log,
        s,
        EventType::MarketBarProcessed,
        e.event_time,
    ) {
        Some(LedgerError::WrongStage)
    } else {
        let recent = last_two(log, s.run_id);
        if recent.len() != 2 {
            None
        } else {
            match (bar_of(recent[0]), bar_of(recent[1])) {
                (Some(previous), Some(current)) => if current.timestamp != e.event_time {
                    Some(LedgerError::WrongStage)
                } else {
                    match s.audited_config {
                        None => Some(LedgerError::MissingConfig),
                        Some(c) => match crossings_open(
                            s,
                            c,
                            previous.close,
                            current.low,
                            current.high,
                            s.levels.len(),
                        ) {
                            Err(x) => Some(x),
                            Ok(open) => if open {
                                Some(LedgerError::StageIncomplete)
                            } else {
                                None
                            },
                        },
                    }
                },
                _ => Some(LedgerError::Unreadable),
            }
        }
    }
}

/// Why a stage of a bar is refused, if it is.
pub open spec fn stage_fault(log: Log, s: StrategyStateView, e: EventEnvelopeView) -> Option<
    LedgerError,
> {
    if e.schema_version < 2 {
        None
    } else {
        match last_before(
            log,
            at_time(s.run_id, EventType::MarketDataReceived, s.symbol, e.event_time),
            log.len(),
        ) {
            None => Some(LedgerError::Missing),
            Some(i) => match bar_of(log[i]) {
                None => Some(LedgerError::Unreadable),
                Some(bar) => if bar.symbol != e.symbol || bar.timestamp != e.event_time {
                    Some(LedgerError::Missing)
                } else if e.event_type == EventType::MarketBarProcessed {
                    processed_fault(log, s, e, bar)
                } else if e.event_type == EventType::MarketBarDecisionsCommitted {
                    committed_fault(log, s, e)
                } else {
                    None
                },
            },
        }
    }
}

/// Whether an order completed a sale of the cycle of a state.
pub open spec fn completed_sale(s: StrategyStateView, order: OrderView) -> bool {
    &&& order.status == OrderStatus::Filled
    &&& order.intent.direction == Direction::Sell
    &&& right_of(s, order.intent.right_id) matches Some(right)
    &&& right.cycle_id == s.cycle_id
}

/// Why a cycle may not be followed by the next one, if it may not.
pub open spec fn reset_fault(log: Log, s: StrategyStateView, e: EventEnvelopeView) -> Option<
    LedgerError,
> {
    if e.schema_version < 2 {
        None
    } else if !(exists|i: int| 0 <= i < s.orders.len() && completed_sale(s, #[trigger] s.orders[i].1))
        || last_sale(log, s.run_id) != Some(e.event_time) || !staged(
        log,
        s,
        EventType::MarketBarProcessed,
        e.event_time,
    ) {
        Some(LedgerError::ResetUnjustified)
    } else {
        None
    }
}

/// Whether two parts of lots are the same, whatever tranches back them.
pub open spec fn same_part(a: LotQuantityAllocationView, b: LotQuantityAllocationView) -> bool {
    &&& a.lot_id == b.lot_id
    &&& a.quantity == b.quantity
    &&& a.cost_basis.units() == b.cost_basis.units()
    &&& a.worst_fill_price.units() == b.worst_fill_price.units()
    &&& a.maximum_sell_fees.units() == b.maximum_sell_fees.units()
    &&& a.worst_case_profit.units() == b.worst_case_profit.units()
}

/// Whether a sell order takes exactly what the risk rules allow.
pub open spec fn as_approved(order: OrderView, approval: ApprovalView) -> bool {
    let parts = order.intent.target_lot_allocations;
    &&& order.intent.quantity == approval.quantity
    &&& order.intent.target_lot_ids.len() == approval.sell_allocations.len()
    &&& parts.len() == approval.sell_allocations.len()
    &&& forall|i: int|
        0 <= i < parts.len() ==> #[trigger] order.intent.target_lot_ids[i]
            == approval.sell_allocations[i].lot_id
    &&& forall|i: int|
        0 <= i < parts.len() ==> same_part(#[trigger] parts[i], approval.sell_allocations[i])
}

/// Why a decision is not backed by the state, if it is not.
pub open spec fn decision_evidence_fault(
    s: StrategyStateView,
    e: EventEnvelopeView,
    a: AppraisalView,
) -> Option<LedgerError> {
    match e.payload {
        PayloadView::Decision(d) => match d.request {
            None => Some(LedgerError::Unreadable),
            Some(request) => if request.contract_version != DECISION_CONTRACT_VERSION {
                None
            } else {
                match right_of(s, request.right.right_id) {
                    None => Some(LedgerError::Missing),
                    Some(right) => if s.audited_config is None {
                        Some(LedgerError::MissingConfig)
                    } else if right != request.right {
                        Some(LedgerError::RightChanged)
                    } else if !a.evidence_valid {
                        Some(LedgerError::Evidence)
                    } else {
                        None
                    },
                }
            },
        },
        _ => Some(LedgerError::Unreadable),
    }
}

/// Why an order is not what the risk rules allow, if it is not.
pub open spec fn intent_approval_fault(
    s: StrategyStateView,
    e: EventEnvelopeView,
    a: AppraisalView,
) -> Option<LedgerError> {
    match e.payload {
        PayloadView::Intent(order) => if order.intent.direction != Direction::Sell {
            None
        } else {
            match right_of(s, order.intent.right_id) {
                None => Some(LedgerError::Missing),
                Some(_) => if s.audited_config is None {
                    Some(LedgerError::MissingConfig)
                } else {
                    match a.approval {
                        None => Some(LedgerError::Unapproved),
                        Some(approval) => if as_approved(order, approval) {
                            None
                        } else {
                            Some(LedgerError::ApprovalDiffers)
                        },
                    }
                },
            }
        },
        _ => Some(LedgerError::Unreadable),
    }
}

/// Whether an event says what becomes of a right after its decision.
pub open spec fn disposes(kind: EventType) -> bool {
    kind == EventType::GridRightDeferred || kind == EventType::GridRightResidualHeld || kind
        == EventType::GridRightBlocked || kind == EventType::GridRightReserved
}

/// Whether an event says only in part what becomes of a right.
pub open spec fn partial(e: EventEnvelopeView) -> bool {
    e.payload matches PayloadView::Disposition(x) && x.partial == Some(true)
}

/// Why what becomes of a right is not what the risk rules allow, if it is not.
pub open spec fn disposition_approval_fault(
    s: StrategyStateView,
    e: EventEnvelopeView,
    a: AppraisalView,
) -> Option<LedgerError> {
    match e.payload {
        PayloadView::Disposition(x) => match x.right_id {
            None => Some(LedgerError::Unreadable),
            Some(id) => match right_of(s, id) {
                None => Some(LedgerError::Missing),
                Some(_) => if s.audited_config is None {
                    Some(LedgerError::MissingConfig)
                } else {
                    match x.order_intent_quantity {
                        None => Some(LedgerError::Unreadable),
                        Some(recorded) => match a.approved_quantity {
                            None => Some(LedgerError::Unapproved),
                            Some(allowed) => if recorded != allowed {
                                Some(LedgerError::ApprovalDiffers)
                            } else {
                                None
                            },
                        },
                    }
                },
            },
        },
        _ => Some(LedgerError::Unreadable),
    }
}

/// Why an event is not approved by the platform, if it is not.
pub open spec fn approval_fault(
    s: StrategyStateView,
    e: EventEnvelopeView,
    a: AppraisalView,
) -> Option<LedgerError> {
    if e.event_type == EventType::GateDecisionMade {
        decision_evidence_fault(s, e, a)
    } else if e.event_type == EventType::RightBalanceReserved {
        if e.payload matches PayloadView::Balance(x) && x.allocation_policy == Some(
            "DEEPEST_FIRST_V1"@,
        ) {
            None
        } else {
            Some(LedgerError::AllocationPolicy)
        }
    } else if e.event_type == EventType::OrderIntentCreated && e.schema_version >= 5 {
        intent_approval_fault(s, e, a)
    } else if e.schema_version < 3 || !disposes(e.event_type) || partial(e) {
        None
    } else {
        disposition_approval_fault(s, e, a)
    }
}

impl EventEnvelope {
    /// The bar that the event carries.
    pub fn bar(&self) -> (r: Option<&MarketBar>)
        ensures
            match bar_of(self@) {
                Some(x) => r matches Some(y) && y@ == x,
                None => r is None,
            },
    {
        match &self.payload {
            Payload::Bar(x) => Some(x),
            _ => None,
        }
    }

    /// Whether the event says only in part what becomes of a right.
    pub(crate) fn is_partial(&self) -> (r: bool)
        ensures
            r == partial(self@),
    {
        match &self.payload {
            Payload::Disposition(x) => match x.partial {
                Some(p) => p,
                None => false,
            },
            _ => false,
        }
    }
}

/// Whether an event says what becomes of a right after its decision.
pub(crate) fn is_disposition(kind: EventType) -> (r: bool)
    ensures
        r == disposes(kind),
{
    matches!(
        kind,
        EventType::GridRightDeferred
            | EventType::GridRightResidualHeld
            | EventType::GridRightBlocked
            | EventType::GridRightReserved
    )
}

impl Journal {
    /// The bar that a run received last.
    pub fn latest_bar(&self, run_id: &str) -> (r: Result<Option<MarketBar>, LedgerError>)
        ensures
            match latest_bar(self@.log, run_id@) {
                Ok(x) => r matches Ok(y) && y.deep_view() == x,
                Err(e) => r matches Err(y) && y == e,
            },
    {
        match self.last_row(&of_type(run_id, EventType::MarketDataReceived)) {
            None => Ok(None),
            Some(i) => match self.row(i).bar() {
                Some(bar) => Ok(Some(bar.dup())),
                None => Err(LedgerError::Unreadable),
            },
        }
    }

    fn is_staged(&self, state: &StrategyState, kind: EventType, time: Moment) -> (r: bool)
        ensures
            r == staged(self@.log, state@, kind, time),
    {
        self.has_market_stage(state.run_id.as_str(), kind, state.symbol.as_str(), time)
    }
}

/// Checks that an event is of the opportunity of a state.
pub fn validate_current_opportunity_binding(state: &StrategyState, event: &EventEnvelope) -> (r:
    Result<(), LedgerError>)
    ensures
        r == (match binding_fault(state@, event@) {
            Some(e) => Err::<(), LedgerError>(e),
            None => Ok::<(), LedgerError>(()),
        }),
{
    if !matches!(
        event.event_type,
        EventType::MarketDataReceived
            | EventType::GridLevelTouched
            | EventType::GridLevelSkipped
            | EventType::MarketBarDecisionsCommitted
            | EventType::MarketBarProcessed
    ) {
        return Ok(());
    }
    match &state.audited_config {
        None => Err(LedgerError::MissingConfig),
        Some(c) => {
            if !text_eq(event.cycle_id.as_str(), state.cycle_id.as_str()) {
                return Err(LedgerError::ForeignCycle);
            }
            if !text_eq(event.config_version.as_str(), c.config_version.as_str()) {
                return Err(LedgerError::ForeignConfig);
            }
            Ok(())
        },
    }
}

fn price_inside(config: &Config, index: i32) -> (r: Result<Decimal, GridError>)
    ensures
        r == inner_price(config@, index),
{
    let grid = GridSpec::from(config);
    if index > 0 {
        grid.price(index - 1)
    } else {
        grid.price(index + 1)
    }
}

fn market_comes_back(level: &GridLevelState, close: Decimal, width: Decimal, hysteresis: Decimal) -> (r:
    Option<bool>)
    ensures
        r == comes_back(*level, close, width, hysteresis),
{
    let mut candidate = *level;
    match maybe_rearm(&mut candidate, close, width, hysteresis) {
        Ok(back) => Some(back),
        Err(_) => None,
    }
}

/// Checks that the market justifies that a level is armed again.
pub fn validate_current_rearm_evidence(
    journal: &Journal,
    state: &StrategyState,
    event: &EventEnvelope,
    market: Option<&MarketBar>,
) -> (r: Result<(), LedgerError>)
    ensures
        r == (match rearm_fault(journal@.log, state@, event@, match market {
            Some(x) => Some(x@),
            None => None,
        }) {
            Some(e) => Err::<(), LedgerError>(e),
            None => Ok::<(), LedgerError>(()),
        }),
{
    if event.schema_version < 2 {
        return Ok(());
    }
    let index: i32 = match index_in_range(event.payload.grid_index()) {
        Some(index) => index,
        None => {
            return Err(LedgerError::Unreadable);
        },
    };
    let config = match &state.audited_config {
        Some(config) => config,
        None => {
            return Err(LedgerError::MissingConfig);
        },
    };
    let level = match state.levels.get(&index) {
        Some(level) => level,
        None => {
            return Err(LedgerError::Missing);
        },
    };
    let bar = match market {
        Some(bar) => bar,
        None => {
            return Err(LedgerError::Missing);
        },
    };
    if !journal.is_staged(state, EventType::MarketBarDecisionsCommitted, event.event_time)
        || journal.is_staged(state, EventType::MarketBarProcessed, event.event_time) {
        return Err(LedgerError::WrongStage);
    }
    let adjacent = match price_inside(config, index) {
        Ok(price) => price,
        Err(g) => {
            return Err(LedgerError::Grid(g));
        },
    };
    let canonical = match GridSpec::from(config).price(index) {
        Ok(price) => price,
        Err(g) => {
            return Err(LedgerError::Grid(g));
        },
    };
    if !text_eq(event.cycle_id.as_str(), state.cycle_id.as_str()) || !text_eq(
        event.config_version.as_str(),
        config.config_version.as_str(),
    ) || !text_eq(bar.symbol.as_str(), state.symbol.as_str()) || !bar.timestamp.same(
        &event.event_time,
    ) || !level.price.equals(&canonical) {
        return Err(LedgerError::RearmUnjustified);
    }
    let width = match level.price.checked_sub(adjacent) {
        Some(width) => width,
        None => {
            return Err(LedgerError::NumericRange);
        },
    };
    match market_comes_back(level, bar.close, width, config.hysteresis_ratio) {
        None => Err(LedgerError::NumericRange),
        Some(back) => if back {
            Ok(())
        } else {
            Err(LedgerError::RearmUnjustified)
        },
    }
}

proof fn lemma_rearms_stop(s: StrategyStateView, c: ConfigView, close: Decimal, n: nat, m: nat)
    requires
        n <= m,
        rearms_due(s, c, close, n) is Err,
    ensures
        rearms_due(s, c, close, m) == rearms_due(s, c, close, n),
    decreases m - n,
{
    if n < m {
        lemma_rearms_stop(s, c, close, n, (m - 1) as nat);
    }
}

proof fn lemma_crossings_stop(
    s: StrategyStateView,
    c: ConfigView,
    previous: Decimal,
    low: Decimal,
    high: Decimal,
    n: nat,
    m: nat,
)
    requires
        n <= m,
        crossings_open(s, c, previous, low, high, n) is Err,
    ensures
        crossings_open(s, c, previous, low, high, m) == crossings_open(
            s,
            c,
            previous,
            low,
            high,
            n,
        ),
    decreases m - n,
{
    if n < m {
        lemma_crossings_stop(s, c, previous, low, high, n, (m - 1) as nat);
    }
}

fn some_rearm_due(state: &StrategyState, config: &Config, close: Decimal) -> (r: Result<
    bool,
    LedgerError,
>)
    ensures
        r == rearms_due(state@, config@, close, state@.levels.len()),
{
    let ghost all = state@.levels;
    let mut due = false;
    let mut i: usize = 0;
    while i < state.levels.len()
        invariant
            i <= all.len(),
            all == state@.levels,
            all == state.levels@,
            rearms_due(state@, config@, close, i as nat) == Ok::<bool, LedgerError>(due),
        decreases all.len() - i,
    {
        let index: i32 = *state.levels.key_at(i);
        let level = state.levels.value_at(i);
        let here: Result<bool, LedgerError> = match price_inside(config, index) {
            Err(g) => Err(LedgerError::Grid(g)),
            Ok(adjacent) => match level.price.checked_sub(adjacent) {
                None => Err(LedgerError::NumericRange),
                Some(width) => match market_comes_back(
                    level,
                    close,
                    width,
                    config.hysteresis_ratio,
                ) {
                    None => Err(LedgerError::NumericRange),
                    Some(back) => Ok(back),
                },
            },
        };
        assert(here == rearm_due(state@, config@, close, i as int));
        match here {
            Err(e) => {
                proof {
                    lemma_rearms_stop(state@, config@, close, (i + 1) as nat, all.len());
                }
                return Err(e);
            },
            Ok(back) => {
                due = due || back;
            },
        }
        i = i + 1;
    }
    Ok(due)
}

fn some_crossing_open(
    state: &StrategyState,
    config: &Config,
    previous_close: Decimal,
    low: Decimal,
    high: Decimal,
) -> (r: Result<bool, LedgerError>)
    ensures
        r == crossings_open(state@, config@, previous_close, low, high, state@.levels.len()),
{
    let ghost all = state@.levels;
    let grid = GridSpec::from(config);
    let mut open = false;
    let mut i: usize = 0;
    while i < state.levels.len()
        invariant
            i <= all.len(),
            all == state@.levels,
            all == state.levels@,
            grid == grid_of(config@),
            crossings_open(state@, config@, previous_close, low, high, i as nat) == Ok::<
                bool,
                LedgerError,
            >(open),
        decreases all.len() - i,
    {
        let index: i32 = *state.levels.key_at(i);
        let level = state.levels.value_at(i);
        if matches!(level.status, GridLevelStatus::Armed | GridLevelStatus::Rearmed) {
            match grid.price(index) {
                Err(g) => {
                    proof {
                        lemma_crossings_stop(
                            state@,
                            config@,
                            previous_close,
                            low,
                            high,
                            (i + 1) as nat,
                            all.len(),
                        );
                    }
                    return Err(LedgerError::Grid(g));
                },
                Ok(price) => {
                    let crossed = crosses_level(index, price, previous_close, low, high);
                    open = open || crossed;
                },
            }
        }
        i = i + 1;
    }
    Ok(open)
}

fn check_processed(
    journal: &Journal,
    state: &StrategyState,
    event: &EventEnvelope,
    bar: &MarketBar,
) -> (r: Result<(), LedgerError>)
    ensures
        r == (match processed_fault(journal@.log, state@, event@, bar@) {
            Some(e) => Err::<(), LedgerError>(e),
            None => Ok::<(), LedgerError>(()),
        }),
{
    let config = match &state.audited_config {
        Some(config) => config,
        None => {
            return Err(LedgerError::MissingConfig);
        },
    };
    let due = match some_rearm_due(state, config, bar.close) {
        Ok(due) => due,
        Err(e) => {
            return Err(e);
        },
    };
    let close = bar.close.text();
    let named = match &event.payload {
        Payload::Stage(x) => match &x.close {
            Some(text) => text_eq(text.as_str(), close.as_str()),
            None => false,
        },
        _ => false,
    };
    if !journal.is_staged(state, EventType::MarketBarDecisionsCommitted, event.event_time)
        || journal.is_staged(state, EventType::MarketBarProcessed, event.event_time) || !named
        || due {
        return Err(LedgerError::StageIncomplete);
    }
    Ok(())
}

fn check_committed(journal: &Journal, state: &StrategyState, event: &EventEnvelope) -> (r: Result<
    (),
    LedgerError,
>)
    ensures
        r == (match committed_fault(journal@.log, state@, event@) {
            Some(e) => Err::<(), LedgerError>(e),
            None => Ok::<(), LedgerError>(()),
        }),
{
    if journal.is_staged(state, EventType::MarketBarDecisionsCommitted, event.event_time)
        || journal.is_staged(state, EventType::MarketBarProcessed, event.event_time) {
        return Err(LedgerError::WrongStage);
    }
    let recent = journal.recent_payloads_by_type(
        state.run_id.as_str(),
        EventType::MarketDataReceived,
        2,
    );
    if recent.len() != 2 {
        return Ok(());
    }
    assert(recent.deep_view()[0] == recent[0]@ && recent.deep_view()[1] == recent[1]@);
    match (recent[0].bar(), recent[1].bar()) {
        (Some(previous), Some(current)) => {
            if !current.timestamp.same(&event.event_time) {
                return Err(LedgerError::WrongStage);
            }
            match &state.audited_config {
                None => Err(LedgerError::MissingConfig),
                Some(config) => match some_crossing_open(
                    state,
                    config,
                    previous.close,
                    current.low,
                    current.high,
                ) {
                    Err(e) => Err(e),
                    Ok(open) => if open {
                        Err(LedgerError::StageIncomplete)
                    } else {
                        Ok(())
                    },
                },
            }
        },
        _ => Err(LedgerError::Unreadable),
    }
}

/// Checks that a stage of a bar closes what it has to.
pub fn validate_current_market_stage(
    journal: &Journal,
    state: &StrategyState,
    event: &EventEnvelope,
) -> (r: Result<(), LedgerError>)
    ensures
        r == (match stage_fault(journal@.log, state@, event@) {
            Some(e) => Err::<(), LedgerError>(e),
            None => Ok::<(), LedgerError>(()),
        }),
{
    if event.schema_version < 2 {
        return Ok(());
    }
    let row = match journal.market_payload_at(
        state.run_id.as_str(),
        state.symbol.as_str(),
        event.event_time,
    ) {
        Some(row) => row,
        None => {
            return Err(LedgerError::Missing);
        },
    };
    let bar = match row.bar() {
        Some(bar) => bar,
        None => {
            return Err(LedgerError::Unreadable);
        },
    };
    if !text_eq(bar.symbol.as_str(), event.symbol.as_str()) || !bar.timestamp.same(
        &event.event_time,
    ) {
        return Err(LedgerError::Missing);
    }
    match event.event_type {
        EventType::MarketBarProcessed => check_processed(journal, state, event, bar),
        EventType::MarketBarDecisionsCommitted => check_committed(journal, state, event),
        _ => Ok(()),
    }
}

fn has_completed_sale(state: &StrategyState) -> (r: bool)
    ensures
        r == exists|i: int|
            0 <= i < state@.orders.len() && completed_sale(state@, #[trigger] state@.orders[i].1),
{
    let ghost all = state@.orders;
    let mut i: usize = 0;
    while i < state.orders.len()
        invariant
            i <= all.len(),
            all == state@.orders,
            all == state.orders@,
            forall|k: int| 0 <= k < i ==> !completed_sale(state@, #[trigger] all[k].1),
        decreases all.len() - i,
    {
        let order = state.orders.value_at(i);
        assert(order@ == all[i as int].1);
        if matches!(order.status, OrderStatus::Filled) && matches!(
            order.intent.direction,
            Direction::Sell
        ) {
            let of_cycle = match state.grid_rights.get(&order.intent.right_id) {
                Some(right) => text_eq(right.cycle_id.as_str(), state.cycle_id.as_str()),
                None => false,
            };
            if of_cycle {
                assert(completed_sale(state@, all[i as int].1));
                return true;
            }
        }
        i = i + 1;
    }
    false
}

/// Checks that a cycle was completed by a sale at a processed bar.
pub fn validate_current_cycle_reset_evidence(
    journal: &Journal,
    state: &StrategyState,
    event: &EventEnvelope,
) -> (r: Result<(), LedgerError>)
    ensures
        r == (match reset_fault(journal@.log, state@, event@) {
            Some(e) => Err::<(), LedgerError>(e),
            None => Ok::<(), LedgerError>(()),
        }),
{
    if event.schema_version < 2 {
        return Ok(());
    }
    let sold_now = match journal.latest_sell_fill_time(state.run_id.as_str()) {
        Some(time) => time.same(&event.event_time),
        None => false,
    };
    if !has_completed_sale(state) || !sold_now || !journal.is_staged(
        state,
        EventType::MarketBarProcessed,
        event.event_time,
    ) {
        return Err(LedgerError::ResetUnjustified);
    }
    Ok(())
}

impl LotQuantityAllocation {
    fn is_same_part(&self, other: &LotQuantityAllocation) -> (r: bool)
        ensures
            r == same_part(self@, other@),
    {
        text_eq(self.lot_id.as_str(), other.lot_id.as_str()) && self.quantity == other.quantity
            && self.cost_basis.equals(&other.cost_basis) && self.worst_fill_price.equals(
            &other.worst_fill_price,
        ) && self.maximum_sell_fees.equals(&other.maximum_sell_fees)
            && self.worst_case_profit.equals(&other.worst_case_profit)
    }
}

fn is_as_approved(order: &crate::model::ledger::Order, approval: &crate::model::notices::Approval) -> (r:
    bool)
    ensures
        r == as_approved(order@, approval@),
{
    let ids = &order.intent.target_lot_ids;
    let parts = &order.intent.target_lot_allocations;
    let allowed = &approval.sell_allocations;
    if order.intent.quantity != approval.quantity || ids.len() != allowed.len() || parts.len()
        != allowed.len() {
        return false;
    }
    let ghost order_ids = ids.deep_view();
    let ghost order_parts = parts.deep_view();
    let ghost wanted = allowed.deep_view();
    let mut i: usize = 0;
    while i < parts.len()
        invariant
            i <= parts.len() == ids.len() == allowed.len(),
            order_ids == ids.deep_view(),
            order_ids == order@.intent.target_lot_ids,
            order_parts == parts.deep_view(),
            order_parts == order@.intent.target_lot_allocations,
            wanted == allowed.deep_view(),
            wanted == approval@.sell_allocations,
            forall|k: int| 0 <= k < i ==> #[trigger] order_ids[k] == wanted[k].lot_id,
            forall|k: int| 0 <= k < i ==> same_part(#[trigger] order_parts[k], wanted[k]),
        decreases parts.len() - i,
    {
        assert(order_ids[i as int] == ids[i as int]@);
        assert(order_parts[i as int] == parts[i as int]@);
        assert(wanted[i as int] == allowed[i as int]@);
        if !text_eq(ids[i].as_str(), allowed[i].lot_id.as_str()) || !parts[i].is_same_part(
            &allowed[i],
        ) {
            assert(order_ids[i as int] != wanted[i as int].lot_id || !same_part(
                order_parts[i as int],
                wanted[i as int],
            ));
            return false;
        }
        i = i + 1;
    }
    true
}

fn check_decision_evidence(state: &StrategyState, event: &EventEnvelope, appraisal: &Appraisal) -> (r:
    Result<(), LedgerError>)
    ensures
        r == (match decision_evidence_fault(state@, event@, appraisal@) {
            Some(e) => Err::<(), LedgerError>(e),
            None => Ok::<(), LedgerError>(()),
        }),
{
    let request = match &event.payload {
        Payload::Decision(d) => match &d.request {
            Some(request) => request,
            None => {
                return Err(LedgerError::Unreadable);
            },
        },
        _ => {
            return Err(LedgerError::Unreadable);
        },
    };
    if request.contract_version != DECISION_CONTRACT_VERSION {
        return Ok(());
    }
    match state.grid_rights.get(&request.right.right_id) {
        None => Err(LedgerError::Missing),
        Some(right) => {
            if state.audited_config.is_none() {
                return Err(LedgerError::MissingConfig);
            }
            if !right.same(&request.right) {
                return Err(LedgerError::RightChanged);
            }
            if !appraisal.evidence_valid {
                return Err(LedgerError::Evidence);
            }
            Ok(())
        },
    }
}

fn check_intent_approval(state: &StrategyState, event: &EventEnvelope, appraisal: &Appraisal) -> (r:
    Result<(), LedgerError>)
    ensures
        r == (match intent_approval_fault(state@, event@, appraisal@) {
            Some(e) => Err::<(), LedgerError>(e),
            None => Ok::<(), LedgerError>(()),
        }),
{
    let order = match &event.payload {
        Payload::Intent(order) => order,
        _ => {
            return Err(LedgerError::Unreadable);
        },
    };
    if !matches!(order.intent.direction, Direction::Sell) {
        return Ok(());
    }
    if state.grid_rights.get(&order.intent.right_id).is_none() {
        return Err(LedgerError::Missing);
    }
    if state.audited_config.is_none() {
        return Err(LedgerError::MissingConfig);
    }
    match &appraisal.approval {
        None => Err(LedgerError::Unapproved),
        Some(approval) => if is_as_approved(order, approval) {
            Ok(())
        } else {
            Err(LedgerError::ApprovalDiffers)
        },
    }
}

fn check_disposition_approval(state: &StrategyState, event: &EventEnvelope, appraisal: &Appraisal) -> (r:
    Result<(), LedgerError>)
    ensures
        r == (match disposition_approval_fault(state@, event@, appraisal@) {
            Some(e) => Err::<(), LedgerError>(e),
            None => Ok::<(), LedgerError>(()),
        }),
{
    let notice = match &event.payload {
        Payload::Disposition(x) => x,
        _ => {
            return Err(LedgerError::Unreadable);
        },
    };
    let id = match &notice.right_id {
        Some(id) => id,
        None => {
            return Err(LedgerError::Unreadable);
        },
    };
    if state.grid_rights.get(id).is_none() {
        return Err(LedgerError::Missing);
    }
    if state.audited_config.is_none() {
        return Err(LedgerError::MissingConfig);
    }
    match notice.order_intent_quantity {
        None => Err(LedgerError::Unreadable),
        Some(recorded) => match appraisal.approved_quantity {
            None => Err(LedgerError::Unapproved),
            Some(allowed) => if recorded != allowed {
                Err(LedgerError::ApprovalDiffers)
            } else {
                Ok(())
            },
        },
    }
}

/// Checks that the platform approves of an event.
pub fn validate_current_platform_approval(
    state: &StrategyState,
    event: &EventEnvelope,
    appraisal: &Appraisal,
) -> (r: Result<(), LedgerError>)
    ensures
        r == (match approval_fault(state@, event@, appraisal@) {
            Some(e) => Err::<(), LedgerError>(e),
            None => Ok::<(), LedgerError>(()),
        }),
{
    match event.event_type {
        EventType::GateDecisionMade => check_decision_evidence(state, event, appraisal),
        EventType::RightBalanceReserved => {
            let canonical = match &event.payload {
                Payload::Balance(x) => match &x.allocation_policy {
                    Some(policy) => text_eq(policy.as_str(), "DEEPEST_FIRST_V1"),
                    None => false,
                },
                _ => false,
            };
            if canonical {
                Ok(())
            } else {
                Err(LedgerError::AllocationPolicy)
            }
        },
        _ => {
            if event.event_type == EventType::OrderIntentCreated && event.schema_version >= 5 {
                return check_intent_approval(state, event, appraisal);
            }
            if event.schema_version < 3 || !is_disposition(event.event_type) || event.is_partial() {
                return Ok(());
            }
            check_disposition_approval(state, event, appraisal)
        },
    }
}

} // verus!

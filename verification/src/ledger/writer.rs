//! The writer of a run.
use crate::audit::first_violation;
use crate::event::kinds::{current_event_schema, current_schema, EventType};
use crate::event::payload::{EventEnvelope, EventEnvelopeView, Payload, PayloadView};
use crate::event::reduce::{applied, EventError};
use crate::journal::append::{appended, batched, numbered, one_appended, recorded, AppendOutcome};
use crate::journal::query::{fits, latest_cause, Journal, JournalView, Log};
use crate::journal::snapshots::{snapshot_saved, SnapshotError, SnapshotRow};
use crate::ledger::batch::{laid_out, layout_fault, offered_fault, projected_fault};
use crate::ledger::evidence::{
    approval_fault, bar_of, binding_fault, latest_bar, rearm_fault, reset_fault, stage_fault,
    validate_current_cycle_reset_evidence, validate_current_market_stage,
    validate_current_opportunity_binding, validate_current_platform_approval,
    validate_current_rearm_evidence, LedgerError,
};
use crate::ledger::kinship::{is_new, Batch, Desk};
use crate::ledger::laws::{law_batches_leave_the_state_in_order, law_ledger_stays_in_order};
use crate::model::ledger::{StrategyState, StrategyStateView};
use crate::model::market::{MarketBar, MarketBarView};
use crate::model::notices::{Appraisal, AppraisalView};
use crate::text::text_eq;
use crate::value::Value;
use vstd::prelude::*;

verus! {

/// A run with its journal: the state and the sequence number that it is at.
pub struct LedgerWriter {
    pub journal: Journal,
    pub state: StrategyState,
    pub last_sequence: i64,
}

/// The content of [`LedgerWriter`].
#[verifier::ext_equal]
pub struct LedgerWriterView {
    pub journal: JournalView,
    pub state: StrategyStateView,
    pub last_sequence: i64,
}

impl View for LedgerWriter {
    type V = LedgerWriterView;

    open spec fn view(&self) -> LedgerWriterView {
        LedgerWriterView {
            journal: self.journal@,
            state: self.state@,
            last_sequence: self.last_sequence,
        }
    }
}

/// Whether events of a kind change the platform that a run is on.
pub open spec fn on_platform(kind: EventType) -> bool {
    kind == EventType::PlatformUpgradeAuthorized || kind == EventType::PlatformUpgradeActivated
}

/// Whether events of a kind come through a boundary of their own.
pub open spec fn needs_boundary(kind: EventType) -> bool {
    on_platform(kind) || kind == EventType::OngoingResourcePolicyActivated
}

/// Whether events of a kind only come in batches.
pub open spec fn needs_batch(kind: EventType) -> bool {
    kind == EventType::GridRightGranted || kind == EventType::GridLevelTouched || kind
        == EventType::GridLevelSkipped || kind == EventType::GridCycleStarted || kind
        == EventType::GridCycleReset || kind == EventType::GridLevelArmed
}

/// Whether an event is part of an opening.
pub open spec fn opens(e: EventEnvelopeView) -> bool {
    e.event_type == EventType::InitialDeploymentEvaluated || (e.event_type
        == EventType::OrderIntentCreated && (e.payload matches PayloadView::Intent(order)
        && order.intent.origin is Some))
}

/// Why a single bar is not later than the one before it, if it is not.
pub open spec fn single_market_fault(log: Log, s: StrategyStateView, e: EventEnvelopeView) -> Option<
    LedgerError,
> {
    match bar_of(e) {
        None => Some(LedgerError::Unreadable),
        Some(bar) => match latest_bar(log, s.run_id) {
            Err(x) => Some(x),
            Ok(previous) => if previous matches Some(p) && p.timestamp.position()
                >= bar.timestamp.position() {
                Some(LedgerError::StaleMarket)
            } else {
                None
            },
        },
    }
}

/// Why a single new event is refused before it is projected, if it is.
pub open spec fn single_fault(log: Log, s: StrategyStateView, e: EventEnvelopeView) -> Option<
    LedgerError,
> {
    if e.schema_version != current_schema(e.event_type) {
        Some(LedgerError::OldLayout)
    } else {
        match binding_fault(s, e) {
            Some(x) => Some(x),
            None => if e.event_type == EventType::MarketDataReceived {
                single_market_fault(log, s, e)
            } else if needs_batch(e.event_type) {
                Some(LedgerError::NeedsBatch)
            } else if opens(e) {
                Some(LedgerError::NeedsOpeningBatch)
            } else if e.event_type == EventType::GridLevelRearmed {
                match latest_bar(log, s.run_id) {
                    Err(x) => Some(x),
                    Ok(bar) => rearm_fault(log, s, e, bar),
                }
            } else if e.event_type == EventType::MarketBarDecisionsCommitted || e.event_type
                == EventType::MarketBarProcessed {
                stage_fault(log, s, e)
            } else {
                None
            },
        }
    }
}

/// The state that a new event leads to, if it is approved and the state is in
/// order.
pub open spec fn projected_one(s: StrategyStateView, e: EventEnvelopeView, a: AppraisalView) -> Result<
    StrategyStateView,
    LedgerError,
> {
    match approval_fault(s, e, a) {
        Some(x) => Err(x),
        None => match applied(s, e, a) {
            Err(x) => Err(LedgerError::Event(x)),
            Ok(n) => match first_violation(n) {
                Some(v) => Err(LedgerError::Invariant(v)),
                None => Ok(n),
            },
        },
    }
}

/// A single event with the event that it follows from.
pub open spec fn caused_one(log: Log, e: EventEnvelopeView) -> EventEnvelopeView {
    if is_new(log, e) {
        EventEnvelopeView { causation_id: latest_cause(log, e.run_id, e.correlation_id), ..e }
    } else {
        e
    }
}

/// Why a single event is refused, if it is.
pub open spec fn append_fault(
    w: LedgerWriterView,
    e: EventEnvelopeView,
    a: AppraisalView,
    offline: bool,
) -> Option<LedgerError> {
    if needs_boundary(e.event_type) && !offline {
        Some(LedgerError::Boundary)
    } else if e.run_id != w.state.run_id {
        Some(LedgerError::ForeignRun)
    } else if e.symbol != w.state.symbol {
        Some(LedgerError::ForeignSymbol)
    } else if !is_new(w.journal.log, e) {
        None
    } else {
        match single_fault(w.journal.log, w.state, e) {
            Some(x) => Some(x),
            None => match projected_one(w.state, caused_one(w.journal.log, e), a) {
                Err(x) => Some(x),
                Ok(_) => None,
            },
        }
    }
}

/// The state after an event was offered again.
pub open spec fn repeated(s: StrategyStateView) -> Result<StrategyStateView, LedgerError> {
    match s.duplicate_events.checked_add(1) {
        Some(duplicate_events) => Ok(StrategyStateView { duplicate_events, ..s }),
        None => Err(LedgerError::Event(EventError::CounterOverflow)),
    }
}

/// What follows from an event that is offered: the ledger after it, and what
/// became of it.
pub open spec fn written(
    w: LedgerWriterView,
    e: EventEnvelopeView,
    a: AppraisalView,
    offline: bool,
) -> (LedgerWriterView, Result<AppendOutcome, LedgerError>) {
    let c = caused_one(w.journal.log, e);
    match append_fault(w, e, a, offline) {
        Some(x) => (w, Err(x)),
        None => match one_appended(w.journal, c, w.last_sequence) {
            Err(x) => (w, Err(LedgerError::Append(x))),
            Ok(o) => {
                let journal = recorded(w.journal, c, o);
                match o {
                    AppendOutcome::Duplicate => match repeated(w.state) {
                        Ok(state) => (LedgerWriterView { journal, state, ..w }, Ok(o)),
                        Err(x) => (LedgerWriterView { journal, ..w }, Err(x)),
                    },
                    AppendOutcome::Appended(n) => match applied(w.state, numbered(c, o), a) {
                        Ok(state) => (
                            LedgerWriterView { journal, state, last_sequence: n },
                            Ok(o),
                        ),
                        Err(x) => (
                            LedgerWriterView { journal, ..w },
                            Err(LedgerError::Event(x)),
                        ),
                    },
                }
            },
        },
    }
}

/// The last new event before a position of a batch with a correlation.
pub open spec fn batch_cause(log: Log, events: Log, correlation: Seq<char>, n: nat) -> Option<Seq<char>>
    decreases n,
{
    if n == 0 {
        None
    } else if is_new(log, events[n - 1]) && events[n - 1].correlation_id == correlation {
        Some(events[n - 1].event_id)
    } else {
        batch_cause(log, events, correlation, (n - 1) as nat)
    }
}

/// An event of a batch with the event that it follows from.
pub open spec fn caused_at(log: Log, events: Log, i: int) -> EventEnvelopeView {
    let e = events[i];
    if !is_new(log, e) {
        e
    } else {
        match batch_cause(log, events, e.correlation_id, i as nat) {
            Some(id) => EventEnvelopeView { causation_id: Some(id), ..e },
            None => EventEnvelopeView {
                causation_id: latest_cause(log, e.run_id, e.correlation_id),
                ..e
            },
        }
    }
}

/// The events of a batch, each with the event that it follows from.
pub open spec fn caused(log: Log, events: Log) -> Log {
    Seq::new(events.len(), |i: int| caused_at(log, events, i))
}

/// A state with the last bar before it.
pub struct Projection {
    pub state: StrategyStateView,
    pub bar: Option<MarketBarView>,
}

/// The projection after one more new event.
pub open spec fn projected_step(
    log: Log,
    p: Projection,
    e: EventEnvelopeView,
    a: AppraisalView,
) -> Result<Projection, LedgerError> {
    match approval_fault(p.state, e, a) {
        Some(x) => Err(x),
        None => {
            let evidence = if e.event_type == EventType::GridLevelRearmed {
                rearm_fault(log, p.state, e, p.bar)
            } else if e.event_type == EventType::GridCycleReset {
                reset_fault(log, p.state, e)
            } else {
                None
            };
            match evidence {
                Some(x) => Err(x),
                None => match applied(p.state, e, a) {
                    Err(x) => Err(LedgerError::Event(x)),
                    Ok(state) => if e.event_type == EventType::MarketDataReceived {
                        match bar_of(e) {
                            None => Err(LedgerError::Unreadable),
                            Some(bar) => Ok(Projection { state, bar: Some(bar) }),
                        }
                    } else {
                        Ok(Projection { state, bar: p.bar })
                    },
                },
            }
        },
    }
}

/// The projection after the first `n` events of a batch.
pub open spec fn projected(
    log: Log,
    p: Projection,
    events: Log,
    appraisals: Seq<AppraisalView>,
    n: nat,
) -> Result<Projection, LedgerError>
    decreases n,
{
    if n == 0 {
        Ok(p)
    } else {
        match projected(log, p, events, appraisals, (n - 1) as nat) {
            Err(x) => Err(x),
            Ok(q) => if !is_new(log, events[n - 1]) {
                Ok(q)
            } else if n > appraisals.len() {
                Err(LedgerError::Unapproved)
            } else {
                projected_step(log, q, events[n - 1], appraisals[n - 1])
            },
        }
    }
}

/// Why a batch is not of the run, if it is not.
pub open spec fn batch_run_fault(w: LedgerWriterView, events: Log) -> Option<LedgerError> {
    if events.len() == 0 {
        Some(LedgerError::EmptyBatch)
    } else if exists|i: int|
        0 <= i < events.len() && needs_boundary((#[trigger] events[i]).event_type) {
        Some(LedgerError::Boundary)
    } else if exists|i: int| 0 <= i < events.len() && (#[trigger] events[i]).run_id != w.state.run_id {
        Some(LedgerError::ForeignRun)
    } else if exists|i: int| 0 <= i < events.len() && (#[trigger] events[i]).symbol != w.state.symbol {
        Some(LedgerError::ForeignSymbol)
    } else {
        None
    }
}

/// Why a batch is refused, if it is. The events are caused already.
pub open spec fn batch_fault(
    w: LedgerWriterView,
    events: Log,
    appraisals: Seq<AppraisalView>,
) -> Option<LedgerError> {
    let offered = Batch { log: w.journal.log, state: w.state, events };
    match offered_fault(offered) {
        Some(x) => Some(x),
        None => {
            let start = Projection {
                state: w.state,
                bar: match latest_bar(w.journal.log, w.state.run_id) {
                    Ok(bar) => bar,
                    Err(_) => None,
                },
            };
            match projected(w.journal.log, start, events, appraisals, events.len()) {
                Err(x) => Some(x),
                Ok(p) => match projected_fault(
                    Batch { log: w.journal.log, state: p.state, events },
                ) {
                    Some(x) => Some(x),
                    None => match first_violation(p.state) {
                        Some(v) => Some(LedgerError::Invariant(v)),
                        None => None,
                    },
                },
            }
        },
    }
}

/// The ledger after the first `n` outcomes of a batch, or why one of them does
/// not follow.
pub open spec fn settled(
    w: LedgerWriterView,
    events: Log,
    appraisals: Seq<AppraisalView>,
    outcomes: Seq<AppendOutcome>,
    n: nat,
) -> (LedgerWriterView, Result<(), LedgerError>)
    decreases n,
{
    if n == 0 {
        (w, Ok(()))
    } else {
        let (before, r) = settled(w, events, appraisals, outcomes, (n - 1) as nat);
        match r {
            Err(x) => (before, Err(x)),
            Ok(_) => match outcomes[n - 1] {
                AppendOutcome::Duplicate => match repeated(before.state) {
                    Ok(state) => (LedgerWriterView { state, ..before }, Ok(())),
                    Err(x) => (before, Err(x)),
                },
                AppendOutcome::Appended(sequence) => match applied(
                    before.state,
                    events[n - 1],
                    appraisals[n - 1],
                ) {
                    Ok(state) => (
                        LedgerWriterView { state, last_sequence: sequence, ..before },
                        Ok(()),
                    ),
                    Err(x) => (before, Err(LedgerError::Event(x))),
                },
            },
        }
    }
}

/// What follows from a batch that is offered.
pub open spec fn batch_written(
    w: LedgerWriterView,
    events: Log,
    appraisals: Seq<AppraisalView>,
) -> (LedgerWriterView, Result<(), LedgerError>) {
    match batch_run_fault(w, events) {
        Some(x) => (w, Err(x)),
        None => {
            let c = caused(w.journal.log, events);
            match batch_fault(w, c, appraisals) {
                Some(x) => (w, Err(x)),
                None => match appended(w.journal, c, Some(w.last_sequence)) {
                    Err(x) => (w, Err(LedgerError::Append(x))),
                    Ok(b) => settled(
                        LedgerWriterView { journal: b.journal, ..w },
                        b.events,
                        appraisals,
                        b.outcomes,
                        b.outcomes.len(),
                    ),
                },
            }
        },
    }
}

/// Whether no two new events of a batch have the same key.
pub open spec fn keys_differ(log: Log, events: Log) -> bool {
    forall|i: int, k: int|
        0 <= i < k < events.len() && is_new(log, #[trigger] events[k]) ==> (
        #[trigger] events[i]).idempotency_key != events[k].idempotency_key
}

/// The batch with its causes, up to the first event that is not in its layout or not
/// of the opportunity.
pub open spec fn batch_caused(w: LedgerWriterView, events: Log) -> Log {
    let c = caused(w.journal.log, events);
    let offered = Batch { log: w.journal.log, state: w.state, events: c };
    Seq::new(
        events.len(),
        |k: int|
            if laid_out(offered, k) {
                c[k]
            } else {
                events[k]
            },
    )
}

/// The batch after it was offered. One that is not of the run is as it was. One that
/// is refused has its causes, and one that reached the journal its sequence numbers,
/// each as far as the batch was gone through.
pub open spec fn batch_left(
    w: LedgerWriterView,
    events: Log,
    appraisals: Seq<AppraisalView>,
) -> Log {
    let c = caused(w.journal.log, events);
    if batch_run_fault(w, events) is Some {
        events
    } else if batch_fault(w, c, appraisals) is Some {
        batch_caused(w, events)
    } else {
        crate::journal::append::batch_left(w.journal, c, Some(w.last_sequence))
    }
}

proof fn lemma_projected_stops(
    log: Log,
    p: Projection,
    events: Log,
    appraisals: Seq<AppraisalView>,
    n: nat,
    m: nat,
)
    requires
        n <= m,
        projected(log, p, events, appraisals, n) is Err,
    ensures
        projected(log, p, events, appraisals, m) == projected(log, p, events, appraisals, n),
    decreases m - n,
{
    if n < m {
        lemma_projected_stops(log, p, events, appraisals, n, (m - 1) as nat);
    }
}

proof fn lemma_settled_stops(
    w: LedgerWriterView,
    events: Log,
    appraisals: Seq<AppraisalView>,
    outcomes: Seq<AppendOutcome>,
    n: nat,
    m: nat,
)
    requires
        n <= m,
        settled(w, events, appraisals, outcomes, n).1 is Err,
    ensures
        settled(w, events, appraisals, outcomes, m) == settled(
            w,
            events,
            appraisals,
            outcomes,
            n,
        ),
    decreases m - n,
{
    if n < m {
        lemma_settled_stops(w, events, appraisals, outcomes, n, (m - 1) as nat);
    }
}

/// What a batch appends has as many outcomes as it has events, and an event that
/// was appended was new.
pub proof fn lemma_outcomes(j: JournalView, events: Log, n: nat)
    requires
        n <= events.len(),
        batched(j, events, n) is Ok,
    ensures
        ({
            let b = batched(j, events, n)->Ok_0;
            &&& b.outcomes.len() == n
            &&& b.events.len() == n
            &&& j.log.len() <= b.journal.log.len()
            &&& forall|k: int| 0 <= k < j.log.len() ==> (#[trigger] b.journal.log[k]) == j.log[k]
            &&& forall|k: int|
                0 <= k < n && (#[trigger] b.outcomes[k]) is Appended ==> is_new(j.log, events[k])
        }),
    decreases n,
{
    if n > 0 {
        lemma_outcomes(j, events, (n - 1) as nat);
        let before = batched(j, events, (n - 1) as nat)->Ok_0;
        let b = batched(j, events, n)->Ok_0;
        let e = events[n - 1];
        let q = crate::journal::query::with_key(e.run_id, e.idempotency_key);
        crate::journal::query::lemma_last_before(before.journal.log, q, before.journal.log.len());
        if b.outcomes[n - 1] is Appended {
            assert forall|k: int| 0 <= k < j.log.len() implies !fits(#[trigger] j.log[k], q) by {
                assert(before.journal.log[k] == j.log[k]);
            }
        }
    }
}

fn comes_through_boundary(kind: EventType) -> (r: bool)
    ensures
        r == needs_boundary(kind),
{
    matches!(
        kind,
        EventType::PlatformUpgradeAuthorized
            | EventType::PlatformUpgradeActivated
            | EventType::OngoingResourcePolicyActivated
    )
}

fn only_in_batches(kind: EventType) -> (r: bool)
    ensures
        r == needs_batch(kind),
{
    matches!(
        kind,
        EventType::GridRightGranted
            | EventType::GridLevelTouched
            | EventType::GridLevelSkipped
            | EventType::GridCycleStarted
            | EventType::GridCycleReset
            | EventType::GridLevelArmed
    )
}

fn is_opening(e: &EventEnvelope) -> (r: bool)
    ensures
        r == opens(e@),
{
    if e.event_type == EventType::InitialDeploymentEvaluated {
        return true;
    }
    e.event_type == EventType::OrderIntentCreated && match &e.payload {
        Payload::Intent(order) => order.intent.origin.is_some(),
        _ => false,
    }
}

fn bar_ref(bar: &Option<MarketBar>) -> (r: Option<&MarketBar>)
    ensures
        match bar.deep_view() {
            Some(x) => r matches Some(y) && y@ == x,
            None => r is None,
        },
{
    match bar {
        Some(x) => Some(x),
        None => None,
    }
}

impl LedgerWriter {
    pub fn new(journal: Journal, state: StrategyState, last_sequence: i64) -> (r: Self)
        ensures
            r@ == (LedgerWriterView { journal: journal@, state: state@, last_sequence }),
    {
        LedgerWriter { journal, state, last_sequence }
    }

    fn is_new_event(&self, e: &EventEnvelope) -> (r: bool)
        ensures
            r == is_new(self@.journal.log, e@),
    {
        !self.journal.has_idempotency_key(e.run_id.as_str(), e.idempotency_key.as_str())
    }

    fn check_single_market(&self, e: &EventEnvelope) -> (r: Option<LedgerError>)
        ensures
            r == single_market_fault(self@.journal.log, self@.state, e@),
    {
        match e.bar() {
            None => Some(LedgerError::Unreadable),
            Some(bar) => match self.journal.latest_bar(self.state.run_id.as_str()) {
                Err(x) => Some(x),
                Ok(previous) => match previous {
                    Some(p) => if p.timestamp.before(&bar.timestamp) {
                        None
                    } else {
                        Some(LedgerError::StaleMarket)
                    },
                    None => None,
                },
            },
        }
    }

    fn check_single(&self, e: &EventEnvelope) -> (r: Option<LedgerError>)
        ensures
            r == single_fault(self@.journal.log, self@.state, e@),
    {
        if e.schema_version != current_event_schema(e.event_type) {
            return Some(LedgerError::OldLayout);
        }
        if let Err(x) = validate_current_opportunity_binding(&self.state, e) {
            return Some(x);
        }
        if e.event_type == EventType::MarketDataReceived {
            return self.check_single_market(e);
        }
        if only_in_batches(e.event_type) {
            return Some(LedgerError::NeedsBatch);
        }
        if is_opening(e) {
            return Some(LedgerError::NeedsOpeningBatch);
        }
        if e.event_type == EventType::GridLevelRearmed {
            return match self.journal.latest_bar(self.state.run_id.as_str()) {
                Err(x) => Some(x),
                Ok(bar) => match validate_current_rearm_evidence(
                    &self.journal,
                    &self.state,
                    e,
                    bar_ref(&bar),
                ) {
                    Ok(_) => None,
                    Err(x) => Some(x),
                },
            };
        }
        if e.event_type == EventType::MarketBarDecisionsCommitted || e.event_type
            == EventType::MarketBarProcessed {
            return match validate_current_market_stage(&self.journal, &self.state, e) {
                Ok(_) => None,
                Err(x) => Some(x),
            };
        }
        None
    }

    fn check_projection(&self, e: &EventEnvelope, a: &Appraisal) -> (r: Option<LedgerError>)
        ensures
            r == (match projected_one(self@.state, e@, a@) {
                Ok(_) => None,
                Err(x) => Some(x),
            }),
    {
        if let Err(x) = validate_current_platform_approval(&self.state, e, a) {
            return Some(x);
        }
        let mut next = self.state.dup();
        match next.apply_event(e, a) {
            Err(x) => Some(LedgerError::Event(x)),
            Ok(_) => match next.validate_invariants() {
                Err(v) => Some(LedgerError::Invariant(v)),
                Ok(_) => None,
            },
        }
    }

    fn repeat(&mut self) -> (r: Result<(), LedgerError>)
        ensures
            match repeated(old(self)@.state) {
                Ok(state) => r is Ok && final(self)@ == (LedgerWriterView { state, ..old(self)@ }),
                Err(x) => r == Err::<(), LedgerError>(x) && *final(self) == *old(self),
            },
    {
        match self.state.duplicate_events.checked_add(1) {
            Some(n) => {
                self.state.duplicate_events = n;
                Ok(())
            },
            None => Err(LedgerError::Event(EventError::CounterOverflow)),
        }
    }

    fn append_inner(&mut self, event: EventEnvelope, appraisal: &Appraisal, offline: bool) -> (r:
        Result<AppendOutcome, LedgerError>)
        ensures
            written(old(self)@, event@, appraisal@, offline) == (final(self)@, r),
    {
        let ghost w = self@;
        let ghost offered = event@;
        let mut event = event;
        if comes_through_boundary(event.event_type) && !offline {
            return Err(LedgerError::Boundary);
        }
        if !text_eq(event.run_id.as_str(), self.state.run_id.as_str()) {
            return Err(LedgerError::ForeignRun);
        }
        if !text_eq(event.symbol.as_str(), self.state.symbol.as_str()) {
            return Err(LedgerError::ForeignSymbol);
        }
        if self.is_new_event(&event) {
            if let Some(x) = self.check_single(&event) {
                return Err(x);
            }
            let cause = self.journal.latest_event_id_for_correlation(
                event.run_id.as_str(),
                event.correlation_id.as_str(),
            );
            event.causation_id = cause;
            assert(event@ == caused_one(w.journal.log, offered));
            if let Some(x) = self.check_projection(&event, appraisal) {
                return Err(x);
            }
        }
        assert(event@ == caused_one(w.journal.log, offered));
        assert(append_fault(w, offered, appraisal@, offline) is None);
        let last: i64 = self.last_sequence;
        match self.journal.append_expected(&mut event, last) {
            Err(x) => Err(LedgerError::Append(x)),
            Ok(o) => match o {
                AppendOutcome::Duplicate => match self.repeat() {
                    Ok(_) => Ok(o),
                    Err(x) => Err(x),
                },
                AppendOutcome::Appended(n) => match self.state.apply_event(&event, appraisal) {
                    Ok(_) => {
                        self.last_sequence = n;
                        Ok(o)
                    },
                    Err(x) => Err(LedgerError::Event(x)),
                },
            },
        }
    }

    /// Appends an event of the run. A state in order stays so.
    pub fn append(&mut self, event: EventEnvelope, appraisal: &Appraisal) -> (r: Result<
        AppendOutcome,
        LedgerError,
    >)
        ensures
            written(old(self)@, event@, appraisal@, false) == (final(self)@, r),
            first_violation(old(self)@.state) is None && r is Ok ==> first_violation(
                final(self)@.state,
            ) is None,
    {
        proof {
            law_ledger_stays_in_order(self@, event@, appraisal@, false);
        }
        self.append_inner(event, appraisal, false)
    }

    /// Appends a change of the platform that the run is on.
    pub fn append_platform_upgrade(&mut self, event: EventEnvelope, appraisal: &Appraisal) -> (r:
        Result<AppendOutcome, LedgerError>)
        ensures
            on_platform(event@.event_type) ==> written(old(self)@, event@, appraisal@, true) == (
                final(self)@,
                r,
            ),
            !on_platform(event@.event_type) ==> r == Err::<AppendOutcome, LedgerError>(
                LedgerError::ForeignBoundary,
            ) && *final(self) == *old(self),
            first_violation(old(self)@.state) is None && r is Ok ==> first_violation(
                final(self)@.state,
            ) is None,
    {
        proof {
            law_ledger_stays_in_order(self@, event@, appraisal@, true);
        }
        if !matches!(
            event.event_type,
            EventType::PlatformUpgradeAuthorized | EventType::PlatformUpgradeActivated
        ) {
            return Err(LedgerError::ForeignBoundary);
        }
        self.append_inner(event, appraisal, true)
    }

    /// Appends a policy on ongoing resources.
    pub fn append_ongoing_resource_policy(&mut self, event: EventEnvelope, appraisal: &Appraisal) -> (r:
        Result<AppendOutcome, LedgerError>)
        ensures
            event@.event_type == EventType::OngoingResourcePolicyActivated ==> written(
                old(self)@,
                event@,
                appraisal@,
                true,
            ) == (final(self)@, r),
            event@.event_type != EventType::OngoingResourcePolicyActivated ==> r == Err::<
                AppendOutcome,
                LedgerError,
            >(LedgerError::ForeignBoundary) && *final(self) == *old(self),
            first_violation(old(self)@.state) is None && r is Ok ==> first_violation(
                final(self)@.state,
            ) is None,
    {
        proof {
            law_ledger_stays_in_order(self@, event@, appraisal@, true);
        }
        if event.event_type != EventType::OngoingResourcePolicyActivated {
            return Err(LedgerError::ForeignBoundary);
        }
        self.append_inner(event, appraisal, true)
    }

    fn check_batch_run(&self, events: &Vec<EventEnvelope>) -> (r: Option<LedgerError>)
        ensures
            r == batch_run_fault(self@, events.deep_view()),
    {
        if events.len() == 0 {
            return Some(LedgerError::EmptyBatch);
        }
        let ghost all = events.deep_view();
        let ghost w = self@;
        let mut boundary = false;
        let mut runs = false;
        let mut symbols = false;
        let mut i: usize = 0;
        while i < events.len()
            invariant
                i <= events.len(),
                all == events.deep_view(),
                w == self@,
                boundary == exists|k: int|
                    0 <= k < i && needs_boundary((#[trigger] all[k]).event_type),
                runs == exists|k: int|
                    0 <= k < i && (#[trigger] all[k]).run_id != w.state.run_id,
                symbols == exists|k: int|
                    0 <= k < i && (#[trigger] all[k]).symbol != w.state.symbol,
            decreases events.len() - i,
        {
            assert(all[i as int] == events[i as int]@);
            if comes_through_boundary(events[i].event_type) {
                boundary = true;
            }
            if !text_eq(events[i].run_id.as_str(), self.state.run_id.as_str()) {
                runs = true;
            }
            if !text_eq(events[i].symbol.as_str(), self.state.symbol.as_str()) {
                symbols = true;
            }
            i = i + 1;
        }
        if boundary {
            return Some(LedgerError::Boundary);
        }
        if runs {
            return Some(LedgerError::ForeignRun);
        }
        if symbols {
            return Some(LedgerError::ForeignSymbol);
        }
        None
    }

    fn cause_in_batch(&self, events: &Vec<EventEnvelope>, is_fresh: &Vec<bool>, i: usize) -> (r: Option<
        String,
    >)
        requires
            i < events.len(),
            is_fresh@.len() == events.len(),
            forall|k: int|
                0 <= k < events.len() ==> #[trigger] is_fresh@[k] == is_new(
                    self@.journal.log,
                    events.deep_view()[k],
                ),
        ensures
            r.deep_view() == batch_cause(
                self@.journal.log,
                events.deep_view(),
                events.deep_view()[i as int].correlation_id,
                i as nat,
            ),
    {
        let ghost all = events.deep_view();
        let ghost log = self@.journal.log;
        assert(all[i as int] == events[i as int]@);
        let mut n: usize = i;
        while n > 0
            invariant
                n <= i < events.len() == is_fresh.len(),
                all == events.deep_view(),
                all[i as int] == events[i as int]@,
                log == self@.journal.log,
                forall|k: int|
                    0 <= k < events.len() ==> #[trigger] is_fresh@[k] == is_new(log, all[k]),
                batch_cause(log, all, all[i as int].correlation_id, i as nat) == batch_cause(
                    log,
                    all,
                    all[i as int].correlation_id,
                    n as nat,
                ),
            decreases n,
        {
            assert(all[n - 1] == events[n - 1]@);
            if is_fresh[n - 1] && text_eq(
                events[n - 1].correlation_id.as_str(),
                events[i].correlation_id.as_str(),
            ) {
                return Some(events[n - 1].event_id.dup());
            }
            n = n - 1;
        }
        None
    }

    fn fresh_flags(&self, events: &Vec<EventEnvelope>) -> (r: Vec<bool>)
        ensures
            r@.len() == events.len(),
            forall|k: int|
                0 <= k < events.len() ==> #[trigger] r@[k] == is_new(
                    self@.journal.log,
                    events.deep_view()[k],
                ),
    {
        let ghost all = events.deep_view();
        let mut out: Vec<bool> = Vec::new();
        let mut i: usize = 0;
        while i < events.len()
            invariant
                i <= events.len(),
                out.len() == i,
                all == events.deep_view(),
                forall|k: int|
                    0 <= k < i ==> #[trigger] out@[k] == is_new(self@.journal.log, all[k]),
            decreases events.len() - i,
        {
            assert(all[i as int] == events[i as int]@);
            out.push(self.is_new_event(&events[i]));
            i = i + 1;
        }
        out
    }

    fn cause_events(&self, events: &Vec<EventEnvelope>, is_fresh: &Vec<bool>) -> (r: Vec<
        EventEnvelope,
    >)
        requires
            is_fresh@.len() == events.len(),
            forall|k: int|
                0 <= k < events.len() ==> #[trigger] is_fresh@[k] == is_new(
                    self@.journal.log,
                    events.deep_view()[k],
                ),
        ensures
            r.deep_view() == caused(self@.journal.log, events.deep_view()),
    {
        let ghost all = events.deep_view();
        let ghost log = self@.journal.log;
        let mut out: Vec<EventEnvelope> = Vec::new();
        let mut i: usize = 0;
        while i < events.len()
            invariant
                i <= events.len() == is_fresh.len(),
                out.len() == i,
                all == events.deep_view(),
                log == self@.journal.log,
                forall|k: int|
                    0 <= k < events.len() ==> #[trigger] is_fresh@[k] == is_new(log, all[k]),
                forall|k: int|
                    0 <= k < i ==> (#[trigger] out.deep_view()[k]) == caused_at(log, all, k),
            decreases events.len() - i,
        {
            assert(all[i as int] == events[i as int]@);
            let ghost before = out.deep_view();
            let mut e = events[i].dup();
            if is_fresh[i] {
                let cause = match self.cause_in_batch(events, is_fresh, i) {
                    Some(id) => Some(id),
                    None => self.journal.latest_event_id_for_correlation(
                        e.run_id.as_str(),
                        e.correlation_id.as_str(),
                    ),
                };
                e.causation_id = cause;
            }
            assert(e@ == caused_at(log, all, i as int));
            out.push(e);
            assert(out.deep_view() =~= before.push(caused_at(log, all, i as int)));
            i = i + 1;
        }
        assert(out.deep_view() =~= caused(log, all));
        out
    }

    fn mark_causes(
        &self,
        events: &mut Vec<EventEnvelope>,
        c: &Vec<EventEnvelope>,
        is_fresh: &Vec<bool>,
    )
        requires
            c.deep_view() == caused(self@.journal.log, old(events).deep_view()),
            is_fresh@.len() == c.len(),
            forall|k: int|
                0 <= k < c.len() ==> #[trigger] is_fresh@[k] == is_new(
                    self@.journal.log,
                    c.deep_view()[k],
                ),
        ensures
            final(events).deep_view() == batch_caused(self@, old(events).deep_view()),
    {
        let ghost all = events.deep_view();
        let desk = Desk { journal: &self.journal, state: &self.state, events: c, is_fresh };
        assert(desk.flagged());
        let ghost b = desk@;
        assert(b.events.len() == all.len() && c.len() == events.len());
        let mut i: usize = 0;
        while i < c.len()
            invariant
                i <= c.len() == events.len() == all.len() == b.events.len(),
                desk.flagged(),
                desk@ == b,
                b.events == c.deep_view(),
                forall|k: int| 0 <= k < i ==> (#[trigger] layout_fault(b, k)) is None,
                forall|k: int|
                    0 <= k < all.len() ==> (#[trigger] events.deep_view()[k]) == (if k < i {
                        b.events[k]
                    } else {
                        all[k]
                    }),
            ensures
                i <= c.len() == events.len() == all.len() == b.events.len(),
                forall|k: int| 0 <= k < i ==> (#[trigger] layout_fault(b, k)) is None,
                i < c.len() ==> layout_fault(b, i as int) is Some,
                forall|k: int|
                    0 <= k < all.len() ==> (#[trigger] events.deep_view()[k]) == (if k < i {
                        b.events[k]
                    } else {
                        all[k]
                    }),
            decreases c.len() - i,
        {
            if desk.check_layout(i).is_some() {
                break;
            }
            let ghost now = events.deep_view();
            assert(b.events[i as int] == c[i as int]@);
            events.set(i, c[i].dup());
            assert(events.deep_view() =~= now.update(i as int, b.events[i as int]));
            i = i + 1;
        }
        proof {
            let r = batch_caused(self@, all);
            assert forall|k: int| 0 <= k < all.len() implies (#[trigger] events.deep_view()[k])
                == r[k] by {
                if k >= i {
                    assert(layout_fault(b, i as int) is Some);
                    assert(!laid_out(b, k));
                } else {
                    assert(laid_out(b, k));
                }
            }
            assert(events.deep_view() =~= r);
        }
    }

    fn project_step(
        &self,
        state: &mut StrategyState,
        bar: &mut Option<MarketBar>,
        e: &EventEnvelope,
        a: &Appraisal,
    ) -> (r: Result<(), LedgerError>)
        ensures
            match projected_step(
                self@.journal.log,
                Projection { state: old(state)@, bar: old(bar).deep_view() },
                e@,
                a@,
            ) {
                Ok(p) => r is Ok && final(state)@ == p.state && final(bar).deep_view() == p.bar,
                Err(x) => r == Err::<(), LedgerError>(x),
            },
    {
        if let Err(x) = validate_current_platform_approval(state, e, a) {
            return Err(x);
        }
        if e.event_type == EventType::GridLevelRearmed {
            if let Err(x) = validate_current_rearm_evidence(&self.journal, state, e, bar_ref(bar)) {
                return Err(x);
            }
        }
        if e.event_type == EventType::GridCycleReset {
            if let Err(x) = validate_current_cycle_reset_evidence(&self.journal, state, e) {
                return Err(x);
            }
        }
        if let Err(x) = state.apply_event(e, a) {
            return Err(LedgerError::Event(x));
        }
        if e.event_type == EventType::MarketDataReceived {
            match e.bar() {
                None => {
                    return Err(LedgerError::Unreadable);
                },
                Some(x) => {
                    *bar = Some(x.dup());
                },
            }
        }
        Ok(())
    }

    fn project(
        &self,
        events: &Vec<EventEnvelope>,
        is_fresh: &Vec<bool>,
        appraisals: &Vec<Appraisal>,
        bar: Option<MarketBar>,
    ) -> (r: Result<StrategyState, LedgerError>)
        requires
            is_fresh@.len() == events.len(),
            forall|k: int|
                0 <= k < events.len() ==> #[trigger] is_fresh@[k] == is_new(
                    self@.journal.log,
                    events.deep_view()[k],
                ),
        ensures
            match projected(
                self@.journal.log,
                Projection { state: self@.state, bar: bar.deep_view() },
                events.deep_view(),
                appraisals.deep_view(),
                events.deep_view().len(),
            ) {
                Ok(p) => r matches Ok(s) && s@ == p.state,
                Err(x) => r matches Err(y) && y == x,
            },
    {
        let ghost all = events.deep_view();
        let ghost said = appraisals.deep_view();
        let ghost log = self@.journal.log;
        let ghost start = Projection { state: self@.state, bar: bar.deep_view() };
        let mut state = self.state.dup();
        let mut last = bar;
        let mut i: usize = 0;
        while i < events.len()
            invariant
                i <= events.len() == is_fresh.len(),
                all == events.deep_view(),
                said == appraisals.deep_view(),
                log == self@.journal.log,
                forall|k: int|
                    0 <= k < events.len() ==> #[trigger] is_fresh@[k] == is_new(log, all[k]),
                projected(log, start, all, said, i as nat) == Ok::<Projection, LedgerError>(
                    Projection { state: state@, bar: last.deep_view() },
                ),
                start == (Projection { state: self@.state, bar: bar.deep_view() }),
            decreases events.len() - i,
        {
            assert(all[i as int] == events[i as int]@);
            if is_fresh[i] {
                if i >= appraisals.len() {
                    proof {
                        lemma_projected_stops(log, start, all, said, (i + 1) as nat, all.len());
                    }
                    return Err(LedgerError::Unapproved);
                }
                assert(said[i as int] == appraisals[i as int]@);
                match self.project_step(&mut state, &mut last, &events[i], &appraisals[i]) {
                    Ok(_) => {},
                    Err(x) => {
                        proof {
                            lemma_projected_stops(log, start, all, said, (i + 1) as nat, all.len());
                        }
                        return Err(x);
                    },
                }
            }
            i = i + 1;
        }
        Ok(state)
    }

    fn check_batch(
        &self,
        events: &Vec<EventEnvelope>,
        is_fresh: &Vec<bool>,
        appraisals: &Vec<Appraisal>,
    ) -> (r: Option<LedgerError>)
        requires
            is_fresh@.len() == events.len(),
            forall|k: int|
                0 <= k < events.len() ==> #[trigger] is_fresh@[k] == is_new(
                    self@.journal.log,
                    events.deep_view()[k],
                ),
        ensures
            r == batch_fault(self@, events.deep_view(), appraisals.deep_view()),
    {
        let desk = Desk { journal: &self.journal, state: &self.state, events, is_fresh };
        assert(desk.flagged());
        if let Some(x) = desk.check_offered() {
            return Some(x);
        }
        let bar = match self.journal.latest_bar(self.state.run_id.as_str()) {
            Ok(bar) => bar,
            Err(_) => None,
        };
        let next = match self.project(events, is_fresh, appraisals, bar) {
            Ok(next) => next,
            Err(x) => {
                return Some(x);
            },
        };
        let desk = Desk { journal: &self.journal, state: &next, events, is_fresh };
        assert(desk.flagged());
        if let Some(x) = desk.check_projected() {
            return Some(x);
        }
        if let Err(v) = next.validate_invariants() {
            return Some(LedgerError::Invariant(v));
        }
        None
    }

    fn settle(
        &mut self,
        events: &Vec<EventEnvelope>,
        appraisals: &Vec<Appraisal>,
        outcomes: &Vec<AppendOutcome>,
    ) -> (r: Result<(), LedgerError>)
        requires
            outcomes.len() <= events.len(),
            forall|k: int|
                0 <= k < outcomes.len() && (#[trigger] outcomes@[k]) is Appended ==> k
                    < appraisals.len(),
        ensures
            settled(
                old(self)@,
                events.deep_view(),
                appraisals.deep_view(),
                outcomes@,
                outcomes@.len(),
            ) == (final(self)@, r),
    {
        let ghost start = self@;
        let ghost all = events.deep_view();
        let ghost said = appraisals.deep_view();
        let mut i: usize = 0;
        while i < outcomes.len()
            invariant
                i <= outcomes.len() <= events.len(),
                all == events.deep_view(),
                said == appraisals.deep_view(),
                start == old(self)@,
                forall|k: int|
                    0 <= k < outcomes.len() && (#[trigger] outcomes@[k]) is Appended ==> k
                        < appraisals.len(),
                settled(start, all, said, outcomes@, i as nat) == (self@, Ok::<(), LedgerError>(())),
            decreases outcomes.len() - i,
        {
            assert(all[i as int] == events[i as int]@);
            match outcomes[i] {
                AppendOutcome::Duplicate => match self.repeat() {
                    Ok(_) => {},
                    Err(x) => {
                        proof {
                            lemma_settled_stops(
                                start,
                                all,
                                said,
                                outcomes@,
                                (i + 1) as nat,
                                outcomes@.len(),
                            );
                        }
                        return Err(x);
                    },
                },
                AppendOutcome::Appended(n) => {
                    assert(outcomes@[i as int] is Appended);
                    assert(said[i as int] == appraisals[i as int]@);
                    match self.state.apply_event(&events[i], &appraisals[i]) {
                        Ok(_) => {
                            self.last_sequence = n;
                        },
                        Err(x) => {
                            proof {
                                lemma_settled_stops(
                                    start,
                                    all,
                                    said,
                                    outcomes@,
                                    (i + 1) as nat,
                                    outcomes@.len(),
                                );
                            }
                            return Err(LedgerError::Event(x));
                        },
                    }
                },
            }
            i = i + 1;
        }
        Ok(())
    }

    /// Appends a batch of the run, all of it or nothing. Each new event names the
    /// event that it follows from, and gets its sequence number. The state after it
    /// is in order, unless the batch holds a new event twice.
    pub fn append_batch(&mut self, events: &mut Vec<EventEnvelope>, appraisals: &Vec<Appraisal>) -> (r:
        Result<(), LedgerError>)
        ensures
            batch_written(old(self)@, old(events).deep_view(), appraisals.deep_view()) == (
                final(self)@,
                r,
            ),
            final(events).deep_view() == batch_left(
                old(self)@,
                old(events).deep_view(),
                appraisals.deep_view(),
            ),
            r is Ok && keys_differ(old(self)@.journal.log, old(events).deep_view())
                ==> first_violation(final(self)@.state) is None,
    {
        proof {
            law_batches_leave_the_state_in_order(
                self@,
                events.deep_view(),
                appraisals.deep_view(),
            );
        }
        let ghost w = self@;
        let ghost offered = events.deep_view();
        if let Some(x) = self.check_batch_run(events) {
            return Err(x);
        }
        let is_fresh = self.fresh_flags(events);
        let mut c = self.cause_events(events, &is_fresh);
        let ghost all = c.deep_view();
        assert(all.len() == offered.len() && c.len() == all.len());
        assert forall|k: int| 0 <= k < c.len() implies #[trigger] is_fresh@[k] == is_new(
            w.journal.log,
            c.deep_view()[k],
        ) by {
            assert(all[k] == caused_at(w.journal.log, offered, k));
        }
        if let Some(x) = self.check_batch(&c, &is_fresh, appraisals) {
            self.mark_causes(events, &c, &is_fresh);
            return Err(x);
        }
        let last: i64 = self.last_sequence;
        match self.journal.append_batch_expected(&mut c, last) {
            Err(x) => {
                *events = c;
                Err(LedgerError::Append(x))
            },
            Ok(outcomes) => {
                proof {
                    lemma_outcomes(w.journal, all, all.len());
                    lemma_appraised(w, all, appraisals.deep_view(), outcomes@);
                }
                let r = self.settle(&c, appraisals, &outcomes);
                *events = c;
                r
            },
        }
    }

    /// Stores a snapshot of the state at the end of the run.
    pub fn save_snapshot(&self, rows: &mut Vec<SnapshotRow>, encoded: &str) -> (r: Result<
        (),
        SnapshotError,
    >)
        ensures
            match snapshot_saved(
                self@.journal,
                old(rows).deep_view(),
                self@.state,
                encoded@,
                self@.last_sequence,
            ) {
                Ok(n) => r is Ok && final(rows).deep_view() == n,
                Err(e) => r == Err::<(), SnapshotError>(e) && *final(rows) == *old(rows),
            },
    {
        self.journal.save_snapshot_validated(rows, &self.state, encoded, self.last_sequence)
    }
}

/// A batch that is accepted has an appraisal for each of its new events.
proof fn lemma_appraised(
    w: LedgerWriterView,
    events: Log,
    appraisals: Seq<AppraisalView>,
    outcomes: Seq<AppendOutcome>,
)
    requires
        batch_fault(w, events, appraisals) is None,
        outcomes.len() <= events.len(),
        forall|k: int|
            0 <= k < outcomes.len() && (#[trigger] outcomes[k]) is Appended ==> is_new(
                w.journal.log,
                events[k],
            ),
    ensures
        forall|k: int|
            0 <= k < outcomes.len() && (#[trigger] outcomes[k]) is Appended ==> k
                < appraisals.len(),
{
    let start = Projection {
        state: w.state,
        bar: match latest_bar(w.journal.log, w.state.run_id) {
            Ok(bar) => bar,
            Err(_) => None,
        },
    };
    assert forall|k: int| 0 <= k < outcomes.len() && (#[trigger] outcomes[k]) is Appended implies k
        < appraisals.len() by {
        if k >= appraisals.len() {
            if projected(w.journal.log, start, events, appraisals, (k + 1) as nat) is Err {
                lemma_projected_stops(
                    w.journal.log,
                    start,
                    events,
                    appraisals,
                    (k + 1) as nat,
                    events.len(),
                );
            }
        }
    }
}

} // verus!

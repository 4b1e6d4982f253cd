//! How the events of a batch belong together.
use crate::event::kinds::EventType;
use crate::event::payload::{EventEnvelope, EventEnvelopeView, Payload, PayloadView};
use crate::journal::query::{named_index, some_row, with_key, Journal, Log};
use crate::ledger::evidence::{disposes, is_disposition, partial};
use crate::model::ledger::{InitialDeploymentOutcome, StrategyState, StrategyStateView};
use crate::text::text_eq;
use crate::value::Value;
use vstd::prelude::*;

verus! {

/// A batch before a journal and a state.
pub struct Batch {
    pub log: Log,
    pub state: StrategyStateView,
    pub events: Log,
}

/// Whether an event of a batch is not in the journal yet.
pub open spec fn is_new(log: Log, e: EventEnvelopeView) -> bool {
    !some_row(log, with_key(e.run_id, e.idempotency_key))
}

/// Whether an event of a batch is not in the journal yet, by its position.
pub open spec fn fresh(b: Batch, i: int) -> bool {
    is_new(b.log, b.events[i])
}

/// Whether an event of a batch is new and of a kind.
pub open spec fn new_of(b: Batch, i: int, kind: EventType) -> bool {
    fresh(b, i) && b.events[i].event_type == kind
}

/// What an event is to have beside it in its batch.
pub enum Want<'a> {
    /// The intent of an opening.
    OpeningIntent(&'a str),
    /// The evaluation that authorizes an opening.
    OpeningEvaluation(&'a str),
    /// The error of a gate with a reason.
    GateError(&'a str),
    /// That a level was armed again, then or later.
    RearmSince(i64),
    /// A touch of a level at the same bar.
    TouchOf(i64),
    /// A touch of the same opportunity at a price.
    TouchAt(i64, &'a str),
    /// The decision on a right.
    DecisionOn(&'a str),
    /// What becomes of a right.
    DispositionOf(&'a str),
    /// A grant of the same opportunity.
    GrantAt(i64),
    /// A skip of the same opportunity.
    SkipAt(i64),
    /// A touch of the same opportunity.
    TouchHere(i64),
}

/// The content of [`Want`].
pub enum WantView {
    OpeningIntent(Seq<char>),
    OpeningEvaluation(Seq<char>),
    GateError(Seq<char>),
    RearmSince(i64),
    TouchOf(i64),
    TouchAt(i64, Seq<char>),
    DecisionOn(Seq<char>),
    DispositionOf(Seq<char>),
    GrantAt(i64),
    SkipAt(i64),
    TouchHere(i64),
}

impl<'a> View for Want<'a> {
    type V = WantView;

    open spec fn view(&self) -> WantView {
        match *self {
            Want::OpeningIntent(x) => WantView::OpeningIntent(x@),
            Want::OpeningEvaluation(x) => WantView::OpeningEvaluation(x@),
            Want::GateError(x) => WantView::GateError(x@),
            Want::RearmSince(n) => WantView::RearmSince(n),
            Want::TouchOf(n) => WantView::TouchOf(n),
            Want::TouchAt(n, x) => WantView::TouchAt(n, x@),
            Want::DecisionOn(x) => WantView::DecisionOn(x@),
            Want::DispositionOf(x) => WantView::DispositionOf(x@),
            Want::GrantAt(n) => WantView::GrantAt(n),
            Want::SkipAt(n) => WantView::SkipAt(n),
            Want::TouchHere(n) => WantView::TouchHere(n),
        }
    }
}

/// Whether two events are of one step of a workflow.
pub open spec fn same_step(c: EventEnvelopeView, e: EventEnvelopeView) -> bool {
    c.correlation_id == e.correlation_id && c.event_time == e.event_time
}

/// Whether two events are of one opportunity.
pub open spec fn same_opportunity(c: EventEnvelopeView, e: EventEnvelopeView) -> bool {
    &&& c.run_id == e.run_id
    &&& c.cycle_id == e.cycle_id
    &&& c.symbol == e.symbol
    &&& same_step(c, e)
}

/// Whether an event is what another one is to have beside it.
pub open spec fn kin(c: EventEnvelopeView, e: EventEnvelopeView, want: WantView) -> bool {
    match want {
        WantView::OpeningIntent(id) => {
            &&& c.event_type == EventType::OrderIntentCreated
            &&& same_step(c, e)
            &&& c.payload matches PayloadView::Intent(order)
            &&& order.intent.origin matches Some(origin)
            &&& origin.deployment_id == id
        },
        WantView::OpeningEvaluation(id) => {
            &&& c.event_type == EventType::InitialDeploymentEvaluated
            &&& same_step(c, e)
            &&& c.payload matches PayloadView::Evaluation(x)
            &&& x.deployment_id == id
            &&& x.outcome == InitialDeploymentOutcome::Authorized
        },
        WantView::GateError(reason) => {
            &&& c.event_type == EventType::ErrorRecorded
            &&& same_opportunity(c, e)
            &&& c.payload matches PayloadView::Error(x)
            &&& x.component == Some("gate"@)
            &&& x.reason_code == Some(reason)
        },
        WantView::RearmSince(n) => {
            &&& c.event_type == EventType::GridLevelRearmed
            &&& c.symbol == e.symbol
            &&& c.event_time.position() >= e.event_time.position()
            &&& named_index(c.payload) == Some(n)
        },
        WantView::TouchOf(n) => {
            &&& c.event_type == EventType::GridLevelTouched
            &&& c.run_id == e.run_id
            &&& c.symbol == e.symbol
            &&& c.event_time == e.event_time
            &&& named_index(c.payload) == Some(n)
        },
        WantView::TouchAt(n, price) => {
            &&& c.event_type == EventType::GridLevelTouched
            &&& same_opportunity(c, e)
            &&& c.payload matches PayloadView::LevelAt(x)
            &&& x.grid_index == Some(n)
            &&& x.price == Some(price)
        },
        WantView::DecisionOn(id) => {
            &&& c.event_type == EventType::GateDecisionMade
            &&& same_opportunity(c, e)
            &&& c.payload matches PayloadView::Decision(x)
            &&& x.response matches Some(response)
            &&& response.right_id == id
        },
        WantView::DispositionOf(id) => {
            &&& disposes(c.event_type)
            &&& !partial(c)
            &&& same_opportunity(c, e)
            &&& c.payload matches PayloadView::Disposition(x)
            &&& x.right_id == Some(id)
        },
        WantView::GrantAt(n) => {
            &&& c.event_type == EventType::GridRightGranted
            &&& same_opportunity(c, e)
            &&& named_index(c.payload) == Some(n)
        },
        WantView::SkipAt(n) => {
            &&& c.event_type == EventType::GridLevelSkipped
            &&& same_opportunity(c, e)
            &&& named_index(c.payload) == Some(n)
        },
        WantView::TouchHere(n) => {
            &&& c.event_type == EventType::GridLevelTouched
            &&& same_opportunity(c, e)
            &&& named_index(c.payload) == Some(n)
        },
    }
}

/// How many new events between two positions are what an event is to have
/// beside it.
pub open spec fn kin_between(b: Batch, e: EventEnvelopeView, want: WantView, from: int, to: int) -> nat
    decreases to - from,
{
    if to <= from {
        0
    } else {
        kin_between(b, e, want, from, to - 1) + if fresh(b, to - 1) && kin(
            b.events[to - 1],
            e,
            want,
        ) {
            1nat
        } else {
            0nat
        }
    }
}

impl EventEnvelope {
    fn is_same_step(&self, e: &EventEnvelope) -> (r: bool)
        ensures
            r == same_step(self@, e@),
    {
        text_eq(self.correlation_id.as_str(), e.correlation_id.as_str()) && self.event_time.same(
            &e.event_time,
        )
    }

    fn is_same_opportunity(&self, e: &EventEnvelope) -> (r: bool)
        ensures
            r == same_opportunity(self@, e@),
    {
        text_eq(self.run_id.as_str(), e.run_id.as_str()) && text_eq(
            self.cycle_id.as_str(),
            e.cycle_id.as_str(),
        ) && text_eq(self.symbol.as_str(), e.symbol.as_str()) && self.is_same_step(e)
    }

    fn names(&self, n: i64) -> (r: bool)
        ensures
            r == (named_index(self@.payload) == Some(n)),
    {
        match self.payload.grid_index() {
            Some(x) => x == n,
            None => false,
        }
    }

    fn is_kin(&self, e: &EventEnvelope, want: &Want) -> (r: bool)
        ensures
            r == kin(self@, e@, want@),
    {
        match want {
            Want::OpeningIntent(id) => self.event_type == EventType::OrderIntentCreated
                && self.is_same_step(e) && match &self.payload {
                Payload::Intent(order) => match &order.intent.origin {
                    Some(origin) => text_eq(origin.deployment_id.as_str(), id),
                    None => false,
                },
                _ => false,
            },
            Want::OpeningEvaluation(id) => self.event_type == EventType::InitialDeploymentEvaluated
                && self.is_same_step(e) && match &self.payload {
                Payload::Evaluation(x) => text_eq(x.deployment_id.as_str(), id) && matches!(
                    x.outcome,
                    InitialDeploymentOutcome::Authorized
                ),
                _ => false,
            },
            Want::GateError(reason) => self.event_type == EventType::ErrorRecorded
                && self.is_same_opportunity(e) && match &self.payload {
                Payload::Error(x) => (match &x.component {
                    Some(component) => text_eq(component.as_str(), "gate"),
                    None => false,
                }) && match &x.reason_code {
                    Some(code) => text_eq(code.as_str(), reason),
                    None => false,
                },
                _ => false,
            },
            Want::RearmSince(n) => self.event_type == EventType::GridLevelRearmed && text_eq(
                self.symbol.as_str(),
                e.symbol.as_str(),
            ) && !self.event_time.before(&e.event_time) && self.names(*n),
            Want::TouchOf(n) => self.event_type == EventType::GridLevelTouched && text_eq(
                self.run_id.as_str(),
                e.run_id.as_str(),
            ) && text_eq(self.symbol.as_str(), e.symbol.as_str()) && self.event_time.same(
                &e.event_time,
            ) && self.names(*n),
            Want::TouchAt(n, price) => self.event_type == EventType::GridLevelTouched
                && self.is_same_opportunity(e) && match &self.payload {
                Payload::LevelAt(x) => (match x.grid_index {
                    Some(index) => index == *n,
                    None => false,
                }) && match &x.price {
                    Some(text) => text_eq(text.as_str(), price),
                    None => false,
                },
                _ => false,
            },
            Want::DecisionOn(id) => self.event_type == EventType::GateDecisionMade
                && self.is_same_opportunity(e) && match &self.payload {
                Payload::Decision(x) => match &x.response {
                    Some(response) => text_eq(response.right_id.as_str(), id),
                    None => false,
                },
                _ => false,
            },
            Want::DispositionOf(id) => is_disposition(self.event_type) && !self.is_partial()
                && self.is_same_opportunity(e) && match &self.payload {
                Payload::Disposition(x) => match &x.right_id {
                    Some(right_id) => text_eq(right_id.as_str(), id),
                    None => false,
                },
                _ => false,
            },
            Want::GrantAt(n) => self.event_type == EventType::GridRightGranted
                && self.is_same_opportunity(e) && self.names(*n),
            Want::SkipAt(n) => self.event_type == EventType::GridLevelSkipped
                && self.is_same_opportunity(e) && self.names(*n),
            Want::TouchHere(n) => self.event_type == EventType::GridLevelTouched
                && self.is_same_opportunity(e) && self.names(*n),
        }
    }
}

/// A batch with the journal and the state that it is checked against.
pub struct Desk<'a> {
    pub journal: &'a Journal,
    pub state: &'a StrategyState,
    pub events: &'a Vec<EventEnvelope>,
    pub is_fresh: &'a Vec<bool>,
}

impl<'a> View for Desk<'a> {
    type V = Batch;

    open spec fn view(&self) -> Batch {
        Batch {
            log: self.journal@.log,
            state: self.state@,
            events: self.events.deep_view(),
        }
    }
}

impl<'a> Desk<'a> {
    /// Whether the flags say which events are new.
    pub open spec fn flagged(self) -> bool {
        &&& self.is_fresh@.len() == self@.events.len()
        &&& forall|i: int|
            0 <= i < self.is_fresh@.len() ==> #[trigger] self.is_fresh@[i] == fresh(self@, i)
    }

    /// An event of the batch.
    pub(crate) fn event(&self, i: usize) -> (r: &'a EventEnvelope)
        requires
            i < self@.events.len(),
        ensures
            r@ == self@.events[i as int],
    {
        assert(self.events.deep_view()[i as int] == self.events[i as int]@);
        &self.events[i]
    }

    /// Whether an event is new and of a kind.
    pub(crate) fn is_new_of(&self, i: usize, kind: EventType) -> (r: bool)
        requires
            self.flagged(),
            i < self@.events.len(),
        ensures
            r == new_of(self@, i as int, kind),
    {
        self.is_fresh[i] && self.event(i).event_type == kind
    }

    /// How many new events between two positions are what an event is to have
    /// beside it.
    pub(crate) fn count(&self, e: &EventEnvelope, want: &Want, from: usize, to: usize) -> (r: usize)
        requires
            self.flagged(),
            to <= self@.events.len(),
        ensures
            r == kin_between(self@, e@, want@, from as int, to as int),
    {
        let mut total: usize = 0;
        if to <= from {
            return 0;
        }
        let mut i: usize = from;
        while i < to
            invariant
                from <= i <= to <= self@.events.len(),
                self.flagged(),
                total <= i - from,
                total == kin_between(self@, e@, want@, from as int, i as int),
            decreases to - i,
        {
            if self.is_fresh[i] && self.event(i).is_kin(e, want) {
                total = total + 1;
            }
            i = i + 1;
        }
        total
    }
}

} // verus!

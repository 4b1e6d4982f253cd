//! Event envelopes and what they carry.
use crate::clock::Moment;
use crate::config::{SnapshotPayload, SnapshotPayloadView};
use crate::digest::{id_of, named_id};
use crate::event::kinds::{current_event_schema, current_schema, EventType};
use crate::model::ledger::{
    GridLevelState, InitialDeploymentEvaluation, InitialDeploymentEvaluationView,
    OngoingResourcePolicyActivation, OngoingResourcePolicyActivationView, Order, OrderView,
    ReconciliationResult, ReconciliationResultView, ServiceMode,
};
use crate::model::market::{MarketBar, MarketBarView};
use crate::model::notices::{
    BalanceNotice, BalanceNoticeView, DecisionNotice, DecisionNoticeView, DispositionNotice,
    DispositionNoticeView, ErrorNotice, ErrorNoticeView, FillNotice, FillNoticeView, LevelNotice, LevelNoticeView, OrderNotice,
    OrderNoticeView, ResetNotice, ResetNoticeView, StageNotice, StageNoticeView, TransferNotice,
    TransferNoticeView,
};
use crate::model::rights::{GridRight, GridRightView, RightTranche, RightTrancheView};
use crate::text::join;
use crate::value::Value;
use vstd::prelude::*;

verus! {

/// What an event carries. Each kind of event has one of these.
pub enum Payload {
    Level(GridLevelState),
    LevelAt(LevelNotice),
    Right(GridRight),
    Tranche(RightTranche),
    Transfer(TransferNotice),
    Balance(BalanceNotice),
    Disposition(DispositionNotice),
    Evaluation(InitialDeploymentEvaluation),
    Activation(OngoingResourcePolicyActivation),
    Intent(Order),
    OrderAt(OrderNotice),
    Fill(FillNotice),
    Day(Option<String>),
    Recovery(String),
    Reconciliation(ReconciliationResult),
    Mode(Option<ServiceMode>),
    Reset(ResetNotice),
    Start(Option<String>),
    Snapshot(SnapshotPayload),
    Decision(DecisionNotice),
    Error(ErrorNotice),
    Stage(StageNotice),
    Bar(MarketBar),
    Other,
}

/// The content of a payload.
pub enum PayloadView {
    Level(GridLevelState),
    LevelAt(LevelNoticeView),
    Right(GridRightView),
    Tranche(RightTrancheView),
    Transfer(TransferNoticeView),
    Balance(BalanceNoticeView),
    Disposition(DispositionNoticeView),
    Evaluation(InitialDeploymentEvaluationView),
    Activation(OngoingResourcePolicyActivationView),
    Intent(OrderView),
    OrderAt(OrderNoticeView),
    Fill(FillNoticeView),
    Day(Option<Seq<char>>),
    Recovery(Seq<char>),
    Reconciliation(ReconciliationResultView),
    Mode(Option<ServiceMode>),
    Reset(ResetNoticeView),
    Start(Option<Seq<char>>),
    Snapshot(SnapshotPayloadView),
    Decision(DecisionNoticeView),
    Error(ErrorNoticeView),
    Stage(StageNoticeView),
    Bar(MarketBarView),
    Other,
}

impl View for Payload {
    type V = PayloadView;

    open spec fn view(&self) -> PayloadView {
        match *self {
            Payload::Level(x) => PayloadView::Level(x),
            Payload::LevelAt(x) => PayloadView::LevelAt(x@),
            Payload::Right(x) => PayloadView::Right(x@),
            Payload::Tranche(x) => PayloadView::Tranche(x@),
            Payload::Transfer(x) => PayloadView::Transfer(x@),
            Payload::Balance(x) => PayloadView::Balance(x@),
            Payload::Disposition(x) => PayloadView::Disposition(x@),
            Payload::Evaluation(x) => PayloadView::Evaluation(x@),
            Payload::Activation(x) => PayloadView::Activation(x@),
            Payload::Intent(x) => PayloadView::Intent(x@),
            Payload::OrderAt(x) => PayloadView::OrderAt(x@),
            Payload::Fill(x) => PayloadView::Fill(x@),
            Payload::Day(x) => PayloadView::Day(x.deep_view()),
            Payload::Recovery(x) => PayloadView::Recovery(x@),
            Payload::Reconciliation(x) => PayloadView::Reconciliation(x@),
            Payload::Mode(x) => PayloadView::Mode(x),
            Payload::Reset(x) => PayloadView::Reset(x@),
            Payload::Start(x) => PayloadView::Start(x.deep_view()),
            Payload::Snapshot(x) => PayloadView::Snapshot(x@),
            Payload::Decision(x) => PayloadView::Decision(x@),
            Payload::Error(x) => PayloadView::Error(x@),
            Payload::Stage(x) => PayloadView::Stage(x@),
            Payload::Bar(x) => PayloadView::Bar(x@),
            Payload::Other => PayloadView::Other,
        }
    }
}

impl DeepView for Payload {
    type V = PayloadView;

    open spec fn deep_view(&self) -> PayloadView {
        self@
    }
}

impl Value for Payload {
    fn dup(&self) -> (r: Self) {
        match self {
            Payload::Level(x) => Payload::Level(*x),
            Payload::LevelAt(x) => Payload::LevelAt(x.dup()),
            Payload::Right(x) => Payload::Right(x.dup()),
            Payload::Tranche(x) => Payload::Tranche(x.dup()),
            Payload::Transfer(x) => Payload::Transfer(x.dup()),
            Payload::Balance(x) => Payload::Balance(x.dup()),
            Payload::Disposition(x) => Payload::Disposition(x.dup()),
            Payload::Evaluation(x) => Payload::Evaluation(x.dup()),
            Payload::Activation(x) => Payload::Activation(x.dup()),
            Payload::Intent(x) => Payload::Intent(x.dup()),
            Payload::OrderAt(x) => Payload::OrderAt(x.dup()),
            Payload::Fill(x) => Payload::Fill(x.dup()),
            Payload::Day(x) => Payload::Day(x.dup()),
            Payload::Recovery(x) => Payload::Recovery(x.dup()),
            Payload::Reconciliation(x) => Payload::Reconciliation(x.dup()),
            Payload::Mode(x) => Payload::Mode(*x),
            Payload::Reset(x) => Payload::Reset(x.dup()),
            Payload::Start(x) => Payload::Start(x.dup()),
            Payload::Snapshot(x) => Payload::Snapshot(x.dup()),
            Payload::Decision(x) => Payload::Decision(x.dup()),
            Payload::Error(x) => Payload::Error(x.dup()),
            Payload::Stage(x) => Payload::Stage(x.dup()),
            Payload::Bar(x) => Payload::Bar(x.dup()),
            Payload::Other => Payload::Other,
        }
    }

    fn same(&self, other: &Self) -> (r: bool) {
        match (self, other) {
            (Payload::Level(x), Payload::Level(y)) => x.same(y),
            (Payload::LevelAt(x), Payload::LevelAt(y)) => x.same(y),
            (Payload::Right(x), Payload::Right(y)) => x.same(y),
            (Payload::Tranche(x), Payload::Tranche(y)) => x.same(y),
            (Payload::Transfer(x), Payload::Transfer(y)) => x.same(y),
            (Payload::Balance(x), Payload::Balance(y)) => x.same(y),
            (Payload::Disposition(x), Payload::Disposition(y)) => x.same(y),
            (Payload::Evaluation(x), Payload::Evaluation(y)) => x.same(y),
            (Payload::Activation(x), Payload::Activation(y)) => x.same(y),
            (Payload::Intent(x), Payload::Intent(y)) => x.same(y),
            (Payload::OrderAt(x), Payload::OrderAt(y)) => x.same(y),
            (Payload::Fill(x), Payload::Fill(y)) => x.same(y),
            (Payload::Day(x), Payload::Day(y)) => x.same(y),
            (Payload::Recovery(x), Payload::Recovery(y)) => x.same(y),
            (Payload::Reconciliation(x), Payload::Reconciliation(y)) => x.same(y),
            (Payload::Mode(x), Payload::Mode(y)) => x.same(y),
            (Payload::Reset(x), Payload::Reset(y)) => x.same(y),
            (Payload::Start(x), Payload::Start(y)) => x.same(y),
            (Payload::Snapshot(x), Payload::Snapshot(y)) => x.same(y),
            (Payload::Decision(x), Payload::Decision(y)) => x.same(y),
            (Payload::Error(x), Payload::Error(y)) => x.same(y),
            (Payload::Stage(x), Payload::Stage(y)) => x.same(y),
            (Payload::Bar(x), Payload::Bar(y)) => x.same(y),
            (Payload::Other, Payload::Other) => true,
            _ => false,
        }
    }
}

/// An event with what identifies it.
pub struct EventEnvelope {
    pub event_id: String,
    pub event_type: EventType,
    pub schema_version: i32,
    pub run_id: String,
    pub cycle_id: String,
    pub symbol: String,
    pub event_time: Moment,
    pub recorded_at: Moment,
    pub sequence_number: i64,
    pub correlation_id: String,
    pub causation_id: Option<String>,
    pub idempotency_key: String,
    pub payload: Payload,
    /// The payload as it is stored.
    pub encoded: String,
    pub config_version: String,
}

/// The content of [`EventEnvelope`].
pub struct EventEnvelopeView {
    pub event_id: Seq<char>,
    pub event_type: EventType,
    pub schema_version: i32,
    pub run_id: Seq<char>,
    pub cycle_id: Seq<char>,
    pub symbol: Seq<char>,
    pub event_time: Moment,
    pub recorded_at: Moment,
    pub sequence_number: i64,
    pub correlation_id: Seq<char>,
    pub causation_id: Option<Seq<char>>,
    pub idempotency_key: Seq<char>,
    pub payload: PayloadView,
    pub encoded: Seq<char>,
    pub config_version: Seq<char>,
}

impl View for EventEnvelope {
    type V = EventEnvelopeView;

    open spec fn view(&self) -> EventEnvelopeView {
        EventEnvelopeView {
            event_id: self.event_id@,
            event_type: self.event_type,
            schema_version: self.schema_version,
            run_id: self.run_id@,
            cycle_id: self.cycle_id@,
            symbol: self.symbol@,
            event_time: self.event_time,
            recorded_at: self.recorded_at,
            sequence_number: self.sequence_number,
            correlation_id: self.correlation_id@,
            causation_id: self.causation_id.deep_view(),
            idempotency_key: self.idempotency_key@,
            payload: self.payload@,
            encoded: self.encoded@,
            config_version: self.config_version@,
        }
    }
}

impl DeepView for EventEnvelope {
    type V = EventEnvelopeView;

    open spec fn deep_view(&self) -> EventEnvelopeView {
        self@
    }
}

impl Value for EventEnvelope {
    fn dup(&self) -> (r: Self) {
        EventEnvelope {
            event_id: self.event_id.dup(),
            event_type: self.event_type,
            schema_version: self.schema_version,
            run_id: self.run_id.dup(),
            cycle_id: self.cycle_id.dup(),
            symbol: self.symbol.dup(),
            event_time: self.event_time,
            recorded_at: self.recorded_at,
            sequence_number: self.sequence_number,
            correlation_id: self.correlation_id.dup(),
            causation_id: self.causation_id.dup(),
            idempotency_key: self.idempotency_key.dup(),
            payload: self.payload.dup(),
            encoded: self.encoded.dup(),
            config_version: self.config_version.dup(),
        }
    }

    fn same(&self, other: &Self) -> (r: bool) {
        self.event_id.same(&other.event_id)
            && self.event_type == other.event_type
            && self.schema_version == other.schema_version
            && self.run_id.same(&other.run_id)
            && self.cycle_id.same(&other.cycle_id)
            && self.symbol.same(&other.symbol)
            && self.event_time.same(&other.event_time)
            && self.recorded_at.same(&other.recorded_at)
            && self.sequence_number == other.sequence_number
            && self.correlation_id.same(&other.correlation_id)
            && self.causation_id.same(&other.causation_id)
            && self.idempotency_key.same(&other.idempotency_key)
            && self.payload.same(&other.payload)
            && self.encoded.same(&other.encoded)
            && self.config_version.same(&other.config_version)
    }
}

/// The identifier of an event: the same run and key give the same identifier.
pub open spec fn event_identity(run_id: Seq<char>, idempotency_key: Seq<char>) -> Seq<char> {
    named_id(run_id + ":"@ + idempotency_key)
}

impl EventEnvelope {
    /// An event that has not been appended yet, in the layout in which its kind
    /// is written.
    pub fn new(
        event_type: EventType,
        run_id: &str,
        cycle_id: &str,
        symbol: &str,
        event_time: Moment,
        recorded_at: Moment,
        correlation_id: &str,
        causation_id: Option<String>,
        idempotency_key: String,
        payload: Payload,
        encoded: String,
        config_version: &str,
    ) -> (r: Self)
        ensures
            r@ == (EventEnvelopeView {
                event_id: event_identity(run_id@, idempotency_key@),
                event_type,
                schema_version: current_schema(event_type),
                run_id: run_id@,
                cycle_id: cycle_id@,
                symbol: symbol@,
                event_time,
                recorded_at,
                sequence_number: 0,
                correlation_id: correlation_id@,
                causation_id: causation_id.deep_view(),
                idempotency_key: idempotency_key@,
                payload: payload@,
                encoded: encoded@,
                config_version: config_version@,
            }),
    {
        let name = join(run_id, ":");
        let name = join(name.as_str(), idempotency_key.as_str());
        EventEnvelope {
            event_id: id_of(name.as_str()),
            event_type,
            schema_version: current_event_schema(event_type),
            run_id: run_id.to_owned(),
            cycle_id: cycle_id.to_owned(),
            symbol: symbol.to_owned(),
            event_time,
            recorded_at,
            sequence_number: 0,
            correlation_id: correlation_id.to_owned(),
            causation_id,
            idempotency_key,
            payload,
            encoded,
            config_version: config_version.to_owned(),
        }
    }
}

} // verus!

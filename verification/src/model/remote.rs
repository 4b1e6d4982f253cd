//! Orders as a remote account shows them, and as they were staged.
use crate::clock::Day;
use crate::decimal::Decimal;
use crate::model::market::Direction;
use crate::model::market::MarketBar;
use crate::model::market::MarketBarView;
use crate::value::Value;
use vstd::prelude::*;

verus! {

/// Whether a staged order was sent for certain.
#[derive(Clone, Copy, Debug, PartialEq, Eq, Structural)]
pub enum StagedIntentState {
    Ambiguous,
    Certain,
}

impl DeepView for StagedIntentState {
    type V = StagedIntentState;

    open spec fn deep_view(&self) -> StagedIntentState {
        *self
    }
}

impl View for StagedIntentState {
    type V = StagedIntentState;

    open spec fn view(&self) -> StagedIntentState {
        *self
    }
}

impl Value for StagedIntentState {
    fn dup(&self) -> (r: Self) {
        *self
    }

    fn same(&self, other: &Self) -> (r: bool) {
        *self == *other
    }
}

/// How the cancellation of a staged order stands.
#[derive(Clone, Copy, Debug, PartialEq, Eq, Structural)]
pub enum StagedCancelState {
    NotRequested,
    Requested,
    Cancelling,
    Cancelled,
    Ambiguous,
}

impl DeepView for StagedCancelState {
    type V = StagedCancelState;

    open spec fn deep_view(&self) -> StagedCancelState {
        *self
    }
}

impl View for StagedCancelState {
    type V = StagedCancelState;

    open spec fn view(&self) -> StagedCancelState {
        *self
    }
}

impl Value for StagedCancelState {
    fn dup(&self) -> (r: Self) {
        *self
    }

    fn same(&self, other: &Self) -> (r: bool) {
        *self == *other
    }
}

/// How a staged order ended.
#[derive(Clone, Copy, Debug, PartialEq, Eq, Structural)]
pub enum StagedTerminalResolution {
    Unresolved,
    Filled,
    Cancelled,
}

impl DeepView for StagedTerminalResolution {
    type V = StagedTerminalResolution;

    open spec fn deep_view(&self) -> StagedTerminalResolution {
        *self
    }
}

impl View for StagedTerminalResolution {
    type V = StagedTerminalResolution;

    open spec fn view(&self) -> StagedTerminalResolution {
        *self
    }
}

impl Value for StagedTerminalResolution {
    fn dup(&self) -> (r: Self) {
        *self
    }

    fn same(&self, other: &Self) -> (r: bool) {
        *self == *other
    }
}

/// An order of a remote account.
pub struct SimulationOrderRecord {
    pub order_date: String,
    pub order_time: String,
    pub symbol: String,
    pub security_name: String,
    pub direction: Direction,
    pub remark: String,
    pub quantity: i64,
    pub cancelled_quantity: i64,
    pub order_price: Decimal,
    pub fill_price: Option<String>,
    pub contract_id: String,
    pub order_attribute: String,
}

/// The content of [`SimulationOrderRecord`].
#[verifier::ext_equal]
pub struct SimulationOrderRecordView {
    pub order_date: Seq<char>,
    pub order_time: Seq<char>,
    pub symbol: Seq<char>,
    pub security_name: Seq<char>,
    pub direction: Direction,
    pub remark: Seq<char>,
    pub quantity: i64,
    pub cancelled_quantity: i64,
    pub order_price: Decimal,
    pub fill_price: Option<Seq<char>>,
    pub contract_id: Seq<char>,
    pub order_attribute: Seq<char>,
}

impl DeepView for SimulationOrderRecord {
    type V = SimulationOrderRecordView;

    open spec fn deep_view(&self) -> SimulationOrderRecordView {
        SimulationOrderRecordView {
            order_date: self.order_date.deep_view(),
            order_time: self.order_time.deep_view(),
            symbol: self.symbol.deep_view(),
            security_name: self.security_name.deep_view(),
            direction: self.direction,
            remark: self.remark.deep_view(),
            quantity: self.quantity,
            cancelled_quantity: self.cancelled_quantity,
            order_price: self.order_price,
            fill_price: self.fill_price.deep_view(),
            contract_id: self.contract_id.deep_view(),
            order_attribute: self.order_attribute.deep_view(),
        }
    }
}

impl View for SimulationOrderRecord {
    type V = SimulationOrderRecordView;

    open spec fn view(&self) -> SimulationOrderRecordView {
        self.deep_view()
    }
}

impl Value for SimulationOrderRecord {
    fn dup(&self) -> (r: Self) {
        SimulationOrderRecord {
            order_date: self.order_date.dup(),
            order_time: self.order_time.dup(),
            symbol: self.symbol.dup(),
            security_name: self.security_name.dup(),
            direction: self.direction,
            remark: self.remark.dup(),
            quantity: self.quantity,
            cancelled_quantity: self.cancelled_quantity,
            order_price: self.order_price,
            fill_price: self.fill_price.dup(),
            contract_id: self.contract_id.dup(),
            order_attribute: self.order_attribute.dup(),
        }
    }

    fn same(&self, other: &Self) -> (r: bool) {
        self.order_date.same(&other.order_date)
            && self.order_time.same(&other.order_time)
            && self.symbol.same(&other.symbol)
            && self.security_name.same(&other.security_name)
            && self.direction == other.direction
            && self.remark.same(&other.remark)
            && self.quantity == other.quantity
            && self.cancelled_quantity == other.cancelled_quantity
            && self.order_price.same(&other.order_price)
            && self.fill_price.same(&other.fill_price)
            && self.contract_id.same(&other.contract_id)
            && self.order_attribute.same(&other.order_attribute)
    }
}

impl Clone for SimulationOrderRecord {
    fn clone(&self) -> (r: Self)
        ensures
            r@ == self@,
    {
        self.dup()
    }
}

/// A transaction of a remote account.
pub struct RemoteFill {
    pub contract_id: String,
    pub fill_id: String,
    pub symbol: String,
    pub direction: Direction,
    pub quantity: i64,
    pub amount: Decimal,
}

/// The content of [`RemoteFill`].
#[verifier::ext_equal]
pub struct RemoteFillView {
    pub contract_id: Seq<char>,
    pub fill_id: Seq<char>,
    pub symbol: Seq<char>,
    pub direction: Direction,
    pub quantity: i64,
    pub amount: Decimal,
}

impl DeepView for RemoteFill {
    type V = RemoteFillView;

    open spec fn deep_view(&self) -> RemoteFillView {
        RemoteFillView {
            contract_id: self.contract_id.deep_view(),
            fill_id: self.fill_id.deep_view(),
            symbol: self.symbol.deep_view(),
            direction: self.direction,
            quantity: self.quantity,
            amount: self.amount,
        }
    }
}

impl View for RemoteFill {
    type V = RemoteFillView;

    open spec fn view(&self) -> RemoteFillView {
        self.deep_view()
    }
}

impl Value for RemoteFill {
    fn dup(&self) -> (r: Self) {
        RemoteFill {
            contract_id: self.contract_id.dup(),
            fill_id: self.fill_id.dup(),
            symbol: self.symbol.dup(),
            direction: self.direction,
            quantity: self.quantity,
            amount: self.amount,
        }
    }

    fn same(&self, other: &Self) -> (r: bool) {
        self.contract_id.same(&other.contract_id)
            && self.fill_id.same(&other.fill_id)
            && self.symbol.same(&other.symbol)
            && self.direction == other.direction
            && self.quantity == other.quantity
            && self.amount.same(&other.amount)
    }
}

impl Clone for RemoteFill {
    fn clone(&self) -> (r: Self)
        ensures
            r@ == self@,
    {
        self.dup()
    }
}

/// The evidence that a remote order was filled.
pub struct RemoteFilledEvidence {
    pub evidence_contract_version: u32,
    pub contract_id: String,
    pub fills: Vec<RemoteFill>,
}

/// The content of [`RemoteFilledEvidence`].
#[verifier::ext_equal]
pub struct RemoteFilledEvidenceView {
    pub evidence_contract_version: u32,
    pub contract_id: Seq<char>,
    pub fills: Seq<RemoteFillView>,
}

impl DeepView for RemoteFilledEvidence {
    type V = RemoteFilledEvidenceView;

    open spec fn deep_view(&self) -> RemoteFilledEvidenceView {
        RemoteFilledEvidenceView {
            evidence_contract_version: self.evidence_contract_version,
            contract_id: self.contract_id.deep_view(),
            fills: self.fills.deep_view(),
        }
    }
}

impl View for RemoteFilledEvidence {
    type V = RemoteFilledEvidenceView;

    open spec fn view(&self) -> RemoteFilledEvidenceView {
        self.deep_view()
    }
}

impl Value for RemoteFilledEvidence {
    fn dup(&self) -> (r: Self) {
        RemoteFilledEvidence {
            evidence_contract_version: self.evidence_contract_version,
            contract_id: self.contract_id.dup(),
            fills: self.fills.dup(),
        }
    }

    fn same(&self, other: &Self) -> (r: bool) {
        self.evidence_contract_version == other.evidence_contract_version
            && self.contract_id.same(&other.contract_id)
            && self.fills.same(&other.fills)
    }
}

impl Clone for RemoteFilledEvidence {
    fn clone(&self) -> (r: Self)
        ensures
            r@ == self@,
    {
        self.dup()
    }
}

/// An order as it was staged.
pub struct StagedIntent {
    pub intent_id: String,
    pub order_id: String,
    pub symbol: String,
    pub direction: Direction,
    pub quantity: i64,
    pub limit_price: Decimal,
    pub state: StagedIntentState,
    pub cancel_state: StagedCancelState,
    pub terminal_resolution: StagedTerminalResolution,
    pub remote_contract_id: Option<String>,
    /// Whether evidence of the end is stored.
    pub has_terminal_evidence: bool,
    /// The stored evidence, where it can be read.
    pub terminal_evidence: Option<RemoteFilledEvidence>,
}

/// The content of [`StagedIntent`].
#[verifier::ext_equal]
pub struct StagedIntentView {
    pub intent_id: Seq<char>,
    pub order_id: Seq<char>,
    pub symbol: Seq<char>,
    pub direction: Direction,
    pub quantity: i64,
    pub limit_price: Decimal,
    pub state: StagedIntentState,
    pub cancel_state: StagedCancelState,
    pub terminal_resolution: StagedTerminalResolution,
    pub remote_contract_id: Option<Seq<char>>,
    pub has_terminal_evidence: bool,
    pub terminal_evidence: Option<RemoteFilledEvidenceView>,
}

impl DeepView for StagedIntent {
    type V = StagedIntentView;

    open spec fn deep_view(&self) -> StagedIntentView {
        StagedIntentView {
            intent_id: self.intent_id.deep_view(),
            order_id: self.order_id.deep_view(),
            symbol: self.symbol.deep_view(),
            direction: self.direction,
            quantity: self.quantity,
            limit_price: self.limit_price,
            state: self.state,
            cancel_state: self.cancel_state,
            terminal_resolution: self.terminal_resolution,
            remote_contract_id: self.remote_contract_id.deep_view(),
            has_terminal_evidence: self.has_terminal_evidence,
            terminal_evidence: self.terminal_evidence.deep_view(),
        }
    }
}

impl View for StagedIntent {
    type V = StagedIntentView;

    open spec fn view(&self) -> StagedIntentView {
        self.deep_view()
    }
}

impl Value for StagedIntent {
    fn dup(&self) -> (r: Self) {
        StagedIntent {
            intent_id: self.intent_id.dup(),
            order_id: self.order_id.dup(),
            symbol: self.symbol.dup(),
            direction: self.direction,
            quantity: self.quantity,
            limit_price: self.limit_price,
            state: self.state,
            cancel_state: self.cancel_state,
            terminal_resolution: self.terminal_resolution,
            remote_contract_id: self.remote_contract_id.dup(),
            has_terminal_evidence: self.has_terminal_evidence,
            terminal_evidence: self.terminal_evidence.dup(),
        }
    }

    fn same(&self, other: &Self) -> (r: bool) {
        self.intent_id.same(&other.intent_id)
            && self.order_id.same(&other.order_id)
            && self.symbol.same(&other.symbol)
            && self.direction == other.direction
            && self.quantity == other.quantity
            && self.limit_price.same(&other.limit_price)
            && self.state == other.state
            && self.cancel_state == other.cancel_state
            && self.terminal_resolution == other.terminal_resolution
            && self.remote_contract_id.same(&other.remote_contract_id)
            && self.has_terminal_evidence == other.has_terminal_evidence
            && self.terminal_evidence.same(&other.terminal_evidence)
    }
}

impl Clone for StagedIntent {
    fn clone(&self) -> (r: Self)
        ensures
            r@ == self@,
    {
        self.dup()
    }
}

/// What the model filled of an order.
pub struct ModeledFill {
    pub direction: Direction,
    pub quantity: i64,
    pub notional: Decimal,
}

/// The content of [`ModeledFill`].
#[verifier::ext_equal]
pub struct ModeledFillView {
    pub direction: Direction,
    pub quantity: i64,
    pub notional: Decimal,
}

impl DeepView for ModeledFill {
    type V = ModeledFillView;

    open spec fn deep_view(&self) -> ModeledFillView {
        ModeledFillView {
            direction: self.direction,
            quantity: self.quantity,
            notional: self.notional,
        }
    }
}

impl View for ModeledFill {
    type V = ModeledFillView;

    open spec fn view(&self) -> ModeledFillView {
        self.deep_view()
    }
}

impl Value for ModeledFill {
    fn dup(&self) -> (r: Self) {
        ModeledFill {
            direction: self.direction,
            quantity: self.quantity,
            notional: self.notional,
        }
    }

    fn same(&self, other: &Self) -> (r: bool) {
        self.direction == other.direction
            && self.quantity == other.quantity
            && self.notional.same(&other.notional)
    }
}

impl Clone for ModeledFill {
    fn clone(&self) -> (r: Self)
        ensures
            r@ == self@,
    {
        self.dup()
    }
}

/// How far a source says that the market is covered.
#[derive(Clone, Copy, Debug)]
pub struct SourceCompletion {
    pub live_contiguous: bool,
    pub covered_through_us: u64,
    pub previous_covered_through_us: Option<u64>,
    pub session_date: Day,
}

impl DeepView for SourceCompletion {
    type V = SourceCompletion;

    open spec fn deep_view(&self) -> SourceCompletion {
        *self
    }
}

impl View for SourceCompletion {
    type V = SourceCompletion;

    open spec fn view(&self) -> SourceCompletion {
        *self
    }
}

impl Value for SourceCompletion {
    fn dup(&self) -> (r: Self) {
        *self
    }

    fn same(&self, other: &Self) -> (r: bool) {
        self.live_contiguous == other.live_contiguous
            && self.covered_through_us == other.covered_through_us
            && self.previous_covered_through_us.same(&other.previous_covered_through_us)
            && self.session_date.same(&other.session_date)
    }
}

/// When a source was observed.
#[derive(Clone, Copy, Debug)]
pub struct SourceObservation {
    pub observed_at_us: u64,
    pub previous_observed_at_us: Option<u64>,
    pub session_date: Day,
}

impl DeepView for SourceObservation {
    type V = SourceObservation;

    open spec fn deep_view(&self) -> SourceObservation {
        *self
    }
}

impl View for SourceObservation {
    type V = SourceObservation;

    open spec fn view(&self) -> SourceObservation {
        *self
    }
}

impl Value for SourceObservation {
    fn dup(&self) -> (r: Self) {
        *self
    }

    fn same(&self, other: &Self) -> (r: bool) {
        self.observed_at_us == other.observed_at_us
            && self.previous_observed_at_us.same(&other.previous_observed_at_us)
            && self.session_date.same(&other.session_date)
    }
}

/// What a message from the market came to.
pub struct MarketReceipt {
    pub event_timestamp_us: u64,
    pub received_timestamp_us: u64,
    pub completion: Option<SourceCompletion>,
    pub bars: Vec<MarketBar>,
}

/// The content of [`MarketReceipt`].
#[verifier::ext_equal]
pub struct MarketReceiptView {
    pub event_timestamp_us: u64,
    pub received_timestamp_us: u64,
    pub completion: Option<SourceCompletion>,
    pub bars: Seq<MarketBarView>,
}

impl DeepView for MarketReceipt {
    type V = MarketReceiptView;

    open spec fn deep_view(&self) -> MarketReceiptView {
        MarketReceiptView {
            event_timestamp_us: self.event_timestamp_us,
            received_timestamp_us: self.received_timestamp_us,
            completion: self.completion.deep_view(),
            bars: self.bars.deep_view(),
        }
    }
}

impl View for MarketReceipt {
    type V = MarketReceiptView;

    open spec fn view(&self) -> MarketReceiptView {
        self.deep_view()
    }
}

impl Value for MarketReceipt {
    fn dup(&self) -> (r: Self) {
        MarketReceipt {
            event_timestamp_us: self.event_timestamp_us,
            received_timestamp_us: self.received_timestamp_us,
            completion: self.completion.dup(),
            bars: self.bars.dup(),
        }
    }

    fn same(&self, other: &Self) -> (r: bool) {
        self.event_timestamp_us == other.event_timestamp_us
            && self.received_timestamp_us == other.received_timestamp_us
            && self.completion.same(&other.completion)
            && self.bars.same(&other.bars)
    }
}

impl Clone for MarketReceipt {
    fn clone(&self) -> (r: Self)
        ensures
            r@ == self@,
    {
        self.dup()
    }
}

} // verus!

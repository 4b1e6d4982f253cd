//! Commands from the operator and how playback stands.
use crate::value::Value;
use vstd::prelude::*;

verus! {

/// How the playback of a run stands.
#[derive(Clone, Copy, Debug, PartialEq, Eq, Structural)]
pub struct WebPlaybackControl {
    pub command_version: i64,
    pub active: bool,
    pub interval_ms: u64,
}

impl DeepView for WebPlaybackControl {
    type V = WebPlaybackControl;

    open spec fn deep_view(&self) -> WebPlaybackControl {
        *self
    }
}

impl View for WebPlaybackControl {
    type V = WebPlaybackControl;

    open spec fn view(&self) -> WebPlaybackControl {
        *self
    }
}

impl Value for WebPlaybackControl {
    fn dup(&self) -> (r: Self) {
        *self
    }

    fn same(&self, other: &Self) -> (r: bool) {
        *self == *other
    }
}

/// How the playback of a run is stored.
pub struct ControlRow {
    pub run_id: String,
    pub command_version: i64,
    pub active: bool,
    pub interval_ms: i64,
}

/// The content of [`ControlRow`].
#[verifier::ext_equal]
pub struct ControlRowView {
    pub run_id: Seq<char>,
    pub command_version: i64,
    pub active: bool,
    pub interval_ms: i64,
}

impl DeepView for ControlRow {
    type V = ControlRowView;

    open spec fn deep_view(&self) -> ControlRowView {
        ControlRowView {
            run_id: self.run_id.deep_view(),
            command_version: self.command_version,
            active: self.active,
            interval_ms: self.interval_ms,
        }
    }
}

impl View for ControlRow {
    type V = ControlRowView;

    open spec fn view(&self) -> ControlRowView {
        self.deep_view()
    }
}

impl Value for ControlRow {
    fn dup(&self) -> (r: Self) {
        ControlRow {
            run_id: self.run_id.dup(),
            command_version: self.command_version,
            active: self.active,
            interval_ms: self.interval_ms,
        }
    }

    fn same(&self, other: &Self) -> (r: bool) {
        self.run_id.same(&other.run_id)
            && self.command_version == other.command_version
            && self.active == other.active
            && self.interval_ms == other.interval_ms
    }
}

impl Clone for ControlRow {
    fn clone(&self) -> (r: Self)
        ensures
            r@ == self@,
    {
        self.dup()
    }
}

/// What a command was accepted as.
pub struct WebCommandReceipt {
    pub request_sha256: String,
    pub command: String,
    pub expected_sequence: i64,
    pub expected_version: i64,
    pub accepted_version: i64,
    pub target_processed_bars: u64,
    pub completed_response_json: Option<String>,
    pub request_json: Option<String>,
    pub plan_sha256: Option<String>,
    pub config_sha256: Option<String>,
    pub algorithm_sha256: Option<String>,
}

/// The content of [`WebCommandReceipt`].
#[verifier::ext_equal]
pub struct WebCommandReceiptView {
    pub request_sha256: Seq<char>,
    pub command: Seq<char>,
    pub expected_sequence: i64,
    pub expected_version: i64,
    pub accepted_version: i64,
    pub target_processed_bars: u64,
    pub completed_response_json: Option<Seq<char>>,
    pub request_json: Option<Seq<char>>,
    pub plan_sha256: Option<Seq<char>>,
    pub config_sha256: Option<Seq<char>>,
    pub algorithm_sha256: Option<Seq<char>>,
}

impl DeepView for WebCommandReceipt {
    type V = WebCommandReceiptView;

    open spec fn deep_view(&self) -> WebCommandReceiptView {
        WebCommandReceiptView {
            request_sha256: self.request_sha256.deep_view(),
            command: self.command.deep_view(),
            expected_sequence: self.expected_sequence,
            expected_version: self.expected_version,
            accepted_version: self.accepted_version,
            target_processed_bars: self.target_processed_bars,
            completed_response_json: self.completed_response_json.deep_view(),
            request_json: self.request_json.deep_view(),
            plan_sha256: self.plan_sha256.deep_view(),
            config_sha256: self.config_sha256.deep_view(),
            algorithm_sha256: self.algorithm_sha256.deep_view(),
        }
    }
}

impl View for WebCommandReceipt {
    type V = WebCommandReceiptView;

    open spec fn view(&self) -> WebCommandReceiptView {
        self.deep_view()
    }
}

impl Value for WebCommandReceipt {
    fn dup(&self) -> (r: Self) {
        WebCommandReceipt {
            request_sha256: self.request_sha256.dup(),
            command: self.command.dup(),
            expected_sequence: self.expected_sequence,
            expected_version: self.expected_version,
            accepted_version: self.accepted_version,
            target_processed_bars: self.target_processed_bars,
            completed_response_json: self.completed_response_json.dup(),
            request_json: self.request_json.dup(),
            plan_sha256: self.plan_sha256.dup(),
            config_sha256: self.config_sha256.dup(),
            algorithm_sha256: self.algorithm_sha256.dup(),
        }
    }

    fn same(&self, other: &Self) -> (r: bool) {
        self.request_sha256.same(&other.request_sha256)
            && self.command.same(&other.command)
            && self.expected_sequence == other.expected_sequence
            && self.expected_version == other.expected_version
            && self.accepted_version == other.accepted_version
            && self.target_processed_bars == other.target_processed_bars
            && self.completed_response_json.same(&other.completed_response_json)
            && self.request_json.same(&other.request_json)
            && self.plan_sha256.same(&other.plan_sha256)
            && self.config_sha256.same(&other.config_sha256)
            && self.algorithm_sha256.same(&other.algorithm_sha256)
    }
}

impl Clone for WebCommandReceipt {
    fn clone(&self) -> (r: Self)
        ensures
            r@ == self@,
    {
        self.dup()
    }
}

/// How a command is stored.
pub struct ReceiptRow {
    pub run_id: String,
    pub request_id: String,
    pub request_sha256: String,
    pub command: String,
    pub expected_sequence: i64,
    pub expected_version: i64,
    pub accepted_version: i64,
    pub target_processed_bars: i64,
    pub receipt_state: String,
    pub response_json: Option<String>,
    pub request_json: Option<String>,
    pub plan_sha256: Option<String>,
    pub config_sha256: Option<String>,
    pub algorithm_sha256: Option<String>,
    pub created_at: String,
}

/// The content of [`ReceiptRow`].
#[verifier::ext_equal]
pub struct ReceiptRowView {
    pub run_id: Seq<char>,
    pub request_id: Seq<char>,
    pub request_sha256: Seq<char>,
    pub command: Seq<char>,
    pub expected_sequence: i64,
    pub expected_version: i64,
    pub accepted_version: i64,
    pub target_processed_bars: i64,
    pub receipt_state: Seq<char>,
    pub response_json: Option<Seq<char>>,
    pub request_json: Option<Seq<char>>,
    pub plan_sha256: Option<Seq<char>>,
    pub config_sha256: Option<Seq<char>>,
    pub algorithm_sha256: Option<Seq<char>>,
    pub created_at: Seq<char>,
}

impl DeepView for ReceiptRow {
    type V = ReceiptRowView;

    open spec fn deep_view(&self) -> ReceiptRowView {
        ReceiptRowView {
            run_id: self.run_id.deep_view(),
            request_id: self.request_id.deep_view(),
            request_sha256: self.request_sha256.deep_view(),
            command: self.command.deep_view(),
            expected_sequence: self.expected_sequence,
            expected_version: self.expected_version,
            accepted_version: self.accepted_version,
            target_processed_bars: self.target_processed_bars,
            receipt_state: self.receipt_state.deep_view(),
            response_json: self.response_json.deep_view(),
            request_json: self.request_json.deep_view(),
            plan_sha256: self.plan_sha256.deep_view(),
            config_sha256: self.config_sha256.deep_view(),
            algorithm_sha256: self.algorithm_sha256.deep_view(),
            created_at: self.created_at.deep_view(),
        }
    }
}

impl View for ReceiptRow {
    type V = ReceiptRowView;

    open spec fn view(&self) -> ReceiptRowView {
        self.deep_view()
    }
}

impl Value for ReceiptRow {
    fn dup(&self) -> (r: Self) {
        ReceiptRow {
            run_id: self.run_id.dup(),
            request_id: self.request_id.dup(),
            request_sha256: self.request_sha256.dup(),
            command: self.command.dup(),
            expected_sequence: self.expected_sequence,
            expected_version: self.expected_version,
            accepted_version: self.accepted_version,
            target_processed_bars: self.target_processed_bars,
            receipt_state: self.receipt_state.dup(),
            response_json: self.response_json.dup(),
            request_json: self.request_json.dup(),
            plan_sha256: self.plan_sha256.dup(),
            config_sha256: self.config_sha256.dup(),
            algorithm_sha256: self.algorithm_sha256.dup(),
            created_at: self.created_at.dup(),
        }
    }

    fn same(&self, other: &Self) -> (r: bool) {
        self.run_id.same(&other.run_id)
            && self.request_id.same(&other.request_id)
            && self.request_sha256.same(&other.request_sha256)
            && self.command.same(&other.command)
            && self.expected_sequence == other.expected_sequence
            && self.expected_version == other.expected_version
            && self.accepted_version == other.accepted_version
            && self.target_processed_bars == other.target_processed_bars
            && self.receipt_state.same(&other.receipt_state)
            && self.response_json.same(&other.response_json)
            && self.request_json.same(&other.request_json)
            && self.plan_sha256.same(&other.plan_sha256)
            && self.config_sha256.same(&other.config_sha256)
            && self.algorithm_sha256.same(&other.algorithm_sha256)
            && self.created_at.same(&other.created_at)
    }
}

impl Clone for ReceiptRow {
    fn clone(&self) -> (r: Self)
        ensures
            r@ == self@,
    {
        self.dup()
    }
}

/// A command that has not been carried out.
pub struct PendingWebCommand {
    pub request_id: String,
    pub receipt: WebCommandReceipt,
}

/// The content of [`PendingWebCommand`].
#[verifier::ext_equal]
pub struct PendingWebCommandView {
    pub request_id: Seq<char>,
    pub receipt: WebCommandReceiptView,
}

impl DeepView for PendingWebCommand {
    type V = PendingWebCommandView;

    open spec fn deep_view(&self) -> PendingWebCommandView {
        PendingWebCommandView {
            request_id: self.request_id.deep_view(),
            receipt: self.receipt.deep_view(),
        }
    }
}

impl View for PendingWebCommand {
    type V = PendingWebCommandView;

    open spec fn view(&self) -> PendingWebCommandView {
        self.deep_view()
    }
}

impl Value for PendingWebCommand {
    fn dup(&self) -> (r: Self) {
        PendingWebCommand {
            request_id: self.request_id.dup(),
            receipt: self.receipt.dup(),
        }
    }

    fn same(&self, other: &Self) -> (r: bool) {
        self.request_id.same(&other.request_id)
            && self.receipt.same(&other.receipt)
    }
}

impl Clone for PendingWebCommand {
    fn clone(&self) -> (r: Self)
        ensures
            r@ == self@,
    {
        self.dup()
    }
}

/// A command as it is offered.
pub struct WebCommandOffer {
    pub run_id: String,
    pub request_id: String,
    pub request_sha256: String,
    pub command: String,
    pub expected_sequence: i64,
    pub expected_version: i64,
    pub target_processed_bars: u64,
    pub require_exact_sequence: bool,
    pub require_inactive: bool,
    pub require_active: bool,
    pub next_active: bool,
    pub interval_ms: u64,
    pub request_json: String,
    pub config_sha256: String,
    pub algorithm_sha256: String,
}

/// The content of [`WebCommandOffer`].
#[verifier::ext_equal]
pub struct WebCommandOfferView {
    pub run_id: Seq<char>,
    pub request_id: Seq<char>,
    pub request_sha256: Seq<char>,
    pub command: Seq<char>,
    pub expected_sequence: i64,
    pub expected_version: i64,
    pub target_processed_bars: u64,
    pub require_exact_sequence: bool,
    pub require_inactive: bool,
    pub require_active: bool,
    pub next_active: bool,
    pub interval_ms: u64,
    pub request_json: Seq<char>,
    pub config_sha256: Seq<char>,
    pub algorithm_sha256: Seq<char>,
}

impl DeepView for WebCommandOffer {
    type V = WebCommandOfferView;

    open spec fn deep_view(&self) -> WebCommandOfferView {
        WebCommandOfferView {
            run_id: self.run_id.deep_view(),
            request_id: self.request_id.deep_view(),
            request_sha256: self.request_sha256.deep_view(),
            command: self.command.deep_view(),
            expected_sequence: self.expected_sequence,
            expected_version: self.expected_version,
            target_processed_bars: self.target_processed_bars,
            require_exact_sequence: self.require_exact_sequence,
            require_inactive: self.require_inactive,
            require_active: self.require_active,
            next_active: self.next_active,
            interval_ms: self.interval_ms,
            request_json: self.request_json.deep_view(),
            config_sha256: self.config_sha256.deep_view(),
            algorithm_sha256: self.algorithm_sha256.deep_view(),
        }
    }
}

impl View for WebCommandOffer {
    type V = WebCommandOfferView;

    open spec fn view(&self) -> WebCommandOfferView {
        self.deep_view()
    }
}

impl Value for WebCommandOffer {
    fn dup(&self) -> (r: Self) {
        WebCommandOffer {
            run_id: self.run_id.dup(),
            request_id: self.request_id.dup(),
            request_sha256: self.request_sha256.dup(),
            command: self.command.dup(),
            expected_sequence: self.expected_sequence,
            expected_version: self.expected_version,
            target_processed_bars: self.target_processed_bars,
            require_exact_sequence: self.require_exact_sequence,
            require_inactive: self.require_inactive,
            require_active: self.require_active,
            next_active: self.next_active,
            interval_ms: self.interval_ms,
            request_json: self.request_json.dup(),
            config_sha256: self.config_sha256.dup(),
            algorithm_sha256: self.algorithm_sha256.dup(),
        }
    }

    fn same(&self, other: &Self) -> (r: bool) {
        self.run_id.same(&other.run_id)
            && self.request_id.same(&other.request_id)
            && self.request_sha256.same(&other.request_sha256)
            && self.command.same(&other.command)
            && self.expected_sequence == other.expected_sequence
            && self.expected_version == other.expected_version
            && self.target_processed_bars == other.target_processed_bars
            && self.require_exact_sequence == other.require_exact_sequence
            && self.require_inactive == other.require_inactive
            && self.require_active == other.require_active
            && self.next_active == other.next_active
            && self.interval_ms == other.interval_ms
            && self.request_json.same(&other.request_json)
            && self.config_sha256.same(&other.config_sha256)
            && self.algorithm_sha256.same(&other.algorithm_sha256)
    }
}

impl Clone for WebCommandOffer {
    fn clone(&self) -> (r: Self)
        ensures
            r@ == self@,
    {
        self.dup()
    }
}

} // verus!

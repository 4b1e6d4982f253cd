//! Observations of market sources that are kept for research.
use crate::clock::Moment;
use crate::decimal::Decimal;
use crate::value::Value;
use vstd::prelude::*;

verus! {

/// A row of a source, as it was read.
pub struct SourceRow {
    pub day: String,
    pub open: String,
    pub high: String,
    pub low: String,
    pub close: String,
    pub volume: String,
}

/// The content of [`SourceRow`].
#[verifier::ext_equal]
pub struct SourceRowView {
    pub day: Seq<char>,
    pub open: Seq<char>,
    pub high: Seq<char>,
    pub low: Seq<char>,
    pub close: Seq<char>,
    pub volume: Seq<char>,
}

impl DeepView for SourceRow {
    type V = SourceRowView;

    open spec fn deep_view(&self) -> SourceRowView {
        SourceRowView {
            day: self.day.deep_view(),
            open: self.open.deep_view(),
            high: self.high.deep_view(),
            low: self.low.deep_view(),
            close: self.close.deep_view(),
            volume: self.volume.deep_view(),
        }
    }
}

impl View for SourceRow {
    type V = SourceRowView;

    open spec fn view(&self) -> SourceRowView {
        self.deep_view()
    }
}

impl Value for SourceRow {
    fn dup(&self) -> (r: Self) {
        SourceRow {
            day: self.day.dup(),
            open: self.open.dup(),
            high: self.high.dup(),
            low: self.low.dup(),
            close: self.close.dup(),
            volume: self.volume.dup(),
        }
    }

    fn same(&self, other: &Self) -> (r: bool) {
        self.day.same(&other.day)
            && self.open.same(&other.open)
            && self.high.same(&other.high)
            && self.low.same(&other.low)
            && self.close.same(&other.close)
            && self.volume.same(&other.volume)
    }
}

impl Clone for SourceRow {
    fn clone(&self) -> (r: Self)
        ensures
            r@ == self@,
    {
        self.dup()
    }
}

/// A row of a source by its label.
#[derive(Clone, Copy, Debug)]
pub struct SourceBar {
    pub label: Moment,
    pub open: Decimal,
    pub high: Decimal,
    pub low: Decimal,
    pub close: Decimal,
    pub volume: u64,
}

impl DeepView for SourceBar {
    type V = SourceBar;

    open spec fn deep_view(&self) -> SourceBar {
        *self
    }
}

impl View for SourceBar {
    type V = SourceBar;

    open spec fn view(&self) -> SourceBar {
        *self
    }
}

impl Value for SourceBar {
    fn dup(&self) -> (r: Self) {
        *self
    }

    fn same(&self, other: &Self) -> (r: bool) {
        self.label.same(&other.label)
            && self.open.same(&other.open)
            && self.high.same(&other.high)
            && self.low.same(&other.low)
            && self.close.same(&other.close)
            && self.volume == other.volume
    }
}

/// What a response of a source shows. It never admits the source.
pub struct SourceSummary {
    pub row_count: u64,
    pub first_labeled_time: String,
    pub last_labeled_time: String,
    pub observed_dates: Vec<String>,
    pub source_completeness_proven: bool,
    pub instrument_echo_present: bool,
    pub amount_present: bool,
    pub admitted: bool,
}

/// The content of [`SourceSummary`].
#[verifier::ext_equal]
pub struct SourceSummaryView {
    pub row_count: u64,
    pub first_labeled_time: Seq<char>,
    pub last_labeled_time: Seq<char>,
    pub observed_dates: Seq<Seq<char>>,
    pub source_completeness_proven: bool,
    pub instrument_echo_present: bool,
    pub amount_present: bool,
    pub admitted: bool,
}

impl DeepView for SourceSummary {
    type V = SourceSummaryView;

    open spec fn deep_view(&self) -> SourceSummaryView {
        SourceSummaryView {
            row_count: self.row_count,
            first_labeled_time: self.first_labeled_time.deep_view(),
            last_labeled_time: self.last_labeled_time.deep_view(),
            observed_dates: self.observed_dates.deep_view(),
            source_completeness_proven: self.source_completeness_proven,
            instrument_echo_present: self.instrument_echo_present,
            amount_present: self.amount_present,
            admitted: self.admitted,
        }
    }
}

impl View for SourceSummary {
    type V = SourceSummaryView;

    open spec fn view(&self) -> SourceSummaryView {
        self.deep_view()
    }
}

impl Value for SourceSummary {
    fn dup(&self) -> (r: Self) {
        SourceSummary {
            row_count: self.row_count,
            first_labeled_time: self.first_labeled_time.dup(),
            last_labeled_time: self.last_labeled_time.dup(),
            observed_dates: self.observed_dates.dup(),
            source_completeness_proven: self.source_completeness_proven,
            instrument_echo_present: self.instrument_echo_present,
            amount_present: self.amount_present,
            admitted: self.admitted,
        }
    }

    fn same(&self, other: &Self) -> (r: bool) {
        self.row_count == other.row_count
            && self.first_labeled_time.same(&other.first_labeled_time)
            && self.last_labeled_time.same(&other.last_labeled_time)
            && self.observed_dates.same(&other.observed_dates)
            && self.source_completeness_proven == other.source_completeness_proven
            && self.instrument_echo_present == other.instrument_echo_present
            && self.amount_present == other.amount_present
            && self.admitted == other.admitted
    }
}

impl Clone for SourceSummary {
    fn clone(&self) -> (r: Self)
        ensures
            r@ == self@,
    {
        self.dup()
    }
}

/// A receipt of a request to a source, with the response that it names and the
/// rows that the response reads as.
pub struct Evidence {
    pub name: String,
    pub receipt: Vec<u8>,
    pub raw: Option<Vec<u8>>,
    pub rows: Option<Vec<SourceRow>>,
}

/// The content of [`Evidence`].
#[verifier::ext_equal]
pub struct EvidenceView {
    pub name: Seq<char>,
    pub receipt: Seq<u8>,
    pub raw: Option<Seq<u8>>,
    pub rows: Option<Seq<SourceRowView>>,
}

impl DeepView for Evidence {
    type V = EvidenceView;

    open spec fn deep_view(&self) -> EvidenceView {
        EvidenceView {
            name: self.name.deep_view(),
            receipt: self.receipt.deep_view(),
            raw: self.raw.deep_view(),
            rows: self.rows.deep_view(),
        }
    }
}

impl View for Evidence {
    type V = EvidenceView;

    open spec fn view(&self) -> EvidenceView {
        self.deep_view()
    }
}

impl Value for Evidence {
    fn dup(&self) -> (r: Self) {
        Evidence {
            name: self.name.dup(),
            receipt: self.receipt.dup(),
            raw: self.raw.dup(),
            rows: self.rows.dup(),
        }
    }

    fn same(&self, other: &Self) -> (r: bool) {
        self.name.same(&other.name)
            && self.receipt.same(&other.receipt)
            && self.raw.same(&other.raw)
            && self.rows.same(&other.rows)
    }
}

impl Clone for Evidence {
    fn clone(&self) -> (r: Self)
        ensures
            r@ == self@,
    {
        self.dup()
    }
}

/// A change of a row that was seen before.
#[derive(Clone, Copy, Debug)]
pub struct Revision {
    pub sequence: u64,
    pub received_at: Moment,
    pub observed_after_label_end: bool,
    pub open_changed: bool,
    pub high_changed: bool,
    pub low_changed: bool,
    pub close_changed: bool,
    pub volume_changed: bool,
}

impl DeepView for Revision {
    type V = Revision;

    open spec fn deep_view(&self) -> Revision {
        *self
    }
}

impl View for Revision {
    type V = Revision;

    open spec fn view(&self) -> Revision {
        *self
    }
}

impl Value for Revision {
    fn dup(&self) -> (r: Self) {
        *self
    }

    fn same(&self, other: &Self) -> (r: bool) {
        self.sequence == other.sequence
            && self.received_at.same(&other.received_at)
            && self.observed_after_label_end == other.observed_after_label_end
            && self.open_changed == other.open_changed
            && self.high_changed == other.high_changed
            && self.low_changed == other.low_changed
            && self.close_changed == other.close_changed
            && self.volume_changed == other.volume_changed
    }
}

/// What was seen of a label.
pub struct Sighting {
    pub first: Moment,
    pub last: Moment,
    pub first_after_end: Option<Moment>,
    pub bar: SourceBar,
    pub observations: u64,
    pub revisions: Vec<Revision>,
}

/// The content of [`Sighting`].
#[verifier::ext_equal]
pub struct SightingView {
    pub first: Moment,
    pub last: Moment,
    pub first_after_end: Option<Moment>,
    pub bar: SourceBar,
    pub observations: u64,
    pub revisions: Seq<Revision>,
}

impl DeepView for Sighting {
    type V = SightingView;

    open spec fn deep_view(&self) -> SightingView {
        SightingView {
            first: self.first,
            last: self.last,
            first_after_end: self.first_after_end.deep_view(),
            bar: self.bar,
            observations: self.observations,
            revisions: self.revisions.deep_view(),
        }
    }
}

impl View for Sighting {
    type V = SightingView;

    open spec fn view(&self) -> SightingView {
        self.deep_view()
    }
}

impl Value for Sighting {
    fn dup(&self) -> (r: Self) {
        Sighting {
            first: self.first,
            last: self.last,
            first_after_end: self.first_after_end.dup(),
            bar: self.bar,
            observations: self.observations,
            revisions: self.revisions.dup(),
        }
    }

    fn same(&self, other: &Self) -> (r: bool) {
        self.first.same(&other.first)
            && self.last.same(&other.last)
            && self.first_after_end.same(&other.first_after_end)
            && self.bar.same(&other.bar)
            && self.observations == other.observations
            && self.revisions.same(&other.revisions)
    }
}

impl Clone for Sighting {
    fn clone(&self) -> (r: Self)
        ensures
            r@ == self@,
    {
        self.dup()
    }
}

/// A label that was seen before and is not in a later response.
#[derive(Clone, Copy, Debug)]
pub struct Vanished {
    pub sequence: u64,
    pub label: Moment,
}

impl DeepView for Vanished {
    type V = Vanished;

    open spec fn deep_view(&self) -> Vanished {
        *self
    }
}

impl View for Vanished {
    type V = Vanished;

    open spec fn view(&self) -> Vanished {
        *self
    }
}

impl Value for Vanished {
    fn dup(&self) -> (r: Self) {
        *self
    }

    fn same(&self, other: &Self) -> (r: bool) {
        self.sequence == other.sequence
            && self.label.same(&other.label)
    }
}

/// What was seen of a label, by the end of its bar.
pub struct LabelReport {
    pub label: Moment,
    pub first_seen_at: Moment,
    pub last_seen_at: Moment,
    pub first_seen_minus_label_ms: i64,
    pub first_observation_at_or_after_label_ms: Option<i64>,
    pub observations: u64,
    pub revisions: Vec<Revision>,
}

/// The content of [`LabelReport`].
#[verifier::ext_equal]
pub struct LabelReportView {
    pub label: Moment,
    pub first_seen_at: Moment,
    pub last_seen_at: Moment,
    pub first_seen_minus_label_ms: i64,
    pub first_observation_at_or_after_label_ms: Option<i64>,
    pub observations: u64,
    pub revisions: Seq<Revision>,
}

impl DeepView for LabelReport {
    type V = LabelReportView;

    open spec fn deep_view(&self) -> LabelReportView {
        LabelReportView {
            label: self.label,
            first_seen_at: self.first_seen_at,
            last_seen_at: self.last_seen_at,
            first_seen_minus_label_ms: self.first_seen_minus_label_ms,
            first_observation_at_or_after_label_ms: self.first_observation_at_or_after_label_ms.deep_view(),
            observations: self.observations,
            revisions: self.revisions.deep_view(),
        }
    }
}

impl View for LabelReport {
    type V = LabelReportView;

    open spec fn view(&self) -> LabelReportView {
        self.deep_view()
    }
}

impl Value for LabelReport {
    fn dup(&self) -> (r: Self) {
        LabelReport {
            label: self.label,
            first_seen_at: self.first_seen_at,
            last_seen_at: self.last_seen_at,
            first_seen_minus_label_ms: self.first_seen_minus_label_ms,
            first_observation_at_or_after_label_ms: self.first_observation_at_or_after_label_ms.dup(),
            observations: self.observations,
            revisions: self.revisions.dup(),
        }
    }

    fn same(&self, other: &Self) -> (r: bool) {
        self.label.same(&other.label)
            && self.first_seen_at.same(&other.first_seen_at)
            && self.last_seen_at.same(&other.last_seen_at)
            && self.first_seen_minus_label_ms == other.first_seen_minus_label_ms
            && self.first_observation_at_or_after_label_ms.same(&other.first_observation_at_or_after_label_ms)
            && self.observations == other.observations
            && self.revisions.same(&other.revisions)
    }
}

impl Clone for LabelReport {
    fn clone(&self) -> (r: Self)
        ensures
            r@ == self@,
    {
        self.dup()
    }
}

/// A minute of an exchange, as it was read: seven fields in their JSON
/// notation.
pub struct MinuteRow {
    pub fields: Vec<String>,
}

/// The content of [`MinuteRow`].
#[verifier::ext_equal]
pub struct MinuteRowView {
    pub fields: Seq<Seq<char>>,
}

impl DeepView for MinuteRow {
    type V = MinuteRowView;

    open spec fn deep_view(&self) -> MinuteRowView {
        MinuteRowView {
            fields: self.fields.deep_view(),
        }
    }
}

impl View for MinuteRow {
    type V = MinuteRowView;

    open spec fn view(&self) -> MinuteRowView {
        self.deep_view()
    }
}

impl Value for MinuteRow {
    fn dup(&self) -> (r: Self) {
        MinuteRow {
            fields: self.fields.dup(),
        }
    }

    fn same(&self, other: &Self) -> (r: bool) {
        self.fields.same(&other.fields)
    }
}

impl Clone for MinuteRow {
    fn clone(&self) -> (r: Self)
        ensures
            r@ == self@,
    {
        self.dup()
    }
}

/// A response of an exchange, as it was read.
pub struct MinuteResponse {
    pub code: String,
    pub datetime: String,
    pub instrument_code: String,
    pub instrument_name: String,
    pub market_time: String,
    pub volume: u64,
    /// The amount in its JSON notation.
    pub amount: String,
    pub rows: Vec<MinuteRow>,
}

/// The content of [`MinuteResponse`].
#[verifier::ext_equal]
pub struct MinuteResponseView {
    pub code: Seq<char>,
    pub datetime: Seq<char>,
    pub instrument_code: Seq<char>,
    pub instrument_name: Seq<char>,
    pub market_time: Seq<char>,
    pub volume: u64,
    pub amount: Seq<char>,
    pub rows: Seq<MinuteRowView>,
}

impl DeepView for MinuteResponse {
    type V = MinuteResponseView;

    open spec fn deep_view(&self) -> MinuteResponseView {
        MinuteResponseView {
            code: self.code.deep_view(),
            datetime: self.datetime.deep_view(),
            instrument_code: self.instrument_code.deep_view(),
            instrument_name: self.instrument_name.deep_view(),
            market_time: self.market_time.deep_view(),
            volume: self.volume,
            amount: self.amount.deep_view(),
            rows: self.rows.deep_view(),
        }
    }
}

impl View for MinuteResponse {
    type V = MinuteResponseView;

    open spec fn view(&self) -> MinuteResponseView {
        self.deep_view()
    }
}

impl Value for MinuteResponse {
    fn dup(&self) -> (r: Self) {
        MinuteResponse {
            code: self.code.dup(),
            datetime: self.datetime.dup(),
            instrument_code: self.instrument_code.dup(),
            instrument_name: self.instrument_name.dup(),
            market_time: self.market_time.dup(),
            volume: self.volume,
            amount: self.amount.dup(),
            rows: self.rows.dup(),
        }
    }

    fn same(&self, other: &Self) -> (r: bool) {
        self.code.same(&other.code)
            && self.datetime.same(&other.datetime)
            && self.instrument_code.same(&other.instrument_code)
            && self.instrument_name.same(&other.instrument_name)
            && self.market_time.same(&other.market_time)
            && self.volume == other.volume
            && self.amount.same(&other.amount)
            && self.rows.same(&other.rows)
    }
}

impl Clone for MinuteResponse {
    fn clone(&self) -> (r: Self)
        ensures
            r@ == self@,
    {
        self.dup()
    }
}

/// What a response of an exchange shows. It never admits the source.
pub struct MinuteSummary {
    pub snapshot_date: String,
    pub snapshot_at: String,
    pub market_time: String,
    pub row_count: u64,
    pub regular_session_rows: u64,
    pub after_hours_rows: u64,
    /// The hour and the minute of the last row of the regular session.
    pub last_regular_label: String,
    pub aggregate_volume_lots: u64,
    pub regular_volume_lots: u64,
    pub aggregate_amount: String,
    pub regular_amount: String,
    pub regular_session_totals_reconcile: bool,
    pub ohlc_present: bool,
    pub source_sequence_present: bool,
    pub source_completion_proven: bool,
    pub source_revision_semantics_proven: bool,
    pub formal_publication: bool,
    pub admitted: bool,
}

/// The content of [`MinuteSummary`].
#[verifier::ext_equal]
pub struct MinuteSummaryView {
    pub snapshot_date: Seq<char>,
    pub snapshot_at: Seq<char>,
    pub market_time: Seq<char>,
    pub row_count: u64,
    pub regular_session_rows: u64,
    pub after_hours_rows: u64,
    pub last_regular_label: Seq<char>,
    pub aggregate_volume_lots: u64,
    pub regular_volume_lots: u64,
    pub aggregate_amount: Seq<char>,
    pub regular_amount: Seq<char>,
    pub regular_session_totals_reconcile: bool,
    pub ohlc_present: bool,
    pub source_sequence_present: bool,
    pub source_completion_proven: bool,
    pub source_revision_semantics_proven: bool,
    pub formal_publication: bool,
    pub admitted: bool,
}

impl DeepView for MinuteSummary {
    type V = MinuteSummaryView;

    open spec fn deep_view(&self) -> MinuteSummaryView {
        MinuteSummaryView {
            snapshot_date: self.snapshot_date.deep_view(),
            snapshot_at: self.snapshot_at.deep_view(),
            market_time: self.market_time.deep_view(),
            row_count: self.row_count,
            regular_session_rows: self.regular_session_rows,
            after_hours_rows: self.after_hours_rows,
            last_regular_label: self.last_regular_label.deep_view(),
            aggregate_volume_lots: self.aggregate_volume_lots,
            regular_volume_lots: self.regular_volume_lots,
            aggregate_amount: self.aggregate_amount.deep_view(),
            regular_amount: self.regular_amount.deep_view(),
            regular_session_totals_reconcile: self.regular_session_totals_reconcile,
            ohlc_present: self.ohlc_present,
            source_sequence_present: self.source_sequence_present,
            source_completion_proven: self.source_completion_proven,
            source_revision_semantics_proven: self.source_revision_semantics_proven,
            formal_publication: self.formal_publication,
            admitted: self.admitted,
        }
    }
}

impl View for MinuteSummary {
    type V = MinuteSummaryView;

    open spec fn view(&self) -> MinuteSummaryView {
        self.deep_view()
    }
}

impl Value for MinuteSummary {
    fn dup(&self) -> (r: Self) {
        MinuteSummary {
            snapshot_date: self.snapshot_date.dup(),
            snapshot_at: self.snapshot_at.dup(),
            market_time: self.market_time.dup(),
            row_count: self.row_count,
            regular_session_rows: self.regular_session_rows,
            after_hours_rows: self.after_hours_rows,
            last_regular_label: self.last_regular_label.dup(),
            aggregate_volume_lots: self.aggregate_volume_lots,
            regular_volume_lots: self.regular_volume_lots,
            aggregate_amount: self.aggregate_amount.dup(),
            regular_amount: self.regular_amount.dup(),
            regular_session_totals_reconcile: self.regular_session_totals_reconcile,
            ohlc_present: self.ohlc_present,
            source_sequence_present: self.source_sequence_present,
            source_completion_proven: self.source_completion_proven,
            source_revision_semantics_proven: self.source_revision_semantics_proven,
            formal_publication: self.formal_publication,
            admitted: self.admitted,
        }
    }

    fn same(&self, other: &Self) -> (r: bool) {
        self.snapshot_date.same(&other.snapshot_date)
            && self.snapshot_at.same(&other.snapshot_at)
            && self.market_time.same(&other.market_time)
            && self.row_count == other.row_count
            && self.regular_session_rows == other.regular_session_rows
            && self.after_hours_rows == other.after_hours_rows
            && self.last_regular_label.same(&other.last_regular_label)
            && self.aggregate_volume_lots == other.aggregate_volume_lots
            && self.regular_volume_lots == other.regular_volume_lots
            && self.aggregate_amount.same(&other.aggregate_amount)
            && self.regular_amount.same(&other.regular_amount)
            && self.regular_session_totals_reconcile == other.regular_session_totals_reconcile
            && self.ohlc_present == other.ohlc_present
            && self.source_sequence_present == other.source_sequence_present
            && self.source_completion_proven == other.source_completion_proven
            && self.source_revision_semantics_proven == other.source_revision_semantics_proven
            && self.formal_publication == other.formal_publication
            && self.admitted == other.admitted
    }
}

impl Clone for MinuteSummary {
    fn clone(&self) -> (r: Self)
        ensures
            r@ == self@,
    {
        self.dup()
    }
}

} // verus!

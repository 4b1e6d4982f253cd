//! The observations of a source, held against one another.
use crate::clock::{nanos_between, read_instant, utc_of, whole_millis, Day, Moment};
use crate::digest::{sha256_hex, sha256_hex_text};
use crate::json::{json_at, json_part, JsonPart, JsonPartView};
use crate::model::research::{
    Evidence, EvidenceView, LabelReport, LabelReportView, Revision, Sighting, SightingView,
    SourceBar, Vanished,
};
use crate::research::sina::{bars_in, body_of, read_rows, response_body, SourceError, MAX_RESPONSE};
use crate::table::{holds_key, lemma_rank_bound, lookup, rank, with, Table};
use crate::text::{five_digit_text, five_digits, join, read_utf8, text_eq};
use crate::value::{lemma_bytes, Value};
use vstd::prelude::*;

verus! {

/// Why observations are refused.
#[derive(Clone, Copy, Debug, PartialEq, Eq, Structural)]
pub enum AnalyzeError {
    /// A file is too large.
    Oversize,
    /// A file cannot be read.
    Unreadable,
    /// The identity is not that of such an observation.
    Identity,
    /// There is no receipt, or there are too many.
    Receipts,
    /// A receipt is missing from the sequence.
    Sequence,
    /// A receipt is not one of this observation.
    Receipt,
    /// A time of a receipt is no time.
    Time,
    /// Times of receipts go back.
    Reversal,
    /// A receipt of a failure names a response.
    Mixed,
    /// A receipt names another response.
    RawName,
    /// A response is missing.
    RawMissing,
    /// A response is not the one of its receipt.
    RawDigest,
    /// The end of a bar is not one of the calendar.
    Label,
}

/// What is written into every file of such an observation.
pub open spec fn kind_text() -> Seq<char> {
    "UNREVIEWED_SOURCE_RESEARCH_NOT_TRADING_EVIDENCE"@
}

/// The source that is observed.
pub open spec fn url_text() -> Seq<char> {
    "https://money.finance.sina.com.cn/quotes_service/api/jsonp_v2.php/var%20gridedge_probe=/CN_MarketData.getKLineData?symbol=sz002256&scale=5&ma=no&datalen=1023"@
}

/// What is written into every file of such an observation.
pub fn kind_name() -> (r: &'static str)
    ensures
        r@ == kind_text(),
{
    "UNREVIEWED_SOURCE_RESEARCH_NOT_TRADING_EVIDENCE"
}

/// The source that is observed.
pub fn source_url() -> (r: &'static str)
    ensures
        r@ == url_text(),
{
    "https://money.finance.sina.com.cn/quotes_service/api/jsonp_v2.php/var%20gridedge_probe=/CN_MarketData.getKLineData?symbol=sz002256&scale=5&ma=no&datalen=1023"
}

/// The name of the receipt at a place.
pub open spec fn receipt_name_at(index: nat) -> Seq<char> {
    "receipt-"@ + five_digits(index) + ".json"@
}

/// The name of the response at a place.
pub open spec fn response_name_at(index: nat) -> Seq<char> {
    "response-"@ + five_digits(index) + ".jsonp"@
}

/// The name of the receipt at a place.
pub fn receipt_name(index: u64) -> (r: String)
    ensures
        r@ == receipt_name_at(index as nat),
{
    let t = join("receipt-", five_digit_text(index).as_str());
    join(t.as_str(), ".json")
}

/// The name of the response at a place.
pub fn response_name(index: u64) -> (r: String)
    ensures
        r@ == response_name_at(index as nat),
{
    let t = join("response-", five_digit_text(index).as_str());
    join(t.as_str(), ".jsonp")
}

/// What stands at a place of a document in bytes, or nothing where they are none.
pub open spec fn part_in(bytes: Seq<u8>, pointer: Seq<char>) -> Option<JsonPartView> {
    if vstd::utf8::valid_utf8(bytes) {
        json_part(vstd::utf8::decode_utf8(bytes), pointer)
    } else {
        None
    }
}

fn part_at(bytes: &[u8], pointer: &str) -> (r: Option<JsonPart>)
    ensures
        match r {
            Some(x) => part_in(bytes@, pointer@) == Some(x@),
            None => part_in(bytes@, pointer@) is None,
        },
{
    match read_utf8(bytes) {
        None => None,
        Some(text) => json_at(text.as_str(), pointer),
    }
}

fn part_is_text(bytes: &[u8], pointer: &str, text: &str) -> (r: bool)
    ensures
        r == (part_in(bytes@, pointer@) == Some(JsonPartView::Text(text@))),
{
    match part_at(bytes, pointer) {
        Some(part) => part.is_text(text),
        None => false,
    }
}

fn part_is_flag(bytes: &[u8], pointer: &str, flag: bool) -> (r: bool)
    ensures
        r == (part_in(bytes@, pointer@) == Some(JsonPartView::Flag(flag))),
{
    match part_at(bytes, pointer) {
        Some(part) => part.is_flag(flag),
        None => false,
    }
}

/// Whether something stands at a place.
pub open spec fn present(part: Option<JsonPartView>) -> bool {
    part is Some && part != Some(JsonPartView::Absent)
}

fn part_is_present(bytes: &[u8], pointer: &str) -> (r: bool)
    ensures
        r == present(part_in(bytes@, pointer@)),
{
    match part_at(bytes, pointer) {
        None | Some(JsonPart::Absent) => false,
        _ => true,
    }
}

/// Whether the observation was made from a fixture, as its identity says.
pub open spec fn identity_in(identity: Seq<u8>) -> Result<bool, AnalyzeError> {
    if identity.len() > MAX_RESPONSE {
        Err(AnalyzeError::Oversize)
    } else if part_in(identity, ""@) is None {
        Err(AnalyzeError::Unreadable)
    } else if part_in(identity, "/kind"@) != Some(JsonPartView::Text(kind_text())) || part_in(
        identity,
        "/url"@,
    ) != Some(JsonPartView::Text(url_text())) || part_in(identity, "/formal_publication"@) != Some(
        JsonPartView::Flag(false),
    ) {
        Err(AnalyzeError::Identity)
    } else {
        Ok(
            present(part_in(identity, "/fixture"@)) && part_in(identity, "/fixture"@) != Some(
                JsonPartView::Null,
            ),
        )
    }
}

fn read_identity(identity: &[u8]) -> (r: Result<bool, AnalyzeError>)
    ensures
        r == identity_in(identity@),
{
    if identity.len() > MAX_RESPONSE {
        return Err(AnalyzeError::Oversize);
    }
    if part_at(identity, "").is_none() {
        return Err(AnalyzeError::Unreadable);
    }
    if !part_is_text(identity, "/kind", kind_name()) || !part_is_text(
        identity,
        "/url",
        source_url(),
    ) || !part_is_flag(identity, "/formal_publication", false) {
        return Err(AnalyzeError::Identity);
    }
    match part_at(identity, "/fixture") {
        None | Some(JsonPart::Absent) | Some(JsonPart::Null) => Ok(false),
        _ => Ok(true),
    }
}

/// The moment that stands at a place.
pub open spec fn time_in(bytes: Seq<u8>, pointer: Seq<char>) -> Option<Moment> {
    match part_in(bytes, pointer) {
        Some(JsonPartView::Text(text)) => match read_instant(text) {
            Some(p) => Some(Moment::of(p.0, p.1, p.2)),
            None => None,
        },
        _ => None,
    }
}

fn time_at(bytes: &[u8], pointer: &str) -> (r: Option<Moment>)
    ensures
        r == time_in(bytes@, pointer@),
{
    match part_at(bytes, pointer) {
        Some(JsonPart::Text(text)) => Moment::parse_instant(text.as_str()),
        _ => None,
    }
}

/// The eight bytes of a count, most significant first.
pub open spec fn count_bytes(n: u64) -> Seq<u8> {
    seq![
        (n / 0x100_0000_0000_0000) as u8,
        (n / 0x1_0000_0000_0000 % 256) as u8,
        (n / 0x100_0000_0000 % 256) as u8,
        (n / 0x1_0000_0000 % 256) as u8,
        (n / 0x100_0000 % 256) as u8,
        (n / 0x1_0000 % 256) as u8,
        (n / 0x100 % 256) as u8,
        (n % 256) as u8,
    ]
}

fn push_framed(out: &mut Vec<u8>, bytes: &Vec<u8>)
    ensures
        final(out)@ == old(out)@ + count_bytes(bytes@.len() as u64) + bytes@,
{
    let n: u64 = bytes.len() as u64;
    let ghost before = out@;
    out.push((n / 0x100_0000_0000_0000) as u8);
    out.push((n / 0x1_0000_0000_0000 % 256) as u8);
    out.push((n / 0x100_0000_0000 % 256) as u8);
    out.push((n / 0x1_0000_0000 % 256) as u8);
    out.push((n / 0x100_0000 % 256) as u8);
    out.push((n / 0x1_0000 % 256) as u8);
    out.push((n / 0x100 % 256) as u8);
    out.push((n % 256) as u8);
    assert(out@ =~= before + count_bytes(n));
    let ghost framed = out@;
    let mut i: usize = 0;
    while i < bytes.len()
        invariant
            i <= bytes.len(),
            out@ == framed + bytes@.subrange(0, i as int),
        decreases bytes.len() - i,
    {
        out.push(bytes[i]);
        assert(out@ =~= framed + bytes@.subrange(0, i + 1));
        i = i + 1;
    }
    assert(bytes@.subrange(0, bytes@.len() as int) =~= bytes@);
}

/// Why a request gave no rows.
#[derive(Clone, Copy, Debug, PartialEq, Eq, Structural)]
pub enum FailureCause {
    /// The source did not answer.
    Transport,
    /// The response cannot be read.
    Response(SourceError),
}

/// A request that gave no rows.
#[derive(Clone, Copy, Debug, PartialEq, Eq, Structural)]
pub struct Failure {
    pub sequence: u64,
    pub cause: FailureCause,
}

/// What the receipts so far came to.
pub struct Survey {
    pub seen: Table<Moment, Sighting>,
    pub failures: Vec<Failure>,
    pub disappearing: Vec<Vanished>,
    pub first_started: Option<Moment>,
    pub previous_received: Option<Moment>,
    pub maximum_gap_ms: i64,
    /// The receipts, each after its length.
    pub framed: Vec<u8>,
}

/// The content of [`Survey`].
#[verifier::ext_equal]
pub ghost struct SurveyView {
    pub seen: Seq<(Moment, SightingView)>,
    pub failures: Seq<Failure>,
    pub disappearing: Seq<Vanished>,
    pub first_started: Option<Moment>,
    pub previous_received: Option<Moment>,
    pub maximum_gap_ms: i64,
    pub framed: Seq<u8>,
}

impl View for Survey {
    type V = SurveyView;

    open spec fn view(&self) -> SurveyView {
        SurveyView {
            seen: self.seen@,
            failures: self.failures@,
            disappearing: self.disappearing@,
            first_started: self.first_started,
            previous_received: self.previous_received,
            maximum_gap_ms: self.maximum_gap_ms,
            framed: self.framed@,
        }
    }
}

/// The times of a receipt.
#[derive(Clone, Copy, Debug)]
pub struct ReceiptTimes {
    pub started: Moment,
    pub received: Moment,
}

/// The times of a receipt that is the next of its observation.
pub open spec fn receipt_in(
    e: EvidenceView,
    index: u64,
    fixture: bool,
    previous: Option<Moment>,
) -> Result<ReceiptTimes, AnalyzeError> {
    let r = e.receipt;
    if e.name != receipt_name_at(index as nat) {
        Err(AnalyzeError::Sequence)
    } else if r.len() > MAX_RESPONSE {
        Err(AnalyzeError::Oversize)
    } else if part_in(r, ""@) is None {
        Err(AnalyzeError::Unreadable)
    } else if part_in(r, "/kind"@) != Some(JsonPartView::Text(kind_text())) || part_in(
        r,
        "/admitted"@,
    ) != Some(JsonPartView::Flag(false)) || part_in(r, "/url"@) != Some(
        JsonPartView::Text(url_text()),
    ) || part_in(r, "/sequence"@) != Some(JsonPartView::Count(index)) || part_in(r, "/fixture"@)
        != Some(JsonPartView::Flag(fixture)) {
        Err(AnalyzeError::Receipt)
    } else {
        match (time_in(r, "/started_at"@), time_in(r, "/received_at"@)) {
            (Some(started), Some(received)) => if received.position() < started.position() || (
            previous is Some && started.position() < previous->0.position()) {
                Err(AnalyzeError::Reversal)
            } else {
                Ok(ReceiptTimes { started, received })
            },
            _ => Err(AnalyzeError::Time),
        }
    }
}

fn read_receipt(e: &Evidence, index: u64, fixture: bool, previous: Option<Moment>) -> (r: Result<
    ReceiptTimes,
    AnalyzeError,
>)
    ensures
        r == receipt_in(e@, index, fixture, previous),
{
    proof {
        lemma_bytes(e.receipt);
    }
    if !text_eq(e.name.as_str(), receipt_name(index).as_str()) {
        return Err(AnalyzeError::Sequence);
    }
    if e.receipt.len() > MAX_RESPONSE {
        return Err(AnalyzeError::Oversize);
    }
    let bytes = e.receipt.as_slice();
    if part_at(bytes, "").is_none() {
        return Err(AnalyzeError::Unreadable);
    }
    let counted = match part_at(bytes, "/sequence") {
        Some(part) => part.is_count(index),
        None => false,
    };
    if !part_is_text(bytes, "/kind", kind_name()) || !part_is_flag(bytes, "/admitted", false)
        || !part_is_text(bytes, "/url", source_url()) || !counted || !part_is_flag(
        bytes,
        "/fixture",
        fixture,
    ) {
        return Err(AnalyzeError::Receipt);
    }
    match (time_at(bytes, "/started_at"), time_at(bytes, "/received_at")) {
        (Some(started), Some(received)) => {
            if received.before(&started) {
                return Err(AnalyzeError::Reversal);
            }
            if let Some(before) = previous {
                if started.before(&before) {
                    return Err(AnalyzeError::Reversal);
                }
            }
            Ok(ReceiptTimes { started, received })
        },
        _ => Err(AnalyzeError::Time),
    }
}

/// What a receipt names: nothing where the source did not answer, else the bars
/// of the response or why there are none.
pub open spec fn response_in(e: EvidenceView, index: u64) -> Result<
    Option<Result<Seq<SourceBar>, SourceError>>,
    AnalyzeError,
> {
    let r = e.receipt;
    if present(part_in(r, "/transport_error"@)) {
        if present(part_in(r, "/raw_file"@)) {
            Err(AnalyzeError::Mixed)
        } else {
            Ok(None)
        }
    } else if part_in(r, "/raw_file"@) != Some(
        JsonPartView::Text(response_name_at(index as nat)),
    ) {
        Err(AnalyzeError::RawName)
    } else {
        match e.raw {
            None => Err(AnalyzeError::RawMissing),
            Some(raw) => if raw.len() > MAX_RESPONSE {
                Err(AnalyzeError::Oversize)
            } else if part_in(r, "/raw_sha256"@) != Some(
                JsonPartView::Text(sha256_hex_text(raw)),
            ) {
                Err(AnalyzeError::RawDigest)
            } else {
                match body_of(raw) {
                    Err(x) => Ok(Some(Err(x))),
                    Ok(_) => match e.rows {
                        None => Ok(Some(Err(SourceError::Json))),
                        Some(rows) => Ok(Some(bars_in(rows))),
                    },
                }
            },
        }
    }
}

fn read_response(e: &Evidence, index: u64) -> (r: Result<
    Option<Result<Vec<SourceBar>, SourceError>>,
    AnalyzeError,
>)
    ensures
        match response_in(e@, index) {
            Err(x) => r matches Err(y) && y == x,
            Ok(None) => r matches Ok(None),
            Ok(Some(Ok(bars))) => r matches Ok(Some(Ok(x))) && x@ == bars,
            Ok(Some(Err(x))) => r matches Ok(Some(Err(y))) && y == x,
        },
{
    proof {
        lemma_bytes(e.receipt);
    }
    let bytes = e.receipt.as_slice();
    if part_is_present(bytes, "/transport_error") {
        if part_is_present(bytes, "/raw_file") {
            return Err(AnalyzeError::Mixed);
        }
        return Ok(None);
    }
    if !part_is_text(bytes, "/raw_file", response_name(index).as_str()) {
        return Err(AnalyzeError::RawName);
    }
    let raw = match &e.raw {
        Some(raw) => raw,
        None => {
            return Err(AnalyzeError::RawMissing);
        },
    };
    proof {
        lemma_bytes(*raw);
    }
    if raw.len() > MAX_RESPONSE {
        return Err(AnalyzeError::Oversize);
    }
    let digest = sha256_hex(raw.as_slice());
    if !part_is_text(bytes, "/raw_sha256", digest.as_str()) {
        return Err(AnalyzeError::RawDigest);
    }
    if let Err(x) = response_body(raw.as_slice()) {
        return Ok(Some(Err(x)));
    }
    match &e.rows {
        None => Ok(Some(Err(SourceError::Json))),
        Some(rows) => Ok(Some(read_rows(rows))),
    }
}

/// The bars of a day, of the first `n` bars.
pub open spec fn of_day(bars: Seq<SourceBar>, date: Day, n: nat) -> Seq<SourceBar>
    decreases n,
{
    if n == 0 {
        Seq::empty()
    } else if Day::of(bars[n - 1].label.d()) == date {
        of_day(bars, date, (n - 1) as nat).push(bars[n - 1])
    } else {
        of_day(bars, date, (n - 1) as nat)
    }
}

fn keep_day(bars: &Vec<SourceBar>, date: Day) -> (r: Vec<SourceBar>)
    ensures
        r@ == of_day(bars@, date, bars@.len()),
{
    let mut out: Vec<SourceBar> = Vec::new();
    let mut i: usize = 0;
    while i < bars.len()
        invariant
            i <= bars.len(),
            out@ == of_day(bars@, date, i as nat),
        decreases bars.len() - i,
    {
        if bars[i].label.day().same(&date) {
            out.push(bars[i]);
        }
        i = i + 1;
    }
    out
}

/// Whether a label is among some bars.
pub open spec fn has_label(bars: Seq<SourceBar>, label: Moment) -> bool {
    exists|i: int| 0 <= i < bars.len() && (#[trigger] bars[i]).label == label
}

fn bars_have(bars: &Vec<SourceBar>, label: &Moment) -> (r: bool)
    ensures
        r == has_label(bars@, *label),
{
    let mut i: usize = 0;
    while i < bars.len()
        invariant
            i <= bars.len(),
            forall|j: int| 0 <= j < i ==> (#[trigger] bars@[j]).label != *label,
        decreases bars.len() - i,
    {
        if bars[i].label.same(label) {
            return true;
        }
        i = i + 1;
    }
    false
}

/// The labels of the first `n` that were seen and are not among the bars of a
/// response.
pub open spec fn vanished(
    seen: Seq<(Moment, SightingView)>,
    bars: Seq<SourceBar>,
    index: u64,
    n: nat,
) -> Seq<Vanished>
    decreases n,
{
    if n == 0 {
        Seq::empty()
    } else {
        let before = vanished(seen, bars, index, (n - 1) as nat);
        let label = seen[n - 1].0;
        if has_label(bars, label) {
            before
        } else {
            before.push(Vanished { sequence: index, label })
        }
    }
}

/// Whether two bars differ in a price or in the volume. How a price is written
/// makes no difference.
pub open spec fn bars_differ(a: SourceBar, b: SourceBar) -> bool {
    a.open.units() != b.open.units() || a.high.units() != b.high.units() || a.low.units()
        != b.low.units() || a.close.units() != b.close.units() || a.volume != b.volume
}

/// What changed between two bars.
pub open spec fn revision_of(
    a: SourceBar,
    b: SourceBar,
    index: u64,
    received: Moment,
    end: Moment,
) -> Revision {
    Revision {
        sequence: index,
        received_at: received,
        observed_after_label_end: received.position() > end.position(),
        open_changed: a.open.units() != b.open.units(),
        high_changed: a.high.units() != b.high.units(),
        low_changed: a.low.units() != b.low.units(),
        close_changed: a.close.units() != b.close.units(),
        volume_changed: a.volume != b.volume,
    }
}

/// What was seen of a label after a bar of it was received.
pub open spec fn sighted(
    held: Option<SightingView>,
    bar: SourceBar,
    index: u64,
    received: Moment,
    end: Moment,
) -> SightingView {
    let after = if received.position() >= end.position() {
        Some(received)
    } else {
        None
    };
    match held {
        None => SightingView {
            first: received,
            last: received,
            first_after_end: after,
            bar,
            observations: 1,
            revisions: Seq::empty(),
        },
        Some(s) => SightingView {
            last: received,
            first_after_end: if s.first_after_end is Some {
                s.first_after_end
            } else {
                after
            },
            bar,
            observations: if s.observations < u64::MAX {
                (s.observations + 1) as u64
            } else {
                s.observations
            },
            revisions: if bars_differ(s.bar, bar) {
                s.revisions.push(revision_of(s.bar, bar, index, received, end))
            } else {
                s.revisions
            },
            ..s
        },
    }
}

/// What was seen after the first `n` bars of a response.
pub open spec fn all_sighted(
    seen: Seq<(Moment, SightingView)>,
    bars: Seq<SourceBar>,
    index: u64,
    received: Moment,
    n: nat,
) -> Result<Seq<(Moment, SightingView)>, AnalyzeError>
    decreases n,
{
    if n == 0 {
        Ok(seen)
    } else {
        match all_sighted(seen, bars, index, received, (n - 1) as nat) {
            Err(e) => Err(e),
            Ok(before) => {
                let bar = bars[n - 1];
                match utc_of(bar.label) {
                    None => Err(AnalyzeError::Label),
                    Some(end) => Ok(
                        with::<Moment, SightingView>(
                            before,
                            bar.label,
                            sighted(
                                lookup::<Moment, SightingView>(before, bar.label),
                                bar,
                                index,
                                received,
                                end,
                            ),
                        ),
                    ),
                }
            },
        }
    }
}

proof fn lemma_sighted_stops(
    seen: Seq<(Moment, SightingView)>,
    bars: Seq<SourceBar>,
    index: u64,
    received: Moment,
    n: nat,
    m: nat,
)
    requires
        n <= m,
        all_sighted(seen, bars, index, received, n) is Err,
    ensures
        all_sighted(seen, bars, index, received, m) == all_sighted(seen, bars, index, received, n),
    decreases m - n,
{
    if n < m {
        lemma_sighted_stops(seen, bars, index, received, n, (m - 1) as nat);
    }
}

fn see(held: Option<&Sighting>, bar: &SourceBar, index: u64, received: Moment, end: Moment) -> (r:
    Sighting)
    ensures
        r@ == sighted(
            match held {
                Some(s) => Some(s@),
                None => None,
            },
            *bar,
            index,
            received,
            end,
        ),
{
    let after: Option<Moment> = if received.before(&end) {
        None
    } else {
        Some(received)
    };
    match held {
        None => {
            let revisions: Vec<Revision> = Vec::new();
            assert(revisions.deep_view() =~= Seq::<Revision>::empty());
            Sighting {
                first: received,
                last: received,
                first_after_end: after,
                bar: *bar,
                observations: 1,
                revisions,
            }
        },
        Some(s) => {
            let mut revisions = s.revisions.dup();
            let open_changed = !s.bar.open.equals(&bar.open);
            let high_changed = !s.bar.high.equals(&bar.high);
            let low_changed = !s.bar.low.equals(&bar.low);
            let close_changed = !s.bar.close.equals(&bar.close);
            let volume_changed = s.bar.volume != bar.volume;
            if open_changed || high_changed || low_changed || close_changed || volume_changed {
                let ghost before = revisions.deep_view();
                let revision = Revision {
                    sequence: index,
                    received_at: received,
                    observed_after_label_end: end.before(&received),
                    open_changed,
                    high_changed,
                    low_changed,
                    close_changed,
                    volume_changed,
                };
                revisions.push(revision);
                assert(revisions.deep_view() =~= before.push(revision));
            }
            Sighting {
                first: s.first,
                last: received,
                first_after_end: match s.first_after_end {
                    Some(x) => Some(x),
                    None => after,
                },
                bar: *bar,
                observations: if s.observations < u64::MAX {
                    s.observations + 1
                } else {
                    s.observations
                },
                revisions,
            }
        },
    }
}

/// What one more receipt makes of the survey.
pub open spec fn surveyed(
    s: SurveyView,
    e: EvidenceView,
    index: u64,
    fixture: bool,
    date: Day,
) -> Result<SurveyView, AnalyzeError> {
    match receipt_in(e, index, fixture, s.previous_received) {
        Err(x) => Err(x),
        Ok(times) => {
            let gap = match s.previous_received {
                Some(before) => whole_millis(nanos_between(before, times.received)),
                None => s.maximum_gap_ms as int,
            };
            let noted = SurveyView {
                first_started: if s.first_started is Some {
                    s.first_started
                } else {
                    Some(times.started)
                },
                previous_received: Some(times.received),
                maximum_gap_ms: if gap > s.maximum_gap_ms {
                    gap as i64
                } else {
                    s.maximum_gap_ms
                },
                framed: s.framed + count_bytes(e.receipt.len() as u64) + e.receipt,
                ..s
            };
            match response_in(e, index) {
                Err(x) => Err(x),
                Ok(None) => Ok(
                    SurveyView {
                        failures: noted.failures.push(
                            Failure { sequence: index, cause: FailureCause::Transport },
                        ),
                        ..noted
                    },
                ),
                Ok(Some(Err(x))) => Ok(
                    SurveyView {
                        failures: noted.failures.push(
                            Failure { sequence: index, cause: FailureCause::Response(x) },
                        ),
                        ..noted
                    },
                ),
                Ok(Some(Ok(bars))) => {
                    let current = of_day(bars, date, bars.len());
                    match all_sighted(noted.seen, current, index, times.received, current.len()) {
                        Err(x) => Err(x),
                        Ok(seen) => Ok(
                            SurveyView {
                                seen,
                                disappearing: noted.disappearing + vanished(
                                    noted.seen,
                                    current,
                                    index,
                                    noted.seen.len(),
                                ),
                                ..noted
                            },
                        ),
                    }
                },
            }
        },
    }
}

fn note_vanished(
    seen: &Table<Moment, Sighting>,
    bars: &Vec<SourceBar>,
    index: u64,
    out: &mut Vec<Vanished>,
)
    ensures
        final(out)@ == old(out)@ + vanished(seen@, bars@, index, seen@.len()),
{
    let ghost start = out@;
    let end: usize = seen.len();
    let mut i: usize = 0;
    assert(start + vanished(seen@, bars@, index, 0) =~= start);
    while i < end
        invariant
            i <= end == seen@.len(),
            out@ == start + vanished(seen@, bars@, index, i as nat),
        decreases end - i,
    {
        let label = *seen.key_at(i);
        let ghost before = out@;
        if !bars_have(bars, &label) {
            let gone = Vanished { sequence: index, label };
            out.push(gone);
            assert(out@ =~= start + vanished(seen@, bars@, index, i as nat).push(gone));
        }
        i = i + 1;
    }
}

fn see_all(
    seen: &mut Table<Moment, Sighting>,
    bars: &Vec<SourceBar>,
    index: u64,
    received: Moment,
) -> (r: Result<(), AnalyzeError>)
    ensures
        match all_sighted(old(seen)@, bars@, index, received, bars@.len()) {
            Ok(after) => r == Ok::<(), AnalyzeError>(()) && final(seen)@ == after,
            Err(e) => r == Err::<(), AnalyzeError>(e),
        },
{
    let ghost start = seen@;
    let mut i: usize = 0;
    while i < bars.len()
        invariant
            i <= bars.len(),
            start == old(seen)@,
            all_sighted(start, bars@, index, received, i as nat) == Ok::<
                Seq<(Moment, SightingView)>,
                AnalyzeError,
            >(seen@),
        decreases bars.len() - i,
    {
        let bar = &bars[i];
        let end = match bar.label.to_utc() {
            Some(end) => end,
            None => {
                proof {
                    lemma_sighted_stops(
                        start,
                        bars@,
                        index,
                        received,
                        (i + 1) as nat,
                        bars@.len(),
                    );
                }
                return Err(AnalyzeError::Label);
            },
        };
        let sighting = see(seen.get(&bar.label), bar, index, received, end);
        seen.put(bar.label, sighting);
        i = i + 1;
    }
    Ok(())
}

impl Survey {
    fn take(&mut self, e: &Evidence, index: u64, fixture: bool, date: Day) -> (r: Result<
        (),
        AnalyzeError,
    >)
        ensures
            match surveyed(old(self)@, e@, index, fixture, date) {
                Ok(after) => r == Ok::<(), AnalyzeError>(()) && final(self)@ == after,
                Err(x) => r == Err::<(), AnalyzeError>(x),
            },
    {
        let ghost before = self@;
        let times = read_receipt(e, index, fixture, self.previous_received)?;
        proof {
            lemma_bytes(e.receipt);
        }
        if let Some(previous) = self.previous_received {
            let gap: i64 = times.received.millis_since(&previous);
            if gap > self.maximum_gap_ms {
                self.maximum_gap_ms = gap;
            }
        }
        self.previous_received = Some(times.received);
        if self.first_started.is_none() {
            self.first_started = Some(times.started);
        }
        push_framed(&mut self.framed, &e.receipt);
        match read_response(e, index)? {
            None => {
                self.failures.push(Failure { sequence: index, cause: FailureCause::Transport });
            },
            Some(Err(x)) => {
                self.failures.push(Failure { sequence: index, cause: FailureCause::Response(x) });
            },
            Some(Ok(bars)) => {
                let current = keep_day(&bars, date);
                note_vanished(&self.seen, &current, index, &mut self.disappearing);
                see_all(&mut self.seen, &current, index, times.received)?;
            },
        }
        Ok(())
    }
}

/// What the first `n` receipts came to.
pub open spec fn survey_of(evidence: Seq<EvidenceView>, fixture: bool, date: Day, n: nat) -> Result<
    SurveyView,
    AnalyzeError,
>
    decreases n,
{
    if n == 0 {
        Ok(
            SurveyView {
                seen: Seq::empty(),
                failures: Seq::empty(),
                disappearing: Seq::empty(),
                first_started: None,
                previous_received: None,
                maximum_gap_ms: 0,
                framed: Seq::empty(),
            },
        )
    } else {
        match survey_of(evidence, fixture, date, (n - 1) as nat) {
            Err(e) => Err(e),
            Ok(s) => surveyed(s, evidence[n - 1], (n - 1) as u64, fixture, date),
        }
    }
}

proof fn lemma_survey_stops(evidence: Seq<EvidenceView>, fixture: bool, date: Day, n: nat, m: nat)
    requires
        n <= m,
        survey_of(evidence, fixture, date, n) is Err,
    ensures
        survey_of(evidence, fixture, date, m) == survey_of(evidence, fixture, date, n),
    decreases m - n,
{
    if n < m {
        lemma_survey_stops(evidence, fixture, date, n, (m - 1) as nat);
    }
}

/// The label of the bar at a place of a trading day: 24 bars of five minutes in
/// each of its two sessions.
pub open spec fn session_label(date: Day, k: int) -> Moment {
    if k < 24 {
        Moment::of(date.n(), 34_200 + 300 * (k + 1), 0)
    } else {
        Moment::of(date.n(), 46_800 + 300 * (k - 24 + 1), 0)
    }
}

/// The labels of a trading day.
pub open spec fn session_labels(date: Day) -> Seq<Moment> {
    Seq::new(48, |k: int| session_label(date, k))
}

/// The labels among the first `n` of a trading day that were not seen.
pub open spec fn missing_labels(seen: Seq<(Moment, SightingView)>, date: Day, n: nat) -> Seq<Moment>
    decreases n,
{
    if n == 0 {
        Seq::empty()
    } else {
        let before = missing_labels(seen, date, (n - 1) as nat);
        let label = session_label(date, n - 1);
        if holds_key::<Moment, SightingView>(seen, label) {
            before
        } else {
            before.push(label)
        }
    }
}

/// The labels among the first `n` that were seen and are not of the trading day.
pub open spec fn unexpected_labels(
    seen: Seq<(Moment, SightingView)>,
    date: Day,
    n: nat,
) -> Seq<Moment>
    decreases n,
{
    if n == 0 {
        Seq::empty()
    } else {
        let before = unexpected_labels(seen, date, (n - 1) as nat);
        if session_labels(date).contains(seen[n - 1].0) {
            before
        } else {
            before.push(seen[n - 1].0)
        }
    }
}

/// What is reported of a label.
pub open spec fn label_report(label: Moment, s: SightingView) -> LabelReportView {
    let end = utc_of(label)->0;
    LabelReportView {
        label,
        first_seen_at: s.first,
        last_seen_at: s.last,
        first_seen_minus_label_ms: whole_millis(nanos_between(end, s.first)) as i64,
        first_observation_at_or_after_label_ms: match s.first_after_end {
            Some(at) => Some(whole_millis(nanos_between(end, at)) as i64),
            None => None,
        },
        observations: s.observations,
        revisions: s.revisions,
    }
}

/// What is reported of the first `n` labels.
pub open spec fn label_reports(seen: Seq<(Moment, SightingView)>, n: nat) -> Seq<LabelReportView>
    decreases n,
{
    if n == 0 {
        Seq::empty()
    } else {
        label_reports(seen, (n - 1) as nat).push(label_report(seen[n - 1].0, seen[n - 1].1))
    }
}

/// What observations came to. They prove nothing about the source.
pub struct Report {
    pub admitted: bool,
    pub source_completeness_proven: bool,
    pub identity_sha256: String,
    pub ordered_receipts_sha256: String,
    pub date: Day,
    pub fixture: bool,
    pub receipt_count: u64,
    pub first_request_at: Option<Moment>,
    pub last_receipt_at: Option<Moment>,
    pub maximum_receipt_gap_ms: i64,
    pub failures: Vec<Failure>,
    pub missing_session_labels: Vec<Moment>,
    pub unexpected_session_labels: Vec<Moment>,
    pub disappearing_label_observations: Vec<Vanished>,
    pub bars: Vec<LabelReport>,
}

/// The content of [`Report`].
#[verifier::ext_equal]
pub ghost struct ReportView {
    pub admitted: bool,
    pub source_completeness_proven: bool,
    pub identity_sha256: Seq<char>,
    pub ordered_receipts_sha256: Seq<char>,
    pub date: Day,
    pub fixture: bool,
    pub receipt_count: u64,
    pub first_request_at: Option<Moment>,
    pub last_receipt_at: Option<Moment>,
    pub maximum_receipt_gap_ms: i64,
    pub failures: Seq<Failure>,
    pub missing_session_labels: Seq<Moment>,
    pub unexpected_session_labels: Seq<Moment>,
    pub disappearing_label_observations: Seq<Vanished>,
    pub bars: Seq<LabelReportView>,
}

impl View for Report {
    type V = ReportView;

    open spec fn view(&self) -> ReportView {
        ReportView {
            admitted: self.admitted,
            source_completeness_proven: self.source_completeness_proven,
            identity_sha256: self.identity_sha256@,
            ordered_receipts_sha256: self.ordered_receipts_sha256@,
            date: self.date,
            fixture: self.fixture,
            receipt_count: self.receipt_count,
            first_request_at: self.first_request_at,
            last_receipt_at: self.last_receipt_at,
            maximum_receipt_gap_ms: self.maximum_receipt_gap_ms,
            failures: self.failures@,
            missing_session_labels: self.missing_session_labels@,
            unexpected_session_labels: self.unexpected_session_labels@,
            disappearing_label_observations: self.disappearing_label_observations@,
            bars: self.bars.deep_view(),
        }
    }
}

/// What observations came to.
pub open spec fn report_of(
    identity: Seq<u8>,
    fixture: bool,
    count: nat,
    s: SurveyView,
    date: Day,
) -> ReportView {
    ReportView {
        admitted: false,
        source_completeness_proven: false,
        identity_sha256: sha256_hex_text(identity),
        ordered_receipts_sha256: sha256_hex_text(s.framed),
        date,
        fixture,
        receipt_count: count as u64,
        first_request_at: s.first_started,
        last_receipt_at: s.previous_received,
        maximum_receipt_gap_ms: s.maximum_gap_ms,
        failures: s.failures,
        missing_session_labels: missing_labels(s.seen, date, 48),
        unexpected_session_labels: unexpected_labels(s.seen, date, s.seen.len()),
        disappearing_label_observations: s.disappearing,
        bars: label_reports(s.seen, s.seen.len()),
    }
}

/// What observations came to, or why they are refused.
pub open spec fn analyzed(identity: Seq<u8>, evidence: Seq<EvidenceView>, date: Day) -> Result<
    ReportView,
    AnalyzeError,
> {
    match identity_in(identity) {
        Err(e) => Err(e),
        Ok(fixture) => if evidence.len() == 0 || evidence.len() > 4096 {
            Err(AnalyzeError::Receipts)
        } else {
            match survey_of(evidence, fixture, date, evidence.len()) {
                Err(e) => Err(e),
                Ok(s) => Ok(report_of(identity, fixture, evidence.len(), s, date)),
            }
        },
    }
}

/// Whether the end of every bar that was seen is one of the calendar.
spec fn ends_known(seen: Seq<(Moment, SightingView)>) -> bool {
    forall|i: int| 0 <= i < seen.len() ==> utc_of((#[trigger] seen[i]).0) is Some
}

proof fn lemma_ends_with(seen: Seq<(Moment, SightingView)>, label: Moment, s: SightingView)
    requires
        ends_known(seen),
        utc_of(label) is Some,
    ensures
        ends_known(with::<Moment, SightingView>(seen, label, s)),
{
    lemma_rank_bound::<Moment, SightingView>(seen, label);
    let after = with::<Moment, SightingView>(seen, label, s);
    let k = rank::<Moment, SightingView>(seen, label) as int;
    assert forall|i: int| 0 <= i < after.len() implies utc_of((#[trigger] after[i]).0) is Some by {
        if k < seen.len() && seen[k].0 == label {
            if i != k {
                assert(after[i] == seen[i]);
            }
        } else if i < k {
            assert(after[i] == seen[i]);
        } else if i > k {
            assert(after[i] == seen[i - 1]);
        }
    }
}

proof fn lemma_ends_sighted(
    seen: Seq<(Moment, SightingView)>,
    bars: Seq<SourceBar>,
    index: u64,
    received: Moment,
    n: nat,
)
    requires
        ends_known(seen),
        all_sighted(seen, bars, index, received, n) is Ok,
    ensures
        ends_known(all_sighted(seen, bars, index, received, n)->Ok_0),
    decreases n,
{
    if n > 0 {
        lemma_ends_sighted(seen, bars, index, received, (n - 1) as nat);
        let before = all_sighted(seen, bars, index, received, (n - 1) as nat)->Ok_0;
        let bar = bars[n - 1];
        lemma_ends_with(
            before,
            bar.label,
            sighted(
                lookup::<Moment, SightingView>(before, bar.label),
                bar,
                index,
                received,
                utc_of(bar.label)->0,
            ),
        );
    }
}

proof fn lemma_ends_surveyed(evidence: Seq<EvidenceView>, fixture: bool, date: Day, n: nat)
    requires
        survey_of(evidence, fixture, date, n) is Ok,
    ensures
        ends_known(survey_of(evidence, fixture, date, n)->Ok_0.seen),
    decreases n,
{
    if n > 0 {
        lemma_ends_surveyed(evidence, fixture, date, (n - 1) as nat);
        let s = survey_of(evidence, fixture, date, (n - 1) as nat)->Ok_0;
        let e = evidence[n - 1];
        let index = (n - 1) as u64;
        match receipt_in(e, index, fixture, s.previous_received) {
            Ok(times) => match response_in(e, index) {
                Ok(Some(Ok(bars))) => {
                    let current = of_day(bars, date, bars.len());
                    lemma_ends_sighted(s.seen, current, index, times.received, current.len());
                },
                _ => {},
            },
            _ => {},
        }
    }
}

fn label_at(date: Day, k: u32) -> (r: Moment)
    requires
        k < 48,
    ensures
        r == session_label(date, k as int),
{
    let second: u32 = if k < 24 {
        34_200 + 300 * (k + 1)
    } else {
        46_800 + 300 * (k - 24 + 1)
    };
    date.at_second(second)
}

fn find_missing(seen: &Table<Moment, Sighting>, date: Day) -> (r: Vec<Moment>)
    ensures
        r@ == missing_labels(seen@, date, 48),
{
    let mut out: Vec<Moment> = Vec::new();
    let mut k: u32 = 0;
    while k < 48
        invariant
            k <= 48,
            out@ == missing_labels(seen@, date, k as nat),
        decreases 48 - k,
    {
        let label = label_at(date, k);
        if !seen.contains(&label) {
            out.push(label);
        }
        k = k + 1;
    }
    out
}

fn is_session_label(date: Day, label: &Moment) -> (r: bool)
    ensures
        r == session_labels(date).contains(*label),
{
    let mut k: u32 = 0;
    while k < 48
        invariant
            k <= 48,
            forall|j: int| 0 <= j < k ==> #[trigger] session_labels(date)[j] != *label,
        decreases 48 - k,
    {
        assert(session_labels(date)[k as int] == session_label(date, k as int));
        if label_at(date, k).same(label) {
            return true;
        }
        k = k + 1;
    }
    false
}

fn find_unexpected(seen: &Table<Moment, Sighting>, date: Day) -> (r: Vec<Moment>)
    ensures
        r@ == unexpected_labels(seen@, date, seen@.len()),
{
    let mut out: Vec<Moment> = Vec::new();
    let end: usize = seen.len();
    let mut i: usize = 0;
    while i < end
        invariant
            i <= end == seen@.len(),
            out@ == unexpected_labels(seen@, date, i as nat),
        decreases end - i,
    {
        let label = *seen.key_at(i);
        if !is_session_label(date, &label) {
            out.push(label);
        }
        i = i + 1;
    }
    out
}

fn report_labels(seen: &Table<Moment, Sighting>) -> (r: Vec<LabelReport>)
    requires
        ends_known(seen@),
    ensures
        r.deep_view() == label_reports(seen@, seen@.len()),
{
    let mut out: Vec<LabelReport> = Vec::new();
    assert(out.deep_view() =~= Seq::<LabelReportView>::empty());
    let end: usize = seen.len();
    let mut i: usize = 0;
    while i < end
        invariant
            i <= end == seen@.len(),
            ends_known(seen@),
            out.deep_view() == label_reports(seen@, i as nat),
        decreases end - i,
    {
        let label = *seen.key_at(i);
        let s = seen.value_at(i);
        assert(utc_of(seen@[i as int].0) is Some);
        let ghost before = out.deep_view();
        if let Some(end_of_bar) = label.to_utc() {
            let report = LabelReport {
                label,
                first_seen_at: s.first,
                last_seen_at: s.last,
                first_seen_minus_label_ms: s.first.millis_since(&end_of_bar),
                first_observation_at_or_after_label_ms: match &s.first_after_end {
                    Some(at) => Some(at.millis_since(&end_of_bar)),
                    None => None,
                },
                observations: s.observations,
                revisions: s.revisions.dup(),
            };
            let ghost added = report@;
            out.push(report);
            assert(out.deep_view() =~= before.push(added));
        }
        i = i + 1;
    }
    out
}

/// What the observations of a source came to: when each label of a day was seen,
/// how it changed, and which labels are missing or vanished. Receipts have to be
/// those of the observation, without a gap and in the order of time, and
/// responses those of their receipts. Nothing of it admits the source.
pub fn analyze(identity: &Vec<u8>, evidence: &Vec<Evidence>, date: Day) -> (r: Result<
    Report,
    AnalyzeError,
>)
    ensures
        match analyzed(identity@, evidence.deep_view(), date) {
            Ok(report) => r matches Ok(x) && x@ == report,
            Err(e) => r matches Err(x) && x == e,
        },
        r matches Ok(x) ==> !x@.admitted && !x@.source_completeness_proven,
{
    let ghost all = evidence.deep_view();
    let fixture = read_identity(identity.as_slice())?;
    if evidence.len() == 0 || evidence.len() > 4096 {
        return Err(AnalyzeError::Receipts);
    }
    let mut survey = Survey {
        seen: Table::new(),
        failures: Vec::new(),
        disappearing: Vec::new(),
        first_started: None,
        previous_received: None,
        maximum_gap_ms: 0,
        framed: Vec::new(),
    };
    let mut i: usize = 0;
    while i < evidence.len()
        invariant
            i <= evidence.len() <= 4096,
            all == evidence.deep_view(),
            all.len() > 0,
            identity_in(identity@) == Ok::<bool, AnalyzeError>(fixture),
            survey_of(all, fixture, date, i as nat) == Ok::<SurveyView, AnalyzeError>(survey@),
        decreases evidence.len() - i,
    {
        assert(all[i as int] == evidence[i as int]@);
        if let Err(e) = survey.take(&evidence[i], i as u64, fixture, date) {
            proof {
                lemma_survey_stops(all, fixture, date, (i + 1) as nat, all.len());
            }
            return Err(e);
        }
        i = i + 1;
    }
    proof {
        lemma_ends_surveyed(all, fixture, date, all.len());
    }
    let report = Report {
        admitted: false,
        source_completeness_proven: false,
        identity_sha256: sha256_hex(identity.as_slice()),
        ordered_receipts_sha256: sha256_hex(survey.framed.as_slice()),
        date,
        fixture,
        receipt_count: evidence.len() as u64,
        first_request_at: survey.first_started,
        last_receipt_at: survey.previous_received,
        maximum_receipt_gap_ms: survey.maximum_gap_ms,
        missing_session_labels: find_missing(&survey.seen, date),
        unexpected_session_labels: find_unexpected(&survey.seen, date),
        bars: report_labels(&survey.seen),
        failures: survey.failures,
        disappearing_label_observations: survey.disappearing,
    };
    Ok(report)
}

proof fn lemma_missing(seen: Seq<(Moment, SightingView)>, date: Day, n: nat, k: int)
    requires
        0 <= k < n,
    ensures
        missing_labels(seen, date, n).contains(session_label(date, k)) || holds_key::<
            Moment,
            SightingView,
        >(seen, session_label(date, k)),
    decreases n,
{
    let label = session_label(date, k);
    let before = missing_labels(seen, date, (n - 1) as nat);
    if k < n - 1 {
        lemma_missing(seen, date, (n - 1) as nat, k);
        if before.contains(label) {
            let j = choose|j: int| 0 <= j < before.len() && before[j] == label;
            assert(missing_labels(seen, date, n)[j] == label);
        }
    } else if !holds_key::<Moment, SightingView>(seen, label) {
        assert(missing_labels(seen, date, n).last() == label);
    }
}

/// Every label of a trading day is reported as missing or was seen.
pub proof fn law_labels_are_accounted_for(seen: Seq<(Moment, SightingView)>, date: Day, k: int)
    requires
        0 <= k < 48,
    ensures
        missing_labels(seen, date, 48).contains(session_label(date, k)) || holds_key::<
            Moment,
            SightingView,
        >(seen, session_label(date, k)),
{
    lemma_missing(seen, date, 48, k);
}

/// How a price is written is no revision: bars of equal prices and volume leave
/// the revisions of a label as they were.
pub proof fn law_notation_is_no_revision(
    s: SightingView,
    bar: SourceBar,
    index: u64,
    received: Moment,
    end: Moment,
)
    requires
        !bars_differ(s.bar, bar),
    ensures
        sighted(Some(s), bar, index, received, end).revisions == s.revisions,
{
}

/// What was seen first of a label stays, and its revisions are only added to.
pub proof fn law_sightings_only_grow(
    s: SightingView,
    bar: SourceBar,
    index: u64,
    received: Moment,
    end: Moment,
)
    ensures
        ({
            let after = sighted(Some(s), bar, index, received, end);
            &&& after.first == s.first
            &&& s.first_after_end is Some ==> after.first_after_end == s.first_after_end
            &&& s.revisions.is_prefix_of(after.revisions)
        }),
{
}

/// Receipts are in the order of time: none starts before the one before it was
/// received.
pub proof fn law_receipts_do_not_go_back(
    s: SurveyView,
    e: EvidenceView,
    index: u64,
    fixture: bool,
    date: Day,
)
    requires
        surveyed(s, e, index, fixture, date) is Ok,
        s.previous_received is Some,
    ensures
        surveyed(s, e, index, fixture, date)->Ok_0.previous_received is Some,
        surveyed(s, e, index, fixture, date)->Ok_0.previous_received->0.position()
            >= s.previous_received->0.position(),
{
}

} // verus!

//! Five-minute rows of a public source.
use crate::clock::{day_text, nanos_between, read_moment, Moment};
use crate::decimal::{from_parts, read_decimal, Decimal};
use crate::model::research::{
    SourceBar, SourceRow, SourceRowView, SourceSummary, SourceSummaryView,
};
use crate::text::{
    count_in, ends, parse_count, read_utf8, sort_texts, sorted_texts, starts, strip_prefix,
    strip_suffix, trim, trimmed,
};
use crate::value::{text_list_contains, Value};
use vstd::prelude::*;

verus! {

/// Why a response or a window of observation is refused.
#[derive(Clone, Copy, Debug, PartialEq, Eq, Structural)]
pub enum SourceError {
    /// The pause between requests is not 15 to 60 seconds.
    Interval,
    /// The end of the window is missing.
    NoStop,
    /// The window is empty, over, too long or too far off.
    Window,
    /// The response is empty or too large.
    Size,
    /// The response is no text.
    Encoding,
    /// The response does not start as it always does.
    Wrapper,
    /// The response does not assign rows.
    Assignment,
    /// The rows cannot be read.
    Json,
    /// There is no row, or there are too many.
    RowCount,
    /// The label of a row is no time.
    Label,
    /// A label is not later than the one before it.
    Order,
    /// A price is no number.
    Price,
    /// The prices of a row contradict one another.
    Range,
    /// A volume is no count.
    Volume,
}

/// The most bytes of a response.
pub const MAX_RESPONSE: usize = 1_048_576;

/// The most rows of a response.
pub const MAX_ROWS: usize = 1023;

/// The rows of a response, in their JSON notation.
pub open spec fn body_in(text: Seq<char>) -> Result<Seq<char>, SourceError> {
    let whole = trimmed(text);
    let wrapper = "/*<script>location.href='//sina.com';</script>*/"@;
    let assignment = "var gridedge_probe=("@;
    let end = ");"@;
    if !starts(whole, wrapper) {
        Err(SourceError::Wrapper)
    } else {
        let rest = trimmed(whole.subrange(wrapper.len() as int, whole.len() as int));
        if !starts(rest, assignment) {
            Err(SourceError::Assignment)
        } else {
            let inner = rest.subrange(assignment.len() as int, rest.len() as int);
            if !ends(inner, end) {
                Err(SourceError::Assignment)
            } else {
                Ok(inner.subrange(0, inner.len() - end.len()))
            }
        }
    }
}

/// The rows of a response, in their JSON notation.
pub open spec fn body_of(bytes: Seq<u8>) -> Result<Seq<char>, SourceError> {
    if !vstd::utf8::valid_utf8(bytes) {
        Err(SourceError::Encoding)
    } else {
        body_in(vstd::utf8::decode_utf8(bytes))
    }
}

/// The rows of a response, in their JSON notation. Nothing of the response is
/// executed, and nothing may follow the rows.
pub fn response_body(bytes: &[u8]) -> (r: Result<String, SourceError>)
    ensures
        match body_of(bytes@) {
            Ok(body) => r matches Ok(x) && x@ == body,
            Err(e) => r matches Err(x) && x == e,
        },
{
    let text = match read_utf8(bytes) {
        Some(text) => text,
        None => {
            return Err(SourceError::Encoding);
        },
    };
    let whole = trim(text.as_str());
    let rest = match strip_prefix(
        whole.as_str(),
        "/*<script>location.href='//sina.com';</script>*/",
    ) {
        Some(rest) => trim(rest.as_str()),
        None => {
            return Err(SourceError::Wrapper);
        },
    };
    match strip_prefix(rest.as_str(), "var gridedge_probe=(") {
        None => Err(SourceError::Assignment),
        Some(inner) => match strip_suffix(inner.as_str(), ");") {
            None => Err(SourceError::Assignment),
            Some(body) => Ok(body),
        },
    }
}

/// The rows of a response of a permitted size, in their JSON notation.
pub fn bounded_body(bytes: &[u8]) -> (r: Result<String, SourceError>)
    ensures
        if bytes@.len() == 0 || bytes@.len() > MAX_RESPONSE {
            r matches Err(x) && x == SourceError::Size
        } else {
            match body_of(bytes@) {
                Ok(body) => r matches Ok(x) && x@ == body,
                Err(e) => r matches Err(x) && x == e,
            }
        },
{
    if bytes.len() == 0 || bytes.len() > MAX_RESPONSE {
        return Err(SourceError::Size);
    }
    response_body(bytes)
}

/// A decimal that a text denotes.
pub open spec fn decimal_in(text: Seq<char>) -> Option<Decimal> {
    from_parts(read_decimal(text))
}

/// What a row denotes, where its label is later than `previous`.
pub open spec fn row_in(row: SourceRowView, previous: Option<Moment>) -> Result<
    SourceBar,
    SourceError,
> {
    match read_moment(row.day, "%Y-%m-%d %H:%M:%S"@) {
        None => Err(SourceError::Label),
        Some(p) => {
            let label = Moment::of(p.0, p.1, p.2);
            if previous is Some && label.position() <= previous->0.position() {
                Err(SourceError::Order)
            } else {
                match (
                    decimal_in(row.open),
                    decimal_in(row.high),
                    decimal_in(row.low),
                    decimal_in(row.close),
                ) {
                    (Some(open), Some(high), Some(low), Some(close)) => if !(low.m() > 0
                        && open.units() >= low.units() && close.units() >= low.units()
                        && open.units() <= high.units() && close.units() <= high.units()) {
                        Err(SourceError::Range)
                    } else {
                        match count_in(row.volume) {
                            None => Err(SourceError::Volume),
                            Some(volume) => Ok(
                                SourceBar { label, open, high, low, close, volume },
                            ),
                        }
                    },
                    _ => Err(SourceError::Price),
                }
            }
        },
    }
}

/// The label of the last of the first `n` bars.
pub open spec fn last_label(bars: Seq<SourceBar>) -> Option<Moment> {
    if bars.len() == 0 {
        None
    } else {
        Some(bars.last().label)
    }
}

/// What the first `n` rows denote.
pub open spec fn rows_in(rows: Seq<SourceRowView>, n: nat) -> Result<Seq<SourceBar>, SourceError>
    decreases n,
{
    if n == 0 {
        Ok(Seq::empty())
    } else {
        match rows_in(rows, (n - 1) as nat) {
            Err(e) => Err(e),
            Ok(bars) => match row_in(rows[n - 1], last_label(bars)) {
                Err(e) => Err(e),
                Ok(bar) => Ok(bars.push(bar)),
            },
        }
    }
}

proof fn lemma_rows_stop(rows: Seq<SourceRowView>, n: nat, m: nat)
    requires
        n <= m,
        rows_in(rows, n) is Err,
    ensures
        rows_in(rows, m) == rows_in(rows, n),
    decreases m - n,
{
    if n < m {
        lemma_rows_stop(rows, n, (m - 1) as nat);
    }
}

/// What the rows of a response denote.
pub open spec fn bars_in(rows: Seq<SourceRowView>) -> Result<Seq<SourceBar>, SourceError> {
    if rows.len() == 0 || rows.len() > MAX_ROWS {
        Err(SourceError::RowCount)
    } else {
        rows_in(rows, rows.len())
    }
}

fn read_row(row: &SourceRow, previous: Option<Moment>) -> (r: Result<SourceBar, SourceError>)
    ensures
        r == row_in(row@, previous),
{
    let label = match Moment::parse(row.day.as_str(), "%Y-%m-%d %H:%M:%S") {
        Some(label) => label,
        None => {
            return Err(SourceError::Label);
        },
    };
    if let Some(before) = previous {
        if !before.before(&label) {
            return Err(SourceError::Order);
        }
    }
    match (
        Decimal::parse(row.open.as_str()),
        Decimal::parse(row.high.as_str()),
        Decimal::parse(row.low.as_str()),
        Decimal::parse(row.close.as_str()),
    ) {
        (Some(open), Some(high), Some(low), Some(close)) => {
            if !low.is_positive() || !low.at_most(&open) || !low.at_most(&close) || !open.at_most(
                &high,
            ) || !close.at_most(&high) {
                return Err(SourceError::Range);
            }
            match parse_count(row.volume.as_str()) {
                None => Err(SourceError::Volume),
                Some(volume) => Ok(SourceBar { label, open, high, low, close, volume }),
            }
        },
        _ => Err(SourceError::Price),
    }
}

/// What the rows of a response denote: 1 to 1023 rows, each later than the one
/// before it, of prices that agree and a volume that is a count.
pub fn read_rows(rows: &Vec<SourceRow>) -> (r: Result<Vec<SourceBar>, SourceError>)
    ensures
        match bars_in(rows.deep_view()) {
            Ok(bars) => r matches Ok(x) && x@ == bars,
            Err(e) => r matches Err(x) && x == e,
        },
{
    let ghost all = rows.deep_view();
    if rows.len() == 0 || rows.len() > MAX_ROWS {
        return Err(SourceError::RowCount);
    }
    let mut bars: Vec<SourceBar> = Vec::new();
    let mut previous: Option<Moment> = None;
    let mut i: usize = 0;
    while i < rows.len()
        invariant
            i <= rows.len(),
            all == rows.deep_view(),
            0 < all.len() <= MAX_ROWS,
            previous == last_label(bars@),
            rows_in(all, i as nat) == Ok::<Seq<SourceBar>, SourceError>(bars@),
        decreases rows.len() - i,
    {
        assert(all[i as int] == rows[i as int]@);
        match read_row(&rows[i], previous) {
            Ok(bar) => {
                previous = Some(bar.label);
                bars.push(bar);
            },
            Err(e) => {
                proof {
                    lemma_rows_stop(all, (i + 1) as nat, all.len());
                }
                return Err(e);
            },
        }
        i = i + 1;
    }
    Ok(bars)
}

/// The days of the first `n` bars, each once.
pub open spec fn days_of(bars: Seq<SourceBar>, n: nat) -> Seq<Seq<char>>
    decreases n,
{
    if n == 0 {
        Seq::empty()
    } else {
        let before = days_of(bars, (n - 1) as nat);
        let day = day_text(bars[n - 1].label.d());
        if before.contains(day) {
            before
        } else {
            before.push(day)
        }
    }
}

/// What a response shows.
pub open spec fn summary_of(rows: Seq<SourceRowView>, bars: Seq<SourceBar>) -> SourceSummaryView {
    SourceSummaryView {
        row_count: rows.len() as u64,
        first_labeled_time: rows[0].day,
        last_labeled_time: rows.last().day,
        observed_dates: sorted_texts(days_of(bars, bars.len())),
        source_completeness_proven: false,
        instrument_echo_present: false,
        amount_present: false,
        admitted: false,
    }
}

proof fn lemma_rows_counted(rows: Seq<SourceRowView>, n: nat)
    requires
        rows_in(rows, n) is Ok,
    ensures
        rows_in(rows, n)->Ok_0.len() == n,
    decreases n,
{
    if n > 0 {
        lemma_rows_counted(rows, (n - 1) as nat);
    }
}

/// What a response shows. Rows that are in order are no proof that the source is
/// complete, and nothing is admitted.
pub fn inspect(rows: &Vec<SourceRow>) -> (r: Result<SourceSummary, SourceError>)
    ensures
        match bars_in(rows.deep_view()) {
            Ok(bars) => r matches Ok(x) && x@ == summary_of(rows.deep_view(), bars),
            Err(e) => r matches Err(x) && x == e,
        },
        r matches Ok(x) ==> !x@.admitted && !x@.source_completeness_proven,
{
    let ghost all = rows.deep_view();
    let bars = read_rows(rows)?;
    let mut days: Vec<String> = Vec::new();
    assert(days.deep_view() =~= Seq::<Seq<char>>::empty());
    let mut i: usize = 0;
    while i < bars.len()
        invariant
            i <= bars.len(),
            days.deep_view() == days_of(bars@, i as nat),
        decreases bars.len() - i,
    {
        let day = bars[i].label.day().text();
        let ghost before = days.deep_view();
        let ghost named = day@;
        if !text_list_contains(&days, day.as_str()) {
            days.push(day);
            assert(days.deep_view() =~= before.push(named));
        }
        i = i + 1;
    }
    let count: usize = rows.len();
    assert(all[0] == rows[0]@);
    assert(all[count - 1] == rows[count - 1]@);
    Ok(
        SourceSummary {
            row_count: count as u64,
            first_labeled_time: rows[0].day.dup(),
            last_labeled_time: rows[count - 1].day.dup(),
            observed_dates: sort_texts(&days),
            source_completeness_proven: false,
            instrument_echo_present: false,
            amount_present: false,
            admitted: false,
        },
    )
}

/// Hours in nanoseconds.
pub open spec fn hours(n: int) -> int {
    n * 3_600_000_000_000
}

/// The window of an observation: from its start, which is now unless it is given,
/// to its end, which is now for a single request.
pub open spec fn window(
    interval_seconds: u64,
    once: bool,
    now: Moment,
    start_at: Option<Moment>,
    stop_at: Option<Moment>,
) -> Result<(Moment, Moment), SourceError> {
    let start = match start_at {
        Some(x) => x,
        None => now,
    };
    if !(15 <= interval_seconds <= 60) {
        Err(SourceError::Interval)
    } else if once {
        Ok((start, now))
    } else {
        match stop_at {
            None => Err(SourceError::NoStop),
            Some(stop) => if stop.position() <= start.position() || stop.position()
                <= now.position() || nanos_between(start, stop) > hours(4) || nanos_between(
                now,
                start,
            ) > hours(24) {
                Err(SourceError::Window)
            } else {
                Ok((start, stop))
            },
        }
    }
}

/// The window of an observation.
pub fn research_window(
    interval_seconds: u64,
    once: bool,
    now: Moment,
    start_at: Option<Moment>,
    stop_at: Option<Moment>,
) -> (r: Result<(Moment, Moment), SourceError>)
    ensures
        r == window(interval_seconds, once, now, start_at, stop_at),
{
    if interval_seconds < 15 || interval_seconds > 60 {
        return Err(SourceError::Interval);
    }
    let start = match start_at {
        Some(x) => x,
        None => now,
    };
    if once {
        return Ok((start, now));
    }
    let stop = match stop_at {
        Some(x) => x,
        None => {
            return Err(SourceError::NoStop);
        },
    };
    if !start.before(&stop) || !now.before(&stop) || stop.since(&start) > 14_400_000_000_000
        || start.since(&now) > 86_400_000_000_000 {
        return Err(SourceError::Window);
    }
    Ok((start, stop))
}

/// The bars that rows denote are as many as the rows, and their labels increase.
pub proof fn law_bars_increase(rows: Seq<SourceRowView>, i: int)
    requires
        bars_in(rows) is Ok,
        0 < i < rows.len(),
    ensures
        bars_in(rows)->Ok_0.len() == rows.len(),
        bars_in(rows)->Ok_0[i - 1].label.position() < bars_in(rows)->Ok_0[i].label.position(),
{
    lemma_rows_counted(rows, rows.len());
    lemma_labels_increase(rows, rows.len(), i);
}

proof fn lemma_labels_increase(rows: Seq<SourceRowView>, n: nat, i: int)
    requires
        rows_in(rows, n) is Ok,
        0 < i < n,
    ensures
        rows_in(rows, n)->Ok_0[i - 1].label.position() < rows_in(rows, n)->Ok_0[i].label.position(),
    decreases n,
{
    lemma_rows_counted(rows, n);
    lemma_rows_counted(rows, (n - 1) as nat);
    if i < n - 1 {
        lemma_labels_increase(rows, (n - 1) as nat, i);
    }
}

} // verus!

//! What holds of every source that is observed for research.
use crate::clock::{nanos_between, utc_of, whole_millis, Day, Moment};
use crate::decimal::{lemma_pow10_add, lemma_pow10_positive, pow10, Decimal, MAX_SCALE};
use crate::model::research::{
    EvidenceView, MinuteResponseView, MinuteRowView, SightingView, SourceBar, SourceRowView,
};
use crate::research::analyze::{
    has_label, label_report, missing_labels, of_day, session_label, sighted, surveyed, vanished,
    SurveyView,
};
use crate::research::sina::{row_in, window};
use crate::research::szse::{
    cents, inspected, label_in, placed, regular, tallied, MinuteError, Tally,
};
use crate::table::holds_key;
use vstd::prelude::*;

verus! {

/// An amount in cents is a hundred times the amount; a negative amount and one with a part
/// of a cent have none.
pub proof fn law_cents_are_hundredths(amount: Decimal)
    requires
        amount.valid(),
    ensures
        cents(amount) matches Ok(n) ==> amount.units() >= 0 && n * pow10(MAX_SCALE as nat)
            == 100 * amount.units(),
        cents(amount) == Err::<nat, MinuteError>(MinuteError::Negative) <==> amount.units() < 0,
        cents(amount) matches Err(e) ==> amount.units() < 0 || forall|n: int|
            #[trigger] (n * pow10(MAX_SCALE as nat)) != 100 * amount.units(),
{
    crate::decimal::lemma_units_sign(amount);
    let m = amount.m();
    let s = amount.s();
    let w = pow10(MAX_SCALE as nat);
    let rest = pow10((MAX_SCALE - s) as nat);
    lemma_pow10_positive((MAX_SCALE - s) as nat);
    assert(pow10(2) == 100) by {
        reveal_with_fuel(pow10, 3);
    }
    if m >= 0 && s <= 2 {
        let p = pow10((2 - s) as nat);
        lemma_pow10_positive((2 - s) as nat);
        lemma_pow10_add((2 - s) as nat, s);
        lemma_pow10_add(s, (MAX_SCALE - s) as nat);
        let q = pow10(s);
        assert(p * q == 100);
        assert(q * rest == w);
        assert((m * p) * w == 100 * (m * rest)) by (nonlinear_arith)
            requires
                p * q == 100,
                q * rest == w,
        ;
        assert(m * p >= 0) by (nonlinear_arith)
            requires
                m >= 0,
                p >= 1,
        ;
    } else if m >= 0 {
        let k = (s - 2) as nat;
        let p = pow10(k);
        lemma_pow10_positive(k);
        lemma_pow10_add(2, k);
        lemma_pow10_add(s, (MAX_SCALE - s) as nat);
        assert((2 + k) as nat == s);
        assert(w == (100 * p) * rest);
        vstd::arithmetic::div_mod::lemma_fundamental_div_mod(m, p);
        if m % p == 0 {
            let n = m / p;
            assert(n * ((100 * p) * rest) == 100 * (m * rest)) by (nonlinear_arith)
                requires
                    m == p * n,
            ;
            assert(n >= 0) by (nonlinear_arith)
                requires
                    n == m / p,
                    m >= 0,
                    p >= 1,
            ;
        } else {
            assert forall|n: int| #[trigger] (n * w) != 100 * amount.units() by {
                if n * w == 100 * amount.units() {
                    assert(n * p == m) by (nonlinear_arith)
                        requires
                            n * w == 100 * (m * rest),
                            w == (100 * p) * rest,
                            rest >= 1,
                    ;
                    vstd::arithmetic::div_mod::lemma_mod_multiples_basic(n, p);
                }
            }
        }
    }
}

/// The regular session is from half past nine to half past eleven and from one minute past
/// one to three, each with its first and last instant.
pub proof fn law_regular_hours(second: int, nano: int)
    requires
        0 <= nano < 1_000_000_000,
    ensures
        ({
            let at = second * 1_000_000_000 + nano;
            let minute = 60_000_000_000int;
            regular(second, nano) <==> (570 * minute <= at && at <= 690 * minute) || (781 * minute
                <= at && at <= 900 * minute)
        }),
{
}

/// A row of the regular session adds its lots and its amount and is the last one seen; a row
/// from six minutes after it is only counted; no row lies between, and none is counted in
/// both.
pub proof fn law_rows_add_to_the_tally(t: Tally, at: (u32, u32), lots: u64, amount: nat)
    requires
        t.regular_rows < u64::MAX,
        t.after_hours_rows < u64::MAX,
    ensures
        placed(t, at, lots, amount) matches Ok(n) ==> {
            let counts = regular(at.0 as int, at.1 as int);
            &&& n.previous == Some(at)
            &&& counts ==> n.volume_lots == t.volume_lots + lots && n.amount_cents == t.amount_cents
                + amount && n.regular_rows == t.regular_rows + 1 && n.last_regular == Some(at.0)
                && n.after_hours_rows == t.after_hours_rows
            &&& !counts ==> at.0 >= 15 * 3600 + 6 * 60 && n.volume_lots == t.volume_lots
                && n.amount_cents == t.amount_cents && n.regular_rows == t.regular_rows
                && n.last_regular == t.last_regular && n.after_hours_rows == t.after_hours_rows + 1
        },
        placed(t, at, lots, amount) == Err::<Tally, MinuteError>(MinuteError::Session) <==> !regular(
            at.0 as int,
            at.1 as int,
        ) && at.0 < 15 * 3600 + 6 * 60,
{
}

/// Rows have seven fields, and their labels increase.
pub proof fn law_row_labels_increase(t: Tally, row: MinuteRowView)
    ensures
        tallied(t, row) matches Ok(n) ==> {
            &&& row.fields.len() == 7
            &&& label_in(row.fields[0]) matches Some(at) && n.previous == Some(at) && (
            t.previous matches Some(before) ==> at.0 > before.0 || (at.0 == before.0 && at.1
                > before.1))
        },
{
}

/// What a response shows is of the instrument and of one day; its totals reconcile exactly
/// where its regular rows add up to what it says of itself, and it never admits anything.
pub proof fn law_responses_reconcile(r: MinuteResponseView)
    ensures
        inspected(r) matches Ok(x) ==> {
            &&& r.code == "0"@ && r.instrument_code == "002256"@
            &&& 1 <= r.rows.len() <= 512 && x.row_count == r.rows.len()
            &&& crate::research::szse::tally_of(r.rows, r.rows.len()) matches Ok(t) && (
            crate::research::szse::cents_field(r.amount) matches Ok(total) && {
                &&& x.regular_volume_lots == t.volume_lots
                &&& x.aggregate_volume_lots == r.volume
                &&& x.regular_session_rows == t.regular_rows
                &&& x.after_hours_rows == t.after_hours_rows
                &&& x.regular_session_totals_reconcile <==> t.volume_lots == r.volume
                    && t.amount_cents == total
            })
            &&& !x.admitted && !x.formal_publication && !x.source_completion_proven
                && !x.source_revision_semantics_proven
        },
{
}

/// A row of the source has a positive low, its other prices lie between its low and its
/// high, and its label is later than the one before it.
pub proof fn law_source_rows_are_enclosed(row: SourceRowView, previous: Option<Moment>)
    ensures
        row_in(row, previous) matches Ok(b) ==> {
            &&& b.low.m() > 0
            &&& b.low.units() <= b.open.units() <= b.high.units()
            &&& b.low.units() <= b.close.units() <= b.high.units()
            &&& previous matches Some(p) ==> b.label.position() > p.position()
        },
{
}

/// An observation asks every fifteen to sixty seconds. It asks once, or it ends after its
/// start and after now, within four hours of its start, which is no more than a day away.
pub proof fn law_observation_windows(
    interval: u64,
    once: bool,
    now: Moment,
    start_at: Option<Moment>,
    stop_at: Option<Moment>,
)
    ensures
        ({
            let start = if start_at is Some {
                start_at->0
            } else {
                now
            };
            let hour = 3_600_000_000_000int;
            &&& window(interval, once, now, start_at, stop_at) matches Ok(w) ==> w.0 == start && 15
                <= interval <= 60 && (once ==> w.1 == now) && (!once ==> stop_at == Some(w.1))
            &&& !once ==> (window(interval, once, now, start_at, stop_at) is Ok <==> 15 <= interval
                <= 60 && (stop_at matches Some(stop) && stop.position() > start.position()
                && stop.position() > now.position() && nanos_between(start, stop) <= 4 * hour
                && nanos_between(now, start) <= 24 * hour))
        }),
{
}

/// A label notes when it was first and last seen, how often, and when first at or after its
/// end; each change of a price or of the volume is one more revision, which says what
/// changed and whether after the end.
pub proof fn law_sightings_note_changes(
    s: SightingView,
    bar: SourceBar,
    index: u64,
    received: Moment,
    end: Moment,
)
    requires
        s.observations < u64::MAX,
    ensures
        ({
            let n = sighted(Some(s), bar, index, received, end);
            let changed = s.bar.open.units() != bar.open.units() || s.bar.high.units()
                != bar.high.units() || s.bar.low.units() != bar.low.units() || s.bar.close.units()
                != bar.close.units() || s.bar.volume != bar.volume;
            &&& n.first == s.first && n.last == received && n.bar == bar
            &&& n.observations == s.observations + 1
            &&& n.revisions.len() == s.revisions.len() + (if changed {
                1int
            } else {
                0int
            })
            &&& changed ==> {
                let r = n.revisions.last();
                &&& r.sequence == index && r.received_at == received
                &&& r.close_changed <==> s.bar.close.units() != bar.close.units()
                &&& r.open_changed <==> s.bar.open.units() != bar.open.units()
                &&& r.high_changed <==> s.bar.high.units() != bar.high.units()
                &&& r.low_changed <==> s.bar.low.units() != bar.low.units()
                &&& r.volume_changed <==> s.bar.volume != bar.volume
                &&& r.observed_after_label_end <==> received.position() > end.position()
            }
            &&& s.first_after_end is None ==> (n.first_after_end is Some <==> received.position()
                >= end.position())
            &&& n.first_after_end matches Some(at) ==> s.first_after_end == Some(at) || at
                == received
        }),
        ({
            let n = sighted(None, bar, index, received, end);
            &&& n.first == received && n.last == received && n.observations == 1
            &&& n.revisions.len() == 0 && n.bar == bar
            &&& n.first_after_end is Some <==> received.position() >= end.position()
        }),
{
}

/// The longest pause between receipts is no shorter than any, and is one of them.
pub proof fn law_longest_pause(
    s: SurveyView,
    e: EvidenceView,
    index: u64,
    fixture: bool,
    date: Day,
)
    ensures
        surveyed(s, e, index, fixture, date) matches Ok(n) ==> {
            &&& s.previous_received is None ==> n.maximum_gap_ms == s.maximum_gap_ms
            &&& s.previous_received matches Some(before) ==> (n.previous_received matches Some(now) && ({
                let gap = whole_millis(nanos_between(before, now));
                gap <= i64::MAX ==> n.maximum_gap_ms >= s.maximum_gap_ms && n.maximum_gap_ms
                    >= gap && (n.maximum_gap_ms == gap
                    || n.maximum_gap_ms == s.maximum_gap_ms)
            }))
            &&& s.first_started is Some ==> n.first_started == s.first_started
            &&& n.failures.len() <= s.failures.len() + 1
        },
{
}

/// The bars of a day are exactly those of that day, in their order.
pub proof fn law_bars_of_a_day(bars: Seq<SourceBar>, date: Day, n: nat, b: SourceBar)
    requires
        n <= bars.len(),
    ensures
        of_day(bars, date, n).contains(b) <==> Day::of(b.label.d()) == date && bars.take(
            n as int,
        ).contains(b),
    decreases n,
{
    let taken = bars.take(n as int);
    if n == 0 {
        assert(!of_day(bars, date, n).contains(b));
    } else {
        law_bars_of_a_day(bars, date, (n - 1) as nat, b);
        let fewer = bars.take(n - 1);
        let before = of_day(bars, date, (n - 1) as nat);
        let all = of_day(bars, date, n);
        assert(taken[n - 1] == bars[n - 1]);
        if fewer.contains(b) {
            let i = choose|i: int| 0 <= i < fewer.len() && fewer[i] == b;
            assert(taken[i] == b);
        }
        if taken.contains(b) {
            let i = choose|i: int| 0 <= i < taken.len() && taken[i] == b;
            if i < n - 1 {
                assert(fewer[i] == b);
            }
        }
        if all.len() > before.len() {
            assert(all[before.len() as int] == bars[n - 1]);
            if before.contains(b) {
                let i = choose|i: int| 0 <= i < before.len() && before[i] == b;
                assert(all[i] == b);
            }
            if all.contains(b) {
                let i = choose|i: int| 0 <= i < all.len() && all[i] == b;
                if i < before.len() {
                    assert(before[i] == b);
                }
            }
        }
    }
}

/// A label is reported as vanished exactly where it was seen and is not among the bars of a
/// response.
pub proof fn law_vanished_labels(
    seen: Seq<(Moment, SightingView)>,
    bars: Seq<SourceBar>,
    index: u64,
    n: nat,
)
    requires
        n <= seen.len(),
    ensures
        forall|i: int|
            0 <= i < n && !has_label(bars, (#[trigger] seen[i]).0) ==> exists|k: int|
                0 <= k < vanished(seen, bars, index, n).len() && (#[trigger] vanished(
                    seen,
                    bars,
                    index,
                    n,
                )[k]).label == seen[i].0,
        forall|k: int|
            0 <= k < vanished(seen, bars, index, n).len() ==> (#[trigger] vanished(
                seen,
                bars,
                index,
                n,
            )[k]).sequence == index && !has_label(bars, vanished(seen, bars, index, n)[k].label),
    decreases n,
{
    if n > 0 {
        law_vanished_labels(seen, bars, index, (n - 1) as nat);
        let before = vanished(seen, bars, index, (n - 1) as nat);
        let all = vanished(seen, bars, index, n);
        assert forall|i: int| 0 <= i < n && !has_label(bars, (#[trigger] seen[i]).0) implies exists|
            k: int,
        | 0 <= k < all.len() && (#[trigger] all[k]).label == seen[i].0 by {
            if i < n - 1 {
                let k = choose|k: int| 0 <= k < before.len() && (#[trigger] before[k]).label
                    == seen[i].0;
                assert(all[k].label == seen[i].0);
            } else {
                assert(all[before.len() as int].label == seen[i].0);
            }
        }
    }
}

/// A label of a trading day that was seen is not missing.
pub proof fn law_seen_labels_are_not_missing(seen: Seq<(Moment, SightingView)>, date: Day, n: nat)
    ensures
        forall|k: int|
            0 <= k < missing_labels(seen, date, n).len() ==> !holds_key::<Moment, SightingView>(
                seen,
                #[trigger] missing_labels(seen, date, n)[k],
            ),
    decreases n,
{
    if n > 0 {
        law_seen_labels_are_not_missing(seen, date, (n - 1) as nat);
        let before = missing_labels(seen, date, (n - 1) as nat);
        let all = missing_labels(seen, date, n);
        assert forall|k: int| 0 <= k < all.len() implies !holds_key::<Moment, SightingView>(
            seen,
            #[trigger] all[k],
        ) by {
            if k < before.len() {
                assert(all[k] == before[k]);
            }
        }
    }
}

/// The labels of a trading day are five minutes apart: the first session ends at half past
/// eleven, the second one at three.
pub proof fn law_session_labels(date: Day, k: int)
    requires
        0 <= k < 48,
        crate::clock::day_in_range(date.n()),
    ensures
        session_label(date, k).d() == date.n(),
        session_label(date, k).n() == 0,
        k < 24 ==> session_label(date, k).s() == 41_400 - (23 - k) * 300,
        k >= 24 ==> session_label(date, k).s() == 54_000 - (47 - k) * 300,
{
    if k < 24 {
        crate::clock::lemma_moment_parts(date.n(), 34_200 + 300 * (k + 1), 0);
    } else {
        crate::clock::lemma_moment_parts(date.n(), 46_800 + 300 * (k - 24 + 1), 0);
    }
}

/// What is reported of a label is how long after its end it was first seen, and first seen
/// at or after its end.
pub proof fn law_reports_measure_from_the_end(label: Moment, s: SightingView)
    requires
        utc_of(label) is Some,
    ensures
        ({
            let r = label_report(label, s);
            let end = utc_of(label)->0;
            let first = whole_millis(nanos_between(end, s.first));
            &&& r.label == label && r.first_seen_at == s.first && r.last_seen_at == s.last
            &&& i64::MIN <= first <= i64::MAX ==> r.first_seen_minus_label_ms == first
            &&& r.observations == s.observations && r.revisions == s.revisions
            &&& r.first_observation_at_or_after_label_ms is Some <==> s.first_after_end is Some
        }),
{
}

} // verus!

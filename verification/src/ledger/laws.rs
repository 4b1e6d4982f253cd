//! What the ledger promises of every run.
use crate::audit::{first_violation, law_notes_are_not_audited};
use crate::event::laws::law_events_continue_the_run;
use crate::event::numbers::law_numbers_decide_nothing;
use crate::event::payload::EventEnvelopeView;
use crate::event::reduce::{applied, EventError};
use crate::event::repeats::{
    law_notes_decide_nothing, law_repeats_decide_nothing, with_notes, with_repeats,
};
use crate::journal::append::{
    appended, batched, law_sequences_are_contiguous, numbered, outcome, recorded, AppendOutcome,
};
use crate::journal::query::{
    fits, latest, lemma_last_before, repeats_of, rows_before, some_row, with_key, DuplicateView,
    JournalView, Log, QueryView,
};
use crate::journal::rebuild::{
    after, law_replays_count_events, replayed, rows_after, RebuildError, Rebuilt,
};
use crate::ledger::evidence::{latest_bar, LedgerError};
use crate::ledger::kinship::is_new;
use crate::ledger::writer::{
    append_fault, batch_written, caused, caused_one, keys_differ, lemma_outcomes, projected, repeated,
    settled, written, LedgerWriterView, Projection,
};
use crate::model::ledger::StrategyStateView;
use crate::model::notices::AppraisalView;
use vstd::prelude::*;

verus! {

/// Whether the state and the sequence number of a ledger are what the rows of its
/// run lead to from an initial state, each with its appraisal, and whether the
/// state counts the repeats that the journal has noted.
pub open spec fn faithful(
    w: LedgerWriterView,
    initial: StrategyStateView,
    appraisals: Seq<AppraisalView>,
) -> bool {
    leads_to(
        w.journal,
        w.state.run_id,
        initial,
        appraisals,
        Rebuilt { state: w.state, last: w.last_sequence },
    )
}

/// Whether the rows and the repeats of a run lead from an initial state to another.
pub open spec fn leads_to(
    j: JournalView,
    run_id: Seq<char>,
    initial: StrategyStateView,
    appraisals: Seq<AppraisalView>,
    at: Rebuilt,
) -> bool {
    let rows = rows_after(j.log, run_id, 0);
    &&& appraisals.len() == rows.len()
    &&& replayed(
        Rebuilt { state: initial, last: 0 },
        rows,
        appraisals,
        rows.len(),
    ) == Ok::<Rebuilt, RebuildError>(
        Rebuilt { state: with_repeats(at.state, initial.duplicate_events), ..at },
    )
    &&& at.state.duplicate_events == repeats_of(j.repeats, run_id, j.repeats.len())
}

proof fn lemma_repeats_of_prefix(
    a: Seq<DuplicateView>,
    b: Seq<DuplicateView>,
    run_id: Seq<char>,
    n: nat,
)
    requires
        n <= a.len(),
        n <= b.len(),
        forall|i: int| 0 <= i < n ==> (#[trigger] a[i]) == b[i],
    ensures
        repeats_of(a, run_id, n) == repeats_of(b, run_id, n),
    decreases n,
{
    if n > 0 {
        lemma_repeats_of_prefix(a, b, run_id, (n - 1) as nat);
        assert(a[n - 1] == b[n - 1]);
    }
}

/// One more repeat leads to the same state, which counts it.
proof fn lemma_repeat_step(
    j: JournalView,
    run_id: Seq<char>,
    initial: StrategyStateView,
    appraisals: Seq<AppraisalView>,
    at: Rebuilt,
    e: EventEnvelopeView,
    next: StrategyStateView,
)
    requires
        leads_to(j, run_id, initial, appraisals, at),
        e.run_id == run_id,
        repeated(at.state) == Ok::<StrategyStateView, LedgerError>(next),
    ensures
        leads_to(
            recorded(j, e, AppendOutcome::Duplicate),
            run_id,
            initial,
            appraisals,
            Rebuilt { state: next, ..at },
        ),
{
    let after = recorded(j, e, AppendOutcome::Duplicate).repeats;
    lemma_repeats_of_prefix(after, j.repeats, run_id, j.repeats.len());
    assert(with_repeats(next, initial.duplicate_events) == with_repeats(
        at.state,
        initial.duplicate_events,
    ));
}

proof fn lemma_rows_of_prefix(a: Log, b: Log, q: QueryView, n: nat)
    requires
        n <= a.len(),
        n <= b.len(),
        forall|i: int| 0 <= i < n ==> (#[trigger] a[i]) == b[i],
    ensures
        rows_before(a, q, n) == rows_before(b, q, n),
    decreases n,
{
    if n > 0 {
        lemma_rows_of_prefix(a, b, q, (n - 1) as nat);
        assert(a[n - 1] == b[n - 1]);
    }
}

proof fn lemma_rows_pushed(log: Log, e: EventEnvelopeView, q: QueryView)
    ensures
        rows_before(log.push(e), q, log.len() + 1) == (if fits(e, q) {
            rows_before(log, q, log.len()).push(e)
        } else {
            rows_before(log, q, log.len())
        }),
{
    lemma_rows_of_prefix(log.push(e), log, q, log.len());
}

/// A replay goes on with what is added at its end.
proof fn lemma_replay_extended(
    b: Rebuilt,
    events: Log,
    appraisals: Seq<AppraisalView>,
    e: EventEnvelopeView,
    a: AppraisalView,
    n: nat,
)
    requires
        n <= events.len(),
        events.len() == appraisals.len(),
    ensures
        replayed(b, events.push(e), appraisals.push(a), n) == replayed(b, events, appraisals, n),
    decreases n,
{
    if n > 0 {
        lemma_replay_extended(b, events, appraisals, e, a, (n - 1) as nat);
        assert(events.push(e)[n - 1] == events[n - 1]);
        assert(appraisals.push(a)[n - 1] == appraisals[n - 1]);
    }
}

/// One more row that applies leads to the state after it.
proof fn lemma_row_step(
    j: JournalView,
    run_id: Seq<char>,
    initial: StrategyStateView,
    appraisals: Seq<AppraisalView>,
    at: Rebuilt,
    e: EventEnvelopeView,
    a: AppraisalView,
    next: StrategyStateView,
)
    requires
        leads_to(j, run_id, initial, appraisals, at),
        e.run_id == run_id,
        e.sequence_number == at.last + 1,
        applied(at.state, e, a) == Ok::<StrategyStateView, EventError>(next),
    ensures
        leads_to(
            JournalView { log: j.log.push(e), ..j },
            run_id,
            initial,
            appraisals.push(a),
            Rebuilt { state: next, last: e.sequence_number },
        ),
{
    let rows = rows_after(j.log, run_id, 0);
    let start = Rebuilt { state: initial, last: 0 };
    law_replays_count_events(start, rows, appraisals, rows.len());
    lemma_rows_pushed(j.log, e, after(run_id, 0));
    assert(fits(e, after(run_id, 0)));
    lemma_replay_extended(start, rows, appraisals, e, a, rows.len());
    assert(rows.push(e)[rows.len() as int] == e);
    assert(appraisals.push(a)[rows.len() as int] == a);
    law_repeats_decide_nothing(at.state, initial.duplicate_events, e, a);
}

/// A ledger that is faithful stays so: the state after an event was appended, or
/// was offered again, is what the journal leads to.
pub proof fn law_ledger_stays_faithful(
    w: LedgerWriterView,
    initial: StrategyStateView,
    appraisals: Seq<AppraisalView>,
    e: EventEnvelopeView,
    a: AppraisalView,
    offline: bool,
)
    requires
        faithful(w, initial, appraisals),
    ensures
        ({
            let (next, r) = written(w, e, a, offline);
            match r {
                Ok(AppendOutcome::Appended(_)) => faithful(next, initial, appraisals.push(a)),
                Ok(AppendOutcome::Duplicate) => faithful(next, initial, appraisals),
                Err(_) => next.journal == w.journal ==> faithful(next, initial, appraisals),
            }
        }),
{
    let (next, r) = written(w, e, a, offline);
    let c = caused_one(w.journal.log, e);
    let at = Rebuilt { state: w.state, last: w.last_sequence };
    match r {
        Ok(AppendOutcome::Appended(n)) => {
            let x = numbered(c, AppendOutcome::Appended(n));
            law_events_continue_the_run(w.state, x, a, next.state);
            lemma_row_step(w.journal, w.state.run_id, initial, appraisals, at, x, a, next.state);
        },
        Ok(AppendOutcome::Duplicate) => {
            lemma_repeat_step(w.journal, w.state.run_id, initial, appraisals, at, c, next.state);
        },
        Err(_) => {},
    }
}

/// What was said on those of the first `n` events of a batch that were new.
pub open spec fn said_on_new(
    outcomes: Seq<AppendOutcome>,
    said: Seq<AppraisalView>,
    n: nat,
) -> Seq<AppraisalView>
    decreases n,
{
    if n == 0 {
        Seq::empty()
    } else {
        let before = said_on_new(outcomes, said, (n - 1) as nat);
        if outcomes[n - 1] is Appended {
            before.push(said[n - 1])
        } else {
            before
        }
    }
}

proof fn lemma_said_alike(
    a: Seq<AppendOutcome>,
    b: Seq<AppendOutcome>,
    said: Seq<AppraisalView>,
    n: nat,
)
    requires
        n <= a.len(),
        n <= b.len(),
        forall|i: int| 0 <= i < n ==> (#[trigger] a[i]) == b[i],
    ensures
        said_on_new(a, said, n) == said_on_new(b, said, n),
    decreases n,
{
    if n > 0 {
        lemma_said_alike(a, b, said, (n - 1) as nat);
        assert(a[n - 1] == b[n - 1]);
    }
}

/// The rows that a batch appended come after those that were there.
proof fn lemma_batch_faithful(
    w: LedgerWriterView,
    initial: StrategyStateView,
    appraisals: Seq<AppraisalView>,
    events: Log,
    said: Seq<AppraisalView>,
    n: nat,
)
    requires
        faithful(w, initial, appraisals),
        n <= events.len(),
        forall|i: int| 0 <= i < events.len() ==> (#[trigger] events[i]).run_id == w.state.run_id,
        w.last_sequence == latest(w.journal.log, w.state.run_id),
        batched(w.journal, events, n) is Ok,
        ({
            let b = batched(w.journal, events, n)->Ok_0;
            settled(
                LedgerWriterView { journal: b.journal, ..w },
                b.events,
                said,
                b.outcomes,
                n,
            ).1 is Ok
        }),
    ensures
        ({
            let b = batched(w.journal, events, n)->Ok_0;
            let (next, _) = settled(
                LedgerWriterView { journal: b.journal, ..w },
                b.events,
                said,
                b.outcomes,
                n,
            );
            &&& b.events.len() == n
            &&& b.outcomes.len() == n
            &&& next.journal == b.journal
            &&& next.state.run_id == w.state.run_id
            &&& next.last_sequence == latest(b.journal.log, w.state.run_id)
            &&& leads_to(
                b.journal,
                w.state.run_id,
                initial,
                appraisals + said_on_new(b.outcomes, said, n),
                Rebuilt { state: next.state, last: next.last_sequence },
            )
        }),
    decreases n,
{
    let b = batched(w.journal, events, n)->Ok_0;
    if n == 0 {
        assert(appraisals + said_on_new(b.outcomes, said, 0) =~= appraisals);
    } else {
        let p = batched(w.journal, events, (n - 1) as nat)->Ok_0;
        lemma_batched_lens(w.journal, events, (n - 1) as nat);
        lemma_settled_alike(
            LedgerWriterView { journal: b.journal, ..w },
            LedgerWriterView { journal: p.journal, ..w },
            b.events,
            p.events,
            said,
            b.outcomes,
            p.outcomes,
            (n - 1) as nat,
        );
        let (before, _) = settled(
            LedgerWriterView { journal: p.journal, ..w },
            p.events,
            said,
            p.outcomes,
            (n - 1) as nat,
        );
        lemma_batch_faithful(w, initial, appraisals, events, said, (n - 1) as nat);
        lemma_said_alike(b.outcomes, p.outcomes, said, (n - 1) as nat);
        let o = outcome(p.journal.log, events[n - 1])->Ok_0;
        assert(b.outcomes[n - 1] == o);
        let x = numbered(events[n - 1], o);
        let (next, _) = settled(
            LedgerWriterView { journal: b.journal, ..w },
            b.events,
            said,
            b.outcomes,
            n,
        );
        assert(b.events[n - 1] == x);
        let at = Rebuilt { state: before.state, last: before.last_sequence };
        let told = appraisals + said_on_new(p.outcomes, said, (n - 1) as nat);
        match o {
            AppendOutcome::Appended(_) => {
                law_sequences_are_contiguous(p.journal.log, events[n - 1]);
                law_events_continue_the_run(before.state, x, said[n - 1], next.state);
                lemma_row_step(
                    p.journal,
                    w.state.run_id,
                    initial,
                    told,
                    at,
                    x,
                    said[n - 1],
                    next.state,
                );
                assert(told.push(said[n - 1]) =~= appraisals + said_on_new(b.outcomes, said, n));
            },
            AppendOutcome::Duplicate => {
                lemma_repeat_step(
                    p.journal,
                    w.state.run_id,
                    initial,
                    told,
                    at,
                    events[n - 1],
                    next.state,
                );
            },
        }
    }
}

proof fn lemma_batched_lens(j: JournalView, events: Log, n: nat)
    requires
        n <= events.len(),
    ensures
        batched(j, events, n) matches Ok(b) ==> b.events.len() == n && b.outcomes.len() == n,
    decreases n,
{
    if n > 0 {
        lemma_batched_lens(j, events, (n - 1) as nat);
    }
}

proof fn lemma_settled_alike(
    w: LedgerWriterView,
    v: LedgerWriterView,
    a: Log,
    b: Log,
    said: Seq<AppraisalView>,
    o: Seq<AppendOutcome>,
    u: Seq<AppendOutcome>,
    m: nat,
)
    requires
        w.state == v.state,
        w.last_sequence == v.last_sequence,
        m <= a.len(),
        m <= b.len(),
        m <= o.len(),
        m <= u.len(),
        forall|i: int| 0 <= i < m ==> (#[trigger] a[i]) == b[i],
        forall|i: int| 0 <= i < m ==> (#[trigger] o[i]) == u[i],
    ensures
        ({
            let x = settled(w, a, said, o, m);
            let y = settled(v, b, said, u, m);
            &&& x.1 == y.1
            &&& x.0.state == y.0.state
            &&& x.0.last_sequence == y.0.last_sequence
            &&& x.0.journal == w.journal
            &&& y.0.journal == v.journal
        }),
    decreases m,
{
    if m > 0 {
        lemma_settled_alike(w, v, a, b, said, o, u, (m - 1) as nat);
        assert(a[m - 1] == b[m - 1] && o[m - 1] == u[m - 1]);
    }
}

/// A ledger that is faithful stays so after a batch, whether its events are new or
/// were offered before.
pub proof fn law_ledger_stays_faithful_in_batches(
    w: LedgerWriterView,
    initial: StrategyStateView,
    appraisals: Seq<AppraisalView>,
    events: Log,
    said: Seq<AppraisalView>,
)
    requires
        faithful(w, initial, appraisals),
    ensures
        ({
            let (next, r) = batch_written(w, events, said);
            let outcomes = appended(
                w.journal,
                caused(w.journal.log, events),
                Some(w.last_sequence),
            )->Ok_0.outcomes;
            r is Ok ==> faithful(
                next,
                initial,
                appraisals + said_on_new(outcomes, said, outcomes.len()),
            )
        }),
{
    let (next, r) = batch_written(w, events, said);
    if r is Ok {
        let c = caused(w.journal.log, events);
        lemma_batched_lens(w.journal, c, c.len());
        assert(c[0].run_id == events[0].run_id);
        assert forall|i: int| 0 <= i < c.len() implies (#[trigger] c[i]).run_id == w.state.run_id by {
            assert(events[i].run_id == w.state.run_id);
        }
        lemma_batch_faithful(w, initial, appraisals, c, said, c.len());
    }
}

/// A state that is in order is so after every event that was accepted.
pub proof fn law_ledger_stays_in_order(
    w: LedgerWriterView,
    e: EventEnvelopeView,
    a: AppraisalView,
    offline: bool,
)
    ensures
        ({
            let (next, r) = written(w, e, a, offline);
            first_violation(w.state) is None && r is Ok ==> first_violation(next.state) is None
        }),
{
    let (next, r) = written(w, e, a, offline);
    let c = caused_one(w.journal.log, e);
    match r {
        Ok(AppendOutcome::Appended(n)) => {
            lemma_last_before(
                w.journal.log,
                with_key(c.run_id, c.idempotency_key),
                w.journal.log.len(),
            );
            assert(is_new(w.journal.log, e));
            let x = numbered(c, AppendOutcome::Appended(n));
            law_numbers_decide_nothing(w.state, c, x, a);
            let checked = applied(w.state, c, a)->Ok_0;
            lemma_same_audit(checked, next.state);
        },
        Ok(AppendOutcome::Duplicate) => {
            lemma_same_audit(w.state, next.state);
        },
        Err(_) => {},
    }
}

/// Whether two states differ in their notes at most.
spec fn noted_apart(s: StrategyStateView, t: StrategyStateView) -> bool {
    t == with_notes(s, t.duplicate_events, t.last_reconciliation_event_sequence)
}

proof fn lemma_same_audit(s: StrategyStateView, t: StrategyStateView)
    requires
        noted_apart(s, t),
    ensures
        first_violation(s) == first_violation(t),
{
    law_notes_are_not_audited(s, t.duplicate_events, t.last_reconciliation_event_sequence);
}

/// The rows that a batch has appended have keys of the batch.
proof fn lemma_batched_keys(j: JournalView, events: Log, run_id: Seq<char>, key: Seq<char>, n: nat)
    requires
        n <= events.len(),
        batched(j, events, n) is Ok,
        !some_row(j.log, with_key(run_id, key)),
        forall|i: int| 0 <= i < n ==> (#[trigger] events[i]).idempotency_key != key,
    ensures
        !some_row(batched(j, events, n)->Ok_0.journal.log, with_key(run_id, key)),
    decreases n,
{
    if n > 0 {
        lemma_batched_keys(j, events, run_id, key, (n - 1) as nat);
        let p = batched(j, events, (n - 1) as nat)->Ok_0.journal.log;
        let b = batched(j, events, n)->Ok_0.journal.log;
        let q = with_key(run_id, key);
        assert(events[n - 1].idempotency_key != key);
        assert forall|i: int| 0 <= i < b.len() implies !fits(#[trigger] b[i], q) by {
            if i < p.len() {
                assert(b[i] == p[i]);
                assert(!fits(p[i], q));
            }
        }
    }
}

/// A batch in which no new event stands twice appends exactly its new events.
proof fn lemma_new_are_appended(j: JournalView, events: Log, n: nat)
    requires
        n <= events.len(),
        keys_differ(j.log, events),
        batched(j, events, n) is Ok,
    ensures
        ({
            let b = batched(j, events, n)->Ok_0;
            &&& b.events.len() == n
            &&& b.outcomes.len() == n
            &&& forall|i: int|
                0 <= i < n ==> (#[trigger] b.events[i]) == numbered(events[i], b.outcomes[i])
            &&& forall|i: int|
                0 <= i < n && is_new(j.log, events[i]) ==> (#[trigger] b.outcomes[i]) is Appended
        }),
    decreases n,
{
    if n > 0 {
        lemma_new_are_appended(j, events, (n - 1) as nat);
        let e = events[n - 1];
        if is_new(j.log, e) {
            lemma_batched_keys(j, events, e.run_id, e.idempotency_key, (n - 1) as nat);
            let p = batched(j, events, (n - 1) as nat)->Ok_0.journal.log;
            lemma_last_before(p, with_key(e.run_id, e.idempotency_key), p.len());
        }
    }
}

/// A batch that settles leads to the state that was projected, but for its notes.
proof fn lemma_settles_as_projected(
    log: Log,
    w: LedgerWriterView,
    start: Projection,
    offered: Log,
    stored: Log,
    said: Seq<AppraisalView>,
    outcomes: Seq<AppendOutcome>,
    n: nat,
)
    requires
        n <= offered.len(),
        offered.len() == stored.len() == outcomes.len(),
        start.state == w.state,
        forall|i: int|
            0 <= i < stored.len() ==> (#[trigger] stored[i]) == numbered(offered[i], outcomes[i]),
        forall|i: int|
            0 <= i < outcomes.len() ==> ((#[trigger] outcomes[i]) is Appended <==> is_new(
                log,
                offered[i],
            )),
        settled(w, stored, said, outcomes, n).1 is Ok,
        projected(log, start, offered, said, n) is Ok,
    ensures
        noted_apart(
            projected(log, start, offered, said, n)->Ok_0.state,
            settled(w, stored, said, outcomes, n).0.state,
        ),
    decreases n,
{
    if n > 0 {
        lemma_settles_as_projected(
            log,
            w,
            start,
            offered,
            stored,
            said,
            outcomes,
            (n - 1) as nat,
        );
        let before = settled(w, stored, said, outcomes, (n - 1) as nat).0.state;
        let p = projected(log, start, offered, said, (n - 1) as nat)->Ok_0.state;
        assert(outcomes[n - 1] is Appended <==> is_new(log, offered[n - 1]));
        if outcomes[n - 1] is Appended {
            let e = offered[n - 1];
            let x = stored[n - 1];
            let a = said[n - 1];
            assert(x == numbered(e, outcomes[n - 1]));
            law_numbers_decide_nothing(p, e, x, a);
            law_notes_decide_nothing(
                p,
                before.duplicate_events,
                before.last_reconciliation_event_sequence,
                x,
                a,
            );
        }
    }
}

/// A batch that was accepted leaves the state in order, unless it holds a new event
/// twice: such an event is projected as often as it stands in the batch and applied
/// once.
pub proof fn law_batches_leave_the_state_in_order(
    w: LedgerWriterView,
    events: Log,
    said: Seq<AppraisalView>,
)
    ensures
        ({
            let (next, r) = batch_written(w, events, said);
            r is Ok && keys_differ(w.journal.log, events) ==> first_violation(next.state) is None
        }),
{
    let (next, r) = batch_written(w, events, said);
    if r is Ok && keys_differ(w.journal.log, events) {
        let c = caused(w.journal.log, events);
        let b = appended(w.journal, c, Some(w.last_sequence))->Ok_0;
        assert forall|i: int, k: int|
            0 <= i < k < c.len() && is_new(w.journal.log, #[trigger] c[k]) implies (
        #[trigger] c[i]).idempotency_key != c[k].idempotency_key by {
            assert(is_new(w.journal.log, events[k]));
            assert(events[i].idempotency_key != events[k].idempotency_key);
        }
        lemma_new_are_appended(w.journal, c, c.len());
        lemma_outcomes(w.journal, c, c.len());
        let start = Projection {
            state: w.state,
            bar: match latest_bar(w.journal.log, w.state.run_id) {
                Ok(bar) => bar,
                Err(_) => None,
            },
        };
        lemma_settles_as_projected(
            w.journal.log,
            LedgerWriterView { journal: b.journal, ..w },
            start,
            c,
            b.events,
            said,
            b.outcomes,
            c.len(),
        );
        let p = projected(w.journal.log, start, c, said, c.len())->Ok_0.state;
        lemma_same_audit(p, next.state);
    }
}

/// An event that is refused before it reaches the journal changes nothing.
pub proof fn law_refused_events_change_nothing(
    w: LedgerWriterView,
    e: EventEnvelopeView,
    a: AppraisalView,
    offline: bool,
)
    ensures
        append_fault(w, e, a, offline) is Some ==> written(w, e, a, offline) == (
            w,
            Err::<AppendOutcome, LedgerError>(append_fault(w, e, a, offline)->0),
        ),
{
}

/// What the journal accepts, the state follows: a new event that was checked and
/// appended is applied.
pub proof fn law_appended_events_apply(
    w: LedgerWriterView,
    e: EventEnvelopeView,
    a: AppraisalView,
    offline: bool,
)
    requires
        is_new(w.journal.log, e),
    ensures
        ({
            let (next, r) = written(w, e, a, offline);
            next.journal != w.journal ==> r matches Ok(AppendOutcome::Appended(_))
        }),
{
    let (next, r) = written(w, e, a, offline);
    let c = caused_one(w.journal.log, e);
    if append_fault(w, e, a, offline) is None {
        lemma_last_before(
            w.journal.log,
            with_key(c.run_id, c.idempotency_key),
            w.journal.log.len(),
        );
        if let Ok(AppendOutcome::Appended(n)) = outcome(w.journal.log, c) {
            law_numbers_decide_nothing(
                w.state,
                c,
                numbered(c, AppendOutcome::Appended(n)),
                a,
            );
        }
    }
}

} // verus!

//! Appending to the journal.
use crate::event::payload::{EventEnvelope, EventEnvelopeView};
use crate::journal::query::{
    any, anything, fits, in_order, last_before, latest, lemma_last_before, may_follow, of_run,
    some_row, with_key, Duplicate, DuplicateView, Journal, JournalView, Log, QueryView,
};
use crate::json::{json_at, json_part, json_same, same_json_at};
use crate::text::text_eq;
use crate::value::Value;
use vstd::prelude::*;

verus! {

/// What became of an event that was offered to the journal.
#[derive(Clone, Copy, Debug, PartialEq, Eq, Structural)]
pub enum AppendOutcome {
    /// It was appended with this sequence number.
    Appended(i64),
    /// It was there already.
    Duplicate,
}

/// Why a batch is not appended.
#[derive(Clone, Copy, Debug, PartialEq, Eq, Structural)]
pub enum AppendError {
    /// The batch is empty.
    Empty,
    /// The batch holds events of several runs.
    SeveralRuns,
    /// The batch holds events of several symbols.
    SeveralSymbols,
    /// Another writer has appended to the run.
    Stale,
    /// The key is taken by another event.
    Conflict,
    /// The key is taken by an event whose payload cannot be read.
    Unreadable,
    /// The identifier is taken by another event.
    IdentifierTaken,
    /// There are no sequence numbers left.
    Exhausted,
}

/// Whether two payloads are the same: the same text, or texts that are read as
/// equal values.
pub open spec fn same_payload(a: Seq<char>, b: Seq<char>) -> bool {
    a == b || json_same(a, b, ""@)
}

/// Whether an event that is offered is the one that a row holds.
pub open spec fn same_event(row: EventEnvelopeView, e: EventEnvelopeView) -> bool {
    &&& row.event_id == e.event_id
    &&& row.event_type == e.event_type
    &&& row.schema_version == e.schema_version
    &&& row.cycle_id == e.cycle_id
    &&& row.symbol == e.symbol
    &&& row.event_time == e.event_time
    &&& row.correlation_id == e.correlation_id
    &&& same_payload(row.encoded, e.encoded)
    &&& row.config_version == e.config_version
}

/// A query for the row with an identifier.
pub open spec fn with_id(event_id: Seq<char>) -> QueryView {
    QueryView { event_id: Some(event_id), ..any() }
}

/// What becomes of an event that is offered.
pub open spec fn outcome(log: Log, e: EventEnvelopeView) -> Result<AppendOutcome, AppendError> {
    match last_before(log, with_key(e.run_id, e.idempotency_key), log.len()) {
        Some(i) => if same_event(log[i], e) {
            Ok(AppendOutcome::Duplicate)
        } else if json_part(log[i].encoded, ""@) is None {
            Err(AppendError::Unreadable)
        } else {
            Err(AppendError::Conflict)
        },
        None => if latest(log, e.run_id) == i64::MAX {
            Err(AppendError::Exhausted)
        } else if some_row(log, with_id(e.event_id)) {
            Err(AppendError::IdentifierTaken)
        } else {
            Ok(AppendOutcome::Appended((latest(log, e.run_id) + 1) as i64))
        },
    }
}

/// The event with the sequence number under which it was appended.
pub open spec fn numbered(e: EventEnvelopeView, o: AppendOutcome) -> EventEnvelopeView {
    match o {
        AppendOutcome::Appended(n) => EventEnvelopeView { sequence_number: n, ..e },
        AppendOutcome::Duplicate => e,
    }
}

/// The event after it was offered. One that is refused for its identifier has got
/// the number that it would have had.
pub open spec fn offered_left(log: Log, e: EventEnvelopeView) -> EventEnvelopeView {
    match outcome(log, e) {
        Ok(o) => numbered(e, o),
        Err(AppendError::IdentifierTaken) => EventEnvelopeView {
            sequence_number: (latest(log, e.run_id) + 1) as i64,
            ..e
        },
        Err(_) => e,
    }
}

/// The journal after an event with an outcome.
pub open spec fn recorded(j: JournalView, e: EventEnvelopeView, o: AppendOutcome) -> JournalView {
    match o {
        AppendOutcome::Appended(_) => JournalView { log: j.log.push(numbered(e, o)), ..j },
        AppendOutcome::Duplicate => JournalView {
            repeats: j.repeats.push(
                DuplicateView { run_id: e.run_id, idempotency_key: e.idempotency_key },
            ),
            ..j
        },
    }
}

/// The journal, the events and the outcomes after a batch.
pub struct Batched {
    pub journal: JournalView,
    pub events: Log,
    pub outcomes: Seq<AppendOutcome>,
}

/// What follows from the first `n` events of a batch.
pub open spec fn batched(j: JournalView, events: Log, n: nat) -> Result<Batched, AppendError>
    decreases n,
{
    if n == 0 {
        Ok(Batched { journal: j, events: Seq::empty(), outcomes: Seq::empty() })
    } else {
        match batched(j, events, (n - 1) as nat) {
            Err(e) => Err(e),
            Ok(b) => match outcome(b.journal.log, events[n - 1]) {
                Err(e) => Err(e),
                Ok(o) => Ok(
                    Batched {
                        journal: recorded(b.journal, events[n - 1], o),
                        events: b.events.push(numbered(events[n - 1], o)),
                        outcomes: b.outcomes.push(o),
                    },
                ),
            },
        }
    }
}

/// Why a batch cannot be of one run, if it cannot.
pub open spec fn batch_fault(j: JournalView, events: Log, expected: Option<i64>) -> Option<
    AppendError,
> {
    if events.len() == 0 {
        Some(AppendError::Empty)
    } else if exists|i: int| 0 <= i < events.len() && (#[trigger] events[i]).run_id != events[0].run_id {
        Some(AppendError::SeveralRuns)
    } else if exists|i: int| 0 <= i < events.len() && (#[trigger] events[i]).symbol != events[0].symbol {
        Some(AppendError::SeveralSymbols)
    } else if expected is Some && latest(j.log, events[0].run_id) != expected->0 {
        Some(AppendError::Stale)
    } else {
        None
    }
}

/// What follows from a batch.
pub open spec fn appended(j: JournalView, events: Log, expected: Option<i64>) -> Result<
    Batched,
    AppendError,
> {
    match batch_fault(j, events, expected) {
        Some(e) => Err(e),
        None => batched(j, events, events.len()),
    }
}

/// The events of a batch after it was offered: those after the first that is refused
/// are as they were.
pub open spec fn batch_offered(j: JournalView, events: Log) -> Log {
    Seq::new(
        events.len(),
        |k: int|
            match batched(j, events, k as nat) {
                Ok(b) => offered_left(b.journal.log, events[k]),
                Err(_) => events[k],
            },
    )
}

/// The events after they were offered as a batch of a run.
pub open spec fn batch_left(j: JournalView, events: Log, expected: Option<i64>) -> Log {
    if batch_fault(j, events, expected) is Some {
        events
    } else {
        batch_offered(j, events)
    }
}

proof fn lemma_batched_stops(j: JournalView, events: Log, n: nat, m: nat)
    requires
        n <= m,
        batched(j, events, n) is Err,
    ensures
        batched(j, events, m) == batched(j, events, n),
    decreases m - n,
{
    if n < m {
        lemma_batched_stops(j, events, n, (m - 1) as nat);
    }
}

/// A batch that is accepted leaves its events as they were offered one by one.
pub proof fn lemma_batched_events(j: JournalView, events: Log, n: nat)
    requires
        n <= events.len(),
        batched(j, events, n) is Ok,
    ensures
        batched(j, events, n)->Ok_0.events.len() == n,
        forall|k: int|
            0 <= k < n ==> (#[trigger] batched(j, events, n)->Ok_0.events[k]) == batch_offered(
                j,
                events,
            )[k],
    decreases n,
{
    if n > 0 {
        lemma_batched_events(j, events, (n - 1) as nat);
    }
}

proof fn lemma_push_in_order(log: Log, e: EventEnvelopeView)
    requires
        in_order(log),
        outcome(log, e) matches Ok(AppendOutcome::Appended(_)),
    ensures
        in_order(log.push(numbered(e, outcome(log, e)->Ok_0))),
{
    let n = numbered(e, outcome(log, e)->Ok_0);
    let after = log.push(n);
    lemma_last_before(log, with_key(e.run_id, e.idempotency_key), log.len());
    lemma_last_before(log, of_run(e.run_id), log.len());
    assert forall|i: int, k: int| 0 <= i < k < after.len() implies may_follow(
        #[trigger] after[i],
        #[trigger] after[k],
    ) by {
        if k == log.len() {
            assert(!fits(log[i], with_key(e.run_id, e.idempotency_key)));
            assert(!fits(log[i], with_id(e.event_id)));
            if log[i].run_id == e.run_id {
                assert(fits(log[i], of_run(e.run_id)));
                let last = last_before(log, of_run(e.run_id), log.len())->0;
                if i < last {
                    assert(may_follow(log[i], log[last]));
                }
            }
        }
    }
}

fn is_same_payload(a: &str, b: &str) -> (r: bool)
    ensures
        r == same_payload(a@, b@),
{
    text_eq(a, b) || same_json_at(a, b, "")
}

impl EventEnvelope {
    /// Whether the event that is offered is this one.
    pub fn is_same_event(&self, e: &EventEnvelope) -> (r: bool)
        ensures
            r == same_event(self@, e@),
    {
        text_eq(self.event_id.as_str(), e.event_id.as_str()) && self.event_type == e.event_type
            && self.schema_version == e.schema_version && text_eq(
            self.cycle_id.as_str(),
            e.cycle_id.as_str(),
        ) && text_eq(self.symbol.as_str(), e.symbol.as_str()) && self.event_time.same(&e.event_time)
            && text_eq(self.correlation_id.as_str(), e.correlation_id.as_str())
            && is_same_payload(self.encoded.as_str(), e.encoded.as_str()) && text_eq(
            self.config_version.as_str(),
            e.config_version.as_str(),
        )
    }
}

impl Journal {
    fn outcome_of(&self, e: &EventEnvelope) -> (r: Result<AppendOutcome, AppendError>)
        ensures
            r == outcome(self@.log, e@),
    {
        match self.event_by_idempotency_key(e.run_id.as_str(), e.idempotency_key.as_str()) {
            Some(row) => if row.is_same_event(e) {
                Ok(AppendOutcome::Duplicate)
            } else if json_at(row.encoded.as_str(), "").is_none() {
                Err(AppendError::Unreadable)
            } else {
                Err(AppendError::Conflict)
            },
            None => {
                let last: i64 = self.latest_sequence(e.run_id.as_str());
                if last == i64::MAX {
                    return Err(AppendError::Exhausted);
                }
                let mut q = anything();
                q.event_id = Some(e.event_id.as_str());
                if self.has_row(&q) {
                    return Err(AppendError::IdentifierTaken);
                }
                Ok(AppendOutcome::Appended(last + 1))
            },
        }
    }

    fn record(&mut self, e: &mut EventEnvelope, o: AppendOutcome)
        requires
            outcome(old(self)@.log, old(e)@) == Ok::<AppendOutcome, AppendError>(o),
        ensures
            final(self)@ == recorded(old(self)@, old(e)@, o),
            final(e)@ == numbered(old(e)@, o),
    {
        self.order_known();
        let ghost log = self@.log;
        let ghost offered = e@;
        match o {
            AppendOutcome::Appended(n) => {
                proof {
                    lemma_push_in_order(log, offered);
                }
                e.sequence_number = n;
                assert(e@ == numbered(offered, o));
                self.push_row(e.dup());
            },
            AppendOutcome::Duplicate => {
                self.push_repeat(
                    Duplicate {
                        run_id: e.run_id.dup(),
                        idempotency_key: e.idempotency_key.dup(),
                    },
                );
            },
        }
    }

    fn check_batch(&self, events: &Vec<EventEnvelope>, expected: Option<i64>) -> (r: Option<
        AppendError,
    >)
        ensures
            r == batch_fault(self@, events.deep_view(), expected),
    {
        let ghost all = events.deep_view();
        if events.len() == 0 {
            return Some(AppendError::Empty);
        }
        assert(all[0] == events[0]@);
        let mut several = false;
        let mut symbols = false;
        let mut i: usize = 0;
        while i < events.len()
            invariant
                i <= events.len(),
                events.len() > 0,
                all == events.deep_view(),
                all[0] == events[0]@,
                several == exists|k: int|
                    0 <= k < i && (#[trigger] all[k]).run_id != all[0].run_id,
                symbols == exists|k: int|
                    0 <= k < i && (#[trigger] all[k]).symbol != all[0].symbol,
            decreases events.len() - i,
        {
            assert(all[i as int] == events[i as int]@);
            if !text_eq(events[i].run_id.as_str(), events[0].run_id.as_str()) {
                several = true;
            }
            if !text_eq(events[i].symbol.as_str(), events[0].symbol.as_str()) {
                symbols = true;
            }
            i = i + 1;
        }
        if several {
            return Some(AppendError::SeveralRuns);
        }
        if symbols {
            return Some(AppendError::SeveralSymbols);
        }
        if let Some(x) = expected {
            if self.latest_sequence(events[0].run_id.as_str()) != x {
                return Some(AppendError::Stale);
            }
        }
        None
    }

    /// Appends a batch, all of it or nothing. Each new event gets the sequence
    /// number under which it stands.
    pub fn append_batch_inner(&mut self, events: &mut Vec<EventEnvelope>, expected: Option<i64>) -> (r:
        Result<Vec<AppendOutcome>, AppendError>)
        ensures
            match appended(old(self)@, old(events).deep_view(), expected) {
                Ok(b) => r matches Ok(o) && o@ == b.outcomes && final(self)@ == b.journal
                    && final(events).deep_view() == b.events,
                Err(e) => r == Err::<Vec<AppendOutcome>, AppendError>(e) && final(self)@ == old(
                    self,
                )@,
            },
            final(events).deep_view() == batch_left(
                old(self)@,
                old(events).deep_view(),
                expected,
            ),
    {
        if let Some(e) = self.check_batch(events, expected) {
            return Err(e);
        }
        let ghost j = self@;
        let ghost all = events.deep_view();
        let rows_before: usize = self.len();
        let repeats_before: usize = self.repeats_len();
        let mut outcomes: Vec<AppendOutcome> = Vec::new();
        let mut i: usize = 0;
        assert(events.deep_view() =~= Seq::<EventEnvelopeView>::empty() + all);
        while i < events.len()
            invariant
                i <= events.len() == all.len(),
                j.log.len() == rows_before,
                j.repeats.len() == repeats_before,
                batch_fault(j, all, expected) is None,
                batched(j, all, i as nat) matches Ok(b) && outcomes@ == b.outcomes && self@
                    == b.journal && b.events.len() == i,
                j.log.len() <= self@.log.len() && self@.log.subrange(0, j.log.len() as int)
                    == j.log,
                j.repeats.len() <= self@.repeats.len() && self@.repeats.subrange(
                    0,
                    j.repeats.len() as int,
                ) == j.repeats,
                forall|k: int|
                    0 <= k < i ==> (#[trigger] events.deep_view()[k]) == batched(
                        j,
                        all,
                        i as nat,
                    )->Ok_0.events[k],
                forall|k: int| i <= k < all.len() ==> (#[trigger] events.deep_view()[k]) == all[k],
                appended(j, all, expected) == batched(j, all, all.len()),
                j == old(self)@,
                all == old(events).deep_view(),
            decreases events.len() - i,
        {
            let ghost now = events.deep_view();
            assert(now[i as int] == events[i as int]@);
            match self.outcome_of(&events[i]) {
                Err(e) => {
                    let ghost log = self@.log;
                    if e == AppendError::IdentifierTaken {
                        let mut event = events[i].dup();
                        event.sequence_number = self.latest_sequence(event.run_id.as_str()) + 1;
                        events.set(i, event);
                    }
                    proof {
                        lemma_batched_stops(j, all, (i + 1) as nat, all.len());
                        let left = events.deep_view();
                        assert(left =~= now.update(i as int, offered_left(log, all[i as int])));
                        assert forall|k: int| 0 <= k < all.len() implies (#[trigger] left[k])
                            == batch_offered(j, all)[k] by {
                            if k < i {
                                assert(now[k] == batched(j, all, i as nat)->Ok_0.events[k]);
                                lemma_batched_events(j, all, i as nat);
                            } else if k > i {
                                lemma_batched_stops(j, all, (i + 1) as nat, k as nat);
                            }
                        }
                        assert(left =~= batch_offered(j, all));
                    }
                    self.take_back(rows_before, repeats_before);
                    assert(self@ =~= j);
                    return Err(e);
                },
                Ok(o) => {
                    let ghost log = self@.log;
                    let ghost again = self@.repeats;
                    let mut event = events[i].dup();
                    self.record(&mut event, o);
                    events.set(i, event);
                    outcomes.push(o);
                    assert(self@.log.subrange(0, j.log.len() as int) =~= log.subrange(
                        0,
                        j.log.len() as int,
                    ));
                    assert(self@.repeats.subrange(0, j.repeats.len() as int) =~= again.subrange(
                        0,
                        j.repeats.len() as int,
                    ));
                    assert(events.deep_view() =~= now.update(i as int, numbered(all[i as int], o)));
                },
            }
            i = i + 1;
        }
        assert(events.deep_view() =~= batched(j, all, all.len())->Ok_0.events);
        proof {
            lemma_batched_events(j, all, all.len());
            assert(events.deep_view() =~= batch_offered(j, all));
        }
        Ok(outcomes)
    }

    /// Appends a batch of a run that no other writer has appended to.
    pub fn append_batch_expected(
        &mut self,
        events: &mut Vec<EventEnvelope>,
        expected_last_sequence: i64,
    ) -> (r: Result<Vec<AppendOutcome>, AppendError>)
        ensures
            match appended(old(self)@, old(events).deep_view(), Some(expected_last_sequence)) {
                Ok(b) => r matches Ok(o) && o@ == b.outcomes && final(self)@ == b.journal
                    && final(events).deep_view() == b.events,
                Err(e) => r == Err::<Vec<AppendOutcome>, AppendError>(e) && final(self)@ == old(
                    self,
                )@,
            },
            final(events).deep_view() == batch_left(
                old(self)@,
                old(events).deep_view(),
                Some(expected_last_sequence),
            ),
    {
        self.append_batch_inner(events, Some(expected_last_sequence))
    }

    /// Appends an event to a run that no other writer has appended to.
    pub fn append_expected(&mut self, event: &mut EventEnvelope, expected_last_sequence: i64) -> (r:
        Result<AppendOutcome, AppendError>)
        ensures
            match one_appended(old(self)@, old(event)@, expected_last_sequence) {
                Ok(o) => r == Ok::<AppendOutcome, AppendError>(o) && final(self)@ == recorded(
                    old(self)@,
                    old(event)@,
                    o,
                ) && final(event)@ == numbered(old(event)@, o),
                Err(e) => r == Err::<AppendOutcome, AppendError>(e) && final(self)@ == old(self)@
                    && final(event)@ == (if e == AppendError::Stale {
                    old(event)@
                } else {
                    offered_left(old(self)@.log, old(event)@)
                }),
            },
    {
        let last: i64 = self.latest_sequence(event.run_id.as_str());
        if last != expected_last_sequence {
            return Err(AppendError::Stale);
        }
        match self.outcome_of(event) {
            Ok(o) => {
                self.record(event, o);
                Ok(o)
            },
            Err(e) => {
                if e == AppendError::IdentifierTaken {
                    event.sequence_number = last + 1;
                }
                Err(e)
            },
        }
    }
}

/// What becomes of an event that is offered to a run at a sequence number.
pub open spec fn one_appended(j: JournalView, e: EventEnvelopeView, expected: i64) -> Result<
    AppendOutcome,
    AppendError,
> {
    if latest(j.log, e.run_id) != expected {
        Err(AppendError::Stale)
    } else {
        outcome(j.log, e)
    }
}

/// Nothing that was appended is changed or lost by a batch.
pub proof fn law_journal_is_append_only(j: JournalView, events: Log, n: nat)
    requires
        n <= events.len(),
    ensures
        batched(j, events, n) matches Ok(b) ==> {
            &&& j.log.len() <= b.journal.log.len()
            &&& b.journal.log.subrange(0, j.log.len() as int) == j.log
        },
    decreases n,
{
    if n > 0 {
        law_journal_is_append_only(j, events, (n - 1) as nat);
        if let Ok(b) = batched(j, events, n) {
            let p = batched(j, events, (n - 1) as nat)->Ok_0;
            assert(b.journal.log.subrange(0, j.log.len() as int) =~= p.journal.log.subrange(
                0,
                j.log.len() as int,
            ));
        }
    } else {
        assert(j.log.subrange(0, j.log.len() as int) =~= j.log);
    }
}

/// An event that was appended is a duplicate from then on: offering it again,
/// whatever the notation of its payload, appends nothing.
pub proof fn law_append_is_idempotent(log: Log, e: EventEnvelopeView, later: Log)
    requires
        in_order(log + later),
        log.len() > 0,
        log.last().run_id == e.run_id,
        log.last().idempotency_key == e.idempotency_key,
        same_event(log.last(), e),
    ensures
        outcome(log + later, e) == Ok::<AppendOutcome, AppendError>(AppendOutcome::Duplicate),
{
    let all = log + later;
    let at = log.len() - 1;
    assert(all[at] == log.last());
    lemma_last_before(all, with_key(e.run_id, e.idempotency_key), all.len());
    assert(fits(all[at], with_key(e.run_id, e.idempotency_key)));
    let i = last_before(all, with_key(e.run_id, e.idempotency_key), all.len())->0;
    if i > at {
        assert(may_follow(all[at], all[i]));
    }
}

/// What is appended to a run follows on its last sequence number.
pub proof fn law_sequences_are_contiguous(log: Log, e: EventEnvelopeView)
    ensures
        outcome(log, e) matches Ok(AppendOutcome::Appended(n)) ==> {
            let after = log.push(numbered(e, AppendOutcome::Appended(n)));
            &&& n == latest(log, e.run_id) + 1
            &&& latest(after, e.run_id) == n
        },
{
}

/// What is appended to one run leaves the others as they are.
pub proof fn law_runs_are_apart(log: Log, e: EventEnvelopeView, other: Seq<char>)
    requires
        other != e.run_id,
    ensures
        outcome(log, e) matches Ok(o) ==> latest(
            recorded(JournalView { log, repeats: Seq::empty() }, e, o).log,
            other,
        ) == latest(log, other),
{
    if let Ok(AppendOutcome::Appended(n)) = outcome(log, e) {
        let after = log.push(numbered(e, AppendOutcome::Appended(n)));
        lemma_last_of_prefix(after, log, of_run(other), log.len());
        assert(!fits(after[log.len() as int], of_run(other)));
    }
}

/// The last row of a prefix is the same in what continues it.
pub proof fn lemma_last_of_prefix(a: Log, b: Log, q: QueryView, n: nat)
    requires
        n <= a.len(),
        n <= b.len(),
        forall|i: int| 0 <= i < n ==> (#[trigger] a[i]) == b[i],
    ensures
        last_before(a, q, n) == last_before(b, q, n),
        match last_before(b, q, n) {
            Some(i) => 0 <= i < n && a[i] == b[i],
            None => true,
        },
    decreases n,
{
    if n > 0 {
        assert(a[n - 1] == b[n - 1]);
        if !fits(a[n - 1], q) {
            lemma_last_of_prefix(a, b, q, (n - 1) as nat);
        }
    }
}

} // verus!

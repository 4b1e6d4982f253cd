//! What holds of every event and batch that the ledger writes.
use crate::audit::first_violation;
use crate::event::kinds::{current_schema, EventType};
use crate::event::payload::{EventEnvelopeView, PayloadView};
use crate::event::reduce::applied;
use crate::journal::append::AppendOutcome;
use crate::journal::query::{last_sale, lemma_last_before, Log, QueryView};
use crate::ledger::evidence::{reset_fault, staged};
use crate::ledger::kinship::is_new;
use crate::ledger::writer::{
    append_fault, batch_run_fault, caused_at, caused_one, written, LedgerWriterView,
};
use crate::model::ledger::{OrderStatus, StrategyStateView};
use crate::model::market::Direction;
use crate::model::notices::AppraisalView;
use vstd::prelude::*;

verus! {

/// A new event that is accepted on its own is of the run and the symbol, in its current
/// layout, and none of those that come only in batches or only through their own boundary.
pub proof fn law_single_events_stand_alone(
    w: LedgerWriterView,
    e: EventEnvelopeView,
    a: AppraisalView,
    offline: bool,
)
    requires
        append_fault(w, e, a, offline) is None,
    ensures
        e.run_id == w.state.run_id && e.symbol == w.state.symbol,
        !offline ==> e.event_type != EventType::PlatformUpgradeAuthorized && e.event_type
            != EventType::PlatformUpgradeActivated && e.event_type
            != EventType::OngoingResourcePolicyActivated,
        is_new(w.journal.log, e) ==> {
            &&& e.schema_version == current_schema(e.event_type)
            &&& e.event_type != EventType::GridRightGranted && e.event_type
                != EventType::GridLevelTouched && e.event_type != EventType::GridLevelSkipped
                && e.event_type != EventType::GridCycleStarted && e.event_type
                != EventType::GridCycleReset && e.event_type != EventType::GridLevelArmed
            &&& e.event_type != EventType::InitialDeploymentEvaluated
            &&& e.event_type == EventType::OrderIntentCreated ==> !(
            e.payload matches PayloadView::Intent(o) && o.intent.origin is Some)
            &&& applied(w.state, caused_one(w.journal.log, e), a) matches Ok(n) && first_violation(
                n,
            ) is None
        },
{
}

/// An event that is appended brings the journal, the number and the state forward by one; one
/// that was offered before changes nothing but the count of repeats.
pub proof fn law_written_events_count_once(
    w: LedgerWriterView,
    e: EventEnvelopeView,
    a: AppraisalView,
    offline: bool,
)
    ensures
        written(w, e, a, offline) matches (n, Ok(AppendOutcome::Appended(k))) ==> {
            &&& k == w.last_sequence + 1 && n.last_sequence == k
            &&& n.journal.log.len() == w.journal.log.len() + 1
            &&& n.journal.log.last().sequence_number == k
            &&& n.journal.log.last().event_id == e.event_id
            &&& n.journal.repeats == w.journal.repeats
            &&& applied(w.state, n.journal.log.last(), a) == Ok::<
                StrategyStateView,
                crate::event::reduce::EventError,
            >(n.state)
        },
        written(w, e, a, offline) matches (n, Ok(AppendOutcome::Duplicate)) ==> {
            &&& n.journal.log == w.journal.log && n.last_sequence == w.last_sequence
            &&& n.journal.repeats.len() == w.journal.repeats.len() + 1
            &&& n.state == (StrategyStateView {
                duplicate_events: (w.state.duplicate_events + 1) as u64,
                ..w.state
            })
        },
{
}

/// A new event follows from the last row of its run with its correlation, and from none where
/// there is no such row; nothing else of it is changed.
pub proof fn law_events_name_their_cause(log: Log, e: EventEnvelopeView)
    requires
        is_new(log, e),
    ensures
        ({
            let c = caused_one(log, e);
            &&& c == (EventEnvelopeView { causation_id: c.causation_id, ..e })
            &&& c.causation_id is None ==> forall|i: int|
                0 <= i < log.len() ==> !((#[trigger] log[i]).run_id == e.run_id
                    && log[i].correlation_id == e.correlation_id)
            &&& c.causation_id matches Some(id) ==> exists|i: int|
                0 <= i < log.len() && (#[trigger] log[i]).event_id == id && log[i].run_id
                    == e.run_id && log[i].correlation_id == e.correlation_id && forall|j: int|
                    i < j < log.len() ==> !((#[trigger] log[j]).run_id == e.run_id
                        && log[j].correlation_id == e.correlation_id)
        }),
{
    let q = QueryView {
        correlation: Some(e.correlation_id),
        ..crate::journal::query::of_run(e.run_id)
    };
    lemma_last_before(log, q, log.len());
    assert forall|i: int| 0 <= i < log.len() implies (crate::journal::query::fits(
        #[trigger] log[i],
        q,
    ) <==> log[i].run_id == e.run_id && log[i].correlation_id == e.correlation_id) by {}
    if let Some(i) = crate::journal::query::last_before(log, q, log.len()) {
        assert(log[i].event_id == caused_one(log, e).causation_id->0);
    }
}

proof fn lemma_batch_cause(log: Log, events: Log, correlation: Seq<char>, n: nat)
    requires
        n <= events.len(),
    ensures
        match crate::ledger::writer::batch_cause(log, events, correlation, n) {
            Some(id) => exists|k: int|
                0 <= k < n && (#[trigger] events[k]).event_id == id && is_new(log, events[k])
                    && events[k].correlation_id == correlation && forall|j: int|
                    k < j < n ==> !(is_new(log, #[trigger] events[j]) && events[j].correlation_id
                        == correlation),
            None => forall|j: int|
                0 <= j < n ==> !(is_new(log, #[trigger] events[j]) && events[j].correlation_id
                    == correlation),
        },
    decreases n,
{
    if n > 0 {
        if is_new(log, events[n - 1]) && events[n - 1].correlation_id == correlation {
            assert(events[n - 1].event_id == crate::ledger::writer::batch_cause(
                log,
                events,
                correlation,
                n,
            )->0);
        } else {
            lemma_batch_cause(log, events, correlation, (n - 1) as nat);
        }
    }
}

/// A new event of a batch follows from the last new event before it in the batch with its
/// correlation, where there is one.
pub proof fn law_batched_events_name_their_cause(log: Log, events: Log, i: int, k: int)
    requires
        0 <= k < i < events.len(),
        is_new(log, events[i]),
        is_new(log, events[k]),
        events[k].correlation_id == events[i].correlation_id,
        forall|j: int|
            k < j < i ==> !(is_new(log, #[trigger] events[j]) && events[j].correlation_id
                == events[i].correlation_id),
    ensures
        caused_at(log, events, i).causation_id == Some(events[k].event_id),
        caused_at(log, events, i) == (EventEnvelopeView {
            causation_id: caused_at(log, events, i).causation_id,
            ..events[i]
        }),
{
    lemma_batch_cause(log, events, events[i].correlation_id, i as nat);
}

/// In the current layout a cycle is followed by the next one only at the time of its last
/// sale, on a bar that was processed, and after a sale that it completed.
pub proof fn law_cycles_are_reset_for_cause(log: Log, s: StrategyStateView, e: EventEnvelopeView)
    requires
        e.schema_version >= 2,
    ensures
        reset_fault(log, s, e) is None ==> {
            &&& last_sale(log, s.run_id) == Some(e.event_time)
            &&& staged(log, s, EventType::MarketBarProcessed, e.event_time)
            &&& exists|i: int|
                0 <= i < s.orders.len() && (#[trigger] s.orders[i].1).status == OrderStatus::Filled
                    && s.orders[i].1.intent.direction == Direction::Sell
        },
{
    if reset_fault(log, s, e) is None {
        let i = choose|i: int|
            0 <= i < s.orders.len() && crate::ledger::evidence::completed_sale(
                s,
                #[trigger] s.orders[i].1,
            );
        assert(s.orders[i].1.status == OrderStatus::Filled);
    }
}

/// A batch is of the run and the symbol of the ledger, is not empty, and holds nothing that
/// comes through a boundary of its own.
pub proof fn law_batches_are_of_the_run(w: LedgerWriterView, events: Log)
    ensures
        batch_run_fault(w, events) is None <==> events.len() > 0 && forall|i: int|
            0 <= i < events.len() ==> (#[trigger] events[i]).run_id == w.state.run_id
                && events[i].symbol == w.state.symbol && events[i].event_type
                != EventType::PlatformUpgradeAuthorized && events[i].event_type
                != EventType::PlatformUpgradeActivated && events[i].event_type
                != EventType::OngoingResourcePolicyActivated,
{
}

} // verus!

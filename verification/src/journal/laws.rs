//! What holds of every journal: what is appended and found again, what is rebuilt from it,
//! and what its commands and opportunities come to.
use crate::event::kinds::EventType;
use crate::event::payload::EventEnvelopeView;
use crate::journal::append::{outcome, AppendOutcome};
use crate::journal::inbox::{
    claimed, completed, control_at, deactivated, WebCommandClaimView, WebInboxView,
};
use crate::journal::opportunities::{
    belonging, processed_at, processing_of, resolution, resolving, Resolution,
};
use crate::journal::query::{
    count_before, fits, in_order, latest, lemma_last_before, of_run, rows_before, some_row, with_key,
    Log, QueryView,
};
use crate::journal::rebuild::{
    first_unprocessed, hydrated, prefix_len, rows_after, starting_point, unprocessed,
};
use crate::journal::snapshots::SnapshotRowView;
use crate::model::commands::{ControlRowView, WebCommandOfferView};
use crate::model::ledger::StrategyStateView;
use crate::model::settings::ConfigView;
use crate::policy::policy_of;
use vstd::prelude::*;

verus! {

/// The last sequence number of a run is that of one of its rows, none of which has a larger
/// one; a run without rows is at zero.
pub proof fn law_latest_is_the_largest(log: Log, run_id: Seq<char>)
    requires
        in_order(log),
    ensures
        forall|i: int|
            0 <= i < log.len() && (#[trigger] log[i]).run_id == run_id ==> log[i].sequence_number
                <= latest(log, run_id),
        (exists|i: int| 0 <= i < log.len() && (#[trigger] log[i]).run_id == run_id) ==> exists|i: int|
            0 <= i < log.len() && (#[trigger] log[i]).run_id == run_id && log[i].sequence_number
                == latest(log, run_id),
        (forall|i: int| 0 <= i < log.len() ==> (#[trigger] log[i]).run_id != run_id) ==> latest(
            log,
            run_id,
        ) == 0,
{
    lemma_last_before(log, of_run(run_id), log.len());
    match crate::journal::query::last_before(log, of_run(run_id), log.len()) {
        Some(k) => {
            assert(log[k].run_id == run_id);
            assert forall|i: int|
                0 <= i < log.len() && (#[trigger] log[i]).run_id
                    == run_id implies log[i].sequence_number <= latest(log, run_id) by {
                if i > k {
                    assert(!fits(log[i], of_run(run_id)));
                } else if i < k {
                    assert(crate::journal::query::may_follow(log[i], log[k]));
                }
            }
        },
        None => {
            assert forall|i: int|
                0 <= i < log.len() && (#[trigger] log[i]).run_id
                    == run_id implies log[i].sequence_number <= latest(log, run_id) by {
                assert(!fits(log[i], of_run(run_id)));
            }
            if exists|i: int| 0 <= i < log.len() && (#[trigger] log[i]).run_id == run_id {
                let i = choose|i: int| 0 <= i < log.len() && (#[trigger] log[i]).run_id == run_id;
                assert(!fits(log[i], of_run(run_id)));
            }
        },
    }
}

/// Whether a row of a run has the key of an event.
pub open spec fn has_key(row: EventEnvelopeView, e: EventEnvelopeView) -> bool {
    row.run_id == e.run_id && row.idempotency_key == e.idempotency_key
}

/// An event is appended exactly where its run has no row of its key, no row at all has its
/// identifier, and numbers are left; it gets the next number. An event of a known key is a
/// duplicate where it says the same of its kind, layout, cycle, symbol, time, correlation
/// and configuration, and is refused otherwise.
pub proof fn law_offers(log: Log, e: EventEnvelopeView)
    ensures
        outcome(log, e) is Ok && outcome(log, e)->Ok_0 is Appended <==> {
            &&& forall|i: int| 0 <= i < log.len() ==> !has_key(#[trigger] log[i], e)
            &&& forall|i: int| 0 <= i < log.len() ==> (#[trigger] log[i]).event_id != e.event_id
            &&& latest(log, e.run_id) < i64::MAX
        },
        outcome(log, e) matches Ok(AppendOutcome::Appended(n)) ==> n == latest(log, e.run_id) + 1,
        outcome(log, e) matches Ok(AppendOutcome::Duplicate) ==> exists|i: int|
            0 <= i < log.len() && has_key(#[trigger] log[i], e) && log[i].event_id == e.event_id
                && log[i].event_type == e.event_type && log[i].schema_version == e.schema_version
                && log[i].cycle_id == e.cycle_id && log[i].symbol == e.symbol && log[i].event_time
                == e.event_time && log[i].correlation_id == e.correlation_id
                && log[i].config_version == e.config_version,
{
    let q = with_key(e.run_id, e.idempotency_key);
    lemma_last_before(log, q, log.len());
    assert forall|i: int| 0 <= i < log.len() implies (has_key(#[trigger] log[i], e) <==> fits(
        log[i],
        q,
    )) by {}
    assert forall|i: int| 0 <= i < log.len() implies ((#[trigger] log[i]).event_id == e.event_id
        <==> fits(log[i], crate::journal::append::with_id(e.event_id))) by {}
    match crate::journal::query::last_before(log, q, log.len()) {
        Some(i) => {
            assert(has_key(log[i], e));
        },
        None => {
            if some_row(log, crate::journal::append::with_id(e.event_id)) {
                let i = choose|i: int|
                    0 <= i < log.len() && fits(
                        #[trigger] log[i],
                        crate::journal::append::with_id(e.event_id),
                    );
                assert(log[i].event_id == e.event_id);
            }
        },
    }
}

/// The rows that a query looks for are exactly those that fit it, in their order.
pub proof fn law_queries_find_what_fits(log: Log, q: QueryView, n: nat, e: EventEnvelopeView)
    requires
        n <= log.len(),
    ensures
        rows_before(log, q, n).contains(e) <==> fits(e, q) && log.take(n as int).contains(e),
    decreases n,
{
    let taken = log.take(n as int);
    let all = rows_before(log, q, n);
    if n == 0 {
        assert(!all.contains(e));
    } else {
        law_queries_find_what_fits(log, q, (n - 1) as nat, e);
        let fewer = log.take(n - 1);
        let before = rows_before(log, q, (n - 1) as nat);
        assert(taken[n - 1] == log[n - 1]);
        if fewer.contains(e) {
            let i = choose|i: int| 0 <= i < fewer.len() && fewer[i] == e;
            assert(taken[i] == e);
        }
        if taken.contains(e) {
            let i = choose|i: int| 0 <= i < taken.len() && taken[i] == e;
            if i < n - 1 {
                assert(fewer[i] == e);
            }
        }
        if all.len() > before.len() {
            assert(all[before.len() as int] == log[n - 1]);
            if before.contains(e) {
                let i = choose|i: int| 0 <= i < before.len() && before[i] == e;
                assert(all[i] == e);
            }
            if all.contains(e) {
                let i = choose|i: int| 0 <= i < all.len() && all[i] == e;
                if i < before.len() {
                    assert(before[i] == e);
                }
            }
        }
    }
}

/// What is read of a run after a sequence number are exactly its rows with a larger one.
pub proof fn law_rows_after_a_number(
    log: Log,
    run_id: Seq<char>,
    sequence: i64,
    e: EventEnvelopeView,
)
    ensures
        rows_after(log, run_id, sequence).contains(e) <==> log.contains(e) && e.run_id == run_id
            && e.sequence_number > sequence,
{
    law_queries_find_what_fits(
        log,
        crate::journal::rebuild::after(run_id, sequence),
        log.len(),
        e,
    );
    assert(log.take(log.len() as int) =~= log);
}

/// The rows up to a sequence number are those before the first one past it.
pub proof fn law_prefixes_end_at_their_number(events: Log, through: i64, n: nat)
    requires
        n <= events.len(),
    ensures
        ({
            let k = prefix_len(events, through, n);
            &&& n <= k <= events.len()
            &&& forall|i: int| n <= i < k ==> (#[trigger] events[i]).sequence_number <= through
            &&& k < events.len() ==> events[k as int].sequence_number > through
        }),
    decreases events.len() - n,
{
    if n < events.len() && events[n as int].sequence_number <= through {
        law_prefixes_end_at_their_number(events, through, n + 1);
    }
}

/// A rebuild starts from a snapshot of the run that its digest vouches for and that is not
/// past the journal, and no other such snapshot is newer; or it starts from the beginning.
pub proof fn law_rebuilds_start_from_the_newest_snapshot(
    j: crate::journal::query::JournalView,
    rows: Seq<SnapshotRowView>,
    initial: StrategyStateView,
    i: int,
)
    requires
        0 <= i < rows.len(),
        rows[i].run_id == initial.run_id,
        rows[i].state matches Some(s) && s.run_id == initial.run_id,
        rows[i].checksum == crate::digest::text_digest(rows[i].state_json),
        0 <= rows[i].sequence_number <= latest(j.log, initial.run_id),
    ensures
        starting_point(j, rows, initial).last >= rows[i].sequence_number,
        starting_point(j, rows, initial).last <= latest(j.log, initial.run_id),
        starting_point(j, rows, initial).state.run_id == initial.run_id,
{
    crate::journal::snapshots::law_newest_usable_snapshot_is_chosen(
        rows,
        initial.run_id,
        latest(j.log, initial.run_id),
        rows.len(),
        i,
    );
}

/// A configuration fills in what a state does not say, and changes nothing that it says.
pub proof fn law_hydration_only_fills_in(s: StrategyStateView, c: Option<ConfigView>)
    ensures
        ({
            let n = hydrated(s, c);
            &&& s.audited_config is Some ==> n.audited_config == s.audited_config
            &&& s.audited_config is None ==> n.audited_config == c
            &&& s.audited_profit_guard_policy is Some ==> n.audited_profit_guard_policy
                == s.audited_profit_guard_policy
            &&& s.audited_profit_guard_policy is None ==> (c matches Some(x)
                ==> n.audited_profit_guard_policy == Some(policy_of(x)))
            &&& (c matches Some(x) && x.standard_quantity > 0) && s.audited_standard_quantity == 0
                ==> n.audited_standard_quantity == c->0.standard_quantity && n.audited_lot_size
                == c->0.lot_size
            &&& c is None ==> n == s
            &&& n == (StrategyStateView {
                audited_config: n.audited_config,
                audited_profit_guard_policy: n.audited_profit_guard_policy,
                audited_standard_quantity: n.audited_standard_quantity,
                audited_lot_size: n.audited_lot_size,
                ..s
            })
        }),
{
}

/// The first bar that waits is one that was received and not processed, and every bar that
/// was received before it was processed.
pub proof fn law_first_waiting_bar(log: Log, run_id: Seq<char>, from: int)
    requires
        0 <= from <= log.len(),
    ensures
        match first_unprocessed(log, run_id, from) {
            Some(n) => exists|i: int|
                from <= i < log.len() && unprocessed(log, run_id, #[trigger] log[i])
                    && log[i].sequence_number == n && forall|j: int|
                    from <= j < i ==> !unprocessed(log, run_id, #[trigger] log[j]),
            None => forall|i: int|
                from <= i < log.len() ==> !unprocessed(log, run_id, #[trigger] log[i]),
        },
    decreases log.len() - from,
{
    if from < log.len() {
        if unprocessed(log, run_id, log[from]) {
            assert(log[from].sequence_number == first_unprocessed(log, run_id, from)->0);
        } else {
            law_first_waiting_bar(log, run_id, from + 1);
        }
    }
}

/// A bar waits exactly where it was received and no processing of its symbol and time is
/// recorded in its run.
pub proof fn law_waiting_bars(log: Log, run_id: Seq<char>, e: EventEnvelopeView)
    ensures
        unprocessed(log, run_id, e) <==> {
            &&& e.run_id == run_id
            &&& e.event_type == EventType::MarketDataReceived
            &&& forall|i: int|
                0 <= i < log.len() ==> !((#[trigger] log[i]).run_id == run_id && log[i].event_type
                    == EventType::MarketBarProcessed && log[i].symbol == e.symbol
                    && log[i].event_time == e.event_time)
        },
{
    let q = crate::journal::query::at_time(
        run_id,
        EventType::MarketBarProcessed,
        e.symbol,
        e.event_time,
    );
    assert forall|i: int| 0 <= i < log.len() implies (fits(#[trigger] log[i], q) <==> log[i].run_id
        == run_id && log[i].event_type == EventType::MarketBarProcessed && log[i].symbol == e.symbol
        && log[i].event_time == e.event_time) by {}
    if some_row(log, q) {
        let i = choose|i: int| 0 <= i < log.len() && fits(#[trigger] log[i], q);
        assert(log[i].run_id == run_id);
    }
}

/// A touch is granted exactly where one grant and no skip resolve it, and skipped exactly
/// where one skip and no grant do; anything else is an old touch or not in order.
pub proof fn law_touches_are_granted_or_skipped(
    log: Log,
    run_id: Seq<char>,
    touch: EventEnvelopeView,
    through: i64,
)
    ensures
        ({
            let grants = count_before(
                log,
                resolving(run_id, touch, EventType::GridRightGranted, through),
                log.len(),
            );
            let skips = count_before(
                log,
                resolving(run_id, touch, EventType::GridLevelSkipped, through),
                log.len(),
            );
            let r = resolution(log, run_id, touch, through);
            &&& r == Resolution::Granted <==> grants == 1 && skips == 0
            &&& r == Resolution::Skipped <==> grants == 0 && skips == 1
            &&& r == Resolution::LegacyUnbound ==> touch.schema_version < 2
            &&& r == Resolution::InvalidCurrent ==> touch.schema_version >= 2
        }),
{
}

/// What resolves a touch is of its run and of the kind, no later than asked; in the current
/// layout it is of the correlation of the touch, in the first one of its symbol, time and
/// index.
pub proof fn law_what_resolves_a_touch(
    run_id: Seq<char>,
    touch: EventEnvelopeView,
    kind: EventType,
    through: i64,
    e: EventEnvelopeView,
)
    ensures
        fits(e, resolving(run_id, touch, kind, through)) <==> {
            &&& e.run_id == run_id && e.event_type == kind && e.sequence_number <= through
            &&& touch.schema_version >= 2 ==> e.correlation_id == touch.correlation_id
            &&& touch.schema_version < 2 ==> e.symbol == touch.symbol && e.event_time
                == touch.event_time && (crate::journal::query::named_index(touch.payload) matches Some(
                i,
            ) ==> crate::journal::query::named_index(e.payload) == Some(i))
        },
{
}

/// A new command is accepted only where its run has none waiting, is at the version and, if
/// asked, at the sequence that it expects, and plays or not as it asks. It is recorded as
/// waiting, at the next version, and the playback of its run becomes what it says; the
/// playback of other runs stays.
pub proof fn law_accepted_commands(
    inbox: WebInboxView,
    sequence: i64,
    offer: WebCommandOfferView,
    now: Seq<char>,
)
    ensures
        claimed(inbox, sequence, offer, now) matches Ok((n, WebCommandClaimView::Claimed(r))) ==> {
            let (version, active) = crate::journal::inbox::playback(inbox.controls, offer.run_id);
            &&& version == offer.expected_version
            &&& offer.require_exact_sequence ==> sequence == offer.expected_sequence
            &&& offer.require_inactive ==> !active
            &&& offer.require_active ==> active
            &&& forall|i: int|
                0 <= i < inbox.commands.len() ==> !((#[trigger] inbox.commands[i]).run_id
                    == offer.run_id && inbox.commands[i].receipt_state == "PENDING"@)
            &&& r.accepted_version == version + 1 && r.completed_response_json is None
            &&& r.target_processed_bars == offer.target_processed_bars
            &&& n.commands.len() == inbox.commands.len() + 1
            &&& forall|i: int|
                0 <= i < inbox.commands.len() ==> n.commands[i] == (#[trigger] inbox.commands[i])
            &&& n.commands.last().run_id == offer.run_id && n.commands.last().request_id
                == offer.request_id && n.commands.last().receipt_state == "PENDING"@
                && n.commands.last().accepted_version == version + 1
            &&& forall|i: int|
                0 <= i < inbox.controls.len() && (#[trigger] inbox.controls[i]).run_id
                    != offer.run_id ==> n.controls[i] == inbox.controls[i]
            &&& exists|i: int|
                0 <= i < n.controls.len() && #[trigger] n.controls[i] == (ControlRowView {
                    run_id: offer.run_id,
                    command_version: (version + 1) as i64,
                    active: offer.next_active,
                    interval_ms: offer.interval_ms as i64,
                })
        },
{
    if let Ok((n, WebCommandClaimView::Claimed(r))) = claimed(inbox, sequence, offer, now) {
        crate::journal::inbox::lemma_control_at(
            inbox.controls,
            offer.run_id,
            inbox.controls.len(),
        );
        match control_at(inbox.controls, offer.run_id, inbox.controls.len()) {
            Some(i) => {
                assert(n.controls[i].run_id == offer.run_id);
            },
            None => {
                assert(n.controls[inbox.controls.len() as int].run_id == offer.run_id);
            },
        }
    }
}

/// Stopping the playback of a run at a version changes whether it plays, where it is at that
/// version, and nothing else.
pub proof fn law_playback_stops_at_its_version(
    inbox: WebInboxView,
    run_id: Seq<char>,
    version: i64,
    i: int,
)
    requires
        0 <= i < inbox.controls.len(),
    ensures
        ({
            let n = deactivated(inbox, run_id, version);
            &&& n.commands == inbox.commands && n.controls.len() == inbox.controls.len()
            &&& n.controls[i] == inbox.controls[i] || (n.controls[i] == (ControlRowView {
                active: false,
                ..inbox.controls[i]
            }) && inbox.controls[i].run_id == run_id && inbox.controls[i].command_version
                == version)
            &&& control_at(inbox.controls, run_id, inbox.controls.len()) == Some(i)
                && inbox.controls[i].command_version == version ==> !n.controls[i].active
        }),
{
    crate::journal::inbox::lemma_control_at(inbox.controls, run_id, inbox.controls.len());
}

/// A command that is carried out gets its response and is no longer waiting; nothing else of
/// it and no other command changes.
pub proof fn law_completed_commands(
    inbox: WebInboxView,
    run_id: Seq<char>,
    request_id: Seq<char>,
    request_sha256: Seq<char>,
    response: Seq<char>,
    i: int,
)
    requires
        0 <= i < inbox.commands.len(),
    ensures
        completed(inbox, run_id, request_id, request_sha256, response) matches Ok((n, kept)) ==> {
            let o = inbox.commands[i];
            let w = n.commands[i];
            &&& n.controls == inbox.controls && n.commands.len() == inbox.commands.len()
            &&& w == o || (o.run_id == run_id && o.request_id == request_id && o.request_sha256
                == request_sha256 && o.receipt_state == "PENDING"@ && w.receipt_state
                == "COMPLETED"@ && w.response_json == Some(response) && kept == response)
            &&& w.run_id == o.run_id && w.request_id == o.request_id && w.accepted_version
                == o.accepted_version && w.command == o.command
        },
{
    crate::journal::inbox::lemma_command_at(
        inbox.commands,
        run_id,
        request_id,
        inbox.commands.len(),
    );
}

/// The bar of a touch was processed at the first processing of its symbol and time that comes
/// after the touch and no later than asked.
pub proof fn law_touches_are_processed_later(log: Log, touch: EventEnvelopeView, through: i64)
    ensures
        match processed_at(log, touch, through) {
            Some(n) => exists|i: int|
                0 <= i < log.len() && (#[trigger] log[i]).sequence_number == n && log[i].run_id
                    == touch.run_id && log[i].event_type == EventType::MarketBarProcessed
                    && log[i].symbol == touch.symbol && log[i].event_time == touch.event_time
                    && touch.sequence_number < n <= through,
            None => forall|i: int|
                0 <= i < log.len() ==> !((#[trigger] log[i]).run_id == touch.run_id
                    && log[i].event_type == EventType::MarketBarProcessed && log[i].symbol
                    == touch.symbol && log[i].event_time == touch.event_time
                    && touch.sequence_number < log[i].sequence_number <= through),
        },
{
    let q = processing_of(touch, through);
    crate::journal::query::lemma_first_from(log, q, 0);
    match crate::journal::query::first_from(log, q, 0) {
        Some(i) => {
            assert(log[i].sequence_number == processed_at(log, touch, through)->0);
        },
        None => {
            assert forall|i: int| 0 <= i < log.len() implies !((#[trigger] log[i]).run_id
                == touch.run_id && log[i].event_type == EventType::MarketBarProcessed
                && log[i].symbol == touch.symbol && log[i].event_time == touch.event_time
                && touch.sequence_number < log[i].sequence_number <= through) by {
                assert(!fits(log[i], q));
            }
        },
    }
}

/// What belongs to a touch is of its run and no later than asked: in the current layout what
/// has its correlation, in the first one the touch and all that follows it.
pub proof fn law_what_belongs_to_a_touch(
    run_id: Seq<char>,
    touch: EventEnvelopeView,
    through: i64,
    e: EventEnvelopeView,
)
    requires
        touch.sequence_number > i64::MIN,
    ensures
        fits(e, belonging(run_id, touch, through)) <==> {
            &&& e.run_id == run_id && e.sequence_number <= through
            &&& touch.schema_version >= 2 ==> e.correlation_id == touch.correlation_id
            &&& touch.schema_version < 2 ==> e.sequence_number >= touch.sequence_number
        },
{
}

} // verus!

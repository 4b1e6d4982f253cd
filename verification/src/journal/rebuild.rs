//! The state that follows from the journal.
use crate::account::settled_lots;
use crate::audit::{first_violation, InvariantViolation};
use crate::config::{snapshot_fault, ConfigError};
use crate::event::kinds::EventType;
use crate::event::payload::{EventEnvelope, EventEnvelopeView, Payload, PayloadView};
use crate::event::reduce::{applied, EventError};
use crate::journal::query::{
    at_time, first_from, first_rows, fits, in_run, latest, of_kind, of_run,
    of_type, repeats_of, rows_before, some_row, Journal, JournalView, Log, QueryView,
};
use crate::journal::snapshots::{best_snapshot, SnapshotRow, SnapshotRowView};
use crate::model::ledger::{ProfitGuardPolicy, StrategyState, StrategyStateView};
use crate::model::notices::{Appraisal, AppraisalView};
use crate::model::settings::{Config, ConfigView};
use crate::policy::policy_of;
use crate::value::Value;
use vstd::prelude::*;

verus! {

/// Why a state cannot be rebuilt.
#[derive(Clone, Copy, Debug, PartialEq, Eq, Structural)]
pub enum RebuildError {
    /// A sequence number is missing.
    Gap,
    /// The appraisal of an event is missing.
    Unappraised,
    /// An event does not follow.
    Event(EventError),
    /// The recorded configuration cannot be read.
    Unreadable,
    /// The recorded configuration is not in order.
    Config(ConfigError),
    /// A number leaves its range.
    NumericRange,
    /// The rebuilt state is not in order.
    Invariant(InvariantViolation),
    /// The journal does not reach the sequence number.
    Short,
    /// The sequence number is negative.
    Negative,
}

/// A state and the sequence number of the last event that it follows from.
pub struct Rebuilt {
    pub state: StrategyStateView,
    pub last: i64,
}

/// The state after one more event.
pub open spec fn replayed_one(b: Rebuilt, e: EventEnvelopeView, a: AppraisalView) -> Result<
    Rebuilt,
    RebuildError,
> {
    if e.sequence_number != b.last + 1 {
        Err(RebuildError::Gap)
    } else {
        match applied(b.state, e, a) {
            Err(x) => Err(RebuildError::Event(x)),
            Ok(state) => Ok(Rebuilt { state, last: e.sequence_number }),
        }
    }
}

/// The state after the first `n` events, each with its appraisal.
pub open spec fn replayed(
    b: Rebuilt,
    events: Log,
    appraisals: Seq<AppraisalView>,
    n: nat,
) -> Result<Rebuilt, RebuildError>
    decreases n,
{
    if n == 0 {
        Ok(b)
    } else {
        match replayed(b, events, appraisals, (n - 1) as nat) {
            Err(e) => Err(e),
            Ok(x) => if n > appraisals.len() {
                Err(RebuildError::Unappraised)
            } else {
                replayed_one(x, events[n - 1], appraisals[n - 1])
            },
        }
    }
}

/// Whether a state lacks part of its audited configuration.
pub open spec fn lacks_audit(s: StrategyStateView) -> bool {
    s.audited_config is None || s.audited_profit_guard_policy is None
        || s.audited_standard_quantity == 0
}

/// The configuration that the journal of a run records first.
pub open spec fn recorded_config(log: Log, run_id: Seq<char>) -> Result<
    Option<ConfigView>,
    RebuildError,
> {
    match first_from(log, of_kind(run_id, EventType::ConfigSnapshotted), 0) {
        None => Ok(None),
        Some(i) => match log[i].payload {
            PayloadView::Snapshot(p) => match snapshot_fault(p) {
                Some(e) => Err(RebuildError::Config(e)),
                None => Ok(Some(p.config)),
            },
            _ => Err(RebuildError::Unreadable),
        },
    }
}

/// The state with what a configuration says where the state does not say it.
pub open spec fn hydrated(s: StrategyStateView, c: Option<ConfigView>) -> StrategyStateView {
    let config = if s.audited_config is None {
        c
    } else {
        s.audited_config
    };
    let fixed = c matches Some(x) && x.standard_quantity > 0 && (
    s.audited_profit_guard_policy is None || s.audited_standard_quantity == 0);
    StrategyStateView {
        audited_config: config,
        audited_profit_guard_policy: if s.audited_profit_guard_policy is None && c is Some {
            Some(policy_of(c->0))
        } else {
            s.audited_profit_guard_policy
        },
        audited_standard_quantity: if fixed {
            c->0.standard_quantity
        } else {
            s.audited_standard_quantity
        },
        audited_lot_size: if fixed {
            c->0.lot_size
        } else {
            s.audited_lot_size
        },
        ..s
    }
}

/// The state with what older records leave to be derived.
pub open spec fn normalized_for(log: Log, s: StrategyStateView, run_id: Seq<char>) -> Result<
    StrategyStateView,
    RebuildError,
> {
    match settled_lots(s.lots, s.lots.len()) {
        None => Err(RebuildError::NumericRange),
        Some(lots) => {
            let settled = StrategyStateView {
                grid_cycle_active: s.grid_cycle_active || s.levels.len() > 0,
                lots,
                ..s
            };
            if lacks_audit(settled) {
                match recorded_config(log, run_id) {
                    Err(e) => Err(e),
                    Ok(c) => Ok(hydrated(settled, c)),
                }
            } else {
                Ok(settled)
            }
        },
    }
}

/// The rebuilt state, completed and checked.
pub open spec fn completed(j: JournalView, b: Rebuilt, run_id: Seq<char>) -> Result<
    Rebuilt,
    RebuildError,
> {
    match normalized_for(j.log, b.state, run_id) {
        Err(e) => Err(e),
        Ok(s) => {
            let counted = StrategyStateView {
                duplicate_events: repeats_of(j.repeats, run_id, j.repeats.len()) as u64,
                ..s
            };
            match first_violation(counted) {
                Some(v) => Err(RebuildError::Invariant(v)),
                None => Ok(Rebuilt { state: counted, last: b.last }),
            }
        },
    }
}

/// A query for the rows of a run after a sequence number.
pub open spec fn after(run_id: Seq<char>, sequence: i64) -> QueryView {
    QueryView { after: Some(sequence), ..of_run(run_id) }
}

/// The rows of a run after a sequence number.
pub open spec fn rows_after(log: Log, run_id: Seq<char>, sequence: i64) -> Log {
    rows_before(log, after(run_id, sequence), log.len())
}

/// The state that follows from all rows of a run.
pub open spec fn rebuilt_full(
    j: JournalView,
    initial: StrategyStateView,
    appraisals: Seq<AppraisalView>,
) -> Result<Rebuilt, RebuildError> {
    let events = rows_after(j.log, initial.run_id, 0);
    match replayed(Rebuilt { state: initial, last: 0 }, events, appraisals, events.len()) {
        Err(e) => Err(e),
        Ok(b) => completed(j, b, initial.run_id),
    }
}

/// How many rows come before the first one past a sequence number.
pub open spec fn prefix_len(events: Log, through: i64, n: nat) -> nat
    decreases events.len() - n,
{
    if n >= events.len() || events[n as int].sequence_number > through {
        n
    } else {
        prefix_len(events, through, n + 1)
    }
}

/// The state that follows from the rows of a run up to a sequence number.
pub open spec fn rebuilt_through(
    j: JournalView,
    initial: StrategyStateView,
    appraisals: Seq<AppraisalView>,
    through: i64,
) -> Result<Rebuilt, RebuildError> {
    let events = rows_after(j.log, initial.run_id, 0);
    if through < 0 {
        Err(RebuildError::Negative)
    } else {
        match replayed(
            Rebuilt { state: initial, last: 0 },
            events,
            appraisals,
            prefix_len(events, through, 0),
        ) {
            Err(e) => Err(e),
            Ok(b) => if b.last != through {
                Err(RebuildError::Short)
            } else {
                completed(j, b, initial.run_id)
            },
        }
    }
}

/// Where a rebuild starts: at the newest usable snapshot, or at the beginning.
pub open spec fn starting_point(
    j: JournalView,
    rows: Seq<SnapshotRowView>,
    initial: StrategyStateView,
) -> Rebuilt {
    match best_snapshot(
        rows,
        initial.run_id,
        latest(j.log, initial.run_id),
        rows.len(),
    ) {
        Some(i) => Rebuilt { state: rows[i].state->0, last: rows[i].sequence_number },
        None => Rebuilt { state: initial, last: 0 },
    }
}

/// The state that follows from the newest usable snapshot and the rows after it.
pub open spec fn rebuilt(
    j: JournalView,
    rows: Seq<SnapshotRowView>,
    initial: StrategyStateView,
    appraisals: Seq<AppraisalView>,
) -> Result<Rebuilt, RebuildError> {
    let start = starting_point(j, rows, initial);
    match normalized_for(j.log, start.state, initial.run_id) {
        Err(e) => Err(e),
        Ok(state) => {
            let events = rows_after(j.log, initial.run_id, start.last);
            match replayed(
                Rebuilt { state, last: start.last },
                events,
                appraisals,
                events.len(),
            ) {
                Err(e) => Err(e),
                Ok(b) => completed(j, b, initial.run_id),
            }
        },
    }
}

/// Whether a row is a bar whose processing has not been recorded.
pub open spec fn unprocessed(log: Log, run_id: Seq<char>, e: EventEnvelopeView) -> bool {
    fits(e, of_kind(run_id, EventType::MarketDataReceived)) && !some_row(
        log,
        at_time(run_id, EventType::MarketBarProcessed, e.symbol, e.event_time),
    )
}

/// The sequence number of the first bar from a row on whose processing has not
/// been recorded.
pub open spec fn first_unprocessed(log: Log, run_id: Seq<char>, from: int) -> Option<i64>
    decreases log.len() - from,
{
    if from < 0 || from >= log.len() {
        None
    } else if unprocessed(log, run_id, log[from]) {
        Some(log[from].sequence_number)
    } else {
        first_unprocessed(log, run_id, from + 1)
    }
}

proof fn lemma_replayed_stops(
    b: Rebuilt,
    events: Log,
    appraisals: Seq<AppraisalView>,
    n: nat,
    m: nat,
)
    requires
        n <= m,
        replayed(b, events, appraisals, n) is Err,
    ensures
        replayed(b, events, appraisals, m) == replayed(b, events, appraisals, n),
    decreases m - n,
{
    if n < m {
        lemma_replayed_stops(b, events, appraisals, n, (m - 1) as nat);
    }
}

impl StrategyState {
    /// Applies the next event of a replay.
    pub fn replay(&mut self, last: &mut i64, event: &EventEnvelope, appraisal: &Appraisal) -> (r:
        Result<(), RebuildError>)
        ensures
            match replayed_one(
                Rebuilt { state: old(self)@, last: *old(last) },
                event@,
                appraisal@,
            ) {
                Ok(b) => r is Ok && final(self)@ == b.state && *final(last) == b.last,
                Err(e) => r == Err::<(), RebuildError>(e) && *final(self) == *old(self)
                    && *final(last) == *old(last),
            },
    {
        let follows = match last.checked_add(1) {
            Some(n) => event.sequence_number == n,
            None => false,
        };
        if !follows {
            return Err(RebuildError::Gap);
        }
        match self.apply_event(event, appraisal) {
            Ok(_) => {
                *last = event.sequence_number;
                Ok(())
            },
            Err(e) => Err(RebuildError::Event(e)),
        }
    }

    fn hydrate(&mut self, config: Option<Config>)
        ensures
            final(self)@ == hydrated(old(self)@, match config {
                Some(c) => Some(c@),
                None => None,
            }),
    {
        if let Some(c) = config {
            if self.audited_profit_guard_policy.is_none() || self.audited_standard_quantity == 0 {
                if c.uses_fixed_quantity() {
                    self.audited_standard_quantity = c.standard_quantity;
                    self.audited_lot_size = c.lot_size;
                }
            }
            if self.audited_profit_guard_policy.is_none() {
                self.audited_profit_guard_policy = Some(ProfitGuardPolicy::from(&c));
            }
            if self.audited_config.is_none() {
                self.audited_config = Some(c);
            }
        }
    }
}

impl Journal {
    fn config_of(&self, run_id: &str) -> (r: Result<Option<Config>, RebuildError>)
        ensures
            match recorded_config(self@.log, run_id@) {
                Err(e) => r matches Err(x) && x == e,
                Ok(c) => r matches Ok(x) && match c {
                    Some(v) => x matches Some(y) && y@ == v,
                    None => x is None,
                },
            },
    {
        match self.first_payload_by_type(run_id, EventType::ConfigSnapshotted) {
            None => Ok(None),
            Some(Payload::Snapshot(p)) => match Config::from_snapshot_payload(p) {
                Ok(c) => Ok(Some(c)),
                Err(e) => Err(RebuildError::Config(e)),
            },
            Some(_) => Err(RebuildError::Unreadable),
        }
    }

    /// Fills in what older records leave to be derived, from the configuration
    /// that the journal records.
    pub fn normalize_state_for_run(&self, state: &mut StrategyState, run_id: &str) -> (r: Result<
        (),
        RebuildError,
    >)
        ensures
            match normalized_for(self@.log, old(state)@, run_id@) {
                Ok(s) => r is Ok && final(state)@ == s,
                Err(e) => r matches Err(x) && x == e,
            },
    {
        if !state.checked_normalize() {
            return Err(RebuildError::NumericRange);
        }
        if state.audited_config.is_none() || state.audited_profit_guard_policy.is_none()
            || state.audited_standard_quantity == 0 {
            match self.config_of(run_id) {
                Err(e) => {
                    return Err(e);
                },
                Ok(c) => {
                    state.hydrate(c);
                },
            }
        }
        Ok(())
    }

    fn complete(&self, state: &mut StrategyState, run_id: &str) -> (r: Result<(), RebuildError>)
        ensures
            forall|last: i64|
                match #[trigger] completed(self@, Rebuilt { state: old(state)@, last }, run_id@) {
                    Ok(b) => r is Ok && final(state)@ == b.state && b.last == last,
                    Err(e) => r matches Err(x) && x == e,
                },
    {
        match self.normalize_state_for_run(state, run_id) {
            Err(e) => {
                return Err(e);
            },
            Ok(_) => {},
        }
        state.duplicate_events = self.duplicate_count(run_id);
        match state.validate_invariants() {
            Err(v) => Err(RebuildError::Invariant(v)),
            Ok(_) => Ok(()),
        }
    }

    /// At most `limit` rows of a run after a sequence number.
    pub fn load_after_limited(&self, run_id: &str, sequence: i64, limit: usize) -> (r: Vec<
        EventEnvelope,
    >)
        ensures
            r.deep_view() == first_rows(rows_after(self@.log, run_id@, sequence), limit as nat),
    {
        let mut q = in_run(run_id);
        q.after = Some(sequence);
        let mut rows = self.rows_for(&q);
        let ghost all = rows.deep_view();
        if rows.len() > limit {
            rows.truncate(limit);
            assert(rows.deep_view() =~= all.subrange(0, limit as int));
        }
        rows
    }

    fn replay_rows(
        &self,
        state: &mut StrategyState,
        last: &mut i64,
        events: &Vec<EventEnvelope>,
        appraisals: &Vec<Appraisal>,
        n: usize,
    ) -> (r: Result<(), RebuildError>)
        requires
            n <= events.len(),
        ensures
            match replayed(
                Rebuilt { state: old(state)@, last: *old(last) },
                events.deep_view(),
                appraisals.deep_view(),
                n as nat,
            ) {
                Ok(b) => r is Ok && final(state)@ == b.state && *final(last) == b.last,
                Err(e) => r matches Err(x) && x == e,
            },
    {
        let ghost start = Rebuilt { state: state@, last: *last };
        let ghost all = events.deep_view();
        let ghost said = appraisals.deep_view();
        let mut i: usize = 0;
        while i < n
            invariant
                i <= n <= events.len(),
                all == events.deep_view(),
                said == appraisals.deep_view(),
                start == (Rebuilt { state: old(state)@, last: *old(last) }),
                replayed(start, all, said, i as nat) == Ok::<Rebuilt, RebuildError>(
                    Rebuilt { state: state@, last: *last },
                ),
            decreases n - i,
        {
            if i >= appraisals.len() {
                proof {
                    lemma_replayed_stops(start, all, said, (i + 1) as nat, n as nat);
                }
                return Err(RebuildError::Unappraised);
            }
            assert(all[i as int] == events[i as int]@);
            assert(said[i as int] == appraisals[i as int]@);
            match state.replay(last, &events[i], &appraisals[i]) {
                Ok(_) => {},
                Err(e) => {
                    proof {
                        lemma_replayed_stops(start, all, said, (i + 1) as nat, n as nat);
                    }
                    return Err(e);
                },
            }
            i = i + 1;
        }
        Ok(())
    }

    /// The state that follows from all rows of the run of a state.
    pub fn rebuild_full(&self, initial: StrategyState, appraisals: &Vec<Appraisal>) -> (r: Result<
        (StrategyState, i64),
        RebuildError,
    >)
        ensures
            match rebuilt_full(self@, initial@, appraisals.deep_view()) {
                Ok(b) => r matches Ok(x) && x.0@ == b.state && x.1 == b.last,
                Err(e) => r matches Err(x) && x == e,
            },
    {
        let run_id = initial.run_id.dup();
        let mut state = initial;
        let mut last: i64 = 0;
        let events = self.load_after(run_id.as_str(), 0);
        let n: usize = events.len();
        match self.replay_rows(&mut state, &mut last, &events, appraisals, n) {
            Err(e) => {
                return Err(e);
            },
            Ok(_) => {},
        }
        let ghost b = Rebuilt { state: state@, last };
        match self.complete(&mut state, run_id.as_str()) {
            Err(e) => {
                assert(completed(self@, b, run_id@) is Err);
                Err(e)
            },
            Ok(_) => {
                assert(completed(self@, b, run_id@) is Ok);
                Ok((state, last))
            },
        }
    }

    /// The state that follows from the rows of the run of a state up to a
    /// sequence number.
    pub fn rebuild_through_sequence(
        &self,
        initial: StrategyState,
        appraisals: &Vec<Appraisal>,
        through_sequence: i64,
    ) -> (r: Result<(StrategyState, i64), RebuildError>)
        ensures
            match rebuilt_through(self@, initial@, appraisals.deep_view(), through_sequence) {
                Ok(b) => r matches Ok(x) && x.0@ == b.state && x.1 == b.last,
                Err(e) => r matches Err(x) && x == e,
            },
    {
        if through_sequence < 0 {
            return Err(RebuildError::Negative);
        }
        let run_id = initial.run_id.dup();
        let mut state = initial;
        let mut last: i64 = 0;
        let events = self.load_after(run_id.as_str(), 0);
        let ghost all = events.deep_view();
        let mut n: usize = 0;
        while n < events.len() && events[n].sequence_number <= through_sequence
            invariant
                n <= events.len(),
                all == events.deep_view(),
                prefix_len(all, through_sequence, 0) == prefix_len(
                    all,
                    through_sequence,
                    n as nat,
                ),
            decreases events.len() - n,
        {
            assert(all[n as int] == events[n as int]@);
            n = n + 1;
        }
        proof {
            if n < events.len() {
                assert(all[n as int] == events[n as int]@);
            }
        }
        match self.replay_rows(&mut state, &mut last, &events, appraisals, n) {
            Err(e) => {
                return Err(e);
            },
            Ok(_) => {},
        }
        if last != through_sequence {
            return Err(RebuildError::Short);
        }
        let ghost b = Rebuilt { state: state@, last };
        match self.complete(&mut state, run_id.as_str()) {
            Err(e) => {
                assert(completed(self@, b, run_id@) is Err);
                Err(e)
            },
            Ok(_) => {
                assert(completed(self@, b, run_id@) is Ok);
                Ok((state, last))
            },
        }
    }

    /// The sequence number of the first bar whose processing has not been
    /// recorded.
    pub fn first_incomplete_market_sequence(&self, run_id: &str) -> (r: Option<i64>)
        ensures
            r == first_unprocessed(self@.log, run_id@, 0),
    {
        let mut i: usize = 0;
        while i < self.len()
            invariant
                i <= self@.log.len(),
                first_unprocessed(self@.log, run_id@, 0) == first_unprocessed(
                    self@.log,
                    run_id@,
                    i as int,
                ),
            decreases self@.log.len() - i,
        {
            let row = self.row(i);
            if row.is_wanted(&of_type(run_id, EventType::MarketDataReceived))
                && !self.has_market_stage(
                run_id,
                EventType::MarketBarProcessed,
                row.symbol.as_str(),
                row.event_time,
            ) {
                return Some(row.sequence_number);
            }
            i = i + 1;
        }
        None
    }
}

/// What reads events.
pub trait EventReader {
    /// What is read.
    spec fn content(&self) -> JournalView;

    /// The rows of a run after a sequence number.
    fn load_after(&self, run_id: &str, sequence: i64) -> (r: Vec<EventEnvelope>)
        ensures
            r.deep_view() == rows_after(self.content().log, run_id@, sequence),
    ;
}

/// What rebuilds states.
pub trait StateReader: EventReader {
    /// The state that follows from the newest usable snapshot and the rows after
    /// it.
    fn rebuild(
        &self,
        snapshots: &Vec<SnapshotRow>,
        initial: StrategyState,
        appraisals: &Vec<Appraisal>,
    ) -> (r: Result<(StrategyState, i64), RebuildError>)
        ensures
            match rebuilt(
                self.content(),
                snapshots.deep_view(),
                initial@,
                appraisals.deep_view(),
            ) {
                Ok(b) => r matches Ok(x) && x.0@ == b.state && x.1 == b.last,
                Err(e) => r matches Err(x) && x == e,
            },
    ;
}

impl EventReader for Journal {
    open spec fn content(&self) -> JournalView {
        self@
    }

    fn load_after(&self, run_id: &str, sequence: i64) -> (r: Vec<EventEnvelope>) {
        let mut q = in_run(run_id);
        q.after = Some(sequence);
        self.rows_for(&q)
    }
}

impl StateReader for Journal {
    fn rebuild(
        &self,
        snapshots: &Vec<SnapshotRow>,
        initial: StrategyState,
        appraisals: &Vec<Appraisal>,
    ) -> (r: Result<(StrategyState, i64), RebuildError>) {
        let run_id = initial.run_id.dup();
        let ghost rows = snapshots.deep_view();
        let (best, _) = self.latest_snapshot(snapshots, run_id.as_str());
        let mut last: i64 = 0;
        let mut state = match best {
            Some(i) => {
                assert(rows[i as int] == snapshots[i as int].deep_view());
                last = snapshots[i].sequence_number;
                match &snapshots[i].state {
                    Some(s) => s.dup(),
                    None => initial,
                }
            },
            None => initial,
        };
        assert(starting_point(self@, rows, initial@) == Rebuilt { state: state@, last });
        match self.normalize_state_for_run(&mut state, run_id.as_str()) {
            Err(e) => {
                return Err(e);
            },
            Ok(_) => {},
        }
        let events = self.load_after(run_id.as_str(), last);
        let n: usize = events.len();
        match self.replay_rows(&mut state, &mut last, &events, appraisals, n) {
            Err(e) => {
                return Err(e);
            },
            Ok(_) => {},
        }
        let ghost b = Rebuilt { state: state@, last };
        match self.complete(&mut state, run_id.as_str()) {
            Err(e) => {
                assert(completed(self@, b, run_id@) is Err);
                Err(e)
            },
            Ok(_) => {
                assert(completed(self@, b, run_id@) is Ok);
                Ok((state, last))
            },
        }
    }
}

/// A replay can stop at any event and go on from the state that it reached.
pub proof fn law_replays_compose(
    b: Rebuilt,
    events: Log,
    appraisals: Seq<AppraisalView>,
    n: nat,
    m: nat,
)
    requires
        n <= m <= events.len(),
        events.len() <= appraisals.len(),
    ensures
        match replayed(b, events, appraisals, n) {
            Ok(x) => replayed(b, events, appraisals, m) == replayed(
                x,
                events.skip(n as int),
                appraisals.skip(n as int),
                (m - n) as nat,
            ),
            Err(_) => replayed(b, events, appraisals, m) is Err,
        },
    decreases m,
{
    if n < m {
        law_replays_compose(b, events, appraisals, n, (m - 1) as nat);
        assert(events.skip(n as int)[m - n - 1] == events[m - 1]);
        assert(appraisals.skip(n as int)[m - n - 1] == appraisals[m - 1]);
    }
}

/// A replay without gaps ends at the sequence number that the number of events
/// gives.
pub proof fn law_replays_count_events(
    b: Rebuilt,
    events: Log,
    appraisals: Seq<AppraisalView>,
    n: nat,
)
    requires
        n <= events.len(),
    ensures
        replayed(b, events, appraisals, n) matches Ok(x) ==> x.last == b.last + n,
    decreases n,
{
    if n > 0 {
        law_replays_count_events(b, events, appraisals, (n - 1) as nat);
    }
}

} // verus!

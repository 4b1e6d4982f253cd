//! Touches of grid levels and what became of them.
use crate::event::kinds::EventType;
use crate::event::payload::{EventEnvelope, EventEnvelopeView};
use crate::journal::query::{
    at_moment, at_time, count_before, first_from, fits, in_run, named_index, of_kind, of_run,
    of_type, rows_before, Journal, Log, QueryView,
};
use crate::value::Value;
use vstd::prelude::*;

verus! {

/// A query for the processing of the bar of a touch, after it and up to a
/// sequence number.
pub open spec fn processing_of(touch: EventEnvelopeView, through: i64) -> QueryView {
    QueryView {
        after: Some(touch.sequence_number),
        through: Some(through),
        ..at_time(
            touch.run_id,
            EventType::MarketBarProcessed,
            touch.symbol,
            touch.event_time,
        )
    }
}

/// The sequence number at which the bar of a touch was processed.
pub open spec fn processed_at(log: Log, touch: EventEnvelopeView, through: i64) -> Option<i64> {
    match first_from(log, processing_of(touch, through), 0) {
        Some(i) => Some(log[i].sequence_number),
        None => None,
    }
}

/// A query for the touches of a run between two sequence numbers.
pub open spec fn touches_between(run_id: Seq<char>, after: i64, through: i64) -> QueryView {
    QueryView {
        after: Some(after),
        through: Some(through),
        ..of_kind(run_id, EventType::GridLevelTouched)
    }
}

/// The touches among the first `n` rows whose bars were processed, each with the
/// sequence number of that.
pub open spec fn anchors(
    log: Log,
    run_id: Seq<char>,
    after: i64,
    through: i64,
    n: nat,
) -> Seq<(EventEnvelopeView, i64)>
    decreases n,
{
    if n == 0 {
        Seq::empty()
    } else {
        let before = anchors(log, run_id, after, through, (n - 1) as nat);
        let e = log[n - 1];
        if fits(e, touches_between(run_id, after, through)) && processed_at(log, e, through) is Some {
            before.push((e, processed_at(log, e, through)->0))
        } else {
            before
        }
    }
}

/// The content of a list of anchors.
pub open spec fn anchor_list(v: Seq<(EventEnvelope, i64)>) -> Seq<(EventEnvelopeView, i64)> {
    Seq::new(v.len(), |i: int| (v[i].0@, v[i].1))
}

/// The first `limit` of the anchors.
pub open spec fn first_anchors(all: Seq<(EventEnvelopeView, i64)>, limit: nat) -> Seq<
    (EventEnvelopeView, i64),
> {
    if all.len() <= limit {
        all
    } else {
        all.subrange(0, limit as int)
    }
}

/// A query for the rows that belong to a touch, up to a sequence number: those
/// of its correlation, or in the first layout all that follow it.
pub open spec fn belonging(run_id: Seq<char>, touch: EventEnvelopeView, through: i64) -> QueryView {
    if touch.schema_version >= 2 {
        QueryView {
            correlation: Some(touch.correlation_id),
            through: Some(through),
            ..of_run(run_id)
        }
    } else {
        QueryView {
            after: touch.sequence_number.checked_sub(1),
            through: Some(through),
            ..of_run(run_id)
        }
    }
}

/// A query for what resolves a touch, of a kind and up to a sequence number.
pub open spec fn resolving(
    run_id: Seq<char>,
    touch: EventEnvelopeView,
    kind: EventType,
    through: i64,
) -> QueryView {
    if touch.schema_version >= 2 {
        QueryView {
            correlation: Some(touch.correlation_id),
            through: Some(through),
            ..of_kind(run_id, kind)
        }
    } else {
        QueryView {
            symbol: Some(touch.symbol),
            time: Some(touch.event_time),
            index: named_index(touch.payload),
            through: Some(through),
            ..of_kind(run_id, kind)
        }
    }
}

/// How the touches of a run were resolved.
#[derive(Clone, Copy, Debug, PartialEq, Eq, Structural)]
pub struct OpportunityCounts {
    pub touches: usize,
    pub granted: usize,
    pub skipped: usize,
    pub legacy_unbound: usize,
    pub invalid_current: usize,
}

/// How a touch was resolved.
pub enum Resolution {
    Granted,
    Skipped,
    LegacyUnbound,
    InvalidCurrent,
}

/// How a touch was resolved: by one grant, by one skip, or not as it should.
pub open spec fn resolution(log: Log, run_id: Seq<char>, touch: EventEnvelopeView, through: i64) -> Resolution {
    let grants = count_before(
        log,
        resolving(run_id, touch, EventType::GridRightGranted, through),
        log.len(),
    );
    let skips = count_before(
        log,
        resolving(run_id, touch, EventType::GridLevelSkipped, through),
        log.len(),
    );
    if grants == 1 && skips == 0 {
        Resolution::Granted
    } else if grants == 0 && skips == 1 {
        Resolution::Skipped
    } else if touch.schema_version < 2 {
        Resolution::LegacyUnbound
    } else {
        Resolution::InvalidCurrent
    }
}

/// Whether a row is a touch whose bar was processed.
pub open spec fn completed_touch(
    log: Log,
    run_id: Seq<char>,
    e: EventEnvelopeView,
    through: i64,
) -> bool {
    fits(e, (QueryView { through: Some(through), ..of_kind(run_id, EventType::GridLevelTouched) }))
        && processed_at(log, e, through) is Some
}

/// Whether a row resolves a touch.
pub open spec fn resolves(run_id: Seq<char>, e: EventEnvelopeView, through: i64) -> bool {
    fits(e, (QueryView { through: Some(through), ..of_kind(run_id, EventType::GridRightGranted) }))
        || fits(
        e,
        (QueryView { through: Some(through), ..of_kind(run_id, EventType::GridLevelSkipped) }),
    )
}

/// Whether every row that is counted names its grid index.
pub open spec fn indices_named(log: Log, run_id: Seq<char>, through: i64) -> bool {
    forall|i: int|
        0 <= i < log.len() ==> ((completed_touch(log, run_id, #[trigger] log[i], through)
            || resolves(run_id, log[i], through)) ==> named_index(log[i].payload) is Some)
}

/// How the touches among the first `n` rows were resolved.
pub open spec fn counted(log: Log, run_id: Seq<char>, through: i64, n: nat) -> OpportunityCounts
    decreases n,
{
    if n == 0 {
        OpportunityCounts {
            touches: 0,
            granted: 0,
            skipped: 0,
            legacy_unbound: 0,
            invalid_current: 0,
        }
    } else {
        let before = counted(log, run_id, through, (n - 1) as nat);
        let e = log[n - 1];
        if !completed_touch(log, run_id, e, through) {
            before
        } else {
            let c = OpportunityCounts { touches: (before.touches + 1) as usize, ..before };
            match resolution(log, run_id, e, through) {
                Resolution::Granted => OpportunityCounts { granted: (c.granted + 1) as usize, ..c },
                Resolution::Skipped => OpportunityCounts { skipped: (c.skipped + 1) as usize, ..c },
                Resolution::LegacyUnbound => OpportunityCounts {
                    legacy_unbound: (c.legacy_unbound + 1) as usize,
                    ..c
                },
                Resolution::InvalidCurrent => OpportunityCounts {
                    invalid_current: (c.invalid_current + 1) as usize,
                    ..c
                },
            }
        }
    }
}

proof fn lemma_counted_bound(log: Log, run_id: Seq<char>, through: i64, n: nat)
    requires
        n <= usize::MAX,
    ensures
        ({
            let c = counted(log, run_id, through, n);
            &&& c.touches <= n
            &&& c.granted + c.skipped + c.legacy_unbound + c.invalid_current == c.touches
        }),
    decreases n,
{
    if n > 0 {
        lemma_counted_bound(log, run_id, through, (n - 1) as nat);
    }
}

impl Journal {
    fn processing(&self, touch: &EventEnvelope, through: i64) -> (r: Option<i64>)
        ensures
            r == processed_at(self@.log, touch@, through),
    {
        let mut q = at_moment(
            touch.run_id.as_str(),
            EventType::MarketBarProcessed,
            touch.symbol.as_str(),
            touch.event_time,
        );
        q.after = Some(touch.sequence_number);
        q.through = Some(through);
        match self.first_row(&q, 0) {
            Some(i) => Some(self.row(i).sequence_number),
            None => None,
        }
    }

    /// The touches of a run between two sequence numbers whose bars were
    /// processed, each with the sequence number of that, at most `limit`.
    pub fn completed_opportunity_anchors(
        &self,
        run_id: &str,
        after_touch_sequence: i64,
        through_sequence: i64,
        limit: usize,
    ) -> (r: Vec<(EventEnvelope, i64)>)
        ensures
            anchor_list(r@) == first_anchors(
                anchors(
                    self@.log,
                    run_id@,
                    after_touch_sequence,
                    through_sequence,
                    self@.log.len(),
                ),
                limit as nat,
            ),
    {
        let mut q = of_type(run_id, EventType::GridLevelTouched);
        q.after = Some(after_touch_sequence);
        q.through = Some(through_sequence);
        let mut out: Vec<(EventEnvelope, i64)> = Vec::new();
        assert(anchor_list(out@) =~= Seq::<(EventEnvelopeView, i64)>::empty());
        let mut i: usize = 0;
        while i < self.len()
            invariant
                i <= self@.log.len(),
                q@ == touches_between(run_id@, after_touch_sequence, through_sequence),
                anchor_list(out@) == anchors(
                    self@.log,
                    run_id@,
                    after_touch_sequence,
                    through_sequence,
                    i as nat,
                ),
            decreases self@.log.len() - i,
        {
            let row = self.row(i);
            if row.is_wanted(&q) {
                if let Some(at) = self.processing(row, through_sequence) {
                    let ghost before = out@;
                    out.push((row.dup(), at));
                    assert(anchor_list(out@) =~= anchor_list(before).push(
                        (self@.log[i as int], at),
                    ));
                }
            }
            i = i + 1;
        }
        let ghost all = out@;
        if out.len() > limit {
            out.truncate(limit);
            assert(anchor_list(out@) =~= anchor_list(all).subrange(0, limit as int));
        }
        out
    }

    /// The rows that belong to a touch, up to a sequence number.
    pub fn opportunity_events_for_touch(
        &self,
        run_id: &str,
        touch: &EventEnvelope,
        through_sequence: i64,
    ) -> (r: Vec<EventEnvelope>)
        ensures
            r.deep_view() == rows_before(
                self@.log,
                belonging(run_id@, touch@, through_sequence),
                self@.log.len(),
            ),
    {
        let mut q = in_run(run_id);
        q.through = Some(through_sequence);
        if touch.schema_version >= 2 {
            q.correlation = Some(touch.correlation_id.as_str());
        } else {
            q.after = touch.sequence_number.checked_sub(1);
        }
        self.rows_for(&q)
    }

    fn resolutions(&self, run_id: &str, touch: &EventEnvelope, kind: EventType, through: i64) -> (r:
        usize)
        ensures
            r == count_before(
                self@.log,
                resolving(run_id@, touch@, kind, through),
                self@.log.len(),
            ),
    {
        let mut q = of_type(run_id, kind);
        q.through = Some(through);
        if touch.schema_version >= 2 {
            q.correlation = Some(touch.correlation_id.as_str());
        } else {
            q.symbol = Some(touch.symbol.as_str());
            q.time = Some(touch.event_time);
            q.index = touch.payload.grid_index();
        }
        self.count(&q)
    }

    fn is_completed_touch(&self, run_id: &str, e: &EventEnvelope, through: i64) -> (r: bool)
        ensures
            r == completed_touch(self@.log, run_id@, e@, through),
    {
        let mut q = of_type(run_id, EventType::GridLevelTouched);
        q.through = Some(through);
        e.is_wanted(&q) && self.processing(e, through).is_some()
    }

    fn names_indices(&self, run_id: &str, through: i64) -> (r: bool)
        ensures
            r == indices_named(self@.log, run_id@, through),
    {
        let mut grants = of_type(run_id, EventType::GridRightGranted);
        grants.through = Some(through);
        let mut skips = of_type(run_id, EventType::GridLevelSkipped);
        skips.through = Some(through);
        let mut i: usize = 0;
        while i < self.len()
            invariant
                i <= self@.log.len(),
                grants@ == (QueryView {
                    through: Some(through),
                    ..of_kind(run_id@, EventType::GridRightGranted)
                }),
                skips@ == (QueryView {
                    through: Some(through),
                    ..of_kind(run_id@, EventType::GridLevelSkipped)
                }),
                forall|k: int|
                    0 <= k < i ==> ((completed_touch(
                        self@.log,
                        run_id@,
                        #[trigger] self@.log[k],
                        through,
                    ) || resolves(run_id@, self@.log[k], through)) ==> named_index(
                        self@.log[k].payload,
                    ) is Some),
            decreases self@.log.len() - i,
        {
            let row = self.row(i);
            if row.payload.grid_index().is_none() {
                if row.is_wanted(&grants) || row.is_wanted(&skips) || self.is_completed_touch(
                    run_id,
                    row,
                    through,
                ) {
                    return false;
                }
            }
            i = i + 1;
        }
        true
    }

    /// How the touches of a run up to a sequence number were resolved. Nothing
    /// where a row does not name its grid index.
    pub fn completed_opportunity_counts(&self, run_id: &str, through_sequence: i64) -> (r: Option<
        OpportunityCounts,
    >)
        ensures
            r == (if indices_named(self@.log, run_id@, through_sequence) {
                Some(counted(self@.log, run_id@, through_sequence, self@.log.len()))
            } else {
                None
            }),
    {
        if !self.names_indices(run_id, through_sequence) {
            return None;
        }
        let mut c = OpportunityCounts {
            touches: 0,
            granted: 0,
            skipped: 0,
            legacy_unbound: 0,
            invalid_current: 0,
        };
        let n: usize = self.len();
        let mut i: usize = 0;
        while i < n
            invariant
                i <= n == self@.log.len(),
                c == counted(self@.log, run_id@, through_sequence, i as nat),
            decreases self@.log.len() - i,
        {
            let row = self.row(i);
            proof {
                lemma_counted_bound(self@.log, run_id@, through_sequence, i as nat);
            }
            if self.is_completed_touch(run_id, row, through_sequence) {
                let grants: usize = self.resolutions(
                    run_id,
                    row,
                    EventType::GridRightGranted,
                    through_sequence,
                );
                let skips: usize = self.resolutions(
                    run_id,
                    row,
                    EventType::GridLevelSkipped,
                    through_sequence,
                );
                c.touches = c.touches + 1;
                if grants == 1 && skips == 0 {
                    c.granted = c.granted + 1;
                } else if grants == 0 && skips == 1 {
                    c.skipped = c.skipped + 1;
                } else if row.schema_version < 2 {
                    c.legacy_unbound = c.legacy_unbound + 1;
                } else {
                    c.invalid_current = c.invalid_current + 1;
                }
            }
            i = i + 1;
        }
        Some(c)
    }
}

/// Every touch that is counted is counted once, under what became of it.
pub proof fn law_touches_are_all_accounted_for(log: Log, run_id: Seq<char>, through: i64)
    requires
        log.len() <= usize::MAX,
    ensures
        ({
            let c = counted(log, run_id, through, log.len());
            c.granted + c.skipped + c.legacy_unbound + c.invalid_current == c.touches
        }),
{
    lemma_counted_bound(log, run_id, through, log.len());
}

} // verus!

//! What a batch of the ledger holds when it is accepted.
use crate::event::kinds::{current_schema, EventType};
use crate::event::levels::small_index;
use crate::event::payload::{EventEnvelopeView, PayloadView};
use crate::grid::{grid_of, grid_price};
use crate::grid_laws::reached;
use crate::journal::query::named_index;
use crate::ledger::batch::{
    arms_fault, audited_grid, begins_cycle, cycle_begun, event_fault, first_fault, level_armed_by,
    offered_fault, projected_fault, BatchCheck,
};
use crate::ledger::evidence::{bar_of, last_two};
use crate::ledger::kinship::{fresh, kin, kin_between, new_of, Batch, WantView};
use crate::model::ledger::{GridLevelState, GridLevelStatus};
use crate::model::rights::RightTrancheView;
use crate::table::lookup;
use vstd::prelude::*;

verus! {

/// Whether two events are of one opportunity: of one run, cycle, symbol, correlation and
/// time.
pub open spec fn of_one_opportunity(c: EventEnvelopeView, e: EventEnvelopeView) -> bool {
    c.run_id == e.run_id && c.cycle_id == e.cycle_id && c.symbol == e.symbol && c.correlation_id
        == e.correlation_id && c.event_time == e.event_time
}

proof fn lemma_fault_of_each(b: Batch, check: BatchCheck, n: nat, i: int)
    requires
        first_fault(b, check, n) is None,
        0 <= i < n,
    ensures
        event_fault(b, check, i) is None,
    decreases n,
{
    if i < n - 1 {
        lemma_fault_of_each(b, check, (n - 1) as nat, i);
    }
}

proof fn lemma_kin_none(b: Batch, e: EventEnvelopeView, want: WantView, from: int, to: int, k: int)
    requires
        kin_between(b, e, want, from, to) == 0,
        from <= k < to,
    ensures
        !(fresh(b, k) && kin(b.events[k], e, want)),
    decreases to - from,
{
    if k < to - 1 {
        lemma_kin_none(b, e, want, from, to - 1, k);
    }
}

/// Where there is exactly one event that another is to have beside it, it is at one place
/// and at no other.
proof fn lemma_kin_one(b: Batch, e: EventEnvelopeView, want: WantView, from: int, to: int) -> (k: int)
    requires
        kin_between(b, e, want, from, to) == 1,
    ensures
        from <= k < to,
        fresh(b, k) && kin(b.events[k], e, want),
        forall|j: int|
            from <= j < to && j != k ==> !(fresh(b, j) && kin(#[trigger] b.events[j], e, want)),
    decreases to - from,
{
    if fresh(b, to - 1) && kin(b.events[to - 1], e, want) {
        assert forall|j: int| from <= j < to && j != to - 1 implies !(fresh(b, j) && kin(
            #[trigger] b.events[j],
            e,
            want,
        )) by {
            lemma_kin_none(b, e, want, from, to - 1, j);
        }
        to - 1
    } else {
        lemma_kin_one(b, e, want, from, to - 1)
    }
}

/// Every new event of an accepted batch is in its current layout, and no stage of a bar is
/// in a batch.
pub proof fn law_batches_are_in_layout(b: Batch, i: int)
    requires
        offered_fault(b) is None,
        0 <= i < b.events.len(),
        fresh(b, i),
    ensures
        b.events[i].schema_version == current_schema(b.events[i].event_type),
        b.events[i].event_type != EventType::MarketBarDecisionsCommitted,
        b.events[i].event_type != EventType::MarketBarProcessed,
        b.events[i].event_type == EventType::GridLevelTouched || b.events[i].event_type
            == EventType::GridLevelSkipped || b.events[i].event_type
            == EventType::MarketDataReceived ==> (b.state.audited_config matches Some(c)
            && b.events[i].cycle_id == b.state.cycle_id && b.events[i].config_version
            == c.config_version),
{
    lemma_fault_of_each(b, BatchCheck::Layout, b.events.len(), i);
    lemma_fault_of_each(b, BatchCheck::Stage, b.events.len(), i);
}

/// A touch of an accepted batch is what the last two bars imply: the second of them is its
/// bar, and on the way from the close of the first it reached the waiting level at the price
/// of its index. No other new event of the batch touches that level on that bar.
pub proof fn law_batched_touches_are_implied(b: Batch, i: int) -> (k: int)
    requires
        offered_fault(b) is None,
        0 <= i < b.events.len(),
        new_of(b, i, EventType::GridLevelTouched),
    ensures
        ({
            let e = b.events[i];
            let recent = last_two(b.log, b.state.run_id);
            &&& recent.len() == 2
            &&& small_index(named_index(e.payload)) matches Some(index) && (bar_of(recent[0]) matches Some(
                p,
            ) && (bar_of(recent[1]) matches Some(x) && (b.state.audited_config matches Some(c) && (
            grid_price(grid_of(c), index) matches Ok(price) && (lookup::<i32, GridLevelState>(
                b.state.levels,
                index,
            ) matches Some(level) && {
                &&& x.symbol == e.symbol && x.timestamp == e.event_time
                &&& p.timestamp.position() < x.timestamp.position()
                &&& reached(
                    index,
                    price.units(),
                    p.close.units(),
                    x.low.units(),
                    x.high.units(),
                )
                &&& level.status == GridLevelStatus::Armed || level.status
                    == GridLevelStatus::Rearmed
                &&& level.price.units() == price.units()
            })))))
            &&& 0 <= k < b.events.len()
            &&& forall|j: int|
                0 <= j < b.events.len() && j != k && fresh(b, j) ==> !((
                #[trigger] b.events[j]).event_type == EventType::GridLevelTouched
                    && b.events[j].run_id == e.run_id && b.events[j].symbol == e.symbol
                    && b.events[j].event_time == e.event_time && small_index(
                    named_index(b.events[j].payload),
                ) == small_index(named_index(e.payload)))
        }),
{
    lemma_fault_of_each(b, BatchCheck::Touch, b.events.len(), i);
    let e = b.events[i];
    let index = small_index(named_index(e.payload))->0;
    let k = lemma_kin_one(
        b,
        e,
        WantView::TouchOf(index as i64),
        0,
        b.events.len() as int,
    );
    assert forall|j: int| 0 <= j < b.events.len() && j != k && fresh(b, j) implies !((
    #[trigger] b.events[j]).event_type == EventType::GridLevelTouched && b.events[j].run_id
        == e.run_id && b.events[j].symbol == e.symbol && b.events[j].event_time == e.event_time
        && small_index(named_index(b.events[j].payload)) == small_index(
        named_index(e.payload),
    )) by {
        assert(!kin(b.events[j], e, WantView::TouchOf(index as i64)));
    }
    k
}

/// A touch of an accepted batch is resolved once: by one later grant or one later skip of
/// its opportunity and its index, and by no other. `k` is where.
pub proof fn law_batched_touches_are_resolved(b: Batch, i: int) -> (k: int)
    requires
        projected_fault(b) is None,
        0 <= i < b.events.len(),
        new_of(b, i, EventType::GridLevelTouched),
    ensures
        ({
            let e = b.events[i];
            let resolves = |c: EventEnvelopeView|
                (c.event_type == EventType::GridRightGranted || c.event_type
                    == EventType::GridLevelSkipped) && of_one_opportunity(c, e) && named_index(
                    c.payload,
                ) == named_index(e.payload);
            &&& i < k < b.events.len() && fresh(b, k) && resolves(b.events[k])
            &&& forall|j: int|
                i < j < b.events.len() && j != k && fresh(b, j) ==> !resolves(
                    #[trigger] b.events[j],
                )
        }),
{
    lemma_fault_of_each(b, BatchCheck::Resolution, b.events.len(), i);
    let e = b.events[i];
    let n = named_index(e.payload)->0;
    let end = b.events.len() as int;
    let grants = kin_between(b, e, WantView::GrantAt(n), i + 1, end);
    let skips = kin_between(b, e, WantView::SkipAt(n), i + 1, end);
    let resolves = |c: EventEnvelopeView|
        (c.event_type == EventType::GridRightGranted || c.event_type
            == EventType::GridLevelSkipped) && of_one_opportunity(c, e) && named_index(c.payload)
            == named_index(e.payload);
    if grants == 1 {
        let k = lemma_kin_one(b, e, WantView::GrantAt(n), i + 1, end);
        assert forall|j: int| i < j < b.events.len() && j != k && fresh(b, j) implies !resolves(
            #[trigger] b.events[j],
        ) by {
            lemma_kin_none(b, e, WantView::SkipAt(n), i + 1, end, j);
            assert(!kin(b.events[j], e, WantView::GrantAt(n)));
        }
        k
    } else {
        let k = lemma_kin_one(b, e, WantView::SkipAt(n), i + 1, end);
        assert forall|j: int| i < j < b.events.len() && j != k && fresh(b, j) implies !resolves(
            #[trigger] b.events[j],
        ) by {
            lemma_kin_none(b, e, WantView::GrantAt(n), i + 1, end, j);
            assert(!kin(b.events[j], e, WantView::SkipAt(n)));
        }
        k
    }
}

/// A grant of an accepted batch follows a touch of its opportunity at its index, and is
/// followed by a decision on its right and by what becomes of it. The places of the three.
pub proof fn law_batched_grants_are_decided(b: Batch, i: int) -> (places: (int, int, int))
    requires
        projected_fault(b) is None,
        0 <= i < b.events.len(),
        new_of(b, i, EventType::GridRightGranted),
        b.events[i].schema_version >= 2,
    ensures
        ({
            let e = b.events[i];
            let (t, d, p) = places;
            &&& e.payload matches PayloadView::Right(right) && {
                &&& 0 <= t < i && fresh(b, t) && b.events[t].event_type
                    == EventType::GridLevelTouched && of_one_opportunity(b.events[t], e)
                    && named_index(b.events[t].payload) == Some(right.grid_index as i64)
                &&& i < d < b.events.len() && fresh(b, d) && b.events[d].event_type
                    == EventType::GateDecisionMade && of_one_opportunity(b.events[d], e) && (
                b.events[d].payload matches PayloadView::Decision(x) && (x.response matches Some(r)
                    && r.right_id == right.right_id))
                &&& i < p < b.events.len() && fresh(b, p) && of_one_opportunity(b.events[p], e) && (
                b.events[p].event_type == EventType::GridRightReserved || b.events[p].event_type
                    == EventType::GridRightDeferred || b.events[p].event_type
                    == EventType::GridRightBlocked || b.events[p].event_type
                    == EventType::GridRightResidualHeld) && (
                b.events[p].payload matches PayloadView::Disposition(x) && x.right_id == Some(
                    right.right_id,
                ) && x.partial != Some(true))
            }
        }),
{
    lemma_fault_of_each(b, BatchCheck::Grant, b.events.len(), i);
    let e = b.events[i];
    let end = b.events.len() as int;
    if let PayloadView::Right(right) = e.payload {
        let price = crate::decimal::decimal_text(right.grid_price.m(), right.grid_price.s());
        let t = lemma_kin_one(
            b,
            e,
            WantView::TouchAt(right.grid_index as i64, price),
            0,
            i,
        );
        let d = lemma_kin_one(b, e, WantView::DecisionOn(right.right_id), i + 1, end);
        let p = lemma_kin_one(b, e, WantView::DispositionOf(right.right_id), i + 1, end);
        (t, d, p)
    } else {
        (0, 0, 0)
    }
}

/// A skip of an accepted batch follows a touch of its opportunity at its index.
pub proof fn law_batched_skips_follow_touches(b: Batch, i: int) -> (k: int)
    requires
        projected_fault(b) is None,
        0 <= i < b.events.len(),
        new_of(b, i, EventType::GridLevelSkipped),
    ensures
        0 <= k < i,
        fresh(b, k),
        b.events[k].event_type == EventType::GridLevelTouched,
        of_one_opportunity(b.events[k], b.events[i]),
        named_index(b.events[k].payload) == named_index(b.events[i].payload),
{
    lemma_fault_of_each(b, BatchCheck::Skip, b.events.len(), i);
    let e = b.events[i];
    lemma_kin_one(b, e, WantView::TouchHere(named_index(e.payload)->0), 0, i)
}

/// A right that an accepted batch grants owns every tranche that it names and that holds
/// something.
pub proof fn law_batched_grants_own_their_tranches(b: Batch, i: int, j: int)
    requires
        projected_fault(b) is None,
        0 <= i < b.events.len(),
        new_of(b, i, EventType::GridRightGranted),
        b.events[i].schema_version >= 2,
        b.events[i].payload is Right,
        0 <= j < b.events[i].payload->Right_0.capacity.tranche_ids.len(),
    ensures
        ({
            let right = b.events[i].payload->Right_0;
            lookup::<String, RightTrancheView>(
                b.state.right_tranches,
                right.capacity.tranche_ids[j],
            ) matches Some(t) && (t.available_quantity > 0 || t.reserved_quantity > 0
                || t.available_budget.units() > 0 || t.reserved_budget.units() > 0
                ==> t.owner_right_id == right.right_id)
        }),
{
    lemma_fault_of_each(b, BatchCheck::Tranches, b.events.len(), i);
    let right = b.events[i].payload->Right_0;
    lemma_owned(
        b,
        right.right_id,
        right.capacity.tranche_ids,
        right.capacity.tranche_ids.len(),
        j,
    );
}

proof fn lemma_owned(b: Batch, right_id: Seq<char>, ids: Seq<Seq<char>>, n: nat, j: int)
    requires
        crate::ledger::batch::ownership_fault(b.state, right_id, ids, n) is None,
        0 <= j < n,
    ensures
        lookup::<String, RightTrancheView>(b.state.right_tranches, ids[j]) matches Some(t) && (
        crate::ledger::batch::usable_tranche(t) ==> t.owner_right_id == right_id),
    decreases n,
{
    if j < n - 1 {
        lemma_owned(b, right_id, ids, (n - 1) as nat, j);
    }
}

proof fn lemma_arms(
    b: Batch,
    canonical: Seq<(i32, GridLevelState)>,
    from: int,
    to: int,
    k: int,
)
    requires
        arms_fault(b, canonical, from, to) is None,
        from <= k < to,
    ensures
        crate::ledger::batch::arm_fault(b, canonical, from, k) is None,
    decreases to - from,
{
    if k < to - 1 {
        lemma_arms(b, canonical, from, to - 1, k);
    }
}

/// A cycle that an accepted batch begins arms its whole grid: after it the batch holds as many
/// new events as the grid has levels, each arms a level of the cycle at the price of the
/// grid, and no level is armed twice.
pub proof fn law_batched_cycles_arm_the_grid(b: Batch, i: int, k: int)
    requires
        projected_fault(b) is None,
        0 <= i < k < b.events.len(),
        begins_cycle(b, i),
        fresh(b, k),
    ensures
        crate::ledger::batch::fresh_between(b, i + 1, b.events.len() as int) == audited_grid(
            b.state,
        ).len(),
        b.events[k].event_type == EventType::GridLevelArmed,
        Some(b.events[k].cycle_id) == cycle_begun(b.events[i]),
        level_armed_by(b.events[k]) matches Some(level) && (lookup::<i32, GridLevelState>(
            audited_grid(b.state),
            level.index,
        ) matches Some(x) && x.price.units() == level.price.units() && forall|j: int|
            i < j < k && fresh(b, j) ==> (level_armed_by(#[trigger] b.events[j]) matches Some(other)
                && other.index != level.index)),
{
    assert(crate::ledger::batch::controls_cycle(b)) by {
        assert(b.events[i].schema_version >= 2);
    }
    lemma_fault_of_each(b, BatchCheck::Cycle, b.events.len(), i);
    let canonical = audited_grid(b.state);
    let end = b.events.len() as int;
    lemma_arms(b, canonical, i + 1, end, k);
    assert(crate::ledger::batch::arms(b.events[k], cycle_begun(b.events[i])->0));
    let level = level_armed_by(b.events[k])->0;
    assert forall|j: int| i < j < k && fresh(b, j) implies (level_armed_by(
        #[trigger] b.events[j],
    ) matches Some(other) && other.index != level.index) by {
        lemma_arms(b, canonical, i + 1, end, j);
        if level_armed_by(b.events[j])->0.index == level.index {
            assert(crate::ledger::batch::arms_index(b.events[j], level.index));
        }
    }
}

/// A bar of an accepted batch is later than the one before it.
pub proof fn law_batched_bars_are_later(b: Batch, i: int)
    requires
        offered_fault(b) is None,
        0 <= i < b.events.len(),
        new_of(b, i, EventType::MarketDataReceived),
    ensures
        bar_of(b.events[i]) matches Some(bar) && (crate::ledger::batch::bar_before(b, i) matches Some(
            p,
        ) ==> p.timestamp.position() < bar.timestamp.position()),
{
    lemma_fault_of_each(b, BatchCheck::Market, b.events.len(), i);
}

} // verus!

//! What the events on rights do: what a grant rests on, what a decision records and
//! what a disposition leaves.
use crate::arith::{lemma_checked_total, total};
use crate::decimal::{adds_exactly, from_parts, lemma_plus_exact, read_decimal, Decimal};
use crate::decision::{DECISION_CONTRACT_VERSION, WHOLE_UNIT_DECISION_CONTRACT_VERSION};
use crate::event::grants::{carriers, free_shares, taken_by};
use crate::event::kinds::EventType;
use crate::event::order_laws::after;
use crate::event::payload::EventEnvelopeView;
use crate::event::reduce::grid_reduced;
use crate::event::tranches::{right_of, Tranches};
use crate::grid::{grid_of, grid_price};
use crate::grid_laws::distance;
use crate::model::ledger::StrategyStateView;
use crate::model::market::Direction;
use crate::model::notices::{AppraisalView, DispositionNoticeView};
use crate::model::rights::{GridRightStatus, GridRightView};
use crate::rights::{budget_left, quantity_left};
use crate::table::{changed_at, lemma_changed_at, lookup, ordered};
use vstd::prelude::*;

verus! {

/// What the first `n` tranches of a cycle and side hold free.
pub open spec fn free_in(t: Tranches, cycle: Seq<char>, side: Direction, n: nat) -> int
    decreases n,
{
    if n == 0 {
        0
    } else {
        free_in(t, cycle, side, (n - 1) as nat) + (if t[n - 1].1.cycle_id == cycle && t[n
            - 1].1.direction == side && t[n - 1].1.available_quantity > 0 {
            t[n - 1].1.available_quantity as int
        } else {
            0
        })
    }
}

/// What the first `n` buy rights of a cycle have reserved or used: the larger of both
/// while a right is reserved, and else what it used.
pub open spec fn deployed_in(r: Seq<(Seq<char>, GridRightView)>, cycle: Seq<char>, n: nat) -> int
    decreases n,
{
    if n == 0 {
        0
    } else {
        let x = r[n - 1].1;
        deployed_in(r, cycle, (n - 1) as nat) + (if x.cycle_id == cycle && x.direction
            == Direction::Buy && x.capacity.available_quantity > 0 {
            if x.status == GridRightStatus::Reserved && x.reserved_quantity
                > x.exercised_quantity {
                x.reserved_quantity as int
            } else {
                x.exercised_quantity as int
            }
        } else {
            0
        })
    }
}

proof fn lemma_free(t: Tranches, cycle: Seq<char>, side: Direction, n: nat)
    requires
        n <= t.len(),
    ensures
        total(free_shares(carriers(t, cycle, side, n))) == free_in(t, cycle, side, n),
        forall|i: int|
            0 <= i < n && (#[trigger] t[i].1).cycle_id == cycle && t[i].1.direction == side
                && t[i].1.available_quantity > 0 ==> carriers(t, cycle, side, n).contains(t[i].1),
    decreases n,
{
    let all = carriers(t, cycle, side, n);
    if n == 0 {
        assert(free_shares(all) =~= Seq::<i64>::empty());
    } else {
        lemma_free(t, cycle, side, (n - 1) as nat);
        let before = carriers(t, cycle, side, (n - 1) as nat);
        if all.len() > before.len() {
            assert(free_shares(all).drop_last() =~= free_shares(before));
            assert(all[before.len() as int] == t[n - 1].1);
            assert forall|i: int|
                0 <= i < n && (#[trigger] t[i].1).cycle_id == cycle && t[i].1.direction == side
                    && t[i].1.available_quantity > 0 implies all.contains(t[i].1) by {
                if i < n - 1 {
                    let k = choose|k: int| 0 <= k < before.len() && before[k] == t[i].1;
                    assert(all[k] == t[i].1);
                }
            }
        }
    }
}

proof fn lemma_deployed(r: Seq<(Seq<char>, GridRightView)>, cycle: Seq<char>, n: nat)
    requires
        n <= r.len(),
    ensures
        total(taken_by(r, cycle, n)) == deployed_in(r, cycle, n),
    decreases n,
{
    if n > 0 {
        lemma_deployed(r, cycle, (n - 1) as nat);
        let all = taken_by(r, cycle, n);
        let before = taken_by(r, cycle, (n - 1) as nat);
        if all.len() > before.len() {
            assert(all.drop_last() =~= before);
        }
    }
}

/// A granted right is new, with nothing reserved or used. Nothing else changes.
pub proof fn law_grants_are_fresh(s: StrategyStateView, e: EventEnvelopeView, a: AppraisalView)
    requires
        e.event_type == EventType::GridRightGranted,
        e.payload is Right,
        ordered::<String, GridRightView>(s.grid_rights),
    ensures
        after(s, e, a) matches Some(n) ==> {
            let r = e.payload->Right_0;
            &&& right_of(s, r.right_id) is None
            &&& changed_at::<String, GridRightView>(s.grid_rights, n.grid_rights, r.right_id, r)
            &&& n == (StrategyStateView {
                grid_rights: n.grid_rights,
                event_count: (s.event_count + 1) as u64,
                ..s
            })
            &&& r.status == GridRightStatus::Granted
            &&& r.reserved_quantity == 0 && r.exercised_quantity == 0
            &&& r.reserved_budget.units() == 0 && r.exercised_budget.units() == 0
            &&& r.capacity.available_quantity >= 0 && r.capacity.eligible_quantity >= 0
            &&& r.capacity.deployed_quantity >= 0 && r.capacity.carried_in_quantity >= 0
            &&& r.direction == Direction::Sell ==> r.capacity.available_quantity == 0
                && r.capacity.available_budget.units() == 0
            &&& r.direction == Direction::Buy ==> r.capacity.eligible_quantity == 0
                && r.capacity.eligible_lot_ids.len() == 0
            &&& r.direction == Direction::Buy ==> r.capacity.available_quantity == 0
                || r.capacity.available_budget.units() == 0
        },
{
    reveal(grid_reduced);
    let r = e.payload->Right_0;
    lemma_changed_at::<String, GridRightView>(s.grid_rights, r.right_id, r);
}

/// In the current layout a right is granted at a traded level of the audited grid at its
/// price, on its side of the anchor, in its cycle and at the time of its event. It
/// carries in exactly what tranches of its cycle and side hold free, and names each of
/// them and its owner.
pub proof fn law_grants_rest_on_the_grid(
    s: StrategyStateView,
    e: EventEnvelopeView,
    a: AppraisalView,
    i: int,
)
    requires
        e.event_type == EventType::GridRightGranted,
        e.payload is Right,
        e.schema_version >= 2,
        0 <= i < s.right_tranches.len(),
    ensures
        after(s, e, a) is Some ==> {
            let r = e.payload->Right_0;
            let t = s.right_tranches[i].1;
            &&& r.cycle_id == s.cycle_id && e.cycle_id == s.cycle_id && r.symbol == s.symbol
            &&& r.granted_at == e.event_time
            &&& r.direction == Direction::Buy ==> r.grid_index < 0
            &&& r.direction == Direction::Sell ==> r.grid_index > 0
            &&& s.audited_config matches Some(c) && distance(r.grid_index as int) <= c.trade_levels
                && (grid_price(grid_of(c), r.grid_index) matches Ok(p) && r.grid_price.units()
                == p.units())
            &&& r.capacity.carried_in_quantity == free_in(
                s.right_tranches,
                s.cycle_id,
                r.direction,
                s.right_tranches.len(),
            )
            &&& t.cycle_id == s.cycle_id && t.direction == r.direction && t.available_quantity > 0
                ==> r.capacity.tranche_ids.contains(t.tranche_id)
                && r.capacity.source_right_ids.contains(t.owner_right_id)
        },
{
    reveal(grid_reduced);
    if after(s, e, a) is Some {
        let r = e.payload->Right_0;
        let t = s.right_tranches[i].1;
        let live = carriers(s.right_tranches, s.cycle_id, r.direction, s.right_tranches.len());
        lemma_free(s.right_tranches, s.cycle_id, r.direction, s.right_tranches.len());
        lemma_checked_total(free_shares(live));
        if t.cycle_id == s.cycle_id && t.direction == r.direction && t.available_quantity > 0 {
            let k = choose|k: int| 0 <= k < live.len() && live[k] == t;
            let ids = crate::event::grants::ids_of(live);
            let all = ids + crate::event::grants::marginal_ids(s, r, a);
            assert(ids[k] == t.tranche_id);
            assert(all[k] == t.tranche_id);
            assert(all.contains(t.tranche_id));
            assert(crate::event::grants::owners_of(live)[k] == t.owner_right_id);
            assert(crate::event::grants::owners_of(live).contains(t.owner_right_id));
        }
    }
}

/// In the current layout a buy right has one unit more than it carries in. With what the
/// buy rights of the cycle have taken it stays within one unit for each level of its
/// depth, and it accumulates the levels from the first one down to its own.
pub proof fn law_buy_grants_add_one_unit(
    s: StrategyStateView,
    e: EventEnvelopeView,
    a: AppraisalView,
    k: int,
)
    requires
        e.event_type == EventType::GridRightGranted,
        e.payload is Right,
        e.schema_version >= 2,
        e.payload->Right_0.direction == Direction::Buy,
        0 <= k < -e.payload->Right_0.grid_index,
    ensures
        after(s, e, a) is Some ==> {
            let r = e.payload->Right_0;
            let c = r.capacity;
            let unit = s.audited_standard_quantity;
            &&& unit > 0 && s.audited_lot_size > 0
            &&& unit as int % s.audited_lot_size as int == 0
            &&& c.available_quantity == c.carried_in_quantity + unit
            &&& c.mechanical_quantity_cap == -r.grid_index * unit
            &&& c.deployed_quantity + c.available_quantity <= c.mechanical_quantity_cap
            &&& c.deployed_quantity == deployed_in(
                s.grid_rights,
                s.cycle_id,
                s.grid_rights.len(),
            )
            &&& c.accumulated_grid_indices.len() == -r.grid_index
            &&& c.accumulated_grid_indices[k] == -(k + 1)
            &&& c.t_plus_one_blocked_quantity == 0 && c.risk_blocked_quantity == 0
                && c.no_profit_blocked_quantity == 0
        },
{
    reveal(grid_reduced);
    if after(s, e, a) is Some {
        lemma_deployed(s.grid_rights, s.cycle_id, s.grid_rights.len());
        lemma_checked_total(taken_by(s.grid_rights, s.cycle_id, s.grid_rights.len()));
        assert(-e.payload->Right_0.grid_index * s.audited_standard_quantity
            == crate::arith::magnitude(e.payload->Right_0.grid_index)->0
            * s.audited_standard_quantity);
    }
}

/// The status that an event on a right is about.
pub open spec fn named_status(t: EventType) -> Option<GridRightStatus> {
    if t == EventType::GridRightReserved {
        Some(GridRightStatus::Reserved)
    } else if t == EventType::GridRightDeferred {
        Some(GridRightStatus::Deferred)
    } else if t == EventType::GridRightBlocked {
        Some(GridRightStatus::Blocked)
    } else if t == EventType::GridRightResidualHeld {
        Some(GridRightStatus::Residual)
    } else if t == EventType::GridRightPartiallyExercised {
        Some(GridRightStatus::PartiallyExercised)
    } else if t == EventType::GridRightExercised {
        Some(GridRightStatus::Exercised)
    } else if t == EventType::GridRightReleased {
        Some(GridRightStatus::Released)
    } else if t == EventType::GridRightTransferred {
        Some(GridRightStatus::Transferred)
    } else if t == EventType::GridRightExpired {
        Some(GridRightStatus::Expired)
    } else if t == EventType::GridRightRevoked {
        Some(GridRightStatus::Revoked)
    } else {
        None
    }
}

/// Whether a right counts in shares: every sell right, and a buy right that has shares.
pub open spec fn in_shares(r: GridRightView) -> bool {
    r.direction == Direction::Sell || r.capacity.available_quantity > 0
}

/// The number, or none.
pub open spec fn or_none(q: Option<i64>) -> int {
    if q is Some {
        q->0 as int
    } else {
        0
    }
}

/// The shares that a right covers: those that a buy right offers, and those of a sell
/// right that are eligible or blocked.
pub open spec fn covered(r: GridRightView) -> int {
    let c = r.capacity;
    if r.direction == Direction::Buy && c.available_quantity > 0 {
        c.available_quantity as int
    } else {
        c.eligible_quantity + c.t_plus_one_blocked_quantity + c.risk_blocked_quantity
            + c.no_profit_blocked_quantity
    }
}

/// What is left of a right is what it covers without what it used, or nothing; so of its
/// money.
pub proof fn law_rights_have_left_what_is_unused(r: GridRightView)
    requires
        r.capacity.available_budget.valid(),
        r.exercised_budget.valid(),
        crate::decimal::subtracts_exactly(r.capacity.available_budget, r.exercised_budget),
    ensures
        quantity_left(r) matches Some(q) ==> q == (if covered(r) >= r.exercised_quantity {
            covered(r) - r.exercised_quantity
        } else {
            0
        }),
        budget_left(r) matches Some(b) && b.units() == (if r.capacity.available_budget.units()
            >= r.exercised_budget.units() {
            r.capacity.available_budget.units() - r.exercised_budget.units()
        } else {
            0
        }),
{
    crate::decimal::lemma_of_parts(0, 0);
    crate::decimal::lemma_minus_exact(r.capacity.available_budget, r.exercised_budget);
}

/// Whether a right keeps what it was granted and decided, and takes a status that its own
/// one allows; a partial block leaves it granted.
pub open spec fn keeps_the_grant(
    r: GridRightView,
    x: GridRightView,
    p: DispositionNoticeView,
    next: GridRightStatus,
) -> bool {
    &&& next == GridRightStatus::Blocked && p.partial == Some(true) ==> x == (
    GridRightView { decision_id: p.decision_id, ..r }) && r.status
        == GridRightStatus::Granted && r.direction == Direction::Sell
    &&& !(next == GridRightStatus::Blocked && p.partial == Some(true)) ==> x.status
        == next && r.status.may_become(next)
    &&& x.right_id == r.right_id && x.cycle_id == r.cycle_id && x.symbol == r.symbol
    &&& x.direction == r.direction && x.grid_index == r.grid_index && x.grid_price
        == r.grid_price && x.granted_at == r.granted_at && x.capacity == r.capacity
    &&& x.decision_recorded == r.decision_recorded && x.decided_exercise_quantity
        == r.decided_exercise_quantity && x.decided_defer_quantity
        == r.decided_defer_quantity && x.decision_is_algorithm
        == r.decision_is_algorithm
    &&& r.decision_id is Some ==> x.decision_id == r.decision_id
    &&& p.decision_id is Some ==> x.decision_id == p.decision_id
}

/// Whether the shares of a right are moved as a disposition says.
pub open spec fn moves_shares(
    r: GridRightView,
    x: GridRightView,
    p: DispositionNoticeView,
    schema: i32,
    next: GridRightStatus,
) -> bool {
    let ends = next == GridRightStatus::Released || next == GridRightStatus::Transferred
        || next == GridRightStatus::Expired || next == GridRightStatus::Revoked;
    &&& x.exercised_quantity == r.exercised_quantity + or_none(
        p.exercised_quantity_delta,
    )
    &&& or_none(p.exercised_quantity_delta) >= 0 || !in_shares(r)
    &&& p.exercised_quantity_delta is Some && in_shares(r)
        ==> p.exercised_quantity_delta->0 > 0 && (ends || x.exercised_quantity
        <= x.reserved_quantity)
    &&& ends ==> x.reserved_quantity == x.exercised_quantity && x.reserved_budget
        == x.exercised_budget
    &&& !ends && p.reserved_quantity is None ==> x.reserved_quantity
        == r.reserved_quantity
    &&& !ends && p.reserved_quantity is Some && in_shares(r) ==> x.reserved_quantity
        == p.reserved_quantity->0
    &&& p.reserved_quantity is Some && r.direction == Direction::Buy && in_shares(r)
        ==> 0 < p.reserved_quantity->0 <= r.capacity.available_quantity
    &&& p.reserved_quantity is Some && r.direction == Direction::Sell ==> 0
        < p.reserved_quantity->0 <= r.capacity.eligible_quantity
    &&& p.reserved_quantity is Some && !in_shares(r) ==> p.reserved_quantity->0 == 0
    &&& next == GridRightStatus::Reserved && r.direction == Direction::Sell
        ==> p.reserved_quantity is Some
    &&& next == GridRightStatus::Exercised && in_shares(r) ==> x.exercised_quantity
        == covered(r)
    &&& next == GridRightStatus::Exercised || next
        == GridRightStatus::PartiallyExercised ==> p.exercised_quantity_delta is Some
        || p.exercised_budget_delta is Some
    &&& next == GridRightStatus::Revoked ==> p.revoked_quantity == quantity_left(x)
    &&& schema >= 3 && next == GridRightStatus::Reserved
        ==> x.reserved_quantity == x.decision_intent_quantity
}

/// Whether what a disposition records splits the capacity of a right into whole units and
/// a rest.
pub open spec fn splits_the_capacity(
    r: GridRightView,
    x: GridRightView,
    p: DispositionNoticeView,
    unit: int,
    event: EventType,
) -> bool {
    let rest = or_none(p.platform_residual_quantity);
    &&& unit > 0
    &&& r.status == GridRightStatus::Granted
    &&& x.decision_id is Some
    &&& r.decision_gross_available_quantity == x.decision_intent_quantity
        + r.decided_defer_quantity + x.decision_pre_blocked_quantity
        + x.decision_post_blocked_quantity + rest
    &&& 0 <= rest < unit
    &&& rest == r.decision_platform_residual_quantity
    &&& x.decision_platform_blocked_quantity == x.decision_pre_blocked_quantity
        + x.decision_post_blocked_quantity
    &&& x.decision_remaining_quantity == r.decided_defer_quantity
        + x.decision_platform_blocked_quantity
    &&& r.decided_exercise_quantity == x.decision_intent_quantity
        + x.decision_post_blocked_quantity
    &&& x.decision_algorithm_offered_quantity == r.decided_exercise_quantity
        + r.decided_defer_quantity
    &&& r.decision_algorithm_authorized_quantity
        == x.decision_algorithm_offered_quantity + x.decision_pre_blocked_quantity
    &&& x.decision_intent_quantity >= 0 && x.decision_pre_blocked_quantity >= 0
        && x.decision_post_blocked_quantity >= 0
    &&& x.decision_intent_quantity as int % unit == 0
    &&& x.decision_pre_blocked_quantity as int % unit == 0
    &&& x.decision_post_blocked_quantity as int % unit == 0
    &&& r.decided_defer_quantity as int % unit == 0
    &&& x.decision_intent_quantity == or_none(p.order_intent_quantity)
    &&& event == EventType::GridRightReserved <==> x.decision_intent_quantity > 0
    &&& event == EventType::GridRightDeferred ==> r.decided_exercise_quantity
        == 0
    &&& event == EventType::GridRightResidualHeld ==> rest > 0
        && r.decision_gross_available_quantity == rest
}

proof fn lemma_keeps_the_grant(
    s: StrategyStateView,
    e: EventEnvelopeView,
    p: DispositionNoticeView,
    r: GridRightView,
    next: GridRightStatus,
    owned: Option<(Decimal, i64)>,
)
    ensures
        !(next == GridRightStatus::Blocked && p.partial == Some(true)) ==> (
        crate::event::disposition::right_disposed(s, e, p, r, next, owned) matches Some(x)
            ==> keeps_the_grant(r, x, p, next)),
        next == GridRightStatus::Blocked && p.partial == Some(true) ==> (
        crate::event::disposition::partly_blocked(r, p) matches Some(x) ==> keeps_the_grant(
            r,
            x,
            p,
            next,
        )),
{
}

proof fn lemma_moves_shares(
    s: StrategyStateView,
    e: EventEnvelopeView,
    p: DispositionNoticeView,
    r: GridRightView,
    next: GridRightStatus,
    owned: Option<(Decimal, i64)>,
)
    ensures
        crate::event::disposition::right_disposed(s, e, p, r, next, owned) matches Some(x)
            ==> moves_shares(r, x, p, e.schema_version, next),
{
}

proof fn lemma_splits_the_capacity(
    s: StrategyStateView,
    e: EventEnvelopeView,
    p: DispositionNoticeView,
    r: GridRightView,
    next: GridRightStatus,
    owned: Option<(Decimal, i64)>,
)
    requires
        e.schema_version >= 3,
        named_status(e.event_type) == Some(next),
        e.event_type == EventType::GridRightReserved || e.event_type == EventType::GridRightDeferred
            || e.event_type == EventType::GridRightBlocked || e.event_type
            == EventType::GridRightResidualHeld,
    ensures
        crate::event::disposition::right_disposed(s, e, p, r, next, owned) matches Some(x)
            ==> splits_the_capacity(r, x, p, s.audited_standard_quantity as int, e.event_type),
{
}

/// What follows of the right that a disposition names.
proof fn lemma_right_follows(
    s: StrategyStateView,
    e: EventEnvelopeView,
    a: AppraisalView,
    n: StrategyStateView,
)
    requires
        e.payload is Disposition,
        named_status(e.event_type) is Some,
        ordered::<String, GridRightView>(s.grid_rights),
        after(s, e, a) == Some(n),
    ensures
        ({
            let p = e.payload->Disposition_0;
            let next = named_status(e.event_type)->0;
            let id = p.right_id->0;
            let r = right_of(s, id)->0;
            let x = right_of(n, id)->0;
            &&& p.right_id is Some && right_of(s, id) is Some && right_of(n, id) is Some
            &&& n == (StrategyStateView {
                grid_rights: n.grid_rights,
                event_count: (s.event_count + 1) as u64,
                ..s
            })
            &&& changed_at::<String, GridRightView>(s.grid_rights, n.grid_rights, id, x)
            &&& keeps_the_grant(r, x, p, next)
            &&& !(next == GridRightStatus::Blocked && p.partial == Some(true)) ==> moves_shares(
                r,
                x,
                p,
                e.schema_version,
                next,
            )
            &&& !(next == GridRightStatus::Blocked && p.partial == Some(true)) && e.schema_version
                >= 3 && (next == GridRightStatus::Reserved || next == GridRightStatus::Deferred
                || next == GridRightStatus::Blocked || next == GridRightStatus::Residual)
                ==> splits_the_capacity(
                r,
                x,
                p,
                s.audited_standard_quantity as int,
                e.event_type,
            )
        }),
{
    let c = StrategyStateView { event_count: s.event_count.checked_add(1)->0, ..s };
    lemma_disposed(s, c, e, a, n);
    let p = e.payload->Disposition_0;
    let next = named_status(e.event_type)->0;
    let id = p.right_id->0;
    let r = right_of(s, id)->0;
    let owned = crate::event::disposition::cycle_left(c, e, p, id)->0;
    lemma_keeps_the_grant(c, e, p, r, next, owned);
    lemma_moves_shares(c, e, p, r, next, owned);
    if e.schema_version >= 3 && (next == GridRightStatus::Reserved || next
        == GridRightStatus::Deferred || next == GridRightStatus::Blocked || next
        == GridRightStatus::Residual) {
        lemma_splits_the_capacity(c, e, p, r, next, owned);
    }
}

/// A disposition of a right changes that right alone: it takes the status of its event,
/// which its own status allows, and keeps what it was granted. A partial block leaves it
/// granted.
pub proof fn law_dispositions_change_one_right(
    s: StrategyStateView,
    e: EventEnvelopeView,
    a: AppraisalView,
)
    requires
        e.payload is Disposition,
        named_status(e.event_type) is Some,
        ordered::<String, GridRightView>(s.grid_rights),
    ensures
        after(s, e, a) matches Some(n) ==> {
            let p = e.payload->Disposition_0;
            let next = named_status(e.event_type)->0;
            &&& n == (StrategyStateView {
                grid_rights: n.grid_rights,
                event_count: (s.event_count + 1) as u64,
                ..s
            })
            &&& p.right_id matches Some(id) && (right_of(s, id) matches Some(r) && (right_of(n, id) matches Some(
                x,
            ) && {
                &&& changed_at::<String, GridRightView>(s.grid_rights, n.grid_rights, id, x)
                &&& keeps_the_grant(r, x, p, next)
            }))
        },
{
    if let Some(n) = after(s, e, a) {
        lemma_right_follows(s, e, a, n);
    }
}

proof fn lemma_disposed(
    s: StrategyStateView,
    c: StrategyStateView,
    e: EventEnvelopeView,
    a: AppraisalView,
    n: StrategyStateView,
)
    requires
        e.payload is Disposition,
        named_status(e.event_type) is Some,
        ordered::<String, GridRightView>(s.grid_rights),
        after(s, e, a) == Some(n),
        c == (StrategyStateView { event_count: s.event_count.checked_add(1)->0, ..s }),
    ensures
        ({
            let p = e.payload->Disposition_0;
            let next = named_status(e.event_type)->0;
            let id = p.right_id->0;
            let r = right_of(s, id)->0;
            let x = right_of(n, id)->0;
            &&& p.right_id is Some && right_of(s, id) is Some && right_of(n, id) is Some
            &&& n == (StrategyStateView { grid_rights: n.grid_rights, ..c })
            &&& changed_at::<String, GridRightView>(s.grid_rights, n.grid_rights, id, x)
            &&& next == GridRightStatus::Blocked && p.partial == Some(true)
                ==> crate::event::disposition::partly_blocked(r, p) == Some(x)
            &&& !(next == GridRightStatus::Blocked && p.partial == Some(true))
                ==> crate::event::disposition::cycle_left(c, e, p, id) is Some
                && crate::event::disposition::right_disposed(
                c,
                e,
                p,
                r,
                next,
                crate::event::disposition::cycle_left(c, e, p, id)->0,
            ) == Some(x)
            &&& next == GridRightStatus::Transferred ==> crate::event::disposition::transfer_agrees(
                s.right_tranches,
                p,
            )
        }),
{
    reveal(grid_reduced);
    let p = e.payload->Disposition_0;
    let next = named_status(e.event_type)->0;
    let id = p.right_id->0;
    let r = right_of(s, id)->0;
    assert(crate::event::disposition::disposed(c, e, p, next) == Some(n));
    let x = if next == GridRightStatus::Blocked && p.partial == Some(true) {
        crate::event::disposition::partly_blocked(r, p)->0
    } else {
        crate::event::disposition::right_disposed(
            c,
            e,
            p,
            r,
            next,
            crate::event::disposition::cycle_left(c, e, p, id)->0,
        )->0
    };
    lemma_changed_at::<String, GridRightView>(s.grid_rights, id, x);
}

/// What a disposition does to the shares of a right. What it uses is added to what was
/// used, is no negative number, and stays within what is reserved. What it reserves is
/// some shares of what a buy right offers or a sell right has eligible. A right that ends
/// or is released keeps reserved only what it used. A right that is used up has used all
/// that it covers.
pub proof fn law_dispositions_move_shares(
    s: StrategyStateView,
    e: EventEnvelopeView,
    a: AppraisalView,
)
    requires
        e.payload is Disposition,
        named_status(e.event_type) is Some,
        ordered::<String, GridRightView>(s.grid_rights),
        !(e.event_type == EventType::GridRightBlocked && e.payload->Disposition_0.partial == Some(
            true,
        )),
    ensures
        after(s, e, a) matches Some(n) ==> {
            let p = e.payload->Disposition_0;
            let next = named_status(e.event_type)->0;
            &&& p.right_id matches Some(id) && (right_of(s, id) matches Some(r) && (right_of(n, id) matches Some(
                x,
            ) && {
                &&& moves_shares(r, x, p, e.schema_version, next)
            }))
        },
{
    if let Some(n) = after(s, e, a) {
        lemma_right_follows(s, e, a, n);
    }
}

/// What a disposition does to the money of a buy right: what it uses is positive, is
/// added to what was used and stays within what is reserved, and what it reserves is
/// positive and within what the right offers. A sell right uses and reserves no money.
pub proof fn law_dispositions_move_money(
    s: StrategyStateView,
    e: EventEnvelopeView,
    a: AppraisalView,
)
    requires
        e.payload is Disposition,
        named_status(e.event_type) is Some,
        ordered::<String, GridRightView>(s.grid_rights),
        !(e.event_type == EventType::GridRightBlocked && e.payload->Disposition_0.partial == Some(
            true,
        )),
        e.payload->Disposition_0.right_id matches Some(id) ==> (right_of(s, id) matches Some(r) ==> (
        e.payload->Disposition_0.exercised_budget_delta matches Some(t) ==> (from_parts(
            read_decimal(t),
        ) matches Some(d) ==> d.valid() && r.exercised_budget.valid() && adds_exactly(
            r.exercised_budget,
            d,
        )))),
    ensures
        after(s, e, a) matches Some(n) ==> {
            let p = e.payload->Disposition_0;
            let next = named_status(e.event_type)->0;
            &&& p.right_id matches Some(id) && (right_of(s, id) matches Some(r) && (right_of(n, id) matches Some(
                x,
            ) && {
                let ends = next == GridRightStatus::Released || next == GridRightStatus::Transferred
                    || next == GridRightStatus::Expired || next == GridRightStatus::Revoked;
                let buys = r.direction == Direction::Buy;
                &&& p.exercised_budget_delta is None || !buys ==> x.exercised_budget
                    == r.exercised_budget
                &&& p.exercised_budget_delta matches Some(t) ==> (from_parts(read_decimal(t)) matches Some(
                    d,
                ) && (buys ==> d.units() > 0 && x.exercised_budget.units()
                    == r.exercised_budget.units() + d.units() && (ends || x.exercised_budget.units()
                    <= x.reserved_budget.units())) && (!buys ==> d.units() == 0))
                &&& !ends && (p.reserved_budget is None || !buys) ==> x.reserved_budget
                    == r.reserved_budget
                &&& p.reserved_budget matches Some(t) ==> (from_parts(read_decimal(t)) matches Some(d)
                    && (buys ==> 0 < d.units() <= r.capacity.available_budget.units() && (ends
                    || x.reserved_budget == d)) && (!buys ==> d.units() == 0))
                &&& next == GridRightStatus::Exercised && !in_shares(r)
                    ==> x.exercised_budget.units() == r.capacity.available_budget.units()
                &&& next == GridRightStatus::Revoked ==> (p.revoked_budget matches Some(t) && (
                from_parts(read_decimal(t)) matches Some(d) && (budget_left(x) matches Some(b)
                    && d.units() == b.units())))
            }))
        },
{
    if let Some(n) = after(s, e, a) {
        let c = StrategyStateView { event_count: s.event_count.checked_add(1)->0, ..s };
        lemma_disposed(s, c, e, a, n);
        let p = e.payload->Disposition_0;
        let r = right_of(s, p.right_id->0)->0;
        if let Some(t) = p.exercised_budget_delta {
            if let Some(d) = from_parts(read_decimal(t)) {
                lemma_plus_exact(r.exercised_budget, d);
            }
        }
    }
}

/// What the first disposition of a right records in the current layout splits its
/// capacity into whole units: into what is ordered, what is kept back by the decision,
/// what is blocked before and after it, and a rest of less than one unit.
pub proof fn law_first_dispositions_split_the_capacity(
    s: StrategyStateView,
    e: EventEnvelopeView,
    a: AppraisalView,
)
    requires
        e.payload is Disposition,
        e.schema_version >= 3,
        e.event_type == EventType::GridRightReserved || e.event_type == EventType::GridRightDeferred
            || e.event_type == EventType::GridRightBlocked || e.event_type
            == EventType::GridRightResidualHeld,
        ordered::<String, GridRightView>(s.grid_rights),
        !(e.event_type == EventType::GridRightBlocked && e.payload->Disposition_0.partial == Some(
            true,
        )),
    ensures
        after(s, e, a) matches Some(n) ==> {
            let p = e.payload->Disposition_0;
            let unit = s.audited_standard_quantity as int;
            &&& p.right_id matches Some(id) && (right_of(s, id) matches Some(r) && (right_of(n, id) matches Some(
                x,
            ) && {
                &&& splits_the_capacity(r, x, p, unit, e.event_type)
            }))
        },
{
    if let Some(n) = after(s, e, a) {
        lemma_right_follows(s, e, a, n);
    }
}

/// A partial block names some shares of a sell right, none of them negative and each
/// within what the right was granted as blocked for that reason.
pub proof fn law_partial_blocks_stay_within_the_grant(
    s: StrategyStateView,
    e: EventEnvelopeView,
    a: AppraisalView,
)
    requires
        e.payload is Disposition,
        e.event_type == EventType::GridRightBlocked,
        e.payload->Disposition_0.partial == Some(true),
        ordered::<String, GridRightView>(s.grid_rights),
    ensures
        after(s, e, a) is Some ==> {
            let p = e.payload->Disposition_0;
            &&& p.decision_id is Some
            &&& p.right_id matches Some(id) && (right_of(s, id) matches Some(r) && {
                &&& 0 <= or_none(p.t_plus_one_blocked_quantity)
                    <= r.capacity.t_plus_one_blocked_quantity
                &&& 0 <= or_none(p.risk_blocked_quantity) <= r.capacity.risk_blocked_quantity
                &&& 0 <= or_none(p.no_profit_blocked_quantity)
                    <= r.capacity.no_profit_blocked_quantity
                &&& or_none(p.t_plus_one_blocked_quantity) + or_none(p.risk_blocked_quantity)
                    + or_none(p.no_profit_blocked_quantity) > 0
            })
        },
{
    if let Some(n) = after(s, e, a) {
        let c = StrategyStateView { event_count: s.event_count.checked_add(1)->0, ..s };
        lemma_disposed(s, c, e, a, n);
    }
}

/// What the listed tranches hold free, all of them.
pub open spec fn listed_free(t: Tranches, ids: Seq<Option<Seq<char>>>, n: nat) -> int
    decreases n,
{
    if n == 0 {
        0
    } else {
        listed_free(t, ids, (n - 1) as nat) + lookup::<
            String,
            crate::model::rights::RightTrancheView,
        >(t, ids[n - 1]->0)->0.available_quantity
    }
}

proof fn lemma_listed(t: Tranches, ids: Seq<Option<Seq<char>>>, target: Seq<char>, n: nat)
    requires
        n <= ids.len(),
    ensures
        crate::event::disposition::handed_total(t, ids, target, n) matches Some(x) ==> x.1
            == listed_free(t, ids, n) && forall|k: int|
            0 <= k < n ==> (#[trigger] ids[k] matches Some(id) && (lookup::<
                String,
                crate::model::rights::RightTrancheView,
            >(t, id) matches Some(y) && y.owner_right_id == target)),
    decreases n,
{
    if n > 0 {
        lemma_listed(t, ids, target, (n - 1) as nat);
    }
}

/// A right is handed on with exactly the shares that the listed tranches hold free, all of
/// which the target owns by now.
pub proof fn law_handed_rights_show_their_shares(
    s: StrategyStateView,
    e: EventEnvelopeView,
    a: AppraisalView,
)
    requires
        e.payload is Disposition,
        e.event_type == EventType::GridRightTransferred,
        ordered::<String, GridRightView>(s.grid_rights),
    ensures
        after(s, e, a) is Some ==> {
            let p = e.payload->Disposition_0;
            &&& p.target_right_id is Some && p.tranche_ids is Some
            &&& p.transferred_quantity matches Some(q) && q == listed_free(
                s.right_tranches,
                p.tranche_ids->0,
                p.tranche_ids->0.len(),
            )
            &&& forall|k: int|
                0 <= k < p.tranche_ids->0.len() ==> (#[trigger] p.tranche_ids->0[k] matches Some(id)
                    && (lookup::<String, crate::model::rights::RightTrancheView>(
                    s.right_tranches,
                    id,
                ) matches Some(y) && y.owner_right_id == p.target_right_id->0))
        },
{
    if let Some(n) = after(s, e, a) {
        let c = StrategyStateView { event_count: s.event_count.checked_add(1)->0, ..s };
        lemma_disposed(s, c, e, a, n);
        let p = e.payload->Disposition_0;
        lemma_listed(
            s.right_tranches,
            p.tranche_ids->0,
            p.target_right_id->0,
            p.tranche_ids->0.len(),
        );
    }
}

/// A right that expires shows what becomes of its shares: they are all handed to another
/// right, or all given up with the cycle.
pub proof fn law_expired_rights_show_their_shares(
    s: StrategyStateView,
    e: EventEnvelopeView,
    a: AppraisalView,
)
    requires
        e.payload is Disposition,
        e.event_type == EventType::GridRightExpired,
        e.schema_version >= 2,
        ordered::<String, GridRightView>(s.grid_rights),
    ensures
        after(s, e, a) matches Some(n) ==> {
            let p = e.payload->Disposition_0;
            &&& p.right_id matches Some(id) && (right_of(s, id) matches Some(r) && (right_of(n, id) matches Some(
                x,
            ) && {
                &&& p.reason == Some("CARRIED_TO_DEEPER_RIGHT"@) || p.reason == Some(
                    "GRID_CYCLE_COMPLETED"@,
                )
                &&& p.reason == Some("CARRIED_TO_DEEPER_RIGHT"@) ==> {
                    &&& p.transferred_to_right_id is Some && p.transferred_to_right_id->0
                        != r.right_id
                    &&& p.remaining_quantity == Some(0i64)
                    &&& p.transferred_quantity is Some && p.transferred_quantity
                        == quantity_left(x)
                }
                &&& p.reason == Some("GRID_CYCLE_COMPLETED"@) && (forall|i: int|
                    0 <= i < s.right_tranches.len() ==> (
                    #[trigger] s.right_tranches[i].1).owner_right_id != id)
                    ==> p.remaining_quantity is Some && p.remaining_quantity == quantity_left(x)
            }))
        },
{
    if let Some(n) = after(s, e, a) {
        let c = StrategyStateView { event_count: s.event_count.checked_add(1)->0, ..s };
        lemma_disposed(s, c, e, a, n);
        let p = e.payload->Disposition_0;
        let id = p.right_id->0;
        if forall|i: int|
            0 <= i < s.right_tranches.len() ==> (#[trigger] s.right_tranches[i].1).owner_right_id
                != id {
            lemma_owns_none(s.right_tranches, id, s.right_tranches.len());
        }
        reveal_strlit("CARRIED_TO_DEEPER_RIGHT");
        reveal_strlit("GRID_CYCLE_COMPLETED");
        assert("CARRIED_TO_DEEPER_RIGHT"@.len() != "GRID_CYCLE_COMPLETED"@.len());
    }
}

proof fn lemma_owns_none(t: Tranches, id: Seq<char>, n: nat)
    requires
        n <= t.len(),
        forall|i: int| 0 <= i < t.len() ==> (#[trigger] t[i].1).owner_right_id != id,
    ensures
        crate::event::disposition::owned_left(t, id, n) matches Some(x) && !x.0,
    decreases n,
{
    if n > 0 {
        lemma_owns_none(t, id, (n - 1) as nat);
    }
}

/// A decision is recorded once, on the right that it names, in the unit and the lot size
/// of the run: what was decided, what was offered, and what was blocked before it. Nothing
/// else of the right changes.
pub proof fn law_decisions_are_recorded_once(
    s: StrategyStateView,
    e: EventEnvelopeView,
    a: AppraisalView,
)
    requires
        e.event_type == EventType::GateDecisionMade,
        e.schema_version >= 2,
        ordered::<String, GridRightView>(s.grid_rights),
    ensures
        after(s, e, a) matches Some(n) ==> {
            &&& e.payload is Decision
            &&& e.payload->Decision_0.request matches Some(q) && (
            e.payload->Decision_0.response matches Some(d) && (right_of(s, d.right_id) matches Some(r)
                && (right_of(n, d.right_id) matches Some(x) && {
                &&& changed_at::<String, GridRightView>(
                    s.grid_rights,
                    n.grid_rights,
                    d.right_id,
                    x,
                )
                &&& q.context.standard_quantity == s.audited_standard_quantity
                &&& q.context.lot_size == s.audited_lot_size
                &&& !r.decision_recorded && x.decision_recorded
                &&& x.decided_exercise_quantity == d.outcome.exercised()
                &&& x.decided_defer_quantity == d.outcome.deferred()
                &&& x.decision_algorithm_offered_quantity == q.context.available_quantity
                &&& x.decision_algorithm_authorized_quantity
                    == x.decision_algorithm_offered_quantity + x.decision_pre_blocked_quantity
                &&& d.contract_version >= DECISION_CONTRACT_VERSION
                    ==> x.decision_algorithm_authorized_quantity
                    == q.context.algorithm_authorized_quantity
                &&& d.contract_version < DECISION_CONTRACT_VERSION
                    ==> x.decision_pre_blocked_quantity == 0
                &&& d.contract_version >= WHOLE_UNIT_DECISION_CONTRACT_VERSION
                    ==> x.decision_gross_available_quantity == q.context.gross_available_quantity
                    && x.decision_platform_residual_quantity
                    == q.context.platform_residual_quantity
                &&& d.contract_version < WHOLE_UNIT_DECISION_CONTRACT_VERSION
                    ==> x.decision_gross_available_quantity == q.context.available_quantity
                    && x.decision_platform_residual_quantity == 0
                &&& x.decision_contract_version == d.contract_version
                &&& e.payload->Decision_0.algorithm_succeeded matches Some(b)
                    ==> x.decision_is_algorithm == b
                &&& e.payload->Decision_0.algorithm_succeeded is None ==> q.contract_version
                    < DECISION_CONTRACT_VERSION && x.decision_is_algorithm
                &&& x == (GridRightView {
                    decision_contract_version: x.decision_contract_version,
                    decision_gross_available_quantity: x.decision_gross_available_quantity,
                    decision_platform_residual_quantity: x.decision_platform_residual_quantity,
                    decision_algorithm_authorized_quantity:
                        x.decision_algorithm_authorized_quantity,
                    decision_algorithm_offered_quantity: x.decision_algorithm_offered_quantity,
                    decision_pre_blocked_quantity: x.decision_pre_blocked_quantity,
                    decided_exercise_quantity: x.decided_exercise_quantity,
                    decided_defer_quantity: x.decided_defer_quantity,
                    decision_is_algorithm: x.decision_is_algorithm,
                    decision_recorded: x.decision_recorded,
                    ..r
                })
            })))
            &&& n == (StrategyStateView {
                grid_rights: n.grid_rights,
                event_count: (s.event_count + 1) as u64,
                ..s
            })
        },
{
    if let Some(n) = after(s, e, a) {
        let c = StrategyStateView { event_count: s.event_count.checked_add(1)->0, ..s };
        let p = e.payload->Decision_0;
        let q = p.request->0;
        let d = p.response->0;
        let r = right_of(s, d.right_id)->0;
        let succeeded = crate::event::lifecycle::algorithm_status(p, q.contract_version)->0;
        lemma_changed_at::<String, GridRightView>(
            s.grid_rights,
            d.right_id,
            crate::event::lifecycle::decision_noted(r, q, d, succeeded)->0,
        );
    }
}

/// What the first `n` tranches of a right hold free.
pub open spec fn owned_free(t: Tranches, id: Seq<char>, n: nat) -> int
    decreases n,
{
    if n == 0 {
        0
    } else {
        owned_free(t, id, (n - 1) as nat) + (if t[n - 1].1.owner_right_id == id {
            t[n - 1].1.available_quantity as int
        } else {
            0
        })
    }
}

proof fn lemma_owned_free(t: Tranches, id: Seq<char>, n: nat)
    requires
        n <= t.len(),
    ensures
        crate::event::disposition::owned_left(t, id, n) matches Some(x) ==> x.2 == owned_free(
            t,
            id,
            n,
        ) && (x.0 <==> exists|i: int| 0 <= i < n && (#[trigger] t[i].1).owner_right_id == id),
    decreases n,
{
    if n > 0 {
        lemma_owned_free(t, id, (n - 1) as nat);
        if t[n - 1].1.owner_right_id == id {
            assert(t[n - 1].1.owner_right_id == id);
        }
    }
}

/// A right that expires with its cycle and still owns tranches gives up exactly what they
/// hold free.
pub proof fn law_expired_rights_give_up_their_tranches(
    s: StrategyStateView,
    e: EventEnvelopeView,
    a: AppraisalView,
    i: int,
)
    requires
        e.payload is Disposition,
        e.event_type == EventType::GridRightExpired,
        e.schema_version >= 2,
        ordered::<String, GridRightView>(s.grid_rights),
        e.payload->Disposition_0.reason == Some("GRID_CYCLE_COMPLETED"@),
        0 <= i < s.right_tranches.len(),
        Some(s.right_tranches[i].1.owner_right_id) == e.payload->Disposition_0.right_id,
    ensures
        after(s, e, a) is Some ==> (e.payload->Disposition_0.remaining_quantity matches Some(q) && q
            == owned_free(
            s.right_tranches,
            e.payload->Disposition_0.right_id->0,
            s.right_tranches.len(),
        )),
{
    if let Some(n) = after(s, e, a) {
        let c = StrategyStateView { event_count: s.event_count.checked_add(1)->0, ..s };
        lemma_disposed(s, c, e, a, n);
        let id = e.payload->Disposition_0.right_id->0;
        lemma_owned_free(s.right_tranches, id, s.right_tranches.len());
        assert(s.right_tranches[i].1.owner_right_id == id);
        reveal_strlit("CARRIED_TO_DEEPER_RIGHT");
        reveal_strlit("GRID_CYCLE_COMPLETED");
        assert("CARRIED_TO_DEEPER_RIGHT"@.len() != "GRID_CYCLE_COMPLETED"@.len());
    }
}

} // verus!

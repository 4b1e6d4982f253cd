//! What becomes of a right: kept, blocked, reserved, exercised, released,
//! handed on, expired or revoked.
use crate::arith::{is_whole, whole_units};
use crate::decimal::{from_parts, plus, read_decimal, Decimal};
use crate::decision::{DECISION_CONTRACT_VERSION, WHOLE_UNIT_DECISION_CONTRACT_VERSION};
use crate::event::kinds::EventType;
use crate::event::payload::{EventEnvelope, EventEnvelopeView};
use crate::event::tranches::{right_of, Tranches};
use crate::model::ledger::{StrategyState, StrategyStateView};
use crate::model::market::Direction;
use crate::model::notices::{DispositionNotice, DispositionNoticeView};
use crate::model::rights::{GridRight, GridRightStatus, GridRightView, RightTrancheView};
use crate::rights::{budget_left, quantity_left};
use crate::table::{lookup, with};
use crate::text::{blank, is_blank, text_eq};
use crate::value::Value;
use vstd::prelude::*;

verus! {

/// The status that a kind of event gives a right.
pub open spec fn disposed_status(t: EventType) -> Option<GridRightStatus> {
    match t {
        EventType::GridRightDeferred => Some(GridRightStatus::Deferred),
        EventType::GridRightResidualHeld => Some(GridRightStatus::Residual),
        EventType::GridRightBlocked => Some(GridRightStatus::Blocked),
        EventType::GridRightReserved => Some(GridRightStatus::Reserved),
        EventType::GridRightPartiallyExercised => Some(GridRightStatus::PartiallyExercised),
        EventType::GridRightExercised => Some(GridRightStatus::Exercised),
        EventType::GridRightReleased => Some(GridRightStatus::Released),
        EventType::GridRightTransferred => Some(GridRightStatus::Transferred),
        EventType::GridRightExpired => Some(GridRightStatus::Expired),
        EventType::GridRightRevoked => Some(GridRightStatus::Revoked),
        _ => None,
    }
}

/// The amount that a payload gives.
pub open spec fn read_amount(text: Option<Seq<char>>) -> Option<Decimal> {
    match text {
        Some(t) => from_parts(read_decimal(t)),
        None => None,
    }
}

/// The amount that a payload gives.
pub fn amount_in(text: &Option<String>) -> (r: Option<Decimal>)
    ensures
        r == read_amount(text.deep_view()),
{
    match text {
        Some(t) => Decimal::parse(t.as_str()),
        None => None,
    }
}

/// The sum of what the first `n` tranches of a list hold free, all owned by the
/// target.
pub open spec fn handed_total(
    tranches: Tranches,
    ids: Seq<Option<Seq<char>>>,
    target: Seq<char>,
    n: nat,
) -> Option<(Decimal, i64)>
    decreases n,
{
    if n == 0 {
        Some((Decimal::zero(), 0i64))
    } else {
        match (handed_total(tranches, ids, target, (n - 1) as nat), ids[n - 1]) {
            (Some(sum), Some(id)) => match lookup::<String, RightTrancheView>(tranches, id) {
                None => None,
                Some(t) => if t.owner_right_id != target {
                    None
                } else {
                    match (
                        plus(sum.0, t.available_budget),
                        sum.1.checked_add(t.available_quantity),
                    ) {
                        (Some(b), Some(q)) => Some((b, q)),
                        _ => None,
                    }
                },
            },
            _ => None,
        }
    }
}

proof fn lemma_handed_total_stops(
    tranches: Tranches,
    ids: Seq<Option<Seq<char>>>,
    target: Seq<char>,
    n: nat,
    m: nat,
)
    requires
        n <= m,
        handed_total(tranches, ids, target, n) is None,
    ensures
        handed_total(tranches, ids, target, m) is None,
    decreases m - n,
{
    if n < m {
        lemma_handed_total_stops(tranches, ids, target, n, (m - 1) as nat);
    }
}

/// Whether the amounts of a handover are those of the tranches that the target
/// now owns.
pub open spec fn transfer_agrees(tranches: Tranches, p: DispositionNoticeView) -> bool {
    match (p.target_right_id, p.tranche_ids) {
        (Some(target), Some(ids)) => match (
            handed_total(tranches, ids, target, ids.len()),
            read_amount(p.transferred_budget),
        ) {
            (Some(sum), Some(budget)) => budget.units() == sum.0.units() && p.transferred_quantity
                == Some(sum.1),
            _ => false,
        },
        _ => false,
    }
}

/// Whether the right owns any of the first `n` tranches, and what they hold
/// free. Nothing where a sum leaves its range.
pub open spec fn owned_left(tranches: Tranches, right_id: Seq<char>, n: nat) -> Option<
    (bool, Decimal, i64),
>
    decreases n,
{
    if n == 0 {
        Some((false, Decimal::zero(), 0i64))
    } else {
        match owned_left(tranches, right_id, (n - 1) as nat) {
            None => None,
            Some(x) => {
                let t = tranches[n - 1].1;
                if t.owner_right_id != right_id {
                    Some(x)
                } else {
                    match (
                        plus(x.1, t.available_budget),
                        x.2.checked_add(t.available_quantity),
                    ) {
                        (Some(b), Some(q)) => Some((true, b, q)),
                        _ => None,
                    }
                }
            },
        }
    }
}

proof fn lemma_owned_left_stops(tranches: Tranches, right_id: Seq<char>, n: nat, m: nat)
    requires
        n <= m,
        owned_left(tranches, right_id, n) is None,
    ensures
        owned_left(tranches, right_id, m) is None,
    decreases m - n,
{
    if n < m {
        lemma_owned_left_stops(tranches, right_id, n, (m - 1) as nat);
    }
}

/// Whether a right expires because its cycle is complete.
pub open spec fn cycle_completed(e: EventEnvelopeView, p: DispositionNoticeView) -> bool {
    e.event_type == EventType::GridRightExpired && e.schema_version >= 2 && p.reason == Some(
        "GRID_CYCLE_COMPLETED"@,
    )
}

/// Whether a buy right counts in shares.
pub open spec fn buys_shares(right: GridRightView) -> bool {
    right.direction == Direction::Buy && right.capacity.available_quantity > 0
}

/// A number that a payload may lack.
pub open spec fn or_zero(q: Option<i64>) -> i64 {
    match q {
        Some(n) => n,
        None => 0,
    }
}

/// A right with its decision named, unless it has another one.
pub open spec fn decision_named(right: GridRightView, id: Option<Seq<char>>) -> Option<
    GridRightView,
> {
    match id {
        None => Some(right),
        Some(d) => if right.decision_id is Some && right.decision_id->0 != d {
            None
        } else {
            Some(GridRightView { decision_id: Some(d), ..right })
        },
    }
}

/// A newly granted sell right after a part of it is found blocked.
pub open spec fn partly_blocked(right: GridRightView, p: DispositionNoticeView) -> Option<
    GridRightView,
> {
    let t1 = or_zero(p.t_plus_one_blocked_quantity);
    let risk = or_zero(p.risk_blocked_quantity);
    let no_profit = or_zero(p.no_profit_blocked_quantity);
    if right.status == GridRightStatus::Granted && p.decision_id is Some && right.direction
        == Direction::Sell && t1 >= 0 && risk >= 0 && no_profit >= 0 && t1 + risk + no_profit != 0
        && t1 <= right.capacity.t_plus_one_blocked_quantity && risk
        <= right.capacity.risk_blocked_quantity && no_profit
        <= right.capacity.no_profit_blocked_quantity {
        decision_named(right, p.decision_id)
    } else {
        None
    }
}

/// Whether a status is the first disposition of a granted right.
pub open spec fn first_disposition(next: GridRightStatus) -> bool {
    next == GridRightStatus::Residual || next == GridRightStatus::Deferred || next
        == GridRightStatus::Blocked || next == GridRightStatus::Reserved
}

fn is_first_disposition(next: GridRightStatus) -> (r: bool)
    ensures
        r == first_disposition(next),
{
    matches!(
        next,
        GridRightStatus::Residual
            | GridRightStatus::Deferred
            | GridRightStatus::Blocked
            | GridRightStatus::Reserved
    )
}

/// The quantities of a disposition.
pub struct Shares {
    pub gross: i64,
    pub residual: i64,
    pub authorized: i64,
    pub blocked: i64,
    pub intent: i64,
    pub remaining: i64,
    pub offered: i64,
    pub pre_blocked: i64,
    pub post_blocked: i64,
}

/// The quantities that a payload gives. Before there was evidence on resources
/// everything authorized was offered, and everything blocked was blocked after
/// the decision.
pub open spec fn shares_of(p: DispositionNoticeView, contract: u32) -> Option<Shares> {
    match (
        p.gross_available_quantity,
        p.platform_residual_quantity,
        p.algorithm_authorized_quantity,
        p.platform_blocked_quantity,
        p.order_intent_quantity,
        p.remaining_decision_quantity,
    ) {
        (
            Some(gross),
            Some(residual),
            Some(authorized),
            Some(blocked),
            Some(intent),
            Some(remaining),
        ) => if contract >= DECISION_CONTRACT_VERSION {
            match (
                p.algorithm_offered_quantity,
                p.predecision_blocked_quantity,
                p.postdecision_blocked_quantity,
            ) {
                (Some(offered), Some(pre_blocked), Some(post_blocked)) => Some(
                    Shares {
                        gross,
                        residual,
                        authorized,
                        blocked,
                        intent,
                        remaining,
                        offered,
                        pre_blocked,
                        post_blocked,
                    },
                ),
                _ => None,
            }
        } else {
            Some(
                Shares {
                    gross,
                    residual,
                    authorized,
                    blocked,
                    intent,
                    remaining,
                    offered: authorized,
                    pre_blocked: 0,
                    post_blocked: blocked,
                },
            )
        },
        _ => None,
    }
}

fn shares_in(p: &DispositionNotice, contract: u32) -> (r: Option<Shares>)
    ensures
        r == shares_of(p@, contract),
{
    match (
        p.gross_available_quantity,
        p.platform_residual_quantity,
        p.algorithm_authorized_quantity,
        p.platform_blocked_quantity,
        p.order_intent_quantity,
        p.remaining_decision_quantity,
    ) {
        (
            Some(gross),
            Some(residual),
            Some(authorized),
            Some(blocked),
            Some(intent),
            Some(remaining),
        ) => if contract >= DECISION_CONTRACT_VERSION {
            match (
                p.algorithm_offered_quantity,
                p.predecision_blocked_quantity,
                p.postdecision_blocked_quantity,
            ) {
                (Some(offered), Some(pre_blocked), Some(post_blocked)) => Some(
                    Shares {
                        gross,
                        residual,
                        authorized,
                        blocked,
                        intent,
                        remaining,
                        offered,
                        pre_blocked,
                        post_blocked,
                    },
                ),
                _ => None,
            }
        } else {
            Some(
                Shares {
                    gross,
                    residual,
                    authorized,
                    blocked,
                    intent,
                    remaining,
                    offered: authorized,
                    pre_blocked: 0,
                    post_blocked: blocked,
                },
            )
        },
        _ => None,
    }
}

/// Whether the quantities add up: the capacity is the authorized part and a
/// remainder, the authorized part what was offered and what was blocked before,
/// the offer what the algorithm trades and keeps, and what it trades the order
/// and what was blocked after.
pub open spec fn shares_add_up(right: GridRightView, x: Shares, unit: i64) -> bool {
    &&& right.decision_contract_version >= WHOLE_UNIT_DECISION_CONTRACT_VERSION
    &&& unit > 0
    &&& x.gross == right.decision_gross_available_quantity
    &&& x.residual == right.decision_platform_residual_quantity
    &&& x.authorized == right.decision_algorithm_authorized_quantity
    &&& x.authorized + x.residual == x.gross
    &&& x.offered + x.pre_blocked == x.authorized
    &&& right.decided_exercise_quantity + right.decided_defer_quantity == x.offered
    &&& x.intent + x.post_blocked == right.decided_exercise_quantity
    &&& x.pre_blocked + x.post_blocked == x.blocked
    &&& 0 <= x.residual < unit
    &&& x.offered >= 0
    &&& x.pre_blocked >= 0
    &&& x.post_blocked >= 0
    &&& x.blocked >= 0
    &&& x.intent >= 0
    &&& x.remaining >= 0
    &&& right.decided_defer_quantity + x.blocked == x.remaining
}

/// Whether the quantities are whole units.
pub open spec fn shares_are_whole(right: GridRightView, x: Shares, unit: i64) -> bool {
    let u = unit as int;
    &&& whole_units(x.authorized as int, u)
    &&& whole_units(x.offered as int, u)
    &&& whole_units(x.pre_blocked as int, u)
    &&& whole_units(right.decided_exercise_quantity as int, u)
    &&& whole_units(right.decided_defer_quantity as int, u)
    &&& whole_units(x.blocked as int, u)
    &&& whole_units(x.post_blocked as int, u)
    &&& whole_units(x.intent as int, u)
    &&& whole_units(x.remaining as int, u)
}

/// Whether the quantities fit the status.
pub open spec fn shares_fit(right: GridRightView, x: Shares, next: GridRightStatus) -> bool {
    match next {
        GridRightStatus::Deferred => right.decided_exercise_quantity == 0 && x.post_blocked == 0
            && x.intent == 0,
        GridRightStatus::Residual => x.authorized == 0 && x.residual > 0
            && right.decided_exercise_quantity == 0 && right.decided_defer_quantity == 0
            && x.blocked == 0 && x.intent == 0 && x.remaining == 0,
        GridRightStatus::Blocked => x.intent == 0 && x.post_blocked
            == right.decided_exercise_quantity,
        GridRightStatus::Reserved => x.intent > 0,
        _ => true,
    }
}

/// A right after the quantities of its disposition are recorded.
pub open spec fn shares_recorded(
    s: StrategyStateView,
    e: EventEnvelopeView,
    p: DispositionNoticeView,
    right: GridRightView,
    next: GridRightStatus,
) -> Option<GridRightView> {
    if e.schema_version >= 3 && first_disposition(next) {
        match shares_of(p, right.decision_contract_version) {
            None => None,
            Some(x) => if shares_add_up(right, x, s.audited_standard_quantity) && shares_are_whole(
                right,
                x,
                s.audited_standard_quantity,
            ) && shares_fit(right, x, next) {
                Some(
                    GridRightView {
                        decision_platform_blocked_quantity: x.blocked,
                        decision_algorithm_offered_quantity: x.offered,
                        decision_pre_blocked_quantity: x.pre_blocked,
                        decision_post_blocked_quantity: x.post_blocked,
                        decision_intent_quantity: x.intent,
                        decision_remaining_quantity: x.remaining,
                        ..right
                    },
                )
            } else {
                None
            },
        }
    } else {
        Some(right)
    }
}

/// A right after money is reserved, and whether any was.
pub open spec fn budget_reserved(right: GridRightView, text: Option<Seq<char>>) -> Option<
    (GridRightView, bool),
> {
    match text {
        None => Some((right, false)),
        Some(t) => match from_parts(read_decimal(t)) {
            None => None,
            Some(value) => if right.direction != Direction::Buy {
                if value.units() != 0 {
                    None
                } else {
                    Some((right, false))
                }
            } else if value.units() <= 0 || value.units()
                > right.capacity.available_budget.units() {
                None
            } else {
                Some((GridRightView { reserved_budget: value, ..right }, true))
            },
        },
    }
}

/// The shares of a right that can be reserved.
pub open spec fn reservable(right: GridRightView) -> i64 {
    if buys_shares(right) {
        right.capacity.available_quantity
    } else {
        right.capacity.eligible_quantity
    }
}

/// A right after shares are reserved, and whether any were.
pub open spec fn quantity_reserved(right: GridRightView, value: Option<i64>) -> Option<
    (GridRightView, bool),
> {
    match value {
        None => Some((right, false)),
        Some(q) => if right.direction == Direction::Buy && !buys_shares(right) {
            if q != 0 {
                None
            } else {
                Some((right, false))
            }
        } else if q <= 0 || q > reservable(right) {
            None
        } else {
            Some((GridRightView { reserved_quantity: q, ..right }, true))
        },
    }
}

/// A right after money is used, and whether any was.
pub open spec fn budget_exercised(right: GridRightView, text: Option<Seq<char>>) -> Option<
    (GridRightView, bool),
> {
    match text {
        None => Some((right, false)),
        Some(t) => match from_parts(read_decimal(t)) {
            None => None,
            Some(delta) => if right.direction != Direction::Buy {
                if delta.units() != 0 {
                    None
                } else {
                    Some((right, false))
                }
            } else if delta.units() <= 0 {
                None
            } else {
                match plus(right.exercised_budget, delta) {
                    None => None,
                    Some(exercised) => if exercised.units() > right.reserved_budget.units() {
                        None
                    } else {
                        Some((GridRightView { exercised_budget: exercised, ..right }, true))
                    },
                }
            },
        },
    }
}

/// A right after shares are used, and whether any were.
pub open spec fn quantity_exercised(right: GridRightView, value: Option<i64>) -> Option<
    (GridRightView, bool),
> {
    match value {
        None => Some((right, false)),
        Some(q) => if right.direction == Direction::Buy && !buys_shares(right) {
            if q != 0 {
                None
            } else {
                Some((right, false))
            }
        } else if q <= 0 {
            None
        } else {
            match right.exercised_quantity.checked_add(q) {
                None => None,
                Some(exercised) => if exercised > right.reserved_quantity {
                    None
                } else {
                    Some((GridRightView { exercised_quantity: exercised, ..right }, true))
                },
            }
        },
    }
}

/// Whether a right has been used up.
pub open spec fn fully_consumed(right: GridRightView) -> bool {
    match right.direction {
        Direction::Buy => if buys_shares(right) {
            right.exercised_quantity == right.capacity.available_quantity
        } else {
            right.exercised_budget.units() == right.capacity.available_budget.units()
        },
        Direction::Sell => {
            &&& right.exercised_quantity == right.capacity.eligible_quantity
            &&& right.capacity.t_plus_one_blocked_quantity == 0
            &&& right.capacity.risk_blocked_quantity == 0
            &&& right.capacity.no_profit_blocked_quantity == 0
        },
    }
}

/// Whether a revocation takes exactly what is left.
pub open spec fn revocation_agrees(
    right: GridRightView,
    p: DispositionNoticeView,
    budget: Decimal,
    quantity: i64,
) -> bool {
    match (read_amount(p.revoked_budget), p.revoked_quantity) {
        (Some(b), Some(q)) => {
            &&& b.units() == budget.units()
            &&& q == quantity
            &&& right.direction == Direction::Buy && !buys_shares(right) ==> q == 0
            &&& right.direction == Direction::Buy && buys_shares(right) ==> b.units() == 0
            &&& right.direction == Direction::Sell ==> b.units() == 0
        },
        _ => false,
    }
}

/// Whether an expiry reports exactly what is left or handed on.
pub open spec fn expiry_agrees(
    right: GridRightView,
    p: DispositionNoticeView,
    budget: Decimal,
    quantity: i64,
    owned: Option<(Decimal, i64)>,
) -> bool {
    match (p.reason, read_amount(p.remaining_budget), p.remaining_quantity) {
        (Some(reason), Some(b), Some(q)) => if reason == "CARRIED_TO_DEEPER_RIGHT"@ {
            match (
                p.transferred_to_right_id,
                read_amount(p.transferred_budget),
                p.transferred_quantity,
            ) {
                (Some(target), Some(tb), Some(tq)) => {
                    &&& !blank(target)
                    &&& target != right.right_id
                    &&& b.units() == 0
                    &&& q == 0
                    &&& tb.units() == budget.units()
                    &&& tq == quantity
                },
                _ => false,
            }
        } else if reason == "GRID_CYCLE_COMPLETED"@ {
            match owned {
                Some(x) => b.units() == x.0.units() && q == x.1,
                None => b.units() == budget.units() && q == quantity,
            }
        } else {
            false
        },
        _ => false,
    }
}

/// Whether the right, with its amounts changed, may take the status.
pub open spec fn disposition_agrees(
    right: GridRightView,
    e: EventEnvelopeView,
    p: DispositionNoticeView,
    next: GridRightStatus,
    reserved: bool,
    exercised: bool,
    owned: Option<(Decimal, i64)>,
) -> bool {
    &&& next == GridRightStatus::Reserved ==> reserved
    &&& e.schema_version >= 3 && next == GridRightStatus::Reserved ==> right.reserved_quantity
        == right.decision_intent_quantity
    &&& next == GridRightStatus::PartiallyExercised || next == GridRightStatus::Exercised
        ==> exercised
    &&& next == GridRightStatus::Exercised ==> fully_consumed(right)
    &&& budget_left(right) matches Some(budget)
    &&& quantity_left(right) matches Some(quantity)
    &&& next == GridRightStatus::Revoked ==> revocation_agrees(right, p, budget, quantity)
    &&& next == GridRightStatus::Expired && e.schema_version >= 2 ==> expiry_agrees(
        right,
        p,
        budget,
        quantity,
        owned,
    )
}

/// A right with its new status; what it no longer needs is no longer reserved.
pub open spec fn with_new_status(right: GridRightView, next: GridRightStatus) -> GridRightView {
    if next == GridRightStatus::Released || next == GridRightStatus::Transferred || next
        == GridRightStatus::Expired || next == GridRightStatus::Revoked {
        GridRightView {
            status: next,
            reserved_budget: right.exercised_budget,
            reserved_quantity: right.exercised_quantity,
            ..right
        }
    } else {
        GridRightView { status: next, ..right }
    }
}

/// A right after its amounts change, and whether anything was reserved and used.
pub open spec fn amounts_changed(right: GridRightView, p: DispositionNoticeView) -> Option<
    (GridRightView, bool, bool),
> {
    match budget_reserved(right, p.reserved_budget) {
        None => None,
        Some(a) => match quantity_reserved(a.0, p.reserved_quantity) {
            None => None,
            Some(b) => match budget_exercised(b.0, p.exercised_budget_delta) {
                None => None,
                Some(c) => match quantity_exercised(c.0, p.exercised_quantity_delta) {
                    None => None,
                    Some(d) => Some((d.0, a.1 || b.1, c.1 || d.1)),
                },
            },
        },
    }
}

/// A right after its disposition.
pub open spec fn right_disposed(
    s: StrategyStateView,
    e: EventEnvelopeView,
    p: DispositionNoticeView,
    right: GridRightView,
    next: GridRightStatus,
    owned: Option<(Decimal, i64)>,
) -> Option<GridRightView> {
    if !right.status.may_become(next) {
        None
    } else {
        match decision_named(right, p.decision_id) {
            None => None,
            Some(named) => if first_disposition(next) && named.decision_id is None {
                None
            } else {
                match shares_recorded(s, e, p, named, next) {
                    None => None,
                    Some(recorded) => match amounts_changed(recorded, p) {
                        None => None,
                        Some(x) => if disposition_agrees(x.0, e, p, next, x.1, x.2, owned) {
                            Some(with_new_status(x.0, next))
                        } else {
                            None
                        },
                    },
                }
            },
        }
    }
}

/// What a completed cycle leaves in the tranches of a right: nothing where the
/// event is another, where a sum leaves its range, or where there are none.
pub open spec fn cycle_left(
    s: StrategyStateView,
    e: EventEnvelopeView,
    p: DispositionNoticeView,
    right_id: Seq<char>,
) -> Option<Option<(Decimal, i64)>> {
    if cycle_completed(e, p) {
        match owned_left(s.right_tranches, right_id, s.right_tranches.len()) {
            None => None,
            Some(x) => if x.0 {
                Some(Some((x.1, x.2)))
            } else {
                Some(None)
            },
        }
    } else {
        Some(None)
    }
}

/// The state after the disposition of a right.
pub open spec fn disposed(
    s: StrategyStateView,
    e: EventEnvelopeView,
    p: DispositionNoticeView,
    next: GridRightStatus,
) -> Option<StrategyStateView> {
    match p.right_id {
        None => None,
        Some(right_id) => if next == GridRightStatus::Transferred && !transfer_agrees(
            s.right_tranches,
            p,
        ) {
            None
        } else {
            match (cycle_left(s, e, p, right_id), right_of(s, right_id)) {
                (Some(owned), Some(right)) => {
                    let after = if next == GridRightStatus::Blocked && p.partial == Some(true) {
                        partly_blocked(right, p)
                    } else {
                        right_disposed(s, e, p, right, next, owned)
                    };
                    match after {
                        Some(n) => Some(
                            StrategyStateView {
                                grid_rights: with::<String, GridRightView>(
                                    s.grid_rights,
                                    right_id,
                                    n,
                                ),
                                ..s
                            },
                        ),
                        None => None,
                    }
                },
                _ => None,
            }
        },
    }
}

fn zero_if_none(q: Option<i64>) -> (r: i64)
    ensures
        r == or_zero(q),
{
    match q {
        Some(n) => n,
        None => 0,
    }
}

impl GridRight {
    fn name_decision(&mut self, id: &Option<String>) -> (r: bool)
        ensures
            match decision_named(old(self)@, id.deep_view()) {
                Some(n) => r && final(self)@ == n,
                None => !r,
            },
    {
        match id {
            None => true,
            Some(d) => {
                let another = match &self.decision_id {
                    Some(existing) => !text_eq(existing.as_str(), d.as_str()),
                    None => false,
                };
                if another {
                    return false;
                }
                self.decision_id = Some(d.dup());
                true
            },
        }
    }

    fn block_partly(&mut self, p: &DispositionNotice) -> (r: bool)
        ensures
            match partly_blocked(old(self)@, p@) {
                Some(n) => r && final(self)@ == n,
                None => !r,
            },
    {
        let t1: i64 = zero_if_none(p.t_plus_one_blocked_quantity);
        let risk: i64 = zero_if_none(p.risk_blocked_quantity);
        let no_profit: i64 = zero_if_none(p.no_profit_blocked_quantity);
        if !matches!(self.status, GridRightStatus::Granted) || p.decision_id.is_none() || !matches!(
            self.direction,
            Direction::Sell
        ) || t1 < 0 || risk < 0 || no_profit < 0 || (t1 == 0 && risk == 0 && no_profit == 0) || t1
            > self.capacity.t_plus_one_blocked_quantity || risk
            > self.capacity.risk_blocked_quantity || no_profit
            > self.capacity.no_profit_blocked_quantity {
            return false;
        }
        self.name_decision(&p.decision_id)
    }

    fn shares_do_add_up(&self, x: &Shares, unit: i64) -> (r: bool)
        ensures
            r == shares_add_up(self@, *x, unit),
    {
        self.decision_contract_version >= WHOLE_UNIT_DECISION_CONTRACT_VERSION && unit > 0
            && x.gross == self.decision_gross_available_quantity && x.residual
            == self.decision_platform_residual_quantity && x.authorized
            == self.decision_algorithm_authorized_quantity && sums_to(
            x.authorized,
            x.residual,
            x.gross,
        ) && sums_to(x.offered, x.pre_blocked, x.authorized) && sums_to(
            self.decided_exercise_quantity,
            self.decided_defer_quantity,
            x.offered,
        ) && sums_to(x.intent, x.post_blocked, self.decided_exercise_quantity) && sums_to(
            x.pre_blocked,
            x.post_blocked,
            x.blocked,
        ) && 0 <= x.residual && x.residual < unit && x.offered >= 0 && x.pre_blocked >= 0
            && x.post_blocked >= 0 && x.blocked >= 0 && x.intent >= 0 && x.remaining >= 0
            && sums_to(self.decided_defer_quantity, x.blocked, x.remaining)
    }

    fn shares_do_fit(&self, x: &Shares, next: GridRightStatus) -> (r: bool)
        ensures
            r == shares_fit(self@, *x, next),
    {
        match next {
            GridRightStatus::Deferred => self.decided_exercise_quantity == 0 && x.post_blocked == 0
                && x.intent == 0,
            GridRightStatus::Residual => x.authorized == 0 && x.residual > 0
                && self.decided_exercise_quantity == 0 && self.decided_defer_quantity == 0
                && x.blocked == 0 && x.intent == 0 && x.remaining == 0,
            GridRightStatus::Blocked => x.intent == 0 && x.post_blocked
                == self.decided_exercise_quantity,
            GridRightStatus::Reserved => x.intent > 0,
            _ => true,
        }
    }

    fn record_shares(
        &mut self,
        event: &EventEnvelope,
        p: &DispositionNotice,
        next: GridRightStatus,
        unit: i64,
        Ghost(s): Ghost<StrategyStateView>,
    ) -> (r: bool)
        requires
            s.audited_standard_quantity == unit,
        ensures
            match shares_recorded(s, event@, p@, old(self)@, next) {
                Some(n) => r && final(self)@ == n,
                None => !r,
            },
    {
        if event.schema_version < 3 || !is_first_disposition(next) {
            return true;
        }
        let x = match shares_in(p, self.decision_contract_version) {
            Some(x) => x,
            None => {
                return false;
            },
        };
        if !self.shares_do_add_up(&x, unit) {
            return false;
        }
        if !is_whole(x.authorized, unit) || !is_whole(x.offered, unit) || !is_whole(
            x.pre_blocked,
            unit,
        ) || !is_whole(self.decided_exercise_quantity, unit) || !is_whole(
            self.decided_defer_quantity,
            unit,
        ) || !is_whole(x.blocked, unit) || !is_whole(x.post_blocked, unit) || !is_whole(
            x.intent,
            unit,
        ) || !is_whole(x.remaining, unit) {
            return false;
        }
        if !self.shares_do_fit(&x, next) {
            return false;
        }
        self.decision_platform_blocked_quantity = x.blocked;
        self.decision_algorithm_offered_quantity = x.offered;
        self.decision_pre_blocked_quantity = x.pre_blocked;
        self.decision_post_blocked_quantity = x.post_blocked;
        self.decision_intent_quantity = x.intent;
        self.decision_remaining_quantity = x.remaining;
        true
    }

    fn in_shares(&self) -> (r: bool)
        ensures
            r == buys_shares(self@),
    {
        matches!(self.direction, Direction::Buy) && self.capacity.available_quantity > 0
    }

    fn reserve_budget(&mut self, text: &Option<String>) -> (r: Option<bool>)
        ensures
            match budget_reserved(old(self)@, text.deep_view()) {
                Some(x) => r == Some(x.1) && final(self)@ == x.0,
                None => r is None,
            },
    {
        let value = match text {
            None => {
                return Some(false);
            },
            Some(t) => match Decimal::parse(t.as_str()) {
                Some(value) => value,
                None => {
                    return None;
                },
            },
        };
        if !matches!(self.direction, Direction::Buy) {
            if !value.is_zero() {
                return None;
            }
            return Some(false);
        }
        if !value.is_positive() || self.capacity.available_budget.below(&value) {
            return None;
        }
        self.reserved_budget = value;
        Some(true)
    }

    fn reserve_quantity(&mut self, value: Option<i64>) -> (r: Option<bool>)
        ensures
            match quantity_reserved(old(self)@, value) {
                Some(x) => r == Some(x.1) && final(self)@ == x.0,
                None => r is None,
            },
    {
        let q: i64 = match value {
            Some(q) => q,
            None => {
                return Some(false);
            },
        };
        let in_shares = self.in_shares();
        if matches!(self.direction, Direction::Buy) && !in_shares {
            if q != 0 {
                return None;
            }
            return Some(false);
        }
        let most: i64 = if in_shares {
            self.capacity.available_quantity
        } else {
            self.capacity.eligible_quantity
        };
        if q <= 0 || q > most {
            return None;
        }
        self.reserved_quantity = q;
        Some(true)
    }

    fn exercise_budget(&mut self, text: &Option<String>) -> (r: Option<bool>)
        ensures
            match budget_exercised(old(self)@, text.deep_view()) {
                Some(x) => r == Some(x.1) && final(self)@ == x.0,
                None => r is None,
            },
    {
        let delta = match text {
            None => {
                return Some(false);
            },
            Some(t) => match Decimal::parse(t.as_str()) {
                Some(value) => value,
                None => {
                    return None;
                },
            },
        };
        if !matches!(self.direction, Direction::Buy) {
            if !delta.is_zero() {
                return None;
            }
            return Some(false);
        }
        if !delta.is_positive() {
            return None;
        }
        match self.exercised_budget.checked_add(delta) {
            None => None,
            Some(exercised) => {
                if self.reserved_budget.below(&exercised) {
                    return None;
                }
                self.exercised_budget = exercised;
                Some(true)
            },
        }
    }

    fn exercise_quantity(&mut self, value: Option<i64>) -> (r: Option<bool>)
        ensures
            match quantity_exercised(old(self)@, value) {
                Some(x) => r == Some(x.1) && final(self)@ == x.0,
                None => r is None,
            },
    {
        let q: i64 = match value {
            Some(q) => q,
            None => {
                return Some(false);
            },
        };
        if matches!(self.direction, Direction::Buy) && !self.in_shares() {
            if q != 0 {
                return None;
            }
            return Some(false);
        }
        if q <= 0 {
            return None;
        }
        match self.exercised_quantity.checked_add(q) {
            None => None,
            Some(exercised) => {
                if exercised > self.reserved_quantity {
                    return None;
                }
                self.exercised_quantity = exercised;
                Some(true)
            },
        }
    }

    fn change_amounts(&mut self, p: &DispositionNotice) -> (r: Option<(bool, bool)>)
        ensures
            match amounts_changed(old(self)@, p@) {
                Some(x) => r == Some((x.1, x.2)) && final(self)@ == x.0,
                None => r is None,
            },
    {
        let a = match self.reserve_budget(&p.reserved_budget) {
            Some(b) => b,
            None => {
                return None;
            },
        };
        let b = match self.reserve_quantity(p.reserved_quantity) {
            Some(b) => b,
            None => {
                return None;
            },
        };
        let c = match self.exercise_budget(&p.exercised_budget_delta) {
            Some(b) => b,
            None => {
                return None;
            },
        };
        let d = match self.exercise_quantity(p.exercised_quantity_delta) {
            Some(b) => b,
            None => {
                return None;
            },
        };
        Some((a || b, c || d))
    }

    fn is_fully_consumed(&self) -> (r: bool)
        ensures
            r == fully_consumed(self@),
    {
        match self.direction {
            Direction::Buy => if self.in_shares() {
                self.exercised_quantity == self.capacity.available_quantity
            } else {
                self.exercised_budget.equals(&self.capacity.available_budget)
            },
            Direction::Sell => self.exercised_quantity == self.capacity.eligible_quantity
                && self.capacity.t_plus_one_blocked_quantity == 0
                && self.capacity.risk_blocked_quantity == 0
                && self.capacity.no_profit_blocked_quantity == 0,
        }
    }

    fn revocation_does_agree(&self, p: &DispositionNotice, budget: &Decimal, quantity: i64) -> (r:
        bool)
        ensures
            r == revocation_agrees(self@, p@, *budget, quantity),
    {
        match (amount_in(&p.revoked_budget), p.revoked_quantity) {
            (Some(b), Some(q)) => {
                let buys = matches!(self.direction, Direction::Buy);
                let in_shares = self.in_shares();
                b.equals(budget) && q == quantity && (!buys || in_shares || q == 0) && (!buys
                    || !in_shares || b.is_zero()) && (buys || b.is_zero())
            },
            _ => false,
        }
    }

    fn expiry_does_agree(
        &self,
        p: &DispositionNotice,
        budget: &Decimal,
        quantity: i64,
        owned: &Option<(Decimal, i64)>,
    ) -> (r: bool)
        ensures
            r == expiry_agrees(self@, p@, *budget, quantity, *owned),
    {
        let (reason, b, q): (&String, Decimal, i64) = match (
            &p.reason,
            amount_in(&p.remaining_budget),
            p.remaining_quantity,
        ) {
            (Some(reason), Some(b), Some(q)) => (reason, b, q),
            _ => {
                return false;
            },
        };
        if text_eq(reason.as_str(), "CARRIED_TO_DEEPER_RIGHT") {
            match (
                &p.transferred_to_right_id,
                amount_in(&p.transferred_budget),
                p.transferred_quantity,
            ) {
                (Some(target), Some(tb), Some(tq)) => !is_blank(target.as_str()) && !text_eq(
                    target.as_str(),
                    self.right_id.as_str(),
                ) && b.is_zero() && q == 0 && tb.equals(budget) && tq == quantity,
                _ => false,
            }
        } else if text_eq(reason.as_str(), "GRID_CYCLE_COMPLETED") {
            match owned {
                Some(x) => b.equals(&x.0) && q == x.1,
                None => b.equals(budget) && q == quantity,
            }
        } else {
            false
        }
    }

    fn disposition_does_agree(
        &self,
        event: &EventEnvelope,
        p: &DispositionNotice,
        next: GridRightStatus,
        reserved: bool,
        exercised: bool,
        owned: &Option<(Decimal, i64)>,
    ) -> (r: bool)
        ensures
            r == disposition_agrees(self@, event@, p@, next, reserved, exercised, *owned),
    {
        let reserves = matches!(next, GridRightStatus::Reserved);
        if reserves && !reserved {
            return false;
        }
        if event.schema_version >= 3 && reserves && self.reserved_quantity
            != self.decision_intent_quantity {
            return false;
        }
        if matches!(next, GridRightStatus::PartiallyExercised | GridRightStatus::Exercised)
            && !exercised {
            return false;
        }
        if matches!(next, GridRightStatus::Exercised) && !self.is_fully_consumed() {
            return false;
        }
        match (self.checked_remaining_budget(), self.checked_remaining_quantity()) {
            (Some(budget), Some(quantity)) => {
                if matches!(next, GridRightStatus::Revoked) && !self.revocation_does_agree(
                    p,
                    &budget,
                    quantity,
                ) {
                    return false;
                }
                if matches!(next, GridRightStatus::Expired) && event.schema_version >= 2
                    && !self.expiry_does_agree(p, &budget, quantity, owned) {
                    return false;
                }
                true
            },
            _ => false,
        }
    }

    fn dispose(
        &mut self,
        event: &EventEnvelope,
        p: &DispositionNotice,
        next: GridRightStatus,
        unit: i64,
        owned: &Option<(Decimal, i64)>,
        Ghost(s): Ghost<StrategyStateView>,
    ) -> (r: bool)
        requires
            s.audited_standard_quantity == unit,
        ensures
            match right_disposed(s, event@, p@, old(self)@, next, *owned) {
                Some(n) => r && final(self)@ == n,
                None => !r,
            },
    {
        if !self.status.can_transition(next) {
            return false;
        }
        if !self.name_decision(&p.decision_id) {
            return false;
        }
        if is_first_disposition(next) && self.decision_id.is_none() {
            return false;
        }
        if !self.record_shares(event, p, next, unit, Ghost(s)) {
            return false;
        }
        let (reserved, exercised) = match self.change_amounts(p) {
            Some(x) => x,
            None => {
                return false;
            },
        };
        if !self.disposition_does_agree(event, p, next, reserved, exercised, owned) {
            return false;
        }
        self.status = next;
        if matches!(
            next,
            GridRightStatus::Released
                | GridRightStatus::Transferred
                | GridRightStatus::Expired
                | GridRightStatus::Revoked
        ) {
            self.reserved_budget = self.exercised_budget;
            self.reserved_quantity = self.exercised_quantity;
        }
        true
    }
}

/// Whether two numbers add up to a third.
fn sums_to(a: i64, b: i64, c: i64) -> (r: bool)
    ensures
        r == (a + b == c),
{
    match a.checked_add(b) {
        Some(sum) => sum == c,
        None => false,
    }
}

impl StrategyState {
    fn handed(&self, ids: &Vec<Option<String>>, target: &str) -> (r: Option<(Decimal, i64)>)
        ensures
            r == handed_total(
                self@.right_tranches,
                ids.deep_view(),
                target@,
                ids.deep_view().len(),
            ),
    {
        let ghost list = ids.deep_view();
        let mut budget = Decimal::nil();
        let mut quantity: i64 = 0;
        let mut i: usize = 0;
        while i < ids.len()
            invariant
                i <= ids.len(),
                list == ids.deep_view(),
                handed_total(self@.right_tranches, list, target@, i as nat) == Some(
                    (budget, quantity),
                ),
            decreases ids.len() - i,
        {
            assert(list[i as int] == ids[i as int].deep_view());
            let next: Option<(Decimal, i64)> = match &ids[i] {
                None => None,
                Some(id) => match self.right_tranches.get(id) {
                    None => None,
                    Some(t) => if !text_eq(t.owner_right_id.as_str(), target) {
                        None
                    } else {
                        match (
                            budget.checked_add(t.available_budget),
                            quantity.checked_add(t.available_quantity),
                        ) {
                            (Some(b), Some(q)) => Some((b, q)),
                            _ => None,
                        }
                    },
                },
            };
            match next {
                Some(x) => {
                    budget = x.0;
                    quantity = x.1;
                },
                None => {
                    proof {
                        lemma_handed_total_stops(
                            self@.right_tranches,
                            list,
                            target@,
                            (i + 1) as nat,
                            list.len(),
                        );
                    }
                    return None;
                },
            }
            i = i + 1;
        }
        Some((budget, quantity))
    }

    fn transfer_does_agree(&self, p: &DispositionNotice) -> (r: bool)
        ensures
            r == transfer_agrees(self@.right_tranches, p@),
    {
        match (&p.target_right_id, &p.tranche_ids) {
            (Some(target), Some(ids)) => match (
                self.handed(ids, target.as_str()),
                amount_in(&p.transferred_budget),
                p.transferred_quantity,
            ) {
                (Some(sum), Some(budget), Some(q)) => budget.equals(&sum.0) && q == sum.1,
                _ => false,
            },
            _ => false,
        }
    }

    fn left_in_tranches(&self, right_id: &str) -> (r: Option<(bool, Decimal, i64)>)
        ensures
            r == owned_left(self@.right_tranches, right_id@, self@.right_tranches.len()),
    {
        let ghost all = self@.right_tranches;
        let mut any = false;
        let mut budget = Decimal::nil();
        let mut quantity: i64 = 0;
        let mut i: usize = 0;
        while i < self.right_tranches.len()
            invariant
                i <= all.len(),
                all == self@.right_tranches,
                all == self.right_tranches@,
                owned_left(all, right_id@, i as nat) == Some((any, budget, quantity)),
            decreases all.len() - i,
        {
            let t = self.right_tranches.value_at(i);
            assert(t@ == all[i as int].1);
            if text_eq(t.owner_right_id.as_str(), right_id) {
                match (
                    budget.checked_add(t.available_budget),
                    quantity.checked_add(t.available_quantity),
                ) {
                    (Some(b), Some(q)) => {
                        any = true;
                        budget = b;
                        quantity = q;
                    },
                    _ => {
                        proof {
                            lemma_owned_left_stops(all, right_id@, (i + 1) as nat, all.len());
                        }
                        return None;
                    },
                }
            }
            i = i + 1;
        }
        Some((any, budget, quantity))
    }

    fn left_by_cycle(&self, event: &EventEnvelope, p: &DispositionNotice, right_id: &str) -> (r:
        Option<Option<(Decimal, i64)>>)
        ensures
            r == cycle_left(self@, event@, p@, right_id@),
    {
        let named = match &p.reason {
            Some(reason) => text_eq(reason.as_str(), "GRID_CYCLE_COMPLETED"),
            None => false,
        };
        if event.event_type == EventType::GridRightExpired && event.schema_version >= 2 && named {
            match self.left_in_tranches(right_id) {
                None => None,
                Some(x) => if x.0 {
                    Some(Some((x.1, x.2)))
                } else {
                    Some(None)
                },
            }
        } else {
            Some(None)
        }
    }

    pub(crate) fn dispose_right(
        &mut self,
        event: &EventEnvelope,
        p: &DispositionNotice,
        next: GridRightStatus,
    ) -> (r: bool)
        ensures
            match disposed(old(self)@, event@, p@, next) {
                Some(n) => r && final(self)@ == n,
                None => !r,
            },
    {
        let right_id = match &p.right_id {
            Some(id) => id,
            None => {
                return false;
            },
        };
        if matches!(next, GridRightStatus::Transferred) && !self.transfer_does_agree(p) {
            return false;
        }
        let owned = match self.left_by_cycle(event, p, right_id.as_str()) {
            Some(owned) => owned,
            None => {
                return false;
            },
        };
        let mut right = match self.grid_rights.get(right_id) {
            Some(right) => right.dup(),
            None => {
                return false;
            },
        };
        let partial = match p.partial {
            Some(b) => b,
            None => false,
        };
        let taken = if matches!(next, GridRightStatus::Blocked) && partial {
            right.block_partly(p)
        } else {
            right.dispose(
                event,
                p,
                next,
                self.audited_standard_quantity,
                &owned,
                Ghost(self@),
            )
        };
        if !taken {
            return false;
        }
        self.grid_rights.put(right_id.dup(), right);
        true
    }
}

/// A disposition only follows the life of a right: its status changes as it
/// may, unless a part of it is found blocked, and nothing of what it was granted
/// changes.
pub proof fn law_dispositions_follow_the_life_of_a_right(
    s: StrategyStateView,
    e: EventEnvelopeView,
    p: DispositionNoticeView,
    right: GridRightView,
    next: GridRightStatus,
    owned: Option<(Decimal, i64)>,
)
    requires
        right_disposed(s, e, p, right, next, owned) is Some,
    ensures
        ({
            let n = right_disposed(s, e, p, right, next, owned)->0;
            &&& right.status.may_become(next)
            &&& n.status == next
            &&& n.right_id == right.right_id
            &&& n.capacity == right.capacity
            &&& n.direction == right.direction
            &&& n.grid_index == right.grid_index
            &&& n.exercised_quantity >= right.exercised_quantity
            &&& right.decision_id is Some ==> n.decision_id == right.decision_id
        }),
{
}

/// The quantities that a disposition records split the capacity: every share is
/// in the order, kept, blocked or left over.
pub proof fn law_recorded_shares_split_the_capacity(right: GridRightView, x: Shares, unit: i64)
    requires
        shares_add_up(right, x, unit),
    ensures
        x.gross == x.intent + right.decided_defer_quantity + x.blocked + x.residual,
        x.remaining == x.gross - x.intent - x.residual,
{
}

} // verus!

//! What holds of every event.
use crate::event::disposition::{disposed, disposed_status};
use crate::event::fills::{fill_booked, fill_received, notified_status, order_of};
use crate::event::kinds::EventType;
use crate::event::payload::{EventEnvelopeView, PayloadView};
use crate::event::reduce::{applied, grid_reduced, on_grid, on_order, order_reduced, run_reduced};
use crate::event::tranches::{
    all_handed_over, balance_move, handed_over, law_movements_keep_order, Tranches,
};
use crate::model::ledger::{OrderStatus, OrderView, StrategyStateView};
use crate::model::notices::AppraisalView;
use crate::model::rights::{GridRightView, RightTrancheView};
use crate::rights::tranche_in_order;
use crate::table::{lemma_with, lemma_with_other, lookup, ordered, with};
use vstd::prelude::*;

verus! {

/// The rights of a state by their identifiers.
pub type Rights = Seq<(Seq<char>, GridRightView)>;

/// The orders of a state by their identifiers.
pub type Orders = Seq<(Seq<char>, OrderView)>;

/// Whether every tranche is in order: what was minted is the sum of what it was
/// used for.
pub open spec fn tranches_sound(t: Tranches) -> bool {
    &&& ordered::<String, RightTrancheView>(t)
    &&& forall|i: int| 0 <= i < t.len() ==> tranche_in_order(#[trigger] t[i].1)
}

/// Whether a right that has come to its end is still there, with the same end.
pub open spec fn end_kept(before: Rights, after: Rights, id: Seq<char>) -> bool {
    (lookup::<String, GridRightView>(before, id) matches Some(x) && x.status.final_status()) ==> (
    lookup::<String, GridRightView>(after, id) matches Some(y) && y.status
        == lookup::<String, GridRightView>(before, id)->0.status)
}

/// Whether every right that has come to its end stays there.
pub open spec fn rights_kept(before: Rights, after: Rights) -> bool {
    ordered::<String, GridRightView>(before) ==> {
        &&& ordered::<String, GridRightView>(after)
        &&& forall|id: Seq<char>| #[trigger] end_kept(before, after, id)
    }
}

/// Whether an order that is done is still there, with the same status.
pub open spec fn outcome_kept(before: Orders, after: Orders, id: Seq<char>) -> bool {
    (lookup::<String, OrderView>(before, id) matches Some(x) && x.status.terminal()) ==> (lookup::<
        String,
        OrderView,
    >(after, id) matches Some(y) && y.status == lookup::<String, OrderView>(
        before,
        id,
    )->0.status)
}

/// Whether every order that is done stays so.
pub open spec fn orders_kept(before: Orders, after: Orders) -> bool {
    ordered::<String, OrderView>(before) ==> {
        &&& ordered::<String, OrderView>(after)
        &&& forall|id: Seq<char>| #[trigger] outcome_kept(before, after, id)
    }
}

/// Whether a state continues another one.
pub open spec fn continues(s: StrategyStateView, n: StrategyStateView) -> bool {
    &&& n.run_id == s.run_id
    &&& n.symbol == s.symbol
    &&& n.event_count == s.event_count
    &&& tranches_sound(s.right_tranches) ==> tranches_sound(n.right_tranches)
    &&& rights_kept(s.grid_rights, n.grid_rights)
    &&& orders_kept(s.orders, n.orders)
}

proof fn lemma_tranche_stored(t: Tranches, id: Seq<char>, x: RightTrancheView)
    requires
        tranches_sound(t),
        tranche_in_order(x),
    ensures
        tranches_sound(with::<String, RightTrancheView>(t, id, x)),
{
    lemma_with::<String, RightTrancheView>(t, id, x);
    let after = with::<String, RightTrancheView>(t, id, x);
    let r = crate::table::rank::<String, RightTrancheView>(t, id) as int;
    crate::table::lemma_rank_bound::<String, RightTrancheView>(t, id);
    assert forall|i: int| 0 <= i < after.len() implies tranche_in_order(#[trigger] after[i].1) by {
        if r < t.len() && t[r].0 == id {
            assert(after[i].1 == if i == r {
                x
            } else {
                t[i].1
            });
        } else {
            assert(after[i].1 == if i == r {
                x
            } else if i < r {
                t[i].1
            } else {
                t[i - 1].1
            });
        }
    }
}

proof fn lemma_right_stored(t: Rights, id: Seq<char>, x: GridRightView)
    requires
        lookup::<String, GridRightView>(t, id) matches Some(y) ==> !y.status.final_status()
            || x.status == y.status,
    ensures
        rights_kept(t, with::<String, GridRightView>(t, id, x)),
{
    if ordered::<String, GridRightView>(t) {
        lemma_with::<String, GridRightView>(t, id, x);
        assert forall|j: Seq<char>| #[trigger]
            end_kept(t, with::<String, GridRightView>(t, id, x), j) by {
            if j != id {
                lemma_with_other::<String, GridRightView>(t, id, x, j);
            }
        }
    }
}

proof fn lemma_order_stored(t: Orders, id: Seq<char>, x: OrderView)
    requires
        lookup::<String, OrderView>(t, id) matches Some(y) ==> !y.status.terminal() || x.status
            == y.status,
    ensures
        orders_kept(t, with::<String, OrderView>(t, id, x)),
{
    if ordered::<String, OrderView>(t) {
        lemma_with::<String, OrderView>(t, id, x);
        assert forall|j: Seq<char>| #[trigger]
            outcome_kept(t, with::<String, OrderView>(t, id, x), j) by {
            if j != id {
                lemma_with_other::<String, OrderView>(t, id, x, j);
            }
        }
    }
}

proof fn lemma_handovers_sound(
    t: Tranches,
    ids: Seq<Option<Seq<char>>>,
    source_id: Seq<char>,
    target_id: Seq<char>,
    target: GridRightView,
    n: nat,
)
    requires
        tranches_sound(t),
        all_handed_over(t, ids, source_id, target_id, target, n) is Some,
    ensures
        tranches_sound(all_handed_over(t, ids, source_id, target_id, target, n)->0),
    decreases n,
{
    if n > 0 {
        lemma_handovers_sound(t, ids, source_id, target_id, target, (n - 1) as nat);
        let before = all_handed_over(t, ids, source_id, target_id, target, (n - 1) as nat)->0;
        let id = ids[n - 1]->0;
        let x = lookup::<String, RightTrancheView>(before, id)->0;
        lemma_tranche_stored(before, id, handed_over(x, source_id, target_id, target)->0);
    }
}

proof fn lemma_grid_continues(s: StrategyStateView, e: EventEnvelopeView, a: AppraisalView)
    requires
        grid_reduced(s, e, a) is Some,
    ensures
        continues(s, grid_reduced(s, e, a)->0),
{
    reveal(grid_reduced);
    match e.payload {
        PayloadView::Right(x) => {
            lemma_right_stored(s.grid_rights, x.right_id, x);
        },
        PayloadView::Tranche(x) => {
            if tranches_sound(s.right_tranches) {
                lemma_tranche_stored(s.right_tranches, x.tranche_id, x);
            }
        },
        PayloadView::Transfer(x) => {
            let target = crate::event::tranches::right_of(s, x.target_right_id->0)->0;
            let ids = x.tranche_ids->0;
            if tranches_sound(s.right_tranches) {
                lemma_handovers_sound(
                    s.right_tranches,
                    ids,
                    x.source_right_id->0,
                    x.target_right_id->0,
                    target,
                    ids.len(),
                );
            }
        },
        PayloadView::Balance(x) => {
            let items = x.allocations->0;
            if tranches_sound(s.right_tranches) {
                law_movements_keep_order(
                    s.right_tranches,
                    items,
                    x.right_id->0,
                    balance_move(e.event_type)->0,
                    x.reversal_from_grid,
                    items.len(),
                );
            }
        },
        PayloadView::Disposition(x) => {
            let id = x.right_id->0;
            let n = disposed(s, e, x, disposed_status(e.event_type)->0)->0;
            lemma_disposition(s, e, a);
        },
        _ => {},
    }
}

proof fn lemma_disposition(s: StrategyStateView, e: EventEnvelopeView, a: AppraisalView)
    requires
        e.payload is Disposition,
        grid_reduced(s, e, a) is Some,
    ensures
        continues(s, grid_reduced(s, e, a)->0),
{
    reveal(grid_reduced);
    let p = e.payload->Disposition_0;
    let id = p.right_id->0;
    let next = disposed_status(e.event_type)->0;
    let right = crate::event::tranches::right_of(s, id)->0;
    let owned = crate::event::disposition::cycle_left(s, e, p, id)->0;
    if next == crate::model::rights::GridRightStatus::Blocked && p.partial == Some(true) {
        lemma_right_stored(
            s.grid_rights,
            id,
            crate::event::disposition::partly_blocked(right, p)->0,
        );
    } else {
        lemma_right_stored(
            s.grid_rights,
            id,
            crate::event::disposition::right_disposed(s, e, p, right, next, owned)->0,
        );
    }
}

proof fn lemma_fill_continues(
    s: StrategyStateView,
    e: EventEnvelopeView,
    next: OrderStatus,
    a: AppraisalView,
)
    requires
        e.payload is Fill,
        fill_received(s, e, e.payload->Fill_0, next, a) is Some,
    ensures
        continues(s, fill_received(s, e, e.payload->Fill_0, next, a)->0),
{
    let p = e.payload->Fill_0;
    let fill = p.fill->0;
    let index = crate::event::levels::small_index(p.grid_index)->0;
    if !crate::table::holds_key::<String, ()>(s.processed_fills, fill.fill_id) {
        let order = order_of(s, fill.order_id)->0;
        let b = fill_booked(s, e, order, fill, index, a)->0;
        assert(b.orders == s.orders && b.right_tranches == s.right_tranches && b.grid_rights
            == s.grid_rights && b.run_id == s.run_id && b.symbol == s.symbol && b.event_count
            == s.event_count);
        let x = crate::event::fills::fill_amounts(s, order, fill, next == OrderStatus::Filled)->0;
        lemma_order_stored(
            s.orders,
            fill.order_id,
            crate::event::fills::order_filled(order, fill.direction, x, next),
        );
    }
}

proof fn lemma_order_continues(s: StrategyStateView, e: EventEnvelopeView, a: AppraisalView)
    requires
        order_reduced(s, e, a) is Some,
    ensures
        continues(s, order_reduced(s, e, a)->0),
{
    reveal(order_reduced);
    match e.payload {
        PayloadView::Intent(x) => {
            if !crate::table::holds_key::<String, OrderView>(s.orders, x.order_id) {
                lemma_order_stored(s.orders, x.order_id, x);
            }
        },
        PayloadView::OrderAt(x) => {
            let id = x.order_id->0;
            let order = order_of(s, id)->0;
            let after = order_reduced(s, e, a)->0;
            if e.event_type == EventType::OrderSubmitted {
                lemma_order_stored(
                    s.orders,
                    id,
                    OrderView { status: OrderStatus::Submitted, ..order },
                );
            } else {
                let next = notified_status(e.event_type)->0;
                let noted = if next == OrderStatus::CancelPending {
                    crate::event::fills::cancel_noted(order, e, x.reason)->0
                } else {
                    order
                };
                lemma_order_stored(s.orders, id, noted);
                lemma_order_stored(s.orders, id, OrderView { status: next, ..noted });
                lemma_order_stored(
                    s.orders,
                    id,
                    OrderView {
                        status: next,
                        reserved_cash_remaining: crate::decimal::Decimal::zero(),
                        reserved_quantity_remaining: 0,
                        ..noted
                    },
                );
            }
        },
        PayloadView::Fill(x) => {
            if e.event_type == EventType::OrderFilled {
                lemma_fill_continues(s, e, OrderStatus::Filled, a);
            } else {
                lemma_fill_continues(s, e, OrderStatus::PartiallyFilled, a);
            }
        },
        _ => {},
    }
}

proof fn lemma_run_continues(s: StrategyStateView, e: EventEnvelopeView, a: AppraisalView)
    requires
        run_reduced(s, e, a) is Some,
    ensures
        continues(s, run_reduced(s, e, a)->0),
{
    reveal(run_reduced);
}

/// Every event continues the run: it keeps its identity, each of its tranches
/// stays in order, and what has come to its end stays there.
pub proof fn law_events_continue_the_run(
    s: StrategyStateView,
    e: EventEnvelopeView,
    a: AppraisalView,
    n: StrategyStateView,
)
    requires
        applied(s, e, a) == Ok::<StrategyStateView, crate::event::reduce::EventError>(n),
    ensures
        n.event_count == s.event_count + 1,
        n.run_id == s.run_id,
        n.symbol == s.symbol,
        tranches_sound(s.right_tranches) ==> tranches_sound(n.right_tranches),
        rights_kept(s.grid_rights, n.grid_rights),
        orders_kept(s.orders, n.orders),
{
    let c = StrategyStateView { event_count: s.event_count.checked_add(1)->0, ..s };
    if e.event_type == EventType::GateDecisionMade && e.schema_version >= 2 {
        let p = e.payload->Decision_0;
        let r = p.response->0;
        let q = p.request->0;
        let right = crate::event::tranches::right_of(c, r.right_id)->0;
        let succeeded = crate::event::lifecycle::algorithm_status(p, q.contract_version)->0;
        lemma_right_stored(
            c.grid_rights,
            r.right_id,
            crate::event::lifecycle::decision_noted(right, q, r, succeeded)->0,
        );
    } else if on_grid(e.payload) {
        if grid_reduced(c, e, a) is Some {
            lemma_grid_continues(c, e, a);
        }
    } else if on_order(e.payload) {
        if order_reduced(c, e, a) is Some {
            lemma_order_continues(c, e, a);
        }
    } else if run_reduced(c, e, a) is Some {
        lemma_run_continues(c, e, a);
    }
}

} // verus!

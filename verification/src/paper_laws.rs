//! What holds of every paper broker: what its fills cost, what it freezes, and what it
//! refuses.
use crate::clock::Day;
use crate::decimal::{
    adds_exactly, lemma_minus_exact, lemma_of_parts, lemma_part_of_one, lemma_plus_exact,
    lemma_pow10_add, lemma_pow10_positive, lemma_times_exact, lemma_times_whole, minus,
    multiplies_exactly, plus, pow10, rounded_to, subtracts_exactly, times, Decimal, Rounding,
    MAX_MANTISSA, MAX_SCALE,
};
use crate::execution::{
    all_booked, all_guarded, answered, booked, cancelled, drawn_bps, fill_price, held_open, no_loss,
    planned_fills, released, reported, rolled, submitted, Booked, ExecutionReportView,
    PaperAppraisalView, PaperError, PaperView,
};
use crate::model::ledger::{AccountSnapshotView, LotQuantityAllocationView, OrderIntentView};
use crate::model::market::Direction;
use crate::model::notices::FillCharges;
use crate::model::paper::{FillAppraisalView, FillReportView};
use crate::model::settings::ConfigView;
use crate::table::{lemma_with, lookup, ordered};
use crate::text::{inserted_text, sorted_texts, without_text};
use vstd::prelude::*;

verus! {

/// Whether no sum or product of a fill has to be rounded.
pub open spec fn books_exactly(
    b: Booked,
    direction: Direction,
    fill: FillReportView,
    charges: FillCharges,
) -> bool {
    &&& fill.price.valid()
    &&& charges.commission.valid()
    &&& charges.tax.valid()
    &&& b.snapshot.cash.available.valid()
    &&& b.snapshot.cash.total_fees.valid()
    &&& b.totals.notional.valid()
    &&& b.totals.commission.valid()
    &&& multiplies_exactly(fill.price, Decimal::whole(fill.quantity as int))
    &&& adds_exactly(charges.commission, charges.tax)
    &&& adds_exactly(b.totals.commission, charges.commission)
    &&& (times(fill.price, Decimal::whole(fill.quantity as int)) is Some && plus(
        charges.commission,
        charges.tax,
    ) is Some) ==> {
        let v = times(fill.price, Decimal::whole(fill.quantity as int))->0;
        let f = plus(charges.commission, charges.tax)->0;
        &&& adds_exactly(b.totals.notional, v)
        &&& adds_exactly(b.snapshot.cash.total_fees, f)
        &&& direction == Direction::Buy ==> adds_exactly(v, f) && (plus(v, f) matches Some(c)
            ==> subtracts_exactly(b.snapshot.cash.available, c))
        &&& direction == Direction::Sell ==> subtracts_exactly(v, f) && (minus(v, f) matches Some(p)
            ==> adds_exactly(b.snapshot.cash.available, p))
    }
}

/// What a fill of this direction takes from the shares, or gives to them.
pub open spec fn signed(direction: Direction, n: int) -> int {
    if direction == Direction::Buy {
        n
    } else {
        -n
    }
}

/// A sell fill on paper pays in the price of its shares without commission and tax, a
/// buy fill pays out the price with both, and both are added to the fees. Bought
/// shares count as bought today, sold ones leave what can be sold. So it is where no
/// sum has to be rounded.
pub proof fn law_paper_fills_are_paid(
    b: Booked,
    direction: Direction,
    fill: FillReportView,
    charges: FillCharges,
)
    requires
        books_exactly(b, direction, fill, charges),
    ensures
        booked(b, direction, fill, charges) matches Some(t) ==> {
            let s = b.snapshot;
            let n = t.snapshot;
            &&& direction == Direction::Sell ==> n.cash.available.units()
                == s.cash.available.units() + fill.price.units() * fill.quantity
                - charges.commission.units() - charges.tax.units()
            &&& direction == Direction::Buy ==> n.cash.available.units()
                == s.cash.available.units() - fill.price.units() * fill.quantity
                - charges.commission.units() - charges.tax.units()
            &&& n.cash.total_fees.units() == s.cash.total_fees.units() + charges.commission.units()
                + charges.tax.units()
            &&& n.cash.available.valid() && n.cash.total_fees.valid()
            &&& n.cash.frozen == s.cash.frozen
            &&& n.position.frozen_sell == s.position.frozen_sell
            &&& n.position.total == s.position.total + signed(direction, fill.quantity as int)
            &&& direction == Direction::Buy ==> n.position.today_bought == s.position.today_bought
                + fill.quantity && n.position.sellable == s.position.sellable
            &&& direction == Direction::Sell ==> n.position.sellable == s.position.sellable
                - fill.quantity && n.position.today_bought == s.position.today_bought
            &&& n.cumulative_filled_quantity == s.cumulative_filled_quantity + fill.quantity
            &&& n.open_order_ids == s.open_order_ids
            &&& t.totals.notional.valid() && t.totals.commission.valid()
            &&& t.totals.notional.units() == b.totals.notional.units() + fill.price.units()
                * fill.quantity
            &&& t.totals.commission.units() == b.totals.commission.units()
                + charges.commission.units()
        },
{
    let v = times(fill.price, Decimal::whole(fill.quantity as int))->0;
    let f = plus(charges.commission, charges.tax)->0;
    lemma_times_whole(fill.price, fill.quantity as int);
    lemma_plus_exact(charges.commission, charges.tax);
    lemma_plus_exact(b.totals.commission, charges.commission);
    lemma_plus_exact(b.totals.notional, v);
    lemma_plus_exact(b.snapshot.cash.total_fees, f);
    if direction == Direction::Buy {
        lemma_plus_exact(v, f);
        lemma_minus_exact(b.snapshot.cash.available, plus(v, f)->0);
    } else {
        lemma_minus_exact(v, f);
        lemma_plus_exact(b.snapshot.cash.available, minus(v, f)->0);
    }
}

/// What the shares of the first `n` fills come to at their prices.
pub open spec fn value_of_fills(fills: Seq<FillReportView>, n: nat) -> int
    decreases n,
{
    if n == 0 {
        0
    } else {
        value_of_fills(fills, (n - 1) as nat) + fills[n - 1].price.units() * fills[n - 1].quantity
    }
}

/// The shares of the first `n` fills.
pub open spec fn shares_of_fills(fills: Seq<FillReportView>, n: nat) -> int
    decreases n,
{
    if n == 0 {
        0
    } else {
        shares_of_fills(fills, (n - 1) as nat) + fills[n - 1].quantity
    }
}

/// What the first `n` fills are charged.
pub open spec fn charged_for(said: Seq<FillAppraisalView>, n: nat) -> int
    decreases n,
{
    if n == 0 {
        0
    } else {
        charged_for(said, (n - 1) as nat) + said[n - 1].charges->0.commission.units()
            + said[n - 1].charges->0.tax.units()
    }
}

/// Whether none of the first `n` fills has to be rounded.
pub open spec fn all_exact(
    s: AccountSnapshotView,
    direction: Direction,
    fills: Seq<FillReportView>,
    said: Seq<FillAppraisalView>,
    n: nat,
) -> bool
    decreases n,
{
    n == 0 || (all_exact(s, direction, fills, said, (n - 1) as nat) && (all_booked(
        s,
        direction,
        fills,
        said,
        (n - 1) as nat,
    ) matches Some(b) ==> (n <= said.len() ==> (said[n - 1].charges matches Some(c)
        ==> books_exactly(b, direction, fills[n - 1], c)))))
}

/// Over any fills, available cash and fees together change by the price of the shares
/// alone, the fees by what is charged, and the shares by those of the fills.
pub proof fn law_paper_fills_conserve_money(
    s: AccountSnapshotView,
    direction: Direction,
    fills: Seq<FillReportView>,
    said: Seq<FillAppraisalView>,
    n: nat,
)
    requires
        n <= fills.len(),
        s.cash.available.valid(),
        s.cash.total_fees.valid(),
        all_exact(s, direction, fills, said, n),
    ensures
        all_booked(s, direction, fills, said, n) matches Some(b) ==> {
            let t = b.snapshot;
            &&& t.cash.available.units() + t.cash.total_fees.units() == s.cash.available.units()
                + s.cash.total_fees.units() - signed(direction, value_of_fills(fills, n))
            &&& t.cash.total_fees.units() == s.cash.total_fees.units() + charged_for(said, n)
            &&& t.position.total == s.position.total + signed(direction, shares_of_fills(fills, n))
            &&& t.position.sellable + t.position.today_bought == s.position.sellable
                + s.position.today_bought + signed(direction, shares_of_fills(fills, n))
            &&& t.cumulative_filled_quantity == s.cumulative_filled_quantity + shares_of_fills(
                fills,
                n,
            )
            &&& t.cash.frozen == s.cash.frozen
            &&& t.position.frozen_sell == s.position.frozen_sell
            &&& t.open_order_ids == s.open_order_ids
        },
    decreases n,
{
    if n > 0 {
        law_paper_fills_conserve_money(s, direction, fills, said, (n - 1) as nat);
        if all_booked(s, direction, fills, said, n) is Some {
            let b = all_booked(s, direction, fills, said, (n - 1) as nat)->0;
            law_paper_fills_are_paid(b, direction, fills[n - 1], said[n - 1].charges->0);
        }
    }
}

/// A number rounded up or down to fewer places is on that side of it, by less than one
/// in the last place.
pub proof fn lemma_tick(a: Decimal, dp: nat)
    requires
        a.valid(),
        dp <= MAX_SCALE,
    ensures
        0 <= rounded_to(a, dp, Rounding::ToPositiveInfinity).units() - a.units() < pow10(
            (MAX_SCALE - dp) as nat,
        ),
        0 <= a.units() - rounded_to(a, dp, Rounding::ToNegativeInfinity).units() < pow10(
            (MAX_SCALE - dp) as nat,
        ),
{
    lemma_pow10_positive((MAX_SCALE - dp) as nat);
    if a.s() > dp {
        let k = (a.s() - dp) as nat;
        let q = pow10(k);
        let rest = pow10((MAX_SCALE - a.s()) as nat);
        lemma_pow10_positive(k);
        lemma_pow10_positive((MAX_SCALE - a.s()) as nat);
        lemma_pow10_add(k, (MAX_SCALE - a.s()) as nat);
        assert((k + (MAX_SCALE - a.s()) as nat) as nat == (MAX_SCALE - dp) as nat);
        let m = a.m();
        let up = -((-m) / q);
        let down = m / q;
        assert(down * q <= m < down * q + q && up * q - q < m <= up * q && -MAX_MANTISSA <= down
            <= MAX_MANTISSA && -MAX_MANTISSA <= up <= MAX_MANTISSA) by (nonlinear_arith)
            requires
                q >= 1,
                up == -((-m) / q),
                down == m / q,
                -MAX_MANTISSA <= m <= MAX_MANTISSA,
        ;
        lemma_of_parts(up, dp);
        lemma_of_parts(down, dp);
        assert(0 <= up * (q * rest) - m * rest < q * rest) by (nonlinear_arith)
            requires
                up * q - q < m <= up * q,
                rest >= 1,
        ;
        assert(0 <= m * rest - down * (q * rest) < q * rest) by (nonlinear_arith)
            requires
                down * q <= m < down * q + q,
                rest >= 1,
        ;
    }
}

/// A buy fills at the limit raised by the slippage and a sell at the limit lowered by
/// it, at the next price on the worse side. So it is where the product needs no
/// rounding of its own.
pub proof fn law_fills_slip_against_the_order(c: ConfigView, limit: Decimal)
    requires
        limit.valid(),
        c.slippage_rate.valid(),
        c.price_scale <= MAX_SCALE,
        0 <= c.slippage_rate.units() < Decimal::one().units(),
        plus(Decimal::one(), c.slippage_rate) matches Some(f) ==> multiplies_exactly(limit, f),
        minus(Decimal::one(), c.slippage_rate) matches Some(f) ==> multiplies_exactly(limit, f),
    ensures
        ({
            let w = pow10(MAX_SCALE as nat);
            let tick = pow10((MAX_SCALE - c.price_scale) as nat);
            &&& fill_price(c, Direction::Buy, limit) matches Some(p) && 0 <= p.units() * w
                - limit.units() * (w + c.slippage_rate.units()) < tick * w
            &&& fill_price(c, Direction::Sell, limit) matches Some(p) && 0 <= limit.units() * (w
                - c.slippage_rate.units()) - p.units() * w < tick * w
        }),
{
    lemma_of_parts(1, 0);
    lemma_part_of_one(c.slippage_rate);
    lemma_pow10_positive(MAX_SCALE as nat);
    let w = pow10(MAX_SCALE as nat);
    let tick = pow10((MAX_SCALE - c.price_scale) as nat);
    let up = plus(Decimal::one(), c.slippage_rate)->0;
    let down = minus(Decimal::one(), c.slippage_rate)->0;
    assert(Decimal::one().units() == w);
    lemma_times_exact(limit, up);
    lemma_times_exact(limit, down);
    let a = times(limit, up)->0;
    let b = times(limit, down)->0;
    lemma_tick(a, c.price_scale as nat);
    lemma_tick(b, c.price_scale as nat);
    let p = fill_price(c, Direction::Buy, limit)->0.units();
    let q = fill_price(c, Direction::Sell, limit)->0.units();
    let au = a.units();
    let bu = b.units();
    assert(0 <= p * w - au * w < tick * w) by (nonlinear_arith)
        requires
            0 <= p - au < tick,
            w >= 1,
    ;
    assert(0 <= bu * w - q * w < tick * w) by (nonlinear_arith)
        requires
            0 <= bu - q < tick,
            w >= 1,
    ;
}

/// Only an order to sell is held open, as the draw for it says. What is not held open
/// fills at one price: in two parts where it is large enough and the draw for it says
/// so, the first of the whole lots in half of it, and in one part otherwise.
pub proof fn law_orders_fill_as_drawn(c: ConfigView, intent: OrderIntentView)
    requires
        c.lot_size > 0,
        intent.quantity > 0,
        planned_fills(c, intent) is Some,
    ensures
        ({
            let fills = planned_fills(c, intent)->0;
            let held = intent.direction == Direction::Sell && drawn_bps(
                c.paper.seed,
                intent.intent_id,
                "hold-open"@,
            ) < c.paper.hold_open_probability_bps;
            let parted = intent.quantity >= 2 * c.lot_size && drawn_bps(
                c.paper.seed,
                intent.intent_id,
                "partial"@,
            ) < c.paper.partial_fill_bps;
            &&& held ==> fills.len() == 0
            &&& !held && parted ==> fills.len() == 2 && {
                &&& 0 < 2 * fills[0].quantity <= intent.quantity
                &&& intent.quantity < 2 * fills[0].quantity + 2 * c.lot_size
                &&& fills[0].quantity as int % c.lot_size as int == 0
                &&& fills[1].quantity == intent.quantity - fills[0].quantity
                &&& !fills[0].final_fill && fills[1].final_fill
            }
            &&& !held && !parted ==> fills.len() == 1 && fills[0].quantity == intent.quantity
                && fills[0].final_fill
            &&& forall|i: int|
                0 <= i < fills.len() ==> fill_price(c, intent.direction, intent.limit_price) == Some(
                    (#[trigger] fills[i]).price,
                )
        }),
{
    let h = intent.quantity as int / 2;
    let l = c.lot_size as int;
    let k = h / l;
    assert(h >= l ==> k * l > 0 && k * l <= h < k * l + l) by (nonlinear_arith)
        requires
            l > 0,
            h >= 0,
            k == h / l,
    ;
    vstd::arithmetic::div_mod::lemma_mod_multiples_basic(k, l);
}

/// An order is rejected where the draw for it says so; what is accepted afterwards
/// causes no loss, and what would cause one is rejected.
pub proof fn law_orders_are_rejected_as_drawn(
    c: ConfigView,
    intent: OrderIntentView,
    a: PaperAppraisalView,
)
    ensures
        drawn_bps(c.paper.seed, intent.intent_id, "reject"@) < c.paper.reject_probability_bps ==> (
        answered(c, intent, a) matches Some(r) && r is Rejected),
        answered(c, intent, a) matches Some(r) ==> !(r is Cancelled) && (r is Accepted ==> {
            &&& drawn_bps(c.paper.seed, intent.intent_id, "reject"@)
                >= c.paper.reject_probability_bps
            &&& planned_fills(c, intent) == Some(r->fills)
            &&& no_loss(c, intent, r->fills, a)
        }),
        drawn_bps(c.paper.seed, intent.intent_id, "reject"@) >= c.paper.reject_probability_bps && (
        planned_fills(c, intent) matches Some(fills) && no_loss(c, intent, fills, a)) ==> (answered(
            c,
            intent,
            a,
        ) matches Some(r) && r is Accepted),
{
}

/// Whether no number of a part of a fill has to be rounded.
pub open spec fn part_is_exact(price: Decimal, part: LotQuantityAllocationView, fee: Decimal) -> bool {
    &&& price.valid() && part.cost_basis.valid() && fee.valid()
    &&& multiplies_exactly(price, Decimal::whole(part.quantity as int))
    &&& times(price, Decimal::whole(part.quantity as int)) matches Some(v) ==> subtracts_exactly(
        v,
        part.cost_basis,
    ) && (minus(v, part.cost_basis) matches Some(g) ==> subtracts_exactly(g, fee))
}

proof fn lemma_guarded_before(
    fills: Seq<FillReportView>,
    said: Seq<FillAppraisalView>,
    n: nat,
    k: nat,
)
    requires
        k <= n,
        all_guarded(fills, said, n) is Some,
    ensures
        all_guarded(fills, said, k) is Some,
    decreases n - k,
{
    if k < n {
        lemma_guarded_before(fills, said, (n - 1) as nat, k);
    }
}

/// A sell that is not refused fills every part at its worst price or better, and at
/// what the part cost with its fees or more.
pub proof fn law_guarded_sells_gain(
    c: ConfigView,
    intent: OrderIntentView,
    fills: Seq<FillReportView>,
    a: PaperAppraisalView,
    k: int,
    i: int,
)
    requires
        intent.direction == Direction::Sell,
        no_loss(c, intent, fills, a),
        0 <= k < fills.len(),
        a.fills[k].allocations matches Some(parts) ==> 0 <= i < parts.len() && (
        a.fills[k].fee_split matches Some(fees) ==> i < fees.len() && part_is_exact(
            fills[k].price,
            parts[i],
            fees[i],
        )),
    ensures
        ({
            let part = a.fills[k].allocations->0[i];
            &&& a.fills[k].allocations is Some && a.fills[k].fee_split is Some
            &&& fills[k].price.units() >= part.worst_fill_price.units()
            &&& fills[k].price.units() * part.quantity >= part.cost_basis.units()
                + a.fills[k].fee_split->0[i].units()
        }),
{
    lemma_guarded_before(fills, a.fills, fills.len(), (k + 1) as nat);
    assert(all_guarded(fills, a.fills, (k + 1) as nat) is Some);
    let parts = a.fills[k].allocations->0;
    let fees = a.fills[k].fee_split->0;
    let part = parts[i];
    lemma_times_whole(fills[k].price, part.quantity as int);
    let v = times(fills[k].price, Decimal::whole(part.quantity as int))->0;
    lemma_minus_exact(v, part.cost_basis);
    lemma_minus_exact(minus(v, part.cost_basis)->0, fees[i]);
    assert(crate::execution::part_gains(fills[k].price, parts[i], fees[i]));
}

/// The fills of a sell that is not refused come to its quantity, and each of its lots
/// and its terms are there.
pub proof fn law_guarded_sells_are_whole(
    c: ConfigView,
    intent: OrderIntentView,
    fills: Seq<FillReportView>,
    a: PaperAppraisalView,
)
    requires
        intent.direction == Direction::Sell,
        no_loss(c, intent, fills, a),
    ensures
        intent.target_lot_allocations.len() > 0,
        intent.profit_guard_policy matches Some(p)
            && crate::model::ledger::profit_guard_policy_alike(p, crate::policy::policy_of(c)),
        intent.profit_guard_version == a.profit_guard_version,
        fills.len() > 0 ==> shares_of_fills(fills, fills.len()) == intent.quantity,
        fills.len() == 0 ==> forall|i: int|
            0 <= i < intent.target_lot_allocations.len() ==> (
            #[trigger] intent.target_lot_allocations[i]).worst_case_profit.units() >= 0,
{
    if fills.len() > 0 {
        lemma_guarded_shares(fills, a.fills, fills.len());
    }
}

proof fn lemma_guarded_shares(fills: Seq<FillReportView>, said: Seq<FillAppraisalView>, n: nat)
    ensures
        all_guarded(fills, said, n) matches Some(t) ==> t.quantity == shares_of_fills(fills, n),
    decreases n,
{
    if n > 0 {
        lemma_guarded_shares(fills, said, (n - 1) as nat);
    }
}

proof fn lemma_without(list: Seq<Seq<char>>, t: Seq<char>, x: Seq<char>)
    ensures
        without_text(list, t).contains(x) <==> x != t && list.contains(x),
    decreases list.len(),
{
    if list.len() > 0 {
        lemma_without(list.drop_last(), t, x);
        let r = without_text(list.drop_last(), t);
        let all = without_text(list, t);
        if list.contains(x) {
            let i = choose|i: int| 0 <= i < list.len() && list[i] == x;
            if i < list.len() - 1 {
                assert(list.drop_last()[i] == x);
            }
        }
        if list.drop_last().contains(x) {
            let i = choose|i: int| 0 <= i < list.len() - 1 && list.drop_last()[i] == x;
            assert(list[i] == x);
        }
        if list.last() != t {
            assert(all == r.push(list.last()));
            assert(all[r.len() as int] == list.last());
            if r.contains(x) {
                let i = choose|i: int| 0 <= i < r.len() && r[i] == x;
                assert(all[i] == x);
            }
            if all.contains(x) {
                let i = choose|i: int| 0 <= i < all.len() && all[i] == x;
                if i < r.len() {
                    assert(r[i] == x);
                }
            }
            assert(list[list.len() - 1] == list.last());
        }
    }
}

proof fn lemma_inserted(list: Seq<Seq<char>>, t: Seq<char>, x: Seq<char>)
    ensures
        inserted_text(list, t).contains(x) <==> x == t || list.contains(x),
    decreases list.len(),
{
    let all = inserted_text(list, t);
    if list.len() > 0 && crate::text::text_less(t, list.last()) {
        lemma_inserted(list.drop_last(), t, x);
        let r = inserted_text(list.drop_last(), t);
        assert(all == r.push(list.last()));
        assert(all[r.len() as int] == list.last());
        if r.contains(x) {
            let i = choose|i: int| 0 <= i < r.len() && r[i] == x;
            assert(all[i] == x);
        }
        if all.contains(x) {
            let i = choose|i: int| 0 <= i < all.len() && all[i] == x;
            if i < r.len() {
                assert(r[i] == x);
            }
        }
        if list.contains(x) {
            let i = choose|i: int| 0 <= i < list.len() && list[i] == x;
            if i < list.len() - 1 {
                assert(list.drop_last()[i] == x);
            }
        }
        if list.drop_last().contains(x) {
            let i = choose|i: int| 0 <= i < list.len() - 1 && list.drop_last()[i] == x;
            assert(list[i] == x);
        }
        assert(list[list.len() - 1] == list.last());
    } else {
        assert(all == list.push(t));
        assert(all[list.len() as int] == t);
        if list.contains(x) {
            let i = choose|i: int| 0 <= i < list.len() && list[i] == x;
            assert(all[i] == x);
        }
        if all.contains(x) {
            let i = choose|i: int| 0 <= i < all.len() && all[i] == x;
            if i < list.len() {
                assert(list[i] == x);
            }
        }
    }
}

proof fn lemma_sorted(list: Seq<Seq<char>>, x: Seq<char>)
    ensures
        sorted_texts(list).contains(x) <==> list.contains(x),
    decreases list.len(),
{
    if list.len() > 0 {
        lemma_sorted(list.drop_last(), x);
        lemma_inserted(sorted_texts(list.drop_last()), list.last(), x);
        if list.contains(x) {
            let i = choose|i: int| 0 <= i < list.len() && list[i] == x;
            if i < list.len() - 1 {
                assert(list.drop_last()[i] == x);
            }
        }
        if list.drop_last().contains(x) {
            let i = choose|i: int| 0 <= i < list.len() - 1 && list.drop_last()[i] == x;
            assert(list[i] == x);
        }
        assert(list[list.len() - 1] == list.last());
    }
}

/// An order that is held open is among the open ones, beside those that were; where it
/// sells, its shares are frozen. Nothing else changes.
pub proof fn law_held_orders_are_open(
    s: AccountSnapshotView,
    intent: OrderIntentView,
    order_id: Seq<char>,
    other: Seq<char>,
)
    ensures
        held_open(s, intent, order_id) matches Some(t) ==> {
            &&& t.open_order_ids.contains(other) <==> other == order_id || s.open_order_ids.contains(
                other,
            )
            &&& t.position.frozen_sell == s.position.frozen_sell + (if intent.direction
                == Direction::Sell {
                intent.quantity as int
            } else {
                0
            })
            &&& t.position.total == s.position.total
            &&& t.position.sellable == s.position.sellable
            &&& t.position.today_bought == s.position.today_bought
            &&& t.cash == s.cash
            &&& t.cumulative_filled_quantity == s.cumulative_filled_quantity
        },
{
    let list = s.open_order_ids.push(order_id);
    lemma_sorted(list, other);
    assert(list[s.open_order_ids.len() as int] == order_id);
    if s.open_order_ids.contains(other) {
        let i = choose|i: int| 0 <= i < s.open_order_ids.len() && s.open_order_ids[i] == other;
        assert(list[i] == other);
    }
    if list.contains(other) {
        let i = choose|i: int| 0 <= i < list.len() && list[i] == other;
        if i < s.open_order_ids.len() {
            assert(s.open_order_ids[i] == other);
        }
    }
}

/// An order that is cancelled is no longer open, while the others stay; where it sells,
/// its shares are free again. Nothing else changes.
pub proof fn law_released_orders_are_closed(
    s: AccountSnapshotView,
    intent: OrderIntentView,
    order_id: Seq<char>,
    other: Seq<char>,
)
    ensures
        released(s, intent, order_id) matches Some(t) ==> {
            &&& t.open_order_ids.contains(other) <==> other != order_id && s.open_order_ids.contains(
                other,
            )
            &&& t.position.frozen_sell == s.position.frozen_sell - (if intent.direction
                == Direction::Sell {
                intent.quantity as int
            } else {
                0
            })
            &&& t.position.total == s.position.total
            &&& t.position.sellable == s.position.sellable
            &&& t.position.today_bought == s.position.today_bought
            &&& t.cash == s.cash
            &&& t.cumulative_filled_quantity == s.cumulative_filled_quantity
        },
{
    lemma_without(s.open_order_ids, order_id, other);
}

/// A rejected order changes no account; one that fills is not open afterwards.
pub proof fn law_answers_settle_orders(
    s: AccountSnapshotView,
    intent: OrderIntentView,
    report: ExecutionReportView,
    said: Seq<FillAppraisalView>,
)
    ensures
        report is Rejected ==> reported(s, intent, report, said) == Some(s),
        (report matches ExecutionReportView::Accepted { order_id, fills } && fills.len() > 0) ==> (
        reported(s, intent, report, said) matches Some(t) ==> !t.open_order_ids.contains(
            report->Accepted_order_id,
        )),
        (report matches ExecutionReportView::Accepted { order_id, fills } && fills.len() == 0)
            ==> reported(s, intent, report, said) == held_open(
            s,
            intent,
            report->Accepted_order_id,
        ),
{
    if let ExecutionReportView::Accepted { order_id, fills } = report {
        lemma_without(s.open_order_ids, order_id, order_id);
        let start = AccountSnapshotView {
            open_order_ids: without_text(s.open_order_ids, order_id),
            ..s
        };
        lemma_open_ids_kept(start, intent.direction, fills, said, fills.len());
    }
}

proof fn lemma_open_ids_kept(
    s: AccountSnapshotView,
    direction: Direction,
    fills: Seq<FillReportView>,
    said: Seq<FillAppraisalView>,
    n: nat,
)
    ensures
        all_booked(s, direction, fills, said, n) matches Some(b) ==> b.snapshot.open_order_ids
            == s.open_order_ids,
    decreases n,
{
    if n > 0 {
        lemma_open_ids_kept(s, direction, fills, said, (n - 1) as nat);
    }
}

/// Another day makes what was bought sellable once the broker knows a day; the same day
/// changes nothing, and no day changes cash, the total, what is frozen or what was
/// answered.
pub proof fn law_paper_days(g: PaperView, date: Day)
    ensures
        rolled(g, date) matches Some(t) ==> {
            let p = g.snapshot.position;
            let q = t.snapshot.position;
            &&& t.current_trade_date == Some(date)
            &&& q.sellable + q.today_bought == p.sellable + p.today_bought
            &&& q.total == p.total && q.frozen_sell == p.frozen_sell
            &&& g.current_trade_date is Some && g.current_trade_date->0 != date ==> q.today_bought
                == 0
            &&& g.current_trade_date is None || g.current_trade_date == Some(date) ==> q == p
            &&& t.snapshot.cash == g.snapshot.cash
            &&& t.snapshot.open_order_ids == g.snapshot.open_order_ids
            &&& t.snapshot.cumulative_filled_quantity == g.snapshot.cumulative_filled_quantity
            &&& t.reports == g.reports && t.config == g.config && t.run_id == g.run_id
        },
        rolled(g, date) matches Some(t) ==> rolled(t, date) == Some(t),
{
}

/// An order that is submitted, held open and then cancelled leaves cash and shares as
/// they were on its day, and its answer says that it was cancelled.
pub proof fn law_cancelling_undoes_an_open_order(
    g: PaperView,
    intent: OrderIntentView,
    reason: Seq<char>,
    a: PaperAppraisalView,
    again: PaperAppraisalView,
)
    requires
        ordered::<String, ExecutionReportView>(g.reports),
        lookup::<String, ExecutionReportView>(g.reports, intent.intent_id) is None,
        submitted(g, intent, a).1 matches Ok(r) && r is Accepted && r->fills.len() == 0,
    ensures
        ({
            let (open, r) = submitted(g, intent, a);
            let (closed, answer) = cancelled(open, intent, reason, again);
            let today = rolled(g, Day::of(intent.created_at.d()))->0;
            &&& closed.snapshot.cash == today.snapshot.cash
            &&& closed.snapshot.position == today.snapshot.position
            &&& closed.snapshot.cumulative_filled_quantity
                == today.snapshot.cumulative_filled_quantity
            &&& answer == Ok::<ExecutionReportView, PaperError>(
                ExecutionReportView::Cancelled { order_id: r->Ok_0->Accepted_order_id, reason },
            )
            &&& !closed.snapshot.open_order_ids.contains(r->Ok_0->Accepted_order_id)
            &&& lookup::<String, ExecutionReportView>(closed.reports, intent.intent_id) == Some(
                answer->Ok_0,
            )
        }),
{
    let (open, r) = submitted(g, intent, a);
    let report = r->Ok_0;
    let id = report->Accepted_order_id;
    lemma_with::<String, ExecutionReportView>(g.reports, intent.intent_id, report);
    let (closed, answer) = cancelled(open, intent, reason, again);
    lemma_without(open.snapshot.open_order_ids, id, id);
    lemma_with::<String, ExecutionReportView>(
        open.reports,
        intent.intent_id,
        ExecutionReportView::Cancelled { order_id: id, reason },
    );
}

/// A fill on paper is booked wherever its shares can be counted.
pub proof fn law_paper_fills_can_be_booked(
    b: Booked,
    direction: Direction,
    fill: FillReportView,
    charges: FillCharges,
)
    requires
        books_exactly(b, direction, fill, charges),
        fill.quantity > 0,
        b.snapshot.cumulative_filled_quantity + fill.quantity <= i64::MAX,
        direction == Direction::Buy ==> b.snapshot.position.total + fill.quantity <= i64::MAX
            && b.snapshot.position.today_bought + fill.quantity <= i64::MAX,
        direction == Direction::Sell ==> b.snapshot.position.total - fill.quantity >= i64::MIN
            && b.snapshot.position.sellable - fill.quantity >= i64::MIN,
    ensures
        booked(b, direction, fill, charges) is Some,
{
    let v = times(fill.price, Decimal::whole(fill.quantity as int))->0;
    let f = plus(charges.commission, charges.tax)->0;
    lemma_times_whole(fill.price, fill.quantity as int);
    lemma_plus_exact(charges.commission, charges.tax);
    lemma_plus_exact(b.totals.commission, charges.commission);
    lemma_plus_exact(b.totals.notional, v);
    lemma_plus_exact(b.snapshot.cash.total_fees, f);
    if direction == Direction::Buy {
        lemma_plus_exact(v, f);
        lemma_minus_exact(b.snapshot.cash.available, plus(v, f)->0);
    } else {
        lemma_minus_exact(v, f);
        lemma_plus_exact(b.snapshot.cash.available, minus(v, f)->0);
    }
}

/// An order of other terms than those of the account is refused, and changes no more than the
/// day; a new order of its terms is answered as its draws say, and the answer is kept.
pub proof fn law_orders_are_answered(g: PaperView, intent: OrderIntentView, a: PaperAppraisalView)
    requires
        ordered::<String, ExecutionReportView>(g.reports),
        rolled(g, Day::of(intent.created_at.d())) is Some,
    ensures
        ({
            let today = rolled(g, Day::of(intent.created_at.d()))->0;
            let (n, r) = submitted(g, intent, a);
            let agreed = intent.profit_guard_policy matches Some(p)
                && crate::model::ledger::profit_guard_policy_alike(
                p,
                crate::policy::policy_of(g.config),
            );
            &&& !agreed ==> n == today && r == Err::<ExecutionReportView, PaperError>(
                PaperError::Policy,
            )
            &&& agreed && lookup::<String, ExecutionReportView>(g.reports, intent.intent_id) is None
                ==> (r matches Ok(report) ==> answered(g.config, intent, a) == Some(report)
                && lookup::<String, ExecutionReportView>(n.reports, intent.intent_id) == Some(
                report,
            ) && reported(today.snapshot, intent, report, a.fills) == Some(n.snapshot))
            &&& r is Err ==> n == today
            &&& n.config == g.config && n.run_id == g.run_id
        }),
{
    let (n, r) = submitted(g, intent, a);
    if let Ok(report) = r {
        lemma_with::<String, ExecutionReportView>(g.reports, intent.intent_id, report);
    }
}

} // verus!

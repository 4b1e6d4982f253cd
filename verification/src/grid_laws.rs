//! What holds of every grid: when its levels are touched and armed again, how its
//! prices grow, and what its budgets buy.
use crate::decimal::{
    adds_exactly, floored, lemma_minus_exact, lemma_negated, lemma_of_parts, lemma_plus_exact,
    lemma_pow10_add, lemma_pow10_positive, lemma_times_exact, lemma_units_sign, multiplies_exactly,
    over, plus, pow10, rounded_to, subtracts_exactly, times, truncated, Decimal, Rounding,
    MAX_SCALE,
};
use crate::grid::{
    affordable_shares, all_levels, budget_cap, classified, cleared, deferred_budget, grid_fault,
    grid_price, grown, touched_levels, trades_at, GridError, GridSpec, TouchClassification,
};
use crate::model::ledger::{GridLevelState, GridLevelStatus};
use crate::table::ordered;
use vstd::prelude::*;

verus! {

/// The size of a number.
pub open spec fn distance(n: int) -> int {
    if n < 0 {
        -n
    } else {
        n
    }
}

/// The width of a step without its sign.
pub open spec fn unsigned(w: Decimal) -> Decimal {
    if w.units() < 0 {
        Decimal::of(-w.m(), w.s())
    } else {
        w
    }
}

proof fn lemma_unsigned(w: Decimal)
    requires
        w.valid(),
    ensures
        unsigned(w).valid(),
        unsigned(w).units() == distance(w.units()),
        crate::grid::absolute_width(w) == Some(unsigned(w)),
{
    lemma_units_sign(w);
    if w.units() < 0 {
        lemma_negated(w);
        lemma_of_parts(-1, 0);
        let m = w.m();
        assert(m * (-1) == -m) by (nonlinear_arith);
    }
}

/// The price has come back from a level when it is away from it by at least the
/// width times the hysteresis: above a level below the anchor, below any other
/// one. So it is where the product and the edge need no rounding.
pub proof fn law_levels_clear_by_the_hysteresis(
    level: GridLevelState,
    current: Decimal,
    width: Decimal,
    hysteresis: Decimal,
)
    requires
        level.price.valid(),
        width.valid(),
        hysteresis.valid(),
        multiplies_exactly(unsigned(width), hysteresis),
        times(unsigned(width), hysteresis) matches Some(t) ==> (if level.index < 0 {
            adds_exactly(level.price, t)
        } else {
            subtracts_exactly(level.price, t)
        }),
    ensures
        cleared(level, current, width, hysteresis) is Some,
        level.index < 0 ==> (cleared(level, current, width, hysteresis)->0 <==> (current.units()
            - level.price.units()) * pow10(MAX_SCALE as nat) >= distance(width.units())
            * hysteresis.units()),
        level.index >= 0 ==> (cleared(level, current, width, hysteresis)->0 <==> (
        level.price.units() - current.units()) * pow10(MAX_SCALE as nat) >= distance(width.units())
            * hysteresis.units()),
{
    lemma_unsigned(width);
    lemma_times_exact(unsigned(width), hysteresis);
    let t = times(unsigned(width), hysteresis)->0;
    let w = pow10(MAX_SCALE as nat);
    lemma_pow10_positive(MAX_SCALE as nat);
    let tu = t.units();
    let d = if level.index < 0 {
        lemma_plus_exact(level.price, t);
        current.units() - level.price.units()
    } else {
        lemma_minus_exact(level.price, t);
        level.price.units() - current.units()
    };
    assert(d >= tu <==> d * w >= tu * w) by (nonlinear_arith)
        requires
            w >= 1,
    ;
}

/// Where a level is armed again at one price, it is armed again at every price
/// farther on its inner side.
pub proof fn law_clearing_is_monotone(
    level: GridLevelState,
    current: Decimal,
    farther: Decimal,
    width: Decimal,
    hysteresis: Decimal,
)
    requires
        level.index < 0 ==> farther.units() >= current.units(),
        level.index >= 0 ==> farther.units() <= current.units(),
    ensures
        cleared(level, current, width, hysteresis) == Some(true) ==> cleared(
            level,
            farther,
            width,
            hysteresis,
        ) == Some(true),
{
}

/// Whether a bar passes a price on its way down or up: it was not yet there at the
/// last close, and it gets there.
pub open spec fn reached(index: i32, price: int, previous: int, low: int, high: int) -> bool {
    if index < 0 {
        low <= price < previous
    } else {
        previous < price <= high
    }
}

proof fn lemma_touched(
    levels: Seq<(i32, GridLevelState)>,
    previous: Decimal,
    low: Decimal,
    high: Decimal,
    n: nat,
)
    requires
        ordered::<i32, GridLevelState>(levels),
        n <= levels.len(),
    ensures
        ({
            let t = touched_levels(levels, previous, low, high, n);
            &&& forall|i: int|
                0 <= i < n ==> (t.contains((#[trigger] levels[i]).0) <==> ((levels[i].1.status
                    == GridLevelStatus::Armed || levels[i].1.status == GridLevelStatus::Rearmed)
                    && reached(
                    levels[i].0,
                    levels[i].1.price.units(),
                    previous.units(),
                    low.units(),
                    high.units(),
                )))
            &&& forall|k: int|
                0 <= k < t.len() ==> exists|i: int|
                    0 <= i < n && (#[trigger] levels[i]).0 == #[trigger] t[k]
            &&& forall|j: int, k: int| 0 <= j < k < t.len() ==> #[trigger] t[j] < #[trigger] t[k]
        }),
    decreases n,
{
    if n > 0 {
        lemma_touched(levels, previous, low, high, (n - 1) as nat);
        let b = touched_levels(levels, previous, low, high, (n - 1) as nat);
        let t = touched_levels(levels, previous, low, high, n);
        let last = levels[n - 1].0;
        assert forall|k: int| 0 <= k < b.len() implies #[trigger] b[k] < last by {
            let i = choose|i: int| 0 <= i < n - 1 && (#[trigger] levels[i]).0 == b[k];
            assert(levels[i].0 == b[k]);
            assert(<i32 as crate::table::Key>::less(levels[i].0, levels[n - 1].0));
        }
        assert(!b.contains(last));
        if t.len() > b.len() {
            assert(t[b.len() as int] == last);
            assert forall|k: int| 0 <= k < t.len() implies exists|i: int|
                0 <= i < n && (#[trigger] levels[i]).0 == #[trigger] t[k] by {
                if k < b.len() {
                    let i = choose|i: int| 0 <= i < n - 1 && (#[trigger] levels[i]).0 == b[k];
                    assert(levels[i].0 == t[k]);
                } else {
                    assert(levels[n - 1].0 == t[k]);
                }
            }
            assert forall|i: int| 0 <= i < n - 1 implies (t.contains((#[trigger] levels[i]).0)
                <==> b.contains(levels[i].0)) by {
                assert(<i32 as crate::table::Key>::less(levels[i].0, levels[n - 1].0));
                if b.contains(levels[i].0) {
                    let k = choose|k: int| 0 <= k < b.len() && b[k] == levels[i].0;
                    assert(t[k] == levels[i].0);
                }
                if t.contains(levels[i].0) {
                    let k = choose|k: int| 0 <= k < t.len() && t[k] == levels[i].0;
                    assert(b[k] == levels[i].0);
                }
            }
        }
    }
}

/// A bar touches exactly the waiting levels that it reaches: down from above to a
/// level below the anchor, up from below to one above it. The touched indices come
/// in rising order, and the bar is ambiguous exactly when it touches levels on both
/// sides.
pub proof fn law_bars_touch_what_they_reach(
    levels: Seq<(i32, GridLevelState)>,
    previous: Decimal,
    low: Decimal,
    high: Decimal,
)
    requires
        ordered::<i32, GridLevelState>(levels),
    ensures
        ({
            let t = touched_levels(levels, previous, low, high, levels.len());
            &&& forall|i: int|
                0 <= i < levels.len() ==> (t.contains((#[trigger] levels[i]).0) <==> ((
                levels[i].1.status == GridLevelStatus::Armed || levels[i].1.status
                    == GridLevelStatus::Rearmed) && reached(
                    levels[i].0,
                    levels[i].1.price.units(),
                    previous.units(),
                    low.units(),
                    high.units(),
                )))
            &&& forall|k: int|
                0 <= k < t.len() ==> exists|i: int|
                    0 <= i < levels.len() && (#[trigger] levels[i]).0 == #[trigger] t[k]
            &&& forall|j: int, k: int| 0 <= j < k < t.len() ==> #[trigger] t[j] < #[trigger] t[k]
            &&& classified(t) == TouchClassification::Ambiguous <==> (t.len() > 0 && t[0] < 0
                && t.last() > 0)
        }),
{
    lemma_touched(levels, previous, low, high, levels.len());
    let t = touched_levels(levels, previous, low, high, levels.len());
    if classified(t) == TouchClassification::Ambiguous {
        let a = choose|i: int| 0 <= i < t.len() && #[trigger] t[i] < 0;
        let b = choose|i: int| 0 <= i < t.len() && #[trigger] t[i] > 0;
        assert(a == 0 || t[0] < t[a]);
        assert(b == t.len() - 1 || t[b] < t[t.len() - 1]);
    }
    if t.len() > 0 && t[0] < 0 && t.last() > 0 {
        assert(t[t.len() - 1] > 0);
    }
}

/// `base` multiplied by itself `n` times.
pub open spec fn power(base: int, n: nat) -> int
    decreases n,
{
    if n == 0 {
        1
    } else {
        base * power(base, (n - 1) as nat)
    }
}

/// Whether none of the first `n` products needs rounding.
pub open spec fn grows_exactly(price: Decimal, factor: Decimal, n: nat) -> bool
    decreases n,
{
    n == 0 || (grows_exactly(price, factor, (n - 1) as nat) && (grown(
        price,
        factor,
        (n - 1) as nat,
    ) matches Some(p) ==> multiplies_exactly(p, factor)))
}

proof fn lemma_grown(price: Decimal, factor: Decimal, n: nat)
    requires
        price.valid(),
        factor.valid(),
        grows_exactly(price, factor, n),
    ensures
        grown(price, factor, n) matches Some(p) && p.valid() && p.units() * power(
            pow10(MAX_SCALE as nat),
            n,
        ) == price.units() * power(factor.units(), n),
    decreases n,
{
    if n > 0 {
        lemma_grown(price, factor, (n - 1) as nat);
        let b = grown(price, factor, (n - 1) as nat)->0;
        lemma_times_exact(b, factor);
        let p = times(b, factor)->0;
        let w = pow10(MAX_SCALE as nat);
        let wn = power(w, (n - 1) as nat);
        let f = factor.units();
        let fn1 = power(f, (n - 1) as nat);
        let pu = p.units();
        let bu = b.units();
        let a = price.units();
        assert(pu * (w * wn) == a * (f * fn1)) by (nonlinear_arith)
            requires
                pu * w == bu * f,
                bu * wn == a * fn1,
        ;
    }
}

/// A number rounded to fewer places is within half of the last place.
proof fn lemma_nearest(a: Decimal, dp: nat)
    requires
        a.valid(),
        dp <= MAX_SCALE,
    ensures
        2 * distance(
            rounded_to(a, dp, Rounding::MidpointAwayFromZero).units() - a.units(),
        ) <= pow10((MAX_SCALE - dp) as nat),
{
    lemma_pow10_positive((MAX_SCALE - dp) as nat);
    if a.s() > dp {
        let k = (a.s() - dp) as nat;
        let q = pow10(k);
        let rest = pow10((MAX_SCALE - a.s()) as nat);
        lemma_pow10_positive(k);
        lemma_pow10_positive((MAX_SCALE - a.s()) as nat);
        lemma_pow10_add(k, (MAX_SCALE - a.s()) as nat);
        assert((k + (MAX_SCALE - a.s()) as nat) as nat == (MAX_SCALE - dp) as nat);
        assert(q * rest == pow10((MAX_SCALE - dp) as nat));
        assert(q >= 10 && q % 2 == 0) by {
            assert(q == 10 * pow10((k - 1) as nat));
            lemma_pow10_positive((k - 1) as nat);
        }
        let m = a.m();
        let h = if m >= 0 {
            m
        } else {
            -m
        };
        let r = (h + q / 2) / q;
        assert(2 * (r * q - h) <= q && 2 * (h - r * q) <= q && 0 <= r <= h) by (nonlinear_arith)
            requires
                q >= 10,
                q % 2 == 0,
                h >= 0,
                r == (h + q / 2) / q,
        ;
        let x = if m >= 0 {
            r
        } else {
            -r
        };
        assert((-r) * q == -(r * q)) by (nonlinear_arith);
        lemma_of_parts(x, dp);
        assert(rounded_to(a, dp, Rounding::MidpointAwayFromZero) == Decimal::of(x, dp));
        assert(2 * (x * (q * rest) - m * rest) <= q * rest && 2 * (m * rest - x * (q * rest)) <= q
            * rest) by (nonlinear_arith)
            requires
                2 * (x * q - m) <= q,
                2 * (m - x * q) <= q,
                rest >= 1,
        ;
    }
}

/// The price above the anchor at an index is the anchor times one plus the ratio as
/// often as the index says, to within half of the last place of prices. So it is
/// where the products need no rounding of their own.
pub proof fn law_prices_above_the_anchor(g: GridSpec, index: i32)
    requires
        index > 0,
        g.anchor.valid(),
        g.ratio.valid(),
        g.price_scale <= MAX_SCALE,
        0 < g.ratio.units() < Decimal::one().units(),
        plus(Decimal::one(), g.ratio) matches Some(f) ==> grows_exactly(g.anchor, f, index as nat),
    ensures
        grid_price(g, index) matches Ok(p) ==> ({
            let w = power(pow10(MAX_SCALE as nat), index as nat);
            2 * distance(
                p.units() * w - g.anchor.units() * power(
                    pow10(MAX_SCALE as nat) + g.ratio.units(),
                    index as nat,
                ),
            ) <= w * pow10((MAX_SCALE - g.price_scale) as nat)
        }),
{
    lemma_of_parts(1, 0);
    crate::decimal::lemma_part_of_one(g.ratio);
    if let Ok(p) = grid_price(g, index) {
        let f = plus(Decimal::one(), g.ratio)->0;
        lemma_grown(g.anchor, f, index as nat);
        let raw = grown(g.anchor, f, index as nat)->0;
        lemma_nearest(raw, g.price_scale as nat);
        let w1 = pow10(MAX_SCALE as nat);
        lemma_pow10_positive(MAX_SCALE as nat);
        lemma_power_positive(w1, index as nat);
        let w = power(w1, index as nat);
        assert(f.units() == w1 + g.ratio.units());
        let pu = p.units();
        let ru = raw.units();
        let e = pow10((MAX_SCALE - g.price_scale) as nat);
        assert(2 * (pu * w - ru * w) <= w * e && 2 * (ru * w - pu * w) <= w * e)
            by (nonlinear_arith)
            requires
                2 * (pu - ru) <= e,
                2 * (ru - pu) <= e,
                w >= 1,
        ;
    }
}

proof fn lemma_power_positive(base: int, n: nat)
    requires
        base >= 1,
    ensures
        power(base, n) >= 1,
    decreases n,
{
    if n > 0 {
        lemma_power_positive(base, (n - 1) as nat);
        let p = power(base, (n - 1) as nat);
        assert(base * p >= 1) by (nonlinear_arith)
            requires
                base >= 1,
                p >= 1,
        ;
    }
}

/// Whether numbers start at a price and each is the one before it over the factor.
pub open spec fn divided_down(chain: Seq<Decimal>, price: Decimal, factor: Decimal) -> bool {
    &&& chain.len() > 0
    &&& chain[0] == price
    &&& forall|k: int|
        0 <= k < chain.len() - 1 ==> over(#[trigger] chain[k], factor) == Some(chain[k + 1])
}

proof fn lemma_shrunk(price: Decimal, factor: Decimal, n: nat) -> (chain: Seq<Decimal>)
    requires
        crate::grid::shrunk(price, factor, n) is Some,
    ensures
        divided_down(chain, price, factor),
        chain.len() == n + 1,
        chain[n as int] == crate::grid::shrunk(price, factor, n)->0,
    decreases n,
{
    if n == 0 {
        seq![price]
    } else {
        let before = lemma_shrunk(price, factor, (n - 1) as nat);
        let chain = before.push(crate::grid::shrunk(price, factor, n)->0);
        assert forall|k: int| 0 <= k < chain.len() - 1 implies over(#[trigger] chain[k], factor)
            == Some(chain[k + 1]) by {
            assert(chain[k] == before[k]);
            if k < before.len() - 1 {
                assert(chain[k + 1] == before[k + 1]);
            }
        }
        chain
    }
}

/// The price below the anchor at an index comes from the anchor by as many divisions
/// by one plus the ratio as the index says, to within half of the last place of
/// prices, where that number is a decimal.
pub proof fn law_prices_below_the_anchor(g: GridSpec, index: i32) -> (chain: Seq<Decimal>)
    requires
        index < 0,
        g.ratio.valid(),
        g.price_scale <= MAX_SCALE,
        0 < g.ratio.units() < Decimal::one().units(),
        grid_price(g, index) is Ok,
    ensures
        chain.len() == 1 - index,
        plus(Decimal::one(), g.ratio) matches Some(f) && f.units() == pow10(MAX_SCALE as nat)
            + g.ratio.units() && divided_down(chain, g.anchor, f),
        chain[-index as int].valid() ==> 2 * distance(
            grid_price(g, index)->Ok_0.units() - chain[-index as int].units(),
        ) <= pow10((MAX_SCALE - g.price_scale) as nat),
{
    lemma_of_parts(1, 0);
    crate::decimal::lemma_part_of_one(g.ratio);
    let f = plus(Decimal::one(), g.ratio)->0;
    let chain = lemma_shrunk(g.anchor, f, (-index) as nat);
    if chain[-index as int].valid() {
        lemma_nearest(chain[-index as int], g.price_scale as nat);
    }
    chain
}

/// A depth allows as many budgets as it has levels, and what is left of them is
/// what was not deployed, or nothing.
pub proof fn law_budgets_follow_the_depth(index: i32, budget: Decimal, deployed: Decimal)
    requires
        index != i32::MIN,
        budget.valid(),
        deployed.valid(),
        multiplies_exactly(Decimal::whole(distance(index as int)), budget),
        budget_cap(index, budget) matches Some(c) ==> subtracts_exactly(c, deployed),
    ensures
        budget_cap(index, budget) matches Some(c) && c.units() == distance(index as int)
            * budget.units(),
        deferred_budget(index, budget, deployed) matches Some(d) && d.units() == (if distance(
            index as int,
        ) * budget.units() >= deployed.units() {
            distance(index as int) * budget.units() - deployed.units()
        } else {
            0
        }),
{
    let n = distance(index as int);
    lemma_of_parts(n, 0);
    lemma_of_parts(0, 0);
    let a = Decimal::whole(n);
    lemma_times_exact(a, budget);
    let c = times(a, budget)->0;
    let w = pow10(MAX_SCALE as nat);
    lemma_pow10_positive(MAX_SCALE as nat);
    let cu = c.units();
    let bu = budget.units();
    assert(cu == n * bu) by (nonlinear_arith)
        requires
            cu * w == (n * w) * bu,
            w >= 1,
    ;
    lemma_minus_exact(c, deployed);
    assert(Decimal::zero().units() == 0);
}

/// The shares of a budget are the whole part of the budget over the price.
pub proof fn law_shares_are_the_whole_part(budget: Decimal, price: Decimal)
    requires
        over(budget, price) matches Some(q) ==> q.valid() && q.units() >= 0,
    ensures
        affordable_shares(budget, price) matches Some(n) ==> (over(budget, price) matches Some(q)
            && n >= 0 && n * pow10(MAX_SCALE as nat) <= q.units() < (n + 1) * pow10(
            MAX_SCALE as nat,
        )),
{
    if let Some(q) = over(budget, price) {
        if affordable_shares(budget, price) is Some {
            lemma_units_sign(q);
            lemma_whole_part(q);
        }
    }
}

/// The whole part of a number that is not negative.
pub proof fn lemma_whole_part(q: Decimal)
    requires
        q.valid(),
        q.m() >= 0,
    ensures
        truncated(floored(q)) * pow10(MAX_SCALE as nat) <= q.units() < (truncated(floored(q)) + 1)
            * pow10(MAX_SCALE as nat),
        truncated(floored(q)) >= 0,
{
    let p = pow10(q.s());
    let r = pow10((MAX_SCALE - q.s()) as nat);
    lemma_pow10_positive(q.s());
    lemma_pow10_positive((MAX_SCALE - q.s()) as nat);
    lemma_pow10_add(q.s(), (MAX_SCALE - q.s()) as nat);
    let m = q.m();
    let n = m / p;
    assert(0 <= n <= m && n * p <= m < (n + 1) * p) by (nonlinear_arith)
        requires
            n == m / p,
            p >= 1,
            m >= 0,
    ;
    lemma_of_parts(n, 0);
    assert(pow10(0) == 1);
    assert(truncated(floored(q)) == n);
    assert(n * (p * r) <= m * r < (n + 1) * (p * r)) by (nonlinear_arith)
        requires
            n * p <= m < (n + 1) * p,
            r >= 1,
    ;
}

proof fn lemma_no_fault(g: GridSpec, end: int)
    requires
        forall|i: i32|
            -g.boundary_levels <= i < end && i != 0 ==> (#[trigger] grid_price(g, i)) is Ok,
        end <= g.boundary_levels + 1 <= 513,
    ensures
        crate::grid::price_fault(g, end) is None,
    decreases end + g.boundary_levels,
{
    if end > -g.boundary_levels {
        lemma_no_fault(g, end - 1);
        if end - 1 != 0 {
            assert(grid_price(g, (end - 1) as i32) is Ok);
        }
    }
}

/// A grid is accepted exactly when its anchor is positive, its ratio lies between
/// zero and one, it trades at some of its levels but not at the outermost ones, has no
/// more than the largest number of levels, keeps no more than eight places in its
/// prices, and has a price at every index.
pub proof fn law_accepted_grids(g: GridSpec)
    requires
        g.boundary_levels != i32::MAX,
    ensures
        grid_fault(g) is None <==> {
            &&& g.anchor.units() > 0
            &&& 0 < g.ratio.units() < Decimal::one().units()
            &&& 1 <= g.trade_levels < g.boundary_levels <= 512
            &&& g.price_scale <= 8
            &&& forall|i: i32|
                -g.boundary_levels <= i <= g.boundary_levels && i != 0 ==> (
                #[trigger] grid_price(g, i)) is Ok
        },
{
    if grid_fault(g) is None {
        assert forall|i: i32| -g.boundary_levels <= i <= g.boundary_levels && i != 0 implies (
        #[trigger] grid_price(g, i)) is Ok by {
            crate::grid::lemma_price_fault(g, i as int, g.boundary_levels + 1);
        }
    }
    if 1 <= g.trade_levels < g.boundary_levels <= 512 && forall|i: i32|
        -g.boundary_levels <= i <= g.boundary_levels && i != 0 ==> (#[trigger] grid_price(
            g,
            i,
        )) is Ok {
        lemma_no_fault(g, g.boundary_levels + 1);
    }
}

/// A generated level waits for its first touch at the price of its index.
pub proof fn law_generated_levels_are_fresh(g: GridSpec, k: int)
    requires
        grid_fault(g) is None,
        0 <= k < all_levels(g).len(),
    ensures
        ({
            let (index, level) = all_levels(g)[k];
            &&& level.index == index
            &&& index != 0
            &&& -g.boundary_levels <= index <= g.boundary_levels
            &&& level.status == GridLevelStatus::Armed
            &&& level.touch_count == 0
            &&& grid_price(g, index) == Ok::<Decimal, GridError>(level.price)
        }),
{
    crate::grid::law_levels_cover_the_grid(g, g.boundary_levels + 1);
    law_accepted_grids(g);
    let (index, level) = all_levels(g)[k];
    assert(grid_price(g, index) is Ok);
}

/// The strategy trades at the levels within its depth, and not at the anchor.
pub proof fn law_trading_depth(g: GridSpec, index: i32)
    requires
        index != i32::MIN,
    ensures
        trades_at(g, index) <==> index != 0 && -g.trade_levels <= index <= g.trade_levels,
{
}

/// A number half-way between two others of fewer places is rounded to the one farther from
/// zero; no number is rounded towards zero by half of the last place.
pub proof fn law_halves_round_away_from_zero(a: Decimal, dp: nat)
    requires
        a.valid(),
        dp <= MAX_SCALE,
    ensures
        2 * (distance(a.units()) - distance(
            rounded_to(a, dp, Rounding::MidpointAwayFromZero).units(),
        )) < pow10((MAX_SCALE - dp) as nat),
        a.units() >= 0 ==> rounded_to(a, dp, Rounding::MidpointAwayFromZero).units() >= 0,
        a.units() <= 0 ==> rounded_to(a, dp, Rounding::MidpointAwayFromZero).units() <= 0,
{
    lemma_units_sign(a);
    lemma_pow10_positive((MAX_SCALE - dp) as nat);
    if a.s() > dp {
        let k = (a.s() - dp) as nat;
        let q = pow10(k);
        let rest = pow10((MAX_SCALE - a.s()) as nat);
        lemma_pow10_positive((MAX_SCALE - a.s()) as nat);
        lemma_pow10_add(k, (MAX_SCALE - a.s()) as nat);
        assert((k + (MAX_SCALE - a.s()) as nat) as nat == (MAX_SCALE - dp) as nat);
        assert(q >= 10 && q % 2 == 0) by {
            assert(q == 10 * pow10((k - 1) as nat));
            lemma_pow10_positive((k - 1) as nat);
        }
        let m = a.m();
        let h = if m >= 0 {
            m
        } else {
            -m
        };
        let r = (h + q / 2) / q;
        assert(2 * (h - r * q) < q && 0 <= r <= h) by (nonlinear_arith)
            requires
                q >= 10,
                q % 2 == 0,
                h >= 0,
                r == (h + q / 2) / q,
        ;
        let x = if m >= 0 {
            r
        } else {
            -r
        };
        lemma_of_parts(x, dp);
        assert(rounded_to(a, dp, Rounding::MidpointAwayFromZero) == Decimal::of(x, dp));
        assert(2 * (h * rest - r * (q * rest)) < q * rest) by (nonlinear_arith)
            requires
                2 * (h - r * q) < q,
                rest >= 1,
        ;
        assert((-r) * (q * rest) == -(r * (q * rest))) by (nonlinear_arith);
        assert((-h) * rest == -(h * rest)) by (nonlinear_arith);
        assert(r * (q * rest) >= 0 && h * rest >= 0) by (nonlinear_arith)
            requires
                r >= 0,
                q >= 10,
                rest >= 1,
                h >= 0,
        ;
    }
}

} // verus!

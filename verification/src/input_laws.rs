//! What holds of everything that comes in: configurations, bars, feeds and times.
use crate::clock::{
    local_moment, nanos_between, utc_of, weekday_number, whole_millis, Moment, DAY_SECONDS,
    EPOCH_DAY,
};
use crate::config::{config_fault, envelope_fault, largest_order_cash};
use crate::data::{bar_fault, feed_fault, in_envelope, in_session, rows_fault};
use crate::decimal::{
    adds_exactly, larger, lemma_of_parts, lemma_plus_exact, lemma_pow10_add, lemma_times_exact,
    lemma_times_whole, multiplies_exactly, over, plus, pow10, times, Decimal,
};
use crate::gate_laws::{lemma_unit, unit};
use crate::grid::{grid_fault, grid_of};
use crate::model::market::MarketBarView;
use crate::model::settings::ConfigView;
use crate::text::blank;
use vstd::prelude::*;

verus! {

/// Whether the plain settings of a configuration are within their limits.
pub open spec fn settings_within_limits(c: ConfigView) -> bool {
    let g = c.gate;
    &&& !blank(c.symbol)
    &&& c.anchor_price.units() > 0 && c.initial_cash.units() >= 0
    &&& 0 < c.grid_ratio.units() < unit()
    &&& 1 <= c.trade_levels < c.boundary_levels
    &&& 0 <= c.initial_sellable <= c.initial_position <= c.max_position <= 1_000_000_000_000
    &&& 0 <= c.min_base_position <= c.initial_position
    &&& 0 < c.lot_size <= 1_000_000_000_000
    &&& 0 <= c.standard_quantity <= 1_000_000_000_000
    &&& c.standard_quantity as int % c.lot_size as int == 0
    &&& c.standard_quantity > 0 ==> c.standard_budget.units() == 0
    &&& c.standard_quantity == 0 ==> c.standard_budget.units() > 0
    &&& 0 <= c.hysteresis_ratio.units() <= unit()
    &&& 0 <= 10 * c.commission_rate.units() <= unit()
    &&& 0 <= 10 * c.sell_tax_rate.units() <= unit()
    &&& c.minimum_commission.units() >= 0
    &&& 0 <= c.slippage_rate.units() < unit()
    &&& c.price_scale <= 8
    &&& 0 <= g.alpha.units() <= unit() && 0 <= g.probability.units() <= unit()
    &&& g.failure_mode == "safe"@ || g.failure_mode == "skip"@ || g.failure_mode
        == "always_execute"@
    &&& 0 < g.timeout_ms <= 60_000
    &&& c.paper.reject_probability_bps <= 10_000
    &&& c.paper.partial_fill_bps <= 10_000
    &&& c.paper.hold_open_probability_bps <= 10_000
    &&& c.ambiguity_policy == "conservative"@ || c.ambiguity_policy == "skip"@
        || c.ambiguity_policy == "lower_first"@ || c.ambiguity_policy == "upper_first"@
}

/// Whether the reserves of a configuration fit it: only a resource-aware gate has some,
/// within its cash and its position limits; it never trades where it fails, and where it
/// deploys the opening balance it starts without shares and keeps half of its cash.
pub open spec fn reserves_fit(c: ConfigView) -> bool {
    let g = c.gate;
    &&& g.kind == "resource_aware"@ <==> g.capital_inventory is Some
    &&& g.capital_inventory matches Some(r) ==> {
        &&& 0 <= r.minimum_free_cash.units() <= c.initial_cash.units()
        &&& c.min_base_position <= r.target_position <= c.max_position
        &&& g.failure_mode != "always_execute"@
        &&& r.deploy_initial_balance ==> c.initial_position == 0 && (over(
            c.initial_cash,
            Decimal::whole(2),
        ) matches Some(half) && half.units() <= r.minimum_free_cash.units())
    }
}

proof fn lemma_tenth(d: Decimal)
    ensures
        d.units() <= Decimal::of(1, 1).units() <==> 10 * d.units() <= unit(),
{
    lemma_unit();
    lemma_of_parts(1, 1);
    lemma_pow10_add(1, 27);
    assert(pow10(1) == 10) by {
        reveal_with_fuel(pow10, 2);
    }
}

/// A configuration is accepted exactly when its settings are within their limits, its
/// reserves fit, its grid has prices, and its largest order is one that can be counted.
pub proof fn law_accepted_configurations(c: ConfigView)
    ensures
        config_fault(c) is None <==> settings_within_limits(c) && reserves_fit(c) && grid_fault(
            grid_of(c),
        ) is None && envelope_fault(c) is None,
{
    lemma_unit();
    lemma_tenth(c.commission_rate);
    lemma_tenth(c.sell_tax_rate);
    let l = c.lot_size as int;
    if l > 0 {
        assert(0int % l == 0) by (nonlinear_arith)
            requires
                l > 0,
        ;
    }
}

/// The largest order of a configuration in shares has a unit for each level, no more than
/// the largest quantity, and its cash can be counted.
pub proof fn law_largest_orders_can_be_counted(c: ConfigView)
    requires
        config_fault(c) is None,
    ensures
        c.standard_quantity > 0 ==> {
            &&& c.standard_quantity * c.boundary_levels <= 1_000_000_000_000
            &&& crate::grid::grid_price(grid_of(c), c.boundary_levels) matches Ok(price)
                && largest_order_cash(
                c,
                price,
                (c.standard_quantity * c.boundary_levels) as i64,
            ) is Some
        },
        c.standard_quantity == 0 ==> times(
            c.standard_budget,
            Decimal::whole(c.boundary_levels as int),
        ) is Some,
{
}

/// Whether no number in the cash of the largest order has to be rounded.
pub open spec fn counts_exactly(c: ConfigView, price: Decimal, quantity: i64) -> bool {
    &&& price.valid() && c.slippage_rate.valid() && c.commission_rate.valid()
    &&& c.sell_tax_rate.valid() && c.minimum_commission.valid()
    &&& 0 <= c.slippage_rate.units() < Decimal::one().units()
    &&& plus(Decimal::one(), c.slippage_rate) matches Some(f) ==> multiplies_exactly(price, f) && (
    times(price, f) matches Some(a) ==> multiplies_exactly(a, Decimal::whole(quantity as int)) && (
    times(a, Decimal::whole(quantity as int)) matches Some(v) ==> {
        &&& multiplies_exactly(v, c.commission_rate)
        &&& multiplies_exactly(v, c.sell_tax_rate)
        &&& times(v, c.commission_rate) matches Some(x) ==> adds_exactly(
            v,
            larger(x, c.minimum_commission),
        ) && (plus(v, larger(x, c.minimum_commission)) matches Some(y) ==> (times(
            v,
            c.sell_tax_rate,
        ) matches Some(t) ==> adds_exactly(y, t)))
    }))
}

/// The cash of the largest order is its worth at the price raised by the slippage, with
/// its tax and the larger of its commission and the least one. `worth` is what the shares
/// are worth.
pub proof fn law_largest_order_cash(c: ConfigView, price: Decimal, quantity: i64) -> (worth: int)
    requires
        counts_exactly(c, price, quantity),
    ensures
        worth * unit() == price.units() * (unit() + c.slippage_rate.units()) * quantity,
        largest_order_cash(c, price, quantity) matches Some(r) && {
            let extra = r.units() * unit() - worth * unit() - worth * c.sell_tax_rate.units();
            &&& extra >= c.minimum_commission.units() * unit()
            &&& extra >= worth * c.commission_rate.units()
            &&& extra == c.minimum_commission.units() * unit() || extra == worth
                * c.commission_rate.units()
        },
{
    lemma_unit();
    crate::decimal::lemma_part_of_one(c.slippage_rate);
    let w = unit();
    let f = plus(Decimal::one(), c.slippage_rate)->0;
    lemma_times_exact(price, f);
    let a = times(price, f)->0;
    lemma_times_whole(a, quantity as int);
    let v = times(a, Decimal::whole(quantity as int))->0;
    lemma_times_exact(v, c.commission_rate);
    lemma_times_exact(v, c.sell_tax_rate);
    let x = times(v, c.commission_rate)->0;
    let t = times(v, c.sell_tax_rate)->0;
    let m = larger(x, c.minimum_commission);
    lemma_plus_exact(v, m);
    let y = plus(v, m)->0;
    lemma_plus_exact(y, t);
    let au = a.units();
    let q = quantity as int;
    let vu = v.units();
    let pf = price.units() * (w + c.slippage_rate.units());
    assert(vu * w == pf * q) by (nonlinear_arith)
        requires
            vu == au * q,
            au * w == pf,
    ;
    let mu = m.units();
    let xu = x.units();
    let tu = t.units();
    let least = c.minimum_commission.units();
    assert((vu + mu + tu) * w == vu * w + mu * w + tu * w) by (nonlinear_arith);
    assert(mu >= xu ==> mu * w >= xu * w) by (nonlinear_arith)
        requires
            w >= 1,
    ;
    assert(mu >= least ==> mu * w >= least * w) by (nonlinear_arith)
        requires
            w >= 1,
    ;
    vu
}

/// A bar is accepted exactly when it is of the symbol, its prices are positive and lie
/// between its low and its high, its volume and amount are not negative, its volume is not
/// too large, its prices can be multiplied by the largest quantity, and it lies in a
/// session.
pub proof fn law_accepted_bars(b: MarketBarView, symbol: Seq<char>)
    ensures
        bar_fault(b, symbol) is None <==> {
            &&& b.symbol == symbol
            &&& 0 < b.low.units() <= b.open.units() <= b.high.units()
            &&& b.low.units() <= b.close.units() <= b.high.units()
            &&& 0 <= b.volume <= 1_000_000_000_000
            &&& b.amount matches Some(a) ==> a.units() >= 0
            &&& in_envelope(b.open) && in_envelope(b.high) && in_envelope(b.low) && in_envelope(
                b.close,
            )
            &&& in_session(b.timestamp.s(), b.timestamp.n())
        },
{
}

/// A session is from half past nine to half past eleven, or from one to three, each with
/// its first and its last instant and no more.
pub proof fn law_sessions(second: int, nano: int)
    requires
        0 <= nano < 1_000_000_000,
    ensures
        ({
            let at = second * 1_000_000_000 + nano;
            let hour = 3_600_000_000_000int;
            in_session(second, nano) <==> (19 * hour <= 2 * at <= 23 * hour) || (13 * hour <= at
                <= 15 * hour)
        }),
{
}

proof fn lemma_feed(bars: Seq<MarketBarView>, symbol: Seq<char>, n: nat)
    requires
        n <= bars.len(),
        forall|i: int| 0 <= i < bars.len() ==> bar_fault(#[trigger] bars[i], symbol) is None,
        forall|i: int, j: int|
            0 <= i < j < bars.len() ==> (#[trigger] bars[i]).timestamp.position() < (
            #[trigger] bars[j]).timestamp.position(),
    ensures
        rows_fault(bars, symbol, n) is None,
    decreases n,
{
    if n > 0 {
        lemma_feed(bars, symbol, (n - 1) as nat);
    }
}

/// The bars of a feed are accepted exactly when there are some, each of them is accepted,
/// and each is later than all before it.
pub proof fn law_accepted_feeds(bars: Seq<MarketBarView>, symbol: Seq<char>)
    ensures
        feed_fault(bars, symbol) is None <==> {
            &&& bars.len() > 0
            &&& forall|i: int| 0 <= i < bars.len() ==> bar_fault(#[trigger] bars[i], symbol) is None
            &&& forall|i: int, j: int|
                0 <= i < j < bars.len() ==> (#[trigger] bars[i]).timestamp.position() < (
                #[trigger] bars[j]).timestamp.position()
        },
{
    crate::data::lemma_rows(bars, symbol, bars.len());
    if (forall|i: int| 0 <= i < bars.len() ==> bar_fault(#[trigger] bars[i], symbol) is None) && (
    forall|i: int, j: int|
        0 <= i < j < bars.len() ==> (#[trigger] bars[i]).timestamp.position() < (
        #[trigger] bars[j]).timestamp.position()) {
        lemma_feed(bars, symbol, bars.len());
    }
}

/// The seconds of a moment since the first day.
pub open spec fn seconds_of(m: Moment) -> int {
    m.d() * DAY_SECONDS + m.s()
}

/// The UTC moment of a local one is eight hours earlier.
pub proof fn law_utc_is_eight_hours_behind(local: Moment)
    requires
        local.valid(),
    ensures
        utc_of(local) matches Some(m) ==> m.valid() && seconds_of(m) == seconds_of(local) - 8 * 3600
            && m.n() == local.n(),
        utc_of(local) is None ==> local.d() <= crate::clock::MIN_DAY,
{
    if local.s() >= 28_800 {
        crate::clock::lemma_moment_parts(local.d(), local.s() - 28_800, local.n());
    } else if local.d() > crate::clock::MIN_DAY {
        crate::clock::lemma_moment_parts(local.d() - 1, local.s() + 57_600, local.n());
    }
}

/// The local moment of some microseconds since the epoch is eight hours later.
pub proof fn law_local_is_eight_hours_ahead(micros: int)
    requires
        micros >= 0,
    ensures
        local_moment(micros) matches Some(m) ==> m.valid() && m.n() < 1_000_000_000 && (seconds_of(m) - 8 * 3600 - EPOCH_DAY
            * DAY_SECONDS) * 1_000_000_000 + m.n() == micros * 1000,
{
    let local = micros + 28_800_000_000;
    let day = EPOCH_DAY + local / 86_400_000_000;
    let rest = local % 86_400_000_000;
    if local_moment(micros) is Some {
        crate::clock::lemma_moment_parts(day, rest / 1_000_000, (rest % 1_000_000) * 1000);
    }
}

/// Weekdays go round from one to seven, a day at a time.
pub proof fn law_weekdays_go_round(day: int)
    ensures
        1 <= weekday_number(day) <= 7,
        weekday_number(day) < 7 ==> weekday_number(day + 1) == weekday_number(day) + 1,
        weekday_number(day) == 7 ==> weekday_number(day + 1) == 1,
        weekday_number(1) == 1,
{
}

/// The time between two moments is that of their seconds and of the parts of a second;
/// it has the other sign the other way round. So it is without leap seconds.
pub proof fn law_time_between(a: Moment, b: Moment)
    requires
        a.n() < 1_000_000_000,
        b.n() < 1_000_000_000,
    ensures
        nanos_between(a, b) == (seconds_of(b) - seconds_of(a)) * 1_000_000_000 + (b.n() - a.n()),
        nanos_between(b, a) == -nanos_between(a, b),
        whole_millis(nanos_between(b, a)) == -whole_millis(nanos_between(a, b)),
{
}

/// Milliseconds are the whole part of a time, towards zero.
pub proof fn law_milliseconds(nanos: int)
    ensures
        nanos >= 0 ==> 0 <= nanos - whole_millis(nanos) * 1_000_000 < 1_000_000,
        nanos <= 0 ==> -1_000_000 < nanos - whole_millis(nanos) * 1_000_000 <= 0,
{
}

} // verus!

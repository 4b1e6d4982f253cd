//! What holds of every gate: what its evidence says, how it paces trading and what
//! it answers.
use crate::decimal::{
    adds_exactly, floored, lemma_negated, lemma_of_parts, lemma_plus_exact,
    lemma_pow10_add, lemma_pow10_positive, lemma_times_exact, lemma_units_sign, multiplies_exactly,
    over, plus, pow10, times, truncated, Decimal, MAX_SCALE,
};
use crate::gate::{
    answer_fault, derived_pace, discrete_action, evidence_fault, exact_answer_fault, gate_answer,
    paced_units, resource_weight, rule_score, strength, weighted_score, GateError,
};
use crate::grid_laws::{distance, lemma_whole_part};
use crate::model::gates::{FundsInventoryContextV1View, GateContextView, GateDecisionView};
use crate::model::market::Direction;
use crate::notation::context_digest;
use crate::text::blank;
use vstd::prelude::*;

verus! {

/// One in multiples of the smallest decimal place.
pub open spec fn unit() -> int {
    pow10(MAX_SCALE as nat)
}

pub proof fn lemma_unit()
    ensures
        unit() == 10000000000000000000000000000,
        Decimal::one().units() == unit(),
        Decimal::one().valid(),
        Decimal::zero().units() == 0,
        Decimal::zero().valid(),
{
    lemma_of_parts(1, 0);
    lemma_of_parts(0, 0);
    assert(pow10(28) == 10000000000000000000000000000) by {
        reveal_with_fuel(pow10, 29);
    }
}

/// A number of hundredths, in multiples of the smallest decimal place.
proof fn lemma_hundredths(n: int)
    requires
        -1000 <= n <= 1000,
    ensures
        Decimal::of(n, 2).valid(),
        Decimal::of(n, 2).units() * 100 == n * unit(),
{
    lemma_of_parts(n, 2);
    lemma_pow10_add(2, 26);
    assert(pow10(2) == 100) by {
        reveal_with_fuel(pow10, 3);
    }
    let p = pow10(26);
    assert((n * p) * 100 == n * (100 * p)) by (nonlinear_arith);
}

/// A number between two bounds.
pub open spec fn held_between(n: int, low: int, high: int) -> int {
    if n < low {
        low
    } else if n > high {
        high
    } else {
        n
    }
}

/// The number with the other sign.
pub open spec fn opposite(d: Decimal) -> Decimal {
    Decimal::of(-d.m(), d.s())
}

/// How strongly a deviation speaks for a sell is the deviation over the scale, and
/// for a buy the opposite deviation over the scale, held between zero and one.
pub proof fn law_strength_is_the_deviation_in_scale(
    direction: Direction,
    deviation: Decimal,
    scale: Decimal,
)
    requires
        deviation.valid(),
    ensures
        ({
            let towards = if direction == Direction::Sell {
                deviation
            } else {
                opposite(deviation)
            };
            &&& towards.units() == (if direction == Direction::Sell {
                deviation.units()
            } else {
                -deviation.units()
            })
            &&& match over(towards, scale) {
                Some(q) => strength(direction, deviation, scale) matches Some(x) && x.units()
                    == held_between(q.units(), 0, unit()),
                None => strength(direction, deviation, scale) is None,
            }
        }),
{
    lemma_unit();
    lemma_negated(deviation);
}

/// A deviation speaks for a sell as its opposite speaks for a buy, and the other way
/// round.
pub proof fn law_strength_is_symmetric(deviation: Decimal, scale: Decimal)
    requires
        deviation.valid(),
    ensures
        strength(Direction::Sell, deviation, scale) == strength(
            Direction::Buy,
            opposite(deviation),
            scale,
        ),
        strength(Direction::Buy, deviation, scale) == strength(
            Direction::Sell,
            opposite(deviation),
            scale,
        ),
{
    lemma_negated(deviation);
    lemma_negated(opposite(deviation));
    crate::decimal::lemma_known_by_parts(opposite(opposite(deviation)), deviation);
}

/// Whether a quotient has the sign of its dividend.
pub open spec fn keeps_the_sign(a: Decimal, scale: Decimal) -> bool {
    over(a, scale) matches Some(q) ==> {
        &&& q.units() > 0 <==> a.units() > 0
        &&& q.units() < 0 <==> a.units() < 0
    }
}

/// A rise speaks for a sell and a fall for a buy; what goes the other way, or does not
/// move, speaks for nothing. So it is where the quotients have the sign of what is
/// divided.
pub proof fn law_strength_has_a_side(deviation: Decimal, scale: Decimal)
    requires
        deviation.valid(),
        keeps_the_sign(deviation, scale),
        keeps_the_sign(opposite(deviation), scale),
    ensures
        strength(Direction::Sell, deviation, scale) matches Some(x) ==> 0 <= x.units() <= unit() && (
        x.units() > 0 <==> deviation.units() > 0),
        strength(Direction::Buy, deviation, scale) matches Some(x) ==> 0 <= x.units() <= unit() && (
        x.units() > 0 <==> deviation.units() < 0),
{
    lemma_unit();
    lemma_negated(deviation);
    law_strength_is_the_deviation_in_scale(Direction::Sell, deviation, scale);
    law_strength_is_the_deviation_in_scale(Direction::Buy, deviation, scale);
}

/// What does not deviate speaks for nothing on any scale but zero.
pub proof fn law_no_deviation_has_no_strength(
    direction: Direction,
    deviation: Decimal,
    scale: Decimal,
)
    requires
        deviation.valid(),
        scale.valid(),
        deviation.units() == 0,
        scale.units() != 0,
    ensures
        strength(direction, deviation, scale) matches Some(x) && x.units() == 0,
{
    lemma_unit();
    lemma_units_sign(deviation);
    lemma_units_sign(scale);
    lemma_negated(deviation);
}

/// Whether no part of the score has to be rounded.
pub open spec fn scores_exactly(f: FundsInventoryContextV1View) -> bool {
    &&& f.depth.valid() && f.weight_depth.valid()
    &&& f.trend_strength.valid() && f.weight_trend.valid()
    &&& f.location_strength.valid() && f.weight_location.valid()
    &&& multiplies_exactly(f.depth, f.weight_depth)
    &&& multiplies_exactly(f.trend_strength, f.weight_trend)
    &&& multiplies_exactly(f.location_strength, f.weight_location)
    &&& times(f.depth, f.weight_depth) matches Some(d) ==> (times(
        f.trend_strength,
        f.weight_trend,
    ) matches Some(t) ==> adds_exactly(d, t) && (plus(d, t) matches Some(x) ==> (times(
        f.location_strength,
        f.weight_location,
    ) matches Some(l) ==> adds_exactly(x, l))))
}

/// The score is the sum of depth, trend and location, each times its own weight.
pub proof fn law_score_is_the_weighted_sum(f: FundsInventoryContextV1View)
    requires
        scores_exactly(f),
    ensures
        weighted_score(f) matches Some(x) && x.valid() && x.units() * unit() == f.depth.units()
            * f.weight_depth.units() + f.trend_strength.units() * f.weight_trend.units()
            + f.location_strength.units() * f.weight_location.units(),
{
    lemma_times_exact(f.depth, f.weight_depth);
    lemma_times_exact(f.trend_strength, f.weight_trend);
    lemma_times_exact(f.location_strength, f.weight_location);
    let d = times(f.depth, f.weight_depth)->0;
    let t = times(f.trend_strength, f.weight_trend)->0;
    let l = times(f.location_strength, f.weight_location)->0;
    lemma_plus_exact(d, t);
    let x = plus(d, t)->0;
    lemma_plus_exact(x, l);
    let w = unit();
    let a = d.units();
    let b = t.units();
    let c = l.units();
    assert((a + b + c) * w == a * w + b * w + c * w) by (nonlinear_arith);
}

/// The weight of the resources is one half with half of their share.
pub proof fn law_resources_weigh_by_their_share(ratio: Decimal)
    requires
        ratio.valid(),
        multiplies_exactly(Decimal::of(50, 2), ratio),
        times(Decimal::of(50, 2), ratio) matches Some(x) ==> adds_exactly(Decimal::of(50, 2), x),
    ensures
        resource_weight(ratio) matches Some(w) && 2 * w.units() == unit() + ratio.units(),
{
    lemma_unit();
    lemma_hundredths(50);
    let h = Decimal::of(50, 2);
    lemma_times_exact(h, ratio);
    let x = times(h, ratio)->0;
    lemma_plus_exact(h, x);
    let w = unit();
    let hu = h.units();
    let ru = ratio.units();
    let xu = x.units();
    assert(2 * xu == ru) by (nonlinear_arith)
        requires
            xu * w == hu * ru,
            hu * 100 == 50 * w,
            w >= 1,
    ;
    assert(2 * hu == w) by (nonlinear_arith)
        requires
            hu * 100 == 50 * w,
    ;
}

/// Nothing is traded unless the market speaks for it, and else at the score times the
/// weight of the resources, but never faster than one half.
pub proof fn law_pace_is_score_by_weight(passed: bool, score: Decimal, weight: Decimal)
    requires
        score.valid(),
        weight.valid(),
        multiplies_exactly(score, weight),
    ensures
        !passed ==> (derived_pace(passed, score, weight) matches Some(p) && p.units() == 0),
        passed ==> (derived_pace(passed, score, weight) matches Some(p) && 2 * p.units() <= unit()
            && p.units() * unit() <= score.units() * weight.units() && (2 * p.units() == unit()
            || p.units() * unit() == score.units() * weight.units())),
{
    lemma_unit();
    lemma_hundredths(50);
    lemma_times_exact(score, weight);
    let x = times(score, weight)->0;
    let h = Decimal::of(50, 2).units();
    let w = unit();
    let xu = x.units();
    assert(h <= xu ==> h * w <= xu * w) by (nonlinear_arith)
        requires
            w >= 1,
    ;
    assert(2 * h == w) by (nonlinear_arith)
        requires
            h * 100 == 50 * w,
    ;
}

/// A pace allows the whole part of that much of the offer, but at least one unit, at
/// most two and never more than the offer.
pub proof fn law_paced_units_are_the_whole_part(offered: i64, pace: Decimal)
    requires
        offered >= 1,
        pace.valid(),
        pace.units() >= 0,
        multiplies_exactly(Decimal::whole(offered as int), pace),
    ensures
        paced_units(offered, pace) matches Some(n) ==> {
            &&& 1 <= n <= offered && n <= 2
            &&& n == 2 <==> offered >= 2 && offered * pace.units() >= 2 * unit()
        },
{
    lemma_unit();
    lemma_of_parts(offered as int, 0);
    let a = Decimal::whole(offered as int);
    lemma_times_exact(a, pace);
    let x = times(a, pace)->0;
    lemma_units_sign(x);
    lemma_units_sign(pace);
    let w = unit();
    let pu = pace.units();
    let xu = x.units();
    let q = offered as int;
    assert(xu == q * pu && xu >= 0) by (nonlinear_arith)
        requires
            xu * w == (q * w) * pu,
            w >= 1,
            q >= 1,
            pu >= 0,
    ;
    lemma_whole_part(x);
    let n = truncated(floored(x));
    assert(n >= 2 <==> xu >= 2 * w) by (nonlinear_arith)
        requires
            n * w <= xu < (n + 1) * w,
            w >= 1,
    ;
}

/// What accepted evidence shows: the fixed windows, weights and threshold, the depth
/// of the index, the strengths of the recent return and of the deviation from the
/// average, their score, whether the market speaks for a trade, the share and weight
/// of the resources, the pace, what is blocked beforehand and what is to be traded.
pub proof fn law_accepted_evidence(f: FundsInventoryContextV1View, c: GateContextView)
    requires
        evidence_fault(f, c) is None,
    ensures
        f.schema_version == 1,
        f.short_window == 5,
        f.long_window == 20,
        f.trade_levels > 0,
        f.weight_depth.units() * 100 == 35 * unit(),
        f.weight_trend.units() * 100 == 40 * unit(),
        f.weight_location.units() * 100 == 25 * unit(),
        f.market_threshold.units() * 100 == 60 * unit(),
        f.range_scale_20.units() * 1000 >= 5 * unit(),
        f.history_bars <= 20,
        f.feature_bar_ids.len() == f.history_bars,
        f.mechanical_authorized_units >= 0,
        f.resource_units >= 0,
        f.pending_buy_quantity >= 0,
        f.position_exposure_quantity == f.position_total + f.pending_buy_quantity,
        c.grid_index != i32::MIN,
        over(
            Decimal::whole(distance(c.grid_index as int)),
            Decimal::whole(f.trade_levels as int),
        ) matches Some(d) && f.depth.units() == d.units(),
        strength(c.direction, f.recent_return_5, f.range_scale_20) matches Some(x)
            && f.trend_strength.units() == x.units(),
        strength(c.direction, f.vwap_deviation_20, f.range_scale_20) matches Some(x)
            && f.location_strength.units() == x.units(),
        0 <= f.trend_strength.units() <= unit(),
        0 <= f.location_strength.units() <= unit(),
        weighted_score(f) matches Some(x) && f.market_score.units() == x.units(),
        f.market_signal_passed <==> {
            &&& f.history_bars == 20
            &&& f.market_score.units() * 100 >= 60 * unit()
            &&& f.trend_strength.units() > 0 || f.location_strength.units() > 0
        },
        over(Decimal::whole(f.resource_units as int), Decimal::whole(f.resource_units + 4)) matches Some(
            x,
        ) && f.resource_ratio.units() == x.units() && (resource_weight(x) matches Some(y)
            && f.resource_multiplier.units() == y.units() && (derived_pace(
            f.market_signal_passed,
            weighted_score(f)->0,
            y,
        ) matches Some(z) && f.pace.units() == z.units() && (f.target_units != 0
            ==> paced_units(
            (f.mechanical_authorized_units - f.predecision_blocked_units) as i64,
            z,
        ) == Some(f.target_units)))),
        f.target_units != 0 ==> f.market_signal_passed && f.mechanical_authorized_units
            > f.predecision_blocked_units,
        f.market_signal_passed && f.mechanical_authorized_units > f.predecision_blocked_units
            ==> f.target_units >= 1,
        f.predecision_blocked_units == (if f.resource_units < f.mechanical_authorized_units {
            f.mechanical_authorized_units - f.resource_units
        } else {
            0
        }),
{
    lemma_unit();
    lemma_hundredths(35);
    lemma_hundredths(40);
    lemma_hundredths(25);
    lemma_hundredths(60);
    lemma_of_parts(5, 3);
    lemma_pow10_add(3, 25);
    assert(pow10(3) == 1000) by {
        reveal_with_fuel(pow10, 4);
    }
}

/// What accepted evidence takes from the market goes with the direction: a sell has a
/// trend only after a rise and a buy only after a fall, and so with the deviation from
/// the average.
pub proof fn law_accepted_evidence_has_a_side(f: FundsInventoryContextV1View, c: GateContextView)
    requires
        evidence_fault(f, c) is None,
        f.recent_return_5.valid(),
        f.vwap_deviation_20.valid(),
        keeps_the_sign(f.recent_return_5, f.range_scale_20),
        keeps_the_sign(opposite(f.recent_return_5), f.range_scale_20),
        keeps_the_sign(f.vwap_deviation_20, f.range_scale_20),
        keeps_the_sign(opposite(f.vwap_deviation_20), f.range_scale_20),
    ensures
        c.direction == Direction::Sell ==> (f.trend_strength.units() > 0
            <==> f.recent_return_5.units() > 0) && (f.location_strength.units() > 0
            <==> f.vwap_deviation_20.units() > 0),
        c.direction == Direction::Buy ==> (f.trend_strength.units() > 0
            <==> f.recent_return_5.units() < 0) && (f.location_strength.units() > 0
            <==> f.vwap_deviation_20.units() < 0),
{
    law_accepted_evidence(f, c);
    law_strength_has_a_side(f.recent_return_5, f.range_scale_20);
    law_strength_has_a_side(f.vwap_deviation_20, f.range_scale_20);
}

/// An answer executes exactly where the share of the whole authorized units comes to
/// one unit or more.
pub proof fn law_actions_need_a_whole_unit(c: GateContextView, alpha: Decimal)
    requires
        alpha.valid(),
        alpha.units() >= 0,
        c.standard_quantity > 0 && c.algorithm_authorized_quantity > 0 ==> multiplies_exactly(
            Decimal::whole(c.algorithm_authorized_quantity as int / c.standard_quantity as int),
            alpha,
        ),
    ensures
        c.standard_quantity <= 0 || c.algorithm_authorized_quantity <= 0 ==> discrete_action(
            c,
            alpha,
        ) == Some("SKIP"@),
        c.standard_quantity > 0 && c.algorithm_authorized_quantity > 0 ==> discrete_action(c, alpha)
            == Some(
            if (c.algorithm_authorized_quantity as int / c.standard_quantity as int)
                * alpha.units() >= unit() {
                "EXECUTE"@
            } else {
                "SKIP"@
            },
        ),
{
    lemma_unit();
    if c.standard_quantity > 0 && c.algorithm_authorized_quantity > 0 {
        let q = c.algorithm_authorized_quantity as int / c.standard_quantity as int;
        assert(0 <= q <= c.algorithm_authorized_quantity) by (nonlinear_arith)
            requires
                q == c.algorithm_authorized_quantity as int / c.standard_quantity as int,
                c.algorithm_authorized_quantity > 0,
                c.standard_quantity >= 1,
        ;
        lemma_of_parts(q, 0);
        let a = Decimal::whole(q);
        lemma_times_exact(a, alpha);
        let x = times(a, alpha)->0;
        let w = unit();
        let xu = x.units();
        let au = alpha.units();
        assert(xu == q * au && xu >= 0) by (nonlinear_arith)
            requires
                xu * w == (q * w) * au,
                w >= 1,
                q >= 0,
                au >= 0,
        ;
        lemma_units_sign(x);
        lemma_whole_part(x);
        let n = x.m() / pow10(x.s());
        lemma_pow10_positive(x.s());
        assert(0 <= n <= x.m()) by (nonlinear_arith)
            requires
                n == x.m() / pow10(x.s()),
                pow10(x.s()) >= 1,
                x.m() >= 0,
        ;
        lemma_of_parts(n, 0);
        assert(pow10(0) == 1);
        assert(truncated(floored(x)) == n);
        lemma_units_sign(floored(x));
        assert(n >= 1 <==> xu >= w) by (nonlinear_arith)
            requires
                n * w <= xu < (n + 1) * w,
                w >= 1,
        ;
    }
}

/// A gate answers only with a probability and a share from zero to one; the answer
/// holds both, the reasons and the model as given, no exact ratio, and the time and the
/// digest of what was asked.
pub proof fn law_gates_answer_what_they_are_asked(
    c: GateContextView,
    probability: Decimal,
    alpha: Decimal,
    reasons: Seq<Seq<char>>,
    model: Seq<char>,
)
    ensures
        gate_answer(c, probability, alpha, reasons, model) == Err::<GateDecisionView, GateError>(
            GateError::OutsideUnitInterval,
        ) <==> !(0 <= probability.units() <= unit() && 0 <= alpha.units() <= unit()),
        gate_answer(c, probability, alpha, reasons, model) matches Ok(g) ==> {
            &&& g.probability == probability
            &&& g.alpha == alpha
            &&& g.alpha_numerator is None && g.alpha_denominator is None
            &&& g.reason_codes == reasons
            &&& g.model_name == model
            &&& g.decided_at == c.current_time
            &&& discrete_action(c, alpha) == Some(g.action)
        },
{
    lemma_unit();
}

/// An answer is accepted exactly when its probability and share lie from zero to one,
/// it names its model and its reasons, it executes or skips as is expected of it, and it
/// was given on this digest at this time.
pub proof fn law_accepted_answers(
    g: GateDecisionView,
    c: GateContextView,
    hash: Seq<char>,
    action: Option<Seq<char>>,
)
    ensures
        answer_fault(g, c, hash, action) is None <==> {
            &&& 0 <= g.probability.units() <= unit()
            &&& 0 <= g.alpha.units() <= unit()
            &&& !blank(g.model_name) && !blank(g.model_version)
            &&& g.reason_codes.len() > 0
            &&& g.action == "EXECUTE"@ || g.action == "SKIP"@
            &&& action is None || action == Some(g.action)
            &&& g.input_snapshot_hash == hash
            &&& g.decided_at == c.current_time
        },
{
    lemma_unit();
}

/// An accepted exact answer was given on evidence, and its share is what the exercised
/// units are of the offered ones; there are no more of them, and nothing of nothing is
/// none.
pub proof fn law_accepted_exact_answers(g: GateDecisionView, c: GateContextView, exercise: i64)
    requires
        c.standard_quantity > 0,
        exercise >= 0,
        c.available_quantity >= 0,
        exact_answer_fault(g, c, exercise) is None,
    ensures
        c.funds_inventory is Some,
        ({
            let n = exercise as int / c.standard_quantity as int;
            let d = c.available_quantity as int / c.standard_quantity as int;
            &&& n <= d
            &&& g.alpha_numerator == Some(n as i64)
            &&& g.alpha_denominator == Some(d as i64)
            &&& d == 0 ==> g.alpha.units() == 0
            &&& d > 0 ==> (over(Decimal::whole(n), Decimal::whole(d)) matches Some(share)
                && g.alpha.units() == share.units())
        }),
        answer_fault(
            g,
            c,
            context_digest(c, crate::decision::DECISION_CONTRACT_VERSION),
            None,
        ) is None,
{
    lemma_unit();
    crate::arith::lemma_checked_div(exercise, c.standard_quantity);
    crate::arith::lemma_checked_div(c.available_quantity, c.standard_quantity);
}

/// One for each sign that holds.
pub open spec fn sign(holds: bool) -> int {
    if holds {
        1
    } else {
        0
    }
}

/// The simple rules start at two points. A buy gains one for a fall of more than one in
/// a hundred and one for a price below the average, and loses one where the market goes
/// down; a sell gains one for a rise of more than one in a hundred. Either loses one
/// where the market is rough. There are never less than none nor more than four.
pub proof fn law_rules_count_signs(c: GateContextView)
    ensures
        0 <= rule_score(c) <= 4,
        c.direction == Direction::Buy ==> rule_score(c) == held_between(
            2 + sign(c.recent_return.units() * 100 < -unit()) + sign(c.vwap_deviation.units() < 0)
                - sign(c.market_regime == "DOWN"@) - sign(
                c.volatility.units() * 100 > 5 * unit(),
            ),
            0,
            4,
        ),
        c.direction == Direction::Sell ==> rule_score(c) == 2 + sign(
            c.recent_return.units() * 100 > unit(),
        ) - sign(c.volatility.units() * 100 > 5 * unit()),
{
    lemma_unit();
    lemma_hundredths(-1);
    lemma_hundredths(1);
    lemma_hundredths(5);
}

/// Evidence is refused for its constants exactly where one of them is another, a count is
/// negative, a strength is no share, the bars are not as many as counted or not named, or
/// the exposure is not what is held and pending.
pub proof fn law_evidence_constants_are_fixed(f: FundsInventoryContextV1View, c: GateContextView)
    requires
        c.grid_index != i32::MIN,
        over(
            Decimal::whole(distance(c.grid_index as int)),
            Decimal::whole(f.trade_levels as int),
        ) is Some,
    ensures
        evidence_fault(f, c) == Some(GateError::EvidenceConstants) <==> !{
            &&& f.schema_version == 1 && f.short_window == 5 && f.long_window == 20
            &&& f.trade_levels > 0
            &&& f.weight_depth.units() * 100 == 35 * unit()
            &&& f.weight_trend.units() * 100 == 40 * unit()
            &&& f.weight_location.units() * 100 == 25 * unit()
            &&& f.market_threshold.units() * 100 == 60 * unit()
            &&& f.range_scale_20.units() * 1000 >= 5 * unit()
            &&& f.history_bars <= 20 && f.feature_bar_ids.len() == f.history_bars
            &&& forall|i: int|
                0 <= i < f.feature_bar_ids.len() ==> !blank(#[trigger] f.feature_bar_ids[i])
            &&& crate::digest::lower_hex(f.feature_bars_sha256, 64)
            &&& f.depth.units() == over(
                Decimal::whole(distance(c.grid_index as int)),
                Decimal::whole(f.trade_levels as int),
            )->0.units()
            &&& 0 <= f.trend_strength.units() <= unit() && 0 <= f.location_strength.units()
                <= unit()
            &&& f.mechanical_authorized_units >= 0 && f.resource_units >= 0
            &&& f.pending_buy_quantity >= 0
            &&& f.position_total + f.pending_buy_quantity == f.position_exposure_quantity
        },
{
    lemma_unit();
    lemma_hundredths(35);
    lemma_hundredths(40);
    lemma_hundredths(25);
    lemma_hundredths(60);
    lemma_of_parts(5, 3);
    lemma_pow10_add(3, 25);
    assert(pow10(3) == 1000) by {
        reveal_with_fuel(pow10, 4);
    }
}

} // verus!

//! Gates: what they may see, how they answer and when an answer counts.
use crate::arith::{magnitude, magnitude_of, min_i64, quotient, trunc_div};
use crate::decimal::{fitting, floored, minus, over, plus, smaller, times, truncated, Decimal};
use crate::decision::{
    DECISION_CONTRACT_VERSION, LEGACY_DECISION_CONTRACT_VERSION,
    WHOLE_UNIT_DECISION_CONTRACT_VERSION,
};
use crate::digest::{is_lower_hex, lower_hex};
use crate::model::gates::{
    FundsInventoryContextV1, FundsInventoryContextV1View, GateContext, GateContextView,
    GateDecision, GateDecisionView,
};
use crate::model::market::Direction;
use crate::model::settings::{Config, ConfigView};
use crate::notation::{context_digest, digest_context};
use crate::text::{blank, is_blank, text_eq};
use crate::value::Value;
use vstd::prelude::*;

verus! {

/// The layout of the evidence on funds and inventory.
pub const FUNDS_INVENTORY_CONTEXT_VERSION: u32 = 1;

/// Why a gate or its answer is refused.
#[derive(Clone, Copy, Debug, PartialEq, Eq, Structural)]
pub enum GateError {
    /// A probability or share lies outside zero to one.
    OutsideUnitInterval,
    /// The answer does not say what made it and why.
    MissingAudit,
    /// The answer names no known action.
    UnknownAction,
    /// The action does not fit the outcome.
    ActionMismatch,
    /// The answer was given on another context.
    HashMismatch,
    /// The answer was given at another time.
    TimeMismatch,
    /// The exact ratio of the answer is missing or wrong.
    Ratio,
    /// The evidence on funds and inventory is missing.
    MissingEvidence,
    /// The evidence is not made with the fixed constants.
    EvidenceConstants,
    /// The evidence does not follow from what it is derived from.
    EvidenceDerivation,
    /// A number leaves the range of decimals.
    NumericRange,
    /// The configuration names no known gate.
    UnknownGate,
}

/// Whether a number lies from zero to one.
pub open spec fn in_unit_interval(d: Decimal) -> bool {
    0 <= d.units() <= Decimal::one().units()
}

fn is_in_unit_interval(d: &Decimal) -> (r: bool)
    ensures
        r == in_unit_interval(*d),
{
    !d.is_negative() && d.at_most(&Decimal::unit())
}

/// A number brought into the range from zero to one.
pub open spec fn clamped(d: Decimal) -> Decimal {
    if d.units() < 0 {
        Decimal::zero()
    } else if d.units() > Decimal::one().units() {
        Decimal::one()
    } else {
        d
    }
}

fn clamp(d: Decimal) -> (r: Decimal)
    ensures
        r == clamped(d),
{
    if d.is_negative() {
        Decimal::nil()
    } else if Decimal::unit().below(&d) {
        Decimal::unit()
    } else {
        d
    }
}

/// A decimal that is written with a mantissa and places in range.
fn fixed(mantissa: i128, scale: u32) -> (r: Decimal)
    requires
        crate::decimal::representable(mantissa as int, scale as int),
    ensures
        r == Decimal::of(mantissa as int, scale as nat),
{
    match Decimal::from_scaled(mantissa, scale) {
        Some(d) => d,
        None => Decimal::nil(),
    }
}

/// The whole units of an offer that a pace allows: at least one, at most two,
/// and never more than the offer.
pub open spec fn paced_units(offered: i64, pace: Decimal) -> Option<i64> {
    match times(Decimal::whole(offered as int), pace) {
        None => None,
        Some(x) => match fitting(truncated(floored(x))) {
            None => None,
            Some(n) => {
                let capped = if n < 1 {
                    1i64
                } else {
                    n
                };
                let two = if offered < 2 {
                    offered
                } else {
                    2i64
                };
                Some(
                    if two < capped {
                        two
                    } else {
                        capped
                    },
                )
            },
        },
    }
}

/// The whole units of an offer that a pace allows.
pub fn units_at_pace(offered: i64, pace: Decimal) -> (r: Option<i64>)
    ensures
        r == paced_units(offered, pace),
{
    let scaled: Option<i64> = match Decimal::from_i64(offered).checked_mul(pace) {
        None => None,
        Some(x) => x.floor().to_i64(),
    };
    match scaled {
        None => None,
        Some(n) => {
            let capped: i64 = if n < 1 {
                1
            } else {
                n
            };
            let two: i64 = if offered < 2 {
                offered
            } else {
                2
            };
            Some(
                if two < capped {
                    two
                } else {
                    capped
                },
            )
        },
    }
}

/// A number with the sign in which it favours the direction.
pub open spec fn favourable(direction: Direction, d: Decimal) -> Option<Decimal> {
    match direction {
        Direction::Buy => minus(Decimal::zero(), d),
        Direction::Sell => Some(d),
    }
}

fn favour(direction: Direction, d: Decimal) -> (r: Option<Decimal>)
    ensures
        r == favourable(direction, d),
{
    match direction {
        Direction::Buy => Decimal::nil().checked_sub(d),
        Direction::Sell => Some(d),
    }
}

/// How strongly a deviation speaks for the direction, from zero to one.
pub open spec fn strength(direction: Direction, deviation: Decimal, scale: Decimal) -> Option<
    Decimal,
> {
    match favourable(direction, deviation) {
        None => None,
        Some(d) => match over(d, scale) {
            None => None,
            Some(q) => Some(clamped(q)),
        },
    }
}

fn strength_of(direction: Direction, deviation: Decimal, scale: Decimal) -> (r: Option<Decimal>)
    ensures
        r == strength(direction, deviation, scale),
{
    match favour(direction, deviation) {
        None => None,
        Some(d) => match d.checked_div(scale) {
            None => None,
            Some(q) => Some(clamp(q)),
        },
    }
}

/// The weighted sum of depth, trend and location.
pub open spec fn weighted_score(f: FundsInventoryContextV1View) -> Option<Decimal> {
    match times(f.depth, f.weight_depth) {
        None => None,
        Some(depth) => match times(f.trend_strength, f.weight_trend) {
            None => None,
            Some(trend) => match plus(depth, trend) {
                None => None,
                Some(score) => match times(f.location_strength, f.weight_location) {
                    None => None,
                    Some(location) => plus(score, location),
                },
            },
        },
    }
}

fn score_of(f: &FundsInventoryContextV1) -> (r: Option<Decimal>)
    ensures
        r == weighted_score(f@),
{
    match f.depth.checked_mul(f.weight_depth) {
        None => None,
        Some(depth) => match f.trend_strength.checked_mul(f.weight_trend) {
            None => None,
            Some(trend) => match depth.checked_add(trend) {
                None => None,
                Some(score) => match f.location_strength.checked_mul(f.weight_location) {
                    None => None,
                    Some(location) => score.checked_add(location),
                },
            },
        },
    }
}

/// The share of resources: `n / (n + 4)`.
pub open spec fn resource_share(n: i64) -> Option<Decimal> {
    match n.checked_add(4) {
        None => None,
        Some(d) => over(Decimal::whole(n as int), Decimal::whole(d as int)),
    }
}

/// One half and half of the share of resources.
pub open spec fn resource_weight(ratio: Decimal) -> Option<Decimal> {
    match times(Decimal::of(50, 2), ratio) {
        None => None,
        Some(x) => plus(Decimal::of(50, 2), x),
    }
}

/// What the evidence on funds and inventory has to derive from the market and
/// the resources.
pub struct DerivedEvidence {
    pub trend: Decimal,
    pub location: Decimal,
    pub score: Decimal,
    pub passed: bool,
    pub ratio: Decimal,
    pub multiplier: Decimal,
    pub pace: Decimal,
    pub blocked: i64,
    pub target: i64,
}

/// Whether the market speaks for a trade.
pub open spec fn signal_passed(
    f: FundsInventoryContextV1View,
    score: Decimal,
    trend: Decimal,
    location: Decimal,
) -> bool {
    f.history_bars == f.long_window && score.units() >= f.market_threshold.units() && (
    trend.units() > 0 || location.units() > 0)
}

/// The smaller of both.
pub open spec fn least(a: i64, b: i64) -> i64 {
    if a < b {
        a
    } else {
        b
    }
}

/// How fast to trade: nothing unless the market speaks for it, else the score
/// weighted by the resources, at most one half.
pub open spec fn derived_pace(passed: bool, score: Decimal, multiplier: Decimal) -> Option<
    Decimal,
> {
    if passed {
        match times(score, multiplier) {
            None => None,
            Some(p) => Some(smaller(p, Decimal::of(50, 2))),
        }
    } else {
        Some(Decimal::zero())
    }
}

/// The units to trade.
pub open spec fn derived_target(passed: bool, offered: i64, pace: Decimal) -> Option<i64> {
    if !passed || offered == 0 {
        Some(0i64)
    } else {
        paced_units(offered, pace)
    }
}

/// What the evidence has to hold. Nothing where a number leaves the range.
pub open spec fn derived_evidence(f: FundsInventoryContextV1View, c: GateContextView) -> Option<
    DerivedEvidence,
> {
    match (
        strength(c.direction, f.recent_return_5, f.range_scale_20),
        strength(c.direction, f.vwap_deviation_20, f.range_scale_20),
        weighted_score(f),
        resource_share(f.resource_units),
    ) {
        (Some(trend), Some(location), Some(score), Some(ratio)) => {
            let passed = signal_passed(f, score, trend, location);
            let offered = least(f.resource_units, f.mechanical_authorized_units);
            match resource_weight(ratio) {
                None => None,
                Some(multiplier) => match derived_pace(passed, score, multiplier) {
                    None => None,
                    Some(pace) => match (
                        derived_target(passed, offered, pace),
                        f.mechanical_authorized_units.checked_sub(offered),
                    ) {
                        (Some(target), Some(blocked)) => Some(
                            DerivedEvidence {
                                trend,
                                location,
                                score,
                                passed,
                                ratio,
                                multiplier,
                                pace,
                                blocked,
                                target,
                            },
                        ),
                        _ => None,
                    },
                },
            }
        },
        _ => None,
    }
}

/// The depth of a grid index among the traded levels.
pub open spec fn grid_depth(grid_index: i32, trade_levels: i32) -> Option<Decimal> {
    match magnitude(grid_index) {
        None => None,
        Some(n) => over(Decimal::whole(n as int), Decimal::whole(trade_levels as int)),
    }
}

/// Whether each identifier says something.
pub open spec fn no_blanks(ids: Seq<Seq<char>>) -> bool {
    forall|i: int| 0 <= i < ids.len() ==> !blank(#[trigger] ids[i])
}

fn has_no_blanks(ids: &Vec<String>) -> (r: bool)
    ensures
        r == no_blanks(ids.deep_view()),
{
    let mut i: usize = 0;
    while i < ids.len()
        invariant
            i <= ids.len(),
            forall|j: int| 0 <= j < i ==> !blank(#[trigger] ids.deep_view()[j]),
        decreases ids.len() - i,
    {
        if is_blank(ids[i].as_str()) {
            assert(blank(ids.deep_view()[i as int]));
            return false;
        }
        i = i + 1;
    }
    true
}

/// Whether the evidence is made with the fixed constants.
pub open spec fn evidence_constants(f: FundsInventoryContextV1View, depth: Decimal) -> bool {
    &&& f.schema_version == FUNDS_INVENTORY_CONTEXT_VERSION
    &&& f.short_window == 5
    &&& f.long_window == 20
    &&& f.trade_levels > 0
    &&& f.weight_depth.units() == Decimal::of(35, 2).units()
    &&& f.weight_trend.units() == Decimal::of(40, 2).units()
    &&& f.weight_location.units() == Decimal::of(25, 2).units()
    &&& f.market_threshold.units() == Decimal::of(60, 2).units()
    &&& f.range_scale_20.units() >= Decimal::of(5, 3).units()
    &&& f.history_bars <= f.long_window
    &&& f.feature_bar_ids.len() == f.history_bars
    &&& no_blanks(f.feature_bar_ids)
    &&& lower_hex(f.feature_bars_sha256, 64)
    &&& f.depth.units() == depth.units()
    &&& in_unit_interval(f.trend_strength)
    &&& in_unit_interval(f.location_strength)
    &&& f.mechanical_authorized_units >= 0
    &&& f.resource_units >= 0
    &&& f.pending_buy_quantity >= 0
    &&& f.position_total + f.pending_buy_quantity == f.position_exposure_quantity
}

/// Whether the evidence holds what it has to derive.
pub open spec fn evidence_holds(f: FundsInventoryContextV1View, d: DerivedEvidence) -> bool {
    &&& f.trend_strength.units() == d.trend.units()
    &&& f.location_strength.units() == d.location.units()
    &&& f.market_score.units() == d.score.units()
    &&& f.market_signal_passed == d.passed
    &&& f.resource_ratio.units() == d.ratio.units()
    &&& f.resource_multiplier.units() == d.multiplier.units()
    &&& f.pace.units() == d.pace.units()
    &&& f.predecision_blocked_units == d.blocked
    &&& f.target_units == d.target
}

/// Why the evidence on funds and inventory is refused, if it is.
pub open spec fn evidence_fault(f: FundsInventoryContextV1View, c: GateContextView) -> Option<
    GateError,
> {
    match grid_depth(c.grid_index, f.trade_levels) {
        None => Some(GateError::NumericRange),
        Some(depth) => if !evidence_constants(f, depth) {
            Some(GateError::EvidenceConstants)
        } else {
            match derived_evidence(f, c) {
                None => Some(GateError::NumericRange),
                Some(d) => if evidence_holds(f, d) {
                    None
                } else {
                    Some(GateError::EvidenceDerivation)
                },
            }
        },
    }
}

impl FundsInventoryContextV1 {
    fn constants_hold(&self, depth: &Decimal) -> (r: bool)
        ensures
            r == evidence_constants(self@, *depth),
    {
        let exposure = match self.position_total.checked_add(self.pending_buy_quantity) {
            Some(q) => q == self.position_exposure_quantity,
            None => false,
        };
        self.schema_version == FUNDS_INVENTORY_CONTEXT_VERSION && self.short_window == 5
            && self.long_window == 20 && self.trade_levels > 0 && self.weight_depth.equals(
            &fixed(35, 2),
        ) && self.weight_trend.equals(&fixed(40, 2)) && self.weight_location.equals(&fixed(25, 2))
            && self.market_threshold.equals(&fixed(60, 2)) && fixed(5, 3).at_most(
            &self.range_scale_20,
        ) && self.history_bars <= self.long_window && self.feature_bar_ids.len()
            == self.history_bars as usize && has_no_blanks(&self.feature_bar_ids) && is_lower_hex(
            self.feature_bars_sha256.as_str(),
            64,
        ) && self.depth.equals(depth) && is_in_unit_interval(&self.trend_strength)
            && is_in_unit_interval(&self.location_strength) && self.mechanical_authorized_units >= 0
            && self.resource_units >= 0 && self.pending_buy_quantity >= 0 && exposure
    }

    fn derive(&self, context: &GateContext) -> (r: Option<DerivedEvidence>)
        ensures
            r == derived_evidence(self@, context@),
    {
        let trend = match strength_of(
            context.direction,
            self.recent_return_5,
            self.range_scale_20,
        ) {
            Some(x) => x,
            None => {
                return None;
            },
        };
        let location = match strength_of(
            context.direction,
            self.vwap_deviation_20,
            self.range_scale_20,
        ) {
            Some(x) => x,
            None => {
                return None;
            },
        };
        let score = match score_of(self) {
            Some(x) => x,
            None => {
                return None;
            },
        };
        let passed = self.history_bars == self.long_window && self.market_threshold.at_most(&score)
            && (trend.is_positive() || location.is_positive());
        let ratio = match self.resource_units.checked_add(4) {
            Some(d) => Decimal::from_i64(self.resource_units).checked_div(Decimal::from_i64(d)),
            None => None,
        };
        let ratio = match ratio {
            Some(x) => x,
            None => {
                return None;
            },
        };
        let half = fixed(50, 2);
        let multiplier = match half.checked_mul(ratio) {
            Some(x) => half.checked_add(x),
            None => None,
        };
        let multiplier = match multiplier {
            Some(x) => x,
            None => {
                return None;
            },
        };
        let pace = if passed {
            match score.checked_mul(multiplier) {
                Some(p) => Some(p.min(half)),
                None => None,
            }
        } else {
            Some(Decimal::nil())
        };
        let pace = match pace {
            Some(x) => x,
            None => {
                return None;
            },
        };
        let offered: i64 = min_i64(self.resource_units, self.mechanical_authorized_units);
        let target: Option<i64> = if !passed || offered == 0 {
            Some(0)
        } else {
            units_at_pace(offered, pace)
        };
        match (target, self.mechanical_authorized_units.checked_sub(offered)) {
            (Some(target), Some(blocked)) => Some(
                DerivedEvidence {
                    trend,
                    location,
                    score,
                    passed,
                    ratio,
                    multiplier,
                    pace,
                    blocked,
                    target,
                },
            ),
            _ => None,
        }
    }

    /// Checks that the evidence is made with the fixed constants and follows
    /// from the market and the resources.
    pub fn validate_canonical(&self, context: &GateContext) -> (r: Result<(), GateError>)
        ensures
            r == (match evidence_fault(self@, context@) {
                Some(e) => Err::<(), GateError>(e),
                None => Ok::<(), GateError>(()),
            }),
    {
        let depth = match magnitude_of(context.grid_index) {
            Some(n) => Decimal::from_i64(n as i64).checked_div(
                Decimal::from_i64(self.trade_levels as i64),
            ),
            None => None,
        };
        let depth = match depth {
            Some(d) => d,
            None => {
                return Err(GateError::NumericRange);
            },
        };
        if !self.constants_hold(&depth) {
            return Err(GateError::EvidenceConstants);
        }
        match self.derive(context) {
            None => Err(GateError::NumericRange),
            Some(d) => if self.trend_strength.equals(&d.trend) && self.location_strength.equals(
                &d.location,
            ) && self.market_score.equals(&d.score) && self.market_signal_passed == d.passed
                && self.resource_ratio.equals(&d.ratio) && self.resource_multiplier.equals(
                &d.multiplier,
            ) && self.pace.equals(&d.pace) && self.predecision_blocked_units == d.blocked
                && self.target_units == d.target {
                Ok(())
            } else {
                Err(GateError::EvidenceDerivation)
            },
        }
    }
}

/// Why an answer with a given digest is refused, if it is.
pub open spec fn answer_fault(
    g: GateDecisionView,
    c: GateContextView,
    hash: Seq<char>,
    action: Option<Seq<char>>,
) -> Option<GateError> {
    if !in_unit_interval(g.probability) || !in_unit_interval(g.alpha) {
        Some(GateError::OutsideUnitInterval)
    } else if blank(g.model_name) || blank(g.model_version) || g.reason_codes.len() == 0 {
        Some(GateError::MissingAudit)
    } else if g.action != "EXECUTE"@ && g.action != "SKIP"@ {
        Some(GateError::UnknownAction)
    } else if action is Some && g.action != action->0 {
        Some(GateError::ActionMismatch)
    } else if g.input_snapshot_hash != hash {
        Some(GateError::HashMismatch)
    } else if g.decided_at != c.current_time {
        Some(GateError::TimeMismatch)
    } else {
        None
    }
}

/// Whether the exact ratio of an answer is that of the exercised to the
/// offered units.
pub open spec fn ratio_in_order(g: GateDecisionView, c: GateContextView, exercise: i64) -> bool {
    match (g.alpha_numerator, g.alpha_denominator) {
        (Some(n), Some(d)) => {
            &&& 0 <= n <= d
            &&& c.available_quantity.checked_div(c.standard_quantity) == Some(d)
            &&& exercise.checked_div(c.standard_quantity) == Some(n)
        },
        _ => false,
    }
}

/// Whether the units that an answer is held against can be counted: those of the
/// offer where the answer lies in range, those that are traded where it names
/// its exact ratio too.
pub open spec fn units_countable(g: GateDecisionView, c: GateContextView, exercise: i64) -> bool {
    in_unit_interval(g.probability) && in_unit_interval(g.alpha) ==> {
        &&& c.available_quantity.checked_div(c.standard_quantity) is Some
        &&& g.alpha_numerator is Some && g.alpha_denominator is Some ==> exercise.checked_div(
            c.standard_quantity,
        ) is Some
    }
}

/// The share of `n` in `d`; nothing of nothing is zero.
pub open spec fn exact_share(n: i64, d: i64) -> Option<Decimal> {
    if d == 0 {
        Some(Decimal::zero())
    } else {
        over(Decimal::whole(n as int), Decimal::whole(d as int))
    }
}

/// The share of `n` in `d`.
pub fn share_in(n: i64, d: i64) -> (r: Option<Decimal>)
    ensures
        r == exact_share(n, d),
{
    if d == 0 {
        Some(Decimal::nil())
    } else {
        Decimal::from_i64(n).checked_div(Decimal::from_i64(d))
    }
}

/// Why an answer of contract version four is refused, if it is.
pub open spec fn exact_answer_fault(
    g: GateDecisionView,
    c: GateContextView,
    exercise: i64,
) -> Option<GateError> {
    if !in_unit_interval(g.probability) || !in_unit_interval(g.alpha) {
        Some(GateError::OutsideUnitInterval)
    } else if !ratio_in_order(g, c, exercise) {
        Some(GateError::Ratio)
    } else {
        match exact_share(g.alpha_numerator->0, g.alpha_denominator->0) {
            None => Some(GateError::NumericRange),
            Some(share) => if g.alpha.units() != share.units() {
                Some(GateError::Ratio)
            } else if c.funds_inventory is None {
                Some(GateError::MissingEvidence)
            } else {
                answer_fault(g, c, context_digest(c, DECISION_CONTRACT_VERSION), None)
            },
        }
    }
}

/// The action of a share in the version two contract.
pub open spec fn action_of_share(alpha: Decimal) -> Seq<char> {
    if alpha.units() == 0 {
        "SKIP"@
    } else {
        "EXECUTE"@
    }
}

/// The digest of a context under the whole-unit contract.
pub fn context_hash(context: &GateContext) -> (r: String)
    ensures
        r@ == context_digest(context@, WHOLE_UNIT_DECISION_CONTRACT_VERSION),
{
    digest_context(context, WHOLE_UNIT_DECISION_CONTRACT_VERSION)
}

/// The digest of a context under the contract that is denominated in budgets.
pub fn legacy_v2_context_hash(context: &GateContext) -> (r: String)
    ensures
        r@ == context_digest(context@, LEGACY_DECISION_CONTRACT_VERSION),
{
    digest_context(context, LEGACY_DECISION_CONTRACT_VERSION)
}

/// The digest of a context with its evidence.
pub fn context_hash_v4(context: &GateContext) -> (r: Result<String, GateError>)
    ensures
        match r {
            Ok(h) => context@.funds_inventory is Some && h@ == context_digest(
                context@,
                DECISION_CONTRACT_VERSION,
            ),
            Err(e) => context@.funds_inventory is None && e == GateError::MissingEvidence,
        },
{
    if context.funds_inventory.is_none() {
        return Err(GateError::MissingEvidence);
    }
    Ok(digest_context(context, DECISION_CONTRACT_VERSION))
}

/// The verdict of a check.
pub open spec fn verdict(fault: Option<GateError>) -> Result<(), GateError> {
    match fault {
        Some(e) => Err(e),
        None => Ok(()),
    }
}

impl GateDecision {
    /// Checks an answer of contract version three.
    pub fn validate_for(&self, context: &GateContext) -> (r: Result<(), GateError>)
        ensures
            r == verdict(
                answer_fault(
                    self@,
                    context@,
                    context_digest(context@, WHOLE_UNIT_DECISION_CONTRACT_VERSION),
                    None,
                ),
            ),
    {
        let hash = context_hash(context);
        self.validate_for_hash(context, hash.as_str(), None)
    }

    /// Checks an answer of contract version four.
    pub fn validate_for_v4(&self, context: &GateContext, exercise_quantity: i64) -> (r: Result<
        (),
        GateError,
    >)
        requires
            units_countable(self@, context@, exercise_quantity),
        ensures
            r == verdict(exact_answer_fault(self@, context@, exercise_quantity)),
    {
        if !is_in_unit_interval(&self.probability) || !is_in_unit_interval(&self.alpha) {
            return Err(GateError::OutsideUnitInterval);
        }
        let denominator: i64 = context.available_quantity.checked_div(
            context.standard_quantity,
        ).unwrap();
        let (n, d): (i64, i64) = match (self.alpha_numerator, self.alpha_denominator) {
            (Some(n), Some(d)) => (n, d),
            _ => {
                return Err(GateError::Ratio);
            },
        };
        let expected_numerator: i64 = exercise_quantity.checked_div(
            context.standard_quantity,
        ).unwrap();
        if n < 0 || d != denominator || n != expected_numerator || n > d {
            return Err(GateError::Ratio);
        }
        let exact_alpha = match share_in(n, d) {
            Some(share) => share,
            None => {
                return Err(GateError::NumericRange);
            },
        };
        if !self.alpha.equals(&exact_alpha) {
            return Err(GateError::Ratio);
        }
        match context_hash_v4(context) {
            Ok(hash) => self.validate_for_hash(context, hash.as_str(), None),
            Err(e) => Err(e),
        }
    }

    /// Checks an answer of contract version two.
    pub fn validate_for_legacy_v2(&self, context: &GateContext) -> (r: Result<(), GateError>)
        ensures
            r == verdict(
                answer_fault(
                    self@,
                    context@,
                    context_digest(context@, LEGACY_DECISION_CONTRACT_VERSION),
                    Some(action_of_share(self@.alpha)),
                ),
            ),
    {
        let expected_action = if self.alpha.is_zero() {
            "SKIP"
        } else {
            "EXECUTE"
        };
        let hash = legacy_v2_context_hash(context);
        self.validate_for_hash(context, hash.as_str(), Some(expected_action))
    }

    fn validate_for_hash(
        &self,
        context: &GateContext,
        expected_hash: &str,
        expected_action: Option<&str>,
    ) -> (r: Result<(), GateError>)
        ensures
            r == verdict(
                answer_fault(
                    self@,
                    context@,
                    expected_hash@,
                    (match expected_action {
                        Some(a) => Some(a@),
                        None => None,
                    }),
                ),
            ),
    {
        if !is_in_unit_interval(&self.probability) || !is_in_unit_interval(&self.alpha) {
            return Err(GateError::OutsideUnitInterval);
        }
        if is_blank(self.model_name.as_str()) || is_blank(self.model_version.as_str())
            || self.reason_codes.len() == 0 {
            return Err(GateError::MissingAudit);
        }
        if !text_eq(self.action.as_str(), "EXECUTE") && !text_eq(self.action.as_str(), "SKIP") {
            return Err(GateError::UnknownAction);
        }
        if let Some(expected) = expected_action {
            if !text_eq(self.action.as_str(), expected) {
                return Err(GateError::ActionMismatch);
            }
        }
        if !text_eq(self.input_snapshot_hash.as_str(), expected_hash) {
            return Err(GateError::HashMismatch);
        }
        if !self.decided_at.same(&context.current_time) {
            return Err(GateError::TimeMismatch);
        }
        Ok(())
    }
}

/// Whether the share of the authorized units that a gate allows is at least one
/// unit. Nothing where the product leaves the range.
pub open spec fn discrete_action(c: GateContextView, alpha: Decimal) -> Option<Seq<char>> {
    if c.standard_quantity <= 0 || c.algorithm_authorized_quantity <= 0 {
        Some("SKIP"@)
    } else {
        match times(
            Decimal::whole(
                trunc_div(c.algorithm_authorized_quantity as int, c.standard_quantity as int),
            ),
            alpha,
        ) {
            None => None,
            Some(x) => if floored(x).units() > 0 {
                Some("EXECUTE"@)
            } else {
                Some("SKIP"@)
            },
        }
    }
}

fn current_discrete_action(context: &GateContext, alpha: Decimal) -> (r: Option<&'static str>)
    ensures
        match r {
            Some(a) => discrete_action(context@, alpha) == Some(a@),
            None => discrete_action(context@, alpha) is None,
        },
{
    if context.standard_quantity <= 0 || context.algorithm_authorized_quantity <= 0 {
        return Some("SKIP");
    }
    let authorized_units: i64 = quotient(
        context.algorithm_authorized_quantity,
        context.standard_quantity,
    );
    match Decimal::from_i64(authorized_units).checked_mul(alpha) {
        None => None,
        Some(x) => if x.floor().is_positive() {
            Some("EXECUTE")
        } else {
            Some("SKIP")
        },
    }
}

/// The answer of a gate with the given probability, share, reasons and name.
pub open spec fn gate_answer(
    c: GateContextView,
    probability: Decimal,
    alpha: Decimal,
    reasons: Seq<Seq<char>>,
    model: Seq<char>,
) -> Result<GateDecisionView, GateError> {
    if !in_unit_interval(probability) || !in_unit_interval(alpha) {
        Err(GateError::OutsideUnitInterval)
    } else {
        match discrete_action(c, alpha) {
            None => Err(GateError::NumericRange),
            Some(action) => Ok(
                GateDecisionView {
                    probability,
                    alpha,
                    alpha_numerator: None,
                    alpha_denominator: None,
                    action,
                    reason_codes: reasons,
                    model_name: model,
                    model_version: "1"@,
                    input_snapshot_hash: context_digest(
                        c,
                        WHOLE_UNIT_DECISION_CONTRACT_VERSION,
                    ),
                    decided_at: c.current_time,
                },
            ),
        }
    }
}

/// A result by its content.
pub open spec fn answer_view(r: Result<GateDecision, GateError>) -> Result<
    GateDecisionView,
    GateError,
> {
    match r {
        Ok(g) => Ok(g@),
        Err(e) => Err(e),
    }
}

fn decision(
    context: &GateContext,
    probability: Decimal,
    alpha: Decimal,
    reasons: Vec<String>,
    model: &str,
) -> (r: Result<GateDecision, GateError>)
    ensures
        answer_view(r) == gate_answer(
            context@,
            probability,
            alpha,
            reasons.deep_view(),
            model@,
        ),
{
    if !is_in_unit_interval(&probability) || !is_in_unit_interval(&alpha) {
        return Err(GateError::OutsideUnitInterval);
    }
    let hash = context_hash(context);
    match current_discrete_action(context, alpha) {
        None => Err(GateError::NumericRange),
        Some(action) => Ok(
            GateDecision {
                probability,
                alpha,
                alpha_numerator: None,
                alpha_denominator: None,
                action: action.to_owned(),
                reason_codes: reasons,
                model_name: model.to_owned(),
                model_version: "1".to_owned(),
                input_snapshot_hash: hash,
                decided_at: context.current_time,
            },
        ),
    }
}

/// A policy that turns a context into an answer.
pub trait GatePolicy {
    /// What the policy answers.
    spec fn answer(&self, c: GateContextView) -> Result<GateDecisionView, GateError>;

    /// Answers a context.
    fn evaluate(&self, context: &GateContext) -> (r: Result<GateDecision, GateError>)
        ensures
            answer_view(r) == self.answer(context@),
    ;
}

/// Always trades all of it.
#[derive(Clone, Copy, Debug)]
pub struct AlwaysExecuteGate;

impl GatePolicy for AlwaysExecuteGate {
    open spec fn answer(&self, c: GateContextView) -> Result<GateDecisionView, GateError> {
        gate_answer(
            c,
            Decimal::one(),
            Decimal::one(),
            seq!["MECHANICAL_BASELINE"@],
            "always-execute"@,
        )
    }

    fn evaluate(&self, context: &GateContext) -> (r: Result<GateDecision, GateError>) {
        let mut reasons: Vec<String> = Vec::new();
        reasons.push("MECHANICAL_BASELINE".to_owned());
        assert(reasons.deep_view() =~= seq!["MECHANICAL_BASELINE"@]);
        decision(
            context,
            Decimal::unit(),
            Decimal::unit(),
            reasons,
            "always-execute",
        )
    }
}

/// Always answers the same probability and share.
#[derive(Clone, Copy, Debug)]
pub struct FixedGate {
    pub probability: Decimal,
    pub alpha: Decimal,
}

impl GatePolicy for FixedGate {
    open spec fn answer(&self, c: GateContextView) -> Result<GateDecisionView, GateError> {
        gate_answer(
            c,
            self.probability,
            self.alpha,
            seq!["FIXED_CONFIGURATION"@],
            "fixed"@,
        )
    }

    fn evaluate(&self, context: &GateContext) -> (r: Result<GateDecision, GateError>) {
        let mut reasons: Vec<String> = Vec::new();
        reasons.push("FIXED_CONFIGURATION".to_owned());
        assert(reasons.deep_view() =~= seq!["FIXED_CONFIGURATION"@]);
        decision(context, self.probability, self.alpha, reasons, "fixed")
    }
}

/// Scores a few simple signs.
#[derive(Clone, Copy, Debug)]
pub struct SimpleRuleGate;

/// Whether the price has fallen against a buy.
pub open spec fn recent_weakness(c: GateContextView) -> bool {
    c.direction == Direction::Buy && c.recent_return.units() < Decimal::of(-1, 2).units()
}

/// Whether a buy is below the average price.
pub open spec fn below_average(c: GateContextView) -> bool {
    c.direction == Direction::Buy && c.vwap_deviation.units() < 0
}

/// Whether the market goes down against a buy.
pub open spec fn market_down(c: GateContextView) -> bool {
    c.direction == Direction::Buy && c.market_regime == "DOWN"@
}

/// Whether the price has risen for a sell.
pub open spec fn recent_strength(c: GateContextView) -> bool {
    c.direction == Direction::Sell && c.recent_return.units() > Decimal::of(1, 2).units()
}

/// Whether the market is rough.
pub open spec fn high_volatility(c: GateContextView) -> bool {
    c.volatility.units() > Decimal::of(5, 2).units()
}

/// One where it holds.
pub open spec fn point(b: bool) -> int {
    if b {
        1
    } else {
        0
    }
}

/// Two points, with one more for each good sign and one less for each bad one,
/// from none to four.
pub open spec fn rule_score(c: GateContextView) -> int {
    let raw = 2 + point(recent_weakness(c)) + point(below_average(c)) - point(market_down(c))
        + point(recent_strength(c)) - point(high_volatility(c));
    if raw < 0 {
        0
    } else if raw > 4 {
        4
    } else {
        raw
    }
}

/// The list, with the reason at its end where it holds.
pub open spec fn noted(reasons: Seq<Seq<char>>, holds: bool, reason: Seq<char>) -> Seq<Seq<char>> {
    if holds {
        reasons.push(reason)
    } else {
        reasons
    }
}

/// The signs that hold, in order; one word where there are none.
pub open spec fn rule_reasons(c: GateContextView) -> Seq<Seq<char>> {
    let r = Seq::empty();
    let r = noted(r, recent_weakness(c), "RECENT_WEAKNESS"@);
    let r = noted(r, below_average(c), "BELOW_VWAP"@);
    let r = noted(r, market_down(c), "MARKET_DOWN_RISK"@);
    let r = noted(r, recent_strength(c), "RECENT_STRENGTH"@);
    let r = noted(r, high_volatility(c), "HIGH_VOLATILITY"@);
    noted(r, r.len() == 0, "NEUTRAL_RULES"@)
}

fn note(reasons: &mut Vec<String>, holds: bool, reason: &str)
    ensures
        final(reasons).deep_view() == noted(old(reasons).deep_view(), holds, reason@),
{
    if holds {
        let ghost before = reasons.deep_view();
        reasons.push(reason.to_owned());
        assert(reasons.deep_view() =~= before.push(reason@));
    }
}

impl GatePolicy for SimpleRuleGate {
    open spec fn answer(&self, c: GateContextView) -> Result<GateDecisionView, GateError> {
        match over(Decimal::whole(rule_score(c)), Decimal::whole(4)) {
            None => Err(GateError::NumericRange),
            Some(alpha) => gate_answer(c, alpha, alpha, rule_reasons(c), "simple-rule"@),
        }
    }

    fn evaluate(&self, context: &GateContext) -> (r: Result<GateDecision, GateError>) {
        let buys = matches!(context.direction, Direction::Buy);
        let weak = buys && context.recent_return.below(&fixed(-1, 2));
        let cheap = buys && context.vwap_deviation.is_negative();
        let falling = buys && text_eq(context.market_regime.as_str(), "DOWN");
        let strong = !buys && fixed(1, 2).below(&context.recent_return);
        let rough = fixed(5, 2).below(&context.volatility);
        let mut score: i64 = 2;
        let mut reasons: Vec<String> = Vec::new();
        assert(reasons.deep_view() =~= Seq::empty());
        if weak {
            score = score + 1;
        }
        if cheap {
            score = score + 1;
        }
        if falling {
            score = score - 1;
        }
        if strong {
            score = score + 1;
        }
        if rough {
            score = score - 1;
        }
        note(&mut reasons, weak, "RECENT_WEAKNESS");
        note(&mut reasons, cheap, "BELOW_VWAP");
        note(&mut reasons, falling, "MARKET_DOWN_RISK");
        note(&mut reasons, strong, "RECENT_STRENGTH");
        note(&mut reasons, rough, "HIGH_VOLATILITY");
        let neutral = reasons.len() == 0;
        note(&mut reasons, neutral, "NEUTRAL_RULES");
        if score > 4 {
            score = 4;
        }
        if score < 0 {
            score = 0;
        }
        assert(score == rule_score(context@));
        match Decimal::from_i64(score).checked_div(Decimal::from_i64(4)) {
            None => Err(GateError::NumericRange),
            Some(alpha) => decision(context, alpha, alpha, reasons, "simple-rule"),
        }
    }
}

/// The gates that a configuration can name.
#[derive(Clone, Copy, Debug)]
pub enum ConfiguredGate {
    AlwaysExecute(AlwaysExecuteGate),
    Fixed(FixedGate),
    SimpleRule(SimpleRuleGate),
}

impl GatePolicy for ConfiguredGate {
    open spec fn answer(&self, c: GateContextView) -> Result<GateDecisionView, GateError> {
        match *self {
            ConfiguredGate::AlwaysExecute(g) => g.answer(c),
            ConfiguredGate::Fixed(g) => g.answer(c),
            ConfiguredGate::SimpleRule(g) => g.answer(c),
        }
    }

    fn evaluate(&self, context: &GateContext) -> (r: Result<GateDecision, GateError>) {
        match self {
            ConfiguredGate::AlwaysExecute(g) => g.evaluate(context),
            ConfiguredGate::Fixed(g) => g.evaluate(context),
            ConfiguredGate::SimpleRule(g) => g.evaluate(context),
        }
    }
}

/// The kind of gate that a configuration names.
pub open spec fn named_gate(c: ConfigView) -> Option<ConfiguredGate> {
    if c.gate.kind == "always_execute"@ {
        Some(ConfiguredGate::AlwaysExecute(AlwaysExecuteGate))
    } else if c.gate.kind == "fixed"@ {
        Some(
            ConfiguredGate::Fixed(
                FixedGate { probability: c.gate.probability, alpha: c.gate.alpha },
            ),
        )
    } else if c.gate.kind == "simple_rule"@ {
        Some(ConfiguredGate::SimpleRule(SimpleRuleGate))
    } else {
        None
    }
}

/// The kind of gate that a configuration names.
pub fn from_config(config: &Config) -> (r: Result<ConfiguredGate, GateError>)
    ensures
        r == (match named_gate(config@) {
            Some(g) => Ok::<ConfiguredGate, GateError>(g),
            None => Err::<ConfiguredGate, GateError>(GateError::UnknownGate),
        }),
{
    let kind = config.gate.kind.as_str();
    if text_eq(kind, "always_execute") {
        Ok(ConfiguredGate::AlwaysExecute(AlwaysExecuteGate))
    } else if text_eq(kind, "fixed") {
        Ok(
            ConfiguredGate::Fixed(
                FixedGate { probability: config.gate.probability, alpha: config.gate.alpha },
            ),
        )
    } else if text_eq(kind, "simple_rule") {
        Ok(ConfiguredGate::SimpleRule(SimpleRuleGate))
    } else {
        Err(GateError::UnknownGate)
    }
}

/// What a gate answers is accepted for the context that it was asked on.
pub proof fn law_gate_answers_are_accepted(
    c: GateContextView,
    probability: Decimal,
    alpha: Decimal,
    reasons: Seq<Seq<char>>,
    model: Seq<char>,
)
    requires
        gate_answer(c, probability, alpha, reasons, model) is Ok,
        reasons.len() > 0,
        !blank(model),
    ensures
        answer_fault(
            gate_answer(c, probability, alpha, reasons, model)->Ok_0,
            c,
            context_digest(c, WHOLE_UNIT_DECISION_CONTRACT_VERSION),
            None,
        ) is None,
{
    reveal_strlit("1");
    assert(!crate::text::white_space("1"@[0]));
}

/// The evidence never asks for more units than the resources and the mechanical
/// authority offer, nor for more than two.
pub proof fn law_target_is_bounded(offered: i64, pace: Decimal)
    requires
        paced_units(offered, pace) is Some,
        offered >= 1,
    ensures
        1 <= paced_units(offered, pace)->0 <= offered,
        paced_units(offered, pace)->0 <= 2,
{
}

} // verus!

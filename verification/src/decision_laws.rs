//! What holds of every decision: what is asked, what is answered and how the answer
//! splits the offer.
use crate::arith::trunc_div;
use crate::decimal::{
    floored, lemma_of_parts, lemma_times_exact, lemma_units_sign, multiplies_exactly, times,
    truncated, Decimal,
};
use crate::decision::{
    adapted_answer, gate_outcome, registered, request_fault, resource_decision, resource_reasons,
    response_fault, DecisionError,
};
use crate::gate::{answer_fault, evidence_fault, GateError};
use crate::gate_laws::{lemma_unit, unit};
use crate::grid_laws::lemma_whole_part;
use crate::model::gates::{
    AlgorithmManifestView, DecisionRequestView, DecisionResponseView, FundsInventoryContextV1View,
    GateDecisionView,
};
use crate::model::market::Direction;
use crate::text::blank;
use vstd::prelude::*;

verus! {

/// A share of less than all trades the whole part of that much of the whole units, the
/// share of all trades all of it, and what is not a share trades nothing. The rest is
/// kept, and an outcome exercises exactly where it trades something.
pub proof fn law_shares_trade_whole_units(alpha: Decimal, authorized: i64, q: i64)
    requires
        alpha.valid(),
        authorized >= 0,
        q > 0,
        multiplies_exactly(Decimal::whole(authorized as int / q as int), alpha),
        gate_outcome(alpha, authorized, q) is Some,
    ensures
        ({
            let d = gate_outcome(alpha, authorized, q)->0;
            let k = authorized as int / q as int;
            &&& d.exercised() + d.deferred() == authorized
            &&& d is Exercise <==> d.exercised() > 0
            &&& alpha.units() < 0 || alpha.units() > unit() ==> d.exercised() == 0
            &&& alpha.units() == unit() ==> d.exercised() == authorized
            &&& 0 <= alpha.units() < unit() ==> exists|n: int|
                0 <= n <= k && d.exercised() == #[trigger] (n * q) && n * unit() <= k
                    * alpha.units() < (n + 1) * unit()
        }),
{
    lemma_unit();
    crate::decision::law_gate_outcome_conserves(alpha, authorized, q);
    let k = authorized as int / q as int;
    assert(0 <= k <= authorized && k * q <= authorized) by (nonlinear_arith)
        requires
            k == authorized as int / q as int,
            authorized >= 0,
            q >= 1,
    ;
    if 0 <= alpha.units() < unit() {
        lemma_of_parts(k, 0);
        let a = Decimal::whole(k);
        lemma_times_exact(a, alpha);
        let x = times(a, alpha)->0;
        let w = unit();
        let xu = x.units();
        let au = alpha.units();
        assert(xu == k * au && 0 <= xu <= k * w) by (nonlinear_arith)
            requires
                xu * w == (k * w) * au,
                w >= 1,
                k >= 0,
                0 <= au < w,
        ;
        lemma_units_sign(x);
        lemma_whole_part(x);
        let n = truncated(floored(x));
        assert(n <= k) by (nonlinear_arith)
            requires
                n * w <= xu <= k * w,
                w >= 1,
        ;
        assert(0 <= n * q <= k * q) by (nonlinear_arith)
            requires
                0 <= n <= k,
                q >= 1,
        ;
        let d = gate_outcome(alpha, authorized, q)->0;
        assert(d.exercised() == n * q);
    }
}

/// The capacity of a right: what a buy right offers in shares, and else what is eligible.
pub open spec fn capacity_of(r: DecisionRequestView) -> int {
    if r.right.direction == Direction::Buy && r.right.capacity.available_quantity > 0 {
        r.right.capacity.available_quantity as int
    } else {
        r.right.capacity.eligible_quantity as int
    }
}

/// An accepted request speaks of its right in a known contract and in whole lots. In the
/// contracts of whole units it splits the capacity of the right into whole units and a
/// rest of less than one; the last one offers what its evidence leaves of the units after
/// what the resources block, and the others offer all of it without evidence.
pub proof fn law_accepted_requests(r: DecisionRequestView)
    requires
        request_fault(r) is None,
    ensures
        ({
            let c = r.context;
            let q = c.standard_quantity as int;
            &&& 2 <= r.contract_version <= 4
            &&& c.right_id == r.right.right_id && c.direction == r.right.direction && c.grid_index
                == r.right.grid_index
            &&& c.grid_price.units() == r.right.grid_price.units()
            &&& c.available_budget.units() == r.right.capacity.available_budget.units()
            &&& c.lot_size > 0 && q > 0
            &&& c.available_quantity as int % c.lot_size as int == 0
            &&& q % c.lot_size as int == 0
            &&& r.contract_version == 2 ==> c.available_quantity == capacity_of(r)
                && c.funds_inventory is None
            &&& r.contract_version >= 3 ==> {
                &&& c.gross_available_quantity == capacity_of(r)
                &&& c.algorithm_authorized_quantity + c.platform_residual_quantity
                    == c.gross_available_quantity
                &&& 0 <= c.platform_residual_quantity < q
                &&& c.algorithm_authorized_quantity >= 0
                &&& c.algorithm_authorized_quantity as int % q == 0
            }
            &&& r.contract_version == 3 ==> c.available_quantity == c.algorithm_authorized_quantity
                && c.funds_inventory is None
            &&& r.contract_version == 4 ==> (c.funds_inventory matches Some(f) && {
                &&& evidence_fault(f, c) is None
                &&& f.mechanical_authorized_units * q == c.algorithm_authorized_quantity
                &&& c.available_quantity == (f.mechanical_authorized_units
                    - f.predecision_blocked_units) * q
                &&& 0 <= f.predecision_blocked_units <= f.mechanical_authorized_units
                &&& f.mechanical_authorized_units - f.predecision_blocked_units <= f.resource_units
                &&& f.predecision_blocked_units == 0 || f.mechanical_authorized_units
                    - f.predecision_blocked_units == f.resource_units
            })
        }),
{
    let c = r.context;
    if r.contract_version >= 3 {
        let g = crate::decision::gross_quantity(r.right);
        crate::decision::law_partition_conserves(g, c.standard_quantity);
        let p = crate::decision::unit_partition(g, c.standard_quantity)->0;
        let x = p.0 as int;
        let q = c.standard_quantity as int;
        vstd::arithmetic::div_mod::lemma_fundamental_div_mod(x, q);
        assert((x / q) * q == x) by (nonlinear_arith)
            requires
                x == q * (x / q) + x % q,
                x % q == 0,
        ;
        assert(x / q >= 0) by (nonlinear_arith)
            requires
                x >= 0,
                q > 0,
        ;
    }
}

/// An accepted answer is to its request, and splits the offer into whole units that are
/// traded and kept; its action says whether something is traded. Under the contract with
/// evidence a success trades the target of the evidence, and a failure nothing.
pub proof fn law_accepted_responses(a: DecisionResponseView, r: DecisionRequestView, succeeded: bool)
    requires
        response_fault(a, r, succeeded) is None,
    ensures
        request_fault(r) is None,
        a.contract_version == r.contract_version && a.request_id == r.request_id,
        a.right_id == r.right.right_id,
        a.outcome.exercised() >= 0 && a.outcome.deferred() >= 0,
        a.outcome.exercised() + a.outcome.deferred() == r.context.available_quantity,
        r.contract_version >= 3 ==> a.outcome.exercised() as int % r.context.standard_quantity as int
            == 0 && a.outcome.deferred() as int % r.context.standard_quantity as int == 0,
        r.contract_version == 2 ==> a.outcome.exercised() as int % r.context.lot_size as int == 0
            && a.outcome.deferred() as int % r.context.lot_size as int == 0,
        a.outcome is Exercise <==> a.outcome.exercised() > 0,
        r.contract_version >= 3 ==> a.decision.action == (if a.outcome.exercised() > 0 {
            "EXECUTE"@
        } else {
            "SKIP"@
        }),
        r.contract_version == 2 ==> a.decision.action == (if a.decision.alpha.units() == 0 {
            "SKIP"@
        } else {
            "EXECUTE"@
        }),
        0 <= a.decision.alpha.units() <= unit(),
        0 <= a.decision.probability.units() <= unit(),
        a.decision.decided_at == r.context.current_time,
        r.contract_version == 4 && succeeded ==> (r.context.funds_inventory matches Some(f)
            && a.outcome.exercised() == f.target_units * r.context.standard_quantity),
        r.contract_version == 4 && !succeeded ==> a.outcome.exercised() == 0
            && a.outcome.deferred() == r.context.available_quantity && a.decision.action == "SKIP"@
            && a.decision.reason_codes.contains("RESOURCE_FAIL_CLOSED"@),
{
    lemma_unit();
}

/// The resource-aware algorithm answers only under the contract with evidence. It trades
/// the target of the evidence, which is none where the market does not speak for a trade,
/// and never more than two units nor than the offer.
pub proof fn law_resource_aware_answers(r: DecisionRequestView)
    requires
        resource_decision(r) is Ok,
    ensures
        ({
            let a = resource_decision(r)->Ok_0;
            let q = r.context.standard_quantity;
            &&& response_fault(a, r, true) is None
            &&& r.contract_version == 4
            &&& r.context.funds_inventory matches Some(f) && {
                &&& a.outcome.exercised() == f.target_units * q
                &&& 0 <= f.target_units <= 2
                &&& a.outcome.exercised() > 0 ==> f.market_signal_passed
                &&& f.market_signal_passed && r.context.available_quantity >= q
                    ==> a.outcome.exercised() > 0
                &&& a.decision.alpha_numerator == Some(f.target_units)
                &&& a.decision.probability == f.market_score
            }
        }),
{
    let a = resource_decision(r)->Ok_0;
    law_accepted_responses(a, r, true);
    law_accepted_requests(r);
    let q = r.context.standard_quantity as int;
    let available = r.context.available_quantity as int;
    let f = r.context.funds_inventory->0;
    let n = f.mechanical_authorized_units - f.predecision_blocked_units;
    assert(n >= 0 && available == n * q);
    assert(available / q == n) by {
        vstd::arithmetic::div_mod::lemma_div_multiples_vanish(n, q);
        assert(n * q == q * n) by (nonlinear_arith);
    }
    let offered = trunc_div(available, q) as i64;
    assert(offered == n);
    let t = f.target_units;
    if f.market_signal_passed && offered != 0 {
        crate::gate::law_target_is_bounded(offered, f.pace);
    }
    assert(t > 0 <==> t * q > 0) by (nonlinear_arith)
        requires
            q > 0,
    ;
    assert(available >= q ==> n > 0) by (nonlinear_arith)
        requires
            available == n * q,
            q > 0,
            n >= 0,
    ;
}

/// A gate that decides has its share taken of the offer; its own error stands, and no
/// answer is given that would not be accepted.
pub proof fn law_gate_answers_are_adapted(
    r: DecisionRequestView,
    answer: Result<GateDecisionView, GateError>,
)
    ensures
        request_fault(r) matches Some(e) ==> adapted_answer(r, answer) == Err::<
            DecisionResponseView,
            DecisionError,
        >(e),
        request_fault(r) is None ==> (answer matches Err(e) ==> adapted_answer(r, answer) == Err::<
            DecisionResponseView,
            DecisionError,
        >(DecisionError::Gate(e))),
        adapted_answer(r, answer) matches Ok(a) ==> (answer matches Ok(g) && a.decision == g
            && gate_outcome(
            g.alpha,
            r.context.available_quantity,
            r.context.standard_quantity,
        ) == Some(a.outcome) && response_fault(a, r, true) is None),
{
}

/// A process is registered only where it names itself, is deterministic and keeps no
/// state, and only for contracts of whole units. What it says of its program, arguments
/// and platform is replaced by what was measured.
pub proof fn law_processes_are_measured(
    m: AlgorithmManifestView,
    artifact: Seq<char>,
    arguments: Seq<Seq<char>>,
    platform: Seq<char>,
)
    ensures
        registered(m, artifact, arguments, platform) matches Ok(x) ==> {
            &&& !blank(m.algorithm_name) && !blank(m.algorithm_version)
            &&& m.deterministic && !m.supports_checkpoint
            &&& m.supported_contract_versions.len() > 0
            &&& forall|i: int|
                0 <= i < m.supported_contract_versions.len() ==> 3 <= (
                #[trigger] m.supported_contract_versions[i]) <= 4
            &&& x.artifact_sha256 == artifact && x.canonical_arguments == arguments
                && x.platform_sha256 == platform
            &&& x.algorithm_name == m.algorithm_name && x.algorithm_version == m.algorithm_version
            &&& x.supported_contract_versions == m.supported_contract_versions
            &&& x.deterministic && !x.supports_checkpoint
        },
{
}

/// A resource-aware answer gives its reasons: first that its history is short, that the
/// market does not speak for a trade, or that it does; that the resources capped it where
/// they did; and last whether something is traded.
pub proof fn law_resource_reasons(f: FundsInventoryContextV1View, target: i64)
    ensures
        ({
            let r = resource_reasons(f, target);
            &&& r.len() == (if f.predecision_blocked_units > 0 {
                3int
            } else {
                2int
            })
            &&& r[0] == (if f.history_bars < f.long_window {
                "RESOURCE_SIGNAL_WARMUP"@
            } else if f.market_signal_passed {
                "RESOURCE_MARKET_SIGNAL_PASSED"@
            } else {
                "RESOURCE_MARKET_THRESHOLD_NOT_MET"@
            })
            &&& f.predecision_blocked_units > 0 ==> r[1] == "RESOURCE_CAP_APPLIED"@
            &&& r.last() == (if target > 0 {
                "RESOURCE_TARGET_EXERCISE"@
            } else {
                "RESOURCE_TARGET_SKIP"@
            })
        }),
{
}

/// A request that speaks of its right in whole lots is accepted: in the first contract with
/// the capacity of the right and no evidence, in the second one with the whole units of it
/// offered, the rest beside them and no evidence.
pub proof fn law_canonical_requests_are_accepted(r: DecisionRequestView)
    requires
        ({
            let c = r.context;
            let q = c.standard_quantity as int;
            &&& c.right_id == r.right.right_id && c.direction == r.right.direction && c.grid_index
                == r.right.grid_index
            &&& c.grid_price.units() == r.right.grid_price.units()
            &&& c.available_budget.units() == r.right.capacity.available_budget.units()
            &&& c.lot_size > 0 && q > 0
            &&& c.available_quantity as int % c.lot_size as int == 0
            &&& q % c.lot_size as int == 0
            &&& c.funds_inventory is None
        }),
    ensures
        r.contract_version == 2 && r.context.available_quantity == capacity_of(r) ==> request_fault(
            r,
        ) is None,
        r.contract_version == 3 && capacity_of(r) >= 0 && r.context.gross_available_quantity
            == capacity_of(r) && r.context.platform_residual_quantity == capacity_of(r)
            % r.context.standard_quantity as int && r.context.algorithm_authorized_quantity
            == capacity_of(r) - r.context.platform_residual_quantity && r.context.available_quantity
            == r.context.algorithm_authorized_quantity ==> request_fault(r) is None,
        r.contract_version < 2 || r.contract_version > 4 ==> request_fault(r) == Some(
            DecisionError::UnsupportedContract,
        ),
{
    if capacity_of(r) >= 0 {
        crate::decision::law_partition_conserves(
            crate::decision::gross_quantity(r.right),
            r.context.standard_quantity,
        );
    }
}

/// An answer of the second contract that splits the offer of an accepted request into whole
/// units, with an answer of a gate on it and the action that fits, is accepted.
pub proof fn law_splitting_answers_are_accepted(a: DecisionResponseView, r: DecisionRequestView)
    requires
        request_fault(r) is None,
        r.contract_version == 3,
        a.contract_version == 3 && a.request_id == r.request_id && a.right_id == r.right.right_id,
        a.outcome.exercised() >= 0 && a.outcome.deferred() >= 0,
        a.outcome.exercised() + a.outcome.deferred() == r.context.available_quantity,
        a.outcome.exercised() as int % r.context.standard_quantity as int == 0,
        a.outcome.deferred() as int % r.context.standard_quantity as int == 0,
        a.outcome is Exercise <==> a.outcome.exercised() > 0,
        answer_fault(
            a.decision,
            r.context,
            crate::notation::context_digest(r.context, 3),
            None,
        ) is None,
        a.decision.action == (if a.outcome.exercised() > 0 {
            "EXECUTE"@
        } else {
            "SKIP"@
        }),
    ensures
        response_fault(a, r, true) is None,
        response_fault(a, r, false) is None,
{
}

} // verus!

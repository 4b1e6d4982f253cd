//! The reference algorithm: it trades all that it is offered.
use crate::decimal::Decimal;
use crate::decision::{
    request_fault, DecisionError, DECISION_CONTRACT_VERSION, WHOLE_UNIT_DECISION_CONTRACT_VERSION,
};
use crate::gate::context_hash;
use crate::model::gates::{
    AlgorithmManifest, AlgorithmManifestView, DecisionRequest, DecisionRequestView,
    DecisionResponse, DecisionResponseView, GateDecision, GateDecisionView,
};
use crate::model::outcome::RightDecision;
use crate::notation::context_digest;
use crate::value::Value;
use vstd::prelude::*;

verus! {

/// What the algorithm says of itself. What the platform measures is left empty.
pub open spec fn manifest_of(supports_checkpoint: bool) -> AlgorithmManifestView {
    AlgorithmManifestView {
        algorithm_name: "rust-reference-process-algorithm"@,
        algorithm_version: "1"@,
        supported_contract_versions: seq![DECISION_CONTRACT_VERSION],
        deterministic: true,
        supports_checkpoint,
        artifact_sha256: ""@,
        canonical_arguments: Seq::empty(),
        environment_sha256: ""@,
        platform_sha256: ""@,
    }
}

/// What the algorithm says of itself.
pub fn reference_manifest(supports_checkpoint: bool) -> (r: AlgorithmManifest)
    ensures
        r@ == manifest_of(supports_checkpoint),
{
    let mut versions: Vec<u32> = Vec::new();
    versions.push(DECISION_CONTRACT_VERSION);
    assert(versions.deep_view() =~= seq![DECISION_CONTRACT_VERSION]);
    let arguments: Vec<String> = Vec::new();
    assert(arguments.deep_view() =~= Seq::<Seq<char>>::empty());
    AlgorithmManifest {
        algorithm_name: "rust-reference-process-algorithm".to_owned(),
        algorithm_version: "1".to_owned(),
        supported_contract_versions: versions,
        deterministic: true,
        supports_checkpoint,
        artifact_sha256: "".to_owned(),
        canonical_arguments: arguments,
        environment_sha256: "".to_owned(),
        platform_sha256: "".to_owned(),
    }
}

/// The answer to a request: all that is offered is traded.
pub open spec fn answer_of(request: DecisionRequestView) -> DecisionResponseView {
    DecisionResponseView {
        contract_version: DECISION_CONTRACT_VERSION,
        request_id: request.request_id,
        right_id: request.right.right_id,
        outcome: RightDecision::Exercise {
            exercise_quantity: request.context.available_quantity,
            defer_quantity: 0,
        },
        decision: GateDecisionView {
            probability: Decimal::one(),
            alpha: Decimal::one(),
            alpha_numerator: None,
            alpha_denominator: None,
            action: "EXECUTE"@,
            reason_codes: seq!["REFERENCE_PROCESS"@],
            model_name: "rust-reference-process-algorithm"@,
            model_version: "1"@,
            input_snapshot_hash: context_digest(
                request.context,
                WHOLE_UNIT_DECISION_CONTRACT_VERSION,
            ),
            decided_at: request.context.current_time,
        },
    }
}

/// Answers a request that is in order.
pub fn reference_answer(request: &DecisionRequest) -> (r: Result<DecisionResponse, DecisionError>)
    ensures
        match request_fault(request@) {
            Some(e) => r matches Err(x) && x == e,
            None => r matches Ok(x) && x@ == answer_of(request@),
        },
{
    request.validate()?;
    let mut reasons: Vec<String> = Vec::new();
    reasons.push("REFERENCE_PROCESS".to_owned());
    assert(reasons.deep_view() =~= seq!["REFERENCE_PROCESS"@]);
    Ok(
        DecisionResponse {
            contract_version: DECISION_CONTRACT_VERSION,
            request_id: request.request_id.dup(),
            right_id: request.right.right_id.dup(),
            outcome: RightDecision::Exercise {
                exercise_quantity: request.context.available_quantity,
                defer_quantity: 0,
            },
            decision: GateDecision {
                probability: Decimal::unit(),
                alpha: Decimal::unit(),
                alpha_numerator: None,
                alpha_denominator: None,
                action: "EXECUTE".to_owned(),
                reason_codes: reasons,
                model_name: "rust-reference-process-algorithm".to_owned(),
                model_version: "1".to_owned(),
                input_snapshot_hash: context_hash(&request.context),
                decided_at: request.context.current_time,
            },
        },
    )
}

} // verus!

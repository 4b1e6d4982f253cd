//! Decisions on grid rights: the request, the answer and the algorithms that
//! come with the platform.
use crate::arith::{
    is_whole, lemma_checked_div, max_i64, min_i64, quotient, remainder, trunc_div, whole_units,
};
use crate::decimal::{fitting, floored, times, truncated, Decimal};
use crate::digest::{
    digest_seed, leading_u64, sha256_digest, sha256_hex, sha256_hex_text,
};
use crate::gate::{
    action_of_share, answer_fault, context_hash_v4, evidence_fault, exact_answer_fault,
    exact_share, from_config, in_unit_interval, named_gate, noted, paced_units, share_in,
    units_at_pace, ConfiguredGate, GateError, GatePolicy, FUNDS_INVENTORY_CONTEXT_VERSION,
};
use crate::model::gates::{
    AlgorithmCheckpoint, AlgorithmManifest, AlgorithmManifestView, DecisionRequest,
    DecisionRequestView, DecisionResponse, DecisionResponseView, FundsInventoryContextV1View,
    GateContext, GateContextView, GateDecision, GateDecisionView,
};
use crate::model::market::Direction;
use crate::model::outcome::RightDecision;
use crate::model::rights::{GridRight, GridRightView};
use crate::model::settings::Config;
use crate::notation::context_digest;
use crate::text::{blank, is_blank, join, text_eq};
use crate::value::{text_list_contains, Value};
use vstd::prelude::*;

verus! {

/// The contract that is denominated in budgets.
pub const LEGACY_DECISION_CONTRACT_VERSION: u32 = 2;

/// The contract in whole units.
pub const WHOLE_UNIT_DECISION_CONTRACT_VERSION: u32 = 3;

/// The contract in whole units with evidence on resources.
pub const DECISION_CONTRACT_VERSION: u32 = 4;

/// Why a decision is refused.
#[derive(Clone, Copy, Debug, PartialEq, Eq, Structural)]
pub enum DecisionError {
    /// The contract version is not known.
    UnsupportedContract,
    /// A quantity is negative or its unit is not positive.
    Partition,
    /// The context is not that of the granted right.
    ContextMismatch,
    /// The context shows another capacity than the right.
    LegacyCapacity,
    /// The context carries evidence that its version does not know.
    LegacyEvidence,
    /// The context does not split the capacity into whole units and a remainder.
    NotCanonical,
    /// The context offers another quantity than the whole units.
    WholeUnitFields,
    /// The evidence on resources is missing.
    MissingEvidence,
    /// The evidence splits the offer in another way.
    ResourcePartition,
    /// The answer belongs to another request.
    Identity,
    /// The quantities do not split the offer in whole units.
    Quantities,
    /// The kind of the outcome does not fit its quantities.
    OutcomeKind,
    /// The exercised quantity is not the derived target.
    Target,
    /// The answer of a failed algorithm does more than nothing.
    FailClosed,
    /// The action does not fit the outcome.
    ActionMismatch,
    /// A resource-aware answer needs the contract with evidence.
    ContractRequired,
    /// The market signal does not follow from the evidence.
    SignalEvidence,
    /// A gate refuses.
    Gate(GateError),
    /// A number leaves its range.
    NumericRange,
    /// A process describes itself in a way that the platform does not take.
    Manifest,
    /// A process keeps state that the platform cannot restore.
    StatefulProcess,
}

/// The verdict of a check.
pub open spec fn ruling(fault: Option<DecisionError>) -> Result<(), DecisionError> {
    match fault {
        Some(e) => Err(e),
        None => Ok(()),
    }
}

/// Whether the versions are some of the whole-unit contracts, each once, in
/// order.
pub open spec fn canonical_versions(v: Seq<u32>) -> bool {
    &&& v.len() > 0
    &&& forall|i: int|
        0 <= i < v.len() ==> (#[trigger] v[i] == WHOLE_UNIT_DECISION_CONTRACT_VERSION || v[i]
            == DECISION_CONTRACT_VERSION)
    &&& forall|i: int, j: int| 0 <= i < j < v.len() ==> #[trigger] v[i] < #[trigger] v[j]
}

/// Whether the versions are some of the whole-unit contracts, each once, in
/// order.
pub fn supported_contract_versions_are_canonical(versions: &[u32]) -> (r: bool)
    ensures
        r == canonical_versions(versions@),
{
    if versions.len() == 0 {
        return false;
    }
    let mut i: usize = 0;
    while i < versions.len()
        invariant
            i <= versions.len(),
            forall|k: int|
                0 <= k < i ==> (#[trigger] versions@[k] == WHOLE_UNIT_DECISION_CONTRACT_VERSION
                    || versions@[k] == DECISION_CONTRACT_VERSION),
            forall|k: int, j: int|
                0 <= k < j < i ==> #[trigger] versions@[k] < #[trigger] versions@[j],
        decreases versions.len() - i,
    {
        let v: u32 = versions[i];
        if v != WHOLE_UNIT_DECISION_CONTRACT_VERSION && v != DECISION_CONTRACT_VERSION {
            assert(versions@[i as int] == v);
            return false;
        }
        if i > 0 && versions[i - 1] >= v {
            assert(versions@[i - 1] >= versions@[i as int]);
            return false;
        }
        i = i + 1;
    }
    true
}

/// A quantity split into whole units and a remainder.
pub open spec fn unit_partition(quantity: i64, unit: i64) -> Option<(i64, i64)> {
    if quantity < 0 || unit <= 0 {
        None
    } else {
        Some(((quantity - quantity as int % unit as int) as i64, (quantity as int % unit as int) as i64))
    }
}

/// A quantity split into whole units and a remainder.
pub fn whole_unit_partition(quantity: i64, standard_quantity: i64) -> (r: Result<
    (i64, i64),
    DecisionError,
>)
    ensures
        match unit_partition(quantity, standard_quantity) {
            Some(p) => r == Ok::<(i64, i64), DecisionError>(p),
            None => r == Err::<(i64, i64), DecisionError>(DecisionError::Partition),
        },
{
    if quantity < 0 || standard_quantity <= 0 {
        return Err(DecisionError::Partition);
    }
    let residual: i64 = remainder(quantity, standard_quantity);
    Ok((quantity - residual, residual))
}

/// The whole units and the remainder make up the quantity, and the remainder is
/// less than a unit.
pub proof fn law_partition_conserves(quantity: i64, unit: i64)
    requires
        quantity >= 0,
        unit > 0,
    ensures
        ({
            let p = unit_partition(quantity, unit)->0;
            &&& p.0 + p.1 == quantity
            &&& 0 <= p.1 < unit
            &&& 0 <= p.0 <= quantity
            &&& whole_units(p.0 as int, unit as int)
        }),
{
    let q = quantity as int;
    let u = unit as int;
    assert(0 <= q % u <= q && (q - q % u) % u == 0) by (nonlinear_arith)
        requires
            q >= 0,
            u > 0,
    {
        vstd::arithmetic::div_mod::lemma_fundamental_div_mod(q, u);
        vstd::arithmetic::div_mod::lemma_mod_multiples_basic(q / u, u);
        assert(q - q % u == (q / u) * u);
    }
}

impl RightDecision {
    /// The quantity to trade.
    pub open spec fn exercised(self) -> i64 {
        match self {
            RightDecision::Exercise { exercise_quantity, defer_quantity } => exercise_quantity,
            RightDecision::Defer { defer_quantity } => 0,
        }
    }

    /// The quantity to keep.
    pub open spec fn deferred(self) -> i64 {
        match self {
            RightDecision::Exercise { exercise_quantity, defer_quantity } => defer_quantity,
            RightDecision::Defer { defer_quantity } => defer_quantity,
        }
    }

    /// The outcome that trades `exercise` and keeps `defer`.
    pub open spec fn split(exercise: i64, defer: i64) -> RightDecision {
        if exercise > 0 {
            RightDecision::Exercise { exercise_quantity: exercise, defer_quantity: defer }
        } else {
            RightDecision::Defer { defer_quantity: defer }
        }
    }

    /// The quantities to trade and to keep.
    pub fn quantities(&self) -> (r: (i64, i64))
        ensures
            r == (self.exercised(), self.deferred()),
    {
        match self {
            RightDecision::Exercise { exercise_quantity, defer_quantity } => (
                *exercise_quantity,
                *defer_quantity,
            ),
            RightDecision::Defer { defer_quantity } => (0, *defer_quantity),
        }
    }

    fn of_split(exercise: i64, defer: i64) -> (r: RightDecision)
        ensures
            r == RightDecision::split(exercise, defer),
    {
        if exercise > 0 {
            RightDecision::Exercise { exercise_quantity: exercise, defer_quantity: defer }
        } else {
            RightDecision::Defer { defer_quantity: defer }
        }
    }

    /// The outcome of a gate on an authorized quantity, where its numbers are
    /// in range.
    pub fn checked_from_gate(
        decision: &GateDecision,
        algorithm_authorized_quantity: i64,
        standard_quantity: i64,
    ) -> (r: Option<Self>)
        ensures
            r == gate_outcome(decision@.alpha, algorithm_authorized_quantity, standard_quantity),
    {
        if algorithm_authorized_quantity < 0 || standard_quantity <= 0
            || decision.alpha.is_negative() || Decimal::unit().below(&decision.alpha) {
            return Some(
                RightDecision::Defer { defer_quantity: max_i64(algorithm_authorized_quantity, 0) },
            );
        }
        let exercise_quantity: Option<i64> = if decision.alpha.equals(&Decimal::unit()) {
            Some(algorithm_authorized_quantity)
        } else {
            let authorized_units: i64 = quotient(algorithm_authorized_quantity, standard_quantity);
            match Decimal::from_i64(authorized_units).checked_mul(decision.alpha) {
                None => None,
                Some(x) => {
                    let units: i64 = match x.floor().to_i64() {
                        Some(n) => n,
                        None => 0,
                    };
                    if units < 0 || units > authorized_units {
                        None
                    } else {
                        proof {
                            lemma_units_fit(
                                units as int,
                                authorized_units as int,
                                standard_quantity as int,
                                algorithm_authorized_quantity as int,
                            );
                        }
                        Some(units * standard_quantity)
                    }
                },
            }
        };
        match exercise_quantity {
            None => None,
            Some(e) => Some(Self::of_split(e, algorithm_authorized_quantity - e)),
        }
    }

    /// The outcome of a gate on an authorized quantity.
    pub fn from_gate(
        decision: &GateDecision,
        algorithm_authorized_quantity: i64,
        standard_quantity: i64,
    ) -> (r: Self)
        requires
            gate_outcome(
                decision@.alpha,
                algorithm_authorized_quantity,
                standard_quantity,
            ) is Some,
        ensures
            Some(r) == gate_outcome(
                decision@.alpha,
                algorithm_authorized_quantity,
                standard_quantity,
            ),
    {
        match Self::checked_from_gate(decision, algorithm_authorized_quantity, standard_quantity) {
            Some(d) => d,
            None => RightDecision::Defer { defer_quantity: 0 },
        }
    }
}

proof fn lemma_units_fit(units: int, authorized_units: int, unit: int, authorized: int)
    requires
        0 <= units <= authorized_units,
        unit > 0,
        authorized_units * unit <= authorized,
    ensures
        0 <= units * unit <= authorized,
{
    assert(0 <= units * unit <= authorized_units * unit) by (nonlinear_arith)
        requires
            0 <= units <= authorized_units,
            unit > 0,
    ;
}

/// The whole units of an authorized quantity that a share allows. Nothing where
/// the product is out of range or not among the authorized units.
pub open spec fn exercised_by_share(alpha: Decimal, authorized: i64, unit: i64) -> Option<i64> {
    if alpha.units() == Decimal::one().units() {
        Some(authorized)
    } else {
        match times(Decimal::whole(trunc_div(authorized as int, unit as int)), alpha) {
            None => None,
            Some(x) => {
                let units = match fitting(truncated(floored(x))) {
                    Some(n) => n,
                    None => 0i64,
                };
                if 0 <= units <= trunc_div(authorized as int, unit as int) {
                    Some((units * unit) as i64)
                } else {
                    None
                }
            },
        }
    }
}

/// The outcome of a share of an authorized quantity: everything is kept where
/// the share lies outside zero to one.
pub open spec fn gate_outcome(alpha: Decimal, authorized: i64, unit: i64) -> Option<
    RightDecision,
> {
    if authorized < 0 || unit <= 0 || !in_unit_interval(alpha) {
        Some(
            RightDecision::Defer {
                defer_quantity: if authorized < 0 {
                    0
                } else {
                    authorized
                },
            },
        )
    } else {
        match exercised_by_share(alpha, authorized, unit) {
            None => None,
            Some(e) => Some(RightDecision::split(e, (authorized - e) as i64)),
        }
    }
}

/// What is traded and what is kept make up the authorized quantity.
pub proof fn law_gate_outcome_conserves(alpha: Decimal, authorized: i64, unit: i64)
    requires
        authorized >= 0,
        gate_outcome(alpha, authorized, unit) is Some,
    ensures
        ({
            let d = gate_outcome(alpha, authorized, unit)->0;
            &&& d.exercised() >= 0
            &&& d.deferred() >= 0
            &&& d.exercised() + d.deferred() == authorized
        }),
{
    if unit > 0 && in_unit_interval(alpha) && alpha.units() != Decimal::one().units() {
        let x = times(Decimal::whole(trunc_div(authorized as int, unit as int)), alpha)->0;
        let units = match fitting(truncated(floored(x))) {
            Some(n) => n,
            None => 0i64,
        };
        let a = authorized as int;
        let u = unit as int;
        assert((a / u) * u <= a) by (nonlinear_arith)
            requires
                a >= 0,
                u > 0,
        ;
        lemma_units_fit(units as int, a / u, u, a);
    }
}

/// The capacity of a right before it is split into units.
pub open spec fn gross_quantity(right: GridRightView) -> i64 {
    if right.direction == Direction::Buy && right.capacity.available_quantity > 0 {
        right.capacity.available_quantity
    } else {
        right.capacity.eligible_quantity
    }
}

/// Whether a contract version is known.
pub open spec fn known_contract(version: u32) -> bool {
    version == LEGACY_DECISION_CONTRACT_VERSION || version == WHOLE_UNIT_DECISION_CONTRACT_VERSION
        || version == DECISION_CONTRACT_VERSION
}

/// Whether a context speaks of a right, in whole lots.
pub open spec fn context_fits(c: GateContextView, right: GridRightView) -> bool {
    &&& c.right_id == right.right_id
    &&& c.direction == right.direction
    &&& c.grid_index == right.grid_index
    &&& c.grid_price.units() == right.grid_price.units()
    &&& c.available_budget.units() == right.capacity.available_budget.units()
    &&& c.lot_size > 0
    &&& whole_units(c.available_quantity as int, c.lot_size as int)
    &&& c.standard_quantity > 0
    &&& whole_units(c.standard_quantity as int, c.lot_size as int)
}

/// Whether the evidence splits the authorized units into the offer and what the
/// resources block.
pub open spec fn resource_split(
    f: FundsInventoryContextV1View,
    c: GateContextView,
    authorized_units: int,
) -> bool {
    let offered = if f.resource_units < authorized_units {
        f.resource_units as int
    } else {
        authorized_units
    };
    &&& f.schema_version == FUNDS_INVENTORY_CONTEXT_VERSION
    &&& f.mechanical_authorized_units == authorized_units
    &&& f.resource_units >= 0
    &&& f.predecision_blocked_units == authorized_units - offered
    &&& c.available_quantity == offered * c.standard_quantity
}

/// Why a request is refused, if it is.
pub open spec fn request_fault(r: DecisionRequestView) -> Option<DecisionError> {
    let c = r.context;
    let gross = gross_quantity(r.right);
    if !known_contract(r.contract_version) {
        Some(DecisionError::UnsupportedContract)
    } else if !context_fits(c, r.right) {
        Some(DecisionError::ContextMismatch)
    } else if r.contract_version == LEGACY_DECISION_CONTRACT_VERSION {
        if c.available_quantity != gross {
            Some(DecisionError::LegacyCapacity)
        } else if c.funds_inventory is Some {
            Some(DecisionError::LegacyEvidence)
        } else {
            None
        }
    } else {
        match unit_partition(gross, c.standard_quantity) {
            None => Some(DecisionError::Partition),
            Some((authorized, residual)) => if c.gross_available_quantity != gross
                || c.platform_residual_quantity != residual || c.algorithm_authorized_quantity
                != authorized {
                Some(DecisionError::NotCanonical)
            } else if r.contract_version == WHOLE_UNIT_DECISION_CONTRACT_VERSION {
                if c.available_quantity != authorized || c.funds_inventory is Some {
                    Some(DecisionError::WholeUnitFields)
                } else {
                    None
                }
            } else {
                match c.funds_inventory {
                    None => Some(DecisionError::MissingEvidence),
                    Some(f) => match evidence_fault(f, c) {
                        Some(e) => Some(DecisionError::Gate(e)),
                        None => if resource_split(
                            f,
                            c,
                            trunc_div(authorized as int, c.standard_quantity as int),
                        ) {
                            None
                        } else {
                            Some(DecisionError::ResourcePartition)
                        },
                    },
                }
            },
        }
    }
}

/// The request on a right: its identifier and seed follow from the right.
pub open spec fn new_request(right: GridRightView, context: GateContextView, version: u32) ->
    DecisionRequestView {
    DecisionRequestView {
        contract_version: version,
        request_id: "decision:"@ + right.right_id,
        right,
        context,
        deterministic_seed: leading_u64(
            sha256_digest(vstd::utf8::encode_utf8(right.right_id)),
        ) as u64,
    }
}

impl DecisionRequest {
    /// A request under the whole-unit contract.
    pub fn new(right: GridRight, context: GateContext) -> (r: Self)
        ensures
            r@ == new_request(right@, context@, WHOLE_UNIT_DECISION_CONTRACT_VERSION),
    {
        Self::new_with_contract(right, context, WHOLE_UNIT_DECISION_CONTRACT_VERSION)
    }

    /// A request under a given contract.
    pub fn new_with_contract(right: GridRight, context: GateContext, contract_version: u32) -> (r:
        Self)
        ensures
            r@ == new_request(right@, context@, contract_version),
    {
        let deterministic_seed: u64 = digest_seed(right.right_id.as_str());
        let request_id = join("decision:", right.right_id.as_str());
        DecisionRequest { contract_version, request_id, right, context, deterministic_seed }
    }

    fn gross(&self) -> (r: i64)
        ensures
            r == gross_quantity(self@.right),
    {
        if matches!(self.right.direction, Direction::Buy) && self.right.capacity.available_quantity
            > 0 {
            self.right.capacity.available_quantity
        } else {
            self.right.capacity.eligible_quantity
        }
    }

    fn context_matches(&self) -> (r: bool)
        ensures
            r == context_fits(self@.context, self@.right),
    {
        let c = &self.context;
        text_eq(c.right_id.as_str(), self.right.right_id.as_str()) && c.direction
            == self.right.direction && c.grid_index == self.right.grid_index && c.grid_price.equals(
            &self.right.grid_price,
        ) && c.available_budget.equals(&self.right.capacity.available_budget) && c.lot_size > 0
            && is_whole(c.available_quantity, c.lot_size) && c.standard_quantity > 0 && is_whole(
            c.standard_quantity,
            c.lot_size,
        )
    }

    /// Checks that the context is that of the right, split as the contract says.
    pub fn validate(&self) -> (r: Result<(), DecisionError>)
        ensures
            r == ruling(request_fault(self@)),
    {
        let c = &self.context;
        let version: u32 = self.contract_version;
        if version != LEGACY_DECISION_CONTRACT_VERSION && version
            != WHOLE_UNIT_DECISION_CONTRACT_VERSION && version != DECISION_CONTRACT_VERSION {
            return Err(DecisionError::UnsupportedContract);
        }
        let gross: i64 = self.gross();
        if !self.context_matches() {
            return Err(DecisionError::ContextMismatch);
        }
        if version == LEGACY_DECISION_CONTRACT_VERSION {
            if c.available_quantity != gross {
                return Err(DecisionError::LegacyCapacity);
            }
            if c.funds_inventory.is_some() {
                return Err(DecisionError::LegacyEvidence);
            }
            return Ok(());
        }
        let (authorized, residual): (i64, i64) = match whole_unit_partition(
            gross,
            c.standard_quantity,
        ) {
            Ok(p) => p,
            Err(e) => {
                return Err(e);
            },
        };
        if c.gross_available_quantity != gross || c.platform_residual_quantity != residual
            || c.algorithm_authorized_quantity != authorized {
            return Err(DecisionError::NotCanonical);
        }
        if version == WHOLE_UNIT_DECISION_CONTRACT_VERSION {
            if c.available_quantity != authorized || c.funds_inventory.is_some() {
                return Err(DecisionError::WholeUnitFields);
            }
            return Ok(());
        }
        let f = match &c.funds_inventory {
            Some(f) => f,
            None => {
                return Err(DecisionError::MissingEvidence);
            },
        };
        match f.validate_canonical(c) {
            Ok(_) => {},
            Err(e) => {
                return Err(DecisionError::Gate(e));
            },
        }
        proof {
            law_partition_conserves(gross, c.standard_quantity);
        }
        let authorized_units: i64 = quotient(authorized, c.standard_quantity);
        if f.schema_version != FUNDS_INVENTORY_CONTEXT_VERSION || f.mechanical_authorized_units
            != authorized_units || f.resource_units < 0 {
            return Err(DecisionError::ResourcePartition);
        }
        let offered_units: i64 = min_i64(f.resource_units, authorized_units);
        assert(0 <= offered_units * c.standard_quantity <= authorized_units * c.standard_quantity)
            by (nonlinear_arith)
            requires
                0 <= offered_units <= authorized_units,
                c.standard_quantity > 0,
        ;
        if f.predecision_blocked_units != authorized_units - offered_units || c.available_quantity
            != offered_units * c.standard_quantity {
            return Err(DecisionError::ResourcePartition);
        }
        Ok(())
    }
}

/// Whether an outcome splits the offer into two parts of whole units.
pub open spec fn outcome_splits(d: RightDecision, available: i64, unit: i64) -> bool {
    &&& d.exercised() >= 0
    &&& d.deferred() >= 0
    &&& d.exercised() + d.deferred() == available
    &&& whole_units(d.exercised() as int, unit as int)
    &&& whole_units(d.deferred() as int, unit as int)
}

/// Whether the kind of an outcome fits its quantities.
pub open spec fn outcome_kind(d: RightDecision, available: i64) -> bool {
    match d {
        RightDecision::Exercise { exercise_quantity, defer_quantity } => exercise_quantity > 0,
        RightDecision::Defer { defer_quantity } => defer_quantity == available,
    }
}

/// Whether an answer does nothing because the algorithm failed.
pub open spec fn fails_closed(a: DecisionResponseView, available: i64) -> bool {
    &&& a.outcome.exercised() == 0
    &&& a.outcome.deferred() == available
    &&& a.decision.alpha_numerator == Some(0i64)
    &&& a.decision.action == "SKIP"@
    &&& a.decision.model_name == "resource-aware-whole-q-failsafe"@
    &&& a.decision.reason_codes.contains("RESOURCE_FAIL_CLOSED"@)
}

/// The action of an exercised quantity.
pub open spec fn action_of(exercise: i64) -> Seq<char> {
    if exercise > 0 {
        "EXECUTE"@
    } else {
        "SKIP"@
    }
}

/// Why the exercised quantity of an answer with evidence is refused, if it is.
pub open spec fn target_fault(
    a: DecisionResponseView,
    r: DecisionRequestView,
    succeeded: bool,
) -> Option<DecisionError> {
    if succeeded {
        match r.context.funds_inventory {
            None => Some(DecisionError::MissingEvidence),
            Some(f) => match f.target_units.checked_mul(r.context.standard_quantity) {
                None => Some(DecisionError::NumericRange),
                Some(target) => if a.outcome.exercised() != target {
                    Some(DecisionError::Target)
                } else {
                    None
                },
            },
        }
    } else if !fails_closed(a, r.context.available_quantity) {
        Some(DecisionError::FailClosed)
    } else {
        None
    }
}

/// Why an answer of a gate is refused, if it is.
pub open spec fn gate_fault(
    a: DecisionResponseView,
    r: DecisionRequestView,
    succeeded: bool,
) -> Option<DecisionError> {
    if r.contract_version == LEGACY_DECISION_CONTRACT_VERSION {
        match answer_fault(
            a.decision,
            r.context,
            context_digest(r.context, LEGACY_DECISION_CONTRACT_VERSION),
            Some(action_of_share(a.decision.alpha)),
        ) {
            Some(e) => Some(DecisionError::Gate(e)),
            None => None,
        }
    } else {
        let first = if r.contract_version == DECISION_CONTRACT_VERSION {
            match target_fault(a, r, succeeded) {
                Some(e) => Some(e),
                None => match exact_answer_fault(
                    a.decision,
                    r.context,
                    a.outcome.exercised(),
                ) {
                    Some(e) => Some(DecisionError::Gate(e)),
                    None => None,
                },
            }
        } else {
            match answer_fault(
                a.decision,
                r.context,
                context_digest(r.context, WHOLE_UNIT_DECISION_CONTRACT_VERSION),
                None,
            ) {
                Some(e) => Some(DecisionError::Gate(e)),
                None => None,
            }
        };
        match first {
            Some(e) => Some(e),
            None => if a.decision.action != action_of(a.outcome.exercised()) {
                Some(DecisionError::ActionMismatch)
            } else {
                None
            },
        }
    }
}

/// The unit in which an answer may split the offer.
pub open spec fn alignment_of(r: DecisionRequestView) -> i64 {
    if r.contract_version >= WHOLE_UNIT_DECISION_CONTRACT_VERSION {
        r.context.standard_quantity
    } else {
        r.context.lot_size
    }
}

/// Why an answer to a request is refused, if it is.
pub open spec fn response_fault(
    a: DecisionResponseView,
    r: DecisionRequestView,
    succeeded: bool,
) -> Option<DecisionError> {
    match request_fault(r) {
        Some(e) => Some(e),
        None => if a.contract_version != r.contract_version || a.request_id != r.request_id
            || a.right_id != r.right.right_id {
            Some(DecisionError::Identity)
        } else if !outcome_splits(a.outcome, r.context.available_quantity, alignment_of(r)) {
            Some(DecisionError::Quantities)
        } else if !outcome_kind(a.outcome, r.context.available_quantity) {
            Some(DecisionError::OutcomeKind)
        } else {
            gate_fault(a, r, succeeded)
        },
    }
}

impl DecisionResponse {
    /// Checks the answer of an algorithm that succeeded.
    pub fn validate_for(&self, request: &DecisionRequest) -> (r: Result<(), DecisionError>)
        ensures
            r == ruling(response_fault(self@, request@, true)),
    {
        self.validate_for_algorithm_status(request, true)
    }

    fn splits_in(&self, available: i64, unit: i64) -> (r: bool)
        requires
            unit > 0,
        ensures
            r == outcome_splits(self@.outcome, available, unit),
    {
        let (exercise, defer): (i64, i64) = self.outcome.quantities();
        if exercise < 0 || defer < 0 {
            return false;
        }
        match exercise.checked_add(defer) {
            Some(sum) => sum == available && is_whole(exercise, unit) && is_whole(defer, unit),
            None => false,
        }
    }

    fn does_nothing(&self, available: i64) -> (r: bool)
        ensures
            r == fails_closed(self@, available),
    {
        let (exercise, defer): (i64, i64) = self.outcome.quantities();
        let none_of_it = match self.decision.alpha_numerator {
            Some(n) => n == 0,
            None => false,
        };
        exercise == 0 && defer == available && none_of_it && text_eq(
            self.decision.action.as_str(),
            "SKIP",
        ) && text_eq(self.decision.model_name.as_str(), "resource-aware-whole-q-failsafe")
            && text_list_contains(&self.decision.reason_codes, "RESOURCE_FAIL_CLOSED")
    }

    fn check_target(&self, request: &DecisionRequest, succeeded: bool) -> (r: Result<
        (),
        DecisionError,
    >)
        ensures
            r == ruling(target_fault(self@, request@, succeeded)),
    {
        let (exercise, _defer): (i64, i64) = self.outcome.quantities();
        if succeeded {
            match &request.context.funds_inventory {
                None => Err(DecisionError::MissingEvidence),
                Some(f) => match f.target_units.checked_mul(request.context.standard_quantity) {
                    None => Err(DecisionError::NumericRange),
                    Some(target) => if exercise != target {
                        Err(DecisionError::Target)
                    } else {
                        Ok(())
                    },
                },
            }
        } else if !self.does_nothing(request.context.available_quantity) {
            Err(DecisionError::FailClosed)
        } else {
            Ok(())
        }
    }

    fn check_gate(&self, request: &DecisionRequest, succeeded: bool) -> (r: Result<
        (),
        DecisionError,
    >)
        requires
            request@.context.standard_quantity > 0,
        ensures
            r == ruling(gate_fault(self@, request@, succeeded)),
    {
        let (exercise, _defer): (i64, i64) = self.outcome.quantities();
        if request.contract_version == LEGACY_DECISION_CONTRACT_VERSION {
            return match self.decision.validate_for_legacy_v2(&request.context) {
                Ok(_) => Ok(()),
                Err(e) => Err(DecisionError::Gate(e)),
            };
        }
        if request.contract_version == DECISION_CONTRACT_VERSION {
            match self.check_target(request, succeeded) {
                Ok(_) => {},
                Err(e) => {
                    return Err(e);
                },
            }
            proof {
                lemma_checked_div(
                    request@.context.available_quantity,
                    request@.context.standard_quantity,
                );
                lemma_checked_div(exercise, request@.context.standard_quantity);
            }
            match self.decision.validate_for_v4(&request.context, exercise) {
                Ok(_) => {},
                Err(e) => {
                    return Err(DecisionError::Gate(e));
                },
            }
        } else {
            match self.decision.validate_for(&request.context) {
                Ok(_) => {},
                Err(e) => {
                    return Err(DecisionError::Gate(e));
                },
            }
        }
        let expected_action = if exercise > 0 {
            "EXECUTE"
        } else {
            "SKIP"
        };
        if !text_eq(self.decision.action.as_str(), expected_action) {
            return Err(DecisionError::ActionMismatch);
        }
        Ok(())
    }

    /// Checks the answer of an algorithm that succeeded or failed.
    pub fn validate_for_algorithm_status(
        &self,
        request: &DecisionRequest,
        algorithm_succeeded: bool,
    ) -> (r: Result<(), DecisionError>)
        ensures
            r == ruling(response_fault(self@, request@, algorithm_succeeded)),
    {
        match request.validate() {
            Ok(_) => {},
            Err(e) => {
                return Err(e);
            },
        }
        if self.contract_version != request.contract_version || !text_eq(
            self.request_id.as_str(),
            request.request_id.as_str(),
        ) || !text_eq(self.right_id.as_str(), request.right.right_id.as_str()) {
            return Err(DecisionError::Identity);
        }
        let available: i64 = request.context.available_quantity;
        let alignment: i64 = if request.contract_version >= WHOLE_UNIT_DECISION_CONTRACT_VERSION {
            request.context.standard_quantity
        } else {
            request.context.lot_size
        };
        if !self.splits_in(available, alignment) {
            return Err(DecisionError::Quantities);
        }
        let fitting_kind = match &self.outcome {
            RightDecision::Exercise { exercise_quantity, defer_quantity: _ } => *exercise_quantity
                > 0,
            RightDecision::Defer { defer_quantity } => *defer_quantity == available,
        };
        if !fitting_kind {
            return Err(DecisionError::OutcomeKind);
        }
        self.check_gate(request, algorithm_succeeded)
    }
}

/// An accepted answer splits the offer: what is traded and what is kept are
/// whole units that add up to it.
pub proof fn law_accepted_answers_split_the_offer(
    a: DecisionResponseView,
    r: DecisionRequestView,
    succeeded: bool,
)
    requires
        response_fault(a, r, succeeded) is None,
    ensures
        a.outcome.exercised() >= 0,
        a.outcome.deferred() >= 0,
        a.outcome.exercised() + a.outcome.deferred() == r.context.available_quantity,
        whole_units(a.outcome.exercised() as int, alignment_of(r) as int),
        !succeeded && r.contract_version == DECISION_CONTRACT_VERSION ==> a.outcome.exercised()
            == 0,
{
}

/// A manifest without arguments.
pub open spec fn builtin_manifest(
    name: Seq<char>,
    contract: u32,
    artifact: Seq<char>,
    environment: Seq<char>,
    platform: Seq<char>,
) -> AlgorithmManifestView {
    AlgorithmManifestView {
        algorithm_name: name,
        algorithm_version: "1"@,
        supported_contract_versions: seq![contract],
        deterministic: true,
        supports_checkpoint: false,
        artifact_sha256: sha256_hex_text(vstd::utf8::encode_utf8(artifact)),
        canonical_arguments: Seq::empty(),
        environment_sha256: sha256_hex_text(vstd::utf8::encode_utf8(environment)),
        platform_sha256: platform,
    }
}

/// The digest that stands for something built in.
pub fn builtin_artifact_sha256(identity: &str) -> (r: String)
    ensures
        r@ == sha256_hex_text(vstd::utf8::encode_utf8(identity@)),
{
    sha256_hex(identity.as_bytes())
}

fn builtin(
    name: &str,
    contract: u32,
    artifact: &str,
    environment: &str,
    platform_sha256: &str,
) -> (r: AlgorithmManifest)
    ensures
        r@ == builtin_manifest(name@, contract, artifact@, environment@, platform_sha256@),
{
    let mut contracts: Vec<u32> = Vec::new();
    contracts.push(contract);
    let arguments: Vec<String> = Vec::new();
    let manifest = AlgorithmManifest {
        algorithm_name: name.to_owned(),
        algorithm_version: "1".to_owned(),
        supported_contract_versions: contracts,
        deterministic: true,
        supports_checkpoint: false,
        artifact_sha256: builtin_artifact_sha256(artifact),
        canonical_arguments: arguments,
        environment_sha256: builtin_artifact_sha256(environment),
        platform_sha256: platform_sha256.to_owned(),
    };
    assert(manifest.supported_contract_versions.deep_view() =~= seq![contract]);
    assert(manifest.canonical_arguments.deep_view() =~= Seq::<Seq<char>>::empty());
    manifest
}

/// An algorithm that decides on rights.
pub trait QuantDecisionAlgorithm {
    /// What the algorithm says of itself, on a platform with the given digest.
    fn manifest(&self, platform_sha256: &str) -> (r: AlgorithmManifest)
        default_ensures
            r@ == builtin_manifest(
                "in-process-experimental"@,
                WHOLE_UNIT_DECISION_CONTRACT_VERSION,
                "in-process-experimental-v1"@,
                "env-clear:protocol-v1"@,
                platform_sha256@,
            ),
    {
        builtin(
            "in-process-experimental",
            WHOLE_UNIT_DECISION_CONTRACT_VERSION,
            "in-process-experimental-v1",
            "env-clear:protocol-v1",
            platform_sha256,
        )
    }

    /// Decides.
    fn decide(&self, request: &DecisionRequest) -> (r: Result<DecisionResponse, DecisionError>);

    /// What the algorithm has to keep.
    fn checkpoint(&self) -> (r: Result<Option<AlgorithmCheckpoint>, DecisionError>)
        default_ensures
            r matches Ok(kept) && kept is None,
    {
        Ok(None)
    }
}

/// A result by its content.
pub open spec fn response_view(r: Result<DecisionResponse, DecisionError>) -> Result<
    DecisionResponseView,
    DecisionError,
> {
    match r {
        Ok(a) => Ok(a@),
        Err(e) => Err(e),
    }
}

/// An answer if it stands up to the checks, else why not.
pub open spec fn checked_answer(
    a: DecisionResponseView,
    r: DecisionRequestView,
    succeeded: bool,
) -> Result<DecisionResponseView, DecisionError> {
    match response_fault(a, r, succeeded) {
        Some(e) => Err(e),
        None => Ok(a),
    }
}

/// Trades a small number of whole units where the market and the resources
/// speak for it.
#[derive(Clone, Copy, Debug)]
pub struct ResourceAwareWholeQAlgorithm;

/// The answer that does nothing.
pub open spec fn idle_answer(
    r: DecisionRequestView,
    f: FundsInventoryContextV1View,
    reason: Seq<char>,
) -> DecisionResponseView {
    DecisionResponseView {
        contract_version: DECISION_CONTRACT_VERSION,
        request_id: r.request_id,
        right_id: r.right.right_id,
        outcome: RightDecision::Defer { defer_quantity: r.context.available_quantity },
        decision: GateDecisionView {
            probability: f.market_score,
            alpha: Decimal::zero(),
            alpha_numerator: Some(0i64),
            alpha_denominator: Some(
                trunc_div(
                    r.context.available_quantity as int,
                    r.context.standard_quantity as int,
                ) as i64,
            ),
            action: "SKIP"@,
            reason_codes: seq![reason, "RESOURCE_FAIL_CLOSED"@],
            model_name: "resource-aware-whole-q-failsafe"@,
            model_version: "1"@,
            input_snapshot_hash: context_digest(r.context, DECISION_CONTRACT_VERSION),
            decided_at: r.context.current_time,
        },
    }
}

/// The answer to a request whose algorithm failed.
pub open spec fn safe_answer(r: DecisionRequestView, reason: Seq<char>) -> Result<
    DecisionResponseView,
    DecisionError,
> {
    match request_fault(r) {
        Some(e) => Err(e),
        None => if r.contract_version != DECISION_CONTRACT_VERSION {
            Err(DecisionError::ContractRequired)
        } else {
            match r.context.funds_inventory {
                None => Err(DecisionError::MissingEvidence),
                Some(f) => checked_answer(
                    idle_answer(r, f, reason),
                    r,
                    false,
                ),
            }
        },
    }
}

/// The units that the evidence targets, or why it does not hold.
pub open spec fn evidence_target(c: GateContextView, f: FundsInventoryContextV1View) -> Result<
    i64,
    DecisionError,
> {
    let offered = trunc_div(c.available_quantity as int, c.standard_quantity as int) as i64;
    let pass = f.history_bars >= f.long_window && f.market_score.units()
        >= f.market_threshold.units() && (f.trend_strength.units() > 0
        || f.location_strength.units() > 0);
    if f.market_signal_passed != pass {
        Err(DecisionError::SignalEvidence)
    } else {
        let target = if !pass || offered == 0 {
            Some(0i64)
        } else {
            paced_units(offered, f.pace)
        };
        match target {
            None => Err(DecisionError::NumericRange),
            Some(t) => if f.target_units != t {
                Err(DecisionError::Target)
            } else {
                Ok(t)
            },
        }
    }
}

/// The reasons of a resource-aware answer.
pub open spec fn resource_reasons(f: FundsInventoryContextV1View, target: i64) -> Seq<Seq<char>> {
    let first = if f.history_bars < f.long_window {
        "RESOURCE_SIGNAL_WARMUP"@
    } else if !f.market_signal_passed {
        "RESOURCE_MARKET_THRESHOLD_NOT_MET"@
    } else {
        "RESOURCE_MARKET_SIGNAL_PASSED"@
    };
    let last = if target > 0 {
        "RESOURCE_TARGET_EXERCISE"@
    } else {
        "RESOURCE_TARGET_SKIP"@
    };
    noted(seq![first], f.predecision_blocked_units > 0, "RESOURCE_CAP_APPLIED"@).push(last)
}

/// The answer that trades `exercise` shares and keeps `defer`.
pub open spec fn resource_answer(
    r: DecisionRequestView,
    f: FundsInventoryContextV1View,
    target: i64,
    exercise: i64,
    defer: i64,
    alpha: Decimal,
) -> DecisionResponseView {
    DecisionResponseView {
        contract_version: r.contract_version,
        request_id: r.request_id,
        right_id: r.right.right_id,
        outcome: RightDecision::split(exercise, defer),
        decision: GateDecisionView {
            probability: f.market_score,
            alpha,
            alpha_numerator: Some(target),
            alpha_denominator: Some(
                trunc_div(
                    r.context.available_quantity as int,
                    r.context.standard_quantity as int,
                ) as i64,
            ),
            action: action_of(exercise),
            reason_codes: resource_reasons(f, target),
            model_name: "resource-aware-whole-q"@,
            model_version: "1"@,
            input_snapshot_hash: context_digest(r.context, DECISION_CONTRACT_VERSION),
            decided_at: r.context.current_time,
        },
    }
}

/// What the resource-aware algorithm answers.
pub open spec fn resource_decision(r: DecisionRequestView) -> Result<
    DecisionResponseView,
    DecisionError,
> {
    match request_fault(r) {
        Some(e) => Err(e),
        None => if r.contract_version != DECISION_CONTRACT_VERSION {
            Err(DecisionError::ContractRequired)
        } else {
            match r.context.funds_inventory {
                None => Err(DecisionError::MissingEvidence),
                Some(f) => match evidence_target(r.context, f) {
                    Err(e) => Err(e),
                    Ok(target) => {
                        let unit = r.context.standard_quantity;
                        let offered = trunc_div(
                            r.context.available_quantity as int,
                            unit as int,
                        ) as i64;
                        match target.checked_mul(unit) {
                            None => Err(DecisionError::NumericRange),
                            Some(exercise) => match r.context.available_quantity.checked_sub(
                                exercise,
                            ) {
                                None => Err(DecisionError::NumericRange),
                                Some(defer) => match exact_share(target, offered) {
                                    None => Err(DecisionError::NumericRange),
                                    Some(alpha) => checked_answer(
                                        resource_answer(
                                            r,
                                            f,
                                            target,
                                            exercise,
                                            defer,
                                            alpha,
                                        ),
                                        r,
                                        true,
                                    ),
                                },
                            },
                        }
                    },
                },
            }
        },
    }
}

impl ResourceAwareWholeQAlgorithm {
    /// The answer to a request whose algorithm failed: everything is kept.
    pub fn safe_response(request: &DecisionRequest, reason: &str) -> (r: Result<
        DecisionResponse,
        DecisionError,
    >)
        ensures
            response_view(r) == safe_answer(request@, reason@),
    {
        match request.validate() {
            Ok(_) => {},
            Err(e) => {
                return Err(e);
            },
        }
        if request.contract_version != DECISION_CONTRACT_VERSION {
            return Err(DecisionError::ContractRequired);
        }
        let f = match &request.context.funds_inventory {
            Some(f) => f,
            None => {
                return Err(DecisionError::MissingEvidence);
            },
        };
        let offered_units: i64 = quotient(
            request.context.available_quantity,
            request.context.standard_quantity,
        );
        let hash = match context_hash_v4(&request.context) {
            Ok(hash) => hash,
            Err(e) => {
                return Err(DecisionError::Gate(e));
            },
        };
        let mut reasons: Vec<String> = Vec::new();
        reasons.push(reason.to_owned());
        reasons.push("RESOURCE_FAIL_CLOSED".to_owned());
        assert(reasons.deep_view() =~= seq![reason@, "RESOURCE_FAIL_CLOSED"@]);
        let response = DecisionResponse {
            contract_version: DECISION_CONTRACT_VERSION,
            request_id: request.request_id.dup(),
            right_id: request.right.right_id.dup(),
            outcome: RightDecision::Defer { defer_quantity: request.context.available_quantity },
            decision: GateDecision {
                probability: f.market_score,
                alpha: Decimal::nil(),
                alpha_numerator: Some(0),
                alpha_denominator: Some(offered_units),
                action: "SKIP".to_owned(),
                reason_codes: reasons,
                model_name: "resource-aware-whole-q-failsafe".to_owned(),
                model_version: "1".to_owned(),
                input_snapshot_hash: hash,
                decided_at: request.context.current_time,
            },
        };
        assert(response@ =~= idle_answer(request@, f@, reason@));
        match response.validate_for_algorithm_status(request, false) {
            Ok(_) => Ok(response),
            Err(e) => Err(e),
        }
    }

    fn target_units(request: &DecisionRequest) -> (r: Result<i64, DecisionError>)
        requires
            request@.context.standard_quantity > 0,
        ensures
            match request@.context.funds_inventory {
                None => r == Err::<i64, DecisionError>(DecisionError::MissingEvidence),
                Some(f) => r == evidence_target(request@.context, f),
            },
    {
        let c = &request.context;
        let f = match &c.funds_inventory {
            Some(f) => f,
            None => {
                return Err(DecisionError::MissingEvidence);
            },
        };
        let offered_units: i64 = quotient(c.available_quantity, c.standard_quantity);
        let expected_pass = f.history_bars >= f.long_window && f.market_threshold.at_most(
            &f.market_score,
        ) && (f.trend_strength.is_positive() || f.location_strength.is_positive());
        if f.market_signal_passed != expected_pass {
            return Err(DecisionError::SignalEvidence);
        }
        let target: Option<i64> = if !expected_pass || offered_units == 0 {
            Some(0)
        } else {
            units_at_pace(offered_units, f.pace)
        };
        match target {
            None => Err(DecisionError::NumericRange),
            Some(t) => if f.target_units != t {
                Err(DecisionError::Target)
            } else {
                Ok(t)
            },
        }
    }
}

impl QuantDecisionAlgorithm for ResourceAwareWholeQAlgorithm {
    fn manifest(&self, platform_sha256: &str) -> (r: AlgorithmManifest)
        ensures
            r@ == builtin_manifest(
                "resource-aware-whole-q"@,
                DECISION_CONTRACT_VERSION,
                "resource-aware-whole-q-v1"@,
                "in-process:no-environment"@,
                platform_sha256@,
            ),
    {
        builtin(
            "resource-aware-whole-q",
            DECISION_CONTRACT_VERSION,
            "resource-aware-whole-q-v1",
            "in-process:no-environment",
            platform_sha256,
        )
    }

    fn decide(&self, request: &DecisionRequest) -> (r: Result<DecisionResponse, DecisionError>)
        ensures
            response_view(r) == resource_decision(request@),
    {
        match request.validate() {
            Ok(_) => {},
            Err(e) => {
                return Err(e);
            },
        }
        if request.contract_version != DECISION_CONTRACT_VERSION {
            return Err(DecisionError::ContractRequired);
        }
        let f = match &request.context.funds_inventory {
            Some(f) => f,
            None => {
                return Err(DecisionError::MissingEvidence);
            },
        };
        let target_units: i64 = match Self::target_units(request) {
            Ok(t) => t,
            Err(e) => {
                return Err(e);
            },
        };
        let offered_units: i64 = quotient(
            request.context.available_quantity,
            request.context.standard_quantity,
        );
        let exercise_quantity: i64 = match target_units.checked_mul(
            request.context.standard_quantity,
        ) {
            Some(q) => q,
            None => {
                return Err(DecisionError::NumericRange);
            },
        };
        let defer_quantity: i64 = match request.context.available_quantity.checked_sub(
            exercise_quantity,
        ) {
            Some(q) => q,
            None => {
                return Err(DecisionError::NumericRange);
            },
        };
        let alpha = match share_in(target_units, offered_units) {
            Some(a) => a,
            None => {
                return Err(DecisionError::NumericRange);
            },
        };
        let mut reasons: Vec<String> = Vec::new();
        if f.history_bars < f.long_window {
            reasons.push("RESOURCE_SIGNAL_WARMUP".to_owned());
        } else if !f.market_signal_passed {
            reasons.push("RESOURCE_MARKET_THRESHOLD_NOT_MET".to_owned());
        } else {
            reasons.push("RESOURCE_MARKET_SIGNAL_PASSED".to_owned());
        }
        if f.predecision_blocked_units > 0 {
            reasons.push("RESOURCE_CAP_APPLIED".to_owned());
        }
        if target_units > 0 {
            reasons.push("RESOURCE_TARGET_EXERCISE".to_owned());
        } else {
            reasons.push("RESOURCE_TARGET_SKIP".to_owned());
        }
        assert(reasons.deep_view() =~= resource_reasons(f@, target_units));
        let hash = match context_hash_v4(&request.context) {
            Ok(hash) => hash,
            Err(e) => {
                return Err(DecisionError::Gate(e));
            },
        };
        let action = if exercise_quantity > 0 {
            "EXECUTE"
        } else {
            "SKIP"
        };
        let response = DecisionResponse {
            contract_version: request.contract_version,
            request_id: request.request_id.dup(),
            right_id: request.right.right_id.dup(),
            outcome: RightDecision::of_split(exercise_quantity, defer_quantity),
            decision: GateDecision {
                probability: f.market_score,
                alpha,
                alpha_numerator: Some(target_units),
                alpha_denominator: Some(offered_units),
                action: action.to_owned(),
                reason_codes: reasons,
                model_name: "resource-aware-whole-q".to_owned(),
                model_version: "1".to_owned(),
                input_snapshot_hash: hash,
                decided_at: request.context.current_time,
            },
        };
        assert(response@ =~= resource_answer(
            request@,
            f@,
            target_units,
            exercise_quantity,
            defer_quantity,
            alpha,
        ));
        match response.validate_for(request) {
            Ok(_) => Ok(response),
            Err(e) => Err(e),
        }
    }
}

/// Lets a gate decide.
pub struct GateAlgorithmAdapter<P: GatePolicy> {
    pub policy: P,
}

/// The answer that follows from that of a gate.
pub open spec fn adapted_answer(
    r: DecisionRequestView,
    answer: Result<GateDecisionView, GateError>,
) -> Result<DecisionResponseView, DecisionError> {
    match request_fault(r) {
        Some(e) => Err(e),
        None => match answer {
            Err(e) => Err(DecisionError::Gate(e)),
            Ok(decision) => match gate_outcome(
                decision.alpha,
                r.context.available_quantity,
                r.context.standard_quantity,
            ) {
                None => Err(DecisionError::NumericRange),
                Some(outcome) => checked_answer(
                    DecisionResponseView {
                        contract_version: r.contract_version,
                        request_id: r.request_id,
                        right_id: r.right.right_id,
                        outcome,
                        decision,
                    },
                    r,
                    true,
                ),
            },
        },
    }
}

impl<P: GatePolicy> GateAlgorithmAdapter<P> {
    /// Lets the given gate decide.
    pub fn new(policy: P) -> (r: Self)
        ensures
            r.policy == policy,
    {
        GateAlgorithmAdapter { policy }
    }
}

impl<P: GatePolicy> QuantDecisionAlgorithm for GateAlgorithmAdapter<P> {
    fn manifest(&self, platform_sha256: &str) -> (r: AlgorithmManifest)
        ensures
            r@ == builtin_manifest(
                "gate-policy-adapter"@,
                WHOLE_UNIT_DECISION_CONTRACT_VERSION,
                "gate-policy-adapter-v1"@,
                "in-process:no-environment"@,
                platform_sha256@,
            ),
    {
        builtin(
            "gate-policy-adapter",
            WHOLE_UNIT_DECISION_CONTRACT_VERSION,
            "gate-policy-adapter-v1",
            "in-process:no-environment",
            platform_sha256,
        )
    }

    fn decide(&self, request: &DecisionRequest) -> (r: Result<DecisionResponse, DecisionError>)
        ensures
            response_view(r) == adapted_answer(
                request@,
                self.policy.answer(request@.context),
            ),
    {
        match request.validate() {
            Ok(_) => {},
            Err(e) => {
                return Err(e);
            },
        }
        let decision = match self.policy.evaluate(&request.context) {
            Ok(d) => d,
            Err(e) => {
                return Err(DecisionError::Gate(e));
            },
        };
        let outcome = match RightDecision::checked_from_gate(
            &decision,
            request.context.available_quantity,
            request.context.standard_quantity,
        ) {
            Some(o) => o,
            None => {
                return Err(DecisionError::NumericRange);
            },
        };
        let response = DecisionResponse {
            contract_version: request.contract_version,
            request_id: request.request_id.dup(),
            right_id: request.right.right_id.dup(),
            outcome,
            decision,
        };
        match response.validate_for(request) {
            Ok(_) => Ok(response),
            Err(e) => Err(e),
        }
    }
}

/// The algorithms that a configuration can name.
pub enum ConfiguredAlgorithm {
    ResourceAware(ResourceAwareWholeQAlgorithm),
    Gate(GateAlgorithmAdapter<ConfiguredGate>),
}

/// What a configured algorithm answers.
pub open spec fn configured_answer(
    a: ConfiguredAlgorithm,
    r: DecisionRequestView,
) -> Result<DecisionResponseView, DecisionError> {
    match a {
        ConfiguredAlgorithm::ResourceAware(_) => resource_decision(r),
        ConfiguredAlgorithm::Gate(g) => adapted_answer(
            r,
            g.policy.answer(r.context),
        ),
    }
}

impl QuantDecisionAlgorithm for ConfiguredAlgorithm {
    fn manifest(&self, platform_sha256: &str) -> (r: AlgorithmManifest)
        ensures
            self is ResourceAware ==> r@ == builtin_manifest(
                "resource-aware-whole-q"@,
                DECISION_CONTRACT_VERSION,
                "resource-aware-whole-q-v1"@,
                "in-process:no-environment"@,
                platform_sha256@,
            ),
            self is Gate ==> r@ == builtin_manifest(
                "gate-policy-adapter"@,
                WHOLE_UNIT_DECISION_CONTRACT_VERSION,
                "gate-policy-adapter-v1"@,
                "in-process:no-environment"@,
                platform_sha256@,
            ),
    {
        match self {
            ConfiguredAlgorithm::ResourceAware(a) => a.manifest(platform_sha256),
            ConfiguredAlgorithm::Gate(a) => a.manifest(platform_sha256),
        }
    }

    fn decide(&self, request: &DecisionRequest) -> (r: Result<DecisionResponse, DecisionError>)
        ensures
            response_view(r) == configured_answer(*self, request@),
    {
        match self {
            ConfiguredAlgorithm::ResourceAware(a) => a.decide(request),
            ConfiguredAlgorithm::Gate(a) => a.decide(request),
        }
    }
}

/// The algorithm that a configuration names.
pub fn algorithm_from_config(config: &Config) -> (r: Result<ConfiguredAlgorithm, DecisionError>)
    ensures
        config@.gate.kind == "resource_aware"@ ==> (r matches Ok(a) && a is ResourceAware),
        config@.gate.kind != "resource_aware"@ ==> (match named_gate(config@) {
            Some(g) => r matches Ok(ConfiguredAlgorithm::Gate(a)) && a.policy == g,
            None => r matches Err(e) && e == DecisionError::Gate(GateError::UnknownGate),
        }),
{
    if text_eq(config.gate.kind.as_str(), "resource_aware") {
        Ok(ConfiguredAlgorithm::ResourceAware(ResourceAwareWholeQAlgorithm))
    } else {
        match from_config(config) {
            Ok(g) => Ok(ConfiguredAlgorithm::Gate(GateAlgorithmAdapter::new(g))),
            Err(e) => Err(DecisionError::Gate(e)),
        }
    }
}

/// What becomes of the manifest of a process: what it declares is kept where it
/// is in order, and what the platform measures is put in.
pub open spec fn registered(
    m: AlgorithmManifestView,
    artifact: Seq<char>,
    arguments: Seq<Seq<char>>,
    platform: Seq<char>,
) -> Result<AlgorithmManifestView, DecisionError> {
    if blank(m.algorithm_name) || blank(m.algorithm_version) || !canonical_versions(
        m.supported_contract_versions,
    ) || !m.deterministic {
        Err(DecisionError::Manifest)
    } else if m.supports_checkpoint {
        Err(DecisionError::StatefulProcess)
    } else {
        Ok(
            AlgorithmManifestView {
                artifact_sha256: artifact,
                canonical_arguments: arguments,
                environment_sha256: sha256_hex_text(
                    vstd::utf8::encode_utf8("env-clear:GRIDEDGE_PROTOCOL_VERSION=1"@),
                ),
                platform_sha256: platform,
                ..m
            },
        )
    }
}

/// Registers the manifest of a process.
pub fn register_manifest(
    manifest: AlgorithmManifest,
    artifact_sha256: String,
    arguments: Vec<String>,
    platform_sha256: String,
) -> (r: Result<AlgorithmManifest, DecisionError>)
    ensures
        (match r {
            Ok(m) => Ok(m@),
            Err(e) => Err(e),
        }) == registered(
            manifest@,
            artifact_sha256@,
            arguments.deep_view(),
            platform_sha256@,
        ),
{
    assert(manifest.supported_contract_versions@
        =~= manifest.supported_contract_versions.deep_view());
    if is_blank(manifest.algorithm_name.as_str()) || is_blank(manifest.algorithm_version.as_str())
        || !supported_contract_versions_are_canonical(
        manifest.supported_contract_versions.as_slice(),
    ) || !manifest.deterministic {
        return Err(DecisionError::Manifest);
    }
    if manifest.supports_checkpoint {
        return Err(DecisionError::StatefulProcess);
    }
    Ok(
        AlgorithmManifest {
            algorithm_name: manifest.algorithm_name,
            algorithm_version: manifest.algorithm_version,
            supported_contract_versions: manifest.supported_contract_versions,
            deterministic: manifest.deterministic,
            supports_checkpoint: manifest.supports_checkpoint,
            artifact_sha256,
            canonical_arguments: arguments,
            environment_sha256: builtin_artifact_sha256("env-clear:GRIDEDGE_PROTOCOL_VERSION=1"),
            platform_sha256,
        },
    )
}

/// A valid request with evidence always has a safe answer, and the safe answer
/// keeps everything.
pub proof fn law_safe_answer_keeps_everything(
    r: DecisionRequestView,
    reason: Seq<char>,
)
    requires
        request_fault(r) is None,
        r.contract_version == DECISION_CONTRACT_VERSION,
        in_unit_interval(r.context.funds_inventory->0.market_score),
    ensures
        safe_answer(r, reason) is Ok,
        safe_answer(r, reason)->Ok_0.outcome.exercised() == 0,
        safe_answer(r, reason)->Ok_0.outcome.deferred() == r.context.available_quantity,
{
    broadcast use crate::decimal::lemma_of_parts;

    let f = r.context.funds_inventory->0;
    let a = idle_answer(r, f, reason);
    let unit = r.context.standard_quantity;
    let available = r.context.available_quantity;
    reveal_strlit("1");
    reveal_strlit("resource-aware-whole-q-failsafe");
    assert(!crate::text::white_space("1"@[0]));
    assert(!crate::text::white_space("resource-aware-whole-q-failsafe"@[0]));
    assert(a.decision.reason_codes[1] == "RESOURCE_FAIL_CLOSED"@);
    lemma_checked_div(available, unit);
    lemma_checked_div(0, unit);
    crate::decimal::lemma_units_sign(Decimal::zero());
    crate::decimal::lemma_units_sign(Decimal::one());
    law_partition_conserves(gross_quantity(r.right), unit);
    let offered = trunc_div(available as int, unit as int);
    let p = unit_partition(gross_quantity(r.right), unit)->0;
    let authorized = p.0;
    lemma_checked_div(authorized, unit);
    assert(authorized as int / unit as int >= 0) by (nonlinear_arith)
        requires
            authorized >= 0,
            unit > 0,
    ;
    let o = if f.resource_units < trunc_div(authorized as int, unit as int) {
        f.resource_units as int
    } else {
        trunc_div(authorized as int, unit as int)
    };
    assert(available == o * unit);
    assert(0 <= o * unit && (o * unit) % (unit as int) == 0) by (nonlinear_arith)
        requires
            o >= 0,
            unit > 0,
    {
        vstd::arithmetic::div_mod::lemma_mod_multiples_basic(o, unit as int);
    }
    assert(available as int / unit as int >= 0) by (nonlinear_arith)
        requires
            available >= 0,
            unit > 0,
    ;
    assert(0int % (unit as int) == 0) by (nonlinear_arith)
        requires
            unit > 0,
    ;
    assert(0int / (unit as int) == 0) by (nonlinear_arith)
        requires
            unit > 0,
    ;
}

/// The most bytes that an algorithm may answer.
pub const MAX_ALGORITHM_RESPONSE_BYTES: u64 = 1_048_576;

/// Why a process gave no answer.
#[derive(Clone, Copy, Debug, PartialEq, Eq, Structural)]
pub enum ProcessError {
    /// The time limit is zero.
    NoTime,
    /// The process would run with all rights.
    Privileged,
    /// The answer is too long.
    TooLong,
    /// The process failed.
    Failed,
    /// The program is not the one that was registered.
    Changed,
}

/// Accepts a process with a positive time limit and without all rights.
pub fn validate_process(timeout_ms: u64, privileged: bool) -> (r: Result<(), ProcessError>)
    ensures
        r == (if timeout_ms == 0 {
            Err::<(), ProcessError>(ProcessError::NoTime)
        } else if privileged {
            Err::<(), ProcessError>(ProcessError::Privileged)
        } else {
            Ok::<(), ProcessError>(())
        }),
{
    if timeout_ms == 0 {
        return Err(ProcessError::NoTime);
    }
    if privileged {
        return Err(ProcessError::Privileged);
    }
    Ok(())
}

/// The seconds of processor time that a process may take: one more than its time
/// limit.
pub fn processor_seconds(timeout_seconds: u64) -> (r: u64)
    ensures
        r == (if timeout_seconds == u64::MAX {
            u64::MAX as int
        } else {
            timeout_seconds + 1
        }),
{
    if timeout_seconds == u64::MAX {
        timeout_seconds
    } else {
        timeout_seconds + 1
    }
}

/// Accepts the output of a process that ended well and did not say too much.
pub fn validate_process_output(output_bytes: u64, success: bool) -> (r: Result<(), ProcessError>)
    ensures
        r == (if output_bytes > MAX_ALGORITHM_RESPONSE_BYTES {
            Err::<(), ProcessError>(ProcessError::TooLong)
        } else if !success {
            Err::<(), ProcessError>(ProcessError::Failed)
        } else {
            Ok::<(), ProcessError>(())
        }),
{
    if output_bytes > MAX_ALGORITHM_RESPONSE_BYTES {
        return Err(ProcessError::TooLong);
    }
    if !success {
        return Err(ProcessError::Failed);
    }
    Ok(())
}

/// Accepts a program that is still the one that was registered.
pub fn validate_artifact(registered: &AlgorithmManifest, artifact_sha256: &str) -> (r: Result<
    (),
    ProcessError,
>)
    ensures
        r == (if registered@.artifact_sha256 == artifact_sha256@ {
            Ok::<(), ProcessError>(())
        } else {
            Err::<(), ProcessError>(ProcessError::Changed)
        }),
{
    if text_eq(registered.artifact_sha256.as_str(), artifact_sha256) {
        Ok(())
    } else {
        Err(ProcessError::Changed)
    }
}

} // verus!

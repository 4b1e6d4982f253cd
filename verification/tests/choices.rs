use gridedge_t::clock::Moment;
use gridedge_t::decimal::Decimal;
use gridedge_t::decision::{
    algorithm_from_config, ConfiguredAlgorithm, DecisionError, GateAlgorithmAdapter,
    QuantDecisionAlgorithm, ResourceAwareWholeQAlgorithm, DECISION_CONTRACT_VERSION,
    WHOLE_UNIT_DECISION_CONTRACT_VERSION,
};
use gridedge_t::digest::text_sha256;
use gridedge_t::gate::{
    context_hash, context_hash_v4, from_config, legacy_v2_context_hash, share_in, units_at_pace,
    AlwaysExecuteGate, ConfiguredGate, FixedGate, GateError, GatePolicy, SimpleRuleGate,
};
use gridedge_t::model::gates::{
    DecisionRequest, DecisionResponse, FundsInventoryContextV1, GateContext, GateDecision,
};
use gridedge_t::model::market::Direction;
use gridedge_t::model::outcome::RightDecision;
use gridedge_t::model::rights::{GridRight, GridRightCapacity};
use gridedge_t::model::settings::{Config, GateSettings, PaperSettings};
use gridedge_t::reference::reference_answer;

fn dec(text: &str) -> Decimal {
    Decimal::parse(text).unwrap()
}

fn noon() -> Moment {
    Moment::parse("2026-08-18 10:00:00", "%Y-%m-%d %H:%M:%S").unwrap()
}

fn right(available: i64) -> GridRight {
    let mut r = GridRight::granted(
        "run",
        "cycle",
        "002256.SZ",
        Direction::Buy,
        -1,
        dec("3.43"),
        noon(),
        GridRightCapacity {
            mechanical_budget_cap: dec("0"),
            deployed_budget: dec("0"),
            available_budget: dec("0"),
            mechanical_quantity_cap: available,
            deployed_quantity: 0,
            available_quantity: available,
            eligible_quantity: 0,
            eligible_lot_ids: Vec::new(),
            accumulated_grid_indices: Vec::new(),
            t_plus_one_blocked_quantity: 0,
            t_plus_one_blocked_lot_ids: Vec::new(),
            risk_blocked_quantity: 0,
            risk_blocked_lot_ids: Vec::new(),
            no_profit_blocked_quantity: 0,
            no_profit_blocked_lot_ids: Vec::new(),
            source_right_ids: Vec::new(),
            carried_in_budget: dec("0"),
            carried_in_quantity: 0,
            tranche_ids: Vec::new(),
        },
    );
    r.right_id = "right-1".to_owned();
    r
}

/// A context that offers whole units of 1000 shares out of `gross` shares.
fn context(gross: i64) -> GateContext {
    GateContext {
        right_id: "right-1".to_owned(),
        symbol: "002256.SZ".to_owned(),
        direction: Direction::Buy,
        grid_index: -1,
        grid_price: dec("3.43"),
        current_price: dec("3.43"),
        current_time: noon(),
        available_budget: dec("0"),
        available_quantity: gross - gross % 1000,
        gross_available_quantity: gross,
        platform_residual_quantity: gross % 1000,
        algorithm_authorized_quantity: gross - gross % 1000,
        lot_size: 100,
        standard_quantity: 1000,
        eligible_lot_ids: Vec::new(),
        accumulated_grid_indices: Vec::new(),
        deployed_budget: dec("0"),
        current_position: 0,
        sellable_position: 0,
        recent_return: dec("0"),
        vwap_deviation: dec("0"),
        volatility: dec("0"),
        market_regime: String::new(),
        cycle_id: "cycle".to_owned(),
        funds_inventory: None,
    }
}

/// Evidence of a market and of resources that speak for a buy at one of five
/// levels, with four authorized units and as many that the resources allow.
fn evidence() -> FundsInventoryContextV1 {
    FundsInventoryContextV1 {
        schema_version: 1,
        feature_head_sequence: 9,
        feature_bar_ids: (0..20).map(|i| format!("bar-{i}")).collect(),
        feature_bars_sha256: text_sha256("bars"),
        history_bars: 20,
        short_window: 5,
        long_window: 20,
        trade_levels: 5,
        weight_depth: dec("0.35"),
        weight_trend: dec("0.40"),
        weight_location: dec("0.25"),
        market_threshold: dec("0.60"),
        depth: dec("0.2"),
        recent_return_5: dec("-0.02"),
        vwap_deviation_20: dec("-0.01"),
        range_scale_20: dec("0.02"),
        trend_strength: dec("1"),
        location_strength: dec("0.5"),
        market_score: dec("0.595"),
        market_signal_passed: false,
        cash_available: dec("100000"),
        cash_frozen: dec("0"),
        minimum_free_cash: dec("50000"),
        spendable_cash: dec("50000"),
        adverse_buy_price: None,
        cash_affordable_units: 4,
        position_total: 0,
        pending_buy_quantity: 0,
        position_exposure_quantity: 0,
        position_sellable: 0,
        position_today_bought: 0,
        position_frozen_sell: 0,
        max_position: 50000,
        min_base_position: 0,
        target_position: 10000,
        position_headroom_units: 4,
        target_headroom_units: 4,
        sellable_inventory_units: 0,
        mechanical_authorized_units: 4,
        resource_units: 4,
        predecision_blocked_units: 0,
        resource_ratio: dec("0.5"),
        resource_multiplier: dec("0.75"),
        pace: dec("0"),
        target_units: 0,
    }
}

/// The same market, a little stronger: it passes.
fn strong_evidence() -> FundsInventoryContextV1 {
    FundsInventoryContextV1 {
        vwap_deviation_20: dec("-0.02"),
        location_strength: dec("1"),
        market_score: dec("0.72"),
        market_signal_passed: true,
        pace: dec("0.5"),
        target_units: 2,
        ..evidence()
    }
}

fn request(evidence: Option<FundsInventoryContextV1>) -> DecisionRequest {
    let version: u32 = if evidence.is_some() {
        DECISION_CONTRACT_VERSION
    } else {
        WHOLE_UNIT_DECISION_CONTRACT_VERSION
    };
    let mut c = context(4500);
    c.funds_inventory = evidence;
    DecisionRequest::new_with_contract(right(4500), c, version)
}

#[test]
fn gates_answer_as_they_are_configured() {
    let c = context(4500);
    let always = AlwaysExecuteGate.evaluate(&c).ok().unwrap();
    assert_eq!(always.action, "EXECUTE");
    assert_eq!(always.model_name, "always-execute");
    assert_eq!(always.reason_codes, vec!["MECHANICAL_BASELINE".to_owned()]);
    assert_eq!(always.input_snapshot_hash, context_hash(&c));
    assert_eq!(always.validate_for(&c), Ok(()));
    let fixed = FixedGate { probability: dec("0.3"), alpha: dec("0.2") };
    let few = fixed.evaluate(&c).ok().unwrap();
    assert_eq!(few.action, "SKIP");
    assert_eq!(few.probability.text(), "0.3");
    let wrong = FixedGate { probability: dec("1.3"), alpha: dec("0.2") };
    assert_eq!(wrong.evaluate(&c).err(), Some(GateError::OutsideUnitInterval));
    let neutral = SimpleRuleGate.evaluate(&c).ok().unwrap();
    assert!(neutral.alpha.equals(&dec("0.5")));
    assert_eq!(neutral.reason_codes, vec!["NEUTRAL_RULES".to_owned()]);
    let weak = GateContext {
        recent_return: dec("-0.02"),
        vwap_deviation: dec("-0.01"),
        volatility: dec("0.06"),
        market_regime: "DOWN".to_owned(),
        ..context(4500)
    };
    let mixed = SimpleRuleGate.evaluate(&weak).ok().unwrap();
    assert!(mixed.alpha.equals(&dec("0.5")));
    assert_eq!(
        mixed.reason_codes,
        vec!["RECENT_WEAKNESS", "BELOW_VWAP", "MARKET_DOWN_RISK", "HIGH_VOLATILITY"]
    );
}

#[test]
fn answers_of_gates_are_checked() {
    let c = context(4500);
    let answer = || AlwaysExecuteGate.evaluate(&context(4500)).ok().unwrap();
    let fault = |a: GateDecision| a.validate_for(&context(4500)).err();
    assert_eq!(fault(answer()), None);
    assert_eq!(fault(GateDecision { alpha: dec("2"), ..answer() }), Some(GateError::OutsideUnitInterval));
    assert_eq!(fault(GateDecision { model_name: " ".to_owned(), ..answer() }), Some(GateError::MissingAudit));
    assert_eq!(fault(GateDecision { reason_codes: Vec::new(), ..answer() }), Some(GateError::MissingAudit));
    assert_eq!(fault(GateDecision { action: "WAIT".to_owned(), ..answer() }), Some(GateError::UnknownAction));
    assert_eq!(
        fault(GateDecision { input_snapshot_hash: text_sha256("other"), ..answer() }),
        Some(GateError::HashMismatch)
    );
    let later = Moment::parse("2026-08-18 10:00:01", "%Y-%m-%d %H:%M:%S").unwrap();
    assert_eq!(fault(GateDecision { decided_at: later, ..answer() }), Some(GateError::TimeMismatch));
    let oldest = || GateDecision { input_snapshot_hash: legacy_v2_context_hash(&context(4500)), ..answer() };
    assert_eq!(oldest().validate_for_legacy_v2(&c), Ok(()));
    assert_eq!(
        GateDecision { action: "SKIP".to_owned(), ..oldest() }.validate_for_legacy_v2(&c),
        Err(GateError::ActionMismatch)
    );
    assert_eq!(answer().validate_for_v4(&c, 4000), Err(GateError::Ratio));
    let exact = GateDecision { alpha_numerator: Some(4), alpha_denominator: Some(4), ..answer() };
    assert_eq!(exact.validate_for_v4(&c, 4000), Err(GateError::MissingEvidence));
    assert_eq!(context_hash_v4(&c), Err(GateError::MissingEvidence));
}

#[test]
fn contexts_have_a_digest_under_each_contract() {
    let mut c = context(4500);
    c.eligible_lot_ids = vec!["lot \"a\"".to_owned(), "b".to_owned()];
    c.accumulated_grid_indices = vec![-1, 2];
    assert_eq!(legacy_v2_context_hash(&c), "91d189dcf98fe671459dcad21136f4fb55dc40b4b11e0a10a61bd569682672ea");
    assert_eq!(context_hash(&c), "6c2e5a63ab4d6bb34bc22ac3893ad7f0e3db81f38644e3af0db72efc103c49a3");
    c.funds_inventory = Some(evidence());
    assert_eq!(context_hash(&c), "6c2e5a63ab4d6bb34bc22ac3893ad7f0e3db81f38644e3af0db72efc103c49a3");
    assert_eq!(
        context_hash_v4(&c),
        Ok("fe9efe644f5c0b4af5f98ebd8a5892ea980f6e5e9d5744031335744519ad93b7".to_owned())
    );
}

#[test]
fn units_follow_the_pace() {
    assert_eq!(units_at_pace(4, dec("0.5")), Some(2));
    assert_eq!(units_at_pace(4, dec("0.1")), Some(1));
    assert_eq!(units_at_pace(1, dec("0.5")), Some(1));
    assert_eq!(units_at_pace(100, dec("0.5")), Some(2));
    assert!(share_in(1, 4).unwrap().equals(&dec("0.25")));
}

#[test]
fn requests_are_checked() {
    let fault = |change: fn(&mut DecisionRequest)| {
        let mut r = request(None);
        change(&mut r);
        r.validate().err()
    };
    assert_eq!(fault(|_| {}), None);
    assert_eq!(fault(|r| r.contract_version = 9), Some(DecisionError::UnsupportedContract));
    assert_eq!(fault(|r| r.context.grid_index = 1), Some(DecisionError::ContextMismatch));
    assert_eq!(fault(|r| r.context.platform_residual_quantity = 0), Some(DecisionError::NotCanonical));
    assert_eq!(fault(|r| r.context.available_quantity = 3000), Some(DecisionError::WholeUnitFields));
    assert_eq!(fault(|r| r.contract_version = DECISION_CONTRACT_VERSION), Some(DecisionError::MissingEvidence));
    assert_eq!(fault(|r| r.contract_version = 2), Some(DecisionError::LegacyCapacity));
    let r = request(None);
    assert_eq!(r.request_id, "decision:right-1");
    assert_eq!(r.deterministic_seed, 8213290138905025150);
    assert_eq!(request(Some(evidence())).validate(), Ok(()));
    assert_eq!(request(Some(strong_evidence())).validate(), Ok(()));
    let forged = FundsInventoryContextV1 { target_units: 3, ..strong_evidence() };
    assert_eq!(
        request(Some(forged)).validate(),
        Err(DecisionError::Gate(GateError::EvidenceDerivation))
    );
    let other = FundsInventoryContextV1 { weight_depth: dec("0.36"), ..strong_evidence() };
    assert_eq!(
        request(Some(other)).validate(),
        Err(DecisionError::Gate(GateError::EvidenceConstants))
    );
    let fewer = FundsInventoryContextV1 { mechanical_authorized_units: 5, predecision_blocked_units: 1, ..strong_evidence() };
    assert_eq!(request(Some(fewer)).validate(), Err(DecisionError::ResourcePartition));
}

#[test]
fn gates_decide_in_whole_units() {
    let half = GateAlgorithmAdapter::new(FixedGate { probability: dec("1"), alpha: dec("0.4") });
    let answer = half.decide(&request(None)).ok().unwrap();
    assert_eq!(answer.outcome.quantities(), (1000, 3000));
    let all = GateAlgorithmAdapter::new(AlwaysExecuteGate);
    let answer = all.decide(&request(None)).ok().unwrap();
    assert_eq!(answer.outcome, RightDecision::Exercise { exercise_quantity: 4000, defer_quantity: 0 });
    assert_eq!(answer.request_id, "decision:right-1");
    let none = GateAlgorithmAdapter::new(FixedGate { probability: dec("1"), alpha: dec("0.2") });
    let answer = none.decide(&request(None)).ok().unwrap();
    assert_eq!(answer.outcome, RightDecision::Defer { defer_quantity: 4000 });
    let manifest = all.manifest("platform");
    assert_eq!(manifest.algorithm_name, "gate-policy-adapter");
    assert_eq!(manifest.artifact_sha256, text_sha256("gate-policy-adapter-v1"));
    assert_eq!(manifest.platform_sha256, "platform");
    assert_eq!(
        RightDecision::checked_from_gate(&answer.decision, -5, 1000),
        Some(RightDecision::Defer { defer_quantity: 0 })
    );
}

#[test]
fn resources_bound_what_is_traded() {
    let algorithm = ResourceAwareWholeQAlgorithm;
    let strong = algorithm.decide(&request(Some(strong_evidence()))).ok().unwrap();
    assert_eq!(strong.outcome.quantities(), (2000, 2000));
    assert_eq!(strong.decision.alpha_numerator, Some(2));
    assert_eq!(strong.decision.alpha_denominator, Some(4));
    assert_eq!(
        strong.decision.reason_codes,
        vec!["RESOURCE_MARKET_SIGNAL_PASSED", "RESOURCE_TARGET_EXERCISE"]
    );
    let weak = algorithm.decide(&request(Some(evidence()))).ok().unwrap();
    assert_eq!(weak.outcome.quantities(), (0, 4000));
    assert_eq!(
        weak.decision.reason_codes,
        vec!["RESOURCE_MARKET_THRESHOLD_NOT_MET", "RESOURCE_TARGET_SKIP"]
    );
    assert_eq!(
        algorithm.decide(&request(None)).err(),
        Some(DecisionError::ContractRequired)
    );
}

#[test]
fn failed_algorithms_keep_everything() {
    let r = request(Some(strong_evidence()));
    let safe = ResourceAwareWholeQAlgorithm::safe_response(&r, "TIMEOUT").ok().unwrap();
    assert_eq!(safe.outcome, RightDecision::Defer { defer_quantity: 4000 });
    assert_eq!(safe.decision.reason_codes, vec!["TIMEOUT", "RESOURCE_FAIL_CLOSED"]);
    assert_eq!(safe.validate_for_algorithm_status(&r, false), Ok(()));
    assert_eq!(safe.validate_for(&r), Err(DecisionError::Target));
    let strong = ResourceAwareWholeQAlgorithm.decide(&r).ok().unwrap();
    assert_eq!(
        strong.validate_for_algorithm_status(&r, false),
        Err(DecisionError::FailClosed)
    );
}

#[test]
fn answers_to_requests_are_checked() {
    let r = request(None);
    let answer = || GateAlgorithmAdapter::new(AlwaysExecuteGate).decide(&request(None)).ok().unwrap();
    let fault = |a: DecisionResponse| a.validate_for(&r).err();
    assert_eq!(fault(answer()), None);
    assert_eq!(fault(DecisionResponse { right_id: "x".to_owned(), ..answer() }), Some(DecisionError::Identity));
    assert_eq!(
        fault(DecisionResponse {
            outcome: RightDecision::Exercise { exercise_quantity: 3500, defer_quantity: 500 },
            ..answer()
        }),
        Some(DecisionError::Quantities)
    );
    assert_eq!(
        fault(DecisionResponse {
            outcome: RightDecision::Exercise { exercise_quantity: 0, defer_quantity: 4000 },
            ..answer()
        }),
        Some(DecisionError::OutcomeKind)
    );
    assert_eq!(
        fault(DecisionResponse { outcome: RightDecision::Defer { defer_quantity: 4000 }, ..answer() }),
        Some(DecisionError::ActionMismatch)
    );
}

fn config(kind: &str) -> Config {
    Config {
        symbol: "002256.SZ".to_owned(),
        anchor_price: dec("3.50"),
        grid_ratio: dec("0.02"),
        trade_levels: 5,
        boundary_levels: 6,
        standard_budget: dec("0"),
        standard_quantity: 1000,
        initial_cash: dec("100000"),
        initial_position: 0,
        initial_sellable: 0,
        max_position: 50000,
        min_base_position: 0,
        lot_size: 100,
        price_scale: 2,
        hysteresis_ratio: dec("0.5"),
        commission_rate: dec("0.0003"),
        minimum_commission: dec("5"),
        sell_tax_rate: dec("0.0005"),
        slippage_rate: dec("0.001"),
        gate: GateSettings {
            kind: kind.to_owned(),
            probability: dec("0.6"),
            alpha: dec("0.4"),
            failure_mode: "safe".to_owned(),
            timeout_ms: 100,
            capital_inventory: None,
        },
        paper: PaperSettings {
            reject_probability_bps: 0,
            partial_fill_bps: 0,
            latency_ms: 0,
            seed: 7,
            hold_open_probability_bps: 0,
        },
        ambiguity_policy: "conservative".to_owned(),
        database: String::new(),
        config_version: "v1".to_owned(),
    }
}

#[test]
fn configurations_name_their_algorithm() {
    assert!(matches!(from_config(&config("always_execute")), Ok(ConfiguredGate::AlwaysExecute(_))));
    assert!(matches!(from_config(&config("simple_rule")), Ok(ConfiguredGate::SimpleRule(_))));
    match from_config(&config("fixed")) {
        Ok(ConfiguredGate::Fixed(g)) => assert_eq!((g.probability.text(), g.alpha.text()), ("0.6".to_owned(), "0.4".to_owned())),
        _ => panic!("a fixed gate was named"),
    }
    assert_eq!(from_config(&config("other")).err(), Some(GateError::UnknownGate));
    assert!(matches!(algorithm_from_config(&config("resource_aware")), Ok(ConfiguredAlgorithm::ResourceAware(_))));
    assert_eq!(
        algorithm_from_config(&config("other")).err(),
        Some(DecisionError::Gate(GateError::UnknownGate))
    );
    let configured = algorithm_from_config(&config("fixed")).ok().unwrap();
    let answer = configured.decide(&request(None)).ok().unwrap();
    assert_eq!(answer.outcome.quantities(), (1000, 3000));
    assert!(matches!(configured.checkpoint(), Ok(None)));
}

#[test]
fn the_reference_algorithm_trades_all_that_it_is_offered() {
    let r = request(Some(evidence()));
    let answer = reference_answer(&r).ok().unwrap();
    assert_eq!(answer.outcome.quantities(), (4000, 0));
    assert_eq!(answer.decision.reason_codes, vec!["REFERENCE_PROCESS".to_owned()]);
    assert_eq!(answer.decision.input_snapshot_hash, context_hash(&r.context));
    let mut broken = request(Some(evidence()));
    broken.contract_version = 9;
    assert_eq!(reference_answer(&broken).err(), Some(DecisionError::UnsupportedContract));
}

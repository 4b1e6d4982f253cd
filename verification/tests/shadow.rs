use gridedge_t::clock::Moment;
use gridedge_t::decimal::Decimal;
use gridedge_t::digest::text_sha256;
use gridedge_t::json::object_of;
use gridedge_t::model::market::MarketBar;
use gridedge_t::shadow::{
    append_bar_triplet, ensure_fresh_evidence, expected_root, load_contract, validate_duration,
    validate_interval, validate_nonce, validate_observation_health, verify_ledger, Contract,
    PathFacts, ShadowError, ShadowObservation, ShadowRow, ShadowRun,
};

fn bar() -> MarketBar {
    MarketBar {
        timestamp: Moment::parse("2026-08-31 09:35:00", "%Y-%m-%d %H:%M:%S").unwrap(),
        symbol: "002256.SZ".to_owned(),
        open: Decimal::from_scaled(340, 2).unwrap(),
        high: Decimal::from_scaled(341, 2).unwrap(),
        low: Decimal::from_scaled(339, 2).unwrap(),
        close: Decimal::from_scaled(340, 2).unwrap(),
        volume: 100,
        amount: Some(Decimal::from_scaled(340, 0).unwrap()),
    }
}

fn ledger() -> Vec<ShadowRow> {
    let mut rows = Vec::new();
    append_bar_triplet(&mut rows, &bar()).unwrap();
    rows
}

fn fault(rows: &Vec<ShadowRow>, bars: u64) -> Option<ShadowError> {
    verify_ledger(rows, Some("false"), bars).err()
}

#[test]
fn each_shadow_bar_atomically_appends_one_complete_processing_triplet() {
    let rows = ledger();
    verify_ledger(&rows, Some("false"), 1).unwrap();
    let chain_breaks = (1..rows.len())
        .filter(|&i| rows[i].previous_sha256.as_ref() != Some(&rows[i - 1].event_sha256))
        .count();
    assert_eq!(chain_breaks, 0);
}

#[test]
fn shadow_interval_is_exactly_five_minutes() {
    assert!(validate_interval(5).is_ok());
    for invalid in [0, 1, 2, 3, 10, 15, 30] {
        assert!(validate_interval(invalid).is_err());
    }
}

#[test]
fn observation_health_rejects_start_tail_stale_source_and_committed_silence() {
    assert!(validate_observation_health([45_000_000; 5]).is_ok());
    for index in 0..5 {
        let mut gaps = [1_u64; 5];
        gaps[index] = 45_000_001;
        assert!(validate_observation_health(gaps).is_err(), "index={index}");
    }
}

#[test]
fn production_verifier_rejects_payload_hash_order_and_bar_binding_tampering() {
    for tamper in ["payload", "hash", "order", "bar"] {
        let mut rows = ledger();
        match tamper {
            "payload" => rows[1].payload_json = "{}".to_owned(),
            "hash" => rows[1].event_sha256 = "b".repeat(64),
            "order" => rows[1].event_type = "MARKET_BAR_PROCESSED".to_owned(),
            "bar" => rows[1].bar_timestamp = "2026-08-31 09:40:00".to_owned(),
            _ => unreachable!(),
        };
        assert!(verify_ledger(&rows, Some("false"), 1).is_err(), "tamper={tamper}");
    }

    let mut rows = ledger();
    let mut second: serde_json::Value = serde_json::from_str(&rows[1].payload_json).unwrap();
    second["bar"]["close"] = serde_json::Value::from("3.41");
    let second_payload = serde_json::to_string(&second).unwrap();
    let second_sha = text_sha256(&format!("{}{}", rows[0].event_sha256, second_payload));
    let third_sha = text_sha256(&format!("{}{}", second_sha, rows[2].payload_json));
    rows[1].payload_json = second_payload;
    rows[1].event_sha256 = second_sha.clone();
    rows[2].previous_sha256 = Some(second_sha);
    rows[2].event_sha256 = third_sha;
    assert!(verify_ledger(&rows, Some("false"), 1).is_err());
    assert_eq!(fault(&rows, 1), Some(ShadowError::Triplet));
}

#[test]
fn shadow_ledger_has_no_order_or_android_write_vocabulary() {
    for row in ledger() {
        for forbidden in [
            "OrderIntent",
            "run_outbox",
            "AndroidThsSimulationUiDriver",
            "prepare_order",
            "submit_order",
            "cancel_order",
        ] {
            assert!(!row.event_type.contains(forbidden));
            assert!(!row.payload_json.contains(forbidden));
        }
    }
}

#[test]
fn documents_are_written_in_the_order_of_their_names() {
    let rows = ledger();
    assert_eq!(
        rows[0].payload_json,
        "{\"bar\":{\"amount\":\"340\",\"close\":\"3.40\",\"high\":\"3.41\",\"low\":\"3.39\",\"open\":\"3.40\",\"symbol\":\"002256.SZ\",\"timestamp\":\"2026-08-31 09:35:00\",\"volume\":100},\"event_type\":\"MARKET_DATA_RECEIVED\",\"money_actions_enabled\":false,\"sequence_number\":1}"
    );
    assert_eq!(rows[0].event_sha256, text_sha256(&format!("GENESIS{}", rows[0].payload_json)));
    let mut rows = Vec::new();
    append_bar_triplet(&mut rows, &MarketBar { amount: None, ..bar() }).unwrap();
    assert!(rows[0].payload_json.starts_with("{\"bar\":{\"amount\":null,"));
}

#[test]
fn objects_are_given_where_they_can_be_read() {
    let owned = |list: &[&str]| list.iter().map(|s| s.to_string()).collect::<Vec<_>>();
    let names = owned(&["b", "a"]);
    assert_eq!(object_of(&names, &owned(&["[2]", " 1"])), Some("{\"a\":1,\"b\":[2]}".to_owned()));
    assert_eq!(object_of(&names, &owned(&["[2]", "x"])), None);
    assert_eq!(object_of(&names, &owned(&["[2]", "1e999"])), None);
}

#[test]
fn sound_ledgers_stay_sound() {
    let mut rows = ledger();
    let later = MarketBar {
        timestamp: Moment::parse("2026-08-31 09:40:00", "%Y-%m-%d %H:%M:%S").unwrap(),
        ..bar()
    };
    append_bar_triplet(&mut rows, &later).unwrap();
    let (head, digest) = verify_ledger(&rows, Some("false"), 2).unwrap();
    assert_eq!(head, 6);
    assert_eq!(digest, rows[5].event_sha256);
    assert_eq!(fault(&rows, 1), Some(ShadowError::Counts));
    assert_eq!(verify_ledger(&rows, Some("true"), 2).err(), Some(ShadowError::Money));
    assert_eq!(verify_ledger(&rows, None, 2).err(), Some(ShadowError::Money));
    assert_eq!(fault(&Vec::new(), 0), Some(ShadowError::Counts));
}

#[test]
fn ledger_faults_are_told_apart() {
    let mut rows = ledger();
    rows[2].sequence_number = 4;
    assert_eq!(fault(&rows, 1), Some(ShadowError::Order));
    let mut rows = ledger();
    rows[1].payload_json = "{".to_owned();
    assert_eq!(fault(&rows, 1), Some(ShadowError::Unreadable));
    let mut rows = ledger();
    rows[1].payload_json = rows[1].payload_json.replace("false", "true");
    assert_eq!(fault(&rows, 1), Some(ShadowError::Binding));
    let mut rows = ledger();
    rows[1].payload_json = rows[1].payload_json.replace("\"bar\":", "\"baz\":");
    assert_eq!(fault(&rows, 1), Some(ShadowError::BarMissing));
    let mut rows = ledger();
    rows[1].payload_json = rows[1].payload_json.replace("002256.SZ", "600000.SH");
    assert_eq!(fault(&rows, 1), Some(ShadowError::BarBinding));
    let mut rows = ledger();
    rows[2].event_sha256 = "b".repeat(64);
    assert_eq!(fault(&rows, 1), Some(ShadowError::Hash));
    let mut rows = ledger();
    rows[2].sequence_number = i64::MAX;
    assert_eq!(append_bar_triplet(&mut rows, &bar()), Err(ShadowError::Sequence));
    assert_eq!(rows.len(), 3);
    let mut rows = ledger();
    rows.truncate(1);
    append_bar_triplet(&mut rows, &bar()).unwrap();
    rows.truncate(2);
    rows.swap(0, 1);
    rows[1].sequence_number = 1;
    assert_eq!(append_bar_triplet(&mut rows, &bar()), Err(ShadowError::Digest));
    assert_eq!(rows.len(), 2);
}

fn contract() -> Contract {
    let nonce = "e2e-0629-7d0bcbd4-3f6e-4b6c-9a83-1f1f5a2c9d10";
    Contract {
        mode: "ISOLATED_READ_ONLY_E2E".to_owned(),
        nonce: nonce.to_owned(),
        mqtt_host: "127.0.0.1".to_owned(),
        mqtt_port: 18_883,
        mqtt_namespace: format!("gridedge-e2e/{nonce}"),
        worker_mqtt_username: "gridedge-e2e-worker".to_owned(),
        worker_mqtt_client_id: format!("{nonce}-worker"),
        money_actions_enabled: false,
    }
}

fn paths() -> PathFacts {
    PathFacts {
        root_is_expected: true,
        contract_in_root: true,
        parent_is_root: true,
        root_is_link: false,
        state_is_link: false,
        events_in_state: true,
        bars_in_state: true,
        ledger_in_state: true,
    }
}

#[test]
fn contracts_are_isolated_and_read_only() {
    assert_eq!(load_contract(&contract(), paths()), Ok(()));
    assert_eq!(expected_root("n"), "/tmp/gridedge-market-e2e-n");
    let refused = [
        Contract { mode: "LIVE".to_owned(), ..contract() },
        Contract { money_actions_enabled: true, ..contract() },
        Contract { mqtt_host: "0.0.0.0".to_owned(), ..contract() },
        Contract { mqtt_port: 8883, ..contract() },
        Contract { worker_mqtt_username: "x".to_owned(), ..contract() },
        Contract { worker_mqtt_client_id: "x".to_owned(), ..contract() },
        Contract { mqtt_namespace: "gridedge/market".to_owned(), ..contract() },
    ];
    for c in refused {
        assert_eq!(load_contract(&c, paths()), Err(ShadowError::Contract));
    }
    assert_eq!(
        load_contract(&contract(), PathFacts { root_is_expected: false, ..paths() }),
        Err(ShadowError::Contract)
    );
    assert_eq!(
        load_contract(&contract(), PathFacts { state_is_link: true, ..paths() }),
        Err(ShadowError::Link)
    );
    assert_eq!(
        load_contract(&contract(), PathFacts { bars_in_state: false, ..paths() }),
        Err(ShadowError::Escaped)
    );
}

#[test]
fn nonces_are_random_identifiers_in_lower_case() {
    assert_eq!(validate_nonce("e2e-7d0bcbd4-3f6e-4b6c-9a83-1f1f5a2c9d10"), Err(ShadowError::NoncePrefix));
    assert_eq!(validate_nonce("e2e-0629-x"), Err(ShadowError::Nonce));
    assert_eq!(
        validate_nonce("e2e-0629-7D0BCBD4-3F6E-4B6C-9A83-1F1F5A2C9D10"),
        Err(ShadowError::NonceForm)
    );
    assert_eq!(
        validate_nonce("e2e-0629-7d0bcbd4-3f6e-1b6c-9a83-1f1f5a2c9d10"),
        Err(ShadowError::NonceForm)
    );
}

#[test]
fn evidence_files_start_empty() {
    assert_eq!(ensure_fresh_evidence(None, Some(0), None), Ok(()));
    assert_eq!(ensure_fresh_evidence(None, Some(0), Some(1)), Err(ShadowError::NotFresh));
    assert_eq!(validate_duration(600), Ok(()));
    assert_eq!(validate_duration(1800), Ok(()));
    assert_eq!(validate_duration(599), Err(ShadowError::Duration));
    assert_eq!(validate_duration(1801), Err(ShadowError::Duration));
}

fn seen(at_us: u64, received_us: u64, ns: u64) -> Option<ShadowObservation> {
    Some(ShadowObservation { observed_at_us: at_us, received_at_us: received_us, receipt_ns: ns })
}

#[test]
fn runs_are_accepted_where_they_saw_enough() {
    let second = 1_000_000_000_u64;
    let run = ShadowRun::new()
        .take_message(0, seen(1_000_000, 1_500_000, 3 * second))
        .unwrap()
        .take_message(1, seen(21_000_000, 21_250_000, 23 * second))
        .unwrap();
    assert_eq!(run.maximum_observation_gap_us, 20_000_000);
    assert_eq!(run.maximum_receipt_gap_us, 20_000_000);
    assert_eq!(run.maximum_observation_age_us, 500_000);
    assert_eq!(run.finish(30 * second), Ok((3_000_000, 7_000_000)));
    assert_eq!(run.finish(69 * second), Err(ShadowError::Stale));
    assert_eq!(ShadowRun::new().finish(0), Err(ShadowError::NoMessage));
    let early = ShadowRun::new().take_message(1, None).unwrap();
    assert_eq!(early.finish(0), Err(ShadowError::FirstMessage));
    let once = ShadowRun::new().take_message(0, seen(1, 1, 1)).unwrap();
    assert_eq!(once.finish(2), Err(ShadowError::Observations));
    let bare = once.take_message(0, seen(2, 2, 2)).unwrap();
    assert_eq!(bare.finish(3), Err(ShadowError::NoBar));
    assert_eq!(once.take_message(0, seen(5, 4, 2)), Err(ShadowError::Future));
    assert_eq!(once.take_message(0, seen(0, 4, 2)), Err(ShadowError::Backwards));
    let full = ShadowRun { messages: u64::MAX, ..once };
    assert_eq!(full.take_message(0, None), Err(ShadowError::Counter));
}

use gridedge_t::clock::{Day, Moment};
use gridedge_t::config::SnapshotPayload;
use gridedge_t::decimal::Decimal;
use gridedge_t::digest::text_sha256;
use gridedge_t::event::kinds::{is_readable, EventType};
use gridedge_t::event::payload::{EventEnvelope, Payload};
use gridedge_t::event::reduce::EventError;
use gridedge_t::execution::{
    plan_fills, stable_draw_bps, stable_id, ExecutionGateway, ExecutionReport, PaperAppraisal,
    PaperError, PaperExecutionGateway,
};
use gridedge_t::grid::GridSpec;
use gridedge_t::journal::append::{AppendError, AppendOutcome};
use gridedge_t::journal::inbox::{web_command_plan_sha256, InboxError, WebCommandClaim, WebInbox};
use gridedge_t::journal::query::{Duplicate, Journal};
use gridedge_t::journal::rebuild::RebuildError;
use gridedge_t::journal::schema::{
    database_instance_id, integrity_check, migrate, verify_current_schema, SchemaError,
    CURRENT_SCHEMA_VERSION,
};
use gridedge_t::journal::snapshots::{SnapshotError, SnapshotRow};
use gridedge_t::ledger::evidence::LedgerError;
use gridedge_t::ledger::writer::LedgerWriter;
use gridedge_t::model::commands::WebCommandOffer;
use gridedge_t::model::ledger::{
    CashAccount, DeploymentOrigin, Fill, Order, OrderIntent, OrderStatus, Position,
    ProfitGuardPolicy, ServiceMode, StrategyState,
};
use gridedge_t::model::market::{Direction, MarketBar};
use gridedge_t::model::notices::{
    Appraisal, ErrorNotice, FillCharges, FillNotice, LevelNotice, OpeningBooking, StageNotice,
};
use gridedge_t::model::paper::FillAppraisal;
use gridedge_t::model::settings::{CapitalInventorySettings, Config, GateSettings, PaperSettings};
use gridedge_t::table::Table;
use gridedge_t::value::Value;

fn dec(text: &str) -> Decimal {
    Decimal::parse(text).unwrap()
}

fn at(text: &str) -> Moment {
    Moment::parse(text, "%Y-%m-%d %H:%M:%S").unwrap()
}

fn config() -> Config {
    Config {
        symbol: "002256.SZ".to_owned(),
        anchor_price: dec("3.50"),
        grid_ratio: dec("0.02"),
        trade_levels: 1,
        boundary_levels: 2,
        standard_budget: dec("0"),
        standard_quantity: 1000,
        initial_cash: dec("100000"),
        initial_position: 2000,
        initial_sellable: 1000,
        max_position: 50000,
        min_base_position: 0,
        lot_size: 100,
        price_scale: 2,
        hysteresis_ratio: dec("0.5"),
        commission_rate: dec("0.0003"),
        minimum_commission: dec("5"),
        sell_tax_rate: dec("0.0005"),
        slippage_rate: dec("0.001"),
        gate: GateSettings {
            kind: "always_execute".to_owned(),
            probability: dec("1"),
            alpha: dec("1"),
            failure_mode: "safe".to_owned(),
            timeout_ms: 100,
            capital_inventory: None,
        },
        paper: PaperSettings {
            reject_probability_bps: 0,
            partial_fill_bps: 0,
            latency_ms: 0,
            seed: 7,
            hold_open_probability_bps: 0,
        },
        ambiguity_policy: "conservative".to_owned(),
        database: String::new(),
        config_version: "v1".to_owned(),
    }
}

fn state() -> StrategyState {
    StrategyState::new(
        "run".to_owned(),
        "cycle".to_owned(),
        "002256.SZ".to_owned(),
        dec("3.50"),
        dec("100000"),
        2000,
        1000,
    )
}

fn event_of(run: &str, kind: EventType, time: &str, key: &str, payload: Payload) -> EventEnvelope {
    EventEnvelope::new(
        kind,
        run,
        "cycle",
        "002256.SZ",
        at(time),
        at("2026-08-18 15:00:00"),
        "correlation",
        None,
        key.to_owned(),
        payload,
        format!("{{\"key\":\"{key}\"}}"),
        "v1",
    )
}

fn event(kind: EventType, time: &str, key: &str, payload: Payload) -> EventEnvelope {
    event_of("run", kind, time, key, payload)
}

fn appraisal() -> Appraisal {
    Appraisal {
        capacity: None,
        sell_tranches: Vec::new(),
        buy_reservation: None,
        close_costs: Vec::new(),
        worst_sell_price: None,
        sell_fees: Vec::new(),
        fill_charges: None,
        fill_slices: None,
        fee_split: None,
        deployment: None,
        opening_booking: None,
        approval: None,
        approved_quantity: None,
        evidence_valid: true,
        profit_guard_version: String::new(),
        resource_policy_version: String::new(),
        encoded_opening: Vec::new(),
    }
}

fn started(key: &str) -> EventEnvelope {
    event(EventType::RunStarted, "2026-08-18 09:30:00", key, Payload::Other)
}

#[test]
fn events_are_appended_once() {
    let mut journal = Journal::new();
    let mut first = started("start");
    assert_eq!(first.event_id, "e717790b-735b-5618-a06c-338f641690a0");
    assert_eq!(journal.append_expected(&mut first, 0), Ok(AppendOutcome::Appended(1)));
    assert_eq!(first.sequence_number, 1);
    assert_eq!(journal.append_expected(&mut started("start"), 1), Ok(AppendOutcome::Duplicate));
    assert_eq!(journal.len(), 1);
    assert_eq!(journal.duplicate_count("run"), 1);
    assert_eq!(journal.append_expected(&mut started("other"), 0), Err(AppendError::Stale));
    let mut changed = started("start");
    changed.encoded = "{}".to_owned();
    assert_eq!(journal.append_expected(&mut changed, 1), Err(AppendError::Conflict));
    let mut taken = started("new");
    taken.event_id = first.event_id.dup();
    assert_eq!(journal.append_expected(&mut taken, 1), Err(AppendError::IdentifierTaken));
    assert_eq!((taken.sequence_number, journal.len()), (2, 1));
    let mut refused = vec![started("a"), changed.dup(), started("b")];
    assert_eq!(journal.append_batch_expected(&mut refused, 1), Err(AppendError::Conflict));
    assert_eq!(refused.iter().map(|e| e.sequence_number).collect::<Vec<_>>(), [2, 0, 0]);
    assert_eq!(journal.len(), 1);
    assert_eq!(journal.append_batch_expected(&mut Vec::new(), 1), Err(AppendError::Empty));
    let mut runs = vec![started("a"), event_of("run-2", EventType::RunStarted, "2026-08-18 09:30:00", "a", Payload::Other)];
    assert_eq!(journal.append_batch_expected(&mut runs, 1), Err(AppendError::SeveralRuns));
    let mut symbols = vec![started("a"), started("b")];
    symbols[1].symbol = "600000.SH".to_owned();
    assert_eq!(journal.append_batch_expected(&mut symbols, 1), Err(AppendError::SeveralSymbols));
    let mut batch = vec![started("a"), started("start"), started("b")];
    assert_eq!(
        journal.append_batch_expected(&mut batch, 1),
        Ok(vec![AppendOutcome::Appended(2), AppendOutcome::Duplicate, AppendOutcome::Appended(3)])
    );
    assert_eq!(journal.latest_sequence("run"), 3);
    assert_eq!(journal.latest_sequence("run-2"), 0);
}

#[test]
fn payloads_are_compared_by_their_values() {
    let written = |key: &str, encoded: &str| {
        let mut e = started(key);
        e.encoded = encoded.to_owned();
        e.sequence_number = 1;
        e
    };
    let offer = |stored: &str, offered: &str| {
        let mut journal = Journal::load(vec![written("start", stored)], Vec::new()).unwrap();
        journal.append_expected(&mut written("start", offered), 1)
    };
    let stored = r#"{"a":1,"b":[2,"x"]}"#;
    assert_eq!(offer(stored, stored), Ok(AppendOutcome::Duplicate));
    assert_eq!(offer(stored, r#" { "b" : [2, "\u0078"], "a" : 1 }"#), Ok(AppendOutcome::Duplicate));
    assert_eq!(offer(stored, r#"{"a":1,"b":["x",2]}"#), Err(AppendError::Conflict));
    assert_eq!(offer(stored, r#"{"a":1}"#), Err(AppendError::Conflict));
    assert_eq!(offer("{", stored), Err(AppendError::Unreadable));
}

#[test]
fn bars_of_the_first_layout_are_read() {
    let first = |payload: Payload| {
        let time = "2026-08-17 14:55:00";
        let mut e = event(EventType::MarketDataReceived, time, "first", payload);
        e.schema_version = 1;
        let mut journal = Journal::new();
        let mut rows = vec![started("start"), e];
        assert!(journal.append_batch_expected(&mut rows, 0).is_ok());
        let (s, last) = journal.rebuild_full(state(), &appraisals(2)).ok().unwrap();
        assert_eq!(s.last_price.map(|p| p.text()), Some("3.45".to_owned()));
        assert!(s.pending_market_evidence.is_none());
        let mut w = LedgerWriter::new(journal, s, last);
        assert!(w.append(snapshot_event(), &appraisal()).is_ok());
        w
    };
    let market = |time: &str, key: &str| {
        event(EventType::MarketDataReceived, time, key, Payload::Bar(bar(time, "3.44")))
    };
    let mut w = first(Payload::Bar(bar("2026-08-17 14:55:00", "3.43")));
    assert_eq!(w.append_batch(&mut cycle_batch(), &appraisals(5)), Ok(()));
    let early = market("2026-08-17 14:55:00", "early");
    assert_eq!(w.append(early, &appraisal()), Err(LedgerError::StaleMarket));
    let next = market("2026-08-18 09:35:00", "next");
    assert_eq!(w.append(next, &appraisal()), Ok(AppendOutcome::Appended(9)));
    let mut w = first(stage("2026-08-17 14:55:00"));
    let refused = w.append_batch(&mut cycle_batch(), &appraisals(5));
    assert_eq!(refused, Err(LedgerError::Unreadable));
    let next = market("2026-08-18 09:35:00", "next");
    assert_eq!(w.append(next, &appraisal()), Err(LedgerError::Unreadable));
}

#[test]
fn journals_are_loaded_in_order() {
    let row = |key: &str, sequence: i64| {
        let mut e = started(key);
        e.sequence_number = sequence;
        e
    };
    let repeats = vec![Duplicate { run_id: "run".to_owned(), idempotency_key: "a".to_owned() }];
    let journal = Journal::load(vec![row("a", 1), row("b", 2)], repeats).unwrap();
    assert_eq!((journal.len(), journal.duplicate_count("run")), (2, 1));
    assert!(Journal::load(vec![row("a", 2), row("b", 1)], Vec::new()).is_none());
    assert!(Journal::load(vec![row("a", 1), row("a", 2)], Vec::new()).is_none());
}

fn bar(time: &str, low: &str) -> MarketBar {
    MarketBar {
        timestamp: at(time),
        symbol: "002256.SZ".to_owned(),
        open: dec("3.50"),
        high: dec("3.50"),
        low: dec(low),
        close: dec("3.45"),
        volume: 100,
        amount: None,
    }
}

fn level(index: i64) -> Payload {
    Payload::LevelAt(LevelNotice { grid_index: Some(index), price: Some("3.43".to_owned()) })
}

fn stage(time: &str) -> Payload {
    Payload::Stage(StageNotice {
        symbol: Some("002256.SZ".to_owned()),
        timestamp: Some(at(time)),
        close: Some("3.45".to_owned()),
    })
}

fn market_journal() -> Journal {
    let time = "2026-08-18 09:35:00";
    let mut journal = Journal::new();
    let mut rows = vec![
        started("start"),
        event(EventType::MarketDataReceived, time, "bar", Payload::Bar(bar(time, "3.43"))),
        event(EventType::GridLevelTouched, time, "touch", level(-1)),
        event(EventType::GridLevelSkipped, time, "skip", level(-1)),
        event(EventType::MarketBarProcessed, time, "done", stage(time)),
        event(EventType::GridLevelRearmed, "2026-08-18 09:40:00", "rearm", level(-1)),
        event(EventType::MarketDataReceived, "2026-08-18 09:45:00", "later", Payload::Bar(bar("2026-08-18 09:45:00", "3.44"))),
    ];
    assert!(journal.append_batch_expected(&mut rows, 0).is_ok());
    journal
}

#[test]
fn journals_answer_questions() {
    let j = market_journal();
    let time = at("2026-08-18 09:35:00");
    assert_eq!(j.event_count_by_type("run", EventType::MarketDataReceived), 2);
    assert_eq!(j.event_type_summary("run", EventType::MarketDataReceived), (2, Some(7)));
    assert_eq!(j.event_type_summary("run", EventType::OrderFilled), (0, None));
    assert_eq!(j.first_event_by_type("run", EventType::MarketDataReceived).unwrap().sequence_number, 2);
    assert!(matches!(j.first_payload_by_type("run", EventType::GridLevelTouched), Some(Payload::LevelAt(_))));
    assert!(j.has_idempotency_key("run", "touch") && !j.has_idempotency_key("run-2", "touch"));
    assert_eq!(j.event_by_idempotency_key("run", "skip").unwrap().sequence_number, 4);
    assert!(matches!(j.payload_by_idempotency_key("run", "done"), Some(Payload::Stage(_))));
    assert_eq!(j.correlation_by_idempotency_key("run", "skip"), Some("correlation".to_owned()));
    assert_eq!(
        j.latest_event_id_for_correlation("run", "correlation"),
        j.event_by_idempotency_key("run", "later").map(|e| e.event_id.dup())
    );
    assert_eq!(j.recent_payloads_by_type("run", EventType::MarketDataReceived, 1).len(), 1);
    assert!(j.has_grid_touch("run", "002256.SZ", time, -1));
    assert!(!j.has_grid_touch("run", "002256.SZ", time, 1));
    assert!(j.has_market_stage("run", EventType::MarketBarProcessed, "002256.SZ", time));
    assert_eq!(j.market_payload_at("run", "002256.SZ", time).unwrap().sequence_number, 2);
    assert_eq!(j.latest_grid_rearm_time("run", "002256.SZ", -1), Some(at("2026-08-18 09:40:00")));
    assert_eq!(j.latest_sell_fill_time("run"), None);
    assert_eq!(j.first_incomplete_market_sequence("run"), Some(7));
    assert_eq!(j.load_after_limited("run", 2, 3).len(), 3);
}

#[test]
fn touches_are_all_accounted_for() {
    let j = market_journal();
    let counts = j.completed_opportunity_counts("run", 7).unwrap();
    assert_eq!((counts.touches, counts.granted, counts.skipped), (1, 0, 1));
    assert_eq!((counts.legacy_unbound, counts.invalid_current), (0, 0));
    let anchors = j.completed_opportunity_anchors("run", 0, 7, 10);
    assert_eq!(anchors.len(), 1);
    assert_eq!((anchors[0].0.sequence_number, anchors[0].1), (3, 5));
    assert_eq!(j.opportunity_events_for_touch("run", &anchors[0].0, 5).len(), 5);
    assert!(j.completed_opportunity_anchors("run", 3, 7, 10).is_empty());
}

#[test]
fn snapshots_stand_for_the_journal() {
    let j = market_journal();
    let mut rows: Vec<SnapshotRow> = Vec::new();
    assert_eq!(j.save_snapshot_validated(&mut rows, &state(), "{}", 6), Err(SnapshotError::Stale));
    assert_eq!(j.save_snapshot_validated(&mut rows, &state(), "{}", 7), Ok(()));
    assert_eq!(j.save_snapshot_validated(&mut rows, &state(), "{}", 7), Ok(()));
    assert_eq!(rows.len(), 1);
    assert_eq!(rows[0].checksum, text_sha256("{}"));
    assert_eq!(j.save_snapshot_validated(&mut rows, &state(), "{ }", 7), Err(SnapshotError::Conflict));
    assert_eq!(j.latest_snapshot(&rows, "run"), (Some(0), false));
    rows[0].checksum = text_sha256("{ }");
    assert_eq!(j.latest_snapshot(&rows, "run"), (None, true));
    assert_eq!(j.latest_snapshot(&rows, "run-2"), (None, false));
}

#[test]
fn states_are_rebuilt_from_the_journal() {
    let mut j = Journal::new();
    let failed = Payload::Error(ErrorNotice { entered_safe: Some(true), component: None, reason_code: None });
    let mut rows = vec![
        started("start"),
        event(EventType::TradingDayRolled, "2026-08-18 09:30:00", "day", Payload::Day(Some("2026-08-18".to_owned()))),
        event(EventType::ErrorRecorded, "2026-08-18 09:31:00", "error", failed),
    ];
    assert!(j.append_batch_expected(&mut rows, 0).is_ok());
    let said = || vec![appraisal(), appraisal(), appraisal()];
    let (s, last) = j.rebuild_full(state(), &said()).ok().unwrap();
    assert_eq!((s.event_count, last), (3, 3));
    assert_eq!(s.mode, ServiceMode::Safe);
    assert_eq!(s.current_trade_date, Day::parse("2026-08-18", "%Y-%m-%d"));
    let (s, last) = j.rebuild_through_sequence(state(), &said(), 2).ok().unwrap();
    assert_eq!((s.event_count, last), (2, 2));
    assert!(s.mode != ServiceMode::Safe);
    assert_eq!(j.rebuild_through_sequence(state(), &said(), 9).err(), Some(RebuildError::Short));
    assert_eq!(j.rebuild_through_sequence(state(), &said(), -1).err(), Some(RebuildError::Negative));
    assert_eq!(j.rebuild_full(state(), &vec![appraisal()]).err(), Some(RebuildError::Unappraised));
    let mut last: i64 = 5;
    let mut s = state();
    assert_eq!(s.replay(&mut last, &rows[0], &appraisal()), Err(RebuildError::Gap));
}

fn snapshot_event() -> EventEnvelope {
    let payload = SnapshotPayload {
        config: config(),
        content_sha256: Some(config().content_sha256()),
        names_standard_quantity: true,
        names_hold_open: true,
    };
    event(EventType::ConfigSnapshotted, "2026-08-18 09:30:00", "config", Payload::Snapshot(payload))
}

fn cycle_batch() -> Vec<EventEnvelope> {
    let grid = GridSpec {
        anchor: dec("3.50"),
        ratio: dec("0.02"),
        trade_levels: 1,
        boundary_levels: 2,
        price_scale: 2,
    };
    let levels = grid.levels().ok().unwrap();
    let time = "2026-08-18 09:30:00";
    let mut batch = vec![event(EventType::GridCycleStarted, time, "cycle", Payload::Start(Some("3.50".to_owned())))];
    for i in 0..levels.len() {
        let key = format!("arm-{i}");
        batch.push(event(EventType::GridLevelArmed, time, &key, Payload::Level(*levels.value_at(i))));
    }
    batch
}

fn appraisals(n: usize) -> Vec<Appraisal> {
    (0..n).map(|_| appraisal()).collect()
}

#[test]
fn ledgers_take_only_what_follows() {
    let mut w = LedgerWriter::new(Journal::new(), state(), 0);
    assert_eq!(w.append(started("start"), &appraisal()), Ok(AppendOutcome::Appended(1)));
    assert_eq!(w.append(started("start"), &appraisal()), Ok(AppendOutcome::Duplicate));
    assert_eq!((w.last_sequence, w.state.event_count, w.state.duplicate_events), (1, 1, 1));
    let time = "2026-08-18 09:35:00";
    let market = || event(EventType::MarketDataReceived, "2026-08-18 09:35:00", "bar", Payload::Bar(bar("2026-08-18 09:35:00", "3.44")));
    assert_eq!(w.append(market(), &appraisal()), Err(LedgerError::MissingConfig));
    let foreign = event_of("run-2", EventType::RunStarted, time, "x", Payload::Other);
    assert_eq!(w.append(foreign, &appraisal()), Err(LedgerError::ForeignRun));
    let mut other = started("x");
    other.symbol = "600000.SH".to_owned();
    assert_eq!(w.append(other, &appraisal()), Err(LedgerError::ForeignSymbol));
    let upgrade = || event(EventType::PlatformUpgradeAuthorized, "2026-08-18 09:35:00", "up", Payload::Other);
    assert_eq!(w.append(upgrade(), &appraisal()), Err(LedgerError::Boundary));
    assert_eq!(w.append_platform_upgrade(started("x"), &appraisal()), Err(LedgerError::ForeignBoundary));
    let mut old = started("x");
    old.schema_version = 9;
    assert_eq!(w.append(old, &appraisal()), Err(LedgerError::OldLayout));
    assert!(w.append(snapshot_event(), &appraisal()).is_ok());
    assert_eq!(w.state.audited_standard_quantity, 1000);
    let start = || cycle_batch().remove(0);
    assert_eq!(w.append(start(), &appraisal()), Err(LedgerError::NeedsBatch));
    let mut few = cycle_batch();
    few.pop();
    let n: usize = few.len();
    assert_eq!(w.append_batch(&mut few, &appraisals(n)), Err(LedgerError::GridIncomplete));
    assert!(few.iter().all(|e| e.sequence_number == 0));
    assert_eq!(few[0].causation_id, Some(snapshot_event().event_id));
    assert_eq!(few[3].causation_id.as_deref(), Some(few[2].event_id.as_str()));
    let mut mixed = cycle_batch();
    mixed[2].schema_version = 9;
    assert_eq!(w.append_batch(&mut mixed, &appraisals(5)), Err(LedgerError::OldLayout));
    assert!(mixed[1].causation_id.is_some() && mixed[2].causation_id.is_none());
    assert!(mixed[3].causation_id.is_none());
    let mut foreign = cycle_batch();
    foreign[4].symbol = "600000.SH".to_owned();
    assert_eq!(w.append_batch(&mut foreign, &appraisals(5)), Err(LedgerError::ForeignSymbol));
    assert!(foreign[0].causation_id.is_none());
    assert_eq!(w.append_batch(&mut Vec::new(), &Vec::new()), Err(LedgerError::EmptyBatch));
    let before: usize = w.journal.len();
    let mut batch = cycle_batch();
    assert_eq!(w.append_batch(&mut batch, &appraisals(5)), Ok(()));
    assert_eq!(batch.iter().map(|e| e.sequence_number).collect::<Vec<_>>(), [3, 4, 5, 6, 7]);
    assert_eq!(batch[0].causation_id, Some(snapshot_event().event_id));
    assert_eq!(batch[4].causation_id.as_deref(), Some(batch[3].event_id.as_str()));
    assert_eq!(w.journal.len(), before + 5);
    assert_eq!(w.state.levels.len(), 4);
    assert!(w.state.grid_cycle_active);
    assert_eq!(w.state.validate_invariants(), Ok(()));
    assert_eq!(w.append(market(), &appraisal()), Ok(AppendOutcome::Appended(8)));
    assert!(w.state.pending_market_evidence.is_some());
    let stale = event(EventType::MarketDataReceived, "2026-08-18 09:34:00", "old", Payload::Bar(bar("2026-08-18 09:34:00", "3.44")));
    assert_eq!(w.append(stale, &appraisal()), Err(LedgerError::StaleMarket));
    let mut wrong = market();
    wrong.idempotency_key = "next".to_owned();
    wrong.event_id = "next".to_owned();
    wrong.cycle_id = "other".to_owned();
    assert_eq!(w.append(wrong, &appraisal()), Err(LedgerError::ForeignCycle));
    let mut rows: Vec<SnapshotRow> = Vec::new();
    assert_eq!(w.save_snapshot(&mut rows, "{}"), Ok(()));
    let said = appraisals(w.journal.len());
    let (rebuilt, last) = w.journal.rebuild_full(state(), &said).ok().unwrap();
    assert_eq!(last, w.last_sequence);
    assert!(rebuilt.same(&w.state));
}

#[test]
fn refused_events_change_nothing() {
    let mut s = state();
    let mode = event(EventType::ServiceModeChanged, "2026-08-18 09:35:00", "mode", Payload::Mode(None));
    assert_eq!(s.apply_event(&mode, &appraisal()), Err(EventError::Refused));
    assert!(s.same(&state()));
    let mut unknown = started("x");
    unknown.schema_version = 2;
    assert_eq!(s.apply_event(&unknown, &appraisal()), Err(EventError::UnsupportedSchema));
    s.event_count = u64::MAX;
    assert_eq!(s.apply_event(&started("x"), &appraisal()), Err(EventError::CounterOverflow));
    assert!(is_readable(EventType::OrderIntentCreated, 7) && !is_readable(EventType::OrderIntentCreated, 8));
    assert_eq!(EventType::parse("ORDER_FILLED"), Some(EventType::OrderFilled));
    assert_eq!(EventType::OrderFilled.name(), "ORDER_FILLED");
    assert_eq!(EventType::parse("Nothing"), None);
}

#[test]
fn repeats_are_only_counted() {
    let mut w = LedgerWriter::new(Journal::new(), state(), 0);
    assert!(w.append(started("start"), &appraisal()).is_ok());
    let mut mixed = vec![started("start"), started("more")];
    assert_eq!(w.append_batch(&mut mixed, &appraisals(2)), Ok(()));
    assert_eq!((w.last_sequence, w.state.event_count, w.state.duplicate_events), (2, 2, 1));
    let (rebuilt, last) = w.journal.rebuild_full(state(), &appraisals(2)).ok().unwrap();
    assert_eq!(last, 2);
    assert!(rebuilt.same(&w.state));
    let mut apart = state();
    apart.duplicate_events = 9;
    assert_eq!(apart.apply_event(&started("x"), &appraisal()), Ok(()));
    assert_eq!((apart.event_count, apart.duplicate_events), (1, 9));
    assert_eq!(w.state.validate_invariants(), Ok(()));
}

#[test]
fn opening_fills_change_only_the_accounts() {
    let mut s = state();
    s.cash.frozen = dec("5000");
    s.orders.put(
        "opening".to_owned(),
        Order {
            order_id: "opening".to_owned(),
            intent: OrderIntent {
                origin: Some(DeploymentOrigin {
                    deployment_id: "d".to_owned(),
                    source_market_event_id: "m".to_owned(),
                    source_evidence_sha256: "e".to_owned(),
                    policy_version: "v".to_owned(),
                }),
                ..intent(Direction::Buy, 1000)
            },
            status: OrderStatus::Accepted,
            filled_quantity: 0,
            filled_notional: dec("0"),
            commission_charged: dec("0"),
            reserved_cash_remaining: dec("5000"),
            reserved_quantity_remaining: 0,
            cancel_requested_reason: None,
            cancel_requested_at: None,
        },
    );
    let fill = || Fill {
        fill_id: "fill".to_owned(),
        order_id: "opening".to_owned(),
        direction: Direction::Buy,
        price: dec("3.43"),
        quantity: 1000,
        commission: dec("5"),
        tax: dec("0"),
        trade_date: Day::parse("2026-08-18", "%Y-%m-%d").unwrap(),
        target_lot_ids: Vec::new(),
        target_lot_allocations: Vec::new(),
    };
    let filled = |key: &str| {
        let notice = FillNotice { fill: Some(fill()), grid_index: Some(0) };
        event(EventType::OrderFilled, "2026-08-18 09:35:00", key, Payload::Fill(notice))
    };
    let mut said = appraisal();
    said.fill_charges = Some(FillCharges { commission: dec("5"), tax: dec("0") });
    assert_eq!(s.apply_event(&filled("fill"), &said), Err(EventError::Refused));
    assert_eq!(s.event_count, 0);
    said.opening_booking = Some(OpeningBooking {
        cash: CashAccount { available: dec("96565"), frozen: dec("5000"), total_fees: dec("5") },
        position: Position { total: 3000, today_bought: 1000, ..s.position },
        deployed_grid_budget: dec("0"),
        lots: Table::new(),
    });
    assert_eq!(s.apply_event(&filled("fill"), &said), Ok(()));
    assert_eq!((s.event_count, s.position.total), (1, 3000));
    assert_eq!(s.cash.frozen.normalize().text(), "0");
    assert_eq!(s.orders.get(&"opening".to_owned()).unwrap().status, OrderStatus::Filled);
    assert_eq!((s.run_id.as_str(), s.levels.len(), s.grid_rights.len()), ("run", 0, 0));
    assert_eq!(s.apply_event(&filled("again"), &said), Ok(()));
    assert_eq!((s.event_count, s.position.total), (2, 3000));
}

#[test]
fn settings_that_are_off_are_not_digested() {
    let mut c = config();
    c.gate.capital_inventory = Some(CapitalInventorySettings {
        minimum_free_cash: dec("10"),
        target_position: 0,
        deploy_initial_balance: false,
    });
    let text = [
        r#"{"symbol":"002256.SZ","anchor_price":"3.50","grid_ratio":"0.02","trade_levels":1,"#,
        r#""boundary_levels":2,"standard_budget":"0","standard_quantity":1000,"#,
        r#""initial_cash":"100000","initial_position":2000,"initial_sellable":1000,"#,
        r#""max_position":50000,"min_base_position":0,"lot_size":100,"price_scale":2,"#,
        r#""hysteresis_ratio":"0.5","commission_rate":"0.0003","minimum_commission":"5","#,
        r#""sell_tax_rate":"0.0005","slippage_rate":"0.001","gate":{"kind":"always_execute","#,
        r#""probability":"1","alpha":"1","failure_mode":"safe","timeout_ms":100,"#,
        r#""capital_inventory":{"minimum_free_cash":"10","target_position":0}},"#,
        r#""paper":{"reject_probability_bps":0,"partial_fill_bps":0,"latency_ms":0,"seed":7,"#,
        r#""hold_open_probability_bps":0},"ambiguity_policy":"conservative","database":"","#,
        r#""config_version":"v1"}"#,
    ]
    .concat();
    assert_eq!(c.content_sha256(), text_sha256(&text));
    assert_eq!(c.content_sha256().len(), 64);
    c.database = "elsewhere.db".to_owned();
    assert_eq!(c.content_sha256(), text_sha256(&text));
    assert_eq!(c.database, "elsewhere.db");
}

#[test]
fn fills_do_not_beat_the_limit() {
    let mut exact = config();
    exact.slippage_rate = dec("0");
    let fills = plan_fills(&exact, &intent(Direction::Buy, 1000)).unwrap();
    assert_eq!(fills[0].price.normalize().text(), "3.43");
    let mut fine = intent(Direction::Buy, 1000);
    fine.limit_price = dec("3.4300000000000000000000000001");
    assert_eq!(plan_fills(&exact, &fine).unwrap()[0].price.text(), "3.44");
    fine.direction = Direction::Sell;
    assert_eq!(plan_fills(&exact, &fine).unwrap()[0].price.text(), "3.43");
}

fn offer(request: &str, version: i64) -> WebCommandOffer {
    WebCommandOffer {
        run_id: "run".to_owned(),
        request_id: request.to_owned(),
        request_sha256: "r".to_owned(),
        command: "step".to_owned(),
        expected_sequence: 5,
        expected_version: version,
        target_processed_bars: 9,
        require_exact_sequence: true,
        require_inactive: false,
        require_active: false,
        next_active: true,
        interval_ms: 250,
        request_json: "{}".to_owned(),
        config_sha256: "c".to_owned(),
        algorithm_sha256: "a".to_owned(),
    }
}

#[test]
fn commands_take_turns() {
    let mut inbox = WebInbox { commands: Vec::new(), controls: Vec::new() };
    let fault = |r: Result<WebCommandClaim, InboxError>| r.err();
    assert_eq!(fault(inbox.claim_web_command(4, &offer("one", 0), "now")), Some(InboxError::StaleSequence));
    assert_eq!(fault(inbox.claim_web_command(5, &offer("one", 1), "now")), Some(InboxError::StaleVersion));
    let active = WebCommandOffer { require_active: true, ..offer("one", 0) };
    assert_eq!(fault(inbox.claim_web_command(5, &active, "now")), Some(InboxError::PlaybackInactive));
    let large = WebCommandOffer { target_processed_bars: u64::MAX, ..offer("one", 0) };
    assert_eq!(fault(inbox.claim_web_command(5, &large, "now")), Some(InboxError::TargetTooLarge));
    let slow = WebCommandOffer { interval_ms: u64::MAX, ..offer("one", 0) };
    assert_eq!(fault(inbox.claim_web_command(5, &slow, "now")), Some(InboxError::IntervalTooLarge));
    match inbox.claim_web_command(5, &offer("one", 0), "now") {
        Ok(WebCommandClaim::Claimed(receipt)) => {
            assert_eq!(receipt.accepted_version, 1);
            assert_eq!(receipt.plan_sha256, Some("c5e5b523ceb3875804bd5043cb3bf4cb5bb248ad97c3e5a7495ad4fd32bad04b".to_owned()));
        }
        _ => panic!("the command is new"),
    }
    assert!(matches!(inbox.claim_web_command(5, &offer("one", 0), "later"), Ok(WebCommandClaim::Existing(_))));
    let changed = WebCommandOffer { request_sha256: "s".to_owned(), ..offer("one", 0) };
    assert_eq!(fault(inbox.claim_web_command(5, &changed, "now")), Some(InboxError::ContentChanged));
    assert_eq!(fault(inbox.claim_web_command(5, &offer("two", 1), "now")), Some(InboxError::AnotherPending));
    let control = inbox.web_playback_control("run").ok().unwrap();
    assert_eq!((control.command_version, control.active, control.interval_ms), (1, true, 250));
    assert_eq!(inbox.pending_web_command("run").ok().unwrap().unwrap().request_id, "one");
    assert_eq!(inbox.pending_web_commands(10).ok().unwrap().len(), 1);
    assert!(!inbox.completed_playback_generation("run", 1));
    assert_eq!(inbox.complete_web_command("run", "one", "x", "{}").err(), Some(InboxError::NotPending));
    assert_eq!(inbox.complete_web_command("run", "one", "r", "{\"ok\":1}"), Ok("{\"ok\":1}".to_owned()));
    assert_eq!(inbox.complete_web_command("run", "one", "r", "{\"ok\":2}"), Ok("{\"ok\":1}".to_owned()));
    let receipt = inbox.web_command_receipt("run", "one").ok().unwrap().unwrap();
    assert_eq!(receipt.completed_response_json, Some("{\"ok\":1}".to_owned()));
    assert!(inbox.web_command_receipt("run", "two").ok().unwrap().is_none());
    let inactive = WebCommandOffer { require_inactive: true, ..offer("two", 1) };
    assert_eq!(fault(inbox.claim_web_command(5, &inactive, "now")), Some(InboxError::PlaybackActive));
    inbox.deactivate_web_playback_if_version("run", 9);
    assert!(inbox.web_playback_control("run").ok().unwrap().active);
    inbox.deactivate_web_playback_if_version("run", 1);
    assert!(!inbox.web_playback_control("run").ok().unwrap().active);
    let elsewhere = WebCommandOffer { run_id: "run-2".to_owned(), ..offer("one", 0) };
    assert_eq!(fault(inbox.claim_web_command(5, &elsewhere, "now")), Some(InboxError::RequestTaken));
    inbox.commands[0].target_processed_bars = -1;
    assert_eq!(inbox.web_command_receipt("run", "one").err(), Some(InboxError::InvalidTarget));
    inbox.commands[0].response_json = None;
    assert_eq!(inbox.web_command_receipt("run", "one").err(), Some(InboxError::MissingResponse));
    inbox.commands[0].receipt_state = "LOST".to_owned();
    assert_eq!(inbox.web_command_receipt("run", "one").err(), Some(InboxError::InvalidState));
    inbox.controls[0].interval_ms = -1;
    assert_eq!(inbox.web_playback_control("run").err(), Some(InboxError::InvalidInterval));
    inbox.controls[0].command_version = i64::MAX;
    inbox.commands.clear();
    assert_eq!(fault(inbox.claim_web_command(5, &offer("two", i64::MAX), "now")), Some(InboxError::VersionExhausted));
    assert_eq!(
        web_command_plan_sha256("r", "step", 5, 0, 1, 9, ("c", "a")),
        "c5e5b523ceb3875804bd5043cb3bf4cb5bb248ad97c3e5a7495ad4fd32bad04b"
    );
}

#[test]
fn layouts_are_completed() {
    assert_eq!(verify_current_schema(1, CURRENT_SCHEMA_VERSION, CURRENT_SCHEMA_VERSION), Ok(()));
    assert_eq!(verify_current_schema(1, CURRENT_SCHEMA_VERSION, 1), Err(SchemaError::NotCurrent));
    assert_eq!(migrate(CURRENT_SCHEMA_VERSION - 1, (CURRENT_SCHEMA_VERSION - 1) as u64), Ok(vec![CURRENT_SCHEMA_VERSION]));
    assert_eq!(migrate(2, 1), Err(SchemaError::Unsupported));
    let id = "0123456789abcdef0123456789abcdef".to_owned();
    assert_eq!(database_instance_id(&vec![id.dup()]), Ok(id.dup()));
    assert_eq!(database_instance_id(&Vec::new()), Err(SchemaError::Identity));
    assert_eq!(database_instance_id(&vec!["x".to_owned()]), Err(SchemaError::IdentityForm));
    assert_eq!(integrity_check("ok"), Ok(()));
    assert_eq!(integrity_check("row 1 missing"), Err(SchemaError::Damaged));
}

fn intent(direction: Direction, quantity: i64) -> OrderIntent {
    OrderIntent {
        intent_id: "intent-1".to_owned(),
        right_id: "right-1".to_owned(),
        grid_index: -1,
        direction,
        limit_price: dec("3.43"),
        quantity,
        budget: dec("0"),
        target_lot_ids: Vec::new(),
        target_lot_allocations: Vec::new(),
        profit_guard_version: String::new(),
        profit_guard_policy: Some(ProfitGuardPolicy::from(&config())),
        created_at: at("2026-08-18 09:35:00"),
        origin: None,
    }
}

fn paper(change: fn(&mut Config)) -> PaperExecutionGateway {
    let mut c = config();
    change(&mut c);
    PaperExecutionGateway::new(&c, "run", state().snapshot().ok().unwrap(), None, Table::new())
}

fn charges(n: usize) -> PaperAppraisal {
    PaperAppraisal {
        fills: (0..n)
            .map(|_| FillAppraisal {
                charges: Some(FillCharges { commission: dec("5"), tax: dec("0") }),
                allocations: None,
                fee_split: None,
            })
            .collect(),
        profit_guard_version: String::new(),
    }
}

#[test]
fn paper_accounts_outlive_the_broker() {
    let given = || state().snapshot().ok().unwrap();
    let mut had = given();
    had.position.total = 1500;
    let open = |create, stored| {
        PaperExecutionGateway::open(&config(), "run", given(), create, stored, None, Table::new())
    };
    assert_eq!(open(false, None).err(), Some(PaperError::Missing));
    assert_eq!(open(true, None).ok().unwrap().snapshot.position.total, given().position.total);
    assert_eq!(open(true, Some(had)).ok().unwrap().snapshot.position.total, 1500);
}

#[test]
fn paper_orders_fill_as_drawn() {
    assert_eq!(stable_draw_bps(7, "intent-1", "reject"), 6020);
    assert_eq!(stable_id("order", "intent-1", 0), "109c7118-a725-587c-8522-e4e29a44d7b5");
    let fills = plan_fills(&config(), &intent(Direction::Buy, 1500)).unwrap();
    assert_eq!(fills.len(), 1);
    assert_eq!(fills[0].price.text(), "3.44");
    assert_eq!(fills[0].fill_id, "831f8b89-0e89-5bb5-a103-17fc55f4f46f");
    let sold = plan_fills(&config(), &intent(Direction::Sell, 1500)).unwrap();
    assert_eq!(sold[0].price.text(), "3.42");
    let mut parts = config();
    parts.paper.partial_fill_bps = 3407;
    let fills = plan_fills(&parts, &intent(Direction::Buy, 1500)).unwrap();
    assert_eq!((fills[0].quantity, fills[1].quantity), (700, 800));
    assert!(!fills[0].final_fill && fills[1].final_fill);
    let mut held = config();
    held.paper.hold_open_probability_bps = 9906;
    assert!(plan_fills(&held, &intent(Direction::Sell, 1500)).unwrap().is_empty());
}

#[test]
fn paper_orders_are_answered_once() {
    let mut g = paper(|_| {});
    let order = intent(Direction::Buy, 1000);
    let report = g.submit(&order, &charges(1)).ok().unwrap();
    assert!(matches!(&report, ExecutionReport::Accepted { fills, .. } if fills.len() == 1));
    let snapshot = g.account_snapshot();
    assert_eq!(snapshot.cash.available.text(), "96555.00");
    assert_eq!((snapshot.position.total, snapshot.position.today_bought), (3000, 1000));
    let again = g.submit(&order, &charges(1)).ok().unwrap();
    assert!(again.same(&report));
    assert_eq!(g.account_snapshot().position.total, 3000);
    assert!(g.cancel(&order, "late", &charges(1)).ok().unwrap().same(&report));
    assert!(g.report_for_intent("intent-1").unwrap().same(&report));
    assert!(g.report_for_intent("intent-2").is_none());
    assert!(g.roll_trading_day(Day::parse("2026-08-19", "%Y-%m-%d").unwrap()).is_ok());
    assert_eq!(g.account_snapshot().position.sellable, 2000);
    let foreign = OrderIntent { profit_guard_policy: None, ..intent(Direction::Buy, 1000) };
    assert_eq!(g.submit(&foreign, &charges(1)).err(), Some(PaperError::Policy));
}

#[test]
fn paper_orders_can_be_refused() {
    let mut rejecting = paper(|c| c.paper.reject_probability_bps = 6021);
    let report = rejecting.submit(&intent(Direction::Buy, 1000), &charges(1)).ok().unwrap();
    assert!(matches!(report, ExecutionReport::Rejected { reason, .. } if reason == "PAPER_CONFIGURED_REJECTION"));
    assert_eq!(rejecting.account_snapshot().position.total, 2000);
    let mut guarded = paper(|_| {});
    let report = guarded.submit(&intent(Direction::Sell, 1000), &charges(1)).ok().unwrap();
    assert!(matches!(report, ExecutionReport::Rejected { reason, .. } if reason == "PAPER_NO_LOSS_GUARD_REJECTED"));
}

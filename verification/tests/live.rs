use gridedge_t::clock::{Day, Moment};
use gridedge_t::decimal::Decimal;
use gridedge_t::live::bars::{
    content_lines, load_unique_bars, load_validated_quotes, process_market_recovery_bar,
    store_bar_if_new, PriceFreshness, QuoteEvidence,
};
use gridedge_t::live::identity::{
    android_identity, macos_identity, platform_is_activated, AndroidDevice, DeploymentDigests,
};
use gridedge_t::live::operate::{
    parse_direction, reached_cancelled, validate_hold, validate_intent_age,
    validate_worker_limits, OperateError,
};
use gridedge_t::live::recovery::{
    after_audit, after_reconciliation, bar_action, judge_message, observation_resumes,
    observation_stops, replay_market_messages, resume_by_completion, silence_requires_recovery,
    BarAction, ResumeStep,
};
use gridedge_t::live::remote::{
    remote_contract_violations, remote_contract_violations_with_mode, remote_terminal,
    remote_terminal_permit_for_modeled, untracked_open_contracts, verify_remote_fill_dominance,
    PermitRefusal, RemoteError, RemoteTerminal,
};
use gridedge_t::live::schedule::{
    is_after_daily_window, is_executable_strategy_bar, is_lunch_settlement_window,
    is_market_session, market_session_key, quote_probe_boundary_delay, quote_symbol,
    validate_limits, LiveError,
};
use gridedge_t::live::watermark::{
    completion_allows_resume, completion_requires_recovery, market_bar_is_current,
    market_session_boundary_allows_resume, market_timestamp_not_future,
    market_watermark_is_current, market_watermarks_are_contiguous,
    preferred_market_liveness_watermark, reviewed_completion_liveness_watermark,
    source_observation_allows_resume, source_observation_requires_recovery,
    source_observation_timeout_requires_recovery,
};
use gridedge_t::live::worker::{next_action, MessageStage, RecoveryReason, WorkerAction};
use gridedge_t::model::ledger::ServiceMode;
use gridedge_t::model::market::{Direction, MarketBar};
use gridedge_t::model::remote::{
    MarketReceipt, ModeledFill, RemoteFill, RemoteFilledEvidence, SimulationOrderRecord,
    SourceCompletion, SourceObservation, StagedCancelState, StagedIntent, StagedIntentState,
    StagedTerminalResolution,
};
use gridedge_t::table::Table;

fn dec(text: &str) -> Decimal {
    Decimal::parse(text).unwrap()
}

fn timestamp(value: &str) -> Moment {
    Moment::parse(value, "%Y-%m-%d %H:%M:%S").unwrap()
}

fn bar_at(at: &str, close: &str) -> MarketBar {
    let close = dec(close);
    MarketBar {
        timestamp: timestamp(at),
        symbol: "002256.SZ".to_owned(),
        open: dec("3.55"),
        high: close.max(dec("3.55")),
        low: close.min(dec("3.55")),
        close,
        volume: 0,
        amount: None,
    }
}

fn bar(close: &str) -> MarketBar {
    bar_at("2026-08-18 09:35:00", close)
}

fn remote_order(contract_id: &str, remark: &str, cancelled_quantity: i64) -> SimulationOrderRecord {
    SimulationOrderRecord {
        order_date: "20260818".to_owned(),
        order_time: "09:31:00".to_owned(),
        symbol: "002256".to_owned(),
        security_name: "兆新股份".to_owned(),
        direction: Direction::Buy,
        remark: remark.to_owned(),
        quantity: 100,
        cancelled_quantity,
        order_price: dec("3.55"),
        fill_price: None,
        contract_id: contract_id.to_owned(),
        order_attribute: "0".to_owned(),
    }
}

fn filled_order(contract_id: &str, price: &str) -> SimulationOrderRecord {
    SimulationOrderRecord {
        fill_price: Some(price.to_owned()),
        ..remote_order(contract_id, "全部成交", 0)
    }
}

fn intent(id: &str, contract: Option<&str>) -> StagedIntent {
    StagedIntent {
        intent_id: id.to_owned(),
        order_id: format!("order-{id}"),
        symbol: "002256".to_owned(),
        direction: Direction::Buy,
        quantity: 100,
        limit_price: dec("3.550"),
        state: StagedIntentState::Certain,
        cancel_state: StagedCancelState::NotRequested,
        terminal_resolution: StagedTerminalResolution::Unresolved,
        remote_contract_id: contract.map(|c| c.to_owned()),
        has_terminal_evidence: false,
        terminal_evidence: None,
    }
}

fn modeled(entries: &[(&str, Direction, i64, &str)]) -> Table<String, ModeledFill> {
    let mut table = Table::new();
    for (order, direction, quantity, notional) in entries {
        table.put(
            order.to_string(),
            ModeledFill { direction: *direction, quantity: *quantity, notional: dec(notional) },
        );
    }
    table
}

/// Microseconds of a moment at an offset of eight hours.
fn micros(at: &str) -> u64 {
    let m = timestamp(at);
    ((m.day_number() as i64 - 719_163) * 86_400 + m.second() as i64 - 28_800) as u64 * 1_000_000
}

#[test]
fn trading_session_boundaries_exclude_lunch_close_and_weekends() {
    assert!(is_market_session(timestamp("2026-08-18 09:30:00")));
    assert!(is_market_session(timestamp("2026-08-18 11:29:59")));
    assert!(!is_market_session(timestamp("2026-08-18 11:30:00")));
    assert!(!is_market_session(timestamp("2026-08-18 12:59:59")));
    assert!(is_market_session(timestamp("2026-08-18 13:00:00")));
    assert!(!is_market_session(timestamp("2026-08-18 15:00:00")));
    assert!(is_after_daily_window(timestamp("2026-08-18 15:05:00")));
    assert!(!is_market_session(timestamp("2026-08-22 10:00:00")));
}

#[test]
fn append_only_bar_log_rejects_a_changed_completed_bucket() {
    let mut bars: Table<Moment, MarketBar> = Table::new();
    let mut log = Vec::new();
    for original in [bar("3.55"), bar("3.55")] {
        let line = bar("3.55");
        if store_bar_if_new(&mut bars, original).unwrap() {
            log.push(line);
        }
    }
    assert_eq!(log.len(), 1);
    assert_eq!(load_unique_bars(&log, "002256.SZ").unwrap().len(), 1);

    let changed = bar("3.56");
    assert!(store_bar_if_new(&mut bars, changed).is_err());
    assert_eq!(bars.len(), 1);
    assert_eq!(bars.value_at(0).close.text(), "3.55");
}

#[test]
fn unknown_open_contract_blocks_automation_but_cancelled_and_bound_rows_do_not() {
    let open = remote_order("OPEN", "未成交", 0);
    let cancelled = remote_order("CANCELLED", "全部撤单", 100);
    let known = vec!["KNOWN".to_owned()];
    let bound = remote_order("KNOWN", "未成交", 0);

    assert_eq!(
        untracked_open_contracts(&vec![open, cancelled, bound], &known),
        vec!["OPEN".to_owned()]
    );
}

#[test]
fn sessions_have_keys_and_windows() {
    let day = timestamp("2026-08-18 00:00:00").day().number();
    let key = |at: &str| market_session_key(timestamp(at)).map(|(d, n)| (d.number(), n));
    assert_eq!(key("2026-08-18 09:30:00"), Some((day, 0)));
    assert_eq!(key("2026-08-18 14:59:59"), Some((day, 1)));
    assert_eq!(key("2026-08-18 12:00:00"), None);
    assert_eq!(key("2026-08-23 10:00:00"), None);
    assert!(is_lunch_settlement_window(timestamp("2026-08-18 11:25:00")));
    assert!(!is_lunch_settlement_window(timestamp("2026-08-18 13:00:00")));
    assert!(is_executable_strategy_bar(&bar("3.55")));
    assert!(is_executable_strategy_bar(&bar_at("2026-08-18 11:25:00", "3.55")));
    assert!(!is_executable_strategy_bar(&bar_at("2026-08-18 11:25:01", "3.55")));
    assert!(!is_executable_strategy_bar(&bar_at("2026-08-18 15:00:00", "3.55")));
}

#[test]
fn quotes_wait_for_the_end_of_a_bar() {
    let delay = |at: &str, n: u32| quote_probe_boundary_delay(timestamp(at), n);
    assert_eq!(delay("2026-08-18 09:34:45", 5), Ok(Some(15)));
    assert_eq!(delay("2026-08-18 09:34:39", 5), Ok(None));
    assert_eq!(delay("2026-08-18 09:35:00", 5), Ok(None));
    assert_eq!(delay("2026-08-18 12:00:00", 5), Ok(None));
    assert_eq!(delay("2026-08-18 13:04:41", 5), Ok(Some(19)));
    assert_eq!(delay("2026-08-18 13:04:41", 0), Err(LiveError::Interval));
}

#[test]
fn worker_limits_are_checked() {
    assert_eq!(validate_limits(2, 15, 1), Ok(()));
    assert_eq!(validate_limits(30, 300, 600), Ok(()));
    assert_eq!(validate_limits(1, 15, 1), Err(LiveError::PollSeconds));
    assert_eq!(validate_limits(2, 14, 1), Err(LiveError::UnchangedSeconds));
    assert_eq!(validate_limits(2, 15, 601), Err(LiveError::OrderAge));
    assert_eq!(quote_symbol("002256.SZ"), Ok(("002256".to_owned(), "XSHE".to_owned())));
    assert_eq!(quote_symbol("600000.SH"), Ok(("600000".to_owned(), "XSHG".to_owned())));
    assert_eq!(quote_symbol("600000"), Err(LiveError::Symbol));
    assert_eq!(validate_worker_limits(600, 60), Ok(()));
    assert_eq!(validate_worker_limits(0, 60), Err(OperateError::Age));
    assert_eq!(validate_worker_limits(1, 61), Err(OperateError::Pause));
    assert_eq!(validate_intent_age(0), Err(OperateError::Age));
    assert_eq!(validate_intent_age(1), Ok(()));
    assert_eq!(validate_hold(120), Ok(()));
    assert_eq!(validate_hold(121), Err(OperateError::Hold));
    assert_eq!(parse_direction("buy"), Ok(Direction::Buy));
    assert_eq!(parse_direction("sell"), Ok(Direction::Sell));
    assert_eq!(parse_direction("hold"), Err(OperateError::Direction));
}

#[test]
fn watermarks_are_current_up_to_their_limit() {
    let now = timestamp("2026-08-18 10:01:00");
    let covered = Some(micros("2026-08-18 10:00:00"));
    assert_eq!(market_watermark_is_current(covered, now, 60), Ok(true));
    assert_eq!(market_watermark_is_current(covered, now, 59), Ok(false));
    assert_eq!(market_watermark_is_current(covered, now, 61), Ok(true));
    assert_eq!(market_watermark_is_current(None, now, 60), Ok(false));
    assert_eq!(
        market_watermark_is_current(Some(micros("2026-08-18 10:01:01")), now, 60),
        Err(LiveError::Future)
    );
    assert_eq!(market_watermark_is_current(Some(u64::MAX), now, 60), Err(LiveError::Clock));
    assert_eq!(market_timestamp_not_future(micros("2026-08-18 10:01:00"), now), Ok(()));
    assert_eq!(
        market_timestamp_not_future(micros("2026-08-18 10:01:00") + 1, now),
        Err(LiveError::Future)
    );
    assert_eq!(market_timestamp_not_future(u64::MAX, now), Err(LiveError::Clock));
    assert_eq!(market_bar_is_current(timestamp("2026-08-18 10:00:30"), now, 30), Ok(true));
    assert_eq!(
        market_bar_is_current(timestamp("2026-08-18 10:02:00"), now, 30),
        Err(LiveError::Future)
    );
}

#[test]
fn watermarks_follow_without_a_gap() {
    assert_eq!(market_watermarks_are_contiguous(None, 5, 1), Ok(false));
    assert_eq!(market_watermarks_are_contiguous(Some(5), 1_000_005, 1), Ok(true));
    assert_eq!(market_watermarks_are_contiguous(Some(5), 1_000_006, 1), Ok(false));
    assert_eq!(market_watermarks_are_contiguous(Some(5), 4, 1), Err(LiveError::Backwards));
    assert_eq!(market_watermarks_are_contiguous(Some(5), 6, -1), Err(LiveError::Gap));
    assert_eq!(market_watermarks_are_contiguous(Some(5), 6, i64::MAX), Err(LiveError::Gap));
    assert_eq!(preferred_market_liveness_watermark(Some(1), Some(2)), Some(1));
    assert_eq!(preferred_market_liveness_watermark(None, Some(2)), Some(2));
    assert!(market_session_boundary_allows_resume(true, false, false));
    assert!(market_session_boundary_allows_resume(false, true, true));
    assert!(!market_session_boundary_allows_resume(false, true, false));
}

#[test]
fn completions_stop_or_resume_and_never_both() {
    let all = [true, false];
    for live in all {
        for current in all {
            for released in [0, 1, 2] {
                let vouches = live && current && released <= 1;
                let stops = completion_requires_recovery(
                    ServiceMode::Running, live, current, true, true, released, true,
                );
                let resumes = completion_allows_resume(
                    ServiceMode::ReadOnly, live, current, true, true, released, true,
                );
                assert_eq!(stops, !vouches);
                assert_eq!(resumes, vouches);
                assert_eq!(
                    reviewed_completion_liveness_watermark(
                        Some(7), live, current, true, true, released, true, 9,
                    ),
                    Some(if vouches { 9 } else { 7 })
                );
            }
        }
    }
    assert!(!completion_requires_recovery(ServiceMode::ReadOnly, false, true, true, true, 0, true));
    assert!(!completion_allows_resume(ServiceMode::Running, true, true, true, true, 0, true));
    assert!(source_observation_requires_recovery(ServiceMode::Running, true, false, true));
    assert!(!source_observation_requires_recovery(ServiceMode::Running, true, true, true));
    assert!(source_observation_allows_resume(ServiceMode::ReadOnly, true, true, true));
    assert!(!source_observation_allows_resume(ServiceMode::ReadOnly, true, true, false));
    let now = timestamp("2026-08-18 10:01:00");
    assert_eq!(
        source_observation_timeout_requires_recovery(ServiceMode::Running, None, now, 60),
        Ok(true)
    );
    assert_eq!(
        source_observation_timeout_requires_recovery(ServiceMode::ReadOnly, None, now, 60),
        Ok(false)
    );
}

fn receipt(completion: Option<SourceCompletion>, bars: Vec<MarketBar>) -> MarketReceipt {
    MarketReceipt {
        event_timestamp_us: micros("2026-08-18 10:00:00"),
        received_timestamp_us: micros("2026-08-18 10:00:01"),
        completion,
        bars,
    }
}

fn completion(previous: Option<&str>, covered: &str) -> SourceCompletion {
    SourceCompletion {
        live_contiguous: true,
        covered_through_us: micros(covered),
        previous_covered_through_us: previous.map(micros),
        session_date: timestamp(covered).day(),
    }
}

#[test]
fn messages_stop_trading_or_let_it_go_on() {
    let now = timestamp("2026-08-18 10:00:30");
    let good = completion(Some("2026-08-18 09:59:50"), "2026-08-18 10:00:00");
    let message = receipt(Some(good), Vec::new());
    let running = judge_message(ServiceMode::Running, &message, None, None, now, 60).unwrap();
    assert!(!running.enter_recovery);
    assert_eq!(running.reviewed_at_us, Some(micros("2026-08-18 10:00:01")));
    let reading = judge_message(ServiceMode::ReadOnly, &message, None, None, now, 60).unwrap();
    assert_eq!(
        resume_by_completion(ServiceMode::ReadOnly, &reading, None, true, now),
        Ok(Some(micros("2026-08-18 10:00:01")))
    );
    assert_eq!(resume_by_completion(ServiceMode::ReadOnly, &reading, None, false, now), Ok(None));

    let gap = completion(Some("2026-08-18 09:50:00"), "2026-08-18 10:00:00");
    let late = judge_message(
        ServiceMode::Running, &receipt(Some(gap), Vec::new()), None, Some(3), now, 60,
    ).unwrap();
    assert!(late.enter_recovery);
    assert_eq!(late.reviewed_at_us, Some(3));
    assert_eq!(resume_by_completion(ServiceMode::ReadOnly, &late, None, true, now), Ok(None));

    let early = timestamp("2026-08-18 09:59:59");
    assert_eq!(
        judge_message(ServiceMode::Running, &message, None, None, early, 60).err(),
        Some(LiveError::Future)
    );
    let stale_bar = receipt(Some(good), vec![bar("3.55")]);
    assert!(judge_message(ServiceMode::Running, &stale_bar, None, None, now, 60).unwrap().enter_recovery);
}

#[test]
fn observations_stop_trading_only_where_the_message_made_them() {
    let now = timestamp("2026-08-18 10:00:30");
    let observed = SourceObservation {
        observed_at_us: micros("2026-08-18 10:00:20"),
        previous_observed_at_us: None,
        session_date: now.day(),
    };
    let v = judge_message(
        ServiceMode::Running, &receipt(None, Vec::new()), Some(observed), None, now, 60,
    ).unwrap();
    assert!(observation_stops(ServiceMode::Running, &v, true));
    assert!(!observation_stops(ServiceMode::Running, &v, false));
    assert!(!observation_resumes(ServiceMode::ReadOnly, &v, true, true, now));
    let followed = SourceObservation {
        previous_observed_at_us: Some(micros("2026-08-18 10:00:00")),
        ..observed
    };
    let v = judge_message(
        ServiceMode::ReadOnly, &receipt(None, Vec::new()), Some(followed), None, now, 60,
    ).unwrap();
    assert!(observation_resumes(ServiceMode::ReadOnly, &v, true, true, now));
    assert!(!observation_resumes(ServiceMode::ReadOnly, &v, true, true, timestamp("2026-08-18 12:00:00")));
    assert_eq!(silence_requires_recovery(ServiceMode::Running, Some(followed), None, now, 60), Ok(false));
    assert_eq!(silence_requires_recovery(ServiceMode::Running, Some(followed), None, now, 9), Ok(true));
    assert_eq!(
        silence_requires_recovery(ServiceMode::Running, None, None, timestamp("2026-08-18 12:00:00"), 60),
        Ok(false)
    );
}

#[test]
fn messages_are_worked_off_in_order() {
    let now = timestamp("2026-08-18 10:00:30");
    let good = completion(Some("2026-08-18 09:59:50"), "2026-08-18 10:00:00");
    let gap = completion(Some("2026-08-18 09:50:00"), "2026-08-18 10:00:00");
    let fresh = || vec![bar_at("2026-08-18 10:00:00", "3.55")];
    let step = |stage, mode, message: &MarketReceipt, observed| {
        let v = judge_message(ServiceMode::Running, message, observed, None, now, 60).unwrap();
        next_action(stage, mode, &v, message, observed.is_some(), observed, true, now).unwrap()
    };
    let stopping = receipt(Some(gap), fresh());
    let (stop, stage) = step(MessageStage::Judged, ServiceMode::Running, &stopping, None);
    assert_eq!(stop, WorkerAction::EnterRecovery(RecoveryReason::WatermarkCatchup));
    assert_eq!(RecoveryReason::WatermarkCatchup.name(), "EASTMONEY_LIVE_WATERMARK_CATCHUP");
    let (first, stage) = step(stage, ServiceMode::ReadOnly, &stopping, None);
    assert_eq!(first, WorkerAction::Bar(0, BarAction::Recover));
    assert_eq!(
        step(stage, ServiceMode::ReadOnly, &stopping, None),
        (WorkerAction::Finish, MessageStage::Done)
    );

    let vouching = receipt(Some(good), fresh());
    let (first, stage) = step(MessageStage::Judged, ServiceMode::Running, &vouching, None);
    assert_eq!(first, WorkerAction::Bar(0, BarAction::Trade));
    assert_eq!(
        step(stage, ServiceMode::ReadOnly, &vouching, None),
        (WorkerAction::Resume(micros("2026-08-18 10:00:01")), MessageStage::Observation)
    );

    let alone = SourceObservation {
        observed_at_us: micros("2026-08-18 10:00:20"),
        previous_observed_at_us: None,
        session_date: now.day(),
    };
    let silent = receipt(None, Vec::new());
    assert_eq!(
        step(MessageStage::Judged, ServiceMode::Running, &silent, Some(alone)),
        (
            WorkerAction::EnterRecovery(RecoveryReason::ObservationCatchup),
            MessageStage::Resumption
        )
    );
    let followed = SourceObservation {
        previous_observed_at_us: Some(micros("2026-08-18 10:00:00")),
        ..alone
    };
    assert_eq!(
        step(MessageStage::Judged, ServiceMode::ReadOnly, &silent, Some(followed)),
        (WorkerAction::Resume(micros("2026-08-18 10:00:20")), MessageStage::Done)
    );
    assert_eq!(
        step(MessageStage::Done, ServiceMode::Running, &silent, None),
        (WorkerAction::Finish, MessageStage::Done)
    );
}

#[test]
fn recoveries_end_step_by_step() {
    let mark = micros("2026-08-18 10:00:00");
    let soon = timestamp("2026-08-18 10:00:30");
    let late = timestamp("2026-08-18 10:05:00");
    assert_eq!(after_audit(mark, soon, 60), Ok(ResumeStep::Reconcile));
    assert_eq!(after_audit(mark, late, 60), Ok(ResumeStep::Wait));
    assert_eq!(after_audit(mark, timestamp("2026-08-18 12:00:00"), 60), Ok(ResumeStep::Wait));
    assert_eq!(after_reconciliation(true, mark, soon, 60), Ok(ResumeStep::Resume));
    assert_eq!(after_reconciliation(true, mark, late, 60), Ok(ResumeStep::Wait));
    assert_eq!(after_reconciliation(false, mark, soon, 60), Err(LiveError::Unreconciled));
    assert_eq!(bar_action(ServiceMode::Running, &bar("3.55")), BarAction::Trade);
    assert_eq!(bar_action(ServiceMode::Running, &bar_at("2026-08-18 15:00:00", "3.55")), BarAction::Store);
    assert_eq!(bar_action(ServiceMode::ReadOnly, &bar("3.55")), BarAction::Recover);
}

#[test]
fn replayed_messages_give_their_bars_in_order() {
    let started = timestamp("2026-08-18 10:30:00");
    let messages = vec![
        receipt(None, vec![bar("3.55")]),
        receipt(None, vec![bar_at("2026-08-18 09:40:00", "3.56"), bar_at("2026-08-18 09:45:00", "3.57")]),
    ];
    let bars = replay_market_messages(&messages, started).unwrap();
    assert_eq!(bars.iter().map(|b| b.close.text()).collect::<Vec<_>>(), ["3.55", "3.56", "3.57"]);
    let ahead = vec![receipt(None, vec![bar_at("2026-08-18 10:35:00", "3.56")])];
    assert_eq!(replay_market_messages(&ahead, started).err(), Some(LiveError::Future));
}

#[test]
fn recovered_bars_are_acted_on_once() {
    let mut bars: Table<Moment, MarketBar> = Table::new();
    assert_eq!(process_market_recovery_bar(ServiceMode::ReadOnly, &mut bars, bar("3.55")), Ok((true, true)));
    assert_eq!(process_market_recovery_bar(ServiceMode::ReadOnly, &mut bars, bar("3.55")), Ok((false, false)));
    assert_eq!(
        process_market_recovery_bar(ServiceMode::ReadOnly, &mut bars, bar_at("2026-08-18 15:00:00", "3.55")),
        Ok((true, false))
    );
    assert_eq!(
        process_market_recovery_bar(ServiceMode::Running, &mut bars, bar("3.55")),
        Err(LiveError::RecoveryWhileRunning)
    );
    assert_eq!(
        process_market_recovery_bar(ServiceMode::ReadOnly, &mut bars, bar("3.550")),
        Err(LiveError::BarChanged)
    );
}

#[test]
fn bar_logs_hold_valid_bars_in_the_order_of_time() {
    let second = || bar_at("2026-08-18 09:40:00", "3.56");
    assert_eq!(load_unique_bars(&vec![bar("3.55"), second()], "002256.SZ").unwrap().len(), 2);
    assert_eq!(load_unique_bars(&vec![second(), bar("3.55")], "002256.SZ").err(), Some(LiveError::BarOrder));
    assert_eq!(load_unique_bars(&vec![bar("3.55"), bar("3.55")], "002256.SZ").err(), Some(LiveError::BarOrder));
    assert_eq!(load_unique_bars(&vec![bar("3.55")], "600000.SH").err(), Some(LiveError::Bar));
    let lines = vec!["a".to_owned(), " ".to_owned(), "b".to_owned()];
    assert_eq!(content_lines(&lines), vec![(1, "a".to_owned()), (3, "b".to_owned())]);
}

fn quote(from: &str, at: &str) -> QuoteEvidence {
    QuoteEvidence { observed_from: timestamp(from), observed_at: timestamp(at), reviewed: true }
}

#[test]
fn quotes_have_to_be_fresh() {
    let mut freshness = PriceFreshness::new();
    let first = quote("2026-08-18 10:00:00", "2026-08-18 10:00:10");
    assert_eq!(freshness.observe(&first, 60), Ok(()));
    assert_eq!(freshness.observe(&first, 60), Err(LiveError::Stale));
    assert_eq!(freshness.observe(&quote("2026-08-18 10:00:00", "2026-08-18 10:02:00"), 60), Err(LiveError::TooLong));
    assert_eq!(freshness.observe(&quote("2026-08-18 11:29:59", "2026-08-18 13:00:00"), 9000), Err(LiveError::CrossesSession));
    assert_eq!(freshness.observe(&quote("2026-08-18 12:00:00", "2026-08-18 12:00:00"), 60), Err(LiveError::OutsideSession));
    assert_eq!(freshness.observe(&quote("2026-08-18 13:00:00", "2026-08-18 13:00:05"), 60), Ok(()));
    let torn = &mut PriceFreshness { last_observed_at: None, ..freshness };
    assert_eq!(torn.observe(&quote("2026-08-18 13:00:00", "2026-08-18 13:00:06"), 60), Err(LiveError::NoLiveness));
    let later = quote("2026-08-18 10:00:20", "2026-08-18 10:00:30");
    assert_eq!(load_validated_quotes(&vec![first, later]), Ok(()));
    assert_eq!(load_validated_quotes(&vec![later, first]), Err(LiveError::Stale));
    assert_eq!(
        load_validated_quotes(&vec![QuoteEvidence { reviewed: false, ..first }]),
        Err(LiveError::Quote)
    );
}

#[test]
fn remote_orders_end_filled_or_cancelled() {
    assert_eq!(remote_terminal(&filled_order("A", "3.54")), Ok(Some(RemoteTerminal::Filled)));
    assert_eq!(remote_terminal(&remote_order("A", "全部撤单", 100)), Ok(Some(RemoteTerminal::Cancelled)));
    assert_eq!(remote_terminal(&remote_order("A", "全部撤单", 50)), Ok(None));
    assert_eq!(remote_terminal(&remote_order("A", "未成交", 101)), Err(RemoteError::Partition));
    assert_eq!(remote_terminal(&remote_order("A", "全部成交", 0)), Err(RemoteError::NoPrice));
    assert_eq!(remote_terminal(&filled_order("A", "x")), Err(RemoteError::BadPrice));
    assert_eq!(remote_terminal(&filled_order("A", "0.00")), Err(RemoteError::NonPositivePrice));
    assert!(reached_cancelled(&vec![remote_order("A", "部分撤单", 1)], "A"));
    assert!(!reached_cancelled(&vec![remote_order("A", "部分撤单", 0)], "A"));
    assert!(!reached_cancelled(&vec![remote_order("A", "部分成交", 1)], "A"));
}

#[test]
fn contract_audits_name_every_violation() {
    let check = |records: Vec<SimulationOrderRecord>, intents: Vec<StagedIntent>| {
        remote_contract_violations(&records, &intents).unwrap()
    };
    assert_eq!(
        check(vec![remote_order("X", "未成交", 0)], Vec::new()),
        ["X is untracked and non-terminal (未成交)"]
    );
    assert_eq!(
        check(vec![filled_order("X", "3"), filled_order("X", "3")], Vec::new()),
        ["X appears more than once in the reviewed order table"]
    );
    let odd = StagedIntent { quantity: 200, ..intent("i", Some("X")) };
    assert_eq!(check(vec![filled_order("X", "3")], vec![odd]), ["X no longer matches its durable order intent"]);
    assert_eq!(
        check(vec![remote_order("X", "未成交", 0)], vec![intent("i", Some("X"))]),
        ["X remains non-terminal after durable outbox reconciliation"]
    );
    assert!(remote_contract_violations_with_mode(
        &vec![remote_order("X", "未成交", 0)], &vec![intent("i", Some("X"))], false,
    ).unwrap().is_empty());
    assert_eq!(
        check(vec![remote_order("X", "全部撤单", 100)], vec![intent("i", Some("X"))]),
        ["X was cancelled without a durable cancel request"]
    );
    let pending = StagedIntent { cancel_state: StagedCancelState::Cancelling, ..intent("i", Some("X")) };
    assert_eq!(check(vec![filled_order("X", "3")], vec![pending]), ["X filled while durable cancellation is pending"]);
    let done = StagedIntent { cancel_state: StagedCancelState::Cancelled, ..intent("i", Some("X")) };
    assert_eq!(
        check(vec![filled_order("X", "3")], vec![done]),
        ["X is durably CANCELLED but the UI is not fully cancelled"]
    );
    assert_eq!(
        check(Vec::new(), vec![intent("j", Some("Z")), intent("i", Some("X"))]),
        [
            "X is durably bound but missing from the reviewed order table",
            "Z is durably bound but missing from the reviewed order table"
        ]
    );
    let lost = StagedIntent { state: StagedIntentState::Ambiguous, ..intent("i", Some("X")) };
    assert_eq!(check(Vec::new(), vec![lost]), ["i is AMBIGUOUS"]);
    assert_eq!(
        remote_contract_violations(&Vec::new(), &vec![intent("i", Some("X")), intent("j", Some("X"))]),
        Err(RemoteError::BoundTwice)
    );
}

#[test]
fn permits_need_every_remote_fill_to_be_modeled() {
    let records = || vec![filled_order("X", "3.54")];
    let intents = || vec![intent("i", Some("X"))];
    let good = modeled(&[("order-i", Direction::Buy, 100, "355")]);
    assert!(remote_terminal_permit_for_modeled(&records(), &intents(), &good).is_ok());
    let fault = |table: &Table<String, ModeledFill>| {
        verify_remote_fill_dominance(&records(), &intents(), table).err()
    };
    assert_eq!(fault(&Table::new()), Some(RemoteError::NotModeled));
    assert_eq!(fault(&modeled(&[("order-i", Direction::Buy, 50, "177")])), Some(RemoteError::PartlyModeled));
    assert_eq!(fault(&modeled(&[("order-i", Direction::Buy, 100, "353")])), Some(RemoteError::Worse));
    let cancelled = vec![remote_order("X", "全部撤单", 100)];
    assert_eq!(
        verify_remote_fill_dominance(&cancelled, &intents(), &good).err(),
        Some(RemoteError::CancelledAfterFill)
    );
    match remote_terminal_permit_for_modeled(&vec![remote_order("X", "未成交", 0)], &Vec::new(), &good) {
        Err(PermitRefusal::Violations(list)) => assert_eq!(list.len(), 1),
        _ => panic!("an open order was let through"),
    }
    match remote_terminal_permit_for_modeled(&records(), &intents(), &Table::new()) {
        Err(PermitRefusal::Fault(e)) => assert_eq!(e, RemoteError::NotModeled),
        _ => panic!("a fill that is not modeled was let through"),
    }
}

fn evidence_fill(id: &str, quantity: i64, amount: &str) -> RemoteFill {
    RemoteFill {
        contract_id: "X".to_owned(),
        fill_id: id.to_owned(),
        symbol: "002256".to_owned(),
        direction: Direction::Buy,
        quantity,
        amount: dec(amount),
    }
}

#[test]
fn stored_fills_are_held_against_the_model() {
    let model = modeled(&[("order-i", Direction::Buy, 100, "355")]);
    let stored = |fills: Vec<RemoteFill>, version: u32, contract: &str| StagedIntent {
        terminal_resolution: StagedTerminalResolution::Filled,
        has_terminal_evidence: true,
        terminal_evidence: Some(RemoteFilledEvidence {
            evidence_contract_version: version,
            contract_id: contract.to_owned(),
            fills,
        }),
        ..intent("i", Some("X"))
    };
    let check = |i: StagedIntent| verify_remote_fill_dominance(&Vec::new(), &vec![i], &model);
    let two = || vec![evidence_fill("a", 40, "142.00"), evidence_fill("b", 60, "212.00")];
    assert_eq!(check(stored(two(), 1, "X")), Ok(()));
    assert_eq!(check(stored(two(), 2, "X")), Err(RemoteError::EvidenceContract));
    assert_eq!(check(stored(two(), 1, "Y")), Err(RemoteError::EvidenceContract));
    assert_eq!(
        check(stored(vec![evidence_fill("a", 40, "142"), evidence_fill("a", 60, "212")], 1, "X")),
        Err(RemoteError::EvidenceFill)
    );
    assert_eq!(check(stored(vec![evidence_fill("a", 40, "142")], 1, "X")), Err(RemoteError::EvidenceTotal));
    assert_eq!(
        check(stored(vec![evidence_fill("a", i64::MAX, "1"), evidence_fill("b", 1, "1")], 1, "X")),
        Err(RemoteError::EvidenceQuantity)
    );
    assert_eq!(check(stored(vec![evidence_fill("a", 100, "356")], 1, "X")), Err(RemoteError::Worse));
    let unread = StagedIntent { terminal_evidence: None, ..stored(two(), 1, "X") };
    assert_eq!(check(unread), Err(RemoteError::BadEvidence));
    let none = StagedIntent { has_terminal_evidence: false, ..stored(two(), 1, "X") };
    assert_eq!(check(none), Err(RemoteError::NoEvidence));
}

#[test]
fn adapters_have_exact_identities() {
    let digests = DeploymentDigests {
        platform_sha256: "p".to_owned(),
        runner_sha256: "r\"".to_owned(),
        launch_plist_sha256: "l".to_owned(),
    };
    assert_eq!(
        macos_identity(&digests),
        "{\"adapter\":\"MACOS\",\"launch_plist_sha256\":\"l\",\"money_actions_enabled\":true,\"platform_sha256\":\"p\",\"runner_sha256\":\"r\\\"\",\"schema\":\"gridedge.ths-remote-execution-identity.v1\"}"
    );
    let device = AndroidDevice {
        adb_sha256: "a".to_owned(),
        serial: "emulator-5554".to_owned(),
        avd_name_marker: "THS".to_owned(),
        package: "pkg".to_owned(),
        tested_version: "1".to_owned(),
        masked_account: "abc".to_owned(),
        confirmation_account_sha256: "c".to_owned(),
        expected_symbol: "002256".to_owned(),
        expected_security_name: "兆新股份".to_owned(),
        money_actions_enabled: false,
    };
    assert_eq!(
        android_identity(&digests, &device),
        "{\"adapter\":\"ANDROID\",\"adb_sha256\":\"a\",\"avd_name_marker\":\"THS\",\"confirmation_account_sha256\":\"c\",\"expected_security_name\":\"兆新股份\",\"expected_symbol\":\"002256\",\"launch_plist_sha256\":\"l\",\"masked_account_sha256\":\"ba7816bf8f01cfea414140de5dae2223b00361a396177a9cb410ff61f20015ad\",\"money_actions_enabled\":false,\"package\":\"pkg\",\"platform_sha256\":\"p\",\"runner_sha256\":\"r\\\"\",\"schema\":\"gridedge.ths-remote-execution-identity.v1\",\"serial\":\"emulator-5554\",\"tested_version\":\"1\"}"
    );
    assert!(platform_is_activated(false, Some("p"), "p"));
    assert!(!platform_is_activated(true, Some("p"), "p"));
    assert!(!platform_is_activated(false, Some("q"), "p"));
    assert!(!platform_is_activated(false, None, "p"));
}

#[test]
fn a_day_has_one_number() {
    assert_eq!(Day::from_number(739846).unwrap().text(), "2026-08-18");
}

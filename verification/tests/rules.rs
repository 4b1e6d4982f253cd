use gridedge_t::arith::{is_whole, magnitude_of, max_i64, min_i64, quotient, remainder, total_of};
use gridedge_t::audit::InvariantViolation;
use gridedge_t::clock::{Day, Moment};
use gridedge_t::config::{
    default_gate_timeout_ms, is_false, ConfigError, SnapshotPayload,
};
use gridedge_t::data::{validate_bar, BarError, CsvReplayFeed, ReplayClock, MarketDataFeed};
use gridedge_t::data::{market_evidence_sha256, Clock};
use gridedge_t::decimal::Decimal;
use gridedge_t::decision::{
    processor_seconds, register_manifest, supported_contract_versions_are_canonical,
    validate_artifact, validate_process, validate_process_output, whole_unit_partition,
    DecisionError, ProcessError,
};
use gridedge_t::digest::text_sha256;
use gridedge_t::domain::DomainError;
use gridedge_t::grid::{
    available_deferred_budget, board_lot_quantity, crossed_levels, maybe_rearm, mechanical_cap,
    GridEngine, GridError, GridSpec, MechanicalGridEngine, TouchClassification,
};
use gridedge_t::model::gates::AlgorithmManifest;
use gridedge_t::model::ledger::{
    Fill, GridLevelState, GridLevelStatus, LotQuantityAllocation, Order, OrderIntent, OrderStatus,
    StrategyState,
};
use gridedge_t::model::market::{Direction, MarketBar};
use gridedge_t::model::outcome::RightDecision;
use gridedge_t::model::rights::{GridRight, GridRightCapacity, GridRightStatus, RightTranche};
use gridedge_t::model::settings::{CapitalInventorySettings, Config, GateSettings, PaperSettings};
use gridedge_t::reference::reference_manifest;
use gridedge_t::rights::RightError;
use gridedge_t::value::Value;

fn dec(text: &str) -> Decimal {
    Decimal::parse(text).unwrap()
}

fn at(text: &str) -> Moment {
    Moment::parse(text, "%Y-%m-%d %H:%M:%S").unwrap()
}

fn day(text: &str) -> Day {
    Day::parse(text, "%Y-%m-%d").unwrap()
}

fn config() -> Config {
    Config {
        symbol: "002256.SZ".to_owned(),
        anchor_price: dec("3.50"),
        grid_ratio: dec("0.02"),
        trade_levels: 5,
        boundary_levels: 6,
        standard_budget: dec("0"),
        standard_quantity: 1000,
        initial_cash: dec("100000"),
        initial_position: 2000,
        initial_sellable: 1000,
        max_position: 50000,
        min_base_position: 0,
        lot_size: 100,
        price_scale: 2,
        hysteresis_ratio: dec("0.5"),
        commission_rate: dec("0.0003"),
        minimum_commission: dec("5"),
        sell_tax_rate: dec("0.0005"),
        slippage_rate: dec("0.001"),
        gate: GateSettings {
            kind: "always_execute".to_owned(),
            probability: dec("1"),
            alpha: dec("1"),
            failure_mode: "safe".to_owned(),
            timeout_ms: 100,
            capital_inventory: None,
        },
        paper: PaperSettings {
            reject_probability_bps: 0,
            partial_fill_bps: 0,
            latency_ms: 0,
            seed: 7,
            hold_open_probability_bps: 0,
        },
        ambiguity_policy: "conservative".to_owned(),
        database: "ledger.sqlite3".to_owned(),
        config_version: "v1".to_owned(),
    }
}

#[test]
fn configurations_are_checked_setting_by_setting() {
    assert_eq!(config().validate(), Ok(()));
    assert!(config().uses_fixed_quantity());
    let fault = |change: fn(&mut Config)| {
        let mut c = config();
        change(&mut c);
        c.validate().err()
    };
    assert_eq!(fault(|c| c.symbol = " ".to_owned()), Some(ConfigError::Symbol));
    assert_eq!(fault(|c| c.anchor_price = dec("0")), Some(ConfigError::AnchorOrCash));
    assert_eq!(fault(|c| c.initial_cash = dec("-1")), Some(ConfigError::AnchorOrCash));
    assert_eq!(fault(|c| c.grid_ratio = dec("1")), Some(ConfigError::GridRatio));
    assert_eq!(fault(|c| c.boundary_levels = 5), Some(ConfigError::GridLevels));
    assert_eq!(fault(|c| c.max_position = 1999), Some(ConfigError::PositionLimits));
    assert_eq!(fault(|c| c.lot_size = 0), Some(ConfigError::PositionLimits));
    assert_eq!(fault(|c| c.max_position = i64::MAX), Some(ConfigError::ShareQuantities));
    assert_eq!(fault(|c| c.standard_budget = dec("1")), Some(ConfigError::MechanicalUnit));
    assert_eq!(fault(|c| c.standard_quantity = 150), Some(ConfigError::MechanicalUnit));
    assert_eq!(fault(|c| c.initial_sellable = 2001), Some(ConfigError::SellableOrBase));
    assert_eq!(fault(|c| c.hysteresis_ratio = dec("1.01")), Some(ConfigError::Hysteresis));
    assert_eq!(fault(|c| c.commission_rate = dec("0.11")), Some(ConfigError::CommissionRate));
    assert_eq!(fault(|c| c.minimum_commission = dec("-1")), Some(ConfigError::MinimumCommission));
    assert_eq!(fault(|c| c.sell_tax_rate = dec("0.11")), Some(ConfigError::SellTax));
    assert_eq!(fault(|c| c.slippage_rate = dec("1")), Some(ConfigError::Slippage));
    assert_eq!(fault(|c| c.price_scale = 9), Some(ConfigError::PriceScale));
    assert_eq!(fault(|c| c.gate.alpha = dec("1.1")), Some(ConfigError::GateShare));
    assert_eq!(fault(|c| c.gate.failure_mode = "retry".to_owned()), Some(ConfigError::FailureMode));
    assert_eq!(fault(|c| c.gate.timeout_ms = 60_001), Some(ConfigError::GateTimeout));
    assert_eq!(fault(|c| c.gate.kind = "resource_aware".to_owned()), Some(ConfigError::MissingInventory));
    assert_eq!(fault(|c| c.paper.partial_fill_bps = 10_001), Some(ConfigError::Probabilities));
    assert_eq!(fault(|c| c.ambiguity_policy = "guess".to_owned()), Some(ConfigError::AmbiguityPolicy));
    assert!(matches!(fault(|c| {
            c.anchor_price = dec("0.01");
            c.grid_ratio = dec("0.9");
        }), Some(ConfigError::Grid(_))));
    assert!(is_false(&false) && !is_false(&true));
    assert_eq!(default_gate_timeout_ms(), 100);
    assert_eq!(Config::decimal("3.50").text(), "3.50");
    assert!(Config::checked_decimal("x").is_none());
}

#[test]
fn reserves_of_a_resource_aware_gate_are_checked() {
    let with = |change: fn(&mut Config, &mut CapitalInventorySettings)| {
        let mut c = config();
        let mut s = CapitalInventorySettings {
            minimum_free_cash: dec("50000"),
            target_position: 10000,
            deploy_initial_balance: false,
        };
        c.gate.kind = "resource_aware".to_owned();
        change(&mut c, &mut s);
        c.gate.capital_inventory = Some(s);
        c.validate().err()
    };
    assert_eq!(with(|_, _| {}), None);
    assert_eq!(with(|_, s| s.minimum_free_cash = dec("100001")), Some(ConfigError::Reserve));
    assert_eq!(with(|_, s| s.target_position = 50001), Some(ConfigError::Reserve));
    assert_eq!(with(|c, _| c.gate.failure_mode = "always_execute".to_owned()), Some(ConfigError::FailureFallback));
    assert_eq!(with(|_, s| s.deploy_initial_balance = true), Some(ConfigError::StartingPosition));
    assert_eq!(
        with(|c, s| {
            c.initial_position = 0;
            c.initial_sellable = 0;
            s.deploy_initial_balance = true;
        }),
        None
    );
    assert_eq!(
        with(|c, s| {
            c.initial_position = 0;
            c.initial_sellable = 0;
            s.deploy_initial_balance = true;
            s.minimum_free_cash = dec("49999.99");
        }),
        Some(ConfigError::RetainedCash)
    );
    assert_eq!(with(|c, _| c.gate.kind = "always_execute".to_owned()), Some(ConfigError::UnexpectedInventory));
}

#[test]
fn snapshots_of_a_configuration_have_its_digest() {
    let current = "8c91f3e8dad7d99b4bcca73a4f83b4b58de85e95f9b08c70c895581528d13a60";
    let older = "fe4264c93a787e720d06b24a250aeeeaa405f009a9222183089bc31300625891";
    let oldest = "59931610a30cd815205aaff0387d5ba8239f6e5e17f1e72f2b8bd8c78ab20626";
    assert_eq!(config().content_sha256(), current);
    assert_eq!(config().legacy_content_sha256_without_standard_quantity(true), older);
    assert_eq!(config().legacy_content_sha256_without_standard_quantity(false), oldest);
    assert_eq!(config().legacy_content_sha256_without_hold_open(), oldest);
    let mut moved = config();
    moved.database = "elsewhere".to_owned();
    assert_eq!(moved.content_sha256(), current);
    let payload = |digest: Option<&str>, quantity: bool, hold_open: bool| SnapshotPayload {
        config: config(),
        content_sha256: digest.map(|d| d.to_owned()),
        names_standard_quantity: quantity,
        names_hold_open: hold_open,
    };
    assert_eq!(payload(None, true, true).check(), Ok(()));
    assert_eq!(payload(Some(current), true, true).check(), Ok(()));
    assert_eq!(payload(Some(older), true, true).check(), Err(ConfigError::ContentHash));
    assert_eq!(payload(Some(older), false, true).check(), Ok(()));
    assert_eq!(payload(Some(oldest), false, false).check(), Ok(()));
    let snapshot = payload(Some(current), true, true);
    assert_eq!(Config::from_snapshot_payload(&snapshot).ok().unwrap().symbol, "002256.SZ");
    assert_eq!(config().canonical().database, "");
}

fn bar(time: &str, low: &str, high: &str) -> MarketBar {
    MarketBar {
        timestamp: at(time),
        symbol: "002256.SZ".to_owned(),
        open: dec(low),
        high: dec(high),
        low: dec(low),
        close: dec(high),
        volume: 100,
        amount: None,
    }
}

#[test]
fn bars_are_checked() {
    let good = || bar("2026-08-18 09:35:00", "3.40", "3.50");
    assert_eq!(validate_bar(&good(), "002256.SZ"), Ok(()));
    let fault = |b: MarketBar| validate_bar(&b, "002256.SZ").err();
    assert_eq!(validate_bar(&good(), "600000.SH"), Err(BarError::Symbol));
    assert_eq!(fault(MarketBar { open: dec("0"), ..good() }), Some(BarError::Price));
    assert_eq!(fault(MarketBar { open: dec("3.51"), ..good() }), Some(BarError::Range));
    assert_eq!(fault(MarketBar { volume: -1, ..good() }), Some(BarError::NegativeVolume));
    assert_eq!(fault(MarketBar { volume: i64::MAX, ..good() }), Some(BarError::LargeVolume));
    assert_eq!(fault(MarketBar { amount: Some(dec("-1")), ..good() }), Some(BarError::NegativeAmount));
    assert_eq!(fault(bar("2026-08-18 12:00:00", "3.40", "3.50")), Some(BarError::OutsideSession));
    assert_eq!(
        fault(bar("2026-08-18 09:35:00", "70000000000000000000000000000", "70000000000000000000000000000")),
        Some(BarError::NumericRange)
    );
    assert_eq!(
        market_evidence_sha256(&good()),
        text_sha256("{\"timestamp\":\"2026-08-18 09:35:00\",\"symbol\":\"002256.SZ\",\"open\":\"3.40\",\"high\":\"3.50\",\"low\":\"3.40\",\"close\":\"3.50\",\"volume\":100,\"amount\":null}")
    );
}

#[test]
fn feeds_give_their_bars_in_order() {
    let bars = || vec![
        bar("2026-08-18 09:35:00", "3.40", "3.50"),
        bar("2026-08-18 09:40:00", "3.41", "3.50"),
    ];
    let mut feed = CsvReplayFeed::from_bars(bars(), "002256.SZ").ok().unwrap();
    assert_eq!(feed.next_bar().unwrap().low.text(), "3.40");
    feed.pause();
    assert!(feed.next_bar().is_none());
    feed.resume();
    assert_eq!(feed.next_bar().unwrap().low.text(), "3.41");
    assert!(feed.next_bar().is_none());
    let mut stopped = CsvReplayFeed::from_bars(bars(), "002256.SZ").ok().unwrap();
    stopped.stop();
    stopped.resume();
    assert!(stopped.next_bar().is_none());
    let mut back = bars();
    back.reverse();
    assert_eq!(CsvReplayFeed::from_bars(back, "002256.SZ").err(), Some(BarError::TimeOrder));
    let twice = vec![bars().remove(0), bars().remove(0)];
    assert_eq!(CsvReplayFeed::from_bars(twice, "002256.SZ").err(), Some(BarError::DuplicateTime));
    assert_eq!(CsvReplayFeed::from_bars(Vec::new(), "002256.SZ").err(), Some(BarError::Empty));
    let mut clock = ReplayClock::new(at("2026-08-18 09:35:00"));
    clock.advance(at("2026-08-18 09:36:00"));
    assert_eq!(clock.now().text(), "2026-08-18 09:36:00");
}

fn grid() -> GridSpec {
    GridSpec {
        anchor: dec("3.50"),
        ratio: dec("0.02"),
        trade_levels: 2,
        boundary_levels: 3,
        price_scale: 2,
    }
}

#[test]
fn grids_have_a_price_for_every_level() {
    assert_eq!(grid().validate(), Ok(()));
    let price = |i: i32| grid().price(i).map(|p| p.text());
    assert_eq!(price(0), Ok("3.50".to_owned()));
    assert_eq!(price(1), Ok("3.57".to_owned()));
    assert_eq!(price(-1), Ok("3.43".to_owned()));
    assert_eq!(price(2), Ok("3.64".to_owned()));
    assert_eq!(price(4), Err(GridError::OutsideGrid));
    let levels = grid().levels().ok().unwrap();
    assert_eq!(levels.len(), 6);
    assert_eq!(*levels.key_at(0), -3);
    assert!(!levels.contains(&0));
    assert_eq!(levels.get(&1).unwrap().price.text(), "3.57");
    assert!(grid().is_trade_level(2) && grid().is_trade_level(-2));
    assert!(!grid().is_trade_level(0) && !grid().is_trade_level(3));
    assert_eq!(GridSpec { anchor: dec("0"), ..grid() }.validate(), Err(GridError::Anchor));
    assert_eq!(GridSpec { ratio: dec("1"), ..grid() }.validate(), Err(GridError::Ratio));
    assert_eq!(GridSpec { trade_levels: 3, ..grid() }.validate(), Err(GridError::Levels));
    assert_eq!(GridSpec { price_scale: 9, ..grid() }.validate(), Err(GridError::PriceScale));
    assert_eq!(GridSpec { anchor: dec("0.01"), ratio: dec("0.9"), ..grid() }.validate(), Err(GridError::Price));
}

#[test]
fn bars_touch_levels_outwards() {
    let engine = MechanicalGridEngine { grid: grid() };
    let levels = engine.generate_levels().ok().unwrap();
    let (down, class) = crossed_levels(&levels, dec("3.50"), dec("3.43"), dec("3.51"));
    assert_eq!(down, vec![-1]);
    assert_eq!(class, TouchClassification::Normal);
    let (both, class) = crossed_levels(&levels, dec("3.50"), dec("3.36"), dec("3.57"));
    assert_eq!(both, vec![-2, -1, 1]);
    assert_eq!(class, TouchClassification::Ambiguous);
    let (none, _) = crossed_levels(&levels, dec("3.43"), dec("3.43"), dec("3.44"));
    assert!(none.is_empty());
}

#[test]
fn levels_are_armed_again_once_the_price_is_back() {
    let mut level = GridLevelState {
        index: -1,
        price: dec("3.43"),
        status: GridLevelStatus::Touched,
        touch_count: 1,
    };
    assert_eq!(maybe_rearm(&mut level, dec("3.46"), dec("0.07"), dec("0.5")), Ok(false));
    assert_eq!(level.status, GridLevelStatus::Touched);
    assert_eq!(maybe_rearm(&mut level, dec("3.465"), dec("0.07"), dec("0.5")), Ok(true));
    assert_eq!(level.status, GridLevelStatus::Rearmed);
    assert_eq!(maybe_rearm(&mut level, dec("3.6"), dec("0.07"), dec("0.5")), Ok(false));
    let mut upper = GridLevelState { index: 1, price: dec("3.57"), ..level };
    upper.status = GridLevelStatus::Executed;
    assert_eq!(maybe_rearm(&mut upper, dec("3.535"), dec("-0.07"), dec("0.5")), Ok(true));
    let huge = dec("79228162514264337593543950335");
    upper.status = GridLevelStatus::Skipped;
    assert_eq!(maybe_rearm(&mut upper, dec("3"), huge, dec("2")), Err(GridError::NumericRange));
}

#[test]
fn budgets_grow_with_the_depth() {
    assert_eq!(mechanical_cap(-3, dec("1000")).map(|d| d.text()), Ok("3000".to_owned()));
    assert_eq!(mechanical_cap(i32::MIN, dec("1000")).err(), Some(GridError::NumericRange));
    assert_eq!(available_deferred_budget(2, dec("1000"), dec("500")).map(|d| d.text()), Ok("1500".to_owned()));
    assert!(available_deferred_budget(2, dec("1000"), dec("5000")).ok().unwrap().is_zero());
    assert_eq!(board_lot_quantity(dec("1000"), dec("3.4"), 100), Ok(200));
    assert_eq!(board_lot_quantity(dec("0"), dec("3.4"), 100), Ok(0));
    assert_eq!(board_lot_quantity(dec("79228162514264337593543950335"), dec("0.1"), 100), Err(GridError::NumericRange));
}

#[test]
fn integers_divide_towards_zero() {
    assert_eq!((quotient(-7, 2), remainder(-7, 2)), (-3, -1));
    assert!(is_whole(300, 100) && !is_whole(350, 100));
    assert_eq!(total_of(&vec![1, 2, 3]), Some(6));
    assert_eq!(total_of(&vec![i64::MAX, 1]), None);
    assert_eq!((min_i64(1, 2), max_i64(1, 2)), (1, 2));
    assert_eq!(magnitude_of(-5), Some(5));
    assert_eq!(magnitude_of(i32::MIN), None);
}

fn intent(direction: Direction, quantity: i64) -> OrderIntent {
    OrderIntent {
        intent_id: "intent-1".to_owned(),
        right_id: "right-1".to_owned(),
        grid_index: -1,
        direction,
        limit_price: dec("3.43"),
        quantity,
        budget: dec("0"),
        target_lot_ids: Vec::new(),
        target_lot_allocations: Vec::new(),
        profit_guard_version: String::new(),
        profit_guard_policy: None,
        created_at: at("2026-08-18 09:35:00"),
        origin: None,
    }
}

fn order(status: OrderStatus) -> Order {
    Order {
        order_id: "order-1".to_owned(),
        intent: intent(Direction::Buy, 1000),
        status,
        filled_quantity: 0,
        filled_notional: dec("0"),
        commission_charged: dec("0"),
        reserved_cash_remaining: dec("0"),
        reserved_quantity_remaining: 0,
        cancel_requested_reason: None,
        cancel_requested_at: None,
    }
}

#[test]
fn orders_move_along_their_states() {
    let mut o = order(OrderStatus::Created);
    for next in [OrderStatus::Submitted, OrderStatus::Accepted, OrderStatus::PartiallyFilled, OrderStatus::Filled] {
        assert!(o.transition(next).is_ok());
    }
    assert!(matches!(
        o.transition(OrderStatus::Cancelled),
        Err(DomainError::InvalidOrderTransition(OrderStatus::Filled, OrderStatus::Cancelled))
    ));
    assert!(OrderStatus::Accepted.is_open() && !OrderStatus::Filled.is_open());
    assert!(!OrderStatus::Created.can_transition(OrderStatus::Filled));
    assert!(GridRightStatus::Granted.can_transition(GridRightStatus::Reserved));
    assert!(!GridRightStatus::Exercised.can_transition(GridRightStatus::Granted));
}

fn state() -> StrategyState {
    StrategyState::new(
        "run".to_owned(),
        "cycle".to_owned(),
        "002256.SZ".to_owned(),
        dec("3.50"),
        dec("100000"),
        2000,
        1000,
    )
}

fn fill(id: &str, direction: Direction, price: &str, quantity: i64, date: &str) -> Fill {
    Fill {
        fill_id: id.to_owned(),
        order_id: "order-1".to_owned(),
        direction,
        price: dec(price),
        quantity,
        commission: dec("5"),
        tax: dec("0"),
        trade_date: day(date),
        target_lot_ids: Vec::new(),
        target_lot_allocations: Vec::new(),
    }
}

#[test]
fn buy_fills_open_lots_and_pay_for_them() {
    let mut s = state();
    s.current_trade_date = Some(day("2026-08-18"));
    assert!(matches!(s.apply_fill(&fill("f1", Direction::Buy, "3.40", 1000, "2026-08-18"), -1, &None), Ok(true)));
    assert_eq!(s.cash.available.text(), "96595.00");
    assert_eq!(s.cash.total_fees.text(), "5");
    assert_eq!((s.position.total, s.position.today_bought, s.position.sellable), (3000, 1000, 1000));
    let lot = s.lots.get(&"lot:f1".to_owned()).unwrap();
    assert_eq!(lot.allocated_cost.text(), "3405.00");
    assert_eq!(lot.remaining_quantity, 1000);
    assert!(lot.effective_remaining_cost().equals(&dec("3405")));
    assert!(matches!(s.apply_fill(&fill("f1", Direction::Buy, "3.40", 1000, "2026-08-18"), -1, &None), Ok(false)));
    assert_eq!(s.position.total, 3000);
    assert!(matches!(
        s.apply_fill(&fill("f2", Direction::Buy, "3.40", 100000, "2026-08-18"), -1, &None),
        Err(DomainError::InsufficientCash)
    ));
    assert!(matches!(
        s.apply_fill(&fill("f3", Direction::Buy, "0", 100, "2026-08-18"), -1, &None),
        Err(DomainError::InvalidFill)
    ));
}

#[test]
fn fills_move_the_shares_of_lots() {
    let left = |s: &StrategyState| {
        (0..s.lots.len()).map(|i| s.lots.value_at(i).remaining_quantity).sum::<i64>()
    };
    let mut s = state();
    s.current_trade_date = Some(day("2026-08-18"));
    s.apply_fill(&fill("f1", Direction::Buy, "3.40", 1000, "2026-08-18"), -1, &None).ok().unwrap();
    s.apply_fill(&fill("f2", Direction::Buy, "3.30", 700, "2026-08-18"), -2, &None).ok().unwrap();
    assert_eq!(left(&s), 1700);
    assert!(s.roll_trading_day(day("2026-08-19")).is_ok());
    s.apply_fill(&fill("f3", Direction::Sell, "3.60", 1200, "2026-08-19"), 1, &None).ok().unwrap();
    assert_eq!(left(&s), 500);
    assert_eq!(s.lots.get(&"lot:f1".to_owned()).unwrap().remaining_quantity, 0);
    assert_eq!(s.lots.get(&"lot:f2".to_owned()).unwrap().remaining_quantity, 500);
}

#[test]
fn sell_fills_close_lots_at_a_profit() {
    let mut s = state();
    s.current_trade_date = Some(day("2026-08-18"));
    s.apply_fill(&fill("f1", Direction::Buy, "3.40", 1000, "2026-08-18"), -1, &None).ok().unwrap();
    let loss = fill("f2", Direction::Sell, "3.40", 500, "2026-08-19");
    assert!(matches!(s.apply_fill(&loss, 1, &None), Err(DomainError::LossMakingSell { .. })));
    let early = fill("f3", Direction::Sell, "3.60", 500, "2026-08-18");
    assert!(matches!(s.apply_fill(&early, 1, &None), Err(DomainError::InsufficientLotQuantity)));
    let large = fill("f4", Direction::Sell, "3.60", 1500, "2026-08-19");
    assert!(matches!(s.apply_fill(&large, 1, &None), Err(DomainError::InsufficientSellable)));
    assert!(s.roll_trading_day(day("2026-08-19")).is_ok());
    assert_eq!((s.position.sellable, s.position.today_bought), (2000, 0));
    assert!(s.roll_trading_day(day("2026-08-19")).is_ok());
    assert_eq!(s.position.sellable, 2000);
    let good = fill("f5", Direction::Sell, "3.60", 500, "2026-08-19");
    assert!(matches!(s.apply_fill(&good, 1, &None), Ok(true)));
    assert_eq!(s.position.total, 2500);
    assert!(s.realized_pnl.equals(&dec("92.5")));
    let lot = s.lots.get(&"lot:f1".to_owned()).unwrap();
    assert_eq!(lot.remaining_quantity, 500);
    assert!(lot.realized_pnl.equals(&dec("92.5")));
    let allocated = Fill {
        target_lot_allocations: vec![LotQuantityAllocation {
            lot_id: "lot:f1".to_owned(),
            tranche_id: String::new(),
            quantity: 100,
            cost_basis: dec("0"),
            worst_fill_price: dec("0"),
            maximum_sell_fees: dec("0"),
            worst_case_profit: dec("0"),
        }],
        ..fill("f6", Direction::Sell, "3.60", 200, "2026-08-19")
    };
    assert!(matches!(s.apply_fill(&allocated, 1, &Some(vec![dec("5")])), Err(DomainError::InvalidLotAllocation)));
    assert!(s.apply_legacy_fill(&fill("f7", Direction::Sell, "3.00", 100, "2026-08-19"), 1, &None).is_ok());
}

#[test]
fn accounts_are_summed_up() {
    let mut s = state();
    let snapshot = s.snapshot().ok().unwrap();
    assert_eq!(snapshot.position.total, 2000);
    assert_eq!(snapshot.open_order_ids.len(), 0);
    assert_eq!(snapshot.cumulative_filled_quantity, 0);
    s.orders.put("order-1".to_owned(), order(OrderStatus::Accepted));
    assert_eq!(s.snapshot().ok().unwrap().open_order_ids, vec!["order-1".to_owned()]);
    assert!(s.checked_unrealized_pnl().is_some());
    s.last_price = Some(dec("3.60"));
    s.apply_fill(&fill("f1", Direction::Buy, "3.40", 1000, "2026-08-18"), -1, &None).ok().unwrap();
    assert!(s.unrealized_grid_pnl().equals(&dec("195")));
    assert!(s.checked_normalize());
}

#[test]
fn fresh_runs_are_in_order() {
    assert_eq!(state().validate_invariants(), Ok(()));
    let mut s = state();
    s.cash.available = dec("-1");
    assert_eq!(s.validate_invariants(), Err(InvariantViolation::Account));
    let mut s = state();
    s.realized_pnl = dec("1");
    assert_eq!(s.validate_invariants(), Err(InvariantViolation::RealizedProfit));
    let mut s = state();
    s.audited_standard_quantity = 100;
    assert_eq!(s.validate_invariants(), Err(InvariantViolation::MissingConfig));
    let mut s = state();
    let tranche = RightTranche::minted_buy_quantity("cycle", "epoch", "right-1", -1, 1000);
    s.right_tranches.put(tranche.tranche_id.dup(), tranche);
    assert_eq!(s.validate_invariants(), Err(InvariantViolation::TrancheOwner));
}

#[test]
fn minted_tranches_are_whole() {
    let t = RightTranche::minted_buy_quantity("cycle", "epoch", "right-1", -1, 1000);
    assert_eq!(t.validate(), Ok(()));
    assert_eq!((t.minted_quantity, t.available_quantity), (1000, 1000));
    assert_eq!(t.tranche_id, RightTranche::id_for("cycle", "epoch", Direction::Buy, -1, None));
    let broken = RightTranche { available_quantity: 999, ..t };
    assert_eq!(broken.validate(), Err(RightError::InvalidTranche));
    let b = RightTranche::minted_budget("cycle", "epoch", "right-1", -1, dec("500"));
    assert_eq!(b.validate(), Ok(()));
    assert_eq!(b.available_budget.text(), "500");
    let q = RightTranche::minted_quantity("cycle", "epoch", "right-1", 1, "lot", 300);
    assert_eq!(q.validate(), Ok(()));
    assert_eq!(q.lot_id, Some("lot".to_owned()));
    assert!(q.tranche_id != RightTranche::id_for("cycle", "epoch", Direction::Sell, 1, Some("other")));
}

fn capacity() -> GridRightCapacity {
    GridRightCapacity {
        mechanical_budget_cap: dec("0"),
        deployed_budget: dec("0"),
        available_budget: dec("0"),
        mechanical_quantity_cap: 1000,
        deployed_quantity: 0,
        available_quantity: 1000,
        eligible_quantity: 0,
        eligible_lot_ids: Vec::new(),
        accumulated_grid_indices: vec![-1],
        t_plus_one_blocked_quantity: 0,
        t_plus_one_blocked_lot_ids: Vec::new(),
        risk_blocked_quantity: 0,
        risk_blocked_lot_ids: Vec::new(),
        no_profit_blocked_quantity: 0,
        no_profit_blocked_lot_ids: Vec::new(),
        source_right_ids: Vec::new(),
        carried_in_budget: dec("0"),
        carried_in_quantity: 0,
        tranche_ids: Vec::new(),
    }
}

#[test]
fn granted_rights_are_unused() {
    let when = at("2026-08-18 09:35:00");
    let r = GridRight::granted("run", "cycle", "002256.SZ", Direction::Buy, -1, dec("3.43"), when, capacity());
    assert_eq!(r.right_id, GridRight::id_for("run", "cycle", -1, when));
    assert_eq!(r.status, GridRightStatus::Granted);
    assert_eq!(r.remaining_quantity(), 1000);
    assert_eq!(r.checked_remaining_budget().map(|d| d.is_zero()), Some(true));
    let used = GridRight { exercised_quantity: 400, reserved_quantity: 100, ..r };
    assert_eq!(used.checked_remaining_quantity(), Some(600));
}

#[test]
fn quantities_split_into_whole_units() {
    assert_eq!(whole_unit_partition(2500, 1000), Ok((2000, 500)));
    assert_eq!(whole_unit_partition(0, 1000), Ok((0, 0)));
    assert_eq!(whole_unit_partition(-1, 1000), Err(DecisionError::Partition));
    assert_eq!(whole_unit_partition(1, 0), Err(DecisionError::Partition));
    let part = RightDecision::Exercise { exercise_quantity: 3, defer_quantity: 4 };
    assert_eq!(part.quantities(), (3, 4));
    assert_eq!(RightDecision::Defer { defer_quantity: 4 }.quantities(), (0, 4));
    assert!(supported_contract_versions_are_canonical(&[3, 4]));
    assert!(!supported_contract_versions_are_canonical(&[]));
    assert!(!supported_contract_versions_are_canonical(&[4, 3]));
}

#[test]
fn processes_are_registered_with_what_the_platform_measures() {
    let manifest = |m: AlgorithmManifest| {
        register_manifest(m, "artifact".to_owned(), vec!["--x".to_owned()], "platform".to_owned())
    };
    let registered = manifest(reference_manifest(false)).ok().unwrap();
    assert_eq!(registered.artifact_sha256, "artifact");
    assert_eq!(registered.canonical_arguments, vec!["--x".to_owned()]);
    assert_eq!(registered.platform_sha256, "platform");
    assert_eq!(registered.environment_sha256, text_sha256("env-clear:GRIDEDGE_PROTOCOL_VERSION=1"));
    assert!(manifest(reference_manifest(true)).is_err());
    assert_eq!(validate_artifact(&registered, "artifact"), Ok(()));
    assert_eq!(validate_artifact(&registered, "other"), Err(ProcessError::Changed));
    assert_eq!(validate_process(1, false), Ok(()));
    assert_eq!(validate_process(0, false), Err(ProcessError::NoTime));
    assert_eq!(validate_process(1, true), Err(ProcessError::Privileged));
    assert_eq!(processor_seconds(0), 1);
    assert_eq!(processor_seconds(u64::MAX), u64::MAX);
    assert_eq!(validate_process_output(1_048_576, true), Ok(()));
    assert_eq!(validate_process_output(1_048_577, true), Err(ProcessError::TooLong));
    assert_eq!(validate_process_output(5, false), Err(ProcessError::Failed));
}

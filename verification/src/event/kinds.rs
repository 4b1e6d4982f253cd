//! The kinds of events: their names and the layouts of their payloads.
use crate::text::text_eq;
use vstd::prelude::*;

verus! {

/// The layout of payloads that have had one.
pub const EVENT_SCHEMA_VERSION: i32 = 1;

/// What an event says.
#[derive(Clone, Copy, Debug, PartialEq, Eq, Structural)]
pub enum EventType {
    RunStarted,
    ConfigSnapshotted,
    AlgorithmRegistered,
    PlatformUpgradeAuthorized,
    PlatformUpgradeActivated,
    OngoingResourcePolicyActivated,
    GridCycleStarted,
    GridLevelArmed,
    GridLevelTouched,
    GridLevelSkipped,
    GridLevelRearmed,
    GridRightGranted,
    GridRightDeferred,
    GridRightResidualHeld,
    GridRightBlocked,
    GridRightReserved,
    GridRightPartiallyExercised,
    GridRightExercised,
    GridRightReleased,
    GridRightTransferred,
    GridRightExpired,
    GridRightRevoked,
    RightTrancheMinted,
    RightBalanceTransferred,
    RightBalanceReserved,
    RightBalanceReleased,
    RightBalanceConsumed,
    RightBalanceRevoked,
    RightBalanceExpired,
    DeferredBudgetAccrued,
    DeferredQuantityAccrued,
    GateDecisionMade,
    InitialDeploymentEvaluated,
    OrderIntentCreated,
    OrderSubmitted,
    OrderAccepted,
    OrderCancelRequested,
    OrderPartiallyFilled,
    OrderFilled,
    OrderRejected,
    OrderCancelled,
    LotOpened,
    LotPartiallyClosed,
    LotClosed,
    CashChanged,
    PositionChanged,
    GridCycleReset,
    ReconciliationCompleted,
    ServiceStopped,
    ServiceModeChanged,
    RecoveryCompleted,
    AmbiguousBarDetected,
    TradingDayRolled,
    ErrorRecorded,
    MarketDataReceived,
    MarketBarDecisionsCommitted,
    MarketBarProcessed,
    ReplayInitialized,
}

/// The name of a kind.
pub open spec fn event_name(t: EventType) -> Seq<char> {
    match t {
        EventType::RunStarted => "RUN_STARTED"@,
        EventType::ConfigSnapshotted => "CONFIG_SNAPSHOTTED"@,
        EventType::AlgorithmRegistered => "ALGORITHM_REGISTERED"@,
        EventType::PlatformUpgradeAuthorized => "PLATFORM_UPGRADE_AUTHORIZED"@,
        EventType::PlatformUpgradeActivated => "PLATFORM_UPGRADE_ACTIVATED"@,
        EventType::OngoingResourcePolicyActivated => "ONGOING_RESOURCE_POLICY_ACTIVATED"@,
        EventType::GridCycleStarted => "GRID_CYCLE_STARTED"@,
        EventType::GridLevelArmed => "GRID_LEVEL_ARMED"@,
        EventType::GridLevelTouched => "GRID_LEVEL_TOUCHED"@,
        EventType::GridLevelSkipped => "GRID_LEVEL_SKIPPED"@,
        EventType::GridLevelRearmed => "GRID_LEVEL_REARMED"@,
        EventType::GridRightGranted => "GRID_RIGHT_GRANTED"@,
        EventType::GridRightDeferred => "GRID_RIGHT_DEFERRED"@,
        EventType::GridRightResidualHeld => "GRID_RIGHT_RESIDUAL_HELD"@,
        EventType::GridRightBlocked => "GRID_RIGHT_BLOCKED"@,
        EventType::GridRightReserved => "GRID_RIGHT_RESERVED"@,
        EventType::GridRightPartiallyExercised => "GRID_RIGHT_PARTIALLY_EXERCISED"@,
        EventType::GridRightExercised => "GRID_RIGHT_EXERCISED"@,
        EventType::GridRightReleased => "GRID_RIGHT_RELEASED"@,
        EventType::GridRightTransferred => "GRID_RIGHT_TRANSFERRED"@,
        EventType::GridRightExpired => "GRID_RIGHT_EXPIRED"@,
        EventType::GridRightRevoked => "GRID_RIGHT_REVOKED"@,
        EventType::RightTrancheMinted => "RIGHT_TRANCHE_MINTED"@,
        EventType::RightBalanceTransferred => "RIGHT_BALANCE_TRANSFERRED"@,
        EventType::RightBalanceReserved => "RIGHT_BALANCE_RESERVED"@,
        EventType::RightBalanceReleased => "RIGHT_BALANCE_RELEASED"@,
        EventType::RightBalanceConsumed => "RIGHT_BALANCE_CONSUMED"@,
        EventType::RightBalanceRevoked => "RIGHT_BALANCE_REVOKED"@,
        EventType::RightBalanceExpired => "RIGHT_BALANCE_EXPIRED"@,
        EventType::DeferredBudgetAccrued => "DEFERRED_BUDGET_ACCRUED"@,
        EventType::DeferredQuantityAccrued => "DEFERRED_QUANTITY_ACCRUED"@,
        EventType::GateDecisionMade => "GATE_DECISION_MADE"@,
        EventType::InitialDeploymentEvaluated => "INITIAL_DEPLOYMENT_EVALUATED"@,
        EventType::OrderIntentCreated => "ORDER_INTENT_CREATED"@,
        EventType::OrderSubmitted => "ORDER_SUBMITTED"@,
        EventType::OrderAccepted => "ORDER_ACCEPTED"@,
        EventType::OrderCancelRequested => "ORDER_CANCEL_REQUESTED"@,
        EventType::OrderPartiallyFilled => "ORDER_PARTIALLY_FILLED"@,
        EventType::OrderFilled => "ORDER_FILLED"@,
        EventType::OrderRejected => "ORDER_REJECTED"@,
        EventType::OrderCancelled => "ORDER_CANCELLED"@,
        EventType::LotOpened => "LOT_OPENED"@,
        EventType::LotPartiallyClosed => "LOT_PARTIALLY_CLOSED"@,
        EventType::LotClosed => "LOT_CLOSED"@,
        EventType::CashChanged => "CASH_CHANGED"@,
        EventType::PositionChanged => "POSITION_CHANGED"@,
        EventType::GridCycleReset => "GRID_CYCLE_RESET"@,
        EventType::ReconciliationCompleted => "RECONCILIATION_COMPLETED"@,
        EventType::ServiceStopped => "SERVICE_STOPPED"@,
        EventType::ServiceModeChanged => "SERVICE_MODE_CHANGED"@,
        EventType::RecoveryCompleted => "RECOVERY_COMPLETED"@,
        EventType::AmbiguousBarDetected => "AMBIGUOUS_BAR_DETECTED"@,
        EventType::TradingDayRolled => "TRADING_DAY_ROLLED"@,
        EventType::ErrorRecorded => "ERROR_RECORDED"@,
        EventType::MarketDataReceived => "MARKET_DATA_RECEIVED"@,
        EventType::MarketBarDecisionsCommitted => "MARKET_BAR_DECISIONS_COMMITTED"@,
        EventType::MarketBarProcessed => "MARKET_BAR_PROCESSED"@,
        EventType::ReplayInitialized => "REPLAY_INITIALIZED"@,
    }
}

impl EventType {
    /// The name of the kind.
    pub fn name(self) -> (r: &'static str)
        ensures
            r@ == event_name(self),
    {
        match self {
            EventType::RunStarted => "RUN_STARTED",
            EventType::ConfigSnapshotted => "CONFIG_SNAPSHOTTED",
            EventType::AlgorithmRegistered => "ALGORITHM_REGISTERED",
            EventType::PlatformUpgradeAuthorized => "PLATFORM_UPGRADE_AUTHORIZED",
            EventType::PlatformUpgradeActivated => "PLATFORM_UPGRADE_ACTIVATED",
            EventType::OngoingResourcePolicyActivated => "ONGOING_RESOURCE_POLICY_ACTIVATED",
            EventType::GridCycleStarted => "GRID_CYCLE_STARTED",
            EventType::GridLevelArmed => "GRID_LEVEL_ARMED",
            EventType::GridLevelTouched => "GRID_LEVEL_TOUCHED",
            EventType::GridLevelSkipped => "GRID_LEVEL_SKIPPED",
            EventType::GridLevelRearmed => "GRID_LEVEL_REARMED",
            EventType::GridRightGranted => "GRID_RIGHT_GRANTED",
            EventType::GridRightDeferred => "GRID_RIGHT_DEFERRED",
            EventType::GridRightResidualHeld => "GRID_RIGHT_RESIDUAL_HELD",
            EventType::GridRightBlocked => "GRID_RIGHT_BLOCKED",
            EventType::GridRightReserved => "GRID_RIGHT_RESERVED",
            EventType::GridRightPartiallyExercised => "GRID_RIGHT_PARTIALLY_EXERCISED",
            EventType::GridRightExercised => "GRID_RIGHT_EXERCISED",
            EventType::GridRightReleased => "GRID_RIGHT_RELEASED",
            EventType::GridRightTransferred => "GRID_RIGHT_TRANSFERRED",
            EventType::GridRightExpired => "GRID_RIGHT_EXPIRED",
            EventType::GridRightRevoked => "GRID_RIGHT_REVOKED",
            EventType::RightTrancheMinted => "RIGHT_TRANCHE_MINTED",
            EventType::RightBalanceTransferred => "RIGHT_BALANCE_TRANSFERRED",
            EventType::RightBalanceReserved => "RIGHT_BALANCE_RESERVED",
            EventType::RightBalanceReleased => "RIGHT_BALANCE_RELEASED",
            EventType::RightBalanceConsumed => "RIGHT_BALANCE_CONSUMED",
            EventType::RightBalanceRevoked => "RIGHT_BALANCE_REVOKED",
            EventType::RightBalanceExpired => "RIGHT_BALANCE_EXPIRED",
            EventType::DeferredBudgetAccrued => "DEFERRED_BUDGET_ACCRUED",
            EventType::DeferredQuantityAccrued => "DEFERRED_QUANTITY_ACCRUED",
            EventType::GateDecisionMade => "GATE_DECISION_MADE",
            EventType::InitialDeploymentEvaluated => "INITIAL_DEPLOYMENT_EVALUATED",
            EventType::OrderIntentCreated => "ORDER_INTENT_CREATED",
            EventType::OrderSubmitted => "ORDER_SUBMITTED",
            EventType::OrderAccepted => "ORDER_ACCEPTED",
            EventType::OrderCancelRequested => "ORDER_CANCEL_REQUESTED",
            EventType::OrderPartiallyFilled => "ORDER_PARTIALLY_FILLED",
            EventType::OrderFilled => "ORDER_FILLED",
            EventType::OrderRejected => "ORDER_REJECTED",
            EventType::OrderCancelled => "ORDER_CANCELLED",
            EventType::LotOpened => "LOT_OPENED",
            EventType::LotPartiallyClosed => "LOT_PARTIALLY_CLOSED",
            EventType::LotClosed => "LOT_CLOSED",
            EventType::CashChanged => "CASH_CHANGED",
            EventType::PositionChanged => "POSITION_CHANGED",
            EventType::GridCycleReset => "GRID_CYCLE_RESET",
            EventType::ReconciliationCompleted => "RECONCILIATION_COMPLETED",
            EventType::ServiceStopped => "SERVICE_STOPPED",
            EventType::ServiceModeChanged => "SERVICE_MODE_CHANGED",
            EventType::RecoveryCompleted => "RECOVERY_COMPLETED",
            EventType::AmbiguousBarDetected => "AMBIGUOUS_BAR_DETECTED",
            EventType::TradingDayRolled => "TRADING_DAY_ROLLED",
            EventType::ErrorRecorded => "ERROR_RECORDED",
            EventType::MarketDataReceived => "MARKET_DATA_RECEIVED",
            EventType::MarketBarDecisionsCommitted => "MARKET_BAR_DECISIONS_COMMITTED",
            EventType::MarketBarProcessed => "MARKET_BAR_PROCESSED",
            EventType::ReplayInitialized => "REPLAY_INITIALIZED",
        }
    }

    /// The kind with a name, where there is one.
    pub fn parse(text: &str) -> (r: Option<EventType>)
        ensures
            match r {
                Some(t) => text@ == event_name(t),
                None => forall|t: EventType| text@ != #[trigger] event_name(t),
            },
    {
        if text_eq(text, "RUN_STARTED") {
            Some(EventType::RunStarted)
        } else if text_eq(text, "CONFIG_SNAPSHOTTED") {
            Some(EventType::ConfigSnapshotted)
        } else if text_eq(text, "ALGORITHM_REGISTERED") {
            Some(EventType::AlgorithmRegistered)
        } else if text_eq(text, "PLATFORM_UPGRADE_AUTHORIZED") {
            Some(EventType::PlatformUpgradeAuthorized)
        } else if text_eq(text, "PLATFORM_UPGRADE_ACTIVATED") {
            Some(EventType::PlatformUpgradeActivated)
        } else if text_eq(text, "ONGOING_RESOURCE_POLICY_ACTIVATED") {
            Some(EventType::OngoingResourcePolicyActivated)
        } else if text_eq(text, "GRID_CYCLE_STARTED") {
            Some(EventType::GridCycleStarted)
        } else if text_eq(text, "GRID_LEVEL_ARMED") {
            Some(EventType::GridLevelArmed)
        } else if text_eq(text, "GRID_LEVEL_TOUCHED") {
            Some(EventType::GridLevelTouched)
        } else if text_eq(text, "GRID_LEVEL_SKIPPED") {
            Some(EventType::GridLevelSkipped)
        } else if text_eq(text, "GRID_LEVEL_REARMED") {
            Some(EventType::GridLevelRearmed)
        } else if text_eq(text, "GRID_RIGHT_GRANTED") {
            Some(EventType::GridRightGranted)
        } else if text_eq(text, "GRID_RIGHT_DEFERRED") {
            Some(EventType::GridRightDeferred)
        } else if text_eq(text, "GRID_RIGHT_RESIDUAL_HELD") {
            Some(EventType::GridRightResidualHeld)
        } else if text_eq(text, "GRID_RIGHT_BLOCKED") {
            Some(EventType::GridRightBlocked)
        } else if text_eq(text, "GRID_RIGHT_RESERVED") {
            Some(EventType::GridRightReserved)
        } else if text_eq(text, "GRID_RIGHT_PARTIALLY_EXERCISED") {
            Some(EventType::GridRightPartiallyExercised)
        } else if text_eq(text, "GRID_RIGHT_EXERCISED") {
            Some(EventType::GridRightExercised)
        } else if text_eq(text, "GRID_RIGHT_RELEASED") {
            Some(EventType::GridRightReleased)
        } else if text_eq(text, "GRID_RIGHT_TRANSFERRED") {
            Some(EventType::GridRightTransferred)
        } else if text_eq(text, "GRID_RIGHT_EXPIRED") {
            Some(EventType::GridRightExpired)
        } else if text_eq(text, "GRID_RIGHT_REVOKED") {
            Some(EventType::GridRightRevoked)
        } else if text_eq(text, "RIGHT_TRANCHE_MINTED") {
            Some(EventType::RightTrancheMinted)
        } else if text_eq(text, "RIGHT_BALANCE_TRANSFERRED") {
            Some(EventType::RightBalanceTransferred)
        } else if text_eq(text, "RIGHT_BALANCE_RESERVED") {
            Some(EventType::RightBalanceReserved)
        } else if text_eq(text, "RIGHT_BALANCE_RELEASED") {
            Some(EventType::RightBalanceReleased)
        } else if text_eq(text, "RIGHT_BALANCE_CONSUMED") {
            Some(EventType::RightBalanceConsumed)
        } else if text_eq(text, "RIGHT_BALANCE_REVOKED") {
            Some(EventType::RightBalanceRevoked)
        } else if text_eq(text, "RIGHT_BALANCE_EXPIRED") {
            Some(EventType::RightBalanceExpired)
        } else if text_eq(text, "DEFERRED_BUDGET_ACCRUED") {
            Some(EventType::DeferredBudgetAccrued)
        } else if text_eq(text, "DEFERRED_QUANTITY_ACCRUED") {
            Some(EventType::DeferredQuantityAccrued)
        } else if text_eq(text, "GATE_DECISION_MADE") {
            Some(EventType::GateDecisionMade)
        } else if text_eq(text, "INITIAL_DEPLOYMENT_EVALUATED") {
            Some(EventType::InitialDeploymentEvaluated)
        } else if text_eq(text, "ORDER_INTENT_CREATED") {
            Some(EventType::OrderIntentCreated)
        } else if text_eq(text, "ORDER_SUBMITTED") {
            Some(EventType::OrderSubmitted)
        } else if text_eq(text, "ORDER_ACCEPTED") {
            Some(EventType::OrderAccepted)
        } else if text_eq(text, "ORDER_CANCEL_REQUESTED") {
            Some(EventType::OrderCancelRequested)
        } else if text_eq(text, "ORDER_PARTIALLY_FILLED") {
            Some(EventType::OrderPartiallyFilled)
        } else if text_eq(text, "ORDER_FILLED") {
            Some(EventType::OrderFilled)
        } else if text_eq(text, "ORDER_REJECTED") {
            Some(EventType::OrderRejected)
        } else if text_eq(text, "ORDER_CANCELLED") {
            Some(EventType::OrderCancelled)
        } else if text_eq(text, "LOT_OPENED") {
            Some(EventType::LotOpened)
        } else if text_eq(text, "LOT_PARTIALLY_CLOSED") {
            Some(EventType::LotPartiallyClosed)
        } else if text_eq(text, "LOT_CLOSED") {
            Some(EventType::LotClosed)
        } else if text_eq(text, "CASH_CHANGED") {
            Some(EventType::CashChanged)
        } else if text_eq(text, "POSITION_CHANGED") {
            Some(EventType::PositionChanged)
        } else if text_eq(text, "GRID_CYCLE_RESET") {
            Some(EventType::GridCycleReset)
        } else if text_eq(text, "RECONCILIATION_COMPLETED") {
            Some(EventType::ReconciliationCompleted)
        } else if text_eq(text, "SERVICE_STOPPED") {
            Some(EventType::ServiceStopped)
        } else if text_eq(text, "SERVICE_MODE_CHANGED") {
            Some(EventType::ServiceModeChanged)
        } else if text_eq(text, "RECOVERY_COMPLETED") {
            Some(EventType::RecoveryCompleted)
        } else if text_eq(text, "AMBIGUOUS_BAR_DETECTED") {
            Some(EventType::AmbiguousBarDetected)
        } else if text_eq(text, "TRADING_DAY_ROLLED") {
            Some(EventType::TradingDayRolled)
        } else if text_eq(text, "ERROR_RECORDED") {
            Some(EventType::ErrorRecorded)
        } else if text_eq(text, "MARKET_DATA_RECEIVED") {
            Some(EventType::MarketDataReceived)
        } else if text_eq(text, "MARKET_BAR_DECISIONS_COMMITTED") {
            Some(EventType::MarketBarDecisionsCommitted)
        } else if text_eq(text, "MARKET_BAR_PROCESSED") {
            Some(EventType::MarketBarProcessed)
        } else if text_eq(text, "REPLAY_INITIALIZED") {
            Some(EventType::ReplayInitialized)
        } else {
            None
        }
    }
}

/// Whether the payload of a kind has had three layouts.
pub open spec fn has_three_layouts(t: EventType) -> bool {
    match t {
        EventType::ConfigSnapshotted
        | EventType::GridCycleStarted
        | EventType::GridCycleReset
        | EventType::GridLevelArmed
        | EventType::GridLevelTouched
        | EventType::GridLevelSkipped
        | EventType::GridLevelRearmed
        | EventType::MarketBarDecisionsCommitted
        | EventType::MarketBarProcessed
        | EventType::GridRightGranted
        | EventType::GridRightPartiallyExercised
        | EventType::GridRightExercised
        | EventType::GridRightReleased
        | EventType::GridRightTransferred
        | EventType::GridRightExpired
        | EventType::GridRightRevoked
        | EventType::RightTrancheMinted
        | EventType::RightBalanceTransferred
        | EventType::RightBalanceReserved
        | EventType::RightBalanceReleased
        | EventType::RightBalanceConsumed
        | EventType::RightBalanceRevoked
        | EventType::RightBalanceExpired => true,
        _ => false,
    }
}

fn with_three_layouts(t: EventType) -> (r: bool)
    ensures
        r == has_three_layouts(t),
{
    match t {
        EventType::ConfigSnapshotted
        | EventType::GridCycleStarted
        | EventType::GridCycleReset
        | EventType::GridLevelArmed
        | EventType::GridLevelTouched
        | EventType::GridLevelSkipped
        | EventType::GridLevelRearmed
        | EventType::MarketBarDecisionsCommitted
        | EventType::MarketBarProcessed
        | EventType::GridRightGranted
        | EventType::GridRightPartiallyExercised
        | EventType::GridRightExercised
        | EventType::GridRightReleased
        | EventType::GridRightTransferred
        | EventType::GridRightExpired
        | EventType::GridRightRevoked
        | EventType::RightTrancheMinted
        | EventType::RightBalanceTransferred
        | EventType::RightBalanceReserved
        | EventType::RightBalanceReleased
        | EventType::RightBalanceConsumed
        | EventType::RightBalanceRevoked
        | EventType::RightBalanceExpired => true,
        _ => false,
    }
}

/// The layout in which the payload of a kind is written.
pub open spec fn current_schema(t: EventType) -> i32 {
    if has_three_layouts(t) {
        2
    } else {
        match t {
            EventType::MarketDataReceived => 2,
            EventType::GridRightDeferred | EventType::GridRightResidualHeld => 3,
            EventType::GateDecisionMade => 4,
            EventType::GridRightBlocked | EventType::GridRightReserved => 4,
            EventType::OrderIntentCreated => 7,
            EventType::OrderPartiallyFilled | EventType::OrderFilled => 3,
            _ => EVENT_SCHEMA_VERSION,
        }
    }
}

/// The layout in which the payload of a kind is written.
pub fn current_event_schema(event_type: EventType) -> (r: i32)
    ensures
        r == current_schema(event_type),
{
    if with_three_layouts(event_type) {
        2
    } else {
        match event_type {
            EventType::MarketDataReceived => 2,
            EventType::GridRightDeferred | EventType::GridRightResidualHeld => 3,
            EventType::GateDecisionMade => 4,
            EventType::GridRightBlocked | EventType::GridRightReserved => 4,
            EventType::OrderIntentCreated => 7,
            EventType::OrderPartiallyFilled | EventType::OrderFilled => 3,
            _ => EVENT_SCHEMA_VERSION,
        }
    }
}

/// The first and the last layout of a kind that can be read.
pub open spec fn readable_schemas(t: EventType) -> (int, int) {
    if has_three_layouts(t) {
        (1, 3)
    } else {
        match t {
            EventType::MarketDataReceived => (1, 2),
            EventType::GateDecisionMade => (1, 4),
            EventType::GridRightDeferred => (1, 3),
            EventType::GridRightBlocked | EventType::GridRightReserved => (1, 4),
            EventType::GridRightResidualHeld => (3, 3),
            EventType::OrderIntentCreated => (1, 7),
            EventType::OrderPartiallyFilled | EventType::OrderFilled => (1, 3),
            _ => (current_schema(t) as int, current_schema(t) as int),
        }
    }
}

/// Whether a payload of a kind can be read in a layout.
pub open spec fn readable(t: EventType, version: i32) -> bool {
    readable_schemas(t).0 <= version <= readable_schemas(t).1
}

/// Whether a payload of a kind can be read in a layout.
pub fn is_readable(event_type: EventType, version: i32) -> (r: bool)
    ensures
        r == readable(event_type, version),
{
    if with_three_layouts(event_type) {
        1 <= version && version <= 3
    } else {
        match event_type {
            EventType::MarketDataReceived => 1 <= version && version <= 2,
            EventType::GateDecisionMade => 1 <= version && version <= 4,
            EventType::GridRightDeferred => 1 <= version && version <= 3,
            EventType::GridRightBlocked | EventType::GridRightReserved => 1 <= version && version
                <= 4,
            EventType::GridRightResidualHeld => version == 3,
            EventType::OrderIntentCreated => 1 <= version && version <= 7,
            EventType::OrderPartiallyFilled | EventType::OrderFilled => 1 <= version && version
                <= 3,
            _ => version == current_event_schema(event_type),
        }
    }
}

/// What is written can be read.
pub proof fn law_current_layouts_are_readable(t: EventType)
    ensures
        readable(t, current_schema(t)),
{
}

/// No two kinds share a name.
#[verifier::rlimit(100)]
#[verifier::spinoff_prover]
pub proof fn law_names_differ(a: EventType, b: EventType)
    requires
        event_name(a) == event_name(b),
    ensures
        a == b,
{
    reveal_strlit("RUN_STARTED");
    assert("RUN_STARTED"@.len() == 11);
    reveal_strlit("CONFIG_SNAPSHOTTED");
    assert("CONFIG_SNAPSHOTTED"@.len() == 18 && "CONFIG_SNAPSHOTTED"@[0] == 'C');
    reveal_strlit("ALGORITHM_REGISTERED");
    assert("ALGORITHM_REGISTERED"@.len() == 20 && "ALGORITHM_REGISTERED"@[0] == 'A');
    reveal_strlit("PLATFORM_UPGRADE_AUTHORIZED");
    assert("PLATFORM_UPGRADE_AUTHORIZED"@.len() == 27);
    reveal_strlit("PLATFORM_UPGRADE_ACTIVATED");
    assert("PLATFORM_UPGRADE_ACTIVATED"@.len() == 26);
    reveal_strlit("ONGOING_RESOURCE_POLICY_ACTIVATED");
    assert("ONGOING_RESOURCE_POLICY_ACTIVATED"@.len() == 33);
    reveal_strlit("GRID_CYCLE_STARTED");
    assert("GRID_CYCLE_STARTED"@.len() == 18 && "GRID_CYCLE_STARTED"@[0] == 'G' && "GRID_CYCLE_STARTED"@[5] == 'C');
    reveal_strlit("GRID_LEVEL_ARMED");
    assert("GRID_LEVEL_ARMED"@.len() == 16 && "GRID_LEVEL_ARMED"@[0] == 'G' && "GRID_LEVEL_ARMED"@[5] == 'L');
    reveal_strlit("GRID_LEVEL_TOUCHED");
    assert("GRID_LEVEL_TOUCHED"@.len() == 18 && "GRID_LEVEL_TOUCHED"@[0] == 'G' && "GRID_LEVEL_TOUCHED"@[5] == 'L' && "GRID_LEVEL_TOUCHED"@[11] == 'T');
    reveal_strlit("GRID_LEVEL_SKIPPED");
    assert("GRID_LEVEL_SKIPPED"@.len() == 18 && "GRID_LEVEL_SKIPPED"@[0] == 'G' && "GRID_LEVEL_SKIPPED"@[5] == 'L' && "GRID_LEVEL_SKIPPED"@[11] == 'S');
    reveal_strlit("GRID_LEVEL_REARMED");
    assert("GRID_LEVEL_REARMED"@.len() == 18 && "GRID_LEVEL_REARMED"@[0] == 'G' && "GRID_LEVEL_REARMED"@[5] == 'L' && "GRID_LEVEL_REARMED"@[11] == 'R');
    reveal_strlit("GRID_RIGHT_GRANTED");
    assert("GRID_RIGHT_GRANTED"@.len() == 18 && "GRID_RIGHT_GRANTED"@[0] == 'G' && "GRID_RIGHT_GRANTED"@[5] == 'R' && "GRID_RIGHT_GRANTED"@[11] == 'G');
    reveal_strlit("GRID_RIGHT_DEFERRED");
    assert("GRID_RIGHT_DEFERRED"@.len() == 19 && "GRID_RIGHT_DEFERRED"@[11] == 'D');
    reveal_strlit("GRID_RIGHT_RESIDUAL_HELD");
    assert("GRID_RIGHT_RESIDUAL_HELD"@.len() == 24 && "GRID_RIGHT_RESIDUAL_HELD"@[0] == 'G');
    reveal_strlit("GRID_RIGHT_BLOCKED");
    assert("GRID_RIGHT_BLOCKED"@.len() == 18 && "GRID_RIGHT_BLOCKED"@[0] == 'G' && "GRID_RIGHT_BLOCKED"@[5] == 'R' && "GRID_RIGHT_BLOCKED"@[11] == 'B');
    reveal_strlit("GRID_RIGHT_RESERVED");
    assert("GRID_RIGHT_RESERVED"@.len() == 19 && "GRID_RIGHT_RESERVED"@[11] == 'R' && "GRID_RIGHT_RESERVED"@[13] == 'S');
    reveal_strlit("GRID_RIGHT_PARTIALLY_EXERCISED");
    assert("GRID_RIGHT_PARTIALLY_EXERCISED"@.len() == 30 && "GRID_RIGHT_PARTIALLY_EXERCISED"@[0] == 'G');
    reveal_strlit("GRID_RIGHT_EXERCISED");
    assert("GRID_RIGHT_EXERCISED"@.len() == 20 && "GRID_RIGHT_EXERCISED"@[0] == 'G');
    reveal_strlit("GRID_RIGHT_RELEASED");
    assert("GRID_RIGHT_RELEASED"@.len() == 19 && "GRID_RIGHT_RELEASED"@[11] == 'R' && "GRID_RIGHT_RELEASED"@[13] == 'L');
    reveal_strlit("GRID_RIGHT_TRANSFERRED");
    assert("GRID_RIGHT_TRANSFERRED"@.len() == 22 && "GRID_RIGHT_TRANSFERRED"@[0] == 'G');
    reveal_strlit("GRID_RIGHT_EXPIRED");
    assert("GRID_RIGHT_EXPIRED"@.len() == 18 && "GRID_RIGHT_EXPIRED"@[0] == 'G' && "GRID_RIGHT_EXPIRED"@[5] == 'R' && "GRID_RIGHT_EXPIRED"@[11] == 'E');
    reveal_strlit("GRID_RIGHT_REVOKED");
    assert("GRID_RIGHT_REVOKED"@.len() == 18 && "GRID_RIGHT_REVOKED"@[0] == 'G' && "GRID_RIGHT_REVOKED"@[5] == 'R' && "GRID_RIGHT_REVOKED"@[11] == 'R');
    reveal_strlit("RIGHT_TRANCHE_MINTED");
    assert("RIGHT_TRANCHE_MINTED"@.len() == 20 && "RIGHT_TRANCHE_MINTED"@[0] == 'R');
    reveal_strlit("RIGHT_BALANCE_TRANSFERRED");
    assert("RIGHT_BALANCE_TRANSFERRED"@.len() == 25 && "RIGHT_BALANCE_TRANSFERRED"@[0] == 'R');
    reveal_strlit("RIGHT_BALANCE_RESERVED");
    assert("RIGHT_BALANCE_RESERVED"@.len() == 22 && "RIGHT_BALANCE_RESERVED"@[0] == 'R' && "RIGHT_BALANCE_RESERVED"@[16] == 'S');
    reveal_strlit("RIGHT_BALANCE_RELEASED");
    assert("RIGHT_BALANCE_RELEASED"@.len() == 22 && "RIGHT_BALANCE_RELEASED"@[0] == 'R' && "RIGHT_BALANCE_RELEASED"@[16] == 'L');
    reveal_strlit("RIGHT_BALANCE_CONSUMED");
    assert("RIGHT_BALANCE_CONSUMED"@.len() == 22 && "RIGHT_BALANCE_CONSUMED"@[0] == 'R' && "RIGHT_BALANCE_CONSUMED"@[16] == 'N');
    reveal_strlit("RIGHT_BALANCE_REVOKED");
    assert("RIGHT_BALANCE_REVOKED"@.len() == 21 && "RIGHT_BALANCE_REVOKED"@[14] == 'R');
    reveal_strlit("RIGHT_BALANCE_EXPIRED");
    assert("RIGHT_BALANCE_EXPIRED"@.len() == 21 && "RIGHT_BALANCE_EXPIRED"@[14] == 'E');
    reveal_strlit("DEFERRED_BUDGET_ACCRUED");
    assert("DEFERRED_BUDGET_ACCRUED"@.len() == 23);
    reveal_strlit("DEFERRED_QUANTITY_ACCRUED");
    assert("DEFERRED_QUANTITY_ACCRUED"@.len() == 25 && "DEFERRED_QUANTITY_ACCRUED"@[0] == 'D');
    reveal_strlit("GATE_DECISION_MADE");
    assert("GATE_DECISION_MADE"@.len() == 18 && "GATE_DECISION_MADE"@[0] == 'G' && "GATE_DECISION_MADE"@[5] == 'D');
    reveal_strlit("INITIAL_DEPLOYMENT_EVALUATED");
    assert("INITIAL_DEPLOYMENT_EVALUATED"@.len() == 28);
    reveal_strlit("ORDER_INTENT_CREATED");
    assert("ORDER_INTENT_CREATED"@.len() == 20 && "ORDER_INTENT_CREATED"@[0] == 'O');
    reveal_strlit("ORDER_SUBMITTED");
    assert("ORDER_SUBMITTED"@.len() == 15 && "ORDER_SUBMITTED"@[6] == 'S');
    reveal_strlit("ORDER_ACCEPTED");
    assert("ORDER_ACCEPTED"@.len() == 14 && "ORDER_ACCEPTED"@[6] == 'A');
    reveal_strlit("ORDER_CANCEL_REQUESTED");
    assert("ORDER_CANCEL_REQUESTED"@.len() == 22 && "ORDER_CANCEL_REQUESTED"@[0] == 'O' && "ORDER_CANCEL_REQUESTED"@[6] == 'C');
    reveal_strlit("ORDER_PARTIALLY_FILLED");
    assert("ORDER_PARTIALLY_FILLED"@.len() == 22 && "ORDER_PARTIALLY_FILLED"@[0] == 'O' && "ORDER_PARTIALLY_FILLED"@[6] == 'P');
    reveal_strlit("ORDER_FILLED");
    assert("ORDER_FILLED"@.len() == 12 && "ORDER_FILLED"@[0] == 'O');
    reveal_strlit("ORDER_REJECTED");
    assert("ORDER_REJECTED"@.len() == 14 && "ORDER_REJECTED"@[0] == 'O' && "ORDER_REJECTED"@[6] == 'R');
    reveal_strlit("ORDER_CANCELLED");
    assert("ORDER_CANCELLED"@.len() == 15 && "ORDER_CANCELLED"@[6] == 'C');
    reveal_strlit("LOT_OPENED");
    assert("LOT_OPENED"@.len() == 10 && "LOT_OPENED"@[4] == 'O');
    reveal_strlit("LOT_PARTIALLY_CLOSED");
    assert("LOT_PARTIALLY_CLOSED"@.len() == 20 && "LOT_PARTIALLY_CLOSED"@[0] == 'L');
    reveal_strlit("LOT_CLOSED");
    assert("LOT_CLOSED"@.len() == 10 && "LOT_CLOSED"@[4] == 'C');
    reveal_strlit("CASH_CHANGED");
    assert("CASH_CHANGED"@.len() == 12 && "CASH_CHANGED"@[0] == 'C');
    reveal_strlit("POSITION_CHANGED");
    assert("POSITION_CHANGED"@.len() == 16 && "POSITION_CHANGED"@[0] == 'P');
    reveal_strlit("GRID_CYCLE_RESET");
    assert("GRID_CYCLE_RESET"@.len() == 16 && "GRID_CYCLE_RESET"@[0] == 'G' && "GRID_CYCLE_RESET"@[5] == 'C');
    reveal_strlit("RECONCILIATION_COMPLETED");
    assert("RECONCILIATION_COMPLETED"@.len() == 24 && "RECONCILIATION_COMPLETED"@[0] == 'R');
    reveal_strlit("SERVICE_STOPPED");
    assert("SERVICE_STOPPED"@.len() == 15 && "SERVICE_STOPPED"@[6] == 'E');
    reveal_strlit("SERVICE_MODE_CHANGED");
    assert("SERVICE_MODE_CHANGED"@.len() == 20 && "SERVICE_MODE_CHANGED"@[0] == 'S');
    reveal_strlit("RECOVERY_COMPLETED");
    assert("RECOVERY_COMPLETED"@.len() == 18 && "RECOVERY_COMPLETED"@[0] == 'R' && "RECOVERY_COMPLETED"@[2] == 'C');
    reveal_strlit("AMBIGUOUS_BAR_DETECTED");
    assert("AMBIGUOUS_BAR_DETECTED"@.len() == 22 && "AMBIGUOUS_BAR_DETECTED"@[0] == 'A');
    reveal_strlit("TRADING_DAY_ROLLED");
    assert("TRADING_DAY_ROLLED"@.len() == 18 && "TRADING_DAY_ROLLED"@[0] == 'T');
    reveal_strlit("ERROR_RECORDED");
    assert("ERROR_RECORDED"@.len() == 14 && "ERROR_RECORDED"@[0] == 'E' && "ERROR_RECORDED"@[6] == 'R');
    reveal_strlit("MARKET_DATA_RECEIVED");
    assert("MARKET_DATA_RECEIVED"@.len() == 20 && "MARKET_DATA_RECEIVED"@[0] == 'M' && "MARKET_DATA_RECEIVED"@[7] == 'D');
    reveal_strlit("MARKET_BAR_DECISIONS_COMMITTED");
    assert("MARKET_BAR_DECISIONS_COMMITTED"@.len() == 30 && "MARKET_BAR_DECISIONS_COMMITTED"@[0] == 'M');
    reveal_strlit("MARKET_BAR_PROCESSED");
    assert("MARKET_BAR_PROCESSED"@.len() == 20 && "MARKET_BAR_PROCESSED"@[0] == 'M' && "MARKET_BAR_PROCESSED"@[7] == 'B');
    reveal_strlit("REPLAY_INITIALIZED");
    assert("REPLAY_INITIALIZED"@.len() == 18 && "REPLAY_INITIALIZED"@[0] == 'R' && "REPLAY_INITIALIZED"@[2] == 'P');
}

} // verus!

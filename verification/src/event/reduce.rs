//! The state that follows from an event.
use crate::event::disposition::{disposed, disposed_status};
use crate::event::fills::{fill_received, notified_status, order_notified, order_submitted};
use crate::event::grants::right_granted;
use crate::event::intents::{opening_evaluated, order_intended};
use crate::event::kinds::{is_readable, readable, EventType};
use crate::event::levels::{level_armed, level_rearmed, level_skipped, level_touched};
use crate::event::laws::law_events_continue_the_run;
use crate::event::lifecycle::{
    bar_processed, bar_received, close_noted, config_recorded, cycle_reset, cycle_started,
    day_rolled, decision_made, policy_activated, reconciled, stage_of_event,
};
use crate::event::payload::{EventEnvelope, EventEnvelopeView, Payload, PayloadView};
use crate::event::tranches::{
    balance_move, balance_moved, balance_transferred, tranche_minted, BalanceMove,
};
use crate::model::ledger::{OrderStatus, ServiceMode, StrategyState, StrategyStateView};
use crate::model::notices::{Appraisal, AppraisalView};
use crate::model::rights::GridRightStatus;
use crate::value::Value;
use vstd::prelude::*;

verus! {

/// Why an event is refused.
#[derive(Clone, Copy, Debug, PartialEq, Eq, Structural)]
pub enum EventError {
    /// The layout of the payload cannot be read.
    UnsupportedSchema,
    /// There are too many events to count.
    CounterOverflow,
    /// The event does not follow from the state before it.
    Refused,
}

/// The state after an event on a grid level or a tranche.
#[verifier::opaque]
pub open spec fn grid_reduced(
    s: StrategyStateView,
    e: EventEnvelopeView,
    a: AppraisalView,
) -> Option<StrategyStateView> {
    match (e.event_type, e.payload) {
        (EventType::GridLevelArmed, PayloadView::Level(x)) => level_armed(s, e, x),
        (EventType::GridLevelTouched, PayloadView::LevelAt(x)) => level_touched(s, e, x),
        (EventType::GridLevelSkipped, PayloadView::LevelAt(x)) => level_skipped(s, e, x),
        (EventType::GridLevelRearmed, PayloadView::LevelAt(x)) => level_rearmed(s, e, x),
        (EventType::GridRightGranted, PayloadView::Right(x)) => right_granted(s, e, x, a),
        (EventType::RightTrancheMinted, PayloadView::Tranche(x)) => tranche_minted(s, e, x, a),
        (EventType::RightBalanceTransferred, PayloadView::Transfer(x)) => balance_transferred(
            s,
            e,
            x,
        ),
        (_, PayloadView::Balance(x)) => match balance_move(e.event_type) {
            Some(m) => balance_moved(s, m, x),
            None => None,
        },
        (_, PayloadView::Disposition(x)) => match disposed_status(e.event_type) {
            Some(next) => disposed(s, e, x, next),
            None => None,
        },
        _ => None,
    }
}

/// The state after an event on an order.
#[verifier::opaque]
pub open spec fn order_reduced(
    s: StrategyStateView,
    e: EventEnvelopeView,
    a: AppraisalView,
) -> Option<StrategyStateView> {
    match (e.event_type, e.payload) {
        (EventType::InitialDeploymentEvaluated, PayloadView::Evaluation(x)) => opening_evaluated(
            s,
            e,
            x,
            a,
        ),
        (EventType::OngoingResourcePolicyActivated, PayloadView::Activation(x)) => policy_activated(
            s,
            x,
            a,
        ),
        (EventType::OrderIntentCreated, PayloadView::Intent(x)) => order_intended(s, e, x, a),
        (EventType::OrderSubmitted, PayloadView::OrderAt(x)) => order_submitted(s, x),
        (_, PayloadView::OrderAt(x)) => match notified_status(e.event_type) {
            Some(next) => order_notified(s, e, x, next),
            None => None,
        },
        (EventType::OrderPartiallyFilled, PayloadView::Fill(x)) => fill_received(
            s,
            e,
            x,
            OrderStatus::PartiallyFilled,
            a,
        ),
        (EventType::OrderFilled, PayloadView::Fill(x)) => fill_received(
            s,
            e,
            x,
            OrderStatus::Filled,
            a,
        ),
        _ => None,
    }
}

/// The state after an event on the run.
#[verifier::opaque]
pub open spec fn run_reduced(
    s: StrategyStateView,
    e: EventEnvelopeView,
    a: AppraisalView,
) -> Option<StrategyStateView> {
    match (e.event_type, e.payload) {
        (EventType::TradingDayRolled, PayloadView::Day(x)) => day_rolled(s, x),
        (EventType::RecoveryCompleted, PayloadView::Recovery(x)) => Some(
            StrategyStateView { last_recovery: Some(x), ..s },
        ),
        (EventType::ReconciliationCompleted, PayloadView::Reconciliation(x)) => Some(
            reconciled(s, e, x),
        ),
        (EventType::ServiceModeChanged, PayloadView::Mode(x)) => match x {
            Some(mode) => Some(StrategyStateView { mode, ..s }),
            None => None,
        },
        (EventType::GridCycleReset, PayloadView::Reset(x)) => cycle_reset(s, e, x),
        (EventType::GridCycleStarted, PayloadView::Start(x)) => cycle_started(s, e, x),
        (EventType::ConfigSnapshotted, PayloadView::Snapshot(x)) => config_recorded(s, e, x),
        (EventType::ErrorRecorded, PayloadView::Error(x)) => Some(
            if x.entered_safe == Some(true) {
                StrategyStateView { mode: ServiceMode::Safe, ..s }
            } else {
                s
            },
        ),
        (EventType::MarketBarProcessed, PayloadView::Stage(x)) => bar_processed(s, e, x),
        (EventType::MarketDataReceived, PayloadView::Stage(x)) => if e.schema_version == 1 {
            close_noted(s, x.close)
        } else {
            None
        },
        (EventType::MarketDataReceived, PayloadView::Bar(x)) => bar_received(s, e, x, a),
        _ => None,
    }
}

/// Whether a payload speaks of grid levels, rights or tranches.
pub open spec fn on_grid(p: PayloadView) -> bool {
    p is Level || p is LevelAt || p is Right || p is Tranche || p is Transfer || p is Balance
        || p is Disposition
}

/// Whether a payload speaks of orders.
pub open spec fn on_order(p: PayloadView) -> bool {
    p is Evaluation || p is Activation || p is Intent || p is OrderAt || p is Fill
}

/// Whether a kind of event only reports what other events did.
pub open spec fn only_reports(t: EventType) -> bool {
    match t {
        EventType::RunStarted
        | EventType::AlgorithmRegistered
        | EventType::PlatformUpgradeAuthorized
        | EventType::PlatformUpgradeActivated
        | EventType::ReplayInitialized
        | EventType::DeferredQuantityAccrued
        | EventType::LotOpened
        | EventType::LotPartiallyClosed
        | EventType::LotClosed
        | EventType::CashChanged
        | EventType::PositionChanged => true,
        _ => false,
    }
}

/// The state after an event, not counting it.
pub open spec fn reduced(
    s: StrategyStateView,
    e: EventEnvelopeView,
    a: AppraisalView,
) -> Option<StrategyStateView> {
    if only_reports(e.event_type) {
        Some(s)
    } else {
        match e.event_type {
            EventType::DeferredBudgetAccrued => if s.audited_standard_quantity > 0 {
                None
            } else {
                Some(s)
            },
            EventType::AmbiguousBarDetected => match s.ambiguous_bars.checked_add(1) {
                Some(ambiguous_bars) => Some(StrategyStateView { ambiguous_bars, ..s }),
                None => None,
            },
            EventType::ServiceStopped => Some(
                if s.mode == ServiceMode::Running {
                    StrategyStateView { mode: ServiceMode::Stopped, ..s }
                } else {
                    s
                },
            ),
            EventType::GateDecisionMade => if e.schema_version < 2 {
                Some(s)
            } else {
                match e.payload {
                    PayloadView::Decision(x) => decision_made(s, x),
                    _ => None,
                }
            },
            EventType::MarketBarDecisionsCommitted => if e.schema_version < 2 {
                Some(s)
            } else {
                match e.payload {
                    PayloadView::Stage(x) => if stage_of_event(s, e, x) {
                        Some(s)
                    } else {
                        None
                    },
                    _ => None,
                }
            },
            _ => if on_grid(e.payload) {
                grid_reduced(s, e, a)
            } else if on_order(e.payload) {
                order_reduced(s, e, a)
            } else {
                run_reduced(s, e, a)
            },
        }
    }
}

/// The state after an event, or why it is refused.
pub open spec fn applied(s: StrategyStateView, e: EventEnvelopeView, a: AppraisalView) -> Result<
    StrategyStateView,
    EventError,
> {
    if !readable(e.event_type, e.schema_version) {
        Err(EventError::UnsupportedSchema)
    } else {
        match s.event_count.checked_add(1) {
            None => Err(EventError::CounterOverflow),
            Some(event_count) => match reduced(StrategyStateView { event_count, ..s }, e, a) {
                Some(n) => Ok(n),
                None => Err(EventError::Refused),
            },
        }
    }
}

fn move_of(t: EventType) -> (r: Option<BalanceMove>)
    ensures
        r == balance_move(t),
{
    match t {
        EventType::RightBalanceReserved => Some(BalanceMove::Reserve),
        EventType::RightBalanceReleased => Some(BalanceMove::Release),
        EventType::RightBalanceConsumed => Some(BalanceMove::Consume),
        EventType::RightBalanceRevoked => Some(BalanceMove::Revoke),
        EventType::RightBalanceExpired => Some(BalanceMove::Expire),
        _ => None,
    }
}

fn status_of_right(t: EventType) -> (r: Option<GridRightStatus>)
    ensures
        r == disposed_status(t),
{
    match t {
        EventType::GridRightDeferred => Some(GridRightStatus::Deferred),
        EventType::GridRightResidualHeld => Some(GridRightStatus::Residual),
        EventType::GridRightBlocked => Some(GridRightStatus::Blocked),
        EventType::GridRightReserved => Some(GridRightStatus::Reserved),
        EventType::GridRightPartiallyExercised => Some(GridRightStatus::PartiallyExercised),
        EventType::GridRightExercised => Some(GridRightStatus::Exercised),
        EventType::GridRightReleased => Some(GridRightStatus::Released),
        EventType::GridRightTransferred => Some(GridRightStatus::Transferred),
        EventType::GridRightExpired => Some(GridRightStatus::Expired),
        EventType::GridRightRevoked => Some(GridRightStatus::Revoked),
        _ => None,
    }
}

fn status_of_order(t: EventType) -> (r: Option<OrderStatus>)
    ensures
        r == notified_status(t),
{
    match t {
        EventType::OrderAccepted => Some(OrderStatus::Accepted),
        EventType::OrderCancelRequested => Some(OrderStatus::CancelPending),
        EventType::OrderRejected => Some(OrderStatus::Rejected),
        EventType::OrderCancelled => Some(OrderStatus::Cancelled),
        _ => None,
    }
}

fn is_report(t: EventType) -> (r: bool)
    ensures
        r == only_reports(t),
{
    match t {
        EventType::RunStarted
        | EventType::AlgorithmRegistered
        | EventType::PlatformUpgradeAuthorized
        | EventType::PlatformUpgradeActivated
        | EventType::ReplayInitialized
        | EventType::DeferredQuantityAccrued
        | EventType::LotOpened
        | EventType::LotPartiallyClosed
        | EventType::LotClosed
        | EventType::CashChanged
        | EventType::PositionChanged => true,
        _ => false,
    }
}

impl StrategyState {
    fn reduce_grid(&mut self, event: &EventEnvelope, appraisal: &Appraisal) -> (r: bool)
        ensures
            match grid_reduced(old(self)@, event@, appraisal@) {
                Some(n) => r && final(self)@ == n,
                None => !r,
            },
    {
        proof {
            reveal(grid_reduced);
        }
        match &event.payload {
            Payload::Level(x) => match event.event_type {
                EventType::GridLevelArmed => self.arm_level(event, x),
                _ => false,
            },
            Payload::LevelAt(x) => match event.event_type {
                EventType::GridLevelTouched => self.touch_level(event, x),
                EventType::GridLevelSkipped => self.skip_level(event, x),
                EventType::GridLevelRearmed => self.rearm_level(event, x),
                _ => false,
            },
            Payload::Right(x) => match event.event_type {
                EventType::GridRightGranted => self.grant_right(event, x, appraisal),
                _ => false,
            },
            Payload::Tranche(x) => match event.event_type {
                EventType::RightTrancheMinted => self.mint_tranche(event, x, appraisal),
                _ => false,
            },
            Payload::Transfer(x) => match event.event_type {
                EventType::RightBalanceTransferred => self.transfer_balance(event, x),
                _ => false,
            },
            Payload::Balance(x) => match move_of(event.event_type) {
                Some(m) => self.move_balance(m, x),
                None => false,
            },
            Payload::Disposition(x) => match status_of_right(event.event_type) {
                Some(next) => self.dispose_right(event, x, next),
                None => false,
            },
            _ => false,
        }
    }

    fn reduce_order(&mut self, event: &EventEnvelope, appraisal: &Appraisal) -> (r: bool)
        ensures
            match order_reduced(old(self)@, event@, appraisal@) {
                Some(n) => r && final(self)@ == n,
                None => !r,
            },
    {
        proof {
            reveal(order_reduced);
        }
        match &event.payload {
            Payload::Evaluation(x) => match event.event_type {
                EventType::InitialDeploymentEvaluated => self.evaluate_opening(event, x, appraisal),
                _ => false,
            },
            Payload::Activation(x) => match event.event_type {
                EventType::OngoingResourcePolicyActivated => self.activate_policy(x, appraisal),
                _ => false,
            },
            Payload::Intent(x) => match event.event_type {
                EventType::OrderIntentCreated => self.intend_order(event, x, appraisal),
                _ => false,
            },
            Payload::OrderAt(x) => match event.event_type {
                EventType::OrderSubmitted => self.submit_order(x),
                _ => match status_of_order(event.event_type) {
                    Some(next) => self.notify_order(event, x, next),
                    None => false,
                },
            },
            Payload::Fill(x) => match event.event_type {
                EventType::OrderPartiallyFilled => self.receive_fill(
                    event,
                    x,
                    OrderStatus::PartiallyFilled,
                    appraisal,
                ),
                EventType::OrderFilled => self.receive_fill(
                    event,
                    x,
                    OrderStatus::Filled,
                    appraisal,
                ),
                _ => false,
            },
            _ => false,
        }
    }

    fn reduce_run(&mut self, event: &EventEnvelope, appraisal: &Appraisal) -> (r: bool)
        ensures
            match run_reduced(old(self)@, event@, appraisal@) {
                Some(n) => r && final(self)@ == n,
                None => !r,
            },
    {
        proof {
            reveal(run_reduced);
        }
        match &event.payload {
            Payload::Day(x) => match event.event_type {
                EventType::TradingDayRolled => self.roll_day(x),
                _ => false,
            },
            Payload::Recovery(x) => match event.event_type {
                EventType::RecoveryCompleted => {
                    self.last_recovery = Some(x.dup());
                    true
                },
                _ => false,
            },
            Payload::Reconciliation(x) => match event.event_type {
                EventType::ReconciliationCompleted => {
                    self.reconcile(event, x);
                    true
                },
                _ => false,
            },
            Payload::Mode(x) => match (event.event_type, x) {
                (EventType::ServiceModeChanged, Some(mode)) => {
                    self.mode = *mode;
                    true
                },
                _ => false,
            },
            Payload::Reset(x) => match event.event_type {
                EventType::GridCycleReset => self.reset_cycle(event, x),
                _ => false,
            },
            Payload::Start(x) => match event.event_type {
                EventType::GridCycleStarted => self.start_cycle(event, x),
                _ => false,
            },
            Payload::Snapshot(x) => match event.event_type {
                EventType::ConfigSnapshotted => self.record_config(event, x),
                _ => false,
            },
            Payload::Error(x) => match event.event_type {
                EventType::ErrorRecorded => {
                    if let Some(entered) = x.entered_safe {
                        if entered {
                            self.mode = ServiceMode::Safe;
                        }
                    }
                    true
                },
                _ => false,
            },
            Payload::Stage(x) => match event.event_type {
                EventType::MarketBarProcessed => self.process_bar(event, x),
                EventType::MarketDataReceived => event.schema_version == 1 && self.note_close(
                    &x.close,
                ),
                _ => false,
            },
            Payload::Bar(x) => match event.event_type {
                EventType::MarketDataReceived => self.receive_bar(event, x, appraisal),
                _ => false,
            },
            _ => false,
        }
    }

    fn reduce(&mut self, event: &EventEnvelope, appraisal: &Appraisal) -> (r: bool)
        ensures
            match reduced(old(self)@, event@, appraisal@) {
                Some(n) => r && final(self)@ == n,
                None => !r,
            },
    {
        if is_report(event.event_type) {
            return true;
        }
        match event.event_type {
            EventType::DeferredBudgetAccrued => self.audited_standard_quantity <= 0,
            EventType::AmbiguousBarDetected => match self.ambiguous_bars.checked_add(1) {
                Some(n) => {
                    self.ambiguous_bars = n;
                    true
                },
                None => false,
            },
            EventType::ServiceStopped => {
                if matches!(self.mode, ServiceMode::Running) {
                    self.mode = ServiceMode::Stopped;
                }
                true
            },
            EventType::GateDecisionMade => {
                if event.schema_version < 2 {
                    return true;
                }
                match &event.payload {
                    Payload::Decision(x) => self.make_decision(x),
                    _ => false,
                }
            },
            EventType::MarketBarDecisionsCommitted => {
                if event.schema_version < 2 {
                    return true;
                }
                match &event.payload {
                    Payload::Stage(x) => self.is_stage_of_event(event, x),
                    _ => false,
                }
            },
            _ => match &event.payload {
                Payload::Level(_)
                | Payload::LevelAt(_)
                | Payload::Right(_)
                | Payload::Tranche(_)
                | Payload::Transfer(_)
                | Payload::Balance(_)
                | Payload::Disposition(_) => self.reduce_grid(event, appraisal),
                Payload::Evaluation(_)
                | Payload::Activation(_)
                | Payload::Intent(_)
                | Payload::OrderAt(_)
                | Payload::Fill(_) => self.reduce_order(event, appraisal),
                _ => self.reduce_run(event, appraisal),
            },
        }
    }

    /// Applies an event and counts it. An event that is refused leaves the state as
    /// it was.
    pub fn apply_event(&mut self, event: &EventEnvelope, appraisal: &Appraisal) -> (r: Result<
        (),
        EventError,
    >)
        ensures
            match applied(old(self)@, event@, appraisal@) {
                Ok(n) => r is Ok && final(self)@ == n,
                Err(e) => r == Err::<(), EventError>(e) && *final(self) == *old(self),
            },
            r is Ok ==> final(self)@.event_count == old(self)@.event_count + 1,
    {
        proof {
            if let Ok(n) = applied(self@, event@, appraisal@) {
                law_events_continue_the_run(self@, event@, appraisal@, n);
            }
        }
        if !is_readable(event.event_type, event.schema_version) {
            return Err(EventError::UnsupportedSchema);
        }
        let event_count: u64 = match self.event_count.checked_add(1) {
            Some(n) => n,
            None => {
                return Err(EventError::CounterOverflow);
            },
        };
        let mut next = self.dup();
        next.event_count = event_count;
        if next.reduce(event, appraisal) {
            *self = next;
            Ok(())
        } else {
            Err(EventError::Refused)
        }
    }
}

} // verus!

//! The order in which the worker acts on one message from the market: it stops
//! trading, works off the bars, and lets trading go on.
use crate::clock::Moment;
use crate::live::recovery::{
    bar_action, observation_resumes, observation_stops, resume_by_completion, resumed_by_completion,
    resumed_by_observation, stopped_by_observation, BarAction, Verdict,
};
use crate::live::schedule::{executable, LiveError};
use crate::model::ledger::ServiceMode;
use crate::model::market::MarketBarView;
use crate::model::remote::{MarketReceipt, MarketReceiptView, SourceObservation};
use vstd::prelude::*;

verus! {

/// How far the worker is with a message.
#[derive(Clone, Copy, Debug, PartialEq, Eq, Structural)]
pub enum MessageStage {
    /// Nothing was done yet.
    Judged,
    /// The bars before this one were worked off.
    Bars(usize),
    /// The observation may stop trading.
    Observation,
    /// The observation may let trading go on.
    Resumption,
    /// Nothing is left to do.
    Done,
}

/// Why trading stops.
#[derive(Clone, Copy, Debug, PartialEq, Eq, Structural)]
pub enum RecoveryReason {
    /// A completion does not vouch for the market.
    WatermarkCatchup,
    /// An observation of the source does not vouch for the market.
    ObservationCatchup,
}

impl RecoveryReason {
    /// The name of a reason.
    pub open spec fn spec_name(self) -> Seq<char> {
        match self {
            RecoveryReason::WatermarkCatchup => "EASTMONEY_LIVE_WATERMARK_CATCHUP"@,
            RecoveryReason::ObservationCatchup => "EASTMONEY_SOURCE_OBSERVATION_CATCHUP"@,
        }
    }

    /// The name of a reason.
    pub fn name(self) -> (r: &'static str)
        ensures
            r@ == self.spec_name(),
    {
        match self {
            RecoveryReason::WatermarkCatchup => "EASTMONEY_LIVE_WATERMARK_CATCHUP",
            RecoveryReason::ObservationCatchup => "EASTMONEY_SOURCE_OBSERVATION_CATCHUP",
        }
    }
}

/// What the worker does next.
#[derive(Clone, Copy, Debug, PartialEq, Eq, Structural)]
pub enum WorkerAction {
    /// Trading stops.
    EnterRecovery(RecoveryReason),
    /// A bar is worked off.
    Bar(usize, BarAction),
    /// Trading goes on with a watermark, once the accounts agree.
    Resume(u64),
    /// The message is worked off.
    Finish,
}

/// What is done with a bar.
pub open spec fn action_on(mode: ServiceMode, bar: MarketBarView) -> BarAction {
    if mode != ServiceMode::Running {
        BarAction::Recover
    } else if executable(bar.timestamp) {
        BarAction::Trade
    } else {
        BarAction::Store
    }
}

/// The next action from the last stage on.
pub open spec fn from_resumption(
    mode: ServiceMode,
    v: Verdict,
    received: bool,
    observed: Option<SourceObservation>,
    boundary: bool,
    now: Moment,
) -> (WorkerAction, MessageStage) {
    match observed {
        Some(o) => if resumed_by_observation(mode, v, received, boundary, now) {
            (WorkerAction::Resume(o.observed_at_us), MessageStage::Done)
        } else {
            (WorkerAction::Finish, MessageStage::Done)
        },
        None => (WorkerAction::Finish, MessageStage::Done),
    }
}

/// The next action once the completion was heard.
pub open spec fn from_observation(
    mode: ServiceMode,
    v: Verdict,
    received: bool,
    observed: Option<SourceObservation>,
    boundary: bool,
    now: Moment,
) -> (WorkerAction, MessageStage) {
    if stopped_by_observation(mode, v, received) {
        (
            WorkerAction::EnterRecovery(RecoveryReason::ObservationCatchup),
            MessageStage::Resumption,
        )
    } else {
        from_resumption(mode, v, received, observed, boundary, now)
    }
}

/// The next action once the bars were worked off.
pub open spec fn from_completion(
    mode: ServiceMode,
    v: Verdict,
    received: bool,
    observed: Option<SourceObservation>,
    boundary: bool,
    now: Moment,
) -> Result<(WorkerAction, MessageStage), LiveError> {
    match resumed_by_completion(mode, v, observed, boundary, now) {
        Err(e) => Err(e),
        Ok(Some(us)) => Ok((WorkerAction::Resume(us), MessageStage::Observation)),
        Ok(None) => Ok(from_observation(mode, v, received, observed, boundary, now)),
    }
}

/// The next action once the first `i` bars were worked off.
pub open spec fn from_bars(
    i: usize,
    mode: ServiceMode,
    v: Verdict,
    receipt: MarketReceiptView,
    received: bool,
    observed: Option<SourceObservation>,
    boundary: bool,
    now: Moment,
) -> Result<(WorkerAction, MessageStage), LiveError> {
    if i < receipt.bars.len() {
        Ok(
            (
                WorkerAction::Bar(i, action_on(mode, receipt.bars[i as int])),
                MessageStage::Bars((i + 1) as usize),
            ),
        )
    } else {
        from_completion(mode, v, received, observed, boundary, now)
    }
}

/// The next action on a message and the stage after it, by the mode in which the
/// service is by then. `received` is whether the message observed the source.
pub open spec fn next_step(
    stage: MessageStage,
    mode: ServiceMode,
    v: Verdict,
    receipt: MarketReceiptView,
    received: bool,
    observed: Option<SourceObservation>,
    boundary: bool,
    now: Moment,
) -> Result<(WorkerAction, MessageStage), LiveError> {
    match stage {
        MessageStage::Judged => if v.enter_recovery {
            Ok(
                (
                    WorkerAction::EnterRecovery(RecoveryReason::WatermarkCatchup),
                    MessageStage::Bars(0),
                ),
            )
        } else {
            from_bars(0, mode, v, receipt, received, observed, boundary, now)
        },
        MessageStage::Bars(i) => from_bars(i, mode, v, receipt, received, observed, boundary, now),
        MessageStage::Observation => Ok(
            from_observation(mode, v, received, observed, boundary, now),
        ),
        MessageStage::Resumption => Ok(from_resumption(mode, v, received, observed, boundary, now)),
        MessageStage::Done => Ok((WorkerAction::Finish, MessageStage::Done)),
    }
}

fn step_from_observation(
    mode: ServiceMode,
    v: &Verdict,
    received: bool,
    observed: Option<SourceObservation>,
    boundary: bool,
    now: Moment,
    stops: bool,
) -> (r: (WorkerAction, MessageStage))
    ensures
        r == (if stops {
            from_observation(mode, *v, received, observed, boundary, now)
        } else {
            from_resumption(mode, *v, received, observed, boundary, now)
        }),
{
    if stops && observation_stops(mode, v, received) {
        return (
            WorkerAction::EnterRecovery(RecoveryReason::ObservationCatchup),
            MessageStage::Resumption,
        );
    }
    if let Some(o) = observed {
        if observation_resumes(mode, v, received, boundary, now) {
            return (WorkerAction::Resume(o.observed_at_us), MessageStage::Done);
        }
    }
    (WorkerAction::Finish, MessageStage::Done)
}

fn step_from_completion(
    mode: ServiceMode,
    v: &Verdict,
    received: bool,
    observed: Option<SourceObservation>,
    boundary: bool,
    now: Moment,
) -> (r: Result<(WorkerAction, MessageStage), LiveError>)
    ensures
        r == from_completion(mode, *v, received, observed, boundary, now),
{
    match resume_by_completion(mode, v, observed, boundary, now) {
        Err(e) => Err(e),
        Ok(Some(us)) => Ok((WorkerAction::Resume(us), MessageStage::Observation)),
        Ok(None) => Ok(step_from_observation(mode, v, received, observed, boundary, now, true)),
    }
}

fn step_from_bars(
    i: usize,
    mode: ServiceMode,
    v: &Verdict,
    receipt: &MarketReceipt,
    received: bool,
    observed: Option<SourceObservation>,
    boundary: bool,
    now: Moment,
) -> (r: Result<(WorkerAction, MessageStage), LiveError>)
    ensures
        r == from_bars(i, mode, *v, receipt@, received, observed, boundary, now),
{
    if i < receipt.bars.len() {
        assert(receipt@.bars[i as int] == receipt.bars[i as int]@);
        Ok(
            (WorkerAction::Bar(i, bar_action(mode, &receipt.bars[i])), MessageStage::Bars(i + 1)),
        )
    } else {
        step_from_completion(mode, v, received, observed, boundary, now)
    }
}

/// What the worker does next with a message that was judged, and how far it is
/// then. The mode is the one in which the service is after what was done before, and
/// `received` is whether the message observed the source.
pub fn next_action(
    stage: MessageStage,
    mode: ServiceMode,
    v: &Verdict,
    receipt: &MarketReceipt,
    received: bool,
    observed: Option<SourceObservation>,
    boundary: bool,
    now: Moment,
) -> (r: Result<(WorkerAction, MessageStage), LiveError>)
    ensures
        r == next_step(stage, mode, *v, receipt@, received, observed, boundary, now),
{
    match stage {
        MessageStage::Judged => {
            if v.enter_recovery {
                Ok(
                    (
                        WorkerAction::EnterRecovery(RecoveryReason::WatermarkCatchup),
                        MessageStage::Bars(0),
                    ),
                )
            } else {
                step_from_bars(0, mode, v, receipt, received, observed, boundary, now)
            }
        },
        MessageStage::Bars(i) => step_from_bars(i, mode, v, receipt, received, observed, boundary, now),
        MessageStage::Observation => Ok(
            step_from_observation(mode, v, received, observed, boundary, now, true),
        ),
        MessageStage::Resumption => Ok(
            step_from_observation(mode, v, received, observed, boundary, now, false),
        ),
        MessageStage::Done => Ok((WorkerAction::Finish, MessageStage::Done)),
    }
}

/// How many steps come before a stage at most.
pub open spec fn place(stage: MessageStage, bars: nat) -> nat {
    match stage {
        MessageStage::Judged => 0,
        MessageStage::Bars(i) => 1 + i as nat,
        MessageStage::Observation => bars + 2,
        MessageStage::Resumption => bars + 3,
        MessageStage::Done => bars + 4,
    }
}

/// A message is worked off in order and comes to its end: each step is later than
/// the one before, every bar is worked off once, in the order of the message, and
/// trading goes on only when no bar is left.
pub proof fn law_messages_are_worked_off_in_order(
    stage: MessageStage,
    mode: ServiceMode,
    v: Verdict,
    receipt: MarketReceiptView,
    received: bool,
    observed: Option<SourceObservation>,
    boundary: bool,
    now: Moment,
)
    requires
        receipt.bars.len() <= usize::MAX,
        stage matches MessageStage::Bars(i) ==> i <= receipt.bars.len(),
    ensures
        next_step(stage, mode, v, receipt, received, observed, boundary, now) matches Ok(
            (action, next),
        ) ==> {
            &&& action != WorkerAction::Finish ==> place(next, receipt.bars.len()) > place(
                stage,
                receipt.bars.len(),
            )
            &&& action == WorkerAction::Finish ==> next == MessageStage::Done
            &&& next matches MessageStage::Bars(i) ==> i <= receipt.bars.len()
            &&& action matches WorkerAction::Bar(i, _) ==> {
                &&& next == MessageStage::Bars((i + 1) as usize)
                &&& stage == MessageStage::Bars(i) || (stage == MessageStage::Judged && i == 0)
            }
            &&& action is Resume ==> (stage == MessageStage::Judged ==> receipt.bars.len() == 0)
                && (stage matches MessageStage::Bars(i) ==> i == receipt.bars.len())
        },
{
}

} // verus!

//! The run itself: its configuration, its cycles, its bars and its mode.
use crate::account::rolled_position;
use crate::clock::{read_day, Day, Moment};
use crate::config::{snapshot_fault, SnapshotPayload, SnapshotPayloadView};
use crate::data::{bar_fault, bar_text, market_evidence_sha256, validate_bar};
use crate::decimal::{from_parts, read_decimal, Decimal};
use crate::decision::{
    response_fault, DECISION_CONTRACT_VERSION, WHOLE_UNIT_DECISION_CONTRACT_VERSION,
};
use crate::digest::{id_of, named_id, sha256_hex, sha256_hex_text, text_digest};
use crate::event::disposition::{amount_in, read_amount};
use crate::event::levels::of_this_cycle;
use crate::event::payload::{EventEnvelope, EventEnvelopeView};
use crate::event::tranches::right_of;
use crate::model::gates::{DecisionRequestView, DecisionResponseView};
use crate::model::ledger::{
    profit_guard_policy_alike, InitialDeploymentOutcome, OngoingResourcePolicyActivation,
    OngoingResourcePolicyActivationView, OrderStatus, OrderView, ProfitGuardPolicy,
    ReconciliationResult, ReconciliationResultView, ServiceMode, StrategyState, StrategyStateView,
};
use crate::model::market::{
    Direction, MarketBar, MarketBarView, PendingMarketEvidence, PendingMarketEvidenceView,
};
use crate::model::notices::{
    Appraisal, AppraisalView, DecisionNotice, DecisionNoticeView, ResetNotice, ResetNoticeView,
    StageNotice, StageNoticeView,
};
use crate::model::rights::{GridRightStatus, GridRightView, RightTrancheView};
use crate::model::settings::{config_alike, Config, ConfigView};
use crate::notation::config_digest;
use crate::policy::policy_of;
use crate::table::{with, Table};
use crate::text::{blank, is_blank, join, text_eq};
use crate::value::Value;
use vstd::prelude::*;

verus! {

/// The state on another trading day.
pub open spec fn day_rolled(s: StrategyStateView, date: Option<Seq<char>>) -> Option<
    StrategyStateView,
> {
    match date {
        None => None,
        Some(text) => match read_day(text, "%Y-%m-%d"@) {
            None => None,
            Some(n) => match rolled_position(s.position, s.current_trade_date, Day::of(n)) {
                None => None,
                Some(position) => Some(
                    StrategyStateView {
                        position,
                        current_trade_date: Some(Day::of(n)),
                        ..s
                    },
                ),
            },
        },
    }
}

/// The state after a comparison with the broker: a difference stops trading.
pub open spec fn reconciled(
    s: StrategyStateView,
    e: EventEnvelopeView,
    result: ReconciliationResultView,
) -> StrategyStateView {
    StrategyStateView {
        mode: if result.matched {
            s.mode
        } else {
            ServiceMode::Safe
        },
        last_reconciliation: Some(result),
        last_reconciliation_event_sequence: Some(e.sequence_number),
        ..s
    }
}

/// Whether a right of a cycle has not come to its end.
pub open spec fn right_active(right: GridRightView, cycle: Seq<char>) -> bool {
    right.cycle_id == cycle && !right.status.final_status()
}

/// Whether a tranche of a cycle still holds something.
pub open spec fn tranche_active(t: RightTrancheView, cycle: Seq<char>) -> bool {
    t.cycle_id == cycle && (t.available_budget.units() > 0 || t.reserved_budget.units() > 0
        || t.available_quantity > 0 || t.reserved_quantity > 0)
}

/// Whether an order completed a sell in a cycle.
pub open spec fn sold_in_cycle(s: StrategyStateView, order: OrderView) -> bool {
    &&& order.status == OrderStatus::Filled
    &&& order.intent.direction == Direction::Sell
    &&& right_of(s, order.intent.right_id) matches Some(right)
    &&& right.cycle_id == s.cycle_id
}

/// Whether a cycle is complete: nothing of it is left, and something was sold.
pub open spec fn cycle_complete(s: StrategyStateView) -> bool {
    &&& forall|i: int|
        0 <= i < s.lots.len() ==> (#[trigger] s.lots[i].1).remaining_quantity <= 0
    &&& forall|i: int|
        0 <= i < s.grid_rights.len() ==> !right_active(#[trigger] s.grid_rights[i].1, s.cycle_id)
    &&& forall|i: int|
        0 <= i < s.right_tranches.len() ==> !tranche_active(
            #[trigger] s.right_tranches[i].1,
            s.cycle_id,
        )
    &&& forall|i: int| 0 <= i < s.orders.len() ==> (#[trigger] s.orders[i].1).status.terminal()
    &&& exists|i: int| 0 <= i < s.orders.len() && sold_in_cycle(s, #[trigger] s.orders[i].1)
}

/// The identifier of the cycle that follows at a time.
pub open spec fn next_cycle(run_id: Seq<char>, at: Moment) -> Seq<char> {
    named_id(run_id + ":cycle-reset:"@ + crate::clock::moment_text(at.d(), at.s(), at.n()))
}

/// Whether a cycle may be followed by the next one.
pub open spec fn reset_allowed(
    s: StrategyStateView,
    e: EventEnvelopeView,
    p: ResetNoticeView,
) -> bool {
    e.schema_version >= 2 ==> {
        &&& s.audited_config matches Some(c)
        &&& of_this_cycle(s, e, c)
        &&& p.previous_cycle_id == Some(s.cycle_id)
        &&& p.cycle_id == Some(next_cycle(s.run_id, e.event_time))
        &&& cycle_complete(s)
    }
}

/// The state at the start of the next cycle.
pub open spec fn cycle_reset(
    s: StrategyStateView,
    e: EventEnvelopeView,
    p: ResetNoticeView,
) -> Option<StrategyStateView> {
    if !reset_allowed(s, e, p) {
        None
    } else {
        match p.cycle_id {
            None => Some(s),
            Some(cycle_id) => Some(
                StrategyStateView {
                    cycle_id,
                    grid_cycle_active: true,
                    deployed_grid_budget: Decimal::zero(),
                    levels: Seq::empty(),
                    ..s
                },
            ),
        }
    }
}

/// Whether the first cycle may start: on an empty grid at the audited anchor.
pub open spec fn start_allowed(
    s: StrategyStateView,
    e: EventEnvelopeView,
    anchor: Option<Seq<char>>,
) -> bool {
    e.schema_version >= 2 ==> {
        &&& s.audited_config matches Some(c)
        &&& s.cycle_id.len() == 0 || e.cycle_id == s.cycle_id
        &&& e.config_version == c.config_version
        &&& read_amount(anchor) matches Some(price)
        &&& price.units() == c.anchor_price.units()
        &&& s.levels.len() == 0
        &&& s.grid_rights.len() == 0
        &&& s.right_tranches.len() == 0
    }
}

/// The state after the first cycle starts.
pub open spec fn cycle_started(
    s: StrategyStateView,
    e: EventEnvelopeView,
    anchor: Option<Seq<char>>,
) -> Option<StrategyStateView> {
    if start_allowed(s, e, anchor) {
        Some(StrategyStateView { cycle_id: e.cycle_id, grid_cycle_active: true, ..s })
    } else {
        None
    }
}

/// Whether a snapshot belongs to the run.
pub open spec fn snapshot_of_run(
    s: StrategyStateView,
    e: EventEnvelopeView,
    p: SnapshotPayloadView,
) -> bool {
    e.schema_version >= 2 ==> {
        &&& p.content_sha256 is Some
        &&& p.config.symbol == s.symbol
        &&& e.symbol == p.config.symbol
        &&& p.config.anchor_price.units() == s.anchor_price.units()
        &&& e.config_version == p.config.config_version
        &&& p.config.standard_quantity > 0
    }
}

/// Whether a configuration is the audited one, if there is one.
pub open spec fn audit_unchanged(s: StrategyStateView, c: ConfigView) -> bool {
    &&& s.audited_config is Some ==> config_alike(s.audited_config->0, c)
    &&& s.audited_profit_guard_policy is Some ==> profit_guard_policy_alike(
        s.audited_profit_guard_policy->0,
        policy_of(c),
    )
    &&& c.standard_quantity > 0 ==> {
        &&& s.audited_standard_quantity == 0 || s.audited_standard_quantity == c.standard_quantity
        &&& s.audited_lot_size == 0 || s.audited_lot_size == c.lot_size
    }
}

/// The state after its configuration is recorded.
pub open spec fn config_recorded(
    s: StrategyStateView,
    e: EventEnvelopeView,
    p: SnapshotPayloadView,
) -> Option<StrategyStateView> {
    if snapshot_fault(p) is None && snapshot_of_run(s, e, p) && audit_unchanged(s, p.config) {
        Some(
            StrategyStateView {
                audited_config: Some(p.config),
                audited_profit_guard_policy: Some(policy_of(p.config)),
                audited_standard_quantity: if p.config.standard_quantity > 0 {
                    p.config.standard_quantity
                } else {
                    s.audited_standard_quantity
                },
                audited_lot_size: if p.config.standard_quantity > 0 {
                    p.config.lot_size
                } else {
                    s.audited_lot_size
                },
                ..s
            },
        )
    } else {
        None
    }
}

/// Whether the algorithm of a decision succeeded. The contract with evidence has
/// to say it.
pub open spec fn algorithm_status(p: DecisionNoticeView, contract: u32) -> Option<bool> {
    match p.algorithm_succeeded {
        Some(b) => Some(b),
        None => if contract >= DECISION_CONTRACT_VERSION {
            None
        } else {
            Some(true)
        },
    }
}

/// A right after its decision is recorded.
pub open spec fn decision_noted(
    right: GridRightView,
    q: DecisionRequestView,
    r: DecisionResponseView,
    succeeded: bool,
) -> Option<GridRightView> {
    let in_units = r.contract_version >= WHOLE_UNIT_DECISION_CONTRACT_VERSION;
    let with_evidence = r.contract_version >= DECISION_CONTRACT_VERSION;
    let authorized = if with_evidence {
        q.context.algorithm_authorized_quantity
    } else {
        q.context.available_quantity
    };
    if right.decision_recorded {
        None
    } else {
        match authorized.checked_sub(q.context.available_quantity) {
            None => None,
            Some(pre_blocked) => Some(
                GridRightView {
                    decision_contract_version: r.contract_version,
                    decision_gross_available_quantity: if in_units {
                        q.context.gross_available_quantity
                    } else {
                        q.context.available_quantity
                    },
                    decision_platform_residual_quantity: if in_units {
                        q.context.platform_residual_quantity
                    } else {
                        0
                    },
                    decision_algorithm_authorized_quantity: authorized,
                    decision_algorithm_offered_quantity: q.context.available_quantity,
                    decision_pre_blocked_quantity: pre_blocked,
                    decided_exercise_quantity: r.outcome.exercised(),
                    decided_defer_quantity: r.outcome.deferred(),
                    decision_is_algorithm: succeeded,
                    decision_recorded: true,
                    ..right
                },
            ),
        }
    }
}

/// The state after a decision on a right is recorded.
pub open spec fn decision_made(s: StrategyStateView, p: DecisionNoticeView) -> Option<
    StrategyStateView,
> {
    match (p.request, p.response) {
        (Some(q), Some(r)) => match algorithm_status(p, q.contract_version) {
            None => None,
            Some(succeeded) => if response_fault(r, q, succeeded) is Some
                || q.context.standard_quantity != s.audited_standard_quantity || q.context.lot_size
                != s.audited_lot_size {
                None
            } else {
                match right_of(s, r.right_id) {
                    None => None,
                    Some(right) => match decision_noted(right, q, r, succeeded) {
                        None => None,
                        Some(n) => Some(
                            StrategyStateView {
                                grid_rights: with::<String, GridRightView>(
                                    s.grid_rights,
                                    r.right_id,
                                    n,
                                ),
                                ..s
                            },
                        ),
                    },
                }
            },
        },
        _ => None,
    }
}

/// Whether a stage of a bar belongs to the event that reports it.
pub open spec fn stage_of_event(
    s: StrategyStateView,
    e: EventEnvelopeView,
    p: StageNoticeView,
) -> bool {
    e.schema_version >= 2 ==> {
        &&& s.audited_config matches Some(c)
        &&& of_this_cycle(s, e, c)
        &&& e.symbol == s.symbol
        &&& p.symbol == Some(e.symbol)
        &&& p.timestamp == Some(e.event_time)
    }
}

/// The state with the closing price that a payload gives, if it gives one.
pub open spec fn close_noted(s: StrategyStateView, close: Option<Seq<char>>) -> Option<
    StrategyStateView,
> {
    match close {
        None => Some(s),
        Some(text) => match from_parts(read_decimal(text)) {
            None => None,
            Some(price) => Some(StrategyStateView { last_price: Some(price), ..s }),
        },
    }
}

/// The state after a bar is processed.
pub open spec fn bar_processed(
    s: StrategyStateView,
    e: EventEnvelopeView,
    p: StageNoticeView,
) -> Option<StrategyStateView> {
    if !stage_of_event(s, e, p) {
        None
    } else {
        match close_noted(s, p.close) {
            None => None,
            Some(n) => {
                let pending = n.pending_market_evidence;
                if pending is Some && pending->0.bar.symbol == e.symbol && pending->0.bar.timestamp
                    == e.event_time {
                    Some(StrategyStateView { pending_market_evidence: None, ..n })
                } else {
                    Some(n)
                }
            },
        }
    }
}

/// The state after a bar is received. In the first layout its close is noted and
/// nothing else.
pub open spec fn bar_received(
    s: StrategyStateView,
    e: EventEnvelopeView,
    bar: MarketBarView,
    a: AppraisalView,
) -> Option<StrategyStateView> {
    if e.schema_version == 1 {
        Some(StrategyStateView { last_price: Some(bar.close), ..s })
    } else {
        match s.audited_config {
            None => None,
            Some(c) => bar_pending(s, e, bar, c),
        }
    }
}

/// The state in which a bar of the run waits to be processed.
pub open spec fn bar_pending(
    s: StrategyStateView,
    e: EventEnvelopeView,
    bar: MarketBarView,
    c: ConfigView,
) -> Option<StrategyStateView> {
    if bar_fault(bar, s.symbol) is None && e.run_id == s.run_id && e.symbol == s.symbol
        && of_this_cycle(s, e, c) && bar.symbol == e.symbol && bar.timestamp == e.event_time {
        Some(
            StrategyStateView {
                pending_market_evidence: Some(
                    PendingMarketEvidenceView {
                        event_id: e.event_id,
                        evidence_sha256: text_digest(bar_text(bar)),
                        bar,
                    },
                ),
                ..s
            },
        )
    } else {
        None
    }
}

/// Whether an activation of the ongoing resource policy is the one that the
/// opening allows.
pub open spec fn activation_allowed(
    s: StrategyStateView,
    x: OngoingResourcePolicyActivationView,
    a: AppraisalView,
) -> bool {
    &&& s.ongoing_resource_policy is None
    &&& s.audited_config matches Some(c)
    &&& s.initial_deployment_evaluation matches Some(opening)
    &&& opening.outcome == InitialDeploymentOutcome::Authorized
    &&& x.policy_version == a.resource_policy_version
    &&& x.minimum_free_cash.units() == 0
    &&& x.position_limit_mode == "NUMERIC_SAFETY_ONLY"@
    &&& x.effective_max_position == c.max_position
    &&& x.config_content_sha256 == config_digest(c, true, true)
    &&& x.initial_deployment_id == opening.deployment_id
    &&& x.initial_deployment_sha256 == sha256_hex_text(a.encoded_opening)
    &&& !blank(x.reason_code)
    &&& !blank(x.operator)
}

/// The state after the ongoing resource policy is activated.
pub open spec fn policy_activated(
    s: StrategyStateView,
    x: OngoingResourcePolicyActivationView,
    a: AppraisalView,
) -> Option<StrategyStateView> {
    if activation_allowed(s, x, a) {
        Some(StrategyStateView { ongoing_resource_policy: Some(x), ..s })
    } else {
        None
    }
}

impl StrategyState {
    pub(crate) fn roll_day(&mut self, date: &Option<String>) -> (r: bool)
        ensures
            match day_rolled(old(self)@, date.deep_view()) {
                Some(n) => r && final(self)@ == n,
                None => !r,
            },
    {
        match date {
            None => false,
            Some(text) => match Day::parse(text.as_str(), "%Y-%m-%d") {
                None => false,
                Some(day) => self.roll_trading_day(day).is_ok(),
            },
        }
    }

    pub(crate) fn reconcile(&mut self, event: &EventEnvelope, result: &ReconciliationResult)
        ensures
            final(self)@ == reconciled(old(self)@, event@, result@),
    {
        if !result.matched {
            self.mode = ServiceMode::Safe;
        }
        self.last_reconciliation = Some(result.dup());
        self.last_reconciliation_event_sequence = Some(event.sequence_number);
    }

    fn lots_are_closed(&self) -> (r: bool)
        ensures
            r == forall|i: int|
                0 <= i < self@.lots.len() ==> (#[trigger] self@.lots[i].1).remaining_quantity <= 0,
    {
        let ghost all = self@.lots;
        let mut i: usize = 0;
        while i < self.lots.len()
            invariant
                i <= all.len(),
                all == self@.lots,
                all == self.lots@,
                forall|j: int| 0 <= j < i ==> (#[trigger] all[j].1).remaining_quantity <= 0,
            decreases all.len() - i,
        {
            let lot = self.lots.value_at(i);
            assert(lot@ == all[i as int].1);
            if lot.remaining_quantity > 0 {
                assert(!(all[i as int].1.remaining_quantity <= 0));
                return false;
            }
            i = i + 1;
        }
        true
    }

    fn rights_are_ended(&self) -> (r: bool)
        ensures
            r == forall|i: int|
                0 <= i < self@.grid_rights.len() ==> !right_active(
                    #[trigger] self@.grid_rights[i].1,
                    self@.cycle_id,
                ),
    {
        let ghost all = self@.grid_rights;
        let mut i: usize = 0;
        while i < self.grid_rights.len()
            invariant
                i <= all.len(),
                all == self@.grid_rights,
                all == self.grid_rights@,
                forall|j: int|
                    0 <= j < i ==> !right_active(#[trigger] all[j].1, self@.cycle_id),
            decreases all.len() - i,
        {
            let right = self.grid_rights.value_at(i);
            assert(right@ == all[i as int].1);
            if text_eq(right.cycle_id.as_str(), self.cycle_id.as_str()) && !matches!(
                right.status,
                GridRightStatus::Exercised
                    | GridRightStatus::Transferred
                    | GridRightStatus::Expired
                    | GridRightStatus::Revoked
            ) {
                assert(right_active(all[i as int].1, self@.cycle_id));
                return false;
            }
            i = i + 1;
        }
        true
    }

    fn tranches_are_spent(&self) -> (r: bool)
        ensures
            r == forall|i: int|
                0 <= i < self@.right_tranches.len() ==> !tranche_active(
                    #[trigger] self@.right_tranches[i].1,
                    self@.cycle_id,
                ),
    {
        let ghost all = self@.right_tranches;
        let mut i: usize = 0;
        while i < self.right_tranches.len()
            invariant
                i <= all.len(),
                all == self@.right_tranches,
                all == self.right_tranches@,
                forall|j: int|
                    0 <= j < i ==> !tranche_active(#[trigger] all[j].1, self@.cycle_id),
            decreases all.len() - i,
        {
            let t = self.right_tranches.value_at(i);
            assert(t@ == all[i as int].1);
            if text_eq(t.cycle_id.as_str(), self.cycle_id.as_str()) && (
            t.available_budget.is_positive() || t.reserved_budget.is_positive()
                || t.available_quantity > 0 || t.reserved_quantity > 0) {
                assert(tranche_active(all[i as int].1, self@.cycle_id));
                return false;
            }
            i = i + 1;
        }
        true
    }

    fn has_sold(&self, order: &crate::model::ledger::Order) -> (r: bool)
        ensures
            r == sold_in_cycle(self@, order@),
    {
        if !matches!(order.status, OrderStatus::Filled) || !matches!(
            order.intent.direction,
            Direction::Sell
        ) {
            return false;
        }
        match self.grid_rights.get(&order.intent.right_id) {
            Some(right) => text_eq(right.cycle_id.as_str(), self.cycle_id.as_str()),
            None => false,
        }
    }

    fn orders_are_done(&self) -> (r: bool)
        ensures
            r == ((forall|i: int|
                0 <= i < self@.orders.len() ==> (#[trigger] self@.orders[i].1).status.terminal())
                && (exists|i: int|
                0 <= i < self@.orders.len() && sold_in_cycle(self@, #[trigger] self@.orders[i].1))),
    {
        let ghost all = self@.orders;
        let mut sold = false;
        let mut i: usize = 0;
        while i < self.orders.len()
            invariant
                i <= all.len(),
                all == self@.orders,
                all == self.orders@,
                forall|j: int| 0 <= j < i ==> (#[trigger] all[j].1).status.terminal(),
                sold == exists|j: int| 0 <= j < i && sold_in_cycle(self@, #[trigger] all[j].1),
            decreases all.len() - i,
        {
            let order = self.orders.value_at(i);
            assert(order@ == all[i as int].1);
            if order.status.is_open() {
                assert(!all[i as int].1.status.terminal());
                return false;
            }
            if self.has_sold(order) {
                assert(sold_in_cycle(self@, all[i as int].1));
                sold = true;
            }
            i = i + 1;
        }
        sold
    }

    fn reset_is_allowed(&self, event: &EventEnvelope, notice: &ResetNotice) -> (r: bool)
        ensures
            r == reset_allowed(self@, event@, notice@),
    {
        if event.schema_version < 2 {
            return true;
        }
        let config = match &self.audited_config {
            Some(c) => c,
            None => {
                return false;
            },
        };
        let name = join(self.run_id.as_str(), ":cycle-reset:");
        let at = event.event_time.text();
        let name = join(name.as_str(), at.as_str());
        let expected = id_of(name.as_str());
        let named = match (&notice.previous_cycle_id, &notice.cycle_id) {
            (Some(previous), Some(next)) => text_eq(previous.as_str(), self.cycle_id.as_str())
                && text_eq(next.as_str(), expected.as_str()),
            _ => false,
        };
        text_eq(event.cycle_id.as_str(), self.cycle_id.as_str()) && text_eq(
            event.config_version.as_str(),
            config.config_version.as_str(),
        ) && named && self.lots_are_closed() && self.rights_are_ended() && self.tranches_are_spent()
            && self.orders_are_done()
    }

    pub(crate) fn reset_cycle(&mut self, event: &EventEnvelope, notice: &ResetNotice) -> (r: bool)
        ensures
            match cycle_reset(old(self)@, event@, notice@) {
                Some(n) => r && final(self)@ == n,
                None => !r,
            },
    {
        if !self.reset_is_allowed(event, notice) {
            return false;
        }
        if let Some(cycle_id) = &notice.cycle_id {
            self.cycle_id = cycle_id.dup();
            self.grid_cycle_active = true;
            self.deployed_grid_budget = Decimal::nil();
            self.levels = Table::new();
        }
        true
    }

    fn start_is_allowed(&self, event: &EventEnvelope, anchor: &Option<String>) -> (r: bool)
        ensures
            r == start_allowed(self@, event@, anchor.deep_view()),
    {
        if event.schema_version < 2 {
            return true;
        }
        match (&self.audited_config, amount_in(anchor)) {
            (Some(config), Some(price)) => (self.cycle_id.as_str().unicode_len() == 0 || text_eq(
                event.cycle_id.as_str(),
                self.cycle_id.as_str(),
            )) && text_eq(event.config_version.as_str(), config.config_version.as_str())
                && price.equals(&config.anchor_price) && self.levels.is_empty()
                && self.grid_rights.is_empty() && self.right_tranches.is_empty(),
            _ => false,
        }
    }

    pub(crate) fn start_cycle(&mut self, event: &EventEnvelope, anchor: &Option<String>) -> (r:
        bool)
        ensures
            match cycle_started(old(self)@, event@, anchor.deep_view()) {
                Some(n) => r && final(self)@ == n,
                None => !r,
            },
    {
        if !self.start_is_allowed(event, anchor) {
            return false;
        }
        self.cycle_id = event.cycle_id.dup();
        self.grid_cycle_active = true;
        true
    }

    fn snapshot_is_of_run(&self, event: &EventEnvelope, p: &SnapshotPayload) -> (r: bool)
        ensures
            r == snapshot_of_run(self@, event@, p@),
    {
        event.schema_version < 2 || (p.content_sha256.is_some() && text_eq(
            p.config.symbol.as_str(),
            self.symbol.as_str(),
        ) && text_eq(event.symbol.as_str(), p.config.symbol.as_str()) && p.config.anchor_price.equals(
            &self.anchor_price,
        ) && text_eq(event.config_version.as_str(), p.config.config_version.as_str())
            && p.config.standard_quantity > 0)
    }

    fn audit_is_unchanged(&self, config: &Config) -> (r: bool)
        ensures
            r == audit_unchanged(self@, config@),
    {
        let same_config = match &self.audited_config {
            Some(audited) => audited.alike(config),
            None => true,
        };
        let terms = ProfitGuardPolicy::from(config);
        let same_terms = match &self.audited_profit_guard_policy {
            Some(audited) => audited.alike(&terms),
            None => true,
        };
        same_config && same_terms && (config.standard_quantity <= 0 || ((
        self.audited_standard_quantity == 0 || self.audited_standard_quantity
            == config.standard_quantity) && (self.audited_lot_size == 0 || self.audited_lot_size
            == config.lot_size)))
    }

    pub(crate) fn record_config(&mut self, event: &EventEnvelope, p: &SnapshotPayload) -> (r: bool)
        ensures
            match config_recorded(old(self)@, event@, p@) {
                Some(n) => r && final(self)@ == n,
                None => !r,
            },
    {
        if p.check().is_err() || !self.snapshot_is_of_run(event, p) || !self.audit_is_unchanged(
            &p.config,
        ) {
            return false;
        }
        self.audited_profit_guard_policy = Some(ProfitGuardPolicy::from(&p.config));
        if p.config.uses_fixed_quantity() {
            self.audited_standard_quantity = p.config.standard_quantity;
            self.audited_lot_size = p.config.lot_size;
        }
        self.audited_config = Some(p.config.dup());
        true
    }

    pub(crate) fn make_decision(&mut self, notice: &DecisionNotice) -> (r: bool)
        ensures
            match decision_made(old(self)@, notice@) {
                Some(n) => r && final(self)@ == n,
                None => !r,
            },
    {
        let (request, response) = match (&notice.request, &notice.response) {
            (Some(request), Some(response)) => (request, response),
            _ => {
                return false;
            },
        };
        let succeeded = match notice.algorithm_succeeded {
            Some(b) => b,
            None => {
                if request.contract_version >= DECISION_CONTRACT_VERSION {
                    return false;
                }
                true
            },
        };
        if response.validate_for_algorithm_status(request, succeeded).is_err() {
            return false;
        }
        let c = &request.context;
        if c.standard_quantity != self.audited_standard_quantity || c.lot_size
            != self.audited_lot_size {
            return false;
        }
        let mut right = match self.grid_rights.get(&response.right_id) {
            Some(right) => right.dup(),
            None => {
                return false;
            },
        };
        if right.decision_recorded {
            return false;
        }
        let in_units = response.contract_version >= WHOLE_UNIT_DECISION_CONTRACT_VERSION;
        let authorized: i64 = if response.contract_version >= DECISION_CONTRACT_VERSION {
            c.algorithm_authorized_quantity
        } else {
            c.available_quantity
        };
        let pre_blocked: i64 = match authorized.checked_sub(c.available_quantity) {
            Some(q) => q,
            None => {
                return false;
            },
        };
        let (exercise, defer): (i64, i64) = response.outcome.quantities();
        right.decision_contract_version = response.contract_version;
        right.decision_gross_available_quantity = if in_units {
            c.gross_available_quantity
        } else {
            c.available_quantity
        };
        right.decision_platform_residual_quantity = if in_units {
            c.platform_residual_quantity
        } else {
            0
        };
        right.decision_algorithm_authorized_quantity = authorized;
        right.decision_algorithm_offered_quantity = c.available_quantity;
        right.decision_pre_blocked_quantity = pre_blocked;
        right.decided_exercise_quantity = exercise;
        right.decided_defer_quantity = defer;
        right.decision_is_algorithm = succeeded;
        right.decision_recorded = true;
        self.grid_rights.put(response.right_id.dup(), right);
        true
    }

    pub(crate) fn is_stage_of_event(&self, event: &EventEnvelope, p: &StageNotice) -> (r: bool)
        ensures
            r == stage_of_event(self@, event@, p@),
    {
        if event.schema_version < 2 {
            return true;
        }
        match (&self.audited_config, &p.symbol, &p.timestamp) {
            (Some(config), Some(symbol), Some(at)) => text_eq(
                event.cycle_id.as_str(),
                self.cycle_id.as_str(),
            ) && text_eq(event.config_version.as_str(), config.config_version.as_str()) && text_eq(
                event.symbol.as_str(),
                self.symbol.as_str(),
            ) && text_eq(symbol.as_str(), event.symbol.as_str()) && at.same(&event.event_time),
            _ => false,
        }
    }

    pub(crate) fn note_close(&mut self, close: &Option<String>) -> (r: bool)
        ensures
            match close_noted(old(self)@, close.deep_view()) {
                Some(n) => r && final(self)@ == n,
                None => !r,
            },
    {
        match close {
            None => true,
            Some(text) => match Decimal::parse(text.as_str()) {
                None => false,
                Some(price) => {
                    self.last_price = Some(price);
                    true
                },
            },
        }
    }

    pub(crate) fn process_bar(&mut self, event: &EventEnvelope, p: &StageNotice) -> (r: bool)
        ensures
            match bar_processed(old(self)@, event@, p@) {
                Some(n) => r && final(self)@ == n,
                None => !r,
            },
    {
        if !self.is_stage_of_event(event, p) {
            return false;
        }
        if !self.note_close(&p.close) {
            return false;
        }
        let done = match &self.pending_market_evidence {
            Some(pending) => text_eq(pending.bar.symbol.as_str(), event.symbol.as_str())
                && pending.bar.timestamp.same(&event.event_time),
            None => false,
        };
        if done {
            self.pending_market_evidence = None;
        }
        true
    }

    pub(crate) fn receive_bar(
        &mut self,
        event: &EventEnvelope,
        bar: &MarketBar,
        appraisal: &Appraisal,
    ) -> (r: bool)
        ensures
            match bar_received(old(self)@, event@, bar@, appraisal@) {
                Some(n) => r && final(self)@ == n,
                None => !r,
            },
    {
        if event.schema_version == 1 {
            self.last_price = Some(bar.close);
            return true;
        }
        if validate_bar(bar, self.symbol.as_str()).is_err() {
            return false;
        }
        let of_run = match &self.audited_config {
            None => false,
            Some(config) => text_eq(event.run_id.as_str(), self.run_id.as_str()) && text_eq(
                event.symbol.as_str(),
                self.symbol.as_str(),
            ) && text_eq(event.cycle_id.as_str(), self.cycle_id.as_str()) && text_eq(
                event.config_version.as_str(),
                config.config_version.as_str(),
            ) && text_eq(bar.symbol.as_str(), event.symbol.as_str()) && bar.timestamp.same(
                &event.event_time,
            ),
        };
        if !of_run {
            return false;
        }
        self.pending_market_evidence = Some(
            PendingMarketEvidence {
                event_id: event.event_id.dup(),
                evidence_sha256: market_evidence_sha256(bar),
                bar: bar.dup(),
            },
        );
        true
    }

    pub(crate) fn activate_policy(
        &mut self,
        x: &OngoingResourcePolicyActivation,
        appraisal: &Appraisal,
    ) -> (r: bool)
        ensures
            match policy_activated(old(self)@, x@, appraisal@) {
                Some(n) => r && final(self)@ == n,
                None => !r,
            },
    {
        let allowed = match (&self.audited_config, &self.initial_deployment_evaluation) {
            (Some(config), Some(opening)) => {
                assert(appraisal.encoded_opening@ =~= appraisal@.encoded_opening);
                let config_hash = config.content_sha256();
                let opening_hash = sha256_hex(appraisal.encoded_opening.as_slice());
                self.ongoing_resource_policy.is_none() && matches!(
                    opening.outcome,
                    InitialDeploymentOutcome::Authorized
                ) && text_eq(
                    x.policy_version.as_str(),
                    appraisal.resource_policy_version.as_str(),
                ) && x.minimum_free_cash.is_zero() && text_eq(
                    x.position_limit_mode.as_str(),
                    "NUMERIC_SAFETY_ONLY",
                ) && x.effective_max_position == config.max_position && text_eq(
                    x.config_content_sha256.as_str(),
                    config_hash.as_str(),
                ) && text_eq(x.initial_deployment_id.as_str(), opening.deployment_id.as_str())
                    && text_eq(x.initial_deployment_sha256.as_str(), opening_hash.as_str())
                    && !is_blank(x.reason_code.as_str()) && !is_blank(x.operator.as_str())
            },
            _ => false,
        };
        if !allowed {
            return false;
        }
        self.ongoing_resource_policy = Some(x.dup());
        true
    }
}

/// The configuration of a run never changes once it is recorded.
pub proof fn law_config_is_fixed(
    s: StrategyStateView,
    e: EventEnvelopeView,
    p: SnapshotPayloadView,
)
    requires
        config_recorded(s, e, p) is Some,
        s.audited_config is Some,
    ensures
        config_alike(s.audited_config->0, config_recorded(s, e, p)->0.audited_config->0),
{
}

/// A right is decided once.
pub proof fn law_rights_are_decided_once(
    right: GridRightView,
    q: DecisionRequestView,
    r: DecisionResponseView,
    succeeded: bool,
)
    ensures
        right.decision_recorded ==> decision_noted(right, q, r, succeeded) is None,
        decision_noted(right, q, r, succeeded) is Some ==> decision_noted(
            right,
            q,
            r,
            succeeded,
        )->0.decision_recorded,
{
}

} // verus!

//! What the events on grid levels, days, modes and cycles do.
use crate::clock::{read_day, Day};
use crate::decimal::{from_parts, lemma_of_parts, read_decimal};
use crate::event::kinds::EventType;
use crate::event::order_laws::after;
use crate::event::payload::{EventEnvelopeView, PayloadView};
use crate::event::reduce::{grid_reduced, run_reduced};
use crate::grid::{grid_of, grid_price};
use crate::model::ledger::{
    GridLevelState, GridLevelStatus, OrderStatus, ServiceMode, StrategyStateView,
};
use crate::model::market::Direction;
use crate::model::notices::AppraisalView;
use crate::table::{changed_at, holds_key, lemma_changed_at, lemma_with, lookup, ordered};
use vstd::prelude::*;

verus! {

/// The level that a notice speaks of.
pub open spec fn spoken_index(e: EventEnvelopeView) -> int {
    e.payload->LevelAt_0.grid_index->0 as int
}

/// Whether an event on a level names an index that a level can have.
pub open spec fn names_a_level(e: EventEnvelopeView) -> bool {
    e.payload matches PayloadView::LevelAt(p) && p.grid_index matches Some(i) && i32::MIN <= i
        <= i32::MAX
}

/// Whether two states differ only in their levels, in the history of levels and in how
/// many events they count.
pub open spec fn same_but_levels(s: StrategyStateView, n: StrategyStateView) -> bool {
    n == (StrategyStateView {
        levels: n.levels,
        historically_touched_levels: n.historically_touched_levels,
        historically_skipped_levels: n.historically_skipped_levels,
        event_count: (s.event_count + 1) as u64,
        ..s
    })
}

/// A level is armed as it is given. In the current layout the cycle is active, the level
/// is not there yet, waits for its first touch, and stands at the price of its index in
/// the audited grid.
pub proof fn law_armed_levels_are_of_the_grid(
    s: StrategyStateView,
    e: EventEnvelopeView,
    a: AppraisalView,
)
    requires
        e.event_type == EventType::GridLevelArmed,
        e.payload is Level,
        ordered::<i32, GridLevelState>(s.levels),
    ensures
        after(s, e, a) matches Some(n) ==> {
            let level = e.payload->Level_0;
            &&& changed_at::<i32, GridLevelState>(s.levels, n.levels, level.index, level)
            &&& n.historically_touched_levels == s.historically_touched_levels
            &&& n.historically_skipped_levels == s.historically_skipped_levels
            &&& same_but_levels(s, n)
            &&& e.schema_version >= 2 ==> {
                &&& s.grid_cycle_active
                &&& lookup::<i32, GridLevelState>(s.levels, level.index) is None
                &&& level.status == GridLevelStatus::Armed
                &&& level.touch_count == 0
                &&& level.index != 0
                &&& e.cycle_id == s.cycle_id
                &&& s.audited_config matches Some(c) && e.config_version == c.config_version
                    && -c.boundary_levels <= level.index <= c.boundary_levels && (grid_price(
                    grid_of(c),
                    level.index,
                ) matches Ok(p) && level.price.units() == p.units())
            }
        },
{
    reveal(grid_reduced);
    if let Some(n) = after(s, e, a) {
        let level = e.payload->Level_0;
        lemma_changed_at::<i32, GridLevelState>(s.levels, level.index, level);
        if e.schema_version >= 2 {
            let g = grid_of(s.audited_config->0);
            let all = crate::grid::all_levels(g);
            crate::grid::law_levels_cover_the_grid(g, g.boundary_levels + 1);
            let r = crate::table::rank::<i32, GridLevelState>(all, level.index) as int;
            crate::grid_laws::law_generated_levels_are_fresh(g, r);
        }
    }
}

/// A touch counts one more touch of a level and notes that it was touched. In the
/// current layout the level waited for it, at the price of its index.
pub proof fn law_touches_count(s: StrategyStateView, e: EventEnvelopeView, a: AppraisalView)
    requires
        e.event_type == EventType::GridLevelTouched,
        e.payload is LevelAt,
        ordered::<i32, GridLevelState>(s.levels),
        ordered::<i32, ()>(s.historically_touched_levels),
    ensures
        after(s, e, a) matches Some(n) ==> names_a_level(e) && {
            let index = spoken_index(e) as i32;
            &&& holds_key::<i32, ()>(n.historically_touched_levels, index)
            &&& n.historically_skipped_levels == s.historically_skipped_levels
            &&& same_but_levels(s, n)
            &&& lookup::<i32, GridLevelState>(s.levels, index) is None ==> n.levels == s.levels
            &&& lookup::<i32, GridLevelState>(s.levels, index) matches Some(level) ==> {
                changed_at::<i32, GridLevelState>(
                    s.levels,
                    n.levels,
                    index,
                    GridLevelState {
                        status: GridLevelStatus::Touched,
                        touch_count: (level.touch_count + 1) as u64,
                        ..level
                    },
                )
            }
            &&& e.schema_version >= 2 ==> (lookup::<i32, GridLevelState>(s.levels, index) matches Some(
                level,
            ) && (level.status == GridLevelStatus::Armed || level.status
                == GridLevelStatus::Rearmed) && e.cycle_id == s.cycle_id && (
            s.audited_config matches Some(c) && e.config_version == c.config_version && (grid_price(
                grid_of(c),
                index,
            ) matches Ok(p) && level.price.units() == p.units())))
        },
{
    reveal(grid_reduced);
    if let Some(n) = after(s, e, a) {
        let index = spoken_index(e) as i32;
        lemma_with::<i32, ()>(s.historically_touched_levels, index, ());
        if let Some(level) = lookup::<i32, GridLevelState>(s.levels, index) {
            lemma_changed_at::<i32, GridLevelState>(
                s.levels,
                index,
                GridLevelState {
                    status: GridLevelStatus::Touched,
                    touch_count: (level.touch_count + 1) as u64,
                    ..level
                },
            );
        }
    }
}

/// A skip and a rearming change the status of a level alone. In the current layout only
/// a touched level is skipped, and only one that was touched, executed or skipped is
/// armed again.
pub proof fn law_skips_and_rearmings_change_the_status(
    s: StrategyStateView,
    e: EventEnvelopeView,
    a: AppraisalView,
)
    requires
        e.event_type == EventType::GridLevelSkipped || e.event_type == EventType::GridLevelRearmed,
        e.payload is LevelAt,
        ordered::<i32, GridLevelState>(s.levels),
        ordered::<i32, ()>(s.historically_skipped_levels),
    ensures
        after(s, e, a) matches Some(n) ==> names_a_level(e) && {
            let index = spoken_index(e) as i32;
            let skips = e.event_type == EventType::GridLevelSkipped;
            &&& skips ==> holds_key::<i32, ()>(n.historically_skipped_levels, index)
            &&& !skips ==> n.historically_skipped_levels == s.historically_skipped_levels
            &&& n.historically_touched_levels == s.historically_touched_levels
            &&& same_but_levels(s, n)
            &&& lookup::<i32, GridLevelState>(s.levels, index) is None ==> n.levels == s.levels
            &&& lookup::<i32, GridLevelState>(s.levels, index) matches Some(level) ==> changed_at::<
                i32,
                GridLevelState,
            >(
                s.levels,
                n.levels,
                index,
                GridLevelState {
                    status: if skips {
                        GridLevelStatus::Skipped
                    } else {
                        GridLevelStatus::Rearmed
                    },
                    ..level
                },
            )
            &&& e.schema_version >= 2 ==> (lookup::<i32, GridLevelState>(s.levels, index) matches Some(
                level,
            ) && e.cycle_id == s.cycle_id && (skips ==> level.status == GridLevelStatus::Touched)
                && (!skips ==> level.status == GridLevelStatus::Touched || level.status
                == GridLevelStatus::Executed || level.status == GridLevelStatus::Skipped))
        },
{
    reveal(grid_reduced);
    if let Some(n) = after(s, e, a) {
        let index = spoken_index(e) as i32;
        lemma_with::<i32, ()>(s.historically_skipped_levels, index, ());
        if let Some(level) = lookup::<i32, GridLevelState>(s.levels, index) {
            lemma_changed_at::<i32, GridLevelState>(
                s.levels,
                index,
                GridLevelState { status: GridLevelStatus::Skipped, ..level },
            );
            lemma_changed_at::<i32, GridLevelState>(
                s.levels,
                index,
                GridLevelState { status: GridLevelStatus::Rearmed, ..level },
            );
        }
    }
}

/// A trading day makes what was bought before it sellable, and changes nothing but the
/// day and the position. The first day, the same day and an earlier one move no shares.
pub proof fn law_days_move_bought_shares(
    s: StrategyStateView,
    e: EventEnvelopeView,
    a: AppraisalView,
)
    requires
        e.event_type == EventType::TradingDayRolled,
        e.payload is Day,
    ensures
        after(s, e, a) matches Some(n) ==> {
            &&& n == (StrategyStateView {
                position: n.position,
                current_trade_date: n.current_trade_date,
                event_count: (s.event_count + 1) as u64,
                ..s
            })
            &&& e.payload->Day_0 matches Some(text) && (read_day(text, "%Y-%m-%d"@) matches Some(d)
                && n.current_trade_date == Some(Day::of(d)))
            &&& n.position.total == s.position.total
            &&& n.position.frozen_sell == s.position.frozen_sell
            &&& n.position.sellable + n.position.today_bought == s.position.sellable
                + s.position.today_bought
            &&& (s.current_trade_date matches Some(before) && before.n()
                < n.current_trade_date->0.n()) ==> n.position.today_bought == 0
            &&& !(s.current_trade_date matches Some(before) && before.n()
                < n.current_trade_date->0.n()) ==> n.position == s.position
        },
{
    reveal(run_reduced);
}

/// A comparison with the broker is kept with the number of its event, and trading stops
/// exactly where it finds a difference.
pub proof fn law_differences_stop_trading(
    s: StrategyStateView,
    e: EventEnvelopeView,
    a: AppraisalView,
)
    requires
        e.event_type == EventType::ReconciliationCompleted,
        e.payload is Reconciliation,
    ensures
        after(s, e, a) matches Some(n) ==> {
            let x = e.payload->Reconciliation_0;
            &&& x.matched ==> n.mode == s.mode
            &&& !x.matched ==> n.mode == ServiceMode::Safe
            &&& n.last_reconciliation == Some(x)
            &&& n.last_reconciliation_event_sequence == Some(e.sequence_number)
            &&& n == (StrategyStateView {
                mode: n.mode,
                last_reconciliation: n.last_reconciliation,
                last_reconciliation_event_sequence: n.last_reconciliation_event_sequence,
                event_count: (s.event_count + 1) as u64,
                ..s
            })
        },
{
    reveal(run_reduced);
}

/// The events on the service change its mode alone: to the one that is named, to safe
/// where an error says so, and from running to stopped.
pub proof fn law_modes_change_as_named(
    s: StrategyStateView,
    e: EventEnvelopeView,
    a: AppraisalView,
)
    requires
        e.event_type == EventType::ServiceModeChanged && e.payload is Mode || e.event_type
            == EventType::ErrorRecorded && e.payload is Error || e.event_type
            == EventType::ServiceStopped,
    ensures
        after(s, e, a) matches Some(n) ==> {
            &&& n == (StrategyStateView {
                mode: n.mode,
                event_count: (s.event_count + 1) as u64,
                ..s
            })
            &&& e.event_type == EventType::ServiceModeChanged ==> Some(n.mode) == e.payload->Mode_0
            &&& e.event_type == EventType::ErrorRecorded && e.payload->Error_0.entered_safe == Some(
                true,
            ) ==> n.mode == ServiceMode::Safe
            &&& e.event_type == EventType::ErrorRecorded && e.payload->Error_0.entered_safe != Some(
                true,
            ) ==> n.mode == s.mode
            &&& e.event_type == EventType::ServiceStopped && s.mode == ServiceMode::Running
                ==> n.mode == ServiceMode::Stopped
            &&& e.event_type == EventType::ServiceStopped && s.mode != ServiceMode::Running
                ==> n.mode == s.mode
        },
{
    reveal(run_reduced);
}

/// The first cycle starts at the audited anchor on a grid without levels, rights or
/// tranches, and takes the name that its event gives it.
pub proof fn law_cycles_start_on_an_empty_grid(
    s: StrategyStateView,
    e: EventEnvelopeView,
    a: AppraisalView,
)
    requires
        e.event_type == EventType::GridCycleStarted,
        e.payload is Start,
    ensures
        after(s, e, a) matches Some(n) ==> {
            &&& n == (StrategyStateView {
                cycle_id: e.cycle_id,
                grid_cycle_active: true,
                event_count: (s.event_count + 1) as u64,
                ..s
            })
            &&& e.schema_version >= 2 ==> {
                &&& s.levels.len() == 0 && s.grid_rights.len() == 0 && s.right_tranches.len() == 0
                &&& s.cycle_id.len() == 0 || s.cycle_id == e.cycle_id
                &&& s.audited_config matches Some(c) && e.config_version == c.config_version && (
                e.payload->Start_0 matches Some(text) && (from_parts(read_decimal(text)) matches Some(p)
                    && p.units() == c.anchor_price.units()))
            }
        },
{
    reveal(run_reduced);
}

/// A cycle is followed by another one only when nothing of it is left: no share in a
/// lot, no right that has not come to its end, nothing free or reserved in a tranche, no
/// order under way, and something sold. The next cycle starts with no levels and nothing
/// deployed.
pub proof fn law_cycles_end_empty(s: StrategyStateView, e: EventEnvelopeView, a: AppraisalView)
    requires
        e.event_type == EventType::GridCycleReset,
        e.payload is Reset,
    ensures
        after(s, e, a) matches Some(n) ==> {
            let p = e.payload->Reset_0;
            &&& p.cycle_id is None ==> n == (StrategyStateView {
                event_count: (s.event_count + 1) as u64,
                ..s
            })
            &&& p.cycle_id matches Some(id) ==> {
                &&& n.cycle_id == id
                &&& n.grid_cycle_active
                &&& n.levels.len() == 0
                &&& n.deployed_grid_budget.units() == 0
                &&& n == (StrategyStateView {
                    cycle_id: n.cycle_id,
                    grid_cycle_active: n.grid_cycle_active,
                    levels: n.levels,
                    deployed_grid_budget: n.deployed_grid_budget,
                    event_count: (s.event_count + 1) as u64,
                    ..s
                })
            }
            &&& e.schema_version >= 2 ==> {
                &&& p.previous_cycle_id == Some(s.cycle_id)
                &&& p.cycle_id is Some
                &&& e.cycle_id == s.cycle_id
                &&& forall|i: int|
                    0 <= i < s.lots.len() ==> (#[trigger] s.lots[i].1).remaining_quantity <= 0
                &&& forall|i: int|
                    0 <= i < s.grid_rights.len() && (#[trigger] s.grid_rights[i].1).cycle_id
                        == s.cycle_id ==> s.grid_rights[i].1.status.final_status()
                &&& forall|i: int|
                    0 <= i < s.right_tranches.len() && (#[trigger] s.right_tranches[i].1).cycle_id
                        == s.cycle_id ==> {
                        let t = s.right_tranches[i].1;
                        &&& t.available_budget.units() <= 0 && t.reserved_budget.units() <= 0
                        &&& t.available_quantity <= 0 && t.reserved_quantity <= 0
                    }
                &&& forall|i: int|
                    0 <= i < s.orders.len() ==> (#[trigger] s.orders[i].1).status.terminal()
                &&& exists|i: int|
                    0 <= i < s.orders.len() && (#[trigger] s.orders[i].1).status
                        == OrderStatus::Filled && s.orders[i].1.intent.direction == Direction::Sell
            }
        },
{
    reveal(run_reduced);
    lemma_of_parts(0, 0);
    if after(s, e, a) is Some && e.schema_version >= 2 {
        let c = StrategyStateView { event_count: s.event_count.checked_add(1)->0, ..s };
        assert(crate::event::lifecycle::cycle_complete(c));
        assert forall|i: int|
            0 <= i < s.grid_rights.len() && (#[trigger] s.grid_rights[i].1).cycle_id
                == s.cycle_id implies s.grid_rights[i].1.status.final_status() by {
            assert(!crate::event::lifecycle::right_active(c.grid_rights[i].1, c.cycle_id));
        }
        assert forall|i: int|
            0 <= i < s.right_tranches.len() && (#[trigger] s.right_tranches[i].1).cycle_id
                == s.cycle_id implies {
            let t = s.right_tranches[i].1;
            &&& t.available_budget.units() <= 0 && t.reserved_budget.units() <= 0
            &&& t.available_quantity <= 0 && t.reserved_quantity <= 0
        } by {
            assert(!crate::event::lifecycle::tranche_active(c.right_tranches[i].1, c.cycle_id));
        }
        let i = choose|i: int|
            0 <= i < c.orders.len() && crate::event::lifecycle::sold_in_cycle(
                c,
                #[trigger] c.orders[i].1,
            );
        assert(s.orders[i].1.status == OrderStatus::Filled);
    }
}

/// A configuration is recorded as it is given, with its unit and its lot size where it
/// names a unit, and it agrees with one that was recorded before. Nothing else changes.
pub proof fn law_configurations_are_recorded(
    s: StrategyStateView,
    e: EventEnvelopeView,
    a: AppraisalView,
)
    requires
        e.event_type == EventType::ConfigSnapshotted,
        e.payload is Snapshot,
    ensures
        after(s, e, a) matches Some(n) ==> {
            let c = e.payload->Snapshot_0.config;
            &&& n.audited_config == Some(c)
            &&& c.standard_quantity > 0 ==> n.audited_standard_quantity == c.standard_quantity
                && n.audited_lot_size == c.lot_size
            &&& c.standard_quantity <= 0 ==> n.audited_standard_quantity
                == s.audited_standard_quantity && n.audited_lot_size == s.audited_lot_size
            &&& s.audited_standard_quantity != 0 ==> n.audited_standard_quantity
                == s.audited_standard_quantity
            &&& s.audited_lot_size != 0 ==> n.audited_lot_size == s.audited_lot_size
            &&& s.audited_config matches Some(x) ==> crate::model::settings::config_alike(x, c)
            &&& n.audited_profit_guard_policy == Some(crate::policy::policy_of(c))
            &&& e.schema_version >= 2 ==> {
                &&& c.symbol == s.symbol && e.symbol == s.symbol
                &&& c.anchor_price.units() == s.anchor_price.units()
                &&& e.config_version == c.config_version
                &&& c.standard_quantity > 0
                &&& e.payload->Snapshot_0.content_sha256 is Some
            }
            &&& n == (StrategyStateView {
                audited_config: n.audited_config,
                audited_profit_guard_policy: n.audited_profit_guard_policy,
                audited_standard_quantity: n.audited_standard_quantity,
                audited_lot_size: n.audited_lot_size,
                event_count: (s.event_count + 1) as u64,
                ..s
            })
        },
{
    reveal(run_reduced);
}

/// A bar that is received waits with the digest of what it says until it is processed;
/// it is of the run and of the time of its event. In the first layout its close becomes
/// the last price instead.
pub proof fn law_received_bars_wait(s: StrategyStateView, e: EventEnvelopeView, a: AppraisalView)
    requires
        e.event_type == EventType::MarketDataReceived,
        e.payload is Bar,
    ensures
        after(s, e, a) matches Some(n) ==> {
            let bar = e.payload->Bar_0;
            &&& e.schema_version == 1 ==> n == (StrategyStateView {
                last_price: Some(bar.close),
                event_count: (s.event_count + 1) as u64,
                ..s
            })
            &&& e.schema_version != 1 ==> {
                &&& n == (StrategyStateView {
                    pending_market_evidence: n.pending_market_evidence,
                    event_count: (s.event_count + 1) as u64,
                    ..s
                })
                &&& n.pending_market_evidence matches Some(w) && w.event_id == e.event_id && w.bar
                    == bar
                &&& bar.symbol == s.symbol && bar.symbol == e.symbol && bar.timestamp
                    == e.event_time
                &&& e.run_id == s.run_id && e.cycle_id == s.cycle_id
                &&& s.audited_config matches Some(c) && e.config_version == c.config_version
            }
        },
{
    reveal(run_reduced);
}

/// A processed bar notes its close, where it says one, and takes away the waiting bar
/// where that is the same one.
pub proof fn law_processed_bars_are_taken_away(
    s: StrategyStateView,
    e: EventEnvelopeView,
    a: AppraisalView,
)
    requires
        e.event_type == EventType::MarketBarProcessed,
        e.payload is Stage,
    ensures
        after(s, e, a) matches Some(n) ==> {
            let p = e.payload->Stage_0;
            &&& n == (StrategyStateView {
                last_price: n.last_price,
                pending_market_evidence: n.pending_market_evidence,
                event_count: (s.event_count + 1) as u64,
                ..s
            })
            &&& p.close is None ==> n.last_price == s.last_price
            &&& p.close matches Some(text) ==> (n.last_price is Some && n.last_price == from_parts(
                read_decimal(text),
            ))
            &&& (s.pending_market_evidence matches Some(w) && w.bar.symbol == e.symbol
                && w.bar.timestamp == e.event_time) ==> n.pending_market_evidence is None
            &&& !(s.pending_market_evidence matches Some(w) && w.bar.symbol == e.symbol
                && w.bar.timestamp == e.event_time) ==> n.pending_market_evidence
                == s.pending_market_evidence
            &&& e.schema_version >= 2 ==> {
                &&& e.symbol == s.symbol && p.symbol == Some(s.symbol)
                &&& p.timestamp == Some(e.event_time)
                &&& e.cycle_id == s.cycle_id
            }
        },
{
    reveal(run_reduced);
}

/// An ambiguous bar is counted, and a report of what other events did changes nothing.
pub proof fn law_reports_change_nothing(s: StrategyStateView, e: EventEnvelopeView, a: AppraisalView)
    ensures
        e.event_type == EventType::AmbiguousBarDetected ==> (after(s, e, a) matches Some(n) ==> n
            == (StrategyStateView {
            ambiguous_bars: (s.ambiguous_bars + 1) as u64,
            event_count: (s.event_count + 1) as u64,
            ..s
        })),
        e.event_type == EventType::LotOpened || e.event_type == EventType::LotClosed
            || e.event_type == EventType::LotPartiallyClosed || e.event_type
            == EventType::CashChanged || e.event_type == EventType::PositionChanged || e.event_type
            == EventType::RunStarted || e.event_type == EventType::DeferredQuantityAccrued
            || e.event_type == EventType::MarketBarDecisionsCommitted || e.event_type
            == EventType::DeferredBudgetAccrued ==> (after(s, e, a) matches Some(n) ==> n == (
        StrategyStateView { event_count: (s.event_count + 1) as u64, ..s })),
        e.event_type == EventType::DeferredBudgetAccrued && s.audited_standard_quantity > 0
            ==> after(s, e, a) is None,
{
}

/// The ongoing resource policy is activated once, after the opening balance was
/// authorized, under the limits of the audited configuration and with no free cash
/// required; it names why and by whom.
pub proof fn law_policies_are_activated_once(
    s: StrategyStateView,
    e: EventEnvelopeView,
    a: AppraisalView,
)
    requires
        e.event_type == EventType::OngoingResourcePolicyActivated,
        e.payload is Activation,
    ensures
        after(s, e, a) matches Some(n) ==> {
            let x = e.payload->Activation_0;
            &&& s.ongoing_resource_policy is None
            &&& n == (StrategyStateView {
                ongoing_resource_policy: Some(x),
                event_count: (s.event_count + 1) as u64,
                ..s
            })
            &&& x.minimum_free_cash.units() == 0
            &&& x.policy_version == a.resource_policy_version
            &&& !crate::text::blank(x.reason_code) && !crate::text::blank(x.operator)
            &&& s.audited_config matches Some(c) && x.effective_max_position == c.max_position
            &&& s.initial_deployment_evaluation matches Some(o) && x.initial_deployment_id
                == o.deployment_id && o.outcome
                == crate::model::ledger::InitialDeploymentOutcome::Authorized
        },
{
    reveal(crate::event::reduce::order_reduced);
}

/// A recovery is kept with what it says, and a stage in the first layout notes its close,
/// where it says one. Nothing else changes.
pub proof fn law_recoveries_and_closes_are_noted(
    s: StrategyStateView,
    e: EventEnvelopeView,
    a: AppraisalView,
)
    ensures
        e.event_type == EventType::RecoveryCompleted && e.payload is Recovery ==> (after(
            s,
            e,
            a,
        ) matches Some(n) ==> n == (StrategyStateView {
            last_recovery: Some(e.payload->Recovery_0),
            event_count: (s.event_count + 1) as u64,
            ..s
        })),
        e.event_type == EventType::MarketDataReceived && e.payload is Stage ==> (after(
            s,
            e,
            a,
        ) matches Some(n) ==> e.schema_version == 1 && n == (StrategyStateView {
            last_price: n.last_price,
            event_count: (s.event_count + 1) as u64,
            ..s
        }) && (e.payload->Stage_0.close is None ==> n.last_price == s.last_price) && (
        e.payload->Stage_0.close matches Some(text) ==> (n.last_price is Some && n.last_price
            == from_parts(read_decimal(text))))),
        e.event_type == EventType::MarketBarDecisionsCommitted && e.schema_version >= 2 ==> (after(
            s,
            e,
            a,
        ) is Some ==> (e.payload matches PayloadView::Stage(p) && p.symbol == Some(s.symbol)
            && e.symbol == s.symbol && p.timestamp == Some(e.event_time) && e.cycle_id
            == s.cycle_id)),
{
    reveal(run_reduced);
}

} // verus!

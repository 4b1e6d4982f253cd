//! Grid levels: armed, touched, skipped and armed again.
use crate::decimal::decimal_text;
use crate::event::payload::{EventEnvelope, EventEnvelopeView};
use crate::grid::{all_levels, grid_fault, grid_of, grid_price, resettable, waiting, GridSpec};
use crate::model::ledger::{GridLevelState, GridLevelStatus, StrategyState, StrategyStateView};
use crate::model::notices::{LevelNotice, LevelNoticeView};
use crate::model::settings::ConfigView;
use crate::table::{holds_key, lookup, with};
use crate::text::text_eq;
use vstd::prelude::*;

verus! {

/// An index as a payload gives it.
pub open spec fn small_index(value: Option<i64>) -> Option<i32> {
    match value {
        Some(n) => if i32::MIN <= n <= i32::MAX {
            Some(n as i32)
        } else {
            None
        },
        None => None,
    }
}

/// An index as a payload gives it.
pub fn index_in_range(value: Option<i64>) -> (r: Option<i32>)
    ensures
        r == small_index(value),
{
    match value {
        Some(n) => if i32::MIN as i64 <= n && n <= i32::MAX as i64 {
            Some(n as i32)
        } else {
            None
        },
        None => None,
    }
}

/// Whether an event belongs to the current cycle and to the audited
/// configuration.
pub open spec fn of_this_cycle(
    s: StrategyStateView,
    e: EventEnvelopeView,
    c: ConfigView,
) -> bool {
    e.cycle_id == s.cycle_id && e.config_version == c.config_version
}

/// The level at an index.
pub open spec fn level_of(s: StrategyStateView, index: i32) -> Option<GridLevelState> {
    lookup::<i32, GridLevelState>(s.levels, index)
}

/// Whether a level may be armed: a level of the audited grid that is not there
/// yet.
pub open spec fn arm_allowed(
    s: StrategyStateView,
    e: EventEnvelopeView,
    level: GridLevelState,
) -> bool {
    e.schema_version >= 2 ==> {
        &&& s.audited_config matches Some(c)
        &&& grid_fault(grid_of(c)) is None
        &&& lookup::<i32, GridLevelState>(
            all_levels(grid_of(c)),
            level.index,
        ) matches Some(expected)
        &&& of_this_cycle(s, e, c)
        &&& s.grid_cycle_active
        &&& !holds_key::<i32, GridLevelState>(s.levels, level.index)
        &&& level.index == expected.index
        &&& level.price.units() == expected.price.units()
        &&& level.status == GridLevelStatus::Armed
        &&& level.touch_count == 0
    }
}

/// The state after a level is armed.
pub open spec fn level_armed(
    s: StrategyStateView,
    e: EventEnvelopeView,
    level: GridLevelState,
) -> Option<StrategyStateView> {
    if arm_allowed(s, e, level) {
        Some(
            StrategyStateView {
                levels: with::<i32, GridLevelState>(s.levels, level.index, level),
                ..s
            },
        )
    } else {
        None
    }
}

/// Whether a touch is that of a waiting level at its price.
pub open spec fn touch_allowed(
    s: StrategyStateView,
    e: EventEnvelopeView,
    index: i32,
    price: Option<Seq<char>>,
) -> bool {
    e.schema_version >= 2 ==> {
        &&& s.audited_config matches Some(c)
        &&& grid_price(grid_of(c), index) matches Ok(canonical)
        &&& level_of(s, index) matches Some(level)
        &&& of_this_cycle(s, e, c)
        &&& level.price.units() == canonical.units()
        &&& waiting(level.status)
        &&& price == Some(decimal_text(canonical.m(), canonical.s()))
    }
}

/// The levels after one of them gets another status.
pub open spec fn with_status(s: StrategyStateView, index: i32, status: GridLevelStatus) -> Seq<
    (i32, GridLevelState),
> {
    match level_of(s, index) {
        Some(level) => with::<i32, GridLevelState>(
            s.levels,
            index,
            GridLevelState { status, ..level },
        ),
        None => s.levels,
    }
}

/// The state after a level is touched.
pub open spec fn level_touched(
    s: StrategyStateView,
    e: EventEnvelopeView,
    p: LevelNoticeView,
) -> Option<StrategyStateView> {
    match small_index(p.grid_index) {
        None => None,
        Some(index) => if !touch_allowed(s, e, index, p.price) {
            None
        } else {
            let touched = StrategyStateView {
                historically_touched_levels: with::<i32, ()>(
                    s.historically_touched_levels,
                    index,
                    (),
                ),
                ..s
            };
            match level_of(s, index) {
                None => Some(touched),
                Some(level) => match level.touch_count.checked_add(1) {
                    None => None,
                    Some(touch_count) => Some(
                        StrategyStateView {
                            levels: with::<i32, GridLevelState>(
                                s.levels,
                                index,
                                GridLevelState {
                                    status: GridLevelStatus::Touched,
                                    touch_count,
                                    ..level
                                },
                            ),
                            ..touched
                        },
                    ),
                },
            }
        },
    }
}

/// Whether a skip follows a touch.
pub open spec fn skip_allowed(s: StrategyStateView, e: EventEnvelopeView, index: i32) -> bool {
    e.schema_version >= 2 ==> {
        &&& s.audited_config matches Some(c)
        &&& of_this_cycle(s, e, c)
        &&& level_of(s, index) matches Some(level)
        &&& level.status == GridLevelStatus::Touched
    }
}

/// The state after a touched level is skipped.
pub open spec fn level_skipped(
    s: StrategyStateView,
    e: EventEnvelopeView,
    p: LevelNoticeView,
) -> Option<StrategyStateView> {
    match small_index(p.grid_index) {
        None => None,
        Some(index) => if !skip_allowed(s, e, index) {
            None
        } else {
            Some(
                StrategyStateView {
                    historically_skipped_levels: with::<i32, ()>(
                        s.historically_skipped_levels,
                        index,
                        (),
                    ),
                    levels: with_status(s, index, GridLevelStatus::Skipped),
                    ..s
                },
            )
        },
    }
}

/// Whether a level may be armed again.
pub open spec fn rearm_allowed(s: StrategyStateView, e: EventEnvelopeView, index: i32) -> bool {
    e.schema_version >= 2 ==> {
        &&& s.audited_config matches Some(c)
        &&& grid_price(grid_of(c), index) matches Ok(canonical)
        &&& level_of(s, index) matches Some(level)
        &&& of_this_cycle(s, e, c)
        &&& level.price.units() == canonical.units()
        &&& resettable(level.status)
    }
}

/// The state after a level is armed again.
pub open spec fn level_rearmed(
    s: StrategyStateView,
    e: EventEnvelopeView,
    p: LevelNoticeView,
) -> Option<StrategyStateView> {
    match small_index(p.grid_index) {
        None => None,
        Some(index) => if !rearm_allowed(s, e, index) {
            None
        } else {
            Some(
                StrategyStateView {
                    levels: with_status(s, index, GridLevelStatus::Rearmed),
                    ..s
                },
            )
        },
    }
}

/// Whether the status waits for a touch.
fn waits(status: GridLevelStatus) -> (r: bool)
    ensures
        r == waiting(status),
{
    matches!(status, GridLevelStatus::Armed | GridLevelStatus::Rearmed)
}

impl StrategyState {
    fn arm_is_allowed(&self, event: &EventEnvelope, level: &GridLevelState) -> (r: bool)
        ensures
            r == arm_allowed(self@, event@, *level),
    {
        if event.schema_version < 2 {
            return true;
        }
        let config = match &self.audited_config {
            Some(c) => c,
            None => {
                return false;
            },
        };
        let levels = match GridSpec::from(config).levels() {
            Ok(levels) => levels,
            Err(_) => {
                return false;
            },
        };
        match levels.get(&level.index) {
            Some(expected) => text_eq(event.cycle_id.as_str(), self.cycle_id.as_str()) && text_eq(
                event.config_version.as_str(),
                config.config_version.as_str(),
            ) && self.grid_cycle_active && !self.levels.contains(&level.index) && level.index
                == expected.index && level.price.equals(&expected.price) && matches!(
                level.status,
                GridLevelStatus::Armed
            ) && level.touch_count == 0,
            None => false,
        }
    }

    pub(crate) fn arm_level(&mut self, event: &EventEnvelope, level: &GridLevelState) -> (r: bool)
        ensures
            match level_armed(old(self)@, event@, *level) {
                Some(n) => r && final(self)@ == n,
                None => !r,
            },
    {
        if !self.arm_is_allowed(event, level) {
            return false;
        }
        self.levels.put(level.index, *level);
        true
    }

    fn touch_is_allowed(&self, event: &EventEnvelope, index: i32, price: &Option<String>) -> (r:
        bool)
        ensures
            r == touch_allowed(self@, event@, index, price.deep_view()),
    {
        if event.schema_version < 2 {
            return true;
        }
        let config = match &self.audited_config {
            Some(c) => c,
            None => {
                return false;
            },
        };
        let canonical = match GridSpec::from(config).price(index) {
            Ok(p) => p,
            Err(_) => {
                return false;
            },
        };
        let level = match self.levels.get(&index) {
            Some(level) => level,
            None => {
                return false;
            },
        };
        let canonical_text = canonical.text();
        let priced = match price {
            Some(text) => text_eq(text.as_str(), canonical_text.as_str()),
            None => false,
        };
        text_eq(event.cycle_id.as_str(), self.cycle_id.as_str()) && text_eq(
            event.config_version.as_str(),
            config.config_version.as_str(),
        ) && level.price.equals(&canonical) && waits(level.status) && priced
    }

    pub(crate) fn touch_level(&mut self, event: &EventEnvelope, notice: &LevelNotice) -> (r: bool)
        ensures
            match level_touched(old(self)@, event@, notice@) {
                Some(n) => r && final(self)@ == n,
                None => !r,
            },
    {
        let index: i32 = match index_in_range(notice.grid_index) {
            Some(index) => index,
            None => {
                return false;
            },
        };
        if !self.touch_is_allowed(event, index, &notice.price) {
            return false;
        }
        self.historically_touched_levels.put(index, ());
        let level = match self.levels.get(&index) {
            Some(level) => *level,
            None => {
                return true;
            },
        };
        match level.touch_count.checked_add(1) {
            Some(touch_count) => {
                self.levels.put(
                    index,
                    GridLevelState {
                        index: level.index,
                        price: level.price,
                        status: GridLevelStatus::Touched,
                        touch_count,
                    },
                );
                true
            },
            None => false,
        }
    }

    /// Gives a level another status, where there is one at the index.
    pub(crate) fn set_status(&mut self, index: i32, status: GridLevelStatus)
        ensures
            final(self)@ == (StrategyStateView {
                levels: with_status(old(self)@, index, status),
                ..old(self)@
            }),
    {
        let level = match self.levels.get(&index) {
            Some(level) => *level,
            None => {
                return;
            },
        };
        self.levels.put(
            index,
            GridLevelState {
                index: level.index,
                price: level.price,
                status,
                touch_count: level.touch_count,
            },
        );
    }

    fn skip_is_allowed(&self, event: &EventEnvelope, index: i32) -> (r: bool)
        ensures
            r == skip_allowed(self@, event@, index),
    {
        if event.schema_version < 2 {
            return true;
        }
        match (&self.audited_config, self.levels.get(&index)) {
            (Some(config), Some(level)) => text_eq(
                event.cycle_id.as_str(),
                self.cycle_id.as_str(),
            ) && text_eq(event.config_version.as_str(), config.config_version.as_str()) && matches!(
                level.status,
                GridLevelStatus::Touched
            ),
            _ => false,
        }
    }

    pub(crate) fn skip_level(&mut self, event: &EventEnvelope, notice: &LevelNotice) -> (r: bool)
        ensures
            match level_skipped(old(self)@, event@, notice@) {
                Some(n) => r && final(self)@ == n,
                None => !r,
            },
    {
        let index: i32 = match index_in_range(notice.grid_index) {
            Some(index) => index,
            None => {
                return false;
            },
        };
        if !self.skip_is_allowed(event, index) {
            return false;
        }
        self.historically_skipped_levels.put(index, ());
        self.set_status(index, GridLevelStatus::Skipped);
        true
    }

    fn rearm_is_allowed(&self, event: &EventEnvelope, index: i32) -> (r: bool)
        ensures
            r == rearm_allowed(self@, event@, index),
    {
        if event.schema_version < 2 {
            return true;
        }
        let config = match &self.audited_config {
            Some(c) => c,
            None => {
                return false;
            },
        };
        let canonical = match GridSpec::from(config).price(index) {
            Ok(p) => p,
            Err(_) => {
                return false;
            },
        };
        match self.levels.get(&index) {
            Some(level) => text_eq(event.cycle_id.as_str(), self.cycle_id.as_str()) && text_eq(
                event.config_version.as_str(),
                config.config_version.as_str(),
            ) && level.price.equals(&canonical) && matches!(
                level.status,
                GridLevelStatus::Touched | GridLevelStatus::Executed | GridLevelStatus::Skipped
            ),
            None => false,
        }
    }

    pub(crate) fn rearm_level(&mut self, event: &EventEnvelope, notice: &LevelNotice) -> (r: bool)
        ensures
            match level_rearmed(old(self)@, event@, notice@) {
                Some(n) => r && final(self)@ == n,
                None => !r,
            },
    {
        let index: i32 = match index_in_range(notice.grid_index) {
            Some(index) => index,
            None => {
                return false;
            },
        };
        if !self.rearm_is_allowed(event, index) {
            return false;
        }
        self.set_status(index, GridLevelStatus::Rearmed);
        true
    }
}

} // verus!

//! The geometric grid: its prices, its levels and how a bar crosses them.
use crate::arith::{magnitude, magnitude_of, quotient, trunc_div};
use crate::decimal::{
    floored, fitting, larger, minus, over, plus, rounded_to, times, truncated, Decimal, Rounding,
};
use crate::model::ledger::{GridLevelState, GridLevelStatus};
use crate::model::settings::{Config, ConfigView};
use crate::table::{lemma_rank_is, ordered, Table};
use vstd::prelude::*;

verus! {

/// The largest number of levels on one side of the anchor.
pub const MAX_BOUNDARY_LEVELS: i32 = 512;

/// The shape of a grid.
#[derive(Clone, Copy, Debug)]
pub struct GridSpec {
    pub anchor: Decimal,
    pub ratio: Decimal,
    pub trade_levels: i32,
    pub boundary_levels: i32,
    pub price_scale: u32,
}

/// Why a grid is refused.
#[derive(Clone, Copy, Debug, PartialEq, Eq, Structural)]
pub enum GridError {
    /// The anchor is not positive.
    Anchor,
    /// The ratio is not between zero and one.
    Ratio,
    /// The numbers of levels are not in order.
    Levels,
    /// Prices have too many decimal places.
    PriceScale,
    /// An index lies outside the grid.
    OutsideGrid,
    /// A price is not a positive decimal.
    Price,
    /// A sum or product leaves the range of decimals.
    NumericRange,
}

/// `price` multiplied by `factor`, `n` times.
pub open spec fn grown(price: Decimal, factor: Decimal, n: nat) -> Option<Decimal>
    decreases n,
{
    if n == 0 {
        Some(price)
    } else {
        match grown(price, factor, (n - 1) as nat) {
            Some(p) => times(p, factor),
            None => None,
        }
    }
}

/// `price` divided by `factor`, `n` times.
pub open spec fn shrunk(price: Decimal, factor: Decimal, n: nat) -> Option<Decimal>
    decreases n,
{
    if n == 0 {
        Some(price)
    } else {
        match shrunk(price, factor, (n - 1) as nat) {
            Some(p) => over(p, factor),
            None => None,
        }
    }
}

/// The price at an index: the anchor times or over one plus the ratio as often
/// as the index says, rounded to the price scale, halves away from zero.
pub open spec fn grid_price(g: GridSpec, index: i32) -> Result<Decimal, GridError> {
    match magnitude(index) {
        None => Err(GridError::OutsideGrid),
        Some(n) => if n > g.boundary_levels || g.boundary_levels > MAX_BOUNDARY_LEVELS {
            Err(GridError::OutsideGrid)
        } else {
            match plus(Decimal::one(), g.ratio) {
                None => Err(GridError::NumericRange),
                Some(factor) => if factor.units() <= Decimal::one().units() {
                    Err(GridError::Ratio)
                } else {
                    let raw = if index > 0 {
                        grown(g.anchor, factor, n as nat)
                    } else {
                        shrunk(g.anchor, factor, n as nat)
                    };
                    match raw {
                        None => Err(GridError::NumericRange),
                        Some(p) => {
                            let r = rounded_to(
                                p,
                                g.price_scale as nat,
                                Rounding::MidpointAwayFromZero,
                            );
                            if r.units() <= 0 {
                                Err(GridError::Price)
                            } else {
                                Ok(r)
                            }
                        },
                    }
                },
            }
        },
    }
}

/// Why the lowest index before `end` that has no price has none.
pub open spec fn price_fault(g: GridSpec, end: int) -> Option<GridError>
    decreases end + g.boundary_levels,
{
    if end <= -g.boundary_levels {
        None
    } else {
        match price_fault(g, end - 1) {
            Some(e) => Some(e),
            None => if end - 1 == 0 {
                None
            } else {
                match grid_price(g, (end - 1) as i32) {
                    Ok(_) => None,
                    Err(e) => Some(e),
                }
            },
        }
    }
}

pub proof fn lemma_price_fault(g: GridSpec, low: int, high: int)
    requires
        low <= high,
    ensures
        price_fault(g, low) is Some ==> price_fault(g, high) == price_fault(g, low),
        price_fault(g, high) is None ==> price_fault(g, low) is None,
        price_fault(g, high) is None && -g.boundary_levels <= low < high && low != 0
            ==> grid_price(g, low as i32) is Ok,
    decreases high - low,
{
    if low < high {
        lemma_price_fault(g, low, high - 1);
    }
}

/// Why a grid is refused, if it is.
pub open spec fn grid_fault(g: GridSpec) -> Option<GridError> {
    if g.anchor.units() <= 0 {
        Some(GridError::Anchor)
    } else if g.ratio.units() <= 0 || g.ratio.units() >= Decimal::one().units() {
        Some(GridError::Ratio)
    } else if g.trade_levels < 1 || g.boundary_levels <= g.trade_levels || g.boundary_levels
        > MAX_BOUNDARY_LEVELS {
        Some(GridError::Levels)
    } else if g.price_scale > 8 {
        Some(GridError::PriceScale)
    } else {
        price_fault(g, g.boundary_levels + 1)
    }
}

/// A level that has not been touched.
pub open spec fn armed_level(g: GridSpec, index: i32) -> GridLevelState {
    GridLevelState {
        index,
        price: grid_price(g, index)->Ok_0,
        status: GridLevelStatus::Armed,
        touch_count: 0,
    }
}

/// The levels from the lowest up to before `end`, in order, without the anchor.
pub open spec fn levels_below(g: GridSpec, end: int) -> Seq<(i32, GridLevelState)>
    decreases end + g.boundary_levels,
{
    if end <= -g.boundary_levels {
        Seq::empty()
    } else if end - 1 == 0 {
        levels_below(g, end - 1)
    } else {
        levels_below(g, end - 1).push(((end - 1) as i32, armed_level(g, (end - 1) as i32)))
    }
}

/// All levels of a grid.
pub open spec fn all_levels(g: GridSpec) -> Seq<(i32, GridLevelState)> {
    levels_below(g, g.boundary_levels + 1)
}

/// The grid of a configuration.
pub open spec fn grid_of(c: ConfigView) -> GridSpec {
    GridSpec {
        anchor: c.anchor_price,
        ratio: c.grid_ratio,
        trade_levels: c.trade_levels,
        boundary_levels: c.boundary_levels,
        price_scale: c.price_scale,
    }
}

/// Whether the strategy trades at an index.
pub open spec fn trades_at(g: GridSpec, index: i32) -> bool {
    index != 0 && (magnitude(index) matches Some(n) && n <= g.trade_levels)
}

impl vstd::std_specs::convert::FromSpecImpl<&Config> for GridSpec {
    open spec fn obeys_from_spec() -> bool {
        true
    }

    open spec fn from_spec(c: &Config) -> GridSpec {
        grid_of(c@)
    }
}

impl From<&Config> for GridSpec {
    fn from(c: &Config) -> (r: GridSpec) {
        GridSpec {
            anchor: c.anchor_price,
            ratio: c.grid_ratio,
            trade_levels: c.trade_levels,
            boundary_levels: c.boundary_levels,
            price_scale: c.price_scale,
        }
    }
}

impl GridSpec {
    /// Checks the grid and that each of its levels has a price.
    pub fn validate(&self) -> (r: Result<(), GridError>)
        ensures
            r == (match grid_fault(*self) {
                Some(e) => Err::<(), GridError>(e),
                None => Ok::<(), GridError>(()),
            }),
    {
        if !self.anchor.is_positive() {
            return Err(GridError::Anchor);
        }
        if !self.ratio.is_positive() || !self.ratio.below(&Decimal::unit()) {
            return Err(GridError::Ratio);
        }
        if self.trade_levels < 1 || self.boundary_levels <= self.trade_levels
            || self.boundary_levels > MAX_BOUNDARY_LEVELS {
            return Err(GridError::Levels);
        }
        if self.price_scale > 8 {
            return Err(GridError::PriceScale);
        }
        let mut index: i32 = -self.boundary_levels;
        while index <= self.boundary_levels
            invariant
                1 <= self.boundary_levels <= MAX_BOUNDARY_LEVELS,
                -self.boundary_levels <= index <= self.boundary_levels + 1,
                price_fault(*self, index as int) is None,
                grid_fault(*self) == price_fault(*self, self.boundary_levels + 1),
            decreases self.boundary_levels + 1 - index,
        {
            if index != 0 {
                match self.price(index) {
                    Ok(_) => {},
                    Err(e) => {
                        proof {
                            lemma_price_fault(*self, index + 1, self.boundary_levels + 1);
                        }
                        return Err(e);
                    },
                }
            }
            index = index + 1;
        }
        Ok(())
    }

    /// The price at an index.
    pub fn price(&self, index: i32) -> (r: Result<Decimal, GridError>)
        ensures
            r == grid_price(*self, index),
    {
        let n: i32 = match magnitude_of(index) {
            Some(n) => n,
            None => {
                return Err(GridError::OutsideGrid);
            },
        };
        if n > self.boundary_levels || self.boundary_levels > MAX_BOUNDARY_LEVELS {
            return Err(GridError::OutsideGrid);
        }
        let factor = match Decimal::unit().checked_add(self.ratio) {
            Some(f) => f,
            None => {
                return Err(GridError::NumericRange);
            },
        };
        if factor.at_most(&Decimal::unit()) {
            return Err(GridError::Ratio);
        }
        let mut result = Some(self.anchor);
        let mut k: i32 = 0;
        while k < n
            invariant
                0 <= k <= n,
                index > 0 ==> result == grown(self.anchor, factor, k as nat),
                index <= 0 ==> result == shrunk(self.anchor, factor, k as nat),
            decreases n - k,
        {
            result = match result {
                Some(p) => if index > 0 {
                    p.checked_mul(factor)
                } else {
                    p.checked_div(factor)
                },
                None => None,
            };
            k = k + 1;
        }
        match result {
            None => Err(GridError::NumericRange),
            Some(p) => {
                let rounded = p.round_dp(self.price_scale, Rounding::MidpointAwayFromZero);
                if !rounded.is_positive() {
                    Err(GridError::Price)
                } else {
                    Ok(rounded)
                }
            },
        }
    }

    /// The levels of the grid, all armed.
    pub fn levels(&self) -> (r: Result<Table<i32, GridLevelState>, GridError>)
        ensures
            match grid_fault(*self) {
                Some(e) => r is Err && r->Err_0 == e,
                None => r matches Ok(t) && t@ == all_levels(*self),
            },
    {
        match self.validate() {
            Ok(_) => {},
            Err(e) => {
                return Err(e);
            },
        }
        let mut levels: Table<i32, GridLevelState> = Table::new();
        let mut index: i32 = -self.boundary_levels;
        while index <= self.boundary_levels
            invariant
                1 <= self.boundary_levels <= MAX_BOUNDARY_LEVELS,
                -self.boundary_levels <= index <= self.boundary_levels + 1,
                price_fault(*self, self.boundary_levels + 1) is None,
                levels@ == levels_below(*self, index as int),
                forall|i: int|
                    0 <= i < levels@.len() ==> (#[trigger] levels@[i]).0 < index,
            decreases self.boundary_levels + 1 - index,
        {
            if index != 0 {
                proof {
                    lemma_price_fault(*self, index as int, self.boundary_levels + 1);
                }
                if let Ok(price) = self.price(index) {
                    let level = GridLevelState {
                        index,
                        price,
                        status: GridLevelStatus::Armed,
                        touch_count: 0,
                    };
                    let ghost before = levels@;
                    proof {
                        lemma_rank_is::<i32, GridLevelState>(
                            before,
                            index,
                            before.len() as int,
                        );
                    }
                    levels.put(index, level);
                    assert(levels@ =~= before.push((index, level)));
                    assert(level == armed_level(*self, index));
                }
            }
            index = index + 1;
        }
        Ok(levels)
    }

    /// Whether the strategy trades at an index.
    pub fn is_trade_level(&self, index: i32) -> (r: bool)
        ensures
            r == trades_at(*self, index),
    {
        if index == 0 {
            return false;
        }
        match magnitude_of(index) {
            Some(n) => n <= self.trade_levels,
            None => false,
        }
    }
}

/// Whether a bar touches levels on both sides.
#[derive(Clone, Copy, Debug, PartialEq, Eq, Structural)]
pub enum TouchClassification {
    Normal,
    Ambiguous,
}

/// Whether a bar crosses a level outwards: down through a level below the anchor,
/// up through one above it.
pub open spec fn crosses(
    index: i32,
    level: Decimal,
    previous: Decimal,
    low: Decimal,
    high: Decimal,
) -> bool {
    if index < 0 {
        previous.units() > level.units() && low.units() <= level.units()
    } else {
        previous.units() < level.units() && high.units() >= level.units()
    }
}

pub fn crosses_level(
    index: i32,
    level_price: Decimal,
    previous_close: Decimal,
    low: Decimal,
    high: Decimal,
) -> (r: bool)
    ensures
        r == crosses(index, level_price, previous_close, low, high),
{
    if index < 0 {
        level_price.below(&previous_close) && low.at_most(&level_price)
    } else {
        previous_close.below(&level_price) && level_price.at_most(&high)
    }
}

/// Whether a level waits to be touched.
pub open spec fn waiting(status: GridLevelStatus) -> bool {
    status == GridLevelStatus::Armed || status == GridLevelStatus::Rearmed
}

/// Whether an entry of the level table is touched.
pub open spec fn touched_entry(
    e: (i32, GridLevelState),
    previous: Decimal,
    low: Decimal,
    high: Decimal,
) -> bool {
    waiting(e.1.status) && crosses(e.0, e.1.price, previous, low, high)
}

/// The indices of the first `n` levels that a bar touches, in order.
pub open spec fn touched_levels(
    levels: Seq<(i32, GridLevelState)>,
    previous: Decimal,
    low: Decimal,
    high: Decimal,
    n: nat,
) -> Seq<i32>
    decreases n,
{
    if n == 0 {
        Seq::empty()
    } else if touched_entry(levels[n - 1], previous, low, high) {
        touched_levels(levels, previous, low, high, (n - 1) as nat).push(levels[n - 1].0)
    } else {
        touched_levels(levels, previous, low, high, (n - 1) as nat)
    }
}

/// Ambiguous where levels on both sides of the anchor are touched.
pub open spec fn classified(touched: Seq<i32>) -> TouchClassification {
    if (exists|i: int| 0 <= i < touched.len() && #[trigger] touched[i] < 0) && (exists|i: int|
        0 <= i < touched.len() && #[trigger] touched[i] > 0) {
        TouchClassification::Ambiguous
    } else {
        TouchClassification::Normal
    }
}

/// The waiting levels that a bar touches, and whether the bar is ambiguous.
pub fn crossed_levels(
    levels: &Table<i32, GridLevelState>,
    previous_close: Decimal,
    low: Decimal,
    high: Decimal,
) -> (r: (Vec<i32>, TouchClassification))
    ensures
        r.0@ == touched_levels(levels@, previous_close, low, high, levels@.len()),
        r.1 == classified(r.0@),
{
    let mut touched: Vec<i32> = Vec::new();
    let mut has_lower: bool = false;
    let mut has_upper: bool = false;
    let mut i: usize = 0;
    while i < levels.len()
        invariant
            i <= levels@.len(),
            touched@ == touched_levels(levels@, previous_close, low, high, i as nat),
            has_lower == exists|k: int| 0 <= k < touched@.len() && #[trigger] touched@[k] < 0,
            has_upper == exists|k: int| 0 <= k < touched@.len() && #[trigger] touched@[k] > 0,
        decreases levels@.len() - i,
    {
        let index: i32 = *levels.key_at(i);
        let level = levels.value_at(i);
        let waits = matches!(level.status, GridLevelStatus::Armed | GridLevelStatus::Rearmed);
        if waits && crosses_level(index, level.price, previous_close, low, high) {
            let ghost before = touched@;
            touched.push(index);
            proof {
                assert(touched@[before.len() as int] == index);
                assert(forall|k: int| 0 <= k < before.len() ==> touched@[k] == before[k]);
                if has_lower {
                    let k = choose|k: int| 0 <= k < before.len() && #[trigger] before[k] < 0;
                    assert(touched@[k] < 0);
                }
                if has_upper {
                    let k = choose|k: int| 0 <= k < before.len() && #[trigger] before[k] > 0;
                    assert(touched@[k] > 0);
                }
            }
            has_lower = has_lower || index < 0;
            has_upper = has_upper || index > 0;
        }
        i = i + 1;
    }
    let class = if has_lower && has_upper {
        TouchClassification::Ambiguous
    } else {
        TouchClassification::Normal
    };
    (touched, class)
}

/// The width of a grid step without its sign.
pub open spec fn absolute_width(w: Decimal) -> Option<Decimal> {
    if w.units() < 0 {
        times(w, Decimal::of(-1, 0))
    } else {
        Some(w)
    }
}

/// Whether a level has a touch to come back from.
pub open spec fn resettable(status: GridLevelStatus) -> bool {
    status == GridLevelStatus::Touched || status == GridLevelStatus::Executed || status
        == GridLevelStatus::Skipped
}

/// Whether the price has come back from a level by its hysteresis: up from a
/// level below the anchor, down from one above it. Nothing where a number
/// leaves the range.
pub open spec fn cleared(
    level: GridLevelState,
    current: Decimal,
    width: Decimal,
    hysteresis: Decimal,
) -> Option<bool> {
    match absolute_width(width) {
        None => None,
        Some(w) => match times(w, hysteresis) {
            None => None,
            Some(threshold) => if level.index < 0 {
                match plus(level.price, threshold) {
                    None => None,
                    Some(edge) => Some(current.units() >= edge.units()),
                }
            } else {
                match minus(level.price, threshold) {
                    None => None,
                    Some(edge) => Some(current.units() <= edge.units()),
                }
            },
        },
    }
}

/// Rearms a touched level once the price has come back from it.
pub fn maybe_rearm(
    level: &mut GridLevelState,
    current_price: Decimal,
    grid_width: Decimal,
    hysteresis_ratio: Decimal,
) -> (r: Result<bool, GridError>)
    ensures
        !resettable(old(level).status) ==> r == Ok::<bool, GridError>(false) && *final(level)
            == *old(level),
        resettable(old(level).status) ==> (match cleared(
            *old(level),
            current_price,
            grid_width,
            hysteresis_ratio,
        ) {
            None => r == Err::<bool, GridError>(GridError::NumericRange) && *final(level) == *old(
                level,
            ),
            Some(back) => r == Ok::<bool, GridError>(back) && *final(level) == (if back {
                GridLevelState { status: GridLevelStatus::Rearmed, ..*old(level) }
            } else {
                *old(level)
            }),
        }),
{
    if !matches!(
        level.status,
        GridLevelStatus::Touched | GridLevelStatus::Executed | GridLevelStatus::Skipped
    ) {
        return Ok(false);
    }
    let width = if grid_width.is_negative() {
        let minus_one = Decimal::from_i64(-1);
        grid_width.checked_mul(minus_one)
    } else {
        Some(grid_width)
    };
    let threshold = match width {
        Some(w) => w.checked_mul(hysteresis_ratio),
        None => None,
    };
    let threshold = match threshold {
        Some(t) => t,
        None => {
            return Err(GridError::NumericRange);
        },
    };
    let edge = if level.index < 0 {
        level.price.checked_add(threshold)
    } else {
        level.price.checked_sub(threshold)
    };
    let edge = match edge {
        Some(e) => e,
        None => {
            return Err(GridError::NumericRange);
        },
    };
    let back = if level.index < 0 {
        edge.at_most(&current_price)
    } else {
        current_price.at_most(&edge)
    };
    if back {
        level.status = GridLevelStatus::Rearmed;
    }
    Ok(back)
}

/// The budget that a depth of the grid allows.
pub open spec fn budget_cap(index: i32, standard_budget: Decimal) -> Option<Decimal> {
    match magnitude(index) {
        Some(n) => times(Decimal::whole(n as int), standard_budget),
        None => None,
    }
}

pub fn mechanical_cap(index: i32, standard_budget: Decimal) -> (r: Result<Decimal, GridError>)
    ensures
        match budget_cap(index, standard_budget) {
            Some(c) => r == Ok::<Decimal, GridError>(c),
            None => r == Err::<Decimal, GridError>(GridError::NumericRange),
        },
{
    match magnitude_of(index) {
        Some(n) => match Decimal::from_i64(n as i64).checked_mul(standard_budget) {
            Some(c) => Ok(c),
            None => Err(GridError::NumericRange),
        },
        None => Err(GridError::NumericRange),
    }
}

/// What is left of the budget of a depth, and never less than nothing.
pub open spec fn deferred_budget(index: i32, standard_budget: Decimal, deployed: Decimal) -> Option<
    Decimal,
> {
    match budget_cap(index, standard_budget) {
        Some(c) => match minus(c, deployed) {
            Some(d) => Some(larger(d, Decimal::zero())),
            None => None,
        },
        None => None,
    }
}

pub fn available_deferred_budget(index: i32, standard_budget: Decimal, deployed: Decimal) -> (r:
    Result<Decimal, GridError>)
    ensures
        match deferred_budget(index, standard_budget, deployed) {
            Some(c) => r == Ok::<Decimal, GridError>(c),
            None => r == Err::<Decimal, GridError>(GridError::NumericRange),
        },
{
    match mechanical_cap(index, standard_budget) {
        Ok(c) => match c.checked_sub(deployed) {
            Some(d) => Ok(d.max(Decimal::nil())),
            None => Err(GridError::NumericRange),
        },
        Err(e) => Err(e),
    }
}

/// The whole shares of a budget at a price.
pub open spec fn affordable_shares(budget: Decimal, price: Decimal) -> Option<i64> {
    match over(budget, price) {
        Some(q) => fitting(truncated(floored(q))),
        None => None,
    }
}

/// How many shares in whole board lots a budget buys at a price; none where one
/// of the three is not positive.
pub fn board_lot_quantity(budget: Decimal, price: Decimal, lot_size: i64) -> (r: Result<
    i64,
    GridError,
>)
    ensures
        (budget.units() <= 0 || price.units() <= 0 || lot_size <= 0) ==> r == Ok::<i64, GridError>(
            0,
        ),
        !(budget.units() <= 0 || price.units() <= 0 || lot_size <= 0) ==> (match affordable_shares(
            budget,
            price,
        ) {
            None => r == Err::<i64, GridError>(GridError::NumericRange),
            Some(raw) => if i64::MIN <= trunc_div(raw as int, lot_size as int)
                * lot_size <= i64::MAX {
                r == Ok::<i64, GridError>(
                    (trunc_div(raw as int, lot_size as int) * lot_size) as i64,
                )
            } else {
                r == Err::<i64, GridError>(GridError::NumericRange)
            },
        }),
        budget.units() > 0 && price.units() > 0 && lot_size > 0 ==> (affordable_shares(
            budget,
            price,
        ) matches Some(raw) ==> (raw >= 0 ==> (r matches Ok(q) && 0 <= q <= raw < q + lot_size
            && q as int % lot_size as int == 0))),
{
    if !budget.is_positive() || !price.is_positive() || lot_size <= 0 {
        return Ok(0);
    }
    let raw = match budget.checked_div(price) {
        Some(q) => q.floor().to_i64(),
        None => None,
    };
    match raw {
        None => Err(GridError::NumericRange),
        Some(raw) => {
            let lots: i64 = quotient(raw, lot_size);
            proof {
                if raw >= 0 {
                    let k = raw as int / lot_size as int;
                    vstd::arithmetic::div_mod::lemma_fundamental_div_mod(
                        raw as int,
                        lot_size as int,
                    );
                    vstd::arithmetic::div_mod::lemma_mod_multiples_basic(k, lot_size as int);
                    assert(k * lot_size == lot_size * k) by (nonlinear_arith);
                    assert(k * lot_size >= 0) by (nonlinear_arith)
                        requires
                            k >= 0,
                            lot_size > 0,
                    ;
                }
            }
            match lots.checked_mul(lot_size) {
                Some(q) => Ok(q),
                None => Err(GridError::NumericRange),
            }
        },
    }
}

/// The engine that makes grid levels and finds the touched ones.
pub trait GridEngine {
    spec fn shape(&self) -> GridSpec;

    fn generate_levels(&self) -> (r: Result<Table<i32, GridLevelState>, GridError>)
        ensures
            match grid_fault(self.shape()) {
                Some(e) => r is Err && r->Err_0 == e,
                None => r matches Ok(t) && t@ == all_levels(self.shape()),
            },
    ;

    fn detect_touches(
        &self,
        levels: &Table<i32, GridLevelState>,
        previous_close: Decimal,
        low: Decimal,
        high: Decimal,
    ) -> (r: (Vec<i32>, TouchClassification))
        ensures
            r.0@ == touched_levels(levels@, previous_close, low, high, levels@.len()),
            r.1 == classified(r.0@),
    ;
}

/// The engine of a geometric grid.
#[derive(Clone, Copy, Debug)]
pub struct MechanicalGridEngine {
    pub grid: GridSpec,
}

impl GridEngine for MechanicalGridEngine {
    open spec fn shape(&self) -> GridSpec {
        self.grid
    }

    fn generate_levels(&self) -> (r: Result<Table<i32, GridLevelState>, GridError>) {
        self.grid.levels()
    }

    fn detect_touches(
        &self,
        levels: &Table<i32, GridLevelState>,
        previous_close: Decimal,
        low: Decimal,
        high: Decimal,
    ) -> (r: (Vec<i32>, TouchClassification)) {
        crossed_levels(levels, previous_close, low, high)
    }
}

/// A grid trades at an index exactly where it trades at the opposite one.
pub proof fn law_trade_levels_are_symmetric(g: GridSpec, index: i32)
    requires
        index != i32::MIN,
    ensures
        trades_at(g, index) == trades_at(g, (-index) as i32),
{
}

/// Whether a table holds a level at an index.
pub open spec fn level_at(t: Seq<(i32, GridLevelState)>, index: i32) -> bool {
    exists|k: int| 0 <= k < t.len() && (#[trigger] t[k]).0 == index
}

/// The generated levels are exactly the indices of the grid without the anchor,
/// in order, each armed at its positive price.
pub proof fn law_levels_cover_the_grid(g: GridSpec, end: int)
    requires
        grid_fault(g) is None,
        -g.boundary_levels <= end <= g.boundary_levels + 1,
    ensures
        ({
            let t = levels_below(g, end);
            &&& forall|k: int|
                0 <= k < t.len() ==> (#[trigger] t[k]).0 != 0 && -g.boundary_levels <= t[k].0 < end
                    && t[k].1 == armed_level(g, t[k].0) && t[k].1.price.units() > 0
            &&& forall|i: i32|
                -g.boundary_levels <= i < end && i != 0 ==> #[trigger] level_at(t, i)
            &&& ordered::<i32, GridLevelState>(t)
        }),
    decreases end + g.boundary_levels,
{
    if end > -g.boundary_levels {
        law_levels_cover_the_grid(g, end - 1);
        let before = levels_below(g, end - 1);
        let t = levels_below(g, end);
        if end - 1 != 0 {
            lemma_price_fault(g, end - 1, g.boundary_levels + 1);
            assert forall|i: i32| -g.boundary_levels <= i < end && i != 0 implies #[trigger] level_at(
                t,
                i,
            ) by {
                assert(i < end - 1 ==> level_at(before, i));
                if i == end - 1 {
                    assert(t[before.len() as int].0 == i);
                } else {
                    let k = choose|k: int| 0 <= k < before.len() && (#[trigger] before[k]).0 == i;
                    assert(t[k] == before[k]);
                }
            }
            assert forall|k: int| 0 <= k < t.len() implies (#[trigger] t[k]).0 != 0
                && -g.boundary_levels <= t[k].0 < end && t[k].1 == armed_level(g, t[k].0)
                && t[k].1.price.units() > 0 by {
                if k < before.len() {
                    assert(t[k] == before[k]);
                }
            }
        }
    }
}

/// A level waits again after it is rearmed, and cannot be rearmed twice.
pub proof fn law_rearmed_levels_wait(level: GridLevelState)
    requires
        level.status == GridLevelStatus::Rearmed,
    ensures
        waiting(level.status),
        !resettable(level.status),
{
}

} // verus!

//! Grid rights and tranches: their identities, how they are made and when they
//! are in order.
use crate::clock::Moment;
use crate::decimal::{minus, plus, larger, Decimal};
use crate::digest::{id_of, named_id};
use crate::model::market::Direction;
use crate::model::rights::{
    GridRight, GridRightCapacity, GridRightCapacityView, GridRightStatus, GridRightView,
    RightTranche, RightTrancheUnit, RightTrancheView,
};
use crate::text::{blank, int_text, is_blank, join, signed_text};
use vstd::prelude::*;

verus! {

impl GridRightStatus {
    /// Whether a right may go from one status to another.
    pub open spec fn may_become(self, next: GridRightStatus) -> bool {
        match self {
            GridRightStatus::Granted => next == GridRightStatus::Residual || next
                == GridRightStatus::Deferred || next == GridRightStatus::Blocked || next
                == GridRightStatus::Reserved,
            GridRightStatus::Reserved => next == GridRightStatus::PartiallyExercised || next
                == GridRightStatus::Exercised || next == GridRightStatus::Released,
            GridRightStatus::PartiallyExercised => next == GridRightStatus::PartiallyExercised
                || next == GridRightStatus::Exercised || next == GridRightStatus::Released || next
                == GridRightStatus::Expired || next == GridRightStatus::Transferred || next
                == GridRightStatus::Revoked,
            GridRightStatus::Residual
            | GridRightStatus::Deferred
            | GridRightStatus::Blocked
            | GridRightStatus::Released => next == GridRightStatus::Transferred || next
                == GridRightStatus::Expired || next == GridRightStatus::Revoked,
            _ => false,
        }
    }

    /// Whether a right has come to its end.
    pub open spec fn final_status(self) -> bool {
        self == GridRightStatus::Exercised || self == GridRightStatus::Transferred || self
            == GridRightStatus::Expired || self == GridRightStatus::Revoked
    }

    /// Whether a right may go from one status to another.
    pub fn can_transition(self, next: Self) -> (r: bool)
        ensures
            r == self.may_become(next),
    {
        match self {
            GridRightStatus::Granted => matches!(
                next,
                GridRightStatus::Residual
                    | GridRightStatus::Deferred
                    | GridRightStatus::Blocked
                    | GridRightStatus::Reserved
            ),
            GridRightStatus::Reserved => matches!(
                next,
                GridRightStatus::PartiallyExercised
                    | GridRightStatus::Exercised
                    | GridRightStatus::Released
            ),
            GridRightStatus::PartiallyExercised => matches!(
                next,
                GridRightStatus::PartiallyExercised
                    | GridRightStatus::Exercised
                    | GridRightStatus::Released
                    | GridRightStatus::Expired
                    | GridRightStatus::Transferred
                    | GridRightStatus::Revoked
            ),
            GridRightStatus::Residual
            | GridRightStatus::Deferred
            | GridRightStatus::Blocked
            | GridRightStatus::Released => matches!(
                next,
                GridRightStatus::Transferred | GridRightStatus::Expired | GridRightStatus::Revoked
            ),
            _ => false,
        }
    }
}

/// A right that has come to its end stays there, and no right becomes granted
/// again.
pub proof fn law_rights_end_for_good(from: GridRightStatus, to: GridRightStatus)
    ensures
        from.final_status() ==> !from.may_become(to),
        !from.may_become(GridRightStatus::Granted),
{
}

/// Every status that is not an end leads to an end, at once or in two steps.
pub proof fn law_rights_can_end(from: GridRightStatus)
    requires
        !from.final_status(),
    ensures
        exists|a: GridRightStatus| #[trigger]
            from.may_become(a) && (a.final_status() || a.may_become(GridRightStatus::Expired)),
{
    let a = match from {
        GridRightStatus::Granted => GridRightStatus::Deferred,
        GridRightStatus::Reserved => GridRightStatus::Released,
        GridRightStatus::PartiallyExercised => GridRightStatus::Released,
        _ => GridRightStatus::Expired,
    };
    assert(from.may_become(a));
}

/// Where each status comes from: only a granted right is kept, blocked or reserved,
/// only what is reserved or partly used is used or released, and only what waits with
/// nothing reserved, or is partly used, is handed on, expires or is revoked.
pub proof fn law_right_steps(from: GridRightStatus)
    ensures
        from.may_become(GridRightStatus::Residual) <==> from == GridRightStatus::Granted,
        from.may_become(GridRightStatus::Deferred) <==> from == GridRightStatus::Granted,
        from.may_become(GridRightStatus::Blocked) <==> from == GridRightStatus::Granted,
        from.may_become(GridRightStatus::Reserved) <==> from == GridRightStatus::Granted,
        from.may_become(GridRightStatus::Exercised) <==> from == GridRightStatus::Reserved || from
            == GridRightStatus::PartiallyExercised,
        from.may_become(GridRightStatus::PartiallyExercised) <==> from.may_become(
            GridRightStatus::Exercised,
        ),
        from.may_become(GridRightStatus::Released) <==> from.may_become(GridRightStatus::Exercised),
        from.may_become(GridRightStatus::Expired) <==> from == GridRightStatus::PartiallyExercised
            || from == GridRightStatus::Residual || from == GridRightStatus::Deferred || from
            == GridRightStatus::Blocked || from == GridRightStatus::Released,
        from.may_become(GridRightStatus::Transferred) <==> from.may_become(GridRightStatus::Expired),
        from.may_become(GridRightStatus::Revoked) <==> from.may_become(GridRightStatus::Expired),
        from.final_status() <==> from == GridRightStatus::Exercised || from
            == GridRightStatus::Transferred || from == GridRightStatus::Expired || from
            == GridRightStatus::Revoked,
{
}

/// The name of a side.
pub open spec fn direction_text(d: Direction) -> Seq<char> {
    match d {
        Direction::Buy => "Buy"@,
        Direction::Sell => "Sell"@,
    }
}

pub fn direction_name(d: Direction) -> (r: &'static str)
    ensures
        r@ == direction_text(d),
{
    match d {
        Direction::Buy => "Buy",
        Direction::Sell => "Sell",
    }
}

/// The text that names a tranche.
pub open spec fn tranche_name(
    cycle_id: Seq<char>,
    epoch: Seq<char>,
    direction: Direction,
    birth: i32,
    lot_id: Option<Seq<char>>,
) -> Seq<char> {
    cycle_id + ":tranche:"@ + epoch + ":"@ + direction_text(direction) + ":"@ + int_text(
        birth as int,
    ) + ":"@ + (match lot_id {
        Some(lot) => lot,
        None => "budget"@,
    })
}

/// The identifier of a tranche.
pub open spec fn tranche_id(
    cycle_id: Seq<char>,
    epoch: Seq<char>,
    direction: Direction,
    birth: i32,
    lot_id: Option<Seq<char>>,
) -> Seq<char> {
    named_id(tranche_name(cycle_id, epoch, direction, birth, lot_id))
}

/// A tranche with nothing disposed of.
pub open spec fn fresh_tranche(
    cycle_id: Seq<char>,
    epoch: Seq<char>,
    direction: Direction,
    birth: i32,
    unit: RightTrancheUnit,
    owner: Seq<char>,
    lot_id: Option<Seq<char>>,
    budget: Decimal,
    quantity: i64,
) -> RightTrancheView {
    RightTrancheView {
        tranche_id: tranche_id(cycle_id, epoch, direction, birth, lot_id),
        cycle_id,
        excursion_epoch: epoch,
        direction,
        birth_grid_index: birth,
        unit,
        owner_right_id: owner,
        lot_id,
        minted_budget: budget,
        available_budget: budget,
        reserved_budget: Decimal::zero(),
        consumed_budget: Decimal::zero(),
        revoked_budget: Decimal::zero(),
        expired_budget: Decimal::zero(),
        minted_quantity: quantity,
        available_quantity: quantity,
        reserved_quantity: 0,
        consumed_quantity: 0,
        revoked_quantity: 0,
        expired_quantity: 0,
    }
}

/// The sum of five amounts from left to right.
pub open spec fn sum_of_five(
    a: Decimal,
    b: Decimal,
    c: Decimal,
    d: Decimal,
    e: Decimal,
) -> Option<Decimal> {
    match plus(Decimal::zero(), a) {
        None => None,
        Some(x) => match plus(x, b) {
            None => None,
            Some(x) => match plus(x, c) {
                None => None,
                Some(x) => match plus(x, d) {
                    None => None,
                    Some(x) => plus(x, e),
                },
            },
        },
    }
}

/// The sum of the five accounts of a budget tranche.
pub open spec fn disposed_budget(t: RightTrancheView) -> Option<Decimal> {
    sum_of_five(
        t.available_budget,
        t.reserved_budget,
        t.consumed_budget,
        t.revoked_budget,
        t.expired_budget,
    )
}

/// Whether no account of a tranche is negative.
pub open spec fn nothing_negative(t: RightTrancheView) -> bool {
    &&& t.minted_budget.units() >= 0
    &&& t.available_budget.units() >= 0
    &&& t.reserved_budget.units() >= 0
    &&& t.consumed_budget.units() >= 0
    &&& t.revoked_budget.units() >= 0
    &&& t.expired_budget.units() >= 0
    &&& t.minted_quantity >= 0
    &&& t.available_quantity >= 0
    &&& t.reserved_quantity >= 0
    &&& t.consumed_quantity >= 0
    &&& t.revoked_quantity >= 0
    &&& t.expired_quantity >= 0
}

/// Whether no account in shares holds anything.
pub open spec fn no_quantities(t: RightTrancheView) -> bool {
    &&& t.minted_quantity == 0
    &&& t.available_quantity == 0
    &&& t.reserved_quantity == 0
    &&& t.consumed_quantity == 0
    &&& t.revoked_quantity == 0
    &&& t.expired_quantity == 0
}

/// Whether no account in money holds anything.
pub open spec fn no_budgets(t: RightTrancheView) -> bool {
    &&& t.minted_budget.units() == 0
    &&& t.available_budget.units() == 0
    &&& t.reserved_budget.units() == 0
    &&& t.consumed_budget.units() == 0
    &&& t.revoked_budget.units() == 0
    &&& t.expired_budget.units() == 0
}

/// Whether a tranche is in order: it names its owner, and what was minted is
/// the sum of its five disposition accounts.
pub open spec fn tranche_in_order(t: RightTrancheView) -> bool {
    &&& nothing_negative(t)
    &&& !blank(t.owner_right_id)
    &&& !blank(t.excursion_epoch)
    &&& t.birth_grid_index != 0
    &&& match t.unit {
        RightTrancheUnit::Budget => {
            &&& t.direction == Direction::Buy
            &&& t.minted_budget.units() > 0
            &&& no_quantities(t)
            &&& disposed_budget(t) matches Some(sum)
            &&& sum.units() == t.minted_budget.units()
        },
        RightTrancheUnit::Quantity => {
            &&& t.minted_quantity > 0
            &&& no_budgets(t)
            &&& t.minted_quantity == t.available_quantity + t.reserved_quantity
                + t.consumed_quantity + t.revoked_quantity + t.expired_quantity
            &&& match t.direction {
                Direction::Buy => t.lot_id is None,
                Direction::Sell => t.lot_id is Some && t.lot_id->0.len() > 0,
            }
        },
    }
}

/// Why a record of a right is refused.
#[derive(Clone, Copy, Debug, PartialEq, Eq, Structural)]
pub enum RightError {
    /// A tranche does not add up or does not name what it belongs to.
    InvalidTranche,
}

fn option_copy(s: Option<&str>) -> (r: Option<String>)
    ensures
        r.deep_view() == (match s {
            Some(x) => Some(x@),
            None => None,
        }),
{
    match s {
        Some(x) => Some(x.to_owned()),
        None => None,
    }
}

fn mint(
    cycle_id: &str,
    excursion_epoch: &str,
    direction: Direction,
    birth_grid_index: i32,
    unit: RightTrancheUnit,
    owner_right_id: &str,
    lot_id: Option<&str>,
    budget: Decimal,
    quantity: i64,
) -> (r: RightTranche)
    ensures
        r@ == fresh_tranche(
            cycle_id@,
            excursion_epoch@,
            direction,
            birth_grid_index,
            unit,
            owner_right_id@,
            (match lot_id {
                Some(x) => Some(x@),
                None => None,
            }),
            budget,
            quantity,
        ),
{
    RightTranche {
        tranche_id: RightTranche::id_for(
            cycle_id,
            excursion_epoch,
            direction,
            birth_grid_index,
            lot_id,
        ),
        cycle_id: cycle_id.to_owned(),
        excursion_epoch: excursion_epoch.to_owned(),
        direction,
        birth_grid_index,
        unit,
        owner_right_id: owner_right_id.to_owned(),
        lot_id: option_copy(lot_id),
        minted_budget: budget,
        available_budget: budget,
        reserved_budget: Decimal::nil(),
        consumed_budget: Decimal::nil(),
        revoked_budget: Decimal::nil(),
        expired_budget: Decimal::nil(),
        minted_quantity: quantity,
        available_quantity: quantity,
        reserved_quantity: 0,
        consumed_quantity: 0,
        revoked_quantity: 0,
        expired_quantity: 0,
    }
}

fn five(a: Decimal, b: Decimal, c: Decimal, d: Decimal, e: Decimal) -> (r: Option<Decimal>)
    ensures
        r == sum_of_five(a, b, c, d, e),
{
    let x = match Decimal::nil().checked_add(a) {
        Some(x) => x,
        None => {
            return None;
        },
    };
    let x = match x.checked_add(b) {
        Some(x) => x,
        None => {
            return None;
        },
    };
    let x = match x.checked_add(c) {
        Some(x) => x,
        None => {
            return None;
        },
    };
    let x = match x.checked_add(d) {
        Some(x) => x,
        None => {
            return None;
        },
    };
    x.checked_add(e)
}

fn five_quantities(a: i64, b: i64, c: i64, d: i64, e: i64) -> (r: Option<i64>)
    requires
        a >= 0,
        b >= 0,
        c >= 0,
        d >= 0,
        e >= 0,
    ensures
        r == (if a + b + c + d + e <= i64::MAX {
            Some((a + b + c + d + e) as i64)
        } else {
            None
        }),
{
    let x: i64 = match a.checked_add(b) {
        Some(x) => x,
        None => {
            return None;
        },
    };
    let x: i64 = match x.checked_add(c) {
        Some(x) => x,
        None => {
            return None;
        },
    };
    let x: i64 = match x.checked_add(d) {
        Some(x) => x,
        None => {
            return None;
        },
    };
    x.checked_add(e)
}

impl RightTranche {
    /// The identifier of a tranche: the same origin gives the same identifier.
    pub fn id_for(
        cycle_id: &str,
        excursion_epoch: &str,
        direction: Direction,
        birth_grid_index: i32,
        lot_id: Option<&str>,
    ) -> (r: String)
        ensures
            r@ == tranche_id(
                cycle_id@,
                excursion_epoch@,
                direction,
                birth_grid_index,
                (match lot_id {
                    Some(x) => Some(x@),
                    None => None,
                }),
            ),
    {
        let name = join(cycle_id, ":tranche:");
        let name = join(name.as_str(), excursion_epoch);
        let name = join(name.as_str(), ":");
        let name = join(name.as_str(), direction_name(direction));
        let name = join(name.as_str(), ":");
        let index = signed_text(birth_grid_index as i64);
        let name = join(name.as_str(), index.as_str());
        let name = join(name.as_str(), ":");
        let name = match lot_id {
            Some(lot) => join(name.as_str(), lot),
            None => join(name.as_str(), "budget"),
        };
        id_of(name.as_str())
    }

    /// A tranche of money for buying.
    pub fn minted_budget(
        cycle_id: &str,
        excursion_epoch: &str,
        owner_right_id: &str,
        birth_grid_index: i32,
        amount: Decimal,
    ) -> (r: Self)
        ensures
            r@ == fresh_tranche(
                cycle_id@,
                excursion_epoch@,
                Direction::Buy,
                birth_grid_index,
                RightTrancheUnit::Budget,
                owner_right_id@,
                None,
                amount,
                0,
            ),
    {
        mint(
            cycle_id,
            excursion_epoch,
            Direction::Buy,
            birth_grid_index,
            RightTrancheUnit::Budget,
            owner_right_id,
            None,
            amount,
            0,
        )
    }

    /// A tranche of shares of a lot for selling.
    pub fn minted_quantity(
        cycle_id: &str,
        excursion_epoch: &str,
        owner_right_id: &str,
        birth_grid_index: i32,
        lot_id: &str,
        quantity: i64,
    ) -> (r: Self)
        ensures
            r@ == fresh_tranche(
                cycle_id@,
                excursion_epoch@,
                Direction::Sell,
                birth_grid_index,
                RightTrancheUnit::Quantity,
                owner_right_id@,
                Some(lot_id@),
                Decimal::zero(),
                quantity,
            ),
    {
        mint(
            cycle_id,
            excursion_epoch,
            Direction::Sell,
            birth_grid_index,
            RightTrancheUnit::Quantity,
            owner_right_id,
            Some(lot_id),
            Decimal::nil(),
            quantity,
        )
    }

    /// A tranche of shares for buying.
    pub fn minted_buy_quantity(
        cycle_id: &str,
        excursion_epoch: &str,
        owner_right_id: &str,
        birth_grid_index: i32,
        quantity: i64,
    ) -> (r: Self)
        ensures
            r@ == fresh_tranche(
                cycle_id@,
                excursion_epoch@,
                Direction::Buy,
                birth_grid_index,
                RightTrancheUnit::Quantity,
                owner_right_id@,
                None,
                Decimal::zero(),
                quantity,
            ),
    {
        mint(
            cycle_id,
            excursion_epoch,
            Direction::Buy,
            birth_grid_index,
            RightTrancheUnit::Quantity,
            owner_right_id,
            None,
            Decimal::nil(),
            quantity,
        )
    }

    fn has_negative(&self) -> (r: bool)
        ensures
            r == !nothing_negative(self@),
    {
        self.minted_budget.is_negative() || self.available_budget.is_negative()
            || self.reserved_budget.is_negative() || self.consumed_budget.is_negative()
            || self.revoked_budget.is_negative() || self.expired_budget.is_negative()
            || self.minted_quantity < 0 || self.available_quantity < 0 || self.reserved_quantity < 0
            || self.consumed_quantity < 0 || self.revoked_quantity < 0 || self.expired_quantity < 0
    }

    fn lacks_quantities(&self) -> (r: bool)
        ensures
            r == no_quantities(self@),
    {
        self.minted_quantity == 0 && self.available_quantity == 0 && self.reserved_quantity == 0
            && self.consumed_quantity == 0 && self.revoked_quantity == 0 && self.expired_quantity
            == 0
    }

    fn lacks_budgets(&self) -> (r: bool)
        ensures
            r == no_budgets(self@),
    {
        self.minted_budget.is_zero() && self.available_budget.is_zero()
            && self.reserved_budget.is_zero() && self.consumed_budget.is_zero()
            && self.revoked_budget.is_zero() && self.expired_budget.is_zero()
    }

    /// Checks a tranche.
    pub fn validate(&self) -> (r: Result<(), RightError>)
        ensures
            r == (if tranche_in_order(self@) {
                Ok::<(), RightError>(())
            } else {
                Err::<(), RightError>(RightError::InvalidTranche)
            }),
    {
        if self.has_negative() || is_blank(self.owner_right_id.as_str()) || is_blank(
            self.excursion_epoch.as_str(),
        ) || self.birth_grid_index == 0 {
            return Err(RightError::InvalidTranche);
        }
        let conserved = match self.unit {
            RightTrancheUnit::Budget => match five(
                self.available_budget,
                self.reserved_budget,
                self.consumed_budget,
                self.revoked_budget,
                self.expired_budget,
            ) {
                Some(sum) => matches!(self.direction, Direction::Buy)
                    && self.minted_budget.is_positive() && self.lacks_quantities() && sum.equals(
                    &self.minted_budget,
                ),
                None => false,
            },
            RightTrancheUnit::Quantity => match five_quantities(
                self.available_quantity,
                self.reserved_quantity,
                self.consumed_quantity,
                self.revoked_quantity,
                self.expired_quantity,
            ) {
                Some(sum) => {
                    let bound = match self.direction {
                        Direction::Buy => self.lot_id.is_none(),
                        Direction::Sell => match &self.lot_id {
                            Some(lot) => lot.as_str().unicode_len() > 0,
                            None => false,
                        },
                    };
                    self.minted_quantity > 0 && self.lacks_budgets() && self.minted_quantity == sum
                        && bound
                },
                None => false,
            },
        };
        if conserved {
            Ok(())
        } else {
            Err(RightError::InvalidTranche)
        }
    }
}

/// The text that names a right.
pub open spec fn right_name(
    run_id: Seq<char>,
    cycle_id: Seq<char>,
    grid_index: i32,
    granted_at: Moment,
) -> Seq<char> {
    run_id + ":"@ + cycle_id + ":right:"@ + int_text(grid_index as int) + ":"@
        + crate::clock::moment_text(granted_at.d(), granted_at.s(), granted_at.n())
}

/// A right that has just been granted.
pub open spec fn fresh_right(
    run_id: Seq<char>,
    cycle_id: Seq<char>,
    symbol: Seq<char>,
    direction: Direction,
    grid_index: i32,
    grid_price: Decimal,
    granted_at: Moment,
    capacity: GridRightCapacityView,
) -> GridRightView {
    GridRightView {
        right_id: named_id(right_name(run_id, cycle_id, grid_index, granted_at)),
        cycle_id,
        symbol,
        direction,
        grid_index,
        grid_price,
        granted_at,
        capacity,
        status: GridRightStatus::Granted,
        decision_id: None,
        reserved_budget: Decimal::zero(),
        reserved_quantity: 0,
        exercised_budget: Decimal::zero(),
        exercised_quantity: 0,
        decision_contract_version: 0,
        decision_gross_available_quantity: 0,
        decision_platform_residual_quantity: 0,
        decision_algorithm_authorized_quantity: 0,
        decision_algorithm_offered_quantity: 0,
        decision_pre_blocked_quantity: 0,
        decided_exercise_quantity: 0,
        decided_defer_quantity: 0,
        decision_platform_blocked_quantity: 0,
        decision_post_blocked_quantity: 0,
        decision_intent_quantity: 0,
        decision_remaining_quantity: 0,
        decision_is_algorithm: false,
        decision_recorded: false,
    }
}

/// The money that a right has not used, and never less than nothing.
pub open spec fn budget_left(right: GridRightView) -> Option<Decimal> {
    match minus(right.capacity.available_budget, right.exercised_budget) {
        Some(left) => Some(larger(left, Decimal::zero())),
        None => None,
    }
}

/// The shares that a right has not used, and never less than none. Nothing
/// where a sum on the way leaves the range.
pub open spec fn quantity_left(right: GridRightView) -> Option<i64> {
    let c = right.capacity;
    let covered = if right.direction == Direction::Buy && c.available_quantity > 0 {
        Some(c.available_quantity)
    } else {
        match c.eligible_quantity.checked_add(c.t_plus_one_blocked_quantity) {
            None => None,
            Some(x) => match x.checked_add(c.risk_blocked_quantity) {
                None => None,
                Some(x) => x.checked_add(c.no_profit_blocked_quantity),
            },
        }
    };
    match covered {
        None => None,
        Some(x) => match x.checked_sub(right.exercised_quantity) {
            None => None,
            Some(left) => Some(
                if left < 0 {
                    0i64
                } else {
                    left
                },
            ),
        },
    }
}

impl GridRight {
    /// The identifier of a right: the same crossing gives the same identifier.
    pub fn id_for(run_id: &str, cycle_id: &str, grid_index: i32, granted_at: Moment) -> (r: String)
        ensures
            r@ == named_id(right_name(run_id@, cycle_id@, grid_index, granted_at)),
    {
        let name = join(run_id, ":");
        let name = join(name.as_str(), cycle_id);
        let name = join(name.as_str(), ":right:");
        let index = signed_text(grid_index as i64);
        let name = join(name.as_str(), index.as_str());
        let name = join(name.as_str(), ":");
        let at = granted_at.text();
        let name = join(name.as_str(), at.as_str());
        id_of(name.as_str())
    }

    /// A right that has just been granted.
    pub fn granted(
        run_id: &str,
        cycle_id: &str,
        symbol: &str,
        direction: Direction,
        grid_index: i32,
        grid_price: Decimal,
        granted_at: Moment,
        capacity: GridRightCapacity,
    ) -> (r: Self)
        ensures
            r@ == fresh_right(
                run_id@,
                cycle_id@,
                symbol@,
                direction,
                grid_index,
                grid_price,
                granted_at,
                capacity@,
            ),
    {
        GridRight {
            right_id: Self::id_for(run_id, cycle_id, grid_index, granted_at),
            cycle_id: cycle_id.to_owned(),
            symbol: symbol.to_owned(),
            direction,
            grid_index,
            grid_price,
            granted_at,
            capacity,
            status: GridRightStatus::Granted,
            decision_id: None,
            reserved_budget: Decimal::nil(),
            reserved_quantity: 0,
            exercised_budget: Decimal::nil(),
            exercised_quantity: 0,
            decision_contract_version: 0,
            decision_gross_available_quantity: 0,
            decision_platform_residual_quantity: 0,
            decision_algorithm_authorized_quantity: 0,
            decision_algorithm_offered_quantity: 0,
            decision_pre_blocked_quantity: 0,
            decided_exercise_quantity: 0,
            decided_defer_quantity: 0,
            decision_platform_blocked_quantity: 0,
            decision_post_blocked_quantity: 0,
            decision_intent_quantity: 0,
            decision_remaining_quantity: 0,
            decision_is_algorithm: false,
            decision_recorded: false,
        }
    }

    /// The money that the right has not used, where it is in range.
    pub fn checked_remaining_budget(&self) -> (r: Option<Decimal>)
        ensures
            r == budget_left(self@),
    {
        match self.capacity.available_budget.checked_sub(self.exercised_budget) {
            Some(left) => Some(left.max(Decimal::nil())),
            None => None,
        }
    }

    /// The money that the right has not used.
    pub fn remaining_budget(&self) -> (r: Decimal)
        requires
            budget_left(self@) is Some,
        ensures
            Some(r) == budget_left(self@),
    {
        match self.checked_remaining_budget() {
            Some(left) => left,
            None => Decimal::nil(),
        }
    }

    /// The shares that the right has not used, where the sums are in range.
    pub fn checked_remaining_quantity(&self) -> (r: Option<i64>)
        ensures
            r == quantity_left(self@),
    {
        let covered: Option<i64> = if matches!(self.direction, Direction::Buy)
            && self.capacity.available_quantity > 0 {
            Some(self.capacity.available_quantity)
        } else {
            match self.capacity.eligible_quantity.checked_add(
                self.capacity.t_plus_one_blocked_quantity,
            ) {
                None => None,
                Some(x) => match x.checked_add(self.capacity.risk_blocked_quantity) {
                    None => None,
                    Some(x) => x.checked_add(self.capacity.no_profit_blocked_quantity),
                },
            }
        };
        match covered {
            None => None,
            Some(x) => match x.checked_sub(self.exercised_quantity) {
                None => None,
                Some(left) => Some(
                    if left < 0 {
                        0
                    } else {
                        left
                    },
                ),
            },
        }
    }

    /// The shares that the right has not used.
    pub fn remaining_quantity(&self) -> (r: i64)
        requires
            quantity_left(self@) is Some,
        ensures
            Some(r) == quantity_left(self@),
    {
        match self.checked_remaining_quantity() {
            Some(left) => left,
            None => 0,
        }
    }
}

/// A tranche that is minted for a positive amount, an owner and an epoch is in
/// order.
pub proof fn law_minted_tranches_are_in_order(
    cycle_id: Seq<char>,
    epoch: Seq<char>,
    birth: i32,
    owner: Seq<char>,
    lot_id: Seq<char>,
    quantity: i64,
)
    requires
        !blank(epoch),
        !blank(owner),
        birth != 0,
        quantity > 0,
        lot_id.len() > 0,
    ensures
        tranche_in_order(
            fresh_tranche(
                cycle_id,
                epoch,
                Direction::Sell,
                birth,
                RightTrancheUnit::Quantity,
                owner,
                Some(lot_id),
                Decimal::zero(),
                quantity,
            ),
        ),
        tranche_in_order(
            fresh_tranche(
                cycle_id,
                epoch,
                Direction::Buy,
                birth,
                RightTrancheUnit::Quantity,
                owner,
                None,
                Decimal::zero(),
                quantity,
            ),
        ),
{
    broadcast use crate::decimal::lemma_of_parts;

    crate::decimal::lemma_units_sign(Decimal::zero());
}

/// A tranche of money that is minted for a positive amount is in order.
pub proof fn law_minted_budgets_are_in_order(
    cycle_id: Seq<char>,
    epoch: Seq<char>,
    birth: i32,
    owner: Seq<char>,
    amount: Decimal,
)
    requires
        !blank(epoch),
        !blank(owner),
        birth != 0,
        amount.valid(),
        amount.units() > 0,
    ensures
        tranche_in_order(
            fresh_tranche(
                cycle_id,
                epoch,
                Direction::Buy,
                birth,
                RightTrancheUnit::Budget,
                owner,
                None,
                amount,
                0,
            ),
        ),
{
    broadcast use crate::decimal::lemma_of_parts;

    let z = Decimal::zero();
    crate::decimal::lemma_units_sign(z);
    crate::decimal::lemma_units_sign(amount);
    crate::decimal::lemma_known_by_parts(Decimal::of(amount.m(), amount.s()), amount);
    assert(plus(z, amount) == Some(amount));
    assert(plus(amount, z) == Some(amount));
}

} // verus!

//! The fee and slippage terms of a run.
use crate::config::{is_small_rate, small_rate};
use crate::decimal::{larger, plus, rounded_to, times, Decimal, Rounding};
use crate::model::ledger::ProfitGuardPolicy;
use crate::model::settings::{Config, ConfigView};
use vstd::prelude::*;

verus! {

/// The terms of a configuration.
pub open spec fn policy_of(c: ConfigView) -> ProfitGuardPolicy {
    ProfitGuardPolicy {
        price_scale: c.price_scale,
        commission_rate: c.commission_rate,
        minimum_commission: c.minimum_commission,
        sell_tax_rate: c.sell_tax_rate,
        slippage_rate: c.slippage_rate,
    }
}

impl vstd::std_specs::convert::FromSpecImpl<&Config> for ProfitGuardPolicy {
    open spec fn obeys_from_spec() -> bool {
        true
    }

    open spec fn from_spec(c: &Config) -> ProfitGuardPolicy {
        policy_of(c@)
    }
}

impl From<&Config> for ProfitGuardPolicy {
    fn from(c: &Config) -> (r: ProfitGuardPolicy) {
        ProfitGuardPolicy {
            price_scale: c.price_scale,
            commission_rate: c.commission_rate,
            minimum_commission: c.minimum_commission,
            sell_tax_rate: c.sell_tax_rate,
            slippage_rate: c.slippage_rate,
        }
    }
}

/// Whether the terms are in order.
pub open spec fn terms_in_order(p: ProfitGuardPolicy) -> bool {
    &&& p.price_scale <= 8
    &&& small_rate(p.commission_rate)
    &&& p.minimum_commission.units() >= 0
    &&& small_rate(p.sell_tax_rate)
    &&& 0 <= p.slippage_rate.units() < Decimal::one().units()
}

/// The cash that the first layouts of buy orders reserved: the notional at the
/// worst price and twice its commission. Nothing where a number leaves its
/// range.
pub open spec fn doubled_reservation(p: ProfitGuardPolicy, limit: Decimal, quantity: i64) -> Option<
    Decimal,
> {
    match plus(Decimal::one(), p.slippage_rate) {
        None => None,
        Some(factor) => match times(limit, factor) {
            None => None,
            Some(raw) => match times(
                rounded_to(raw, p.price_scale as nat, Rounding::ToPositiveInfinity),
                Decimal::whole(quantity as int),
            ) {
                None => None,
                Some(notional) => match times(notional, p.commission_rate) {
                    None => None,
                    Some(commission) => match times(
                        larger(commission, p.minimum_commission),
                        Decimal::whole(2),
                    ) {
                        None => None,
                        Some(twice) => plus(notional, twice),
                    },
                },
            },
        },
    }
}

impl ProfitGuardPolicy {
    /// Whether the terms are in order.
    pub fn is_in_order(&self) -> (r: bool)
        ensures
            r == terms_in_order(*self),
    {
        self.price_scale <= 8 && is_small_rate(&self.commission_rate)
            && !self.minimum_commission.is_negative() && is_small_rate(&self.sell_tax_rate)
            && !self.slippage_rate.is_negative() && self.slippage_rate.below(&Decimal::unit())
    }

    /// The cash that the first layouts of buy orders reserved.
    pub fn doubled_buy_reservation(&self, limit: Decimal, quantity: i64) -> (r: Option<Decimal>)
        ensures
            r == doubled_reservation(*self, limit, quantity),
    {
        let raw = match Decimal::unit().checked_add(self.slippage_rate) {
            Some(factor) => limit.checked_mul(factor),
            None => None,
        };
        let notional = match raw {
            Some(x) => x.round_dp(self.price_scale, Rounding::ToPositiveInfinity).checked_mul(
                Decimal::from_i64(quantity),
            ),
            None => None,
        };
        match notional {
            None => None,
            Some(n) => match n.checked_mul(self.commission_rate) {
                None => None,
                Some(commission) => match commission.max(self.minimum_commission).checked_mul(
                    Decimal::from_i64(2),
                ) {
                    None => None,
                    Some(twice) => n.checked_add(twice),
                },
            },
        }
    }
}

} // verus!

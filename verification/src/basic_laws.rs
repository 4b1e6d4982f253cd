//! What holds of the records, texts and layouts that everything else is made of.
use crate::digest::{hex_bytes, hex_digit, hex_text, hex_value, is_hex};
use crate::event::kinds::{current_schema, readable, EventType};
use crate::model::ledger::{
    lot_quantity_allocation_alike, profit_guard_policy_alike, LotQuantityAllocationView,
    ProfitGuardPolicy,
};
use crate::model::rights::{
    grid_right_capacity_alike, right_tranche_alike, GridRightCapacityView, RightTrancheView,
};
use crate::model::settings::{config_alike, ConfigView, GateSettingsView};
use crate::text::{
    blank, digit_char, digits_value, inserted_text, int_text, nat_text, sorted_texts, text_less,
    trimmed, white_space,
};
use vstd::prelude::*;

verus! {

/// The digits of a number denote it.
pub proof fn law_digits_denote_their_number(n: nat)
    ensures
        digits_value(nat_text(n)) == Some(n),
        nat_text(n).len() > 0,
    decreases n,
{
    let all = nat_text(n);
    if n < 10 {
        assert(all.drop_last() =~= Seq::<char>::empty());
        assert(digits_value(all.drop_last()) == Some(0nat));
        assert(all.last() == digit_char(n));
        lemma_digit(n);
    } else {
        law_digits_denote_their_number(n / 10);
        lemma_digit(n % 10);
        assert(all.drop_last() =~= nat_text(n / 10));
        assert(all.last() == digit_char(n % 10));
    }
}

proof fn lemma_digit(n: nat)
    requires
        n < 10,
    ensures
        '0' <= digit_char(n) <= '9',
        digit_char(n) as int - '0' as int == n,
{
}

/// Numbers with the same digits are the same, with or without a sign.
pub proof fn law_numbers_are_known_by_their_digits(a: int, b: int)
    requires
        int_text(a) == int_text(b),
    ensures
        a == b,
{
    let x: nat = (if a < 0 {
        -a
    } else {
        a
    }) as nat;
    let y: nat = (if b < 0 {
        -b
    } else {
        b
    }) as nat;
    law_digits_denote_their_number(x);
    law_digits_denote_their_number(y);
    lemma_first_digit(x);
    lemma_first_digit(y);
    if a < 0 && b < 0 {
        assert((seq!['-'] + nat_text(x)).drop_first() =~= nat_text(x));
        assert((seq!['-'] + nat_text(y)).drop_first() =~= nat_text(y));
    } else if a < 0 {
        assert((seq!['-'] + nat_text(x))[0] == '-');
    } else if b < 0 {
        assert((seq!['-'] + nat_text(y))[0] == '-');
    }
}

proof fn lemma_first_digit(n: nat)
    ensures
        nat_text(n).len() > 0,
        '0' <= nat_text(n)[0] <= '9',
    decreases n,
{
    if n < 10 {
        lemma_digit(n);
    } else {
        lemma_first_digit(n / 10);
        assert(nat_text(n)[0] == nat_text(n / 10)[0]);
    }
}

/// What is written in hexadecimal digits is read from them again.
pub proof fn law_hexadecimal_is_read_again(bytes: Seq<u8>)
    ensures
        is_hex(hex_text(bytes)),
        hex_bytes(hex_text(bytes)) == bytes,
{
    let text = hex_text(bytes);
    assert forall|i: int| 0 <= i < text.len() implies hex_value(#[trigger] text[i]) == Some(
        (if i % 2 == 0 {
            bytes[i / 2] as int / 16
        } else {
            bytes[i / 2] as int % 16
        }) as u8,
    ) by {
        let n = if i % 2 == 0 {
            bytes[i / 2] as int / 16
        } else {
            bytes[i / 2] as int % 16
        };
        assert(text[i] == hex_digit(n));
        lemma_hex_digit(n);
    }
    assert forall|i: int| 0 <= i < bytes.len() implies hex_bytes(text)[i] == bytes[i] by {
        assert(text[2 * i] == hex_digit(bytes[i] as int / 16)) by {
            assert((2 * i) / 2 == i && (2 * i) % 2 == 0);
        }
        assert(text[2 * i + 1] == hex_digit(bytes[i] as int % 16)) by {
            assert((2 * i + 1) / 2 == i && (2 * i + 1) % 2 == 1);
        }
        lemma_hex_digit(bytes[i] as int / 16);
        lemma_hex_digit(bytes[i] as int % 16);
    }
    assert(hex_bytes(text) =~= bytes);
}

proof fn lemma_hex_digit(n: int)
    requires
        0 <= n < 16,
    ensures
        hex_value(hex_digit(n)) == Some(n as u8),
{
}

/// A trimmed text neither begins nor ends with white space, and nothing is left exactly of
/// a blank one.
pub proof fn law_trimmed_texts_have_no_margin(s: Seq<char>)
    ensures
        trimmed(s).len() > 0 ==> !white_space(trimmed(s)[0]) && !white_space(trimmed(s).last()),
        trimmed(s).len() == 0 <==> blank(s),
        trimmed(trimmed(s)) == trimmed(s),
    decreases s.len(),
{
    if s.len() > 0 {
        if white_space(s[0]) {
            let rest = s.drop_first();
            law_trimmed_texts_have_no_margin(rest);
            assert(blank(s) <==> blank(rest)) by {
                if blank(rest) {
                    assert forall|i: int| 0 <= i < s.len() implies white_space(#[trigger] s[i]) by {
                        if i > 0 {
                            assert(rest[i - 1] == s[i]);
                        }
                    }
                }
                if blank(s) {
                    assert forall|i: int| 0 <= i < rest.len() implies white_space(
                        #[trigger] rest[i],
                    ) by {
                        assert(rest[i] == s[i + 1]);
                    }
                }
            }
        } else if white_space(s.last()) {
            law_trimmed_texts_have_no_margin(s.drop_last());
            assert(s.drop_last()[0] == s[0]);
        }
    }
}

proof fn lemma_inserted_sorted(list: Seq<Seq<char>>, t: Seq<char>)
    requires
        forall|i: int, j: int|
            0 <= i < j < list.len() ==> !text_less(#[trigger] list[j], #[trigger] list[i]),
    ensures
        forall|i: int, j: int|
            0 <= i < j < inserted_text(list, t).len() ==> !text_less(
                #[trigger] inserted_text(list, t)[j],
                #[trigger] inserted_text(list, t)[i],
            ),
        inserted_text(list, t).len() == list.len() + 1,
        forall|i: int|
            0 <= i < inserted_text(list, t).len() ==> (#[trigger] inserted_text(list, t)[i]) == t
                || list.contains(inserted_text(list, t)[i]),
    decreases list.len(),
{
    let all = inserted_text(list, t);
    if list.len() > 0 && text_less(t, list.last()) {
        let short = list.drop_last();
        assert forall|i: int, j: int| 0 <= i < j < short.len() implies !text_less(
            #[trigger] short[j],
            #[trigger] short[i],
        ) by {
            assert(short[j] == list[j] && short[i] == list[i]);
        }
        lemma_inserted_sorted(short, t);
        let r = inserted_text(short, t);
        assert(all == r.push(list.last()));
        assert forall|i: int, j: int| 0 <= i < j < all.len() implies !text_less(
            #[trigger] all[j],
            #[trigger] all[i],
        ) by {
            if j < r.len() {
                assert(all[j] == r[j] && all[i] == r[i]);
            } else {
                assert(all[i] == r[i]);
                if r[i] == t {
                    crate::text::lemma_text_less_irreflexive(t);
                    if text_less(list.last(), t) {
                        crate::text::lemma_text_less_transitive(t, list.last(), t);
                    }
                } else {
                    let k = choose|k: int| 0 <= k < short.len() && short[k] == r[i];
                    assert(list[k] == r[i]);
                    assert(!text_less(list[list.len() - 1], list[k]));
                }
            }
        }
        assert forall|i: int| 0 <= i < all.len() implies (#[trigger] all[i]) == t || list.contains(
            all[i],
        ) by {
            if i < r.len() {
                assert(all[i] == r[i]);
                if r[i] != t {
                    let k = choose|k: int| 0 <= k < short.len() && short[k] == r[i];
                    assert(list[k] == r[i]);
                }
            } else {
                assert(list[list.len() - 1] == all[i]);
            }
        }
    } else {
        assert(all == list.push(t));
        assert forall|i: int, j: int| 0 <= i < j < all.len() implies !text_less(
            #[trigger] all[j],
            #[trigger] all[i],
        ) by {
            if j == list.len() {
                if i < list.len() - 1 {
                    assert(!text_less(list[list.len() - 1], list[i]));
                    if text_less(t, list[i]) {
                        crate::text::lemma_text_less_total(list[i], list.last());
                        if text_less(list[i], list.last()) {
                            crate::text::lemma_text_less_transitive(t, list[i], list.last());
                        }
                    }
                }
            }
        }
        assert forall|i: int| 0 <= i < all.len() implies (#[trigger] all[i]) == t || list.contains(
            all[i],
        ) by {
            if i < list.len() {
                assert(list[i] == all[i]);
            }
        }
    }
}

/// Sorted texts are as many, and none comes before an earlier one.
pub proof fn law_sorted_texts_are_in_order(list: Seq<Seq<char>>)
    ensures
        sorted_texts(list).len() == list.len(),
        forall|i: int, j: int|
            0 <= i < j < sorted_texts(list).len() ==> !text_less(
                #[trigger] sorted_texts(list)[j],
                #[trigger] sorted_texts(list)[i],
            ),
    decreases list.len(),
{
    if list.len() > 0 {
        law_sorted_texts_are_in_order(list.drop_last());
        lemma_inserted_sorted(sorted_texts(list.drop_last()), list.last());
    }
}

/// Capacities that agree differ at most in how their money is written.
pub proof fn law_alike_capacities(a: GridRightCapacityView, b: GridRightCapacityView)
    ensures
        grid_right_capacity_alike(a, b) <==> {
            &&& a == (GridRightCapacityView {
                mechanical_budget_cap: a.mechanical_budget_cap,
                deployed_budget: a.deployed_budget,
                available_budget: a.available_budget,
                carried_in_budget: a.carried_in_budget,
                ..b
            })
            &&& a.mechanical_budget_cap.units() == b.mechanical_budget_cap.units()
            &&& a.deployed_budget.units() == b.deployed_budget.units()
            &&& a.available_budget.units() == b.available_budget.units()
            &&& a.carried_in_budget.units() == b.carried_in_budget.units()
        },
{
}

/// Tranches that agree differ at most in how their money is written.
pub proof fn law_alike_tranches(a: RightTrancheView, b: RightTrancheView)
    ensures
        right_tranche_alike(a, b) <==> {
            &&& a == (RightTrancheView {
                minted_budget: a.minted_budget,
                available_budget: a.available_budget,
                reserved_budget: a.reserved_budget,
                consumed_budget: a.consumed_budget,
                revoked_budget: a.revoked_budget,
                expired_budget: a.expired_budget,
                ..b
            })
            &&& a.minted_budget.units() == b.minted_budget.units()
            &&& a.available_budget.units() == b.available_budget.units()
            &&& a.reserved_budget.units() == b.reserved_budget.units()
            &&& a.consumed_budget.units() == b.consumed_budget.units()
            &&& a.revoked_budget.units() == b.revoked_budget.units()
            &&& a.expired_budget.units() == b.expired_budget.units()
        },
{
}

/// Allocations that agree differ at most in how their money is written.
pub proof fn law_alike_allocations(a: LotQuantityAllocationView, b: LotQuantityAllocationView)
    ensures
        lot_quantity_allocation_alike(a, b) <==> {
            &&& a == (LotQuantityAllocationView {
                cost_basis: a.cost_basis,
                worst_fill_price: a.worst_fill_price,
                maximum_sell_fees: a.maximum_sell_fees,
                worst_case_profit: a.worst_case_profit,
                ..b
            })
            &&& a.cost_basis.units() == b.cost_basis.units()
            &&& a.worst_fill_price.units() == b.worst_fill_price.units()
            &&& a.maximum_sell_fees.units() == b.maximum_sell_fees.units()
            &&& a.worst_case_profit.units() == b.worst_case_profit.units()
        },
{
}

/// Terms that agree differ at most in how their numbers are written.
pub proof fn law_alike_terms(a: ProfitGuardPolicy, b: ProfitGuardPolicy)
    ensures
        profit_guard_policy_alike(a, b) <==> {
            &&& a.price_scale == b.price_scale
            &&& a.commission_rate.units() == b.commission_rate.units()
            &&& a.minimum_commission.units() == b.minimum_commission.units()
            &&& a.sell_tax_rate.units() == b.sell_tax_rate.units()
            &&& a.slippage_rate.units() == b.slippage_rate.units()
        },
{
}

/// Configurations that agree differ at most in how their numbers are written.
pub proof fn law_alike_configurations(a: ConfigView, b: ConfigView)
    ensures
        config_alike(a, b) ==> {
            &&& a == (ConfigView {
                anchor_price: a.anchor_price,
                grid_ratio: a.grid_ratio,
                standard_budget: a.standard_budget,
                initial_cash: a.initial_cash,
                hysteresis_ratio: a.hysteresis_ratio,
                commission_rate: a.commission_rate,
                minimum_commission: a.minimum_commission,
                sell_tax_rate: a.sell_tax_rate,
                slippage_rate: a.slippage_rate,
                gate: a.gate,
                ..b
            })
            &&& a.gate == (GateSettingsView {
                probability: a.gate.probability,
                alpha: a.gate.alpha,
                capital_inventory: a.gate.capital_inventory,
                ..b.gate
            })
            &&& a.anchor_price.units() == b.anchor_price.units()
            &&& a.grid_ratio.units() == b.grid_ratio.units()
            &&& a.standard_budget.units() == b.standard_budget.units()
            &&& a.initial_cash.units() == b.initial_cash.units()
            &&& a.hysteresis_ratio.units() == b.hysteresis_ratio.units()
            &&& a.commission_rate.units() == b.commission_rate.units()
            &&& a.minimum_commission.units() == b.minimum_commission.units()
            &&& a.sell_tax_rate.units() == b.sell_tax_rate.units()
            &&& a.slippage_rate.units() == b.slippage_rate.units()
            &&& a.gate.probability.units() == b.gate.probability.units()
            &&& a.gate.alpha.units() == b.gate.alpha.units()
            &&& match (a.gate.capital_inventory, b.gate.capital_inventory) {
                (Some(x), Some(y)) => x.minimum_free_cash.units() == y.minimum_free_cash.units()
                    && x.target_position == y.target_position && x.deploy_initial_balance
                    == y.deploy_initial_balance,
                (None, None) => true,
                _ => false,
            }
        },
        config_alike(a, a),
{
}

/// Every layout up to the written one can be read, but that what is held as a rest began
/// with its third one; no layout of zero or less can be read, and only of kinds that had
/// three can one past the written one.
pub proof fn law_layouts_stay_readable(t: EventType, version: i32)
    ensures
        1 <= version <= current_schema(t) && t != EventType::GridRightResidualHeld ==> readable(
            t,
            version,
        ),
        t == EventType::GridRightResidualHeld ==> (readable(t, version) <==> version == 3),
        version < 1 ==> !readable(t, version),
        version > current_schema(t) && readable(t, version) ==> current_schema(t) == 2 && version
            == 3,
{
}

} // verus!

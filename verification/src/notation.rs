//! The JSON notation of what digests are taken of.
use crate::clock::{iso_text, Moment};
use crate::config::canonical_config;
use crate::data::{quote_decimal, quoted_decimal};
use crate::decimal::Decimal;
use crate::decision::{DECISION_CONTRACT_VERSION, WHOLE_UNIT_DECISION_CONTRACT_VERSION};
use crate::digest::{digest_shaped, text_digest, text_sha256};
use crate::json::{quote, quoted, write_flag};
use crate::model::gates::{
    FundsInventoryContextV1, FundsInventoryContextV1View, GateContext, GateContextView,
};
use crate::model::market::Direction;
use crate::model::settings::{
    CapitalInventorySettings, Config, ConfigView, GateSettings, GateSettingsView, PaperSettings,
};
use crate::text::{int_text, join, nat_text, signed_text, unsigned_text};
use vstd::prelude::*;

verus! {

/// The notation of a truth value.
pub open spec fn flag_text(b: bool) -> Seq<char> {
    if b {
        "true"@
    } else {
        "false"@
    }
}

/// The notation of a decimal that may be absent.
pub open spec fn optional_decimal(d: Option<Decimal>) -> Seq<char> {
    match d {
        Some(x) => quoted_decimal(x),
        None => "null"@,
    }
}

fn write_optional_decimal(d: &Option<Decimal>) -> (r: String)
    ensures
        r@ == optional_decimal(*d),
{
    match d {
        Some(x) => quote_decimal(x),
        None => "null".to_owned(),
    }
}

/// The notation of a moment: its day and its time of day with a `T` between
/// them, in quotes.
pub open spec fn quoted_moment(at: Moment) -> Seq<char> {
    quoted(iso_text(at.d(), at.s(), at.n()))
}

fn quote_moment(at: &Moment) -> (r: String)
    ensures
        r@ == quoted_moment(*at),
{
    let text = at.iso();
    quote(text.as_str())
}

/// The notation of a direction.
pub open spec fn quoted_direction(d: Direction) -> Seq<char> {
    match d {
        Direction::Buy => "\"BUY\""@,
        Direction::Sell => "\"SELL\""@,
    }
}

fn quote_direction(d: Direction) -> (r: String)
    ensures
        r@ == quoted_direction(d),
{
    match d {
        Direction::Buy => "\"BUY\"".to_owned(),
        Direction::Sell => "\"SELL\"".to_owned(),
    }
}

/// The notation of the first `n` texts, with commas between them.
pub open spec fn first_texts(list: Seq<Seq<char>>, n: nat) -> Seq<char>
    decreases n,
{
    if n == 0 {
        ""@
    } else if n == 1 {
        quoted(list[0])
    } else {
        first_texts(list, (n - 1) as nat) + ","@ + quoted(list[n - 1])
    }
}

/// The notation of a list of texts.
pub open spec fn text_list(list: Seq<Seq<char>>) -> Seq<char> {
    "["@ + first_texts(list, list.len()) + "]"@
}

fn write_texts(list: &Vec<String>) -> (r: String)
    ensures
        r@ == text_list(list.deep_view()),
{
    let ghost all = list.deep_view();
    let mut t = "".to_owned();
    let mut i: usize = 0;
    while i < list.len()
        invariant
            i <= list.len(),
            all == list.deep_view(),
            t@ == first_texts(all, i as nat),
        decreases list.len() - i,
    {
        assert(all[i as int] == list[i as int]@);
        let item = quote(list[i].as_str());
        t = if i == 0 {
            item
        } else {
            with_field(t.as_str(), ",", item.as_str())
        };
        i = i + 1;
    }
    with_field("[", t.as_str(), "]")
}

/// The notation of the first `n` indices, with commas between them.
pub open spec fn first_indices(list: Seq<i32>, n: nat) -> Seq<char>
    decreases n,
{
    if n == 0 {
        ""@
    } else if n == 1 {
        int_text(list[0] as int)
    } else {
        first_indices(list, (n - 1) as nat) + ","@ + int_text(list[n - 1] as int)
    }
}

/// The notation of a list of indices.
pub open spec fn index_list(list: Seq<i32>) -> Seq<char> {
    "["@ + first_indices(list, list.len()) + "]"@
}

fn write_indices(list: &Vec<i32>) -> (r: String)
    ensures
        r@ == index_list(list.deep_view()),
{
    let ghost all = list.deep_view();
    let mut t = "".to_owned();
    let mut i: usize = 0;
    while i < list.len()
        invariant
            i <= list.len(),
            all == list.deep_view(),
            t@ == first_indices(all, i as nat),
        decreases list.len() - i,
    {
        assert(all[i as int] == list[i as int]);
        let item = signed_text(list[i] as i64);
        t = if i == 0 {
            item
        } else {
            with_field(t.as_str(), ",", item.as_str())
        };
        i = i + 1;
    }
    with_field("[", t.as_str(), "]")
}

/// A text with two more behind it.
fn with_field(t: &str, name: &str, value: &str) -> (r: String)
    ensures
        r@ == t@ + name@ + value@,
{
    let u = join(t, name);
    join(u.as_str(), value)
}

/// The notation of the evidence on funds and inventory.
#[verifier::opaque]
pub open spec fn evidence_text(f: FundsInventoryContextV1View) -> Seq<char> {
    let t = "{\"schema_version\":"@ + nat_text(f.schema_version as nat);
    let t = t + ",\"feature_head_sequence\":"@ + int_text(f.feature_head_sequence as int);
    let t = t + ",\"feature_bar_ids\":"@ + text_list(f.feature_bar_ids);
    let t = t + ",\"feature_bars_sha256\":"@ + quoted(f.feature_bars_sha256);
    let t = t + ",\"history_bars\":"@ + nat_text(f.history_bars as nat);
    let t = t + ",\"short_window\":"@ + nat_text(f.short_window as nat);
    let t = t + ",\"long_window\":"@ + nat_text(f.long_window as nat);
    let t = t + ",\"trade_levels\":"@ + int_text(f.trade_levels as int);
    let t = t + ",\"weight_depth\":"@ + quoted_decimal(f.weight_depth);
    let t = t + ",\"weight_trend\":"@ + quoted_decimal(f.weight_trend);
    let t = t + ",\"weight_location\":"@ + quoted_decimal(f.weight_location);
    let t = t + ",\"market_threshold\":"@ + quoted_decimal(f.market_threshold);
    let t = t + ",\"depth\":"@ + quoted_decimal(f.depth);
    let t = t + ",\"recent_return_5\":"@ + quoted_decimal(f.recent_return_5);
    let t = t + ",\"vwap_deviation_20\":"@ + quoted_decimal(f.vwap_deviation_20);
    let t = t + ",\"range_scale_20\":"@ + quoted_decimal(f.range_scale_20);
    let t = t + ",\"trend_strength\":"@ + quoted_decimal(f.trend_strength);
    let t = t + ",\"location_strength\":"@ + quoted_decimal(f.location_strength);
    let t = t + ",\"market_score\":"@ + quoted_decimal(f.market_score);
    let t = t + ",\"market_signal_passed\":"@ + flag_text(f.market_signal_passed);
    let t = t + ",\"cash_available\":"@ + quoted_decimal(f.cash_available);
    let t = t + ",\"cash_frozen\":"@ + quoted_decimal(f.cash_frozen);
    let t = t + ",\"minimum_free_cash\":"@ + quoted_decimal(f.minimum_free_cash);
    let t = t + ",\"spendable_cash\":"@ + quoted_decimal(f.spendable_cash);
    let t = t + ",\"adverse_buy_price\":"@ + optional_decimal(f.adverse_buy_price);
    let t = t + ",\"cash_affordable_units\":"@ + int_text(f.cash_affordable_units as int);
    let t = t + ",\"position_total\":"@ + int_text(f.position_total as int);
    let t = t + ",\"pending_buy_quantity\":"@ + int_text(f.pending_buy_quantity as int);
    let t = t + ",\"position_exposure_quantity\":"@ + int_text(f.position_exposure_quantity as int);
    let t = t + ",\"position_sellable\":"@ + int_text(f.position_sellable as int);
    let t = t + ",\"position_today_bought\":"@ + int_text(f.position_today_bought as int);
    let t = t + ",\"position_frozen_sell\":"@ + int_text(f.position_frozen_sell as int);
    let t = t + ",\"max_position\":"@ + int_text(f.max_position as int);
    let t = t + ",\"min_base_position\":"@ + int_text(f.min_base_position as int);
    let t = t + ",\"target_position\":"@ + int_text(f.target_position as int);
    let t = t + ",\"position_headroom_units\":"@ + int_text(f.position_headroom_units as int);
    let t = t + ",\"target_headroom_units\":"@ + int_text(f.target_headroom_units as int);
    let t = t + ",\"sellable_inventory_units\":"@ + int_text(f.sellable_inventory_units as int);
    let t = t
        + ",\"mechanical_authorized_units\":"@ + int_text(f.mechanical_authorized_units as int);
    let t = t + ",\"resource_units\":"@ + int_text(f.resource_units as int);
    let t = t + ",\"predecision_blocked_units\":"@ + int_text(f.predecision_blocked_units as int);
    let t = t + ",\"resource_ratio\":"@ + quoted_decimal(f.resource_ratio);
    let t = t + ",\"resource_multiplier\":"@ + quoted_decimal(f.resource_multiplier);
    let t = t + ",\"pace\":"@ + quoted_decimal(f.pace);
    let t = t + ",\"target_units\":"@ + int_text(f.target_units as int);
    t + "}"@
}

fn encode_evidence(f: &FundsInventoryContextV1) -> (r: String)
    ensures
        r@ == evidence_text(f@),
{
    reveal(evidence_text);
    let t = join("{\"schema_version\":", unsigned_text(f.schema_version as u128).as_str());
    let t = with_field(
        t.as_str(),
        ",\"feature_head_sequence\":",
        signed_text(f.feature_head_sequence).as_str(),
    );
    let t = with_field(
        t.as_str(),
        ",\"feature_bar_ids\":",
        write_texts(&f.feature_bar_ids).as_str(),
    );
    let t = with_field(
        t.as_str(),
        ",\"feature_bars_sha256\":",
        quote(f.feature_bars_sha256.as_str()).as_str(),
    );
    let t = with_field(
        t.as_str(),
        ",\"history_bars\":",
        unsigned_text(f.history_bars as u128).as_str(),
    );
    let t = with_field(
        t.as_str(),
        ",\"short_window\":",
        unsigned_text(f.short_window as u128).as_str(),
    );
    let t = with_field(
        t.as_str(),
        ",\"long_window\":",
        unsigned_text(f.long_window as u128).as_str(),
    );
    let t = with_field(
        t.as_str(),
        ",\"trade_levels\":",
        signed_text(f.trade_levels as i64).as_str(),
    );
    let t = with_field(t.as_str(), ",\"weight_depth\":", quote_decimal(&f.weight_depth).as_str());
    let t = with_field(t.as_str(), ",\"weight_trend\":", quote_decimal(&f.weight_trend).as_str());
    let t = with_field(
        t.as_str(),
        ",\"weight_location\":",
        quote_decimal(&f.weight_location).as_str(),
    );
    let t = with_field(
        t.as_str(),
        ",\"market_threshold\":",
        quote_decimal(&f.market_threshold).as_str(),
    );
    let t = with_field(t.as_str(), ",\"depth\":", quote_decimal(&f.depth).as_str());
    let t = with_field(
        t.as_str(),
        ",\"recent_return_5\":",
        quote_decimal(&f.recent_return_5).as_str(),
    );
    let t = with_field(
        t.as_str(),
        ",\"vwap_deviation_20\":",
        quote_decimal(&f.vwap_deviation_20).as_str(),
    );
    let t = with_field(
        t.as_str(),
        ",\"range_scale_20\":",
        quote_decimal(&f.range_scale_20).as_str(),
    );
    let t = with_field(
        t.as_str(),
        ",\"trend_strength\":",
        quote_decimal(&f.trend_strength).as_str(),
    );
    let t = with_field(
        t.as_str(),
        ",\"location_strength\":",
        quote_decimal(&f.location_strength).as_str(),
    );
    let t = with_field(t.as_str(), ",\"market_score\":", quote_decimal(&f.market_score).as_str());
    let t = with_field(
        t.as_str(),
        ",\"market_signal_passed\":",
        write_flag(Some(f.market_signal_passed)).as_str(),
    );
    let t = with_field(
        t.as_str(),
        ",\"cash_available\":",
        quote_decimal(&f.cash_available).as_str(),
    );
    let t = with_field(t.as_str(), ",\"cash_frozen\":", quote_decimal(&f.cash_frozen).as_str());
    let t = with_field(
        t.as_str(),
        ",\"minimum_free_cash\":",
        quote_decimal(&f.minimum_free_cash).as_str(),
    );
    let t = with_field(
        t.as_str(),
        ",\"spendable_cash\":",
        quote_decimal(&f.spendable_cash).as_str(),
    );
    let t = with_field(
        t.as_str(),
        ",\"adverse_buy_price\":",
        write_optional_decimal(&f.adverse_buy_price).as_str(),
    );
    let t = with_field(
        t.as_str(),
        ",\"cash_affordable_units\":",
        signed_text(f.cash_affordable_units).as_str(),
    );
    let t = with_field(t.as_str(), ",\"position_total\":", signed_text(f.position_total).as_str());
    let t = with_field(
        t.as_str(),
        ",\"pending_buy_quantity\":",
        signed_text(f.pending_buy_quantity).as_str(),
    );
    let t = with_field(
        t.as_str(),
        ",\"position_exposure_quantity\":",
        signed_text(f.position_exposure_quantity).as_str(),
    );
    let t = with_field(
        t.as_str(),
        ",\"position_sellable\":",
        signed_text(f.position_sellable).as_str(),
    );
    let t = with_field(
        t.as_str(),
        ",\"position_today_bought\":",
        signed_text(f.position_today_bought).as_str(),
    );
    let t = with_field(
        t.as_str(),
        ",\"position_frozen_sell\":",
        signed_text(f.position_frozen_sell).as_str(),
    );
    let t = with_field(t.as_str(), ",\"max_position\":", signed_text(f.max_position).as_str());
    let t = with_field(
        t.as_str(),
        ",\"min_base_position\":",
        signed_text(f.min_base_position).as_str(),
    );
    let t = with_field(
        t.as_str(),
        ",\"target_position\":",
        signed_text(f.target_position).as_str(),
    );
    let t = with_field(
        t.as_str(),
        ",\"position_headroom_units\":",
        signed_text(f.position_headroom_units).as_str(),
    );
    let t = with_field(
        t.as_str(),
        ",\"target_headroom_units\":",
        signed_text(f.target_headroom_units).as_str(),
    );
    let t = with_field(
        t.as_str(),
        ",\"sellable_inventory_units\":",
        signed_text(f.sellable_inventory_units).as_str(),
    );
    let t = with_field(
        t.as_str(),
        ",\"mechanical_authorized_units\":",
        signed_text(f.mechanical_authorized_units).as_str(),
    );
    let t = with_field(t.as_str(), ",\"resource_units\":", signed_text(f.resource_units).as_str());
    let t = with_field(
        t.as_str(),
        ",\"predecision_blocked_units\":",
        signed_text(f.predecision_blocked_units).as_str(),
    );
    let t = with_field(
        t.as_str(),
        ",\"resource_ratio\":",
        quote_decimal(&f.resource_ratio).as_str(),
    );
    let t = with_field(
        t.as_str(),
        ",\"resource_multiplier\":",
        quote_decimal(&f.resource_multiplier).as_str(),
    );
    let t = with_field(t.as_str(), ",\"pace\":", quote_decimal(&f.pace).as_str());
    let t = with_field(t.as_str(), ",\"target_units\":", signed_text(f.target_units).as_str());
    join(t.as_str(), "}")
}

/// The notation of a context under a contract: the quantities that the platform
/// splits off belong to it from the whole-unit contract on, the evidence under
/// the contract with evidence.
#[verifier::opaque]
pub open spec fn context_text(c: GateContextView, version: u32) -> Seq<char> {
    let t = "{\"right_id\":"@ + quoted(c.right_id);
    let t = t + ",\"symbol\":"@ + quoted(c.symbol);
    let t = t + ",\"direction\":"@ + quoted_direction(c.direction);
    let t = t + ",\"grid_index\":"@ + int_text(c.grid_index as int);
    let t = t + ",\"grid_price\":"@ + quoted_decimal(c.grid_price);
    let t = t + ",\"current_price\":"@ + quoted_decimal(c.current_price);
    let t = t + ",\"current_time\":"@ + quoted_moment(c.current_time);
    let t = t + ",\"available_budget\":"@ + quoted_decimal(c.available_budget);
    let t = t + ",\"available_quantity\":"@ + int_text(c.available_quantity as int);
    let t = if version >= WHOLE_UNIT_DECISION_CONTRACT_VERSION {
        t
            + ",\"gross_available_quantity\":"@ + int_text(c.gross_available_quantity as int)
            + ",\"platform_residual_quantity\":"@ + int_text(c.platform_residual_quantity as int)
            + ",\"algorithm_authorized_quantity\":"@ + int_text(c.algorithm_authorized_quantity as int)
    } else {
        t
    };
    let t = t + ",\"lot_size\":"@ + int_text(c.lot_size as int);
    let t = t + ",\"standard_quantity\":"@ + int_text(c.standard_quantity as int);
    let t = t + ",\"eligible_lot_ids\":"@ + text_list(c.eligible_lot_ids);
    let t = t + ",\"accumulated_grid_indices\":"@ + index_list(c.accumulated_grid_indices);
    let t = t + ",\"deployed_budget\":"@ + quoted_decimal(c.deployed_budget);
    let t = t + ",\"current_position\":"@ + int_text(c.current_position as int);
    let t = t + ",\"sellable_position\":"@ + int_text(c.sellable_position as int);
    let t = t + ",\"recent_return\":"@ + quoted_decimal(c.recent_return);
    let t = t + ",\"vwap_deviation\":"@ + quoted_decimal(c.vwap_deviation);
    let t = t + ",\"volatility\":"@ + quoted_decimal(c.volatility);
    let t = t + ",\"market_regime\":"@ + quoted(c.market_regime);
    let t = t + ",\"cycle_id\":"@ + quoted(c.cycle_id);
    let t = if version >= DECISION_CONTRACT_VERSION && c.funds_inventory is Some {
        t + ",\"funds_inventory\":"@ + evidence_text(c.funds_inventory->0)
    } else {
        t
    };
    t + "}"@
}

fn encode_context(c: &GateContext, version: u32) -> (r: String)
    ensures
        r@ == context_text(c@, version),
{
    reveal(context_text);
    let t = join("{\"right_id\":", quote(c.right_id.as_str()).as_str());
    let t = with_field(t.as_str(), ",\"symbol\":", quote(c.symbol.as_str()).as_str());
    let t = with_field(t.as_str(), ",\"direction\":", quote_direction(c.direction).as_str());
    let t = with_field(t.as_str(), ",\"grid_index\":", signed_text(c.grid_index as i64).as_str());
    let t = with_field(t.as_str(), ",\"grid_price\":", quote_decimal(&c.grid_price).as_str());
    let t = with_field(t.as_str(), ",\"current_price\":", quote_decimal(&c.current_price).as_str());
    let t = with_field(t.as_str(), ",\"current_time\":", quote_moment(&c.current_time).as_str());
    let t = with_field(
        t.as_str(),
        ",\"available_budget\":",
        quote_decimal(&c.available_budget).as_str(),
    );
    let t = with_field(
        t.as_str(),
        ",\"available_quantity\":",
        signed_text(c.available_quantity).as_str(),
    );
    let t = if version >= WHOLE_UNIT_DECISION_CONTRACT_VERSION {
        let t = with_field(
            t.as_str(),
            ",\"gross_available_quantity\":",
            signed_text(c.gross_available_quantity).as_str(),
        );
        let t = with_field(
            t.as_str(),
            ",\"platform_residual_quantity\":",
            signed_text(c.platform_residual_quantity).as_str(),
        );
        let t = with_field(
            t.as_str(),
            ",\"algorithm_authorized_quantity\":",
            signed_text(c.algorithm_authorized_quantity).as_str(),
        );
        t
    } else {
        t
    };
    let t = with_field(t.as_str(), ",\"lot_size\":", signed_text(c.lot_size).as_str());
    let t = with_field(
        t.as_str(),
        ",\"standard_quantity\":",
        signed_text(c.standard_quantity).as_str(),
    );
    let t = with_field(
        t.as_str(),
        ",\"eligible_lot_ids\":",
        write_texts(&c.eligible_lot_ids).as_str(),
    );
    let t = with_field(
        t.as_str(),
        ",\"accumulated_grid_indices\":",
        write_indices(&c.accumulated_grid_indices).as_str(),
    );
    let t = with_field(
        t.as_str(),
        ",\"deployed_budget\":",
        quote_decimal(&c.deployed_budget).as_str(),
    );
    let t = with_field(
        t.as_str(),
        ",\"current_position\":",
        signed_text(c.current_position).as_str(),
    );
    let t = with_field(
        t.as_str(),
        ",\"sellable_position\":",
        signed_text(c.sellable_position).as_str(),
    );
    let t = with_field(t.as_str(), ",\"recent_return\":", quote_decimal(&c.recent_return).as_str());
    let t = with_field(
        t.as_str(),
        ",\"vwap_deviation\":",
        quote_decimal(&c.vwap_deviation).as_str(),
    );
    let t = with_field(t.as_str(), ",\"volatility\":", quote_decimal(&c.volatility).as_str());
    let t = with_field(t.as_str(), ",\"market_regime\":", quote(c.market_regime.as_str()).as_str());
    let t = with_field(t.as_str(), ",\"cycle_id\":", quote(c.cycle_id.as_str()).as_str());
    let t = match &c.funds_inventory {
        Some(f) => if version >= DECISION_CONTRACT_VERSION {
            with_field(t.as_str(), ",\"funds_inventory\":", encode_evidence(f).as_str())
        } else {
            t
        },
        None => t,
    };
    join(t.as_str(), "}")
}

/// The digest of a context under a contract.
pub open spec fn context_digest(c: GateContextView, version: u32) -> Seq<char> {
    text_digest(context_text(c, version))
}

/// The digest of a context under a contract.
pub fn digest_context(c: &GateContext, version: u32) -> (r: String)
    ensures
        r@ == context_digest(c@, version),
{
    let t = encode_context(c, version);
    text_sha256(t.as_str())
}

/// The notation of the settings on capital and inventory.
pub open spec fn inventory_text(s: CapitalInventorySettings) -> Seq<char> {
    let t = "{\"minimum_free_cash\":"@ + quoted_decimal(s.minimum_free_cash);
    let t = t + ",\"target_position\":"@ + int_text(s.target_position as int);
    let t = if s.deploy_initial_balance {
        t + ",\"deploy_initial_balance\":"@ + flag_text(true)
    } else {
        t
    };
    t + "}"@
}

fn encode_inventory(s: &CapitalInventorySettings) -> (r: String)
    ensures
        r@ == inventory_text(*s),
{
    let t = join("{\"minimum_free_cash\":", quote_decimal(&s.minimum_free_cash).as_str());
    let t = with_field(
        t.as_str(),
        ",\"target_position\":",
        signed_text(s.target_position).as_str(),
    );
    let t = if s.deploy_initial_balance {
        with_field(t.as_str(), ",\"deploy_initial_balance\":", write_flag(Some(true)).as_str())
    } else {
        t
    };
    join(t.as_str(), "}")
}

/// The notation of the settings of a gate.
pub open spec fn gate_text(g: GateSettingsView) -> Seq<char> {
    let t = "{\"kind\":"@ + quoted(g.kind);
    let t = t + ",\"probability\":"@ + quoted_decimal(g.probability);
    let t = t + ",\"alpha\":"@ + quoted_decimal(g.alpha);
    let t = t + ",\"failure_mode\":"@ + quoted(g.failure_mode);
    let t = t + ",\"timeout_ms\":"@ + nat_text(g.timeout_ms as nat);
    let t = match g.capital_inventory {
        Some(s) => t + ",\"capital_inventory\":"@ + inventory_text(s),
        None => t,
    };
    t + "}"@
}

fn encode_gate(g: &GateSettings) -> (r: String)
    ensures
        r@ == gate_text(g@),
{
    let t = join("{\"kind\":", quote(g.kind.as_str()).as_str());
    let t = with_field(t.as_str(), ",\"probability\":", quote_decimal(&g.probability).as_str());
    let t = with_field(t.as_str(), ",\"alpha\":", quote_decimal(&g.alpha).as_str());
    let t = with_field(t.as_str(), ",\"failure_mode\":", quote(g.failure_mode.as_str()).as_str());
    let t = with_field(
        t.as_str(),
        ",\"timeout_ms\":",
        unsigned_text(g.timeout_ms as u128).as_str(),
    );
    let t = match &g.capital_inventory {
        Some(s) => with_field(
            t.as_str(),
            ",\"capital_inventory\":",
            encode_inventory(s).as_str(),
        ),
        None => t,
    };
    join(t.as_str(), "}")
}

/// The notation of the settings of paper trading, with or without the
/// probability of holding orders open.
pub open spec fn paper_text(p: PaperSettings, hold_open: bool) -> Seq<char> {
    let t = "{\"reject_probability_bps\":"@ + nat_text(p.reject_probability_bps as nat);
    let t = t + ",\"partial_fill_bps\":"@ + nat_text(p.partial_fill_bps as nat);
    let t = t + ",\"latency_ms\":"@ + nat_text(p.latency_ms as nat);
    let t = t + ",\"seed\":"@ + nat_text(p.seed as nat);
    let t = if hold_open {
        t + ",\"hold_open_probability_bps\":"@ + nat_text(p.hold_open_probability_bps as nat)
    } else {
        t
    };
    t + "}"@
}

fn encode_paper(p: &PaperSettings, hold_open: bool) -> (r: String)
    ensures
        r@ == paper_text(*p, hold_open),
{
    let t = join(
        "{\"reject_probability_bps\":",
        unsigned_text(p.reject_probability_bps as u128).as_str(),
    );
    let t = with_field(
        t.as_str(),
        ",\"partial_fill_bps\":",
        unsigned_text(p.partial_fill_bps as u128).as_str(),
    );
    let t = with_field(
        t.as_str(),
        ",\"latency_ms\":",
        unsigned_text(p.latency_ms as u128).as_str(),
    );
    let t = with_field(t.as_str(), ",\"seed\":", unsigned_text(p.seed as u128).as_str());
    let t = if hold_open {
        with_field(
            t.as_str(),
            ",\"hold_open_probability_bps\":",
            unsigned_text(p.hold_open_probability_bps as u128).as_str(),
        )
    } else {
        t
    };
    join(t.as_str(), "}")
}

/// The notation of a configuration, with or without what came to it later: the
/// standard quantity and the probability of holding orders open.
#[verifier::opaque]
pub open spec fn config_text(c: ConfigView, quantity: bool, hold_open: bool) -> Seq<char> {
    let t = "{\"symbol\":"@ + quoted(c.symbol);
    let t = t + ",\"anchor_price\":"@ + quoted_decimal(c.anchor_price);
    let t = t + ",\"grid_ratio\":"@ + quoted_decimal(c.grid_ratio);
    let t = t + ",\"trade_levels\":"@ + int_text(c.trade_levels as int);
    let t = t + ",\"boundary_levels\":"@ + int_text(c.boundary_levels as int);
    let t = t + ",\"standard_budget\":"@ + quoted_decimal(c.standard_budget);
    let t = if quantity {
        t + ",\"standard_quantity\":"@ + int_text(c.standard_quantity as int)
    } else {
        t
    };
    let t = t + ",\"initial_cash\":"@ + quoted_decimal(c.initial_cash);
    let t = t + ",\"initial_position\":"@ + int_text(c.initial_position as int);
    let t = t + ",\"initial_sellable\":"@ + int_text(c.initial_sellable as int);
    let t = t + ",\"max_position\":"@ + int_text(c.max_position as int);
    let t = t + ",\"min_base_position\":"@ + int_text(c.min_base_position as int);
    let t = t + ",\"lot_size\":"@ + int_text(c.lot_size as int);
    let t = t + ",\"price_scale\":"@ + nat_text(c.price_scale as nat);
    let t = t + ",\"hysteresis_ratio\":"@ + quoted_decimal(c.hysteresis_ratio);
    let t = t + ",\"commission_rate\":"@ + quoted_decimal(c.commission_rate);
    let t = t + ",\"minimum_commission\":"@ + quoted_decimal(c.minimum_commission);
    let t = t + ",\"sell_tax_rate\":"@ + quoted_decimal(c.sell_tax_rate);
    let t = t + ",\"slippage_rate\":"@ + quoted_decimal(c.slippage_rate);
    let t = t + ",\"gate\":"@ + gate_text(c.gate);
    let t = t + ",\"paper\":"@ + paper_text(c.paper, hold_open);
    let t = t + ",\"ambiguity_policy\":"@ + quoted(c.ambiguity_policy);
    let t = t + ",\"database\":"@ + quoted(c.database);
    let t = t + ",\"config_version\":"@ + quoted(c.config_version);
    t + "}"@
}

fn encode_config(c: &Config, quantity: bool, hold_open: bool) -> (r: String)
    ensures
        r@ == config_text(c@, quantity, hold_open),
{
    reveal(config_text);
    let t = join("{\"symbol\":", quote(c.symbol.as_str()).as_str());
    let t = with_field(t.as_str(), ",\"anchor_price\":", quote_decimal(&c.anchor_price).as_str());
    let t = with_field(t.as_str(), ",\"grid_ratio\":", quote_decimal(&c.grid_ratio).as_str());
    let t = with_field(
        t.as_str(),
        ",\"trade_levels\":",
        signed_text(c.trade_levels as i64).as_str(),
    );
    let t = with_field(
        t.as_str(),
        ",\"boundary_levels\":",
        signed_text(c.boundary_levels as i64).as_str(),
    );
    let t = with_field(
        t.as_str(),
        ",\"standard_budget\":",
        quote_decimal(&c.standard_budget).as_str(),
    );
    let t = if quantity {
        let t = with_field(
            t.as_str(),
            ",\"standard_quantity\":",
            signed_text(c.standard_quantity).as_str(),
        );
        t
    } else {
        t
    };
    let t = with_field(t.as_str(), ",\"initial_cash\":", quote_decimal(&c.initial_cash).as_str());
    let t = with_field(
        t.as_str(),
        ",\"initial_position\":",
        signed_text(c.initial_position).as_str(),
    );
    let t = with_field(
        t.as_str(),
        ",\"initial_sellable\":",
        signed_text(c.initial_sellable).as_str(),
    );
    let t = with_field(t.as_str(), ",\"max_position\":", signed_text(c.max_position).as_str());
    let t = with_field(
        t.as_str(),
        ",\"min_base_position\":",
        signed_text(c.min_base_position).as_str(),
    );
    let t = with_field(t.as_str(), ",\"lot_size\":", signed_text(c.lot_size).as_str());
    let t = with_field(
        t.as_str(),
        ",\"price_scale\":",
        unsigned_text(c.price_scale as u128).as_str(),
    );
    let t = with_field(
        t.as_str(),
        ",\"hysteresis_ratio\":",
        quote_decimal(&c.hysteresis_ratio).as_str(),
    );
    let t = with_field(
        t.as_str(),
        ",\"commission_rate\":",
        quote_decimal(&c.commission_rate).as_str(),
    );
    let t = with_field(
        t.as_str(),
        ",\"minimum_commission\":",
        quote_decimal(&c.minimum_commission).as_str(),
    );
    let t = with_field(t.as_str(), ",\"sell_tax_rate\":", quote_decimal(&c.sell_tax_rate).as_str());
    let t = with_field(t.as_str(), ",\"slippage_rate\":", quote_decimal(&c.slippage_rate).as_str());
    let t = with_field(t.as_str(), ",\"gate\":", encode_gate(&c.gate).as_str());
    let t = with_field(t.as_str(), ",\"paper\":", encode_paper(&c.paper, hold_open).as_str());
    let t = with_field(
        t.as_str(),
        ",\"ambiguity_policy\":",
        quote(c.ambiguity_policy.as_str()).as_str(),
    );
    let t = with_field(t.as_str(), ",\"database\":", quote(c.database.as_str()).as_str());
    let t = with_field(
        t.as_str(),
        ",\"config_version\":",
        quote(c.config_version.as_str()).as_str(),
    );
    join(t.as_str(), "}")
}

/// The digest of a configuration, whatever database it names.
pub open spec fn config_digest(c: ConfigView, quantity: bool, hold_open: bool) -> Seq<char> {
    text_digest(config_text(canonical_config(c), quantity, hold_open))
}

/// Configurations that differ in their databases at most have the same digest.
pub proof fn law_database_is_left_out(
    a: ConfigView,
    b: ConfigView,
    quantity: bool,
    hold_open: bool,
)
    requires
        b == (ConfigView { database: b.database, ..a }),
    ensures
        config_digest(a, quantity, hold_open) == config_digest(b, quantity, hold_open),
{
    assert(canonical_config(a) == canonical_config(b));
}

/// A configuration that does not deploy its opening balance is written as if there
/// were no such setting.
pub proof fn law_unset_deployment_is_left_out(s: CapitalInventorySettings)
    requires
        !s.deploy_initial_balance,
    ensures
        inventory_text(s) == "{\"minimum_free_cash\":"@ + quoted_decimal(s.minimum_free_cash)
            + ",\"target_position\":"@ + int_text(s.target_position as int) + "}"@,
{
}

/// The digest of a configuration, whatever database it names.
pub fn digest_config(c: &Config, quantity: bool, hold_open: bool) -> (r: String)
    ensures
        r@ == config_digest(c@, quantity, hold_open),
        digest_shaped(r@),
{
    let canonical = c.canonical();
    let t = encode_config(&canonical, quantity, hold_open);
    text_sha256(t.as_str())
}

} // verus!

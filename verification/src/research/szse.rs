//! Minutes of a public page of an exchange.
use crate::clock::{day_text, moment_text, parse_time, read_moment, read_time, Moment};
use crate::decimal::{from_parts, pow10, read_exact_decimal, Decimal, MAX_MANTISSA};
use crate::json::{json_at, json_part, JsonPart, JsonPartView};
use crate::model::research::{
    MinuteResponse, MinuteResponseView, MinuteRow, MinuteRowView, MinuteSummary, MinuteSummaryView,
};
use crate::text::{join, nat_text, text_eq, unsigned_text};
use vstd::prelude::*;

verus! {

/// Why a response is refused.
#[derive(Clone, Copy, Debug, PartialEq, Eq, Structural)]
pub enum MinuteError {
    /// The response is empty or too large.
    Size,
    /// The exchange reports a failure.
    Code,
    /// The response is that of another instrument.
    Identity,
    /// The time of the response is no time.
    Snapshot,
    /// The time of the market is no time.
    MarketTime,
    /// The two times are not of one day.
    Dates,
    /// A number cannot be read.
    Decimal,
    /// An amount is negative.
    Negative,
    /// An amount has a part of a cent.
    SubCent,
    /// There is no row, or there are too many.
    RowCount,
    /// A row does not have seven fields.
    RowShape,
    /// The label of a row is no time.
    Label,
    /// A label is not later than the one before it.
    Order,
    /// A price is not positive.
    Price,
    /// A volume is no count.
    Volume,
    /// The volumes are too large together.
    VolumeTotal,
    /// The amounts are too large together.
    AmountTotal,
    /// A row lies outside of the known sessions.
    Session,
    /// There is no row of the regular session.
    NoRegularRow,
}

/// The text of a field: what is in its quotes, or the field itself.
pub open spec fn field_text(raw: Seq<char>) -> Option<Seq<char>> {
    if raw.len() > 0 && raw[0] == '"' {
        match json_part(raw, ""@) {
            Some(JsonPartView::Text(text)) => Some(text),
            _ => None,
        }
    } else {
        Some(raw)
    }
}

/// The number of a field, exactly as it is written.
pub open spec fn decimal_field(raw: Seq<char>) -> Option<Decimal> {
    match field_text(raw) {
        None => None,
        Some(text) => from_parts(read_exact_decimal(text)),
    }
}

fn read_decimal_field(raw: &str) -> (r: Option<Decimal>)
    ensures
        r == decimal_field(raw@),
{
    if raw.unicode_len() > 0 && raw.get_char(0) == '"' {
        match json_at(raw, "") {
            Some(JsonPart::Text(text)) => Decimal::parse_exact(text.as_str()),
            _ => None,
        }
    } else {
        Decimal::parse_exact(raw)
    }
}

/// An amount in cents.
pub open spec fn cents(amount: Decimal) -> Result<nat, MinuteError> {
    if amount.m() < 0 {
        Err(MinuteError::Negative)
    } else if amount.s() <= 2 {
        Ok((amount.m() * pow10((2 - amount.s()) as nat)) as nat)
    } else if amount.m() % pow10((amount.s() - 2) as nat) != 0 {
        Err(MinuteError::SubCent)
    } else {
        Ok((amount.m() / pow10((amount.s() - 2) as nat)) as nat)
    }
}

/// The amount of a field in cents.
pub open spec fn cents_field(raw: Seq<char>) -> Result<nat, MinuteError> {
    match decimal_field(raw) {
        None => Err(MinuteError::Decimal),
        Some(amount) => cents(amount),
    }
}

proof fn lemma_pow10_small(n: nat)
    requires
        n <= 28,
    ensures
        1 <= pow10(n) <= pow10(28),
        pow10(28) == 10_000_000_000_000_000_000_000_000_000,
    decreases 28 - n,
{
    reveal_with_fuel(pow10, 29);
    crate::decimal::lemma_pow10_positive(n);
    if n < 28 {
        lemma_pow10_small(n + 1);
        assert(pow10(n + 1) == 10 * pow10(n));
        crate::decimal::lemma_pow10_positive(n);
    }
}

fn power_of_ten(n: u32) -> (r: u128)
    requires
        n <= 28,
    ensures
        r == pow10(n as nat),
        r >= 1,
{
    let mut r: u128 = 1;
    let mut i: u32 = 0;
    while i < n
        invariant
            i <= n <= 28,
            r == pow10(i as nat),
        decreases n - i,
    {
        proof {
            lemma_pow10_small((i + 1) as nat);
            assert(pow10((i + 1) as nat) == 10 * pow10(i as nat));
        }
        r = r * 10;
        i = i + 1;
    }
    proof {
        lemma_pow10_small(n as nat);
    }
    r
}

fn to_cents(amount: &Decimal) -> (r: Result<u128, MinuteError>)
    ensures
        match cents(*amount) {
            Ok(n) => r matches Ok(x) && x == n,
            Err(e) => r matches Err(x) && x == e,
        },
{
    amount.range_known();
    if amount.mantissa() < 0 {
        return Err(MinuteError::Negative);
    }
    let coefficient: u128 = amount.mantissa() as u128;
    let scale: u32 = amount.scale();
    if scale <= 2 {
        let factor: u128 = power_of_ten(2 - scale);
        proof {
            let k = (2 - scale) as nat;
            reveal_with_fuel(pow10, 3);
            assert(factor == 1 || factor == 10 || factor == 100);
            assert(coefficient * factor <= MAX_MANTISSA * 100) by (nonlinear_arith)
                requires
                    coefficient <= MAX_MANTISSA,
                    factor <= 100,
            ;
        }
        Ok(coefficient * factor)
    } else {
        let divisor: u128 = power_of_ten(scale - 2);
        if coefficient % divisor != 0 {
            return Err(MinuteError::SubCent);
        }
        Ok(coefficient / divisor)
    }
}

fn read_cents(raw: &str) -> (r: Result<u128, MinuteError>)
    ensures
        match cents_field(raw@) {
            Ok(n) => r matches Ok(x) && x == n,
            Err(e) => r matches Err(x) && x == e,
        },
{
    match read_decimal_field(raw) {
        None => Err(MinuteError::Decimal),
        Some(amount) => to_cents(&amount),
    }
}

/// A number below a hundred in two digits.
pub open spec fn two_digits(n: nat) -> Seq<char> {
    if n < 10 {
        "0"@ + nat_text(n)
    } else {
        nat_text(n)
    }
}

fn two_digit_text(n: u128) -> (r: String)
    ensures
        r@ == two_digits(n as nat),
{
    let digits = unsigned_text(n);
    if n < 10 {
        join("0", digits.as_str())
    } else {
        digits
    }
}

/// An amount in cents as a decimal with two places.
pub open spec fn cents_text(amount: nat) -> Seq<char> {
    nat_text(amount / 100) + "."@ + two_digits(amount % 100)
}

/// An amount in cents as a decimal with two places.
pub fn format_cents(amount: u128) -> (r: String)
    ensures
        r@ == cents_text(amount as nat),
{
    let whole = unsigned_text(amount / 100);
    let t = join(whole.as_str(), ".");
    join(t.as_str(), two_digit_text(amount % 100).as_str())
}

/// Whether a time of day is at most an hour and a minute.
pub open spec fn up_to(second: int, nano: int, end: int) -> bool {
    second < end || (second == end && nano == 0)
}

/// Whether a time of day is one of the regular session.
pub open spec fn regular(second: int, nano: int) -> bool {
    (34_200 <= second && up_to(second, nano, 41_400)) || (46_860 <= second && up_to(
        second,
        nano,
        54_000,
    ))
}

/// Whether a time of day is one of the regular session: 9:30 to 11:30 and 13:01
/// to 15:00.
pub fn regular_session_time(second: u32, nano: u32) -> (r: bool)
    ensures
        r == regular(second as int, nano as int),
{
    (34_200 <= second && (second < 41_400 || (second == 41_400 && nano == 0))) || (46_860 <= second
        && (second < 54_000 || (second == 54_000 && nano == 0)))
}

/// What the rows so far add up to.
#[derive(Clone, Copy, Debug)]
pub struct Tally {
    pub volume_lots: u64,
    pub amount_cents: u128,
    pub regular_rows: u64,
    pub after_hours_rows: u64,
    /// The last label, as second and nanosecond of the day.
    pub previous: Option<(u32, u32)>,
    /// The last label of the regular session.
    pub last_regular: Option<u32>,
}

/// Whether a label comes after another one.
pub open spec fn later(a: (u32, u32), b: (u32, u32)) -> bool {
    a.0 > b.0 || (a.0 == b.0 && a.1 > b.1)
}

/// The label of a row.
pub open spec fn label_in(raw: Seq<char>) -> Option<(u32, u32)> {
    match json_part(raw, ""@) {
        Some(JsonPartView::Text(text)) => match read_time(text, "%H:%M"@) {
            Some(p) => Some((p.0 as u32, p.1 as u32)),
            None => None,
        },
        _ => None,
    }
}

fn read_label(raw: &str) -> (r: Option<(u32, u32)>)
    ensures
        r == label_in(raw@),
{
    match json_at(raw, "") {
        Some(JsonPart::Text(text)) => parse_time(text.as_str(), "%H:%M"),
        _ => None,
    }
}

/// Why the prices of a row are refused, if they are: the last and the average
/// price are positive, the two changes are numbers.
pub open spec fn prices_fault(f: Seq<Seq<char>>) -> Option<MinuteError> {
    match decimal_field(f[1]) {
        None => Some(MinuteError::Decimal),
        Some(last) => if last.m() <= 0 {
            Some(MinuteError::Price)
        } else {
            match decimal_field(f[2]) {
                None => Some(MinuteError::Decimal),
                Some(average) => if average.m() <= 0 {
                    Some(MinuteError::Price)
                } else if decimal_field(f[3]) is None || decimal_field(f[4]) is None {
                    Some(MinuteError::Decimal)
                } else {
                    None
                },
            }
        },
    }
}

fn check_prices(row: &MinuteRow) -> (r: Option<MinuteError>)
    requires
        row@.fields.len() == 7,
    ensures
        r == prices_fault(row@.fields),
{
    let ghost f = row@.fields;
    assert(f[1] == row.fields[1]@ && f[2] == row.fields[2]@ && f[3] == row.fields[3]@ && f[4]
        == row.fields[4]@);
    match read_decimal_field(row.fields[1].as_str()) {
        None => {
            return Some(MinuteError::Decimal);
        },
        Some(last) => if !last.is_positive() {
            return Some(MinuteError::Price);
        },
    }
    match read_decimal_field(row.fields[2].as_str()) {
        None => {
            return Some(MinuteError::Decimal);
        },
        Some(average) => if !average.is_positive() {
            return Some(MinuteError::Price);
        },
    }
    if read_decimal_field(row.fields[3].as_str()).is_none() || read_decimal_field(
        row.fields[4].as_str(),
    ).is_none() {
        return Some(MinuteError::Decimal);
    }
    None
}

/// What one more row makes of the tally.
pub open spec fn tallied(t: Tally, row: MinuteRowView) -> Result<Tally, MinuteError> {
    let f = row.fields;
    if f.len() != 7 {
        Err(MinuteError::RowShape)
    } else {
        match label_in(f[0]) {
            None => Err(MinuteError::Label),
            Some(at) => if t.previous is Some && !later(at, t.previous->0) {
                Err(MinuteError::Order)
            } else {
                match prices_fault(f) {
                    Some(e) => Err(e),
                    None => match json_part(f[5], ""@) {
                        Some(JsonPartView::Count(lots)) => match cents_field(f[6]) {
                            Err(e) => Err(e),
                            Ok(amount) => placed(t, at, lots, amount),
                        },
                        _ => Err(MinuteError::Volume),
                    },
                }
            },
        }
    }
}

/// What a row at a time of day makes of the tally.
pub open spec fn placed(t: Tally, at: (u32, u32), lots: u64, amount: nat) -> Result<
    Tally,
    MinuteError,
> {
    if regular(at.0 as int, at.1 as int) {
        if t.volume_lots + lots > u64::MAX {
            Err(MinuteError::VolumeTotal)
        } else if t.amount_cents + amount > u128::MAX {
            Err(MinuteError::AmountTotal)
        } else {
            Ok(
                Tally {
                    volume_lots: (t.volume_lots + lots) as u64,
                    amount_cents: (t.amount_cents + amount) as u128,
                    regular_rows: (t.regular_rows + 1) as u64,
                    previous: Some(at),
                    last_regular: Some(at.0),
                    ..t
                },
            )
        }
    } else if at.0 >= 54_360 {
        Ok(
            Tally {
                after_hours_rows: (t.after_hours_rows + 1) as u64,
                previous: Some(at),
                ..t
            },
        )
    } else {
        Err(MinuteError::Session)
    }
}

fn take_row(t: &Tally, row: &MinuteRow) -> (r: Result<Tally, MinuteError>)
    requires
        t.regular_rows < 1000,
        t.after_hours_rows < 1000,
    ensures
        r == tallied(*t, row@),
{
    let ghost f = row@.fields;
    if row.fields.len() != 7 {
        return Err(MinuteError::RowShape);
    }
    assert(f[0] == row.fields[0]@ && f[5] == row.fields[5]@ && f[6] == row.fields[6]@);
    let (second, nano): (u32, u32) = match read_label(row.fields[0].as_str()) {
        Some(at) => at,
        None => {
            return Err(MinuteError::Label);
        },
    };
    if let Some(p) = t.previous {
        if !(second > p.0 || (second == p.0 && nano > p.1)) {
            return Err(MinuteError::Order);
        }
    }
    if let Some(e) = check_prices(row) {
        return Err(e);
    }
    let lots: u64 = match json_at(row.fields[5].as_str(), "") {
        Some(JsonPart::Count(n)) => n,
        _ => {
            return Err(MinuteError::Volume);
        },
    };
    let amount: u128 = read_cents(row.fields[6].as_str())?;
    if regular_session_time(second, nano) {
        let volume_lots: u64 = match t.volume_lots.checked_add(lots) {
            Some(n) => n,
            None => {
                return Err(MinuteError::VolumeTotal);
            },
        };
        let amount_cents: u128 = match t.amount_cents.checked_add(amount) {
            Some(n) => n,
            None => {
                return Err(MinuteError::AmountTotal);
            },
        };
        Ok(
            Tally {
                volume_lots,
                amount_cents,
                regular_rows: t.regular_rows + 1,
                after_hours_rows: t.after_hours_rows,
                previous: Some((second, nano)),
                last_regular: Some(second),
            },
        )
    } else if second >= 54_360 {
        Ok(
            Tally {
                volume_lots: t.volume_lots,
                amount_cents: t.amount_cents,
                regular_rows: t.regular_rows,
                after_hours_rows: t.after_hours_rows + 1,
                previous: Some((second, nano)),
                last_regular: t.last_regular,
            },
        )
    } else {
        Err(MinuteError::Session)
    }
}

/// What the first `n` rows add up to.
pub open spec fn tally_of(rows: Seq<MinuteRowView>, n: nat) -> Result<Tally, MinuteError>
    decreases n,
{
    if n == 0 {
        Ok(
            Tally {
                volume_lots: 0,
                amount_cents: 0,
                regular_rows: 0,
                after_hours_rows: 0,
                previous: None,
                last_regular: None,
            },
        )
    } else {
        match tally_of(rows, (n - 1) as nat) {
            Err(e) => Err(e),
            Ok(t) => tallied(t, rows[n - 1]),
        }
    }
}

proof fn lemma_tally_stops(rows: Seq<MinuteRowView>, n: nat, m: nat)
    requires
        n <= m,
        tally_of(rows, n) is Err,
    ensures
        tally_of(rows, m) == tally_of(rows, n),
    decreases m - n,
{
    if n < m {
        lemma_tally_stops(rows, n, (m - 1) as nat);
    }
}

/// The hour and the minute of a second of the day.
pub open spec fn hour_and_minute(second: nat) -> Seq<char> {
    two_digits(second / 3600) + ":"@ + two_digits(second / 60 % 60)
}

/// What a response shows.
pub open spec fn minute_summary(
    response: MinuteResponseView,
    snapshot: Moment,
    market: Moment,
    aggregate: nat,
    t: Tally,
) -> MinuteSummaryView {
    MinuteSummaryView {
        snapshot_date: day_text(snapshot.d()),
        snapshot_at: moment_text(snapshot.d(), snapshot.s(), snapshot.n()),
        market_time: moment_text(market.d(), market.s(), market.n()),
        row_count: response.rows.len() as u64,
        regular_session_rows: t.regular_rows,
        after_hours_rows: t.after_hours_rows,
        last_regular_label: hour_and_minute(t.last_regular->0 as nat),
        aggregate_volume_lots: response.volume,
        regular_volume_lots: t.volume_lots,
        aggregate_amount: cents_text(aggregate),
        regular_amount: cents_text(t.amount_cents as nat),
        regular_session_totals_reconcile: t.volume_lots == response.volume && t.amount_cents
            == aggregate,
        ohlc_present: false,
        source_sequence_present: false,
        source_completion_proven: false,
        source_revision_semantics_proven: false,
        formal_publication: false,
        admitted: false,
    }
}

/// A moment that a text denotes by a format.
pub open spec fn moment_in(text: Seq<char>, format: Seq<char>) -> Option<Moment> {
    match read_moment(text, format) {
        Some(p) => Some(Moment::of(p.0, p.1, p.2)),
        None => None,
    }
}

/// What a response shows, or why it is refused.
pub open spec fn inspected(response: MinuteResponseView) -> Result<MinuteSummaryView, MinuteError> {
    let r = response;
    if r.code != "0"@ {
        Err(MinuteError::Code)
    } else if r.instrument_code != "002256"@ || r.instrument_name != "兆新股份"@ {
        Err(MinuteError::Identity)
    } else {
        match moment_in(r.datetime, "%Y-%m-%d %H:%M"@) {
            None => Err(MinuteError::Snapshot),
            Some(snapshot) => match moment_in(r.market_time, "%Y-%m-%d %H:%M:%S"@) {
                None => Err(MinuteError::MarketTime),
                Some(market) => if snapshot.d() != market.d() {
                    Err(MinuteError::Dates)
                } else {
                    match cents_field(r.amount) {
                        Err(e) => Err(e),
                        Ok(aggregate) => if r.rows.len() == 0 || r.rows.len() > 512 {
                            Err(MinuteError::RowCount)
                        } else {
                            match tally_of(r.rows, r.rows.len()) {
                                Err(e) => Err(e),
                                Ok(t) => if t.last_regular is None {
                                    Err(MinuteError::NoRegularRow)
                                } else {
                                    Ok(minute_summary(r, snapshot, market, aggregate, t))
                                },
                            }
                        },
                    }
                },
            },
        }
    }
}

/// Accepts a response of a permitted size.
pub fn validate_size(bytes: usize) -> (r: Result<(), MinuteError>)
    ensures
        r == (if 0 < bytes <= 1_048_576 {
            Ok::<(), MinuteError>(())
        } else {
            Err::<(), MinuteError>(MinuteError::Size)
        }),
{
    if bytes == 0 || bytes > 1_048_576 {
        return Err(MinuteError::Size);
    }
    Ok(())
}

proof fn lemma_tally_counts(rows: Seq<MinuteRowView>, n: nat)
    requires
        n <= 512,
        tally_of(rows, n) is Ok,
    ensures
        tally_of(rows, n)->Ok_0.regular_rows + tally_of(rows, n)->Ok_0.after_hours_rows == n,
    decreases n,
{
    if n > 0 {
        lemma_tally_counts(rows, (n - 1) as nat);
    }
}

/// What a response shows: what the minutes of the regular session add up to, and
/// whether that is what the exchange reports. Totals that agree do not admit the
/// source.
pub fn inspect(response: &MinuteResponse) -> (r: Result<MinuteSummary, MinuteError>)
    ensures
        match inspected(response@) {
            Ok(summary) => r matches Ok(x) && x@ == summary,
            Err(e) => r matches Err(x) && x == e,
        },
        r matches Ok(x) ==> !x@.admitted && !x@.formal_publication && !x@.source_completion_proven,
{
    if !text_eq(response.code.as_str(), "0") {
        return Err(MinuteError::Code);
    }
    if !text_eq(response.instrument_code.as_str(), "002256") || !text_eq(
        response.instrument_name.as_str(),
        "兆新股份",
    ) {
        return Err(MinuteError::Identity);
    }
    let snapshot = match Moment::parse(response.datetime.as_str(), "%Y-%m-%d %H:%M") {
        Some(x) => x,
        None => {
            return Err(MinuteError::Snapshot);
        },
    };
    let market = match Moment::parse(response.market_time.as_str(), "%Y-%m-%d %H:%M:%S") {
        Some(x) => x,
        None => {
            return Err(MinuteError::MarketTime);
        },
    };
    if snapshot.day_number() != market.day_number() {
        return Err(MinuteError::Dates);
    }
    let aggregate: u128 = read_cents(response.amount.as_str())?;
    let rows = &response.rows;
    let ghost all = rows.deep_view();
    if rows.len() == 0 || rows.len() > 512 {
        return Err(MinuteError::RowCount);
    }
    let mut t = Tally {
        volume_lots: 0,
        amount_cents: 0,
        regular_rows: 0,
        after_hours_rows: 0,
        previous: None,
        last_regular: None,
    };
    let mut i: usize = 0;
    while i < rows.len()
        invariant
            i <= rows.len() <= 512,
            all == rows.deep_view(),
            all == response@.rows,
            tally_of(all, i as nat) == Ok::<Tally, MinuteError>(t),
            all.len() > 0,
            inspected(response@) == (match tally_of(all, all.len()) {
                Err(e) => Err::<MinuteSummaryView, MinuteError>(e),
                Ok(t) => if t.last_regular is None {
                    Err(MinuteError::NoRegularRow)
                } else {
                    Ok(minute_summary(response@, snapshot, market, aggregate as nat, t))
                },
            }),
        decreases rows.len() - i,
    {
        assert(all[i as int] == rows[i as int]@);
        proof {
            lemma_tally_counts(all, i as nat);
        }
        match take_row(&t, &rows[i]) {
            Ok(next) => {
                t = next;
            },
            Err(e) => {
                proof {
                    lemma_tally_stops(all, (i + 1) as nat, all.len());
                }
                return Err(e);
            },
        }
        i = i + 1;
    }
    let last: u32 = match t.last_regular {
        Some(x) => x,
        None => {
            return Err(MinuteError::NoRegularRow);
        },
    };
    let hour = two_digit_text((last / 3600) as u128);
    let label = join(hour.as_str(), ":");
    Ok(
        MinuteSummary {
            snapshot_date: snapshot.day().text(),
            snapshot_at: snapshot.text(),
            market_time: market.text(),
            row_count: rows.len() as u64,
            regular_session_rows: t.regular_rows,
            after_hours_rows: t.after_hours_rows,
            last_regular_label: join(
                label.as_str(),
                two_digit_text((last / 60 % 60) as u128).as_str(),
            ),
            aggregate_volume_lots: response.volume,
            regular_volume_lots: t.volume_lots,
            aggregate_amount: format_cents(aggregate),
            regular_amount: format_cents(t.amount_cents),
            regular_session_totals_reconcile: t.volume_lots == response.volume && t.amount_cents
                == aggregate,
            ohlc_present: false,
            source_sequence_present: false,
            source_completion_proven: false,
            source_revision_semantics_proven: false,
            formal_publication: false,
            admitted: false,
        },
    )
}

/// Rows after the regular session are counted and nothing else: they change
/// neither the volume nor the amount of the tally.
pub proof fn law_after_hours_rows_add_nothing(t: Tally, at: (u32, u32), lots: u64, amount: nat)
    requires
        !regular(at.0 as int, at.1 as int),
        placed(t, at, lots, amount) is Ok,
    ensures
        placed(t, at, lots, amount)->Ok_0.volume_lots == t.volume_lots,
        placed(t, at, lots, amount)->Ok_0.amount_cents == t.amount_cents,
        placed(t, at, lots, amount)->Ok_0.last_regular == t.last_regular,
{
}

/// Every row is either of the regular session or after it.
pub proof fn law_rows_are_counted_once(rows: Seq<MinuteRowView>, n: nat)
    requires
        n <= 512,
        tally_of(rows, n) is Ok,
    ensures
        tally_of(rows, n)->Ok_0.regular_rows + tally_of(rows, n)->Ok_0.after_hours_rows == n,
{
    lemma_tally_counts(rows, n);
}

} // verus!

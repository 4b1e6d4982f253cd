use gridedge_t::clock::{Day, Moment};
use gridedge_t::digest::sha256_hex;
use gridedge_t::model::research::{Evidence, MinuteResponse, MinuteRow, MinuteSummary, SourceRow, SourceSummary};
use gridedge_t::research::analyze::{
    analyze, kind_name, receipt_name, response_name, source_url, AnalyzeError, FailureCause, Report,
};
use gridedge_t::research::replay::{audit_replay, encode_bars, validate_line, ReplayError, WireRecord};
use gridedge_t::research::sina::{
    bounded_body, inspect, read_rows, research_window, response_body, SourceError,
};
use gridedge_t::research::szse;
use serde::de::{Deserialize, Deserializer, Error, IgnoredAny, MapAccess, Visitor};
use serde_json::value::RawValue;
use std::fmt;

const PREFIX: &str = "/*<script>location.href='//sina.com';</script>*/";

/// A source row that is read field by field: unknown, repeated and missing
/// fields are refused.
struct WireRow(SourceRow);

struct WireRowVisitor;

impl<'de> Visitor<'de> for WireRowVisitor {
    type Value = WireRow;

    fn expecting(&self, f: &mut fmt::Formatter) -> fmt::Result {
        f.write_str("a row")
    }

    fn visit_map<A: MapAccess<'de>>(self, mut map: A) -> Result<WireRow, A::Error> {
        let names = ["day", "open", "high", "low", "close", "volume"];
        let mut values: Vec<Option<String>> = vec![None; 6];
        while let Some(name) = map.next_key::<String>()? {
            let at = names
                .iter()
                .position(|n| *n == name)
                .ok_or_else(|| A::Error::custom("unknown field"))?;
            if values[at].is_some() {
                return Err(A::Error::custom("duplicate field"));
            }
            values[at] = Some(map.next_value()?);
        }
        let mut take = |at: usize| values[at].take().ok_or_else(|| A::Error::custom("missing field"));
        Ok(WireRow(SourceRow {
            day: take(0)?,
            open: take(1)?,
            high: take(2)?,
            low: take(3)?,
            close: take(4)?,
            volume: take(5)?,
        }))
    }
}

impl<'de> Deserialize<'de> for WireRow {
    fn deserialize<D: Deserializer<'de>>(deserializer: D) -> Result<Self, D::Error> {
        deserializer.deserialize_map(WireRowVisitor)
    }
}

fn rows_in(body: &str) -> Option<Vec<SourceRow>> {
    let rows: Vec<WireRow> = serde_json::from_str(body).ok()?;
    Some(rows.into_iter().map(|row| row.0).collect())
}

fn inspect_bytes(bytes: &[u8]) -> Result<SourceSummary, SourceError> {
    let body = bounded_body(bytes)?;
    inspect(&rows_in(&body).ok_or(SourceError::Json)?)
}

fn body(rows: &str) -> Vec<u8> {
    format!("{PREFIX}\nvar gridedge_probe=({rows});").into_bytes()
}

const ROW: &str = "{\"day\":\"2026-09-07 15:00:00\",\"open\":\"3.340\",\"high\":\"3.350\",\"low\":\"3.340\",\"close\":\"3.340\",\"volume\":\"642600\"}";

#[test]
fn valid_ohlc_is_not_proof_of_completion() {
    let value = inspect_bytes(&body(&format!("[{ROW}]"))).unwrap();
    assert_eq!(value.admitted, false);
    assert_eq!(value.source_completeness_proven, false);
    assert_eq!(value.instrument_echo_present, false);
}

#[test]
fn latest_future_bucket_remains_raw_research_only() {
    let row = ROW.replace("2026-09-07", "2099-09-07");
    assert_eq!(inspect_bytes(&body(&format!("[{row}]"))).unwrap().admitted, false);
}

#[test]
fn does_not_execute_or_accept_extra_javascript() {
    let mut bytes = body(&format!("[{ROW}]"));
    bytes.extend_from_slice(b";dangerous()");
    assert!(inspect_bytes(&bytes).is_err());
}

#[test]
fn duplicate_or_reordered_rows_are_rejected() {
    assert!(inspect_bytes(&body(&format!("[{ROW},{ROW}]"))).is_err());
    let early = ROW.replace("15:00:00", "14:55:00");
    assert!(inspect_bytes(&body(&format!("[{ROW},{early}]"))).is_err());
}

#[test]
fn decimal_bounds_and_integer_volume_are_checked() {
    for invalid in [
        ROW.replace("3.350", "3.330"),
        ROW.replace("642600", "-1"),
        ROW.replace("642600", "1.5"),
        ROW.replace("3.340", "NaN"),
    ] {
        assert!(inspect_bytes(&body(&format!("[{invalid}]"))).is_err());
    }
}

#[test]
fn schema_drift_and_empty_results_are_rejected() {
    assert!(inspect_bytes(&body("[]")).is_err());
    let unknown = ROW.replace("\"volume\"", "\"new_volume\"");
    assert!(inspect_bytes(&body(&format!("[{unknown}]"))).is_err());
}

#[test]
fn responses_are_summarised() {
    let next = ROW.replace("2026-09-07 15:00:00", "2026-09-08 09:35:00");
    let summary = inspect_bytes(&body(&format!("[{ROW},{next}]"))).unwrap();
    assert_eq!(summary.row_count, 2);
    assert_eq!(summary.first_labeled_time, "2026-09-07 15:00:00");
    assert_eq!(summary.last_labeled_time, "2026-09-08 09:35:00");
    assert_eq!(summary.observed_dates, vec!["2026-09-07".to_owned(), "2026-09-08".to_owned()]);
    assert_eq!(summary.amount_present, false);
    let bars = read_rows(&rows_in(&format!("[{ROW},{next}]")).unwrap()).unwrap();
    assert_eq!(bars.len(), 2);
    assert!(bars[0].label.before(&bars[1].label));
}

#[test]
fn source_faults_are_told_apart() {
    let fault = |bytes: &[u8]| inspect_bytes(bytes).err();
    let with = |from: &str, to: &str| body(&format!("[{}]", ROW.replace(from, to)));
    assert_eq!(fault(b""), Some(SourceError::Size));
    assert_eq!(fault(&vec![b' '; 1_048_577]), Some(SourceError::Size));
    assert_eq!(fault(&[0xff, 0xfe]), Some(SourceError::Encoding));
    assert_eq!(fault(b"[]"), Some(SourceError::Wrapper));
    assert_eq!(fault(format!("{PREFIX} alert(1);").as_bytes()), Some(SourceError::Assignment));
    assert_eq!(fault(&body("[")), Some(SourceError::Json));
    assert_eq!(fault(&body("[]")), Some(SourceError::RowCount));
    assert_eq!(fault(&with("2026-09-07 15:00:00", "yesterday")), Some(SourceError::Label));
    assert_eq!(fault(&body(&format!("[{ROW},{ROW}]"))), Some(SourceError::Order));
    assert_eq!(fault(&with("3.350", "x")), Some(SourceError::Price));
    assert_eq!(fault(&with("3.350", "3.330")), Some(SourceError::Range));
    assert_eq!(fault(&with("642600", "1.5")), Some(SourceError::Volume));
}

fn utc(text: &str) -> Moment {
    Moment::parse_instant(text).unwrap()
}

#[test]
fn windows_of_observation_are_bounded() {
    let now = utc("2026-09-08T01:00:00Z");
    let at = |text: &str| Some(utc(text));
    let window = |n: u64, once: bool, start: Option<Moment>, stop: Option<Moment>| {
        research_window(n, once, now, start, stop).map(|(a, b)| (a.text(), b.text()))
    };
    let hour = "2026-09-08 01:00:00".to_owned();
    assert_eq!(window(30, true, None, None), Ok((hour.clone(), hour.clone())));
    assert_eq!(
        window(15, false, None, at("2026-09-08T05:00:00Z")),
        Ok((hour, "2026-09-08 05:00:00".to_owned()))
    );
    assert_eq!(window(14, true, None, None), Err(SourceError::Interval));
    assert_eq!(window(61, true, None, None), Err(SourceError::Interval));
    assert_eq!(window(30, false, None, None), Err(SourceError::NoStop));
    for (start, stop) in [
        (None, at("2026-09-08T05:00:01Z")),
        (None, at("2026-09-08T01:00:00Z")),
        (at("2026-09-08T03:00:00Z"), at("2026-09-08T02:00:00Z")),
        (at("2026-09-09T01:00:01Z"), at("2026-09-09T02:00:00Z")),
    ] {
        assert_eq!(window(30, false, start, stop), Err(SourceError::Window));
    }
}

fn identity() -> Vec<u8> {
    format!(
        "{{\"kind\":\"{}\",\"url\":\"{}\",\"formal_publication\":false,\"fixture\":\"test\"}}",
        kind_name(),
        source_url()
    )
    .into_bytes()
}

fn raw_response(close: &str) -> Vec<u8> {
    format!("{PREFIX}\nvar gridedge_probe=([{{\"day\":\"2026-09-08 09:35:00\",\"open\":\"3\",\"high\":\"4\",\"low\":\"2\",\"close\":\"{close}\",\"volume\":\"100\"}}]);").into_bytes()
}

fn with_raw(index: u64, at: &str, named: &[u8], raw: Vec<u8>) -> Evidence {
    let receipt = format!(
        "{{\"kind\":\"{}\",\"url\":\"{}\",\"admitted\":false,\"fixture\":true,\"sequence\":{index},\"started_at\":\"{at}\",\"received_at\":\"{at}\",\"raw_file\":\"{}\",\"raw_sha256\":\"{}\"}}",
        kind_name(),
        source_url(),
        response_name(index),
        sha256_hex(named)
    );
    let rows = response_body(&raw).ok().and_then(|body| rows_in(&body));
    Evidence { name: receipt_name(index), receipt: receipt.into_bytes(), raw: Some(raw), rows }
}

fn add(index: u64, at: &str, close: &str) -> Evidence {
    let raw = raw_response(close);
    with_raw(index, at, &raw.clone(), raw)
}

fn report(evidence: Vec<Evidence>) -> Result<Report, AnalyzeError> {
    analyze(&identity(), &evidence, Day::parse("2026-09-08", "%Y-%m-%d").unwrap())
}

#[test]
fn forming_and_post_label_changes_never_prove_finality() {
    let r = report(vec![
        add(0, "2026-09-08T09:34:30+08:00", "3"),
        add(1, "2026-09-08T09:35:30+08:00", "3.1"),
    ])
    .unwrap();
    assert_eq!(r.bars[0].first_seen_minus_label_ms, -30000);
    assert_eq!(r.bars[0].first_observation_at_or_after_label_ms, Some(30000));
    assert_eq!(r.bars[0].revisions[0].observed_after_label_end, true);
    assert_eq!(r.source_completeness_proven, false);
    assert_eq!(r.admitted, false);
    assert_eq!(r.missing_session_labels.len(), 47);
}

#[test]
fn decimal_formatting_is_not_a_price_revision() {
    let r = report(vec![
        add(0, "2026-09-08T09:35:30+08:00", "3"),
        add(1, "2026-09-08T09:36:00+08:00", "3.000"),
    ])
    .unwrap();
    assert_eq!(r.bars[0].revisions.len(), 0);
    assert_eq!(r.source_completeness_proven, false);
}

#[test]
fn tampered_raw_and_sequence_holes_fail() {
    let at = "2026-09-08T09:35:00+08:00";
    assert!(report(vec![add(1, "2026-09-08T09:35:30+08:00", "3")]).is_err());
    let tampered = with_raw(0, at, &raw_response("3"), b"tampered".to_vec());
    assert!(report(vec![tampered, add(1, "2026-09-08T09:35:30+08:00", "3")]).is_err());
}

#[test]
fn time_reversal_and_identity_drift_fail() {
    let evidence = || vec![
        add(0, "2026-09-08T09:36:00+08:00", "3"),
        add(1, "2026-09-08T09:35:00+08:00", "3"),
    ];
    assert!(report(evidence()).is_err());
    let date = Day::parse("2026-09-08", "%Y-%m-%d").unwrap();
    assert!(analyze(&b"{}".to_vec(), &evidence(), date).is_err());
}

#[test]
fn transport_failure_remains_visible_and_empty_directory_is_not_success() {
    assert!(report(Vec::new()).is_err());
    let receipt = format!(
        "{{\"kind\":\"{}\",\"url\":\"{}\",\"admitted\":false,\"fixture\":true,\"sequence\":0,\"started_at\":\"2026-09-08T09:35:00+08:00\",\"received_at\":\"2026-09-08T09:35:20+08:00\",\"transport_error\":\"curl_exit=28\"}}",
        kind_name(),
        source_url()
    );
    let evidence = Evidence { name: receipt_name(0), receipt: receipt.into_bytes(), raw: None, rows: None };
    let r = report(vec![evidence]).unwrap();
    assert_eq!(r.failures.len(), 1);
    assert_eq!(r.bars.len(), 0);
    assert_eq!(r.source_completeness_proven, false);
    assert_eq!(r.failures[0].cause, FailureCause::Transport);
}

fn rows_of(bytes: &[u8]) -> Result<Vec<gridedge_t::model::research::SourceBar>, SourceError> {
    let body = response_body(bytes)?;
    read_rows(&rows_in(&body).ok_or(SourceError::Json)?)
}

#[test]
fn raw_parser_rejects_schema_extra_code_and_bad_financial_fields() {
    let r = report(vec![add(0, "2026-09-08T09:35:00+08:00", "5")]).unwrap();
    assert_eq!(r.failures.len(), 1);
    assert!(rows_of(b"var gridedge_probe=([]); alert(1)").is_err());
    let raw = String::from_utf8(raw_response("3")).unwrap();
    assert!(rows_of(raw.replace("\"volume\":\"100\"", "\"volume\":\"1.5\"").as_bytes()).is_err());
    assert!(rows_of(
        raw.replace("\"volume\":\"100\"", "\"volume\":\"100\",\"unreviewed\":true").as_bytes()
    )
    .is_err());
    let parsed = rows_of(raw.replace("\"volume\":\"100\"", "\"volume\":\"0\"").as_bytes()).unwrap();
    assert_eq!(parsed[0].volume, 0);
}

#[test]
fn observations_are_reported_label_by_label() {
    let r = report(vec![
        add(0, "2026-09-08T09:35:30+08:00", "3"),
        add(1, "2026-09-08T09:36:00+08:00", "3.1"),
        with_raw(
            2,
            "2026-09-08T09:37:00+08:00",
            &body(&format!("[{ROW}]")),
            body(&format!("[{ROW}]")),
        ),
    ])
    .unwrap();
    assert_eq!(r.receipt_count, 3);
    assert_eq!(r.fixture, true);
    assert_eq!(r.maximum_receipt_gap_ms, 60_000);
    assert_eq!(r.first_request_at.unwrap().text(), "2026-09-08 01:35:30");
    assert_eq!(r.last_receipt_at.unwrap().text(), "2026-09-08 01:37:00");
    assert_eq!(r.bars.len(), 1);
    assert_eq!(r.bars[0].observations, 2);
    assert!(r.bars[0].revisions[0].close_changed && !r.bars[0].revisions[0].open_changed);
    assert!(!r.bars[0].revisions[0].volume_changed);
    assert_eq!(r.disappearing_label_observations.len(), 1);
    assert_eq!(r.disappearing_label_observations[0].sequence, 2);
    assert_eq!(r.unexpected_session_labels.len(), 0);
    assert_eq!(r.missing_session_labels[0].text(), "2026-09-08 09:40:00");
    assert_eq!(r.missing_session_labels[46].text(), "2026-09-08 15:00:00");
    assert_eq!(r.identity_sha256, sha256_hex(&identity()));
    let mut framed = Vec::new();
    let evidence = add(0, "2026-09-08T09:35:30+08:00", "3");
    framed.extend_from_slice(&(evidence.receipt.len() as u64).to_be_bytes());
    framed.extend_from_slice(&evidence.receipt);
    assert_eq!(report(vec![evidence]).unwrap().ordered_receipts_sha256, sha256_hex(&framed));
}

#[test]
fn analysis_faults_are_told_apart() {
    let at = "2026-09-08T09:35:30+08:00";
    let date = Day::parse("2026-09-08", "%Y-%m-%d").unwrap();
    let edited = |from: &str, to: &str| {
        let mut e = add(0, at, "3");
        e.receipt = String::from_utf8(e.receipt).unwrap().replace(from, to).into_bytes();
        report(vec![e]).err()
    };
    assert_eq!(analyze(&vec![b' '; 1_048_577], &Vec::new(), date).err(), Some(AnalyzeError::Oversize));
    assert_eq!(analyze(&b"{".to_vec(), &Vec::new(), date).err(), Some(AnalyzeError::Unreadable));
    assert_eq!(analyze(&b"{}".to_vec(), &Vec::new(), date).err(), Some(AnalyzeError::Identity));
    assert_eq!(report(Vec::new()).err(), Some(AnalyzeError::Receipts));
    assert_eq!(report(vec![add(1, at, "3")]).err(), Some(AnalyzeError::Sequence));
    assert_eq!(edited("\"admitted\":false", "\"admitted\":true"), Some(AnalyzeError::Receipt));
    assert_eq!(edited("\"sequence\":0", "\"sequence\":1"), Some(AnalyzeError::Receipt));
    assert_eq!(edited("\"started_at\"", "\"began_at\""), Some(AnalyzeError::Time));
    assert_eq!(edited("\"started_at\":\"2026-09-08T09", "\"started_at\":\"2026-09-08T10"), Some(AnalyzeError::Reversal));
    assert_eq!(edited("\"raw_sha256\"", "\"transport_error\":1,\"raw_sha256\""), Some(AnalyzeError::Mixed));
    assert_eq!(edited("response-00000", "response-00001"), Some(AnalyzeError::RawName));
    assert_eq!(edited("{", ""), Some(AnalyzeError::Unreadable));
    let lost = Evidence { raw: None, ..add(0, at, "3") };
    assert_eq!(report(vec![lost]).err(), Some(AnalyzeError::RawMissing));
    let swapped = with_raw(0, at, &raw_response("3"), raw_response("3.1"));
    assert_eq!(report(vec![swapped]).err(), Some(AnalyzeError::RawDigest));
}

struct WireMinutes(MinuteResponse);

struct WireMinutesVisitor;

struct WireData {
    code: String,
    name: String,
    market_time: String,
    volume: u64,
    amount: String,
    rows: Vec<MinuteRow>,
}

struct WireDataVisitor;

fn set<T, E: Error>(slot: &mut Option<T>, value: T) -> Result<(), E> {
    if slot.is_some() {
        return Err(E::custom("duplicate field"));
    }
    *slot = Some(value);
    Ok(())
}

fn get<T, E: Error>(slot: Option<T>) -> Result<T, E> {
    slot.ok_or_else(|| E::custom("missing field"))
}

impl<'de> Visitor<'de> for WireDataVisitor {
    type Value = WireData;

    fn expecting(&self, f: &mut fmt::Formatter) -> fmt::Result {
        f.write_str("minutes")
    }

    fn visit_map<A: MapAccess<'de>>(self, mut map: A) -> Result<WireData, A::Error> {
        let (mut code, mut name, mut market_time) = (None, None, None);
        let (mut volume, mut amount, mut rows) = (None, None, None);
        while let Some(key) = map.next_key::<String>()? {
            match key.as_str() {
                "code" => set(&mut code, map.next_value()?)?,
                "name" => set(&mut name, map.next_value()?)?,
                "marketTime" => set(&mut market_time, map.next_value()?)?,
                "volume" => set(&mut volume, map.next_value()?)?,
                "amount" => set(&mut amount, map.next_value::<Box<RawValue>>()?)?,
                "picupdata" => set(&mut rows, map.next_value::<Vec<Vec<Box<RawValue>>>>()?)?,
                _ => {
                    map.next_value::<IgnoredAny>()?;
                }
            }
        }
        Ok(WireData {
            code: get(code)?,
            name: get(name)?,
            market_time: get(market_time)?,
            volume: get(volume)?,
            amount: get(amount)?.get().to_owned(),
            rows: get(rows)?
                .iter()
                .map(|row| MinuteRow { fields: row.iter().map(|f| f.get().to_owned()).collect() })
                .collect(),
        })
    }
}

impl<'de> Deserialize<'de> for WireData {
    fn deserialize<D: Deserializer<'de>>(deserializer: D) -> Result<Self, D::Error> {
        deserializer.deserialize_map(WireDataVisitor)
    }
}

impl<'de> Visitor<'de> for WireMinutesVisitor {
    type Value = WireMinutes;

    fn expecting(&self, f: &mut fmt::Formatter) -> fmt::Result {
        f.write_str("a response")
    }

    fn visit_map<A: MapAccess<'de>>(self, mut map: A) -> Result<WireMinutes, A::Error> {
        let (mut code, mut datetime, mut data) = (None, None, None);
        while let Some(key) = map.next_key::<String>()? {
            match key.as_str() {
                "code" => set(&mut code, map.next_value()?)?,
                "datetime" => set(&mut datetime, map.next_value()?)?,
                "data" => set(&mut data, map.next_value::<WireData>()?)?,
                _ => {
                    map.next_value::<IgnoredAny>()?;
                }
            }
        }
        let data = get(data)?;
        Ok(WireMinutes(MinuteResponse {
            code: get(code)?,
            datetime: get(datetime)?,
            instrument_code: data.code,
            instrument_name: data.name,
            market_time: data.market_time,
            volume: data.volume,
            amount: data.amount,
            rows: data.rows,
        }))
    }
}

impl<'de> Deserialize<'de> for WireMinutes {
    fn deserialize<D: Deserializer<'de>>(deserializer: D) -> Result<Self, D::Error> {
        deserializer.deserialize_map(WireMinutesVisitor)
    }
}

const EXPECTED_CODE: &str = "002256";
const EXPECTED_NAME: &str = "兆新股份";

fn inspect_minutes(bytes: &[u8]) -> Result<MinuteSummary, String> {
    szse::validate_size(bytes.len()).map_err(|e| format!("{e:?}"))?;
    let response: WireMinutes = serde_json::from_slice(bytes).map_err(|e| e.to_string())?;
    szse::inspect(&response.0).map_err(|e| format!("{e:?}"))
}

fn response(code: &str, name: &str, volume: u64, amount: &str, rows: &str) -> Vec<u8> {
    format!(
        "{{\"datetime\":\"2026-09-08 15:30\",\"code\":\"0\",\"data\":{{\"code\":\"{code}\",\"name\":\"{name}\",\"marketTime\":\"2026-09-08 15:30:00\",\"volume\":{volume},\"amount\":{amount},\"picupdata\":[{rows}]}}}}"
    )
    .into_bytes()
}

const REGULAR: &str = "[\"15:00\",\"3.39\",\"3.38\",\"0.05\",\"1.50\",3723,1262097.00]";

#[test]
fn raw_amount_preserves_high_precision_and_one_cent_difference() {
    let rows = "[\"15:00\",\"3.39\",\"3.38\",\"0.05\",\"1.50\",1,9007199254740991.01]";
    let exact = inspect_minutes(&response(EXPECTED_CODE, EXPECTED_NAME, 1, "9007199254740991.01", rows)).unwrap();
    assert_eq!(exact.regular_amount, "9007199254740991.01");
    assert_eq!(exact.aggregate_amount, "9007199254740991.01");
    let mismatch = inspect_minutes(&response(EXPECTED_CODE, EXPECTED_NAME, 1, "9007199254740991.02", rows)).unwrap();
    assert_eq!(mismatch.regular_session_totals_reconcile, false);
    assert_eq!(mismatch.admitted, false);
}

#[test]
fn numeric_overflow_excess_precision_and_duplicate_fields_are_rejected() {
    let overflow = "[\"14:59\",\"3.39\",\"3.38\",\"0.05\",\"1.50\",1,79228162514264337593543950335],[\"15:00\",\"3.39\",\"3.38\",\"0.05\",\"1.50\",1,1]";
    let value = inspect_minutes(&response(EXPECTED_CODE, EXPECTED_NAME, 2, "1", overflow)).unwrap();
    assert_eq!(value.regular_amount, "79228162514264337593543950336.00");
    assert_eq!(value.regular_session_totals_reconcile, false);
    let too_precise = "[\"15:00\",\"3.39\",\"3.38\",\"0.05\",\"1.50\",1,0.12345678901234567890123456789]";
    assert!(inspect_minutes(&response(EXPECTED_CODE, EXPECTED_NAME, 1, "1", too_precise)).is_err());
    let duplicate = String::from_utf8(response(EXPECTED_CODE, EXPECTED_NAME, 3723, "1262097", REGULAR))
        .unwrap()
        .replace("\"amount\":1262097", "\"amount\":1262097,\"amount\":0");
    assert!(inspect_minutes(duplicate.as_bytes()).is_err());
}

#[test]
fn maximum_decimal_plus_one_cent_never_silently_reconciles() {
    let rows = "[\"14:59\",\"3.39\",\"3.38\",\"0.05\",\"1.50\",1,79228162514264337593543950335],[\"15:00\",\"3.39\",\"3.38\",\"0.05\",\"1.50\",1,0.01]";
    let value = inspect_minutes(&response(
        EXPECTED_CODE,
        EXPECTED_NAME,
        2,
        "79228162514264337593543950335",
        rows,
    ))
    .unwrap();
    assert_eq!(value.regular_amount, "79228162514264337593543950335.01");
    assert_eq!(value.regular_session_totals_reconcile, false);
    assert_eq!(value.admitted, false);
    let subcent = rows.replace("0.01]", "0.001]");
    assert!(inspect_minutes(&response(EXPECTED_CODE, EXPECTED_NAME, 2, "1", &subcent)).is_err());
}

#[test]
fn exact_regular_totals_still_do_not_admit_the_source() {
    let value = inspect_minutes(&response(EXPECTED_CODE, EXPECTED_NAME, 3723, "1262097.00", REGULAR)).unwrap();
    assert_eq!(value.regular_session_totals_reconcile, true);
    assert_eq!(value.ohlc_present, false);
    assert_eq!(value.source_completion_proven, false);
    assert_eq!(value.admitted, false);
}

#[test]
fn after_hours_rows_are_excluded_from_regular_aggregate() {
    let rows = format!("{REGULAR},[\"15:06\",\"3.39\",\"3.38\",\"0.05\",\"1.50\",11,3729.00]");
    let value = inspect_minutes(&response(EXPECTED_CODE, EXPECTED_NAME, 3723, "1262097.00", &rows)).unwrap();
    assert_eq!(value.regular_volume_lots, 3723);
    assert_eq!(value.after_hours_rows, 1);
}

#[test]
fn identity_mismatch_is_rejected() {
    assert!(inspect_minutes(&response("000001", EXPECTED_NAME, 3723, "1262097", REGULAR)).is_err());
    assert!(inspect_minutes(&response(EXPECTED_CODE, "other", 3723, "1262097", REGULAR)).is_err());
}

#[test]
fn aggregate_mismatch_remains_visible_without_false_admission() {
    let value = inspect_minutes(&response(EXPECTED_CODE, EXPECTED_NAME, 3724, "1262097", REGULAR)).unwrap();
    assert_eq!(value.regular_session_totals_reconcile, false);
    assert_eq!(value.admitted, false);
}

#[test]
fn duplicate_reordered_and_unknown_session_rows_are_rejected() {
    let duplicate = format!("{REGULAR},{REGULAR}");
    assert!(inspect_minutes(&response(EXPECTED_CODE, EXPECTED_NAME, 7446, "2524194", &duplicate)).is_err());
    let unknown = "[\"12:00\",\"3.39\",\"3.38\",\"0.05\",\"1.50\",1,3.39]";
    assert!(inspect_minutes(&response(EXPECTED_CODE, EXPECTED_NAME, 1, "3.39", unknown)).is_err());
}

#[test]
fn invalid_decimal_or_row_shape_is_rejected() {
    let invalid = "[\"15:00\",\"NaN\",\"3.38\",\"0.05\",\"1.50\",1,3.39]";
    assert!(inspect_minutes(&response(EXPECTED_CODE, EXPECTED_NAME, 1, "3.39", invalid)).is_err());
    let short = "[\"15:00\",\"3.39\",1]";
    assert!(inspect_minutes(&response(EXPECTED_CODE, EXPECTED_NAME, 1, "3.39", short)).is_err());
}

#[test]
fn minutes_are_summarised() {
    let rows = format!("[\"09:30\",3.4,3.4,-0.01,0,2,6.8],{REGULAR}");
    let value = inspect_minutes(&response(EXPECTED_CODE, EXPECTED_NAME, 3725, "1262103.80", &rows)).unwrap();
    assert_eq!(value.snapshot_date, "2026-09-08");
    assert_eq!(value.snapshot_at, "2026-09-08 15:30:00");
    assert_eq!(value.market_time, "2026-09-08 15:30:00");
    assert_eq!(value.row_count, 2);
    assert_eq!(value.regular_session_rows, 2);
    assert_eq!(value.last_regular_label, "15:00");
    assert_eq!(value.regular_amount, "1262103.80");
    assert!(value.regular_session_totals_reconcile);
    assert_eq!(szse::format_cents(5), "0.05");
    assert_eq!(szse::format_cents(123456), "1234.56");
    assert!(szse::regular_session_time(34_200, 0) && szse::regular_session_time(41_400, 0));
    assert!(!szse::regular_session_time(41_400, 1) && !szse::regular_session_time(46_800, 0));
}

#[test]
fn minute_faults_are_told_apart() {
    let fault = |bytes: &[u8]| inspect_minutes(bytes).err().unwrap();
    let row = |r: &str| fault(&response(EXPECTED_CODE, EXPECTED_NAME, 1, "1", r));
    let good = String::from_utf8(response(EXPECTED_CODE, EXPECTED_NAME, 1, "1", REGULAR)).unwrap();
    let with = |from: &str, to: &str| fault(good.replacen(from, to, 1).as_bytes());
    assert_eq!(fault(b""), "Size");
    assert_eq!(with("\"code\":\"0\"", "\"code\":\"1\""), "Code");
    assert_eq!(with("002256", "000001"), "Identity");
    assert_eq!(with("2026-09-08 15:30\"", "now\""), "Snapshot");
    assert_eq!(with("2026-09-08 15:30:00", "now"), "MarketTime");
    assert_eq!(with("2026-09-08 15:30:00", "2026-09-09 15:30:00"), "Dates");
    assert_eq!(with("\"amount\":1", "\"amount\":\"x\""), "Decimal");
    assert_eq!(with("\"amount\":1", "\"amount\":-1"), "Negative");
    assert_eq!(with("\"amount\":1", "\"amount\":1.001"), "SubCent");
    assert_eq!(row(""), "RowCount");
    assert_eq!(row("[1]"), "RowShape");
    assert_eq!(row(&REGULAR.replace("15:00", "noon")), "Label");
    assert_eq!(row(&format!("{REGULAR},{REGULAR}")), "Order");
    assert_eq!(row(&REGULAR.replace("3.39", "0")), "Price");
    assert_eq!(row(&REGULAR.replace("3723", "-1")), "Volume");
    let large = REGULAR.replace("3723", "18446744073709551615");
    assert_eq!(row(&format!("{},{REGULAR}", large.replace("15:00", "14:59"))), "VolumeTotal");
    assert_eq!(row(&REGULAR.replace("15:00", "12:00")), "Session");
    assert_eq!(row(&REGULAR.replace("15:00", "15:06")), "NoRegularRow");
}

fn replay_bar(at: &str) -> gridedge_t::model::market::MarketBar {
    let price = gridedge_t::decimal::Decimal::parse("3.40").unwrap();
    gridedge_t::model::market::MarketBar {
        timestamp: Moment::parse(at, "%Y-%m-%d %H:%M:%S").unwrap(),
        symbol: "002256.SZ".to_owned(),
        open: price,
        high: price,
        low: price,
        close: price,
        volume: 100,
        amount: None,
    }
}

#[test]
fn stored_messages_have_one_form_of_bytes() {
    let record = |hex: Option<&str>, bytes: Option<Vec<u8>>| {
        WireRecord { topic: "t".to_owned(), payload_hex: hex.map(|h| h.to_owned()), payload: bytes }
            .payload_bytes()
    };
    assert_eq!(record(Some("00fF"), None), Ok(("t".to_owned(), vec![0, 255])));
    assert_eq!(record(None, Some(vec![7])), Ok(("t".to_owned(), vec![7])));
    assert_eq!(record(Some("0"), None), Err(ReplayError::Hex));
    assert_eq!(record(Some("0g"), None), Err(ReplayError::Hex));
    assert_eq!(record(Some("00"), Some(vec![0])), Err(ReplayError::Payload));
    assert_eq!(record(None, None), Err(ReplayError::Payload));
    assert_eq!(validate_line("x"), Ok(()));
    assert_eq!(validate_line("  "), Err(ReplayError::EmptyLine));
}

#[test]
fn replays_are_audited() {
    let bars = vec![replay_bar("2026-08-18 09:35:00"), replay_bar("2026-08-18 09:40:00")];
    let text = encode_bars(&bars);
    assert_eq!(
        text,
        "[{\"timestamp\":\"2026-08-18 09:35:00\",\"symbol\":\"002256.SZ\",\"open\":\"3.40\",\"high\":\"3.40\",\"low\":\"3.40\",\"close\":\"3.40\",\"volume\":100,\"amount\":null},{\"timestamp\":\"2026-08-18 09:40:00\",\"symbol\":\"002256.SZ\",\"open\":\"3.40\",\"high\":\"3.40\",\"low\":\"3.40\",\"close\":\"3.40\",\"volume\":100,\"amount\":null}]"
    );
    assert_eq!(audit_replay(2, &bars, true, Some(9)), Ok((9, sha256_hex(text.as_bytes()))));
    assert_eq!(audit_replay(0, &bars, true, Some(9)), Err(ReplayError::NoBars));
    assert_eq!(audit_replay(2, &Vec::new(), true, Some(9)), Err(ReplayError::NoBars));
    assert_eq!(audit_replay(2, &bars, false, Some(9)), Err(ReplayError::Incomplete));
    assert_eq!(audit_replay(2, &bars, true, None), Err(ReplayError::NoWatermark));
    let back = vec![replay_bar("2026-08-18 09:40:00"), replay_bar("2026-08-18 09:35:00")];
    assert_eq!(audit_replay(2, &back, true, Some(9)), Err(ReplayError::Order));
}

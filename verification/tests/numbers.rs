use gridedge_t::clock::{local_from_micros, parse_time, Day, Moment};
use gridedge_t::decimal::{Decimal, Rounding};
use gridedge_t::digest::{digest_draw, digest_seed, id_of, is_lower_hex, sha256_hex, text_sha256};
use gridedge_t::text::{
    drop_text, five_digit_text, is_blank, join, parse_count, signed_text, sort_texts, strip_prefix,
    strip_suffix, text_before, trim, unsigned_text,
};

fn dec(text: &str) -> Decimal {
    Decimal::parse(text).unwrap()
}

fn parts(d: Option<Decimal>) -> Option<(i128, u32)> {
    d.map(|x| (x.mantissa(), x.scale()))
}

fn owned(list: &[&str]) -> Vec<String> {
    list.iter().map(|s| s.to_string()).collect()
}

#[test]
fn decimals_are_read_with_their_places() {
    assert_eq!(parts(Decimal::parse("3.550")), Some((3550, 3)));
    assert_eq!(parts(Decimal::parse("-0.01")), Some((-1, 2)));
    assert_eq!(parts(Decimal::parse("NaN")), None);
    assert_eq!(parts(Decimal::parse_exact("9007199254740991.01")), Some((900719925474099101, 2)));
    assert_eq!(parts(Decimal::parse_exact("0.12345678901234567890123456789")), None);
    assert_eq!(dec("3.550").text(), "3.550");
    assert_eq!(dec("-12").text(), "-12");
    assert_eq!(parts(Decimal::from_scaled(79228162514264337593543950335, 28)), Some((79228162514264337593543950335, 28)));
    assert_eq!(parts(Decimal::from_scaled(79228162514264337593543950336, 0)), None);
    assert_eq!(parts(Decimal::from_scaled(1, 29)), None);
}

#[test]
fn sums_keep_the_larger_number_of_places() {
    assert_eq!(parts(dec("1.50").checked_add(dec("2.5"))), Some((400, 2)));
    assert_eq!(parts(dec("0.00").checked_add(dec("2.5"))), Some((25, 1)));
    assert_eq!(parts(dec("1.5").checked_sub(dec("2.25"))), Some((-75, 2)));
    assert_eq!(parts(dec("0").checked_sub(dec("2.25"))), Some((-225, 2)));
    let largest = Decimal::from_scaled(79228162514264337593543950335, 0).unwrap();
    assert_eq!(parts(largest.checked_add(dec("1"))), None);
    assert_eq!(parts(largest.checked_sub(dec("-1"))), None);
}

#[test]
fn products_and_quotients_are_exact_where_they_fit() {
    assert_eq!(parts(dec("1.5").checked_mul(dec("0.20"))), Some((300, 3)));
    assert_eq!(parts(dec("0.00").checked_mul(dec("3.1"))), Some((0, 0)));
    assert!(dec("7").checked_div(dec("2")).unwrap().equals(&dec("3.5")));
    assert_eq!(parts(dec("0.0").checked_div(dec("2"))), Some((0, 0)));
    assert_eq!(parts(dec("7").checked_div(dec("0"))), None);
    let largest = Decimal::from_scaled(79228162514264337593543950335, 0).unwrap();
    assert_eq!(parts(largest.checked_mul(dec("2"))), None);
}

#[test]
fn decimals_compare_by_value() {
    assert!(dec("3").equals(&dec("3.000")));
    assert!(!dec("3").equals(&dec("3.001")));
    assert!(dec("2.99").below(&dec("3")));
    assert!(!dec("3.0").below(&dec("3")));
    assert!(dec("3.0").at_most(&dec("3")));
    assert!(dec("-1").is_negative() && !dec("0").is_negative());
    assert!(dec("0.00").is_zero() && !dec("0.01").is_zero());
    assert!(dec("0.01").is_positive() && !dec("0").is_positive());
    assert_eq!(dec("1").max(dec("2")).text(), "2");
    assert_eq!(dec("1").min(dec("2")).text(), "1");
}

#[test]
fn equal_numbers_keep_the_first() {
    assert_eq!(dec("0.00").max(dec("0")).text(), "0.00");
    assert_eq!(dec("0").max(dec("0.00")).text(), "0");
    assert_eq!(dec("1.0").min(dec("1")).text(), "1.0");
    assert_eq!(dec("1").max(dec("2")).text(), "2");
}

#[test]
fn factors_move_numbers_one_way() {
    let large = dec("7.9228162514264337593543950333");
    assert_eq!(
        parts(large.checked_mul(dec("1.0000000000000000000000000001"))),
        Some((7922816251426433759354395034, 27))
    );
    assert_eq!(
        parts(large.checked_mul(dec("0.9999999999999999999999999999"))),
        Some((79228162514264337593543950325, 28))
    );
    assert_eq!(parts(dec("0.0000000000000000000000000001").checked_mul(dec("0.1"))), Some((0, 28)));
}

#[test]
fn texts_come_in_the_order_of_code_points() {
    assert!(text_before("a", "b") && text_before("", "a") && text_before("a", "ab"));
    assert!(!text_before("b", "a") && !text_before("a", "a") && !text_before("a", ""));
    assert!(text_before("z", "\u{e9}") && text_before("\u{ffff}", "\u{10000}"));
}

#[test]
fn decimals_round_and_shorten() {
    assert_eq!(parts(Some(dec("1.25").round_dp(1, Rounding::MidpointAwayFromZero))), Some((13, 1)));
    assert_eq!(parts(Some(dec("-1.25").round_dp(1, Rounding::MidpointAwayFromZero))), Some((-13, 1)));
    assert_eq!(parts(Some(dec("1.21").round_dp(1, Rounding::ToPositiveInfinity))), Some((13, 1)));
    assert_eq!(parts(Some(dec("1.29").round_dp(1, Rounding::ToNegativeInfinity))), Some((12, 1)));
    assert_eq!(parts(Some(dec("1.2").round_dp(4, Rounding::MidpointAwayFromZero))), Some((12, 1)));
    assert_eq!(parts(Some(dec("-1.5").floor())), Some((-2, 0)));
    assert_eq!(parts(Some(dec("3.4500").normalize())), Some((345, 2)));
    assert_eq!(parts(Some(dec("0.000").normalize())), Some((0, 0)));
    assert_eq!(dec("-2.9").to_i64(), Some(-2));
    assert_eq!(dec("9223372036854775808").to_i64(), None);
}

#[test]
fn days_and_moments_are_read_and_written() {
    let at = Moment::parse("2026-08-18 09:30:05", "%Y-%m-%d %H:%M:%S").unwrap();
    assert_eq!((at.day_number(), at.second(), at.nano()), (739846, 34205, 0));
    assert_eq!(at.weekday(), 2);
    assert_eq!(at.text(), "2026-08-18 09:30:05");
    let part = Moment::from_parts(739846, 34205, 250_000_000).unwrap();
    assert_eq!(part.text(), "2026-08-18 09:30:05.250");
    assert_eq!(part.stamp(), "2026-08-18 09:30:05");
    assert!(Moment::parse("2026-08-18", "%Y-%m-%d %H:%M:%S").is_none());
    assert!(Moment::from_parts(739846, 86_400, 0).is_none());
    let day = Day::parse("2026-08-22", "%Y-%m-%d").unwrap();
    assert_eq!(day.number(), 739850);
    assert_eq!(day.text(), "2026-08-22");
    assert!(Day::parse("2026-02-30", "%Y-%m-%d").is_none());
    assert!(at.day().before(&day));
    assert_eq!(parse_time("15:06", "%H:%M"), Some((54_360, 0)));
    assert_eq!(parse_time("25:06", "%H:%M"), None);
    assert_eq!(day.at_second(60).text(), "2026-08-22 00:01:00");
}

#[test]
fn moments_are_apart_by_nanoseconds() {
    let a = Moment::from_parts(739846, 34205, 250_000_000).unwrap();
    let b = Moment::from_parts(739847, 4, 0).unwrap();
    assert_eq!(b.since(&a), (86_400 - 34_205 + 4) * 1_000_000_000 - 250_000_000);
    assert!(a.before(&b) && !b.before(&a));
    assert_eq!(b.millis_since(&a), 52_198_750);
    assert_eq!(a.millis_since(&b), -52_198_750);
    let leap = Moment::from_parts(739846, 59, 1_500_000_000).unwrap();
    let next = Moment::from_parts(739846, 60, 0).unwrap();
    assert_eq!(next.since(&leap), 500_000_000);
}

#[test]
fn offsets_are_eight_hours() {
    let epoch = local_from_micros(0).unwrap();
    assert_eq!(epoch.text(), "1970-01-01 08:00:00");
    assert_eq!(epoch.to_utc().unwrap().text(), "1970-01-01 00:00:00");
    let early = Moment::from_parts(739846, 0, 7).unwrap();
    assert_eq!(early.to_utc().unwrap().text(), "2026-08-17 16:00:00.000000007");
    assert!(local_from_micros(u64::MAX).is_none());
    let instant = Moment::parse_instant("2026-09-08T09:34:30+08:00").unwrap();
    assert_eq!(instant.text(), "2026-09-08 01:34:30");
    assert!(Moment::parse_instant("2026-09-08 09:34:30").is_none());
    let first = Moment::from_parts(gridedge_t::clock::MIN_DAY, 100, 0).unwrap();
    assert!(first.to_utc().is_none());
}

#[test]
fn digests_are_those_of_sha_256() {
    let abc = "ba7816bf8f01cfea414140de5dae2223b00361a396177a9cb410ff61f20015ad";
    assert_eq!(sha256_hex(b"abc"), abc);
    assert_eq!(text_sha256("abc"), abc);
    assert_eq!(id_of("abc"), "7697a46f-b283-5da3-8e7c-62c11c03dd9e");
    assert_eq!(digest_seed("abc"), 13436514500253700074);
    assert_eq!(digest_draw("abc"), 47736);
    assert!(is_lower_hex(abc, 64) && !is_lower_hex(abc, 63) && !is_lower_hex("0G", 2));
}

#[test]
fn texts_are_trimmed_split_and_sorted() {
    assert_eq!(join("ab", "cd"), "abcd");
    assert!(is_blank(" \t\u{3000}") && !is_blank(" x "));
    assert_eq!(trim("\u{a0} x y \n"), "x y");
    assert_eq!(strip_prefix("abc", "ab"), Some("c".to_owned()));
    assert_eq!(strip_prefix("abc", "b"), None);
    assert_eq!(strip_suffix("abc", "bc"), Some("a".to_owned()));
    assert_eq!(strip_suffix("abc", "ab"), None);
    assert_eq!(unsigned_text(340282366920938463463374607431768211455), "340282366920938463463374607431768211455");
    assert_eq!(signed_text(i64::MIN), "-9223372036854775808");
    assert_eq!(sort_texts(&owned(&["b", "a", "é", "a"])), owned(&["a", "a", "b", "é"]));
    assert_eq!(drop_text(&owned(&["a", "b", "a"]), "a"), owned(&["b"]));
    assert_eq!(five_digit_text(7), "00007");
    assert_eq!(five_digit_text(123456), "123456");
}

#[test]
fn counts_are_read_as_unsigned_integers() {
    assert_eq!(parse_count("642600"), Some(642600));
    assert_eq!(parse_count("+5"), Some(5));
    assert_eq!(parse_count("18446744073709551615"), Some(u64::MAX));
    for invalid in ["", "+", "-1", "1.5", "18446744073709551616", " 1", "1_0"] {
        assert_eq!(parse_count(invalid), None, "{invalid}");
    }
}

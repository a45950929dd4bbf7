use retry_after::parse::delay_between;
use retry_after::parse::delay_from_date_str;
use retry_after::parse::parse_retry_after;
use retry_after::parse::parse_seconds;

// "Sun, 06 Nov 1994 08:49:37 GMT" as a Unix timestamp in seconds.
const EXAMPLE_TS: i64 = 784111777;

#[test]
fn integer_seconds() {
    assert_eq!(parse_seconds("5"), Some(5));
    assert_eq!(parse_retry_after("5", 0), Some(5));
    assert_eq!(parse_retry_after("120", 123456789), Some(120));
    assert_eq!(parse_retry_after("0", 0), Some(0));
}

#[test]
fn integer_with_plus_sign() {
    assert_eq!(parse_seconds("+7"), Some(7));
    assert_eq!(parse_retry_after("+7", 0), Some(7));
    assert_eq!(parse_seconds("+"), None);
    assert_eq!(parse_seconds("++7"), None);
}

#[test]
fn integer_leading_zeros() {
    assert_eq!(parse_seconds("007"), Some(7));
    assert_eq!(parse_seconds("000"), Some(0));
}

#[test]
fn integer_max_value() {
    assert_eq!(parse_seconds("18446744073709551615"), Some(u64::MAX));
}

#[test]
fn integer_overflow_rejected() {
    assert_eq!(parse_seconds("18446744073709551616"), None);
    assert_eq!(parse_retry_after("99999999999999999999999", 0), None);
}

#[test]
fn integer_rejects_garbage() {
    assert_eq!(parse_seconds(""), None);
    assert_eq!(parse_seconds(" 5"), None);
    assert_eq!(parse_seconds("5 "), None);
    assert_eq!(parse_seconds("-3"), None);
    assert_eq!(parse_seconds("5x"), None);
    assert_eq!(parse_seconds("5.0"), None);
}

#[test]
fn date_rfc1123() {
    let hdr = "Sun, 06 Nov 1994 08:49:37 GMT";
    assert_eq!(parse_retry_after(hdr, EXAMPLE_TS - 5), Some(5));
    assert_eq!(delay_from_date_str(hdr, EXAMPLE_TS - 30), Some(30));
}

#[test]
fn date_rfc850() {
    let hdr = "Sunday, 06-Nov-94 08:49:37 GMT";
    assert_eq!(parse_retry_after(hdr, EXAMPLE_TS - 12), Some(12));
}

#[test]
fn date_asctime() {
    let hdr = "Sun Nov  6 08:49:37 1994";
    assert_eq!(parse_retry_after(hdr, EXAMPLE_TS - 8), Some(8));
}

#[test]
fn date_in_past_clamps_to_zero() {
    let hdr = "Sun, 06 Nov 1994 08:49:37 GMT";
    assert_eq!(parse_retry_after(hdr, EXAMPLE_TS + 10), Some(0));
}

#[test]
fn date_exactly_now_is_zero() {
    let hdr = "Sun, 06 Nov 1994 08:49:37 GMT";
    assert_eq!(parse_retry_after(hdr, EXAMPLE_TS), Some(0));
}

#[test]
fn unparsable_header() {
    assert_eq!(parse_retry_after("not-a-number-or-date", 0), None);
    assert_eq!(delay_from_date_str("not-a-number-or-date", 0), None);
    assert_eq!(parse_retry_after("Sun, 99 Nov 1994 08:49:37 GMT", 0), None);
}

#[test]
fn delay_between_clamps() {
    assert_eq!(delay_between(100, 90), 10);
    assert_eq!(delay_between(90, 100), 0);
    assert_eq!(delay_between(-5, -10), 5);
    assert_eq!(delay_between(i64::MAX, i64::MIN), u64::MAX);
    assert_eq!(delay_between(i64::MIN, i64::MAX), 0);
}

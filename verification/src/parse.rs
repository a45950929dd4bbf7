//! Header parser: turns the raw `Retry-After` value into a wait in seconds.
//!
//! The header carries either a non-negative integer count of seconds, or an
//! absolute HTTP date in one of the three historical formats (RFC 1123 style,
//! RFC 850 style, or ANSI C `asctime` style). An absolute date is normalized
//! to a wait relative to the current time, clamped to zero if already due.
//! A value that matches neither encoding yields `None`, never an error: the
//! controller treats it as a signal to stop retrying.

use vstd::prelude::*;

verus! {

/// Whether `c` is an ASCII decimal digit.
pub open spec fn is_dec_digit(c: char) -> bool {
    48 <= c as u32 && c as u32 <= 57
}

/// The numeric value of an ASCII decimal digit.
pub open spec fn dec_digit_val(c: char) -> int {
    c as u32 - 48
}

/// Whether every character of `s` is an ASCII decimal digit.
pub open spec fn all_dec_digits(s: Seq<char>) -> bool {
    forall|i: int| 0 <= i < s.len() ==> is_dec_digit(#[trigger] s[i])
}

/// The value of `s` read as a base-ten numeral, most significant digit first.
pub open spec fn dec_value(s: Seq<char>) -> int
    decreases s.len(),
{
    if s.len() == 0 {
        0
    } else {
        dec_value(s.drop_last()) * 10 + dec_digit_val(s.last())
    }
}

/// The digits of a candidate integer header value: an optional leading `+`
/// sign is accepted (as Rust's unsigned integer parsing accepts it) and does
/// not count as a digit.
pub open spec fn seconds_digits(s: Seq<char>) -> Seq<char> {
    if s.len() > 0 && s[0] == '+' {
        s.drop_first()
    } else {
        s
    }
}

/// What parsing the entire header value as a non-negative integer count of
/// seconds yields: the value, provided the string is an optional `+` sign
/// followed by at least one decimal digit and nothing else, and the value
/// fits in a `u64`; otherwise nothing.
pub open spec fn seconds_of(s: Seq<char>) -> Option<u64> {
    let ds = seconds_digits(s);
    if ds.len() > 0 && all_dec_digits(ds) && dec_value(ds) <= u64::MAX {
        Some(dec_value(ds) as u64)
    } else {
        None
    }
}

proof fn lemma_dec_value_nonneg(s: Seq<char>)
    requires
        all_dec_digits(s),
    ensures
        dec_value(s) >= 0,
    decreases s.len(),
{
    if s.len() > 0 {
        assert(all_dec_digits(s.drop_last()));
        lemma_dec_value_nonneg(s.drop_last());
        assert(is_dec_digit(s.last()));
    }
}

/// Reading more digits can only increase the value: the value of a prefix of
/// a digit string never exceeds the value of the whole.
proof fn lemma_dec_value_prefix(s: Seq<char>, k: int)
    requires
        all_dec_digits(s),
        0 <= k <= s.len(),
    ensures
        dec_value(s.take(k)) <= dec_value(s),
    decreases s.len() - k,
{
    if k == s.len() {
        assert(s.take(k) =~= s);
    } else {
        lemma_dec_value_prefix(s, k + 1);
        assert(s.take(k + 1).drop_last() =~= s.take(k));
        assert(s.take(k + 1).last() == s[k]);
        assert(all_dec_digits(s.take(k)));
        lemma_dec_value_nonneg(s.take(k));
        assert(is_dec_digit(s[k]));
        assert(dec_value(s.take(k + 1)) == dec_value(s.take(k)) * 10 + dec_digit_val(s[k]));
        assert(dec_value(s.take(k)) * 10 >= dec_value(s.take(k))) by (nonlinear_arith)
            requires
                dec_value(s.take(k)) >= 0,
        ;
    }
}

/// Attempt to read the entire string as a non-negative integer count of
/// seconds, exactly as Rust's `u64` parsing would: an optional leading `+`,
/// then one or more decimal digits, and the value must fit in a `u64`.
pub fn parse_seconds(s: &str) -> (r: Option<u64>)
    ensures
        r == seconds_of(s@),
{
    let n: usize = s.unicode_len();
    let mut i: usize = 0;
    if n > 0 && s.get_char(0) == '+' {
        i = 1;
    }
    let ghost ds = seconds_digits(s@);
    proof {
        assert(ds =~= s@.skip(i as int));
    }
    if i >= n {
        return None;
    }
    let mut acc: u64 = 0;
    let mut j: usize = i;
    while j < n
        invariant
            i <= j <= n,
            n == s@.len(),
            ds == seconds_digits(s@),
            ds =~= s@.skip(i as int),
            i < n,
            all_dec_digits(ds.take(j - i)),
            acc == dec_value(ds.take(j - i)),
        decreases n - j,
    {
        let c: char = s.get_char(j);
        let cv: u32 = c as u32;
        if cv < 48 || cv > 57 {
            proof {
                assert(ds[j - i] == s@[j as int]);
                assert(!all_dec_digits(ds)) by {
                    assert(0 <= j - i < ds.len());
                    assert(!is_dec_digit(ds[j - i]));
                }
            }
            return None;
        }
        let d: u64 = (cv - 48) as u64;
        proof {
            assert(ds.take(j - i + 1).drop_last() =~= ds.take(j - i));
            assert(ds.take(j - i + 1).last() == ds[j - i]);
            assert(ds[j - i] == s@[j as int]);
            assert(dec_value(ds.take(j - i + 1)) == acc * 10 + d);
            assert(all_dec_digits(ds.take(j - i + 1)));
        }
        if acc > (u64::MAX - d) / 10 {
            proof {
                assert(acc * 10 + d > u64::MAX) by (nonlinear_arith)
                    requires
                        acc > (u64::MAX - d) / 10,
                        0 <= d <= 9,
                ;
                if all_dec_digits(ds) {
                    lemma_dec_value_prefix(ds, j - i + 1);
                    assert(dec_value(ds) > u64::MAX);
                }
                assert(seconds_of(s@) is None);
            }
            return None;
        }
        proof {
            assert(acc * 10 + d <= u64::MAX) by (nonlinear_arith)
                requires
                    acc <= (u64::MAX - d) / 10,
                    0 <= d <= 9,
            ;
        }
        acc = acc * 10 + d;
        j = j + 1;
    }
    proof {
        assert(ds.take(j - i) =~= ds);
    }
    Some(acc)
}

/// What chrono yields when the header value is read as an HTTP date in one of
/// the three historical formats: the moment it names, as a Unix timestamp in
/// seconds, or nothing where no format matches. A function of the string
/// alone.
pub uninterp spec fn http_date_timestamp(s: Seq<char>) -> Option<i64>;

/// Relies on chrono's `NaiveDateTime::parse_from_str`: the three historical
/// HTTP date layouts (RFC 1123 style, RFC 850 style, ANSI C `asctime` style)
/// are tried in order and the first match is turned into a Unix timestamp in
/// seconds. The result depends on the input string alone.
#[verifier::external_body]
pub(crate) fn parse_http_date(s: &str) -> (r: Option<i64>)
    ensures
        r == http_date_timestamp(s@),
{
    chrono::NaiveDateTime::parse_from_str(s, "%a, %d %b %Y %T %Z")
        .or_else(|_| chrono::NaiveDateTime::parse_from_str(s, "%A, %d-%b-%y %T %Z"))
        .or_else(|_| chrono::NaiveDateTime::parse_from_str(s, "%c"))
        .ok()
        .map(|t| t.and_utc().timestamp())
}

/// The wait implied by an absolute retry time `ts` at current time `now`
/// (both in Unix seconds): the seconds still to pass, or zero if the time is
/// already due — never negative.
pub open spec fn date_delay(ts: int, now: int) -> int {
    if ts > now {
        ts - now
    } else {
        0
    }
}

/// The seconds from `now_unix` until `ts`, clamped to zero when `ts` is not
/// in the future.
pub fn delay_between(ts: i64, now_unix: i64) -> (r: u64)
    ensures
        r as int == date_delay(ts as int, now_unix as int),
{
    if ts > now_unix {
        let wide: i128 = (ts as i128) - (now_unix as i128);
        assert(0 < wide <= u64::MAX);
        wide as u64
    } else {
        0
    }
}

/// What the date arm of the header parser yields for value `s` at current
/// time `now`: the clamped wait until the date the value names, or nothing
/// where the value is not an HTTP date.
pub open spec fn date_delay_of(s: Seq<char>, now: int) -> Option<int> {
    match http_date_timestamp(s) {
        Some(ts) => Some(date_delay(ts as int, now)),
        None => None,
    }
}

/// If the value cannot be parsed as an HTTP date, returns nothing.
/// If the parsed moment is in the future, returns the wait until it.
/// If the parsed moment is not in the future, returns a zero wait.
pub fn delay_from_date_str(s: &str, now_unix: i64) -> (r: Option<u64>)
    ensures
        match date_delay_of(s@, now_unix as int) {
            Some(d) => r matches Some(rv) && rv as int == d,
            None => r is None,
        },
{
    match parse_http_date(s) {
        Some(ts) => Some(delay_between(ts, now_unix)),
        None => None,
    }
}

/// What the whole header parser yields for raw value `s` at current time
/// `now`: the integer reading wins where it applies, the date reading is
/// tried second, and a value that matches neither encoding yields nothing.
pub open spec fn hint_delay(s: Seq<char>, now: int) -> Option<int> {
    match seconds_of(s) {
        Some(v) => Some(v as int),
        None => date_delay_of(s, now),
    }
}

/// Header parser: turn the raw `Retry-After` value into a wait in seconds,
/// given the current time as a Unix timestamp. First the entire value is
/// read as a non-negative integer count of seconds; failing that, it is read
/// as an HTTP date and normalized to a wait relative to `now_unix`, clamped
/// to zero if already due; failing both, the value is unparsable and the
/// result is `None`.
pub fn parse_retry_after(s: &str, now_unix: i64) -> (r: Option<u64>)
    ensures
        match hint_delay(s@, now_unix as int) {
            Some(d) => r matches Some(rv) && rv as int == d,
            None => r is None,
        },
{
    match parse_seconds(s) {
        Some(v) => Some(v),
        None => delay_from_date_str(s, now_unix),
    }
}

} // verus!

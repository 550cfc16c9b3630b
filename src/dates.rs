//! Human-readable ages of publication dates, and the once-a-day update check.
use vstd::prelude::*;
use vstd::string::*;

verus! {

pub open spec fn digit_char(d: nat) -> char {
    if d == 0 { '0' }
    else if d == 1 { '1' }
    else if d == 2 { '2' }
    else if d == 3 { '3' }
    else if d == 4 { '4' }
    else if d == 5 { '5' }
    else if d == 6 { '6' }
    else if d == 7 { '7' }
    else if d == 8 { '8' }
    else { '9' }
}

/// The decimal digits of `n`, without leading zeros.
pub open spec fn decimal(n: nat) -> Seq<char>
    decreases n,
{
    if n < 10 {
        seq![digit_char(n)]
    } else {
        decimal(n / 10).push(digit_char(n % 10))
    }
}

fn digit_str(d: u64) -> (r: &'static str)
    requires
        d < 10,
    ensures
        r@ == seq![digit_char(d as nat)],
{
    proof {
        reveal_strlit("0");
        reveal_strlit("1");
        reveal_strlit("2");
        reveal_strlit("3");
        reveal_strlit("4");
        reveal_strlit("5");
        reveal_strlit("6");
        reveal_strlit("7");
        reveal_strlit("8");
        reveal_strlit("9");
    }
    let r = if d == 0 { "0" }
    else if d == 1 { "1" }
    else if d == 2 { "2" }
    else if d == 3 { "3" }
    else if d == 4 { "4" }
    else if d == 5 { "5" }
    else if d == 6 { "6" }
    else if d == 7 { "7" }
    else if d == 8 { "8" }
    else { "9" };
    assert(r@ =~= seq![digit_char(d as nat)]);
    r
}

/// `n` written in decimal.
pub fn decimal_text(n: u64) -> (r: String)
    ensures
        r@ == decimal(n as nat),
    decreases n,
{
    if n < 10 {
        digit_str(n).to_owned()
    } else {
        let mut s = decimal_text(n / 10);
        s.append(digit_str(n % 10));
        s
    }
}

/// `"<n> <unit> ago"`, with an `s` after the unit where `n > 1`.
pub open spec fn ago(n: nat, unit: Seq<char>) -> Seq<char> {
    decimal(n) + " "@ + unit + (if n > 1 { "s"@ } else { Seq::empty() }) + " ago"@
}

/// A positive age in days, in years past 365 days, in months past 30.
pub open spec fn age_text(days: nat) -> Seq<char> {
    if days > 365 {
        ago(days / 365, "year"@)
    } else if days > 30 {
        ago(days / 30, "month"@)
    } else {
        ago(days, "day"@)
    }
}

fn ago_text(n: u64, unit: &str) -> (r: String)
    ensures
        r@ == ago(n as nat, unit@),
{
    let mut s = decimal_text(n);
    s.append(" ");
    s.append(unit);
    if n > 1 {
        s.append("s");
    }
    s.append(" ago");
    s
}

pub fn describe_age(days: u64) -> (r: String)
    ensures
        r@ == age_text(days as nat),
{
    if days > 365 {
        ago_text(days / 365, "year")
    } else if days > 30 {
        ago_text(days / 30, "month")
    } else {
        ago_text(days, "day")
    }
}

pub const SECS_PER_DAY: i128 = 86400;

/// The epoch second that an RFC 3339 date-time names, if it parses.
pub uninterp spec fn rfc3339_seconds(s: Seq<char>) -> Option<i64>;

/// The day number (days since the common era began, day 1 being
/// 0001-01-01) of a `YYYY-MM-DD` date, if it parses.
pub uninterp spec fn ymd_day_number(s: Seq<char>) -> Option<i32>;

/// Relies on chrono's `DateTime::parse_from_rfc3339` and `timestamp`: the
/// result depends on the text alone.
#[verifier::external_body]
fn parse_rfc3339_seconds(s: &str) -> (r: Option<i64>)
    ensures
        r == rfc3339_seconds(s@),
{
    chrono::DateTime::parse_from_rfc3339(s).ok().map(|dt| dt.timestamp())
}

/// Relies on chrono's `NaiveDate::parse_from_str` with `%Y-%m-%d` and
/// `Datelike::num_days_from_ce`: the result depends on the text alone.
#[verifier::external_body]
fn parse_ymd_day_number(s: &str) -> (r: Option<i32>)
    ensures
        r == ymd_day_number(s@),
{
    chrono::NaiveDate::parse_from_str(s, "%Y-%m-%d").ok().map(|d| chrono::Datelike::num_days_from_ce(&d))
}

/// How a publication date reads at epoch second `now`, on day number `today`.
pub open spec fn date_text(
    s: Seq<char>,
    rfc: Option<i64>,
    ymd: Option<i32>,
    now: i64,
    today: i32,
) -> Seq<char> {
    if s.len() == 0 {
        "Unknown date"@
    } else if rfc is Some {
        if now - rfc->0 >= SECS_PER_DAY as int {
            age_text(((now - rfc->0) / SECS_PER_DAY as int) as nat)
        } else {
            "Today"@
        }
    } else if ymd is Some && today - ymd->0 > 0 {
        age_text((today - ymd->0) as nat)
    } else {
        s
    }
}

/// How a publication date reads, given what the two date parsers made of it.
pub fn format_date_parsed(
    date_str: &str,
    rfc: Option<i64>,
    ymd: Option<i32>,
    now: i64,
    today: i32,
) -> (r: String)
    ensures
        r@ == date_text(date_str@, rfc, ymd, now, today),
{
    if date_str.is_empty() {
        return "Unknown date".to_owned();
    }
    if let Some(t) = rfc {
        let diff: i128 = now as i128 - t as i128;
        if diff >= SECS_PER_DAY {
            let days = diff / SECS_PER_DAY;
            assert(days <= u64::MAX) by (nonlinear_arith)
                requires
                    days == diff / SECS_PER_DAY,
                    0 <= diff <= 2 * 0x8000_0000_0000_0000,
            ;
            return describe_age(days as u64);
        }
        return "Today".to_owned();
    }
    if let Some(d) = ymd {
        let days: i64 = today as i64 - d as i64;
        if days > 0 {
            return describe_age(days as u64);
        }
    }
    date_str.to_owned()
}

/// How a publication date (RFC 3339, or `YYYY-MM-DD`) reads at epoch second
/// `now`, on day number `today`: an age such as "3 days ago", "Today", or
/// the text as it stands where neither form parses.
pub fn format_date(date_str: &str, now: i64, today: i32) -> (r: String)
    ensures
        r@ == date_text(date_str@, rfc3339_seconds(date_str@), ymd_day_number(date_str@), now, today),
{
    let rfc = parse_rfc3339_seconds(date_str);
    let ymd = if rfc.is_some() {
        None
    } else {
        parse_ymd_day_number(date_str)
    };
    format_date_parsed(date_str, rfc, ymd, now, today)
}

pub open spec fn is_digit(c: char) -> bool {
    '0' <= c && c <= '9'
}

/// The value of a run of decimal digits.
pub open spec fn digits_value(d: Seq<char>) -> int
    decreases d.len(),
{
    if d.len() == 0 {
        0
    } else {
        digits_value(d.drop_last()) * 10 + (d.last() as int - '0' as int)
    }
}

pub open spec fn all_digits(d: Seq<char>) -> bool {
    forall|i: int| 0 <= i < d.len() ==> is_digit(#[trigger] d[i])
}

/// The text after an optional leading sign.
pub open spec fn unsigned_part(s: Seq<char>) -> Seq<char> {
    if s.len() > 0 && (s[0] == '-' || s[0] == '+') {
        s.drop_first()
    } else {
        s
    }
}

/// `str::parse::<i64>`: an optional sign, then at least one ASCII digit,
/// and a value that fits.
pub open spec fn i64_of(s: Seq<char>) -> Option<i64> {
    let neg = s.len() > 0 && s[0] == '-';
    let d = unsigned_part(s);
    let v = if neg { -digits_value(d) } else { digits_value(d) };
    if d.len() > 0 && all_digits(d) && i64::MIN <= v <= i64::MAX {
        Some(v as i64)
    } else {
        None
    }
}

proof fn lemma_digits_value_nonneg(d: Seq<char>)
    requires
        forall|i: int| 0 <= i < d.len() ==> is_digit(#[trigger] d[i]),
    ensures
        digits_value(d) >= 0,
    decreases d.len(),
{
    if d.len() > 0 {
        assert forall|i: int| 0 <= i < d.drop_last().len() implies is_digit(#[trigger] d.drop_last()[i]) by {
            assert(d.drop_last()[i] == d[i]);
        }
        lemma_digits_value_nonneg(d.drop_last());
    }
}

/// Reads a decimal `i64` as `str::parse` does.
pub fn parse_i64(s: &str) -> (r: Option<i64>)
    ensures
        r == i64_of(s@),
{
    let n = s.unicode_len();
    let neg = n > 0 && s.get_char(0) == '-';
    let start: usize = if n > 0 && (s.get_char(0) == '-' || s.get_char(0) == '+') { 1 } else { 0 };
    let ghost d = unsigned_part(s@);
    assert(d =~= s@.subrange(start as int, n as int));
    if start == n {
        return None;
    }
    // the magnitude so far, which stays within 2^63
    let mut acc: u64 = 0;
    let mut i: usize = start;
    while i < n
        invariant
            n == s@.len(),
            start <= i <= n,
            d == unsigned_part(s@),
            neg == (s@.len() > 0 && s@[0] == '-'),
            d == s@.subrange(start as int, n as int),
            acc as int == digits_value(d.subrange(0, i - start)),
            acc <= 0x8000_0000_0000_0000,
            forall|k: int| 0 <= k < i - start ==> is_digit(#[trigger] d[k]),
        decreases n - i,
    {
        let c = s.get_char(i);
        assert(d[i - start] == c);
        if !('0' <= c && c <= '9') {
            assert(!is_digit(d[i - start]));
            return None;
        }
        let ghost pre = d.subrange(0, i - start);
        let ghost next = d.subrange(0, i + 1 - start);
        assert(next.drop_last() =~= pre);
        let digit = (c as u32 - '0' as u32) as u64;
        assert(digits_value(next) == acc * 10 + digit);
        if acc > (0x8000_0000_0000_0000 - digit) / 10 {
            // the magnitude passes 2^63, beyond both bounds
            assert(acc * 10 + digit > 0x8000_0000_0000_0000) by (nonlinear_arith)
                requires
                    acc > (0x8000_0000_0000_0000 - digit) / 10,
                    digit <= 9,
            ;
            proof {
                if forall|k: int| 0 <= k < d.len() ==> is_digit(#[trigger] d[k]) {
                    lemma_digits_value_grows(d, (i + 1 - start) as int);
                }
            }
            return None;
        }
        assert(acc * 10 + digit <= 0x8000_0000_0000_0000) by (nonlinear_arith)
            requires
                acc <= (0x8000_0000_0000_0000 - digit) / 10,
                digit <= 9,
        ;
        acc = acc * 10 + digit;
        i += 1;
    }
    assert(d.subrange(0, n - start) =~= d);
    if neg {
        Some((0 - acc as i128) as i64)
    } else if acc <= 0x7fff_ffff_ffff_ffff {
        Some(acc as i64)
    } else {
        None
    }
}

/// A digit string's value never shrinks as digits follow.
proof fn lemma_digits_value_grows(d: Seq<char>, k: int)
    requires
        0 <= k <= d.len(),
        forall|i: int| 0 <= i < d.len() ==> is_digit(#[trigger] d[i]),
    ensures
        digits_value(d) >= digits_value(d.subrange(0, k)),
    decreases d.len() - k,
{
    if k < d.len() {
        lemma_digits_value_grows(d, k + 1);
        let a = d.subrange(0, k + 1);
        assert(a.drop_last() =~= d.subrange(0, k));
        assert forall|i: int| 0 <= i < d.subrange(0, k).len() implies is_digit(#[trigger] d.subrange(0, k)[i]) by {
            assert(d.subrange(0, k)[i] == d[i]);
        }
        lemma_digits_value_nonneg(d.subrange(0, k));
    } else {
        assert(d.subrange(0, k) =~= d);
    }
}

/// Whether a new update check is due at epoch second `now`, given the text
/// of the last check's record (`None` where there is none): due where no
/// readable timestamp is recorded, or where more than a day has passed.
pub open spec fn check_due(last: Option<Seq<char>>, now: i64) -> bool {
    match last {
        Some(t) => match i64_of(crate::text::trimmed(t)) {
            Some(ts) => now - ts > SECS_PER_DAY as int,
            None => true,
        },
        None => true,
    }
}

pub fn should_check_for_updates(last_check: Option<&str>, now: i64) -> (r: bool)
    ensures
        r == check_due(
            match last_check {
                Some(t) => Some(t@),
                None => None,
            },
            now,
        ),
{
    match last_check {
        Some(t) => {
            let trimmed = crate::text::trim(t);
            match parse_i64(trimmed.as_str()) {
                Some(ts) => now as i128 - ts as i128 > SECS_PER_DAY,
                None => true,
            }
        },
        None => true,
    }
}

} // verus!

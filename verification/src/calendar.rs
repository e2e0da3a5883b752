//! Dates as they are shown.
use vstd::prelude::*;
use crate::text::digit;

verus! {

/// A leap year.
pub open spec fn is_leap(year: int) -> bool {
    year % 4 == 0 && (year % 100 != 0 || year % 400 == 0)
}

/// How many days a year has.
pub open spec fn year_days(year: int) -> int {
    if is_leap(year) {
        366
    } else {
        365
    }
}

/// How many days a month has.
pub open spec fn month_days(year: int, month: int) -> int {
    if month == 2 {
        if is_leap(year) {
            29
        } else {
            28
        }
    } else if month == 4 || month == 6 || month == 9 || month == 11 {
        30
    } else {
        31
    }
}

/// How many days lie between the start of 1970 and that of a year. Each fourth year has one
/// more, except each hundredth that is not a four-hundredth.
pub open spec fn days_before_year(year: int) -> int {
    365 * (year - 1970) + (year - 1) / 4 - (year - 1) / 100 + (year - 1) / 400 - 477
}

/// How many days of its year lie before a month.
pub open spec fn days_before_month(year: int, month: int) -> int
    decreases month,
{
    if month <= 1 {
        0
    } else {
        days_before_month(year, month - 1) + month_days(year, month - 1)
    }
}

/// Whether a date is that of the day so many days after the first of 1970.
pub open spec fn is_date(days: int, year: int, month: int, day: int) -> bool {
    &&& 1 <= month <= 12
    &&& 1 <= day <= month_days(year, month)
    &&& days_before_year(year) + days_before_month(year, month) + day - 1 == days
}

/// A number of two digits.
pub open spec fn two_digits(n: int) -> Seq<char> {
    seq![digit(n / 10), digit(n % 10)]
}

/// A year in four digits, with a sign where it lies before the year 0.
pub open spec fn year_text(year: int) -> Seq<char> {
    if year < 0 {
        seq!['-'] + two_digits(-year / 100) + two_digits(-year % 100)
    } else {
        two_digits(year / 100) + two_digits(year % 100)
    }
}

/// A date, and the time so many seconds after its start, as they are shown.
pub open spec fn date_text(year: int, month: int, day: int, second: int) -> Seq<char> {
    year_text(year) + seq!['-'] + two_digits(month) + seq!['-'] + two_digits(day) + seq![' ']
        + two_digits(second / 3600) + seq![':'] + two_digits(second % 3600 / 60) + seq![
        ' ',
        'U',
        'T',
        'C',
    ]
}

/// How many seconds a day has.
pub const DAY_SECONDS: i64 = 86400;

/// Whether a text shows a timestamp: the date of its day, and its time of day, in UTC.
pub open spec fn shows(text: Seq<char>, timestamp: i64) -> bool {
    exists|year: int, month: int, day: int|
        #[trigger] is_date(timestamp as int / DAY_SECONDS as int, year, month, day) && text
            == date_text(year, month, day, timestamp as int % DAY_SECONDS as int)
}

/// How a date and time are written out.
pub const DATETIME_FORMAT: &'static str = "[year]-[month]-[day] [hour]:[minute] UTC";

/// The first second of the year -9999, the earliest that can be written out.
pub const FIRST_SECOND: i64 = -377705116800;

/// The last second of the year 9999, the latest that can be written out.
pub const LAST_SECOND: i64 = 253402300799;

/// `time::OffsetDateTime::format`, on the date and time of `from_unix_timestamp` and the
/// format of `format_description::parse`. There is no text for a timestamp outside the years
/// -9999 to 9999. For one within, the text gives the date of the Gregorian calendar and the
/// time in UTC, each number in all its digits.
#[verifier::external_body]
fn format_utc(timestamp: i64, description: &str) -> (r: Option<String>)
    requires
        description@ == DATETIME_FORMAT@,
    ensures
        r is Some <==> FIRST_SECOND <= timestamp <= LAST_SECOND,
        r is Some ==> shows(r->0@, timestamp),
{
    let date = time::OffsetDateTime::from_unix_timestamp(timestamp).ok()?;
    let format = time::format_description::parse(description).ok()?;
    date.format(&format).ok()
}

/// Shows a timestamp as a date and time in UTC; one that is out of range shows as nothing.
pub fn datetimeformat(value: i64) -> (r: String)
    ensures
        FIRST_SECOND <= value <= LAST_SECOND ==> shows(r@, value),
        !(FIRST_SECOND <= value <= LAST_SECOND) ==> r@.len() == 0,
{
    match format_utc(value, DATETIME_FORMAT) {
        Some(text) => text,
        None => String::new(),
    }
}

/// One more year starts a new period of `length` years just where it is a multiple.
proof fn lemma_period(year: int, length: int)
    requires
        length > 1,
    ensures
        year / length == (year - 1) / length + if year % length == 0 {
            1int
        } else {
            0
        },
{
    let q = year / length;
    let r = year % length;
    vstd::arithmetic::div_mod::lemma_fundamental_div_mod(year, length);
    vstd::arithmetic::div_mod::lemma_mod_bound(year, length);
    vstd::arithmetic::mul::lemma_mul_is_commutative(length, q);
    if r == 0 {
        assert(year - 1 == (q - 1) * length + (length - 1)) by (nonlinear_arith)
            requires
                year == q * length,
        ;
        vstd::arithmetic::div_mod::lemma_fundamental_div_mod_converse(
            year - 1,
            length,
            q - 1,
            length - 1,
        );
    } else {
        vstd::arithmetic::div_mod::lemma_fundamental_div_mod_converse(year - 1, length, q, r - 1);
    }
}

/// A multiple of `a` times `b` is one of `b`.
proof fn lemma_multiple(year: int, a: int, b: int)
    requires
        a > 0,
        b > 0,
        year % (a * b) == 0,
    ensures
        year % b == 0,
{
    let q = year / (a * b);
    assert(a * b > 0) by (nonlinear_arith)
        requires
            a > 0,
            b > 0,
    ;
    vstd::arithmetic::div_mod::lemma_fundamental_div_mod(year, a * b);
    assert(year == (q * a) * b) by (nonlinear_arith)
        requires
            year == (a * b) * q,
    ;
    vstd::arithmetic::div_mod::lemma_fundamental_div_mod_converse(year, b, q * a, 0);
}

proof fn lemma_year_step(year: int)
    ensures
        days_before_year(year + 1) == days_before_year(year) + year_days(year),
{
    lemma_period(year, 4);
    lemma_period(year, 100);
    lemma_period(year, 400);
    if year % 400 == 0 {
        lemma_multiple(year, 4, 100);
    }
    if year % 100 == 0 {
        lemma_multiple(year, 25, 4);
    }
}

proof fn lemma_years_ordered(a: int, b: int)
    requires
        a <= b,
    ensures
        days_before_year(a) <= days_before_year(b),
    decreases b - a,
{
    if a < b {
        lemma_years_ordered(a, b - 1);
        lemma_year_step(b - 1);
    }
}

proof fn lemma_months_ordered(year: int, a: int, b: int)
    requires
        1 <= a <= b,
    ensures
        0 <= days_before_month(year, a) <= days_before_month(year, b),
    decreases b,
{
    if a < b {
        lemma_months_ordered(year, a, b - 1);
    } else if a > 1 {
        lemma_months_ordered(year, a - 1, a - 1);
    }
}

/// The twelve months make up the year.
proof fn lemma_year_full(year: int)
    ensures
        days_before_month(year, 13) == year_days(year),
{
    reveal_with_fuel(days_before_month, 13);
}

/// A day has one date only.
pub proof fn law_one_date(
    days: int,
    year: int,
    month: int,
    day: int,
    other_year: int,
    other_month: int,
    other_day: int,
)
    requires
        is_date(days, year, month, day),
        is_date(days, other_year, other_month, other_day),
    ensures
        year == other_year && month == other_month && day == other_day,
{
    lemma_year_full(year);
    lemma_year_full(other_year);
    lemma_months_ordered(year, month + 1, 13);
    lemma_months_ordered(other_year, other_month + 1, 13);
    lemma_months_ordered(year, month, month);
    lemma_months_ordered(other_year, other_month, other_month);
    lemma_year_step(year);
    lemma_year_step(other_year);
    if year < other_year {
        lemma_years_ordered(year + 1, other_year);
    } else if other_year < year {
        lemma_years_ordered(other_year + 1, year);
    } else if month < other_month {
        lemma_months_ordered(year, month + 1, other_month);
    } else if other_month < month {
        lemma_months_ordered(year, other_month + 1, month);
    }
}

/// Every day has a date.
pub proof fn law_every_day(days: int)
    ensures
        exists|year: int, month: int, day: int| is_date(days, year, month, day),
    decreases if days < 0 {
        -days
    } else {
        days
    },
{
    if days == 0 {
        assert(is_date(0, 1970, 1, 1));
    } else if days > 0 {
        let before = days - 1;
        law_every_day(before);
        let (year, month, day) = choose|year: int, month: int, day: int|
            is_date(before, year, month, day);
        lemma_year_full(year);
        lemma_year_step(year);
        if day < month_days(year, month) {
            assert(is_date(days, year, month, day + 1));
        } else if month < 12 {
            assert(is_date(days, year, month + 1, 1));
        } else {
            assert(is_date(days, year + 1, 1, 1));
        }
    } else {
        let after = days + 1;
        law_every_day(after);
        let (year, month, day) = choose|year: int, month: int, day: int|
            is_date(after, year, month, day);
        lemma_year_full(year - 1);
        lemma_year_step(year - 1);
        if day > 1 {
            assert(is_date(days, year, month, day - 1));
        } else if month > 1 {
            assert(is_date(days, year, month - 1, month_days(year, month - 1)));
        } else {
            assert(is_date(days, year - 1, 12, 31));
        }
    }
}

/// What can be written out are the years of up to four digits, before and after the year 0.
pub proof fn law_years_shown(timestamp: i64, year: int, month: int, day: int)
    requires
        is_date(timestamp as int / DAY_SECONDS as int, year, month, day),
    ensures
        FIRST_SECOND <= timestamp <= LAST_SECOND <==> -9999 <= year <= 9999,
{
    lemma_year_full(year);
    lemma_months_ordered(year, month + 1, 13);
    lemma_months_ordered(year, month, month);
    lemma_year_step(year);
    assert(days_before_year(-9999) == -4371587);
    assert(days_before_year(10000) == 2932897);
    if year < -9999 {
        lemma_years_ordered(year + 1, -9999);
    } else if year <= 9999 {
        lemma_years_ordered(-9999, year);
        lemma_years_ordered(year + 1, 10000);
    } else {
        lemma_years_ordered(10000, year);
    }
}

/// A timestamp is shown in one way only.
pub proof fn law_shown_once(a: Seq<char>, b: Seq<char>, timestamp: i64)
    requires
        shows(a, timestamp),
        shows(b, timestamp),
    ensures
        a == b,
{
    let days = timestamp as int / DAY_SECONDS as int;
    let second = timestamp as int % DAY_SECONDS as int;
    let (y, m, d) = choose|y: int, m: int, d: int|
        #[trigger] is_date(days, y, m, d) && a == date_text(y, m, d, second);
    let (v, n, e) = choose|v: int, n: int, e: int|
        #[trigger] is_date(days, v, n, e) && b == date_text(v, n, e, second);
    law_one_date(days, y, m, d, v, n, e);
}

} // verus!

//! The texts that `chrono` prints for dates and times and `uuid` for UUIDs,
//! and the double that `rust_decimal` converts a decimal to.

use vstd::prelude::*;
use rust_decimal::prelude::ToPrimitive;
use crate::text::text_view;

verus! {

/// Whether a year of the Gregorian calendar, taken back before its start, is
/// a leap year.
pub open spec fn is_leap_year(year: int) -> bool {
    year % 4 == 0 && (year % 100 != 0 || year % 400 == 0)
}

/// The number of days of a month.
pub open spec fn days_in_month(year: int, month: nat) -> nat {
    if month == 2 {
        if is_leap_year(year) {
            29
        } else {
            28
        }
    } else if month == 4 || month == 6 || month == 9 || month == 11 {
        30
    } else {
        31
    }
}

/// Whether `chrono` knows a calendar date of that year, month and day: the
/// day is one of the month, and the year one of those that `chrono` holds.
pub open spec fn date_exists(year: i32, month: u32, day: u32) -> bool {
    -262143 <= year <= 262142 && 1 <= month <= 12 && 1 <= day <= days_in_month(
        year as int,
        month as nat,
    )
}

/// The character of a decimal digit.
pub open spec fn digit(n: nat) -> char {
    ((n + 48) as u8) as char
}

/// The character of a hexadecimal digit, a letter in lower case.
pub open spec fn hex_digit(n: nat) -> char {
    if n < 10 {
        ((n + 48) as u8) as char
    } else {
        ((n + 87) as u8) as char
    }
}

/// The last `width` decimal digits of `n`, with zeros in front where `n` has
/// fewer.
pub open spec fn padded(n: nat, width: nat) -> Seq<char>
    decreases width,
{
    if width == 0 {
        Seq::empty()
    } else {
        padded(n / 10, (width - 1) as nat).push(digit(n % 10))
    }
}

/// The decimal digits of `n`; none for zero.
pub open spec fn decimal(n: nat) -> Seq<char>
    decreases n,
{
    if n == 0 {
        Seq::empty()
    } else {
        decimal(n / 10).push(digit(n % 10))
    }
}

/// The last `width` hexadecimal digits of `n`, with zeros in front where `n`
/// has fewer.
pub open spec fn hex(n: nat, width: nat) -> Seq<char>
    decreases width,
{
    if width == 0 {
        Seq::empty()
    } else {
        hex(n / 16, (width - 1) as nat).push(hex_digit(n % 16))
    }
}

/// A year as ISO 8601 writes it: four digits from 0 to 9999, and a sign before
/// at least four digits for any other year.
pub open spec fn year_text(year: int) -> Seq<char> {
    let size = vstd::math::abs(year) as nat;
    if 0 <= year <= 9999 {
        padded(size, 4)
    } else {
        seq![if year < 0 { '-' } else { '+' }] + if size <= 9999 {
            padded(size, 4)
        } else {
            decimal(size)
        }
    }
}

/// A calendar date as ISO 8601 writes it: year, month and day, with hyphens.
pub open spec fn iso_date(year: int, month: nat, day: nat) -> Seq<char> {
    year_text(year) + seq!['-'] + padded(month, 2) + seq!['-'] + padded(day, 2)
}

/// Whether there is such a time of day. A nanosecond of a thousand million or
/// more stands for a leap second, and only after the second 59.
pub open spec fn is_time(hour: u32, minute: u32, second: u32, nano: u32) -> bool {
    hour < 24 && minute < 60 && second < 60 && nano < 2_000_000_000 && (nano < 1_000_000_000
        || second == 59)
}

/// The fraction of a second: nothing for none, else a point and three, six or
/// nine digits, as few as hold it.
pub open spec fn fraction_text(nano: nat) -> Seq<char> {
    if nano == 0 {
        Seq::empty()
    } else if nano % 1_000_000 == 0 {
        seq!['.'] + padded(nano / 1_000_000, 3)
    } else if nano % 1_000 == 0 {
        seq!['.'] + padded(nano / 1_000, 6)
    } else {
        seq!['.'] + padded(nano, 9)
    }
}

/// A time of day as ISO 8601 writes it: hour, minute and second, with colons,
/// and the fraction of the second. A leap second is the second 60.
pub open spec fn clock_text(hour: u32, minute: u32, second: u32, nano: u32) -> Seq<char> {
    let leap = nano >= 1_000_000_000;
    let shown: nat = if leap { (second + 1) as nat } else { second as nat };
    let fraction: nat = if leap { (nano - 1_000_000_000) as nat } else { nano as nat };
    padded(hour as nat, 2) + seq![':'] + padded(minute as nat, 2) + seq![':'] + padded(shown, 2)
        + fraction_text(fraction)
}

/// What `chrono` prints for a calendar date: its ISO 8601 form; `None` where
/// it knows no such date.
pub open spec fn date_text(year: i32, month: u32, day: u32) -> Option<Seq<char>> {
    if date_exists(year, month, day) {
        Some(iso_date(year as int, month as nat, day as nat))
    } else {
        None
    }
}

/// What `chrono` prints for a time of day: its ISO 8601 form; `None` where
/// there is no such time.
pub open spec fn time_text(hour: u32, minute: u32, second: u32, nano: u32) -> Option<Seq<char>> {
    if is_time(hour, minute, second, nano) {
        Some(clock_text(hour, minute, second, nano))
    } else {
        None
    }
}

/// What `chrono` prints for a date with a time of day: the date, a space, the
/// time; `None` where either does not exist.
pub open spec fn date_time_text(
    year: i32,
    month: u32,
    day: u32,
    hour: u32,
    minute: u32,
    second: u32,
    nano: u32,
) -> Option<Seq<char>> {
    if date_exists(year, month, day) && is_time(hour, minute, second, nano) {
        Some(
            iso_date(year as int, month as nat, day as nat) + seq![' '] + clock_text(
                hour,
                minute,
                second,
                nano,
            ),
        )
    } else {
        None
    }
}

/// The RFC 3339 form that `chrono` gives an instant of UTC: the date, a `T`,
/// the time, and the offset `+00:00`; `None` where date or time do not exist.
pub open spec fn timestamp_text(
    year: i32,
    month: u32,
    day: u32,
    hour: u32,
    minute: u32,
    second: u32,
    nano: u32,
) -> Option<Seq<char>> {
    if date_exists(year, month, day) && is_time(hour, minute, second, nano) {
        Some(
            iso_date(year as int, month as nat, day as nat) + seq!['T'] + clock_text(
                hour,
                minute,
                second,
                nano,
            ) + "+00:00"@,
        )
    } else {
        None
    }
}

/// The hyphenated form that `uuid` prints for a UUID of the given 128 bits:
/// its 32 hexadecimal digits in lower case, the first of them the highest, in
/// groups of eight, four, four, four and twelve.
pub open spec fn uuid_text(bits: u128) -> Seq<char> {
    let digits = hex(bits as nat, 32);
    digits.subrange(0, 8) + seq!['-'] + digits.subrange(8, 12) + seq!['-'] + digits.subrange(
        12,
        16,
    ) + seq!['-'] + digits.subrange(16, 20) + seq!['-'] + digits.subrange(20, 32)
}

/// The bit pattern of the double that `rust_decimal` converts `mantissa / 10^scale`
/// to; `None` where it holds no such decimal or reports no double for it.
pub uninterp spec fn decimal_double(mantissa: i128, scale: u32) -> Option<u64>;

/// Calls `chrono::NaiveDate::from_ymd_opt`, which gives a date for a day that
/// the proleptic Gregorian calendar has, in a year from -262143 to 262142; and
/// prints the date with its `Display`, which writes year, month and day as
/// `%Y-%m-%d`: the year in four digits from 0 to 9999 and with a sign
/// otherwise.
#[verifier::external_body]
pub(crate) fn render_date(year: i32, month: u32, day: u32) -> (text: Option<String>)
    ensures
        text_view(text) == date_text(year, month, day),
{
    chrono::NaiveDate::from_ymd_opt(year, month, day).map(|date| date.to_string())
}

/// Calls `chrono::NaiveTime::from_hms_nano_opt`, which gives a time for an
/// hour below 24, a minute and a second below 60 and a nanosecond below two
/// thousand million, a thousand million or more only after the second 59; and
/// prints the time with its `Display`, which writes `%H:%M:%S` and the
/// fraction of a second in three, six or nine digits where there is one.
#[verifier::external_body]
pub(crate) fn render_time(hour: u32, minute: u32, second: u32, nano: u32) -> (text: Option<String>)
    ensures
        text_view(text) == time_text(hour, minute, second, nano),
{
    chrono::NaiveTime::from_hms_nano_opt(hour, minute, second, nano).map(|time| time.to_string())
}

/// Builds a `chrono::NaiveDateTime` from `NaiveDate::from_ymd_opt` and
/// `NaiveDate::and_hms_nano_opt` and prints it with its `Display`: the date, a
/// space, the time.
#[verifier::external_body]
pub(crate) fn render_date_time(
    year: i32,
    month: u32,
    day: u32,
    hour: u32,
    minute: u32,
    second: u32,
    nano: u32,
) -> (text: Option<String>)
    ensures
        text_view(text) == date_time_text(year, month, day, hour, minute, second, nano),
{
    let date = chrono::NaiveDate::from_ymd_opt(year, month, day)?;
    date.and_hms_nano_opt(hour, minute, second, nano).map(|stamp| stamp.to_string())
}

/// Builds a `chrono::NaiveDateTime` from `NaiveDate::from_ymd_opt` and
/// `NaiveDate::and_hms_nano_opt`, takes it as an instant of UTC with
/// `NaiveDateTime::and_utc`, and writes it with `DateTime::to_rfc3339`: the
/// date, a `T`, the time with the fraction of a second where there is one, and
/// the offset `+00:00`.
#[verifier::external_body]
pub(crate) fn render_timestamp(
    year: i32,
    month: u32,
    day: u32,
    hour: u32,
    minute: u32,
    second: u32,
    nano: u32,
) -> (text: Option<String>)
    ensures
        text_view(text) == timestamp_text(year, month, day, hour, minute, second, nano),
{
    let date = chrono::NaiveDate::from_ymd_opt(year, month, day)?;
    date.and_hms_nano_opt(hour, minute, second, nano).map(|stamp| stamp.and_utc().to_rfc3339())
}

/// Calls `uuid::Uuid::from_u128` and prints the UUID with its `Display`, which
/// writes the hyphenated form in lower case.
#[verifier::external_body]
pub(crate) fn render_uuid(bits: u128) -> (text: String)
    ensures
        text@ == uuid_text(bits),
{
    uuid::Uuid::from_u128(bits).to_string()
}

/// How `rust_decimal` prints the decimal `mantissa / 10^scale`; nothing where
/// it holds no such decimal.
pub uninterp spec fn decimal_text(mantissa: i128, scale: u32) -> Seq<char>;

/// Builds the decimal with `rust_decimal::Decimal::try_from_i128_with_scale`
/// and prints it with its `Display`; hands back the empty text where there is
/// no such decimal. The contract names the text.
#[verifier::external_body]
pub(crate) fn print_decimal(mantissa: i128, scale: u32) -> (text: String)
    ensures
        text@ == decimal_text(mantissa, scale),
{
    let decimal = rust_decimal::Decimal::try_from_i128_with_scale(mantissa, scale).ok();
    decimal.map(|decimal| decimal.to_string()).unwrap_or_default()
}

/// Builds the decimal with `rust_decimal::Decimal::try_from_i128_with_scale`
/// and converts it with `ToPrimitive::to_f64`, the conversion behind
/// `TryFrom<Decimal>`. Hands back the bits of the double.
#[verifier::external_body]
pub(crate) fn decimal_to_double(mantissa: i128, scale: u32) -> (bits: Option<u64>)
    ensures
        bits == decimal_double(mantissa, scale),
{
    let decimal = rust_decimal::Decimal::try_from_i128_with_scale(mantissa, scale).ok()?;
    decimal.to_f64().map(|double| double.to_bits())
}

} // verus!

//! Cells and the value decoder: what the engine made of one column of one row,
//! and the value that the column's native type turns it into.

use vstd::prelude::*;
use vstd::string::StringExecFns;
use crate::error::{DecodeError, DecodeErrorView};
use crate::json::{decoded_of, json_document, parse_text, parsed_view, Json, JsonView};
use crate::native_type::{classify, family_of, targets, targets_of, Target, TypeFamily};
use crate::render::{
    date_text, date_time_text, decimal_double, decimal_text, decimal_to_double, print_decimal,
    render_date, render_date_time,
    render_time, render_timestamp, render_uuid, time_text, timestamp_text, uuid_text,
};
use crate::text::{text_view, upper, upper_text};
use crate::value::{outcome_view, Decoded, DecodedView};

verus! {

/// A cell in one of the engine's native representations. Floating-point numbers
/// are carried as their IEEE 754 bit patterns, a decimal as `mantissa / 10^scale`,
/// dates and times as their parts, a timestamp as its date and time in UTC.
#[derive(Debug, PartialEq, Eq)]
pub enum Native {
    Bool(bool),
    I8(i8),
    I16(i16),
    I32(i32),
    I64(i64),
    U8(u8),
    U16(u16),
    U32(u32),
    U64(u64),
    Single(u32),
    Double(u64),
    Decimal { mantissa: i128, scale: u32 },
    Date { year: i32, month: u32, day: u32 },
    Time { hour: u32, minute: u32, second: u32, nano: u32 },
    DateTime { year: i32, month: u32, day: u32, hour: u32, minute: u32, second: u32, nano: u32 },
    Timestamp {
        year: i32,
        month: u32,
        day: u32,
        hour: u32,
        minute: u32,
        second: u32,
        nano: u32,
    },
    Uuid(u128),
    Bytes(Vec<u8>),
    Text(String),
}

/// Mathematical model of a [`Native`] value.
pub enum NativeView {
    Bool(bool),
    I8(i8),
    I16(i16),
    I32(i32),
    I64(i64),
    U8(u8),
    U16(u16),
    U32(u32),
    U64(u64),
    Single(u32),
    Double(u64),
    Decimal { mantissa: i128, scale: u32 },
    Date { year: i32, month: u32, day: u32 },
    Time { hour: u32, minute: u32, second: u32, nano: u32 },
    DateTime { year: i32, month: u32, day: u32, hour: u32, minute: u32, second: u32, nano: u32 },
    Timestamp {
        year: i32,
        month: u32,
        day: u32,
        hour: u32,
        minute: u32,
        second: u32,
        nano: u32,
    },
    Uuid(u128),
    Bytes(Seq<u8>),
    Text(Seq<char>),
}

/// What came of asking the engine to decode a cell in one representation.
#[derive(Debug, PartialEq, Eq)]
pub enum Attempt {
    /// The engine decoded the cell.
    Got(Native),
    /// The engine could not decode the cell as `target`, and said why.
    Failed { target: Target, words: String },
}

/// Mathematical model of an [`Attempt`].
pub enum AttemptView {
    Got(NativeView),
    Failed { target: Target, words: Seq<char> },
}

/// One column of one row: the native type that the engine declares for it,
/// whether it is null, and what the engine made of it in each representation
/// it was asked for.
#[derive(Debug, PartialEq, Eq)]
pub struct Cell {
    pub native_type: String,
    pub null: bool,
    pub attempts: Vec<Attempt>,
}

/// Mathematical model of a [`Cell`].
pub struct CellView {
    pub native_type: Seq<char>,
    pub null: bool,
    pub attempts: Seq<AttemptView>,
}

impl View for Native {
    type V = NativeView;

    open spec fn view(&self) -> NativeView {
        match self {
            Native::Bool(flag) => NativeView::Bool(*flag),
            Native::I8(number) => NativeView::I8(*number),
            Native::I16(number) => NativeView::I16(*number),
            Native::I32(number) => NativeView::I32(*number),
            Native::I64(number) => NativeView::I64(*number),
            Native::U8(number) => NativeView::U8(*number),
            Native::U16(number) => NativeView::U16(*number),
            Native::U32(number) => NativeView::U32(*number),
            Native::U64(number) => NativeView::U64(*number),
            Native::Single(bits) => NativeView::Single(*bits),
            Native::Double(bits) => NativeView::Double(*bits),
            Native::Decimal { mantissa, scale } => NativeView::Decimal {
                mantissa: *mantissa,
                scale: *scale,
            },
            Native::Date { year, month, day } => NativeView::Date {
                year: *year,
                month: *month,
                day: *day,
            },
            Native::Time { hour, minute, second, nano } => NativeView::Time {
                hour: *hour,
                minute: *minute,
                second: *second,
                nano: *nano,
            },
            Native::DateTime { year, month, day, hour, minute, second, nano } => {
                NativeView::DateTime {
                    year: *year,
                    month: *month,
                    day: *day,
                    hour: *hour,
                    minute: *minute,
                    second: *second,
                    nano: *nano,
                }
            },
            Native::Timestamp { year, month, day, hour, minute, second, nano } => {
                NativeView::Timestamp {
                    year: *year,
                    month: *month,
                    day: *day,
                    hour: *hour,
                    minute: *minute,
                    second: *second,
                    nano: *nano,
                }
            },
            Native::Uuid(bits) => NativeView::Uuid(*bits),
            Native::Bytes(bytes) => NativeView::Bytes(bytes@),
            Native::Text(text) => NativeView::Text(text@),
        }
    }
}

impl View for Attempt {
    type V = AttemptView;

    open spec fn view(&self) -> AttemptView {
        match self {
            Attempt::Got(native) => AttemptView::Got(native@),
            Attempt::Failed { target, words } => AttemptView::Failed {
                target: *target,
                words: words@,
            },
        }
    }
}

/// The models of the attempts in a sequence.
pub open spec fn attempts_view(attempts: Seq<Attempt>) -> Seq<AttemptView> {
    Seq::new(attempts.len(), |i: int| attempts[i]@)
}

impl View for Cell {
    type V = CellView;

    open spec fn view(&self) -> CellView {
        CellView {
            native_type: self.native_type@,
            null: self.null,
            attempts: attempts_view(self.attempts@),
        }
    }
}

impl NativeView {
    /// The representation that this value is in.
    pub open spec fn target(self) -> Target {
        match self {
            NativeView::Bool(_) => Target::Bool,
            NativeView::I8(_) => Target::I8,
            NativeView::I16(_) => Target::I16,
            NativeView::I32(_) => Target::I32,
            NativeView::I64(_) => Target::I64,
            NativeView::U8(_) => Target::U8,
            NativeView::U16(_) => Target::U16,
            NativeView::U32(_) => Target::U32,
            NativeView::U64(_) => Target::U64,
            NativeView::Single(_) => Target::Single,
            NativeView::Double(_) => Target::Double,
            NativeView::Decimal { .. } => Target::Decimal,
            NativeView::Date { .. } => Target::Date,
            NativeView::Time { .. } => Target::Time,
            NativeView::DateTime { .. } => Target::DateTime,
            NativeView::Timestamp { .. } => Target::Timestamp,
            NativeView::Uuid(_) => Target::Uuid,
            NativeView::Bytes(_) => Target::Bytes,
            NativeView::Text(_) => Target::Text,
        }
    }
}

impl AttemptView {
    /// The representation that the engine was asked for.
    pub open spec fn target(self) -> Target {
        match self {
            AttemptView::Got(native) => native.target(),
            AttemptView::Failed { target, .. } => target,
        }
    }
}

/// The first of the attempts that asked for `target`.
pub open spec fn attempt_for(attempts: Seq<AttemptView>, target: Target) -> Option<AttemptView>
    decreases attempts.len(),
{
    if attempts.len() == 0 {
        None
    } else if attempts[0].target() == target {
        Some(attempts[0])
    } else {
        attempt_for(attempts.drop_first(), target)
    }
}

/// What the engine made of the cell in the representation `target`: the first
/// attempt that asked for it decides, and where there is none, that is a
/// failure too.
pub open spec fn engine_value(cell: CellView, target: Target) -> Result<
    NativeView,
    DecodeErrorView,
> {
    match attempt_for(cell.attempts, target) {
        Some(AttemptView::Got(native)) => Ok(native),
        Some(AttemptView::Failed { words, .. }) => Err(
            DecodeErrorView::ValueFailure { target, detail: words },
        ),
        None => Err(DecodeErrorView::ValueFailure { target, detail: "not attempted"@ }),
    }
}

/// What the engine made of the cell in the first of the representations `plan`
/// in which it could decode it; the failure of the last where it could in none.
pub open spec fn first_decoded(cell: CellView, plan: Seq<Target>) -> Result<
    NativeView,
    DecodeErrorView,
>
    decreases plan.len(),
{
    if plan.len() == 0 {
        Err(DecodeErrorView::ValueFailure { target: Target::Text, detail: "not attempted"@ })
    } else if plan.len() == 1 || engine_value(cell, plan[0]) is Ok {
        engine_value(cell, plan[0])
    } else {
        first_decoded(cell, plan.drop_first())
    }
}

/// The number of decimal digits of `n`; none for zero.
pub open spec fn digits(n: nat) -> nat
    decreases n,
{
    if n == 0 {
        0
    } else {
        1 + digits(n / 10)
    }
}

/// `n` without the zeros at its end.
pub open spec fn without_trailing_zeros(n: nat) -> nat
    decreases n,
{
    if n != 0 && n % 10 == 0 {
        without_trailing_zeros(n / 10)
    } else {
        n
    }
}

/// The number of significant decimal digits of a mantissa: the digits of its
/// magnitude from the first to the last that is not zero.
pub open spec fn significant_digits(mantissa: int) -> nat {
    digits(without_trailing_zeros(vstd::math::abs(mantissa) as nat))
}

/// The number of significant decimal digits that a double holds.
pub const DOUBLE_DIGITS: u32 = 15;

/// The value of a decimal, given how it prints and the double that the
/// conversion reported for it: a decimal of more significant digits than a
/// double holds is a loss of precision, and so is one for which the conversion
/// reported no double.
pub open spec fn decimal_value(
    mantissa: i128,
    scale: u32,
    printed: Seq<char>,
    double: Option<u64>,
) -> Result<DecodedView, DecodeErrorView> {
    if significant_digits(mantissa as int) > DOUBLE_DIGITS {
        Err(DecodeErrorView::PrecisionLoss { mantissa, scale, printed })
    } else {
        match double {
            Some(bits) => Ok(DecodedView::Double(bits)),
            None => Err(DecodeErrorView::PrecisionLoss { mantissa, scale, printed }),
        }
    }
}

/// The value of a date or time, given its rendering: the text, or a failure
/// where there is no such date or time.
pub open spec fn temporal_value(target: Target, text: Option<Seq<char>>) -> Result<
    DecodedView,
    DecodeErrorView,
> {
    match text {
        Some(text) => Ok(DecodedView::Text(text)),
        None => Err(DecodeErrorView::ValueFailure { target, detail: "out of range"@ }),
    }
}

/// The value of a payload, given the outcome of parsing it.
pub open spec fn payload_value(parsed: Result<JsonView, Seq<char>>) -> Result<
    JsonView,
    DecodeErrorView,
> {
    match parsed {
        Ok(document) => Ok(document),
        Err(words) => Err(DecodeErrorView::PayloadParse { words }),
    }
}

/// The value that a cell in a native representation decodes to.
pub open spec fn native_value(native: NativeView) -> Result<DecodedView, DecodeErrorView> {
    match native {
        NativeView::Bool(flag) => Ok(DecodedView::Bool(flag)),
        NativeView::I8(number) => Ok(DecodedView::I8(number)),
        NativeView::I16(number) => Ok(DecodedView::I16(number)),
        NativeView::I32(number) => Ok(DecodedView::I32(number)),
        NativeView::I64(number) => Ok(DecodedView::I64(number)),
        NativeView::U8(number) => Ok(DecodedView::U8(number)),
        NativeView::U16(number) => Ok(DecodedView::U16(number)),
        NativeView::U32(number) => Ok(DecodedView::U32(number)),
        NativeView::U64(number) => Ok(DecodedView::U64(number)),
        NativeView::Single(bits) => Ok(DecodedView::Single(bits)),
        NativeView::Double(bits) => Ok(DecodedView::Double(bits)),
        NativeView::Decimal { mantissa, scale } => decimal_value(
            mantissa,
            scale,
            decimal_text(mantissa, scale),
            decimal_double(mantissa, scale),
        ),
        NativeView::Date { year, month, day } => temporal_value(
            Target::Date,
            date_text(year, month, day),
        ),
        NativeView::Time { hour, minute, second, nano } => temporal_value(
            Target::Time,
            time_text(hour, minute, second, nano),
        ),
        NativeView::DateTime { year, month, day, hour, minute, second, nano } => temporal_value(
            Target::DateTime,
            date_time_text(year, month, day, hour, minute, second, nano),
        ),
        NativeView::Timestamp { year, month, day, hour, minute, second, nano } => temporal_value(
            Target::Timestamp,
            timestamp_text(year, month, day, hour, minute, second, nano),
        ),
        NativeView::Uuid(bits) => Ok(DecodedView::Text(uuid_text(bits))),
        NativeView::Bytes(bytes) => Ok(DecodedView::Bytes(bytes)),
        NativeView::Text(text) => Ok(DecodedView::Text(text)),
    }
}

/// The document that the payload of a self-describing cell parses to: the
/// engine gives the text, `serde_json` the document.
pub open spec fn payload_of(cell: CellView) -> Result<JsonView, DecodeErrorView> {
    match engine_value(cell, Target::Text) {
        Ok(NativeView::Text(text)) => payload_value(json_document(text)),
        Ok(_) => Err(
            DecodeErrorView::ValueFailure { target: Target::Text, detail: "not attempted"@ },
        ),
        Err(error) => Err(error),
    }
}

/// The text of the payload of a cell, where the engine gives one.
pub open spec fn payload_text(cell: CellView) -> Seq<char> {
    match engine_value(cell, Target::Text) {
        Ok(NativeView::Text(text)) => text,
        _ => Seq::empty(),
    }
}

/// The value of a cell.
///
/// A null cell is the null marker, whatever its type. Any other cell is asked
/// of the engine in the representations of its type's family, and the first in
/// which the engine decoded it is turned into a value. A self-describing cell is
/// parsed and decoded from its document. A cell of unknown type is taken as a
/// string, and fails naming the type in upper case where the engine gives
/// none.
pub open spec fn cell_value(cell: CellView) -> Result<DecodedView, DecodeErrorView> {
    if cell.null {
        Ok(DecodedView::Null)
    } else {
        match family_of(cell.native_type) {
            TypeFamily::Json => match payload_of(cell) {
                Ok(document) => Ok(decoded_of(document)),
                Err(error) => Err(error),
            },
            TypeFamily::Unknown => match engine_value(cell, Target::Text) {
                Ok(native) => native_value(native),
                Err(error) => Err(
                    DecodeErrorView::UnknownType {
                        native_type: upper(cell.native_type),
                        reason: error.message(),
                    },
                ),
            },
            TypeFamily::Time => match engine_value(cell, Target::Time) {
                Ok(native) => native_value(native),
                Err(_) => Err(DecodeErrorView::TimeFailure),
            },
            _ => match first_decoded(cell, targets_of(cell.native_type)) {
                Ok(native) => native_value(native),
                Err(error) => Err(error),
            },
        }
    }
}

/// The items of the array that a cell holds: some where the cell is not null,
/// its type is self-describing and its payload parses to an array.
pub open spec fn array_of(cell: CellView) -> Option<Seq<JsonView>> {
    if !cell.null && family_of(cell.native_type) == TypeFamily::Json {
        match payload_of(cell) {
            Ok(JsonView::Array(items)) => Some(items),
            _ => None,
        }
    } else {
        None
    }
}

/// A null cell decodes to the null marker, whatever its native type and
/// whatever the engine made of it.
pub proof fn lemma_null_cell(cell: CellView)
    requires
        cell.null,
    ensures
        cell_value(cell) == Ok::<DecodedView, DecodeErrorView>(DecodedView::Null),
{
}

/// A cell whose native type is in no row of the table is the string that the
/// engine gives for it.
pub proof fn lemma_unknown_type_is_a_string(cell: CellView, text: Seq<char>)
    requires
        !cell.null,
        family_of(cell.native_type) == TypeFamily::Unknown,
        engine_value(cell, Target::Text) == Ok::<NativeView, DecodeErrorView>(
            NativeView::Text(text),
        ),
    ensures
        cell_value(cell) == Ok::<DecodedView, DecodeErrorView>(DecodedView::Text(text)),
{
}

/// A cell of type `INT UNSIGNED` that the engine decodes as an unsigned 32-bit
/// number is that number, whatever the engine makes of it as a signed one.
pub proof fn lemma_int_unsigned_is_unsigned(cell: CellView, number: u32)
    requires
        !cell.null,
        cell.native_type == "INT UNSIGNED"@,
        engine_value(cell, Target::U32) == Ok::<NativeView, DecodeErrorView>(
            NativeView::U32(number),
        ),
    ensures
        cell_value(cell) == Ok::<DecodedView, DecodeErrorView>(DecodedView::U32(number)),
{
    crate::native_type::lemma_int_unsigned();
}

/// A decimal cell of more significant digits than a double holds fails with a
/// loss of precision, whatever double the conversion reports for it.
pub proof fn lemma_long_decimal_fails(cell: CellView, mantissa: i128, scale: u32)
    requires
        !cell.null,
        family_of(cell.native_type) == TypeFamily::Decimal,
        engine_value(cell, Target::Decimal) == Ok::<NativeView, DecodeErrorView>(
            NativeView::Decimal { mantissa, scale },
        ),
        significant_digits(mantissa as int) > DOUBLE_DIGITS,
    ensures
        cell_value(cell) == Err::<DecodedView, DecodeErrorView>(
            DecodeErrorView::PrecisionLoss {
                mantissa,
                scale,
                printed: decimal_text(mantissa, scale),
            },
        ),
{
    assert(targets_of(cell.native_type) =~= seq![Target::Decimal]);
}

/// The representation that a native value is in.
pub fn native_target(native: &Native) -> (target: Target)
    ensures
        target == native@.target(),
{
    match native {
        Native::Bool(_) => Target::Bool,
        Native::I8(_) => Target::I8,
        Native::I16(_) => Target::I16,
        Native::I32(_) => Target::I32,
        Native::I64(_) => Target::I64,
        Native::U8(_) => Target::U8,
        Native::U16(_) => Target::U16,
        Native::U32(_) => Target::U32,
        Native::U64(_) => Target::U64,
        Native::Single(_) => Target::Single,
        Native::Double(_) => Target::Double,
        Native::Decimal { .. } => Target::Decimal,
        Native::Date { .. } => Target::Date,
        Native::Time { .. } => Target::Time,
        Native::DateTime { .. } => Target::DateTime,
        Native::Timestamp { .. } => Target::Timestamp,
        Native::Uuid(_) => Target::Uuid,
        Native::Bytes(_) => Target::Bytes,
        Native::Text(_) => Target::Text,
    }
}

/// The representation that an attempt asked for.
pub fn attempt_target(attempt: &Attempt) -> (target: Target)
    ensures
        target == attempt@.target(),
{
    match attempt {
        Attempt::Got(native) => native_target(native),
        Attempt::Failed { target, .. } => *target,
    }
}

/// The first of the cell's attempts that asked for `target`.
pub fn find_attempt<'a>(cell: &'a Cell, target: Target) -> (found: Option<&'a Attempt>)
    ensures
        match found {
            Some(attempt) => attempt_for(cell@.attempts, target) == Some(attempt@),
            None => attempt_for(cell@.attempts, target) is None,
        },
{
    let ghost all = cell@.attempts;
    let mut i: usize = 0;
    assert(all.skip(0) == all);
    while i < cell.attempts.len()
        invariant
            i <= cell.attempts.len(),
            all == attempts_view(cell.attempts@),
            attempt_for(all, target) == attempt_for(all.skip(i as int), target),
        decreases cell.attempts.len() - i,
    {
        if attempt_target(&cell.attempts[i]) == target {
            return Some(&cell.attempts[i]);
        }
        assert(all.skip(i as int).drop_first() == all.skip(i + 1));
        i += 1;
    }
    None
}

/// What the engine made of the cell in the representation `target`.
///
/// The first attempt that asked for `target` decides. Where the engine failed,
/// the failure carries its words; where it was never asked, the failure says so.
pub fn decode_raw_mysql<'a>(cell: &'a Cell, target: Target) -> (decoded: Result<
    &'a Native,
    DecodeError,
>)
    ensures
        match decoded {
            Ok(native) => engine_value(cell@, target) == Ok::<NativeView, DecodeErrorView>(
                native@,
            ),
            Err(error) => engine_value(cell@, target) == Err::<NativeView, DecodeErrorView>(
                error@,
            ),
        },
{
    match find_attempt(cell, target) {
        Some(Attempt::Got(native)) => Ok(native),
        Some(Attempt::Failed { words, .. }) => Err(
            DecodeError::ValueFailure { target, detail: words.clone() },
        ),
        None => Err(DecodeError::ValueFailure { target, detail: String::from_str("not attempted") }),
    }
}

/// What the engine made of the cell in the first of the representations `plan`
/// in which it could decode it; the failure of the last where it could in none.
pub fn decode_first<'a>(cell: &'a Cell, plan: &Vec<Target>) -> (decoded: Result<
    &'a Native,
    DecodeError,
>)
    ensures
        match decoded {
            Ok(native) => first_decoded(cell@, plan@) == Ok::<NativeView, DecodeErrorView>(
                native@,
            ),
            Err(error) => first_decoded(cell@, plan@) == Err::<NativeView, DecodeErrorView>(
                error@,
            ),
        },
{
    if plan.len() == 0 {
        return Err(
            DecodeError::ValueFailure {
                target: Target::Text,
                detail: String::from_str("not attempted"),
            },
        );
    }
    let mut i: usize = 0;
    assert(plan@.skip(0) == plan@);
    while i + 1 < plan.len()
        invariant
            i < plan.len(),
            first_decoded(cell@, plan@) == first_decoded(cell@, plan@.skip(i as int)),
        decreases plan.len() - i,
    {
        let decoded = decode_raw_mysql(cell, plan[i]);
        if decoded.is_ok() {
            return decoded;
        }
        assert(plan@.skip(i as int).drop_first() == plan@.skip(i + 1));
        i += 1;
    }
    decode_raw_mysql(cell, plan[i])
}

/// Ten to the power `k`.
pub open spec fn pow10(k: nat) -> nat
    decreases k,
{
    if k == 0 {
        1
    } else {
        10 * pow10((k - 1) as nat)
    }
}

/// A number below ten to the power `k` has at most `k` digits.
pub proof fn lemma_digits_bound(n: nat, k: nat)
    requires
        n < pow10(k),
    ensures
        digits(n) <= k,
    decreases k,
{
    if n != 0 {
        lemma_digits_bound(n / 10, (k - 1) as nat);
    }
}

/// A number of 128 bits has at most 39 digits.
pub proof fn lemma_digits_of_u128(n: u128)
    ensures
        digits(n as nat) <= 39,
{
    assert(pow10(39) == 1_000_000_000_000_000_000_000_000_000_000_000_000_000) by {
        reveal_with_fuel(pow10, 40);
    }
    lemma_digits_bound(n as nat, 39);
}

/// The magnitude of a mantissa.
pub fn magnitude(mantissa: i128) -> (m: u128)
    ensures
        m == vstd::math::abs(mantissa as int),
{
    if mantissa >= 0 {
        mantissa as u128
    } else if mantissa == i128::MIN {
        0x8000_0000_0000_0000_0000_0000_0000_0000u128
    } else {
        (-mantissa) as u128
    }
}

/// The number of significant decimal digits of a mantissa.
pub fn count_significant_digits(mantissa: i128) -> (count: u32)
    ensures
        count == significant_digits(mantissa as int),
{
    let mut rest: u128 = magnitude(mantissa);
    while rest != 0 && rest % 10 == 0
        invariant
            without_trailing_zeros(rest as nat) == without_trailing_zeros(
                vstd::math::abs(mantissa as int) as nat,
            ),
        decreases rest,
    {
        rest = rest / 10;
    }
    let ghost stripped = rest;
    let mut count: u32 = 0;
    proof {
        lemma_digits_of_u128(stripped);
    }
    while rest != 0
        invariant
            count + digits(rest as nat) == digits(stripped as nat),
            digits(stripped as nat) <= 39,
        decreases rest,
    {
        rest = rest / 10;
        count += 1;
    }
    count
}

/// The value of a decimal, given how it prints and the double that the
/// conversion reported.
///
/// A decimal of more than fifteen significant digits fails with a loss of
/// precision, whatever was reported; so does one for which nothing was. The
/// failure shows the decimal as it prints.
pub fn decimal_outcome(mantissa: i128, scale: u32, printed: String, double: Option<u64>) -> (outcome:
    Result<Decoded, DecodeError>)
    ensures
        outcome_view(outcome) == decimal_value(mantissa, scale, printed@, double),
{
    if count_significant_digits(mantissa) > DOUBLE_DIGITS {
        Err(DecodeError::PrecisionLoss { mantissa, scale, printed })
    } else {
        match double {
            Some(bits) => Ok(Decoded::Double(bits)),
            None => Err(DecodeError::PrecisionLoss { mantissa, scale, printed }),
        }
    }
}

/// The value of a date or time, given its rendering.
pub fn temporal_outcome(target: Target, text: Option<String>) -> (outcome: Result<
    Decoded,
    DecodeError,
>)
    ensures
        outcome_view(outcome) == temporal_value(target, text_view(text)),
{
    match text {
        Some(text) => Ok(Decoded::Text(text)),
        None => Err(DecodeError::ValueFailure { target, detail: String::from_str("out of range") }),
    }
}

/// The document of a payload, given the outcome of parsing it.
pub fn payload_outcome(parsed: Result<Json, String>) -> (outcome: Result<Json, DecodeError>)
    ensures
        match outcome {
            Ok(document) => payload_value(parsed_view(parsed)) == Ok::<JsonView, DecodeErrorView>(
                document@,
            ),
            Err(error) => payload_value(parsed_view(parsed)) == Err::<JsonView, DecodeErrorView>(
                error@,
            ),
        },
{
    match parsed {
        Ok(document) => Ok(document),
        Err(words) => Err(DecodeError::PayloadParse { words }),
    }
}

/// A copy of the bytes.
pub fn copy_bytes(bytes: &Vec<u8>) -> (copy: Vec<u8>)
    ensures
        copy@ == bytes@,
{
    let mut copy: Vec<u8> = Vec::new();
    let mut i: usize = 0;
    while i < bytes.len()
        invariant
            i <= bytes.len(),
            copy@ == bytes@.take(i as int),
        decreases bytes.len() - i,
    {
        copy.push(bytes[i]);
        i += 1;
    }
    assert(bytes@.take(bytes.len() as int) == bytes@);
    copy
}

/// Turns a cell in a native representation into a value.
///
/// Integers, booleans, floating-point numbers, bytes and strings are taken as
/// they are. A decimal becomes a double, or fails with a loss of precision. A
/// date becomes its ISO 8601 text, a time of day likewise, a date with a time
/// the two with a space between, a timestamp its RFC 3339 text in UTC, and a
/// UUID its hyphenated text; a date or time that does not exist fails.
pub fn decode_native(native: &Native) -> (outcome: Result<Decoded, DecodeError>)
    ensures
        outcome_view(outcome) == native_value(native@),
{
    match native {
        Native::Bool(flag) => Ok(Decoded::Bool(*flag)),
        Native::I8(number) => Ok(Decoded::I8(*number)),
        Native::I16(number) => Ok(Decoded::I16(*number)),
        Native::I32(number) => Ok(Decoded::I32(*number)),
        Native::I64(number) => Ok(Decoded::I64(*number)),
        Native::U8(number) => Ok(Decoded::U8(*number)),
        Native::U16(number) => Ok(Decoded::U16(*number)),
        Native::U32(number) => Ok(Decoded::U32(*number)),
        Native::U64(number) => Ok(Decoded::U64(*number)),
        Native::Single(bits) => Ok(Decoded::Single(*bits)),
        Native::Double(bits) => Ok(Decoded::Double(*bits)),
        Native::Decimal { mantissa, scale } => decimal_outcome(
            *mantissa,
            *scale,
            print_decimal(*mantissa, *scale),
            decimal_to_double(*mantissa, *scale),
        ),
        Native::Date { year, month, day } => temporal_outcome(
            Target::Date,
            render_date(*year, *month, *day),
        ),
        Native::Time { hour, minute, second, nano } => temporal_outcome(
            Target::Time,
            render_time(*hour, *minute, *second, *nano),
        ),
        Native::DateTime { year, month, day, hour, minute, second, nano } => temporal_outcome(
            Target::DateTime,
            render_date_time(*year, *month, *day, *hour, *minute, *second, *nano),
        ),
        Native::Timestamp { year, month, day, hour, minute, second, nano } => temporal_outcome(
            Target::Timestamp,
            render_timestamp(*year, *month, *day, *hour, *minute, *second, *nano),
        ),
        Native::Uuid(bits) => Ok(Decoded::Text(render_uuid(*bits))),
        Native::Bytes(bytes) => Ok(Decoded::Bytes(copy_bytes(bytes))),
        Native::Text(text) => Ok(Decoded::Text(text.clone())),
    }
}

impl crate::json::MySqlJson {
    /// Parses the payload of a cell: the engine gives its text, `serde_json`
    /// the document. A text that is no document is a failure to parse.
    pub fn decode(cell: &Cell) -> (payload: Result<crate::json::MySqlJson, DecodeError>)
        ensures
            match payload {
                Ok(json) => payload_of(cell@) == Ok::<JsonView, DecodeErrorView>(json.0@),
                Err(error) => payload_of(cell@) == Err::<JsonView, DecodeErrorView>(error@),
            },
    {
        match decode_raw_mysql(cell, Target::Text) {
            Ok(Native::Text(text)) => {
                match payload_outcome(parse_text(text.as_str())) {
                    Ok(document) => Ok(crate::json::MySqlJson(document)),
                    Err(error) => Err(error),
                }
            },
            Ok(_) => Err(
                DecodeError::ValueFailure {
                    target: Target::Text,
                    detail: String::from_str("not attempted"),
                },
            ),
            Err(error) => Err(error),
        }
    }
}

/// The value decoder: a decoding source over one cell.
pub struct MySqlValueDeserializer<'a> {
    pub value: &'a Cell,
}

impl<'a> MySqlValueDeserializer<'a> {
    /// Decodes the cell as an optional value: nothing for a null cell, the
    /// value of the cell for any other.
    pub fn deserialize_option(&self) -> (outcome: Result<Option<Decoded>, DecodeError>)
        ensures
            self.value@.null ==> outcome is Ok && outcome->Ok_0 is None,
            !self.value@.null ==> match outcome {
                Ok(value) => value is Some && cell_value(self.value@) == Ok::<
                    DecodedView,
                    DecodeErrorView,
                >(value->0@),
                Err(error) => cell_value(self.value@) == Err::<DecodedView, DecodeErrorView>(
                    error@,
                ),
            },
    {
        if self.value.null {
            Ok(None)
        } else {
            match self.deserialize_any() {
                Ok(value) => Ok(Some(value)),
                Err(error) => Err(error),
            }
        }
    }

    /// Decodes the cell as its native type asks.
    ///
    /// A null cell gives the null marker, whatever its type. Any other cell is
    /// decoded by the family of its type: numbers, booleans, bytes and strings
    /// as themselves, an 8-bit integer as a boolean where the engine gives one,
    /// a decimal as a double, dates and times as text, binary as the text of a
    /// UUID where the engine gives one, a self-describing payload as the value
    /// of its document. A cell of unknown type is taken as a string, and
    /// fails naming the type where the engine gives none.
    pub fn deserialize_any(&self) -> (outcome: Result<Decoded, DecodeError>)
        ensures
            outcome_view(outcome) == cell_value(self.value@),
    {
        let cell = self.value;
        if cell.null {
            return Ok(Decoded::Null);
        }
        match classify(cell.native_type.as_str()) {
            TypeFamily::Json => {
                match crate::json::MySqlJson::decode(cell) {
                    Ok(payload) => Ok(payload.into_deserializer().deserialize_any()),
                    Err(error) => Err(error),
                }
            },
            TypeFamily::Unknown => {
                match decode_raw_mysql(cell, Target::Text) {
                    Ok(native) => decode_native(native),
                    Err(error) => Err(
                        DecodeError::UnknownType {
                            native_type: upper_text(cell.native_type.as_str()),
                            reason: error.message(),
                        },
                    ),
                }
            },
            TypeFamily::Time => {
                match decode_raw_mysql(cell, Target::Time) {
                    Ok(native) => decode_native(native),
                    Err(_) => Err(DecodeError::TimeFailure),
                }
            },
            _ => {
                let plan = targets(cell.native_type.as_str());
                match decode_first(cell, &plan) {
                    Ok(native) => decode_native(native),
                    Err(error) => Err(error),
                }
            },
        }
    }
}

} // verus!

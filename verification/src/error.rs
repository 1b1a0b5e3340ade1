//! The ways in which decoding a cell or a row fails.

use vstd::prelude::*;
use vstd::string::StringExecFns;
use crate::native_type::Target;

verus! {

/// The kinds of decoding failure.
#[derive(Clone, Copy, Debug, PartialEq, Eq, Structural)]
pub enum ErrorKind {
    /// The native type is unknown, or what was decoded has not the shape asked for.
    TypeMismatch,
    /// The engine could not decode the cell into its native representation.
    ValueFailure,
    /// A decimal cannot be held by a double.
    PrecisionLoss,
    /// The text of a self-describing column is no structured document.
    PayloadParse,
    /// A closed set of fields cannot be filled from the payload.
    FieldSetMismatch,
}

/// The shapes a decoded value can have.
#[derive(Clone, Copy, Debug, PartialEq, Eq, Structural)]
pub enum Shape {
    Scalar,
    Sequence,
    Mapping,
}

/// A failure to decode one cell or one row.
#[derive(Debug, PartialEq, Eq)]
pub enum DecodeError {
    /// The native type is not in the table, and the engine gave no string for
    /// the cell either. The type is named in upper case; the reason is the
    /// description of the engine's failure.
    UnknownType { native_type: String, reason: String },
    /// What was decoded has another shape than the one asked for.
    ShapeMismatch { wanted: Shape, found: Shape },
    /// A self-describing cell of this native type holds no array but the
    /// document that prints so.
    NotAnArray { native_type: String, printed: String },
    /// The engine could not decode the cell as `target`.
    ValueFailure { target: Target, detail: String },
    /// The engine could not decode a cell of a time of day.
    TimeFailure,
    /// The decimal `mantissa / 10^scale`, which prints as `printed`, cannot be
    /// held by a double.
    PrecisionLoss { mantissa: i128, scale: u32, printed: String },
    /// The payload of a self-describing column could not be parsed.
    PayloadParse { words: String },
    /// The payload that a record was asked of could not be had: a failure of
    /// `kind`, described by `reason`.
    RecordPayload { kind: ErrorKind, reason: String },
    /// The payload lacks `missing`, the first of the expected fields that is
    /// not among its keys.
    FieldSetMismatch { expected: Vec<String>, present: Vec<String>, missing: String },
}

/// Mathematical model of a [`DecodeError`].
pub enum DecodeErrorView {
    UnknownType { native_type: Seq<char>, reason: Seq<char> },
    ShapeMismatch { wanted: Shape, found: Shape },
    NotAnArray { native_type: Seq<char>, printed: Seq<char> },
    ValueFailure { target: Target, detail: Seq<char> },
    TimeFailure,
    PrecisionLoss { mantissa: i128, scale: u32, printed: Seq<char> },
    PayloadParse { words: Seq<char> },
    RecordPayload { kind: ErrorKind, reason: Seq<char> },
    FieldSetMismatch { expected: Seq<Seq<char>>, present: Seq<Seq<char>>, missing: Seq<char> },
}

/// The character sequences of a sequence of strings.
pub open spec fn names_view(names: Seq<String>) -> Seq<Seq<char>> {
    Seq::new(names.len(), |i: int| names[i]@)
}

/// How a list of names prints for debugging: what `format!("{:?}", ..)` makes
/// of a vector of strings.
pub uninterp spec fn names_debug(names: Seq<Seq<char>>) -> Seq<char>;

/// Prints a list of names with `format!("{:?}", ..)`, the `Debug` of a vector
/// of strings. The contract names the text: the same names always print alike.
#[verifier::external_body]
pub(crate) fn print_names(names: &Vec<String>) -> (text: String)
    ensures
        text@ == names_debug(names_view(names@)),
{
    format!("{:?}", names)
}

impl View for DecodeError {
    type V = DecodeErrorView;

    open spec fn view(&self) -> DecodeErrorView {
        match self {
            DecodeError::UnknownType { native_type, reason } => DecodeErrorView::UnknownType {
                native_type: native_type@,
                reason: reason@,
            },
            DecodeError::ShapeMismatch { wanted, found } => DecodeErrorView::ShapeMismatch {
                wanted: *wanted,
                found: *found,
            },
            DecodeError::NotAnArray { native_type, printed } => DecodeErrorView::NotAnArray {
                native_type: native_type@,
                printed: printed@,
            },
            DecodeError::ValueFailure { target, detail } => DecodeErrorView::ValueFailure {
                target: *target,
                detail: detail@,
            },
            DecodeError::TimeFailure => DecodeErrorView::TimeFailure,
            DecodeError::PrecisionLoss { mantissa, scale, printed } => {
                DecodeErrorView::PrecisionLoss {
                    mantissa: *mantissa,
                    scale: *scale,
                    printed: printed@,
                }
            },
            DecodeError::PayloadParse { words } => DecodeErrorView::PayloadParse { words: words@ },
            DecodeError::RecordPayload { kind, reason } => DecodeErrorView::RecordPayload {
                kind: *kind,
                reason: reason@,
            },
            DecodeError::FieldSetMismatch { expected, present, missing } => {
                DecodeErrorView::FieldSetMismatch {
                    expected: names_view(expected@),
                    present: names_view(present@),
                    missing: missing@,
                }
            },
        }
    }
}

impl DecodeErrorView {
    /// The kind of this failure.
    pub open spec fn kind(self) -> ErrorKind {
        match self {
            DecodeErrorView::UnknownType { .. } => ErrorKind::TypeMismatch,
            DecodeErrorView::ShapeMismatch { .. } => ErrorKind::TypeMismatch,
            DecodeErrorView::NotAnArray { .. } => ErrorKind::TypeMismatch,
            DecodeErrorView::ValueFailure { .. } => ErrorKind::ValueFailure,
            DecodeErrorView::TimeFailure => ErrorKind::ValueFailure,
            DecodeErrorView::PrecisionLoss { .. } => ErrorKind::PrecisionLoss,
            DecodeErrorView::PayloadParse { .. } => ErrorKind::PayloadParse,
            DecodeErrorView::RecordPayload { kind, .. } => kind,
            DecodeErrorView::FieldSetMismatch { .. } => ErrorKind::FieldSetMismatch,
        }
    }

    /// The native type that the failure names, where it names one.
    pub open spec fn native_type(self) -> Option<Seq<char>> {
        match self {
            DecodeErrorView::UnknownType { native_type, .. } => Some(native_type),
            DecodeErrorView::NotAnArray { native_type, .. } => Some(native_type),
            _ => None,
        }
    }

    /// The description of this failure.
    pub open spec fn message(self) -> Seq<char> {
        match self {
            DecodeErrorView::UnknownType { native_type, reason } =>
                "Failed to decode unknown type '"@ + native_type + "' as String: "@ + reason,
            DecodeErrorView::ShapeMismatch { wanted, found } => "expected "@ + shape_name(wanted)
                + ", found "@ + shape_name(found),
            DecodeErrorView::NotAnArray { native_type, printed } =>
                "Expected a JSON array, got type '"@ + native_type + "' (decoded JSON was: "@
                    + printed + ")"@,
            DecodeErrorView::ValueFailure { target, detail } => "Failed to decode "@
                + target_name(target) + " value: "@ + detail,
            DecodeErrorView::TimeFailure => "Failed to decode TIME as NaiveTime"@,
            DecodeErrorView::PrecisionLoss { printed, .. } => "Failed to parse Decimal "@
                + printed + " as f64"@,
            DecodeErrorView::PayloadParse { words } => "Failed to decode "@ + payload_name()
                + " value: "@ + words,
            DecodeErrorView::RecordPayload { reason, .. } => "Failed to decode JSON: "@ + reason,
            DecodeErrorView::FieldSetMismatch { expected, present, .. } =>
                "JSON object missing expected keys: expected "@ + names_debug(expected)
                    + ", found keys "@ + names_debug(present),
        }
    }
}

/// The name of a shape, as descriptions spell it.
pub open spec fn shape_name(shape: Shape) -> Seq<char> {
    match shape {
        Shape::Scalar => "a scalar"@,
        Shape::Sequence => "a sequence"@,
        Shape::Mapping => "a mapping"@,
    }
}

/// The name of the type of a parsed payload, as descriptions spell it.
pub open spec fn payload_name() -> Seq<char> {
    "airy::json::MySqlJson"@
}

/// The name of the type that the engine decodes a representation into, as
/// descriptions spell it.
pub open spec fn target_name(target: Target) -> Seq<char> {
    match target {
        Target::Bool => "bool"@,
        Target::I8 => "i8"@,
        Target::I16 => "i16"@,
        Target::I32 => "i32"@,
        Target::I64 => "i64"@,
        Target::U8 => "u8"@,
        Target::U16 => "u16"@,
        Target::U32 => "u32"@,
        Target::U64 => "u64"@,
        Target::Single => "f32"@,
        Target::Double => "f64"@,
        Target::Decimal => "rust_decimal::decimal::Decimal"@,
        Target::Date => "chrono::naive::date::NaiveDate"@,
        Target::Time => "chrono::naive::time::NaiveTime"@,
        Target::DateTime => "chrono::naive::datetime::NaiveDateTime"@,
        Target::Timestamp => "chrono::datetime::DateTime<chrono::offset::utc::Utc>"@,
        Target::Uuid => "uuid::Uuid"@,
        Target::Bytes => "alloc::vec::Vec<u8>"@,
        Target::Text => "alloc::string::String"@,
    }
}

/// The name of a shape.
pub fn shape_label(shape: Shape) -> (label: &'static str)
    ensures
        label@ == shape_name(shape),
{
    match shape {
        Shape::Scalar => "a scalar",
        Shape::Sequence => "a sequence",
        Shape::Mapping => "a mapping",
    }
}

/// The name of the type that the engine decodes a representation into.
pub fn target_label(target: Target) -> (label: &'static str)
    ensures
        label@ == target_name(target),
{
    match target {
        Target::Bool => "bool",
        Target::I8 => "i8",
        Target::I16 => "i16",
        Target::I32 => "i32",
        Target::I64 => "i64",
        Target::U8 => "u8",
        Target::U16 => "u16",
        Target::U32 => "u32",
        Target::U64 => "u64",
        Target::Single => "f32",
        Target::Double => "f64",
        Target::Decimal => "rust_decimal::decimal::Decimal",
        Target::Date => "chrono::naive::date::NaiveDate",
        Target::Time => "chrono::naive::time::NaiveTime",
        Target::DateTime => "chrono::naive::datetime::NaiveDateTime",
        Target::Timestamp => "chrono::datetime::DateTime<chrono::offset::utc::Utc>",
        Target::Uuid => "uuid::Uuid",
        Target::Bytes => "alloc::vec::Vec<u8>",
        Target::Text => "alloc::string::String",
    }
}

impl DecodeError {
    /// The kind of this failure.
    pub fn kind(&self) -> (kind: ErrorKind)
        ensures
            kind == self@.kind(),
    {
        match self {
            DecodeError::UnknownType { .. } => ErrorKind::TypeMismatch,
            DecodeError::ShapeMismatch { .. } => ErrorKind::TypeMismatch,
            DecodeError::NotAnArray { .. } => ErrorKind::TypeMismatch,
            DecodeError::ValueFailure { .. } => ErrorKind::ValueFailure,
            DecodeError::TimeFailure => ErrorKind::ValueFailure,
            DecodeError::PrecisionLoss { .. } => ErrorKind::PrecisionLoss,
            DecodeError::PayloadParse { .. } => ErrorKind::PayloadParse,
            DecodeError::RecordPayload { kind, .. } => *kind,
            DecodeError::FieldSetMismatch { .. } => ErrorKind::FieldSetMismatch,
        }
    }

    /// A description of this failure for a human reader.
    pub fn message(&self) -> (text: String)
        ensures
            text@ == self@.message(),
    {
        match self {
            DecodeError::UnknownType { native_type, reason } => {
                let mut text = String::from_str("Failed to decode unknown type '");
                text.append(native_type.as_str());
                text.append("' as String: ");
                text.append(reason.as_str());
                text
            },
            DecodeError::ShapeMismatch { wanted, found } => {
                let mut text = String::from_str("expected ");
                text.append(shape_label(*wanted));
                text.append(", found ");
                text.append(shape_label(*found));
                text
            },
            DecodeError::NotAnArray { native_type, printed } => {
                let mut text = String::from_str("Expected a JSON array, got type '");
                text.append(native_type.as_str());
                text.append("' (decoded JSON was: ");
                text.append(printed.as_str());
                text.append(")");
                text
            },
            DecodeError::ValueFailure { target, detail } => {
                let mut text = String::from_str("Failed to decode ");
                text.append(target_label(*target));
                text.append(" value: ");
                text.append(detail.as_str());
                text
            },
            DecodeError::TimeFailure => String::from_str("Failed to decode TIME as NaiveTime"),
            DecodeError::PrecisionLoss { printed, .. } => {
                let mut text = String::from_str("Failed to parse Decimal ");
                text.append(printed.as_str());
                text.append(" as f64");
                text
            },
            DecodeError::PayloadParse { words } => {
                let mut text = String::from_str("Failed to decode ");
                text.append("airy::json::MySqlJson");
                text.append(" value: ");
                text.append(words.as_str());
                text
            },
            DecodeError::RecordPayload { reason, .. } => {
                let mut text = String::from_str("Failed to decode JSON: ");
                text.append(reason.as_str());
                text
            },
            DecodeError::FieldSetMismatch { expected, present, .. } => {
                let mut text = String::from_str("JSON object missing expected keys: expected ");
                let wanted = print_names(expected);
                text.append(wanted.as_str());
                text.append(", found keys ");
                let found = print_names(present);
                text.append(found.as_str());
                text
            },
        }
    }
}

/// Why the program fails a request, with the words of what failed beneath it.
#[derive(Debug, PartialEq, Eq)]
pub enum AppError {
    Internal(String),
    Service(String),
    Request(String),
    Sql(String),
    Io(String),
    Json(String),
    JsonDeserialize(String),
    MissingApiKey,
    MissingDatabaseUrl,
}

/// Mathematical model of an [`AppError`].
pub enum AppErrorView {
    Internal(Seq<char>),
    Service(Seq<char>),
    Request(Seq<char>),
    Sql(Seq<char>),
    Io(Seq<char>),
    Json(Seq<char>),
    JsonDeserialize(Seq<char>),
    MissingApiKey,
    MissingDatabaseUrl,
}

/// The kinds of error that a tool server answers with.
#[derive(Clone, Copy, Debug, PartialEq, Eq, Structural)]
pub enum McpErrorKind {
    InternalError,
    InvalidRequest,
    ParseError,
}

/// An error as a tool server answers it: its kind and its message.
#[derive(Debug, PartialEq, Eq)]
pub struct McpError {
    pub kind: McpErrorKind,
    pub message: String,
}

impl View for AppError {
    type V = AppErrorView;

    open spec fn view(&self) -> AppErrorView {
        match self {
            AppError::Internal(words) => AppErrorView::Internal(words@),
            AppError::Service(words) => AppErrorView::Service(words@),
            AppError::Request(words) => AppErrorView::Request(words@),
            AppError::Sql(words) => AppErrorView::Sql(words@),
            AppError::Io(words) => AppErrorView::Io(words@),
            AppError::Json(words) => AppErrorView::Json(words@),
            AppError::JsonDeserialize(words) => AppErrorView::JsonDeserialize(words@),
            AppError::MissingApiKey => AppErrorView::MissingApiKey,
            AppError::MissingDatabaseUrl => AppErrorView::MissingDatabaseUrl,
        }
    }
}

impl AppErrorView {
    /// The description of this error.
    pub open spec fn message(self) -> Seq<char> {
        match self {
            AppErrorView::Internal(words) => "internal error: "@ + words,
            AppErrorView::Service(words) => "service error: "@ + words,
            AppErrorView::Request(words) => "request error: "@ + words,
            AppErrorView::Sql(words) => "sql error: "@ + words,
            AppErrorView::Io(words) => "IO error: "@ + words,
            AppErrorView::Json(words) => "JSON error: "@ + words,
            AppErrorView::JsonDeserialize(words) => "serde deserialize error: "@ + words,
            AppErrorView::MissingApiKey => "missing OpenRouter API key"@,
            AppErrorView::MissingDatabaseUrl => "missing database URL"@,
        }
    }

    /// The kind of error that a tool server answers this error with.
    pub open spec fn mcp_kind(self) -> McpErrorKind {
        match self {
            AppErrorView::Request(_) | AppErrorView::MissingApiKey
            | AppErrorView::MissingDatabaseUrl => McpErrorKind::InvalidRequest,
            AppErrorView::Json(_) | AppErrorView::JsonDeserialize(_) => McpErrorKind::ParseError,
            _ => McpErrorKind::InternalError,
        }
    }

    /// The message that a tool server answers this error with: the words of
    /// what failed beneath it, without the words of this error around them.
    pub open spec fn mcp_message(self) -> Seq<char> {
        match self {
            AppErrorView::Internal(words) => words,
            AppErrorView::Service(words) => words,
            AppErrorView::Request(words) => words,
            AppErrorView::Sql(words) => words,
            AppErrorView::Io(words) => words,
            AppErrorView::Json(words) => words,
            AppErrorView::JsonDeserialize(words) => words,
            AppErrorView::MissingApiKey => "Missing OpenRouter API key"@,
            AppErrorView::MissingDatabaseUrl => "Missing database URL"@,
        }
    }
}

impl AppError {
    /// The error of a row that does not decode: it carries the description of
    /// the failure to decode.
    pub fn from_decode(error: &DecodeError) -> (wrapped: AppError)
        ensures
            wrapped@ == AppErrorView::JsonDeserialize(error@.message()),
    {
        AppError::JsonDeserialize(error.message())
    }

    /// A description of this error for a human reader.
    pub fn message(&self) -> (text: String)
        ensures
            text@ == self@.message(),
    {
        match self {
            AppError::Internal(words) => String::from_str("internal error: ").concat(
                words.as_str(),
            ),
            AppError::Service(words) => String::from_str("service error: ").concat(words.as_str()),
            AppError::Request(words) => String::from_str("request error: ").concat(words.as_str()),
            AppError::Sql(words) => String::from_str("sql error: ").concat(words.as_str()),
            AppError::Io(words) => String::from_str("IO error: ").concat(words.as_str()),
            AppError::Json(words) => String::from_str("JSON error: ").concat(words.as_str()),
            AppError::JsonDeserialize(words) => String::from_str(
                "serde deserialize error: ",
            ).concat(words.as_str()),
            AppError::MissingApiKey => String::from_str("missing OpenRouter API key"),
            AppError::MissingDatabaseUrl => String::from_str("missing database URL"),
        }
    }

    /// The error that a tool server answers this error with.
    ///
    /// A failed request and a missing key or URL are invalid requests; a text
    /// that is no JSON and a row that does not decode are parse errors;
    /// everything else is an internal error.
    pub fn to_mcp(&self) -> (answer: McpError)
        ensures
            answer.kind == self@.mcp_kind(),
            answer.message@ == self@.mcp_message(),
    {
        match self {
            AppError::Internal(words) => McpError {
                kind: McpErrorKind::InternalError,
                message: words.clone(),
            },
            AppError::Service(words) => McpError {
                kind: McpErrorKind::InternalError,
                message: words.clone(),
            },
            AppError::Request(words) => McpError {
                kind: McpErrorKind::InvalidRequest,
                message: words.clone(),
            },
            AppError::Sql(words) => McpError {
                kind: McpErrorKind::InternalError,
                message: words.clone(),
            },
            AppError::Io(words) => McpError {
                kind: McpErrorKind::InternalError,
                message: words.clone(),
            },
            AppError::Json(words) => McpError {
                kind: McpErrorKind::ParseError,
                message: words.clone(),
            },
            AppError::JsonDeserialize(words) => McpError {
                kind: McpErrorKind::ParseError,
                message: words.clone(),
            },
            AppError::MissingApiKey => McpError {
                kind: McpErrorKind::InvalidRequest,
                message: String::from_str("Missing OpenRouter API key"),
            },
            AppError::MissingDatabaseUrl => McpError {
                kind: McpErrorKind::InvalidRequest,
                message: String::from_str("Missing database URL"),
            },
        }
    }
}

} // verus!

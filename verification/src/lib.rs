//! A database assistant's core: the decoding of fetched MySQL rows into
//! self-describing values, and the rules of the program around it.
//!
//! A row arrives as plain values: each column with its name, the native type
//! that the engine declares for it, and what the engine made of its cell in
//! the representations that [`native_type::targets`] asks for. The value
//! decoder in [`cell`] turns one cell into a [`value::Decoded`] value by the
//! family of its native type; [`json`] parses self-describing payloads with
//! `serde_json` and decodes them from their document tree; the row decoder in
//! [`row`] gives a whole row the shape that is asked for: a scalar, a
//! sequence, a keyed mapping, or a record of a closed set of fields.
//!
//! Every function states what it returns over mathematical models of its
//! arguments, and is proved to return it. The texts that `chrono` and `uuid`
//! print and what `str::trim` leaves are stated in [`render`] and [`text`].
//! What `serde_json` parses, how `rust_decimal` converts and prints a
//! decimal, and how values print for debugging is named, not restated: see
//! [`json::json_document`], [`json::document_debug`],
//! [`render::decimal_double`], [`render::decimal_text`] and
//! [`error::names_debug`].

pub mod cell;
pub mod cli;
pub mod client;
pub mod error;
pub mod json;
pub mod map_access;
pub mod native_type;
pub mod render;
pub mod repl;
pub mod row;
pub mod schema;
pub mod seq_access;
pub mod text;
pub mod tool;
pub mod utility;
pub mod value;

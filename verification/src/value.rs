//! The value tree that decoding a row produces.

use vstd::prelude::*;
use crate::error::{DecodeError, DecodeErrorView};

verus! {

/// One named entry of a keyed mapping.
#[derive(Debug, PartialEq, Eq)]
pub struct Field {
    pub name: String,
    pub value: Decoded,
}

/// A decoded value. Floating-point numbers are carried as their IEEE 754 bit patterns.
#[derive(Debug, PartialEq, Eq)]
pub enum Decoded {
    Unit,
    Null,
    Bool(bool),
    I8(i8),
    I16(i16),
    I32(i32),
    I64(i64),
    U8(u8),
    U16(u16),
    U32(u32),
    U64(u64),
    Single(u32),
    Double(u64),
    Text(String),
    Bytes(Vec<u8>),
    Sequence(Vec<Decoded>),
    Mapping(Vec<Field>),
}

/// Mathematical model of a [`Field`].
pub struct FieldView {
    pub name: Seq<char>,
    pub value: DecodedView,
}

/// Mathematical model of a [`Decoded`] value.
pub enum DecodedView {
    Unit,
    Null,
    Bool(bool),
    I8(i8),
    I16(i16),
    I32(i32),
    I64(i64),
    U8(u8),
    U16(u16),
    U32(u32),
    U64(u64),
    Single(u32),
    Double(u64),
    Text(Seq<char>),
    Bytes(Seq<u8>),
    Sequence(Seq<DecodedView>),
    Mapping(Seq<FieldView>),
}

impl Decoded {
    /// The model of this value, built from the models of its parts.
    pub open spec fn model(self) -> DecodedView
        decreases self,
    {
        match self {
            Decoded::Unit => DecodedView::Unit,
            Decoded::Null => DecodedView::Null,
            Decoded::Bool(flag) => DecodedView::Bool(flag),
            Decoded::I8(number) => DecodedView::I8(number),
            Decoded::I16(number) => DecodedView::I16(number),
            Decoded::I32(number) => DecodedView::I32(number),
            Decoded::I64(number) => DecodedView::I64(number),
            Decoded::U8(number) => DecodedView::U8(number),
            Decoded::U16(number) => DecodedView::U16(number),
            Decoded::U32(number) => DecodedView::U32(number),
            Decoded::U64(number) => DecodedView::U64(number),
            Decoded::Single(bits) => DecodedView::Single(bits),
            Decoded::Double(bits) => DecodedView::Double(bits),
            Decoded::Text(text) => DecodedView::Text(text@),
            Decoded::Bytes(bytes) => DecodedView::Bytes(bytes@),
            Decoded::Sequence(items) => DecodedView::Sequence(
                Seq::new(
                    items@.len(),
                    |i: int|
                        if 0 <= i < items@.len() {
                            items@[i].model()
                        } else {
                            DecodedView::Null
                        },
                ),
            ),
            Decoded::Mapping(fields) => DecodedView::Mapping(
                Seq::new(
                    fields@.len(),
                    |i: int|
                        if 0 <= i < fields@.len() {
                            FieldView { name: fields@[i].name@, value: fields@[i].value.model() }
                        } else {
                            FieldView { name: Seq::empty(), value: DecodedView::Null }
                        },
                ),
            ),
        }
    }
}

impl View for Decoded {
    type V = DecodedView;

    open spec fn view(&self) -> DecodedView {
        self.model()
    }
}

impl View for Field {
    type V = FieldView;

    open spec fn view(&self) -> FieldView {
        FieldView { name: self.name@, value: self.value@ }
    }
}

/// The models of the values in a sequence.
pub open spec fn values_view(values: Seq<Decoded>) -> Seq<DecodedView> {
    Seq::new(values.len(), |i: int| values[i]@)
}

/// The models of the fields in a sequence.
pub open spec fn fields_view(fields: Seq<Field>) -> Seq<FieldView> {
    Seq::new(fields.len(), |i: int| fields[i]@)
}

/// The model of a sequence holds the models of its items, and that of a
/// mapping the models of its fields.
pub proof fn lemma_value_view(value: Decoded)
    ensures
        value matches Decoded::Sequence(items) ==> value@ == DecodedView::Sequence(
            values_view(items@),
        ),
        value matches Decoded::Mapping(fields) ==> value@ == DecodedView::Mapping(
            fields_view(fields@),
        ),
{
    match value {
        Decoded::Sequence(items) => {
            assert(value@->Sequence_0 =~= values_view(items@));
        },
        Decoded::Mapping(fields) => {
            assert(value@->Mapping_0 =~= fields_view(fields@));
        },
        _ => {},
    }
}

/// The model of the outcome of decoding.
pub open spec fn outcome_view(outcome: Result<Decoded, DecodeError>) -> Result<
    DecodedView,
    DecodeErrorView,
> {
    match outcome {
        Ok(value) => Ok(value@),
        Err(error) => Err(error@),
    }
}

} // verus!

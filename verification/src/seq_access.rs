//! Stepping through a sequence: the columns of a row, or the items of an array.

use vstd::prelude::*;
use crate::cell::{
    cell_value, decode_raw_mysql, payload_of, payload_text, Cell, MySqlValueDeserializer, Native,
};
use crate::error::{DecodeError, DecodeErrorView};
use crate::json::{
    decode_tree, decoded_of, document_debug, items_view, lemma_json_view, print_parsed, Json,
    JsonView, MySqlJson,
};
use crate::native_type::Target;
use crate::row::{ColumnView, MySqlRowDeserializer};
use crate::value::{Decoded, DecodedView};

verus! {

/// Steps through the columns of a row, one value at a time.
pub struct MySqlRowSeqAccess<'a> {
    deserializer: MySqlRowDeserializer<'a>,
}

impl<'a> MySqlRowSeqAccess<'a> {
    /// All the columns of the row.
    pub closed spec fn columns(self) -> Seq<ColumnView> {
        self.deserializer.columns()
    }

    /// The position of the cursor.
    pub closed spec fn cursor(self) -> nat {
        self.deserializer.cursor()
    }

    /// Steps through the columns from the decoder's cursor on.
    pub fn new(deserializer: MySqlRowDeserializer<'a>) -> (access: Self)
        ensures
            access.columns() == deserializer.columns(),
            access.cursor() == deserializer.cursor(),
    {
        MySqlRowSeqAccess { deserializer }
    }

    /// The position of the cursor.
    pub fn position(&self) -> (index: usize)
        ensures
            index == self.cursor(),
            index <= self.columns().len(),
    {
        self.deserializer.position()
    }

    /// Decodes the column under the cursor and moves the cursor past it.
    ///
    /// Past the last column there is nothing, and the cursor stays. Before it,
    /// the cursor moves on by one, whether the column's cell decodes or fails.
    pub fn next_element(&mut self) -> (outcome: Result<Option<Decoded>, DecodeError>)
        ensures
            final(self).columns() == old(self).columns(),
            old(self).cursor() >= old(self).columns().len() ==> final(self).cursor() == old(
                self,
            ).cursor() && outcome is Ok && outcome->Ok_0 is None,
            old(self).cursor() < old(self).columns().len() ==> final(self).cursor() == old(
                self,
            ).cursor() + 1 && match outcome {
                Ok(value) => value is Some && cell_value(
                    old(self).columns()[old(self).cursor() as int].cell,
                ) == Ok::<DecodedView, DecodeErrorView>(value->0@),
                Err(error) => cell_value(old(self).columns()[old(self).cursor() as int].cell)
                    == Err::<DecodedView, DecodeErrorView>(error@),
            },
    {
        match self.deserializer.next_column() {
            Some(column) => {
                let source = MySqlValueDeserializer { value: &column.cell };
                match source.deserialize_any() {
                    Ok(value) => Ok(Some(value)),
                    Err(error) => Err(error),
                }
            },
            None => Ok(None),
        }
    }
}

/// Steps through the items of an array that a self-describing cell holds.
pub struct MySqlArraySeqAccess {
    items: Vec<Json>,
    position: usize,
}

impl MySqlArraySeqAccess {
    /// No more items are stepped over than there are.
    #[verifier::type_invariant]
    pub closed spec fn within(self) -> bool {
        self.position <= self.items@.len()
    }

    /// All the items of the array.
    pub closed spec fn items(self) -> Seq<JsonView> {
        items_view(self.items@)
    }

    /// The number of items that were stepped over.
    pub closed spec fn taken(self) -> nat {
        self.position as nat
    }

    /// Steps through the array that a parsed payload is; nothing where the
    /// document is no array.
    pub fn over(payload: MySqlJson) -> (access: Option<Self>)
        ensures
            match access {
                Some(access) => payload.0@ == JsonView::Array(access.items()) && access.taken()
                    == 0,
                None => !(payload.0@ is Array),
            },
    {
        proof {
            lemma_json_view(payload.0);
        }
        match payload.0 {
            Json::Array(items) => Some(MySqlArraySeqAccess { items, position: 0 }),
            _ => None,
        }
    }

    /// Parses the cell and steps through the array that it holds.
    ///
    /// A payload that cannot be parsed fails as it does for the cell. A
    /// document that is no array fails naming the cell's native type and
    /// showing the document as it prints.
    pub fn new(cell: &Cell) -> (access: Result<Self, DecodeError>)
        ensures
            match access {
                Ok(access) => payload_of(cell@) == Ok::<JsonView, DecodeErrorView>(
                    JsonView::Array(access.items()),
                ) && access.taken() == 0,
                Err(error) => match payload_of(cell@) {
                    Err(failure) => error@ == failure,
                    Ok(document) => !(document is Array) && error@
                        == (DecodeErrorView::NotAnArray {
                        native_type: cell@.native_type,
                        printed: document_debug(payload_text(cell@)),
                    }),
                },
            },
    {
        match MySqlJson::decode(cell) {
            Err(error) => Err(error),
            Ok(payload) => match Self::over(payload) {
                Some(access) => Ok(access),
                None => {
                    let printed = match decode_raw_mysql(cell, Target::Text) {
                        Ok(Native::Text(text)) => print_parsed(text.as_str()),
                        _ => String::new(),
                    };
                    Err(DecodeError::NotAnArray { native_type: cell.native_type.clone(), printed })
                },
            },
        }
    }

    /// Decodes the next item of the array; nothing past the last.
    pub fn next_element(&mut self) -> (value: Option<Decoded>)
        ensures
            final(self).items() == old(self).items(),
            old(self).taken() >= old(self).items().len() ==> final(self).taken() == old(
                self,
            ).taken() && value is None,
            old(self).taken() < old(self).items().len() ==> final(self).taken() == old(
                self,
            ).taken() + 1 && value is Some && value->0@ == decoded_of(
                old(self).items()[old(self).taken() as int],
            ),
    {
        if self.position < self.items.len() {
            let value = decode_tree(&self.items[self.position]);
            self.position = self.position + 1;
            Some(value)
        } else {
            None
        }
    }
}

} // verus!

//! Stepping through a keyed mapping: the columns of a row, by name.

use vstd::prelude::*;
use crate::cell::{cell_value, MySqlValueDeserializer};
use crate::error::{DecodeError, DecodeErrorView};
use crate::row::{ColumnView, MySqlRowDeserializer};
use crate::value::{Decoded, DecodedView};

verus! {

/// Steps through the columns of a row, one name and one value at a time.
pub struct MySqlRowMapAccess<'a> {
    deserializer: MySqlRowDeserializer<'a>,
}

impl<'a> MySqlRowMapAccess<'a> {
    /// All the columns of the row.
    pub closed spec fn columns(self) -> Seq<ColumnView> {
        self.deserializer.columns()
    }

    /// The position of the cursor.
    pub closed spec fn cursor(self) -> nat {
        self.deserializer.cursor()
    }

    /// Steps through the columns from the decoder's cursor on.
    pub fn new(deserializer: MySqlRowDeserializer<'a>) -> (access: Self)
        ensures
            access.columns() == deserializer.columns(),
            access.cursor() == deserializer.cursor(),
    {
        MySqlRowMapAccess { deserializer }
    }

    /// The position of the cursor.
    pub fn position(&self) -> (index: usize)
        ensures
            index == self.cursor(),
            index <= self.columns().len(),
    {
        self.deserializer.position()
    }

    /// The name of the column under the cursor; nothing past the last column.
    /// The cursor stays.
    pub fn next_key(&self) -> (key: Option<String>)
        ensures
            self.cursor() >= self.columns().len() ==> key is None,
            self.cursor() < self.columns().len() ==> key is Some && key->0@
                == self.columns()[self.cursor() as int].name,
    {
        match self.deserializer.peek_column() {
            Some(column) => Some(column.name.clone()),
            None => None,
        }
    }

    /// Decodes the column under the cursor and moves the cursor past it.
    ///
    /// Past the last column there is nothing, and the cursor stays. Before it,
    /// the cursor moves on by one, whether the column's cell decodes or fails.
    pub fn next_value(&mut self) -> (outcome: Result<Option<Decoded>, DecodeError>)
        ensures
            final(self).columns() == old(self).columns(),
            old(self).cursor() >= old(self).columns().len() ==> final(self).cursor() == old(
                self,
            ).cursor() && outcome is Ok && outcome->Ok_0 is None,
            old(self).cursor() < old(self).columns().len() ==> final(self).cursor() == old(
                self,
            ).cursor() + 1 && match outcome {
                Ok(value) => value is Some && cell_value(
                    old(self).columns()[old(self).cursor() as int].cell,
                ) == Ok::<DecodedView, DecodeErrorView>(value->0@),
                Err(error) => cell_value(old(self).columns()[old(self).cursor() as int].cell)
                    == Err::<DecodedView, DecodeErrorView>(error@),
            },
    {
        match self.deserializer.next_column() {
            Some(column) => {
                let source = MySqlValueDeserializer { value: &column.cell };
                match source.deserialize_any() {
                    Ok(value) => Ok(Some(value)),
                    Err(error) => Err(error),
                }
            },
            None => Ok(None),
        }
    }
}

} // verus!

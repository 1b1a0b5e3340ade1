//! Rows and the row decoder: one fetched record, and the shapes in which it
//! can be asked for.

use vstd::prelude::*;
use crate::cell::{
    array_of, cell_value, payload_of, Cell, CellView, MySqlValueDeserializer,
};
use crate::error::{names_view, DecodeError, DecodeErrorView, Shape};
use crate::json::{
    decode_tree, decoded_items, decoded_of, match_fields, record_of, Json, JsonView, MySqlJson,
};
use crate::map_access::MySqlRowMapAccess;
use crate::native_type::{classify, family_of, lemma_json_name, TypeFamily};
use crate::text::upper;
use crate::seq_access::{MySqlArraySeqAccess, MySqlRowSeqAccess};
use crate::value::{
    fields_view, lemma_value_view, outcome_view, values_view, Decoded, DecodedView, Field,
    FieldView,
};

verus! {

/// One column of a row: its name and its cell.
#[derive(Debug, PartialEq, Eq)]
pub struct Column {
    pub name: String,
    pub cell: Cell,
}

/// One fetched record: its columns, in the order of the query.
#[derive(Debug, PartialEq, Eq)]
pub struct Row {
    pub columns: Vec<Column>,
}

/// Mathematical model of a [`Column`].
pub struct ColumnView {
    pub name: Seq<char>,
    pub cell: CellView,
}

impl View for Column {
    type V = ColumnView;

    open spec fn view(&self) -> ColumnView {
        ColumnView { name: self.name@, cell: self.cell@ }
    }
}

impl View for Row {
    type V = Seq<ColumnView>;

    open spec fn view(&self) -> Seq<ColumnView> {
        Seq::new(self.columns@.len(), |i: int| self.columns@[i]@)
    }
}

/// The values of the columns, in order; the failure of the first column that
/// fails.
pub open spec fn values_of(columns: Seq<ColumnView>) -> Result<Seq<DecodedView>, DecodeErrorView>
    decreases columns.len(),
{
    if columns.len() == 0 {
        Ok(Seq::empty())
    } else {
        match values_of(columns.drop_last()) {
            Err(error) => Err(error),
            Ok(values) => match cell_value(columns.last().cell) {
                Err(error) => Err(error),
                Ok(value) => Ok(values.push(value)),
            },
        }
    }
}

/// Whether one of the fields has that name.
pub open spec fn has_name(fields: Seq<FieldView>, name: Seq<char>) -> bool {
    exists|i: int| 0 <= i < fields.len() && fields[i].name == name
}

/// The columns as fields, each named as its column and holding its value, in
/// order. Of columns that share a name the first stays. The failure of the
/// first column that fails.
pub open spec fn entries_of(columns: Seq<ColumnView>) -> Result<Seq<FieldView>, DecodeErrorView>
    decreases columns.len(),
{
    if columns.len() == 0 {
        Ok(Seq::empty())
    } else {
        match entries_of(columns.drop_last()) {
            Err(error) => Err(error),
            Ok(fields) => match cell_value(columns.last().cell) {
                Err(error) => Err(error),
                Ok(value) => if has_name(fields, columns.last().name) {
                    Ok(fields)
                } else {
                    Ok(fields.push(FieldView { name: columns.last().name, value }))
                },
            },
        }
    }
}

/// The shape of a value.
pub open spec fn shape_of(value: DecodedView) -> Shape {
    match value {
        DecodedView::Sequence(_) => Shape::Sequence,
        DecodedView::Mapping(_) => Shape::Mapping,
        _ => Shape::Scalar,
    }
}

/// The columns as an ordered sequence. A single column that holds an array is
/// the sequence of the array's items; any other columns are the sequence of
/// their values, by position.
pub open spec fn sequence_of(columns: Seq<ColumnView>) -> Result<DecodedView, DecodeErrorView> {
    if columns.len() == 1 && array_of(columns[0].cell) is Some {
        Ok(DecodedView::Sequence(decoded_items(array_of(columns[0].cell)->0)))
    } else {
        match values_of(columns) {
            Ok(values) => Ok(DecodedView::Sequence(values)),
            Err(error) => Err(error),
        }
    }
}

/// The columns as a keyed mapping, by column name.
pub open spec fn mapping_of(columns: Seq<ColumnView>) -> Result<DecodedView, DecodeErrorView> {
    match entries_of(columns) {
        Ok(fields) => Ok(DecodedView::Mapping(fields)),
        Err(error) => Err(error),
    }
}

/// The columns in the shape that they have themselves: the unit value for no
/// column, the sequence of its items for one column that holds an array, its
/// value for any other single column, the sequence of their values for several.
pub open spec fn any_of(columns: Seq<ColumnView>) -> Result<DecodedView, DecodeErrorView> {
    if columns.len() == 0 {
        Ok(DecodedView::Unit)
    } else if columns.len() == 1 && array_of(columns[0].cell) is None {
        cell_value(columns[0].cell)
    } else {
        sequence_of(columns)
    }
}

/// The columns as a scalar: what they are in their own shape, unless that is a
/// sequence or a mapping.
pub open spec fn scalar_of(columns: Seq<ColumnView>) -> Result<DecodedView, DecodeErrorView> {
    match any_of(columns) {
        Ok(value) => if shape_of(value) == Shape::Scalar {
            Ok(value)
        } else {
            Err(DecodeErrorView::ShapeMismatch { wanted: Shape::Scalar, found: shape_of(value) })
        },
        Err(error) => Err(error),
    }
}

/// The columns as an optional value: nothing where there is no column or the
/// first cell is null, what they are in their own shape otherwise.
pub open spec fn option_of(columns: Seq<ColumnView>) -> Result<
    Option<DecodedView>,
    DecodeErrorView,
> {
    if columns.len() == 0 || columns[0].cell.null {
        Ok(None)
    } else {
        match any_of(columns) {
            Ok(value) => Ok(Some(value)),
            Err(error) => Err(error),
        }
    }
}

/// Whether the columns are a single self-describing cell that is not null.
pub open spec fn is_payload(columns: Seq<ColumnView>) -> bool {
    columns.len() == 1 && !columns[0].cell.null && family_of(columns[0].cell.native_type)
        == TypeFamily::Json
}

/// The columns as a record of a closed set of fields.
///
/// A single self-describing cell that is not null is parsed: an object fills
/// the fields by the field-matching policy, any other document is decoded as
/// it is, and a payload that cannot be had fails with the kind and the
/// description of what failed. Any other columns are a keyed mapping by column
/// name.
pub open spec fn struct_of(columns: Seq<ColumnView>, fields: Seq<Seq<char>>) -> Result<
    DecodedView,
    DecodeErrorView,
> {
    if is_payload(columns) {
        match payload_of(columns[0].cell) {
            Err(error) => Err(
                DecodeErrorView::RecordPayload { kind: error.kind(), reason: error.message() },
            ),
            Ok(JsonView::Object(members)) => record_of(members, fields),
            Ok(document) => Ok(decoded_of(document)),
        }
    } else {
        mapping_of(columns)
    }
}

/// Whether no two of the columns share a name.
pub open spec fn distinct_names(columns: Seq<ColumnView>) -> bool {
    forall|i: int, j: int| 0 <= i < j < columns.len() ==> columns[i].name != columns[j].name
}

/// Whether the cell of every column decodes.
pub open spec fn all_decode(columns: Seq<ColumnView>) -> bool {
    forall|i: int| 0 <= i < columns.len() ==> cell_value(#[trigger] columns[i].cell) is Ok
}

/// The value of each column's cell, in column order.
pub open spec fn values_in_order(columns: Seq<ColumnView>) -> Seq<DecodedView> {
    Seq::new(columns.len(), |i: int| cell_value(columns[i].cell)->Ok_0)
}

/// A field for each column, named as the column and holding the value of its
/// cell, in column order.
pub open spec fn fields_in_order(columns: Seq<ColumnView>) -> Seq<FieldView> {
    Seq::new(
        columns.len(),
        |i: int| FieldView { name: columns[i].name, value: cell_value(columns[i].cell)->Ok_0 },
    )
}

/// A row whose cells all decode gives, by position, the value of each column's
/// cell in column order.
pub proof fn lemma_values_in_column_order(columns: Seq<ColumnView>)
    requires
        all_decode(columns),
    ensures
        values_of(columns) == Ok::<Seq<DecodedView>, DecodeErrorView>(values_in_order(columns)),
    decreases columns.len(),
{
    if columns.len() == 0 {
        assert(values_in_order(columns) =~= Seq::<DecodedView>::empty());
    } else {
        let front = columns.drop_last();
        assert forall|i: int| 0 <= i < front.len() implies cell_value(
            #[trigger] front[i].cell,
        ) is Ok by {
            assert(front[i] == columns[i]);
        }
        lemma_values_in_column_order(front);
        assert(cell_value(columns[columns.len() - 1].cell) is Ok);
        assert(values_in_order(front).push(cell_value(columns.last().cell)->Ok_0)
            =~= values_in_order(columns));
    }
}

/// A row of columns with distinct names whose cells all decode gives, as a
/// keyed mapping, a field for each column in column order: the column's name
/// with the value of its cell.
pub proof fn lemma_mapping_in_column_order(columns: Seq<ColumnView>)
    requires
        distinct_names(columns),
        all_decode(columns),
    ensures
        mapping_of(columns) == Ok::<DecodedView, DecodeErrorView>(
            DecodedView::Mapping(fields_in_order(columns)),
        ),
    decreases columns.len(),
{
    if columns.len() == 0 {
        assert(fields_in_order(columns) =~= Seq::<FieldView>::empty());
    } else {
        let front = columns.drop_last();
        assert forall|i: int| 0 <= i < front.len() implies cell_value(
            #[trigger] front[i].cell,
        ) is Ok by {
            assert(front[i] == columns[i]);
        }
        assert forall|i: int, j: int| 0 <= i < j < front.len() implies front[i].name
            != front[j].name by {
            assert(front[i] == columns[i] && front[j] == columns[j]);
        }
        lemma_mapping_in_column_order(front);
        assert(cell_value(columns[columns.len() - 1].cell) is Ok);
        assert(!has_name(fields_in_order(front), columns.last().name)) by {
            assert forall|i: int| 0 <= i < front.len() implies fields_in_order(front)[i].name
                != columns.last().name by {
                assert(front[i] == columns[i]);
            }
        }
        assert(fields_in_order(front).push(
            FieldView {
                name: columns.last().name,
                value: cell_value(columns.last().cell)->Ok_0,
            },
        ) =~= fields_in_order(columns));
    }
}

/// A row of one column that holds an array gives, as a sequence and in its
/// own shape, the array's items in their order, each decoded from its document.
pub proof fn lemma_array_column_is_its_items(column: ColumnView, items: Seq<JsonView>)
    requires
        array_of(column.cell) == Some(items),
    ensures
        sequence_of(seq![column]) == Ok::<DecodedView, DecodeErrorView>(
            DecodedView::Sequence(decoded_items(items)),
        ),
        any_of(seq![column]) == sequence_of(seq![column]),
        decoded_items(items).len() == items.len(),
        forall|i: int| 0 <= i < items.len() ==> decoded_items(items)[i] == decoded_of(items[i]),
{
    assert(seq![column][0] == column);
}

/// A row of one column whose cell is null gives the null marker in every
/// shape: the null marker itself as a value of its own shape and as a scalar,
/// nothing as an optional value, and the null marker as the one item of a
/// sequence and under the column's name in a mapping and in a record.
pub proof fn lemma_null_in_every_shape(column: ColumnView, fields: Seq<Seq<char>>)
    requires
        column.cell.null,
    ensures
        any_of(seq![column]) == Ok::<DecodedView, DecodeErrorView>(DecodedView::Null),
        scalar_of(seq![column]) == Ok::<DecodedView, DecodeErrorView>(DecodedView::Null),
        option_of(seq![column]) == Ok::<Option<DecodedView>, DecodeErrorView>(None),
        sequence_of(seq![column]) == Ok::<DecodedView, DecodeErrorView>(
            DecodedView::Sequence(seq![DecodedView::Null]),
        ),
        mapping_of(seq![column]) == Ok::<DecodedView, DecodeErrorView>(
            DecodedView::Mapping(seq![FieldView { name: column.name, value: DecodedView::Null }]),
        ),
        struct_of(seq![column], fields) == mapping_of(seq![column]),
{
    let columns = seq![column];
    assert(columns[0] == column);
    assert(all_decode(columns));
    assert(distinct_names(columns));
    lemma_values_in_column_order(columns);
    lemma_mapping_in_column_order(columns);
    assert(values_in_order(columns) =~= seq![DecodedView::Null]);
    assert(fields_in_order(columns) =~= seq![
        FieldView { name: column.name, value: DecodedView::Null },
    ]);
}

/// Where the values of the first `n` columns fail, the values of all fail alike.
pub proof fn lemma_values_fail_stays(columns: Seq<ColumnView>, n: int)
    requires
        0 <= n <= columns.len(),
        values_of(columns.take(n)) is Err,
    ensures
        values_of(columns) == values_of(columns.take(n)),
    decreases columns.len() - n,
{
    if n < columns.len() {
        assert(columns.take(n + 1).drop_last() == columns.take(n));
        lemma_values_fail_stays(columns, n + 1);
    } else {
        assert(columns.take(n) == columns);
    }
}

/// Where the fields of the first `n` columns fail, the fields of all fail alike.
pub proof fn lemma_entries_fail_stays(columns: Seq<ColumnView>, n: int)
    requires
        0 <= n <= columns.len(),
        entries_of(columns.take(n)) is Err,
    ensures
        entries_of(columns) == entries_of(columns.take(n)),
    decreases columns.len() - n,
{
    if n < columns.len() {
        assert(columns.take(n + 1).drop_last() == columns.take(n));
        lemma_entries_fail_stays(columns, n + 1);
    } else {
        assert(columns.take(n) == columns);
    }
}

/// Whether one of the fields has that name.
pub fn contains_name(fields: &Vec<Field>, name: &String) -> (found: bool)
    ensures
        found == has_name(fields_view(fields@), name@),
{
    let mut i: usize = 0;
    while i < fields.len()
        invariant
            i <= fields.len(),
            forall|k: int| 0 <= k < i ==> fields_view(fields@)[k].name != name@,
        decreases fields.len() - i,
    {
        if fields[i].name == *name {
            assert(fields_view(fields@)[i as int].name == name@);
            return true;
        }
        i += 1;
    }
    false
}

/// The shape of a value.
pub fn shape(value: &Decoded) -> (shape: Shape)
    ensures
        shape == shape_of(value@),
{
    match value {
        Decoded::Sequence(_) => Shape::Sequence,
        Decoded::Mapping(_) => Shape::Mapping,
        _ => Shape::Scalar,
    }
}

/// The row decoder: a decoding source over the columns of one row from a
/// cursor on. The cursor never passes the last column.
#[derive(Clone, Copy)]
pub struct MySqlRowDeserializer<'a> {
    row: &'a Row,
    index: usize,
}

impl<'a> MySqlRowDeserializer<'a> {
    /// The cursor never passes the last column.
    #[verifier::type_invariant]
    pub closed spec fn within(self) -> bool {
        self.index <= self.row.columns@.len()
    }

    /// All the columns of the row.
    pub closed spec fn columns(self) -> Seq<ColumnView> {
        self.row@
    }

    /// The position of the cursor.
    pub closed spec fn cursor(self) -> nat {
        self.index as nat
    }

    /// The columns from the cursor on.
    pub open spec fn remaining(self) -> Seq<ColumnView> {
        self.columns().skip(self.cursor() as int)
    }

    /// The columns from the cursor on are the columns of the row, counted from
    /// the cursor.
    pub proof fn lemma_remaining(self)
        requires
            self.cursor() <= self.columns().len(),
        ensures
            self.remaining().len() == self.columns().len() - self.cursor(),
            forall|k: int|
                0 <= k < self.remaining().len() ==> self.remaining()[k] == self.columns()[self.cursor()
                    + k],
    {
    }

    /// A decoder over the whole row.
    pub fn new(row: &'a Row) -> (decoder: Self)
        ensures
            decoder.columns() == row@,
            decoder.cursor() == 0,
    {
        MySqlRowDeserializer { row, index: 0 }
    }

    /// The position of the cursor.
    pub fn position(&self) -> (index: usize)
        ensures
            index == self.cursor(),
            index <= self.columns().len(),
    {
        proof {
            use_type_invariant(self);
        }
        self.index
    }

    /// The number of columns from the cursor on.
    pub fn remaining_len(&self) -> (count: usize)
        ensures
            count == self.remaining().len(),
    {
        proof {
            use_type_invariant(self);
        }
        self.row.columns.len() - self.index
    }

    /// The column under the cursor, with the cursor moved past it; nothing past
    /// the last column, where the cursor stays.
    pub fn next_column(&mut self) -> (column: Option<&'a Column>)
        ensures
            final(self).columns() == old(self).columns(),
            old(self).cursor() >= old(self).columns().len() ==> final(self).cursor() == old(
                self,
            ).cursor() && column is None,
            old(self).cursor() < old(self).columns().len() ==> final(self).cursor() == old(
                self,
            ).cursor() + 1 && column is Some && column->0@ == old(self).columns()[old(
                self,
            ).cursor() as int],
    {
        let row = self.row;
        let index = self.index;
        if index < row.columns.len() {
            self.index = index + 1;
            Some(&row.columns[index])
        } else {
            None
        }
    }

    /// The column under the cursor; nothing past the last column.
    pub fn peek_column(&self) -> (column: Option<&'a Column>)
        ensures
            self.cursor() >= self.columns().len() ==> column is None,
            self.cursor() < self.columns().len() ==> column is Some && column->0@
                == self.columns()[self.cursor() as int],
    {
        if self.index < self.row.columns.len() {
            Some(&self.row.columns[self.index])
        } else {
            None
        }
    }

    /// Whether the first column of the row is self-describing: there is one,
    /// and the name of its native type is `JSON` in any letter case.
    pub fn is_json(&self) -> (json: bool)
        ensures
            json == (self.columns().len() > 0 && family_of(self.columns()[0].cell.native_type)
                == TypeFamily::Json),
            json == (self.columns().len() > 0 && upper(self.columns()[0].cell.native_type)
                == "JSON"@),
    {
        if self.row.columns.len() == 0 {
            false
        } else {
            proof {
                lemma_json_name(self.row.columns[0].cell.native_type@);
            }
            classify(self.row.columns[0].cell.native_type.as_str()) == TypeFamily::Json
        }
    }

    /// Whether the columns are nothing as an optional value: there is none, or
    /// the cell of the first is null.
    pub fn is_none(&self) -> (none: bool)
        ensures
            none == (self.remaining().len() == 0 || self.remaining()[0].cell.null),
    {
        proof {
            use_type_invariant(self);
            self.lemma_remaining();
        }
        match self.peek_column() {
            None => true,
            Some(column) => column.cell.null,
        }
    }

    /// Steps through the array that the columns hold, where they are a single
    /// column that holds one.
    pub fn array_access(&self) -> (access: Option<MySqlArraySeqAccess>)
        ensures
            match access {
                Some(access) => self.remaining().len() == 1 && array_of(self.remaining()[0].cell)
                    == Some(access.items()) && access.taken() == 0,
                None => !(self.remaining().len() == 1 && array_of(self.remaining()[0].cell)
                    is Some),
            },
    {
        if self.remaining_len() != 1 {
            return None;
        }
        proof {
            use_type_invariant(self);
            self.lemma_remaining();
        }
        match self.peek_column() {
            Some(column) => {
                if column.cell.null || classify(column.cell.native_type.as_str())
                    != TypeFamily::Json {
                    return None;
                }
                match MySqlArraySeqAccess::new(&column.cell) {
                    Ok(access) => Some(access),
                    Err(_) => None,
                }
            },
            None => None,
        }
    }

    /// Decodes the columns as an ordered sequence.
    ///
    /// A single column that holds an array gives the array's items, each
    /// decoded from its document. Any other columns give their values by
    /// position, and no column gives the empty sequence. The first cell that
    /// fails is the failure of the row.
    pub fn deserialize_seq(&self) -> (outcome: Result<Decoded, DecodeError>)
        ensures
            outcome_view(outcome) == sequence_of(self.remaining()),
    {
        let ghost rest = self.remaining();
        let start = self.position();
        let mut values: Vec<Decoded> = Vec::new();
        match self.array_access() {
            Some(mut access) => {
                let ghost items = access.items();
                let mut done = false;
                while !done
                    invariant
                        access.items() == items,
                        access.taken() == values.len(),
                        values.len() <= items.len(),
                        done ==> values.len() == items.len(),
                        forall|k: int|
                            0 <= k < values.len() ==> values@[k]@ == decoded_of(items[k]),
                    decreases items.len() - values.len() + (if done { 0int } else { 1int }),
                {
                    match access.next_element() {
                        Some(value) => values.push(value),
                        None => done = true,
                    }
                }
                let decoded = Decoded::Sequence(values);
                proof {
                    lemma_value_view(decoded);
                    assert(values_view(values@) =~= decoded_items(items));
                }
                Ok(decoded)
            },
            None => {
                let mut access = MySqlRowSeqAccess::new(*self);
                let mut done = false;
                proof {
                    self.lemma_remaining();
                    assert(rest.take(0) =~= Seq::<ColumnView>::empty());
                    assert(values_view(values@) =~= Seq::<DecodedView>::empty());
                }
                while !done
                    invariant
                        access.columns() == self.columns(),
                        rest == self.remaining(),
                        rest.len() == self.columns().len() - start,
                        forall|k: int|
                            0 <= k < rest.len() ==> rest[k] == self.columns()[start + k],
                        start == self.cursor(),
                        start <= access.cursor() <= self.columns().len(),
                        done ==> access.cursor() == self.columns().len(),
                        values_of(rest.take(access.cursor() - start)) == Ok::<
                            Seq<DecodedView>,
                            DecodeErrorView,
                        >(values_view(values@)),
                    decreases
                            self.columns().len() - access.cursor() + (if done {
                                0int
                            } else {
                                1int
                            }),
                {
                    let ghost at = access.cursor() - start;
                    proof {
                        if at < rest.len() {
                            assert(rest.take(at + 1).drop_last() == rest.take(at));
                        }
                    }
                    let ghost before = values_view(values@);
                    match access.next_element() {
                        Ok(Some(value)) => {
                            values.push(value);
                            assert(values_view(values@) =~= before.push(value@));
                        },
                        Ok(None) => done = true,
                        Err(error) => {
                            proof {
                                lemma_values_fail_stays(rest, at + 1);
                            }
                            return Err(error);
                        },
                    }
                }
                let decoded = Decoded::Sequence(values);
                proof {
                    lemma_value_view(decoded);
                    assert(rest.take(rest.len() as int) == rest);
                }
                Ok(decoded)
            },
        }
    }

    /// Decodes the columns as an ordered sequence, whatever length is expected.
    pub fn deserialize_tuple(&self, len: usize) -> (outcome: Result<Decoded, DecodeError>)
        ensures
            outcome_view(outcome) == sequence_of(self.remaining()),
    {
        self.deserialize_seq()
    }

    /// Decodes the columns as a keyed mapping from each column's name to its
    /// value, in column order. Of columns that share a name the first stays.
    /// The first cell that fails is the failure of the row.
    pub fn deserialize_map(&self) -> (outcome: Result<Decoded, DecodeError>)
        ensures
            outcome_view(outcome) == mapping_of(self.remaining()),
    {
        let ghost rest = self.remaining();
        let start = self.position();
        let mut fields: Vec<Field> = Vec::new();
        let mut access = MySqlRowMapAccess::new(*self);
        let mut done = false;
        proof {
            self.lemma_remaining();
            assert(rest.take(0) =~= Seq::<ColumnView>::empty());
            assert(fields_view(fields@) =~= Seq::<FieldView>::empty());
        }
        while !done
            invariant
                access.columns() == self.columns(),
                rest == self.remaining(),
                rest.len() == self.columns().len() - start,
                forall|k: int| 0 <= k < rest.len() ==> rest[k] == self.columns()[start + k],
                start == self.cursor(),
                start <= access.cursor() <= self.columns().len(),
                done ==> access.cursor() == self.columns().len(),
                entries_of(rest.take(access.cursor() - start)) == Ok::<
                    Seq<FieldView>,
                    DecodeErrorView,
                >(fields_view(fields@)),
            decreases self.columns().len() - access.cursor() + (if done { 0int } else { 1int }),
        {
            let ghost at = access.cursor() - start;
            proof {
                if at < rest.len() {
                    assert(rest.take(at + 1).drop_last() == rest.take(at));
                }
            }
            let ghost before = fields_view(fields@);
            match access.next_key() {
                None => done = true,
                Some(name) => {
                    match access.next_value() {
                        Ok(Some(value)) => {
                            if !contains_name(&fields, &name) {
                                fields.push(Field { name, value });
                                assert(fields_view(fields@) =~= before.push(
                                    FieldView { name: name@, value: value@ },
                                ));
                            }
                        },
                        Ok(None) => done = true,
                        Err(error) => {
                            proof {
                                lemma_entries_fail_stays(rest, at + 1);
                            }
                            return Err(error);
                        },
                    }
                },
            }
        }
        let decoded = Decoded::Mapping(fields);
        proof {
            lemma_value_view(decoded);
            assert(rest.take(rest.len() as int) == rest);
        }
        Ok(decoded)
    }

    /// Decodes the columns as a record of a closed set of fields.
    ///
    /// A single self-describing column that is not null is parsed. Where it
    /// holds an object, a single field takes the value under its key, or the
    /// whole object where the object has no such key; several fields each take
    /// the value under their key, and the first that is no key of the object
    /// fails the record. Where it holds another document, that is decoded as
    /// it is; where it cannot be had, the record fails. Any other columns
    /// are decoded as a keyed mapping by column name.
    pub fn deserialize_struct(&self, fields: &Vec<String>) -> (outcome: Result<
        Decoded,
        DecodeError,
    >)
        ensures
            outcome_view(outcome) == struct_of(self.remaining(), names_view(fields@)),
    {
        proof {
            use_type_invariant(self);
            self.lemma_remaining();
        }
        if self.remaining_len() == 1 {
            match self.peek_column() {
                Some(column) => {
                    if !column.cell.null && classify(column.cell.native_type.as_str())
                        == TypeFamily::Json {
                        return match MySqlJson::decode(&column.cell) {
                            Err(error) => Err(
                                DecodeError::RecordPayload {
                                    kind: error.kind(),
                                    reason: error.message(),
                                },
                            ),
                            Ok(payload) => {
                                proof {
                                    crate::json::lemma_json_view(payload.0);
                                }
                                match &payload.0 {
                                    Json::Object(members) => match_fields(members, fields),
                                    document => Ok(decode_tree(document)),
                                }
                            },
                        };
                    }
                },
                None => {},
            }
        }
        self.deserialize_map()
    }

    /// Decodes the columns in the shape that they have themselves.
    ///
    /// No column gives the unit value. A single column gives the sequence of
    /// its items where it holds an array, and its value otherwise: the null
    /// marker for a null cell. Several columns give the sequence of their
    /// values.
    pub fn deserialize_any(&self) -> (outcome: Result<Decoded, DecodeError>)
        ensures
            outcome_view(outcome) == any_of(self.remaining()),
    {
        proof {
            use_type_invariant(self);
            self.lemma_remaining();
        }
        let count = self.remaining_len();
        if count == 0 {
            return Ok(Decoded::Unit);
        }
        if count == 1 {
            match self.array_access() {
                Some(_) => {
                    return self.deserialize_seq();
                },
                None => {
                    match self.peek_column() {
                        Some(column) => {
                            return (MySqlValueDeserializer { value: &column.cell }).deserialize_any();
                        },
                        None => {},
                    }
                },
            }
        }
        self.deserialize_seq()
    }

    /// Decodes the columns as a scalar: what they are in their own shape,
    /// which fails where that is a sequence or a mapping.
    pub fn deserialize_scalar(&self) -> (outcome: Result<Decoded, DecodeError>)
        ensures
            outcome_view(outcome) == scalar_of(self.remaining()),
    {
        match self.deserialize_any() {
            Ok(value) => {
                let found = shape(&value);
                match found {
                    Shape::Scalar => Ok(value),
                    _ => Err(DecodeError::ShapeMismatch { wanted: Shape::Scalar, found }),
                }
            },
            Err(error) => Err(error),
        }
    }

    /// Decodes the columns as an optional value: nothing where there is no
    /// column or the first cell is null, what they are in their own shape
    /// otherwise.
    pub fn deserialize_option(&self) -> (outcome: Result<Option<Decoded>, DecodeError>)
        ensures
            match outcome {
                Ok(Some(value)) => option_of(self.remaining()) == Ok::<
                    Option<DecodedView>,
                    DecodeErrorView,
                >(Some(value@)),
                Ok(None) => option_of(self.remaining()) == Ok::<
                    Option<DecodedView>,
                    DecodeErrorView,
                >(None),
                Err(error) => option_of(self.remaining()) == Err::<
                    Option<DecodedView>,
                    DecodeErrorView,
                >(error@),
            },
    {
        proof {
            use_type_invariant(self);
            self.lemma_remaining();
        }
        match self.peek_column() {
            None => Ok(None),
            Some(column) => {
                if column.cell.null {
                    Ok(None)
                } else {
                    match self.deserialize_any() {
                        Ok(value) => Ok(Some(value)),
                        Err(error) => Err(error),
                    }
                }
            },
        }
    }
}

/// Decodes a row in the shape that it has itself.
pub fn from_row(row: &Row) -> (outcome: Result<Decoded, DecodeError>)
    ensures
        outcome_view(outcome) == any_of(row@),
{
    let decoder = MySqlRowDeserializer::new(row);
    assert(decoder.remaining() == row@);
    decoder.deserialize_any()
}

} // verus!

//! The description of a database's schema as text: its tables, and the columns
//! of each.

use vstd::prelude::*;
use vstd::string::StringExecFns;
use crate::text::text_view;

verus! {

/// What the engine tells of one column of a table.
#[derive(Debug, PartialEq, Eq)]
pub struct ColumnInfo {
    pub name: String,
    pub column_type: String,
    /// `NO` where the column takes no null.
    pub is_nullable: String,
    pub key: String,
    pub default: Option<String>,
    pub extra: Option<String>,
}

/// One table: its name, where that is text, and its columns in their order.
#[derive(Debug, PartialEq, Eq)]
pub struct TableInfo {
    pub name: Option<String>,
    pub columns: Vec<ColumnInfo>,
}

/// Mathematical model of a [`ColumnInfo`].
pub struct ColumnInfoView {
    pub name: Seq<char>,
    pub column_type: Seq<char>,
    pub is_nullable: Seq<char>,
    pub key: Seq<char>,
    pub default: Option<Seq<char>>,
    pub extra: Option<Seq<char>>,
}

/// Mathematical model of a [`TableInfo`].
pub struct TableInfoView {
    pub name: Option<Seq<char>>,
    pub columns: Seq<ColumnInfoView>,
}

impl View for ColumnInfo {
    type V = ColumnInfoView;

    open spec fn view(&self) -> ColumnInfoView {
        ColumnInfoView {
            name: self.name@,
            column_type: self.column_type@,
            is_nullable: self.is_nullable@,
            key: self.key@,
            default: text_view(self.default),
            extra: text_view(self.extra),
        }
    }
}

impl View for TableInfo {
    type V = TableInfoView;

    open spec fn view(&self) -> TableInfoView {
        TableInfoView {
            name: text_view(self.name),
            columns: Seq::new(self.columns@.len(), |i: int| self.columns@[i]@),
        }
    }
}

/// The models of the tables in a sequence.
pub open spec fn tables_view(tables: Seq<TableInfo>) -> Seq<TableInfoView> {
    Seq::new(tables.len(), |i: int| tables[i]@)
}

/// `text` followed by the label and the value, where there is a value and it
/// is not empty.
pub open spec fn with_part(text: Seq<char>, label: Seq<char>, value: Option<Seq<char>>) -> Seq<
    char,
> {
    match value {
        Some(value) => if value.len() > 0 {
            text + label + value
        } else {
            text
        },
        None => text,
    }
}

/// The line that describes a column, without its end: the name and the type,
/// then what there is of `NOT NULL`, key, default and extra.
pub open spec fn column_text(column: ColumnInfoView) -> Seq<char> {
    let head = "  - "@ + column.name + ": "@ + column.column_type + " "@;
    let nulls = if column.is_nullable == "NO"@ {
        head + "| NOT NULL"@
    } else {
        head
    };
    let key = with_part(nulls, "| KEY: "@, Some(column.key));
    let default = with_part(key, "| DEFAULT: "@, column.default);
    with_part(default, "| EXTRA: "@, column.extra)
}

/// `text` followed by a line for each column.
pub open spec fn with_columns(text: Seq<char>, columns: Seq<ColumnInfoView>) -> Seq<char>
    decreases columns.len(),
{
    if columns.len() == 0 {
        text
    } else {
        with_columns(text, columns.drop_last()) + column_text(columns.last()) + "\n"@
    }
}

/// `text` followed by the description of a table: a heading, a line for each
/// column, and two empty lines. A table whose name is no text is left out.
pub open spec fn with_table(text: Seq<char>, table: TableInfoView) -> Seq<char> {
    match table.name {
        Some(name) => with_columns(text + "Table: "@ + name + "\n"@, table.columns) + "\n\n"@,
        None => text,
    }
}

/// `text` followed by the description of each table.
pub open spec fn with_tables(text: Seq<char>, tables: Seq<TableInfoView>) -> Seq<char>
    decreases tables.len(),
{
    if tables.len() == 0 {
        text
    } else {
        with_table(with_tables(text, tables.drop_last()), tables.last())
    }
}

/// The description of a database's schema.
pub open spec fn schema_text(database: Seq<char>, tables: Seq<TableInfoView>) -> Seq<char> {
    if tables.len() == 0 {
        "No tables found in database '"@ + database + "'."@
    } else {
        with_tables("Schema for database '"@ + database + "':\n\n"@, tables)
    }
}

/// Appends the label and the value to the text, where there is a value and it
/// is not empty.
pub fn append_part(text: &mut String, label: &str, value: &Option<String>)
    ensures
        final(text)@ == with_part(old(text)@, label@, text_view(*value)),
{
    match value {
        Some(value) => {
            if !value.as_str().is_empty() {
                text.append(label);
                text.append(value.as_str());
            }
        },
        None => {},
    }
}

/// The line that describes a column, without its end.
pub fn describe_column(column: &ColumnInfo) -> (text: String)
    ensures
        text@ == column_text(column@),
{
    let mut text = String::from_str("  - ");
    text.append(column.name.as_str());
    text.append(": ");
    text.append(column.column_type.as_str());
    text.append(" ");
    let no = String::from_str("NO");
    if column.is_nullable == no {
        text.append("| NOT NULL");
    }
    if !column.key.as_str().is_empty() {
        text.append("| KEY: ");
        text.append(column.key.as_str());
    }
    append_part(&mut text, "| DEFAULT: ", &column.default);
    append_part(&mut text, "| EXTRA: ", &column.extra);
    text
}

/// Appends the description of a table to the text.
pub fn append_table(text: &mut String, table: &TableInfo)
    ensures
        final(text)@ == with_table(old(text)@, table@),
{
    match &table.name {
        None => {},
        Some(name) => {
            text.append("Table: ");
            text.append(name.as_str());
            text.append("\n");
            let ghost head = text@;
            let ghost columns = table@.columns;
            let mut i: usize = 0;
            while i < table.columns.len()
                invariant
                    i <= table.columns.len(),
                    columns == table@.columns,
                    text@ == with_columns(head, columns.take(i as int)),
                decreases table.columns.len() - i,
            {
                proof {
                    assert(columns.take(i + 1).drop_last() == columns.take(i as int));
                }
                let line = describe_column(&table.columns[i]);
                text.append(line.as_str());
                text.append("\n");
                i += 1;
            }
            proof {
                assert(columns.take(table.columns.len() as int) == columns);
            }
            text.append("\n\n");
        },
    }
}

/// Describes a database's schema: that it has no tables, or each table with
/// its columns.
pub fn describe_schema(database: &str, tables: &Vec<TableInfo>) -> (text: String)
    ensures
        text@ == schema_text(database@, tables_view(tables@)),
{
    if tables.len() == 0 {
        let mut text = String::from_str("No tables found in database '");
        text.append(database);
        text.append("'.");
        return text;
    }
    let mut text = String::from_str("Schema for database '");
    text.append(database);
    text.append("':\n\n");
    let ghost head = text@;
    let ghost all = tables_view(tables@);
    let mut i: usize = 0;
    while i < tables.len()
        invariant
            i <= tables.len(),
            all == tables_view(tables@),
            text@ == with_tables(head, all.take(i as int)),
        decreases tables.len() - i,
    {
        proof {
            assert(all.take(i + 1).drop_last() == all.take(i as int));
        }
        append_table(&mut text, &tables[i]);
        i += 1;
    }
    proof {
        assert(all.take(tables.len() as int) == all);
    }
    text
}

} // verus!

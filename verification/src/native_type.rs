//! Native type names of the engine: the family each belongs to, and the
//! representations in which a cell of that family is asked of the engine.

use vstd::prelude::*;
use crate::text::{
    chars_of, contains_chars, first_word, first_word_of, lemma_word_len, lemma_word_len_is, occurs,
    occurs_at, spells, upper, upper_chars_of, word_len,
};

verus! {

/// The families of native types that are decoded alike.
#[derive(Clone, Copy, Debug, PartialEq, Eq, Structural)]
pub enum TypeFamily {
    /// Single-precision floating point.
    Float,
    /// Double-precision floating point.
    Double,
    /// Fixed-point decimal.
    Decimal,
    /// 64-bit integer.
    BigInt,
    /// 32-bit integer, the 24-bit one included.
    Int,
    /// 16-bit integer.
    SmallInt,
    /// 8-bit integer, which may stand for a boolean flag.
    TinyInt,
    Boolean,
    Date,
    Time,
    DateTime,
    Timestamp,
    /// Fixed or variable binary, which may hold a UUID.
    Binary,
    /// Large binary and geometry.
    Blob,
    /// Characters, enumerations, sets and years.
    Text,
    /// A self-describing payload.
    Json,
    /// Any name that the table does not hold.
    Unknown,
}

/// A representation in which the engine can be asked to decode a cell.
#[derive(Clone, Copy, Debug, PartialEq, Eq, Structural)]
pub enum Target {
    Bool,
    I8,
    I16,
    I32,
    I64,
    U8,
    U16,
    U32,
    U64,
    Single,
    Double,
    Decimal,
    Date,
    Time,
    DateTime,
    Timestamp,
    Uuid,
    Bytes,
    Text,
}

/// The table of type names: the family of an upper-case name.
pub open spec fn family_of_word(word: Seq<char>) -> TypeFamily {
    if word == "FLOAT"@ {
        TypeFamily::Float
    } else if word == "DOUBLE"@ || word == "REAL"@ {
        TypeFamily::Double
    } else if word == "DECIMAL"@ || word == "NUMERIC"@ || word == "NEWDECIMAL"@ {
        TypeFamily::Decimal
    } else if word == "BIGINT"@ {
        TypeFamily::BigInt
    } else if word == "INT"@ || word == "INTEGER"@ || word == "MEDIUMINT"@ {
        TypeFamily::Int
    } else if word == "SMALLINT"@ {
        TypeFamily::SmallInt
    } else if word == "TINYINT"@ {
        TypeFamily::TinyInt
    } else if word == "BOOLEAN"@ || word == "BOOL"@ {
        TypeFamily::Boolean
    } else if word == "DATE"@ {
        TypeFamily::Date
    } else if word == "TIME"@ {
        TypeFamily::Time
    } else if word == "DATETIME"@ {
        TypeFamily::DateTime
    } else if word == "TIMESTAMP"@ {
        TypeFamily::Timestamp
    } else if word == "BINARY"@ || word == "VARBINARY"@ {
        TypeFamily::Binary
    } else if word == "BLOB"@ || word == "TINYBLOB"@ || word == "MEDIUMBLOB"@ || word
        == "LONGBLOB"@ || word == "GEOMETRY"@ {
        TypeFamily::Blob
    } else if word == "CHAR"@ || word == "VARCHAR"@ || word == "TEXT"@ || word == "TINYTEXT"@
        || word == "MEDIUMTEXT"@ || word == "LONGTEXT"@ || word == "ENUM"@ || word == "SET"@
        || word == "YEAR"@ {
        TypeFamily::Text
    } else if word == "JSON"@ {
        TypeFamily::Json
    } else {
        TypeFamily::Unknown
    }
}

/// Whether a family is one of the four widths of integer, whose names may
/// carry qualifiers.
pub open spec fn takes_qualifiers(family: TypeFamily) -> bool {
    family == TypeFamily::BigInt || family == TypeFamily::Int || family == TypeFamily::SmallInt
        || family == TypeFamily::TinyInt
}

/// The family of a native type name, whatever the case of its letters.
///
/// A name that is a name of the table has that name's family. The name of an
/// integer may be followed by a space and qualifiers, and keeps its family.
/// Every other name is unknown.
pub open spec fn family_of(name: Seq<char>) -> TypeFamily {
    let base = family_of_word(first_word(upper(name)));
    if takes_qualifiers(base) {
        base
    } else {
        family_of_word(upper(name))
    }
}

/// Whether a native type name carries the qualifier `unsigned`, in any letter case.
pub open spec fn unsigned_of(name: Seq<char>) -> bool {
    occurs(upper(name), "UNSIGNED"@)
}

/// The integer representation of the given width and signedness.
pub open spec fn integer_target(family: TypeFamily, unsigned: bool) -> Target {
    match family {
        TypeFamily::BigInt => if unsigned { Target::U64 } else { Target::I64 },
        TypeFamily::Int => if unsigned { Target::U32 } else { Target::I32 },
        TypeFamily::SmallInt => if unsigned { Target::U16 } else { Target::I16 },
        _ => if unsigned { Target::U8 } else { Target::I8 },
    }
}

/// The representations in which a cell of this family is asked of the engine,
/// in the order in which they are tried.
pub open spec fn targets_of_family(family: TypeFamily, unsigned: bool) -> Seq<Target> {
    match family {
        TypeFamily::Float => seq![Target::Single],
        TypeFamily::Double => seq![Target::Double],
        TypeFamily::Decimal => seq![Target::Decimal],
        TypeFamily::BigInt | TypeFamily::Int | TypeFamily::SmallInt => seq![
            integer_target(family, unsigned),
        ],
        TypeFamily::TinyInt => seq![Target::Bool, integer_target(family, unsigned)],
        TypeFamily::Boolean => seq![Target::Bool],
        TypeFamily::Date => seq![Target::Date],
        TypeFamily::Time => seq![Target::Time],
        TypeFamily::DateTime => seq![Target::DateTime],
        TypeFamily::Timestamp => seq![Target::Timestamp],
        TypeFamily::Binary => seq![Target::Uuid, Target::Bytes],
        TypeFamily::Blob => seq![Target::Bytes],
        TypeFamily::Text | TypeFamily::Json | TypeFamily::Unknown => seq![Target::Text],
    }
}

/// The representations in which a cell of the named type is asked of the engine.
pub open spec fn targets_of(name: Seq<char>) -> Seq<Target> {
    targets_of_family(family_of(name), unsigned_of(name))
}

/// No name of the table holds a space: a name with one has no family of its
/// own.
pub proof fn lemma_table_names_hold_no_space(word: Seq<char>, at: int)
    requires
        0 <= at < word.len(),
        word[at] == ' ',
    ensures
        family_of_word(word) == TypeFamily::Unknown,
{
    reveal_strlit("JSON");
    reveal_strlit("BIGINT");
    reveal_strlit("INT");
    reveal_strlit("INTEGER");
    reveal_strlit("MEDIUMINT");
    reveal_strlit("SMALLINT");
    reveal_strlit("TINYINT");
    reveal_strlit("FLOAT");
    reveal_strlit("DOUBLE");
    reveal_strlit("REAL");
    reveal_strlit("DECIMAL");
    reveal_strlit("NUMERIC");
    reveal_strlit("NEWDECIMAL");
    reveal_strlit("BOOLEAN");
    reveal_strlit("BOOL");
    reveal_strlit("DATE");
    reveal_strlit("TIME");
    reveal_strlit("DATETIME");
    reveal_strlit("TIMESTAMP");
    reveal_strlit("BINARY");
    reveal_strlit("VARBINARY");
    reveal_strlit("BLOB");
    reveal_strlit("TINYBLOB");
    reveal_strlit("MEDIUMBLOB");
    reveal_strlit("LONGBLOB");
    reveal_strlit("GEOMETRY");
    reveal_strlit("CHAR");
    reveal_strlit("VARCHAR");
    reveal_strlit("TEXT");
    reveal_strlit("TINYTEXT");
    reveal_strlit("MEDIUMTEXT");
    reveal_strlit("LONGTEXT");
    reveal_strlit("ENUM");
    reveal_strlit("SET");
    reveal_strlit("YEAR");
}

/// A name is of a family other than the integers only where it is, whatever
/// the case of its letters, a name of the table and nothing more: one that
/// goes on after a space is unknown.
pub proof fn lemma_only_integers_take_qualifiers(name: Seq<char>)
    requires
        word_len(upper(name)) < name.len(),
        !takes_qualifiers(family_of_word(first_word(upper(name)))),
    ensures
        family_of(name) == TypeFamily::Unknown,
{
    lemma_word_len(upper(name));
    lemma_table_names_hold_no_space(upper(name), word_len(upper(name)) as int);
}

/// A name is of the self-describing family exactly where it is `JSON` in any
/// letter case.
pub proof fn lemma_json_name(name: Seq<char>)
    ensures
        family_of(name) == TypeFamily::Json <==> upper(name) == "JSON"@,
{
    reveal_strlit("JSON");
    reveal_strlit("BIGINT");
    reveal_strlit("INT");
    reveal_strlit("INTEGER");
    reveal_strlit("MEDIUMINT");
    reveal_strlit("SMALLINT");
    reveal_strlit("TINYINT");
    reveal_strlit("FLOAT");
    reveal_strlit("DOUBLE");
    reveal_strlit("REAL");
    reveal_strlit("DECIMAL");
    reveal_strlit("NUMERIC");
    reveal_strlit("NEWDECIMAL");
    reveal_strlit("BOOLEAN");
    reveal_strlit("BOOL");
    reveal_strlit("DATE");
    reveal_strlit("TIME");
    reveal_strlit("DATETIME");
    reveal_strlit("TIMESTAMP");
    reveal_strlit("BINARY");
    reveal_strlit("VARBINARY");
    reveal_strlit("BLOB");
    reveal_strlit("TINYBLOB");
    reveal_strlit("MEDIUMBLOB");
    reveal_strlit("LONGBLOB");
    reveal_strlit("GEOMETRY");
    reveal_strlit("CHAR");
    reveal_strlit("VARCHAR");
    reveal_strlit("TEXT");
    reveal_strlit("TINYTEXT");
    reveal_strlit("MEDIUMTEXT");
    reveal_strlit("LONGTEXT");
    reveal_strlit("ENUM");
    reveal_strlit("SET");
    reveal_strlit("YEAR");
    let folded = upper(name);
    if folded == "JSON"@ {
        lemma_word_len_is(folded, 4);
        assert(first_word(folded) =~= folded);
    }
}

/// The name `INT UNSIGNED` is of the family of 32-bit integers and carries the
/// qualifier, so that a cell of that type is asked of the engine as an
/// unsigned 32-bit number and as nothing else.
pub proof fn lemma_int_unsigned()
    ensures
        family_of("INT UNSIGNED"@) == TypeFamily::Int,
        unsigned_of("INT UNSIGNED"@),
        targets_of("INT UNSIGNED"@) == seq![Target::U32],
{
    reveal_strlit("INT UNSIGNED");
    reveal_strlit("UNSIGNED");
    reveal_strlit("FLOAT");
    reveal_strlit("DOUBLE");
    reveal_strlit("REAL");
    reveal_strlit("DECIMAL");
    reveal_strlit("NUMERIC");
    reveal_strlit("NEWDECIMAL");
    reveal_strlit("BIGINT");
    reveal_strlit("INT");
    let name = "INT UNSIGNED"@;
    assert(upper(name) =~= name);
    lemma_word_len_is(name, 3);
    assert(first_word(name) =~= "INT"@);
    assert(name.subrange(4, 12) =~= "UNSIGNED"@);
    assert(occurs_at(upper(name), "UNSIGNED"@, 4));
    assert(targets_of(name) =~= seq![Target::U32]);
}

/// Looks an upper-case name up in the table of type names.
pub fn family_of_base(word: &Vec<char>) -> (family: TypeFamily)
    ensures
        family == family_of_word(word@),
{
    if spells(word, "FLOAT") {
        TypeFamily::Float
    } else if spells(word, "DOUBLE") || spells(word, "REAL") {
        TypeFamily::Double
    } else if spells(word, "DECIMAL") || spells(word, "NUMERIC") || spells(word, "NEWDECIMAL") {
        TypeFamily::Decimal
    } else if spells(word, "BIGINT") {
        TypeFamily::BigInt
    } else if spells(word, "INT") || spells(word, "INTEGER") || spells(word, "MEDIUMINT") {
        TypeFamily::Int
    } else if spells(word, "SMALLINT") {
        TypeFamily::SmallInt
    } else if spells(word, "TINYINT") {
        TypeFamily::TinyInt
    } else if spells(word, "BOOLEAN") || spells(word, "BOOL") {
        TypeFamily::Boolean
    } else if spells(word, "DATE") {
        TypeFamily::Date
    } else if spells(word, "TIME") {
        TypeFamily::Time
    } else if spells(word, "DATETIME") {
        TypeFamily::DateTime
    } else if spells(word, "TIMESTAMP") {
        TypeFamily::Timestamp
    } else if spells(word, "BINARY") || spells(word, "VARBINARY") {
        TypeFamily::Binary
    } else if spells(word, "BLOB") || spells(word, "TINYBLOB") || spells(word, "MEDIUMBLOB")
        || spells(word, "LONGBLOB") || spells(word, "GEOMETRY") {
        TypeFamily::Blob
    } else if spells(word, "CHAR") || spells(word, "VARCHAR") || spells(word, "TEXT") || spells(
        word,
        "TINYTEXT",
    ) || spells(word, "MEDIUMTEXT") || spells(word, "LONGTEXT") || spells(word, "ENUM") || spells(
        word,
        "SET",
    ) || spells(word, "YEAR") {
        TypeFamily::Text
    } else if spells(word, "JSON") {
        TypeFamily::Json
    } else {
        TypeFamily::Unknown
    }
}

/// The family of a native type name.
pub fn classify(native_type: &str) -> (family: TypeFamily)
    ensures
        family == family_of(native_type@),
{
    let folded = upper_chars_of(native_type);
    let word = first_word_of(&folded);
    let base = family_of_base(&word);
    match base {
        TypeFamily::BigInt | TypeFamily::Int | TypeFamily::SmallInt | TypeFamily::TinyInt => base,
        _ => family_of_base(&folded),
    }
}

/// Whether a native type name carries the qualifier `unsigned`.
pub fn is_unsigned(native_type: &str) -> (unsigned: bool)
    ensures
        unsigned == unsigned_of(native_type@),
{
    let folded = upper_chars_of(native_type);
    let qualifier = chars_of("UNSIGNED");
    contains_chars(&folded, &qualifier)
}

/// The integer representation of the given width and signedness.
pub fn integer_target_of(family: TypeFamily, unsigned: bool) -> (target: Target)
    ensures
        target == integer_target(family, unsigned),
{
    match family {
        TypeFamily::BigInt => if unsigned { Target::U64 } else { Target::I64 },
        TypeFamily::Int => if unsigned { Target::U32 } else { Target::I32 },
        TypeFamily::SmallInt => if unsigned { Target::U16 } else { Target::I16 },
        _ => if unsigned { Target::U8 } else { Target::I8 },
    }
}

/// The representations in which a cell of the named type is asked of the engine,
/// in the order in which they are tried.
pub fn targets(native_type: &str) -> (plan: Vec<Target>)
    ensures
        plan@ == targets_of(native_type@),
{
    let family = classify(native_type);
    let unsigned = is_unsigned(native_type);
    let mut plan: Vec<Target> = Vec::new();
    match family {
        TypeFamily::Float => plan.push(Target::Single),
        TypeFamily::Double => plan.push(Target::Double),
        TypeFamily::Decimal => plan.push(Target::Decimal),
        TypeFamily::BigInt | TypeFamily::Int | TypeFamily::SmallInt => plan.push(
            integer_target_of(family, unsigned),
        ),
        TypeFamily::TinyInt => {
            plan.push(Target::Bool);
            plan.push(integer_target_of(family, unsigned));
        },
        TypeFamily::Boolean => plan.push(Target::Bool),
        TypeFamily::Date => plan.push(Target::Date),
        TypeFamily::Time => plan.push(Target::Time),
        TypeFamily::DateTime => plan.push(Target::DateTime),
        TypeFamily::Timestamp => plan.push(Target::Timestamp),
        TypeFamily::Binary => {
            plan.push(Target::Uuid);
            plan.push(Target::Bytes);
        },
        TypeFamily::Blob => plan.push(Target::Bytes),
        TypeFamily::Text | TypeFamily::Json | TypeFamily::Unknown => plan.push(Target::Text),
    }
    assert(plan@ =~= targets_of(native_type@));
    plan
}

} // verus!

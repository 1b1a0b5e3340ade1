use airy::native_type::{classify, family_of_base, integer_target_of, is_unsigned, targets, Target, TypeFamily};
use airy::text::{chars_of, contains_chars, first_word_of, same_chars, spells, to_upper_char, upper_chars_of};

#[test]
fn every_name_of_the_table_has_its_family() {
    let table = [
        ("FLOAT", TypeFamily::Float),
        ("DOUBLE", TypeFamily::Double),
        ("REAL", TypeFamily::Double),
        ("DECIMAL", TypeFamily::Decimal),
        ("NUMERIC", TypeFamily::Decimal),
        ("NEWDECIMAL", TypeFamily::Decimal),
        ("BIGINT", TypeFamily::BigInt),
        ("INT", TypeFamily::Int),
        ("INTEGER", TypeFamily::Int),
        ("MEDIUMINT", TypeFamily::Int),
        ("SMALLINT", TypeFamily::SmallInt),
        ("TINYINT", TypeFamily::TinyInt),
        ("BOOLEAN", TypeFamily::Boolean),
        ("BOOL", TypeFamily::Boolean),
        ("DATE", TypeFamily::Date),
        ("TIME", TypeFamily::Time),
        ("DATETIME", TypeFamily::DateTime),
        ("TIMESTAMP", TypeFamily::Timestamp),
        ("BINARY", TypeFamily::Binary),
        ("VARBINARY", TypeFamily::Binary),
        ("BLOB", TypeFamily::Blob),
        ("TINYBLOB", TypeFamily::Blob),
        ("MEDIUMBLOB", TypeFamily::Blob),
        ("LONGBLOB", TypeFamily::Blob),
        ("GEOMETRY", TypeFamily::Blob),
        ("CHAR", TypeFamily::Text),
        ("VARCHAR", TypeFamily::Text),
        ("TEXT", TypeFamily::Text),
        ("TINYTEXT", TypeFamily::Text),
        ("MEDIUMTEXT", TypeFamily::Text),
        ("LONGTEXT", TypeFamily::Text),
        ("ENUM", TypeFamily::Text),
        ("SET", TypeFamily::Text),
        ("YEAR", TypeFamily::Text),
        ("JSON", TypeFamily::Json),
    ];
    for (name, family) in table {
        assert_eq!(classify(name), family, "{}", name);
        assert_eq!(classify(&name.to_lowercase()), family, "{}", name);
        assert_eq!(family_of_base(&chars_of(name)), family, "{}", name);
    }
}

#[test]
fn names_outside_the_table_are_unknown() {
    for name in [
        "", " ", "BIT", "NULL", "INTS", "IN", "JSONB", "FLOAT4", " INT", "ſET", "unsigned", "DATE X",
        "JSON X", "JSON ", "DOUBLE PRECISION", "FLOAT UNSIGNED", "BOOLEAN UNSIGNED", "INT\tUNSIGNED",
        "INTUNSIGNED",
    ] {
        assert_eq!(classify(name), TypeFamily::Unknown, "{:?}", name);
    }
    assert_eq!(family_of_base(&chars_of("int")), TypeFamily::Unknown);
}

#[test]
fn a_qualifier_does_not_change_the_family() {
    assert_eq!(classify("INT UNSIGNED"), TypeFamily::Int);
    assert_eq!(classify("bigint unsigned zerofill"), TypeFamily::BigInt);
    assert_eq!(classify("TinyInt Unsigned"), TypeFamily::TinyInt);
    assert_eq!(classify("smallint unsigned"), TypeFamily::SmallInt);
    assert_eq!(classify("MEDIUMINT UNSIGNED"), TypeFamily::Int);
    assert_eq!(classify("INTEGER SIGNED"), TypeFamily::Int);
    assert_eq!(classify("INT "), TypeFamily::Int);
}

#[test]
fn unsigned_is_found_in_any_letter_case() {
    assert!(is_unsigned("INT UNSIGNED"));
    assert!(is_unsigned("int unsigned"));
    assert!(is_unsigned("BIGINT UnSiGnEd ZEROFILL"));
    assert!(is_unsigned("unsigned"));
    assert!(!is_unsigned("INT"));
    assert!(!is_unsigned("INT UNSIGNE"));
    assert!(!is_unsigned("INT SIGNED"));
    assert!(!is_unsigned(""));
}

#[test]
fn targets_are_asked_in_order() {
    assert_eq!(targets("FLOAT"), vec![Target::Single]);
    assert_eq!(targets("REAL"), vec![Target::Double]);
    assert_eq!(targets("NUMERIC"), vec![Target::Decimal]);
    assert_eq!(targets("BIGINT"), vec![Target::I64]);
    assert_eq!(targets("BIGINT UNSIGNED"), vec![Target::U64]);
    assert_eq!(targets("INT"), vec![Target::I32]);
    assert_eq!(targets("MEDIUMINT UNSIGNED"), vec![Target::U32]);
    assert_eq!(targets("SMALLINT"), vec![Target::I16]);
    assert_eq!(targets("SMALLINT UNSIGNED"), vec![Target::U16]);
    assert_eq!(targets("TINYINT"), vec![Target::Bool, Target::I8]);
    assert_eq!(targets("TINYINT UNSIGNED"), vec![Target::Bool, Target::U8]);
    assert_eq!(targets("BOOLEAN"), vec![Target::Bool]);
    assert_eq!(targets("DATE"), vec![Target::Date]);
    assert_eq!(targets("TIME"), vec![Target::Time]);
    assert_eq!(targets("DATETIME"), vec![Target::DateTime]);
    assert_eq!(targets("TIMESTAMP"), vec![Target::Timestamp]);
    assert_eq!(targets("BINARY"), vec![Target::Uuid, Target::Bytes]);
    assert_eq!(targets("LONGBLOB"), vec![Target::Bytes]);
    assert_eq!(targets("VARCHAR"), vec![Target::Text]);
    assert_eq!(targets("JSON"), vec![Target::Text]);
    assert_eq!(targets("WHATEVER"), vec![Target::Text]);
    assert_eq!(integer_target_of(TypeFamily::TinyInt, true), Target::U8);
    assert_eq!(integer_target_of(TypeFamily::BigInt, false), Target::I64);
}

#[test]
fn folding_touches_ascii_letters_only() {
    assert_eq!(to_upper_char('a'), 'A');
    assert_eq!(to_upper_char('z'), 'Z');
    assert_eq!(to_upper_char('A'), 'A');
    assert_eq!(to_upper_char('{'), '{');
    assert_eq!(to_upper_char('`'), '`');
    assert_eq!(to_upper_char('é'), 'é');
    assert_eq!(upper_chars_of("a1 éz"), chars_of("A1 éZ"));
}

#[test]
fn words_and_searches() {
    assert_eq!(first_word_of(&chars_of("INT UNSIGNED")), chars_of("INT"));
    assert_eq!(first_word_of(&chars_of("INT")), chars_of("INT"));
    assert_eq!(first_word_of(&chars_of(" INT")), chars_of(""));
    assert_eq!(first_word_of(&chars_of("")), chars_of(""));
    assert!(spells(&chars_of("JSON"), "JSON"));
    assert!(!spells(&chars_of("JSON"), "JSO"));
    assert!(!same_chars(&chars_of("ab"), &chars_of("ba")));
    assert!(contains_chars(&chars_of("abc"), &chars_of("")));
    assert!(contains_chars(&chars_of("abc"), &chars_of("bc")));
    assert!(contains_chars(&chars_of("abc"), &chars_of("abc")));
    assert!(!contains_chars(&chars_of("abc"), &chars_of("abcd")));
    assert!(!contains_chars(&chars_of("abc"), &chars_of("ac")));
    assert!(!contains_chars(&chars_of(""), &chars_of("a")));
}

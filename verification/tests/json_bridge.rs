use airy::cell::{payload_outcome, Attempt, Cell, Native};
use airy::error::{DecodeError, ErrorKind};
use airy::json::{
    decode_items, decode_members, decode_tree, find_member, match_fields, member_keys, Json, Member,
    MySqlJson,
};
use airy::native_type::Target;
use airy::seq_access::MySqlArraySeqAccess;
use airy::value::{Decoded, Field};

fn json_cell(text: &str) -> Cell {
    Cell {
        native_type: "JSON".to_string(),
        null: false,
        attempts: vec![Attempt::Got(Native::Text(text.to_string()))],
    }
}

fn member(key: &str, value: Json) -> Member {
    Member { key: key.to_string(), value }
}

fn field(name: &str, value: Decoded) -> Field {
    Field { name: name.to_string(), value }
}

fn names(list: &[&str]) -> Vec<String> {
    list.iter().map(|name| name.to_string()).collect()
}

fn parse(text: &str) -> Json {
    MySqlJson::decode(&json_cell(text)).unwrap().0
}

#[test]
fn parse_gives_the_document_tree() {
    assert_eq!(parse("null"), Json::Null);
    assert_eq!(parse("true"), Json::Bool(true));
    assert_eq!(parse("0"), Json::Unsigned(0));
    assert_eq!(parse("18446744073709551615"), Json::Unsigned(u64::MAX));
    assert_eq!(parse("-9223372036854775808"), Json::Signed(i64::MIN));
    assert_eq!(parse("1.5"), Json::Real(1.5f64.to_bits()));
    assert_eq!(parse("1e2"), Json::Real(100.0f64.to_bits()));
    assert_eq!(parse("18446744073709551616"), Json::Real(18446744073709551616.0f64.to_bits()));
    assert_eq!(parse("\"a\\u00e9\""), Json::Text("aé".to_string()));
    assert_eq!(parse(" [1, [2], {}] "), Json::Array(vec![
        Json::Unsigned(1),
        Json::Array(vec![Json::Unsigned(2)]),
        Json::Object(vec![]),
    ]));
}

#[test]
fn parse_hands_out_members_by_key_and_keeps_the_last_of_equal_keys() {
    assert_eq!(
        parse(r#"{"b":1,"a":2,"b":3}"#),
        Json::Object(vec![member("a", Json::Unsigned(2)), member("b", Json::Unsigned(3))])
    );
}

#[test]
fn parse_is_the_same_each_time() {
    let cell = json_cell(r#"{"k":[1,2,{"z":null}]}"#);
    assert_eq!(MySqlJson::decode(&cell), MySqlJson::decode(&cell));
    let bad = json_cell("[1,");
    assert_eq!(MySqlJson::decode(&bad), MySqlJson::decode(&bad));
}

#[test]
fn parse_failure_carries_the_words_of_the_parser() {
    let error = MySqlJson::decode(&json_cell("[1,")).unwrap_err();
    assert_eq!(error.kind(), ErrorKind::PayloadParse);
    assert_eq!(
        error,
        DecodeError::PayloadParse {
            words: "Error(\"EOF while parsing a value\", line: 1, column: 3)".to_string()
        }
    );
    assert_eq!(
        payload_outcome(Err("words".to_string())),
        Err(DecodeError::PayloadParse { words: "words".to_string() })
    );
    assert_eq!(payload_outcome(Ok(Json::Bool(true))), Ok(Json::Bool(true)));
}

#[test]
fn payload_of_a_cell_without_text_fails_as_the_engine_did() {
    let cell = Cell {
        native_type: "JSON".to_string(),
        null: false,
        attempts: vec![Attempt::Failed { target: Target::Text, words: "invalid utf-8".to_string() }],
    };
    assert_eq!(
        MySqlJson::decode(&cell),
        Err(DecodeError::ValueFailure {
            target: Target::Text,
            detail: "invalid utf-8".to_string()
        })
    );
}

#[test]
fn tree_decodes_element_by_element() {
    let document = Json::Object(vec![
        member("n", Json::Null),
        member("list", Json::Array(vec![Json::Signed(-1), Json::Text("t".to_string())])),
        member("inner", Json::Object(vec![member("x", Json::Real(0.5f64.to_bits()))])),
    ]);
    let expected = Decoded::Mapping(vec![
        field("n", Decoded::Null),
        field("list", Decoded::Sequence(vec![Decoded::I64(-1), Decoded::Text("t".to_string())])),
        field("inner", Decoded::Mapping(vec![field("x", Decoded::Double(0.5f64.to_bits()))])),
    ]);
    assert_eq!(decode_tree(&document), expected);
    assert_eq!(MySqlJson(document).into_deserializer().deserialize_any(), expected);
    assert_eq!(decode_items(&vec![]), vec![]);
    assert_eq!(decode_members(&vec![member("k", Json::Bool(false))]), vec![field(
        "k",
        Decoded::Bool(false)
    )]);
}

#[test]
fn array_of_numbers_decodes_to_the_sequence() {
    let mut access = MySqlArraySeqAccess::new(&json_cell("[1,2,3]")).unwrap();
    assert_eq!(access.next_element(), Some(Decoded::U64(1)));
    assert_eq!(access.next_element(), Some(Decoded::U64(2)));
    assert_eq!(access.next_element(), Some(Decoded::U64(3)));
    assert_eq!(access.next_element(), None);
    assert_eq!(access.next_element(), None);
}

#[test]
fn array_access_refuses_what_is_no_array() {
    let object = MySqlArraySeqAccess::new(&json_cell("{\"a\":1}")).err().unwrap();
    assert_eq!(
        object,
        DecodeError::NotAnArray {
            native_type: "JSON".to_string(),
            printed: "Object {\"a\": Number(1)}".to_string()
        }
    );
    assert_eq!(object.kind(), ErrorKind::TypeMismatch);
    assert_eq!(
        object.message(),
        "Expected a JSON array, got type 'JSON' (decoded JSON was: Object {\"a\": Number(1)})"
    );
    assert_eq!(
        MySqlArraySeqAccess::new(&json_cell("7")).err(),
        Some(DecodeError::NotAnArray {
            native_type: "JSON".to_string(),
            printed: "Number(7)".to_string()
        })
    );
    let error = MySqlArraySeqAccess::new(&json_cell("[")).err().unwrap();
    assert_eq!(error.kind(), ErrorKind::PayloadParse);
    assert!(MySqlArraySeqAccess::over(MySqlJson(Json::Null)).is_none());
    assert!(MySqlArraySeqAccess::over(MySqlJson(Json::Object(vec![]))).is_none());
    let mut access = MySqlArraySeqAccess::over(MySqlJson(Json::Array(vec![Json::Bool(true)]))).unwrap();
    assert_eq!(access.next_element(), Some(Decoded::Bool(true)));
    assert_eq!(access.next_element(), None);
}

#[test]
fn two_fields_against_an_object_that_lacks_one_fail() {
    let object = vec![member("a", Json::Unsigned(1))];
    let error = match_fields(&object, &names(&["a", "b"])).unwrap_err();
    assert_eq!(error.kind(), ErrorKind::FieldSetMismatch);
    assert_eq!(
        error,
        DecodeError::FieldSetMismatch {
            expected: names(&["a", "b"]),
            present: names(&["a"]),
            missing: "b".to_string(),
        }
    );
    assert_eq!(
        error.message(),
        "JSON object missing expected keys: expected [\"a\", \"b\"], found keys [\"a\"]"
    );
}

#[test]
fn one_field_that_is_no_key_takes_the_whole_object() {
    let object = vec![member("x", Json::Unsigned(1)), member("y", Json::Unsigned(2))];
    assert_eq!(
        match_fields(&object, &names(&["a"])),
        Ok(Decoded::Mapping(vec![field(
            "a",
            Decoded::Mapping(vec![field("x", Decoded::U64(1)), field("y", Decoded::U64(2))])
        )]))
    );
}

#[test]
fn one_field_that_is_a_key_takes_its_value() {
    let object = vec![member("a", Json::Text("v".to_string())), member("b", Json::Null)];
    assert_eq!(
        match_fields(&object, &names(&["a"])),
        Ok(Decoded::Mapping(vec![field("a", Decoded::Text("v".to_string()))]))
    );
}

#[test]
fn several_fields_are_looked_up_by_key_in_the_order_asked() {
    let object = vec![
        member("a", Json::Unsigned(1)),
        member("b", Json::Unsigned(2)),
        member("c", Json::Unsigned(3)),
    ];
    assert_eq!(
        match_fields(&object, &names(&["c", "a"])),
        Ok(Decoded::Mapping(vec![field("c", Decoded::U64(3)), field("a", Decoded::U64(1))]))
    );
    assert_eq!(match_fields(&object, &names(&[])), Ok(Decoded::Mapping(vec![])));
}

#[test]
fn keys_are_matched_with_their_letter_case() {
    let object = vec![member("A", Json::Unsigned(1)), member("b", Json::Unsigned(2))];
    assert_eq!(
        match_fields(&object, &names(&["a", "b"])),
        Err(DecodeError::FieldSetMismatch {
            expected: names(&["a", "b"]),
            present: names(&["A", "b"]),
            missing: "a".to_string(),
        })
    );
    assert_eq!(
        match_fields(&object, &names(&["a"])),
        Ok(Decoded::Mapping(vec![field(
            "a",
            Decoded::Mapping(vec![field("A", Decoded::U64(1)), field("b", Decoded::U64(2))])
        )]))
    );
}

#[test]
fn the_first_of_equal_keys_is_found_and_the_first_missing_field_is_named() {
    let object =
        vec![member("k", Json::Unsigned(1)), member("k", Json::Unsigned(2)), member("z", Json::Null)];
    assert_eq!(find_member(&object, &"k".to_string()), Some(&Json::Unsigned(1)));
    assert_eq!(find_member(&object, &"K".to_string()), None);
    assert_eq!(member_keys(&object), names(&["k", "k", "z"]));
    assert_eq!(
        match_fields(&object, &names(&["k", "p", "q"])),
        Err(DecodeError::FieldSetMismatch {
            expected: names(&["k", "p", "q"]),
            present: names(&["k", "k", "z"]),
            missing: "p".to_string(),
        })
    );
}

fn as_tree(value: &Decoded) -> serde_json::Value {
    match value {
        Decoded::Unit | Decoded::Null => serde_json::Value::Null,
        Decoded::Bool(flag) => serde_json::Value::from(*flag),
        Decoded::I8(n) => serde_json::Value::from(*n),
        Decoded::I16(n) => serde_json::Value::from(*n),
        Decoded::I32(n) => serde_json::Value::from(*n),
        Decoded::I64(n) => serde_json::Value::from(*n),
        Decoded::U8(n) => serde_json::Value::from(*n),
        Decoded::U16(n) => serde_json::Value::from(*n),
        Decoded::U32(n) => serde_json::Value::from(*n),
        Decoded::U64(n) => serde_json::Value::from(*n),
        Decoded::Single(bits) => serde_json::Value::from(f32::from_bits(*bits)),
        Decoded::Double(bits) => serde_json::Value::from(f64::from_bits(*bits)),
        Decoded::Text(text) => serde_json::Value::from(text.as_str()),
        Decoded::Bytes(bytes) => serde_json::Value::from(bytes.clone()),
        Decoded::Sequence(items) => serde_json::Value::Array(items.iter().map(as_tree).collect()),
        Decoded::Mapping(fields) => serde_json::Value::Object(
            fields.iter().map(|f| (f.name.clone(), as_tree(&f.value))).collect(),
        ),
    }
}

fn reparsed(value: &Decoded) -> Decoded {
    let text = serde_json::to_string(&as_tree(value)).unwrap();
    decode_tree(&parse(&text))
}

#[test]
fn scalars_survive_encoding_and_parsing_again() {
    let scalars = vec![
        Decoded::Null,
        Decoded::Bool(true),
        Decoded::I8(-8),
        Decoded::I16(-1600),
        Decoded::I32(-320000),
        Decoded::I64(i64::MIN),
        Decoded::U8(8),
        Decoded::U16(1600),
        Decoded::U32(4294967295),
        Decoded::U64(u64::MAX),
        Decoded::Single(0.25f32.to_bits()),
        Decoded::Double(1234.5678f64.to_bits()),
        Decoded::Text("2024-02-29".to_string()),
        Decoded::Text("quote \" and \\ and \n".to_string()),
        Decoded::Bytes(vec![0, 127, 255]),
    ];
    for scalar in scalars.iter() {
        let again = reparsed(scalar);
        assert_eq!(as_tree(&again), as_tree(scalar));
        assert_eq!(reparsed(&again), again);
    }
}

#[test]
fn documents_survive_encoding_and_parsing_again() {
    let document =
        decode_tree(&parse(r#"{"a":[1,-2,3.5,"s",null,true],"b":{"c":{"d":[]}},"e":""}"#));
    assert_eq!(reparsed(&document), document);
}

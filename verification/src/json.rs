//! Self-describing payloads: the document tree, its parsing by `serde_json`,
//! and its decoding into values and fixed-field records.

use vstd::prelude::*;
use crate::error::{names_view, DecodeError, DecodeErrorView};
use crate::value::{fields_view, lemma_value_view, values_view, Decoded, DecodedView, Field, FieldView};

verus! {

/// One member of an object: a key and the document under it.
#[derive(Debug, PartialEq, Eq)]
pub struct Member {
    pub key: String,
    pub value: Json,
}

/// A parsed document. A number is an unsigned integer, a negative integer, or a
/// double carried as its IEEE 754 bit pattern.
#[derive(Debug, PartialEq, Eq)]
pub enum Json {
    Null,
    Bool(bool),
    Unsigned(u64),
    Signed(i64),
    Real(u64),
    Text(String),
    Array(Vec<Json>),
    Object(Vec<Member>),
}

/// Mathematical model of a [`Member`].
pub struct MemberView {
    pub key: Seq<char>,
    pub value: JsonView,
}

/// Mathematical model of a [`Json`] document.
pub enum JsonView {
    Null,
    Bool(bool),
    Unsigned(u64),
    Signed(i64),
    Real(u64),
    Text(Seq<char>),
    Array(Seq<JsonView>),
    Object(Seq<MemberView>),
}

impl Json {
    /// The model of this document, built from the models of its parts.
    pub open spec fn model(self) -> JsonView
        decreases self,
    {
        match self {
            Json::Null => JsonView::Null,
            Json::Bool(flag) => JsonView::Bool(flag),
            Json::Unsigned(number) => JsonView::Unsigned(number),
            Json::Signed(number) => JsonView::Signed(number),
            Json::Real(bits) => JsonView::Real(bits),
            Json::Text(text) => JsonView::Text(text@),
            Json::Array(items) => JsonView::Array(
                Seq::new(
                    items@.len(),
                    |i: int|
                        if 0 <= i < items@.len() {
                            items@[i].model()
                        } else {
                            JsonView::Null
                        },
                ),
            ),
            Json::Object(members) => JsonView::Object(
                Seq::new(
                    members@.len(),
                    |i: int|
                        if 0 <= i < members@.len() {
                            MemberView {
                                key: members@[i].key@,
                                value: members@[i].value.model(),
                            }
                        } else {
                            MemberView { key: Seq::empty(), value: JsonView::Null }
                        },
                ),
            ),
        }
    }
}

impl View for Json {
    type V = JsonView;

    open spec fn view(&self) -> JsonView {
        self.model()
    }
}

impl View for Member {
    type V = MemberView;

    open spec fn view(&self) -> MemberView {
        MemberView { key: self.key@, value: self.value@ }
    }
}

/// The models of the documents in a sequence.
pub open spec fn items_view(items: Seq<Json>) -> Seq<JsonView> {
    Seq::new(items.len(), |i: int| items[i]@)
}

/// The models of the members in a sequence.
pub open spec fn members_view(members: Seq<Member>) -> Seq<MemberView> {
    Seq::new(members.len(), |i: int| members[i]@)
}

/// The model of an array holds the models of its items, and that of an object
/// the models of its members.
pub proof fn lemma_json_view(json: Json)
    ensures
        json matches Json::Array(items) ==> json@ == JsonView::Array(items_view(items@)),
        json matches Json::Object(members) ==> json@ == JsonView::Object(members_view(members@)),
{
    match json {
        Json::Array(items) => {
            assert(json@->Array_0 =~= items_view(items@));
        },
        Json::Object(members) => {
            assert(json@->Object_0 =~= members_view(members@));
        },
        _ => {},
    }
}

/// What `serde_json` makes of a text: the document it parses, or its error as
/// that prints for debugging.
pub uninterp spec fn json_document(text: Seq<char>) -> Result<JsonView, Seq<char>>;

/// How the document that `serde_json` parses from a text prints for
/// debugging; nothing where the text is no document.
pub uninterp spec fn document_debug(text: Seq<char>) -> Seq<char>;

/// The model of the outcome of parsing.
pub open spec fn parsed_view(parsed: Result<Json, String>) -> Result<JsonView, Seq<char>> {
    match parsed {
        Ok(document) => Ok(document@),
        Err(words) => Err(words@),
    }
}

/// `serde_json::Value`, the document as `serde_json` parses it. Nothing of
/// what it holds is known here.
#[verifier::external_type_specification]
#[verifier::external_body]
pub struct ExValue(serde_json::Value);

/// `serde_json::Number`, a number of such a document. Nothing of what it
/// holds is known here.
#[verifier::external_type_specification]
#[verifier::external_body]
pub struct ExNumber(serde_json::Number);

/// Tells the three forms of a `serde_json::Number` apart with `as_u64`,
/// `as_i64` and `as_f64`, and moves the number over. Nothing is claimed of it.
#[verifier::external_body]
fn lift_number(number: &serde_json::Number) -> Json {
    match (number.as_u64(), number.as_i64(), number.as_f64()) {
        (Some(value), _, _) => Json::Unsigned(value),
        (_, Some(value), _) => Json::Signed(value),
        (_, _, Some(value)) => Json::Real(value.to_bits()),
        _ => Json::Null,
    }
}

/// Moves a `serde_json::Value` over into a [`Json`], variant by variant, the
/// members of an object in the order in which its map hands them out. Nothing
/// is claimed of it.
#[verifier::external_body]
fn lift(value: serde_json::Value) -> Json {
    match value {
        serde_json::Value::Null => Json::Null,
        serde_json::Value::Bool(flag) => Json::Bool(flag),
        serde_json::Value::Number(number) => lift_number(&number),
        serde_json::Value::String(text) => Json::Text(text),
        serde_json::Value::Array(items) => Json::Array(items.into_iter().map(lift).collect()),
        serde_json::Value::Object(members) => Json::Object(
            members.into_iter().map(|(key, value)| Member { key, value: lift(value) }).collect(),
        ),
    }
}

/// Calls `serde_json::from_str` for a `serde_json::Value`, and prints an error
/// with its `Debug`. The contract names the outcome: the same text always
/// gives the same document, or the same words of error.
#[verifier::external_body]
pub(crate) fn parse_text(text: &str) -> (parsed: Result<Json, String>)
    ensures
        parsed_view(parsed) == json_document(text@),
{
    match serde_json::from_str::<serde_json::Value>(text) {
        Ok(value) => Ok(lift(value)),
        Err(error) => Err(format!("{:?}", error)),
    }
}

/// Calls `serde_json::from_str` for a `serde_json::Value` and prints the
/// document with its `Debug`; hands back the empty text where the text is no
/// document. The contract names the text.
#[verifier::external_body]
pub(crate) fn print_parsed(text: &str) -> (printed: String)
    ensures
        printed@ == document_debug(text@),
{
    let parsed = serde_json::from_str::<serde_json::Value>(text).ok();
    parsed.map(|value| format!("{:?}", value)).unwrap_or_default()
}

/// The value that a document decodes to: a scalar for a scalar, a sequence for
/// an array, a mapping for an object, each element decoded in turn.
pub open spec fn decoded_of(json: JsonView) -> DecodedView
    decreases json,
{
    match json {
        JsonView::Null => DecodedView::Null,
        JsonView::Bool(flag) => DecodedView::Bool(flag),
        JsonView::Unsigned(number) => DecodedView::U64(number),
        JsonView::Signed(number) => DecodedView::I64(number),
        JsonView::Real(bits) => DecodedView::Double(bits),
        JsonView::Text(text) => DecodedView::Text(text),
        JsonView::Array(items) => DecodedView::Sequence(
            Seq::new(
                items.len(),
                |i: int|
                    if 0 <= i < items.len() {
                        decoded_of(items[i])
                    } else {
                        DecodedView::Null
                    },
            ),
        ),
        JsonView::Object(members) => DecodedView::Mapping(
            Seq::new(
                members.len(),
                |i: int|
                    if 0 <= i < members.len() {
                        FieldView { name: members[i].key, value: decoded_of(members[i].value) }
                    } else {
                        FieldView { name: Seq::empty(), value: DecodedView::Null }
                    },
            ),
        ),
    }
}

/// The values that the items of an array decode to.
pub open spec fn decoded_items(items: Seq<JsonView>) -> Seq<DecodedView> {
    Seq::new(items.len(), |i: int| decoded_of(items[i]))
}

/// The fields that the members of an object decode to.
pub open spec fn decoded_members(members: Seq<MemberView>) -> Seq<FieldView> {
    Seq::new(
        members.len(),
        |i: int| FieldView { name: members[i].key, value: decoded_of(members[i].value) },
    )
}

/// An array decodes to the sequence of what its items decode to, an object to
/// the mapping of what its members decode to.
pub proof fn lemma_decoded_of(json: JsonView)
    ensures
        json matches JsonView::Array(items) ==> decoded_of(json) == DecodedView::Sequence(
            decoded_items(items),
        ),
        json matches JsonView::Object(members) ==> decoded_of(json) == DecodedView::Mapping(
            decoded_members(members),
        ),
{
    match json {
        JsonView::Array(items) => {
            assert(decoded_of(json)->Sequence_0 =~= decoded_items(items));
        },
        JsonView::Object(members) => {
            assert(decoded_of(json)->Mapping_0 =~= decoded_members(members));
        },
        _ => {},
    }
}

/// The document that a value stands for, where it is the value of one: the
/// inverse of [`decoded_of`]. Values that no document decodes to stand for the
/// null document.
pub open spec fn document_of(value: DecodedView) -> JsonView
    decreases value,
{
    match value {
        DecodedView::Bool(flag) => JsonView::Bool(flag),
        DecodedView::U64(number) => JsonView::Unsigned(number),
        DecodedView::I64(number) => JsonView::Signed(number),
        DecodedView::Double(bits) => JsonView::Real(bits),
        DecodedView::Text(text) => JsonView::Text(text),
        DecodedView::Sequence(items) => JsonView::Array(
            Seq::new(
                items.len(),
                |i: int|
                    if 0 <= i < items.len() {
                        document_of(items[i])
                    } else {
                        JsonView::Null
                    },
            ),
        ),
        DecodedView::Mapping(fields) => JsonView::Object(
            Seq::new(
                fields.len(),
                |i: int|
                    if 0 <= i < fields.len() {
                        MemberView { key: fields[i].name, value: document_of(fields[i].value) }
                    } else {
                        MemberView { key: Seq::empty(), value: JsonView::Null }
                    },
            ),
        ),
        _ => JsonView::Null,
    }
}

/// Decoding a document loses nothing: the value it decodes to stands for the
/// document itself, so two documents that decode to equal values are equal.
pub proof fn lemma_tree_round_trip(json: JsonView)
    ensures
        document_of(decoded_of(json)) == json,
    decreases json,
{
    match json {
        JsonView::Array(items) => {
            let back = document_of(decoded_of(json))->Array_0;
            assert forall|i: int| 0 <= i < items.len() implies back[i] == items[i] by {
                lemma_tree_round_trip(items[i]);
            }
            assert(back =~= items);
        },
        JsonView::Object(members) => {
            let back = document_of(decoded_of(json))->Object_0;
            assert forall|i: int| 0 <= i < members.len() implies back[i] == members[i] by {
                lemma_tree_round_trip(members[i].value);
            }
            assert(back =~= members);
        },
        _ => {},
    }
}

/// Decodes a document into a value, element by element.
pub fn decode_tree(json: &Json) -> (value: Decoded)
    ensures
        value@ == decoded_of(json@),
    decreases json, 1nat,
{
    proof {
        lemma_json_view(*json);
        lemma_decoded_of(json@);
    }
    match json {
        Json::Null => Decoded::Null,
        Json::Bool(flag) => Decoded::Bool(*flag),
        Json::Unsigned(number) => Decoded::U64(*number),
        Json::Signed(number) => Decoded::I64(*number),
        Json::Real(bits) => Decoded::Double(*bits),
        Json::Text(text) => Decoded::Text(text.clone()),
        Json::Array(items) => {
            let values = decode_items(items);
            let decoded = Decoded::Sequence(values);
            proof {
                lemma_value_view(decoded);
            }
            decoded
        },
        Json::Object(members) => {
            let fields = decode_members(members);
            let decoded = Decoded::Mapping(fields);
            proof {
                lemma_value_view(decoded);
            }
            decoded
        },
    }
}

/// Decodes the items of an array, each into a value.
pub fn decode_items(items: &Vec<Json>) -> (values: Vec<Decoded>)
    ensures
        values_view(values@) == decoded_items(items_view(items@)),
    decreases items, 0nat,
{
    let mut values: Vec<Decoded> = Vec::new();
    let mut i: usize = 0;
    while i < items.len()
        invariant
            i <= items.len(),
            values.len() == i,
            forall|k: int| 0 <= k < i ==> values@[k]@ == decoded_of(items@[k]@),
        decreases items.len() - i,
    {
        let value = decode_tree(&items[i]);
        values.push(value);
        i += 1;
    }
    assert(values_view(values@) =~= decoded_items(items_view(items@)));
    values
}

/// Decodes the members of an object, each into a field of the same name.
pub fn decode_members(members: &Vec<Member>) -> (fields: Vec<Field>)
    ensures
        fields_view(fields@) == decoded_members(members_view(members@)),
    decreases members, 0nat,
{
    let mut fields: Vec<Field> = Vec::new();
    let mut i: usize = 0;
    while i < members.len()
        invariant
            i <= members.len(),
            fields.len() == i,
            forall|k: int|
                0 <= k < i ==> fields@[k]@ == (FieldView {
                    name: members@[k].key@,
                    value: decoded_of(members@[k].value@),
                }),
        decreases members.len() - i,
    {
        let value = decode_tree(&members[i].value);
        fields.push(Field { name: members[i].key.clone(), value });
        i += 1;
    }
    assert(fields_view(fields@) =~= decoded_members(members_view(members@)));
    fields
}

/// The document under the first member of that key, if there is one. Keys are
/// compared character by character: letter case counts.
pub open spec fn lookup(members: Seq<MemberView>, key: Seq<char>) -> Option<JsonView>
    decreases members.len(),
{
    if members.len() == 0 {
        None
    } else if members[0].key == key {
        Some(members[0].value)
    } else {
        lookup(members.drop_first(), key)
    }
}

/// The keys of the members, in order.
pub open spec fn keys_of(members: Seq<MemberView>) -> Seq<Seq<char>> {
    Seq::new(members.len(), |i: int| members[i].key)
}

/// The position of the first of `fields` that is no key of `members`.
pub open spec fn first_absent(members: Seq<MemberView>, fields: Seq<Seq<char>>) -> Option<int>
    decreases fields.len(),
{
    if fields.len() == 0 {
        None
    } else if lookup(members, fields.last()) is None && first_absent(
        members,
        fields.drop_last(),
    ) is None {
        Some(fields.len() - 1)
    } else {
        first_absent(members, fields.drop_last())
    }
}

/// The record of the given fields, each decoded from the member of its name.
pub open spec fn picked(members: Seq<MemberView>, fields: Seq<Seq<char>>) -> Seq<FieldView> {
    Seq::new(
        fields.len(),
        |i: int| FieldView { name: fields[i], value: decoded_of(lookup(members, fields[i])->0) },
    )
}

/// What a request for a closed set of fields makes of an object.
///
/// A single field that is no key of the object takes the whole object as its
/// value. In every other case each field takes the value under its key, and the
/// request fails where a key is missing.
pub open spec fn record_of(members: Seq<MemberView>, fields: Seq<Seq<char>>) -> Result<
    DecodedView,
    DecodeErrorView,
> {
    if fields.len() == 1 && lookup(members, fields[0]) is None {
        Ok(
            DecodedView::Mapping(
                seq![
                    FieldView {
                        name: fields[0],
                        value: DecodedView::Mapping(decoded_members(members)),
                    },
                ],
            ),
        )
    } else {
        match first_absent(members, fields) {
            None => Ok(DecodedView::Mapping(picked(members, fields))),
            Some(at) => Err(
                DecodeErrorView::FieldSetMismatch {
                    expected: fields,
                    present: keys_of(members),
                    missing: fields[at],
                },
            ),
        }
    }
}

/// `first_absent` is the least position of a field without a member.
pub proof fn lemma_first_absent(members: Seq<MemberView>, fields: Seq<Seq<char>>)
    ensures
        match first_absent(members, fields) {
            Some(at) => 0 <= at < fields.len() && lookup(members, fields[at]) is None && forall|
                k: int,
            | 0 <= k < at ==> lookup(members, fields[k]) is Some,
            None => forall|k: int| 0 <= k < fields.len() ==> lookup(members, fields[k]) is Some,
        },
    decreases fields.len(),
{
    if fields.len() > 0 {
        let front = fields.drop_last();
        lemma_first_absent(members, front);
        assert forall|k: int| 0 <= k < front.len() implies front[k] == fields[k] by {}
    }
}

/// A request for a single field never fails: the field takes the value under
/// its key, or the whole object where the object has no such key.
pub proof fn lemma_single_field_is_lenient(members: Seq<MemberView>, field: Seq<char>)
    ensures
        record_of(members, seq![field]) is Ok,
        lookup(members, field) matches Some(document) ==> record_of(members, seq![field]) == Ok::<
            DecodedView,
            DecodeErrorView,
        >(DecodedView::Mapping(seq![FieldView { name: field, value: decoded_of(document) }])),
        lookup(members, field) is None ==> record_of(members, seq![field]) == Ok::<
            DecodedView,
            DecodeErrorView,
        >(
            DecodedView::Mapping(
                seq![
                    FieldView {
                        name: field,
                        value: DecodedView::Mapping(decoded_members(members)),
                    },
                ],
            ),
        ),
{
    let fields = seq![field];
    assert(fields[0] == field);
    lemma_first_absent(members, fields);
    if lookup(members, field) is Some {
        assert(picked(members, fields) =~= seq![
            FieldView { name: field, value: decoded_of(lookup(members, field)->0) },
        ]);
    }
}

/// A request for no field or for several succeeds exactly where each field is
/// a key of the object, and then gives each field the value under its key.
/// Where it fails, it names the expected fields, the keys of the object, and
/// the first field that is no key.
pub proof fn lemma_several_fields_are_strict(members: Seq<MemberView>, fields: Seq<Seq<char>>)
    requires
        fields.len() != 1,
    ensures
        record_of(members, fields) is Ok <==> forall|k: int|
            0 <= k < fields.len() ==> lookup(members, fields[k]) is Some,
        record_of(members, fields) is Ok ==> record_of(members, fields) == Ok::<
            DecodedView,
            DecodeErrorView,
        >(DecodedView::Mapping(picked(members, fields))),
        record_of(members, fields) matches Err(error) ==> {
            &&& error matches DecodeErrorView::FieldSetMismatch { expected, present, missing }
            &&& expected == fields
            &&& present == keys_of(members)
            &&& exists|at: int|
                0 <= at < fields.len() && missing == fields[at] && lookup(members, fields[at])
                    is None && forall|k: int| 0 <= k < at ==> lookup(members, fields[k]) is Some
        },
{
    lemma_first_absent(members, fields);
}

/// The document under the first member of that key.
pub fn find_member<'a>(members: &'a Vec<Member>, key: &String) -> (found: Option<&'a Json>)
    ensures
        match found {
            Some(json) => lookup(members_view(members@), key@) == Some(json@),
            None => lookup(members_view(members@), key@) is None,
        },
{
    let ghost all = members_view(members@);
    let mut i: usize = 0;
    assert(all.skip(0) == all);
    while i < members.len()
        invariant
            i <= members.len(),
            all == members_view(members@),
            lookup(all, key@) == lookup(all.skip(i as int), key@),
        decreases members.len() - i,
    {
        if members[i].key == *key {
            return Some(&members[i].value);
        }
        assert(all.skip(i as int).drop_first() == all.skip(i + 1));
        i += 1;
    }
    None
}

/// A copy of the names.
pub fn copy_names(names: &Vec<String>) -> (copy: Vec<String>)
    ensures
        names_view(copy@) == names_view(names@),
{
    let mut copy: Vec<String> = Vec::new();
    let mut i: usize = 0;
    while i < names.len()
        invariant
            i <= names.len(),
            copy.len() == i,
            forall|k: int| 0 <= k < i ==> copy@[k]@ == names@[k]@,
        decreases names.len() - i,
    {
        copy.push(names[i].clone());
        i += 1;
    }
    assert(names_view(copy@) =~= names_view(names@));
    copy
}

/// The keys of the members, in order.
pub fn member_keys(members: &Vec<Member>) -> (keys: Vec<String>)
    ensures
        names_view(keys@) == keys_of(members_view(members@)),
{
    let mut keys: Vec<String> = Vec::new();
    let mut i: usize = 0;
    while i < members.len()
        invariant
            i <= members.len(),
            keys.len() == i,
            forall|k: int| 0 <= k < i ==> keys@[k]@ == members@[k].key@,
        decreases members.len() - i,
    {
        keys.push(members[i].key.clone());
        i += 1;
    }
    assert(names_view(keys@) =~= keys_of(members_view(members@)));
    keys
}

/// Fills a closed set of fields from an object.
///
/// A single field that is no key of the object takes the whole object as its
/// value. Otherwise every field must be a key of the object, and takes the
/// value under it; the first field that is no key is reported as missing.
pub fn match_fields(members: &Vec<Member>, fields: &Vec<String>) -> (record: Result<
    Decoded,
    DecodeError,
>)
    ensures
        crate::value::outcome_view(record) == record_of(
            members_view(members@),
            names_view(fields@),
        ),
{
    let ghost object = members_view(members@);
    let ghost wanted = names_view(fields@);
    if fields.len() == 1 {
        if find_member(members, &fields[0]).is_none() {
            let whole = Decoded::Mapping(decode_members(members));
            let mut only: Vec<Field> = Vec::new();
            only.push(Field { name: fields[0].clone(), value: whole });
            let record = Decoded::Mapping(only);
            proof {
                lemma_value_view(whole);
                lemma_value_view(record);
                assert(fields_view(only@) =~= seq![
                    FieldView {
                        name: wanted[0],
                        value: DecodedView::Mapping(decoded_members(object)),
                    },
                ]);
            }
            return Ok(record);
        }
    }
    let mut chosen: Vec<Field> = Vec::new();
    let mut i: usize = 0;
    while i < fields.len()
        invariant
            i <= fields.len(),
            chosen.len() == i,
            object == members_view(members@),
            wanted == names_view(fields@),
            first_absent(object, wanted.take(i as int)) is None,
            !(wanted.len() == 1 && lookup(object, wanted[0]) is None),
            forall|k: int|
                0 <= k < i ==> chosen@[k]@ == (FieldView {
                    name: wanted[k],
                    value: decoded_of(lookup(object, wanted[k])->0),
                }),
        decreases fields.len() - i,
    {
        proof {
            assert(wanted.take(i + 1).drop_last() == wanted.take(i as int));
            assert(wanted.take(i + 1).last() == wanted[i as int]);
        }
        match find_member(members, &fields[i]) {
            Some(json) => {
                chosen.push(Field { name: fields[i].clone(), value: decode_tree(json) });
            },
            None => {
                proof {
                    assert(first_absent(object, wanted.take(i + 1)) == Some(i as int));
                    lemma_absent_stays(object, wanted, i + 1);
                }
                return Err(
                    DecodeError::FieldSetMismatch {
                        expected: copy_names(fields),
                        present: member_keys(members),
                        missing: fields[i].clone(),
                    },
                );
            },
        }
        i += 1;
    }
    let record = Decoded::Mapping(chosen);
    proof {
        assert(wanted.take(fields.len() as int) == wanted);
        lemma_value_view(record);
        assert(fields_view(chosen@) =~= picked(object, wanted));
    }
    Ok(record)
}

/// Once a field is found absent among the first `n`, it stays the first absent
/// one however many fields follow.
pub proof fn lemma_absent_stays(members: Seq<MemberView>, fields: Seq<Seq<char>>, n: int)
    requires
        0 <= n <= fields.len(),
        first_absent(members, fields.take(n)) is Some,
    ensures
        first_absent(members, fields) == first_absent(members, fields.take(n)),
    decreases fields.len() - n,
{
    if n < fields.len() {
        assert(fields.take(n + 1).drop_last() == fields.take(n));
        lemma_absent_stays(members, fields, n + 1);
    } else {
        assert(fields.take(n) == fields);
    }
}

/// The parsed payload of a self-describing cell.
#[derive(Debug, PartialEq, Eq)]
pub struct MySqlJson(pub Json);

/// A decoding source over a parsed payload. It stands apart from the row that
/// the payload came from: its parts are reached by position and by key.
pub struct MySqlJsonDeserializer {
    value: Json,
}

impl View for MySqlJsonDeserializer {
    type V = JsonView;

    closed spec fn view(&self) -> JsonView {
        self.value@
    }
}

impl MySqlJson {
    /// The decoding source over this payload.
    pub fn into_deserializer(self) -> (source: MySqlJsonDeserializer)
        ensures
            source@ == self.0@,
    {
        MySqlJsonDeserializer { value: self.0 }
    }
}

impl MySqlJsonDeserializer {
    /// Decodes the payload in the shape that it has itself: a scalar, a
    /// sequence for an array, a mapping for an object.
    pub fn deserialize_any(&self) -> (value: Decoded)
        ensures
            value@ == decoded_of(self@),
    {
        decode_tree(&self.value)
    }
}

} // verus!

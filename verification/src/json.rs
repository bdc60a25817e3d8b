//! JSON payload text through `serde_json`: the activity and receipt payloads
//! that commands write, and the fields that replays read back out of them.

use vstd::prelude::*;

verus! {

#[verifier::external_type_specification]
#[verifier::external_body]
pub struct ExJsonValue(serde_json::Value);

#[verifier::external_type_specification]
#[verifier::external_body]
#[verifier::reject_recursive_types(K)]
#[verifier::reject_recursive_types(V)]
pub struct ExJsonObject<K, V>(serde_json::Map<K, V>);

/// A JSON object of `serde_json`.
pub type JsonObject = serde_json::Map<String, serde_json::Value>;

/// The string-valued members of a `serde_json` object (members of any other
/// JSON type are not among them).
pub uninterp spec fn json_object_strings(
    object: JsonObject,
) -> Map<Seq<char>, Seq<char>>;

/// The members of a `serde_json` object that are arrays of strings, each
/// with the texts of its items in order.
pub uninterp spec fn json_object_string_lists(
    object: JsonObject,
) -> Map<Seq<char>, Seq<Seq<char>>>;

/// The texts, in order, of member `key` of the JSON object that `serde_json`
/// reads from `text`, when that member is an array of strings; `None` when
/// `text` is no JSON object, or the member is absent or no array of strings.
pub uninterp spec fn json_text_list_field(text: Seq<char>, key: Seq<char>) -> Option<Seq<Seq<char>>>;

/// The string at member `key` of the JSON object that `serde_json` reads from
/// `text`; `None` when `text` is no JSON object, or the member is absent or
/// not a string.
pub uninterp spec fn json_text_field(text: Seq<char>, key: Seq<char>) -> Option<Seq<char>>;

/// `serde_json` reads `text` as one JSON document.
pub uninterp spec fn json_text_parses(text: Seq<char>) -> bool;

/// Every member of a `serde_json` object is a string, `null`, or an array of
/// strings, so the object nests no deeper than two levels.
pub uninterp spec fn json_object_flat(object: JsonObject) -> bool;

/// Calls `serde_json::Map::new`: an object without members.
#[verifier::external_body]
fn json_object_new() -> (object: JsonObject)
    ensures
        json_object_strings(object) =~= Map::empty(),
        json_object_string_lists(object) =~= Map::empty(),
        json_object_flat(object),
{
    serde_json::Map::new()
}

/// Calls `serde_json::Map::insert` with a `Value::String`: the member `key`
/// becomes the string `value`, replacing any earlier member of that name, so
/// it is no array any more.
#[verifier::external_body]
fn json_object_insert_string(
    object: &mut JsonObject,
    key: &str,
    value: &str,
)
    ensures
        json_object_strings(*final(object)) == json_object_strings(*old(object)).insert(
            key@,
            value@,
        ),
        json_object_string_lists(*final(object)) == json_object_string_lists(*old(object)).remove(
            key@,
        ),
        json_object_flat(*old(object)) ==> json_object_flat(*final(object)),
{
    object.insert(key.to_owned(), serde_json::Value::String(value.to_owned()));
}

/// Calls `serde_json::Map::insert` with `Value::Null`: the member `key`
/// becomes `null`, so it is neither a string nor an array any more.
#[verifier::external_body]
fn json_object_insert_null(object: &mut JsonObject, key: &str)
    ensures
        json_object_strings(*final(object)) == json_object_strings(*old(object)).remove(key@),
        json_object_string_lists(*final(object)) == json_object_string_lists(*old(object)).remove(
            key@,
        ),
        json_object_flat(*old(object)) ==> json_object_flat(*final(object)),
{
    object.insert(key.to_owned(), serde_json::Value::Null);
}

/// Calls `serde_json::Map::insert` with the `Value::Array` that
/// `Value::from` makes of the strings: the member `key` becomes that array
/// of strings, in order, so it is no string member any more.
#[verifier::external_body]
fn json_object_insert_string_list(
    object: &mut JsonObject,
    key: &str,
    values: &Vec<String>,
)
    ensures
        json_object_strings(*final(object)) == json_object_strings(*old(object)).remove(key@),
        json_object_string_lists(*final(object)) == json_object_string_lists(*old(object)).insert(
            key@,
            values@.map_values(|v: String| v@),
        ),
        json_object_flat(*old(object)) ==> json_object_flat(*final(object)),
{
    object.insert(key.to_owned(), serde_json::Value::from(values.clone()));
}

/// Calls `Value::to_string` on a flat object: compact JSON text, which
/// `serde_json` reads back as the same object (a flat object stays far
/// within the nesting depth that `serde_json` reads), so each string member
/// reads back as the same string, each array of strings as the same texts,
/// and no other name reads as either.
#[verifier::external_body]
fn json_object_text(object: &JsonObject) -> (text: String)
    requires
        json_object_flat(*object),
    ensures
        json_text_parses(text@),
        forall|key: Seq<char>|
            #[trigger] json_text_field(text@, key) == (if json_object_strings(
                *object,
            ).contains_key(key) {
                Some(json_object_strings(*object)[key])
            } else {
                None
            }),
        forall|key: Seq<char>|
            #[trigger] json_text_list_field(text@, key) == (if json_object_string_lists(
                *object,
            ).contains_key(key) {
                Some(json_object_string_lists(*object)[key])
            } else {
                None
            }),
{
    serde_json::Value::Object(object.clone()).to_string()
}

/// Calls `serde_json::from_str::<Value>` and `Value::get`: the string member
/// `key` of the document `text`.
#[verifier::external_body]
pub(crate) fn json_string_field(text: &str, key: &str) -> (field: Option<String>)
    ensures
        json_text_field(text@, key@) == (match field {
            Some(s) => Some(s@),
            None => None::<Seq<char>>,
        }),
        field is Some ==> json_text_parses(text@),
{
    match serde_json::from_str::<serde_json::Value>(text) {
        Ok(value) => match value.get(key) {
            Some(serde_json::Value::String(member)) => Some(member.clone()),
            _ => None,
        },
        Err(_) => None,
    }
}

/// Calls `serde_json::from_str::<Value>`: whether `text` is one JSON document.
#[verifier::external_body]
pub(crate) fn json_text_is_document(text: &str) -> (parses: bool)
    ensures
        parses == json_text_parses(text@),
{
    serde_json::from_str::<serde_json::Value>(text).is_ok()
}

/// The string at JSON Pointer `pointer` in the document that `serde_json`
/// reads from `text`; `None` when `text` is no JSON document, or nothing or
/// no string is at the pointer.
pub uninterp spec fn json_pointer_text(text: Seq<char>, pointer: Seq<char>) -> Option<Seq<char>>;

/// The length of the array at JSON Pointer `pointer` in the document that
/// `serde_json` reads from `text`; `None` when `text` is no JSON document,
/// or nothing or no array is at the pointer.
pub uninterp spec fn json_pointer_array_len(text: Seq<char>, pointer: Seq<char>) -> Option<nat>;

/// Calls `serde_json::from_str::<Value>` and `Value::pointer`: the string at
/// `pointer` of the document `text`.
#[verifier::external_body]
pub(crate) fn json_pointer_string(text: &str, pointer: &str) -> (value: Option<String>)
    ensures
        json_pointer_text(text@, pointer@) == (match value {
            Some(s) => Some(s@),
            None => None::<Seq<char>>,
        }),
{
    match serde_json::from_str::<serde_json::Value>(text) {
        Ok(document) => match document.pointer(pointer) {
            Some(serde_json::Value::String(member)) => Some(member.clone()),
            _ => None,
        },
        Err(_) => None,
    }
}

/// Calls `serde_json::from_str::<Value>` and `Value::pointer`: the length of
/// the array at `pointer` of the document `text`.
#[verifier::external_body]
pub(crate) fn json_pointer_len(text: &str, pointer: &str) -> (len: Option<usize>)
    ensures
        json_pointer_array_len(text@, pointer@) == (match len {
            Some(n) => Some(n as nat),
            None => None::<nat>,
        }),
{
    match serde_json::from_str::<serde_json::Value>(text) {
        Ok(document) => match document.pointer(pointer) {
            Some(serde_json::Value::Array(items)) => Some(items.len()),
            _ => None,
        },
        Err(_) => None,
    }
}

/// One member value of a payload object.
pub enum PayloadValue {
    Text(String),
    Null,
    TextList(Vec<String>),
}

/// The members of an object built by setting `fields` in order, each
/// either to a value of kind `V` (`Some`) or to a value of another kind
/// (`None`), which removes the name from the members of kind `V`.
pub open spec fn payload_map<V>(fields: Seq<(Seq<char>, Option<V>)>) -> Map<Seq<char>, V>
    decreases fields.len(),
{
    if fields.len() == 0 {
        Map::empty()
    } else {
        let rest = payload_map(fields.drop_last());
        match fields.last().1 {
            Some(value) => rest.insert(fields.last().0, value),
            None => rest.remove(fields.last().0),
        }
    }
}

/// A payload member seen as its name and, for a string, its text.
pub open spec fn payload_member(field: (String, PayloadValue)) -> (Seq<char>, Option<Seq<char>>) {
    match field.1 {
        PayloadValue::Text(value) => (field.0@, Some(value@)),
        _ => (field.0@, None),
    }
}

/// A payload member seen as its name and, for a list of strings, their
/// texts in order.
pub open spec fn payload_list_member(field: (String, PayloadValue)) -> (Seq<char>, Option<Seq<Seq<char>>>) {
    match field.1 {
        PayloadValue::TextList(values) => (field.0@, Some(values@.map_values(|v: String| v@))),
        _ => (field.0@, None),
    }
}

/// The member `key` of kind `V` of the members `members`.
pub open spec fn member_of<V>(members: Seq<(Seq<char>, Option<V>)>, key: Seq<char>) -> Option<V> {
    if payload_map(members).contains_key(key) {
        Some(payload_map(members)[key])
    } else {
        None
    }
}

/// The string member `key` of the object built from `fields`.
pub open spec fn payload_field(fields: Seq<(String, PayloadValue)>, key: Seq<char>) -> Option<
    Seq<char>,
> {
    member_of(fields.map_values(|f: (String, PayloadValue)| payload_member(f)), key)
}

/// The string-list member `key` of the object built from `fields`.
pub open spec fn payload_list_field(fields: Seq<(String, PayloadValue)>, key: Seq<char>) -> Option<
    Seq<Seq<char>>,
> {
    member_of(fields.map_values(|f: (String, PayloadValue)| payload_list_member(f)), key)
}

/// No other member of `fields` has the name of member `i`.
pub open spec fn sole_member(fields: Seq<(String, PayloadValue)>, i: int) -> bool {
    forall|j: int| 0 <= j < fields.len() && j != i ==> (#[trigger] fields[j]).0@ != fields[i].0@
}

proof fn lemma_sole_member<V>(members: Seq<(Seq<char>, Option<V>)>, i: int)
    requires
        0 <= i < members.len(),
        forall|j: int| 0 <= j < members.len() && j != i ==> (#[trigger] members[j]).0 != members[i].0,
    ensures
        member_of(members, members[i].0) == members[i].1,
    decreases members.len(),
{
    let last = members.len() - 1;
    if i == last {
    } else {
        let rest = members.drop_last();
        assert forall|j: int| 0 <= j < rest.len() && j != i implies (#[trigger] rest[j]).0 != rest[i].0 by {
            assert(rest[j] == members[j]);
        }
        lemma_sole_member(rest, i);
        assert(members[last].0 != members[i].0);
    }
}

/// The compact JSON text of the object whose members are `fields`, set in
/// order (a later member of the same name replaces an earlier one).
pub fn payload_text(fields: &Vec<(String, PayloadValue)>) -> (text: String)
    ensures
        json_text_parses(text@),
        forall|key: Seq<char>| #[trigger] json_text_field(text@, key) == payload_field(fields@, key),
        forall|key: Seq<char>|
            #[trigger] json_text_list_field(text@, key) == payload_list_field(fields@, key),
        forall|i: int|
            0 <= i < fields@.len() && sole_member(fields@, i) ==> json_text_field(
                text@,
                (#[trigger] fields@[i]).0@,
            ) == payload_member(fields@[i]).1 && json_text_list_field(text@, fields@[i].0@)
                == payload_list_member(fields@[i]).1,
{
    let mut object = json_object_new();
    let ghost members = fields@.map_values(|f: (String, PayloadValue)| payload_member(f));
    let ghost lists = fields@.map_values(|f: (String, PayloadValue)| payload_list_member(f));
    let mut i: usize = 0;
    while i < fields.len()
        invariant
            i <= fields@.len(),
            members == fields@.map_values(|f: (String, PayloadValue)| payload_member(f)),
            lists == fields@.map_values(|f: (String, PayloadValue)| payload_list_member(f)),
            json_object_strings(object) == payload_map(members.take(i as int)),
            json_object_string_lists(object) == payload_map(lists.take(i as int)),
            json_object_flat(object),
        decreases fields@.len() - i,
    {
        let (key, value) = &fields[i];
        assert(members.take(i + 1).drop_last() =~= members.take(i as int));
        assert(members.take(i + 1).last() == payload_member(fields@[i as int]));
        assert(lists.take(i + 1).drop_last() =~= lists.take(i as int));
        assert(lists.take(i + 1).last() == payload_list_member(fields@[i as int]));
        match value {
            PayloadValue::Text(member) => json_object_insert_string(&mut object, key.as_str(), member.as_str()),
            PayloadValue::Null => json_object_insert_null(&mut object, key.as_str()),
            PayloadValue::TextList(members_list) => json_object_insert_string_list(&mut object, key.as_str(), members_list),
        }
        i = i + 1;
    }
    assert(members.take(fields@.len() as int) =~= members);
    assert(lists.take(fields@.len() as int) =~= lists);
    assert forall|k: int| 0 <= k < fields@.len() && sole_member(fields@, k) implies payload_field(
        fields@,
        (#[trigger] fields@[k]).0@,
    ) == payload_member(fields@[k]).1 && payload_list_field(fields@, fields@[k].0@)
        == payload_list_member(fields@[k]).1 by {
        assert forall|j: int| 0 <= j < members.len() && j != k implies (#[trigger] members[j]).0
            != members[k].0 by {
            assert(fields@[j].0@ != fields@[k].0@);
        }
        assert forall|j: int| 0 <= j < lists.len() && j != k implies (#[trigger] lists[j]).0
            != lists[k].0 by {
            assert(fields@[j].0@ != fields@[k].0@);
        }
        lemma_sole_member(members, k);
        lemma_sole_member(lists, k);
    }
    json_object_text(&object)
}

} // verus!

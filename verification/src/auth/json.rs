//! Reading of decoded JSON values.
//!
//! A token's claims arrive as a `serde_json::Value`. The value stays opaque;
//! what can be read out of it is named here, and the accessors below are the
//! only way the rest of the library looks inside.

use vstd::prelude::*;

use serde_json::Value;

verus! {

/// A JSON value of `serde_json`, carried through as an opaque value.
#[verifier::external_type_specification]
#[verifier::external_body]
pub struct ExValue(Value);

/// The member that an object holds under `key`; nothing for a value that is
/// no object or has no such member.
pub uninterp spec fn json_member(value: Value, key: Seq<char>) -> Option<Value>;

/// The text of a JSON string; nothing for any other value.
pub uninterp spec fn json_text(value: Value) -> Option<Seq<char>>;

/// The elements of a JSON array, in order; nothing for any other value.
pub uninterp spec fn json_items(value: Value) -> Option<Seq<Value>>;

/// The number that a JSON integer from 0 to `u64::MAX` stands for; nothing
/// for any other value.
pub uninterp spec fn json_unsigned(value: Value) -> Option<u64>;

/// The error of `serde_json`, carried through as an opaque value.
#[verifier::external_type_specification]
#[verifier::external_body]
pub struct ExJsonError(serde_json::Error);

/// The value that the bytes spell as JSON text; nothing for bytes that are no
/// JSON text.
pub uninterp spec fn json_parsed(text: Seq<u8>) -> Option<Value>;

/// `serde_json::from_slice` into a `Value`: reads the bytes as one JSON text.
/// The outcome is a function of the bytes alone.
#[verifier::external_body]
pub(crate) fn parse_json(text: &[u8]) -> (value: Result<Value, serde_json::Error>)
    ensures
        match value {
            Ok(v) => json_parsed(text@) == Some(v),
            Err(_) => json_parsed(text@) is None,
        },
{
    serde_json::from_slice(text)
}

/// `Value::get` with a string index: the member of an object under `key`.
/// It hands out nothing where the value is no object or lacks the member.
#[verifier::external_body]
pub(crate) fn member<'a>(value: &'a Value, key: &str) -> (found: Option<&'a Value>)
    ensures
        match found {
            Some(m) => json_member(*value, key@) == Some(*m),
            None => json_member(*value, key@) is None,
        },
{
    value.get(key)
}

/// `Value::as_str`: the text of a JSON string, nothing for any other value.
#[verifier::external_body]
pub(crate) fn as_text<'a>(value: &'a Value) -> (text: Option<&'a str>)
    ensures
        match text {
            Some(t) => json_text(*value) == Some(t@),
            None => json_text(*value) is None,
        },
{
    value.as_str()
}

/// `Value::as_array`: the elements of a JSON array, nothing for any other
/// value.
#[verifier::external_body]
pub(crate) fn as_items<'a>(value: &'a Value) -> (items: Option<&'a Vec<Value>>)
    ensures
        match items {
            Some(list) => json_items(*value) == Some(list@),
            None => json_items(*value) is None,
        },
{
    value.as_array()
}

/// `Value::as_u64`: the number of a JSON integer that fits `u64`, nothing for
/// any other value.
#[verifier::external_body]
pub(crate) fn as_unsigned(value: &Value) -> (number: Option<u64>)
    ensures
        number == json_unsigned(*value),
{
    value.as_u64()
}

/// The text of the member under `key`, where there is one and it is a string.
pub open spec fn text_member(value: Value, key: Seq<char>) -> Option<Seq<char>> {
    match json_member(value, key) {
        Some(m) => json_text(m),
        None => None,
    }
}

/// The number of the member under `key`, where there is one and it is an
/// unsigned integer.
pub open spec fn unsigned_member(value: Value, key: Seq<char>) -> Option<u64> {
    match json_member(value, key) {
        Some(m) => json_unsigned(m),
        None => None,
    }
}

/// Whether every element is a JSON string.
pub open spec fn all_text(items: Seq<Value>) -> bool {
    forall|i: int| 0 <= i < items.len() ==> json_text(#[trigger] items[i]) is Some
}

/// The texts of elements that are all JSON strings.
pub open spec fn texts(items: Seq<Value>) -> Seq<Seq<char>> {
    Seq::new(items.len(), |i: int| json_text(items[i]).unwrap())
}

/// The strings that a value lists: the elements of an array of strings, or,
/// where `single` allows it, the one string that the value is. Any other
/// value lists nothing.
pub open spec fn listed_texts(value: Value, single: bool) -> Seq<Seq<char>> {
    if single && json_text(value) is Some {
        seq![json_text(value).unwrap()]
    } else if json_items(value) is Some && all_text(json_items(value).unwrap()) {
        texts(json_items(value).unwrap())
    } else {
        Seq::empty()
    }
}

/// The strings that the member under `key` lists; nothing where the member is
/// absent.
pub open spec fn list_member(value: Value, key: Seq<char>, single: bool) -> Seq<Seq<char>> {
    match json_member(value, key) {
        Some(m) => listed_texts(m, single),
        None => Seq::empty(),
    }
}

/// The views of a sequence of strings.
pub open spec fn views(strings: Seq<String>) -> Seq<Seq<char>> {
    Seq::new(strings.len(), |i: int| strings[i]@)
}

/// The view of an optional string.
pub open spec fn optional_view(text: Option<String>) -> Option<Seq<char>> {
    match text {
        Some(t) => Some(t@),
        None => None,
    }
}

/// Reads the member under `key` as a string.
pub fn read_text(value: &Value, key: &str) -> (text: Option<String>)
    ensures
        optional_view(text) == text_member(*value, key@),
{
    match member(value, key) {
        Some(m) => match as_text(m) {
            Some(t) => Some(t.to_owned()),
            None => None,
        },
        None => None,
    }
}

/// Reads the member under `key` as an unsigned integer.
pub fn read_unsigned(value: &Value, key: &str) -> (number: Option<u64>)
    ensures
        number == unsigned_member(*value, key@),
{
    match member(value, key) {
        Some(m) => as_unsigned(m),
        None => None,
    }
}

/// Copies out the texts of `items` where all of them are strings.
fn copy_texts(items: &Vec<Value>) -> (copied: Option<Vec<String>>)
    ensures
        match copied {
            Some(list) => all_text(items@) && views(list@) == texts(items@),
            None => !all_text(items@),
        },
{
    let mut list: Vec<String> = Vec::new();
    let mut i: usize = 0;
    while i < items.len()
        invariant
            i <= items@.len(),
            list@.len() == i,
            forall|j: int| 0 <= j < i ==> json_text(#[trigger] items@[j]) == Some(list@[j]@),
        decreases items@.len() - i,
    {
        match as_text(&items[i]) {
            Some(t) => {
                list.push(t.to_owned());
            },
            None => {
                return None;
            },
        }
        i += 1;
    }
    assert(views(list@) =~= texts(items@));
    Some(list)
}

/// Reads the strings that the member under `key` lists.
pub fn read_list(value: &Value, key: &str, single: bool) -> (list: Vec<String>)
    ensures
        views(list@) == list_member(*value, key@, single),
{
    let mut list: Vec<String> = Vec::new();
    assert(views(list@) =~= Seq::<Seq<char>>::empty());
    match member(value, key) {
        Some(m) => {
            if single {
                match as_text(m) {
                    Some(t) => {
                        list.push(t.to_owned());
                        assert(views(list@) =~= seq![t@]);
                        return list;
                    },
                    None => {},
                }
            }
            match as_items(m) {
                Some(items) => match copy_texts(items) {
                    Some(copied) => copied,
                    None => list,
                },
                None => list,
            }
        },
        None => list,
    }
}

} // verus!

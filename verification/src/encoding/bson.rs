//! Typed reading and writing of BSON documents.
//!
//! A document stays opaque; what it holds is named here, and the readers and
//! writers below are the only way the rest of the library looks inside. Each
//! reader asks for a field of one type: it fails with "not present" where the
//! document has no such field and with "unexpected type" where the field
//! holds a value of another type. Each writer puts one field of one type.

use std::str::FromStr;
use std::time::SystemTime;

use vstd::prelude::*;

use mongodb::bson::document::ValueAccessError;
use mongodb::bson::oid::ObjectId;
use mongodb::bson::{Bson, DateTime, Document};

verus! {

/// A BSON document, carried through as an opaque value.
#[verifier::external_type_specification]
#[verifier::external_body]
pub struct ExDocument(Document);

/// A BSON value, carried through as an opaque value.
#[verifier::external_type_specification]
#[verifier::external_body]
pub struct ExBson(Bson);

/// The error of a typed read, carried through as an opaque value.
#[verifier::external_type_specification]
#[verifier::external_body]
pub struct ExValueAccessError(ValueAccessError);

/// The fields that a document holds, by their keys.
pub uninterp spec fn document_entries(document: Document) -> Map<Seq<char>, Bson>;

/// The text of a BSON string; nothing for any other value.
pub uninterp spec fn bson_text(value: Bson) -> Option<Seq<char>>;

/// The number of a BSON 32-bit integer; nothing for any other value.
pub uninterp spec fn bson_int32(value: Bson) -> Option<i32>;

/// The twelve bytes of a BSON object identifier in lower-case hexadecimal;
/// nothing for any other value.
pub uninterp spec fn bson_object_id(value: Bson) -> Option<Seq<char>>;

/// The milliseconds since the Unix epoch of a BSON date; nothing for any
/// other value.
pub uninterp spec fn bson_millis(value: Bson) -> Option<i64>;

/// The document that a BSON value embeds; nothing for any other value.
pub uninterp spec fn bson_document(value: Bson) -> Option<Document>;

/// The elements of a BSON array; nothing for any other value.
pub uninterp spec fn bson_items(value: Bson) -> Option<Seq<Bson>>;

/// Whether the error says that the field is not present, rather than of an
/// unexpected type.
pub uninterp spec fn access_missing(error: ValueAccessError) -> bool;

/// Why a field could not be read.
#[derive(Debug, Clone, Copy, PartialEq, Eq, Structural)]
pub enum AccessFailure {
    /// The document has no field of that key.
    NotPresent,
    /// The field holds a value of another type than was asked for.
    UnexpectedType,
}

/// What an error of a typed read says.
pub open spec fn failure_of(error: ValueAccessError) -> AccessFailure {
    if access_missing(error) {
        AccessFailure::NotPresent
    } else {
        AccessFailure::UnexpectedType
    }
}

/// A point in time: whole seconds since the Unix epoch and the nanoseconds
/// beyond them.
#[derive(Debug, Clone, Copy, PartialEq, Eq, Structural)]
pub struct Timestamp {
    pub seconds: i64,
    pub nanos: i32,
}

/// The point in time that lies `millis` milliseconds from the Unix epoch:
/// the seconds rounded down, the rest in nanoseconds.
pub open spec fn stamp_of(millis: i64) -> Timestamp {
    Timestamp { seconds: (millis / 1000) as i64, nanos: ((millis % 1000) * 1_000_000) as i32 }
}

/// The value of the field under `key`, where the document has one.
pub open spec fn field(document: Document, key: Seq<char>) -> Option<Bson> {
    if document_entries(document).contains_key(key) {
        Some(document_entries(document)[key])
    } else {
        None
    }
}

/// What a typed read gives where the field's value reads as `read`: the
/// value, or the reason why not.
pub open spec fn typed<T>(found: Option<Bson>, read: spec_fn(Bson) -> Option<T>) -> Result<
    T,
    AccessFailure,
> {
    match found {
        None => Err(AccessFailure::NotPresent),
        Some(value) => match read(value) {
            Some(t) => Ok(t),
            None => Err(AccessFailure::UnexpectedType),
        },
    }
}

/// The string under `key`.
pub open spec fn text_field(document: Document, key: Seq<char>) -> Result<Seq<char>, AccessFailure> {
    typed(field(document, key), |v: Bson| bson_text(v))
}

/// The 32-bit integer under `key`.
pub open spec fn int32_field(document: Document, key: Seq<char>) -> Result<i32, AccessFailure> {
    typed(field(document, key), |v: Bson| bson_int32(v))
}

/// The object identifier under `key`, in hexadecimal.
pub open spec fn object_id_field(document: Document, key: Seq<char>) -> Result<
    Seq<char>,
    AccessFailure,
> {
    typed(field(document, key), |v: Bson| bson_object_id(v))
}

/// The date under `key`, as a point in time.
pub open spec fn stamp_field(document: Document, key: Seq<char>) -> Result<Timestamp, AccessFailure> {
    typed(
        field(document, key),
        |v: Bson|
            match bson_millis(v) {
                Some(millis) => Some(stamp_of(millis)),
                None => None,
            },
    )
}

/// The embedded document under `key`.
pub open spec fn document_field(document: Document, key: Seq<char>) -> Result<
    Document,
    AccessFailure,
> {
    typed(field(document, key), |v: Bson| bson_document(v))
}

/// The elements of the array under `key`.
pub open spec fn items_field(document: Document, key: Seq<char>) -> Result<Seq<Bson>, AccessFailure> {
    typed(field(document, key), |v: Bson| bson_items(v))
}

/// What is left of a read that may fail without harm: its value, or nothing.
pub open spec fn optional<T>(read: Result<T, AccessFailure>) -> Option<T> {
    match read {
        Ok(t) => Some(t),
        Err(_) => None,
    }
}

/// `Document::get_str`: the string under `key`; "not present" where the
/// document has no such field, "unexpected type" where the field is no
/// string.
#[verifier::external_body]
pub(crate) fn get_text<'a>(document: &'a Document, key: &str) -> (text: Result<
    &'a str,
    ValueAccessError,
>)
    ensures
        match text {
            Ok(t) => text_field(*document, key@) == Ok::<Seq<char>, AccessFailure>(t@),
            Err(e) => text_field(*document, key@) == Err::<Seq<char>, AccessFailure>(failure_of(e)),
        },
        text is Ok ==> bson_text(document_entries(*document)[key@]) == Some(text.unwrap()@),
        text matches Err(e) ==> access_missing(e) == !document_entries(*document).contains_key(
            key@,
        ),
{
    document.get_str(key)
}

/// `Document::get_i32`: the 32-bit integer under `key`; "not present" where
/// the document has no such field, "unexpected type" where the field is no
/// 32-bit integer.
#[verifier::external_body]
pub(crate) fn get_int32(document: &Document, key: &str) -> (number: Result<i32, ValueAccessError>)
    ensures
        match number {
            Ok(n) => int32_field(*document, key@) == Ok::<i32, AccessFailure>(n),
            Err(e) => int32_field(*document, key@) == Err::<i32, AccessFailure>(failure_of(e)),
        },
        number is Ok ==> bson_int32(document_entries(*document)[key@]) == Some(number.unwrap()),
{
    document.get_i32(key)
}

/// `Document::get_object_id`, turned to text by `ObjectId::to_hex`: the
/// object identifier under `key` in lower-case hexadecimal; "not present"
/// where the document has no such field, "unexpected type" where the field
/// is no object identifier.
#[verifier::external_body]
pub(crate) fn get_object_id(document: &Document, key: &str) -> (id: Result<
    String,
    ValueAccessError,
>)
    ensures
        match id {
            Ok(hex) => object_id_field(*document, key@) == Ok::<Seq<char>, AccessFailure>(hex@),
            Err(e) => object_id_field(*document, key@) == Err::<Seq<char>, AccessFailure>(
                failure_of(e),
            ),
        },
        id is Ok ==> bson_object_id(document_entries(*document)[key@]) == Some(id.unwrap()@),
{
    document.get_object_id(key).map(|id| id.to_hex())
}

/// `Document::get_datetime`, turned to a point in time as `prost_types`
/// does it from a `SystemTime`: the date under `key` in seconds, rounded
/// down, and nanoseconds; "not present" where the document has no such
/// field, "unexpected type" where the field is no date.
#[verifier::external_body]
pub(crate) fn get_stamp(document: &Document, key: &str) -> (stamp: Result<
    Timestamp,
    ValueAccessError,
>)
    ensures
        match stamp {
            Ok(t) => stamp_field(*document, key@) == Ok::<Timestamp, AccessFailure>(t),
            Err(e) => stamp_field(*document, key@) == Err::<Timestamp, AccessFailure>(
                failure_of(e),
            ),
        },
        stamp is Ok ==> bson_millis(document_entries(*document)[key@]) is Some,
{
    document.get_datetime(key).map(
        |date|
            {
                let at = prost_types::Timestamp::from(SystemTime::from(*date));
                Timestamp { seconds: at.seconds, nanos: at.nanos }
            },
    )
}

/// `Document::get_document`: the embedded document under `key`; "not
/// present" where the document has no such field, "unexpected type" where the
/// field is no document.
#[verifier::external_body]
pub(crate) fn get_document<'a>(document: &'a Document, key: &str) -> (inner: Result<
    &'a Document,
    ValueAccessError,
>)
    ensures
        match inner {
            Ok(d) => document_field(*document, key@) == Ok::<Document, AccessFailure>(*d),
            Err(e) => document_field(*document, key@) == Err::<Document, AccessFailure>(
                failure_of(e),
            ),
        },
{
    document.get_document(key)
}

/// `Document::get_array`: the elements of the array under `key`; "not
/// present" where the document has no such field, "unexpected type" where the
/// field is no array.
#[verifier::external_body]
pub(crate) fn get_items<'a>(document: &'a Document, key: &str) -> (items: Result<
    &'a Vec<Bson>,
    ValueAccessError,
>)
    ensures
        match items {
            Ok(list) => items_field(*document, key@) == Ok::<Seq<Bson>, AccessFailure>(list@),
            Err(e) => items_field(*document, key@) == Err::<Seq<Bson>, AccessFailure>(
                failure_of(e),
            ),
        },
        items is Ok ==> bson_items(document_entries(*document)[key@]) == Some(items.unwrap()@),
{
    document.get_array(key)
}

/// `Bson::as_document`: the document that a value embeds, nothing for any
/// other value.
#[verifier::external_body]
pub(crate) fn as_document<'a>(value: &'a Bson) -> (inner: Option<&'a Document>)
    ensures
        match inner {
            Some(d) => bson_document(*value) == Some(*d),
            None => bson_document(*value) is None,
        },
{
    value.as_document()
}

/// A BSON object identifier, carried through as an opaque value.
#[verifier::external_type_specification]
#[verifier::external_body]
pub struct ExObjectId(ObjectId);

/// The error of an object identifier that does not parse, carried through as
/// an opaque value.
#[verifier::external_type_specification]
#[verifier::external_body]
pub struct ExObjectIdError(mongodb::bson::oid::Error);

/// The twelve bytes of an object identifier in lower-case hexadecimal.
pub uninterp spec fn object_id_hex(id: ObjectId) -> Seq<char>;

/// Whether `c` is a hexadecimal digit, in either case.
pub open spec fn is_hex_digit(c: char) -> bool {
    ('0' <= c && c <= '9') || ('a' <= c && c <= 'f') || ('A' <= c && c <= 'F')
}

/// Whether `text` spells an object identifier: twenty-four hexadecimal
/// digits.
pub open spec fn is_object_id_text(text: Seq<char>) -> bool {
    text.len() == 24 && forall|i: int| 0 <= i < text.len() ==> is_hex_digit(#[trigger] text[i])
}

/// A hexadecimal digit in lower case.
pub open spec fn lowered_digit(c: char) -> char {
    if c == 'A' {
        'a'
    } else if c == 'B' {
        'b'
    } else if c == 'C' {
        'c'
    } else if c == 'D' {
        'd'
    } else if c == 'E' {
        'e'
    } else if c == 'F' {
        'f'
    } else {
        c
    }
}

/// Hexadecimal text in lower case.
pub open spec fn lowered(text: Seq<char>) -> Seq<char> {
    Seq::new(text.len(), |i: int| lowered_digit(text[i]))
}

/// `ObjectId::from_str`: the identifier that twenty-four hexadecimal digits
/// spell; an error for any other text.
#[verifier::external_body]
pub(crate) fn parse_object_id(text: &str) -> (id: Result<ObjectId, mongodb::bson::oid::Error>)
    ensures
        match id {
            Ok(parsed) => is_object_id_text(text@) && object_id_hex(parsed) == lowered(text@),
            Err(_) => !is_object_id_text(text@),
        },
{
    ObjectId::from_str(text)
}

/// Whether `after` is `before` with the field under `key` put or replaced and
/// every other field kept.
pub open spec fn put(before: Document, after: Document, key: Seq<char>) -> bool {
    &&& document_entries(after).dom() == document_entries(before).dom().insert(key)
    &&& forall|other: Seq<char>|
        other != key && document_entries(before).contains_key(other) ==> #[trigger] document_entries(
            after,
        )[other] == document_entries(before)[other]
}

/// `Document::new`: a document without fields.
#[verifier::external_body]
pub(crate) fn new_document() -> (fresh: Document)
    ensures
        document_entries(fresh).dom() == Set::<Seq<char>>::empty(),
{
    Document::new()
}

/// `Document::insert` of a string: puts the string under `key`.
#[verifier::external_body]
pub(crate) fn insert_text(document: &mut Document, key: &str, value: &str)
    ensures
        put(*old(document), *final(document), key@),
        bson_text(document_entries(*final(document))[key@]) == Some(value@),
{
    document.insert(key, value);
}

/// `Document::insert` of a 32-bit integer: puts the number under `key`.
#[verifier::external_body]
pub(crate) fn insert_int32(document: &mut Document, key: &str, value: i32)
    ensures
        put(*old(document), *final(document), key@),
        bson_int32(document_entries(*final(document))[key@]) == Some(value),
{
    document.insert(key, value);
}

/// `Document::insert` of an object identifier: puts the identifier under
/// `key`.
#[verifier::external_body]
pub(crate) fn insert_object_id(document: &mut Document, key: &str, value: ObjectId)
    ensures
        put(*old(document), *final(document), key@),
        bson_object_id(document_entries(*final(document))[key@]) == Some(object_id_hex(value)),
{
    document.insert(key, value);
}

/// `Document::insert` of the date that `DateTime::from_millis` makes: puts
/// the date of that many milliseconds since the Unix epoch under `key`.
#[verifier::external_body]
pub(crate) fn insert_date(document: &mut Document, key: &str, millis: i64)
    ensures
        put(*old(document), *final(document), key@),
        bson_millis(document_entries(*final(document))[key@]) == Some(millis),
{
    document.insert(key, DateTime::from_millis(millis));
}

/// `Document::insert` of a vector of object identifiers: puts an array of
/// the identifiers, in their order, under `key`.
#[verifier::external_body]
pub(crate) fn insert_object_ids(document: &mut Document, key: &str, values: Vec<ObjectId>)
    ensures
        put(*old(document), *final(document), key@),
        bson_items(document_entries(*final(document))[key@]) is Some,
        bson_items(document_entries(*final(document))[key@]).unwrap().len() == values@.len(),
        forall|i: int|
            0 <= i < values@.len() ==> bson_object_id(
                #[trigger] bson_items(document_entries(*final(document))[key@]).unwrap()[i],
            ) == Some(object_id_hex(values@[i])),
{
    document.insert(key, values);
}

/// Whether the milliseconds of that many seconds fit a BSON date.
pub open spec fn fits_millis(seconds: i64) -> bool {
    -9_223_372_036_854_775 <= seconds <= 9_223_372_036_854_775
}

/// The point in time of whole seconds.
pub open spec fn whole(seconds: i64) -> Timestamp {
    Timestamp { seconds, nanos: 0 }
}

/// A date of whole seconds reads back as those seconds.
pub proof fn lemma_whole_seconds(seconds: i64)
    requires
        fits_millis(seconds),
    ensures
        stamp_of((seconds * 1000) as i64) == whole(seconds),
{
}

/// Reads the string under `key`.
pub fn read_text(document: &Document, key: &str) -> (text: Result<String, ValueAccessError>)
    ensures
        match text {
            Ok(t) => text_field(*document, key@) == Ok::<Seq<char>, AccessFailure>(t@),
            Err(e) => text_field(*document, key@) == Err::<Seq<char>, AccessFailure>(failure_of(e)),
        },
{
    match get_text(document, key) {
        Ok(t) => Ok(t.to_owned()),
        Err(e) => Err(e),
    }
}

} // verus!

//! Reading caller-supplied lists through `serde_json`.
//!
//! A list arrives as JSON text. The library reads three things of it: whether
//! it is an array, whether each element is an object, and what stands under a
//! few keys of each element. `serde_json` answers all three; this module puts
//! the answers into plain records and proves nothing of the parser itself.

use vstd::prelude::*;

verus! {

/// `serde_json::Value`, a parsed JSON document. The library never looks
/// inside one: it carries the value from the parser to the accessors below.
#[verifier::external_type_specification]
#[verifier::external_body]
pub struct ExJsonValue(serde_json::Value);

/// What stands under one key of a JSON object, as far as the library reads it.
pub enum JsonField {
    /// A JSON string.
    Text(Seq<char>),
    /// A JSON number that is a non-negative integer below 2^64.
    Unsigned(u64),
    /// Anything else: null, a boolean, another number, an array, an object.
    Other,
}

/// One element of a JSON array: the fields of an object by key, or `None` for
/// an element that is no object.
pub type JsonRow = Option<Map<Seq<char>, JsonField>>;

/// What a JSON document is, as far as the library reads it.
pub enum JsonShape {
    /// An array, element by element.
    List(Seq<JsonRow>),
    /// Any other document: an object, a string, a number, a boolean, null.
    Other,
}

/// What `serde_json::from_str` makes of a text: `None` where it is no JSON
/// document, else the document's shape.
pub uninterp spec fn json_text_shape(text: Seq<char>) -> Option<JsonShape>;

/// The shape of a parsed document.
pub uninterp spec fn json_shape(value: serde_json::Value) -> JsonShape;

/// The field of `row` under `key`; `Other` where the row is no object or has
/// no such key.
pub open spec fn row_field(row: JsonRow, key: Seq<char>) -> JsonField {
    match row {
        Some(fields) => if fields.dom().contains(key) {
            fields[key]
        } else {
            JsonField::Other
        },
        None => JsonField::Other,
    }
}

/// The field of element `i` of `value` under `key`.
pub open spec fn item_field(value: serde_json::Value, i: int, key: Seq<char>) -> JsonField {
    match json_shape(value) {
        JsonShape::List(rows) => if 0 <= i < rows.len() {
            row_field(rows[i], key)
        } else {
            JsonField::Other
        },
        JsonShape::Other => JsonField::Other,
    }
}

/// `serde_json::from_str` at type `Value`: fails exactly on the texts that
/// are no JSON document, and the value it returns has the shape that belongs
/// to the text.
#[verifier::external_body]
pub(crate) fn parse_document(text: &str) -> (parsed: Option<serde_json::Value>)
    ensures
        parsed is Some <==> json_text_shape(text@) is Some,
        parsed matches Some(value) ==> Some(json_shape(value)) == json_text_shape(text@),
{
    serde_json::from_str::<serde_json::Value>(text).ok()
}

/// `Value::as_array` followed by `Vec::len`: the number of elements of an
/// array, `None` for any other document.
#[verifier::external_body]
pub(crate) fn array_len(value: &serde_json::Value) -> (len: Option<usize>)
    ensures
        match json_shape(*value) {
            JsonShape::List(rows) => len == Some(rows.len() as usize) && rows.len() <= usize::MAX,
            JsonShape::Other => len is None,
        },
{
    value.as_array().map(|items| items.len())
}

/// `Value::is_object` on element `i`, reached with `Index<usize>`.
#[verifier::external_body]
pub(crate) fn item_is_object(value: &serde_json::Value, i: usize) -> (is_object: bool)
    ensures
        is_object == (json_shape(*value) matches JsonShape::List(rows) && i < rows.len()
            && rows[i as int] is Some),
{
    value[i].is_object()
}

/// `Value::as_str` on the field `key` of element `i`, reached with
/// `Index<usize>` and `Index<&str>`: the text of a JSON string, `None` for
/// anything else, a missing key included.
#[verifier::external_body]
pub(crate) fn item_text(value: &serde_json::Value, i: usize, key: &str) -> (text: Option<String>)
    ensures
        match item_field(*value, i as int, key@) {
            JsonField::Text(t) => text matches Some(s) && s@ == t,
            _ => text is None,
        },
{
    value[i][key].as_str().map(|s| s.to_string())
}

/// `Value::as_u64` on the field `key` of element `i`: the value of a JSON
/// number that is a non-negative integer below 2^64, `None` for anything
/// else, a missing key included.
#[verifier::external_body]
pub(crate) fn item_unsigned(value: &serde_json::Value, i: usize, key: &str) -> (number: Option<u64>)
    ensures
        match item_field(*value, i as int, key@) {
            JsonField::Unsigned(n) => number == Some(n),
            _ => number is None,
        },
{
    value[i][key].as_u64()
}

} // verus!

//! The records of the two caller-supplied lists, as they are read.
//!
//! A record here holds what stood in the JSON, field by field, before any
//! field is judged: a field that is missing or of the wrong kind is `None`.

use crate::json::{
    array_len, item_is_object, item_text, item_unsigned, json_shape, json_text_shape, parse_document,
    row_field, JsonField, JsonRow, JsonShape,
};
use vstd::prelude::*;

verus! {

/// The text of a JSON string field.
pub open spec fn text_of(field: JsonField) -> Option<Seq<char>> {
    match field {
        JsonField::Text(text) => Some(text),
        _ => None,
    }
}

/// The value of a non-negative integer field.
pub open spec fn unsigned_of(field: JsonField) -> Option<u64> {
    match field {
        JsonField::Unsigned(number) => Some(number),
        _ => None,
    }
}

/// Whether `read` holds the text `field`, or both are absent.
pub open spec fn same_text(read: Option<String>, field: Option<Seq<char>>) -> bool {
    match field {
        Some(text) => read matches Some(s) && s@ == text,
        None => read is None,
    }
}

/// Whether every element of an array is an object.
pub open spec fn all_objects(rows: Seq<JsonRow>) -> bool {
    forall|i: int| 0 <= i < rows.len() ==> (#[trigger] rows[i]) is Some
}

/// One spendable output as the caller wrote it.
#[derive(Clone, Debug, PartialEq, Eq)]
pub struct RawUtxo {
    /// `id`: the transaction identifier, where it is a string.
    pub id: Option<String>,
    /// `index`: the output index, where it is a non-negative integer.
    pub index: Option<u64>,
    /// `value`: the amount, where it is a non-negative integer.
    pub value: Option<u64>,
}

impl RawUtxo {
    /// Whether this record holds the fields of `row`.
    pub open spec fn reflects(self, row: JsonRow) -> bool {
        &&& same_text(self.id, text_of(row_field(row, "id"@)))
        &&& self.index == unsigned_of(row_field(row, "index"@))
        &&& self.value == unsigned_of(row_field(row, "value"@))
    }
}

/// One payment as the caller wrote it.
#[derive(Clone, Debug, PartialEq, Eq)]
pub struct RawPayment {
    /// `addr`: the destination address, where it is a string.
    pub addr: Option<String>,
    /// `value`: the amount, where it is a non-negative integer.
    pub value: Option<u64>,
}

impl RawPayment {
    /// Whether this record holds the fields of `row`.
    pub open spec fn reflects(self, row: JsonRow) -> bool {
        &&& same_text(self.addr, text_of(row_field(row, "addr"@)))
        &&& self.value == unsigned_of(row_field(row, "value"@))
    }
}

/// The elements of a document that is an array of objects; `None` for a text
/// that is no JSON, a document that is no array, and an array with an element
/// that is no object.
pub open spec fn object_rows(shape: Option<JsonShape>) -> Option<Seq<JsonRow>> {
    match shape {
        Some(JsonShape::List(rows)) => if all_objects(rows) {
            Some(rows)
        } else {
            None
        },
        _ => None,
    }
}

/// Whether `list` is what a document of shape `shape` holds as spendable
/// outputs: a record for each element of an array of objects, and nothing
/// for any other document.
pub open spec fn utxos_reflect(list: Option<Vec<RawUtxo>>, shape: Option<JsonShape>) -> bool {
    match object_rows(shape) {
        Some(rows) => {
            &&& list matches Some(records)
            &&& records@.len() == rows.len()
            &&& forall|i: int| 0 <= i < rows.len() ==> (#[trigger] records@[i]).reflects(rows[i])
        },
        None => list is None,
    }
}

/// Whether `list` is what a document of shape `shape` holds as payments.
pub open spec fn payments_reflect(list: Option<Vec<RawPayment>>, shape: Option<JsonShape>) -> bool {
    match object_rows(shape) {
        Some(rows) => {
            &&& list matches Some(records)
            &&& records@.len() == rows.len()
            &&& forall|i: int| 0 <= i < rows.len() ==> (#[trigger] records@[i]).reflects(rows[i])
        },
        None => list is None,
    }
}

/// Reads the list of spendable outputs from its JSON text.
///
/// The result is `None` unless the text is a JSON array whose elements are
/// all objects. No field is judged here.
pub fn read_utxos(text: &str) -> (list: Option<Vec<RawUtxo>>)
    ensures
        utxos_reflect(list, json_text_shape(text@)),
{
    let value = match parse_document(text) {
        Some(value) => value,
        None => {
            return None;
        },
    };
    let len = match array_len(&value) {
        Some(len) => len,
        None => {
            return None;
        },
    };
    let ghost rows = json_shape(value)->List_0;
    let mut records: Vec<RawUtxo> = Vec::new();
    let mut i: usize = 0;
    while i < len
        invariant
            json_text_shape(text@) == Some(json_shape(value)),
            json_shape(value) == JsonShape::List(rows),
            rows.len() == len,
            i <= len,
            records@.len() == i,
            forall|k: int| 0 <= k < i ==> (#[trigger] rows[k]) is Some,
            forall|k: int| 0 <= k < i ==> (#[trigger] records@[k]).reflects(rows[k]),
        decreases len - i,
    {
        if !item_is_object(&value, i) {
            assert(rows[i as int] is None);
            return None;
        }
        let id = item_text(&value, i, "id");
        let index = item_unsigned(&value, i, "index");
        let amount = item_unsigned(&value, i, "value");
        records.push(RawUtxo { id, index, value: amount });
        i += 1;
    }
    Some(records)
}

/// Reads the list of payments from its JSON text.
///
/// The result is `None` unless the text is a JSON array whose elements are
/// all objects. No field is judged here.
pub fn read_payments(text: &str) -> (list: Option<Vec<RawPayment>>)
    ensures
        payments_reflect(list, json_text_shape(text@)),
{
    let value = match parse_document(text) {
        Some(value) => value,
        None => {
            return None;
        },
    };
    let len = match array_len(&value) {
        Some(len) => len,
        None => {
            return None;
        },
    };
    let ghost rows = json_shape(value)->List_0;
    let mut records: Vec<RawPayment> = Vec::new();
    let mut i: usize = 0;
    while i < len
        invariant
            json_text_shape(text@) == Some(json_shape(value)),
            json_shape(value) == JsonShape::List(rows),
            rows.len() == len,
            i <= len,
            records@.len() == i,
            forall|k: int| 0 <= k < i ==> (#[trigger] rows[k]) is Some,
            forall|k: int| 0 <= k < i ==> (#[trigger] records@[k]).reflects(rows[k]),
        decreases len - i,
    {
        if !item_is_object(&value, i) {
            assert(rows[i as int] is None);
            return None;
        }
        let addr = item_text(&value, i, "addr");
        let amount = item_unsigned(&value, i, "value");
        records.push(RawPayment { addr, value: amount });
        i += 1;
    }
    Some(records)
}

} // verus!

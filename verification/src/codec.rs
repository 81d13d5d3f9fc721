//! Transaction identifiers in their text form: 64 hexadecimal digits.

use vstd::prelude::*;

verus! {

/// The value of a hexadecimal digit, upper or lower case; `None` for any
/// other character.
pub open spec fn hex_digit(c: char) -> Option<int> {
    let n = c as int;
    if 48 <= n <= 57 {
        Some(n - 48)
    } else if 97 <= n <= 102 {
        Some(n - 87)
    } else if 65 <= n <= 70 {
        Some(n - 55)
    } else {
        None
    }
}

/// Whether `text` is an even number of hexadecimal digits.
pub open spec fn is_hex(text: Seq<char>) -> bool {
    &&& text.len() % 2 == 0
    &&& forall|i: int| 0 <= i < text.len() ==> (#[trigger] hex_digit(text[i])) is Some
}

/// The byte that the digits at `2 * i` and `2 * i + 1` spell.
pub open spec fn hex_byte(text: Seq<char>, i: int) -> u8 {
    (16 * hex_digit(text[2 * i]).unwrap() + hex_digit(text[2 * i + 1]).unwrap()) as u8
}

/// The bytes that `text` spells, two digits to a byte, high digit first;
/// `None` where `text` is not an even number of hexadecimal digits.
pub open spec fn hex_decoded(text: Seq<char>) -> Option<Seq<u8>> {
    if is_hex(text) {
        Some(Seq::new((text.len() / 2) as nat, |i: int| hex_byte(text, i)))
    } else {
        None
    }
}

/// The identifier that `text` spells: its 32 bytes, or `None` where `text`
/// is not hexadecimal or spells another number of bytes.
pub open spec fn transaction_id_of(text: Seq<char>) -> Option<Seq<u8>> {
    match hex_decoded(text) {
        Some(bytes) => if bytes.len() == 32 {
            Some(bytes)
        } else {
            None
        },
        None => None,
    }
}

/// `hex::decode` on the UTF-8 bytes of `text`: it fails on an odd length and
/// on any byte that is no ASCII hexadecimal digit, and else returns one byte
/// for each pair of digits, the first digit of a pair in the high half.
#[verifier::external_body]
pub(crate) fn decode_hex(text: &str) -> (bytes: Option<Vec<u8>>)
    ensures
        match hex_decoded(text@) {
            Some(decoded) => bytes matches Some(v) && v@ == decoded,
            None => bytes is None,
        },
{
    hex::decode(text).ok()
}

/// `TransactionId::try_from_slice` of the `cardano` primitives, followed by
/// `to_bytes`: accepts a slice of exactly 32 bytes and keeps them as they are.
#[verifier::external_body]
pub(crate) fn check_transaction_id(bytes: &[u8]) -> (id: Option<Vec<u8>>)
    ensures
        id is Some <==> bytes@.len() == 32,
        id matches Some(v) ==> v@ == bytes@,
{
    cardano::primitives::TransactionId::try_from_slice(bytes).ok().map(|id| id.to_bytes().to_vec())
}

/// Reads a transaction identifier from its hexadecimal text.
pub fn parse_transaction_id(text: &str) -> (id: Option<Vec<u8>>)
    ensures
        match transaction_id_of(text@) {
            Some(bytes) => id matches Some(v) && v@ == bytes,
            None => id is None,
        },
{
    match decode_hex(text) {
        Some(bytes) => check_transaction_id(bytes.as_slice()),
        None => None,
    }
}

} // verus!

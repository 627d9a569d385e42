//! Twelve-byte document identifiers: their hexadecimal form and the instant they carry.

use vstd::prelude::*;

verus! {

/// The lower-case hexadecimal digit of a value below sixteen.
pub open spec fn hex_digit(n: int) -> char {
    seq![
        '0', '1', '2', '3', '4', '5', '6', '7', '8', '9', 'a', 'b', 'c', 'd', 'e', 'f',
    ][n]
}

/// Two lower-case hexadecimal digits for each byte, the high half first.
pub open spec fn hex_text(bytes: Seq<u8>) -> Seq<char> {
    Seq::new(
        2 * bytes.len(),
        |i: int|
            if i % 2 == 0 {
                hex_digit(bytes[i / 2] as int / 16)
            } else {
                hex_digit(bytes[i / 2] as int % 16)
            },
    )
}

/// What a hexadecimal digit of either case stands for; `None` for any other character.
pub open spec fn hex_value(c: char) -> Option<int> {
    if '0' <= c <= '9' {
        Some(c as int - '0' as int)
    } else if 'a' <= c <= 'f' {
        Some(c as int - 'a' as int + 10)
    } else if 'A' <= c <= 'F' {
        Some(c as int - 'A' as int + 10)
    } else {
        None
    }
}

/// Every character is a hexadecimal digit.
pub open spec fn is_hex_text(text: Seq<char>) -> bool {
    forall|i: int| 0 <= i < text.len() ==> (#[trigger] hex_value(text[i])) is Some
}

/// The bytes that pairs of hexadecimal digits spell.
pub open spec fn hex_bytes(text: Seq<char>) -> Seq<u8> {
    Seq::new(
        text.len() / 2,
        |i: int| (16 * hex_value(text[2 * i])->0 + hex_value(text[2 * i + 1])->0) as u8,
    )
}

/// The identifier that a text spells: twenty-four hexadecimal digits, or nothing.
pub open spec fn parsed_object_id(text: Seq<char>) -> Option<Seq<u8>> {
    if text.len() == 24 && is_hex_text(text) {
        Some(hex_bytes(text))
    } else {
        None
    }
}

/// The creation instant in milliseconds since the epoch: the first four bytes are its
/// seconds, most significant byte first.
pub open spec fn creation_millis(bytes: Seq<u8>) -> int {
    (bytes[0] as int * 0x100_0000 + bytes[1] as int * 0x1_0000 + bytes[2] as int * 0x100
        + bytes[3] as int) * 1000
}

/// The driver's words for a text that spells no identifier.
pub uninterp spec fn object_id_parse_error(text: Seq<char>) -> Seq<char>;

/// Calls `ObjectId::new` of the driver's document crate. The identifier depends on the
/// clock, the process and a counter, so nothing is claimed of it. The driver panics where
/// the system clock reads a time before 1970, and where its seconds since then no longer
/// fit 32 bits.
#[verifier::external_body]
fn fresh_object_id() -> (bytes: [u8; 12]) {
    mongodb::bson::oid::ObjectId::new().bytes()
}

/// Calls `ObjectId::to_hex`, which encodes the twelve bytes with the lower-case table of
/// the `hex` crate: the high half of each byte, then the low half.
#[verifier::external_body]
fn object_id_hex(bytes: &[u8; 12]) -> (text: String)
    ensures
        text@ == hex_text(bytes@),
{
    mongodb::bson::oid::ObjectId::from_bytes(*bytes).to_hex()
}

/// Calls `ObjectId::timestamp`, which reads the first four bytes as big-endian seconds and
/// multiplies them by a thousand.
#[verifier::external_body]
fn object_id_millis(bytes: &[u8; 12]) -> (millis: i64)
    ensures
        millis == creation_millis(bytes@),
{
    mongodb::bson::oid::ObjectId::from_bytes(*bytes).timestamp().timestamp_millis()
}

/// Calls `ObjectId::parse_str`, which decodes with `hex::decode` (digits of either case,
/// an even count) and accepts exactly twelve decoded bytes. The error is handed out as the
/// text that its `Display` writes.
#[verifier::external_body]
fn parse_object_id(text: &str) -> (parsed: Result<[u8; 12], String>)
    ensures
        match parsed {
            Ok(bytes) => parsed_object_id(text@) == Some(bytes@),
            Err(message) => parsed_object_id(text@) is None && message@ == object_id_parse_error(
                text@,
            ),
        },
{
    match mongodb::bson::oid::ObjectId::parse_str(text) {
        Ok(id) => Ok(id.bytes()),
        Err(err) => Err(err.to_string()),
    }
}

/// A document identifier as scripts hold it.
#[derive(Debug, Clone, Copy, PartialEq, Eq)]
pub struct JsObjectId {
    bytes: [u8; 12],
}

impl View for JsObjectId {
    type V = Seq<u8>;

    closed spec fn view(&self) -> Seq<u8> {
        self.bytes@
    }
}

impl JsObjectId {
    /// Wraps the given identifier, or a fresh one where none is given.
    pub fn new(oid: Option<[u8; 12]>) -> (id: JsObjectId)
        ensures
            id@.len() == 12,
            oid matches Some(bytes) ==> id@ == bytes@,
    {
        match oid {
            Some(bytes) => JsObjectId { bytes },
            None => JsObjectId { bytes: fresh_object_id() },
        }
    }

    /// Reads an identifier from its hexadecimal form.
    pub fn parse(text: &str) -> (parsed: Result<JsObjectId, String>)
        ensures
            match parsed {
                Ok(id) => parsed_object_id(text@) == Some(id@),
                Err(message) => parsed_object_id(text@) is None && message@
                    == object_id_parse_error(text@),
            },
    {
        match parse_object_id(text) {
            Ok(bytes) => Ok(JsObjectId { bytes }),
            Err(message) => Err(message),
        }
    }

    /// The canonical form: twenty-four lower-case hexadecimal digits.
    pub fn to_std_string(&self) -> (text: String)
        ensures
            text@ == hex_text(self@),
            text@.len() == 24,
    {
        object_id_hex(&self.bytes)
    }

    /// The creation instant that the identifier carries, in milliseconds since the epoch.
    pub fn timestamp_millis(&self) -> (millis: i64)
        ensures
            millis == creation_millis(self@),
            0 <= millis <= 0xFFFF_FFFF * 1000,
    {
        object_id_millis(&self.bytes)
    }

    /// The twelve bytes.
    pub fn into_inner(&self) -> (bytes: [u8; 12])
        ensures
            bytes@ == self@,
    {
        self.bytes
    }
}

/// Writing an identifier out and reading it back gives the same identifier.
pub proof fn lemma_hex_round_trip(bytes: Seq<u8>)
    requires
        bytes.len() == 12,
    ensures
        parsed_object_id(hex_text(bytes)) == Some(bytes),
{
    let text = hex_text(bytes);
    assert forall|i: int| 0 <= i < text.len() implies (#[trigger] hex_value(text[i])) is Some by {
        lemma_hex_digit_value(bytes[i / 2] as int / 16);
        lemma_hex_digit_value(bytes[i / 2] as int % 16);
    }
    assert forall|k: int| 0 <= k < 12 implies hex_bytes(text)[k] == bytes[k] by {
        let b = bytes[k] as int;
        lemma_hex_digit_value(b / 16);
        lemma_hex_digit_value(b % 16);
        assert(text[2 * k] == hex_digit(bytes[(2 * k) / 2] as int / 16));
        assert(text[2 * k + 1] == hex_digit(bytes[(2 * k + 1) / 2] as int % 16));
    }
    assert(hex_bytes(text) =~= bytes);
}

/// A digit stands for the value it was made from.
pub proof fn lemma_hex_digit_value(n: int)
    requires
        0 <= n < 16,
    ensures
        hex_value(hex_digit(n)) == Some(n),
{
    let digits = seq![
        '0', '1', '2', '3', '4', '5', '6', '7', '8', '9', 'a', 'b', 'c', 'd', 'e', 'f',
    ];
    assert(digits[0] == '0' && digits[1] == '1' && digits[2] == '2' && digits[3] == '3');
    assert(digits[4] == '4' && digits[5] == '5' && digits[6] == '6' && digits[7] == '7');
    assert(digits[8] == '8' && digits[9] == '9' && digits[10] == 'a' && digits[11] == 'b');
    assert(digits[12] == 'c' && digits[13] == 'd' && digits[14] == 'e' && digits[15] == 'f');
}

} // verus!

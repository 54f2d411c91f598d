//! Conversion between raw bytes and their hexadecimal text.

use vstd::prelude::*;

verus! {

/// The sixteen lower-case hexadecimal digits, in order of value.
pub open spec fn lower_hex_digits() -> Seq<char> {
    seq!['0', '1', '2', '3', '4', '5', '6', '7', '8', '9', 'a', 'b', 'c', 'd', 'e', 'f']
}

/// The lower-case digit that stands for `nibble`, a value below sixteen.
pub open spec fn hex_digit(nibble: int) -> char
    recommends
        0 <= nibble < 16,
{
    lower_hex_digits()[nibble]
}

/// Whether `c` is one of `0-9`, `a-f` or `A-F`.
pub open spec fn is_hex_digit(c: char) -> bool {
    ('0' <= c && c <= '9') || ('a' <= c && c <= 'f') || ('A' <= c && c <= 'F')
}

/// The value of a hexadecimal digit, in either case.
pub open spec fn hex_value(c: char) -> int
    recommends
        is_hex_digit(c),
{
    if '0' <= c && c <= '9' {
        c as int - '0' as int
    } else if 'a' <= c && c <= 'f' {
        c as int - 'a' as int + 10
    } else {
        c as int - 'A' as int + 10
    }
}

/// Whether `c` is one of `0-9` or `a-f`.
pub open spec fn is_lower_hex_digit(c: char) -> bool {
    ('0' <= c && c <= '9') || ('a' <= c && c <= 'f')
}

/// The hexadecimal text of `bytes`: two lower-case digits for each byte,
/// the high half first, with nothing before, between or after them.
pub open spec fn hex_encoding(bytes: Seq<u8>) -> Seq<char> {
    Seq::new(
        2 * bytes.len(),
        |i: int|
            if i % 2 == 0 {
                hex_digit(bytes[i / 2] as int / 16)
            } else {
                hex_digit(bytes[i / 2] as int % 16)
            },
    )
}

/// Whether `text` is well-formed hexadecimal: an even number of characters,
/// each of them a digit `0-9`, `a-f` or `A-F`.
pub open spec fn is_hex(text: Seq<char>) -> bool {
    &&& text.len() % 2 == 0
    &&& forall|i: int| 0 <= i < text.len() ==> is_hex_digit(#[trigger] text[i])
}

/// The bytes that well-formed hexadecimal `text` stands for: one for each
/// pair of digits, the first digit of a pair being the high half.
pub open spec fn hex_decoding(text: Seq<char>) -> Seq<u8>
    recommends
        is_hex(text),
{
    Seq::new(
        text.len() / 2,
        |i: int| (hex_value(text[2 * i]) * 16 + hex_value(text[2 * i + 1])) as u8,
    )
}

/// The one way in which text fails to be hexadecimal: its length is odd, or
/// one of its characters is no hexadecimal digit.
#[derive(Debug, Clone, Copy, PartialEq, Eq, Structural)]
pub struct MalformedHexError;

/// `hex::FromHexError`, the reason that `hex::decode` gives for a refusal.
/// Nothing is read of it: every refusal becomes `MalformedHexError`.
#[verifier::external_type_specification]
#[verifier::external_body]
pub struct ExFromHexError(hex::FromHexError);

/// `hex::encode`. The crate writes each byte as two digits taken from
/// `0123456789abcdef`, the high half first; the contract says exactly that.
#[verifier::external_body]
fn hex_crate_encode(bytes: &[u8]) -> (text: String)
    ensures
        text@ == hex_encoding(bytes@),
{
    hex::encode(bytes)
}

/// `hex::decode`. The crate works on the text's bytes: it refuses an odd
/// number of them, and any byte that is not `0-9`, `a-f` or `A-F`; otherwise
/// each pair of digits gives one byte. A character outside ASCII is made of
/// bytes that are no digits, so the text is accepted exactly when `is_hex`
/// holds of its characters, and the bytes are then those of `hex_decoding`.
#[verifier::external_body]
fn hex_crate_decode(text: &str) -> (decoded: Result<Vec<u8>, hex::FromHexError>)
    ensures
        decoded is Ok <==> is_hex(text@),
        decoded matches Ok(bytes) ==> bytes@ == hex_decoding(text@),
{
    hex::decode(text)
}

/// Writes `bytes` as lower-case hexadecimal text.
///
/// Always succeeds. The text has two characters for each byte, all of them
/// from `0-9a-f`, and `decode_hex` gives the bytes back.
pub fn encode_hex(bytes: &[u8]) -> (text: String)
    ensures
        text@ == hex_encoding(bytes@),
        text@.len() == 2 * bytes@.len(),
        forall|i: int| 0 <= i < text@.len() ==> is_lower_hex_digit(#[trigger] text@[i]),
        is_hex(text@),
        hex_decoding(text@) == bytes@,
{
    proof {
        lemma_encoding_is_lower_case(bytes@);
        lemma_hex_round_trip(bytes@);
    }
    hex_crate_encode(bytes)
}

/// Reads hexadecimal text back into bytes.
///
/// Digits are accepted in either case. Text of odd length, or with any
/// character that is no hexadecimal digit, is refused as a whole: the error
/// carries no bytes.
pub fn decode_hex(text: &str) -> (decoded: Result<Vec<u8>, MalformedHexError>)
    ensures
        is_hex(text@) ==> decoded is Ok && decoded->Ok_0@ == hex_decoding(text@),
        !is_hex(text@) ==> decoded is Err,
{
    match hex_crate_decode(text) {
        Ok(bytes) => Ok(bytes),
        Err(_) => Err(MalformedHexError),
    }
}

/// Every digit that the encoder writes is read back as the value it was
/// written for.
pub proof fn lemma_digit_value(nibble: int)
    requires
        0 <= nibble < 16,
    ensures
        is_lower_hex_digit(hex_digit(nibble)),
        is_hex_digit(hex_digit(nibble)),
        hex_value(hex_digit(nibble)) == nibble,
{
}

/// Encoded text has twice as many characters as there were bytes, and holds
/// nothing but the digits `0-9` and `a-f`.
pub proof fn lemma_encoding_is_lower_case(bytes: Seq<u8>)
    ensures
        hex_encoding(bytes).len() == 2 * bytes.len(),
        hex_encoding(bytes).len() % 2 == 0,
        forall|i: int|
            0 <= i < hex_encoding(bytes).len() ==> is_lower_hex_digit(
                #[trigger] hex_encoding(bytes)[i],
            ),
{
    let text = hex_encoding(bytes);
    assert forall|i: int| 0 <= i < text.len() implies is_lower_hex_digit(#[trigger] text[i]) by {
        let byte = bytes[i / 2] as int;
        lemma_digit_value(byte / 16);
        lemma_digit_value(byte % 16);
    }
}

/// Round trip: decoding the encoding of any bytes succeeds and gives exactly
/// those bytes.
pub proof fn lemma_hex_round_trip(bytes: Seq<u8>)
    ensures
        is_hex(hex_encoding(bytes)),
        hex_decoding(hex_encoding(bytes)) == bytes,
{
    let text = hex_encoding(bytes);
    lemma_encoding_is_lower_case(bytes);
    assert forall|i: int| 0 <= i < text.len() implies is_hex_digit(#[trigger] text[i]) by {
        assert(is_lower_hex_digit(text[i]));
    }
    let back = hex_decoding(text);
    assert(back.len() == bytes.len());
    assert forall|i: int| 0 <= i < bytes.len() implies back[i] == bytes[i] by {
        let byte = bytes[i] as int;
        lemma_digit_value(byte / 16);
        lemma_digit_value(byte % 16);
        assert(text[2 * i] == hex_digit(byte / 16));
        assert(text[2 * i + 1] == hex_digit(byte % 16));
    }
    assert(back =~= bytes);
}

/// Different bytes never share an encoding.
pub proof fn lemma_hex_encoding_is_injective(a: Seq<u8>, b: Seq<u8>)
    requires
        hex_encoding(a) == hex_encoding(b),
    ensures
        a == b,
{
    lemma_hex_round_trip(a);
    lemma_hex_round_trip(b);
}

} // verus!

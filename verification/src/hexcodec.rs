//! Hexadecimal text: the digits that stand for a byte string, and the byte
//! string that a run of digits stands for.
//!
//! Text is held as ASCII bytes. Encoding writes lower-case digits; decoding
//! reads digits of either case.

use vstd::prelude::*;

verus! {

/// The lower-case hex digit, as an ASCII byte, of a value below 16.
pub open spec fn hex_digit(nibble: int) -> u8 {
    if nibble < 10 {
        (48 + nibble) as u8
    } else {
        (87 + nibble) as u8
    }
}

/// The value of a hex digit of either case, or `None` for any other byte.
pub open spec fn hex_value(digit: u8) -> Option<int> {
    if 48 <= digit <= 57 {
        Some(digit - 48)
    } else if 97 <= digit <= 102 {
        Some(digit - 87)
    } else if 65 <= digit <= 70 {
        Some(digit - 55)
    } else {
        None
    }
}

/// Two lower-case digits for each byte, the high half first.
pub open spec fn hex_encode(bytes: Seq<u8>) -> Seq<u8> {
    Seq::new(
        2 * bytes.len(),
        |i: int|
            if i % 2 == 0 {
                hex_digit(bytes[i / 2] as int / 16)
            } else {
                hex_digit(bytes[i / 2] as int % 16)
            },
    )
}

/// Text that decodes: an even number of bytes, each of them a hex digit.
pub open spec fn is_hex(text: Seq<u8>) -> bool {
    &&& text.len() % 2 == 0
    &&& forall|i: int| 0 <= i < text.len() ==> (#[trigger] hex_value(text[i])) is Some
}

/// The byte that the two digits at `2 * i` and `2 * i + 1` stand for.
pub open spec fn hex_pair(text: Seq<u8>, i: int) -> u8 {
    (16 * hex_value(text[2 * i]).unwrap() + hex_value(text[2 * i + 1]).unwrap()) as u8
}

/// One byte for each pair of digits. Meaningful where `is_hex(text)`.
pub open spec fn hex_decode(text: Seq<u8>) -> Seq<u8> {
    Seq::new(text.len() / 2, |i: int| hex_pair(text, i))
}

/// A digit written by the encoder reads back as the value it was written for.
pub proof fn lemma_digit_round_trip(nibble: int)
    requires
        0 <= nibble < 16,
    ensures
        hex_value(hex_digit(nibble)) == Some(nibble),
{
}

/// What the encoder writes always decodes.
pub proof fn lemma_encoded_is_hex(bytes: Seq<u8>)
    ensures
        is_hex(hex_encode(bytes)),
        hex_encode(bytes).len() == 2 * bytes.len(),
{
    let text = hex_encode(bytes);
    assert forall|i: int| 0 <= i < text.len() implies (#[trigger] hex_value(text[i])) is Some by {
        let byte = bytes[i / 2] as int;
        if i % 2 == 0 {
            lemma_digit_round_trip(byte / 16);
        } else {
            lemma_digit_round_trip(byte % 16);
        }
    }
}

/// Decoding what the encoder wrote gives the bytes back.
pub proof fn lemma_decode_encode(bytes: Seq<u8>)
    ensures
        hex_decode(hex_encode(bytes)) == bytes,
{
    let text = hex_encode(bytes);
    assert forall|i: int| 0 <= i < bytes.len() implies hex_decode(text)[i] == bytes[i] by {
        let byte = bytes[i] as int;
        lemma_digit_round_trip(byte / 16);
        lemma_digit_round_trip(byte % 16);
        assert((2 * i) % 2 == 0 && (2 * i) / 2 == i && (2 * i + 1) % 2 == 1 && (2 * i + 1) / 2
            == i);
        assert(text[2 * i] == hex_digit(byte / 16));
        assert(text[2 * i + 1] == hex_digit(byte % 16));
        assert(16 * (byte / 16) + byte % 16 == byte);
    }
    assert(hex_decode(text) =~= bytes);
}

/// The error of `hex::decode`; the library reads nothing from it.
#[verifier::external_type_specification]
#[verifier::external_body]
pub struct ExFromHexError(hex::FromHexError);

/// `hex::encode`, with the string it returns taken as its bytes. The crate
/// walks the input and writes, for each byte, the digit of `byte >> 4` and
/// then the digit of `byte & 0x0f`, both from the table `0123456789abcdef`:
/// that is `hex_encode`.
#[verifier::external_body]
pub(crate) fn encode_with_crate(bytes: &[u8]) -> (text: Vec<u8>)
    ensures
        text@ == hex_encode(bytes@),
{
    hex::encode(bytes).into_bytes()
}

/// `hex::decode`. The crate refuses an odd length and any byte that is not in
/// `0-9`, `a-f` or `A-F`; otherwise each pair of digits gives the byte
/// `high << 4 | low`, which is `hex_pair`.
#[verifier::external_body]
pub(crate) fn decode_with_crate(text: &[u8]) -> (decoded: Result<Vec<u8>, hex::FromHexError>)
    ensures
        decoded is Ok <==> is_hex(text@),
        decoded matches Ok(bytes) ==> bytes@ == hex_decode(text@),
{
    hex::decode(text)
}

/// The hex text of `bytes`, in lower case.
pub fn encode(bytes: &[u8]) -> (text: Vec<u8>)
    ensures
        text@ == hex_encode(bytes@),
        text@.len() == 2 * bytes@.len(),
        is_hex(text@),
{
    proof {
        lemma_encoded_is_hex(bytes@);
    }
    encode_with_crate(bytes)
}

/// The bytes that `text` stands for, or `None` where it is not hex text.
pub fn decode(text: &[u8]) -> (bytes: Option<Vec<u8>>)
    ensures
        bytes is Some <==> is_hex(text@),
        bytes matches Some(b) ==> b@ == hex_decode(text@) && text@.len() == 2 * b@.len(),
{
    match decode_with_crate(text) {
        Ok(decoded) => Some(decoded),
        Err(_) => None,
    }
}

} // verus!

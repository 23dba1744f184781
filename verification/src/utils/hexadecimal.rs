//! Hexadecimal text, written and read by the `hex` crate.

use vstd::prelude::*;

verus! {

/// The lower-case hexadecimal digit of a value below sixteen.
pub open spec fn hex_digit(nibble: int) -> char {
    if nibble < 10 {
        ((48 + nibble) as u8) as char
    } else {
        ((87 + nibble) as u8) as char
    }
}

/// Two lower-case digits for each byte, the high half first.
pub open spec fn hex_encoding(data: Seq<u8>) -> Seq<char> {
    Seq::new(
        2 * data.len(),
        |i: int|
            if i % 2 == 0 {
                hex_digit(data[i / 2] as int / 16)
            } else {
                hex_digit(data[i / 2] as int % 16)
            },
    )
}

/// The value of a hexadecimal digit in either case, if `digit` is one.
pub open spec fn hex_value(digit: u8) -> Option<int> {
    if 48 <= digit <= 57 {
        Some(digit - 48)
    } else if 97 <= digit <= 102 {
        Some(digit - 87)
    } else if 65 <= digit <= 70 {
        Some(digit - 55)
    } else {
        None
    }
}

/// Whether `text` is an even number of hexadecimal digits.
pub open spec fn is_hex(text: Seq<u8>) -> bool {
    &&& text.len() % 2 == 0
    &&& forall|i: int| 0 <= i < text.len() ==> hex_value(#[trigger] text[i]) is Some
}

/// The bytes that the digit pairs of `text` stand for.
pub open spec fn hex_decoding(text: Seq<u8>) -> Seq<u8>
    recommends
        is_hex(text),
{
    Seq::new(
        text.len() / 2,
        |i: int| (hex_value(text[2 * i]).unwrap() * 16 + hex_value(text[2 * i + 1]).unwrap()) as u8,
    )
}

/// Whether `text` is what [`hex_encoding`] writes: an even number of
/// digits, none of them an upper-case letter.
pub open spec fn is_lower_hex(text: Seq<char>) -> bool {
    &&& text.len() % 2 == 0
    &&& forall|i: int|
        0 <= i < text.len() ==> {
            let c = #[trigger] text[i];
            ('0' <= c <= '9') || ('a' <= c <= 'f')
        }
}

/// The error of `hex::decode`.
#[verifier::external_type_specification]
#[verifier::external_body]
pub struct ExFromHexError(hex::FromHexError);

/// `hex::encode`: every byte becomes two lower-case hexadecimal digits
/// taken from the table `0123456789abcdef`, the high four bits first.
#[verifier::external_body]
pub(crate) fn hex_encode(data: &[u8]) -> (text: String)
    ensures
        text@ == hex_encoding(data@),
{
    hex::encode(data)
}

/// `hex::decode`: fails on an odd number of bytes and on any byte that
/// is not a digit `0-9`, `a-f` or `A-F`; otherwise each pair of digits
/// gives one byte, the first digit being the high four bits.
#[verifier::external_body]
pub(crate) fn hex_decode(text: &[u8]) -> (decoded: Result<Vec<u8>, hex::FromHexError>)
    ensures
        decoded is Ok <==> is_hex(text@),
        decoded matches Ok(bytes) ==> bytes@ == hex_decoding(text@),
{
    hex::decode(text)
}

/// The ASCII codes of lower-case hexadecimal text.
pub open spec fn ascii_codes(text: Seq<char>) -> Seq<u8> {
    Seq::new(text.len(), |i: int| text[i] as u8)
}

/// What was written in hexadecimal reads back as the same bytes.
pub proof fn lemma_hex_decoding_of_encoding(data: Seq<u8>)
    ensures
        is_lower_hex(hex_encoding(data)),
        is_hex(ascii_codes(hex_encoding(data))),
        hex_decoding(ascii_codes(hex_encoding(data))) == data,
{
    let text = hex_encoding(data);
    let codes = ascii_codes(text);
    assert forall|i: int| 0 <= i < text.len() implies {
        let c = #[trigger] text[i];
        ('0' <= c <= '9') || ('a' <= c <= 'f')
    } by {
        lemma_hex_digit(data[i / 2] as int / 16);
        lemma_hex_digit(data[i / 2] as int % 16);
    }
    assert forall|i: int| 0 <= i < codes.len() implies hex_value(#[trigger] codes[i]) is Some by {
        lemma_hex_digit(data[i / 2] as int / 16);
        lemma_hex_digit(data[i / 2] as int % 16);
    }
    assert forall|i: int| 0 <= i < data.len() implies hex_decoding(codes)[i] == data[i] by {
        lemma_hex_digit(data[i] as int / 16);
        lemma_hex_digit(data[i] as int % 16);
        assert((2 * i) / 2 == i && (2 * i) % 2 == 0);
        assert((2 * i + 1) / 2 == i && (2 * i + 1) % 2 == 1);
        assert(codes[2 * i] == text[2 * i] as u8);
        assert(codes[2 * i + 1] == text[2 * i + 1] as u8);
    }
    assert(hex_decoding(codes) =~= data);
}

/// Lower-case hexadecimal text is what its own bytes are written as.
pub proof fn lemma_hex_encoding_of_decoding(text: Seq<char>)
    requires
        is_lower_hex(text),
    ensures
        is_hex(ascii_codes(text)),
        hex_encoding(hex_decoding(ascii_codes(text))) == text,
{
    let codes = ascii_codes(text);
    assert forall|i: int| 0 <= i < codes.len() implies hex_value(#[trigger] codes[i]) is Some by {
        lemma_lower_digit(text[i]);
    }
    let data = hex_decoding(codes);
    assert forall|i: int| 0 <= i < text.len() implies hex_encoding(data)[i] == text[i] by {
        let k = i / 2;
        lemma_lower_digit(text[2 * k]);
        lemma_lower_digit(text[2 * k + 1]);
        assert(codes[2 * k] == text[2 * k] as u8);
        assert(codes[2 * k + 1] == text[2 * k + 1] as u8);
        let high = hex_value(codes[2 * k]).unwrap();
        let low = hex_value(codes[2 * k + 1]).unwrap();
        assert(data[k] == high * 16 + low);
        assert((high * 16 + low) / 16 == high && (high * 16 + low) % 16 == low);
    }
    assert(hex_encoding(data) =~= text);
}

/// The digit of a nibble is a lower-case hexadecimal character whose
/// value is the nibble.
proof fn lemma_hex_digit(nibble: int)
    requires
        0 <= nibble < 16,
    ensures
        ('0' <= hex_digit(nibble) <= '9') || ('a' <= hex_digit(nibble) <= 'f'),
        hex_value(hex_digit(nibble) as u8) == Some(nibble),
{
}

/// A lower-case hexadecimal character has a value, and is the digit of
/// that value.
proof fn lemma_lower_digit(c: char)
    requires
        ('0' <= c <= '9') || ('a' <= c <= 'f'),
    ensures
        hex_value(c as u8) is Some,
        0 <= hex_value(c as u8).unwrap() < 16,
        hex_digit(hex_value(c as u8).unwrap()) == c,
{
}

} // verus!

//! Bytes as they are written in the query of a tracker's URL.

use crate::utils::text::string_push;
use vstd::prelude::*;
use vstd::string::StringExecFns;

verus! {

/// The upper-case hexadecimal digit of a value below sixteen.
pub open spec fn upper_hex_digit(nibble: int) -> char {
    if nibble < 10 {
        ((48 + nibble) as u8) as char
    } else {
        ((55 + nibble) as u8) as char
    }
}

/// A byte in its escaped form: a percent sign and two upper-case
/// hexadecimal digits, the high half first.
pub open spec fn percent_triplet(byte: u8) -> Seq<char> {
    seq!['%', upper_hex_digit(byte as int / 16), upper_hex_digit(byte as int % 16)]
}

/// Whether a byte is written as it is: the ASCII letters and digits and
/// the four marks `-`, `_`, `~` and `.`.
pub open spec fn is_unreserved(byte: u8) -> bool {
    ||| 48 <= byte <= 57
    ||| 65 <= byte <= 90
    ||| 97 <= byte <= 122
    ||| byte == 45
    ||| byte == 95
    ||| byte == 126
    ||| byte == 46
}

/// One byte in a URL: itself when unreserved, escaped otherwise.
pub open spec fn url_byte(byte: u8) -> Seq<char> {
    if is_unreserved(byte) {
        seq![byte as char]
    } else {
        percent_triplet(byte)
    }
}

/// Bytes in a URL, one after the other.
pub open spec fn url_encoding(bytes: Seq<u8>) -> Seq<char>
    decreases bytes.len(),
{
    if bytes.len() == 0 {
        Seq::empty()
    } else {
        url_encoding(bytes.drop_last()) + url_byte(bytes.last())
    }
}

/// `percent_encoding::percent_encode_byte`: the three characters that
/// escape a byte, whatever the byte, taken from the table `%00` to `%FF`.
pub assume_specification[ percent_encoding::percent_encode_byte ](byte: u8) -> (escaped:
    &'static str)
    ensures
        escaped@ == percent_triplet(byte),
;

/// Writes `bytes` for use in a URL: unreserved bytes as they are, every
/// other byte escaped.
pub fn url_encode(bytes: &[u8]) -> (text: String)
    ensures
        text@ == url_encoding(bytes@),
{
    let mut text = String::new();
    let mut index: usize = 0;
    while index < bytes.len()
        invariant
            index <= bytes@.len(),
            text@ == url_encoding(bytes@.take(index as int)),
        decreases bytes@.len() - index,
    {
        let byte: u8 = bytes[index];
        assert(bytes@.take(index + 1).drop_last() =~= bytes@.take(index as int));
        if (48 <= byte && byte <= 57) || (65 <= byte && byte <= 90) || (97 <= byte && byte <= 122)
            || byte == 45 || byte == 95 || byte == 126 || byte == 46 {
            string_push(&mut text, byte as char);
            assert(text@ =~= url_encoding(bytes@.take(index as int)) + seq![byte as char]);
        } else {
            text.append(percent_encoding::percent_encode_byte(byte));
        }
        index = index + 1;
    }
    assert(bytes@.take(index as int) =~= bytes@);
    text
}

} // verus!

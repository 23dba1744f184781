//! Strings from bytes and from numbers.

use vstd::prelude::*;
use vstd::utf8::{decode_utf8, valid_utf8};

verus! {

/// The error of `str::from_utf8`.
#[verifier::external_type_specification]
#[verifier::external_body]
pub struct ExUtf8Error(core::str::Utf8Error);

/// `str::from_utf8`: succeeds exactly on well-formed UTF-8, and then
/// borrows the bytes as the text they encode.
#[verifier::external_body]
pub(crate) fn str_from_utf8(bytes: &[u8]) -> (text: Result<&str, core::str::Utf8Error>)
    ensures
        text is Ok <==> valid_utf8(bytes@),
        text matches Ok(s) ==> s@ == decode_utf8(bytes@),
{
    core::str::from_utf8(bytes)
}

/// `String::push`: appends one character.
#[verifier::external_body]
pub(crate) fn string_push(text: &mut String, c: char)
    ensures
        final(text)@ == old(text)@.push(c),
{
    text.push(c)
}

/// The decimal digits of `value`, without leading zeros.
pub open spec fn decimal(value: nat) -> Seq<char>
    decreases value,
{
    if value < 10 {
        seq![((48 + value) as u8) as char]
    } else {
        decimal(value / 10).push(((48 + value % 10) as u8) as char)
    }
}

/// Writes `value` in decimal.
pub fn u32_to_string(value: u32) -> (text: String)
    ensures
        text@ == decimal(value as nat),
{
    let mut digits: Vec<u8> = Vec::new();
    let mut rest: u32 = value;
    while rest >= 10
        invariant
            forall|i: int| 0 <= i < digits.len() ==> 48 <= #[trigger] digits[i] <= 57,
            decimal(value as nat) == decimal(rest as nat) + Seq::new(
                digits.len() as nat,
                |i: int| digits[digits.len() - 1 - i] as char,
            ),
        decreases rest,
    {
        let ghost before = digits@;
        let ghost previous = rest;
        digits.push((48 + rest % 10) as u8);
        rest = rest / 10;
        assert(decimal(previous as nat) == decimal(rest as nat).push(
            ((48 + previous % 10) as u8) as char,
        ));
        assert(decimal(previous as nat) + Seq::new(
            before.len(),
            |i: int| before[before.len() - 1 - i] as char,
        ) =~= decimal(rest as nat) + Seq::new(
            digits.len() as nat,
            |i: int| digits[digits.len() - 1 - i] as char,
        ));
    }
    let mut text = String::new();
    string_push(&mut text, (48 + rest as u8) as char);
    let mut remaining: usize = digits.len();
    while remaining > 0
        invariant
            remaining <= digits.len(),
            forall|i: int| 0 <= i < digits.len() ==> 48 <= #[trigger] digits[i] <= 57,
            text@ == decimal(rest as nat) + Seq::new(
                (digits.len() - remaining) as nat,
                |i: int| digits[digits.len() - 1 - i] as char,
            ),
        decreases remaining,
    {
        let ghost before = text@;
        remaining = remaining - 1;
        string_push(&mut text, digits[remaining] as char);
        assert(text@ =~= decimal(rest as nat) + Seq::new(
            (digits.len() - remaining) as nat,
            |i: int| digits[digits.len() - 1 - i] as char,
        ));
    }
    text
}

} // verus!

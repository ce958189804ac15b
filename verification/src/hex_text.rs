//! Hexadecimal text: what it means, and the `hex` crate's functions that
//! write and read it.

use hex::FromHexError;
use vstd::prelude::*;

verus! {

/// The lower-case hexadecimal digit of value `n`, for `n` from 0 to 15.
pub open spec fn hex_digit(n: int) -> char {
    if n < 10 {
        ('0' as int + n) as char
    } else {
        ('a' as int + (n - 10)) as char
    }
}

/// The value of a hexadecimal digit, in either case; `None` for any other
/// character.
pub open spec fn hex_value(c: char) -> Option<int> {
    if '0' <= c && c <= '9' {
        Some(c as int - '0' as int)
    } else if 'a' <= c && c <= 'f' {
        Some(c as int - 'a' as int + 10)
    } else if 'A' <= c && c <= 'F' {
        Some(c as int - 'A' as int + 10)
    } else {
        None
    }
}

/// The text that stands for `bytes`: two lower-case digits for each byte, the
/// high half first.
pub open spec fn hex_encoding(bytes: Seq<u8>) -> Seq<char> {
    Seq::new(
        2 * bytes.len(),
        |i: int|
            if i % 2 == 0 {
                hex_digit(bytes[i / 2] as int / 16)
            } else {
                hex_digit(bytes[i / 2] as int % 16)
            },
    )
}

/// Whether `text` stands for some bytes: an even number of characters, each a
/// hexadecimal digit.
pub open spec fn is_hex_text(text: Seq<char>) -> bool {
    &&& text.len() % 2 == 0
    &&& forall|i: int| 0 <= i < text.len() ==> (#[trigger] hex_value(text[i])) is Some
}

/// The bytes that the hexadecimal text `text` stands for.
pub open spec fn hex_decoding(text: Seq<char>) -> Seq<u8>
    recommends
        is_hex_text(text),
{
    Seq::new(
        text.len() / 2,
        |i: int| (16 * hex_value(text[2 * i])->0 + hex_value(text[2 * i + 1])->0) as u8,
    )
}

/// The error of `hex::decode`. The library only tells success from failure.
#[verifier::external_type_specification]
#[verifier::external_body]
pub struct ExFromHexError(FromHexError);

/// Writes `bytes` as hexadecimal text, by `hex::encode`.
///
/// Taken from `hex`: each byte gives two characters from
/// `0123456789abcdef`, first the one for its high four bits, then the one for
/// its low four bits.
#[verifier::external_body]
pub(crate) fn encode(bytes: &[u8]) -> (text: String)
    ensures
        text@ == hex_encoding(bytes@),
{
    hex::encode(bytes)
}

/// Reads hexadecimal text, by `hex::decode`.
///
/// Taken from `hex`: the call fails on an odd number of bytes and on any
/// byte that is no digit `0-9`, `a-f` or `A-F`; otherwise each pair of digits
/// gives the byte `16 * high + low`. A character outside ASCII is written in
/// bytes of which none is a digit, so text holding one is refused as well, and
/// in text that is accepted every character is one byte.
#[verifier::external_body]
pub(crate) fn decode(text: &str) -> (bytes: Result<Vec<u8>, FromHexError>)
    ensures
        bytes is Ok <==> is_hex_text(text@),
        bytes matches Ok(b) ==> b@ == hex_decoding(text@),
{
    hex::decode(text)
}

/// A lower-case digit has the value it stands for.
proof fn lemma_digit_value(n: int)
    requires
        0 <= n < 16,
    ensures
        hex_value(hex_digit(n)) == Some(n),
{
}

/// Reading undoes writing: the text written for any bytes is hexadecimal
/// text, and stands for those bytes.
pub proof fn lemma_decoding_undoes_encoding(bytes: Seq<u8>)
    ensures
        is_hex_text(hex_encoding(bytes)),
        hex_decoding(hex_encoding(bytes)) == bytes,
{
    let text = hex_encoding(bytes);
    assert forall|i: int| 0 <= i < text.len() implies (#[trigger] hex_value(text[i])) is Some by {
        lemma_digit_value(bytes[i / 2] as int / 16);
        lemma_digit_value(bytes[i / 2] as int % 16);
    }
    assert forall|j: int| 0 <= j < bytes.len() implies #[trigger] hex_decoding(text)[j]
        == bytes[j] by {
        lemma_digit_value(bytes[j] as int / 16);
        lemma_digit_value(bytes[j] as int % 16);
        assert(text[2 * j] == hex_digit(bytes[j] as int / 16));
        assert(text[2 * j + 1] == hex_digit(bytes[j] as int % 16));
    }
    assert(hex_decoding(text) =~= bytes);
}

} // verus!

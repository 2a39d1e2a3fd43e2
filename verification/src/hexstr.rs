//! Hexadecimal text for preimages and payment hashes. Encoding and
//! decoding are done by the `hex` crate behind trusted wrappers whose
//! contracts state the exact character-level meaning, so the round trip
//! between bytes and text is proved here once and reused by the
//! reconciliation logic.

use vstd::prelude::*;
use crate::numtext::{digit_char, digit_val, is_digit};

verus! {

/// A character of the hexadecimal alphabet, either case.
pub open spec fn is_hex_digit(c: char) -> bool {
    is_digit(c) || ('a' <= c && c <= 'f') || ('A' <= c && c <= 'F')
}

/// The numeric value of a hexadecimal digit character.
pub open spec fn hex_digit_val(c: char) -> nat
    recommends
        is_hex_digit(c),
{
    if is_digit(c) {
        digit_val(c)
    } else if 'a' <= c && c <= 'f' {
        (c as u32 - 'a' as u32 + 10) as nat
    } else {
        (c as u32 - 'A' as u32 + 10) as nat
    }
}

/// The lowercase hexadecimal digit for a value below sixteen.
pub open spec fn hex_char(n: nat) -> char
    recommends
        n < 16,
{
    if n < 10 {
        digit_char(n)
    } else if n == 10 {
        'a'
    } else if n == 11 {
        'b'
    } else if n == 12 {
        'c'
    } else if n == 13 {
        'd'
    } else if n == 14 {
        'e'
    } else {
        'f'
    }
}

/// Every character of `s` is a hexadecimal digit.
pub open spec fn all_hex_digits(s: Seq<char>) -> bool {
    forall|i: int| 0 <= i < s.len() ==> is_hex_digit(#[trigger] s[i])
}

/// The lowercase hexadecimal rendering of a byte string: two digits per
/// byte, high nibble first.
pub open spec fn hex_of(bytes: Seq<u8>) -> Seq<char>
    decreases bytes.len(),
{
    if bytes.len() == 0 {
        Seq::<char>::empty()
    } else {
        hex_of(bytes.drop_last()) + seq![
            hex_char(bytes.last() as nat / 16),
            hex_char(bytes.last() as nat % 16),
        ]
    }
}

/// The bytes denoted by an even-length string of hexadecimal digits.
pub open spec fn hex_byte_seq(s: Seq<char>) -> Seq<u8>
    recommends
        s.len() % 2 == 0,
    decreases s.len(),
{
    if s.len() < 2 {
        Seq::<u8>::empty()
    } else {
        hex_byte_seq(s.subrange(0, s.len() - 2)).push(
            (hex_digit_val(s[s.len() - 2]) * 16 + hex_digit_val(s[s.len() - 1])) as u8,
        )
    }
}

/// What hexadecimal decoding yields: the byte string if the input has even
/// length and only hexadecimal digits, nothing otherwise.
pub open spec fn bytes_of_hex(s: Seq<char>) -> Option<Seq<u8>> {
    if s.len() % 2 == 0 && all_hex_digits(s) {
        Some(hex_byte_seq(s))
    } else {
        None
    }
}

/// The hexadecimal digit of a value below sixteen reads back as that value.
pub proof fn lemma_hex_char_val(n: nat)
    requires
        n < 16,
    ensures
        hex_digit_val(hex_char(n)) == n,
        is_hex_digit(hex_char(n)),
{
}

/// The rendering of a byte string is twice as long and consists of
/// hexadecimal digits only.
pub proof fn lemma_hex_of_shape(bytes: Seq<u8>)
    ensures
        hex_of(bytes).len() == 2 * bytes.len(),
        all_hex_digits(hex_of(bytes)),
    decreases bytes.len(),
{
    if bytes.len() > 0 {
        let b0 = bytes.drop_last();
        lemma_hex_of_shape(b0);
        lemma_hex_char_val(bytes.last() as nat / 16);
        lemma_hex_char_val(bytes.last() as nat % 16);
        assert forall|i: int| 0 <= i < hex_of(bytes).len() implies is_hex_digit(
            #[trigger] hex_of(bytes)[i],
        ) by {
            if i < hex_of(b0).len() {
                assert(hex_of(bytes)[i] == hex_of(b0)[i]);
            }
        }
    }
}

/// Encoding bytes as hexadecimal text and decoding the text gives the
/// bytes back.
pub proof fn lemma_hex_round_trip(bytes: Seq<u8>)
    ensures
        bytes_of_hex(hex_of(bytes)) == Some(bytes),
    decreases bytes.len(),
{
    lemma_hex_of_shape(bytes);
    if bytes.len() == 0 {
        assert(hex_byte_seq(hex_of(bytes)) =~= bytes);
    } else {
        let b0 = bytes.drop_last();
        let s = hex_of(bytes);
        lemma_hex_round_trip(b0);
        lemma_hex_of_shape(b0);
        assert(s.subrange(0, s.len() - 2) =~= hex_of(b0));
        let last = bytes.last();
        lemma_hex_char_val(last as nat / 16);
        lemma_hex_char_val(last as nat % 16);
        assert(s[s.len() - 2] == hex_char(last as nat / 16));
        assert(s[s.len() - 1] == hex_char(last as nat % 16));
        assert(last as nat / 16 * 16 + last as nat % 16 == last as nat) by {
            vstd::arithmetic::div_mod::lemma_fundamental_div_mod(last as int, 16);
        }
        assert(hex_byte_seq(s) =~= hex_byte_seq(hex_of(b0)).push(last));
        assert(hex_byte_seq(s) =~= bytes);
    }
}

/// Relies on `hex::encode`: lowercase output, two digits for each byte,
/// high nibble first.
#[verifier::external_body]
pub fn hex_encode(data: &Vec<u8>) -> (r: String)
    ensures
        r@ == hex_of(data@),
{
    hex::encode(data)
}

/// Relies on `hex::decode`: accepts upper and lower case digits, and
/// rejects exactly the inputs of odd length or with a character outside
/// the hexadecimal alphabet.
#[verifier::external_body]
pub fn hex_decode(text: &str) -> (r: Option<Vec<u8>>)
    ensures
        r matches Some(v) ==> bytes_of_hex(text@) == Some(v@),
        r is None ==> bytes_of_hex(text@) is None,
{
    hex::decode(text).ok()
}

} // verus!

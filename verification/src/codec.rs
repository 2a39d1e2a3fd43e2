//! The ledger's record framing. A record is stored as text: each string
//! field is framed as its decimal length, a colon, and the field itself;
//! the ownership flag follows as a final `0` or `1`. Decoding mirrors the
//! framing exactly and rejects everything else, which is what lets the
//! ledger tell a corrupt stored value from a well-formed one. The round
//! trip — decoding an encoded record gives the record back — is proved
//! below.

use vstd::prelude::*;
use crate::numtext::{
    all_digits, dec_digits, dec_value, is_digit, lemma_dec_digits_shape, lemma_dec_round_trip,
    parse_u64, u64_text_value, u64_to_dec,
};
use crate::records::{InvoiceData, InvoiceDataView};

verus! {

/// One framed field: decimal length, colon, contents.
pub open spec fn enc_field(f: Seq<char>) -> Seq<char> {
    dec_digits(f.len()) + seq![':'] + f
}

/// The flag character for the ownership bit.
pub open spec fn flag_char(own: bool) -> char {
    if own {
        '1'
    } else {
        '0'
    }
}

/// The stored text of a whole record.
pub open spec fn encode_record_spec(r: InvoiceDataView) -> Seq<char> {
    enc_field(r.preimage_x) + enc_field(r.preimage_h) + enc_field(r.payment_address) + enc_field(
        r.r_hash,
    ) + seq![flag_char(r.is_own_invoice)]
}

/// The length of the maximal digit prefix of `s`.
pub open spec fn digit_prefix_len(s: Seq<char>) -> nat
    decreases s.len(),
{
    if s.len() > 0 && is_digit(s.first()) {
        1 + digit_prefix_len(s.drop_first())
    } else {
        0
    }
}

/// Reads one framed field off the front of `s`: the field and the
/// remainder, or nothing if the front of `s` is not a well-formed frame.
pub open spec fn dec_field(s: Seq<char>) -> Option<(Seq<char>, Seq<char>)> {
    let d = digit_prefix_len(s) as int;
    if d < 1 || d >= s.len() || s[d] != ':' {
        None
    } else {
        let n = dec_value(s.take(d)) as int;
        if s.len() - d - 1 < n {
            None
        } else {
            Some((s.subrange(d + 1, d + 1 + n), s.subrange(d + 1 + n, s.len() as int)))
        }
    }
}

/// Reads a whole record: four framed fields and the flag character, with
/// nothing left over.
pub open spec fn decode_record_spec(s: Seq<char>) -> Option<InvoiceDataView> {
    match dec_field(s) {
        None => None,
        Some((preimage_x, s1)) => match dec_field(s1) {
            None => None,
            Some((preimage_h, s2)) => match dec_field(s2) {
                None => None,
                Some((payment_address, s3)) => match dec_field(s3) {
                    None => None,
                    Some((r_hash, s4)) => {
                        if s4.len() == 1 && (s4[0] == '0' || s4[0] == '1') {
                            Some(
                                InvoiceDataView {
                                    preimage_x,
                                    preimage_h,
                                    payment_address,
                                    r_hash,
                                    is_own_invoice: s4[0] == '1',
                                },
                            )
                        } else {
                            None
                        }
                    },
                },
            },
        },
    }
}

/// The digit prefix of a digit string followed by a non-digit is the
/// digit string itself.
proof fn lemma_digit_prefix_of_append(d: Seq<char>, rest: Seq<char>)
    requires
        all_digits(d),
        rest.len() > 0,
        !is_digit(rest.first()),
    ensures
        digit_prefix_len(d + rest) == d.len(),
    decreases d.len(),
{
    if d.len() == 0 {
        assert(d + rest =~= rest);
    } else {
        assert((d + rest).first() == d.first());
        assert((d + rest).drop_first() =~= d.drop_first() + rest);
        assert(all_digits(d.drop_first())) by {
            assert(forall|i: int|
                0 <= i < d.drop_first().len() ==> #[trigger] d.drop_first()[i] == d[i + 1]);
        }
        lemma_digit_prefix_of_append(d.drop_first(), rest);
    }
}

/// Reading a field off an encoded field followed by anything gives the
/// field and that remainder.
proof fn lemma_dec_field_of_enc(f: Seq<char>, rest: Seq<char>)
    ensures
        dec_field(enc_field(f) + rest) == Some((f, rest)),
{
    let header = dec_digits(f.len());
    let s = enc_field(f) + rest;
    lemma_dec_digits_shape(f.len());
    assert(s =~= header + (seq![':'] + f + rest));
    assert((seq![':'] + f + rest).first() == ':');
    lemma_digit_prefix_of_append(header, seq![':'] + f + rest);
    let d = digit_prefix_len(s) as int;
    assert(d == header.len());
    assert(s[d] == ':');
    assert(s.take(d) =~= header);
    lemma_dec_round_trip(f.len());
    assert(dec_value(s.take(d)) == f.len());
    let n = f.len() as int;
    assert(s.len() - d - 1 >= n);
    assert(s.subrange(d + 1, d + 1 + n) =~= f);
    assert(s.subrange(d + 1 + n, s.len() as int) =~= rest);
}

/// Decoding an encoded record gives the record back.
pub proof fn lemma_record_round_trip(r: InvoiceDataView)
    ensures
        decode_record_spec(encode_record_spec(r)) == Some(r),
{
    let s = encode_record_spec(r);
    let tail1 = enc_field(r.preimage_h) + enc_field(r.payment_address) + enc_field(r.r_hash)
        + seq![flag_char(r.is_own_invoice)];
    assert(s =~= enc_field(r.preimage_x) + tail1);
    lemma_dec_field_of_enc(r.preimage_x, tail1);
    let tail2 = enc_field(r.payment_address) + enc_field(r.r_hash) + seq![
        flag_char(r.is_own_invoice),
    ];
    assert(tail1 =~= enc_field(r.preimage_h) + tail2);
    lemma_dec_field_of_enc(r.preimage_h, tail2);
    let tail3 = enc_field(r.r_hash) + seq![flag_char(r.is_own_invoice)];
    assert(tail2 =~= enc_field(r.payment_address) + tail3);
    lemma_dec_field_of_enc(r.payment_address, tail3);
    let tail4 = seq![flag_char(r.is_own_invoice)];
    assert(tail3 =~= enc_field(r.r_hash) + tail4);
    lemma_dec_field_of_enc(r.r_hash, tail4);
}

/// Appends one framed field to the output.
fn push_field(out: &mut String, f: &str)
    ensures
        final(out)@ == old(out)@ + enc_field(f@),
{
    let len = f.unicode_len();
    let header = u64_to_dec(len as u64);
    out.append(header.as_str());
    out.append(":");
    out.append(f);
    proof {
        reveal_strlit(":");
        assert(final(out)@ =~= old(out)@ + enc_field(f@));
    }
}

/// Encodes a record for storage.
pub fn encode_record(r: &InvoiceData) -> (s: String)
    ensures
        s@ == encode_record_spec(r@),
{
    let mut out = String::new();
    push_field(&mut out, r.preimage_x.as_str());
    push_field(&mut out, r.preimage_h.as_str());
    push_field(&mut out, r.payment_address.as_str());
    push_field(&mut out, r.r_hash.as_str());
    if r.is_own_invoice {
        out.append("1");
    } else {
        out.append("0");
    }
    proof {
        reveal_strlit("0");
        reveal_strlit("1");
        assert(out@ =~= encode_record_spec(r@));
    }
    out
}

/// Finds the maximal digit prefix of `s`.
fn digit_prefix(s: &str) -> (d: usize)
    ensures
        d as nat == digit_prefix_len(s@),
        d <= s@.len(),
{
    let len = s.unicode_len();
    let mut i: usize = 0;
    while i < len
        invariant
            0 <= i <= len,
            len == s@.len(),
            all_digits(s@.take(i as int)),
            forall|j: int| 0 <= j < i ==> is_digit(#[trigger] s@[j]),
        decreases len - i,
    {
        let c = s.get_char(i);
        if c < '0' || c > '9' {
            proof {
                lemma_digit_prefix_characterization(s@, i as int);
            }
            return i;
        }
        i = i + 1;
    }
    proof {
        lemma_digit_prefix_characterization(s@, len as int);
    }
    len
}

/// The digit prefix length is the first position holding a non-digit, or
/// the whole length if there is none.
proof fn lemma_digit_prefix_characterization(s: Seq<char>, i: int)
    requires
        0 <= i <= s.len(),
        forall|j: int| 0 <= j < i ==> is_digit(#[trigger] s[j]),
        i < s.len() ==> !is_digit(s[i]),
    ensures
        digit_prefix_len(s) == i,
    decreases s.len(),
{
    if i == 0 {
    } else {
        assert(is_digit(s.first()));
        assert(forall|j: int|
            0 <= j < i - 1 ==> #[trigger] s.drop_first()[j] == s[j + 1] && is_digit(s[j + 1]));
        if i - 1 < s.drop_first().len() {
            assert(s.drop_first()[i - 1] == s[i]);
        }
        lemma_digit_prefix_characterization(s.drop_first(), i - 1);
    }
}

/// Reads one framed field off the front of `s`.
fn decode_field(s: &str) -> (r: Option<(String, String)>)
    ensures
        r matches Some(p) ==> dec_field(s@) == Some((p.0@, p.1@)),
        r is None ==> dec_field(s@) is None,
{
    let len = s.unicode_len();
    let d = digit_prefix(s);
    if d < 1 || d >= len {
        return None;
    }
    let colon = s.get_char(d);
    if colon != ':' {
        return None;
    }
    let header = s.substring_char(0, d);
    proof {
        assert(header@ =~= s@.take(d as int));
    }
    let n = match parse_u64(header) {
        Some(n) => n,
        None => {
            proof {
                lemma_header_digits(s@, d as int);
                assert(u64_text_value(s@.take(d as int)) == Some(dec_value(s@.take(d as int))));
                assert(dec_value(s@.take(d as int)) > u64::MAX);
                assert(s@.len() - d - 1 < dec_value(s@.take(d as int)));
            }
            return None;
        },
    };
    proof {
        lemma_header_digits(s@, d as int);
    }
    if n > (len - d - 1) as u64 {
        return None;
    }
    let n_us = n as usize;
    let field = s.substring_char(d + 1, d + 1 + n_us).to_owned();
    let rest = s.substring_char(d + 1 + n_us, len).to_owned();
    Some((field, rest))
}

/// The digit prefix of `s` consists of digits.
proof fn lemma_header_digits(s: Seq<char>, d: int)
    requires
        0 <= d <= s.len(),
        d == digit_prefix_len(s),
    ensures
        d >= 1 ==> u64_text_value(s.take(d)) == Some(dec_value(s.take(d))),
    decreases d,
{
    assert forall|j: int| 0 <= j < d implies is_digit(#[trigger] s.take(d)[j]) by {
        lemma_digit_prefix_is_digits(s, j);
    }
}

/// The digit prefix never runs past the end of the string.
proof fn lemma_digit_prefix_bounded(s: Seq<char>)
    ensures
        digit_prefix_len(s) <= s.len(),
    decreases s.len(),
{
    if s.len() > 0 && is_digit(s.first()) {
        lemma_digit_prefix_bounded(s.drop_first());
    }
}

/// Every position inside the digit prefix holds a digit.
proof fn lemma_digit_prefix_is_digits(s: Seq<char>, j: int)
    requires
        0 <= j < digit_prefix_len(s),
    ensures
        is_digit(s[j]),
    decreases j,
{
    lemma_digit_prefix_bounded(s);
    if j == 0 {
    } else {
        lemma_digit_prefix_bounded(s.drop_first());
        assert(s.drop_first()[j - 1] == s[j]);
        lemma_digit_prefix_is_digits(s.drop_first(), j - 1);
    }
}

/// Decodes a stored record, rejecting any text that is not exactly the
/// encoding of one.
pub fn decode_record(s: &str) -> (r: Option<InvoiceData>)
    ensures
        r matches Some(rec) ==> decode_record_spec(s@) == Some(rec@),
        r is None ==> decode_record_spec(s@) is None,
{
    let (preimage_x, s1) = match decode_field(s) {
        Some(p) => p,
        None => {
            return None;
        },
    };
    let (preimage_h, s2) = match decode_field(s1.as_str()) {
        Some(p) => p,
        None => {
            return None;
        },
    };
    let (payment_address, s3) = match decode_field(s2.as_str()) {
        Some(p) => p,
        None => {
            return None;
        },
    };
    let (r_hash, s4) = match decode_field(s3.as_str()) {
        Some(p) => p,
        None => {
            return None;
        },
    };
    if s4.as_str().unicode_len() != 1 {
        return None;
    }
    let flag = s4.as_str().get_char(0);
    if flag != '0' && flag != '1' {
        return None;
    }
    Some(
        InvoiceData {
            preimage_x,
            preimage_h,
            payment_address,
            r_hash,
            is_own_invoice: flag == '1',
        },
    )
}

} // verus!

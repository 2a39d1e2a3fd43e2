//! Decimal text: rendering unsigned numbers as digit strings and parsing
//! them back, with a proven round trip. The invoice-record codec frames
//! fields with decimal lengths, and the status logic reads numeric fields
//! such as the block height, so both directions carry exact contracts.

use vstd::prelude::*;

verus! {

/// A decimal digit character.
pub open spec fn is_digit(c: char) -> bool {
    '0' <= c && c <= '9'
}

/// The numeric value of a digit character.
pub open spec fn digit_val(c: char) -> nat
    recommends
        is_digit(c),
{
    (c as u32 - '0' as u32) as nat
}

/// The digit character for a value below ten.
pub open spec fn digit_char(n: nat) -> char
    recommends
        n < 10,
{
    if n == 0 {
        '0'
    } else if n == 1 {
        '1'
    } else if n == 2 {
        '2'
    } else if n == 3 {
        '3'
    } else if n == 4 {
        '4'
    } else if n == 5 {
        '5'
    } else if n == 6 {
        '6'
    } else if n == 7 {
        '7'
    } else if n == 8 {
        '8'
    } else {
        '9'
    }
}

/// Every character of `s` is a decimal digit.
pub open spec fn all_digits(s: Seq<char>) -> bool {
    forall|i: int| 0 <= i < s.len() ==> is_digit(#[trigger] s[i])
}

/// The number that a digit string denotes, most significant digit first.
pub open spec fn dec_value(s: Seq<char>) -> nat
    decreases s.len(),
{
    if s.len() == 0 {
        0
    } else {
        dec_value(s.drop_last()) * 10 + digit_val(s.last())
    }
}

/// The canonical decimal rendering of `n`: no sign, no leading zeros
/// (except for `n == 0` itself, rendered as "0").
pub open spec fn dec_digits(n: nat) -> Seq<char>
    decreases n,
{
    if n < 10 {
        seq![digit_char(n)]
    } else {
        dec_digits(n / 10).push(digit_char(n % 10))
    }
}

/// Ten to the power `n`.
pub open spec fn pow10(n: nat) -> nat
    decreases n,
{
    if n == 0 {
        1
    } else {
        10 * pow10((n - 1) as nat)
    }
}

/// What a signed decimal string denotes: an optional sign, then at least
/// one digit. The value is unbounded here; the parser applies the type's
/// range.
pub open spec fn i64_text_value(s: Seq<char>) -> Option<int> {
    if s.len() >= 1 && (s[0] == '-' || s[0] == '+') {
        let digits = s.drop_first();
        if digits.len() >= 1 && all_digits(digits) {
            if s[0] == '-' {
                Some(-(dec_value(digits) as int))
            } else {
                Some(dec_value(digits) as int)
            }
        } else {
            None
        }
    } else if s.len() >= 1 && all_digits(s) {
        Some(dec_value(s) as int)
    } else {
        None
    }
}

/// What an unsigned decimal string denotes: at least one digit, no sign.
pub open spec fn u64_text_value(s: Seq<char>) -> Option<nat> {
    if s.len() >= 1 && all_digits(s) {
        Some(dec_value(s))
    } else {
        None
    }
}

pub proof fn lemma_pow10_pos(n: nat)
    ensures
        pow10(n) >= 1,
    decreases n,
{
    if n > 0 {
        lemma_pow10_pos((n - 1) as nat);
    }
}

/// Splitting a digit string: the value of a concatenation is the value of
/// the head scaled by the length of the tail, plus the value of the tail.
pub proof fn lemma_dec_value_append(a: Seq<char>, b: Seq<char>)
    ensures
        dec_value(a + b) == dec_value(a) * pow10(b.len()) + dec_value(b),
    decreases b.len(),
{
    if b.len() == 0 {
        assert(a + b =~= a);
        assert(pow10(b.len()) == 1);
        assert(dec_value(b) == 0);
        assert(dec_value(a) * 1 == dec_value(a));
    } else {
        let ab = a + b;
        let b0 = b.drop_last();
        lemma_dec_value_append(a, b0);
        assert(ab.drop_last() =~= a + b0);
        assert(ab.last() == b.last());
        assert(ab.len() >= 1);
        assert(dec_value(ab) == dec_value(ab.drop_last()) * 10 + digit_val(ab.last()));
        assert(dec_value(ab.drop_last()) == dec_value(a + b0));
        assert(pow10(b.len()) == 10 * pow10(b0.len()));
        assert(dec_value(b) == dec_value(b0) * 10 + digit_val(b.last()));
        assert(dec_value(a + b) == dec_value(a) * pow10(b.len()) + dec_value(b)) by (
        nonlinear_arith)
            requires
                dec_value(a + b) == dec_value(a + b0) * 10 + digit_val(b.last()),
                dec_value(a + b0) == dec_value(a) * pow10(b0.len()) + dec_value(b0),
                pow10(b.len()) == 10 * pow10(b0.len()),
                dec_value(b) == dec_value(b0) * 10 + digit_val(b.last()),
        ;
    }
}

/// A prefix of a digit string never denotes more than the whole string.
pub proof fn lemma_dec_value_prefix_le(s: Seq<char>, j: int)
    requires
        0 <= j <= s.len(),
    ensures
        dec_value(s.take(j)) <= dec_value(s),
{
    let rest = s.subrange(j, s.len() as int);
    assert(s =~= s.take(j) + rest);
    lemma_dec_value_append(s.take(j), rest);
    lemma_pow10_pos(rest.len());
    assert(dec_value(s.take(j)) * pow10(rest.len()) >= dec_value(s.take(j)) * 1) by (
    nonlinear_arith)
        requires
            pow10(rest.len()) >= 1,
    ;
}

/// The canonical rendering consists of digits and is never empty.
pub proof fn lemma_dec_digits_shape(n: nat)
    ensures
        dec_digits(n).len() >= 1,
        all_digits(dec_digits(n)),
        is_digit(dec_digits(n).first()),
    decreases n,
{
    if n < 10 {
    } else {
        lemma_dec_digits_shape(n / 10);
        assert forall|i: int| 0 <= i < dec_digits(n).len() implies is_digit(
            #[trigger] dec_digits(n)[i],
        ) by {
            if i < dec_digits(n / 10).len() {
                assert(dec_digits(n)[i] == dec_digits(n / 10)[i]);
            }
        }
    }
}

/// The digit character of a value below ten reads back as that value.
pub proof fn lemma_digit_char_val(n: nat)
    requires
        n < 10,
    ensures
        digit_val(digit_char(n)) == n,
        is_digit(digit_char(n)),
{
}

/// Rendering then reading back gives the number itself.
pub proof fn lemma_dec_round_trip(n: nat)
    ensures
        dec_value(dec_digits(n)) == n,
    decreases n,
{
    if n < 10 {
        lemma_digit_char_val(n);
        assert(dec_digits(n).drop_last() =~= Seq::<char>::empty());
        assert(dec_digits(n).last() == digit_char(n));
        assert(dec_value(Seq::<char>::empty()) == 0);
        assert(dec_value(dec_digits(n)) == dec_value(dec_digits(n).drop_last()) * 10 + digit_val(
            dec_digits(n).last(),
        ));
    } else {
        lemma_dec_round_trip(n / 10);
        lemma_digit_char_val(n % 10);
        assert(dec_digits(n).drop_last() =~= dec_digits(n / 10));
        assert(dec_digits(n).last() == digit_char(n % 10));
        assert(n / 10 * 10 + n % 10 == n) by {
            vstd::arithmetic::div_mod::lemma_fundamental_div_mod(n as int, 10);
        }
    }
}

/// The digit character for `d`, as a one-character string slice.
fn digit_str(d: u64) -> (r: &'static str)
    requires
        d < 10,
    ensures
        r@ =~= seq![digit_char(d as nat)],
{
    proof {
        reveal_strlit("0");
        reveal_strlit("1");
        reveal_strlit("2");
        reveal_strlit("3");
        reveal_strlit("4");
        reveal_strlit("5");
        reveal_strlit("6");
        reveal_strlit("7");
        reveal_strlit("8");
        reveal_strlit("9");
    }
    match d {
        0 => "0",
        1 => "1",
        2 => "2",
        3 => "3",
        4 => "4",
        5 => "5",
        6 => "6",
        7 => "7",
        8 => "8",
        _ => "9",
    }
}

/// Renders `n` in decimal, canonically.
pub fn u64_to_dec(n: u64) -> (s: String)
    ensures
        s@ == dec_digits(n as nat),
    decreases n,
{
    if n < 10 {
        let s = digit_str(n).to_owned();
        proof {
            assert(s@ =~= dec_digits(n as nat));
        }
        s
    } else {
        let mut s = u64_to_dec(n / 10);
        s.append(digit_str(n % 10));
        proof {
            assert(s@ =~= dec_digits(n as nat));
        }
        s
    }
}

/// Reads an unsigned decimal string: at least one digit, nothing else, and
/// a value that fits in a `u64`.
pub fn parse_u64(s: &str) -> (r: Option<u64>)
    ensures
        r matches Some(n) ==> u64_text_value(s@) == Some(n as nat),
        r is None ==> !(u64_text_value(s@) matches Some(v) && v <= u64::MAX),
{
    let len = s.unicode_len();
    if len == 0 {
        return None;
    }
    let mut acc: u64 = 0;
    let mut i: usize = 0;
    while i < len
        invariant
            0 < len == s@.len(),
            0 <= i <= len,
            all_digits(s@.take(i as int)),
            acc as nat == dec_value(s@.take(i as int)),
        decreases len - i,
    {
        let c = s.get_char(i);
        if c < '0' || c > '9' {
            assert(!is_digit(s@[i as int]));
            return None;
        }
        let d: u64 = (c as u32 - '0' as u32) as u64;
        let shifted = match acc.checked_mul(10) {
            Some(x) => x,
            None => {
                proof {
                    overflow_means_out_of_range(s@, i as int);
                }
                return None;
            },
        };
        let next = match shifted.checked_add(d) {
            Some(x) => x,
            None => {
                proof {
                    overflow_means_out_of_range(s@, i as int);
                }
                return None;
            },
        };
        proof {
            assert(s@.take(i + 1).drop_last() =~= s@.take(i as int));
            assert(s@.take(i + 1).last() == s@[i as int]);
        }
        acc = next;
        i = i + 1;
    }
    proof {
        assert(s@.take(len as int) =~= s@);
    }
    Some(acc)
}

/// If the next digit pushes the accumulator past `u64::MAX`, the whole
/// string's value is out of range (or some later character is no digit).
proof fn overflow_means_out_of_range(s: Seq<char>, i: int)
    requires
        0 <= i < s.len(),
        all_digits(s.take(i)),
        is_digit(s[i]),
        dec_value(s.take(i)) * 10 + digit_val(s[i]) > u64::MAX,
    ensures
        !(u64_text_value(s) matches Some(v) && v <= u64::MAX),
{
    if s.len() >= 1 && all_digits(s) {
        assert(s.take(i + 1).drop_last() =~= s.take(i));
        assert(s.take(i + 1).last() == s[i]);
        assert(dec_value(s.take(i + 1)) > u64::MAX);
        lemma_dec_value_prefix_le(s, i + 1);
    }
}

/// Reads a signed decimal string: an optional sign, then digits, with a
/// value in `i64` range.
pub fn parse_i64(s: &str) -> (r: Option<i64>)
    ensures
        r matches Some(n) ==> i64_text_value(s@) == Some(n as int),
        r is None ==> !(i64_text_value(s@) matches Some(v) && i64::MIN <= v <= i64::MAX),
{
    let len = s.unicode_len();
    if len == 0 {
        return None;
    }
    let first = s.get_char(0);
    if first == '-' || first == '+' {
        let digits = s.substring_char(1, len);
        proof {
            assert(digits@ =~= s@.drop_first());
        }
        match parse_u64(digits) {
            Some(n) => {
                if first == '-' {
                    if n <= 9223372036854775808u64 {
                        proof {
                            assert(0 - n as int >= i64::MIN);
                        }
                        if n == 9223372036854775808u64 {
                            Some(i64::MIN)
                        } else {
                            Some(-(n as i64))
                        }
                    } else {
                        None
                    }
                } else {
                    if n <= i64::MAX as u64 {
                        Some(n as i64)
                    } else {
                        None
                    }
                }
            },
            None => {
                proof {
                    if i64_text_value(s@) matches Some(v) && i64::MIN <= v <= i64::MAX {
                        assert(u64_text_value(digits@) matches Some(dv) && dv <= u64::MAX);
                    }
                }
                None
            },
        }
    } else {
        match parse_u64(s) {
            Some(n) => {
                if n <= i64::MAX as u64 {
                    Some(n as i64)
                } else {
                    None
                }
            },
            None => None,
        }
    }
}

} // verus!

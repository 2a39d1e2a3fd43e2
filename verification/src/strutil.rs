//! Verified text helpers: substring search (used to spot wallet-lock
//! indicators in CLI error text), prefix tests and splitting at the
//! first occurrence of a separator (used for configuration lines and
//! channel points).

use vstd::prelude::*;

verus! {

/// `needle` occurs in `hay` starting at position `i`.
pub open spec fn occurs_at(hay: Seq<char>, needle: Seq<char>, i: int) -> bool {
    0 <= i && i + needle.len() <= hay.len() && hay.subrange(i, i + needle.len()) == needle
}

/// `needle` occurs somewhere in `hay`.
pub open spec fn contains_seq(hay: Seq<char>, needle: Seq<char>) -> bool {
    exists|i: int| occurs_at(hay, needle, i)
}

/// Whether `needle` occurs in `hay` starting at `i`.
fn match_at(hay: &str, needle: &str, i: usize) -> (r: bool)
    requires
        i + needle@.len() <= hay@.len(),
        hay@.len() <= usize::MAX,
    ensures
        r == occurs_at(hay@, needle@, i as int),
{
    let nlen = needle.unicode_len();
    let mut j: usize = 0;
    while j < nlen
        invariant
            0 <= j <= nlen,
            nlen == needle@.len(),
            i + nlen <= hay@.len(),
            hay@.len() <= usize::MAX,
            forall|k: int| 0 <= k < j ==> hay@[i + k] == #[trigger] needle@[k],
        decreases nlen - j,
    {
        let hc = hay.get_char(i + j);
        let nc = needle.get_char(j);
        if hc != nc {
            proof {
                if occurs_at(hay@, needle@, i as int) {
                    assert(hay@.subrange(i as int, i + needle@.len())[j as int] == hay@[i + j]);
                }
            }
            return false;
        }
        j = j + 1;
    }
    proof {
        assert(hay@.subrange(i as int, i + needle@.len()) =~= needle@);
    }
    true
}

/// Substring search: whether `needle` occurs anywhere in `hay`.
pub fn str_contains(hay: &str, needle: &str) -> (r: bool)
    ensures
        r == contains_seq(hay@, needle@),
{
    let hlen = hay.unicode_len();
    let nlen = needle.unicode_len();
    if nlen > hlen {
        return false;
    }
    if nlen == 0 {
        proof {
            assert(hay@.subrange(0, 0) =~= needle@);
            assert(occurs_at(hay@, needle@, 0));
        }
        return true;
    }
    let mut i: usize = 0;
    while i <= hlen - nlen
        invariant
            0 <= i <= hlen - nlen + 1,
            1 <= nlen <= hlen,
            hlen == hay@.len(),
            nlen == needle@.len(),
            forall|j: int| 0 <= j < i ==> !occurs_at(hay@, needle@, j),
        decreases hlen - nlen - i + 1,
    {
        if match_at(hay, needle, i) {
            return true;
        }
        i = i + 1;
    }
    false
}

/// Prefix test: whether `s` begins with `prefix`.
pub fn str_starts_with(s: &str, prefix: &str) -> (r: bool)
    ensures
        r == (s@.len() >= prefix@.len() && occurs_at(s@, prefix@, 0)),
{
    if prefix.unicode_len() > s.unicode_len() {
        return false;
    }
    match_at(s, prefix, 0)
}

/// Splits `s` at the first occurrence of `stop`: the part before (which
/// never holds `stop`) and the part after. Nothing if `stop` does not
/// occur.
pub fn split_at_first(s: &str, stop: char) -> (r: Option<(String, String)>)
    ensures
        r matches Some(p) ==> s@ == p.0@ + seq![stop] + p.1@ && (forall|j: int|
            0 <= j < p.0@.len() ==> p.0@[j] != stop),
        r is None ==> forall|j: int| 0 <= j < s@.len() ==> s@[j] != stop,
{
    let len = s.unicode_len();
    let mut i: usize = 0;
    while i < len
        invariant
            0 <= i <= len,
            len == s@.len(),
            forall|j: int| 0 <= j < i ==> s@[j] != stop,
        decreases len - i,
    {
        let c = s.get_char(i);
        if c == stop {
            let before = s.substring_char(0, i).to_owned();
            let after = s.substring_char(i + 1, len).to_owned();
            proof {
                assert(before@ =~= s@.subrange(0, i as int));
                assert(after@ =~= s@.subrange(i + 1, len as int));
                assert(s@ =~= before@ + seq![stop] + after@);
            }
            return Some((before, after));
        }
        i = i + 1;
    }
    None
}

/// The text before the first occurrence of `stop` in `s`, or all of `s`
/// if `stop` does not occur.
pub open spec fn before_char(s: Seq<char>, stop: char) -> Seq<char>
    decreases s.len(),
{
    if s.len() == 0 {
        Seq::<char>::empty()
    } else if s.first() == stop {
        Seq::<char>::empty()
    } else {
        seq![s.first()] + before_char(s.drop_first(), stop)
    }
}

/// `before_char` never yields more than its input.
pub proof fn lemma_before_char_len(s: Seq<char>, stop: char)
    ensures
        before_char(s, stop).len() <= s.len(),
    decreases s.len(),
{
    if s.len() > 0 && s.first() != stop {
        lemma_before_char_len(s.drop_first(), stop);
    }
}

/// Where `stop` does not occur, `before_char` is the whole string.
pub proof fn lemma_no_stop_before_char(s: Seq<char>, stop: char)
    requires
        forall|j: int| 0 <= j < s.len() ==> s[j] != stop,
    ensures
        before_char(s, stop) == s,
{
    lemma_before_char_characterization(s, stop, s.len() as int);
    assert(s.take(s.len() as int) =~= s);
}

/// Where a string splits as `a + [stop] + b` with no `stop` in `a`, the
/// part before `stop` is `a`.
pub proof fn lemma_split_is_before_char(s: Seq<char>, a: Seq<char>, b: Seq<char>, stop: char)
    requires
        s == a + seq![stop] + b,
        forall|j: int| 0 <= j < a.len() ==> a[j] != stop,
    ensures
        before_char(s, stop) == a,
{
    assert(forall|j: int| 0 <= j < a.len() ==> s[j] == a[j]);
    assert(s[a.len() as int] == stop);
    lemma_before_char_characterization(s, stop, a.len() as int);
    assert(s.take(a.len() as int) =~= a);
}

/// `before_char` is the prefix up to the first occurrence.
proof fn lemma_before_char_characterization(s: Seq<char>, stop: char, i: int)
    requires
        0 <= i <= s.len(),
        forall|j: int| 0 <= j < i ==> s[j] != stop,
        i < s.len() ==> s[i] == stop,
    ensures
        before_char(s, stop) == s.take(i),
    decreases s.len(),
{
    if s.len() == 0 {
        assert(before_char(s, stop) =~= s.take(i));
    } else if i == 0 {
        assert(s.take(0) =~= Seq::<char>::empty());
    } else {
        assert(s.first() != stop);
        assert(forall|j: int|
            0 <= j < i - 1 ==> #[trigger] s.drop_first()[j] == s[j + 1] && s[j + 1] != stop);
        if i - 1 < s.drop_first().len() {
            assert(s.drop_first()[i - 1] == s[i]);
        }
        lemma_before_char_characterization(s.drop_first(), stop, i - 1);
        assert(before_char(s, stop) == seq![s.first()] + s.drop_first().take(i - 1));
        assert(seq![s.first()] + s.drop_first().take(i - 1) =~= s.take(i));
    }
}

/// The text before the first occurrence of `stop`, or all of `s` if
/// `stop` does not occur.
pub fn prefix_before(s: &str, stop: char) -> (r: String)
    ensures
        r@ == before_char(s@, stop),
{
    let len = s.unicode_len();
    let mut i: usize = 0;
    while i < len
        invariant
            0 <= i <= len,
            len == s@.len(),
            forall|j: int| 0 <= j < i ==> s@[j] != stop,
        decreases len - i,
    {
        let c = s.get_char(i);
        if c == stop {
            let before = s.substring_char(0, i).to_owned();
            proof {
                lemma_before_char_characterization(s@, stop, i as int);
                assert(before@ =~= s@.take(i as int));
            }
            return before;
        }
        i = i + 1;
    }
    proof {
        lemma_before_char_characterization(s@, stop, len as int);
        assert(s@.take(len as int) =~= s@);
    }
    s.to_owned()
}

} // verus!

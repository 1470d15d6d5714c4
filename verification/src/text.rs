//! Character-level text helpers: equality, prefix tests, and occurrence of a
//! pattern inside a text, together with the facts the rest of the crate needs
//! about them.
use vstd::prelude::*;
use vstd::string::*;

verus! {

/// `pat` stands at the front of `s`.
pub open spec fn begins_with(s: Seq<char>, pat: Seq<char>) -> bool {
    pat.len() <= s.len() && s.take(pat.len() as int) == pat
}

/// `pat` occurs somewhere in `s`.
pub open spec fn occurs(s: Seq<char>, pat: Seq<char>) -> bool {
    exists|i: int|
        0 <= i <= s.len() - pat.len() && #[trigger] s.subrange(i, i + pat.len() as int) == pat
}

/// The character `c` occurs nowhere in `s`.
pub open spec fn char_free(s: Seq<char>, c: char) -> bool {
    forall|i: int| 0 <= i < s.len() ==> s[i] != c
}

/// Appends one character to a text.
///
/// Relies on `String::push`: it appends exactly the given character.
#[verifier::external_body]
pub(crate) fn push_char(s: &mut String, c: char)
    ensures
        final(s)@ == old(s)@ + seq![c],
{
    s.push(c);
}

/// Character-for-character equality of two text slices.
pub fn str_eq(a: &str, b: &str) -> (r: bool)
    ensures
        r == (a@ == b@),
{
    let alen = a.unicode_len();
    let blen = b.unicode_len();
    if alen != blen {
        return false;
    }
    let mut i: usize = 0;
    while i < alen
        invariant
            alen == a@.len(),
            alen == b@.len(),
            i <= alen,
            forall|j: int| 0 <= j < i ==> a@[j] == b@[j],
        decreases alen - i,
    {
        if a.get_char(i) != b.get_char(i) {
            return false;
        }
        i += 1;
    }
    proof {
        assert(a@ =~= b@);
    }
    true
}

/// Does `pat` stand at position `i` of `s`?
pub fn matches_at(s: &str, i: usize, pat: &str) -> (r: bool)
    requires
        i <= s@.len(),
    ensures
        r == begins_with(s@.skip(i as int), pat@),
{
    let slen = s.unicode_len();
    let plen = pat.unicode_len();
    if plen > slen - i {
        return false;
    }
    let mut j: usize = 0;
    while j < plen
        invariant
            slen == s@.len(),
            plen == pat@.len(),
            i <= slen,
            plen <= slen - i,
            j <= plen,
            forall|k: int| 0 <= k < j ==> s@[i + k] == pat@[k],
        decreases plen - j,
    {
        if s.get_char(i + j) != pat.get_char(j) {
            proof {
                assert(s@.skip(i as int)[j as int] == s@[i + j]);
            }
            return false;
        }
        j += 1;
    }
    proof {
        assert(s@.skip(i as int).take(plen as int) =~= pat@);
    }
    true
}

/// An occurrence at a given position is an occurrence.
pub proof fn lemma_occurs_at(s: Seq<char>, pat: Seq<char>, i: int)
    requires
        0 <= i <= s.len() - pat.len(),
        s.subrange(i, i + pat.len() as int) == pat,
    ensures
        occurs(s, pat),
{
}

/// An occurrence inside the right part of a concatenation is an occurrence in
/// the whole.
pub proof fn lemma_occurs_in_extension(a: Seq<char>, b: Seq<char>, pat: Seq<char>)
    requires
        occurs(b, pat),
    ensures
        occurs(a + b, pat),
{
    let i = choose|i: int|
        0 <= i <= b.len() - pat.len() && #[trigger] b.subrange(i, i + pat.len() as int) == pat;
    assert((a + b).subrange(a.len() + i, a.len() + i + pat.len() as int) =~= b.subrange(
        i,
        i + pat.len() as int,
    ));
}

/// A text that is free of some character stays free of it under concatenation.
pub proof fn lemma_char_free_concat(a: Seq<char>, b: Seq<char>, c: char)
    requires
        char_free(a, c),
        char_free(b, c),
    ensures
        char_free(a + b, c),
{
    assert forall|i: int| 0 <= i < (a + b).len() implies (a + b)[i] != c by {
        if i < a.len() {
            assert((a + b)[i] == a[i]);
        } else {
            assert((a + b)[i] == b[i - a.len()]);
        }
    }
}

/// A pattern that begins with character `c` cannot occur in a text free of `c`.
pub proof fn lemma_char_free_excludes(s: Seq<char>, pat: Seq<char>, c: char)
    requires
        char_free(s, c),
        pat.len() > 0,
        pat[0] == c,
    ensures
        !occurs(s, pat),
{
    if occurs(s, pat) {
        let i = choose|i: int|
            0 <= i <= s.len() - pat.len() && #[trigger] s.subrange(i, i + pat.len() as int)
                == pat;
        assert(s[i] == s.subrange(i, i + pat.len() as int)[0]);
    }
}

} // verus!

//! Characters of a string, one by one, and where one text occurs in another.

use vstd::prelude::*;
use vstd::string::*;
use vstd::utf8::{
    encode_scalar,
    encode_utf8,
    encode_utf8_decode_utf8,
    encode_utf8_first_scalar,
    encode_utf8_valid_utf8,
    is_char_boundary,
    pop_first_scalar,
};

verus! {

/// `pattern` stands in `text` at index `at`.
pub open spec fn occurs_at(text: Seq<char>, at: int, pattern: Seq<char>) -> bool {
    &&& 0 <= at
    &&& at + pattern.len() <= text.len()
    &&& text.subrange(at, at + pattern.len()) == pattern
}

/// `pattern` stands somewhere in `text`. The empty pattern stands in every text.
pub open spec fn occurs_in(text: Seq<char>, pattern: Seq<char>) -> bool {
    exists|at: int| occurs_at(text, at, pattern)
}

/// The bytes that `c` takes in UTF-8.
pub open spec fn utf8_len(c: char) -> nat {
    encode_scalar(c as u32).len()
}

/// The bytes that `c` takes in UTF-8.
pub fn len_utf8(c: char) -> (len: usize)
    ensures
        len == utf8_len(c),
{
    if c <= '\u{7f}' {
        1
    } else if c <= '\u{7ff}' {
        2
    } else if c <= '\u{ffff}' {
        3
    } else {
        4
    }
}

/// The bytes of two texts, one behind the other, are the bytes of the one
/// behind the bytes of the other.
pub proof fn lemma_encode_concat(a: Seq<char>, b: Seq<char>)
    ensures
        encode_utf8(a + b) == encode_utf8(a) + encode_utf8(b),
    decreases a.len(),
{
    if a.len() == 0 {
        assert(a + b =~= b);
        assert(encode_utf8(a) + encode_utf8(b) =~= encode_utf8(b));
    } else {
        lemma_encode_concat(a.drop_first(), b);
        assert((a + b).drop_first() =~= a.drop_first() + b);
        assert(encode_utf8(a + b) =~= encode_utf8(a) + encode_utf8(b));
    }
}

/// A character more makes a text longer by the bytes of that character.
pub proof fn lemma_encode_push(a: Seq<char>, c: char)
    ensures
        encode_utf8(a.push(c)).len() == encode_utf8(a).len() + utf8_len(c),
{
    lemma_encode_concat(a, seq![c]);
    assert(a.push(c) =~= a + seq![c]);
    reveal_with_fuel(encode_utf8, 2);
    assert(seq![c].drop_first() =~= Seq::<char>::empty());
    assert(encode_utf8(seq![c]) =~= encode_scalar(c as u32));
}

/// A text has no fewer bytes than characters.
pub proof fn lemma_encode_len(s: Seq<char>)
    ensures
        encode_utf8(s).len() >= s.len(),
    decreases s.len(),
{
    if s.len() > 0 {
        lemma_encode_len(s.drop_last());
        lemma_encode_push(s.drop_last(), s.last());
        assert(s =~= s.drop_last().push(s.last()));
    }
}

/// The bytes of the first `k` characters of a text end where a character
/// ends, and are no more than the bytes of the text.
pub proof fn lemma_boundary_behind(s: Seq<char>, k: int)
    requires
        0 <= k <= s.len(),
    ensures
        is_char_boundary(encode_utf8(s), encode_utf8(s.take(k)).len() as int),
        encode_utf8(s) == encode_utf8(s.take(k)) + encode_utf8(s.skip(k)),
    decreases k,
{
    encode_utf8_valid_utf8(s);
    lemma_encode_concat(s.take(k), s.skip(k));
    assert(s =~= s.take(k) + s.skip(k));
    if k == 0 {
        assert(s.take(0) =~= Seq::<char>::empty());
    } else {
        let bytes = encode_utf8(s);
        encode_utf8_first_scalar(s);
        assert(pop_first_scalar(bytes) =~= encode_utf8(s.drop_first()));
        lemma_boundary_behind(s.drop_first(), k - 1);
        assert(s.take(k).drop_first() =~= s.drop_first().take(k - 1));
        assert(s.take(k)[0] == s[0]);
    }
}

/// The first `k` characters of `s` and the rest of it, where `bytes` is the
/// number of bytes that the first `k` characters take.
pub(crate) fn split_behind<'a>(s: &'a str, Ghost(k): Ghost<int>, bytes: usize) -> (parts: (
    &'a str,
    &'a str,
))
    requires
        0 <= k <= s@.len(),
        bytes == encode_utf8(s@.take(k)).len(),
    ensures
        parts.0@ == s@.take(k),
        parts.1@ == s@.skip(k),
{
    proof {
        lemma_boundary_behind(s@, k);
    }
    let parts = s.split_at(bytes);
    proof {
        let head = encode_utf8(s@.take(k));
        let tail = encode_utf8(s@.skip(k));
        assert((head + tail).subrange(0, bytes as int) =~= head);
        assert((head + tail).subrange(bytes as int, (head + tail).len() as int) =~= tail);
        encode_utf8_decode_utf8(parts.0@);
        encode_utf8_decode_utf8(parts.1@);
        encode_utf8_decode_utf8(s@.take(k));
        encode_utf8_decode_utf8(s@.skip(k));
    }
    parts
}

/// The characters of `s`, in order, for reading by index.
pub fn chars_of(s: &str) -> (chars: Vec<char>)
    ensures
        chars@ == s@,
{
    let mut chars: Vec<char> = Vec::new();
    for c in it: s.chars()
        invariant
            chars@ == it.seq().take(it.index() as int),
            it.seq() == s@,
    {
        chars.push(c);
    }
    chars
}

/// Whether `pattern` stands in `text` at index `at`.
pub fn matches_at(text: &Vec<char>, at: usize, pattern: &Vec<char>) -> (found: bool)
    ensures
        found == occurs_at(text@, at as int, pattern@),
{
    let n: usize = text.len();
    let m: usize = pattern.len();
    if at > n || m > n - at {
        return false;
    }
    let mut k: usize = 0;
    while k < m
        invariant
            k <= m,
            m == pattern@.len(),
            n == text@.len(),
            at + m <= n,
            forall|j: int| 0 <= j < k ==> text@[at + j] == pattern@[j],
        decreases m - k,
    {
        if text[at + k] != pattern[k] {
            assert(text@.subrange(at as int, at + m)[k as int] != pattern@[k as int]);
            return false;
        }
        k += 1;
    }
    assert(text@.subrange(at as int, at + m) =~= pattern@);
    true
}

/// Whether `pattern` stands somewhere in `text`.
pub fn contains(text: &Vec<char>, pattern: &Vec<char>) -> (found: bool)
    ensures
        found == occurs_in(text@, pattern@),
{
    let n: usize = text.len();
    let m: usize = pattern.len();
    if m > n {
        return false;
    }
    let last: usize = n - m;
    let mut at: usize = 0;
    while at < last
        invariant
            at <= last,
            last + m == n,
            m == pattern@.len(),
            n == text@.len(),
            forall|j: int| 0 <= j < at ==> !occurs_at(text@, j, pattern@),
        decreases last - at,
    {
        if matches_at(text, at, pattern) {
            return true;
        }
        at += 1;
    }
    matches_at(text, last, pattern)
}

} // verus!

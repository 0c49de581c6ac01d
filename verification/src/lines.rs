//! The lines of a log that comes as one text.

use vstd::prelude::*;
use vstd::string::*;
use vstd::utf8::encode_utf8;
use crate::text::{
    chars_of,
    lemma_boundary_behind,
    lemma_encode_push,
    len_utf8,
    split_behind,
    utf8_len,
};

verus! {

/// The index of the first line feed at or behind `from`, or the length of
/// the text where none follows.
pub open spec fn line_end(text: Seq<char>, from: int) -> int
    decreases text.len() - from,
{
    if 0 <= from < text.len() && text[from] != '\n' {
        line_end(text, from + 1)
    } else {
        from
    }
}

/// A line ends at or behind its start, and within the text.
pub proof fn lemma_line_end_bounds(text: Seq<char>, from: int)
    requires
        0 <= from <= text.len(),
    ensures
        from <= line_end(text, from) <= text.len(),
    decreases text.len() - from,
{
    if from < text.len() && text[from] != '\n' {
        lemma_line_end_bounds(text, from + 1);
    }
}

/// The line without the carriage return that ends it, if one does.
pub open spec fn without_return(line: Seq<char>) -> Seq<char> {
    if line.len() > 0 && line.last() == '\r' {
        line.drop_last()
    } else {
        line
    }
}

/// The lines of `text` from index `from` on. A line ends with a line feed,
/// or with a carriage return and a line feed; neither belongs to it. The
/// last line needs no line feed, and is whole without one; no line follows
/// the last line feed.
pub open spec fn lines_from(text: Seq<char>, from: int) -> Seq<Seq<char>>
    decreases text.len() - from,
{
    if from < 0 || from >= text.len() {
        Seq::empty()
    } else {
        let end = line_end(text, from);
        if end >= text.len() {
            seq![text.subrange(from, end)]
        } else {
            proof {
                lemma_line_end_bounds(text, from);
            }
            seq![without_return(text.subrange(from, end))] + lines_from(text, end + 1)
        }
    }
}

/// The lines of `text`.
pub open spec fn lines_of(text: Seq<char>) -> Seq<Seq<char>> {
    lines_from(text, 0)
}

/// The texts of a list of strings.
pub open spec fn texts(lines: Seq<String>) -> Seq<Seq<char>> {
    Seq::new(lines.len(), |i: int| lines[i]@)
}

/// A text has no more lines than characters.
pub proof fn lemma_line_count(text: Seq<char>, from: int)
    requires
        0 <= from <= text.len(),
    ensures
        lines_from(text, from).len() <= text.len() - from,
    decreases text.len() - from,
{
    if from < text.len() {
        lemma_line_end_bounds(text, from);
        let end = line_end(text, from);
        if end < text.len() {
            lemma_line_count(text, end + 1);
        }
    }
}

/// Cuts `text` into its lines.
pub fn split_lines(text: &str) -> (lines: Vec<String>)
    ensures
        texts(lines@) == lines_of(text@),
        lines@.len() <= text@.len(),
{
    let chars: Vec<char> = chars_of(text);
    let n: usize = chars.len();
    let mut lines: Vec<String> = Vec::new();
    let mut rest: &str = text;
    let mut from: usize = 0;
    assert(chars@.skip(0) =~= chars@);
    while from < n
        invariant
            from <= n,
            n == chars@.len(),
            chars@ == text@,
            rest@ == chars@.skip(from as int),
            texts(lines@) + lines_from(chars@, from as int) == lines_of(chars@),
            lines@.len() + lines_from(chars@, from as int).len() == lines_of(chars@).len(),
        decreases n - from,
    {
        let room: usize = rest.as_bytes().len();
        let mut end: usize = from;
        let mut bytes: usize = 0;
        assert(chars@.subrange(from as int, from as int) =~= Seq::<char>::empty());
        while end < n && chars[end] != '\n'
            invariant
                from <= end <= n,
                n == chars@.len(),
                rest@ == chars@.skip(from as int),
                room == encode_utf8(rest@).len(),
                bytes == encode_utf8(chars@.subrange(from as int, end as int)).len(),
                line_end(chars@, end as int) == line_end(chars@, from as int),
            decreases n - end,
        {
            proof {
                lemma_encode_push(chars@.subrange(from as int, end as int), chars@[end as int]);
                assert(chars@.subrange(from as int, end + 1) =~= chars@.subrange(
                    from as int,
                    end as int,
                ).push(chars@[end as int]));
                lemma_boundary_behind(rest@, end + 1 - from);
                assert(rest@.take(end + 1 - from) =~= chars@.subrange(from as int, end + 1));
            }
            bytes += len_utf8(chars[end]);
            end += 1;
        }
        let ghost before = texts(lines@);
        let ghost whole = chars@.subrange(from as int, end as int);
        assert(rest@.take(end - from) =~= whole);
        let parts = split_behind(rest, Ghost(end - from), bytes);
        let mut line: &str = parts.0;
        let tail: &str = parts.1;
        assert(tail@ =~= chars@.skip(end as int));
        if end < n {
            if end > from && chars[end - 1] == '\r' {
                proof {
                    let shorter = chars@.subrange(from as int, end - 1);
                    lemma_encode_push(shorter, '\r');
                    assert(whole =~= shorter.push('\r'));
                    assert(line@.take(end - from - 1) =~= shorter);
                    assert(utf8_len('\r') == 1);
                }
                line = split_behind(line, Ghost(end - from - 1), bytes - 1).0;
            }
            proof {
                lemma_encode_push(Seq::<char>::empty(), '\n');
                assert(tail@.take(1) =~= Seq::<char>::empty().push('\n'));
                assert(encode_utf8(Seq::<char>::empty()).len() == 0);
                assert(utf8_len('\n') == 1);
                assert(tail@.skip(1) =~= chars@.skip(end + 1));
            }
            rest = split_behind(tail, Ghost(1), 1).1;
        } else {
            rest = tail;
        }
        lines.push(line.to_owned());
        proof {
            assert(line_end(chars@, from as int) == end);
            let piece = if end < n {
                without_return(whole)
            } else {
                whole
            };
            assert(line@ =~= piece);
            assert(texts(lines@) =~= before + seq![piece]);
            if end < n {
                assert(lines_from(chars@, from as int) == seq![piece] + lines_from(
                    chars@,
                    end + 1,
                ));
                assert(before + (seq![piece] + lines_from(chars@, end + 1)) =~= (before
                    + seq![piece]) + lines_from(chars@, end + 1));
            } else {
                assert(lines_from(chars@, from as int) == seq![piece]);
                assert(lines_from(chars@, n as int) =~= Seq::<Seq<char>>::empty());
                assert(before + seq![piece] + lines_from(chars@, n as int) =~= before
                    + seq![piece]);
            }
        }
        from = if end < n {
            end + 1
        } else {
            n
        };
    }
    proof {
        assert(lines_from(chars@, n as int) =~= Seq::<Seq<char>>::empty());
        assert(texts(lines@) + Seq::<Seq<char>>::empty() =~= texts(lines@));
        lemma_line_count(chars@, 0);
    }
    lines
}

} // verus!

//! Control prefixes and section markers that a CI runner puts before a log line.

use vstd::prelude::*;
use vstd::utf8::encode_utf8;
use crate::text::{
    chars_of,
    lemma_encode_len,
    lemma_encode_push,
    len_utf8,
    matches_at,
    occurs_at,
    utf8_len,
};

verus! {

/// The characters taken for a control code behind a leading `00` written out
/// in text: `E`, `O`, a decimal digit or a hexadecimal letter. This is a
/// heuristic and is kept as it is: ordinary text that begins alike is cut too.
pub open spec fn is_code_char(c: char) -> bool {
    ||| c == 'E'
    ||| c == 'O'
    ||| ('0' <= c && c <= '9')
    ||| ('A' <= c && c <= 'F')
    ||| ('a' <= c && c <= 'f')
}

/// The number of characters at the start of the line that are its control
/// prefix, or 0 where it has none. A control prefix is three bytes long: a
/// null byte and the two bytes behind it, whatever they hold, or `00` and a
/// code character. Behind a null byte the two bytes are two characters of
/// one byte each, or one character of two bytes. Where the third byte is no
/// last byte of a character, the line has no control prefix and is left
/// whole, and so is a line of fewer than three bytes.
pub open spec fn control_prefix_len(line: Seq<char>) -> nat {
    if line.len() >= 2 && line[0] == '\0' && utf8_len(line[1]) == 2 {
        2
    } else if line.len() >= 3 && line[0] == '\0' && utf8_len(line[1]) == 1 && utf8_len(line[2])
        == 1 {
        3
    } else if line.len() >= 3 && line[0] == '0' && line[1] == '0' && is_code_char(line[2]) {
        3
    } else {
        0
    }
}

/// The line begins with a control prefix.
pub open spec fn has_control_prefix(line: Seq<char>) -> bool {
    control_prefix_len(line) > 0
}

/// The line opens or closes a collapsible section.
pub open spec fn is_section_marker(line: Seq<char>) -> bool {
    occurs_at(line, 0, "section_start:"@) || occurs_at(line, 0, "section_end:"@)
}

/// The line without its control prefix.
pub open spec fn without_control_prefix(line: Seq<char>) -> Seq<char> {
    line.skip(control_prefix_len(line) as int)
}

/// What is shown of a raw line: nothing of a section marker, and else the
/// line without its control prefix.
pub open spec fn normalized(line: Seq<char>) -> Seq<char> {
    if is_section_marker(without_control_prefix(line)) {
        Seq::empty()
    } else {
        without_control_prefix(line)
    }
}

/// Whether `c` is taken for a control code behind a leading `00`.
pub fn code_char(c: char) -> (b: bool)
    ensures
        b == is_code_char(c),
{
    c == 'E' || c == 'O' || ('0' <= c && c <= '9') || ('A' <= c && c <= 'F') || ('a' <= c && c
        <= 'f')
}

/// Removes a leading control prefix of three bytes, then blanks the line if
/// what is left is a section marker. A line of fewer than three bytes has no
/// prefix, nor has one whose third byte ends no character; a line with
/// neither prefix nor marker comes back as it is.
pub fn strip_gitlab_prefixes(line: &str) -> (shown: String)
    ensures
        shown@ == normalized(line@),
{
    let chars: Vec<char> = chars_of(line);
    let n: usize = chars.len();
    let mut start: usize = 0;
    if n >= 2 && chars[0] == '\0' && len_utf8(chars[1]) == 2 {
        start = 2;
    } else if n >= 3 && chars[0] == '\0' && len_utf8(chars[1]) == 1 && len_utf8(chars[2]) == 1 {
        start = 3;
    } else if n >= 3 && chars[0] == '0' && chars[1] == '0' && code_char(chars[2]) {
        start = 3;
    }
    let opening: Vec<char> = chars_of("section_start:");
    let closing: Vec<char> = chars_of("section_end:");
    proof {
        let rest = without_control_prefix(line@);
        assert(rest == chars@.skip(start as int));
        assert forall|p: Seq<char>| occurs_at(chars@, start as int, p) == occurs_at(rest, 0, p) by {
            if start as int + p.len() <= chars@.len() {
                assert(chars@.subrange(start as int, start + p.len()) =~= rest.subrange(
                    0,
                    p.len() as int,
                ));
            }
        }
    }
    if matches_at(&chars, start, &opening) || matches_at(&chars, start, &closing) {
        return String::new();
    }
    if start == 0 {
        line.to_owned()
    } else {
        line.substring_char(start, n).to_owned()
    }
}

/// A line without control prefix and section marker is shown as it is.
pub proof fn lemma_plain_line_unchanged(line: Seq<char>)
    requires
        !has_control_prefix(line),
        !is_section_marker(line),
    ensures
        normalized(line) == line,
{
    assert(line.skip(0) =~= line);
}

/// Normalising twice gives what normalising once gives, wherever the line
/// shown does not itself begin with a control prefix.
pub proof fn lemma_normalized_idempotent(line: Seq<char>)
    requires
        !has_control_prefix(normalized(line)),
    ensures
        normalized(normalized(line)) == normalized(line),
{
    let once = normalized(line);
    assert(once.skip(0) =~= once);
    if is_section_marker(once) {
        lemma_markers_are_not_empty(once);
    }
}

/// A control prefix is three bytes long.
pub proof fn lemma_control_prefix_is_three_bytes(line: Seq<char>)
    requires
        has_control_prefix(line),
    ensures
        encode_utf8(line.take(control_prefix_len(line) as int)).len() == 3,
{
    let prefix = line.take(control_prefix_len(line) as int);
    reveal_with_fuel(encode_utf8, 4);
    assert(prefix[0] == line[0] && prefix[1] == line[1]);
    assert(prefix.drop_first()[0] == line[1]);
    if prefix.len() == 3 {
        assert(prefix.drop_first().drop_first()[0] == line[2]);
        assert(prefix.drop_first().drop_first().drop_first().len() == 0);
    } else {
        assert(prefix.drop_first().drop_first().len() == 0);
    }
}

/// Behind a null byte, the line has a control prefix where its first three
/// bytes are whole characters, and nowhere else.
pub proof fn lemma_null_prefix_is_cut_between_characters(line: Seq<char>)
    requires
        line.len() > 0,
        line[0] == '\0',
    ensures
        has_control_prefix(line) <==> exists|k: int|
            0 <= k <= line.len() && encode_utf8(#[trigger] line.take(k)).len() == 3,
{
    assert(utf8_len('\0') == 1);
    assert(line.take(0) =~= Seq::<char>::empty());
    assert(encode_utf8(Seq::<char>::empty()).len() == 0);
    lemma_encode_push(line.take(0), line[0]);
    assert(line.take(1) =~= line.take(0).push(line[0]));
    if line.len() >= 2 {
        lemma_encode_push(line.take(1), line[1]);
        assert(line.take(2) =~= line.take(1).push(line[1]));
        lemma_encode_len(seq![line[1]]);
        lemma_encode_push(Seq::<char>::empty(), line[1]);
        assert(Seq::<char>::empty().push(line[1]) =~= seq![line[1]]);
    }
    if line.len() >= 3 {
        lemma_encode_push(line.take(2), line[2]);
        assert(line.take(3) =~= line.take(2).push(line[2]));
        lemma_encode_len(seq![line[2]]);
        lemma_encode_push(Seq::<char>::empty(), line[2]);
        assert(Seq::<char>::empty().push(line[2]) =~= seq![line[2]]);
    }
    if has_control_prefix(line) {
        lemma_control_prefix_is_three_bytes(line);
    }
    assert forall|k: int|
        0 <= k <= line.len() && encode_utf8(#[trigger] line.take(k)).len()
            == 3 implies has_control_prefix(line) by {
        if k >= 4 {
            lemma_encode_len(line.take(k));
        }
    }
}

/// A section marker is not the empty line.
pub proof fn lemma_markers_are_not_empty(line: Seq<char>)
    requires
        is_section_marker(line),
    ensures
        line.len() > 0,
{
    reveal_strlit("section_start:");
    reveal_strlit("section_end:");
}

} // verus!

//! The timestamp at the start of a log line, and how much of it is shown.

use vstd::prelude::*;
use vstd::string::*;
use crate::prefix::{
    has_control_prefix,
    is_section_marker,
    lemma_plain_line_unchanged,
    normalized,
    strip_gitlab_prefixes,
};
use crate::text::chars_of;

verus! {

/// How much of a leading timestamp is shown.
#[derive(Clone, Copy, Debug, PartialEq, Eq, Structural)]
pub enum TimestampDisplayMode {
    /// Neither date nor time.
    Hidden,
    /// The date.
    DateOnly,
    /// The date and the time of day, without fraction and zone.
    Full,
}

/// A decimal digit of a timestamp: one of `0` to `9`, as ISO 8601 writes
/// its numbers. This is meant: a decimal digit of another script, such as
/// `\u{661}`, is no digit of a timestamp, and a line that begins with such
/// digits is left as it is.
pub open spec fn is_digit(c: char) -> bool {
    '0' <= c && c <= '9'
}

/// A white space character: one with the Unicode property `White_Space`.
pub open spec fn is_space(c: char) -> bool {
    ||| ('\u{9}' <= c && c <= '\u{d}')
    ||| c == ' '
    ||| c == '\u{85}'
    ||| c == '\u{a0}'
    ||| c == '\u{1680}'
    ||| ('\u{2000}' <= c && c <= '\u{200a}')
    ||| c == '\u{2028}'
    ||| c == '\u{2029}'
    ||| c == '\u{202f}'
    ||| c == '\u{205f}'
    ||| c == '\u{3000}'
}

/// Two digits stand at `at`.
pub open spec fn two_digits(line: Seq<char>, at: int) -> bool {
    is_digit(line[at]) && is_digit(line[at + 1])
}

/// The line begins with `YYYY-MM-DDTHH:MM:SS`, nineteen characters.
pub open spec fn has_date_and_time(line: Seq<char>) -> bool {
    &&& line.len() >= 19
    &&& two_digits(line, 0)
    &&& two_digits(line, 2)
    &&& line[4] == '-'
    &&& two_digits(line, 5)
    &&& line[7] == '-'
    &&& two_digits(line, 8)
    &&& line[10] == 'T'
    &&& two_digits(line, 11)
    &&& line[13] == ':'
    &&& two_digits(line, 14)
    &&& line[16] == ':'
    &&& two_digits(line, 17)
}

/// Where the run of digits that begins at `from` ends.
pub open spec fn digits_end(line: Seq<char>, from: int) -> int
    decreases line.len() - from,
{
    if 0 <= from < line.len() && is_digit(line[from]) {
        digits_end(line, from + 1)
    } else {
        from
    }
}

/// Where the run of white space that begins at `from` ends.
pub open spec fn spaces_end(line: Seq<char>, from: int) -> int
    decreases line.len() - from,
{
    if 0 <= from < line.len() && is_space(line[from]) {
        spaces_end(line, from + 1)
    } else {
        from
    }
}

/// The index behind a fraction of seconds at `at`, a dot and one digit or
/// more; `at` itself where none stands there.
pub open spec fn after_fraction(line: Seq<char>, at: int) -> int {
    if at + 1 < line.len() && line[at] == '.' && is_digit(line[at + 1]) {
        digits_end(line, at + 1)
    } else {
        at
    }
}

/// The index behind a zone at `at`, `Z` or a sign with `HH:MM`; `at` itself
/// where none stands there.
pub open spec fn after_zone(line: Seq<char>, at: int) -> int {
    if at < line.len() && line[at] == 'Z' {
        at + 1
    } else if at + 6 <= line.len() && (line[at] == '+' || line[at] == '-') && two_digits(
        line,
        at + 1,
    ) && line[at + 3] == ':' && two_digits(line, at + 4) {
        at + 6
    } else {
        at
    }
}

/// The length of the leading timestamp with the white space behind it:
/// date and time, then an optional fraction, then an optional zone, then
/// white space, one character at least. `None` where the line begins with no
/// such timestamp; one that ends the line, or that text follows at once, is
/// none.
pub open spec fn timestamp_end(line: Seq<char>) -> Option<int> {
    let at = after_zone(line, after_fraction(line, 19));
    if has_date_and_time(line) && at < line.len() && is_space(line[at]) {
        Some(spaces_end(line, at))
    } else {
        None
    }
}

/// The line with its leading timestamp shown as `mode` asks. A line without
/// one is shown as it is, whatever the mode.
pub open spec fn formatted(line: Seq<char>, mode: TimestampDisplayMode) -> Seq<char> {
    match timestamp_end(line) {
        None => line,
        Some(end) => match mode {
            TimestampDisplayMode::Hidden => line.skip(end),
            TimestampDisplayMode::DateOnly => line.take(10) + seq![' '] + line.skip(end),
            TimestampDisplayMode::Full => line.take(10) + seq![' '] + line.subrange(11, 19)
                + seq![' '] + line.skip(end),
        },
    }
}

/// Whether `c` is a decimal digit.
pub fn digit(c: char) -> (b: bool)
    ensures
        b == is_digit(c),
{
    '0' <= c && c <= '9'
}

/// Whether `c` is a white space character.
pub fn space(c: char) -> (b: bool)
    ensures
        b == is_space(c),
{
    ('\u{9}' <= c && c <= '\u{d}') || c == ' ' || c == '\u{85}' || c == '\u{a0}' || c
        == '\u{1680}' || ('\u{2000}' <= c && c <= '\u{200a}') || c == '\u{2028}' || c
        == '\u{2029}' || c == '\u{202f}' || c == '\u{205f}' || c == '\u{3000}'
}

fn two_digits_at(line: &Vec<char>, at: usize) -> (b: bool)
    requires
        at + 2 <= line.len(),
    ensures
        b == two_digits(line@, at as int),
{
    digit(line[at]) && digit(line[at + 1])
}

fn date_and_time_at_start(line: &Vec<char>) -> (b: bool)
    ensures
        b == has_date_and_time(line@),
{
    line.len() >= 19 && two_digits_at(line, 0) && two_digits_at(line, 2) && line[4] == '-'
        && two_digits_at(line, 5) && line[7] == '-' && two_digits_at(line, 8) && line[10] == 'T'
        && two_digits_at(line, 11) && line[13] == ':' && two_digits_at(line, 14) && line[16]
        == ':' && two_digits_at(line, 17)
}

fn skip_digits(line: &Vec<char>, from: usize) -> (end: usize)
    requires
        from <= line.len(),
    ensures
        end == digits_end(line@, from as int),
        from <= end <= line.len(),
{
    let mut at: usize = from;
    while at < line.len() && digit(line[at])
        invariant
            from <= at <= line.len(),
            digits_end(line@, at as int) == digits_end(line@, from as int),
        decreases line.len() - at,
    {
        at += 1;
    }
    at
}

fn skip_spaces(line: &Vec<char>, from: usize) -> (end: usize)
    requires
        from <= line.len(),
    ensures
        end == spaces_end(line@, from as int),
        from <= end <= line.len(),
{
    let mut at: usize = from;
    while at < line.len() && space(line[at])
        invariant
            from <= at <= line.len(),
            spaces_end(line@, at as int) == spaces_end(line@, from as int),
        decreases line.len() - at,
    {
        at += 1;
    }
    at
}

fn skip_fraction(line: &Vec<char>, at: usize) -> (end: usize)
    requires
        at <= line.len(),
    ensures
        end == after_fraction(line@, at as int),
        at <= end <= line.len(),
{
    let n: usize = line.len();
    if n - at >= 2 && line[at] == '.' && digit(line[at + 1]) {
        skip_digits(line, at + 1)
    } else {
        at
    }
}

fn skip_zone(line: &Vec<char>, at: usize) -> (end: usize)
    requires
        at <= line.len(),
    ensures
        end == after_zone(line@, at as int),
        at <= end <= line.len(),
{
    let n: usize = line.len();
    if at < n && line[at] == 'Z' {
        at + 1
    } else if n - at >= 6 && (line[at] == '+' || line[at] == '-') && two_digits_at(line, at + 1)
        && line[at + 3] == ':' && two_digits_at(line, at + 4) {
        at + 6
    } else {
        at
    }
}

/// The length of the leading timestamp of `line` with the white space behind
/// it, or `None` where the line begins with none.
pub fn find_timestamp(line: &Vec<char>) -> (end: Option<usize>)
    ensures
        end matches Some(e) ==> timestamp_end(line@) == Some(e as int) && 20 <= e <= line.len(),
        end is None ==> timestamp_end(line@) is None,
{
    if !date_and_time_at_start(line) {
        return None;
    }
    let at: usize = skip_zone(line, skip_fraction(line, 19));
    if at < line.len() && space(line[at]) {
        assert(spaces_end(line@, at as int) == spaces_end(line@, at + 1));
        Some(skip_spaces(line, at + 1))
    } else {
        None
    }
}

/// Shows the leading timestamp of `line` as `mode` asks: not at all, its
/// date, or its date and time of day. The white space behind the timestamp
/// becomes one blank, or goes with a hidden timestamp. A line that does not
/// begin with a timestamp comes back as it is.
pub fn format_timestamp(line: &str, mode: TimestampDisplayMode) -> (shown: String)
    ensures
        shown@ == formatted(line@, mode),
{
    let chars: Vec<char> = chars_of(line);
    match find_timestamp(&chars) {
        None => line.to_owned(),
        Some(end) => {
            let rest: &str = line.substring_char(end, chars.len());
            proof {
                reveal_strlit(" ");
                assert(" "@ =~= seq![' ']);
            }
            match mode {
                TimestampDisplayMode::Hidden => rest.to_owned(),
                TimestampDisplayMode::DateOnly => {
                    let mut shown: String = line.substring_char(0, 10).to_owned();
                    shown.append(" ");
                    shown.append(rest);
                    shown
                },
                TimestampDisplayMode::Full => {
                    let mut shown: String = line.substring_char(0, 10).to_owned();
                    shown.append(" ");
                    shown.append(line.substring_char(11, 19));
                    shown.append(" ");
                    shown.append(rest);
                    shown
                },
            }
        },
    }
}

/// What is shown of a raw log line: the line is normalised, and its
/// timestamp is shown as `mode` asks.
pub fn process_log_line(line: &str, mode: &TimestampDisplayMode) -> (shown: String)
    ensures
        shown@ == formatted(normalized(line@), *mode),
{
    let stripped: String = strip_gitlab_prefixes(line);
    format_timestamp(stripped.as_str(), *mode)
}

/// A line that begins with no control prefix, no section marker and no
/// timestamp is shown as it is, in every mode.
pub proof fn lemma_unmarked_line_unchanged(line: Seq<char>, mode: TimestampDisplayMode)
    requires
        !has_control_prefix(line),
        !is_section_marker(line),
        timestamp_end(line) is None,
    ensures
        normalized(line) == line,
        formatted(line, mode) == line,
        formatted(normalized(line), mode) == line,
{
    lemma_plain_line_unchanged(line);
}

} // verus!

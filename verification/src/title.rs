//! The title of the log viewer: the job, the place in the log, how
//! timestamps are shown, and how the search stands.

use vstd::prelude::*;
use crate::search::SearchState;
use vstd::string::*;
use crate::timestamp::TimestampDisplayMode;

verus! {

/// The character for a digit below ten.
pub open spec fn digit_char(d: int) -> char {
    if d == 0 {
        '0'
    } else if d == 1 {
        '1'
    } else if d == 2 {
        '2'
    } else if d == 3 {
        '3'
    } else if d == 4 {
        '4'
    } else if d == 5 {
        '5'
    } else if d == 6 {
        '6'
    } else if d == 7 {
        '7'
    } else if d == 8 {
        '8'
    } else {
        '9'
    }
}

/// A number written in decimal digits, without leading zeros.
pub open spec fn decimal_text(n: nat) -> Seq<char>
    decreases n,
{
    if n < 10 {
        seq![digit_char(n as int)]
    } else {
        decimal_text(n / 10) + seq![digit_char((n % 10) as int)]
    }
}

/// The job's name, or a stand-in where it is not known.
pub open spec fn job_part(job: Option<Seq<char>>) -> Seq<char> {
    match job {
        Some(name) => name,
        None => "Unknown Job"@,
    }
}

/// The place in the log, one-based, or a blank where the whole log is shown.
pub open spec fn scroll_part(position: Option<(usize, usize)>) -> Seq<char> {
    match position {
        Some(p) => " ["@ + decimal_text(p.0 as nat) + "/"@ + decimal_text(p.1 as nat) + "] "@,
        None => " "@,
    }
}

/// How timestamps are shown.
pub open spec fn mode_part(mode: TimestampDisplayMode) -> Seq<char> {
    match mode {
        TimestampDisplayMode::Hidden => "[Timestamps: Hidden]"@,
        TimestampDisplayMode::DateOnly => "[Timestamps: Date]"@,
        TimestampDisplayMode::Full => "[Timestamps: Full]"@,
    }
}

/// The one-based number of the active match among `count` matches; the
/// first one where `current` is no index of a match.
pub open spec fn match_number(count: nat, current: Option<usize>) -> nat {
    match current {
        Some(i) if i < count => (i + 1) as nat,
        _ => 1,
    }
}

/// How the search stands: the active match and the number of matches, or
/// that a finished search found nothing, or nothing at all while no search
/// has been made.
pub open spec fn search_part(
    count: nat,
    current: Option<usize>,
    query: Seq<char>,
    searching: bool,
) -> Seq<char> {
    if count > 0 {
        " [Match "@ + decimal_text(match_number(count, current)) + "/"@ + decimal_text(count)
            + "]"@
    } else if query.len() > 0 && !searching {
        " [No matches]"@
    } else {
        Seq::empty()
    }
}

/// The title of the viewer.
pub open spec fn title_text(
    job: Option<Seq<char>>,
    position: Option<(usize, usize)>,
    mode: TimestampDisplayMode,
    count: nat,
    current: Option<usize>,
    query: Seq<char>,
    searching: bool,
) -> Seq<char> {
    "Job Log: "@ + job_part(job) + scroll_part(position) + mode_part(mode) + search_part(
        count,
        current,
        query,
        searching,
    ) + " (q/Esc close, / search, n/N next/prev, t time)"@
}

/// The characters of an optional text.
pub open spec fn option_text(text: Option<&str>) -> Option<Seq<char>> {
    match text {
        Some(t) => Some(t@),
        None => None,
    }
}

fn digit_str(d: usize) -> (text: &'static str)
    requires
        d < 10,
    ensures
        text@ == seq![digit_char(d as int)],
{
    proof {
        reveal_strlit("0");
        reveal_strlit("1");
        reveal_strlit("2");
        reveal_strlit("3");
        reveal_strlit("4");
        reveal_strlit("5");
        reveal_strlit("6");
        reveal_strlit("7");
        reveal_strlit("8");
        reveal_strlit("9");
    }
    let text: &'static str = if d == 0 {
        "0"
    } else if d == 1 {
        "1"
    } else if d == 2 {
        "2"
    } else if d == 3 {
        "3"
    } else if d == 4 {
        "4"
    } else if d == 5 {
        "5"
    } else if d == 6 {
        "6"
    } else if d == 7 {
        "7"
    } else if d == 8 {
        "8"
    } else {
        "9"
    };
    assert(text@ =~= seq![digit_char(d as int)]);
    text
}

/// Puts the decimal digits of `n` behind `text`.
pub fn push_decimal(text: &mut String, n: usize)
    ensures
        final(text)@ == old(text)@ + decimal_text(n as nat),
    decreases n,
{
    if n >= 10 {
        push_decimal(text, n / 10);
    }
    text.append(digit_str(n % 10));
    assert(text@ =~= old(text)@ + decimal_text(n as nat));
}

/// `n` in decimal digits.
pub fn decimal(n: usize) -> (text: String)
    ensures
        text@ == decimal_text(n as nat),
{
    let mut text: String = String::new();
    push_decimal(&mut text, n);
    assert(text@ =~= decimal_text(n as nat));
    text
}

fn push_scroll_part(text: &mut String, position: Option<(usize, usize)>)
    ensures
        final(text)@ == old(text)@ + scroll_part(position),
{
    match position {
        Some(p) => {
            text.append(" [");
            push_decimal(text, p.0);
            text.append("/");
            push_decimal(text, p.1);
            text.append("] ");
        },
        None => text.append(" "),
    }
    assert(text@ =~= old(text)@ + scroll_part(position));
}

fn push_mode_part(text: &mut String, mode: TimestampDisplayMode)
    ensures
        final(text)@ == old(text)@ + mode_part(mode),
{
    match mode {
        TimestampDisplayMode::Hidden => text.append("[Timestamps: Hidden]"),
        TimestampDisplayMode::DateOnly => text.append("[Timestamps: Date]"),
        TimestampDisplayMode::Full => text.append("[Timestamps: Full]"),
    }
}

fn push_search_part(text: &mut String, search: &SearchState, searching: bool)
    ensures
        final(text)@ == old(text)@ + search_part(
            search.matches@.len(),
            search.current_index,
            search.query@,
            searching,
        ),
{
    let count: usize = search.matches.len();
    if count > 0 {
        let number: usize = match search.current_index {
            Some(i) => if i < count {
                i + 1
            } else {
                1
            },
            None => 1,
        };
        text.append(" [Match ");
        push_decimal(text, number);
        text.append("/");
        push_decimal(text, count);
        text.append("]");
    } else if search.query.as_str().unicode_len() > 0 && !searching {
        text.append(" [No matches]");
    }
    assert(text@ =~= old(text)@ + search_part(
        count as nat,
        search.current_index,
        search.query@,
        searching,
    ));
}

/// The title of the viewer for the job `job`, at `position` in the log,
/// with timestamps shown as `mode` says and the search as `search` has it;
/// `searching` says that a query is being typed.
pub fn title(
    job: Option<&str>,
    position: Option<(usize, usize)>,
    mode: TimestampDisplayMode,
    search: &SearchState,
    searching: bool,
) -> (text: String)
    ensures
        text@ == title_text(
            option_text(job),
            position,
            mode,
            search.matches@.len(),
            search.current_index,
            search.query@,
            searching,
        ),
{
    let mut text: String = String::new();
    text.append("Job Log: ");
    match job {
        Some(name) => text.append(name),
        None => text.append("Unknown Job"),
    }
    assert(text@ =~= "Job Log: "@ + job_part(option_text(job)));
    push_scroll_part(&mut text, position);
    push_mode_part(&mut text, mode);
    push_search_part(&mut text, search, searching);
    text.append(" (q/Esc close, / search, n/N next/prev, t time)");
    text
}

} // verus!

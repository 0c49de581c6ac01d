//! Terminal escape sequences in a log line, interpreted by `ansi-to-tui`.

use vstd::prelude::*;
use crate::styled::{lines_view, plain_span, ProcessedLine, SpanView, Style, StyledSpan};

verus! {

/// ratatui's `Text`, the interpreter's answer. Nothing of it is read here
/// but through the functions below.
#[verifier::external_type_specification]
#[verifier::external_body]
pub struct ExText<'a>(ratatui::text::Text<'a>);

/// The error of `ansi-to-tui`. It is told from an answer and dropped.
#[verifier::external_type_specification]
#[verifier::external_body]
pub struct ExError(ansi_to_tui::Error);

/// What `ansi-to-tui` makes of a text: the spans of each of its lines, or
/// `None` where it gives the text up.
pub uninterp spec fn ansi_text(input: Seq<char>) -> Option<Seq<Seq<SpanView>>>;

/// The spans that a ratatui `Text` holds, line by line.
pub uninterp spec fn text_lines(text: ratatui::text::Text<'static>) -> Seq<Seq<SpanView>>;

/// Calls `ansi_to_tui::IntoText::into_text` on the bytes of `line`. The
/// interpreter reads nothing but its input, so what it returns is named by
/// `ansi_text`; no more is claimed of it.
#[verifier::external_body]
fn interpret(line: &str) -> (outcome: Result<ratatui::text::Text<'static>, ansi_to_tui::Error>)
    ensures
        outcome matches Ok(text) ==> ansi_text(line@) == Some(text_lines(text)),
        outcome is Err ==> ansi_text(line@) is None,
{
    ansi_to_tui::IntoText::into_text(&line)
}

/// Reads the length of the field `lines` of a ratatui `Text`.
#[verifier::external_body]
fn line_count(text: &ratatui::text::Text<'static>) -> (count: usize)
    ensures
        count == text_lines(*text).len(),
{
    text.lines.len()
}

/// Reads the length of the field `spans` of one ratatui `Line` of a `Text`.
#[verifier::external_body]
fn span_count(text: &ratatui::text::Text<'static>, line: usize) -> (count: usize)
    requires
        line < text_lines(*text).len(),
    ensures
        count == text_lines(*text)[line as int].len(),
{
    text.lines[line].spans.len()
}

/// Copies one ratatui `Span` out of a `Text`: its content, its two colours by
/// the names that ratatui's `Display` gives them, and the bits of its two
/// sets of modifiers.
#[verifier::external_body]
fn span_at(text: &ratatui::text::Text<'static>, line: usize, index: usize) -> (span: StyledSpan)
    requires
        line < text_lines(*text).len(),
        index < text_lines(*text)[line as int].len(),
    ensures
        span@ == text_lines(*text)[line as int][index as int],
{
    let span = &text.lines[line].spans[index];
    StyledSpan {
        text: span.content.to_string(),
        style: Style {
            fg: span.style.fg.map(|c| c.to_string()),
            bg: span.style.bg.map(|c| c.to_string()),
            add_modifier: span.style.add_modifier.bits(),
            sub_modifier: span.style.sub_modifier.bits(),
        },
    }
}

/// The line that is shown for `raw` once the interpreter has answered with
/// `outcome`. Of its lines the first one counts. Where it gave the text up,
/// the raw text is shown in one plain span. An empty text, and an answer
/// without lines, is one empty plain span.
pub open spec fn shown_line(raw: Seq<char>, outcome: Option<Seq<Seq<SpanView>>>) -> Seq<SpanView> {
    match outcome {
        None => seq![plain_span(raw)],
        Some(lines) => if raw.len() == 0 || lines.len() == 0 {
            seq![plain_span(Seq::empty())]
        } else {
            lines[0]
        },
    }
}

/// Copies line `line` of `text`.
fn line_at(text: &ratatui::text::Text<'static>, line: usize) -> (copy: ProcessedLine)
    requires
        line < text_lines(*text).len(),
    ensures
        copy@ == text_lines(*text)[line as int],
{
    let n: usize = span_count(text, line);
    let mut spans: Vec<StyledSpan> = Vec::new();
    let mut i: usize = 0;
    while i < n
        invariant
            i <= n,
            line < text_lines(*text).len(),
            n == text_lines(*text)[line as int].len(),
            spans@.len() == i,
            forall|k: int| 0 <= k < i ==> spans@[k]@ == text_lines(*text)[line as int][k],
        decreases n - i,
    {
        spans.push(span_at(text, line, i));
        i += 1;
    }
    let copy = ProcessedLine { spans };
    assert(copy@ =~= text_lines(*text)[line as int]);
    copy
}

/// Copies all lines of `text`.
fn lines_of(text: &ratatui::text::Text<'static>) -> (lines: Vec<ProcessedLine>)
    ensures
        lines_view(lines@) == text_lines(*text),
{
    let n: usize = line_count(text);
    let mut lines: Vec<ProcessedLine> = Vec::new();
    let mut i: usize = 0;
    while i < n
        invariant
            i <= n,
            n == text_lines(*text).len(),
            lines@.len() == i,
            forall|k: int| 0 <= k < i ==> lines@[k]@ == text_lines(*text)[k],
        decreases n - i,
    {
        lines.push(line_at(text, i));
        i += 1;
    }
    assert(lines_view(lines@) =~= text_lines(*text));
    lines
}

/// The line that is shown for `raw`, given what the interpreter made of it:
/// its lines, or `None` where it gave the text up.
pub fn select_line(raw: &str, outcome: Option<Vec<ProcessedLine>>) -> (line: ProcessedLine)
    ensures
        line@ == shown_line(
            raw@,
            match outcome {
                Some(lines) => Some(lines_view(lines@)),
                None => None,
            },
        ),
{
    match outcome {
        None => ProcessedLine::raw(raw),
        Some(lines) => {
            if raw.unicode_len() == 0 || lines.len() == 0 {
                let line = ProcessedLine::raw("");
                proof {
                    reveal_strlit("");
                    assert(""@ =~= Seq::<char>::empty());
                }
                line
            } else {
                let mut lines = lines;
                lines.swap_remove(0)
            }
        },
    }
}

/// Interprets the escape sequences in `line` and returns its styled spans.
/// This never fails: a line that the interpreter gives up is shown raw.
pub fn parse_styled(line: &str) -> (styled: ProcessedLine)
    ensures
        styled@ == shown_line(line@, ansi_text(line@)),
        line@.len() == 0 ==> styled@ == seq![plain_span(Seq::empty())],
        ansi_text(line@) is None ==> styled@ == seq![plain_span(line@)],
{
    let outcome: Option<Vec<ProcessedLine>> = match interpret(line) {
        Ok(text) => Some(lines_of(&text)),
        Err(_) => None,
    };
    let styled = select_line(line, outcome);
    proof {
        if line@.len() == 0 {
            assert(line@ =~= Seq::<char>::empty());
        }
    }
    styled
}

} // verus!

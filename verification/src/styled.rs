//! Styled lines: what a line with terminal escape sequences looks like once
//! the sequences are interpreted.

use vstd::prelude::*;

verus! {

/// The look of a run of text. A colour is kept by the name that ratatui
/// prints for it (`Red`, `#1E90FF`, `42`); the modifiers are ratatui's bits.
#[derive(Clone, Debug, PartialEq, Eq)]
pub struct Style {
    /// The colour of the text, if one is set.
    pub fg: Option<String>,
    /// The colour behind the text, if one is set.
    pub bg: Option<String>,
    /// The modifiers that the run switches on.
    pub add_modifier: u16,
    /// The modifiers that the run switches off.
    pub sub_modifier: u16,
}

/// A run of text in one style.
#[derive(Clone, Debug, PartialEq, Eq)]
pub struct StyledSpan {
    pub text: String,
    pub style: Style,
}

/// One line of the log as it is shown: its spans from left to right.
#[derive(Clone, Debug, PartialEq, Eq)]
pub struct ProcessedLine {
    pub spans: Vec<StyledSpan>,
}

/// The bit of the modifier for bold text.
pub const BOLD: u16 = 1;

/// The bit of the modifier for slowly blinking text.
pub const SLOW_BLINK: u16 = 16;

/// A `Style` as a mathematical value.
pub ghost struct StyleView {
    pub fg: Option<Seq<char>>,
    pub bg: Option<Seq<char>>,
    pub add_modifier: u16,
    pub sub_modifier: u16,
}

/// A `StyledSpan` as a mathematical value.
pub ghost struct SpanView {
    pub text: Seq<char>,
    pub style: StyleView,
}

/// The style of text that no escape sequence has touched.
pub open spec fn plain_style() -> StyleView {
    StyleView { fg: None, bg: None, add_modifier: 0, sub_modifier: 0 }
}

/// One span of `text` in the plain style.
pub open spec fn plain_span(text: Seq<char>) -> SpanView {
    SpanView { text, style: plain_style() }
}

/// The characters of an optional string.
pub open spec fn name_view(name: Option<String>) -> Option<Seq<char>> {
    match name {
        Some(n) => Some(n@),
        None => None,
    }
}

impl View for Style {
    type V = StyleView;

    open spec fn view(&self) -> StyleView {
        StyleView {
            fg: name_view(self.fg),
            bg: name_view(self.bg),
            add_modifier: self.add_modifier,
            sub_modifier: self.sub_modifier,
        }
    }
}

impl View for StyledSpan {
    type V = SpanView;

    open spec fn view(&self) -> SpanView {
        SpanView { text: self.text@, style: self.style@ }
    }
}

impl View for ProcessedLine {
    type V = Seq<SpanView>;

    open spec fn view(&self) -> Seq<SpanView> {
        Seq::new(self.spans@.len(), |i: int| self.spans@[i]@)
    }
}

/// The lines of a list, each as a mathematical value.
pub open spec fn lines_view(lines: Seq<ProcessedLine>) -> Seq<Seq<SpanView>> {
    Seq::new(lines.len(), |i: int| lines[i]@)
}

/// The text of a line without its styles: the texts of its spans, joined.
pub open spec fn plain_text(spans: Seq<SpanView>) -> Seq<char>
    decreases spans.len(),
{
    if spans.len() == 0 {
        Seq::empty()
    } else {
        plain_text(spans.drop_last()) + spans.last().text
    }
}

impl Style {
    /// The style of text that no escape sequence has touched.
    pub fn plain() -> (style: Style)
        ensures
            style@ == plain_style(),
    {
        Style { fg: None, bg: None, add_modifier: 0, sub_modifier: 0 }
    }
}

impl ProcessedLine {
    /// A line of one span that holds `text` in the plain style.
    pub fn raw(text: &str) -> (line: ProcessedLine)
        ensures
            line@ == seq![plain_span(text@)],
    {
        let mut spans: Vec<StyledSpan> = Vec::new();
        spans.push(StyledSpan { text: text.to_owned(), style: Style::plain() });
        let line = ProcessedLine { spans };
        assert(line@ =~= seq![plain_span(text@)]);
        line
    }

    /// The characters of the line without its styles.
    pub fn plain_chars(&self) -> (chars: Vec<char>)
        ensures
            chars@ == plain_text(self@),
    {
        let mut chars: Vec<char> = Vec::new();
        let n: usize = self.spans.len();
        let mut i: usize = 0;
        assert(self@.take(0) =~= Seq::empty());
        while i < n
            invariant
                i <= n,
                n == self.spans@.len(),
                chars@ == plain_text(self@.take(i as int)),
            decreases n - i,
        {
            let piece: Vec<char> = crate::text::chars_of(self.spans[i].text.as_str());
            let ghost before = chars@;
            let m: usize = piece.len();
            let mut k: usize = 0;
            while k < m
                invariant
                    k <= m,
                    m == piece@.len(),
                    chars@ == before + piece@.take(k as int),
                decreases m - k,
            {
                chars.push(piece[k]);
                assert(piece@.take(k + 1) =~= piece@.take(k as int).push(piece@[k as int]));
                k += 1;
            }
            proof {
                assert(piece@.take(m as int) =~= piece@);
                let upto = self@.take(i + 1);
                assert(upto.drop_last() =~= self@.take(i as int));
                assert(upto.last().text == piece@);
            }
            i += 1;
        }
        assert(self@.take(n as int) =~= self@);
        chars
    }
}

} // verus!

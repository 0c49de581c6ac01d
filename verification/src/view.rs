//! What the log viewer shows for a view state and a frame: its areas, its
//! title, the visible lines and the search bar.

use vstd::prelude::*;
use crate::ansi::{ansi_text, parse_styled, shown_line};
use crate::layout::{
    body_above_search,
    centered_rect,
    has_room_for_search,
    search_bar_below,
    split_for_search,
    Direction,
    Rect,
};
use crate::lines::{lines_of, split_lines, texts};
use crate::prefix::normalized;
use crate::search::{mark_of, MatchMark, SearchState};
use crate::styled::{
    lines_view,
    name_view,
    plain_span,
    ProcessedLine,
    SpanView,
    Style,
    StyleView,
    StyledSpan,
    BOLD,
    SLOW_BLINK,
};
use crate::timestamp::{formatted, process_log_line, TimestampDisplayMode};
use crate::title::{title, title_text};
use crate::viewport::{
    effective_offset,
    position_pair,
    scroll_position,
    visible_end,
    visible_range,
};

verus! {

/// The share of the frame, in percent, that the viewer is asked to take in
/// each direction.
pub const VIEWER_PERCENT: u16 = 90;

/// The rows of the viewer that its border takes.
pub const BORDER_ROWS: u16 = 2;

/// What the caller keeps between two renderings and hands in on each.
#[derive(Clone, Debug, PartialEq, Eq)]
pub struct ViewState {
    /// The raw log, once it is loaded.
    pub log_content: Option<String>,
    /// The name of the job whose log this is, if known.
    pub log_job_name: Option<String>,
    /// How timestamps are shown.
    pub timestamp_mode: TimestampDisplayMode,
    /// The line asked to be the first visible one. It is the caller's to
    /// set and is never changed here: a caller that walks the matches asks
    /// `offset_for_line` for the offset that shows the line of the active
    /// match, and keeps it. Any value is taken; one beyond the end of the
    /// log shows the end.
    pub log_scroll_offset: usize,
    /// A query is being typed.
    pub is_searching: bool,
    /// The query and what it found.
    pub search: SearchState,
}

/// What the viewer shows.
#[derive(Clone, Debug, PartialEq, Eq)]
pub enum LogView {
    /// No log is loaded: an empty frame on `area`.
    Empty { area: Rect },
    /// A log on `area`: its visible lines on `body` under `title`, for each
    /// of them how it stands to the search, and the search bar on
    /// `search_bar` while a query is being typed.
    Log {
        area: Rect,
        body: Rect,
        search_bar: Option<Rect>,
        title: String,
        lines: Vec<ProcessedLine>,
        marks: Vec<MatchMark>,
        search_line: Option<ProcessedLine>,
    },
}

impl LogView {
    /// The area that the viewer takes of the frame.
    pub open spec fn area(self) -> Rect {
        match self {
            LogView::Empty { area } => area,
            LogView::Log { area, .. } => area,
        }
    }
}

/// The rows of an area that are left for lines between its borders.
pub open spec fn content_height(area: Rect) -> nat {
    if area.height >= BORDER_ROWS {
        (area.height - BORDER_ROWS) as nat
    } else {
        0
    }
}

/// What is shown of one raw line: it is normalised, its timestamp is shown
/// as `mode` asks, and its escape sequences are interpreted.
pub open spec fn shown_raw_line(raw: Seq<char>, mode: TimestampDisplayMode) -> Seq<SpanView> {
    let text = formatted(normalized(raw), mode);
    shown_line(text, ansi_text(text))
}

/// The line that stands for a log without lines.
pub open spec fn placeholder() -> Seq<SpanView> {
    seq![plain_span("(empty log)"@)]
}

/// The lines that are visible of the raw lines `raw`: those in the visible
/// range, each as it is shown, or the placeholder for a log without lines.
pub open spec fn visible_lines(
    raw: Seq<Seq<char>>,
    mode: TimestampDisplayMode,
    height: nat,
    offset: nat,
) -> Seq<Seq<SpanView>> {
    if raw.len() == 0 {
        seq![placeholder()]
    } else {
        Seq::new(
            (visible_end(raw.len(), height, offset) - effective_offset(
                raw.len(),
                height,
                offset,
            )) as nat,
            |i: int| shown_raw_line(raw[effective_offset(raw.len(), height, offset) + i], mode),
        )
    }
}

/// How each visible line stands to the search; the placeholder of a log
/// without lines holds no match.
pub open spec fn visible_marks(
    matches: Seq<usize>,
    current: Option<usize>,
    total: nat,
    height: nat,
    offset: nat,
) -> Seq<MatchMark> {
    if total == 0 {
        seq![MatchMark::Plain]
    } else {
        Seq::new(
            (visible_end(total, height, offset) - effective_offset(total, height, offset)) as nat,
            |i: int| mark_of(matches, current, (effective_offset(total, height, offset) + i) as usize),
        )
    }
}

/// The line in the search bar: a label, the query in bold yellow and a
/// blinking white caret.
pub open spec fn search_bar_line(query: Seq<char>) -> Seq<SpanView> {
    seq![
        plain_span("Search: "@),
        SpanView {
            text: query,
            style: StyleView {
                fg: Some("Yellow"@),
                bg: None,
                add_modifier: BOLD,
                sub_modifier: 0,
            },
        },
        SpanView {
            text: "\u{2588}"@,
            style: StyleView {
                fg: Some("White"@),
                bg: None,
                add_modifier: SLOW_BLINK,
                sub_modifier: 0,
            },
        },
    ]
}

/// The view of an optional line.
pub open spec fn line_view(line: Option<ProcessedLine>) -> Option<Seq<SpanView>> {
    match line {
        Some(l) => Some(l@),
        None => None,
    }
}

/// `view` is what the viewer shows of `state` on a frame of which it has
/// the area `area`.
pub open spec fn shows(view: LogView, state: ViewState, area: Rect) -> bool {
    match state.log_content {
        None => view == (LogView::Empty { area }),
        Some(content) => {
            let raw = lines_of(content@);
            let height = content_height(area);
            let offset = state.log_scroll_offset as nat;
            &&& view matches LogView::Log {
                area: shown_area,
                body,
                search_bar,
                title,
                lines,
                marks,
                search_line,
            }
            &&& shown_area == area
            &&& title@ == title_text(
                name_view(state.log_job_name),
                position_pair(raw.len(), height, offset),
                state.timestamp_mode,
                state.search.matches@.len(),
                state.search.current_index,
                state.search.query@,
                state.is_searching,
            )
            &&& lines_view(lines@) == visible_lines(raw, state.timestamp_mode, height, offset)
            &&& marks@ == visible_marks(
                state.search.matches@,
                state.search.current_index,
                raw.len(),
                height,
                offset,
            )
            &&& if state.is_searching {
                &&& body.band_of(area, Direction::Vertical)
                &&& search_bar matches Some(bar)
                &&& bar.band_of(area, Direction::Vertical)
                &&& has_room_for_search(area) ==> body == body_above_search(area) && bar
                    == search_bar_below(area)
                &&& line_view(search_line) == Some(search_bar_line(state.search.query@))
            } else {
                &&& body == area
                &&& search_bar is None
                &&& search_line is None
            }
        },
    }
}

/// The line in the search bar for `query`.
pub fn search_line(query: &str) -> (line: ProcessedLine)
    ensures
        line@ == search_bar_line(query@),
{
    let mut spans: Vec<StyledSpan> = Vec::new();
    spans.push(StyledSpan { text: "Search: ".to_owned(), style: Style::plain() });
    spans.push(
        StyledSpan {
            text: query.to_owned(),
            style: Style {
                fg: Some("Yellow".to_owned()),
                bg: None,
                add_modifier: BOLD,
                sub_modifier: 0,
            },
        },
    );
    spans.push(
        StyledSpan {
            text: "\u{2588}".to_owned(),
            style: Style {
                fg: Some("White".to_owned()),
                bg: None,
                add_modifier: SLOW_BLINK,
                sub_modifier: 0,
            },
        },
    );
    let line = ProcessedLine { spans };
    assert(line@ =~= search_bar_line(query@));
    line
}

/// The lines that are visible of `raw` in a viewport of `height` rows that
/// is asked to begin at `offset`, each as it is shown.
pub fn visible(raw: &Vec<String>, mode: TimestampDisplayMode, height: usize, offset: usize) -> (lines:
    Vec<ProcessedLine>)
    ensures
        lines_view(lines@) == visible_lines(texts(raw@), mode, height as nat, offset as nat),
{
    let mut lines: Vec<ProcessedLine> = Vec::new();
    if raw.len() == 0 {
        lines.push(ProcessedLine::raw("(empty log)"));
        assert(lines_view(lines@) =~= seq![placeholder()]);
        return lines;
    }
    let (start, end) = visible_range(raw.len(), height, offset);
    let mut at: usize = start;
    while at < end
        invariant
            start <= at <= end <= raw@.len(),
            lines@.len() == at - start,
            forall|i: int|
                0 <= i < at - start ==> (#[trigger] lines@[i])@ == shown_raw_line(
                    raw@[start + i]@,
                    mode,
                ),
        decreases end - at,
    {
        let text: String = process_log_line(raw[at].as_str(), &mode);
        lines.push(parse_styled(text.as_str()));
        at += 1;
    }
    assert(lines_view(lines@) =~= visible_lines(texts(raw@), mode, height as nat, offset as nat));
    lines
}

/// How each line that is visible of `total` lines stands to `search`.
pub fn marks(search: &SearchState, total: usize, height: usize, offset: usize) -> (marks: Vec<
    MatchMark,
>)
    ensures
        marks@ == visible_marks(
            search.matches@,
            search.current_index,
            total as nat,
            height as nat,
            offset as nat,
        ),
{
    let mut marks: Vec<MatchMark> = Vec::new();
    if total == 0 {
        marks.push(MatchMark::Plain);
        assert(marks@ =~= seq![MatchMark::Plain]);
        return marks;
    }
    let (start, end) = visible_range(total, height, offset);
    let mut at: usize = start;
    while at < end
        invariant
            start <= at <= end <= total,
            marks@.len() == at - start,
            forall|i: int|
                0 <= i < at - start ==> #[trigger] marks@[i] == mark_of(
                    search.matches@,
                    search.current_index,
                    (start + i) as usize,
                ),
        decreases end - at,
    {
        marks.push(search.mark(at));
        at += 1;
    }
    assert(marks@ =~= visible_marks(
        search.matches@,
        search.current_index,
        total as nat,
        height as nat,
        offset as nat,
    ));
    marks
}

/// What the viewer shows of `state` on the area `area`.
pub fn compose(state: &ViewState, area: Rect) -> (view: LogView)
    requires
        state.log_content matches Some(content) ==> content@.len() < usize::MAX,
    ensures
        shows(view, *state, area),
{
    let content: &String = match &state.log_content {
        Some(content) => content,
        None => {
            return LogView::Empty { area };
        },
    };
    let raw: Vec<String> = split_lines(content.as_str());
    let height: usize = if area.height >= BORDER_ROWS {
        (area.height - BORDER_ROWS) as usize
    } else {
        0
    };
    let position: Option<(usize, usize)> = scroll_position(
        raw.len(),
        height,
        state.log_scroll_offset,
    );
    let job: Option<&str> = match &state.log_job_name {
        Some(name) => Some(name.as_str()),
        None => None,
    };
    let title: String = title(job, position, state.timestamp_mode, &state.search, state.is_searching);
    let lines: Vec<ProcessedLine> = visible(
        &raw,
        state.timestamp_mode,
        height,
        state.log_scroll_offset,
    );
    let marks: Vec<MatchMark> = marks(&state.search, raw.len(), height, state.log_scroll_offset);
    let (body, search_bar) = split_for_search(area, state.is_searching);
    let search_line: Option<ProcessedLine> = if state.is_searching {
        Some(search_line(state.search.query.as_str()))
    } else {
        None
    };
    LogView::Log { area, body, search_bar, title, lines, marks, search_line }
}

/// What the viewer shows of `state` on a frame of area `frame`: the viewer
/// is centred on the frame and takes nine tenths of it each way.
pub fn render(state: &ViewState, frame: Rect) -> (view: LogView)
    requires
        state.log_content matches Some(content) ==> content@.len() < usize::MAX,
    ensures
        view.area().centered_in(frame, VIEWER_PERCENT as int, VIEWER_PERCENT as int),
        shows(view, *state, view.area()),
{
    let area: Rect = centered_rect(VIEWER_PERCENT, VIEWER_PERCENT, frame);
    compose(state, area)
}

} // verus!

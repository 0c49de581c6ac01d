use logview::search::{advance, search, MatchMark, SearchDirection, SearchState};
use logview::styled::{ProcessedLine, Style, StyledSpan};

fn lines(texts: &[&str]) -> Vec<ProcessedLine> {
    texts.iter().map(|t| ProcessedLine::raw(t)).collect()
}

#[test]
fn search_finds_the_lines_that_hold_the_query() {
    assert_eq!(search(&lines(&["foo", "bar", "foobar"]), "foo"), vec![0, 2]);
}

#[test]
fn next_wraps_from_the_last_match_to_the_first() {
    assert_eq!(advance(&vec![0, 2], Some(1), SearchDirection::Next), Some(0));
}

#[test]
fn prev_wraps_from_the_first_match_to_the_last() {
    assert_eq!(advance(&vec![0, 2], Some(0), SearchDirection::Prev), Some(1));
}

#[test]
fn advance_moves_by_one_inside_the_list() {
    let matches = vec![3, 5, 8, 13];
    assert_eq!(advance(&matches, Some(0), SearchDirection::Next), Some(1));
    assert_eq!(advance(&matches, Some(2), SearchDirection::Next), Some(3));
    assert_eq!(advance(&matches, Some(3), SearchDirection::Prev), Some(2));
    assert_eq!(advance(&matches, Some(1), SearchDirection::Prev), Some(0));
}

#[test]
fn advance_on_no_matches_is_none() {
    assert_eq!(advance(&vec![], None, SearchDirection::Next), None);
    assert_eq!(advance(&vec![], None, SearchDirection::Prev), None);
    assert_eq!(advance(&vec![], Some(4), SearchDirection::Next), None);
}

#[test]
fn advance_from_no_or_stale_index_starts_at_an_end() {
    let matches = vec![3, 5, 8];
    assert_eq!(advance(&matches, None, SearchDirection::Next), Some(0));
    assert_eq!(advance(&matches, None, SearchDirection::Prev), Some(2));
    assert_eq!(advance(&matches, Some(3), SearchDirection::Next), Some(0));
    assert_eq!(advance(&matches, Some(usize::MAX), SearchDirection::Next), Some(0));
    assert_eq!(advance(&matches, Some(9), SearchDirection::Prev), Some(2));
}

#[test]
fn next_and_prev_undo_each_other() {
    let matches = vec![1, 4, 6, 7, 9];
    for i in 0..matches.len() {
        let down = advance(&matches, Some(i), SearchDirection::Next);
        assert_eq!(advance(&matches, down, SearchDirection::Prev), Some(i));
        let up = advance(&matches, Some(i), SearchDirection::Prev);
        assert_eq!(advance(&matches, up, SearchDirection::Next), Some(i));
    }
}

#[test]
fn empty_query_finds_nothing() {
    assert_eq!(search(&lines(&["foo", "", "bar"]), ""), Vec::<usize>::new());
}

#[test]
fn search_minds_the_case() {
    assert_eq!(search(&lines(&["Error", "error", "ERROR", "an error"]), "error"), vec![1, 3]);
}

#[test]
fn search_finds_a_query_at_each_place_of_a_line() {
    let all = lines(&["needle at start", "at the end needle", "in needle middle", "needl", "eedle", ""]);
    assert_eq!(search(&all, "needle"), vec![0, 1, 2]);
    assert_eq!(search(&all, "e"), vec![0, 1, 2, 3, 4]);
    assert_eq!(search(&all, "needle at start"), vec![0]);
    assert_eq!(search(&all, "needle at start!"), Vec::<usize>::new());
}

#[test]
fn search_reads_across_spans_and_not_their_styles() {
    let red = Style { fg: Some("Red".to_string()), bg: None, add_modifier: 0, sub_modifier: 0 };
    let line = ProcessedLine {
        spans: vec![
            StyledSpan { text: "fo".to_string(), style: red.clone() },
            StyledSpan { text: "ob".to_string(), style: Style::plain() },
            StyledSpan { text: "ar".to_string(), style: red },
        ],
    };
    assert_eq!(search(&vec![line.clone()], "foobar"), vec![0]);
    assert_eq!(search(&vec![line.clone()], "oob"), vec![0]);
    assert_eq!(search(&vec![line], "Red"), Vec::<usize>::new());
}

#[test]
fn search_in_no_lines_finds_nothing() {
    assert_eq!(search(&vec![], "x"), Vec::<usize>::new());
}

#[test]
fn new_state_has_the_first_match_active() {
    let state = SearchState::new(&lines(&["foo", "bar", "foobar"]), "foo");
    assert_eq!(state.query, "foo");
    assert_eq!(state.matches, vec![0, 2]);
    assert_eq!(state.current_index, Some(0));
    assert_eq!(state.active_line(), Some(0));
}

#[test]
fn state_without_matches_has_no_active_match() {
    let mut state = SearchState::new(&lines(&["foo", "bar"]), "zzz");
    assert_eq!(state.matches, Vec::<usize>::new());
    assert_eq!(state.current_index, None);
    assert_eq!(state.active_line(), None);
    state.step(SearchDirection::Next);
    assert_eq!(state.current_index, None);
}

#[test]
fn steps_walk_round_the_matches() {
    let mut state = SearchState::new(&lines(&["a1", "b", "a2", "a3"]), "a");
    assert_eq!(state.matches, vec![0, 2, 3]);
    state.step(SearchDirection::Next);
    assert_eq!((state.current_index, state.active_line()), (Some(1), Some(2)));
    state.step(SearchDirection::Next);
    assert_eq!((state.current_index, state.active_line()), (Some(2), Some(3)));
    state.step(SearchDirection::Next);
    assert_eq!((state.current_index, state.active_line()), (Some(0), Some(0)));
    state.step(SearchDirection::Prev);
    assert_eq!((state.current_index, state.active_line()), (Some(2), Some(3)));
    assert_eq!(state.query, "a");
    assert_eq!(state.matches, vec![0, 2, 3]);
}

#[test]
fn marks_tell_the_active_match_from_the_others() {
    let state = SearchState { query: "a".to_string(), matches: vec![0, 2, 3], current_index: Some(1) };
    assert_eq!(state.mark(0), MatchMark::Match);
    assert_eq!(state.mark(1), MatchMark::Plain);
    assert_eq!(state.mark(2), MatchMark::Active);
    assert_eq!(state.mark(3), MatchMark::Match);
    assert_eq!(state.mark(4), MatchMark::Plain);
    let stale = SearchState { query: "a".to_string(), matches: vec![0], current_index: Some(5) };
    assert_eq!(stale.mark(0), MatchMark::Match);
    assert_eq!(stale.active_line(), None);
}

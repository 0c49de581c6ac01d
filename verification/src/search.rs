//! Search of a query in the shown lines, and the walk from match to match.

use vstd::prelude::*;
use crate::styled::{lines_view, plain_text, ProcessedLine, SpanView};
use crate::text::{chars_of, contains, occurs_in};

verus! {

/// The way to walk through the matches.
#[derive(Clone, Copy, Debug, PartialEq, Eq, Structural)]
pub enum SearchDirection {
    /// To the match below, from the last one to the first.
    Next,
    /// To the match above, from the first one to the last.
    Prev,
}

/// How a line stands to the search, for its highlighting.
#[derive(Clone, Copy, Debug, PartialEq, Eq, Structural)]
pub enum MatchMark {
    /// The line holds no match.
    Plain,
    /// The line holds a match that is not the active one.
    Match,
    /// The line holds the active match.
    Active,
}

/// How line `line` stands to a search that found `matches` and whose active
/// match is the one at `current`.
pub open spec fn mark_of(matches: Seq<usize>, current: Option<usize>, line: usize) -> MatchMark {
    if current matches Some(i) && i < matches.len() && matches[i as int] == line {
        MatchMark::Active
    } else if matches.contains(line) {
        MatchMark::Match
    } else {
        MatchMark::Plain
    }
}

/// The text of `line` holds `query`, letter for letter. The empty query is
/// held by no line: it means that nothing is searched.
pub open spec fn line_matches(line: Seq<SpanView>, query: Seq<char>) -> bool {
    query.len() > 0 && occurs_in(plain_text(line), query)
}

/// `matches` lists the indices of the lines that hold `query`: each of them,
/// once, in rising order, and no other.
pub open spec fn is_match_list(
    lines: Seq<Seq<SpanView>>,
    query: Seq<char>,
    matches: Seq<usize>,
) -> bool {
    &&& forall|i: int, j: int| 0 <= i < j < matches.len() ==> matches[i] < matches[j]
    &&& forall|i: int|
        0 <= i < matches.len() ==> (#[trigger] matches[i]) < lines.len() && line_matches(
            lines[matches[i] as int],
            query,
        )
    &&& forall|k: int|
        0 <= k < lines.len() && line_matches(#[trigger] lines[k], query) ==> exists|i: int|
            0 <= i < matches.len() && matches[i] == k
}

/// The index among `count` matches that follows `current` in `direction`.
/// There is none among no matches. Behind the last match comes the first and
/// before the first the last. Where `current` is no index of a match, the
/// walk starts at the first match downwards and at the last one upwards.
pub open spec fn advanced(count: nat, current: Option<usize>, direction: SearchDirection) -> Option<
    usize,
> {
    if count == 0 {
        None
    } else {
        match direction {
            SearchDirection::Next => match current {
                Some(c) if c + 1 < count => Some((c + 1) as usize),
                _ => Some(0),
            },
            SearchDirection::Prev => match current {
                Some(c) if 0 < c < count => Some((c - 1) as usize),
                _ => Some((count - 1) as usize),
            },
        }
    }
}

/// The indices of the lines whose text holds `query`, in rising order. The
/// case of the letters counts. An empty query finds nothing.
pub fn search(lines: &Vec<ProcessedLine>, query: &str) -> (matches: Vec<usize>)
    ensures
        is_match_list(lines_view(lines@), query@, matches@),
{
    let mut matches: Vec<usize> = Vec::new();
    let pattern: Vec<char> = chars_of(query);
    if pattern.len() == 0 {
        return matches;
    }
    let n: usize = lines.len();
    let mut k: usize = 0;
    while k < n
        invariant
            k <= n,
            n == lines@.len(),
            pattern@ == query@,
            query@.len() > 0,
            is_match_list(lines_view(lines@).take(k as int), query@, matches@),
        decreases n - k,
    {
        let ghost before = matches@;
        let ghost shown = lines_view(lines@);
        let text: Vec<char> = lines[k].plain_chars();
        let found: bool = contains(&text, &pattern);
        if found {
            matches.push(k);
        }
        proof {
            let old_lines = shown.take(k as int);
            let new_lines = shown.take(k + 1);
            assert(shown[k as int] == lines@[k as int]@);
            assert(new_lines[k as int] == shown[k as int]);
            assert(found == line_matches(new_lines[k as int], query@));
            assert forall|i: int, j: int| 0 <= i < j < matches@.len() implies matches@[i]
                < matches@[j] by {
                assert(before[i] < old_lines.len());
            }
            assert forall|i: int| 0 <= i < matches@.len() implies (#[trigger] matches@[i])
                < new_lines.len() && line_matches(new_lines[matches@[i] as int], query@) by {
                if i < before.len() {
                    assert(before[i] < old_lines.len());
                    assert(old_lines[before[i] as int] == new_lines[before[i] as int]);
                }
            }
            assert forall|j: int|
                0 <= j < new_lines.len() && line_matches(
                    #[trigger] new_lines[j],
                    query@,
                ) implies exists|i: int| 0 <= i < matches@.len() && matches@[i] == j by {
                if j < k {
                    assert(old_lines[j] == new_lines[j]);
                    let i = choose|i: int| 0 <= i < before.len() && before[i] == j;
                    assert(matches@[i] == j);
                } else {
                    assert(matches@[before.len() as int] == j);
                }
            }
        }
        k += 1;
    }
    assert(lines_view(lines@).take(n as int) =~= lines_view(lines@));
    matches
}

/// The match that becomes the active one when the walk goes on from
/// `current_index` in `direction`, as an index into `matches`.
pub fn advance(matches: &Vec<usize>, current_index: Option<usize>, direction: SearchDirection) -> (next:
    Option<usize>)
    ensures
        next == advanced(matches@.len(), current_index, direction),
        next is None <==> matches@.len() == 0,
        next matches Some(i) ==> i < matches@.len(),
{
    let count: usize = matches.len();
    if count == 0 {
        return None;
    }
    match direction {
        SearchDirection::Next => match current_index {
            Some(c) => if c < count - 1 {
                Some(c + 1)
            } else {
                Some(0)
            },
            None => Some(0),
        },
        SearchDirection::Prev => match current_index {
            Some(c) => if 0 < c && c < count {
                Some(c - 1)
            } else {
                Some(count - 1)
            },
            None => Some(count - 1),
        },
    }
}

/// A step downwards and a step upwards from a match lead back to it, and so
/// do a step upwards and a step downwards.
pub proof fn lemma_advance_round_trip(count: nat, current: usize)
    requires
        current < count,
        count <= usize::MAX,
    ensures
        advanced(count, advanced(count, Some(current), SearchDirection::Next), SearchDirection::Prev)
            == Some(current),
        advanced(count, advanced(count, Some(current), SearchDirection::Prev), SearchDirection::Next)
            == Some(current),
{
}

/// A query, the lines it was found in and the match that is the active one.
#[derive(Clone, Debug, PartialEq, Eq)]
pub struct SearchState {
    pub query: String,
    pub matches: Vec<usize>,
    pub current_index: Option<usize>,
}

impl SearchState {
    /// There is an active match wherever there is a match, and it is one of
    /// the matches.
    pub open spec fn wf(&self) -> bool {
        match self.current_index {
            None => self.matches@.len() == 0,
            Some(i) => i < self.matches@.len(),
        }
    }

    /// The state of a search for `query` in `lines`. The first match is the
    /// active one.
    pub fn new(lines: &Vec<ProcessedLine>, query: &str) -> (state: SearchState)
        ensures
            state.wf(),
            state.query@ == query@,
            is_match_list(lines_view(lines@), query@, state.matches@),
            state.current_index == if state.matches@.len() == 0 {
                None
            } else {
                Some(0usize)
            },
    {
        let matches: Vec<usize> = search(lines, query);
        let current_index: Option<usize> = if matches.len() == 0 {
            None
        } else {
            Some(0)
        };
        SearchState { query: query.to_owned(), matches, current_index }
    }

    /// Makes the match that follows in `direction` the active one.
    pub fn step(&mut self, direction: SearchDirection)
        ensures
            final(self).wf(),
            final(self).query == old(self).query,
            final(self).matches == old(self).matches,
            final(self).current_index == advanced(
                old(self).matches@.len(),
                old(self).current_index,
                direction,
            ),
    {
        self.current_index = advance(&self.matches, self.current_index, direction);
    }

    /// How line `line` stands to this search.
    pub fn mark(&self, line: usize) -> (mark: MatchMark)
        ensures
            mark == mark_of(self.matches@, self.current_index, line),
    {
        match self.current_index {
            Some(i) => if i < self.matches.len() && self.matches[i] == line {
                return MatchMark::Active;
            },
            None => {},
        }
        let n: usize = self.matches.len();
        let mut k: usize = 0;
        while k < n
            invariant
                k <= n,
                n == self.matches@.len(),
                mark_of(self.matches@, self.current_index, line) != MatchMark::Active,
                forall|j: int| 0 <= j < k ==> self.matches@[j] != line,
            decreases n - k,
        {
            if self.matches[k] == line {
                assert(self.matches@[k as int] == line);
                return MatchMark::Match;
            }
            k += 1;
        }
        MatchMark::Plain
    }

    /// The index of the line that holds the active match.
    pub fn active_line(&self) -> (line: Option<usize>)
        ensures
            line == match self.current_index {
                Some(i) if i < self.matches@.len() => Some(self.matches@[i as int]),
                _ => None,
            },
    {
        match self.current_index {
            Some(i) => if i < self.matches.len() {
                Some(self.matches[i])
            } else {
                None
            },
            None => None,
        }
    }
}

} // verus!

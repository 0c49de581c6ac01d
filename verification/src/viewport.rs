//! The window of lines that a scrollable view shows.

use vstd::prelude::*;

verus! {

/// The largest offset at which a full viewport still ends inside the log.
pub open spec fn max_offset(total_lines: nat, viewport_height: nat) -> nat {
    if total_lines > viewport_height {
        (total_lines - viewport_height) as nat
    } else {
        0
    }
}

/// The requested offset, clamped to `[0, max_offset]`.
pub open spec fn effective_offset(
    total_lines: nat,
    viewport_height: nat,
    requested_offset: nat,
) -> nat {
    if requested_offset <= max_offset(total_lines, viewport_height) {
        requested_offset
    } else {
        max_offset(total_lines, viewport_height)
    }
}

/// One past the last visible line.
pub open spec fn visible_end(
    total_lines: nat,
    viewport_height: nat,
    requested_offset: nat,
) -> nat {
    let start = effective_offset(total_lines, viewport_height, requested_offset);
    if start + viewport_height <= total_lines {
        start + viewport_height
    } else {
        total_lines
    }
}

/// The one-based pair `(position, last position)` that a scroll indicator
/// shows, or `None` where the whole log fits the viewport.
pub open spec fn position_pair(
    total_lines: nat,
    viewport_height: nat,
    requested_offset: nat,
) -> Option<(usize, usize)> {
    if total_lines <= viewport_height {
        None
    } else {
        Some(
            (
                (effective_offset(total_lines, viewport_height, requested_offset) + 1) as usize,
                (max_offset(total_lines, viewport_height) + 1) as usize,
            ),
        )
    }
}

/// The half-open range `[start, end)` of lines that are visible when a view of
/// `viewport_height` rows over `total_lines` lines is asked to begin at
/// `requested_offset`. A stale or oversized offset is clamped, never refused.
pub fn visible_range(total_lines: usize, viewport_height: usize, requested_offset: usize) -> (range:
    (usize, usize))
    ensures
        range.0 == effective_offset(
            total_lines as nat,
            viewport_height as nat,
            requested_offset as nat,
        ),
        range.1 == visible_end(total_lines as nat, viewport_height as nat, requested_offset as nat),
        range.0 <= range.1 <= total_lines,
{
    if total_lines <= viewport_height {
        (0, total_lines)
    } else {
        let limit: usize = total_lines - viewport_height;
        let start: usize = if requested_offset <= limit {
            requested_offset
        } else {
            limit
        };
        (start, start + viewport_height)
    }
}

/// The one-based pair `(position, last position)` behind a scroll indicator,
/// or `None` where the whole log fits the viewport and no indicator is shown.
/// The count of lines must leave room for the one that is added.
pub fn scroll_position(total_lines: usize, viewport_height: usize, requested_offset: usize) -> (pair:
    Option<(usize, usize)>)
    requires
        total_lines < usize::MAX,
    ensures
        pair == position_pair(
            total_lines as nat,
            viewport_height as nat,
            requested_offset as nat,
        ),
        pair matches Some(p) ==> p.0 == effective_offset(
            total_lines as nat,
            viewport_height as nat,
            requested_offset as nat,
        ) + 1 && p.1 == max_offset(total_lines as nat, viewport_height as nat) + 1,
{
    if total_lines <= viewport_height {
        None
    } else {
        let limit: usize = total_lines - viewport_height;
        let start: usize = if requested_offset <= limit {
            requested_offset
        } else {
            limit
        };
        Some((start + 1, limit + 1))
    }
}

/// The offset that brings line `line` into view, with as many rows above it
/// as below where the log allows.
pub open spec fn centered_offset(line: nat, total_lines: nat, viewport_height: nat) -> nat {
    let above = viewport_height / 2;
    effective_offset(
        total_lines,
        viewport_height,
        if line >= above {
            (line - above) as nat
        } else {
            0
        },
    )
}

/// The offset to ask for so that line `line`, such as the one that holds the
/// active match, is visible and stands in the middle of the viewport where
/// the log allows.
pub fn offset_for_line(line: usize, total_lines: usize, viewport_height: usize) -> (offset: usize)
    ensures
        offset == centered_offset(line as nat, total_lines as nat, viewport_height as nat),
        line < total_lines && viewport_height > 0 ==> offset <= line < offset + viewport_height,
{
    let above: usize = viewport_height / 2;
    let requested: usize = if line >= above {
        line - above
    } else {
        0
    };
    visible_range(total_lines, viewport_height, requested).0
}

/// A visible range never leaves the log, is never longer than the viewport,
/// and is as long as the viewport wherever the log has that many lines. Its
/// start is the requested offset, or the largest offset where that is less.
pub proof fn lemma_visible_range_bounds(
    total_lines: nat,
    viewport_height: nat,
    requested_offset: nat,
)
    ensures
        effective_offset(total_lines, viewport_height, requested_offset) <= visible_end(
            total_lines,
            viewport_height,
            requested_offset,
        ) <= total_lines,
        visible_end(total_lines, viewport_height, requested_offset) - effective_offset(
            total_lines,
            viewport_height,
            requested_offset,
        ) == if total_lines <= viewport_height {
            total_lines
        } else {
            viewport_height
        },
        total_lines == 0 ==> visible_end(total_lines, viewport_height, requested_offset)
            == effective_offset(total_lines, viewport_height, requested_offset),
        effective_offset(total_lines, viewport_height, requested_offset) <= max_offset(
            total_lines,
            viewport_height,
        ),
        requested_offset <= max_offset(total_lines, viewport_height) ==> effective_offset(
            total_lines,
            viewport_height,
            requested_offset,
        ) == requested_offset,
{
}

} // verus!

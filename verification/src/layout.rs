//! Rectangles on the terminal's cell grid and how the viewer divides them.

use ratatui::layout::{
    Constraint as CellConstraint,
    Direction as CellDirection,
    Layout,
    Rect as CellRect,
};
use vstd::prelude::*;

verus! {

/// A rectangle of character cells.
#[derive(Clone, Copy, Debug, PartialEq, Eq, Structural)]
pub struct Rect {
    pub x: u16,
    pub y: u16,
    pub width: u16,
    pub height: u16,
}

/// The axis along which an area is divided into bands.
#[derive(Clone, Copy, Debug, PartialEq, Eq, Structural)]
pub enum Direction {
    /// Bands side by side.
    Horizontal,
    /// Bands one below the other.
    Vertical,
}

/// What is asked of one band of a division.
#[derive(Clone, Copy, Debug, PartialEq, Eq, Structural)]
pub enum Constraint {
    /// A share of the area, in percent.
    Percentage(u16),
    /// No fewer cells than this.
    Min(u16),
    /// This many cells.
    Length(u16),
}

impl Rect {
    /// `self` covers no cell outside `outer`.
    pub open spec fn within(self, outer: Rect) -> bool {
        &&& outer.x <= self.x
        &&& outer.y <= self.y
        &&& self.x + self.width <= outer.x + outer.width
        &&& self.y + self.height <= outer.y + outer.height
    }

    /// `self` is a band of `outer` along `direction`: it lies within `outer`
    /// and reaches from edge to edge across the other axis.
    pub open spec fn band_of(self, outer: Rect, direction: Direction) -> bool {
        &&& self.within(outer)
        &&& match direction {
            Direction::Horizontal => self.y == outer.y && self.height == outer.height,
            Direction::Vertical => self.x == outer.x && self.width == outer.width,
        }
    }

    /// The first cell of `self` along `direction`.
    pub open spec fn start_along(self, direction: Direction) -> int {
        match direction {
            Direction::Horizontal => self.x as int,
            Direction::Vertical => self.y as int,
        }
    }

    /// The number of cells of `self` along `direction`.
    pub open spec fn extent_along(self, direction: Direction) -> int {
        match direction {
            Direction::Horizontal => self.width as int,
            Direction::Vertical => self.height as int,
        }
    }

    /// The far edge of `self` along `direction` is a coordinate of the grid.
    /// A rectangle that reaches beyond the grid is cut at its edge before it
    /// is divided, and its bands are then shares of what is left.
    pub open spec fn fits_along(self, direction: Direction) -> bool {
        self.start_along(direction) + self.extent_along(direction) <= u16::MAX
    }

    /// `self` is the rectangle in the middle of `outer` that takes
    /// `percent_x` of its width and `percent_y` of its height, each edge at
    /// the cell nearest to its share. Along an axis on which `outer` reaches
    /// beyond the grid, `self` is only known to lie within `outer`.
    pub open spec fn centered_in(self, outer: Rect, percent_x: int, percent_y: int) -> bool {
        &&& self.within(outer)
        &&& outer.fits_along(Direction::Horizontal) ==> {
            &&& self.x == outer.x + centered_start(outer.width as int, percent_x)
            &&& self.width == centered_size(outer.width as int, percent_x)
        }
        &&& outer.fits_along(Direction::Vertical) ==> {
            &&& self.y == outer.y + centered_start(outer.height as int, percent_y)
            &&& self.height == centered_size(outer.height as int, percent_y)
        }
    }
}

/// The share left on either side of a centred band that takes `percent` of
/// the whole.
pub open spec fn margin_percent(percent: int) -> int {
    (100 - percent) / 2
}

/// The hundredths of a cell that a band asks for, of an area of `extent`
/// cells: its share, or the cells it names.
pub open spec fn asked(constraint: Constraint, extent: int) -> int {
    match constraint {
        Constraint::Percentage(p) => extent * p,
        Constraint::Min(n) => 100 * n,
        Constraint::Length(n) => 100 * n,
    }
}

/// The hundredths of a cell that the first `k` bands ask for together.
pub open spec fn asked_before(constraints: Seq<Constraint>, extent: int, k: int) -> int
    decreases k,
{
    if k <= 0 {
        0
    } else {
        asked_before(constraints, extent, k - 1) + asked(constraints[k - 1], extent)
    }
}

/// How many of the first `k` bands are asked for a least size.
pub open spec fn mins_before(constraints: Seq<Constraint>, k: int) -> int
    decreases k,
{
    if k <= 0 {
        0
    } else {
        mins_before(constraints, k - 1) + if constraints[k - 1] is Min {
            1int
        } else {
            0int
        }
    }
}

/// All bands can have what they ask for at once, and no two of them
/// compete for what is left over.
pub open spec fn can_be_met(constraints: Seq<Constraint>, extent: int) -> bool {
    &&& mins_before(constraints, constraints.len() as int) <= 1
    &&& asked_before(constraints, extent, constraints.len() as int) <= 100 * extent
}

/// Where band `k` begins (and band `k - 1` ends), in hundredths of a cell
/// from the start of the area: behind what the bands before it ask for, and
/// behind all that is left over where one of them is a `Min` band, which
/// takes it.
pub open spec fn edge(constraints: Seq<Constraint>, extent: int, k: int) -> int {
    asked_before(constraints, extent, k) + if mins_before(constraints, k) > 0 {
        100 * extent - asked_before(constraints, extent, constraints.len() as int)
    } else {
        0
    }
}

/// The cell nearest to a place given in hundredths of a cell; from half way
/// between two cells it is the farther one.
pub open spec fn nearest_cell(hundredths: int) -> int {
    (hundredths + 50) / 100
}

/// Every edge of every band stands at the cell nearest to its place.
pub open spec fn divides(
    bands: Seq<Rect>,
    constraints: Seq<Constraint>,
    area: Rect,
    direction: Direction,
) -> bool {
    forall|i: int|
        0 <= i < bands.len() ==> {
            &&& (#[trigger] bands[i]).start_along(direction) == area.start_along(direction)
                + nearest_cell(edge(constraints, area.extent_along(direction), i))
            &&& bands[i].extent_along(direction) == nearest_cell(
                edge(constraints, area.extent_along(direction), i + 1),
            ) - nearest_cell(edge(constraints, area.extent_along(direction), i))
        }
}

/// Where a centred band that takes `percent` of `extent` cells begins, in
/// cells from the start of the area.
pub open spec fn centered_start(extent: int, percent: int) -> int {
    nearest_cell(extent * margin_percent(percent))
}

/// Where a centred band that takes `percent` of `extent` cells ends.
pub open spec fn centered_end(extent: int, percent: int) -> int {
    nearest_cell(extent * margin_percent(percent) + extent * percent)
}

/// The cells of a centred band that takes `percent` of `extent` cells.
pub open spec fn centered_size(extent: int, percent: int) -> int {
    centered_end(extent, percent) - centered_start(extent, percent)
}

/// Calls ratatui's `Layout::split` with no margin, no spacing and the default
/// flex, `Flex::Start`. It returns one rectangle for each constraint, in
/// their order.
///
/// Whatever the solver answers, each band lies between the two edges of the
/// area, to which ratatui binds every band by a required constraint, and the
/// other axis is copied from the area.
///
/// Where the bands can all have what they ask for (`can_be_met`), the answer
/// is what ratatui documents of each constraint and of `Flex::Start`: a
/// `Length` band has the stated size, a `Percentage` band has that share of
/// the area, a `Min` band has at least its size and takes what is left (as
/// in the example that ratatui gives for `split`), and the bands follow one
/// another from the start of the area without a gap. ratatui reckons each
/// edge in hundredths of a cell and rounds it with `f64::round`
/// (`changes_to_rects`), which is `nearest_cell`; so a band's size is its
/// share to less than a cell. This is claimed only of an area that does not
/// reach beyond the grid, since ratatui cuts such an area first. Nothing of
/// the kind is claimed of lists that ask for more than the area has, or in
/// which two `Min` bands share the rest: ratatui calls some such answers
/// indeterminate.
#[verifier::external_body]
fn split(direction: Direction, constraints: &Vec<Constraint>, area: Rect) -> (bands: Vec<Rect>)
    ensures
        bands@.len() == constraints@.len(),
        forall|i: int| 0 <= i < bands@.len() ==> (#[trigger] bands@[i]).band_of(area, direction),
        area.fits_along(direction) && can_be_met(constraints@, area.extent_along(direction))
            ==> divides(bands@, constraints@, area, direction),
{
    let direction = match direction {
        Direction::Horizontal => CellDirection::Horizontal,
        Direction::Vertical => CellDirection::Vertical,
    };
    let constraints = constraints.iter().map(|c| match c {
        Constraint::Percentage(p) => CellConstraint::Percentage(*p),
        Constraint::Min(n) => CellConstraint::Min(*n),
        Constraint::Length(n) => CellConstraint::Length(*n),
    });
    let area = CellRect { x: area.x, y: area.y, width: area.width, height: area.height };
    let bands = Layout::default().direction(direction).constraints(constraints).split(area);
    bands.iter().map(|b| Rect { x: b.x, y: b.y, width: b.width, height: b.height }).collect()
}

/// The three constraints of a centred band: a margin, the band, a margin.
pub fn centered_constraints(percent: u16) -> (constraints: Vec<Constraint>)
    requires
        percent <= 100,
    ensures
        constraints@ == seq![
            Constraint::Percentage(margin_percent(percent as int) as u16),
            Constraint::Percentage(percent),
            Constraint::Percentage(margin_percent(percent as int) as u16),
        ],
{
    let margin: u16 = (100 - percent) / 2;
    let mut constraints: Vec<Constraint> = Vec::new();
    constraints.push(Constraint::Percentage(margin));
    constraints.push(Constraint::Percentage(percent));
    constraints.push(Constraint::Percentage(margin));
    constraints
}

/// The band between the margins, of the three bands of a centred division.
pub fn middle_band(bands: &Vec<Rect>) -> (band: Rect)
    requires
        bands@.len() == 3,
    ensures
        band == bands@[1],
{
    bands[1]
}

/// Two equal margins and a band of `percent` never ask for more than there
/// is, and the band stands between the places `extent * margin` and
/// `extent * margin + extent * percent`.
pub proof fn lemma_centered_constraints_can_be_met(percent: u16, extent: int)
    requires
        percent <= 100,
        0 <= extent,
    ensures
        ({
            let margin = margin_percent(percent as int) as u16;
            let constraints = seq![
                Constraint::Percentage(margin),
                Constraint::Percentage(percent),
                Constraint::Percentage(margin),
            ];
            &&& can_be_met(constraints, extent)
            &&& edge(constraints, extent, 1) == extent * margin_percent(percent as int)
            &&& edge(constraints, extent, 2) == extent * margin_percent(percent as int) + extent
                * percent
        }),
{
    let m = margin_percent(percent as int);
    let constraints = seq![
        Constraint::Percentage(m as u16),
        Constraint::Percentage(percent),
        Constraint::Percentage(m as u16),
    ];
    reveal_with_fuel(asked_before, 4);
    reveal_with_fuel(mins_before, 4);
    assert(asked_before(constraints, extent, 3) == extent * m + extent * percent + extent * m);
    assert(extent * m + extent * percent + extent * m <= 100 * extent) by (nonlinear_arith)
        requires
            0 <= extent,
            0 <= m,
            0 <= percent,
            m + percent + m <= 100,
    ;
}

/// The band in the middle of `area` along `direction` that takes `percent`
/// of it, between two equal margins. ratatui divides the area; each edge of
/// the band stands at the cell nearest to its share.
pub fn centered_band(percent: u16, direction: Direction, area: Rect) -> (band: Rect)
    requires
        percent <= 100,
    ensures
        band.band_of(area, direction),
        area.fits_along(direction) ==> {
            &&& band.start_along(direction) == area.start_along(direction) + centered_start(
                area.extent_along(direction),
                percent as int,
            )
            &&& band.extent_along(direction) == centered_size(
                area.extent_along(direction),
                percent as int,
            )
        },
{
    let constraints: Vec<Constraint> = centered_constraints(percent);
    let bands: Vec<Rect> = split(direction, &constraints, area);
    proof {
        lemma_centered_constraints_can_be_met(percent, area.extent_along(direction));
        if area.fits_along(direction) {
            assert(bands@[1].start_along(direction) == area.start_along(direction) + nearest_cell(
                edge(constraints@, area.extent_along(direction), 1),
            ));
        }
    }
    middle_band(&bands)
}

/// What holds of a centred band of `percent` of `extent` cells: it has its
/// share to the cell; each margin has its share to half a cell; where the
/// margins share what the band leaves evenly, they differ by one cell at
/// most; a band of all is the whole, and a band of nothing is empty.
pub proof fn lemma_centered_band(extent: int, percent: int)
    requires
        0 <= extent,
        0 <= percent <= 100,
    ensures
        0 <= centered_start(extent, percent) <= centered_end(extent, percent) <= extent,
        extent * percent - 100 < 100 * centered_size(extent, percent) < extent * percent + 100,
        extent * margin_percent(percent) - 50 < 100 * centered_start(extent, percent) <= extent
            * margin_percent(percent) + 50,
        extent * (100 - margin_percent(percent) - percent) - 50 <= 100 * (extent - centered_end(
            extent,
            percent,
        )) < extent * (100 - margin_percent(percent) - percent) + 50,
        (100 - percent) % 2 == 0 ==> 0 <= centered_start(extent, percent) - (extent
            - centered_end(extent, percent)) <= 1,
        percent == 100 ==> centered_start(extent, percent) == 0 && centered_size(extent, percent)
            == extent,
        percent == 0 ==> centered_size(extent, percent) == 0,
{
    let m = margin_percent(percent);
    let a = extent * m;
    let b = extent * percent;
    assert(0 <= a && 0 <= b && a + b + a <= 100 * extent && extent * (100 - m - percent) == 100
        * extent - a - b) by (nonlinear_arith)
        requires
            0 <= extent,
            0 <= m,
            0 <= percent,
            m + percent + m <= 100,
            a == extent * m,
            b == extent * percent,
    ;
    if (100 - percent) % 2 == 0 {
        assert(a + b + a == 100 * extent) by (nonlinear_arith)
            requires
                m + percent + m == 100,
                a == extent * m,
                b == extent * percent,
        ;
    }
    if percent == 0 {
        assert(b == 0) by (nonlinear_arith)
            requires
                b == extent * percent,
                percent == 0,
        ;
    }
}

/// A rectangle in the middle of `r` that takes `percent_x` of its width and
/// `percent_y` of its height: the middle one of three bands from top to
/// bottom, and of that the middle one of three bands from left to right.
/// Percentages above 100 are not accepted. Both divisions are made by
/// ratatui. The rectangle has its share of each axis to the cell, between
/// margins that differ by one cell at most where they share the rest evenly.
pub fn centered_rect(percent_x: u16, percent_y: u16, r: Rect) -> (popup: Rect)
    requires
        percent_x <= 100,
        percent_y <= 100,
    ensures
        popup.centered_in(r, percent_x as int, percent_y as int),
        r.fits_along(Direction::Horizontal) ==> {
            &&& r.width * percent_x - 100 < 100 * popup.width < r.width * percent_x + 100
            &&& (100 - percent_x) % 2 == 0 ==> 0 <= (popup.x - r.x) - (r.x + r.width - popup.x
                - popup.width) <= 1
        },
        r.fits_along(Direction::Vertical) ==> {
            &&& r.height * percent_y - 100 < 100 * popup.height < r.height * percent_y + 100
            &&& (100 - percent_y) % 2 == 0 ==> 0 <= (popup.y - r.y) - (r.y + r.height - popup.y
                - popup.height) <= 1
        },
{
    let row: Rect = centered_band(percent_y, Direction::Vertical, r);
    let popup: Rect = centered_band(percent_x, Direction::Horizontal, row);
    proof {
        lemma_centered_band(r.width as int, percent_x as int);
        lemma_centered_band(r.height as int, percent_y as int);
    }
    popup
}

/// The rows that the search bar is asked to take.
pub const SEARCH_BAR_HEIGHT: u16 = 3;

/// The two constraints of a log body above a search bar: the body takes
/// what the bar leaves.
pub fn search_constraints() -> (constraints: Vec<Constraint>)
    ensures
        constraints@ == seq![Constraint::Min(0), Constraint::Length(SEARCH_BAR_HEIGHT)],
{
    let mut constraints: Vec<Constraint> = Vec::new();
    constraints.push(Constraint::Min(0));
    constraints.push(Constraint::Length(SEARCH_BAR_HEIGHT));
    constraints
}

/// The log body and the search bar, of the two bands of a division for a
/// search.
pub fn search_parts(bands: &Vec<Rect>) -> (parts: (Rect, Option<Rect>))
    requires
        bands@.len() == 2,
    ensures
        parts == (bands@[0], Some(bands@[1])),
{
    (bands[0], Some(bands[1]))
}

/// The area has room for a search bar, and does not reach beyond the grid.
pub open spec fn has_room_for_search(area: Rect) -> bool {
    area.height >= SEARCH_BAR_HEIGHT && area.fits_along(Direction::Vertical)
}

/// The log body above a search bar on `area`: all rows but the last three.
pub open spec fn body_above_search(area: Rect) -> Rect {
    Rect {
        x: area.x,
        y: area.y,
        width: area.width,
        height: (area.height - SEARCH_BAR_HEIGHT) as u16,
    }
}

/// The search bar on `area`: its last three rows.
pub open spec fn search_bar_below(area: Rect) -> Rect {
    Rect {
        x: area.x,
        y: (area.y + area.height - SEARCH_BAR_HEIGHT) as u16,
        width: area.width,
        height: SEARCH_BAR_HEIGHT,
    }
}

/// The area of the log body and, while a query is being typed, that of the
/// search bar, the three rows at the bottom of the area. Without a search
/// the body has the whole area. In an area of fewer than three rows, both
/// are bands of it and ratatui says which.
pub fn split_for_search(area: Rect, searching: bool) -> (parts: (Rect, Option<Rect>))
    ensures
        !searching ==> parts == (area, None::<Rect>),
        searching ==> parts.0.band_of(area, Direction::Vertical) && parts.1 is Some
            && parts.1->0.band_of(area, Direction::Vertical),
        searching && has_room_for_search(area) ==> parts == (
            body_above_search(area),
            Some(search_bar_below(area)),
        ),
{
    if searching {
        let constraints: Vec<Constraint> = search_constraints();
        let bands: Vec<Rect> = split(Direction::Vertical, &constraints, area);
        proof {
            if has_room_for_search(area) {
                reveal_with_fuel(asked_before, 3);
                reveal_with_fuel(mins_before, 3);
                let extent = area.height as int;
                assert(can_be_met(constraints@, extent));
                assert(edge(constraints@, extent, 0) == 0);
                assert(edge(constraints@, extent, 1) == 100 * extent - 300);
                assert(edge(constraints@, extent, 2) == 100 * extent);
                assert(bands@[0].start_along(Direction::Vertical) == area.y);
                assert(bands@[1].start_along(Direction::Vertical) == area.y + extent - 3);
            }
        }
        search_parts(&bands)
    } else {
        (area, None)
    }
}

} // verus!

//! Where the parts of a frame go.
//!
//! The split of an area into rows or columns is left to the constraint solver
//! of `ratatui`. Its answer is clipped to the area it was asked about and then
//! checked: a frame has its help bar in one row at the top and its two panels
//! side by side below, equally wide. Should the solver ever answer otherwise,
//! the frame is split evenly without it.

use vstd::prelude::*;
use ratatui::layout::{Constraint, Direction, Layout, Rect};

verus! {

/// A rectangle of terminal cells: its top left corner and its size.
#[derive(Clone, Copy, Debug, PartialEq, Eq, Structural)]
pub struct Area {
    pub x: u16,
    pub y: u16,
    pub width: u16,
    pub height: u16,
}

/// The direction in which an area is cut.
#[derive(Clone, Copy, Debug, PartialEq, Eq, Structural)]
pub enum Axis {
    /// Parts lie below one another.
    Rows,
    /// Parts lie side by side.
    Columns,
}

/// How much of the cut direction a part asks for.
#[derive(Clone, Copy, Debug, PartialEq, Eq, Structural)]
pub enum Extent {
    /// Exactly this many cells.
    Length(u16),
    /// At least this many cells.
    Min(u16),
    /// This share of the whole, in percent.
    Percentage(u16),
}

/// The areas of one frame.
#[derive(Clone, Copy, Debug, PartialEq, Eq, Structural)]
pub struct FrameLayout {
    /// The help bar, across the top.
    pub help: Area,
    /// The panel of the left buffer.
    pub left: Area,
    /// The panel of the right buffer.
    pub right: Area,
}

impl Area {
    /// The first column right of the area.
    pub open spec fn right(self) -> int {
        self.x + self.width
    }

    /// The first row below the area.
    pub open spec fn bottom(self) -> int {
        self.y + self.height
    }

    /// Where the area begins along the cut direction.
    pub open spec fn start(self, axis: Axis) -> int {
        match axis {
            Axis::Rows => self.y as int,
            Axis::Columns => self.x as int,
        }
    }

    /// Where the area ends along the cut direction.
    pub open spec fn end(self, axis: Axis) -> int {
        match axis {
            Axis::Rows => self.bottom(),
            Axis::Columns => self.right(),
        }
    }

    /// Whether the area ends within the range of cell coordinates. The
    /// solver cuts off what lies beyond.
    pub open spec fn addressable(self) -> bool {
        self.right() <= u16::MAX && self.bottom() <= u16::MAX
    }

    /// Whether the area has room for a help bar above two panels: two
    /// columns and two rows at least, within the range of coordinates.
    pub open spec fn roomy(self) -> bool {
        self.addressable() && self.width >= 2 && self.height >= 2
    }

    /// Whether the cell at column `column`, row `row` belongs to the area.
    pub open spec fn covers(self, column: int, row: int) -> bool {
        self.x <= column < self.right() && self.y <= row < self.bottom()
    }

    /// Whether the area lies inside `bounds`, corner and extent.
    pub open spec fn within(self, bounds: Area) -> bool {
        &&& bounds.x <= self.x
        &&& self.right() <= bounds.right()
        &&& bounds.y <= self.y
        &&& self.bottom() <= bounds.bottom()
    }

    /// Whether the area fills `bounds` across the cut direction: the full
    /// width for a row, the full height for a column.
    pub open spec fn spans(self, axis: Axis, bounds: Area) -> bool {
        match axis {
            Axis::Rows => self.x == bounds.x && self.width == bounds.width,
            Axis::Columns => self.y == bounds.y && self.height == bounds.height,
        }
    }

    /// The part of the area that lies inside `bounds`. An area that misses
    /// `bounds` altogether shrinks to nothing on the nearest edge.
    pub open spec fn clipped(self, bounds: Area) -> Area {
        let x = clamp(self.x as int, bounds.x as int, bounds.right());
        let y = clamp(self.y as int, bounds.y as int, bounds.bottom());
        Area {
            x: x as u16,
            y: y as u16,
            width: (clamp(self.right(), x, bounds.right()) - x) as u16,
            height: (clamp(self.bottom(), y, bounds.bottom()) - y) as u16,
        }
    }

    /// Tells whether the area lies inside `bounds`.
    pub fn is_within(self, bounds: Area) -> (inside: bool)
        ensures
            inside == self.within(bounds),
    {
        bounds.x <= self.x && self.x as u32 + self.width as u32 <= bounds.x as u32
            + bounds.width as u32 && bounds.y <= self.y && self.y as u32 + self.height as u32
            <= bounds.y as u32 + bounds.height as u32
    }

    /// Tells whether the area ends within the range of cell coordinates.
    pub fn is_addressable(self) -> (fine: bool)
        ensures
            fine == self.addressable(),
    {
        self.x as u32 + self.width as u32 <= 65535 && self.y as u32 + self.height as u32 <= 65535
    }

    /// Cuts the area down to `bounds`.
    pub fn clip(self, bounds: Area) -> (part: Area)
        ensures
            part == self.clipped(bounds),
    {
        let (x, width) = clip_span(self.x, self.width, bounds.x, bounds.width);
        let (y, height) = clip_span(self.y, self.height, bounds.y, bounds.height);
        Area { x, y, width, height }
    }
}

/// `value`, moved into the range from `low` to `high`.
pub open spec fn clamp(value: int, low: int, high: int) -> int {
    if value < low {
        low
    } else if value > high {
        high
    } else {
        value
    }
}

/// Clips the span `start .. start + length` to `low .. low + room`.
fn clip_span(start: u16, length: u16, low: u16, room: u16) -> (span: (u16, u16))
    ensures
        span.0 == clamp(start as int, low as int, low + room),
        span.1 == clamp(start + length, span.0 as int, low + room) - span.0,
{
    let high: u32 = low as u32 + room as u32;
    let end: u32 = start as u32 + length as u32;
    let first: u32 = if start < low {
        low as u32
    } else if start as u32 > high {
        high
    } else {
        start as u32
    };
    let last: u32 = if end < first {
        first
    } else if end > high {
        high
    } else {
        end
    };
    (first as u16, (last - first) as u16)
}

/// The rows of a frame: one line for the help bar, the rest for the panels.
pub open spec fn row_extents() -> Seq<Extent> {
    seq![Extent::Length(1), Extent::Min(1)]
}

/// The columns of the panel row: two halves.
pub open spec fn column_extents() -> Seq<Extent> {
    seq![Extent::Percentage(50), Extent::Percentage(50)]
}

/// The frame that comes of the solver's answers: `rows` for the whole area,
/// `columns` for the second row, each part clipped to what was cut.
pub open spec fn arranged(area: Area, rows: Seq<Area>, columns: Seq<Area>) -> FrameLayout {
    let body = rows[1].clipped(area);
    FrameLayout {
        help: rows[0].clipped(area),
        left: columns[0].clipped(body),
        right: columns[1].clipped(body),
    }
}

/// Whether `parts` follow one another along `axis` without overlap: each
/// ends where a later one begins, or before.
pub open spec fn ordered(parts: Seq<Area>, axis: Axis) -> bool {
    forall|i: int, j: int|
        #![trigger parts[i], parts[j]]
        0 <= i < j < parts.len() ==> parts[i].end(axis) <= parts[j].start(axis)
}

/// Whether `parts` can be the solver's answer for `count` extents along
/// `axis` of `bounds`: one part for each extent, each filling `bounds` across
/// the cut direction, in order along the cut.
pub open spec fn answers(parts: Seq<Area>, count: nat, axis: Axis, bounds: Area) -> bool {
    &&& parts.len() == count
    &&& forall|i: int| 0 <= i < parts.len() ==> (#[trigger] parts[i]).spans(axis, bounds)
    &&& ordered(parts, axis)
}

/// Calls `ratatui::layout::Layout::split` on a layout made by `Layout::new`
/// from the direction and the constraints that stand for `axis` and
/// `extents`, with no margin.
///
/// The solver works in floating point and its documentation leaves some
/// results open, so the contract states only what its source shows of every
/// answer. There is one part for each extent. Each part has the area's own
/// position and size across the cut direction. The parts are in order along
/// the cut and do not overlap: the solver is given, as constraints it must
/// meet, that every edge lies at or after the one before, and the edges are
/// rounded to cells by a function that keeps their order. How long a part is
/// comes of the solver's optimum and is not stated, nor is it taken on trust
/// that a part lies inside the area: the callers clip and check.
#[verifier::external_body]
fn split(axis: Axis, extents: &Vec<Extent>, area: Area) -> (parts: Vec<Area>)
    ensures
        answers(parts@, extents@.len(), axis, area),
{
    let direction = match axis {
        Axis::Rows => Direction::Vertical,
        Axis::Columns => Direction::Horizontal,
    };
    let constraints = extents.iter().map(|extent| match *extent {
        Extent::Length(cells) => Constraint::Length(cells),
        Extent::Min(cells) => Constraint::Min(cells),
        Extent::Percentage(share) => Constraint::Percentage(share),
    });
    let rect = Rect { x: area.x, y: area.y, width: area.width, height: area.height };
    let rects = Layout::new(direction, constraints).split(rect);
    rects.iter().map(|r| Area { x: r.x, y: r.y, width: r.width, height: r.height }).collect()
}

/// The extents handed to the solver for the rows of a frame.
pub fn frame_rows() -> (extents: Vec<Extent>)
    ensures
        extents@ == row_extents(),
{
    vec![Extent::Length(1), Extent::Min(1)]
}

/// The extents handed to the solver for the columns of the panel row.
pub fn panel_columns() -> (extents: Vec<Extent>)
    ensures
        extents@ == column_extents(),
{
    vec![Extent::Percentage(50), Extent::Percentage(50)]
}

impl FrameLayout {
    /// Whether the layout fits `area`: the help bar runs across its full
    /// width, the panels lie below the help bar and share their rows, the
    /// right panel begins where the left one ends or after, and all three
    /// lie inside the area.
    pub open spec fn fits(self, area: Area) -> bool {
        &&& self.help.within(area)
        &&& self.help.spans(Axis::Rows, area)
        &&& self.left.within(area)
        &&& self.right.within(area)
        &&& self.left.y == self.right.y
        &&& self.left.height == self.right.height
        &&& self.help.bottom() <= self.left.y
        &&& self.left.right() <= self.right.x
    }

    /// Whether the layout halves `area`: the help bar is the top row, the
    /// panels fill the rows below side by side, and they are equally wide,
    /// but that the left one takes an odd column.
    pub open spec fn halves(self, area: Area) -> bool {
        &&& self.help == (Area { x: area.x, y: area.y, width: area.width, height: 1 })
        &&& self.left.x == area.x
        &&& self.left.y == area.y + 1
        &&& self.left.height == area.height - 1
        &&& self.right.x == self.left.right()
        &&& self.left.width + self.right.width == area.width
        &&& self.right.width <= self.left.width <= self.right.width + 1
    }

    /// Whether the layout is a proper frame for `area`: it fits, and where
    /// the area has room for a help bar above two panels it halves the area.
    pub open spec fn balanced(self, area: Area) -> bool {
        &&& self.fits(area)
        &&& area.roomy() ==> self.halves(area)
    }

    /// Tells whether the layout is a proper frame for `area`.
    pub fn is_balanced(&self, area: Area) -> (proper: bool)
        ensures
            proper == self.balanced(area),
    {
        let fits = self.help.is_within(area) && self.help.x == area.x && self.help.width
            == area.width && self.left.is_within(area) && self.right.is_within(area) && self.left.y
            == self.right.y && self.left.height == self.right.height && self.help.y as u32
            + self.help.height as u32 <= self.left.y as u32 && self.left.x as u32
            + self.left.width as u32 <= self.right.x as u32;
        if !fits {
            false
        } else if area.is_addressable() && area.width >= 2 && area.height >= 2 {
            let left: u32 = self.left.width as u32;
            let right: u32 = self.right.width as u32;
            self.help.x == area.x && self.help.y == area.y && self.help.width == area.width
                && self.help.height == 1 && self.left.x == area.x && self.left.y as u32
                == area.y as u32 + 1 && self.left.height as u32 + 1 == area.height as u32
                && self.right.x as u32 == self.left.x as u32 + left && left + right
                == area.width as u32 && right <= left && left <= right + 1
        } else {
            true
        }
    }

    /// The even split of `area`, made without the solver.
    pub fn even(area: Area) -> (layout: FrameLayout)
        ensures
            layout == even_layout(area),
    {
        if area.is_addressable() {
            let top: u16 = if area.height >= 2 {
                1
            } else {
                0
            };
            let narrow: u16 = area.width / 2;
            let wide: u16 = area.width - narrow;
            let y: u16 = area.y + top;
            let height: u16 = area.height - top;
            FrameLayout {
                help: Area { x: area.x, y: area.y, width: area.width, height: top },
                left: Area { x: area.x, y, width: wide, height },
                right: Area { x: area.x + wide, y, width: narrow, height },
            }
        } else {
            FrameLayout {
                help: Area { x: area.x, y: area.y, width: area.width, height: 0 },
                left: Area { x: area.x, y: area.y, width: 0, height: 0 },
                right: Area { x: area.x, y: area.y, width: 0, height: 0 },
            }
        }
    }

    /// Keeps a layout that is a proper frame for `area` and replaces any
    /// other by the even split.
    pub fn settle(self, area: Area) -> (layout: FrameLayout)
        ensures
            layout == settled(self, area),
            layout.balanced(area),
    {
        if self.is_balanced(area) {
            self
        } else {
            proof {
                even_layout_is_balanced(area);
            }
            FrameLayout::even(area)
        }
    }
}

/// The even split of an area: the top row for the help bar when there are
/// two rows or more, the rest in two halves, the left one taking an odd
/// column. An area that runs past the range of coordinates gets an empty
/// frame.
pub open spec fn even_layout(area: Area) -> FrameLayout {
    if area.addressable() {
        let top: int = if area.height >= 2 {
            1
        } else {
            0
        };
        let narrow = area.width / 2;
        let wide = area.width - narrow;
        FrameLayout {
            help: Area { x: area.x, y: area.y, width: area.width, height: top as u16 },
            left: Area {
                x: area.x,
                y: (area.y + top) as u16,
                width: wide as u16,
                height: (area.height - top) as u16,
            },
            right: Area {
                x: (area.x + wide) as u16,
                y: (area.y + top) as u16,
                width: narrow as u16,
                height: (area.height - top) as u16,
            },
        }
    } else {
        FrameLayout {
            help: Area { x: area.x, y: area.y, width: area.width, height: 0 },
            left: Area { x: area.x, y: area.y, width: 0, height: 0 },
            right: Area { x: area.x, y: area.y, width: 0, height: 0 },
        }
    }
}

/// The layout that is used: the candidate when it is a proper frame for the
/// area, the even split when it is not.
pub open spec fn settled(candidate: FrameLayout, area: Area) -> FrameLayout {
    if candidate.balanced(area) {
        candidate
    } else {
        even_layout(area)
    }
}

/// Builds the frame from the solver's answers: `top` and `rest` are the rows
/// it gave for `area`, `first` and `second` the columns it gave for the
/// second row. Each part is clipped to what was cut.
pub fn arrange(area: Area, top: Area, rest: Area, first: Area, second: Area) -> (layout:
    FrameLayout)
    ensures
        layout == arranged(area, seq![top, rest], seq![first, second]),
{
    let body = rest.clip(area);
    FrameLayout { help: top.clip(area), left: first.clip(body), right: second.clip(body) }
}

/// Asks the solver how to cut `area` into the help bar's row and the panels'
/// columns, and builds the frame from its answers.
///
/// How large the parts are is the solver's choice. Whatever it answers, the
/// frame fits the area.
pub fn solved_layout(area: Area) -> (layout: FrameLayout)
    ensures
        layout.fits(area),
{
    let rows = split(Axis::Rows, &frame_rows(), area);
    let body = rows[1].clip(area);
    let columns = split(Axis::Columns, &panel_columns(), body);
    proof {
        assert(rows@ =~= seq![rows@[0], rows@[1]]);
        assert(columns@ =~= seq![columns@[0], columns@[1]]);
        arranged_answers_fit(area, rows@, columns@);
    }
    arrange(area, rows[0], rows[1], columns[0], columns[1])
}

/// Lays out a frame on `area`: the help bar in a row of its own, the two
/// panels side by side in the rows that remain.
///
/// The solver's answer is used as long as it is a proper frame; the even
/// split takes its place when it is not. Either way the result is a proper
/// frame.
pub fn frame_layout(area: Area) -> (layout: FrameLayout)
    ensures
        layout.balanced(area),
{
    solved_layout(area).settle(area)
}

/// The even split is a proper frame for every area.
pub proof fn even_layout_is_balanced(area: Area)
    ensures
        even_layout(area).balanced(area),
{
}

/// Whatever the solver answers, the frame built from its answers fits the
/// area: clipping keeps the parts inside and does not disturb their order.
pub proof fn arranged_answers_fit(area: Area, rows: Seq<Area>, columns: Seq<Area>)
    requires
        answers(rows, 2, Axis::Rows, area),
        answers(columns, 2, Axis::Columns, rows[1].clipped(area)),
    ensures
        arranged(area, rows, columns).fits(area),
{
    let body = rows[1].clipped(area);
    assert(rows[0].spans(Axis::Rows, area));
    assert(rows[0].end(Axis::Rows) <= rows[1].start(Axis::Rows));
    assert(columns[0].spans(Axis::Columns, body));
    assert(columns[1].spans(Axis::Columns, body));
    assert(columns[0].end(Axis::Columns) <= columns[1].start(Axis::Columns));
}

/// A proper frame of an area with room tiles it: every cell of the area
/// belongs to the help bar or to one of the panels, and to one of them only.
pub proof fn balanced_layout_tiles_the_area(
    layout: FrameLayout,
    area: Area,
    column: int,
    row: int,
)
    requires
        layout.balanced(area),
        area.roomy(),
    ensures
        area.covers(column, row) <==> layout.help.covers(column, row) || layout.left.covers(
            column,
            row,
        ) || layout.right.covers(column, row),
        !(layout.help.covers(column, row) && layout.left.covers(column, row)),
        !(layout.help.covers(column, row) && layout.right.covers(column, row)),
        !(layout.left.covers(column, row) && layout.right.covers(column, row)),
{
}

/// The frame of an area with room is a function of the area alone: there is
/// one proper frame, the even split, whatever the solver answered.
pub proof fn balanced_layout_is_determined(layout: FrameLayout, area: Area)
    requires
        layout.balanced(area),
        area.roomy(),
    ensures
        layout == even_layout(area),
{
}

/// Clipping keeps exactly the cells that the area and the bounds share, and
/// its result lies inside the bounds even when no cell is left.
pub proof fn clipped_is_the_common_part(area: Area, bounds: Area, column: int, row: int)
    ensures
        area.clipped(bounds).covers(column, row) <==> area.covers(column, row) && bounds.covers(
            column,
            row,
        ),
        area.clipped(bounds).within(bounds),
{
}

/// An area that already lies inside the bounds is left as it is.
pub proof fn clipped_keeps_what_fits(area: Area, bounds: Area)
    requires
        area.within(bounds),
    ensures
        area.clipped(bounds) == area,
{
}

} // verus!

//! Rectangles of the terminal grid and how a region is cut into them.

use ratatui::layout as tui;
use vstd::prelude::*;

verus! {

/// A rectangle of terminal cells.
#[derive(Debug, Clone, Copy, PartialEq, Eq)]
pub struct Rect {
    pub x: u16,
    pub y: u16,
    pub width: u16,
    pub height: u16,
}

/// The axis along which a region is cut.
#[derive(Debug, Clone, Copy, PartialEq, Eq)]
pub enum Direction {
    Horizontal,
    Vertical,
}

/// What one part of a cut region asks for along the axis.
#[derive(Debug, Clone, Copy, PartialEq, Eq)]
pub enum Constraint {
    /// At least this many cells.
    Min(u16),
    /// Exactly this many cells.
    Length(u16),
    /// This share of the region, in hundredths.
    Percentage(u16),
}

/// Whether `part` lies in `area` as a cut along `direction` leaves it: a part
/// of a vertical cut keeps the area's columns, a part of a horizontal cut
/// keeps its rows.
pub open spec fn spans(direction: Direction, area: Rect, part: Rect) -> bool {
    match direction {
        Direction::Vertical => part.x == area.x && part.width == area.width,
        Direction::Horizontal => part.y == area.y && part.height == area.height,
    }
}

/// Where `r` begins along `direction`: its top row for a vertical cut, its
/// left column for a horizontal one.
pub open spec fn start_along(direction: Direction, r: Rect) -> int {
    match direction {
        Direction::Vertical => r.y as int,
        Direction::Horizontal => r.x as int,
    }
}

/// One past where `r` ends along `direction`.
pub open spec fn end_along(direction: Direction, r: Rect) -> int {
    match direction {
        Direction::Vertical => r.y + r.height,
        Direction::Horizontal => r.x + r.width,
    }
}

/// One past where the area `r` ends along `direction`, held at `u16::MAX`.
pub open spec fn limit_along(direction: Direction, r: Rect) -> int {
    match direction {
        Direction::Vertical => bottom(r),
        Direction::Horizontal => right(r),
    }
}

/// Whether `parts` is a cut of `area` along `direction`: every part keeps the
/// area's extent across the axis and lies between the area's two ends along
/// it, and each part ends before the next one begins.
pub open spec fn cuts(direction: Direction, area: Rect, parts: Seq<Rect>) -> bool {
    &&& forall|i: int|
        0 <= i < parts.len() ==> {
            &&& spans(direction, area, #[trigger] parts[i])
            &&& start_along(direction, area) <= start_along(direction, parts[i])
            &&& end_along(direction, parts[i]) <= limit_along(direction, area)
        }
    &&& forall|i: int|
        0 <= i < parts.len() - 1 ==> end_along(direction, #[trigger] parts[i]) <= start_along(
            direction,
            parts[i + 1],
        )
}

/// Cuts `area` with `ratatui::layout::Layout::split`, on a default layout that
/// was given the direction and the constraints. How long each part is along
/// the axis is the solver's answer to the constraints and is not stated.
/// Stated is what the solver is required to keep whatever the constraints:
/// there is one rectangle for each constraint; each keeps the area's position
/// and size across the axis, since the default layout has no margin; along
/// the axis each lies between the area's two ends, the far end held at
/// `u16::MAX`; and the parts come in order, none reaching into the next.
#[verifier::external_body]
pub(crate) fn split(direction: Direction, constraints: &Vec<Constraint>, area: Rect) -> (parts: Vec<Rect>)
    ensures
        parts@.len() == constraints@.len(),
        cuts(direction, area, parts@),
{
    let dir = match direction {
        Direction::Horizontal => tui::Direction::Horizontal,
        Direction::Vertical => tui::Direction::Vertical,
    };
    let wanted = constraints.iter().map(|c| match *c {
        Constraint::Min(n) => tui::Constraint::Min(n),
        Constraint::Length(n) => tui::Constraint::Length(n),
        Constraint::Percentage(n) => tui::Constraint::Percentage(n),
    });
    let whole = tui::Rect { x: area.x, y: area.y, width: area.width, height: area.height };
    let layout = tui::Layout::default().direction(dir).constraints(wanted);
    layout.split(whole).iter().map(|p| Rect { x: p.x, y: p.y, width: p.width, height: p.height }).collect()
}

/// The width and height that `ratatui` clips a size to whose area is more
/// than `u16::MAX` cells.
pub uninterp spec fn clipped_size(width: u16, height: u16) -> (u16, u16);

/// The rectangle that `make_rect` gives: the size is kept while its area
/// fits in a `u16`, and clipped beyond that.
pub open spec fn made_rect(x: u16, y: u16, width: u16, height: u16) -> Rect {
    if width * height > u16::MAX {
        Rect { x, y, width: clipped_size(width, height).0, height: clipped_size(width, height).1 }
    } else {
        Rect { x, y, width, height }
    }
}

/// One past the last column of `r`, held at `u16::MAX`.
pub open spec fn right(r: Rect) -> int {
    if r.x + r.width > u16::MAX {
        u16::MAX as int
    } else {
        r.x + r.width
    }
}

/// One past the last row of `r`, held at `u16::MAX`.
pub open spec fn bottom(r: Rect) -> int {
    if r.y + r.height > u16::MAX {
        u16::MAX as int
    } else {
        r.y + r.height
    }
}

/// The larger of two numbers.
pub open spec fn larger(a: int, b: int) -> int {
    if a >= b {
        a
    } else {
        b
    }
}

/// The smaller of two numbers.
pub open spec fn smaller(a: int, b: int) -> int {
    if a <= b {
        a
    } else {
        b
    }
}

/// `high - low`, or 0 where that is negative.
pub open spec fn span(low: int, high: int) -> int {
    if high > low {
        high - low
    } else {
        0
    }
}

/// The cells that `a` and `b` share; a rectangle without area where they
/// share none.
pub open spec fn overlap(a: Rect, b: Rect) -> Rect {
    let x1 = larger(a.x as int, b.x as int);
    let y1 = larger(a.y as int, b.y as int);
    let x2 = smaller(right(a), right(b));
    let y2 = smaller(bottom(a), bottom(b));
    Rect { x: x1 as u16, y: y1 as u16, width: span(x1, x2) as u16, height: span(y1, y2) as u16 }
}

/// Makes a rectangle with `ratatui::layout::Rect::new`. It keeps the position
/// always, and the size while width times height is at most `u16::MAX`; a
/// larger size it clips, to a size that depends on the two numbers alone.
#[verifier::external_body]
pub(crate) fn make_rect(x: u16, y: u16, width: u16, height: u16) -> (r: Rect)
    ensures
        r.x == x,
        r.y == y,
        (r.width, r.height) == (if width * height > u16::MAX {
            clipped_size(width, height)
        } else {
            (width, height)
        }),
{
    let r = tui::Rect::new(x, y, width, height);
    Rect { x: r.x, y: r.y, width: r.width, height: r.height }
}

/// The cells that two rectangles share: from the larger of the two left and
/// of the two top edges to the smaller of the two right and of the two bottom
/// edges, each of these held at `u16::MAX`.
pub fn intersection(a: Rect, b: Rect) -> (r: Rect)
    ensures
        r == overlap(a, b),
{
    let x1 = if a.x >= b.x { a.x } else { b.x };
    let y1 = if a.y >= b.y { a.y } else { b.y };
    let a_right = a.x.saturating_add(a.width);
    let b_right = b.x.saturating_add(b.width);
    let a_bottom = a.y.saturating_add(a.height);
    let b_bottom = b.y.saturating_add(b.height);
    let x2 = if a_right <= b_right { a_right } else { b_right };
    let y2 = if a_bottom <= b_bottom { a_bottom } else { b_bottom };
    Rect { x: x1, y: y1, width: x2.saturating_sub(x1), height: y2.saturating_sub(y1) }
}

} // verus!

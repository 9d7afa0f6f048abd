use vstd::prelude::*;
use ratatui::layout::{Constraint, Direction, Layout};

verus! {

/// A rectangle of terminal cells: its top-left corner and its size.
#[derive(Clone, Copy, Debug, PartialEq, Eq, Structural)]
pub struct Rect {
    pub x: u16,
    pub y: u16,
    pub width: u16,
    pub height: u16,
}

impl Rect {
    /// The rectangle lies within the coordinates a `u16` can hold.
    pub open spec fn wf(&self) -> bool {
        self.x + self.width <= u16::MAX && self.y + self.height <= u16::MAX
    }

    /// The rectangle lies within `outer`.
    pub open spec fn within(&self, outer: Rect) -> bool {
        &&& outer.x <= self.x && self.x + self.width <= outer.x + outer.width
        &&& outer.y <= self.y && self.y + self.height <= outer.y + outer.height
    }

    /// The cell (`col`, `row`) lies in the rectangle.
    pub open spec fn holds(&self, col: u16, row: u16) -> bool {
        self.x <= col < self.x + self.width && self.y <= row < self.y + self.height
    }
}

/// Testing whether (`col`, `row`) lies inside the border of `r` stays within `u16`.
pub open spec fn inside_test_ok(r: Rect, col: u16, row: u16) -> bool {
    &&& r.x + 1 <= u16::MAX
    &&& col >= r.x + 1 ==> 1 <= r.x + r.width <= u16::MAX
    &&& col >= r.x + 1 && col < r.x + r.width - 1 ==> r.y + 1 <= u16::MAX
    &&& col >= r.x + 1 && col < r.x + r.width - 1 && row >= r.y + 1 ==> 1 <= r.y + r.height <= u16::MAX
}

/// (`col`, `row`) lies inside the border of `r`.
pub open spec fn inside(r: Rect, col: u16, row: u16) -> bool {
    col >= r.x + 1 && col < r.x + r.width - 1 && row >= r.y + 1 && row < r.y + r.height - 1
}

/// Whether (`col`, `row`) lies inside the border of `r`.
pub fn is_inside(r: Rect, col: u16, row: u16) -> (b: bool)
    requires
        inside_test_ok(r, col, row),
    ensures
        b == inside(r, col, row),
{
    col >= r.x + 1 && col < r.x + r.width - 1 && row >= r.y + 1 && row < r.y + r.height - 1
}

/// The middle one of three areas into which ratatui's layout solver splits `area` (vertically, or
/// else horizontally) for the constraints `Percentage(outer)`, `Percentage(middle)`,
/// `Percentage(outer)`.
pub uninterp spec fn layout_middle(vertical: bool, outer: u16, middle: u16, area: Rect) -> Rect;

/// `Layout::split` of ratatui for three percentages; returns the middle area. The solver keeps
/// every area it makes within the area it splits (when that area fits in `u16` coordinates,
/// which `Rect::new` would otherwise clamp).
#[verifier::external_body]
fn split_middle(vertical: bool, outer: u16, middle: u16, area: Rect) -> (r: Rect)
    ensures
        r == layout_middle(vertical, outer, middle, area),
        area.wf() ==> r.within(area),
{
    let direction = if vertical { Direction::Vertical } else { Direction::Horizontal };
    let chunks = Layout::default().direction(direction).constraints(
        [Constraint::Percentage(outer), Constraint::Percentage(middle), Constraint::Percentage(outer)],
    ).split(ratatui::layout::Rect::new(area.x, area.y, area.width, area.height));
    Rect { x: chunks[1].x, y: chunks[1].y, width: chunks[1].width, height: chunks[1].height }
}

/// A popup area centred in `r`: `percent_y` percent of its height and `percent_x` percent of its
/// width, as the layout solver places them.
pub fn centered_rect(percent_x: u16, percent_y: u16, r: Rect) -> (c: Rect)
    requires
        percent_x <= 100,
        percent_y <= 100,
    ensures
        c == layout_middle(
            false,
            ((100 - percent_x) / 2) as u16,
            percent_x,
            layout_middle(true, ((100 - percent_y) / 2) as u16, percent_y, r),
        ),
        r.wf() ==> c.within(r),
{
    let popup = split_middle(true, (100 - percent_y) / 2, percent_y, r);
    split_middle(false, (100 - percent_x) / 2, percent_x, popup)
}

impl Default for Rect {
    /// The empty rectangle at the origin.
    fn default() -> (r: Self)
        ensures
            r == (Rect { x: 0, y: 0, width: 0, height: 0 }),
    {
        Rect { x: 0, y: 0, width: 0, height: 0 }
    }
}

} // verus!

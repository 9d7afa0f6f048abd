use vstd::prelude::*;
use crate::engine::app::{App, AppView};
use crate::text::{byte_len, string_byte_len};

verus! {

/// Columns that line numbers take at the left of the editor pane.
pub open spec fn line_number_width(show_line_numbers: bool) -> u16 {
    if show_line_numbers {
        5
    } else {
        0
    }
}

/// `a - b`, or 0 when `b` is larger.
pub open spec fn sat_sub(a: int, b: int) -> int {
    if a >= b {
        a - b
    } else {
        0
    }
}

/// The line a click or a move to line `y` lands on, in a document of `n >= 1` lines: the
/// line itself, or the last line when there is no line `y`.
pub open spec fn clamp_row(n: int, y: int) -> u16 {
    if y < n {
        y as u16
    } else {
        (n - 1) as u16
    }
}

pub proof fn lemma_u16_trunc(x: usize)
    ensures
        (x as u16) as usize <= x,
{
    assert((x as u16) as usize <= x) by (bit_vector);
}

impl AppView {
    /// A click at column `click_x` (counted from the left of the text, line numbers included)
    /// and line `click_y`: the cursor goes there, onto the last line when below it, and to the
    /// end of the line when right of it.
    pub open spec fn handle_click(self, click_x: u16, click_y: u16) -> AppView {
        let off = line_number_width(self.show_line_numbers);
        let cy = clamp_row(self.lines.len() as int, click_y as int);
        let row_len = byte_len(self.lines[cy as int]) as u16;
        let cx = sat_sub(click_x as int, off as int) as u16;
        AppView { cursor_x: if cx > row_len { row_len } else { cx }, cursor_y: cy, ..self }
    }

    /// The arithmetic of a cursor move stays within `i16`.
    pub open spec fn move_cursor_ok(self, dx: i16, dy: i16) -> bool {
        &&& self.lines.len() >= 1
        &&& i16::MIN <= (self.cursor_y as i16) + dy <= i16::MAX
        &&& i16::MIN <= (self.cursor_x as i16) + dx <= i16::MAX
    }

    /// The cursor moved by `dx` columns and `dy` lines, the selection cleared: the line stays
    /// within the document and the column within the line (0 to its length in bytes).
    pub open spec fn move_cursor(self, dx: i16, dy: i16) -> AppView {
        let n = self.lines.len() as int;
        let ny = (self.cursor_y as i16) + dy;
        let cy: u16 = if ny < 0 { 0 } else { clamp_row(n, ny as int) };
        let row_len = byte_len(self.lines[cy as int]) as i16;
        let nx = (self.cursor_x as i16) + dx;
        AppView {
            selection_start: None,
            cursor_y: cy,
            cursor_x: if nx < 0 {
                0
            } else if nx > row_len {
                row_len as u16
            } else {
                nx as u16
            },
            ..self
        }
    }

    /// The arithmetic of a scroll adjustment stays within `u16`.
    pub open spec fn adjust_scroll_ok(self) -> bool {
        &&& self.scroll_y + sat_sub(self.editor_area.height as int, 2) <= u16::MAX
        &&& self.scroll_x + sat_sub(
            self.editor_area.width as int,
            2 + line_number_width(self.show_line_numbers),
        ) <= u16::MAX
    }

    /// The editor pane scrolled just enough to show the cursor, given the pane's size (its
    /// border and the line numbers take room).
    pub open spec fn adjust_scroll(self) -> AppView {
        let h2 = sat_sub(self.editor_area.height as int, 2);
        let h3 = sat_sub(self.editor_area.height as int, 3);
        let vw = sat_sub(self.editor_area.width as int, 2 + line_number_width(self.show_line_numbers));
        let (cx, cy, sx, sy) = (
            self.cursor_x as int,
            self.cursor_y as int,
            self.scroll_x as int,
            self.scroll_y as int,
        );
        AppView {
            scroll_y: (if cy < sy {
                cy
            } else if cy >= sy + h2 {
                cy - h3
            } else {
                sy
            }) as u16,
            scroll_x: (if cx < sx {
                cx
            } else if cx >= sx + vw {
                if sat_sub(cx, vw) + 1 > u16::MAX {
                    u16::MAX as int
                } else {
                    sat_sub(cx, vw) + 1
                }
            } else {
                sx
            }) as u16,
            ..self
        }
    }
}

impl App {
    /// A click at column `click_x` (counted from the left of the text, line numbers included)
    /// and line `click_y`: the cursor goes there, onto the last line when below it, and to the
    /// end of the line when right of it.
    pub fn handle_click(&mut self, click_x: u16, click_y: u16)
        requires
            old(self).document.rows@.len() >= 1,
        ensures
            final(self)@ == old(self)@.handle_click(click_x, click_y),
            final(self).cursor_y < final(self).lines().len(),
    {
        let offset_x: u16 = if self.config.show_line_numbers { 5 } else { 0 };
        self.cursor_x = click_x.saturating_sub(offset_x);
        self.cursor_y = click_y;
        if (self.cursor_y as usize) >= self.document.rows.len() {
            proof {
                lemma_u16_trunc((self.document.rows@.len() - 1) as usize);
            }
            self.cursor_y = self.document.rows.len().saturating_sub(1) as u16;
        }
        let row_len: u16 = string_byte_len(&self.document.rows[self.cursor_y as usize]) as u16;
        if self.cursor_x > row_len {
            self.cursor_x = row_len;
        }
    }

    /// Moves the cursor by `dx` columns and `dy` lines and clears the selection. The line stays
    /// within the document and the column within the line (0 to its length in bytes).
    pub fn move_cursor(&mut self, dx: i16, dy: i16)
        requires
            old(self)@.move_cursor_ok(dx, dy),
        ensures
            final(self)@ == old(self)@.move_cursor(dx, dy),
            final(self).cursor_y < final(self).lines().len(),
    {
        self.selection_start = None;
        let mut new_y: i16 = self.cursor_y as i16 + dy;
        if new_y < 0 {
            new_y = 0;
            self.cursor_y = 0;
        } else if (new_y as usize) >= self.document.rows.len() {
            proof {
                lemma_u16_trunc((self.document.rows@.len() - 1) as usize);
            }
            self.cursor_y = (self.document.rows.len() - 1) as u16;
        } else {
            self.cursor_y = new_y as u16;
        }
        let row_len: i16 = string_byte_len(&self.document.rows[self.cursor_y as usize]) as i16;
        let mut new_x: i16 = self.cursor_x as i16 + dx;
        if new_x < 0 {
            new_x = 0;
        } else if new_x > row_len {
            new_x = row_len;
        }
        self.cursor_x = new_x as u16;
    }

    /// Scrolls the editor pane just enough to show the cursor, given the pane's size (its border
    /// and the line numbers take room).
    pub fn adjust_scroll(&mut self)
        requires
            old(self)@.adjust_scroll_ok(),
        ensures
            final(self)@ == old(self)@.adjust_scroll(),
            // With room for a line and a column, the cursor is then in view.
            old(self).editor_area.height >= 3 ==> final(self).scroll_y <= final(self).cursor_y
                < final(self).scroll_y + old(self).editor_area.height - 2,
            old(self).editor_area.width >= 3 + line_number_width(old(self).config.show_line_numbers)
                ==> final(self).scroll_x <= final(self).cursor_x < final(self).scroll_x
                + old(self).editor_area.width - 2 - line_number_width(old(self).config.show_line_numbers),
    {
        let offset_x: u16 = if self.config.show_line_numbers { 5 } else { 0 };
        if self.cursor_y < self.scroll_y {
            self.scroll_y = self.cursor_y;
        } else if self.cursor_y >= self.scroll_y + self.editor_area.height.saturating_sub(2) {
            self.scroll_y = self.cursor_y - self.editor_area.height.saturating_sub(3);
        }
        let visible_width: u16 = self.editor_area.width.saturating_sub(2 + offset_x);
        if self.cursor_x < self.scroll_x {
            self.scroll_x = self.cursor_x;
        } else if self.cursor_x >= self.scroll_x + visible_width {
            self.scroll_x = self.cursor_x.saturating_sub(visible_width).saturating_add(1);
        }
    }
}

} // verus!

use vstd::prelude::*;
use crate::engine::app::{App, AppFocus, AppMode, AppView, Effect, EffectView, ModeView, effect_view};
use crate::text::texts;
use crate::tui::events::{MouseButton, MouseEvent, MouseEventKind};
use crate::tui::ui::layout_helpers::{Rect, inside, inside_test_ok, is_inside};

verus! {

/// Whether (`col`, `row`) lies in `r`.
fn holds(r: Rect, col: u16, row: u16) -> (b: bool)
    requires
        r.wf(),
    ensures
        b == r.holds(col, row),
{
    col >= r.x && col < r.x + r.width && row >= r.y && row < r.y + r.height
}

impl AppView {
    /// A left click in a popup at line `idx` of its list: in the menu, runs that entry; in the
    /// settings, flips that setting.
    pub open spec fn popup_pick(self, idx: int) -> (AppView, EffectView) {
        if self.mode is Menu {
            if idx < self.menu.len() {
                let v = AppView { menu_selection: idx as usize, ..self };
                (v.execute_menu_action(), v.menu_action_effect())
            } else {
                (self, EffectView::Nothing)
            }
        } else if self.mode is Settings {
            if idx < 4 {
                (AppView { mode: ModeView::Settings(idx as usize), ..self }.toggle_setting(), EffectView::Nothing)
            } else {
                (self, EffectView::Nothing)
            }
        } else {
            (self, EffectView::Nothing)
        }
    }

    /// A left click while a popup is open: inside it picks the clicked line, outside it closes
    /// the popup.
    pub open spec fn popup_click(self, ev: MouseEvent, popup: Option<Rect>) -> (AppView, EffectView) {
        match popup {
            Some(p) => if p.holds(ev.column, ev.row) {
                if ev.row >= p.y + 1 && ev.row < p.y + p.height - 1 {
                    self.popup_pick(ev.row - p.y - 1)
                } else {
                    (self, EffectView::Nothing)
                }
            } else {
                (AppView { mode: ModeView::Editor, ..self }, EffectView::Nothing)
            },
            None => (self, EffectView::Nothing),
        }
    }

    /// The text position under (`col`, `row`) in the editor pane `area`.
    pub open spec fn text_x(self, area: Rect, col: u16) -> int {
        col - (area.x + 1) + self.scroll_x
    }

    /// The text line under `row` in the editor pane `area`.
    pub open spec fn text_y(self, area: Rect, row: u16) -> int {
        row - (area.y + 1) + self.scroll_y
    }

    /// A left click in the editor: the explorer pane takes the keys and, on an entry, selects and
    /// opens it; the editor pane takes the keys, clears the selection and, inside its border,
    /// moves the cursor there.
    pub open spec fn pane_click(self, ev: MouseEvent, explorer_area: Rect, editor_area: Rect) -> (AppView, EffectView) {
        let (col, row) = (ev.column, ev.row);
        if explorer_area.holds(col, row) {
            let v = AppView { focus: AppFocus::Explorer, ..self };
            if row >= explorer_area.y + 1 && row < explorer_area.y + explorer_area.height - 1 {
                let idx = row - (explorer_area.y + 1);
                if idx < self.explorer.items.len() {
                    (
                        AppView { explorer: crate::engine::app::ExplorerView { selected: idx as usize, ..self.explorer }, ..v },
                        EffectView::Open(self.explorer.items[idx]),
                    )
                } else {
                    (v, EffectView::Nothing)
                }
            } else {
                (v, EffectView::Nothing)
            }
        } else if editor_area.holds(col, row) {
            let v = AppView { focus: AppFocus::Editor, selection_start: None, ..self };
            if inside(editor_area, col, row) {
                (v.handle_click(self.text_x(editor_area, col) as u16, self.text_y(editor_area, row) as u16), EffectView::Nothing)
            } else {
                (v, EffectView::Nothing)
            }
        } else {
            (self, EffectView::Nothing)
        }
    }

    /// A left drag in the editor pane: starts a selection at the cursor when there is none, and
    /// moves the cursor to the dragged-to position.
    pub open spec fn drag(self, ev: MouseEvent, editor_area: Rect) -> AppView {
        if self.focus == AppFocus::Editor && inside(editor_area, ev.column, ev.row) {
            let v = if self.selection_start is None {
                AppView { selection_start: Some((self.cursor_x, self.cursor_y)), ..self }
            } else {
                self
            };
            v.handle_click(self.text_x(editor_area, ev.column) as u16, self.text_y(editor_area, ev.row) as u16)
        } else {
            self
        }
    }

    /// A mouse event over the panes and the open popup, and what it leaves to the caller.
    pub open spec fn handle_mouse(
        self,
        ev: MouseEvent,
        explorer_area: Rect,
        editor_area: Rect,
        popup: Option<Rect>,
    ) -> (AppView, EffectView) {
        match ev.kind {
            MouseEventKind::Down(MouseButton::Left) => if !(self.mode is Editor) {
                self.popup_click(ev, popup)
            } else {
                self.pane_click(ev, explorer_area, editor_area)
            },
            MouseEventKind::Drag(MouseButton::Left) => (self.drag(ev, editor_area), EffectView::Nothing),
            MouseEventKind::ScrollDown => (
                if self.focus == AppFocus::Editor {
                    AppView {
                        scroll_y: if self.scroll_y < u16::MAX { (self.scroll_y + 1) as u16 } else { u16::MAX },
                        ..self
                    }
                } else {
                    self
                },
                EffectView::Nothing,
            ),
            MouseEventKind::ScrollUp => (
                if self.focus == AppFocus::Editor {
                    AppView { scroll_y: if self.scroll_y > 0 { (self.scroll_y - 1) as u16 } else { 0 }, ..self }
                } else {
                    self
                },
                EffectView::Nothing,
            ),
            _ => (self, EffectView::Nothing),
        }
    }

    /// What a mouse event needs: areas within `u16` coordinates, a document with a line, menu
    /// entries for a click on the menu, and text positions within `u16`.
    pub open spec fn mouse_ok(self, ev: MouseEvent, explorer_area: Rect, editor_area: Rect, popup: Option<Rect>) -> bool {
        &&& explorer_area.wf()
        &&& editor_area.wf()
        &&& popup matches Some(p) ==> p.wf()
        &&& self.lines.len() >= 1
        &&& self.menu.len() >= 1
        &&& ev.kind == MouseEventKind::Down(MouseButton::Left) && self.mode is Editor && !explorer_area.holds(ev.column, ev.row)
            && editor_area.holds(ev.column, ev.row) && inside(editor_area, ev.column, ev.row) ==> {
            &&& self.text_x(editor_area, ev.column) <= u16::MAX
            &&& self.text_y(editor_area, ev.row) <= u16::MAX
        }
        &&& ev.kind == MouseEventKind::Drag(MouseButton::Left) && self.focus == AppFocus::Editor ==> {
            &&& inside_test_ok(editor_area, ev.column, ev.row)
            &&& inside(editor_area, ev.column, ev.row) ==> {
                &&& self.text_x(editor_area, ev.column) <= u16::MAX
                &&& self.text_y(editor_area, ev.row) <= u16::MAX
            }
        }
    }
}

/// Reacts to a mouse event given where the explorer pane, the editor pane and the open popup
/// (if any) were drawn (see `AppView::handle_mouse`); returns the file-system work it leaves to
/// the caller.
pub fn handle_mouse(
    app: &mut App,
    mouse_event: MouseEvent,
    explorer_area: Rect,
    editor_area: Rect,
    popup_area: Option<Rect>,
) -> (effect: Effect)
    requires
        old(app)@.mouse_ok(mouse_event, explorer_area, editor_area, popup_area),
    ensures
        final(app)@ == old(app)@.handle_mouse(mouse_event, explorer_area, editor_area, popup_area).0,
        effect_view(effect) == old(app)@.handle_mouse(mouse_event, explorer_area, editor_area, popup_area).1,
{
    let col = mouse_event.column;
    let row = mouse_event.row;
    match mouse_event.kind {
        MouseEventKind::Down(MouseButton::Left) => {
            if !matches!(app.mode, AppMode::Editor) {
                if let Some(p_area) = popup_area {
                    if holds(p_area, col, row) {
                        if row >= p_area.y + 1 && row < p_area.y + p_area.height - 1 {
                            let clicked_index = (row - p_area.y - 1) as usize;
                            if let AppMode::Menu = app.mode {
                                if clicked_index < app.menu_items.len() {
                                    app.menu_selection = clicked_index;
                                    return app.execute_menu_action();
                                }
                            } else if let AppMode::Settings(_) = app.mode {
                                if clicked_index < 4 {
                                    app.mode = AppMode::Settings(clicked_index);
                                    app.toggle_setting();
                                }
                            }
                        }
                    } else {
                        app.mode = AppMode::Editor;
                    }
                }
                return Effect::Nothing;
            }
            if holds(explorer_area, col, row) {
                app.focus = AppFocus::Explorer;
                if row >= explorer_area.y + 1 && row < explorer_area.y + explorer_area.height - 1 {
                    let clicked_index = (row - (explorer_area.y + 1)) as usize;
                    if clicked_index < app.explorer.items.len() {
                        assert(texts(app.explorer.items@)[clicked_index as int]
                            == app.explorer.items@[clicked_index as int]@);
                        let path = app.explorer.items[clicked_index].clone();
                        app.explorer.selected = clicked_index;
                        return Effect::Open(path);
                    }
                }
            } else if holds(editor_area, col, row) {
                app.focus = AppFocus::Editor;
                app.selection_start = None;
                if is_inside(editor_area, col, row) {
                    let click_x = col - (editor_area.x + 1) + app.scroll_x;
                    let click_y = row - (editor_area.y + 1) + app.scroll_y;
                    app.handle_click(click_x, click_y);
                }
            }
            Effect::Nothing
        },
        MouseEventKind::Drag(MouseButton::Left) => {
            if let AppFocus::Editor = app.focus {
                if is_inside(editor_area, col, row) {
                    if app.selection_start.is_none() {
                        app.selection_start = Some((app.cursor_x, app.cursor_y));
                    }
                    let drag_x = col - (editor_area.x + 1) + app.scroll_x;
                    let drag_y = row - (editor_area.y + 1) + app.scroll_y;
                    app.handle_click(drag_x, drag_y);
                }
            }
            Effect::Nothing
        },
        MouseEventKind::ScrollDown => {
            if let AppFocus::Editor = app.focus {
                app.scroll_y = app.scroll_y.saturating_add(1);
            }
            Effect::Nothing
        },
        MouseEventKind::ScrollUp => {
            if let AppFocus::Editor = app.focus {
                app.scroll_y = app.scroll_y.saturating_sub(1);
            }
            Effect::Nothing
        },
        _ => Effect::Nothing,
    }
}

} // verus!

use vstd::prelude::*;

use crate::element::{Element, ScreenCmd, ScreenSize};
use crate::event::EventData;
use crate::look::Look;
use crate::state::AppState;
use crate::element::mouse_over;
use crate::paint::{canvas_data_from_click, canvas_look_from_data, set_palette_in_state};
use crate::widgets::{draw_relative, has_modifier, AppWidget};

verus! {

/// Where the canvas sits, relative to the editor's origin.
pub const X: u16 = 31;

/// Its row, relative to the editor's origin.
pub const Y: u16 = 7;

/// The 8 by 8 canvas: painting by click or drag, flood fill with
/// shift held, picking a color off the canvas with control held.
pub fn build() -> (e: Element<AppWidget>)
    ensures
        e.x == 0 && e.y == 0,
        e.look@.len() == 0,
        e.on_click == Some(AppWidget::Canvas8),
        e.on_state == Some(AppWidget::Canvas8),
        e.on_loop is None && e.on_keypress is None && e.on_move is None,
{
    let mut e = Element::new(0, 0, Look::new());
    e.on_click = Some(AppWidget::Canvas8);
    e.on_state = Some(AppWidget::Canvas8);
    e
}

/// The click callback: active only while the editor edits this size; a
/// control-click picks the clicked cell's color as brush and candidate, any
/// other click paints through the canvas rules; either way the canvas is
/// rebuilt from its data and redrawn.
pub fn on_click(
    el: &mut Element<AppWidget>,
    state: &mut AppState,
    event: &EventData,
    screen: &ScreenSize,
) -> (cmd: Option<ScreenCmd>) {
    if state.size == 8 {
        if let (Some(mx), Some(my)) = (event.x, event.y) {
            if mouse_over(el, event) {
                if has_modifier(&event.modifiers, "ctrl") {
                    let row = (if my >= el.y { my - el.y } else { 0 }) as usize;
                    let col = (if mx >= el.x { mx - el.x } else { 0 }) as usize / 2;
                    if row < 8 && col < 8 && state.canvas8_data.len() == 8 * 8 {
                        state.paintbrush = state.canvas8_data[row * 8 + col];
                        state.candidate = state.paintbrush;
                        let picked = state.candidate;
                        set_palette_in_state(state, picked);
                    }
                } else {
                    if state.canvas8_data.len() == 8 * 8 {
                        let brush = state.paintbrush;
                        let fill = has_modifier(&event.modifiers, "shift");
                        canvas_data_from_click(el, 8, &mut state.canvas8_data, brush, mx, my, fill);
                    }
                }
            }
        }
        if state.canvas8_data.len() == 8 * 8 {
            let look = canvas_look_from_data(8, &state.canvas8_data);
            el.look.update(look);
        }
        draw_relative(el, X, Y, state, screen)
    } else {
        None
    }
}

/// The render callback: rebuilds the canvas from its data and redraws it at
/// its place, while the editor edits this size.
pub fn on_state(
    el: &mut Element<AppWidget>,
    state: &AppState,
    screen: &ScreenSize,
) -> (cmd: Option<ScreenCmd>) {
    if state.size == 8 {
        if state.canvas8_data.len() == 8 * 8 {
            let look = canvas_look_from_data(8, &state.canvas8_data);
            el.look.update(look);
        }
        draw_relative(el, X, Y, state, screen)
    } else {
        None
    }
}

} // verus!

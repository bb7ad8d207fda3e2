use vstd::prelude::*;

use crate::element::{Element, ScreenCmd, ScreenSize};
use crate::event::EventData;
use crate::look::Look;
use crate::state::AppState;
use crate::element::mouse_over;
use crate::paint::set_palette_in_state;
use crate::style::{ansi8_to_rgb, background_str, rgb_to_ansi8};
use crate::widgets::{draw_relative, AppWidget};

verus! {

/// Its column, relative to the editor's origin.
pub const X: u16 = 1;

/// Its row, relative to the editor's origin.
pub const Y: u16 = 2;

/// The system-color picker: sixteen swatches in one column, one for each of
/// the base colors, each normalized through the palette's quantization.
pub fn build() -> (e: Element<AppWidget>)
    ensures
        e.x == X && e.y == Y,
        e.on_move == Some(AppWidget::Picker16),
        e.on_click == Some(AppWidget::Picker16),
        e.on_state == Some(AppWidget::Picker16),
        e.on_loop is None && e.on_keypress is None,
        e.look@.len() == 16,
        forall|r: int| 0 <= r < 16 ==> #[trigger] e.look@[r].len() == 1,
{
    let mut rows: Vec<Vec<String>> = Vec::new();
    let mut i: usize = 0;
    while i < 16
        invariant
            i <= 16,
            rows@.len() == i,
            forall|k: int| 0 <= k < i ==> #[trigger] rows@[k]@.len() == 1,
        decreases 16 - i,
    {
        let (r, g, b) = ansi8_to_rgb(i as u8);
        let code = rgb_to_ansi8(r, g, b);
        let mut row: Vec<String> = Vec::new();
        row.push(background_str(code, " "));
        rows.push(row);
        i = i + 1;
    }
    let mut e = Element::new(X, Y, Look::from_rows(rows));
    proof {
        assert(e.look@.len() == 16);
        assert forall|r2: int| 0 <= r2 < 16 implies #[trigger] e.look@[r2].len() == 1 by {
            assert(e.look@[r2] == e.look.cells@[r2].deep_view());
        }
    }
    e.on_move = Some(AppWidget::Picker16);
    e.on_click = Some(AppWidget::Picker16);
    e.on_state = Some(AppWidget::Picker16);
    e
}

/// Reads the normalized color under the cursor, where the cursor row maps
/// to a base color.
fn hovered_code(el: &Element<AppWidget>, event: &EventData) -> (r: Option<u8>) {
    if mouse_over(el, event) {
        if let Some(my) = event.y {
            let row16: u16 = if my >= el.y { my - el.y } else { 0 };
            if row16 <= 255 {
                let (cr, cg, cb) = ansi8_to_rgb(row16 as u8);
                return Some(rgb_to_ansi8(cr, cg, cb));
            }
        }
    }
    None
}

/// The move callback: hovering offers the swatch's color as candidate.
pub fn on_move(
    el: &mut Element<AppWidget>,
    state: &mut AppState,
    event: &EventData,
    screen: &ScreenSize,
) -> (cmd: Option<ScreenCmd>) {
    if let Some(code) = hovered_code(el, event) {
        state.candidate = Some(code);
        state.picker_mode = true;
    }
    None
}

/// The click callback: picks the swatch's color as brush and candidate and
/// writes it into the palette.
pub fn on_click(
    el: &mut Element<AppWidget>,
    state: &mut AppState,
    event: &EventData,
    screen: &ScreenSize,
) -> (cmd: Option<ScreenCmd>) {
    if let Some(code) = hovered_code(el, event) {
        state.paintbrush = Some(code);
        state.candidate = Some(code);
        let picked = state.candidate;
        set_palette_in_state(state, picked);
    }
    None
}

/// The render callback: redraws the picker at its place.
pub fn on_state(
    el: &mut Element<AppWidget>,
    state: &AppState,
    screen: &ScreenSize,
) -> (cmd: Option<ScreenCmd>) {
    draw_relative(el, X, Y, state, screen)
}

} // verus!

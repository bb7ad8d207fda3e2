use vstd::prelude::*;

use crate::element::{Element, ScreenCmd, ScreenSize};
use crate::event::EventData;
use crate::look::Look;
use crate::state::AppState;
use crate::element::mouse_over;
use crate::paint::set_palette_in_state;
use crate::style::background_str;
use crate::widgets::{draw_relative, AppWidget};

verus! {

/// Its column, relative to the editor's origin.
pub const X: u16 = 3;

/// Its row, relative to the editor's origin.
pub const Y: u16 = 2;

/// The color-cube picker: the 216 mixed colors in an eighteen-row grid.
pub fn build() -> (e: Element<AppWidget>)
    ensures
        e.x == X && e.y == Y,
        e.on_move == Some(AppWidget::Picker216),
        e.on_click == Some(AppWidget::Picker216),
        e.on_state == Some(AppWidget::Picker216),
        e.on_loop is None && e.on_keypress is None,
        e.look@.len() == 18,
        forall|r: int| 0 <= r < 18 ==> #[trigger] e.look@[r].len() == 12,
{
    let mut rows: Vec<Vec<String>> = Vec::new();
    let mut r: usize = 0;
    while r < 18
        invariant
            r <= 18,
            rows@.len() == r,
            forall|k: int| 0 <= k < r ==> #[trigger] rows@[k]@.len() == 12,
        decreases 18 - r,
    {
        let mut row: Vec<String> = Vec::new();
        let mut c: usize = 0;
        while c < 12
            invariant
                c <= 12,
                r < 18,
                row@.len() == c,
            decreases 12 - c,
        {
            let wide: usize = r * 12 + c + 16;
            let code: u8 = if wide < 232 {
                wide as u8
            } else {
                (232 - 1) as u8
            };
            row.push(background_str(code, " "));
            c = c + 1;
        }
        rows.push(row);
        r = r + 1;
    }
    let mut e = Element::new(X, Y, Look::from_rows(rows));
    proof {
        assert(e.look@.len() == 18);
        assert forall|r2: int| 0 <= r2 < 18 implies #[trigger] e.look@[r2].len() == 12 by {
            assert(e.look@[r2] == e.look.cells@[r2].deep_view());
        }
    }
    e.on_move = Some(AppWidget::Picker216);
    e.on_click = Some(AppWidget::Picker216);
    e.on_state = Some(AppWidget::Picker216);
    e
}

/// Reads the color code under the cursor, by the picker's position formula.
fn hovered_code(el: &Element<AppWidget>, event: &EventData) -> (r: Option<u8>) {
    if mouse_over(el, event) {
        if let (Some(mx), Some(my)) = (event.x, event.y) {
            let row: u32 = (if my >= el.y { my - el.y } else { 0 }) as u32;
            let col: u32 = (if mx >= el.x { mx - el.x } else { 0 }) as u32;
            let wide: u32 = row * 12 + col + 16;
            if wide <= 255 {
                return Some(wide as u8);
            }
        }
    }
    None
}

/// The move callback: hovering offers the swatch's color as candidate.
pub fn on_move(
    el: &mut Element<AppWidget>,
    state: &mut AppState,
    event: &EventData,
    screen: &ScreenSize,
) -> (cmd: Option<ScreenCmd>) {
    if let Some(code) = hovered_code(el, event) {
        state.candidate = Some(code);
        state.picker_mode = true;
    }
    None
}

/// The click callback: picks the swatch's color as brush and candidate and
/// writes it into the palette.
pub fn on_click(
    el: &mut Element<AppWidget>,
    state: &mut AppState,
    event: &EventData,
    screen: &ScreenSize,
) -> (cmd: Option<ScreenCmd>) {
    if let Some(code) = hovered_code(el, event) {
        state.paintbrush = Some(code);
        state.candidate = Some(code);
        let picked = state.candidate;
        set_palette_in_state(state, picked);
    }
    None
}

/// The render callback: redraws the picker at its place.
pub fn on_state(
    el: &mut Element<AppWidget>,
    state: &AppState,
    screen: &ScreenSize,
) -> (cmd: Option<ScreenCmd>) {
    draw_relative(el, X, Y, state, screen)
}

} // verus!

use vstd::prelude::*;

use crate::element::{Element, ScreenCmd, ScreenSize};
use crate::event::EventData;
use crate::look::Look;
use crate::state::AppState;
use crate::element::mouse_over;
use crate::look::text_grid;
use crate::style::{sgr_styled, style_look, style_param, TextStyle};
use crate::widgets::{draw_relative, AppWidget};

verus! {

/// Its column, relative to the editor's origin.
pub const X: u16 = 67;

/// Its row, relative to the editor's origin.
pub const Y: u16 = 2;

/// The button that starts a fresh eight-by-eight icon.
pub fn build() -> (e: Element<AppWidget>)
    ensures
        e.x == X && e.y == Y,
        e.look@.len() == text_grid("8x8"@).len(),
        forall|i: int| 0 <= i < e.look@.len() ==> #[trigger] e.look@[i].len() == text_grid(
            "8x8"@,
        )[i].len(),
        forall|i: int, j: int| 0 <= i < e.look@.len() && 0 <= j < e.look@[i].len()
            ==> #[trigger] e.look@[i][j] == sgr_styled(
            style_param(TextStyle::Underline),
            text_grid("8x8"@)[i][j],
        ),
        e.on_click == Some(AppWidget::Size8Button),
        e.on_state == Some(AppWidget::Size8Button),
        e.on_loop is None && e.on_keypress is None && e.on_move is None,
{
    let mut e = Element::new(X, Y, style_look(TextStyle::Underline, &Look::from_text("8x8")));
    e.on_click = Some(AppWidget::Size8Button);
    e.on_state = Some(AppWidget::Size8Button);
    e
}

/// The click callback: switches the editor to the small size with a blank
/// canvas, and paints a sixteen-row blank patch over the screen where the
/// button's own offsets place it.
pub fn on_click(
    el: &mut Element<AppWidget>,
    state: &mut AppState,
    event: &EventData,
    screen: &ScreenSize,
) -> (cmd: Option<ScreenCmd>) {
    if mouse_over(el, event) {
        state.size = 8;
        state.canvas8_data = vec![None; 64];
        let mut blank_rows: Vec<Vec<String>> = Vec::new();
        let mut r: usize = 0;
        while r < 16
            invariant
                r <= 16,
            decreases 16 - r,
        {
            let mut row: Vec<String> = Vec::new();
            let mut c: usize = 0;
            while c < 32
                invariant
                    c <= 32,
                decreases 32 - c,
            {
                row.push(" ".to_owned());
                c = c + 1;
            }
            blank_rows.push(row);
            r = r + 1;
        }
        let mut eraser: Element<AppWidget> = Element::new(
            state.app_x.saturating_add(23),
            state.app_y.saturating_add(3),
            Look::from_rows(blank_rows),
        );
        draw_relative(&mut eraser, X, Y, state, screen)
    } else {
        None
    }
}

/// The render callback: redraws the button at its place.
pub fn on_state(
    el: &mut Element<AppWidget>,
    state: &AppState,
    screen: &ScreenSize,
) -> (cmd: Option<ScreenCmd>) {
    draw_relative(el, X, Y, state, screen)
}

} // verus!

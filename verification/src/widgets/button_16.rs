use vstd::prelude::*;

use crate::element::{Element, ScreenCmd, ScreenSize};
use crate::event::EventData;
use crate::look::Look;
use crate::state::AppState;
use crate::element::mouse_over;
use crate::look::text_grid;
use crate::style::{sgr_styled, style_look, style_param, TextStyle};
use crate::widgets::{draw_relative, AppWidget};

verus! {

/// Its column, relative to the editor's origin.
pub const X: u16 = 74;

/// Its row, relative to the editor's origin.
pub const Y: u16 = 2;

/// The button that starts a fresh sixteen-by-sixteen icon.
pub fn build() -> (e: Element<AppWidget>)
    ensures
        e.x == X && e.y == Y,
        e.look@.len() == text_grid("16x16"@).len(),
        forall|i: int| 0 <= i < e.look@.len() ==> #[trigger] e.look@[i].len() == text_grid(
            "16x16"@,
        )[i].len(),
        forall|i: int, j: int| 0 <= i < e.look@.len() && 0 <= j < e.look@[i].len()
            ==> #[trigger] e.look@[i][j] == sgr_styled(
            style_param(TextStyle::Underline),
            text_grid("16x16"@)[i][j],
        ),
        e.on_click == Some(AppWidget::Size16Button),
        e.on_state == Some(AppWidget::Size16Button),
        e.on_loop is None && e.on_keypress is None && e.on_move is None,
{
    let mut e = Element::new(X, Y, style_look(TextStyle::Underline, &Look::from_text("16x16")));
    e.on_click = Some(AppWidget::Size16Button);
    e.on_state = Some(AppWidget::Size16Button);
    e
}

/// The click callback: switches the editor to the large size with a blank
/// canvas.
pub fn on_click(
    el: &mut Element<AppWidget>,
    state: &mut AppState,
    event: &EventData,
    screen: &ScreenSize,
) -> (cmd: Option<ScreenCmd>)
    ensures
        crate::element::spec_mouse_over(*old(el), *event) ==> (final(state).size == 16
            && final(state).canvas16_data@.len() == 256),
        !crate::element::spec_mouse_over(*old(el), *event) ==> *final(state) == *old(state),
        cmd is None,
{
    if mouse_over(el, event) {
        state.size = 16;
        state.canvas16_data = vec![None; 256];
    }
    None
}

/// The render callback: redraws the button at its place.
pub fn on_state(
    el: &mut Element<AppWidget>,
    state: &AppState,
    screen: &ScreenSize,
) -> (cmd: Option<ScreenCmd>) {
    draw_relative(el, X, Y, state, screen)
}

} // verus!

use vstd::prelude::*;

use crate::element::{Element, ScreenCmd, ScreenSize};
use crate::event::EventData;
use crate::look::Look;
use crate::state::AppState;
use crate::look::text_grid;
use crate::widgets::{draw_relative, AppWidget};

verus! {

/// Its column, relative to the editor's origin.
pub const X: u16 = 59;

/// Its row, relative to the editor's origin.
pub const Y: u16 = 19;

/// A fixed caption.
pub fn build() -> (e: Element<AppWidget>)
    ensures
        e.x == X && e.y == Y,
        e.look@ == text_grid("End:"@),
        e.on_state == Some(AppWidget::EndLabel),
        e.on_loop is None && e.on_keypress is None && e.on_move is None && e.on_click is None,
{
    let mut e = Element::new(X, Y, Look::from_text("End:"));
    e.on_state = Some(AppWidget::EndLabel);
    e
}

/// The render callback: redraws the caption at its place.
pub fn on_state(
    el: &mut Element<AppWidget>,
    state: &AppState,
    screen: &ScreenSize,
) -> (cmd: Option<ScreenCmd>) {
    draw_relative(el, X, Y, state, screen)
}

} // verus!

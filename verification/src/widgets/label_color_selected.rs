use vstd::prelude::*;

use crate::element::{Element, ScreenCmd, ScreenSize};
use crate::event::EventData;
use crate::look::Look;
use crate::state::AppState;
use crate::widgets::{color_label_text, draw_relative, transparent_label, AppWidget};

verus! {

/// Its column, relative to the editor's origin.
pub const X: u16 = 62;

/// Its row, relative to the editor's origin.
pub const Y: u16 = 8;

/// The selected color's label: the brush's code and hex string, or the
/// transparent marker.
pub fn build() -> (e: Element<AppWidget>)
    ensures
        e.x == X && e.y == Y,
        e.look@.len() == 0,
        e.on_state == Some(AppWidget::SelectedLabel),
        e.on_loop is None && e.on_keypress is None && e.on_move is None && e.on_click is None,
{
    let mut e = Element::new(X, Y, Look::new());
    e.on_state = Some(AppWidget::SelectedLabel);
    e
}

/// The render callback.
pub fn on_state(
    el: &mut Element<AppWidget>,
    state: &AppState,
    screen: &ScreenSize,
) -> (cmd: Option<ScreenCmd>) {
    let text = match state.paintbrush {
        Some(c) => color_label_text(c),
        None => transparent_label(),
    };
    el.look.update(Look::from_text(text.as_str()));
    draw_relative(el, X, Y, state, screen)
}

} // verus!

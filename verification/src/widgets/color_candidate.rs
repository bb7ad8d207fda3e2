use vstd::prelude::*;

use crate::element::{Element, ScreenCmd, ScreenSize};
use crate::event::EventData;
use crate::look::Look;
use crate::state::AppState;
use crate::widgets::color_selected::{box_cell, box_look};
use crate::widgets::{draw_relative, AppWidget};

verus! {

/// Its column, relative to the editor's origin.
pub const X: u16 = 61;

/// Its row, relative to the editor's origin.
pub const Y: u16 = 11;

/// The candidate color's box: while picking it previews the hovered color,
/// otherwise the brush; a transparent value leaves the box as it was.
pub fn build() -> (e: Element<AppWidget>)
    ensures
        e.x == X && e.y == Y,
        e.look@.len() == 2,
        forall|r: int| 0 <= r < 2 ==> #[trigger] e.look@[r].len() == 15,
        forall|r: int, c: int| 0 <= r < 2 && 0 <= c < 15 ==> #[trigger] e.look@[r][c] == box_cell(
            None,
        ),
        e.on_state == Some(AppWidget::CandidateBox),
        e.on_loop is None && e.on_keypress is None && e.on_move is None && e.on_click is None,
{
    let mut e = Element::new(X, Y, box_look(None));
    e.on_state = Some(AppWidget::CandidateBox);
    e
}

/// The render callback.
pub fn on_state(
    el: &mut Element<AppWidget>,
    state: &AppState,
    screen: &ScreenSize,
) -> (cmd: Option<ScreenCmd>) {
    let source = if state.picker_mode {
        state.candidate
    } else {
        state.paintbrush
    };
    if let Some(cs) = source {
        el.look.update(box_look(Some(cs)));
    }
    draw_relative(el, X, Y, state, screen)
}

} // verus!

use vstd::prelude::*;

use crate::element::{Element, ScreenCmd, ScreenSize};
use crate::event::EventData;
use crate::look::Look;
use crate::state::AppState;
use crate::widgets::{
    color_label_text, draw_relative, spaces_string, transparent_label, AppWidget,
};

verus! {

/// Its column, relative to the editor's origin.
pub const X: u16 = 62;

/// Its row, relative to the editor's origin.
pub const Y: u16 = 13;

/// The candidate color's label: while picking it names the hovered color or
/// the transparent marker, otherwise it is blank.
pub fn build() -> (e: Element<AppWidget>)
    ensures
        e.x == X && e.y == Y,
        e.look@.len() == 1 && e.look@[0] == seq![Seq::<char>::empty()],
        e.on_state == Some(AppWidget::CandidateLabel),
        e.on_loop is None && e.on_keypress is None && e.on_move is None && e.on_click is None,
{
    let mut row: Vec<String> = Vec::new();
    row.push(String::new());
    let mut e = Element::new(X, Y, Look::from_row(row));
    proof {
        assert(e.look@[0] =~= seq![Seq::<char>::empty()]);
    }
    e.on_state = Some(AppWidget::CandidateLabel);
    e
}

/// The render callback.
pub fn on_state(
    el: &mut Element<AppWidget>,
    state: &AppState,
    screen: &ScreenSize,
) -> (cmd: Option<ScreenCmd>) {
    let text = if state.picker_mode {
        match state.candidate {
            Some(c) => color_label_text(c),
            None => transparent_label(),
        }
    } else {
        spaces_string(13)
    };
    el.look.update(Look::from_text(text.as_str()));
    draw_relative(el, X, Y, state, screen)
}

} // verus!

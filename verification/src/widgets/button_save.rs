use vstd::prelude::*;

use crate::element::{Element, ScreenCmd, ScreenSize};
use crate::event::EventData;
use crate::look::Look;
use crate::state::AppState;
use crate::element::mouse_over;
use crate::look::text_grid;
use crate::style::{sgr_styled, style_look, style_param, TextStyle};
use crate::widgets::{draw_relative, AppWidget};

verus! {

/// Its column, relative to the editor's origin.
pub const X: u16 = 75;

/// Its row, relative to the editor's origin.
pub const Y: u16 = 19;

/// The save button: a click raises the save flag; the next tick then raises
/// the exit flag, so the run ends one iteration later and the caller saves
/// the final state.
pub fn build() -> (e: Element<AppWidget>)
    ensures
        e.x == X && e.y == Y,
        e.look@.len() == text_grid("Save"@).len(),
        forall|i: int| 0 <= i < e.look@.len() ==> #[trigger] e.look@[i].len() == text_grid(
            "Save"@,
        )[i].len(),
        forall|i: int, j: int| 0 <= i < e.look@.len() && 0 <= j < e.look@[i].len()
            ==> #[trigger] e.look@[i][j] == sgr_styled(
            style_param(TextStyle::Underline),
            text_grid("Save"@)[i][j],
        ),
        e.on_loop == Some(AppWidget::SaveButton),
        e.on_click == Some(AppWidget::SaveButton),
        e.on_state == Some(AppWidget::SaveButton),
        e.on_keypress is None && e.on_move is None,
{
    let mut e = Element::new(X, Y, style_look(TextStyle::Underline, &Look::from_text("Save")));
    e.on_loop = Some(AppWidget::SaveButton);
    e.on_click = Some(AppWidget::SaveButton);
    e.on_state = Some(AppWidget::SaveButton);
    e
}

/// The tick callback: once the save flag stands, asks the run to exit on
/// the next iteration.
pub fn on_loop(
    el: &mut Element<AppWidget>,
    state: &mut AppState,
    event: &EventData,
    screen: &ScreenSize,
) -> (cmd: Option<ScreenCmd>)
    ensures
        cmd is None,
        old(state).save_flag ==> final(state).exit_flag,
        !old(state).save_flag ==> *final(state) == *old(state),
{
    if state.save_flag {
        state.exit_flag = true;
    }
    None
}

/// The click callback: a click over the button raises the save flag.
pub fn on_click(
    el: &mut Element<AppWidget>,
    state: &mut AppState,
    event: &EventData,
    screen: &ScreenSize,
) -> (cmd: Option<ScreenCmd>)
    ensures
        cmd is None,
        crate::element::spec_mouse_over(*old(el), *event) ==> final(state).save_flag,
        !crate::element::spec_mouse_over(*old(el), *event) ==> *final(state) == *old(state),
{
    if mouse_over(el, event) {
        state.save_flag = true;
    }
    None
}

/// The render callback: redraws the button at its place.
pub fn on_state(
    el: &mut Element<AppWidget>,
    state: &AppState,
    screen: &ScreenSize,
) -> (cmd: Option<ScreenCmd>) {
    draw_relative(el, X, Y, state, screen)
}

} // verus!

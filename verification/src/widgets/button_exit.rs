use vstd::prelude::*;

use crate::element::{Element, ScreenCmd, ScreenSize};
use crate::event::EventData;
use crate::look::Look;
use crate::state::AppState;
use crate::element::mouse_over;
use crate::look::text_grid;
use crate::style::{sgr_styled, style_look, style_param, TextStyle};
use crate::widgets::{draw_relative, has_modifier, str_eq, AppWidget};

verus! {

/// Its column, relative to the editor's origin.
pub const X: u16 = 67;

/// Its row, relative to the editor's origin.
pub const Y: u16 = 19;

/// The exit button: a click on it, or the interrupt key combination
/// arriving as an ordinary keypress, raises the exit flag the editor's exit
/// predicate watches.
pub fn build() -> (e: Element<AppWidget>)
    ensures
        e.x == X && e.y == Y,
        e.look@.len() == text_grid("Exit"@).len(),
        forall|i: int| 0 <= i < e.look@.len() ==> #[trigger] e.look@[i].len() == text_grid(
            "Exit"@,
        )[i].len(),
        forall|i: int, j: int| 0 <= i < e.look@.len() && 0 <= j < e.look@[i].len()
            ==> #[trigger] e.look@[i][j] == sgr_styled(
            style_param(TextStyle::Underline),
            text_grid("Exit"@)[i][j],
        ),
        e.on_keypress == Some(AppWidget::ExitButton),
        e.on_click == Some(AppWidget::ExitButton),
        e.on_state == Some(AppWidget::ExitButton),
        e.on_loop is None && e.on_move is None,
{
    let mut e = Element::new(X, Y, style_look(TextStyle::Underline, &Look::from_text("Exit")));
    e.on_keypress = Some(AppWidget::ExitButton);
    e.on_click = Some(AppWidget::ExitButton);
    e.on_state = Some(AppWidget::ExitButton);
    e
}

/// The keypress callback: control with the letter "c" raises the exit flag.
pub fn on_keypress(
    el: &mut Element<AppWidget>,
    state: &mut AppState,
    event: &EventData,
    screen: &ScreenSize,
) -> (cmd: Option<ScreenCmd>)
    ensures
        cmd is None,
        (event.key matches Some(k) && k@ == "c"@ && (exists|i: int|
            0 <= i < event.modifiers@.len() && #[trigger] event.modifiers@[i]@ == "ctrl"@))
            ==> final(state).exit_flag,
{
    let pressed_c = match &event.key {
        Some(k) => str_eq(k.as_str(), "c"),
        None => false,
    };
    if pressed_c && has_modifier(&event.modifiers, "ctrl") {
        state.exit_flag = true;
    }
    None
}

/// The click callback: a click over the button raises the exit flag.
pub fn on_click(
    el: &mut Element<AppWidget>,
    state: &mut AppState,
    event: &EventData,
    screen: &ScreenSize,
) -> (cmd: Option<ScreenCmd>)
    ensures
        cmd is None,
        crate::element::spec_mouse_over(*old(el), *event) ==> final(state).exit_flag,
        !crate::element::spec_mouse_over(*old(el), *event) ==> *final(state) == *old(state),
{
    if mouse_over(el, event) {
        state.exit_flag = true;
    }
    None
}

/// The render callback: redraws the button at its place.
pub fn on_state(
    el: &mut Element<AppWidget>,
    state: &AppState,
    screen: &ScreenSize,
) -> (cmd: Option<ScreenCmd>) {
    draw_relative(el, X, Y, state, screen)
}

} // verus!

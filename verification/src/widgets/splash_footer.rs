//! The splash screen's footer: a fixed caption, faint and bold, centered on
//! the terminal's last row.

use vstd::prelude::*;

use crate::element::{Element, ScreenCmd, ScreenSize};
use crate::look::Look;
use crate::state::SplashState;
use crate::style::{style_look, TextStyle};
use crate::widgets::SplashWidget;

verus! {

/// The footer element: no grid until the first render draws one.
pub fn build() -> (e: Element<SplashWidget>)
    ensures
        e.x == 0 && e.y == 0,
        e.look@.len() == 0,
        e.on_state == Some(SplashWidget::Footer),
        e.on_loop is None && e.on_keypress is None && e.on_move is None && e.on_click is None,
{
    let mut e = Element::new(0, 0, Look::new());
    e.on_state = Some(SplashWidget::Footer);
    e
}

/// The render callback: centers the caption on the last row and asks for a
/// redraw.
pub fn on_state(
    el: &mut Element<SplashWidget>,
    state: &SplashState,
    screen: &ScreenSize,
) -> (cmd: Option<ScreenCmd>)
    ensures
        cmd is Some,
{
    el.x = screen.cols.saturating_sub(14) / 2;
    el.y = screen.rows.saturating_sub(1);
    let text = Look::from_text("Made with Rust");
    el.look.update(style_look(TextStyle::Bold, &style_look(TextStyle::Faint, &text)));
    Some(el.draw_cmd())
}

} // verus!

use vstd::prelude::*;

use crate::element::{Element, ScreenCmd, ScreenSize};
use crate::event::EventData;
use crate::look::Look;
use crate::state::AppState;
use crate::style::{style_str, TextStyle};
use crate::text::{chars_to_string, str_chars, u8_to_string};
use crate::widgets::AppWidget;

verus! {

/// The title bar: one inverse-styled line across the terminal's top row,
/// naming the file being edited and the icon's size.
pub fn build() -> (e: Element<AppWidget>)
    ensures
        e.x == 0 && e.y == 0,
        e.look@.len() == 0,
        e.on_state == Some(AppWidget::TitleBar),
        e.on_loop is None && e.on_keypress is None && e.on_move is None && e.on_click is None,
{
    let mut e = Element::new(0, 0, Look::new());
    e.on_state = Some(AppWidget::TitleBar);
    e
}

/// The render callback: writes the title into a line of the terminal's
/// width, truncated when the terminal is narrower than the title.
pub fn on_state(
    el: &mut Element<AppWidget>,
    state: &AppState,
    screen: &ScreenSize,
) -> (cmd: Option<ScreenCmd>)
    ensures
        cmd is Some,
{
    let cols = screen.cols as usize;
    let mut text = "Rusticon: ".to_owned();
    text.append(state.file_path.as_str());
    text.append(" ");
    let d = u8_to_string(state.size);
    text.append(d.as_str());
    text.append("x");
    text.append(d.as_str());
    let tv = str_chars(text.as_str());
    let mut line: Vec<char> = Vec::new();
    let take = if tv.len() < cols {
        tv.len()
    } else {
        cols
    };
    let mut i: usize = 0;
    while i < take
        invariant
            i <= take <= tv@.len(),
        decreases take - i,
    {
        line.push(tv[i]);
        i = i + 1;
    }
    let mut j: usize = take;
    while j < cols
        invariant
            j <= cols,
        decreases cols - j,
    {
        line.push(' ');
        j = j + 1;
    }
    let styled = style_str(TextStyle::Inverse, chars_to_string(&line).as_str());
    let mut row: Vec<String> = Vec::new();
    row.push(styled);
    el.look.update(Look::from_row(row));
    Some(el.draw_cmd())
}

} // verus!

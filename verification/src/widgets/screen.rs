use vstd::prelude::*;

use crate::element::{Element, ScreenCmd, ScreenSize};
use crate::event::EventData;
use crate::look::Look;
use crate::state::AppState;
use crate::widgets::{draw_relative, AppWidget, APP_HEIGHT, APP_WIDTH};

verus! {

/// The screen element: invisible; it tracks the editor's centered origin,
/// clears the area when the terminal was resized, and leaves picker mode
/// when the cursor moves anywhere.
pub fn build() -> (e: Element<AppWidget>)
    ensures
        e.x == 0 && e.y == 0,
        e.look@.len() == 0,
        e.on_loop == Some(AppWidget::Screen),
        e.on_move == Some(AppWidget::Screen),
        e.on_keypress is None && e.on_click is None && e.on_state is None,
{
    let mut e = Element::new(0, 0, Look::new());
    e.on_loop = Some(AppWidget::Screen);
    e.on_move = Some(AppWidget::Screen);
    e
}

/// The tick callback: recomputes the centered origin; when it moved, the
/// area below the title is cleared and the origin recorded.
pub fn on_loop(
    el: &mut Element<AppWidget>,
    state: &mut AppState,
    event: &EventData,
    screen: &ScreenSize,
) -> (cmd: Option<ScreenCmd>)
    ensures
        *final(el) == *old(el),
        final(state).app_x == screen.cols.saturating_sub(APP_WIDTH) / 2,
        final(state).app_y == screen.rows.saturating_sub(APP_HEIGHT) / 2,
        final(state).candidate == old(state).candidate,
        final(state).paintbrush == old(state).paintbrush,
        final(state).palette_index == old(state).palette_index,
        final(state).palette_colors == old(state).palette_colors,
        final(state).picker_mode == old(state).picker_mode,
        final(state).canvas16_data == old(state).canvas16_data,
        final(state).canvas8_data == old(state).canvas8_data,
        final(state).size == old(state).size,
        final(state).save_flag == old(state).save_flag,
        final(state).exit_flag == old(state).exit_flag,
        final(state).file_path == old(state).file_path,
        cmd is Some <==> !(old(state).app_x == screen.cols.saturating_sub(APP_WIDTH) / 2
            && old(state).app_y == screen.rows.saturating_sub(APP_HEIGHT) / 2),
        cmd matches Some(c) ==> (c matches ScreenCmd::ClearFrom { x, y } && x == 0 && y == 1),
{
    let x = screen.cols.saturating_sub(APP_WIDTH) / 2;
    let y = screen.rows.saturating_sub(APP_HEIGHT) / 2;
    if x != state.app_x || y != state.app_y {
        state.app_x = x;
        state.app_y = y;
        Some(ScreenCmd::ClearFrom { x: 0, y: 1 })
    } else {
        None
    }
}

/// The move callback: any cursor motion leaves picker mode; a picker's own
/// move callback, later in the collection, re-enters it while the cursor is
/// over that picker.
pub fn on_move(
    el: &mut Element<AppWidget>,
    state: &mut AppState,
    event: &EventData,
    screen: &ScreenSize,
) -> (cmd: Option<ScreenCmd>)
    ensures
        *final(el) == *old(el),
        final(state).picker_mode == false,
        final(state).app_x == old(state).app_x,
        final(state).app_y == old(state).app_y,
        final(state).candidate == old(state).candidate,
        final(state).paintbrush == old(state).paintbrush,
        final(state).palette_index == old(state).palette_index,
        final(state).palette_colors == old(state).palette_colors,
        final(state).canvas16_data == old(state).canvas16_data,
        final(state).canvas8_data == old(state).canvas8_data,
        final(state).size == old(state).size,
        final(state).save_flag == old(state).save_flag,
        final(state).exit_flag == old(state).exit_flag,
        final(state).file_path == old(state).file_path,
        cmd is None,
{
    state.picker_mode = false;
    None
}

} // verus!

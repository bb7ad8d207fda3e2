use vstd::prelude::*;

use crate::element::{Element, ScreenCmd, ScreenSize};
use crate::event::EventData;
use crate::look::Look;
use crate::state::AppState;
use crate::element::mouse_over;
use crate::paint::set_palette_in_state;
use crate::widgets::{draw_relative, AppWidget};

verus! {

/// Its column, relative to the editor's origin.
pub const X: u16 = 16;

/// Its row, relative to the editor's origin.
pub const Y: u16 = 18;

/// The transparency picker: a two-by-two patch of colons standing for no
/// color at all.
pub fn build() -> (e: Element<AppWidget>)
    ensures
        e.x == X && e.y == Y,
        e.on_move == Some(AppWidget::PickerEmpty),
        e.on_click == Some(AppWidget::PickerEmpty),
        e.on_state == Some(AppWidget::PickerEmpty),
        e.on_loop is None && e.on_keypress is None,
        e.look@.len() == 2,
        forall|r: int| 0 <= r < 2 ==> #[trigger] e.look@[r].len() == 2,
        forall|r: int, c: int| 0 <= r < 2 && 0 <= c < 2 ==> #[trigger] e.look@[r][c] == seq![':'],
{
    let mut rows: Vec<Vec<String>> = Vec::new();
    let mut r: usize = 0;
    while r < 2
        invariant
            r <= 2,
            rows@.len() == r,
            forall|k: int| 0 <= k < r ==> #[trigger] rows@[k]@.len() == 2,
            forall|k: int, c: int| 0 <= k < r && 0 <= c < 2 ==> #[trigger] rows@[k]@[c]@
                == seq![':'],
        decreases 2 - r,
    {
        let mut row: Vec<String> = Vec::new();
        let colon = ":".to_owned();
        proof {
            reveal_strlit(":");
            assert(colon@ =~= seq![':']);
        }
        row.push(colon.clone());
        row.push(colon);
        rows.push(row);
        r = r + 1;
    }
    let mut e = Element::new(X, Y, Look::from_rows(rows));
    proof {
        assert(e.look@.len() == 2);
        assert forall|r2: int| 0 <= r2 < 2 implies #[trigger] e.look@[r2].len() == 2 by {
            assert(e.look@[r2] == e.look.cells@[r2].deep_view());
        }
        assert forall|r2: int, c: int| 0 <= r2 < 2 && 0 <= c < 2 implies #[trigger] e.look@[r2][c]
            == seq![':'] by {
            assert(e.look@[r2] == e.look.cells@[r2].deep_view());
            assert(e.look@[r2][c] == e.look.cells@[r2]@[c]@);
        }
    }
    e.on_move = Some(AppWidget::PickerEmpty);
    e.on_click = Some(AppWidget::PickerEmpty);
    e.on_state = Some(AppWidget::PickerEmpty);
    e
}

/// The move callback: hovering offers transparency as candidate.
pub fn on_move(
    el: &mut Element<AppWidget>,
    state: &mut AppState,
    event: &EventData,
    screen: &ScreenSize,
) -> (cmd: Option<ScreenCmd>)
    ensures
        crate::element::spec_mouse_over(*old(el), *event) ==> (final(state).candidate is None
            && final(state).picker_mode),
        !crate::element::spec_mouse_over(*old(el), *event) ==> *final(state) == *old(state),
        cmd is None,
{
    if mouse_over(el, event) {
        state.candidate = None;
        state.picker_mode = true;
    }
    None
}

/// The click callback: picks transparency as brush and candidate and writes
/// it into the palette slot under the cursor, moving the cursor to the
/// ideal slot; a click elsewhere changes nothing.
pub fn on_click(
    el: &mut Element<AppWidget>,
    state: &mut AppState,
    event: &EventData,
    screen: &ScreenSize,
) -> (cmd: Option<ScreenCmd>)
    ensures
        cmd is None,
        *final(el) == *old(el),
        !crate::element::spec_mouse_over(*old(el), *event) ==> *final(state) == *old(state),
        crate::element::spec_mouse_over(*old(el), *event) ==> (final(state).paintbrush is None
            && final(state).candidate is None && final(state).palette_colors@ == (if old(
            state,
        ).palette_index < old(state).palette_colors@.len() {
            old(state).palette_colors@.update(old(state).palette_index as int, None)
        } else {
            old(state).palette_colors@
        }) && final(state).palette_index == crate::paint::ideal_slot(
            old(state).palette_index,
            final(state).palette_colors@,
        ) && final(state).app_x == old(state).app_x && final(state).app_y == old(state).app_y
            && final(state).picker_mode == old(state).picker_mode && final(state).canvas16_data@
            == old(state).canvas16_data@ && final(state).canvas8_data@ == old(
            state,
        ).canvas8_data@ && final(state).size == old(state).size && final(state).save_flag == old(
            state,
        ).save_flag && final(state).exit_flag == old(state).exit_flag && final(state).file_path
            == old(state).file_path),
{
    if mouse_over(el, event) {
        state.paintbrush = None;
        state.candidate = None;
        set_palette_in_state(state, None);
    }
    None
}

/// The render callback: redraws the picker at its place.
pub fn on_state(
    el: &mut Element<AppWidget>,
    state: &AppState,
    screen: &ScreenSize,
) -> (cmd: Option<ScreenCmd>) {
    draw_relative(el, X, Y, state, screen)
}

} // verus!

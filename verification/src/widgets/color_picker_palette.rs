use vstd::prelude::*;

use crate::element::{Element, ScreenCmd, ScreenSize};
use crate::event::EventData;
use crate::look::Look;
use crate::state::AppState;
use crate::element::{copy_cells, mouse_over};
use crate::style::background_str;
use crate::widgets::{draw_relative, AppWidget};

verus! {

/// Its column, relative to the editor's origin.
pub const X: u16 = 23;

/// Its row, relative to the editor's origin.
pub const Y: u16 = 21;

/// The palette strip: eight two-column slots, each padded by a blank
/// column on either side; the active slot is marked with plus signs.
pub fn build() -> (e: Element<AppWidget>)
    ensures
        e.x == X && e.y == Y,
        e.on_move == Some(AppWidget::PickerPalette),
        e.on_click == Some(AppWidget::PickerPalette),
        e.on_state == Some(AppWidget::PickerPalette),
        e.on_loop is None && e.on_keypress is None,
        e.look@.len() == 1,
        e.look@[0].len() == 32,
        forall|j: int| 0 <= j < 32 ==> #[trigger] e.look@[0][j] == (if j % 4 == 1 || j % 4 == 2 {
            seq![':']
        } else {
            seq![' ']
        }),
{
    let mut row: Vec<String> = Vec::new();
    let mut i: usize = 0;
    while i < 32
        invariant
            i <= 32,
            row@.len() == i,
            forall|j: int| 0 <= j < i ==> #[trigger] row@[j]@ == (if j % 4 == 1 || j % 4 == 2 {
                seq![':']
            } else {
                seq![' ']
            }),
        decreases 32 - i,
    {
        if i % 4 == 1 || i % 4 == 2 {
            let colon = ":".to_owned();
            proof {
                reveal_strlit(":");
                assert(colon@ =~= seq![':']);
            }
            row.push(colon);
        } else {
            let sp = " ".to_owned();
            proof {
                reveal_strlit(" ");
                assert(sp@ =~= seq![' ']);
            }
            row.push(sp);
        }
        i = i + 1;
    }
    let ghost rowview = row.deep_view();
    let ghost rowsnap = row@;
    let mut e = Element::new(X, Y, Look::from_row(row));
    proof {
        assert forall|j: int| 0 <= j < 32 implies #[trigger] e.look@[0][j] == (if j % 4 == 1 || j
            % 4 == 2 {
            seq![':']
        } else {
            seq![' ']
        }) by {
            assert(e.look@[0] == rowview);
            assert(rowview[j] == rowsnap[j]@);
        }
    }
    e.on_move = Some(AppWidget::PickerPalette);
    e.on_click = Some(AppWidget::PickerPalette);
    e.on_state = Some(AppWidget::PickerPalette);
    e
}

/// The palette slot under the cursor: the slot whose colored columns the
/// cursor is on, or the active slot when it is on padding.
fn hovered_slot(el: &Element<AppWidget>, state: &AppState, event: &EventData) -> (r: Option<
    usize,
>)
    ensures
        r matches Some(s) ==> s < state.palette_colors@.len(),
{
    if mouse_over(el, event) {
        if let Some(mx) = event.x {
            let col_rel = (if mx >= el.x { mx - el.x } else { 0 }) as usize;
            let selected = if col_rel % 4 == 1 || col_rel % 4 == 2 {
                col_rel / 4
            } else {
                state.palette_index
            };
            if selected < state.palette_colors.len() {
                return Some(selected);
            }
        }
    }
    None
}

/// The move callback: hovering a slot offers its color as candidate.
pub fn on_move(
    el: &mut Element<AppWidget>,
    state: &mut AppState,
    event: &EventData,
    screen: &ScreenSize,
) -> (cmd: Option<ScreenCmd>) {
    let slot = hovered_slot(el, state, event);
    if let Some(s) = slot {
        state.candidate = state.palette_colors[s];
        state.picker_mode = true;
    }
    None
}

/// The click callback: picks the slot's color as brush and makes the slot
/// active.
pub fn on_click(
    el: &mut Element<AppWidget>,
    state: &mut AppState,
    event: &EventData,
    screen: &ScreenSize,
) -> (cmd: Option<ScreenCmd>) {
    let slot = hovered_slot(el, state, event);
    if let Some(s) = slot {
        state.paintbrush = state.palette_colors[s];
        state.palette_index = s;
    }
    None
}

/// The render callback: recolors the strip from the palette, marks the
/// active slot, and redraws it at its place.
pub fn on_state(
    el: &mut Element<AppWidget>,
    state: &AppState,
    screen: &ScreenSize,
) -> (cmd: Option<ScreenCmd>) {
    let pl = state.palette_index;
    let old_cells = copy_cells(el.look.cells());
    let mut new_cells: Vec<Vec<String>> = Vec::new();
    let mut r: usize = 0;
    let nrows = old_cells.len();
    while r < nrows
        invariant
            r <= nrows == old_cells@.len(),
        decreases nrows - r,
    {
        let width = old_cells[r].len();
        let mut row: Vec<String> = Vec::new();
        let mut c: usize = 0;
        while c < width
            invariant
                c <= width,
            decreases width - c,
        {
            if c % 4 == 1 || c % 4 == 2 {
                let active = c / 4 == pl;
                let n = state.palette_colors.len();
                let coloring = if n > 0 {
                    let idx = if c / 4 < n {
                        c / 4
                    } else {
                        n - 1
                    };
                    state.palette_colors[idx]
                } else {
                    None
                };
                let cell = match coloring {
                    Some(code) => background_str(code, if active { "+" } else { " " }),
                    None => if active {
                        "+".to_owned()
                    } else {
                        ":".to_owned()
                    },
                };
                row.push(cell);
            } else {
                row.push(" ".to_owned());
            }
            c = c + 1;
        }
        new_cells.push(row);
        r = r + 1;
    }
    el.look.update(Look::from_rows(new_cells));
    draw_relative(el, X, Y, state, screen)
}

} // verus!

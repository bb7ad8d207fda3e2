use vstd::prelude::*;

use crate::element::{Element, ScreenCmd, ScreenSize};
use crate::event::EventData;
use crate::look::Look;
use crate::state::AppState;
use crate::style::{background_str, bg_styled};
use crate::widgets::{draw_relative, AppWidget};

verus! {

/// Its column, relative to the editor's origin.
pub const X: u16 = 61;

/// Its row, relative to the editor's origin.
pub const Y: u16 = 9;

/// What every cell of a color box shows: the color's background, or a
/// plain space for a transparent color.
pub open spec fn box_cell(color: Option<u8>) -> Seq<char> {
    match color {
        Some(code) => bg_styled(code, seq![' ']),
        None => seq![' '],
    }
}

/// A two-row box of cells, each showing a color's background or a plain
/// space.
pub fn box_look(color: Option<u8>) -> (l: Look)
    ensures
        l@.len() == 2,
        forall|r: int| 0 <= r < 2 ==> #[trigger] l@[r].len() == 15,
        forall|r: int, c: int| 0 <= r < 2 && 0 <= c < 15 ==> #[trigger] l@[r][c] == box_cell(
            color,
        ),
{
    let mut rows: Vec<Vec<String>> = Vec::new();
    let mut r: usize = 0;
    while r < 2
        invariant
            r <= 2,
            rows@.len() == r,
            forall|k: int| 0 <= k < r ==> #[trigger] rows@[k]@.len() == 15,
            forall|k: int, c: int| 0 <= k < r && 0 <= c < 15 ==> #[trigger] rows@[k]@[c]@
                == box_cell(color),
        decreases 2 - r,
    {
        let mut row: Vec<String> = Vec::new();
        let mut c: usize = 0;
        while c < 15
            invariant
                c <= 15,
                row@.len() == c,
                forall|j: int| 0 <= j < c ==> #[trigger] row@[j]@ == box_cell(color),
            decreases 15 - c,
    {
            let cell = match color {
                Some(code) => background_str(code, " "),
                None => {
                    let sp = " ".to_owned();
                    proof {
                        reveal_strlit(" ");
                        assert(sp@ =~= seq![' ']);
                    }
                    sp
                },
            };
            proof {
                reveal_strlit(" ");
                assert(" "@ =~= seq![' ']);
            }
            row.push(cell);
            c = c + 1;
        }
        rows.push(row);
        r = r + 1;
    }
    let l = Look { cells: rows };
    proof {
        assert forall|r2: int| 0 <= r2 < 2 implies #[trigger] l@[r2].len() == 15 by {
            assert(l@[r2] == l.cells@[r2].deep_view());
        }
        assert forall|r2: int, c: int| 0 <= r2 < 2 && 0 <= c < 15 implies #[trigger] l@[r2][c]
            == box_cell(color) by {
            assert(l@[r2] == l.cells@[r2].deep_view());
            assert(l@[r2][c] == l.cells@[r2]@[c]@);
        }
    }
    l
}

/// The selected color's box: a solid patch of the brush's color, or blank
/// for a transparent brush.
pub fn build() -> (e: Element<AppWidget>)
    ensures
        e.x == X && e.y == Y,
        e.look@.len() == 2,
        forall|r: int| 0 <= r < 2 ==> #[trigger] e.look@[r].len() == 15,
        forall|r: int, c: int| 0 <= r < 2 && 0 <= c < 15 ==> #[trigger] e.look@[r][c] == box_cell(
            None,
        ),
        e.on_state == Some(AppWidget::SelectedBox),
        e.on_loop is None && e.on_keypress is None && e.on_move is None && e.on_click is None,
{
    let mut e = Element::new(X, Y, box_look(None));
    e.on_state = Some(AppWidget::SelectedBox);
    e
}

/// The render callback.
pub fn on_state(
    el: &mut Element<AppWidget>,
    state: &AppState,
    screen: &ScreenSize,
) -> (cmd: Option<ScreenCmd>) {
    el.look.update(box_look(state.paintbrush));
    draw_relative(el, X, Y, state, screen)
}

} // verus!

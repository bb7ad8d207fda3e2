use vstd::prelude::*;

use crate::element::{Element, ScreenCmd, ScreenSize};
use crate::event::EventData;
use crate::look::Look;
use crate::state::AppState;
use crate::text::str_chars;
use crate::widgets::{AppWidget, APP_HEIGHT, APP_WIDTH};

verus! {

/// The size modal: while the terminal is too small for the layout it fills
/// the screen with a centered request to enlarge the window; once the
/// terminal is large enough it draws nothing.
pub fn build() -> (e: Element<AppWidget>)
    ensures
        e.x == 0 && e.y == 0,
        e.look@.len() == 1 && e.look@[0] == seq![Seq::<char>::empty()],
        e.on_state == Some(AppWidget::SizeModal),
        e.on_loop is None && e.on_keypress is None && e.on_move is None && e.on_click is None,
{
    let mut row: Vec<String> = Vec::new();
    row.push(String::new());
    let mut e = Element::new(0, 0, Look::from_row(row));
    proof {
        assert(e.look@[0] =~= seq![Seq::<char>::empty()]);
    }
    e.on_state = Some(AppWidget::SizeModal);
    e
}

/// What one cell of the too-small screen shows: the centered request on the
/// middle row, a space everywhere else.
pub open spec fn modal_cell(cols: int, rows: int, r: int, c: int) -> Seq<char> {
    let msg = "Enlarge Terminal Window"@;
    let point = if cols / 2 >= 12 {
        cols / 2 - 12
    } else {
        0
    };
    if r == rows / 2 && point <= c < point + msg.len() {
        seq![msg[c - point]]
    } else {
        seq![' ']
    }
}

/// The render callback: while the terminal is smaller than the layout, the
/// grid fills the screen with the centered request; once it is large
/// enough, the grid is empty. Either way the element is redrawn in place.
pub fn on_state(
    el: &mut Element<AppWidget>,
    state: &AppState,
    screen: &ScreenSize,
) -> (cmd: Option<ScreenCmd>)
    ensures
        final(el).x == old(el).x && final(el).y == old(el).y,
        final(el).on_loop == old(el).on_loop,
        final(el).on_keypress == old(el).on_keypress,
        final(el).on_move == old(el).on_move,
        final(el).on_click == old(el).on_click,
        final(el).on_state == old(el).on_state,
        (screen.cols < APP_WIDTH || screen.rows < APP_HEIGHT) ==> (final(el).look@.len()
            == screen.rows && (forall|r: int| 0 <= r < screen.rows
            ==> #[trigger] final(el).look@[r].len() == screen.cols) && (forall|r: int, c: int| 0
            <= r < screen.rows && 0 <= c < screen.cols ==> #[trigger] final(el).look@[r][c]
            == modal_cell(screen.cols as int, screen.rows as int, r, c))),
        !(screen.cols < APP_WIDTH || screen.rows < APP_HEIGHT) ==> final(el).look@.len() == 0,
        cmd matches Some(c) ==> (c matches ScreenCmd::Put { x, y, rows } && x == final(el).x && y
            == final(el).y && rows.deep_view() == final(el).look@),
        cmd is Some,
{
    if screen.cols < APP_WIDTH || screen.rows < APP_HEIGHT {
        let rows_n = screen.rows as usize;
        let cols_n = screen.cols as usize;
        let msg = str_chars("Enlarge Terminal Window");
        let mut grid: Vec<Vec<String>> = Vec::new();
        let mut r: usize = 0;
        while r < rows_n
            invariant
                r <= rows_n == screen.rows,
                cols_n == screen.cols,
                msg@ == "Enlarge Terminal Window"@,
                grid@.len() == r,
                forall|k: int| 0 <= k < r ==> #[trigger] grid@[k]@.len() == cols_n,
                forall|k: int, c: int| 0 <= k < r && 0 <= c < cols_n ==> #[trigger] grid@[k]@[c]@
                    == modal_cell(screen.cols as int, screen.rows as int, k, c),
            decreases rows_n - r,
        {
            let mut row: Vec<String> = Vec::new();
            let mut c: usize = 0;
            while c < cols_n
                invariant
                    c <= cols_n,
                    row@.len() == c,
                    forall|j: int| 0 <= j < c ==> #[trigger] row@[j]@ == seq![' '],
                decreases cols_n - c,
            {
                let cell = " ".to_owned();
                proof {
                    reveal_strlit(" ");
                    assert(cell@ =~= seq![' ']);
                }
                row.push(cell);
                c = c + 1;
            }
            if r == rows_n / 2 {
                let point = (cols_n / 2).saturating_sub(12);
                let mut i: usize = 0;
                while i < msg.len()
                    invariant
                        i <= msg@.len(),
                        msg@ == "Enlarge Terminal Window"@,
                        row@.len() == cols_n,
                        point == (if cols_n / 2 >= 12 {
                            cols_n / 2 - 12
                        } else {
                            0
                        }),
                        forall|j2: int| 0 <= j2 < cols_n ==> #[trigger] row@[j2]@ == (if point
                            <= j2 < point + i {
                            seq![msg@[j2 - point]]
                        } else {
                            seq![' ']
                        }),
                    decreases msg@.len() - i,
                {
                    if point <= usize::MAX - i && point + i < row.len() {
                        let mut one: Vec<char> = Vec::new();
                        one.push(msg[i]);
                        proof {
                            assert(one@ =~= seq![msg@[i as int]]);
                        }
                        row[point + i] = crate::text::chars_to_string(&one);
                    }
                    i = i + 1;
                }
            }
            proof {
                assert forall|c2: int| 0 <= c2 < cols_n implies #[trigger] row@[c2]@
                    == modal_cell(screen.cols as int, screen.rows as int, r as int, c2) by {
                }
            }
            grid.push(row);
            r = r + 1;
        }
        let ghost gridview = grid.deep_view();
        let ghost gridsnap = grid@;
        el.look.update(Look::from_rows(grid));
        proof {
            assert(el.look@ == gridview);
            assert forall|r2: int| 0 <= r2 < screen.rows implies #[trigger] el.look@[r2].len()
                == screen.cols by {
                assert(gridview[r2] == gridsnap[r2].deep_view());
            }
            assert forall|r2: int, c2: int| 0 <= r2 < screen.rows && 0 <= c2 < screen.cols
                implies #[trigger] el.look@[r2][c2] == modal_cell(
                screen.cols as int,
                screen.rows as int,
                r2,
                c2,
            ) by {
                assert(gridview[r2] == gridsnap[r2].deep_view());
                assert(gridsnap[r2].deep_view()[c2] == gridsnap[r2]@[c2]@);
            }
        }
        Some(el.draw_cmd())
    } else {
        el.look.update(Look::from_text(""));
        proof {
            assert(crate::look::text_grid(""@) =~= Seq::<Seq<Seq<char>>>::empty()) by {
                reveal_strlit("");
            }
        }
        Some(el.draw_cmd())
    }
}

} // verus!

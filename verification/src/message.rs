//! The full-screen message: a text centered on a blank screen-sized grid,
//! every cell colored and emboldened. Whoever owns the terminal draws the
//! grid; building it is pure.

use vstd::prelude::*;

use crate::look::{text_grid, Look};
use crate::style::{color_str, fg_styled, sgr_styled, style_param, style_str, TextStyle};

verus! {

/// The unstyled cell at (r, c) of a message centered on a screen: the
/// message's character where one lands — lines centered vertically, each
/// line centered horizontally — and a space everywhere else.
pub open spec fn message_base_cell(msg: Seq<char>, cols: int, rows: int, r: int, c: int) -> Seq<
    char,
> {
    let lines = text_grid(msg);
    let mh = lines.len() as int;
    let start_y = (if rows >= mh {
        rows - mh
    } else {
        0
    }) / 2;
    if start_y <= r < start_y + mh {
        let line = lines[r - start_y];
        let start_x = (if cols >= line.len() {
            cols - line.len()
        } else {
            0
        }) / 2;
        if start_x <= c < start_x + line.len() {
            line[c - start_x]
        } else {
            seq![' ']
        }
    } else {
        seq![' ']
    }
}

/// Builds a screen-sized grid showing a message centered in the given
/// terminal size: every cell is its centered-message cell, colored with the
/// given code and emboldened.
pub fn message_look(msg: &str, color_code: u8, cols: u16, rows: u16) -> (l: Look)
    ensures
        l@.len() == rows,
        forall|r: int| 0 <= r < rows ==> #[trigger] l@[r].len() == cols,
        forall|r: int, c: int| 0 <= r < rows && 0 <= c < cols ==> #[trigger] l@[r][c]
            == sgr_styled(
            style_param(TextStyle::Bold),
            fg_styled(color_code, message_base_cell(msg@, cols as int, rows as int, r, c)),
        ),
{
    let cols_n = cols as usize;
    let rows_n = rows as usize;
    let message = Look::from_text(msg);
    let msg_height = message.height();
    let start_y = rows_n.saturating_sub(msg_height) / 2;
    let ghost lines = text_grid(msg@);
    let mut grid: Vec<Vec<String>> = Vec::new();
    let mut r: usize = 0;
    while r < rows_n
        invariant
            r <= rows_n == rows,
            cols_n == cols,
            message@ == lines,
            lines == text_grid(msg@),
            msg_height == lines.len(),
            start_y == (if rows_n >= msg_height {
                (rows_n - msg_height) as int
            } else {
                0
            }) / 2,
            grid@.len() == r,
            forall|k: int| 0 <= k < r ==> #[trigger] grid@[k]@.len() == cols_n,
            forall|k: int, c: int| 0 <= k < r && 0 <= c < cols_n ==> #[trigger] grid@[k]@[c]@
                == sgr_styled(
                style_param(TextStyle::Bold),
                fg_styled(color_code, message_base_cell(msg@, cols as int, rows as int, k, c)),
            ),
        decreases rows_n - r,
    {
        let mut row: Vec<String> = Vec::new();
        let mut c: usize = 0;
        while c < cols_n
            invariant
                c <= cols_n,
                row@.len() == c,
                forall|j: int| 0 <= j < c ==> #[trigger] row@[j]@ == seq![' '],
            decreases cols_n - c,
        {
            let cell = " ".to_owned();
            proof {
                reveal_strlit(" ");
                assert(cell@ =~= seq![' ']);
            }
            row.push(cell);
            c = c + 1;
        }
        let ghost base = |c2: int| message_base_cell(msg@, cols as int, rows as int, r as int, c2);
        if r >= start_y && r - start_y < msg_height {
            proof {
                assert(message.cells.deep_view().len() == message.cells@.len());
            }
            let line = &message.cells()[r - start_y];
            let ghost specline = lines[r - start_y];
            proof {
                assert(line.deep_view() == specline);
                assert(line@.len() == specline.len());
            }
            let start_x = cols_n.saturating_sub(line.len()) / 2;
            let mut j: usize = 0;
            while j < line.len()
                invariant
                    j <= line@.len() == specline.len(),
                    line.deep_view() == specline,
                    row@.len() == cols_n,
                    start_x == (if cols_n >= specline.len() {
                        (cols_n - specline.len()) as int
                    } else {
                        0
                    }) / 2,
                    forall|j2: int| 0 <= j2 < cols_n ==> #[trigger] row@[j2]@ == (if start_x <= j2
                        < start_x + j {
                        specline[j2 - start_x]
                    } else {
                        seq![' ']
                    }),
                decreases line@.len() - j,
            {
                if start_x <= usize::MAX - j && start_x + j < row.len() {
                    row[start_x + j] = line[j].clone();
                    proof {
                        assert(row@[start_x + j]@ == specline[j as int]);
                    }
                } else {
                    proof {
                        assert(start_x + j >= cols_n);
                    }
                }
                j = j + 1;
            }
            proof {
                assert forall|c2: int| 0 <= c2 < cols_n implies #[trigger] row@[c2]@ == base(c2) by {
                    assert(text_grid(msg@)[r - start_y] == specline);
                }
            }
        } else {
            proof {
                assert forall|c2: int| 0 <= c2 < cols_n implies #[trigger] row@[c2]@ == base(c2) by {
                }
            }
        }
        let mut styled: Vec<String> = Vec::new();
        let width = row.len();
        let mut k: usize = 0;
        while k < width
            invariant
                k <= width == row@.len(),
                styled@.len() == k,
                forall|j: int| 0 <= j < k ==> #[trigger] styled@[j]@ == sgr_styled(
                    style_param(TextStyle::Bold),
                    fg_styled(color_code, row@[j]@),
                ),
            decreases width - k,
        {
            let colored = color_str(color_code, row[k].as_str());
            styled.push(style_str(TextStyle::Bold, colored.as_str()));
            k = k + 1;
        }
        proof {
            assert(forall|c2: int| 0 <= c2 < cols_n ==> #[trigger] row@[c2]@ == base(c2));
        }
        grid.push(styled);
        r = r + 1;
    }
    let l = Look { cells: grid };
    proof {
        assert forall|r2: int| 0 <= r2 < rows implies #[trigger] l@[r2].len() == cols by {
            assert(l@[r2] == l.cells@[r2].deep_view());
        }
        assert forall|r2: int, c2: int| 0 <= r2 < rows && 0 <= c2 < cols
            implies #[trigger] l@[r2][c2] == sgr_styled(
            style_param(TextStyle::Bold),
            fg_styled(color_code, message_base_cell(msg@, cols as int, rows as int, r2, c2)),
        ) by {
            assert(l@[r2] == l.cells@[r2].deep_view());
            assert(l@[r2][c2] == l.cells@[r2]@[c2]@);
        }
    }
    l
}

} // verus!

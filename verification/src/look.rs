//! The visual cell grid: a 2D grid of styled text cells, the unit of
//! rendering. Each cell is one terminal column wide when drawn, however many
//! characters (e.g. escape sequences) its string holds.

use vstd::prelude::*;

use crate::text::{chars_to_string, split_char, split_from, str_chars};

verus! {

/// A line with a trailing carriage return removed.
pub open spec fn strip_cr(l: Seq<char>) -> Seq<char> {
    if l.len() > 0 && l.last() == '\r' {
        l.drop_last()
    } else {
        l
    }
}

/// The lines of a text: the pieces between newlines, a trailing carriage
/// return removed from each, and no empty last line for a text ending in a
/// newline. An empty text has no lines.
pub open spec fn text_lines(s: Seq<char>) -> Seq<Seq<char>> {
    let pieces = split_char(s, '\n');
    let kept = if s.len() == 0 {
        Seq::<Seq<char>>::empty()
    } else if s.last() == '\n' {
        pieces.drop_last()
    } else {
        pieces
    };
    kept.map_values(|l: Seq<char>| strip_cr(l))
}

/// The grid of a text: one row per line, one single-character cell per
/// character.
pub open spec fn text_grid(s: Seq<char>) -> Seq<Seq<Seq<char>>> {
    text_lines(s).map_values(|l: Seq<char>| l.map_values(|c: char| seq![c]))
}

/// Splitting yields at least one piece.
pub proof fn lemma_split_char_nonempty(s: Seq<char>, sep: char) {
    crate::text::lemma_index_of_bounds(s, sep);
    assert(split_char(s, sep).len() >= 1);
}

/// A grid of styled text cells; replaceable wholesale, never patched cell by
/// cell from outside.
pub struct Look {
    pub cells: Vec<Vec<String>>,
}

impl View for Look {
    type V = Seq<Seq<Seq<char>>>;

    open spec fn view(&self) -> Seq<Seq<Seq<char>>> {
        self.cells.deep_view()
    }
}

impl Look {
    /// Number of rows in the grid.
    pub open spec fn spec_height(self) -> nat {
        self@.len()
    }

    /// Width of the first row; hit-testing treats this as the grid's width.
    pub open spec fn spec_width(self) -> nat {
        if self@.len() == 0 {
            0
        } else {
            self@[0].len()
        }
    }

    /// Creates an empty Look.
    pub fn new() -> (l: Look)
        ensures
            l@ =~= Seq::<Seq<Seq<char>>>::empty(),
    {
        Look { cells: Vec::new() }
    }

    /// Borrows the grid.
    pub fn cells(&self) -> (r: &Vec<Vec<String>>)
        ensures
            r.deep_view() == self@,
    {
        &self.cells
    }

    /// Replaces the entire grid with another Look's cells.
    pub fn update(&mut self, new_look: Look)
        ensures
            *final(self) == new_look,
    {
        self.cells = new_look.cells;
    }

    /// Builds a Look from an already assembled grid of cells.
    pub fn from_rows(rows: Vec<Vec<String>>) -> (l: Look)
        ensures
            l@ == rows.deep_view(),
    {
        Look { cells: rows }
    }

    /// Builds a single-row Look from one row of cells.
    pub fn from_row(row: Vec<String>) -> (l: Look)
        ensures
            l@.len() == 1,
            l@[0] == row.deep_view(),
    {
        let mut rows: Vec<Vec<String>> = Vec::new();
        rows.push(row);
        Look { cells: rows }
    }

    /// Builds a Look from text: one row per line, one cell per character.
    pub fn from_text(s: &str) -> (l: Look)
        ensures
            l@ == text_grid(s@),
    {
        let tv = str_chars(s);
        let mut pieces = split_from(&tv, 0, '\n');
        let ghost allpieces = pieces.deep_view();
        proof {
            assert(tv@.skip(0) =~= tv@);
        }
        let n = tv.len();
        if n == 0 {
            proof {
                assert(text_grid(s@) =~= Seq::<Seq<Seq<char>>>::empty());
            }
            return Look { cells: Vec::new() };
        }
        let ghost kept = if s@.last() == '\n' {
            allpieces.drop_last()
        } else {
            allpieces
        };
        if tv[n - 1] == '\n' {
            proof {
                lemma_split_char_nonempty(tv@, '\n');
            }
            let ghost before = pieces@;
            let _ = pieces.pop();
            proof {
                assert forall|k: int| 0 <= k < pieces@.len() implies #[trigger] pieces.deep_view()[k]
                    == allpieces.drop_last()[k] by {
                    assert(pieces@[k] == before[k]);
                    assert(allpieces[k] == before[k].deep_view());
                }
                assert(pieces.deep_view() =~= kept);
            }
        } else {
            proof {
                assert(pieces.deep_view() =~= kept);
            }
        }
        let mut rows: Vec<Vec<String>> = Vec::new();
        let m = pieces.len();
        let mut i: usize = 0;
        while i < m
            invariant
                i <= m == pieces@.len(),
                pieces.deep_view() == kept,
                rows@.len() == i,
                forall|k: int| 0 <= k < i ==> #[trigger] rows@[k].deep_view()
                    == strip_cr(kept[k]).map_values(|c: char| seq![c]),
            decreases m - i,
        {
            let piece = &pieces[i];
            let plen = piece.len();
            let stop: usize = if plen > 0 && piece[plen - 1] == '\r' {
                plen - 1
            } else {
                plen
            };
            proof {
                if plen > 0 && piece@.last() == '\r' {
                    assert(strip_cr(kept[i as int]) =~= piece@.drop_last());
                } else {
                    assert(strip_cr(kept[i as int]) =~= piece@);
                }
            }
            let mut row: Vec<String> = Vec::new();
            let mut j: usize = 0;
            while j < stop
                invariant
                    j <= stop <= piece@.len(),
                    row@.len() == j,
                    forall|k: int| 0 <= k < j ==> #[trigger] row@[k]@ == seq![piece@[k]],
                decreases stop - j,
            {
                let mut one: Vec<char> = Vec::new();
                one.push(piece[j]);
                proof {
                    assert(one@ =~= seq![piece@[j as int]]);
                }
                row.push(chars_to_string(&one));
                j = j + 1;
            }
            proof {
                assert forall|k: int| 0 <= k < row@.len() implies #[trigger] row.deep_view()[k]
                    == strip_cr(kept[i as int]).map_values(|c: char| seq![c])[k] by {
                    assert(row@[k]@ == seq![piece@[k]]);
                    assert(strip_cr(kept[i as int])[k] == piece@[k]);
                }
                assert(row.deep_view()
                    =~= strip_cr(kept[i as int]).map_values(|c: char| seq![c]));
            }
            rows.push(row);
            i = i + 1;
        }
        let l = Look { cells: rows };
        proof {
            assert(text_lines(s@) == kept.map_values(|x: Seq<char>| strip_cr(x)));
            assert forall|k: int| 0 <= k < l@.len() implies #[trigger] l@[k]
                == text_grid(s@)[k] by {
                assert(l@[k] == l.cells@[k].deep_view());
                assert(text_grid(s@)[k] == text_lines(s@)[k].map_values(|c: char| seq![c]));
                assert(text_lines(s@)[k] == strip_cr(kept[k]));
            }
            assert(l@ =~= text_grid(s@));
        }
        l
    }

    /// Exec shorthand for the grid height.
    pub fn height(&self) -> (h: usize)
        ensures
            h == self.spec_height(),
    {
        self.cells.len()
    }

    /// Exec shorthand for the width of the first row (0 for an empty grid).
    pub fn width(&self) -> (w: usize)
        ensures
            w == self.spec_width(),
    {
        if self.cells.len() == 0 {
            0
        } else {
            proof {
                assert(self@[0] == self.cells@[0].deep_view());
            }
            self.cells[0].len()
        }
    }
}

} // verus!

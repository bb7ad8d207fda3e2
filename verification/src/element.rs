//! Positioned elements and their ordered collection, the hit test over an
//! element's grid, and the screen commands that rendering produces instead
//! of writing to the terminal directly.

use vstd::prelude::*;

use crate::event::EventData;
use crate::look::Look;

verus! {

/// The terminal's current size in columns and rows, threaded explicitly to
/// every callback instead of being read ambiently.
#[derive(Clone, Copy, Debug, PartialEq, Eq, Structural)]
pub struct ScreenSize {
    pub cols: u16,
    pub rows: u16,
}

/// One instruction for the terminal, produced by a dispatch and carried out
/// by whoever owns the output device.
#[derive(Debug)]
pub enum ScreenCmd {
    /// Draw a grid of cells with its top-left corner at (x, y), one row per
    /// terminal line.
    Put { x: u16, y: u16, rows: Vec<Vec<String>> },
    /// Move to (x, y) and clear everything below the cursor.
    ClearFrom { x: u16, y: u16 },
    /// Clear the whole screen and move to the top-left corner.
    ClearAll,
}

/// A single interactive or visual unit: a mutable position, a Look, and up
/// to one callback tag per dispatch phase. Registration is plain field
/// assignment; a phase with no tag is skipped by dispatch.
pub struct Element<W> {
    pub x: u16,
    pub y: u16,
    pub look: Look,
    pub on_loop: Option<W>,
    pub on_keypress: Option<W>,
    pub on_move: Option<W>,
    pub on_click: Option<W>,
    pub on_state: Option<W>,
}

impl<W> Element<W> {
    /// Creates an element with no callbacks. Any geometry is accepted; a
    /// position that can never be under the cursor simply never matches a
    /// hit test.
    pub fn new(x: u16, y: u16, look: Look) -> (e: Element<W>)
        ensures
            e.x == x,
            e.y == y,
            e.look == look,
            e.on_loop is None,
            e.on_keypress is None,
            e.on_move is None,
            e.on_click is None,
            e.on_state is None,
    {
        Element { x, y, look, on_loop: None, on_keypress: None, on_move: None, on_click: None, on_state: None }
    }

    /// Copies this element's grid into a draw command at its current
    /// position.
    pub fn draw_cmd(&self) -> (c: ScreenCmd)
        ensures
            c matches ScreenCmd::Put { x, y, rows } && x == self.x && y == self.y
                && rows.deep_view() == self.look@,
    {
        ScreenCmd::Put { x: self.x, y: self.y, rows: copy_cells(&self.look.cells) }
    }
}

/// Copies a grid of cells.
pub fn copy_cells(cells: &Vec<Vec<String>>) -> (r: Vec<Vec<String>>)
    ensures
        r.deep_view() == cells.deep_view(),
{
    let mut r: Vec<Vec<String>> = Vec::new();
    let mut i: usize = 0;
    while i < cells.len()
        invariant
            i <= cells@.len(),
            r@.len() == i,
            forall|k: int| 0 <= k < i ==> #[trigger] r@[k].deep_view() == cells@[k].deep_view(),
        decreases cells@.len() - i,
    {
        let row = &cells[i];
        let mut new_row: Vec<String> = Vec::new();
        let mut j: usize = 0;
        while j < row.len()
            invariant
                j <= row@.len(),
                new_row@.len() == j,
                forall|k: int| 0 <= k < j ==> #[trigger] new_row@[k]@ == row@[k]@,
            decreases row@.len() - j,
        {
            new_row.push(row[j].clone());
            j = j + 1;
        }
        proof {
            assert forall|k: int| 0 <= k < new_row@.len() implies #[trigger] new_row.deep_view()[k]
                == row.deep_view()[k] by {
                assert(new_row@[k]@ == row@[k]@);
            }
            assert(new_row.deep_view() =~= row.deep_view());
            assert(cells@[i as int].deep_view() == row.deep_view());
        }
        r.push(new_row);
        i = i + 1;
    }
    proof {
        assert forall|k: int| 0 <= k < r@.len() implies #[trigger] r.deep_view()[k]
            == cells.deep_view()[k] by {
            assert(r@[k].deep_view() == cells@[k].deep_view());
        }
        assert(r.deep_view() =~= cells.deep_view());
    }
    r
}

/// The ordered, append-only collection of elements; insertion order is both
/// composition order and dispatch order.
pub struct Elements<W> {
    pub items: Vec<Element<W>>,
}

impl<W> Elements<W> {
    /// An empty collection.
    pub fn new() -> (r: Elements<W>)
        ensures
            r.items@.len() == 0,
    {
        Elements { items: Vec::new() }
    }

    /// Appends one element; appending never fails.
    pub fn push(&mut self, el: Element<W>)
        ensures
            final(self).items@ == old(self).items@.push(el),
    {
        self.items.push(el);
    }

    /// The elements, in insertion order.
    pub fn iter(&self) -> (r: &Vec<Element<W>>)
        ensures
            r@ == self.items@,
    {
        &self.items
    }

    /// Moves every element of another collection to the end of this one, in
    /// order.
    pub fn extend(&mut self, other: Elements<W>)
        ensures
            final(self).items@ == old(self).items@ + other.items@,
    {
        let mut o = other;
        self.items.append(&mut o.items);
    }

    /// How many elements the collection holds.
    pub fn len(&self) -> (n: usize)
        ensures
            n == self.items@.len(),
    {
        self.items.len()
    }
}

/// Whether the point (mx, my) lies on the grid of an element at (x, y): on
/// a grid of width w and height h, exactly the points (x+i, y+j) with
/// 0 <= i < w and 0 <= j < h are over it; an empty grid is never hit.
pub open spec fn over_element_at(x: u16, y: u16, look: Look, mx: u16, my: u16) -> bool {
    &&& look.spec_height() > 0
    &&& look.spec_width() > 0
    &&& mx >= x
    &&& (mx as int) < x + look.spec_width()
    &&& my >= y
    &&& (my as int) < y + look.spec_height()
}

/// Whether an event carries coordinates over the element. Assumes each grid
/// cell occupies exactly one terminal column.
pub open spec fn spec_mouse_over<W>(el: Element<W>, event: EventData) -> bool {
    &&& event.x is Some
    &&& event.y is Some
    &&& over_element_at(el.x, el.y, el.look, event.x.unwrap(), event.y.unwrap())
}

/// The hit-test boundary law: for an element at (x, y) whose grid is w wide
/// and h high, every point (x+i, y+j) with 0 <= i < w and 0 <= j < h is
/// over it, and the points one step left of, right of, above and below the
/// grid are not.
pub proof fn lemma_hit_test_boundary(x: u16, y: u16, look: Look, i: int, j: int)
    requires
        look.spec_width() > 0,
        look.spec_height() > 0,
    ensures
        (0 <= i < look.spec_width() && 0 <= j < look.spec_height() && x + i <= u16::MAX && y + j
            <= u16::MAX) ==> over_element_at(x, y, look, (x + i) as u16, (y + j) as u16),
        x > 0 ==> !over_element_at(x, y, look, (x - 1) as u16, y),
        x + look.spec_width() <= u16::MAX ==> !over_element_at(
            x,
            y,
            look,
            (x + look.spec_width()) as u16,
            y,
        ),
        y > 0 ==> !over_element_at(x, y, look, x, (y - 1) as u16),
        y + look.spec_height() <= u16::MAX ==> !over_element_at(
            x,
            y,
            look,
            x,
            (y + look.spec_height()) as u16,
        ),
{
}

/// The hit test: reports whether the event's cursor position is over the
/// element's grid at its current position.
pub fn mouse_over<W>(el: &Element<W>, event: &EventData) -> (r: bool)
    ensures
        r == spec_mouse_over(*el, *event),
{
    let (mx, my) = match (event.x, event.y) {
        (Some(x), Some(y)) => (x, y),
        _ => {
            return false;
        },
    };
    let height = el.look.height();
    let width = el.look.width();
    if height == 0 || width == 0 {
        return false;
    }
    if mx < el.x || my < el.y {
        return false;
    }
    ((mx - el.x) as usize) < width && ((my - el.y) as usize) < height
}

} // verus!

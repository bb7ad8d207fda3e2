//! The painting rules the canvas and the pickers share: which palette slot
//! to move to, how the palette is written, how canvas data becomes a cell
//! grid, the flood fill, and what a click on the canvas paints.

use vstd::prelude::*;

use crate::element::Element;
use crate::look::Look;
use crate::state::AppState;
use crate::style::{bg_styled, background_str};

verus! {

/// The position of the first empty palette slot, or -1 if every slot is
/// full.
pub open spec fn first_empty_slot(palette: Seq<Option<u8>>) -> int
    decreases palette.len(),
{
    if palette.len() == 0 {
        -1
    } else if palette[0] is None {
        0
    } else {
        let r = first_empty_slot(palette.skip(1));
        if r == -1 {
            -1
        } else {
            r + 1
        }
    }
}

/// The slot the palette cursor should move to: the first empty slot; when
/// every slot is full the cursor stays where it is.
pub open spec fn ideal_slot(curr: usize, palette: Seq<Option<u8>>) -> int {
    let f = first_empty_slot(palette);
    if f == -1 {
        curr as int
    } else {
        f
    }
}

/// The recursive first-empty-slot position agrees with a directly scanned
/// one.
proof fn lemma_first_empty_scan(palette: Seq<Option<u8>>, i: int)
    requires
        0 <= i <= palette.len(),
        forall|j: int| 0 <= j < i ==> palette[j] is Some,
        i < palette.len() ==> palette[i] is None,
    ensures
        i < palette.len() ==> first_empty_slot(palette) == i,
        i == palette.len() ==> first_empty_slot(palette) == -1,
    decreases palette.len(),
{
    if palette.len() > 0 {
        if palette[0] is None {
        } else {
            lemma_first_empty_scan(palette.skip(1), i - 1);
        }
    }
}

/// Picks the palette slot to move to.
pub fn ideal_palette_index(curr: usize, palette: &Vec<Option<u8>>) -> (r: usize)
    ensures
        r == ideal_slot(curr, palette@),
{
    let n = palette.len();
    let mut i: usize = 0;
    while i < n
        invariant
            i <= n == palette@.len(),
            forall|j: int| 0 <= j < i ==> palette@[j] is Some,
        decreases n - i,
    {
        if palette[i].is_none() {
            proof {
                lemma_first_empty_scan(palette@, i as int);
            }
            return i;
        }
        i = i + 1;
    }
    proof {
        lemma_first_empty_scan(palette@, n as int);
    }
    curr
}

/// Writes a color into the palette slot under the cursor — a slot past the
/// palette's end is left alone — then moves the cursor to the ideal slot of
/// the written palette. Everything else in the state is untouched.
pub fn set_palette_in_state(state: &mut AppState, value: Option<u8>)
    ensures
        final(state).palette_colors@ == (if old(state).palette_index < old(
            state,
        ).palette_colors@.len() {
            old(state).palette_colors@.update(old(state).palette_index as int, value)
        } else {
            old(state).palette_colors@
        }),
        final(state).palette_index == ideal_slot(
            old(state).palette_index,
            final(state).palette_colors@,
        ),
        final(state).app_x == old(state).app_x,
        final(state).app_y == old(state).app_y,
        final(state).candidate == old(state).candidate,
        final(state).paintbrush == old(state).paintbrush,
        final(state).picker_mode == old(state).picker_mode,
        final(state).canvas16_data@ == old(state).canvas16_data@,
        final(state).canvas8_data@ == old(state).canvas8_data@,
        final(state).size == old(state).size,
        final(state).save_flag == old(state).save_flag,
        final(state).exit_flag == old(state).exit_flag,
        final(state).file_path == old(state).file_path,
{
    let curr = state.palette_index;
    if curr < state.palette_colors.len() {
        state.palette_colors[curr] = value;
    }
    state.palette_index = ideal_palette_index(curr, &state.palette_colors);
}

/// What one canvas cell shows: a colored background for a painted cell, a
/// colon for a transparent one. Each data cell is two columns wide.
pub open spec fn canvas_cell(data: Seq<Option<u8>>, size: nat, row: int, col: int) -> Seq<char> {
    match data[row * size + col / 2] {
        Some(color) => bg_styled(color, seq![' ']),
        None => seq![':'],
    }
}

/// Builds the canvas grid from its data: one row per canvas row, two
/// columns per canvas cell.
pub fn canvas_look_from_data(size: usize, data: &Vec<Option<u8>>) -> (l: Look)
    requires
        size <= 256,
        data@.len() == size * size,
    ensures
        l@.len() == size,
        forall|r: int| 0 <= r < size ==> #[trigger] l@[r].len() == 2 * size,
        forall|r: int, c: int| 0 <= r < size && 0 <= c < 2 * size
            ==> #[trigger] l@[r][c] == canvas_cell(data@, size as nat, r, c),
{
    let total = data.len();
    let mut rows: Vec<Vec<String>> = Vec::new();
    let mut r: usize = 0;
    while r < size
        invariant
            r <= size <= 256,
            data@.len() == size * size,
            size * size <= usize::MAX,
            rows@.len() == r,
            forall|k: int| 0 <= k < r ==> #[trigger] rows@[k]@.len() == 2 * size,
            forall|k: int, c: int| 0 <= k < r && 0 <= c < 2 * size
                ==> #[trigger] rows@[k]@[c]@ == canvas_cell(data@, size as nat, k, c),
        decreases size - r,
    {
        let mut row: Vec<String> = Vec::new();
        let mut c: usize = 0;
        while c < 2 * size
            invariant
                c <= 2 * size,
                r < size <= 256,
                data@.len() == size * size,
                size * size <= usize::MAX,
                row@.len() == c,
                forall|j: int| 0 <= j < c ==> #[trigger] row@[j]@
                    == canvas_cell(data@, size as nat, r as int, j),
            decreases 2 * size - c,
        {
            proof {
                assert(r * size + c / 2 < size * size) by (nonlinear_arith)
                    requires r < size, c < 2 * size, c / 2 < size,
                ;
            }
            let idx = r * size + c / 2;
            let cell = match data[idx] {
                Some(color) => background_str(color, " "),
                None => {
                    let s = ":".to_owned();
                    proof {
                        reveal_strlit(":");
                        assert(s@ =~= seq![':']);
                    }
                    s
                },
            };
            proof {
                reveal_strlit(" ");
                assert(" "@ =~= seq![' ']);
            }
            row.push(cell);
            c = c + 1;
        }
        rows.push(row);
        r = r + 1;
    }
    let l = Look { cells: rows };
    proof {
        assert forall|k: int| 0 <= k < size implies #[trigger] l@[k].len() == 2 * size by {
            assert(l@[k] == l.cells@[k].deep_view());
        }
        assert forall|k: int, c: int| 0 <= k < size && 0 <= c < 2 * size
            implies #[trigger] l@[k][c] == canvas_cell(data@, size as nat, k, c) by {
            assert(l@[k] == l.cells@[k].deep_view());
            assert(l@[k][c] == l.cells@[k]@[c]@);
        }
    }
    l
}

/// How many cells of a canvas hold a given value.
pub open spec fn count_matching(data: Seq<Option<u8>>, v: Option<u8>) -> nat
    decreases data.len(),
{
    if data.len() == 0 {
        0
    } else {
        count_matching(data.drop_last(), v) + (if data.last() == v {
            1nat
        } else {
            0nat
        })
    }
}

/// Overwriting a cell that held the counted value lowers its count by one.
proof fn lemma_count_update(data: Seq<Option<u8>>, v: Option<u8>, i: int, x: Option<u8>)
    requires
        0 <= i < data.len(),
        data[i] == v,
        x != v,
    ensures
        count_matching(data.update(i, x), v) + 1 == count_matching(data, v),
    decreases data.len(),
{
    let updated = data.update(i, x);
    if i == data.len() - 1 {
        assert(updated.drop_last() =~= data.drop_last());
        assert(updated.last() == x);
    } else {
        assert(updated.drop_last() =~= data.drop_last().update(i, x));
        assert(updated.last() == data.last());
        lemma_count_update(data.drop_last(), v, i, x);
    }
}

/// Whether the cell (r, c) is four-connected to the start cell (sr, sc)
/// through cells holding the target value, in at most n steps.
pub open spec fn fill_reaches(
    data: Seq<Option<u8>>,
    size: nat,
    target: Option<u8>,
    sr: int,
    sc: int,
    r: int,
    c: int,
    n: nat,
) -> bool
    decreases n,
{
    &&& 0 <= r < size
    &&& 0 <= c < size
    &&& data[r * size + c] == target
    &&& ((r == sr && c == sc) || (n > 0 && (
        fill_reaches(data, size, target, sr, sc, r - 1, c, (n - 1) as nat)
        || fill_reaches(data, size, target, sr, sc, r + 1, c, (n - 1) as nat)
        || fill_reaches(data, size, target, sr, sc, r, c - 1, (n - 1) as nat)
        || fill_reaches(data, size, target, sr, sc, r, c + 1, (n - 1) as nat)
    )))
}

/// The fill region of a start cell: every cell four-connected to it through
/// cells holding the target value, the start cell itself included when it
/// holds the target.
pub open spec fn in_fill_region(
    data: Seq<Option<u8>>,
    size: nat,
    target: Option<u8>,
    sr: int,
    sc: int,
    r: int,
    c: int,
) -> bool {
    exists|n: nat| fill_reaches(data, size, target, sr, sc, r, c, n)
}

/// A nonempty fill region has an in-bounds, target-valued start cell.
proof fn lemma_reaches_start(
    data: Seq<Option<u8>>,
    size: nat,
    target: Option<u8>,
    sr: int,
    sc: int,
    r: int,
    c: int,
    n: nat,
)
    requires
        fill_reaches(data, size, target, sr, sc, r, c, n),
    ensures
        0 <= sr < size,
        0 <= sc < size,
        data[sr * size + sc] == target,
    decreases n,
{
    if !(r == sr && c == sc) {
        if fill_reaches(data, size, target, sr, sc, r - 1, c, (n - 1) as nat) {
            lemma_reaches_start(data, size, target, sr, sc, r - 1, c, (n - 1) as nat);
        } else if fill_reaches(data, size, target, sr, sc, r + 1, c, (n - 1) as nat) {
            lemma_reaches_start(data, size, target, sr, sc, r + 1, c, (n - 1) as nat);
        } else if fill_reaches(data, size, target, sr, sc, r, c - 1, (n - 1) as nat) {
            lemma_reaches_start(data, size, target, sr, sc, r, c - 1, (n - 1) as nat);
        } else {
            lemma_reaches_start(data, size, target, sr, sc, r, c + 1, (n - 1) as nat);
        }
    }
}

/// The fill region grows across one step of adjacency: an in-bounds,
/// target-valued neighbor of a region cell is in the region.
proof fn lemma_region_step(
    data: Seq<Option<u8>>,
    size: nat,
    target: Option<u8>,
    sr: int,
    sc: int,
    r: int,
    c: int,
    r2: int,
    c2: int,
)
    requires
        in_fill_region(data, size, target, sr, sc, r, c),
        0 <= r2 < size,
        0 <= c2 < size,
        data[r2 * size + c2] == target,
        (r2 == r - 1 && c2 == c) || (r2 == r + 1 && c2 == c) || (r2 == r && c2 == c - 1) || (r2
            == r && c2 == c + 1),
    ensures
        in_fill_region(data, size, target, sr, sc, r2, c2),
{
    let n = choose|n: nat| fill_reaches(data, size, target, sr, sc, r, c, n);
    assert(fill_reaches(data, size, target, sr, sc, r, c, n));
    assert(fill_reaches(data, size, target, sr, sc, r2, c2, n + 1));
}

/// A cell's flat position determines its row and column.
proof fn lemma_flat_index_injective(size: nat, r1: int, c1: int, r2: int, c2: int)
    requires
        0 <= r1 < size,
        0 <= c1 < size,
        0 <= r2 < size,
        0 <= c2 < size,
        r1 * size + c1 == r2 * size + c2,
    ensures
        r1 == r2,
        c1 == c2,
{
    assert(r1 == r2 && c1 == c2) by (nonlinear_arith)
        requires
            0 <= r1 < size,
            0 <= c1 < size,
            0 <= r2 < size,
            0 <= c2 < size,
            r1 * size + c1 == r2 * size + c2,
    ;
}

/// Whether some stack entry names the cell (r, c).
pub open spec fn on_stack(stack: Seq<(usize, usize)>, r: int, c: int) -> bool {
    exists|k: int| 0 <= k < stack.len() && #[trigger] stack[k].0 == r && stack[k].1 == c
}

/// One neighbor obligation of a repainted cell: an in-bounds, target-valued
/// cell is already repainted or still waits on the stack.
pub open spec fn neighbor_ok(
    original: Seq<Option<u8>>,
    data: Seq<Option<u8>>,
    stack: Seq<(usize, usize)>,
    size: nat,
    target: Option<u8>,
    replacement: Option<u8>,
    qr: int,
    qc: int,
) -> bool {
    (0 <= qr < size && 0 <= qc < size && original[qr * size + qc] == target) ==> (data[qr * size
        + qc] == replacement || on_stack(stack, qr, qc))
}

/// The four neighbor obligations of a repainted cell.
pub open spec fn pending_neighbors(
    original: Seq<Option<u8>>,
    data: Seq<Option<u8>>,
    stack: Seq<(usize, usize)>,
    size: nat,
    target: Option<u8>,
    replacement: Option<u8>,
    r: int,
    c: int,
) -> bool {
    &&& neighbor_ok(original, data, stack, size, target, replacement, r - 1, c)
    &&& neighbor_ok(original, data, stack, size, target, replacement, r + 1, c)
    &&& neighbor_ok(original, data, stack, size, target, replacement, r, c - 1)
    &&& neighbor_ok(original, data, stack, size, target, replacement, r, c + 1)
}

/// A neighbor obligation survives a pop when the popped entry does not name
/// the neighbor, or the neighbor no longer needs the stack.
proof fn lemma_neighbor_ok_pop(
    original: Seq<Option<u8>>,
    data: Seq<Option<u8>>,
    prev: Seq<(usize, usize)>,
    size: nat,
    target: Option<u8>,
    replacement: Option<u8>,
    qr: int,
    qc: int,
)
    requires
        prev.len() > 0,
        neighbor_ok(original, data, prev, size, target, replacement, qr, qc),
        (prev[prev.len() - 1].0 != qr || prev[prev.len() - 1].1 != qc) || data[qr * size + qc]
            == replacement || !(0 <= qr < size && 0 <= qc < size && original[qr * size + qc]
            == target),
    ensures
        neighbor_ok(original, data, prev.drop_last(), size, target, replacement, qr, qc),
{
    if 0 <= qr < size && 0 <= qc < size && original[qr * size + qc] == target && data[qr * size
        + qc] != replacement {
        assert(on_stack(prev, qr, qc));
        let k = choose|k: int| 0 <= k < prev.len() && #[trigger] prev[k].0 == qr && prev[k].1
            == qc;
        assert(k < prev.len() - 1);
        assert(prev.drop_last()[k].0 == qr && prev.drop_last()[k].1 == qc);
    }
}

/// A neighbor obligation survives pushing more entries.
proof fn lemma_neighbor_ok_push(
    original: Seq<Option<u8>>,
    data: Seq<Option<u8>>,
    stack: Seq<(usize, usize)>,
    longer: Seq<(usize, usize)>,
    size: nat,
    target: Option<u8>,
    replacement: Option<u8>,
    qr: int,
    qc: int,
)
    requires
        neighbor_ok(original, data, stack, size, target, replacement, qr, qc),
        stack.len() <= longer.len(),
        forall|k: int| 0 <= k < stack.len() ==> longer[k] == stack[k],
    ensures
        neighbor_ok(original, data, longer, size, target, replacement, qr, qc),
{
    if on_stack(stack, qr, qc) {
        let k = choose|k: int| 0 <= k < stack.len() && #[trigger] stack[k].0 == qr && stack[k].1
            == qc;
        assert(longer[k].0 == qr && longer[k].1 == qc);
    }
}

/// One neighbor obligation carries over a pop-and-repaint round: the
/// popped entry is the repainted cell, the rest of the stack survives, and
/// new entries may follow.
proof fn lemma_arm_transfer(
    original: Seq<Option<u8>>,
    before: Seq<Option<u8>>,
    painted: Seq<Option<u8>>,
    prev: Seq<(usize, usize)>,
    mid: Seq<(usize, usize)>,
    after: Seq<(usize, usize)>,
    size: nat,
    target: Option<u8>,
    replacement: Option<u8>,
    qr: int,
    qc: int,
    r: int,
    c: int,
)
    requires
        before.len() == size * size,
        0 <= r < size,
        0 <= c < size,
        painted == before.update(r * size + c, replacement),
        prev.len() > 0,
        prev[prev.len() - 1].0 == r && prev[prev.len() - 1].1 == c,
        mid == prev.drop_last(),
        mid.len() <= after.len(),
        forall|k: int| 0 <= k < mid.len() ==> after[k] == mid[k],
        neighbor_ok(original, before, prev, size, target, replacement, qr, qc),
    ensures
        neighbor_ok(original, painted, after, size, target, replacement, qr, qc),
{
    if 0 <= qr < size && 0 <= qc < size && original[qr * size + qc] == target {
        assert(qr * size + qc < size * size && r * size + c < size * size) by (nonlinear_arith)
            requires 0 <= qr < size, 0 <= qc < size, 0 <= r < size, 0 <= c < size,
        ;
        if qr == r && qc == c {
            assert(painted[qr * size + qc] == replacement);
        } else {
            assert(qr * size + qc != r * size + c) by {
                if qr * size + qc == r * size + c {
                    lemma_flat_index_injective(size, qr, qc, r, c);
                }
            }
            assert(painted[qr * size + qc] == before[qr * size + qc]);
            if before[qr * size + qc] != replacement {
                lemma_neighbor_ok_pop(original, before, prev, size, target, replacement, qr, qc);
                lemma_neighbor_ok_push(
                    original, before, mid, after, size, target, replacement, qr, qc,
                );
            }
        }
    }
}

/// All four neighbor obligations of a previously repainted cell carry over
/// a pop-and-repaint round.
proof fn lemma_pending_transfer(
    original: Seq<Option<u8>>,
    before: Seq<Option<u8>>,
    painted: Seq<Option<u8>>,
    prev: Seq<(usize, usize)>,
    mid: Seq<(usize, usize)>,
    after: Seq<(usize, usize)>,
    size: nat,
    target: Option<u8>,
    replacement: Option<u8>,
    ar: int,
    ac: int,
    r: int,
    c: int,
)
    requires
        before.len() == size * size,
        0 <= r < size,
        0 <= c < size,
        painted == before.update(r * size + c, replacement),
        prev.len() > 0,
        prev[prev.len() - 1].0 == r && prev[prev.len() - 1].1 == c,
        mid == prev.drop_last(),
        mid.len() <= after.len(),
        forall|k: int| 0 <= k < mid.len() ==> after[k] == mid[k],
        pending_neighbors(original, before, prev, size, target, replacement, ar, ac),
    ensures
        pending_neighbors(original, painted, after, size, target, replacement, ar, ac),
{
    lemma_arm_transfer(
        original, before, painted, prev, mid, after, size, target, replacement, ar - 1, ac, r, c,
    );
    lemma_arm_transfer(
        original, before, painted, prev, mid, after, size, target, replacement, ar + 1, ac, r, c,
    );
    lemma_arm_transfer(
        original, before, painted, prev, mid, after, size, target, replacement, ar, ac - 1, r, c,
    );
    lemma_arm_transfer(
        original, before, painted, prev, mid, after, size, target, replacement, ar, ac + 1, r, c,
    );
}

/// Once every repainted cell's neighbor obligations hold with nothing on
/// the stack, the whole fill region is repainted: what reaches the start in
/// n steps holds the replacement.
proof fn lemma_region_all_changed(
    original: Seq<Option<u8>>,
    data: Seq<Option<u8>>,
    size: nat,
    target: Option<u8>,
    replacement: Option<u8>,
    sr: int,
    sc: int,
    r: int,
    c: int,
    n: nat,
)
    requires
        original.len() == size * size,
        data.len() == size * size,
        target != replacement,
        0 <= sr < size,
        0 <= sc < size,
        data[sr * size + sc] == replacement,
        forall|ar: int, ac: int| #![trigger data[ar * size + ac]] (0 <= ar < size && 0 <= ac
            < size && data[ar * size + ac] == replacement && original[ar * size + ac] == target)
            ==> pending_neighbors(original, data, Seq::empty(), size, target, replacement, ar, ac),
        fill_reaches(original, size, target, sr, sc, r, c, n),
    ensures
        data[r * size + c] == replacement,
    decreases n,
{
    if r == sr && c == sc {
    } else {
        assert(n > 0 && (fill_reaches(original, size, target, sr, sc, r - 1, c, (n - 1) as nat)
            || fill_reaches(original, size, target, sr, sc, r + 1, c, (n - 1) as nat)
            || fill_reaches(original, size, target, sr, sc, r, c - 1, (n - 1) as nat)
            || fill_reaches(original, size, target, sr, sc, r, c + 1, (n - 1) as nat)));
        let (qr, qc): (int, int) = if fill_reaches(original, size, target, sr, sc, r - 1, c, (n
            - 1) as nat) {
            (r - 1, c)
        } else if fill_reaches(original, size, target, sr, sc, r + 1, c, (n - 1) as nat) {
            (r + 1, c)
        } else if fill_reaches(original, size, target, sr, sc, r, c - 1, (n - 1) as nat) {
            (r, c - 1)
        } else {
            (r, c + 1)
        };
        assert(fill_reaches(original, size, target, sr, sc, qr, qc, (n - 1) as nat));
        lemma_region_all_changed(original, data, size, target, replacement, sr, sc, qr, qc, (n
            - 1) as nat);
        assert(qr * size + qc < size * size && r * size + c < size * size) by (nonlinear_arith)
            requires 0 <= qr < size, 0 <= qc < size, 0 <= r < size, 0 <= c < size,
        ;
        assert(data[qr * size + qc] == replacement && original[qr * size + qc] == target);
        assert(pending_neighbors(original, data, Seq::empty(), size, target, replacement, qr, qc));
        assert(!on_stack(Seq::empty(), r, c));
    }
}

/// A stack entry survives a push.
proof fn lemma_on_stack_push(stack: Seq<(usize, usize)>, x: (usize, usize), r: int, c: int)
    requires
        on_stack(stack, r, c),
    ensures
        on_stack(stack.push(x), r, c),
{
    let k = choose|k: int| 0 <= k < stack.len() && #[trigger] stack[k].0 == r && stack[k].1 == c;
    assert(stack.push(x)[k].0 == r && stack.push(x)[k].1 == c);
}

/// Pushes the in-bounds neighbors of a cell onto the work stack: previous
/// entries stay in place, each in-bounds neighbor ends up on the stack, and
/// nothing but those neighbors is added.
fn push_neighbors(stack: &mut Vec<(usize, usize)>, r: usize, c: usize, size: usize)
    requires
        r < size,
        c < size,
    ensures
        old(stack)@.len() <= final(stack)@.len() <= old(stack)@.len() + 4,
        forall|k: int| 0 <= k < old(stack)@.len() ==> final(stack)@[k] == old(stack)@[k],
        r > 0 ==> on_stack(final(stack)@, r - 1, c as int),
        r + 1 < size ==> on_stack(final(stack)@, r + 1, c as int),
        c > 0 ==> on_stack(final(stack)@, r as int, c - 1),
        c + 1 < size ==> on_stack(final(stack)@, r as int, c + 1),
        forall|k: int| old(stack)@.len() <= k < final(stack)@.len()
            ==> ((#[trigger] final(stack)@[k].0 == r - 1 && final(stack)@[k].1 == c) || (
            final(stack)@[k].0 == r + 1 && final(stack)@[k].1 == c) || (final(stack)@[k].0 == r
            && final(stack)@[k].1 == c - 1) || (final(stack)@[k].0 == r && final(stack)@[k].1
            == c + 1)),
{
    if r > 0 {
        stack.push((r - 1, c));
        proof {
            assert(stack@[stack@.len() - 1].0 == r - 1 && stack@[stack@.len() - 1].1 == c);
            assert(on_stack(stack@, r - 1, c as int));
        }
    }
    if r + 1 < size {
        let ghost s1 = stack@;
        stack.push((r + 1, c));
        proof {
            assert(stack@[stack@.len() - 1].0 == r + 1 && stack@[stack@.len() - 1].1 == c);
            assert(on_stack(stack@, r + 1, c as int));
            if r > 0 {
                lemma_on_stack_push(s1, (((r + 1) as usize), c), r - 1, c as int);
            }
        }
    }
    if c > 0 {
        let ghost s2 = stack@;
        stack.push((r, c - 1));
        proof {
            assert(stack@[stack@.len() - 1].0 == r && stack@[stack@.len() - 1].1 == c - 1);
            assert(on_stack(stack@, r as int, c - 1));
            if r > 0 {
                lemma_on_stack_push(s2, (r, ((c - 1) as usize)), r - 1, c as int);
            }
            if r + 1 < size {
                lemma_on_stack_push(s2, (r, ((c - 1) as usize)), r + 1, c as int);
            }
        }
    }
    if c + 1 < size {
        let ghost s3 = stack@;
        stack.push((r, c + 1));
        proof {
            assert(stack@[stack@.len() - 1].0 == r && stack@[stack@.len() - 1].1 == c + 1);
            assert(on_stack(stack@, r as int, c + 1));
            if r > 0 {
                lemma_on_stack_push(s3, (r, ((c + 1) as usize)), r - 1, c as int);
            }
            if r + 1 < size {
                lemma_on_stack_push(s3, (r, ((c + 1) as usize)), r + 1, c as int);
            }
            if c > 0 {
                lemma_on_stack_push(s3, (r, ((c + 1) as usize)), r as int, c - 1);
            }
        }
    }
}

/// The four-way flood fill: starting from a cell holding the target value,
/// repaints exactly the cells four-connected to it through cells holding
/// the target; every other cell is untouched. A start off the grid, or one
/// not holding the target, changes nothing.
pub fn flood_fill(
    data: &mut Vec<Option<u8>>,
    size: usize,
    row: usize,
    col: usize,
    target: Option<u8>,
    replacement: Option<u8>,
)
    requires
        old(data)@.len() == size * size,
        target != replacement,
    ensures
        final(data)@.len() == size * size,
        forall|r2: int, c2: int| 0 <= r2 < size && 0 <= c2 < size
            ==> #[trigger] final(data)@[r2 * size + c2] == (if in_fill_region(
                old(data)@,
                size as nat,
                target,
                row as int,
                col as int,
                r2,
                c2,
            ) {
                replacement
            } else {
                old(data)@[r2 * size + c2]
            }),
{
    let ghost original = data@;
    let ghost sr = row as int;
    let ghost sc = col as int;
    let total = data.len();
    if row >= size || col >= size {
        proof {
            assert forall|r2: int, c2: int| !in_fill_region(
                original, size as nat, target, sr, sc, r2, c2,
            ) by {
                if in_fill_region(original, size as nat, target, sr, sc, r2, c2) {
                    let n = choose|n: nat| fill_reaches(original, size as nat, target, sr, sc, r2, c2, n);
                    lemma_reaches_start(original, size as nat, target, sr, sc, r2, c2, n);
                }
            }
        }
        return;
    }
    proof {
        assert(row * size + col < size * size) by (nonlinear_arith)
            requires row < size, col < size,
        ;
    }
    let idx = row * size + col;
    let hit = match data[idx] {
        Some(x) => match target {
            Some(t) => x == t,
            None => false,
        },
        None => target.is_none(),
    };
    if !hit {
        proof {
            assert forall|r2: int, c2: int| !in_fill_region(
                original, size as nat, target, sr, sc, r2, c2,
            ) by {
                if in_fill_region(original, size as nat, target, sr, sc, r2, c2) {
                    let n = choose|n: nat| fill_reaches(original, size as nat, target, sr, sc, r2, c2, n);
                    lemma_reaches_start(original, size as nat, target, sr, sc, r2, c2, n);
                }
            }
        }
        return;
    }
    data[idx] = replacement;
    let mut stack: Vec<(usize, usize)> = Vec::new();
    push_neighbors(&mut stack, row, col, size);
    proof {
        assert(fill_reaches(original, size as nat, target, sr, sc, sr, sc, 0));
        assert(in_fill_region(original, size as nat, target, sr, sc, sr, sc));
        assert forall|ar: int, ac: int| #![trigger data@[ar * size + ac]] (0 <= ar < size && 0
            <= ac < size && data@[ar * size + ac] == replacement && original[ar * size + ac]
            == target) implies in_fill_region(original, size as nat, target, sr, sc, ar, ac)
            && pending_neighbors(original, data@, stack@, size as nat, target, replacement, ar, ac) by {
            assert(ar * size + ac < size * size) by (nonlinear_arith)
                requires 0 <= ar < size, 0 <= ac < size,
            ;
            if ar != sr || ac != sc {
                if ar * size + ac == sr * size + sc {
                    lemma_flat_index_injective(size as nat, ar, ac, sr, sc);
                }
                assert(data@[ar * size + ac] == original[ar * size + ac]);
                assert(false);
            }
            assert(neighbor_ok(original, data@, stack@, size as nat, target, replacement, sr - 1,
                sc)) by {
                if sr > 0 && original[(sr - 1) * size + sc] == target {
                    assert(on_stack(stack@, sr - 1, sc));
                }
            }
            assert(neighbor_ok(original, data@, stack@, size as nat, target, replacement, sr + 1,
                sc)) by {
                if sr + 1 < size && original[(sr + 1) * size + sc] == target {
                    assert(on_stack(stack@, sr + 1, sc));
                }
            }
            assert(neighbor_ok(original, data@, stack@, size as nat, target, replacement, sr,
                sc - 1)) by {
                if sc > 0 && original[sr * size + (sc - 1)] == target {
                    assert(on_stack(stack@, sr, sc - 1));
                }
            }
            assert(neighbor_ok(original, data@, stack@, size as nat, target, replacement, sr,
                sc + 1)) by {
                if sc + 1 < size && original[sr * size + (sc + 1)] == target {
                    assert(on_stack(stack@, sr, sc + 1));
                }
            }
        }
        assert forall|k: int| 0 <= k < stack@.len() implies ((#[trigger] stack@[k].0 < size
            && stack@[k].1 < size && original[stack@[k].0 * size + stack@[k].1] == target)
            ==> in_fill_region(
                original, size as nat, target, sr, sc, stack@[k].0 as int, stack@[k].1 as int,
            )) by {
            if stack@[k].0 < size && stack@[k].1 < size && original[stack@[k].0 * size
                + stack@[k].1] == target {
                lemma_region_step(
                    original, size as nat, target, sr, sc, sr, sc, stack@[k].0 as int,
                    stack@[k].1 as int,
                );
            }
        }
    }
    while stack.len() > 0
        invariant
            data@.len() == size * size,
            size * size <= usize::MAX,
            original.len() == size * size,
            target != replacement,
            sr == row as int && sc == col as int,
            row < size && col < size,
            original[sr * size + sc] == target,
            data@[sr * size + sc] == replacement,
            0 <= sr * size + sc < size * size,
            forall|i: int| 0 <= i < size * size ==> data@[i] == original[i]
                || (original[i] == target && #[trigger] data@[i] == replacement),
            forall|ar: int, ac: int| #![trigger data@[ar * size + ac]] (0 <= ar < size && 0 <= ac
                < size && data@[ar * size + ac] == replacement && original[ar * size + ac]
                == target) ==> in_fill_region(original, size as nat, target, sr, sc, ar, ac),
            forall|ar: int, ac: int| #![trigger data@[ar * size + ac]] (0 <= ar < size && 0 <= ac
                < size && data@[ar * size + ac] == replacement && original[ar * size + ac]
                == target) ==> pending_neighbors(
                original, data@, stack@, size as nat, target, replacement, ar, ac,
            ),
            forall|k: int| 0 <= k < stack@.len() ==> ((#[trigger] stack@[k].0 < size
                && stack@[k].1 < size && original[stack@[k].0 * size + stack@[k].1] == target)
                ==> in_fill_region(
                    original, size as nat, target, sr, sc, stack@[k].0 as int, stack@[k].1 as int,
                )),
        decreases count_matching(data@, target) * 5 + stack@.len(),
    {
        let ghost prev = stack@;
        let ghost before = data@;
        let (r, c) = stack.pop().unwrap();
        proof {
            assert(stack@ =~= prev.drop_last());
            assert(prev[prev.len() - 1] == (r, c));
        }
        if r >= size || c >= size {
            proof {
                assert forall|ar: int, ac: int| #![trigger data@[ar * size + ac]] (0 <= ar < size
                    && 0 <= ac < size && data@[ar * size + ac] == replacement && original[ar
                    * size + ac] == target) implies pending_neighbors(
                    original, data@, stack@, size as nat, target, replacement, ar, ac,
                ) by {
                    assert(pending_neighbors(
                        original, data@, prev, size as nat, target, replacement, ar, ac,
                    ));
                    lemma_neighbor_ok_pop(original, data@, prev, size as nat, target, replacement, ar - 1, ac);
                    lemma_neighbor_ok_pop(original, data@, prev, size as nat, target, replacement, ar + 1, ac);
                    lemma_neighbor_ok_pop(original, data@, prev, size as nat, target, replacement, ar, ac - 1);
                    lemma_neighbor_ok_pop(original, data@, prev, size as nat, target, replacement, ar, ac + 1);
                }
            }
            continue;
        }
        proof {
            assert(r * size + c < size * size) by (nonlinear_arith)
                requires r < size, c < size,
            ;
        }
        let i = r * size + c;
        let cell_hit = match data[i] {
            Some(x) => match target {
                Some(t) => x == t,
                None => false,
            },
            None => target.is_none(),
        };
        if !cell_hit {
            proof {
                // the popped cell needs no stack entry: it is repainted
                // already, or never held the target
                assert(data@[r * size + c] != target);
                if original[r * size + c] == target {
                    assert(data@[r * size + c] == replacement);
                }
                assert forall|ar: int, ac: int| #![trigger data@[ar * size + ac]] (0 <= ar < size
                    && 0 <= ac < size && data@[ar * size + ac] == replacement && original[ar
                    * size + ac] == target) implies pending_neighbors(
                    original, data@, stack@, size as nat, target, replacement, ar, ac,
                ) by {
                    assert(pending_neighbors(
                        original, data@, prev, size as nat, target, replacement, ar, ac,
                    ));
                    lemma_neighbor_ok_pop(original, data@, prev, size as nat, target, replacement, ar - 1, ac);
                    lemma_neighbor_ok_pop(original, data@, prev, size as nat, target, replacement, ar + 1, ac);
                    lemma_neighbor_ok_pop(original, data@, prev, size as nat, target, replacement, ar, ac - 1);
                    lemma_neighbor_ok_pop(original, data@, prev, size as nat, target, replacement, ar, ac + 1);
                }
            }
            continue;
        }
        proof {
            // the popped cell held the target, so it is unchanged and on the
            // stack-soundness invariant it lies in the fill region
            assert(data@[r * size + c] == target);
            assert(original[r * size + c] == target);
            assert(prev[prev.len() - 1].0 == r && prev[prev.len() - 1].1 == c);
            assert(in_fill_region(original, size as nat, target, sr, sc, r as int, c as int));
        }
        data[i] = replacement;
        proof {
            lemma_count_update(before, target, i as int, replacement);
            assert(sr * size + sc != i) by {
                if sr * size + sc == i {
                    lemma_flat_index_injective(size as nat, sr, sc, r as int, c as int);
                }
            }
        }
        let ghost mid_stack = stack@;
        push_neighbors(&mut stack, r, c, size);
        proof {
            let painted = data@;
            assert(mid_stack =~= prev.drop_last());
            assert(forall|k: int| 0 <= k < mid_stack.len() ==> stack@[k] == mid_stack[k]);
            // soundness: the one new repainted cell lies in the region
            assert forall|ar: int, ac: int| #![trigger painted[ar * size + ac]] (0 <= ar < size
                && 0 <= ac < size && painted[ar * size + ac] == replacement && original[ar * size
                + ac] == target) implies in_fill_region(
                original, size as nat, target, sr, sc, ar, ac,
            ) by {
                assert(ar * size + ac < size * size) by (nonlinear_arith)
                    requires 0 <= ar < size, 0 <= ac < size,
                ;
                if ar != r || ac != c {
                    if ar * size + ac == r * size + c {
                        lemma_flat_index_injective(size as nat, ar, ac, r as int, c as int);
                    }
                    assert(painted[ar * size + ac] == before[ar * size + ac]);
                }
            }
            // stack soundness: each pushed neighbor that holds the target is
            // one region step from the popped cell
            assert forall|k: int| 0 <= k < stack@.len() implies ((#[trigger] stack@[k].0 < size
                && stack@[k].1 < size && original[stack@[k].0 * size + stack@[k].1] == target)
                ==> in_fill_region(
                    original, size as nat, target, sr, sc, stack@[k].0 as int, stack@[k].1 as int,
                )) by {
                if stack@[k].0 < size && stack@[k].1 < size && original[stack@[k].0 * size
                    + stack@[k].1] == target {
                    if k < mid_stack.len() {
                        assert(stack@[k] == prev[k]);
                    } else {
                        lemma_region_step(
                            original, size as nat, target, sr, sc, r as int, c as int,
                            stack@[k].0 as int, stack@[k].1 as int,
                        );
                    }
                }
            }
            // pending closure for every repainted cell
            assert forall|ar: int, ac: int| #![trigger painted[ar * size + ac]] (0 <= ar < size
                && 0 <= ac < size && painted[ar * size + ac] == replacement && original[ar * size
                + ac] == target) implies pending_neighbors(
                original, painted, stack@, size as nat, target, replacement, ar, ac,
            ) by {
                assert(ar * size + ac < size * size) by (nonlinear_arith)
                    requires 0 <= ar < size, 0 <= ac < size,
                ;
                if ar == r && ac == c {
                    // the popped cell's own in-bounds neighbors were all pushed
                } else {
                    if ar * size + ac == r * size + c {
                        lemma_flat_index_injective(size as nat, ar, ac, r as int, c as int);
                    }
                    assert(before[ar * size + ac] == replacement);
                    assert(pending_neighbors(
                        original, before, prev, size as nat, target, replacement, ar, ac,
                    ));
                    lemma_pending_transfer(
                        original, before, painted, prev, mid_stack, stack@, size as nat, target,
                        replacement, ar, ac, r as int, c as int,
                    );
                }
            }
        }
    }
    proof {
        assert forall|r2: int, c2: int| 0 <= r2 < size && 0 <= c2 < size
            implies #[trigger] data@[r2 * size + c2] == (if in_fill_region(
            original, size as nat, target, sr, sc, r2, c2,
        ) {
            replacement
        } else {
            original[r2 * size + c2]
        }) by {
            assert(r2 * size + c2 < size * size) by (nonlinear_arith)
                requires 0 <= r2 < size, 0 <= c2 < size,
            ;
            if in_fill_region(original, size as nat, target, sr, sc, r2, c2) {
                let n = choose|n: nat| fill_reaches(
                    original, size as nat, target, sr, sc, r2, c2, n,
                );
                assert forall|ar: int, ac: int| #![trigger data@[ar * size + ac]] (0 <= ar < size
                    && 0 <= ac < size && data@[ar * size + ac] == replacement && original[ar
                    * size + ac] == target) implies pending_neighbors(
                    original, data@, Seq::empty(), size as nat, target, replacement, ar, ac,
                ) by {
                    assert(pending_neighbors(
                        original, data@, stack@, size as nat, target, replacement, ar, ac,
                    ));
                    assert(stack@ =~= Seq::<(usize, usize)>::empty());
                }
                lemma_region_all_changed(
                    original, data@, size as nat, target, replacement, sr, sc, r2, c2, n,
                );
            } else {
                if data@[r2 * size + c2] != original[r2 * size + c2] {
                    assert(data@[r2 * size + c2] == replacement && original[r2 * size + c2]
                        == target);
                    assert(false);
                }
            }
        }
    }
}

/// What a click on the canvas does to its data: the cursor's cell — two
/// columns per cell, relative to the element's position — is painted with
/// the brush; with the fill switch on, exactly the cells four-connected to
/// it through its old color are painted instead. A click off the canvas
/// leaves the data alone, and so does a fill with the brush's own color.
pub fn canvas_data_from_click<W>(
    el: &Element<W>,
    size: usize,
    data: &mut Vec<Option<u8>>,
    paintbrush: Option<u8>,
    mouse_x: u16,
    mouse_y: u16,
    fill: bool,
)
    requires
        old(data)@.len() == size * size,
    ensures
        final(data)@.len() == size * size,
        ({
            let r = (if mouse_y >= el.y { (mouse_y - el.y) as int } else { 0 });
            let c = (if mouse_x >= el.x { (mouse_x - el.x) as int } else { 0 }) / 2;
            if r < size && c < size {
                if !fill {
                    final(data)@ == old(data)@.update(r * size + c, paintbrush)
                } else if old(data)@[r * size + c] != paintbrush {
                    forall|rr: int, cc: int| 0 <= rr < size && 0 <= cc < size
                        ==> #[trigger] final(data)@[rr * size + cc] == (if in_fill_region(
                        old(data)@,
                        size as nat,
                        old(data)@[r * size + c],
                        r,
                        c,
                        rr,
                        cc,
                    ) {
                        paintbrush
                    } else {
                        old(data)@[rr * size + cc]
                    })
                } else {
                    final(data)@ == old(data)@
                }
            } else {
                final(data)@ == old(data)@
            }
        }),
{
    let total = data.len();
    let row = (if mouse_y >= el.y { mouse_y - el.y } else { 0 }) as usize;
    let col = (if mouse_x >= el.x { mouse_x - el.x } else { 0 }) as usize / 2;
    if row < size && col < size {
        proof {
            assert(row * size + col < size * size) by (nonlinear_arith)
                requires row < size, col < size,
            ;
        }
        if fill {
            let target = data[row * size + col];
            let differs = match (target, paintbrush) {
                (None, None) => false,
                (Some(a), Some(b)) => a != b,
                _ => true,
            };
            if differs {
                flood_fill(data, size, row, col, target, paintbrush);
            }
        } else {
            data[row * size + col] = paintbrush;
        }
    }
}

} // verus!

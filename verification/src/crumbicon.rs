//! The icon codec: rendering an icon as an SVG document carrying its data
//! and palette in marked comments, reading those comments back, and turning
//! decoded image pixels into icon data with a palette of first appearances.

use vstd::prelude::*;

use crate::style::{ansi8_of_rgb, ansi8_to_hex, hex_of_ansi8, rgb_to_ansi8};
use crate::text::{
    copy_range, decimal_seq, find_sub, matches_at, parse_u8_range, parses_as_u8, split_char,
    split_from, str_chars, trim_bounds, trimmed, usize_to_string,
};

verus! {

/// One entry of a colon-separated list: a value in decimal, or the word for
/// a transparent cell.
pub open spec fn colon_token(v: Option<u8>) -> Seq<char> {
    match v {
        Some(n) => decimal_seq(n as nat),
        None => "void"@,
    }
}

/// A colon-separated list of entries.
pub open spec fn colon_list(vals: Seq<Option<u8>>) -> Seq<char>
    decreases vals.len(),
{
    if vals.len() == 0 {
        Seq::empty()
    } else if vals.len() == 1 {
        colon_token(vals[0])
    } else {
        colon_list(vals.drop_last()) + seq![':'] + colon_token(vals.last())
    }
}

/// Renders values as a colon-separated list, transparent cells as "void".
pub fn to_colon_list(values: &Vec<Option<u8>>) -> (s: String)
    ensures
        s@ == colon_list(values@),
{
    let mut s = String::new();
    let n = values.len();
    let mut i: usize = 0;
    while i < n
        invariant
            i <= n == values@.len(),
            s@ == colon_list(values@.take(i as int)),
        decreases n - i,
    {
        if i > 0 {
            s.append(":");
            proof {
                reveal_strlit(":");
                assert(":"@ =~= seq![':']);
            }
        }
        match values[i] {
            Some(v) => {
                let d = usize_to_string(v as usize);
                s.append(d.as_str());
            },
            None => {
                s.append("void");
            },
        }
        proof {
            let t = values@.take(i + 1);
            assert(t.drop_last() =~= values@.take(i as int));
            assert(t.last() == values@[i as int]);
            assert(s@ == colon_list(t));
        }
        i = i + 1;
    }
    proof {
        assert(values@.take(n as int) =~= values@);
    }
    s
}

/// The fill attribute of one icon cell: the palette color's hex string, or
/// no fill for a transparent cell.
pub open spec fn svg_fill(cell: Option<u8>) -> Seq<char> {
    match cell {
        Some(code) => hex_of_ansi8(code),
        None => "none"@,
    }
}

/// One square of the rendered icon, at its cell's position.
pub open spec fn svg_rect(cell: Option<u8>, index: int, cols: nat, px: nat) -> Seq<char> {
    "<rect x=\""@ + decimal_seq(((index % (cols as int)) * px) as nat) + "\" y=\""@
        + decimal_seq(((index / (cols as int)) * px) as nat) + "\" width=\""@
        + decimal_seq(px) + "\" height=\""@ + decimal_seq(px) + "\" fill=\""@
        + svg_fill(cell) + "\" />\n"@
}

/// The first n squares of the rendered icon, in cell order.
pub open spec fn svg_rects(data: Seq<Option<u8>>, cols: nat, px: nat, n: int) -> Seq<char>
    decreases n,
{
    if n <= 0 {
        Seq::empty()
    } else {
        svg_rects(data, cols, px, n - 1) + svg_rect(data[n - 1], n - 1, cols, px)
    }
}

/// The document's opening tag, with its size in device units.
pub open spec fn svg_header(width: nat, height: nat) -> Seq<char> {
    "<svg version=\"1.1\" baseProfile=\"full\" width=\""@ + decimal_seq(width) + "\" height=\""@
        + decimal_seq(height) + "\" xmlns=\"http://www.w3.org/2000/svg\">\n"@
}

/// The document's tail: the closing tag, then the icon's data and palette
/// as marked comments a later import reads back.
pub open spec fn svg_trailer(data: Seq<Option<u8>>, palette: Seq<Option<u8>>) -> Seq<char> {
    "\n</svg>\n<!-- crumbicon-data:"@ + colon_list(data) + "crumbicon-data --><!-- crumbicon-palette:"@
        + colon_list(palette) + "crumbicon-palette -->\n"@
}

/// The whole document for an icon's cells and palette.
pub open spec fn svg_doc(
    data: Seq<Option<u8>>,
    palette: Seq<Option<u8>>,
    rows: nat,
    cols: nat,
    px: nat,
) -> Seq<char> {
    svg_header(cols * px, rows * px) + svg_rects(data, cols, px, data.len() as int)
        + svg_trailer(data, palette)
}

/// Renders an icon as an SVG document: one square per cell at a fixed pixel
/// size, row-major, and the data and palette appended as marked comments.
#[verifier::rlimit(100)]
pub fn svg_document(
    data: &Vec<Option<u8>>,
    palette: &Vec<Option<u8>>,
    rows: usize,
    cols: usize,
    px: usize,
) -> (s: String)
    requires
        data@.len() == rows * cols,
        palette@.len() == 8,
        cols * px <= usize::MAX,
        rows * px <= usize::MAX,
        cols > 0,
    ensures
        s@ == svg_doc(data@, palette@, rows as nat, cols as nat, px as nat),
{
    let mut s = String::new();
    s.append("<svg version=\"1.1\" baseProfile=\"full\" width=\"");
    let w = usize_to_string(cols * px);
    s.append(w.as_str());
    s.append("\" height=\"");
    let h = usize_to_string(rows * px);
    s.append(h.as_str());
    s.append("\" xmlns=\"http://www.w3.org/2000/svg\">\n");
    proof {
        assert(s@ == svg_header((cols * px) as nat, (rows * px) as nat));
    }
    let n = data.len();
    let mut i: usize = 0;
    while i < n
        invariant
            i <= n == data@.len(),
            data@.len() == rows * cols,
            cols * px <= usize::MAX,
            rows * px <= usize::MAX,
            cols > 0,
            s@ == svg_header((cols * px) as nat, (rows * px) as nat)
                + svg_rects(data@, cols as nat, px as nat, i as int),
        decreases n - i,
    {
        proof {
            assert(i % cols < cols) by (nonlinear_arith)
                requires cols > 0,
            ;
            assert((i % cols) * px <= cols * px && i / cols <= rows
                && (i / cols) * px <= rows * px) by (nonlinear_arith)
                requires cols > 0, i < rows * cols, i % cols < cols, cols * px <= usize::MAX,
                    rows * px <= usize::MAX,
            ;
        }
        s.append("<rect x=\"");
        let x = usize_to_string((i % cols) * px);
        s.append(x.as_str());
        s.append("\" y=\"");
        let y = usize_to_string((i / cols) * px);
        s.append(y.as_str());
        s.append("\" width=\"");
        let wpx = usize_to_string(px);
        s.append(wpx.as_str());
        s.append("\" height=\"");
        s.append(wpx.as_str());
        s.append("\" fill=\"");
        match data[i] {
            Some(code) => {
                let hexs = ansi8_to_hex(code);
                s.append(hexs.as_str());
            },
            None => {
                s.append("none");
            },
        }
        s.append("\" />\n");
        proof {
            assert(s@ == svg_header((cols * px) as nat, (rows * px) as nat)
                + svg_rects(data@, cols as nat, px as nat, i as int)
                + svg_rect(data@[i as int], i as int, cols as nat, px as nat));
        }
        i = i + 1;
    }
    s.append("\n</svg>\n<!-- crumbicon-data:");
    let dl = to_colon_list(data);
    s.append(dl.as_str());
    s.append("crumbicon-data --><!-- crumbicon-palette:");
    let pl = to_colon_list(palette);
    s.append(pl.as_str());
    s.append("crumbicon-palette -->\n");
    s
}

/// The position of a needle's first occurrence, or -1 if it never occurs.
pub open spec fn first_match(s: Seq<char>, needle: Seq<char>) -> int
    decreases s.len(),
{
    if matches_at(s, needle, 0) {
        0
    } else if s.len() == 0 {
        -1
    } else {
        let r = first_match(s.skip(1), needle);
        if r == -1 {
            -1
        } else {
            r + 1
        }
    }
}

/// Occurrences in a tail are occurrences in the whole, shifted by one.
proof fn lemma_matches_at_skip(s: Seq<char>, needle: Seq<char>, j: int)
    requires
        1 <= j,
        s.len() >= 1,
    ensures
        matches_at(s, needle, j) == matches_at(s.skip(1), needle, j - 1),
{
    if j - 1 + needle.len() <= s.skip(1).len() {
        assert(s.skip(1).subrange(j - 1, j - 1 + needle.len())
            =~= s.subrange(j, j + needle.len()));
    }
}

/// The recursive first occurrence agrees with a directly scanned one.
proof fn lemma_first_match_scan(s: Seq<char>, needle: Seq<char>, i: int)
    requires
        0 <= i,
        forall|j: int| 0 <= j < i ==> !matches_at(s, needle, j),
        i <= s.len() + 1,
        matches_at(s, needle, i) || (forall|j: int| !matches_at(s, needle, j)),
    ensures
        matches_at(s, needle, i) ==> first_match(s, needle) == i,
        !matches_at(s, needle, i) ==> first_match(s, needle) == -1,
    decreases s.len(),
{
    if matches_at(s, needle, 0) {
    } else if s.len() == 0 {
    } else {
        assert forall|j: int| 0 <= j < i - 1 implies !matches_at(s.skip(1), needle, j) by {
            lemma_matches_at_skip(s, needle, j + 1);
        }
        if matches_at(s, needle, i) {
            assert(i >= 1);
            lemma_matches_at_skip(s, needle, i);
            lemma_first_match_scan(s.skip(1), needle, i - 1);
        } else {
            assert(forall|j: int| 1 <= j ==> !matches_at(s, needle, j));
            assert forall|j: int| !(#[trigger] matches_at(s.skip(1), needle, j)) by {
                if 1 <= j + 1 {
                    lemma_matches_at_skip(s, needle, j + 1);
                } else {
                    assert(j < 0);
                }
            }
            lemma_first_match_scan(s.skip(1), needle, if i == 0 { 0 } else { i - 1 });
        }
    }
}

/// The value one list entry stands for: nothing for a blank or "void"
/// entry, the decimal value where the trimmed entry parses as a byte, and
/// nothing where it does not.
pub open spec fn token_value(t: Seq<char>) -> Option<u8> {
    let w = trimmed(t);
    if w.len() == 0 || w == "void"@ {
        None
    } else {
        parses_as_u8(w)
    }
}

/// What the marked section of a document holds: the colon-separated entries
/// between the first occurrence of the start marker and the first
/// occurrence of the end marker, each read as a cell value. A document
/// where either marker is missing, or where the end marker comes first,
/// holds nothing.
pub open spec fn crumb_values(text: Seq<char>, sn: Seq<char>, en: Seq<char>) -> Seq<Option<u8>> {
    let sp = first_match(text, sn);
    let ep = first_match(text, en);
    if sp == -1 || ep == -1 || sp + sn.len() > ep {
        Seq::empty()
    } else {
        split_char(text.subrange(sp + sn.len(), ep), ':').map_values(|t: Seq<char>| token_value(t))
    }
}

/// Reads one token's value from a character range.
fn token_value_range(piece: &Vec<char>) -> (r: Option<u8>)
    ensures
        r == token_value(piece@),
{
    let (a, b) = trim_bounds(piece, 0, piece.len());
    proof {
        assert(piece@.subrange(0, piece@.len() as int) =~= piece@);
    }
    if a == b {
        return None;
    }
    let is_void = b - a == 4 && piece[a] == 'v' && piece[a + 1] == 'o' && piece[a + 2] == 'i'
        && piece[a + 3] == 'd';
    proof {
        reveal_strlit("void");
        let w = trimmed(piece@);
        if is_void {
            assert(w =~= "void"@);
        } else {
            if w.len() == 4 {
                assert(w[0] == piece@[a as int] && w[1] == piece@[a + 1] && w[2] == piece@[a + 2]
                    && w[3] == piece@[a + 3]);
            }
            assert(w != "void"@);
        }
    }
    if is_void {
        None
    } else {
        parse_u8_range(piece, a, b)
    }
}

/// Extracts the cell values between two markers of a document; a document
/// without both markers in order holds nothing.
pub fn get_crumbicon_data(text: &str, start_needle: &str, end_needle: &str) -> (r: Vec<Option<u8>>)
    ensures
        r@ == crumb_values(text@, start_needle@, end_needle@),
{
    let tv = str_chars(text);
    let sv = str_chars(start_needle);
    let ev = str_chars(end_needle);
    let sp = match find_sub(&tv, &sv) {
        Some(i) => {
            proof {
                lemma_first_match_scan(tv@, sv@, i as int);
            }
            i
        },
        None => {
            proof {
                lemma_first_match_scan(tv@, sv@, tv@.len() as int + 1);
            }
            return Vec::new();
        },
    };
    let ep = match find_sub(&tv, &ev) {
        Some(i) => {
            proof {
                lemma_first_match_scan(tv@, ev@, i as int);
            }
            i
        },
        None => {
            proof {
                lemma_first_match_scan(tv@, ev@, tv@.len() as int + 1);
            }
            return Vec::new();
        },
    };
    let tlen = tv.len();
    proof {
        assert(sp + sv@.len() <= tlen);
    }
    let s0 = sp + sv.len();
    if s0 > ep {
        return Vec::new();
    }
    let seg = copy_range(&tv, s0, ep);
    let pieces = split_from(&seg, 0, ':');
    proof {
        assert(seg@.skip(0) =~= seg@);
    }
    let ghost tokens = split_char(seg@, ':');
    let mut r: Vec<Option<u8>> = Vec::new();
    let n = pieces.len();
    let mut i: usize = 0;
    while i < n
        invariant
            i <= n == pieces@.len(),
            pieces.deep_view() == tokens,
            r@.len() == i,
            forall|k: int| 0 <= k < i ==> #[trigger] r@[k] == token_value(tokens[k]),
        decreases n - i,
    {
        let v = token_value_range(&pieces[i]);
        proof {
            assert(pieces@[i as int]@ == tokens[i as int]);
        }
        r.push(v);
        i = i + 1;
    }
    proof {
        assert(r@ =~= tokens.map_values(|t: Seq<char>| token_value(t)));
    }
    r
}

/// The start marker of the data section.
pub fn data_start_marker() -> (r: &'static str)
    ensures
        r@ == "<!-- crumbicon-data:"@,
{
    "<!-- crumbicon-data:"
}

/// The end marker of the data section.
pub fn data_end_marker() -> (r: &'static str)
    ensures
        r@ == "crumbicon-data -->"@,
{
    "crumbicon-data -->"
}

/// The start marker of the palette section.
pub fn palette_start_marker() -> (r: &'static str)
    ensures
        r@ == "<!-- crumbicon-palette:"@,
{
    "<!-- crumbicon-palette:"
}

/// The end marker of the palette section.
pub fn palette_end_marker() -> (r: &'static str)
    ensures
        r@ == "crumbicon-palette -->"@,
{
    "crumbicon-palette -->"
}

/// The side of the square icon a cell count is for, where there is one: the
/// byte whose square is the count.
pub fn square_side(n: usize) -> (r: Option<u8>)
    ensures
        r matches Some(s) ==> (s as nat) * (s as nat) == n,
        r is None ==> forall|s: u8| #[trigger] ((s as nat) * (s as nat)) != n,
{
    let mut i: usize = 0;
    while i < 256
        invariant
            i <= 256,
            forall|s: u8| s < i ==> #[trigger] ((s as nat) * (s as nat)) != n,
        decreases 256 - i,
    {
        proof {
            assert(i * i < 65536) by (nonlinear_arith)
                requires i < 256,
            ;
        }
        if i * i == n {
            return Some(i as u8);
        }
        i = i + 1;
    }
    proof {
        assert forall|s: u8| #[trigger] ((s as nat) * (s as nat)) != n by {
            assert(s < 256);
        }
    }
    None
}

/// Reads an icon out of a document: the data and palette sections between
/// their markers, accepted only when both are present and the data is a
/// square icon's; the result carries the icon's side.
pub fn crumbicon_from_text(text: &str) -> (r: Option<(Vec<Option<u8>>, Vec<Option<u8>>, u8)>)
    ensures
        ({
            let data = crumb_values(text@, "<!-- crumbicon-data:"@, "crumbicon-data -->"@);
            let palette = crumb_values(
                text@,
                "<!-- crumbicon-palette:"@,
                "crumbicon-palette -->"@,
            );
            match r {
                Some(p) => data.len() > 0 && palette.len() > 0 && p.0@ == data && p.1@ == palette
                    && (p.2 as nat) * (p.2 as nat) == data.len(),
                None => data.len() == 0 || palette.len() == 0 || (forall|s: u8|
                    #[trigger] ((s as nat) * (s as nat)) != data.len()),
            }
        }),
{
    let data = get_crumbicon_data(text, data_start_marker(), data_end_marker());
    let palette = get_crumbicon_data(text, palette_start_marker(), palette_end_marker());
    if data.len() == 0 || palette.len() == 0 {
        return None;
    }
    match square_side(data.len()) {
        Some(side) => Some((data, palette, side)),
        None => None,
    }
}

/// What one decoded pixel stands for: a transparent cell when its alpha is
/// zero, otherwise the cell painted with the quantized color.
pub open spec fn pixel_value(px: [u8; 4]) -> Option<u8> {
    if px[3] == 0 {
        None
    } else {
        Some(ansi8_of_rgb(px[0], px[1], px[2]))
    }
}

/// The palette of a data sequence: each painted color once, in order of
/// first appearance.
pub open spec fn palette_of(data: Seq<Option<u8>>) -> Seq<u8>
    decreases data.len(),
{
    if data.len() == 0 {
        Seq::empty()
    } else {
        let p = palette_of(data.drop_last());
        match data.last() {
            Some(c) => if p.contains(c) {
                p
            } else {
                p.push(c)
            },
            None => p,
        }
    }
}

/// Whether a vector of colors holds one.
fn colors_contain(v: &Vec<u8>, c: u8) -> (r: bool)
    ensures
        r == v@.contains(c),
{
    let n = v.len();
    let mut i: usize = 0;
    while i < n
        invariant
            i <= n == v@.len(),
            forall|j: int| 0 <= j < i ==> v@[j] != c,
        decreases n - i,
    {
        if v[i] == c {
            return true;
        }
        i = i + 1;
    }
    proof {
        assert(!v@.contains(c));
    }
    false
}

/// Turns a square of decoded pixels into icon data and its palette: each
/// pixel row-major, a cell per pixel, and the palette the painted colors in
/// order of first appearance.
pub fn pixels_to_icon(pixels: &Vec<Vec<[u8; 4]>>, side: usize) -> (r: (
    Vec<Option<u8>>,
    Vec<u8>,
))
    requires
        pixels@.len() == side,
        forall|i: int| 0 <= i < side ==> #[trigger] pixels@[i]@.len() == side,
        side * side <= usize::MAX,
    ensures
        r.0@.len() == side * side,
        forall|row: int, col: int| 0 <= row < side && 0 <= col < side
            ==> #[trigger] r.0@[row * side + col] == pixel_value(pixels@[row]@[col]),
        r.1@ == palette_of(r.0@),
{
    let mut data: Vec<Option<u8>> = Vec::new();
    let mut palette: Vec<u8> = Vec::new();
    let mut row: usize = 0;
    while row < side
        invariant
            row <= side,
            pixels@.len() == side,
            forall|i: int| 0 <= i < side ==> #[trigger] pixels@[i]@.len() == side,
            side * side <= usize::MAX,
            data@.len() == row * side,
            forall|i: int, j: int| 0 <= i < row && 0 <= j < side
                ==> #[trigger] data@[i * side + j] == pixel_value(pixels@[i]@[j]),
            palette@ == palette_of(data@),
        decreases side - row,
    {
        proof {
            assert(row * side + side <= side * side) by (nonlinear_arith)
                requires row < side,
            ;
        }
        let mut col: usize = 0;
        while col < side
            invariant
                col <= side,
                row < side,
                pixels@.len() == side,
                forall|i: int| 0 <= i < side ==> #[trigger] pixels@[i]@.len() == side,
                side * side <= usize::MAX,
                row * side + side <= side * side,
                data@.len() == row * side + col,
                forall|i: int, j: int| 0 <= i < row && 0 <= j < side
                    ==> #[trigger] data@[i * side + j] == pixel_value(pixels@[i]@[j]),
                forall|j: int| 0 <= j < col ==> #[trigger] data@[row * side + j]
                    == pixel_value(pixels@[row as int]@[j]),
                palette@ == palette_of(data@),
            decreases side - col,
        {
            let px = pixels[row][col];
            let v: Option<u8> = if px[3] == 0 {
                None
            } else {
                Some(rgb_to_ansi8(px[0], px[1], px[2]))
            };
            let ghost olddata = data@;
            data.push(v);
            proof {
                assert(data@.drop_last() =~= olddata);
                assert(pixel_value(pixels@[row as int]@[col as int]) == v);
            }
            if let Some(c) = v {
                if !colors_contain(&palette, c) {
                    palette.push(c);
                }
            }
            proof {
                assert forall|i: int, j: int| 0 <= i < row && 0 <= j < side
                    implies #[trigger] data@[i * side + j] == pixel_value(pixels@[i]@[j]) by {
                    assert(i * side + j < row * side) by (nonlinear_arith)
                        requires 0 <= i < row, 0 <= j < side,
                    ;
                    assert(data@[i * side + j] == olddata[i * side + j]);
                }
            }
            col = col + 1;
        }
        row = row + 1;
        proof {
            assert(row * side == (row - 1) * side + side) by (nonlinear_arith);
        }
    }
    proof {
        assert(data@.len() == side * side);
    }
    (data, palette)
}

} // verus!

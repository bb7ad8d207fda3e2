//! Styled text: the ANSI escape sequences the outside styling crate wraps
//! text in, stated exactly, and the color conversions it computes, named.
//! All styling of cell grids is built on these per-string calls.

use vstd::prelude::*;

use crate::look::Look;
use crate::text::decimal_seq;

verus! {

/// What terminal_style::color::ansi8_to_rgb returns for a code: the fixed
/// 256-color palette's red, green and blue components, a function of the
/// code alone.
pub uninterp spec fn rgb_of_ansi8(code: u8) -> (u8, u8, u8);

/// What terminal_style::color::rgb_to_ansi8 returns: the 256-color code its
/// quantization picks for a color, a function of the components alone.
pub uninterp spec fn ansi8_of_rgb(r: u8, g: u8, b: u8) -> u8;

/// The closing sequence every styled string ends with.
pub open spec fn sgr_reset() -> Seq<char> {
    seq!['\u{1b}', '[', '0', 'm']
}

/// A string wrapped in one graphic parameter: the escape introducer, the
/// parameter, the text, and the reset.
pub open spec fn sgr_styled(param: Seq<char>, s: Seq<char>) -> Seq<char> {
    seq!['\u{1b}', '['] + param + seq!['m'] + s + sgr_reset()
}

/// The truecolor parameter for a foreground (38) or background (48) color:
/// the lead, then the decimal components separated by semicolons.
pub open spec fn truecolor_param(lead: char, code: u8) -> Seq<char> {
    let (r, g, b) = rgb_of_ansi8(code);
    seq![lead, '8', ';', '2', ';'] + decimal_seq(r as nat) + seq![';'] + decimal_seq(g as nat)
        + seq![';'] + decimal_seq(b as nat)
}

/// A string on a truecolor foreground made from a 256-color code.
pub open spec fn fg_styled(code: u8, s: Seq<char>) -> Seq<char> {
    sgr_styled(truecolor_param('3', code), s)
}

/// A string on a truecolor background made from a 256-color code.
pub open spec fn bg_styled(code: u8, s: Seq<char>) -> Seq<char> {
    sgr_styled(truecolor_param('4', code), s)
}

/// The uppercase hexadecimal digit for a value below sixteen.
pub open spec fn hex_digit(d: nat) -> char {
    if d == 0 { '0' } else if d == 1 { '1' } else if d == 2 { '2' }
    else if d == 3 { '3' } else if d == 4 { '4' } else if d == 5 { '5' }
    else if d == 6 { '6' } else if d == 7 { '7' } else if d == 8 { '8' }
    else if d == 9 { '9' } else if d == 10 { 'A' } else if d == 11 { 'B' }
    else if d == 12 { 'C' } else if d == 13 { 'D' } else if d == 14 { 'E' }
    else { 'F' }
}

/// A byte as two uppercase hexadecimal digits.
pub open spec fn hex2(n: u8) -> Seq<char> {
    seq![hex_digit((n / 16) as nat), hex_digit((n % 16) as nat)]
}

/// The hex color string of a 256-color code: a hash, then the palette's
/// components in uppercase hex.
pub open spec fn hex_of_ansi8(code: u8) -> Seq<char> {
    let (r, g, b) = rgb_of_ansi8(code);
    seq!['#'] + hex2(r) + hex2(g) + hex2(b)
}

/// The four plain text styles.
#[derive(Clone, Copy, Debug, PartialEq, Eq, Structural)]
pub enum TextStyle {
    Bold,
    Faint,
    Underline,
    Inverse,
}

/// The graphic parameter of a plain text style.
pub open spec fn style_param(st: TextStyle) -> Seq<char> {
    match st {
        TextStyle::Bold => seq!['1'],
        TextStyle::Faint => seq!['2'],
        TextStyle::Underline => seq!['4'],
        TextStyle::Inverse => seq!['7'],
    }
}

/// Relies on terminal_style::format::bold on a string slice: it wraps the
/// text in the bold graphic sequence.
#[verifier::external_body]
fn bold_call(s: &str) -> (r: String)
    ensures
        r@ == sgr_styled(seq!['1'], s@),
{
    terminal_style::format::bold(s)
}

/// Relies on terminal_style::format::faint on a string slice: it wraps the
/// text in the faint graphic sequence.
#[verifier::external_body]
fn faint_call(s: &str) -> (r: String)
    ensures
        r@ == sgr_styled(seq!['2'], s@),
{
    terminal_style::format::faint(s)
}

/// Relies on terminal_style::format::underline on a string slice: it wraps
/// the text in the underline graphic sequence.
#[verifier::external_body]
fn underline_call(s: &str) -> (r: String)
    ensures
        r@ == sgr_styled(seq!['4'], s@),
{
    terminal_style::format::underline(s)
}

/// Relies on terminal_style::format::inverse on a string slice: it wraps
/// the text in the inverse graphic sequence.
#[verifier::external_body]
fn inverse_call(s: &str) -> (r: String)
    ensures
        r@ == sgr_styled(seq!['7'], s@),
{
    terminal_style::format::inverse(s)
}

/// Relies on terminal_style::format::color with a 256-color code, which for
/// a byte never fails: it wraps the text in the truecolor foreground
/// sequence of the code's palette color.
#[verifier::external_body]
pub fn color_str(code: u8, s: &str) -> (r: String)
    ensures
        r@ == fg_styled(code, s@),
{
    match terminal_style::format::color(code, s) {
        Ok(r) => r,
        Err(_) => String::new(),
    }
}

/// Relies on terminal_style::format::background with a 256-color code,
/// which for a byte never fails: it wraps the text in the truecolor
/// background sequence of the code's palette color.
#[verifier::external_body]
pub fn background_str(code: u8, s: &str) -> (r: String)
    ensures
        r@ == bg_styled(code, s@),
{
    match terminal_style::format::background(code, s) {
        Ok(r) => r,
        Err(_) => String::new(),
    }
}

/// Relies on terminal_style::color::ansi8_to_hex: the palette color of the
/// code as a hash-led uppercase hex string.
#[verifier::external_body]
pub fn ansi8_to_hex(code: u8) -> (r: String)
    ensures
        r@ == hex_of_ansi8(code),
{
    terminal_style::color::ansi8_to_hex(code)
}

/// Relies on terminal_style::color::ansi8_to_rgb: the fixed palette color
/// of a 256-color code.
#[verifier::external_body]
pub fn ansi8_to_rgb(code: u8) -> (r: (u8, u8, u8))
    ensures
        r == rgb_of_ansi8(code),
{
    let rgb = terminal_style::color::ansi8_to_rgb(code);
    (rgb[0], rgb[1], rgb[2])
}

/// Relies on terminal_style::color::rgb_to_ansi8: the 256-color code its
/// quantization picks for a color.
#[verifier::external_body]
pub fn rgb_to_ansi8(r: u8, g: u8, b: u8) -> (code: u8)
    ensures
        code == ansi8_of_rgb(r, g, b),
{
    terminal_style::color::rgb_to_ansi8([r, g, b])
}

/// Applies a plain text style to one string.
pub fn style_str(st: TextStyle, s: &str) -> (r: String)
    ensures
        r@ == sgr_styled(style_param(st), s@),
{
    match st {
        TextStyle::Bold => bold_call(s),
        TextStyle::Faint => faint_call(s),
        TextStyle::Underline => underline_call(s),
        TextStyle::Inverse => inverse_call(s),
    }
}

/// Applies a plain text style to every cell of a grid, keeping its shape.
pub fn style_look(st: TextStyle, look: &Look) -> (r: Look)
    ensures
        r@.len() == look@.len(),
        forall|i: int| 0 <= i < look@.len() ==> #[trigger] r@[i].len() == look@[i].len(),
        forall|i: int, j: int| 0 <= i < look@.len() && 0 <= j < look@[i].len()
            ==> #[trigger] r@[i][j] == sgr_styled(style_param(st), look@[i][j]),
{
    let cells = &look.cells;
    let mut out: Vec<Vec<String>> = Vec::new();
    let mut i: usize = 0;
    while i < cells.len()
        invariant
            i <= cells@.len(),
            out@.len() == i,
            forall|k: int| 0 <= k < i ==> #[trigger] out@[k]@.len() == cells@[k]@.len(),
            forall|k: int, j: int| 0 <= k < i && 0 <= j < cells@[k]@.len()
                ==> #[trigger] out@[k]@[j]@ == sgr_styled(style_param(st), cells@[k]@[j]@),
        decreases cells@.len() - i,
    {
        let row = &cells[i];
        let mut new_row: Vec<String> = Vec::new();
        let mut j: usize = 0;
        while j < row.len()
            invariant
                j <= row@.len(),
                new_row@.len() == j,
                forall|k: int| 0 <= k < j ==> #[trigger] new_row@[k]@
                    == sgr_styled(style_param(st), row@[k]@),
            decreases row@.len() - j,
        {
            new_row.push(style_str(st, row[j].as_str()));
            j = j + 1;
        }
        out.push(new_row);
        i = i + 1;
    }
    let r = Look { cells: out };
    proof {
        assert forall|i: int| 0 <= i < look@.len() implies #[trigger] r@[i].len()
            == look@[i].len() by {
            assert(r@[i] == out@[i].deep_view());
            assert(look@[i] == cells@[i].deep_view());
        }
        assert forall|i: int, j: int| 0 <= i < look@.len() && 0 <= j < look@[i].len()
            implies #[trigger] r@[i][j] == sgr_styled(style_param(st), look@[i][j]) by {
            assert(r@[i] == out@[i].deep_view());
            assert(look@[i] == cells@[i].deep_view());
            assert(r@[i][j] == out@[i]@[j]@);
            assert(look@[i][j] == cells@[i]@[j]@);
        }
    }
    r
}

} // verus!

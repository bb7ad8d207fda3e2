//! The splash screen's logo: five lines of banner art cycling through
//! colors, a blank line, and a caption bouncing inside a forty-column band,
//! redrawn on every tick.

use vstd::prelude::*;

use crate::element::{Element, ScreenCmd, ScreenSize};
use crate::event::EventData;
use crate::look::Look;
use crate::state::SplashState;
use crate::style::{color_str, fg_styled, sgr_styled, style_param, style_str, TextStyle};
use crate::widgets::{spaces, spaces_string, SplashWidget};

verus! {

/// The caption's left padding for a tick count: it walks from zero to nine
/// and back, over a cycle of eighteen ticks.
pub open spec fn bounce_pad(n: nat) -> nat {
    if n % 18 <= 9 {
        n % 18
    } else {
        (18 - n % 18) as nat
    }
}

/// The caption at a tick count: the fixed text padded to forty columns,
/// its position bouncing with the tick count.
pub fn bouncing_text(n: usize) -> (s: String)
    ensures
        s@ == spaces(bounce_pad(n as nat)) + "An icon editor for the terminal"@ + spaces(
            (9 - bounce_pad(n as nat)) as nat,
        ),
{
    let pos: usize = n % 18;
    let pad: usize = if pos <= 9 {
        pos
    } else {
        18 - pos
    };
    let right: usize = 9 - pad;
    let mut s = spaces_string(pad);
    s.append("An icon editor for the terminal");
    let r = spaces_string(right);
    s.append(r.as_str());
    s
}

/// One line of the banner art, colored then emboldened.
fn art_row(code: u8, s: &str) -> (r: String)
    ensures
        r@ == sgr_styled(style_param(TextStyle::Bold), fg_styled(code, s@)),
{
    let colored = color_str(code, s);
    style_str(TextStyle::Bold, colored.as_str())
}

/// The logo element: no grid until the first tick draws one.
pub fn build() -> (e: Element<SplashWidget>)
    ensures
        e.x == 0 && e.y == 0,
        e.look@.len() == 0,
        e.on_loop == Some(SplashWidget::Logo),
        e.on_keypress is None && e.on_move is None && e.on_click is None && e.on_state is None,
{
    let mut e = Element::new(0, 0, Look::new());
    e.on_loop = Some(SplashWidget::Logo);
    e
}

/// The color of one banner line at a tick count: the line's fixed offset
/// walked through the first five colors.
pub open spec fn art_color(n: nat, k: nat) -> u8 {
    (((n % 65536) + k) % 5) as u8
}

/// What one banner row shows at a tick count.
pub open spec fn art_cell(n: nat, i: int) -> Seq<char> {
    if i == 0 {
        sgr_styled(style_param(TextStyle::Bold), fg_styled(art_color(n, 2), " ____            _   _                 "@))
    } else if i == 1 {
        sgr_styled(style_param(TextStyle::Bold), fg_styled(art_color(n, 3), "|  _ \\ _   _ ___| |_(_) ___ ___  _ __  "@))
    } else if i == 2 {
        sgr_styled(style_param(TextStyle::Bold), fg_styled(art_color(n, 4), "| |_) | | | / __| __| |/ __/ _ \\| '_ \\ "@))
    } else if i == 3 {
        sgr_styled(style_param(TextStyle::Bold), fg_styled(art_color(n, 5), "|  _ <| |_| \\__ \\ |_| | (_| (_) | | | |"@))
    } else if i == 4 {
        sgr_styled(style_param(TextStyle::Bold), fg_styled(art_color(n, 2), "|_| \\_\\___,_|___/\\__|_|\\___\\___/|_| |_| "@))
    } else if i == 5 {
        Seq::<char>::empty()
    } else {
        spaces(bounce_pad(n)) + "An icon editor for the terminal"@ + spaces((9 - bounce_pad(n)) as nat)
    }
}

/// The tick callback: rebuilds the seven banner rows in this tick's colors,
/// centers the element on the screen, records the tick count in the state,
/// and asks for a redraw of the new grid.
pub fn on_loop(
    el: &mut Element<SplashWidget>,
    state: &mut SplashState,
    event: &EventData,
    screen: &ScreenSize,
) -> (cmd: Option<ScreenCmd>)
    ensures
        final(state).loop_count == event.loop_count,
        final(el).on_loop == old(el).on_loop,
        final(el).on_keypress == old(el).on_keypress,
        final(el).on_move == old(el).on_move,
        final(el).on_click == old(el).on_click,
        final(el).on_state == old(el).on_state,
        final(el).x == (if screen.cols >= 39 {
            (screen.cols - 39) as int
        } else {
            0
        }) / 2,
        final(el).y == (if screen.rows >= 6 {
            (screen.rows - 6) as int
        } else {
            0
        }) / 2,
        final(el).look@.len() == 7,
        forall|i: int| 0 <= i < 7 ==> #[trigger] final(el).look@[i].len() == 1,
        forall|i: int| 0 <= i < 7 ==> #[trigger] final(el).look@[i][0] == art_cell(
            event.loop_count as nat,
            i,
        ),
        cmd matches Some(c) ==> (c matches ScreenCmd::Put { x, y, rows } && x == final(el).x && y
            == final(el).y && rows.deep_view() == final(el).look@),
        cmd is Some,
{
    let ghost n = event.loop_count as nat;
    let n32: u32 = (event.loop_count % 65536) as u32;
    let c1: u8 = ((n32 + 2) % 5) as u8;
    let c2: u8 = ((n32 + 3) % 5) as u8;
    let c3: u8 = ((n32 + 4) % 5) as u8;
    let c4: u8 = ((n32 + 5) % 5) as u8;
    proof {
        assert(c1 == art_color(n, 2) && c2 == art_color(n, 3) && c3 == art_color(n, 4) && c4
            == art_color(n, 5));
    }
    let mut rows: Vec<Vec<String>> = Vec::new();
    let mut row1: Vec<String> = Vec::new();
    row1.push(art_row(c1, " ____            _   _                 "));
    rows.push(row1);
    let mut row2: Vec<String> = Vec::new();
    row2.push(art_row(c2, "|  _ \\ _   _ ___| |_(_) ___ ___  _ __  "));
    rows.push(row2);
    let mut row3: Vec<String> = Vec::new();
    row3.push(art_row(c3, "| |_) | | | / __| __| |/ __/ _ \\| '_ \\ "));
    rows.push(row3);
    let mut row4: Vec<String> = Vec::new();
    row4.push(art_row(c4, "|  _ <| |_| \\__ \\ |_| | (_| (_) | | | |"));
    rows.push(row4);
    let mut row5: Vec<String> = Vec::new();
    row5.push(art_row(c1, "|_| \\_\\___,_|___/\\__|_|\\___\\___/|_| |_| "));
    rows.push(row5);
    let mut row6: Vec<String> = Vec::new();
    row6.push(String::new());
    rows.push(row6);
    let mut row7: Vec<String> = Vec::new();
    row7.push(bouncing_text(event.loop_count));
    rows.push(row7);
    proof {
        assert(forall|i: int| 0 <= i < 7 ==> #[trigger] rows@[i]@.len() == 1);
        assert(forall|i: int| 0 <= i < 7 ==> #[trigger] rows@[i]@[0]@ == art_cell(n, i));
    }
    let ghost rowsview = rows.deep_view();
    let ghost rowssnap = rows@;
    el.look.update(Look::from_rows(rows));
    proof {
        assert(el.look@ == rowsview);
        assert forall|i: int| 0 <= i < 7 implies #[trigger] el.look@[i].len() == 1
            && el.look@[i][0] == art_cell(n, i) by {
            assert(rowsview[i] == rowssnap[i].deep_view());
            assert(rowssnap[i].deep_view()[0] == rowssnap[i]@[0]@);
        }
    }
    el.x = screen.cols.saturating_sub(39) / 2;
    el.y = screen.rows.saturating_sub(6) / 2;
    state.loop_count = event.loop_count;
    Some(el.draw_cmd())
}

} // verus!

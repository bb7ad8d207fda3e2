//! The widgets: each one a tag naming the callbacks of one element of the
//! icon editor or its splash screen, with the helpers they share. The
//! closed set of tags stands in for per-element function values; dispatch
//! selects a widget's behavior by its tag.

pub mod button_16;
pub mod button_8;
pub mod button_exit;
pub mod button_save;
pub mod canvas_16;
pub mod canvas_8;
pub mod centered_modal;
pub mod color_candidate;
pub mod color_picker_16;
pub mod color_picker_216;
pub mod color_picker_empty;
pub mod color_picker_gray;
pub mod color_picker_palette;
pub mod color_selected;
pub mod label_color_candidate;
pub mod label_color_selected;
pub mod label_end;
pub mod label_new;
pub mod screen;
pub mod splash_footer;
pub mod splash_logo;
pub mod title_bar;

use vstd::prelude::*;

use crate::element::{Element, ScreenCmd, ScreenSize};
use crate::event::EventData;
use crate::listener::Listener;
use crate::state::{same_app_state, AppState, SplashState};
use crate::style::{hex_of_ansi8, ansi8_to_hex};
use crate::text::{chars_to_string, decimal_seq, u8_to_string};

verus! {

/// The width of the editor's fixed layout, in columns.
pub const APP_WIDTH: u16 = 80;

/// The height of the editor's fixed layout, in rows.
pub const APP_HEIGHT: u16 = 24;

/// A position offset clamped to the terminal's coordinate range.
pub open spec fn placed(base: u16, offset: u16) -> u16 {
    if base + offset > u16::MAX {
        u16::MAX
    } else {
        (base + offset) as u16
    }
}

/// Whether the terminal is large enough for the editor's fixed layout.
pub fn screen_fits(screen: &ScreenSize) -> (r: bool)
    ensures
        r == (screen.cols >= APP_WIDTH && screen.rows >= APP_HEIGHT),
{
    screen.cols >= APP_WIDTH && screen.rows >= APP_HEIGHT
}

/// Moves an element to its place relative to the editor's top-left corner
/// and asks for its redraw — both only when the terminal is large enough
/// for the layout.
pub fn draw_relative<W>(
    el: &mut Element<W>,
    x: u16,
    y: u16,
    state: &AppState,
    screen: &ScreenSize,
) -> (cmd: Option<ScreenCmd>)
    ensures
        final(el).look == old(el).look,
        final(el).on_loop == old(el).on_loop,
        final(el).on_keypress == old(el).on_keypress,
        final(el).on_move == old(el).on_move,
        final(el).on_click == old(el).on_click,
        final(el).on_state == old(el).on_state,
        (screen.cols >= APP_WIDTH && screen.rows >= APP_HEIGHT) ==> (
            final(el).x == placed(state.app_x, x) && final(el).y == placed(state.app_y, y)
            && (cmd matches Some(c) && c matches ScreenCmd::Put { x: cx, y: cy, rows }
                && cx == final(el).x && cy == final(el).y && rows.deep_view() == final(el).look@)),
        !(screen.cols >= APP_WIDTH && screen.rows >= APP_HEIGHT) ==> (*final(el) == *old(el)
            && cmd is None),
{
    if screen_fits(screen) {
        el.x = state.app_x.saturating_add(x);
        el.y = state.app_y.saturating_add(y);
        Some(el.draw_cmd())
    } else {
        None
    }
}

/// Whether a modifier name is among an event's active modifiers.
pub fn has_modifier(mods: &Vec<String>, name: &str) -> (r: bool)
    ensures
        r == (exists|i: int| 0 <= i < mods@.len() && #[trigger] mods@[i]@ == name@),
{
    let n = mods.len();
    let mut i: usize = 0;
    while i < n
        invariant
            i <= n == mods@.len(),
            forall|j: int| 0 <= j < i ==> #[trigger] mods@[j]@ != name@,
        decreases n - i,
    {
        if str_eq(mods[i].as_str(), name) {
            return true;
        }
        i = i + 1;
    }
    false
}

/// Compares two string slices by their characters.
pub fn str_eq(a: &str, b: &str) -> (r: bool)
    ensures
        r == (a@ == b@),
{
    let owned_a = a.to_owned();
    let owned_b = b.to_owned();
    owned_a == owned_b
}

/// A run of spaces.
pub open spec fn spaces(n: nat) -> Seq<char> {
    Seq::new(n, |i: int| ' ')
}

/// Builds a run of spaces.
pub fn spaces_string(n: usize) -> (s: String)
    ensures
        s@ == spaces(n as nat),
{
    let mut v: Vec<char> = Vec::new();
    let mut i: usize = 0;
    while i < n
        invariant
            i <= n,
            v@ =~= spaces(i as nat),
        decreases n - i,
    {
        v.push(' ');
        proof {
            assert(v@ =~= spaces((i + 1) as nat));
        }
        i = i + 1;
    }
    chars_to_string(&v)
}

/// A color's label: its code in decimal, padded to three columns, three
/// more spaces, and its hex string.
pub open spec fn color_label(c: u8) -> Seq<char> {
    decimal_seq(c as nat) + spaces((3 - decimal_seq(c as nat).len()) as nat) + spaces(3)
        + hex_of_ansi8(c)
}

/// Renders a color's label.
pub fn color_label_text(c: u8) -> (s: String)
    ensures
        s@ == color_label(c),
{
    proof {
        if c < 10 {
            assert(decimal_seq(c as nat).len() == 1);
        } else if c < 100 {
            assert(decimal_seq((c / 10) as nat).len() == 1);
            assert(decimal_seq(c as nat).len() == 2);
        } else {
            assert(decimal_seq(((c / 10) / 10) as nat).len() == 1);
            assert(decimal_seq((c / 10) as nat).len() == 2);
            assert(decimal_seq(c as nat).len() == 3);
        }
    }
    let mut s = u8_to_string(c);
    let pad: usize = if c < 10 {
        2
    } else if c < 100 {
        1
    } else {
        0
    };
    let p = spaces_string(pad);
    s.append(p.as_str());
    let gap = spaces_string(3);
    s.append(gap.as_str());
    let hx = ansi8_to_hex(c);
    s.append(hx.as_str());
    proof {
        assert(spaces(pad as nat) =~= spaces((3 - decimal_seq(c as nat).len()) as nat));
    }
    s
}

/// The label shown for a transparent selection.
pub fn transparent_label() -> (s: String)
    ensures
        s@ == ":transparent:"@,
        s@.len() == 13,
{
    proof {
        reveal_strlit(":transparent:");
    }
    ":transparent:".to_owned()
}

/// The widgets of the splash screen.
#[derive(Clone, Copy, Debug, PartialEq, Eq, Structural)]
pub enum SplashWidget {
    Logo,
    Footer,
}

impl Listener<SplashState> for SplashWidget {
    open spec fn state_same(a: &SplashState, b: &SplashState) -> bool {
        a.loop_count == b.loop_count
    }

    proof fn state_same_refl(s: &SplashState) {
    }

    proof fn state_same_sym(a: &SplashState, b: &SplashState) {
    }

    proof fn state_same_trans(a: &SplashState, b: &SplashState, c: &SplashState) {
    }

    fn state_eq(a: &SplashState, b: &SplashState) -> (r: bool) {
        a.loop_count == b.loop_count
    }

    fn state_clone(s: &SplashState) -> (r: SplashState) {
        SplashState { loop_count: s.loop_count }
    }

    fn on_loop(
        self,
        el: &mut Element<Self>,
        state: &mut SplashState,
        event: &EventData,
        screen: &ScreenSize,
    ) -> (cmd: Option<ScreenCmd>) {
        match self {
            SplashWidget::Logo => splash_logo::on_loop(el, state, event, screen),
            SplashWidget::Footer => None,
        }
    }

    fn on_keypress(
        self,
        el: &mut Element<Self>,
        state: &mut SplashState,
        event: &EventData,
        screen: &ScreenSize,
    ) -> (cmd: Option<ScreenCmd>) {
        None
    }

    fn on_move(
        self,
        el: &mut Element<Self>,
        state: &mut SplashState,
        event: &EventData,
        screen: &ScreenSize,
    ) -> (cmd: Option<ScreenCmd>) {
        None
    }

    fn on_click(
        self,
        el: &mut Element<Self>,
        state: &mut SplashState,
        event: &EventData,
        screen: &ScreenSize,
    ) -> (cmd: Option<ScreenCmd>) {
        None
    }

    fn on_state(
        self,
        el: &mut Element<Self>,
        state: &SplashState,
        screen: &ScreenSize,
    ) -> (cmd: Option<ScreenCmd>) {
        match self {
            SplashWidget::Logo => None,
            SplashWidget::Footer => splash_footer::on_state(el, state, screen),
        }
    }
}

/// The widgets of the editor screen.
#[derive(Clone, Copy, Debug, PartialEq, Eq, Structural)]
pub enum AppWidget {
    Screen,
    SizeModal,
    TitleBar,
    Canvas16,
    Canvas8,
    Picker16,
    Picker216,
    PickerGray,
    PickerEmpty,
    PickerPalette,
    SelectedLabel,
    SelectedBox,
    CandidateBox,
    CandidateLabel,
    NewLabel,
    Size8Button,
    Size16Button,
    EndLabel,
    ExitButton,
    SaveButton,
}

impl Listener<AppState> for AppWidget {
    open spec fn state_same(a: &AppState, b: &AppState) -> bool {
        same_app_state(*a, *b)
    }

    proof fn state_same_refl(s: &AppState) {
    }

    proof fn state_same_sym(a: &AppState, b: &AppState) {
    }

    proof fn state_same_trans(a: &AppState, b: &AppState, c: &AppState) {
    }

    fn state_eq(a: &AppState, b: &AppState) -> (r: bool) {
        a.same_as(b)
    }

    fn state_clone(s: &AppState) -> (r: AppState) {
        s.duplicate()
    }

    fn on_loop(
        self,
        el: &mut Element<Self>,
        state: &mut AppState,
        event: &EventData,
        screen: &ScreenSize,
    ) -> (cmd: Option<ScreenCmd>) {
        match self {
            AppWidget::Screen => screen::on_loop(el, state, event, screen),
            AppWidget::SaveButton => button_save::on_loop(el, state, event, screen),
            _ => None,
        }
    }

    fn on_keypress(
        self,
        el: &mut Element<Self>,
        state: &mut AppState,
        event: &EventData,
        screen: &ScreenSize,
    ) -> (cmd: Option<ScreenCmd>) {
        match self {
            AppWidget::ExitButton => button_exit::on_keypress(el, state, event, screen),
            _ => None,
        }
    }

    fn on_move(
        self,
        el: &mut Element<Self>,
        state: &mut AppState,
        event: &EventData,
        screen: &ScreenSize,
    ) -> (cmd: Option<ScreenCmd>) {
        match self {
            AppWidget::Screen => screen::on_move(el, state, event, screen),
            AppWidget::Picker16 => color_picker_16::on_move(el, state, event, screen),
            AppWidget::Picker216 => color_picker_216::on_move(el, state, event, screen),
            AppWidget::PickerGray => color_picker_gray::on_move(el, state, event, screen),
            AppWidget::PickerEmpty => color_picker_empty::on_move(el, state, event, screen),
            AppWidget::PickerPalette => color_picker_palette::on_move(el, state, event, screen),
            _ => None,
        }
    }

    fn on_click(
        self,
        el: &mut Element<Self>,
        state: &mut AppState,
        event: &EventData,
        screen: &ScreenSize,
    ) -> (cmd: Option<ScreenCmd>) {
        match self {
            AppWidget::Canvas16 => canvas_16::on_click(el, state, event, screen),
            AppWidget::Canvas8 => canvas_8::on_click(el, state, event, screen),
            AppWidget::Picker16 => color_picker_16::on_click(el, state, event, screen),
            AppWidget::Picker216 => color_picker_216::on_click(el, state, event, screen),
            AppWidget::PickerGray => color_picker_gray::on_click(el, state, event, screen),
            AppWidget::PickerEmpty => color_picker_empty::on_click(el, state, event, screen),
            AppWidget::PickerPalette => color_picker_palette::on_click(el, state, event, screen),
            AppWidget::Size8Button => button_8::on_click(el, state, event, screen),
            AppWidget::Size16Button => button_16::on_click(el, state, event, screen),
            AppWidget::ExitButton => button_exit::on_click(el, state, event, screen),
            AppWidget::SaveButton => button_save::on_click(el, state, event, screen),
            _ => None,
        }
    }

    fn on_state(
        self,
        el: &mut Element<Self>,
        state: &AppState,
        screen: &ScreenSize,
    ) -> (cmd: Option<ScreenCmd>) {
        match self {
            AppWidget::SizeModal => centered_modal::on_state(el, state, screen),
            AppWidget::TitleBar => title_bar::on_state(el, state, screen),
            AppWidget::Canvas16 => canvas_16::on_state(el, state, screen),
            AppWidget::Canvas8 => canvas_8::on_state(el, state, screen),
            AppWidget::Picker16 => color_picker_16::on_state(el, state, screen),
            AppWidget::Picker216 => color_picker_216::on_state(el, state, screen),
            AppWidget::PickerGray => color_picker_gray::on_state(el, state, screen),
            AppWidget::PickerEmpty => color_picker_empty::on_state(el, state, screen),
            AppWidget::PickerPalette => color_picker_palette::on_state(el, state, screen),
            AppWidget::SelectedLabel => label_color_selected::on_state(el, state, screen),
            AppWidget::SelectedBox => color_selected::on_state(el, state, screen),
            AppWidget::CandidateBox => color_candidate::on_state(el, state, screen),
            AppWidget::CandidateLabel => label_color_candidate::on_state(el, state, screen),
            AppWidget::NewLabel => label_new::on_state(el, state, screen),
            AppWidget::Size8Button => button_8::on_state(el, state, screen),
            AppWidget::Size16Button => button_16::on_state(el, state, screen),
            AppWidget::EndLabel => label_end::on_state(el, state, screen),
            AppWidget::ExitButton => button_exit::on_state(el, state, screen),
            AppWidget::SaveButton => button_save::on_state(el, state, screen),
            _ => None,
        }
    }
}

} // verus!

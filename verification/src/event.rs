//! Typed input events and their classification: raw terminal input modeled
//! as plain values, the mapping from raw keys to semantic key names, and the
//! record handed to every dispatched callback.

use vstd::prelude::*;

verus! {

/// The modifier keys active on an input event.
#[derive(Clone, Copy, Debug, PartialEq, Eq, Structural)]
pub struct Modifiers {
    pub ctrl: bool,
    pub shift: bool,
    pub alt: bool,
    pub meta: bool,
}

impl Modifiers {
    /// No modifier held.
    pub fn none() -> (m: Modifiers)
        ensures
            !m.ctrl && !m.shift && !m.alt && !m.meta,
    {
        Modifiers { ctrl: false, shift: false, alt: false, meta: false }
    }
}

/// A raw key, independent of any terminal backend.
#[derive(Clone, Copy, Debug, PartialEq, Eq, Structural)]
pub enum Key {
    Enter,
    Up,
    Down,
    Left,
    Right,
    Escape,
    Backspace,
    /// A function key; only F1 through F12 map to a semantic name.
    Function(u8),
    /// Any typed character.
    Printable(char),
    /// A key with no semantic mapping; never dispatched.
    Unsupported,
}

/// A key press with its modifiers.
#[derive(Clone, Copy, Debug, PartialEq, Eq, Structural)]
pub struct KeyInput {
    pub code: Key,
    pub mods: Modifiers,
}

/// A mouse button.
#[derive(Clone, Copy, Debug, PartialEq, Eq, Structural)]
pub enum MouseButton {
    Left,
    Right,
    Middle,
}

/// The kind of a mouse event.
#[derive(Clone, Copy, Debug, PartialEq, Eq, Structural)]
pub enum MouseKind {
    Moved,
    ButtonDown(MouseButton),
    ButtonUp(MouseButton),
    Dragged(MouseButton),
    ScrollUp,
    ScrollDown,
    OtherKind,
}

/// A mouse event with its position and modifiers.
#[derive(Clone, Copy, Debug, PartialEq, Eq, Structural)]
pub struct MouseInput {
    pub kind: MouseKind,
    pub x: u16,
    pub y: u16,
    pub mods: Modifiers,
}

/// One outcome of the input/timer race point, as plain values.
#[derive(Clone, Copy, Debug, PartialEq, Eq, Structural)]
pub enum RawInput {
    Key(KeyInput),
    Mouse(MouseInput),
    Resize(u16, u16),
    /// An event kind the engine ignores.
    Other,
    /// The input source reported a failure while polling.
    StreamFailed,
    /// The input source is exhausted.
    Closed,
}

/// The record passed to callbacks on each dispatch; constructed fresh per
/// phase and never retained.
#[derive(Debug)]
pub struct EventData {
    pub loop_count: usize,
    pub key: Option<String>,
    pub modifiers: Vec<String>,
    pub x: Option<u16>,
    pub y: Option<u16>,
}

impl EventData {
    /// The record for a loop-tick phase: only the tick counter is set.
    pub fn for_tick(loop_count: usize) -> (e: EventData)
        ensures
            e.loop_count == loop_count,
            e.key is None,
            e.modifiers@.len() == 0,
            e.x is None,
            e.y is None,
    {
        EventData { loop_count, key: None, modifiers: Vec::new(), x: None, y: None }
    }

    /// The record for a keypress phase.
    pub fn for_key(loop_count: usize, key: String, modifiers: Vec<String>) -> (e: EventData)
        ensures
            e.loop_count == loop_count,
            e.key == Some(key),
            e.modifiers == modifiers,
            e.x is None,
            e.y is None,
    {
        EventData { loop_count, key: Some(key), modifiers, x: None, y: None }
    }

    /// The record for a mouse phase.
    pub fn for_mouse(loop_count: usize, x: u16, y: u16, modifiers: Vec<String>) -> (e: EventData)
        ensures
            e.loop_count == loop_count,
            e.key is None,
            e.modifiers == modifiers,
            e.x == Some(x),
            e.y == Some(y),
    {
        EventData { loop_count, key: None, modifiers, x: Some(x), y: Some(y) }
    }
}

/// The semantic name of a function key, for F1 through F12.
pub open spec fn function_key_name(n: u8) -> Seq<char> {
    if n == 1 { "f1"@ } else if n == 2 { "f2"@ } else if n == 3 { "f3"@ }
    else if n == 4 { "f4"@ } else if n == 5 { "f5"@ } else if n == 6 { "f6"@ }
    else if n == 7 { "f7"@ } else if n == 8 { "f8"@ } else if n == 9 { "f9"@ }
    else if n == 10 { "f10"@ } else if n == 11 { "f11"@ } else { "f12"@ }
}

/// The semantic key name for a raw key: printable characters map to
/// themselves, a fixed set of named keys map to fixed strings, anything else
/// has no name and is never dispatched.
pub open spec fn semantic_key(code: Key) -> Option<Seq<char>> {
    match code {
        Key::Enter => Some("enter"@),
        Key::Up => Some("up"@),
        Key::Down => Some("down"@),
        Key::Left => Some("left"@),
        Key::Right => Some("right"@),
        Key::Escape => Some("escape"@),
        Key::Backspace => Some("delete"@),
        Key::Function(n) => if 1 <= n <= 12 {
            Some(function_key_name(n))
        } else {
            None
        },
        Key::Printable(c) => Some(seq![c]),
        Key::Unsupported => None,
    }
}

/// Maps a raw key to its semantic name.
pub fn key_map(code: &Key) -> (r: Option<String>)
    ensures
        r.deep_view() == semantic_key(*code),
{
    match code {
        Key::Enter => Some("enter".to_owned()),
        Key::Up => Some("up".to_owned()),
        Key::Down => Some("down".to_owned()),
        Key::Left => Some("left".to_owned()),
        Key::Right => Some("right".to_owned()),
        Key::Escape => Some("escape".to_owned()),
        Key::Backspace => Some("delete".to_owned()),
        Key::Function(n) => {
            if *n == 1 { Some("f1".to_owned()) } else if *n == 2 { Some("f2".to_owned()) }
            else if *n == 3 { Some("f3".to_owned()) } else if *n == 4 { Some("f4".to_owned()) }
            else if *n == 5 { Some("f5".to_owned()) } else if *n == 6 { Some("f6".to_owned()) }
            else if *n == 7 { Some("f7".to_owned()) } else if *n == 8 { Some("f8".to_owned()) }
            else if *n == 9 { Some("f9".to_owned()) } else if *n == 10 { Some("f10".to_owned()) }
            else if *n == 11 { Some("f11".to_owned()) } else if *n == 12 { Some("f12".to_owned()) }
            else { None }
        },
        Key::Printable(c) => {
            let mut chars: Vec<char> = Vec::new();
            chars.push(*c);
            proof {
                assert(chars@ =~= seq![*c]);
            }
            Some(crate::text::chars_to_string(&chars))
        },
        Key::Unsupported => None,
    }
}

/// The names of the active modifiers, in the fixed order ctrl, shift, alt,
/// meta.
pub open spec fn modifier_names(m: Modifiers) -> Seq<Seq<char>> {
    let a = if m.ctrl { seq!["ctrl"@] } else { Seq::empty() };
    let b = if m.shift { seq!["shift"@] } else { Seq::empty() };
    let c = if m.alt { seq!["alt"@] } else { Seq::empty() };
    let d = if m.meta { seq!["meta"@] } else { Seq::empty() };
    a + b + c + d
}

/// Lists the active modifiers by name.
pub fn modifiers_map(m: &Modifiers) -> (r: Vec<String>)
    ensures
        r.deep_view() == modifier_names(*m),
{
    let mut r: Vec<String> = Vec::new();
    if m.ctrl {
        r.push("ctrl".to_owned());
    }
    if m.shift {
        r.push("shift".to_owned());
    }
    if m.alt {
        r.push("alt".to_owned());
    }
    if m.meta {
        r.push("meta".to_owned());
    }
    proof {
        assert(r.deep_view() =~= modifier_names(*m));
    }
    r
}

/// Whether a key press is the interrupt combination: control and the letter
/// "c" together.
pub open spec fn is_interrupt(k: KeyInput) -> bool {
    k.code == Key::Printable('c') && k.mods.ctrl
}

/// Tests for the interrupt combination.
pub fn interrupt_key(k: &KeyInput) -> (r: bool)
    ensures
        r == is_interrupt(*k),
{
    match k.code {
        Key::Printable(c) => c == 'c' && k.mods.ctrl,
        _ => false,
    }
}

/// Whether a mouse kind triggers the move phase: only an actual move does.
pub open spec fn is_move_kind(k: MouseKind) -> bool {
    k is Moved
}

/// Whether a mouse kind triggers the click phase: only a release or a drag
/// of the primary button does.
pub open spec fn is_click_kind(k: MouseKind) -> bool {
    k == MouseKind::ButtonUp(MouseButton::Left) || k == MouseKind::Dragged(MouseButton::Left)
}

/// Tests for the move trigger.
pub fn move_trigger(k: &MouseKind) -> (r: bool)
    ensures
        r == is_move_kind(*k),
{
    match k {
        MouseKind::Moved => true,
        _ => false,
    }
}

/// Tests for the click trigger.
pub fn click_trigger(k: &MouseKind) -> (r: bool)
    ensures
        r == is_click_kind(*k),
{
    match k {
        MouseKind::ButtonUp(MouseButton::Left) => true,
        MouseKind::Dragged(MouseButton::Left) => true,
        _ => false,
    }
}

/// A mouse event triggers at most one phase: the move and click triggers are
/// mutually exclusive, and every kind besides a move, a primary-button
/// release and a primary-button drag triggers neither.
pub proof fn lemma_mouse_classification_exclusive(k: MouseKind)
    ensures
        !(is_move_kind(k) && is_click_kind(k)),
        is_move_kind(k) || is_click_kind(k) <==> (k is Moved
            || k == MouseKind::ButtonUp(MouseButton::Left)
            || k == MouseKind::Dragged(MouseButton::Left)),
{
}

/// The five dispatch kinds, the render phase aside.
#[derive(Clone, Copy, Debug, PartialEq, Eq, Structural)]
pub enum PhaseKind {
    Loop,
    Keypress,
    MouseMove,
    MouseClick,
}

/// Which interactive phase one race outcome dispatches, if any: the
/// interrupt combination without an exit predicate dispatches nothing (it
/// exits), an unmapped key dispatches nothing, a mouse event dispatches at
/// most one of the move and click phases, and everything else is ignored.
pub open spec fn input_phase(input: RawInput, has_exit_predicate: bool) -> Option<PhaseKind> {
    match input {
        RawInput::Key(k) => if !has_exit_predicate && is_interrupt(k) {
            None
        } else if semantic_key(k.code) is Some {
            Some(PhaseKind::Keypress)
        } else {
            None
        },
        RawInput::Mouse(m) => if is_move_kind(m.kind) {
            Some(PhaseKind::MouseMove)
        } else if is_click_kind(m.kind) {
            Some(PhaseKind::MouseClick)
        } else {
            None
        },
        _ => None,
    }
}

/// Whether one race outcome ends the run: the interrupt combination when no
/// exit predicate was supplied, the input source's exhaustion, or a failure
/// while polling it.
pub open spec fn input_exits(input: RawInput, has_exit_predicate: bool) -> bool {
    match input {
        RawInput::Key(k) => !has_exit_predicate && is_interrupt(k),
        RawInput::Closed => true,
        RawInput::StreamFailed => true,
        _ => false,
    }
}

/// A key event matching the interrupt combination ends the run exactly when
/// no exit predicate was supplied; with a predicate supplied the same event
/// is dispatched as an ordinary keypress.
pub proof fn lemma_interrupt_precedence(k: KeyInput)
    requires
        is_interrupt(k),
    ensures
        input_exits(RawInput::Key(k), false),
        input_phase(RawInput::Key(k), false) is None,
        !input_exits(RawInput::Key(k), true),
        input_phase(RawInput::Key(k), true) == Some(PhaseKind::Keypress),
{
    assert(semantic_key(k.code) == Some(seq!['c']));
}

} // verus!

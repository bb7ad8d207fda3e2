use rusticon::event::{
    click_trigger, interrupt_key, key_map, modifiers_map, move_trigger, EventData, Key, KeyInput,
    Modifiers, MouseButton, MouseKind,
};

fn no_mods() -> Modifiers {
    Modifiers { ctrl: false, shift: false, alt: false, meta: false }
}

#[test]
fn key_map_printable_is_itself() {
    assert_eq!(key_map(&Key::Printable('a')), Some("a".to_string()));
    assert_eq!(key_map(&Key::Printable('Z')), Some("Z".to_string()));
}

#[test]
fn key_map_named_keys() {
    assert_eq!(key_map(&Key::Enter), Some("enter".to_string()));
    assert_eq!(key_map(&Key::Up), Some("up".to_string()));
    assert_eq!(key_map(&Key::Down), Some("down".to_string()));
    assert_eq!(key_map(&Key::Left), Some("left".to_string()));
    assert_eq!(key_map(&Key::Right), Some("right".to_string()));
    assert_eq!(key_map(&Key::Escape), Some("escape".to_string()));
    assert_eq!(key_map(&Key::Backspace), Some("delete".to_string()));
}

#[test]
fn key_map_function_keys() {
    assert_eq!(key_map(&Key::Function(1)), Some("f1".to_string()));
    assert_eq!(key_map(&Key::Function(12)), Some("f12".to_string()));
    assert_eq!(key_map(&Key::Function(0)), None);
    assert_eq!(key_map(&Key::Function(13)), None);
}

#[test]
fn key_map_unsupported_is_ignored() {
    assert_eq!(key_map(&Key::Unsupported), None);
}

#[test]
fn modifiers_map_order_and_selection() {
    let m = Modifiers { ctrl: true, shift: true, alt: false, meta: true };
    assert_eq!(modifiers_map(&m), vec!["ctrl".to_string(), "shift".to_string(), "meta".to_string()]);
    assert_eq!(modifiers_map(&no_mods()), Vec::<String>::new());
}

#[test]
fn interrupt_is_ctrl_c_only() {
    let ctrl = Modifiers { ctrl: true, shift: false, alt: false, meta: false };
    assert!(interrupt_key(&KeyInput { code: Key::Printable('c'), mods: ctrl }));
    assert!(!interrupt_key(&KeyInput { code: Key::Printable('c'), mods: no_mods() }));
    assert!(!interrupt_key(&KeyInput { code: Key::Printable('d'), mods: ctrl }));
    assert!(!interrupt_key(&KeyInput { code: Key::Enter, mods: ctrl }));
}

#[test]
fn mouse_triggers_are_exclusive() {
    let kinds = [
        MouseKind::Moved,
        MouseKind::ButtonDown(MouseButton::Left),
        MouseKind::ButtonUp(MouseButton::Left),
        MouseKind::ButtonUp(MouseButton::Right),
        MouseKind::Dragged(MouseButton::Left),
        MouseKind::Dragged(MouseButton::Middle),
        MouseKind::ScrollUp,
        MouseKind::ScrollDown,
        MouseKind::OtherKind,
    ];
    for k in kinds {
        assert!(!(move_trigger(&k) && click_trigger(&k)));
    }
    assert!(move_trigger(&MouseKind::Moved));
    assert!(click_trigger(&MouseKind::ButtonUp(MouseButton::Left)));
    assert!(click_trigger(&MouseKind::Dragged(MouseButton::Left)));
    assert!(!click_trigger(&MouseKind::ButtonDown(MouseButton::Left)));
    assert!(!click_trigger(&MouseKind::ButtonUp(MouseButton::Right)));
    assert!(!move_trigger(&MouseKind::ScrollUp) && !click_trigger(&MouseKind::ScrollUp));
}

#[test]
fn event_data_constructors() {
    let t = EventData::for_tick(7);
    assert_eq!(t.loop_count, 7);
    assert!(t.key.is_none() && t.x.is_none() && t.y.is_none());
    assert!(t.modifiers.is_empty());
    let k = EventData::for_key(1, "a".to_string(), vec!["ctrl".to_string()]);
    assert_eq!(k.key, Some("a".to_string()));
    let m = EventData::for_mouse(2, 10, 20, vec![]);
    assert_eq!((m.x, m.y), (Some(10), Some(20)));
}

use rusticon::element::{Element, Elements, ScreenCmd, ScreenSize};
use rusticon::event::{
    EventData, Key, KeyInput, Modifiers, MouseButton, MouseInput, MouseKind, PhaseKind, RawInput,
};
use rusticon::listener::Listener;
use rusticon::look::Look;
use rusticon::scheduler::{run, Mode, Scheduler};

#[derive(Clone, Copy, PartialEq, Eq, Debug)]
enum TestWidget {
    Counter,
    Recorder,
    Ordered(u8),
}

#[derive(Clone, Debug, PartialEq)]
struct TestState {
    counter: u64,
    last_key: Option<String>,
    last_mods: Vec<String>,
    moves: u64,
    clicks: u64,
    order: Vec<u8>,
}

fn fresh() -> TestState {
    TestState { counter: 0, last_key: None, last_mods: vec![], moves: 0, clicks: 0, order: vec![] }
}

impl Listener<TestState> for TestWidget {
    fn state_same(a: &TestState, b: &TestState) -> bool {
        a == b
    }

    fn state_same_refl(_s: &TestState) {
    }

    fn state_same_sym(_a: &TestState, _b: &TestState) {
    }

    fn state_same_trans(_a: &TestState, _b: &TestState, _c: &TestState) {
    }

    fn state_eq(a: &TestState, b: &TestState) -> bool {
        a == b
    }

    fn state_clone(s: &TestState) -> TestState {
        s.clone()
    }

    fn on_loop(
        self,
        _el: &mut Element<Self>,
        state: &mut TestState,
        _event: &EventData,
        _screen: &ScreenSize,
    ) -> Option<ScreenCmd> {
        if self == TestWidget::Counter {
            state.counter += 1;
        }
        if let TestWidget::Ordered(id) = self {
            state.order.push(id);
        }
        None
    }

    fn on_keypress(
        self,
        _el: &mut Element<Self>,
        state: &mut TestState,
        event: &EventData,
        _screen: &ScreenSize,
    ) -> Option<ScreenCmd> {
        if self == TestWidget::Recorder {
            state.last_key = event.key.clone();
            state.last_mods = event.modifiers.clone();
        }
        None
    }

    fn on_move(
        self,
        _el: &mut Element<Self>,
        state: &mut TestState,
        _event: &EventData,
        _screen: &ScreenSize,
    ) -> Option<ScreenCmd> {
        if self == TestWidget::Recorder {
            state.moves += 1;
        }
        None
    }

    fn on_click(
        self,
        _el: &mut Element<Self>,
        state: &mut TestState,
        _event: &EventData,
        _screen: &ScreenSize,
    ) -> Option<ScreenCmd> {
        if self == TestWidget::Recorder {
            state.clicks += 1;
        }
        None
    }

    fn on_state(
        self,
        _el: &mut Element<Self>,
        _state: &TestState,
        _screen: &ScreenSize,
    ) -> Option<ScreenCmd> {
        None
    }
}

fn screen() -> ScreenSize {
    ScreenSize { cols: 100, rows: 40 }
}

fn counter_elements(n: usize) -> Elements<TestWidget> {
    let mut els: Elements<TestWidget> = Elements::new();
    for _ in 0..n {
        let mut e: Element<TestWidget> = Element::new(0, 0, Look::new());
        e.on_loop = Some(TestWidget::Counter);
        els.push(e);
    }
    els
}

fn recorder_elements() -> Elements<TestWidget> {
    let mut els: Elements<TestWidget> = Elements::new();
    let mut e: Element<TestWidget> = Element::new(0, 0, Look::new());
    e.on_keypress = Some(TestWidget::Recorder);
    e.on_move = Some(TestWidget::Recorder);
    e.on_click = Some(TestWidget::Recorder);
    els.push(e);
    els
}

type NoPred = fn(&TestState) -> bool;

#[test]
fn three_loop_callbacks_give_three_increments_per_tick() {
    let mut s: Scheduler<TestState, TestWidget> = Scheduler::new(fresh(), counter_elements(3), false);
    s.start_frame(&screen());
    let n = 5u64;
    for _ in 0..n {
        let r = s.tick(None::<&NoPred>, &screen());
        assert!(!r.exit);
        assert!(r.rendered);
    }
    assert_eq!(s.state.counter, 3 * n);
    assert_eq!(s.loop_count, n as usize);
}

#[test]
fn unchanged_state_is_never_rerendered() {
    // No element mutates the state, so after the initial frame the render
    // count stays put over any number of ticks.
    let mut els: Elements<TestWidget> = Elements::new();
    els.push(Element::new(0, 0, Look::new()));
    let mut s: Scheduler<TestState, TestWidget> = Scheduler::new(fresh(), els, false);
    s.start_frame(&screen());
    assert_eq!(s.render_count, 1);
    for _ in 0..10 {
        let r = s.tick(None::<&NoPred>, &screen());
        assert!(!r.rendered);
    }
    assert_eq!(s.render_count, 1);
}

#[test]
fn many_mutations_in_one_phase_render_once() {
    let mut s: Scheduler<TestState, TestWidget> = Scheduler::new(fresh(), counter_elements(4), false);
    s.start_frame(&screen());
    assert_eq!(s.render_count, 1);
    let r = s.tick(None::<&NoPred>, &screen());
    assert!(r.rendered);
    assert_eq!(s.render_count, 2);
    assert_eq!(s.state.counter, 4);
}

fn key_event(c: char, ctrl: bool) -> RawInput {
    RawInput::Key(KeyInput {
        code: Key::Printable(c),
        mods: Modifiers { ctrl, shift: false, alt: false, meta: false },
    })
}

#[test]
fn keypress_delivers_semantic_key() {
    let mut s: Scheduler<TestState, TestWidget> = Scheduler::new(fresh(), recorder_elements(), false);
    s.start_frame(&screen());
    let r = s.handle_input(&key_event('a', false), &screen());
    assert_eq!(r.dispatched, Some(PhaseKind::Keypress));
    assert_eq!(s.state.last_key, Some("a".to_string()));
    assert!(s.state.last_mods.is_empty());
    assert!(!r.exit);
}

#[test]
fn interrupt_without_predicate_exits_without_dispatch() {
    let mut s: Scheduler<TestState, TestWidget> = Scheduler::new(fresh(), recorder_elements(), false);
    s.start_frame(&screen());
    let r = s.handle_input(&key_event('c', true), &screen());
    assert!(r.exit);
    assert_eq!(r.dispatched, None);
    assert_eq!(s.state.last_key, None);
    assert_eq!(s.mode, Mode::Exiting);
}

#[test]
fn interrupt_with_predicate_is_an_ordinary_keypress() {
    let mut s: Scheduler<TestState, TestWidget> = Scheduler::new(fresh(), recorder_elements(), true);
    s.start_frame(&screen());
    let r = s.handle_input(&key_event('c', true), &screen());
    assert!(!r.exit);
    assert_eq!(r.dispatched, Some(PhaseKind::Keypress));
    assert_eq!(s.state.last_key, Some("c".to_string()));
    assert_eq!(s.state.last_mods, vec!["ctrl".to_string()]);
}

fn mouse(kind: MouseKind) -> RawInput {
    RawInput::Mouse(MouseInput {
        kind,
        x: 3,
        y: 4,
        mods: Modifiers { ctrl: false, shift: false, alt: false, meta: false },
    })
}

#[test]
fn mouse_moved_triggers_only_the_move_phase() {
    let mut s: Scheduler<TestState, TestWidget> = Scheduler::new(fresh(), recorder_elements(), false);
    s.start_frame(&screen());
    let r = s.handle_input(&mouse(MouseKind::Moved), &screen());
    assert_eq!(r.dispatched, Some(PhaseKind::MouseMove));
    assert_eq!((s.state.moves, s.state.clicks), (1, 0));
}

#[test]
fn primary_release_and_drag_trigger_only_the_click_phase() {
    let mut s: Scheduler<TestState, TestWidget> = Scheduler::new(fresh(), recorder_elements(), false);
    s.start_frame(&screen());
    s.handle_input(&mouse(MouseKind::ButtonUp(MouseButton::Left)), &screen());
    s.handle_input(&mouse(MouseKind::Dragged(MouseButton::Left)), &screen());
    assert_eq!((s.state.moves, s.state.clicks), (0, 2));
}

#[test]
fn other_mouse_kinds_trigger_neither_phase() {
    let mut s: Scheduler<TestState, TestWidget> = Scheduler::new(fresh(), recorder_elements(), false);
    s.start_frame(&screen());
    for k in [
        MouseKind::ButtonDown(MouseButton::Left),
        MouseKind::ButtonUp(MouseButton::Right),
        MouseKind::ScrollUp,
        MouseKind::ScrollDown,
        MouseKind::OtherKind,
    ] {
        let r = s.handle_input(&mouse(k), &screen());
        assert_eq!(r.dispatched, None);
    }
    assert_eq!((s.state.moves, s.state.clicks), (0, 0));
}

#[test]
fn run_reports_how_it_ended() {
    let pred: fn(&TestState) -> bool = |s: &TestState| s.counter >= 1;
    let by_pred = run::<TestState, TestWidget, fn(&TestState) -> bool>(
        fresh(),
        counter_elements(1),
        vec![None; 5],
        Some(&pred),
        &screen(),
    );
    assert!(by_pred.ended_by_predicate);
    assert_eq!(by_pred.state.counter, 1);
    let by_input = run::<TestState, TestWidget, NoPred>(
        fresh(),
        counter_elements(1),
        vec![],
        None,
        &screen(),
    );
    assert!(!by_input.ended_by_predicate);
}

#[test]
fn first_frame_draws_each_element_at_its_place() {
    let mut els: Elements<TestWidget> = Elements::new();
    els.push(Element::new(2, 3, Look::from_text("ab")));
    els.push(Element::new(9, 9, Look::new()));
    let mut s: Scheduler<TestState, TestWidget> = Scheduler::new(fresh(), els, false);
    let cmds = s.start_frame(&screen());
    match &cmds[1] {
        ScreenCmd::Put { x, y, rows } => {
            assert_eq!((*x, *y), (2, 3));
            assert_eq!(rows, &vec![vec!["a".to_string(), "b".to_string()]]);
        },
        _ => panic!("the first element is drawn after the clear"),
    }
    match &cmds[2] {
        ScreenCmd::Put { x, y, rows } => {
            assert_eq!((*x, *y), (9, 9));
            assert!(rows.is_empty());
        },
        _ => panic!("the second element is drawn next"),
    }
}

#[test]
fn exhausted_input_source_ends_run_with_last_state() {
    // The source reports exhaustion: the run ends as a normal termination
    // and the last state comes back; no error is surfaced anywhere.
    let outcome = run::<TestState, TestWidget, NoPred>(
        fresh(),
        counter_elements(1),
        vec![None, None],
        None,
        &screen(),
    );
    // Two timer rounds plus the final exhausted round: three ticks.
    assert_eq!(outcome.state.counter, 3);
    assert_eq!(outcome.iterations, 3);
}

#[test]
fn stream_failure_is_a_normal_exit() {
    let mut s: Scheduler<TestState, TestWidget> = Scheduler::new(fresh(), counter_elements(1), false);
    s.start_frame(&screen());
    let before = s.state.clone();
    let r = s.handle_input(&RawInput::StreamFailed, &screen());
    assert!(r.exit);
    assert_eq!(r.dispatched, None);
    assert_eq!(s.state, before);
    let last = s.finish();
    assert_eq!(last, before);
}

#[test]
fn exit_predicate_sees_the_mutated_state() {
    let pred: fn(&TestState) -> bool = |s: &TestState| s.counter >= 2;
    let mut s: Scheduler<TestState, TestWidget> = Scheduler::new(fresh(), counter_elements(1), true);
    s.start_frame(&screen());
    let r1 = s.tick(Some(&pred), &screen());
    assert!(!r1.exit);
    let r2 = s.tick(Some(&pred), &screen());
    assert!(r2.exit);
    assert_eq!(s.mode, Mode::Exiting);
    assert_eq!(s.finish().counter, 2);
}

#[test]
fn resize_and_other_events_are_ignored() {
    let mut s: Scheduler<TestState, TestWidget> = Scheduler::new(fresh(), recorder_elements(), false);
    s.start_frame(&screen());
    let r1 = s.handle_input(&RawInput::Resize(10, 10), &screen());
    let r2 = s.handle_input(&RawInput::Other, &screen());
    assert_eq!(r1.dispatched, None);
    assert_eq!(r2.dispatched, None);
    assert!(!r1.exit && !r2.exit);
}

#[test]
fn loop_callbacks_fire_in_insertion_order() {
    let mut els: Elements<TestWidget> = Elements::new();
    for id in [4u8, 1, 9] {
        let mut e: Element<TestWidget> = Element::new(0, 0, Look::new());
        e.on_loop = Some(TestWidget::Ordered(id));
        els.push(e);
    }
    let mut s: Scheduler<TestState, TestWidget> = Scheduler::new(fresh(), els, false);
    s.start_frame(&screen());
    s.tick(None::<&NoPred>, &screen());
    assert_eq!(s.state.order, vec![4, 1, 9]);
    s.tick(None::<&NoPred>, &screen());
    assert_eq!(s.state.order, vec![4, 1, 9, 4, 1, 9]);
}

#[test]
fn first_frame_clears_then_draws_every_element() {
    let mut s: Scheduler<TestState, TestWidget> = Scheduler::new(fresh(), counter_elements(3), false);
    let cmds = s.start_frame(&screen());
    assert!(cmds.len() >= 4);
    assert!(matches!(cmds[0], ScreenCmd::ClearAll));
    for c in &cmds[1..4] {
        assert!(matches!(c, ScreenCmd::Put { .. }));
    }
    assert_eq!(s.render_count, 1);
}

#[test]
fn unmapped_key_is_not_dispatched() {
    let mut s: Scheduler<TestState, TestWidget> = Scheduler::new(fresh(), recorder_elements(), false);
    s.start_frame(&screen());
    let r = s.handle_input(
        &RawInput::Key(KeyInput {
            code: Key::Unsupported,
            mods: Modifiers { ctrl: false, shift: false, alt: false, meta: false },
        }),
        &screen(),
    );
    assert_eq!(r.dispatched, None);
    assert_eq!(s.state.last_key, None);
}

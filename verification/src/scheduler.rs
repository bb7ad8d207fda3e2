//! The scheduler: the state machine that owns the one application-state
//! value and the element collection, dispatches each classified race
//! outcome to the matching phase in collection order, and performs the
//! change-detection-and-redraw protocol after every phase.

use vstd::prelude::*;

use crate::element::{Elements, ScreenCmd, ScreenSize};
use crate::event::{
    click_trigger, input_exits, input_phase, interrupt_key, key_map, modifiers_map, move_trigger,
    EventData, PhaseKind, RawInput,
};
use crate::listener::Listener;

verus! {

/// The default tick rate, in milliseconds, when a run names none.
pub const DEFAULT_TICK_MILLIS: u64 = 33;

/// The scheduler's lifecycle state.
#[derive(Clone, Copy, Debug, PartialEq, Eq, Structural)]
pub enum Mode {
    Initializing,
    Running,
    Exiting,
    Terminated,
}

/// What one dispatch phase reported back: whether the render phase fanned
/// out, whether the run is over, which phase was dispatched, the screen
/// commands the callbacks asked for, and the record they were handed.
#[derive(Debug)]
pub struct PhaseReport {
    pub rendered: bool,
    pub exit: bool,
    pub dispatched: Option<PhaseKind>,
    pub commands: Vec<ScreenCmd>,
    pub event: Option<EventData>,
}

/// Fans one event out to every element that registered the phase, in
/// collection order, collecting the screen commands the callbacks ask for.
fn dispatch_interactive<S, W: Listener<S>>(
    phase: PhaseKind,
    elements: &mut Elements<W>,
    state: &mut S,
    event: &EventData,
    screen: &ScreenSize,
    out: &mut Vec<ScreenCmd>,
)
    ensures
        final(elements).items@.len() == old(elements).items@.len(),
        final(out)@.len() >= old(out)@.len(),
        forall|k: int| 0 <= k < old(out)@.len() ==> final(out)@[k] == old(out)@[k],
{
    let n = elements.items.len();
    let mut i: usize = 0;
    while i < n
        invariant
            i <= n,
            elements.items@.len() == n,
            out@.len() >= old(out)@.len(),
            forall|k: int| 0 <= k < old(out)@.len() ==> out@[k] == old(out)@[k],
        decreases n - i,
    {
        let tag: Option<W> = match phase {
            PhaseKind::Loop => elements.items[i].on_loop,
            PhaseKind::Keypress => elements.items[i].on_keypress,
            PhaseKind::MouseMove => elements.items[i].on_move,
            PhaseKind::MouseClick => elements.items[i].on_click,
        };
        if let Some(w) = tag {
            let cmd = match phase {
                PhaseKind::Loop => w.on_loop(&mut elements.items[i], state, event, screen),
                PhaseKind::Keypress => w.on_keypress(&mut elements.items[i], state, event, screen),
                PhaseKind::MouseMove => w.on_move(&mut elements.items[i], state, event, screen),
                PhaseKind::MouseClick => w.on_click(&mut elements.items[i], state, event, screen),
            };
            if let Some(c) = cmd {
                out.push(c);
            }
        }
        i = i + 1;
    }
}

/// Fans the render phase out once: every element that registered it sees
/// the state read-only, in collection order.
fn render_pass<S, W: Listener<S>>(
    elements: &mut Elements<W>,
    state: &S,
    screen: &ScreenSize,
    out: &mut Vec<ScreenCmd>,
)
    ensures
        final(elements).items@.len() == old(elements).items@.len(),
        final(out)@.len() >= old(out)@.len(),
        forall|k: int| 0 <= k < old(out)@.len() ==> final(out)@[k] == old(out)@[k],
{
    let n = elements.items.len();
    let mut i: usize = 0;
    while i < n
        invariant
            i <= n,
            elements.items@.len() == n,
            out@.len() >= old(out)@.len(),
            forall|k: int| 0 <= k < old(out)@.len() ==> out@[k] == old(out)@[k],
        decreases n - i,
    {
        let tag: Option<W> = elements.items[i].on_state;
        if let Some(w) = tag {
            let cmd = w.on_state(&mut elements.items[i], state, screen);
            if let Some(c) = cmd {
                out.push(c);
            }
        }
        i = i + 1;
    }
}

/// The engine's core: owns the state and the elements for the duration of a
/// run and drives the dispatch protocol one race outcome at a time. The
/// caller performs the race, hands each outcome in, and carries out the
/// returned screen commands; nothing here touches the terminal.
pub struct Scheduler<S, W: Listener<S>> {
    pub state: S,
    pub elements: Elements<W>,
    pub loop_count: usize,
    pub mode: Mode,
    pub has_exit_predicate: bool,
    pub render_count: usize,
}

impl<S, W: Listener<S>> Scheduler<S, W> {
    /// Takes ownership of the initial state and the composed elements.
    pub fn new(state: S, elements: Elements<W>, has_exit_predicate: bool) -> (s: Scheduler<S, W>)
        ensures
            s.state == state,
            s.elements == elements,
            s.loop_count == 0,
            s.mode is Initializing,
            s.has_exit_predicate == has_exit_predicate,
            s.render_count == 0,
    {
        Scheduler { state, elements, loop_count: 0, mode: Mode::Initializing, has_exit_predicate, render_count: 0 }
    }

    /// The one-time first frame: clear the screen, draw every element's
    /// current grid, then fan the render phase out once over the initial
    /// state, so the first frame exists before any input.
    pub fn start_frame(&mut self, screen: &ScreenSize) -> (cmds: Vec<ScreenCmd>)
        requires
            old(self).mode is Initializing,
        ensures
            final(self).mode is Running,
            final(self).state == old(self).state,
            final(self).loop_count == old(self).loop_count,
            final(self).has_exit_predicate == old(self).has_exit_predicate,
            final(self).elements.items@.len() == old(self).elements.items@.len(),
            final(self).render_count == 1,
            cmds@.len() >= 1 + old(self).elements.items@.len(),
            cmds@[0] is ClearAll,
            forall|i: int| 0 <= i < old(self).elements.items@.len() ==> ((#[trigger] cmds@[1
                + i]) matches ScreenCmd::Put { x, y, rows } && x == old(self).elements.items@[i].x
                && y == old(self).elements.items@[i].y && rows.deep_view() == old(
                self,
            ).elements.items@[i].look@),
    {
        let mut cmds: Vec<ScreenCmd> = Vec::new();
        cmds.push(ScreenCmd::ClearAll);
        let n = self.elements.items.len();
        let mut i: usize = 0;
        while i < n
            invariant
                i <= n,
                self.elements.items@ == old(self).elements.items@,
                self.elements.items@.len() == n,
                cmds@.len() == 1 + i,
                cmds@[0] is ClearAll,
                forall|k: int| 0 <= k < i ==> ((#[trigger] cmds@[1 + k]) matches ScreenCmd::Put {
                    x, y, rows } && x == old(self).elements.items@[k].x && y == old(
                    self,
                ).elements.items@[k].y && rows.deep_view() == old(self).elements.items@[k].look@),
            decreases n - i,
        {
            let cmd = self.elements.items[i].draw_cmd();
            cmds.push(cmd);
            i = i + 1;
        }
        render_pass(&mut self.elements, &self.state, screen, &mut cmds);
        self.mode = Mode::Running;
        self.render_count = 1;
        cmds
    }

    /// Snapshot, dispatch one interactive phase, compare, and redraw
    /// exactly when the state changed: however many elements mutated the
    /// state during the phase, the render phase fans out once when the
    /// dispatched state differs from the snapshot and not at all when it
    /// does not.
    fn run_phase(&mut self, phase: PhaseKind, event: EventData, screen: &ScreenSize) -> (r: PhaseReport)
        requires
            old(self).mode is Running,
        ensures
            final(self).mode == old(self).mode,
            final(self).loop_count == old(self).loop_count,
            final(self).has_exit_predicate == old(self).has_exit_predicate,
            final(self).elements.items@.len() == old(self).elements.items@.len(),
            r.rendered == !W::state_same(&final(self).state, &old(self).state),
            r.rendered && old(self).render_count < usize::MAX ==> final(self).render_count
                == old(self).render_count + 1,
            !r.rendered ==> final(self).render_count == old(self).render_count,
            final(self).render_count >= old(self).render_count,
            !r.exit,
            r.dispatched == Some(phase),
            r.event == Some(event),
    {
        let ghost prior = self.state;
        let snapshot = W::state_clone(&self.state);
        let mut cmds: Vec<ScreenCmd> = Vec::new();
        dispatch_interactive(phase, &mut self.elements, &mut self.state, &event, screen, &mut cmds);
        let changed = !W::state_eq(&self.state, &snapshot);
        proof {
            if W::state_same(&self.state, &snapshot) {
                W::state_same_trans(&self.state, &snapshot, &prior);
            } else if W::state_same(&self.state, &prior) {
                W::state_same_sym(&snapshot, &prior);
                W::state_same_trans(&self.state, &prior, &snapshot);
                assert(false);
            }
        }
        if changed {
            render_pass(&mut self.elements, &self.state, screen, &mut cmds);
            self.render_count = self.render_count.saturating_add(1);
        }
        PhaseReport { rendered: changed, exit: false, dispatched: Some(phase), commands: cmds, event: Some(event) }
    }

    /// One loop-tick phase: dispatch the tick, evaluate the exit predicate
    /// against the possibly mutated state, redraw exactly when the state
    /// changed, and advance the tick counter. Without a predicate the tick
    /// never ends the run.
    pub fn tick<F: Fn(&S) -> bool>(&mut self, alt_exit: Option<&F>, screen: &ScreenSize) -> (r: PhaseReport)
        requires
            old(self).mode is Running,
            (alt_exit is Some) == old(self).has_exit_predicate,
            alt_exit matches Some(f) ==> forall|s: &S| #[trigger] f.requires((s,)),
        ensures
            final(self).has_exit_predicate == old(self).has_exit_predicate,
            final(self).elements.items@.len() == old(self).elements.items@.len(),
            r.rendered == !W::state_same(&final(self).state, &old(self).state),
            r.rendered && old(self).render_count < usize::MAX ==> final(self).render_count
                == old(self).render_count + 1,
            !r.rendered ==> final(self).render_count == old(self).render_count,
            final(self).render_count >= old(self).render_count,
            old(self).loop_count < usize::MAX ==> final(self).loop_count == old(self).loop_count
                + 1,
            alt_exit is None ==> final(self).mode is Running && !r.exit,
            r.exit == (final(self).mode is Exiting),
            !r.exit ==> final(self).mode is Running,
            alt_exit matches Some(f) ==> call_ensures(f, (&final(self).state,), r.exit),
            r.dispatched == Some(PhaseKind::Loop),
            (r.event matches Some(e) && e.loop_count == old(self).loop_count && e.key is None
                && e.modifiers@.len() == 0 && e.x is None && e.y is None),
    {
        let event = EventData::for_tick(self.loop_count);
        let r = self.run_phase(PhaseKind::Loop, event, screen);
        let mut exit = false;
        if let Some(f) = alt_exit {
            let verdict = f(&self.state);
            if verdict {
                self.mode = Mode::Exiting;
            }
            exit = verdict;
        }
        self.loop_count = self.loop_count.saturating_add(1);
        PhaseReport { exit, ..r }
    }

    /// One classified input: the interrupt combination without a predicate,
    /// the source's exhaustion and a polling failure end the run without
    /// dispatching; a mapped key dispatches the keypress phase with the
    /// semantic key name and the active modifier names; a mouse event
    /// dispatches at most one of the move and click phases with the cursor
    /// position; everything else is ignored. After a dispatched phase the
    /// render phase fans out exactly when the state changed.
    pub fn handle_input(&mut self, input: &RawInput, screen: &ScreenSize) -> (r: PhaseReport)
        requires
            old(self).mode is Running,
        ensures
            final(self).has_exit_predicate == old(self).has_exit_predicate,
            final(self).loop_count == old(self).loop_count,
            final(self).elements.items@.len() == old(self).elements.items@.len(),
            r.rendered == !W::state_same(&final(self).state, &old(self).state),
            r.rendered && old(self).render_count < usize::MAX ==> final(self).render_count
                == old(self).render_count + 1,
            !r.rendered ==> final(self).render_count == old(self).render_count,
            final(self).render_count >= old(self).render_count,
            r.dispatched == input_phase(*input, old(self).has_exit_predicate),
            (final(self).mode is Exiting) == input_exits(*input, old(self).has_exit_predicate),
            r.exit == (final(self).mode is Exiting),
            !r.exit ==> final(self).mode is Running,
            input_exits(*input, old(self).has_exit_predicate) ==> final(self).state
                == old(self).state && !r.rendered,
            r.dispatched is None ==> final(self).state == old(self).state && !r.rendered,
            *input matches RawInput::Key(k) ==> (r.dispatched == Some(PhaseKind::Keypress) ==> (
                r.event matches Some(e) && e.loop_count == old(self).loop_count
                && e.key.deep_view() == crate::event::semantic_key(k.code)
                && e.modifiers.deep_view() == crate::event::modifier_names(k.mods)
                && e.x is None && e.y is None)),
            *input matches RawInput::Mouse(m) ==> (r.dispatched is Some ==> (
                r.event matches Some(e) && e.loop_count == old(self).loop_count && e.key is None
                && e.modifiers.deep_view() == crate::event::modifier_names(m.mods)
                && e.x == Some(m.x) && e.y == Some(m.y))),
    {
        match input {
            RawInput::Key(k) => {
                if !self.has_exit_predicate && interrupt_key(k) {
                    self.mode = Mode::Exiting;
                    proof {
                        W::state_same_refl(&self.state);
                    }
                    PhaseReport { rendered: false, exit: true, dispatched: None, commands: Vec::new(), event: None }
                } else {
                    match key_map(&k.code) {
                        Some(name) => {
                            let mods = modifiers_map(&k.mods);
                            let event = EventData::for_key(self.loop_count, name, mods);
                            let r = self.run_phase(PhaseKind::Keypress, event, screen);
                            r
                        },
                        None => {
                            proof {
                                W::state_same_refl(&self.state);
                            }
                            PhaseReport { rendered: false, exit: false, dispatched: None, commands: Vec::new(), event: None }
                        },
                    }
                }
            },
            RawInput::Mouse(m) => {
                if move_trigger(&m.kind) {
                    let mods = modifiers_map(&m.mods);
                    let event = EventData::for_mouse(self.loop_count, m.x, m.y, mods);
                    self.run_phase(PhaseKind::MouseMove, event, screen)
                } else if click_trigger(&m.kind) {
                    let mods = modifiers_map(&m.mods);
                    let event = EventData::for_mouse(self.loop_count, m.x, m.y, mods);
                    self.run_phase(PhaseKind::MouseClick, event, screen)
                } else {
                    proof {
                        W::state_same_refl(&self.state);
                    }
                    PhaseReport { rendered: false, exit: false, dispatched: None, commands: Vec::new(), event: None }
                }
            },
            RawInput::Resize(_, _) | RawInput::Other => {
                proof {
                    W::state_same_refl(&self.state);
                }
                PhaseReport { rendered: false, exit: false, dispatched: None, commands: Vec::new(), event: None }
            },
            RawInput::Closed | RawInput::StreamFailed => {
                self.mode = Mode::Exiting;
                proof {
                    W::state_same_refl(&self.state);
                }
                PhaseReport { rendered: false, exit: true, dispatched: None, commands: Vec::new(), event: None }
            },
        }
    }

    /// Hands the final state back by value once the run is over.
    pub fn finish(self) -> (s: S)
        requires
            self.mode is Exiting,
        ensures
            s == self.state,
    {
        self.state
    }
}

/// What a whole run produced: the final state by value, every screen
/// command in the order it was asked for, how many times the render phase
/// fanned out, how many loop iterations ran, and whether the exit predicate
/// (rather than the input) ended the run.
pub struct RunOutcome<S> {
    pub state: S,
    pub commands: Vec<ScreenCmd>,
    pub renders: usize,
    pub iterations: usize,
    pub ended_by_predicate: bool,
}

/// Drives a whole run over a finite sequence of race outcomes: the first
/// frame, then per iteration one loop-tick phase, the exit-predicate check,
/// and one race outcome — an input event, or nothing when the timer elapsed
/// first. When the outcomes run out the input source counts as exhausted,
/// which ends the run normally: the last state is returned and no error is
/// surfaced. Each iteration redraws exactly when its phase changed the
/// state.
pub fn run<S, W: Listener<S>, F: Fn(&S) -> bool>(
    state: S,
    elements: Elements<W>,
    inputs: Vec<Option<RawInput>>,
    alt_exit: Option<&F>,
    screen: &ScreenSize,
) -> (r: RunOutcome<S>)
    requires
        alt_exit matches Some(f) ==> forall|s: &S| #[trigger] f.requires((s,)),
    ensures
        1 <= r.iterations <= inputs@.len() + 1,
        r.renders >= 1,
        r.commands@.len() >= 1 + elements.items@.len(),
        r.commands@[0] is ClearAll,
        forall|i: int| 0 <= i < elements.items@.len() ==> ((#[trigger] r.commands@[1
            + i]) matches ScreenCmd::Put { x, y, rows } && x == elements.items@[i].x && y
            == elements.items@[i].y && rows.deep_view() == elements.items@[i].look@),
        alt_exit matches Some(f) ==> call_ensures(f, (&r.state,), r.ended_by_predicate),
{
    let ghost els0 = elements.items@;
    let mut sched: Scheduler<S, W> = Scheduler::new(state, elements, alt_exit.is_some());
    let mut commands = sched.start_frame(screen);
    let mut idx: usize = 0;
    let mut iterations: usize = 0;
    let mut ended_by_predicate = false;
    loop
        invariant_except_break
            sched.mode is Running,
            iterations <= idx,
            !ended_by_predicate,
        invariant
            idx <= inputs@.len(),
            sched.render_count >= 1,
            commands@.len() >= 1 + els0.len(),
            commands@[0] is ClearAll,
            forall|i: int| 0 <= i < els0.len() ==> ((#[trigger] commands@[1
                + i]) matches ScreenCmd::Put { x, y, rows } && x == els0[i].x && y == els0[i].y
                && rows.deep_view() == els0[i].look@),
            sched.has_exit_predicate == (alt_exit is Some),
            alt_exit matches Some(f) ==> forall|s: &S| #[trigger] f.requires((s,)),
        ensures
            sched.mode is Exiting,
            1 <= iterations <= idx + 1,
            alt_exit matches Some(f) ==> call_ensures(f, (&sched.state,), ended_by_predicate),
        decreases inputs@.len() - idx,
    {
        let t = sched.tick(alt_exit, screen);
        if iterations < usize::MAX {
            iterations = iterations + 1;
        }
        let mut tc = t.commands;
        commands.append(&mut tc);
        if t.exit {
            ended_by_predicate = alt_exit.is_some();
            break;
        }
        if idx == inputs.len() {
            let h = sched.handle_input(&RawInput::Closed, screen);
            let mut hc = h.commands;
            commands.append(&mut hc);
            break;
        }
        let entry = inputs[idx];
        idx = idx + 1;
        if let Some(raw) = entry {
            let h = sched.handle_input(&raw, screen);
            let mut hc = h.commands;
            commands.append(&mut hc);
            if h.exit {
                break;
            }
        }
    }
    let renders = sched.render_count;
    let final_state = sched.finish();
    RunOutcome { state: final_state, commands, renders, iterations, ended_by_predicate }
}

} // verus!

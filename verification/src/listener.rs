//! The per-phase callbacks of the elements, aggregated by tag. A widget tag
//! implementing this trait stands for the callbacks of every element that
//! carries it; the scheduler fans one event out to every element whose tag
//! registered the matching phase, in collection order.

use vstd::prelude::*;

use crate::element::{Element, ScreenCmd, ScreenSize};
use crate::event::EventData;

verus! {

/// The five phase callbacks over a state type, plus the structural equality
/// and duplication the scheduler's change detection rests on.
///
/// An interactive callback may mutate its element and the state and may ask
/// for one screen command; the render callback sees the state read-only.
pub trait Listener<S>: Sized + Copy {
    /// What it means for two states to be the same; the scheduler redraws
    /// exactly when this fails between a snapshot and the dispatched state.
    spec fn state_same(a: &S, b: &S) -> bool;

    /// Sameness holds of a state and itself.
    proof fn state_same_refl(s: &S)
        ensures
            Self::state_same(s, s),
    ;

    /// Sameness is symmetric.
    proof fn state_same_sym(a: &S, b: &S)
        requires
            Self::state_same(a, b),
        ensures
            Self::state_same(b, a),
    ;

    /// Sameness is transitive.
    proof fn state_same_trans(a: &S, b: &S, c: &S)
        requires
            Self::state_same(a, b),
            Self::state_same(b, c),
        ensures
            Self::state_same(a, c),
    ;

    /// Structural comparison of two states.
    fn state_eq(a: &S, b: &S) -> (r: bool)
        ensures
            r == Self::state_same(a, b),
    ;

    /// Snapshot of a state by value.
    fn state_clone(s: &S) -> (r: S)
        ensures
            Self::state_same(&r, s),
    ;

    /// The loop-tick phase callback.
    fn on_loop(self, el: &mut Element<Self>, state: &mut S, event: &EventData, screen: &ScreenSize) -> (cmd: Option<ScreenCmd>);

    /// The keypress phase callback.
    fn on_keypress(self, el: &mut Element<Self>, state: &mut S, event: &EventData, screen: &ScreenSize) -> (cmd: Option<ScreenCmd>);

    /// The mouse-move phase callback.
    fn on_move(self, el: &mut Element<Self>, state: &mut S, event: &EventData, screen: &ScreenSize) -> (cmd: Option<ScreenCmd>);

    /// The mouse-click phase callback.
    fn on_click(self, el: &mut Element<Self>, state: &mut S, event: &EventData, screen: &ScreenSize) -> (cmd: Option<ScreenCmd>);

    /// The render phase callback: reads the state, may reposition and
    /// restyle its element, and asks for the element's redraw.
    fn on_state(self, el: &mut Element<Self>, state: &S, screen: &ScreenSize) -> (cmd: Option<ScreenCmd>);
}

} // verus!

//! The terminal lifecycle: scoped acquisition and guaranteed release. The
//! machine here decides, for every way the running state can end — normal
//! completion, a failed setup, or a callback failing abnormally — that the
//! release step runs exactly once before anything is returned or re-raised.
//! Whoever owns the terminal performs the steps; this machine orders them.

use vstd::prelude::*;

verus! {

/// One terminal control operation.
#[derive(Clone, Copy, Debug, PartialEq, Eq, Structural)]
pub enum TermOp {
    EnableRaw,
    HideCursor,
    MoveTopLeft,
    EnableMouse,
    ResetColor,
    ShowCursor,
    ClearAll,
    DisableMouse,
    DisableRaw,
}

/// The acquire step: enable raw input mode, hide the cursor, reset it, and
/// enable mouse reporting, in that order.
pub fn acquire_sequence() -> (r: Vec<TermOp>)
    ensures
        r@ == seq![TermOp::EnableRaw, TermOp::HideCursor, TermOp::MoveTopLeft, TermOp::EnableMouse],
{
    let mut r: Vec<TermOp> = Vec::new();
    r.push(TermOp::EnableRaw);
    r.push(TermOp::HideCursor);
    r.push(TermOp::MoveTopLeft);
    r.push(TermOp::EnableMouse);
    proof {
        assert(r@ =~= seq![
            TermOp::EnableRaw, TermOp::HideCursor, TermOp::MoveTopLeft, TermOp::EnableMouse,
        ]);
    }
    r
}

/// The release step: restore the default color, show the cursor, clear the
/// screen, reset the cursor, disable mouse reporting, and leave raw mode,
/// in that order.
pub fn release_sequence() -> (r: Vec<TermOp>)
    ensures
        r@ == seq![
            TermOp::ResetColor, TermOp::ShowCursor, TermOp::ClearAll, TermOp::MoveTopLeft,
            TermOp::DisableMouse, TermOp::DisableRaw,
        ],
{
    let mut r: Vec<TermOp> = Vec::new();
    r.push(TermOp::ResetColor);
    r.push(TermOp::ShowCursor);
    r.push(TermOp::ClearAll);
    r.push(TermOp::MoveTopLeft);
    r.push(TermOp::DisableMouse);
    r.push(TermOp::DisableRaw);
    proof {
        assert(r@ =~= seq![
            TermOp::ResetColor, TermOp::ShowCursor, TermOp::ClearAll, TermOp::MoveTopLeft,
            TermOp::DisableMouse, TermOp::DisableRaw,
        ]);
    }
    r
}

/// Why a run left its running state.
#[derive(Clone, Copy, Debug, PartialEq, Eq, Structural)]
pub enum Cause {
    /// The run ended normally: by the exit predicate, the interrupt
    /// combination, or the input source's exhaustion.
    Completed,
    /// The terminal could not be put into the required mode.
    SetupFailure,
    /// A registered callback failed abnormally.
    CallbackFailure,
}

/// Where a run stands in its lifecycle.
#[derive(Clone, Copy, Debug, PartialEq, Eq, Structural)]
pub enum RunPhase {
    /// The acquire step is in progress.
    Setup,
    /// The run's iterations are in progress.
    Active,
    /// The run is over for the recorded cause; the release step is owed,
    /// and nothing may be returned or re-raised before it.
    Releasing(Cause),
    /// The release step has run; the run returns its state, or re-raises
    /// the recorded failure.
    Finished(Cause),
}

/// The lifecycle manager: a run's driver reports what happened, and this
/// machine says where the run stands; its transitions make the release step
/// run exactly once on every path out of a run.
pub struct Lifecycle {
    pub phase: RunPhase,
}

impl Lifecycle {
    /// A run starts with its setup.
    pub fn new() -> (l: Lifecycle)
        ensures
            l.phase is Setup,
    {
        Lifecycle { phase: RunPhase::Setup }
    }

    /// The acquire step finished: the run goes live, or — when the terminal
    /// could not be acquired — straight to its release, never to a return.
    pub fn setup_done(&mut self, ok: bool)
        requires
            old(self).phase is Setup,
        ensures
            ok ==> final(self).phase is Active,
            !ok ==> final(self).phase == RunPhase::Releasing(Cause::SetupFailure),
    {
        if ok {
            self.phase = RunPhase::Active;
        } else {
            self.phase = RunPhase::Releasing(Cause::SetupFailure);
        }
    }

    /// One iteration finished without failing: the run stays live, or ends
    /// normally when the iteration asked to exit.
    pub fn iteration_done(&mut self, exit: bool)
        requires
            old(self).phase is Active,
        ensures
            exit ==> final(self).phase == RunPhase::Releasing(Cause::Completed),
            !exit ==> final(self).phase is Active,
    {
        if exit {
            self.phase = RunPhase::Releasing(Cause::Completed);
        }
    }

    /// A callback failed abnormally mid-run: the release step comes first;
    /// only after it may the failure continue to the run's caller.
    pub fn iteration_failed(&mut self)
        requires
            old(self).phase is Active,
        ensures
            final(self).phase == RunPhase::Releasing(Cause::CallbackFailure),
    {
        self.phase = RunPhase::Releasing(Cause::CallbackFailure);
    }

    /// The release step ran; the run may now conclude, with the cause it
    /// was owed.
    pub fn release_done(&mut self)
        requires
            old(self).phase is Releasing,
        ensures
            final(self).phase == RunPhase::Finished(old(self).phase->Releasing_0),
    {
        let cause = match self.phase {
            RunPhase::Releasing(c) => c,
            _ => Cause::Completed,
        };
        self.phase = RunPhase::Finished(cause);
    }

    /// Whether the run, now concluded, re-raises a callback failure.
    pub fn propagates_failure(&self) -> (r: bool)
        requires
            self.phase is Finished,
        ensures
            r == (self.phase == RunPhase::Finished(Cause::CallbackFailure)),
    {
        match self.phase {
            RunPhase::Finished(Cause::CallbackFailure) => true,
            _ => false,
        }
    }
}

/// One step of the lifecycle relation: every way `phase` may move in one
/// report.
pub open spec fn lifecycle_step(pre: RunPhase, post: RunPhase) -> bool {
    ||| (pre is Setup && post is Active)
    ||| (pre is Setup && post == RunPhase::Releasing(Cause::SetupFailure))
    ||| (pre is Active && post is Active)
    ||| (pre is Active && post == RunPhase::Releasing(Cause::Completed))
    ||| (pre is Active && post == RunPhase::Releasing(Cause::CallbackFailure))
    ||| (pre matches RunPhase::Releasing(c) && post == RunPhase::Finished(c))
}

/// A trace of lifecycle phases a run went through, from its start.
pub open spec fn valid_trace(t: Seq<RunPhase>) -> bool {
    &&& t.len() > 0
    &&& t[0] is Setup
    &&& forall|i: int| 0 <= i < t.len() - 1 ==> lifecycle_step(#[trigger] t[i], t[i + 1])
}

/// Guaranteed teardown: on every run that concluded — in particular one a
/// callback failure ends — the release step was owed and performed, exactly
/// once, before the conclusion: the trace reaches Finished only from
/// Releasing with the same cause, and holds no other Finished phase.
pub proof fn lemma_release_precedes_finish(t: Seq<RunPhase>, c: Cause)
    requires
        valid_trace(t),
        t.last() == RunPhase::Finished(c),
    ensures
        t.len() >= 2,
        t[t.len() - 2] == RunPhase::Releasing(c),
        forall|i: int| 0 <= i < t.len() - 1 ==> !(#[trigger] t[i] is Finished),
{
    assert(t.len() >= 2) by {
        assert(t[0] is Setup);
    }
    assert(lifecycle_step(t[t.len() - 2], t[t.len() - 1]));
    lemma_finished_is_terminal(t);
}

/// No phase before the last is Finished: the machine never leaves Finished,
/// so a trace holds at most one Finished phase, at its end.
proof fn lemma_finished_is_terminal(t: Seq<RunPhase>)
    requires
        valid_trace(t),
    ensures
        forall|i: int| 0 <= i < t.len() - 1 ==> !(#[trigger] t[i] is Finished),
{
    assert forall|i: int| 0 <= i < t.len() - 1 implies !(#[trigger] t[i] is Finished) by {
        if t[i] is Finished {
            assert(lifecycle_step(t[i], t[i + 1]));
        }
    }
}

} // verus!

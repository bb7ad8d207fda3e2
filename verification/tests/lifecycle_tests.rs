use rusticon::lifecycle::{
    acquire_sequence, release_sequence, Cause, Lifecycle, RunPhase, TermOp,
};

#[test]
fn acquire_and_release_orders_are_fixed() {
    assert_eq!(
        acquire_sequence(),
        vec![TermOp::EnableRaw, TermOp::HideCursor, TermOp::MoveTopLeft, TermOp::EnableMouse]
    );
    assert_eq!(
        release_sequence(),
        vec![
            TermOp::ResetColor,
            TermOp::ShowCursor,
            TermOp::ClearAll,
            TermOp::MoveTopLeft,
            TermOp::DisableMouse,
            TermOp::DisableRaw,
        ]
    );
}

#[test]
fn normal_run_releases_once_then_returns() {
    let mut l = Lifecycle::new();
    assert_eq!(l.phase, RunPhase::Setup);
    l.setup_done(true);
    assert_eq!(l.phase, RunPhase::Active);
    l.iteration_done(false);
    assert_eq!(l.phase, RunPhase::Active);
    l.iteration_done(true);
    assert_eq!(l.phase, RunPhase::Releasing(Cause::Completed));
    l.release_done();
    assert_eq!(l.phase, RunPhase::Finished(Cause::Completed));
    assert!(!l.propagates_failure());
}

#[test]
fn callback_failure_releases_before_propagating() {
    // A failing callback: the lifecycle demands the release step before the
    // failure may continue to the caller.
    let mut l = Lifecycle::new();
    l.setup_done(true);
    l.iteration_failed();
    assert_eq!(l.phase, RunPhase::Releasing(Cause::CallbackFailure));
    // Only after the release step does the run conclude, and then it
    // re-raises the failure.
    l.release_done();
    assert_eq!(l.phase, RunPhase::Finished(Cause::CallbackFailure));
    assert!(l.propagates_failure());
}

#[test]
fn setup_failure_also_releases_first() {
    let mut l = Lifecycle::new();
    l.setup_done(false);
    assert_eq!(l.phase, RunPhase::Releasing(Cause::SetupFailure));
    l.release_done();
    assert_eq!(l.phase, RunPhase::Finished(Cause::SetupFailure));
    assert!(!l.propagates_failure());
}

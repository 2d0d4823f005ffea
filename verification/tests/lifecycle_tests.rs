use main_dispatch::lifecycle::{teardown_plan, Lifecycle, Phase, QuitOutcome, TeardownStep};

#[test]
fn lifecycle_starts_running() {
    let state = Lifecycle::new();
    assert_eq!(state.phase(), Phase::Running);
    assert!(!state.is_quitting());
}

#[test]
fn first_quit_proceeds() {
    let mut state = Lifecycle::new();
    assert_eq!(state.quit(), QuitOutcome::Proceed);
    assert_eq!(state.phase(), Phase::Quitting);
    assert!(state.is_quitting());
}

#[test]
fn quit_during_teardown_is_contended() {
    let mut state = Lifecycle::new();
    assert_eq!(state.quit(), QuitOutcome::Proceed);
    assert_eq!(state.quit(), QuitOutcome::Contended);
    assert_eq!(state.quit(), QuitOutcome::Contended);
    assert_eq!(state.phase(), Phase::Quitting);
}

#[test]
fn quit_after_teardown_is_noop() {
    let mut state = Lifecycle::new();
    assert_eq!(state.quit(), QuitOutcome::Proceed);
    state.teardown_done();
    assert_eq!(state.quit(), QuitOutcome::AlreadyQuitting);
    assert_eq!(state.quit(), QuitOutcome::AlreadyQuitting);
    assert_eq!(state.phase(), Phase::Quitting);
}

#[test]
fn two_quits_start_one_teardown() {
    let mut state = Lifecycle::new();
    let mut close_broadcasts = 0;
    let mut stop_requests = 0;
    for _ in 0..2 {
        if state.quit() == QuitOutcome::Proceed {
            for step in teardown_plan(4) {
                match step {
                    TeardownStep::CloseWindow(_) => {}
                    TeardownStep::StopLoop => stop_requests += 1,
                }
            }
            close_broadcasts += 1;
            state.teardown_done();
        }
    }
    assert_eq!(close_broadcasts, 1);
    assert_eq!(stop_requests, 1);
}

#[test]
fn loop_exit_terminates() {
    let mut state = Lifecycle::new();
    state.quit();
    state.teardown_done();
    state.loop_exited();
    assert_eq!(state.phase(), Phase::Terminated);
    assert!(state.is_quitting());
    assert_eq!(state.quit(), QuitOutcome::AlreadyQuitting);
    assert_eq!(state.phase(), Phase::Terminated);
}

#[test]
fn loop_exit_releases_hold() {
    let mut state = Lifecycle::new();
    assert_eq!(state.quit(), QuitOutcome::Proceed);
    state.loop_exited();
    assert_eq!(state.quit(), QuitOutcome::AlreadyQuitting);
}

#[test]
fn teardown_done_while_running_changes_nothing() {
    let mut state = Lifecycle::new();
    state.teardown_done();
    assert_eq!(state.phase(), Phase::Running);
    assert_eq!(state.quit(), QuitOutcome::Proceed);
}

#[test]
fn teardown_plan_closes_each_window_then_stops() {
    assert_eq!(
        teardown_plan(3),
        vec![
            TeardownStep::CloseWindow(0),
            TeardownStep::CloseWindow(1),
            TeardownStep::CloseWindow(2),
            TeardownStep::StopLoop,
        ]
    );
}

#[test]
fn teardown_plan_without_windows_only_stops() {
    assert_eq!(teardown_plan(0), vec![TeardownStep::StopLoop]);
}

#[test]
fn teardown_plan_has_one_stop_at_the_end() {
    let plan = teardown_plan(17);
    assert_eq!(plan.len(), 18);
    assert_eq!(plan.iter().filter(|s| **s == TeardownStep::StopLoop).count(), 1);
    assert_eq!(plan[17], TeardownStep::StopLoop);
    assert_eq!(plan[16], TeardownStep::CloseWindow(16));
}

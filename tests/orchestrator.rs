use bacon_core::executor::{CommandExecInfo, CommandOutputLine, CommandStream, Task};
use bacon_core::orchestrator::{
    resolve_strategy, Action, AppState, AutoRefresh, Directive, Internal, JobRef, LoopEvent,
    OnChangeStrategy, Resolution, ScrollCommand, TaskEvent,
};

fn line(task_id: u64, text: &str) -> LoopEvent {
    LoopEvent::Task(TaskEvent {
        task_id,
        info: CommandExecInfo::Line(CommandOutputLine {
            content: text.to_string(),
            origin: CommandStream::StdErr,
        }),
    })
}

fn end(task_id: u64, status: Option<i32>) -> LoopEvent {
    LoopEvent::Task(TaskEvent { task_id, info: CommandExecInfo::End { status } })
}

/// One loop iteration as the driver runs it, with no result policy.
fn iterate(state: &mut AppState, event: LoopEvent) -> Directive {
    let action = match state.on_event(event) {
        Resolution::Nothing => None,
        Resolution::Stop => return Directive::Exit(None),
        Resolution::Act(a) => Some(a),
        Resolution::Finished => state.after_end(None),
    };
    match action {
        Some(a) => state.apply(a),
        None => Directive::Stay,
    }
}

fn internal(i: Internal) -> Action {
    Action::Internal(i)
}

#[test]
fn strategy_resolution() {
    let wait = OnChangeStrategy::WaitThenRestart;
    let kill = OnChangeStrategy::KillThenRestart;
    assert_eq!(resolve_strategy(Some(kill), Some(wait)), kill);
    assert_eq!(resolve_strategy(None, Some(kill)), kill);
    assert_eq!(resolve_strategy(None, None), wait);
    assert_eq!(resolve_strategy(Some(wait), None), wait);
}

#[test]
fn new_state_is_computing_first_task() {
    let state = AppState::new(OnChangeStrategy::WaitThenRestart);
    assert!(state.is_computing());
    assert_eq!(state.task_id, 0);
    assert_eq!(state.task(), Task { backtrace: false });
    assert_eq!(state.auto_refresh, AutoRefresh::Enabled);
    assert!(AutoRefresh::Enabled.is_enabled());
    assert!(!AutoRefresh::Paused.is_enabled());
}

fn wait_then_restart(n: usize) {
    let mut state = AppState::new(OnChangeStrategy::WaitThenRestart);
    let mut restarts = 0;
    for _ in 0..n {
        if let Directive::Restart(_) = iterate(&mut state, LoopEvent::Change) {
            restarts += 1;
        }
    }
    assert_eq!(restarts, 0);
    assert_eq!(state.changes_since_last_job_start, n);
    let d = iterate(&mut state, end(0, Some(0)));
    assert_eq!(d, Directive::Restart(Task { backtrace: false }));
    assert_eq!(state.changes_since_last_job_start, 0);
    assert_eq!(state.task_id, 1);
    assert!(state.is_computing());
    assert_eq!(iterate(&mut state, end(0, Some(0))), Directive::Stay);
}

#[test]
fn wait_then_restart_one_change() {
    wait_then_restart(1);
}

#[test]
fn wait_then_restart_five_changes() {
    wait_then_restart(5);
}

#[test]
fn wait_then_restart_hundred_changes() {
    wait_then_restart(100);
}

#[test]
fn end_without_changes_keeps_idle() {
    let mut state = AppState::new(OnChangeStrategy::WaitThenRestart);
    iterate(&mut state, line(0, "compiling"));
    assert_eq!(iterate(&mut state, end(0, Some(1))), Directive::Stay);
    assert!(!state.is_computing());
    let result = state.result.as_ref().unwrap();
    assert_eq!(result.status, Some(1));
    assert_eq!(result.lines.len(), 1);
    assert_eq!(result.lines[0].content, "compiling");
    assert!(state.output.is_empty());
    // a change while idle starts a run at once
    assert_eq!(iterate(&mut state, LoopEvent::Change), Directive::Restart(Task { backtrace: false }));
}

#[test]
fn end_asks_the_result_policy() {
    let mut state = AppState::new(OnChangeStrategy::WaitThenRestart);
    assert_eq!(state.on_event(end(0, Some(0))), Resolution::Finished);
    let policy = Some(Action::Export("report".to_string()));
    assert_eq!(state.after_end(policy.clone()), policy);
}

#[test]
fn kill_then_restart_drops_stale_lines() {
    let mut state = AppState::new(OnChangeStrategy::KillThenRestart);
    iterate(&mut state, line(0, "old 1"));
    assert_eq!(state.output.len(), 1);
    let d = iterate(&mut state, LoopEvent::Change);
    assert_eq!(d, Directive::Restart(Task { backtrace: false }));
    assert_eq!(state.task_id, 1);
    assert!(state.output.is_empty());
    assert_eq!(iterate(&mut state, line(0, "old 2")), Directive::Stay);
    assert_eq!(iterate(&mut state, end(0, Some(0))), Directive::Stay);
    let interrupted = LoopEvent::Task(TaskEvent { task_id: 0, info: CommandExecInfo::Interruption });
    assert_eq!(iterate(&mut state, interrupted), Directive::Stay);
    assert!(state.output.is_empty());
    assert!(state.is_computing());
    iterate(&mut state, line(1, "new"));
    assert_eq!(state.output.len(), 1);
    assert_eq!(state.output[0].content, "new");
}

#[test]
fn toggle_pause_with_pending_changes_restarts_once() {
    let mut state = AppState::new(OnChangeStrategy::WaitThenRestart);
    iterate(&mut state, end(0, Some(0)));
    assert_eq!(state.apply(internal(Internal::TogglePause)), Directive::Stay);
    assert_eq!(state.auto_refresh, AutoRefresh::Paused);
    for _ in 0..3 {
        assert_eq!(iterate(&mut state, LoopEvent::Change), Directive::Stay);
    }
    assert_eq!(state.changes_since_last_job_start, 3);
    let d = state.apply(internal(Internal::TogglePause));
    assert_eq!(d, Directive::Restart(Task { backtrace: false }));
    assert_eq!(state.auto_refresh, AutoRefresh::Enabled);
    assert_eq!(state.changes_since_last_job_start, 0);
    assert!(state.result.is_none());
}

#[test]
fn toggle_pause_without_changes_does_not_restart() {
    let mut state = AppState::new(OnChangeStrategy::WaitThenRestart);
    iterate(&mut state, end(0, Some(0)));
    state.apply(internal(Internal::Pause));
    assert_eq!(state.auto_refresh, AutoRefresh::Paused);
    assert_eq!(state.apply(internal(Internal::TogglePause)), Directive::Stay);
    assert_eq!(state.auto_refresh, AutoRefresh::Enabled);
    assert!(state.result.is_some());
}

#[test]
fn unpause_follows_the_same_rule() {
    let mut state = AppState::new(OnChangeStrategy::WaitThenRestart);
    state.apply(internal(Internal::Pause));
    assert_eq!(state.apply(internal(Internal::Unpause)), Directive::Stay);
    state.apply(internal(Internal::Pause));
    iterate(&mut state, LoopEvent::Change);
    assert_eq!(state.apply(internal(Internal::Unpause)), Directive::Restart(Task { backtrace: false }));
    assert_eq!(state.auto_refresh, AutoRefresh::Enabled);
}

#[test]
fn refresh_clears_and_rerun_keeps_result() {
    let mut state = AppState::new(OnChangeStrategy::WaitThenRestart);
    iterate(&mut state, end(0, None));
    assert!(state.result.is_some());
    assert_eq!(state.apply(internal(Internal::ReRun)), Directive::Restart(Task { backtrace: false }));
    assert!(state.result.is_some());
    assert_eq!(state.task_id, 1);
    assert_eq!(state.apply(internal(Internal::Refresh)), Directive::Restart(Task { backtrace: false }));
    assert!(state.result.is_none());
    assert_eq!(state.task_id, 2);
}

#[test]
fn toggle_backtrace_restarts_with_new_flag() {
    let mut state = AppState::new(OnChangeStrategy::WaitThenRestart);
    let d = state.apply(internal(Internal::ToggleBacktrace));
    assert_eq!(d, Directive::Restart(Task { backtrace: true }));
    assert_eq!(state.task(), Task { backtrace: true });
}

#[test]
fn help_back_and_quit() {
    let mut state = AppState::new(OnChangeStrategy::WaitThenRestart);
    assert_eq!(state.apply(internal(Internal::Help)), Directive::Stay);
    assert!(state.help_open);
    assert_eq!(state.apply(internal(Internal::Back)), Directive::Stay);
    assert!(!state.help_open);
    assert_eq!(state.apply(internal(Internal::Back)), Directive::Exit(Some(JobRef::Previous)));
    assert_eq!(state.apply(internal(Internal::Quit)), Directive::Exit(None));
}

#[test]
fn view_export_and_job_actions() {
    let mut state = AppState::new(OnChangeStrategy::WaitThenRestart);
    let scroll = Internal::Scroll(ScrollCommand::Lines(-3));
    assert_eq!(state.apply(internal(scroll)), Directive::View(scroll));
    assert_eq!(
        state.apply(internal(Internal::ToggleWrap)),
        Directive::View(Internal::ToggleWrap)
    );
    assert_eq!(
        state.apply(Action::Export("locations".to_string())),
        Directive::Export("locations".to_string())
    );
    let job = JobRef::Named("test".to_string());
    assert_eq!(state.apply(Action::Job(job.clone())), Directive::Exit(Some(job)));
    assert!(state.is_computing());
}

#[test]
fn supervision_error_stops_the_loop() {
    let mut state = AppState::new(OnChangeStrategy::WaitThenRestart);
    let ev = LoopEvent::Task(TaskEvent { task_id: 0, info: CommandExecInfo::Error("gone".to_string()) });
    assert_eq!(state.on_event(ev), Resolution::Stop);
    assert!(!state.is_computing());
}

#[test]
fn input_without_binding_does_nothing() {
    let mut state = AppState::new(OnChangeStrategy::WaitThenRestart);
    assert_eq!(state.on_event(LoopEvent::Input(None)), Resolution::Nothing);
    assert_eq!(
        state.on_event(LoopEvent::Input(Some(internal(Internal::Quit)))),
        Resolution::Act(internal(Internal::Quit))
    );
}

#[test]
fn change_while_paused_only_counts() {
    let mut state = AppState::new(OnChangeStrategy::KillThenRestart);
    state.apply(internal(Internal::Pause));
    assert_eq!(state.on_event(LoopEvent::Change), Resolution::Nothing);
    assert_eq!(state.changes_since_last_job_start, 1);
}

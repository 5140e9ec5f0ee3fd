use bacon_core::change_filter::{is_candidate, propagates, Exclusion, FsEventKind};
use bacon_core::executor::{
    first_kill_step, reader_step, status_event, supervisor_plan, termination_steps,
    CommandExecInfo, CommandOutputLine, CommandStream, CustomKillOutcome, KillStep, ReadOutcome,
    ReaderStep, StdioPlan, StopMessage, SupervisorPlan, Task, TerminationStep,
    BACKTRACE_ENV_VAR,
};

#[test]
fn task_backtrace_value() {
    assert_eq!(Task::default(), Task { backtrace: false });
    assert_eq!(Task { backtrace: true }.backtrace_env_value(), "1");
    assert_eq!(Task { backtrace: false }.backtrace_env_value(), "0");
    assert_eq!(BACKTRACE_ENV_VAR, "RUST_BACKTRACE");
}

#[test]
fn stdio_plan_follows_stdout_need() {
    let plan = StdioPlan::for_mission(true);
    assert!(plan.stdin_null && plan.stderr_piped && plan.stdout_piped);
    assert_eq!(plan.reader_origins(), vec![CommandStream::StdOut, CommandStream::StdErr]);
    let plan = StdioPlan::for_mission(false);
    assert!(plan.stdin_null && plan.stderr_piped && !plan.stdout_piped);
    assert_eq!(plan.reader_origins(), vec![CommandStream::StdErr]);
}

#[test]
fn no_stdout_reader_without_stdout_need() {
    let plan = StdioPlan::for_mission(false);
    for origin in plan.reader_origins() {
        let step = reader_step(origin, ReadOutcome::Line("out".to_string()));
        match step {
            ReaderStep::Emit(CommandExecInfo::Line(line)) => {
                assert_eq!(line.origin, CommandStream::StdErr)
            }
            other => panic!("unexpected step {other:?}"),
        }
    }
}

#[test]
fn reader_steps() {
    assert_eq!(reader_step(CommandStream::StdOut, ReadOutcome::Failed), ReaderStep::Skip);
    assert_eq!(reader_step(CommandStream::StdErr, ReadOutcome::Failed), ReaderStep::Skip);
    assert_eq!(
        reader_step(CommandStream::StdOut, ReadOutcome::Eof),
        ReaderStep::Finish { request_status: false }
    );
    assert_eq!(
        reader_step(CommandStream::StdErr, ReadOutcome::Eof),
        ReaderStep::Finish { request_status: true }
    );
    assert_eq!(
        reader_step(CommandStream::StdOut, ReadOutcome::Line("a b".to_string())),
        ReaderStep::Emit(CommandExecInfo::Line(CommandOutputLine {
            content: "a b".to_string(),
            origin: CommandStream::StdOut,
        }))
    );
}

#[test]
fn supervisor_plans_and_closing_events() {
    assert_eq!(supervisor_plan(Some(StopMessage::SendStatus)), SupervisorPlan::PublishStatus);
    assert_eq!(supervisor_plan(Some(StopMessage::Kill)), SupervisorPlan::Terminate);
    assert_eq!(supervisor_plan(None), SupervisorPlan::Terminate);
    assert_eq!(status_event(Ok(Some(0))), CommandExecInfo::End { status: Some(0) });
    assert_eq!(status_event(Ok(None)), CommandExecInfo::End { status: None });
    assert_eq!(
        status_event(Err("no status".to_string())),
        CommandExecInfo::Error("no status".to_string())
    );
}

#[test]
fn kill_command_gets_the_pid() {
    let cmd = Some(vec!["kill".to_string(), "-9".to_string()]);
    assert_eq!(
        first_kill_step(&cmd, 4321),
        KillStep::RunCustom(vec!["kill".to_string(), "-9".to_string(), "4321".to_string()])
    );
    assert_eq!(
        first_kill_step(&Some(vec!["stop".to_string()]), 7),
        KillStep::RunCustom(vec!["stop".to_string(), "7".to_string()])
    );
}

#[test]
fn default_kill_without_command() {
    assert_eq!(first_kill_step(&None, 12), KillStep::Default);
    assert_eq!(first_kill_step(&Some(vec![]), 12), KillStep::Default);
}

#[test]
fn kill_command_spawn_failure_falls_back() {
    assert_eq!(
        termination_steps(Some(CustomKillOutcome::SpawnFailed)),
        vec![TerminationStep::DefaultKill, TerminationStep::Reap]
    );
    assert_eq!(
        termination_steps(Some(CustomKillOutcome::Failed)),
        vec![TerminationStep::DefaultKill, TerminationStep::Reap]
    );
    assert_eq!(
        termination_steps(Some(CustomKillOutcome::Done)),
        vec![TerminationStep::Reap]
    );
    assert_eq!(
        termination_steps(None),
        vec![TerminationStep::DefaultKill, TerminationStep::Reap]
    );
}

#[test]
fn change_filter_drops_noise() {
    for ex in [Exclusion::NoPredicate, Exclusion::SomeIncluded, Exclusion::CheckFailed] {
        assert!(!propagates(FsEventKind::ModifyMetadata, ex));
        assert!(!propagates(FsEventKind::ModifyDataAny, ex));
        assert!(!propagates(FsEventKind::AccessOther, ex));
    }
    assert!(!is_candidate(FsEventKind::ModifyMetadata));
    assert!(is_candidate(FsEventKind::Other));
}

#[test]
fn change_filter_close_write() {
    assert!(!propagates(FsEventKind::AccessCloseWrite, Exclusion::AllExcluded));
    assert!(propagates(FsEventKind::AccessCloseWrite, Exclusion::SomeIncluded));
    assert!(propagates(FsEventKind::AccessCloseWrite, Exclusion::CheckFailed));
    assert!(propagates(FsEventKind::AccessCloseWrite, Exclusion::NoPredicate));
    assert!(propagates(FsEventKind::Other, Exclusion::NoPredicate));
    assert!(!propagates(FsEventKind::Other, Exclusion::AllExcluded));
}

use vstd::prelude::*;

use crate::text::{decimal, decimal_text};

verus! {

/// The environment variable through which a task asks for backtraces.
pub const BACKTRACE_ENV_VAR: &'static str = "RUST_BACKTRACE";

/// Settings for one execution of the job's command.
#[derive(Debug, Clone, Copy, PartialEq, Eq, Structural)]
pub struct Task {
    pub backtrace: bool,
}

impl Default for Task {
    fn default() -> (r: Task)
        ensures
            r == (Task { backtrace: false }),
    {
        Task { backtrace: false }
    }
}

impl Task {
    /// The value given to the backtrace variable of the spawned command.
    pub fn backtrace_env_value(self) -> (r: &'static str)
        ensures
            r@ == (if self.backtrace { seq!['1'] } else { seq!['0'] }),
    {
        proof {
            reveal_strlit("1");
            reveal_strlit("0");
        }
        if self.backtrace {
            "1"
        } else {
            "0"
        }
    }
}

/// The output stream a line comes from.
#[derive(Debug, Clone, Copy, PartialEq, Eq, Structural)]
pub enum CommandStream {
    StdOut,
    StdErr,
}

/// One line written by the command.
#[derive(Debug, Clone, PartialEq, Eq)]
pub struct CommandOutputLine {
    pub content: String,
    pub origin: CommandStream,
}

/// What the supervision of one task reports.
#[derive(Debug, Clone, PartialEq, Eq)]
pub enum CommandExecInfo {
    /// A line of output.
    Line(CommandOutputLine),
    /// The command finished; its exit code, where one could be read.
    End { status: Option<i32> },
    /// The supervision itself failed.
    Error(String),
    /// The command was killed on request.
    Interruption,
}

/// Whether the event closes the task's stream.
pub open spec fn is_terminal(info: CommandExecInfo) -> bool {
    !(info is Line)
}

/// How the command's standard streams are set up.
#[derive(Debug, Clone, Copy, PartialEq, Eq, Structural)]
pub struct StdioPlan {
    pub stdin_null: bool,
    pub stdout_piped: bool,
    pub stderr_piped: bool,
}

impl StdioPlan {
    /// The streams of a mission's command: no input, stderr always read,
    /// stdout read only where the mission needs it.
    pub fn for_mission(with_stdout: bool) -> (r: StdioPlan)
        ensures
            r.stdin_null,
            r.stderr_piped,
            r.stdout_piped == with_stdout,
    {
        StdioPlan { stdin_null: true, stdout_piped: with_stdout, stderr_piped: true }
    }

    pub open spec fn origins(self) -> Seq<CommandStream> {
        if self.stdout_piped {
            seq![CommandStream::StdOut, CommandStream::StdErr]
        } else {
            seq![CommandStream::StdErr]
        }
    }

    /// The streams that get a line reader, in the order they are started.
    pub fn reader_origins(self) -> (r: Vec<CommandStream>)
        ensures
            r@ == self.origins(),
    {
        let mut r: Vec<CommandStream> = Vec::new();
        if self.stdout_piped {
            r.push(CommandStream::StdOut);
        }
        r.push(CommandStream::StdErr);
        assert(r@ =~= self.origins());
        r
    }
}

/// What one read of a line from a stream gave.
#[derive(Debug, Clone, PartialEq, Eq)]
pub enum ReadOutcome {
    Failed,
    Eof,
    Line(String),
}

/// What a line reader does after a read.
#[derive(Debug, Clone, PartialEq, Eq)]
pub enum ReaderStep {
    /// Go on reading.
    Skip,
    /// Send this line, then go on reading.
    Emit(CommandExecInfo),
    /// Stop reading; on stderr, first ask the supervisor for the exit status.
    Finish { request_status: bool },
}

pub open spec fn reader_step_spec(origin: CommandStream, outcome: ReadOutcome) -> ReaderStep {
    match outcome {
        ReadOutcome::Failed => ReaderStep::Skip,
        ReadOutcome::Eof => ReaderStep::Finish { request_status: origin == CommandStream::StdErr },
        ReadOutcome::Line(s) => ReaderStep::Emit(
            CommandExecInfo::Line(CommandOutputLine { content: s, origin }),
        ),
    }
}

/// The reader of one stream: a failed read is skipped, a line is sent with
/// its origin, and the end of stderr (not of stdout) is the signal that the
/// command finished.
pub fn reader_step(origin: CommandStream, outcome: ReadOutcome) -> (r: ReaderStep)
    ensures
        r == reader_step_spec(origin, outcome),
{
    match outcome {
        ReadOutcome::Failed => ReaderStep::Skip,
        ReadOutcome::Eof => ReaderStep::Finish {
            request_status: match origin {
                CommandStream::StdErr => true,
                CommandStream::StdOut => false,
            },
        },
        ReadOutcome::Line(content) => ReaderStep::Emit(
            CommandExecInfo::Line(CommandOutputLine { content, origin }),
        ),
    }
}

/// A message sent to the supervisor of a task.
#[derive(Debug, Clone, Copy, PartialEq, Eq, Structural)]
pub enum StopMessage {
    /// The process already finished: fetch its status.
    SendStatus,
    /// Kill the process.
    Kill,
}

/// What the supervisor does with what it received.
#[derive(Debug, Clone, Copy, PartialEq, Eq, Structural)]
pub enum SupervisorPlan {
    PublishStatus,
    Terminate,
}

pub open spec fn supervisor_plan_spec(msg: Option<StopMessage>) -> SupervisorPlan {
    if msg == Some(StopMessage::SendStatus) {
        SupervisorPlan::PublishStatus
    } else {
        SupervisorPlan::Terminate
    }
}

/// `None` stands for a control channel dropped without a message, which
/// is handled as a kill.
pub fn supervisor_plan(msg: Option<StopMessage>) -> (r: SupervisorPlan)
    ensures
        r == supervisor_plan_spec(msg),
{
    match msg {
        Some(StopMessage::SendStatus) => SupervisorPlan::PublishStatus,
        _ => SupervisorPlan::Terminate,
    }
}

pub open spec fn status_event_spec(fetched: Result<Option<i32>, String>) -> CommandExecInfo {
    match fetched {
        Ok(status) => CommandExecInfo::End { status },
        Err(e) => CommandExecInfo::Error(e),
    }
}

/// The event that closes a task whose process finished by itself, from the
/// result of the non-blocking status fetch.
pub fn status_event(fetched: Result<Option<i32>, String>) -> (r: CommandExecInfo)
    ensures
        r == status_event_spec(fetched),
{
    match fetched {
        Ok(status) => CommandExecInfo::End { status },
        Err(e) => CommandExecInfo::Error(e),
    }
}

/// The event that closes the task in the supervisor's plan: the fetched
/// status when publishing, an interruption when terminating.
pub open spec fn closing_event(
    plan: SupervisorPlan,
    fetched: Result<Option<i32>, String>,
) -> CommandExecInfo {
    match plan {
        SupervisorPlan::PublishStatus => status_event_spec(fetched),
        SupervisorPlan::Terminate => CommandExecInfo::Interruption,
    }
}

/// The first step of killing a task's process.
#[derive(Debug, Clone, PartialEq, Eq)]
pub enum KillStep {
    /// Run this command line, which ends with the process id.
    RunCustom(Vec<String>),
    /// Use the platform's own kill.
    Default,
}

pub open spec fn kill_argv_spec(kill_command: Seq<String>, pid: u32) -> Seq<Seq<char>> {
    kill_command.map_values(|s: String| s@).push(decimal(pid as nat))
}

/// A configured, non-empty kill command is run with the process id as its
/// last argument; otherwise the platform's kill is used.
pub fn first_kill_step(kill_command: &Option<Vec<String>>, pid: u32) -> (r: KillStep)
    ensures
        match kill_command {
            Some(k) if k@.len() > 0 => r is RunCustom && r->RunCustom_0@.map_values(
                |s: String| s@,
            ) == kill_argv_spec(k@, pid),
            _ => r is Default,
        },
{
    match kill_command {
        Some(k) => {
            if k.len() == 0 {
                return KillStep::Default;
            }
            let mut argv: Vec<String> = Vec::new();
            let mut i: usize = 0;
            while i < k.len()
                invariant
                    i <= k@.len(),
                    argv@.len() == i,
                    forall|j: int| 0 <= j < i ==> (#[trigger] argv@[j])@ == k@[j]@,
                decreases k@.len() - i,
            {
                let s = copy_text(&k[i]);
                argv.push(s);
                i = i + 1;
            }
            let pid_text = decimal_text(pid as usize);
            argv.push(pid_text);
            assert(argv@.map_values(|s: String| s@) =~= kill_argv_spec(k@, pid));
            KillStep::RunCustom(argv)
        },
        None => KillStep::Default,
    }
}

fn copy_text(s: &String) -> (r: String)
    ensures
        r@ == s@,
{
    String::from_str(s.as_str())
}

/// How a custom kill command ended.
#[derive(Debug, Clone, Copy, PartialEq, Eq, Structural)]
pub enum CustomKillOutcome {
    /// The kill command could not be started.
    SpawnFailed,
    /// Waiting for the kill command failed.
    WaitFailed,
    /// The kill command exited with a nonzero status.
    Failed,
    /// The kill command succeeded but the process could not be reaped.
    ReapFailed,
    /// The kill command succeeded and the process was reaped.
    Done,
}

/// What the supervisor does to end the process once any custom kill
/// command was tried.
#[derive(Debug, Clone, Copy, PartialEq, Eq, Structural)]
pub enum TerminationStep {
    /// Use the platform's own kill.
    DefaultKill,
    /// Wait for the process, so that none is left behind.
    Reap,
}

pub open spec fn termination_steps_spec(custom: Option<CustomKillOutcome>) -> Seq<TerminationStep> {
    if custom == Some(CustomKillOutcome::Done) {
        seq![TerminationStep::Reap]
    } else {
        seq![TerminationStep::DefaultKill, TerminationStep::Reap]
    }
}

/// `custom` is how the custom kill command ended, or `None` where none was
/// run. The platform's kill follows in every case but its full success, and
/// the process is always reaped last.
pub fn termination_steps(custom: Option<CustomKillOutcome>) -> (r: Vec<TerminationStep>)
    ensures
        r@ == termination_steps_spec(custom),
{
    let mut r: Vec<TerminationStep> = Vec::new();
    match custom {
        Some(CustomKillOutcome::Done) => {},
        _ => r.push(TerminationStep::DefaultKill),
    }
    r.push(TerminationStep::Reap);
    assert(r@ =~= termination_steps_spec(custom));
    r
}

/// A task's stream closes with exactly one terminal event: the line readers
/// only ever send lines, and the supervisor sends one event, an end, an
/// error or an interruption, whatever it received.
pub proof fn lemma_one_terminal_event(
    origin: CommandStream,
    outcome: ReadOutcome,
    msg: Option<StopMessage>,
    fetched: Result<Option<i32>, String>,
)
    ensures
        reader_step_spec(origin, outcome) is Emit ==> !is_terminal(
            reader_step_spec(origin, outcome)->Emit_0,
        ),
        is_terminal(closing_event(supervisor_plan_spec(msg), fetched)),
        ({
            let e = closing_event(supervisor_plan_spec(msg), fetched);
            e is End || e is Error || e is Interruption
        }),
{
}

/// A mission that does not need stdout gets no reader on it, so no line
/// with stdout as its origin is ever sent.
pub proof fn lemma_no_stdout_lines(plan: StdioPlan, origin: CommandStream, outcome: ReadOutcome)
    requires
        !plan.stdout_piped,
        plan.origins().contains(origin),
    ensures
        origin == CommandStream::StdErr,
        reader_step_spec(origin, outcome) is Emit ==> reader_step_spec(origin, outcome)->Emit_0
            == CommandExecInfo::Line(
            CommandOutputLine { content: outcome->Line_0, origin: CommandStream::StdErr },
        ),
{
    assert(plan.origins() == seq![CommandStream::StdErr]);
    assert(plan.origins()[0] == CommandStream::StdErr);
}

/// A custom kill command that could not even be started, or that failed in
/// any other way, still leads to the platform's kill; whatever happened,
/// the process is reaped last.
pub proof fn lemma_kill_fallback(custom: Option<CustomKillOutcome>)
    ensures
        custom != Some(CustomKillOutcome::Done) ==> termination_steps_spec(custom)[0]
            == TerminationStep::DefaultKill,
        termination_steps_spec(Some(CustomKillOutcome::SpawnFailed)) == seq![
            TerminationStep::DefaultKill,
            TerminationStep::Reap,
        ],
        termination_steps_spec(custom).last() == TerminationStep::Reap,
{
}

} // verus!

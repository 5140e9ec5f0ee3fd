use vstd::prelude::*;

use crate::executor::{CommandExecInfo, CommandOutputLine, Task};

verus! {

/// What to do with a change that comes while the command runs.
#[derive(Debug, Clone, Copy, PartialEq, Eq, Structural)]
pub enum OnChangeStrategy {
    WaitThenRestart,
    KillThenRestart,
}

/// The strategy of a run: the job's own, else the settings', else waiting.
pub fn resolve_strategy(
    job: Option<OnChangeStrategy>,
    settings: Option<OnChangeStrategy>,
) -> (r: OnChangeStrategy)
    ensures
        r == (match job {
            Some(s) => s,
            None => match settings {
                Some(s) => s,
                None => OnChangeStrategy::WaitThenRestart,
            },
        }),
{
    match job {
        Some(s) => s,
        None => match settings {
            Some(s) => s,
            None => OnChangeStrategy::WaitThenRestart,
        },
    }
}

/// Whether changes may start a new run.
#[derive(Debug, Clone, Copy, PartialEq, Eq, Structural)]
pub enum AutoRefresh {
    Enabled,
    Paused,
}

impl AutoRefresh {
    pub fn is_enabled(self) -> (r: bool)
        ensures
            r == (self == AutoRefresh::Enabled),
    {
        match self {
            AutoRefresh::Enabled => true,
            AutoRefresh::Paused => false,
        }
    }
}

#[derive(Debug, Clone, Copy, PartialEq, Eq, Structural)]
pub enum ScrollCommand {
    Top,
    Bottom,
    Lines(i32),
    Pages(i32),
}

/// The job to run once this mission is over.
#[derive(Debug, Clone, PartialEq, Eq)]
pub enum JobRef {
    Previous,
    Named(String),
}

#[derive(Debug, Clone, Copy, PartialEq, Eq, Structural)]
pub enum Internal {
    Back,
    Help,
    Quit,
    Refresh,
    ReRun,
    ToggleRawOutput,
    ToggleSummary,
    ToggleWrap,
    ToggleBacktrace,
    Scroll(ScrollCommand),
    Pause,
    Unpause,
    TogglePause,
}

#[derive(Debug, Clone, PartialEq, Eq)]
pub enum Action {
    Internal(Internal),
    Export(String),
    Job(JobRef),
}

/// An event of a task, with the number of the task that sent it.
#[derive(Debug, Clone, PartialEq, Eq)]
pub struct TaskEvent {
    pub task_id: u64,
    pub info: CommandExecInfo,
}

/// One of the three sources the loop waits on.
#[derive(Debug, Clone, PartialEq, Eq)]
pub enum LoopEvent {
    /// A filtered filesystem change.
    Change,
    /// An event of a task.
    Task(TaskEvent),
    /// A user input, with the action its key is bound to, if any.
    Input(Option<Action>),
}

/// What an event asks of the loop.
#[derive(Debug, Clone, PartialEq, Eq)]
pub enum Resolution {
    Nothing,
    Act(Action),
    /// The task ended: its result is stored, and the result policy may be asked.
    Finished,
    /// The supervision failed: the loop ends.
    Stop,
}

/// What the loop does after applying an action.
#[derive(Debug, Clone, PartialEq, Eq)]
pub enum Directive {
    Stay,
    /// Kill the current task, wait until it is gone, then start this one.
    Restart(Task),
    /// Hand this view change to the display.
    View(Internal),
    /// Run the export of that name.
    Export(String),
    /// Kill the current task, wait until it is gone, and end the mission.
    Exit(Option<JobRef>),
}

/// The output and status of a finished run.
#[derive(Debug, Clone, PartialEq, Eq)]
pub struct CommandResult {
    pub lines: Vec<CommandOutputLine>,
    pub status: Option<i32>,
}

/// The loop's own state.
#[derive(Debug)]
pub struct AppState {
    pub strategy: OnChangeStrategy,
    pub auto_refresh: AutoRefresh,
    pub computing: bool,
    pub changes_since_last_job_start: usize,
    /// The number of the live task; events of other tasks are stale.
    pub task_id: u64,
    pub backtrace: bool,
    pub help_open: bool,
    /// The output of the live task so far.
    pub output: Vec<CommandOutputLine>,
    pub result: Option<CommandResult>,
}

pub struct ResultView {
    pub lines: Seq<CommandOutputLine>,
    pub status: Option<i32>,
}

pub struct StateView {
    pub strategy: OnChangeStrategy,
    pub auto_refresh: AutoRefresh,
    pub computing: bool,
    pub changes: nat,
    pub task_id: u64,
    pub backtrace: bool,
    pub help_open: bool,
    pub output: Seq<CommandOutputLine>,
    pub result: Option<ResultView>,
}

impl View for AppState {
    type V = StateView;

    open spec fn view(&self) -> StateView {
        StateView {
            strategy: self.strategy,
            auto_refresh: self.auto_refresh,
            computing: self.computing,
            changes: self.changes_since_last_job_start as nat,
            task_id: self.task_id,
            backtrace: self.backtrace,
            help_open: self.help_open,
            output: self.output@,
            result: match self.result {
                Some(r) => Some(ResultView { lines: r.lines@, status: r.status }),
                None => None,
            },
        }
    }
}

pub open spec fn next_task_id(id: u64) -> u64 {
    if id == u64::MAX {
        0
    } else {
        (id + 1) as u64
    }
}

/// The state once a new task started: computing, no change since, a new
/// task number and no output yet.
pub open spec fn restarted(v: StateView) -> StateView {
    StateView {
        computing: true,
        changes: 0,
        task_id: next_task_id(v.task_id),
        output: Seq::empty(),
        ..v
    }
}

/// The state with the last result and the output dropped.
pub open spec fn cleared(v: StateView) -> StateView {
    StateView { output: Seq::empty(), result: None, ..v }
}

pub open spec fn one_more_change(changes: nat) -> nat {
    if changes < usize::MAX {
        changes + 1
    } else {
        changes
    }
}

pub open spec fn on_event_spec(v: StateView, event: LoopEvent) -> (StateView, Resolution) {
    match event {
        LoopEvent::Change => {
            let v1 = StateView { changes: one_more_change(v.changes), ..v };
            if v.auto_refresh == AutoRefresh::Enabled && (!v.computing || v.strategy
                == OnChangeStrategy::KillThenRestart) {
                (v1, Resolution::Act(Action::Internal(Internal::ReRun)))
            } else {
                (v1, Resolution::Nothing)
            }
        },
        LoopEvent::Task(te) => {
            if te.task_id != v.task_id {
                (v, Resolution::Nothing)
            } else {
                match te.info {
                    CommandExecInfo::Line(line) => (
                        StateView { output: v.output.push(line), ..v },
                        Resolution::Nothing,
                    ),
                    CommandExecInfo::End { status } => (
                        StateView {
                            computing: false,
                            output: Seq::empty(),
                            result: Some(ResultView { lines: v.output, status }),
                            ..v
                        },
                        Resolution::Finished,
                    ),
                    CommandExecInfo::Error(_) => (
                        StateView { computing: false, ..v },
                        Resolution::Stop,
                    ),
                    CommandExecInfo::Interruption => (v, Resolution::Nothing),
                }
            }
        },
        LoopEvent::Input(a) => match a {
            Some(a) => (v, Resolution::Act(a)),
            None => (v, Resolution::Nothing),
        },
    }
}

/// After a run ended: a rerun where changes came meanwhile and refresh is
/// on, else what the result policy asks.
pub open spec fn after_end_spec(v: StateView, policy: Option<Action>) -> Option<Action> {
    if v.changes > 0 && v.auto_refresh == AutoRefresh::Enabled {
        Some(Action::Internal(Internal::ReRun))
    } else {
        policy
    }
}

pub open spec fn restart_directive(v: StateView) -> Directive {
    Directive::Restart(Task { backtrace: v.backtrace })
}

/// Leaving the pause: a run with the changes made meanwhile, if any.
pub open spec fn resume_spec(v: StateView) -> (StateView, Directive) {
    if v.changes > 0 {
        (
            StateView { auto_refresh: AutoRefresh::Enabled, ..restarted(cleared(v)) },
            restart_directive(v),
        )
    } else {
        (StateView { auto_refresh: AutoRefresh::Enabled, ..v }, Directive::Stay)
    }
}

pub open spec fn apply_spec(v: StateView, action: Action) -> (StateView, Directive) {
    match action {
        Action::Export(name) => (v, Directive::Export(name)),
        Action::Job(job) => (v, Directive::Exit(Some(job))),
        Action::Internal(internal) => match internal {
            Internal::Back => if v.help_open {
                (StateView { help_open: false, ..v }, Directive::Stay)
            } else {
                (v, Directive::Exit(Some(JobRef::Previous)))
            },
            Internal::Help => (StateView { help_open: !v.help_open, ..v }, Directive::Stay),
            Internal::Quit => (v, Directive::Exit(None)),
            Internal::Refresh => (restarted(cleared(v)), restart_directive(v)),
            Internal::ReRun => (restarted(v), restart_directive(v)),
            Internal::ToggleBacktrace => {
                let v1 = StateView { backtrace: !v.backtrace, ..v };
                (restarted(v1), restart_directive(v1))
            },
            Internal::Pause => (StateView { auto_refresh: AutoRefresh::Paused, ..v }, Directive::Stay),
            Internal::Unpause => resume_spec(v),
            Internal::TogglePause => if v.auto_refresh == AutoRefresh::Enabled {
                (StateView { auto_refresh: AutoRefresh::Paused, ..v }, Directive::Stay)
            } else {
                resume_spec(v)
            },
            _ => (v, Directive::View(internal)),
        },
    }
}

impl AppState {
    /// The state of a mission whose first task (number 0) is starting.
    pub fn new(strategy: OnChangeStrategy) -> (r: AppState)
        ensures
            r@.strategy == strategy,
            r@.auto_refresh == AutoRefresh::Enabled,
            r@.computing,
            r@.changes == 0,
            r@.task_id == 0,
            !r@.backtrace,
            !r@.help_open,
            r@.output.len() == 0,
            r@.result is None,
    {
        AppState {
            strategy,
            auto_refresh: AutoRefresh::Enabled,
            computing: true,
            changes_since_last_job_start: 0,
            task_id: 0,
            backtrace: false,
            help_open: false,
            output: Vec::new(),
            result: None,
        }
    }

    /// The settings of the live task.
    pub fn task(&self) -> (r: Task)
        ensures
            r == (Task { backtrace: self.backtrace }),
    {
        Task { backtrace: self.backtrace }
    }

    pub fn is_computing(&self) -> (r: bool)
        ensures
            r == self.computing,
    {
        self.computing
    }

    /// Take an event into account and say what it asks for.
    pub fn on_event(&mut self, event: LoopEvent) -> (r: Resolution)
        ensures
            (final(self)@, r) == on_event_spec(old(self)@, event),
    {
        match event {
            LoopEvent::Change => {
                self.changes_since_last_job_start = self.changes_since_last_job_start.saturating_add(1);
                if self.auto_refresh.is_enabled() && (!self.computing || self.strategy
                    == OnChangeStrategy::KillThenRestart) {
                    Resolution::Act(Action::Internal(Internal::ReRun))
                } else {
                    Resolution::Nothing
                }
            },
            LoopEvent::Task(te) => {
                if te.task_id != self.task_id {
                    return Resolution::Nothing;
                }
                match te.info {
                    CommandExecInfo::Line(line) => {
                        self.output.push(line);
                        Resolution::Nothing
                    },
                    CommandExecInfo::End { status } => {
                        let mut lines: Vec<CommandOutputLine> = Vec::new();
                        std::mem::swap(&mut lines, &mut self.output);
                        self.result = Some(CommandResult { lines, status });
                        self.computing = false;
                        assert(self@.output =~= Seq::<CommandOutputLine>::empty());
                        Resolution::Finished
                    },
                    CommandExecInfo::Error(_) => {
                        self.computing = false;
                        Resolution::Stop
                    },
                    CommandExecInfo::Interruption => Resolution::Nothing,
                }
            },
            LoopEvent::Input(a) => match a {
                Some(a) => Resolution::Act(a),
                None => Resolution::Nothing,
            },
        }
    }

    /// The action that follows a finished run, given what the result
    /// policy asks.
    pub fn after_end(&self, policy: Option<Action>) -> (r: Option<Action>)
        ensures
            r == after_end_spec(self@, policy),
    {
        if self.changes_since_last_job_start > 0 && self.auto_refresh.is_enabled() {
            Some(Action::Internal(Internal::ReRun))
        } else {
            policy
        }
    }

    fn clear(&mut self)
        ensures
            final(self)@ == cleared(old(self)@),
    {
        self.output = Vec::new();
        self.result = None;
        assert(self@.output =~= Seq::<CommandOutputLine>::empty());
    }

    fn start_computation(&mut self) -> (r: Directive)
        ensures
            final(self)@ == restarted(old(self)@),
            r == restart_directive(old(self)@),
    {
        self.computing = true;
        self.changes_since_last_job_start = 0;
        self.task_id = if self.task_id == u64::MAX {
            0
        } else {
            self.task_id + 1
        };
        self.output = Vec::new();
        assert(self@.output =~= Seq::<CommandOutputLine>::empty());
        Directive::Restart(Task { backtrace: self.backtrace })
    }

    fn resume(&mut self) -> (r: Directive)
        ensures
            (final(self)@, r) == resume_spec(old(self)@),
    {
        let r = if self.changes_since_last_job_start > 0 {
            self.clear();
            self.start_computation()
        } else {
            Directive::Stay
        };
        self.auto_refresh = AutoRefresh::Enabled;
        r
    }

    /// Apply an action and say what the loop must do.
    pub fn apply(&mut self, action: Action) -> (r: Directive)
        ensures
            (final(self)@, r) == apply_spec(old(self)@, action),
    {
        match action {
            Action::Export(name) => Directive::Export(name),
            Action::Job(job) => Directive::Exit(Some(job)),
            Action::Internal(internal) => match internal {
                Internal::Back => {
                    if self.help_open {
                        self.help_open = false;
                        Directive::Stay
                    } else {
                        Directive::Exit(Some(JobRef::Previous))
                    }
                },
                Internal::Help => {
                    self.help_open = !self.help_open;
                    Directive::Stay
                },
                Internal::Quit => Directive::Exit(None),
                Internal::Refresh => {
                    self.clear();
                    self.start_computation()
                },
                Internal::ReRun => self.start_computation(),
                Internal::ToggleBacktrace => {
                    self.backtrace = !self.backtrace;
                    self.start_computation()
                },
                Internal::Pause => {
                    self.auto_refresh = AutoRefresh::Paused;
                    Directive::Stay
                },
                Internal::Unpause => self.resume(),
                Internal::TogglePause => match self.auto_refresh {
                    AutoRefresh::Enabled => {
                        self.auto_refresh = AutoRefresh::Paused;
                        Directive::Stay
                    },
                    AutoRefresh::Paused => self.resume(),
                },
                _ => Directive::View(internal),
            },
        }
    }
}

/// One input of a loop iteration: the event, and what the result policy
/// would ask should the event end the run.
pub type LoopInput = (LoopEvent, Option<Action>);

/// One iteration of the loop: the event is taken into account, then the
/// action it asks for, if any, is applied.
pub open spec fn iteration(v: StateView, input: LoopInput) -> (StateView, Directive) {
    let (v1, res) = on_event_spec(v, input.0);
    match res {
        Resolution::Nothing => (v1, Directive::Stay),
        Resolution::Stop => (v1, Directive::Exit(None)),
        Resolution::Act(a) => apply_spec(v1, a),
        Resolution::Finished => match after_end_spec(v1, input.1) {
            Some(a) => apply_spec(v1, a),
            None => (v1, Directive::Stay),
        },
    }
}

/// The directives of the iterations, up to the one that ends the mission.
pub open spec fn run_directives(v: StateView, inputs: Seq<LoopInput>) -> Seq<Directive>
    decreases inputs.len(),
{
    if inputs.len() == 0 {
        Seq::empty()
    } else {
        let (v1, d) = iteration(v, inputs[0]);
        if d is Exit {
            seq![d]
        } else {
            seq![d] + run_directives(v1, inputs.drop_first())
        }
    }
}

/// The state after the iterations, or at the one that ends the mission.
pub open spec fn run_state(v: StateView, inputs: Seq<LoopInput>) -> StateView
    decreases inputs.len(),
{
    if inputs.len() == 0 {
        v
    } else {
        let (v1, d) = iteration(v, inputs[0]);
        if d is Exit {
            v1
        } else {
            run_state(v1, inputs.drop_first())
        }
    }
}

/// The two operations on processes that the loop performs.
pub enum TaskOp {
    /// Kill the live task and wait until it is gone.
    Die,
    /// Start a new task.
    Start,
}

pub open spec fn task_ops(d: Directive) -> Seq<TaskOp> {
    match d {
        Directive::Restart(_) => seq![TaskOp::Die, TaskOp::Start],
        Directive::Exit(_) => seq![TaskOp::Die],
        _ => Seq::empty(),
    }
}

pub open spec fn all_task_ops(ds: Seq<Directive>) -> Seq<TaskOp>
    decreases ds.len(),
{
    if ds.len() == 0 {
        Seq::empty()
    } else {
        task_ops(ds[0]) + all_task_ops(ds.drop_first())
    }
}

/// Whether, from `live` tasks, the operations never start a task while
/// another one lives.
pub open spec fn never_two_live(live: nat, ops: Seq<TaskOp>) -> bool
    decreases ops.len(),
{
    if ops.len() == 0 {
        true
    } else {
        match ops[0] {
            TaskOp::Die => never_two_live(0, ops.drop_first()),
            TaskOp::Start => live == 0 && never_two_live(1, ops.drop_first()),
        }
    }
}

/// Whatever the events, the loop never has two live tasks: every start of a
/// task comes after the previous one is gone.
pub proof fn lemma_single_live_task(v: StateView, inputs: Seq<LoopInput>, live: nat)
    requires
        live <= 1,
    ensures
        never_two_live(live, all_task_ops(run_directives(v, inputs))),
    decreases inputs.len(),
{
    if inputs.len() > 0 {
        let (v1, d) = iteration(v, inputs[0]);
        let ds = run_directives(v, inputs);
        let rest = if d is Exit { Seq::empty() } else { run_directives(v1, inputs.drop_first()) };
        assert(ds == seq![d] + rest);
        assert(ds[0] == d);
        assert(ds.drop_first() == rest);
        let ops = all_task_ops(ds);
        assert(ops == task_ops(d) + all_task_ops(rest));
        let tail = all_task_ops(rest);
        if !(d is Exit) {
            lemma_single_live_task(v1, inputs.drop_first(), live);
            lemma_single_live_task(v1, inputs.drop_first(), 1);
        } else {
            assert(rest.len() == 0);
        }
        match d {
            Directive::Restart(_) => {
                let after_die = seq![TaskOp::Start] + tail;
                assert((task_ops(d) + tail)[0] == TaskOp::Die);
                assert((task_ops(d) + tail).drop_first() == after_die);
                assert(after_die[0] == TaskOp::Start);
                assert(after_die.drop_first() == tail);
                assert(never_two_live(0, after_die));
                assert(never_two_live(live, task_ops(d) + tail));
            },
            Directive::Exit(_) => {
                assert((task_ops(d) + tail)[0] == TaskOp::Die);
                assert((task_ops(d) + tail).drop_first() == tail);
                assert(never_two_live(0, tail));
                assert(never_two_live(live, task_ops(d) + tail));
            },
            _ => {
                assert(task_ops(d) + tail == tail);
                assert(never_two_live(live, task_ops(d) + tail));
            },
        }
    }
}

/// `n` filesystem changes in a row.
pub open spec fn changes(n: nat) -> Seq<LoopInput> {
    Seq::new(n, |i: int| (LoopEvent::Change, None))
}

/// The end of the live task, reported with `status`.
pub open spec fn end_of_task(v: StateView, status: Option<i32>, policy: Option<Action>) -> LoopInput {
    (LoopEvent::Task(TaskEvent { task_id: v.task_id, info: CommandExecInfo::End { status } }), policy)
}

/// When the strategy is to wait, changes that come while the command runs
/// start nothing, however many they are, and the end of the run then
/// starts exactly one new run.
pub proof fn lemma_wait_then_restart(
    v: StateView,
    n: nat,
    status: Option<i32>,
    policy: Option<Action>,
)
    requires
        v.computing,
        v.auto_refresh == AutoRefresh::Enabled,
        v.strategy == OnChangeStrategy::WaitThenRestart,
        n >= 1 || v.changes > 0,
    ensures
        ({
            let ds = run_directives(v, changes(n).push(end_of_task(v, status, policy)));
            &&& ds.len() == n + 1
            &&& forall|i: int| 0 <= i < n ==> #[trigger] ds[i] == Directive::Stay
            &&& ds[n as int] is Restart
        }),
    decreases n,
{
    let e = end_of_task(v, status, policy);
    let inputs = changes(n).push(e);
    if n == 0 {
        assert(inputs[0] == e);
        assert(inputs.drop_first().len() == 0);
        let te = TaskEvent { task_id: v.task_id, info: CommandExecInfo::End { status } };
        assert(e.0 == LoopEvent::Task(te));
        let (v1, res) = on_event_spec(v, LoopEvent::Task(te));
        assert(res == Resolution::Finished);
        assert(v1.changes == v.changes);
        let (v1, d) = iteration(v, e);
        assert(d is Restart);
        assert(run_directives(v, inputs) == seq![d] + run_directives(v1, inputs.drop_first()));
    } else {
        assert(inputs[0] == (LoopEvent::Change, Option::<Action>::None));
        let (v1, d) = iteration(v, inputs[0]);
        assert(on_event_spec(v, LoopEvent::Change).0.changes == one_more_change(v.changes));
        assert(v1 == on_event_spec(v, LoopEvent::Change).0);
        if v.changes < usize::MAX {
            assert(one_more_change(v.changes) == v.changes + 1);
        } else {
            assert(usize::MAX > 0);
            assert(one_more_change(v.changes) == v.changes);
        }
        assert(v1.changes > 0);
        assert(d == Directive::Stay);
        assert(end_of_task(v1, status, policy) == e);
        assert(inputs.drop_first() =~= changes((n - 1) as nat).push(e));
        lemma_wait_then_restart(v1, (n - 1) as nat, status, policy);
        let rest = run_directives(v1, inputs.drop_first());
        let ds = run_directives(v, inputs);
        assert(ds == seq![d] + rest);
        assert forall|i: int| 0 <= i < n implies #[trigger] ds[i] == Directive::Stay by {
            if i > 0 {
                assert(ds[i] == rest[i - 1]);
            }
        }
    }
}

/// Events of a task other than the live one.
pub open spec fn stale(task_id: u64, infos: Seq<CommandExecInfo>) -> Seq<LoopInput> {
    Seq::new(
        infos.len(),
        |i: int| (LoopEvent::Task(TaskEvent { task_id, info: infos[i] }), None),
    )
}

/// Events of a task that is not the live one change nothing and ask for
/// nothing.
pub proof fn lemma_stale_events_ignored(v: StateView, task_id: u64, infos: Seq<CommandExecInfo>)
    requires
        task_id != v.task_id,
    ensures
        run_state(v, stale(task_id, infos)) == v,
        forall|i: int|
            0 <= i < infos.len() ==> #[trigger] run_directives(v, stale(task_id, infos))[i]
                == Directive::Stay,
        run_directives(v, stale(task_id, infos)).len() == infos.len(),
    decreases infos.len(),
{
    if infos.len() > 0 {
        let inputs = stale(task_id, infos);
        assert(inputs.drop_first() =~= stale(task_id, infos.drop_first()));
        lemma_stale_events_ignored(v, task_id, infos.drop_first());
        let rest = run_directives(v, inputs.drop_first());
        let ds = run_directives(v, inputs);
        assert(ds == seq![Directive::Stay] + rest);
        assert forall|i: int| 0 <= i < infos.len() implies #[trigger] ds[i] == Directive::Stay by {
            if i > 0 {
                assert(ds[i] == rest[i - 1]);
            }
        }
    }
}

/// When the strategy is to kill, a change that comes while the command runs
/// restarts it at once, with an empty output, and no later event of the
/// killed task reaches the new output.
pub proof fn lemma_kill_then_restart(v: StateView, old_events: Seq<CommandExecInfo>)
    requires
        v.computing,
        v.auto_refresh == AutoRefresh::Enabled,
        v.strategy == OnChangeStrategy::KillThenRestart,
    ensures
        ({
            let (v1, d) = iteration(v, (LoopEvent::Change, None));
            &&& d is Restart
            &&& v1.computing
            &&& v1.task_id != v.task_id
            &&& v1.output.len() == 0
            &&& run_state(v1, stale(v.task_id, old_events)) == v1
        }),
{
    let (v1, d) = iteration(v, (LoopEvent::Change, None));
    lemma_stale_events_ignored(v1, v.task_id, old_events);
}

/// Leaving the pause starts one run when changes came meanwhile, and none
/// otherwise.
pub proof fn lemma_toggle_pause(v: StateView)
    requires
        v.auto_refresh == AutoRefresh::Paused,
    ensures
        ({
            let (v1, d) = apply_spec(v, Action::Internal(Internal::TogglePause));
            &&& v1.auto_refresh == AutoRefresh::Enabled
            &&& (v.changes > 0 ==> d is Restart && task_ops(d) == seq![TaskOp::Die, TaskOp::Start])
            &&& (v.changes == 0 ==> d == Directive::Stay && task_ops(d).len() == 0)
        }),
{
}

} // verus!

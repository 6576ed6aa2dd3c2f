//! The task orchestrator's decisions: which execution may run, what each
//! request and each outcome does to a task, and how a supervised run ends.
//!
//! The caller performs the effects (storage, workspace creation, process
//! control, publishing) and hands the outcomes back.

use vstd::prelude::*;
use crate::status::{TaskStatus, valid_transition};
use crate::task::{Task, UpdateTask, updated};
use crate::worktree::{WorktreeError, error_text};
use crate::plan::PlanQuestion;

verus! {

/// Why an orchestrator request was refused or failed.
#[derive(Debug, Clone)]
pub enum TaskError {
    /// No such task.
    NotFound,
    /// An execution already runs for the task.
    AlreadyRunning,
    /// No execution runs for the task.
    NotRunning,
    /// The task is not in the state the request needs; its actual state.
    InvalidState(TaskStatus),
    /// The task has no branch to merge.
    NoBranch,
    /// The merge failed.
    Merge(WorktreeError),
    /// The task has no workspace to inspect.
    NoWorkspace,
}

/// The ids with a live execution. Each id is held at most once.
pub struct Registry {
    running: Vec<String>,
}

impl View for Registry {
    type V = Set<Seq<char>>;

    closed spec fn view(&self) -> Set<Seq<char>> {
        self.running.deep_view().to_set()
    }
}

/// What a start request yields, given the ids running at that moment.
pub open spec fn start_result(running: Set<Seq<char>>, task: Option<Task>) -> Result<(), TaskError> {
    match task {
        None => Err(TaskError::NotFound),
        Some(t) => if running.contains(t.id@) {
            Err(TaskError::AlreadyRunning)
        } else {
            Ok(())
        },
    }
}

impl Registry {
    /// No id appears twice.
    pub closed spec fn wf(&self) -> bool {
        forall|i: int, j: int|
            0 <= i < j < self.running@.len() ==> #[trigger] self.running@[i]@
                != #[trigger] self.running@[j]@
    }

    pub fn new() -> (r: Registry)
        ensures
            r.wf(),
            r@ == Set::<Seq<char>>::empty(),
    {
        let r = Registry { running: Vec::new() };
        assert(r.running.deep_view() =~= Seq::<Seq<char>>::empty());
        assert(r@ =~= Set::<Seq<char>>::empty());
        r
    }

    /// Position of `id`, if it is running.
    fn position(&self, id: &str) -> (r: Option<usize>)
        ensures
            match r {
                Some(k) => k < self.running@.len() && self.running@[k as int]@ == id@,
                None => !self@.contains(id@),
            },
    {
        let mut i: usize = 0;
        while i < self.running.len()
            invariant
                i <= self.running@.len(),
                forall|j: int| 0 <= j < i ==> #[trigger] self.running@[j]@ != id@,
            decreases self.running@.len() - i,
        {
            if crate::status::str_eq(self.running[i].as_str(), id) {
                return Some(i);
            }
            i = i + 1;
        }
        proof {
            if self@.contains(id@) {
                let k = choose|k: int|
                    0 <= k < self.running.deep_view().len() && self.running.deep_view()[k]
                        == id@;
                assert(self.running@[k]@ == id@);
            }
        }
        None
    }

    /// Whether an execution runs for `task_id`.
    pub fn is_task_running(&self, task_id: &str) -> (r: bool)
        ensures
            r == self@.contains(task_id@),
    {
        match self.position(task_id) {
            Some(k) => {
                assert(self.running.deep_view()[k as int] == task_id@);
                true
            },
            None => false,
        }
    }

    /// Registers an execution for `task_id` unless one is registered
    /// already; says whether it did.
    pub fn add_running_task(&mut self, task_id: &str) -> (r: bool)
        requires
            old(self).wf(),
        ensures
            final(self).wf(),
            r == !old(self)@.contains(task_id@),
            final(self)@ == old(self)@.insert(task_id@),
    {
        if self.is_task_running(task_id) {
            assert(self@.insert(task_id@) =~= self@);
            return false;
        }
        let ghost before = self.running.deep_view();
        self.running.push(String::from_str(task_id));
        assert(self.running.deep_view() =~= before.push(task_id@));
        assert forall|i: int, j: int| 0 <= i < j < self.running@.len() implies #[trigger] self.running@[i]@
            != #[trigger] self.running@[j]@ by {
            if j == before.len() {
                assert(self.running@[j]@ == task_id@);
                if before[i] == task_id@ {
                    assert(before.contains(task_id@));
                    assert(before.to_set().contains(task_id@));
                }
                assert(before[i] == self.running@[i]@);
            } else {
                assert(old(self).running@[i]@ != old(self).running@[j]@);
            }
        }
        assert(self@ =~= before.to_set().insert(task_id@)) by {
            assert forall|x: Seq<char>|
                #[trigger] before.push(task_id@).to_set().contains(x) <==> before.to_set().insert(
                    task_id@,
                ).contains(x) by {
                if before.push(task_id@).contains(x) && x != task_id@ {
                    let k = choose|k: int| 0 <= k < before.push(task_id@).len() && before.push(task_id@)[k] == x;
                    assert(before[k] == x);
                }
                if before.contains(x) {
                    let k = choose|k: int| 0 <= k < before.len() && before[k] == x;
                    assert(before.push(task_id@)[k] == x);
                }
                if x == task_id@ {
                    assert(before.push(task_id@)[before.len() as int] == x);
                }
            }
        }
        true
    }

    /// Removes the execution of `task_id`; says whether there was one.
    pub fn remove_running_task(&mut self, task_id: &str) -> (r: bool)
        requires
            old(self).wf(),
        ensures
            final(self).wf(),
            r == old(self)@.contains(task_id@),
            final(self)@ == old(self)@.remove(task_id@),
    {
        match self.position(task_id) {
            None => {
                assert(self@.remove(task_id@) =~= self@);
                false
            },
            Some(k) => {
                let ghost before = self.running@;
                assert(self.running.deep_view()[k as int] == task_id@);
                self.running.remove(k);
                assert(self.running@ =~= before.remove(k as int));
                assert forall|x: Seq<char>|
                    #[trigger] self@.contains(x) <==> old(self)@.remove(task_id@).contains(x) by {
                    if self@.contains(x) {
                        let j = choose|j: int|
                            0 <= j < self.running.deep_view().len() && self.running.deep_view()[j]
                                == x;
                        if j < k {
                            assert(before[j]@ == x);
                            assert(old(self).running.deep_view()[j] == x);
                        } else {
                            assert(before[j + 1]@ == x);
                            assert(old(self).running.deep_view()[j + 1] == x);
                        }
                        assert(x != task_id@);
                    }
                    if old(self)@.remove(task_id@).contains(x) {
                        let j = choose|j: int|
                            0 <= j < old(self).running.deep_view().len() && old(
                                self,
                            ).running.deep_view()[j] == x;
                        assert(j != k);
                        if j < k {
                            assert(self.running.deep_view()[j] == x);
                        } else {
                            assert(self.running.deep_view()[j - 1] == x);
                        }
                    }
                }
                assert(self@ =~= old(self)@.remove(task_id@));
                true
            },
        }
    }

    /// The admission step of a start request: refused when the task does
    /// not exist or already runs; otherwise its execution is registered,
    /// in the same step, so two starts of one task cannot both pass.
    pub fn begin_start(&mut self, task: Option<&Task>) -> (r: Result<(), TaskError>)
        requires
            old(self).wf(),
        ensures
            final(self).wf(),
            r == start_result(
                old(self)@,
                match task {
                    Some(t) => Some(*t),
                    None => None,
                },
            ),
            r is Ok ==> final(self)@ == old(self)@.insert(task.unwrap().id@),
            r is Err ==> final(self)@ == old(self)@,
    {
        match task {
            None => Err(TaskError::NotFound),
            Some(t) => {
                if self.add_running_task(t.id.as_str()) {
                    Ok(())
                } else {
                    assert(old(self)@.insert(t.id@) =~= old(self)@);
                    Err(TaskError::AlreadyRunning)
                }
            },
        }
    }

    /// A cancel request: refused when nothing runs for the task, and then
    /// nothing changes; otherwise the execution leaves the registry and the
    /// caller signals it to stop.
    pub fn begin_cancel(&mut self, task_id: &str) -> (r: Result<(), TaskError>)
        requires
            old(self).wf(),
        ensures
            final(self).wf(),
            !old(self)@.contains(task_id@) ==> r == Err::<(), TaskError>(TaskError::NotRunning)
                && final(self)@ == old(self)@,
            old(self)@.contains(task_id@) ==> r is Ok && final(self)@ == old(self)@.remove(
                task_id@,
            ),
    {
        if self.remove_running_task(task_id) {
            Ok(())
        } else {
            assert(old(self)@.remove(task_id@) =~= old(self)@);
            Err(TaskError::NotRunning)
        }
    }
}

/// Once a start of a task has been admitted, a second start of the same
/// task is refused as already running, whatever ran before.
pub proof fn lemma_start_exclusive(running: Set<Seq<char>>, t: Task)
    requires
        start_result(running, Some(t)) is Ok,
    ensures
        start_result(running.insert(t.id@), Some(t)) == Err::<(), TaskError>(
            TaskError::AlreadyRunning,
        ),
{
}

/// Error text recorded when the agent process exits without success.
pub const FAILED_RUN_MESSAGE: &'static str = "Executor completed with non-zero exit code";

/// A task after its start: in progress, bound to the workspace allocated
/// for this run, or to none when none was allocated.
pub open spec fn started(t: Task, workspace: Option<(String, String)>, now: i64) -> Task {
    Task {
        status: TaskStatus::InProgress,
        branch_name: match workspace {
            Some(w) => Some(w.0),
            None => None,
        },
        worktree_path: match workspace {
            Some(w) => Some(w.1),
            None => None,
        },
        updated_at: now,
        ..t
    }
}

/// A task after its process ended: in review.
pub open spec fn reviewed(t: Task, now: i64) -> Task {
    Task { status: TaskStatus::Review, updated_at: now, ..t }
}

/// A task after its execution was cancelled: back to Todo, with its
/// workspace released.
pub open spec fn cancelled(t: Task, now: i64) -> Task {
    Task {
        status: TaskStatus::Todo,
        branch_name: None,
        worktree_path: None,
        updated_at: now,
        ..t
    }
}

/// A task after its branch was merged: done, with no workspace.
pub open spec fn finished(t: Task, now: i64) -> Task {
    Task {
        status: TaskStatus::Done,
        branch_name: None,
        worktree_path: None,
        updated_at: now,
        ..t
    }
}

/// What a complete or merge request needs: the task, in Review, with a
/// branch; the branch is what gets merged.
pub open spec fn finish_result(task: Option<Task>) -> Result<Seq<char>, TaskError> {
    match task {
        None => Err(TaskError::NotFound),
        Some(t) => if t.status != TaskStatus::Review {
            Err(TaskError::InvalidState(t.status))
        } else {
            match t.branch_name {
                None => Err(TaskError::NoBranch),
                Some(b) => Ok(b@),
            }
        },
    }
}

/// The task once started, given the workspace allocated for it (none when
/// the project is not a repository or allocation failed).
pub fn started_task(task: Task, workspace: Option<(String, String)>, now: i64) -> (r: Task)
    ensures
        r == started(task, workspace, now),
        r.workspace_consistent(),
{
    let t = task.apply_update(UpdateTask::set_status(TaskStatus::InProgress), now);
    match workspace {
        Some(w) => Task { branch_name: Some(w.0), worktree_path: Some(w.1), ..t },
        None => Task { branch_name: None, worktree_path: None, ..t },
    }
}

/// Directory the agent runs in: the workspace when one was allocated,
/// else the project directory.
pub fn execution_dir(project_dir: &str, workspace: &Option<(String, String)>) -> (r: String)
    ensures
        r@ == match workspace {
            Some(w) => w.1@,
            None => project_dir@,
        },
{
    match workspace {
        Some(w) => w.1.clone(),
        None => String::from_str(project_dir),
    }
}

/// The agent's prompt: the description, or the title when there is none.
pub fn execution_prompt(task: &Task) -> (r: String)
    ensures
        r@ == match task.description {
            Some(d) => d@,
            None => task.title@,
        },
{
    match &task.description {
        Some(d) => d.clone(),
        None => task.title.clone(),
    }
}

/// The task once its process ended with `success`: in review, and with
/// the failure recorded as its error when the process failed.
pub fn completed_task(task: Task, success: bool, now: i64) -> (r: Task)
    ensures
        success ==> r == reviewed(task, now),
        task.workspace_consistent() ==> r.workspace_consistent(),
        !success ==> r == (Task { error_message: r.error_message, ..reviewed(task, now) }),
        !success ==> r.error_message is Some && r.error_message.unwrap()@ == FAILED_RUN_MESSAGE@,
{
    let update = if success {
        UpdateTask::set_status(TaskStatus::Review)
    } else {
        UpdateTask::set_error(String::from_str(FAILED_RUN_MESSAGE))
    };
    task.apply_update(update, now)
}

/// The task once its execution was cancelled.
pub fn cancelled_task(task: Task, now: i64) -> (r: Task)
    ensures
        r == cancelled(task, now),
        r.workspace_consistent(),
{
    let t = task.apply_update(UpdateTask::set_status(TaskStatus::Todo), now);
    Task { branch_name: None, worktree_path: None, ..t }
}

/// Checks a complete or merge request; on success, the branch to merge.
pub fn check_finishable(task: Option<&Task>) -> (r: Result<String, TaskError>)
    ensures
        match (r, finish_result(
            match task {
                Some(t) => Some(*t),
                None => None,
            },
        )) {
            (Ok(b), Ok(s)) => b@ == s,
            (Err(e), Err(f)) => e == f,
            _ => false,
        },
{
    match task {
        None => Err(TaskError::NotFound),
        Some(t) => {
            if t.status != TaskStatus::Review {
                Err(TaskError::InvalidState(t.status))
            } else {
                match &t.branch_name {
                    None => Err(TaskError::NoBranch),
                    Some(b) => Ok(b.clone()),
                }
            }
        },
    }
}

/// The task once its branch was merged and its workspace removed.
pub fn finished_task(task: Task, now: i64) -> (r: Task)
    ensures
        r == finished(task, now),
        r.workspace_consistent(),
{
    let t = task.apply_update(UpdateTask::set_status(TaskStatus::Done), now);
    Task { branch_name: None, worktree_path: None, ..t }
}

/// A created task that is started, whose process succeeds, and that is
/// then completed ends in Done with no branch and no workspace recorded;
/// each step follows the lifecycle.
pub proof fn lemma_round_trip(
    t: Task,
    workspace: Option<(String, String)>,
    t1: i64,
    t2: i64,
    t3: i64,
)
    requires
        t.status == TaskStatus::Todo,
    ensures
        ({
            let s = started(t, workspace, t1);
            let c = reviewed(s, t2);
            let f = finished(c, t3);
            &&& crate::status::valid_transition(t.status, s.status)
            &&& crate::status::valid_transition(s.status, c.status)
            &&& finish_result(Some(c)) is Ok <==> c.branch_name is Some
            &&& crate::status::valid_transition(c.status, f.status)
            &&& f.status == TaskStatus::Done
            &&& f.branch_name is None
            &&& f.worktree_path is None
            &&& f.id == t.id
        }),
{
}

/// Shortened commit hash: its first seven characters.
pub fn short_commit(hash: &str) -> (r: String)
    ensures
        r@ == if hash@.len() > 7 {
            hash@.subrange(0, 7)
        } else {
            hash@
        },
{
    let n = hash.unicode_len();
    let end = if n > 7 { 7 } else { n };
    String::from_str(hash.substring_char(0, end))
}

/// Message reported after a merge.
pub fn merge_message(branch: &str, commit: Option<&str>) -> (r: String)
    ensures
        r@ == match commit {
            Some(c) => branch@ + " merged to main ("@ + c@ + ")"@,
            None => branch@ + " merged to main"@,
        },
{
    let mut r = String::from_str(branch);
    match commit {
        Some(c) => {
            r.append(" merged to main (");
            r.append(c);
            r.append(")");
        },
        None => {
            r.append(" merged to main");
        },
    }
    r
}

/// Whether an update may set the status: it keeps the status, or takes
/// one edge of the lifecycle.
pub open spec fn status_change_allowed(from: TaskStatus, to: Option<TaskStatus>) -> bool {
    match to {
        None => true,
        Some(s) => s == from || valid_transition(from, s),
    }
}

/// An update requested from outside the orchestrator: refused, with the
/// task's actual state, when it would move the status off the lifecycle
/// (Done only from Review, no Todo to Done); otherwise applied.
pub fn checked_update(task: Task, input: UpdateTask, now: i64) -> (r: Result<Task, TaskError>)
    ensures
        status_change_allowed(task.status, input.status) ==> r == Ok::<Task, TaskError>(
            updated(task, input, now),
        ),
        !status_change_allowed(task.status, input.status) ==> r == Err::<Task, TaskError>(
            TaskError::InvalidState(task.status),
        ),
{
    let allowed = match input.status {
        None => true,
        Some(s) => s == task.status || transition_allowed(task.status, s),
    };
    if allowed {
        Ok(task.apply_update(input, now))
    } else {
        Err(TaskError::InvalidState(task.status))
    }
}

/// Whether the lifecycle has an edge from `from` to `to`.
pub fn transition_allowed(from: TaskStatus, to: TaskStatus) -> (r: bool)
    ensures
        r == valid_transition(from, to),
{
    match (from, to) {
        (TaskStatus::Todo, TaskStatus::InProgress) => true,
        (TaskStatus::InProgress, TaskStatus::Review) => true,
        (TaskStatus::InProgress, TaskStatus::Todo) => true,
        (TaskStatus::Review, TaskStatus::Done) => true,
        _ => false,
    }
}

/// Checks a diff request; on success, the workspace to inspect.
pub fn check_diffable(task: Option<&Task>) -> (r: Result<String, TaskError>)
    ensures
        task is None ==> r == Err::<String, TaskError>(TaskError::NotFound),
        task is Some && task.unwrap().worktree_path is None ==> r == Err::<String, TaskError>(
            TaskError::NoWorkspace,
        ),
        task is Some && task.unwrap().worktree_path is Some ==> r == Ok::<String, TaskError>(
            task.unwrap().worktree_path.unwrap(),
        ),
{
    match task {
        None => Err(TaskError::NotFound),
        Some(t) => match &t.worktree_path {
            None => Err(TaskError::NoWorkspace),
            Some(p) => Ok(p.clone()),
        },
    }
}

/// Text reported when a merge fails.
pub fn merge_failure_text(e: &WorktreeError) -> (r: String)
    ensures
        r@ == "Failed to merge branch: "@ + error_text(*e),
{
    let mut r = String::from_str("Failed to merge branch: ");
    let m = e.message();
    r.append(m.as_str());
    r
}

/// Event of the agent process.
#[derive(Debug, Clone)]
pub enum ExecutorEvent {
    Stdout(String),
    Stderr(String),
    Started,
    Completed { success: bool },
    Error(String),
}

/// Failure of the agent process supervisor.
#[derive(Debug, Clone)]
pub enum ExecutorError {
    Io(String),
    /// The agent binary could not be found.
    ClaudeNotFound,
    Process(String),
    ChannelClosed,
}

/// Runs the agent in a working directory.
#[derive(Debug, Clone)]
pub struct ClaudeExecutor {
    pub working_dir: String,
}

impl ClaudeExecutor {
    pub fn new(working_dir: String) -> (r: ClaudeExecutor)
        ensures
            r.working_dir == working_dir,
    {
        ClaudeExecutor { working_dir }
    }
}

/// What a supervised execution waits on: an event of the process, or a
/// cancellation.
#[derive(Debug, Clone)]
pub enum SupervisorInput {
    Event(ExecutorEvent),
    Cancelled,
}

/// What the supervisor tells its caller to do.
#[derive(Debug, Clone)]
pub enum SupervisorAction {
    /// Publish a line of output on the named stream.
    Log { stream: String, line: String },
    /// The process ended: record the outcome, publish it, unregister.
    Complete { success: bool },
    /// Cancellation won: kill the process, reset the task, unregister.
    Abort,
    /// Nothing to do.
    Ignore,
}

/// Whether an input ends the execution.
pub open spec fn ends_run(i: SupervisorInput) -> bool {
    match i {
        SupervisorInput::Cancelled => true,
        SupervisorInput::Event(ExecutorEvent::Completed { .. }) => true,
        _ => false,
    }
}

/// Whether an action ends the execution.
pub open spec fn is_final(a: SupervisorAction) -> bool {
    match a {
        SupervisorAction::Complete { .. } => true,
        SupervisorAction::Abort => true,
        _ => false,
    }
}

/// How many inputs end a run, counting only the first: once ended, a run
/// ends no more.
pub open spec fn endings(done: bool, inputs: Seq<SupervisorInput>) -> nat
    decreases inputs.len(),
{
    if inputs.len() == 0 {
        0
    } else if !done && ends_run(inputs[0]) {
        1 + endings(true, inputs.drop_first())
    } else {
        endings(done, inputs.drop_first())
    }
}

/// A supervised run ends at most once, whichever of completion and
/// cancellation comes first and however many follow.
pub proof fn lemma_ends_once(done: bool, inputs: Seq<SupervisorInput>)
    ensures
        endings(done, inputs) <= if done {
            0nat
        } else {
            1nat
        },
    decreases inputs.len(),
{
    if inputs.len() > 0 {
        if !done && ends_run(inputs[0]) {
            lemma_ends_once(true, inputs.drop_first());
        } else {
            lemma_ends_once(done, inputs.drop_first());
        }
    }
}

/// The decisions of one supervised execution.
pub struct Supervisor {
    /// The run has ended.
    pub done: bool,
}

impl Supervisor {
    pub fn new() -> (r: Supervisor)
        ensures
            !r.done,
    {
        Supervisor { done: false }
    }

    /// Decides what an input means. Output lines are published; the first
    /// completion or cancellation ends the run; after the end nothing more
    /// happens.
    pub fn step(&mut self, input: SupervisorInput) -> (r: SupervisorAction)
        ensures
            final(self).done == (old(self).done || ends_run(input)),
            is_final(r) <==> (!old(self).done && ends_run(input)),
            !old(self).done ==> match input {
                SupervisorInput::Cancelled => r == SupervisorAction::Abort,
                SupervisorInput::Event(ExecutorEvent::Completed { success }) => r
                    == SupervisorAction::Complete { success },
                SupervisorInput::Event(ExecutorEvent::Stdout(l)) => r == SupervisorAction::Log {
                    stream: r->stream,
                    line: l,
                } && r->stream@ == "stdout"@,
                SupervisorInput::Event(ExecutorEvent::Stderr(l)) => r == SupervisorAction::Log {
                    stream: r->stream,
                    line: l,
                } && r->stream@ == "stderr"@,
                _ => r == SupervisorAction::Ignore,
            },
            old(self).done ==> r == SupervisorAction::Ignore,
    {
        if self.done {
            return SupervisorAction::Ignore;
        }
        match input {
            SupervisorInput::Cancelled => {
                self.done = true;
                SupervisorAction::Abort
            },
            SupervisorInput::Event(ExecutorEvent::Completed { success }) => {
                self.done = true;
                SupervisorAction::Complete { success }
            },
            SupervisorInput::Event(ExecutorEvent::Stdout(l)) => SupervisorAction::Log {
                stream: String::from_str("stdout"),
                line: l,
            },
            SupervisorInput::Event(ExecutorEvent::Stderr(l)) => SupervisorAction::Log {
                stream: String::from_str("stderr"),
                line: l,
            },
            _ => SupervisorAction::Ignore,
        }
    }
}

/// Events published to observers.
#[derive(Debug, Clone)]
pub enum WsMessage {
    TaskUpdated { task: Task },
    TaskDeleted { task_id: String },
    Log { task_id: String, content: String, stream: String },
    ExecutionComplete { task_id: String, success: bool },
    MergeStarted { task_id: String },
    MergeProgress { task_id: String, status: String },
    MergeComplete { task_id: String, commit: String, message: String },
    MergeFailed { task_id: String, error: String },
    PlanQuestions { session_id: String, questions: Vec<PlanQuestion> },
    PlanSummary { session_id: String, summary: String },
    PlanError { session_id: String, error: String },
    PlanOutput { session_id: String, content: String },
    RebuildStarted,
    RebuildProgress { message: String },
    RebuildComplete,
    RebuildFailed { error: String },
    Ping,
    Pong,
}

/// Requests observers send.
#[derive(Debug, Clone)]
pub enum ClientMessage {
    Subscribe { task_id: String },
    Unsubscribe { task_id: String },
    Ping,
}

} // verus!

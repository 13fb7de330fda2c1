//! The runtime state that is kept of each task: how its last run ended.

use vstd::prelude::*;

use crate::calendar::Timestamp;
use crate::config::{judge_write, write_failure, FileWrite};
use crate::failure::{caused, told, Failure, FailureView};
use crate::runtime_paths::{runtime_data_path_for_config, runtime_path};
use crate::task_runner::{
    copy_steps, step_views, OutcomeView, StepView, TaskOutcome, TaskRunStatus, TaskStepResult,
};
use crate::text::concat3;
use crate::text_map::TextMap;

verus! {

/// How the last run of a task ended.
pub struct RuntimeView {
    pub last_status: TaskRunStatus,
    pub last_summary: Seq<char>,
    pub last_started_at: (int, int),
    pub last_finished_at: (int, int),
    pub last_steps: Seq<StepView>,
}

/// How the last run of a task ended.
#[derive(Debug)]
pub struct TaskRuntimeState {
    pub last_status: TaskRunStatus,
    pub last_summary: String,
    pub last_started_at: Timestamp,
    pub last_finished_at: Timestamp,
    pub last_steps: Vec<TaskStepResult>,
}

impl View for TaskRuntimeState {
    type V = RuntimeView;

    open spec fn view(&self) -> RuntimeView {
        RuntimeView {
            last_status: self.last_status,
            last_summary: self.last_summary@,
            last_started_at: self.last_started_at@,
            last_finished_at: self.last_finished_at@,
            last_steps: step_views(self.last_steps@),
        }
    }
}

/// What is kept of an outcome.
pub open spec fn runtime_of(o: OutcomeView) -> RuntimeView {
    RuntimeView {
        last_status: o.status,
        last_summary: o.summary,
        last_started_at: o.started_at,
        last_finished_at: o.finished_at,
        last_steps: o.steps,
    }
}

impl TaskRuntimeState {
    /// What is kept of an outcome.
    pub fn from_outcome(outcome: &TaskOutcome) -> (r: TaskRuntimeState)
        ensures
            r@ == runtime_of(outcome@),
    {
        TaskRuntimeState {
            last_status: outcome.status(),
            last_summary: outcome.summary().to_owned(),
            last_started_at: outcome.started_at(),
            last_finished_at: outcome.finished_at(),
            last_steps: copy_steps(outcome.steps()),
        }
    }
}

impl Clone for TaskRuntimeState {
    fn clone(&self) -> (r: Self)
        ensures
            r@ == self@,
    {
        TaskRuntimeState {
            last_status: self.last_status,
            last_summary: self.last_summary.clone(),
            last_started_at: self.last_started_at.clone(),
            last_finished_at: self.last_finished_at.clone(),
            last_steps: copy_steps(&self.last_steps),
        }
    }
}

/// The states of tasks by id.
pub open spec fn runtime_map(m: Map<Seq<char>, TaskRuntimeState>) -> Map<Seq<char>, RuntimeView> {
    Map::new(|k: Seq<char>| m.dom().contains(k), |k: Seq<char>| m[k]@)
}

/// The state of all tasks.
#[derive(Debug)]
pub struct RuntimeStateFile {
    pub version: u32,
    pub tasks: TextMap<TaskRuntimeState>,
}

/// The state of all tasks.
#[verifier::ext_equal]
pub struct RuntimeFileView {
    pub version: u32,
    pub tasks: Map<Seq<char>, RuntimeView>,
}

impl View for RuntimeStateFile {
    type V = RuntimeFileView;

    open spec fn view(&self) -> RuntimeFileView {
        RuntimeFileView { version: self.version, tasks: runtime_map(self.tasks@) }
    }
}

/// The state before any run.
pub open spec fn empty_state() -> RuntimeFileView {
    RuntimeFileView { version: 1, tasks: Map::empty() }
}

impl Default for RuntimeStateFile {
    fn default() -> (r: Self)
        ensures
            r@ == empty_state(),
    {
        let r = RuntimeStateFile { version: 1, tasks: TextMap::new() };
        assert(r@ =~= empty_state());
        r
    }
}

impl RuntimeStateFile {
    /// The state of the task with that id.
    pub fn task(&self, id: &str) -> (r: Option<&TaskRuntimeState>)
        ensures
            match r {
                Some(state) => self@.tasks.dom().contains(id@) && state@ == self@.tasks[id@],
                None => !self@.tasks.dom().contains(id@),
            },
    {
        self.tasks.get(id)
    }
}

/// The state of all tasks of a configuration, with the file that it is kept in.
#[derive(Debug)]
pub struct RuntimeStateStore {
    path: String,
    state: RuntimeStateFile,
}

/// What came of reading and parsing a state file. The texts are the errors below.
#[derive(Debug)]
pub enum StateRead {
    Parsed(RuntimeStateFile),
    Missing,
    Unreadable(String),
    Unparsable(String),
}

/// The failure of a state file. A missing file is none.
pub open spec fn state_read_failure(path: Seq<char>, read: StateRead) -> Option<FailureView> {
    match read {
        StateRead::Parsed(_) => None,
        StateRead::Missing => None,
        StateRead::Unreadable(error) => Some(
            caused("failed to read runtime state '"@ + path + "'"@, error@),
        ),
        StateRead::Unparsable(error) => Some(
            caused("failed to parse runtime state '"@ + path + "'"@, error@),
        ),
    }
}

/// The state that a file holds.
pub open spec fn state_read(read: StateRead) -> RuntimeFileView {
    match read {
        StateRead::Parsed(state) => state@,
        _ => empty_state(),
    }
}

/// The file that holds the state of a configuration's tasks.
pub fn state_path_for_config(config_path: &str) -> (r: String)
    ensures
        r@ == runtime_path(config_path@, "state.yaml"@),
{
    runtime_data_path_for_config(config_path, "state.yaml")
}

/// The state that a file holds: that before any run where there is no file.
pub fn load_runtime_state(path: &str, read: StateRead) -> (r: Result<RuntimeStateFile, Failure>)
    ensures
        told(r) == state_read_failure(path@, read),
        r is Ok ==> r->Ok_0@ == state_read(read),
{
    match read {
        StateRead::Parsed(state) => Ok(state),
        StateRead::Missing => Ok(RuntimeStateFile::default()),
        StateRead::Unreadable(error) => Err(
            Failure::caused_by(concat3("failed to read runtime state '", path, "'"), &error),
        ),
        StateRead::Unparsable(error) => Err(
            Failure::caused_by(concat3("failed to parse runtime state '", path, "'"), &error),
        ),
    }
}

/// Reports what came of writing the state to its file.
pub fn persist_runtime_state(path: &str, write: &FileWrite) -> (r: Result<(), Failure>)
    ensures
        told(r) == write_failure(
            "failed to create state directory"@,
            "failed to serialize runtime state"@,
            "failed to write runtime state"@,
            path@,
            *write,
        ),
{
    judge_write(
        "failed to create state directory",
        "failed to serialize runtime state",
        "failed to write runtime state",
        path,
        write,
    )
}

/// The state with an outcome as the last one of a task.
pub open spec fn recorded(
    state: RuntimeFileView,
    task_id: Seq<char>,
    outcome: OutcomeView,
) -> RuntimeFileView {
    RuntimeFileView { tasks: state.tasks.insert(task_id, runtime_of(outcome)), ..state }
}

impl RuntimeStateStore {
    /// The file that the state is kept in.
    pub closed spec fn file(&self) -> Seq<char> {
        self.path@
    }

    /// The state of all tasks.
    pub closed spec fn states(&self) -> RuntimeFileView {
        self.state@
    }

    /// The store behind a state file.
    pub fn load(path: String, read: StateRead) -> (r: Result<RuntimeStateStore, Failure>)
        ensures
            told(r) == state_read_failure(path@, read),
            r is Ok ==> r->Ok_0.file() == path@ && r->Ok_0.states() == state_read(read),
    {
        match load_runtime_state(&path, read) {
            Ok(state) => Ok(RuntimeStateStore { path, state }),
            Err(failure) => Err(failure),
        }
    }

    /// The store behind the state file of a configuration.
    pub fn from_config_path(config_path: &str, read: StateRead) -> (r: Result<
        RuntimeStateStore,
        Failure,
    >)
        ensures
            told(r) == state_read_failure(runtime_path(config_path@, "state.yaml"@), read),
            r is Ok ==> r->Ok_0.file() == runtime_path(config_path@, "state.yaml"@)
                && r->Ok_0.states() == state_read(read),
    {
        RuntimeStateStore::load(state_path_for_config(config_path), read)
    }

    /// The file that the state is kept in.
    pub fn path(&self) -> (r: &str)
        ensures
            r@ == self.file(),
    {
        self.path.as_str()
    }

    /// The state of all tasks.
    pub fn state(&self) -> (r: &RuntimeStateFile)
        ensures
            r@ == self.states(),
    {
        &self.state
    }

    /// Keeps an outcome as the last one of a task. All other tasks stay as they are.
    pub fn record(&mut self, task_id: &str, outcome: &TaskOutcome)
        ensures
            final(self).file() == old(self).file(),
            final(self).states() == recorded(old(self).states(), task_id@, outcome@),
    {
        self.state.tasks.insert(task_id.to_owned(), TaskRuntimeState::from_outcome(outcome));
        assert(self.states() =~= recorded(old(self).states(), task_id@, outcome@));
    }

    /// Forgets a task. All other tasks stay as they are.
    pub fn remove_task(&mut self, task_id: &str)
        ensures
            final(self).file() == old(self).file(),
            final(self).states() == (RuntimeFileView {
                tasks: old(self).states().tasks.remove(task_id@),
                ..old(self).states()
            }),
    {
        self.state.tasks.remove(task_id);
        assert(self.states() =~= (RuntimeFileView {
            tasks: old(self).states().tasks.remove(task_id@),
            ..old(self).states()
        }));
    }
}

/// Where the file of a state holds what was recorded last, reading it gives that outcome for its
/// task, whatever was kept of that task before, and leaves the version and all other tasks as they
/// were.
pub proof fn law_recorded_state_reads_back(
    before: RuntimeFileView,
    task_id: Seq<char>,
    outcome: OutcomeView,
    earlier: OutcomeView,
    path: Seq<char>,
    read: StateRead,
)
    requires
        read is Parsed,
        read->Parsed_0@ == recorded(before, task_id, outcome),
    ensures
        state_read_failure(path, read) is None,
        state_read(read).version == before.version,
        state_read(read).tasks == before.tasks.insert(task_id, runtime_of(outcome)),
        state_read(read).tasks[task_id] == runtime_of(outcome),
        forall|other: Seq<char>|
            other != task_id ==> (#[trigger] state_read(read).tasks.dom().contains(other)
                <==> before.tasks.dom().contains(other)) && (before.tasks.dom().contains(other)
                ==> state_read(read).tasks[other] == before.tasks[other]),
        state_read(read) == recorded(recorded(before, task_id, earlier), task_id, outcome),
{
    assert(recorded(recorded(before, task_id, earlier), task_id, outcome) =~= recorded(
        before,
        task_id,
        outcome,
    ));
}

} // verus!

//! Runs of a task: how a process is launched, what its end amounts to, and when a failed run is
//! tried again.

use vstd::prelude::*;
use vstd::std_specs::cmp::PartialEqSpecImpl;

use crate::calendar::Timestamp;
use crate::config::{CommandConfig, CommandView, RetryConfig, TaskConfig};
use crate::failure::{plain, told, Failure};
use crate::text::{
    concat, concat3, concat5, copy_opt, copy_texts, decimal, decimal_text, opt_text, signed_decimal,
    signed_text, texts,
};
use crate::text_map::{map_of, overlaid, overlay, text_pairs, EnvMap};

verus! {

// ---------------------------------------------------------------------------------------------
// Outcomes
// ---------------------------------------------------------------------------------------------
/// How a run ended.
#[derive(Debug, Clone, Copy, PartialEq, Eq, Structural)]
pub enum TaskRunStatus {
    Success,
    Failed,
    Error,
    TimedOut,
    Cancelled,
}

/// A status as one lower-case word.
pub open spec fn status_word(status: TaskRunStatus) -> Seq<char> {
    match status {
        TaskRunStatus::Success => "success"@,
        TaskRunStatus::Failed => "failed"@,
        TaskRunStatus::Error => "error"@,
        TaskRunStatus::TimedOut => "timedout"@,
        TaskRunStatus::Cancelled => "cancelled"@,
    }
}

impl TaskRunStatus {
    /// The status as one lower-case word.
    pub fn word(&self) -> (r: String)
        ensures
            r@ == status_word(*self),
    {
        match self {
            TaskRunStatus::Success => "success".to_owned(),
            TaskRunStatus::Failed => "failed".to_owned(),
            TaskRunStatus::Error => "error".to_owned(),
            TaskRunStatus::TimedOut => "timedout".to_owned(),
            TaskRunStatus::Cancelled => "cancelled".to_owned(),
        }
    }
}

/// How one step of a run ended.
pub struct StepView {
    pub step_id: Seq<char>,
    pub status: TaskRunStatus,
    pub summary: Seq<char>,
    pub started_at: (int, int),
    pub finished_at: (int, int),
    pub exit_code: i32,
}

/// How one step of a run ended.
#[derive(Debug)]
pub struct TaskStepResult {
    pub step_id: String,
    pub status: TaskRunStatus,
    pub summary: String,
    pub started_at: Timestamp,
    pub finished_at: Timestamp,
    pub exit_code: i32,
}

impl View for TaskStepResult {
    type V = StepView;

    open spec fn view(&self) -> StepView {
        StepView {
            step_id: self.step_id@,
            status: self.status,
            summary: self.summary@,
            started_at: self.started_at@,
            finished_at: self.finished_at@,
            exit_code: self.exit_code,
        }
    }
}

impl Clone for TaskStepResult {
    fn clone(&self) -> (r: Self)
        ensures
            r@ == self@,
    {
        TaskStepResult {
            step_id: self.step_id.clone(),
            status: self.status,
            summary: self.summary.clone(),
            started_at: self.started_at.clone(),
            finished_at: self.finished_at.clone(),
            exit_code: self.exit_code,
        }
    }
}

/// The views of a list of steps.
pub open spec fn step_views(v: Seq<TaskStepResult>) -> Seq<StepView> {
    Seq::new(v.len(), |i: int| v[i]@)
}

/// A copy of a list of steps.
pub fn copy_steps(v: &Vec<TaskStepResult>) -> (r: Vec<TaskStepResult>)
    ensures
        step_views(r@) == step_views(v@),
{
    let mut r: Vec<TaskStepResult> = Vec::new();
    let mut i: usize = 0;
    while i < v.len()
        invariant
            i <= v@.len(),
            r@.len() == i,
            forall|j: int| 0 <= j < i ==> (#[trigger] r@[j])@ == v@[j]@,
        decreases v@.len() - i,
    {
        r.push(v[i].clone());
        i = i + 1;
    }
    assert(step_views(r@) =~= step_views(v@));
    r
}

/// How a process ended.
#[derive(Debug, Clone, Copy, PartialEq, Eq, Structural)]
pub enum ProcessExit {
    Code(i32),
    Signal(u8),
    Unknown,
}

/// The outcome of a run.
pub struct OutcomeView {
    pub status: TaskRunStatus,
    pub summary: Seq<char>,
    pub exit: Option<ProcessExit>,
    pub explicit_exit_code: Option<i32>,
    pub started_at: (int, int),
    pub finished_at: (int, int),
    pub steps: Seq<StepView>,
    pub stdout: Option<Seq<char>>,
    pub stderr: Option<Seq<char>>,
}

/// The outcome of a run.
#[derive(Debug)]
pub struct TaskOutcome {
    status: TaskRunStatus,
    summary: String,
    exit: Option<ProcessExit>,
    explicit_exit_code: Option<i32>,
    started_at: Timestamp,
    finished_at: Timestamp,
    steps: Vec<TaskStepResult>,
    stdout: Option<String>,
    stderr: Option<String>,
}

impl View for TaskOutcome {
    type V = OutcomeView;

    closed spec fn view(&self) -> OutcomeView {
        OutcomeView {
            status: self.status,
            summary: self.summary@,
            exit: self.exit,
            explicit_exit_code: self.explicit_exit_code,
            started_at: self.started_at@,
            finished_at: self.finished_at@,
            steps: step_views(self.steps@),
            stdout: opt_text(self.stdout),
            stderr: opt_text(self.stderr),
        }
    }
}

/// The exit code of a run: the one it was given, that of its process, the shell's code for the
/// signal that ended it, or 1.
pub open spec fn outcome_exit_code(o: OutcomeView) -> int {
    match o.explicit_exit_code {
        Some(code) => code as int,
        None => match o.exit {
            Some(ProcessExit::Code(code)) => code as int,
            Some(ProcessExit::Signal(signal)) => 128 + signal,
            _ => 1,
        },
    }
}

/// An outcome that no process stands behind.
pub open spec fn made_up(
    status: TaskRunStatus,
    summary: Seq<char>,
    exit_code: i32,
    started_at: (int, int),
    finished_at: (int, int),
) -> OutcomeView {
    OutcomeView {
        status,
        summary,
        exit: None,
        explicit_exit_code: Some(exit_code),
        started_at,
        finished_at,
        steps: Seq::empty(),
        stdout: None,
        stderr: None,
    }
}

/// The summary of a run that took more than one attempt.
pub open spec fn retried_summary(o: OutcomeView, attempts: u16) -> Seq<char> {
    if attempts > 1 {
        if o.status == TaskRunStatus::Success {
            o.summary + " (succeeded after "@ + decimal(attempts as nat) + " attempts)"@
        } else {
            o.summary + " (failed after "@ + decimal(attempts as nat) + " attempts)"@
        }
    } else {
        o.summary
    }
}

/// The outcome of a run that took that many attempts.
pub open spec fn with_attempts(o: OutcomeView, attempts: u16) -> OutcomeView {
    OutcomeView { summary: retried_summary(o, attempts), ..o }
}

impl TaskOutcome {
    /// An outcome that no process stands behind.
    pub fn synthetic(
        status: TaskRunStatus,
        summary: String,
        exit_code: i32,
        started_at: Timestamp,
        finished_at: Timestamp,
    ) -> (r: TaskOutcome)
        ensures
            r@ == made_up(status, summary@, exit_code, started_at@, finished_at@),
    {
        let r = TaskOutcome {
            status,
            summary,
            exit: None,
            explicit_exit_code: Some(exit_code),
            started_at,
            finished_at,
            steps: Vec::new(),
            stdout: None,
            stderr: None,
        };
        assert(r@.steps =~= Seq::empty());
        r
    }

    /// The outcome of a run that panicked at some instant.
    pub fn panic(task_id: &str, error: &str, now: &Timestamp) -> (r: TaskOutcome)
        ensures
            r@ == made_up(
                TaskRunStatus::Error,
                "task '"@ + task_id@ + "' panicked: "@ + error@,
                1,
                now@,
                now@,
            ),
    {
        let mut summary = concat3("task '", task_id, "' panicked: ");
        summary.append(error);
        TaskOutcome::synthetic(TaskRunStatus::Error, summary, 1, now.clone(), now.clone())
    }

    /// Whether the run succeeded.
    pub fn success(&self) -> (r: bool)
        ensures
            r == (self@.status == TaskRunStatus::Success),
    {
        self.status == TaskRunStatus::Success
    }

    /// How the run ended.
    pub fn status(&self) -> (r: TaskRunStatus)
        ensures
            r == self@.status,
    {
        self.status
    }

    /// What the run amounts to in words.
    pub fn summary(&self) -> (r: &str)
        ensures
            r@ == self@.summary,
    {
        self.summary.as_str()
    }

    /// When the run started.
    pub fn started_at(&self) -> (r: Timestamp)
        ensures
            r@ == self@.started_at,
    {
        self.started_at.clone()
    }

    /// When the run finished.
    pub fn finished_at(&self) -> (r: Timestamp)
        ensures
            r@ == self@.finished_at,
    {
        self.finished_at.clone()
    }

    /// The exit code of the run.
    pub fn exit_code(&self) -> (r: i32)
        ensures
            r == outcome_exit_code(self@),
    {
        if let Some(code) = self.explicit_exit_code {
            return code;
        }
        match self.exit {
            Some(ProcessExit::Code(code)) => code,
            Some(ProcessExit::Signal(signal)) => 128 + signal as i32,
            _ => 1,
        }
    }

    /// The steps of the run.
    pub fn steps(&self) -> (r: &Vec<TaskStepResult>)
        ensures
            step_views(r@) == self@.steps,
    {
        &self.steps
    }

    /// What the run wrote to its standard output, where that was kept.
    pub fn stdout(&self) -> (r: Option<&String>)
        ensures
            match r {
                Some(text) => self@.stdout == Some(text@),
                None => self@.stdout is None,
            },
    {
        match &self.stdout {
            Some(text) => Some(text),
            None => None,
        }
    }

    /// What the run wrote to its standard error, where that was kept.
    pub fn stderr(&self) -> (r: Option<&String>)
        ensures
            match r {
                Some(text) => self@.stderr == Some(text@),
                None => self@.stderr is None,
            },
    {
        match &self.stderr {
            Some(text) => Some(text),
            None => None,
        }
    }

    /// The outcome of a run that took that many attempts.
    pub fn with_retry_summary(self, attempts_run: u16) -> (r: TaskOutcome)
        ensures
            r@ == with_attempts(self@, attempts_run),
    {
        let mut r = self;
        if attempts_run > 1 {
            let ghost before = r.summary@;
            let middle = if r.status == TaskRunStatus::Success {
                " (succeeded after "
            } else {
                " (failed after "
            };
            let mut summary = concat3(&r.summary, middle, &decimal_text(attempts_run as u64));
            summary.append(" attempts)");
            r.summary = summary;
        }
        r
    }
}

/// Whether a run succeeded, as a result.
pub fn outcome_or_error(outcome: &TaskOutcome) -> (r: Result<(), Failure>)
    ensures
        told(r) == (if outcome@.status == TaskRunStatus::Success {
            None
        } else {
            Some(plain(outcome@.summary))
        }),
{
    if outcome.success() {
        Ok(())
    } else {
        Err(Failure::new(outcome.summary().to_owned()))
    }
}

/// The message of a run whose worker panicked.
pub open spec fn panic_message(task_id: Seq<char>, error: Seq<char>) -> Seq<char> {
    "task '"@ + task_id + "' panicked: "@ + error
}

/// What a guarded run reports: its outcome, or that its worker panicked with some error.
pub fn guarded(task_id: &str, run: Result<TaskOutcome, String>) -> (r: Result<TaskOutcome, Failure>)
    ensures
        match run {
            Ok(outcome) => r == Ok::<TaskOutcome, Failure>(outcome),
            Err(error) => told(r) == Some(plain(panic_message(task_id@, error@))),
        },
{
    match run {
        Ok(outcome) => Ok(outcome),
        Err(error) => {
            let mut message = concat3("task '", task_id, "' panicked: ");
            message.append(&error);
            Err(Failure::new(message))
        },
    }
}

/// The outcome of a guarded run: where its worker panicked, an error outcome that says so.
pub fn settle_guarded(
    task_id: &str,
    run: Result<TaskOutcome, String>,
    now: &Timestamp,
) -> (r: TaskOutcome)
    ensures
        match run {
            Ok(outcome) => r == outcome,
            Err(error) => r@ == made_up(
                TaskRunStatus::Error,
                panic_message(task_id@, panic_message(task_id@, error@)),
                1,
                now@,
                now@,
            ),
        },
{
    match guarded(task_id, run) {
        Ok(outcome) => outcome,
        Err(failure) => TaskOutcome::panic(task_id, &failure.message, now),
    }
}

// ---------------------------------------------------------------------------------------------
// Launching
// ---------------------------------------------------------------------------------------------
/// How a process is launched.
pub struct LaunchView {
    pub program: Seq<char>,
    pub args: Seq<Seq<char>>,
    pub workdir: Option<Seq<char>>,
    pub env: Map<Seq<char>, Seq<char>>,
}

/// How a process is launched: the program, its arguments and directory, and the variables that
/// are set for it on top of those it inherits.
#[derive(Debug)]
pub struct Launch {
    pub program: String,
    pub args: Vec<String>,
    pub workdir: Option<String>,
    pub env: EnvMap,
}

impl View for Launch {
    type V = LaunchView;

    open spec fn view(&self) -> LaunchView {
        LaunchView {
            program: self.program@,
            args: texts(self.args@),
            workdir: opt_text(self.workdir),
            env: map_of(text_pairs(self.env)),
        }
    }
}

/// How a command is launched when its environment comes on top of an inherited one.
pub open spec fn launch_of(
    command: CommandView,
    inherited: Seq<(Seq<char>, Seq<char>)>,
) -> LaunchView {
    LaunchView {
        program: command.program,
        args: command.args,
        workdir: command.workdir,
        env: overlaid(map_of(inherited), map_of(command.env)),
    }
}

/// How a command is launched when its environment comes on top of an inherited one.
pub fn plan_launch(command: &CommandConfig, inherited: &EnvMap) -> (r: Launch)
    ensures
        r@ == launch_of(command@, text_pairs(*inherited)),
{
    Launch {
        program: command.program.clone(),
        args: copy_texts(&command.args),
        workdir: copy_opt(&command.workdir),
        env: overlay(inherited, &command.env),
    }
}

// ---------------------------------------------------------------------------------------------
// The end of a run
// ---------------------------------------------------------------------------------------------
/// How the wait for a launched process ended.
#[derive(Debug)]
pub enum RunEnd {
    /// The process could not be started; the text says why.
    SpawnFailed(String),
    /// The process ended by itself.
    Exited(ProcessExit),
    /// The process was killed when its time was up.
    TimedOut(u64),
    /// The process was killed in favour of a newer run.
    Cancelled,
    /// Waiting for the process failed.
    WaitFailed,
}

/// A task, and the step of it where there is one.
pub open spec fn run_name(task_id: Seq<char>, step_id: Option<Seq<char>>) -> Seq<char> {
    match step_id {
        Some(step) => "task '"@ + task_id + "' step '"@ + step + "'"@,
        None => "task '"@ + task_id + "'"@,
    }
}

fn run_name_text(task_id: &str, step_id: &Option<String>) -> (r: String)
    ensures
        r@ == run_name(task_id@, opt_text(*step_id)),
{
    match step_id {
        Some(step) => concat5("task '", task_id, "' step '", step, "'"),
        None => concat3("task '", task_id, "'"),
    }
}

/// The summary of a run that could not be carried out.
pub open spec fn command_error(
    task_id: Seq<char>,
    step_id: Option<Seq<char>>,
    error: Seq<char>,
) -> Seq<char> {
    "failed to run "@ + run_name(task_id, step_id) + ": "@ + error
}

/// The summary of a run that took too long.
pub open spec fn timeout_error(
    task_id: Seq<char>,
    step_id: Option<Seq<char>>,
    seconds: u64,
) -> Seq<char> {
    run_name(task_id, step_id) + " timed out after "@ + decimal(seconds as nat) + "s"@
}

/// The summary of a run that gave way to a newer one.
pub open spec fn cancel_error(task_id: Seq<char>, step_id: Option<Seq<char>>) -> Seq<char> {
    run_name(task_id, step_id) + " cancelled by replace policy"@
}

/// The summary of a run that could not be carried out.
pub fn format_command_error(task_id: &str, step_id: &Option<String>, error: &str) -> (r: String)
    ensures
        r@ == command_error(task_id@, opt_text(*step_id), error@),
{
    let mut r = concat3("failed to run ", &run_name_text(task_id, step_id), ": ");
    r.append(error);
    r
}

/// The summary of a run that took too long.
pub fn format_timeout_error(
    task_id: &str,
    step_id: &Option<String>,
    timeout_seconds: u64,
) -> (r: String)
    ensures
        r@ == timeout_error(task_id@, opt_text(*step_id), timeout_seconds),
{
    let mut r = concat3(
        &run_name_text(task_id, step_id),
        " timed out after ",
        &decimal_text(timeout_seconds),
    );
    r.append("s");
    r
}

/// The summary of a run that gave way to a newer one.
pub fn format_cancel_error(task_id: &str, step_id: &Option<String>) -> (r: String)
    ensures
        r@ == cancel_error(task_id@, opt_text(*step_id)),
{
    concat(&run_name_text(task_id, step_id), " cancelled by replace policy")
}

/// The summary of a process that ended by itself.
pub open spec fn exit_summary(exit: ProcessExit) -> Seq<char> {
    match exit {
        ProcessExit::Code(code) => "exit code "@ + signed_decimal(code as int),
        ProcessExit::Signal(signal) => "terminated by signal "@ + decimal(signal as nat),
        ProcessExit::Unknown => "terminated without an exit code"@,
    }
}

/// The outcome of a process that ended by itself: a success with exit code 0, a failure
/// otherwise.
pub open spec fn exited(
    started_at: (int, int),
    finished_at: (int, int),
    exit: ProcessExit,
    stdout: Seq<char>,
    stderr: Seq<char>,
) -> OutcomeView {
    OutcomeView {
        status: if exit == ProcessExit::Code(0) {
            TaskRunStatus::Success
        } else {
            TaskRunStatus::Failed
        },
        summary: exit_summary(exit),
        exit: Some(exit),
        explicit_exit_code: None,
        started_at,
        finished_at,
        steps: Seq::empty(),
        stdout: Some(stdout),
        stderr: Some(stderr),
    }
}

/// The outcome of a process that ended by itself.
pub fn outcome_from_exit_status(
    started_at: Timestamp,
    finished_at: Timestamp,
    exit: ProcessExit,
    stdout: String,
    stderr: String,
) -> (r: TaskOutcome)
    ensures
        r@ == exited(started_at@, finished_at@, exit, stdout@, stderr@),
{
    let success = match exit {
        ProcessExit::Code(code) => code == 0,
        _ => false,
    };
    let status = if success {
        TaskRunStatus::Success
    } else {
        TaskRunStatus::Failed
    };
    let summary = match exit {
        ProcessExit::Code(code) => concat("exit code ", &signed_text(code as i64)),
        ProcessExit::Signal(signal) => concat(
            "terminated by signal ",
            &decimal_text(signal as u64),
        ),
        ProcessExit::Unknown => "terminated without an exit code".to_owned(),
    };
    let r = TaskOutcome {
        status,
        summary,
        exit: Some(exit),
        explicit_exit_code: None,
        started_at,
        finished_at,
        steps: Vec::new(),
        stdout: Some(stdout),
        stderr: Some(stderr),
    };
    assert(r@.steps =~= Seq::empty());
    r
}

/// The outcome of a run that was cut short or failed, with what it had written so far.
pub open spec fn cut_short(
    status: TaskRunStatus,
    summary: Seq<char>,
    started_at: (int, int),
    finished_at: (int, int),
    stdout: Seq<char>,
    stderr: Seq<char>,
) -> OutcomeView {
    OutcomeView {
        stdout: Some(stdout),
        stderr: Some(stderr),
        ..made_up(status, summary, 1, started_at, finished_at)
    }
}

/// The outcome of a run, from how the wait for its process ended.
pub open spec fn run_outcome(
    task_id: Seq<char>,
    step_id: Option<Seq<char>>,
    end: RunEnd,
    started_at: (int, int),
    finished_at: (int, int),
    stdout: Seq<char>,
    stderr: Seq<char>,
) -> OutcomeView {
    match end {
        RunEnd::SpawnFailed(error) => made_up(
            TaskRunStatus::Error,
            command_error(task_id, step_id, error@),
            1,
            started_at,
            finished_at,
        ),
        RunEnd::Exited(exit) => exited(started_at, finished_at, exit, stdout, stderr),
        RunEnd::TimedOut(seconds) => cut_short(
            TaskRunStatus::TimedOut,
            timeout_error(task_id, step_id, seconds),
            started_at,
            finished_at,
            stdout,
            stderr,
        ),
        RunEnd::Cancelled => cut_short(
            TaskRunStatus::Cancelled,
            cancel_error(task_id, step_id),
            started_at,
            finished_at,
            stdout,
            stderr,
        ),
        RunEnd::WaitFailed => cut_short(
            TaskRunStatus::Error,
            command_error(task_id, step_id, "failed to run task '"@ + task_id + "'"@),
            started_at,
            finished_at,
            stdout,
            stderr,
        ),
    }
}

fn cut_short_outcome(
    status: TaskRunStatus,
    summary: String,
    started_at: Timestamp,
    finished_at: Timestamp,
    stdout: String,
    stderr: String,
) -> (r: TaskOutcome)
    ensures
        r@ == cut_short(status, summary@, started_at@, finished_at@, stdout@, stderr@),
{
    let mut r = TaskOutcome::synthetic(status, summary, 1, started_at, finished_at);
    r.stdout = Some(stdout);
    r.stderr = Some(stderr);
    r
}

/// The outcome of a run, from how the wait for its process ended and what it wrote.
pub fn conclude_run(
    task_id: &str,
    step_id: &Option<String>,
    end: &RunEnd,
    started_at: Timestamp,
    finished_at: Timestamp,
    stdout: String,
    stderr: String,
) -> (r: TaskOutcome)
    ensures
        r@ == run_outcome(
            task_id@,
            opt_text(*step_id),
            *end,
            started_at@,
            finished_at@,
            stdout@,
            stderr@,
        ),
{
    match end {
        RunEnd::SpawnFailed(error) => TaskOutcome::synthetic(
            TaskRunStatus::Error,
            format_command_error(task_id, step_id, error),
            1,
            started_at,
            finished_at,
        ),
        RunEnd::Exited(exit) => outcome_from_exit_status(
            started_at,
            finished_at,
            *exit,
            stdout,
            stderr,
        ),
        RunEnd::TimedOut(seconds) => cut_short_outcome(
            TaskRunStatus::TimedOut,
            format_timeout_error(task_id, step_id, *seconds),
            started_at,
            finished_at,
            stdout,
            stderr,
        ),
        RunEnd::Cancelled => cut_short_outcome(
            TaskRunStatus::Cancelled,
            format_cancel_error(task_id, step_id),
            started_at,
            finished_at,
            stdout,
            stderr,
        ),
        RunEnd::WaitFailed => {
            let error = concat3("failed to run task '", task_id, "'");
            cut_short_outcome(
                TaskRunStatus::Error,
                format_command_error(task_id, step_id, &error),
                started_at,
                finished_at,
                stdout,
                stderr,
            )
        },
    }
}

// ---------------------------------------------------------------------------------------------
// Retrying
// ---------------------------------------------------------------------------------------------
/// How many attempts a run has in all: the first one and the retries.
pub open spec fn total_attempts(retry: RetryConfig) -> int {
    retry.max_attempts + 1
}

/// A status that another attempt may mend.
pub open spec fn retryable(status: TaskRunStatus) -> bool {
    status == TaskRunStatus::Failed || status == TaskRunStatus::Error || status
        == TaskRunStatus::TimedOut
}

/// Whether a run is tried again after its `attempt`th attempt ended in that status.
pub open spec fn tries_again(retry: RetryConfig, status: TaskRunStatus, attempt: int) -> bool {
    attempt < total_attempts(retry) && retryable(status)
}

/// Whether a run is tried again after its `attempt`th attempt ended in that outcome.
pub fn should_retry(task: &TaskConfig, outcome: &TaskOutcome, attempt: u16) -> (r: bool)
    ensures
        r == tries_again(task@.retry, outcome@.status, attempt as int),
        r <==> attempt <= task.retry.max_attempts && outcome@.status != TaskRunStatus::Success
            && outcome@.status != TaskRunStatus::Cancelled,
{
    let total: u16 = task.retry.max_attempts as u16 + 1;
    let again = match outcome.status() {
        TaskRunStatus::Failed => true,
        TaskRunStatus::Error => true,
        TaskRunStatus::TimedOut => true,
        TaskRunStatus::Success => false,
        TaskRunStatus::Cancelled => false,
    };
    attempt < total && again
}

/// What a run with retries does next.
#[derive(Debug)]
pub enum RetryStep {
    /// Run the attempt with that number.
    Attempt(u16),
    /// Pause for so many seconds after the attempt with that number.
    Pause { after: u16, seconds: u64 },
    /// The run is over.
    Done(TaskOutcome),
}

/// The first thing that a run with retries does.
pub fn begin_retries() -> (r: RetryStep)
    ensures
        r == RetryStep::Attempt(1),
{
    RetryStep::Attempt(1)
}

/// What follows the attempt with that number.
pub open spec fn follows_attempt(
    retry: RetryConfig,
    attempt: u16,
    outcome: OutcomeView,
    step: RetryStep,
) -> bool {
    if tries_again(retry, outcome.status, attempt as int) {
        step == RetryStep::Pause { after: attempt, seconds: retry.delay_seconds }
    } else {
        step is Done && step->Done_0@ == with_attempts(outcome, attempt)
    }
}

/// What a run does after its attempt with that number: pause before the next one, or end.
pub fn after_attempt(task: &TaskConfig, attempt: u16, outcome: TaskOutcome) -> (r: RetryStep)
    ensures
        follows_attempt(task@.retry, attempt, outcome@, r),
{
    if should_retry(task, &outcome, attempt) {
        RetryStep::Pause { after: attempt, seconds: task.retry.delay_seconds }
    } else {
        RetryStep::Done(outcome.with_retry_summary(attempt))
    }
}

/// The outcome of a run that gave way to a newer one between two attempts.
pub open spec fn cancelled_between(
    task_id: Seq<char>,
    started_at: (int, int),
    finished_at: (int, int),
) -> OutcomeView {
    made_up(
        TaskRunStatus::Cancelled,
        "task '"@ + task_id + "' cancelled by replace policy during retry backoff"@,
        1,
        started_at,
        finished_at,
    )
}

/// What a run does after the pause behind an attempt: the next attempt, or an end where it was
/// cancelled meanwhile.
pub fn after_pause(
    task: &TaskConfig,
    attempt: u16,
    cancelled: bool,
    started_at: Timestamp,
    finished_at: Timestamp,
) -> (r: RetryStep)
    requires
        attempt < u16::MAX,
    ensures
        if cancelled {
            r is Done && r->Done_0@ == cancelled_between(task@.id, started_at@, finished_at@)
        } else {
            r == RetryStep::Attempt((attempt + 1) as u16)
        },
{
    if cancelled {
        let summary = concat3(
            "task '",
            &task.id,
            "' cancelled by replace policy during retry backoff",
        );
        RetryStep::Done(
            TaskOutcome::synthetic(TaskRunStatus::Cancelled, summary, 1, started_at, finished_at),
        )
    } else {
        RetryStep::Attempt(attempt + 1)
    }
}

/// The attempt that a run is at after some outcomes in a row, each of which led to another
/// attempt, with no cancellation between them; none where the run ended before.
pub open spec fn attempt_after(retry: RetryConfig, statuses: Seq<TaskRunStatus>) -> Option<int>
    decreases statuses.len(),
{
    if statuses.len() == 0 {
        Some(1int)
    } else {
        match attempt_after(retry, statuses.drop_last()) {
            Some(n) => if tries_again(retry, statuses.last(), n) {
                Some(n + 1)
            } else {
                None
            },
            None => None,
        }
    }
}

/// A run makes at most as many attempts as it has, every attempt before the last ended in a
/// status that another attempt may mend, and the attempts are counted from one without a gap.
pub proof fn law_retries_are_bounded(retry: RetryConfig, statuses: Seq<TaskRunStatus>)
    ensures
        attempt_after(retry, statuses) is Some ==> {
            &&& attempt_after(retry, statuses)->0 == statuses.len() + 1
            &&& statuses.len() + 1 <= total_attempts(retry)
            &&& forall|i: int| 0 <= i < statuses.len() ==> retryable(#[trigger] statuses[i])
        },
    decreases statuses.len(),
{
    if statuses.len() > 0 {
        let rest = statuses.drop_last();
        law_retries_are_bounded(retry, rest);
        if attempt_after(retry, statuses) is Some {
            assert forall|i: int| 0 <= i < statuses.len() implies retryable(
                #[trigger] statuses[i],
            ) by {
                if i < rest.len() {
                    assert(rest[i] == statuses[i]);
                }
            }
        }
    }
}

/// After that many failed attempts in a row a run still goes on, until its attempts are used up.
pub proof fn law_failures_use_up_all_attempts(retry: RetryConfig, statuses: Seq<TaskRunStatus>)
    requires
        statuses.len() < total_attempts(retry),
        forall|i: int| 0 <= i < statuses.len() ==> retryable(#[trigger] statuses[i]),
    ensures
        attempt_after(retry, statuses) == Some((statuses.len() + 1) as int),
    decreases statuses.len(),
{
    if statuses.len() > 0 {
        let rest = statuses.drop_last();
        assert forall|i: int| 0 <= i < rest.len() implies retryable(#[trigger] rest[i]) by {
            assert(rest[i] == statuses[i]);
        }
        law_failures_use_up_all_attempts(retry, rest);
        assert(retryable(statuses[statuses.len() - 1]));
    }
}

} // verus!

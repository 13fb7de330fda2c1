//! What holds of runs: what a process end amounts to, when a run is tried again, when a task that
//! falls due is run, and what its job is.

use vstd::prelude::*;

use crate::calendar::zone_known;
use crate::config::{
    AppView, CommandView, ConcurrencyConfig, ConcurrencyPolicy, RetryConfig, ScheduleView, TaskView,
};
use crate::reload::{enabled_of, enabled_tasks};
use crate::scheduler::{
    due_action, job_failure, job_of, runs_after, turn_action, DueAction, JobView, RunEvent,
    TurnAction,
};
use crate::task_runner::{
    attempt_after, cancelled_between, follows_attempt, launch_of, made_up, outcome_exit_code,
    run_outcome, status_word, tries_again, with_attempts, OutcomeView, ProcessExit, RetryStep, RunEnd,
    TaskRunStatus,
};
use crate::text::{decimal, signed_decimal};
use crate::text_map::{ascending, has_key, lemma_unique_key, map_of, position};

verus! {

// ---------------------------------------------------------------------------------------------
// Launching
// ---------------------------------------------------------------------------------------------
/// A process is launched with the program, the arguments and the directory of its command. A
/// variable that the command sets has the command's value, any other inherited one keeps its value,
/// and there are no further ones.
pub proof fn law_launch_keeps_the_command(
    c: CommandView,
    inherited: Seq<(Seq<char>, Seq<char>)>,
)
    requires
        ascending(c.env),
        ascending(inherited),
    ensures
        launch_of(c, inherited).program == c.program,
        launch_of(c, inherited).args == c.args,
        launch_of(c, inherited).workdir == c.workdir,
        forall|i: int|
            0 <= i < c.env.len() ==> launch_of(c, inherited).env.dom().contains(
                (#[trigger] c.env[i]).0,
            ) && launch_of(c, inherited).env[c.env[i].0] == c.env[i].1,
        forall|i: int|
            0 <= i < inherited.len() && (forall|k: int|
                0 <= k < c.env.len() ==> (#[trigger] c.env[k]).0 != inherited[i].0)
                ==> launch_of(c, inherited).env.dom().contains((#[trigger] inherited[i]).0)
                && launch_of(c, inherited).env[inherited[i].0] == inherited[i].1,
        forall|name: Seq<char>| #[trigger]
            launch_of(c, inherited).env.dom().contains(name) ==> (exists|i: int|
                0 <= i < c.env.len() && (#[trigger] c.env[i]).0 == name) || (exists|i: int|
                0 <= i < inherited.len() && (#[trigger] inherited[i]).0 == name),
{
    let env = launch_of(c, inherited).env;
    assert forall|i: int| 0 <= i < c.env.len() implies env.dom().contains((#[trigger] c.env[i]).0)
        && env[c.env[i].0] == c.env[i].1 by {
        lemma_unique_key(c.env, i);
    }
    assert forall|i: int|
        0 <= i < inherited.len() && (forall|k: int|
            0 <= k < c.env.len() ==> (#[trigger] c.env[k]).0
                != inherited[i].0) implies env.dom().contains((#[trigger] inherited[i]).0)
        && env[inherited[i].0] == inherited[i].1 by {
        lemma_unique_key(inherited, i);
        assert(!has_key(c.env, inherited[i].0));
    }
    assert forall|name: Seq<char>| #[trigger] env.dom().contains(name) implies (exists|i: int|
        0 <= i < c.env.len() && (#[trigger] c.env[i]).0 == name) || (exists|i: int|
        0 <= i < inherited.len() && (#[trigger] inherited[i]).0 == name) by {
        if has_key(c.env, name) {
            assert(c.env[position(c.env, name)].0 == name);
        } else {
            assert(map_of(inherited).dom().contains(name));
            assert(inherited[position(inherited, name)].0 == name);
        }
    }
}

// ---------------------------------------------------------------------------------------------
// The end of a run
// ---------------------------------------------------------------------------------------------
/// A run succeeds exactly where its process ended by itself with exit code 0, and exactly then its
/// own exit code is 0.
pub proof fn law_exit_code_tells_success(
    task_id: Seq<char>,
    step_id: Option<Seq<char>>,
    end: RunEnd,
    started_at: (int, int),
    finished_at: (int, int),
    stdout: Seq<char>,
    stderr: Seq<char>,
)
    ensures
        ({
            let o = run_outcome(task_id, step_id, end, started_at, finished_at, stdout, stderr);
            &&& o.status == TaskRunStatus::Success <==> end == RunEnd::Exited(ProcessExit::Code(0))
            &&& outcome_exit_code(o) == 0 <==> o.status == TaskRunStatus::Success
        }),
{
}

/// The status of a run says how its process ended: one that ended by itself failed unless it
/// succeeded, one that was stopped at its time limit timed out, one that gave way to a newer run
/// was cancelled, and one that could not be started or waited for is an error.
pub proof fn law_status_says_how_a_run_ended(
    task_id: Seq<char>,
    step_id: Option<Seq<char>>,
    end: RunEnd,
    started_at: (int, int),
    finished_at: (int, int),
    stdout: Seq<char>,
    stderr: Seq<char>,
)
    ensures
        ({
            let o = run_outcome(task_id, step_id, end, started_at, finished_at, stdout, stderr);
            &&& o.status == TaskRunStatus::Failed <==> end is Exited && end
                != RunEnd::Exited(ProcessExit::Code(0))
            &&& o.status == TaskRunStatus::TimedOut <==> end is TimedOut
            &&& o.status == TaskRunStatus::Cancelled <==> end is Cancelled
            &&& o.status == TaskRunStatus::Error <==> end is SpawnFailed || end is WaitFailed
            &&& o.started_at == started_at
            &&& o.finished_at == finished_at
            &&& o.steps.len() == 0
            &&& end is SpawnFailed ==> o.stdout is None && o.stderr is None
            &&& !(end is SpawnFailed) ==> o.stdout == Some(stdout) && o.stderr == Some(stderr)
        }),
{
}

/// The exit code of a run whose process ended by itself is that of the process, or 128 more than
/// the signal that ended it. Any other run has exit code 1.
pub proof fn law_exit_codes(
    task_id: Seq<char>,
    step_id: Option<Seq<char>>,
    started_at: (int, int),
    finished_at: (int, int),
    stdout: Seq<char>,
    stderr: Seq<char>,
    end: RunEnd,
    code: i32,
    signal: u8,
)
    ensures
        outcome_exit_code(
            run_outcome(
                task_id,
                step_id,
                RunEnd::Exited(ProcessExit::Code(code)),
                started_at,
                finished_at,
                stdout,
                stderr,
            ),
        ) == code,
        outcome_exit_code(
            run_outcome(
                task_id,
                step_id,
                RunEnd::Exited(ProcessExit::Signal(signal)),
                started_at,
                finished_at,
                stdout,
                stderr,
            ),
        ) == 128 + signal,
        !(end is Exited) ==> outcome_exit_code(
            run_outcome(task_id, step_id, end, started_at, finished_at, stdout, stderr),
        ) == 1,
{
}

/// The summary of a run names the exit code, the signal, the time limit or the error, and a run
/// that did not end by itself its task.
pub proof fn law_summaries(
    task_id: Seq<char>,
    started_at: (int, int),
    finished_at: (int, int),
    stdout: Seq<char>,
    stderr: Seq<char>,
    end: RunEnd,
)
    ensures
        ({
            let s = run_outcome(
                task_id,
                None,
                end,
                started_at,
                finished_at,
                stdout,
                stderr,
            ).summary;
            match end {
                RunEnd::Exited(ProcessExit::Code(code)) => s == "exit code "@ + signed_decimal(
                    code as int,
                ),
                RunEnd::Exited(ProcessExit::Signal(signal)) => s == "terminated by signal "@
                    + decimal(signal as nat),
                RunEnd::Exited(ProcessExit::Unknown) => s == "terminated without an exit code"@,
                RunEnd::TimedOut(seconds) => s == "task '"@ + task_id + "'"@ + " timed out after "@
                    + decimal(seconds as nat) + "s"@,
                RunEnd::Cancelled => s == "task '"@ + task_id + "'"@
                    + " cancelled by replace policy"@,
                RunEnd::SpawnFailed(error) => s == "failed to run "@ + ("task '"@ + task_id + "'"@)
                    + ": "@ + error@,
                RunEnd::WaitFailed => s == "failed to run "@ + ("task '"@ + task_id + "'"@) + ": "@
                    + ("failed to run task '"@ + task_id + "'"@),
            }
        }),
{
}

/// A run that stands behind no process has the status, the summary, the times and the exit code
/// that it was given, and wrote nothing.
pub proof fn law_made_up_outcomes(
    status: TaskRunStatus,
    summary: Seq<char>,
    exit_code: i32,
    started_at: (int, int),
    finished_at: (int, int),
)
    ensures
        ({
            let o = made_up(status, summary, exit_code, started_at, finished_at);
            &&& o.status == status
            &&& o.summary == summary
            &&& outcome_exit_code(o) == exit_code
            &&& o.started_at == started_at
            &&& o.finished_at == finished_at
            &&& o.steps.len() == 0
            &&& o.stdout is None
            &&& o.stderr is None
        }),
{
}

/// Each status has its own word.
pub proof fn law_status_words(a: TaskRunStatus, b: TaskRunStatus)
    ensures
        status_word(TaskRunStatus::Success) == "success"@,
        status_word(TaskRunStatus::Failed) == "failed"@,
        status_word(TaskRunStatus::Error) == "error"@,
        status_word(TaskRunStatus::TimedOut) == "timedout"@,
        status_word(TaskRunStatus::Cancelled) == "cancelled"@,
        status_word(a) == status_word(b) ==> a == b,
{
    reveal_strlit("success");
    reveal_strlit("failed");
    reveal_strlit("error");
    reveal_strlit("timedout");
    reveal_strlit("cancelled");
    assert("success"@.len() == 7 && "failed"@.len() == 6 && "error"@.len() == 5);
    assert("timedout"@.len() == 8 && "cancelled"@.len() == 9);
}

// ---------------------------------------------------------------------------------------------
// Retrying
// ---------------------------------------------------------------------------------------------
/// A run is tried again exactly where retries are left and it neither succeeded nor was cancelled.
pub proof fn law_runs_are_tried_again(retry: RetryConfig, status: TaskRunStatus, attempt: int)
    ensures
        tries_again(retry, status, attempt) <==> attempt <= retry.max_attempts && status
            != TaskRunStatus::Success && status != TaskRunStatus::Cancelled,
{
}

/// An attempt that failed, timed out or ended in an error is followed by a pause as long as the
/// task asks for, while retries are left. Any other attempt ends the run, whose outcome is that of
/// the attempt but for the number of attempts in its summary.
pub proof fn law_what_follows_an_attempt(
    retry: RetryConfig,
    attempt: u16,
    outcome: OutcomeView,
    step: RetryStep,
)
    requires
        follows_attempt(retry, attempt, outcome, step),
    ensures
        ({
            let again = attempt <= retry.max_attempts && (outcome.status == TaskRunStatus::Failed
                || outcome.status == TaskRunStatus::TimedOut || outcome.status
                == TaskRunStatus::Error);
            &&& again ==> step == RetryStep::Pause { after: attempt, seconds: retry.delay_seconds }
            &&& !again ==> step is Done && ({
                let last = step->Done_0@;
                &&& last.status == outcome.status
                &&& outcome_exit_code(last) == outcome_exit_code(outcome)
                &&& last.started_at == outcome.started_at
                &&& last.finished_at == outcome.finished_at
                &&& last.steps == outcome.steps
                &&& last.stdout == outcome.stdout
                &&& last.stderr == outcome.stderr
                &&& attempt <= 1 ==> last.summary == outcome.summary
            })
        }),
{
}

/// A run with more than one attempt says in its summary how many it took.
pub proof fn law_attempts_are_told(outcome: OutcomeView, attempts: u16)
    requires
        attempts > 1,
    ensures
        with_attempts(outcome, attempts) == (OutcomeView {
            summary: outcome.summary + (if outcome.status == TaskRunStatus::Success {
                " (succeeded after "@
            } else {
                " (failed after "@
            }) + decimal(attempts as nat) + " attempts)"@,
            ..outcome
        }),
{
}

/// A run whose attempts all fail, time out or end in an error makes the first attempt and as many
/// more as there are retries, and then ends; a success or a cancellation ends it at once.
pub proof fn law_attempts_are_one_more_than_retries(
    retry: RetryConfig,
    statuses: Seq<TaskRunStatus>,
)
    requires
        forall|i: int|
            0 <= i < statuses.len() ==> (#[trigger] statuses[i]) == TaskRunStatus::Failed
                || statuses[i] == TaskRunStatus::TimedOut || statuses[i] == TaskRunStatus::Error,
    ensures
        statuses.len() <= retry.max_attempts ==> attempt_after(retry, statuses) == Some(
            (statuses.len() + 1) as int,
        ),
        statuses.len() > retry.max_attempts ==> attempt_after(retry, statuses) is None,
        attempt_after(retry, statuses.push(TaskRunStatus::Success)) is None,
        attempt_after(retry, statuses.push(TaskRunStatus::Cancelled)) is None,
    decreases statuses.len(),
{
    assert(statuses.push(TaskRunStatus::Success).drop_last() =~= statuses);
    assert(statuses.push(TaskRunStatus::Cancelled).drop_last() =~= statuses);
    if statuses.len() > 0 {
        let rest = statuses.drop_last();
        assert forall|i: int| 0 <= i < rest.len() implies (#[trigger] rest[i])
            == TaskRunStatus::Failed || rest[i] == TaskRunStatus::TimedOut || rest[i]
            == TaskRunStatus::Error by {
            assert(rest[i] == statuses[i]);
        }
        law_attempts_are_one_more_than_retries(retry, rest);
        assert(statuses.last() == statuses[statuses.len() - 1]);
    }
}

// ---------------------------------------------------------------------------------------------
// Overlapping runs
// ---------------------------------------------------------------------------------------------
/// A task that falls due is run while fewer of its runs go on than it allows, and is left out
/// otherwise; where its runs replace each other, a request is entered whatever goes on.
pub proof fn law_free_slots_are_used(c: ConcurrencyConfig, running: int)
    ensures
        c.policy != ConcurrencyPolicy::Replace && running < c.max_running ==> due_action(
            c,
            running,
            c.max_running as int,
        ) == DueAction::Run,
        c.policy != ConcurrencyPolicy::Replace && running >= c.max_running ==> due_action(
            c,
            running,
            c.max_running as int,
        ) == DueAction::Skip,
        c.policy == ConcurrencyPolicy::Replace ==> due_action(c, running, c.max_running as int)
            == DueAction::Replace,
{
}

/// Where a task falls due again and again and none of its runs ends, its runs fill its slots, and
/// no more of them go on.
pub proof fn law_due_events_fill_the_slots(c: ConcurrencyConfig, events: Seq<RunEvent>, n: int)
    requires
        c.policy != ConcurrencyPolicy::Replace,
        0 <= n <= events.len(),
        forall|i: int| 0 <= i < n ==> (#[trigger] events[i]) is Due,
    ensures
        runs_after(c, events, n).running == (if n <= c.max_running {
            n
        } else {
            c.max_running as int
        }),
    decreases n,
{
    if n > 0 {
        law_due_events_fill_the_slots(c, events, n - 1);
        assert(events[n - 1] is Due);
    }
}

/// A run that ends makes room: a task that was left out because its slots were taken is run when it
/// falls due after one of its runs has ended.
pub proof fn law_ended_runs_make_room(c: ConcurrencyConfig, events: Seq<RunEvent>, n: int)
    requires
        c.policy != ConcurrencyPolicy::Replace,
        c.max_running > 0,
        0 <= n,
        n + 2 <= events.len(),
        runs_after(c, events, n).running == c.max_running,
        events[n] is Ended,
        events[n + 1] is Due,
    ensures
        runs_after(c, events, n + 1).running == c.max_running - 1,
        runs_after(c, events, n + 2).running == c.max_running,
{
    assert(runs_after(c, events, n + 1).running == c.max_running - 1);
}

/// Of the requests that ask for their turn, the newest is run as soon as a slot is free, the others
/// are left out, and while no slot is free they wait.
pub proof fn law_turns(running: int, limit: int, newest: int, number: int)
    ensures
        turn_action(running, limit, newest, number) == TurnAction::Run <==> running < limit
            && number == newest,
        turn_action(running, limit, newest, number) == TurnAction::Stale <==> running < limit
            && number != newest,
        turn_action(running, limit, newest, number) == TurnAction::Wait <==> running >= limit,
{
}

// ---------------------------------------------------------------------------------------------
// Jobs
// ---------------------------------------------------------------------------------------------
/// The job of a cron schedule carries its expression and exactly its time zone, and that of an
/// interval its seconds. Different schedules have different jobs.
pub proof fn law_jobs_keep_their_schedules(
    expr: Seq<char>,
    timezone: Option<Seq<char>>,
    seconds: u64,
    a: ScheduleView,
    b: ScheduleView,
)
    ensures
        job_of(ScheduleView::Cron { expr, timezone }) == (JobView::Cron { expr, timezone }),
        job_of(ScheduleView::Interval { seconds }) == (JobView::Every { seconds }),
        job_of(a) == job_of(b) ==> a == b,
{
}

/// A job fails exactly where its schedule names a time zone that nobody knows.
pub proof fn law_jobs_need_known_time_zones(s: ScheduleView)
    ensures
        job_failure(s) is Some <==> (s matches ScheduleView::Cron { expr, timezone }
            && timezone is Some && !zone_known(timezone->0)),
{
}

/// The tasks to register are the enabled ones, in their order.
pub proof fn law_enabled_tasks_are_registered(tasks: Seq<TaskView>, n: int)
    requires
        0 <= n <= tasks.len(),
    ensures
        enabled_tasks(tasks, n) == tasks.subrange(0, n).filter(|t: TaskView| t.enabled),
        forall|i: int|
            0 <= i < enabled_tasks(tasks, n).len() ==> (#[trigger] enabled_tasks(
                tasks,
                n,
            )[i]).enabled,
        forall|i: int|
            0 <= i < n && (#[trigger] tasks[i]).enabled ==> enabled_tasks(tasks, n).contains(
                tasks[i],
            ),
    decreases n,
{
    let enabled = |t: TaskView| t.enabled;
    let all = tasks.subrange(0, n);
    reveal(Seq::filter);
    if n > 0 {
        law_enabled_tasks_are_registered(tasks, n - 1);
        assert(all.drop_last() =~= tasks.subrange(0, n - 1));
        assert(all.last() == tasks[n - 1]);
        let rest = enabled_tasks(tasks, n - 1);
        let r = enabled_tasks(tasks, n);
        assert forall|i: int| 0 <= i < n && (#[trigger] tasks[i]).enabled implies r.contains(
            tasks[i],
        ) by {
            if i < n - 1 {
                assert(rest.contains(tasks[i]));
                let k = choose|k: int| 0 <= k < rest.len() && rest[k] == tasks[i];
                assert(r[k] == tasks[i]);
            } else {
                assert(r[r.len() - 1] == tasks[i]);
            }
        }
    } else {
        assert(all.filter(enabled) =~= Seq::empty());
    }
}

/// The tasks of a configuration to register are all its enabled ones, in their order.
pub proof fn law_enabled_tasks_of_a_configuration(c: AppView)
    ensures
        enabled_of(c) == c.tasks.filter(|t: TaskView| t.enabled),
        enabled_of(c).len() == 0 <==> forall|i: int|
            0 <= i < c.tasks.len() ==> !(#[trigger] c.tasks[i]).enabled,
{
    let n = c.tasks.len() as int;
    law_enabled_tasks_are_registered(c.tasks, n);
    assert(c.tasks.subrange(0, n) =~= c.tasks);
    let all = enabled_of(c);
    if all.len() > 0 {
        assert(all[0].enabled);
        assert(all.contains(all[0]));
        c.tasks.lemma_filter_contains_rev(|t: TaskView| t.enabled, all[0]);
    }
    if exists|i: int| 0 <= i < n && (#[trigger] c.tasks[i]).enabled {
        let i = choose|i: int| 0 <= i < n && (#[trigger] c.tasks[i]).enabled;
        assert(all.contains(c.tasks[i]));
    }
}

/// A run that gives way to a newer one between two attempts is cancelled, with exit code 1.
pub proof fn law_runs_cancelled_between_attempts(
    task_id: Seq<char>,
    started_at: (int, int),
    finished_at: (int, int),
)
    ensures
        ({
            let o = cancelled_between(task_id, started_at, finished_at);
            &&& o.status == TaskRunStatus::Cancelled
            &&& o.summary == "task '"@ + task_id
                + "' cancelled by replace policy during retry backoff"@
            &&& outcome_exit_code(o) == 1
            &&& o.started_at == started_at
            &&& o.finished_at == finished_at
        }),
{
}

} // verus!

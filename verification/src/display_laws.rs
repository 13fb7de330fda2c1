//! What holds of what is printed: each line shows what it names.

use vstd::prelude::*;

use crate::calendar::{clock, rfc3339};
use crate::config::{schedule_summary, AppView, ConcurrencyPolicy, TaskView};
use crate::display::{
    debug_list, detail_lines, env_parts, history_lines, journal_args, list_item, opt_steps,
    outcome_output, policy_name, report_lines, run_line, runtime_at, step_texts, steps_line,
    task_line, task_lines, total_parts,
};
use crate::history::RecordView;
use crate::report::DailyReportRecordOutput;
use crate::state::{RuntimeFileView, RuntimeView};
use crate::task_runner::{outcome_exit_code, status_word, OutcomeView, StepView};
use crate::text::{decimal, joined, padded, signed_decimal};

verus! {

/// Policies go by their names.
pub proof fn law_policy_names()
    ensures
        policy_name(ConcurrencyPolicy::Allow) == "allow"@,
        policy_name(ConcurrencyPolicy::Forbid) == "forbid"@,
        policy_name(ConcurrencyPolicy::Replace) == "replace"@,
{
}

/// The steps of a run are shown in their order, each with its id, its status and its summary.
pub proof fn law_steps_are_shown(steps: Seq<StepView>)
    ensures
        steps_line(steps) == joined(
            Seq::new(
                steps.len(),
                |i: int|
                    steps[i].step_id + "="@ + status_word(steps[i].status) + " ("@
                        + steps[i].summary + ")"@,
            ),
            "; "@,
        ),
        steps.len() == 0 ==> opt_steps(steps) == "-"@,
        steps.len() > 0 ==> opt_steps(steps) == steps_line(steps),
{
    assert(step_texts(steps) =~= Seq::new(
        steps.len(),
        |i: int|
            steps[i].step_id + "="@ + status_word(steps[i].status) + " ("@ + steps[i].summary
                + ")"@,
    ));
}

/// What is known of the last run of a task is what the state holds under its id.
pub proof fn law_last_runs_are_looked_up(state: RuntimeFileView, id: Seq<char>)
    ensures
        state.tasks.dom().contains(id) ==> runtime_at(state, id) == Some(state.tasks[id]),
        !state.tasks.dom().contains(id) ==> runtime_at(state, id) is None,
{
}

/// The table of tasks has a line for each of them behind its head: its id, whether it is enabled,
/// its name, how and when its last run ended, and its schedule.
#[verifier::rlimit(50)]
pub proof fn law_tasks_are_shown(c: AppView, state: RuntimeFileView)
    ensures
        c.tasks.len() == 0 ==> task_lines(c, state) == seq!["no tasks configured"@],
        c.tasks.len() > 0 ==> task_lines(c, state).len() == c.tasks.len() + 1 && task_lines(
            c,
            state,
        )[0] == padded("id"@, 20) + " "@ + padded("status"@, 8) + " "@ + padded("name"@, 24) + " "@
            + padded("last_status"@, 14) + " "@ + padded("last_run"@, 20) + " "@ + "schedule"@,
        forall|i: int|
            0 <= i < c.tasks.len() ==> {
                let t = #[trigger] c.tasks[i];
                let known = state.tasks.dom().contains(t.id);
                task_lines(c, state)[i + 1] == padded(t.id, 20) + " "@ + padded(
                    if t.enabled {
                        "enabled"@
                    } else {
                        "disabled"@
                    },
                    8,
                ) + " "@ + padded(t.name, 24) + " "@ + padded(
                    if known {
                        status_word(state.tasks[t.id].last_status)
                    } else {
                        "-"@
                    },
                    14,
                ) + " "@ + padded(
                    if known {
                        clock(state.tasks[t.id].last_finished_at)
                    } else {
                        "-"@
                    },
                    20,
                ) + " "@ + schedule_summary(t.schedule)
            },
{
    assert forall|i: int| 0 <= i < c.tasks.len() implies {
        let t = #[trigger] c.tasks[i];
        let known = state.tasks.dom().contains(t.id);
        task_lines(c, state)[i + 1] == padded(t.id, 20) + " "@ + padded(
            if t.enabled {
                "enabled"@
            } else {
                "disabled"@
            },
            8,
        ) + " "@ + padded(t.name, 24) + " "@ + padded(
            if known {
                status_word(state.tasks[t.id].last_status)
            } else {
                "-"@
            },
            14,
        ) + " "@ + padded(
            if known {
                clock(state.tasks[t.id].last_finished_at)
            } else {
                "-"@
            },
            20,
        ) + " "@ + schedule_summary(t.schedule)
    } by {
        assert(task_lines(c, state)[i + 1] == task_line(c.tasks[i], state));
    }
}

/// The table of runs has a line for each of them behind its head: its id, its task, its status, when
/// it ended, and its summary with its steps.
pub proof fn law_runs_are_shown(rows: Seq<RecordView>)
    ensures
        rows.len() == 0 ==> history_lines(rows) == seq!["no history records"@],
        rows.len() > 0 ==> history_lines(rows).len() == rows.len() + 1 && history_lines(rows)[0]
            == padded("id"@, 6) + " "@ + padded("task_id"@, 20) + " "@ + padded("status"@, 12)
            + " "@ + padded("finished_at"@, 20) + " "@ + "summary"@,
        forall|i: int|
            0 <= i < rows.len() ==> {
                let r = #[trigger] rows[i];
                history_lines(rows)[i + 1] == padded(signed_decimal(r.id as int), 6) + " "@
                    + padded(r.task_id, 20) + " "@ + padded(r.status, 12) + " "@ + padded(
                    clock(r.finished_at),
                    20,
                ) + " "@ + (if r.step_details.len() == 0 {
                    r.summary
                } else {
                    r.summary + " | steps: "@ + steps_line(r.step_details)
                })
            },
{
    assert forall|i: int| 0 <= i < rows.len() implies {
        let r = #[trigger] rows[i];
        history_lines(rows)[i + 1] == padded(signed_decimal(r.id as int), 6) + " "@ + padded(
            r.task_id,
            20,
        ) + " "@ + padded(r.status, 12) + " "@ + padded(clock(r.finished_at), 20) + " "@ + (
        if r.step_details.len() == 0 {
            r.summary
        } else {
            r.summary + " | steps: "@ + steps_line(r.step_details)
        })
    } by {
        assert(history_lines(rows)[i + 1] == run_line(rows[i]));
    }
}

/// A task in detail shows each of its settings and of those of its command on a line of its own.
#[verifier::rlimit(50)]
pub proof fn law_settings_are_shown(
    t: TaskView,
    runtime: Option<RuntimeView>,
    latest: Option<RecordView>,
)
    ensures
        ({
            let lines = detail_lines(t, runtime, latest);
            let dir = if t.command.workdir is Some {
                t.command.workdir->0
            } else {
                "-"@
            };
            let limit = if t.command.timeout_seconds is Some {
                decimal(t.command.timeout_seconds->0 as nat)
            } else {
                "-"@
            };
            let env = if t.command.env.len() == 0 {
                "-"@
            } else {
                joined(
                    Seq::new(
                        t.command.env.len(),
                        |i: int| t.command.env[i].0 + "="@ + t.command.env[i].1,
                    ),
                    ", "@,
                )
            };
            &&& lines.len() == 21
            &&& lines[0] == "id: "@ + t.id
            &&& lines[1] == "name: "@ + t.name
            &&& lines[2] == "enabled: "@ + (if t.enabled {
                "true"@
            } else {
                "false"@
            })
            &&& lines[3] == "concurrency: "@ + policy_name(t.concurrency.policy)
                + " (max_running="@ + decimal(t.concurrency.max_running as nat) + ")"@
            &&& lines[4] == "retry: max_attempts="@ + decimal(t.retry.max_attempts as nat)
                + ", delay_seconds="@ + decimal(t.retry.delay_seconds as nat)
            &&& lines[5] == "schedule: "@ + schedule_summary(t.schedule)
            &&& lines[6] == "command"@ + ".program: "@ + t.command.program
            &&& lines[7] == "command"@ + ".args: "@ + debug_list(t.command.args)
            &&& lines[8] == "command"@ + ".workdir: "@ + dir
            &&& lines[9] == "command"@ + ".timeout_seconds: "@ + limit
            &&& lines[10] == "command"@ + ".env: "@ + env
        }),
{
    assert(env_parts(t.command.env) =~= Seq::new(
        t.command.env.len(),
        |i: int| t.command.env[i].0 + "="@ + t.command.env[i].1,
    ));
}

/// A task in detail then shows how its last run ended and the latest run on record, or dashes.
#[verifier::rlimit(50)]
pub proof fn law_last_runs_are_shown(
    t: TaskView,
    runtime: Option<RuntimeView>,
    latest: Option<RecordView>,
)
    ensures
        ({
            let lines = detail_lines(t, runtime, latest);
            &&& lines.len() == 21
            &&& runtime matches Some(r) ==> lines[11] == "last_status: "@ + status_word(
                r.last_status,
            ) && lines[12] == "last_summary: "@ + r.last_summary && lines[13]
                == "last_started_at: "@ + clock(r.last_started_at) && lines[14]
                == "last_finished_at: "@ + clock(r.last_finished_at) && lines[15]
                == "last_steps: "@ + opt_steps(r.last_steps)
            &&& runtime is None ==> lines[11] == "last_status: -"@ && lines[12]
                == "last_summary: -"@ && lines[13] == "last_started_at: -"@ && lines[14]
                == "last_finished_at: -"@ && lines[15] == "last_steps: -"@
            &&& latest matches Some(h) ==> lines[16] == "latest_history_status: "@ + h.status
                && lines[17] == "latest_history_summary: "@ + h.summary && lines[18]
                == "latest_history_finished_at: "@ + clock(h.finished_at) && lines[19]
                == "latest_history_exit_code: "@ + signed_decimal(h.exit_code as int) && lines[20]
                == "latest_history_steps: "@ + opt_steps(h.step_details)
            &&& latest is None ==> lines[16] == "latest_history_status: -"@ && lines[17]
                == "latest_history_summary: -"@ && lines[18] == "latest_history_finished_at: -"@
                && lines[19] == "latest_history_exit_code: -"@ && lines[20]
                == "latest_history_steps: -"@
        }),
{
}

/// A daily report in lines shows its status, its summary, its day and its figures.
pub proof fn law_reports_are_shown(r: DailyReportRecordOutput)
    ensures
        ({
            let lines = report_lines(r);
            let p = r.payload.totals.pairs();
            &&& lines.len() == 10
            &&& lines[0] == "status: "@ + r.status@
            &&& lines[1] == "summary: "@ + r.summary@
            &&& lines[2] == "date: "@ + r.payload.date@
            &&& lines[3] == "timezone: "@ + r.payload.timezone@
            &&& lines[4] == "window_start: "@ + rfc3339(
                r.payload.window_start@.0,
                r.payload.window_start@.1,
            )
            &&& lines[5] == "window_end: "@ + rfc3339(
                r.payload.window_end@.0,
                r.payload.window_end@.1,
            )
            &&& lines[6] == "total_runs: "@ + decimal(r.payload.total_runs as nat)
            &&& lines[8] == "tasks: "@ + decimal(r.payload.tasks@.len())
            &&& lines[9] == "failures: "@ + decimal(r.payload.failures@.len())
            &&& p.len() == 0 ==> lines[7] == "totals: "@ + "-"@
            &&& p.len() > 0 ==> lines[7] == "totals: "@ + joined(
                Seq::new(p.len(), |i: int| p[i].0 + "="@ + decimal(p[i].1 as nat)),
                ", "@,
            )
        }),
{
    let p = r.payload.totals.pairs();
    assert(total_parts(p) =~= Seq::new(p.len(), |i: int| p[i].0 + "="@ + decimal(p[i].1 as nat)));
}

/// A task in a list for programs has its settings, and of its last run what the state holds.
pub proof fn law_items_of_lists(t: TaskView, runtime: Option<RuntimeView>)
    ensures
        ({
            let i = list_item(t, runtime);
            &&& i.id == t.id
            &&& i.name == t.name
            &&& i.enabled == t.enabled
            &&& i.concurrency_policy == policy_name(t.concurrency.policy)
            &&& i.max_running == t.concurrency.max_running
            &&& i.schedule == schedule_summary(t.schedule)
            &&& runtime matches Some(r) ==> i.last_status == Some(r.last_status) && i.last_summary
                == Some(r.last_summary) && i.last_started_at == Some(r.last_started_at)
                && i.last_finished_at == Some(r.last_finished_at)
            &&& runtime is None ==> i.last_status is None && i.last_summary is None
                && i.last_started_at is None && i.last_finished_at is None
        }),
{
}

/// An outcome for programs says how the run ended, field by field.
pub proof fn law_outcomes_for_programs(o: OutcomeView)
    ensures
        outcome_output(o).status == o.status,
        outcome_output(o).summary == o.summary,
        i32::MIN <= outcome_exit_code(o) <= i32::MAX ==> outcome_output(o).exit_code
            == outcome_exit_code(o),
        outcome_output(o).started_at == o.started_at,
        outcome_output(o).finished_at == o.finished_at,
        outcome_output(o).steps == o.steps,
{
}

/// The log is that of the daemon, as many lines of it as asked for, and is followed only where asked
/// for.
pub proof fn law_logs_are_asked_for(lines: usize, follow: bool)
    ensures
        !follow ==> journal_args(lines, follow) == seq![
            "-u"@,
            "taskd"@,
            "--no-pager"@,
            "-n"@,
            decimal(lines as nat),
        ],
        follow ==> journal_args(lines, follow) == seq![
            "-u"@,
            "taskd"@,
            "--no-pager"@,
            "-n"@,
            decimal(lines as nat),
            "-f"@,
        ],
{
}

} // verus!

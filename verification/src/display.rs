//! What the control program prints: tables, details and reports as lines of text.

use vstd::prelude::*;

use crate::calendar::{clock, clock_text, rfc3339, rfc3339_of, Timestamp};
use crate::config::{
    schedule_summary, AppConfig, AppView, CommandConfig, CommandView, ConcurrencyPolicy, TaskConfig,
    TaskView,
};
use crate::history::{record_views, HistoryRecord, RecordView};
use crate::report::DailyReportRecordOutput;
use crate::state::{RuntimeFileView, RuntimeStateFile, RuntimeView, TaskRuntimeState};
use crate::task_runner::{
    copy_steps, outcome_exit_code, status_word, step_views, OutcomeView, StepView, TaskOutcome,
    TaskRunStatus, TaskStepResult,
};
use crate::text::{
    concat, concat3, concat5, decimal, decimal_text, join_texts, joined, opt_text, pad_right,
    padded, signed_decimal, signed_text, texts,
};
use crate::text_map::{text_pairs, EnvMap, TextMap};

verus! {

// ---------------------------------------------------------------------------------------------
// Pieces
// ---------------------------------------------------------------------------------------------
/// How the standard library's `{:?}` writes a list of texts.
pub uninterp spec fn debug_list(v: Seq<Seq<char>>) -> Seq<char>;

/// Writes a list of texts with the standard library's `Debug` formatting of `Vec<String>`. The
/// contract names the text, which depends on nothing but the list.
#[verifier::external_body]
pub(crate) fn debug_list_text(v: &Vec<String>) -> (r: String)
    ensures
        r@ == debug_list(texts(v@)),
{
    format!("{:?}", v)
}

/// The name of a concurrency policy.
pub open spec fn policy_name(policy: ConcurrencyPolicy) -> Seq<char> {
    match policy {
        ConcurrencyPolicy::Allow => "allow"@,
        ConcurrencyPolicy::Forbid => "forbid"@,
        ConcurrencyPolicy::Replace => "replace"@,
    }
}

/// The name of a concurrency policy.
pub fn format_concurrency_policy(policy: ConcurrencyPolicy) -> (r: &'static str)
    ensures
        r@ == policy_name(policy),
{
    match policy {
        ConcurrencyPolicy::Allow => "allow",
        ConcurrencyPolicy::Forbid => "forbid",
        ConcurrencyPolicy::Replace => "replace",
    }
}

/// A step on one line.
pub open spec fn step_text(s: StepView) -> Seq<char> {
    s.step_id + "="@ + status_word(s.status) + " ("@ + s.summary + ")"@
}

/// Each step on its line.
pub open spec fn step_texts(steps: Seq<StepView>) -> Seq<Seq<char>> {
    Seq::new(steps.len(), |i: int| step_text(steps[i]))
}

/// Steps on one line.
pub open spec fn steps_line(steps: Seq<StepView>) -> Seq<char> {
    joined(step_texts(steps), "; "@)
}

/// Steps on one line.
pub fn format_step_results(steps: &Vec<TaskStepResult>) -> (r: String)
    ensures
        r@ == steps_line(step_views(steps@)),
{
    let mut parts: Vec<String> = Vec::new();
    let mut i: usize = 0;
    while i < steps.len()
        invariant
            i <= steps@.len(),
            parts@.len() == i,
            forall|j: int| 0 <= j < i ==> (#[trigger] parts@[j])@ == step_text(steps@[j]@),
        decreases steps@.len() - i,
    {
        let step = &steps[i];
        let mut part = concat5(&step.step_id, "=", &step.status.word(), " (", &step.summary);
        part.append(")");
        parts.push(part);
        i = i + 1;
    }
    assert(texts(parts@) =~= step_texts(step_views(steps@)));
    join_texts(&parts, "; ")
}

/// A status of the last run, or a dash.
pub open spec fn opt_status(runtime: Option<RuntimeView>) -> Seq<char> {
    match runtime {
        Some(r) => status_word(r.last_status),
        None => "-"@,
    }
}

/// When the last run finished, or a dash.
pub open spec fn opt_finished(runtime: Option<RuntimeView>) -> Seq<char> {
    match runtime {
        Some(r) => clock(r.last_finished_at),
        None => "-"@,
    }
}

/// The steps of a run, or a dash.
pub open spec fn opt_steps(steps: Seq<StepView>) -> Seq<char> {
    if steps.len() == 0 {
        "-"@
    } else {
        steps_line(steps)
    }
}

fn opt_steps_text(steps: &Vec<TaskStepResult>) -> (r: String)
    ensures
        r@ == opt_steps(step_views(steps@)),
{
    if steps.len() == 0 {
        "-".to_owned()
    } else {
        format_step_results(steps)
    }
}

/// What is known of a task's last run.
pub open spec fn runtime_at(state: RuntimeFileView, id: Seq<char>) -> Option<RuntimeView> {
    if state.tasks.dom().contains(id) {
        Some(state.tasks[id])
    } else {
        None
    }
}

// ---------------------------------------------------------------------------------------------
// Tables
// ---------------------------------------------------------------------------------------------
/// A row of the table of tasks.
pub open spec fn task_row(
    id: Seq<char>,
    status: Seq<char>,
    name: Seq<char>,
    last_status: Seq<char>,
    last_run: Seq<char>,
    schedule: Seq<char>,
) -> Seq<char> {
    padded(id, 20) + " "@ + padded(status, 8) + " "@ + padded(name, 24) + " "@ + padded(
        last_status,
        14,
    ) + " "@ + padded(last_run, 20) + " "@ + schedule
}

fn task_row_text(
    id: &str,
    status: &str,
    name: &str,
    last_status: &str,
    last_run: &str,
    schedule: &str,
) -> (r: String)
    ensures
        r@ == task_row(id@, status@, name@, last_status@, last_run@, schedule@),
{
    let mut r = concat5(
        &pad_right(id, 20),
        " ",
        &pad_right(status, 8),
        " ",
        &pad_right(name, 24),
    );
    r.append(" ");
    r.append(&pad_right(last_status, 14));
    r.append(" ");
    r.append(&pad_right(last_run, 20));
    r.append(" ");
    r.append(schedule);
    r
}

/// The row of a task.
pub open spec fn task_line(t: TaskView, state: RuntimeFileView) -> Seq<char> {
    let runtime = runtime_at(state, t.id);
    task_row(
        t.id,
        if t.enabled {
            "enabled"@
        } else {
            "disabled"@
        },
        t.name,
        opt_status(runtime),
        opt_finished(runtime),
        schedule_summary(t.schedule),
    )
}

/// The table of the tasks of a configuration.
pub open spec fn task_lines(c: AppView, state: RuntimeFileView) -> Seq<Seq<char>> {
    if c.tasks.len() == 0 {
        seq!["no tasks configured"@]
    } else {
        seq![
            task_row("id"@, "status"@, "name"@, "last_status"@, "last_run"@, "schedule"@),
        ] + Seq::new(c.tasks.len(), |i: int| task_line(c.tasks[i], state))
    }
}

fn task_line_text(task: &TaskConfig, state: &RuntimeStateFile) -> (r: String)
    ensures
        r@ == task_line(task@, state@),
{
    let status = if task.enabled {
        "enabled"
    } else {
        "disabled"
    };
    let summary = task.schedule.summary();
    match state.task(&task.id) {
        Some(runtime) => task_row_text(
            &task.id,
            status,
            &task.name,
            &runtime.last_status.word(),
            &clock_text(&runtime.last_finished_at),
            &summary,
        ),
        None => task_row_text(&task.id, status, &task.name, "-", "-", &summary),
    }
}

/// The table of the tasks of a configuration.
pub fn print_tasks(app: &AppConfig, state: &RuntimeStateFile) -> (r: Vec<String>)
    ensures
        texts(r@) == task_lines(app@, state@),
{
    let mut r: Vec<String> = Vec::new();
    if app.tasks.len() == 0 {
        r.push("no tasks configured".to_owned());
        assert(texts(r@) =~= task_lines(app@, state@));
        return r;
    }
    r.push(task_row_text("id", "status", "name", "last_status", "last_run", "schedule"));
    let mut i: usize = 0;
    while i < app.tasks.len()
        invariant
            i <= app.tasks@.len(),
            r@.len() == i + 1,
            r@[0]@ == task_row(
                "id"@,
                "status"@,
                "name"@,
                "last_status"@,
                "last_run"@,
                "schedule"@,
            ),
            forall|j: int|
                1 <= j < i + 1 ==> (#[trigger] r@[j])@ == task_line(app.tasks@[j - 1]@, state@),
        decreases app.tasks@.len() - i,
    {
        r.push(task_line_text(&app.tasks[i], state));
        i = i + 1;
    }
    assert(texts(r@) =~= task_lines(app@, state@));
    r
}

/// A row of the table of runs.
pub open spec fn run_row(
    id: Seq<char>,
    task_id: Seq<char>,
    status: Seq<char>,
    finished_at: Seq<char>,
    summary: Seq<char>,
) -> Seq<char> {
    padded(id, 6) + " "@ + padded(task_id, 20) + " "@ + padded(status, 12) + " "@ + padded(
        finished_at,
        20,
    ) + " "@ + summary
}

fn run_row_text(
    id: &str,
    task_id: &str,
    status: &str,
    finished_at: &str,
    summary: &str,
) -> (r: String)
    ensures
        r@ == run_row(id@, task_id@, status@, finished_at@, summary@),
{
    let mut r = concat5(
        &pad_right(id, 6),
        " ",
        &pad_right(task_id, 20),
        " ",
        &pad_right(status, 12),
    );
    r.append(" ");
    r.append(&pad_right(finished_at, 20));
    r.append(" ");
    r.append(summary);
    r
}

/// A run in words, with its steps.
pub open spec fn run_words(row: RecordView) -> Seq<char> {
    if row.step_details.len() == 0 {
        row.summary
    } else {
        row.summary + " | steps: "@ + steps_line(row.step_details)
    }
}

/// The row of a run.
pub open spec fn run_line(row: RecordView) -> Seq<char> {
    run_row(
        signed_decimal(row.id as int),
        row.task_id,
        row.status,
        clock(row.finished_at),
        run_words(row),
    )
}

/// The table of runs.
pub open spec fn history_lines(rows: Seq<RecordView>) -> Seq<Seq<char>> {
    if rows.len() == 0 {
        seq!["no history records"@]
    } else {
        seq![run_row("id"@, "task_id"@, "status"@, "finished_at"@, "summary"@)] + Seq::new(
            rows.len(),
            |i: int| run_line(rows[i]),
        )
    }
}

/// The table of runs.
pub fn print_history(rows: &Vec<HistoryRecord>) -> (r: Vec<String>)
    ensures
        texts(r@) == history_lines(record_views(rows@)),
{
    let mut r: Vec<String> = Vec::new();
    if rows.len() == 0 {
        r.push("no history records".to_owned());
        assert(texts(r@) =~= history_lines(record_views(rows@)));
        return r;
    }
    r.push(run_row_text("id", "task_id", "status", "finished_at", "summary"));
    let mut i: usize = 0;
    while i < rows.len()
        invariant
            i <= rows@.len(),
            r@.len() == i + 1,
            r@[0]@ == run_row("id"@, "task_id"@, "status"@, "finished_at"@, "summary"@),
            forall|j: int| 1 <= j < i + 1 ==> (#[trigger] r@[j])@ == run_line(rows@[j - 1]@),
        decreases rows@.len() - i,
    {
        let row = &rows[i];
        let words = if row.step_details.len() == 0 {
            row.summary.clone()
        } else {
            concat3(&row.summary, " | steps: ", &format_step_results(&row.step_details))
        };
        r.push(
            run_row_text(
                &signed_text(row.id),
                &row.task_id,
                &row.status,
                &clock_text(&row.finished_at),
                &words,
            ),
        );
        i = i + 1;
    }
    assert(texts(r@) =~= history_lines(record_views(rows@)));
    r
}

// ---------------------------------------------------------------------------------------------
// Details
// ---------------------------------------------------------------------------------------------
/// `true` or `false`.
pub open spec fn bool_word(b: bool) -> Seq<char> {
    if b {
        "true"@
    } else {
        "false"@
    }
}

/// An optional text, or a dash.
pub open spec fn or_dash(o: Option<Seq<char>>) -> Seq<char> {
    match o {
        Some(s) => s,
        None => "-"@,
    }
}

/// An optional number, or a dash.
pub open spec fn number_or_dash(o: Option<u64>) -> Seq<char> {
    match o {
        Some(n) => decimal(n as nat),
        None => "-"@,
    }
}

/// Variables as `NAME=value`.
pub open spec fn env_parts(env: Seq<(Seq<char>, Seq<char>)>) -> Seq<Seq<char>> {
    Seq::new(env.len(), |i: int| env[i].0 + "="@ + env[i].1)
}

/// Variables on one line, or a dash.
pub open spec fn env_line(env: Seq<(Seq<char>, Seq<char>)>) -> Seq<char> {
    if env.len() == 0 {
        "-"@
    } else {
        joined(env_parts(env), ", "@)
    }
}

fn env_line_text(env: &EnvMap) -> (r: String)
    ensures
        r@ == env_line(text_pairs(*env)),
{
    let n: usize = env.len();
    if n == 0 {
        return "-".to_owned();
    }
    let mut parts: Vec<String> = Vec::new();
    let mut i: usize = 0;
    while i < n
        invariant
            i <= n == env.pairs().len(),
            parts@.len() == i,
            forall|j: int|
                0 <= j < i ==> (#[trigger] parts@[j])@ == env.pairs()[j].0 + "="@
                    + env.pairs()[j].1@,
        decreases n - i,
    {
        parts.push(concat3(env.key(i), "=", env.value(i)));
        i = i + 1;
    }
    assert(texts(parts@) =~= env_parts(text_pairs(*env)));
    join_texts(&parts, ", ")
}

/// A command in detail.
pub open spec fn command_lines(label: Seq<char>, c: CommandView) -> Seq<Seq<char>> {
    seq![
        label + ".program: "@ + c.program,
        label + ".args: "@ + debug_list(c.args),
        label + ".workdir: "@ + or_dash(c.workdir),
        label + ".timeout_seconds: "@ + number_or_dash(c.timeout_seconds),
        label + ".env: "@ + env_line(c.env),
    ]
}

/// A command in detail.
pub fn print_command_detail(label: &str, command: &CommandConfig) -> (r: Vec<String>)
    ensures
        texts(r@) == command_lines(label@, command@),
{
    let workdir = match &command.workdir {
        Some(dir) => dir.clone(),
        None => "-".to_owned(),
    };
    let timeout = match command.timeout_seconds {
        Some(seconds) => decimal_text(seconds),
        None => "-".to_owned(),
    };
    let mut r: Vec<String> = Vec::new();
    r.push(concat3(label, ".program: ", &command.program));
    r.push(concat3(label, ".args: ", &debug_list_text(&command.args)));
    r.push(concat3(label, ".workdir: ", &workdir));
    r.push(concat3(label, ".timeout_seconds: ", &timeout));
    r.push(concat3(label, ".env: ", &env_line_text(&command.env)));
    assert(texts(r@) =~= command_lines(label@, command@));
    r
}

/// A task's own settings.
pub open spec fn setting_lines(t: TaskView) -> Seq<Seq<char>> {
    seq![
        "id: "@ + t.id,
        "name: "@ + t.name,
        "enabled: "@ + bool_word(t.enabled),
        "concurrency: "@ + policy_name(t.concurrency.policy) + " (max_running="@ + decimal(
            t.concurrency.max_running as nat,
        ) + ")"@,
        "retry: max_attempts="@ + decimal(t.retry.max_attempts as nat) + ", delay_seconds="@
            + decimal(t.retry.delay_seconds as nat),
        "schedule: "@ + schedule_summary(t.schedule),
    ]
}

/// How a task's last run ended.
pub open spec fn runtime_lines(runtime: Option<RuntimeView>) -> Seq<Seq<char>> {
    match runtime {
        Some(r) => seq![
            "last_status: "@ + status_word(r.last_status),
            "last_summary: "@ + r.last_summary,
            "last_started_at: "@ + clock(r.last_started_at),
            "last_finished_at: "@ + clock(r.last_finished_at),
            "last_steps: "@ + opt_steps(r.last_steps),
        ],
        None => seq![
            "last_status: -"@,
            "last_summary: -"@,
            "last_started_at: -"@,
            "last_finished_at: -"@,
            "last_steps: -"@,
        ],
    }
}

/// The latest run of a task that is on record.
pub open spec fn latest_lines(latest: Option<RecordView>) -> Seq<Seq<char>> {
    match latest {
        Some(h) => seq![
            "latest_history_status: "@ + h.status,
            "latest_history_summary: "@ + h.summary,
            "latest_history_finished_at: "@ + clock(h.finished_at),
            "latest_history_exit_code: "@ + signed_decimal(h.exit_code as int),
            "latest_history_steps: "@ + opt_steps(h.step_details),
        ],
        None => seq![
            "latest_history_status: -"@,
            "latest_history_summary: -"@,
            "latest_history_finished_at: -"@,
            "latest_history_exit_code: -"@,
            "latest_history_steps: -"@,
        ],
    }
}

/// A task in detail: its settings, its command, its last run and the latest run on record.
pub open spec fn detail_lines(
    t: TaskView,
    runtime: Option<RuntimeView>,
    latest: Option<RecordView>,
) -> Seq<Seq<char>> {
    setting_lines(t) + command_lines("command"@, t.command) + runtime_lines(runtime)
        + latest_lines(latest)
}

fn setting_line_texts(task: &TaskConfig) -> (r: Vec<String>)
    ensures
        texts(r@) == setting_lines(task@),
{
    let enabled = if task.enabled {
        "true"
    } else {
        "false"
    };
    let mut r: Vec<String> = Vec::new();
    r.push(concat("id: ", &task.id));
    r.push(concat("name: ", &task.name));
    r.push(concat("enabled: ", enabled));
    r.push(
        concat5(
            "concurrency: ",
            format_concurrency_policy(task.concurrency.policy),
            " (max_running=",
            &decimal_text(task.concurrency.max_running as u64),
            ")",
        ),
    );
    let mut retry = concat3(
        "retry: max_attempts=",
        &decimal_text(task.retry.max_attempts as u64),
        ", delay_seconds=",
    );
    retry.append(&decimal_text(task.retry.delay_seconds));
    r.push(retry);
    r.push(concat("schedule: ", &task.schedule.summary()));
    assert(texts(r@) =~= setting_lines(task@));
    r
}

fn runtime_line_texts(runtime: Option<&TaskRuntimeState>) -> (r: Vec<String>)
    ensures
        texts(r@) == runtime_lines(
            match runtime {
                Some(s) => Some(s@),
                None => None,
            },
        ),
{
    let mut r: Vec<String> = Vec::new();
    match runtime {
        Some(s) => {
            r.push(concat("last_status: ", &s.last_status.word()));
            r.push(concat("last_summary: ", &s.last_summary));
            r.push(concat("last_started_at: ", &clock_text(&s.last_started_at)));
            r.push(concat("last_finished_at: ", &clock_text(&s.last_finished_at)));
            r.push(concat("last_steps: ", &opt_steps_text(&s.last_steps)));
            assert(texts(r@) =~= runtime_lines(Some(s@)));
        },
        None => {
            r.push("last_status: -".to_owned());
            r.push("last_summary: -".to_owned());
            r.push("last_started_at: -".to_owned());
            r.push("last_finished_at: -".to_owned());
            r.push("last_steps: -".to_owned());
            assert(texts(r@) =~= runtime_lines(None));
        },
    }
    r
}

fn latest_line_texts(latest: Option<&HistoryRecord>) -> (r: Vec<String>)
    ensures
        texts(r@) == latest_lines(
            match latest {
                Some(h) => Some(h@),
                None => None,
            },
        ),
{
    let mut r: Vec<String> = Vec::new();
    match latest {
        Some(h) => {
            r.push(concat("latest_history_status: ", &h.status));
            r.push(concat("latest_history_summary: ", &h.summary));
            r.push(concat("latest_history_finished_at: ", &clock_text(&h.finished_at)));
            r.push(concat("latest_history_exit_code: ", &signed_text(h.exit_code as i64)));
            r.push(concat("latest_history_steps: ", &opt_steps_text(&h.step_details)));
            assert(texts(r@) =~= latest_lines(Some(h@)));
        },
        None => {
            r.push("latest_history_status: -".to_owned());
            r.push("latest_history_summary: -".to_owned());
            r.push("latest_history_finished_at: -".to_owned());
            r.push("latest_history_exit_code: -".to_owned());
            r.push("latest_history_steps: -".to_owned());
            assert(texts(r@) =~= latest_lines(None));
        },
    }
    r
}

fn append_texts(a: &mut Vec<String>, b: Vec<String>)
    ensures
        texts(final(a)@) == texts(old(a)@) + texts(b@),
{
    let mut rest = b;
    let ghost tail = texts(rest@);
    a.append(&mut rest);
    assert(texts(a@) =~= texts(old(a)@) + tail);
}

/// A task in detail.
pub fn print_task_detail(
    task: &TaskConfig,
    runtime: Option<&TaskRuntimeState>,
    latest_history: Option<&HistoryRecord>,
) -> (r: Vec<String>)
    ensures
        texts(r@) == detail_lines(
            task@,
            match runtime {
                Some(s) => Some(s@),
                None => None,
            },
            match latest_history {
                Some(h) => Some(h@),
                None => None,
            },
        ),
{
    let mut r = setting_line_texts(task);
    append_texts(&mut r, print_command_detail("command", &task.command));
    append_texts(&mut r, runtime_line_texts(runtime));
    append_texts(&mut r, latest_line_texts(latest_history));
    r
}

// ---------------------------------------------------------------------------------------------
// The daily report
// ---------------------------------------------------------------------------------------------
/// Counts as `status=count`.
pub open spec fn total_parts(p: Seq<(Seq<char>, usize)>) -> Seq<Seq<char>> {
    Seq::new(p.len(), |i: int| p[i].0 + "="@ + decimal(p[i].1 as nat))
}

/// Counts on one line, or a dash.
pub open spec fn totals_line(p: Seq<(Seq<char>, usize)>) -> Seq<char> {
    if p.len() == 0 {
        "-"@
    } else {
        joined(total_parts(p), ", "@)
    }
}

fn totals_line_text(totals: &TextMap<usize>) -> (r: String)
    ensures
        r@ == totals_line(totals.pairs()),
{
    let n: usize = totals.len();
    if n == 0 {
        return "-".to_owned();
    }
    let mut parts: Vec<String> = Vec::new();
    let mut i: usize = 0;
    while i < n
        invariant
            i <= n == totals.pairs().len(),
            parts@.len() == i,
            forall|j: int|
                0 <= j < i ==> (#[trigger] parts@[j])@ == totals.pairs()[j].0 + "="@ + decimal(
                    totals.pairs()[j].1 as nat,
                ),
        decreases n - i,
    {
        parts.push(concat3(totals.key(i), "=", &decimal_text(*totals.value(i) as u64)));
        i = i + 1;
    }
    assert(texts(parts@) =~= total_parts(totals.pairs()));
    join_texts(&parts, ", ")
}

/// A daily report in lines.
pub open spec fn report_lines(r: DailyReportRecordOutput) -> Seq<Seq<char>> {
    seq![
        "status: "@ + r.status@,
        "summary: "@ + r.summary@,
        "date: "@ + r.payload.date@,
        "timezone: "@ + r.payload.timezone@,
        "window_start: "@ + rfc3339(r.payload.window_start@.0, r.payload.window_start@.1),
        "window_end: "@ + rfc3339(r.payload.window_end@.0, r.payload.window_end@.1),
        "total_runs: "@ + decimal(r.payload.total_runs as nat),
        "totals: "@ + totals_line(r.payload.totals.pairs()),
        "tasks: "@ + decimal(r.payload.tasks@.len()),
        "failures: "@ + decimal(r.payload.failures@.len()),
    ]
}

/// A daily report in lines.
pub fn print_daily_report(report: &DailyReportRecordOutput) -> (r: Vec<String>)
    ensures
        texts(r@) == report_lines(*report),
{
    let mut r: Vec<String> = Vec::new();
    r.push(concat("status: ", &report.status));
    r.push(concat("summary: ", &report.summary));
    r.push(concat("date: ", &report.payload.date));
    r.push(concat("timezone: ", &report.payload.timezone));
    r.push(concat("window_start: ", &rfc3339_of(&report.payload.window_start)));
    r.push(concat("window_end: ", &rfc3339_of(&report.payload.window_end)));
    r.push(concat("total_runs: ", &decimal_text(report.payload.total_runs as u64)));
    r.push(concat("totals: ", &totals_line_text(&report.payload.totals)));
    r.push(concat("tasks: ", &decimal_text(report.payload.tasks.len() as u64)));
    r.push(concat("failures: ", &decimal_text(report.payload.failures.len() as u64)));
    assert(texts(r@) =~= report_lines(*report));
    r
}

// ---------------------------------------------------------------------------------------------
// Machine-readable items
// ---------------------------------------------------------------------------------------------
/// A task in a machine-readable list.
pub struct ListItemView {
    pub id: Seq<char>,
    pub name: Seq<char>,
    pub enabled: bool,
    pub concurrency_policy: Seq<char>,
    pub max_running: u8,
    pub schedule: Seq<char>,
    pub last_status: Option<TaskRunStatus>,
    pub last_summary: Option<Seq<char>>,
    pub last_started_at: Option<(int, int)>,
    pub last_finished_at: Option<(int, int)>,
}

/// A task in a machine-readable list.
#[derive(Debug)]
pub struct TaskListItem {
    pub id: String,
    pub name: String,
    pub enabled: bool,
    pub concurrency_policy: String,
    pub max_running: u8,
    pub schedule: String,
    pub last_status: Option<TaskRunStatus>,
    pub last_summary: Option<String>,
    pub last_started_at: Option<Timestamp>,
    pub last_finished_at: Option<Timestamp>,
}

/// An optional instant in views.
pub open spec fn opt_instant(o: Option<Timestamp>) -> Option<(int, int)> {
    match o {
        Some(t) => Some(t@),
        None => None,
    }
}

impl View for TaskListItem {
    type V = ListItemView;

    open spec fn view(&self) -> ListItemView {
        ListItemView {
            id: self.id@,
            name: self.name@,
            enabled: self.enabled,
            concurrency_policy: self.concurrency_policy@,
            max_running: self.max_running,
            schedule: self.schedule@,
            last_status: self.last_status,
            last_summary: opt_text(self.last_summary),
            last_started_at: opt_instant(self.last_started_at),
            last_finished_at: opt_instant(self.last_finished_at),
        }
    }
}

/// What a machine-readable list says of a task.
pub open spec fn list_item(t: TaskView, runtime: Option<RuntimeView>) -> ListItemView {
    ListItemView {
        id: t.id,
        name: t.name,
        enabled: t.enabled,
        concurrency_policy: policy_name(t.concurrency.policy),
        max_running: t.concurrency.max_running,
        schedule: schedule_summary(t.schedule),
        last_status: match runtime {
            Some(r) => Some(r.last_status),
            None => None,
        },
        last_summary: match runtime {
            Some(r) => Some(r.last_summary),
            None => None,
        },
        last_started_at: match runtime {
            Some(r) => Some(r.last_started_at),
            None => None,
        },
        last_finished_at: match runtime {
            Some(r) => Some(r.last_finished_at),
            None => None,
        },
    }
}

impl TaskListItem {
    /// What a machine-readable list says of a task.
    pub fn from_task(task: &TaskConfig, runtime: Option<&TaskRuntimeState>) -> (r: TaskListItem)
        ensures
            r@ == list_item(
                task@,
                match runtime {
                    Some(s) => Some(s@),
                    None => None,
                },
            ),
    {
        let mut item = TaskListItem {
            id: task.id.clone(),
            name: task.name.clone(),
            enabled: task.enabled,
            concurrency_policy: format_concurrency_policy(task.concurrency.policy).to_owned(),
            max_running: task.concurrency.max_running,
            schedule: task.schedule.summary(),
            last_status: None,
            last_summary: None,
            last_started_at: None,
            last_finished_at: None,
        };
        if let Some(s) = runtime {
            item.last_status = Some(s.last_status);
            item.last_summary = Some(s.last_summary.clone());
            item.last_started_at = Some(s.last_started_at.clone());
            item.last_finished_at = Some(s.last_finished_at.clone());
        }
        item
    }
}

/// The machine-readable list of the tasks of a configuration.
pub fn list_items(app: &AppConfig, state: &RuntimeStateFile) -> (r: Vec<TaskListItem>)
    ensures
        r@.len() == app@.tasks.len(),
        forall|i: int|
            0 <= i < r@.len() ==> (#[trigger] r@[i])@ == list_item(
                app@.tasks[i],
                runtime_at(state@, app@.tasks[i].id),
            ),
{
    let mut r: Vec<TaskListItem> = Vec::new();
    let mut i: usize = 0;
    while i < app.tasks.len()
        invariant
            i <= app.tasks@.len(),
            r@.len() == i,
            forall|j: int|
                0 <= j < i ==> (#[trigger] r@[j])@ == list_item(
                    app@.tasks[j],
                    runtime_at(state@, app@.tasks[j].id),
                ),
        decreases app.tasks@.len() - i,
    {
        let task = &app.tasks[i];
        assert(app@.tasks[i as int] == task@);
        r.push(TaskListItem::from_task(task, state.task(&task.id)));
        i = i + 1;
    }
    r
}

/// The outcome of a run in machine-readable form.
pub struct OutcomeOutputView {
    pub status: TaskRunStatus,
    pub summary: Seq<char>,
    pub exit_code: i32,
    pub started_at: (int, int),
    pub finished_at: (int, int),
    pub steps: Seq<StepView>,
}

/// The outcome of a run in machine-readable form.
#[derive(Debug)]
pub struct TaskOutcomeOutput {
    pub status: TaskRunStatus,
    pub summary: String,
    pub exit_code: i32,
    pub started_at: Timestamp,
    pub finished_at: Timestamp,
    pub steps: Vec<TaskStepResult>,
}

impl View for TaskOutcomeOutput {
    type V = OutcomeOutputView;

    open spec fn view(&self) -> OutcomeOutputView {
        OutcomeOutputView {
            status: self.status,
            summary: self.summary@,
            exit_code: self.exit_code,
            started_at: self.started_at@,
            finished_at: self.finished_at@,
            steps: step_views(self.steps@),
        }
    }
}

/// What a machine-readable outcome says.
pub open spec fn outcome_output(o: OutcomeView) -> OutcomeOutputView {
    OutcomeOutputView {
        status: o.status,
        summary: o.summary,
        exit_code: outcome_exit_code(o) as i32,
        started_at: o.started_at,
        finished_at: o.finished_at,
        steps: o.steps,
    }
}

impl TaskOutcomeOutput {
    /// What a machine-readable outcome says.
    pub fn from_outcome(outcome: &TaskOutcome) -> (r: TaskOutcomeOutput)
        ensures
            r@ == outcome_output(outcome@),
    {
        TaskOutcomeOutput {
            status: outcome.status(),
            summary: outcome.summary().to_owned(),
            exit_code: outcome.exit_code(),
            started_at: outcome.started_at(),
            finished_at: outcome.finished_at(),
            steps: copy_steps(outcome.steps()),
        }
    }
}

// ---------------------------------------------------------------------------------------------
// Logs
// ---------------------------------------------------------------------------------------------
/// The arguments with which `journalctl` shows the log of the daemon.
pub open spec fn journal_args(lines: usize, follow: bool) -> Seq<Seq<char>> {
    let shown = seq!["-u"@, "taskd"@, "--no-pager"@, "-n"@, decimal(lines as nat)];
    if follow {
        shown.push("-f"@)
    } else {
        shown
    }
}

/// The arguments with which `journalctl` shows the log of the daemon.
pub fn journalctl_args(lines: usize, follow: bool) -> (r: Vec<String>)
    ensures
        texts(r@) == journal_args(lines, follow),
{
    let mut args: Vec<String> = Vec::new();
    args.push("-u".to_owned());
    args.push("taskd".to_owned());
    args.push("--no-pager".to_owned());
    args.push("-n".to_owned());
    args.push(decimal_text(lines as u64));
    if follow {
        args.push("-f".to_owned());
    }
    assert(texts(args@) =~= journal_args(lines, follow));
    args
}

} // verus!

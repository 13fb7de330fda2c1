//! The daily report: which runs fall on a day, and what they add up to.

use vstd::prelude::*;

use crate::calendar::{
    after, bad, date_digits, date_read, date_text, good, local_instant, local_time, parse_date,
    valid_instant, zone_error, zone_fault, zone_known, CivilDate, Timestamp, DAY_SECONDS,
    FIRST_SECOND, LAST_SECOND,
};
use crate::failure::{caused, plain, Failure, FailureView};
use crate::history::{record_views, HistoryRecord, RecordView};
use crate::order::{before, lemma_before_irreflexive};
use crate::task_runner::{copy_steps, step_views, StepView, TaskStepResult};
use crate::tally::{count_texts, counts, lemma_occurrences, sum_counts};
use crate::text::{concat, concat3, concat5, decimal, decimal_text, opt_text, same_text, texts};
use crate::text_map::{has_key, lemma_unique_key, position, TextMap};

verus! {

// ---------------------------------------------------------------------------------------------
// The day
// ---------------------------------------------------------------------------------------------
/// A day in a time zone, with the instants at which it starts and ends.
pub struct DayView {
    pub date: CivilDate,
    pub timezone: Seq<char>,
    pub start: (int, int),
    pub end: (int, int),
}

/// A day in a time zone: from its first instant on for a day's worth of seconds.
#[derive(Debug)]
pub struct ReportDay {
    pub date: CivilDate,
    pub timezone: String,
    pub start: Timestamp,
    pub end: Timestamp,
}

impl View for ReportDay {
    type V = DayView;

    open spec fn view(&self) -> DayView {
        DayView {
            date: self.date,
            timezone: self.timezone@,
            start: self.start@,
            end: self.end@,
        }
    }
}

/// What came of resolving a day: the day, none where its end lies beyond the last instant, or a
/// failure.
pub open spec fn day_result(r: Result<Option<ReportDay>, Failure>) -> Result<
    Option<DayView>,
    FailureView,
> {
    match r {
        Ok(Some(day)) => Ok(Some(day@)),
        Ok(None) => Ok(None),
        Err(f) => Err(f@),
    }
}

/// The day that a date and a time zone name, given what reading them gives and when that day
/// starts.
pub open spec fn resolved_day(
    date_input: Seq<char>,
    timezone: Seq<char>,
    date: Result<CivilDate, Seq<char>>,
    timezone_fault: Option<Seq<char>>,
    start: Option<int>,
) -> Result<Option<DayView>, FailureView> {
    match date {
        Err(error) => Err(
            caused(
                "invalid report date '"@ + date_input + "', expected YYYY-MM-DD"@,
                error,
            ),
        ),
        Ok(day) => match timezone_fault {
            Some(error) => Err(caused("invalid timezone '"@ + timezone + "'"@, error)),
            None => match start {
                None => Err(
                    plain(
                        "failed to resolve start of day for "@ + date_digits(day) + " in "@
                            + timezone,
                    ),
                ),
                Some(secs) => if secs + DAY_SECONDS <= LAST_SECOND {
                    Ok(
                        Some(
                            DayView {
                                date: day,
                                timezone,
                                start: (secs, 0),
                                end: (secs + DAY_SECONDS, 0),
                            },
                        ),
                    )
                } else {
                    Ok(None)
                },
            },
        },
    }
}

/// A read date in views.
pub open spec fn date_result(r: Result<CivilDate, String>) -> Result<CivilDate, Seq<char>> {
    match r {
        Ok(d) => good(d),
        Err(e) => bad::<CivilDate>(e@),
    }
}

/// An optional number of seconds as an integer.
pub open spec fn opt_secs(o: Option<i64>) -> Option<int> {
    match o {
        Some(secs) => Some(secs as int),
        None => None,
    }
}

/// The day that a date and a time zone name, given what reading them gives and when that day
/// starts.
pub fn judge_day(
    date_input: &str,
    timezone: &str,
    date: &Result<CivilDate, String>,
    timezone_fault: &Option<String>,
    start: Option<i64>,
) -> (r: Result<Option<ReportDay>, Failure>)
    requires
        start is Some ==> FIRST_SECOND <= start->0 <= LAST_SECOND,
    ensures
        day_result(r) == resolved_day(
            date_input@,
            timezone@,
            date_result(*date),
            opt_text(*timezone_fault),
            opt_secs(start),
        ),
{
    let day = match date {
        Ok(day) => *day,
        Err(error) => {
            return Err(
                Failure::caused_by(
                    concat3("invalid report date '", date_input, "', expected YYYY-MM-DD"),
                    error,
                ),
            );
        },
    };
    if let Some(error) = timezone_fault {
        return Err(Failure::caused_by(concat3("invalid timezone '", timezone, "'"), error));
    }
    match start {
        None => {
            let mut message = concat3(
                "failed to resolve start of day for ",
                &date_text(day),
                " in ",
            );
            message.append(timezone);
            Err(Failure::new(message))
        },
        Some(secs) => {
            match Timestamp::new(secs, 0) {
                Some(start_at) => match start_at.plus_day() {
                    Some(end) => Ok(
                        Some(
                            ReportDay {
                                date: day,
                                timezone: timezone.to_owned(),
                                start: start_at,
                                end,
                            },
                        ),
                    ),
                    None => Ok(None),
                },
                None => {
                    assert(valid_instant((secs as int, 0int)));
                    Ok(None)
                },
            }
        },
    }
}

/// When a day starts in a time zone, where its midnight is a single instant.
pub open spec fn start_of_day(
    date: Result<CivilDate, Seq<char>>,
    timezone: Seq<char>,
) -> Option<int> {
    match date {
        Ok(d) => if zone_known(timezone) {
            local_time(timezone, d.year as int, d.month as int, d.day as int, 0, 0, 0)
        } else {
            None
        },
        Err(_) => None,
    }
}

/// The day that a date of the form `YYYY-MM-DD` and a time zone name; none where its end lies
/// beyond the last instant.
pub fn report_day(date: &str, timezone: &str) -> (r: Result<Option<ReportDay>, Failure>)
    ensures
        day_result(r) == resolved_day(
            date@,
            timezone@,
            date_read(date@, "%Y-%m-%d"@),
            zone_fault(timezone@),
            start_of_day(date_read(date@, "%Y-%m-%d"@), timezone@),
        ),
{
    let parsed = parse_date(date, "%Y-%m-%d");
    let fault = zone_error(timezone);
    let start = match &parsed {
        Ok(day) => if fault.is_none() {
            local_instant(timezone, *day, 0, 0, 0)
        } else {
            None
        },
        Err(_) => None,
    };
    judge_day(date, timezone, &parsed, &fault, start)
}

// ---------------------------------------------------------------------------------------------
// Counting
// ---------------------------------------------------------------------------------------------
/// The statuses of a list of rows.
pub open spec fn statuses(rows: Seq<RecordView>) -> Seq<Seq<char>> {
    Seq::new(rows.len(), |i: int| rows[i].status)
}

fn status_texts(rows: &Vec<HistoryRecord>) -> (r: Vec<String>)
    ensures
        texts(r@) == statuses(record_views(rows@)),
{
    let mut r: Vec<String> = Vec::new();
    let mut i: usize = 0;
    while i < rows.len()
        invariant
            i <= rows@.len(),
            r@.len() == i,
            forall|j: int| 0 <= j < i ==> (#[trigger] r@[j])@ == rows@[j].status@,
        decreases rows@.len() - i,
    {
        r.push(rows[i].status.clone());
        i = i + 1;
    }
    assert(texts(r@) =~= statuses(record_views(rows@)));
    r
}

/// Whether a row is of a run that did not succeed.
pub open spec fn is_failure(row: RecordView) -> bool {
    row.status != "success"@
}

/// How many of the first `n` rows are of that task.
pub open spec fn task_count(rows: Seq<RecordView>, id: Seq<char>, n: int) -> nat
    decreases n,
{
    if n <= 0 {
        0
    } else {
        task_count(rows, id, n - 1) + (if rows[n - 1].task_id == id {
            1nat
        } else {
            0
        })
    }
}

/// How many of the first `n` rows are of that task and did not succeed.
pub open spec fn task_failures(rows: Seq<RecordView>, id: Seq<char>, n: int) -> nat
    decreases n,
{
    if n <= 0 {
        0
    } else {
        task_failures(rows, id, n - 1) + (if rows[n - 1].task_id == id && is_failure(rows[n - 1]) {
            1nat
        } else {
            0
        })
    }
}

/// The row of a task that finished last among the first `n`, the first of them on a tie.
pub open spec fn latest(rows: Seq<RecordView>, id: Seq<char>, n: int) -> Option<int>
    decreases n,
{
    if n <= 0 {
        None
    } else {
        let earlier = latest(rows, id, n - 1);
        if rows[n - 1].task_id != id {
            earlier
        } else {
            match earlier {
                None => Some(n - 1),
                Some(p) => if after(rows[n - 1].finished_at, rows[p].finished_at) {
                    Some(n - 1)
                } else {
                    Some(p)
                },
            }
        }
    }
}

/// Of all runs of a task, none finished after the latest, and none before it in the list finished
/// at the same instant.
pub proof fn law_latest_finished_last(rows: Seq<RecordView>, id: Seq<char>, n: int, k: int)
    requires
        0 <= k < n <= rows.len(),
        rows[k].task_id == id,
    ensures
        latest(rows, id, n) is Some,
        0 <= latest(rows, id, n)->0 < n,
        rows[latest(rows, id, n)->0].task_id == id,
        !after(rows[k].finished_at, rows[latest(rows, id, n)->0].finished_at),
        k < latest(rows, id, n)->0 ==> after(
            rows[latest(rows, id, n)->0].finished_at,
            rows[k].finished_at,
        ),
    decreases n,
{
    if k < n - 1 {
        law_latest_finished_last(rows, id, n - 1, k);
    } else {
        lemma_latest(rows, id, n - 1);
    }
}

pub proof fn lemma_latest(rows: Seq<RecordView>, id: Seq<char>, n: int)
    requires
        0 <= n <= rows.len(),
    ensures
        match latest(rows, id, n) {
            Some(p) => 0 <= p < n && rows[p].task_id == id && task_count(rows, id, n) > 0,
            None => task_count(rows, id, n) == 0,
        },
        task_failures(rows, id, n) <= task_count(rows, id, n) <= n,
    decreases n,
{
    if n > 0 {
        lemma_latest(rows, id, n - 1);
    }
}

// ---------------------------------------------------------------------------------------------
// The report
// ---------------------------------------------------------------------------------------------
/// What the runs of one task on a day add up to.
pub struct TaskSummaryView {
    pub task_id: Seq<char>,
    pub run_count: usize,
    pub failure_count: usize,
    pub last_status: Seq<char>,
    pub last_summary: Seq<char>,
    pub last_finished_at: (int, int),
}

/// What the runs of one task on a day add up to.
#[derive(Debug)]
pub struct DailyTaskSummary {
    pub task_id: String,
    pub run_count: usize,
    pub failure_count: usize,
    pub last_status: String,
    pub last_summary: String,
    pub last_finished_at: Timestamp,
}

impl View for DailyTaskSummary {
    type V = TaskSummaryView;

    open spec fn view(&self) -> TaskSummaryView {
        TaskSummaryView {
            task_id: self.task_id@,
            run_count: self.run_count,
            failure_count: self.failure_count,
            last_status: self.last_status@,
            last_summary: self.last_summary@,
            last_finished_at: self.last_finished_at@,
        }
    }
}

impl Clone for DailyTaskSummary {
    fn clone(&self) -> (r: Self)
        ensures
            r@ == self@,
    {
        DailyTaskSummary {
            task_id: self.task_id.clone(),
            run_count: self.run_count,
            failure_count: self.failure_count,
            last_status: self.last_status.clone(),
            last_summary: self.last_summary.clone(),
            last_finished_at: self.last_finished_at.clone(),
        }
    }
}

/// What the runs of one task among the first `n` rows add up to.
pub open spec fn task_summary(rows: Seq<RecordView>, id: Seq<char>, n: int) -> TaskSummaryView {
    let last = rows[latest(rows, id, n)->0];
    TaskSummaryView {
        task_id: id,
        run_count: task_count(rows, id, n) as usize,
        failure_count: task_failures(rows, id, n) as usize,
        last_status: last.status,
        last_summary: last.summary,
        last_finished_at: last.finished_at,
    }
}

/// A run that did not succeed.
pub struct FailureSummaryView {
    pub task_id: Seq<char>,
    pub status: Seq<char>,
    pub summary: Seq<char>,
    pub exit_code: i32,
    pub finished_at: (int, int),
    pub step_details: Seq<StepView>,
}

/// A run that did not succeed.
#[derive(Debug)]
pub struct DailyFailureSummary {
    pub task_id: String,
    pub status: String,
    pub summary: String,
    pub exit_code: i32,
    pub finished_at: Timestamp,
    pub step_details: Vec<TaskStepResult>,
}

impl View for DailyFailureSummary {
    type V = FailureSummaryView;

    open spec fn view(&self) -> FailureSummaryView {
        FailureSummaryView {
            task_id: self.task_id@,
            status: self.status@,
            summary: self.summary@,
            exit_code: self.exit_code,
            finished_at: self.finished_at@,
            step_details: step_views(self.step_details@),
        }
    }
}

/// What a report says of a run that did not succeed.
pub open spec fn failure_summary(row: RecordView) -> FailureSummaryView {
    FailureSummaryView {
        task_id: row.task_id,
        status: row.status,
        summary: row.summary,
        exit_code: row.exit_code,
        finished_at: row.finished_at,
        step_details: row.step_details,
    }
}

impl DailyFailureSummary {
    /// What a report says of a run that did not succeed.
    pub fn from_record(value: &HistoryRecord) -> (r: DailyFailureSummary)
        ensures
            r@ == failure_summary(value@),
    {
        DailyFailureSummary {
            task_id: value.task_id.clone(),
            status: value.status.clone(),
            summary: value.summary.clone(),
            exit_code: value.exit_code,
            finished_at: value.finished_at.clone(),
            step_details: copy_steps(&value.step_details),
        }
    }
}

/// The runs among the first `n` rows that did not succeed, in their order.
pub open spec fn failed_runs(rows: Seq<RecordView>, n: int) -> Seq<FailureSummaryView>
    decreases n,
{
    if n <= 0 {
        Seq::empty()
    } else if is_failure(rows[n - 1]) {
        failed_runs(rows, n - 1).push(failure_summary(rows[n - 1]))
    } else {
        failed_runs(rows, n - 1)
    }
}

/// The views of a list of failed runs.
pub open spec fn failure_views(v: Seq<DailyFailureSummary>) -> Seq<FailureSummaryView> {
    Seq::new(v.len(), |i: int| v[i]@)
}

/// The views of a list of task summaries.
pub open spec fn summary_views(v: Seq<DailyTaskSummary>) -> Seq<TaskSummaryView> {
    Seq::new(v.len(), |i: int| v[i]@)
}

/// One summary for each task that ran, by ascending id.
pub open spec fn lists_summaries(list: Seq<TaskSummaryView>, rows: Seq<RecordView>) -> bool {
    &&& forall|i: int, j: int|
        0 <= i < j < list.len() ==> before(
            (#[trigger] list[i]).task_id,
            (#[trigger] list[j]).task_id,
        )
    &&& forall|k: int|
        0 <= k < list.len() ==> latest(rows, (#[trigger] list[k]).task_id, rows.len() as int)
            is Some && list[k] == task_summary(rows, list[k].task_id, rows.len() as int)
    &&& forall|i: int|
        0 <= i < rows.len() ==> exists|k: int|
            0 <= k < list.len() && (#[trigger] list[k]).task_id == (#[trigger] rows[i]).task_id
}

/// What the runs of a day amount to: an error where one ended in an error, a warning where none
/// ran or one did not succeed, and all right otherwise.
pub open spec fn report_status(rows: Seq<RecordView>) -> Seq<char> {
    if exists|i: int| 0 <= i < rows.len() && (#[trigger] rows[i]).status == "error"@ {
        "error"@
    } else if rows.len() == 0 || failed_runs(rows, rows.len() as int).len() > 0 {
        "warn"@
    } else {
        "ok"@
    }
}

/// The runs of a day in one sentence.
pub open spec fn report_summary(rows: Seq<RecordView>, date: CivilDate) -> Seq<char> {
    let failures = failed_runs(rows, rows.len() as int).len();
    if rows.len() == 0 {
        "no task runs recorded for "@ + date_digits(date)
    } else if failures == 0 {
        decimal(rows.len()) + " task runs recorded for "@ + date_digits(date)
            + ", all successful"@
    } else {
        decimal(rows.len()) + " task runs recorded for "@ + date_digits(date) + ", "@ + decimal(
            failures,
        ) + " failures"@
    }
}

/// The figures of a daily report.
#[derive(Debug)]
pub struct DailyReportPayload {
    pub date: String,
    pub timezone: String,
    pub window_start: Timestamp,
    pub window_end: Timestamp,
    pub totals: TextMap<usize>,
    pub total_runs: usize,
    pub tasks: Vec<DailyTaskSummary>,
    pub failures: Vec<DailyFailureSummary>,
}

/// A daily report.
#[derive(Debug)]
pub struct DailyReportRecordOutput {
    pub schema_version: u32,
    pub status: String,
    pub summary: String,
    pub content_type: String,
    pub payload: DailyReportPayload,
}

/// What a daily report says of a day and its runs.
pub open spec fn reports(r: DailyReportRecordOutput, day: DayView, rows: Seq<RecordView>) -> bool {
    &&& r.schema_version == 1
    &&& r.status@ == report_status(rows)
    &&& r.summary@ == report_summary(rows, day.date)
    &&& r.content_type@ == "application/json"@
    &&& r.payload.date@ == date_digits(day.date)
    &&& r.payload.timezone@ == day.timezone
    &&& r.payload.window_start@ == day.start
    &&& r.payload.window_end@ == day.end
    &&& counts(r.payload.totals.pairs(), statuses(rows))
    &&& r.payload.total_runs == rows.len()
    &&& lists_summaries(summary_views(r.payload.tasks@), rows)
    &&& failure_views(r.payload.failures@) == failed_runs(rows, rows.len() as int)
}

/// The runs that the first `m` summaries count.
pub open spec fn runs_counted(list: Seq<TaskSummaryView>, m: int) -> int
    decreases m,
{
    if m <= 0 {
        0
    } else {
        runs_counted(list, m - 1) + list[m - 1].run_count
    }
}

/// The failed runs that the first `m` summaries count.
pub open spec fn failures_counted(list: Seq<TaskSummaryView>, m: int) -> int
    decreases m,
{
    if m <= 0 {
        0
    } else {
        failures_counted(list, m - 1) + list[m - 1].failure_count
    }
}

/// How many of the first `n` rows are of one of the first `m` tasks.
spec fn rows_of(list: Seq<TaskSummaryView>, m: int, rows: Seq<RecordView>, n: int) -> int
    decreases m,
{
    if m <= 0 {
        0
    } else {
        rows_of(list, m - 1, rows, n) + task_count(rows, list[m - 1].task_id, n)
    }
}

/// How many of the first `n` rows are of one of the first `m` tasks and did not succeed.
spec fn failed_rows_of(list: Seq<TaskSummaryView>, m: int, rows: Seq<RecordView>, n: int) -> int
    decreases m,
{
    if m <= 0 {
        0
    } else {
        failed_rows_of(list, m - 1, rows, n) + task_failures(rows, list[m - 1].task_id, n)
    }
}

/// Whether one of the first `m` tasks has that id.
spec fn listed(list: Seq<TaskSummaryView>, m: int, id: Seq<char>) -> bool {
    exists|k: int| 0 <= k < m && (#[trigger] list[k]).task_id == id
}

proof fn lemma_row_counts_once(
    list: Seq<TaskSummaryView>,
    m: int,
    rows: Seq<RecordView>,
    n: int,
)
    requires
        0 <= m <= list.len(),
        0 < n <= rows.len(),
        forall|i: int, j: int|
            0 <= i < j < list.len() ==> before(
                (#[trigger] list[i]).task_id,
                (#[trigger] list[j]).task_id,
            ),
    ensures
        rows_of(list, m, rows, n) == rows_of(list, m, rows, n - 1) + (if listed(
            list,
            m,
            rows[n - 1].task_id,
        ) {
            1int
        } else {
            0
        }),
        failed_rows_of(list, m, rows, n) == failed_rows_of(list, m, rows, n - 1) + (if listed(
            list,
            m,
            rows[n - 1].task_id,
        ) && is_failure(rows[n - 1]) {
            1int
        } else {
            0
        }),
    decreases m,
{
    let id = rows[n - 1].task_id;
    if m > 0 {
        lemma_row_counts_once(list, m - 1, rows, n);
        if list[m - 1].task_id == id {
            assert(listed(list, m, id));
            if listed(list, m - 1, id) {
                let k = choose|k: int| 0 <= k < m - 1 && (#[trigger] list[k]).task_id == id;
                assert(before(list[k].task_id, list[m - 1].task_id));
                lemma_before_irreflexive(id);
            }
        } else if listed(list, m, id) {
            let k = choose|k: int| 0 <= k < m && (#[trigger] list[k]).task_id == id;
            assert(list[k].task_id == id && k < m - 1);
        }
    }
}

proof fn lemma_all_rows_counted(list: Seq<TaskSummaryView>, rows: Seq<RecordView>, n: int)
    requires
        lists_summaries(list, rows),
        0 <= n <= rows.len(),
    ensures
        rows_of(list, list.len() as int, rows, n) == n,
        failed_rows_of(list, list.len() as int, rows, n) == failed_runs(rows, n).len(),
    decreases n,
{
    if n > 0 {
        lemma_all_rows_counted(list, rows, n - 1);
        lemma_row_counts_once(list, list.len() as int, rows, n);
        assert(listed(list, list.len() as int, rows[n - 1].task_id));
    } else {
        lemma_no_rows_counted(list, list.len() as int, rows);
    }
}

proof fn lemma_no_rows_counted(list: Seq<TaskSummaryView>, m: int, rows: Seq<RecordView>)
    ensures
        rows_of(list, m, rows, 0) == 0,
        failed_rows_of(list, m, rows, 0) == 0,
    decreases m,
{
    if m > 0 {
        lemma_no_rows_counted(list, m - 1, rows);
    }
}

proof fn lemma_figures(list: Seq<TaskSummaryView>, m: int, rows: Seq<RecordView>)
    requires
        lists_summaries(list, rows),
        rows.len() <= usize::MAX,
        0 <= m <= list.len(),
    ensures
        runs_counted(list, m) == rows_of(list, m, rows, rows.len() as int),
        failures_counted(list, m) == failed_rows_of(list, m, rows, rows.len() as int),
    decreases m,
{
    if m > 0 {
        lemma_figures(list, m - 1, rows);
        let id = list[m - 1].task_id;
        lemma_latest(rows, id, rows.len() as int);
        assert(list[m - 1] == task_summary(rows, id, rows.len() as int));
    }
}

/// The figures of a report agree: the runs of all tasks add up to the runs of the day, and their
/// failures to the failures of the day.
pub proof fn law_task_figures_add_up(list: Seq<TaskSummaryView>, rows: Seq<RecordView>)
    requires
        lists_summaries(list, rows),
        rows.len() <= usize::MAX,
    ensures
        runs_counted(list, list.len() as int) == rows.len(),
        failures_counted(list, list.len() as int) == failed_runs(rows, rows.len() as int).len(),
{
    lemma_figures(list, list.len() as int, rows);
    lemma_all_rows_counted(list, rows, rows.len() as int);
}

/// A table sums up the tasks of the first `n` rows.
spec fn sums_up(
    summaries: Map<Seq<char>, DailyTaskSummary>,
    rows: Seq<RecordView>,
    n: int,
) -> bool {
    forall|id: Seq<char>|
        {
            &&& #[trigger] summaries.dom().contains(id) <==> latest(rows, id, n) is Some
            &&& summaries.dom().contains(id) ==> summaries[id]@ == task_summary(rows, id, n)
        }
}

fn sum_up(summaries: &mut TextMap<DailyTaskSummary>, rows: &Vec<HistoryRecord>, n: usize)
    requires
        n < rows@.len(),
        sums_up(old(summaries)@, record_views(rows@), n as int),
    ensures
        sums_up(final(summaries)@, record_views(rows@), n + 1),
{
    let ghost views = record_views(rows@);
    let row = &rows[n];
    let ghost id = row.task_id@;
    assert(views[n as int] == row@);
    proof {
        lemma_latest(views, id, n as int);
        lemma_latest(views, id, n + 1);
    }
    assert(old(summaries)@.dom().contains(id) <==> latest(views, id, n as int) is Some);
    let total: usize = rows.len();
    let failed = !same_text(&row.status, "success");
    let mut entry = match summaries.get(&row.task_id) {
        Some(entry) => entry.clone(),
        None => DailyTaskSummary {
            task_id: row.task_id.clone(),
            run_count: 0,
            failure_count: 0,
            last_status: row.status.clone(),
            last_summary: row.summary.clone(),
            last_finished_at: row.finished_at.clone(),
        },
    };
    entry.run_count = entry.run_count + 1;
    if failed {
        entry.failure_count = entry.failure_count + 1;
    }
    if row.finished_at.is_after(&entry.last_finished_at) {
        entry.last_status = row.status.clone();
        entry.last_summary = row.summary.clone();
        entry.last_finished_at = row.finished_at.clone();
    }
    assert(entry@ == task_summary(views, id, n + 1));
    summaries.insert(row.task_id.clone(), entry);
    assert forall|k: Seq<char>|
        {
            &&& #[trigger] summaries@.dom().contains(k) <==> latest(views, k, n + 1) is Some
            &&& summaries@.dom().contains(k) ==> summaries@[k]@ == task_summary(views, k, n + 1)
        } by {
        assert(old(summaries)@.dom().contains(k) <==> latest(views, k, n as int) is Some);
    }
}

fn list_values(summaries: &TextMap<DailyTaskSummary>, rows: &Vec<HistoryRecord>) -> (r: Vec<
    DailyTaskSummary,
>)
    requires
        sums_up(summaries@, record_views(rows@), rows@.len() as int),
    ensures
        lists_summaries(summary_views(r@), record_views(rows@)),
{
    let ghost views = record_views(rows@);
    let ghost p = summaries.pairs();
    let n: usize = summaries.len();
    let mut r: Vec<DailyTaskSummary> = Vec::new();
    let mut i: usize = 0;
    while i < n
        invariant
            i <= n == summaries.pairs().len(),
            p == summaries.pairs(),
            r@.len() == i,
            forall|j: int| 0 <= j < i ==> (#[trigger] r@[j])@ == p[j].1@,
        decreases n - i,
    {
        r.push(summaries.value(i).clone());
        i = i + 1;
    }
    proof {
        let list = summary_views(r@);
        let total = views.len() as int;
        assert forall|k: int| 0 <= k < list.len() implies {
            &&& list[k] == p[k].1@
            &&& list[k].task_id == p[k].0
            &&& latest(views, (#[trigger] list[k]).task_id, total) is Some
            &&& list[k] == task_summary(views, list[k].task_id, total)
        } by {
            assert(list[k] == r@[k]@);
            lemma_unique_key(p, k);
            assert(summaries@.dom().contains(p[k].0));
        }
        assert forall|i: int, j: int| 0 <= i < j < list.len() implies before(
            (#[trigger] list[i]).task_id,
            (#[trigger] list[j]).task_id,
        ) by {
            assert(before(p[i].0, p[j].0));
        }
        assert forall|i: int| 0 <= i < views.len() implies exists|k: int|
            0 <= k < list.len() && (#[trigger] list[k]).task_id == (
            #[trigger] views[i]).task_id by {
            let id = views[i].task_id;
            law_latest_finished_last(views, id, total, i);
            assert(summaries@.dom().contains(id));
            let k = position(p, id);
            assert(list[k].task_id == id);
        }
    }
    r
}

proof fn lemma_has_error(totals: TextMap<usize>, rows: Seq<RecordView>)
    requires
        counts(totals.pairs(), statuses(rows)),
    ensures
        totals@.dom().contains("error"@) <==> exists|i: int|
            0 <= i < rows.len() && (#[trigger] rows[i]).status == "error"@,
        totals@.dom().contains("error"@) ==> totals@["error"@] > 0,
{
    let p = totals.pairs();
    let all = statuses(rows);
    if totals@.dom().contains("error"@) {
        let k = position(p, "error"@);
        lemma_unique_key(p, k);
        lemma_occurrences(all, "error"@, all.len() as int);
        let i = choose|i: int| 0 <= i < all.len() && #[trigger] all[i] == "error"@;
        assert(rows[i].status == "error"@);
    }
    if exists|i: int| 0 <= i < rows.len() && (#[trigger] rows[i]).status == "error"@ {
        let i = choose|i: int| 0 <= i < rows.len() && (#[trigger] rows[i]).status == "error"@;
        assert(all[i] == "error"@);
        assert(has_key(p, all[i]));
    }
}

/// The report on the runs that finished on a day.
pub fn build_daily_report_output(day: &ReportDay, rows: &Vec<HistoryRecord>) -> (r:
    DailyReportRecordOutput)
    ensures
        reports(r, day@, record_views(rows@)),
{
    let ghost views = record_views(rows@);
    let mut summaries: TextMap<DailyTaskSummary> = TextMap::new();
    let mut failures: Vec<DailyFailureSummary> = Vec::new();
    let total: usize = rows.len();
    let mut i: usize = 0;
    assert(failure_views(failures@) =~= failed_runs(views, 0));
    while i < total
        invariant
            i <= total == rows@.len(),
            views == record_views(rows@),
            sums_up(summaries@, views, i as int),
            failure_views(failures@) == failed_runs(views, i as int),
        decreases total - i,
    {
        let row = &rows[i];
        assert(views[i as int] == row@);
        sum_up(&mut summaries, rows, i);
        if !same_text(&row.status, "success") {
            let ghost prior = failure_views(failures@);
            failures.push(DailyFailureSummary::from_record(row));
            assert(failure_views(failures@) =~= prior.push(failure_summary(row@)));
        }
        i = i + 1;
    }
    let row_statuses = status_texts(rows);
    let totals = count_texts(&row_statuses);
    let total_runs = sum_counts(&totals, &row_statuses);
    assert(texts(row_statuses@).len() == statuses(views).len());
    let has_error = match totals.get("error") {
        Some(count) => *count > 0,
        None => false,
    };
    proof {
        lemma_has_error(totals, views);
    }
    let failure_count: usize = failures.len();
    assert(failure_count == failed_runs(views, views.len() as int).len());
    let status = if has_error {
        "error".to_owned()
    } else if total_runs == 0 || failure_count > 0 {
        "warn".to_owned()
    } else {
        "ok".to_owned()
    };
    let date = date_text(day.date);
    let summary = if total_runs == 0 {
        concat("no task runs recorded for ", &date)
    } else if failure_count == 0 {
        let mut s = concat3(&decimal_text(total_runs as u64), " task runs recorded for ", &date);
        s.append(", all successful");
        s
    } else {
        let mut s = concat5(
            &decimal_text(total_runs as u64),
            " task runs recorded for ",
            &date,
            ", ",
            &decimal_text(failure_count as u64),
        );
        s.append(" failures");
        s
    };
    let tasks = list_values(&summaries, rows);
    DailyReportRecordOutput {
        schema_version: 1,
        status,
        summary,
        content_type: "application/json".to_owned(),
        payload: DailyReportPayload {
            date,
            timezone: day.timezone.clone(),
            window_start: day.start.clone(),
            window_end: day.end.clone(),
            totals,
            total_runs,
            tasks,
            failures,
        },
    }
}

} // verus!

//! What holds of daily reports: how long a day is, which runs count, and what they amount to.

use vstd::prelude::*;

use crate::calendar::{date_digits, local_time, zone_known, CivilDate};
use crate::history::RecordView;
use crate::report::{
    failed_runs, latest, law_latest_finished_last, lists_summaries, report_status, report_summary,
    reports, resolved_day, start_of_day, statuses, summary_views, task_count, task_failures,
    task_summary, DailyReportRecordOutput, DayView, TaskSummaryView,
};
use crate::tally::counts;
use crate::text::decimal;

verus! {

/// A day that is named by a date that can be read, a known time zone and a midnight lasts 24 hours
/// from that midnight on. Each of the three is needed.
pub proof fn law_days_last_24_hours(
    date_input: Seq<char>,
    timezone: Seq<char>,
    date: Result<CivilDate, Seq<char>>,
    fault: Option<Seq<char>>,
    start: Option<int>,
)
    ensures
        resolved_day(date_input, timezone, date, fault, start) is Ok <==> date is Ok && fault is None
            && start is Some,
        resolved_day(date_input, timezone, date, fault, start) matches Ok(Some(day)) ==> {
            &&& day.date == date->Ok_0
            &&& day.timezone == timezone
            &&& day.start == (start->0, 0int)
            &&& day.end == (start->0 + 24 * 60 * 60, 0int)
        },
        resolved_day(date_input, timezone, date, fault, start) matches Ok(None) ==> start->0 + 24
            * 60 * 60 > 8210266876799,
        date is Ok && fault is None && start is Some && start->0 + 24 * 60 * 60 <= 8210266876799
            ==> resolved_day(date_input, timezone, date, fault, start)->Ok_0 is Some,
        date matches Err(e) ==> resolved_day(
            date_input,
            timezone,
            date,
            fault,
            start,
        )->Err_0.cause == Some(e),
{
}

/// A day starts at midnight in its time zone.
pub proof fn law_days_start_at_midnight(d: CivilDate, timezone: Seq<char>)
    ensures
        zone_known(timezone) ==> start_of_day(Ok(d), timezone) == local_time(
            timezone,
            d.year as int,
            d.month as int,
            d.day as int,
            0,
            0,
            0,
        ),
        !zone_known(timezone) ==> start_of_day(Ok(d), timezone) is None,
{
}

/// The runs of a task are the rows with its id; its failures are those of them that were no success.
pub proof fn law_runs_are_counted(rows: Seq<RecordView>, id: Seq<char>, n: int)
    requires
        0 <= n <= rows.len(),
    ensures
        task_count(rows, id, n) == rows.subrange(0, n).filter(
            |r: RecordView| r.task_id == id,
        ).len(),
        task_failures(rows, id, n) == rows.subrange(0, n).filter(
            |r: RecordView| r.task_id == id && r.status != "success"@,
        ).len(),
    decreases n,
{
    reveal(Seq::filter);
    let all = rows.subrange(0, n);
    if n > 0 {
        law_runs_are_counted(rows, id, n - 1);
        assert(all.drop_last() =~= rows.subrange(0, n - 1));
        assert(all.last() == rows[n - 1]);
    } else {
        assert(all.filter(|r: RecordView| r.task_id == id) =~= Seq::empty());
        assert(all.filter(|r: RecordView| r.task_id == id && r.status != "success"@)
            =~= Seq::empty());
    }
}

/// The failed runs of a report are the rows that were no success, one for one and in their order,
/// with all that is on record of them.
pub proof fn law_failures_are_listed(rows: Seq<RecordView>, n: int)
    requires
        0 <= n <= rows.len(),
    ensures
        ({
            let failed = rows.subrange(0, n).filter(|r: RecordView| r.status != "success"@);
            &&& failed_runs(rows, n).len() == failed.len()
            &&& forall|k: int|
                0 <= k < failed.len() ==> {
                    let f = #[trigger] failed_runs(rows, n)[k];
                    &&& f.task_id == failed[k].task_id
                    &&& f.status == failed[k].status
                    &&& f.summary == failed[k].summary
                    &&& f.exit_code == failed[k].exit_code
                    &&& f.finished_at == failed[k].finished_at
                    &&& f.step_details == failed[k].step_details
                }
        }),
    decreases n,
{
    reveal(Seq::filter);
    let all = rows.subrange(0, n);
    if n > 0 {
        law_failures_are_listed(rows, n - 1);
        assert(all.drop_last() =~= rows.subrange(0, n - 1));
        assert(all.last() == rows[n - 1]);
    } else {
        assert(all.filter(|r: RecordView| r.status != "success"@) =~= Seq::empty());
    }
}

proof fn lemma_some_failure(rows: Seq<RecordView>, n: int)
    requires
        0 <= n <= rows.len(),
    ensures
        failed_runs(rows, n).len() > 0 <==> exists|i: int|
            0 <= i < n && (#[trigger] rows[i]).status != "success"@,
    decreases n,
{
    if n > 0 {
        lemma_some_failure(rows, n - 1);
        if rows[n - 1].status != "success"@ {
            assert(rows[n - 1].status != "success"@);
        }
    }
}

/// A day is in error where a run was, all right where there were runs and all of them were a
/// success, and otherwise a warning.
pub proof fn law_report_statuses(rows: Seq<RecordView>)
    ensures
        (exists|i: int| 0 <= i < rows.len() && (#[trigger] rows[i]).status == "error"@)
            ==> report_status(rows) == "error"@,
        rows.len() == 0 ==> report_status(rows) == "warn"@,
        (forall|i: int| 0 <= i < rows.len() ==> (#[trigger] rows[i]).status != "error"@) && (
        exists|i: int| 0 <= i < rows.len() && (#[trigger] rows[i]).status != "success"@)
            ==> report_status(rows) == "warn"@,
        rows.len() > 0 && (forall|i: int|
            0 <= i < rows.len() ==> (#[trigger] rows[i]).status == "success"@) ==> report_status(
            rows,
        ) == "ok"@,
{
    reveal_strlit("success");
    reveal_strlit("error");
    assert("success"@.len() == 7 && "error"@.len() == 5);
    lemma_some_failure(rows, rows.len() as int);
}

/// A report says how many runs there were on the date, and how many of them were no success.
pub proof fn law_report_summaries(rows: Seq<RecordView>, date: CivilDate)
    ensures
        ({
            let failed = rows.filter(|r: RecordView| r.status != "success"@).len();
            &&& rows.len() == 0 ==> report_summary(rows, date) == "no task runs recorded for "@
                + date_digits(date)
            &&& rows.len() > 0 && failed == 0 ==> report_summary(rows, date) == decimal(rows.len())
                + " task runs recorded for "@ + date_digits(date) + ", all successful"@
            &&& rows.len() > 0 && failed > 0 ==> report_summary(rows, date) == decimal(rows.len())
                + " task runs recorded for "@ + date_digits(date) + ", "@ + decimal(failed)
                + " failures"@
        }),
{
    law_failures_are_listed(rows, rows.len() as int);
    assert(rows.subrange(0, rows.len() as int) =~= rows);
}

/// The summary of a task counts its runs and its failures, and tells of a run of the task after
/// which no other of them finished.
pub proof fn law_task_summaries(list: Seq<TaskSummaryView>, rows: Seq<RecordView>, k: int)
    requires
        lists_summaries(list, rows),
        rows.len() <= usize::MAX,
        0 <= k < list.len(),
    ensures
        list[k].run_count == rows.filter(|r: RecordView| r.task_id == list[k].task_id).len(),
        list[k].failure_count == rows.filter(
            |r: RecordView| r.task_id == list[k].task_id && r.status != "success"@,
        ).len(),
        exists|i: int|
            {
                &&& 0 <= i < rows.len()
                &&& (#[trigger] rows[i]).task_id == list[k].task_id
                &&& rows[i].status == list[k].last_status
                &&& rows[i].summary == list[k].last_summary
                &&& rows[i].finished_at == list[k].last_finished_at
            },
        forall|i: int|
            0 <= i < rows.len() && (#[trigger] rows[i]).task_id == list[k].task_id
                ==> rows[i].finished_at.0 < list[k].last_finished_at.0 || (rows[i].finished_at.0
                == list[k].last_finished_at.0 && rows[i].finished_at.1
                <= list[k].last_finished_at.1),
{
    let id = list[k].task_id;
    let n = rows.len() as int;
    law_runs_are_counted(rows, id, n);
    assert(rows.subrange(0, n) =~= rows);
    crate::report::lemma_latest(rows, id, n);
    let p = latest(rows, id, n)->0;
    assert(list[k] == task_summary(rows, id, n));
    assert(rows[p].task_id == id);
    assert forall|i: int| 0 <= i < rows.len() && (#[trigger] rows[i]).task_id == id implies
        rows[i].finished_at.0 < list[k].last_finished_at.0 || (rows[i].finished_at.0
        == list[k].last_finished_at.0 && rows[i].finished_at.1 <= list[k].last_finished_at.1) by {
        law_latest_finished_last(rows, id, n, i);
    }
}

/// There is one summary for each task that ran, and none for any other.
pub proof fn law_each_task_is_summed_up_once(list: Seq<TaskSummaryView>, rows: Seq<RecordView>)
    requires
        lists_summaries(list, rows),
    ensures
        forall|i: int|
            0 <= i < rows.len() ==> exists|k: int|
                0 <= k < list.len() && (#[trigger] list[k]).task_id == (
                #[trigger] rows[i]).task_id,
        forall|k: int|
            0 <= k < list.len() ==> exists|i: int|
                0 <= i < rows.len() && (#[trigger] rows[i]).task_id == (
                #[trigger] list[k]).task_id,
        forall|j: int, k: int|
            0 <= j < k < list.len() ==> (#[trigger] list[j]).task_id != (
            #[trigger] list[k]).task_id,
{
    assert forall|k: int| 0 <= k < list.len() implies exists|i: int|
        0 <= i < rows.len() && (#[trigger] rows[i]).task_id == (#[trigger] list[k]).task_id by {
        let id = list[k].task_id;
        crate::report::lemma_latest(rows, id, rows.len() as int);
        assert(rows[latest(rows, id, rows.len() as int)->0].task_id == id);
    }
    assert forall|j: int, k: int| 0 <= j < k < list.len() implies (#[trigger] list[j]).task_id != (
    #[trigger] list[k]).task_id by {
        crate::order::lemma_before_irreflexive(list[j].task_id);
    }
}

/// A report is on its day and counts all its runs, by status, by task and by failure.
pub proof fn law_reports(r: DailyReportRecordOutput, day: DayView, rows: Seq<RecordView>)
    requires
        reports(r, day, rows),
    ensures
        r.schema_version == 1,
        r.status@ == report_status(rows),
        r.summary@ == report_summary(rows, day.date),
        r.content_type@ == "application/json"@,
        r.payload.date@ == date_digits(day.date),
        r.payload.timezone@ == day.timezone,
        r.payload.window_start@ == day.start,
        r.payload.window_end@ == day.end,
        r.payload.total_runs == rows.len(),
        counts(r.payload.totals.pairs(), Seq::new(rows.len(), |i: int| rows[i].status)),
        lists_summaries(Seq::new(r.payload.tasks@.len(), |i: int| r.payload.tasks@[i]@), rows),
        r.payload.failures@.len() == rows.filter(
            |row: RecordView| row.status != "success"@,
        ).len(),
{
    law_failures_are_listed(rows, rows.len() as int);
    assert(rows.subrange(0, rows.len() as int) =~= rows);
    assert(statuses(rows) =~= Seq::new(rows.len(), |i: int| rows[i].status));
    assert(summary_views(r.payload.tasks@) =~= Seq::new(
        r.payload.tasks@.len(),
        |i: int| r.payload.tasks@[i]@,
    ));
    assert(crate::report::failure_views(r.payload.failures@).len() == r.payload.failures@.len());
}

} // verus!

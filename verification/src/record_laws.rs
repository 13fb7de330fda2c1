//! What holds of what is kept of runs: the state of each task, the history, and where both stand.

use vstd::prelude::*;

use crate::calendar::rfc3339;
use crate::failure::Failure;
use crate::history::{
    between_statement, collected, failures_statement, insert_statement, record_of, row_record,
    task_statement, HistoryRecord, RowView, SqlView,
};
use crate::paths::{file_name, join, parent, same, stem_of};
use crate::runtime_paths::{runtime_dir, runtime_path};
use crate::state::{
    empty_state, recorded, runtime_of, state_read, state_read_failure, RuntimeFileView, StateRead,
};
use crate::tally::{counts, occurrences};
use crate::task_runner::{outcome_exit_code, status_word, OutcomeView, StepView};
use crate::text_map::has_key;

verus! {

// ---------------------------------------------------------------------------------------------
// State
// ---------------------------------------------------------------------------------------------
/// Of a run, its status, its summary, its two instants and its steps are kept.
pub proof fn law_state_keeps_the_last_run(o: OutcomeView)
    ensures
        runtime_of(o).last_status == o.status,
        runtime_of(o).last_summary == o.summary,
        runtime_of(o).last_started_at == o.started_at,
        runtime_of(o).last_finished_at == o.finished_at,
        runtime_of(o).last_steps == o.steps,
{
}

/// Keeping a run changes the state of its task and of no other.
pub proof fn law_recording_changes_one_task(
    state: RuntimeFileView,
    id: Seq<char>,
    o: OutcomeView,
    other: Seq<char>,
)
    ensures
        ({
            let after = recorded(state, id, o);
            &&& after.version == state.version
            &&& after.tasks.dom().contains(id)
            &&& after.tasks[id].last_status == o.status
            &&& after.tasks[id].last_summary == o.summary
            &&& after.tasks[id].last_started_at == o.started_at
            &&& after.tasks[id].last_finished_at == o.finished_at
            &&& after.tasks[id].last_steps == o.steps
            &&& other != id ==> (after.tasks.dom().contains(other)
                <==> state.tasks.dom().contains(other))
            &&& other != id && state.tasks.dom().contains(other) ==> after.tasks[other]
                == state.tasks[other]
        }),
{
}

/// A missing state file stands for a state without tasks; one that was read and parsed gives just
/// what it holds, and any other is a failure.
pub proof fn law_state_files(path: Seq<char>, read: StateRead)
    ensures
        state_read_failure(path, read) is None <==> read is Parsed || read is Missing,
        read matches StateRead::Parsed(state) ==> state_read(read) == state@,
        read is Missing ==> state_read(read).version == 1 && forall|id: Seq<char>|
            !(#[trigger] state_read(read).tasks.dom().contains(id)),
        empty_state().version == 1,
{
}

// ---------------------------------------------------------------------------------------------
// Files
// ---------------------------------------------------------------------------------------------
/// The runtime data of a configuration of the system stand with the data of the system, those of
/// any other in its own directory.
pub proof fn law_runtime_directories(config_path: Seq<char>)
    ensures
        parent(config_path) is Some && same(parent(config_path)->0, "/etc/taskd"@) ==> runtime_dir(
            config_path,
        ) == "/var/lib/taskd"@,
        parent(config_path) is Some && !same(parent(config_path)->0, "/etc/taskd"@) ==> runtime_dir(
            config_path,
        ) == parent(config_path)->0,
        parent(config_path) is None ==> runtime_dir(config_path) == seq!['.'],
{
}

/// Runtime data are named after their configuration, without its extension.
pub proof fn law_runtime_names(config_path: Seq<char>, extension: Seq<char>)
    ensures
        file_name(config_path) matches Some(name) ==> runtime_path(config_path, extension) == join(
            runtime_dir(config_path),
            stem_of(name) + "."@ + extension,
        ),
        file_name(config_path) is None ==> runtime_path(config_path, extension) == join(
            runtime_dir(config_path),
            "tasks"@ + "."@ + extension,
        ),
{
}

// ---------------------------------------------------------------------------------------------
// History
// ---------------------------------------------------------------------------------------------
/// A run goes on record with its task, the word for its status, its summary, its exit code, its two
/// instants and its steps, in that order.
pub proof fn law_runs_go_on_record(task_id: Seq<char>, o: OutcomeView, steps_json: Seq<char>)
    ensures
        ({
            let s = insert_statement(task_id, o, steps_json);
            &&& s.params.len() == 7
            &&& s.params[0] == SqlView::Text(task_id)
            &&& s.params[1] == SqlView::Text(status_word(o.status))
            &&& s.params[2] == SqlView::Text(o.summary)
            &&& i64::MIN <= outcome_exit_code(o) <= i64::MAX ==> s.params[3] is Integer
                && s.params[3]->Integer_0 == outcome_exit_code(o)
            &&& s.params[4] == SqlView::Text(rfc3339(o.started_at.0, o.started_at.1))
            &&& s.params[5] == SqlView::Text(rfc3339(o.finished_at.0, o.finished_at.1))
            &&& s.params[6] == SqlView::Text(steps_json)
            &&& s.sql
                == "
            INSERT INTO task_history (
                task_id,
                status,
                summary,
                exit_code,
                started_at,
                finished_at,
                step_details
            ) VALUES (?1, ?2, ?3, ?4, ?5, ?6, ?7)
            "@
        }),
{
}

/// The latest runs of a task are asked for by its id, newest first and no more than the limit; so
/// are the latest runs that were no success, whatever task they are of. The runs of a span are those
/// that finished from its first instant on and before its last.
pub proof fn law_runs_are_asked_for(
    task_id: Seq<char>,
    limit: usize,
    start: (int, int),
    end: (int, int),
)
    ensures
        ({
            let s = task_statement(task_id, limit);
            &&& s.params.len() == 2
            &&& s.params[0] == SqlView::Text(task_id)
            &&& limit <= i64::MAX ==> s.params[1] is Integer && s.params[1]->Integer_0 == limit
            &&& s.sql
                == "
            SELECT id, task_id, status, summary, exit_code, started_at, finished_at, step_details
            FROM task_history
            WHERE task_id = ?1
            ORDER BY finished_at DESC, id DESC
            LIMIT ?2
            "@
        }),
        ({
            let s = failures_statement(limit);
            &&& s.params.len() == 1
            &&& limit <= i64::MAX ==> s.params[0] is Integer && s.params[0]->Integer_0 == limit
            &&& s.sql
                == "
            SELECT id, task_id, status, summary, exit_code, started_at, finished_at, step_details
            FROM task_history
            WHERE status != 'success'
            ORDER BY finished_at DESC, id DESC
            LIMIT ?1
            "@
        }),
        ({
            let s = between_statement(start, end);
            &&& s.params.len() == 2
            &&& s.params[0] == SqlView::Text(rfc3339(start.0, start.1))
            &&& s.params[1] == SqlView::Text(rfc3339(end.0, end.1))
            &&& s.sql
                == "
            SELECT id, task_id, status, summary, exit_code, started_at, finished_at, step_details
            FROM task_history
            WHERE finished_at >= ?1 AND finished_at < ?2
            ORDER BY finished_at DESC, id DESC
            "@
        }),
{
}

/// What is on record of a run is what its outcome says, field by field.
pub proof fn law_records_say_what_happened(id: i64, task_id: Seq<char>, o: OutcomeView)
    ensures
        ({
            let r = record_of(id, task_id, o);
            &&& r.id == id
            &&& r.task_id == task_id
            &&& r.status == status_word(o.status)
            &&& r.summary == o.summary
            &&& i32::MIN <= outcome_exit_code(o) <= i32::MAX ==> r.exit_code == outcome_exit_code(o)
            &&& r.started_at == o.started_at
            &&& r.finished_at == o.finished_at
            &&& r.step_details == o.steps
        }),
{
}

/// A row is read exactly where its instants and its steps are, and gives each of its fields.
pub proof fn law_rows_are_read(
    row: RowView,
    started: Result<(int, int), Seq<char>>,
    finished: Result<(int, int), Seq<char>>,
    steps: Result<Seq<StepView>, Seq<char>>,
)
    ensures
        row_record(row, started, finished, steps) is Ok <==> started is Ok && finished is Ok && steps
            is Ok,
        row_record(row, started, finished, steps) matches Ok(r) ==> {
            &&& r.id == row.id
            &&& r.task_id == row.task_id
            &&& r.status == row.status
            &&& r.summary == row.summary
            &&& r.exit_code == row.exit_code
            &&& r.started_at == started->Ok_0
            &&& r.finished_at == finished->Ok_0
            &&& r.step_details == steps->Ok_0
        },
        started matches Err(e) ==> row_record(row, started, finished, steps)->Err_0.cause == Some(e)
            && row_record(row, started, finished, steps)->Err_0.message
            == "Conversion error from type Text at index: "@ + "5"@ + ", "@ + e,
        started is Ok ==> (finished matches Err(e) ==> row_record(
            row,
            started,
            finished,
            steps,
        )->Err_0.cause == Some(e)),
        started is Ok && finished is Ok ==> (steps matches Err(e) ==> row_record(
            row,
            started,
            finished,
            steps,
        )->Err_0.cause == Some(e)),
{
}

/// All rows are read, in their order, or the first that cannot be is the failure.
pub proof fn law_all_rows_are_read(rows: Seq<Result<HistoryRecord, Failure>>, n: int)
    requires
        0 <= n <= rows.len(),
    ensures
        collected(rows, n) is Ok <==> forall|i: int| 0 <= i < n ==> (#[trigger] rows[i]) is Ok,
        collected(rows, n) matches Ok(records) ==> records.len() == n && forall|i: int|
            0 <= i < n ==> #[trigger] records[i] == rows[i]->Ok_0@,
        collected(rows, n) matches Err(f) ==> exists|i: int|
            0 <= i < n && (#[trigger] rows[i]) is Err && rows[i]->Err_0@ == f && forall|k: int|
                0 <= k < i ==> (#[trigger] rows[k]) is Ok,
    decreases n,
{
    if n > 0 {
        law_all_rows_are_read(rows, n - 1);
        if collected(rows, n - 1) is Ok && rows[n - 1] is Err {
            assert(rows[n - 1]->Err_0@ == collected(rows, n)->Err_0);
        }
    }
}

// ---------------------------------------------------------------------------------------------
// Counts
// ---------------------------------------------------------------------------------------------
/// A text is counted as often as it stands in the list.
pub proof fn law_occurrences_are_counted(items: Seq<Seq<char>>, x: Seq<char>, n: int)
    requires
        0 <= n <= items.len(),
    ensures
        occurrences(items, x, n) == items.subrange(0, n).filter(|y: Seq<char>| y == x).len(),
    decreases n,
{
    reveal(Seq::filter);
    let all = items.subrange(0, n);
    if n > 0 {
        law_occurrences_are_counted(items, x, n - 1);
        assert(all.drop_last() =~= items.subrange(0, n - 1));
        assert(all.last() == items[n - 1]);
    } else {
        assert(all.filter(|y: Seq<char>| y == x) =~= Seq::empty());
    }
}

/// A table counts each text of the list once, as often as it stands there, and no other text.
pub proof fn law_tables_count(p: Seq<(Seq<char>, usize)>, items: Seq<Seq<char>>, k: int, i: int)
    requires
        counts(p, items),
    ensures
        0 <= k < p.len() ==> p[k].1 == items.filter(|y: Seq<char>| y == p[k].0).len() && p[k].1 >= 1,
        0 <= i < items.len() ==> exists|j: int| 0 <= j < p.len() && (#[trigger] p[j]).0 == items[i],
        forall|a: int, b: int|
            0 <= a < b < p.len() ==> crate::order::before((#[trigger] p[a]).0, (#[trigger] p[b]).0),
{
    if 0 <= k < p.len() {
        let x = p[k].0;
        law_occurrences_are_counted(items, x, items.len() as int);
        assert((|y: Seq<char>| y == p[k].0) =~= (|y: Seq<char>| y == x));
        assert(items.subrange(0, items.len() as int) =~= items);
    }
    if 0 <= i < items.len() {
        assert(has_key(p, items[i]));
    }
}

} // verus!

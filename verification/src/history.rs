//! The execution history: what is written to and asked of its database, and how rows are read.

use vstd::prelude::*;

use crate::calendar::{
    bad, four_digit_year, good, rfc3339, rfc3339_parse, rfc3339_read, rfc3339_text, Timestamp,
};
use crate::failure::{caused, Failure, FailureView};
use crate::paths::{directory, directory_of};
use crate::runtime_paths::{runtime_data_path_for_config, runtime_path};
use crate::task_runner::{
    copy_steps, outcome_exit_code, status_word, step_views, OutcomeView, StepView, TaskOutcome,
    TaskStepResult,
};
use crate::text::{concat, concat3, same_text, texts};

verus! {

// ---------------------------------------------------------------------------------------------
// Records
// ---------------------------------------------------------------------------------------------
/// A run that is on record.
pub struct RecordView {
    pub id: i64,
    pub task_id: Seq<char>,
    pub status: Seq<char>,
    pub summary: Seq<char>,
    pub exit_code: i32,
    pub started_at: (int, int),
    pub finished_at: (int, int),
    pub step_details: Seq<StepView>,
}

/// A run that is on record.
#[derive(Debug)]
pub struct HistoryRecord {
    pub id: i64,
    pub task_id: String,
    pub status: String,
    pub summary: String,
    pub exit_code: i32,
    pub started_at: Timestamp,
    pub finished_at: Timestamp,
    pub step_details: Vec<TaskStepResult>,
}

impl View for HistoryRecord {
    type V = RecordView;

    open spec fn view(&self) -> RecordView {
        RecordView {
            id: self.id,
            task_id: self.task_id@,
            status: self.status@,
            summary: self.summary@,
            exit_code: self.exit_code,
            started_at: self.started_at@,
            finished_at: self.finished_at@,
            step_details: step_views(self.step_details@),
        }
    }
}

impl Clone for HistoryRecord {
    fn clone(&self) -> (r: Self)
        ensures
            r@ == self@,
    {
        HistoryRecord {
            id: self.id,
            task_id: self.task_id.clone(),
            status: self.status.clone(),
            summary: self.summary.clone(),
            exit_code: self.exit_code,
            started_at: self.started_at.clone(),
            finished_at: self.finished_at.clone(),
            step_details: copy_steps(&self.step_details),
        }
    }
}

/// The views of a list of records.
pub open spec fn record_views(v: Seq<HistoryRecord>) -> Seq<RecordView> {
    Seq::new(v.len(), |i: int| v[i]@)
}

// ---------------------------------------------------------------------------------------------
// Statements
// ---------------------------------------------------------------------------------------------
/// A parameter of a statement.
pub enum SqlView {
    Text(Seq<char>),
    Integer(i64),
}

/// A parameter of a statement.
#[derive(Debug)]
pub enum SqlValue {
    Text(String),
    Integer(i64),
}

impl View for SqlValue {
    type V = SqlView;

    open spec fn view(&self) -> SqlView {
        match self {
            SqlValue::Text(text) => SqlView::Text(text@),
            SqlValue::Integer(number) => SqlView::Integer(*number),
        }
    }
}

/// The views of a list of parameters.
pub open spec fn sql_views(v: Seq<SqlValue>) -> Seq<SqlView> {
    Seq::new(v.len(), |i: int| v[i]@)
}

/// A statement with its parameters.
#[derive(Debug)]
pub struct Statement {
    pub sql: String,
    pub params: Vec<SqlValue>,
}

/// A statement with its parameters.
#[verifier::ext_equal]
pub struct StatementView {
    pub sql: Seq<char>,
    pub params: Seq<SqlView>,
}

impl View for Statement {
    type V = StatementView;

    open spec fn view(&self) -> StatementView {
        StatementView { sql: self.sql@, params: sql_views(self.params@) }
    }
}

/// Creates the table of runs and its indices where they are missing.
pub const SCHEMA_SQL: &'static str = "
            CREATE TABLE IF NOT EXISTS task_history (
                id INTEGER PRIMARY KEY AUTOINCREMENT,
                task_id TEXT NOT NULL,
                status TEXT NOT NULL,
                summary TEXT NOT NULL,
                exit_code INTEGER NOT NULL,
                started_at TEXT NOT NULL,
                finished_at TEXT NOT NULL,
                step_details TEXT NOT NULL DEFAULT '[]'
            );
            CREATE INDEX IF NOT EXISTS idx_task_history_task_id_finished_at
                ON task_history(task_id, finished_at DESC);
            CREATE INDEX IF NOT EXISTS idx_task_history_status_finished_at
                ON task_history(status, finished_at DESC);
            ";

/// Lists the columns of the table of runs.
pub const COLUMNS_SQL: &'static str = "PRAGMA table_info(task_history)";

/// Adds the column that holds the steps of a run.
pub const ADD_STEPS_SQL: &'static str =
    "ALTER TABLE task_history ADD COLUMN step_details TEXT NOT NULL DEFAULT '[]'";

/// Puts a run on record.
pub const INSERT_SQL: &'static str = "
            INSERT INTO task_history (
                task_id,
                status,
                summary,
                exit_code,
                started_at,
                finished_at,
                step_details
            ) VALUES (?1, ?2, ?3, ?4, ?5, ?6, ?7)
            ";

/// Asks for the latest runs of a task.
pub const TASK_SQL: &'static str = "
            SELECT id, task_id, status, summary, exit_code, started_at, finished_at, step_details
            FROM task_history
            WHERE task_id = ?1
            ORDER BY finished_at DESC, id DESC
            LIMIT ?2
            ";

/// Asks for the latest runs that did not succeed.
pub const FAILURES_SQL: &'static str = "
            SELECT id, task_id, status, summary, exit_code, started_at, finished_at, step_details
            FROM task_history
            WHERE status != 'success'
            ORDER BY finished_at DESC, id DESC
            LIMIT ?1
            ";

/// Asks for the runs that finished from one instant on and before another.
pub const BETWEEN_SQL: &'static str = "
            SELECT id, task_id, status, summary, exit_code, started_at, finished_at, step_details
            FROM task_history
            WHERE finished_at >= ?1 AND finished_at < ?2
            ORDER BY finished_at DESC, id DESC
            ";

/// Whether the table of runs, which has these columns, lacks the one for steps.
pub fn lacks_step_details(columns: &Vec<String>) -> (r: bool)
    ensures
        r == !texts(columns@).contains("step_details"@),
{
    let mut i: usize = 0;
    while i < columns.len()
        invariant
            i <= columns@.len(),
            forall|j: int| 0 <= j < i ==> #[trigger] texts(columns@)[j] != "step_details"@,
        decreases columns@.len() - i,
    {
        if same_text(&columns[i], "step_details") {
            assert(texts(columns@)[i as int] == "step_details"@);
            return false;
        }
        i = i + 1;
    }
    true
}

/// The statement that puts a run on record.
pub open spec fn insert_statement(
    task_id: Seq<char>,
    o: OutcomeView,
    steps_json: Seq<char>,
) -> StatementView {
    StatementView {
        sql: INSERT_SQL@,
        params: seq![
            SqlView::Text(task_id),
            SqlView::Text(status_word(o.status)),
            SqlView::Text(o.summary),
            SqlView::Integer(outcome_exit_code(o) as i64),
            SqlView::Text(rfc3339(o.started_at.0, o.started_at.1)),
            SqlView::Text(rfc3339(o.finished_at.0, o.finished_at.1)),
            SqlView::Text(steps_json),
        ],
    }
}

/// The statement that asks for the latest runs of a task.
pub open spec fn task_statement(task_id: Seq<char>, limit: usize) -> StatementView {
    StatementView {
        sql: TASK_SQL@,
        params: seq![SqlView::Text(task_id), SqlView::Integer(limit as i64)],
    }
}

/// The statement that asks for the latest runs that did not succeed.
pub open spec fn failures_statement(limit: usize) -> StatementView {
    StatementView {
        sql: FAILURES_SQL@,
        params: seq![SqlView::Integer(limit as i64)],
    }
}

/// The statement that asks for the runs that finished from one instant on and before another.
pub open spec fn between_statement(start: (int, int), end: (int, int)) -> StatementView {
    StatementView {
        sql: BETWEEN_SQL@,
        params: seq![
            SqlView::Text(rfc3339(start.0, start.1)),
            SqlView::Text(rfc3339(end.0, end.1)),
        ],
    }
}

// ---------------------------------------------------------------------------------------------
// Rows
// ---------------------------------------------------------------------------------------------
/// A row of the table of runs as it is stored.
pub struct RowView {
    pub id: i64,
    pub task_id: Seq<char>,
    pub status: Seq<char>,
    pub summary: Seq<char>,
    pub exit_code: i32,
    pub started_at: Seq<char>,
    pub finished_at: Seq<char>,
}

/// A row of the table of runs as it is stored, but for its steps.
#[derive(Debug)]
pub struct HistoryRow {
    pub id: i64,
    pub task_id: String,
    pub status: String,
    pub summary: String,
    pub exit_code: i32,
    pub started_at: String,
    pub finished_at: String,
}

impl View for HistoryRow {
    type V = RowView;

    open spec fn view(&self) -> RowView {
        RowView {
            id: self.id,
            task_id: self.task_id@,
            status: self.status@,
            summary: self.summary@,
            exit_code: self.exit_code,
            started_at: self.started_at@,
            finished_at: self.finished_at@,
        }
    }
}

/// What parsing the steps of a row gave: the steps, or an error text.
pub open spec fn steps_read(steps: Result<Vec<TaskStepResult>, String>) -> Result<
    Seq<StepView>,
    Seq<char>,
> {
    match steps {
        Ok(v) => good(step_views(v@)),
        Err(e) => bad::<Seq<StepView>>(e@),
    }
}

/// The failure of a column that holds no value of its type.
pub open spec fn column_failure(column: Seq<char>, error: Seq<char>) -> FailureView {
    caused("Conversion error from type Text at index: "@ + column + ", "@ + error, error)
}

/// The record that a row stands for, given what reading its texts gives.
pub open spec fn row_record(
    row: RowView,
    started: Result<(int, int), Seq<char>>,
    finished: Result<(int, int), Seq<char>>,
    steps: Result<Seq<StepView>, Seq<char>>,
) -> Result<RecordView, FailureView> {
    match started {
        Err(e) => Err(column_failure("5"@, e)),
        Ok(started_at) => match finished {
            Err(e) => Err(column_failure("6"@, e)),
            Ok(finished_at) => match steps {
                Err(e) => Err(column_failure("7"@, e)),
                Ok(step_details) => Ok(
                    RecordView {
                        id: row.id,
                        task_id: row.task_id,
                        status: row.status,
                        summary: row.summary,
                        exit_code: row.exit_code,
                        started_at,
                        finished_at,
                        step_details,
                    },
                ),
            },
        },
    }
}

/// A result in views.
pub open spec fn record_result(r: Result<HistoryRecord, Failure>) -> Result<
    RecordView,
    FailureView,
> {
    match r {
        Ok(record) => Ok(record@),
        Err(failure) => Err(failure@),
    }
}

/// A read instant in views.
pub open spec fn instant_result(r: Result<Timestamp, String>) -> Result<(int, int), Seq<char>> {
    match r {
        Ok(t) => good(t@),
        Err(e) => bad::<(int, int)>(e@),
    }
}

fn column_error(column: &str, error: &str) -> (r: Failure)
    ensures
        r@ == column_failure(column@, error@),
{
    let mut message = concat("Conversion error from type Text at index: ", column);
    message.append(", ");
    message.append(error);
    Failure::caused_by(message, error)
}

/// The record that a row stands for, given what reading its texts gives.
pub fn judge_row(
    row: HistoryRow,
    started: Result<Timestamp, String>,
    finished: Result<Timestamp, String>,
    steps: Result<Vec<TaskStepResult>, String>,
) -> (r: Result<HistoryRecord, Failure>)
    ensures
        record_result(r) == row_record(
            row@,
            instant_result(started),
            instant_result(finished),
            steps_read(steps),
        ),
{
    let started_at = match started {
        Ok(t) => t,
        Err(e) => {
            return Err(column_error("5", &e));
        },
    };
    let finished_at = match finished {
        Ok(t) => t,
        Err(e) => {
            return Err(column_error("6", &e));
        },
    };
    let step_details = match steps {
        Ok(v) => v,
        Err(e) => {
            return Err(column_error("7", &e));
        },
    };
    Ok(
        HistoryRecord {
            id: row.id,
            task_id: row.task_id,
            status: row.status,
            summary: row.summary,
            exit_code: row.exit_code,
            started_at,
            finished_at,
            step_details,
        },
    )
}

/// The record that a row stands for.
pub fn map_history_row(row: HistoryRow, steps: Result<Vec<TaskStepResult>, String>) -> (r: Result<
    HistoryRecord,
    Failure,
>)
    ensures
        record_result(r) == row_record(
            row@,
            rfc3339_read(row@.started_at),
            rfc3339_read(row@.finished_at),
            steps_read(steps),
        ),
{
    let started = rfc3339_parse(&row.started_at);
    let finished = rfc3339_parse(&row.finished_at);
    judge_row(row, started, finished, steps)
}

/// What a list of read rows amounts to: all records, or the first failure.
pub open spec fn collected(rows: Seq<Result<HistoryRecord, Failure>>, n: int) -> Result<
    Seq<RecordView>,
    FailureView,
>
    decreases n,
{
    if n <= 0 {
        Ok(Seq::empty())
    } else {
        match collected(rows, n - 1) {
            Err(f) => Err(f),
            Ok(records) => match rows[n - 1] {
                Ok(record) => Ok(records.push(record@)),
                Err(f) => Err(f@),
            },
        }
    }
}

proof fn lemma_collected_fails(rows: Seq<Result<HistoryRecord, Failure>>, from: int, to: int)
    requires
        0 <= from <= to,
        collected(rows, from) is Err,
    ensures
        collected(rows, to) == collected(rows, from),
    decreases to - from,
{
    if from < to {
        lemma_collected_fails(rows, from, to - 1);
    }
}

/// A list of records as a result in views.
pub open spec fn records_result(r: Result<Vec<HistoryRecord>, Failure>) -> Result<
    Seq<RecordView>,
    FailureView,
> {
    match r {
        Ok(v) => Ok(record_views(v@)),
        Err(f) => Err(f@),
    }
}

/// All records of a list of read rows, or the first failure.
pub fn collect_rows(rows: Vec<Result<HistoryRecord, Failure>>) -> (r: Result<
    Vec<HistoryRecord>,
    Failure,
>)
    ensures
        records_result(r) == collected(rows@, rows@.len() as int),
{
    let mut values: Vec<HistoryRecord> = Vec::new();
    let total: usize = rows.len();
    let mut i: usize = 0;
    assert(record_views(values@) =~= Seq::empty());
    while i < total
        invariant
            i <= total == rows@.len(),
            collected(rows@, i as int) == Ok::<Seq<RecordView>, FailureView>(
                record_views(values@),
            ),
        decreases total - i,
    {
        match &rows[i] {
            Ok(record) => {
                let ghost before = record_views(values@);
                values.push(record.clone());
                assert(record_views(values@) =~= before.push(record@));
            },
            Err(failure) => {
                proof {
                    lemma_collected_fails(rows@, i + 1, total as int);
                }
                return Err(failure.clone());
            },
        }
        i = i + 1;
    }
    Ok(values)
}

// ---------------------------------------------------------------------------------------------
// The store
// ---------------------------------------------------------------------------------------------
/// The row that a recorded run is stored in under some id.
pub open spec fn stored_row(id: i64, params: Seq<SqlView>) -> RowView {
    RowView {
        id,
        task_id: params[0]->Text_0,
        status: params[1]->Text_0,
        summary: params[2]->Text_0,
        exit_code: params[3]->Integer_0 as i32,
        started_at: params[4]->Text_0,
        finished_at: params[5]->Text_0,
    }
}

/// What is on record of a run.
pub open spec fn record_of(id: i64, task_id: Seq<char>, o: OutcomeView) -> RecordView {
    RecordView {
        id,
        task_id,
        status: status_word(o.status),
        summary: o.summary,
        exit_code: outcome_exit_code(o) as i32,
        started_at: o.started_at,
        finished_at: o.finished_at,
        step_details: o.steps,
    }
}

/// Reading the row that a statement stores gives back the run, once its steps are read back.
pub open spec fn reads_back(statement: StatementView, task_id: Seq<char>, o: OutcomeView) -> bool {
    forall|id: i64|
        row_record(
            #[trigger] stored_row(id, statement.params),
            rfc3339_read(stored_row(id, statement.params).started_at),
            rfc3339_read(stored_row(id, statement.params).finished_at),
            good(o.steps),
        ) == Ok::<RecordView, FailureView>(record_of(id, task_id, o))
}

/// The execution history of a configuration's tasks.
#[derive(Debug)]
pub struct HistoryStore {
    path: String,
}

/// The database that holds the history of a configuration's tasks.
pub fn history_path_for_config(config_path: &str) -> (r: String)
    ensures
        r@ == runtime_path(config_path@, "history.db"@),
{
    runtime_data_path_for_config(config_path, "history.db")
}

impl HistoryStore {
    /// The database file.
    pub closed spec fn file(&self) -> Seq<char> {
        self.path@
    }

    /// The history of a configuration's tasks. Its database is still to be set up.
    pub fn from_config_path(config_path: &str) -> (r: HistoryStore)
        ensures
            r.file() == runtime_path(config_path@, "history.db"@),
    {
        HistoryStore { path: history_path_for_config(config_path) }
    }

    /// The history of a configuration's tasks, for queries.
    pub fn for_read_only(config_path: &str) -> (r: HistoryStore)
        ensures
            r.file() == runtime_path(config_path@, "history.db"@),
    {
        HistoryStore { path: history_path_for_config(config_path) }
    }

    /// The database file.
    pub fn path(&self) -> (r: &str)
        ensures
            r@ == self.file(),
    {
        self.path.as_str()
    }

    /// The directory that the database needs.
    pub fn directory(&self) -> (r: String)
        ensures
            r@ == directory_of(self.file()),
    {
        directory(&self.path)
    }

    /// What sets the database up.
    pub fn init(&self) -> (r: String)
        ensures
            r@ == SCHEMA_SQL@,
    {
        SCHEMA_SQL.to_owned()
    }

    /// The statement that puts a run of a task on record. Where its instants lie in years of four
    /// digits, reading the stored row gives the run back.
    pub fn record(&self, task_id: &str, outcome: &TaskOutcome, steps_json: &str) -> (r: Statement)
        ensures
            r@ == insert_statement(task_id@, outcome@, steps_json@),
            four_digit_year(outcome@.started_at) && four_digit_year(outcome@.finished_at)
                ==> reads_back(r@, task_id@, outcome@),
    {
        let mut params: Vec<SqlValue> = Vec::new();
        let started = rfc3339_text(&outcome.started_at());
        let finished = rfc3339_text(&outcome.finished_at());
        params.push(SqlValue::Text(task_id.to_owned()));
        params.push(SqlValue::Text(outcome.status().word()));
        params.push(SqlValue::Text(outcome.summary().to_owned()));
        params.push(SqlValue::Integer(outcome.exit_code() as i64));
        params.push(SqlValue::Text(started));
        params.push(SqlValue::Text(finished));
        params.push(SqlValue::Text(steps_json.to_owned()));
        let r = Statement {
            sql: INSERT_SQL.to_owned(),
            params,
        };
        assert(r@ =~= insert_statement(task_id@, outcome@, steps_json@));
        r
    }

    /// The statement that asks for the latest runs of a task, or none where there is no database
    /// and so no run on record.
    pub fn list_task_history(&self, task_id: &str, limit: usize, present: bool) -> (r: Option<
        Statement,
    >)
        ensures
            r is Some == present,
            present ==> r->0@ == task_statement(task_id@, limit),
    {
        if !present {
            return None;
        }
        let mut params: Vec<SqlValue> = Vec::new();
        params.push(SqlValue::Text(task_id.to_owned()));
        params.push(SqlValue::Integer(limit as i64));
        let r = Statement {
            sql: TASK_SQL.to_owned(),
            params,
        };
        assert(r@ =~= task_statement(task_id@, limit));
        Some(r)
    }

    /// The statement that asks for the latest runs that did not succeed, or none where there is no
    /// database and so no run on record.
    pub fn list_recent_failures(&self, limit: usize, present: bool) -> (r: Option<Statement>)
        ensures
            r is Some == present,
            present ==> r->0@ == failures_statement(limit),
    {
        if !present {
            return None;
        }
        let mut params: Vec<SqlValue> = Vec::new();
        params.push(SqlValue::Integer(limit as i64));
        let r = Statement {
            sql: FAILURES_SQL.to_owned(),
            params,
        };
        assert(r@ =~= failures_statement(limit));
        Some(r)
    }

    /// The statement that asks for the runs that finished from one instant on and before another,
    /// or none where there is no database and so no run on record.
    pub fn list_history_between(
        &self,
        started_at: &Timestamp,
        finished_before: &Timestamp,
        present: bool,
    ) -> (r: Option<Statement>)
        ensures
            r is Some == present,
            present ==> r->0@ == between_statement(started_at@, finished_before@),
    {
        if !present {
            return None;
        }
        let mut params: Vec<SqlValue> = Vec::new();
        params.push(SqlValue::Text(rfc3339_text(started_at)));
        params.push(SqlValue::Text(rfc3339_text(finished_before)));
        let r = Statement {
            sql: BETWEEN_SQL.to_owned(),
            params,
        };
        assert(r@ =~= between_statement(started_at@, finished_before@));
        Some(r)
    }
}

/// The failures of the history database, by what was being done. The text is the error below.
#[derive(Debug)]
pub enum HistoryFault {
    Directory(String),
    Open(String),
    Timeout(String),
    Schema(String),
    Column(String),
    Insert(String),
    Steps(String),
}

/// What a fault of the history database says.
pub open spec fn fault_failure(path: Seq<char>, fault: HistoryFault) -> FailureView {
    match fault {
        HistoryFault::Directory(e) => caused(
            "failed to create history directory '"@ + directory_of(path) + "'"@,
            e@,
        ),
        HistoryFault::Open(e) => caused("failed to open history db '"@ + path + "'"@, e@),
        HistoryFault::Timeout(e) => caused("failed to configure sqlite busy timeout"@, e@),
        HistoryFault::Schema(e) => caused("failed to initialize history schema"@, e@),
        HistoryFault::Column(e) => caused(
            "failed to add step_details column to history schema"@,
            e@,
        ),
        HistoryFault::Insert(e) => caused("failed to insert history record"@, e@),
        HistoryFault::Steps(e) => caused("failed to encode step details"@, e@),
    }
}

impl HistoryStore {
    /// The failure behind a fault of the database.
    pub fn failure(&self, fault: &HistoryFault) -> (r: Failure)
        ensures
            r@ == fault_failure(self.file(), *fault),
    {
        match fault {
            HistoryFault::Directory(e) => Failure::caused_by(
                concat3("failed to create history directory '", &directory(&self.path), "'"),
                e,
            ),
            HistoryFault::Open(e) => Failure::caused_by(
                concat3("failed to open history db '", &self.path, "'"),
                e,
            ),
            HistoryFault::Timeout(e) => Failure::caused_by(
                "failed to configure sqlite busy timeout".to_owned(),
                e,
            ),
            HistoryFault::Schema(e) => Failure::caused_by(
                "failed to initialize history schema".to_owned(),
                e,
            ),
            HistoryFault::Column(e) => Failure::caused_by(
                "failed to add step_details column to history schema".to_owned(),
                e,
            ),
            HistoryFault::Insert(e) => Failure::caused_by(
                "failed to insert history record".to_owned(),
                e,
            ),
            HistoryFault::Steps(e) => Failure::caused_by(
                "failed to encode step details".to_owned(),
                e,
            ),
        }
    }
}

} // verus!

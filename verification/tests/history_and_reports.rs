use rusqlite::types::Value;
use rusqlite::Connection;

use taskd::calendar::{rfc3339_of, CivilDate, Timestamp};
use taskd::display::print_daily_report;
use taskd::history::{
    collect_rows, judge_row, lacks_step_details, map_history_row, HistoryFault, HistoryRecord,
    HistoryRow, HistoryStore, SqlValue, Statement, ADD_STEPS_SQL, COLUMNS_SQL,
};
use taskd::report::{build_daily_report_output, judge_day, report_day, DailyFailureSummary, ReportDay};
use taskd::task_runner::{TaskOutcome, TaskRunStatus, TaskStepResult};

// 2026-03-12T00:00:00Z
const DAY: i64 = 1_773_273_600;

fn at(secs: i64) -> Timestamp {
    Timestamp::new(secs, 0).expect("an instant")
}

fn values(statement: &Statement) -> Vec<Value> {
    statement
        .params
        .iter()
        .map(|param| match param {
            SqlValue::Text(text) => Value::Text(text.clone()),
            SqlValue::Integer(number) => Value::Integer(*number),
        })
        .collect()
}

fn columns(conn: &Connection) -> Vec<String> {
    let mut stmt = conn.prepare(COLUMNS_SQL).expect("prepare");
    let rows = stmt.query_map([], |row| row.get::<_, String>(1)).expect("columns");
    rows.map(|row| row.expect("column")).collect()
}

fn query(conn: &Connection, statement: &Statement) -> Vec<HistoryRecord> {
    let mut stmt = conn.prepare(&statement.sql).expect("prepare");
    let rows = stmt
        .query_map(rusqlite::params_from_iter(values(statement)), |row| {
            let steps: String = row.get(7)?;
            assert_eq!(steps, "[]");
            Ok(HistoryRow {
                id: row.get(0)?,
                task_id: row.get(1)?,
                status: row.get(2)?,
                summary: row.get(3)?,
                exit_code: row.get(4)?,
                started_at: row.get(5)?,
                finished_at: row.get(6)?,
            })
        })
        .expect("query");
    let records = rows.map(|row| map_history_row(row.expect("row"), Ok(vec![]))).collect();
    collect_rows(records).expect("rows")
}

fn record(conn: &Connection, store: &HistoryStore, id: &str, outcome: &TaskOutcome) {
    let statement = store.record(id, outcome, "[]");
    conn.execute(&statement.sql, rusqlite::params_from_iter(values(&statement))).expect("insert");
}

fn run(status: TaskRunStatus, code: i32, start: i64, end: i64) -> TaskOutcome {
    TaskOutcome::synthetic(status, format!("exit code {code}"), code, at(start), at(end))
}

#[test]
fn records_and_queries_history() {
    let dir = tempfile::tempdir().expect("tempdir");
    let config = dir.path().join("tasks.yaml").display().to_string();
    let store = HistoryStore::from_config_path(&config);
    assert_eq!(store.path(), dir.path().join("tasks.history.db").display().to_string());
    assert_eq!(store.directory(), dir.path().display().to_string());
    let conn = Connection::open(store.path()).expect("open");
    conn.execute_batch(&store.init()).expect("init");
    let outcome = TaskOutcome::synthetic(
        TaskRunStatus::Success,
        "exit code 0".to_string(),
        0,
        at(DAY),
        at(DAY),
    );

    record(&conn, &store, "job-1", &outcome);
    let statement = store.list_task_history("job-1", 10, true).expect("a query");
    let rows = query(&conn, &statement);

    assert_eq!(rows.len(), 1);
    assert_eq!(rows[0].task_id, "job-1");
    assert_eq!(rows[0].status, "success");
    assert_eq!(rows[0].summary, "exit code 0");
    assert_eq!(rows[0].exit_code, 0);
    assert_eq!(rows[0].started_at, at(DAY));
    assert_eq!(rows[0].finished_at, at(DAY));
}

#[test]
fn read_only_queries_return_empty_when_history_is_missing() {
    let store = HistoryStore::for_read_only("/tmp/none/tasks.yaml");
    assert!(store.list_task_history("job-1", 10, false).is_none());
    assert!(store.list_recent_failures(10, false).is_none());
    assert!(store.list_history_between(&at(0), &at(1), false).is_none());
}

#[test]
fn queries_select_and_order_runs() {
    let conn = Connection::open_in_memory().expect("open");
    let store = HistoryStore::for_read_only("/x/tasks.yaml");
    conn.execute_batch(&store.init()).expect("init");
    assert!(!lacks_step_details(&columns(&conn)));
    record(&conn, &store, "a", &run(TaskRunStatus::Success, 0, DAY, DAY + 10));
    record(&conn, &store, "b", &run(TaskRunStatus::Failed, 7, DAY, DAY + 30));
    record(&conn, &store, "a", &run(TaskRunStatus::TimedOut, 1, DAY, DAY + 20));
    record(&conn, &store, "a", &run(TaskRunStatus::Success, 0, DAY + 90_000, DAY + 90_001));

    let ids = |statement: Option<Statement>| -> Vec<i64> {
        query(&conn, &statement.expect("a query")).iter().map(|row| row.id).collect()
    };
    assert_eq!(ids(store.list_task_history("a", 10, true)), vec![4, 3, 1]);
    assert_eq!(ids(store.list_task_history("a", 2, true)), vec![4, 3]);
    assert_eq!(ids(store.list_recent_failures(10, true)), vec![2, 3]);
    assert_eq!(
        ids(store.list_history_between(&at(DAY), &at(DAY + 86_400), true)),
        vec![2, 3, 1]
    );
}

#[test]
fn old_tables_get_the_steps_column() {
    let conn = Connection::open_in_memory().expect("open");
    conn.execute_batch("CREATE TABLE task_history (id INTEGER PRIMARY KEY, task_id TEXT NOT NULL)")
        .expect("old table");
    assert!(lacks_step_details(&columns(&conn)));
    conn.execute(ADD_STEPS_SQL, []).expect("alter");
    assert!(!lacks_step_details(&columns(&conn)));
}

fn row(started: &str, finished: &str) -> HistoryRow {
    HistoryRow {
        id: 5,
        task_id: "job".to_string(),
        status: "failed".to_string(),
        summary: "exit code 7".to_string(),
        exit_code: 7,
        started_at: started.to_string(),
        finished_at: finished.to_string(),
    }
}

#[test]
fn rows_are_read_with_their_instants() {
    let read = map_history_row(
        row("2026-03-12T08:00:00+08:00", "2026-03-12T00:00:01.5+00:00"),
        Ok(vec![]),
    )
    .expect("a record");
    assert_eq!(read.started_at, at(DAY));
    assert_eq!(read.finished_at.secs(), DAY + 1);
    assert_eq!(read.finished_at.nanos(), 500_000_000);
}

#[test]
fn stored_instants_are_read_back() {
    for (secs, nanos) in [
        (-62_167_219_200, 0),
        (-1, 1),
        (0, 0),
        (DAY, 123_000_000),
        (DAY, 123_456_000),
        (DAY, 123_456_789),
        (253_402_300_799, 999_999_999),
    ] {
        let instant = Timestamp::new(secs, nanos).expect("an instant");
        let text = rfc3339_of(&instant);
        let read = map_history_row(row(&text, &text), Ok(vec![])).expect("readable");
        assert_eq!(read.started_at, instant);
        assert_eq!(read.finished_at, instant);
    }
}

#[test]
fn unreadable_columns_are_named() {
    let bad_start = map_history_row(row("yesterday", "2026-03-12T00:00:00Z"), Ok(vec![]))
        .expect_err("no instant");
    assert!(bad_start.message.starts_with("Conversion error from type Text at index: 5, "));
    let bad_end = map_history_row(row("2026-03-12T00:00:00Z", ""), Ok(vec![]))
        .expect_err("no instant");
    assert!(bad_end.message.starts_with("Conversion error from type Text at index: 6, "));
    let bad_steps = judge_row(
        row("", ""),
        Ok(at(1)),
        Ok(at(2)),
        Err("expected value".to_string()),
    )
    .expect_err("no steps");
    assert_eq!(
        bad_steps.message,
        "Conversion error from type Text at index: 7, expected value"
    );
    let first = collect_rows(vec![
        judge_row(row("", ""), Ok(at(1)), Ok(at(2)), Ok(vec![])),
        Err(bad_steps.clone()),
    ]);
    assert_eq!(first.expect_err("one is bad").message, bad_steps.message);
}

#[test]
fn history_faults_name_their_place() {
    let store = HistoryStore::for_read_only("/tmp/taskd/tasks.yaml");
    let text = |fault: HistoryFault| store.failure(&fault).full_text();
    let e = || "e".to_string();
    assert_eq!(
        text(HistoryFault::Directory(e())),
        "failed to create history directory '/tmp/taskd': e"
    );
    assert_eq!(
        text(HistoryFault::Open(e())),
        "failed to open history db '/tmp/taskd/tasks.history.db': e"
    );
    assert_eq!(text(HistoryFault::Timeout(e())), "failed to configure sqlite busy timeout: e");
    assert_eq!(text(HistoryFault::Schema(e())), "failed to initialize history schema: e");
    assert_eq!(
        text(HistoryFault::Column(e())),
        "failed to add step_details column to history schema: e"
    );
    assert_eq!(text(HistoryFault::Insert(e())), "failed to insert history record: e");
    assert_eq!(text(HistoryFault::Steps(e())), "failed to encode step details: e");
}

fn kept(id: i64, task: &str, status: &str, finished: i64) -> HistoryRecord {
    HistoryRecord {
        id,
        task_id: task.to_string(),
        status: status.to_string(),
        summary: format!("run {id}"),
        exit_code: if status == "success" { 0 } else { 7 },
        started_at: at(finished - 1),
        finished_at: at(finished),
        step_details: vec![],
    }
}

fn utc_day() -> ReportDay {
    report_day("2026-03-12", "UTC").expect("a day").expect("within range")
}

#[test]
fn taskctl_report_daily_emits_collector_compatible_json() {
    let rows = vec![
        kept(2, "job-fail", "failed", DAY + 7200),
        kept(1, "job-success", "success", DAY + 3600),
    ];
    let report = build_daily_report_output(&utc_day(), &rows);
    assert_eq!(report.schema_version, 1);
    assert_eq!(report.status, "warn");
    assert_eq!(report.content_type, "application/json");
    assert_eq!(report.summary, "2 task runs recorded for 2026-03-12, 1 failures");
    assert_eq!(report.payload.total_runs, 2);
    assert_eq!(report.payload.totals.get("success"), Some(&1));
    assert_eq!(report.payload.totals.get("failed"), Some(&1));
    assert_eq!(report.payload.tasks.len(), 2);
    assert_eq!(report.payload.failures.len(), 1);
}

#[test]
fn reports_add_up() {
    let rows = vec![
        kept(5, "b", "success", DAY + 50),
        kept(4, "a", "error", DAY + 40),
        kept(3, "b", "timedout", DAY + 30),
        kept(2, "a", "success", DAY + 20),
        kept(1, "a", "success", DAY + 60),
    ];
    let report = build_daily_report_output(&utc_day(), &rows);
    assert_eq!(report.status, "error");
    assert_eq!(report.payload.total_runs, 5);
    assert_eq!(report.payload.date, "2026-03-12");
    assert_eq!(report.payload.timezone, "UTC");
    assert_eq!(report.payload.window_start, at(DAY));
    assert_eq!(report.payload.window_end, at(DAY + 86_400));
    let tasks = &report.payload.tasks;
    assert_eq!(tasks[0].task_id, "a");
    assert_eq!((tasks[0].run_count, tasks[0].failure_count), (3, 1));
    assert_eq!(tasks[0].last_status, "success");
    assert_eq!(tasks[0].last_finished_at, at(DAY + 60));
    assert_eq!(tasks[1].task_id, "b");
    assert_eq!((tasks[1].run_count, tasks[1].failure_count), (2, 1));
    assert_eq!(tasks[1].last_summary, "run 5");
    let counted: usize = tasks.iter().map(|task| task.run_count as usize).sum();
    let failed: usize = tasks.iter().map(|task| task.failure_count as usize).sum();
    assert_eq!(counted, report.payload.total_runs as usize);
    assert_eq!(failed, report.payload.failures.len());
    let failures: Vec<&str> =
        report.payload.failures.iter().map(|failure| failure.status.as_str()).collect();
    assert_eq!(failures, vec!["error", "timedout"]);
    assert_eq!(DailyFailureSummary::from_record(&rows[1]).exit_code, 7);
}

#[test]
fn quiet_and_clean_days() {
    let none = build_daily_report_output(&utc_day(), &vec![]);
    assert_eq!(none.status, "warn");
    assert_eq!(none.summary, "no task runs recorded for 2026-03-12");
    let clean = build_daily_report_output(&utc_day(), &vec![kept(1, "a", "success", DAY + 1)]);
    assert_eq!(clean.status, "ok");
    assert_eq!(clean.summary, "1 task runs recorded for 2026-03-12, all successful");
    assert_eq!(
        print_daily_report(&clean),
        vec![
            "status: ok",
            "summary: 1 task runs recorded for 2026-03-12, all successful",
            "date: 2026-03-12",
            "timezone: UTC",
            "window_start: 2026-03-12T00:00:00+00:00",
            "window_end: 2026-03-13T00:00:00+00:00",
            "total_runs: 1",
            "totals: success=1",
            "tasks: 1",
            "failures: 0",
        ]
    );
    assert!(print_daily_report(&none).contains(&"totals: -".to_string()));
}

#[test]
fn days_follow_their_time_zone() {
    let shanghai = report_day("2026-03-12", "Asia/Shanghai").expect("a day").expect("in range");
    assert_eq!(shanghai.start, at(DAY - 8 * 3600));
    assert_eq!(shanghai.end, at(DAY + 16 * 3600));
    assert_eq!(
        report_day("12.03.2026", "UTC").expect_err("no date").message,
        "invalid report date '12.03.2026', expected YYYY-MM-DD"
    );
    let zone = report_day("2026-03-12", "Mars/Base").expect_err("no zone");
    assert_eq!(zone.full_text(), "invalid timezone 'Mars/Base': failed to parse timezone");
    // Midnight did not exist on this day in this zone.
    assert_eq!(
        report_day("2018-11-04", "America/Sao_Paulo").expect_err("no midnight").message,
        "failed to resolve start of day for 2018-11-04 in America/Sao_Paulo"
    );
}

#[test]
fn day_verdict_follows_its_parts() {
    let date = CivilDate { year: 2026, month: 3, day: 12 };
    let day = judge_day("2026-03-12", "UTC", &Ok(date), &None, Some(DAY)).expect("a day");
    assert_eq!(day.expect("in range").end, at(DAY + 86_400));
    assert!(judge_day("2026-03-12", "UTC", &Ok(date), &None, None).is_err());
    assert!(judge_day("x", "UTC", &Err("bad".to_string()), &None, None).is_err());
    let fault = Some("failed to parse timezone".to_string());
    assert!(judge_day("2026-03-12", "x", &Ok(date), &fault, None).is_err());
    let last = judge_day("x", "UTC", &Ok(date), &None, Some(8_210_266_876_799)).expect("a day");
    assert!(last.is_none());
}

#[test]
fn failures_keep_their_steps() {
    let step = TaskStepResult {
        step_id: "s1".to_string(),
        status: TaskRunStatus::Failed,
        summary: "exit code 1".to_string(),
        started_at: at(1),
        finished_at: at(2),
        exit_code: 1,
    };
    let mut record = kept(1, "a", "failed", DAY);
    record.step_details.push(step);
    let failure = DailyFailureSummary::from_record(&record);
    assert_eq!(failure.step_details.len(), 1);
    assert_eq!(failure.step_details[0].step_id, "s1");
    assert_eq!(record.clone().step_details.len(), 1);
}

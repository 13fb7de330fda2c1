use taskd::calendar::Timestamp;
use taskd::cli::{parse_env, Cli, Command, ConcurrencyPolicyArg, ReportCommand};
use taskd::config::{
    AppConfig, CommandConfig, ConcurrencyConfig, ConcurrencyPolicy, ConfigRead, FileWrite,
    PathKind, PathSurvey, RetryConfig, ScheduleConfig, TaskConfig,
};
use taskd::control::{
    command_exit_code, edit_config, error_line, journal_exit_code, journal_not_run, judge_journal,
    load_and_validate_config, load_valid_daemon_config, message_after_write, open_command,
    persist_last_good_config, proceed, program_exit_code, report_not_created, report_not_written,
    settle_last_good_config, task_to_forget, validate_output, CommandEnd, DaemonConfig, HistoryAsk,
    Opening, Proceed, ValidConfig,
};
use taskd::display::{
    format_concurrency_policy, format_step_results, journalctl_args, list_items, print_history,
    print_task_detail, print_tasks, TaskListItem, TaskOutcomeOutput,
};
use taskd::failure::Failure;
use taskd::history::HistoryRecord;
use taskd::state::{RuntimeStateStore, StateRead, TaskRuntimeState};
use taskd::task_runner::{ProcessExit, TaskOutcome, TaskRunStatus, TaskStepResult};
use taskd::text_map::EnvMap;

fn at(secs: i64) -> Timestamp {
    Timestamp::new(secs, 0).expect("an instant")
}

fn task(id: &str) -> TaskConfig {
    TaskConfig {
        id: id.to_string(),
        name: "health check".to_string(),
        enabled: true,
        concurrency: ConcurrencyConfig::default(),
        retry: RetryConfig::default(),
        schedule: ScheduleConfig::Interval { seconds: 60 },
        notify: None,
        command: CommandConfig {
            program: "/bin/echo".to_string(),
            args: vec!["ok".to_string()],
            workdir: None,
            timeout_seconds: None,
            env: EnvMap::new(),
        },
    }
}

fn valid_config() -> AppConfig {
    AppConfig { version: 1, notifications: None, tasks: vec![task("health-check")] }
}

fn checked(config: AppConfig) -> ValidConfig {
    ValidConfig::check(config, PathSurvey::new()).expect("valid")
}

fn id(text: &str) -> String {
    text.to_string()
}

#[test]
fn builds_journalctl_args_without_follow() {
    assert_eq!(journalctl_args(50, false), vec!["-u", "taskd", "--no-pager", "-n", "50"]);
}

#[test]
fn builds_journalctl_args_with_follow() {
    assert_eq!(journalctl_args(20, true), vec!["-u", "taskd", "--no-pager", "-n", "20", "-f"]);
}

#[test]
fn loads_primary_config_and_persists_last_good_snapshot() {
    let path = "/tmp/taskd/tasks.yaml";
    let primary =
        load_and_validate_config(path, ConfigRead::Parsed(valid_config()), PathSurvey::new());
    match load_valid_daemon_config(path, primary) {
        DaemonConfig::Primary(config) => {
            assert_eq!(*config.get(), valid_config());
            assert!(persist_last_good_config(path, &config, &FileWrite::Written).is_ok());
            let failed =
                persist_last_good_config(path, &config, &FileWrite::WriteFault("full".to_string()))
                    .expect_err("disk full");
            assert_eq!(
                failed.full_text(),
                "failed to persist last-known-good config '/tmp/taskd/tasks.last-good.yaml': \
                 failed to write config '/tmp/taskd/tasks.last-good.yaml': full"
            );
            assert_eq!(config.into_config(), valid_config());
        }
        other => panic!("unexpected source: {other:?}"),
    }
}

#[test]
fn falls_back_to_last_good_snapshot_when_primary_config_is_invalid() {
    let path = "/etc/taskd/tasks.yaml";
    let broken = load_and_validate_config(
        path,
        ConfigRead::Unparsable("missing field `enabled`".to_string()),
        PathSurvey::new(),
    );
    match load_valid_daemon_config(path, broken) {
        DaemonConfig::LastGood(snapshot) => {
            assert_eq!(snapshot, "/var/lib/taskd/tasks.last-good.yaml");
            let loaded = settle_last_good_config(path, Ok(checked(valid_config())))
                .expect("fallback config");
            assert_eq!(*loaded.get(), valid_config());
        }
        other => panic!("unexpected source: {other:?}"),
    }
}

#[test]
fn returns_error_when_primary_config_is_invalid_and_no_snapshot_exists() {
    let path = "/tmp/taskd/tasks.yaml";
    let none = load_and_validate_config(
        "/tmp/taskd/tasks.last-good.yaml",
        ConfigRead::Missing("gone".to_string()),
        PathSurvey::new(),
    );
    let message = settle_last_good_config(path, none).expect_err("should fail").full_text();
    assert!(message.contains("primary config"));
    assert!(message.contains("last-known-good config"));
    assert_eq!(
        message,
        "primary config '/tmp/taskd/tasks.yaml' is invalid and no valid last-known-good config \
         was found at '/tmp/taskd/tasks.last-good.yaml': failed to read config \
         '/tmp/taskd/tasks.last-good.yaml': gone"
    );
}

#[test]
fn broken_rules_keep_a_config_from_being_used() {
    let mut config = valid_config();
    config.tasks[0].command.timeout_seconds = Some(0);
    let refused =
        load_and_validate_config("/c", ConfigRead::Parsed(config), PathSurvey::new())
            .expect_err("breaks a rule");
    assert_eq!(refused.full_text(), "tasks[0].command.timeout_seconds must be > 0");
    let mut housed = valid_config();
    housed.tasks[0].command.workdir = Some("/w".to_string());
    let mut survey = PathSurvey::new();
    survey.insert("/w".to_string(), PathKind::Directory);
    assert!(ValidConfig::check(housed, survey).is_ok());
}

#[test]
fn env_arguments_are_split_at_the_first_equals_sign() {
    assert_eq!(parse_env("A=b=c").expect("fine"), (id("A"), id("b=c")));
    assert_eq!(parse_env("A=").expect("fine"), (id("A"), id("")));
    assert_eq!(
        parse_env("plain").expect_err("no sign").message,
        "invalid env 'plain', expected KEY=VALUE"
    );
    assert_eq!(
        parse_env("=v").expect_err("no key").message,
        "invalid env '=v', key must not be empty"
    );
}

fn add_interval(name: &str) -> Command {
    Command::AddInterval {
        id: id(name),
        name: id("health check"),
        seconds: 60,
        program: id("/bin/echo"),
        enabled: true,
        max_running: 2,
        concurrency_policy: ConcurrencyPolicyArg::Allow,
        workdir: None,
        timeout_seconds: Some(30),
        retry_max_attempts: 1,
        retry_delay_seconds: 4,
        env: vec![(id("B"), id("1")), (id("A"), id("2")), (id("B"), id("3"))],
        args: vec![id("ok")],
    }
}

#[test]
fn commands_open_what_they_need() {
    assert!(matches!(open_command(&Command::List, false), Ok(Opening::Load)));
    assert!(matches!(open_command(&Command::Validate, true), Ok(Opening::Load)));
    assert!(matches!(open_command(&add_interval("x"), false), Ok(Opening::LoadOrDefault)));
    match open_command(&Command::History { id: id("a"), limit: 5 }, false) {
        Ok(Opening::History(HistoryAsk::OfTask { id, limit })) => {
            assert_eq!((id.as_str(), limit), ("a", 5));
        }
        other => panic!("unexpected opening: {other:?}"),
    }
    assert!(matches!(
        open_command(&Command::RecentFailures { limit: 3 }, false),
        Ok(Opening::History(HistoryAsk::Failures { limit: 3 }))
    ));
    let follow = Command::Logs { lines: 9, follow: true };
    assert_eq!(
        open_command(&follow, true).expect_err("refused").message,
        "taskctl logs --json does not support --follow"
    );
    assert!(matches!(
        open_command(&follow, false),
        Ok(Opening::Logs { lines: 9, follow: true, capture: false })
    ));
    let report = Command::Report {
        command: ReportCommand::Daily {
            date: id("2026-03-12"),
            timezone: id("UTC"),
            output: Some(id("/r.json")),
        },
    };
    match open_command(&report, false) {
        Ok(Opening::DailyReport { date, timezone, output }) => {
            assert_eq!((date.as_str(), timezone.as_str()), ("2026-03-12", "UTC"));
            assert_eq!(output.as_deref(), Some("/r.json"));
        }
        other => panic!("unexpected opening: {other:?}"),
    }
}

#[test]
fn added_tasks_are_those_of_the_command_line() {
    let edited = edit_config(&add_interval("new"), valid_config()).expect("added");
    assert_eq!(edited.tasks.len(), 2);
    let added = &edited.tasks[1];
    assert_eq!(added.id, "new");
    assert!(added.enabled);
    assert_eq!(
        added.concurrency,
        ConcurrencyConfig { policy: ConcurrencyPolicy::Allow, max_running: 2 }
    );
    assert_eq!(added.retry, RetryConfig { max_attempts: 1, delay_seconds: 4 });
    assert_eq!(added.schedule, ScheduleConfig::Interval { seconds: 60 });
    assert!(added.notify.is_none());
    assert_eq!(added.command.program, "/bin/echo");
    assert_eq!(added.command.args, vec!["ok"]);
    assert_eq!(added.command.timeout_seconds, Some(30));
    assert_eq!(added.command.env.len(), 2);
    assert_eq!(added.command.env.key(0), "A");
    assert_eq!(added.command.env.get("B").map(|v| v.as_str()), Some("3"));
    assert_eq!(
        edit_config(&add_interval("health-check"), valid_config()).expect_err("taken").message,
        "task 'health-check' already exists"
    );

    let cron = Command::AddCron {
        id: id("backup-db"),
        name: id("backup database"),
        expr: id("0 0 2 * * *"),
        program: id("/bin/echo"),
        timezone: Some(id("Asia/Shanghai")),
        enabled: false,
        max_running: 1,
        concurrency_policy: ConcurrencyPolicyArg::Replace,
        workdir: Some(id("/w")),
        timeout_seconds: None,
        retry_max_attempts: 0,
        retry_delay_seconds: 1,
        env: vec![],
        args: vec![id("--full"), id("nightly")],
    };
    let with_cron = edit_config(&cron, AppConfig::default()).expect("added");
    let added = &with_cron.tasks[0];
    assert_eq!(
        added.schedule,
        ScheduleConfig::Cron { expr: id("0 0 2 * * *"), timezone: Some(id("Asia/Shanghai")) }
    );
    assert_eq!(added.concurrency.policy, ConcurrencyPolicy::Replace);
    assert!(!added.enabled);
    assert_eq!(added.command.workdir.as_deref(), Some("/w"));
    assert_eq!(added.command.args, vec!["--full", "nightly"]);
    assert!(message_after_write(&cron).is_none());
}

#[test]
fn edits_say_what_they_did() {
    let remove = Command::Remove { id: id("health-check") };
    let enable = Command::Enable { id: id("health-check") };
    let disable = Command::Disable { id: id("health-check") };
    let absent = Command::Remove { id: id("nope") };
    assert!(edit_config(&remove, valid_config()).expect("removed").tasks.is_empty());
    let off = edit_config(&disable, valid_config()).expect("disabled");
    assert!(!off.tasks[0].enabled);
    assert_eq!(edit_config(&enable, off).expect("enabled"), valid_config());
    assert_eq!(
        edit_config(&absent, valid_config()).expect_err("absent").message,
        "task 'nope' not found"
    );
    assert_eq!(edit_config(&Command::List, valid_config()).expect("same"), valid_config());
    let said = |command: &Command| message_after_write(command).expect("a message");
    assert_eq!(said(&remove).message, "removed task health-check");
    assert_eq!(said(&remove).task_id.as_deref(), Some("health-check"));
    assert!(said(&remove).ok);
    assert_eq!(said(&enable).message, "enabled task health-check");
    assert_eq!(said(&disable).message, "disabled task health-check");
    assert_eq!(task_to_forget(&remove).as_deref(), Some("health-check"));
    assert!(task_to_forget(&disable).is_none());
}

#[test]
fn checked_configs_are_shown_written_or_run() {
    let config = checked(valid_config());
    let next = |command: Command| proceed(&command, &config);
    assert!(matches!(next(Command::List), Ok(Proceed::List)));
    assert!(matches!(next(Command::Validate), Ok(Proceed::Valid)));
    assert!(matches!(next(Command::Show { id: id("health-check") }), Ok(Proceed::Show(0))));
    assert!(matches!(next(Command::RunNow { id: id("health-check") }), Ok(Proceed::Run(0))));
    assert!(matches!(next(Command::Remove { id: id("x") }), Ok(Proceed::Write)));
    assert!(matches!(next(add_interval("x")), Ok(Proceed::Write)));
    assert!(matches!(next(Command::RecentFailures { limit: 1 }), Ok(Proceed::Nothing)));
    assert_eq!(
        next(Command::RunNow { id: id("nope") }).expect_err("absent").message,
        "task 'nope' not found"
    );
    assert_eq!(
        next(Command::Show { id: id("nope") }).expect_err("absent").message,
        "task 'nope' not found"
    );
    let said = validate_output(&config);
    assert!(said.ok);
    assert_eq!(said.message, "config is valid");
    assert_eq!(said.task_count, 1);
}

#[test]
fn journals_are_judged() {
    assert_eq!(journal_exit_code(ProcessExit::Code(3)), 3);
    assert_eq!(journal_exit_code(ProcessExit::Signal(9)), 1);
    assert!(judge_journal(ProcessExit::Code(0), "noise").is_ok());
    assert!(judge_journal(ProcessExit::Code(5), "").is_ok());
    assert_eq!(
        judge_journal(ProcessExit::Code(5), " no such unit\n").expect_err("failed").message,
        "journalctl returned non-zero status: no such unit"
    );
    assert_eq!(
        journal_not_run("gone").full_text(),
        "failed to execute journalctl for taskd logs: gone"
    );
    assert_eq!(
        report_not_created("/r", "e").full_text(),
        "failed to create report output '/r': e"
    );
    assert_eq!(
        report_not_written("/r", "e").full_text(),
        "failed to write report output '/r': e"
    );
    assert_eq!(error_line(&Failure::caused_by(id("m"), "c")), "error: m: c");
    let cli = Cli { config: id("/c"), json: true, command: Command::Validate };
    assert!(cli.json && cli.config == "/c");
}

#[test]
fn commands_end_with_exit_codes() {
    let run_now = Command::RunNow { id: id("a") };
    let logs = Command::Logs { lines: 5, follow: false };
    let outcome = |code: i32| {
        let outcome =
            TaskOutcome::synthetic(TaskRunStatus::Failed, id("exit"), code, at(1), at(2));
        Ok(CommandEnd::Ran(outcome))
    };
    assert_eq!(command_exit_code(&run_now, &outcome(7)), 7);
    assert_eq!(command_exit_code(&run_now, &outcome(0)), 0);
    let journal = |exit: ProcessExit| Ok(CommandEnd::Journal(exit));
    assert_eq!(command_exit_code(&logs, &journal(ProcessExit::Code(3))), 3);
    assert_eq!(command_exit_code(&logs, &journal(ProcessExit::Signal(9))), 1);
    assert_eq!(command_exit_code(&Command::List, &Ok(CommandEnd::Done)), 0);
    for command in [run_now, logs, Command::Validate] {
        assert_eq!(command_exit_code(&command, &Err(Failure::new(id("no")))), 1);
    }
    assert_eq!(program_exit_code(&Ok(())), 0);
    assert_eq!(program_exit_code(&Err(Failure::new(id("no")))), 1);
}

// 2026-03-11T10:00:01Z
const FINISHED: i64 = 1_773_223_201;

fn ran() -> TaskOutcome {
    TaskOutcome::synthetic(
        TaskRunStatus::Success,
        id("exit code 0"),
        0,
        at(FINISHED - 1),
        at(FINISHED),
    )
}

#[test]
fn list_shows_last_run_status_from_state_file() {
    let mut store =
        RuntimeStateStore::load(id("s"), StateRead::Missing).expect("no file yet");
    store.record("health-check", &ran());
    let lines = print_tasks(&valid_config(), store.state());
    assert_eq!(lines.len(), 2);
    assert!(lines[1].contains("success"));
    assert!(lines[1].contains("2026-03-11 10:00:01"));
    assert_eq!(
        lines[0],
        format!(
            "{:<20} {:<8} {:<24} {:<14} {:<20} schedule",
            "id", "status", "name", "last_status", "last_run"
        )
    );
    assert_eq!(
        lines[1],
        format!(
            "{:<20} {:<8} {:<24} {:<14} {:<20} {}",
            "health-check",
            "enabled",
            "health check",
            "success",
            "2026-03-11 10:00:01",
            "interval(60s)"
        )
    );
    let items = list_items(&valid_config(), store.state());
    assert_eq!(items[0].id, "health-check");
    assert_eq!(items[0].concurrency_policy, "forbid");
    assert_eq!(items[0].last_status, Some(TaskRunStatus::Success));
    let unseen = TaskListItem::from_task(&task("x"), None);
    assert!(unseen.last_status.is_none() && unseen.last_finished_at.is_none());
    let fresh = RuntimeStateStore::load(id("s"), StateRead::Missing).expect("no file yet");
    assert_eq!(print_tasks(&AppConfig::default(), fresh.state()), vec!["no tasks configured"]);
}

#[test]
fn show_displays_task_details_and_runtime_state() {
    let mut shown = task("health-check");
    shown.concurrency = ConcurrencyConfig { policy: ConcurrencyPolicy::Allow, max_running: 2 };
    shown.command.timeout_seconds = Some(30);
    shown.command.env.insert(id("FOO"), id("bar"));
    shown.command.args = vec![id("a \"b\""), id("c\n")];
    let runtime = TaskRuntimeState::from_outcome(&ran());
    let lines = print_task_detail(&shown, Some(&runtime), None);
    let args = format!("command.args: {:?}", shown.command.args);
    for expected in [
        "id: health-check",
        "concurrency: allow (max_running=2)",
        "command.timeout_seconds: 30",
        "command.env: FOO=bar",
        "command.workdir: -",
        "last_status: success",
        "last_finished_at: 2026-03-11 10:00:01",
        "last_steps: -",
        "latest_history_status: -",
        args.as_str(),
    ] {
        assert!(lines.contains(&expected.to_string()), "{expected}");
    }
    assert!(print_task_detail(&shown, None, None).contains(&id("last_status: -")));
}

fn step(name: &str) -> TaskStepResult {
    TaskStepResult {
        step_id: id(name),
        status: TaskRunStatus::TimedOut,
        summary: id("slow"),
        started_at: at(1),
        finished_at: at(2),
        exit_code: 1,
    }
}

#[test]
fn history_lists_task_history() {
    assert_eq!(print_history(&vec![]), vec!["no history records"]);
    let mut record = HistoryRecord {
        id: 7,
        task_id: id("history-job"),
        status: id("success"),
        summary: id("exit code 0"),
        exit_code: 0,
        started_at: at(FINISHED),
        finished_at: at(FINISHED),
        step_details: vec![],
    };
    let line = |r: HistoryRecord| print_history(&vec![r])[1].clone();
    assert_eq!(
        line(record.clone()),
        format!(
            "{:<6} {:<20} {:<12} {:<20} {}",
            7, "history-job", "success", "2026-03-11 10:00:01", "exit code 0"
        )
    );
    record.step_details = vec![step("s1"), step("s2")];
    assert!(line(record).ends_with("exit code 0 | steps: s1=timedout (slow); s2=timedout (slow)"));
    assert_eq!(format_step_results(&vec![step("x")]), "x=timedout (slow)");
    assert_eq!(format_concurrency_policy(ConcurrencyPolicy::Replace), "replace");
    let output = TaskOutcomeOutput::from_outcome(&ran());
    assert_eq!((output.exit_code, output.summary.as_str()), (0, "exit code 0"));
    assert_eq!(ConcurrencyPolicy::from(ConcurrencyPolicyArg::Forbid), ConcurrencyPolicy::Forbid);
}

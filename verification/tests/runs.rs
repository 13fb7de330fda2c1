use taskd::calendar::Timestamp;
use taskd::config::{
    CommandConfig, ConcurrencyConfig, ConcurrencyPolicy, FileWrite, RetryConfig, ScheduleConfig,
    TaskConfig,
};
use taskd::state::{
    load_runtime_state, persist_runtime_state, RuntimeStateFile, RuntimeStateStore, StateRead,
};
use taskd::task_runner::{
    after_attempt, after_pause, begin_retries, conclude_run, guarded, outcome_from_exit_status,
    outcome_or_error, plan_launch, settle_guarded, should_retry, ProcessExit, RetryStep, RunEnd,
    TaskOutcome, TaskRunStatus,
};
use taskd::text_map::EnvMap;

fn at(secs: i64) -> Timestamp {
    Timestamp::new(secs, 0).expect("an instant")
}

fn sample_task(max_attempts: u8) -> TaskConfig {
    TaskConfig {
        id: "job".to_string(),
        name: "job".to_string(),
        enabled: true,
        concurrency: ConcurrencyConfig { policy: ConcurrencyPolicy::Forbid, max_running: 1 },
        retry: RetryConfig { max_attempts, delay_seconds: 5 },
        schedule: ScheduleConfig::Interval { seconds: 60 },
        notify: None,
        command: CommandConfig {
            program: "/bin/sh".to_string(),
            args: vec!["-c".to_string(), "exit 0".to_string()],
            workdir: Some("/work".to_string()),
            timeout_seconds: None,
            env: EnvMap::new(),
        },
    }
}

fn exited(exit: ProcessExit) -> TaskOutcome {
    outcome_from_exit_status(at(1), at(2), exit, "hello".to_string(), "warn".to_string())
}

#[test]
fn a_zero_exit_is_a_success() {
    let outcome = exited(ProcessExit::Code(0));
    assert!(outcome.success());
    assert_eq!(outcome.exit_code(), 0);
    assert_eq!(outcome.status(), TaskRunStatus::Success);
    assert_eq!(outcome.summary(), "exit code 0");
    assert_eq!(outcome.stdout().map(|s| s.as_str()), Some("hello"));
    assert_eq!(outcome.stderr().map(|s| s.as_str()), Some("warn"));
    assert_eq!(outcome.started_at(), at(1));
    assert_eq!(outcome.finished_at(), at(2));
    assert!(outcome.steps().is_empty());
    assert!(outcome_or_error(&outcome).is_ok());
}

#[test]
fn other_exits_are_failures() {
    let failed = exited(ProcessExit::Code(7));
    assert_eq!(failed.exit_code(), 7);
    assert_eq!(failed.status(), TaskRunStatus::Failed);
    assert_eq!(failed.summary(), "exit code 7");
    assert_eq!(outcome_or_error(&failed).expect_err("failed").message, "exit code 7");

    let killed = exited(ProcessExit::Signal(9));
    assert_eq!(killed.exit_code(), 137);
    assert_eq!(killed.summary(), "terminated by signal 9");
    assert_eq!(killed.status(), TaskRunStatus::Failed);

    let unknown = exited(ProcessExit::Unknown);
    assert_eq!(unknown.exit_code(), 1);
    assert_eq!(unknown.summary(), "terminated without an exit code");
    assert_eq!(exited(ProcessExit::Code(-3)).summary(), "exit code -3");
}

fn concluded(end: RunEnd) -> TaskOutcome {
    conclude_run("job", &None, &end, at(3), at(4), "out".to_string(), "err".to_string())
}

#[test]
fn every_end_of_a_run_has_its_outcome() {
    let spawn = concluded(RunEnd::SpawnFailed("No such file".to_string()));
    assert_eq!(spawn.status(), TaskRunStatus::Error);
    assert_eq!(spawn.summary(), "failed to run task 'job': No such file");
    assert_eq!(spawn.exit_code(), 1);
    assert!(spawn.stdout().is_none());

    let slow = concluded(RunEnd::TimedOut(1));
    assert_eq!(slow.status(), TaskRunStatus::TimedOut);
    assert_eq!(slow.summary(), "task 'job' timed out after 1s");
    assert_eq!(slow.exit_code(), 1);
    assert_eq!(slow.stdout().map(|s| s.as_str()), Some("out"));

    let replaced = concluded(RunEnd::Cancelled);
    assert_eq!(replaced.status(), TaskRunStatus::Cancelled);
    assert_eq!(replaced.summary(), "task 'job' cancelled by replace policy");
    assert_eq!(replaced.exit_code(), 1);

    assert_eq!(concluded(RunEnd::Exited(ProcessExit::Code(0))).summary(), "exit code 0");
    assert_eq!(concluded(RunEnd::WaitFailed).status(), TaskRunStatus::Error);

    let step = conclude_run(
        "job",
        &Some("fetch".to_string()),
        &RunEnd::TimedOut(90),
        at(3),
        at(4),
        String::new(),
        String::new(),
    );
    assert_eq!(step.summary(), "task 'job' step 'fetch' timed out after 90s");
}

#[test]
fn status_words() {
    let words: Vec<String> = [
        TaskRunStatus::Success,
        TaskRunStatus::Failed,
        TaskRunStatus::Error,
        TaskRunStatus::TimedOut,
        TaskRunStatus::Cancelled,
    ]
    .iter()
    .map(|status| status.word())
    .collect();
    assert_eq!(words, vec!["success", "failed", "error", "timedout", "cancelled"]);
}

#[test]
fn a_panic_becomes_an_error_outcome() {
    let fine = guarded("job", Ok(exited(ProcessExit::Code(0)))).expect("no panic");
    assert!(fine.success());
    let failure = guarded("job", Err("boom".to_string())).expect_err("panicked");
    assert_eq!(failure.message, "task 'job' panicked: boom");
    let settled = settle_guarded("job", Err("boom".to_string()), &at(9));
    assert_eq!(settled.status(), TaskRunStatus::Error);
    assert_eq!(settled.summary(), "task 'job' panicked: task 'job' panicked: boom");
    assert_eq!(settled.exit_code(), 1);
    assert_eq!(settled.started_at(), at(9));
    let plain = TaskOutcome::panic("job", "boom", &at(9));
    assert_eq!(plain.summary(), "task 'job' panicked: boom");
}

#[test]
fn the_environment_of_a_command_comes_on_top() {
    let mut task = sample_task(0);
    task.command.env.insert("A".to_string(), "task".to_string());
    let mut inherited = EnvMap::new();
    inherited.insert("A".to_string(), "loaded".to_string());
    inherited.insert("B".to_string(), "loaded".to_string());
    let launch = plan_launch(&task.command, &inherited);
    assert_eq!(launch.program, "/bin/sh");
    assert_eq!(launch.args, vec!["-c", "exit 0"]);
    assert_eq!(launch.workdir.as_deref(), Some("/work"));
    assert_eq!(launch.env.len(), 2);
    assert_eq!(launch.env.get("A").map(|v| v.as_str()), Some("task"));
    assert_eq!(launch.env.get("B").map(|v| v.as_str()), Some("loaded"));
}

fn drive(task: &TaskConfig, exits: &[i32]) -> (usize, TaskOutcome) {
    let mut attempts: usize = 0;
    let mut step = begin_retries();
    loop {
        step = match step {
            RetryStep::Attempt(number) => {
                let exit = exits[attempts];
                attempts += 1;
                after_attempt(task, number, exited(ProcessExit::Code(exit)))
            }
            RetryStep::Pause { after, seconds } => {
                assert_eq!(seconds, task.retry.delay_seconds);
                after_pause(task, after, false, at(5), at(6))
            }
            RetryStep::Done(outcome) => return (attempts, outcome),
        };
    }
}

#[test]
fn retries_stop_at_the_first_success() {
    let (attempts, outcome) = drive(&sample_task(1), &[7, 0]);
    assert_eq!(attempts, 2);
    assert_eq!(outcome.status(), TaskRunStatus::Success);
    assert_eq!(outcome.summary(), "exit code 0 (succeeded after 2 attempts)");

    let (once, first) = drive(&sample_task(3), &[0]);
    assert_eq!(once, 1);
    assert_eq!(first.summary(), "exit code 0");
}

#[test]
fn failures_use_up_all_attempts() {
    let (attempts, outcome) = drive(&sample_task(2), &[7, 7, 9]);
    assert_eq!(attempts, 3);
    assert_eq!(outcome.summary(), "exit code 9 (failed after 3 attempts)");
    assert_eq!(outcome.exit_code(), 9);
    let (single, _) = drive(&sample_task(0), &[7]);
    assert_eq!(single, 1);
    let all: Vec<i32> = vec![1; 256];
    let (most, last) = drive(&sample_task(255), &all);
    assert_eq!(most, 256);
    assert_eq!(last.summary(), "exit code 1 (failed after 256 attempts)");
    let failed = exited(ProcessExit::Code(7));
    assert!(should_retry(&sample_task(255), &failed, 255));
    assert!(!should_retry(&sample_task(255), &failed, 256));
}

#[test]
fn cancelled_runs_are_not_retried() {
    let task = sample_task(2);
    let cancelled = concluded(RunEnd::Cancelled);
    assert!(!should_retry(&task, &cancelled, 1));
    assert!(should_retry(&task, &exited(ProcessExit::Code(7)), 1));
    match after_pause(&task, 1, true, at(5), at(6)) {
        RetryStep::Done(outcome) => {
            assert_eq!(outcome.status(), TaskRunStatus::Cancelled);
            assert_eq!(
                outcome.summary(),
                "task 'job' cancelled by replace policy during retry backoff"
            );
        }
        other => panic!("unexpected step: {other:?}"),
    }
}

fn synthetic(status: TaskRunStatus, secs: i64) -> TaskOutcome {
    TaskOutcome::synthetic(status, "exit code 0".to_string(), 0, at(secs), at(secs))
}

#[test]
fn records_and_reads_runtime_state() {
    let mut store = RuntimeStateStore::load("tasks.state.yaml".to_string(), StateRead::Missing)
        .expect("load store");
    store.record("job-1", &synthetic(TaskRunStatus::Success, 100));
    assert_eq!(
        store.state().task("job-1").expect("recorded").last_status,
        TaskRunStatus::Success
    );
    assert_eq!(store.path(), "tasks.state.yaml");
}

#[test]
fn only_the_last_outcome_is_kept() {
    let mut store = RuntimeStateStore::from_config_path("/etc/taskd/tasks.yaml", StateRead::Missing)
        .expect("no file yet");
    assert_eq!(store.path(), "/var/lib/taskd/tasks.state.yaml");
    store.record("a", &synthetic(TaskRunStatus::Success, 100));
    store.record("b", &synthetic(TaskRunStatus::Error, 150));
    store.record("a", &synthetic(TaskRunStatus::Failed, 200));
    assert_eq!(store.state().tasks.len(), 2);
    let last = store.state().task("a").expect("recorded");
    assert_eq!(last.last_status, TaskRunStatus::Failed);
    assert_eq!(last.last_finished_at, at(200));
    store.remove_task("a");
    assert!(store.state().task("a").is_none());
    assert!(store.state().task("b").is_some());
    store.remove_task("a");
    assert_eq!(store.state().tasks.len(), 1);
}

#[test]
fn state_faults_are_told_apart() {
    let fresh = load_runtime_state("/s", StateRead::Missing).expect("default");
    assert_eq!(fresh.version, 1);
    assert_eq!(fresh.tasks.len(), 0);
    let parsed = RuntimeStateFile { version: 7, ..RuntimeStateFile::default() };
    assert_eq!(load_runtime_state("/s", StateRead::Parsed(parsed)).expect("parsed").version, 7);
    assert_eq!(
        load_runtime_state("/s", StateRead::Unreadable("e".to_string()))
            .expect_err("unreadable")
            .full_text(),
        "failed to read runtime state '/s': e"
    );
    assert_eq!(
        load_runtime_state("/s", StateRead::Unparsable("e".to_string()))
            .expect_err("unparsable")
            .full_text(),
        "failed to parse runtime state '/s': e"
    );
    assert!(persist_runtime_state("/d/s", &FileWrite::Written).is_ok());
    assert_eq!(
        persist_runtime_state("/d/s", &FileWrite::DirectoryFault("e".to_string()))
            .expect_err("failed")
            .full_text(),
        "failed to create state directory '/d': e"
    );
    assert_eq!(
        persist_runtime_state("/d/s", &FileWrite::EncodeFault("e".to_string()))
            .expect_err("failed")
            .full_text(),
        "failed to serialize runtime state: e"
    );
    assert_eq!(
        persist_runtime_state("/d/s", &FileWrite::WriteFault("e".to_string()))
            .expect_err("failed")
            .full_text(),
        "failed to write runtime state '/d/s': e"
    );
}

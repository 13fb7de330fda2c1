use taskd::config::{
    AppConfig, CommandConfig, ConcurrencyConfig, ConcurrencyPolicy, NotificationsConfig,
    NotifyResultSourceConfig, PiRendererConfig, RetryConfig, ScheduleConfig, TaskConfig,
    TaskNotifyConfig,
};
use taskd::reload::{build_reload_plan, tasks_to_register, JobRegistry};
use taskd::scheduler::{
    enabled_task_count, ensure_enabled_tasks, event_targets_config_path, force_reload_all,
    job_for_task, normalize_watch_path, schedule_task, sync_watcher_paths, take_turn,
    watched_directories, watched_paths, ConfigFileStamp, ConfigInputsStamp, Daemon, DaemonAction,
    DaemonEvent, DueAction, JobPlan, LoadedConfig, ReplaceState, TaskSlots, TurnAction,
};
use taskd::text_map::EnvMap;

fn sample_task(id: &str, enabled: bool, schedule: ScheduleConfig) -> TaskConfig {
    TaskConfig {
        id: id.to_string(),
        name: id.to_string(),
        enabled,
        concurrency: ConcurrencyConfig::default(),
        retry: RetryConfig::default(),
        schedule,
        notify: None,
        command: CommandConfig {
            program: "/bin/echo".to_string(),
            args: vec!["ok".to_string()],
            workdir: None,
            timeout_seconds: None,
            env: EnvMap::new(),
        },
    }
}

fn every(id: &str, enabled: bool, seconds: u64) -> TaskConfig {
    sample_task(id, enabled, ScheduleConfig::Interval { seconds })
}

fn shell_task(id: &str, max_running: u8) -> TaskConfig {
    TaskConfig {
        concurrency: ConcurrencyConfig {
            policy: if max_running == 1 {
                ConcurrencyPolicy::Forbid
            } else {
                ConcurrencyPolicy::Allow
            },
            max_running,
        },
        ..every(id, true, 30)
    }
}

fn app(tasks: Vec<TaskConfig>) -> AppConfig {
    AppConfig { version: 1, notifications: None, tasks }
}

fn paths(list: &[&str]) -> Vec<String> {
    list.iter().map(|p| p.to_string()).collect()
}

#[test]
fn counts_only_enabled_tasks() {
    let config = app(vec![every("job-1", true, 30), every("job-2", false, 30)]);
    assert_eq!(enabled_task_count(&config), 1);
    assert!(ensure_enabled_tasks(&config).is_ok());
}

#[test]
fn a_configuration_without_enabled_tasks_is_reported() {
    let config = app(vec![every("job-1", false, 30)]);
    assert_eq!(
        ensure_enabled_tasks(&config).expect_err("none enabled").message,
        "no enabled tasks configured"
    );
}

#[test]
fn registers_only_enabled_tasks() {
    let config = app(vec![every("job-1", true, 30), every("job-2", false, 30)]);
    let mut registry = JobRegistry::new();
    for task in tasks_to_register(&config) {
        assert!(matches!(job_for_task(&task), Ok(JobPlan::Every { seconds: 30 })));
        registry.enrol(&task.id, "a".to_string());
    }
    assert_eq!(tasks_to_register(&config).len(), 1);
    assert_eq!(registry.job("job-1").map(|id| id.as_str()), Some("a"));
    assert!(registry.job("job-2").is_none());
    assert_eq!(registry.retire("job-1").as_deref(), Some("a"));
    assert!(registry.retire("job-1").is_none());
}

#[test]
fn registers_cron_tasks() {
    let task = sample_task(
        "job-1",
        true,
        ScheduleConfig::Cron { expr: "0/30 * * * * *".to_string(), timezone: None },
    );
    let config = app(vec![task]);
    let registered = tasks_to_register(&config);
    assert_eq!(registered.len(), 1);
    match job_for_task(&registered[0]) {
        Ok(JobPlan::Cron { expr, timezone }) => {
            assert_eq!(expr, "0/30 * * * * *");
            assert!(timezone.is_none());
        }
        other => panic!("unexpected job: {other:?}"),
    }
    let zoned = sample_task(
        "job-2",
        true,
        ScheduleConfig::Cron {
            expr: "0/30 * * * * *".to_string(),
            timezone: Some("Nowhere".to_string()),
        },
    );
    assert_eq!(
        job_for_task(&zoned).expect_err("no such zone").message,
        "failed to parse timezone"
    );
}

#[test]
fn reload_plan_adds_removes_and_updates_tasks_incrementally() {
    let current = app(vec![
        every("keep", true, 30),
        every("remove", true, 30),
        every("update", true, 30),
        every("disable", true, 30),
    ]);
    let next = app(vec![
        every("keep", true, 30),
        every("update", true, 60),
        every("disable", false, 30),
        every("add", true, 15),
    ]);

    let plan = build_reload_plan(&current, &next, false);

    assert!(plan.remove.contains(&"remove".to_string()));
    assert!(plan.update.contains(&"update".to_string()));
    assert!(plan.update.contains(&"disable".to_string()));
    assert!(plan.add.iter().any(|task| task.id == "add"));
    assert!(plan.add.iter().any(|task| task.id == "update"));
    assert!(!plan.remove.contains(&"keep".to_string()));
    assert!(plan.has_changes());
    assert_eq!(plan.add.len(), 2);
    assert_eq!(plan.retired().len(), 3);
}

fn apply(registry: &mut JobRegistry, current: &AppConfig, next: &AppConfig, force: bool, job: &str) {
    let plan = build_reload_plan(current, next, force);
    for id in plan.retired() {
        registry.retire(&id);
    }
    for task in plan.add {
        registry.enrol(&task.id, job.to_string());
    }
}

#[test]
fn a_reload_leaves_exactly_the_enabled_tasks_of_the_next_configuration() {
    let current = app(vec![
        every("keep", true, 30),
        every("remove", true, 30),
        every("off", false, 30),
        every("on", false, 30),
    ]);
    let next = app(vec![
        every("keep", true, 30),
        every("on", true, 30),
        every("off", false, 30),
        every("new", true, 30),
        every("quiet", false, 30),
    ]);
    for force in [false, true] {
        let mut registry = JobRegistry::new();
        for task in tasks_to_register(&current) {
            registry.enrol(&task.id, "old".to_string());
        }
        apply(&mut registry, &current, &next, force, "new");
        for id in ["keep", "on", "new"] {
            assert!(registry.job(id).is_some(), "{id}");
        }
        for id in ["remove", "off", "quiet"] {
            assert!(registry.job(id).is_none(), "{id}");
        }
        let kept = registry.job("keep").map(|job| job.as_str());
        assert_eq!(kept, Some(if force { "new" } else { "old" }));
    }
}

#[test]
fn an_unchanged_configuration_plans_nothing() {
    let config = app(vec![every("a", true, 30), every("b", false, 30)]);
    assert!(!build_reload_plan(&config, &config, false).has_changes());
    assert!(build_reload_plan(&config, &config, true).has_changes());
}

#[test]
fn watcher_matches_only_target_config_path() {
    let changed = paths(&["/tmp/taskd/tasks.yaml", "/tmp/taskd/tasks.yaml.tmp"]);
    assert!(event_targets_config_path(&changed, &paths(&["/tmp/taskd/tasks.yaml"])));
}

#[test]
fn watcher_ignores_other_files_in_same_directory() {
    let changed = paths(&["/tmp/taskd/tasks.state.yaml", "/tmp/taskd/other.yaml"]);
    assert!(!event_targets_config_path(&changed, &paths(&["/tmp/taskd/tasks.yaml"])));
}

#[test]
fn watched_files_and_directories() {
    let watched = watched_paths(
        "/etc/taskd/tasks.yaml",
        &paths(&["/run/b.env", "/etc/taskd/a.env", "/run/b.env"]),
    );
    assert_eq!(watched, vec!["/etc/taskd/a.env", "/etc/taskd/tasks.yaml", "/run/b.env"]);
    assert_eq!(watched_directories(&watched), vec!["/etc/taskd", "/run"]);
    let change = sync_watcher_paths(&paths(&["/etc/taskd", "/old"]), &watched);
    assert_eq!(change.unwatch, vec!["/old"]);
    assert_eq!(change.watch, vec!["/run"]);
    assert_eq!(change.directories, vec!["/etc/taskd", "/run"]);
    assert_eq!(normalize_watch_path("conf/t.yaml", "/home/x"), "/home/x/conf/t.yaml");
    assert_eq!(normalize_watch_path("/conf/t.yaml", "/home/x"), "/conf/t.yaml");
}

#[test]
fn same_task_respects_max_running_limit() {
    let task = shell_task("job-1", 1);
    let mut slots = TaskSlots::new(task.concurrency.max_running);
    assert!(slots.try_acquire());
    assert!(!slots.try_acquire());
    assert_eq!(schedule_task(&task, &mut slots), DueAction::Skip);
    assert!(slots.release());
    assert!(!slots.release());
    assert_eq!(schedule_task(&task, &mut slots), DueAction::Run);
    assert_eq!(schedule_task(&task, &mut slots), DueAction::Skip);
}

#[test]
fn same_task_can_run_up_to_three_instances() {
    let task = shell_task("job-1", 3);
    let mut slots = TaskSlots::new(task.concurrency.max_running);
    assert!(slots.try_acquire());
    assert!(slots.try_acquire());
    assert!(slots.try_acquire());
    assert!(!slots.try_acquire());
}

#[test]
fn a_newer_request_replaces_an_older_one() {
    let task = TaskConfig {
        concurrency: ConcurrencyConfig { policy: ConcurrencyPolicy::Replace, max_running: 1 },
        ..every("job-1", true, 30)
    };
    let mut slots = TaskSlots::new(1);
    assert_eq!(schedule_task(&task, &mut slots), DueAction::Replace);
    let mut state: ReplaceState<&str> = ReplaceState::new();
    let (first, none) = state.register("first");
    assert!(none.is_none());
    assert!(state.is_current(first));
    let (second, cancelled) = state.register("second");
    assert_eq!(cancelled, Some("first"));
    assert!(!state.is_current(first));
    assert!(state.is_current(second));
    state.clear(first);
    let (third, still) = state.register("third");
    assert_eq!(still, Some("second"));
    state.clear(third);
    let (_, gone) = state.register("fourth");
    assert!(gone.is_none());
}

#[test]
fn requests_take_turns() {
    let mut slots = TaskSlots::new(1);
    let mut state: ReplaceState<&str> = ReplaceState::new();
    let (first, _) = state.register("first");
    assert_eq!(take_turn(&mut slots, &state, first), TurnAction::Run);
    assert!(!slots.has_free());
    let (second, cancelled) = state.register("second");
    assert_eq!(cancelled, Some("first"));
    assert_eq!(take_turn(&mut slots, &state, second), TurnAction::Wait);
    let (third, _) = state.register("third");
    state.clear(first);
    assert!(slots.release());
    assert_eq!(take_turn(&mut slots, &state, second), TurnAction::Stale);
    assert!(slots.has_free());
    assert_eq!(take_turn(&mut slots, &state, third), TurnAction::Run);
    assert_eq!(take_turn(&mut slots, &state, third), TurnAction::Wait);
}

fn renderer(workdir: &str) -> PiRendererConfig {
    PiRendererConfig {
        program: "/usr/bin/pi".to_string(),
        workdir: workdir.to_string(),
        prompt: "p".to_string(),
        timeout_seconds: None,
        session_dir: Some(workdir.to_string()),
        agent_dir: Some(workdir.to_string()),
        provider: None,
        model: None,
        env: EnvMap::new(),
    }
}

#[test]
fn spellings_of_paths_change_nothing() {
    let in_dir = |workdir: &str| {
        let mut task = every("a", true, 30);
        task.command.workdir = Some(workdir.to_string());
        task.notify = Some(TaskNotifyConfig {
            result_source: NotifyResultSourceConfig::File { path: format!("{workdir}/r.json") },
        });
        let mut config = app(vec![task]);
        config.notifications = Some(NotificationsConfig {
            enabled: true,
            renderer: Some(renderer(workdir)),
            webhook: None,
        });
        config
    };
    for other in ["/opt/app/", "/opt//app", "/opt/./app/."] {
        assert!(!build_reload_plan(&in_dir("/opt/app"), &in_dir(other), false).has_changes());
        assert!(!force_reload_all(&loaded(in_dir("/opt/app")), &loaded(in_dir(other))));
        assert_eq!(in_dir("/opt/app"), in_dir(other));
    }
    for other in ["opt/app", "/opt/app/..", "/opt"] {
        let plan = build_reload_plan(&in_dir("/opt/app"), &in_dir(other), false);
        assert_eq!(plan.update, vec!["a"]);
        assert!(force_reload_all(&loaded(in_dir("/opt/app")), &loaded(in_dir(other))));
    }
}

fn loaded(app: AppConfig) -> LoadedConfig {
    LoadedConfig { app, env_files: vec![], env: EnvMap::new(), resolved_env_files: vec![] }
}

fn stamp(len: u64) -> ConfigInputsStamp {
    ConfigInputsStamp {
        paths: paths(&["/etc/taskd/tasks.yaml"]),
        stamps: vec![Some(ConfigFileStamp { modified_secs: 5, modified_nanos: 6, len })],
    }
}

#[test]
fn the_daemon_reacts_to_its_events() {
    let mut daemon = Daemon::start(
        "/etc/taskd/tasks.yaml".to_string(),
        loaded(app(vec![every("a", true, 30)])),
        stamp(1),
        true,
    );
    assert_eq!(daemon.watched, vec!["/etc/taskd/tasks.yaml"]);
    assert_eq!(daemon.handle(&DaemonEvent::Poll), DaemonAction::Reload);
    assert_eq!(
        daemon.handle(&DaemonEvent::Changed(paths(&["/etc/taskd/tasks.yaml"]))),
        DaemonAction::SettleAndReload
    );
    assert_eq!(
        daemon.handle(&DaemonEvent::Changed(paths(&["/etc/taskd/other"]))),
        DaemonAction::Wait
    );
    assert!(daemon.watcher_active);
    assert_eq!(daemon.handle(&DaemonEvent::WatcherClosed), DaemonAction::Wait);
    assert!(!daemon.watcher_active);
    assert_eq!(daemon.handle(&DaemonEvent::Shutdown), DaemonAction::Stop);
}

#[test]
fn the_daemon_keeps_its_configuration_when_an_update_is_rejected() {
    let mut daemon = Daemon::start(
        "/etc/taskd/tasks.yaml".to_string(),
        loaded(app(vec![every("a", true, 30)])),
        stamp(1),
        true,
    );
    assert!(!daemon.needs_reload(&stamp(1)));
    assert!(daemon.needs_reload(&stamp(2)));
    daemon.reject_reload(stamp(2));
    assert!(!daemon.needs_reload(&stamp(2)));
    assert_eq!(daemon.config.app, app(vec![every("a", true, 30)]));

    let mut next = loaded(app(vec![every("b", true, 30)]));
    next.resolved_env_files = paths(&["/run/x.env"]);
    let reload = daemon.prepare_reload(&next);
    assert_eq!(reload.plan.remove, vec!["a"]);
    assert_eq!(reload.plan.add.len(), 1);
    assert_eq!(reload.watch.watch, vec!["/run"]);
    assert!(reload.watch.unwatch.is_empty());
    daemon.finish_reload(next, reload.watched, stamp(3));
    assert_eq!(daemon.watched, vec!["/etc/taskd/tasks.yaml", "/run/x.env"]);
    assert_eq!(daemon.config.app.tasks[0].id, "b");
}

#[test]
fn shared_settings_renew_every_job() {
    let a = loaded(app(vec![every("a", true, 30)]));
    let same = loaded(app(vec![every("b", true, 60)]));
    assert!(!force_reload_all(&a, &same));
    let mut notified = loaded(app(vec![every("a", true, 30)]));
    notified.app.notifications =
        Some(NotificationsConfig { enabled: false, renderer: None, webhook: None });
    assert!(force_reload_all(&a, &notified));
    let mut with_env = loaded(app(vec![]));
    with_env.env.insert("K".to_string(), "V".to_string());
    assert!(force_reload_all(&a, &with_env));
    let mut with_files = loaded(app(vec![]));
    with_files.env_files = paths(&["x.env"]);
    assert!(force_reload_all(&a, &with_files));
}

use taskd::config::{
    is_valid_task_id, judge_cron, AppConfig, CommandConfig, ConcurrencyConfig, ConcurrencyPolicy,
    ConfigRead, FileWrite, NotificationsConfig, NotifyResultSourceConfig, PathKind, PathSurvey,
    PiRendererConfig, RetryConfig, ScheduleConfig, TaskConfig, TaskNotifyConfig, WebhookConfig,
};
use taskd::failure::Failure;
use taskd::text_map::EnvMap;

fn sample_task(id: &str) -> TaskConfig {
    TaskConfig {
        id: id.to_string(),
        name: "sample".to_string(),
        enabled: true,
        concurrency: ConcurrencyConfig::default(),
        retry: RetryConfig::default(),
        schedule: ScheduleConfig::Interval { seconds: 60 },
        notify: None,
        command: CommandConfig {
            program: "/bin/echo".to_string(),
            args: vec!["ok".to_string()],
            workdir: None,
            timeout_seconds: None,
            env: EnvMap::new(),
        },
    }
}

fn one_task(task: TaskConfig) -> AppConfig {
    AppConfig { version: 1, notifications: None, tasks: vec![task] }
}

fn renderer(workdir: &str) -> PiRendererConfig {
    PiRendererConfig {
        program: "/usr/bin/pi".to_string(),
        workdir: workdir.to_string(),
        prompt: "summarize".to_string(),
        timeout_seconds: None,
        session_dir: None,
        agent_dir: None,
        provider: None,
        model: None,
        env: EnvMap::new(),
    }
}

fn webhook() -> WebhookConfig {
    WebhookConfig { url_env: "TASKD_WEBHOOK_URL".to_string() }
}

fn with_notifications(n: NotificationsConfig, task: TaskConfig) -> AppConfig {
    AppConfig { version: 1, notifications: Some(n), tasks: vec![task] }
}

fn survey(entries: &[(&str, PathKind)]) -> PathSurvey {
    let mut known = PathSurvey::new();
    for (path, kind) in entries {
        known.insert(path.to_string(), *kind);
    }
    known
}

fn refusal(config: &AppConfig, known: &PathSurvey) -> Failure {
    config.validate(known).expect_err("the configuration breaks a rule")
}

fn refusal_text(config: &AppConfig) -> String {
    refusal(config, &PathSurvey::new()).message
}

#[test]
fn parses_and_validates_config() {
    let config = AppConfig {
        version: 1,
        notifications: None,
        tasks: vec![
            TaskConfig {
                id: "backup-db".to_string(),
                name: "backup database".to_string(),
                enabled: true,
                concurrency: ConcurrencyConfig {
                    policy: ConcurrencyPolicy::default(),
                    max_running: 1,
                },
                retry: RetryConfig::default(),
                schedule: ScheduleConfig::Cron {
                    expr: "0 0 2 * * *".to_string(),
                    timezone: Some("Asia/Shanghai".to_string()),
                },
                notify: None,
                command: CommandConfig {
                    program: "/bin/echo".to_string(),
                    args: vec!["ok".to_string()],
                    workdir: None,
                    timeout_seconds: None,
                    env: EnvMap::new(),
                },
            },
            TaskConfig {
                id: "health-check".to_string(),
                name: "health check".to_string(),
                enabled: false,
                concurrency: ConcurrencyConfig {
                    policy: ConcurrencyPolicy::Allow,
                    max_running: 2,
                },
                retry: RetryConfig::default(),
                schedule: ScheduleConfig::Interval { seconds: 300 },
                notify: None,
                command: CommandConfig {
                    program: "/bin/echo".to_string(),
                    args: vec![],
                    workdir: None,
                    timeout_seconds: None,
                    env: EnvMap::new(),
                },
            },
        ],
    };

    config.validate(&PathSurvey::new()).expect("config should validate");
    assert_eq!(config.tasks.len(), 2);
}

#[test]
fn rejects_duplicate_ids() {
    let config = AppConfig {
        version: 1,
        notifications: None,
        tasks: vec![sample_task("job"), sample_task("job")],
    };
    assert!(refusal_text(&config)
        .contains("tasks[1].id duplicates task id 'job' already used by tasks[0].id"));
}

#[test]
fn rejects_invalid_interval() {
    let config = one_task(TaskConfig {
        schedule: ScheduleConfig::Interval { seconds: 0 },
        ..sample_task("job")
    });
    assert!(refusal_text(&config).contains("tasks[0].schedule.seconds must be > 0"));
}

#[test]
fn rejects_invalid_cron() {
    let config = one_task(TaskConfig {
        schedule: ScheduleConfig::Cron { expr: "not-a-cron".to_string(), timezone: None },
        ..sample_task("job")
    });
    assert!(refusal_text(&config).contains("invalid cron expression"));
}

#[test]
fn rejects_missing_workdir() {
    let config = one_task(TaskConfig {
        command: CommandConfig {
            workdir: Some("/definitely/missing".to_string()),
            ..sample_task("job").command
        },
        ..sample_task("job")
    });
    assert!(refusal_text(&config).contains("does not exist"));
}

#[test]
fn rejects_invalid_timeout() {
    let config = one_task(TaskConfig {
        command: CommandConfig { timeout_seconds: Some(0), ..sample_task("job").command },
        ..sample_task("job")
    });
    assert!(refusal_text(&config).contains("tasks[0].command.timeout_seconds must be > 0"));
}

#[test]
fn rejects_invalid_concurrency_limit() {
    let config = one_task(TaskConfig {
        concurrency: ConcurrencyConfig { policy: ConcurrencyPolicy::Allow, max_running: 4 },
        ..sample_task("job")
    });
    assert!(refusal_text(&config).contains("concurrency.max_running must be between 1 and 3"));
}

#[test]
fn rejects_retry_without_delay() {
    let config = one_task(TaskConfig {
        retry: RetryConfig { max_attempts: 2, delay_seconds: 0 },
        ..sample_task("job")
    });
    assert!(refusal_text(&config)
        .contains("tasks[0].retry.delay_seconds must be > 0 when retry.max_attempts > 0"));
}

#[test]
fn rejects_forbid_with_multiple_slots() {
    let config = one_task(TaskConfig {
        concurrency: ConcurrencyConfig { policy: ConcurrencyPolicy::Forbid, max_running: 2 },
        ..sample_task("job")
    });
    assert!(refusal_text(&config)
        .contains("concurrency.max_running must be 1 when policy is forbid"));
}

#[test]
fn rejects_replace_with_multiple_slots() {
    let config = one_task(TaskConfig {
        concurrency: ConcurrencyConfig { policy: ConcurrencyPolicy::Replace, max_running: 2 },
        ..sample_task("job")
    });
    assert!(refusal_text(&config)
        .contains("concurrency.max_running must be 1 when policy is replace"));
}

#[test]
fn load_or_default_uses_empty_config_when_missing() {
    let config = AppConfig::load_or_default(
        "missing.yaml",
        ConfigRead::Missing("No such file or directory (os error 2)".to_string()),
    )
    .expect("load default");
    assert_eq!(config, AppConfig::default());
    assert_eq!(config.version, 1);
    assert!(config.tasks.is_empty());
}

#[test]
fn accepts_existing_workdir() {
    let dir = tempfile::tempdir().expect("tempdir");
    let workdir = dir.path().join("work").display().to_string();
    let config = one_task(TaskConfig {
        command: CommandConfig { workdir: Some(workdir.clone()), ..sample_task("job").command },
        ..sample_task("job")
    });
    config
        .validate(&survey(&[(workdir.as_str(), PathKind::Directory)]))
        .expect("config should validate");
}

#[test]
fn rejects_notify_without_top_level_notifications() {
    let config = one_task(TaskConfig {
        notify: Some(TaskNotifyConfig { result_source: NotifyResultSourceConfig::Stdout }),
        ..sample_task("job")
    });
    assert!(refusal_text(&config)
        .contains("tasks[0].notify requires top-level notifications to be configured"));
}

#[test]
fn rejects_notification_renderer_without_workdir() {
    let config = with_notifications(
        NotificationsConfig {
            enabled: true,
            renderer: Some(renderer("/definitely/missing")),
            webhook: Some(webhook()),
        },
        sample_task("job"),
    );
    assert!(refusal_text(&config)
        .contains("notifications.renderer.workdir '/definitely/missing' does not exist"));
}

#[test]
fn disabled_notifications_allow_missing_renderer_and_webhook() {
    let config = with_notifications(
        NotificationsConfig { enabled: false, renderer: None, webhook: None },
        sample_task("job"),
    );
    config
        .validate(&PathSurvey::new())
        .expect("disabled notifications should validate");
}

#[test]
fn rejects_notify_when_notifications_are_disabled() {
    let config = with_notifications(
        NotificationsConfig { enabled: false, renderer: None, webhook: None },
        TaskConfig {
            notify: Some(TaskNotifyConfig { result_source: NotifyResultSourceConfig::Stdout }),
            ..sample_task("job")
        },
    );
    assert!(refusal_text(&config)
        .contains("tasks[0].notify requires top-level notifications.enabled to be true"));
}

#[test]
fn rejects_unknown_version() {
    let config = AppConfig { version: 2, notifications: None, tasks: vec![] };
    let known = PathSurvey::new();
    assert_eq!(
        refusal(&config, &known).full_text(),
        "unsupported config version 2"
    );
}

#[test]
fn rejects_odd_ids_and_blank_names() {
    assert_eq!(
        refusal_text(&one_task(sample_task("my job"))),
        "tasks[0].id must use only letters, digits, '-', '_' or '.'"
    );
    assert!(refusal_text(&one_task(sample_task(""))).starts_with("tasks[0].id must use only"));
    let blank = TaskConfig { name: " \t\u{3000}".to_string(), ..sample_task("job") };
    assert_eq!(refusal_text(&one_task(blank)), "tasks[0].name must not be empty");
    assert!(is_valid_task_id("A-z_0.9"));
    assert!(!is_valid_task_id("caf\u{e9}"));
}

#[test]
fn rejects_blank_programs_and_files_as_workdir() {
    let blank = one_task(TaskConfig {
        command: CommandConfig { program: "  ".to_string(), ..sample_task("job").command },
        ..sample_task("job")
    });
    assert_eq!(refusal_text(&blank), "tasks[0].command.program must not be empty");

    let file = one_task(TaskConfig {
        command: CommandConfig {
            workdir: Some("/etc/hosts".to_string()),
            ..sample_task("job").command
        },
        ..sample_task("job")
    });
    assert_eq!(
        refusal(&file, &survey(&[("/etc/hosts", PathKind::Other)])).message,
        "tasks[0].command.workdir '/etc/hosts' is not a directory"
    );
}

#[test]
fn rejects_unknown_timezone_and_five_field_cron() {
    let with = |expr: &str, timezone: Option<&str>| {
        one_task(TaskConfig {
            schedule: ScheduleConfig::Cron {
                expr: expr.to_string(),
                timezone: timezone.map(|zone| zone.to_string()),
            },
            ..sample_task("job")
        })
    };
    let known = PathSurvey::new();
    assert!(with("0 0 2 * * *", Some("Asia/Shanghai")).validate(&known).is_ok());
    assert!(with("0/30 * * * * *", None).validate(&known).is_ok());
    assert!(with("0 0 2 * * * 2030", None).validate(&known).is_ok());
    assert!(refusal_text(&with("0 2 * * *", None)).contains("invalid cron expression"));
    assert!(refusal_text(&with("  ", None)).contains("must not be empty"));
    let zone = refusal(&with("0 0 2 * * *", Some("Mars/Base")), &known);
    assert!(zone.message.contains("invalid timezone 'Mars/Base'"));
    assert_eq!(zone.cause.as_deref(), Some("failed to parse timezone"));
}

#[test]
fn cron_verdict_follows_the_parsers() {
    let zone = Some("UTC".to_string());
    let none: Option<String> = None;
    assert!(judge_cron("tasks[0]", "* * * * * *", &zone, &none, &none).is_ok());
    let fault = Some("bad expression".to_string());
    let err = judge_cron("tasks[3]", "x", &none, &fault, &none).expect_err("refused");
    assert_eq!(err.cause.as_deref(), Some("bad expression"));
    assert!(err.message.starts_with("tasks[3].schedule.expr"));
    let zone_fault = Some("failed to parse timezone".to_string());
    assert!(judge_cron("tasks[0]", "* * * * * *", &zone, &none, &zone_fault).is_err());
}

#[test]
fn rejects_renderer_faults_one_by_one() {
    let known = survey(&[
        ("/opt/taskd", PathKind::Directory),
        ("/opt/file", PathKind::Other),
    ]);
    let check = |change: fn(&mut PiRendererConfig)| {
        let mut r = renderer("/opt/taskd");
        change(&mut r);
        let config = with_notifications(
            NotificationsConfig { enabled: true, renderer: Some(r), webhook: Some(webhook()) },
            sample_task("job"),
        );
        match config.validate(&known) {
            Ok(()) => String::new(),
            Err(failure) => failure.message,
        }
    };
    assert_eq!(check(|_| {}), "");
    assert_eq!(
        check(|r| r.program = " ".to_string()),
        "notifications.renderer.program must not be empty"
    );
    assert_eq!(
        check(|r| r.prompt = "\n".to_string()),
        "notifications.renderer.prompt must not be empty"
    );
    assert_eq!(
        check(|r| r.timeout_seconds = Some(0)),
        "notifications.renderer.timeout_seconds must be > 0"
    );
    assert_eq!(
        check(|r| r.session_dir = Some("/opt/file".to_string())),
        "notifications.renderer.session_dir '/opt/file' is not a directory"
    );
    assert_eq!(check(|r| r.agent_dir = Some("/opt/later".to_string())), "");
    assert_eq!(
        check(|r| r.agent_dir = Some(String::new())),
        "notifications.renderer.agent_dir must not be empty"
    );
}

#[test]
fn enabled_notifications_need_renderer_and_webhook() {
    let known = survey(&[("/opt/taskd", PathKind::Directory)]);
    let verdict = |n: NotificationsConfig| {
        with_notifications(n, sample_task("job")).validate(&known).expect_err("refused").message
    };
    assert_eq!(
        verdict(NotificationsConfig { enabled: true, renderer: None, webhook: Some(webhook()) }),
        "notifications.renderer must be set when notifications.enabled is true"
    );
    assert_eq!(
        verdict(NotificationsConfig {
            enabled: true,
            renderer: Some(renderer("/opt/taskd")),
            webhook: None,
        }),
        "notifications.webhook must be set when notifications.enabled is true"
    );
    assert_eq!(
        verdict(NotificationsConfig {
            enabled: true,
            renderer: Some(renderer("/opt/taskd")),
            webhook: Some(WebhookConfig { url_env: " ".to_string() }),
        }),
        "notifications.webhook.url_env must not be empty"
    );
}

#[test]
fn rejects_empty_result_path() {
    let known = survey(&[("/opt/taskd", PathKind::Directory)]);
    let config = with_notifications(
        NotificationsConfig {
            enabled: true,
            renderer: Some(renderer("/opt/taskd")),
            webhook: Some(webhook()),
        },
        TaskConfig {
            notify: Some(TaskNotifyConfig {
                result_source: NotifyResultSourceConfig::File { path: String::new() },
            }),
            ..sample_task("job")
        },
    );
    assert_eq!(
        refusal(&config, &known).message,
        "tasks[0].notify.result_source.path must not be empty"
    );
}

#[test]
fn tasks_are_added_found_switched_and_removed() {
    let mut config = AppConfig::default();
    config.add_task(sample_task("a")).expect("new id");
    config.add_task(sample_task("b")).expect("new id");
    let before = config.clone();
    assert_eq!(
        config.add_task(sample_task("a")).expect_err("taken").message,
        "task 'a' already exists"
    );
    assert_eq!(config, before);

    config.add_task(sample_task("c")).expect("new id");
    assert_eq!(config.remove_task("c").expect("present"), "c");
    assert_eq!(config, before);

    config.set_enabled("b", false).expect("present");
    assert!(!config.task("b").expect("present").enabled);
    assert!(config.task("a").expect("present").enabled);
    config.set_enabled("b", true).expect("present");
    assert_eq!(config, before);

    assert!(config.task("z").is_none());
    assert_eq!(config.remove_task("z").expect_err("absent").message, "task 'z' not found");
    assert_eq!(
        config.set_enabled("z", true).expect_err("absent").message,
        "task 'z' not found"
    );
}

#[test]
fn loading_reports_what_went_wrong() {
    let read = |r: ConfigRead| AppConfig::load("/c.yaml", r);
    assert_eq!(
        read(ConfigRead::Parsed(AppConfig::default())).expect("parsed"),
        AppConfig::default()
    );
    assert_eq!(
        read(ConfigRead::Missing("gone".to_string())).expect_err("missing").full_text(),
        "failed to read config '/c.yaml': gone"
    );
    assert_eq!(
        read(ConfigRead::Unreadable("denied".to_string())).expect_err("unreadable").full_text(),
        "failed to read config '/c.yaml': denied"
    );
    assert_eq!(
        read(ConfigRead::Unparsable("bad".to_string())).expect_err("unparsable").full_text(),
        "failed to parse yaml '/c.yaml': bad"
    );
    assert!(AppConfig::load_or_default("/c.yaml", ConfigRead::Unparsable("bad".to_string()))
        .is_err());
}

#[test]
fn writing_reports_what_went_wrong() {
    let config = AppConfig::default();
    let write = |w: FileWrite| config.write("/etc/taskd/tasks.yaml", &w);
    assert!(write(FileWrite::Written).is_ok());
    let texts: Vec<String> = vec![
        write(FileWrite::DirectoryFault("e".to_string())).expect_err("failed").full_text(),
        write(FileWrite::EncodeFault("e".to_string())).expect_err("failed").full_text(),
        write(FileWrite::WriteFault("e".to_string())).expect_err("failed").full_text(),
    ];
    assert!(texts[0].starts_with("failed to create config directory"));
    assert!(texts[1].starts_with("failed to serialize config"));
    assert!(texts[2].starts_with("failed to write config"));
    for text in texts {
        assert!(text.ends_with(": e"));
    }
}

#[test]
fn validation_depends_on_the_listed_paths_only() {
    let config = with_notifications(
        NotificationsConfig {
            enabled: true,
            renderer: Some(PiRendererConfig {
                session_dir: Some("/s".to_string()),
                agent_dir: Some("/a".to_string()),
                ..renderer("/w")
            }),
            webhook: Some(webhook()),
        },
        TaskConfig {
            command: CommandConfig {
                workdir: Some("/t".to_string()),
                ..sample_task("job").command
            },
            ..sample_task("job")
        },
    );
    assert_eq!(config.paths_to_survey(), vec!["/w", "/s", "/a", "/t"]);
    let needed = survey(&[("/w", PathKind::Directory), ("/t", PathKind::Directory)]);
    let more = survey(&[
        ("/w", PathKind::Directory),
        ("/t", PathKind::Directory),
        ("/unrelated", PathKind::Other),
    ]);
    assert!(config.validate(&needed).is_ok());
    assert!(config.validate(&more).is_ok());
}

#[test]
fn summaries_and_defaults() {
    assert_eq!(ScheduleConfig::Interval { seconds: 300 }.summary(), "interval(300s)");
    let utc = ScheduleConfig::Cron { expr: "0 0 2 * * *".to_string(), timezone: None };
    let shanghai = ScheduleConfig::Cron {
        expr: "0 0 2 * * *".to_string(),
        timezone: Some("Asia/Shanghai".to_string()),
    };
    assert_eq!(utc.summary(), "cron(0 0 2 * * *)");
    assert_eq!(shanghai.summary(), "cron(0 0 2 * * *, tz=Asia/Shanghai)");
    assert_eq!(ConcurrencyConfig::default().policy, ConcurrencyPolicy::Forbid);
    assert_eq!(ConcurrencyConfig::default().max_running, 1);
    assert_eq!(RetryConfig::default(), RetryConfig { max_attempts: 0, delay_seconds: 1 });
    assert!(RetryConfig::default().is_disabled());
    assert!(!RetryConfig { max_attempts: 1, delay_seconds: 1 }.is_disabled());
}

#[test]
fn edits_keep_a_valid_configuration_valid() {
    let known = PathSurvey::new();
    let mut config = AppConfig {
        version: 1,
        notifications: None,
        tasks: vec![sample_task("a"), sample_task("b")],
    };
    assert!(config.validate(&known).is_ok());
    config.add_task(sample_task("c")).expect("new id");
    assert!(config.validate(&known).is_ok());
    config.set_enabled("a", false).expect("present");
    assert!(config.validate(&known).is_ok());
    config.remove_task("b").expect("present");
    assert!(config.validate(&known).is_ok());
    let odd = TaskConfig {
        schedule: ScheduleConfig::Interval { seconds: 0 },
        ..sample_task("d")
    };
    config.add_task(odd).expect("new id");
    assert!(config.validate(&known).is_err());
}

use taskd::calendar::Timestamp;
use taskd::config::{
    AppConfig, CommandConfig, ConcurrencyConfig, NotificationsConfig, NotifyResultSourceConfig,
    PathKind, PathSurvey, PiRendererConfig, RetryConfig, ScheduleConfig, TaskConfig,
    TaskNotifyConfig, WebhookConfig,
};
use taskd::notifications::{
    conclude_renderer, discord_content, judge_input_fault, judge_notification, judge_notify_field,
    judge_webhook_reply, notification_temp_dir, plan_notification, plan_renderer,
    resolve_result_file, resolve_webhook_url, result_file_failure, should_send_notification,
    start_notification, InputFault, JsonField, JsonKind, NotificationRendererInput, NotifyStart,
    RenderEnd, WebhookReply, DISCORD_CONTENT_LIMIT, DISCORD_TRUNCATED_SUFFIX,
};
use taskd::task_runner::{
    outcome_from_exit_status, ProcessExit, TaskOutcome, TaskRunStatus,
};
use taskd::text_map::EnvMap;

fn task(notify: Option<NotifyResultSourceConfig>) -> TaskConfig {
    TaskConfig {
        id: "job".to_string(),
        name: "job".to_string(),
        enabled: true,
        concurrency: ConcurrencyConfig::default(),
        retry: RetryConfig::default(),
        schedule: ScheduleConfig::Interval { seconds: 60 },
        notify: notify.map(|result_source| TaskNotifyConfig { result_source }),
        command: CommandConfig {
            program: "/bin/echo".to_string(),
            args: vec!["ok".to_string()],
            workdir: None,
            timeout_seconds: None,
            env: EnvMap::new(),
        },
    }
}

fn file_task(path: &str) -> TaskConfig {
    task(Some(NotifyResultSourceConfig::File { path: path.to_string() }))
}

fn renderer() -> PiRendererConfig {
    PiRendererConfig {
        program: "/opt/renderer.sh".to_string(),
        workdir: "/opt".to_string(),
        prompt: "summarize".to_string(),
        timeout_seconds: None,
        session_dir: None,
        agent_dir: None,
        provider: None,
        model: None,
        env: EnvMap::new(),
    }
}

fn notifications(url_env: &str) -> NotificationsConfig {
    NotificationsConfig {
        enabled: true,
        renderer: Some(renderer()),
        webhook: Some(WebhookConfig { url_env: url_env.to_string() }),
    }
}

fn bare() -> NotificationsConfig {
    NotificationsConfig { enabled: true, renderer: None, webhook: None }
}

fn at(secs: i64) -> Timestamp {
    Timestamp::new(secs, 0).expect("an instant")
}

fn outcome() -> TaskOutcome {
    TaskOutcome::synthetic(TaskRunStatus::Success, "exit code 0".to_string(), 0, at(1), at(2))
}

#[test]
fn discord_content_keeps_short_body() {
    let body = "short body";
    assert_eq!(discord_content(body), body);
}

#[test]
fn discord_content_truncates_long_body() {
    let body = "a".repeat(2500);
    let content = discord_content(&body);

    assert_eq!(content.chars().count(), DISCORD_CONTENT_LIMIT);
    assert!(content.ends_with(DISCORD_TRUNCATED_SUFFIX));
}

#[test]
fn messages_are_counted_in_characters() {
    let exact = "\u{4e2d}".repeat(2000);
    assert_eq!(discord_content(&exact), exact);
    let over = "\u{4e2d}".repeat(2001);
    let cut = discord_content(&over);
    assert_eq!(cut.chars().count(), 2000);
    assert_eq!(cut, format!("{}\n\n[truncated]", "\u{4e2d}".repeat(2000 - 13)));
}

#[test]
fn notification_runs_renderer_and_then_requires_webhook_env() {
    let task = file_task("/tmp/result.txt");
    let settings = notifications("MISSING_TASKD_WEBHOOK_URL");
    match start_notification(&Some(settings.clone()), &task, &outcome()) {
        Ok(NotifyStart::ReadFile(path)) => assert_eq!(path, "/tmp/result.txt"),
        other => panic!("unexpected start: {other:?}"),
    }
    let plan = plan_notification(&settings, &task, "raw result").expect("due").expect("wanted");
    let body = conclude_renderer(
        &plan.renderer,
        &RenderEnd::Finished {
            success: true,
            status: "exit status: 0".to_string(),
            stdout: "rendered summary".to_string(),
            stderr: String::new(),
        },
    )
    .expect("rendered");
    assert_eq!(body, "rendered summary");
    let error = resolve_webhook_url(&plan.url_env, &EnvMap::new(), &None)
        .expect_err("missing webhook env should fail");
    assert!(error.message.contains("webhook env"));
    assert_eq!(error.message, "webhook env 'MISSING_TASKD_WEBHOOK_URL' is not set");
}

#[test]
fn notification_skips_send_when_result_schema_sets_notify_false() {
    let plan = plan_notification(
        &bare(),
        &file_task("/tmp/result.json"),
        r#"{"notify":false,"summary":"routine success"}"#,
    )
    .expect("notify=false should skip sending");
    assert!(plan.is_none());
}

#[test]
fn notification_rejects_non_boolean_notify_field() {
    let error = plan_notification(&bare(), &file_task("/tmp/result.json"), r#"{"notify":"no"}"#)
        .expect_err("non-boolean notify should fail");
    assert!(error.message.contains("field 'notify' must be a boolean"));
}

#[test]
fn notification_uses_loaded_env_before_process_env() {
    let mut inherited = EnvMap::new();
    inherited.insert("TASKD_WEBHOOK_URL".to_string(), "http://127.0.0.1:1/webhook".to_string());
    let process = Some("http://elsewhere".to_string());
    assert_eq!(
        resolve_webhook_url("TASKD_WEBHOOK_URL", &inherited, &process)
            .expect("notification should use loaded env"),
        "http://127.0.0.1:1/webhook"
    );
    assert_eq!(
        resolve_webhook_url("TASKD_WEBHOOK_URL", &EnvMap::new(), &process).expect("process env"),
        "http://elsewhere"
    );
}

#[test]
fn results_say_whether_they_are_sent() {
    let sends = |text: &str| should_send_notification(text);
    assert_eq!(sends("").ok(), Some(true));
    assert_eq!(sends("  \n").ok(), Some(true));
    assert_eq!(sends("plain text").ok(), Some(true));
    assert_eq!(sends("[false]").ok(), Some(true));
    assert_eq!(sends("{}").ok(), Some(true));
    assert_eq!(sends(r#"{"notify":true}"#).ok(), Some(true));
    assert_eq!(sends(" {\"notify\":false}\n").ok(), Some(false));
    assert!(sends(r#"{"notify":null}"#).is_err());
    assert!(sends(r#"{"notify":1}"#).is_err());
    assert_eq!(sends(r#"{"inner":{"notify":false}}"#).ok(), Some(true));
    assert_eq!(judge_notify_field(JsonField::Present(JsonKind::Bool(false))).ok(), Some(false));
    assert!(judge_notify_field(JsonField::Present(JsonKind::Array)).is_err());
    assert_eq!(judge_notify_field(JsonField::Invalid).ok(), Some(true));
    assert_eq!(judge_notify_field(JsonField::NoObject).ok(), Some(true));
    assert_eq!(judge_notify_field(JsonField::Absent).ok(), Some(true));
}

#[test]
fn notifications_have_to_be_asked_for() {
    let on = Some(notifications("URL"));
    let off = Some(NotificationsConfig { enabled: false, renderer: None, webhook: None });
    assert!(matches!(start_notification(&on, &task(None), &outcome()), Ok(NotifyStart::Nothing)));
    let asking = task(Some(NotifyResultSourceConfig::Stdout));
    assert!(matches!(start_notification(&off, &asking, &outcome()), Ok(NotifyStart::Nothing)));
    assert_eq!(
        start_notification(&None, &asking, &outcome()).expect_err("not configured").message,
        "task 'job' requested notify but notifications are not configured"
    );
    match start_notification(&on, &asking, &outcome()) {
        Ok(NotifyStart::Result(text)) => assert_eq!(text, ""),
        other => panic!("unexpected start: {other:?}"),
    }
    let ran = outcome_from_exit_status(
        at(1),
        at(2),
        ProcessExit::Code(0),
        "printed".to_string(),
        String::new(),
    );
    match start_notification(&on, &asking, &ran) {
        Ok(NotifyStart::Result(text)) => assert_eq!(text, "printed"),
        other => panic!("unexpected start: {other:?}"),
    }
}

#[test]
fn wanted_notifications_need_renderer_and_webhook() {
    let asking = task(Some(NotifyResultSourceConfig::Stdout));
    let no_webhook =
        NotificationsConfig { enabled: true, renderer: Some(renderer()), webhook: None };
    assert_eq!(
        judge_notification(&bare(), &asking, Ok(true)).expect_err("no renderer").message,
        "task 'job' requested notify but notifications.renderer is not configured"
    );
    assert_eq!(
        judge_notification(&no_webhook, &asking, Ok(true)).expect_err("no webhook").message,
        "task 'job' requested notify but notifications.webhook is not configured"
    );
    assert!(judge_notification(&bare(), &asking, Ok(false)).expect("declined").is_none());
    let plan = judge_notification(&notifications("URL"), &asking, Ok(true))
        .expect("configured")
        .expect("wanted");
    assert_eq!(plan.url_env, "URL");
    assert_eq!(plan.renderer, renderer());
}

#[test]
fn result_files_are_seen_from_the_working_directory() {
    let mut relative = file_task("out/report.txt");
    assert_eq!(resolve_result_file(&relative, "out/report.txt"), "out/report.txt");
    relative.command.workdir = Some("/opt/app".to_string());
    assert_eq!(resolve_result_file(&relative, "out/report.txt"), "/opt/app/out/report.txt");
    assert_eq!(resolve_result_file(&relative, "/abs.txt"), "/abs.txt");
    assert_eq!(
        result_file_failure(&relative, "/abs.txt", "gone").full_text(),
        "failed to read notify result file for task 'job' from '/abs.txt': gone"
    );
}

#[test]
fn the_renderer_is_called_with_input_and_prompt() {
    let mut r = renderer();
    r.session_dir = Some("/s".to_string());
    r.provider = Some("google".to_string());
    r.model = Some("m".to_string());
    r.env.insert("KEY".to_string(), "renderer".to_string());
    let mut inherited = EnvMap::new();
    inherited.insert("KEY".to_string(), "loaded".to_string());
    inherited.insert("OTHER".to_string(), "loaded".to_string());
    let launch = plan_renderer(&r, &task(None), "/tmp/in.json", &inherited);
    assert_eq!(launch.program, "/opt/renderer.sh");
    assert_eq!(launch.workdir.as_deref(), Some("/opt"));
    assert_eq!(
        launch.args,
        vec![
            "--print",
            "--no-session",
            "--session-dir",
            "/s",
            "--provider",
            "google",
            "--model",
            "m",
            "@/tmp/in.json",
            "summarize",
        ]
    );
    let var = |name: &str| launch.env.get(name).map(|value| value.as_str());
    assert_eq!(var("TASKD_NOTIFY_INPUT_FILE"), Some("/tmp/in.json"));
    assert_eq!(var("TASKD_TASK_ID"), Some("job"));
    assert_eq!(var("TASKD_TASK_NAME"), Some("job"));
    assert_eq!(var("PI_CODING_AGENT_DIR"), None);
    assert_eq!(launch.env.get("KEY").map(|v| v.as_str()), Some("renderer"));
    assert_eq!(launch.env.get("OTHER").map(|v| v.as_str()), Some("loaded"));
}

#[test]
fn renderer_failures_are_told_apart() {
    let r = renderer();
    let finished = |success: bool, stdout: &str| RenderEnd::Finished {
        success,
        status: "exit status: 3".to_string(),
        stdout: stdout.to_string(),
        stderr: "bad input".to_string(),
    };
    assert_eq!(conclude_renderer(&r, &finished(true, " text \n")).expect("fine"), " text \n");
    assert_eq!(
        conclude_renderer(&r, &finished(false, "text")).expect_err("failed").full_text(),
        "pi renderer command '/opt/renderer.sh' exited with exit status: 3: bad input"
    );
    assert_eq!(
        conclude_renderer(&r, &finished(true, "  ")).expect_err("silent").full_text(),
        "pi renderer command '/opt/renderer.sh' produced no stdout content"
    );
    assert_eq!(
        conclude_renderer(&r, &RenderEnd::NotRun("gone".to_string()))
            .expect_err("not run")
            .full_text(),
        "gone"
    );
    let limited = PiRendererConfig { timeout_seconds: Some(30), ..renderer() };
    assert_eq!(
        conclude_renderer(&limited, &RenderEnd::TimedOut("deadline has elapsed".to_string()))
            .expect_err("late")
            .full_text(),
        "pi renderer command '/opt/renderer.sh' timed out after 30s: deadline has elapsed"
    );
}

#[test]
fn input_faults_name_their_place() {
    let text = |fault: InputFault| judge_input_fault("/d", "/d/f", &fault).full_text();
    assert_eq!(
        text(InputFault::Directory("e".to_string())),
        "failed to create notification temp dir '/d': e"
    );
    assert_eq!(
        text(InputFault::Encode("e".to_string())),
        "failed to encode notification input: e"
    );
    assert_eq!(
        text(InputFault::Write("e".to_string())),
        "failed to write notification input '/d/f': e"
    );
    assert_eq!(
        notification_temp_dir(&task(None), "/tmp", "0123456789abcdef"),
        "/tmp/taskd-notify/job-01234567"
    );
}

#[test]
fn webhook_replies() {
    assert!(judge_webhook_reply(&WebhookReply::Accepted).is_ok());
    assert_eq!(
        judge_webhook_reply(&WebhookReply::NotSent("refused".to_string()))
            .expect_err("not sent")
            .full_text(),
        "failed to send webhook request: refused"
    );
    let reply = |body: Option<&str>| {
        let body = body.map(|text| text.to_string());
        judge_webhook_reply(&WebhookReply::Refused("400 Bad Request".to_string(), body))
            .expect_err("refused")
            .full_text()
    };
    assert_eq!(reply(Some(" why\n")), "webhook returned 400 Bad Request: why");
    assert_eq!(
        reply(None),
        "webhook returned 400 Bad Request: <unreadable webhook response>"
    );
}

#[test]
fn the_renderer_sees_the_whole_run() {
    let ran = outcome_from_exit_status(
        at(10),
        at(20),
        ProcessExit::Code(7),
        "out".to_string(),
        "err".to_string(),
    );
    let input = NotificationRendererInput::from_task(&task(None), &ran, "result".to_string());
    assert_eq!(input.task_id, "job");
    assert_eq!(input.status, TaskRunStatus::Failed);
    assert_eq!(input.summary, "exit code 7");
    assert_eq!(input.exit_code, 7);
    assert_eq!(input.started_at, at(10));
    assert_eq!(input.finished_at, at(20));
    assert_eq!(input.result, "result");
    assert_eq!(input.stdout.as_deref(), Some("out"));
    assert_eq!(input.stderr.as_deref(), Some("err"));
    assert_eq!(input.meta.get("schedule").map(|v| v.as_str()), Some("interval(60s)"));
    assert_eq!(input.meta.get("notify_result_source").map(|v| v.as_str()), Some("disabled"));
    let filed = NotificationRendererInput::from_task(&file_task("r.txt"), &ran, String::new());
    assert_eq!(filed.meta.get("notify_result_source").map(|v| v.as_str()), Some("file:r.txt"));
}

#[test]
fn tasks_of_a_valid_configuration_can_notify() {
    let config = AppConfig {
        version: 1,
        notifications: Some(notifications("URL")),
        tasks: vec![task(Some(NotifyResultSourceConfig::Stdout)), file_task_named("other")],
    };
    let mut known = PathSurvey::new();
    known.insert("/opt".to_string(), PathKind::Directory);
    config.validate(&known).expect("valid");
    for task in &config.tasks {
        let start = start_notification(&config.notifications, task, &outcome());
        assert!(!matches!(start.expect("configured"), NotifyStart::Nothing));
        let settings = config.notifications.as_ref().expect("configured");
        let plan = judge_notification(settings, task, Ok(true)).expect("configured");
        assert!(plan.is_some());
    }
}

fn file_task_named(id: &str) -> TaskConfig {
    TaskConfig { id: id.to_string(), ..file_task("r.txt") }
}

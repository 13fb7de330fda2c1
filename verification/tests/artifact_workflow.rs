use taskd::artifact_cli::{run, ArtifactCommand, ArtifactWork};
use taskd::artifact_plan::{plan_collect, plan_collect_on, settle_collectors};
use taskd::artifact_records::{
    build_render_input, read_records, validate_status, ArtifactRecord, CollectorRecordInput,
    RecordLine, RenderedArtifact,
};
use taskd::artifact_run::{
    artifact_paths, collector_output, command_not_run, conclude_collector,
    conclude_unstarted_collector, current_host_name, generate_run_id, judge_command,
    parse_artifact_date, resolve_command, template_vars, CollectorExecutionOutcome, CommandOutput,
    RuntimeTemplateVars,
};
use taskd::artifact_runfile::{
    collectors_to_run, finish_collect, finish_render, judge_document, judge_records_fault,
    sort_outcomes, ArtifactRunFile, DocumentFault, RecordsFault, SinkAction,
};
use taskd::artifacts::{
    is_valid_identifier, ArtifactCollectorConfig, ArtifactCommandConfig, ArtifactConfig,
    ArtifactSinkConfig, ArtifactsConfig, ArtifactsRead,
};
use taskd::calendar::{CivilDate, Timestamp};
use taskd::failure::Failure;
use taskd::json::JsonValue;
use taskd::task_runner::ProcessExit;
use taskd::template::{extract_placeholders, replace_all, resolve_template, validate_template_string};
use taskd::text_map::EnvMap;

fn at(secs: i64) -> Timestamp {
    Timestamp::new(secs, 0).expect("an instant")
}

fn day() -> CivilDate {
    parse_artifact_date("2026-03-12").expect("a date")
}

fn command(program: &str, args: &[&str]) -> ArtifactCommandConfig {
    ArtifactCommandConfig {
        program: program.to_string(),
        args: args.iter().map(|arg| arg.to_string()).collect(),
        workdir: None,
        env: EnvMap::new(),
    }
}

fn collector(id: &str, enabled: bool) -> ArtifactCollectorConfig {
    ArtifactCollectorConfig {
        id: id.to_string(),
        enabled,
        command: command("/bin/collect", &["{{collector_output}}"]),
    }
}

fn sink(id: &str, enabled: bool) -> ArtifactSinkConfig {
    ArtifactSinkConfig {
        id: id.to_string(),
        enabled,
        command: command("/bin/sink", &["{{render_file}}"]),
    }
}

fn artifact() -> ArtifactConfig {
    ArtifactConfig {
        id: "daily_ops".to_string(),
        timezone: "UTC".to_string(),
        workdir: "/data/ops".to_string(),
        collectors: vec![collector("taskd", true), collector("failing", true), collector("off", false)],
        renderer: command("/bin/render", &["{{render_input_file}}", "{{render_file}}"]),
        sinks: vec![sink("file", true), sink("later", false)],
    }
}

fn config() -> ArtifactsConfig {
    ArtifactsConfig { version: 1, artifacts: vec![artifact()] }
}

fn vars(collector_id: Option<&str>) -> RuntimeTemplateVars {
    let paths = artifact_paths(&artifact(), day());
    let collector_id = collector_id.map(|id| id.to_string());
    template_vars(&artifact(), day(), "run-1", "box", &paths, &collector_id)
}

#[test]
fn artifactctl_validate_rejects_unknown_template_variables() {
    let mut broken = config();
    broken.artifacts[0].renderer.args.push("{{unknown_var}}".to_string());
    let failure = broken.validate().expect_err("unknown variable");
    assert!(failure.message.contains("unknown template variable"));
    assert_eq!(
        failure.message,
        "artifacts[0].renderer.command.args[2] uses unknown template variable '{{unknown_var}}'"
    );
    assert!(config().validate().is_ok());
}

#[test]
fn artifact_rules_are_checked_in_turn() {
    let verdict = |change: fn(&mut ArtifactsConfig)| {
        let mut c = config();
        change(&mut c);
        c.validate().expect_err("breaks a rule").full_text()
    };
    assert_eq!(verdict(|c| c.version = 2), "unsupported artifacts config version 2");
    assert_eq!(
        verdict(|c| c.artifacts.push(artifact())),
        "artifacts[1].id duplicates artifact id 'daily_ops'"
    );
    assert_eq!(
        verdict(|c| c.artifacts[0].id = "a b".to_string()),
        "artifacts[0].id must use only letters, digits, '-', '_' or '.'"
    );
    assert_eq!(
        verdict(|c| c.artifacts[0].timezone = " ".to_string()),
        "artifacts[0].timezone must not be empty"
    );
    assert_eq!(
        verdict(|c| c.artifacts[0].timezone = "Mars".to_string()),
        "artifacts[0].timezone has invalid timezone 'Mars': failed to parse timezone"
    );
    assert_eq!(
        verdict(|c| c.artifacts[0].collectors.clear()),
        "artifacts[0].collectors must contain at least one collector"
    );
    assert_eq!(
        verdict(|c| c.artifacts[0].collectors.push(collector("taskd", true))),
        "artifacts[0].collectors[3].id duplicates collector id 'taskd'"
    );
    assert_eq!(
        verdict(|c| c.artifacts[0].sinks.push(sink("file", true))),
        "artifacts[0].sinks[2].id duplicates sink id 'file'"
    );
    assert_eq!(
        verdict(|c| c.artifacts[0].renderer.program = " ".to_string()),
        "artifacts[0].renderer.command.program must not be empty"
    );
    assert_eq!(
        verdict(|c| {
            c.artifacts[0].renderer.env.insert(" ".to_string(), "x".to_string());
        }),
        "artifacts[0].renderer.command.env contains an empty key"
    );
    assert_eq!(
        verdict(|c| c.artifacts[0].collectors[0].command.program = "{{x".to_string()),
        "unclosed template variable in '{{x'"
    );
    assert_eq!(
        verdict(|c| c.artifacts[0].collectors[0].command.program = "a{{ }}".to_string()),
        "empty template variable in 'a{{ }}'"
    );
    assert!(is_valid_identifier("a.b-c_1"));
    assert!(!is_valid_identifier(""));
}

#[test]
fn artifact_configs_are_loaded_and_searched() {
    let loaded = ArtifactsConfig::load("/a", ArtifactsRead::Parsed(config())).expect("parsed");
    assert!(loaded.artifact("daily_ops").is_some());
    assert!(loaded.artifact("other").is_none());
    assert_eq!(
        ArtifactsConfig::load("/a", ArtifactsRead::Unreadable("e".to_string()))
            .expect_err("unreadable")
            .full_text(),
        "failed to read artifacts config '/a': e"
    );
    assert_eq!(
        ArtifactsConfig::load("/a", ArtifactsRead::Unparsable("e".to_string()))
            .expect_err("unparsable")
            .full_text(),
        "failed to parse yaml '/a': e"
    );
}

#[test]
fn artifact_commands_select_their_steps() {
    let lines = |c: ArtifactCommand| match run(&config(), &c) {
        Ok(ArtifactWork::Print(lines)) => lines,
        other => panic!("unexpected work: {other:?}"),
    };
    assert_eq!(lines(ArtifactCommand::Validate), vec!["config is valid"]);
    assert_eq!(lines(ArtifactCommand::List), vec!["daily_ops"]);
    let id = || "daily_ops".to_string();
    let date = || "2026-03-12".to_string();
    let steps = |c: ArtifactCommand| match run(&config(), &c) {
        Ok(ArtifactWork::Work { artifact, date, collect, render, sink }) => {
            assert_eq!((artifact, date.as_str()), (0, "2026-03-12"));
            (collect, render, sink)
        }
        other => panic!("unexpected work: {other:?}"),
    };
    assert_eq!(
        steps(ArtifactCommand::Collect { artifact_id: id(), date: date() }),
        (true, false, false)
    );
    assert_eq!(
        steps(ArtifactCommand::Render { artifact_id: id(), date: date() }),
        (false, true, false)
    );
    assert_eq!(
        steps(ArtifactCommand::Sink { artifact_id: id(), date: date() }),
        (false, false, true)
    );
    assert_eq!(
        steps(ArtifactCommand::Run { artifact_id: id(), date: date() }),
        (true, true, true)
    );
    let absent = ArtifactCommand::Run { artifact_id: "nope".to_string(), date: date() };
    assert_eq!(run(&config(), &absent).expect_err("absent").message, "artifact 'nope' not found");
}

#[test]
fn templates_are_filled_in() {
    let mut values = EnvMap::new();
    values.insert("host".to_string(), "box".to_string());
    values.insert("run_id".to_string(), "r{{host}}".to_string());
    assert_eq!(resolve_template("/d/{{host}}/x", &values).expect("known"), "/d/box/x");
    assert_eq!(resolve_template("{{host}}{{host}}", &values).expect("known"), "boxbox");
    assert_eq!(resolve_template("plain }} text", &values).expect("known"), "plain }} text");
    assert_eq!(
        resolve_template("{{collector_id}}", &values).expect_err("unknown").message,
        "unknown template variable '{{collector_id}}'"
    );
    assert_eq!(resolve_template("{{ host }}", &values).expect("known"), "{{ host }}");
    assert_eq!(
        extract_placeholders("{{b}} {{ a }} {{b}}").expect("closed"),
        vec!["a", "b"]
    );
    assert!(extract_placeholders("{{a} }").is_err());
    assert!(validate_template_string("{{collector_output}}", "f").is_ok());
    assert_eq!(replace_all("aXbXX", "X", "YX"), "aYXbYXYX");
    assert_eq!(replace_all("none", "X", "Y"), "none");
}

#[test]
fn runs_live_in_one_directory_per_date() {
    let paths = artifact_paths(&artifact(), day());
    assert_eq!(paths.run_dir, "/data/ops/2026-03-12");
    assert_eq!(paths.collectors_dir, "/data/ops/2026-03-12/collectors");
    assert_eq!(paths.collect_file, "/data/ops/2026-03-12/records.jsonl");
    assert_eq!(paths.collect_partial_file, "/data/ops/2026-03-12/records.jsonl.partial");
    assert_eq!(paths.render_input_file, "/data/ops/2026-03-12/render-input.json");
    assert_eq!(paths.render_file, "/data/ops/2026-03-12/rendered.json");
    assert_eq!(paths.run_file, "/data/ops/2026-03-12/run.json");
    assert_eq!(
        collector_output(&paths, "taskd"),
        "/data/ops/2026-03-12/collectors/taskd.json"
    );
    assert_eq!(
        parse_artifact_date("2026-13-01").expect_err("no date").message,
        "invalid artifact date '2026-13-01', expected YYYY-MM-DD"
    );
    assert_eq!(
        generate_run_id(&at(1_773_273_600), "0123456789abcdef0123456789abcdef"),
        "20260312T000000Z-01234567"
    );
    assert_eq!(current_host_name(&Some("box".to_string())), "box");
    assert_eq!(current_host_name(&Some("  ".to_string())), "unknown");
    assert_eq!(current_host_name(&None), "unknown");
}

#[test]
fn commands_are_resolved_with_their_variables() {
    let mut config = command("{{run_dir}}/tool", &["--out", "{{collector_output}}"]);
    config.workdir = Some("{{run_dir}}".to_string());
    config.env.insert("WHERE".to_string(), "{{host}}".to_string());
    config.env.insert("ARTIFACT_ID".to_string(), "shadowed".to_string());
    let resolved = resolve_command(&config, &vars(Some("taskd"))).expect("resolved");
    assert_eq!(resolved.program, "/data/ops/2026-03-12/tool");
    assert_eq!(resolved.args[1], "/data/ops/2026-03-12/collectors/taskd.json");
    assert_eq!(resolved.workdir.as_deref(), Some("/data/ops/2026-03-12"));
    let var = |name: &str| resolved.env.get(name).map(|value| value.as_str());
    assert_eq!(var("WHERE"), Some("box"));
    assert_eq!(var("ARTIFACT_ID"), Some("daily_ops"));
    assert_eq!(var("ARTIFACT_DATE"), Some("2026-03-12"));
    assert_eq!(var("ARTIFACT_COLLECTOR_ID"), Some("taskd"));
    assert_eq!(var("ARTIFACT_RENDER_FILE"), Some("/data/ops/2026-03-12/rendered.json"));
    assert!(resolve_command(&config, &vars(None)).is_err());
    let plain = resolve_command(&command("/bin/true", &[]), &vars(None)).expect("resolved");
    assert!(plain.env.get("ARTIFACT_COLLECTOR_ID").is_none());
}

fn output(exit: ProcessExit) -> CommandOutput {
    CommandOutput {
        exit,
        status: "exit status: 7".to_string(),
        stdout: "out".to_string(),
        stderr: "err".to_string(),
    }
}

fn input(status: &str) -> CollectorRecordInput {
    CollectorRecordInput {
        schema_version: 1,
        status: status.to_string(),
        summary: "fine".to_string(),
        content_type: "application/json".to_string(),
        payload: JsonValue::Bool(true),
    }
}

fn collected(
    id: &str,
    exit: ProcessExit,
    loaded: Result<CollectorRecordInput, Failure>,
) -> CollectorExecutionOutcome {
    conclude_collector(id, &vars(Some(id)), &output(exit), loaded, at(5))
}

#[test]
fn collectors_end_in_records() {
    let good = collected("taskd", ProcessExit::Code(0), Ok(input("ok")));
    assert_eq!(good.collector_id, "taskd");
    assert_eq!(good.record.status, "ok");
    assert_eq!(good.record.summary, "fine");
    assert_eq!(good.record.artifact_id, "daily_ops");
    assert_eq!(good.record.artifact_date, "2026-03-12");
    assert_eq!(good.record.host, "box");
    assert_eq!(good.record.collected_at, at(5));
    assert!(good.record.validate().is_ok());

    let failed = collected("failing", ProcessExit::Code(7), Ok(input("ok")));
    assert_eq!(failed.record.status, "error");
    assert_eq!(failed.record.summary, "collector exited with code 7");
    assert_eq!(failed.record.content_type, "application/json");
    let killed = collected("failing", ProcessExit::Signal(9), Ok(input("ok")));
    assert_eq!(killed.record.summary, "collector exited with signal");
    let odd = collected("failing", ProcessExit::Code(0), Ok(input("odd")));
    assert_eq!(
        odd.record.summary,
        "collector output schema invalid: status 'odd' must be one of ok, warn, error"
    );
    let missing = collected(
        "failing",
        ProcessExit::Code(0),
        Err(Failure::caused_by("failed to open json file '/x'".to_string(), "gone")),
    );
    assert_eq!(
        missing.record.summary,
        "collector output missing or unreadable: failed to open json file '/x': gone"
    );
    match &failed.record.payload {
        JsonValue::Object(fields) => assert_eq!(fields[0].0, "error"),
        other => panic!("unexpected payload: {other:?}"),
    }
}

#[test]
fn artifactctl_run_collects_renders_and_sinks() {
    let artifact = artifact();
    let paths = artifact_paths(&artifact, day());
    let run_file = ArtifactRunFile::new(&artifact, day(), "run-1", "box", &paths, at(1));
    assert_eq!(run_file.status, "running");
    assert_eq!(run_file.collectors.len(), 2);
    assert_eq!(run_file.sinks.len(), 1);
    assert_eq!(collectors_to_run(&artifact).len(), 2);

    let outcomes = sort_outcomes(vec![
        collected("taskd", ProcessExit::Code(0), Ok(input("ok"))),
        collected("failing", ProcessExit::Code(7), Err(Failure::new("unread".to_string()))),
    ]);
    assert_eq!(outcomes[0].collector_id, "failing");
    let run_file = finish_collect(run_file, "daily_ops", &outcomes, at(9)).expect("collected");
    assert_eq!(run_file.status, "partial_success");
    assert_eq!(run_file.collectors[0].status, "ok");
    assert_eq!(run_file.collectors[1].status, "error");

    let mut run_file = run_file;
    run_file.start_render();
    assert_eq!(run_file.renderer.status, "running");
    let rendered = RenderedArtifact {
        schema_version: 1,
        status: "ok".to_string(),
        title: "Daily Ops".to_string(),
        content_type: "text/markdown".to_string(),
        body: "body".to_string(),
        meta: JsonValue::Null,
    };
    let mut run_file = finish_render(run_file, &rendered).expect("rendered");
    assert_eq!(run_file.renderer.status, "ok");
    let first = run_file.begin_sinks(&artifact, at(19));
    assert!(matches!(first, SinkAction::Run { at: 0, sink: 0 }));
    assert_eq!(run_file.sinks[0].status, "running");
    let end = run_file.next_sink(&artifact, 0, Ok(()), at(20));
    assert!(matches!(end, SinkAction::Done));
    assert_eq!(run_file.sinks[0].status, "ok");
    assert_eq!(run_file.status, "partial_success");
    assert_eq!(run_file.finished_at, Some(at(20)));
}

#[test]
fn runs_without_success_fail() {
    let artifact = artifact();
    let paths = artifact_paths(&artifact, day());
    let fresh = || ArtifactRunFile::new(&artifact, day(), "run-1", "box", &paths, at(1));
    assert_eq!(
        finish_collect(fresh(), "daily_ops", &vec![], at(2)).expect_err("nothing").message,
        "artifact 'daily_ops' produced no collector records"
    );
    let bad = vec![
        collected("taskd", ProcessExit::Code(1), Ok(input("ok"))),
        collected("failing", ProcessExit::Code(1), Ok(input("ok"))),
    ];
    assert_eq!(
        finish_collect(fresh(), "daily_ops", &bad, at(2)).expect_err("none ok").message,
        "artifact 'daily_ops' did not produce any successful collector records"
    );
    let one = vec![collected("taskd", ProcessExit::Code(0), Ok(input("ok")))];
    assert_eq!(
        finish_collect(fresh(), "daily_ops", &one, at(2)).expect_err("one missing").message,
        "missing collector outcome for 'failing'"
    );
    let both = vec![
        collected("taskd", ProcessExit::Code(0), Ok(input("ok"))),
        collected("failing", ProcessExit::Code(0), Ok(input("ok"))),
    ];
    let done = finish_collect(fresh(), "daily_ops", &both, at(2)).expect("all ok");
    assert_eq!(done.status, "success");
    let error = RenderedArtifact {
        schema_version: 1,
        status: "error".to_string(),
        title: "t".to_string(),
        content_type: "text/plain".to_string(),
        body: "b".to_string(),
        meta: JsonValue::Null,
    };
    let rendered = finish_render(done, &error).expect("valid");
    assert_eq!(rendered.status, "partial_success");
    let mut failing = fresh();
    failing.begin_sinks(&artifact, at(3));
    let command_exited = Err(Failure::new("command exited".to_string()));
    match failing.next_sink(&artifact, 0, command_exited, at(4)) {
        SinkAction::Failed(failure) => {
            assert_eq!(failure.full_text(), "sink 'file' failed: command exited");
        }
        other => panic!("unexpected action: {other:?}"),
    }
    assert_eq!(failing.status, "failed");
    assert_eq!(failing.sinks[0].status, "error");
    let mut other = artifact.clone_for_test();
    other.sinks.clear();
    match fresh().begin_sinks(&other, at(3)) {
        SinkAction::Unknown(failure) => {
            assert_eq!(failure.message, "missing sink config for 'file'");
        }
        action => panic!("unexpected action: {action:?}"),
    }
}

fn three_sinks() -> (ArtifactConfig, ArtifactRunFile) {
    let mut artifact = artifact();
    artifact.sinks = vec![sink("c", true), sink("a", true), sink("b", true), sink("d", true)];
    let paths = artifact_paths(&artifact, day());
    let run_file = ArtifactRunFile::new(&artifact, day(), "run-1", "box", &paths, at(1));
    artifact.sinks.swap(0, 3);
    artifact.sinks[1].enabled = false;
    (artifact, run_file)
}

fn sink_statuses(run_file: &ArtifactRunFile) -> Vec<&str> {
    run_file.sinks.iter().map(|sink| sink.status.as_str()).collect()
}

#[test]
fn sinks_run_in_the_order_of_the_run_file() {
    let (artifact, mut run_file) = three_sinks();
    let mut ran: Vec<String> = vec![];
    let mut action = run_file.begin_sinks(&artifact, at(2));
    while let SinkAction::Run { at: position, sink } = action {
        assert_eq!(run_file.sinks[position].status, "running");
        ran.push(artifact.sinks[sink].id.clone());
        action = run_file.next_sink(&artifact, position, Ok(()), at(7));
    }
    assert!(matches!(action, SinkAction::Done));
    assert_eq!(ran, vec!["c", "b", "d"]);
    assert_eq!(sink_statuses(&run_file), vec!["ok", "disabled", "ok", "ok"]);
    assert_eq!(run_file.status, "success");
    assert_eq!(run_file.finished_at, Some(at(7)));
}

#[test]
fn no_sink_runs_after_one_that_failed() {
    let (artifact, mut run_file) = three_sinks();
    run_file.begin_sinks(&artifact, at(2));
    let second = run_file.next_sink(&artifact, 0, Ok(()), at(3));
    assert!(matches!(second, SinkAction::Run { at: 2, sink: 2 }));
    let gone = Err(Failure::caused_by("command".to_string(), "gone"));
    match run_file.next_sink(&artifact, 2, gone, at(4)) {
        SinkAction::Failed(failure) => {
            assert_eq!(failure.full_text(), "sink 'b' failed: command: gone");
        }
        other => panic!("unexpected action: {other:?}"),
    }
    assert_eq!(sink_statuses(&run_file), vec!["ok", "disabled", "error", "pending"]);
    assert_eq!(run_file.status, "failed");
    assert_eq!(run_file.finished_at, None);
}

trait CloneForTest {
    fn clone_for_test(&self) -> ArtifactConfig;
}

impl CloneForTest for ArtifactConfig {
    fn clone_for_test(&self) -> ArtifactConfig {
        ArtifactConfig {
            id: self.id.clone(),
            timezone: self.timezone.clone(),
            workdir: self.workdir.clone(),
            collectors: self.collectors.clone(),
            renderer: self.renderer.clone(),
            sinks: self.sinks.clone(),
        }
    }
}

fn record(id: &str, status: &str) -> ArtifactRecord {
    ArtifactRecord {
        schema_version: 1,
        artifact_id: "daily_ops".to_string(),
        artifact_date: "2026-03-12".to_string(),
        run_id: "run-1".to_string(),
        collector_id: id.to_string(),
        host: "box".to_string(),
        collected_at: at(5),
        status: status.to_string(),
        summary: "s".to_string(),
        content_type: "text/plain".to_string(),
        payload: JsonValue::Null,
    }
}

fn line(text: &str, parsed: Result<ArtifactRecord, String>) -> RecordLine {
    RecordLine::Text { text: text.to_string(), parsed }
}

#[test]
fn record_files_are_read_line_by_line() {
    let records = read_records(
        vec![
            line("x", Ok(record("b", "ok"))),
            line("  ", Err("EOF".to_string())),
            line("y", Ok(record("a", "warn"))),
        ],
        "/r",
    )
    .expect("readable");
    assert_eq!(records.len(), 2);
    let document = build_render_input(&artifact(), "2026-03-12", "run-1", "box", at(7), records);
    assert_eq!(document.records[0].collector_id, "a");
    assert_eq!(document.meta.record_count, 2);
    assert_eq!(document.meta.status_counts.get("ok"), Some(&1));
    assert_eq!(document.timezone, "UTC");
    assert_eq!(document.generated_at, at(7));

    let text = |lines: Vec<RecordLine>| read_records(lines, "/r").expect_err("bad").full_text();
    assert_eq!(
        text(vec![line("x", Ok(record("a", "ok"))), line("y", Err("bad".to_string()))]),
        "failed to parse record line 2 from '/r': bad"
    );
    assert_eq!(
        text(vec![RecordLine::Unreadable("e".to_string())]),
        "failed to read line 1 from records file '/r': e"
    );
    assert_eq!(
        text(vec![line("x", Ok(record("a", "odd")))]),
        "status 'odd' must be one of ok, warn, error"
    );
}

#[test]
fn documents_are_checked() {
    assert!(validate_status("warn").is_ok());
    let mut wrong = input("ok");
    wrong.schema_version = 2;
    assert_eq!(
        wrong.validate().expect_err("version").message,
        "collector schema_version must be 1"
    );
    let mut blank = input("ok");
    blank.summary = " ".to_string();
    assert_eq!(
        blank.validate().expect_err("blank").message,
        "collector summary must not be empty"
    );
    let mut odd = input("ok");
    odd.content_type = "image/png".to_string();
    assert_eq!(
        odd.validate().expect_err("type").message,
        "collector content_type 'image/png' is not supported"
    );
    let mut kept = record("a", "ok");
    kept.schema_version = 3;
    assert_eq!(kept.validate().expect_err("version").message, "record schema_version must be 1");
    let rendered = |title: &str, body: &str, content_type: &str| RenderedArtifact {
        schema_version: 1,
        status: "ok".to_string(),
        title: title.to_string(),
        content_type: content_type.to_string(),
        body: body.to_string(),
        meta: JsonValue::Null,
    };
    assert!(rendered("t", "b", "text/markdown").validate().is_ok());
    assert_eq!(
        rendered(" ", "b", "text/plain").validate().expect_err("title").message,
        "rendered title must not be empty"
    );
    assert_eq!(
        rendered("t", "", "text/plain").validate().expect_err("body").message,
        "rendered body must not be empty"
    );
    assert_eq!(
        rendered("t", "b", "text/html").validate().expect_err("type").message,
        "rendered content_type 'text/html' is not supported"
    );
}

#[test]
fn commands_and_files_fail_with_their_names() {
    assert!(judge_command(&output(ProcessExit::Code(0))).is_ok());
    assert_eq!(
        judge_command(&output(ProcessExit::Code(7))).expect_err("failed").message,
        "command exited with exit status: 7: err"
    );
    assert_eq!(
        command_not_run("/bin/x", "gone").full_text(),
        "failed to execute command '/bin/x': gone"
    );
    let document = |fault: DocumentFault| judge_document("/d/f.json", &fault).full_text();
    let e = || "e".to_string();
    assert_eq!(document(DocumentFault::Directory(e())), "failed to create directory '/d': e");
    assert_eq!(
        document(DocumentFault::Create(e())),
        "failed to create json file '/d/f.json': e"
    );
    assert_eq!(document(DocumentFault::Write(e())), "failed to write json file '/d/f.json': e");
    assert_eq!(document(DocumentFault::Open(e())), "failed to open json file '/d/f.json': e");
    assert_eq!(document(DocumentFault::Parse(e())), "failed to parse json file '/d/f.json': e");
    let paths = artifact_paths(&artifact(), day());
    let records = |fault: RecordsFault| judge_records_fault(&paths, &fault).full_text();
    assert_eq!(
        records(RecordsFault::Directory(e())),
        "failed to create collector output directory '/data/ops/2026-03-12/collectors': e"
    );
    assert_eq!(
        records(RecordsFault::Create(e())),
        "failed to create records file '/data/ops/2026-03-12/records.jsonl.partial': e"
    );
    assert_eq!(
        records(RecordsFault::Encode("taskd".to_string(), e())),
        "failed to encode record for 'taskd': e"
    );
    assert_eq!(records(RecordsFault::Newline(e())), "failed to write newline: e");
    assert_eq!(records(RecordsFault::Flush(e())), "failed to flush records file: e");
    assert_eq!(
        records(RecordsFault::Finalize(e())),
        "failed to finalize records file '/data/ops/2026-03-12/records.jsonl': e"
    );
    assert_eq!(
        records(RecordsFault::Open(e())),
        "failed to open records file '/data/ops/2026-03-12/records.jsonl': e"
    );
}

#[test]
fn collecting_plans_one_job_per_enabled_collector() {
    let random = "0123456789abcdef0123456789abcdef";
    let plan = plan_collect(
        &artifact(),
        "2026-03-12",
        &Some("box".to_string()),
        random,
        &at(1_773_273_600),
        at(1_773_273_601),
    )
    .expect("a date");
    assert_eq!(plan.run_file.run_id, "20260312T000000Z-01234567");
    assert_eq!(plan.run_file.started_at, at(1_773_273_601));
    assert_eq!(plan.date, day());
    let ids: Vec<&str> = plan.jobs.iter().map(|job| job.collector_id.as_str()).collect();
    assert_eq!(ids, vec!["taskd", "failing"]);
    let job = &plan.jobs[1];
    assert_eq!(job.output, "/data/ops/2026-03-12/collectors/failing.json");
    let command = job.command.as_ref().expect("valid templates");
    assert_eq!(command.args, vec!["/data/ops/2026-03-12/collectors/failing.json"]);
    assert_eq!(job.vars.host, "box");
    assert_eq!(
        plan_collect(&artifact(), "today", &None, random, &at(0), at(0))
            .expect_err("no date")
            .message,
        "invalid artifact date 'today', expected YYYY-MM-DD"
    );
    let mut broken = artifact();
    broken.collectors[0].command.program = "{{nope}}".to_string();
    let plan = plan_collect_on(&broken, day(), "run-1", "box", at(0));
    assert!(plan.jobs[0].command.is_err());
    assert!(plan.jobs[1].command.is_ok());
}

#[test]
fn contributions_are_sorted_unless_a_worker_panicked() {
    let fine = |id: &str| Some(collected(id, ProcessExit::Code(0), Ok(input("ok"))));
    let sorted = settle_collectors(vec![fine("b"), fine("c"), fine("a")]).expect("all fine");
    let ids: Vec<&str> = sorted.iter().map(|outcome| outcome.collector_id.as_str()).collect();
    assert_eq!(ids, vec!["a", "b", "c"]);
    let failure = settle_collectors(vec![fine("a"), None, fine("b")]);
    assert_eq!(failure.expect_err("one panicked").message, "collector thread panicked");
    assert!(settle_collectors(vec![]).expect("nothing").is_empty());
}

#[test]
fn collectors_that_cannot_be_started_do_not_stop_the_artifact() {
    let artifact = artifact();
    let plan = plan_collect_on(&artifact, day(), "run-1", "box", at(1));
    let job = &plan.jobs[1];
    let unstarted = conclude_unstarted_collector(
        &job.collector_id,
        &job.vars,
        &command_not_run("/bin/absent", "no such file"),
        at(5),
    );
    assert_eq!(unstarted.record.status, "error");
    assert_eq!(
        unstarted.record.summary,
        "collector could not be started: failed to execute command '/bin/absent': no such file"
    );
    assert!(unstarted.record.validate().is_ok());
    match &unstarted.record.payload {
        JsonValue::Object(fields) => match &fields[0].1 {
            JsonValue::Object(error) => {
                assert!(matches!(&error[0].1, JsonValue::Text(kind) if kind == "command_failed"));
            }
            other => panic!("unexpected error: {other:?}"),
        },
        other => panic!("unexpected payload: {other:?}"),
    }
    let good = collected("taskd", ProcessExit::Code(0), Ok(input("ok")));
    let outcomes = settle_collectors(vec![Some(good), Some(unstarted)]).expect("none panicked");
    assert_eq!(outcomes.len(), 2);
    let done = finish_collect(plan.run_file, "daily_ops", &outcomes, at(9)).expect("one is fine");
    assert_eq!(done.status, "partial_success");
    assert_eq!(done.collectors[0].status, "ok");
    assert_eq!(done.collectors[1].status, "error");
}

#[test]
fn templates_are_filled_in_place() {
    let mut values = EnvMap::new();
    values.insert("host".to_string(), "".to_string());
    values.insert("run_id".to_string(), "host".to_string());
    values.insert("run_dir".to_string(), "/d".to_string());
    assert_eq!(
        resolve_template("{ {{run_dir}}/{{host}}{{run_id}}{x}}-{{run_dir}}", &values).expect("known"),
        "{ /d/host{x}}-/d"
    );
    assert_eq!(resolve_template("no names {", &values).expect("plain"), "no names {");
    assert!(resolve_template("{{{host}}}", &values).is_err());
}

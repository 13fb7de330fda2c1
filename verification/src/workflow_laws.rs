//! What holds of artifact workflows step by step: their rules, their files, their commands, and
//! what each phase makes of a run.

use vstd::prelude::*;

use crate::artifact_cli::{artifact_work, ArtifactCommand, ArtifactWorkView};
use crate::artifact_laws::{
    artifact_command_valid, artifact_valid, lemma_artifact, lemma_artifacts, lemma_command,
    lemma_template, step_valid, steps_valid, template_valid,
};
use crate::artifact_plan::{contributions, none_lost, plans_collect, CollectPlan};
use crate::artifact_records::{
    artifact_record_views, describes, input_failure, record_failure, record_statuses, records_read,
    rendered_failure, ArtifactRecord, ArtifactRecordView, RecordInputView, RecordLine,
    RenderInputDocument, RenderedView,
};
use crate::artifact_run::{
    artifact_date, collector_record, command_end_failure, host_name, resolved_args,
    resolved_command, resolved_env, run_id_of, run_paths, var_map, with_run_env, CollectedView,
    CollectorExecutionOutcome, CommandOutput, VarsView,
};
use crate::artifact_runfile::{
    advanced, after_sink, collected_run, contribution, enabled_steps, pending_steps, rendered_run,
    sink_position, started_run, with_renderer, with_statuses, RunFileView, SinkTurn,
    StepStatusView,
};
use crate::artifacts::{
    artifact_command_failure, artifact_failure, artifact_position, artifacts_config_failure,
    artifacts_load_failure, ArtifactCommandView, ArtifactStepView, ArtifactView, ArtifactsRead,
    ArtifactsView,
};
use crate::calendar::{date_digits, formatted, zone_known, CivilDate};
use crate::config::valid_id;
use crate::failure::{caused, full_text, FailureView};
use crate::json::JsonView;
use crate::path_laws::{law_joined_names_stand_in_their_directory, plain_name};
use crate::paths::{directory_of, file_name, join, same};
use crate::sorting::sorted;
use crate::tally::counts;
use crate::task_runner::ProcessExit;
use crate::template::{placeholders, resolved, template_failure};
use crate::text::{blank, signed_decimal};

verus! {

// ---------------------------------------------------------------------------------------------
// Rules
// ---------------------------------------------------------------------------------------------
/// A template is accepted exactly where it is well formed and each of its names is one that runs
/// give a value to.
pub proof fn law_templates_use_known_names(t: Seq<char>, field: Seq<char>)
    ensures
        template_failure(t, field) is None <==> placeholders(t) is Ok && forall|i: int|
            0 <= i < placeholders(t)->Ok_0.len() ==> {
                let name = #[trigger] placeholders(t)->Ok_0[i];
                name == "artifact_id"@ || name == "artifact_date"@ || name == "run_id"@ || name
                    == "run_dir"@ || name == "collect_file"@ || name == "render_input_file"@ || name
                    == "render_file"@ || name == "collector_id"@ || name == "collector_output"@
                    || name == "host"@
            },
{
    lemma_template(t, field);
}

/// A command of a workflow is accepted exactly where it names a program, each of its texts is an
/// accepted template, and each variable has a name.
pub proof fn law_workflow_commands_rules(c: ArtifactCommandView, path: Seq<char>, field: Seq<char>)
    ensures
        artifact_command_failure(c, path) is None <==> {
            &&& !blank(c.program)
            &&& template_failure(c.program, field) is None
            &&& forall|i: int|
                0 <= i < c.args.len() ==> template_failure(#[trigger] c.args[i], field) is None
            &&& c.workdir is Some ==> template_failure(c.workdir->0, field) is None
            &&& forall|i: int|
                0 <= i < c.env.len() ==> !blank((#[trigger] c.env[i]).0) && template_failure(
                    c.env[i].1,
                    field,
                ) is None
        },
{
    lemma_command(c, path);
    lemma_template(c.program, field);
    if c.workdir is Some {
        lemma_template(c.workdir->0, field);
    }
    assert forall|i: int| 0 <= i < c.args.len() implies (template_failure(
        #[trigger] c.args[i],
        field,
    ) is None <==> template_valid(c.args[i])) by {
        lemma_template(c.args[i], field);
    }
    assert forall|i: int| 0 <= i < c.env.len() implies (template_failure(
        (#[trigger] c.env[i]).1,
        field,
    ) is None <==> template_valid(c.env[i].1)) by {
        lemma_template(c.env[i].1, field);
    }
}

/// A workflow is accepted exactly where its id is one, it names a known time zone, it has a
/// collector, its collectors, its renderer and its sinks are accepted, and no two collectors and no
/// two sinks share an id.
#[verifier::rlimit(50)]
pub proof fn law_workflow_rules(a: ArtifactView, path: Seq<char>, field: Seq<char>)
    ensures
        artifact_failure(a, path) is None <==> {
            &&& valid_id(a.id)
            &&& !blank(a.timezone)
            &&& zone_known(a.timezone)
            &&& a.collectors.len() > 0
            &&& artifact_command_failure(a.renderer, field) is None
            &&& forall|i: int|
                0 <= i < a.collectors.len() ==> valid_id((#[trigger] a.collectors[i]).id)
                    && artifact_command_failure(a.collectors[i].command, field) is None
            &&& forall|i: int|
                0 <= i < a.sinks.len() ==> valid_id((#[trigger] a.sinks[i]).id)
                    && artifact_command_failure(a.sinks[i].command, field) is None
            &&& forall|i: int, k: int|
                0 <= i < k < a.collectors.len() ==> (#[trigger] a.collectors[i]).id != (
                #[trigger] a.collectors[k]).id
            &&& forall|i: int, k: int|
                0 <= i < k < a.sinks.len() ==> (#[trigger] a.sinks[i]).id != (
                #[trigger] a.sinks[k]).id
        },
{
    lemma_artifact(a, path);
    lemma_command(a.renderer, field);
    assert forall|i: int| 0 <= i < a.collectors.len() implies (artifact_command_failure(
        (#[trigger] a.collectors[i]).command,
        field,
    ) is None <==> artifact_command_valid(a.collectors[i].command)) by {
        lemma_command(a.collectors[i].command, field);
    }
    assert forall|i: int| 0 <= i < a.sinks.len() implies (artifact_command_failure(
        (#[trigger] a.sinks[i]).command,
        field,
    ) is None <==> artifact_command_valid(a.sinks[i].command)) by {
        lemma_command(a.sinks[i].command, field);
    }
    if forall|i: int|
        0 <= i < a.collectors.len() ==> valid_id((#[trigger] a.collectors[i]).id)
            && artifact_command_failure(a.collectors[i].command, field) is None {
        assert forall|i: int| 0 <= i < a.collectors.len() implies step_valid(
            #[trigger] a.collectors[i],
        ) by {}
    }
    if forall|i: int|
        0 <= i < a.sinks.len() ==> valid_id((#[trigger] a.sinks[i]).id)
            && artifact_command_failure(a.sinks[i].command, field) is None {
        assert forall|i: int| 0 <= i < a.sinks.len() implies step_valid(
            #[trigger] a.sinks[i],
        ) by {}
    }
    if steps_valid(a.collectors) {
        assert forall|i: int| 0 <= i < a.collectors.len() implies valid_id(
            (#[trigger] a.collectors[i]).id,
        ) && artifact_command_failure(a.collectors[i].command, field) is None by {
            assert(step_valid(a.collectors[i]));
        }
    }
    if steps_valid(a.sinks) {
        assert forall|i: int| 0 <= i < a.sinks.len() implies valid_id((#[trigger] a.sinks[i]).id)
            && artifact_command_failure(a.sinks[i].command, field) is None by {
            assert(step_valid(a.sinks[i]));
        }
    }
}

/// A configuration of workflows is accepted exactly where its version is 1, each workflow is
/// accepted, and no two share an id.
pub proof fn law_workflow_configurations_rules(c: ArtifactsView, path: Seq<char>)
    ensures
        artifacts_config_failure(c) is None <==> {
            &&& c.version == 1
            &&& forall|i: int|
                0 <= i < c.artifacts.len() ==> artifact_failure(#[trigger] c.artifacts[i], path)
                    is None
            &&& forall|i: int, k: int|
                0 <= i < k < c.artifacts.len() ==> (#[trigger] c.artifacts[i]).id != (
                #[trigger] c.artifacts[k]).id
        },
{
    lemma_artifacts(c.artifacts, 0);
    assert forall|i: int| 0 <= i < c.artifacts.len() implies (artifact_failure(
        #[trigger] c.artifacts[i],
        path,
    ) is None <==> artifact_valid(c.artifacts[i])) by {
        lemma_artifact(c.artifacts[i], path);
    }
}

/// What a collector leaves is accepted exactly where its version is 1, its status is one of three,
/// it has a summary, and its content is JSON or plain text. The same holds of records.
pub proof fn law_record_rules(c: RecordInputView, r: ArtifactRecordView)
    ensures
        input_failure(c) is None <==> c.schema_version == 1 && (c.status == "ok"@ || c.status
            == "warn"@ || c.status == "error"@) && !blank(c.summary) && (c.content_type
            == "application/json"@ || c.content_type == "text/plain"@),
        record_failure(r) is None <==> r.schema_version == 1 && (r.status == "ok"@ || r.status
            == "warn"@ || r.status == "error"@) && !blank(r.summary) && (r.content_type
            == "application/json"@ || r.content_type == "text/plain"@),
{
}

/// A rendered artifact is accepted exactly where its version is 1, its status is one of three, it
/// has a title and a body, and its content is markdown, JSON or plain text.
pub proof fn law_rendered_rules(c: RenderedView)
    ensures
        rendered_failure(c) is None <==> c.schema_version == 1 && (c.status == "ok"@ || c.status
            == "warn"@ || c.status == "error"@) && !blank(c.title) && !blank(c.body) && (
        c.content_type == "text/markdown"@ || c.content_type == "application/json"@
            || c.content_type == "text/plain"@),
{
}

// ---------------------------------------------------------------------------------------------
// Commands of the program
// ---------------------------------------------------------------------------------------------
proof fn lemma_workflow_position(list: Seq<ArtifactView>, id: Seq<char>, i: int)
    requires
        0 <= i <= list.len(),
    ensures
        match artifact_position(list, id, i) {
            Some(k) => i <= k < list.len() && list[k].id == id && forall|m: int|
                i <= m < k ==> (#[trigger] list[m]).id != id,
            None => forall|m: int| i <= m < list.len() ==> (#[trigger] list[m]).id != id,
        },
    decreases list.len() - i,
{
    if i < list.len() && list[i].id != id {
        lemma_workflow_position(list, id, i + 1);
    }
}

/// A command collects, renders or delivers for the workflow with the id that it names, on the date
/// that it names; running a workflow does all three. A command fails exactly where no workflow has
/// that id.
pub proof fn law_commands_of_workflows(c: ArtifactsView, command: ArtifactCommand)
    ensures
        match command {
            ArtifactCommand::Validate => artifact_work(c, command) matches Ok(
                ArtifactWorkView::Print(lines),
            ) && lines.len() == 1 && lines[0] == "config is valid"@,
            ArtifactCommand::List => artifact_work(c, command) matches Ok(
                ArtifactWorkView::Print(lines),
            ) && lines.len() == c.artifacts.len() && forall|i: int|
                0 <= i < lines.len() ==> #[trigger] lines[i] == c.artifacts[i].id,
            ArtifactCommand::Collect { artifact_id, date } => match artifact_work(c, command) {
                Ok(ArtifactWorkView::Work { artifact, date: on, collect, render, sink }) => 0
                    <= artifact < c.artifacts.len() && c.artifacts[artifact].id == artifact_id@
                    && on == date@ && collect && !render && !sink,
                Ok(_) => false,
                Err(_) => forall|i: int|
                    0 <= i < c.artifacts.len() ==> (#[trigger] c.artifacts[i]).id != artifact_id@,
            },
            ArtifactCommand::Render { artifact_id, date } => match artifact_work(c, command) {
                Ok(ArtifactWorkView::Work { artifact, date: on, collect, render, sink }) => 0
                    <= artifact < c.artifacts.len() && c.artifacts[artifact].id == artifact_id@
                    && on == date@ && !collect && render && !sink,
                Ok(_) => false,
                Err(_) => forall|i: int|
                    0 <= i < c.artifacts.len() ==> (#[trigger] c.artifacts[i]).id != artifact_id@,
            },
            ArtifactCommand::Sink { artifact_id, date } => match artifact_work(c, command) {
                Ok(ArtifactWorkView::Work { artifact, date: on, collect, render, sink }) => 0
                    <= artifact < c.artifacts.len() && c.artifacts[artifact].id == artifact_id@
                    && on == date@ && !collect && !render && sink,
                Ok(_) => false,
                Err(_) => forall|i: int|
                    0 <= i < c.artifacts.len() ==> (#[trigger] c.artifacts[i]).id != artifact_id@,
            },
            ArtifactCommand::Run { artifact_id, date } => match artifact_work(c, command) {
                Ok(ArtifactWorkView::Work { artifact, date: on, collect, render, sink }) => 0
                    <= artifact < c.artifacts.len() && c.artifacts[artifact].id == artifact_id@
                    && on == date@ && collect && render && sink,
                Ok(_) => false,
                Err(_) => forall|i: int|
                    0 <= i < c.artifacts.len() ==> (#[trigger] c.artifacts[i]).id != artifact_id@,
            },
        },
{
    match command {
        ArtifactCommand::Collect { artifact_id, date } => {
            lemma_workflow_position(c.artifacts, artifact_id@, 0);
        },
        ArtifactCommand::Render { artifact_id, date } => {
            lemma_workflow_position(c.artifacts, artifact_id@, 0);
        },
        ArtifactCommand::Sink { artifact_id, date } => {
            lemma_workflow_position(c.artifacts, artifact_id@, 0);
        },
        ArtifactCommand::Run { artifact_id, date } => {
            lemma_workflow_position(c.artifacts, artifact_id@, 0);
        },
        _ => {},
    }
}

// ---------------------------------------------------------------------------------------------
// Files and values
// ---------------------------------------------------------------------------------------------
/// The files of a run stand in the directory that the workflow has for the date, under fixed names.
#[verifier::rlimit(50)]
pub proof fn law_files_of_a_run(workdir: Seq<char>, date: CivilDate)
    ensures
        ({
            let p = run_paths(workdir, date);
            &&& p.run_dir == join(workdir, date_digits(date))
            &&& file_name(p.collectors_dir) == Some("collectors"@)
            &&& file_name(p.collect_file) == Some("records.jsonl"@)
            &&& file_name(p.collect_partial_file) == Some("records.jsonl.partial"@)
            &&& file_name(p.render_input_file) == Some("render-input.json"@)
            &&& file_name(p.render_file) == Some("rendered.json"@)
            &&& file_name(p.run_file) == Some("run.json"@)
            &&& same(directory_of(p.collectors_dir), p.run_dir)
            &&& same(directory_of(p.collect_file), p.run_dir)
            &&& same(directory_of(p.collect_partial_file), p.run_dir)
            &&& same(directory_of(p.render_input_file), p.run_dir)
            &&& same(directory_of(p.render_file), p.run_dir)
            &&& same(directory_of(p.run_file), p.run_dir)
        }),
{
    let dir = run_paths(workdir, date).run_dir;
    assert(plain_name("collectors"@)) by {
        reveal_strlit("collectors");
    }
    law_joined_names_stand_in_their_directory(dir, "collectors"@);
    assert(plain_name("records.jsonl"@)) by {
        reveal_strlit("records.jsonl");
    }
    law_joined_names_stand_in_their_directory(dir, "records.jsonl"@);
    assert(plain_name("records.jsonl.partial"@)) by {
        reveal_strlit("records.jsonl.partial");
    }
    law_joined_names_stand_in_their_directory(dir, "records.jsonl.partial"@);
    assert(plain_name("render-input.json"@)) by {
        reveal_strlit("render-input.json");
    }
    law_joined_names_stand_in_their_directory(dir, "render-input.json"@);
    assert(plain_name("rendered.json"@)) by {
        reveal_strlit("rendered.json");
    }
    law_joined_names_stand_in_their_directory(dir, "rendered.json"@);
    assert(plain_name("run.json"@)) by {
        reveal_strlit("run.json");
    }
    law_joined_names_stand_in_their_directory(dir, "run.json"@);
}

/// The id of a run is the instant of its start, to the second, and the start of a random text.
pub proof fn law_ids_of_runs(now: (int, int), random: Seq<char>)
    requires
        random.len() >= 8,
    ensures
        ({
            let at = formatted(now.0, now.1, "%Y%m%dT%H%M%SZ"@);
            let id = run_id_of(now, random);
            &&& id.len() == at.len() + 9
            &&& id.subrange(0, at.len() as int) == at
            &&& id[at.len() as int] == '-'
            &&& forall|i: int| 0 <= i < 8 ==> #[trigger] id[at.len() + 1 + i] == random[i]
        }),
{
    reveal_strlit("-");
    let at = formatted(now.0, now.1, "%Y%m%dT%H%M%SZ"@);
    assert(run_id_of(now, random).subrange(0, at.len() as int) =~= at);
}

/// A run is for the date that was read, and there is none where none could be read.
pub proof fn law_dates_of_runs(input: Seq<char>, date: Result<CivilDate, Seq<char>>)
    ensures
        date matches Ok(d) ==> artifact_date(input, date) == Ok::<CivilDate, FailureView>(d),
        date matches Err(e) ==> artifact_date(input, date) is Err && artifact_date(
            input,
            date,
        )->Err_0.cause == Some(e),
{
}

/// A configuration of workflows is there exactly where it was read and parsed.
pub proof fn law_workflow_configurations_are_read(path: Seq<char>, read: ArtifactsRead)
    ensures
        artifacts_load_failure(path, read) is None <==> read is Parsed,
{
}

/// A command succeeded exactly where it ended with exit code 0; what it wrote of its errors is part
/// of the failure otherwise.
pub proof fn law_commands_succeed(output: CommandOutput)
    ensures
        command_end_failure(output) is None <==> output.exit == ProcessExit::Code(0),
        output.exit != ProcessExit::Code(0) ==> command_end_failure(output)->0.message
            == "command exited with "@ + output.status@ + ": "@ + output.stderr@,
{
}

/// The name of the host is what the environment says, and `unknown` where it says nothing.
pub proof fn law_host_names(variable: Option<Seq<char>>)
    ensures
        variable is Some && !blank(variable->0) ==> host_name(variable) == variable->0,
        variable is None || blank(variable->0) ==> host_name(variable) == "unknown"@,
{
}

/// The job of a collector has the values of its run, its own id, and a file of its own below the
/// directory of collectors; its command is that of the collector with these values filled in.
pub proof fn law_jobs_of_collectors(
    plan: CollectPlan,
    a: ArtifactView,
    date: CivilDate,
    run_id: Seq<char>,
    host: Seq<char>,
    started_at: (int, int),
    k: int,
)
    requires
        plans_collect(plan, a, date, run_id, host, started_at),
        0 <= k < plan.jobs@.len(),
    ensures
        plan.jobs@.len() == a.collectors.filter(|s: ArtifactStepView| s.enabled).len(),
        plan.date == date,
        plan.paths@ == run_paths(a.workdir, date),
        ({
            let collector = a.collectors.filter(|s: ArtifactStepView| s.enabled)[k];
            let job = plan.jobs@[k]@;
            let paths = run_paths(a.workdir, date);
            &&& job.collector_id == collector.id
            &&& job.output == join(paths.collectors_dir, collector.id + ".json"@)
            &&& job.command == resolved_command(collector.command, job.vars)
            &&& job.vars.artifact_id == a.id
            &&& job.vars.artifact_date == date_digits(date)
            &&& job.vars.run_id == run_id
            &&& job.vars.host == host
            &&& job.vars.run_dir == paths.run_dir
            &&& job.vars.collect_file == paths.collect_file
            &&& job.vars.render_input_file == paths.render_input_file
            &&& job.vars.render_file == paths.render_file
            &&& job.vars.collector_id == Some(collector.id)
            &&& job.vars.collector_output == Some(job.output)
        }),
{
    law_enabled_steps(a.collectors, a.collectors.len() as int);
    assert(a.collectors.subrange(0, a.collectors.len() as int) =~= a.collectors);
}

/// The steps that a run takes are the enabled ones, in their order.
pub proof fn law_enabled_steps(list: Seq<ArtifactStepView>, n: int)
    requires
        0 <= n <= list.len(),
    ensures
        enabled_steps(list, n) == list.subrange(0, n).filter(|s: ArtifactStepView| s.enabled),
        pending_steps(list, n).len() == enabled_steps(list, n).len(),
        forall|k: int|
            0 <= k < pending_steps(list, n).len() ==> (#[trigger] pending_steps(list, n)[k])
                == (StepStatusView { id: enabled_steps(list, n)[k].id, status: "pending"@ }),
    decreases n,
{
    let enabled = |s: ArtifactStepView| s.enabled;
    let all = list.subrange(0, n);
    reveal(Seq::filter);
    if n > 0 {
        law_enabled_steps(list, n - 1);
        assert(all.drop_last() =~= list.subrange(0, n - 1));
        assert(all.last() == list[n - 1]);
    } else {
        assert(all.filter(enabled) =~= Seq::empty());
    }
}

/// Templates get each value under its own name; those of collectors only where there is one.
#[verifier::rlimit(50)]
pub proof fn law_values_have_their_names(v: VarsView)
    ensures
        ({
            let m = var_map(v);
            &&& m.dom().contains("artifact_id"@) && m["artifact_id"@] == v.artifact_id
            &&& m.dom().contains("artifact_date"@) && m["artifact_date"@] == v.artifact_date
            &&& m.dom().contains("run_id"@) && m["run_id"@] == v.run_id
            &&& m.dom().contains("run_dir"@) && m["run_dir"@] == v.run_dir
            &&& m.dom().contains("collect_file"@) && m["collect_file"@] == v.collect_file
            &&& m.dom().contains("render_input_file"@) && m["render_input_file"@]
                == v.render_input_file
            &&& m.dom().contains("render_file"@) && m["render_file"@] == v.render_file
            &&& m.dom().contains("host"@) && m["host"@] == v.host
            &&& m.dom().contains("collector_id"@) <==> v.collector_id is Some
            &&& v.collector_id is Some ==> m["collector_id"@] == v.collector_id->0
            &&& m.dom().contains("collector_output"@) <==> v.collector_output is Some
            &&& v.collector_output is Some ==> m["collector_output"@] == v.collector_output->0
        }),
{
    reveal_strlit("artifact_id");
    reveal_strlit("artifact_date");
    reveal_strlit("run_id");
    reveal_strlit("run_dir");
    reveal_strlit("collect_file");
    reveal_strlit("render_input_file");
    reveal_strlit("render_file");
    reveal_strlit("host");
    reveal_strlit("collector_id");
    reveal_strlit("collector_output");
    assert("artifact_id"@.len() == 11 && "artifact_date"@.len() == 13 && "run_id"@.len() == 6);
    assert("run_dir"@.len() == 7 && "collect_file"@.len() == 12 && "host"@.len() == 4);
    assert("render_input_file"@.len() == 17 && "render_file"@.len() == 11);
    assert("collector_id"@.len() == 12 && "collector_output"@.len() == 16);
    assert("artifact_id"@[0] != "render_file"@[0]);
    assert("collect_file"@[7] != "collector_id"@[7]);
}

/// A command of a run gets each value in a variable of its own, whatever its own variables say, and
/// its other variables stay.
#[verifier::rlimit(50)]
pub proof fn law_commands_are_told_of_their_run(
    env: Map<Seq<char>, Seq<char>>,
    v: VarsView,
    name: Seq<char>,
)
    ensures
        ({
            let m = with_run_env(env, v);
            &&& m.dom().contains("ARTIFACT_ID"@) && m["ARTIFACT_ID"@] == v.artifact_id
            &&& m.dom().contains("ARTIFACT_DATE"@) && m["ARTIFACT_DATE"@] == v.artifact_date
            &&& m.dom().contains("ARTIFACT_RUN_ID"@) && m["ARTIFACT_RUN_ID"@] == v.run_id
            &&& m.dom().contains("ARTIFACT_RUN_DIR"@) && m["ARTIFACT_RUN_DIR"@] == v.run_dir
            &&& m.dom().contains("ARTIFACT_COLLECT_FILE"@) && m["ARTIFACT_COLLECT_FILE"@]
                == v.collect_file
            &&& m.dom().contains("ARTIFACT_RENDER_INPUT_FILE"@)
                && m["ARTIFACT_RENDER_INPUT_FILE"@] == v.render_input_file
            &&& m.dom().contains("ARTIFACT_RENDER_FILE"@) && m["ARTIFACT_RENDER_FILE"@]
                == v.render_file
            &&& m.dom().contains("ARTIFACT_HOST"@) && m["ARTIFACT_HOST"@] == v.host
            &&& v.collector_id is Some ==> m.dom().contains("ARTIFACT_COLLECTOR_ID"@)
                && m["ARTIFACT_COLLECTOR_ID"@] == v.collector_id->0
            &&& v.collector_output is Some ==> m.dom().contains("ARTIFACT_COLLECTOR_OUTPUT"@)
                && m["ARTIFACT_COLLECTOR_OUTPUT"@] == v.collector_output->0
            &&& env.dom().contains(name) ==> m.dom().contains(name)
            &&& env.dom().contains(name) && name != "ARTIFACT_ID"@ && name != "ARTIFACT_DATE"@
                && name != "ARTIFACT_RUN_ID"@ && name != "ARTIFACT_RUN_DIR"@ && name
                != "ARTIFACT_COLLECT_FILE"@ && name != "ARTIFACT_RENDER_INPUT_FILE"@ && name
                != "ARTIFACT_RENDER_FILE"@ && name != "ARTIFACT_HOST"@ && name
                != "ARTIFACT_COLLECTOR_ID"@ && name != "ARTIFACT_COLLECTOR_OUTPUT"@ ==> m[name]
                == env[name]
        }),
{
    reveal_strlit("ARTIFACT_ID");
    reveal_strlit("ARTIFACT_DATE");
    reveal_strlit("ARTIFACT_RUN_ID");
    reveal_strlit("ARTIFACT_RUN_DIR");
    reveal_strlit("ARTIFACT_COLLECT_FILE");
    reveal_strlit("ARTIFACT_RENDER_INPUT_FILE");
    reveal_strlit("ARTIFACT_RENDER_FILE");
    reveal_strlit("ARTIFACT_HOST");
    reveal_strlit("ARTIFACT_COLLECTOR_ID");
    reveal_strlit("ARTIFACT_COLLECTOR_OUTPUT");
    assert("ARTIFACT_ID"@.len() == 11 && "ARTIFACT_DATE"@.len() == 13);
    assert("ARTIFACT_RUN_ID"@.len() == 15 && "ARTIFACT_RUN_DIR"@.len() == 16);
    assert("ARTIFACT_COLLECT_FILE"@.len() == 21 && "ARTIFACT_RENDER_INPUT_FILE"@.len() == 26);
    assert("ARTIFACT_RENDER_FILE"@.len() == 20 && "ARTIFACT_HOST"@.len() == 13);
    assert("ARTIFACT_COLLECTOR_ID"@.len() == 21 && "ARTIFACT_COLLECTOR_OUTPUT"@.len() == 25);
    assert("ARTIFACT_DATE"@[9] != "ARTIFACT_HOST"@[9]);
    assert("ARTIFACT_COLLECT_FILE"@[16] != "ARTIFACT_COLLECTOR_ID"@[16]);
}

proof fn lemma_args_one_by_one(
    args: Seq<Seq<char>>,
    values: Map<Seq<char>, Seq<char>>,
    n: int,
)
    requires
        0 <= n <= args.len(),
        resolved_args(args, values, n) is Ok,
    ensures
        resolved_args(args, values, n)->Ok_0.len() == n,
        forall|i: int|
            0 <= i < n ==> resolved(args[i], values) == Ok::<Seq<char>, FailureView>(
                #[trigger] resolved_args(args, values, n)->Ok_0[i],
            ),
    decreases n,
{
    if n > 0 {
        lemma_args_one_by_one(args, values, n - 1);
    }
}

proof fn lemma_variables_one_by_one(
    env: Seq<(Seq<char>, Seq<char>)>,
    values: Map<Seq<char>, Seq<char>>,
    n: int,
)
    requires
        0 <= n <= env.len(),
        resolved_env(env, values, n) is Ok,
        forall|i: int, k: int|
            0 <= i < k < env.len() ==> (#[trigger] env[i]).0 != (#[trigger] env[k]).0,
    ensures
        forall|i: int|
            0 <= i < n ==> resolved_env(env, values, n)->Ok_0.dom().contains(
                (#[trigger] env[i]).0,
            ) && resolved(env[i].1, values) == Ok::<Seq<char>, FailureView>(
                resolved_env(env, values, n)->Ok_0[env[i].0],
            ),
    decreases n,
{
    if n > 0 {
        lemma_variables_one_by_one(env, values, n - 1);
    }
}

proof fn lemma_args_succeed(args: Seq<Seq<char>>, values: Map<Seq<char>, Seq<char>>, n: int)
    requires
        0 <= n <= args.len(),
    ensures
        resolved_args(args, values, n) is Ok <==> forall|i: int|
            0 <= i < n ==> resolved(#[trigger] args[i], values) is Ok,
    decreases n,
{
    if n > 0 {
        lemma_args_succeed(args, values, n - 1);
    }
}

proof fn lemma_variables_succeed(
    env: Seq<(Seq<char>, Seq<char>)>,
    values: Map<Seq<char>, Seq<char>>,
    n: int,
)
    requires
        0 <= n <= env.len(),
    ensures
        resolved_env(env, values, n) is Ok <==> forall|i: int|
            0 <= i < n ==> resolved((#[trigger] env[i]).1, values) is Ok,
    decreases n,
{
    if n > 0 {
        lemma_variables_succeed(env, values, n - 1);
    }
}

/// A command can be filled in exactly where each of its texts can.
pub proof fn law_commands_can_be_filled_in(c: ArtifactCommandView, v: VarsView)
    ensures
        resolved_command(c, v) is Ok <==> {
            &&& resolved(c.program, var_map(v)) is Ok
            &&& forall|i: int|
                0 <= i < c.args.len() ==> resolved(#[trigger] c.args[i], var_map(v)) is Ok
            &&& c.workdir is Some ==> resolved(c.workdir->0, var_map(v)) is Ok
            &&& forall|i: int|
                0 <= i < c.env.len() ==> resolved((#[trigger] c.env[i]).1, var_map(v)) is Ok
        },
{
    lemma_args_succeed(c.args, var_map(v), c.args.len() as int);
    lemma_variables_succeed(c.env, var_map(v), c.env.len() as int);
}

/// A command that can be filled in has its program, each of its arguments, its directory and each
/// of its variables filled in with the values of the run, one for one.
pub proof fn law_commands_are_filled_in_piece_by_piece(c: ArtifactCommandView, v: VarsView)
    requires
        resolved_command(c, v) is Ok,
        forall|i: int, k: int|
            0 <= i < k < c.env.len() ==> (#[trigger] c.env[i]).0 != (#[trigger] c.env[k]).0,
    ensures
        ({
            let r = resolved_command(c, v)->Ok_0;
            let values = var_map(v);
            &&& resolved(c.program, values) == Ok::<Seq<char>, FailureView>(r.program)
            &&& r.args.len() == c.args.len()
            &&& forall|i: int|
                0 <= i < c.args.len() ==> resolved(c.args[i], values) == Ok::<
                    Seq<char>,
                    FailureView,
                >(#[trigger] r.args[i])
            &&& r.workdir is Some <==> c.workdir is Some
            &&& c.workdir is Some ==> resolved(c.workdir->0, values) == Ok::<
                Seq<char>,
                FailureView,
            >(r.workdir->0)
            &&& exists|own: Map<Seq<char>, Seq<char>>|
                r.env == #[trigger] with_run_env(own, v) && forall|i: int|
                    0 <= i < c.env.len() ==> own.dom().contains((#[trigger] c.env[i]).0)
                        && resolved(c.env[i].1, values) == Ok::<Seq<char>, FailureView>(
                        own[c.env[i].0],
                    )
        }),
{
    let values = var_map(v);
    lemma_args_one_by_one(c.args, values, c.args.len() as int);
    lemma_variables_one_by_one(c.env, values, c.env.len() as int);
    let own = resolved_env(c.env, values, c.env.len() as int)->Ok_0;
    assert(resolved_command(c, v)->Ok_0.env == with_run_env(own, v));
}

// ---------------------------------------------------------------------------------------------
// Collecting
// ---------------------------------------------------------------------------------------------
/// A run starts with nothing done: it is running, and its enabled steps are pending.
pub proof fn law_runs_start_with_nothing_done(
    a: ArtifactView,
    date: CivilDate,
    run_id: Seq<char>,
    host: Seq<char>,
    started_at: (int, int),
)
    ensures
        ({
            let paths = run_paths(a.workdir, date);
            let run = started_run(a, date, run_id, host, paths, started_at);
            let due = a.collectors.filter(|s: ArtifactStepView| s.enabled);
            let ends = a.sinks.filter(|s: ArtifactStepView| s.enabled);
            &&& run.schema_version == 1
            &&& run.artifact_id == a.id
            &&& run.artifact_date == date_digits(date)
            &&& run.run_id == run_id
            &&& run.host == host
            &&& run.timezone == a.timezone
            &&& run.started_at == started_at
            &&& run.finished_at is None
            &&& run.status == "running"@
            &&& run.records == paths.collect_file
            &&& run.render_input == paths.render_input_file
            &&& run.rendered == paths.render_file
            &&& run.renderer.id == "renderer"@ && run.renderer.status == "pending"@
            &&& run.collectors.len() == due.len()
            &&& forall|k: int|
                0 <= k < due.len() ==> (#[trigger] run.collectors[k]).id == due[k].id
                    && run.collectors[k].status == "pending"@
            &&& run.sinks.len() == ends.len()
            &&& forall|k: int|
                0 <= k < ends.len() ==> (#[trigger] run.sinks[k]).id == ends[k].id
                    && run.sinks[k].status == "pending"@
        }),
{
    law_enabled_steps(a.collectors, a.collectors.len() as int);
    law_enabled_steps(a.sinks, a.sinks.len() as int);
    assert(a.collectors.subrange(0, a.collectors.len() as int) =~= a.collectors);
    assert(a.sinks.subrange(0, a.sinks.len() as int) =~= a.sinks);
}

/// The record of a collector says whose it is and when it was made. It is what the collector left
/// exactly where the collector ended with exit code 0 and what it left is accepted; otherwise it is
/// a record in error whose payload says what went wrong.
pub proof fn law_collectors_leave_records(
    v: VarsView,
    collector_id: Seq<char>,
    output: CommandOutput,
    loaded: Result<RecordInputView, FailureView>,
    collected_at: (int, int),
)
    ensures
        ({
            let r = collector_record(v, collector_id, output, loaded, collected_at);
            let kept = output.exit == ProcessExit::Code(0) && loaded is Ok && input_failure(
                loaded->Ok_0,
            ) is None;
            &&& r.schema_version == 1
            &&& r.artifact_id == v.artifact_id
            &&& r.artifact_date == v.artifact_date
            &&& r.run_id == v.run_id
            &&& r.collector_id == collector_id
            &&& r.host == v.host
            &&& r.collected_at == collected_at
            &&& kept ==> r.status == loaded->Ok_0.status && r.summary == loaded->Ok_0.summary
                && r.content_type == loaded->Ok_0.content_type && r.payload
                == loaded->Ok_0.payload
            &&& !kept ==> r.status == "error"@ && r.content_type == "application/json"@
            &&& output.exit matches ProcessExit::Code(code) ==> code != 0 ==> r.summary
                == "collector exited with "@ + ("code "@ + signed_decimal(code as int))
            &&& !(output.exit is Code) ==> r.summary == "collector exited with "@ + "signal"@
            &&& output.exit == ProcessExit::Code(0) && loaded is Err ==> r.summary
                == "collector output missing or unreadable: "@ + full_text(loaded->Err_0)
            &&& output.exit == ProcessExit::Code(0) && loaded is Ok && input_failure(loaded->Ok_0)
                is Some ==> r.summary == "collector output schema invalid: "@ + full_text(
                input_failure(loaded->Ok_0)->0,
            )
        }),
{
}

/// The payload of a collector that did not succeed holds its exit code, where it has one, and what
/// it wrote; that of one whose output cannot be used says why.
pub proof fn law_payloads_say_what_went_wrong(
    v: VarsView,
    collector_id: Seq<char>,
    output: CommandOutput,
    loaded: Result<RecordInputView, FailureView>,
    collected_at: (int, int),
)
    ensures
        ({
            let payload = collector_record(v, collector_id, output, loaded, collected_at).payload;
            &&& output.exit != ProcessExit::Code(0) ==> payload is Object && payload->Object_0.len()
                == 1 && payload->Object_0[0].0 == "error"@ && payload->Object_0[0].1 is Object && ({
                let told = payload->Object_0[0].1->Object_0;
                &&& told.len() == 4
                &&& told[0] == ("kind"@, JsonView::Text("command_failed"@))
                &&& told[1].0 == "exit_code"@
                &&& output.exit matches ProcessExit::Code(code) ==> told[1].1 == JsonView::Number(
                    signed_decimal(code as int),
                )
                &&& !(output.exit is Code) ==> told[1].1 is Null
                &&& told[2] == ("stdout"@, JsonView::Text(output.stdout@))
                &&& told[3] == ("stderr"@, JsonView::Text(output.stderr@))
            })
            &&& output.exit == ProcessExit::Code(0) && (loaded is Err || input_failure(loaded->Ok_0)
                is Some) ==> payload is Object && payload->Object_0.len() == 1
                && payload->Object_0[0].0 == "error"@ && payload->Object_0[0].1 is Object && ({
                let told = payload->Object_0[0].1->Object_0;
                &&& told.len() == 2
                &&& told[0] == (
                    "kind"@,
                    JsonView::Text(
                        if loaded is Err {
                            "output_missing"@
                        } else {
                            "schema_invalid"@
                        },
                    ),
                )
                &&& told[1] == (
                    "message"@,
                    JsonView::Text(
                        if loaded is Err {
                            loaded->Err_0.message
                        } else {
                            input_failure(loaded->Ok_0)->0.message
                        },
                    ),
                )
            })
        }),
{
}

proof fn lemma_contribution(outcomes: Seq<CollectedView>, id: Seq<char>, i: int)
    requires
        0 <= i <= outcomes.len(),
    ensures
        match contribution(outcomes, id, i) {
            Some(c) => exists|k: int|
                i <= k < outcomes.len() && #[trigger] outcomes[k] == c && c.collector_id == id,
            None => forall|k: int|
                i <= k < outcomes.len() ==> (#[trigger] outcomes[k]).collector_id != id,
        },
    decreases outcomes.len() - i,
{
    if i < outcomes.len() && outcomes[i].collector_id != id {
        lemma_contribution(outcomes, id, i + 1);
    }
}

proof fn lemma_statuses(list: Seq<StepStatusView>, outcomes: Seq<CollectedView>, n: int)
    requires
        0 <= n <= list.len(),
    ensures
        with_statuses(list, outcomes, n) is Err ==> exists|i: int|
            0 <= i < n && forall|k: int|
                0 <= k < outcomes.len() ==> (#[trigger] outcomes[k]).collector_id != (
                #[trigger] list[i]).id,
        with_statuses(list, outcomes, n) is Ok ==> ({
            let done = with_statuses(list, outcomes, n)->Ok_0;
            &&& done.len() == n
            &&& forall|i: int|
                0 <= i < n ==> (#[trigger] done[i]).id == list[i].id && contribution(
                    outcomes,
                    list[i].id,
                    0,
                ) is Some && done[i].status == contribution(
                    outcomes,
                    list[i].id,
                    0,
                )->0.record.status
        }),
    decreases n,
{
    if n > 0 {
        lemma_statuses(list, outcomes, n - 1);
        lemma_contribution(outcomes, list[n - 1].id, 0);
        if with_statuses(list, outcomes, n - 1) is Err {
            let i = choose|i: int|
                0 <= i < n - 1 && forall|k: int|
                    0 <= k < outcomes.len() ==> (#[trigger] outcomes[k]).collector_id != (
                    #[trigger] list[i]).id;
            assert(list[i].id == list[i].id);
        } else if contribution(outcomes, list[n - 1].id, 0) is None {
            assert(list[n - 1].id == list[n - 1].id);
        }
    }
}

/// Collecting succeeds only where a record is all right and each collector of the run has one; each
/// collector then has the status of its record. The run is a success exactly where all records are
/// all right, and otherwise a partial success. Nothing else but the time of its end changes.
#[verifier::rlimit(50)]
pub proof fn law_collecting_decides_the_status(
    run: RunFileView,
    artifact_id: Seq<char>,
    outcomes: Seq<CollectedView>,
    finished_at: (int, int),
)
    ensures
        (forall|k: int|
            0 <= k < outcomes.len() ==> (#[trigger] outcomes[k]).record.status != "ok"@)
            ==> collected_run(run, artifact_id, outcomes, finished_at) is Err,
        (exists|k: int|
            0 <= k < outcomes.len() && (#[trigger] outcomes[k]).record.status == "ok"@) && (
        forall|i: int|
            0 <= i < run.collectors.len() ==> exists|k: int|
                0 <= k < outcomes.len() && (#[trigger] outcomes[k]).collector_id == (
                #[trigger] run.collectors[i]).id) ==> collected_run(
            run,
            artifact_id,
            outcomes,
            finished_at,
        ) is Ok,
        collected_run(run, artifact_id, outcomes, finished_at) is Ok ==> ({
            let done = collected_run(run, artifact_id, outcomes, finished_at)->Ok_0;
            &&& done == (RunFileView {
                collectors: done.collectors,
                status: done.status,
                finished_at: Some(finished_at),
                ..run
            })
            &&& (forall|k: int|
                0 <= k < outcomes.len() ==> (#[trigger] outcomes[k]).record.status == "ok"@)
                ==> done.status == "success"@
            &&& (exists|k: int|
                0 <= k < outcomes.len() && (#[trigger] outcomes[k]).record.status != "ok"@)
                ==> done.status == "partial_success"@
            &&& done.collectors.len() == run.collectors.len()
            &&& forall|i: int, k: int|
                0 <= i < run.collectors.len() && 0 <= k < outcomes.len()
                    && outcomes[k].collector_id == run.collectors[i].id && (forall|m: int|
                    0 <= m < outcomes.len() && m != k ==> (#[trigger] outcomes[m]).collector_id
                        != run.collectors[i].id) ==> (#[trigger] done.collectors[i]).id
                    == run.collectors[i].id && done.collectors[i].status == (
                #[trigger] outcomes[k]).record.status
        }),
{
    let r = collected_run(run, artifact_id, outcomes, finished_at);
    lemma_statuses(run.collectors, outcomes, run.collectors.len() as int);
    if r is Ok {
        let done = r->Ok_0;
        assert forall|i: int, k: int|
            0 <= i < run.collectors.len() && 0 <= k < outcomes.len() && outcomes[k].collector_id
                == run.collectors[i].id && (forall|m: int|
                0 <= m < outcomes.len() && m != k ==> (#[trigger] outcomes[m]).collector_id
                    != run.collectors[i].id) implies (#[trigger] done.collectors[i]).id
            == run.collectors[i].id && done.collectors[i].status == (
        #[trigger] outcomes[k]).record.status by {
            lemma_contribution(outcomes, run.collectors[i].id, 0);
            let c = contribution(outcomes, run.collectors[i].id, 0)->0;
            let m = choose|m: int|
                0 <= m < outcomes.len() && #[trigger] outcomes[m] == c && c.collector_id
                    == run.collectors[i].id;
            assert(outcomes[m].collector_id == run.collectors[i].id);
            assert(m == k);
        }
    }
}

/// No contribution is lost exactly where each worker handed one in, and all of them count.
pub proof fn law_contributions_are_handed_in(results: Seq<Option<CollectorExecutionOutcome>>)
    ensures
        none_lost(results) <==> forall|i: int| 0 <= i < results.len() ==> (#[trigger] results[i])
            is Some,
        contributions(results).len() == results.len(),
        forall|i: int|
            0 <= i < results.len() && (#[trigger] results[i]) is Some ==> contributions(results)[i]
                == results[i]->0,
{
}

/// Contributions are put in the order of their collectors, none lost and none added.
pub proof fn law_contributions_are_sorted(all: Seq<CollectorExecutionOutcome>)
    ensures
        ({
            let r = sorted(all, all.len() as int);
            &&& r.len() == all.len()
            &&& r.to_multiset() == all.to_multiset()
            &&& forall|i: int, k: int|
                0 <= i < k < r.len() ==> !crate::order::before(
                    (#[trigger] r[k]).collector_id@,
                    (#[trigger] r[i]).collector_id@,
                )
        }),
{
    crate::sorting::law_sorted(all, all.len() as int);
    assert(all.subrange(0, all.len() as int) =~= all);
    let r = sorted(all, all.len() as int);
    assert forall|i: int, k: int| 0 <= i < k < r.len() implies !crate::order::before(
        (#[trigger] r[k]).collector_id@,
        (#[trigger] r[i]).collector_id@,
    ) by {
        assert(!crate::order::before(
            crate::sorting::Keyed::key_of(&r[k]),
            crate::sorting::Keyed::key_of(&r[i]),
        ));
    }
}

/// The records of a file are those on its lines that are not blank, one for one and in their order,
/// and all of them are accepted; the file is refused exactly where a line cannot be read or
/// a line that is not blank holds no accepted record.
#[verifier::rlimit(50)]
pub proof fn law_records_are_read(lines: Seq<RecordLine>, path: Seq<char>, n: int)
    requires
        0 <= n <= lines.len(),
    ensures
        records_read(lines, path, n) is Ok <==> forall|i: int|
            0 <= i < n ==> match #[trigger] lines[i] {
                RecordLine::Unreadable(_) => false,
                RecordLine::Text { text, parsed } => blank(text@) || (parsed is Ok
                    && record_failure(parsed->Ok_0@) is None),
            },
        records_read(lines, path, n) is Ok ==> ({
            let records = records_read(lines, path, n)->Ok_0;
            &&& records.len() == lines.subrange(0, n).filter(
                |l: RecordLine| l is Text && !blank(l->text@),
            ).len()
            &&& forall|k: int|
                0 <= k < records.len() ==> record_failure(#[trigger] records[k]) is None
            &&& forall|k: int|
                0 <= k < records.len() ==> #[trigger] records[k] == lines.subrange(0, n).filter(
                    |l: RecordLine| l is Text && !blank(l->text@),
                )[k]->parsed->Ok_0@
            &&& forall|i: int|
                0 <= i < n && lines[i] is Text && !blank((#[trigger] lines[i])->text@)
                    ==> records.contains(lines[i]->parsed->Ok_0@)
        }),
    decreases n,
{
    let filled = |l: RecordLine| l is Text && !blank(l->text@);
    let all = lines.subrange(0, n);
    reveal(Seq::filter);
    if n > 0 {
        law_records_are_read(lines, path, n - 1);
        assert(all.drop_last() =~= lines.subrange(0, n - 1));
        assert(all.last() == lines[n - 1]);
        if records_read(lines, path, n) is Ok {
            let rest = records_read(lines, path, n - 1)->Ok_0;
            let records = records_read(lines, path, n)->Ok_0;
            assert forall|i: int|
                0 <= i < n && lines[i] is Text && !blank(
                    (#[trigger] lines[i])->text@,
                ) implies records.contains(lines[i]->parsed->Ok_0@) by {
                if i < n - 1 {
                    assert(rest.contains(lines[i]->parsed->Ok_0@));
                    let k = choose|k: int|
                        0 <= k < rest.len() && rest[k] == lines[i]->parsed->Ok_0@;
                    assert(records[k] == rest[k]);
                } else {
                    assert(records[records.len() - 1] == lines[i]->parsed->Ok_0@);
                }
            }
        }
        if forall|i: int|
            0 <= i < n ==> match #[trigger] lines[i] {
                RecordLine::Unreadable(_) => false,
                RecordLine::Text { text, parsed } => blank(text@) || (parsed is Ok
                    && record_failure(parsed->Ok_0@) is None),
            } {
            assert(records_read(lines, path, n - 1) is Ok);
            let l = lines[n - 1];
        }
    } else {
        assert(all.filter(filled) =~= Seq::empty());
    }
}

/// The input of a renderer says whose run it is and holds its records by ascending collector, none
/// lost and none added.
pub proof fn law_inputs_of_renderers(
    d: RenderInputDocument,
    a: ArtifactView,
    artifact_date: Seq<char>,
    run_id: Seq<char>,
    host: Seq<char>,
    generated_at: (int, int),
    records: Seq<ArtifactRecord>,
)
    requires
        describes(d, a, artifact_date, run_id, host, generated_at, records),
    ensures
        d.schema_version == 1,
        d.artifact_id@ == a.id,
        d.artifact_date@ == artifact_date,
        d.run_id@ == run_id,
        d.host@ == host,
        d.timezone@ == a.timezone,
        d.generated_at@ == generated_at,
        d.records@.to_multiset() == records.to_multiset(),
        d.meta.record_count == records.len(),
        counts(
            d.meta.status_counts.pairs(),
            Seq::new(d.records@.len(), |i: int| d.records@[i].status@),
        ),
        forall|i: int, k: int|
            0 <= i < k < d.records@.len() ==> !crate::order::before(
                (#[trigger] d.records@[k]).collector_id@,
                (#[trigger] d.records@[i]).collector_id@,
            ),
{
    crate::sorting::law_sorted(records, records.len() as int);
    assert(record_statuses(artifact_record_views(d.records@)) =~= Seq::new(
        d.records@.len(),
        |i: int| d.records@[i].status@,
    ));
    assert(records.subrange(0, records.len() as int) =~= records);
    assert forall|i: int, k: int| 0 <= i < k < d.records@.len() implies !crate::order::before(
        (#[trigger] d.records@[k]).collector_id@,
        (#[trigger] d.records@[i]).collector_id@,
    ) by {
        assert(!crate::order::before(
            crate::sorting::Keyed::key_of(&d.records@[k]),
            crate::sorting::Keyed::key_of(&d.records@[i]),
        ));
    }
}

// ---------------------------------------------------------------------------------------------
// Rendering
// ---------------------------------------------------------------------------------------------
/// After rendering, a run is a success only where it was one and the artifact is all right. A run
/// that was a success is a partial success where the artifact is not, any other run has failed where
/// the artifact is in error, and keeps its status otherwise. The renderer has the status of the
/// artifact, and nothing else changes. An artifact that is not accepted is a failure.
pub proof fn law_rendering_decides_the_status(run: RunFileView, rendered: RenderedView)
    ensures
        rendered_run(run, rendered) is Err <==> rendered_failure(rendered) is Some,
        rendered_run(run, rendered) is Ok ==> ({
            let done = rendered_run(run, rendered)->Ok_0;
            &&& run.status == "success"@ && rendered.status == "ok"@ ==> done.status == "success"@
            &&& run.status == "success"@ && rendered.status == "warn"@ ==> done.status
                == "partial_success"@
            &&& run.status == "success"@ && rendered.status == "error"@ ==> done.status
                == "partial_success"@
            &&& run.status != "success"@ && rendered.status == "error"@ ==> done.status
                == "failed"@
            &&& run.status != "success"@ && (rendered.status == "ok"@ || rendered.status
                == "warn"@) ==> done.status == run.status
            &&& done.status == "success"@ ==> run.status == "success"@ && rendered.status == "ok"@
            &&& done.renderer.id == run.renderer.id
            &&& done.renderer.status == rendered.status
            &&& done == (RunFileView { status: done.status, renderer: done.renderer, ..run })
        }),
{
    reveal_strlit("ok");
    reveal_strlit("warn");
    reveal_strlit("error");
    reveal_strlit("success");
    reveal_strlit("partial_success");
    reveal_strlit("failed");
    assert("ok"@.len() == 2 && "warn"@.len() == 4 && "error"@.len() == 5);
    assert("success"@.len() == 7 && "partial_success"@.len() == 15 && "failed"@.len() == 6);
}

/// A renderer that runs is noted as running, and nothing else changes.
pub proof fn law_renderers_are_noted(run: RunFileView, status: Seq<char>)
    ensures
        with_renderer(run, status).renderer.status == status,
        with_renderer(run, status).renderer.id == run.renderer.id,
        with_renderer(run, status) == (RunFileView {
            renderer: with_renderer(run, status).renderer,
            ..run
        }),
{
}

// ---------------------------------------------------------------------------------------------
// Delivering
// ---------------------------------------------------------------------------------------------
proof fn lemma_sink_position(sinks: Seq<ArtifactStepView>, id: Seq<char>, i: int)
    requires
        0 <= i <= sinks.len(),
    ensures
        match sink_position(sinks, id, i) {
            Some(k) => i <= k < sinks.len() && sinks[k].id == id,
            None => forall|m: int| i <= m < sinks.len() ==> (#[trigger] sinks[m]).id != id,
        },
    decreases sinks.len() - i,
{
    if i < sinks.len() && sinks[i].id != id {
        lemma_sink_position(sinks, id, i + 1);
    }
}

/// A delivery turns to the sinks of a run in order: the next one to run is enabled in the workflow
/// under its id and is noted as running, those passed over are disabled there and noted so, and a
/// sink that the workflow does not know ends the delivery. Where none is left, a run that is still
/// going is a success, any other status stays, and the end is noted.
#[verifier::rlimit(50)]
pub proof fn law_deliveries_turn_to_sinks_in_order(
    a: ArtifactView,
    run: RunFileView,
    i: int,
    now: (int, int),
)
    requires
        0 <= i <= run.sinks.len(),
    ensures
        ({
            let (after, turn) = advanced(a, run, i, now);
            &&& after.sinks.len() == run.sinks.len()
            &&& forall|k: int|
                0 <= k < run.sinks.len() ==> (#[trigger] after.sinks[k]).id == run.sinks[k].id
            &&& forall|k: int| 0 <= k < i ==> #[trigger] after.sinks[k] == run.sinks[k]
            &&& match turn {
                SinkTurn::Run { at, sink } => {
                    &&& i <= at < run.sinks.len()
                    &&& 0 <= sink < a.sinks.len()
                    &&& a.sinks[sink].id == run.sinks[at].id
                    &&& a.sinks[sink].enabled
                    &&& after.sinks[at].status == "running"@
                    &&& forall|k: int|
                        i <= k < at ==> (#[trigger] after.sinks[k]).status == "disabled"@
                    &&& forall|k: int|
                        i <= k < at ==> exists|m: int|
                            0 <= m < a.sinks.len() && (#[trigger] a.sinks[m]).id == (
                            #[trigger] run.sinks[k]).id && !a.sinks[m].enabled
                    &&& forall|k: int|
                        at < k < run.sinks.len() ==> #[trigger] after.sinks[k] == run.sinks[k]
                    &&& after == (RunFileView { sinks: after.sinks, ..run })
                },
                SinkTurn::Done => {
                    &&& forall|k: int|
                        i <= k < run.sinks.len() ==> (#[trigger] after.sinks[k]).status
                            == "disabled"@
                    &&& forall|k: int|
                        i <= k < run.sinks.len() ==> exists|m: int|
                            0 <= m < a.sinks.len() && (#[trigger] a.sinks[m]).id == (
                            #[trigger] run.sinks[k]).id && !a.sinks[m].enabled
                    &&& run.status == "running"@ ==> after.status == "success"@
                    &&& run.status != "running"@ ==> after.status == run.status
                    &&& after == (RunFileView {
                        sinks: after.sinks,
                        status: after.status,
                        finished_at: Some(now),
                        ..run
                    })
                },
                SinkTurn::Failed(_) => false,
                SinkTurn::Unknown(_) => {
                    &&& exists|k: int|
                        i <= k < run.sinks.len() && forall|m: int|
                            0 <= m < a.sinks.len() ==> (#[trigger] a.sinks[m]).id != (
                            #[trigger] run.sinks[k]).id
                    &&& after == (RunFileView { sinks: after.sinks, ..run })
                },
            }
        }),
    decreases run.sinks.len() - i,
{
    if i < run.sinks.len() {
        lemma_sink_position(a.sinks, run.sinks[i].id, 0);
        let position = sink_position(a.sinks, run.sinks[i].id, 0);
        if position is None {
            assert(run.sinks[i].id == run.sinks[i].id);
        } else if !a.sinks[position->0].enabled {
            let next = crate::artifact_runfile::with_sink(run, i, "disabled"@);
            law_deliveries_turn_to_sinks_in_order(a, next, i + 1, now);
            let (after, turn) = advanced(a, next, i + 1, now);
            assert(advanced(a, run, i, now) == (after, turn));
            assert(after.sinks[i] == next.sinks[i]);
            assert forall|k: int| 0 <= k < run.sinks.len() implies (#[trigger] after.sinks[k]).id
                == run.sinks[k].id by {
                assert(next.sinks[k].id == run.sinks[k].id);
            }
            assert forall|k: int| 0 <= k < i implies #[trigger] after.sinks[k]
                == run.sinks[k] by {
                assert(next.sinks[k] == run.sinks[k]);
            }
            assert forall|k: int|
                i <= k < run.sinks.len() && (turn is Done || (turn is Run && k
                    < turn->at)) implies exists|m: int|
                0 <= m < a.sinks.len() && (#[trigger] a.sinks[m]).id == (#[trigger] run.sinks[k]).id
                    && !a.sinks[m].enabled by {
                if k == i {
                    assert(a.sinks[position->0].id == run.sinks[i].id);
                } else {
                    assert(next.sinks[k].id == run.sinks[k].id);
                    let m = choose|m: int|
                        0 <= m < a.sinks.len() && (#[trigger] a.sinks[m]).id == next.sinks[k].id
                            && !a.sinks[m].enabled;
                    assert(a.sinks[m].id == run.sinks[k].id);
                }
            }
            match turn {
                SinkTurn::Run { at, sink } => {
                    assert(next.sinks[at].id == run.sinks[at].id);
                    assert forall|k: int|
                        at < k < run.sinks.len() implies #[trigger] after.sinks[k]
                        == run.sinks[k] by {
                        assert(next.sinks[k] == run.sinks[k]);
                    }
                },
                SinkTurn::Unknown(_) => {
                    let k = choose|k: int|
                        i + 1 <= k < next.sinks.len() && forall|m: int|
                            0 <= m < a.sinks.len() ==> (#[trigger] a.sinks[m]).id != (
                            #[trigger] next.sinks[k]).id;
                    assert(run.sinks[k].id == next.sinks[k].id);
                },
                _ => {},
            }
        }
    }
}

/// A sink that failed ends the delivery with its failure and the run with it; one that delivered is
/// noted, and the delivery goes on behind it.
pub proof fn law_sinks_deliver_or_end_the_run(
    a: ArtifactView,
    run: RunFileView,
    at: int,
    failure: Option<FailureView>,
    now: (int, int),
)
    requires
        0 <= at < run.sinks.len(),
    ensures
        ({
            let (after, turn) = after_sink(a, run, at, failure, now);
            &&& failure is Some ==> {
                &&& turn == SinkTurn::Failed(
                    caused(
                        "sink '"@ + run.sinks[at].id + "' failed"@,
                        full_text(failure->0),
                    ),
                )
                &&& after.status == "failed"@
                &&& after.sinks.len() == run.sinks.len()
                &&& after.sinks[at].status == "error"@ && after.sinks[at].id == run.sinks[at].id
                &&& forall|k: int|
                    0 <= k < run.sinks.len() && k != at ==> #[trigger] after.sinks[k]
                        == run.sinks[k]
                &&& after == (RunFileView { sinks: after.sinks, status: after.status, ..run })
            }
            &&& failure is None ==> {
                &&& !(turn is Failed)
                &&& after.sinks.len() == run.sinks.len()
                &&& after.sinks[at].status == "ok"@ && after.sinks[at].id == run.sinks[at].id
                &&& forall|k: int| 0 <= k < at ==> #[trigger] after.sinks[k] == run.sinks[k]
                &&& turn matches SinkTurn::Run { at: next, sink } ==> at < next
            }
        }),
{
    if failure is None {
        let delivered = crate::artifact_runfile::with_sink(run, at, "ok"@);
        law_deliveries_turn_to_sinks_in_order(a, delivered, at + 1, now);
        let (after, turn) = advanced(a, delivered, at + 1, now);
        assert(after.sinks[at] == delivered.sinks[at]);
        assert forall|k: int| 0 <= k < at implies #[trigger] after.sinks[k] == run.sinks[k] by {
            assert(delivered.sinks[k] == run.sinks[k]);
        }
    }
}

} // verus!

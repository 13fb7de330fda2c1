//! What the views of the types of this library show: each part of a value, and all of it.

use vstd::prelude::*;

use crate::artifact_plan::CollectJob;
use crate::artifact_records::{ArtifactRecord, CollectorRecordInput, RenderedArtifact};
use crate::artifact_run::{
    ArtifactPaths, CollectorExecutionOutcome, ResolvedCommand, RuntimeTemplateVars,
};
use crate::artifact_runfile::{ArtifactRunFile, ArtifactRunStepStatus, SinkAction, SinkTurn};
use crate::artifacts::{
    ArtifactCollectorConfig, ArtifactCommandConfig, ArtifactConfig, ArtifactSinkConfig,
    ArtifactsConfig,
};
use crate::config::{
    AppConfig, CommandConfig, NotificationsConfig, NotifyResultSourceConfig, PiRendererConfig,
    ResultSourceView, ScheduleConfig, ScheduleView, TaskConfig, TaskNotifyConfig, WebhookConfig,
};
use crate::display::{TaskListItem, TaskOutcomeOutput};
use crate::failure::Failure;
use crate::history::{HistoryRecord, HistoryRow, SqlValue, SqlView, Statement};
use crate::notifications::NotificationRendererInput;
use crate::report::{DailyFailureSummary, DailyTaskSummary, ReportDay};
use crate::state::{RuntimeStateFile, TaskRuntimeState};
use crate::task_runner::{Launch, TaskStepResult};
use crate::text_map::{map_of, text_pairs};
use crate::scheduler::{JobPlan, JobView};
use crate::reload::ReloadPlan;
use crate::json::{json_fields, json_items, json_view, JsonValue, JsonView};

verus! {

/// The view of the job of a collector shows each of its parts.
pub proof fn law_view_of_job_of_a_collector(x: CollectJob)
    ensures
        x@.collector_id == x.collector_id@,
        x@.vars == x.vars@,
        x@.command is Ok <==> x.command is Ok,
        x.command is Ok ==> x@.command->Ok_0 == x.command->Ok_0@,
        x.command is Err ==> x@.command->Err_0 == x.command->Err_0@,
        x@.output == x.output@,
{
}

/// The view of what a collector leaves shows each of its parts.
pub proof fn law_view_of_output_of_a_collector(x: CollectorRecordInput)
    ensures
        x@.schema_version == x.schema_version,
        x@.status == x.status@,
        x@.summary == x.summary@,
        x@.content_type == x.content_type@,
        x@.payload == x.payload@,
{
}

/// The view of a record shows each of its parts.
pub proof fn law_view_of_record(x: ArtifactRecord)
    ensures
        x@.schema_version == x.schema_version,
        x@.artifact_id == x.artifact_id@,
        x@.artifact_date == x.artifact_date@,
        x@.run_id == x.run_id@,
        x@.collector_id == x.collector_id@,
        x@.host == x.host@,
        x@.collected_at == x.collected_at@,
        x@.status == x.status@,
        x@.summary == x.summary@,
        x@.content_type == x.content_type@,
        x@.payload == x.payload@,
{
}

/// The view of a rendered artifact shows each of its parts.
pub proof fn law_view_of_rendered_artifact(x: RenderedArtifact)
    ensures
        x@.schema_version == x.schema_version,
        x@.status == x.status@,
        x@.title == x.title@,
        x@.content_type == x.content_type@,
        x@.body == x.body@,
        x@.meta == x.meta@,
{
}

/// The view of the paths of a run shows each of its parts.
pub proof fn law_view_of_paths_of_a_run(x: ArtifactPaths)
    ensures
        x@.run_dir == x.run_dir@,
        x@.collectors_dir == x.collectors_dir@,
        x@.collect_file == x.collect_file@,
        x@.collect_partial_file == x.collect_partial_file@,
        x@.render_input_file == x.render_input_file@,
        x@.render_file == x.render_file@,
        x@.run_file == x.run_file@,
{
}

/// The view of the values of a run shows each of its parts.
pub proof fn law_view_of_values_of_a_run(x: RuntimeTemplateVars)
    ensures
        x@.artifact_id == x.artifact_id@,
        x@.artifact_date == x.artifact_date@,
        x@.run_id == x.run_id@,
        x@.run_dir == x.run_dir@,
        x@.collect_file == x.collect_file@,
        x@.render_input_file == x.render_input_file@,
        x@.render_file == x.render_file@,
        x@.collector_id is Some <==> x.collector_id is Some,
        x.collector_id is Some ==> x@.collector_id->0 == x.collector_id->0@,
        x@.collector_output is Some <==> x.collector_output is Some,
        x.collector_output is Some ==> x@.collector_output->0 == x.collector_output->0@,
        x@.host == x.host@,
{
}

/// The view of a command that was filled in shows each of its parts.
pub proof fn law_view_of_filled_in_command(x: ResolvedCommand)
    ensures
        x@.program == x.program@,
        x@.args.len() == x.args@.len(),
        forall|i: int|
            0 <= i < x.args@.len() ==> #[trigger] x@.args[i] == x.args@[i]@,
        x@.workdir is Some <==> x.workdir is Some,
        x.workdir is Some ==> x@.workdir->0 == x.workdir->0@,
        forall|k: Seq<char>| #[trigger]
            x@.env.dom().contains(k) <==> x.env@.dom().contains(k),
        forall|k: Seq<char>|
            x.env@.dom().contains(k) ==> #[trigger] x@.env[k] == x.env@[k]@,
{
}

/// The view of the contribution of a collector shows each of its parts.
pub proof fn law_view_of_contribution(x: CollectorExecutionOutcome)
    ensures
        x@.collector_id == x.collector_id@,
        x@.record == x.record@,
{
}

/// The view of a step of a run shows each of its parts.
pub proof fn law_view_of_step_of_a_run(x: ArtifactRunStepStatus)
    ensures
        x@.id == x.id@,
        x@.status == x.status@,
{
}

/// The view of the state of a run shows each of its parts.
pub proof fn law_view_of_run_file(x: ArtifactRunFile)
    ensures
        x@.schema_version == x.schema_version,
        x@.artifact_id == x.artifact_id@,
        x@.artifact_date == x.artifact_date@,
        x@.run_id == x.run_id@,
        x@.host == x.host@,
        x@.timezone == x.timezone@,
        x@.started_at == x.started_at@,
        x@.finished_at is Some <==> x.finished_at is Some,
        x.finished_at is Some ==> x@.finished_at->0 == x.finished_at->0@,
        x@.status == x.status@,
        x@.records == x.paths.records@,
        x@.render_input == x.paths.render_input@,
        x@.rendered == x.paths.rendered@,
        x@.collectors.len() == x.collectors@.len(),
        forall|i: int|
            0 <= i < x.collectors@.len() ==> #[trigger] x@.collectors[i] == x.collectors@[i]@,
        x@.renderer == x.renderer@,
        x@.sinks.len() == x.sinks@.len(),
        forall|i: int|
            0 <= i < x.sinks@.len() ==> #[trigger] x@.sinks[i] == x.sinks@[i]@,
{
}

/// The view of a command of a workflow shows each of its parts.
pub proof fn law_view_of_workflow_command(x: ArtifactCommandConfig)
    ensures
        x@.program == x.program@,
        x@.args.len() == x.args@.len(),
        forall|i: int|
            0 <= i < x.args@.len() ==> #[trigger] x@.args[i] == x.args@[i]@,
        x@.workdir is Some <==> x.workdir is Some,
        x.workdir is Some ==> x@.workdir->0 == x.workdir->0@,
        x@.env.len() == x.env.pairs().len(),
        forall|i: int|
            0 <= i < x.env.pairs().len() ==> (#[trigger] x@.env[i]).0 == x.env.pairs()[i].0 && x@.env[i].1
                == x.env.pairs()[i].1@,
{
}

/// The view of a collector shows each of its parts.
pub proof fn law_view_of_collector(x: ArtifactCollectorConfig)
    ensures
        x@.id == x.id@,
        x@.enabled == x.enabled,
        x@.command == x.command@,
{
}

/// The view of a sink shows each of its parts.
pub proof fn law_view_of_sink(x: ArtifactSinkConfig)
    ensures
        x@.id == x.id@,
        x@.enabled == x.enabled,
        x@.command == x.command@,
{
}

/// The view of a workflow shows each of its parts.
pub proof fn law_view_of_workflow(x: ArtifactConfig)
    ensures
        x@.id == x.id@,
        x@.timezone == x.timezone@,
        x@.workdir == x.workdir@,
        x@.collectors.len() == x.collectors@.len(),
        forall|i: int|
            0 <= i < x.collectors@.len() ==> #[trigger] x@.collectors[i] == x.collectors@[i]@,
        x@.renderer == x.renderer@,
        x@.sinks.len() == x.sinks@.len(),
        forall|i: int|
            0 <= i < x.sinks@.len() ==> #[trigger] x@.sinks[i] == x.sinks@[i]@,
{
}

/// The view of a configuration of workflows shows each of its parts.
pub proof fn law_view_of_workflows(x: ArtifactsConfig)
    ensures
        x@.version == x.version,
        x@.artifacts.len() == x.artifacts@.len(),
        forall|i: int|
            0 <= i < x.artifacts@.len() ==> #[trigger] x@.artifacts[i] == x.artifacts@[i]@,
{
}

/// The view of a command shows each of its parts.
pub proof fn law_view_of_command(x: CommandConfig)
    ensures
        x@.program == x.program@,
        x@.args.len() == x.args@.len(),
        forall|i: int|
            0 <= i < x.args@.len() ==> #[trigger] x@.args[i] == x.args@[i]@,
        x@.workdir is Some <==> x.workdir is Some,
        x.workdir is Some ==> x@.workdir->0 == x.workdir->0@,
        x@.timeout_seconds == x.timeout_seconds,
        x@.env.len() == x.env.pairs().len(),
        forall|i: int|
            0 <= i < x.env.pairs().len() ==> (#[trigger] x@.env[i]).0 == x.env.pairs()[i].0 && x@.env[i].1
                == x.env.pairs()[i].1@,
{
}

/// The view of a renderer shows each of its parts.
pub proof fn law_view_of_renderer(x: PiRendererConfig)
    ensures
        x@.program == x.program@,
        x@.workdir == x.workdir@,
        x@.prompt == x.prompt@,
        x@.timeout_seconds == x.timeout_seconds,
        x@.session_dir is Some <==> x.session_dir is Some,
        x.session_dir is Some ==> x@.session_dir->0 == x.session_dir->0@,
        x@.agent_dir is Some <==> x.agent_dir is Some,
        x.agent_dir is Some ==> x@.agent_dir->0 == x.agent_dir->0@,
        x@.provider is Some <==> x.provider is Some,
        x.provider is Some ==> x@.provider->0 == x.provider->0@,
        x@.model is Some <==> x.model is Some,
        x.model is Some ==> x@.model->0 == x.model->0@,
        x@.env.len() == x.env.pairs().len(),
        forall|i: int|
            0 <= i < x.env.pairs().len() ==> (#[trigger] x@.env[i]).0 == x.env.pairs()[i].0 && x@.env[i].1
                == x.env.pairs()[i].1@,
{
}

/// The view of a notification setting shows each of its parts.
pub proof fn law_view_of_notifications(x: NotificationsConfig)
    ensures
        x@.enabled == x.enabled,
        x@.renderer is Some <==> x.renderer is Some,
        x.renderer is Some ==> x@.renderer->0 == x.renderer->0@,
        x@.webhook is Some <==> x.webhook is Some,
        x.webhook is Some ==> x@.webhook->0 == x.webhook->0@,
{
}

/// The view of a task shows each of its parts.
pub proof fn law_view_of_task(x: TaskConfig)
    ensures
        x@.id == x.id@,
        x@.name == x.name@,
        x@.enabled == x.enabled,
        x@.concurrency == x.concurrency,
        x@.retry == x.retry,
        x@.schedule == x.schedule@,
        x@.notify is Some <==> x.notify is Some,
        x.notify is Some ==> x@.notify->0 == x.notify->0@,
        x@.command == x.command@,
{
}

/// The view of a configuration shows each of its parts.
pub proof fn law_view_of_configuration(x: AppConfig)
    ensures
        x@.version == x.version,
        x@.notifications is Some <==> x.notifications is Some,
        x.notifications is Some ==> x@.notifications->0 == x.notifications->0@,
        x@.tasks.len() == x.tasks@.len(),
        forall|i: int|
            0 <= i < x.tasks@.len() ==> #[trigger] x@.tasks[i] == x.tasks@[i]@,
{
}

/// The view of an item of a list shows each of its parts.
pub proof fn law_view_of_list_item(x: TaskListItem)
    ensures
        x@.id == x.id@,
        x@.name == x.name@,
        x@.enabled == x.enabled,
        x@.concurrency_policy == x.concurrency_policy@,
        x@.max_running == x.max_running,
        x@.schedule == x.schedule@,
        x@.last_status == x.last_status,
        x@.last_summary is Some <==> x.last_summary is Some,
        x.last_summary is Some ==> x@.last_summary->0 == x.last_summary->0@,
        x@.last_started_at is Some <==> x.last_started_at is Some,
        x.last_started_at is Some ==> x@.last_started_at->0 == x.last_started_at->0@,
        x@.last_finished_at is Some <==> x.last_finished_at is Some,
        x.last_finished_at is Some ==> x@.last_finished_at->0 == x.last_finished_at->0@,
{
}

/// The view of an outcome for programs shows each of its parts.
pub proof fn law_view_of_outcome_for_programs(x: TaskOutcomeOutput)
    ensures
        x@.status == x.status,
        x@.summary == x.summary@,
        x@.exit_code == x.exit_code,
        x@.started_at == x.started_at@,
        x@.finished_at == x.finished_at@,
        x@.steps.len() == x.steps@.len(),
        forall|i: int|
            0 <= i < x.steps@.len() ==> #[trigger] x@.steps[i] == x.steps@[i]@,
{
}

/// The view of a failure shows each of its parts.
pub proof fn law_view_of_failure(x: Failure)
    ensures
        x@.message == x.message@,
        x@.cause is Some <==> x.cause is Some,
        x.cause is Some ==> x@.cause->0 == x.cause->0@,
{
}

/// The view of a run on record shows each of its parts.
pub proof fn law_view_of_run_on_record(x: HistoryRecord)
    ensures
        x@.id == x.id,
        x@.task_id == x.task_id@,
        x@.status == x.status@,
        x@.summary == x.summary@,
        x@.exit_code == x.exit_code,
        x@.started_at == x.started_at@,
        x@.finished_at == x.finished_at@,
        x@.step_details.len() == x.step_details@.len(),
        forall|i: int|
            0 <= i < x.step_details@.len() ==> #[trigger] x@.step_details[i] == x.step_details@[i]@,
{
}

/// The view of a statement shows each of its parts.
pub proof fn law_view_of_statement(x: Statement)
    ensures
        x@.sql == x.sql@,
        x@.params.len() == x.params@.len(),
        forall|i: int|
            0 <= i < x.params@.len() ==> #[trigger] x@.params[i] == x.params@[i]@,
{
}

/// The view of a row shows each of its parts.
pub proof fn law_view_of_row(x: HistoryRow)
    ensures
        x@.id == x.id,
        x@.task_id == x.task_id@,
        x@.status == x.status@,
        x@.summary == x.summary@,
        x@.exit_code == x.exit_code,
        x@.started_at == x.started_at@,
        x@.finished_at == x.finished_at@,
{
}

/// The view of the input of a renderer shows each of its parts.
pub proof fn law_view_of_renderer_input(x: NotificationRendererInput)
    ensures
        x@.task_id == x.task_id@,
        x@.task_name == x.task_name@,
        x@.status == x.status,
        x@.summary == x.summary@,
        x@.exit_code == x.exit_code,
        x@.started_at == x.started_at@,
        x@.finished_at == x.finished_at@,
        x@.result == x.result@,
        x@.stdout is Some <==> x.stdout is Some,
        x.stdout is Some ==> x@.stdout->0 == x.stdout->0@,
        x@.stderr is Some <==> x.stderr is Some,
        x.stderr is Some ==> x@.stderr->0 == x.stderr->0@,
        x@.steps.len() == x.steps@.len(),
        forall|i: int|
            0 <= i < x.steps@.len() ==> #[trigger] x@.steps[i] == x.steps@[i]@,
        forall|k: Seq<char>| #[trigger]
            x@.meta.dom().contains(k) <==> x.meta@.dom().contains(k),
        forall|k: Seq<char>|
            x.meta@.dom().contains(k) ==> #[trigger] x@.meta[k] == x.meta@[k]@,
{
}

/// The view of a day shows each of its parts.
pub proof fn law_view_of_day(x: ReportDay)
    ensures
        x@.date == x.date,
        x@.timezone == x.timezone@,
        x@.start == x.start@,
        x@.end == x.end@,
{
}

/// The view of the summary of a task shows each of its parts.
pub proof fn law_view_of_task_summary(x: DailyTaskSummary)
    ensures
        x@.task_id == x.task_id@,
        x@.run_count == x.run_count,
        x@.failure_count == x.failure_count,
        x@.last_status == x.last_status@,
        x@.last_summary == x.last_summary@,
        x@.last_finished_at == x.last_finished_at@,
{
}

/// The view of a failed run of a report shows each of its parts.
pub proof fn law_view_of_failed_run(x: DailyFailureSummary)
    ensures
        x@.task_id == x.task_id@,
        x@.status == x.status@,
        x@.summary == x.summary@,
        x@.exit_code == x.exit_code,
        x@.finished_at == x.finished_at@,
        x@.step_details.len() == x.step_details@.len(),
        forall|i: int|
            0 <= i < x.step_details@.len() ==> #[trigger] x@.step_details[i] == x.step_details@[i]@,
{
}

/// The view of the last run of a task shows each of its parts.
pub proof fn law_view_of_last_run(x: TaskRuntimeState)
    ensures
        x@.last_status == x.last_status,
        x@.last_summary == x.last_summary@,
        x@.last_started_at == x.last_started_at@,
        x@.last_finished_at == x.last_finished_at@,
        x@.last_steps.len() == x.last_steps@.len(),
        forall|i: int|
            0 <= i < x.last_steps@.len() ==> #[trigger] x@.last_steps[i] == x.last_steps@[i]@,
{
}

/// The view of the state of all tasks shows each of its parts.
pub proof fn law_view_of_state(x: RuntimeStateFile)
    ensures
        x@.version == x.version,
        forall|k: Seq<char>| #[trigger]
            x@.tasks.dom().contains(k) <==> x.tasks@.dom().contains(k),
        forall|k: Seq<char>|
            x.tasks@.dom().contains(k) ==> #[trigger] x@.tasks[k] == x.tasks@[k]@,
{
}

/// The view of a step shows each of its parts.
pub proof fn law_view_of_step(x: TaskStepResult)
    ensures
        x@.step_id == x.step_id@,
        x@.status == x.status,
        x@.summary == x.summary@,
        x@.started_at == x.started_at@,
        x@.finished_at == x.finished_at@,
        x@.exit_code == x.exit_code,
{
}

/// The view of a launch shows each of its parts.
pub proof fn law_view_of_launch(x: Launch)
    ensures
        x@.program == x.program@,
        x@.args.len() == x.args@.len(),
        forall|i: int|
            0 <= i < x.args@.len() ==> #[trigger] x@.args[i] == x.args@[i]@,
        x@.workdir is Some <==> x.workdir is Some,
        x.workdir is Some ==> x@.workdir->0 == x.workdir->0@,
        x@.env == map_of(text_pairs(x.env)),
{
}

/// The view of a schedule shows its expression and its time zone, or its seconds.
pub proof fn law_view_of_schedule(x: ScheduleConfig)
    ensures
        match x {
            ScheduleConfig::Cron { expr, timezone } => x@ matches ScheduleView::Cron {
                expr: shown,
                timezone: zone,
            } && shown == expr@ && (zone is Some <==> timezone is Some) && (timezone is Some
                ==> zone->0 == timezone->0@),
            ScheduleConfig::Interval { seconds } => x@ == (ScheduleView::Interval { seconds }),
        },
{
}

/// The view of a job shows its expression and its time zone, or its seconds.
pub proof fn law_view_of_job(x: JobPlan)
    ensures
        match x {
            JobPlan::Cron { expr, timezone } => x@ matches JobView::Cron {
                expr: shown,
                timezone: zone,
            } && shown == expr@ && (zone is Some <==> timezone is Some) && (timezone is Some
                ==> zone->0 == timezone->0@),
            JobPlan::Every { seconds } => x@ == (JobView::Every { seconds }),
        },
{
}

/// The view of a result source shows which one it is, and the path of its file.
pub proof fn law_view_of_result_source(x: TaskNotifyConfig)
    ensures
        match x.result_source {
            NotifyResultSourceConfig::Stdout => x@ is Stdout && x.result_source@ is Stdout,
            NotifyResultSourceConfig::File { path } => x@ == (ResultSourceView::File {
                path: path@,
            }) && x.result_source@ == (ResultSourceView::File { path: path@ }),
        },
{
}

/// The view of a webhook shows the name of the variable with its address.
pub proof fn law_view_of_webhook(x: WebhookConfig)
    ensures
        x@ == x.url_env@,
{
}

/// The view of a parameter shows its text or its number.
pub proof fn law_view_of_parameter(x: SqlValue)
    ensures
        match x {
            SqlValue::Text(text) => x@ == SqlView::Text(text@),
            SqlValue::Integer(number) => x@ == SqlView::Integer(number),
        },
{
}

/// The view of a plan shows what goes and what comes.
pub proof fn law_view_of_plan(x: ReloadPlan)
    ensures
        x@.remove.len() == x.remove@.len(),
        forall|i: int| 0 <= i < x.remove@.len() ==> #[trigger] x@.remove[i] == x.remove@[i]@,
        x@.add.len() == x.add@.len(),
        forall|i: int| 0 <= i < x.add@.len() ==> #[trigger] x@.add[i] == x.add@[i]@,
        x@.update.len() == x.update@.len(),
        forall|i: int| 0 <= i < x.update@.len() ==> #[trigger] x@.update[i] == x.update@[i]@,
{
}

/// The view of what a delivery does next shows the sink that is run, or the failure.
pub proof fn law_view_of_delivery(x: SinkAction)
    ensures
        match x {
            SinkAction::Run { at, sink } => x@ == (SinkTurn::Run {
                at: at as int,
                sink: sink as int,
            }),
            SinkAction::Done => x@ is Done,
            SinkAction::Failed(f) => x@ == SinkTurn::Failed(f@),
            SinkAction::Unknown(f) => x@ == SinkTurn::Unknown(f@),
        },
{
}

proof fn lemma_items(items: Seq<JsonValue>, n: nat)
    requires
        n <= items.len(),
    ensures
        json_items(items, n).len() == n,
        forall|i: int| 0 <= i < n ==> #[trigger] json_items(items, n)[i] == json_view(items[i]),
    decreases n,
{
    if n > 0 {
        lemma_items(items, (n - 1) as nat);
    }
}

proof fn lemma_fields(fields: Seq<(String, JsonValue)>, n: nat)
    requires
        n <= fields.len(),
    ensures
        json_fields(fields, n).len() == n,
        forall|i: int|
            0 <= i < n ==> (#[trigger] json_fields(fields, n)[i]).0 == fields[i].0@ && json_fields(
                fields,
                n,
            )[i].1 == json_view(fields[i].1),
    decreases n,
{
    if n > 0 {
        lemma_fields(fields, (n - 1) as nat);
    }
}

/// The view of a JSON value shows its kind, its items and its fields.
pub proof fn law_view_of_json(x: JsonValue)
    ensures
        match x {
            JsonValue::Null => x@ is Null,
            JsonValue::Bool(b) => x@ == JsonView::Bool(b),
            JsonValue::Number(n) => x@ == JsonView::Number(n@),
            JsonValue::Text(t) => x@ == JsonView::Text(t@),
            JsonValue::Array(items) => x@ is Array && x@->Array_0.len() == items@.len()
                && forall|i: int|
                0 <= i < items@.len() ==> #[trigger] x@->Array_0[i] == items@[i]@,
            JsonValue::Object(fields) => x@ is Object && x@->Object_0.len() == fields@.len()
                && forall|i: int|
                0 <= i < fields@.len() ==> (#[trigger] x@->Object_0[i]).0 == fields@[i].0@
                    && x@->Object_0[i].1 == fields@[i].1@,
        },
{
    match x {
        JsonValue::Array(items) => lemma_items(items@, items@.len()),
        JsonValue::Object(fields) => lemma_fields(fields@, fields@.len()),
        _ => {},
    }
}

} // verus!

//! What failures say: which rule was broken, and where.

use vstd::prelude::*;

use crate::artifact_records::{
    input_failure, record_failure, rendered_failure, ArtifactRecordView, RecordInputView,
    RenderedView,
};
use crate::artifact_run::ArtifactPathsView;
use crate::artifact_runfile::{document_failure, records_failure, DocumentFault, RecordsFault};
use crate::artifacts::{
    artifact_command_failure, artifact_failure, artifacts_config_failure, artifacts_failure,
    artifacts_load_failure, steps_failure, ArtifactCommandView, ArtifactStepView, ArtifactView,
    ArtifactsRead, ArtifactsView,
};
use crate::calendar::{cron_fault, zone_known};
use crate::config::{
    command_failure, concurrency_failure, config_failure, load_failure, notifications_failure,
    notify_failure, renderer_failure, retry_failure, schedule_failure, task_failure, task_position,
    tasks_failure, valid_id, AppView, CommandView, ConcurrencyConfig, ConcurrencyPolicy,
    ConfigRead, NotificationsView, PathKind, RendererView, ResultSourceView, RetryConfig,
    ScheduleView, TaskView,
};
use crate::failure::{caused, plain};
use crate::history::{fault_failure, HistoryFault};
use crate::notifications::InputFault;
use crate::paths::directory_of;
use crate::state::{state_read_failure, StateRead};
use crate::task_runner::panic_message;
use crate::template::{placeholders, template_failure};
use crate::text::{blank, decimal};

verus! {

// ---------------------------------------------------------------------------------------------
// Tasks
// ---------------------------------------------------------------------------------------------
/// A concurrency or retry setting that is refused is named with the rule that it breaks.
pub proof fn law_messages_on_repetition(
    c: ConcurrencyConfig,
    r: RetryConfig,
    path: Seq<char>,
)
    ensures
        c.max_running == 0 || c.max_running > 3 ==> concurrency_failure(c, path) == Some(
            plain(path + ".concurrency.max_running must be between 1 and 3"@),
        ),
        (c.max_running == 2 || c.max_running == 3) && c.policy == ConcurrencyPolicy::Forbid
            ==> concurrency_failure(c, path) == Some(
            plain(path + ".concurrency.max_running must be 1 when policy is forbid"@),
        ),
        (c.max_running == 2 || c.max_running == 3) && c.policy == ConcurrencyPolicy::Replace
            ==> concurrency_failure(c, path) == Some(
            plain(path + ".concurrency.max_running must be 1 when policy is replace"@),
        ),
        r.max_attempts > 0 && r.delay_seconds == 0 ==> retry_failure(r, path) == Some(
            plain(path + ".retry.delay_seconds must be > 0 when retry.max_attempts > 0"@),
        ),
{
}

/// A schedule that is refused is named with the rule that it breaks; a parse error is kept as the
/// cause.
pub proof fn law_messages_on_schedules(s: ScheduleView, path: Seq<char>)
    ensures
        s == (ScheduleView::Interval { seconds: 0 }) ==> schedule_failure(s, path) == Some(
            plain(path + ".schedule.seconds must be > 0"@),
        ),
        s matches ScheduleView::Cron { expr, timezone } ==> {
            &&& blank(expr) ==> schedule_failure(s, path) == Some(
                plain(path + ".schedule.expr must not be empty"@),
            )
            &&& !blank(expr) && cron_fault(expr) is Some ==> schedule_failure(s, path) == Some(
                caused(
                    path + ".schedule.expr has invalid cron expression '"@ + expr + "'"@,
                    cron_fault(expr)->0,
                ),
            )
            &&& !blank(expr) && cron_fault(expr) is None && timezone is Some && !zone_known(
                timezone->0,
            ) ==> schedule_failure(s, path) == Some(
                caused(
                    path + ".schedule.timezone has invalid timezone '"@ + timezone->0 + "'"@,
                    "failed to parse timezone"@,
                ),
            )
        },
{
}

/// A command that is refused is named with the rule that it breaks, and its directory with its
/// path.
pub proof fn law_messages_on_commands(
    c: CommandView,
    path: Seq<char>,
    survey: Map<Seq<char>, PathKind>,
)
    ensures
        blank(c.program) ==> command_failure(c, path, survey) == Some(
            plain(path + ".program must not be empty"@),
        ),
        !blank(c.program) && c.timeout_seconds == Some(0u64) ==> command_failure(c, path, survey)
            == Some(plain(path + ".timeout_seconds must be > 0"@)),
        !blank(c.program) && c.timeout_seconds != Some(0u64) && c.workdir is Some ==> {
            let dir = c.workdir->0;
            &&& !survey.dom().contains(dir) || survey[dir] == PathKind::Missing ==> command_failure(
                c,
                path,
                survey,
            ) == Some(plain(path + ".workdir"@ + " '"@ + dir + "' does not exist"@))
            &&& survey.dom().contains(dir) && survey[dir] == PathKind::Other ==> command_failure(
                c,
                path,
                survey,
            ) == Some(plain(path + ".workdir"@ + " '"@ + dir + "' is not a directory"@))
        },
{
}

/// A renderer that is refused is named with the rule that it breaks.
pub proof fn law_messages_on_renderers(
    c: RendererView,
    path: Seq<char>,
    survey: Map<Seq<char>, PathKind>,
)
    ensures
        blank(c.program) ==> renderer_failure(c, path, survey) == Some(
            plain(path + ".program must not be empty"@),
        ),
        !blank(c.program) && blank(c.prompt) ==> renderer_failure(c, path, survey) == Some(
            plain(path + ".prompt must not be empty"@),
        ),
        !blank(c.program) && !blank(c.prompt) && !survey.dom().contains(c.workdir)
            ==> renderer_failure(c, path, survey) == Some(
            plain(path + ".workdir"@ + " '"@ + c.workdir + "' does not exist"@),
        ),
        !blank(c.program) && !blank(c.prompt) && survey.dom().contains(c.workdir)
            && survey[c.workdir] == PathKind::Directory ==> {
            &&& c.timeout_seconds == Some(0u64) ==> renderer_failure(c, path, survey) == Some(
                plain(path + ".timeout_seconds must be > 0"@),
            )
            &&& c.timeout_seconds != Some(0u64) && c.session_dir is Some && c.session_dir->0.len()
                == 0 ==> renderer_failure(c, path, survey) == Some(
                plain(path + ".session_dir"@ + " must not be empty"@),
            )
            &&& c.timeout_seconds != Some(0u64) && c.session_dir is None && c.agent_dir is Some
                && c.agent_dir->0.len() == 0 ==> renderer_failure(c, path, survey) == Some(
                plain(path + ".agent_dir"@ + " must not be empty"@),
            )
        },
{
}

/// Enabled notifications that lack a part say which, and a task that cannot notify says why.
pub proof fn law_messages_on_notifications(
    c: NotificationsView,
    source: ResultSourceView,
    path: Seq<char>,
    survey: Map<Seq<char>, PathKind>,
)
    ensures
        c.enabled && c.renderer is None ==> notifications_failure(c, path, survey) == Some(
            plain(path + ".renderer must be set when notifications.enabled is true"@),
        ),
        c.enabled && c.renderer is Some && renderer_failure(
            c.renderer->0,
            path + ".renderer"@,
            survey,
        ) is Some ==> notifications_failure(c, path, survey) == renderer_failure(
            c.renderer->0,
            path + ".renderer"@,
            survey,
        ),
        c.enabled && c.renderer is Some && renderer_failure(
            c.renderer->0,
            path + ".renderer"@,
            survey,
        ) is None ==> {
            &&& c.webhook is None ==> notifications_failure(c, path, survey) == Some(
                plain(path + ".webhook must be set when notifications.enabled is true"@),
            )
            &&& c.webhook is Some && blank(c.webhook->0) ==> notifications_failure(c, path, survey)
                == Some(plain(path + ".webhook"@ + ".url_env must not be empty"@))
        },
        notify_failure(Some(source), path, None, survey) == Some(
            plain(path + ".notify requires top-level notifications to be configured"@),
        ),
        !c.enabled ==> notify_failure(Some(source), path, Some(c), survey) == Some(
            plain(path + ".notify requires top-level notifications.enabled to be true"@),
        ),
        c.enabled && notifications_failure(c, path + ".notifications_ref"@, survey) is None
            && source == (ResultSourceView::File { path: Seq::empty() }) ==> notify_failure(
            Some(source),
            path,
            Some(c),
            survey,
        ) == Some(plain(path + ".notify.result_source"@ + ".path must not be empty"@)),
{
}

/// A task that is refused names its first setting that is, in the order id, name, concurrency,
/// retry, schedule, notifications and command.
pub proof fn law_messages_on_tasks(
    t: TaskView,
    path: Seq<char>,
    notifications: Option<NotificationsView>,
    survey: Map<Seq<char>, PathKind>,
)
    ensures
        ({
            let f = task_failure(t, path, notifications, survey);
            let a = concurrency_failure(t.concurrency, path);
            let b = retry_failure(t.retry, path);
            let c = schedule_failure(t.schedule, path);
            let d = notify_failure(t.notify, path, notifications, survey);
            let e = command_failure(t.command, path + ".command"@, survey);
            let named = valid_id(t.id) && !blank(t.name);
            &&& !valid_id(t.id) ==> f == Some(
                plain(path + ".id must use only letters, digits, '-', '_' or '.'"@),
            )
            &&& valid_id(t.id) && blank(t.name) ==> f == Some(
                plain(path + ".name must not be empty"@),
            )
            &&& named && a is Some ==> f == a
            &&& named && a is None && b is Some ==> f == b
            &&& named && a is None && b is None && c is Some ==> f == c
            &&& named && a is None && b is None && c is None && d is Some ==> f == d
            &&& named && a is None && b is None && c is None && d is None ==> f == e
        }),
{
}

proof fn lemma_tasks_before(c: AppView, survey: Map<Seq<char>, PathKind>, i: int, n: int)
    requires
        0 <= i <= n <= c.tasks.len(),
        forall|k: int|
            i <= k < n ==> task_failure(
                #[trigger] c.tasks[k],
                "tasks["@ + decimal(k as nat) + "]"@,
                c.notifications,
                survey,
            ) is None,
        forall|j: int, k: int|
            0 <= j < k < n ==> (#[trigger] c.tasks[j]).id != (#[trigger] c.tasks[k]).id,
    ensures
        tasks_failure(c, survey, i) == tasks_failure(c, survey, n),
    decreases n - i,
{
    if i < n {
        crate::config_laws::lemma_first_with_id(c.tasks, c.tasks[i].id, i);
        lemma_tasks_before(c, survey, i + 1, n);
    }
}

/// A configuration that is refused names its version, then its notifications, then its first task
/// that is refused or has the id of an earlier one, by its place in the list; of the earlier one
/// the place is named too.
#[verifier::rlimit(50)]
pub proof fn law_messages_on_configurations(
    c: AppView,
    survey: Map<Seq<char>, PathKind>,
    n: int,
    j: int,
)
    requires
        0 <= n < c.tasks.len(),
        forall|k: int|
            0 <= k < n ==> task_failure(
                #[trigger] c.tasks[k],
                "tasks["@ + decimal(k as nat) + "]"@,
                c.notifications,
                survey,
            ) is None,
        forall|j: int, k: int|
            0 <= j < k < n ==> (#[trigger] c.tasks[j]).id != (#[trigger] c.tasks[k]).id,
    ensures
        ({
            let path = "tasks["@ + decimal(n as nat) + "]"@;
            let f = task_failure(c.tasks[n], path, c.notifications, survey);
            let quiet = c.version == 1 && (c.notifications is None || notifications_failure(
                c.notifications->0,
                "notifications"@,
                survey,
            ) is None);
            &&& c.version != 1 ==> config_failure(c, survey) == Some(
                plain("unsupported config version "@ + decimal(c.version as nat)),
            )
            &&& c.version == 1 && c.notifications is Some && notifications_failure(
                c.notifications->0,
                "notifications"@,
                survey,
            ) is Some ==> config_failure(c, survey) == notifications_failure(
                c.notifications->0,
                "notifications"@,
                survey,
            )
            &&& quiet && f is Some ==> config_failure(c, survey) == f
            &&& quiet && f is None && 0 <= j < n && c.tasks[j].id == c.tasks[n].id
                ==> config_failure(c, survey) == Some(
                plain(
                    path + ".id duplicates task id '"@ + c.tasks[n].id
                        + "' already used by tasks["@ + decimal(j as nat) + "].id"@,
                ),
            )
        }),
{
    lemma_tasks_before(c, survey, 0, n);
    crate::config_laws::lemma_first_with_id(c.tasks, c.tasks[n].id, n);
    if 0 <= j < n && c.tasks[j].id == c.tasks[n].id {
        let p = task_position(c.tasks, c.tasks[n].id, n)->0;
        if p < j {
            assert(c.tasks[p].id != c.tasks[j].id);
        }
        assert(p == j);
    }
}

// ---------------------------------------------------------------------------------------------
// Workflows
// ---------------------------------------------------------------------------------------------
/// A template that is refused says that a placeholder is not closed or is empty, or which name it
/// may not use.
pub proof fn law_messages_on_templates(t: Seq<char>, field: Seq<char>)
    ensures
        placeholders(t) matches Err(f) ==> template_failure(t, field) == Some(f) && (f == plain(
            "unclosed template variable in '"@ + t + "'"@,
        ) || f == plain("empty template variable in '"@ + t + "'"@)),
        placeholders(t) is Ok && template_failure(t, field) is Some ==> exists|k: int|
            0 <= k < placeholders(t)->Ok_0.len() && template_failure(t, field) == Some(
                plain(
                    field + " uses unknown template variable '"@ + ("{{"@
                        + #[trigger] placeholders(t)->Ok_0[k] + "}}"@) + "'"@,
                ),
            ),
{
    if placeholders(t) is Ok {
        lemma_unknown(placeholders(t)->Ok_0, field, 0);
    }
}

proof fn lemma_unknown(names: Seq<Seq<char>>, field: Seq<char>, i: int)
    requires
        0 <= i <= names.len(),
    ensures
        crate::template::unknown_failure(names, field, i) is Some ==> exists|k: int|
            i <= k < names.len() && crate::template::unknown_failure(names, field, i) == Some(
                plain(
                    field + " uses unknown template variable '"@ + ("{{"@ + #[trigger] names[k]
                        + "}}"@) + "'"@,
                ),
            ),
    decreases names.len() - i,
{
    if i < names.len() {
        if crate::template::allowed(names[i]) {
            lemma_unknown(names, field, i + 1);
        } else {
            let k = i;
            assert(names[k] == names[i]);
        }
    }
}

/// A command of a workflow that is refused names its first text that is: its program, an argument
/// by its place, its directory or a variable by its name.
pub proof fn law_messages_on_workflow_commands(c: ArtifactCommandView, path: Seq<char>)
    ensures
        blank(c.program) ==> artifact_command_failure(c, path) == Some(
            plain(path + ".program must not be empty"@),
        ),
        !blank(c.program) && template_failure(c.program, path + ".program"@) is Some
            ==> artifact_command_failure(c, path) == template_failure(
            c.program,
            path + ".program"@,
        ),
        !blank(c.program) && template_failure(c.program, path + ".program"@) is None
            && c.args.len() > 0 && template_failure(
            c.args[0],
            path + ".args["@ + decimal(0) + "]"@,
        ) is Some ==> artifact_command_failure(c, path) == template_failure(
            c.args[0],
            path + ".args["@ + decimal(0) + "]"@,
        ),
        !blank(c.program) && template_failure(c.program, path + ".program"@) is None
            && c.args.len() == 0 && c.workdir is Some && template_failure(
            c.workdir->0,
            path + ".workdir"@,
        ) is Some ==> artifact_command_failure(c, path) == template_failure(
            c.workdir->0,
            path + ".workdir"@,
        ),
        !blank(c.program) && template_failure(c.program, path + ".program"@) is None
            && c.args.len() == 0 && c.workdir is None && c.env.len() > 0 ==> {
            &&& blank(c.env[0].0) ==> artifact_command_failure(c, path) == Some(
                plain(path + ".env contains an empty key"@),
            )
            &&& !blank(c.env[0].0) && template_failure(c.env[0].1, path + ".env."@ + c.env[0].0)
                is Some ==> artifact_command_failure(c, path) == template_failure(
                c.env[0].1,
                path + ".env."@ + c.env[0].0,
            )
        },
{
}

/// Of collectors and of sinks the first is named that is refused or has the id of an earlier one.
pub proof fn law_messages_on_steps(
    list: Seq<ArtifactStepView>,
    base: Seq<char>,
    part: Seq<char>,
    word: Seq<char>,
    i: int,
)
    requires
        0 <= i < list.len(),
    ensures
        ({
            let path = base + part + "["@ + decimal(i as nat) + "]"@;
            let f = steps_failure(list, base, part, word, i);
            let e = artifact_command_failure(list[i].command, path + ".command"@);
            &&& !valid_id(list[i].id) ==> f == Some(
                plain(path + ".id must use only letters, digits, '-', '_' or '.'"@),
            )
            &&& valid_id(list[i].id) && e is Some ==> f == e
            &&& valid_id(list[i].id) && e is None && (exists|k: int|
                0 <= k < i && (#[trigger] list[k]).id == list[i].id) ==> f == Some(
                plain(path + ".id duplicates "@ + word + " id '"@ + list[i].id + "'"@),
            )
            &&& valid_id(list[i].id) && e is None && (forall|k: int|
                0 <= k < i ==> (#[trigger] list[k]).id != list[i].id) ==> f == steps_failure(
                list,
                base,
                part,
                word,
                i + 1,
            )
        }),
{
}

/// A workflow that is refused names its first part that is, in the order id, time zone, collectors,
/// renderer and sinks.
pub proof fn law_messages_on_workflows(a: ArtifactView, path: Seq<char>)
    ensures
        ({
            let f = artifact_failure(a, path);
            let c = steps_failure(a.collectors, path, ".collectors"@, "collector"@, 0);
            let r = artifact_command_failure(a.renderer, path + ".renderer.command"@);
            let s = steps_failure(a.sinks, path, ".sinks"@, "sink"@, 0);
            let placed = valid_id(a.id) && !blank(a.timezone) && zone_known(a.timezone);
            &&& !valid_id(a.id) ==> f == Some(
                plain(path + ".id must use only letters, digits, '-', '_' or '.'"@),
            )
            &&& valid_id(a.id) && blank(a.timezone) ==> f == Some(
                plain(path + ".timezone must not be empty"@),
            )
            &&& valid_id(a.id) && !blank(a.timezone) && !zone_known(a.timezone) ==> f == Some(
                caused(
                    path + ".timezone has invalid timezone '"@ + a.timezone + "'"@,
                    "failed to parse timezone"@,
                ),
            )
            &&& placed && a.collectors.len() == 0 ==> f == Some(
                plain(path + ".collectors must contain at least one collector"@),
            )
            &&& placed && a.collectors.len() > 0 && c is Some ==> f == c
            &&& placed && a.collectors.len() > 0 && c is None && r is Some ==> f == r
            &&& placed && a.collectors.len() > 0 && c is None && r is None ==> f == s
        }),
{
}

/// A configuration of workflows that is refused names its version, or its first workflow that is
/// refused or has the id of an earlier one, by its place in the list.
pub proof fn law_messages_on_workflow_configurations(c: ArtifactsView, i: int)
    requires
        0 <= i < c.artifacts.len(),
    ensures
        ({
            let path = "artifacts["@ + decimal(i as nat) + "]"@;
            let f = artifacts_failure(c.artifacts, i);
            let e = artifact_failure(c.artifacts[i], path);
            &&& c.version != 1 ==> artifacts_config_failure(c) == Some(
                plain("unsupported artifacts config version "@ + decimal(c.version as nat)),
            )
            &&& c.version == 1 ==> artifacts_config_failure(c) == artifacts_failure(c.artifacts, 0)
            &&& e is Some ==> f == e
            &&& e is None && (exists|k: int|
                0 <= k < i && (#[trigger] c.artifacts[k]).id == c.artifacts[i].id) ==> f == Some(
                plain(path + ".id duplicates artifact id '"@ + c.artifacts[i].id + "'"@),
            )
            &&& e is None && (forall|k: int|
                0 <= k < i ==> (#[trigger] c.artifacts[k]).id != c.artifacts[i].id) ==> f
                == artifacts_failure(c.artifacts, i + 1)
        }),
{
}

/// A document that is refused names its first field that is.
pub proof fn law_messages_on_documents(
    c: RecordInputView,
    r: ArtifactRecordView,
    d: RenderedView,
)
    ensures
        c.schema_version != 1 ==> input_failure(c) == Some(
            plain("collector"@ + " schema_version must be 1"@),
        ),
        c.schema_version == 1 && c.status != "ok"@ && c.status != "warn"@ && c.status != "error"@
            ==> input_failure(c) == Some(
            plain("status '"@ + c.status + "' must be one of ok, warn, error"@),
        ),
        c.schema_version == 1 && c.status == "ok"@ && blank(c.summary) ==> input_failure(c) == Some(
            plain("collector"@ + " summary must not be empty"@),
        ),
        c.schema_version == 1 && c.status == "ok"@ && !blank(c.summary) && c.content_type
            != "application/json"@ && c.content_type != "text/plain"@ ==> input_failure(c) == Some(
            plain("collector"@ + " content_type '"@ + c.content_type + "' is not supported"@),
        ),
        r.schema_version != 1 ==> record_failure(r) == Some(
            plain("record"@ + " schema_version must be 1"@),
        ),
        r.schema_version == 1 && r.status == "ok"@ && blank(r.summary) ==> record_failure(r) == Some(
            plain("record"@ + " summary must not be empty"@),
        ),
        d.schema_version != 1 ==> rendered_failure(d) == Some(
            plain("rendered schema_version must be 1"@),
        ),
        d.schema_version == 1 && d.status != "ok"@ && d.status != "warn"@ && d.status != "error"@
            ==> rendered_failure(d) == Some(
            plain("status '"@ + d.status + "' must be one of ok, warn, error"@),
        ),
        d.schema_version == 1 && d.status == "ok"@ && blank(d.title) ==> rendered_failure(d) == Some(
            plain("rendered title must not be empty"@),
        ),
        d.schema_version == 1 && d.status == "ok"@ && !blank(d.title) && blank(d.body)
            ==> rendered_failure(d) == Some(plain("rendered body must not be empty"@)),
        d.schema_version == 1 && d.status == "ok"@ && !blank(d.title) && !blank(d.body)
            && d.content_type != "text/markdown"@ && d.content_type != "application/json"@
            && d.content_type != "text/plain"@ ==> rendered_failure(d) == Some(
            plain("rendered content_type '"@ + d.content_type + "' is not supported"@),
        ),
{
}

/// A document that cannot be written or read is named by its path, and its error kept as the cause.
pub proof fn law_messages_on_files(path: Seq<char>, fault: DocumentFault)
    ensures
        match fault {
            DocumentFault::Directory(e) => document_failure(path, fault) == caused(
                "failed to create directory '"@ + directory_of(path) + "'"@,
                e@,
            ),
            DocumentFault::Create(e) => document_failure(path, fault) == caused(
                "failed to create json file '"@ + path + "'"@,
                e@,
            ),
            DocumentFault::Write(e) => document_failure(path, fault) == caused(
                "failed to write json file '"@ + path + "'"@,
                e@,
            ),
            DocumentFault::Open(e) => document_failure(path, fault) == caused(
                "failed to open json file '"@ + path + "'"@,
                e@,
            ),
            DocumentFault::Parse(e) => document_failure(path, fault) == caused(
                "failed to parse json file '"@ + path + "'"@,
                e@,
            ),
        },
{
}

/// A fault of the file of records names the file that it is about, or the record.
pub proof fn law_messages_on_files_of_records(paths: ArtifactPathsView, fault: RecordsFault)
    ensures
        match fault {
            RecordsFault::Directory(e) => records_failure(paths, fault) == caused(
                "failed to create collector output directory '"@ + paths.collectors_dir + "'"@,
                e@,
            ),
            RecordsFault::Create(e) => records_failure(paths, fault) == caused(
                "failed to create records file '"@ + paths.collect_partial_file + "'"@,
                e@,
            ),
            RecordsFault::Encode(id, e) => records_failure(paths, fault) == caused(
                "failed to encode record for '"@ + id@ + "'"@,
                e@,
            ),
            RecordsFault::Newline(e) => records_failure(paths, fault).cause == Some(e@),
            RecordsFault::Flush(e) => records_failure(paths, fault).cause == Some(e@),
            RecordsFault::Finalize(e) => records_failure(paths, fault) == caused(
                "failed to finalize records file '"@ + paths.collect_file + "'"@,
                e@,
            ),
            RecordsFault::Open(e) => records_failure(paths, fault) == caused(
                "failed to open records file '"@ + paths.collect_file + "'"@,
                e@,
            ),
        },
{
}

/// A configuration or a state file that cannot be read or parsed is named by its path, and its error
/// kept as the cause.
pub proof fn law_messages_on_reading(
    path: Seq<char>,
    config: ConfigRead,
    workflows: ArtifactsRead,
    state: StateRead,
)
    ensures
        match config {
            ConfigRead::Parsed(_) => load_failure(path, config) is None,
            ConfigRead::Missing(e) => load_failure(path, config) == Some(
                caused("failed to read config '"@ + path + "'"@, e@),
            ),
            ConfigRead::Unreadable(e) => load_failure(path, config) == Some(
                caused("failed to read config '"@ + path + "'"@, e@),
            ),
            ConfigRead::Unparsable(e) => load_failure(path, config) == Some(
                caused("failed to parse yaml '"@ + path + "'"@, e@),
            ),
        },
        match workflows {
            ArtifactsRead::Parsed(_) => artifacts_load_failure(path, workflows) is None,
            ArtifactsRead::Unreadable(e) => artifacts_load_failure(path, workflows) == Some(
                caused("failed to read artifacts config '"@ + path + "'"@, e@),
            ),
            ArtifactsRead::Unparsable(e) => artifacts_load_failure(path, workflows) == Some(
                caused("failed to parse yaml '"@ + path + "'"@, e@),
            ),
        },
        match state {
            StateRead::Unreadable(e) => state_read_failure(path, state) == Some(
                caused("failed to read runtime state '"@ + path + "'"@, e@),
            ),
            StateRead::Unparsable(e) => state_read_failure(path, state) == Some(
                caused("failed to parse runtime state '"@ + path + "'"@, e@),
            ),
            _ => state_read_failure(path, state) is None,
        },
{
}

/// A fault of the history says what was being done, with the path of its file where that counts.
pub proof fn law_messages_on_the_history(path: Seq<char>, fault: HistoryFault)
    ensures
        match fault {
            HistoryFault::Directory(e) => fault_failure(path, fault) == caused(
                "failed to create history directory '"@ + directory_of(path) + "'"@,
                e@,
            ),
            HistoryFault::Open(e) => fault_failure(path, fault) == caused(
                "failed to open history db '"@ + path + "'"@,
                e@,
            ),
            HistoryFault::Timeout(e) => fault_failure(path, fault) == caused(
                "failed to configure sqlite busy timeout"@,
                e@,
            ),
            HistoryFault::Schema(e) => fault_failure(path, fault) == caused(
                "failed to initialize history schema"@,
                e@,
            ),
            HistoryFault::Column(e) => fault_failure(path, fault) == caused(
                "failed to add step_details column to history schema"@,
                e@,
            ),
            HistoryFault::Insert(e) => fault_failure(path, fault) == caused(
                "failed to insert history record"@,
                e@,
            ),
            HistoryFault::Steps(e) => fault_failure(path, fault) == caused(
                "failed to encode step details"@,
                e@,
            ),
        },
{
}

/// A fault on the way to the input of a renderer names the directory or the file, and a run whose
/// worker panicked its task.
pub proof fn law_messages_on_renderer_inputs_and_panics(
    dir: Seq<char>,
    file: Seq<char>,
    fault: InputFault,
    task_id: Seq<char>,
    error: Seq<char>,
)
    ensures
        match fault {
            InputFault::Directory(e) => crate::notifications::input_failure(dir, file, fault) == caused(
                "failed to create notification temp dir '"@ + dir + "'"@,
                e@,
            ),
            InputFault::Encode(e) => crate::notifications::input_failure(dir, file, fault) == caused(
                "failed to encode notification input"@,
                e@,
            ),
            InputFault::Write(e) => crate::notifications::input_failure(dir, file, fault) == caused(
                "failed to write notification input '"@ + file + "'"@,
                e@,
            ),
        },
        panic_message(task_id, error) == "task '"@ + task_id + "' panicked: "@ + error,
{
}

} // verus!

//! Notifications on finished runs: whether one is due, what words it, and what is sent where.

use vstd::prelude::*;

use crate::calendar::Timestamp;
use crate::config::{
    opt_notifications, schedule_summary, AppView, NotificationsConfig, NotificationsView,
    NotifyResultSourceConfig, PathKind, PiRendererConfig, RendererView, ResultSourceView,
    TaskConfig, TaskView,
};
use crate::config_laws::{config_valid, task_valid};
use crate::failure::{caused, plain, told, Failure, FailureView};
use crate::paths::{absolute, is_absolute, join, join_path};
use crate::task_runner::{
    copy_steps, outcome_exit_code, step_views, Launch, LaunchView, OutcomeView, StepView,
    TaskOutcome, TaskRunStatus, TaskStepResult,
};
use crate::text::{
    chars_of, concat, concat3, concat5, decimal, decimal_text, is_blank, opt_text, text_range,
    texts, trim_text, trimmed,
};
use crate::text_map::{
    env_of, map_of, overlaid, overlay, set_var, text_pairs, EnvMap, TextMap,
};

verus! {

// ---------------------------------------------------------------------------------------------
// Message length
// ---------------------------------------------------------------------------------------------
/// The characters that one message may have.
pub const DISCORD_CONTENT_LIMIT: usize = 2000;

/// What stands at the end of a message that was cut.
pub const DISCORD_TRUNCATED_SUFFIX: &'static str = "\n\n[truncated]";

/// A message within the limit: the text itself, or its start with a note that it was cut.
pub open spec fn fitted(body: Seq<char>) -> Seq<char> {
    if body.len() <= DISCORD_CONTENT_LIMIT {
        body
    } else {
        body.subrange(0, DISCORD_CONTENT_LIMIT - DISCORD_TRUNCATED_SUFFIX@.len())
            + DISCORD_TRUNCATED_SUFFIX@
    }
}

/// A message within the limit.
pub fn discord_content(body: &str) -> (r: String)
    ensures
        r@ == fitted(body@),
        r@.len() <= DISCORD_CONTENT_LIMIT,
{
    let v = chars_of(body);
    if v.len() <= DISCORD_CONTENT_LIMIT {
        return body.to_owned();
    }
    proof {
        reveal_strlit("\n\n[truncated]");
    }
    let suffix_len: usize = chars_of(DISCORD_TRUNCATED_SUFFIX).len();
    let kept: usize = DISCORD_CONTENT_LIMIT - suffix_len;
    let mut r = text_range(&v, 0, kept);
    r.append(DISCORD_TRUNCATED_SUFFIX);
    r
}

// ---------------------------------------------------------------------------------------------
// Whether a result asks for a notification
// ---------------------------------------------------------------------------------------------
/// What kind of value a JSON value is.
#[derive(Debug, Clone, Copy, PartialEq, Eq, Structural)]
pub enum JsonKind {
    Null,
    Bool(bool),
    Number,
    Text,
    Array,
    Object,
}

/// What a text says of one field when it is read as JSON.
#[derive(Debug, Clone, Copy, PartialEq, Eq, Structural)]
pub enum JsonField {
    /// The text is no JSON.
    Invalid,
    /// The text is JSON, but no object.
    NoObject,
    /// The object has no such field.
    Absent,
    /// The field of the object.
    Present(JsonKind),
}

/// What `serde_json` reads of a field.
pub uninterp spec fn json_field(text: Seq<char>, key: Seq<char>) -> JsonField;

/// Calls `serde_json::from_str` for a `serde_json::Value` and, on an object, `serde_json::Map::get`.
/// The contract names what they tell of the field, which depends on the text and the key alone.
#[verifier::external_body]
pub(crate) fn read_json_field(text: &str, key: &str) -> (r: JsonField)
    ensures
        r == json_field(text@, key@),
{
    match serde_json::from_str::<serde_json::Value>(text) {
        Err(_) => JsonField::Invalid,
        Ok(serde_json::Value::Object(object)) => match object.get(key) {
            None => JsonField::Absent,
            Some(serde_json::Value::Null) => JsonField::Present(JsonKind::Null),
            Some(serde_json::Value::Bool(b)) => JsonField::Present(JsonKind::Bool(*b)),
            Some(serde_json::Value::Number(_)) => JsonField::Present(JsonKind::Number),
            Some(serde_json::Value::String(_)) => JsonField::Present(JsonKind::Text),
            Some(serde_json::Value::Array(_)) => JsonField::Present(JsonKind::Array),
            Some(serde_json::Value::Object(_)) => JsonField::Present(JsonKind::Object),
        },
        Ok(_) => JsonField::NoObject,
    }
}

/// A decision in views.
pub open spec fn decision<T>(r: Result<T, Failure>) -> Result<T, FailureView> {
    match r {
        Ok(value) => Ok(value),
        Err(f) => Err(f@),
    }
}

/// Whether a result asks for a notification, given what it says of its `notify` field.
pub open spec fn asks_for_notification(field: JsonField) -> Result<bool, FailureView> {
    match field {
        JsonField::Present(JsonKind::Bool(value)) => Ok(value),
        JsonField::Present(_) => Err(
            plain("task notify result field 'notify' must be a boolean when present"@),
        ),
        _ => Ok(true),
    }
}

/// Whether a result asks for a notification: an empty one does, and any other unless it is a JSON
/// object that says otherwise.
pub open spec fn wants_notification(result: Seq<char>) -> Result<bool, FailureView> {
    if trimmed(result).len() == 0 {
        Ok(true)
    } else {
        asks_for_notification(json_field(trimmed(result), "notify"@))
    }
}

/// Whether a result asks for a notification, given what it says of its `notify` field.
pub fn judge_notify_field(field: JsonField) -> (r: Result<bool, Failure>)
    ensures
        decision(r) == asks_for_notification(field),
{
    match field {
        JsonField::Present(JsonKind::Bool(value)) => Ok(value),
        JsonField::Present(_) => Err(
            Failure::new(
                "task notify result field 'notify' must be a boolean when present".to_owned(),
            ),
        ),
        _ => Ok(true),
    }
}

/// Whether a result asks for a notification.
pub fn should_send_notification(task_result: &str) -> (r: Result<bool, Failure>)
    ensures
        decision(r) == wants_notification(task_result@),
{
    let text = trim_text(task_result);
    if text.as_str().is_empty() {
        return Ok(true);
    }
    judge_notify_field(read_json_field(&text, "notify"))
}

// ---------------------------------------------------------------------------------------------
// Where the result comes from
// ---------------------------------------------------------------------------------------------
/// A result file, seen from the working directory of the task.
pub open spec fn result_file(workdir: Option<Seq<char>>, path: Seq<char>) -> Seq<char> {
    if absolute(path) {
        path
    } else {
        match workdir {
            Some(dir) => join(dir, path),
            None => path,
        }
    }
}

/// A result file, seen from the working directory of the task.
pub fn resolve_result_file(task: &TaskConfig, path: &str) -> (r: String)
    ensures
        r@ == result_file(task@.command.workdir, path@),
{
    if is_absolute(path) {
        return path.to_owned();
    }
    match &task.command.workdir {
        Some(dir) => join_path(dir, path),
        None => path.to_owned(),
    }
}

/// What a notification on a run needs first.
#[derive(Debug)]
pub enum NotifyStart {
    /// No notification is due.
    Nothing,
    /// The result is at hand.
    Result(String),
    /// The result stands in a file.
    ReadFile(String),
}

/// What a notification on a run needs first.
pub enum NotifyStartView {
    Nothing,
    Result(Seq<char>),
    ReadFile(Seq<char>),
}

/// What a notification on a run needs first, in views.
pub open spec fn start_result(r: Result<NotifyStart, Failure>) -> Result<
    NotifyStartView,
    FailureView,
> {
    match r {
        Ok(NotifyStart::Nothing) => Ok(NotifyStartView::Nothing),
        Ok(NotifyStart::Result(text)) => Ok(NotifyStartView::Result(text@)),
        Ok(NotifyStart::ReadFile(path)) => Ok(NotifyStartView::ReadFile(path@)),
        Err(f) => Err(f@),
    }
}

/// What a notification on a run needs first: nothing where the task does not notify or
/// notifications are off, otherwise the result from its source.
pub open spec fn notify_start(
    notifications: Option<NotificationsView>,
    task: TaskView,
    stdout: Option<Seq<char>>,
) -> Result<NotifyStartView, FailureView> {
    match task.notify {
        None => Ok(NotifyStartView::Nothing),
        Some(source) => match notifications {
            None => Err(
                plain(
                    "task '"@ + task.id
                        + "' requested notify but notifications are not configured"@,
                ),
            ),
            Some(n) => if !n.enabled {
                Ok(NotifyStartView::Nothing)
            } else {
                match source {
                    ResultSourceView::Stdout => Ok(
                        NotifyStartView::Result(
                            match stdout {
                                Some(text) => text,
                                None => ""@,
                            },
                        ),
                    ),
                    ResultSourceView::File { path } => Ok(
                        NotifyStartView::ReadFile(result_file(task.command.workdir, path)),
                    ),
                }
            },
        },
    }
}

/// What a notification on a run needs first.
pub fn start_notification(
    notifications: &Option<NotificationsConfig>,
    task: &TaskConfig,
    outcome: &TaskOutcome,
) -> (r: Result<NotifyStart, Failure>)
    ensures
        start_result(r) == notify_start(
            opt_notifications(*notifications),
            task@,
            outcome@.stdout,
        ),
{
    let notify = match &task.notify {
        Some(notify) => notify,
        None => {
            return Ok(NotifyStart::Nothing);
        },
    };
    let n = match notifications {
        Some(n) => n,
        None => {
            return Err(
                Failure::new(
                    concat3(
                        "task '",
                        &task.id,
                        "' requested notify but notifications are not configured",
                    ),
                ),
            );
        },
    };
    if !n.enabled {
        return Ok(NotifyStart::Nothing);
    }
    match &notify.result_source {
        NotifyResultSourceConfig::Stdout => match outcome.stdout() {
            Some(text) => Ok(NotifyStart::Result(text.clone())),
            None => Ok(NotifyStart::Result("".to_owned())),
        },
        NotifyResultSourceConfig::File { path } => Ok(
            NotifyStart::ReadFile(resolve_result_file(task, path)),
        ),
    }
}

/// The failure of a result file that cannot be read.
pub fn result_file_failure(task: &TaskConfig, path: &str, error: &str) -> (r: Failure)
    ensures
        r@ == caused(
            "failed to read notify result file for task '"@ + task@.id + "' from '"@ + path@
                + "'"@,
            error@,
        ),
{
    Failure::caused_by(
        concat5(
            "failed to read notify result file for task '",
            &task.id,
            "' from '",
            path,
            "'",
        ),
        error,
    )
}

// ---------------------------------------------------------------------------------------------
// What is rendered and sent
// ---------------------------------------------------------------------------------------------
/// How a due notification is made: what words it, and which variable holds its address.
#[derive(Debug)]
pub struct NotifyPlan {
    pub renderer: PiRendererConfig,
    pub url_env: String,
}

/// How a due notification is made.
pub struct NotifyPlanView {
    pub renderer: RendererView,
    pub url_env: Seq<char>,
}

/// How a due notification is made, in views; none where none is due.
pub open spec fn plan_result(r: Result<Option<NotifyPlan>, Failure>) -> Result<
    Option<NotifyPlanView>,
    FailureView,
> {
    match r {
        Ok(Some(plan)) => Ok(
            Some(NotifyPlanView { renderer: plan.renderer@, url_env: plan.url_env@ }),
        ),
        Ok(None) => Ok(None),
        Err(f) => Err(f@),
    }
}

/// How a notification is made, given whether the result asks for it.
pub open spec fn notify_plan(
    n: NotificationsView,
    task_id: Seq<char>,
    wanted: Result<bool, FailureView>,
) -> Result<Option<NotifyPlanView>, FailureView> {
    match wanted {
        Err(f) => Err(f),
        Ok(wanted) => if !wanted {
            Ok(None)
        } else if n.renderer is None {
            Err(
                plain(
                    "task '"@ + task_id
                        + "' requested notify but notifications.renderer is not configured"@,
                ),
            )
        } else if n.webhook is None {
            Err(
                plain(
                    "task '"@ + task_id
                        + "' requested notify but notifications.webhook is not configured"@,
                ),
            )
        } else {
            Ok(Some(NotifyPlanView { renderer: n.renderer->0, url_env: n.webhook->0 }))
        },
    }
}

/// How a notification is made, given whether the result asks for it.
pub fn judge_notification(
    n: &NotificationsConfig,
    task: &TaskConfig,
    wanted: Result<bool, Failure>,
) -> (r: Result<Option<NotifyPlan>, Failure>)
    ensures
        plan_result(r) == notify_plan(n@, task@.id, decision(wanted)),
{
    match wanted {
        Err(f) => Err(f),
        Ok(wanted) => {
            if !wanted {
                return Ok(None);
            }
            match (&n.renderer, &n.webhook) {
                (None, _) => Err(
                    Failure::new(
                        concat3(
                            "task '",
                            &task.id,
                            "' requested notify but notifications.renderer is not configured",
                        ),
                    ),
                ),
                (Some(_), None) => Err(
                    Failure::new(
                        concat3(
                            "task '",
                            &task.id,
                            "' requested notify but notifications.webhook is not configured",
                        ),
                    ),
                ),
                (Some(renderer), Some(webhook)) => Ok(
                    Some(
                        NotifyPlan {
                            renderer: renderer.clone(),
                            url_env: webhook.url_env.clone(),
                        },
                    ),
                ),
            }
        },
    }
}

/// How a notification on a result is made; none where the result does not ask for one.
pub fn plan_notification(
    n: &NotificationsConfig,
    task: &TaskConfig,
    task_result: &str,
) -> (r: Result<Option<NotifyPlan>, Failure>)
    ensures
        plan_result(r) == notify_plan(n@, task@.id, wants_notification(task_result@)),
{
    judge_notification(n, task, should_send_notification(task_result))
}

/// A notification is sent only where the task asks for notifications and they are enabled.
pub proof fn law_notifications_are_opt_in(
    notifications: Option<NotificationsView>,
    task: TaskView,
    stdout: Option<Seq<char>>,
)
    ensures
        notify_start(notifications, task, stdout) matches Ok(start) && !(start is Nothing)
            ==> task.notify is Some && notifications is Some && notifications->0.enabled,
        task.notify is None ==> notify_start(notifications, task, stdout) == Ok::<
            NotifyStartView,
            FailureView,
        >(NotifyStartView::Nothing),
{
}

/// A result that is a JSON object with `notify` set to false is not sent. One without that field
/// is.
pub proof fn law_results_can_decline(n: NotificationsView, task_id: Seq<char>, result: Seq<char>)
    requires
        trimmed(result).len() > 0,
    ensures
        json_field(trimmed(result), "notify"@) == JsonField::Present(JsonKind::Bool(false))
            ==> notify_plan(n, task_id, wants_notification(result)) == Ok::<
            Option<NotifyPlanView>,
            FailureView,
        >(None),
        json_field(trimmed(result), "notify"@) == JsonField::Absent ==> wants_notification(result)
            == Ok::<bool, FailureView>(true),
{
}

/// In a valid configuration every task that notifies finds what it needs: the start does not fail,
/// and a wanted notification has a renderer and an address.
pub proof fn law_valid_tasks_can_notify(
    c: AppView,
    survey: Map<Seq<char>, PathKind>,
    i: int,
    stdout: Option<Seq<char>>,
)
    requires
        config_valid(c, survey),
        0 <= i < c.tasks.len(),
        c.tasks[i].notify is Some,
    ensures
        notify_start(c.notifications, c.tasks[i], stdout) matches Ok(start) && !(start is Nothing),
        notify_plan(c.notifications->0, c.tasks[i].id, Ok(true)) == Ok::<
            Option<NotifyPlanView>,
            FailureView,
        >(
            Some(
                NotifyPlanView {
                    renderer: c.notifications->0.renderer->0,
                    url_env: c.notifications->0.webhook->0,
                },
            ),
        ),
{
    assert(task_valid(c.tasks[i], c.notifications, survey));
}

/// The directory in which the input of a renderer is left.
pub open spec fn notify_dir(temp_dir: Seq<char>, task_id: Seq<char>, run_id: Seq<char>) -> Seq<
    char,
> {
    join(join(temp_dir, "taskd-notify"@), task_id + "-"@ + run_id.subrange(0, 8))
}

/// The directory in which the input of a renderer is left.
pub fn notification_temp_dir(task: &TaskConfig, temp_dir: &str, run_id: &str) -> (r: String)
    requires
        run_id@.len() >= 8,
    ensures
        r@ == notify_dir(temp_dir@, task@.id, run_id@),
{
    let short = text_range(&chars_of(run_id), 0, 8);
    join_path(&join_path(temp_dir, "taskd-notify"), &concat3(&task.id, "-", &short))
}

/// The failures on the way to the input of a renderer. The texts are the errors below.
#[derive(Debug)]
pub enum InputFault {
    Directory(String),
    Encode(String),
    Write(String),
}

/// What a fault on the way to the input of a renderer says.
pub open spec fn input_failure(
    dir: Seq<char>,
    file: Seq<char>,
    fault: InputFault,
) -> FailureView {
    match fault {
        InputFault::Directory(e) => caused(
            "failed to create notification temp dir '"@ + dir + "'"@,
            e@,
        ),
        InputFault::Encode(e) => caused("failed to encode notification input"@, e@),
        InputFault::Write(e) => caused(
            "failed to write notification input '"@ + file + "'"@,
            e@,
        ),
    }
}

/// The failure behind a fault on the way to the input of a renderer.
pub fn judge_input_fault(dir: &str, file: &str, fault: &InputFault) -> (r: Failure)
    ensures
        r@ == input_failure(dir@, file@, *fault),
{
    match fault {
        InputFault::Directory(e) => Failure::caused_by(
            concat3("failed to create notification temp dir '", dir, "'"),
            e,
        ),
        InputFault::Encode(e) => Failure::caused_by(
            "failed to encode notification input".to_owned(),
            e,
        ),
        InputFault::Write(e) => Failure::caused_by(
            concat3("failed to write notification input '", file, "'"),
            e,
        ),
    }
}

/// An option of a command line with its value, where there is one.
pub open spec fn option_args(name: Seq<char>, value: Option<Seq<char>>) -> Seq<Seq<char>> {
    match value {
        Some(v) => seq![name, v],
        None => Seq::empty(),
    }
}

/// The arguments of a renderer.
pub open spec fn renderer_args(r: RendererView, input: Seq<char>) -> Seq<Seq<char>> {
    seq!["--print"@, "--no-session"@] + option_args("--session-dir"@, r.session_dir)
        + option_args("--provider"@, r.provider) + option_args("--model"@, r.model) + seq![
        "@"@ + input,
        r.prompt,
    ]
}

/// The variables of a renderer: the inherited ones, its own on top, then those that describe the
/// notification.
pub open spec fn renderer_env(
    r: RendererView,
    inherited: Map<Seq<char>, Seq<char>>,
    task: TaskView,
    input: Seq<char>,
) -> Map<Seq<char>, Seq<char>> {
    let own = overlaid(inherited, map_of(r.env));
    let agent = match r.agent_dir {
        Some(dir) => own.insert("PI_CODING_AGENT_DIR"@, dir),
        None => own,
    };
    agent.insert("TASKD_NOTIFY_INPUT_FILE"@, input).insert("TASKD_TASK_ID"@, task.id).insert(
        "TASKD_TASK_NAME"@,
        task.name,
    )
}

/// How a renderer is launched.
pub open spec fn renderer_launch(
    r: RendererView,
    inherited: Map<Seq<char>, Seq<char>>,
    task: TaskView,
    input: Seq<char>,
) -> LaunchView {
    LaunchView {
        program: r.program,
        args: renderer_args(r, input),
        workdir: Some(r.workdir),
        env: renderer_env(r, inherited, task, input),
    }
}

fn push_option(args: &mut Vec<String>, name: &str, value: &Option<String>)
    ensures
        texts(final(args)@) == texts(old(args)@) + option_args(name@, opt_text(*value)),
{
    if let Some(v) = value {
        args.push(name.to_owned());
        args.push(v.clone());
    }
    assert(texts(args@) =~= texts(old(args)@) + option_args(name@, opt_text(*value)));
}

fn renderer_arg_texts(renderer: &PiRendererConfig, input: &str) -> (r: Vec<String>)
    ensures
        texts(r@) == renderer_args(renderer@, input@),
{
    let mut args: Vec<String> = Vec::new();
    args.push("--print".to_owned());
    args.push("--no-session".to_owned());
    assert(texts(args@) =~= seq!["--print"@, "--no-session"@]);
    push_option(&mut args, "--session-dir", &renderer.session_dir);
    push_option(&mut args, "--provider", &renderer.provider);
    push_option(&mut args, "--model", &renderer.model);
    let ghost prior = texts(args@);
    args.push(concat("@", input));
    args.push(renderer.prompt.clone());
    assert(texts(args@) =~= prior + seq!["@"@ + input@, renderer@.prompt]);
    args
}

/// How a renderer is launched on the input that stands in a file.
pub fn plan_renderer(
    renderer: &PiRendererConfig,
    task: &TaskConfig,
    input_path: &str,
    inherited_env: &EnvMap,
) -> (r: Launch)
    ensures
        r@ == renderer_launch(
            renderer@,
            map_of(text_pairs(*inherited_env)),
            task@,
            input_path@,
        ),
{
    let args = renderer_arg_texts(renderer, input_path);
    let mut env = overlay(inherited_env, &renderer.env);
    if let Some(dir) = &renderer.agent_dir {
        set_var(&mut env, "PI_CODING_AGENT_DIR", dir);
    }
    set_var(&mut env, "TASKD_NOTIFY_INPUT_FILE", input_path);
    set_var(&mut env, "TASKD_TASK_ID", &task.id);
    set_var(&mut env, "TASKD_TASK_NAME", &task.name);
    Launch {
        program: renderer.program.clone(),
        args,
        workdir: Some(renderer.workdir.clone()),
        env,
    }
}

/// How a renderer ended.
#[derive(Debug)]
pub enum RenderEnd {
    /// It was stopped when its time was up; the text is the error below.
    TimedOut(String),
    /// It could not be run.
    NotRun(String),
    /// It ended; the texts say how, and what it wrote.
    Finished { success: bool, status: String, stdout: String, stderr: String },
}

/// What a renderer gave: a text, or a failure.
pub open spec fn rendered(program: Seq<char>, timeout: Option<u64>, end: RenderEnd) -> Result<
    Seq<char>,
    FailureView,
> {
    match end {
        RenderEnd::TimedOut(error) => Err(
            caused(
                "pi renderer command '"@ + program + "' timed out after "@ + decimal(
                    match timeout {
                        Some(seconds) => seconds as nat,
                        None => 0,
                    },
                ) + "s"@,
                error@,
            ),
        ),
        RenderEnd::NotRun(error) => Err(plain(error@)),
        RenderEnd::Finished { success, status, stdout, stderr } => if !success {
            Err(
                plain(
                    "pi renderer command '"@ + program + "' exited with "@ + status@ + ": "@
                        + trimmed(stderr@),
                ),
            )
        } else if !crate::text::blank(stdout@) {
            Ok(stdout@)
        } else {
            Err(plain("pi renderer command '"@ + program + "' produced no stdout content"@))
        },
    }
}

/// A text or a failure in views.
pub open spec fn text_result(r: Result<String, Failure>) -> Result<Seq<char>, FailureView> {
    match r {
        Ok(s) => Ok(s@),
        Err(f) => Err(f@),
    }
}

/// What a renderer gave: the text that it wrote, unless it failed or wrote nothing.
pub fn conclude_renderer(renderer: &PiRendererConfig, end: &RenderEnd) -> (r: Result<
    String,
    Failure,
>)
    requires
        end is TimedOut ==> renderer@.timeout_seconds is Some,
    ensures
        text_result(r) == rendered(renderer@.program, renderer@.timeout_seconds, *end),
{
    match end {
        RenderEnd::TimedOut(error) => {
            let seconds: u64 = match renderer.timeout_seconds {
                Some(seconds) => seconds,
                None => 0,
            };
            let mut message = concat3(
                "pi renderer command '",
                &renderer.program,
                "' timed out after ",
            );
            message.append(&decimal_text(seconds));
            message.append("s");
            Err(Failure::caused_by(message, error))
        },
        RenderEnd::NotRun(error) => Err(Failure::new(error.clone())),
        RenderEnd::Finished { success, status, stdout, stderr } => {
            if !*success {
                let mut message = concat5(
                    "pi renderer command '",
                    &renderer.program,
                    "' exited with ",
                    status,
                    ": ",
                );
                message.append(&trim_text(stderr));
                return Err(Failure::new(message));
            }
            if !is_blank(stdout) {
                return Ok(stdout.clone());
            }
            Err(
                Failure::new(
                    concat3(
                        "pi renderer command '",
                        &renderer.program,
                        "' produced no stdout content",
                    ),
                ),
            )
        },
    }
}

/// The address of a webhook: the loaded variable, or else that of the process.
pub open spec fn webhook_url(
    url_env: Seq<char>,
    loaded: Map<Seq<char>, Seq<char>>,
    process: Option<Seq<char>>,
) -> Result<Seq<char>, FailureView> {
    if loaded.dom().contains(url_env) {
        Ok(loaded[url_env])
    } else {
        match process {
            Some(url) => Ok(url),
            None => Err(plain("webhook env '"@ + url_env + "' is not set"@)),
        }
    }
}

/// The address of a webhook: the loaded variable, or else that of the process.
pub fn resolve_webhook_url(
    url_env: &str,
    loaded: &EnvMap,
    process: &Option<String>,
) -> (r: Result<String, Failure>)
    ensures
        text_result(r) == webhook_url(url_env@, env_of(loaded@), opt_text(*process)),
{
    if let Some(url) = loaded.get(url_env) {
        return Ok(url.clone());
    }
    match process {
        Some(url) => Ok(url.clone()),
        None => Err(Failure::new(concat3("webhook env '", url_env, "' is not set"))),
    }
}

/// How a webhook answered.
#[derive(Debug)]
pub enum WebhookReply {
    Accepted,
    /// The request could not be sent; the text is the error below.
    NotSent(String),
    /// The webhook answered with another status. The texts are that status and the body, where it
    /// could be read.
    Refused(String, Option<String>),
}

/// The failure behind a reply of a webhook.
pub open spec fn reply_failure(reply: WebhookReply) -> Option<FailureView> {
    match reply {
        WebhookReply::Accepted => None,
        WebhookReply::NotSent(error) => Some(caused("failed to send webhook request"@, error@)),
        WebhookReply::Refused(status, body) => Some(
            plain(
                "webhook returned "@ + status@ + ": "@ + trimmed(
                    match body {
                        Some(text) => text@,
                        None => "<unreadable webhook response>"@,
                    },
                ),
            ),
        ),
    }
}

/// Reports the reply of a webhook.
pub fn judge_webhook_reply(reply: &WebhookReply) -> (r: Result<(), Failure>)
    ensures
        told(r) == reply_failure(*reply),
{
    match reply {
        WebhookReply::Accepted => Ok(()),
        WebhookReply::NotSent(error) => Err(
            Failure::caused_by("failed to send webhook request".to_owned(), error),
        ),
        WebhookReply::Refused(status, body) => {
            let shown = match body {
                Some(text) => trim_text(text),
                None => trim_text("<unreadable webhook response>"),
            };
            let mut message = concat3("webhook returned ", status, ": ");
            message.append(&shown);
            Err(Failure::new(message))
        },
    }
}

// ---------------------------------------------------------------------------------------------
// The input of a renderer
// ---------------------------------------------------------------------------------------------
/// What a renderer is told of a run.
pub struct RendererInputView {
    pub task_id: Seq<char>,
    pub task_name: Seq<char>,
    pub status: TaskRunStatus,
    pub summary: Seq<char>,
    pub exit_code: i32,
    pub started_at: (int, int),
    pub finished_at: (int, int),
    pub result: Seq<char>,
    pub stdout: Option<Seq<char>>,
    pub stderr: Option<Seq<char>>,
    pub steps: Seq<StepView>,
    pub meta: Map<Seq<char>, Seq<char>>,
}

/// What a renderer is told of a run.
#[derive(Debug)]
pub struct NotificationRendererInput {
    pub task_id: String,
    pub task_name: String,
    pub status: TaskRunStatus,
    pub summary: String,
    pub exit_code: i32,
    pub started_at: Timestamp,
    pub finished_at: Timestamp,
    pub result: String,
    pub stdout: Option<String>,
    pub stderr: Option<String>,
    pub steps: Vec<TaskStepResult>,
    pub meta: TextMap<String>,
}

impl View for NotificationRendererInput {
    type V = RendererInputView;

    open spec fn view(&self) -> RendererInputView {
        RendererInputView {
            task_id: self.task_id@,
            task_name: self.task_name@,
            status: self.status,
            summary: self.summary@,
            exit_code: self.exit_code,
            started_at: self.started_at@,
            finished_at: self.finished_at@,
            result: self.result@,
            stdout: opt_text(self.stdout),
            stderr: opt_text(self.stderr),
            steps: step_views(self.steps@),
            meta: env_of(self.meta@),
        }
    }
}

/// A result source in words.
pub open spec fn source_words(source: Option<ResultSourceView>) -> Seq<char> {
    match source {
        Some(ResultSourceView::Stdout) => "stdout"@,
        Some(ResultSourceView::File { path }) => "file:"@ + path,
        None => "disabled"@,
    }
}

/// What a renderer is told of a run.
pub open spec fn renderer_input(t: TaskView, o: OutcomeView, result: Seq<char>) -> RendererInputView {
    RendererInputView {
        task_id: t.id,
        task_name: t.name,
        status: o.status,
        summary: o.summary,
        exit_code: outcome_exit_code(o) as i32,
        started_at: o.started_at,
        finished_at: o.finished_at,
        result,
        stdout: o.stdout,
        stderr: o.stderr,
        steps: o.steps,
        meta: Map::empty().insert("schedule"@, schedule_summary(t.schedule)).insert(
            "notify_result_source"@,
            source_words(t.notify),
        ),
    }
}

fn copy_text_ref(o: Option<&String>) -> (r: Option<String>)
    ensures
        match o {
            Some(s) => opt_text(r) == Some(s@),
            None => r is None,
        },
{
    match o {
        Some(s) => Some(s.clone()),
        None => None,
    }
}

impl NotificationRendererInput {
    /// What a renderer is told of a run.
    pub fn from_task(task: &TaskConfig, outcome: &TaskOutcome, result: String) -> (r:
        NotificationRendererInput)
        ensures
            r@ == renderer_input(task@, outcome@, result@),
    {
        let source = match &task.notify {
            Some(notify) => match &notify.result_source {
                NotifyResultSourceConfig::Stdout => "stdout".to_owned(),
                NotifyResultSourceConfig::File { path } => concat("file:", path),
            },
            None => "disabled".to_owned(),
        };
        let mut meta: TextMap<String> = TextMap::new();
        meta.insert("schedule".to_owned(), task.schedule.summary());
        meta.insert("notify_result_source".to_owned(), source);
        let r = NotificationRendererInput {
            task_id: task.id.clone(),
            task_name: task.name.clone(),
            status: outcome.status(),
            summary: outcome.summary().to_owned(),
            exit_code: outcome.exit_code(),
            started_at: outcome.started_at(),
            finished_at: outcome.finished_at(),
            result,
            stdout: copy_text_ref(outcome.stdout()),
            stderr: copy_text_ref(outcome.stderr()),
            steps: copy_steps(outcome.steps()),
            meta,
        };
        assert(r@.meta =~= renderer_input(task@, outcome@, result@).meta);
        r
    }
}

} // verus!

//! What holds of notifications: how long they are, when they are due, what words them, and where
//! they go.

use vstd::prelude::*;

use crate::config::{
    schedule_summary, NotificationsView, RendererView, ResultSourceView, TaskView,
};
use crate::failure::FailureView;
use crate::notifications::{
    asks_for_notification, fitted, json_field, notify_dir, notify_plan, notify_start, rendered,
    renderer_input, renderer_launch, reply_failure, result_file, wants_notification, webhook_url,
    JsonField, JsonKind, NotifyPlanView, NotifyStartView, RenderEnd, WebhookReply,
};
use crate::paths::{absolute, join};
use crate::task_runner::{outcome_exit_code, OutcomeView};
use crate::text::{blank, trimmed};
use crate::text_map::map_of;

verus! {

/// A message of up to 2000 characters stays as it is. A longer one becomes one of exactly 2000: its
/// first characters, and a note that it was cut.
pub proof fn law_messages_fit(body: Seq<char>)
    ensures
        body.len() <= 2000 ==> fitted(body) == body,
        body.len() > 2000 ==> fitted(body).len() == 2000 && fitted(body).subrange(0, 1987)
            == body.subrange(0, 1987) && fitted(body).subrange(1987, 2000)
            == "\n\n[truncated]"@,
{
    reveal_strlit("\n\n[truncated]");
    assert("\n\n[truncated]"@.len() == 13);
    if body.len() > 2000 {
        assert(fitted(body).subrange(0, 1987) =~= body.subrange(0, 1987));
        assert(fitted(body).subrange(1987, 2000) =~= "\n\n[truncated]"@);
    }
}

/// A result decides on its notification only where it is a JSON object with a `notify` field: true
/// and false are followed, anything else there is a failure. Every other result is notified of.
pub proof fn law_results_decide(result: Seq<char>)
    ensures
        blank(result) ==> wants_notification(result) == Ok::<bool, FailureView>(true),
        !blank(result) ==> match json_field(trimmed(result), "notify"@) {
            JsonField::Invalid => wants_notification(result) == Ok::<bool, FailureView>(true),
            JsonField::NoObject => wants_notification(result) == Ok::<bool, FailureView>(true),
            JsonField::Absent => wants_notification(result) == Ok::<bool, FailureView>(true),
            JsonField::Present(JsonKind::Bool(value)) => wants_notification(result) == Ok::<
                bool,
                FailureView,
            >(value),
            JsonField::Present(_) => wants_notification(result) is Err,
        },
{
    crate::text::law_blank_iff_trimmed_empty(result);
}

/// A `notify` field decides exactly where it is true or false, and is a failure where it is anything
/// else.
pub proof fn law_notify_fields(field: JsonField)
    ensures
        asks_for_notification(field) == Ok::<bool, FailureView>(false) <==> field
            == JsonField::Present(JsonKind::Bool(false)),
        asks_for_notification(field) is Err <==> field is Present && !(field->Present_0 is Bool),
{
}

/// An absolute result file is taken as it is; any other stands in the working directory of the task,
/// where it has one.
pub proof fn law_result_files(workdir: Option<Seq<char>>, path: Seq<char>)
    ensures
        absolute(path) ==> result_file(workdir, path) == path,
        !absolute(path) && workdir is Some ==> result_file(workdir, path) == join(workdir->0, path),
        !absolute(path) && workdir is None ==> result_file(workdir, path) == path,
{
}

/// A notification is due exactly where the task notifies and notifications are enabled; it is then
/// made from what the task wrote, or from its result file. It is a failure to notify without any
/// notifications.
pub proof fn law_notifications_start(
    notifications: Option<NotificationsView>,
    task: TaskView,
    stdout: Option<Seq<char>>,
)
    ensures
        ({
            let start = notify_start(notifications, task, stdout);
            &&& start is Err <==> task.notify is Some && notifications is None
            &&& task.notify is None ==> start == Ok::<NotifyStartView, FailureView>(
                NotifyStartView::Nothing,
            )
            &&& task.notify is Some && notifications is Some && !notifications->0.enabled ==> start
                == Ok::<NotifyStartView, FailureView>(NotifyStartView::Nothing)
            &&& task.notify is Some && notifications is Some && notifications->0.enabled
                ==> match task.notify->0 {
                ResultSourceView::Stdout => start == Ok::<NotifyStartView, FailureView>(
                    NotifyStartView::Result(
                        if stdout is Some {
                            stdout->0
                        } else {
                            ""@
                        },
                    ),
                ),
                ResultSourceView::File { path } => start == Ok::<NotifyStartView, FailureView>(
                    NotifyStartView::ReadFile(result_file(task.command.workdir, path)),
                ),
            }
        }),
{
}

/// A notification that is wanted needs a renderer and an address, and is made with just these. One
/// that is not wanted needs nothing.
pub proof fn law_notifications_are_planned(
    n: NotificationsView,
    task_id: Seq<char>,
    wanted: Result<bool, FailureView>,
)
    ensures
        wanted is Err ==> notify_plan(n, task_id, wanted) == Err::<
            Option<NotifyPlanView>,
            FailureView,
        >(wanted->Err_0),
        wanted == Ok::<bool, FailureView>(false) ==> notify_plan(n, task_id, wanted) == Ok::<
            Option<NotifyPlanView>,
            FailureView,
        >(None),
        wanted == Ok::<bool, FailureView>(true) ==> {
            &&& notify_plan(n, task_id, wanted) is Ok <==> n.renderer is Some && n.webhook is Some
            &&& n.renderer is Some && n.webhook is Some ==> notify_plan(n, task_id, wanted)->Ok_0
                is Some && notify_plan(n, task_id, wanted)->Ok_0->0.renderer == n.renderer->0
                && notify_plan(n, task_id, wanted)->Ok_0->0.url_env == n.webhook->0
        },
{
}

/// A renderer runs its own program in its own directory. It is told to print, to keep no session,
/// where sessions stand, its provider and its model where it has them, and at the end the file with
/// its input and its prompt.
#[verifier::rlimit(50)]
pub proof fn law_renderers_are_launched(
    r: RendererView,
    inherited: Map<Seq<char>, Seq<char>>,
    task: TaskView,
    input: Seq<char>,
)
    ensures
        ({
            let launch = renderer_launch(r, inherited, task, input);
            let n = launch.args.len();
            let s = if r.session_dir is Some {
                2int
            } else {
                0
            };
            let p = if r.provider is Some {
                2int
            } else {
                0
            };
            let m = if r.model is Some {
                2int
            } else {
                0
            };
            &&& launch.program == r.program
            &&& launch.workdir == Some(r.workdir)
            &&& n == 4 + s + p + m
            &&& launch.args[0] == "--print"@
            &&& launch.args[1] == "--no-session"@
            &&& r.session_dir is Some ==> launch.args[2] == "--session-dir"@ && launch.args[3]
                == r.session_dir->0
            &&& r.provider is Some ==> launch.args[2 + s] == "--provider"@ && launch.args[3 + s]
                == r.provider->0
            &&& r.model is Some ==> launch.args[2 + s + p] == "--model"@ && launch.args[3 + s + p]
                == r.model->0
            &&& launch.args[n - 2] == "@"@ + input
            &&& launch.args[n - 1] == r.prompt
        }),
{
}

/// A renderer finds the file with its input, the id and the name of the task and, where it is set,
/// the directory of its agent in variables of their own. Otherwise its own variables come before
/// the inherited ones, and no others are there.
#[verifier::rlimit(50)]
pub proof fn law_renderers_are_told(
    r: RendererView,
    inherited: Map<Seq<char>, Seq<char>>,
    task: TaskView,
    input: Seq<char>,
    name: Seq<char>,
)
    ensures
        ({
            let env = renderer_launch(r, inherited, task, input).env;
            let own = map_of(r.env);
            let told = name == "TASKD_NOTIFY_INPUT_FILE"@ || name == "TASKD_TASK_ID"@ || name
                == "TASKD_TASK_NAME"@ || (name == "PI_CODING_AGENT_DIR"@ && r.agent_dir is Some);
            &&& env.dom().contains("TASKD_NOTIFY_INPUT_FILE"@) && env["TASKD_NOTIFY_INPUT_FILE"@]
                == input
            &&& env.dom().contains("TASKD_TASK_ID"@) && env["TASKD_TASK_ID"@] == task.id
            &&& env.dom().contains("TASKD_TASK_NAME"@) && env["TASKD_TASK_NAME"@] == task.name
            &&& r.agent_dir is Some ==> env.dom().contains("PI_CODING_AGENT_DIR"@)
                && env["PI_CODING_AGENT_DIR"@] == r.agent_dir->0
            &&& !told ==> (env.dom().contains(name) <==> own.dom().contains(name)
                || inherited.dom().contains(name))
            &&& !told && own.dom().contains(name) ==> env[name] == own[name]
            &&& !told && !own.dom().contains(name) && inherited.dom().contains(name) ==> env[name]
                == inherited[name]
        }),
{
    reveal_strlit("TASKD_NOTIFY_INPUT_FILE");
    reveal_strlit("TASKD_TASK_ID");
    reveal_strlit("TASKD_TASK_NAME");
    reveal_strlit("PI_CODING_AGENT_DIR");
    assert("TASKD_NOTIFY_INPUT_FILE"@.len() == 23 && "TASKD_TASK_ID"@.len() == 13);
    assert("TASKD_TASK_NAME"@.len() == 15 && "PI_CODING_AGENT_DIR"@.len() == 19);
}

/// The input of a renderer stands below the temporary directory, under the id of the task and the
/// start of that of the run.
pub proof fn law_renderer_inputs_stand_apart(
    temp_dir: Seq<char>,
    task_id: Seq<char>,
    run_id: Seq<char>,
)
    requires
        run_id.len() >= 8,
    ensures
        exists|name: Seq<char>|
            {
                &&& notify_dir(temp_dir, task_id, run_id) == #[trigger] join(
                    join(temp_dir, "taskd-notify"@),
                    name,
                )
                &&& name.len() == task_id.len() + 9
                &&& name.subrange(0, task_id.len() as int) == task_id
                &&& name[task_id.len() as int] == '-'
                &&& forall|i: int| 0 <= i < 8 ==> #[trigger] name[task_id.len() + 1 + i] == run_id[i]
            },
{
    reveal_strlit("-");
    let name = task_id + "-"@ + run_id.subrange(0, 8);
    assert(name.subrange(0, task_id.len() as int) =~= task_id);
    assert(notify_dir(temp_dir, task_id, run_id) == join(join(temp_dir, "taskd-notify"@), name));
}

/// A renderer gives just what it wrote, exactly where it succeeded and wrote more than white space.
pub proof fn law_renderers_give_their_text(
    program: Seq<char>,
    timeout: Option<u64>,
    end: RenderEnd,
)
    ensures
        match end {
            RenderEnd::TimedOut(error) => rendered(program, timeout, end) is Err && rendered(
                program,
                timeout,
                end,
            )->Err_0.cause == Some(error@),
            RenderEnd::NotRun(error) => rendered(program, timeout, end) is Err && rendered(
                program,
                timeout,
                end,
            )->Err_0.message == error@,
            RenderEnd::Finished { success, status, stdout, stderr } => {
                &&& rendered(program, timeout, end) is Ok <==> success && !blank(stdout@)
                &&& success && !blank(stdout@) ==> rendered(program, timeout, end)->Ok_0 == stdout@
                &&& !success ==> rendered(program, timeout, end)->Err_0.message
                    == "pi renderer command '"@ + program + "' exited with "@ + status@ + ": "@
                    + trimmed(stderr@)
            },
        },
{
}

/// The address comes from the loaded variables where they have it, and otherwise from those of the
/// process; without either there is none.
pub proof fn law_addresses(
    url_env: Seq<char>,
    loaded: Map<Seq<char>, Seq<char>>,
    process: Option<Seq<char>>,
)
    ensures
        loaded.dom().contains(url_env) ==> webhook_url(url_env, loaded, process) == Ok::<
            Seq<char>,
            FailureView,
        >(loaded[url_env]),
        !loaded.dom().contains(url_env) && process is Some ==> webhook_url(url_env, loaded, process)
            == Ok::<Seq<char>, FailureView>(process->0),
        !loaded.dom().contains(url_env) && process is None ==> webhook_url(url_env, loaded, process)
            is Err,
{
}

/// Sending succeeded exactly where the message was accepted.
pub proof fn law_replies(reply: WebhookReply)
    ensures
        reply_failure(reply) is None <==> reply is Accepted,
        reply matches WebhookReply::NotSent(error) ==> reply_failure(reply)->0.cause == Some(error@),
        reply matches WebhookReply::Refused(status, Some(body)) ==> reply_failure(reply)->0.message
            == "webhook returned "@ + status@ + ": "@ + trimmed(body@),
{
}

/// A renderer is told whose run it is, how it ended, when it started and ended, what it wrote, and
/// when the task is due.
pub proof fn law_renderers_know_the_run(t: TaskView, o: OutcomeView, result: Seq<char>)
    ensures
        ({
            let i = renderer_input(t, o, result);
            &&& i.task_id == t.id
            &&& i.task_name == t.name
            &&& i.status == o.status
            &&& i.summary == o.summary
            &&& i32::MIN <= outcome_exit_code(o) <= i32::MAX ==> i.exit_code == outcome_exit_code(o)
            &&& i.started_at == o.started_at
            &&& i.finished_at == o.finished_at
            &&& i.result == result
            &&& i.stdout == o.stdout
            &&& i.stderr == o.stderr
            &&& i.steps == o.steps
            &&& i.meta.dom().contains("schedule"@) && i.meta["schedule"@] == schedule_summary(
                t.schedule,
            )
            &&& i.meta.dom().contains("notify_result_source"@)
            &&& match t.notify {
                Some(ResultSourceView::Stdout) => i.meta["notify_result_source"@] == "stdout"@,
                Some(ResultSourceView::File { path }) => i.meta["notify_result_source"@] == "file:"@
                    + path,
                None => i.meta["notify_result_source"@] == "disabled"@,
            }
        }),
{
    reveal_strlit("schedule");
    reveal_strlit("notify_result_source");
    assert("schedule"@.len() == 8 && "notify_result_source"@.len() == 20);
}

} // verus!

//! What holds of each setting by itself: when it is accepted, what it is looked up under, and when
//! two of them are the same.

use vstd::prelude::*;
use vstd::std_specs::cmp::PartialEqSpec;

use crate::calendar::{cron_fault, zone_known};
use crate::config::{
    command_failure, concurrency_failure, config_failure, config_paths, empty_config, kind_at,
    load_failure, notification_paths, notifications_failure, notify_failure, opt_list,
    position_of, renderer_failure, retry_failure, same_app, same_command, same_notifier,
    same_renderer, same_source, same_task, schedule_failure, schedule_summary, task_failure,
    task_paths, valid_id, with_enabled, write_failure, AppView, CommandConfig, CommandView,
    ConcurrencyConfig, ConcurrencyPolicy, ConfigRead, FileWrite, NotificationsView, PathKind,
    RendererView, ResultSourceView, RetryConfig, ScheduleConfig, ScheduleView, TaskConfig, TaskView,
};
use crate::config_laws::{lemma_first_with_id, lemma_task_valid, lemma_tasks_valid, task_valid};
use crate::paths::same;
use crate::text::{blank, decimal};

verus! {

// ---------------------------------------------------------------------------------------------
// Accepted settings
// ---------------------------------------------------------------------------------------------
/// A path that was looked at is what the survey says; any other counts as missing.
pub proof fn law_surveys_are_believed(survey: Map<Seq<char>, PathKind>, path: Seq<char>)
    ensures
        survey.dom().contains(path) ==> kind_at(survey, path) == survey[path],
        !survey.dom().contains(path) ==> kind_at(survey, path) == PathKind::Missing,
{
}

/// One, two or three runs may overlap where the policy allows it, and otherwise just one may go on.
pub proof fn law_concurrency_rules(c: ConcurrencyConfig, path: Seq<char>)
    ensures
        c.policy == ConcurrencyPolicy::Allow ==> (concurrency_failure(c, path) is None
            <==> c.max_running == 1 || c.max_running == 2 || c.max_running == 3),
        c.policy == ConcurrencyPolicy::Forbid ==> (concurrency_failure(c, path) is None
            <==> c.max_running == 1),
        c.policy == ConcurrencyPolicy::Replace ==> (concurrency_failure(c, path) is None
            <==> c.max_running == 1),
{
}

/// A task that is tried again pauses for at least a second before it is; one that is not may name
/// any pause.
pub proof fn law_retry_rules(c: RetryConfig, path: Seq<char>)
    ensures
        c.max_attempts == 0 ==> retry_failure(c, path) is None,
        c.max_attempts > 0 ==> (retry_failure(c, path) is None <==> c.delay_seconds >= 1),
{
}

/// A cron schedule needs an expression that parses, and a known time zone where it names one; an
/// interval needs at least a second.
pub proof fn law_schedule_rules(s: ScheduleView, path: Seq<char>)
    ensures
        match s {
            ScheduleView::Cron { expr, timezone: Some(zone) } => schedule_failure(s, path) is None
                <==> !blank(expr) && cron_fault(expr) is None && zone_known(zone),
            ScheduleView::Cron { expr, timezone: None } => schedule_failure(s, path) is None
                <==> !blank(expr) && cron_fault(expr) is None,
            ScheduleView::Interval { seconds } => schedule_failure(s, path) is None <==> seconds
                >= 1,
        },
{
}

/// A command needs a program, no time limit of zero, and a working directory that exists where it
/// names one.
pub proof fn law_command_rules(
    c: CommandView,
    path: Seq<char>,
    survey: Map<Seq<char>, PathKind>,
)
    ensures
        command_failure(c, path, survey) is None <==> !blank(c.program) && (c.timeout_seconds is None
            || c.timeout_seconds->0 >= 1) && (c.workdir is None || kind_at(survey, c.workdir->0)
            == PathKind::Directory),
{
}

/// A renderer needs a program, a prompt, a working directory that exists and no time limit of zero;
/// its other directories may still be missing, but are not empty and nothing else stands there.
pub proof fn law_renderer_rules(
    c: RendererView,
    path: Seq<char>,
    survey: Map<Seq<char>, PathKind>,
)
    ensures
        renderer_failure(c, path, survey) is None <==> {
            &&& !blank(c.program)
            &&& !blank(c.prompt)
            &&& kind_at(survey, c.workdir) == PathKind::Directory
            &&& c.timeout_seconds is None || c.timeout_seconds->0 >= 1
            &&& c.session_dir is None || (c.session_dir->0.len() > 0 && (kind_at(
                survey,
                c.session_dir->0,
            ) == PathKind::Directory || kind_at(survey, c.session_dir->0) == PathKind::Missing))
            &&& c.agent_dir is None || (c.agent_dir->0.len() > 0 && (kind_at(survey, c.agent_dir->0)
                == PathKind::Directory || kind_at(survey, c.agent_dir->0) == PathKind::Missing))
        },
{
}

/// Disabled notifications are always accepted; enabled ones need an accepted renderer and the name
/// of the variable with the address.
pub proof fn law_notification_rules(
    c: NotificationsView,
    path: Seq<char>,
    field: Seq<char>,
    survey: Map<Seq<char>, PathKind>,
)
    ensures
        !c.enabled ==> notifications_failure(c, path, survey) is None,
        c.enabled ==> (notifications_failure(c, path, survey) is None <==> c.renderer is Some
            && renderer_failure(c.renderer->0, field, survey) is None && c.webhook is Some
            && !blank(c.webhook->0)),
{
    if c.renderer is Some {
        law_renderer_rules(c.renderer->0, field, survey);
        law_renderer_rules(c.renderer->0, path + ".renderer"@, survey);
    }
}

/// A task may notify only where notifications are accepted and enabled, and a result file needs a
/// path.
pub proof fn law_notify_rules(
    source: Option<ResultSourceView>,
    notifications: Option<NotificationsView>,
    path: Seq<char>,
    field: Seq<char>,
    survey: Map<Seq<char>, PathKind>,
)
    ensures
        source is None ==> notify_failure(source, path, notifications, survey) is None,
        source is Some ==> (notify_failure(source, path, notifications, survey) is None
            <==> notifications is Some && notifications->0.enabled && notifications_failure(
            notifications->0,
            field,
            survey,
        ) is None && match source->0 {
            ResultSourceView::Stdout => true,
            ResultSourceView::File { path: file } => file.len() > 0,
        }),
{
    if notifications is Some {
        law_notification_rules(notifications->0, field, field, survey);
        law_notification_rules(notifications->0, path + ".notifications_ref"@, field, survey);
    }
}

/// An id has at least one character, and only letters, digits, `-`, `_` and `.`.
pub proof fn law_ids(id: Seq<char>)
    ensures
        valid_id(id) <==> id.len() > 0 && forall|i: int|
            0 <= i < id.len() ==> ('a' <= #[trigger] id[i] <= 'z') || ('A' <= id[i] <= 'Z') || ('0'
                <= id[i] <= '9') || id[i] == '-' || id[i] == '_' || id[i] == '.',
{
    if valid_id(id) {
        assert forall|i: int| 0 <= i < id.len() implies ('a' <= #[trigger] id[i] <= 'z') || ('A'
            <= id[i] <= 'Z') || ('0' <= id[i] <= '9') || id[i] == '-' || id[i] == '_' || id[i]
            == '.' by {
            assert(crate::config::id_char(id[i]));
        }
    }
}

/// A task is accepted exactly where its id is one, it has a name, and each of its settings is
/// accepted.
#[verifier::rlimit(50)]
pub proof fn law_task_rules(
    t: TaskView,
    path: Seq<char>,
    field: Seq<char>,
    notifications: Option<NotificationsView>,
    survey: Map<Seq<char>, PathKind>,
)
    ensures
        task_failure(t, path, notifications, survey) is None <==> valid_id(t.id) && !blank(t.name)
            && concurrency_failure(t.concurrency, field) is None && retry_failure(t.retry, field)
            is None && schedule_failure(t.schedule, field) is None && notify_failure(
            t.notify,
            field,
            notifications,
            survey,
        ) is None && command_failure(t.command, field, survey) is None,
{
    law_schedule_rules(t.schedule, path);
    law_schedule_rules(t.schedule, field);
    law_command_rules(t.command, path + ".command"@, survey);
    law_command_rules(t.command, field, survey);
    law_notify_rules(t.notify, notifications, path, field, survey);
    law_notify_rules(t.notify, notifications, field, field, survey);
}

/// A configuration is accepted exactly where its version is 1, its notifications and all its tasks
/// are accepted, and no two tasks share an id.
#[verifier::rlimit(50)]
pub proof fn law_configuration_rules(
    c: AppView,
    field: Seq<char>,
    survey: Map<Seq<char>, PathKind>,
)
    ensures
        config_failure(c, survey) is None <==> {
            &&& c.version == 1
            &&& c.notifications is None || notifications_failure(c.notifications->0, field, survey)
                is None
            &&& forall|i: int|
                0 <= i < c.tasks.len() ==> task_failure(
                    #[trigger] c.tasks[i],
                    field,
                    c.notifications,
                    survey,
                ) is None
            &&& forall|i: int, k: int|
                0 <= i < k < c.tasks.len() ==> (#[trigger] c.tasks[i]).id != (
                #[trigger] c.tasks[k]).id
        },
{
    lemma_tasks_valid(c, survey, 0);
    if c.notifications is Some {
        law_notification_rules(c.notifications->0, field, field, survey);
        law_notification_rules(c.notifications->0, "notifications"@, field, survey);
    }
    assert forall|i: int| 0 <= i < c.tasks.len() implies (task_failure(
        #[trigger] c.tasks[i],
        field,
        c.notifications,
        survey,
    ) is None <==> task_valid(c.tasks[i], c.notifications, survey)) by {
        lemma_task_valid(c.tasks[i], field, c.notifications, survey);
    }
}

// ---------------------------------------------------------------------------------------------
// Tasks in their list
// ---------------------------------------------------------------------------------------------
/// A task is found under its id, and the first one where several share it; nothing is found under
/// an id that no task has.
pub proof fn law_tasks_are_found_by_id(c: AppView, id: Seq<char>)
    ensures
        match position_of(c, id) {
            Some(i) => 0 <= i < c.tasks.len() && c.tasks[i].id == id && forall|k: int|
                0 <= k < i ==> (#[trigger] c.tasks[k]).id != id,
            None => forall|k: int| 0 <= k < c.tasks.len() ==> (#[trigger] c.tasks[k]).id != id,
        },
{
    lemma_first_with_id(c.tasks, id, c.tasks.len() as int);
}

/// Switching a task sets its flag to what was asked for, and leaves the rest of it and all other
/// tasks as they were.
pub proof fn law_switching_sets_one_flag(tasks: Seq<TaskView>, i: int, enabled: bool)
    requires
        0 <= i < tasks.len(),
    ensures
        ({
            let done = with_enabled(tasks, i, enabled);
            &&& done.len() == tasks.len()
            &&& done[i].enabled == enabled
            &&& done[i].id == tasks[i].id
            &&& done[i].name == tasks[i].name
            &&& done[i].concurrency == tasks[i].concurrency
            &&& done[i].retry == tasks[i].retry
            &&& done[i].schedule == tasks[i].schedule
            &&& done[i].notify == tasks[i].notify
            &&& done[i].command == tasks[i].command
            &&& forall|k: int|
                0 <= k < tasks.len() && k != i ==> #[trigger] done[k] == tasks[k]
        }),
{
}

/// The configuration that stands for a missing file is an accepted one without tasks.
pub proof fn law_the_empty_configuration_is_accepted(survey: Map<Seq<char>, PathKind>)
    ensures
        empty_config().version == 1,
        empty_config().notifications is None,
        empty_config().tasks.len() == 0,
        config_failure(empty_config(), survey) is None,
{
}

/// A file yields a configuration exactly where it was read and parsed, and is written exactly where
/// its directory, its contents and the file itself gave no fault.
pub proof fn law_files_are_read_and_written(
    path: Seq<char>,
    read: ConfigRead,
    a: Seq<char>,
    b: Seq<char>,
    c: Seq<char>,
    write: FileWrite,
)
    ensures
        load_failure(path, read) is None <==> read is Parsed,
        write_failure(a, b, c, path, write) is None <==> write is Written,
        match write {
            FileWrite::Written => true,
            FileWrite::DirectoryFault(e) => write_failure(a, b, c, path, write)->0.cause == Some(e@),
            FileWrite::EncodeFault(e) => write_failure(a, b, c, path, write)->0.cause == Some(e@)
                && write_failure(a, b, c, path, write)->0.message == b,
            FileWrite::WriteFault(e) => write_failure(a, b, c, path, write)->0.cause == Some(e@)
                && write_failure(a, b, c, path, write)->0.message == c + " '"@ + path + "'"@,
        },
{
}

proof fn lemma_task_directories(tasks: Seq<TaskView>, n: int)
    requires
        0 <= n <= tasks.len(),
    ensures
        forall|p: Seq<char>| #[trigger]
            task_paths(tasks, n).contains(p) <==> exists|i: int|
                0 <= i < n && (#[trigger] tasks[i]).command.workdir == Some(p),
    decreases n,
{
    if n > 0 {
        lemma_task_directories(tasks, n - 1);
        let rest = task_paths(tasks, n - 1);
        let last = opt_list(tasks[n - 1].command.workdir);
        assert forall|p: Seq<char>| #[trigger]
            task_paths(tasks, n).contains(p) <==> exists|i: int|
                0 <= i < n && (#[trigger] tasks[i]).command.workdir == Some(p) by {
            if task_paths(tasks, n).contains(p) {
                let k = choose|k: int|
                    0 <= k < task_paths(tasks, n).len() && task_paths(tasks, n)[k] == p;
                if k < rest.len() {
                    assert(rest[k] == p);
                    assert(rest.contains(p));
                } else {
                    assert(last[k - rest.len()] == p);
                    assert(tasks[n - 1].command.workdir == Some(p));
                }
            }
            if exists|i: int| 0 <= i < n && (#[trigger] tasks[i]).command.workdir == Some(p) {
                let i = choose|i: int|
                    0 <= i < n && (#[trigger] tasks[i]).command.workdir == Some(p);
                if i < n - 1 {
                    assert(rest.contains(p));
                    let k = choose|k: int| 0 <= k < rest.len() && rest[k] == p;
                    assert((rest + last)[k] == p);
                } else {
                    assert((rest + last)[rest.len() as int] == p);
                }
            }
        }
    } else {
        assert(task_paths(tasks, n) =~= Seq::empty());
    }
}

/// The paths to look at are the directories of the renderer and the working directories of the
/// tasks, and no others.
pub proof fn law_paths_to_look_at(c: AppView, p: Seq<char>)
    ensures
        config_paths(c).contains(p) <==> {
            ||| c.notifications is Some && c.notifications->0.renderer is Some && (
            c.notifications->0.renderer->0.workdir == p
                || c.notifications->0.renderer->0.session_dir == Some(p)
                || c.notifications->0.renderer->0.agent_dir == Some(p))
            ||| exists|i: int|
                0 <= i < c.tasks.len() && (#[trigger] c.tasks[i]).command.workdir == Some(p)
        },
{
    let n = c.tasks.len() as int;
    lemma_task_directories(c.tasks, n);
    let head = notification_paths(c.notifications);
    let tail = task_paths(c.tasks, n);
    let all = config_paths(c);
    if c.notifications is Some && c.notifications->0.renderer is Some {
        let r = c.notifications->0.renderer->0;
        let s = opt_list(r.session_dir);
        let g = opt_list(r.agent_dir);
        assert(head == seq![r.workdir] + s + g);
        if all.contains(p) {
            let k = choose|k: int| 0 <= k < all.len() && all[k] == p;
            if k >= head.len() {
                assert(tail[k - head.len()] == p);
                assert(tail.contains(p));
            }
        }
        if r.workdir == p {
            assert(all[0] == p);
        }
        if r.session_dir == Some(p) {
            assert(all[1] == p);
        }
        if r.agent_dir == Some(p) {
            assert(all[(1 + s.len()) as int] == p);
        }
    } else if all.contains(p) {
        let k = choose|k: int| 0 <= k < all.len() && all[k] == p;
        assert(tail[k - head.len()] == p);
        assert(tail.contains(p));
    }
    if tail.contains(p) {
        let k = choose|k: int| 0 <= k < tail.len() && tail[k] == p;
        assert(all[head.len() + k] == p);
    }
}

/// A schedule on one line holds its expression and its time zone, or its seconds.
pub proof fn law_schedules_on_one_line(s: ScheduleView)
    ensures
        match s {
            ScheduleView::Cron { expr, timezone: Some(zone) } => schedule_summary(s) == "cron("@
                + expr + ", tz="@ + zone + ")"@,
            ScheduleView::Cron { expr, timezone: None } => schedule_summary(s) == "cron("@ + expr
                + ")"@,
            ScheduleView::Interval { seconds } => schedule_summary(s) == "interval("@ + decimal(
                seconds as nat,
            ) + "s)"@,
        },
{
}

// ---------------------------------------------------------------------------------------------
// Same settings
// ---------------------------------------------------------------------------------------------
/// Two commands are the same exactly where each of their parts is; a directory may be spelled in
/// two ways.
pub proof fn law_same_commands(a: CommandView, b: CommandView)
    ensures
        same_command(a, b) <==> {
            &&& a.program == b.program
            &&& a.args.len() == b.args.len()
            &&& forall|i: int| 0 <= i < a.args.len() ==> #[trigger] a.args[i] == b.args[i]
            &&& a.workdir is Some <==> b.workdir is Some
            &&& a.workdir is Some ==> same(a.workdir->0, b.workdir->0)
            &&& a.timeout_seconds == b.timeout_seconds
            &&& a.env == b.env
        },
{
    if a.args.len() == b.args.len() && forall|i: int|
        0 <= i < a.args.len() ==> #[trigger] a.args[i] == b.args[i] {
        assert(a.args =~= b.args);
    }
}

/// Two renderers are the same exactly where each of their parts is; a directory may be spelled in
/// two ways.
pub proof fn law_same_renderers(a: RendererView, b: RendererView)
    ensures
        same_renderer(a, b) <==> {
            &&& a.program == b.program
            &&& same(a.workdir, b.workdir)
            &&& a.prompt == b.prompt
            &&& a.timeout_seconds == b.timeout_seconds
            &&& a.session_dir is Some <==> b.session_dir is Some
            &&& a.session_dir is Some ==> same(a.session_dir->0, b.session_dir->0)
            &&& a.agent_dir is Some <==> b.agent_dir is Some
            &&& a.agent_dir is Some ==> same(a.agent_dir->0, b.agent_dir->0)
            &&& a.provider == b.provider
            &&& a.model == b.model
            &&& a.env == b.env
        },
{
}

/// Two notification settings are the same exactly where they are both on or both off, and their
/// renderers and addresses are the same.
pub proof fn law_same_notifications(a: NotificationsView, b: NotificationsView)
    ensures
        same_notifier(a, b) <==> {
            &&& a.enabled == b.enabled
            &&& a.renderer is Some <==> b.renderer is Some
            &&& a.renderer is Some ==> same_renderer(a.renderer->0, b.renderer->0)
            &&& a.webhook == b.webhook
        },
{
}

/// Two tasks are the same exactly where each of their parts is.
pub proof fn law_same_tasks(a: TaskView, b: TaskView)
    ensures
        same_task(a, b) <==> {
            &&& a.id == b.id
            &&& a.name == b.name
            &&& a.enabled == b.enabled
            &&& a.concurrency.policy == b.concurrency.policy
            &&& a.concurrency.max_running == b.concurrency.max_running
            &&& a.retry.max_attempts == b.retry.max_attempts
            &&& a.retry.delay_seconds == b.retry.delay_seconds
            &&& a.schedule == b.schedule
            &&& a.notify is Some <==> b.notify is Some
            &&& a.notify is Some ==> (a.notify->0 is File <==> b.notify->0 is File)
            &&& a.notify is Some && a.notify->0 is File && b.notify->0 is File ==> same(
                a.notify->0->path,
                b.notify->0->path,
            )
            &&& same_command(a.command, b.command)
        },
{
}

/// Two configurations are the same exactly where their versions, their notifications and their
/// tasks, one by one, are.
pub proof fn law_same_configurations(a: AppView, b: AppView)
    ensures
        same_app(a, b) <==> {
            &&& a.version == b.version
            &&& a.notifications is Some <==> b.notifications is Some
            &&& a.notifications is Some ==> same_notifier(a.notifications->0, b.notifications->0)
            &&& a.tasks.len() == b.tasks.len()
            &&& forall|i: int| 0 <= i < a.tasks.len() ==> same_task(#[trigger] a.tasks[i], b.tasks[i])
        },
{
}

/// Two schedules compare as equal exactly where they are of one kind, with the same expression and
/// the same time zone, or with the same seconds.
pub proof fn law_equal_schedules(a: ScheduleConfig, b: ScheduleConfig)
    ensures
        a.eq_spec(&b) <==> match (a, b) {
            (
                ScheduleConfig::Cron { expr: x, timezone: p },
                ScheduleConfig::Cron { expr: y, timezone: q },
            ) => x@ == y@ && (p is Some <==> q is Some) && (p is Some ==> p->0@ == q->0@),
            (
                ScheduleConfig::Interval { seconds: x },
                ScheduleConfig::Interval { seconds: y },
            ) => x == y,
            _ => false,
        },
{
}

/// Two commands compare as equal exactly where their programs, arguments, time limits and variables
/// are equal and their working directories are the same.
pub proof fn law_equal_commands(a: CommandConfig, b: CommandConfig)
    ensures
        a.eq_spec(&b) <==> {
            &&& a.program@ == b.program@
            &&& a.args@.len() == b.args@.len()
            &&& forall|i: int| 0 <= i < a.args@.len() ==> (#[trigger] a.args@[i])@ == b.args@[i]@
            &&& a.workdir is Some <==> b.workdir is Some
            &&& a.workdir is Some ==> same(a.workdir->0@, b.workdir->0@)
            &&& a.timeout_seconds == b.timeout_seconds
            &&& a@.env == b@.env
        },
{
    law_same_commands(a@, b@);
    assert(a@.args.len() == a.args@.len() && b@.args.len() == b.args@.len());
    if same_command(a@, b@) {
        assert forall|i: int| 0 <= i < a.args@.len() implies (#[trigger] a.args@[i])@
            == b.args@[i]@ by {
            assert(a@.args[i] == b@.args[i]);
        }
    }
}

/// Two tasks compare as equal exactly where each of their parts is.
pub proof fn law_equal_tasks(a: TaskConfig, b: TaskConfig)
    ensures
        a.eq_spec(&b) <==> {
            &&& a.id@ == b.id@
            &&& a.name@ == b.name@
            &&& a.enabled == b.enabled
            &&& a.concurrency == b.concurrency
            &&& a.retry == b.retry
            &&& a.schedule.eq_spec(&b.schedule)
            &&& a.notify is Some <==> b.notify is Some
            &&& a.notify is Some ==> same_source(
                a.notify->0.result_source@,
                b.notify->0.result_source@,
            )
            &&& a.command.eq_spec(&b.command)
        },
{
}

} // verus!

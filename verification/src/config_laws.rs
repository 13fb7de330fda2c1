//! What holds of configurations as a whole: which are valid, what validation looks at, and what
//! adding, removing and enabling tasks keeps.

use vstd::prelude::*;

use crate::calendar::{cron_fault, zone_known};
use crate::config::{
    command_failure, config_failure, config_paths, duplicate_failure, kind_at, notification_paths,
    notifications_failure, notify_failure, opt_list, optional_zone_fault, position_of,
    schedule_failure, task_failure, task_path, task_paths, task_position, tasks_failure, valid_id,
    with_enabled, AppView, CommandView, ConcurrencyConfig, ConcurrencyPolicy, NotificationsView,
    PathKind, RendererView, ResultSourceView, RetryConfig, ScheduleView, TaskView,
};
use crate::text::blank;

verus! {

// ---------------------------------------------------------------------------------------------
// Valid configurations
// ---------------------------------------------------------------------------------------------
/// One to three runs overlap, and only one unless the policy allows more.
pub open spec fn concurrency_valid(c: ConcurrencyConfig) -> bool {
    &&& 1 <= c.max_running <= 3
    &&& c.policy != ConcurrencyPolicy::Allow ==> c.max_running == 1
}

/// A retried task pauses before it is tried again.
pub open spec fn retry_valid(c: RetryConfig) -> bool {
    c.max_attempts > 0 ==> c.delay_seconds > 0
}

/// A schedule is due at some time.
pub open spec fn schedule_valid(s: ScheduleView) -> bool {
    match s {
        ScheduleView::Cron { expr, timezone } => {
            &&& !blank(expr)
            &&& cron_fault(expr) is None
            &&& timezone is Some ==> zone_known(timezone->0)
        },
        ScheduleView::Interval { seconds } => seconds > 0,
    }
}

/// An optional directory is absent, missing so far, or a directory.
pub open spec fn optional_dir_valid(
    dir: Option<Seq<char>>,
    survey: Map<Seq<char>, PathKind>,
) -> bool {
    dir is Some ==> dir->0.len() > 0 && kind_at(survey, dir->0) != PathKind::Other
}

/// A command names a program, a positive time limit and an existing working directory.
pub open spec fn command_valid(c: CommandView, survey: Map<Seq<char>, PathKind>) -> bool {
    &&& !blank(c.program)
    &&& c.timeout_seconds != Some(0u64)
    &&& c.workdir is Some ==> kind_at(survey, c.workdir->0) == PathKind::Directory
}

/// A renderer names a program, a prompt and an existing working directory.
pub open spec fn renderer_valid(c: RendererView, survey: Map<Seq<char>, PathKind>) -> bool {
    &&& !blank(c.program)
    &&& !blank(c.prompt)
    &&& kind_at(survey, c.workdir) == PathKind::Directory
    &&& c.timeout_seconds != Some(0u64)
    &&& optional_dir_valid(c.session_dir, survey)
    &&& optional_dir_valid(c.agent_dir, survey)
}

/// Enabled notifications have a renderer and a webhook.
pub open spec fn notifications_valid(
    c: NotificationsView,
    survey: Map<Seq<char>, PathKind>,
) -> bool {
    c.enabled ==> {
        &&& c.renderer is Some && renderer_valid(c.renderer->0, survey)
        &&& c.webhook is Some && !blank(c.webhook->0)
    }
}

/// A result file has a path.
pub open spec fn result_source_valid(c: ResultSourceView) -> bool {
    match c {
        ResultSourceView::Stdout => true,
        ResultSourceView::File { path } => path.len() > 0,
    }
}

/// A task meets every rule on tasks.
pub open spec fn task_valid(
    t: TaskView,
    notifications: Option<NotificationsView>,
    survey: Map<Seq<char>, PathKind>,
) -> bool {
    &&& valid_id(t.id)
    &&& !blank(t.name)
    &&& concurrency_valid(t.concurrency)
    &&& retry_valid(t.retry)
    &&& schedule_valid(t.schedule)
    &&& t.notify is Some ==> {
        &&& notifications is Some
        &&& notifications->0.enabled
        &&& notifications_valid(notifications->0, survey)
        &&& result_source_valid(t.notify->0)
    }
    &&& command_valid(t.command, survey)
}

/// No two tasks share an id.
pub open spec fn unique_ids(tasks: Seq<TaskView>) -> bool {
    forall|i: int, j: int|
        0 <= i < j < tasks.len() ==> (#[trigger] tasks[i]).id != (#[trigger] tasks[j]).id
}

/// A configuration meets every rule.
pub open spec fn config_valid(c: AppView, survey: Map<Seq<char>, PathKind>) -> bool {
    &&& c.version == 1
    &&& c.notifications is Some ==> notifications_valid(c.notifications->0, survey)
    &&& forall|i: int|
        0 <= i < c.tasks.len() ==> task_valid(#[trigger] c.tasks[i], c.notifications, survey)
    &&& unique_ids(c.tasks)
}

pub proof fn lemma_task_valid(
    t: TaskView,
    path: Seq<char>,
    notifications: Option<NotificationsView>,
    survey: Map<Seq<char>, PathKind>,
)
    ensures
        task_failure(t, path, notifications, survey) is None <==> task_valid(
            t,
            notifications,
            survey,
        ),
{
    assert(schedule_failure(t.schedule, path) is None <==> schedule_valid(t.schedule)) by {
        match t.schedule {
            ScheduleView::Cron { expr, timezone } => {
                assert(optional_zone_fault(timezone) is None <==> (timezone is Some ==> zone_known(
                    timezone->0,
                )));
            },
            ScheduleView::Interval { .. } => {},
        }
    }
}

/// The first task with an id, or that there is none.
pub proof fn lemma_first_with_id(tasks: Seq<TaskView>, id: Seq<char>, end: int)
    requires
        0 <= end <= tasks.len(),
    ensures
        match task_position(tasks, id, end) {
            Some(i) => 0 <= i < end && tasks[i].id == id && forall|j: int|
                0 <= j < i ==> (#[trigger] tasks[j]).id != id,
            None => forall|j: int| 0 <= j < end ==> (#[trigger] tasks[j]).id != id,
        },
    decreases end,
{
    if end > 0 {
        lemma_first_with_id(tasks, id, end - 1);
    }
}

pub proof fn lemma_tasks_valid(c: AppView, survey: Map<Seq<char>, PathKind>, i: int)
    requires
        0 <= i <= c.tasks.len(),
    ensures
        tasks_failure(c, survey, i) is None <==> {
            &&& forall|k: int|
                i <= k < c.tasks.len() ==> task_valid(
                    #[trigger] c.tasks[k],
                    c.notifications,
                    survey,
                )
            &&& forall|j: int, k: int|
                0 <= j < k < c.tasks.len() && i <= k ==> (#[trigger] c.tasks[j]).id != (
                #[trigger] c.tasks[k]).id
        },
    decreases c.tasks.len() - i,
{
    if i < c.tasks.len() {
        lemma_tasks_valid(c, survey, i + 1);
        lemma_task_valid(c.tasks[i], task_path(i), c.notifications, survey);
        lemma_first_with_id(c.tasks, c.tasks[i].id, i);
        if tasks_failure(c, survey, i) is None {
            assert(task_valid(c.tasks[i], c.notifications, survey));
            assert forall|j: int, k: int|
                0 <= j < k < c.tasks.len() && i <= k implies (#[trigger] c.tasks[j]).id != (
            #[trigger] c.tasks[k]).id by {
                if k == i {
                    assert(duplicate_failure(c.tasks, i) is None);
                }
            }
        } else {
            if task_failure(c.tasks[i], task_path(i), c.notifications, survey) is Some {
                assert(!task_valid(c.tasks[i], c.notifications, survey));
            } else if duplicate_failure(c.tasks, i) is Some {
                let j = task_position(c.tasks, c.tasks[i].id, i)->0;
                assert(c.tasks[j].id == c.tasks[i].id);
            }
        }
    }
}

/// Validation accepts a configuration exactly when it meets every rule. In particular the ids of
/// an accepted configuration are unique.
pub proof fn law_validation_is_exact(c: AppView, survey: Map<Seq<char>, PathKind>)
    ensures
        config_failure(c, survey) is None <==> config_valid(c, survey),
{
    lemma_tasks_valid(c, survey, 0);
}

// ---------------------------------------------------------------------------------------------
// What validation looks at
// ---------------------------------------------------------------------------------------------
/// Two surveys say the same of every path of a list.
pub open spec fn agree(
    a: Map<Seq<char>, PathKind>,
    b: Map<Seq<char>, PathKind>,
    paths: Seq<Seq<char>>,
) -> bool {
    forall|p: Seq<char>| #[trigger] paths.contains(p) ==> kind_at(a, p) == kind_at(b, p)
}

proof fn lemma_task_path_listed(tasks: Seq<TaskView>, n: int, i: int)
    requires
        0 <= i < n <= tasks.len(),
        tasks[i].command.workdir is Some,
    ensures
        task_paths(tasks, n).contains(tasks[i].command.workdir->0),
    decreases n,
{
    let rest = task_paths(tasks, n - 1);
    let last = opt_list(tasks[n - 1].command.workdir);
    if i < n - 1 {
        lemma_task_path_listed(tasks, n - 1, i);
        let k = choose|k: int| 0 <= k < rest.len() && rest[k] == tasks[i].command.workdir->0;
        assert((rest + last)[k] == tasks[i].command.workdir->0);
    } else {
        assert((rest + last)[rest.len() as int] == tasks[i].command.workdir->0);
    }
}

proof fn lemma_notifications_agree(
    c: AppView,
    path: Seq<char>,
    a: Map<Seq<char>, PathKind>,
    b: Map<Seq<char>, PathKind>,
)
    requires
        agree(a, b, config_paths(c)),
        c.notifications is Some,
    ensures
        notifications_failure(c.notifications->0, path, a) == notifications_failure(
            c.notifications->0,
            path,
            b,
        ),
{
    let n = c.notifications->0;
    let all = config_paths(c);
    if n.renderer is Some {
        let r = n.renderer->0;
        let s = opt_list(r.session_dir);
        let g = opt_list(r.agent_dir);
        let head = notification_paths(c.notifications);
        assert(head == seq![r.workdir] + s + g);
        assert(all[0] == r.workdir);
        assert(all.contains(r.workdir));
        if r.session_dir is Some {
            assert(all[1] == r.session_dir->0);
            assert(all.contains(r.session_dir->0));
        }
        if r.agent_dir is Some {
            assert(all[(1 + s.len()) as int] == r.agent_dir->0);
            assert(all.contains(r.agent_dir->0));
        }
    }
}

proof fn lemma_tasks_agree(
    c: AppView,
    a: Map<Seq<char>, PathKind>,
    b: Map<Seq<char>, PathKind>,
    i: int,
)
    requires
        agree(a, b, config_paths(c)),
        0 <= i <= c.tasks.len(),
    ensures
        tasks_failure(c, a, i) == tasks_failure(c, b, i),
    decreases c.tasks.len() - i,
{
    if i < c.tasks.len() {
        lemma_tasks_agree(c, a, b, i + 1);
        let path = task_path(i);
        if c.notifications is Some {
            lemma_notifications_agree(c, path + ".notifications_ref"@, a, b);
        }
        let t = c.tasks[i];
        if t.command.workdir is Some {
            lemma_task_path_listed(c.tasks, c.tasks.len() as int, i);
            let head = notification_paths(c.notifications);
            let tail = task_paths(c.tasks, c.tasks.len() as int);
            let k = choose|k: int| 0 <= k < tail.len() && tail[k] == t.command.workdir->0;
            assert((head + tail)[head.len() + k] == t.command.workdir->0);
            assert(config_paths(c).contains(t.command.workdir->0));
        }
        assert(command_failure(t.command, path + ".command"@, a) == command_failure(
            t.command,
            path + ".command"@,
            b,
        ));
        assert(notify_failure(t.notify, path, c.notifications, a) == notify_failure(
            t.notify,
            path,
            c.notifications,
            b,
        ));
    }
}

/// Validation looks at the listed paths only: two surveys that agree on them lead to the same
/// verdict.
pub proof fn law_validation_looks_at_listed_paths(
    c: AppView,
    a: Map<Seq<char>, PathKind>,
    b: Map<Seq<char>, PathKind>,
)
    requires
        agree(a, b, config_paths(c)),
    ensures
        config_failure(c, a) == config_failure(c, b),
{
    lemma_tasks_agree(c, a, b, 0);
    if c.notifications is Some {
        lemma_notifications_agree(c, "notifications"@, a, b);
    }
}

// ---------------------------------------------------------------------------------------------
// Adding, removing and enabling
// ---------------------------------------------------------------------------------------------
/// The configuration with a task at the end.
pub open spec fn added(c: AppView, t: TaskView) -> AppView {
    AppView { tasks: c.tasks.push(t), ..c }
}

/// The configuration without the task at a position.
pub open spec fn removed(c: AppView, i: int) -> AppView {
    AppView { tasks: c.tasks.remove(i), ..c }
}

/// The configuration with one task's `enabled` flag set.
pub open spec fn switched(c: AppView, i: int, enabled: bool) -> AppView {
    AppView { tasks: with_enabled(c.tasks, i, enabled), ..c }
}

/// Adding a task under a free id keeps a configuration valid exactly when the task is valid.
pub proof fn law_adding_keeps_validity(
    c: AppView,
    t: TaskView,
    survey: Map<Seq<char>, PathKind>,
)
    requires
        position_of(c, t.id) is None,
    ensures
        config_valid(added(c, t), survey) <==> config_valid(c, survey) && task_valid(
            t,
            c.notifications,
            survey,
        ),
{
    lemma_first_with_id(c.tasks, t.id, c.tasks.len() as int);
    let d = added(c, t);
    let n = c.tasks.len() as int;
    assert(d.tasks[n] == t);
    assert(forall|i: int| 0 <= i < n ==> d.tasks[i] == c.tasks[i]);
    if config_valid(d, survey) {
        assert forall|i: int| 0 <= i < c.tasks.len() implies task_valid(
            #[trigger] c.tasks[i],
            c.notifications,
            survey,
        ) by {
            assert(d.tasks[i] == c.tasks[i]);
        }
        assert forall|i: int, j: int| 0 <= i < j < c.tasks.len() implies (#[trigger] c.tasks[i]).id
            != (#[trigger] c.tasks[j]).id by {
            assert(d.tasks[i] == c.tasks[i] && d.tasks[j] == c.tasks[j]);
        }
    }
}

/// A task that was added under a free id is found under it, and removing it restores the
/// configuration.
pub proof fn law_removing_undoes_adding(c: AppView, t: TaskView)
    requires
        position_of(c, t.id) is None,
    ensures
        position_of(added(c, t), t.id) == Some(c.tasks.len() as int),
        removed(added(c, t), c.tasks.len() as int) == c,
{
    let d = added(c, t);
    let n = c.tasks.len() as int;
    lemma_first_with_id(c.tasks, t.id, n);
    lemma_first_with_id(d.tasks, t.id, n + 1);
    assert(d.tasks[n] == t);
    let p = position_of(d, t.id);
    if p is Some && p->0 < n {
        assert(d.tasks[p->0] == c.tasks[p->0]);
    }
    assert(d.tasks.remove(n) =~= c.tasks);
    assert(removed(d, n) =~= c);
}

/// Removing a task keeps a configuration valid, and its id is then unknown.
pub proof fn law_removing_keeps_validity(
    c: AppView,
    id: Seq<char>,
    survey: Map<Seq<char>, PathKind>,
)
    requires
        config_valid(c, survey),
        position_of(c, id) is Some,
    ensures
        config_valid(removed(c, position_of(c, id)->0), survey),
        position_of(removed(c, position_of(c, id)->0), id) is None,
{
    let n = c.tasks.len() as int;
    lemma_first_with_id(c.tasks, id, n);
    let i = position_of(c, id)->0;
    let d = removed(c, i);
    assert(forall|k: int| 0 <= k < i ==> d.tasks[k] == c.tasks[k]);
    assert(forall|k: int| i <= k < n - 1 ==> d.tasks[k] == c.tasks[k + 1]);
    assert forall|j: int, k: int| 0 <= j < k < d.tasks.len() implies (#[trigger] d.tasks[j]).id != (
    #[trigger] d.tasks[k]).id by {
        let a = if j < i {
            j
        } else {
            j + 1
        };
        let b = if k < i {
            k
        } else {
            k + 1
        };
        assert(c.tasks[a].id != c.tasks[b].id);
    }
    lemma_first_with_id(d.tasks, id, n - 1);
    let p = position_of(d, id);
    if p is Some {
        let k = p->0;
        let b = if k < i {
            k
        } else {
            k + 1
        };
        assert(c.tasks[b].id == id);
        assert(c.tasks[i].id == id);
    }
}

/// Enabling or disabling a task keeps a configuration valid, changes nothing but that flag, and
/// setting the former flag again restores the configuration.
pub proof fn law_switching_keeps_validity(
    c: AppView,
    id: Seq<char>,
    enabled: bool,
    survey: Map<Seq<char>, PathKind>,
)
    requires
        position_of(c, id) is Some,
    ensures
        ({
            let i = position_of(c, id)->0;
            let d = switched(c, i, enabled);
            &&& config_valid(d, survey) <==> config_valid(c, survey)
            &&& position_of(d, id) == Some(i)
            &&& d.tasks[i].enabled == enabled
            &&& forall|k: int| 0 <= k < c.tasks.len() && k != i ==> d.tasks[k] == c.tasks[k]
            &&& switched(d, i, c.tasks[i].enabled) == c
        }),
{
    let n = c.tasks.len() as int;
    lemma_first_with_id(c.tasks, id, n);
    let i = position_of(c, id)->0;
    let d = switched(c, i, enabled);
    assert(forall|k: int| 0 <= k < n ==> (#[trigger] d.tasks[k]).id == c.tasks[k].id);
    assert forall|k: int| 0 <= k < n implies task_valid(#[trigger] d.tasks[k], c.notifications, survey)
        == task_valid(c.tasks[k], c.notifications, survey) by {}
    lemma_first_with_id(d.tasks, id, n);
    let p = position_of(d, id);
    assert(d.tasks[i].id == id);
    if p is Some {
        if p->0 < i {
            assert(c.tasks[p->0].id == id);
        }
        if i < p->0 {
            assert(d.tasks[i].id != id);
        }
    }
    if config_valid(d, survey) {
        assert forall|k: int| 0 <= k < n implies task_valid(
            #[trigger] c.tasks[k],
            c.notifications,
            survey,
        ) by {
            assert(task_valid(d.tasks[k], c.notifications, survey));
        }
        assert forall|j: int, k: int| 0 <= j < k < n implies (#[trigger] c.tasks[j]).id != (
        #[trigger] c.tasks[k]).id by {
            assert(d.tasks[j].id != d.tasks[k].id);
        }
    }
    let back = switched(d, i, c.tasks[i].enabled);
    assert(back.tasks =~= c.tasks);
    assert(back =~= c);
}

} // verus!

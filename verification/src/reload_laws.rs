//! What holds of reloads: which jobs a changed configuration renews, which files the daemon
//! watches, and when it looks at them again.

use vstd::prelude::*;

use crate::config::{same_task, AppView, ResultSourceView, TaskView};
use crate::path_order::{
    first_spelling, holds, lemma_pieces_irreflexive, path_before, path_set,
};
use crate::paths::{absolute, components, directory_of, same};
use crate::reload::{
    additions, carried_out, enabled_of, holder, jobs_of, lemma_additions, lemma_contains_sum,
    lemma_last_with_id, lemma_lists_sum, lemma_plan_at, lemma_removals, lemma_renewals,
    lemma_unique_holder, lemma_updates, lemma_with_tasks, lists_id, reload_plan, renewals, without,
    PlanView,
};
use crate::run_laws::law_enabled_tasks_are_registered;
use crate::scheduler::{
    cleared, directories, entered, input_files, must_renew_all, on_event, same_stamp, watch_path,
    ConfigInputsStamp, Daemon, DaemonAction, DaemonEvent, LoadedConfig, ReplaceState, POLL_SECONDS,
    SETTLE_MILLIS,
};
use crate::text::texts;
use crate::text_map::text_pairs;

verus! {

// ---------------------------------------------------------------------------------------------
// What a plan says of one task
// ---------------------------------------------------------------------------------------------
/// Without force, a task that is in both configurations is renewed exactly where it differs in its
/// name, its flag, its overlap, its retries, its schedule, its program, an argument, its time limit,
/// its variables, the components of its directory, or the source of its result. It is then to be
/// updated and, where it is enabled, its next form gets a job; otherwise the plan does not name it.
#[verifier::rlimit(50)]
pub proof fn law_changed_tasks_are_renewed(current: AppView, next: AppView, i: int, j: int)
    requires
        forall|p: int, q: int|
            0 <= p < q < current.tasks.len() ==> (#[trigger] current.tasks[p]).id != (
            #[trigger] current.tasks[q]).id,
        forall|p: int, q: int|
            0 <= p < q < next.tasks.len() ==> (#[trigger] next.tasks[p]).id != (
            #[trigger] next.tasks[q]).id,
        0 <= i < current.tasks.len(),
        0 <= j < next.tasks.len(),
        current.tasks[i].id == next.tasks[j].id,
    ensures
        ({
            let a = current.tasks[i];
            let b = next.tasks[j];
            let plan = reload_plan(current, next, false);
            let moved = match (a.command.workdir, b.command.workdir) {
                (Some(x), Some(y)) => components(x) != components(y),
                (None, None) => false,
                _ => true,
            };
            let told_elsewhere = match (a.notify, b.notify) {
                (None, None) => false,
                (Some(ResultSourceView::Stdout), Some(ResultSourceView::Stdout)) => false,
                (
                    Some(ResultSourceView::File { path: x }),
                    Some(ResultSourceView::File { path: y }),
                ) => components(x) != components(y),
                _ => true,
            };
            let changed = a.name != b.name || a.enabled != b.enabled || a.concurrency.policy
                != b.concurrency.policy || a.concurrency.max_running != b.concurrency.max_running
                || a.retry.max_attempts != b.retry.max_attempts || a.retry.delay_seconds
                != b.retry.delay_seconds || a.schedule != b.schedule || a.command.program
                != b.command.program || a.command.args != b.command.args
                || a.command.timeout_seconds != b.command.timeout_seconds || a.command.env
                != b.command.env || moved || told_elsewhere;
            &&& !plan.remove.contains(a.id)
            &&& plan.update.contains(a.id) <==> changed
            &&& plan.add.contains(b) <==> changed && b.enabled
            &&& forall|k: int|
                0 <= k < plan.add.len() && (#[trigger] plan.add[k]).id == a.id ==> changed
                    && b.enabled && plan.add[k] == b
        }),
{
    let x = current.tasks;
    let y = next.tasks;
    let id = x[i].id;
    let b = y[j];
    let plan = reload_plan(current, next, false);
    let again = renewals(x, y, x.len() as int);
    let fresh = additions(x, y, y.len() as int);
    lemma_unique_holder(x, i);
    lemma_unique_holder(y, j);
    lemma_removals(x, y, x.len() as int, id);
    lemma_updates(x, y, x.len() as int, id);
    lemma_renewals(x, y, x.len() as int, id);
    lemma_additions(x, y, y.len() as int, id);
    lemma_lists_sum(again, fresh, y, id);
    assert forall|k: int| 0 <= k < x.len() && (#[trigger] x[k]).id == id implies k == i by {
        lemma_unique_holder(x, k);
    }
    assert forall|k: int| 0 <= k < y.len() && (#[trigger] y[k]).id == id implies k == j by {
        lemma_unique_holder(y, k);
    }
    assert forall|k: int| 0 <= k < plan.add.len() && (#[trigger] plan.add[k]).id
        == id implies plan.add[k] == b && lists_id(plan.add, id) by {
        assert((again + fresh)[k] == plan.add[k]);
    }
    if lists_id(plan.add, id) {
        let k = choose|k: int| 0 <= k < plan.add.len() && (#[trigger] plan.add[k]).id == id;
        assert(plan.add[k] == b);
    }
    if plan.add.contains(b) {
        let k = choose|k: int| 0 <= k < plan.add.len() && plan.add[k] == b;
        assert(plan.add[k].id == id);
    }
}

/// Without force, a task that is gone loses its job exactly where it had one, and no other job
/// comes for its id.
pub proof fn law_tasks_that_are_gone_lose_their_jobs(current: AppView, next: AppView, i: int)
    requires
        forall|p: int, q: int|
            0 <= p < q < current.tasks.len() ==> (#[trigger] current.tasks[p]).id != (
            #[trigger] current.tasks[q]).id,
        0 <= i < current.tasks.len(),
        forall|j: int|
            0 <= j < next.tasks.len() ==> (#[trigger] next.tasks[j]).id != current.tasks[i].id,
    ensures
        ({
            let id = current.tasks[i].id;
            let plan = reload_plan(current, next, false);
            &&& plan.remove.contains(id) <==> current.tasks[i].enabled
            &&& !plan.update.contains(id)
            &&& forall|k: int| 0 <= k < plan.add.len() ==> (#[trigger] plan.add[k]).id != id
        }),
{
    let x = current.tasks;
    let y = next.tasks;
    let id = x[i].id;
    let plan = reload_plan(current, next, false);
    let again = renewals(x, y, x.len() as int);
    let fresh = additions(x, y, y.len() as int);
    lemma_unique_holder(x, i);
    lemma_last_with_id(y, id, y.len() as int);
    lemma_removals(x, y, x.len() as int, id);
    lemma_updates(x, y, x.len() as int, id);
    lemma_renewals(x, y, x.len() as int, id);
    lemma_additions(x, y, y.len() as int, id);
    lemma_lists_sum(again, fresh, y, id);
    assert forall|k: int| 0 <= k < x.len() && (#[trigger] x[k]).id == id implies k == i by {
        lemma_unique_holder(x, k);
    }
    assert forall|k: int| 0 <= k < plan.add.len() implies (#[trigger] plan.add[k]).id != id by {
        assert((again + fresh)[k] == plan.add[k]);
        if plan.add[k].id == id {
            assert(lists_id(again + fresh, id));
        }
    }
}

/// Without force, a task whose id is new gets a job exactly where it is enabled, and no job goes
/// for its id.
pub proof fn law_new_tasks_get_their_jobs(current: AppView, next: AppView, j: int)
    requires
        forall|p: int, q: int|
            0 <= p < q < next.tasks.len() ==> (#[trigger] next.tasks[p]).id != (
            #[trigger] next.tasks[q]).id,
        0 <= j < next.tasks.len(),
        forall|i: int|
            0 <= i < current.tasks.len() ==> (#[trigger] current.tasks[i]).id != next.tasks[j].id,
    ensures
        ({
            let b = next.tasks[j];
            let plan = reload_plan(current, next, false);
            &&& plan.add.contains(b) <==> b.enabled
            &&& !plan.remove.contains(b.id)
            &&& !plan.update.contains(b.id)
        }),
{
    let x = current.tasks;
    let y = next.tasks;
    let b = y[j];
    let id = b.id;
    let plan = reload_plan(current, next, false);
    let again = renewals(x, y, x.len() as int);
    let fresh = additions(x, y, y.len() as int);
    lemma_unique_holder(y, j);
    lemma_last_with_id(x, id, x.len() as int);
    lemma_removals(x, y, x.len() as int, id);
    lemma_updates(x, y, x.len() as int, id);
    lemma_renewals(x, y, x.len() as int, id);
    lemma_additions(x, y, y.len() as int, id);
    lemma_lists_sum(again, fresh, y, id);
    assert forall|k: int| 0 <= k < y.len() && (#[trigger] y[k]).id == id implies k == j by {
        lemma_unique_holder(y, k);
    }
    if b.enabled {
        assert(lists_id(fresh, id));
        let k = choose|k: int|
            0 <= k < (again + fresh).len() && (#[trigger] (again + fresh)[k]).id == id;
        assert(plan.add[k] == b);
    }
    if plan.add.contains(b) {
        let k = choose|k: int| 0 <= k < plan.add.len() && plan.add[k] == b;
        assert((again + fresh)[k].id == id);
        assert(lists_id(again + fresh, id));
    }
}

/// With force every job goes, and every enabled task of the next configuration gets a new one.
pub proof fn law_forced_plans_renew_everything(current: AppView, next: AppView)
    ensures
        ({
            let plan = reload_plan(current, next, true);
            &&& forall|i: int|
                0 <= i < current.tasks.len() && (#[trigger] current.tasks[i]).enabled
                    ==> plan.remove.contains(current.tasks[i].id)
            &&& forall|j: int|
                0 <= j < next.tasks.len() && (#[trigger] next.tasks[j]).enabled
                    ==> plan.update.contains(next.tasks[j].id) && plan.add.contains(next.tasks[j])
            &&& plan.add == next.tasks.filter(|t: TaskView| t.enabled)
        }),
{
    law_enabled_tasks_are_registered(current.tasks, current.tasks.len() as int);
    law_enabled_tasks_are_registered(next.tasks, next.tasks.len() as int);
    assert(next.tasks.subrange(0, next.tasks.len() as int) =~= next.tasks);
    let plan = reload_plan(current, next, true);
    assert forall|i: int|
        0 <= i < current.tasks.len() && (
        #[trigger] current.tasks[i]).enabled implies plan.remove.contains(current.tasks[i].id) by {
        let list = enabled_of(current);
        assert(list.contains(current.tasks[i]));
        let k = choose|k: int| 0 <= k < list.len() && list[k] == current.tasks[i];
        assert(plan.remove[k] == current.tasks[i].id);
    }
    assert forall|j: int|
        0 <= j < next.tasks.len() && (
        #[trigger] next.tasks[j]).enabled implies plan.update.contains(next.tasks[j].id)
        && plan.add.contains(next.tasks[j]) by {
        let list = enabled_of(next);
        assert(list.contains(next.tasks[j]));
        let k = choose|k: int| 0 <= k < list.len() && list[k] == next.tasks[j];
        assert(plan.update[k] == next.tasks[j].id);
    }
}

// ---------------------------------------------------------------------------------------------
// Where a plan leads
// ---------------------------------------------------------------------------------------------
/// Carrying out a plan takes the jobs of the ids that it removes or updates, gives one to each task
/// that it adds, and leaves all others.
pub proof fn law_plans_are_carried_out(
    jobs: Map<Seq<char>, TaskView>,
    plan: PlanView,
    id: Seq<char>,
)
    requires
        forall|p: int, q: int|
            0 <= p < q < plan.add.len() ==> (#[trigger] plan.add[p]).id != (
            #[trigger] plan.add[q]).id,
    ensures
        forall|k: int|
            0 <= k < plan.add.len() ==> carried_out(jobs, plan).dom().contains(
                (#[trigger] plan.add[k]).id,
            ) && carried_out(jobs, plan)[plan.add[k].id] == plan.add[k],
        (forall|k: int| 0 <= k < plan.add.len() ==> (#[trigger] plan.add[k]).id != id) ==> (
        carried_out(jobs, plan).dom().contains(id) <==> jobs.dom().contains(id)
            && !plan.remove.contains(id) && !plan.update.contains(id)) && (carried_out(
            jobs,
            plan,
        ).dom().contains(id) ==> carried_out(jobs, plan)[id] == jobs[id]),
{
    let n = plan.add.len() as int;
    let left = without(jobs, plan.remove + plan.update);
    assert(plan.add.subrange(0, n) =~= plan.add);
    assert forall|k: int| 0 <= k < plan.add.len() implies {
        &&& holder(plan.add, (#[trigger] plan.add[k]).id) is Some
        &&& plan.add[holder(plan.add, plan.add[k].id)->0] == plan.add[k]
    } by {
        lemma_unique_holder(plan.add, k);
    }
    assert forall|k: int| 0 <= k < plan.add.len() implies carried_out(jobs, plan).dom().contains(
        (#[trigger] plan.add[k]).id,
    ) && carried_out(jobs, plan)[plan.add[k].id] == plan.add[k] by {
        lemma_with_tasks(left, plan.add, plan.add, n, plan.add[k].id);
        assert(lists_id(plan.add, plan.add[k].id));
    }
    lemma_with_tasks(left, plan.add, plan.add, n, id);
    lemma_contains_sum(plan.remove, plan.update, id);
    assert((plan.remove + plan.update).to_set().contains(id) <==> (plan.remove
        + plan.update).contains(id));
}

/// After a reload every enabled task of the next configuration has a job, with the next
/// configuration's program, arguments, time limit, variables, schedule, retries and overlap, and in
/// the same directory up to the spelling of its path. No other id has a job.
#[verifier::rlimit(50)]
pub proof fn law_jobs_follow_the_next_configuration(
    jobs: Map<Seq<char>, TaskView>,
    current: AppView,
    next: AppView,
    force: bool,
)
    requires
        forall|p: int, q: int|
            0 <= p < q < current.tasks.len() ==> (#[trigger] current.tasks[p]).id != (
            #[trigger] current.tasks[q]).id,
        forall|p: int, q: int|
            0 <= p < q < next.tasks.len() ==> (#[trigger] next.tasks[p]).id != (
            #[trigger] next.tasks[q]).id,
        forall|i: int|
            0 <= i < current.tasks.len() && (#[trigger] current.tasks[i]).enabled
                ==> jobs.dom().contains(current.tasks[i].id) && jobs[current.tasks[i].id]
                == current.tasks[i],
        forall|id: Seq<char>| #[trigger]
            jobs.dom().contains(id) ==> exists|i: int|
                0 <= i < current.tasks.len() && (#[trigger] current.tasks[i]).id == id
                    && current.tasks[i].enabled,
    ensures
        ({
            let after = carried_out(jobs, reload_plan(current, next, force));
            &&& forall|j: int|
                0 <= j < next.tasks.len() && (#[trigger] next.tasks[j]).enabled
                    ==> after.dom().contains(next.tasks[j].id) && ({
                    let job = after[next.tasks[j].id];
                    let task = next.tasks[j];
                    &&& job.id == task.id
                    &&& job.name == task.name
                    &&& job.command.program == task.command.program
                    &&& job.command.args == task.command.args
                    &&& job.command.timeout_seconds == task.command.timeout_seconds
                    &&& job.command.env == task.command.env
                    &&& job.schedule == task.schedule
                    &&& job.retry == task.retry
                    &&& job.concurrency == task.concurrency
                    &&& job.command.workdir is Some <==> task.command.workdir is Some
                    &&& job.command.workdir is Some ==> components(job.command.workdir->0)
                        == components(task.command.workdir->0)
                    &&& job.notify is Some <==> task.notify is Some
                    &&& job.notify is Some ==> (job.notify->0 is Stdout
                        <==> task.notify->0 is Stdout)
                    &&& job.notify is Some && job.notify->0 is File ==> components(
                        job.notify->0->path,
                    ) == components(task.notify->0->path)
                })
            &&& forall|id: Seq<char>| #[trigger]
                after.dom().contains(id) ==> exists|j: int|
                    0 <= j < next.tasks.len() && (#[trigger] next.tasks[j]).id == id
                        && next.tasks[j].enabled
        }),
{
    let x = current.tasks;
    let y = next.tasks;
    let had = jobs_of(current);
    assert forall|id: Seq<char>| #[trigger] jobs.dom().contains(id) <==> had.dom().contains(
        id,
    ) by {
        lemma_last_with_id(x, id, x.len() as int);
        if jobs.dom().contains(id) {
            let i = choose|i: int|
                0 <= i < x.len() && (#[trigger] x[i]).id == id && x[i].enabled;
            lemma_unique_holder(x, i);
        }
        if had.dom().contains(id) {
            let i = holder(x, id)->0;
            assert(x[i].enabled);
        }
    }
    assert forall|id: Seq<char>| #[trigger] jobs.dom().contains(id) implies jobs[id]
        == had[id] by {
        let i = choose|i: int| 0 <= i < x.len() && (#[trigger] x[i]).id == id && x[i].enabled;
        lemma_unique_holder(x, i);
    }
    assert(jobs =~= had);
    let after = carried_out(jobs, reload_plan(current, next, force));
    assert forall|j: int| 0 <= j < y.len() && (
    #[trigger] y[j]).enabled implies after.dom().contains(y[j].id) && same_task(
        after[y[j].id],
        y[j],
    ) by {
        lemma_plan_at(current, next, force, y[j].id);
        lemma_unique_holder(y, j);
    }
    assert forall|id: Seq<char>| #[trigger] after.dom().contains(id) implies exists|j: int|
        0 <= j < y.len() && (#[trigger] y[j]).id == id && y[j].enabled by {
        lemma_plan_at(current, next, force, id);
        lemma_last_with_id(y, id, y.len() as int);
        let j = holder(y, id)->0;
        assert(y[j].id == id && y[j].enabled);
    }
}

/// Every job is renewed exactly where what all tasks share has changed: a notification setting, a
/// file of variables, or a variable. The spelling of a path does not count.
pub proof fn law_shared_changes_renew_every_job(current: LoadedConfig, next: LoadedConfig)
    ensures
        ({
            let p = texts(current.env_files@);
            let q = texts(next.env_files@);
            let same_files = p.len() == q.len() && forall|i: int|
                0 <= i < p.len() ==> components(#[trigger] p[i]) == components(q[i]);
            let same_notifications = match (
                current.app@.notifications,
                next.app@.notifications,
            ) {
                (None, None) => true,
                (Some(x), Some(y)) => x.enabled == y.enabled && x.webhook == y.webhook && match (
                    x.renderer,
                    y.renderer,
                ) {
                    (None, None) => true,
                    (Some(r), Some(s)) => {
                        &&& r.program == s.program
                        &&& r.prompt == s.prompt
                        &&& r.timeout_seconds == s.timeout_seconds
                        &&& r.provider == s.provider
                        &&& r.model == s.model
                        &&& r.env == s.env
                        &&& components(r.workdir) == components(s.workdir)
                        &&& (r.session_dir is Some <==> s.session_dir is Some)
                        &&& (r.session_dir is Some ==> components(r.session_dir->0) == components(
                            s.session_dir->0,
                        ))
                        &&& (r.agent_dir is Some <==> s.agent_dir is Some)
                        &&& (r.agent_dir is Some ==> components(r.agent_dir->0) == components(
                            s.agent_dir->0,
                        ))
                    },
                    _ => false,
                },
                _ => false,
            };
            must_renew_all(current, next) <==> !(same_notifications && same_files && text_pairs(
                current.env,
            ) == text_pairs(next.env))
        }),
{
    let p = texts(current.env_files@);
    let q = texts(next.env_files@);
    if p.len() == q.len() && forall|i: int|
        0 <= i < p.len() ==> components(#[trigger] p[i]) == components(q[i]) {
        assert forall|i: int| 0 <= i < p.len() implies same(
            #[trigger] p[i],
            q[i],
        ) by {}
    }
}

// ---------------------------------------------------------------------------------------------
// Watching
// ---------------------------------------------------------------------------------------------
/// The daemon stops when asked to, looks at its files when it is time, and reloads on a change
/// exactly where one of the changed paths is one of its files, however it is spelled.
pub proof fn law_daemon_reacts(daemon: Daemon, event: DaemonEvent)
    ensures
        event is Shutdown <==> on_event(daemon, event) == DaemonAction::Stop,
        event is Poll <==> on_event(daemon, event) == DaemonAction::Reload,
        event is WatcherClosed ==> on_event(daemon, event) == DaemonAction::Wait,
        event is Changed ==> ({
            let paths = texts(event->Changed_0@);
            let files = texts(daemon.watched@);
            (on_event(daemon, event) == DaemonAction::SettleAndReload <==> exists|i: int, k: int|
                0 <= i < paths.len() && 0 <= k < files.len() && components(#[trigger] paths[i])
                    == components(#[trigger] files[k])) && (on_event(daemon, event)
                == DaemonAction::SettleAndReload || on_event(daemon, event)
                == DaemonAction::Wait)
        }),
{
    if event is Changed {
        let paths = texts(event->Changed_0@);
        let files = texts(daemon.watched@);
        if exists|i: int, k: int|
            0 <= i < paths.len() && 0 <= k < files.len() && components(#[trigger] paths[i])
                == components(#[trigger] files[k]) {
            let (i, k) = choose|i: int, k: int|
                0 <= i < paths.len() && 0 <= k < files.len() && components(#[trigger] paths[i])
                    == components(#[trigger] files[k]);
            assert(same(files[k], paths[i]));
            assert(holds(files, paths[i]));
        }
        if exists|i: int| 0 <= i < paths.len() && holds(files, #[trigger] paths[i]) {
            let i = choose|i: int| 0 <= i < paths.len() && holds(files, #[trigger] paths[i]);
            let k = choose|k: int|
                0 <= k < files.len() && same(#[trigger] files[k], paths[i]);
            assert(components(paths[i]) == components(files[k]));
        }
    }
}

/// The files that a configuration is made from are its own file and its files of variables.
pub proof fn law_input_files(config_path: Seq<char>, env_files: Seq<Seq<char>>, path: Seq<char>)
    ensures
        input_files(config_path, env_files).contains(path) <==> path == config_path
            || env_files.contains(path),
        input_files(config_path, env_files).len() == env_files.len() + 1,
{
    let all = input_files(config_path, env_files);
    assert(all[0] == config_path);
    if all.contains(path) {
        let i = choose|i: int| 0 <= i < all.len() && all[i] == path;
        if i > 0 {
            assert(env_files[i - 1] == path);
        }
    }
    if env_files.contains(path) {
        let i = choose|i: int| 0 <= i < env_files.len() && env_files[i] == path;
        assert(all[i + 1] == path);
    }
}

/// A list of paths without repetition holds each path of the first list, and no other, once, in
/// ascending order.
pub proof fn law_path_sets(paths: Seq<Seq<char>>, set: Seq<Seq<char>>)
    requires
        path_set(paths, set),
    ensures
        forall|p: Seq<char>| #[trigger]
            paths.contains(p) ==> exists|k: int|
                0 <= k < set.len() && components(#[trigger] set[k]) == components(p),
        forall|k: int| 0 <= k < set.len() ==> paths.contains(#[trigger] set[k]),
        forall|k: int, m: int|
            0 <= k < m < set.len() ==> components(#[trigger] set[k]) != components(
                #[trigger] set[m],
            ) && path_before(set[k], set[m]),
{
    assert forall|p: Seq<char>| #[trigger] paths.contains(p) implies exists|k: int|
        0 <= k < set.len() && components(#[trigger] set[k]) == components(p) by {
        let i = choose|i: int| 0 <= i < paths.len() && paths[i] == p;
        assert(holds(set, paths[i]));
        let k = choose|k: int| 0 <= k < set.len() && same(#[trigger] set[k], paths[i]);
        assert(components(set[k]) == components(p));
    }
    assert forall|k: int| 0 <= k < set.len() implies paths.contains(#[trigger] set[k]) by {
        assert(first_spelling(paths, set[k]));
    }
    assert forall|k: int, m: int| 0 <= k < m < set.len() implies components(#[trigger] set[k])
        != components(#[trigger] set[m]) && path_before(set[k], set[m]) by {
        assert(path_before(set[k], set[m]));
        lemma_pieces_irreflexive(components(set[k]));
    }
}

/// A path to watch is the path itself where it starts at the root.
pub proof fn law_absolute_paths_are_watched_as_they_are(path: Seq<char>, current_dir: Seq<char>)
    requires
        absolute(path),
    ensures
        watch_path(path, current_dir) == path,
{
}

/// Files count as changed exactly where another list of files was looked at, or a file came, went,
/// or has another time or length.
pub proof fn law_stamps_tell_changes(a: ConfigInputsStamp, b: ConfigInputsStamp)
    ensures
        same_stamp(a, b) <==> {
            let p = texts(a.paths@);
            let q = texts(b.paths@);
            &&& p.len() == q.len()
            &&& forall|i: int| 0 <= i < p.len() ==> components(#[trigger] p[i]) == components(q[i])
            &&& a.stamps@.len() == b.stamps@.len()
            &&& forall|i: int|
                0 <= i < a.stamps@.len() ==> match (#[trigger] a.stamps@[i], b.stamps@[i]) {
                    (None, None) => true,
                    (Some(x), Some(y)) => x.modified_secs == y.modified_secs && x.modified_nanos
                        == y.modified_nanos && x.len == y.len,
                    _ => false,
                }
        },
{
    let p = texts(a.paths@);
    let q = texts(b.paths@);
    if p.len() == q.len() && forall|i: int|
        0 <= i < p.len() ==> components(#[trigger] p[i]) == components(q[i]) {
        assert forall|i: int| 0 <= i < p.len() implies same(
            #[trigger] p[i],
            q[i],
        ) by {}
    }
    if a.stamps@.len() == b.stamps@.len() && forall|i: int|
        0 <= i < a.stamps@.len() ==> match (#[trigger] a.stamps@[i], b.stamps@[i]) {
            (None, None) => true,
            (Some(x), Some(y)) => x.modified_secs == y.modified_secs && x.modified_nanos
                == y.modified_nanos && x.len == y.len,
            _ => false,
        } {
        assert(a.stamps@ =~= b.stamps@);
    }
}

/// The directories to watch are those of the files, one for one.
pub proof fn law_directories_of_files(paths: Seq<Seq<char>>)
    ensures
        directories(paths).len() == paths.len(),
        forall|i: int|
            0 <= i < paths.len() ==> #[trigger] directories(paths)[i] == directory_of(paths[i]),
{
}

/// The daemon looks at its files every five minutes, and waits for 300 milliseconds before it acts
/// on a change.
pub proof fn law_daemon_waits()
    ensures
        POLL_SECONDS == 5 * 60,
        SETTLE_MILLIS == 300,
{
}

// ---------------------------------------------------------------------------------------------
// Replaced runs
// ---------------------------------------------------------------------------------------------
/// A request gets the next number and leaves its own handle behind; it is given the handle that was
/// there.
pub proof fn law_requests_are_entered<T>(
    before: ReplaceState<T>,
    after: ReplaceState<T>,
    cancel: T,
    number: int,
    replaced: Option<T>,
)
    requires
        entered(before, after, cancel, number, replaced),
    ensures
        number == before.generation() + 1,
        after.generation() == number,
        after.cancel() == Some(cancel),
        replaced == before.cancel(),
{
}

/// The end of the newest request takes its handle away; the end of any other leaves everything as it
/// is.
pub proof fn law_requests_end<T>(before: ReplaceState<T>, after: ReplaceState<T>, number: int)
    requires
        cleared(before, after, number),
    ensures
        after.generation() == before.generation(),
        number == before.generation() ==> after.cancel() is None,
        number != before.generation() ==> after.cancel() == before.cancel(),
{
}

} // verus!

//! What a changed configuration means for the jobs that are registered.

use vstd::prelude::*;

use crate::config::{
    same_task, same_task_lists, task_views, AppConfig, AppView, TaskConfig, TaskView,
};
use crate::config_laws::unique_ids;
use crate::text::{same_text, texts};
use crate::text_map::TextMap;

verus! {

// ---------------------------------------------------------------------------------------------
// Enabled tasks
// ---------------------------------------------------------------------------------------------
/// The enabled ones of the first `n` tasks.
pub open spec fn enabled_tasks(tasks: Seq<TaskView>, n: int) -> Seq<TaskView>
    decreases n,
{
    if n <= 0 {
        Seq::empty()
    } else if tasks[n - 1].enabled {
        enabled_tasks(tasks, n - 1).push(tasks[n - 1])
    } else {
        enabled_tasks(tasks, n - 1)
    }
}

/// The enabled tasks of a configuration in its order.
pub open spec fn enabled_of(c: AppView) -> Seq<TaskView> {
    enabled_tasks(c.tasks, c.tasks.len() as int)
}

/// The ids of a list of tasks.
pub open spec fn ids_of(tasks: Seq<TaskView>) -> Seq<Seq<char>> {
    Seq::new(tasks.len(), |i: int| tasks[i].id)
}

/// The enabled tasks of a configuration, which are the ones to register.
pub fn tasks_to_register(config: &AppConfig) -> (r: Vec<TaskConfig>)
    ensures
        task_views(r@) == enabled_of(config@),
{
    let mut r: Vec<TaskConfig> = Vec::new();
    let mut i: usize = 0;
    assert(task_views(r@) =~= enabled_tasks(config@.tasks, 0));
    while i < config.tasks.len()
        invariant
            i <= config.tasks@.len(),
            task_views(r@) == enabled_tasks(config@.tasks, i as int),
        decreases config.tasks@.len() - i,
    {
        let ghost prior = task_views(r@);
        let ghost t = config@.tasks[i as int];
        assert(t == config.tasks@[i as int]@);
        if config.tasks[i].enabled {
            r.push(config.tasks[i].clone());
            assert(task_views(r@) =~= prior.push(t));
        }
        i = i + 1;
    }
    r
}

fn ids_of_tasks(tasks: &Vec<TaskConfig>) -> (r: Vec<String>)
    ensures
        texts(r@) == ids_of(task_views(tasks@)),
{
    let mut r: Vec<String> = Vec::new();
    let mut i: usize = 0;
    while i < tasks.len()
        invariant
            i <= tasks@.len(),
            r@.len() == i,
            forall|j: int| 0 <= j < i ==> (#[trigger] r@[j])@ == tasks@[j].id@,
        decreases tasks@.len() - i,
    {
        r.push(tasks[i].id.clone());
        i = i + 1;
    }
    assert(texts(r@) =~= ids_of(task_views(tasks@)));
    r
}

// ---------------------------------------------------------------------------------------------
// Plans
// ---------------------------------------------------------------------------------------------
/// The position of the last task with an id among the first `n`.
pub open spec fn last_with_id(tasks: Seq<TaskView>, id: Seq<char>, n: int) -> Option<int>
    decreases n,
{
    if n <= 0 {
        None
    } else if tasks[n - 1].id == id {
        Some(n - 1)
    } else {
        last_with_id(tasks, id, n - 1)
    }
}

/// The task that an id stands for in a list: the last one that carries it.
pub open spec fn holder(tasks: Seq<TaskView>, id: Seq<char>) -> Option<int> {
    last_with_id(tasks, id, tasks.len() as int)
}

/// What becomes of a task that is in force.
pub enum Fate {
    /// It stays, or was never registered.
    Stay,
    /// Its job goes, and no other comes.
    Remove,
    /// Its job goes, and the changed task is not enabled.
    Retire,
    /// Its job goes, and one for the changed task comes.
    Renew,
}

/// What becomes of the task at position `i`.
pub open spec fn fate(current: Seq<TaskView>, next: Seq<TaskView>, i: int) -> Fate {
    let task = current[i];
    if holder(current, task.id) != Some(i) {
        Fate::Stay
    } else {
        match holder(next, task.id) {
            None => if task.enabled {
                Fate::Remove
            } else {
                Fate::Stay
            },
            Some(j) => if same_task(task, next[j]) {
                Fate::Stay
            } else if next[j].enabled {
                Fate::Renew
            } else {
                Fate::Retire
            },
        }
    }
}

/// The ids of the first `n` tasks in force that go without a successor.
pub open spec fn removals(current: Seq<TaskView>, next: Seq<TaskView>, n: int) -> Seq<Seq<char>>
    decreases n,
{
    if n <= 0 {
        Seq::empty()
    } else if fate(current, next, n - 1) is Remove {
        removals(current, next, n - 1).push(current[n - 1].id)
    } else {
        removals(current, next, n - 1)
    }
}

/// The ids of the first `n` tasks in force that have changed.
pub open spec fn updates(current: Seq<TaskView>, next: Seq<TaskView>, n: int) -> Seq<Seq<char>>
    decreases n,
{
    if n <= 0 {
        Seq::empty()
    } else if fate(current, next, n - 1) is Retire || fate(current, next, n - 1) is Renew {
        updates(current, next, n - 1).push(current[n - 1].id)
    } else {
        updates(current, next, n - 1)
    }
}

/// The changed forms of the first `n` tasks in force, where they are enabled.
pub open spec fn renewals(current: Seq<TaskView>, next: Seq<TaskView>, n: int) -> Seq<TaskView>
    decreases n,
{
    if n <= 0 {
        Seq::empty()
    } else if fate(current, next, n - 1) is Renew {
        renewals(current, next, n - 1).push(next[holder(next, current[n - 1].id)->0])
    } else {
        renewals(current, next, n - 1)
    }
}

/// Whether the task at position `j` is enabled and its id is new.
pub open spec fn is_new(current: Seq<TaskView>, next: Seq<TaskView>, j: int) -> bool {
    &&& holder(next, next[j].id) == Some(j)
    &&& holder(current, next[j].id) is None
    &&& next[j].enabled
}

/// The enabled ones of the first `n` next tasks whose ids are new.
pub open spec fn additions(current: Seq<TaskView>, next: Seq<TaskView>, n: int) -> Seq<TaskView>
    decreases n,
{
    if n <= 0 {
        Seq::empty()
    } else if is_new(current, next, n - 1) {
        additions(current, next, n - 1).push(next[n - 1])
    } else {
        additions(current, next, n - 1)
    }
}

/// Which jobs go and which come.
#[verifier::ext_equal]
pub struct PlanView {
    pub remove: Seq<Seq<char>>,
    pub add: Seq<TaskView>,
    pub update: Seq<Seq<char>>,
}

/// Which jobs go and which come: the ids in `remove` and `update` lose theirs, then the tasks in
/// `add` get one.
#[derive(Debug)]
pub struct ReloadPlan {
    pub remove: Vec<String>,
    pub add: Vec<TaskConfig>,
    pub update: Vec<String>,
}

impl View for ReloadPlan {
    type V = PlanView;

    open spec fn view(&self) -> PlanView {
        PlanView {
            remove: texts(self.remove@),
            add: task_views(self.add@),
            update: texts(self.update@),
        }
    }
}

/// The plan that leads from one configuration to another. With `force` every job is renewed.
pub open spec fn reload_plan(current: AppView, next: AppView, force: bool) -> PlanView {
    if force {
        PlanView {
            remove: ids_of(enabled_of(current)),
            add: enabled_of(next),
            update: ids_of(enabled_of(next)),
        }
    } else {
        let a = current.tasks;
        let b = next.tasks;
        let n = a.len() as int;
        PlanView {
            remove: removals(a, b, n),
            add: renewals(a, b, n) + additions(a, b, b.len() as int),
            update: updates(a, b, n),
        }
    }
}

impl ReloadPlan {
    /// Whether the plan touches any job.
    pub fn has_changes(&self) -> (r: bool)
        ensures
            r == (self@.remove.len() > 0 || self@.add.len() > 0 || self@.update.len() > 0),
    {
        self.remove.len() > 0 || self.add.len() > 0 || self.update.len() > 0
    }

    /// The ids that lose their jobs: those to remove, then those to update.
    pub fn retired(&self) -> (r: Vec<String>)
        ensures
            texts(r@) == self@.remove + self@.update,
    {
        let mut r: Vec<String> = Vec::new();
        let mut i: usize = 0;
        while i < self.remove.len()
            invariant
                i <= self.remove@.len(),
                r@.len() == i,
                forall|j: int| 0 <= j < i ==> (#[trigger] r@[j])@ == self.remove@[j]@,
            decreases self.remove@.len() - i,
        {
            r.push(self.remove[i].clone());
            i = i + 1;
        }
        let mut k: usize = 0;
        while k < self.update.len()
            invariant
                k <= self.update@.len(),
                r@.len() == self.remove@.len() + k,
                forall|j: int|
                    0 <= j < self.remove@.len() ==> (#[trigger] r@[j])@ == self.remove@[j]@,
                forall|j: int|
                    self.remove@.len() <= j < self.remove@.len() + k ==> (#[trigger] r@[j])@
                        == self.update@[j - self.remove@.len()]@,
            decreases self.update@.len() - k,
        {
            r.push(self.update[k].clone());
            k = k + 1;
        }
        assert(texts(r@) =~= self@.remove + self@.update);
        r
    }
}

fn find_holder(tasks: &Vec<TaskConfig>, id: &str) -> (r: Option<usize>)
    ensures
        match r {
            Some(i) => i < tasks@.len() && holder(task_views(tasks@), id@) == Some(i as int),
            None => holder(task_views(tasks@), id@) is None,
        },
{
    let ghost views = task_views(tasks@);
    let mut i: usize = tasks.len();
    while i > 0
        invariant
            i <= tasks@.len(),
            views == task_views(tasks@),
            holder(views, id@) == last_with_id(views, id@, i as int),
        decreases i,
    {
        assert(views[i - 1] == tasks@[i - 1]@);
        if same_text(&tasks[i - 1].id, id) {
            return Some(i - 1);
        }
        i = i - 1;
    }
    None
}

fn plan_all(current: &AppConfig, next: &AppConfig) -> (r: ReloadPlan)
    ensures
        r@ == reload_plan(current@, next@, true),
{
    let old_tasks = tasks_to_register(current);
    let new_tasks = tasks_to_register(next);
    let remove = ids_of_tasks(&old_tasks);
    let update = ids_of_tasks(&new_tasks);
    ReloadPlan { remove, add: new_tasks, update }
}

/// The plan that leads from one configuration to another: jobs of tasks that are gone are removed,
/// those of changed tasks are renewed, and new tasks get one. With `force_reload_all` every job is
/// renewed.
pub fn build_reload_plan(
    current: &AppConfig,
    next: &AppConfig,
    force_reload_all: bool,
) -> (r: ReloadPlan)
    ensures
        r@ == reload_plan(current@, next@, force_reload_all),
{
    if force_reload_all {
        return plan_all(current, next);
    }
    let ghost a = current@.tasks;
    let ghost b = next@.tasks;
    let mut remove: Vec<String> = Vec::new();
    let mut add: Vec<TaskConfig> = Vec::new();
    let mut update: Vec<String> = Vec::new();
    let mut i: usize = 0;
    assert(texts(remove@) =~= removals(a, b, 0));
    assert(texts(update@) =~= updates(a, b, 0));
    assert(task_views(add@) =~= renewals(a, b, 0));
    while i < current.tasks.len()
        invariant
            i <= current.tasks@.len(),
            a == current@.tasks,
            b == next@.tasks,
            texts(remove@) == removals(a, b, i as int),
            texts(update@) == updates(a, b, i as int),
            task_views(add@) == renewals(a, b, i as int),
        decreases current.tasks@.len() - i,
    {
        let task = &current.tasks[i];
        let ghost removed = texts(remove@);
        let ghost updated = texts(update@);
        let ghost added = task_views(add@);
        assert(a[i as int] == task@);
        let in_force = match find_holder(&current.tasks, &task.id) {
            Some(k) => k == i,
            None => false,
        };
        if in_force {
            match find_holder(&next.tasks, &task.id) {
                None => {
                    if task.enabled {
                        remove.push(task.id.clone());
                        assert(texts(remove@) =~= removed.push(task@.id));
                    }
                },
                Some(j) => {
                    assert(b[j as int] == next.tasks@[j as int]@);
                    if *task != next.tasks[j] {
                        update.push(task.id.clone());
                        assert(texts(update@) =~= updated.push(task@.id));
                        if next.tasks[j].enabled {
                            add.push(next.tasks[j].clone());
                            assert(task_views(add@) =~= added.push(b[j as int]));
                        }
                    }
                },
            }
        }
        i = i + 1;
    }
    let ghost renewed = task_views(add@);
    let mut j: usize = 0;
    assert(task_views(add@) =~= renewed + additions(a, b, 0));
    while j < next.tasks.len()
        invariant
            j <= next.tasks@.len(),
            a == current@.tasks,
            b == next@.tasks,
            task_views(add@) == renewed + additions(a, b, j as int),
        decreases next.tasks@.len() - j,
    {
        let task = &next.tasks[j];
        let ghost added = task_views(add@);
        assert(b[j as int] == task@);
        let in_force = match find_holder(&next.tasks, &task.id) {
            Some(k) => k == j,
            None => false,
        };
        if in_force && task.enabled && find_holder(&current.tasks, &task.id).is_none() {
            add.push(task.clone());
            assert(task_views(add@) =~= added.push(task@));
            assert(task_views(add@) =~= renewed + additions(a, b, j + 1));
        }
        j = j + 1;
    }
    ReloadPlan { remove, add, update }
}

// ---------------------------------------------------------------------------------------------
// Jobs
// ---------------------------------------------------------------------------------------------
/// The jobs that run, by task id. Each is known by the name that the scheduler gave it.
#[derive(Debug)]
pub struct JobRegistry {
    jobs: TextMap<String>,
}

impl View for JobRegistry {
    type V = Map<Seq<char>, String>;

    closed spec fn view(&self) -> Map<Seq<char>, String> {
        self.jobs@
    }
}

impl JobRegistry {
    /// The registry without jobs.
    pub fn new() -> (r: JobRegistry)
        ensures
            r@ == Map::<Seq<char>, String>::empty(),
    {
        JobRegistry { jobs: TextMap::new() }
    }

    /// Notes the job of a task.
    pub fn enrol(&mut self, task_id: &str, job: String)
        ensures
            final(self)@ == old(self)@.insert(task_id@, job),
    {
        self.jobs.insert(task_id.to_owned(), job);
    }

    /// Forgets the job of a task, and returns it where there was one.
    pub fn retire(&mut self, task_id: &str) -> (r: Option<String>)
        ensures
            final(self)@ == old(self)@.remove(task_id@),
            match r {
                Some(job) => old(self)@.dom().contains(task_id@) && job == old(self)@[task_id@],
                None => !old(self)@.dom().contains(task_id@),
            },
    {
        self.jobs.remove(task_id)
    }

    /// The job of a task.
    pub fn job(&self, task_id: &str) -> (r: Option<&String>)
        ensures
            match r {
                Some(job) => self@.dom().contains(task_id@) && *job == self@[task_id@],
                None => !self@.dom().contains(task_id@),
            },
    {
        self.jobs.get(task_id)
    }
}

// ---------------------------------------------------------------------------------------------
// Where a plan leads
// ---------------------------------------------------------------------------------------------
/// The tasks that have a job under a configuration, by id.
pub open spec fn jobs_of(c: AppView) -> Map<Seq<char>, TaskView> {
    Map::new(
        |id: Seq<char>| holder(c.tasks, id) is Some && c.tasks[holder(c.tasks, id)->0].enabled,
        |id: Seq<char>| c.tasks[holder(c.tasks, id)->0],
    )
}

/// The jobs without those of some ids.
pub open spec fn without(jobs: Map<Seq<char>, TaskView>, ids: Seq<Seq<char>>) -> Map<
    Seq<char>,
    TaskView,
> {
    jobs.remove_keys(ids.to_set())
}

/// The jobs with those of the first `n` tasks of a list.
pub open spec fn with_tasks(jobs: Map<Seq<char>, TaskView>, tasks: Seq<TaskView>, n: int) -> Map<
    Seq<char>,
    TaskView,
>
    decreases n,
{
    if n <= 0 {
        jobs
    } else {
        with_tasks(jobs, tasks, n - 1).insert(tasks[n - 1].id, tasks[n - 1])
    }
}

/// The jobs after a plan was carried out.
pub open spec fn carried_out(jobs: Map<Seq<char>, TaskView>, plan: PlanView) -> Map<
    Seq<char>,
    TaskView,
> {
    with_tasks(without(jobs, plan.remove + plan.update), plan.add, plan.add.len() as int)
}

pub proof fn lemma_last_with_id(tasks: Seq<TaskView>, id: Seq<char>, n: int)
    requires
        0 <= n <= tasks.len(),
    ensures
        match last_with_id(tasks, id, n) {
            Some(i) => 0 <= i < n && tasks[i].id == id && forall|j: int|
                i < j < n ==> (#[trigger] tasks[j]).id != id,
            None => forall|j: int| 0 <= j < n ==> (#[trigger] tasks[j]).id != id,
        },
    decreases n,
{
    if n > 0 {
        lemma_last_with_id(tasks, id, n - 1);
    }
}

/// A task of a list with unique ids is the holder of its id.
pub proof fn lemma_unique_holder(tasks: Seq<TaskView>, i: int)
    requires
        unique_ids(tasks),
        0 <= i < tasks.len(),
    ensures
        holder(tasks, tasks[i].id) == Some(i),
{
    lemma_last_with_id(tasks, tasks[i].id, tasks.len() as int);
    let h = holder(tasks, tasks[i].id)->0;
    if h < i {
        assert(tasks[h].id != tasks[i].id);
    }
    if i < h {
        assert(tasks[i].id != tasks[h].id);
    }
}

pub proof fn lemma_removals(current: Seq<TaskView>, next: Seq<TaskView>, n: int, id: Seq<char>)
    requires
        0 <= n <= current.len(),
    ensures
        removals(current, next, n).contains(id) <==> exists|i: int|
            0 <= i < n && (#[trigger] current[i]).id == id && fate(current, next, i) is Remove,
    decreases n,
{
    if n > 0 {
        lemma_removals(current, next, n - 1, id);
        let rest = removals(current, next, n - 1);
        let all = removals(current, next, n);
        if all.contains(id) {
            let k = choose|k: int| 0 <= k < all.len() && all[k] == id;
            if k < rest.len() {
                assert(rest[k] == id);
                assert(rest.contains(id));
            } else {
                assert(current[n - 1].id == id);
            }
        }
        if rest.contains(id) {
            let k = choose|k: int| 0 <= k < rest.len() && rest[k] == id;
            assert(all[k] == id);
        }
        if fate(current, next, n - 1) is Remove {
            assert(all[rest.len() as int] == current[n - 1].id);
        }
    }
}

pub proof fn lemma_updates(current: Seq<TaskView>, next: Seq<TaskView>, n: int, id: Seq<char>)
    requires
        0 <= n <= current.len(),
    ensures
        updates(current, next, n).contains(id) <==> exists|i: int|
            0 <= i < n && (#[trigger] current[i]).id == id && (fate(current, next, i) is Retire
                || fate(current, next, i) is Renew),
    decreases n,
{
    if n > 0 {
        lemma_updates(current, next, n - 1, id);
        let rest = updates(current, next, n - 1);
        let all = updates(current, next, n);
        if all.contains(id) {
            let k = choose|k: int| 0 <= k < all.len() && all[k] == id;
            if k < rest.len() {
                assert(rest[k] == id);
                assert(rest.contains(id));
            } else {
                assert(current[n - 1].id == id);
            }
        }
        if rest.contains(id) {
            let k = choose|k: int| 0 <= k < rest.len() && rest[k] == id;
            assert(all[k] == id);
        }
        if fate(current, next, n - 1) is Retire || fate(current, next, n - 1) is Renew {
            assert(all[rest.len() as int] == current[n - 1].id);
        }
    }
}

/// A list in which each task is the holder of its id among some tasks.
pub open spec fn drawn_from(list: Seq<TaskView>, tasks: Seq<TaskView>) -> bool {
    forall|k: int|
        0 <= k < list.len() ==> {
            &&& holder(tasks, (#[trigger] list[k]).id) is Some
            &&& tasks[holder(tasks, list[k].id)->0] == list[k]
        }
}

/// Whether a list holds a task with that id.
pub open spec fn lists_id(list: Seq<TaskView>, id: Seq<char>) -> bool {
    exists|k: int| 0 <= k < list.len() && (#[trigger] list[k]).id == id
}

pub proof fn lemma_with_tasks(
    jobs: Map<Seq<char>, TaskView>,
    list: Seq<TaskView>,
    tasks: Seq<TaskView>,
    n: int,
    id: Seq<char>,
)
    requires
        drawn_from(list, tasks),
        0 <= n <= list.len(),
    ensures
        ({
            let after = with_tasks(jobs, list, n);
            let listed = lists_id(list.subrange(0, n), id);
            &&& after.dom().contains(id) <==> listed || jobs.dom().contains(id)
            &&& listed ==> after[id] == tasks[holder(tasks, id)->0]
            &&& !listed && jobs.dom().contains(id) ==> after[id] == jobs[id]
        }),
    decreases n,
{
    if n > 0 {
        lemma_with_tasks(jobs, list, tasks, n - 1, id);
        let short = list.subrange(0, n - 1);
        let long = list.subrange(0, n);
        assert(long[n - 1] == list[n - 1]);
        if lists_id(long, id) {
            let k = choose|k: int| 0 <= k < long.len() && (#[trigger] long[k]).id == id;
            if k < n - 1 {
                assert(short[k].id == id);
            }
        }
        if lists_id(short, id) {
            let k = choose|k: int| 0 <= k < short.len() && (#[trigger] short[k]).id == id;
            assert(long[k].id == id);
        }
    }
}

pub proof fn lemma_renewals(current: Seq<TaskView>, next: Seq<TaskView>, n: int, id: Seq<char>)
    requires
        0 <= n <= current.len(),
    ensures
        drawn_from(renewals(current, next, n), next),
        lists_id(renewals(current, next, n), id) <==> exists|i: int|
            0 <= i < n && (#[trigger] current[i]).id == id && fate(current, next, i) is Renew,
    decreases n,
{
    if n > 0 {
        lemma_renewals(current, next, n - 1, id);
        let rest = renewals(current, next, n - 1);
        let all = renewals(current, next, n);
        if fate(current, next, n - 1) is Renew {
            lemma_last_with_id(next, current[n - 1].id, next.len() as int);
            let new_task = next[holder(next, current[n - 1].id)->0];
            assert(all[rest.len() as int] == new_task);
            assert(new_task.id == current[n - 1].id);
        }
        if lists_id(all, id) {
            let k = choose|k: int| 0 <= k < all.len() && (#[trigger] all[k]).id == id;
            if k < rest.len() {
                assert(rest[k].id == id);
                assert(lists_id(rest, id));
            } else {
                assert(current[n - 1].id == id);
            }
        }
        if lists_id(rest, id) {
            let k = choose|k: int| 0 <= k < rest.len() && (#[trigger] rest[k]).id == id;
            assert(all[k].id == id);
        }
        assert forall|k: int| 0 <= k < all.len() implies {
            &&& holder(next, (#[trigger] all[k]).id) is Some
            &&& next[holder(next, all[k].id)->0] == all[k]
        } by {
            if k < rest.len() {
                assert(rest[k] == all[k]);
            }
        }
    }
}

pub proof fn lemma_additions(current: Seq<TaskView>, next: Seq<TaskView>, n: int, id: Seq<char>)
    requires
        0 <= n <= next.len(),
    ensures
        drawn_from(additions(current, next, n), next),
        lists_id(additions(current, next, n), id) <==> exists|j: int|
            0 <= j < n && (#[trigger] next[j]).id == id && is_new(current, next, j),
    decreases n,
{
    if n > 0 {
        lemma_additions(current, next, n - 1, id);
        let rest = additions(current, next, n - 1);
        let all = additions(current, next, n);
        if is_new(current, next, n - 1) {
            assert(all[rest.len() as int] == next[n - 1]);
        }
        if lists_id(all, id) {
            let k = choose|k: int| 0 <= k < all.len() && (#[trigger] all[k]).id == id;
            if k < rest.len() {
                assert(rest[k].id == id);
                assert(lists_id(rest, id));
            } else {
                assert(next[n - 1].id == id);
            }
        }
        if lists_id(rest, id) {
            let k = choose|k: int| 0 <= k < rest.len() && (#[trigger] rest[k]).id == id;
            assert(all[k].id == id);
        }
        assert forall|k: int| 0 <= k < all.len() implies {
            &&& holder(next, (#[trigger] all[k]).id) is Some
            &&& next[holder(next, all[k].id)->0] == all[k]
        } by {
            if k < rest.len() {
                assert(rest[k] == all[k]);
            }
        }
    }
}

pub proof fn lemma_enabled(tasks: Seq<TaskView>, n: int, id: Seq<char>)
    requires
        unique_ids(tasks),
        0 <= n <= tasks.len(),
    ensures
        drawn_from(enabled_tasks(tasks, n), tasks),
        lists_id(enabled_tasks(tasks, n), id) <==> exists|i: int|
            0 <= i < n && (#[trigger] tasks[i]).id == id && tasks[i].enabled,
    decreases n,
{
    if n > 0 {
        lemma_enabled(tasks, n - 1, id);
        let rest = enabled_tasks(tasks, n - 1);
        let all = enabled_tasks(tasks, n);
        if tasks[n - 1].enabled {
            assert(all[rest.len() as int] == tasks[n - 1]);
            lemma_unique_holder(tasks, n - 1);
        }
        if lists_id(all, id) {
            let k = choose|k: int| 0 <= k < all.len() && (#[trigger] all[k]).id == id;
            if k < rest.len() {
                assert(rest[k].id == id);
                assert(lists_id(rest, id));
            } else {
                assert(tasks[n - 1].id == id);
            }
        }
        if lists_id(rest, id) {
            let k = choose|k: int| 0 <= k < rest.len() && (#[trigger] rest[k]).id == id;
            assert(all[k].id == id);
        }
        assert forall|k: int| 0 <= k < all.len() implies {
            &&& holder(tasks, (#[trigger] all[k]).id) is Some
            &&& tasks[holder(tasks, all[k].id)->0] == all[k]
        } by {
            if k < rest.len() {
                assert(rest[k] == all[k]);
            }
        }
    }
}

pub proof fn lemma_ids_listed(list: Seq<TaskView>, id: Seq<char>)
    ensures
        ids_of(list).contains(id) <==> lists_id(list, id),
{
    if ids_of(list).contains(id) {
        let k = choose|k: int| 0 <= k < ids_of(list).len() && ids_of(list)[k] == id;
        assert(list[k].id == id);
    }
    if lists_id(list, id) {
        let k = choose|k: int| 0 <= k < list.len() && (#[trigger] list[k]).id == id;
        assert(ids_of(list)[k] == id);
    }
}

pub proof fn lemma_contains_sum(a: Seq<Seq<char>>, b: Seq<Seq<char>>, id: Seq<char>)
    ensures
        (a + b).contains(id) <==> a.contains(id) || b.contains(id),
{
    let s = a + b;
    if s.contains(id) {
        let k = choose|k: int| 0 <= k < s.len() && s[k] == id;
        if k < a.len() {
            assert(a[k] == id);
        } else {
            assert(b[k - a.len()] == id);
        }
    }
    if a.contains(id) {
        let k = choose|k: int| 0 <= k < a.len() && a[k] == id;
        assert(s[k] == id);
    }
    if b.contains(id) {
        let k = choose|k: int| 0 <= k < b.len() && b[k] == id;
        assert(s[a.len() + k] == id);
    }
}

pub proof fn lemma_lists_sum(a: Seq<TaskView>, b: Seq<TaskView>, tasks: Seq<TaskView>, id: Seq<char>)
    requires
        drawn_from(a, tasks),
        drawn_from(b, tasks),
    ensures
        drawn_from(a + b, tasks),
        lists_id(a + b, id) <==> lists_id(a, id) || lists_id(b, id),
{
    let s = a + b;
    if lists_id(s, id) {
        let k = choose|k: int| 0 <= k < s.len() && (#[trigger] s[k]).id == id;
        if k < a.len() {
            assert(a[k].id == id);
        } else {
            assert(b[k - a.len()].id == id);
        }
    }
    if lists_id(a, id) {
        let k = choose|k: int| 0 <= k < a.len() && (#[trigger] a[k]).id == id;
        assert(s[k].id == id);
    }
    if lists_id(b, id) {
        let k = choose|k: int| 0 <= k < b.len() && (#[trigger] b[k]).id == id;
        assert(s[a.len() + k].id == id);
    }
    assert forall|k: int| 0 <= k < s.len() implies {
        &&& holder(tasks, (#[trigger] s[k]).id) is Some
        &&& tasks[holder(tasks, s[k].id)->0] == s[k]
    } by {
        if k < a.len() {
            assert(s[k] == a[k]);
        } else {
            assert(s[k] == b[k - a.len()]);
        }
    }
}

pub proof fn lemma_plan_at(current: AppView, next: AppView, force: bool, id: Seq<char>)
    requires
        unique_ids(current.tasks),
        unique_ids(next.tasks),
    ensures
        ({
            let after = carried_out(jobs_of(current), reload_plan(current, next, force));
            &&& after.dom().contains(id) <==> jobs_of(next).dom().contains(id)
            &&& after.dom().contains(id) ==> same_task(after[id], jobs_of(next)[id])
        }),
{
    let a = current.tasks;
    let b = next.tasks;
    let plan = reload_plan(current, next, force);
    let jobs = jobs_of(current);
    let left = without(jobs, plan.remove + plan.update);
    lemma_contains_sum(plan.remove, plan.update, id);
    lemma_last_with_id(a, id, a.len() as int);
    lemma_last_with_id(b, id, b.len() as int);
    let i = holder(a, id);
    let j = holder(b, id);
    assert((plan.remove + plan.update).to_set().contains(id) <==> (plan.remove
        + plan.update).contains(id));
    if force {
        lemma_enabled(a, a.len() as int, id);
        lemma_enabled(b, b.len() as int, id);
        lemma_ids_listed(enabled_of(current), id);
        lemma_ids_listed(enabled_of(next), id);
        if i is Some && a[i->0].enabled {
            assert(lists_id(enabled_of(current), id));
        }
        if j is Some && b[j->0].enabled {
            assert(lists_id(enabled_of(next), id));
        }
        if lists_id(enabled_of(next), id) {
            let k = choose|k: int| 0 <= k < b.len() && (#[trigger] b[k]).id == id && b[k].enabled;
            lemma_unique_holder(b, k);
        }
    } else {
        lemma_removals(a, b, a.len() as int, id);
        lemma_updates(a, b, a.len() as int, id);
        lemma_renewals(a, b, a.len() as int, id);
        lemma_additions(a, b, b.len() as int, id);
        lemma_lists_sum(
            renewals(a, b, a.len() as int),
            additions(a, b, b.len() as int),
            b,
            id,
        );
        if i is Some {
            lemma_unique_holder(a, i->0);
            assert forall|k: int| 0 <= k < a.len() && (#[trigger] a[k]).id == id implies k
                == i->0 by {
                lemma_unique_holder(a, k);
            }
            assert(a[i->0].id == id);
        }
        if j is Some {
            lemma_unique_holder(b, j->0);
            assert forall|k: int| 0 <= k < b.len() && (#[trigger] b[k]).id == id implies k
                == j->0 by {
                lemma_unique_holder(b, k);
            }
            assert(b[j->0].id == id);
        }
    }
    lemma_with_tasks(left, plan.add, b, plan.add.len() as int, id);
    assert(plan.add.subrange(0, plan.add.len() as int) =~= plan.add);
}

/// Whether two configurations have jobs for the same ids, each for the same task.
pub open spec fn same_jobs(a: Map<Seq<char>, TaskView>, b: Map<Seq<char>, TaskView>) -> bool {
    &&& a.dom() == b.dom()
    &&& forall|id: Seq<char>| a.dom().contains(id) ==> same_task(#[trigger] a[id], b[id])
}

/// Carrying out the plan from one configuration to another turns the jobs of the first into
/// exactly those of the second. Only the spelling of a path may be the earlier one, where nothing
/// else of the task has changed.
pub proof fn law_reload_reaches_next(current: AppView, next: AppView, force: bool)
    requires
        unique_ids(current.tasks),
        unique_ids(next.tasks),
    ensures
        same_jobs(carried_out(jobs_of(current), reload_plan(current, next, force)), jobs_of(next)),
{
    let after = carried_out(jobs_of(current), reload_plan(current, next, force));
    assert forall|id: Seq<char>|
        after.dom().contains(id) <==> jobs_of(next).dom().contains(id) by {
        lemma_plan_at(current, next, force, id);
    }
    assert forall|id: Seq<char>| after.dom().contains(id) implies same_task(
        #[trigger] after[id],
        jobs_of(next)[id],
    ) by {
        lemma_plan_at(current, next, force, id);
    }
    assert(after.dom() =~= jobs_of(next).dom());
}

/// Without force, a task that is the same before and after keeps its job, however its paths are
/// spelled: no list of the plan names it.
pub proof fn law_unchanged_tasks_keep_their_jobs(current: AppView, next: AppView, i: int, j: int)
    requires
        unique_ids(current.tasks),
        unique_ids(next.tasks),
        0 <= i < current.tasks.len(),
        0 <= j < next.tasks.len(),
        same_task(current.tasks[i], next.tasks[j]),
    ensures
        ({
            let id = current.tasks[i].id;
            let plan = reload_plan(current, next, false);
            !plan.remove.contains(id) && !plan.update.contains(id) && !lists_id(plan.add, id)
        }),
{
    let a = current.tasks;
    let b = next.tasks;
    let id = a[i].id;
    lemma_unique_holder(a, i);
    lemma_unique_holder(b, j);
    lemma_removals(a, b, a.len() as int, id);
    lemma_updates(a, b, a.len() as int, id);
    lemma_renewals(a, b, a.len() as int, id);
    lemma_additions(a, b, b.len() as int, id);
    lemma_lists_sum(renewals(a, b, a.len() as int), additions(a, b, b.len() as int), b, id);
    assert forall|k: int| 0 <= k < a.len() && (#[trigger] a[k]).id == id implies k == i by {
        lemma_unique_holder(a, k);
    }
    assert forall|k: int| 0 <= k < b.len() && (#[trigger] b[k]).id == id implies k == j by {
        lemma_unique_holder(b, k);
    }
}

pub proof fn lemma_no_change(a: Seq<TaskView>, b: Seq<TaskView>, n: int)
    requires
        unique_ids(a),
        same_task_lists(a, b),
        0 <= n <= a.len(),
    ensures
        removals(a, b, n).len() == 0,
        updates(a, b, n).len() == 0,
        renewals(a, b, n).len() == 0,
        additions(a, b, n).len() == 0,
    decreases n,
{
    if n > 0 {
        lemma_no_change(a, b, n - 1);
        assert(same_task(a[n - 1], b[n - 1]));
        assert forall|i: int, j: int| 0 <= i < j < b.len() implies (#[trigger] b[i]).id != (
        #[trigger] b[j]).id by {
            assert(same_task(a[i], b[i]) && same_task(a[j], b[j]));
        }
        assert(unique_ids(b));
        lemma_unique_holder(a, n - 1);
        lemma_unique_holder(b, n - 1);
    }
}

/// A configuration that does not change, or changes in the spelling of paths only, asks for
/// nothing.
pub proof fn law_same_configuration_plans_nothing(current: AppView, next: AppView)
    requires
        unique_ids(current.tasks),
        same_task_lists(current.tasks, next.tasks),
    ensures
        ({
            let plan = reload_plan(current, next, false);
            plan.remove.len() == 0 && plan.update.len() == 0 && plan.add.len() == 0
        }),
{
    lemma_no_change(current.tasks, next.tasks, current.tasks.len() as int);
}

} // verus!

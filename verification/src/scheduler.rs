//! The daemon: which jobs it registers, how runs of one task make room for each other, and when it
//! reloads its configuration.

use vstd::prelude::*;

use crate::calendar::{zone_error, zone_fault, zone_known};
use crate::config::{
    same_notifications, same_opt_notifier, AppConfig, AppView, ConcurrencyConfig,
    ConcurrencyPolicy, PathKind, ScheduleConfig, ScheduleView, TaskConfig,
};
use crate::config_laws::{concurrency_valid, config_valid, task_valid};
use crate::failure::{plain, told, Failure, FailureView};
use crate::path_order::{
    holds, holds_path, missing_from, path_place, path_set, paths_not_in, same_lists, sorted_paths,
};
use crate::order::Place;
use crate::paths::{absolute, directory, directory_of, is_absolute, join, join_path, same};
use crate::reload::{build_reload_plan, enabled_of, enabled_tasks, reload_plan, ReloadPlan};
use crate::text::{opt_text, texts};
use crate::text_map::{same_env, text_pairs, EnvMap};

verus! {

// ---------------------------------------------------------------------------------------------
// Enabled tasks
// ---------------------------------------------------------------------------------------------
/// How many tasks are enabled.
pub fn enabled_task_count(config: &AppConfig) -> (r: usize)
    ensures
        r == enabled_of(config@).len(),
{
    let mut count: usize = 0;
    let mut i: usize = 0;
    while i < config.tasks.len()
        invariant
            count <= i <= config.tasks@.len(),
            count == enabled_tasks(config@.tasks, i as int).len(),
        decreases config.tasks@.len() - i,
    {
        assert(config@.tasks[i as int] == config.tasks@[i as int]@);
        if config.tasks[i].enabled {
            count = count + 1;
        }
        i = i + 1;
    }
    count
}

/// Fails where no task is enabled.
pub fn ensure_enabled_tasks(config: &AppConfig) -> (r: Result<(), Failure>)
    ensures
        told(r) == (if enabled_of(config@).len() == 0 {
            Some(plain("no enabled tasks configured"@))
        } else {
            None
        }),
{
    let count = enabled_task_count(config);
    if count == 0 {
        return Err(Failure::new("no enabled tasks configured".to_owned()));
    }
    Ok(())
}

// ---------------------------------------------------------------------------------------------
// Jobs
// ---------------------------------------------------------------------------------------------
/// What a task asks of the job scheduler.
pub enum JobView {
    Cron { expr: Seq<char>, timezone: Option<Seq<char>> },
    Every { seconds: u64 },
}

/// What a task asks of the job scheduler: a cron expression, in a time zone where it names one,
/// or a fixed interval.
#[derive(Debug)]
pub enum JobPlan {
    Cron { expr: String, timezone: Option<String> },
    Every { seconds: u64 },
}

impl View for JobPlan {
    type V = JobView;

    open spec fn view(&self) -> JobView {
        match self {
            JobPlan::Cron { expr, timezone } => JobView::Cron {
                expr: expr@,
                timezone: opt_text(*timezone),
            },
            JobPlan::Every { seconds } => JobView::Every { seconds: *seconds },
        }
    }
}

/// The job of a schedule.
pub open spec fn job_of(schedule: ScheduleView) -> JobView {
    match schedule {
        ScheduleView::Cron { expr, timezone } => JobView::Cron { expr, timezone },
        ScheduleView::Interval { seconds } => JobView::Every { seconds },
    }
}

/// The failure of a job in a time zone that nobody knows.
pub open spec fn job_failure(schedule: ScheduleView) -> Option<FailureView> {
    match schedule {
        ScheduleView::Cron { expr, timezone } => match timezone {
            Some(zone) => match zone_fault(zone) {
                Some(fault) => Some(plain(fault)),
                None => None,
            },
            None => None,
        },
        ScheduleView::Interval { seconds } => None,
    }
}

/// What a task asks of the job scheduler.
pub fn job_for_task(task: &TaskConfig) -> (r: Result<JobPlan, Failure>)
    ensures
        told(r) == job_failure(task@.schedule),
        r is Ok ==> r->Ok_0@ == job_of(task@.schedule),
        match (task.schedule, r) {
            (
                ScheduleConfig::Cron { expr, timezone },
                Ok(JobPlan::Cron { expr: asked, timezone: zone }),
            ) => asked@ == expr@ && (zone is Some <==> timezone is Some) && (timezone is Some
                ==> zone->0@ == timezone->0@),
            (ScheduleConfig::Interval { seconds }, Ok(JobPlan::Every { seconds: asked })) => asked
                == seconds,
            (ScheduleConfig::Cron { timezone, .. }, Err(_)) => timezone is Some && !zone_known(
                timezone->0@,
            ),
            _ => false,
        },
{
    match &task.schedule {
        ScheduleConfig::Cron { expr, timezone } => {
            if let Some(zone) = timezone {
                if let Some(fault) = zone_error(zone) {
                    return Err(Failure::new(fault));
                }
                return Ok(
                    JobPlan::Cron { expr: expr.clone(), timezone: Some(zone.clone()) },
                );
            }
            Ok(JobPlan::Cron { expr: expr.clone(), timezone: None })
        },
        ScheduleConfig::Interval { seconds } => Ok(JobPlan::Every { seconds: *seconds }),
    }
}

// ---------------------------------------------------------------------------------------------
// Overlapping runs
// ---------------------------------------------------------------------------------------------
/// The runs of one task that go on at the same time: never more than its limit.
#[derive(Debug)]
pub struct TaskSlots {
    limit: u8,
    running: u8,
}

impl TaskSlots {
    #[verifier::type_invariant]
    spec fn within_limit(self) -> bool {
        self.running <= self.limit
    }

    /// How many runs may go on at the same time.
    pub closed spec fn limit(&self) -> int {
        self.limit as int
    }

    /// How many runs go on.
    pub closed spec fn running(&self) -> int {
        self.running as int
    }

    /// The slots of a task that does not run.
    pub fn new(limit: u8) -> (r: TaskSlots)
        ensures
            r.limit() == limit,
            r.running() == 0,
    {
        TaskSlots { limit, running: 0 }
    }

    /// Whether a slot is free.
    pub fn has_free(&self) -> (r: bool)
        ensures
            r == (self.running() < self.limit()),
    {
        self.running < self.limit
    }

    /// Takes a slot for a run, where one is free.
    pub fn try_acquire(&mut self) -> (r: bool)
        ensures
            r == (old(self).running() < old(self).limit()),
            final(self).limit() == old(self).limit(),
            final(self).running() == old(self).running() + (if r {
                1int
            } else {
                0
            }),
            final(self).running() <= final(self).limit(),
    {
        proof {
            use_type_invariant(&*self);
        }
        if self.running < self.limit {
            *self = TaskSlots { limit: self.limit, running: self.running + 1 };
            true
        } else {
            false
        }
    }

    /// Gives the slot of a finished run back. Tells whether a slot was taken at all.
    pub fn release(&mut self) -> (r: bool)
        ensures
            r == (old(self).running() > 0),
            final(self).limit() == old(self).limit(),
            final(self).running() == old(self).running() - (if r {
                1int
            } else {
                0
            }),
    {
        proof {
            use_type_invariant(&*self);
        }
        if self.running == 0 {
            return false;
        }
        *self = TaskSlots { limit: self.limit, running: (self.running - 1) as u8 };
        true
    }
}

/// What happens when a task is due.
#[derive(Debug, Clone, Copy, PartialEq, Eq, Structural)]
pub enum DueAction {
    /// A slot was taken; run the task in it.
    Run,
    /// The limit is reached; leave this run out.
    Skip,
    /// Cancel the run that goes on, and run the task once it has ended.
    Replace,
}

/// What happens when a task is due while some of its slots are taken.
pub open spec fn due_action(c: ConcurrencyConfig, running: int, limit: int) -> DueAction {
    if c.policy == ConcurrencyPolicy::Replace {
        DueAction::Replace
    } else if running < limit {
        DueAction::Run
    } else {
        DueAction::Skip
    }
}

/// Decides what happens when a task is due, and takes a slot where it runs at once.
pub fn schedule_task(task: &TaskConfig, slots: &mut TaskSlots) -> (r: DueAction)
    ensures
        r == due_action(task@.concurrency, old(slots).running(), old(slots).limit()),
        task.concurrency.policy == ConcurrencyPolicy::Replace ==> r == DueAction::Replace,
        task.concurrency.policy != ConcurrencyPolicy::Replace && old(slots).running() < old(
            slots,
        ).limit() ==> r == DueAction::Run,
        task.concurrency.policy != ConcurrencyPolicy::Replace && old(slots).running() >= old(
            slots,
        ).limit() ==> r == DueAction::Skip,
        final(slots).limit() == old(slots).limit(),
        final(slots).running() == old(slots).running() + (if r == DueAction::Run {
            1int
        } else {
            0
        }),
{
    match task.concurrency.policy {
        ConcurrencyPolicy::Replace => DueAction::Replace,
        _ => {
            if slots.try_acquire() {
                DueAction::Run
            } else {
                DueAction::Skip
            }
        },
    }
}

/// The newest request to run a task whose runs replace each other, with the handle by which that
/// run is cancelled.
#[derive(Debug)]
#[verifier::reject_recursive_types(T)]
pub struct ReplaceState<T> {
    generation: u64,
    cancel: Option<T>,
}

/// A request was entered under a number, and the handle of the request before it was handed out.
pub open spec fn entered<T>(
    before: ReplaceState<T>,
    after: ReplaceState<T>,
    cancel: T,
    number: int,
    replaced: Option<T>,
) -> bool {
    &&& number == before.generation() + 1
    &&& replaced == before.cancel()
    &&& after.generation() == number
    &&& after.cancel() == Some(cancel)
}

/// The run of a request has ended.
pub open spec fn cleared<T>(before: ReplaceState<T>, after: ReplaceState<T>, number: int) -> bool {
    &&& after.generation() == before.generation()
    &&& after.cancel() == (if before.generation() == number {
        None
    } else {
        before.cancel()
    })
}

impl<T> ReplaceState<T> {
    /// The number of the newest request; requests count from one.
    pub closed spec fn generation(&self) -> int {
        self.generation as int
    }

    /// The handle of the newest request, until its run has ended.
    pub closed spec fn cancel(&self) -> Option<T> {
        self.cancel
    }

    /// The state before any request.
    pub fn new() -> (r: ReplaceState<T>)
        ensures
            r.generation() == 0,
            r.cancel() is None,
    {
        ReplaceState { generation: 0, cancel: None }
    }

    /// Enters a request with the handle by which it is cancelled. Returns its number, and the
    /// handle of the request before it, which is to be cancelled now.
    pub fn register(&mut self, cancel: T) -> (r: (u64, Option<T>))
        requires
            old(self).generation() != u64::MAX,
        ensures
            entered(*old(self), *final(self), cancel, r.0 as int, r.1),
    {
        let mut handle: Option<T> = Some(cancel);
        std::mem::swap(&mut handle, &mut self.cancel);
        self.generation = self.generation + 1;
        (self.generation, handle)
    }

    /// Whether no newer request was entered.
    pub fn is_current(&self, generation: u64) -> (r: bool)
        ensures
            r == (self.generation() == generation),
    {
        self.generation == generation
    }

    /// Drops the handle of a request whose run has ended, unless a newer one was entered.
    pub fn clear(&mut self, generation: u64)
        ensures
            cleared(*old(self), *final(self), generation as int),
    {
        if self.generation == generation {
            self.cancel = None;
        }
    }
}

/// What becomes of a request whose run replaces others when it asks for its turn.
#[derive(Debug, Clone, Copy, PartialEq, Eq, Structural)]
pub enum TurnAction {
    /// A slot was taken; run the task in it.
    Run,
    /// A newer request was entered; leave this run out.
    Stale,
    /// All slots are taken; ask again once one is free.
    Wait,
}

/// What becomes of a request that asks for its turn: it needs a free slot, and only the newest one
/// is run.
pub open spec fn turn_action(running: int, limit: int, newest: int, number: int) -> TurnAction {
    if running >= limit {
        TurnAction::Wait
    } else if number == newest {
        TurnAction::Run
    } else {
        TurnAction::Stale
    }
}

/// Decides what becomes of the request with that number when it asks for its turn, and takes a
/// slot where it is run.
pub fn take_turn<T>(slots: &mut TaskSlots, state: &ReplaceState<T>, number: u64) -> (r: TurnAction)
    ensures
        r == turn_action(
            old(slots).running(),
            old(slots).limit(),
            state.generation(),
            number as int,
        ),
        final(slots).limit() == old(slots).limit(),
        final(slots).running() == old(slots).running() + (if r == TurnAction::Run {
            1int
        } else {
            0
        }),
{
    if !slots.has_free() {
        return TurnAction::Wait;
    }
    if !state.is_current(number) {
        return TurnAction::Stale;
    }
    slots.try_acquire();
    TurnAction::Run
}

/// A newer request takes the place of an older one: the older one is no longer current and is never
/// run from then on, its handle is handed out so that its run is cancelled, and its end leaves the
/// handle of the newer one. The newer one is run as soon as a slot is free.
pub proof fn law_newer_request_replaces_older<T>(
    s0: ReplaceState<T>,
    s1: ReplaceState<T>,
    s2: ReplaceState<T>,
    s3: ReplaceState<T>,
    older: (int, T, Option<T>),
    newer: (int, T, Option<T>),
    running: int,
    limit: int,
)
    requires
        entered(s0, s1, older.1, older.0, older.2),
        entered(s1, s2, newer.1, newer.0, newer.2),
        cleared(s2, s3, older.0),
    ensures
        s2.generation() == newer.0,
        s2.generation() != older.0,
        newer.2 == Some(older.1),
        s3.generation() == newer.0,
        s3.cancel() == Some(newer.1),
        turn_action(running, limit, s2.generation(), older.0) != TurnAction::Run,
        turn_action(running, limit, s3.generation(), older.0) != TurnAction::Run,
        running < limit ==> turn_action(running, limit, s3.generation(), newer.0)
            == TurnAction::Run,
{
}

/// What happens to the runs of one task.
pub enum RunEvent {
    /// The task is due.
    Due,
    /// The request with that number asks for its turn.
    Turn(int),
    /// One of its runs has ended.
    Ended,
}

/// The runs of one task: how many go on, and the number of the newest request to replace them.
pub struct RunsView {
    pub running: int,
    pub newest: int,
}

/// The runs of a task after `n` events, from none.
pub open spec fn runs_after(c: ConcurrencyConfig, events: Seq<RunEvent>, n: int) -> RunsView
    decreases n,
{
    if n <= 0 {
        RunsView { running: 0, newest: 0 }
    } else {
        let runs = runs_after(c, events, n - 1);
        match events[n - 1] {
            RunEvent::Due => match due_action(c, runs.running, c.max_running as int) {
                DueAction::Run => RunsView { running: runs.running + 1, ..runs },
                DueAction::Skip => runs,
                DueAction::Replace => RunsView { newest: runs.newest + 1, ..runs },
            },
            RunEvent::Turn(number) => if turn_action(
                runs.running,
                c.max_running as int,
                runs.newest,
                number,
            ) == TurnAction::Run {
                RunsView { running: runs.running + 1, ..runs }
            } else {
                runs
            },
            RunEvent::Ended => if runs.running > 0 {
                RunsView { running: runs.running - 1, ..runs }
            } else {
                runs
            },
        }
    }
}

/// However a task falls due, its requests take their turns and its runs end, no more of its runs go
/// on at the same time than it allows; where the setting is valid, that is three at most, and one
/// unless the policy allows overlap.
pub proof fn law_runs_stay_within_limit(c: ConcurrencyConfig, events: Seq<RunEvent>, n: int)
    requires
        0 <= n <= events.len(),
    ensures
        0 <= runs_after(c, events, n).running <= c.max_running,
        concurrency_valid(c) ==> runs_after(c, events, n).running <= 3,
        concurrency_valid(c) && c.policy != ConcurrencyPolicy::Allow ==> runs_after(
            c,
            events,
            n,
        ).running <= 1,
    decreases n,
{
    if n > 0 {
        law_runs_stay_within_limit(c, events, n - 1);
    }
}

/// Where the runs of a task replace each other and none goes on, the request that falls due runs
/// when it asks for its turn.
pub proof fn law_due_request_gets_its_turn(c: ConcurrencyConfig, events: Seq<RunEvent>)
    requires
        concurrency_valid(c),
        c.policy == ConcurrencyPolicy::Replace,
        runs_after(c, events, events.len() as int).running == 0,
    ensures
        ({
            let number = runs_after(c, events, events.len() as int).newest + 1;
            let more = events + seq![RunEvent::Due, RunEvent::Turn(number)];
            runs_after(c, more, more.len() as int) == (RunsView { running: 1, newest: number })
        }),
{
    let number = runs_after(c, events, events.len() as int).newest + 1;
    let more = events + seq![RunEvent::Due, RunEvent::Turn(number)];
    lemma_earlier_events(c, events, more, events.len() as int);
    let n = events.len() as int;
    assert(more[n] == RunEvent::Due);
    assert(more[n + 1] == RunEvent::Turn(number));
    assert(runs_after(c, more, n + 1) == (RunsView { running: 0, newest: number }));
}

proof fn lemma_earlier_events(c: ConcurrencyConfig, a: Seq<RunEvent>, b: Seq<RunEvent>, n: int)
    requires
        0 <= n <= a.len() <= b.len(),
        forall|i: int| 0 <= i < n ==> #[trigger] a[i] == b[i],
    ensures
        runs_after(c, a, n) == runs_after(c, b, n),
    decreases n,
{
    if n > 0 {
        lemma_earlier_events(c, a, b, n - 1);
        assert(a[n - 1] == b[n - 1]);
    }
}

/// A task that forbids overlap is left out while a run of it goes on.
pub proof fn law_forbidden_overlap_is_skipped(c: ConcurrencyConfig, running: int)
    requires
        concurrency_valid(c),
        c.policy == ConcurrencyPolicy::Forbid,
        running > 0,
    ensures
        due_action(c, running, c.max_running as int) == DueAction::Skip,
{
}

/// Every task of a valid configuration can be registered.
pub proof fn law_valid_tasks_have_jobs(c: AppView, survey: Map<Seq<char>, PathKind>, i: int)
    requires
        config_valid(c, survey),
        0 <= i < c.tasks.len(),
    ensures
        job_failure(c.tasks[i].schedule) is None,
{
    assert(task_valid(c.tasks[i], c.notifications, survey));
}

// ---------------------------------------------------------------------------------------------
// Watched files
// ---------------------------------------------------------------------------------------------
/// A path to watch, seen from the working directory.
pub open spec fn watch_path(path: Seq<char>, current_dir: Seq<char>) -> Seq<char> {
    if absolute(path) {
        path
    } else {
        join(current_dir, path)
    }
}

/// A path to watch, seen from the working directory.
pub fn normalize_watch_path(path: &str, current_dir: &str) -> (r: String)
    ensures
        r@ == watch_path(path@, current_dir@),
{
    if is_absolute(path) {
        path.to_owned()
    } else {
        join_path(current_dir, path)
    }
}

/// The files that a configuration is made from.
pub open spec fn input_files(
    config_path: Seq<char>,
    env_files: Seq<Seq<char>>,
) -> Seq<Seq<char>> {
    seq![config_path] + env_files
}

/// The files that a configuration is made from, in ascending order, each once.
pub fn watched_paths(config_path: &str, env_files: &Vec<String>) -> (r: Vec<String>)
    ensures
        path_set(input_files(config_path@, texts(env_files@)), texts(r@)),
{
    let mut paths: Vec<String> = Vec::new();
    paths.push(config_path.to_owned());
    let mut i: usize = 0;
    while i < env_files.len()
        invariant
            i <= env_files@.len(),
            paths@.len() == i + 1,
            paths@[0]@ == config_path@,
            forall|j: int| 1 <= j < i + 1 ==> (#[trigger] paths@[j])@ == env_files@[j - 1]@,
        decreases env_files@.len() - i,
    {
        paths.push(env_files[i].clone());
        i = i + 1;
    }
    assert(texts(paths@) =~= input_files(config_path@, texts(env_files@)));
    sorted_paths(&paths)
}

/// Whether an event on some paths concerns a watched file.
pub open spec fn targets(paths: Seq<Seq<char>>, watched: Seq<Seq<char>>) -> bool {
    exists|i: int| 0 <= i < paths.len() && holds(watched, #[trigger] paths[i])
}

/// Whether an event on some paths concerns a watched file.
pub fn event_targets_config_path(paths: &Vec<String>, watched_paths: &Vec<String>) -> (r: bool)
    ensures
        r == targets(texts(paths@), texts(watched_paths@)),
{
    let mut i: usize = 0;
    while i < paths.len()
        invariant
            i <= paths@.len(),
            forall|j: int|
                0 <= j < i ==> !holds(texts(watched_paths@), #[trigger] texts(paths@)[j]),
        decreases paths@.len() - i,
    {
        if holds_path(watched_paths, &paths[i]) {
            assert(holds(texts(watched_paths@), texts(paths@)[i as int]));
            return true;
        }
        i = i + 1;
    }
    false
}

/// The directories of a list of files.
pub open spec fn directories(paths: Seq<Seq<char>>) -> Seq<Seq<char>> {
    Seq::new(paths.len(), |i: int| directory_of(paths[i]))
}

/// The directories of a list of files, in ascending order, each once.
pub fn watched_directories(paths: &Vec<String>) -> (r: Vec<String>)
    ensures
        path_set(directories(texts(paths@)), texts(r@)),
{
    let mut dirs: Vec<String> = Vec::new();
    let mut i: usize = 0;
    while i < paths.len()
        invariant
            i <= paths@.len(),
            dirs@.len() == i,
            forall|j: int| 0 <= j < i ==> (#[trigger] dirs@[j])@ == directory_of(paths@[j]@),
        decreases paths@.len() - i,
    {
        dirs.push(directory(&paths[i]));
        i = i + 1;
    }
    assert(texts(dirs@) =~= directories(texts(paths@)));
    sorted_paths(&dirs)
}

/// The directories that are no longer watched and those that are watched from now on.
#[derive(Debug)]
pub struct WatchChange {
    pub unwatch: Vec<String>,
    pub watch: Vec<String>,
    pub directories: Vec<String>,
}

/// Which directories to watch for some files, where others have been watched so far.
pub fn sync_watcher_paths(current_dirs: &Vec<String>, next_paths: &Vec<String>) -> (r: WatchChange)
    ensures
        path_set(directories(texts(next_paths@)), texts(r.directories@)),
        texts(r.unwatch@) == missing_from(texts(current_dirs@), texts(r.directories@)),
        texts(r.watch@) == missing_from(texts(r.directories@), texts(current_dirs@)),
{
    let directories = watched_directories(next_paths);
    let unwatch = paths_not_in(current_dirs, &directories);
    let watch = paths_not_in(&directories, current_dirs);
    WatchChange { unwatch, watch, directories }
}

// ---------------------------------------------------------------------------------------------
// Stamps
// ---------------------------------------------------------------------------------------------
/// When a file was last modified, and how long it is.
#[derive(Debug, Clone, Copy, PartialEq, Eq, Structural)]
pub struct ConfigFileStamp {
    pub modified_secs: i64,
    pub modified_nanos: u32,
    pub len: u64,
}

/// The stamps of the files that a configuration is made from; a missing file has none.
#[derive(Debug)]
pub struct ConfigInputsStamp {
    pub paths: Vec<String>,
    pub stamps: Vec<Option<ConfigFileStamp>>,
}

/// Two stamps of the same files in the same state.
pub open spec fn same_stamp(a: ConfigInputsStamp, b: ConfigInputsStamp) -> bool {
    same_lists(texts(a.paths@), texts(b.paths@)) && a.stamps@ == b.stamps@
}

/// Whether the paths of two lists are the same, one by one.
pub fn same_path_lists(a: &Vec<String>, b: &Vec<String>) -> (r: bool)
    ensures
        r == same_lists(texts(a@), texts(b@)),
{
    if a.len() != b.len() {
        return false;
    }
    let mut i: usize = 0;
    while i < a.len()
        invariant
            i <= a@.len(),
            a@.len() == b@.len(),
            forall|j: int| 0 <= j < i ==> same(#[trigger] texts(a@)[j], texts(b@)[j]),
        decreases a@.len() - i,
    {
        if path_place(&a[i], &b[i]) != Place::Same {
            assert(!same(texts(a@)[i as int], texts(b@)[i as int]));
            return false;
        }
        i = i + 1;
    }
    true
}

fn same_stamps(a: &Vec<Option<ConfigFileStamp>>, b: &Vec<Option<ConfigFileStamp>>) -> (r: bool)
    ensures
        r == (a@ == b@),
{
    if a.len() != b.len() {
        return false;
    }
    let mut i: usize = 0;
    while i < a.len()
        invariant
            i <= a@.len(),
            a@.len() == b@.len(),
            forall|j: int| 0 <= j < i ==> a@[j] == b@[j],
        decreases a@.len() - i,
    {
        let same = match (a[i], b[i]) {
            (Some(x), Some(y)) => x == y,
            (None, None) => true,
            _ => false,
        };
        if !same {
            assert(a@[i as int] != b@[i as int]);
            return false;
        }
        i = i + 1;
    }
    assert(a@ =~= b@);
    true
}

impl ConfigInputsStamp {
    /// Whether the other stamp is of the same files in the same state.
    pub fn same_as(&self, other: &ConfigInputsStamp) -> (r: bool)
        ensures
            r == same_stamp(*self, *other),
    {
        same_path_lists(&self.paths, &other.paths) && same_stamps(&self.stamps, &other.stamps)
    }
}

// ---------------------------------------------------------------------------------------------
// The daemon
// ---------------------------------------------------------------------------------------------
/// A configuration with the environment that it loads from files.
#[derive(Debug)]
pub struct LoadedConfig {
    pub app: AppConfig,
    pub env_files: Vec<String>,
    pub env: EnvMap,
    pub resolved_env_files: Vec<String>,
}

/// Whether every job has to be renewed: what all tasks share has changed.
pub open spec fn must_renew_all(current: LoadedConfig, next: LoadedConfig) -> bool {
    ||| !same_opt_notifier(current.app@.notifications, next.app@.notifications)
    ||| !same_lists(texts(current.env_files@), texts(next.env_files@))
    ||| text_pairs(current.env) != text_pairs(next.env)
}

/// Whether every job has to be renewed: what all tasks share has changed.
pub fn force_reload_all(current: &LoadedConfig, next: &LoadedConfig) -> (r: bool)
    ensures
        r == must_renew_all(*current, *next),
{
    !same_notifications(&current.app.notifications, &next.app.notifications) || !same_path_lists(
        &current.env_files,
        &next.env_files,
    ) || !same_env(&current.env, &next.env)
}

/// The seconds between two looks at the configuration files when no event reports a change.
pub const POLL_SECONDS: u64 = 300;

/// The milliseconds that the daemon waits for further events before it reloads.
pub const SETTLE_MILLIS: u64 = 300;

/// What the daemon waits for.
#[derive(Debug)]
pub enum DaemonEvent {
    /// It was asked to shut down.
    Shutdown,
    /// The watcher reports a change of some paths.
    Changed(Vec<String>),
    /// The watcher reports nothing any more.
    WatcherClosed,
    /// It is time to look at the configuration files.
    Poll,
}

/// What the daemon does next.
#[derive(Debug, Clone, Copy, PartialEq, Eq, Structural)]
pub enum DaemonAction {
    Stop,
    Wait,
    /// Wait for further events, leave them out, then reload.
    SettleAndReload,
    Reload,
}

/// The daemon between two events.
#[derive(Debug)]
pub struct Daemon {
    pub config_path: String,
    pub config: LoadedConfig,
    pub last_seen: ConfigInputsStamp,
    pub watched: Vec<String>,
    pub watcher_active: bool,
}

/// What the daemon does on an event.
pub open spec fn on_event(daemon: Daemon, event: DaemonEvent) -> DaemonAction {
    match event {
        DaemonEvent::Shutdown => DaemonAction::Stop,
        DaemonEvent::WatcherClosed => DaemonAction::Wait,
        DaemonEvent::Changed(paths) => if targets(texts(paths@), texts(daemon.watched@)) {
            DaemonAction::SettleAndReload
        } else {
            DaemonAction::Wait
        },
        DaemonEvent::Poll => DaemonAction::Reload,
    }
}

/// How a reload is carried out: the jobs that go and come, and the directories to watch.
#[derive(Debug)]
pub struct Reload {
    pub plan: ReloadPlan,
    pub watched: Vec<String>,
    pub watch: WatchChange,
}

impl Daemon {
    /// The daemon at its start.
    pub fn start(
        config_path: String,
        config: LoadedConfig,
        last_seen: ConfigInputsStamp,
        watcher_active: bool,
    ) -> (r: Daemon)
        ensures
            r.config_path == config_path,
            r.config == config,
            r.last_seen == last_seen,
            r.watcher_active == watcher_active,
            path_set(
                input_files(config_path@, texts(config.resolved_env_files@)),
                texts(r.watched@),
            ),
    {
        let watched = watched_paths(&config_path, &config.resolved_env_files);
        Daemon { config_path, config, last_seen, watched, watcher_active }
    }

    /// Decides what the daemon does on an event. Only the end of the watcher changes its state.
    pub fn handle(&mut self, event: &DaemonEvent) -> (r: DaemonAction)
        ensures
            r == on_event(*old(self), *event),
            *final(self) == (Daemon {
                watcher_active: old(self).watcher_active && !(event is WatcherClosed),
                ..*old(self)
            }),
    {
        match event {
            DaemonEvent::Shutdown => DaemonAction::Stop,
            DaemonEvent::WatcherClosed => {
                self.watcher_active = false;
                DaemonAction::Wait
            },
            DaemonEvent::Changed(paths) => {
                if event_targets_config_path(paths, &self.watched) {
                    DaemonAction::SettleAndReload
                } else {
                    DaemonAction::Wait
                }
            },
            DaemonEvent::Poll => DaemonAction::Reload,
        }
    }

    /// Whether the configuration files have changed since they were last looked at.
    pub fn needs_reload(&self, stamp: &ConfigInputsStamp) -> (r: bool)
        ensures
            r == !same_stamp(*stamp, self.last_seen),
    {
        !stamp.same_as(&self.last_seen)
    }

    /// How to go over to another configuration.
    pub fn prepare_reload(&self, next: &LoadedConfig) -> (r: Reload)
        ensures
            r.plan@ == reload_plan(
                self.config.app@,
                next.app@,
                must_renew_all(self.config, *next),
            ),
            path_set(
                input_files(self.config_path@, texts(next.resolved_env_files@)),
                texts(r.watched@),
            ),
            path_set(directories(texts(r.watched@)), texts(r.watch.directories@)),
            exists|old_dirs: Seq<Seq<char>>|
                path_set(directories(texts(self.watched@)), old_dirs) && texts(r.watch.unwatch@)
                    == missing_from(old_dirs, texts(r.watch.directories@)) && texts(r.watch.watch@)
                    == #[trigger] missing_from(texts(r.watch.directories@), old_dirs),
    {
        let force = force_reload_all(&self.config, next);
        let plan = build_reload_plan(&self.config.app, &next.app, force);
        let watched = watched_paths(&self.config_path, &next.resolved_env_files);
        let current_dirs = watched_directories(&self.watched);
        let watch = sync_watcher_paths(&current_dirs, &watched);
        assert(texts(watch.watch@) == missing_from(
            texts(watch.directories@),
            texts(current_dirs@),
        ));
        Reload { plan, watched, watch }
    }

    /// Goes over to a configuration whose jobs have been registered.
    pub fn finish_reload(
        &mut self,
        next: LoadedConfig,
        watched: Vec<String>,
        stamp: ConfigInputsStamp,
    )
        ensures
            *final(self) == (Daemon { config: next, watched, last_seen: stamp, ..*old(self) }),
    {
        self.config = next;
        self.watched = watched;
        self.last_seen = stamp;
    }

    /// Notes that the configuration files were looked at and not accepted. The configuration in
    /// force stays.
    pub fn reject_reload(&mut self, stamp: ConfigInputsStamp)
        ensures
            *final(self) == (Daemon { last_seen: stamp, ..*old(self) }),
    {
        self.last_seen = stamp;
    }
}

/// Configuration files that were looked at and not accepted leave the configuration in force, and
/// are not loaded again as long as they stay as they are.
pub proof fn law_rejected_files_are_not_tried_again(
    before: Daemon,
    after: Daemon,
    stamp: ConfigInputsStamp,
    later: ConfigInputsStamp,
)
    requires
        after == (Daemon { last_seen: stamp, ..before }),
        later.paths@ == stamp.paths@,
        later.stamps@ == stamp.stamps@,
    ensures
        after.config == before.config,
        after.watched == before.watched,
        same_stamp(later, after.last_seen),
{
}

} // verus!

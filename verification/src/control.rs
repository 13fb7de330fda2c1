//! What the commands of `taskctl` do, step by step: what is loaded, what is changed, what is
//! written and what is said. Reading, writing and running is left to the program around.

use vstd::prelude::*;

use crate::artifact_run::exited_well;
use crate::cli::{policy_of, Command, ReportCommand};
use crate::config::{
    config_failure, find_task, load_failure, position_of, write_failure, AppConfig, AppView,
    CommandConfig, CommandView, ConcurrencyConfig, ConcurrencyPolicy, ConfigRead, FileWrite,
    PathKind, PathSurvey, RetryConfig, ScheduleConfig, ScheduleView, TaskConfig, TaskView,
};
use crate::config_laws::{
    added, config_valid, law_removing_keeps_validity, law_switching_keeps_validity,
    law_validation_is_exact, removed, switched,
};
use crate::failure::{caused, full_text, plain, told, Failure, FailureView};
use crate::runtime_paths::{last_good_config_path_for_config, runtime_path};
use crate::task_runner::{outcome_exit_code, ProcessExit, TaskOutcome};
use crate::text::{
    concat, concat3, concat5, copy_opt, copy_texts, opt_text, texts, trim_text, trimmed,
};
use crate::text_map::{
    ascending, env_of, law_entries_determined, lemma_text_pairs, map_of, set_var, text_pairs,
    EnvMap, TextMap,
};

verus! {

// ---------------------------------------------------------------------------------------------
// Checked configurations
// ---------------------------------------------------------------------------------------------
/// A configuration that was checked and accepted, with what was known of the file system then.
#[derive(Debug)]
pub struct ValidConfig {
    config: AppConfig,
    survey: PathSurvey,
}

impl ValidConfig {
    #[verifier::type_invariant]
    spec fn accepted(self) -> bool {
        config_failure(self.config@, self.survey@) is None
    }

    /// The configuration.
    pub closed spec fn config(&self) -> AppView {
        self.config@
    }

    /// What was known of the file system when it was checked.
    pub closed spec fn survey(&self) -> Map<Seq<char>, PathKind> {
        self.survey@
    }

    /// Checks a configuration.
    pub fn check(config: AppConfig, survey: PathSurvey) -> (r: Result<ValidConfig, Failure>)
        ensures
            told(r) == config_failure(config@, survey@),
            r is Ok ==> r->Ok_0.config() == config@ && r->Ok_0.survey() == survey@,
    {
        match config.validate(&survey) {
            Ok(_) => Ok(ValidConfig { config, survey }),
            Err(f) => Err(f),
        }
    }

    /// The configuration, which meets every rule.
    pub fn get(&self) -> (r: &AppConfig)
        ensures
            r@ == self.config(),
            config_failure(self.config(), self.survey()) is None,
            config_valid(self.config(), self.survey()),
    {
        proof {
            use_type_invariant(self);
            law_validation_is_exact(self.config@, self.survey@);
        }
        &self.config
    }

    /// Gives the configuration away.
    pub fn into_config(self) -> (r: AppConfig)
        ensures
            r@ == self.config(),
    {
        self.config
    }
}

// ---------------------------------------------------------------------------------------------
// The daemon's configuration
// ---------------------------------------------------------------------------------------------
/// Reports what came of keeping a configuration as the last good one.
pub fn persist_last_good_config(
    config_path: &str,
    config: &ValidConfig,
    write: &FileWrite,
) -> (r: Result<(), Failure>)
    ensures
        told(r) == persist_failure(config_path@, *write),
{
    let snapshot = last_good_config_path_for_config(config_path);
    match config.get().write(&snapshot, write) {
        Ok(_) => Ok(()),
        Err(f) => Err(
            Failure::caused_by(
                concat3("failed to persist last-known-good config '", &snapshot, "'"),
                &f.full_text(),
            ),
        ),
    }
}

/// The failure of keeping a configuration as the last good one.
pub open spec fn persist_failure(config_path: Seq<char>, write: FileWrite) -> Option<FailureView> {
    let snapshot = runtime_path(config_path, "last-good.yaml"@);
    match write_failure(
        "failed to create config directory"@,
        "failed to serialize config"@,
        "failed to write config"@,
        snapshot,
        write,
    ) {
        Some(f) => Some(
            caused(
                "failed to persist last-known-good config '"@ + snapshot + "'"@,
                full_text(f),
            ),
        ),
        None => None,
    }
}

/// The failure of a daemon that finds neither a valid configuration nor a valid last good one.
pub open spec fn no_config_failure(config_path: Seq<char>, fallback: FailureView) -> FailureView {
    caused(
        "primary config '"@ + config_path
            + "' is invalid and no valid last-known-good config was found at '"@ + runtime_path(
            config_path,
            "last-good.yaml"@,
        ) + "'"@,
        full_text(fallback),
    )
}

/// The failure of loading and checking a configuration.
pub open spec fn load_and_check_failure(
    path: Seq<char>,
    read: ConfigRead,
    survey: Map<Seq<char>, PathKind>,
) -> Option<FailureView> {
    match load_failure(path, read) {
        Some(f) => Some(f),
        None => config_failure(read->Parsed_0@, survey),
    }
}

/// Takes over a configuration that was read from a file, if it meets every rule.
pub fn load_and_validate_config(path: &str, read: ConfigRead, survey: PathSurvey) -> (r: Result<
    ValidConfig,
    Failure,
>)
    ensures
        told(r) == load_and_check_failure(path@, read, survey@),
        r is Ok ==> read is Parsed && r->Ok_0.config() == read->Parsed_0@ && r->Ok_0.survey()
            == survey@,
{
    match AppConfig::load(path, read) {
        Ok(config) => ValidConfig::check(config, survey),
        Err(f) => Err(f),
    }
}

/// Where the daemon takes its configuration from.
#[derive(Debug)]
pub enum DaemonConfig {
    /// The configuration itself, which is to be kept as the last good one.
    Primary(ValidConfig),
    /// The last good one, in the file named, since the configuration was not accepted.
    LastGood(String),
}

/// Decides on the configuration of the daemon: the primary one where it was accepted, otherwise
/// the last good one.
pub fn load_valid_daemon_config(
    config_path: &str,
    primary: Result<ValidConfig, Failure>,
) -> (r: DaemonConfig)
    ensures
        match primary {
            Ok(config) => r == DaemonConfig::Primary(config),
            Err(_) => r matches DaemonConfig::LastGood(path) && path@ == runtime_path(
                config_path@,
                "last-good.yaml"@,
            ),
        },
{
    match primary {
        Ok(config) => DaemonConfig::Primary(config),
        Err(_) => DaemonConfig::LastGood(last_good_config_path_for_config(config_path)),
    }
}

/// Takes over the last good configuration after the primary one was not accepted.
pub fn settle_last_good_config(
    config_path: &str,
    last_good: Result<ValidConfig, Failure>,
) -> (r: Result<ValidConfig, Failure>)
    ensures
        match last_good {
            Ok(config) => r == Ok::<ValidConfig, Failure>(config),
            Err(f) => told(r) == Some(no_config_failure(config_path@, f@)),
        },
{
    match last_good {
        Ok(config) => Ok(config),
        Err(f) => {
            let message = concat5(
                "primary config '",
                config_path,
                "' is invalid and no valid last-known-good config was found at '",
                &last_good_config_path_for_config(config_path),
                "'",
            );
            Err(Failure::caused_by(message, &f.full_text()))
        },
    }
}

// ---------------------------------------------------------------------------------------------
// First steps
// ---------------------------------------------------------------------------------------------
/// Which runs a command asks for.
#[derive(Debug)]
pub enum HistoryAsk {
    OfTask { id: String, limit: usize },
    Failures { limit: usize },
}

/// What a command needs first.
#[derive(Debug)]
pub enum Opening {
    /// The configuration, which has to exist.
    Load,
    /// The configuration, or an empty one.
    LoadOrDefault,
    /// Runs on record.
    History(HistoryAsk),
    /// The log of the daemon, to be shown or captured.
    Logs { lines: usize, follow: bool, capture: bool },
    /// The daily report on a day, to be written to a file where one is named.
    DailyReport { date: String, timezone: String, output: Option<String> },
}

/// What a command needs first.
pub open spec fn opens(command: Command, json: bool, r: Result<Opening, Failure>) -> bool {
    match command {
        Command::AddCron { .. } => r matches Ok(o) && o is LoadOrDefault,
        Command::AddInterval { .. } => r matches Ok(o) && o is LoadOrDefault,
        Command::History { id, limit } => r matches Ok(o) && (o matches Opening::History(ask)
            && ask is OfTask && ask->id@ == id@ && ask->OfTask_limit == limit),
        Command::RecentFailures { limit } => r matches Ok(o) && (o matches Opening::History(ask)
            && ask is Failures && ask->Failures_limit == limit),
        Command::Logs { lines, follow } => if json && follow {
            told(r) == Some(plain("taskctl logs --json does not support --follow"@))
        } else {
            r == Ok::<Opening, Failure>(Opening::Logs { lines, follow, capture: json })
        },
        Command::Report { command: ReportCommand::Daily { date, timezone, output } } => r matches Ok(
            o,
        ) && o is DailyReport && o->date@ == date@ && o->timezone@ == timezone@ && opt_text(
            o->output,
        ) == opt_text(output),
        _ => r matches Ok(o) && o is Load,
    }
}

/// What a command needs first.
pub fn open_command(command: &Command, json: bool) -> (r: Result<Opening, Failure>)
    ensures
        opens(*command, json, r),
{
    match command {
        Command::AddCron { .. } => Ok(Opening::LoadOrDefault),
        Command::AddInterval { .. } => Ok(Opening::LoadOrDefault),
        Command::History { id, limit } => Ok(
            Opening::History(HistoryAsk::OfTask { id: id.clone(), limit: *limit }),
        ),
        Command::RecentFailures { limit } => Ok(
            Opening::History(HistoryAsk::Failures { limit: *limit }),
        ),
        Command::Logs { lines, follow } => {
            if json && *follow {
                return Err(
                    Failure::new("taskctl logs --json does not support --follow".to_owned()),
                );
            }
            Ok(Opening::Logs { lines: *lines, follow: *follow, capture: json })
        },
        Command::Report { command } => match command {
            ReportCommand::Daily { date, timezone, output } => Ok(
                Opening::DailyReport {
                    date: date.clone(),
                    timezone: timezone.clone(),
                    output: copy_opt(output),
                },
            ),
        },
        Command::List => Ok(Opening::Load),
        Command::Show { id } => Ok(Opening::Load),
        Command::Validate => Ok(Opening::Load),
        Command::Remove { id } => Ok(Opening::Load),
        Command::Enable { id } => Ok(Opening::Load),
        Command::Disable { id } => Ok(Opening::Load),
        Command::RunNow { id } => Ok(Opening::Load),
    }
}

// ---------------------------------------------------------------------------------------------
// Edits
// ---------------------------------------------------------------------------------------------
/// The variables that the first `n` arguments of a command line set; a later one counts.
pub open spec fn env_from(list: Seq<(String, String)>, n: int) -> Map<Seq<char>, Seq<char>>
    decreases n,
{
    if n <= 0 {
        Map::empty()
    } else {
        env_from(list, n - 1).insert(list[n - 1].0@, list[n - 1].1@)
    }
}

/// Whether a task is the one that a command adds.
pub open spec fn adds_task(command: Command, t: TaskView) -> bool {
    match command {
        Command::AddCron {
            id,
            name,
            expr,
            program,
            timezone,
            enabled,
            max_running,
            concurrency_policy,
            workdir,
            timeout_seconds,
            retry_max_attempts,
            retry_delay_seconds,
            env,
            args,
        } => {
            &&& t.id == id@
            &&& t.name == name@
            &&& t.enabled == enabled
            &&& t.concurrency == ConcurrencyConfig {
                policy: policy_of(concurrency_policy),
                max_running,
            }
            &&& t.retry == RetryConfig {
                max_attempts: retry_max_attempts,
                delay_seconds: retry_delay_seconds,
            }
            &&& t.schedule == ScheduleView::Cron { expr: expr@, timezone: opt_text(timezone) }
            &&& t.notify is None
            &&& runs_command(t.command, program@, texts(args@), opt_text(workdir), timeout_seconds)
            &&& ascending(t.command.env)
            &&& map_of(t.command.env) == env_from(env@, env@.len() as int)
        },
        Command::AddInterval {
            id,
            name,
            seconds,
            program,
            enabled,
            max_running,
            concurrency_policy,
            workdir,
            timeout_seconds,
            retry_max_attempts,
            retry_delay_seconds,
            env,
            args,
        } => {
            &&& t.id == id@
            &&& t.name == name@
            &&& t.enabled == enabled
            &&& t.concurrency == ConcurrencyConfig {
                policy: policy_of(concurrency_policy),
                max_running,
            }
            &&& t.retry == RetryConfig {
                max_attempts: retry_max_attempts,
                delay_seconds: retry_delay_seconds,
            }
            &&& t.schedule == ScheduleView::Interval { seconds }
            &&& t.notify is None
            &&& runs_command(t.command, program@, texts(args@), opt_text(workdir), timeout_seconds)
            &&& ascending(t.command.env)
            &&& map_of(t.command.env) == env_from(env@, env@.len() as int)
        },
        _ => false,
    }
}

/// Whether a command runs that program with these arguments.
pub open spec fn runs_command(
    c: CommandView,
    program: Seq<char>,
    args: Seq<Seq<char>>,
    workdir: Option<Seq<char>>,
    timeout_seconds: Option<u64>,
) -> bool {
    c.program == program && c.args == args && c.workdir == workdir && c.timeout_seconds
        == timeout_seconds
}

/// What adding a task gives.
pub open spec fn add_result(c: AppView, t: TaskView) -> Result<AppView, FailureView> {
    match position_of(c, t.id) {
        Some(_) => Err(plain("task '"@ + t.id + "' already exists"@)),
        None => Ok(added(c, t)),
    }
}

/// What removing a task gives.
pub open spec fn remove_result(c: AppView, id: Seq<char>) -> Result<AppView, FailureView> {
    match position_of(c, id) {
        Some(i) => Ok(removed(c, i)),
        None => Err(plain("task '"@ + id + "' not found"@)),
    }
}

/// What enabling or disabling a task gives.
pub open spec fn switch_result(c: AppView, id: Seq<char>, enabled: bool) -> Result<
    AppView,
    FailureView,
> {
    match position_of(c, id) {
        Some(i) => Ok(switched(c, i, enabled)),
        None => Err(plain("task '"@ + id + "' not found"@)),
    }
}

/// What a command makes of a configuration.
pub open spec fn edits(command: Command, c: AppView, r: Result<AppView, FailureView>) -> bool {
    match command {
        Command::AddCron { .. } => exists|t: TaskView|
            #[trigger] adds_task(command, t) && r == add_result(c, t),
        Command::AddInterval { .. } => exists|t: TaskView|
            #[trigger] adds_task(command, t) && r == add_result(c, t),
        Command::Remove { id } => r == remove_result(c, id@),
        Command::Enable { id } => r == switch_result(c, id@, true),
        Command::Disable { id } => r == switch_result(c, id@, false),
        _ => r == Ok::<AppView, FailureView>(c),
    }
}

/// A configuration or a failure in views.
pub open spec fn config_result(r: Result<AppConfig, Failure>) -> Result<AppView, FailureView> {
    match r {
        Ok(c) => Ok(c@),
        Err(f) => Err(f@),
    }
}

fn collect_env(list: &Vec<(String, String)>) -> (r: EnvMap)
    ensures
        ascending(text_pairs(r)),
        map_of(text_pairs(r)) == env_from(list@, list@.len() as int),
{
    let mut env: EnvMap = TextMap::new();
    proof {
        lemma_text_pairs(env);
        assert(env_of(env@) =~= Map::<Seq<char>, Seq<char>>::empty());
    }
    let mut i: usize = 0;
    while i < list.len()
        invariant
            i <= list@.len(),
            ascending(env.pairs()),
            map_of(text_pairs(env)) == env_from(list@, i as int),
        decreases list@.len() - i,
    {
        set_var(&mut env, &list[i].0, &list[i].1);
        i = i + 1;
    }
    proof {
        lemma_text_pairs(env);
    }
    env
}

fn edited_by_add(app: AppConfig, task: TaskConfig) -> (r: Result<AppConfig, Failure>)
    ensures
        config_result(r) == add_result(app@, task@),
{
    let mut next = app;
    match next.add_task(task) {
        Ok(_) => Ok(next),
        Err(f) => Err(f),
    }
}

fn edited_by_switch(app: AppConfig, id: &str, enabled: bool) -> (r: Result<AppConfig, Failure>)
    ensures
        config_result(r) == switch_result(app@, id@, enabled),
{
    let mut next = app;
    match next.set_enabled(id, enabled) {
        Ok(_) => Ok(next),
        Err(f) => Err(f),
    }
}

fn task_to_add(command: &Command) -> (r: Option<TaskConfig>)
    ensures
        match *command {
            Command::AddCron { .. } => r is Some && adds_task(*command, r->0@),
            Command::AddInterval { .. } => r is Some && adds_task(*command, r->0@),
            _ => r is None,
        },
{
    match command {
        Command::AddCron {
            id,
            name,
            expr,
            program,
            timezone,
            enabled,
            max_running,
            concurrency_policy,
            workdir,
            timeout_seconds,
            retry_max_attempts,
            retry_delay_seconds,
            env,
            args,
        } => {
            let policy = ConcurrencyPolicy::from(*concurrency_policy);
            Some(
                TaskConfig {
                    id: id.clone(),
                    name: name.clone(),
                    enabled: *enabled,
                    concurrency: ConcurrencyConfig { policy, max_running: *max_running },
                    retry: RetryConfig {
                        max_attempts: *retry_max_attempts,
                        delay_seconds: *retry_delay_seconds,
                    },
                    schedule: ScheduleConfig::Cron {
                        expr: expr.clone(),
                        timezone: copy_opt(timezone),
                    },
                    notify: None,
                    command: CommandConfig {
                        program: program.clone(),
                        args: copy_texts(args),
                        workdir: copy_opt(workdir),
                        timeout_seconds: *timeout_seconds,
                        env: collect_env(env),
                    },
                },
            )
        },
        Command::AddInterval {
            id,
            name,
            seconds,
            program,
            enabled,
            max_running,
            concurrency_policy,
            workdir,
            timeout_seconds,
            retry_max_attempts,
            retry_delay_seconds,
            env,
            args,
        } => {
            let policy = ConcurrencyPolicy::from(*concurrency_policy);
            Some(
                TaskConfig {
                    id: id.clone(),
                    name: name.clone(),
                    enabled: *enabled,
                    concurrency: ConcurrencyConfig { policy, max_running: *max_running },
                    retry: RetryConfig {
                        max_attempts: *retry_max_attempts,
                        delay_seconds: *retry_delay_seconds,
                    },
                    schedule: ScheduleConfig::Interval { seconds: *seconds },
                    notify: None,
                    command: CommandConfig {
                        program: program.clone(),
                        args: copy_texts(args),
                        workdir: copy_opt(workdir),
                        timeout_seconds: *timeout_seconds,
                        env: collect_env(env),
                    },
                },
            )
        },
        _ => None,
    }
}

/// What a command makes of a configuration. The result is still to be checked.
pub fn edit_config(command: &Command, app: AppConfig) -> (r: Result<AppConfig, Failure>)
    ensures
        edits(*command, app@, config_result(r)),
{
    match task_to_add(command) {
        Some(task) => {
            assert(adds_task(*command, task@));
            return edited_by_add(app, task);
        },
        None => {},
    }
    match command {
        Command::Remove { id } => {
            let mut next = app;
            match next.remove_task(id) {
                Ok(_) => Ok(next),
                Err(f) => Err(f),
            }
        },
        Command::Enable { id } => edited_by_switch(app, id, true),
        Command::Disable { id } => edited_by_switch(app, id, false),
        _ => Ok(app),
    }
}

/// A command line determines the task that it adds.
pub proof fn law_command_determines_task(command: Command, t: TaskView, u: TaskView)
    requires
        adds_task(command, t),
        adds_task(command, u),
    ensures
        t == u,
{
    law_entries_determined(t.command.env, u.command.env);
}

// ---------------------------------------------------------------------------------------------
// After the check
// ---------------------------------------------------------------------------------------------
/// What a command does with a checked configuration.
#[derive(Debug)]
pub enum Proceed {
    /// Shows all tasks.
    List,
    /// Shows the task at a position.
    Show(usize),
    /// Says that the configuration is valid.
    Valid,
    /// Writes the configuration.
    Write,
    /// Runs the task at a position.
    Run(usize),
    /// Nothing.
    Nothing,
}

/// What a command does with a checked configuration.
pub open spec fn proceeds(command: Command, c: AppView, r: Result<Proceed, Failure>) -> bool {
    match command {
        Command::List => r == Ok::<Proceed, Failure>(Proceed::List),
        Command::Show { id } => match position_of(c, id@) {
            Some(i) => r matches Ok(p) && (p matches Proceed::Show(k) && k == i && k
                < c.tasks.len()),
            None => told(r) == Some(plain("task '"@ + id@ + "' not found"@)),
        },
        Command::Validate => r == Ok::<Proceed, Failure>(Proceed::Valid),
        Command::RunNow { id } => match position_of(c, id@) {
            Some(i) => r matches Ok(p) && (p matches Proceed::Run(k) && k == i && k
                < c.tasks.len()),
            None => told(r) == Some(plain("task '"@ + id@ + "' not found"@)),
        },
        Command::AddCron { .. } => r == Ok::<Proceed, Failure>(Proceed::Write),
        Command::AddInterval { .. } => r == Ok::<Proceed, Failure>(Proceed::Write),
        Command::Remove { .. } => r == Ok::<Proceed, Failure>(Proceed::Write),
        Command::Enable { .. } => r == Ok::<Proceed, Failure>(Proceed::Write),
        Command::Disable { .. } => r == Ok::<Proceed, Failure>(Proceed::Write),
        _ => r == Ok::<Proceed, Failure>(Proceed::Nothing),
    }
}

/// What a command does with a checked configuration.
pub fn proceed(command: &Command, config: &ValidConfig) -> (r: Result<Proceed, Failure>)
    ensures
        proceeds(*command, config.config(), r),
{
    let app = config.get();
    match command {
        Command::List => Ok(Proceed::List),
        Command::Show { id } => match find_task(&app.tasks, id, app.tasks.len()) {
            Some(i) => Ok(Proceed::Show(i)),
            None => Err(Failure::new(concat3("task '", id, "' not found"))),
        },
        Command::Validate => Ok(Proceed::Valid),
        Command::RunNow { id } => match find_task(&app.tasks, id, app.tasks.len()) {
            Some(i) => Ok(Proceed::Run(i)),
            None => Err(Failure::new(concat3("task '", id, "' not found"))),
        },
        Command::AddCron { .. } => Ok(Proceed::Write),
        Command::AddInterval { .. } => Ok(Proceed::Write),
        Command::Remove { id } => Ok(Proceed::Write),
        Command::Enable { id } => Ok(Proceed::Write),
        Command::Disable { id } => Ok(Proceed::Write),
        Command::History { id, limit } => Ok(Proceed::Nothing),
        Command::RecentFailures { limit } => Ok(Proceed::Nothing),
        Command::Logs { lines, follow } => Ok(Proceed::Nothing),
        Command::Report { command } => Ok(Proceed::Nothing),
    }
}

/// What a command says once it is done.
#[derive(Debug)]
pub struct MessageOutput {
    pub ok: bool,
    pub message: String,
    pub task_id: Option<String>,
}

/// What a command says once the configuration is written, and of which task.
pub open spec fn done_message(command: Command) -> Option<(Seq<char>, Seq<char>)> {
    match command {
        Command::Remove { id } => Some(("removed task "@ + id@, id@)),
        Command::Enable { id } => Some(("enabled task "@ + id@, id@)),
        Command::Disable { id } => Some(("disabled task "@ + id@, id@)),
        _ => None,
    }
}

/// What a command says once the configuration is written. Adding a task says nothing.
pub fn message_after_write(command: &Command) -> (r: Option<MessageOutput>)
    ensures
        match done_message(*command) {
            Some((message, id)) => r is Some && r->0.ok && r->0.message@ == message && opt_text(
                r->0.task_id,
            ) == Some(id),
            None => r is None,
        },
{
    match command {
        Command::Remove { id } => Some(
            MessageOutput {
                ok: true,
                message: concat("removed task ", id),
                task_id: Some(id.clone()),
            },
        ),
        Command::Enable { id } => Some(
            MessageOutput {
                ok: true,
                message: concat("enabled task ", id),
                task_id: Some(id.clone()),
            },
        ),
        Command::Disable { id } => Some(
            MessageOutput {
                ok: true,
                message: concat("disabled task ", id),
                task_id: Some(id.clone()),
            },
        ),
        _ => None,
    }
}

/// The task whose runtime state is to be forgotten once the configuration is written.
pub fn task_to_forget(command: &Command) -> (r: Option<String>)
    ensures
        match *command {
            Command::Remove { id } => opt_text(r) == Some(id@),
            _ => r is None,
        },
{
    match command {
        Command::Remove { id } => Some(id.clone()),
        _ => None,
    }
}

/// What `validate` says.
#[derive(Debug)]
pub struct ValidateOutput {
    pub ok: bool,
    pub message: String,
    pub task_count: usize,
}

/// What `validate` says of a checked configuration.
pub fn validate_output(config: &ValidConfig) -> (r: ValidateOutput)
    ensures
        r.ok,
        r.message@ == "config is valid"@,
        r.task_count == config.config().tasks.len(),
{
    ValidateOutput {
        ok: true,
        message: "config is valid".to_owned(),
        task_count: config.get().tasks.len(),
    }
}

/// An edit that is accepted leads from one valid configuration to another: whatever a command
/// writes meets every rule, and removing, enabling and disabling never fail on that account.
pub proof fn law_edits_keep_validity(
    command: Command,
    c: AppView,
    r: Result<AppView, FailureView>,
    survey: Map<Seq<char>, PathKind>,
)
    requires
        config_valid(c, survey),
        edits(command, c, r),
        command is Remove || command is Enable || command is Disable,
    ensures
        r is Ok ==> config_failure(r->Ok_0, survey) is None,
{
    match command {
        Command::Remove { id } => {
            if position_of(c, id@) is Some {
                law_removing_keeps_validity(c, id@, survey);
            }
        },
        Command::Enable { id } => {
            if position_of(c, id@) is Some {
                law_switching_keeps_validity(c, id@, true, survey);
            }
        },
        Command::Disable { id } => {
            if position_of(c, id@) is Some {
                law_switching_keeps_validity(c, id@, false, survey);
            }
        },
        _ => {},
    }
    if r is Ok {
        law_validation_is_exact(r->Ok_0, survey);
    }
}

// ---------------------------------------------------------------------------------------------
// Logs
// ---------------------------------------------------------------------------------------------
/// The exit code of `journalctl`: its own, or 1 where it has none.
pub open spec fn journal_code(exit: ProcessExit) -> i32 {
    match exit {
        ProcessExit::Code(code) => code,
        _ => 1,
    }
}

/// The exit code of `journalctl`.
pub fn journal_exit_code(exit: ProcessExit) -> (r: i32)
    ensures
        r == journal_code(exit),
{
    match exit {
        ProcessExit::Code(code) => code,
        _ => 1,
    }
}

/// Checks what `journalctl` gave when its output was captured: it fails where it did not succeed
/// and says why.
pub fn judge_journal(exit: ProcessExit, stderr: &str) -> (r: Result<(), Failure>)
    ensures
        told(r) == (if exit != ProcessExit::Code(0) && stderr@.len() > 0 {
            Some(plain("journalctl returned non-zero status: "@ + trimmed(stderr@)))
        } else {
            None
        }),
{
    if !exited_well(exit) && !stderr.is_empty() {
        return Err(
            Failure::new(
                concat("journalctl returned non-zero status: ", &trim_text(stderr)),
            ),
        );
    }
    Ok(())
}

/// The failure of a `journalctl` that cannot be run.
pub fn journal_not_run(error: &str) -> (r: Failure)
    ensures
        r@ == caused("failed to execute journalctl for taskd logs"@, error@),
{
    Failure::caused_by("failed to execute journalctl for taskd logs".to_owned(), error)
}

// ---------------------------------------------------------------------------------------------
// Reports on disk
// ---------------------------------------------------------------------------------------------
/// The failure of a report file that cannot be created.
pub fn report_not_created(output: &str, error: &str) -> (r: Failure)
    ensures
        r@ == caused("failed to create report output '"@ + output@ + "'"@, error@),
{
    Failure::caused_by(concat3("failed to create report output '", output, "'"), error)
}

/// The failure of a report file that cannot be written.
pub fn report_not_written(output: &str, error: &str) -> (r: Failure)
    ensures
        r@ == caused("failed to write report output '"@ + output@ + "'"@, error@),
{
    Failure::caused_by(concat3("failed to write report output '", output, "'"), error)
}

/// What a program says of a failure before it ends with exit code 1.
pub fn error_line(failure: &Failure) -> (r: String)
    ensures
        r@ == "error: "@ + full_text(failure@),
{
    concat("error: ", &failure.full_text())
}

// ---------------------------------------------------------------------------------------------
// Exit codes
// ---------------------------------------------------------------------------------------------
/// How the work of a command ended that did not fail.
#[derive(Debug)]
pub enum CommandEnd {
    /// The command did what it is for.
    Done,
    /// The task was run, with that outcome.
    Ran(TaskOutcome),
    /// `journalctl` ended that way.
    Journal(ProcessExit),
}

/// The exit code of `taskctl`: 1 after a failure, that of the task after running it, that of
/// `journalctl` after showing logs, and otherwise 0.
pub open spec fn command_code(command: Command, end: Result<CommandEnd, Failure>) -> int {
    match end {
        Err(_) => 1,
        Ok(end) => match (command, end) {
            (Command::RunNow { .. }, CommandEnd::Ran(outcome)) => outcome_exit_code(outcome@),
            (Command::Logs { .. }, CommandEnd::Journal(exit)) => journal_code(exit) as int,
            _ => 0,
        },
    }
}

/// The exit code with which `taskctl` ends.
pub fn command_exit_code(command: &Command, end: &Result<CommandEnd, Failure>) -> (r: i32)
    ensures
        r == command_code(*command, *end),
{
    match end {
        Err(_) => 1,
        Ok(end) => match (command, end) {
            (Command::RunNow { .. }, CommandEnd::Ran(outcome)) => outcome.exit_code(),
            (Command::Logs { .. }, CommandEnd::Journal(exit)) => journal_exit_code(*exit),
            _ => 0,
        },
    }
}

/// The exit code with which `taskd` and `artifactctl` end.
pub fn program_exit_code(end: &Result<(), Failure>) -> (r: i32)
    ensures
        r == (if end is Ok {
            0int
        } else {
            1
        }),
{
    match end {
        Ok(_) => 0,
        Err(_) => 1,
    }
}

} // verus!

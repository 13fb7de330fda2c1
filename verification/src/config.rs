//! Configuration types and the rules that a configuration has to meet.

use vstd::prelude::*;
use vstd::std_specs::cmp::PartialEqSpecImpl;

use crate::calendar::{cron_error, cron_fault, zone_error, zone_fault};
use crate::failure::{caused, first, plain, told, Failure, FailureView};
use crate::paths::{same, same_path, same_texts};
use crate::text::{
    blank, chars_of, concat, concat3, concat5, copy_opt, copy_texts, decimal, decimal_text,
    is_blank, opt_text, same_text, texts,
};
use crate::text_map::{copy_env, same_env, text_pairs, EnvMap, TextMap};

verus! {

// ---------------------------------------------------------------------------------------------
// What is known of the file system
// ---------------------------------------------------------------------------------------------
/// What stands at a path.
#[derive(Debug, Clone, Copy, PartialEq, Eq, Structural)]
pub enum PathKind {
    Missing,
    Directory,
    Other,
}

/// What stands at the paths that somebody looked at. A path that nobody looked at counts as
/// missing.
pub type PathSurvey = TextMap<PathKind>;

/// What a survey says of a path.
pub open spec fn kind_at(survey: Map<Seq<char>, PathKind>, path: Seq<char>) -> PathKind {
    if survey.dom().contains(path) {
        survey[path]
    } else {
        PathKind::Missing
    }
}

/// What a survey says of a path.
pub fn kind_of(survey: &PathSurvey, path: &str) -> (r: PathKind)
    ensures
        r == kind_at(survey@, path@),
{
    match survey.get(path) {
        Some(kind) => *kind,
        None => PathKind::Missing,
    }
}

// ---------------------------------------------------------------------------------------------
// Concurrency and retry
// ---------------------------------------------------------------------------------------------
/// What happens when a task is due while it still runs.
#[derive(Debug, Clone, Copy, PartialEq, Eq, Structural)]
pub enum ConcurrencyPolicy {
    Allow,
    Forbid,
    Replace,
}

impl Default for ConcurrencyPolicy {
    fn default() -> (r: Self)
        ensures
            r == ConcurrencyPolicy::Forbid,
    {
        ConcurrencyPolicy::Forbid
    }
}

/// How many runs of one task may overlap.
#[derive(Debug, Clone, Copy, PartialEq, Eq, Structural)]
pub struct ConcurrencyConfig {
    pub policy: ConcurrencyPolicy,
    pub max_running: u8,
}

impl Default for ConcurrencyConfig {
    fn default() -> (r: Self)
        ensures
            r == (ConcurrencyConfig { policy: ConcurrencyPolicy::Forbid, max_running: 1 }),
    {
        ConcurrencyConfig { policy: ConcurrencyPolicy::Forbid, max_running: 1 }
    }
}

/// The first rule that a concurrency setting breaks.
pub open spec fn concurrency_failure(c: ConcurrencyConfig, path: Seq<char>) -> Option<FailureView> {
    if !(1 <= c.max_running <= 3) {
        Some(plain(path + ".concurrency.max_running must be between 1 and 3"@))
    } else if c.policy == ConcurrencyPolicy::Forbid && c.max_running != 1 {
        Some(plain(path + ".concurrency.max_running must be 1 when policy is forbid"@))
    } else if c.policy == ConcurrencyPolicy::Replace && c.max_running != 1 {
        Some(plain(path + ".concurrency.max_running must be 1 when policy is replace"@))
    } else {
        None
    }
}

impl ConcurrencyConfig {
    /// Checks the setting of the task at `task_path`.
    pub fn validate(&self, task_path: &str) -> (r: Result<(), Failure>)
        ensures
            told(r) == concurrency_failure(*self, task_path@),
    {
        if self.max_running < 1 || self.max_running > 3 {
            return Err(
                Failure::new(
                    concat(task_path, ".concurrency.max_running must be between 1 and 3"),
                ),
            );
        }
        if self.policy == ConcurrencyPolicy::Forbid && self.max_running != 1 {
            return Err(
                Failure::new(
                    concat(
                        task_path,
                        ".concurrency.max_running must be 1 when policy is forbid",
                    ),
                ),
            );
        }
        if self.policy == ConcurrencyPolicy::Replace && self.max_running != 1 {
            return Err(
                Failure::new(
                    concat(
                        task_path,
                        ".concurrency.max_running must be 1 when policy is replace",
                    ),
                ),
            );
        }
        Ok(())
    }
}

/// How often a failed run is tried again, and after which pause.
#[derive(Debug, Clone, Copy, PartialEq, Eq, Structural)]
pub struct RetryConfig {
    pub max_attempts: u8,
    pub delay_seconds: u64,
}

impl Default for RetryConfig {
    fn default() -> (r: Self)
        ensures
            r == (RetryConfig { max_attempts: 0, delay_seconds: 1 }),
    {
        RetryConfig { max_attempts: 0, delay_seconds: 1 }
    }
}

/// The first rule that a retry setting breaks.
pub open spec fn retry_failure(c: RetryConfig, path: Seq<char>) -> Option<FailureView> {
    if c.max_attempts > 0 && c.delay_seconds == 0 {
        Some(plain(path + ".retry.delay_seconds must be > 0 when retry.max_attempts > 0"@))
    } else {
        None
    }
}

impl RetryConfig {
    /// Whether failed runs are never tried again.
    pub fn is_disabled(&self) -> (r: bool)
        ensures
            r == (self.max_attempts == 0),
    {
        self.max_attempts == 0
    }

    /// Checks the setting of the task at `task_path`.
    pub fn validate(&self, task_path: &str) -> (r: Result<(), Failure>)
        ensures
            told(r) == retry_failure(*self, task_path@),
    {
        if self.max_attempts > 0 && self.delay_seconds == 0 {
            return Err(
                Failure::new(
                    concat(
                        task_path,
                        ".retry.delay_seconds must be > 0 when retry.max_attempts > 0",
                    ),
                ),
            );
        }
        Ok(())
    }
}

// ---------------------------------------------------------------------------------------------
// Schedules
// ---------------------------------------------------------------------------------------------
/// When a task is due.
pub enum ScheduleView {
    Cron { expr: Seq<char>, timezone: Option<Seq<char>> },
    Interval { seconds: u64 },
}

/// When a task is due: by a cron expression, or every so many seconds.
#[derive(Debug)]
pub enum ScheduleConfig {
    Cron { expr: String, timezone: Option<String> },
    Interval { seconds: u64 },
}

impl View for ScheduleConfig {
    type V = ScheduleView;

    open spec fn view(&self) -> ScheduleView {
        match self {
            ScheduleConfig::Cron { expr, timezone } => ScheduleView::Cron {
                expr: expr@,
                timezone: opt_text(*timezone),
            },
            ScheduleConfig::Interval { seconds } => ScheduleView::Interval { seconds: *seconds },
        }
    }
}

/// The first rule that a cron schedule breaks, given what parsing its expression and its time
/// zone reports.
pub open spec fn cron_failure(
    path: Seq<char>,
    expr: Seq<char>,
    timezone: Option<Seq<char>>,
    expr_fault: Option<Seq<char>>,
    timezone_fault: Option<Seq<char>>,
) -> Option<FailureView> {
    if blank(expr) {
        Some(plain(path + ".schedule.expr must not be empty"@))
    } else if expr_fault is Some {
        Some(
            caused(
                path + ".schedule.expr has invalid cron expression '"@ + expr + "'"@,
                expr_fault->0,
            ),
        )
    } else if timezone is Some && timezone_fault is Some {
        Some(
            caused(
                path + ".schedule.timezone has invalid timezone '"@ + timezone->0 + "'"@,
                timezone_fault->0,
            ),
        )
    } else {
        None
    }
}

/// What parsing an optional time zone name reports.
pub open spec fn optional_zone_fault(timezone: Option<Seq<char>>) -> Option<Seq<char>> {
    match timezone {
        Some(name) => zone_fault(name),
        None => None,
    }
}

/// The first rule that a schedule breaks.
pub open spec fn schedule_failure(s: ScheduleView, path: Seq<char>) -> Option<FailureView> {
    match s {
        ScheduleView::Cron { expr, timezone } => cron_failure(
            path,
            expr,
            timezone,
            cron_fault(expr),
            optional_zone_fault(timezone),
        ),
        ScheduleView::Interval { seconds } => if seconds == 0 {
            Some(plain(path + ".schedule.seconds must be > 0"@))
        } else {
            None
        },
    }
}

/// A schedule on one line.
pub open spec fn schedule_summary(s: ScheduleView) -> Seq<char> {
    match s {
        ScheduleView::Cron { expr, timezone } => match timezone {
            Some(zone) => "cron("@ + expr + ", tz="@ + zone + ")"@,
            None => "cron("@ + expr + ")"@,
        },
        ScheduleView::Interval { seconds } => "interval("@ + decimal(seconds as nat) + "s)"@,
    }
}

/// Checks a cron schedule, given what parsing its expression and its time zone reports.
pub fn judge_cron(
    task_path: &str,
    expr: &str,
    timezone: &Option<String>,
    expr_fault: &Option<String>,
    timezone_fault: &Option<String>,
) -> (r: Result<(), Failure>)
    ensures
        told(r) == cron_failure(
            task_path@,
            expr@,
            opt_text(*timezone),
            opt_text(*expr_fault),
            opt_text(*timezone_fault),
        ),
{
    if is_blank(expr) {
        return Err(Failure::new(concat(task_path, ".schedule.expr must not be empty")));
    }
    if let Some(fault) = expr_fault {
        let mut message = concat(task_path, ".schedule.expr has invalid cron expression '");
        message.append(expr);
        message.append("'");
        return Err(Failure::caused_by(message, fault));
    }
    if let Some(zone) = timezone {
        if let Some(fault) = timezone_fault {
            let mut message = concat(task_path, ".schedule.timezone has invalid timezone '");
            message.append(zone);
            message.append("'");
            return Err(Failure::caused_by(message, fault));
        }
    }
    Ok(())
}

impl ScheduleConfig {
    /// Checks the schedule of the task at `task_path`.
    pub fn validate(&self, task_path: &str) -> (r: Result<(), Failure>)
        ensures
            told(r) == schedule_failure(self@, task_path@),
    {
        match self {
            ScheduleConfig::Cron { expr, timezone } => {
                let expr_fault = cron_error(expr);
                let timezone_fault = match timezone {
                    Some(zone) => zone_error(zone),
                    None => None,
                };
                judge_cron(task_path, expr, timezone, &expr_fault, &timezone_fault)
            },
            ScheduleConfig::Interval { seconds } => {
                if *seconds == 0 {
                    return Err(Failure::new(concat(task_path, ".schedule.seconds must be > 0")));
                }
                Ok(())
            },
        }
    }

    /// The schedule on one line.
    pub fn summary(&self) -> (r: String)
        ensures
            r@ == schedule_summary(self@),
    {
        match self {
            ScheduleConfig::Cron { expr, timezone } => match timezone {
                Some(zone) => concat5("cron(", expr, ", tz=", zone, ")"),
                None => concat3("cron(", expr, ")"),
            },
            ScheduleConfig::Interval { seconds } => concat3(
                "interval(",
                &decimal_text(*seconds),
                "s)",
            ),
        }
    }
}

impl Clone for ScheduleConfig {
    fn clone(&self) -> (r: Self)
        ensures
            r@ == self@,
    {
        match self {
            ScheduleConfig::Cron { expr, timezone } => ScheduleConfig::Cron {
                expr: expr.clone(),
                timezone: copy_opt(timezone),
            },
            ScheduleConfig::Interval { seconds } => ScheduleConfig::Interval { seconds: *seconds },
        }
    }
}

/// Whether two optional texts hold the same.
pub fn same_opt(a: &Option<String>, b: &Option<String>) -> (r: bool)
    ensures
        r == (opt_text(*a) == opt_text(*b)),
{
    match (a, b) {
        (Some(x), Some(y)) => *x == *y,
        (None, None) => true,
        _ => false,
    }
}

/// Whether two optional paths are the same.
pub open spec fn same_opt_path(a: Option<Seq<char>>, b: Option<Seq<char>>) -> bool {
    match (a, b) {
        (Some(x), Some(y)) => same(x, y),
        (None, None) => true,
        _ => false,
    }
}

fn same_opt_paths(a: &Option<String>, b: &Option<String>) -> (r: bool)
    ensures
        r == same_opt_path(opt_text(*a), opt_text(*b)),
{
    match (a, b) {
        (Some(x), Some(y)) => same_path(x, y),
        (None, None) => true,
        _ => false,
    }
}

impl PartialEq for ScheduleConfig {
    fn eq(&self, other: &Self) -> (r: bool) {
        match (self, other) {
            (
                ScheduleConfig::Cron { expr: a, timezone: x },
                ScheduleConfig::Cron { expr: b, timezone: y },
            ) => *a == *b && same_opt(x, y),
            (
                ScheduleConfig::Interval { seconds: a },
                ScheduleConfig::Interval { seconds: b },
            ) => *a == *b,
            _ => false,
        }
    }
}

impl PartialEqSpecImpl for ScheduleConfig {
    open spec fn obeys_eq_spec() -> bool {
        true
    }

    open spec fn eq_spec(&self, other: &Self) -> bool {
        self@ == other@
    }
}

impl Eq for ScheduleConfig {

}

// ---------------------------------------------------------------------------------------------
// Commands
// ---------------------------------------------------------------------------------------------
/// A program with its arguments, working directory, time limit and environment.
#[verifier::ext_equal]
pub struct CommandView {
    pub program: Seq<char>,
    pub args: Seq<Seq<char>>,
    pub workdir: Option<Seq<char>>,
    pub timeout_seconds: Option<u64>,
    pub env: Seq<(Seq<char>, Seq<char>)>,
}

/// The command that a task runs.
#[derive(Debug)]
pub struct CommandConfig {
    pub program: String,
    pub args: Vec<String>,
    pub workdir: Option<String>,
    pub timeout_seconds: Option<u64>,
    pub env: EnvMap,
}

impl View for CommandConfig {
    type V = CommandView;

    open spec fn view(&self) -> CommandView {
        CommandView {
            program: self.program@,
            args: texts(self.args@),
            workdir: opt_text(self.workdir),
            timeout_seconds: self.timeout_seconds,
            env: text_pairs(self.env),
        }
    }
}

/// The failure of a directory that has to exist.
pub open spec fn directory_failure(
    field: Seq<char>,
    dir: Seq<char>,
    survey: Map<Seq<char>, PathKind>,
) -> Option<FailureView> {
    match kind_at(survey, dir) {
        PathKind::Missing => Some(plain(field + " '"@ + dir + "' does not exist"@)),
        PathKind::Other => Some(plain(field + " '"@ + dir + "' is not a directory"@)),
        PathKind::Directory => None,
    }
}

/// The failure of a time limit.
pub open spec fn timeout_failure(path: Seq<char>, seconds: Option<u64>) -> Option<FailureView> {
    if seconds == Some(0u64) {
        Some(plain(path + ".timeout_seconds must be > 0"@))
    } else {
        None
    }
}

/// The first rule that a command breaks.
pub open spec fn command_failure(
    c: CommandView,
    path: Seq<char>,
    survey: Map<Seq<char>, PathKind>,
) -> Option<FailureView> {
    if blank(c.program) {
        Some(plain(path + ".program must not be empty"@))
    } else {
        first(
            timeout_failure(path, c.timeout_seconds),
            match c.workdir {
                Some(dir) => directory_failure(path + ".workdir"@, dir, survey),
                None => None,
            },
        )
    }
}

/// Checks a directory that has to exist.
pub fn check_directory(field: &str, dir: &str, survey: &PathSurvey) -> (r: Result<(), Failure>)
    ensures
        told(r) == directory_failure(field@, dir@, survey@),
{
    match kind_of(survey, dir) {
        PathKind::Missing => {
            let mut message = concat3(field, " '", dir);
            message.append("' does not exist");
            Err(Failure::new(message))
        },
        PathKind::Other => {
            let mut message = concat3(field, " '", dir);
            message.append("' is not a directory");
            Err(Failure::new(message))
        },
        PathKind::Directory => Ok(()),
    }
}

/// Checks a time limit.
pub fn check_timeout(path: &str, seconds: Option<u64>) -> (r: Result<(), Failure>)
    ensures
        told(r) == timeout_failure(path@, seconds),
{
    if let Some(seconds) = seconds {
        if seconds == 0 {
            return Err(Failure::new(concat(path, ".timeout_seconds must be > 0")));
        }
    }
    Ok(())
}

impl CommandConfig {
    /// Checks the command that stands at `command_path` of the configuration.
    pub fn validate(&self, command_path: &str, survey: &PathSurvey) -> (r: Result<(), Failure>)
        ensures
            told(r) == command_failure(self@, command_path@, survey@),
    {
        if is_blank(&self.program) {
            return Err(Failure::new(concat(command_path, ".program must not be empty")));
        }
        let r = check_timeout(command_path, self.timeout_seconds);
        if r.is_err() {
            return r;
        }
        match &self.workdir {
            Some(dir) => check_directory(&concat(command_path, ".workdir"), dir, survey),
            None => Ok(()),
        }
    }
}

impl Clone for CommandConfig {
    fn clone(&self) -> (r: Self)
        ensures
            r@ == self@,
    {
        CommandConfig {
            program: self.program.clone(),
            args: copy_texts(&self.args),
            workdir: copy_opt(&self.workdir),
            timeout_seconds: self.timeout_seconds,
            env: copy_env(&self.env),
        }
    }
}

/// Whether two commands are the same. The spelling of a path does not count.
pub open spec fn same_command(a: CommandView, b: CommandView) -> bool {
    &&& a.program == b.program
    &&& a.args == b.args
    &&& same_opt_path(a.workdir, b.workdir)
    &&& a.timeout_seconds == b.timeout_seconds
    &&& a.env == b.env
}

impl PartialEq for CommandConfig {
    fn eq(&self, other: &Self) -> (r: bool) {
        self.program == other.program && same_texts(&self.args, &other.args) && same_opt_paths(
            &self.workdir,
            &other.workdir,
        ) && self.timeout_seconds == other.timeout_seconds && same_env(&self.env, &other.env)
    }
}

impl PartialEqSpecImpl for CommandConfig {
    open spec fn obeys_eq_spec() -> bool {
        true
    }

    open spec fn eq_spec(&self, other: &Self) -> bool {
        same_command(self@, other@)
    }
}

impl Eq for CommandConfig {

}

// ---------------------------------------------------------------------------------------------
// Notifications
// ---------------------------------------------------------------------------------------------
/// How a notification is worded.
#[verifier::ext_equal]
pub struct RendererView {
    pub program: Seq<char>,
    pub workdir: Seq<char>,
    pub prompt: Seq<char>,
    pub timeout_seconds: Option<u64>,
    pub session_dir: Option<Seq<char>>,
    pub agent_dir: Option<Seq<char>>,
    pub provider: Option<Seq<char>>,
    pub model: Option<Seq<char>>,
    pub env: Seq<(Seq<char>, Seq<char>)>,
}

/// The program that words notifications and summaries.
#[derive(Debug)]
pub struct PiRendererConfig {
    pub program: String,
    pub workdir: String,
    pub prompt: String,
    pub timeout_seconds: Option<u64>,
    pub session_dir: Option<String>,
    pub agent_dir: Option<String>,
    pub provider: Option<String>,
    pub model: Option<String>,
    pub env: EnvMap,
}

impl View for PiRendererConfig {
    type V = RendererView;

    open spec fn view(&self) -> RendererView {
        RendererView {
            program: self.program@,
            workdir: self.workdir@,
            prompt: self.prompt@,
            timeout_seconds: self.timeout_seconds,
            session_dir: opt_text(self.session_dir),
            agent_dir: opt_text(self.agent_dir),
            provider: opt_text(self.provider),
            model: opt_text(self.model),
            env: text_pairs(self.env),
        }
    }
}

/// The renderer program of a configuration that names none.
pub fn default_pi_program() -> (r: String)
    ensures
        r@ == "/usr/bin/pi"@,
{
    "/usr/bin/pi".to_owned()
}

/// The failure of a directory that may still be missing.
pub open spec fn optional_dir_failure(
    dir: Option<Seq<char>>,
    field: Seq<char>,
    survey: Map<Seq<char>, PathKind>,
) -> Option<FailureView> {
    match dir {
        Some(dir) => if dir.len() == 0 {
            Some(plain(field + " must not be empty"@))
        } else if kind_at(survey, dir) == PathKind::Other {
            Some(plain(field + " '"@ + dir + "' is not a directory"@))
        } else {
            None
        },
        None => None,
    }
}

/// Checks a directory that may still be missing.
pub fn validate_optional_dir(
    path: &Option<String>,
    field: &str,
    survey: &PathSurvey,
) -> (r: Result<(), Failure>)
    ensures
        told(r) == optional_dir_failure(opt_text(*path), field@, survey@),
{
    if let Some(dir) = path {
        if dir.as_str().is_empty() {
            return Err(Failure::new(concat(field, " must not be empty")));
        }
        if kind_of(survey, dir) == PathKind::Other {
            let mut message = concat3(field, " '", dir);
            message.append("' is not a directory");
            return Err(Failure::new(message));
        }
    }
    Ok(())
}

/// The first rule that a renderer breaks.
pub open spec fn renderer_failure(
    c: RendererView,
    path: Seq<char>,
    survey: Map<Seq<char>, PathKind>,
) -> Option<FailureView> {
    if blank(c.program) {
        Some(plain(path + ".program must not be empty"@))
    } else if blank(c.prompt) {
        Some(plain(path + ".prompt must not be empty"@))
    } else {
        first(
            directory_failure(path + ".workdir"@, c.workdir, survey),
            first(
                timeout_failure(path, c.timeout_seconds),
                first(
                    optional_dir_failure(c.session_dir, path + ".session_dir"@, survey),
                    optional_dir_failure(c.agent_dir, path + ".agent_dir"@, survey),
                ),
            ),
        )
    }
}

impl PiRendererConfig {
    /// Checks the renderer that stands at `path` of the configuration.
    pub fn validate(&self, path: &str, survey: &PathSurvey) -> (r: Result<(), Failure>)
        ensures
            told(r) == renderer_failure(self@, path@, survey@),
    {
        if is_blank(&self.program) {
            return Err(Failure::new(concat(path, ".program must not be empty")));
        }
        if is_blank(&self.prompt) {
            return Err(Failure::new(concat(path, ".prompt must not be empty")));
        }
        let r = check_directory(&concat(path, ".workdir"), &self.workdir, survey);
        if r.is_err() {
            return r;
        }
        let r = check_timeout(path, self.timeout_seconds);
        if r.is_err() {
            return r;
        }
        let r = validate_optional_dir(&self.session_dir, &concat(path, ".session_dir"), survey);
        if r.is_err() {
            return r;
        }
        validate_optional_dir(&self.agent_dir, &concat(path, ".agent_dir"), survey)
    }
}

impl Clone for PiRendererConfig {
    fn clone(&self) -> (r: Self)
        ensures
            r@ == self@,
    {
        PiRendererConfig {
            program: self.program.clone(),
            workdir: self.workdir.clone(),
            prompt: self.prompt.clone(),
            timeout_seconds: self.timeout_seconds,
            session_dir: copy_opt(&self.session_dir),
            agent_dir: copy_opt(&self.agent_dir),
            provider: copy_opt(&self.provider),
            model: copy_opt(&self.model),
            env: copy_env(&self.env),
        }
    }
}

/// Whether two renderers are the same. The spelling of a path does not count.
pub open spec fn same_renderer(a: RendererView, b: RendererView) -> bool {
    &&& a.program == b.program
    &&& same(a.workdir, b.workdir)
    &&& a.prompt == b.prompt
    &&& a.timeout_seconds == b.timeout_seconds
    &&& same_opt_path(a.session_dir, b.session_dir)
    &&& same_opt_path(a.agent_dir, b.agent_dir)
    &&& a.provider == b.provider
    &&& a.model == b.model
    &&& a.env == b.env
}

impl PartialEq for PiRendererConfig {
    fn eq(&self, other: &Self) -> (r: bool) {
        self.program == other.program && same_path(&self.workdir, &other.workdir) && self.prompt
            == other.prompt && self.timeout_seconds == other.timeout_seconds && same_opt_paths(
            &self.session_dir,
            &other.session_dir,
        ) && same_opt_paths(&self.agent_dir, &other.agent_dir) && same_opt(
            &self.provider,
            &other.provider,
        ) && same_opt(&self.model, &other.model) && same_env(&self.env, &other.env)
    }
}

impl PartialEqSpecImpl for PiRendererConfig {
    open spec fn obeys_eq_spec() -> bool {
        true
    }

    open spec fn eq_spec(&self, other: &Self) -> bool {
        same_renderer(self@, other@)
    }
}

impl Eq for PiRendererConfig {

}

/// Where notifications are sent.
#[derive(Debug)]
pub struct WebhookConfig {
    pub url_env: String,
}

impl View for WebhookConfig {
    type V = Seq<char>;

    /// The name of the environment variable that holds the address.
    open spec fn view(&self) -> Seq<char> {
        self.url_env@
    }
}

/// The rule that a webhook breaks.
pub open spec fn webhook_failure(url_env: Seq<char>, path: Seq<char>) -> Option<FailureView> {
    if blank(url_env) {
        Some(plain(path + ".url_env must not be empty"@))
    } else {
        None
    }
}

impl WebhookConfig {
    /// Checks the webhook that stands at `path` of the configuration.
    pub fn validate(&self, path: &str) -> (r: Result<(), Failure>)
        ensures
            told(r) == webhook_failure(self@, path@),
    {
        if is_blank(&self.url_env) {
            return Err(Failure::new(concat(path, ".url_env must not be empty")));
        }
        Ok(())
    }
}

impl Clone for WebhookConfig {
    fn clone(&self) -> (r: Self)
        ensures
            r@ == self@,
    {
        WebhookConfig { url_env: self.url_env.clone() }
    }
}

impl PartialEq for WebhookConfig {
    fn eq(&self, other: &Self) -> (r: bool) {
        self.url_env == other.url_env
    }
}

impl PartialEqSpecImpl for WebhookConfig {
    open spec fn obeys_eq_spec() -> bool {
        true
    }

    open spec fn eq_spec(&self, other: &Self) -> bool {
        self@ == other@
    }
}

impl Eq for WebhookConfig {

}

/// How tasks notify.
pub struct NotificationsView {
    pub enabled: bool,
    pub renderer: Option<RendererView>,
    pub webhook: Option<Seq<char>>,
}

/// How tasks notify: what words a message, and where it is sent.
#[derive(Debug)]
pub struct NotificationsConfig {
    pub enabled: bool,
    pub renderer: Option<PiRendererConfig>,
    pub webhook: Option<WebhookConfig>,
}

impl View for NotificationsConfig {
    type V = NotificationsView;

    open spec fn view(&self) -> NotificationsView {
        NotificationsView {
            enabled: self.enabled,
            renderer: match self.renderer {
                Some(r) => Some(r@),
                None => None,
            },
            webhook: match self.webhook {
                Some(w) => Some(w@),
                None => None,
            },
        }
    }
}

/// The first rule that a notification setting breaks. A disabled setting breaks none.
pub open spec fn notifications_failure(
    c: NotificationsView,
    path: Seq<char>,
    survey: Map<Seq<char>, PathKind>,
) -> Option<FailureView> {
    if !c.enabled {
        None
    } else {
        first(
            match c.renderer {
                None => Some(
                    plain(path + ".renderer must be set when notifications.enabled is true"@),
                ),
                Some(r) => renderer_failure(r, path + ".renderer"@, survey),
            },
            match c.webhook {
                None => Some(
                    plain(path + ".webhook must be set when notifications.enabled is true"@),
                ),
                Some(w) => webhook_failure(w, path + ".webhook"@),
            },
        )
    }
}

impl NotificationsConfig {
    /// Checks the setting that stands at `path` of the configuration.
    pub fn validate(&self, path: &str, survey: &PathSurvey) -> (r: Result<(), Failure>)
        ensures
            told(r) == notifications_failure(self@, path@, survey@),
    {
        if !self.enabled {
            return Ok(());
        }
        let r = match &self.renderer {
            None => Err(
                Failure::new(
                    concat(path, ".renderer must be set when notifications.enabled is true"),
                ),
            ),
            Some(renderer) => renderer.validate(&concat(path, ".renderer"), survey),
        };
        if r.is_err() {
            return r;
        }
        match &self.webhook {
            None => Err(
                Failure::new(
                    concat(path, ".webhook must be set when notifications.enabled is true"),
                ),
            ),
            Some(webhook) => webhook.validate(&concat(path, ".webhook")),
        }
    }
}

impl Clone for NotificationsConfig {
    fn clone(&self) -> (r: Self)
        ensures
            r@ == self@,
    {
        NotificationsConfig {
            enabled: self.enabled,
            renderer: match &self.renderer {
                Some(r) => Some(r.clone()),
                None => None,
            },
            webhook: match &self.webhook {
                Some(w) => Some(w.clone()),
                None => None,
            },
        }
    }
}

/// Whether two notification settings are the same. The spelling of a path does not count.
pub open spec fn same_notifier(a: NotificationsView, b: NotificationsView) -> bool {
    &&& a.enabled == b.enabled
    &&& match (a.renderer, b.renderer) {
        (Some(x), Some(y)) => same_renderer(x, y),
        (None, None) => true,
        _ => false,
    }
    &&& a.webhook == b.webhook
}

impl PartialEq for NotificationsConfig {
    fn eq(&self, other: &Self) -> (r: bool) {
        let renderers = match (&self.renderer, &other.renderer) {
            (Some(a), Some(b)) => *a == *b,
            (None, None) => true,
            _ => false,
        };
        let webhooks = match (&self.webhook, &other.webhook) {
            (Some(a), Some(b)) => *a == *b,
            (None, None) => true,
            _ => false,
        };
        self.enabled == other.enabled && renderers && webhooks
    }
}

impl PartialEqSpecImpl for NotificationsConfig {
    open spec fn obeys_eq_spec() -> bool {
        true
    }

    open spec fn eq_spec(&self, other: &Self) -> bool {
        same_notifier(self@, other@)
    }
}

impl Eq for NotificationsConfig {

}

/// Where a task leaves the text that a notification is made from.
pub enum ResultSourceView {
    Stdout,
    File { path: Seq<char> },
}

/// Where a task leaves the text that a notification is made from.
#[derive(Debug)]
pub enum NotifyResultSourceConfig {
    Stdout,
    File { path: String },
}

impl View for NotifyResultSourceConfig {
    type V = ResultSourceView;

    open spec fn view(&self) -> ResultSourceView {
        match self {
            NotifyResultSourceConfig::Stdout => ResultSourceView::Stdout,
            NotifyResultSourceConfig::File { path } => ResultSourceView::File { path: path@ },
        }
    }
}

/// The rule that a result source breaks.
pub open spec fn result_source_failure(
    c: ResultSourceView,
    path: Seq<char>,
) -> Option<FailureView> {
    match c {
        ResultSourceView::Stdout => None,
        ResultSourceView::File { path: file } => if file.len() == 0 {
            Some(plain(path + ".path must not be empty"@))
        } else {
            None
        },
    }
}

impl NotifyResultSourceConfig {
    /// Checks the source that stands at `path` of the configuration.
    pub fn validate(&self, path: &str) -> (r: Result<(), Failure>)
        ensures
            told(r) == result_source_failure(self@, path@),
    {
        match self {
            NotifyResultSourceConfig::Stdout => Ok(()),
            NotifyResultSourceConfig::File { path: file } => {
                if file.as_str().is_empty() {
                    return Err(Failure::new(concat(path, ".path must not be empty")));
                }
                Ok(())
            },
        }
    }
}

impl Clone for NotifyResultSourceConfig {
    fn clone(&self) -> (r: Self)
        ensures
            r@ == self@,
    {
        match self {
            NotifyResultSourceConfig::Stdout => NotifyResultSourceConfig::Stdout,
            NotifyResultSourceConfig::File { path } => NotifyResultSourceConfig::File {
                path: path.clone(),
            },
        }
    }
}

/// Whether two result sources are the same. The spelling of a path does not count.
pub open spec fn same_source(a: ResultSourceView, b: ResultSourceView) -> bool {
    match (a, b) {
        (ResultSourceView::Stdout, ResultSourceView::Stdout) => true,
        (ResultSourceView::File { path: x }, ResultSourceView::File { path: y }) => same(x, y),
        _ => false,
    }
}

impl PartialEq for NotifyResultSourceConfig {
    fn eq(&self, other: &Self) -> (r: bool) {
        match (self, other) {
            (NotifyResultSourceConfig::Stdout, NotifyResultSourceConfig::Stdout) => true,
            (
                NotifyResultSourceConfig::File { path: a },
                NotifyResultSourceConfig::File { path: b },
            ) => same_path(a, b),
            _ => false,
        }
    }
}

impl PartialEqSpecImpl for NotifyResultSourceConfig {
    open spec fn obeys_eq_spec() -> bool {
        true
    }

    open spec fn eq_spec(&self, other: &Self) -> bool {
        same_source(self@, other@)
    }
}

impl Eq for NotifyResultSourceConfig {

}

/// How one task notifies.
#[derive(Debug)]
pub struct TaskNotifyConfig {
    pub result_source: NotifyResultSourceConfig,
}

impl View for TaskNotifyConfig {
    type V = ResultSourceView;

    open spec fn view(&self) -> ResultSourceView {
        self.result_source@
    }
}

impl TaskNotifyConfig {
    /// Checks the setting of the task at `task_path`.
    pub fn validate(&self, task_path: &str) -> (r: Result<(), Failure>)
        ensures
            told(r) == result_source_failure(self@, task_path@ + ".notify.result_source"@),
    {
        self.result_source.validate(&concat(task_path, ".notify.result_source"))
    }
}

impl Clone for TaskNotifyConfig {
    fn clone(&self) -> (r: Self)
        ensures
            r@ == self@,
    {
        TaskNotifyConfig { result_source: self.result_source.clone() }
    }
}

impl PartialEq for TaskNotifyConfig {
    fn eq(&self, other: &Self) -> (r: bool) {
        self.result_source == other.result_source
    }
}

impl PartialEqSpecImpl for TaskNotifyConfig {
    open spec fn obeys_eq_spec() -> bool {
        true
    }

    open spec fn eq_spec(&self, other: &Self) -> bool {
        same_source(self@, other@)
    }
}

impl Eq for TaskNotifyConfig {

}

// ---------------------------------------------------------------------------------------------
// Tasks
// ---------------------------------------------------------------------------------------------
/// A task.
pub struct TaskView {
    pub id: Seq<char>,
    pub name: Seq<char>,
    pub enabled: bool,
    pub concurrency: ConcurrencyConfig,
    pub retry: RetryConfig,
    pub schedule: ScheduleView,
    pub notify: Option<ResultSourceView>,
    pub command: CommandView,
}

/// A task: what runs, when, and how its runs overlap, are tried again and notify.
#[derive(Debug)]
pub struct TaskConfig {
    pub id: String,
    pub name: String,
    pub enabled: bool,
    pub concurrency: ConcurrencyConfig,
    pub retry: RetryConfig,
    pub schedule: ScheduleConfig,
    pub notify: Option<TaskNotifyConfig>,
    pub command: CommandConfig,
}

impl View for TaskConfig {
    type V = TaskView;

    open spec fn view(&self) -> TaskView {
        TaskView {
            id: self.id@,
            name: self.name@,
            enabled: self.enabled,
            concurrency: self.concurrency,
            retry: self.retry,
            schedule: self.schedule@,
            notify: match self.notify {
                Some(n) => Some(n@),
                None => None,
            },
            command: self.command@,
        }
    }
}

/// A character that a task id may hold.
pub open spec fn id_char(c: char) -> bool {
    ||| 'a' <= c <= 'z'
    ||| 'A' <= c <= 'Z'
    ||| '0' <= c <= '9'
    ||| c == '-'
    ||| c == '_'
    ||| c == '.'
}

/// A task id: letters, digits, `-`, `_` and `.`, and at least one of them.
pub open spec fn valid_id(id: Seq<char>) -> bool {
    id.len() > 0 && forall|i: int| 0 <= i < id.len() ==> id_char(#[trigger] id[i])
}

fn is_id_char(c: char) -> (r: bool)
    ensures
        r == id_char(c),
{
    ('a' <= c && c <= 'z') || ('A' <= c && c <= 'Z') || ('0' <= c && c <= '9') || c == '-' || c
        == '_' || c == '.'
}

/// Whether the text is a task id.
pub fn is_valid_task_id(id: &str) -> (r: bool)
    ensures
        r == valid_id(id@),
{
    let v = chars_of(id);
    let mut i: usize = 0;
    while i < v.len()
        invariant
            i <= v@.len(),
            v@ == id@,
            forall|j: int| 0 <= j < i ==> id_char(#[trigger] id@[j]),
        decreases v@.len() - i,
    {
        if !is_id_char(v[i]) {
            assert(!id_char(id@[i as int]));
            return false;
        }
        i = i + 1;
    }
    v.len() > 0
}

/// The failure of a task's own notification setting.
pub open spec fn notify_failure(
    notify: Option<ResultSourceView>,
    path: Seq<char>,
    notifications: Option<NotificationsView>,
    survey: Map<Seq<char>, PathKind>,
) -> Option<FailureView> {
    match notify {
        None => None,
        Some(source) => match notifications {
            None => Some(
                plain(path + ".notify requires top-level notifications to be configured"@),
            ),
            Some(n) => first(
                notifications_failure(n, path + ".notifications_ref"@, survey),
                if !n.enabled {
                    Some(
                        plain(
                            path
                                + ".notify requires top-level notifications.enabled to be true"@,
                        ),
                    )
                } else {
                    result_source_failure(source, path + ".notify.result_source"@)
                },
            ),
        },
    }
}

/// The first rule that a task breaks.
pub open spec fn task_failure(
    t: TaskView,
    path: Seq<char>,
    notifications: Option<NotificationsView>,
    survey: Map<Seq<char>, PathKind>,
) -> Option<FailureView> {
    if !valid_id(t.id) {
        Some(plain(path + ".id must use only letters, digits, '-', '_' or '.'"@))
    } else if blank(t.name) {
        Some(plain(path + ".name must not be empty"@))
    } else {
        first(
            concurrency_failure(t.concurrency, path),
            first(
                retry_failure(t.retry, path),
                first(
                    schedule_failure(t.schedule, path),
                    first(
                        notify_failure(t.notify, path, notifications, survey),
                        command_failure(t.command, path + ".command"@, survey),
                    ),
                ),
            ),
        )
    }
}

/// The view of an optional notification setting.
pub open spec fn opt_notifications(n: Option<NotificationsConfig>) -> Option<NotificationsView> {
    match n {
        Some(n) => Some(n@),
        None => None,
    }
}

impl TaskConfig {
    fn validate_notify(
        &self,
        task_path: &str,
        notifications: &Option<NotificationsConfig>,
        survey: &PathSurvey,
    ) -> (r: Result<(), Failure>)
        ensures
            told(r) == notify_failure(
                self@.notify,
                task_path@,
                opt_notifications(*notifications),
                survey@,
            ),
    {
        if let Some(notify) = &self.notify {
            match notifications {
                None => {
                    return Err(
                        Failure::new(
                            concat(
                                task_path,
                                ".notify requires top-level notifications to be configured",
                            ),
                        ),
                    );
                },
                Some(n) => {
                    let r = n.validate(&concat(task_path, ".notifications_ref"), survey);
                    if r.is_err() {
                        return r;
                    }
                    if !n.enabled {
                        return Err(
                            Failure::new(
                                concat(
                                    task_path,
                                    ".notify requires top-level notifications.enabled to be true",
                                ),
                            ),
                        );
                    }
                    return notify.validate(task_path);
                },
            }
        }
        Ok(())
    }

    /// Checks the task that stands at `task_path` of a configuration with these notifications.
    pub fn validate(
        &self,
        task_path: &str,
        notifications: &Option<NotificationsConfig>,
        survey: &PathSurvey,
    ) -> (r: Result<(), Failure>)
        ensures
            told(r) == task_failure(
                self@,
                task_path@,
                opt_notifications(*notifications),
                survey@,
            ),
    {
        if !is_valid_task_id(&self.id) {
            return Err(
                Failure::new(
                    concat(task_path, ".id must use only letters, digits, '-', '_' or '.'"),
                ),
            );
        }
        if is_blank(&self.name) {
            return Err(Failure::new(concat(task_path, ".name must not be empty")));
        }
        let r = self.concurrency.validate(task_path);
        if r.is_err() {
            return r;
        }
        let r = self.retry.validate(task_path);
        if r.is_err() {
            return r;
        }
        let r = self.schedule.validate(task_path);
        if r.is_err() {
            return r;
        }
        let r = self.validate_notify(task_path, notifications, survey);
        if r.is_err() {
            return r;
        }
        self.command.validate(&concat(task_path, ".command"), survey)
    }
}

impl Clone for TaskConfig {
    fn clone(&self) -> (r: Self)
        ensures
            r@ == self@,
    {
        TaskConfig {
            id: self.id.clone(),
            name: self.name.clone(),
            enabled: self.enabled,
            concurrency: self.concurrency,
            retry: self.retry,
            schedule: self.schedule.clone(),
            notify: match &self.notify {
                Some(n) => Some(n.clone()),
                None => None,
            },
            command: self.command.clone(),
        }
    }
}

/// Whether two tasks are the same. The spelling of a path does not count.
pub open spec fn same_task(a: TaskView, b: TaskView) -> bool {
    &&& a.id == b.id
    &&& a.name == b.name
    &&& a.enabled == b.enabled
    &&& a.concurrency == b.concurrency
    &&& a.retry == b.retry
    &&& a.schedule == b.schedule
    &&& match (a.notify, b.notify) {
        (Some(x), Some(y)) => same_source(x, y),
        (None, None) => true,
        _ => false,
    }
    &&& same_command(a.command, b.command)
}

impl PartialEq for TaskConfig {
    fn eq(&self, other: &Self) -> (r: bool) {
        let notifies = match (&self.notify, &other.notify) {
            (Some(a), Some(b)) => *a == *b,
            (None, None) => true,
            _ => false,
        };
        self.id == other.id && self.name == other.name && self.enabled == other.enabled
            && self.concurrency == other.concurrency && self.retry == other.retry && self.schedule
            == other.schedule && notifies && self.command == other.command
    }
}

impl PartialEqSpecImpl for TaskConfig {
    open spec fn obeys_eq_spec() -> bool {
        true
    }

    open spec fn eq_spec(&self, other: &Self) -> bool {
        same_task(self@, other@)
    }
}

impl Eq for TaskConfig {

}

// ---------------------------------------------------------------------------------------------
// Configurations
// ---------------------------------------------------------------------------------------------
/// The views of a list of tasks.
pub open spec fn task_views(v: Seq<TaskConfig>) -> Seq<TaskView> {
    Seq::new(v.len(), |i: int| v[i]@)
}

/// A configuration.
#[verifier::ext_equal]
pub struct AppView {
    pub version: u32,
    pub notifications: Option<NotificationsView>,
    pub tasks: Seq<TaskView>,
}

/// A configuration: the tasks, and how they notify.
#[derive(Debug)]
pub struct AppConfig {
    pub version: u32,
    pub notifications: Option<NotificationsConfig>,
    pub tasks: Vec<TaskConfig>,
}

impl View for AppConfig {
    type V = AppView;

    open spec fn view(&self) -> AppView {
        AppView {
            version: self.version,
            notifications: opt_notifications(self.notifications),
            tasks: task_views(self.tasks@),
        }
    }
}

/// The configuration without tasks.
pub open spec fn empty_config() -> AppView {
    AppView { version: 1, notifications: None, tasks: Seq::empty() }
}

impl Default for AppConfig {
    fn default() -> (r: Self)
        ensures
            r@ == empty_config(),
    {
        let r = AppConfig { version: 1, notifications: None, tasks: Vec::new() };
        assert(r@ =~= empty_config());
        r
    }
}

/// The position of the first task with an id among the tasks before `end`.
pub open spec fn task_position(tasks: Seq<TaskView>, id: Seq<char>, end: int) -> Option<int>
    decreases end,
{
    if end <= 0 {
        None
    } else {
        match task_position(tasks, id, end - 1) {
            Some(i) => Some(i),
            None => if tasks[end - 1].id == id {
                Some(end - 1)
            } else {
                None
            },
        }
    }
}

/// Where the task at a position stands in a configuration.
pub open spec fn task_path(i: int) -> Seq<char> {
    "tasks["@ + decimal(i as nat) + "]"@
}

/// The failure of a task whose id stands earlier in the list.
pub open spec fn duplicate_failure(tasks: Seq<TaskView>, i: int) -> Option<FailureView> {
    match task_position(tasks, tasks[i].id, i) {
        Some(previous) => Some(
            plain(
                task_path(i) + ".id duplicates task id '"@ + tasks[i].id
                    + "' already used by tasks["@ + decimal(previous as nat) + "].id"@,
            ),
        ),
        None => None,
    }
}

/// The first rule that the tasks from position `i` on break.
pub open spec fn tasks_failure(c: AppView, survey: Map<Seq<char>, PathKind>, i: int) -> Option<
    FailureView,
>
    decreases c.tasks.len() - i,
{
    if i < 0 || i >= c.tasks.len() {
        None
    } else {
        first(
            task_failure(c.tasks[i], task_path(i), c.notifications, survey),
            first(duplicate_failure(c.tasks, i), tasks_failure(c, survey, i + 1)),
        )
    }
}

/// The first rule that a configuration breaks.
pub open spec fn config_failure(c: AppView, survey: Map<Seq<char>, PathKind>) -> Option<
    FailureView,
> {
    if c.version != 1 {
        Some(plain("unsupported config version "@ + decimal(c.version as nat)))
    } else {
        first(
            match c.notifications {
                Some(n) => notifications_failure(n, "notifications"@, survey),
                None => None,
            },
            tasks_failure(c, survey, 0),
        )
    }
}

/// The position of the first task with an id among the tasks before `end`.
pub fn find_task(tasks: &Vec<TaskConfig>, id: &str, end: usize) -> (r: Option<usize>)
    requires
        end <= tasks@.len(),
    ensures
        match r {
            Some(i) => i < end && task_position(task_views(tasks@), id@, end as int) == Some(
                i as int,
            ) && tasks@[i as int].id@ == id@,
            None => task_position(task_views(tasks@), id@, end as int) is None,
        },
{
    let ghost views = task_views(tasks@);
    let mut i: usize = 0;
    while i < end
        invariant
            i <= end <= tasks@.len(),
            views == task_views(tasks@),
            task_position(views, id@, i as int) is None,
        decreases end - i,
    {
        if same_text(&tasks[i].id, id) {
            proof {
                lemma_position_stays(views, id@, i + 1, end as int);
            }
            return Some(i);
        }
        i = i + 1;
    }
    None
}

proof fn lemma_position_stays(tasks: Seq<TaskView>, id: Seq<char>, from: int, to: int)
    requires
        0 <= from <= to,
        task_position(tasks, id, from) is Some,
    ensures
        task_position(tasks, id, to) == task_position(tasks, id, from),
    decreases to - from,
{
    if from < to {
        lemma_position_stays(tasks, id, from, to - 1);
    }
}

/// The list with one task's `enabled` flag set.
pub open spec fn with_enabled(tasks: Seq<TaskView>, i: int, enabled: bool) -> Seq<TaskView> {
    tasks.update(i, TaskView { enabled, ..tasks[i] })
}

/// The first task with an id, over the whole list.
pub open spec fn position_of(c: AppView, id: Seq<char>) -> Option<int> {
    task_position(c.tasks, id, c.tasks.len() as int)
}

impl AppConfig {
    /// Checks the whole configuration: its version, its notifications, then each task in turn.
    pub fn validate(&self, survey: &PathSurvey) -> (r: Result<(), Failure>)
        ensures
            told(r) == config_failure(self@, survey@),
    {
        if self.version != 1 {
            return Err(
                Failure::new(
                    concat("unsupported config version ", &decimal_text(self.version as u64)),
                ),
            );
        }
        if let Some(notifications) = &self.notifications {
            let r = notifications.validate("notifications", survey);
            if r.is_err() {
                return r;
            }
        }
        let total: usize = self.tasks.len();
        let mut i: usize = 0;
        while i < total
            invariant
                i <= total == self.tasks@.len(),
                self.version == 1,
                tasks_failure(self@, survey@, 0) == tasks_failure(self@, survey@, i as int),
                config_failure(self@, survey@) == tasks_failure(self@, survey@, 0),
            decreases total - i,
        {
            let path = concat3("tasks[", &decimal_text(i as u64), "]");
            let task = &self.tasks[i];
            assert(self@.tasks[i as int] == task@);
            let r = task.validate(&path, &self.notifications, survey);
            if r.is_err() {
                return r;
            }
            if let Some(previous) = find_task(&self.tasks, &task.id, i) {
                let mut message = concat3(&path, ".id duplicates task id '", &task.id);
                message.append("' already used by tasks[");
                message.append(&decimal_text(previous as u64));
                message.append("].id");
                return Err(Failure::new(message));
            }
            i = i + 1;
        }
        Ok(())
    }

    /// The first task with the id.
    pub fn task(&self, id: &str) -> (r: Option<&TaskConfig>)
        ensures
            match r {
                Some(task) => position_of(self@, id@) is Some && task@
                    == self@.tasks[position_of(self@, id@)->0] && task@.id == id@,
                None => position_of(self@, id@) is None,
            },
    {
        match find_task(&self.tasks, id, self.tasks.len()) {
            Some(i) => {
                assert(self@.tasks[i as int] == self.tasks@[i as int]@);
                Some(&self.tasks[i])
            },
            None => None,
        }
    }

    /// Adds a task at the end, unless its id is taken.
    pub fn add_task(&mut self, task: TaskConfig) -> (r: Result<(), Failure>)
        ensures
            match position_of(old(self)@, task@.id) {
                Some(_) => told(r) == Some(plain("task '"@ + task@.id + "' already exists"@))
                    && final(self)@ == old(self)@,
                None => r is Ok && final(self)@ == (AppView {
                    tasks: old(self)@.tasks.push(task@),
                    ..old(self)@
                }),
            },
    {
        if find_task(&self.tasks, &task.id, self.tasks.len()).is_some() {
            return Err(Failure::new(concat3("task '", &task.id, "' already exists")));
        }
        self.tasks.push(task);
        assert(self@.tasks =~= old(self)@.tasks.push(task@));
        Ok(())
    }

    /// Removes the first task with the id, and returns that id.
    pub fn remove_task(&mut self, id: &str) -> (r: Result<String, Failure>)
        ensures
            match position_of(old(self)@, id@) {
                Some(i) => r is Ok && r->Ok_0@ == id@ && final(self)@ == (AppView {
                    tasks: old(self)@.tasks.remove(i),
                    ..old(self)@
                }),
                None => told(r) == Some(plain("task '"@ + id@ + "' not found"@)) && final(self)@
                    == old(self)@,
            },
    {
        match find_task(&self.tasks, id, self.tasks.len()) {
            Some(i) => {
                let removed = self.tasks.remove(i);
                assert(self@.tasks =~= old(self)@.tasks.remove(i as int));
                Ok(removed.id)
            },
            None => Err(Failure::new(concat3("task '", id, "' not found"))),
        }
    }

    /// Enables or disables the first task with the id.
    pub fn set_enabled(&mut self, id: &str, enabled: bool) -> (r: Result<(), Failure>)
        ensures
            match position_of(old(self)@, id@) {
                Some(i) => r is Ok && final(self)@ == (AppView {
                    tasks: with_enabled(old(self)@.tasks, i, enabled),
                    ..old(self)@
                }),
                None => told(r) == Some(plain("task '"@ + id@ + "' not found"@)) && final(self)@
                    == old(self)@,
            },
    {
        match find_task(&self.tasks, id, self.tasks.len()) {
            Some(i) => {
                let mut task = self.tasks[i].clone();
                task.enabled = enabled;
                assert(old(self)@.tasks[i as int] == old(self).tasks@[i as int]@);
                self.tasks.set(i, task);
                assert(self@.tasks =~= with_enabled(old(self)@.tasks, i as int, enabled));
                Ok(())
            },
            None => Err(Failure::new(concat3("task '", id, "' not found"))),
        }
    }
}

/// A copy of a list of tasks.
pub fn copy_tasks(v: &Vec<TaskConfig>) -> (r: Vec<TaskConfig>)
    ensures
        task_views(r@) == task_views(v@),
{
    let mut r: Vec<TaskConfig> = Vec::new();
    let mut i: usize = 0;
    while i < v.len()
        invariant
            i <= v@.len(),
            r@.len() == i,
            forall|j: int| 0 <= j < i ==> (#[trigger] r@[j])@ == v@[j]@,
        decreases v@.len() - i,
    {
        r.push(v[i].clone());
        i = i + 1;
    }
    assert(task_views(r@) =~= task_views(v@));
    r
}

/// Whether two lists hold the same tasks.
pub open spec fn same_task_lists(a: Seq<TaskView>, b: Seq<TaskView>) -> bool {
    a.len() == b.len() && forall|i: int| 0 <= i < a.len() ==> same_task(#[trigger] a[i], b[i])
}

/// Whether two optional notification settings are the same.
pub open spec fn same_opt_notifier(
    a: Option<NotificationsView>,
    b: Option<NotificationsView>,
) -> bool {
    match (a, b) {
        (Some(x), Some(y)) => same_notifier(x, y),
        (None, None) => true,
        _ => false,
    }
}

/// Whether two configurations are the same. The spelling of a path does not count.
pub open spec fn same_app(a: AppView, b: AppView) -> bool {
    &&& a.version == b.version
    &&& same_opt_notifier(a.notifications, b.notifications)
    &&& same_task_lists(a.tasks, b.tasks)
}

/// Whether two lists hold the same tasks.
pub fn same_tasks(x: &Vec<TaskConfig>, y: &Vec<TaskConfig>) -> (r: bool)
    ensures
        r == same_task_lists(task_views(x@), task_views(y@)),
{
    if x.len() != y.len() {
        assert(task_views(x@).len() != task_views(y@).len());
        return false;
    }
    let mut i: usize = 0;
    while i < x.len()
        invariant
            i <= x@.len(),
            x@.len() == y@.len(),
            forall|j: int|
                0 <= j < i ==> same_task(#[trigger] task_views(x@)[j], task_views(y@)[j]),
        decreases x@.len() - i,
    {
        if x[i] != y[i] {
            assert(!same_task(task_views(x@)[i as int], task_views(y@)[i as int]));
            return false;
        }
        i = i + 1;
    }
    true
}

/// A copy of an optional notification setting.
pub fn copy_notifications(n: &Option<NotificationsConfig>) -> (r: Option<NotificationsConfig>)
    ensures
        opt_notifications(r) == opt_notifications(*n),
{
    match n {
        Some(n) => Some(n.clone()),
        None => None,
    }
}

/// Whether two optional notification settings are the same.
pub fn same_notifications(
    a: &Option<NotificationsConfig>,
    b: &Option<NotificationsConfig>,
) -> (r: bool)
    ensures
        r == same_opt_notifier(opt_notifications(*a), opt_notifications(*b)),
{
    match (a, b) {
        (Some(x), Some(y)) => *x == *y,
        (None, None) => true,
        _ => false,
    }
}

impl Clone for AppConfig {
    fn clone(&self) -> (r: Self)
        ensures
            r@ == self@,
    {
        AppConfig {
            version: self.version,
            notifications: copy_notifications(&self.notifications),
            tasks: copy_tasks(&self.tasks),
        }
    }
}

impl PartialEq for AppConfig {
    fn eq(&self, other: &Self) -> (r: bool) {
        self.version == other.version && same_notifications(
            &self.notifications,
            &other.notifications,
        ) && same_tasks(&self.tasks, &other.tasks)
    }
}

impl PartialEqSpecImpl for AppConfig {
    open spec fn obeys_eq_spec() -> bool {
        true
    }

    open spec fn eq_spec(&self, other: &Self) -> bool {
        same_app(self@, other@)
    }
}

impl Eq for AppConfig {

}

// ---------------------------------------------------------------------------------------------
// Reading and writing configuration files
// ---------------------------------------------------------------------------------------------
/// What came of reading and parsing a configuration file. The texts are the errors below.
#[derive(Debug)]
pub enum ConfigRead {
    Parsed(AppConfig),
    Missing(String),
    Unreadable(String),
    Unparsable(String),
}

/// The failure of a configuration file that yielded no configuration.
pub open spec fn load_failure(path: Seq<char>, read: ConfigRead) -> Option<FailureView> {
    match read {
        ConfigRead::Parsed(_) => None,
        ConfigRead::Missing(error) => Some(
            caused("failed to read config '"@ + path + "'"@, error@),
        ),
        ConfigRead::Unreadable(error) => Some(
            caused("failed to read config '"@ + path + "'"@, error@),
        ),
        ConfigRead::Unparsable(error) => Some(
            caused("failed to parse yaml '"@ + path + "'"@, error@),
        ),
    }
}

/// What came of writing a file: its directory is created, its contents are encoded and written,
/// in that order. The texts are the errors below.
#[derive(Debug)]
pub enum FileWrite {
    Written,
    DirectoryFault(String),
    EncodeFault(String),
    WriteFault(String),
}

/// The failure of a file that was not written. The three texts say what the file is.
pub open spec fn write_failure(
    directory_words: Seq<char>,
    encode_words: Seq<char>,
    write_words: Seq<char>,
    path: Seq<char>,
    write: FileWrite,
) -> Option<FailureView> {
    match write {
        FileWrite::Written => None,
        FileWrite::DirectoryFault(error) => Some(
            caused(
                directory_words + " '"@ + crate::paths::directory_of(path) + "'"@,
                error@,
            ),
        ),
        FileWrite::EncodeFault(error) => Some(caused(encode_words, error@)),
        FileWrite::WriteFault(error) => Some(caused(write_words + " '"@ + path + "'"@, error@)),
    }
}

/// Reports what came of writing a file.
pub fn judge_write(
    directory_words: &str,
    encode_words: &str,
    write_words: &str,
    path: &str,
    write: &FileWrite,
) -> (r: Result<(), Failure>)
    ensures
        told(r) == write_failure(
            directory_words@,
            encode_words@,
            write_words@,
            path@,
            *write,
        ),
{
    match write {
        FileWrite::Written => Ok(()),
        FileWrite::DirectoryFault(error) => {
            let mut message = concat3(directory_words, " '", &crate::paths::directory(path));
            message.append("'");
            Err(Failure::caused_by(message, error))
        },
        FileWrite::EncodeFault(error) => Err(Failure::caused_by(encode_words.to_owned(), error)),
        FileWrite::WriteFault(error) => {
            let mut message = concat3(write_words, " '", path);
            message.append("'");
            Err(Failure::caused_by(message, error))
        },
    }
}

impl AppConfig {
    /// The configuration that a file holds.
    pub fn load(path: &str, read: ConfigRead) -> (r: Result<AppConfig, Failure>)
        ensures
            told(r) == load_failure(path@, read),
            read is Parsed ==> r == Ok::<AppConfig, Failure>(read->Parsed_0),
    {
        match read {
            ConfigRead::Parsed(config) => Ok(config),
            ConfigRead::Missing(error) => Err(
                Failure::caused_by(concat3("failed to read config '", path, "'"), &error),
            ),
            ConfigRead::Unreadable(error) => Err(
                Failure::caused_by(concat3("failed to read config '", path, "'"), &error),
            ),
            ConfigRead::Unparsable(error) => Err(
                Failure::caused_by(concat3("failed to parse yaml '", path, "'"), &error),
            ),
        }
    }

    /// The configuration that a file holds, or the empty one where there is no file.
    pub fn load_or_default(path: &str, read: ConfigRead) -> (r: Result<AppConfig, Failure>)
        ensures
            match read {
                ConfigRead::Missing(_) => r is Ok && r->Ok_0@ == empty_config(),
                _ => told(r) == load_failure(path@, read),
            },
            read is Parsed ==> r == Ok::<AppConfig, Failure>(read->Parsed_0),
    {
        match read {
            ConfigRead::Missing(_) => Ok(AppConfig::default()),
            _ => AppConfig::load(path, read),
        }
    }

    /// Reports what came of writing the configuration to a file.
    pub fn write(&self, path: &str, write: &FileWrite) -> (r: Result<(), Failure>)
        ensures
            told(r) == write_failure(
                "failed to create config directory"@,
                "failed to serialize config"@,
                "failed to write config"@,
                path@,
                *write,
            ),
    {
        judge_write(
            "failed to create config directory",
            "failed to serialize config",
            "failed to write config",
            path,
            write,
        )
    }
}

// ---------------------------------------------------------------------------------------------
// The paths that validation looks at
// ---------------------------------------------------------------------------------------------
/// An optional path as a list.
pub open spec fn opt_list(o: Option<Seq<char>>) -> Seq<Seq<char>> {
    match o {
        Some(p) => seq![p],
        None => Seq::empty(),
    }
}

/// The paths that checking a notification setting looks at.
pub open spec fn notification_paths(n: Option<NotificationsView>) -> Seq<Seq<char>> {
    match n {
        Some(n) => match n.renderer {
            Some(r) => seq![r.workdir] + opt_list(r.session_dir) + opt_list(r.agent_dir),
            None => Seq::empty(),
        },
        None => Seq::empty(),
    }
}

/// The working directories of the first `n` tasks.
pub open spec fn task_paths(tasks: Seq<TaskView>, n: int) -> Seq<Seq<char>>
    decreases n,
{
    if n <= 0 {
        Seq::empty()
    } else {
        task_paths(tasks, n - 1) + opt_list(tasks[n - 1].command.workdir)
    }
}

/// The paths that checking a configuration looks at.
pub open spec fn config_paths(c: AppView) -> Seq<Seq<char>> {
    notification_paths(c.notifications) + task_paths(c.tasks, c.tasks.len() as int)
}

fn push_opt(v: &mut Vec<String>, o: &Option<String>)
    ensures
        texts(final(v)@) == texts(old(v)@) + opt_list(opt_text(*o)),
{
    if let Some(s) = o {
        v.push(s.clone());
    }
    assert(texts(v@) =~= texts(old(v)@) + opt_list(opt_text(*o)));
}

impl AppConfig {
    /// The paths that checking the configuration looks at.
    pub fn paths_to_survey(&self) -> (r: Vec<String>)
        ensures
            texts(r@) == config_paths(self@),
    {
        let mut r: Vec<String> = Vec::new();
        assert(texts(r@) =~= Seq::<Seq<char>>::empty());
        if let Some(n) = &self.notifications {
            if let Some(renderer) = &n.renderer {
                r.push(renderer.workdir.clone());
                assert(texts(r@) =~= seq![renderer.workdir@]);
                push_opt(&mut r, &renderer.session_dir);
                push_opt(&mut r, &renderer.agent_dir);
            }
        }
        assert(texts(r@) == notification_paths(self@.notifications));
        let mut i: usize = 0;
        assert(texts(r@) =~= notification_paths(self@.notifications) + task_paths(self@.tasks, 0));
        while i < self.tasks.len()
            invariant
                i <= self.tasks@.len(),
                texts(r@) == notification_paths(self@.notifications) + task_paths(
                    self@.tasks,
                    i as int,
                ),
            decreases self.tasks@.len() - i,
        {
            let ghost prior = texts(r@);
            push_opt(&mut r, &self.tasks[i].command.workdir);
            i = i + 1;
            assert(self@.tasks[i - 1] == self.tasks@[i - 1]@);
            assert(texts(r@) =~= notification_paths(self@.notifications) + task_paths(
                self@.tasks,
                i as int,
            ));
        }
        r
    }
}

} // verus!

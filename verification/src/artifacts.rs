//! Artifact workflows: their configuration and the rules that it has to meet.

use vstd::prelude::*;

use crate::calendar::{zone_error, zone_fault};
use crate::config::{is_valid_task_id, valid_id};
use crate::failure::{caused, first, plain, told, Failure, FailureView};
use crate::template::{template_failure, validate_template_string};
use crate::text::{
    blank, concat, concat3, concat5, copy_opt, copy_texts, decimal, decimal_text, is_blank,
    opt_text, same_text, texts,
};
use crate::text_map::{copy_env, text_pairs, EnvMap};

verus! {

// ---------------------------------------------------------------------------------------------
// Commands
// ---------------------------------------------------------------------------------------------
/// A command of a workflow.
pub struct ArtifactCommandView {
    pub program: Seq<char>,
    pub args: Seq<Seq<char>>,
    pub workdir: Option<Seq<char>>,
    pub env: Seq<(Seq<char>, Seq<char>)>,
}

/// A command of a workflow. Its texts are templates.
#[derive(Debug)]
pub struct ArtifactCommandConfig {
    pub program: String,
    pub args: Vec<String>,
    pub workdir: Option<String>,
    pub env: EnvMap,
}

impl View for ArtifactCommandConfig {
    type V = ArtifactCommandView;

    open spec fn view(&self) -> ArtifactCommandView {
        ArtifactCommandView {
            program: self.program@,
            args: texts(self.args@),
            workdir: opt_text(self.workdir),
            env: text_pairs(self.env),
        }
    }
}

impl Clone for ArtifactCommandConfig {
    fn clone(&self) -> (r: Self)
        ensures
            r@ == self@,
    {
        ArtifactCommandConfig {
            program: self.program.clone(),
            args: copy_texts(&self.args),
            workdir: copy_opt(&self.workdir),
            env: copy_env(&self.env),
        }
    }
}

/// The failure of the first argument from position `i` on that is no template.
pub open spec fn args_failure(args: Seq<Seq<char>>, path: Seq<char>, i: int) -> Option<FailureView>
    decreases args.len() - i,
{
    if i < 0 || i >= args.len() {
        None
    } else {
        first(
            template_failure(args[i], path + ".args["@ + decimal(i as nat) + "]"@),
            args_failure(args, path, i + 1),
        )
    }
}

/// The failure of the first variable from position `i` on that has no name or is no template.
pub open spec fn env_failure(
    env: Seq<(Seq<char>, Seq<char>)>,
    path: Seq<char>,
    i: int,
) -> Option<FailureView>
    decreases env.len() - i,
{
    if i < 0 || i >= env.len() {
        None
    } else if blank(env[i].0) {
        Some(plain(path + ".env contains an empty key"@))
    } else {
        first(
            template_failure(env[i].1, path + ".env."@ + env[i].0),
            env_failure(env, path, i + 1),
        )
    }
}

/// The first rule that a command of a workflow breaks.
pub open spec fn artifact_command_failure(
    c: ArtifactCommandView,
    path: Seq<char>,
) -> Option<FailureView> {
    if blank(c.program) {
        Some(plain(path + ".program must not be empty"@))
    } else {
        first(
            template_failure(c.program, path + ".program"@),
            first(
                args_failure(c.args, path, 0),
                first(
                    match c.workdir {
                        Some(dir) => template_failure(dir, path + ".workdir"@),
                        None => None,
                    },
                    env_failure(c.env, path, 0),
                ),
            ),
        )
    }
}

impl ArtifactCommandConfig {
    fn validate_args(&self, command_path: &str) -> (r: Result<(), Failure>)
        ensures
            told(r) == args_failure(self@.args, command_path@, 0),
    {
        let mut i: usize = 0;
        while i < self.args.len()
            invariant
                i <= self.args@.len(),
                args_failure(self@.args, command_path@, 0) == args_failure(
                    self@.args,
                    command_path@,
                    i as int,
                ),
            decreases self.args@.len() - i,
        {
            let mut field = concat3(command_path, ".args[", &decimal_text(i as u64));
            field.append("]");
            assert(self@.args[i as int] == self.args@[i as int]@);
            let r = validate_template_string(&self.args[i], &field);
            if r.is_err() {
                return r;
            }
            i = i + 1;
        }
        Ok(())
    }

    fn validate_env(&self, command_path: &str) -> (r: Result<(), Failure>)
        ensures
            told(r) == env_failure(self@.env, command_path@, 0),
    {
        let n: usize = self.env.len();
        let mut i: usize = 0;
        while i < n
            invariant
                i <= n == self.env.pairs().len(),
                env_failure(self@.env, command_path@, 0) == env_failure(
                    self@.env,
                    command_path@,
                    i as int,
                ),
            decreases n - i,
        {
            let key = self.env.key(i);
            if is_blank(key) {
                return Err(Failure::new(concat(command_path, ".env contains an empty key")));
            }
            let r = validate_template_string(
                self.env.value(i),
                &concat3(command_path, ".env.", key),
            );
            if r.is_err() {
                return r;
            }
            i = i + 1;
        }
        Ok(())
    }

    /// Checks the command that stands at `command_path` of the configuration.
    pub fn validate(&self, command_path: &str) -> (r: Result<(), Failure>)
        ensures
            told(r) == artifact_command_failure(self@, command_path@),
    {
        if is_blank(&self.program) {
            return Err(Failure::new(concat(command_path, ".program must not be empty")));
        }
        let r = validate_template_string(&self.program, &concat(command_path, ".program"));
        if r.is_err() {
            return r;
        }
        let r = self.validate_args(command_path);
        if r.is_err() {
            return r;
        }
        if let Some(dir) = &self.workdir {
            let r = validate_template_string(dir, &concat(command_path, ".workdir"));
            if r.is_err() {
                return r;
            }
        }
        self.validate_env(command_path)
    }
}

// ---------------------------------------------------------------------------------------------
// Collectors and sinks
// ---------------------------------------------------------------------------------------------
/// A collector or a sink.
pub struct ArtifactStepView {
    pub id: Seq<char>,
    pub enabled: bool,
    pub command: ArtifactCommandView,
}

/// A command that collects one record.
#[derive(Debug)]
pub struct ArtifactCollectorConfig {
    pub id: String,
    pub enabled: bool,
    pub command: ArtifactCommandConfig,
}

impl View for ArtifactCollectorConfig {
    type V = ArtifactStepView;

    open spec fn view(&self) -> ArtifactStepView {
        ArtifactStepView { id: self.id@, enabled: self.enabled, command: self.command@ }
    }
}

/// A command that delivers a rendered artifact.
#[derive(Debug)]
pub struct ArtifactSinkConfig {
    pub id: String,
    pub enabled: bool,
    pub command: ArtifactCommandConfig,
}

impl View for ArtifactSinkConfig {
    type V = ArtifactStepView;

    open spec fn view(&self) -> ArtifactStepView {
        ArtifactStepView { id: self.id@, enabled: self.enabled, command: self.command@ }
    }
}

/// Whether a collector or sink is enabled unless told otherwise.
pub fn default_enabled() -> (r: bool)
    ensures
        r,
{
    true
}

/// Whether the text is an id: letters, digits, `-`, `_` and `.`, and at least one of them.
pub fn is_valid_identifier(id: &str) -> (r: bool)
    ensures
        r == valid_id(id@),
{
    is_valid_task_id(id)
}

/// The first rule that a collector or sink breaks.
pub open spec fn step_failure(s: ArtifactStepView, path: Seq<char>) -> Option<FailureView> {
    if !valid_id(s.id) {
        Some(plain(path + ".id must use only letters, digits, '-', '_' or '.'"@))
    } else {
        artifact_command_failure(s.command, path + ".command"@)
    }
}

fn check_step(id: &str, command: &ArtifactCommandConfig, path: &str) -> (r: Result<(), Failure>)
    ensures
        forall|enabled: bool|
            told(r) == #[trigger] step_failure(
                ArtifactStepView { id: id@, enabled, command: command@ },
                path@,
            ),
{
    if !is_valid_identifier(id) {
        return Err(
            Failure::new(concat(path, ".id must use only letters, digits, '-', '_' or '.'")),
        );
    }
    command.validate(&concat(path, ".command"))
}

impl ArtifactCollectorConfig {
    /// Checks the collector that stands at `collector_path` of the configuration.
    pub fn validate(&self, collector_path: &str) -> (r: Result<(), Failure>)
        ensures
            told(r) == step_failure(self@, collector_path@),
    {
        check_step(&self.id, &self.command, collector_path)
    }
}

impl ArtifactSinkConfig {
    /// Checks the sink that stands at `sink_path` of the configuration.
    pub fn validate(&self, sink_path: &str) -> (r: Result<(), Failure>)
        ensures
            told(r) == step_failure(self@, sink_path@),
    {
        check_step(&self.id, &self.command, sink_path)
    }
}

impl Clone for ArtifactCollectorConfig {
    fn clone(&self) -> (r: Self)
        ensures
            r@ == self@,
    {
        ArtifactCollectorConfig {
            id: self.id.clone(),
            enabled: self.enabled,
            command: self.command.clone(),
        }
    }
}

impl Clone for ArtifactSinkConfig {
    fn clone(&self) -> (r: Self)
        ensures
            r@ == self@,
    {
        ArtifactSinkConfig {
            id: self.id.clone(),
            enabled: self.enabled,
            command: self.command.clone(),
        }
    }
}

/// The views of a list of collectors.
pub open spec fn collector_views(v: Seq<ArtifactCollectorConfig>) -> Seq<ArtifactStepView> {
    Seq::new(v.len(), |i: int| v[i]@)
}

/// The views of a list of sinks.
pub open spec fn sink_views(v: Seq<ArtifactSinkConfig>) -> Seq<ArtifactStepView> {
    Seq::new(v.len(), |i: int| v[i]@)
}

/// Whether an id stands before position `i` of a list.
pub open spec fn step_id_taken(list: Seq<ArtifactStepView>, i: int) -> bool {
    exists|k: int| 0 <= k < i && (#[trigger] list[k]).id == list[i].id
}

/// Where a collector or sink stands in a configuration.
pub open spec fn step_path(base: Seq<char>, part: Seq<char>, i: int) -> Seq<char> {
    base + part + "["@ + decimal(i as nat) + "]"@
}

/// The first rule that the collectors or sinks from position `i` on break.
pub open spec fn steps_failure(
    list: Seq<ArtifactStepView>,
    base: Seq<char>,
    part: Seq<char>,
    word: Seq<char>,
    i: int,
) -> Option<FailureView>
    decreases list.len() - i,
{
    if i < 0 || i >= list.len() {
        None
    } else {
        let path = step_path(base, part, i);
        first(
            step_failure(list[i], path),
            first(
                if step_id_taken(list, i) {
                    Some(
                        plain(path + ".id duplicates "@ + word + " id '"@ + list[i].id + "'"@),
                    )
                } else {
                    None
                },
                steps_failure(list, base, part, word, i + 1),
            ),
        )
    }
}

fn collector_id_taken(v: &Vec<ArtifactCollectorConfig>, i: usize) -> (r: bool)
    requires
        i < v@.len(),
    ensures
        r == step_id_taken(collector_views(v@), i as int),
{
    let ghost list = collector_views(v@);
    assert(list[i as int] == v@[i as int]@);
    let mut k: usize = 0;
    while k < i
        invariant
            k <= i < v@.len(),
            list == collector_views(v@),
            list[i as int] == v@[i as int]@,
            forall|m: int| 0 <= m < k ==> (#[trigger] list[m]).id != list[i as int].id,
        decreases i - k,
    {
        assert(list[k as int] == v@[k as int]@);
        if same_text(&v[k].id, &v[i].id) {
            assert(step_id_taken(list, i as int));
            return true;
        }
        k = k + 1;
    }
    false
}

fn sink_id_taken(v: &Vec<ArtifactSinkConfig>, i: usize) -> (r: bool)
    requires
        i < v@.len(),
    ensures
        r == step_id_taken(sink_views(v@), i as int),
{
    let ghost list = sink_views(v@);
    assert(list[i as int] == v@[i as int]@);
    let mut k: usize = 0;
    while k < i
        invariant
            k <= i < v@.len(),
            list == sink_views(v@),
            list[i as int] == v@[i as int]@,
            forall|m: int| 0 <= m < k ==> (#[trigger] list[m]).id != list[i as int].id,
        decreases i - k,
    {
        assert(list[k as int] == v@[k as int]@);
        if same_text(&v[k].id, &v[i].id) {
            assert(step_id_taken(list, i as int));
            return true;
        }
        k = k + 1;
    }
    false
}

fn step_path_text(base: &str, part: &str, i: usize) -> (r: String)
    ensures
        r@ == step_path(base@, part@, i as int),
{
    concat5(base, part, "[", &decimal_text(i as u64), "]")
}

fn duplicate_step(path: &str, word: &str, id: &str) -> (r: Failure)
    ensures
        r@ == plain(path@ + ".id duplicates "@ + word@ + " id '"@ + id@ + "'"@),
{
    let mut message = concat5(path, ".id duplicates ", word, " id '", id);
    message.append("'");
    Failure::new(message)
}

// ---------------------------------------------------------------------------------------------
// Workflows
// ---------------------------------------------------------------------------------------------
/// A workflow.
pub struct ArtifactView {
    pub id: Seq<char>,
    pub timezone: Seq<char>,
    pub workdir: Seq<char>,
    pub collectors: Seq<ArtifactStepView>,
    pub renderer: ArtifactCommandView,
    pub sinks: Seq<ArtifactStepView>,
}

/// A workflow: collectors whose records a renderer turns into an artifact, which sinks deliver.
#[derive(Debug)]
pub struct ArtifactConfig {
    pub id: String,
    pub timezone: String,
    pub workdir: String,
    pub collectors: Vec<ArtifactCollectorConfig>,
    pub renderer: ArtifactCommandConfig,
    pub sinks: Vec<ArtifactSinkConfig>,
}

impl View for ArtifactConfig {
    type V = ArtifactView;

    open spec fn view(&self) -> ArtifactView {
        ArtifactView {
            id: self.id@,
            timezone: self.timezone@,
            workdir: self.workdir@,
            collectors: collector_views(self.collectors@),
            renderer: self.renderer@,
            sinks: sink_views(self.sinks@),
        }
    }
}

/// The first rule that a workflow breaks, given what reading its time zone reports.
pub open spec fn artifact_failure_given(
    a: ArtifactView,
    path: Seq<char>,
    timezone_fault: Option<Seq<char>>,
) -> Option<FailureView> {
    if !valid_id(a.id) {
        Some(plain(path + ".id must use only letters, digits, '-', '_' or '.'"@))
    } else if blank(a.timezone) {
        Some(plain(path + ".timezone must not be empty"@))
    } else if timezone_fault is Some {
        Some(
            caused(
                path + ".timezone has invalid timezone '"@ + a.timezone + "'"@,
                timezone_fault->0,
            ),
        )
    } else if a.collectors.len() == 0 {
        Some(plain(path + ".collectors must contain at least one collector"@))
    } else {
        first(
            steps_failure(a.collectors, path, ".collectors"@, "collector"@, 0),
            first(
                artifact_command_failure(a.renderer, path + ".renderer.command"@),
                steps_failure(a.sinks, path, ".sinks"@, "sink"@, 0),
            ),
        )
    }
}

/// The first rule that a workflow breaks.
pub open spec fn artifact_failure(a: ArtifactView, path: Seq<char>) -> Option<FailureView> {
    artifact_failure_given(a, path, zone_fault(a.timezone))
}

impl ArtifactConfig {
    fn validate_collectors(&self, artifact_path: &str) -> (r: Result<(), Failure>)
        ensures
            told(r) == steps_failure(
                self@.collectors,
                artifact_path@,
                ".collectors"@,
                "collector"@,
                0,
            ),
    {
        let ghost list = self@.collectors;
        let mut i: usize = 0;
        while i < self.collectors.len()
            invariant
                i <= self.collectors@.len(),
                list == self@.collectors,
                steps_failure(list, artifact_path@, ".collectors"@, "collector"@, 0)
                    == steps_failure(
                    list,
                    artifact_path@,
                    ".collectors"@,
                    "collector"@,
                    i as int,
                ),
            decreases self.collectors@.len() - i,
        {
            let path = step_path_text(artifact_path, ".collectors", i);
            assert(list[i as int] == self.collectors@[i as int]@);
            let r = self.collectors[i].validate(&path);
            if r.is_err() {
                return r;
            }
            if collector_id_taken(&self.collectors, i) {
                return Err(duplicate_step(&path, "collector", &self.collectors[i].id));
            }
            i = i + 1;
        }
        Ok(())
    }

    fn validate_sinks(&self, artifact_path: &str) -> (r: Result<(), Failure>)
        ensures
            told(r) == steps_failure(self@.sinks, artifact_path@, ".sinks"@, "sink"@, 0),
    {
        let ghost list = self@.sinks;
        let mut i: usize = 0;
        while i < self.sinks.len()
            invariant
                i <= self.sinks@.len(),
                list == self@.sinks,
                steps_failure(list, artifact_path@, ".sinks"@, "sink"@, 0) == steps_failure(
                    list,
                    artifact_path@,
                    ".sinks"@,
                    "sink"@,
                    i as int,
                ),
            decreases self.sinks@.len() - i,
        {
            let path = step_path_text(artifact_path, ".sinks", i);
            assert(list[i as int] == self.sinks@[i as int]@);
            let r = self.sinks[i].validate(&path);
            if r.is_err() {
                return r;
            }
            if sink_id_taken(&self.sinks, i) {
                return Err(duplicate_step(&path, "sink", &self.sinks[i].id));
            }
            i = i + 1;
        }
        Ok(())
    }

    /// Checks the workflow that stands at `artifact_path` of the configuration, given what reading
    /// its time zone reports.
    pub fn judge(&self, artifact_path: &str, timezone_fault: &Option<String>) -> (r: Result<
        (),
        Failure,
    >)
        ensures
            told(r) == artifact_failure_given(self@, artifact_path@, opt_text(*timezone_fault)),
    {
        if !is_valid_identifier(&self.id) {
            return Err(
                Failure::new(
                    concat(artifact_path, ".id must use only letters, digits, '-', '_' or '.'"),
                ),
            );
        }
        if is_blank(&self.timezone) {
            return Err(Failure::new(concat(artifact_path, ".timezone must not be empty")));
        }
        if let Some(fault) = timezone_fault {
            let mut message = concat3(
                artifact_path,
                ".timezone has invalid timezone '",
                &self.timezone,
            );
            message.append("'");
            return Err(Failure::caused_by(message, fault));
        }
        if self.collectors.len() == 0 {
            return Err(
                Failure::new(
                    concat(artifact_path, ".collectors must contain at least one collector"),
                ),
            );
        }
        let r = self.validate_collectors(artifact_path);
        if r.is_err() {
            return r;
        }
        let r = self.renderer.validate(&concat(artifact_path, ".renderer.command"));
        if r.is_err() {
            return r;
        }
        self.validate_sinks(artifact_path)
    }

    /// Checks the workflow that stands at `artifact_path` of the configuration.
    pub fn validate(&self, artifact_path: &str) -> (r: Result<(), Failure>)
        ensures
            told(r) == artifact_failure(self@, artifact_path@),
    {
        let fault = zone_error(&self.timezone);
        self.judge(artifact_path, &fault)
    }
}

/// The views of a list of workflows.
pub open spec fn artifact_views(v: Seq<ArtifactConfig>) -> Seq<ArtifactView> {
    Seq::new(v.len(), |i: int| v[i]@)
}

/// A configuration of workflows.
#[derive(Debug)]
pub struct ArtifactsConfig {
    pub version: u32,
    pub artifacts: Vec<ArtifactConfig>,
}

/// A configuration of workflows.
pub struct ArtifactsView {
    pub version: u32,
    pub artifacts: Seq<ArtifactView>,
}

impl View for ArtifactsConfig {
    type V = ArtifactsView;

    open spec fn view(&self) -> ArtifactsView {
        ArtifactsView { version: self.version, artifacts: artifact_views(self.artifacts@) }
    }
}

/// Whether the id of a workflow stands before it in the list.
pub open spec fn artifact_id_taken(list: Seq<ArtifactView>, i: int) -> bool {
    exists|k: int| 0 <= k < i && (#[trigger] list[k]).id == list[i].id
}

fn workflow_id_taken(v: &Vec<ArtifactConfig>, i: usize) -> (r: bool)
    requires
        i < v@.len(),
    ensures
        r == artifact_id_taken(artifact_views(v@), i as int),
{
    let ghost list = artifact_views(v@);
    assert(list[i as int] == v@[i as int]@);
    let mut k: usize = 0;
    while k < i
        invariant
            k <= i < v@.len(),
            list == artifact_views(v@),
            list[i as int] == v@[i as int]@,
            forall|m: int| 0 <= m < k ==> (#[trigger] list[m]).id != list[i as int].id,
        decreases i - k,
    {
        assert(list[k as int] == v@[k as int]@);
        if same_text(&v[k].id, &v[i].id) {
            assert(artifact_id_taken(list, i as int));
            return true;
        }
        k = k + 1;
    }
    false
}

/// Where a workflow stands in a configuration.
pub open spec fn artifact_path(i: int) -> Seq<char> {
    "artifacts["@ + decimal(i as nat) + "]"@
}

/// The first rule that the workflows from position `i` on break.
pub open spec fn artifacts_failure(list: Seq<ArtifactView>, i: int) -> Option<FailureView>
    decreases list.len() - i,
{
    if i < 0 || i >= list.len() {
        None
    } else {
        first(
            artifact_failure(list[i], artifact_path(i)),
            first(
                if artifact_id_taken(list, i) {
                    Some(
                        plain(
                            artifact_path(i) + ".id duplicates artifact id '"@ + list[i].id
                                + "'"@,
                        ),
                    )
                } else {
                    None
                },
                artifacts_failure(list, i + 1),
            ),
        )
    }
}

/// The first rule that a configuration of workflows breaks.
pub open spec fn artifacts_config_failure(c: ArtifactsView) -> Option<FailureView> {
    if c.version != 1 {
        Some(plain("unsupported artifacts config version "@ + decimal(c.version as nat)))
    } else {
        artifacts_failure(c.artifacts, 0)
    }
}

/// What came of reading and parsing a configuration of workflows. The texts are the errors below.
#[derive(Debug)]
pub enum ArtifactsRead {
    Parsed(ArtifactsConfig),
    Unreadable(String),
    Unparsable(String),
}

/// The failure of a file that yielded no configuration of workflows.
pub open spec fn artifacts_load_failure(
    path: Seq<char>,
    read: ArtifactsRead,
) -> Option<FailureView> {
    match read {
        ArtifactsRead::Parsed(_) => None,
        ArtifactsRead::Unreadable(e) => Some(
            caused("failed to read artifacts config '"@ + path + "'"@, e@),
        ),
        ArtifactsRead::Unparsable(e) => Some(
            caused("failed to parse yaml '"@ + path + "'"@, e@),
        ),
    }
}

/// The position of the first workflow with an id from position `i` on.
pub open spec fn artifact_position(list: Seq<ArtifactView>, id: Seq<char>, i: int) -> Option<int>
    decreases list.len() - i,
{
    if i < 0 || i >= list.len() {
        None
    } else if list[i].id == id {
        Some(i)
    } else {
        artifact_position(list, id, i + 1)
    }
}

impl ArtifactsConfig {
    /// The configuration that a file holds.
    pub fn load(path: &str, read: ArtifactsRead) -> (r: Result<ArtifactsConfig, Failure>)
        ensures
            told(r) == artifacts_load_failure(path@, read),
            read is Parsed ==> r == Ok::<ArtifactsConfig, Failure>(read->Parsed_0),
    {
        match read {
            ArtifactsRead::Parsed(config) => Ok(config),
            ArtifactsRead::Unreadable(e) => Err(
                Failure::caused_by(concat3("failed to read artifacts config '", path, "'"), &e),
            ),
            ArtifactsRead::Unparsable(e) => Err(
                Failure::caused_by(concat3("failed to parse yaml '", path, "'"), &e),
            ),
        }
    }

    /// Checks the whole configuration: its version, then each workflow in turn.
    pub fn validate(&self) -> (r: Result<(), Failure>)
        ensures
            told(r) == artifacts_config_failure(self@),
    {
        if self.version != 1 {
            return Err(
                Failure::new(
                    concat(
                        "unsupported artifacts config version ",
                        &decimal_text(self.version as u64),
                    ),
                ),
            );
        }
        let ghost list = self@.artifacts;
        let mut i: usize = 0;
        while i < self.artifacts.len()
            invariant
                i <= self.artifacts@.len(),
                list == self@.artifacts,
                self.version == 1,
                artifacts_failure(list, 0) == artifacts_failure(list, i as int),
            decreases self.artifacts@.len() - i,
        {
            let path = concat3("artifacts[", &decimal_text(i as u64), "]");
            assert(list[i as int] == self.artifacts@[i as int]@);
            let r = self.artifacts[i].validate(&path);
            if r.is_err() {
                return r;
            }
            if workflow_id_taken(&self.artifacts, i) {
                let mut message = concat3(
                    &path,
                    ".id duplicates artifact id '",
                    &self.artifacts[i].id,
                );
                message.append("'");
                return Err(Failure::new(message));
            }
            i = i + 1;
        }
        Ok(())
    }

    /// The first workflow with the id.
    pub fn artifact(&self, artifact_id: &str) -> (r: Option<&ArtifactConfig>)
        ensures
            match artifact_position(self@.artifacts, artifact_id@, 0) {
                Some(i) => r is Some && 0 <= i < self@.artifacts.len() && r->0@
                    == self@.artifacts[i] && r->0@.id == artifact_id@,
                None => r is None,
            },
    {
        let ghost list = self@.artifacts;
        let mut i: usize = 0;
        while i < self.artifacts.len()
            invariant
                i <= self.artifacts@.len(),
                list == self@.artifacts,
                artifact_position(list, artifact_id@, 0) == artifact_position(
                    list,
                    artifact_id@,
                    i as int,
                ),
            decreases self.artifacts@.len() - i,
        {
            assert(list[i as int] == self.artifacts@[i as int]@);
            if same_text(&self.artifacts[i].id, artifact_id) {
                return Some(&self.artifacts[i]);
            }
            i = i + 1;
        }
        None
    }
}

} // verus!

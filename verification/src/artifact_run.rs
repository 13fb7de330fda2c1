//! Runs of an artifact workflow: the commands that it launches, what their ends amount to, and how
//! the run file keeps account.

use vstd::prelude::*;

use crate::artifact_records::{
    input_failure, record_failure, ArtifactRecord, ArtifactRecordView, CollectorRecordInput,
    RecordInputView, ARTIFACT_SCHEMA_VERSION,
};
use crate::artifacts::{
    args_failure, artifact_command_failure, env_failure, ArtifactCommandConfig, ArtifactCommandView,
    ArtifactConfig,
};
use crate::calendar::{
    date_digits, date_read, date_text, format_instant, formatted, parse_date, CivilDate, Timestamp,
};
use crate::failure::{caused, full_text, plain, told, Failure, FailureView};
use crate::json::{json_object1, json_object2, json_object4, JsonValue, JsonView};
use crate::paths::{join, join_path};
use crate::report::date_result;
use crate::sorting::Keyed;
use crate::task_runner::ProcessExit;
use crate::template::{allowed, law_checked_templates_resolve, resolve_template, resolved};
use crate::text::{
    blank, chars_of, concat, concat3, copy_opt, decimal, is_blank, opt_text, signed_decimal,
    signed_text, text_range, texts,
};
use crate::text_map::{ascending, env_of, set_var, text_pairs, EnvMap, TextMap};

verus! {

// ---------------------------------------------------------------------------------------------
// Dates, hosts and ids
// ---------------------------------------------------------------------------------------------
/// The date of a run, given what reading it gives.
pub open spec fn artifact_date(
    input: Seq<char>,
    date: Result<CivilDate, Seq<char>>,
) -> Result<CivilDate, FailureView> {
    match date {
        Ok(d) => Ok(d),
        Err(error) => Err(
            caused("invalid artifact date '"@ + input + "', expected YYYY-MM-DD"@, error),
        ),
    }
}

/// A date or a failure in views.
pub open spec fn date_or_failure(r: Result<CivilDate, Failure>) -> Result<CivilDate, FailureView> {
    match r {
        Ok(d) => Ok(d),
        Err(f) => Err(f@),
    }
}

/// The date of a run, given what reading it gives.
pub fn judge_artifact_date(input: &str, date: Result<CivilDate, String>) -> (r: Result<
    CivilDate,
    Failure,
>)
    ensures
        date_or_failure(r) == artifact_date(input@, date_result(date)),
{
    match date {
        Ok(d) => Ok(d),
        Err(error) => Err(
            Failure::caused_by(
                concat3("invalid artifact date '", input, "', expected YYYY-MM-DD"),
                &error,
            ),
        ),
    }
}

/// The date of a run, of the form `YYYY-MM-DD`.
pub fn parse_artifact_date(input: &str) -> (r: Result<CivilDate, Failure>)
    ensures
        date_or_failure(r) == artifact_date(input@, date_read(input@, "%Y-%m-%d"@)),
{
    judge_artifact_date(input, parse_date(input, "%Y-%m-%d"))
}

/// The id of a run: when it started, and the start of a random text.
pub open spec fn run_id_of(now: (int, int), random: Seq<char>) -> Seq<char> {
    formatted(now.0, now.1, "%Y%m%dT%H%M%SZ"@) + "-"@ + random.subrange(0, 8)
}

/// The id of a run that starts at some instant, made unlike others by a random text.
pub fn generate_run_id(now: &Timestamp, random: &str) -> (r: String)
    requires
        random@.len() >= 8,
    ensures
        r@ == run_id_of(now@, random@),
{
    let short = text_range(&chars_of(random), 0, 8);
    concat3(&format_instant(now, "%Y%m%dT%H%M%SZ"), "-", &short)
}

/// The name of the host: what the environment says, unless it says nothing.
pub open spec fn host_name(variable: Option<Seq<char>>) -> Seq<char> {
    match variable {
        Some(name) => if blank(name) {
            "unknown"@
        } else {
            name
        },
        None => "unknown"@,
    }
}

/// The name of the host, given the variable that holds it.
pub fn current_host_name(variable: &Option<String>) -> (r: String)
    ensures
        r@ == host_name(opt_text(*variable)),
{
    match variable {
        Some(name) => {
            if is_blank(name) {
                "unknown".to_owned()
            } else {
                name.clone()
            }
        },
        None => "unknown".to_owned(),
    }
}

// ---------------------------------------------------------------------------------------------
// Paths
// ---------------------------------------------------------------------------------------------
/// The files of a run.
pub struct ArtifactPathsView {
    pub run_dir: Seq<char>,
    pub collectors_dir: Seq<char>,
    pub collect_file: Seq<char>,
    pub collect_partial_file: Seq<char>,
    pub render_input_file: Seq<char>,
    pub render_file: Seq<char>,
    pub run_file: Seq<char>,
}

/// The files of a run.
#[derive(Debug)]
pub struct ArtifactPaths {
    pub run_dir: String,
    pub collectors_dir: String,
    pub collect_file: String,
    pub collect_partial_file: String,
    pub render_input_file: String,
    pub render_file: String,
    pub run_file: String,
}

impl View for ArtifactPaths {
    type V = ArtifactPathsView;

    open spec fn view(&self) -> ArtifactPathsView {
        ArtifactPathsView {
            run_dir: self.run_dir@,
            collectors_dir: self.collectors_dir@,
            collect_file: self.collect_file@,
            collect_partial_file: self.collect_partial_file@,
            render_input_file: self.render_input_file@,
            render_file: self.render_file@,
            run_file: self.run_file@,
        }
    }
}

/// The files of a workflow's run on a date.
pub open spec fn run_paths(workdir: Seq<char>, date: CivilDate) -> ArtifactPathsView {
    let dir = join(workdir, date_digits(date));
    ArtifactPathsView {
        run_dir: dir,
        collectors_dir: join(dir, "collectors"@),
        collect_file: join(dir, "records.jsonl"@),
        collect_partial_file: join(dir, "records.jsonl.partial"@),
        render_input_file: join(dir, "render-input.json"@),
        render_file: join(dir, "rendered.json"@),
        run_file: join(dir, "run.json"@),
    }
}

/// The files of a workflow's run on a date.
pub fn artifact_paths(artifact: &ArtifactConfig, date: CivilDate) -> (r: ArtifactPaths)
    ensures
        r@ == run_paths(artifact@.workdir, date),
{
    let run_dir = join_path(&artifact.workdir, &date_text(date));
    ArtifactPaths {
        collectors_dir: join_path(&run_dir, "collectors"),
        collect_file: join_path(&run_dir, "records.jsonl"),
        collect_partial_file: join_path(&run_dir, "records.jsonl.partial"),
        render_input_file: join_path(&run_dir, "render-input.json"),
        render_file: join_path(&run_dir, "rendered.json"),
        run_file: join_path(&run_dir, "run.json"),
        run_dir,
    }
}

/// The file in which a collector leaves its record.
pub open spec fn collector_file(paths: ArtifactPathsView, collector_id: Seq<char>) -> Seq<char> {
    join(paths.collectors_dir, collector_id + ".json"@)
}

/// The file in which a collector leaves its record.
pub fn collector_output(paths: &ArtifactPaths, collector_id: &str) -> (r: String)
    ensures
        r@ == collector_file(paths@, collector_id@),
{
    join_path(&paths.collectors_dir, &concat(collector_id, ".json"))
}

// ---------------------------------------------------------------------------------------------
// Template values
// ---------------------------------------------------------------------------------------------
/// The values that templates of a run can use.
pub struct VarsView {
    pub artifact_id: Seq<char>,
    pub artifact_date: Seq<char>,
    pub run_id: Seq<char>,
    pub run_dir: Seq<char>,
    pub collect_file: Seq<char>,
    pub render_input_file: Seq<char>,
    pub render_file: Seq<char>,
    pub collector_id: Option<Seq<char>>,
    pub collector_output: Option<Seq<char>>,
    pub host: Seq<char>,
}

/// The values that templates of a run can use.
#[derive(Debug)]
pub struct RuntimeTemplateVars {
    pub artifact_id: String,
    pub artifact_date: String,
    pub run_id: String,
    pub run_dir: String,
    pub collect_file: String,
    pub render_input_file: String,
    pub render_file: String,
    pub collector_id: Option<String>,
    pub collector_output: Option<String>,
    pub host: String,
}

impl View for RuntimeTemplateVars {
    type V = VarsView;

    open spec fn view(&self) -> VarsView {
        VarsView {
            artifact_id: self.artifact_id@,
            artifact_date: self.artifact_date@,
            run_id: self.run_id@,
            run_dir: self.run_dir@,
            collect_file: self.collect_file@,
            render_input_file: self.render_input_file@,
            render_file: self.render_file@,
            collector_id: opt_text(self.collector_id),
            collector_output: opt_text(self.collector_output),
            host: self.host@,
        }
    }
}

/// A map with one more entry, where there is a value for it.
pub open spec fn insert_some(
    m: Map<Seq<char>, Seq<char>>,
    name: Seq<char>,
    value: Option<Seq<char>>,
) -> Map<Seq<char>, Seq<char>> {
    match value {
        Some(v) => m.insert(name, v),
        None => m,
    }
}

/// The values by the names that templates use.
pub open spec fn var_map(v: VarsView) -> Map<Seq<char>, Seq<char>> {
    let fixed = Map::empty().insert("artifact_id"@, v.artifact_id).insert(
        "artifact_date"@,
        v.artifact_date,
    ).insert("run_id"@, v.run_id).insert("run_dir"@, v.run_dir).insert(
        "collect_file"@,
        v.collect_file,
    ).insert("render_input_file"@, v.render_input_file).insert("render_file"@, v.render_file).insert(
        "host"@,
        v.host,
    );
    insert_some(
        insert_some(fixed, "collector_id"@, v.collector_id),
        "collector_output"@,
        v.collector_output,
    )
}

/// The variables that describe a run to a command.
pub open spec fn with_run_env(env: Map<Seq<char>, Seq<char>>, v: VarsView) -> Map<
    Seq<char>,
    Seq<char>,
> {
    let fixed = env.insert("ARTIFACT_ID"@, v.artifact_id).insert(
        "ARTIFACT_DATE"@,
        v.artifact_date,
    ).insert("ARTIFACT_RUN_ID"@, v.run_id).insert("ARTIFACT_RUN_DIR"@, v.run_dir).insert(
        "ARTIFACT_COLLECT_FILE"@,
        v.collect_file,
    ).insert("ARTIFACT_RENDER_INPUT_FILE"@, v.render_input_file).insert(
        "ARTIFACT_RENDER_FILE"@,
        v.render_file,
    ).insert("ARTIFACT_HOST"@, v.host);
    insert_some(
        insert_some(fixed, "ARTIFACT_COLLECTOR_ID"@, v.collector_id),
        "ARTIFACT_COLLECTOR_OUTPUT"@,
        v.collector_output,
    )
}

fn new_env() -> (r: EnvMap)
    ensures
        env_of(r@) == Map::<Seq<char>, Seq<char>>::empty(),
        ascending(r.pairs()),
{
    let r: EnvMap = TextMap::new();
    assert(env_of(r@) =~= Map::<Seq<char>, Seq<char>>::empty());
    r
}

fn set_some(env: &mut EnvMap, name: &str, value: &Option<String>)
    requires
        ascending(old(env).pairs()),
    ensures
        ascending(final(env).pairs()),
        env_of(final(env)@) == insert_some(env_of(old(env)@), name@, opt_text(*value)),
{
    if let Some(v) = value {
        set_var(env, name, v);
    }
}

impl RuntimeTemplateVars {
    /// The values by the names that templates use.
    pub fn to_map(&self) -> (r: EnvMap)
        ensures
            env_of(r@) == var_map(self@),
    {
        let mut values = new_env();
        set_var(&mut values, "artifact_id", &self.artifact_id);
        set_var(&mut values, "artifact_date", &self.artifact_date);
        set_var(&mut values, "run_id", &self.run_id);
        set_var(&mut values, "run_dir", &self.run_dir);
        set_var(&mut values, "collect_file", &self.collect_file);
        set_var(&mut values, "render_input_file", &self.render_input_file);
        set_var(&mut values, "render_file", &self.render_file);
        set_var(&mut values, "host", &self.host);
        set_some(&mut values, "collector_id", &self.collector_id);
        set_some(&mut values, "collector_output", &self.collector_output);
        values
    }
}

/// The values of a run for its renderer and sinks, or for one of its collectors.
pub open spec fn run_vars(
    artifact_id: Seq<char>,
    date: CivilDate,
    run_id: Seq<char>,
    host: Seq<char>,
    paths: ArtifactPathsView,
    collector_id: Option<Seq<char>>,
) -> VarsView {
    VarsView {
        artifact_id,
        artifact_date: date_digits(date),
        run_id,
        run_dir: paths.run_dir,
        collect_file: paths.collect_file,
        render_input_file: paths.render_input_file,
        render_file: paths.render_file,
        collector_id,
        collector_output: match collector_id {
            Some(id) => Some(collector_file(paths, id)),
            None => None,
        },
        host,
    }
}

/// The values of a run for its renderer and sinks, or for one of its collectors.
pub fn template_vars(
    artifact: &ArtifactConfig,
    date: CivilDate,
    run_id: &str,
    host: &str,
    paths: &ArtifactPaths,
    collector_id: &Option<String>,
) -> (r: RuntimeTemplateVars)
    ensures
        r@ == run_vars(artifact@.id, date, run_id@, host@, paths@, opt_text(*collector_id)),
{
    let output = match collector_id {
        Some(id) => Some(collector_output(paths, id)),
        None => None,
    };
    RuntimeTemplateVars {
        artifact_id: artifact.id.clone(),
        artifact_date: date_text(date),
        run_id: run_id.to_owned(),
        run_dir: paths.run_dir.clone(),
        collect_file: paths.collect_file.clone(),
        render_input_file: paths.render_input_file.clone(),
        render_file: paths.render_file.clone(),
        collector_id: copy_opt(collector_id),
        collector_output: output,
        host: host.to_owned(),
    }
}

// ---------------------------------------------------------------------------------------------
// Commands
// ---------------------------------------------------------------------------------------------
/// A command whose templates are filled in.
pub struct ResolvedView {
    pub program: Seq<char>,
    pub args: Seq<Seq<char>>,
    pub workdir: Option<Seq<char>>,
    pub env: Map<Seq<char>, Seq<char>>,
}

/// A command whose templates are filled in.
#[derive(Debug)]
pub struct ResolvedCommand {
    pub program: String,
    pub args: Vec<String>,
    pub workdir: Option<String>,
    pub env: EnvMap,
}

impl View for ResolvedCommand {
    type V = ResolvedView;

    open spec fn view(&self) -> ResolvedView {
        ResolvedView {
            program: self.program@,
            args: texts(self.args@),
            workdir: opt_text(self.workdir),
            env: env_of(self.env@),
        }
    }
}

/// The first `n` arguments filled in, or the first failure.
pub open spec fn resolved_args(
    args: Seq<Seq<char>>,
    values: Map<Seq<char>, Seq<char>>,
    n: int,
) -> Result<Seq<Seq<char>>, FailureView>
    decreases n,
{
    if n <= 0 {
        Ok(Seq::empty())
    } else {
        match resolved_args(args, values, n - 1) {
            Err(f) => Err(f),
            Ok(done) => match resolved(args[n - 1], values) {
                Err(f) => Err(f),
                Ok(text) => Ok(done.push(text)),
            },
        }
    }
}

/// The first `n` variables filled in, or the first failure.
pub open spec fn resolved_env(
    env: Seq<(Seq<char>, Seq<char>)>,
    values: Map<Seq<char>, Seq<char>>,
    n: int,
) -> Result<Map<Seq<char>, Seq<char>>, FailureView>
    decreases n,
{
    if n <= 0 {
        Ok(Map::empty())
    } else {
        match resolved_env(env, values, n - 1) {
            Err(f) => Err(f),
            Ok(done) => match resolved(env[n - 1].1, values) {
                Err(f) => Err(f),
                Ok(text) => Ok(done.insert(env[n - 1].0, text)),
            },
        }
    }
}

/// A working directory filled in.
pub open spec fn resolved_workdir(
    workdir: Option<Seq<char>>,
    values: Map<Seq<char>, Seq<char>>,
) -> Result<Option<Seq<char>>, FailureView> {
    match workdir {
        None => Ok(None),
        Some(dir) => match resolved(dir, values) {
            Err(f) => Err(f),
            Ok(text) => Ok(Some(text)),
        },
    }
}

/// A command with its templates filled in: the program, then the arguments, the working directory
/// and the variables. The variables that describe the run come on top.
pub open spec fn resolved_command(c: ArtifactCommandView, v: VarsView) -> Result<
    ResolvedView,
    FailureView,
> {
    let values = var_map(v);
    match resolved(c.program, values) {
        Err(f) => Err(f),
        Ok(program) => match resolved_args(c.args, values, c.args.len() as int) {
            Err(f) => Err(f),
            Ok(args) => match resolved_workdir(c.workdir, values) {
                Err(f) => Err(f),
                Ok(workdir) => match resolved_env(c.env, values, c.env.len() as int) {
                    Err(f) => Err(f),
                    Ok(env) => Ok(
                        ResolvedView { program, args, workdir, env: with_run_env(env, v) },
                    ),
                },
            },
        },
    }
}

/// A filled-in command or a failure in views.
pub open spec fn resolved_result(r: Result<ResolvedCommand, Failure>) -> Result<
    ResolvedView,
    FailureView,
> {
    match r {
        Ok(c) => Ok(c@),
        Err(f) => Err(f@),
    }
}

proof fn lemma_args_fail(
    args: Seq<Seq<char>>,
    values: Map<Seq<char>, Seq<char>>,
    from: int,
    to: int,
)
    requires
        0 <= from <= to,
        resolved_args(args, values, from) is Err,
    ensures
        resolved_args(args, values, to) == resolved_args(args, values, from),
    decreases to - from,
{
    if from < to {
        lemma_args_fail(args, values, from, to - 1);
    }
}

proof fn lemma_env_fails(
    env: Seq<(Seq<char>, Seq<char>)>,
    values: Map<Seq<char>, Seq<char>>,
    from: int,
    to: int,
)
    requires
        0 <= from <= to,
        resolved_env(env, values, from) is Err,
    ensures
        resolved_env(env, values, to) == resolved_env(env, values, from),
    decreases to - from,
{
    if from < to {
        lemma_env_fails(env, values, from, to - 1);
    }
}

fn resolve_args(args: &Vec<String>, values: &EnvMap) -> (r: Result<Vec<String>, Failure>)
    ensures
        crate::template::texts_result(r) == resolved_args(
            texts(args@),
            env_of(values@),
            args@.len() as int,
        ),
{
    let mut done: Vec<String> = Vec::new();
    let mut i: usize = 0;
    assert(texts(done@) =~= Seq::empty());
    while i < args.len()
        invariant
            i <= args@.len(),
            resolved_args(texts(args@), env_of(values@), i as int) == Ok::<
                Seq<Seq<char>>,
                FailureView,
            >(texts(done@)),
        decreases args@.len() - i,
    {
        let ghost prior = texts(done@);
        match resolve_template(&args[i], values) {
            Ok(text) => {
                done.push(text);
                assert(texts(done@) =~= prior.push(text@));
            },
            Err(f) => {
                proof {
                    lemma_args_fail(texts(args@), env_of(values@), i + 1, args@.len() as int);
                }
                return Err(f);
            },
        }
        i = i + 1;
    }
    Ok(done)
}

/// Variables or a failure in views.
pub open spec fn env_result(r: Result<EnvMap, Failure>) -> Result<
    Map<Seq<char>, Seq<char>>,
    FailureView,
> {
    match r {
        Ok(env) => Ok(env_of(env@)),
        Err(f) => Err(f@),
    }
}

fn resolve_env(env: &EnvMap, values: &EnvMap) -> (r: Result<EnvMap, Failure>)
    ensures
        env_result(r) == resolved_env(
            text_pairs(*env),
            env_of(values@),
            env.pairs().len() as int,
        ),
        r is Ok ==> ascending(r->Ok_0.pairs()),
{
    let ghost p = text_pairs(*env);
    let n: usize = env.len();
    let mut done = new_env();
    let mut i: usize = 0;
    while i < n
        invariant
            i <= n == env.pairs().len(),
            p == text_pairs(*env),
            ascending(done.pairs()),
            resolved_env(p, env_of(values@), i as int) == Ok::<
                Map<Seq<char>, Seq<char>>,
                FailureView,
            >(env_of(done@)),
        decreases n - i,
    {
        match resolve_template(env.value(i), values) {
            Ok(text) => {
                set_var(&mut done, env.key(i), &text);
            },
            Err(f) => {
                proof {
                    lemma_env_fails(p, env_of(values@), i + 1, n as int);
                }
                return Err(f);
            },
        }
        i = i + 1;
    }
    Ok(done)
}

/// A command with its templates filled in and the variables that describe the run.
pub fn resolve_command(config: &ArtifactCommandConfig, vars: &RuntimeTemplateVars) -> (r: Result<
    ResolvedCommand,
    Failure,
>)
    ensures
        resolved_result(r) == resolved_command(config@, vars@),
{
    let values = vars.to_map();
    let program = match resolve_template(&config.program, &values) {
        Ok(text) => text,
        Err(f) => {
            return Err(f);
        },
    };
    let args = match resolve_args(&config.args, &values) {
        Ok(args) => args,
        Err(f) => {
            return Err(f);
        },
    };
    let workdir = match &config.workdir {
        None => None,
        Some(dir) => match resolve_template(dir, &values) {
            Ok(text) => Some(text),
            Err(f) => {
                return Err(f);
            },
        },
    };
    let mut env = match resolve_env(&config.env, &values) {
        Ok(env) => env,
        Err(f) => {
            return Err(f);
        },
    };
    set_var(&mut env, "ARTIFACT_ID", &vars.artifact_id);
    set_var(&mut env, "ARTIFACT_DATE", &vars.artifact_date);
    set_var(&mut env, "ARTIFACT_RUN_ID", &vars.run_id);
    set_var(&mut env, "ARTIFACT_RUN_DIR", &vars.run_dir);
    set_var(&mut env, "ARTIFACT_COLLECT_FILE", &vars.collect_file);
    set_var(&mut env, "ARTIFACT_RENDER_INPUT_FILE", &vars.render_input_file);
    set_var(&mut env, "ARTIFACT_RENDER_FILE", &vars.render_file);
    set_var(&mut env, "ARTIFACT_HOST", &vars.host);
    set_some(&mut env, "ARTIFACT_COLLECTOR_ID", &vars.collector_id);
    set_some(&mut env, "ARTIFACT_COLLECTOR_OUTPUT", &vars.collector_output);
    Ok(ResolvedCommand { program, args, workdir, env })
}

proof fn lemma_checked_args_resolve(
    args: Seq<Seq<char>>,
    path: Seq<char>,
    values: Map<Seq<char>, Seq<char>>,
    i: int,
)
    requires
        0 <= i <= args.len(),
        args_failure(args, path, i) is None,
        forall|name: Seq<char>| #[trigger] allowed(name) ==> values.dom().contains(name),
    ensures
        forall|k: int| i <= k < args.len() ==> resolved(#[trigger] args[k], values) is Ok,
    decreases args.len() - i,
{
    if i < args.len() {
        lemma_checked_args_resolve(args, path, values, i + 1);
        law_checked_templates_resolve(args[i], path + ".args["@ + decimal(i as nat) + "]"@, values);
    }
}

proof fn lemma_args_ok(args: Seq<Seq<char>>, values: Map<Seq<char>, Seq<char>>, n: int)
    requires
        0 <= n <= args.len(),
        forall|k: int| 0 <= k < args.len() ==> resolved(#[trigger] args[k], values) is Ok,
    ensures
        resolved_args(args, values, n) is Ok,
    decreases n,
{
    if n > 0 {
        lemma_args_ok(args, values, n - 1);
        assert(resolved(args[n - 1], values) is Ok);
    }
}

proof fn lemma_checked_env_resolves(
    env: Seq<(Seq<char>, Seq<char>)>,
    path: Seq<char>,
    values: Map<Seq<char>, Seq<char>>,
    i: int,
)
    requires
        0 <= i <= env.len(),
        env_failure(env, path, i) is None,
        forall|name: Seq<char>| #[trigger] allowed(name) ==> values.dom().contains(name),
    ensures
        forall|k: int| i <= k < env.len() ==> resolved((#[trigger] env[k]).1, values) is Ok,
    decreases env.len() - i,
{
    if i < env.len() {
        lemma_checked_env_resolves(env, path, values, i + 1);
        law_checked_templates_resolve(env[i].1, path + ".env."@ + env[i].0, values);
    }
}

proof fn lemma_env_ok(
    env: Seq<(Seq<char>, Seq<char>)>,
    values: Map<Seq<char>, Seq<char>>,
    n: int,
)
    requires
        0 <= n <= env.len(),
        forall|k: int| 0 <= k < env.len() ==> resolved((#[trigger] env[k]).1, values) is Ok,
    ensures
        resolved_env(env, values, n) is Ok,
    decreases n,
{
    if n > 0 {
        lemma_env_ok(env, values, n - 1);
        assert(resolved(env[n - 1].1, values) is Ok);
    }
}

/// Every template of a checked command can be filled in for a collector.
pub proof fn law_checked_commands_resolve(c: ArtifactCommandView, path: Seq<char>, v: VarsView)
    requires
        artifact_command_failure(c, path) is None,
        v.collector_id is Some,
        v.collector_output is Some,
    ensures
        resolved_command(c, v) is Ok,
{
    let values = var_map(v);
    assert forall|name: Seq<char>| #[trigger] allowed(name) implies values.dom().contains(
        name,
    ) by {}
    law_checked_templates_resolve(c.program, path + ".program"@, values);
    lemma_checked_args_resolve(c.args, path, values, 0);
    lemma_args_ok(c.args, values, c.args.len() as int);
    lemma_checked_env_resolves(c.env, path, values, 0);
    lemma_env_ok(c.env, values, c.env.len() as int);
    if c.workdir is Some {
        law_checked_templates_resolve(c.workdir->0, path + ".workdir"@, values);
    }
}

/// How a command ended: its exit, that exit in words, and what it wrote.
#[derive(Debug)]
pub struct CommandOutput {
    pub exit: ProcessExit,
    pub status: String,
    pub stdout: String,
    pub stderr: String,
}

/// The failure of a command that did not succeed.
pub open spec fn command_end_failure(output: CommandOutput) -> Option<FailureView> {
    if output.exit == ProcessExit::Code(0) {
        None
    } else {
        Some(plain("command exited with "@ + output.status@ + ": "@ + output.stderr@))
    }
}

/// Whether a process ended with exit code 0.
pub fn exited_well(exit: ProcessExit) -> (r: bool)
    ensures
        r == (exit == ProcessExit::Code(0)),
{
    match exit {
        ProcessExit::Code(code) => code == 0,
        _ => false,
    }
}

/// Reports how a command ended.
pub fn judge_command(output: &CommandOutput) -> (r: Result<(), Failure>)
    ensures
        told(r) == command_end_failure(*output),
{
    if exited_well(output.exit) {
        return Ok(());
    }
    let mut message = concat3("command exited with ", &output.status, ": ");
    message.append(&output.stderr);
    Err(Failure::new(message))
}

/// The failure of a command that could not be run.
pub fn command_not_run(program: &str, error: &str) -> (r: Failure)
    ensures
        r@ == caused("failed to execute command '"@ + program@ + "'"@, error@),
{
    Failure::caused_by(concat3("failed to execute command '", program, "'"), error)
}

// ---------------------------------------------------------------------------------------------
// Collecting
// ---------------------------------------------------------------------------------------------
/// A record that stands for a collector that left none.
pub open spec fn error_record(
    v: VarsView,
    collector_id: Seq<char>,
    summary: Seq<char>,
    payload: JsonView,
    collected_at: (int, int),
) -> ArtifactRecordView {
    ArtifactRecordView {
        schema_version: ARTIFACT_SCHEMA_VERSION,
        artifact_id: v.artifact_id,
        artifact_date: v.artifact_date,
        run_id: v.run_id,
        collector_id,
        host: v.host,
        collected_at,
        status: "error"@,
        summary,
        content_type: "application/json"@,
        payload,
    }
}

/// A record that stands for a collector that left none.
pub fn synthetic_error_record(
    vars: &RuntimeTemplateVars,
    collector_id: &str,
    summary: String,
    payload: JsonValue,
    collected_at: Timestamp,
) -> (r: ArtifactRecord)
    ensures
        r@ == error_record(vars@, collector_id@, summary@, payload@, collected_at@),
{
    ArtifactRecord {
        schema_version: ARTIFACT_SCHEMA_VERSION,
        artifact_id: vars.artifact_id.clone(),
        artifact_date: vars.artifact_date.clone(),
        run_id: vars.run_id.clone(),
        collector_id: collector_id.to_owned(),
        host: vars.host.clone(),
        collected_at,
        status: "error".to_owned(),
        summary,
        content_type: "application/json".to_owned(),
        payload,
    }
}

/// The record of a collector that left one.
pub open spec fn kept_record(
    v: VarsView,
    collector_id: Seq<char>,
    input: RecordInputView,
    collected_at: (int, int),
) -> ArtifactRecordView {
    ArtifactRecordView {
        schema_version: ARTIFACT_SCHEMA_VERSION,
        artifact_id: v.artifact_id,
        artifact_date: v.artifact_date,
        run_id: v.run_id,
        collector_id,
        host: v.host,
        collected_at,
        status: input.status,
        summary: input.summary,
        content_type: input.content_type,
        payload: input.payload,
    }
}

/// The payload of a collector whose output cannot be used.
pub open spec fn fault_payload(kind: Seq<char>, message: Seq<char>) -> JsonView {
    JsonView::Object(
        seq![
            (
                "error"@,
                JsonView::Object(
                    seq![
                        ("kind"@, JsonView::Text(kind)),
                        ("message"@, JsonView::Text(message)),
                    ],
                ),
            ),
        ],
    )
}

/// An exit code as JSON.
pub open spec fn exit_json(exit: ProcessExit) -> JsonView {
    match exit {
        ProcessExit::Code(code) => JsonView::Number(signed_decimal(code as int)),
        _ => JsonView::Null,
    }
}

/// The payload of a collector that did not succeed.
pub open spec fn exit_payload(output: CommandOutput) -> JsonView {
    JsonView::Object(
        seq![
            (
                "error"@,
                JsonView::Object(
                    seq![
                        ("kind"@, JsonView::Text("command_failed"@)),
                        ("exit_code"@, exit_json(output.exit)),
                        ("stdout"@, JsonView::Text(output.stdout@)),
                        ("stderr"@, JsonView::Text(output.stderr@)),
                    ],
                ),
            ),
        ],
    )
}

/// How a collector ended, in words.
pub open spec fn exit_words(exit: ProcessExit) -> Seq<char> {
    match exit {
        ProcessExit::Code(code) => "code "@ + signed_decimal(code as int),
        _ => "signal"@,
    }
}

/// The output of a collector in views.
pub open spec fn loaded_view(loaded: Result<CollectorRecordInput, Failure>) -> Result<
    RecordInputView,
    FailureView,
> {
    match loaded {
        Ok(input) => Ok(input@),
        Err(f) => Err(f@),
    }
}

/// The record of a collector: what it left, or an error that says why that cannot be used.
pub open spec fn collector_record(
    v: VarsView,
    collector_id: Seq<char>,
    output: CommandOutput,
    loaded: Result<RecordInputView, FailureView>,
    collected_at: (int, int),
) -> ArtifactRecordView {
    if output.exit != ProcessExit::Code(0) {
        error_record(
            v,
            collector_id,
            "collector exited with "@ + exit_words(output.exit),
            exit_payload(output),
            collected_at,
        )
    } else {
        match loaded {
            Err(f) => error_record(
                v,
                collector_id,
                "collector output missing or unreadable: "@ + full_text(f),
                fault_payload("output_missing"@, f.message),
                collected_at,
            ),
            Ok(input) => match input_failure(input) {
                Some(f) => error_record(
                    v,
                    collector_id,
                    "collector output schema invalid: "@ + full_text(f),
                    fault_payload("schema_invalid"@, f.message),
                    collected_at,
                ),
                None => kept_record(v, collector_id, input, collected_at),
            },
        }
    }
}

fn fault_json(kind: &str, message: &str) -> (r: JsonValue)
    ensures
        r@ == fault_payload(kind@, message@),
{
    let inner = json_object2(
        "kind",
        JsonValue::Text(kind.to_owned()),
        "message",
        JsonValue::Text(message.to_owned()),
    );
    json_object1("error", inner)
}

fn exit_fault_json(output: &CommandOutput) -> (r: JsonValue)
    ensures
        r@ == exit_payload(*output),
{
    let code = match output.exit {
        ProcessExit::Code(code) => JsonValue::Number(signed_text(code as i64)),
        _ => JsonValue::Null,
    };
    let inner = json_object4(
        "kind",
        JsonValue::Text("command_failed".to_owned()),
        "exit_code",
        code,
        "stdout",
        JsonValue::Text(output.stdout.clone()),
        "stderr",
        JsonValue::Text(output.stderr.clone()),
    );
    json_object1("error", inner)
}

/// What one collector contributed.
#[derive(Debug)]
pub struct CollectorExecutionOutcome {
    pub collector_id: String,
    pub record: ArtifactRecord,
}

/// What one collector contributed.
pub struct CollectedView {
    pub collector_id: Seq<char>,
    pub record: ArtifactRecordView,
}

impl View for CollectorExecutionOutcome {
    type V = CollectedView;

    open spec fn view(&self) -> CollectedView {
        CollectedView { collector_id: self.collector_id@, record: self.record@ }
    }
}

impl Keyed for CollectorExecutionOutcome {
    open spec fn key_of(&self) -> Seq<char> {
        self.collector_id@
    }

    fn key(&self) -> (r: &str) {
        self.collector_id.as_str()
    }
}

/// The views of a list of contributions.
pub open spec fn collected_views(v: Seq<CollectorExecutionOutcome>) -> Seq<CollectedView> {
    Seq::new(v.len(), |i: int| v[i]@)
}

/// A summary that starts with these words is not blank.
proof fn lemma_not_blank(head: Seq<char>, tail: Seq<char>)
    requires
        !blank(head),
    ensures
        !blank(head + tail),
{
    let i = choose|i: int| 0 <= i < head.len() && !crate::text::is_space(#[trigger] head[i]);
    assert((head + tail)[i] == head[i]);
}

/// What a collector contributed, from how it ended and what it left. `loaded` is what its output
/// file holds; it counts only where the collector succeeded. The record always meets the rules on
/// records.
pub fn conclude_collector(
    collector_id: &str,
    vars: &RuntimeTemplateVars,
    output: &CommandOutput,
    loaded: Result<CollectorRecordInput, Failure>,
    collected_at: Timestamp,
) -> (r: CollectorExecutionOutcome)
    ensures
        r@.collector_id == collector_id@,
        r@.record == collector_record(
            vars@,
            collector_id@,
            *output,
            loaded_view(loaded),
            collected_at@,
        ),
        record_failure(r@.record) is None,
{
    proof {
        reveal_strlit("collector exited with ");
        reveal_strlit("collector output missing or unreadable: ");
        reveal_strlit("collector output schema invalid: ");
        assert(!crate::text::is_space("collector exited with "@[0]));
        assert(!crate::text::is_space("collector output missing or unreadable: "@[0]));
        assert(!crate::text::is_space("collector output schema invalid: "@[0]));
        lemma_not_blank("collector exited with "@, exit_words(output.exit));
        match loaded_view(loaded) {
            Err(f) => {
                lemma_not_blank("collector output missing or unreadable: "@, full_text(f));
            },
            Ok(input) => {
                match input_failure(input) {
                    Some(f) => {
                        lemma_not_blank("collector output schema invalid: "@, full_text(f));
                    },
                    None => {},
                }
            },
        }
    }
    let record = if !exited_well(output.exit) {
        let words = match output.exit {
            ProcessExit::Code(code) => concat("code ", &signed_text(code as i64)),
            _ => "signal".to_owned(),
        };
        synthetic_error_record(
            vars,
            collector_id,
            concat("collector exited with ", &words),
            exit_fault_json(output),
            collected_at,
        )
    } else {
        match loaded {
            Err(f) => synthetic_error_record(
                vars,
                collector_id,
                concat("collector output missing or unreadable: ", &f.full_text()),
                fault_json("output_missing", &f.message),
                collected_at,
            ),
            Ok(input) => match input.validate() {
                Err(f) => synthetic_error_record(
                    vars,
                    collector_id,
                    concat("collector output schema invalid: ", &f.full_text()),
                    fault_json("schema_invalid", &f.message),
                    collected_at,
                ),
                Ok(_) => ArtifactRecord {
                    schema_version: ARTIFACT_SCHEMA_VERSION,
                    artifact_id: vars.artifact_id.clone(),
                    artifact_date: vars.artifact_date.clone(),
                    run_id: vars.run_id.clone(),
                    collector_id: collector_id.to_owned(),
                    host: vars.host.clone(),
                    collected_at,
                    status: input.status,
                    summary: input.summary,
                    content_type: input.content_type,
                    payload: input.payload,
                },
            },
        }
    };
    CollectorExecutionOutcome { collector_id: collector_id.to_owned(), record }
}

/// What a collector contributed that could not be started: a record that says so. It always meets
/// the rules on records.
pub fn conclude_unstarted_collector(
    collector_id: &str,
    vars: &RuntimeTemplateVars,
    failure: &Failure,
    collected_at: Timestamp,
) -> (r: CollectorExecutionOutcome)
    ensures
        r@.collector_id == collector_id@,
        r@.record == error_record(
            vars@,
            collector_id@,
            "collector could not be started: "@ + full_text(failure@),
            fault_payload("command_failed"@, failure@.message),
            collected_at@,
        ),
        record_failure(r@.record) is None,
{
    proof {
        reveal_strlit("collector could not be started: ");
        assert(!crate::text::is_space("collector could not be started: "@[0]));
        lemma_not_blank("collector could not be started: "@, full_text(failure@));
    }
    let record = synthetic_error_record(
        vars,
        collector_id,
        concat("collector could not be started: ", &failure.full_text()),
        fault_json("command_failed", &failure.message),
        collected_at,
    );
    CollectorExecutionOutcome { collector_id: collector_id.to_owned(), record }
}

} // verus!

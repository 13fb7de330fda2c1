//! What holds of artifact workflows as a whole.

use vstd::prelude::*;

use crate::artifact_plan::{contributions, job_of, none_lost};
use crate::artifact_run::{
    collected_views, error_record, fault_payload, law_checked_commands_resolve, var_map,
    ArtifactPathsView, CollectedView, CollectorExecutionOutcome, VarsView,
};
use crate::artifact_runfile::{
    all_ok, collected_run, contribution, enabled_steps, law_collected_status,
    law_run_file_lists_enabled_steps, pending_steps, some_ok, started_run, with_statuses,
    StepStatusView,
};
use crate::artifacts::{
    args_failure, artifact_command_failure, artifact_failure, artifact_id_taken, artifact_path,
    artifacts_config_failure, artifacts_failure, env_failure, step_failure, step_id_taken,
    step_path, steps_failure, ArtifactCommandView, ArtifactStepView, ArtifactView, ArtifactsView,
};
use crate::calendar::{zone_known, CivilDate};
use crate::config::valid_id;
use crate::failure::{full_text, FailureView};
use crate::sorting::{law_sorted, sorted};
use crate::template::{allowed, placeholders, resolved, template_failure, unknown_failure};
use crate::template_laws::{
    in_place, law_templates_are_filled_in_place, law_templates_need_their_values, no_brace, pieces,
    tidy,
};
use crate::text::{blank, decimal};

verus! {

// ---------------------------------------------------------------------------------------------
// Valid configurations
// ---------------------------------------------------------------------------------------------
/// A template is well formed and uses allowed names only.
pub open spec fn template_valid(t: Seq<char>) -> bool {
    placeholders(t) is Ok && forall|i: int|
        0 <= i < placeholders(t)->Ok_0.len() ==> allowed(#[trigger] placeholders(t)->Ok_0[i])
}

/// A command names a program, and all its texts are valid templates.
pub open spec fn artifact_command_valid(c: ArtifactCommandView) -> bool {
    &&& !blank(c.program)
    &&& template_valid(c.program)
    &&& forall|i: int| 0 <= i < c.args.len() ==> template_valid(#[trigger] c.args[i])
    &&& c.workdir is Some ==> template_valid(c.workdir->0)
    &&& forall|i: int|
        0 <= i < c.env.len() ==> !blank((#[trigger] c.env[i]).0) && template_valid(c.env[i].1)
}

/// A collector or sink has a valid id and command.
pub open spec fn step_valid(s: ArtifactStepView) -> bool {
    valid_id(s.id) && artifact_command_valid(s.command)
}

/// All steps of a list are valid, and no two share an id.
pub open spec fn steps_valid(list: Seq<ArtifactStepView>) -> bool {
    &&& forall|i: int| 0 <= i < list.len() ==> step_valid(#[trigger] list[i])
    &&& forall|i: int, j: int|
        0 <= i < j < list.len() ==> (#[trigger] list[i]).id != (#[trigger] list[j]).id
}

/// A workflow has an id, a known time zone, collectors, a renderer and sinks that are valid.
pub open spec fn artifact_valid(a: ArtifactView) -> bool {
    &&& valid_id(a.id)
    &&& !blank(a.timezone)
    &&& zone_known(a.timezone)
    &&& a.collectors.len() > 0
    &&& steps_valid(a.collectors)
    &&& artifact_command_valid(a.renderer)
    &&& steps_valid(a.sinks)
}

/// Every workflow is valid, and no two share an id.
pub open spec fn artifacts_valid(c: ArtifactsView) -> bool {
    &&& c.version == 1
    &&& forall|i: int| 0 <= i < c.artifacts.len() ==> artifact_valid(#[trigger] c.artifacts[i])
    &&& forall|i: int, j: int|
        0 <= i < j < c.artifacts.len() ==> (#[trigger] c.artifacts[i]).id != (
        #[trigger] c.artifacts[j]).id
}

pub proof fn lemma_names(names: Seq<Seq<char>>, field: Seq<char>, k: int)
    requires
        0 <= k <= names.len(),
    ensures
        unknown_failure(names, field, k) is None <==> forall|i: int|
            k <= i < names.len() ==> allowed(#[trigger] names[i]),
    decreases names.len() - k,
{
    if k < names.len() {
        lemma_names(names, field, k + 1);
    }
}

pub proof fn lemma_template(t: Seq<char>, field: Seq<char>)
    ensures
        template_failure(t, field) is None <==> template_valid(t),
{
    if placeholders(t) is Ok {
        lemma_names(placeholders(t)->Ok_0, field, 0);
    }
}

pub proof fn lemma_args(args: Seq<Seq<char>>, path: Seq<char>, i: int)
    requires
        0 <= i <= args.len(),
    ensures
        args_failure(args, path, i) is None <==> forall|k: int|
            i <= k < args.len() ==> template_valid(#[trigger] args[k]),
    decreases args.len() - i,
{
    if i < args.len() {
        lemma_template(args[i], path + ".args["@ + decimal(i as nat) + "]"@);
        lemma_args(args, path, i + 1);
    }
}

pub proof fn lemma_env(env: Seq<(Seq<char>, Seq<char>)>, path: Seq<char>, i: int)
    requires
        0 <= i <= env.len(),
    ensures
        env_failure(env, path, i) is None <==> forall|k: int|
            i <= k < env.len() ==> !blank((#[trigger] env[k]).0) && template_valid(env[k].1),
    decreases env.len() - i,
{
    if i < env.len() {
        lemma_template(env[i].1, path + ".env."@ + env[i].0);
        lemma_env(env, path, i + 1);
    }
}

pub proof fn lemma_command(c: ArtifactCommandView, path: Seq<char>)
    ensures
        artifact_command_failure(c, path) is None <==> artifact_command_valid(c),
{
    lemma_template(c.program, path + ".program"@);
    lemma_args(c.args, path, 0);
    if c.workdir is Some {
        lemma_template(c.workdir->0, path + ".workdir"@);
    }
    lemma_env(c.env, path, 0);
}

pub proof fn lemma_steps(
    list: Seq<ArtifactStepView>,
    base: Seq<char>,
    part: Seq<char>,
    word: Seq<char>,
    i: int,
)
    requires
        0 <= i <= list.len(),
    ensures
        steps_failure(list, base, part, word, i) is None <==> {
            &&& forall|k: int| i <= k < list.len() ==> step_valid(#[trigger] list[k])
            &&& forall|j: int, k: int|
                0 <= j < k < list.len() && i <= k ==> (#[trigger] list[j]).id != (
                #[trigger] list[k]).id
        },
    decreases list.len() - i,
{
    if i < list.len() {
        let path = step_path(base, part, i);
        lemma_steps(list, base, part, word, i + 1);
        lemma_command(list[i].command, path + ".command"@);
        assert(step_failure(list[i], path) is None <==> step_valid(list[i]));
        if steps_failure(list, base, part, word, i) is None {
            assert forall|j: int, k: int| 0 <= j < k < list.len() && i <= k implies (
            #[trigger] list[j]).id != (#[trigger] list[k]).id by {
                if k == i {
                    assert(!step_id_taken(list, i));
                }
            }
        } else if step_id_taken(list, i) {
            let k = choose|k: int| 0 <= k < i && (#[trigger] list[k]).id == list[i].id;
            assert(list[k].id == list[i].id);
        }
    }
}

pub proof fn lemma_artifact(a: ArtifactView, path: Seq<char>)
    ensures
        artifact_failure(a, path) is None <==> artifact_valid(a),
{
    lemma_steps(a.collectors, path, ".collectors"@, "collector"@, 0);
    lemma_command(a.renderer, path + ".renderer.command"@);
    lemma_steps(a.sinks, path, ".sinks"@, "sink"@, 0);
    assert(steps_failure(a.collectors, path, ".collectors"@, "collector"@, 0) is None
        <==> steps_valid(a.collectors));
    assert(steps_failure(a.sinks, path, ".sinks"@, "sink"@, 0) is None <==> steps_valid(a.sinks));
}

pub proof fn lemma_artifacts(list: Seq<ArtifactView>, i: int)
    requires
        0 <= i <= list.len(),
    ensures
        artifacts_failure(list, i) is None <==> {
            &&& forall|k: int| i <= k < list.len() ==> artifact_valid(#[trigger] list[k])
            &&& forall|j: int, k: int|
                0 <= j < k < list.len() && i <= k ==> (#[trigger] list[j]).id != (
                #[trigger] list[k]).id
        },
    decreases list.len() - i,
{
    if i < list.len() {
        lemma_artifacts(list, i + 1);
        lemma_artifact(list[i], artifact_path(i));
        if artifacts_failure(list, i) is None {
            assert forall|j: int, k: int| 0 <= j < k < list.len() && i <= k implies (
            #[trigger] list[j]).id != (#[trigger] list[k]).id by {
                if k == i {
                    assert(!artifact_id_taken(list, i));
                }
            }
        } else if artifact_id_taken(list, i) {
            let k = choose|k: int| 0 <= k < i && (#[trigger] list[k]).id == list[i].id;
            assert(list[k].id == list[i].id);
        }
    }
}

/// Validation accepts a configuration of workflows exactly when it meets every rule. In particular
/// ids are unique among workflows, and among the collectors and the sinks of each.
pub proof fn law_artifact_validation_is_exact(c: ArtifactsView)
    ensures
        artifacts_config_failure(c) is None <==> artifacts_valid(c),
{
    lemma_artifacts(c.artifacts, 0);
}

// ---------------------------------------------------------------------------------------------
// Collecting
// ---------------------------------------------------------------------------------------------
pub proof fn lemma_enabled_among(list: Seq<ArtifactStepView>, n: int, k: int)
    requires
        0 <= n <= list.len(),
        0 <= k < enabled_steps(list, n).len(),
    ensures
        exists|i: int| 0 <= i < n && #[trigger] list[i] == enabled_steps(list, n)[k],
    decreases n,
{
    if n > 0 {
        if list[n - 1].enabled && k == enabled_steps(list, n - 1).len() {
            assert(list[n - 1] == enabled_steps(list, n)[k]);
        } else {
            lemma_enabled_among(list, n - 1, k);
            let i = choose|i: int| 0 <= i < n - 1 && #[trigger] list[i] == enabled_steps(
                list,
                n - 1,
            )[k];
            assert(list[i] == enabled_steps(list, n)[k]);
        }
    }
}

/// Every collector that a valid workflow launches has a command that can be run.
pub proof fn law_collectors_of_valid_workflows_can_run(
    a: ArtifactView,
    k: int,
    date: CivilDate,
    run_id: Seq<char>,
    host: Seq<char>,
    paths: ArtifactPathsView,
)
    requires
        artifact_valid(a),
        0 <= k < enabled_steps(a.collectors, a.collectors.len() as int).len(),
    ensures
        job_of(
            a.id,
            date,
            run_id,
            host,
            paths,
            enabled_steps(a.collectors, a.collectors.len() as int)[k],
        ).command is Ok,
{
    let n = a.collectors.len() as int;
    let step = enabled_steps(a.collectors, n)[k];
    lemma_enabled_among(a.collectors, n, k);
    let i = choose|i: int| 0 <= i < n && #[trigger] a.collectors[i] == step;
    assert(step_valid(a.collectors[i]));
    let job = job_of(a.id, date, run_id, host, paths, step);
    lemma_command(step.command, ""@);
    law_checked_commands_resolve(step.command, ""@, job.vars);
}

pub proof fn lemma_contributed(outcomes: Seq<CollectedView>, id: Seq<char>, i: int, at: int)
    requires
        0 <= i <= at < outcomes.len(),
        outcomes[at].collector_id == id,
    ensures
        contribution(outcomes, id, i) is Some,
    decreases at - i,
{
    if outcomes[i].collector_id != id {
        lemma_contributed(outcomes, id, i + 1, at);
    }
}

pub proof fn lemma_statuses_found(
    list: Seq<StepStatusView>,
    outcomes: Seq<CollectedView>,
    n: int,
)
    requires
        0 <= n <= list.len(),
        forall|i: int|
            0 <= i < n ==> exists|k: int|
                0 <= k < outcomes.len() && (#[trigger] outcomes[k]).collector_id == (
                #[trigger] list[i]).id,
    ensures
        with_statuses(list, outcomes, n) is Ok,
        with_statuses(list, outcomes, n)->Ok_0.len() == n,
    decreases n,
{
    if n > 0 {
        lemma_statuses_found(list, outcomes, n - 1);
        let id = list[n - 1].id;
        let k = choose|k: int|
            0 <= k < outcomes.len() && (#[trigger] outcomes[k]).collector_id == id;
        lemma_contributed(outcomes, id, 0, k);
    }
}

/// A contribution is among the sorted ones exactly where it is among those handed in.
pub proof fn lemma_sorting_keeps(s: Seq<CollectorExecutionOutcome>, c: CollectorExecutionOutcome)
    ensures
        s.contains(c) <==> sorted(s, s.len() as int).contains(c),
{
    law_sorted(s, s.len() as int);
    assert(s.subrange(0, s.len() as int) =~= s);
    s.to_multiset_ensures();
    sorted(s, s.len() as int).to_multiset_ensures();
    assert(s.contains(c) <==> s.to_multiset().count(c) > 0);
}

/// What is written of the contributions that the workers handed in.
pub open spec fn records_of(results: Seq<Option<CollectorExecutionOutcome>>) -> Seq<CollectedView> {
    collected_views(sorted(contributions(results), results.len() as int))
}

/// Where each launched collector handed in a contribution and at least one record is all right,
/// collecting succeeds and keeps every record. Where a record is not all right, be it of a
/// collector that failed or of one that could not be started, the run goes on as a partial success.
pub proof fn law_partial_failure_does_not_stop_collecting(
    a: ArtifactView,
    date: CivilDate,
    run_id: Seq<char>,
    host: Seq<char>,
    paths: ArtifactPathsView,
    started_at: (int, int),
    results: Seq<Option<CollectorExecutionOutcome>>,
    finished_at: (int, int),
)
    requires
        results.len() == enabled_steps(a.collectors, a.collectors.len() as int).len(),
        forall|i: int|
            0 <= i < results.len() ==> (#[trigger] results[i]) is Some && results[i]->0@.collector_id
                == enabled_steps(a.collectors, a.collectors.len() as int)[i].id,
        exists|i: int|
            0 <= i < results.len() && (#[trigger] results[i])->0@.record.status == "ok"@,
    ensures
        none_lost(results),
        records_of(results).len() == results.len(),
        forall|i: int|
            0 <= i < results.len() ==> records_of(results).contains((#[trigger] results[i])->0@),
        ({
            let done = collected_run(
                started_run(a, date, run_id, host, paths, started_at),
                a.id,
                records_of(results),
                finished_at,
            );
            &&& done is Ok
            &&& done->Ok_0.status == "success"@ <==> forall|i: int|
                0 <= i < results.len() ==> (#[trigger] results[i])->0@.record.status == "ok"@
            &&& done->Ok_0.status == "partial_success"@ <==> exists|i: int|
                0 <= i < results.len() && (#[trigger] results[i])->0@.record.status != "ok"@
        }),
{
    let n = a.collectors.len() as int;
    let due = enabled_steps(a.collectors, n);
    let list = pending_steps(a.collectors, n);
    let given = contributions(results);
    let ordered = sorted(given, given.len() as int);
    let outcomes = records_of(results);
    law_run_file_lists_enabled_steps(a.collectors, n);
    law_sorted(given, given.len() as int);
    assert forall|i: int| 0 <= i < results.len() implies outcomes.contains(
        (#[trigger] results[i])->0@,
    ) by {
        lemma_sorting_keeps(given, results[i]->0);
        assert(given[i] == results[i]->0);
        let k = choose|k: int| 0 <= k < ordered.len() && ordered[k] == results[i]->0;
        assert(outcomes[k] == results[i]->0@);
    }
    assert forall|k: int| 0 <= k < outcomes.len() implies exists|i: int|
        0 <= i < results.len() && (#[trigger] results[i])->0@ == #[trigger] outcomes[k] by {
        lemma_sorting_keeps(given, ordered[k]);
        assert(ordered.contains(ordered[k]));
        let i = choose|i: int| 0 <= i < given.len() && given[i] == ordered[k];
        assert(results[i]->0@ == outcomes[k]);
    }
    assert forall|i: int| 0 <= i < list.len() implies exists|k: int|
        0 <= k < outcomes.len() && (#[trigger] outcomes[k]).collector_id == (
        #[trigger] list[i]).id by {
        assert(list[i].id == due[i].id);
        assert(outcomes.contains(results[i]->0@));
        let k = choose|k: int| 0 <= k < outcomes.len() && outcomes[k] == results[i]->0@;
        assert(outcomes[k].collector_id == list[i].id);
    }
    let good = choose|i: int|
        0 <= i < results.len() && (#[trigger] results[i])->0@.record.status == "ok"@;
    assert(outcomes.contains(results[good]->0@));
    assert(some_ok(outcomes)) by {
        let k = choose|k: int| 0 <= k < outcomes.len() && outcomes[k] == results[good]->0@;
        assert(outcomes[k].record.status == "ok"@);
    }
    if all_ok(outcomes) {
        assert forall|i: int| 0 <= i < results.len() implies (
        #[trigger] results[i])->0@.record.status == "ok"@ by {
            assert(outcomes.contains(results[i]->0@));
            let k = choose|k: int| 0 <= k < outcomes.len() && outcomes[k] == results[i]->0@;
            assert(outcomes[k].record.status == "ok"@);
        }
    } else {
        let k = choose|k: int|
            0 <= k < outcomes.len() && (#[trigger] outcomes[k]).record.status != "ok"@;
        let i = choose|i: int|
            0 <= i < results.len() && (#[trigger] results[i])->0@ == outcomes[k];
        assert(results[i]->0@.record.status != "ok"@);
    }
    lemma_statuses_found(list, outcomes, list.len() as int);
    law_collected_status(
        started_run(a, date, run_id, host, paths, started_at),
        a.id,
        outcomes,
        finished_at,
    );
}

/// A collector that could not be started leaves a record in error among those of the run, and a
/// run in which another record is all right is a partial success.
pub proof fn law_unstarted_collectors_do_not_stop_collecting(
    a: ArtifactView,
    date: CivilDate,
    run_id: Seq<char>,
    host: Seq<char>,
    paths: ArtifactPathsView,
    started_at: (int, int),
    results: Seq<Option<CollectorExecutionOutcome>>,
    finished_at: (int, int),
    unstarted: int,
    failure: FailureView,
    collected_at: (int, int),
)
    requires
        results.len() == enabled_steps(a.collectors, a.collectors.len() as int).len(),
        forall|i: int|
            0 <= i < results.len() ==> (#[trigger] results[i]) is Some && results[i]->0@.collector_id
                == enabled_steps(a.collectors, a.collectors.len() as int)[i].id,
        exists|i: int|
            0 <= i < results.len() && (#[trigger] results[i])->0@.record.status == "ok"@,
        0 <= unstarted < results.len(),
        results[unstarted]->0@.record == error_record(
            job_of(
                a.id,
                date,
                run_id,
                host,
                paths,
                enabled_steps(a.collectors, a.collectors.len() as int)[unstarted],
            ).vars,
            enabled_steps(a.collectors, a.collectors.len() as int)[unstarted].id,
            "collector could not be started: "@ + full_text(failure),
            fault_payload("command_failed"@, failure.message),
            collected_at,
        ),
    ensures
        records_of(results).contains(results[unstarted]->0@),
        results[unstarted]->0@.record.status == "error"@,
        ({
            let done = collected_run(
                started_run(a, date, run_id, host, paths, started_at),
                a.id,
                records_of(results),
                finished_at,
            );
            done is Ok && done->Ok_0.status == "partial_success"@
        }),
{
    law_partial_failure_does_not_stop_collecting(
        a,
        date,
        run_id,
        host,
        paths,
        started_at,
        results,
        finished_at,
    );
    reveal_strlit("ok");
    reveal_strlit("error");
    assert("ok"@.len() != "error"@.len());
}

/// The names that templates use hold no brace.
pub proof fn lemma_run_names(v: VarsView)
    ensures
        forall|name: Seq<char>| #[trigger] var_map(v).dom().contains(name) ==> no_brace(name),
{
    reveal_strlit("artifact_id");
    reveal_strlit("artifact_date");
    reveal_strlit("run_id");
    reveal_strlit("run_dir");
    reveal_strlit("collect_file");
    reveal_strlit("render_input_file");
    reveal_strlit("render_file");
    reveal_strlit("host");
    reveal_strlit("collector_id");
    reveal_strlit("collector_output");
}

/// Where no value of a run holds a brace and no placeholder has white space next to its braces, a
/// template of a command is filled in in place.
pub proof fn law_commands_are_filled_in_place(template: Seq<char>, v: VarsView)
    requires
        forall|name: Seq<char>| #[trigger]
            var_map(v).dom().contains(name) ==> no_brace(var_map(v)[name]),
        pieces(template, 0) is Some ==> tidy(pieces(template, 0)->0),
    ensures
        resolved(template, var_map(v)) is Ok <==> placeholders(template) is Ok && forall|i: int|
            0 <= i < placeholders(template)->Ok_0.len() ==> var_map(v).dom().contains(
                #[trigger] placeholders(template)->Ok_0[i],
            ),
        resolved(template, var_map(v)) is Ok ==> pieces(template, 0) is Some && resolved(
            template,
            var_map(v),
        )->Ok_0 == in_place(pieces(template, 0)->0, var_map(v), 0),
{
    lemma_run_names(v);
    law_templates_need_their_values(template, var_map(v));
    if resolved(template, var_map(v)) is Ok {
        law_templates_are_filled_in_place(template, var_map(v));
    }
}

} // verus!

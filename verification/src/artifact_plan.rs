//! Collecting for an artifact: which commands run, with which values, and what comes of them.

use vstd::prelude::*;

use crate::artifact_run::{
    artifact_date, artifact_paths, collector_file, collector_output, current_host_name,
    generate_run_id, host_name, parse_artifact_date, resolve_command, resolved_command,
    resolved_result, run_id_of, run_paths, run_vars, template_vars, ArtifactPaths,
    ArtifactPathsView, CollectorExecutionOutcome, ResolvedCommand, ResolvedView,
    RuntimeTemplateVars, VarsView,
};
use crate::artifact_runfile::{
    collectors_to_run, enabled_steps, sort_outcomes, started_run, ArtifactRunFile,
};
use crate::artifacts::{collector_views, ArtifactConfig, ArtifactStepView, ArtifactView};
use crate::calendar::{date_read, CivilDate, Timestamp};
use crate::failure::{plain, Failure, FailureView};
use crate::sorting::sorted;
use crate::text::opt_text;

verus! {

// ---------------------------------------------------------------------------------------------
// Jobs
// ---------------------------------------------------------------------------------------------
/// One collector of a run: the command to run, or why it cannot be, and where it leaves its record.
#[derive(Debug)]
pub struct CollectJob {
    pub collector_id: String,
    pub vars: RuntimeTemplateVars,
    pub command: Result<ResolvedCommand, Failure>,
    pub output: String,
}

/// One collector of a run.
pub struct JobView {
    pub collector_id: Seq<char>,
    pub vars: VarsView,
    pub command: Result<ResolvedView, FailureView>,
    pub output: Seq<char>,
}

impl View for CollectJob {
    type V = JobView;

    open spec fn view(&self) -> JobView {
        JobView {
            collector_id: self.collector_id@,
            vars: self.vars@,
            command: resolved_result(self.command),
            output: self.output@,
        }
    }
}

/// The job of a collector.
pub open spec fn job_of(
    artifact_id: Seq<char>,
    date: CivilDate,
    run_id: Seq<char>,
    host: Seq<char>,
    paths: ArtifactPathsView,
    collector: ArtifactStepView,
) -> JobView {
    let vars = run_vars(artifact_id, date, run_id, host, paths, Some(collector.id));
    JobView {
        collector_id: collector.id,
        vars,
        command: resolved_command(collector.command, vars),
        output: collector_file(paths, collector.id),
    }
}

/// What collecting for an artifact on a date starts with.
#[derive(Debug)]
pub struct CollectPlan {
    pub date: CivilDate,
    pub paths: ArtifactPaths,
    pub run_file: ArtifactRunFile,
    pub jobs: Vec<CollectJob>,
}

/// What collecting for an artifact on a date starts with: the state of the run, and one job for
/// each enabled collector, in their order.
pub open spec fn plans_collect(
    plan: CollectPlan,
    a: ArtifactView,
    date: CivilDate,
    run_id: Seq<char>,
    host: Seq<char>,
    started_at: (int, int),
) -> bool {
    let paths = run_paths(a.workdir, date);
    let due = enabled_steps(a.collectors, a.collectors.len() as int);
    &&& plan.date == date
    &&& plan.paths@ == paths
    &&& plan.run_file@ == started_run(a, date, run_id, host, paths, started_at)
    &&& plan.jobs@.len() == due.len()
    &&& forall|i: int|
        0 <= i < due.len() ==> (#[trigger] plan.jobs@[i])@ == job_of(
            a.id,
            date,
            run_id,
            host,
            paths,
            due[i],
        )
}

/// What collecting for an artifact on a date starts with.
pub fn plan_collect_on(
    artifact: &ArtifactConfig,
    date: CivilDate,
    run_id: &str,
    host: &str,
    started_at: Timestamp,
) -> (r: CollectPlan)
    ensures
        plans_collect(r, artifact@, date, run_id@, host@, started_at@),
{
    let paths = artifact_paths(artifact, date);
    let run_file = ArtifactRunFile::new(artifact, date, run_id, host, &paths, started_at);
    let collectors = collectors_to_run(artifact);
    let ghost due = enabled_steps(artifact@.collectors, artifact@.collectors.len() as int);
    let mut jobs: Vec<CollectJob> = Vec::new();
    let mut i: usize = 0;
    while i < collectors.len()
        invariant
            i <= collectors@.len(),
            collector_views(collectors@) == due,
            paths@ == run_paths(artifact@.workdir, date),
            jobs@.len() == i,
            forall|k: int|
                0 <= k < i ==> (#[trigger] jobs@[k])@ == job_of(
                    artifact@.id,
                    date,
                    run_id@,
                    host@,
                    paths@,
                    due[k],
                ),
        decreases collectors@.len() - i,
    {
        let collector = &collectors[i];
        assert(due[i as int] == collector@);
        let id = Some(collector.id.clone());
        let vars = template_vars(artifact, date, run_id, host, &paths, &id);
        assert(opt_text(id) == Some(collector.id@));
        let command = resolve_command(&collector.command, &vars);
        let output = collector_output(&paths, &collector.id);
        jobs.push(CollectJob { collector_id: collector.id.clone(), vars, command, output });
        i = i + 1;
    }
    assert(due.len() == collectors@.len());
    CollectPlan { date, paths, run_file, jobs }
}

/// What collecting for an artifact starts with, given the date as text, the host's name where the
/// environment tells it, some random text and the time.
pub fn plan_collect(
    artifact: &ArtifactConfig,
    date: &str,
    hostname: &Option<String>,
    random: &str,
    now: &Timestamp,
    started_at: Timestamp,
) -> (r: Result<CollectPlan, Failure>)
    requires
        random@.len() >= 8,
    ensures
        match artifact_date(date@, date_read(date@, "%Y-%m-%d"@)) {
            Ok(day) => r is Ok && plans_collect(
                r->Ok_0,
                artifact@,
                day,
                run_id_of(now@, random@),
                host_name(opt_text(*hostname)),
                started_at@,
            ),
            Err(f) => r is Err && r->Err_0@ == f,
        },
{
    let day = match parse_artifact_date(date) {
        Ok(day) => day,
        Err(f) => {
            return Err(f);
        },
    };
    let host = current_host_name(hostname);
    let run_id = generate_run_id(now, random);
    Ok(plan_collect_on(artifact, day, &run_id, &host, started_at))
}

// ---------------------------------------------------------------------------------------------
// Results
// ---------------------------------------------------------------------------------------------
/// Whether every worker handed in a contribution.
pub open spec fn none_lost(results: Seq<Option<CollectorExecutionOutcome>>) -> bool {
    forall|i: int| 0 <= i < results.len() ==> (#[trigger] results[i]) is Some
}

/// The contributions that all workers handed in.
pub open spec fn contributions(
    results: Seq<Option<CollectorExecutionOutcome>>,
) -> Seq<CollectorExecutionOutcome> {
    Seq::new(results.len(), |i: int| results[i]->0)
}

/// The contributions of all collectors by ascending id. Collecting is given up only where a worker
/// panicked and so handed in nothing.
pub fn settle_collectors(
    results: Vec<Option<CollectorExecutionOutcome>>,
) -> (r: Result<Vec<CollectorExecutionOutcome>, Failure>)
    ensures
        if none_lost(results@) {
            r is Ok && r->Ok_0@ == sorted(contributions(results@), results@.len() as int)
        } else {
            r is Err && r->Err_0@ == plain("collector thread panicked"@)
        },
{
    let ghost all = results@;
    let mut rest = results;
    let mut back: Vec<CollectorExecutionOutcome> = Vec::new();
    while rest.len() > 0
        invariant
            all == results@,
            rest@.len() + back@.len() == all.len(),
            rest@ == all.subrange(0, rest@.len() as int),
            forall|j: int| rest@.len() <= j < all.len() ==> (#[trigger] all[j]) is Some,
            forall|j: int|
                0 <= j < back@.len() ==> (#[trigger] back@[j]) == all[all.len() - 1 - j]->0,
        decreases rest@.len(),
    {
        let ghost n = rest@.len() as int;
        let last = rest.pop().unwrap();
        assert(last == all[n - 1]);
        match last {
            Some(outcome) => {
                back.push(outcome);
            },
            None => {
                assert(!none_lost(all));
                return Err(Failure::new("collector thread panicked".to_owned()));
            },
        }
        assert(rest@ =~= all.subrange(0, rest@.len() as int));
    }
    let mut outcomes: Vec<CollectorExecutionOutcome> = Vec::new();
    while back.len() > 0
        invariant
            outcomes@.len() + back@.len() == all.len(),
            forall|j: int|
                0 <= j < back@.len() ==> (#[trigger] back@[j]) == all[all.len() - 1 - j]->0,
            forall|j: int| 0 <= j < outcomes@.len() ==> (#[trigger] outcomes@[j]) == all[j]->0,
        decreases back@.len(),
    {
        let outcome = back.pop().unwrap();
        outcomes.push(outcome);
    }
    assert(outcomes@ =~= contributions(all));
    Ok(sort_outcomes(outcomes))
}

} // verus!

//! The run file: how far a run of an artifact workflow has come, and how it ended.

use vstd::prelude::*;

use crate::artifact_records::{
    rendered_failure, RenderedArtifact, RenderedView, ARTIFACT_SCHEMA_VERSION,
};
use crate::artifact_run::{
    collected_views, ArtifactPaths, ArtifactPathsView, CollectedView, CollectorExecutionOutcome,
};
use crate::artifacts::{
    collector_views, sink_views, ArtifactCollectorConfig, ArtifactConfig, ArtifactSinkConfig,
    ArtifactStepView, ArtifactView,
};
use crate::calendar::{date_digits, date_text, CivilDate, Timestamp};
use crate::failure::{caused, full_text, plain, told, Failure, FailureView};
use crate::sorting::{sort_by_key, sorted};
use crate::text::{concat3, same_text};

verus! {

// ---------------------------------------------------------------------------------------------
// The file
// ---------------------------------------------------------------------------------------------
/// How far one step of a run has come.
pub struct StepStatusView {
    pub id: Seq<char>,
    pub status: Seq<char>,
}

/// How far one step of a run has come.
#[derive(Debug)]
pub struct ArtifactRunStepStatus {
    pub id: String,
    pub status: String,
}

impl View for ArtifactRunStepStatus {
    type V = StepStatusView;

    open spec fn view(&self) -> StepStatusView {
        StepStatusView { id: self.id@, status: self.status@ }
    }
}

/// The views of a list of steps.
pub open spec fn step_status_views(v: Seq<ArtifactRunStepStatus>) -> Seq<StepStatusView> {
    Seq::new(v.len(), |i: int| v[i]@)
}

/// The documents of a run.
#[derive(Debug)]
pub struct ArtifactRunPaths {
    pub records: String,
    pub render_input: String,
    pub rendered: String,
}

/// The state of a run.
#[verifier::ext_equal]
pub struct RunFileView {
    pub schema_version: u32,
    pub artifact_id: Seq<char>,
    pub artifact_date: Seq<char>,
    pub run_id: Seq<char>,
    pub host: Seq<char>,
    pub timezone: Seq<char>,
    pub started_at: (int, int),
    pub finished_at: Option<(int, int)>,
    pub status: Seq<char>,
    pub records: Seq<char>,
    pub render_input: Seq<char>,
    pub rendered: Seq<char>,
    pub collectors: Seq<StepStatusView>,
    pub renderer: StepStatusView,
    pub sinks: Seq<StepStatusView>,
}

/// The state of a run.
#[derive(Debug)]
pub struct ArtifactRunFile {
    pub schema_version: u32,
    pub artifact_id: String,
    pub artifact_date: String,
    pub run_id: String,
    pub host: String,
    pub timezone: String,
    pub started_at: Timestamp,
    pub finished_at: Option<Timestamp>,
    pub status: String,
    pub paths: ArtifactRunPaths,
    pub collectors: Vec<ArtifactRunStepStatus>,
    pub renderer: ArtifactRunStepStatus,
    pub sinks: Vec<ArtifactRunStepStatus>,
}

impl View for ArtifactRunFile {
    type V = RunFileView;

    open spec fn view(&self) -> RunFileView {
        RunFileView {
            schema_version: self.schema_version,
            artifact_id: self.artifact_id@,
            artifact_date: self.artifact_date@,
            run_id: self.run_id@,
            host: self.host@,
            timezone: self.timezone@,
            started_at: self.started_at@,
            finished_at: match self.finished_at {
                Some(t) => Some(t@),
                None => None,
            },
            status: self.status@,
            records: self.paths.records@,
            render_input: self.paths.render_input@,
            rendered: self.paths.rendered@,
            collectors: step_status_views(self.collectors@),
            renderer: self.renderer@,
            sinks: step_status_views(self.sinks@),
        }
    }
}

/// The enabled ones of the first `n` steps, each still to come.
pub open spec fn pending_steps(list: Seq<ArtifactStepView>, n: int) -> Seq<StepStatusView>
    decreases n,
{
    if n <= 0 {
        Seq::empty()
    } else if list[n - 1].enabled {
        pending_steps(list, n - 1).push(StepStatusView { id: list[n - 1].id, status: "pending"@ })
    } else {
        pending_steps(list, n - 1)
    }
}

/// The state of a run that starts.
pub open spec fn started_run(
    a: ArtifactView,
    date: CivilDate,
    run_id: Seq<char>,
    host: Seq<char>,
    paths: ArtifactPathsView,
    started_at: (int, int),
) -> RunFileView {
    RunFileView {
        schema_version: ARTIFACT_SCHEMA_VERSION,
        artifact_id: a.id,
        artifact_date: date_digits(date),
        run_id,
        host,
        timezone: a.timezone,
        started_at,
        finished_at: None,
        status: "running"@,
        records: paths.collect_file,
        render_input: paths.render_input_file,
        rendered: paths.render_file,
        collectors: pending_steps(a.collectors, a.collectors.len() as int),
        renderer: StepStatusView { id: "renderer"@, status: "pending"@ },
        sinks: pending_steps(a.sinks, a.sinks.len() as int),
    }
}

fn pending(id: &str) -> (r: ArtifactRunStepStatus)
    ensures
        r@ == (StepStatusView { id: id@, status: "pending"@ }),
{
    ArtifactRunStepStatus { id: id.to_owned(), status: "pending".to_owned() }
}

fn pending_collectors(list: &Vec<ArtifactCollectorConfig>) -> (r: Vec<ArtifactRunStepStatus>)
    ensures
        step_status_views(r@) == pending_steps(collector_views(list@), list@.len() as int),
{
    let ghost views = collector_views(list@);
    let mut r: Vec<ArtifactRunStepStatus> = Vec::new();
    let mut i: usize = 0;
    assert(step_status_views(r@) =~= pending_steps(views, 0));
    while i < list.len()
        invariant
            i <= list@.len(),
            views == collector_views(list@),
            step_status_views(r@) == pending_steps(views, i as int),
        decreases list@.len() - i,
    {
        let ghost prior = step_status_views(r@);
        assert(views[i as int] == list@[i as int]@);
        if list[i].enabled {
            r.push(pending(&list[i].id));
            assert(step_status_views(r@) =~= prior.push(
                StepStatusView { id: views[i as int].id, status: "pending"@ },
            ));
        }
        i = i + 1;
    }
    r
}

fn pending_sinks(list: &Vec<ArtifactSinkConfig>) -> (r: Vec<ArtifactRunStepStatus>)
    ensures
        step_status_views(r@) == pending_steps(sink_views(list@), list@.len() as int),
{
    let ghost views = sink_views(list@);
    let mut r: Vec<ArtifactRunStepStatus> = Vec::new();
    let mut i: usize = 0;
    assert(step_status_views(r@) =~= pending_steps(views, 0));
    while i < list.len()
        invariant
            i <= list@.len(),
            views == sink_views(list@),
            step_status_views(r@) == pending_steps(views, i as int),
        decreases list@.len() - i,
    {
        let ghost prior = step_status_views(r@);
        assert(views[i as int] == list@[i as int]@);
        if list[i].enabled {
            r.push(pending(&list[i].id));
            assert(step_status_views(r@) =~= prior.push(
                StepStatusView { id: views[i as int].id, status: "pending"@ },
            ));
        }
        i = i + 1;
    }
    r
}

impl ArtifactRunFile {
    /// The state of a run that starts: every enabled step is still to come.
    pub fn new(
        artifact: &ArtifactConfig,
        date: CivilDate,
        run_id: &str,
        host: &str,
        paths: &ArtifactPaths,
        started_at: Timestamp,
    ) -> (r: ArtifactRunFile)
        ensures
            r@ == started_run(artifact@, date, run_id@, host@, paths@, started_at@),
    {
        ArtifactRunFile {
            schema_version: ARTIFACT_SCHEMA_VERSION,
            artifact_id: artifact.id.clone(),
            artifact_date: date_text(date),
            run_id: run_id.to_owned(),
            host: host.to_owned(),
            timezone: artifact.timezone.clone(),
            started_at,
            finished_at: None,
            status: "running".to_owned(),
            paths: ArtifactRunPaths {
                records: paths.collect_file.clone(),
                render_input: paths.render_input_file.clone(),
                rendered: paths.render_file.clone(),
            },
            collectors: pending_collectors(&artifact.collectors),
            renderer: pending("renderer"),
            sinks: pending_sinks(&artifact.sinks),
        }
    }
}

/// The enabled ones of the first `n` steps.
pub open spec fn enabled_steps(list: Seq<ArtifactStepView>, n: int) -> Seq<ArtifactStepView>
    decreases n,
{
    if n <= 0 {
        Seq::empty()
    } else if list[n - 1].enabled {
        enabled_steps(list, n - 1).push(list[n - 1])
    } else {
        enabled_steps(list, n - 1)
    }
}

/// The collectors that a run launches.
pub fn collectors_to_run(artifact: &ArtifactConfig) -> (r: Vec<ArtifactCollectorConfig>)
    ensures
        collector_views(r@) == enabled_steps(
            artifact@.collectors,
            artifact@.collectors.len() as int,
        ),
{
    let ghost views = artifact@.collectors;
    let mut r: Vec<ArtifactCollectorConfig> = Vec::new();
    let mut i: usize = 0;
    assert(collector_views(r@) =~= enabled_steps(views, 0));
    while i < artifact.collectors.len()
        invariant
            i <= artifact.collectors@.len(),
            views == artifact@.collectors,
            collector_views(r@) == enabled_steps(views, i as int),
        decreases artifact.collectors@.len() - i,
    {
        let ghost prior = collector_views(r@);
        assert(views[i as int] == artifact.collectors@[i as int]@);
        if artifact.collectors[i].enabled {
            r.push(artifact.collectors[i].clone());
            assert(collector_views(r@) =~= prior.push(views[i as int]));
        }
        i = i + 1;
    }
    r
}

/// The steps that a run file lists at its start are the enabled ones, in their order.
pub proof fn law_run_file_lists_enabled_steps(list: Seq<ArtifactStepView>, n: int)
    requires
        0 <= n <= list.len(),
    ensures
        pending_steps(list, n).len() == enabled_steps(list, n).len(),
        forall|k: int|
            0 <= k < pending_steps(list, n).len() ==> (#[trigger] pending_steps(list, n)[k]).id
                == enabled_steps(list, n)[k].id,
    decreases n,
{
    if n > 0 {
        law_run_file_lists_enabled_steps(list, n - 1);
    }
}

// ---------------------------------------------------------------------------------------------
// After collecting
// ---------------------------------------------------------------------------------------------
/// The contributions of all collectors by ascending id.
pub fn sort_outcomes(outcomes: Vec<CollectorExecutionOutcome>) -> (r: Vec<
    CollectorExecutionOutcome,
>)
    ensures
        r@ == sorted(outcomes@, outcomes@.len() as int),
{
    sort_by_key(outcomes)
}

/// The first contribution of a collector from position `i` on.
pub open spec fn contribution(
    outcomes: Seq<CollectedView>,
    id: Seq<char>,
    i: int,
) -> Option<CollectedView>
    decreases outcomes.len() - i,
{
    if i < 0 || i >= outcomes.len() {
        None
    } else if outcomes[i].collector_id == id {
        Some(outcomes[i])
    } else {
        contribution(outcomes, id, i + 1)
    }
}

/// The first `n` collectors with the statuses of their records, or the first that has none.
pub open spec fn with_statuses(
    list: Seq<StepStatusView>,
    outcomes: Seq<CollectedView>,
    n: int,
) -> Result<Seq<StepStatusView>, FailureView>
    decreases n,
{
    if n <= 0 {
        Ok(Seq::empty())
    } else {
        match with_statuses(list, outcomes, n - 1) {
            Err(f) => Err(f),
            Ok(done) => match contribution(outcomes, list[n - 1].id, 0) {
                None => Err(
                    plain("missing collector outcome for '"@ + list[n - 1].id + "'"@),
                ),
                Some(c) => Ok(
                    done.push(StepStatusView { id: list[n - 1].id, status: c.record.status }),
                ),
            },
        }
    }
}

/// Whether a record of that status is among the contributions.
pub open spec fn some_ok(outcomes: Seq<CollectedView>) -> bool {
    exists|i: int| 0 <= i < outcomes.len() && (#[trigger] outcomes[i]).record.status == "ok"@
}

/// Whether every record is all right.
pub open spec fn all_ok(outcomes: Seq<CollectedView>) -> bool {
    forall|i: int| 0 <= i < outcomes.len() ==> (#[trigger] outcomes[i]).record.status == "ok"@
}

/// The state of a run whose collectors have ended. At least one record has to be all right; the
/// run is a full success only where all are.
pub open spec fn collected_run(
    run: RunFileView,
    artifact_id: Seq<char>,
    outcomes: Seq<CollectedView>,
    finished_at: (int, int),
) -> Result<RunFileView, FailureView> {
    if outcomes.len() == 0 {
        Err(plain("artifact '"@ + artifact_id + "' produced no collector records"@))
    } else if !some_ok(outcomes) {
        Err(
            plain(
                "artifact '"@ + artifact_id
                    + "' did not produce any successful collector records"@,
            ),
        )
    } else {
        match with_statuses(run.collectors, outcomes, run.collectors.len() as int) {
            Err(f) => Err(f),
            Ok(collectors) => Ok(
                RunFileView {
                    collectors,
                    status: if all_ok(outcomes) {
                        "success"@
                    } else {
                        "partial_success"@
                    },
                    finished_at: Some(finished_at),
                    ..run
                },
            ),
        }
    }
}

/// A run file or a failure in views.
pub open spec fn run_result(r: Result<ArtifactRunFile, Failure>) -> Result<
    RunFileView,
    FailureView,
> {
    match r {
        Ok(run) => Ok(run@),
        Err(f) => Err(f@),
    }
}

fn find_contribution<'a>(outcomes: &'a Vec<CollectorExecutionOutcome>, id: &str) -> (r: Option<
    &'a CollectorExecutionOutcome,
>)
    ensures
        match r {
            Some(c) => contribution(collected_views(outcomes@), id@, 0) == Some(c@),
            None => contribution(collected_views(outcomes@), id@, 0) is None,
        },
{
    let ghost views = collected_views(outcomes@);
    let mut i: usize = 0;
    while i < outcomes.len()
        invariant
            i <= outcomes@.len(),
            views == collected_views(outcomes@),
            contribution(views, id@, 0) == contribution(views, id@, i as int),
        decreases outcomes@.len() - i,
    {
        assert(views[i as int] == outcomes@[i as int]@);
        if same_text(&outcomes[i].collector_id, id) {
            return Some(&outcomes[i]);
        }
        i = i + 1;
    }
    None
}

fn count_ok(outcomes: &Vec<CollectorExecutionOutcome>) -> (r: usize)
    ensures
        r <= outcomes@.len(),
        r > 0 <==> some_ok(collected_views(outcomes@)),
        r == outcomes@.len() <==> all_ok(collected_views(outcomes@)),
{
    let ghost views = collected_views(outcomes@);
    let mut count: usize = 0;
    let mut i: usize = 0;
    while i < outcomes.len()
        invariant
            count <= i <= outcomes@.len(),
            views == collected_views(outcomes@),
            count > 0 <==> exists|k: int|
                0 <= k < i && (#[trigger] views[k]).record.status == "ok"@,
            count == i <==> forall|k: int|
                0 <= k < i ==> (#[trigger] views[k]).record.status == "ok"@,
        decreases outcomes@.len() - i,
    {
        assert(views[i as int] == outcomes@[i as int]@);
        if same_text(&outcomes[i].record.status, "ok") {
            count = count + 1;
        }
        i = i + 1;
    }
    count
}

proof fn lemma_statuses_fail(
    list: Seq<StepStatusView>,
    outcomes: Seq<CollectedView>,
    from: int,
    to: int,
)
    requires
        0 <= from <= to,
        with_statuses(list, outcomes, from) is Err,
    ensures
        with_statuses(list, outcomes, to) == with_statuses(list, outcomes, from),
    decreases to - from,
{
    if from < to {
        lemma_statuses_fail(list, outcomes, from, to - 1);
    }
}

/// The state of a run whose collectors have ended.
pub fn finish_collect(
    run: ArtifactRunFile,
    artifact_id: &str,
    outcomes: &Vec<CollectorExecutionOutcome>,
    finished_at: Timestamp,
) -> (r: Result<ArtifactRunFile, Failure>)
    ensures
        run_result(r) == collected_run(
            run@,
            artifact_id@,
            collected_views(outcomes@),
            finished_at@,
        ),
{
    let ghost views = collected_views(outcomes@);
    let ok_count = count_ok(outcomes);
    if outcomes.len() == 0 {
        return Err(
            Failure::new(concat3("artifact '", artifact_id, "' produced no collector records")),
        );
    }
    if ok_count == 0 {
        return Err(
            Failure::new(
                concat3(
                    "artifact '",
                    artifact_id,
                    "' did not produce any successful collector records",
                ),
            ),
        );
    }
    let ghost list = run@.collectors;
    let mut collectors: Vec<ArtifactRunStepStatus> = Vec::new();
    let mut i: usize = 0;
    assert(step_status_views(collectors@) =~= Seq::empty());
    while i < run.collectors.len()
        invariant
            i <= run.collectors@.len(),
            list == run@.collectors,
            views == collected_views(outcomes@),
            views.len() > 0,
            some_ok(views),
            with_statuses(list, views, i as int) == Ok::<Seq<StepStatusView>, FailureView>(
                step_status_views(collectors@),
            ),
        decreases run.collectors@.len() - i,
    {
        let ghost prior = step_status_views(collectors@);
        assert(list[i as int] == run.collectors@[i as int]@);
        match find_contribution(outcomes, &run.collectors[i].id) {
            Some(c) => {
                let step = ArtifactRunStepStatus {
                    id: run.collectors[i].id.clone(),
                    status: c.record.status.clone(),
                };
                collectors.push(step);
                assert(step_status_views(collectors@) =~= prior.push(step@));
            },
            None => {
                proof {
                    lemma_statuses_fail(list, views, i + 1, list.len() as int);
                }
                return Err(
                    Failure::new(
                        concat3("missing collector outcome for '", &run.collectors[i].id, "'"),
                    ),
                );
            },
        }
        i = i + 1;
    }
    let status = if ok_count == outcomes.len() {
        "success".to_owned()
    } else {
        "partial_success".to_owned()
    };
    let mut done = run;
    done.collectors = collectors;
    done.status = status;
    done.finished_at = Some(finished_at);
    Ok(done)
}

/// A run whose collectors have ended is a full success exactly where all records are all right.
pub proof fn law_collected_status(
    run: RunFileView,
    artifact_id: Seq<char>,
    outcomes: Seq<CollectedView>,
    finished_at: (int, int),
)
    ensures
        match collected_run(run, artifact_id, outcomes, finished_at) {
            Ok(done) => {
                &&& done.status == "success"@ <==> all_ok(outcomes)
                &&& done.status == "partial_success"@ <==> !all_ok(outcomes)
                &&& some_ok(outcomes)
            },
            Err(_) => true,
        },
{
    reveal_strlit("success");
    reveal_strlit("partial_success");
    assert("success"@.len() != "partial_success"@.len());
}

// ---------------------------------------------------------------------------------------------
// Rendering
// ---------------------------------------------------------------------------------------------
/// The run file with another status of its renderer.
pub open spec fn with_renderer(run: RunFileView, status: Seq<char>) -> RunFileView {
    RunFileView { renderer: StepStatusView { status, ..run.renderer }, ..run }
}

/// The status of a run after its renderer has ended: a full success is kept only where the
/// artifact is all right, and an artifact in error makes any other run a failure.
pub open spec fn status_after_render(status: Seq<char>, rendered: Seq<char>) -> Seq<char> {
    if status == "success"@ && rendered != "ok"@ {
        "partial_success"@
    } else if rendered == "error"@ {
        "failed"@
    } else {
        status
    }
}

/// The state of a run whose renderer has ended.
pub open spec fn rendered_run(run: RunFileView, rendered: RenderedView) -> Result<
    RunFileView,
    FailureView,
> {
    match rendered_failure(rendered) {
        Some(f) => Err(f),
        None => Ok(
            RunFileView {
                status: status_after_render(run.status, rendered.status),
                ..with_renderer(run, rendered.status)
            },
        ),
    }
}

impl ArtifactRunFile {
    /// Notes that the renderer runs.
    pub fn start_render(&mut self)
        ensures
            final(self)@ == with_renderer(old(self)@, "running"@),
    {
        self.renderer.status = "running".to_owned();
    }
}

/// The state of a run whose renderer has ended.
pub fn finish_render(run: ArtifactRunFile, rendered: &RenderedArtifact) -> (r: Result<
    ArtifactRunFile,
    Failure,
>)
    ensures
        run_result(r) == rendered_run(run@, rendered@),
        r is Ok <==> rendered_failure(rendered@) is None,
        r is Ok ==> r->Ok_0.renderer.status@ == rendered.status@,
        r is Ok && run.status@ == "success"@ && rendered.status@ == "ok"@ ==> r->Ok_0.status@
            == "success"@,
        r is Ok && run.status@ == "success"@ && rendered.status@ != "ok"@ ==> r->Ok_0.status@
            == "partial_success"@,
        r is Ok && run.status@ != "success"@ && rendered.status@ == "error"@ ==> r->Ok_0.status@
            == "failed"@,
        r is Ok && run.status@ != "success"@ && rendered.status@ != "error"@ ==> r->Ok_0.status@
            == run.status@,
{
    proof {
        reveal_strlit("ok");
        reveal_strlit("error");
        assert("ok"@.len() != "error"@.len());
    }
    match rendered.validate() {
        Err(f) => {
            return Err(f);
        },
        Ok(_) => {},
    }
    let mut done = run;
    done.renderer.status = rendered.status.clone();
    if same_text(&done.status, "success") && !same_text(&rendered.status, "ok") {
        done.status = "partial_success".to_owned();
    } else if same_text(&rendered.status, "error") {
        done.status = "failed".to_owned();
    }
    Ok(done)
}

// ---------------------------------------------------------------------------------------------
// Delivering
// ---------------------------------------------------------------------------------------------
/// The run file with another status of one sink.
pub open spec fn with_sink(run: RunFileView, i: int, status: Seq<char>) -> RunFileView {
    RunFileView {
        sinks: run.sinks.update(i, StepStatusView { status, ..run.sinks[i] }),
        ..run
    }
}

/// The position of the first sink with an id from position `i` on.
pub open spec fn sink_position(sinks: Seq<ArtifactStepView>, id: Seq<char>, i: int) -> Option<int>
    decreases sinks.len() - i,
{
    if i < 0 || i >= sinks.len() {
        None
    } else if sinks[i].id == id {
        Some(i)
    } else {
        sink_position(sinks, id, i + 1)
    }
}

fn find_sink(artifact: &ArtifactConfig, id: &str) -> (r: Option<usize>)
    ensures
        match r {
            Some(i) => i < artifact.sinks@.len() && sink_position(artifact@.sinks, id@, 0) == Some(
                i as int,
            ),
            None => sink_position(artifact@.sinks, id@, 0) is None,
        },
{
    let ghost views = artifact@.sinks;
    let mut i: usize = 0;
    while i < artifact.sinks.len()
        invariant
            i <= artifact.sinks@.len(),
            views == artifact@.sinks,
            sink_position(views, id@, 0) == sink_position(views, id@, i as int),
        decreases artifact.sinks@.len() - i,
    {
        assert(views[i as int] == artifact.sinks@[i as int]@);
        if same_text(&artifact.sinks[i].id, id) {
            return Some(i);
        }
        i = i + 1;
    }
    None
}

/// What is done about one sink of a run.
pub enum SinkStep {
    /// It is disabled and left out.
    LeftOut,
    /// The sink at that position is to be run.
    Run(int),
    /// The workflow does not know it any more.
    Unknown,
}

/// What is done about the sink of a run at position `i`.
pub open spec fn sink_step(a: ArtifactView, run: RunFileView, i: int) -> SinkStep {
    match sink_position(a.sinks, run.sinks[i].id, 0) {
        None => SinkStep::Unknown,
        Some(k) => if a.sinks[k].enabled {
            SinkStep::Run(k)
        } else {
            SinkStep::LeftOut
        },
    }
}

/// What a delivery does next. The state of the run is written before it goes on, except where the
/// workflow does not know a sink.
#[derive(Debug)]
pub enum SinkAction {
    /// Run the command of the sink at position `sink` of the workflow, for the sink of the run at
    /// position `at`.
    Run { at: usize, sink: usize },
    /// All sinks have been dealt with.
    Done,
    /// A sink failed; that is what is reported.
    Failed(Failure),
    /// The workflow does not know a sink of the run; that is what is reported.
    Unknown(Failure),
}

/// What a delivery does next.
pub enum SinkTurn {
    Run { at: int, sink: int },
    Done,
    Failed(FailureView),
    Unknown(FailureView),
}

impl View for SinkAction {
    type V = SinkTurn;

    open spec fn view(&self) -> SinkTurn {
        match *self {
            SinkAction::Run { at, sink } => SinkTurn::Run { at: at as int, sink: sink as int },
            SinkAction::Done => SinkTurn::Done,
            SinkAction::Failed(f) => SinkTurn::Failed(f@),
            SinkAction::Unknown(f) => SinkTurn::Unknown(f@),
        }
    }
}

/// The state of a run whose sinks have all been dealt with.
pub open spec fn finished_sinks(run: RunFileView, now: (int, int)) -> RunFileView {
    RunFileView {
        status: if run.status == "running"@ {
            "success"@
        } else {
            run.status
        },
        finished_at: Some(now),
        ..run
    }
}

/// The state of a run, and what is done next, where its sinks before position `i` have been dealt
/// with: disabled sinks are marked and passed over, the first other one is run.
pub open spec fn advanced(a: ArtifactView, run: RunFileView, i: int, now: (int, int)) -> (
    RunFileView,
    SinkTurn,
)
    decreases run.sinks.len() - i,
{
    if i < 0 || i >= run.sinks.len() {
        (finished_sinks(run, now), SinkTurn::Done)
    } else {
        match sink_step(a, run, i) {
            SinkStep::Unknown => (
                run,
                SinkTurn::Unknown(plain("missing sink config for '"@ + run.sinks[i].id + "'"@)),
            ),
            SinkStep::LeftOut => advanced(a, with_sink(run, i, "disabled"@), i + 1, now),
            SinkStep::Run(k) => (
                with_sink(run, i, "running"@),
                SinkTurn::Run { at: i, sink: k },
            ),
        }
    }
}

/// The state of a run, and what is done next, after the sink at position `at` was run: on success
/// the delivery goes on behind it, a failure ends it.
pub open spec fn after_sink(
    a: ArtifactView,
    run: RunFileView,
    at: int,
    failure: Option<FailureView>,
    now: (int, int),
) -> (RunFileView, SinkTurn) {
    match failure {
        None => advanced(a, with_sink(run, at, "ok"@), at + 1, now),
        Some(f) => (
            RunFileView { status: "failed"@, ..with_sink(run, at, "error"@) },
            SinkTurn::Failed(
                caused("sink '"@ + run.sinks[at].id + "' failed"@, full_text(f)),
            ),
        ),
    }
}

impl ArtifactRunFile {
    fn set_sink(&mut self, i: usize, status: &str)
        requires
            i < old(self).sinks@.len(),
        ensures
            final(self)@ == with_sink(old(self)@, i as int, status@),
            final(self).sinks@.len() == old(self).sinks@.len(),
    {
        let step = ArtifactRunStepStatus {
            id: self.sinks[i].id.clone(),
            status: status.to_owned(),
        };
        assert(old(self)@.sinks[i as int] == old(self).sinks@[i as int]@);
        self.sinks.set(i, step);
        assert(self@.sinks =~= with_sink(old(self)@, i as int, status@).sinks);
    }

    /// Goes on from the sink at position `i`: marks the disabled ones on the way, and stops at the
    /// first that is to be run or that the workflow does not know, or at the end.
    fn advance_sinks(&mut self, artifact: &ArtifactConfig, i: usize, now: Timestamp) -> (r:
        SinkAction)
        requires
            i <= old(self).sinks@.len(),
        ensures
            (final(self)@, r@) == advanced(artifact@, old(self)@, i as int, now@),
            r matches SinkAction::Run { at, sink } ==> at < final(self).sinks@.len() && sink
                < artifact.sinks@.len(),
    {
        let ghost from = self@;
        let mut at: usize = i;
        while at < self.sinks.len()
            invariant
                from == old(self)@,
                at <= self.sinks@.len(),
                advanced(artifact@, self@, at as int, now@) == advanced(
                    artifact@,
                    from,
                    i as int,
                    now@,
                ),
            decreases self.sinks@.len() - at,
        {
            assert(self@.sinks[at as int] == self.sinks@[at as int]@);
            match find_sink(artifact, &self.sinks[at].id) {
                None => {
                    return SinkAction::Unknown(
                        Failure::new(
                            concat3("missing sink config for '", &self.sinks[at].id, "'"),
                        ),
                    );
                },
                Some(k) => {
                    assert(artifact@.sinks[k as int] == artifact.sinks@[k as int]@);
                    if artifact.sinks[k].enabled {
                        self.set_sink(at, "running");
                        return SinkAction::Run { at, sink: k };
                    }
                    self.set_sink(at, "disabled");
                },
            }
            at = at + 1;
        }
        if same_text(&self.status, "running") {
            self.status = "success".to_owned();
        }
        self.finished_at = Some(now);
        SinkAction::Done
    }

    /// What a delivery does first.
    pub fn begin_sinks(&mut self, artifact: &ArtifactConfig, now: Timestamp) -> (r: SinkAction)
        ensures
            (final(self)@, r@) == advanced(artifact@, old(self)@, 0, now@),
            r matches SinkAction::Run { at, sink } ==> at < final(self).sinks@.len() && sink
                < artifact.sinks@.len(),
    {
        self.advance_sinks(artifact, 0, now)
    }

    /// What a delivery does after the sink at position `at` was run. A failure ends it: no further
    /// sink is run.
    pub fn next_sink(
        &mut self,
        artifact: &ArtifactConfig,
        at: usize,
        last: Result<(), Failure>,
        now: Timestamp,
    ) -> (r: SinkAction)
        requires
            at < old(self).sinks@.len(),
        ensures
            (final(self)@, r@) == after_sink(artifact@, old(self)@, at as int, told(last), now@),
            last is Err ==> r is Failed && final(self)@.status == "failed"@,
            r matches SinkAction::Run { at: next, sink } ==> at < next < final(self).sinks@.len()
                && sink < artifact.sinks@.len(),
    {
        match last {
            Ok(_) => {
                self.set_sink(at, "ok");
                let ghost delivered = self@;
                assert(at < self.sinks.len());
                let r = self.advance_sinks(artifact, at + 1, now);
                proof {
                    lemma_advanced(artifact@, delivered, at + 1, now@);
                }
                r
            },
            Err(error) => {
                assert(self@.sinks[at as int] == self.sinks@[at as int]@);
                let message = concat3("sink '", &self.sinks[at].id, "' failed");
                self.set_sink(at, "error");
                self.status = "failed".to_owned();
                SinkAction::Failed(Failure::caused_by(message, &error.full_text()))
            },
        }
    }
}

/// Whether the sink of a run at position `i` is known to the workflow.
pub open spec fn sink_known(a: ArtifactView, run: RunFileView, i: int) -> bool {
    sink_position(a.sinks, run.sinks[i].id, 0) is Some
}

/// Whether the sink of a run at position `i` is to be run.
pub open spec fn sink_due(a: ArtifactView, run: RunFileView, i: int) -> bool {
    sink_step(a, run, i) is Run
}

/// Going on stops at the first sink that is to be run, and marks those before it as disabled.
proof fn lemma_advanced(a: ArtifactView, run: RunFileView, i: int, now: (int, int))
    requires
        0 <= i <= run.sinks.len(),
    ensures
        ({
            let (after, turn) = advanced(a, run, i, now);
            &&& after.sinks.len() == run.sinks.len()
            &&& turn matches SinkTurn::Run { at, sink } ==> i <= at < run.sinks.len()
        }),
    decreases run.sinks.len() - i,
{
    if i < run.sinks.len() && sink_step(a, run, i) is LeftOut {
        lemma_advanced(a, with_sink(run, i, "disabled"@), i + 1, now);
    }
}

/// A whole delivery from the sink at position `i` on, where running the sink at a position `k`
/// fails with `answers[k]` or, where that is none, succeeds: each step is the one that the step
/// before asks for.
pub open spec fn delivery(
    a: ArtifactView,
    run: RunFileView,
    answers: Seq<Option<FailureView>>,
    i: int,
    now: (int, int),
) -> (RunFileView, SinkTurn)
    decreases run.sinks.len() - i,
{
    match advanced(a, run, i, now) {
        (started, SinkTurn::Run { at, sink }) => if i <= at < run.sinks.len()
            && started.sinks.len() == run.sinks.len() {
            match answers[at] {
                Some(f) => after_sink(a, started, at, Some(f), now),
                None => delivery(a, with_sink(started, at, "ok"@), answers, at + 1, now),
            }
        } else {
            (started, SinkTurn::Run { at, sink })
        },
        (after, end) => (after, end),
    }
}

/// What a delivery has made of the sinks before position `n`: those that were due are delivered,
/// the others are left out. The later ones are as they were.
pub open spec fn sinks_settled(
    a: ArtifactView,
    run: RunFileView,
    after: RunFileView,
    from: int,
    n: int,
) -> bool {
    &&& after.sinks.len() == run.sinks.len()
    &&& forall|k: int|
        0 <= k < run.sinks.len() ==> (#[trigger] after.sinks[k]).id == run.sinks[k].id
    &&& forall|k: int|
        from <= k < n ==> (#[trigger] after.sinks[k]).status == (if sink_due(a, run, k) {
            "ok"@
        } else {
            "disabled"@
        })
    &&& forall|k: int| 0 <= k < from ==> (#[trigger] after.sinks[k]) == run.sinks[k]
    &&& forall|k: int| n < k < run.sinks.len() ==> (#[trigger] after.sinks[k]) == run.sinks[k]
}

/// The delivery from the sink at position `i` on, one sink further.
proof fn lemma_delivery_step(
    a: ArtifactView,
    run: RunFileView,
    answers: Seq<Option<FailureView>>,
    i: int,
    now: (int, int),
)
    requires
        0 <= i < run.sinks.len(),
        sink_known(a, run, i),
    ensures
        !sink_due(a, run, i) ==> delivery(a, run, answers, i, now) == delivery(
            a,
            with_sink(run, i, "disabled"@),
            answers,
            i + 1,
            now,
        ),
        sink_due(a, run, i) && answers[i] is None ==> delivery(a, run, answers, i, now) == delivery(
            a,
            with_sink(run, i, "ok"@),
            answers,
            i + 1,
            now,
        ),
        sink_due(a, run, i) && answers[i] is Some ==> delivery(a, run, answers, i, now)
            == after_sink(a, with_sink(run, i, "running"@), i, answers[i], now),
{
    if sink_due(a, run, i) {
        let started = with_sink(run, i, "running"@);
        assert(with_sink(started, i, "ok"@).sinks =~= with_sink(run, i, "ok"@).sinks);
    } else {
        let next = with_sink(run, i, "disabled"@);
        lemma_advanced(a, next, i + 1, now);
        assert(advanced(a, run, i, now) == advanced(a, next, i + 1, now));
    }
}

/// A sink is known and due whatever the statuses of the sinks say.
proof fn lemma_status_aside(a: ArtifactView, run: RunFileView, i: int, status: Seq<char>)
    requires
        0 <= i < run.sinks.len(),
    ensures
        forall|k: int|
            0 <= k < run.sinks.len() ==> #[trigger] sink_known(a, with_sink(run, i, status), k)
                == sink_known(a, run, k),
        forall|k: int|
            0 <= k < run.sinks.len() ==> #[trigger] sink_due(a, with_sink(run, i, status), k)
                == sink_due(a, run, k),
{
    let other = with_sink(run, i, status);
    assert forall|k: int| 0 <= k < run.sinks.len() implies #[trigger] sink_known(a, other, k)
        == sink_known(a, run, k) by {
        assert(other.sinks[k].id == run.sinks[k].id);
    }
    assert forall|k: int| 0 <= k < run.sinks.len() implies #[trigger] sink_due(a, other, k)
        == sink_due(a, run, k) by {
        assert(other.sinks[k].id == run.sinks[k].id);
    }
}

/// Where the workflow knows every sink and each that is run succeeds, a delivery runs the enabled
/// sinks in the order of the run, ends well, and notes when; a run that was still going is then a
/// success, and any other status is kept.
pub proof fn law_delivery_accounts_for_every_sink(
    a: ArtifactView,
    run: RunFileView,
    answers: Seq<Option<FailureView>>,
    i: int,
    now: (int, int),
)
    requires
        0 <= i <= run.sinks.len() == answers.len(),
        forall|k: int| i <= k < run.sinks.len() ==> #[trigger] sink_known(a, run, k),
        forall|k: int|
            i <= k < run.sinks.len() && sink_due(a, run, k) ==> (#[trigger] answers[k]) is None,
    ensures
        ({
            let (after, turn) = delivery(a, run, answers, i, now);
            &&& turn is Done
            &&& sinks_settled(a, run, after, i, run.sinks.len() as int)
            &&& after == (RunFileView {
                sinks: after.sinks,
                status: if run.status == "running"@ {
                    "success"@
                } else {
                    run.status
                },
                finished_at: Some(now),
                ..run
            })
        }),
    decreases run.sinks.len() - i,
{
    if i < run.sinks.len() {
        assert(sink_known(a, run, i));
        assert(sink_due(a, run, i) ==> answers[i] is None);
        lemma_delivery_step(a, run, answers, i, now);
        let status = if sink_due(a, run, i) {
            "ok"@
        } else {
            "disabled"@
        };
        let next = with_sink(run, i, status);
        lemma_status_aside(a, run, i, status);
        assert forall|k: int| i + 1 <= k < next.sinks.len() && sink_due(a, next, k) implies (
        #[trigger] answers[k]) is None by {
            assert(sink_due(a, run, k));
        }
        law_delivery_accounts_for_every_sink(a, next, answers, i + 1, now);
        let (after, turn) = delivery(a, next, answers, i + 1, now);
        lemma_settled_on(a, run, next, after, i, run.sinks.len() as int, status);
    }
}

proof fn lemma_settled_on(
    a: ArtifactView,
    run: RunFileView,
    next: RunFileView,
    after: RunFileView,
    i: int,
    n: int,
    status: Seq<char>,
)
    requires
        0 <= i < n <= run.sinks.len(),
        next == with_sink(run, i, status),
        status == (if sink_due(a, run, i) {
            "ok"@
        } else {
            "disabled"@
        }),
        sinks_settled(a, next, after, i + 1, n),
    ensures
        sinks_settled(a, run, after, i, n),
{
    lemma_status_aside(a, run, i, status);
    assert forall|k: int| 0 <= k < run.sinks.len() implies (#[trigger] after.sinks[k]).id
        == run.sinks[k].id by {
        assert(next.sinks[k].id == run.sinks[k].id);
    }
    assert forall|k: int| i <= k < n implies (#[trigger] after.sinks[k]).status == (if sink_due(
        a,
        run,
        k,
    ) {
        "ok"@
    } else {
        "disabled"@
    }) by {
        if k == i {
            assert(after.sinks[i] == next.sinks[i]);
        } else {
            assert(sink_due(a, next, k) == sink_due(a, run, k));
        }
    }
    assert forall|k: int| 0 <= k < i implies (#[trigger] after.sinks[k]) == run.sinks[k] by {
        assert(next.sinks[k] == run.sinks[k]);
    }
    assert forall|k: int| n < k < run.sinks.len() implies (#[trigger] after.sinks[k])
        == run.sinks[k] by {
        assert(next.sinks[k] == run.sinks[k]);
    }
}

/// Where the sink at position `n` is the first to fail, the delivery ends with its failure: the
/// sinks before it are delivered or left out, it is in error, those behind it are not run and keep
/// their statuses, and the run has failed.
pub proof fn law_delivery_stops_at_the_first_failure(
    a: ArtifactView,
    run: RunFileView,
    answers: Seq<Option<FailureView>>,
    i: int,
    n: int,
    now: (int, int),
)
    requires
        0 <= i <= n < run.sinks.len() == answers.len(),
        forall|k: int| i <= k <= n ==> #[trigger] sink_known(a, run, k),
        forall|k: int| i <= k < n && sink_due(a, run, k) ==> (#[trigger] answers[k]) is None,
        sink_due(a, run, n),
        answers[n] is Some,
    ensures
        ({
            let (after, turn) = delivery(a, run, answers, i, now);
            &&& turn == SinkTurn::Failed(
                caused("sink '"@ + run.sinks[n].id + "' failed"@, full_text(answers[n]->0)),
            )
            &&& sinks_settled(a, run, after, i, n)
            &&& after.sinks[n].status == "error"@
            &&& after == (RunFileView { sinks: after.sinks, status: "failed"@, ..run })
        }),
    decreases n - i,
{
    assert(sink_known(a, run, i));
    lemma_delivery_step(a, run, answers, i, now);
    if i < n {
        assert(sink_due(a, run, i) ==> answers[i] is None);
        let status = if sink_due(a, run, i) {
            "ok"@
        } else {
            "disabled"@
        };
        let next = with_sink(run, i, status);
        lemma_status_aside(a, run, i, status);
        assert forall|k: int| i + 1 <= k < n && sink_due(a, next, k) implies (
        #[trigger] answers[k]) is None by {
            assert(sink_due(a, run, k));
        }
        assert(sink_due(a, next, n));
        law_delivery_stops_at_the_first_failure(a, next, answers, i + 1, n, now);
        let (after, turn) = delivery(a, next, answers, i + 1, now);
        lemma_settled_on(a, run, next, after, i, n, status);
    }
}

// ---------------------------------------------------------------------------------------------
// Documents on disk
// ---------------------------------------------------------------------------------------------
/// What went wrong with a document on disk. The texts are the errors below.
#[derive(Debug)]
pub enum DocumentFault {
    /// The directory of the document could not be created.
    Directory(String),
    Create(String),
    Write(String),
    Open(String),
    Parse(String),
}

/// What a fault of a document on disk says.
pub open spec fn document_failure(path: Seq<char>, fault: DocumentFault) -> FailureView {
    match fault {
        DocumentFault::Directory(e) => caused(
            "failed to create directory '"@ + crate::paths::directory_of(path) + "'"@,
            e@,
        ),
        DocumentFault::Create(e) => caused("failed to create json file '"@ + path + "'"@, e@),
        DocumentFault::Write(e) => caused("failed to write json file '"@ + path + "'"@, e@),
        DocumentFault::Open(e) => caused("failed to open json file '"@ + path + "'"@, e@),
        DocumentFault::Parse(e) => caused("failed to parse json file '"@ + path + "'"@, e@),
    }
}

/// The failure behind a fault of a document on disk.
pub fn judge_document(path: &str, fault: &DocumentFault) -> (r: Failure)
    ensures
        r@ == document_failure(path@, *fault),
{
    match fault {
        DocumentFault::Directory(e) => Failure::caused_by(
            concat3("failed to create directory '", &crate::paths::directory(path), "'"),
            e,
        ),
        DocumentFault::Create(e) => Failure::caused_by(
            concat3("failed to create json file '", path, "'"),
            e,
        ),
        DocumentFault::Write(e) => Failure::caused_by(
            concat3("failed to write json file '", path, "'"),
            e,
        ),
        DocumentFault::Open(e) => Failure::caused_by(
            concat3("failed to open json file '", path, "'"),
            e,
        ),
        DocumentFault::Parse(e) => Failure::caused_by(
            concat3("failed to parse json file '", path, "'"),
            e,
        ),
    }
}

/// What went wrong with the file of records. The texts are the errors below.
#[derive(Debug)]
pub enum RecordsFault {
    /// The directory for the output of collectors could not be created.
    Directory(String),
    Create(String),
    /// The record of that collector could not be encoded.
    Encode(String, String),
    Newline(String),
    Flush(String),
    /// The finished file could not be put in its place.
    Finalize(String),
    Open(String),
}

/// What a fault of the file of records says.
pub open spec fn records_failure(
    paths: ArtifactPathsView,
    fault: RecordsFault,
) -> FailureView {
    match fault {
        RecordsFault::Directory(e) => caused(
            "failed to create collector output directory '"@ + paths.collectors_dir + "'"@,
            e@,
        ),
        RecordsFault::Create(e) => caused(
            "failed to create records file '"@ + paths.collect_partial_file + "'"@,
            e@,
        ),
        RecordsFault::Encode(id, e) => caused(
            "failed to encode record for '"@ + id@ + "'"@,
            e@,
        ),
        RecordsFault::Newline(e) => caused("failed to write newline"@, e@),
        RecordsFault::Flush(e) => caused("failed to flush records file"@, e@),
        RecordsFault::Finalize(e) => caused(
            "failed to finalize records file '"@ + paths.collect_file + "'"@,
            e@,
        ),
        RecordsFault::Open(e) => caused(
            "failed to open records file '"@ + paths.collect_file + "'"@,
            e@,
        ),
    }
}

/// The failure behind a fault of the file of records.
pub fn judge_records_fault(paths: &ArtifactPaths, fault: &RecordsFault) -> (r: Failure)
    ensures
        r@ == records_failure(paths@, *fault),
{
    match fault {
        RecordsFault::Directory(e) => Failure::caused_by(
            concat3(
                "failed to create collector output directory '",
                &paths.collectors_dir,
                "'",
            ),
            e,
        ),
        RecordsFault::Create(e) => Failure::caused_by(
            concat3("failed to create records file '", &paths.collect_partial_file, "'"),
            e,
        ),
        RecordsFault::Encode(id, e) => Failure::caused_by(
            concat3("failed to encode record for '", id, "'"),
            e,
        ),
        RecordsFault::Newline(e) => Failure::caused_by("failed to write newline".to_owned(), e),
        RecordsFault::Flush(e) => Failure::caused_by(
            "failed to flush records file".to_owned(),
            e,
        ),
        RecordsFault::Finalize(e) => Failure::caused_by(
            concat3("failed to finalize records file '", &paths.collect_file, "'"),
            e,
        ),
        RecordsFault::Open(e) => Failure::caused_by(
            concat3("failed to open records file '", &paths.collect_file, "'"),
            e,
        ),
    }
}

} // verus!

//! The commands of `artifactctl`, and what each asks for.

use vstd::prelude::*;

use crate::artifacts::{artifact_position, ArtifactsConfig, ArtifactsView};
use crate::failure::{plain, Failure, FailureView};
use crate::text::{concat3, same_text, texts};

verus! {

/// A command of `artifactctl`.
#[derive(Debug)]
pub enum ArtifactCommand {
    Validate,
    List,
    Collect { artifact_id: String, date: String },
    Render { artifact_id: String, date: String },
    Sink { artifact_id: String, date: String },
    Run { artifact_id: String, date: String },
}

/// A command line of `artifactctl`.
#[derive(Debug)]
pub struct ArtifactCli {
    pub config: String,
    pub command: ArtifactCommand,
}

/// What a command of `artifactctl` asks for under a valid configuration.
pub enum ArtifactWorkView {
    Print(Seq<Seq<char>>),
    Work { artifact: int, date: Seq<char>, collect: bool, render: bool, sink: bool },
}

/// What a command of `artifactctl` asks for under a valid configuration: lines to print, or the
/// phases to carry out, in order, for the workflow at a position.
#[derive(Debug)]
pub enum ArtifactWork {
    Print(Vec<String>),
    Work { artifact: usize, date: String, collect: bool, render: bool, sink: bool },
}

/// What a command asks for, or a failure, in views.
pub open spec fn work_result(r: Result<ArtifactWork, Failure>) -> Result<
    ArtifactWorkView,
    FailureView,
> {
    match r {
        Ok(ArtifactWork::Print(lines)) => Ok(ArtifactWorkView::Print(texts(lines@))),
        Ok(ArtifactWork::Work { artifact, date, collect, render, sink }) => Ok(
            ArtifactWorkView::Work { artifact: artifact as int, date: date@, collect, render, sink },
        ),
        Err(f) => Err(f@),
    }
}

/// The phases to carry out for a workflow, or that there is none with that id.
pub open spec fn work_on(
    c: ArtifactsView,
    id: Seq<char>,
    date: Seq<char>,
    collect: bool,
    render: bool,
    sink: bool,
) -> Result<ArtifactWorkView, FailureView> {
    match artifact_position(c.artifacts, id, 0) {
        None => Err(plain("artifact '"@ + id + "' not found"@)),
        Some(i) => Ok(ArtifactWorkView::Work { artifact: i, date, collect, render, sink }),
    }
}

/// What a command asks for.
pub open spec fn artifact_work(c: ArtifactsView, command: ArtifactCommand) -> Result<
    ArtifactWorkView,
    FailureView,
> {
    match command {
        ArtifactCommand::Validate => Ok(ArtifactWorkView::Print(seq!["config is valid"@])),
        ArtifactCommand::List => Ok(
            ArtifactWorkView::Print(Seq::new(c.artifacts.len(), |i: int| c.artifacts[i].id)),
        ),
        ArtifactCommand::Collect { artifact_id, date } => work_on(
            c,
            artifact_id@,
            date@,
            true,
            false,
            false,
        ),
        ArtifactCommand::Render { artifact_id, date } => work_on(
            c,
            artifact_id@,
            date@,
            false,
            true,
            false,
        ),
        ArtifactCommand::Sink { artifact_id, date } => work_on(
            c,
            artifact_id@,
            date@,
            false,
            false,
            true,
        ),
        ArtifactCommand::Run { artifact_id, date } => work_on(
            c,
            artifact_id@,
            date@,
            true,
            true,
            true,
        ),
    }
}

fn plan_work(
    config: &ArtifactsConfig,
    id: &str,
    date: &str,
    collect: bool,
    render: bool,
    sink: bool,
) -> (r: Result<ArtifactWork, Failure>)
    ensures
        work_result(r) == work_on(config@, id@, date@, collect, render, sink),
        r is Ok ==> r->Ok_0 is Work && r->Ok_0->artifact < config.artifacts@.len(),
{
    let ghost list = config@.artifacts;
    let mut i: usize = 0;
    while i < config.artifacts.len()
        invariant
            i <= config.artifacts@.len(),
            list == config@.artifacts,
            artifact_position(list, id@, 0) == artifact_position(list, id@, i as int),
        decreases config.artifacts@.len() - i,
    {
        assert(list[i as int] == config.artifacts@[i as int]@);
        if same_text(&config.artifacts[i].id, id) {
            return Ok(
                ArtifactWork::Work { artifact: i, date: date.to_owned(), collect, render, sink },
            );
        }
        i = i + 1;
    }
    Err(Failure::new(concat3("artifact '", id, "' not found")))
}

/// What a command asks for under a valid configuration.
pub fn run(config: &ArtifactsConfig, command: &ArtifactCommand) -> (r: Result<ArtifactWork, Failure>)
    ensures
        work_result(r) == artifact_work(config@, *command),
        r is Ok && r->Ok_0 is Work ==> r->Ok_0->artifact < config.artifacts@.len(),
{
    match command {
        ArtifactCommand::Validate => {
            let mut lines: Vec<String> = Vec::new();
            lines.push("config is valid".to_owned());
            assert(texts(lines@) =~= seq!["config is valid"@]);
            Ok(ArtifactWork::Print(lines))
        },
        ArtifactCommand::List => {
            let mut lines: Vec<String> = Vec::new();
            let mut i: usize = 0;
            while i < config.artifacts.len()
                invariant
                    i <= config.artifacts@.len(),
                    lines@.len() == i,
                    forall|j: int|
                        0 <= j < i ==> (#[trigger] lines@[j])@ == config.artifacts@[j].id@,
                decreases config.artifacts@.len() - i,
            {
                lines.push(config.artifacts[i].id.clone());
                i = i + 1;
            }
            assert(texts(lines@) =~= Seq::new(
                config@.artifacts.len(),
                |i: int| config@.artifacts[i].id,
            ));
            Ok(ArtifactWork::Print(lines))
        },
        ArtifactCommand::Collect { artifact_id, date } => plan_work(
            config,
            artifact_id,
            date,
            true,
            false,
            false,
        ),
        ArtifactCommand::Render { artifact_id, date } => plan_work(
            config,
            artifact_id,
            date,
            false,
            true,
            false,
        ),
        ArtifactCommand::Sink { artifact_id, date } => plan_work(
            config,
            artifact_id,
            date,
            false,
            false,
            true,
        ),
        ArtifactCommand::Run { artifact_id, date } => plan_work(
            config,
            artifact_id,
            date,
            true,
            true,
            true,
        ),
    }
}

} // verus!

//! The records that collectors leave, the input of a renderer and what it renders.

use vstd::prelude::*;

use crate::artifacts::{ArtifactConfig, ArtifactView};
use crate::calendar::Timestamp;
use crate::failure::{caused, plain, told, Failure, FailureView};
use crate::json::{JsonValue, JsonView};
use crate::sorting::{sort_by_key, sorted, Keyed};
use crate::tally::{count_texts, counts, sum_counts};
use crate::text::{
    blank, concat, concat3, concat5, decimal, decimal_text, is_blank, same_text, texts,
};
use crate::text_map::TextMap;

verus! {

/// The version of all documents of a workflow.
pub const ARTIFACT_SCHEMA_VERSION: u32 = 1;

// ---------------------------------------------------------------------------------------------
// Fields
// ---------------------------------------------------------------------------------------------
/// The statuses of documents.
pub open spec fn known_status(status: Seq<char>) -> bool {
    status == "ok"@ || status == "warn"@ || status == "error"@
}

/// The failure of a status.
pub open spec fn status_failure(status: Seq<char>) -> Option<FailureView> {
    if known_status(status) {
        None
    } else {
        Some(plain("status '"@ + status + "' must be one of ok, warn, error"@))
    }
}

/// Checks the status of a document.
pub fn validate_status(status: &str) -> (r: Result<(), Failure>)
    ensures
        told(r) == status_failure(status@),
{
    if same_text(status, "ok") || same_text(status, "warn") || same_text(status, "error") {
        return Ok(());
    }
    Err(Failure::new(concat3("status '", status, "' must be one of ok, warn, error")))
}

/// The content types of records.
pub open spec fn record_content(content_type: Seq<char>) -> bool {
    content_type == "application/json"@ || content_type == "text/plain"@
}

/// The content types of rendered artifacts.
pub open spec fn rendered_content(content_type: Seq<char>) -> bool {
    content_type == "text/markdown"@ || content_type == "application/json"@ || content_type
        == "text/plain"@
}

/// The first rule that the fields of a record break. The word says what kind of record it is.
pub open spec fn fields_failure(
    word: Seq<char>,
    schema_version: u32,
    status: Seq<char>,
    summary: Seq<char>,
    content_type: Seq<char>,
) -> Option<FailureView> {
    if schema_version != ARTIFACT_SCHEMA_VERSION {
        Some(plain(word + " schema_version must be 1"@))
    } else if !known_status(status) {
        status_failure(status)
    } else if blank(summary) {
        Some(plain(word + " summary must not be empty"@))
    } else if !record_content(content_type) {
        Some(plain(word + " content_type '"@ + content_type + "' is not supported"@))
    } else {
        None
    }
}

fn check_fields(
    word: &str,
    schema_version: u32,
    status: &str,
    summary: &str,
    content_type: &str,
) -> (r: Result<(), Failure>)
    ensures
        told(r) == fields_failure(word@, schema_version, status@, summary@, content_type@),
{
    if schema_version != ARTIFACT_SCHEMA_VERSION {
        return Err(Failure::new(concat(word, " schema_version must be 1")));
    }
    let r = validate_status(status);
    if r.is_err() {
        return r;
    }
    if is_blank(summary) {
        return Err(Failure::new(concat(word, " summary must not be empty")));
    }
    if !same_text(content_type, "application/json") && !same_text(content_type, "text/plain") {
        let mut message = concat3(word, " content_type '", content_type);
        message.append("' is not supported");
        return Err(Failure::new(message));
    }
    Ok(())
}

// ---------------------------------------------------------------------------------------------
// Records
// ---------------------------------------------------------------------------------------------
/// What a collector leaves.
pub struct RecordInputView {
    pub schema_version: u32,
    pub status: Seq<char>,
    pub summary: Seq<char>,
    pub content_type: Seq<char>,
    pub payload: JsonView,
}

/// What a collector leaves.
#[derive(Debug)]
pub struct CollectorRecordInput {
    pub schema_version: u32,
    pub status: String,
    pub summary: String,
    pub content_type: String,
    pub payload: JsonValue,
}

impl View for CollectorRecordInput {
    type V = RecordInputView;

    open spec fn view(&self) -> RecordInputView {
        RecordInputView {
            schema_version: self.schema_version,
            status: self.status@,
            summary: self.summary@,
            content_type: self.content_type@,
            payload: self.payload@,
        }
    }
}

/// The first rule that what a collector leaves breaks.
pub open spec fn input_failure(c: RecordInputView) -> Option<FailureView> {
    fields_failure("collector"@, c.schema_version, c.status, c.summary, c.content_type)
}

impl CollectorRecordInput {
    /// Checks what a collector left.
    pub fn validate(&self) -> (r: Result<(), Failure>)
        ensures
            told(r) == input_failure(self@),
    {
        check_fields(
            "collector",
            self.schema_version,
            &self.status,
            &self.summary,
            &self.content_type,
        )
    }
}

/// The record of one collector in one run.
pub struct ArtifactRecordView {
    pub schema_version: u32,
    pub artifact_id: Seq<char>,
    pub artifact_date: Seq<char>,
    pub run_id: Seq<char>,
    pub collector_id: Seq<char>,
    pub host: Seq<char>,
    pub collected_at: (int, int),
    pub status: Seq<char>,
    pub summary: Seq<char>,
    pub content_type: Seq<char>,
    pub payload: JsonView,
}

/// The record of one collector in one run.
#[derive(Debug)]
pub struct ArtifactRecord {
    pub schema_version: u32,
    pub artifact_id: String,
    pub artifact_date: String,
    pub run_id: String,
    pub collector_id: String,
    pub host: String,
    pub collected_at: Timestamp,
    pub status: String,
    pub summary: String,
    pub content_type: String,
    pub payload: JsonValue,
}

impl View for ArtifactRecord {
    type V = ArtifactRecordView;

    open spec fn view(&self) -> ArtifactRecordView {
        ArtifactRecordView {
            schema_version: self.schema_version,
            artifact_id: self.artifact_id@,
            artifact_date: self.artifact_date@,
            run_id: self.run_id@,
            collector_id: self.collector_id@,
            host: self.host@,
            collected_at: self.collected_at@,
            status: self.status@,
            summary: self.summary@,
            content_type: self.content_type@,
            payload: self.payload@,
        }
    }
}

/// The first rule that a record breaks.
pub open spec fn record_failure(c: ArtifactRecordView) -> Option<FailureView> {
    fields_failure("record"@, c.schema_version, c.status, c.summary, c.content_type)
}

impl ArtifactRecord {
    /// Checks a record.
    pub fn validate(&self) -> (r: Result<(), Failure>)
        ensures
            told(r) == record_failure(self@),
    {
        check_fields(
            "record",
            self.schema_version,
            &self.status,
            &self.summary,
            &self.content_type,
        )
    }
}

impl Keyed for ArtifactRecord {
    open spec fn key_of(&self) -> Seq<char> {
        self.collector_id@
    }

    fn key(&self) -> (r: &str) {
        self.collector_id.as_str()
    }
}

/// The views of a list of records.
pub open spec fn artifact_record_views(v: Seq<ArtifactRecord>) -> Seq<ArtifactRecordView> {
    Seq::new(v.len(), |i: int| v[i]@)
}

/// A line of a file of records: it cannot be read, or it is a text that holds a record or not.
/// The other texts are the errors below.
#[derive(Debug)]
pub enum RecordLine {
    Unreadable(String),
    Text { text: String, parsed: Result<ArtifactRecord, String> },
}

/// A list of records or a failure in views.
pub open spec fn record_list(r: Result<Vec<ArtifactRecord>, Failure>) -> Result<
    Seq<ArtifactRecordView>,
    FailureView,
> {
    match r {
        Ok(v) => Ok(artifact_record_views(v@)),
        Err(f) => Err(f@),
    }
}

/// The records on the first `n` lines of a file: blank lines are left out, and the first line that
/// is unreadable or holds no valid record is a failure.
pub open spec fn records_read(lines: Seq<RecordLine>, path: Seq<char>, n: int) -> Result<
    Seq<ArtifactRecordView>,
    FailureView,
>
    decreases n,
{
    if n <= 0 {
        Ok(Seq::empty())
    } else {
        match records_read(lines, path, n - 1) {
            Err(f) => Err(f),
            Ok(records) => match lines[n - 1] {
                RecordLine::Unreadable(error) => Err(
                    caused(
                        "failed to read line "@ + decimal(n as nat) + " from records file '"@
                            + path + "'"@,
                        error@,
                    ),
                ),
                RecordLine::Text { text, parsed } => if blank(text@) {
                    Ok(records)
                } else {
                    match parsed {
                        Err(error) => Err(
                            caused(
                                "failed to parse record line "@ + decimal(n as nat) + " from '"@
                                    + path + "'"@,
                                error@,
                            ),
                        ),
                        Ok(record) => match record_failure(record@) {
                            Some(f) => Err(f),
                            None => Ok(records.push(record@)),
                        },
                    }
                },
            },
        }
    }
}

proof fn lemma_records_read_fails(lines: Seq<RecordLine>, path: Seq<char>, from: int, to: int)
    requires
        0 <= from <= to,
        records_read(lines, path, from) is Err,
    ensures
        records_read(lines, path, to) == records_read(lines, path, from),
    decreases to - from,
{
    if from < to {
        lemma_records_read_fails(lines, path, from, to - 1);
    }
}

/// The record on one line, or none where the line is blank.
fn read_record_line(line: RecordLine, number: u64, path: &str) -> (r: Result<
    Option<ArtifactRecord>,
    Failure,
>)
    requires
        number > 0,
    ensures
        match line {
            RecordLine::Unreadable(error) => r is Err && r->Err_0@ == caused(
                "failed to read line "@ + decimal(number as nat) + " from records file '"@ + path@
                    + "'"@,
                error@,
            ),
            RecordLine::Text { text, parsed } => if blank(text@) {
                r is Ok && r->Ok_0 is None
            } else {
                match parsed {
                    Err(error) => r is Err && r->Err_0@ == caused(
                        "failed to parse record line "@ + decimal(number as nat) + " from '"@
                            + path@ + "'"@,
                        error@,
                    ),
                    Ok(record) => match record_failure(record@) {
                        Some(f) => r is Err && r->Err_0@ == f,
                        None => r is Ok && r->Ok_0 == Some(record),
                    },
                }
            },
        },
{
    match line {
        RecordLine::Unreadable(error) => {
            let message = concat5(
                "failed to read line ",
                &decimal_text(number),
                " from records file '",
                path,
                "'",
            );
            Err(Failure::caused_by(message, &error))
        },
        RecordLine::Text { text, parsed } => {
            if is_blank(&text) {
                return Ok(None);
            }
            match parsed {
                Err(error) => {
                    let message = concat5(
                        "failed to parse record line ",
                        &decimal_text(number),
                        " from '",
                        path,
                        "'",
                    );
                    Err(Failure::caused_by(message, &error))
                },
                Ok(record) => match record.validate() {
                    Ok(_) => Ok(Some(record)),
                    Err(f) => Err(f),
                },
            }
        },
    }
}

/// The records of a file, given its lines.
pub fn read_records(lines: Vec<RecordLine>, path: &str) -> (r: Result<Vec<ArtifactRecord>, Failure>)
    ensures
        record_list(r) == records_read(lines@, path@, lines@.len() as int),
{
    let ghost all = lines@;
    let total: usize = lines.len();
    let mut rest = lines;
    let mut records: Vec<ArtifactRecord> = Vec::new();
    let mut done: usize = 0;
    assert(rest@ =~= all.subrange(0, all.len() as int));
    assert(artifact_record_views(records@) =~= Seq::empty());
    while done < total
        invariant
            done <= total == all.len(),
            all == lines@,
            rest@ == all.subrange(done as int, all.len() as int),
            records_read(all, path@, done as int) == Ok::<Seq<ArtifactRecordView>, FailureView>(
                artifact_record_views(records@),
            ),
        decreases total - done,
    {
        let ghost prior = rest@;
        let line = rest.remove(0);
        assert(prior[0] == all[done as int]);
        assert(line == all[done as int]);
        let ghost views = artifact_record_views(records@);
        match read_record_line(line, done as u64 + 1, path) {
            Ok(Some(record)) => {
                records.push(record);
                assert(artifact_record_views(records@) =~= views.push(record@));
            },
            Ok(None) => {},
            Err(f) => {
                proof {
                    lemma_records_read_fails(all, path@, done + 1, total as int);
                }
                return Err(f);
            },
        }
        assert(rest@ =~= all.subrange(done + 1, all.len() as int));
        done = done + 1;
    }
    Ok(records)
}

// ---------------------------------------------------------------------------------------------
// The input of a renderer
// ---------------------------------------------------------------------------------------------
/// How many records there are, in all and by status.
#[derive(Debug)]
pub struct RenderInputMeta {
    pub record_count: usize,
    pub status_counts: TextMap<usize>,
}

/// What a renderer works on.
#[derive(Debug)]
pub struct RenderInputDocument {
    pub schema_version: u32,
    pub artifact_id: String,
    pub artifact_date: String,
    pub run_id: String,
    pub host: String,
    pub timezone: String,
    pub generated_at: Timestamp,
    pub records: Vec<ArtifactRecord>,
    pub meta: RenderInputMeta,
}

/// The statuses of a list of records.
pub open spec fn record_statuses(records: Seq<ArtifactRecordView>) -> Seq<Seq<char>> {
    Seq::new(records.len(), |i: int| records[i].status)
}

/// What the input of a renderer says of a run and its records.
pub open spec fn describes(
    d: RenderInputDocument,
    artifact: ArtifactView,
    artifact_date: Seq<char>,
    run_id: Seq<char>,
    host: Seq<char>,
    generated_at: (int, int),
    records: Seq<ArtifactRecord>,
) -> bool {
    &&& d.schema_version == ARTIFACT_SCHEMA_VERSION
    &&& d.artifact_id@ == artifact.id
    &&& d.artifact_date@ == artifact_date
    &&& d.run_id@ == run_id
    &&& d.host@ == host
    &&& d.timezone@ == artifact.timezone
    &&& d.generated_at@ == generated_at
    &&& d.records@ == sorted(records, records.len() as int)
    &&& d.meta.record_count == records.len()
    &&& counts(
        d.meta.status_counts.pairs(),
        record_statuses(artifact_record_views(d.records@)),
    )
}

fn record_status_texts(records: &Vec<ArtifactRecord>) -> (r: Vec<String>)
    ensures
        texts(r@) == record_statuses(artifact_record_views(records@)),
{
    let mut r: Vec<String> = Vec::new();
    let mut i: usize = 0;
    while i < records.len()
        invariant
            i <= records@.len(),
            r@.len() == i,
            forall|j: int| 0 <= j < i ==> (#[trigger] r@[j])@ == records@[j].status@,
        decreases records@.len() - i,
    {
        r.push(records[i].status.clone());
        i = i + 1;
    }
    assert(texts(r@) =~= record_statuses(artifact_record_views(records@)));
    r
}

/// What a renderer works on: the records of a run by ascending collector, and how many there are.
pub fn build_render_input(
    artifact: &ArtifactConfig,
    artifact_date: &str,
    run_id: &str,
    host: &str,
    generated_at: Timestamp,
    records: Vec<ArtifactRecord>,
) -> (r: RenderInputDocument)
    ensures
        describes(r, artifact@, artifact_date@, run_id@, host@, generated_at@, records@),
{
    let ghost given = records@;
    let in_order = sort_by_key(records);
    proof {
        crate::sorting::law_sorted(given, given.len() as int);
    }
    let statuses = record_status_texts(&in_order);
    let status_counts = count_texts(&statuses);
    let record_count = sum_counts(&status_counts, &statuses);
    assert(texts(statuses@).len() == record_statuses(artifact_record_views(in_order@)).len());
    RenderInputDocument {
        schema_version: ARTIFACT_SCHEMA_VERSION,
        artifact_id: artifact.id.clone(),
        artifact_date: artifact_date.to_owned(),
        run_id: run_id.to_owned(),
        host: host.to_owned(),
        timezone: artifact.timezone.clone(),
        generated_at,
        records: in_order,
        meta: RenderInputMeta { record_count, status_counts },
    }
}

// ---------------------------------------------------------------------------------------------
// Rendered artifacts
// ---------------------------------------------------------------------------------------------
/// What a renderer leaves.
pub struct RenderedView {
    pub schema_version: u32,
    pub status: Seq<char>,
    pub title: Seq<char>,
    pub content_type: Seq<char>,
    pub body: Seq<char>,
    pub meta: JsonView,
}

/// What a renderer leaves.
#[derive(Debug)]
pub struct RenderedArtifact {
    pub schema_version: u32,
    pub status: String,
    pub title: String,
    pub content_type: String,
    pub body: String,
    pub meta: JsonValue,
}

impl View for RenderedArtifact {
    type V = RenderedView;

    open spec fn view(&self) -> RenderedView {
        RenderedView {
            schema_version: self.schema_version,
            status: self.status@,
            title: self.title@,
            content_type: self.content_type@,
            body: self.body@,
            meta: self.meta@,
        }
    }
}

/// The first rule that a rendered artifact breaks.
pub open spec fn rendered_failure(c: RenderedView) -> Option<FailureView> {
    if c.schema_version != ARTIFACT_SCHEMA_VERSION {
        Some(plain("rendered schema_version must be 1"@))
    } else if !known_status(c.status) {
        status_failure(c.status)
    } else if blank(c.title) {
        Some(plain("rendered title must not be empty"@))
    } else if blank(c.body) {
        Some(plain("rendered body must not be empty"@))
    } else if !rendered_content(c.content_type) {
        Some(plain("rendered content_type '"@ + c.content_type + "' is not supported"@))
    } else {
        None
    }
}

impl RenderedArtifact {
    /// Checks what a renderer left.
    pub fn validate(&self) -> (r: Result<(), Failure>)
        ensures
            told(r) == rendered_failure(self@),
    {
        if self.schema_version != ARTIFACT_SCHEMA_VERSION {
            return Err(Failure::new("rendered schema_version must be 1".to_owned()));
        }
        let r = validate_status(&self.status);
        if r.is_err() {
            return r;
        }
        if is_blank(&self.title) {
            return Err(Failure::new("rendered title must not be empty".to_owned()));
        }
        if is_blank(&self.body) {
            return Err(Failure::new("rendered body must not be empty".to_owned()));
        }
        if !same_text(&self.content_type, "text/markdown") && !same_text(
            &self.content_type,
            "application/json",
        ) && !same_text(&self.content_type, "text/plain") {
            return Err(
                Failure::new(
                    concat3(
                        "rendered content_type '",
                        &self.content_type,
                        "' is not supported",
                    ),
                ),
            );
        }
        Ok(())
    }
}

} // verus!

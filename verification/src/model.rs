//! The job data model: the operation kinds, the lifecycle states, the
//! durable job record, and the transition functions that drive a record
//! along `Queued -> Running -> {Completed, Failed}` with the external
//! `Queued|Running -> Canceled` escape.  Each type carries a
//! mathematical view over which the engine's contracts are stated.

use vstd::prelude::*;
use vstd::string::StringExecFns;

verus! {

/// The lifecycle state of a job record.
#[derive(Clone, Copy, PartialEq, Eq, Structural, Debug)]
pub enum JobState {
    Queued,
    Running,
    Completed,
    Failed,
    Canceled,
}

/// Whether a state is terminal: a record in a terminal state is never
/// moved again by the worker.
pub open spec fn is_terminal(s: JobState) -> bool {
    s == JobState::Completed || s == JobState::Failed || s == JobState::Canceled
}

/// The allowed edges of the lifecycle graph.  `Canceled` can be entered
/// from any non-terminal state, externally.
pub open spec fn can_transition(from: JobState, to: JobState) -> bool {
    ||| (from == JobState::Queued && to == JobState::Running)
    ||| (from == JobState::Running && (to == JobState::Completed || to == JobState::Failed))
    ||| (!is_terminal(from) && to == JobState::Canceled)
}

/// Progress of a job: a percentage and a short stage label.
#[derive(Debug)]
pub struct JobProgress {
    pub percent: u8,
    pub stage: String,
}

/// The mathematical value of a progress report.
pub struct ProgressView {
    pub percent: u8,
    pub stage: Seq<char>,
}

impl View for JobProgress {
    type V = ProgressView;

    open spec fn view(&self) -> ProgressView {
        ProgressView { percent: self.percent, stage: self.stage@ }
    }
}

impl Clone for JobProgress {
    fn clone(&self) -> (r: Self)
        ensures
            r@ == self@,
    {
        JobProgress { percent: self.percent, stage: self.stage.clone() }
    }
}

/// One document operation and its parameters.  Paths arrive as strings
/// and are validated only when the job is executed.
#[derive(Debug)]
pub enum PdfJobKind {
    Merge { inputs: Vec<String>, output: String },
    Split { input: String, output_dir: String, mode: String, span: Option<u32>, pages: Option<Vec<u32>> },
    Rotate { input: String, output: String, page_range: Option<String>, degrees: i32 },
    Compress { input: String, output: String, preset: Option<String> },
    Reorder { input: String, output: String, page_order: Vec<u32> },
    Extract { input: String, output: String, pages: Vec<u32> },
    Encrypt { input: String, output: String, user_password: Option<String>, owner_password: String },
    Decrypt { input: String, output: String, password: String },
    GetMetadata { input: String },
    SetMetadata { input: String, output: String, title: Option<String>, author: Option<String>, subject: Option<String>, keywords: Option<String> },
    Watermark,
    Redact,
    Sign,
    Ocr,
}

/// The mathematical value of an operation and its parameters.
pub enum KindView {
    Merge { inputs: Seq<Seq<char>>, output: Seq<char> },
    Split { input: Seq<char>, output_dir: Seq<char>, mode: Seq<char>, span: Option<u32>, pages: Option<Seq<u32>> },
    Rotate { input: Seq<char>, output: Seq<char>, page_range: Option<Seq<char>>, degrees: i32 },
    Compress { input: Seq<char>, output: Seq<char>, preset: Option<Seq<char>> },
    Reorder { input: Seq<char>, output: Seq<char>, page_order: Seq<u32> },
    Extract { input: Seq<char>, output: Seq<char>, pages: Seq<u32> },
    Encrypt { input: Seq<char>, output: Seq<char>, user_password: Option<Seq<char>>, owner_password: Seq<char> },
    Decrypt { input: Seq<char>, output: Seq<char>, password: Seq<char> },
    GetMetadata { input: Seq<char> },
    SetMetadata { input: Seq<char>, output: Seq<char>, title: Option<Seq<char>>, author: Option<Seq<char>>, subject: Option<Seq<char>>, keywords: Option<Seq<char>> },
    Watermark,
    Redact,
    Sign,
    Ocr,
}

impl View for PdfJobKind {
    type V = KindView;

    open spec fn view(&self) -> KindView {
        match *self {
            PdfJobKind::Merge { inputs, output } => KindView::Merge {
                inputs: inputs.deep_view(),
                output: output@,
            },
            PdfJobKind::Split { input, output_dir, mode, span, pages } => KindView::Split {
                input: input@,
                output_dir: output_dir@,
                mode: mode@,
                span: span,
                pages: pages.deep_view(),
            },
            PdfJobKind::Rotate { input, output, page_range, degrees } => KindView::Rotate {
                input: input@,
                output: output@,
                page_range: page_range.deep_view(),
                degrees: degrees,
            },
            PdfJobKind::Compress { input, output, preset } => KindView::Compress {
                input: input@,
                output: output@,
                preset: preset.deep_view(),
            },
            PdfJobKind::Reorder { input, output, page_order } => KindView::Reorder {
                input: input@,
                output: output@,
                page_order: page_order@,
            },
            PdfJobKind::Extract { input, output, pages } => KindView::Extract {
                input: input@,
                output: output@,
                pages: pages@,
            },
            PdfJobKind::Encrypt { input, output, user_password, owner_password } => KindView::Encrypt {
                input: input@,
                output: output@,
                user_password: user_password.deep_view(),
                owner_password: owner_password@,
            },
            PdfJobKind::Decrypt { input, output, password } => KindView::Decrypt {
                input: input@,
                output: output@,
                password: password@,
            },
            PdfJobKind::GetMetadata { input } => KindView::GetMetadata { input: input@ },
            PdfJobKind::SetMetadata { input, output, title, author, subject, keywords } => KindView::SetMetadata {
                input: input@,
                output: output@,
                title: title.deep_view(),
                author: author.deep_view(),
                subject: subject.deep_view(),
                keywords: keywords.deep_view(),
            },
            PdfJobKind::Watermark => KindView::Watermark,
            PdfJobKind::Redact => KindView::Redact,
            PdfJobKind::Sign => KindView::Sign,
            PdfJobKind::Ocr => KindView::Ocr,
        }
    }
}

impl DeepView for PdfJobKind {
    type V = KindView;

    open spec fn deep_view(&self) -> KindView {
        self.view()
    }
}

/// Clones a vector of strings element by element, keeping the view.
pub fn clone_string_vec(v: &Vec<String>) -> (r: Vec<String>)
    ensures
        r@ == v@,
{
    let mut r: Vec<String> = Vec::new();
    let mut i: usize = 0;
    while i < v.len()
        invariant
            i <= v@.len(),
            r@ == v@.subrange(0, i as int),
        decreases v@.len() - i,
    {
        r.push(v[i].clone());
        proof {
            assert(r@ =~= v@.subrange(0, i + 1 as int));
        }
        i = i + 1;
    }
    proof {
        assert(v@.subrange(0, v@.len() as int) =~= v@);
    }
    r
}

/// Clones an optional string, keeping the value.
pub fn clone_opt_string(o: &Option<String>) -> (r: Option<String>)
    ensures
        r == *o,
{
    match o {
        Option::None => Option::None,
        Option::Some(s) => Option::Some(s.clone()),
    }
}

fn clone_u32_vec(v: &Vec<u32>) -> (r: Vec<u32>)
    ensures
        r@ == v@,
{
    let mut r: Vec<u32> = Vec::new();
    let mut i: usize = 0;
    while i < v.len()
        invariant
            i <= v@.len(),
            r@ == v@.subrange(0, i as int),
        decreases v@.len() - i,
    {
        r.push(v[i]);
        proof {
            assert(r@ =~= v@.subrange(0, i + 1 as int));
        }
        i = i + 1;
    }
    proof {
        assert(v@.subrange(0, v@.len() as int) =~= v@);
    }
    r
}

fn clone_opt_u32_vec(o: &Option<Vec<u32>>) -> (r: Option<Vec<u32>>)
    ensures
        r.deep_view() == o.deep_view(),
{
    match o {
        Option::None => Option::None,
        Option::Some(v) => Option::Some(clone_u32_vec(v)),
    }
}

impl Clone for PdfJobKind {
    fn clone(&self) -> (r: Self)
        ensures
            r@ == self@,
    {
        match self {
            PdfJobKind::Merge { inputs, output } => PdfJobKind::Merge {
                inputs: clone_string_vec(inputs),
                output: output.clone(),
            },
            PdfJobKind::Split { input, output_dir, mode, span, pages } => PdfJobKind::Split {
                input: input.clone(),
                output_dir: output_dir.clone(),
                mode: mode.clone(),
                span: *span,
                pages: clone_opt_u32_vec(pages),
            },
            PdfJobKind::Rotate { input, output, page_range, degrees } => PdfJobKind::Rotate {
                input: input.clone(),
                output: output.clone(),
                page_range: clone_opt_string(page_range),
                degrees: *degrees,
            },
            PdfJobKind::Compress { input, output, preset } => PdfJobKind::Compress {
                input: input.clone(),
                output: output.clone(),
                preset: clone_opt_string(preset),
            },
            PdfJobKind::Reorder { input, output, page_order } => PdfJobKind::Reorder {
                input: input.clone(),
                output: output.clone(),
                page_order: clone_u32_vec(page_order),
            },
            PdfJobKind::Extract { input, output, pages } => PdfJobKind::Extract {
                input: input.clone(),
                output: output.clone(),
                pages: clone_u32_vec(pages),
            },
            PdfJobKind::Encrypt { input, output, user_password, owner_password } => PdfJobKind::Encrypt {
                input: input.clone(),
                output: output.clone(),
                user_password: clone_opt_string(user_password),
                owner_password: owner_password.clone(),
            },
            PdfJobKind::Decrypt { input, output, password } => PdfJobKind::Decrypt {
                input: input.clone(),
                output: output.clone(),
                password: password.clone(),
            },
            PdfJobKind::GetMetadata { input } => PdfJobKind::GetMetadata { input: input.clone() },
            PdfJobKind::SetMetadata { input, output, title, author, subject, keywords } => PdfJobKind::SetMetadata {
                input: input.clone(),
                output: output.clone(),
                title: clone_opt_string(title),
                author: clone_opt_string(author),
                subject: clone_opt_string(subject),
                keywords: clone_opt_string(keywords),
            },
            PdfJobKind::Watermark => PdfJobKind::Watermark,
            PdfJobKind::Redact => PdfJobKind::Redact,
            PdfJobKind::Sign => PdfJobKind::Sign,
            PdfJobKind::Ocr => PdfJobKind::Ocr,
        }
    }
}

/// The result a finished job reports: the produced artifact, and for
/// metadata reads the raw JSON text the tool produced.
#[derive(Debug)]
pub struct JobResult {
    pub job_id: String,
    pub output_path: Option<String>,
    pub metadata: Option<String>,
}

/// The mathematical value of a job result.
pub struct ResultView {
    pub job_id: Seq<char>,
    pub output_path: Option<Seq<char>>,
    pub metadata: Option<Seq<char>>,
}

impl View for JobResult {
    type V = ResultView;

    open spec fn view(&self) -> ResultView {
        ResultView {
            job_id: self.job_id@,
            output_path: self.output_path.deep_view(),
            metadata: self.metadata.deep_view(),
        }
    }
}

/// The durable unit of work.
#[derive(Debug)]
pub struct PdfJob {
    pub id: String,
    pub kind: PdfJobKind,
    pub state: JobState,
    pub progress: JobProgress,
    pub created_at: u64,
    pub updated_at: u64,
    pub error: Option<String>,
}

/// The mathematical value of a job record.
pub struct JobView {
    pub id: Seq<char>,
    pub kind: KindView,
    pub state: JobState,
    pub progress: ProgressView,
    pub created_at: u64,
    pub updated_at: u64,
    pub error: Option<Seq<char>>,
}

impl View for PdfJob {
    type V = JobView;

    open spec fn view(&self) -> JobView {
        JobView {
            id: self.id@,
            kind: self.kind@,
            state: self.state,
            progress: self.progress@,
            created_at: self.created_at,
            updated_at: self.updated_at,
            error: self.error.deep_view(),
        }
    }
}

impl DeepView for PdfJob {
    type V = JobView;

    open spec fn deep_view(&self) -> JobView {
        self.view()
    }
}

impl Clone for PdfJob {
    fn clone(&self) -> (r: Self)
        ensures
            r@ == self@,
    {
        PdfJob {
            id: self.id.clone(),
            kind: self.kind.clone(),
            state: self.state,
            progress: self.progress.clone(),
            created_at: self.created_at,
            updated_at: self.updated_at,
            error: clone_opt_string(&self.error),
        }
    }
}

/// A record is well-formed when its timestamps are ordered and an error
/// is recorded only on failure.
pub open spec fn job_wf(j: JobView) -> bool {
    &&& j.updated_at >= j.created_at
    &&& (j.error is Some ==> j.state == JobState::Failed)
}

/// The view of a freshly created record.
pub open spec fn spec_new_job(id: Seq<char>, kind: KindView, now_ms: u64) -> JobView {
    JobView {
        id: id,
        kind: kind,
        state: JobState::Queued,
        progress: ProgressView { percent: 0, stage: "queued"@ },
        created_at: now_ms,
        updated_at: now_ms,
        error: Option::None,
    }
}

impl PdfJob {
    /// Builds a fresh record in `Queued` state with the given id.
    pub fn new(kind: PdfJobKind, id: String, now_ms: u64) -> (r: Self)
        ensures
            r@ == spec_new_job(id@, kind@, now_ms),
    {
        PdfJob {
            id,
            kind,
            state: JobState::Queued,
            progress: JobProgress { percent: 0, stage: String::from_str("queued") },
            created_at: now_ms,
            updated_at: now_ms,
            error: Option::None,
        }
    }
}

/// What `mark_running` produces from a record.
pub open spec fn spec_mark_running(j: JobView, now_ms: u64) -> JobView {
    JobView {
        state: JobState::Running,
        progress: ProgressView { percent: 5, stage: "running"@ },
        updated_at: now_ms,
        ..j
    }
}

/// Moves a record to `Running` with a low non-zero progress.
pub fn mark_running(job: PdfJob, now_ms: u64) -> (r: PdfJob)
    ensures
        r@ == spec_mark_running(job@, now_ms),
{
    PdfJob {
        state: JobState::Running,
        progress: JobProgress { percent: 5, stage: String::from_str("running") },
        updated_at: now_ms,
        ..job
    }
}

/// What `mark_completed` produces from a record.
pub open spec fn spec_mark_completed(j: JobView, now_ms: u64) -> JobView {
    JobView {
        state: JobState::Completed,
        progress: ProgressView { percent: 100, stage: "completed"@ },
        updated_at: now_ms,
        ..j
    }
}

/// Moves a record to `Completed` with full progress.
pub fn mark_completed(job: PdfJob, now_ms: u64) -> (r: PdfJob)
    ensures
        r@ == spec_mark_completed(job@, now_ms),
        is_terminal(r.state),
{
    PdfJob {
        state: JobState::Completed,
        progress: JobProgress { percent: 100, stage: String::from_str("completed") },
        updated_at: now_ms,
        ..job
    }
}

/// What `mark_failed` produces from a record.
pub open spec fn spec_mark_failed(j: JobView, now_ms: u64, error: Seq<char>) -> JobView {
    JobView {
        state: JobState::Failed,
        progress: ProgressView { percent: j.progress.percent, stage: "failed"@ },
        updated_at: now_ms,
        error: Option::Some(error),
        ..j
    }
}

/// Moves a record to `Failed`, keeping its progress percentage and
/// recording the cause.
pub fn mark_failed(job: PdfJob, now_ms: u64, error: &str) -> (r: PdfJob)
    ensures
        r@ == spec_mark_failed(job@, now_ms, error@),
        is_terminal(r.state),
{
    let percent = job.progress.percent;
    PdfJob {
        state: JobState::Failed,
        progress: JobProgress { percent, stage: String::from_str("failed") },
        updated_at: now_ms,
        error: Option::Some(error.to_owned()),
        ..job
    }
}

/// What `mark_canceled` produces from a record.
pub open spec fn spec_mark_canceled(j: JobView, now_ms: u64) -> JobView {
    JobView {
        state: JobState::Canceled,
        progress: ProgressView { percent: 0, stage: "canceled"@ },
        updated_at: now_ms,
        ..j
    }
}

/// Moves a record to `Canceled` with progress reset.
pub fn mark_canceled(job: PdfJob, now_ms: u64) -> (r: PdfJob)
    ensures
        r@ == spec_mark_canceled(job@, now_ms),
        is_terminal(r.state),
{
    PdfJob {
        state: JobState::Canceled,
        progress: JobProgress { percent: 0, stage: String::from_str("canceled") },
        updated_at: now_ms,
        ..job
    }
}

/// The transitions the worker and the canceller make are exactly the
/// edges of the lifecycle graph.
pub proof fn lemma_marks_follow_graph(s: JobState)
    ensures
        s == JobState::Queued ==> can_transition(s, JobState::Running),
        s == JobState::Running ==> can_transition(s, JobState::Completed),
        s == JobState::Running ==> can_transition(s, JobState::Failed),
        !is_terminal(s) ==> can_transition(s, JobState::Canceled),
{
}

/// A message on the dispatch queue: the id of a job awaiting execution.
#[derive(Debug)]
pub struct JobMessage {
    pub job_id: String,
}

impl View for JobMessage {
    type V = Seq<char>;

    open spec fn view(&self) -> Seq<char> {
        self.job_id@
    }
}

impl DeepView for JobMessage {
    type V = Seq<char>;

    open spec fn deep_view(&self) -> Seq<char> {
        self.job_id@
    }
}

} // verus!

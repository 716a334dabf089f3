//! The engine: accepts new jobs, owns the store, the dispatch queue and
//! the cancellation flags, and drives each job through its lifecycle.
//! The engine is a synchronous state machine; the surrounding process
//! pops queued ids, performs the planned invocations and file probes,
//! and feeds the observable outcomes back in.

use vstd::prelude::*;
use vstd::string::StringExecFns;
use crate::adapters::{
    GhostscriptAdapter, PdfCpuAdapter, QpdfAdapter, ToolInvocation,
    merge_args, split_span_args, split_pages_args, rotate_args, extract_args, encrypt_args,
    decrypt_args, get_metadata_args, set_metadata_args, compress_args, reorder_args,
};
use crate::audit::{AuditEvent, audit_json};
use crate::config::{EngineConfig, ToolConfig};
use crate::errors::{PdfEngineError, spec_engine_error_message};
use crate::model::{
    JobMessage, JobResult, JobState, JobView, KindView, PdfJob, PdfJobKind, clone_opt_string,
    is_terminal, mark_canceled, mark_completed, mark_failed, mark_running, spec_mark_canceled,
    spec_mark_completed, spec_mark_failed, spec_mark_running, spec_new_job, ProgressView,
};
use crate::paths::{
    deterministic_output_name, is_absolute_path, has_parent_traversal, output_name_of,
    parent_of, parent_path, validate_user_path,
};
use crate::store::{JobStore, has_id, idx_of, distinct_ids, restore_accepts, spec_upsert,
    lemma_idx_of_props, lemma_idx_of_witness};
use crate::sys::{json_accepts, json_is_valid, new_job_id, now_ms};
use crate::text::{joined_dec, join_pages, push_char, push_string};

verus! {

/// The dispatch queue holds at most this many undispatched ids; a
/// caller awaits capacity before enqueueing more.
pub const QUEUE_CAPACITY: usize = 64;

/// A path is accepted by the validator: absolute and traversal-free.
pub open spec fn path_ok(p: Seq<char>) -> bool {
    is_absolute_path(p) && !has_parent_traversal(p)
}

/// Every path of the sequence is accepted by the validator.
pub open spec fn paths_ok(ps: Seq<Seq<char>>) -> bool {
    forall|k: int| 0 <= k < ps.len() ==> path_ok(ps[k])
}

/// A record still awaiting work: re-enqueued after a restart.
pub open spec fn resumable(j: JobView) -> bool {
    j.state == JobState::Queued || j.state == JobState::Running
}

/// The ids of the resumable records, in snapshot order.
pub open spec fn resumable_ids(rs: Seq<JobView>) -> Seq<Seq<char>>
    decreases rs.len(),
{
    if rs.len() == 0 {
        Seq::empty()
    } else {
        let front = resumable_ids(rs.drop_last());
        if resumable(rs.last()) {
            front.push(rs.last().id)
        } else {
            front
        }
    }
}

/// What a successful `enqueue` does to the registry: the id is fresh
/// and exactly one `Queued` record of the requested kind is appended.
pub open spec fn enqueue_ok_post(pre: Seq<JobView>, post: Seq<JobView>, id: Seq<char>, kind: KindView) -> bool {
    &&& !has_id(pre, id)
    &&& post.len() == pre.len() + 1
    &&& post.subrange(0, pre.len() as int) == pre
    &&& post.last().id == id
    &&& post.last().kind == kind
    &&& post.last().state == JobState::Queued
    &&& post.last().progress == (ProgressView { percent: 0, stage: "queued"@ })
    &&& post.last().error is None
    &&& post.last().created_at == post.last().updated_at
}

/// Job ids are unique across the lifetime of the store: two successful
/// submissions, one after the other, never return the same id, because
/// every record ever inserted stays in the registry and a submission
/// only succeeds with an id the registry has never held.
pub proof fn lemma_job_ids_unique(
    rs0: Seq<JobView>,
    rs1: Seq<JobView>,
    rs2: Seq<JobView>,
    id1: Seq<char>,
    id2: Seq<char>,
    k1: KindView,
    k2: KindView,
)
    requires
        enqueue_ok_post(rs0, rs1, id1, k1),
        enqueue_ok_post(rs1, rs2, id2, k2),
    ensures
        id1 != id2,
{
    lemma_idx_of_props(rs1, id2);
    assert(rs1[rs1.len() - 1].id == id1);
}

/// Every transition the worker can make out of `Running`, and the
/// cancellation escape, lands in a terminal state; with the contracts
/// of `worker_begin` and `worker_finish` this says that every job the
/// worker picks up and finishes is left `Completed`, `Failed` or
/// `Canceled`, whatever its kind and whatever its tool run reported.
pub proof fn lemma_worker_outcomes_terminal(j: JobView, now_ms: u64, message: Seq<char>)
    ensures
        is_terminal(spec_mark_completed(j, now_ms).state),
        is_terminal(spec_mark_failed(j, now_ms, message).state),
        is_terminal(spec_mark_canceled(j, now_ms).state),
{
}

/// What the worker found when it picked an id off the queue.
#[derive(Debug)]
pub enum WorkerBegin {
    /// No record exists under the id; nothing was changed.
    NotFound,
    /// The cancellation flag was set before the checkpoint: the record
    /// is `Canceled` and no tool is invoked.
    CanceledBeforeRun,
    /// The record was moved to `Running`; the caller now plans and
    /// performs the invocation and reports back to `worker_finish`.
    Proceed(PdfJob),
}

/// Everything the surrounding process must do for one job: create the
/// listed directories, run the invocation, then (where set) check the
/// output file's size and read the produced metadata text.
#[derive(Debug)]
pub struct JobPlan {
    pub dirs_to_create: Vec<String>,
    pub invocation: ToolInvocation,
    pub verify_path: Option<String>,
    pub read_metadata_path: Option<String>,
    pub output_path: Option<String>,
}

fn push_message(q: &mut Vec<JobMessage>, id: String)
    ensures
        final(q).deep_view() == old(q).deep_view().push(id@),
{
    let ghost pre = q.deep_view();
    let ghost sv = id@;
    q.push(JobMessage { job_id: id });
    proof {
        assert forall|k: int| 0 <= k < pre.len() + 1
            implies q.deep_view()[k] == pre.push(sv)[k] by {
            if k < pre.len() {
                assert(q.deep_view()[k] == q@[k].deep_view());
                assert(q@[k] == old(q)@[k]);
            } else {
                assert(q.deep_view()[k] == q@[k].deep_view());
            }
        }
        assert(q.deep_view() =~= pre.push(sv));
    }
}

/// The job engine.
pub struct PdfEngine {
    store: JobStore,
    queue: Vec<JobMessage>,
    canceled: Vec<String>,
    config: EngineConfig,
    pdfcpu: PdfCpuAdapter,
    qpdf: QpdfAdapter,
    ghostscript: GhostscriptAdapter,
    output_dir: String,
    audit_log: String,
    audit: Vec<String>,
}

impl PdfEngine {
    /// The registry of job records.
    pub closed spec fn records(&self) -> Seq<JobView> {
        self.store.records()
    }

    /// The ids awaiting execution, front first.
    pub closed spec fn queue_view(&self) -> Seq<Seq<char>> {
        self.queue.deep_view()
    }

    /// The ids whose cancellation flag is set.
    pub closed spec fn canceled_view(&self) -> Seq<Seq<char>> {
        self.canceled.deep_view()
    }

    /// The rendered audit lines not yet drained by the caller.
    pub closed spec fn audit_view(&self) -> Seq<Seq<char>> {
        self.audit.deep_view()
    }

    /// The engine's configuration, immutable after construction.
    pub closed spec fn config_view(&self) -> EngineConfig {
        self.config
    }

    /// The tool configuration of the multi-operation adapter.
    pub closed spec fn pdfcpu_cfg(&self) -> ToolConfig {
        self.pdfcpu.config
    }

    /// The tool configuration of the reorder adapter.
    pub closed spec fn qpdf_cfg(&self) -> ToolConfig {
        self.qpdf.config
    }

    /// The tool configuration of the compression adapter.
    pub closed spec fn ghostscript_cfg(&self) -> ToolConfig {
        self.ghostscript.config
    }

    /// The directory derived artifacts are written to.
    pub closed spec fn output_dir_view(&self) -> Seq<char> {
        self.output_dir@
    }

    /// The audit log file.
    pub closed spec fn audit_log_view(&self) -> Seq<char> {
        self.audit_log@
    }

    /// The snapshot file of the registry.
    pub closed spec fn snapshot_path_view(&self) -> Seq<char> {
        self.store.path()
    }

    /// The engine's invariant: the registry's ids are unique.
    pub open spec fn wf(&self) -> bool {
        distinct_ids(self.records())
    }

    /// Builds an engine from its configuration and working locations.
    /// Each adapter takes its enable flag and timeout from the
    /// configuration, and its executable from the configured path or
    /// the tool's conventional name.
    pub fn new(config: EngineConfig, storage_path: String, output_dir: String, audit_log: String) -> (r: Self)
        ensures
            r.records() == Seq::<JobView>::empty(),
            r.queue_view() == Seq::<Seq<char>>::empty(),
            r.canceled_view() == Seq::<Seq<char>>::empty(),
            r.audit_view() == Seq::<Seq<char>>::empty(),
            r.config_view() == config,
            r.pdfcpu_cfg().enabled == config.pdfcpu_enabled,
            r.pdfcpu_cfg().executable@ == (match config.pdfcpu_path {
                Option::Some(p) => p@,
                Option::None => "pdfcpu"@,
            }),
            r.pdfcpu_cfg().timeout_secs == config.tool_timeout_secs,
            r.qpdf_cfg().enabled == config.qpdf_enabled,
            r.qpdf_cfg().executable@ == (match config.qpdf_path {
                Option::Some(p) => p@,
                Option::None => "qpdf"@,
            }),
            r.qpdf_cfg().timeout_secs == config.tool_timeout_secs,
            r.ghostscript_cfg().enabled == config.ghostscript_enabled,
            r.ghostscript_cfg().executable@ == (match config.ghostscript_path {
                Option::Some(p) => p@,
                Option::None => "gs"@,
            }),
            r.ghostscript_cfg().timeout_secs == config.tool_timeout_secs,
            r.output_dir_view() == output_dir@,
            r.audit_log_view() == audit_log@,
            r.wf(),
    {
        let pdfcpu = PdfCpuAdapter {
            config: ToolConfig {
                enabled: config.pdfcpu_enabled,
                executable: match &config.pdfcpu_path {
                    Option::Some(p) => p.clone(),
                    Option::None => String::from_str("pdfcpu"),
                },
                timeout_secs: config.tool_timeout_secs,
            },
        };
        let qpdf = QpdfAdapter {
            config: ToolConfig {
                enabled: config.qpdf_enabled,
                executable: match &config.qpdf_path {
                    Option::Some(p) => p.clone(),
                    Option::None => String::from_str("qpdf"),
                },
                timeout_secs: config.tool_timeout_secs,
            },
        };
        let ghostscript = GhostscriptAdapter {
            config: ToolConfig {
                enabled: config.ghostscript_enabled,
                executable: match &config.ghostscript_path {
                    Option::Some(p) => p.clone(),
                    Option::None => String::from_str("gs"),
                },
                timeout_secs: config.tool_timeout_secs,
            },
        };
        let r = PdfEngine {
            store: JobStore::new(storage_path),
            queue: Vec::new(),
            canceled: Vec::new(),
            config,
            pdfcpu,
            qpdf,
            ghostscript,
            output_dir,
            audit_log,
            audit: Vec::new(),
        };
        proof {
            assert(r.queue_view() =~= Seq::<Seq<char>>::empty());
            assert(r.canceled_view() =~= Seq::<Seq<char>>::empty());
            assert(r.audit_view() =~= Seq::<Seq<char>>::empty());
        }
        r
    }

    /// The audit log file, for the caller that appends drained lines.
    pub fn audit_log_path(&self) -> (r: &str)
        ensures
            r@ == self.audit_log_view(),
    {
        self.audit_log.as_str()
    }

    /// The snapshot file, for the caller that persists snapshots.
    pub fn snapshot_path(&self) -> (r: &str)
        ensures
            r@ == self.snapshot_path_view(),
    {
        self.store.storage_path()
    }

    /// The full snapshot of the registry, for persistence.
    pub fn list(&self) -> (r: Vec<PdfJob>)
        ensures
            r.deep_view() == self.records(),
    {
        self.store.list()
    }

    /// How many ids await execution.
    pub fn queue_len(&self) -> (r: usize)
        ensures
            r == self.queue_view().len(),
    {
        self.queue.len()
    }

    /// Hands the not-yet-written audit lines to the caller, which
    /// appends each as one line to the audit log file, best-effort.
    pub fn take_audit_lines(&mut self) -> (r: Vec<String>)
        ensures
            r.deep_view() == old(self).audit_view(),
            final(self).audit_view() == Seq::<Seq<char>>::empty(),
            final(self).records() == old(self).records(),
            final(self).queue_view() == old(self).queue_view(),
            final(self).canceled_view() == old(self).canceled_view(),
    {
        let mut drained: Vec<String> = Vec::new();
        core::mem::swap(&mut drained, &mut self.audit);
        proof {
            assert(final(self).audit_view() =~= Seq::<Seq<char>>::empty());
        }
        drained
    }

    /// Accepts a new job: builds a `Queued` record under a fresh id,
    /// registers it, and queues the id for the worker.  The id is drawn
    /// at random; in the vanishing case that it already names a record,
    /// the submission is refused rather than overwriting history.
    pub fn enqueue(&mut self, kind: PdfJobKind) -> (r: Result<String, PdfEngineError>)
        requires
            old(self).wf(),
            old(self).queue_view().len() < QUEUE_CAPACITY,
        ensures
            final(self).wf(),
            r matches Ok(id) ==> {
                &&& enqueue_ok_post(old(self).records(), final(self).records(), id@, kind@)
                &&& final(self).queue_view() == old(self).queue_view().push(id@)
                &&& final(self).canceled_view() == old(self).canceled_view()
                &&& final(self).audit_view() == old(self).audit_view()
            },
            r matches Err(e) ==> {
                &&& *final(self) == *old(self)
                &&& e matches PdfEngineError::InvalidInput(m) && m@ == "job id collision"@
            },
    {
        let now = now_ms();
        let id = new_job_id();
        if self.store.contains_id(id.as_str()) {
            return Err(PdfEngineError::InvalidInput(String::from_str("job id collision")));
        }
        let ghost pre = self.records();
        let job = PdfJob::new(kind, id.clone(), now);
        let _ = self.store.insert(job);
        push_message(&mut self.queue, id.clone());
        proof {
            assert(self.records() == pre.push(spec_new_job(id@, kind@, now)));
            assert(self.records().subrange(0, pre.len() as int) =~= pre);
        }
        Ok(id)
    }

    /// Looks the current record of a job up.
    pub fn get_status(&self, job_id: &str) -> (r: Result<PdfJob, PdfEngineError>)
        ensures
            has_id(self.records(), job_id@) ==> (r matches Ok(j)
                && j@ == self.records()[idx_of(self.records(), job_id@)]),
            !has_id(self.records(), job_id@) ==> (r matches Err(e) && e is JobNotFound),
    {
        self.store.get(job_id)
    }

    /// Whether the job's cancellation flag is set.  The flags are
    /// process memory only; they do not survive a restart.
    pub fn is_canceled(&self, job_id: &str) -> (r: bool)
        ensures
            r == self.canceled_view().contains(job_id@),
    {
        let mut i: usize = 0;
        while i < self.canceled.len()
            invariant
                i <= self.canceled@.len(),
                forall|m: int| 0 <= m < i ==> self.canceled_view()[m] != job_id@,
            decreases self.canceled@.len() - i,
        {
            if self.canceled[i] == job_id.to_owned() {
                proof {
                    assert(self.canceled_view()[i as int] == job_id@);
                }
                return true;
            }
            proof {
                assert(self.canceled_view()[i as int] == self.canceled@[i as int]@);
            }
            i = i + 1;
        }
        proof {
            assert(!self.canceled_view().contains(job_id@)) by {
                if self.canceled_view().contains(job_id@) {
                    let k = choose|k: int| 0 <= k < self.canceled_view().len()
                        && self.canceled_view()[k] == job_id@;
                }
            }
        }
        false
    }

    /// Requests cancellation: sets the flag, then eagerly moves the
    /// stored record to `Canceled`.  The worker honors the flag only at
    /// its checkpoint; a job already past it runs to completion and
    /// overwrites the canceled record — a known, accepted race.
    pub fn cancel(&mut self, job_id: &str) -> (r: Result<(), PdfEngineError>)
        requires
            old(self).wf(),
        ensures
            final(self).wf(),
            final(self).canceled_view() == old(self).canceled_view().push(job_id@),
            final(self).queue_view() == old(self).queue_view(),
            r is Ok <==> has_id(old(self).records(), job_id@),
            r matches Ok(u) ==> ({
                let i = idx_of(old(self).records(), job_id@);
                let t = final(self).records()[i].updated_at;
                &&& final(self).records() == old(self).records().update(i, spec_mark_canceled(old(self).records()[i], t))
                &&& final(self).audit_view() == old(self).audit_view().push(
                    audit_json(job_id@, JobState::Canceled, "canceled"@, t, Option::Some("job canceled"@)))
            }),
            r matches Err(e) ==> {
                &&& e is JobNotFound
                &&& final(self).records() == old(self).records()
                &&& final(self).audit_view() == old(self).audit_view()
            },
    {
        push_string(&mut self.canceled, job_id.to_owned());
        let ghost rs = self.records();
        proof {
            lemma_idx_of_props(rs, job_id@);
        }
        match self.store.get(job_id) {
            Err(e) => Err(e),
            Ok(job) => {
                let now = now_ms();
                let updated = mark_canceled(job, now);
                let line = AuditEvent {
                    job_id: job_id,
                    state: updated.state,
                    stage: updated.progress.stage.as_str(),
                    timestamp_ms: updated.updated_at,
                    message: Option::Some("job canceled"),
                }.render();
                push_string(&mut self.audit, line);
                let _ = self.store.update(updated);
                proof {
                    let i = idx_of(rs, job_id@);
                    assert(self.records() == spec_upsert(rs, spec_mark_canceled(rs[i], now)));
                }
                Ok(())
            },
        }
    }

    /// Takes the next id off the dispatch queue, front first.
    pub fn pop_next(&mut self) -> (r: Option<JobMessage>)
        ensures
            final(self).records() == old(self).records(),
            final(self).canceled_view() == old(self).canceled_view(),
            final(self).audit_view() == old(self).audit_view(),
            old(self).queue_view().len() == 0 ==> (r is None
                && final(self).queue_view() == old(self).queue_view()),
            old(self).queue_view().len() > 0 ==> (r matches Some(m)
                && m.job_id@ == old(self).queue_view()[0]
                && final(self).queue_view() == old(self).queue_view().drop_first()),
    {
        if self.queue.len() == 0 {
            None
        } else {
            let m = self.queue.remove(0);
            proof {
                assert forall|k: int| 0 <= k < self.queue.deep_view().len()
                    implies self.queue.deep_view()[k] == old(self).queue_view().drop_first()[k] by {
                    assert(self.queue.deep_view()[k] == self.queue@[k].deep_view());
                    assert(self.queue@[k] == old(self).queue@[k + 1]);
                }
                assert(self.queue.deep_view() =~= old(self).queue_view().drop_first());
            }
            Some(m)
        }
    }

    /// Replaces the registry with a persisted snapshot and re-queues
    /// every record still `Queued` or `Running`.  A snapshot with
    /// duplicate ids is refused unchanged: a corrupt snapshot must not
    /// silently drop jobs.
    pub fn load_and_resume(&mut self, records: Vec<PdfJob>) -> (r: Result<(), PdfEngineError>)
        requires
            old(self).wf(),
        ensures
            final(self).wf(),
            r is Ok <==> restore_accepts(records.deep_view()),
            r matches Ok(u) ==> {
                &&& final(self).records() == records.deep_view()
                &&& final(self).queue_view() == old(self).queue_view() + resumable_ids(records.deep_view())
                &&& final(self).canceled_view() == old(self).canceled_view()
                &&& final(self).audit_view() == old(self).audit_view()
            },
            r matches Err(e) ==> {
                &&& *final(self) == *old(self)
                &&& e matches PdfEngineError::Serialization(m) && m@ == "duplicate job id in snapshot"@
            },
    {
        let mut resume: Vec<String> = Vec::new();
        let n = records.len();
        let mut i: usize = 0;
        while i < n
            invariant
                i <= n == records@.len(),
                resume.deep_view() == resumable_ids(records.deep_view().subrange(0, i as int)),
            decreases n - i,
        {
            let ghost prefix = records.deep_view().subrange(0, i as int);
            let state = records[i].state;
            if matches!(state, JobState::Queued | JobState::Running) {
                push_string(&mut resume, records[i].id.clone());
            }
            proof {
                let next = records.deep_view().subrange(0, i + 1 as int);
                assert(next.drop_last() =~= prefix);
                assert(next.last() == records.deep_view()[i as int]);
            }
            i = i + 1;
        }
        proof {
            assert(records.deep_view().subrange(0, records.deep_view().len() as int) =~= records.deep_view());
        }
        let path = self.store.storage_path().to_owned();
        match JobStore::restore(path, records) {
            Err(e) => Err(e),
            Ok(st) => {
                self.store = st;
                let ghost store_snap = self.store;
                let ghost qpre = self.queue_view();
                let mut k: usize = 0;
                let ghost rids = resume.deep_view();
                while k < resume.len()
                    invariant
                        k <= resume@.len(),
                        rids == resume.deep_view(),
                        self.queue.deep_view() == qpre + rids.subrange(0, k as int),
                        self.store == store_snap,
                        self.store.wf(),
                        self.canceled == old(self).canceled,
                        self.audit == old(self).audit,
                    decreases resume@.len() - k,
                {
                    push_message(&mut self.queue, resume[k].clone());
                    proof {
                        assert(resume.deep_view()[k as int] == resume@[k as int]@);
                        assert(qpre + rids.subrange(0, k + 1 as int)
                            =~= (qpre + rids.subrange(0, k as int)).push(rids[k as int]));
                    }
                    k = k + 1;
                }
                proof {
                    assert(rids.subrange(0, rids.len() as int) =~= rids);
                }
                Ok(())
            },
        }
    }
}

/// The result-shaping facts every granted plan carries.
pub open spec fn plan_invocation_ok(p: JobPlan, cfg: ToolConfig, tool: Seq<char>, args: Seq<Seq<char>>) -> bool {
    &&& p.invocation.tool@ == tool
    &&& p.invocation.executable@ == cfg.executable@
    &&& p.invocation.timeout_secs == cfg.timeout_secs
    &&& p.invocation.args.deep_view() == args
}

/// The file-system side of a plan: directories to create, the file to
/// verify, the file to read back, and the reported output.
pub open spec fn plan_io_shape(
    p: JobPlan,
    dirs: Seq<Seq<char>>,
    verify: Option<Seq<char>>,
    read: Option<Seq<char>>,
    out: Option<Seq<char>>,
) -> bool {
    &&& p.dirs_to_create.deep_view() == dirs
    &&& p.verify_path.deep_view() == verify
    &&& p.read_metadata_path.deep_view() == read
    &&& p.output_path.deep_view() == out
}

/// The plan was refused with the given `InvalidInput` message.
pub open spec fn err_invalid_input(r: Result<JobPlan, PdfEngineError>, m: Seq<char>) -> bool {
    r matches Err(e) && e matches PdfEngineError::InvalidInput(mm) && mm@ == m
}

/// The plan was refused because the matching tool is disabled.
pub open spec fn err_unavailable(r: Result<JobPlan, PdfEngineError>, m: Seq<char>) -> bool {
    r matches Err(e) && e matches PdfEngineError::ToolUnavailable(mm) && mm@ == m
}

/// The property entries a metadata write passes to the tool, one per
/// present field.
pub open spec fn metadata_entries(
    title: Option<Seq<char>>,
    author: Option<Seq<char>>,
    subject: Option<Seq<char>>,
    keywords: Option<Seq<char>>,
) -> Seq<Seq<char>> {
    (match title {
        Option::Some(t) => seq!["-title="@ + t],
        Option::None => Seq::empty(),
    }) + (match author {
        Option::Some(a) => seq!["-author="@ + a],
        Option::None => Seq::empty(),
    }) + (match subject {
        Option::Some(su) => seq!["-subject="@ + su],
        Option::None => Seq::empty(),
    }) + (match keywords {
        Option::Some(k) => seq!["-keywords="@ + k],
        Option::None => Seq::empty(),
    })
}

/// The metadata text a finished read reports: the tool's output where
/// it is well-formed JSON, an empty JSON object everywhere else.
pub open spec fn normalized_metadata(t: Option<Seq<char>>) -> Seq<char> {
    match t {
        Option::Some(s) => if json_accepts(s) {
            s
        } else {
            "{}"@
        },
        Option::None => "{}"@,
    }
}

/// Builds the result a finished job reports: the planned output path,
/// and for metadata reads the text the tool produced, fallen back to an
/// empty JSON object where the tool produced none or produced text the
/// JSON parser refuses.
pub fn assemble_result(job: &PdfJob, plan: &JobPlan, metadata_text: Option<String>) -> (r: JobResult)
    ensures
        r@.job_id == job@.id,
        r@.output_path == plan.output_path.deep_view(),
        plan.read_metadata_path is None ==> r@.metadata is None,
        plan.read_metadata_path is Some ==> r@.metadata == Option::Some(
            normalized_metadata(metadata_text.deep_view())),
{
    let metadata = if plan.read_metadata_path.is_some() {
        match metadata_text {
            Option::None => Option::Some(String::from_str("{}")),
            Option::Some(t) => {
                if json_is_valid(t.as_str()) {
                    Option::Some(t)
                } else {
                    Option::Some(String::from_str("{}"))
                }
            },
        }
    } else {
        Option::None
    };
    JobResult {
        job_id: job.id.clone(),
        output_path: clone_opt_string(&plan.output_path),
        metadata,
    }
}

impl PdfEngine {
    /// Picks a job up for execution: moves its record to `Running`,
    /// then honors the cancellation checkpoint.  A job whose flag is
    /// set before the checkpoint is moved to `Canceled` — its record
    /// remains `Canceled` and no adapter is invoked; every other found
    /// job is handed back for planning.
    pub fn worker_begin(&mut self, job_id: &str, now_ms: u64) -> (r: WorkerBegin)
        requires
            old(self).wf(),
        ensures
            final(self).wf(),
            final(self).queue_view() == old(self).queue_view(),
            final(self).canceled_view() == old(self).canceled_view(),
            !has_id(old(self).records(), job_id@) ==> (r is NotFound && *final(self) == *old(self)),
            has_id(old(self).records(), job_id@) ==> ({
                let i = idx_of(old(self).records(), job_id@);
                let pre = old(self).records()[i];
                &&& (old(self).canceled_view().contains(job_id@) ==> {
                    &&& r is CanceledBeforeRun
                    &&& final(self).records() == old(self).records().update(i, spec_mark_canceled(pre, now_ms))
                    &&& is_terminal(final(self).records()[i].state)
                    &&& final(self).audit_view() == old(self).audit_view()
                        .push(audit_json(job_id@, JobState::Running, "running"@, now_ms, Option::Some("job started"@)))
                        .push(audit_json(job_id@, JobState::Canceled, "canceled"@, now_ms, Option::Some("job canceled"@)))
                })
                &&& (!old(self).canceled_view().contains(job_id@) ==> {
                    &&& r matches WorkerBegin::Proceed(j) && j@ == spec_mark_running(pre, now_ms)
                    &&& final(self).records() == old(self).records().update(i, spec_mark_running(pre, now_ms))
                    &&& final(self).audit_view() == old(self).audit_view()
                        .push(audit_json(job_id@, JobState::Running, "running"@, now_ms, Option::Some("job started"@)))
                })
            }),
    {
        let ghost rs = self.records();
        proof {
            lemma_idx_of_props(rs, job_id@);
        }
        let job = match self.store.get(job_id) {
            Err(_) => {
                return WorkerBegin::NotFound;
            },
            Ok(j) => j,
        };
        let ghost i = idx_of(rs, job_id@);
        let running = mark_running(job, now_ms);
        let line = AuditEvent {
            job_id,
            state: running.state,
            stage: running.progress.stage.as_str(),
            timestamp_ms: running.updated_at,
            message: Option::Some("job started"),
        }.render();
        push_string(&mut self.audit, line);
        let running_out = running.clone();
        let _ = self.store.update(running);
        proof {
            assert(self.records() =~= rs.update(i, spec_mark_running(rs[i], now_ms)));
        }
        if self.is_canceled(job_id) {
            let ghost mid = self.records();
            let canceled = mark_canceled(running_out, now_ms);
            let line2 = AuditEvent {
                job_id,
                state: canceled.state,
                stage: canceled.progress.stage.as_str(),
                timestamp_ms: canceled.updated_at,
                message: Option::Some("job canceled"),
            }.render();
            push_string(&mut self.audit, line2);
            proof {
                assert(mid[i].id == job_id@);
                assert forall|m: int| 0 <= m < i implies mid[m].id != job_id@ by {
                    assert(rs[m].id != job_id@);
                }
                lemma_idx_of_witness(mid, job_id@, i);
            }
            let _ = self.store.update(canceled);
            proof {
                assert(canceled@ == spec_mark_canceled(rs[i], now_ms));
                assert(self.records() =~= rs.update(i, spec_mark_canceled(rs[i], now_ms)));
            }
            return WorkerBegin::CanceledBeforeRun;
        }
        WorkerBegin::Proceed(running_out)
    }

    /// Records the end of a run: the job is moved to `Completed` on a
    /// success and to `Failed` with the error's message on any failure,
    /// so every job the worker finishes lands in a terminal state.
    pub fn worker_finish(&mut self, job_id: &str, outcome: Result<JobResult, PdfEngineError>, now_ms: u64) -> (r: Result<JobResult, PdfEngineError>)
        requires
            old(self).wf(),
        ensures
            final(self).wf(),
            final(self).queue_view() == old(self).queue_view(),
            final(self).canceled_view() == old(self).canceled_view(),
            !has_id(old(self).records(), job_id@) ==> (r matches Err(e) && e is JobNotFound
                && *final(self) == *old(self)),
            has_id(old(self).records(), job_id@) ==> ({
                let i = idx_of(old(self).records(), job_id@);
                let pre = old(self).records()[i];
                &&& is_terminal(final(self).records()[i].state)
                &&& (outcome matches Ok(res) ==> {
                    &&& r matches Ok(res2) && res2 == res
                    &&& final(self).records() == old(self).records().update(i, spec_mark_completed(pre, now_ms))
                    &&& final(self).audit_view() == old(self).audit_view().push(
                        audit_json(job_id@, JobState::Completed, "completed"@, now_ms, Option::Some("job completed"@)))
                })
                &&& (outcome matches Err(e) ==> {
                    &&& r matches Err(e2) && e2 == e
                    &&& final(self).records() == old(self).records().update(i, spec_mark_failed(pre, now_ms, spec_engine_error_message(e)))
                    &&& final(self).audit_view() == old(self).audit_view().push(
                        audit_json(job_id@, JobState::Failed, "failed"@, now_ms, Option::Some("job failed"@)))
                })
            }),
    {
        let ghost rs = self.records();
        proof {
            lemma_idx_of_props(rs, job_id@);
        }
        let job = match self.store.get(job_id) {
            Err(_) => {
                return Err(PdfEngineError::JobNotFound);
            },
            Ok(j) => j,
        };
        let ghost i = idx_of(rs, job_id@);
        match outcome {
            Ok(res) => {
                let completed = mark_completed(job, now_ms);
                let line = AuditEvent {
                    job_id,
                    state: completed.state,
                    stage: completed.progress.stage.as_str(),
                    timestamp_ms: completed.updated_at,
                    message: Option::Some("job completed"),
                }.render();
                push_string(&mut self.audit, line);
                let _ = self.store.update(completed);
                proof {
                    assert(self.records() =~= rs.update(i, spec_mark_completed(rs[i], now_ms)));
                }
                Ok(res)
            },
            Err(err) => {
                let message = err.message();
                let failed = mark_failed(job, now_ms, message.as_str());
                let line = AuditEvent {
                    job_id,
                    state: failed.state,
                    stage: failed.progress.stage.as_str(),
                    timestamp_ms: failed.updated_at,
                    message: Option::Some("job failed"),
                }.render();
                push_string(&mut self.audit, line);
                let _ = self.store.update(failed);
                proof {
                    assert(self.records() =~= rs.update(i, spec_mark_failed(rs[i], now_ms, spec_engine_error_message(err))));
                }
                Err(err)
            },
        }
    }
}

impl PdfEngine {
    /// Turns a job into everything its execution needs, or the exact
    /// error that dooms it: every path is validated, the matching
    /// tool's gate is consulted, and the tool's argument list is built.
    /// No file is touched and no process is spawned here; the caller
    /// performs the returned plan.
    #[verifier::rlimit(30)]
    #[verifier::loop_isolation(false)]
    pub fn plan_job(&self, job: &PdfJob) -> (r: Result<JobPlan, PdfEngineError>)
        ensures
            job@.kind matches KindView::Merge { inputs, output } ==> {
                &&& (r is Ok <==> paths_ok(inputs) && path_ok(output)
                    && parent_path(output) is Some && self.pdfcpu_cfg().enabled)
                &&& (r matches Ok(p) ==> {
                    &&& plan_invocation_ok(p, self.pdfcpu_cfg(), "pdfcpu"@, merge_args(output, inputs))
                    &&& parent_path(output) matches Option::Some(d)
                        && plan_io_shape(p, seq![d], Option::Some(output), Option::None, Option::Some(output))
                })
                &&& (paths_ok(inputs) && path_ok(output) && parent_path(output) is None
                    ==> err_invalid_input(r, "missing parent directory"@))
                &&& (paths_ok(inputs) && path_ok(output) && parent_path(output) is Some
                    && !self.pdfcpu_cfg().enabled ==> err_unavailable(r, "pdfcpu"@ + " disabled"@))
            },
            job@.kind matches KindView::Split { input, output_dir, mode, span, pages } ==> ({
                let span_v = match span {
                    Option::Some(v) => v,
                    Option::None => 1u32,
                };
                let pages_v = match pages {
                    Option::Some(v) => v,
                    Option::None => Seq::<u32>::empty(),
                };
                &&& (r is Ok <==> path_ok(input) && path_ok(output_dir)
                    && (mode == "span"@ || mode == "page"@) && self.pdfcpu_cfg().enabled)
                &&& (r matches Ok(p) ==> {
                    &&& mode == "span"@ ==> plan_invocation_ok(p, self.pdfcpu_cfg(), "pdfcpu"@,
                        split_span_args(input, output_dir, span_v))
                    &&& mode == "page"@ ==> plan_invocation_ok(p, self.pdfcpu_cfg(), "pdfcpu"@,
                        split_pages_args(input, output_dir, pages_v))
                    &&& plan_io_shape(p, seq![output_dir], Option::None, Option::None, Option::Some(output_dir))
                })
                &&& (path_ok(input) && path_ok(output_dir) && !(mode == "span"@ || mode == "page"@)
                    ==> err_invalid_input(r, "invalid split mode"@))
                &&& (path_ok(input) && path_ok(output_dir) && (mode == "span"@ || mode == "page"@)
                    && !self.pdfcpu_cfg().enabled ==> err_unavailable(r, "pdfcpu"@ + " disabled"@))
            }),
            job@.kind matches KindView::Rotate { input, output, page_range, degrees } ==> {
                &&& (r is Ok <==> path_ok(input) && path_ok(output)
                    && parent_path(output) is Some && self.pdfcpu_cfg().enabled)
                &&& (r matches Ok(p) ==> {
                    &&& plan_invocation_ok(p, self.pdfcpu_cfg(), "pdfcpu"@,
                        rotate_args(input, output, degrees, page_range))
                    &&& parent_path(output) matches Option::Some(d)
                        && plan_io_shape(p, seq![d], Option::Some(output), Option::None, Option::Some(output))
                })
                &&& (path_ok(input) && path_ok(output) && parent_path(output) is Some
                    && !self.pdfcpu_cfg().enabled ==> err_unavailable(r, "pdfcpu"@ + " disabled"@))
            },
            job@.kind matches KindView::Compress { input, output, preset } ==> ({
                let preset_v = match preset {
                    Option::Some(p) => p,
                    Option::None => self.config_view().default_compression_preset@,
                };
                &&& (r is Ok <==> path_ok(input) && path_ok(output)
                    && parent_path(output) is Some && self.ghostscript_cfg().enabled)
                &&& (r matches Ok(p) ==> {
                    &&& plan_invocation_ok(p, self.ghostscript_cfg(), "ghostscript"@,
                        compress_args(input, output, preset_v))
                    &&& parent_path(output) matches Option::Some(d)
                        && plan_io_shape(p, seq![d], Option::Some(output), Option::None, Option::Some(output))
                })
                &&& (path_ok(input) && path_ok(output) && parent_path(output) is Some
                    && !self.ghostscript_cfg().enabled ==> err_unavailable(r, "ghostscript"@ + " disabled"@))
            }),
            job@.kind matches KindView::Reorder { input, output, page_order } ==> {
                &&& (r is Ok <==> path_ok(input) && path_ok(output)
                    && parent_path(output) is Some && self.qpdf_cfg().enabled)
                &&& (r matches Ok(p) ==> {
                    &&& plan_invocation_ok(p, self.qpdf_cfg(), "qpdf"@,
                        reorder_args(input, output, joined_dec(page_order)))
                    &&& parent_path(output) matches Option::Some(d)
                        && plan_io_shape(p, seq![d], Option::Some(output), Option::None, Option::Some(output))
                })
                &&& (path_ok(input) && path_ok(output) && parent_path(output) is Some
                    && !self.qpdf_cfg().enabled ==> err_unavailable(r, "qpdf"@ + " disabled"@))
            },
            job@.kind matches KindView::Extract { input, output, pages } ==> {
                &&& (r is Ok <==> path_ok(input) && path_ok(output)
                    && parent_path(output) is Some && self.pdfcpu_cfg().enabled)
                &&& (r matches Ok(p) ==> {
                    &&& plan_invocation_ok(p, self.pdfcpu_cfg(), "pdfcpu"@,
                        extract_args(input, output, pages))
                    &&& parent_path(output) matches Option::Some(d)
                        && plan_io_shape(p, seq![d], Option::Some(output), Option::None, Option::Some(output))
                })
                &&& (path_ok(input) && path_ok(output) && parent_path(output) is Some
                    && !self.pdfcpu_cfg().enabled ==> err_unavailable(r, "pdfcpu"@ + " disabled"@))
            },
            job@.kind matches KindView::Encrypt { input, output, user_password, owner_password } ==> {
                &&& (r is Ok <==> path_ok(input) && path_ok(output)
                    && parent_path(output) is Some && self.pdfcpu_cfg().enabled)
                &&& (r matches Ok(p) ==> {
                    &&& plan_invocation_ok(p, self.pdfcpu_cfg(), "pdfcpu"@,
                        encrypt_args(input, output, owner_password, user_password))
                    &&& parent_path(output) matches Option::Some(d)
                        && plan_io_shape(p, seq![d], Option::Some(output), Option::None, Option::Some(output))
                })
                &&& (path_ok(input) && path_ok(output) && parent_path(output) is Some
                    && !self.pdfcpu_cfg().enabled ==> err_unavailable(r, "pdfcpu"@ + " disabled"@))
            },
            job@.kind matches KindView::Decrypt { input, output, password } ==> {
                &&& (r is Ok <==> path_ok(input) && path_ok(output)
                    && parent_path(output) is Some && self.pdfcpu_cfg().enabled)
                &&& (r matches Ok(p) ==> {
                    &&& plan_invocation_ok(p, self.pdfcpu_cfg(), "pdfcpu"@,
                        decrypt_args(input, output, password))
                    &&& parent_path(output) matches Option::Some(d)
                        && plan_io_shape(p, seq![d], Option::Some(output), Option::None, Option::Some(output))
                })
                &&& (path_ok(input) && path_ok(output) && parent_path(output) is Some
                    && !self.pdfcpu_cfg().enabled ==> err_unavailable(r, "pdfcpu"@ + " disabled"@))
            },
            job@.kind matches KindView::GetMetadata { input } ==> {
                &&& (r is Ok <==> (path_ok(input)
                    && output_name_of(input, "metadata.json"@) is Some
                    && self.pdfcpu_cfg().enabled
                    && (output_name_of(input, "metadata.json"@) matches Option::Some(nm)
                        && parent_path(self.output_dir_view() + seq!['/'] + nm) is Some)))
                &&& (r matches Ok(p) ==> (output_name_of(input, "metadata.json"@) matches Option::Some(nm) && {
                    let outp = self.output_dir_view() + seq!['/'] + nm;
                    &&& plan_invocation_ok(p, self.pdfcpu_cfg(), "pdfcpu"@, get_metadata_args(input, outp))
                    &&& parent_path(outp) matches Option::Some(d)
                        && plan_io_shape(p, seq![d], Option::None, Option::Some(outp), Option::Some(outp))
                }))
                &&& (path_ok(input) && output_name_of(input, "metadata.json"@) is None
                    ==> err_invalid_input(r, "invalid filename"@))
            },
            job@.kind matches KindView::SetMetadata { input, output, title, author, subject, keywords } ==> {
                &&& (r is Ok <==> path_ok(input) && path_ok(output)
                    && parent_path(output) is Some && self.pdfcpu_cfg().enabled)
                &&& (r matches Ok(p) ==> {
                    &&& plan_invocation_ok(p, self.pdfcpu_cfg(), "pdfcpu"@,
                        set_metadata_args(input, output, metadata_entries(title, author, subject, keywords)))
                    &&& parent_path(output) matches Option::Some(d)
                        && plan_io_shape(p, seq![d], Option::Some(output), Option::None, Option::Some(output))
                })
                &&& (path_ok(input) && path_ok(output) && parent_path(output) is Some
                    && !self.pdfcpu_cfg().enabled ==> err_unavailable(r, "pdfcpu"@ + " disabled"@))
            },
            (job@.kind is Watermark || job@.kind is Redact || job@.kind is Sign || job@.kind is Ocr)
                ==> (r matches Err(e) && e matches PdfEngineError::Unsupported(m) && m@ == "phase 2"@),
    {
        match &job.kind {
            PdfJobKind::Merge { inputs, output } => {
                proof {
                    assert(job@.kind matches KindView::Merge { inputs: iv, output: ov }
                        && iv == inputs.deep_view() && ov == output@);
                }
                let mut k: usize = 0;
                while k < inputs.len()
                    invariant
                        k <= inputs@.len(),
                        forall|m: int| 0 <= m < k ==> path_ok(inputs.deep_view()[m]),
                    decreases inputs@.len() - k,
                {
                    match validate_user_path(inputs[k].as_str()) {
                        Err(e) => {
                            proof {
                                assert(inputs.deep_view()[k as int] == inputs@[k as int]@);
                                assert(!path_ok(inputs.deep_view()[k as int]));
                                assert(!paths_ok(inputs.deep_view()));
                            }
                            return Err(e);
                        },
                        Ok(_) => {
                            proof {
                                assert(inputs.deep_view()[k as int] == inputs@[k as int]@);
                            }
                        },
                    }
                    k = k + 1;
                }
                let out = validate_user_path(output.as_str())?;
                let parent = match parent_of(out.as_str()) {
                    Option::Some(d) => d,
                    Option::None => {
                        return Err(PdfEngineError::InvalidInput(String::from_str("missing parent directory")));
                    },
                };
                let inv = self.pdfcpu.merge(out.as_str(), inputs)?;
                let mut dirs: Vec<String> = Vec::new();
                let ghost parent_v = parent@;
                push_string(&mut dirs, parent);
                proof {
                    assert(dirs.deep_view() =~= seq![parent_v]);
                }
                Ok(JobPlan {
                    dirs_to_create: dirs,
                    invocation: inv,
                    verify_path: Option::Some(out.clone()),
                    read_metadata_path: Option::None,
                    output_path: Option::Some(out),
                })
            },
            PdfJobKind::Split { input, output_dir, mode, span, pages } => {
                let vin = validate_user_path(input.as_str())?;
                let vdir = validate_user_path(output_dir.as_str())?;
                proof {
                    reveal_strlit("span");
                    reveal_strlit("page");
                    assert("span"@[0] == 's' && "page"@[0] == 'p');
                    assert("span"@ != "page"@);
                }
                let inv = if *mode == String::from_str("span") {
                    let span_v = match span {
                        Option::Some(v) => *v,
                        Option::None => 1u32,
                    };
                    self.pdfcpu.split_span(vin.as_str(), vdir.as_str(), span_v)?
                } else if *mode == String::from_str("page") {
                    match pages {
                        Option::Some(v) => {
                            proof {
                                assert(v.deep_view() =~= v@);
                            }
                            self.pdfcpu.split_pages(vin.as_str(), vdir.as_str(), v)?
                        },
                        Option::None => {
                            let empty: Vec<u32> = Vec::new();
                            proof {
                                assert(empty@ =~= Seq::<u32>::empty());
                            }
                            self.pdfcpu.split_pages(vin.as_str(), vdir.as_str(), &empty)?
                        },
                    }
                } else {
                    return Err(PdfEngineError::InvalidInput(String::from_str("invalid split mode")));
                };
                let mut dirs: Vec<String> = Vec::new();
                push_string(&mut dirs, vdir.clone());
                proof {
                    assert(dirs.deep_view() =~= seq![vdir@]);
                }
                Ok(JobPlan {
                    dirs_to_create: dirs,
                    invocation: inv,
                    verify_path: Option::None,
                    read_metadata_path: Option::None,
                    output_path: Option::Some(vdir),
                })
            },
            PdfJobKind::Rotate { input, output, page_range, degrees } => {
                let vin = validate_user_path(input.as_str())?;
                let out = validate_user_path(output.as_str())?;
                let parent = match parent_of(out.as_str()) {
                    Option::Some(d) => d,
                    Option::None => {
                        return Err(PdfEngineError::InvalidInput(String::from_str("missing parent directory")));
                    },
                };
                let pages_ref: Option<&str> = match page_range {
                    Option::Some(p) => Option::Some(p.as_str()),
                    Option::None => Option::None,
                };
                let inv = self.pdfcpu.rotate(vin.as_str(), out.as_str(), *degrees, pages_ref)?;
                let mut dirs: Vec<String> = Vec::new();
                let ghost parent_v = parent@;
                push_string(&mut dirs, parent);
                proof {
                    assert(dirs.deep_view() =~= seq![parent_v]);
                }
                Ok(JobPlan {
                    dirs_to_create: dirs,
                    invocation: inv,
                    verify_path: Option::Some(out.clone()),
                    read_metadata_path: Option::None,
                    output_path: Option::Some(out),
                })
            },
            PdfJobKind::Compress { input, output, preset } => {
                let vin = validate_user_path(input.as_str())?;
                let out = validate_user_path(output.as_str())?;
                let parent = match parent_of(out.as_str()) {
                    Option::Some(d) => d,
                    Option::None => {
                        return Err(PdfEngineError::InvalidInput(String::from_str("missing parent directory")));
                    },
                };
                let inv = match preset {
                    Option::Some(p) => self.ghostscript.compress(vin.as_str(), out.as_str(), p.as_str())?,
                    Option::None => self.ghostscript.compress(
                        vin.as_str(),
                        out.as_str(),
                        self.config.default_compression_preset.as_str(),
                    )?,
                };
                let mut dirs: Vec<String> = Vec::new();
                let ghost parent_v = parent@;
                push_string(&mut dirs, parent);
                proof {
                    assert(dirs.deep_view() =~= seq![parent_v]);
                }
                Ok(JobPlan {
                    dirs_to_create: dirs,
                    invocation: inv,
                    verify_path: Option::Some(out.clone()),
                    read_metadata_path: Option::None,
                    output_path: Option::Some(out),
                })
            },
            PdfJobKind::Reorder { input, output, page_order } => {
                let vin = validate_user_path(input.as_str())?;
                let out = validate_user_path(output.as_str())?;
                let parent = match parent_of(out.as_str()) {
                    Option::Some(d) => d,
                    Option::None => {
                        return Err(PdfEngineError::InvalidInput(String::from_str("missing parent directory")));
                    },
                };
                let pages_str = join_pages(page_order);
                let inv = self.qpdf.reorder(vin.as_str(), out.as_str(), pages_str.as_str())?;
                let mut dirs: Vec<String> = Vec::new();
                let ghost parent_v = parent@;
                push_string(&mut dirs, parent);
                proof {
                    assert(dirs.deep_view() =~= seq![parent_v]);
                }
                Ok(JobPlan {
                    dirs_to_create: dirs,
                    invocation: inv,
                    verify_path: Option::Some(out.clone()),
                    read_metadata_path: Option::None,
                    output_path: Option::Some(out),
                })
            },
            PdfJobKind::Extract { input, output, pages } => {
                let vin = validate_user_path(input.as_str())?;
                let out = validate_user_path(output.as_str())?;
                let parent = match parent_of(out.as_str()) {
                    Option::Some(d) => d,
                    Option::None => {
                        return Err(PdfEngineError::InvalidInput(String::from_str("missing parent directory")));
                    },
                };
                let inv = self.pdfcpu.extract(vin.as_str(), out.as_str(), pages)?;
                let mut dirs: Vec<String> = Vec::new();
                let ghost parent_v = parent@;
                push_string(&mut dirs, parent);
                proof {
                    assert(dirs.deep_view() =~= seq![parent_v]);
                }
                Ok(JobPlan {
                    dirs_to_create: dirs,
                    invocation: inv,
                    verify_path: Option::Some(out.clone()),
                    read_metadata_path: Option::None,
                    output_path: Option::Some(out),
                })
            },
            PdfJobKind::Encrypt { input, output, user_password, owner_password } => {
                let vin = validate_user_path(input.as_str())?;
                let out = validate_user_path(output.as_str())?;
                let parent = match parent_of(out.as_str()) {
                    Option::Some(d) => d,
                    Option::None => {
                        return Err(PdfEngineError::InvalidInput(String::from_str("missing parent directory")));
                    },
                };
                let user_ref: Option<&str> = match user_password {
                    Option::Some(u) => Option::Some(u.as_str()),
                    Option::None => Option::None,
                };
                let inv = self.pdfcpu.encrypt(vin.as_str(), out.as_str(), owner_password.as_str(), user_ref)?;
                let mut dirs: Vec<String> = Vec::new();
                let ghost parent_v = parent@;
                push_string(&mut dirs, parent);
                proof {
                    assert(dirs.deep_view() =~= seq![parent_v]);
                }
                Ok(JobPlan {
                    dirs_to_create: dirs,
                    invocation: inv,
                    verify_path: Option::Some(out.clone()),
                    read_metadata_path: Option::None,
                    output_path: Option::Some(out),
                })
            },
            PdfJobKind::Decrypt { input, output, password } => {
                let vin = validate_user_path(input.as_str())?;
                let out = validate_user_path(output.as_str())?;
                let parent = match parent_of(out.as_str()) {
                    Option::Some(d) => d,
                    Option::None => {
                        return Err(PdfEngineError::InvalidInput(String::from_str("missing parent directory")));
                    },
                };
                let inv = self.pdfcpu.decrypt(vin.as_str(), out.as_str(), password.as_str())?;
                let mut dirs: Vec<String> = Vec::new();
                let ghost parent_v = parent@;
                push_string(&mut dirs, parent);
                proof {
                    assert(dirs.deep_view() =~= seq![parent_v]);
                }
                Ok(JobPlan {
                    dirs_to_create: dirs,
                    invocation: inv,
                    verify_path: Option::Some(out.clone()),
                    read_metadata_path: Option::None,
                    output_path: Option::Some(out),
                })
            },
            PdfJobKind::GetMetadata { input } => {
                let vin = validate_user_path(input.as_str())?;
                let name = deterministic_output_name(vin.as_str(), "metadata.json")?;
                let mut out = self.output_dir.clone();
                push_char(&mut out, '/');
                out.append(name.as_str());
                proof {
                    assert(out@ =~= self.output_dir_view() + seq!['/'] + name@);
                }
                let parent = match parent_of(out.as_str()) {
                    Option::Some(d) => d,
                    Option::None => {
                        return Err(PdfEngineError::InvalidInput(String::from_str("missing parent directory")));
                    },
                };
                let inv = self.pdfcpu.get_metadata(vin.as_str(), out.as_str())?;
                let mut dirs: Vec<String> = Vec::new();
                let ghost parent_v = parent@;
                push_string(&mut dirs, parent);
                proof {
                    assert(dirs.deep_view() =~= seq![parent_v]);
                }
                Ok(JobPlan {
                    dirs_to_create: dirs,
                    invocation: inv,
                    verify_path: Option::None,
                    read_metadata_path: Option::Some(out.clone()),
                    output_path: Option::Some(out),
                })
            },
            PdfJobKind::SetMetadata { input, output, title, author, subject, keywords } => {
                let vin = validate_user_path(input.as_str())?;
                let out = validate_user_path(output.as_str())?;
                let parent = match parent_of(out.as_str()) {
                    Option::Some(d) => d,
                    Option::None => {
                        return Err(PdfEngineError::InvalidInput(String::from_str("missing parent directory")));
                    },
                };
                let mut entries: Vec<String> = Vec::new();
                if let Option::Some(t) = title {
                    push_string(&mut entries, String::from_str("-title=").concat(t.as_str()));
                }
                if let Option::Some(a) = author {
                    push_string(&mut entries, String::from_str("-author=").concat(a.as_str()));
                }
                if let Option::Some(su) = subject {
                    push_string(&mut entries, String::from_str("-subject=").concat(su.as_str()));
                }
                if let Option::Some(kw) = keywords {
                    push_string(&mut entries, String::from_str("-keywords=").concat(kw.as_str()));
                }
                proof {
                    assert(entries.deep_view() =~= metadata_entries(
                        title.deep_view(), author.deep_view(), subject.deep_view(), keywords.deep_view()));
                }
                let inv = self.pdfcpu.set_metadata(vin.as_str(), out.as_str(), &entries)?;
                let mut dirs: Vec<String> = Vec::new();
                let ghost parent_v = parent@;
                push_string(&mut dirs, parent);
                proof {
                    assert(dirs.deep_view() =~= seq![parent_v]);
                }
                Ok(JobPlan {
                    dirs_to_create: dirs,
                    invocation: inv,
                    verify_path: Option::Some(out.clone()),
                    read_metadata_path: Option::None,
                    output_path: Option::Some(out),
                })
            },
            PdfJobKind::Watermark | PdfJobKind::Redact | PdfJobKind::Sign | PdfJobKind::Ocr => {
                Err(PdfEngineError::Unsupported(String::from_str("phase 2")))
            },
        }
    }
}

} // verus!


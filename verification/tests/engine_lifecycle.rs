use convertix::adapters::{interpret_outcome, verify_output, ToolOutcome};
use convertix::config::EngineConfig;
use convertix::engine::{assemble_result, PdfEngine, WorkerBegin};
use convertix::errors::PdfEngineError;
use convertix::model::{JobState, PdfJobKind};

fn config_all_disabled() -> EngineConfig {
    EngineConfig {
        pdfcpu_enabled: false,
        qpdf_enabled: false,
        ghostscript_enabled: false,
        ..Default::default()
    }
}

fn engine_with(config: EngineConfig) -> PdfEngine {
    PdfEngine::new(
        config,
        "/var/data/jobs/jobs.json".to_string(),
        "/var/data/outputs".to_string(),
        "/var/data/audit/audit.log".to_string(),
    )
}

fn merge_kind() -> PdfJobKind {
    PdfJobKind::Merge {
        inputs: vec!["/docs/a.pdf".to_string(), "/docs/b.pdf".to_string()],
        output: "/docs/out/merged.pdf".to_string(),
    }
}

#[test]
fn enqueue_creates_queued_record() {
    let mut engine = engine_with(EngineConfig::default());
    let id = engine.enqueue(merge_kind()).unwrap();
    assert_eq!(id.len(), 36);
    let job = engine.get_status(&id).unwrap();
    assert!(matches!(job.state, JobState::Queued));
    assert_eq!(job.progress.percent, 0);
    assert_eq!(job.progress.stage, "queued");
    assert_eq!(job.created_at, job.updated_at);
    assert!(job.error.is_none());
}

#[test]
fn job_ids_are_unique() {
    let mut engine = engine_with(EngineConfig::default());
    let id1 = engine.enqueue(merge_kind()).unwrap();
    let id2 = engine.enqueue(merge_kind()).unwrap();
    let id3 = engine.enqueue(merge_kind()).unwrap();
    assert_ne!(id1, id2);
    assert_ne!(id1, id3);
    assert_ne!(id2, id3);
}

#[test]
fn status_of_unknown_job_is_not_found() {
    let engine = engine_with(EngineConfig::default());
    let err = engine.get_status("no-such-id").unwrap_err();
    assert!(matches!(err, PdfEngineError::JobNotFound));
    assert_eq!(err.message(), "job not found");
}

#[test]
fn merge_with_disabled_tool_fails_with_disabled_error() {
    let mut engine = engine_with(config_all_disabled());
    let id = engine.enqueue(merge_kind()).unwrap();
    let msg = engine.pop_next().unwrap();
    assert_eq!(msg.job_id, id);

    let begun = engine.worker_begin(&id, 1_000);
    let job = match begun {
        WorkerBegin::Proceed(job) => job,
        _ => panic!("expected the worker to proceed"),
    };
    assert!(matches!(job.state, JobState::Running));
    assert!(matches!(engine.get_status(&id).unwrap().state, JobState::Running));

    let err = engine.plan_job(&job).unwrap_err();
    assert!(matches!(err, PdfEngineError::ToolUnavailable(_)));
    let finished = engine.worker_finish(&id, Err(err), 2_000);
    assert!(finished.is_err());

    let done = engine.get_status(&id).unwrap();
    assert!(matches!(done.state, JobState::Failed));
    assert_eq!(done.progress.stage, "failed");
    let cause = done.error.unwrap();
    assert!(cause.contains("disabled"));
    assert_eq!(cause, "tool unavailable: pdfcpu disabled");
}

#[test]
fn split_with_invalid_mode_fails_without_invocation() {
    let mut engine = engine_with(EngineConfig::default());
    let id = engine
        .enqueue(PdfJobKind::Split {
            input: "/docs/a.pdf".to_string(),
            output_dir: "/docs/parts".to_string(),
            mode: "invalid".to_string(),
            span: None,
            pages: None,
        })
        .unwrap();
    engine.pop_next().unwrap();
    let job = match engine.worker_begin(&id, 1_000) {
        WorkerBegin::Proceed(job) => job,
        _ => panic!("expected the worker to proceed"),
    };
    let err = engine.plan_job(&job).unwrap_err();
    assert!(matches!(err, PdfEngineError::InvalidInput(_)));
    assert_eq!(err.message(), "invalid input: invalid split mode");
    engine.worker_finish(&id, Err(err), 2_000).unwrap_err();
    let done = engine.get_status(&id).unwrap();
    assert!(matches!(done.state, JobState::Failed));
    assert_eq!(done.error.unwrap(), "invalid input: invalid split mode");
}

#[test]
fn cancel_before_checkpoint_keeps_record_canceled() {
    let mut engine = engine_with(EngineConfig::default());
    let id = engine.enqueue(merge_kind()).unwrap();
    engine.cancel(&id).unwrap();
    assert!(engine.is_canceled(&id));
    assert!(matches!(engine.get_status(&id).unwrap().state, JobState::Canceled));

    engine.pop_next().unwrap();
    let begun = engine.worker_begin(&id, 1_000);
    assert!(matches!(begun, WorkerBegin::CanceledBeforeRun));

    let done = engine.get_status(&id).unwrap();
    assert!(matches!(done.state, JobState::Canceled));
    assert_eq!(done.progress.stage, "canceled");
    assert_eq!(done.progress.percent, 0);
}

#[test]
fn cancel_of_unknown_job_reports_not_found_but_sets_flag() {
    let mut engine = engine_with(EngineConfig::default());
    let err = engine.cancel("ghost").unwrap_err();
    assert!(matches!(err, PdfEngineError::JobNotFound));
    assert!(engine.is_canceled("ghost"));
}

#[test]
fn empty_output_file_fails_the_job() {
    let mut engine = engine_with(EngineConfig::default());
    let id = engine.enqueue(merge_kind()).unwrap();
    engine.pop_next().unwrap();
    let job = match engine.worker_begin(&id, 1_000) {
        WorkerBegin::Proceed(job) => job,
        _ => panic!("expected the worker to proceed"),
    };
    let plan = engine.plan_job(&job).unwrap();
    assert_eq!(plan.verify_path.as_deref(), Some("/docs/out/merged.pdf"));

    // The adapter "succeeded" but the produced file is empty.
    interpret_outcome(&plan.invocation.tool, ToolOutcome::Completed).unwrap();
    let err = verify_output(Ok(0)).unwrap_err();
    assert!(matches!(err, PdfEngineError::ToolFailed(_)));
    engine.worker_finish(&id, Err(err), 2_000).unwrap_err();

    let done = engine.get_status(&id).unwrap();
    assert!(matches!(done.state, JobState::Failed));
    assert_eq!(done.error.unwrap(), "tool failed: output empty");
}

#[test]
fn successful_run_completes_the_job() {
    let mut engine = engine_with(EngineConfig::default());
    let id = engine.enqueue(merge_kind()).unwrap();
    engine.pop_next().unwrap();
    let job = match engine.worker_begin(&id, 1_000) {
        WorkerBegin::Proceed(job) => job,
        _ => panic!("expected the worker to proceed"),
    };
    let plan = engine.plan_job(&job).unwrap();
    interpret_outcome(&plan.invocation.tool, ToolOutcome::Completed).unwrap();
    verify_output(Ok(4_096)).unwrap();
    let result = assemble_result(&job, &plan, None);
    assert_eq!(result.job_id, id);
    assert_eq!(result.output_path.as_deref(), Some("/docs/out/merged.pdf"));
    assert!(result.metadata.is_none());
    engine.worker_finish(&id, Ok(result), 2_000).unwrap();

    let done = engine.get_status(&id).unwrap();
    assert!(matches!(done.state, JobState::Completed));
    assert_eq!(done.progress.percent, 100);
    assert_eq!(done.progress.stage, "completed");
    assert!(done.error.is_none());
    assert_eq!(done.updated_at, 2_000);
}

#[test]
fn restart_reenqueues_unfinished_jobs() {
    let mut first = engine_with(config_all_disabled());
    let id = first.enqueue(merge_kind()).unwrap();
    first.pop_next().unwrap();
    // The worker marks the job running, then the process "crashes".
    match first.worker_begin(&id, 1_000) {
        WorkerBegin::Proceed(_) => {},
        _ => panic!("expected the worker to proceed"),
    }
    let snapshot = first.list();

    let mut second = engine_with(config_all_disabled());
    second.load_and_resume(snapshot).unwrap();
    let msg = second.pop_next().expect("the unfinished job is re-enqueued");
    assert_eq!(msg.job_id, id);

    let job = match second.worker_begin(&id, 5_000) {
        WorkerBegin::Proceed(job) => job,
        _ => panic!("expected the worker to proceed"),
    };
    let err = second.plan_job(&job).unwrap_err();
    second.worker_finish(&id, Err(err), 6_000).unwrap_err();
    let done = second.get_status(&id).unwrap();
    assert!(matches!(done.state, JobState::Failed));
}

#[test]
fn resume_skips_terminal_records() {
    let mut first = engine_with(config_all_disabled());
    let id_done = first.enqueue(merge_kind()).unwrap();
    first.pop_next().unwrap();
    match first.worker_begin(&id_done, 1_000) {
        WorkerBegin::Proceed(job) => {
            let err = first.plan_job(&job).unwrap_err();
            first.worker_finish(&id_done, Err(err), 2_000).unwrap_err();
        },
        _ => panic!("expected the worker to proceed"),
    }
    let id_waiting = first.enqueue(merge_kind()).unwrap();
    let snapshot = first.list();

    let mut second = engine_with(config_all_disabled());
    second.load_and_resume(snapshot).unwrap();
    let msg = second.pop_next().expect("the queued job is re-enqueued");
    assert_eq!(msg.job_id, id_waiting);
    assert!(second.pop_next().is_none());
}

#[test]
fn worker_begin_of_unknown_id_changes_nothing() {
    let mut engine = engine_with(EngineConfig::default());
    assert!(matches!(engine.worker_begin("ghost", 1_000), WorkerBegin::NotFound));
    assert!(engine.pop_next().is_none());
}

#[test]
fn unsupported_kinds_fail_as_reserved() {
    let mut engine = engine_with(EngineConfig::default());
    let id = engine.enqueue(PdfJobKind::Watermark).unwrap();
    engine.pop_next().unwrap();
    let job = match engine.worker_begin(&id, 1_000) {
        WorkerBegin::Proceed(job) => job,
        _ => panic!("expected the worker to proceed"),
    };
    let err = engine.plan_job(&job).unwrap_err();
    assert!(matches!(err, PdfEngineError::Unsupported(_)));
    assert_eq!(err.message(), "unsupported operation: phase 2");
}

#[test]
fn audit_lines_trace_the_lifecycle() {
    let mut engine = engine_with(config_all_disabled());
    let id = engine.enqueue(merge_kind()).unwrap();
    engine.pop_next().unwrap();
    let job = match engine.worker_begin(&id, 1_234) {
        WorkerBegin::Proceed(job) => job,
        _ => panic!("expected the worker to proceed"),
    };
    let err = engine.plan_job(&job).unwrap_err();
    engine.worker_finish(&id, Err(err), 2_345).unwrap_err();

    let lines = engine.take_audit_lines();
    assert_eq!(lines.len(), 2);
    let started: serde_json::Value = serde_json::from_str(&lines[0]).unwrap();
    assert_eq!(started.get("job_id").unwrap().as_str().unwrap(), id);
    assert_eq!(started.get("state").unwrap().as_str().unwrap(), "Running");
    assert_eq!(started.get("stage").unwrap().as_str().unwrap(), "running");
    assert_eq!(started.get("timestamp_ms").unwrap().as_u64().unwrap(), 1_234);
    assert_eq!(started.get("message").unwrap().as_str().unwrap(), "job started");
    let failed: serde_json::Value = serde_json::from_str(&lines[1]).unwrap();
    assert_eq!(failed.get("state").unwrap().as_str().unwrap(), "Failed");
    assert_eq!(failed.get("timestamp_ms").unwrap().as_u64().unwrap(), 2_345);

    // Draining leaves the buffer empty.
    assert!(engine.take_audit_lines().is_empty());
}

#[test]
fn metadata_read_falls_back_to_empty_object() {
    let mut engine = engine_with(EngineConfig::default());
    let id = engine.enqueue(PdfJobKind::GetMetadata { input: "/docs/report.pdf".to_string() }).unwrap();
    engine.pop_next().unwrap();
    let job = match engine.worker_begin(&id, 1_000) {
        WorkerBegin::Proceed(job) => job,
        _ => panic!("expected the worker to proceed"),
    };
    let plan = engine.plan_job(&job).unwrap();
    assert_eq!(
        plan.read_metadata_path.as_deref(),
        Some("/var/data/outputs/report_metadata.json")
    );

    let garbled = assemble_result(&job, &plan, Some("not json at all".to_string()));
    assert_eq!(garbled.metadata.as_deref(), Some("{}"));
    let missing = assemble_result(&job, &plan, None);
    assert_eq!(missing.metadata.as_deref(), Some("{}"));
    let kept = assemble_result(&job, &plan, Some("{\"Title\":\"Report\"}".to_string()));
    assert_eq!(kept.metadata.as_deref(), Some("{\"Title\":\"Report\"}"));
}

#[test]
fn tool_outcomes_map_to_engine_errors() {
    assert!(interpret_outcome("pdfcpu", ToolOutcome::Completed).is_ok());
    let timeout = interpret_outcome("pdfcpu", ToolOutcome::TimedOut).unwrap_err();
    assert!(matches!(timeout, PdfEngineError::Timeout));
    assert_eq!(timeout.message(), "timeout");
    let spawn = interpret_outcome("qpdf", ToolOutcome::SpawnFailed("no such file".to_string())).unwrap_err();
    assert_eq!(spawn.message(), "io error: no such file");
    let failed = interpret_outcome("pdfcpu", ToolOutcome::ExitFailure("exit status 2".to_string())).unwrap_err();
    assert_eq!(failed.message(), "tool failed: pdfcpu: exit status 2");
}

#[test]
fn output_verification_accepts_only_nonempty_files() {
    assert!(verify_output(Ok(1)).is_ok());
    assert!(verify_output(Ok(10_000_000)).is_ok());
    let empty = verify_output(Ok(0)).unwrap_err();
    assert_eq!(empty.message(), "tool failed: output empty");
    let gone = verify_output(Err("file not found".to_string())).unwrap_err();
    assert_eq!(gone.message(), "io error: file not found");
}

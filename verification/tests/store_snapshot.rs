use convertix::errors::PdfEngineError;
use convertix::model::{mark_canceled, mark_completed, mark_failed, mark_running, JobState, PdfJob, PdfJobKind};
use convertix::store::JobStore;

fn record(id: &str, now: u64) -> PdfJob {
    PdfJob::new(
        PdfJobKind::GetMetadata { input: format!("/docs/{id}.pdf") },
        id.to_string(),
        now,
    )
}

#[test]
fn snapshot_round_trips_across_a_reload() {
    let mut store = JobStore::new("/var/data/jobs.json".to_string());
    store.insert(record("a", 10)).unwrap();
    store.insert(mark_running(record("b", 20), 25)).unwrap();
    store.insert(mark_completed(record("c", 30), 35)).unwrap();
    store.insert(mark_failed(record("d", 40), 45, "boom")).unwrap();
    store.insert(mark_canceled(record("e", 50), 55)).unwrap();

    let before = store.list();
    let reloaded = JobStore::restore("/var/data/jobs.json".to_string(), store.list()).unwrap();
    let after = reloaded.list();

    assert_eq!(before.len(), after.len());
    for (x, y) in before.iter().zip(after.iter()) {
        assert_eq!(x.id, y.id);
        assert_eq!(x.state, y.state);
        assert_eq!(x.progress.percent, y.progress.percent);
        assert_eq!(x.progress.stage, y.progress.stage);
        assert_eq!(x.created_at, y.created_at);
        assert_eq!(x.updated_at, y.updated_at);
        assert_eq!(x.error, y.error);
    }
}

#[test]
fn corrupt_snapshot_with_duplicate_ids_is_refused() {
    let twin_a = record("twin", 10);
    let twin_b = record("twin", 20);
    let err = JobStore::restore("/var/data/jobs.json".to_string(), vec![twin_a, twin_b]).unwrap_err();
    match err {
        PdfEngineError::Serialization(m) => assert_eq!(m, "duplicate job id in snapshot"),
        _ => panic!("expected a serialization error"),
    }
}

#[test]
fn insert_overwrites_by_id() {
    let mut store = JobStore::new("/var/data/jobs.json".to_string());
    let first = record("x", 10);
    store.insert(first).unwrap();
    let replacement = mark_running(record("x", 10), 99);
    store.update(replacement).unwrap();
    assert_eq!(store.list().len(), 1);
    let seen = store.get("x").unwrap();
    assert!(matches!(seen.state, JobState::Running));
    assert_eq!(seen.updated_at, 99);
}

#[test]
fn get_finds_only_known_ids() {
    let mut store = JobStore::new("/var/data/jobs.json".to_string());
    store.insert(record("known", 10)).unwrap();
    assert!(store.contains_id("known"));
    assert!(!store.contains_id("unknown"));
    assert_eq!(store.get("known").unwrap().id, "known");
    assert!(matches!(store.get("unknown").unwrap_err(), PdfEngineError::JobNotFound));
}

#[test]
fn storage_path_is_kept() {
    let store = JobStore::new("/var/data/jobs.json".to_string());
    assert_eq!(store.storage_path(), "/var/data/jobs.json");
}

#[test]
fn transitions_write_the_documented_fields() {
    let job = record("t", 100);
    let running = mark_running(job, 150);
    assert!(matches!(running.state, JobState::Running));
    assert_eq!(running.progress.percent, 5);
    assert_eq!(running.progress.stage, "running");
    assert_eq!(running.updated_at, 150);
    assert_eq!(running.created_at, 100);

    let completed = mark_completed(running, 200);
    assert!(matches!(completed.state, JobState::Completed));
    assert_eq!(completed.progress.percent, 100);
    assert_eq!(completed.progress.stage, "completed");

    let failed = mark_failed(record("u", 100), 160, "cause");
    assert!(matches!(failed.state, JobState::Failed));
    assert_eq!(failed.progress.stage, "failed");
    assert_eq!(failed.progress.percent, 0);
    assert_eq!(failed.error.as_deref(), Some("cause"));

    let canceled = mark_canceled(record("v", 100), 170);
    assert!(matches!(canceled.state, JobState::Canceled));
    assert_eq!(canceled.progress.percent, 0);
    assert_eq!(canceled.progress.stage, "canceled");
}

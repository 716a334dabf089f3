use convertix::config::EngineConfig;
use convertix::engine::{PdfEngine, WorkerBegin};
use convertix::model::PdfJobKind;

fn engine() -> PdfEngine {
    PdfEngine::new(
        EngineConfig::default(),
        "/var/data/jobs/jobs.json".to_string(),
        "/var/data/outputs".to_string(),
        "/var/data/audit/audit.log".to_string(),
    )
}

fn plan_of(engine: &mut PdfEngine, kind: PdfJobKind) -> convertix::engine::JobPlan {
    let id = engine.enqueue(kind).unwrap();
    engine.pop_next().unwrap();
    match engine.worker_begin(&id, 1_000) {
        WorkerBegin::Proceed(job) => engine.plan_job(&job).unwrap(),
        _ => panic!("expected the worker to proceed"),
    }
}

#[test]
fn merge_plan_lists_output_then_inputs() {
    let mut e = engine();
    let plan = plan_of(&mut e, PdfJobKind::Merge {
        inputs: vec!["/in/a.pdf".to_string(), "/in/b.pdf".to_string()],
        output: "/out/m.pdf".to_string(),
    });
    assert_eq!(plan.invocation.tool, "pdfcpu");
    assert_eq!(plan.invocation.executable, "pdfcpu");
    assert_eq!(plan.invocation.timeout_secs, 120);
    assert_eq!(plan.invocation.args, vec!["merge", "--", "/out/m.pdf", "/in/a.pdf", "/in/b.pdf"]);
    assert_eq!(plan.dirs_to_create, vec!["/out"]);
    assert_eq!(plan.verify_path.as_deref(), Some("/out/m.pdf"));
    assert_eq!(plan.output_path.as_deref(), Some("/out/m.pdf"));
    assert!(plan.read_metadata_path.is_none());
}

#[test]
fn split_plans_choose_the_mode() {
    let mut e = engine();
    let span = plan_of(&mut e, PdfJobKind::Split {
        input: "/in/a.pdf".to_string(),
        output_dir: "/out/parts".to_string(),
        mode: "span".to_string(),
        span: Some(3),
        pages: None,
    });
    assert_eq!(span.invocation.args, vec!["split", "-m", "span", "--", "/in/a.pdf", "/out/parts", "3"]);
    assert_eq!(span.dirs_to_create, vec!["/out/parts"]);
    assert!(span.verify_path.is_none());

    let default_span = plan_of(&mut e, PdfJobKind::Split {
        input: "/in/a.pdf".to_string(),
        output_dir: "/out/parts".to_string(),
        mode: "span".to_string(),
        span: None,
        pages: None,
    });
    assert_eq!(default_span.invocation.args[6], "1");

    let pages = plan_of(&mut e, PdfJobKind::Split {
        input: "/in/a.pdf".to_string(),
        output_dir: "/out/parts".to_string(),
        mode: "page".to_string(),
        span: None,
        pages: Some(vec![2, 5, 9]),
    });
    assert_eq!(pages.invocation.args, vec!["split", "-m", "page", "--", "/in/a.pdf", "/out/parts", "2", "5", "9"]);
}

#[test]
fn rotate_plan_places_the_page_selection() {
    let mut e = engine();
    let all = plan_of(&mut e, PdfJobKind::Rotate {
        input: "/in/a.pdf".to_string(),
        output: "/out/r.pdf".to_string(),
        page_range: None,
        degrees: -90,
    });
    assert_eq!(all.invocation.args, vec!["rotate", "-90", "--", "/in/a.pdf", "/out/r.pdf"]);

    let some = plan_of(&mut e, PdfJobKind::Rotate {
        input: "/in/a.pdf".to_string(),
        output: "/out/r.pdf".to_string(),
        page_range: Some("1-3".to_string()),
        degrees: 180,
    });
    assert_eq!(some.invocation.args, vec!["rotate", "180", "-p", "1-3", "--", "/in/a.pdf", "/out/r.pdf"]);
}

#[test]
fn compress_plan_uses_the_configured_preset_by_default() {
    let mut e = engine();
    let plain = plan_of(&mut e, PdfJobKind::Compress {
        input: "/in/a.pdf".to_string(),
        output: "/out/c.pdf".to_string(),
        preset: None,
    });
    assert_eq!(plain.invocation.tool, "ghostscript");
    assert_eq!(plain.invocation.executable, "gs");
    assert_eq!(plain.invocation.args, vec![
        "-sDEVICE=pdfwrite",
        "-dPDFSETTINGS=/screen",
        "-dNOPAUSE",
        "-dBATCH",
        "-dSAFER",
        "-sOutputFile=/out/c.pdf",
        "/in/a.pdf",
    ]);

    let chosen = plan_of(&mut e, PdfJobKind::Compress {
        input: "/in/a.pdf".to_string(),
        output: "/out/c.pdf".to_string(),
        preset: Some("ebook".to_string()),
    });
    assert_eq!(chosen.invocation.args[1], "-dPDFSETTINGS=/ebook");
}

#[test]
fn reorder_plan_joins_the_page_order() {
    let mut e = engine();
    let plan = plan_of(&mut e, PdfJobKind::Reorder {
        input: "/in/a.pdf".to_string(),
        output: "/out/r.pdf".to_string(),
        page_order: vec![3, 1, 2],
    });
    assert_eq!(plan.invocation.tool, "qpdf");
    assert_eq!(plan.invocation.args, vec!["/in/a.pdf", "--pages", ".", "3,1,2", "--", "/out/r.pdf"]);
}

#[test]
fn extract_plan_defaults_to_the_first_page() {
    let mut e = engine();
    let some = plan_of(&mut e, PdfJobKind::Extract {
        input: "/in/a.pdf".to_string(),
        output: "/out/x.pdf".to_string(),
        pages: vec![4, 7],
    });
    assert_eq!(some.invocation.args, vec!["extract", "-p", "4,7", "--", "/in/a.pdf", "/out/x.pdf"]);

    let none = plan_of(&mut e, PdfJobKind::Extract {
        input: "/in/a.pdf".to_string(),
        output: "/out/x.pdf".to_string(),
        pages: vec![],
    });
    assert_eq!(none.invocation.args[2], "1");
}

#[test]
fn encrypt_plan_includes_the_user_password_only_when_given() {
    let mut e = engine();
    let owner_only = plan_of(&mut e, PdfJobKind::Encrypt {
        input: "/in/a.pdf".to_string(),
        output: "/out/e.pdf".to_string(),
        user_password: None,
        owner_password: "owner-secret".to_string(),
    });
    assert_eq!(owner_only.invocation.args, vec![
        "encrypt", "-opw", "owner-secret", "--", "/in/a.pdf", "/out/e.pdf",
    ]);

    let both = plan_of(&mut e, PdfJobKind::Encrypt {
        input: "/in/a.pdf".to_string(),
        output: "/out/e.pdf".to_string(),
        user_password: Some("user-secret".to_string()),
        owner_password: "owner-secret".to_string(),
    });
    assert_eq!(both.invocation.args, vec![
        "encrypt", "-opw", "owner-secret", "-upw", "user-secret", "--", "/in/a.pdf", "/out/e.pdf",
    ]);
}

#[test]
fn decrypt_plan_passes_the_password() {
    let mut e = engine();
    let plan = plan_of(&mut e, PdfJobKind::Decrypt {
        input: "/in/a.pdf".to_string(),
        output: "/out/d.pdf".to_string(),
        password: "user-secret".to_string(),
    });
    assert_eq!(plan.invocation.args, vec![
        "decrypt", "-upw", "user-secret", "--", "/in/a.pdf", "/out/d.pdf",
    ]);
}

#[test]
fn metadata_plans_read_and_write() {
    let mut e = engine();
    let read = plan_of(&mut e, PdfJobKind::GetMetadata { input: "/docs/report.pdf".to_string() });
    assert_eq!(read.invocation.args, vec![
        "info", "-json", "--", "/docs/report.pdf", "/var/data/outputs/report_metadata.json",
    ]);
    assert_eq!(read.dirs_to_create, vec!["/var/data/outputs"]);
    assert_eq!(read.read_metadata_path.as_deref(), Some("/var/data/outputs/report_metadata.json"));
    assert!(read.verify_path.is_none());

    let write = plan_of(&mut e, PdfJobKind::SetMetadata {
        input: "/in/a.pdf".to_string(),
        output: "/out/s.pdf".to_string(),
        title: Some("A Title".to_string()),
        author: None,
        subject: Some("Sub".to_string()),
        keywords: None,
    });
    assert_eq!(write.invocation.args, vec![
        "properties", "-title=A Title", "-subject=Sub", "--", "/in/a.pdf", "/out/s.pdf",
    ]);
}

#[test]
fn invalid_paths_doom_a_plan_before_any_tool() {
    let mut e = engine();
    let id = e.enqueue(PdfJobKind::Merge {
        inputs: vec!["relative.pdf".to_string()],
        output: "/out/m.pdf".to_string(),
    }).unwrap();
    e.pop_next().unwrap();
    let job = match e.worker_begin(&id, 1_000) {
        WorkerBegin::Proceed(job) => job,
        _ => panic!("expected the worker to proceed"),
    };
    let err = e.plan_job(&job).unwrap_err();
    assert_eq!(err.message(), "security violation: path must be absolute");

    let id2 = e.enqueue(PdfJobKind::Decrypt {
        input: "/in/../secret.pdf".to_string(),
        output: "/out/d.pdf".to_string(),
        password: "p".to_string(),
    }).unwrap();
    e.pop_next().unwrap();
    let job2 = match e.worker_begin(&id2, 1_000) {
        WorkerBegin::Proceed(job) => job,
        _ => panic!("expected the worker to proceed"),
    };
    let err2 = e.plan_job(&job2).unwrap_err();
    assert_eq!(err2.message(), "security violation: path traversal not allowed");
}

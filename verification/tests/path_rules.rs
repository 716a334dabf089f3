use convertix::errors::PdfEngineError;
use convertix::paths::{
    contains_parent_traversal, deterministic_output_name, is_allowed_path, is_path_prefix,
    normalize_path, parent_of, validate_user_path, EnginePaths,
};

#[test]
fn relative_paths_are_rejected() {
    for candidate in ["", "docs/a.pdf", "./a.pdf", "../a.pdf", "a"] {
        let err = validate_user_path(candidate).unwrap_err();
        match err {
            PdfEngineError::Security(m) => assert_eq!(m, "path must be absolute"),
            _ => panic!("expected a security error"),
        }
    }
}

#[test]
fn traversal_paths_are_rejected() {
    for candidate in ["/..", "/a/../b.pdf", "/a/b/..", "/../etc/passwd"] {
        let err = validate_user_path(candidate).unwrap_err();
        match err {
            PdfEngineError::Security(m) => assert_eq!(m, "path traversal not allowed"),
            _ => panic!("expected a security error"),
        }
    }
}

#[test]
fn absolute_traversal_free_paths_are_accepted() {
    for candidate in ["/", "/a.pdf", "/docs/in/file.pdf", "/..a/b", "/a..b/c", "/a/b..", "/a/.../b"] {
        let accepted = validate_user_path(candidate).unwrap();
        assert_eq!(accepted, candidate);
    }
}

#[test]
fn traversal_detection_matches_components() {
    assert!(contains_parent_traversal(".."));
    assert!(contains_parent_traversal("/a/../b"));
    assert!(contains_parent_traversal("a/.."));
    assert!(!contains_parent_traversal("/a/..b"));
    assert!(!contains_parent_traversal("/a..//b"));
    assert!(!contains_parent_traversal("..."));
    assert!(!contains_parent_traversal(""));
}

#[test]
fn parent_of_strips_the_last_component() {
    assert_eq!(parent_of("/a/b").as_deref(), Some("/a"));
    assert_eq!(parent_of("/a/b/").as_deref(), Some("/a"));
    assert_eq!(parent_of("/a").as_deref(), Some("/"));
    assert_eq!(parent_of("/"), None);
    assert_eq!(parent_of(""), None);
    assert_eq!(parent_of("name").as_deref(), Some(""));
    assert_eq!(parent_of("/a//b").as_deref(), Some("/a"));
}

#[test]
fn output_names_derive_from_the_file_stem() {
    assert_eq!(
        deterministic_output_name("/docs/report.pdf", "metadata.json").unwrap(),
        "report_metadata.json"
    );
    assert_eq!(
        deterministic_output_name("/docs/archive.tar.gz", "metadata.json").unwrap(),
        "archive.tar_metadata.json"
    );
    assert_eq!(
        deterministic_output_name("/docs/.hidden", "metadata.json").unwrap(),
        ".hidden_metadata.json"
    );
    assert_eq!(
        deterministic_output_name("/docs/noext", "x").unwrap(),
        "noext_x"
    );
    let err = deterministic_output_name("/", "x").unwrap_err();
    match err {
        PdfEngineError::InvalidInput(m) => assert_eq!(m, "invalid filename"),
        _ => panic!("expected an invalid-input error"),
    }
    assert!(deterministic_output_name("/a/..", "x").is_err());
}

#[test]
fn normalize_path_is_identity_on_text() {
    assert_eq!(normalize_path("/a/b"), "/a/b");
    assert_eq!(normalize_path("relative"), "relative");
}

#[test]
fn path_prefix_is_component_wise() {
    assert!(is_path_prefix("/a", "/a"));
    assert!(is_path_prefix("/a", "/a/b"));
    assert!(is_path_prefix("/", "/anything"));
    assert!(!is_path_prefix("/a", "/ab"));
    assert!(!is_path_prefix("/a/b", "/a"));
    assert!(!is_path_prefix("/x", "/y"));
}

#[test]
fn unresolvable_paths_are_never_allowed() {
    assert!(!is_allowed_path(
        "/definitely/not/a/real/base",
        "/definitely/not/a/real/base/candidate"
    ));
}

#[test]
fn engine_paths_lie_below_the_data_dir() {
    let paths = EnginePaths::from_data_dir("/home/user/.local/share/convertix");
    assert_eq!(paths.data_dir, "/home/user/.local/share/convertix");
    assert_eq!(paths.jobs_dir, "/home/user/.local/share/convertix/pdf_engine/jobs");
    assert_eq!(paths.output_dir, "/home/user/.local/share/convertix/pdf_engine/outputs");
    assert_eq!(paths.audit_dir, "/home/user/.local/share/convertix/pdf_engine/audit");
}

use convertix::config::EngineConfig;
use convertix::errors::{JobError, PdfEngineError};
use convertix::services::{
    cache_info, local_kind_supported, local_output_name, local_size_ok, pdf_header_ok,
    CACHE_LIMIT_BYTES, LOCAL_SIZE_LIMIT_BYTES,
};

#[test]
fn default_engine_config_matches_the_built_ins() {
    let config = EngineConfig::default();
    assert!(config.pdfcpu_enabled);
    assert!(config.qpdf_enabled);
    assert!(config.ghostscript_enabled);
    assert!(config.pdfcpu_path.is_none());
    assert!(config.qpdf_path.is_none());
    assert!(config.ghostscript_path.is_none());
    assert_eq!(config.default_compression_preset, "screen");
    assert_eq!(config.tool_timeout_secs, 120);
}

#[test]
fn cache_info_carries_the_fixed_budget() {
    let info = cache_info("/home/user/.cache/convertix".to_string(), 123);
    assert_eq!(info.cache_dir, "/home/user/.cache/convertix");
    assert_eq!(info.bytes_used, 123);
    assert_eq!(info.limit_bytes, CACHE_LIMIT_BYTES);
    assert_eq!(info.limit_bytes, 2 * 1024 * 1024 * 1024);
}

#[test]
fn the_size_limit_is_five_hundred_megabytes() {
    assert_eq!(LOCAL_SIZE_LIMIT_BYTES, 500 * 1024 * 1024);
    assert!(local_size_ok(0));
    assert!(local_size_ok(LOCAL_SIZE_LIMIT_BYTES));
    assert!(!local_size_ok(LOCAL_SIZE_LIMIT_BYTES + 1));
}

#[test]
fn only_the_pdf_magic_is_accepted() {
    assert!(pdf_header_ok(b"%PDF-"));
    assert!(!pdf_header_ok(b"%PDF"));
    assert!(!pdf_header_ok(b"%PDX-"));
    assert!(!pdf_header_ok(b""));
    assert!(!pdf_header_ok(b"%PDF-1"));
}

#[test]
fn known_kinds_are_pdf_and_image() {
    assert!(local_kind_supported("pdf"));
    assert!(local_kind_supported("image"));
    assert!(!local_kind_supported("audio"));
    assert!(!local_kind_supported(""));
}

#[test]
fn the_output_name_defaults() {
    assert_eq!(local_output_name(None), "convertix-output");
    assert_eq!(local_output_name(Some("chosen".to_string())), "chosen");
}

#[test]
fn error_messages_render_every_variant() {
    assert_eq!(PdfEngineError::InvalidInput("x".to_string()).message(), "invalid input: x");
    assert_eq!(PdfEngineError::Io("x".to_string()).message(), "io error: x");
    assert_eq!(PdfEngineError::Serialization("x".to_string()).message(), "serialization error: x");
    assert_eq!(PdfEngineError::ToolUnavailable("x".to_string()).message(), "tool unavailable: x");
    assert_eq!(PdfEngineError::ToolFailed("x".to_string()).message(), "tool failed: x");
    assert_eq!(PdfEngineError::JobNotFound.message(), "job not found");
    assert_eq!(PdfEngineError::JobCanceled.message(), "job canceled");
    assert_eq!(PdfEngineError::Unsupported("x".to_string()).message(), "unsupported operation: x");
    assert_eq!(PdfEngineError::Security("x".to_string()).message(), "security violation: x");
    assert_eq!(PdfEngineError::Timeout.message(), "timeout");
    assert_eq!(JobError::NotFound.message(), "job not found");
    assert_eq!(JobError::Io("x".to_string()).message(), "io error: x");
}

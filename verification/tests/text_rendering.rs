use convertix::audit::{state_label, AuditEvent};
use convertix::model::JobState;
use convertix::text::{escape_json, i32_to_string, join_pages, u32_to_string, u64_to_string};

#[test]
fn decimals_render_exactly() {
    assert_eq!(u64_to_string(0), "0");
    assert_eq!(u64_to_string(7), "7");
    assert_eq!(u64_to_string(120), "120");
    assert_eq!(u64_to_string(18_446_744_073_709_551_615), "18446744073709551615");
    assert_eq!(u32_to_string(4_294_967_295), "4294967295");
    assert_eq!(i32_to_string(0), "0");
    assert_eq!(i32_to_string(90), "90");
    assert_eq!(i32_to_string(-90), "-90");
    assert_eq!(i32_to_string(i32::MIN), "-2147483648");
    assert_eq!(i32_to_string(i32::MAX), "2147483647");
}

#[test]
fn page_lists_join_with_commas() {
    assert_eq!(join_pages(&vec![]), "");
    assert_eq!(join_pages(&vec![1]), "1");
    assert_eq!(join_pages(&vec![1, 2, 30]), "1,2,30");
}

#[test]
fn json_escaping_survives_a_parser() {
    let nasty = "say \"hi\"\\ and\nnewline\ttab\u{1}end";
    let escaped = escape_json(nasty);
    let quoted = format!("\"{escaped}\"");
    let back: serde_json::Value = serde_json::from_str(&quoted).unwrap();
    assert_eq!(back.as_str().unwrap(), nasty);
}

#[test]
fn plain_text_is_not_escaped() {
    assert_eq!(escape_json("plain text"), "plain text");
    assert_eq!(escape_json(""), "");
}

#[test]
fn state_labels_match_the_states() {
    assert_eq!(state_label(JobState::Queued), "Queued");
    assert_eq!(state_label(JobState::Running), "Running");
    assert_eq!(state_label(JobState::Completed), "Completed");
    assert_eq!(state_label(JobState::Failed), "Failed");
    assert_eq!(state_label(JobState::Canceled), "Canceled");
}

#[test]
fn audit_events_render_as_json_lines() {
    let line = AuditEvent {
        job_id: "id-\"1\"",
        state: JobState::Canceled,
        stage: "canceled",
        timestamp_ms: 98_765,
        message: Some("job canceled"),
    }
    .render();
    let v: serde_json::Value = serde_json::from_str(&line).unwrap();
    assert_eq!(v.get("job_id").unwrap().as_str().unwrap(), "id-\"1\"");
    assert_eq!(v.get("state").unwrap().as_str().unwrap(), "Canceled");
    assert_eq!(v.get("stage").unwrap().as_str().unwrap(), "canceled");
    assert_eq!(v.get("timestamp_ms").unwrap().as_u64().unwrap(), 98_765);
    assert_eq!(v.get("message").unwrap().as_str().unwrap(), "job canceled");
}

#[test]
fn audit_events_render_a_null_message() {
    let line = AuditEvent {
        job_id: "plain",
        state: JobState::Queued,
        stage: "queued",
        timestamp_ms: 1,
        message: None,
    }
    .render();
    let v: serde_json::Value = serde_json::from_str(&line).unwrap();
    assert!(v.get("message").unwrap().is_null());
}

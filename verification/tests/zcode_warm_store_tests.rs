use codex_zcode::zcode_warm_store::protocol_drift_message;
use codex_zcode::zcode_warm_store::record_dir_name;
use codex_zcode::zcode_warm_store::record_file_name;
use codex_zcode::zcode_warm_store::staging_file_name;
use codex_zcode::zcode_warm_store::StoreStep;
use codex_zcode::zcode_warm_store::ZcodeWarmRecord;

fn sample_record() -> ZcodeWarmRecord {
    ZcodeWarmRecord {
        zcode_session_id: "sess_abc123".to_string(),
        workspace_path: "/repo".to_string(),
        last_event_seq: 42,
        protocol_version: Some(1),
    }
}

#[test]
fn protocol_version_change_produces_a_drift_warning() {
    let old = sample_record();
    let mut new = sample_record();
    assert_eq!(
        protocol_drift_message(&old, &new),
        None,
        "an unchanged version is not drift"
    );
    new.protocol_version = None;
    assert_eq!(
        protocol_drift_message(&old, &new),
        None,
        "an unknown new version carries no verdict"
    );
    new.protocol_version = Some(2);
    let message = protocol_drift_message(&old, &new).expect("drift must warn");
    assert!(
        message.contains("v1") && message.contains("v2") && message.contains("sess_abc123"),
        "the warning must name both versions and the session: {message}"
    );
    assert_eq!(
        message,
        "ZCode Protocol version drift: zcode.cjs moved from v1 to v2 for session \
         sess_abc123; re-verify the warm bridge"
    );
}

#[test]
fn files_are_named_after_their_thread() {
    assert_eq!(record_dir_name(), "zcode-warm");
    assert_eq!(record_file_name("thread-1"), "thread-1.json");
    assert_eq!(staging_file_name("thread-1"), "thread-1.json.tmp");
    assert_eq!(
        std::path::Path::new(&record_file_name("thread-1")).with_extension("json.tmp"),
        std::path::Path::new(&staging_file_name("thread-1"))
    );
    assert_ne!(staging_file_name("a"), record_file_name("a.json.tmp"));
}

#[test]
fn records_are_staged_before_they_are_renamed() {
    let mut step = Some(StoreStep::CreateDirectory);
    let mut seen = Vec::new();
    while let Some(current) = step {
        seen.push(current);
        step = current.next(true);
    }
    assert_eq!(
        seen,
        vec![
            StoreStep::CreateDirectory,
            StoreStep::WriteStaging,
            StoreStep::RenameStaging
        ]
    );
    for step in seen {
        assert_eq!(step.next(false), None, "a failure ends the attempt");
    }
}

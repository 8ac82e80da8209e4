use prose_pod_server::auth::CallerInfo;
use prose_pod_server::backups::{
    backup_ids, backup_object_keys, deletion_outcome, restore_end_event, upload_failure, backup_id_of, backup_metadata, check_backup_restorable, checksum_key, is_backup_object_key,
    object_size, progress_event_data, response_mode, restore_request_mode, ProgressEvent,
    ProgressThrottle, ResponseMode, WithAdditionalData, next_restore_action, restore_failed_error,
    RestoreAction, RestoreEvent,
};
use prose_pod_server::jid::BareJid;
use prose_pod_server::json::{JsonNumber, JsonValue};

fn caller(role: &str) -> CallerInfo {
    CallerInfo {
        jid: BareJid::from_str("alice@example.org").unwrap(),
        primary_role: role.to_owned(),
    }
}

/// The store lists every object; the backups are those that are neither
/// signatures nor checksums, and each is listed with its metadata.
#[test]
fn test_listing_backups_returns_metadata() {
    let listing: Vec<(Option<String>, Option<i64>)> = vec![
        (Some("prose_backup-2025-12-16.tar.zst".to_owned()), Some(2048)),
        (Some("prose_backup-2025-12-16.tar.zst.sha256".to_owned()), Some(64)),
        (Some("prose_backup-2025-12-16.tar.zst.sig".to_owned()), Some(128)),
        (None, Some(1)),
        (Some("prose_backup-2025-12-17.tar.zst".to_owned()), None),
    ];
    let checksums = |id: &str| match id {
        "prose_backup-2025-12-16.tar.zst" => Some("abc123".to_owned()),
        _ => None,
    };

    let mut backups = Vec::new();
    for (key, size) in listing {
        if let Some(backup_id) = backup_id_of(&key) {
            let checksum = checksums(&backup_id);
            backups.push(backup_metadata(backup_id, Some(1_765_900_175_000_000_000), size, checksum));
        }
    }

    assert_eq!(backups.len(), 2);
    assert_eq!(backups[0].backup_id, "prose_backup-2025-12-16.tar.zst");
    assert_eq!(backups[0].size_bytes, Some(2048));
    assert_eq!(backups[0].checksum.as_deref(), Some("abc123"));
    assert_eq!(backups[0].created_at, Some(1_765_900_175_000_000_000));
    assert_eq!(backups[1].backup_id, "prose_backup-2025-12-17.tar.zst");
    assert_eq!(backups[1].size_bytes, None);
    assert_eq!(backups[1].checksum, None);
}

/// Need checksum when enabling signing.
#[test]
fn test_metadata_returns_checksum() {}

/// When a precondition of a backup operation fails, the request is refused
/// before anything is produced.
#[test]
fn test_no_output_at_all_if_precondition_failed() {
    let not_admin = caller("prosody:member");
    let refused = restore_request_mode(&not_admin, true, Some("text/event-stream"));
    let err = refused.unwrap_err();
    assert_eq!(err.status, 403);
    assert_eq!(err.description, "alice@example.org is not an admin.");

    let admin = caller("prosody:admin");
    let err = restore_request_mode(&admin, false, Some("text/event-stream")).unwrap_err();
    assert_eq!(err.status, 400);
    assert_eq!(err.code, "BAD_REQUEST");
    assert_eq!(err.description, "Missing Prose token.");

    assert!(not_admin.ensure_is_admin().is_err());
    assert!(admin.ensure_is_admin().is_ok());
}

/// A backup without the Prose Pod API's data cannot be restored.
#[test]
fn test_restoring_backup_requires_backup_not_corrupted() {
    let err = check_backup_restorable(false).unwrap_err();
    assert_eq!(err.status, 400);
    assert_eq!(err.code, "INVALID_BACKUP");
    assert_eq!(err.message, "Invalid backup");
    assert_eq!(err.description, "This backup is missing data. It can’t be restored.");
    assert!(check_backup_restorable(true).is_ok());
}

#[test]
fn backup_enc_none_sig_gpg() {}

#[test]
fn backup_enc_gpg_hash() {}

#[test]
fn backup_enc_gpg_sig_gpg() {}

#[test]
fn backup_enc_none_sig_gpg_withpass() {}

#[test]
fn backup_enc_gpg_withpass_sig_hash() {}

#[test]
fn signatures_and_checksums_are_not_backups() {
    assert!(is_backup_object_key("b.tar.zst"));
    assert!(!is_backup_object_key("b.tar.zst.sig"));
    assert!(!is_backup_object_key("b.tar.zst.sha256"));
    assert!(is_backup_object_key("b.sha"));
    assert_eq!(checksum_key("b.tar.zst"), "b.tar.zst.sha256");
    assert_eq!(backup_id_of(&None), None);
}

#[test]
fn object_sizes_are_reinterpreted_as_unsigned() {
    assert_eq!(object_size(Some(42)), Some(42));
    assert_eq!(object_size(None), None);
    assert_eq!(object_size(Some(-1)), Some(u64::MAX));
}

#[test]
fn restore_request_chooses_the_answer_mode() {
    let admin = caller("prosody:operator");
    assert_eq!(restore_request_mode(&admin, true, Some("text/event-stream")).unwrap(), ResponseMode::EventStream);
    assert_eq!(restore_request_mode(&admin, true, Some("application/json")).unwrap(), ResponseMode::Json);
    assert_eq!(restore_request_mode(&admin, true, None).unwrap(), ResponseMode::Json);
    assert_eq!(response_mode(Some("text/event-stream")), ResponseMode::EventStream);
}

#[test]
fn creation_progress_is_throttled_and_ends_at_100_percent() {
    let mut t = ProgressThrottle::new();
    assert_eq!(t.on_archive_start(100), ProgressEvent { progress: 0, total: 100 });
    assert_eq!(t.on_archive_progress(30, false), None);
    assert_eq!(t.on_archive_progress(30, true), Some(ProgressEvent { progress: 60, total: 100 }));
    assert_eq!(t.on_archive_progress(40, false), None);
    assert_eq!(t.progress, 100);
    assert_eq!(t.on_backup_uploaded(), Some(ProgressEvent { progress: 100, total: 100 }));
    assert_eq!(t.on_backup_uploaded(), None);
}

#[test]
fn last_progress_event_is_not_repeated() {
    let mut t = ProgressThrottle::new();
    t.on_archive_start(10);
    assert_eq!(t.on_archive_progress(10, true), Some(ProgressEvent { progress: 10, total: 10 }));
    assert_eq!(t.on_backup_uploaded(), None);
}

#[test]
fn restoration_progress_ignores_empty_reports() {
    let mut t = ProgressThrottle::new();
    assert_eq!(t.on_restoration_start(50), ProgressEvent { progress: 0, total: 50 });
    assert_eq!(t.on_restoration_progress(0, true), None);
    assert_eq!(t.last_sent, 0);
    assert_eq!(t.on_restoration_progress(20, true), Some(ProgressEvent { progress: 20, total: 50 }));
    assert_eq!(t.on_restoration_finished(), Some(ProgressEvent { progress: 50, total: 50 }));
}

#[test]
fn progress_saturates() {
    let mut t = ProgressThrottle::new();
    t.on_archive_start(u64::MAX);
    t.on_archive_progress(usize::MAX, false);
    t.on_archive_progress(usize::MAX, false);
    assert_eq!(t.progress, u64::MAX);
}

#[test]
fn restoration_counts_a_tenth_more_for_the_api_data() {
    let mut w = WithAdditionalData { additional_data_size: 0 };
    assert_eq!(w.on_restoration_start(1000), 1100);
    assert_eq!(w.additional_data_size, 100);
    assert_eq!(w.on_restoration_start(9), 9);
    assert_eq!(w.additional_data_size, 0);
    assert_eq!(w.on_restoration_start(u64::MAX), u64::MAX);
}

#[test]
fn progress_event_data_is_progress_and_total() {
    let data = progress_event_data(ProgressEvent { progress: 3, total: 7 });
    assert_eq!(
        data,
        JsonValue::Object(vec![
            ("progress".to_owned(), JsonValue::Number(JsonNumber::PosInt(3))),
            ("total".to_owned(), JsonValue::Number(JsonNumber::PosInt(7))),
        ])
    );
}

#[test]
fn deleting_a_backup_deletes_its_objects() {
    let listing = vec![
        Some("b.tar.zst".to_owned()),
        None,
        Some("b.tar.zst.sha256".to_owned()),
        Some("b.tar.zst.sig".to_owned()),
    ];
    assert_eq!(backup_object_keys(&listing), vec!["b.tar.zst", "b.tar.zst.sha256", "b.tar.zst.sig"]);
    assert_eq!(backup_object_keys(&vec![]), Vec::<String>::new());
    assert_eq!(deletion_outcome("b.tar.zst", None), Ok(()));
    assert_eq!(
        deletion_outcome("b.tar.zst", Some("[AccessDenied]")),
        Err("Error deleting backup 'b.tar.zst': [AccessDenied]".to_owned())
    );
}

#[test]
fn upload_conflicts() {
    assert_eq!(upload_failure(Some(412)), "Backup name conflict");
    assert_eq!(upload_failure(Some(500)), "Failed to upload backup");
    assert_eq!(upload_failure(None), "Failed to upload backup");
}

#[test]
fn restoration_end_events() {
    let (name, data) = restore_end_event(&Ok(()));
    assert_eq!(name, "backup-restore-success");
    assert_eq!(data, JsonValue::Null);
    let err = check_backup_restorable(false).unwrap_err();
    let expected = err.to_json();
    let (name, data) = restore_end_event(&Err(err));
    assert_eq!(name, "backup-restore-error");
    assert_eq!(data, expected);
}

#[test]
fn listing_keeps_only_backups_in_order() {
    let listing = vec![
        Some("a.tar.zst".to_owned()),
        Some("a.tar.zst.sha256".to_owned()),
        None,
        Some("a.tar.zst.sig".to_owned()),
        Some("b.tar.zst".to_owned()),
    ];
    assert_eq!(backup_ids(&listing), vec!["a.tar.zst", "b.tar.zst"]);
    assert_eq!(backup_ids(&vec![]), Vec::<String>::new());
}

#[test]
fn restoration_steps_come_in_order() {
    assert!(matches!(
        next_restore_action(RestoreEvent::FilesRestored(true), 7, "e1"),
        RestoreAction::FindApiData
    ));
    assert!(matches!(
        next_restore_action(RestoreEvent::ApiDataFound(true), 7, "e1"),
        RestoreAction::PackApiData
    ));
    assert!(matches!(
        next_restore_action(RestoreEvent::ApiDataPacked(true), 7, "e1"),
        RestoreAction::RestoreApiData
    ));
    assert!(matches!(
        next_restore_action(RestoreEvent::ApiDataRestored(true), 7, "e1"),
        RestoreAction::RemoveApiData
    ));
    assert!(matches!(
        next_restore_action(RestoreEvent::ApiDataRemoved(true), 7, "e1"),
        RestoreAction::Finish { progress: 7 }
    ));
    for event in [RestoreEvent::ApiDataPacked(false), RestoreEvent::ApiDataRemoved(false)] {
        assert!(matches!(next_restore_action(event, 7, "e1"), RestoreAction::FailWithoutContext));
    }
    match next_restore_action(RestoreEvent::ApiDataFound(false), 7, "e1") {
        RestoreAction::Fail(e) => {
            assert_eq!(e.code, "INVALID_BACKUP");
            assert_eq!(e.status, 400);
        }
        other => panic!("unexpected {other:?}"),
    }
    for event in [RestoreEvent::FilesRestored(false), RestoreEvent::ApiDataRestored(false)] {
        match next_restore_action(event, 7, "e2") {
            RestoreAction::Fail(e) => {
                assert_eq!(e.code, "BACKUP_RESTORE_FAILED");
                assert_eq!(e.status, 500);
                assert_eq!(e.message, "Internal server error");
            }
            other => panic!("unexpected {other:?}"),
        }
    }
    let e = restore_failed_error("e3");
    assert_eq!(
        e.description,
        "Something went wrong while restoring the backup. (logged as error_id=e3)"
    );
}

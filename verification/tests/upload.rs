use ptero_gdrive::errors::AppError;
use ptero_gdrive::upload::{begin_upload, LocationHeader, UploadEngine, UploadPhase};

fn engine() -> UploadEngine {
    UploadEngine::new("folder1".to_string(), None, "2024-01-02_03-04-05")
}

#[test]
fn default_filename_carries_the_timestamp() {
    let e = engine();
    assert_eq!(e.filename, "backup_2024-01-02_03-04-05.tar.gz");
    assert_eq!(e.phase, UploadPhase::Idle);
    assert!(e.session_uri.is_none());
    assert!(e.failure_body.is_none());
}

#[test]
fn hint_overrides_the_default_name() {
    let e = UploadEngine::new("folder1".to_string(), Some("snapshot.tar.gz".to_string()), "x");
    assert_eq!(e.filename, "snapshot.tar.gz");
}

#[test]
fn clock_named_file_has_the_backup_shape() {
    let e = begin_upload("folder1".to_string(), None);
    assert!(e.filename.starts_with("backup_"));
    assert!(e.filename.ends_with(".tar.gz"));
    assert_eq!(e.phase, UploadPhase::Idle);
}

#[test]
fn initiate_request_names_file_and_folder() {
    let mut e = engine();
    let r = e.initiate_request();
    assert_eq!(
        r.url,
        "https://www.googleapis.com/upload/drive/v3/files?uploadType=resumable&supportsAllDrives=true"
    );
    assert_eq!(r.name, "backup_2024-01-02_03-04-05.tar.gz");
    assert_eq!(r.parents, vec!["folder1".to_string()]);
    assert_eq!(e.phase, UploadPhase::SessionRequested);
}

#[test]
fn full_session_completes_and_yields_the_filename() {
    let mut e = engine();
    let _ = e.initiate_request();
    e.on_initiate_response(200, LocationHeader::Value("https://upload.example/session9".to_string()))
        .expect("the session should open");
    assert_eq!(e.phase, UploadPhase::SessionOpen);
    let uri = e.begin_put();
    assert_eq!(uri, "https://upload.example/session9");
    assert_eq!(e.phase, UploadPhase::Streaming);
    let stored = e.on_put_response(200, String::new()).expect("the PUT should complete");
    assert_eq!(stored, "backup_2024-01-02_03-04-05.tar.gz");
    assert_eq!(e.phase, UploadPhase::Completed);
}

#[test]
fn missing_location_header_fails_before_any_put() {
    let mut e = engine();
    let _ = e.initiate_request();
    let r = e.on_initiate_response(200, LocationHeader::Missing);
    match r {
        Err(AppError::Response(m)) => {
            assert_eq!(m, "Missing Location header in initiate upload response")
        }
        other => panic!("expected a protocol error, got {:?}", other),
    }
    // The engine is terminally failed: no open session, so no PUT can follow.
    assert_eq!(e.phase, UploadPhase::Failed);
    assert_ne!(e.phase, UploadPhase::SessionOpen);
    assert_ne!(e.phase, UploadPhase::Streaming);
    assert!(e.session_uri.is_none());
}

#[test]
fn unreadable_location_header_fails_the_session() {
    let mut e = engine();
    let _ = e.initiate_request();
    let r = e.on_initiate_response(201, LocationHeader::Invalid("invalid utf-8".to_string()));
    match r {
        Err(AppError::Response(m)) => assert_eq!(m, "Invalid Location header: invalid utf-8"),
        other => panic!("expected a protocol error, got {:?}", other),
    }
    assert_eq!(e.phase, UploadPhase::Failed);
}

#[test]
fn initiate_rejection_reports_the_status() {
    let mut e = engine();
    let _ = e.initiate_request();
    let r = e.on_initiate_response(500, LocationHeader::Missing);
    match r {
        Err(AppError::Response(m)) => assert_eq!(m, "Failed to initiate upload: HTTP 500"),
        other => panic!("expected a protocol error, got {:?}", other),
    }
    assert_eq!(e.phase, UploadPhase::Failed);
}

#[test]
fn rejected_put_keeps_the_response_body() {
    let mut e = engine();
    let _ = e.initiate_request();
    e.on_initiate_response(200, LocationHeader::Value("sess".to_string())).unwrap();
    let _ = e.begin_put();
    let r = e.on_put_response(403, "quota exceeded".to_string());
    match r {
        Err(AppError::Response(m)) => assert_eq!(m, "Failed to upload file: HTTP 403"),
        other => panic!("expected a protocol error, got {:?}", other),
    }
    assert_eq!(e.phase, UploadPhase::Failed);
    assert_eq!(e.failure_body.as_deref(), Some("quota exceeded"));
}

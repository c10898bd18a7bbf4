use ptero_gdrive::backup::{
    archive_parse_outcome, archive_status_outcome, cleanup_outcome, compress_request,
    download_request, download_url_outcome, ArchiveAttributes, ArchiveResult, DownloadUrl,
    DownloadUrlAttributes,
};
use ptero_gdrive::config::Config;
use ptero_gdrive::errors::{AppError, ParseFailure};
use ptero_gdrive::{bearer_header_value, is_success};

fn attributes(name: &str) -> ArchiveAttributes {
    ArchiveAttributes {
        name: name.to_string(),
        mode: "-rw-r--r--".to_string(),
        mode_bits: "644".to_string(),
        size: 1024,
        is_file: true,
        is_symlink: false,
        mimetype: "application/tar+gzip".to_string(),
        created_at: "2024-01-02T03:04:05Z".to_string(),
        modified_at: "2024-01-02T03:04:05Z".to_string(),
    }
}

#[test]
fn compress_request_is_exact() {
    let config = Config::default();
    let r = compress_request(&config);
    assert_eq!(r.url, "https://panel.example.com/api/client/servers/2f615648/files/compress");
    assert_eq!(r.files, vec!["world", "config", "server.properties"]);
    assert_eq!(r.root, "/");
}

#[test]
fn download_request_carries_the_name_unchanged() {
    let config = Config::default();
    let r = download_request(&config, "archive-7f.tar.gz");
    assert_eq!(r.url, "https://panel.example.com/api/client/servers/2f615648/files/download");
    assert_eq!(r.file, "archive-7f.tar.gz");
}

#[test]
fn archive_status_success_range() {
    assert!(archive_status_outcome(200).is_ok());
    assert!(archive_status_outcome(204).is_ok());
    match archive_status_outcome(500) {
        Err(AppError::Response(m)) => assert_eq!(m, "HTTP 500"),
        other => panic!("expected a remote error, got {:?}", other),
    }
    match archive_status_outcome(301) {
        Err(AppError::Response(m)) => assert_eq!(m, "HTTP 301"),
        other => panic!("expected a remote error, got {:?}", other),
    }
}

#[test]
fn archive_parse_success_yields_the_job_name() {
    let parsed = ArchiveResult { object: "file_object".to_string(), attributes: attributes("archive-7f.tar.gz") };
    let r = archive_parse_outcome(Ok(parsed), String::new());
    assert_eq!(r.unwrap(), "archive-7f.tar.gz");
}

#[test]
fn archive_parse_failure_keeps_body_and_location() {
    let r = archive_parse_outcome(
        Err(ParseFailure { detail: "missing field `name`".to_string(), line: 2 }),
        "{\n  \"attributes\": {}\n}".to_string(),
    );
    match r {
        Err(AppError::Parse { detail, line, body }) => {
            assert_eq!(detail, "missing field `name`");
            assert_eq!(line, 2);
            assert_eq!(body, "{\n  \"attributes\": {}\n}");
        }
        other => panic!("expected a parse error, got {:?}", other),
    }
}

#[test]
fn download_url_outcomes() {
    let parsed = DownloadUrl {
        attributes: DownloadUrlAttributes { url: "https://node.example/download?token=t".to_string() },
    };
    let r = download_url_outcome(Ok(parsed), String::new());
    assert_eq!(r.unwrap(), "https://node.example/download?token=t");

    let r = download_url_outcome(
        Err(ParseFailure { detail: "expected value".to_string(), line: 1 }),
        "oops".to_string(),
    );
    match r {
        Err(AppError::Parse { detail, line, body }) => {
            assert_eq!(detail, "expected value");
            assert_eq!(line, 1);
            assert_eq!(body, "oops");
        }
        other => panic!("expected a parse error, got {:?}", other),
    }
}

#[test]
fn cleanup_outcomes() {
    assert!(cleanup_outcome(204).is_ok());
    match cleanup_outcome(404) {
        Err(AppError::Response(m)) => assert_eq!(m, "Failed to delete archive: HTTP 404"),
        other => panic!("expected a remote error, got {:?}", other),
    }
}

#[test]
fn success_range_boundaries() {
    assert!(!is_success(199));
    assert!(is_success(200));
    assert!(is_success(299));
    assert!(!is_success(300));
}

#[test]
fn bearer_header() {
    assert_eq!(bearer_header_value("ptlc_token"), "Bearer ptlc_token");
}

#[test]
fn default_config_is_the_documented_example() {
    let c = Config::default();
    assert_eq!(c.files, vec!["world", "config", "server.properties"]);
    assert_eq!(c.ptero_url, "https://panel.example.com");
    assert_eq!(c.ptero_api_token, "ptlc_abcefghijklmnopqrstuvwxyz");
    assert_eq!(c.server_id, "2f615648");
    assert_eq!(c.drive_folder_id, "0BwwA4oUTeiV1TGRPeTVjaWRDY1E");
    assert_eq!(c.max_backups, 5);
    assert!(c.is_valid());
}

#[test]
fn zero_retention_cap_is_rejected() {
    let mut c = Config::default();
    c.max_backups = 0;
    assert!(!c.is_valid());
    c.max_backups = 1;
    assert!(c.is_valid());
}

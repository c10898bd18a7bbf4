use ptero_gdrive::errors::{AppError, ParseFailure};
use ptero_gdrive::quotas::{
    delete_file_outcome, delete_file_request, list_files_outcome, list_files_request, DriveFile,
    DriveFileList, RetentionPlan,
};

fn record(id: &str, name: &str, created: &str) -> DriveFile {
    DriveFile { id: id.to_string(), name: name.to_string(), created_time: created.to_string() }
}

fn listing(n: usize) -> Vec<DriveFile> {
    let mut files = Vec::new();
    for i in 0..n {
        files.push(record(
            &format!("id{}", i),
            &format!("backup_{}.tar.gz", i),
            &format!("2024-01-0{}T00:00:00Z", i + 1),
        ));
    }
    files
}

#[test]
fn seven_backups_cap_five_deletes_three_oldest() {
    let mut plan = RetentionPlan::new(listing(7), 5);
    assert_eq!(plan.to_delete.len(), 3);
    assert_eq!(plan.kept.len(), 4);
    for expected in ["id0", "id1", "id2"] {
        let target = plan.next_target().expect("a deletion is owed");
        assert_eq!(target.id, expected);
        plan.record_deleted();
    }
    assert!(plan.next_target().is_none());
    assert!(plan.is_done());
    assert_eq!(plan.remaining(), 0);
    assert_eq!(plan.kept[0].id, "id3");
    assert_eq!(plan.kept[3].id, "id6");
    // 4 survivors of the listing plus the backup this run uploaded = 5.
    assert_eq!(plan.kept.len() + 1, 5);
}

#[test]
fn under_cap_plans_no_deletions() {
    let mut plan = RetentionPlan::new(listing(3), 5);
    assert_eq!(plan.to_delete.len(), 0);
    assert_eq!(plan.kept.len(), 3);
    assert!(plan.next_target().is_none());
    assert!(plan.is_done());
    assert_eq!(plan.remaining(), 0);
}

#[test]
fn exactly_at_cap_deletes_one() {
    let mut plan = RetentionPlan::new(listing(5), 5);
    assert_eq!(plan.to_delete.len(), 1);
    assert_eq!(plan.next_target().unwrap().id, "id0");
    plan.record_deleted();
    assert!(plan.is_done());
}

#[test]
fn cap_one_keeps_nothing_listed() {
    let mut plan = RetentionPlan::new(listing(2), 1);
    assert_eq!(plan.to_delete.len(), 2);
    assert_eq!(plan.kept.len(), 0);
    assert_eq!(plan.next_target().unwrap().id, "id0");
    plan.record_deleted();
    assert_eq!(plan.next_target().unwrap().id, "id1");
    plan.record_deleted();
    assert!(plan.is_done());
}

#[test]
fn empty_listing_plans_nothing() {
    let plan = RetentionPlan::new(Vec::new(), 1);
    assert_eq!(plan.to_delete.len(), 0);
    assert_eq!(plan.kept.len(), 0);
    assert!(plan.is_done());
}

#[test]
fn listing_request_is_exact() {
    let r = list_files_request("0BwwA4oUTeiV1TGRPeTVjaWRDY1E");
    assert_eq!(r.url, "https://www.googleapis.com/drive/v3/files");
    assert_eq!(r.query, "'0BwwA4oUTeiV1TGRPeTVjaWRDY1E' in parents and trashed = false");
    assert_eq!(r.order_by, "createdTime asc");
    assert_eq!(r.fields, "files(id, name, createdTime)");
    assert_eq!(r.page_size, "1000");
}

#[test]
fn delete_request_embeds_the_id() {
    let url = delete_file_request("abc123");
    assert_eq!(url, "https://www.googleapis.com/drive/v3/files/abc123");
}

#[test]
fn listing_failure_surfaces_the_transport_error() {
    let r = list_files_outcome(
        404,
        "HTTP status client error (404 Not Found)".to_string(),
        String::new(),
        Err(ParseFailure { detail: String::new(), line: 1 }),
    );
    match r {
        Err(AppError::Request(m)) => assert_eq!(m, "HTTP status client error (404 Not Found)"),
        other => panic!("expected a transport error, got {:?}", other),
    }
}

#[test]
fn listing_success_hands_back_the_records() {
    let list = DriveFileList { files: listing(2) };
    let r = list_files_outcome(200, String::new(), String::new(), Ok(list));
    let files = r.expect("listing should succeed");
    assert_eq!(files.len(), 2);
    assert_eq!(files[0].id, "id0");
    assert_eq!(files[1].name, "backup_1.tar.gz");
}

#[test]
fn listing_parse_failure_keeps_the_body() {
    let r = list_files_outcome(
        200,
        String::new(),
        "not json".to_string(),
        Err(ParseFailure { detail: "expected value".to_string(), line: 1 }),
    );
    match r {
        Err(AppError::Parse { detail, line, body }) => {
            assert_eq!(detail, "expected value");
            assert_eq!(line, 1);
            assert_eq!(body, "not json");
        }
        other => panic!("expected a parse error, got {:?}", other),
    }
}

#[test]
fn deletion_outcomes() {
    assert!(delete_file_outcome(204, String::new()).is_ok());
    match delete_file_outcome(403, "forbidden".to_string()) {
        Err(AppError::Request(m)) => assert_eq!(m, "forbidden"),
        other => panic!("expected a transport error, got {:?}", other),
    }
}

//! The retention enforcer: given the listing of stored backups (ascending by
//! creation time) and the configured cap, decide which records to delete.
//! The deletions themselves are HTTP calls performed by the caller, one at a
//! time, oldest first, stopping at the first failure.

use vstd::prelude::*;

use crate::errors::{AppError, ParseFailure};
use crate::spec_is_success;

verus! {

/// One stored backup, as the storage backend lists it.
#[derive(Debug)]
pub struct DriveFile {
    pub id: String,
    pub name: String,
    pub created_time: String,
}

/// The listing returned by the storage backend.
#[derive(Debug)]
pub struct DriveFileList {
    pub files: Vec<DriveFile>,
}

/// How many records enforcement removes from a listing of `n` under cap
/// `max`: none while strictly under the cap, otherwise enough that the
/// backup this run just uploaded also fits under it.
pub open spec fn spec_surplus(n: nat, max: nat) -> nat {
    if n < max {
        0
    } else {
        (n - max + 1) as nat
    }
}

/// The GET request that lists the backups in a folder: single page,
/// not-trashed records only, ascending by creation time.
pub struct ListFilesRequest {
    pub url: String,
    pub query: String,
    pub order_by: String,
    pub fields: String,
    pub page_size: String,
}

/// Builds the listing request for `drive_folder_id`.
pub fn list_files_request(drive_folder_id: &str) -> (r: ListFilesRequest)
    ensures
        r.url@ == "https://www.googleapis.com/drive/v3/files"@,
        r.query@ == "'"@ + drive_folder_id@ + "' in parents and trashed = false"@,
        r.order_by@ == "createdTime asc"@,
        r.fields@ == "files(id, name, createdTime)"@,
        r.page_size@ == "1000"@,
{
    let mut query = String::new();
    query.append("'");
    query.append(drive_folder_id);
    query.append("' in parents and trashed = false");
    ListFilesRequest {
        url: "https://www.googleapis.com/drive/v3/files".to_owned(),
        query,
        order_by: "createdTime asc".to_owned(),
        fields: "files(id, name, createdTime)".to_owned(),
        page_size: "1000".to_owned(),
    }
}

/// Interprets the listing response. `status_error` is the transport's own
/// description of a non-success status; `parsed` is the body's parse
/// outcome, attempted only on success.
pub fn list_files_outcome(
    status: u16,
    status_error: String,
    body: String,
    parsed: Result<DriveFileList, ParseFailure>,
) -> (r: Result<Vec<DriveFile>, AppError>)
    ensures
        !spec_is_success(status) ==> (r matches Err(e) && e matches AppError::Request(m) && m
            == status_error),
        spec_is_success(status) ==> (parsed matches Ok(l) ==> (r matches Ok(v) && v == l.files)),
        spec_is_success(status) ==> (parsed matches Err(pf) ==> (r matches Err(e)
            && e matches AppError::Parse { detail, line, body: b } && detail == pf.detail && line
            == pf.line && b == body)),
{
    if !crate::is_success(status) {
        return Err(AppError::Request(status_error));
    }
    match parsed {
        Ok(list) => Ok(list.files),
        Err(pf) => Err(AppError::Parse { detail: pf.detail, line: pf.line, body }),
    }
}

/// The URL whose DELETE removes the stored backup with identifier `file_id`.
pub fn delete_file_request(file_id: &str) -> (r: String)
    ensures
        r@ == "https://www.googleapis.com/drive/v3/files/"@ + file_id@,
{
    let mut url = String::new();
    url.append("https://www.googleapis.com/drive/v3/files/");
    url.append(file_id);
    url
}

/// Interprets one deletion response: success completes the step, anything
/// else surfaces the transport's status error.
pub fn delete_file_outcome(status: u16, status_error: String) -> (r: Result<(), AppError>)
    ensures
        spec_is_success(status) ==> r is Ok,
        !spec_is_success(status) ==> (r matches Err(e) && e matches AppError::Request(m) && m
            == status_error),
{
    if crate::is_success(status) {
        Ok(())
    } else {
        Err(AppError::Request(status_error))
    }
}

/// The enforcement decision for one run: which records to delete (the
/// oldest, in listing order) and which remain, with a cursor over the
/// deletions already carried out.
pub struct RetentionPlan {
    /// The surplus records, oldest first: the listing's prefix.
    pub to_delete: Vec<DriveFile>,
    /// The records that remain after full enforcement: the listing's suffix.
    pub kept: Vec<DriveFile>,
    /// How many of `to_delete` have been deleted so far.
    pub deleted: usize,
}

impl RetentionPlan {
    /// The cursor never passes the end of the plan.
    pub open spec fn wf(&self) -> bool {
        self.deleted <= self.to_delete@.len()
    }

    /// Splits the listing (ascending by creation time) into the surplus to
    /// delete and the records to keep. A listing under the cap yields an
    /// empty plan; otherwise the plan holds the `n - max + 1` oldest
    /// records, in listing order.
    pub fn new(files: Vec<DriveFile>, max_backups: usize) -> (plan: Self)
        requires
            max_backups >= 1,
        ensures
            plan.wf(),
            plan.deleted == 0,
            plan.to_delete@.len() == spec_surplus(files@.len(), max_backups as nat),
            plan.to_delete@ == files@.subrange(
                0,
                spec_surplus(files@.len(), max_backups as nat) as int,
            ),
            plan.kept@ == files@.subrange(
                spec_surplus(files@.len(), max_backups as nat) as int,
                files@.len() as int,
            ),
            files@ == plan.to_delete@ + plan.kept@,
    {
        let n = files.len();
        let surplus: usize = if n < max_backups {
            0
        } else {
            n - max_backups + 1
        };
        let ghost listing = files@;
        let mut to_delete = files;
        let kept = to_delete.split_off(surplus);
        proof {
            assert(listing =~= to_delete@ + kept@);
        }
        RetentionPlan { to_delete, kept, deleted: 0 }
    }

    /// The next record to delete, oldest first; `None` once the plan is
    /// exhausted.
    pub fn next_target(&self) -> (r: Option<&DriveFile>)
        ensures
            self.deleted < self.to_delete@.len() ==> (r matches Some(f) && *f
                == self.to_delete@[self.deleted as int]),
            self.deleted >= self.to_delete@.len() ==> r is None,
    {
        if self.deleted < self.to_delete.len() {
            Some(&self.to_delete[self.deleted])
        } else {
            None
        }
    }

    /// Advances the cursor after one successful deletion.
    pub fn record_deleted(&mut self)
        requires
            old(self).deleted < old(self).to_delete@.len(),
        ensures
            final(self).deleted == old(self).deleted + 1,
            final(self).to_delete == old(self).to_delete,
            final(self).kept == old(self).kept,
            final(self).wf(),
    {
        // The exec length witnesses that the incremented cursor fits in usize.
        let _n: usize = self.to_delete.len();
        self.deleted = self.deleted + 1;
    }

    /// How many deletions are still owed.
    pub fn remaining(&self) -> (r: usize)
        requires
            self.wf(),
        ensures
            r == self.to_delete@.len() - self.deleted,
    {
        self.to_delete.len() - self.deleted
    }

    /// Whether enforcement has carried out every planned deletion.
    pub fn is_done(&self) -> (r: bool)
        ensures
            r == (self.deleted == self.to_delete@.len()),
    {
        self.deleted == self.to_delete.len()
    }
}

/// Retention law: a listing strictly under the cap plans no deletions, so
/// enforcement performs zero delete calls.
pub proof fn lemma_under_cap_no_deletions(n: nat, max: nat)
    requires
        n < max,
    ensures
        spec_surplus(n, max) == 0,
{
}

/// Retention law: for a listing at or over the cap, a plan built from it
/// deletes exactly `n - max + 1` records, each the listing's own record at
/// the same position — the oldest first, since the listing ascends by
/// creation time — and keeps `max - 1`, so with the backup this run just
/// uploaded exactly `max` remain.
pub proof fn lemma_enforcement_outcome(plan: RetentionPlan, files: Seq<DriveFile>, max: nat)
    requires
        1 <= max <= files.len(),
        plan.to_delete@ == files.subrange(0, spec_surplus(files.len(), max) as int),
        plan.kept@ == files.subrange(spec_surplus(files.len(), max) as int, files.len() as int),
    ensures
        plan.to_delete@.len() == files.len() - max + 1,
        forall|i: int| 0 <= i < plan.to_delete@.len() ==> plan.to_delete@[i] == files[i],
        plan.kept@.len() == max - 1,
        plan.kept@.len() + 1 == max,
{
}

} // verus!

//! The orchestrator: the fixed sequence create archive → upload → delete
//! remote archive → enforce retention, where any stage's failure aborts
//! every remaining stage. The stages' HTTP work happens outside; the
//! orchestrator holds the run's state and decides, on each stage's
//! outcome, whether and with what data the next stage runs.

use vstd::prelude::*;

use crate::backup;
use crate::backup::{DeleteArchiveRequest, DownloadRequest};
use crate::config::Config;
use crate::errors::AppError;

verus! {

/// Where one backup run stands. The archive name and the uploaded
/// filename travel with the stage that needs them.
pub enum Stage {
    /// Asking the panel to compress the files.
    CreateArchive,
    /// Streaming the named archive into cloud storage.
    Upload { archive_name: String },
    /// Deleting the named remote archive; the upload stored `uploaded`.
    Cleanup { archive_name: String, uploaded: String },
    /// Pruning stored backups down to the configured cap.
    Retention { uploaded: String },
    /// The run finished; the stored backup is `uploaded`.
    Done { uploaded: String },
    /// A stage failed; no later stage runs.
    Aborted,
}

/// The stage after the archive-creation outcome: a created archive moves
/// the run to the upload, any failure aborts it.
pub open spec fn spec_after_archive_created(r: Result<String, AppError>) -> Stage {
    match r {
        Ok(name) => Stage::Upload { archive_name: name },
        Err(_) => Stage::Aborted,
    }
}

/// The stage after the upload outcome: a stored file moves the run to
/// cleanup of the same archive, any failure aborts it — the remote
/// archive is then left in place and retention is never enforced.
pub open spec fn spec_after_upload(pre: Stage, r: Result<String, AppError>) -> Stage
    recommends
        pre is Upload,
{
    match r {
        Ok(f) => Stage::Cleanup { archive_name: pre->Upload_archive_name, uploaded: f },
        Err(_) => Stage::Aborted,
    }
}

/// The stage after the cleanup outcome.
pub open spec fn spec_after_cleanup(pre: Stage, r: Result<(), AppError>) -> Stage
    recommends
        pre is Cleanup,
{
    match r {
        Ok(_) => Stage::Retention { uploaded: pre->Cleanup_uploaded },
        Err(_) => Stage::Aborted,
    }
}

/// The stage after the retention outcome.
pub open spec fn spec_after_retention(pre: Stage, r: Result<(), AppError>) -> Stage
    recommends
        pre is Retention,
{
    match r {
        Ok(_) => Stage::Done { uploaded: pre->Retention_uploaded },
        Err(_) => Stage::Aborted,
    }
}

/// One backup run.
pub struct Pipeline {
    pub stage: Stage,
}

impl Pipeline {
    /// A run starts at archive creation.
    pub fn new() -> (p: Self)
        ensures
            p.stage == Stage::CreateArchive,
    {
        Pipeline { stage: Stage::CreateArchive }
    }

    /// Feeds in the archive-creation outcome. On success the run carries
    /// the job's name, unchanged, into the upload stage; on failure the
    /// run aborts and surfaces the error.
    pub fn on_archive_created(&mut self, r: Result<String, AppError>) -> (out: Result<(), AppError>)
        requires
            old(self).stage == Stage::CreateArchive,
        ensures
            final(self).stage == spec_after_archive_created(r),
            r is Ok ==> out is Ok,
            r matches Err(e) ==> (out matches Err(e2) && e2 == e),
    {
        match r {
            Ok(name) => {
                self.stage = Stage::Upload { archive_name: name };
                Ok(())
            },
            Err(e) => {
                self.stage = Stage::Aborted;
                Err(e)
            },
        }
    }

    /// The download-URL request for the archive this run just created: the
    /// queried file is that archive's name, unchanged.
    pub fn download_request(&self, config: &Config) -> (r: DownloadRequest)
        requires
            self.stage is Upload,
        ensures
            r.url@ == backup::spec_server_files_url(*config, "download"@),
            r.file@ == self.stage->Upload_archive_name@,
    {
        match &self.stage {
            Stage::Upload { archive_name } => backup::download_request(
                config,
                archive_name.as_str(),
            ),
            // Unreachable: the precondition pins the stage.
            _ => backup::download_request(config, ""),
        }
    }

    /// Feeds in the upload outcome. On success the run moves to cleanup of
    /// the same archive; on failure it aborts — so neither the remote
    /// delete nor retention ever runs.
    pub fn on_uploaded(&mut self, r: Result<String, AppError>) -> (out: Result<(), AppError>)
        requires
            old(self).stage is Upload,
        ensures
            final(self).stage == spec_after_upload(old(self).stage, r),
            r is Ok ==> out is Ok,
            r matches Err(e) ==> (out matches Err(e2) && e2 == e),
    {
        let mut taken = Stage::Aborted;
        core::mem::swap(&mut self.stage, &mut taken);
        match (taken, r) {
            (Stage::Upload { archive_name }, Ok(f)) => {
                self.stage = Stage::Cleanup { archive_name, uploaded: f };
                Ok(())
            },
            (_, Ok(_)) => {
                self.stage = Stage::Aborted;
                Ok(())
            },
            (_, Err(e)) => {
                self.stage = Stage::Aborted;
                Err(e)
            },
        }
    }

    /// The deletion request for the archive this run created: the one
    /// deleted file is that archive's name, unchanged.
    pub fn cleanup_request(&self, config: &Config) -> (r: DeleteArchiveRequest)
        requires
            self.stage is Cleanup,
        ensures
            r.url@ == backup::spec_server_files_url(*config, "delete"@),
            r.root@ == "/"@,
            r.files@.len() == 1,
            r.files@[0]@ == self.stage->Cleanup_archive_name@,
    {
        match &self.stage {
            Stage::Cleanup { archive_name, .. } => backup::delete_archive_request(
                config,
                archive_name.as_str(),
            ),
            // Unreachable: the precondition pins the stage.
            _ => backup::delete_archive_request(config, ""),
        }
    }

    /// Feeds in the cleanup outcome.
    pub fn on_cleaned(&mut self, r: Result<(), AppError>) -> (out: Result<(), AppError>)
        requires
            old(self).stage is Cleanup,
        ensures
            final(self).stage == spec_after_cleanup(old(self).stage, r),
            r is Ok ==> out is Ok,
            r matches Err(e) ==> (out matches Err(e2) && e2 == e),
    {
        let mut taken = Stage::Aborted;
        core::mem::swap(&mut self.stage, &mut taken);
        match (taken, r) {
            (Stage::Cleanup { uploaded, .. }, Ok(_)) => {
                self.stage = Stage::Retention { uploaded };
                Ok(())
            },
            (_, Ok(_)) => {
                self.stage = Stage::Aborted;
                Ok(())
            },
            (_, Err(e)) => {
                self.stage = Stage::Aborted;
                Err(e)
            },
        }
    }

    /// Feeds in the retention outcome; success completes the run.
    pub fn on_retention_enforced(&mut self, r: Result<(), AppError>) -> (out: Result<(), AppError>)
        requires
            old(self).stage is Retention,
        ensures
            final(self).stage == spec_after_retention(old(self).stage, r),
            r is Ok ==> out is Ok,
            r matches Err(e) ==> (out matches Err(e2) && e2 == e),
    {
        let mut taken = Stage::Aborted;
        core::mem::swap(&mut self.stage, &mut taken);
        match (taken, r) {
            (Stage::Retention { uploaded }, Ok(_)) => {
                self.stage = Stage::Done { uploaded };
                Ok(())
            },
            (_, Ok(_)) => {
                self.stage = Stage::Aborted;
                Ok(())
            },
            (_, Err(e)) => {
                self.stage = Stage::Aborted;
                Err(e)
            },
        }
    }
}

/// Round-trip law: the archive name the creation stage produced is the
/// very string the upload stage queries the download URL for and the
/// cleanup stage later deletes — no transformation anywhere in between.
pub proof fn lemma_archive_name_round_trip(name: String, stored: String)
    ensures
        spec_after_archive_created(Ok(name))->Upload_archive_name == name,
        spec_after_upload(spec_after_archive_created(Ok(name)), Ok(stored))->Cleanup_archive_name
            == name,
{
}

/// Abort law: a failed archive creation aborts the run at once — the run
/// never reaches the upload, cleanup or retention stages, so no upload,
/// delete or prune request is ever built for it.
pub proof fn lemma_failed_creation_aborts(e: AppError)
    ensures
        spec_after_archive_created(Err(e)) == Stage::Aborted,
        !(spec_after_archive_created(Err(e)) is Upload),
        !(spec_after_archive_created(Err(e)) is Cleanup),
        !(spec_after_archive_created(Err(e)) is Retention),
{
}

/// Abort law: a failed upload aborts the run before cleanup — the remote
/// archive is left in place and retention is never enforced.
pub proof fn lemma_failed_upload_aborts(pre: Stage, e: AppError)
    requires
        pre is Upload,
    ensures
        spec_after_upload(pre, Err(e)) == Stage::Aborted,
        !(spec_after_upload(pre, Err(e)) is Cleanup),
        !(spec_after_upload(pre, Err(e)) is Retention),
{
}

} // verus!

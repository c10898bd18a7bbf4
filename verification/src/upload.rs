//! The resumable-upload engine: a two-phase protocol that first opens a
//! session (a POST whose success response must carry a `Location` header —
//! the session URI) and then streams the archive bytes in a single PUT to
//! that URI. The engine holds the session state and decides every
//! transition; the caller performs the HTTP calls and feeds back status
//! codes and headers.

use vstd::prelude::*;

use crate::errors::AppError;
use crate::spec_is_success;
use crate::text::{decimal_string, spec_decimal};

verus! {

/// Where one transfer stands. A failed transfer is terminal: there is no
/// resumption branch, a later run starts over.
#[derive(Clone, Copy, Debug, PartialEq, Eq, Structural)]
pub enum UploadPhase {
    Idle,
    SessionRequested,
    SessionOpen,
    Streaming,
    Completed,
    Failed,
}

/// The `Location` header of the session-initiation response, as the caller
/// found it: present and readable, present but not valid text, or absent.
#[derive(Debug)]
pub enum LocationHeader {
    Value(String),
    Invalid(String),
    Missing,
}

/// The POST that opens a resumable-upload session: its fixed endpoint and
/// the metadata naming the stored file and its parent folder.
pub struct InitiateUploadRequest {
    pub url: String,
    pub name: String,
    pub parents: Vec<String>,
}

/// The resumable-upload state for one transfer.
pub struct UploadEngine {
    pub phase: UploadPhase,
    /// The storage folder that receives the file.
    pub folder_id: String,
    /// The name the stored file will carry.
    pub filename: String,
    /// The session URI, once the initiation response has supplied it.
    pub session_uri: Option<String>,
    /// The body of a failed PUT response, kept for diagnosis.
    pub failure_body: Option<String>,
}

/// The phase the engine enters on the session-initiation response: open on
/// a success status with a readable `Location` header, failed otherwise.
pub open spec fn spec_phase_after_initiate(status: u16, location: LocationHeader) -> UploadPhase {
    if !spec_is_success(status) {
        UploadPhase::Failed
    } else {
        match location {
            LocationHeader::Value(_) => UploadPhase::SessionOpen,
            LocationHeader::Invalid(_) => UploadPhase::Failed,
            LocationHeader::Missing => UploadPhase::Failed,
        }
    }
}

/// The phase the engine enters on the streamed PUT's response.
pub open spec fn spec_phase_after_put(status: u16) -> UploadPhase {
    if spec_is_success(status) {
        UploadPhase::Completed
    } else {
        UploadPhase::Failed
    }
}

impl UploadEngine {
    /// An open or streaming session always has its URI.
    pub open spec fn wf(&self) -> bool {
        (self.phase == UploadPhase::SessionOpen || self.phase == UploadPhase::Streaming)
            ==> self.session_uri is Some
    }

    /// A fresh engine for one transfer into `folder_id`. Without a hint the
    /// stored file is named `backup_<timestamp>.tar.gz`, which makes names
    /// unique across runs at second granularity.
    pub fn new(folder_id: String, filename_hint: Option<String>, timestamp: &str) -> (e: Self)
        ensures
            e.phase == UploadPhase::Idle,
            e.folder_id == folder_id,
            filename_hint matches Some(h) ==> e.filename == h,
            filename_hint is None ==> e.filename@ == "backup_"@ + timestamp@ + ".tar.gz"@,
            e.session_uri is None,
            e.failure_body is None,
            e.wf(),
    {
        let filename = match filename_hint {
            Some(h) => h,
            None => {
                let mut s = String::new();
                s.append("backup_");
                s.append(timestamp);
                s.append(".tar.gz");
                s
            },
        };
        UploadEngine {
            phase: UploadPhase::Idle,
            folder_id,
            filename,
            session_uri: None,
            failure_body: None,
        }
    }

    /// Moves to `SessionRequested` and hands back the initiation POST. The
    /// metadata names exactly the engine's file and parent folder.
    pub fn initiate_request(&mut self) -> (r: InitiateUploadRequest)
        requires
            old(self).phase == UploadPhase::Idle,
        ensures
            final(self).phase == UploadPhase::SessionRequested,
            final(self).folder_id == old(self).folder_id,
            final(self).filename == old(self).filename,
            final(self).session_uri == old(self).session_uri,
            final(self).failure_body == old(self).failure_body,
            final(self).wf(),
            r.url@
                == "https://www.googleapis.com/upload/drive/v3/files?uploadType=resumable&supportsAllDrives=true"@,
            r.name@ == old(self).filename@,
            r.parents@.len() == 1,
            r.parents@[0]@ == old(self).folder_id@,
    {
        self.phase = UploadPhase::SessionRequested;
        let mut parents: Vec<String> = Vec::new();
        parents.push(self.folder_id.clone());
        InitiateUploadRequest {
            url:
                "https://www.googleapis.com/upload/drive/v3/files?uploadType=resumable&supportsAllDrives=true".to_owned(),
            name: self.filename.clone(),
            parents,
        }
    }

    /// Decides on the initiation response. A status outside the success
    /// range, a missing `Location` header, or one that is not readable
    /// text each fail the transfer with the reason in the message; a
    /// usable header opens the session at that URI.
    pub fn on_initiate_response(&mut self, status: u16, location: LocationHeader) -> (r: Result<
        (),
        AppError,
    >)
        requires
            old(self).phase == UploadPhase::SessionRequested,
        ensures
            final(self).phase == spec_phase_after_initiate(status, location),
            final(self).folder_id == old(self).folder_id,
            final(self).filename == old(self).filename,
            final(self).failure_body == old(self).failure_body,
            final(self).wf(),
            !spec_is_success(status) ==> (final(self).session_uri == old(self).session_uri && (
            r matches Err(e) && e matches AppError::Response(m) && m@
                == "Failed to initiate upload: HTTP "@ + spec_decimal(status as nat))),
            spec_is_success(status) ==> (match location {
                LocationHeader::Value(uri) => final(self).session_uri == Some(uri) && r is Ok,
                LocationHeader::Invalid(d) => final(self).session_uri == old(self).session_uri && (
                r matches Err(e) && e matches AppError::Response(m) && m@
                    == "Invalid Location header: "@ + d@),
                LocationHeader::Missing => final(self).session_uri == old(self).session_uri && (
                r matches Err(e) && e matches AppError::Response(m) && m@
                    == "Missing Location header in initiate upload response"@),
            }),
    {
        if !crate::is_success(status) {
            self.phase = UploadPhase::Failed;
            let mut m = String::new();
            m.append("Failed to initiate upload: HTTP ");
            let d = decimal_string(status as u64);
            m.append(d.as_str());
            return Err(AppError::Response(m));
        }
        match location {
            LocationHeader::Value(uri) => {
                self.phase = UploadPhase::SessionOpen;
                self.session_uri = Some(uri);
                Ok(())
            },
            LocationHeader::Invalid(d) => {
                self.phase = UploadPhase::Failed;
                let mut m = String::new();
                m.append("Invalid Location header: ");
                m.append(d.as_str());
                Err(AppError::Response(m))
            },
            LocationHeader::Missing => {
                self.phase = UploadPhase::Failed;
                Err(AppError::Response(
                    "Missing Location header in initiate upload response".to_owned(),
                ))
            },
        }
    }

    /// Moves to `Streaming` and hands back the session URI the streamed
    /// PUT must target.
    pub fn begin_put(&mut self) -> (uri: String)
        requires
            old(self).phase == UploadPhase::SessionOpen,
            old(self).wf(),
        ensures
            final(self).phase == UploadPhase::Streaming,
            final(self).folder_id == old(self).folder_id,
            final(self).filename == old(self).filename,
            final(self).session_uri == old(self).session_uri,
            final(self).failure_body == old(self).failure_body,
            final(self).wf(),
            old(self).session_uri matches Some(u) ==> uri@ == u@,
    {
        self.phase = UploadPhase::Streaming;
        match &self.session_uri {
            Some(u) => u.clone(),
            // Unreachable: an open session always has its URI.
            None => String::new(),
        }
    }

    /// Decides on the streamed PUT's response: success completes the
    /// transfer and yields the stored filename; anything else is a
    /// terminal failure whose response body is kept for diagnosis.
    pub fn on_put_response(&mut self, status: u16, response_body: String) -> (r: Result<
        String,
        AppError,
    >)
        requires
            old(self).phase == UploadPhase::Streaming,
        ensures
            final(self).phase == spec_phase_after_put(status),
            final(self).folder_id == old(self).folder_id,
            final(self).filename == old(self).filename,
            final(self).session_uri == old(self).session_uri,
            final(self).wf(),
            spec_is_success(status) ==> (final(self).failure_body == old(self).failure_body && (
            r matches Ok(f) && f@ == old(self).filename@)),
            !spec_is_success(status) ==> (final(self).failure_body == Some(response_body) && (
            r matches Err(e) && e matches AppError::Response(m) && m@
                == "Failed to upload file: HTTP "@ + spec_decimal(status as nat))),
    {
        if crate::is_success(status) {
            self.phase = UploadPhase::Completed;
            Ok(self.filename.clone())
        } else {
            self.phase = UploadPhase::Failed;
            self.failure_body = Some(response_body);
            let mut m = String::new();
            m.append("Failed to upload file: HTTP ");
            let d = decimal_string(status as u64);
            m.append(d.as_str());
            Err(AppError::Response(m))
        }
    }
}

/// Relies on chrono's `Utc::now`, formatted as `YYYY-MM-DD_HH-MM-SS`. The
/// result depends on the wall clock, so nothing is promised of it; every
/// caller's contract holds whatever it returns.
#[verifier::external_body]
fn utc_timestamp() -> String {
    chrono::Utc::now().format("%Y-%m-%d_%H-%M-%S").to_string()
}

/// A fresh engine whose file, absent a hint, is named after the current
/// UTC time: `backup_<now>.tar.gz`.
pub fn begin_upload(folder_id: String, filename_hint: Option<String>) -> (e: UploadEngine)
    ensures
        e.phase == UploadPhase::Idle,
        e.folder_id == folder_id,
        filename_hint matches Some(h) ==> e.filename == h,
        filename_hint is None ==> exists|t: Seq<char>|
            e.filename@ == "backup_"@ + t + ".tar.gz"@,
        e.session_uri is None,
        e.failure_body is None,
        e.wf(),
{
    let ts = utc_timestamp();
    let e = UploadEngine::new(folder_id, filename_hint, ts.as_str());
    proof {
        if filename_hint is None {
            assert(e.filename@ == "backup_"@ + ts@ + ".tar.gz"@);
        }
    }
    e
}

/// Protocol law: when the session-initiation response carries a success
/// status but no `Location` header, the engine fails at once and never
/// opens a session, so the streamed PUT — which demands an open session —
/// is never issued.
pub proof fn lemma_missing_location_means_no_put(status: u16)
    requires
        spec_is_success(status),
    ensures
        spec_phase_after_initiate(status, LocationHeader::Missing) == UploadPhase::Failed,
        spec_phase_after_initiate(status, LocationHeader::Missing) != UploadPhase::SessionOpen,
        spec_phase_after_initiate(status, LocationHeader::Missing) != UploadPhase::Streaming,
{
}

} // verus!

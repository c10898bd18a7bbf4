//! The archive half of the pipeline: requests to the panel that create,
//! locate and delete the server-side archive, and the resumable-upload
//! state machine that streams the archive into cloud storage.

use vstd::prelude::*;

use crate::config::Config;
use crate::errors::{AppError, ParseFailure};
use crate::spec_is_success;
use crate::text::{decimal_string, spec_decimal};

verus! {

/// The archive-creation response body.
#[derive(Debug)]
pub struct ArchiveResult {
    pub object: String,
    pub attributes: ArchiveAttributes,
}

/// The attributes of a freshly created archive. `name` is the handle every
/// later call uses.
#[derive(Debug)]
pub struct ArchiveAttributes {
    pub name: String,
    pub mode: String,
    pub mode_bits: String,
    pub size: u64,
    pub is_file: bool,
    pub is_symlink: bool,
    pub mimetype: String,
    pub created_at: String,
    pub modified_at: String,
}

/// The download-URL response body.
#[derive(Debug)]
pub struct DownloadUrl {
    pub attributes: DownloadUrlAttributes,
}

/// The attributes of a download-URL response: the time-limited URL itself.
#[derive(Debug)]
pub struct DownloadUrlAttributes {
    pub url: String,
}

/// The URL of a panel file operation for the configured server.
pub open spec fn spec_server_files_url(config: Config, action: Seq<char>) -> Seq<char> {
    config.ptero_url@ + "/api/client/servers/"@ + config.server_id@ + "/files/"@ + action
}

/// Builds the URL of a panel file operation (`action` is its last path
/// segment).
fn server_files_url(config: &Config, action: &str) -> (r: String)
    ensures
        r@ == spec_server_files_url(*config, action@),
{
    let mut s = String::new();
    s.append(config.ptero_url.as_str());
    s.append("/api/client/servers/");
    s.append(config.server_id.as_str());
    s.append("/files/");
    s.append(action);
    s
}

/// A copy of a list of path strings.
fn clone_strings(v: &Vec<String>) -> (r: Vec<String>)
    ensures
        r@.len() == v@.len(),
        forall|i: int| 0 <= i < v@.len() ==> #[trigger] r@[i]@ == v@[i]@,
{
    let mut r: Vec<String> = Vec::new();
    for i in 0..v.len()
        invariant
            r@.len() == i,
            forall|j: int| 0 <= j < i ==> #[trigger] r@[j]@ == v@[j]@,
    {
        r.push(v[i].clone());
    }
    r
}

/// The POST that asks the panel to compress the configured files into an
/// archive, rooted at `/`.
pub struct CompressRequest {
    pub url: String,
    pub files: Vec<String>,
    pub root: String,
}

/// Builds the archive-creation request.
pub fn compress_request(config: &Config) -> (r: CompressRequest)
    ensures
        r.url@ == spec_server_files_url(*config, "compress"@),
        r.files@.len() == config.files@.len(),
        forall|i: int| 0 <= i < config.files@.len() ==> #[trigger] r.files@[i]@
            == config.files@[i]@,
        r.root@ == "/"@,
{
    CompressRequest {
        url: server_files_url(config, "compress"),
        files: clone_strings(&config.files),
        root: "/".to_owned(),
    }
}

/// Decides on the archive-creation status: any status outside the success
/// range aborts the run with that status in the message.
pub fn archive_status_outcome(status: u16) -> (r: Result<(), AppError>)
    ensures
        spec_is_success(status) ==> r is Ok,
        !spec_is_success(status) ==> (r matches Err(e) && e matches AppError::Response(m) && m@
            == "HTTP "@ + spec_decimal(status as nat)),
{
    if crate::is_success(status) {
        Ok(())
    } else {
        let mut m = String::new();
        m.append("HTTP ");
        let d = decimal_string(status as u64);
        m.append(d.as_str());
        Err(AppError::Response(m))
    }
}

/// Accepts the parsed archive-creation body: on success the job's name —
/// the exact string every later call uses — on failure the parser's report
/// together with the offending body.
pub fn archive_parse_outcome(parsed: Result<ArchiveResult, ParseFailure>, body: String) -> (r:
    Result<String, AppError>)
    ensures
        parsed matches Ok(a) ==> (r matches Ok(n) && n == a.attributes.name),
        parsed matches Err(pf) ==> (r matches Err(e)
            && e matches AppError::Parse { detail, line, body: b } && detail == pf.detail && line
            == pf.line && b == body),
{
    match parsed {
        Ok(a) => Ok(a.attributes.name),
        Err(pf) => Err(AppError::Parse { detail: pf.detail, line: pf.line, body }),
    }
}

/// The GET that fetches a time-limited download URL for a named archive.
pub struct DownloadRequest {
    pub url: String,
    pub file: String,
}

/// Builds the download-URL request; the queried name is `archive_name`,
/// unchanged.
pub fn download_request(config: &Config, archive_name: &str) -> (r: DownloadRequest)
    ensures
        r.url@ == spec_server_files_url(*config, "download"@),
        r.file@ == archive_name@,
{
    DownloadRequest { url: server_files_url(config, "download"), file: archive_name.to_owned() }
}

/// Accepts the parsed download-URL body: the URL itself, or the parser's
/// report with the offending body.
pub fn download_url_outcome(parsed: Result<DownloadUrl, ParseFailure>, body: String) -> (r: Result<
    String,
    AppError,
>)
    ensures
        parsed matches Ok(d) ==> (r matches Ok(u) && u == d.attributes.url),
        parsed matches Err(pf) ==> (r matches Err(e)
            && e matches AppError::Parse { detail, line, body: b } && detail == pf.detail && line
            == pf.line && b == body),
{
    match parsed {
        Ok(d) => Ok(d.attributes.url),
        Err(pf) => Err(AppError::Parse { detail: pf.detail, line: pf.line, body }),
    }
}

/// The POST that deletes a named archive from the server root.
pub struct DeleteArchiveRequest {
    pub url: String,
    pub root: String,
    pub files: Vec<String>,
}

/// Builds the archive-deletion request; the one deleted file is
/// `archive_name`, unchanged.
pub fn delete_archive_request(config: &Config, archive_name: &str) -> (r: DeleteArchiveRequest)
    ensures
        r.url@ == spec_server_files_url(*config, "delete"@),
        r.root@ == "/"@,
        r.files@.len() == 1,
        r.files@[0]@ == archive_name@,
{
    let mut files: Vec<String> = Vec::new();
    files.push(archive_name.to_owned());
    DeleteArchiveRequest {
        url: server_files_url(config, "delete"),
        root: "/".to_owned(),
        files,
    }
}

/// Decides on the archive-deletion status: cleanup is done on success and
/// surfaces the status otherwise.
pub fn cleanup_outcome(status: u16) -> (r: Result<(), AppError>)
    ensures
        spec_is_success(status) ==> r is Ok,
        !spec_is_success(status) ==> (r matches Err(e) && e matches AppError::Response(m) && m@
            == "Failed to delete archive: HTTP "@ + spec_decimal(status as nat)),
{
    if crate::is_success(status) {
        Ok(())
    } else {
        let mut m = String::new();
        m.append("Failed to delete archive: HTTP ");
        let d = decimal_string(status as u64);
        m.append(d.as_str());
        Err(AppError::Response(m))
    }
}

} // verus!

//! Backup pipeline for a game-server panel: ask the panel to compress a set
//! of files into an archive, stream that archive into a cloud-storage folder
//! through a resumable upload session, delete the remote archive, and prune
//! the oldest stored backups down to a configured count.
//!
//! All network and file I/O lives outside this crate; the library holds the
//! protocol decisions (request construction, response interpretation, the
//! upload session state machine, the retention plan) as verified functions.

use vstd::prelude::*;

pub mod backup;
pub mod config;
pub mod credentials;
pub mod errors;
pub mod pipeline;
pub mod quotas;
pub mod text;
pub mod upload;

verus! {

/// Whether an HTTP status code lies in the success range.
pub open spec fn spec_is_success(status: u16) -> bool {
    200 <= status < 300
}

/// Whether an HTTP status code lies in the success range.
pub fn is_success(status: u16) -> (r: bool)
    ensures
        r == spec_is_success(status),
{
    200 <= status && status < 300
}

/// The value of an `Authorization` header carrying a bearer token, as both
/// transport clients send it.
pub fn bearer_header_value(token: &str) -> (r: String)
    ensures
        r@ == "Bearer "@ + token@,
{
    let mut s = String::new();
    s.append("Bearer ");
    s.append(token);
    s
}

} // verus!

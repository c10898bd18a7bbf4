//! The configuration record: which files to archive, where the panel and the
//! storage folder live, and how many backups to retain.

use vstd::prelude::*;

verus! {

/// Settings for one backup run. Read-only after construction.
#[derive(Debug)]
pub struct Config {
    /// Paths (relative to the server root) to include in the archive.
    pub files: Vec<String>,
    /// Base URL of the panel API.
    pub ptero_url: String,
    /// Bearer token for the panel API.
    pub ptero_api_token: String,
    /// Identifier of the server whose files are archived.
    pub server_id: String,
    /// Identifier of the storage folder that receives the backups.
    pub drive_folder_id: String,
    /// Retention cap: after a run at most this many backups remain.
    pub max_backups: usize,
}

impl Config {
    /// A retention cap of zero would ask the enforcer to delete one more
    /// record than exists; such a configuration is rejected up front.
    pub open spec fn spec_valid(&self) -> bool {
        self.max_backups >= 1
    }

    /// Whether the configuration may drive a run.
    pub fn is_valid(&self) -> (ok: bool)
        ensures
            ok == self.spec_valid(),
    {
        self.max_backups >= 1
    }
}

impl Default for Config {
    /// The example configuration written out on first run.
    fn default() -> (r: Self)
        ensures
            r.files@.len() == 3,
            r.files@[0]@ == "world"@,
            r.files@[1]@ == "config"@,
            r.files@[2]@ == "server.properties"@,
            r.ptero_url@ == "https://panel.example.com"@,
            r.ptero_api_token@ == "ptlc_abcefghijklmnopqrstuvwxyz"@,
            r.server_id@ == "2f615648"@,
            r.drive_folder_id@ == "0BwwA4oUTeiV1TGRPeTVjaWRDY1E"@,
            r.max_backups == 5,
            r.spec_valid(),
    {
        let mut files: Vec<String> = Vec::new();
        files.push("world".to_owned());
        files.push("config".to_owned());
        files.push("server.properties".to_owned());
        Config {
            files,
            ptero_url: "https://panel.example.com".to_owned(),
            ptero_api_token: "ptlc_abcefghijklmnopqrstuvwxyz".to_owned(),
            server_id: "2f615648".to_owned(),
            drive_folder_id: "0BwwA4oUTeiV1TGRPeTVjaWRDY1E".to_owned(),
            max_backups: 5,
        }
    }
}

} // verus!

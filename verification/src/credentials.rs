//! The OAuth client credentials record, as read from the installed-app
//! credentials file. The library only carries these values; the token
//! exchange itself happens outside.

use vstd::prelude::*;

verus! {

/// The credentials file's top-level object.
#[derive(Debug)]
pub struct Credentials {
    pub installed: InstalledCredentials,
}

/// The `installed` object of the credentials file.
#[derive(Debug)]
pub struct InstalledCredentials {
    pub client_id: String,
    pub project_id: String,
    pub auth_uri: String,
    pub token_uri: String,
    pub auth_provider_x509_cert_url: String,
    pub client_secret: String,
    pub redirect_uris: Vec<String>,
}

} // verus!

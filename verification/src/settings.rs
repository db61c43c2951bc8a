//! The configuration a run is started with.

use vstd::prelude::*;

verus! {

/// Everything the tool is configured with: the account's credentials and
/// the communities whose content is never deleted.
#[derive(Debug)]
pub struct Settings {
    pub credentials: Credentials,
    pub whitelist: Vec<String>,
}

/// The credentials of the application and of the account it acts for.
#[derive(Debug)]
pub struct Credentials {
    pub client_id: String,
    pub secret: String,
    pub username: String,
    pub password: String,
}

} // verus!

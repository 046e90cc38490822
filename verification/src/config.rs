//! The service configuration, as plain values. Reading it from the
//! environment is the surrounding program's work, outside this library.

use vstd::prelude::*;

verus! {

/// The OAuth and origin configuration of the service.
#[derive(Debug, Clone)]
pub struct Config {
    pub client_origin: String,
    pub token_url: String,
    pub auth_url: String,
    pub google_oauth_client_id: String,
    pub google_oauth_client_secret: String,
    pub google_oauth_redirect_url: String,
}

} // verus!

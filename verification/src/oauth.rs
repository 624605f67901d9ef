//! The shapes of the OAuth2 endpoints' requests and responses. The flow
//! itself is not part of this library.

use vstd::prelude::*;

verus! {

/// What a client sends to the authorization endpoint.
#[derive(Debug)]
pub struct OAuth2AuthorizeRequest {
    pub response_type: String,
    pub client_id: String,
    pub redirect_uri: String,
    pub scope: Option<String>,
    pub state: Option<String>,
    pub code_challenge: Option<String>,
    pub code_challenge_method: Option<String>,
}

/// What a client sends to the token endpoint.
#[derive(Debug)]
pub struct OAuth2TokenRequest {
    pub grant_type: String,
    pub code: Option<String>,
    pub redirect_uri: Option<String>,
    pub client_id: String,
    pub client_secret: Option<String>,
    pub code_verifier: Option<String>,
    pub refresh_token: Option<String>,
}

/// What the token endpoint answers.
#[derive(Debug)]
pub struct OAuth2TokenResponse {
    pub access_token: String,
    pub token_type: String,
    /// Lifetime of the access token, in seconds.
    pub expires_in: u64,
    pub refresh_token: Option<String>,
    pub scope: String,
}

} // verus!

//! Access/refresh token pair handed to clients.
use vstd::prelude::*;

verus! {

/// Access and refresh tokens with their expiry instants (Unix seconds).
#[derive(Debug, Clone, PartialEq, Eq)]
pub struct TokenPair {
    pub access_token: String,
    pub refresh_token: String,
    pub access_token_expires_at: i64,
    pub refresh_token_expires_at: i64,
}

} // verus!

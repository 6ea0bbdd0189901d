//! The authentication service's answers.
use std::sync::Arc;
use vstd::prelude::*;
use crate::app::service::{AuthService, AuthServiceError, LoginResult};
use crate::channel::proto::{
    to_timestamp, LoginResponse, LogoutResponse, RefreshTokenResponse, RegisterResponse, Timestamp,
    TokenPair as ProtoTokenPair,
};
use crate::channel::status::{auth_error_status, status_is, Code, GrpcStatus, IntoGrpcStatus};
use crate::domain::token::TokenPair;

verus! {

/// The API form of a token pair: both tokens, expiries as timestamps.
pub open spec fn shows_token_pair(p: ProtoTokenPair, t: TokenPair) -> bool {
    &&& p.access_token@ == t.access_token@
    &&& p.refresh_token@ == t.refresh_token@
    &&& p.access_token_expires_at == Some(Timestamp { seconds: t.access_token_expires_at, nanos: 0 })
    &&& p.refresh_token_expires_at == Some(Timestamp { seconds: t.refresh_token_expires_at, nanos: 0 })
}

/// The API form of a token pair.
pub fn token_pair_message(pair: TokenPair) -> (r: ProtoTokenPair)
    ensures
        shows_token_pair(r, pair),
{
    ProtoTokenPair {
        access_token: pair.access_token,
        refresh_token: pair.refresh_token,
        access_token_expires_at: Some(to_timestamp(pair.access_token_expires_at)),
        refresh_token_expires_at: Some(to_timestamp(pair.refresh_token_expires_at)),
    }
}

/// Serves registration, login and token refresh.
pub struct AuthServiceHandler<P: ?Sized> {
    auth_service: Arc<AuthService<P>>,
}

impl<P: ?Sized> AuthServiceHandler<P> {
    pub closed spec fn service(&self) -> Arc<AuthService<P>> {
        self.auth_service
    }

    pub fn new(auth_service: Arc<AuthService<P>>) -> (r: Self)
        ensures
            r.service() == auth_service,
    {
        AuthServiceHandler { auth_service }
    }

    pub fn auth_service(&self) -> (r: &Arc<AuthService<P>>)
        ensures
            *r == self.service(),
    {
        &self.auth_service
    }
}

/// The answer to a registration: the user and the token pair, or the
/// failure's status.
pub fn register_response(result: Result<LoginResult, AuthServiceError>) -> (r: Result<RegisterResponse, GrpcStatus>)
    ensures
        match result {
            Ok(res) => r matches Ok(resp) && resp.user_id@ == res.user_id@ && (resp.token_pair matches Some(p)
                && shows_token_pair(p, res.token_pair)),
            Err(e) => r matches Err(s) && auth_error_status(e, s),
        },
{
    match result {
        Ok(res) => Ok(RegisterResponse { user_id: res.user_id, token_pair: Some(token_pair_message(res.token_pair)) }),
        Err(e) => Err(e.into_status()),
    }
}

/// The answer to a login: the user and the token pair, or the failure's
/// status.
pub fn login_response(result: Result<LoginResult, AuthServiceError>) -> (r: Result<LoginResponse, GrpcStatus>)
    ensures
        match result {
            Ok(res) => r matches Ok(resp) && resp.user_id@ == res.user_id@ && (resp.token_pair matches Some(p)
                && shows_token_pair(p, res.token_pair)),
            Err(e) => r matches Err(s) && auth_error_status(e, s),
        },
{
    match result {
        Ok(res) => Ok(LoginResponse { user_id: res.user_id, token_pair: Some(token_pair_message(res.token_pair)) }),
        Err(e) => Err(e.into_status()),
    }
}

/// The answer to a refresh: the new token pair, or the failure's status.
pub fn refresh_response(result: Result<LoginResult, AuthServiceError>) -> (r: Result<RefreshTokenResponse, GrpcStatus>)
    ensures
        match result {
            Ok(res) => r matches Ok(resp) && (resp.token_pair matches Some(p) && shows_token_pair(p, res.token_pair)),
            Err(e) => r matches Err(s) && auth_error_status(e, s),
        },
{
    match result {
        Ok(res) => Ok(RefreshTokenResponse { token_pair: Some(token_pair_message(res.token_pair)) }),
        Err(e) => Err(e.into_status()),
    }
}

/// Logging out is not implemented.
pub fn logout_response() -> (r: Result<LogoutResponse, GrpcStatus>)
    ensures
        r matches Err(s) && status_is(s, Code::Unimplemented, "not implemented"@),
{
    Err(GrpcStatus::unimplemented("not implemented"))
}

} // verus!

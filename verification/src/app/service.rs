//! Authentication rules: what registration demands, which claims a token
//! pair carries and when it expires, how refresh and validation outcomes are
//! judged, and how the port's errors are reported. Tokens are signed here
//! with `jsonwebtoken`; decoding them (into a JSON encoding of [`Claims`])
//! and the calls of the asynchronous authentication port happen around the
//! library.
use std::sync::Arc;
use vstd::prelude::*;
use crate::domain::ports::{AuthError, AuthResult};
use crate::domain::token::TokenPair;
use crate::text::{is_blank, is_blank_str, str_eq};
use crate::time::unix_time_now;

verus! {

/// Lifetime of an access token, in seconds (one hour).
pub const ACCESS_TOKEN_TTL_SECONDS: i64 = 3600;

/// Lifetime of a refresh token, in seconds (seven days).
pub const REFRESH_TOKEN_TTL_SECONDS: i64 = 604800;

/// The claims a token carries: subject (user id), expiry and issue instants
/// (Unix seconds) and the token's kind ("access" or "refresh").
#[derive(Debug, Clone, PartialEq, Eq)]
pub struct Claims {
    pub sub: String,
    pub exp: usize,
    pub iat: usize,
    pub token_type: String,
}

/// Why an authentication request failed.
#[derive(Debug, Clone, PartialEq, Eq)]
pub enum AuthServiceError {
    InvalidCredentials,
    AlreadyExists(String),
    InvalidInput(String),
    TokenCreation,
    TokenValidation,
    Internal(String),
}

/// A successful login, registration or refresh.
#[derive(Debug, Clone, PartialEq, Eq)]
pub struct LoginResult {
    pub user_id: String,
    pub token_pair: TokenPair,
}

/// The two tokens to sign for a user at an instant.
#[derive(Debug, Clone, PartialEq, Eq)]
pub struct TokenPlan {
    pub access: Claims,
    pub refresh: Claims,
    pub access_expires_at: i64,
    pub refresh_expires_at: i64,
}

/// The plan is for `user` at instant `now`: an access token valid for an
/// hour and a refresh token valid for seven days, both issued at `now`.
pub open spec fn plans_tokens(p: TokenPlan, user: Seq<char>, now: int) -> bool {
    &&& p.access.sub@ == user
    &&& p.refresh.sub@ == user
    &&& p.access.token_type@ == "access"@
    &&& p.refresh.token_type@ == "refresh"@
    &&& p.access.iat == now
    &&& p.refresh.iat == now
    &&& p.access_expires_at == now + ACCESS_TOKEN_TTL_SECONDS
    &&& p.refresh_expires_at == now + REFRESH_TOKEN_TTL_SECONDS
    &&& p.access.exp == p.access_expires_at
    &&& p.refresh.exp == p.refresh_expires_at
}

/// Both tokens of a pair outlive their issue instant, and the access token
/// expires before the refresh token.
pub proof fn lemma_access_expires_first(p: TokenPlan, user: Seq<char>, now: int)
    requires
        plans_tokens(p, user, now),
    ensures
        now < p.access_expires_at < p.refresh_expires_at,
        p.access.iat < p.access.exp < p.refresh.exp,
{
}

/// Instants at which a token pair can be issued: not before the Unix epoch,
/// and late enough expiries still fit the claims' integer types.
pub open spec fn issuable_at(now: int) -> bool {
    0 <= now && now + REFRESH_TOKEN_TTL_SECONDS <= usize::MAX && now + REFRESH_TOKEN_TTL_SECONDS <= i64::MAX
}

/// The service's error for the port's.
pub open spec fn service_error(e: AuthError) -> AuthServiceError {
    match e {
        AuthError::InvalidCredentials => AuthServiceError::InvalidCredentials,
        AuthError::AlreadyExists(m) => AuthServiceError::AlreadyExists(m),
        AuthError::Internal(m) => AuthServiceError::Internal(m),
    }
}

/// The token `jsonwebtoken::encode` makes with the default header (HS256)
/// of the JSON object {"sub", "exp", "iat", "token_type"} holding these
/// values, signed with `secret` as HMAC key; `None` if encoding fails.
pub uninterp spec fn hs256_token(
    sub: Seq<char>,
    exp: usize,
    iat: usize,
    token_type: Seq<char>,
    secret: Seq<char>,
) -> Option<Seq<char>>;

/// Calls `jsonwebtoken::encode` with `Header::default()` (HS256), the claims
/// as a `serde_json` object and `EncodingKey::from_secret(secret)`. HMAC
/// signing is deterministic, so the token is named by `hs256_token`; it
/// cannot fail, since the key's family matches HS256, writing a header and
/// a JSON object cannot fail, and HMAC signing returns `Ok`.
#[verifier::external_body]
fn sign_claims(claims: &Claims, secret: &str) -> (r: Option<String>)
    ensures
        r.deep_view() == hs256_token(claims.sub@, claims.exp, claims.iat, claims.token_type@, secret@),
        r is Some,
{
    let mut payload = serde_json::Map::new();
    payload.insert("sub".to_owned(), serde_json::Value::from(claims.sub.as_str()));
    payload.insert("exp".to_owned(), serde_json::Value::from(claims.exp));
    payload.insert("iat".to_owned(), serde_json::Value::from(claims.iat));
    payload.insert("token_type".to_owned(), serde_json::Value::from(claims.token_type.as_str()));
    let key = jsonwebtoken::EncodingKey::from_secret(secret.as_bytes());
    jsonwebtoken::encode(&jsonwebtoken::Header::default(), &payload, &key).ok()
}

/// The signed token of `c`.
pub open spec fn signed(c: Claims, secret: Seq<char>) -> Option<Seq<char>> {
    hs256_token(c.sub@, c.exp, c.iat, c.token_type@, secret)
}

/// The service's error for the authentication port's.
pub fn map_auth_error(err: AuthError) -> (r: AuthServiceError)
    ensures
        r == service_error(err),
{
    match err {
        AuthError::InvalidCredentials => AuthServiceError::InvalidCredentials,
        AuthError::AlreadyExists(msg) => AuthServiceError::AlreadyExists(msg),
        AuthError::Internal(msg) => AuthServiceError::Internal(msg),
    }
}

/// Issues JSON Web Tokens signed with a shared secret for the users an
/// authentication port vouches for.
pub struct AuthService<P: ?Sized> {
    auth_port: Arc<P>,
    jwt_secret: String,
}

impl<P: ?Sized> AuthService<P> {
    pub closed spec fn secret(&self) -> Seq<char> {
        self.jwt_secret@
    }

    pub closed spec fn port(&self) -> Arc<P> {
        self.auth_port
    }

    pub fn new(auth_port: Arc<P>, jwt_secret: String) -> (r: Self)
        ensures
            r.secret() == jwt_secret@,
            r.port() == auth_port,
    {
        AuthService { auth_port, jwt_secret }
    }

    /// The secret tokens are signed and checked with.
    pub fn jwt_secret(&self) -> (r: &str)
        ensures
            r@ == self.secret(),
    {
        self.jwt_secret.as_str()
    }

    /// The authentication port.
    pub fn auth_port(&self) -> (r: &Arc<P>)
        ensures
            *r == self.port(),
    {
        &self.auth_port
    }

    /// A token pair for `user_id`, issued now and signed with the service's
    /// secret: the access token for an hour, the refresh token for seven
    /// days. A clock outside the issuable range, or a token that cannot be
    /// signed, gives `TokenCreation`.
    pub fn create_token_pair(&self, user_id: &str) -> (r: Result<TokenPair, AuthServiceError>)
        ensures
            r matches Err(e) ==> e == AuthServiceError::TokenCreation,
            r matches Ok(pair) ==> exists|p: TokenPlan|
                {
                    &&& issuable_at(p.access.iat as int)
                    &&& #[trigger] plans_tokens(p, user_id@, p.access.iat as int)
                    &&& signed(p.access, self.secret()) == Some(pair.access_token@)
                    &&& signed(p.refresh, self.secret()) == Some(pair.refresh_token@)
                    &&& pair.access_token_expires_at == p.access_expires_at
                    &&& pair.refresh_token_expires_at == p.refresh_expires_at
                },
    {
        let plan = match plan_token_pair_now(user_id) {
            Ok(p) => p,
            Err(e) => return Err(e),
        };
        let access = sign_claims(&plan.access, self.jwt_secret.as_str());
        let refresh = sign_claims(&plan.refresh, self.jwt_secret.as_str());
        let r = assemble_token_pair(plan, access, refresh);
        assert(r matches Ok(pair) ==> plans_tokens(plan, user_id@, plan.access.iat as int));
        r
    }
}

/// Registration needs a non-blank email and a non-blank password, checked
/// in that order.
pub fn check_registration(email: &str, password: &str) -> (r: Result<(), AuthServiceError>)
    ensures
        is_blank(email@) ==> (r matches Err(AuthServiceError::InvalidInput(m)) && m@ == "email is required"@),
        !is_blank(email@) && is_blank(password@) ==> (r matches Err(AuthServiceError::InvalidInput(m)) && m@
            == "password is required"@),
        !is_blank(email@) && !is_blank(password@) ==> r is Ok,
{
    if is_blank_str(email) {
        return Err(AuthServiceError::InvalidInput("email is required".to_owned()));
    }
    if is_blank_str(password) {
        return Err(AuthServiceError::InvalidInput("password is required".to_owned()));
    }
    Ok(())
}

/// The tokens to sign for `user_id` at instant `now` (Unix seconds).
pub fn plan_token_pair(user_id: &str, now: i64) -> (r: Result<TokenPlan, AuthServiceError>)
    ensures
        issuable_at(now as int) ==> (r matches Ok(p) && plans_tokens(p, user_id@, now as int)),
        !issuable_at(now as int) ==> r == Err::<TokenPlan, AuthServiceError>(AuthServiceError::TokenCreation),
{
    if now < 0 || now > i64::MAX - REFRESH_TOKEN_TTL_SECONDS || (now as u64) > (usize::MAX as u64) - (REFRESH_TOKEN_TTL_SECONDS as u64) {
        return Err(AuthServiceError::TokenCreation);
    }
    let access_exp = now + ACCESS_TOKEN_TTL_SECONDS;
    let refresh_exp = now + REFRESH_TOKEN_TTL_SECONDS;
    Ok(
        TokenPlan {
            access: Claims {
                sub: user_id.to_owned(),
                exp: access_exp as usize,
                iat: now as usize,
                token_type: "access".to_owned(),
            },
            refresh: Claims {
                sub: user_id.to_owned(),
                exp: refresh_exp as usize,
                iat: now as usize,
                token_type: "refresh".to_owned(),
            },
            access_expires_at: access_exp,
            refresh_expires_at: refresh_exp,
        },
    )
}

/// The tokens to sign for `user_id` now. A clock set before the Unix epoch,
/// or one so late that the expiries overflow, gives `TokenCreation`.
pub fn plan_token_pair_now(user_id: &str) -> (r: Result<TokenPlan, AuthServiceError>)
    ensures
        r matches Ok(p) ==> issuable_at(p.access.iat as int) && plans_tokens(p, user_id@, p.access.iat as int),
        r matches Err(e) ==> e == AuthServiceError::TokenCreation,
{
    match unix_time_now() {
        Some(now) => plan_token_pair(user_id, now.0),
        None => Err(AuthServiceError::TokenCreation),
    }
}

/// The token pair from a plan and its two signed tokens; a token that
/// could not be signed (`None`) fails the pair.
pub fn assemble_token_pair(plan: TokenPlan, access: Option<String>, refresh: Option<String>) -> (r: Result<
    TokenPair,
    AuthServiceError,
>)
    ensures
        access is None || refresh is None ==> r == Err::<TokenPair, AuthServiceError>(
            AuthServiceError::TokenCreation,
        ),
        access matches Some(a) ==> refresh matches Some(f) ==> (r matches Ok(pair) && pair.access_token@ == a@
            && pair.refresh_token@ == f@ && pair.access_token_expires_at == plan.access_expires_at
            && pair.refresh_token_expires_at == plan.refresh_expires_at),
{
    match (access, refresh) {
        (Some(a), Some(f)) => Ok(
            TokenPair {
                access_token: a,
                refresh_token: f,
                access_token_expires_at: plan.access_expires_at,
                refresh_token_expires_at: plan.refresh_expires_at,
            },
        ),
        _ => Err(AuthServiceError::TokenCreation),
    }
}

/// The outcome of validating a token, given what decoding it gave: the
/// claims, or `TokenValidation` when it did not decode (bad signature,
/// malformed, or expired).
pub fn validated(decoded: Option<Claims>) -> (r: Result<Claims, AuthServiceError>)
    ensures
        decoded matches Some(c) ==> r == Ok::<Claims, AuthServiceError>(c),
        decoded is None ==> r == Err::<Claims, AuthServiceError>(AuthServiceError::TokenValidation),
{
    match decoded {
        Some(c) => Ok(c),
        None => Err(AuthServiceError::TokenValidation),
    }
}

/// The user a refresh token stands for, given the outcome of validating
/// it: only a valid token of kind "refresh" is accepted.
pub fn refresh_subject(validated: Result<Claims, AuthServiceError>) -> (r: Result<String, AuthServiceError>)
    ensures
        validated matches Err(e) ==> r == Err::<String, AuthServiceError>(e),
        validated matches Ok(c) ==> (if c.token_type@ == "refresh"@ {
            r matches Ok(u) && u@ == c.sub@
        } else {
            r matches Err(AuthServiceError::InvalidInput(m)) && m@ == "not a refresh token"@
        }),
{
    match validated {
        Err(e) => Err(e),
        Ok(c) => {
            if str_eq(c.token_type.as_str(), "refresh") {
                Ok(c.sub)
            } else {
                Err(AuthServiceError::InvalidInput("not a refresh token".to_owned()))
            }
        },
    }
}

/// A successful result for a user and a token pair.
pub fn login_result(user: AuthResult, token_pair: Result<TokenPair, AuthServiceError>) -> (r: Result<
    LoginResult,
    AuthServiceError,
>)
    ensures
        token_pair matches Err(e) ==> r == Err::<LoginResult, AuthServiceError>(e),
        token_pair matches Ok(p) ==> (r matches Ok(res) && res.user_id@ == user.user_id@ && res.token_pair == p),
{
    match token_pair {
        Ok(p) => Ok(LoginResult { user_id: user.user_id, token_pair: p }),
        Err(e) => Err(e),
    }
}

} // verus!

//! Authenticating calls by their bearer token.
use vstd::prelude::*;
use crate::app::service::{AuthServiceError, Claims};
use crate::channel::status::{status_is, Code, GrpcStatus};

verus! {

/// The authenticated user of a call.
#[derive(Debug, Clone, PartialEq, Eq)]
pub struct UserId(pub String);

/// The token of an `authorization` header of the form "Bearer <token>".
pub open spec fn bearer_of(header: Seq<char>) -> Option<Seq<char>> {
    if header.len() >= 7 && header.subrange(0, 7) == "Bearer "@ {
        Some(header.subrange(7, header.len() as int))
    } else {
        None
    }
}

/// A header is a bearer header exactly when it starts with "Bearer ", of
/// whatever length; its token is all that follows.
pub proof fn lemma_bearer_of_prefix(t: Seq<char>, header: Seq<char>)
    ensures
        bearer_of("Bearer "@ + t) == Some(t),
        bearer_of(header) matches Some(u) ==> header == "Bearer "@ + u,
{
    reveal_strlit("Bearer ");
    assert(("Bearer "@ + t).subrange(0, 7) =~= "Bearer "@);
    assert(("Bearer "@ + t).subrange(7, ("Bearer "@ + t).len() as int) =~= t);
    if let Some(u) = bearer_of(header) {
        assert(header =~= "Bearer "@ + u);
    }
}

/// The token to validate, given the `authorization` header as text (`None`
/// when it is missing or not visible ASCII).
pub fn bearer_token(header: Option<&str>) -> (r: Result<String, GrpcStatus>)
    ensures
        match header {
            Some(h) if bearer_of(h@) is Some => r matches Ok(t) && t@ == bearer_of(h@)->0,
            _ => r matches Err(s) && status_is(s, Code::Unauthenticated, "invalid or expired token"@),
        },
        // Any header "Bearer <t>" gives `t`, however long; an accepted header
        // is "Bearer " followed by the token.
        forall|t: Seq<char>|
            (header matches Some(h) && h@ == #[trigger] ("Bearer "@ + t)) ==> (r matches Ok(u) && u@ == t),
        r matches Ok(u) ==> (header matches Some(h) && h@ == "Bearer "@ + u@),
{
    proof {
        reveal_strlit("Bearer ");
        if let Some(h) = header {
            lemma_bearer_of_prefix(Seq::empty(), h@);
            assert forall|t: Seq<char>| h@ == #[trigger] ("Bearer "@ + t) implies bearer_of(h@) == Some(t) by {
                lemma_bearer_of_prefix(t, h@);
            }
        }
    }
    match header {
        None => Err(GrpcStatus::unauthenticated("invalid or expired token")),
        Some(h) => {
            let n = h.unicode_len();
            if n >= 7 {
                let head = h.substring_char(0, 7);
                if crate::text::str_eq(head, "Bearer ") {
                    return Ok(h.substring_char(7, n).to_owned());
                }
            }
            Err(GrpcStatus::unauthenticated("invalid or expired token"))
        },
    }
}

/// The call's user, given the outcome of validating its token.
pub fn authorized_user(validated: Result<Claims, AuthServiceError>) -> (r: Result<UserId, GrpcStatus>)
    ensures
        match validated {
            Ok(c) => r matches Ok(u) && u.0@ == c.sub@,
            Err(_) => r matches Err(s) && status_is(s, Code::Unauthenticated, "invalid or expired token"@),
        },
{
    match validated {
        Ok(c) => Ok(UserId(c.sub)),
        Err(_) => Err(GrpcStatus::unauthenticated("invalid or expired token")),
    }
}

} // verus!

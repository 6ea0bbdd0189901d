//! Failures of LLM providers.
use vstd::prelude::*;

verus! {

/// Why a provider call failed.
#[derive(Debug, Clone, PartialEq, Eq)]
pub enum LlmError {
    RateLimit,
    Timeout,
    AuthError,
    ProviderDown,
    InvalidRequest(String),
    InvalidResponse(String),
    UnsupportedCapability { provider: String, capability: String },
    Transport(String),
    Internal(String),
}

/// Failures that may go away when the call is repeated.
pub open spec fn transient(e: LlmError) -> bool {
    ||| e is RateLimit
    ||| e is Timeout
    ||| e is ProviderDown
    ||| e is Transport
}

/// The human-readable message of an error.
pub open spec fn llm_error_message(e: LlmError) -> Seq<char> {
    match e {
        LlmError::RateLimit => "rate limited"@,
        LlmError::Timeout => "timeout"@,
        LlmError::AuthError => "authentication failed"@,
        LlmError::ProviderDown => "provider unavailable"@,
        LlmError::InvalidRequest(m) => "invalid request: "@ + m@,
        LlmError::InvalidResponse(m) => "invalid response: "@ + m@,
        LlmError::UnsupportedCapability { provider, capability } => "unsupported capability: provider="@
            + provider@ + " capability="@ + capability@,
        LlmError::Transport(m) => "transport error: "@ + m@,
        LlmError::Internal(m) => "internal: "@ + m@,
    }
}

impl LlmError {
    /// Whether repeating the call may succeed.
    pub fn is_retryable(&self) -> (r: bool)
        ensures
            r == transient(*self),
    {
        matches!(
            self,
            LlmError::RateLimit | LlmError::Timeout | LlmError::ProviderDown | LlmError::Transport(_)
        )
    }

    /// Whether another provider should be tried.
    pub fn is_fallbackable(&self) -> (r: bool)
        ensures
            r == transient(*self),
    {
        matches!(
            self,
            LlmError::RateLimit | LlmError::Timeout | LlmError::ProviderDown | LlmError::Transport(_)
        )
    }

    /// The human-readable message of the error.
    pub fn to_string(&self) -> (r: String)
        ensures
            r@ == llm_error_message(*self),
    {
        match self {
            LlmError::RateLimit => "rate limited".to_owned(),
            LlmError::Timeout => "timeout".to_owned(),
            LlmError::AuthError => "authentication failed".to_owned(),
            LlmError::ProviderDown => "provider unavailable".to_owned(),
            LlmError::InvalidRequest(m) => "invalid request: ".to_owned().concat(m.as_str()),
            LlmError::InvalidResponse(m) => "invalid response: ".to_owned().concat(m.as_str()),
            LlmError::UnsupportedCapability { provider, capability } => "unsupported capability: provider=".to_owned().concat(
                provider.as_str(),
            ).concat(" capability=").concat(capability.as_str()),
            LlmError::Transport(m) => "transport error: ".to_owned().concat(m.as_str()),
            LlmError::Internal(m) => "internal: ".to_owned().concat(m.as_str()),
        }
    }
}

/// The error a provider without streaming reports for a stream request.
pub fn unsupported_stream(provider_id: &str) -> (r: LlmError)
    ensures
        r matches LlmError::UnsupportedCapability { provider, capability } && provider@ == provider_id@
            && capability@ == "stream"@,
{
    LlmError::UnsupportedCapability { provider: provider_id.to_owned(), capability: "stream".to_owned() }
}

} // verus!

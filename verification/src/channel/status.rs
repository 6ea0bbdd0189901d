//! gRPC status codes and how the services' errors map onto them.
use vstd::prelude::*;
use crate::app::service::AuthServiceError;
use crate::channel::turn::TurnError;
use crate::domain::ports::StoreError;
use crate::text::{decimal, push_decimal};

verus! {

/// The gRPC status codes of failed calls.
#[derive(Debug, Clone, Copy, PartialEq, Eq)]
pub enum Code {

    Cancelled,
    Unknown,
    InvalidArgument,
    DeadlineExceeded,
    NotFound,
    AlreadyExists,
    PermissionDenied,
    ResourceExhausted,
    FailedPrecondition,
    Aborted,
    OutOfRange,
    Unimplemented,
    Internal,
    Unavailable,
    DataLoss,
    Unauthenticated,
}

/// A failed call's status: code and message.
#[derive(Debug, Clone, PartialEq, Eq)]
pub struct GrpcStatus {
    pub code: Code,
    pub message: String,
}

/// `s` is the status `code` with message `msg`.
pub open spec fn status_is(s: GrpcStatus, code: Code, msg: Seq<char>) -> bool {
    s.code == code && s.message@ == msg
}

impl GrpcStatus {
    pub fn new(code: Code, message: String) -> (r: Self)
        ensures
            r.code == code,
            r.message@ == message@,
    {
        GrpcStatus { code, message }
    }

    pub fn invalid_argument(message: &str) -> (r: Self)
        ensures
            status_is(r, Code::InvalidArgument, message@),
    {
        GrpcStatus { code: Code::InvalidArgument, message: message.to_owned() }
    }

    pub fn not_found(message: &str) -> (r: Self)
        ensures
            status_is(r, Code::NotFound, message@),
    {
        GrpcStatus { code: Code::NotFound, message: message.to_owned() }
    }

    pub fn unauthenticated(message: &str) -> (r: Self)
        ensures
            status_is(r, Code::Unauthenticated, message@),
    {
        GrpcStatus { code: Code::Unauthenticated, message: message.to_owned() }
    }

    pub fn internal(message: &str) -> (r: Self)
        ensures
            status_is(r, Code::Internal, message@),
    {
        GrpcStatus { code: Code::Internal, message: message.to_owned() }
    }

    pub fn unimplemented(message: &str) -> (r: Self)
        ensures
            status_is(r, Code::Unimplemented, message@),
    {
        GrpcStatus { code: Code::Unimplemented, message: message.to_owned() }
    }
}

/// The status an authentication failure is reported with.
pub open spec fn auth_error_status(e: AuthServiceError, s: GrpcStatus) -> bool {
    match e {
        AuthServiceError::InvalidCredentials => status_is(s, Code::Unauthenticated, "invalid credentials"@),
        AuthServiceError::AlreadyExists(m) => status_is(s, Code::AlreadyExists, m@),
        AuthServiceError::InvalidInput(m) => status_is(s, Code::InvalidArgument, m@),
        AuthServiceError::TokenCreation => status_is(s, Code::Internal, "authentication error"@),
        AuthServiceError::TokenValidation => status_is(s, Code::Internal, "authentication error"@),
        AuthServiceError::Internal(m) => status_is(s, Code::Internal, m@),
    }
}

/// The status a turn failure is reported with.
pub open spec fn turn_error_status(e: TurnError, s: GrpcStatus) -> bool {
    match e {
        TurnError::InvalidInput(m) => status_is(s, Code::InvalidArgument, m@),
        TurnError::SessionError(m) => status_is(s, Code::Internal, m@),
        TurnError::LlmError(_) => status_is(s, Code::Internal, "AI service error"@),
        TurnError::ToolLoopExceeded { max } => status_is(
            s,
            Code::FailedPrecondition,
            "tool loop exceeded max iterations: "@ + decimal(max as nat),
        ),
        TurnError::Internal(m) => status_is(s, Code::Internal, m@),
    }
}

/// The status a store failure is reported with.
pub open spec fn store_error_status(e: StoreError, s: GrpcStatus) -> bool {
    match e {
        StoreError::NotFound(m) => status_is(s, Code::NotFound, m@),
        StoreError::Internal(m) => status_is(s, Code::Internal, m@),
    }
}

/// Errors that have a gRPC status.
pub trait IntoGrpcStatus: Sized {
    /// Whether `s` is the status of this error.
    spec fn is_status_of(self, s: GrpcStatus) -> bool;

    fn into_status(self) -> (r: GrpcStatus)
        ensures
            self.is_status_of(r),
    ;
}

impl IntoGrpcStatus for AuthServiceError {
    open spec fn is_status_of(self, s: GrpcStatus) -> bool {
        auth_error_status(self, s)
    }

    fn into_status(self) -> (r: GrpcStatus)
    {
        match self {
            AuthServiceError::InvalidCredentials => GrpcStatus::unauthenticated("invalid credentials"),
            AuthServiceError::AlreadyExists(msg) => GrpcStatus::new(Code::AlreadyExists, msg),
            AuthServiceError::InvalidInput(msg) => GrpcStatus::new(Code::InvalidArgument, msg),
            AuthServiceError::TokenCreation => GrpcStatus::internal("authentication error"),
            AuthServiceError::TokenValidation => GrpcStatus::internal("authentication error"),
            AuthServiceError::Internal(msg) => GrpcStatus::new(Code::Internal, msg),
        }
    }
}

impl IntoGrpcStatus for TurnError {
    open spec fn is_status_of(self, s: GrpcStatus) -> bool {
        turn_error_status(self, s)
    }

    fn into_status(self) -> (r: GrpcStatus)
    {
        match self {
            TurnError::InvalidInput(msg) => GrpcStatus::new(Code::InvalidArgument, msg),
            TurnError::SessionError(msg) => GrpcStatus::new(Code::Internal, msg),
            TurnError::LlmError(_) => GrpcStatus::internal("AI service error"),
            TurnError::ToolLoopExceeded { max } => {
                let mut text = "tool loop exceeded max iterations: ".to_owned();
                push_decimal(&mut text, max as u64);
                GrpcStatus::new(Code::FailedPrecondition, text)
            },
            TurnError::Internal(msg) => GrpcStatus::new(Code::Internal, msg),
        }
    }
}

impl IntoGrpcStatus for StoreError {
    open spec fn is_status_of(self, s: GrpcStatus) -> bool {
        store_error_status(self, s)
    }

    fn into_status(self) -> (r: GrpcStatus)
    {
        match self {
            StoreError::NotFound(msg) => GrpcStatus::new(Code::NotFound, msg),
            StoreError::Internal(msg) => GrpcStatus::new(Code::Internal, msg),
        }
    }
}

/// The gRPC status of an error.
pub fn into_status<E: IntoGrpcStatus>(err: E) -> (r: GrpcStatus)
    ensures
        err.is_status_of(r),
{
    err.into_status()
}

} // verus!

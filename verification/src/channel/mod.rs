//! The rules of the gRPC channel: message shapes, status codes, and what
//! each handler checks, asks of the services, and answers. Transport,
//! metadata and the asynchronous service calls live around the library.
pub mod auth_handler;
pub mod auth_interceptor;
pub mod chat_handler;
pub mod health_handler;
pub mod proto;
pub mod session_handler;
pub mod status;
pub mod turn;

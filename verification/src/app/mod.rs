//! Application services: the agent turn, authentication tokens and the
//! built-in tools.
pub mod copy;
pub mod runtime;
pub mod service;
pub mod tools;

//! Domain model shared by every layer: event records, ports' value types,
//! sessions and token pairs.
pub mod events;
pub mod ports;
pub mod session;
pub mod token;

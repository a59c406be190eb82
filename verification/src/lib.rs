//! Link library for a CGI-style request-forwarding bridge: it turns an
//! invocation (arguments, environment, request body) into the daemon's
//! line-oriented wire protocol, resolves the daemon's socket address from
//! configuration values, and drives a bounded connection-retry state machine
//! that falls back to a fixed error document when the daemon is unreachable.

pub mod driver;
pub mod encoder;
pub mod entity;
pub mod fallback;
pub mod numtext;
pub mod resolver;

pub use numtext::number_to_text_bytes;

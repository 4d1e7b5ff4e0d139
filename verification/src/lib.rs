//! Request-ingestion core of an HTTP middleware framework.
//!
//! The library turns a transport-parsed HTTP request (method, headers,
//! request target, protocol version, socket addresses, body reader) into a
//! canonical [`request::Request`] whose URL is always a complete absolute
//! URL, or reports a normalization error. It also provides the fail-fast
//! shortcut helpers that handler code uses to abort early on failure or on
//! missing input.

pub mod request;
pub mod shortcut;
pub mod transport;


//! A multi-port TCP relay library: a contiguous range of local ports is bound,
//! each accepted connection is forwarded to one fixed upstream address, and
//! bytes are copied in both directions until each side finishes. TLS may be
//! terminated on the inbound side. This crate holds the verified core: the
//! configuration and its bind plan, the per-connection state machine, the
//! byte-exact relay model, and the TLS credential handling.
pub mod config;
pub mod relay;
pub mod session;
pub mod tls;

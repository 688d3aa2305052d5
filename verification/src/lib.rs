//! Socket-activated command trigger: verified core.
//!
//! The library receives one HTTP request's headers and body as plain values,
//! authenticates the caller through a pluggable adapter, extracts a minimal
//! execution context from the webhook payload, and decides which HTTP status
//! to answer and whether (and with which environment) the configured command
//! is launched. Listener-socket counting policy and the child environment
//! construction are part of the verified core; all I/O stays outside.

pub mod adapter;
pub mod cli;
pub mod dispatch;
pub mod executor;
pub mod hex;
pub mod mac;
pub mod sockets;
pub mod strutil;

use vstd::prelude::*;

verus! {

/// Largest number of supervisor-passed listener sockets this process accepts.
pub const MAX_SOCKETS: usize = 10;

} // verus!

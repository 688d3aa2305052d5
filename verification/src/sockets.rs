//! Listener-socket acquisition policy.
//!
//! The supervising init process hands over zero or more pre-bound listening
//! sockets; the conversion and the accept race are I/O and live outside the
//! library. The policy on how many sockets are acceptable is verified here.

use vstd::prelude::*;
use crate::MAX_SOCKETS;

verus! {

/// Fatal configuration errors, found before any request is served.
#[derive(Clone, Copy, Debug, PartialEq, Eq, Structural)]
pub enum ConfigError {
    /// The supervisor passed no listening socket.
    NoSockets,
    /// The supervisor passed more sockets than the configured bound.
    TooManySockets,
    /// The configured adapter name matches no known adapter.
    UnknownAdapter,
}

/// The listener-count policy: between one and `MAX_SOCKETS` sockets.
pub open spec fn socket_policy(n: nat) -> Result<(), ConfigError> {
    if n == 0 {
        Err(ConfigError::NoSockets)
    } else if n > MAX_SOCKETS as nat {
        Err(ConfigError::TooManySockets)
    } else {
        Ok(())
    }
}

/// Validates the number of supervisor-passed sockets: zero and more than
/// `MAX_SOCKETS` are fatal misconfigurations; any count within the bound,
/// one listener or several, is accepted.
pub fn check_socket_count(n: usize) -> (r: Result<(), ConfigError>)
    ensures
        r == socket_policy(n as nat),
{
    if n == 0 {
        Err(ConfigError::NoSockets)
    } else if n > MAX_SOCKETS {
        Err(ConfigError::TooManySockets)
    } else {
        Ok(())
    }
}

} // verus!

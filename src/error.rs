//! The conditions that keep the server from serving.

use vstd::prelude::*;

verus! {

/// Errors that can occur while starting the server. Each is fatal to startup.
#[derive(Debug, PartialEq, Eq)]
pub enum StartServerError {
    /// A socket could not be bound or served; holds the system's message.
    Io(String),
    /// The listen address is not an IP address; holds the text that was given.
    InvalidAddress(String),
    /// Discovery at the identity provider failed; holds the failure's message.
    OidcConnectionFailed(String),
}

} // verus!

//! The ways in which discovery or a connection attempt can end badly.

use vstd::prelude::*;

verus! {

/// Why an operation failed. Each kind ends the attempt in progress; nothing
/// is retried here.
#[derive(Clone, Copy, Debug, PartialEq, Eq, Structural, Hash)]
pub enum SessionError {
    /// The transport could not enumerate devices.
    DiscoveryError,
    /// The handshake did not reach the success status. A wait that was
    /// cancelled or timed out counts as this too.
    ConnectionError,
    /// The transport connected, but the controller could not be bound to the
    /// session.
    BindingError,
}

impl SessionError {
    /// A short text for the error, for messages shown to a user.
    pub fn message(&self) -> (text: &'static str)
        ensures
            text@ == self.message_text(),
    {
        match self {
            SessionError::DiscoveryError => "device discovery failed",
            SessionError::ConnectionError => "device connection failed",
            SessionError::BindingError => "controller binding failed",
        }
    }

    /// The text that [`SessionError::message`] returns.
    pub open spec fn message_text(&self) -> Seq<char> {
        match self {
            SessionError::DiscoveryError => "device discovery failed"@,
            SessionError::ConnectionError => "device connection failed"@,
            SessionError::BindingError => "controller binding failed"@,
        }
    }
}

} // verus!

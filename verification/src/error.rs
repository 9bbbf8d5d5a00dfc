//! How a call can fail.

use vstd::prelude::*;

verus! {

/// The ways in which a call ends without a result.
#[derive(Clone, Copy, Debug, PartialEq, Eq, Structural)]
pub enum CallError {
    /// The session could not be opened, a send failed, or the session was
    /// lost before the call resolved.
    Connection,
    /// A frame was not a JSON document, or lacked what its shape requires.
    Protocol,
    /// The node reported an error in a reply or in a notification.
    Node,
    /// The caller's deadline passed before the call resolved.
    Timeout,
}

impl CallError {
    /// The text that names an error.
    pub open spec fn label(self) -> Seq<char> {
        match self {
            CallError::Connection => "connection error"@,
            CallError::Protocol => "protocol error"@,
            CallError::Node => "node error"@,
            CallError::Timeout => "timeout"@,
        }
    }

    /// A short description, for messages to a user.
    pub fn describe(&self) -> (s: String)
        ensures
            s@ == self.label(),
    {
        match self {
            CallError::Connection => "connection error".to_owned(),
            CallError::Protocol => "protocol error".to_owned(),
            CallError::Node => "node error".to_owned(),
            CallError::Timeout => "timeout".to_owned(),
        }
    }
}

} // verus!

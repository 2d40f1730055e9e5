//! The kinds of failure that the background tasks distinguish.
use vstd::prelude::*;

verus! {

/// Why a background task stopped.
#[derive(Debug, Clone, Copy, PartialEq, Eq, Structural)]
pub enum ErrorKind {
    /// A transport failed or ended unexpectedly.
    Transport,
    /// The peer broke the protocol: a frame that does not parse, a frame for
    /// a sub-channel that was closed, or an acknowledgement that is stale,
    /// crossed or carries a foreign nonce.
    Protocol,
    /// The upgrade notifier was dropped without delivering a transport.
    Local,
}

impl ErrorKind {
    /// A short description of the error, for logs.
    pub fn describe(&self) -> (text: &'static str)
        ensures
            text@ == match *self {
                ErrorKind::Transport => "transport error"@,
                ErrorKind::Protocol => "protocol error"@,
                ErrorKind::Local => "upgrade notifier dropped"@,
            },
    {
        match self {
            ErrorKind::Transport => "transport error",
            ErrorKind::Protocol => "protocol error",
            ErrorKind::Local => "upgrade notifier dropped",
        }
    }
}

} // verus!

//! The ways in which the synchronizer can fail.

use vstd::prelude::*;

verus! {

/// What went wrong on the link to the audio server.
#[derive(Clone, Copy, Debug, PartialEq, Eq, Structural)]
pub enum ProtocolCode {
    /// The server, or the link to it, is not in a state in which the step could be taken;
    /// this is also how a transport that was asked to quit is reported.
    BadState,
    /// The transport's event loop ended with a failure while the connection was in use.
    TransportFailed,
}

/// A failure of the synchronizer.
///
/// `ConnectionTimeout` and `ProtocolError` end the run.  `UnexpectedFacility` and
/// `OperationError` are reported for the log only: processing goes on.
#[derive(Clone, Copy, Debug, PartialEq, Eq, Structural)]
pub enum SyncError {
    /// Every attempt to open the transport failed.
    ConnectionTimeout,
    /// The link to the server broke or was used in the wrong state.
    ProtocolError(ProtocolCode),
    /// A notification named a facility that was never subscribed to.
    UnexpectedFacility,
    /// A single query failed.
    OperationError,
}

impl SyncError {
    /// Whether the failure ends the run, so that the caller has to start over.
    pub open spec fn fatal(self) -> bool {
        self is ConnectionTimeout || self is ProtocolError
    }

    /// Computes [`SyncError::fatal`].
    pub fn is_fatal(&self) -> (fatal: bool)
        ensures
            fatal == self.fatal(),
    {
        match self {
            SyncError::ConnectionTimeout => true,
            SyncError::ProtocolError(_) => true,
            SyncError::UnexpectedFacility => false,
            SyncError::OperationError => false,
        }
    }
}

} // verus!

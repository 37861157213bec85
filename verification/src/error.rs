//! The ways in which an operation of the mirror can fail.

use vstd::prelude::*;

verus! {

/// A failure that is reported to the caller; none of them ends the process.
#[derive(Clone, Copy, Debug, PartialEq, Eq, Structural)]
pub enum GraphError {
    /// The daemon could not be reached when the session was started.
    ConnectionFailure,
    /// A lookup by id or by name found nothing.
    ResolutionFailure,
    /// A command was submitted to a session that is not running.
    ChannelClosed,
    /// The daemon supplied a property that could not be understood.
    PropertyParseFailure,
}

impl GraphError {
    /// A short description for logs and for callers without the type.
    pub fn message(&self) -> (text: &'static str)
        ensures
            text@ == match *self {
                GraphError::ConnectionFailure => "cannot reach the daemon"@,
                GraphError::ResolutionFailure => "no matching object in the graph"@,
                GraphError::ChannelClosed => "channel closed"@,
                GraphError::PropertyParseFailure => "malformed object property"@,
            },
    {
        match self {
            GraphError::ConnectionFailure => "cannot reach the daemon",
            GraphError::ResolutionFailure => "no matching object in the graph",
            GraphError::ChannelClosed => "channel closed",
            GraphError::PropertyParseFailure => "malformed object property",
        }
    }
}

} // verus!

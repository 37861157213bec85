//! The life of a daemon session as its callers see it: started once, then
//! running until a close command, then closed for good.

use vstd::prelude::*;
use crate::command::{Command, CommandView};
use crate::error::GraphError;

verus! {

/// Where a session stands.
#[derive(Clone, Copy, Debug, PartialEq, Eq, Structural)]
pub enum SessionState {
    /// Not started yet.
    Idle,
    /// Started; commands are accepted.
    Running,
    /// Stopped, or never connected; no command is accepted any more.
    Closed,
}

/// The caller's handle on a daemon session.
#[derive(Debug, PartialEq, Eq)]
pub struct Session {
    pub state: SessionState,
}

/// The state after a command was accepted: the close command closes.
pub open spec fn after_command(command: CommandView) -> SessionState {
    if command is CloseThread {
        SessionState::Closed
    } else {
        SessionState::Running
    }
}

impl Session {
    /// A session that has not been started.
    pub fn new() -> (session: Session)
        ensures
            session.state == SessionState::Idle,
    {
        Session { state: SessionState::Idle }
    }

    /// Whether commands are accepted.
    pub fn is_running(&self) -> (running: bool)
        ensures
            running == (self.state == SessionState::Running),
    {
        self.state == SessionState::Running
    }

    /// Records the outcome of the one attempt to connect to the daemon. A
    /// session that could not connect is closed and reports
    /// `ConnectionFailure`; nothing is tried again.
    pub fn start(&mut self, connected: bool) -> (outcome: Result<(), GraphError>)
        requires
            old(self).state == SessionState::Idle,
        ensures
            connected ==> outcome == Ok::<(), GraphError>(()) && final(self).state
                == SessionState::Running,
            !connected ==> outcome == Err::<(), GraphError>(GraphError::ConnectionFailure)
                && final(self).state == SessionState::Closed,
    {
        if connected {
            self.state = SessionState::Running;
            Ok(())
        } else {
            self.state = SessionState::Closed;
            Err(GraphError::ConnectionFailure)
        }
    }

    /// Admits a command to the command channel. A running session hands the
    /// command back for sending, and is closed by the close command; any
    /// other session rejects the command with `ChannelClosed` and stays as
    /// it is.
    pub fn submit(&mut self, command: Command) -> (outcome: Result<Command, GraphError>)
        ensures
            old(self).state == SessionState::Running ==> outcome == Ok::<Command, GraphError>(
                command,
            ) && final(self).state == after_command(command@),
            old(self).state != SessionState::Running ==> outcome == Err::<Command, GraphError>(
                GraphError::ChannelClosed,
            ) && final(self).state == old(self).state,
    {
        if self.state == SessionState::Running {
            match command {
                Command::CloseThread => {
                    self.state = SessionState::Closed;
                },
                _ => {},
            }
            Ok(command)
        } else {
            Err(GraphError::ChannelClosed)
        }
    }

    /// Stops the session: admits the close command, which is the last that
    /// the session accepts.
    pub fn stop(&mut self) -> (outcome: Result<Command, GraphError>)
        ensures
            old(self).state == SessionState::Running ==> outcome == Ok::<Command, GraphError>(
                Command::CloseThread,
            ) && final(self).state == SessionState::Closed,
            old(self).state != SessionState::Running ==> outcome == Err::<Command, GraphError>(
                GraphError::ChannelClosed,
            ) && final(self).state == old(self).state,
    {
        self.submit(Command::CloseThread)
    }
}

} // verus!

use pw_graph::command::Command;
use pw_graph::entity::{Direction, MediaType};
use pw_graph::error::GraphError;
use pw_graph::session::{Session, SessionState};

#[test]
fn a_new_session_is_idle() {
    let session = Session::new();
    assert_eq!(session.state, SessionState::Idle);
    assert!(!session.is_running());
}

#[test]
fn start_runs_the_session() {
    let mut session = Session::new();
    assert_eq!(session.start(true), Ok(()));
    assert_eq!(session.state, SessionState::Running);
    assert!(session.is_running());
}

#[test]
fn failure_to_connect_is_fatal_to_the_session() {
    let mut session = Session::new();
    assert_eq!(session.start(false), Err(GraphError::ConnectionFailure));
    assert_eq!(session.state, SessionState::Closed);
    assert_eq!(
        session.submit(Command::LinkPorts { input_port: 1, output_port: 2 }),
        Err(GraphError::ChannelClosed)
    );
}

#[test]
fn a_running_session_admits_commands() {
    let mut session = Session::new();
    session.start(true).unwrap();
    let command = Command::LinkPorts { input_port: 1, output_port: 2 };
    assert_eq!(session.submit(command.clone()), Ok(command));
    let by_name =
        Command::LinkNodesNameToId { output_nodes_name: "player".to_string(), input_node_id: 3 };
    assert_eq!(session.submit(by_name.clone()), Ok(by_name));
    assert!(session.is_running());
}

#[test]
fn commands_before_start_are_rejected() {
    let mut session = Session::new();
    assert_eq!(
        session.submit(Command::UnLinkPorts { input_port: 1, output_port: 2 }),
        Err(GraphError::ChannelClosed)
    );
    assert_eq!(session.stop(), Err(GraphError::ChannelClosed));
    assert_eq!(session.state, SessionState::Idle);
}

#[test]
fn commands_after_stop_are_rejected() {
    let mut session = Session::new();
    session.start(true).unwrap();
    assert_eq!(session.stop(), Ok(Command::CloseThread));
    assert_eq!(session.state, SessionState::Closed);
    assert_eq!(
        session.submit(Command::LinkPorts { input_port: 1, output_port: 2 }),
        Err(GraphError::ChannelClosed)
    );
    assert_eq!(session.stop(), Err(GraphError::ChannelClosed));
    assert_eq!(session.state, SessionState::Closed);
}

#[test]
fn submitting_the_close_command_stops_the_session() {
    let mut session = Session::new();
    session.start(true).unwrap();
    assert_eq!(session.submit(Command::CloseThread), Ok(Command::CloseThread));
    assert_eq!(session.state, SessionState::Closed);
}

#[test]
fn errors_describe_themselves() {
    assert_eq!(GraphError::ConnectionFailure.message(), "cannot reach the daemon");
    assert_eq!(GraphError::ResolutionFailure.message(), "no matching object in the graph");
    assert_eq!(GraphError::ChannelClosed.message(), "channel closed");
    assert_eq!(GraphError::PropertyParseFailure.message(), "malformed object property");
}

#[test]
fn directions_and_media_types_have_names() {
    assert_eq!(Direction::Input.name(), "Input");
    assert_eq!(Direction::Output.name(), "Output");
    assert_eq!(Direction::Unknown.name(), "");
    assert_eq!(MediaType::Audio.name(), "Audio");
    assert_eq!(MediaType::Video.name(), "Video");
    assert_eq!(MediaType::Midi.name(), "Midi");
    assert_eq!(MediaType::Unknown.name(), "");
}

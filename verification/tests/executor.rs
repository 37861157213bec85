use pw_graph::command::{Command, DaemonRequest, PortPair};
use pw_graph::entity::{Direction, MediaType, PipewireLink, PipewirePort};
use pw_graph::error::GraphError;
use pw_graph::executor::{
    execute, find_link, link_joins, link_ports, resolve_port, run_pairs, unlink_ports, Reaction,
};
use pw_graph::message::ChangeMessage;
use pw_graph::props::Properties;
use pw_graph::store::GraphStore;

fn create_node(id: u32, name: &str) -> ChangeMessage {
    ChangeMessage::CreateNode {
        id,
        permissions: 0,
        props: Properties::new(),
        name: name.to_string(),
        node_direction: Direction::Unknown,
        node_type: MediaType::Audio,
    }
}

fn create_port(id: u32, node_id: u32, name: &str, direction: Direction) -> ChangeMessage {
    ChangeMessage::CreatePort {
        id,
        permissions: 0,
        props: Properties::new(),
        node_id,
        name: name.to_string(),
        direction,
    }
}

fn create_link(id: u32, output: (u32, u32), input: (u32, u32)) -> ChangeMessage {
    ChangeMessage::CreateLink {
        id,
        permissions: 0,
        props: Properties::new(),
        input_node: input.0,
        output_node: output.0,
        input_port: input.1,
        output_port: output.1,
    }
}

fn port(id: u32, node_id: u32) -> PipewirePort {
    PipewirePort {
        id,
        permissions: 0,
        props: Properties::new(),
        node_id,
        name: String::new(),
        direction: Direction::Unknown,
    }
}

fn link(id: u32, output: (u32, u32), input: (u32, u32)) -> PipewireLink {
    PipewireLink {
        id,
        permissions: 0,
        props: Properties::new(),
        input_node_id: input.0,
        input_port_id: input.1,
        output_node_id: output.0,
        output_port_id: output.1,
    }
}

/// A player (node 1) with right and left outputs 11 and 12, and a sink
/// (node 2) with right and left inputs 21 and 22.
fn stereo_store() -> GraphStore {
    let mut store = GraphStore::new();
    store.apply_all(vec![
        create_node(1, "player"),
        create_port(11, 1, "FR", Direction::Output),
        create_port(12, 1, "FL", Direction::Output),
        create_node(2, "sink"),
        create_port(21, 2, "FR", Direction::Input),
        create_port(22, 2, "FL", Direction::Input),
    ]);
    store
}

fn link_request(output: (u32, u32), input: (u32, u32)) -> DaemonRequest {
    DaemonRequest::CreateLink {
        output_node: output.0,
        output_port: output.1,
        input_node: input.0,
        input_port: input.1,
        linger: true,
    }
}

#[test]
fn resolve_port_finds_ports_only() {
    let store = stereo_store();
    assert_eq!(resolve_port(&store, 11).map(|p| p.node_id), Some(1));
    assert!(resolve_port(&store, 1).is_none());
    assert!(resolve_port(&store, 99).is_none());
}

#[test]
fn link_ports_carries_the_four_endpoints_and_lingers() {
    let store = stereo_store();
    assert_eq!(link_ports(&store, 21, 11), Ok(link_request((1, 11), (2, 21))));
}

#[test]
fn link_ports_takes_the_owner_from_the_store() {
    let mut store = GraphStore::new();
    store.apply(create_port(11, 100, "FR", Direction::Output));
    store.apply(create_port(21, 200, "FR", Direction::Input));
    assert_eq!(link_ports(&store, 21, 11), Ok(link_request((100, 11), (200, 21))));
}

#[test]
fn link_ports_fails_where_a_port_is_missing() {
    let store = stereo_store();
    assert_eq!(link_ports(&store, 21, 99), Err(GraphError::ResolutionFailure));
    assert_eq!(link_ports(&store, 99, 11), Err(GraphError::ResolutionFailure));
    assert_eq!(link_ports(&store, 2, 11), Err(GraphError::ResolutionFailure));
    assert_eq!(link_ports(&store, 21, 1), Err(GraphError::ResolutionFailure));
}

#[test]
fn link_joins_in_either_direction() {
    let a = port(11, 1);
    let b = port(21, 2);
    assert!(link_joins(&link(5, (1, 11), (2, 21)), &a, &b));
    assert!(link_joins(&link(5, (1, 11), (2, 21)), &b, &a));
    assert!(link_joins(&link(5, (2, 21), (1, 11)), &a, &b));
    assert!(!link_joins(&link(5, (1, 11), (2, 22)), &a, &b));
    assert!(!link_joins(&link(5, (3, 11), (2, 21)), &a, &b));
    assert!(!link_joins(&link(5, (1, 11), (1, 11)), &a, &b));
}

#[test]
fn find_link_takes_the_lowest_id() {
    let a = port(11, 1);
    let b = port(21, 2);
    let links = vec![
        link(9, (1, 11), (2, 21)),
        link(4, (1, 12), (2, 21)),
        link(7, (2, 21), (1, 11)),
        link(8, (1, 11), (2, 21)),
    ];
    assert_eq!(find_link(&links, &a, &b), Some(7));
    assert_eq!(find_link(&links, &b, &a), Some(7));
    assert_eq!(find_link(&links, &a, &a), None);
    assert_eq!(find_link(&Vec::new(), &a, &b), None);
}

#[test]
fn unlink_ports_destroys_the_link_between_them() {
    let mut store = stereo_store();
    store.apply(create_link(30, (1, 11), (2, 21)));
    store.apply(create_link(31, (1, 12), (2, 22)));
    assert_eq!(unlink_ports(&store, 11, 21), Ok(DaemonRequest::DestroyObject { id: 30 }));
    assert_eq!(unlink_ports(&store, 21, 11), Ok(DaemonRequest::DestroyObject { id: 30 }));
    assert_eq!(unlink_ports(&store, 12, 22), Ok(DaemonRequest::DestroyObject { id: 31 }));
}

#[test]
fn unlink_ports_fails_without_ports_or_link() {
    let mut store = stereo_store();
    store.apply(create_link(30, (1, 11), (2, 21)));
    assert_eq!(unlink_ports(&store, 11, 22), Err(GraphError::ResolutionFailure));
    assert_eq!(unlink_ports(&store, 99, 21), Err(GraphError::ResolutionFailure));
    assert_eq!(unlink_ports(&store, 11, 99), Err(GraphError::ResolutionFailure));
    store.apply(ChangeMessage::DeleteItem { id: 30 });
    assert_eq!(unlink_ports(&store, 11, 21), Err(GraphError::ResolutionFailure));
}

#[test]
fn close_ends_the_loop_and_asks_nothing() {
    let store = stereo_store();
    assert_eq!(
        execute(&store, &Command::CloseThread),
        Reaction { requests: vec![], failed: vec![], quit: true }
    );
}

#[test]
fn execute_link_ports() {
    let store = stereo_store();
    assert_eq!(
        execute(&store, &Command::LinkPorts { input_port: 21, output_port: 11 }),
        Reaction { requests: vec![link_request((1, 11), (2, 21))], failed: vec![], quit: false }
    );
    let bad = Command::LinkPorts { input_port: 21, output_port: 99 };
    assert_eq!(
        execute(&store, &bad),
        Reaction { requests: vec![], failed: vec![bad.clone()], quit: false }
    );
}

#[test]
fn execute_unlink_ports() {
    let mut store = stereo_store();
    store.apply(create_link(30, (1, 11), (2, 21)));
    assert_eq!(
        execute(&store, &Command::UnLinkPorts { input_port: 21, output_port: 11 }),
        Reaction {
            requests: vec![DaemonRequest::DestroyObject { id: 30 }],
            failed: vec![],
            quit: false
        }
    );
    let bad = Command::UnLinkPorts { input_port: 22, output_port: 11 };
    assert_eq!(
        execute(&store, &bad),
        Reaction { requests: vec![], failed: vec![bad.clone()], quit: false }
    );
}

#[test]
fn execute_link_by_name() {
    let store = stereo_store();
    let command =
        Command::LinkNodesNameToId { output_nodes_name: "player".to_string(), input_node_id: 2 };
    assert_eq!(
        execute(&store, &command),
        Reaction {
            requests: vec![link_request((1, 11), (2, 21)), link_request((1, 12), (2, 22))],
            failed: vec![],
            quit: false
        }
    );
}

#[test]
fn execute_by_name_reports_a_failed_resolution() {
    let store = stereo_store();
    let command =
        Command::LinkNodesNameToId { output_nodes_name: "player".to_string(), input_node_id: 1 };
    assert_eq!(
        execute(&store, &command),
        Reaction { requests: vec![], failed: vec![command.clone()], quit: false }
    );
    let unlink =
        Command::UnLinkNodesNameToId { output_nodes_name: "player".to_string(), input_node_id: 9 };
    assert_eq!(
        execute(&store, &unlink),
        Reaction { requests: vec![], failed: vec![unlink.clone()], quit: false }
    );
}

#[test]
fn one_stale_port_does_not_hold_up_the_other_pairs() {
    let mut store = stereo_store();
    // The right output goes away; the player still lists it.
    store.apply(ChangeMessage::DeleteItem { id: 11 });
    let command =
        Command::LinkNodesNameToId { output_nodes_name: "player".to_string(), input_node_id: 2 };
    assert_eq!(
        execute(&store, &command),
        Reaction {
            requests: vec![link_request((1, 12), (2, 22))],
            failed: vec![Command::LinkPorts { input_port: 21, output_port: 11 }],
            quit: false
        }
    );
}

#[test]
fn execute_unlink_by_name() {
    let mut store = stereo_store();
    store.apply(create_link(30, (1, 11), (2, 21)));
    let command =
        Command::UnLinkNodesNameToId { output_nodes_name: "player".to_string(), input_node_id: 2 };
    assert_eq!(
        execute(&store, &command),
        Reaction {
            requests: vec![DaemonRequest::DestroyObject { id: 30 }],
            failed: vec![Command::UnLinkPorts { input_port: 22, output_port: 12 }],
            quit: false
        }
    );
}

#[test]
fn run_pairs_takes_each_pair_by_itself() {
    let store = stereo_store();
    let pairs = vec![
        PortPair { input_port: 21, output_port: 99 },
        PortPair { input_port: 21, output_port: 11 },
        PortPair { input_port: 98, output_port: 12 },
        PortPair { input_port: 22, output_port: 12 },
    ];
    assert_eq!(
        run_pairs(&store, &pairs, false),
        Reaction {
            requests: vec![link_request((1, 11), (2, 21)), link_request((1, 12), (2, 22))],
            failed: vec![
                Command::LinkPorts { input_port: 21, output_port: 99 },
                Command::LinkPorts { input_port: 98, output_port: 12 },
            ],
            quit: false
        }
    );
    assert_eq!(
        run_pairs(&store, &Vec::new(), true),
        Reaction { requests: vec![], failed: vec![], quit: false }
    );
}

use pw_graph::entity::{Direction, MediaType, PipewireData};
use pw_graph::message::ChangeMessage;
use pw_graph::props::Properties;
use pw_graph::store::GraphStore;

fn create_node(id: u32, name: &str, direction: Direction) -> ChangeMessage {
    ChangeMessage::CreateNode {
        id,
        permissions: 0o700,
        props: Properties::new(),
        name: name.to_string(),
        node_direction: direction,
        node_type: MediaType::Audio,
    }
}

fn create_port(id: u32, node_id: u32, name: &str, direction: Direction) -> ChangeMessage {
    ChangeMessage::CreatePort {
        id,
        permissions: 0o500,
        props: Properties::new(),
        node_id,
        name: name.to_string(),
        direction,
    }
}

fn create_link(id: u32, output: (u32, u32), input: (u32, u32)) -> ChangeMessage {
    ChangeMessage::CreateLink {
        id,
        permissions: 0,
        props: Properties::new(),
        input_node: input.0,
        output_node: output.0,
        input_port: input.1,
        output_port: output.1,
    }
}

fn sorted_ids(store: &GraphStore) -> Vec<u32> {
    let mut ids = store.ids();
    ids.sort();
    ids
}

#[test]
fn new_store_is_empty() {
    let store = GraphStore::new();
    assert_eq!(store.len(), 0);
    assert!(store.ids().is_empty());
    assert!(store.get_nodes().is_empty());
    assert!(store.get_ports().is_empty());
    assert!(store.get_links().is_empty());
    assert!(store.get(1).is_none());
    assert!(!store.contains(1));
}

#[test]
fn create_node_starts_without_ports() {
    let mut store = GraphStore::new();
    store.apply(create_node(7, "speaker", Direction::Input));
    assert_eq!(store.len(), 1);
    assert!(store.contains(7));
    match store.get(7) {
        Some(PipewireData::Node(node)) => {
            assert_eq!(node.id, 7);
            assert_eq!(node.permissions, 0o700);
            assert_eq!(node.name, "speaker");
            assert_eq!(node.node_direction, Direction::Input);
            assert_eq!(node.node_type, MediaType::Audio);
            assert!(node.ports.is_empty());
        }
        other => panic!("expected a node, found {:?}", other),
    }
}

#[test]
fn create_node_twice_replaces_the_entry() {
    let mut store = GraphStore::new();
    store.apply(create_node(7, "first", Direction::Input));
    store.apply(create_port(8, 7, "FL", Direction::Input));
    store.apply(create_node(7, "second", Direction::Output));
    assert_eq!(store.len(), 2);
    let nodes = store.get_nodes();
    assert_eq!(nodes.len(), 1);
    assert_eq!(nodes[0].id, 7);
    assert_eq!(nodes[0].name, "second");
    assert_eq!(nodes[0].node_direction, Direction::Output);
    assert!(nodes[0].ports.is_empty());
}

#[test]
fn create_port_is_copied_into_its_node() {
    let mut store = GraphStore::new();
    store.apply(create_node(1, "mic", Direction::Output));
    store.apply(create_port(10, 1, "capture_FL", Direction::Output));
    store.apply(create_port(11, 1, "capture_FR", Direction::Output));
    assert_eq!(sorted_ids(&store), vec![1, 10, 11]);
    let nodes = store.get_nodes();
    assert_eq!(nodes.len(), 1);
    let names: Vec<&str> = nodes[0].ports.iter().map(|port| port.name.as_str()).collect();
    assert_eq!(names, vec!["capture_FL", "capture_FR"]);
    assert_eq!(nodes[0].ports[0].id, 10);
    assert_eq!(nodes[0].ports[0].node_id, 1);
    assert_eq!(nodes[0].ports[1].id, 11);
    let mut port_ids: Vec<u32> = store.get_ports().iter().map(|port| port.id).collect();
    port_ids.sort();
    assert_eq!(port_ids, vec![10, 11]);
}

#[test]
fn create_port_without_its_node_is_stored_alone() {
    let mut store = GraphStore::new();
    store.apply(create_port(10, 1, "FL", Direction::Output));
    assert_eq!(store.len(), 1);
    assert!(store.get_nodes().is_empty());
    assert_eq!(store.get_ports().len(), 1);
    // The node arrives later: it does not pick the port up.
    store.apply(create_node(1, "late", Direction::Output));
    assert!(store.get_nodes()[0].ports.is_empty());
}

#[test]
fn create_port_whose_owner_id_holds_a_link_changes_nothing_else() {
    let mut store = GraphStore::new();
    store.apply(create_link(1, (2, 3), (4, 5)));
    store.apply(create_port(10, 1, "FL", Direction::Output));
    assert_eq!(store.len(), 2);
    assert_eq!(store.get_links().len(), 1);
    assert_eq!(store.get_links()[0].output_node_id, 2);
}

#[test]
fn create_port_under_the_id_of_its_own_node_replaces_the_node() {
    let mut store = GraphStore::new();
    store.apply(create_node(5, "n", Direction::Output));
    store.apply(create_port(5, 5, "FL", Direction::Output));
    assert_eq!(store.len(), 1);
    assert!(store.get_nodes().is_empty());
    assert_eq!(store.get_ports().len(), 1);
}

#[test]
fn cached_ports_survive_the_removal_of_the_port() {
    let mut store = GraphStore::new();
    store.apply(create_node(1, "mic", Direction::Output));
    store.apply(create_port(10, 1, "FL", Direction::Output));
    store.apply(ChangeMessage::DeleteItem { id: 10 });
    assert_eq!(sorted_ids(&store), vec![1]);
    assert!(store.get_ports().is_empty());
    let nodes = store.get_nodes();
    assert_eq!(nodes[0].ports.len(), 1);
    assert_eq!(nodes[0].ports[0].id, 10);
}

#[test]
fn removing_a_node_leaves_its_ports() {
    let mut store = GraphStore::new();
    store.apply(create_node(1, "mic", Direction::Output));
    store.apply(create_port(10, 1, "FL", Direction::Output));
    store.apply(ChangeMessage::DeleteItem { id: 1 });
    assert_eq!(sorted_ids(&store), vec![10]);
    assert_eq!(store.get_ports()[0].node_id, 1);
}

#[test]
fn delete_of_an_unknown_id_is_a_no_op() {
    let mut store = GraphStore::new();
    store.apply(create_node(1, "mic", Direction::Output));
    store.apply(ChangeMessage::DeleteItem { id: 99 });
    assert_eq!(sorted_ids(&store), vec![1]);
}

#[test]
fn create_link_records_the_four_endpoints() {
    let mut store = GraphStore::new();
    store.apply(create_link(30, (1, 10), (2, 20)));
    let links = store.get_links();
    assert_eq!(links.len(), 1);
    assert_eq!(links[0].id, 30);
    assert_eq!(links[0].output_node_id, 1);
    assert_eq!(links[0].output_port_id, 10);
    assert_eq!(links[0].input_node_id, 2);
    assert_eq!(links[0].input_port_id, 20);
}

#[test]
fn one_id_holds_one_object_of_any_kind() {
    let mut store = GraphStore::new();
    store.apply(create_node(4, "n", Direction::Input));
    store.apply(create_link(4, (1, 10), (2, 20)));
    assert_eq!(store.len(), 1);
    assert!(store.get_nodes().is_empty());
    assert_eq!(store.get_links().len(), 1);
}

#[test]
fn replay_keeps_what_was_created_last_and_not_deleted() {
    let mut store = GraphStore::new();
    store.apply_all(vec![
        create_node(1, "a", Direction::Input),
        create_node(2, "b", Direction::Output),
        ChangeMessage::DeleteItem { id: 1 },
        create_port(3, 2, "FL", Direction::Output),
        create_node(1, "c", Direction::Input),
        ChangeMessage::DeleteItem { id: 2 },
        ChangeMessage::DeleteItem { id: 5 },
        create_link(6, (2, 3), (1, 9)),
        ChangeMessage::DeleteItem { id: 6 },
    ]);
    assert_eq!(sorted_ids(&store), vec![1, 3]);
    assert_eq!(store.get_nodes()[0].name, "c");
}

#[test]
fn replay_is_sensitive_to_order() {
    let mut first = GraphStore::new();
    first.apply_all(vec![create_node(1, "a", Direction::Input), ChangeMessage::DeleteItem { id: 1 }]);
    let mut second = GraphStore::new();
    second.apply_all(vec![ChangeMessage::DeleteItem { id: 1 }, create_node(1, "a", Direction::Input)]);
    assert_eq!(first.len(), 0);
    assert_eq!(sorted_ids(&second), vec![1]);
}

#[test]
fn apply_all_equals_apply_one_by_one() {
    let mut at_once = GraphStore::new();
    at_once.apply_all(vec![
        create_node(1, "a", Direction::Input),
        create_port(2, 1, "FR", Direction::Input),
        create_port(3, 1, "FL", Direction::Input),
    ]);
    let mut stepwise = GraphStore::new();
    stepwise.apply(create_node(1, "a", Direction::Input));
    stepwise.apply(create_port(2, 1, "FR", Direction::Input));
    stepwise.apply(create_port(3, 1, "FL", Direction::Input));
    assert_eq!(at_once.get_nodes(), stepwise.get_nodes());
    assert_eq!(sorted_ids(&at_once), sorted_ids(&stepwise));
}

#[test]
fn snapshots_by_direction_lie_within_all_nodes() {
    let mut store = GraphStore::new();
    store.apply(create_node(1, "in", Direction::Input));
    store.apply(create_node(2, "out", Direction::Output));
    store.apply(create_node(3, "odd", Direction::Unknown));
    store.apply(create_node(4, "in2", Direction::Input));
    let mut all: Vec<u32> = store.get_nodes().iter().map(|node| node.id).collect();
    let mut inputs: Vec<u32> =
        store.get_nodes_by_direction(Direction::Input).iter().map(|node| node.id).collect();
    let mut outputs: Vec<u32> =
        store.get_nodes_by_direction(Direction::Output).iter().map(|node| node.id).collect();
    all.sort();
    inputs.sort();
    outputs.sort();
    assert_eq!(all, vec![1, 2, 3, 4]);
    assert_eq!(inputs, vec![1, 4]);
    assert_eq!(outputs, vec![2]);
    assert!(!inputs.contains(&3) && !outputs.contains(&3));
    let unknown = store.get_nodes_by_direction(Direction::Unknown);
    assert_eq!(unknown.len(), 1);
    assert_eq!(unknown[0].id, 3);
}

#[test]
fn snapshots_are_independent_copies() {
    let mut store = GraphStore::new();
    store.apply(create_node(1, "mic", Direction::Output));
    let before = store.get_nodes();
    store.apply(create_port(10, 1, "FL", Direction::Output));
    store.apply(ChangeMessage::DeleteItem { id: 1 });
    assert_eq!(before.len(), 1);
    assert_eq!(before[0].name, "mic");
    assert!(before[0].ports.is_empty());
}

use pw_graph::entity::{Direction, MediaType};
use pw_graph::error::GraphError;
use pw_graph::message::ChangeMessage;
use pw_graph::props::Properties;
use pw_graph::store::GraphStore;
use pw_graph::translate::{
    media_type, node_direction, port_direction, removal, save_link, save_node, save_port,
    translate, GlobalObject, ObjectKind,
};

fn raw(pairs: &[(&str, &str)]) -> Vec<(String, String)> {
    pairs.iter().map(|(key, value)| (key.to_string(), value.to_string())).collect()
}

fn object(id: u32, kind: ObjectKind, props: Option<Vec<(String, String)>>) -> GlobalObject {
    GlobalObject { id, kind, permissions: 0o640, props }
}

fn link_props() -> Vec<(String, String)> {
    raw(&[
        ("link.output.node", "1"),
        ("link.output.port", "10"),
        ("link.input.node", "2"),
        ("link.input.port", "20"),
    ])
}

#[test]
fn node_takes_its_nick_as_name() {
    let props = raw(&[("node.name", "alsa_output"), ("node.nick", "Speakers"), ("media.class", "Audio/Sink")]);
    match save_node(5, 3, &props) {
        ChangeMessage::CreateNode { id, permissions, props, name, node_direction, node_type } => {
            assert_eq!(id, 5);
            assert_eq!(permissions, 3);
            assert_eq!(name, "Speakers");
            assert_eq!(node_direction, Direction::Input);
            assert_eq!(node_type, MediaType::Audio);
            assert_eq!(props.len(), 3);
            assert_eq!(props.get("node.name"), Some(&"alsa_output".to_string()));
            assert_eq!(props.get("media.class"), Some(&"Audio/Sink".to_string()));
        }
        other => panic!("expected CreateNode, found {:?}", other),
    }
}

#[test]
fn node_falls_back_to_its_name_and_then_to_empty() {
    match save_node(1, 0, &raw(&[("node.name", "alsa_input")])) {
        ChangeMessage::CreateNode { name, node_direction, node_type, .. } => {
            assert_eq!(name, "alsa_input");
            assert_eq!(node_direction, Direction::Unknown);
            assert_eq!(node_type, MediaType::Unknown);
        }
        other => panic!("expected CreateNode, found {:?}", other),
    }
    match save_node(1, 0, &raw(&[])) {
        ChangeMessage::CreateNode { name, props, .. } => {
            assert_eq!(name, "");
            assert_eq!(props.len(), 0);
        }
        other => panic!("expected CreateNode, found {:?}", other),
    }
}

#[test]
fn node_reads_the_first_of_two_values_and_stores_the_last() {
    let props = raw(&[("node.name", "first"), ("node.name", "second")]);
    match save_node(1, 0, &props) {
        ChangeMessage::CreateNode { name, props, .. } => {
            assert_eq!(name, "first");
            assert_eq!(props.len(), 1);
            assert_eq!(props.get("node.name"), Some(&"second".to_string()));
        }
        other => panic!("expected CreateNode, found {:?}", other),
    }
}

#[test]
fn media_class_gives_the_media_type() {
    let text = |s: &str| s.to_string();
    assert_eq!(media_type(Some(&text("Audio/Sink"))), MediaType::Audio);
    assert_eq!(media_type(Some(&text("Stream/Output/Audio"))), MediaType::Audio);
    assert_eq!(media_type(Some(&text("Video/Source"))), MediaType::Video);
    assert_eq!(media_type(Some(&text("Midi/Bridge"))), MediaType::Midi);
    assert_eq!(media_type(Some(&text("Audio/Video"))), MediaType::Audio);
    assert_eq!(media_type(Some(&text("audio"))), MediaType::Unknown);
    assert_eq!(media_type(Some(&text(""))), MediaType::Unknown);
    assert_eq!(media_type(None), MediaType::Unknown);
}

#[test]
fn media_class_gives_the_node_direction() {
    let text = |s: &str| s.to_string();
    assert_eq!(node_direction(Some(&text("Audio/Sink"))), Direction::Input);
    assert_eq!(node_direction(Some(&text("Stream/Input/Audio"))), Direction::Input);
    assert_eq!(node_direction(Some(&text("Audio/Source"))), Direction::Output);
    assert_eq!(node_direction(Some(&text("Stream/Output/Audio"))), Direction::Output);
    assert_eq!(node_direction(Some(&text("Output/Sink"))), Direction::Input);
    assert_eq!(node_direction(Some(&text("Audio/Duplex"))), Direction::Unknown);
    assert_eq!(node_direction(Some(&text("sink"))), Direction::Unknown);
    assert_eq!(node_direction(None), Direction::Unknown);
}

#[test]
fn direction_property_gives_the_port_direction() {
    let text = |s: &str| s.to_string();
    assert_eq!(port_direction(Some(&text("in"))), Direction::Input);
    assert_eq!(port_direction(Some(&text("out"))), Direction::Output);
    assert_eq!(port_direction(Some(&text("input"))), Direction::Input);
    assert_eq!(port_direction(Some(&text("out-in"))), Direction::Input);
    assert_eq!(port_direction(Some(&text("IN"))), Direction::Unknown);
    assert_eq!(port_direction(Some(&text(""))), Direction::Unknown);
    assert_eq!(port_direction(None), Direction::Unknown);
}

#[test]
fn port_reads_owner_name_and_direction() {
    let props = raw(&[("node.id", "42"), ("port.name", "playback_FL"), ("port.direction", "in")]);
    assert_eq!(
        save_port(7, 1, &props),
        Ok(ChangeMessage::CreatePort {
            id: 7,
            permissions: 1,
            props: Properties::from_pairs(&props),
            node_id: 42,
            name: "playback_FL".to_string(),
            direction: Direction::Input,
        })
    );
}

#[test]
fn port_without_name_or_direction_gets_defaults() {
    let props = raw(&[("node.id", "4294967295")]);
    match save_port(7, 1, &props) {
        Ok(ChangeMessage::CreatePort { node_id, name, direction, .. }) => {
            assert_eq!(node_id, u32::MAX);
            assert_eq!(name, "");
            assert_eq!(direction, Direction::Unknown);
        }
        other => panic!("expected CreatePort, found {:?}", other),
    }
}

#[test]
fn port_without_a_readable_owner_is_a_parse_failure() {
    let missing = raw(&[("port.name", "x")]);
    assert_eq!(save_port(7, 1, &missing), Err(GraphError::PropertyParseFailure));
    for bad in ["", "abc", "-1", " 1", "1 ", "1.0", "4294967296", "+", "0x10", "1_0", "٣"] {
        let props = raw(&[("node.id", bad)]);
        assert_eq!(save_port(7, 1, &props), Err(GraphError::PropertyParseFailure), "{:?}", bad);
    }
}

#[test]
fn owner_ids_are_read_as_decimal_numbers() {
    for (text, value) in [("0", 0u32), ("42", 42), ("+7", 7), ("007", 7), ("4294967295", u32::MAX)] {
        let props = raw(&[("node.id", text)]);
        match save_port(1, 0, &props) {
            Ok(ChangeMessage::CreatePort { node_id, .. }) => assert_eq!(node_id, value),
            other => panic!("expected CreatePort for {:?}, found {:?}", text, other),
        }
    }
}

#[test]
fn link_is_reported_the_first_time_only() {
    let mut store = GraphStore::new();
    let first = save_link(30, 2, &link_props(), &store);
    let message = match first {
        Ok(Some(message)) => message,
        other => panic!("expected a message, found {:?}", other),
    };
    assert_eq!(
        message,
        ChangeMessage::CreateLink {
            id: 30,
            permissions: 2,
            props: Properties::from_pairs(&link_props()),
            input_node: 2,
            output_node: 1,
            input_port: 20,
            output_port: 10,
        }
    );
    store.apply(message);
    assert_eq!(save_link(30, 2, &link_props(), &store), Ok(None));
    // A link that is held is not read again, whatever its properties say.
    assert_eq!(save_link(30, 2, &raw(&[]), &store), Ok(None));
}

#[test]
fn link_under_the_id_of_a_node_is_reported() {
    let mut store = GraphStore::new();
    store.apply(save_node(30, 0, &raw(&[])));
    assert!(matches!(save_link(30, 0, &link_props(), &store), Ok(Some(_))));
}

#[test]
fn link_with_an_unreadable_endpoint_is_a_parse_failure() {
    let store = GraphStore::new();
    for missing in ["link.output.node", "link.output.port", "link.input.node", "link.input.port"] {
        let props: Vec<(String, String)> =
            link_props().into_iter().filter(|(key, _)| key != missing).collect();
        assert_eq!(save_link(1, 0, &props, &store), Err(GraphError::PropertyParseFailure));
        let mut garbled = link_props();
        for pair in garbled.iter_mut() {
            if pair.0 == missing {
                pair.1 = "x".to_string();
            }
        }
        assert_eq!(save_link(1, 0, &garbled, &store), Err(GraphError::PropertyParseFailure));
    }
}

#[test]
fn removal_is_reported_for_any_id() {
    assert_eq!(removal(9), ChangeMessage::DeleteItem { id: 9 });
}

#[test]
fn translate_goes_by_the_kind_of_object() {
    let store = GraphStore::new();
    assert_eq!(translate(&object(1, ObjectKind::Other, None), &store), Ok(None));
    assert_eq!(translate(&object(1, ObjectKind::Other, Some(raw(&[]))), &store), Ok(None));
    assert!(matches!(
        translate(&object(1, ObjectKind::Node, Some(raw(&[("node.name", "n")]))), &store),
        Ok(Some(ChangeMessage::CreateNode { id: 1, permissions: 0o640, .. }))
    ));
    assert!(matches!(
        translate(&object(2, ObjectKind::Port, Some(raw(&[("node.id", "1")]))), &store),
        Ok(Some(ChangeMessage::CreatePort { id: 2, node_id: 1, .. }))
    ));
    assert!(matches!(
        translate(&object(3, ObjectKind::Link, Some(link_props())), &store),
        Ok(Some(ChangeMessage::CreateLink { id: 3, .. }))
    ));
}

#[test]
fn translate_reports_missing_properties() {
    let store = GraphStore::new();
    for kind in [ObjectKind::Node, ObjectKind::Port, ObjectKind::Link] {
        assert_eq!(translate(&object(1, kind, None), &store), Err(GraphError::PropertyParseFailure));
    }
    assert_eq!(
        translate(&object(2, ObjectKind::Port, Some(raw(&[]))), &store),
        Err(GraphError::PropertyParseFailure)
    );
}

#[test]
fn one_malformed_object_does_not_stop_the_mirror() {
    let mut store = GraphStore::new();
    let announced = vec![
        object(1, ObjectKind::Node, Some(raw(&[("node.name", "mic")]))),
        object(2, ObjectKind::Port, Some(raw(&[("node.id", "oops")]))),
        object(3, ObjectKind::Port, Some(raw(&[("node.id", "1"), ("port.name", "FL")]))),
    ];
    let mut failures = 0;
    for item in &announced {
        match translate(item, &store) {
            Ok(Some(message)) => store.apply(message),
            Ok(None) => {}
            Err(error) => {
                assert_eq!(error, GraphError::PropertyParseFailure);
                failures += 1;
            }
        }
    }
    assert_eq!(failures, 1);
    assert_eq!(store.len(), 2);
    assert_eq!(store.get_nodes()[0].ports.len(), 1);
}

//! The event translator: from what the daemon's registry announces to the
//! change messages that the aggregator applies.

use vstd::prelude::*;
use crate::entity::{Direction, LinkView, MediaType, NodeView, PipewireData, PortView};
use crate::error::GraphError;
use crate::message::{ChangeMessage, MessageView};
use crate::props::{collected, lookup, pairs_view, value_of, Pair, Properties};
use crate::store::{Graph, GraphStore};
use crate::text::{contains, decimal_u32, is_substring, parse_u32};

verus! {

/// The type of a global object, as far as the mirror tells them apart.
#[derive(Clone, Copy, Debug, PartialEq, Eq, Structural)]
pub enum ObjectKind {
    Node,
    Port,
    Link,
    /// Any other type; the mirror takes no note of such objects.
    Other,
}

/// A global object as the registry announces it.
#[derive(Debug, PartialEq, Eq)]
pub struct GlobalObject {
    pub id: u32,
    pub kind: ObjectKind,
    /// The permission bits.
    pub permissions: u32,
    /// The object's properties in the daemon's order, if it came with any.
    pub props: Option<Vec<(String, String)>>,
}

/// An announced object as mathematics.
pub struct ObjectView {
    pub id: u32,
    pub kind: ObjectKind,
    pub permissions: u32,
    pub props: Option<Seq<Pair>>,
}

impl View for GlobalObject {
    type V = ObjectView;

    open spec fn view(&self) -> ObjectView {
        ObjectView {
            id: self.id,
            kind: self.kind,
            permissions: self.permissions,
            props: match self.props {
                Some(raw) => Some(pairs_view(raw@)),
                None => None,
            },
        }
    }
}

/// The media type that a media class announces.
pub open spec fn media_type_of(class: Option<Seq<char>>) -> MediaType {
    match class {
        Some(class) => if is_substring(class, "Audio"@) {
            MediaType::Audio
        } else if is_substring(class, "Video"@) {
            MediaType::Video
        } else if is_substring(class, "Midi"@) {
            MediaType::Midi
        } else {
            MediaType::Unknown
        },
        None => MediaType::Unknown,
    }
}

/// The direction that a media class announces for a node.
pub open spec fn node_direction_of(class: Option<Seq<char>>) -> Direction {
    match class {
        Some(class) => if is_substring(class, "Input"@) || is_substring(class, "Sink"@) {
            Direction::Input
        } else if is_substring(class, "Output"@) || is_substring(class, "Source"@) {
            Direction::Output
        } else {
            Direction::Unknown
        },
        None => Direction::Unknown,
    }
}

/// The direction that the direction property announces for a port.
pub open spec fn port_direction_of(direction: Option<Seq<char>>) -> Direction {
    match direction {
        Some(direction) => if is_substring(direction, "in"@) {
            Direction::Input
        } else if is_substring(direction, "out"@) {
            Direction::Output
        } else {
            Direction::Unknown
        },
        None => Direction::Unknown,
    }
}

/// The value, or the empty text where there is none.
pub open spec fn or_empty(value: Option<Seq<char>>) -> Seq<char> {
    match value {
        Some(text) => text,
        None => Seq::empty(),
    }
}

/// The display name of a node: its nick, else its name, else empty.
pub open spec fn node_name_of(raw: Seq<Pair>) -> Seq<char> {
    match value_of(raw, "node.nick"@) {
        Some(nick) => nick,
        None => or_empty(value_of(raw, "node.name"@)),
    }
}

/// The id that a property holds, if the property is there and is a number.
pub open spec fn id_property(raw: Seq<Pair>, key: Seq<char>) -> Option<u32> {
    match value_of(raw, key) {
        Some(text) => decimal_u32(text),
        None => None,
    }
}

/// The message for an announced node.
pub open spec fn node_message(id: u32, permissions: u32, raw: Seq<Pair>) -> MessageView {
    MessageView::CreateNode(
        NodeView {
            id,
            permissions,
            props: collected(raw),
            name: node_name_of(raw),
            node_direction: node_direction_of(value_of(raw, "media.class"@)),
            node_type: media_type_of(value_of(raw, "media.class"@)),
            ports: Seq::empty(),
        },
    )
}

/// The message for an announced port, if its owning node can be told.
pub open spec fn port_message(id: u32, permissions: u32, raw: Seq<Pair>) -> Option<MessageView> {
    match id_property(raw, "node.id"@) {
        Some(node_id) => Some(
            MessageView::CreatePort(
                PortView {
                    id,
                    permissions,
                    props: collected(raw),
                    node_id,
                    name: or_empty(value_of(raw, "port.name"@)),
                    direction: port_direction_of(value_of(raw, "port.direction"@)),
                },
            ),
        ),
        None => None,
    }
}

/// The message for an announced link, if all four endpoints can be told.
pub open spec fn link_message(id: u32, permissions: u32, raw: Seq<Pair>) -> Option<MessageView> {
    match (
        id_property(raw, "link.output.node"@),
        id_property(raw, "link.output.port"@),
        id_property(raw, "link.input.node"@),
        id_property(raw, "link.input.port"@),
    ) {
        (Some(output_node), Some(output_port), Some(input_node), Some(input_port)) => Some(
            MessageView::CreateLink(
                LinkView {
                    id,
                    permissions,
                    props: collected(raw),
                    input_node_id: input_node,
                    input_port_id: input_port,
                    output_node_id: output_node,
                    output_port_id: output_port,
                },
            ),
        ),
        _ => None,
    }
}

/// The graph holds a link under the id.
pub open spec fn holds_link(graph: Graph, id: u32) -> bool {
    graph.contains_key(id) && graph[id] is Link
}

/// What an announced object is translated to: a message, nothing for an
/// object of another type and for a link that the graph already holds, or a
/// failure for properties that are missing or cannot be understood.
pub open spec fn translation(graph: Graph, object: ObjectView) -> Result<
    Option<MessageView>,
    GraphError,
> {
    match object.kind {
        ObjectKind::Other => Ok(None),
        _ => match object.props {
            None => Err(GraphError::PropertyParseFailure),
            Some(raw) => match object.kind {
                ObjectKind::Node => Ok(Some(node_message(object.id, object.permissions, raw))),
                ObjectKind::Port => match port_message(object.id, object.permissions, raw) {
                    Some(message) => Ok(Some(message)),
                    None => Err(GraphError::PropertyParseFailure),
                },
                _ => if holds_link(graph, object.id) {
                    Ok(None)
                } else {
                    match link_message(object.id, object.permissions, raw) {
                        Some(message) => Ok(Some(message)),
                        None => Err(GraphError::PropertyParseFailure),
                    }
                },
            },
        },
    }
}

/// The media type that a media class announces.
pub fn media_type(class: Option<&String>) -> (media: MediaType)
    ensures
        media == media_type_of(
            match class {
                Some(text) => Some(text@),
                None => None,
            },
        ),
{
    match class {
        Some(class) => {
            if contains(class.as_str(), "Audio") {
                MediaType::Audio
            } else if contains(class.as_str(), "Video") {
                MediaType::Video
            } else if contains(class.as_str(), "Midi") {
                MediaType::Midi
            } else {
                MediaType::Unknown
            }
        },
        None => MediaType::Unknown,
    }
}

/// The direction that a media class announces for a node.
pub fn node_direction(class: Option<&String>) -> (direction: Direction)
    ensures
        direction == node_direction_of(
            match class {
                Some(text) => Some(text@),
                None => None,
            },
        ),
{
    match class {
        Some(class) => {
            if contains(class.as_str(), "Input") || contains(class.as_str(), "Sink") {
                Direction::Input
            } else if contains(class.as_str(), "Output") || contains(class.as_str(), "Source") {
                Direction::Output
            } else {
                Direction::Unknown
            }
        },
        None => Direction::Unknown,
    }
}

/// The direction that the direction property announces for a port.
pub fn port_direction(direction: Option<&String>) -> (facing: Direction)
    ensures
        facing == port_direction_of(
            match direction {
                Some(text) => Some(text@),
                None => None,
            },
        ),
{
    match direction {
        Some(direction) => {
            if contains(direction.as_str(), "in") {
                Direction::Input
            } else if contains(direction.as_str(), "out") {
                Direction::Output
            } else {
                Direction::Unknown
            }
        },
        None => Direction::Unknown,
    }
}

/// A copy of the value, or the empty text where there is none.
fn text_or_empty(value: Option<&String>) -> (text: String)
    ensures
        text@ == or_empty(
            match value {
                Some(v) => Some(v@),
                None => None,
            },
        ),
{
    match value {
        Some(text) => text.clone(),
        None => String::new(),
    }
}

/// The id that a property holds, if the property is there and is a number.
fn read_id(raw: &Vec<(String, String)>, key: &str) -> (id: Option<u32>)
    ensures
        id == id_property(pairs_view(raw@), key@),
{
    match lookup(raw, key) {
        Some(text) => parse_u32(text.as_str()),
        None => None,
    }
}

/// The message for an announced node.
pub fn save_node(id: u32, permissions: u32, raw: &Vec<(String, String)>) -> (message: ChangeMessage)
    ensures
        message@ == node_message(id, permissions, pairs_view(raw@)),
{
    let props = Properties::from_pairs(raw);
    let name = match lookup(raw, "node.nick") {
        Some(nick) => nick.clone(),
        None => text_or_empty(lookup(raw, "node.name")),
    };
    let class = lookup(raw, "media.class");
    ChangeMessage::CreateNode {
        id,
        permissions,
        props,
        name,
        node_direction: node_direction(class),
        node_type: media_type(class),
    }
}

/// The message for an announced port, or `PropertyParseFailure` where the id
/// of its owning node is missing or is no number.
pub fn save_port(id: u32, permissions: u32, raw: &Vec<(String, String)>) -> (outcome: Result<
    ChangeMessage,
    GraphError,
>)
    ensures
        match port_message(id, permissions, pairs_view(raw@)) {
            Some(expected) => outcome matches Ok(message) && message@ == expected,
            None => outcome == Err::<ChangeMessage, GraphError>(GraphError::PropertyParseFailure),
        },
{
    let node_id = match read_id(raw, "node.id") {
        Some(node_id) => node_id,
        None => {
            return Err(GraphError::PropertyParseFailure);
        },
    };
    Ok(
        ChangeMessage::CreatePort {
            id,
            permissions,
            props: Properties::from_pairs(raw),
            node_id,
            name: text_or_empty(lookup(raw, "port.name")),
            direction: port_direction(lookup(raw, "port.direction")),
        },
    )
}

/// The message for an announced link: none where the store already holds a
/// link under the id, and `PropertyParseFailure` where one of the four
/// endpoint ids is missing or is no number.
pub fn save_link(id: u32, permissions: u32, raw: &Vec<(String, String)>, store: &GraphStore) -> (outcome:
    Result<Option<ChangeMessage>, GraphError>)
    ensures
        if holds_link(store@, id) {
            outcome matches Ok(None)
        } else {
            match link_message(id, permissions, pairs_view(raw@)) {
                Some(expected) => outcome matches Ok(Some(message)) && message@ == expected,
                None => outcome == Err::<Option<ChangeMessage>, GraphError>(
                    GraphError::PropertyParseFailure,
                ),
            }
        },
{
    match store.get(id) {
        Some(PipewireData::Link(_)) => {
            return Ok(None);
        },
        _ => {},
    }
    let output_node = read_id(raw, "link.output.node");
    let output_port = read_id(raw, "link.output.port");
    let input_node = read_id(raw, "link.input.node");
    let input_port = read_id(raw, "link.input.port");
    match (output_node, output_port, input_node, input_port) {
        (Some(output_node), Some(output_port), Some(input_node), Some(input_port)) => Ok(
            Some(
                ChangeMessage::CreateLink {
                    id,
                    permissions,
                    props: Properties::from_pairs(raw),
                    input_node,
                    output_node,
                    input_port,
                    output_port,
                },
            ),
        ),
        _ => Err(GraphError::PropertyParseFailure),
    }
}

/// The message that records the removal of an object, of whatever kind and
/// whether or not the mirror knows the id.
pub fn removal(id: u32) -> (message: ChangeMessage)
    ensures
        message@ == MessageView::DeleteItem(id),
{
    ChangeMessage::DeleteItem { id }
}

/// Translates an announced object.
pub fn translate(object: &GlobalObject, store: &GraphStore) -> (outcome: Result<
    Option<ChangeMessage>,
    GraphError,
>)
    ensures
        match translation(store@, object@) {
            Ok(Some(expected)) => outcome matches Ok(Some(message)) && message@ == expected,
            Ok(None) => outcome matches Ok(None),
            Err(error) => outcome == Err::<Option<ChangeMessage>, GraphError>(error),
        },
{
    match object.kind {
        ObjectKind::Other => Ok(None),
        ObjectKind::Node => match &object.props {
            Some(raw) => Ok(Some(save_node(object.id, object.permissions, raw))),
            None => Err(GraphError::PropertyParseFailure),
        },
        ObjectKind::Port => match &object.props {
            Some(raw) => match save_port(object.id, object.permissions, raw) {
                Ok(message) => Ok(Some(message)),
                Err(error) => Err(error),
            },
            None => Err(GraphError::PropertyParseFailure),
        },
        ObjectKind::Link => match &object.props {
            Some(raw) => save_link(object.id, object.permissions, raw, store),
            None => Err(GraphError::PropertyParseFailure),
        },
    }
}

} // verus!

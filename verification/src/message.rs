//! The change messages that the daemon session sends to the aggregator.

use vstd::prelude::*;
use crate::entity::{Direction, LinkView, MediaType, NodeView, PortView};
use crate::props::Properties;

verus! {

/// One change of the daemon's object graph, as the event translator reports it.
#[derive(Debug, PartialEq, Eq)]
pub enum ChangeMessage {
    /// A node appeared.
    CreateNode {
        id: u32,
        permissions: u32,
        props: Properties,
        name: String,
        node_direction: Direction,
        node_type: MediaType,
    },
    /// A port appeared.
    CreatePort {
        id: u32,
        permissions: u32,
        props: Properties,
        node_id: u32,
        name: String,
        direction: Direction,
    },
    /// A link appeared.
    CreateLink {
        id: u32,
        permissions: u32,
        props: Properties,
        input_node: u32,
        output_node: u32,
        input_port: u32,
        output_port: u32,
    },
    /// The object with this id, of whatever kind, went away.
    DeleteItem { id: u32 },
}

/// A change message as mathematics. A created node has no ports yet.
pub enum MessageView {
    CreateNode(NodeView),
    CreatePort(PortView),
    CreateLink(LinkView),
    DeleteItem(u32),
}

impl MessageView {
    /// The id of the object that the message creates or deletes.
    pub open spec fn id(self) -> u32 {
        match self {
            MessageView::CreateNode(node) => node.id,
            MessageView::CreatePort(port) => port.id,
            MessageView::CreateLink(link) => link.id,
            MessageView::DeleteItem(id) => id,
        }
    }

    /// The message creates an object, of any kind.
    pub open spec fn is_create(self) -> bool {
        !(self is DeleteItem)
    }
}

impl View for ChangeMessage {
    type V = MessageView;

    open spec fn view(&self) -> MessageView {
        match self {
            ChangeMessage::CreateNode { id, permissions, props, name, node_direction, node_type } =>
                MessageView::CreateNode(
                NodeView {
                    id: *id,
                    permissions: *permissions,
                    props: props@,
                    name: name@,
                    node_direction: *node_direction,
                    node_type: *node_type,
                    ports: Seq::empty(),
                },
            ),
            ChangeMessage::CreatePort { id, permissions, props, node_id, name, direction } =>
                MessageView::CreatePort(
                PortView {
                    id: *id,
                    permissions: *permissions,
                    props: props@,
                    node_id: *node_id,
                    name: name@,
                    direction: *direction,
                },
            ),
            ChangeMessage::CreateLink {
                id,
                permissions,
                props,
                input_node,
                output_node,
                input_port,
                output_port,
            } => MessageView::CreateLink(
                LinkView {
                    id: *id,
                    permissions: *permissions,
                    props: props@,
                    input_node_id: *input_node,
                    input_port_id: *input_port,
                    output_node_id: *output_node,
                    output_port_id: *output_port,
                },
            ),
            ChangeMessage::DeleteItem { id } => MessageView::DeleteItem(*id),
        }
    }
}

/// Messages as mathematics, one for one.
pub open spec fn message_views(messages: Seq<ChangeMessage>) -> Seq<MessageView> {
    messages.map_values(|message: ChangeMessage| message@)
}

} // verus!

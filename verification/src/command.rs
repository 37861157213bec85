//! What a caller can ask of the daemon session, and what the session in turn
//! asks of the daemon.

use vstd::prelude::*;

verus! {

/// A command on the way from a caller to the daemon session.
#[derive(Debug, PartialEq, Eq)]
pub enum Command {
    /// End the session's event loop.
    CloseThread,
    /// Connect an output port to an input port.
    LinkPorts { input_port: u32, output_port: u32 },
    /// Remove the connection between two ports.
    UnLinkPorts { input_port: u32, output_port: u32 },
    /// Connect every node of the given name to the node of the given id,
    /// channel by channel.
    LinkNodesNameToId { output_nodes_name: String, input_node_id: u32 },
    /// Remove the connections that `LinkNodesNameToId` makes.
    UnLinkNodesNameToId { output_nodes_name: String, input_node_id: u32 },
}

/// A command as mathematics.
pub enum CommandView {
    CloseThread,
    LinkPorts { input_port: u32, output_port: u32 },
    UnLinkPorts { input_port: u32, output_port: u32 },
    LinkNodesNameToId { output_nodes_name: Seq<char>, input_node_id: u32 },
    UnLinkNodesNameToId { output_nodes_name: Seq<char>, input_node_id: u32 },
}

impl View for Command {
    type V = CommandView;

    open spec fn view(&self) -> CommandView {
        match self {
            Command::CloseThread => CommandView::CloseThread,
            Command::LinkPorts { input_port, output_port } => CommandView::LinkPorts {
                input_port: *input_port,
                output_port: *output_port,
            },
            Command::UnLinkPorts { input_port, output_port } => CommandView::UnLinkPorts {
                input_port: *input_port,
                output_port: *output_port,
            },
            Command::LinkNodesNameToId {
                output_nodes_name,
                input_node_id,
            } => CommandView::LinkNodesNameToId {
                output_nodes_name: output_nodes_name@,
                input_node_id: *input_node_id,
            },
            Command::UnLinkNodesNameToId {
                output_nodes_name,
                input_node_id,
            } => CommandView::UnLinkNodesNameToId {
                output_nodes_name: output_nodes_name@,
                input_node_id: *input_node_id,
            },
        }
    }
}

impl Clone for Command {
    fn clone(&self) -> (copy: Self)
        ensures
            copy@ == self@,
    {
        match self {
            Command::CloseThread => Command::CloseThread,
            Command::LinkPorts { input_port, output_port } => Command::LinkPorts {
                input_port: *input_port,
                output_port: *output_port,
            },
            Command::UnLinkPorts { input_port, output_port } => Command::UnLinkPorts {
                input_port: *input_port,
                output_port: *output_port,
            },
            Command::LinkNodesNameToId { output_nodes_name, input_node_id } => {
                Command::LinkNodesNameToId {
                    output_nodes_name: output_nodes_name.clone(),
                    input_node_id: *input_node_id,
                }
            },
            Command::UnLinkNodesNameToId { output_nodes_name, input_node_id } => {
                Command::UnLinkNodesNameToId {
                    output_nodes_name: output_nodes_name.clone(),
                    input_node_id: *input_node_id,
                }
            },
        }
    }
}

/// Commands as mathematics, one for one.
pub open spec fn command_views(commands: Seq<Command>) -> Seq<CommandView> {
    commands.map_values(|command: Command| command@)
}

/// An input port and the output port that is to feed it.
#[derive(Clone, Copy, Debug, PartialEq, Eq, Structural)]
pub struct PortPair {
    pub input_port: u32,
    pub output_port: u32,
}

/// A call that the session makes on the daemon.
#[derive(Clone, Copy, Debug, PartialEq, Eq, Structural)]
pub enum DaemonRequest {
    /// Create a link object between the two endpoints. With `linger` the
    /// link outlives the session that asked for it.
    CreateLink {
        output_node: u32,
        output_port: u32,
        input_node: u32,
        input_port: u32,
        linger: bool,
    },
    /// Destroy the global object with this id.
    DestroyObject { id: u32 },
}

} // verus!

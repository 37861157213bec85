//! The three kinds of global object that the daemon exposes, as the mirror
//! records them.

use vstd::prelude::*;
use crate::props::{Pair, Properties};

verus! {

/// Which way media flows through a node or a port.
#[derive(Clone, Copy, Debug, PartialEq, Eq, Structural)]
pub enum Direction {
    Input,
    Output,
    Unknown,
}

/// The kind of media that a node carries.
#[derive(Clone, Copy, Debug, PartialEq, Eq, Structural)]
pub enum MediaType {
    Audio,
    Video,
    Midi,
    Unknown,
}

/// A single channel endpoint that belongs to a node.
#[derive(Debug, PartialEq, Eq)]
pub struct PipewirePort {
    pub id: u32,
    /// The permission bits that the daemon reported.
    pub permissions: u32,
    pub props: Properties,
    /// The id of the owning node; nothing checks that such a node exists.
    pub node_id: u32,
    pub name: String,
    pub direction: Direction,
}

/// An endpoint or application stream, with the ports recorded for it.
#[derive(Debug, PartialEq, Eq)]
pub struct PipewireNode {
    pub id: u32,
    /// The permission bits that the daemon reported.
    pub permissions: u32,
    pub props: Properties,
    pub name: String,
    pub node_direction: Direction,
    pub node_type: MediaType,
    /// A copy of each port that was created while this node was present.
    /// Nothing removes a copy when its port or its node goes away.
    pub ports: Vec<PipewirePort>,
}

/// A connection from one output port to one input port.
#[derive(Debug, PartialEq, Eq)]
pub struct PipewireLink {
    pub id: u32,
    /// The permission bits that the daemon reported.
    pub permissions: u32,
    pub props: Properties,
    pub input_node_id: u32,
    pub input_port_id: u32,
    pub output_node_id: u32,
    pub output_port_id: u32,
}

/// Any one of the three kinds of object.
#[derive(Debug, PartialEq, Eq)]
pub enum PipewireData {
    Link(PipewireLink),
    Port(PipewirePort),
    Node(PipewireNode),
}

/// A port as mathematics.
pub struct PortView {
    pub id: u32,
    pub permissions: u32,
    pub props: Seq<Pair>,
    pub node_id: u32,
    pub name: Seq<char>,
    pub direction: Direction,
}

/// A node as mathematics.
pub struct NodeView {
    pub id: u32,
    pub permissions: u32,
    pub props: Seq<Pair>,
    pub name: Seq<char>,
    pub node_direction: Direction,
    pub node_type: MediaType,
    pub ports: Seq<PortView>,
}

/// A link as mathematics.
pub struct LinkView {
    pub id: u32,
    pub permissions: u32,
    pub props: Seq<Pair>,
    pub input_node_id: u32,
    pub input_port_id: u32,
    pub output_node_id: u32,
    pub output_port_id: u32,
}

/// An object of any kind as mathematics.
pub enum EntityView {
    Link(LinkView),
    Port(PortView),
    Node(NodeView),
}

impl EntityView {
    /// The id under which the daemon knows the object.
    pub open spec fn id(self) -> u32 {
        match self {
            EntityView::Link(link) => link.id,
            EntityView::Port(port) => port.id,
            EntityView::Node(node) => node.id,
        }
    }
}

/// Ports as mathematics, one for one.
pub open spec fn port_views(ports: Seq<PipewirePort>) -> Seq<PortView> {
    ports.map_values(|port: PipewirePort| port@)
}

/// Nodes as mathematics, one for one.
pub open spec fn node_views(nodes: Seq<PipewireNode>) -> Seq<NodeView> {
    nodes.map_values(|node: PipewireNode| node@)
}

/// Links as mathematics, one for one.
pub open spec fn link_views(links: Seq<PipewireLink>) -> Seq<LinkView> {
    links.map_values(|link: PipewireLink| link@)
}

impl View for PipewirePort {
    type V = PortView;

    open spec fn view(&self) -> PortView {
        PortView {
            id: self.id,
            permissions: self.permissions,
            props: self.props@,
            node_id: self.node_id,
            name: self.name@,
            direction: self.direction,
        }
    }
}

impl View for PipewireNode {
    type V = NodeView;

    open spec fn view(&self) -> NodeView {
        NodeView {
            id: self.id,
            permissions: self.permissions,
            props: self.props@,
            name: self.name@,
            node_direction: self.node_direction,
            node_type: self.node_type,
            ports: port_views(self.ports@),
        }
    }
}

impl View for PipewireLink {
    type V = LinkView;

    open spec fn view(&self) -> LinkView {
        LinkView {
            id: self.id,
            permissions: self.permissions,
            props: self.props@,
            input_node_id: self.input_node_id,
            input_port_id: self.input_port_id,
            output_node_id: self.output_node_id,
            output_port_id: self.output_port_id,
        }
    }
}

impl View for PipewireData {
    type V = EntityView;

    open spec fn view(&self) -> EntityView {
        match self {
            PipewireData::Link(link) => EntityView::Link(link@),
            PipewireData::Port(port) => EntityView::Port(port@),
            PipewireData::Node(node) => EntityView::Node(node@),
        }
    }
}

impl Clone for PipewirePort {
    fn clone(&self) -> (copy: Self)
        ensures
            copy@ == self@,
    {
        PipewirePort {
            id: self.id,
            permissions: self.permissions,
            props: self.props.clone(),
            node_id: self.node_id,
            name: self.name.clone(),
            direction: self.direction,
        }
    }
}

/// An independent copy of each port, in the same order.
pub fn clone_ports(ports: &Vec<PipewirePort>) -> (copy: Vec<PipewirePort>)
    ensures
        port_views(copy@) == port_views(ports@),
{
    let mut copy: Vec<PipewirePort> = Vec::new();
    let n = ports.len();
    let mut i: usize = 0;
    while i < n
        invariant
            i <= n,
            n == ports@.len(),
            copy@.len() == i,
            forall|j: int| 0 <= j < i ==> (#[trigger] copy@[j])@ == ports@[j]@,
        decreases n - i,
    {
        copy.push(ports[i].clone());
        i += 1;
    }
    copy
}

impl Clone for PipewireNode {
    fn clone(&self) -> (copy: Self)
        ensures
            copy@ == self@,
    {
        PipewireNode {
            id: self.id,
            permissions: self.permissions,
            props: self.props.clone(),
            name: self.name.clone(),
            node_direction: self.node_direction,
            node_type: self.node_type,
            ports: clone_ports(&self.ports),
        }
    }
}

impl Clone for PipewireLink {
    fn clone(&self) -> (copy: Self)
        ensures
            copy@ == self@,
    {
        PipewireLink {
            id: self.id,
            permissions: self.permissions,
            props: self.props.clone(),
            input_node_id: self.input_node_id,
            input_port_id: self.input_port_id,
            output_node_id: self.output_node_id,
            output_port_id: self.output_port_id,
        }
    }
}

impl Clone for PipewireData {
    fn clone(&self) -> (copy: Self)
        ensures
            copy@ == self@,
    {
        match self {
            PipewireData::Link(link) => PipewireData::Link(link.clone()),
            PipewireData::Port(port) => PipewireData::Port(port.clone()),
            PipewireData::Node(node) => PipewireData::Node(node.clone()),
        }
    }
}

impl PipewireData {
    /// The id under which the daemon knows the object.
    pub fn id(&self) -> (id: u32)
        ensures
            id == self@.id(),
    {
        match self {
            PipewireData::Link(link) => link.id,
            PipewireData::Port(port) => port.id,
            PipewireData::Node(node) => node.id,
        }
    }
}

impl Direction {
    /// The name under which callers know the direction; the unknown
    /// direction has the empty name.
    pub fn name(&self) -> (text: &'static str)
        ensures
            text@ == match *self {
                Direction::Input => "Input"@,
                Direction::Output => "Output"@,
                Direction::Unknown => ""@,
            },
    {
        match self {
            Direction::Input => "Input",
            Direction::Output => "Output",
            Direction::Unknown => "",
        }
    }
}

impl MediaType {
    /// The name under which callers know the media type; the unknown type
    /// has the empty name.
    pub fn name(&self) -> (text: &'static str)
        ensures
            text@ == match *self {
                MediaType::Audio => "Audio"@,
                MediaType::Video => "Video"@,
                MediaType::Midi => "Midi"@,
                MediaType::Unknown => ""@,
            },
    {
        match self {
            MediaType::Audio => "Audio",
            MediaType::Video => "Video",
            MediaType::Midi => "Midi",
            MediaType::Unknown => "",
        }
    }
}

} // verus!

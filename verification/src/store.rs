//! The graph store: the mirror of the daemon's objects, keyed by id, and the
//! rule by which a change message alters it.

use std::collections::HashMap;
use vstd::prelude::*;
use vstd::std_specs::hash::spec_keys_iter;
use vstd::std_specs::iter::IteratorSpec;
use crate::entity::{
    link_views,
    node_views,
    port_views,
    Direction,
    EntityView,
    LinkView,
    NodeView,
    PipewireData,
    PipewireLink,
    PipewireNode,
    PipewirePort,
    PortView,
};
use crate::message::{message_views, ChangeMessage, MessageView};
use crate::query::{NodeQuery, QueryView};

verus! {

broadcast use vstd::std_specs::hash::group_hash_axioms;

/// The content of a store as mathematics: the object held under each id.
pub type Graph = Map<u32, EntityView>;

/// Every object is held under its own id.
pub open spec fn keyed_by_id(graph: Graph) -> bool {
    forall|id: u32| graph.contains_key(id) ==> (#[trigger] graph[id]).id() == id
}

/// The node with a copy of the port added after the ports it already has.
pub open spec fn with_port(node: NodeView, port: PortView) -> NodeView {
    NodeView { ports: node.ports.push(port), ..node }
}

/// The graph after the owning node of `port` has taken a copy of it. Where
/// the id of the owning node holds no node, nothing changes.
pub open spec fn attach_port(graph: Graph, port: PortView) -> Graph {
    if graph.contains_key(port.node_id) {
        match graph[port.node_id] {
            EntityView::Node(node) => graph.insert(
                port.node_id,
                EntityView::Node(with_port(node, port)),
            ),
            _ => graph,
        }
    } else {
        graph
    }
}

/// The graph after one change message. A created object takes the place of
/// whatever its id held; a created port is then copied into its owning node;
/// a delete removes the id and is nothing where the id is unknown.
pub open spec fn apply_spec(graph: Graph, message: MessageView) -> Graph {
    match message {
        MessageView::CreateNode(node) => graph.insert(node.id, EntityView::Node(node)),
        MessageView::CreatePort(port) => attach_port(
            graph.insert(port.id, EntityView::Port(port)),
            port,
        ),
        MessageView::CreateLink(link) => graph.insert(link.id, EntityView::Link(link)),
        MessageView::DeleteItem(id) => graph.remove(id),
    }
}

/// The graph after a run of change messages, applied first to last.
pub open spec fn replay(graph: Graph, messages: Seq<MessageView>) -> Graph
    decreases messages.len(),
{
    if messages.len() == 0 {
        graph
    } else {
        apply_spec(replay(graph, messages.drop_last()), messages.last())
    }
}

/// A change message keeps every object under its own id.
pub proof fn lemma_apply_keeps_keys(graph: Graph, message: MessageView)
    requires
        keyed_by_id(graph),
    ensures
        keyed_by_id(apply_spec(graph, message)),
{
}

/// `nodes` holds every node of the graph that the query admits, once each, in
/// some order, and nothing else.
pub open spec fn lists_matching(graph: Graph, query: QueryView, nodes: Seq<NodeView>) -> bool {
    &&& forall|i: int|
        0 <= i < nodes.len() ==> graph.contains_key((#[trigger] nodes[i]).id) && graph[nodes[i].id]
            == EntityView::Node(nodes[i]) && query.admits(nodes[i])
    &&& forall|i: int, j: int|
        0 <= i < j < nodes.len() ==> (#[trigger] nodes[i]).id != (#[trigger] nodes[j]).id
    &&& forall|id: u32|
        #[trigger] graph.contains_key(id) && graph[id] is Node && query.admits(graph[id]->Node_0)
            ==> exists|i: int| 0 <= i < nodes.len() && (#[trigger] nodes[i]).id == id
}

/// `nodes` holds every node of the graph once, in some order, and nothing else.
pub open spec fn lists_nodes(graph: Graph, nodes: Seq<NodeView>) -> bool {
    lists_matching(graph, QueryView::All, nodes)
}

/// `ports` holds every port of the graph once, in some order, and nothing else.
pub open spec fn lists_ports(graph: Graph, ports: Seq<PortView>) -> bool {
    &&& forall|i: int|
        0 <= i < ports.len() ==> graph.contains_key((#[trigger] ports[i]).id) && graph[ports[i].id]
            == EntityView::Port(ports[i])
    &&& forall|i: int, j: int|
        0 <= i < j < ports.len() ==> (#[trigger] ports[i]).id != (#[trigger] ports[j]).id
    &&& forall|id: u32|
        #[trigger] graph.contains_key(id) && graph[id] is Port ==> exists|i: int|
            0 <= i < ports.len() && (#[trigger] ports[i]).id == id
}

/// `links` holds every link of the graph once, in some order, and nothing else.
pub open spec fn lists_links(graph: Graph, links: Seq<LinkView>) -> bool {
    &&& forall|i: int|
        0 <= i < links.len() ==> graph.contains_key((#[trigger] links[i]).id) && graph[links[i].id]
            == EntityView::Link(links[i])
    &&& forall|i: int, j: int|
        0 <= i < j < links.len() ==> (#[trigger] links[i]).id != (#[trigger] links[j]).id
    &&& forall|id: u32|
        #[trigger] graph.contains_key(id) && graph[id] is Link ==> exists|i: int|
            0 <= i < links.len() && (#[trigger] links[i]).id == id
}

/// What a snapshot takes from an object: something for the objects it is
/// after, nothing for the others.
type Pick<T> = spec_fn(EntityView) -> Option<T>;

/// A node that the query admits.
spec fn pick_node(query: QueryView) -> Pick<NodeView> {
    |entity: EntityView|
        match entity {
            EntityView::Node(node) => if query.admits(node) {
                Some(node)
            } else {
                None
            },
            _ => None,
        }
}

/// A port.
spec fn pick_port() -> Pick<PortView> {
    |entity: EntityView|
        match entity {
            EntityView::Port(port) => Some(port),
            _ => None,
        }
}

/// A link.
spec fn pick_link() -> Pick<LinkView> {
    |entity: EntityView|
        match entity {
            EntityView::Link(link) => Some(link),
            _ => None,
        }
}

/// What is picked from the objects that the graph holds under the given
/// ids, in the order of the ids.
spec fn picked_along<T>(graph: Graph, pick: Pick<T>, ids: Seq<u32>) -> Seq<T>
    decreases ids.len(),
{
    if ids.len() == 0 {
        Seq::empty()
    } else {
        let before = picked_along(graph, pick, ids.drop_last());
        if graph.contains_key(ids.last()) {
            match pick(graph[ids.last()]) {
                Some(item) => before.push(item),
                None => before,
            }
        } else {
            before
        }
    }
}

/// The place among the ids from which each picked item comes: the places
/// are within the ids, rise with the items, and hold the item's object.
spec fn comes_from<T>(graph: Graph, pick: Pick<T>, ids: Seq<u32>, places: Seq<int>) -> bool {
    let found = picked_along(graph, pick, ids);
    &&& places.len() == found.len()
    &&& forall|i: int|
        0 <= i < places.len() ==> 0 <= #[trigger] places[i] < ids.len() && graph.contains_key(
            ids[places[i]],
        ) && pick(graph[ids[places[i]]]) == Some(found[i])
    &&& forall|i: int, j: int|
        0 <= i < j < places.len() ==> #[trigger] places[i] < #[trigger] places[j]
    &&& forall|k: int|
        0 <= k < ids.len() && graph.contains_key(#[trigger] ids[k]) && pick(graph[ids[k]]) is Some
            ==> exists|i: int| 0 <= i < places.len() && #[trigger] places[i] == k
}

/// Every picked item comes from a place among the ids, and every id whose
/// object is picked from is such a place.
proof fn lemma_picked_along<T>(graph: Graph, pick: Pick<T>, ids: Seq<u32>) -> (places: Seq<int>)
    ensures
        comes_from(graph, pick, ids, places),
    decreases ids.len(),
{
    if ids.len() == 0 {
        Seq::empty()
    } else {
        let rest = ids.drop_last();
        let last = ids.len() - 1;
        let before = lemma_picked_along(graph, pick, rest);
        let places = if graph.contains_key(ids.last()) && pick(graph[ids.last()]) is Some {
            before.push(last)
        } else {
            before
        };
        assert forall|k: int|
            0 <= k < ids.len() && graph.contains_key(#[trigger] ids[k]) && pick(graph[ids[k]]) is Some
            implies exists|i: int| 0 <= i < places.len() && #[trigger] places[i] == k by {
            if k < last {
                assert(rest[k] == ids[k]);
                let i = choose|i: int| 0 <= i < before.len() && #[trigger] before[i] == k;
                assert(places[i] == k);
            } else {
                assert(places[places.len() - 1] == k);
            }
        }
        places
    }
}

/// Along ids that name every object of the graph once, the nodes picked are
/// a listing of the nodes that the query admits.
proof fn lemma_nodes_listed(graph: Graph, query: QueryView, ids: Seq<u32>)
    requires
        keyed_by_id(graph),
        ids.no_duplicates(),
        ids.to_set() == graph.dom(),
    ensures
        lists_matching(graph, query, picked_along(graph, pick_node(query), ids)),
{
    let found = picked_along(graph, pick_node(query), ids);
    let places = lemma_picked_along(graph, pick_node(query), ids);
    assert forall|i: int| 0 <= i < found.len() implies graph.contains_key((#[trigger] found[i]).id)
        && graph[found[i].id] == EntityView::Node(found[i]) && query.admits(found[i]) by {
        assert(graph[ids[places[i]]].id() == ids[places[i]]);
    }
    assert forall|i: int, j: int| 0 <= i < j < found.len() implies (#[trigger] found[i]).id != (
    #[trigger] found[j]).id by {
        assert(graph[ids[places[i]]].id() == ids[places[i]]);
        assert(graph[ids[places[j]]].id() == ids[places[j]]);
    }
}

/// Along ids that name every object of the graph once, the ports picked are
/// a listing of the ports.
proof fn lemma_ports_listed(graph: Graph, ids: Seq<u32>)
    requires
        keyed_by_id(graph),
        ids.no_duplicates(),
        ids.to_set() == graph.dom(),
    ensures
        lists_ports(graph, picked_along(graph, pick_port(), ids)),
{
    let found = picked_along(graph, pick_port(), ids);
    let places = lemma_picked_along(graph, pick_port(), ids);
    assert forall|i: int| 0 <= i < found.len() implies graph.contains_key((#[trigger] found[i]).id)
        && graph[found[i].id] == EntityView::Port(found[i]) by {
        assert(graph[ids[places[i]]].id() == ids[places[i]]);
    }
    assert forall|i: int, j: int| 0 <= i < j < found.len() implies (#[trigger] found[i]).id != (
    #[trigger] found[j]).id by {
        assert(graph[ids[places[i]]].id() == ids[places[i]]);
        assert(graph[ids[places[j]]].id() == ids[places[j]]);
    }
}

/// Along ids that name every object of the graph once, the links picked are
/// a listing of the links.
proof fn lemma_links_listed(graph: Graph, ids: Seq<u32>)
    requires
        keyed_by_id(graph),
        ids.no_duplicates(),
        ids.to_set() == graph.dom(),
    ensures
        lists_links(graph, picked_along(graph, pick_link(), ids)),
{
    let found = picked_along(graph, pick_link(), ids);
    let places = lemma_picked_along(graph, pick_link(), ids);
    assert forall|i: int| 0 <= i < found.len() implies graph.contains_key((#[trigger] found[i]).id)
        && graph[found[i].id] == EntityView::Link(found[i]) by {
        assert(graph[ids[places[i]]].id() == ids[places[i]]);
    }
    assert forall|i: int, j: int| 0 <= i < j < found.len() implies (#[trigger] found[i]).id != (
    #[trigger] found[j]).id by {
        assert(graph[ids[places[i]]].id() == ids[places[i]]);
        assert(graph[ids[places[j]]].id() == ids[places[j]]);
    }
}

/// The mirror of the daemon's object graph. One id holds one object, whatever
/// its kind.
pub struct GraphStore {
    entries: HashMap<u32, PipewireData>,
}

/// The objects of a map as mathematics, under the same ids.
pub open spec fn graph_of(entries: Map<u32, PipewireData>) -> Graph {
    entries.map_values(|entity: PipewireData| entity@)
}

impl View for GraphStore {
    type V = Graph;

    closed spec fn view(&self) -> Graph {
        graph_of(self.entries@)
    }
}

impl GraphStore {
    #[verifier::type_invariant]
    closed spec fn keys_are_ids(&self) -> bool {
        keyed_by_id(graph_of(self.entries@))
    }

    /// A store that holds nothing.
    pub fn new() -> (store: GraphStore)
        ensures
            store@ == Map::<u32, EntityView>::empty(),
    {
        let entries: HashMap<u32, PipewireData> = HashMap::new();
        GraphStore { entries }
    }

    /// The number of objects held. Each is held under its own id.
    pub fn len(&self) -> (n: usize)
        ensures
            n == self@.len(),
            self@.dom().finite(),
            keyed_by_id(self@),
    {
        proof {
            use_type_invariant(self);
            assert(self@.dom() =~= self.entries@.dom());
        }
        self.entries.len()
    }

    /// The object held under an id, if there is one.
    pub fn get(&self, id: u32) -> (found: Option<&PipewireData>)
        ensures
            match found {
                Some(entity) => self@.contains_key(id) && self@[id] == entity@ && entity@.id()
                    == id,
                None => !self@.contains_key(id),
            },
    {
        proof {
            use_type_invariant(self);
        }
        self.entries.get(&id)
    }

    /// Whether an id holds an object.
    pub fn contains(&self, id: u32) -> (held: bool)
        ensures
            held == self@.contains_key(id),
    {
        self.entries.contains_key(&id)
    }

    /// The ids that hold an object, each once, in no particular order.
    pub fn ids(&self) -> (ids: Vec<u32>)
        ensures
            ids@.no_duplicates(),
            ids@.to_set() == self@.dom(),
    {
        let mut ids: Vec<u32> = Vec::new();
        for id in walk: self.entries.keys()
            invariant
                ids@.len() == walk.index(),
                forall|j: int| 0 <= j < walk.index() ==> ids@[j] == *walk.seq()[j],
                walk.seq() == spec_keys_iter(&self.entries).remaining(),
        {
            ids.push(*id);
        }
        proof {
            let walked = spec_keys_iter(&self.entries).remaining();
            assert(ids@ =~= walked.unref());
        }
        ids
    }

    /// An independent copy of every node that the query admits, in no
    /// particular order.
    pub fn select_nodes(&self, query: &NodeQuery) -> (nodes: Vec<PipewireNode>)
        ensures
            lists_matching(self@, query@, node_views(nodes@)),
    {
        proof {
            use_type_invariant(self);
        }
        let ids = self.ids();
        let mut nodes: Vec<PipewireNode> = Vec::new();
        let n = ids.len();
        let mut i: usize = 0;
        while i < n
            invariant
                i <= n,
                n == ids@.len(),
                node_views(nodes@) == picked_along(self@, pick_node(query@), ids@.take(i as int)),
            decreases n - i,
        {
            proof {
                assert(ids@.take(i + 1).drop_last() =~= ids@.take(i as int));
            }
            match self.get(ids[i]) {
                Some(PipewireData::Node(node)) => {
                    if query.admits(node) {
                        nodes.push(node.clone());
                    }
                },
                _ => {},
            }
            i += 1;
        }
        proof {
            assert(ids@.take(n as int) =~= ids@);
            lemma_nodes_listed(self@, query@, ids@);
        }
        nodes
    }

    /// An independent copy of every node, in no particular order.
    pub fn get_nodes(&self) -> (nodes: Vec<PipewireNode>)
        ensures
            lists_nodes(self@, node_views(nodes@)),
    {
        self.select_nodes(&NodeQuery::All)
    }

    /// An independent copy of every node with the given direction, in no
    /// particular order.
    pub fn get_nodes_by_direction(&self, direction: Direction) -> (nodes: Vec<PipewireNode>)
        ensures
            lists_matching(self@, QueryView::Facing(direction), node_views(nodes@)),
    {
        self.select_nodes(&NodeQuery::Facing(direction))
    }

    /// An independent copy of every port, in no particular order.
    pub fn get_ports(&self) -> (ports: Vec<PipewirePort>)
        ensures
            lists_ports(self@, port_views(ports@)),
    {
        proof {
            use_type_invariant(self);
        }
        let ids = self.ids();
        let mut ports: Vec<PipewirePort> = Vec::new();
        let n = ids.len();
        let mut i: usize = 0;
        while i < n
            invariant
                i <= n,
                n == ids@.len(),
                port_views(ports@) == picked_along(self@, pick_port(), ids@.take(i as int)),
            decreases n - i,
        {
            proof {
                assert(ids@.take(i + 1).drop_last() =~= ids@.take(i as int));
            }
            match self.get(ids[i]) {
                Some(PipewireData::Port(port)) => {
                    ports.push(port.clone());
                },
                _ => {},
            }
            i += 1;
        }
        proof {
            assert(ids@.take(n as int) =~= ids@);
            lemma_ports_listed(self@, ids@);
        }
        ports
    }

    /// An independent copy of every link, in no particular order.
    pub fn get_links(&self) -> (links: Vec<PipewireLink>)
        ensures
            lists_links(self@, link_views(links@)),
    {
        proof {
            use_type_invariant(self);
        }
        let ids = self.ids();
        let mut links: Vec<PipewireLink> = Vec::new();
        let n = ids.len();
        let mut i: usize = 0;
        while i < n
            invariant
                i <= n,
                n == ids@.len(),
                link_views(links@) == picked_along(self@, pick_link(), ids@.take(i as int)),
            decreases n - i,
        {
            proof {
                assert(ids@.take(i + 1).drop_last() =~= ids@.take(i as int));
            }
            match self.get(ids[i]) {
                Some(PipewireData::Link(link)) => {
                    links.push(link.clone());
                },
                _ => {},
            }
            i += 1;
        }
        proof {
            assert(ids@.take(n as int) =~= ids@);
            lemma_links_listed(self@, ids@);
        }
        links
    }

    /// Applies one change message. Every object is under its own id before
    /// and after.
    pub fn apply(&mut self, message: ChangeMessage)
        ensures
            final(self)@ == apply_spec(old(self)@, message@),
            keyed_by_id(old(self)@),
            keyed_by_id(final(self)@),
    {
        proof {
            use_type_invariant(&*self);
            lemma_apply_keeps_keys(self@, message@);
        }
        let ghost before = self@;
        let ghost change = message@;
        let mut entries: HashMap<u32, PipewireData> = HashMap::new();
        std::mem::swap(&mut self.entries, &mut entries);
        match message {
            ChangeMessage::CreateNode { id, permissions, props, name, node_direction, node_type } => {
                let node = PipewireNode {
                    id,
                    permissions,
                    props,
                    name,
                    node_direction,
                    node_type,
                    ports: Vec::new(),
                };
                assert(node@.ports =~= Seq::<PortView>::empty());
                entries.insert(id, PipewireData::Node(node));
            },
            ChangeMessage::CreatePort { id, permissions, props, node_id, name, direction } => {
                let port = PipewirePort { id, permissions, props, node_id, name, direction };
                let copy = port.clone();
                entries.insert(id, PipewireData::Port(port));
                match entries.remove(&node_id) {
                    Some(PipewireData::Node(mut node)) => {
                        let ghost ports = node@.ports;
                        node.ports.push(copy);
                        assert(node@.ports =~= ports.push(copy@));
                        entries.insert(node_id, PipewireData::Node(node));
                    },
                    Some(other) => {
                        entries.insert(node_id, other);
                    },
                    None => {},
                }
            },
            ChangeMessage::CreateLink {
                id,
                permissions,
                props,
                input_node,
                output_node,
                input_port,
                output_port,
            } => {
                let link = PipewireLink {
                    id,
                    permissions,
                    props,
                    input_node_id: input_node,
                    input_port_id: input_port,
                    output_node_id: output_node,
                    output_port_id: output_port,
                };
                entries.insert(id, PipewireData::Link(link));
            },
            ChangeMessage::DeleteItem { id } => {
                entries.remove(&id);
            },
        }
        assert(graph_of(entries@) =~= apply_spec(before, change));
        self.entries = entries;
    }

    /// Applies a run of change messages in the order in which they arrived.
    pub fn apply_all(&mut self, messages: Vec<ChangeMessage>)
        ensures
            final(self)@ == replay(old(self)@, message_views(messages@)),
    {
        let ghost all = message_views(messages@);
        let ghost before = self@;
        for message in walk: messages
            invariant
                message_views(walk.seq()) == all,
                self@ == replay(before, all.take(walk.index())),
        {
            proof {
                assert(all.take(walk.index() + 1).drop_last() =~= all.take(walk.index()));
            }
            self.apply(message);
        }
        assert(all.take(all.len() as int) =~= all);
    }
}

} // verus!

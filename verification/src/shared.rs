//! The graph store behind a reader-writer lock: the one handle that the
//! aggregator, the daemon session and the callers share.

use vstd::prelude::*;
use vstd::rwlock::{RwLock, RwLockPredicate};
use crate::command::Command;
use crate::entity::{
    link_views,
    node_views,
    port_views,
    Direction,
    EntityView,
    NodeView,
    PipewireLink,
    PipewireNode,
    PipewirePort,
};
use crate::error::GraphError;
use crate::executor::{execute, reacts, Reaction};
use crate::message::{ChangeMessage, MessageView};
use crate::query::{DirectionFilter, NodeQuery, QueryView};
use crate::store::{
    keyed_by_id,
    lists_links,
    lists_matching,
    lists_nodes,
    lists_ports,
    replay,
    Graph,
    GraphStore,
};
use crate::translate::{translate, translation, GlobalObject};
use crate::wait::{node_ids, NodeWait, WaitStep};

verus! {

/// The graph holds every object under its own id and has come about from
/// `start` by a run of change messages, applied one after the other.
pub open spec fn reachable(start: Graph, graph: Graph) -> bool {
    keyed_by_id(graph) && exists|messages: Seq<MessageView>|
        graph == #[trigger] replay(start, messages)
}

/// What the lock admits: stores whose content has come about from the graph
/// `start` by whole change messages.
pub struct Consistent {
    pub start: Graph,
}

impl RwLockPredicate<GraphStore> for Consistent {
    open spec fn inv(self, store: GraphStore) -> bool {
        reachable(self.start, store@)
    }
}

/// A graph store that several threads can hold. Every operation takes the
/// lock once and works on the store as it stands at that moment: writes are
/// whole messages, and what a read returns is taken from one state of the
/// store and copied out before the lock is released.
pub struct SharedStore {
    lock: RwLock<GraphStore, Consistent>,
}

impl SharedStore {
    /// The graph with which the store began. It is fixed when the store is
    /// made; only change messages lead away from it.
    pub closed spec fn start(&self) -> Graph {
        self.lock.pred().start
    }

    /// The graph is one that the store can hold at some moment: it has come
    /// about from the store's first graph by whole change messages.
    pub open spec fn may_hold(&self, graph: Graph) -> bool {
        reachable(self.start(), graph)
    }

    /// A shared store that begins with nothing: whatever it holds later has
    /// come about from the empty graph by the change messages applied to it.
    pub fn new() -> (shared: SharedStore)
        ensures
            shared.start() == Map::<u32, EntityView>::empty(),
    {
        let store = GraphStore::new();
        let ghost start = Map::<u32, EntityView>::empty();
        proof {
            assert(store@ == replay(start, Seq::<MessageView>::empty()));
        }
        SharedStore { lock: RwLock::new(store, Ghost(Consistent { start })) }
    }

    /// Applies one change message under the write lock.
    pub fn apply(&self, message: ChangeMessage) {
        let (mut store, handle) = self.lock.acquire_write();
        let ghost before = store@;
        let ghost change = message@;
        store.apply(message);
        proof {
            let earlier = choose|messages: Seq<MessageView>|
                before == #[trigger] replay(self.start(), messages);
            assert(earlier.push(change).drop_last() =~= earlier);
            assert(store@ == replay(self.start(), earlier.push(change)));
        }
        handle.release_write(store);
    }

    /// A copy of every node that the query admits, all taken from one state
    /// of the store.
    pub fn select_nodes(&self, query: &NodeQuery) -> (nodes: Vec<PipewireNode>)
        ensures
            exists|graph: Graph|
                self.may_hold(graph) && #[trigger] lists_matching(graph, query@, node_views(nodes@)),
    {
        let handle = self.lock.acquire_read();
        let store = handle.borrow();
        let nodes = store.select_nodes(query);
        handle.release_read();
        nodes
    }

    /// A copy of every node, all taken from one state of the store.
    pub fn get_nodes(&self) -> (nodes: Vec<PipewireNode>)
        ensures
            exists|graph: Graph| self.may_hold(graph) && #[trigger] lists_nodes(graph, node_views(nodes@)),
    {
        let handle = self.lock.acquire_read();
        let store = handle.borrow();
        let nodes = store.get_nodes();
        handle.release_read();
        nodes
    }

    /// A copy of every node with the given direction, all taken from one
    /// state of the store.
    pub fn get_nodes_by_direction(&self, direction: Direction) -> (nodes: Vec<PipewireNode>)
        ensures
            exists|graph: Graph|
                self.may_hold(graph) && #[trigger] lists_matching(
                    graph,
                    QueryView::Facing(direction),
                    node_views(nodes@),
                ),
    {
        let handle = self.lock.acquire_read();
        let store = handle.borrow();
        let nodes = store.get_nodes_by_direction(direction);
        handle.release_read();
        nodes
    }

    /// A copy of every port, all taken from one state of the store.
    pub fn get_ports(&self) -> (ports: Vec<PipewirePort>)
        ensures
            exists|graph: Graph| self.may_hold(graph) && #[trigger] lists_ports(graph, port_views(ports@)),
    {
        let handle = self.lock.acquire_read();
        let store = handle.borrow();
        let ports = store.get_ports();
        handle.release_read();
        ports
    }

    /// A copy of every link, all taken from one state of the store.
    pub fn get_links(&self) -> (links: Vec<PipewireLink>)
        ensures
            exists|graph: Graph| self.may_hold(graph) && #[trigger] lists_links(graph, link_views(links@)),
    {
        let handle = self.lock.acquire_read();
        let store = handle.borrow();
        let links = store.get_links();
        handle.release_read();
        links
    }

    /// Translates an announced object against one state of the store.
    pub fn translate(&self, object: &GlobalObject) -> (outcome: Result<
        Option<ChangeMessage>,
        GraphError,
    >)
        ensures
            exists|graph: Graph|
                self.may_hold(graph) && match #[trigger] translation(graph, object@) {
                    Ok(Some(expected)) => outcome matches Ok(Some(message)) && message@ == expected,
                    Ok(None) => outcome matches Ok(None),
                    Err(error) => outcome == Err::<Option<ChangeMessage>, GraphError>(error),
                },
    {
        let handle = self.lock.acquire_read();
        let store = handle.borrow();
        let outcome = translate(object, store);
        handle.release_read();
        outcome
    }

    /// The reaction to a command, resolved against one state of the store.
    pub fn execute(&self, command: &Command) -> (reaction: Reaction)
        ensures
            exists|graph: Graph| self.may_hold(graph) && #[trigger] reacts(graph, command@, reaction@),
    {
        let handle = self.lock.acquire_read();
        let store = handle.borrow();
        let reaction = execute(store, command);
        handle.release_read();
        reaction
    }

    /// Begins a wait for a new node, with the baseline taken from one state
    /// of the store.
    pub fn begin_wait(
        &self,
        name_substring: String,
        direction_filter: DirectionFilter,
        timeout_ms: u128,
    ) -> (wait: NodeWait)
        ensures
            wait.query@ == (QueryView::Named { fragment: name_substring@, facing: direction_filter }),
            wait.timeout_ms == timeout_ms,
            !wait.settled,
            exists|graph: Graph, nodes: Seq<NodeView>|
                self.may_hold(graph) && #[trigger] lists_matching(graph, wait.query@, nodes)
                    && wait.baseline@ == node_ids(nodes),
    {
        let handle = self.lock.acquire_read();
        let store = handle.borrow();
        let wait = NodeWait::begin(store, name_substring, direction_filter, timeout_ms);
        handle.release_read();
        wait
    }

    /// One poll of a wait, against one state of the store.
    pub fn poll_wait(&self, wait: &mut NodeWait, elapsed_ms: u128) -> (step: WaitStep)
        ensures
            exists|graph: Graph| self.may_hold(graph) && #[trigger] old(wait).finds(graph, elapsed_ms, step@),
            final(wait).settled == (old(wait).settled || !(step is Sleep)),
            final(wait).query == old(wait).query,
            final(wait).timeout_ms == old(wait).timeout_ms,
            final(wait).baseline == old(wait).baseline,
    {
        let handle = self.lock.acquire_read();
        let store = handle.borrow();
        let step = wait.poll(store, elapsed_ms);
        handle.release_read();
        step
    }
}

} // verus!

//! The command executor: what the daemon session asks of the daemon for each
//! command, with the endpoints looked up in the graph store.

use vstd::prelude::*;
use crate::command::{command_views, Command, CommandView, DaemonRequest, PortPair};
use crate::entity::{
    link_views,
    node_views,
    EntityView,
    LinkView,
    NodeView,
    PipewireData,
    PipewireLink,
    PipewirePort,
    PortView,
};
use crate::error::GraphError;
use crate::linking::{pair_commands, pair_plan, plan_pairs};
use crate::store::{lists_nodes, Graph, GraphStore};

verus! {

/// The port that the graph holds under an id, if the id holds a port.
pub open spec fn port_at(graph: Graph, id: u32) -> Option<PortView> {
    if graph.contains_key(id) {
        match graph[id] {
            EntityView::Port(port) => Some(port),
            _ => None,
        }
    } else {
        None
    }
}

/// The request that links two ports: the four endpoint ids as the store has
/// them, and the linger flag set. There is none where either id holds no port.
pub open spec fn link_request(graph: Graph, input_port: u32, output_port: u32) -> Option<
    DaemonRequest,
> {
    match (port_at(graph, input_port), port_at(graph, output_port)) {
        (Some(input), Some(output)) => Some(
            DaemonRequest::CreateLink {
                output_node: output.node_id,
                output_port: output.id,
                input_node: input.node_id,
                input_port: input.id,
                linger: true,
            },
        ),
        _ => None,
    }
}

/// The link runs between the two ports, whichever of them is its output.
pub open spec fn joins(link: LinkView, first: PortView, second: PortView) -> bool {
    ||| (link.output_node_id == first.node_id && link.output_port_id == first.id
        && link.input_node_id == second.node_id && link.input_port_id == second.id)
    ||| (link.output_node_id == second.node_id && link.output_port_id == second.id
        && link.input_node_id == first.node_id && link.input_port_id == first.id)
}

/// The id holds a link that runs between the two ports.
pub open spec fn is_joining_link(graph: Graph, id: u32, first: PortView, second: PortView) -> bool {
    graph.contains_key(id) && match graph[id] {
        EntityView::Link(link) => joins(link, first, second),
        _ => false,
    }
}

/// The id holds a link between the two ports, and no lower id does.
pub open spec fn is_lowest_joining_link(
    graph: Graph,
    id: u32,
    first: PortView,
    second: PortView,
) -> bool {
    is_joining_link(graph, id, first, second) && forall|other: u32|
        is_joining_link(graph, other, first, second) ==> id <= other
}

/// The lowest id of a link between the two ports, if there is such a link.
pub open spec fn lowest_joining_link(graph: Graph, first: PortView, second: PortView) -> Option<
    u32,
> {
    if exists|id: u32| is_joining_link(graph, id, first, second) {
        Some(choose|id: u32| is_lowest_joining_link(graph, id, first, second))
    } else {
        None
    }
}

/// The request that unlinks two ports: to destroy the link between them, the
/// one of lowest id should there be several. There is none where either id
/// holds no port or no link runs between the two.
pub open spec fn unlink_request(graph: Graph, first_port: u32, second_port: u32) -> Option<
    DaemonRequest,
> {
    match (port_at(graph, first_port), port_at(graph, second_port)) {
        (Some(first), Some(second)) => match lowest_joining_link(graph, first, second) {
            Some(id) => Some(DaemonRequest::DestroyObject { id }),
            None => None,
        },
        _ => None,
    }
}

/// The request that links or unlinks the ports of a pair.
pub open spec fn request_for(graph: Graph, pair: PortPair, unlink: bool) -> Option<DaemonRequest> {
    if unlink {
        unlink_request(graph, pair.output_port, pair.input_port)
    } else {
        link_request(graph, pair.input_port, pair.output_port)
    }
}

/// The pairs for which there is a request.
pub open spec fn resolvable(graph: Graph, unlink: bool) -> spec_fn(PortPair) -> bool {
    |pair: PortPair| request_for(graph, pair, unlink) is Some
}

/// The pairs for which there is no request.
pub open spec fn unresolvable(graph: Graph, unlink: bool) -> spec_fn(PortPair) -> bool {
    |pair: PortPair| request_for(graph, pair, unlink) is None
}

/// The request for a pair for which there is one.
pub open spec fn granted(graph: Graph, unlink: bool) -> spec_fn(PortPair) -> DaemonRequest {
    |pair: PortPair| request_for(graph, pair, unlink)->0
}

/// What the session does in answer to one command.
#[derive(Debug, PartialEq, Eq)]
pub struct Reaction {
    /// The calls to make on the daemon, in this order.
    pub requests: Vec<DaemonRequest>,
    /// The commands that could not be resolved against the store. A command
    /// by name that resolved into pairs is reported pair by pair.
    pub failed: Vec<Command>,
    /// The event loop is to end.
    pub quit: bool,
}

/// A reaction as mathematics.
pub struct ReactionView {
    pub requests: Seq<DaemonRequest>,
    pub failed: Seq<CommandView>,
    pub quit: bool,
}

impl View for Reaction {
    type V = ReactionView;

    open spec fn view(&self) -> ReactionView {
        ReactionView {
            requests: self.requests@,
            failed: command_views(self.failed@),
            quit: self.quit,
        }
    }
}

/// The reaction to a run of pairs: each pair is taken by itself, the request
/// made where there is one and the pair's command reported where there is
/// none, so that one failure holds up no other pair.
pub open spec fn pair_reaction(graph: Graph, pairs: Seq<PortPair>, unlink: bool) -> ReactionView {
    ReactionView {
        requests: pairs.filter(resolvable(graph, unlink)).map_values(granted(graph, unlink)),
        failed: pair_commands(pairs.filter(unresolvable(graph, unlink)), unlink),
        quit: false,
    }
}

/// The reaction to a command by name, given a snapshot of the nodes: that to
/// the pairs of the plan, or the command itself reported as failed where the
/// plan has no pairs to speak of.
pub open spec fn reaction_by_name(
    graph: Graph,
    nodes: Seq<NodeView>,
    command: CommandView,
    name: Seq<char>,
    target_id: u32,
    unlink: bool,
) -> ReactionView {
    match pair_plan(nodes, name, target_id) {
        Some(pairs) => pair_reaction(graph, pairs, unlink),
        None => ReactionView { requests: Seq::empty(), failed: seq![command], quit: false },
    }
}

/// The reaction is the one that a command by name calls for, given some
/// snapshot of the graph's nodes.
pub open spec fn reacts_by_name(
    graph: Graph,
    command: CommandView,
    name: Seq<char>,
    target_id: u32,
    unlink: bool,
    reaction: ReactionView,
) -> bool {
    exists|nodes: Seq<NodeView>|
        lists_nodes(graph, nodes) && reaction == #[trigger] reaction_by_name(
            graph,
            nodes,
            command,
            name,
            target_id,
            unlink,
        )
}

/// The reaction is the one that the command calls for.
pub open spec fn reacts(graph: Graph, command: CommandView, reaction: ReactionView) -> bool {
    match command {
        CommandView::CloseThread => reaction == ReactionView {
            requests: Seq::empty(),
            failed: Seq::empty(),
            quit: true,
        },
        CommandView::LinkPorts { input_port, output_port } => reaction == pair_reaction(
            graph,
            seq![PortPair { input_port, output_port }],
            false,
        ),
        CommandView::UnLinkPorts { input_port, output_port } => reaction == pair_reaction(
            graph,
            seq![PortPair { input_port, output_port }],
            true,
        ),
        CommandView::LinkNodesNameToId { output_nodes_name, input_node_id } => reacts_by_name(
            graph,
            command,
            output_nodes_name,
            input_node_id,
            false,
            reaction,
        ),
        CommandView::UnLinkNodesNameToId { output_nodes_name, input_node_id } => reacts_by_name(
            graph,
            command,
            output_nodes_name,
            input_node_id,
            true,
            reaction,
        ),
    }
}

/// The port that the store holds under an id, if the id holds a port.
pub fn resolve_port(store: &GraphStore, id: u32) -> (found: Option<&PipewirePort>)
    ensures
        match found {
            Some(port) => port_at(store@, id) == Some(port@),
            None => port_at(store@, id) is None,
        },
{
    match store.get(id) {
        Some(PipewireData::Port(port)) => Some(port),
        _ => None,
    }
}

/// The request that links an output port to an input port, or
/// `ResolutionFailure` where the store does not hold both ports.
pub fn link_ports(store: &GraphStore, input_port_id: u32, output_port_id: u32) -> (outcome: Result<
    DaemonRequest,
    GraphError,
>)
    ensures
        outcome == match link_request(store@, input_port_id, output_port_id) {
            Some(request) => Ok::<DaemonRequest, GraphError>(request),
            None => Err(GraphError::ResolutionFailure),
        },
{
    let input = match resolve_port(store, input_port_id) {
        Some(port) => port,
        None => {
            return Err(GraphError::ResolutionFailure);
        },
    };
    let output = match resolve_port(store, output_port_id) {
        Some(port) => port,
        None => {
            return Err(GraphError::ResolutionFailure);
        },
    };
    Ok(
        DaemonRequest::CreateLink {
            output_node: output.node_id,
            output_port: output.id,
            input_node: input.node_id,
            input_port: input.id,
            linger: true,
        },
    )
}

/// Whether the link runs between the two ports, in either direction.
pub fn link_joins(link: &PipewireLink, first: &PipewirePort, second: &PipewirePort) -> (joined:
    bool)
    ensures
        joined == joins(link@, first@, second@),
{
    (link.output_node_id == first.node_id && link.output_port_id == first.id && link.input_node_id
        == second.node_id && link.input_port_id == second.id) || (link.output_node_id
        == second.node_id && link.output_port_id == second.id && link.input_node_id
        == first.node_id && link.input_port_id == first.id)
}

/// The lowest id among the links that run between the two ports, if any does.
pub fn find_link(links: &Vec<PipewireLink>, first: &PipewirePort, second: &PipewirePort) -> (found:
    Option<u32>)
    ensures
        match found {
            Some(id) => (exists|i: int|
                0 <= i < links@.len() && (#[trigger] links@[i]).id == id && joins(
                    links@[i]@,
                    first@,
                    second@,
                )) && forall|i: int|
                0 <= i < links@.len() && joins((#[trigger] links@[i])@, first@, second@) ==> id
                    <= links@[i].id,
            None => forall|i: int|
                0 <= i < links@.len() ==> !joins((#[trigger] links@[i])@, first@, second@),
        },
{
    let mut found: Option<u32> = None;
    let n = links.len();
    let mut i: usize = 0;
    while i < n
        invariant
            i <= n,
            n == links@.len(),
            match found {
                Some(id) => (exists|k: int|
                    0 <= k < i && (#[trigger] links@[k]).id == id && joins(
                        links@[k]@,
                        first@,
                        second@,
                    )) && forall|k: int|
                    0 <= k < i && joins((#[trigger] links@[k])@, first@, second@) ==> id
                        <= links@[k].id,
                None => forall|k: int|
                    0 <= k < i ==> !joins((#[trigger] links@[k])@, first@, second@),
            },
        decreases n - i,
    {
        let link = &links[i];
        if link_joins(link, first, second) {
            let lower = match found {
                Some(id) => link.id < id,
                None => true,
            };
            if lower {
                found = Some(link.id);
            }
        }
        i += 1;
    }
    found
}

/// The request that unlinks two ports, or `ResolutionFailure` where the store
/// does not hold both ports or holds no link between them.
pub fn unlink_ports(store: &GraphStore, output_port_id: u32, input_port_id: u32) -> (outcome:
    Result<DaemonRequest, GraphError>)
    ensures
        outcome == match unlink_request(store@, output_port_id, input_port_id) {
            Some(request) => Ok::<DaemonRequest, GraphError>(request),
            None => Err(GraphError::ResolutionFailure),
        },
{
    let first = match resolve_port(store, output_port_id) {
        Some(port) => port,
        None => {
            return Err(GraphError::ResolutionFailure);
        },
    };
    let second = match resolve_port(store, input_port_id) {
        Some(port) => port,
        None => {
            return Err(GraphError::ResolutionFailure);
        },
    };
    let links = store.get_links();
    let found = find_link(&links, first, second);
    proof {
        // Each link listed is a link of the store, and each link of the
        // store is listed: the lowest of the list is the lowest of the store.
        let listed = link_views(links@);
        assert forall|i: int| 0 <= i < links@.len() implies listed[i] == (#[trigger] links@[i])@ by {}
        if let Some(id) = found {
            assert(is_lowest_joining_link(store@, id, first@, second@));
        }
    }
    match found {
        Some(id) => Ok(DaemonRequest::DestroyObject { id }),
        None => Err(GraphError::ResolutionFailure),
    }
}

/// Takes each pair by itself: makes the request to link or unlink its ports
/// where the store resolves it, and reports the pair's command where not.
pub fn run_pairs(store: &GraphStore, pairs: &Vec<PortPair>, unlink: bool) -> (reaction: Reaction)
    ensures
        reaction@ == pair_reaction(store@, pairs@, unlink),
{
    let mut requests: Vec<DaemonRequest> = Vec::new();
    let mut failed: Vec<Command> = Vec::new();
    let ghost graph = store@;
    let ghost all = pairs@;
    let n = pairs.len();
    let mut i: usize = 0;
    proof {
        reveal(Seq::filter);
    }
    while i < n
        invariant
            i <= n,
            n == pairs@.len(),
            all == pairs@,
            graph == store@,
            requests@ == all.take(i as int).filter(resolvable(graph, unlink)).map_values(
                granted(graph, unlink),
            ),
            command_views(failed@) == pair_commands(
                all.take(i as int).filter(unresolvable(graph, unlink)),
                unlink,
            ),
        decreases n - i,
    {
        let pair = pairs[i];
        let ghost failed_before = failed@;
        proof {
            assert(all.take(i + 1) =~= all.take(i as int).push(pair));
            all.take(i as int).lemma_filter_push(pair, resolvable(graph, unlink));
            all.take(i as int).lemma_filter_push(pair, unresolvable(graph, unlink));
        }
        let outcome = if unlink {
            unlink_ports(store, pair.output_port, pair.input_port)
        } else {
            link_ports(store, pair.input_port, pair.output_port)
        };
        match outcome {
            Ok(request) => {
                requests.push(request);
            },
            Err(_) => {
                if unlink {
                    failed.push(
                        Command::UnLinkPorts {
                            input_port: pair.input_port,
                            output_port: pair.output_port,
                        },
                    );
                } else {
                    failed.push(
                        Command::LinkPorts {
                            input_port: pair.input_port,
                            output_port: pair.output_port,
                        },
                    );
                }
                assert(command_views(failed@) =~= command_views(failed_before).push(
                    failed@.last()@,
                ));
            },
        }
        i += 1;
    }
    assert(all.take(n as int) =~= all);
    Reaction { requests, failed, quit: false }
}

/// The reaction to a command by name: the pairs are planned from a snapshot
/// of the store's nodes and then taken one by one.
fn run_by_name(
    store: &GraphStore,
    command: &Command,
    name: &str,
    target_id: u32,
    unlink: bool,
) -> (reaction: Reaction)
    ensures
        reacts_by_name(store@, command@, name@, target_id, unlink, reaction@),
{
    let nodes = store.get_nodes();
    let reaction = match plan_pairs(&nodes, name, target_id) {
        Ok(pairs) => run_pairs(store, &pairs, unlink),
        Err(_) => {
            let mut failed: Vec<Command> = Vec::new();
            failed.push(command.clone());
            assert(command_views(failed@) =~= seq![command@]);
            Reaction { requests: Vec::new(), failed, quit: false }
        },
    };
    assert(reaction@ == reaction_by_name(
        store@,
        node_views(nodes@),
        command@,
        name@,
        target_id,
        unlink,
    ));
    reaction
}

/// What the session does in answer to one command: nothing but to end its
/// loop for `CloseThread`, and otherwise the requests that the command
/// resolves into against the store, with what did not resolve reported.
pub fn execute(store: &GraphStore, command: &Command) -> (reaction: Reaction)
    ensures
        reacts(store@, command@, reaction@),
{
    match command {
        Command::CloseThread => {
            let reaction = Reaction { requests: Vec::new(), failed: Vec::new(), quit: true };
            assert(reaction@.failed =~= Seq::<CommandView>::empty());
            reaction
        },
        Command::LinkPorts { input_port, output_port } => {
            let mut pairs: Vec<PortPair> = Vec::new();
            pairs.push(PortPair { input_port: *input_port, output_port: *output_port });
            run_pairs(store, &pairs, false)
        },
        Command::UnLinkPorts { input_port, output_port } => {
            let mut pairs: Vec<PortPair> = Vec::new();
            pairs.push(PortPair { input_port: *input_port, output_port: *output_port });
            run_pairs(store, &pairs, true)
        },
        Command::LinkNodesNameToId { output_nodes_name, input_node_id } => run_by_name(
            store,
            command,
            output_nodes_name.as_str(),
            *input_node_id,
            false,
        ),
        Command::UnLinkNodesNameToId { output_nodes_name, input_node_id } => run_by_name(
            store,
            command,
            output_nodes_name.as_str(),
            *input_node_id,
            true,
        ),
    }
}

} // verus!

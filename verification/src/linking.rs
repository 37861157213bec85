//! The linking engine: from "connect the nodes of this name to that node" to
//! pairs of ports, by the names that channel ports conventionally carry.

use vstd::prelude::*;
use crate::command::{command_views, Command, CommandView, PortPair};
use crate::entity::{
    node_views,
    port_views,
    Direction,
    NodeView,
    PipewireNode,
    PipewirePort,
    PortView,
};
use crate::error::GraphError;
use crate::store::{lists_nodes, GraphStore};
use crate::text::{contains, is_substring, same_text};

verus! {

/// A condition on a port: its direction, or the channel that its name announces.
#[derive(Clone, Copy, Debug, PartialEq, Eq, Structural)]
pub enum PortTest {
    /// The port is an output.
    Output,
    /// The port is an input.
    Input,
    /// The name holds `FR`.
    FrontRight,
    /// The name holds `FL`.
    FrontLeft,
    /// The name holds `FL` and does not hold `FR`.
    FrontLeftOnly,
    /// The name is `MONO`.
    Mono,
}

impl PortTest {
    /// The port meets the condition.
    pub open spec fn holds(self, port: PortView) -> bool {
        match self {
            PortTest::Output => port.direction == Direction::Output,
            PortTest::Input => port.direction == Direction::Input,
            PortTest::FrontRight => is_substring(port.name, "FR"@),
            PortTest::FrontLeft => is_substring(port.name, "FL"@),
            PortTest::FrontLeftOnly => !is_substring(port.name, "FR"@) && is_substring(
                port.name,
                "FL"@,
            ),
            PortTest::Mono => port.name == "MONO"@,
        }
    }

    /// The condition as a predicate.
    pub open spec fn predicate(self) -> spec_fn(PortView) -> bool {
        |port: PortView| self.holds(port)
    }

    /// Whether the port meets the condition.
    pub fn check(&self, port: &PipewirePort) -> (met: bool)
        ensures
            met == self.holds(port@),
    {
        match self {
            PortTest::Output => port.direction == Direction::Output,
            PortTest::Input => port.direction == Direction::Input,
            PortTest::FrontRight => contains(port.name.as_str(), "FR"),
            PortTest::FrontLeft => contains(port.name.as_str(), "FL"),
            PortTest::FrontLeftOnly => !contains(port.name.as_str(), "FR") && contains(
                port.name.as_str(),
                "FL",
            ),
            PortTest::Mono => same_text(port.name.as_str(), "MONO"),
        }
    }
}

/// Borrowed ports as mathematics, one for one.
pub open spec fn borrowed_views(ports: Seq<&PipewirePort>) -> Seq<PortView> {
    ports.map_values(|port: &PipewirePort| port@)
}

/// The first port that meets the condition, if any does.
pub open spec fn first_port(ports: Seq<PortView>, test: PortTest) -> Option<PortView>
    decreases ports.len(),
{
    if ports.len() == 0 {
        None
    } else if test.holds(ports[0]) {
        Some(ports[0])
    } else {
        first_port(ports.drop_first(), test)
    }
}

/// The first node with the given id, if there is one.
pub open spec fn node_with_id(nodes: Seq<NodeView>, id: u32) -> Option<NodeView>
    decreases nodes.len(),
{
    if nodes.len() == 0 {
        None
    } else if nodes[0].id == id {
        Some(nodes[0])
    } else {
        node_with_id(nodes.drop_first(), id)
    }
}

/// The output ports of the nodes that carry the name, node after node, each
/// node's ports in the order in which the node recorded them.
pub open spec fn source_ports(nodes: Seq<NodeView>, name: Seq<char>) -> Seq<PortView>
    decreases nodes.len(),
{
    if nodes.len() == 0 {
        Seq::empty()
    } else {
        let before = source_ports(nodes.drop_last(), name);
        if nodes.last().name == name {
            before + nodes.last().ports.filter(PortTest::Output.predicate())
        } else {
            before
        }
    }
}

/// One pair for each source port, all with the same input port.
pub open spec fn pairs_into(input_port: u32, sources: Seq<PortView>) -> Seq<PortPair> {
    sources.map_values(|port: PortView| PortPair { input_port, output_port: port.id })
}

/// The pairs of ports that connect the nodes of a name to a target node.
///
/// The sources are the output ports of the nodes with that name, those that
/// announce the right channel and, of the others, those that announce the
/// left. The targets are taken from the input ports that the target node has
/// recorded. Where one announces the right channel and one the left, right
/// goes to right and left to left. Otherwise, where one is called `MONO`,
/// right and left both go to it. There are no pairs to speak of where the
/// target node is missing or offers neither.
pub open spec fn pair_plan(nodes: Seq<NodeView>, name: Seq<char>, target_id: u32) -> Option<
    Seq<PortPair>,
> {
    match node_with_id(nodes, target_id) {
        None => None,
        Some(target) => {
            let sources = source_ports(nodes, name);
            let right = sources.filter(PortTest::FrontRight.predicate());
            let left = sources.filter(PortTest::FrontLeftOnly.predicate());
            let inputs = target.ports.filter(PortTest::Input.predicate());
            let to_right = first_port(inputs, PortTest::FrontRight);
            let to_left = first_port(inputs, PortTest::FrontLeft);
            let to_mono = first_port(inputs, PortTest::Mono);
            if to_right is Some && to_left is Some {
                Some(pairs_into(to_right->0.id, right) + pairs_into(to_left->0.id, left))
            } else if to_mono is Some {
                Some(pairs_into(to_mono->0.id, right + left))
            } else {
                None
            }
        },
    }
}

/// The ports that meet the condition, in their order.
pub fn select_ports<'a>(ports: &Vec<&'a PipewirePort>, test: PortTest) -> (selected: Vec<
    &'a PipewirePort,
>)
    ensures
        borrowed_views(selected@) == borrowed_views(ports@).filter(test.predicate()),
{
    let mut selected: Vec<&'a PipewirePort> = Vec::new();
    let n = ports.len();
    let mut i: usize = 0;
    while i < n
        invariant
            i <= n,
            n == ports@.len(),
            borrowed_views(selected@) == borrowed_views(ports@).take(i as int).filter(
                test.predicate(),
            ),
        decreases n - i,
    {
        let ghost all = borrowed_views(ports@);
        proof {
            assert(all.take(i + 1) =~= all.take(i as int).push(all[i as int]));
            all.take(i as int).lemma_filter_push(all[i as int], test.predicate());
        }
        let port = ports[i];
        if test.check(port) {
            selected.push(port);
        }
        i += 1;
    }
    assert(borrowed_views(ports@).take(n as int) =~= borrowed_views(ports@));
    selected
}

/// A port that meets the condition, with none before it that does, is the
/// first port that `first_port` speaks of.
pub proof fn lemma_first_port_at(ports: Seq<PortView>, test: PortTest, at: int)
    requires
        0 <= at < ports.len(),
        test.holds(ports[at]),
        forall|j: int| 0 <= j < at ==> !test.holds(#[trigger] ports[j]),
    ensures
        first_port(ports, test) == Some(ports[at]),
    decreases at,
{
    if at > 0 {
        let rest = ports.drop_first();
        lemma_first_port_at(rest, test, at - 1);
    }
}

/// Where no port meets the condition there is no first port.
pub proof fn lemma_first_port_none(ports: Seq<PortView>, test: PortTest)
    requires
        forall|j: int| 0 <= j < ports.len() ==> !test.holds(#[trigger] ports[j]),
    ensures
        first_port(ports, test) is None,
    decreases ports.len(),
{
    if ports.len() > 0 {
        let rest = ports.drop_first();
        lemma_first_port_none(rest, test);
    }
}

/// A node with the id, with none before it that has the id, is the node that
/// `node_with_id` speaks of.
pub proof fn lemma_node_with_id_at(nodes: Seq<NodeView>, id: u32, at: int)
    requires
        0 <= at < nodes.len(),
        nodes[at].id == id,
        forall|j: int| 0 <= j < at ==> (#[trigger] nodes[j]).id != id,
    ensures
        node_with_id(nodes, id) == Some(nodes[at]),
    decreases at,
{
    if at > 0 {
        let rest = nodes.drop_first();
        lemma_node_with_id_at(rest, id, at - 1);
    }
}

/// Where no node has the id, `node_with_id` finds none.
pub proof fn lemma_node_with_id_none(nodes: Seq<NodeView>, id: u32)
    requires
        forall|j: int| 0 <= j < nodes.len() ==> (#[trigger] nodes[j]).id != id,
    ensures
        node_with_id(nodes, id) is None,
    decreases nodes.len(),
{
    if nodes.len() > 0 {
        let rest = nodes.drop_first();
        lemma_node_with_id_none(rest, id);
    }
}

/// The first port that meets the condition, if any does.
pub fn find_port<'a>(ports: &Vec<&'a PipewirePort>, test: PortTest) -> (found: Option<
    &'a PipewirePort,
>)
    ensures
        match found {
            Some(port) => first_port(borrowed_views(ports@), test) == Some(port@),
            None => first_port(borrowed_views(ports@), test) is None,
        },
{
    let n = ports.len();
    let mut i: usize = 0;
    while i < n
        invariant
            i <= n,
            n == ports@.len(),
            forall|j: int| 0 <= j < i ==> !test.holds(#[trigger] borrowed_views(ports@)[j]),
        decreases n - i,
    {
        let port = ports[i];
        if test.check(port) {
            proof {
                lemma_first_port_at(borrowed_views(ports@), test, i as int);
            }
            return Some(port);
        }
        i += 1;
    }
    proof {
        lemma_first_port_none(borrowed_views(ports@), test);
    }
    None
}

/// The first node with the given id, if there is one.
pub fn find_node(nodes: &Vec<PipewireNode>, id: u32) -> (found: Option<&PipewireNode>)
    ensures
        match found {
            Some(node) => node_with_id(node_views(nodes@), id) == Some(node@),
            None => node_with_id(node_views(nodes@), id) is None,
        },
{
    let n = nodes.len();
    let mut i: usize = 0;
    while i < n
        invariant
            i <= n,
            n == nodes@.len(),
            forall|j: int| 0 <= j < i ==> (#[trigger] node_views(nodes@)[j]).id != id,
        decreases n - i,
    {
        if nodes[i].id == id {
            proof {
                lemma_node_with_id_at(node_views(nodes@), id, i as int);
            }
            return Some(&nodes[i]);
        }
        i += 1;
    }
    proof {
        lemma_node_with_id_none(node_views(nodes@), id);
    }
    None
}

/// Adds a borrow of each port that meets the condition, in their order.
fn gather_ports<'a>(
    into: &mut Vec<&'a PipewirePort>,
    ports: &'a Vec<PipewirePort>,
    test: PortTest,
)
    ensures
        borrowed_views(final(into)@) == borrowed_views(old(into)@) + port_views(ports@).filter(
            test.predicate(),
        ),
{
    let ghost start = borrowed_views(into@);
    let ghost all = port_views(ports@);
    let n = ports.len();
    let mut i: usize = 0;
    proof {
        reveal(Seq::filter);
    }
    while i < n
        invariant
            i <= n,
            n == ports@.len(),
            all == port_views(ports@),
            borrowed_views(into@) == start + all.take(i as int).filter(test.predicate()),
        decreases n - i,
    {
        let ghost before = into@;
        proof {
            assert(all.take(i + 1) =~= all.take(i as int).push(all[i as int]));
            all.take(i as int).lemma_filter_push(all[i as int], test.predicate());
        }
        let port = &ports[i];
        if test.check(port) {
            into.push(port);
            assert(borrowed_views(into@) =~= borrowed_views(before).push(port@));
        }
        i += 1;
    }
    assert(all.take(n as int) =~= all);
}

/// The output ports of the nodes that carry the name.
pub fn sources_named<'a>(nodes: &'a Vec<PipewireNode>, name: &str) -> (sources: Vec<
    &'a PipewirePort,
>)
    ensures
        borrowed_views(sources@) == source_ports(node_views(nodes@), name@),
{
    let mut sources: Vec<&'a PipewirePort> = Vec::new();
    let ghost all = node_views(nodes@);
    let n = nodes.len();
    let mut i: usize = 0;
    while i < n
        invariant
            i <= n,
            n == nodes@.len(),
            all == node_views(nodes@),
            borrowed_views(sources@) == source_ports(all.take(i as int), name@),
        decreases n - i,
    {
        proof {
            assert(all.take(i + 1).drop_last() =~= all.take(i as int));
        }
        let node = &nodes[i];
        if same_text(node.name.as_str(), name) {
            gather_ports(&mut sources, &node.ports, PortTest::Output);
        }
        i += 1;
    }
    assert(all.take(n as int) =~= all);
    sources
}

/// One pair for each source port, all with the same input port.
fn pair_up(pairs: &mut Vec<PortPair>, input_port: u32, sources: &Vec<&PipewirePort>)
    ensures
        final(pairs)@ == old(pairs)@ + pairs_into(input_port, borrowed_views(sources@)),
{
    let ghost start = pairs@;
    let ghost all = pairs_into(input_port, borrowed_views(sources@));
    let n = sources.len();
    let mut i: usize = 0;
    while i < n
        invariant
            i <= n,
            n == sources@.len(),
            all == pairs_into(input_port, borrowed_views(sources@)),
            pairs@ == start + all.take(i as int),
        decreases n - i,
    {
        pairs.push(PortPair { input_port, output_port: sources[i].id });
        i += 1;
    }
}

/// The pairs of ports that connect the nodes of a name to a target node, as
/// `pair_plan` sets them out, from a snapshot of the nodes. Where the plan
/// has none to speak of, the resolution has failed.
pub fn plan_pairs(nodes: &Vec<PipewireNode>, name: &str, target_id: u32) -> (plan: Result<
    Vec<PortPair>,
    GraphError,
>)
    ensures
        match pair_plan(node_views(nodes@), name@, target_id) {
            Some(pairs) => plan matches Ok(found) && found@ == pairs,
            None => plan == Err::<Vec<PortPair>, GraphError>(GraphError::ResolutionFailure),
        },
{
    let target = match find_node(nodes, target_id) {
        Some(node) => node,
        None => {
            return Err(GraphError::ResolutionFailure);
        },
    };
    let sources = sources_named(nodes, name);
    let right = select_ports(&sources, PortTest::FrontRight);
    let left = select_ports(&sources, PortTest::FrontLeftOnly);
    let mut inputs: Vec<&PipewirePort> = Vec::new();
    gather_ports(&mut inputs, &target.ports, PortTest::Input);
    let to_right = find_port(&inputs, PortTest::FrontRight);
    let to_left = find_port(&inputs, PortTest::FrontLeft);
    let to_mono = find_port(&inputs, PortTest::Mono);
    let mut pairs: Vec<PortPair> = Vec::new();
    match (to_right, to_left, to_mono) {
        (Some(to_right), Some(to_left), _) => {
            pair_up(&mut pairs, to_right.id, &right);
            pair_up(&mut pairs, to_left.id, &left);
            Ok(pairs)
        },
        (_, _, Some(to_mono)) => {
            pair_up(&mut pairs, to_mono.id, &right);
            pair_up(&mut pairs, to_mono.id, &left);
            Ok(pairs)
        },
        _ => Err(GraphError::ResolutionFailure),
    }
}

/// The command that links the two ports of a pair.
pub open spec fn link_command(pair: PortPair) -> CommandView {
    CommandView::LinkPorts { input_port: pair.input_port, output_port: pair.output_port }
}

/// The command that unlinks the two ports of a pair.
pub open spec fn unlink_command(pair: PortPair) -> CommandView {
    CommandView::UnLinkPorts { input_port: pair.input_port, output_port: pair.output_port }
}

/// One command for each pair: to link its ports, or to unlink them.
pub open spec fn pair_commands(pairs: Seq<PortPair>, unlink: bool) -> Seq<CommandView> {
    pairs.map_values(
        |pair: PortPair|
            if unlink {
                unlink_command(pair)
            } else {
                link_command(pair)
            },
    )
}

/// What a request by name comes to, given a snapshot of the nodes: one
/// command for each pair of the plan, in the plan's order, or a failed
/// resolution where the plan has no pairs to speak of.
pub open spec fn commands_by_name(
    nodes: Seq<NodeView>,
    name: Seq<char>,
    target_id: u32,
    unlink: bool,
    outcome: Result<Vec<Command>, GraphError>,
) -> bool {
    match pair_plan(nodes, name, target_id) {
        Some(pairs) => outcome matches Ok(commands) && command_views(commands@) == pair_commands(
            pairs,
            unlink,
        ),
        None => outcome == Err::<Vec<Command>, GraphError>(GraphError::ResolutionFailure),
    }
}

/// One command for each pair, in their order.
pub fn commands_for(pairs: &Vec<PortPair>, unlink: bool) -> (commands: Vec<Command>)
    ensures
        command_views(commands@) == pair_commands(pairs@, unlink),
{
    let mut commands: Vec<Command> = Vec::new();
    let n = pairs.len();
    let mut i: usize = 0;
    while i < n
        invariant
            i <= n,
            n == pairs@.len(),
            commands@.len() == i,
            forall|j: int|
                0 <= j < i ==> (#[trigger] commands@[j])@ == pair_commands(pairs@, unlink)[j],
        decreases n - i,
    {
        let pair = pairs[i];
        if unlink {
            commands.push(
                Command::UnLinkPorts { input_port: pair.input_port, output_port: pair.output_port },
            );
        } else {
            commands.push(
                Command::LinkPorts { input_port: pair.input_port, output_port: pair.output_port },
            );
        }
        i += 1;
    }
    commands
}

/// The commands that connect every node of the given name to the target
/// node: from a snapshot of the store's nodes, one `LinkPorts` for each pair
/// of `pair_plan`. Fails with `ResolutionFailure`, and gives no command, where
/// the target node is missing or has no input port to take the channels.
pub fn link_nodes_by_name(store: &GraphStore, name: &str, target_node_id: u32) -> (outcome: Result<
    Vec<Command>,
    GraphError,
>)
    ensures
        exists|nodes: Seq<NodeView>|
            lists_nodes(store@, nodes) && #[trigger] commands_by_name(
                nodes,
                name@,
                target_node_id,
                false,
                outcome,
            ),
{
    let nodes = store.get_nodes();
    let outcome = match plan_pairs(&nodes, name, target_node_id) {
        Ok(pairs) => Ok(commands_for(&pairs, false)),
        Err(error) => Err(error),
    };
    assert(commands_by_name(node_views(nodes@), name@, target_node_id, false, outcome));
    outcome
}

/// The commands that undo `link_nodes_by_name`: one `UnLinkPorts` for each
/// pair of `pair_plan`, or `ResolutionFailure` under the same conditions.
pub fn unlink_nodes_by_name(store: &GraphStore, name: &str, target_node_id: u32) -> (outcome:
    Result<Vec<Command>, GraphError>)
    ensures
        exists|nodes: Seq<NodeView>|
            lists_nodes(store@, nodes) && #[trigger] commands_by_name(
                nodes,
                name@,
                target_node_id,
                true,
                outcome,
            ),
{
    let nodes = store.get_nodes();
    let outcome = match plan_pairs(&nodes, name, target_node_id) {
        Ok(pairs) => Ok(commands_for(&pairs, true)),
        Err(error) => Err(error),
    };
    assert(commands_by_name(node_views(nodes@), name@, target_node_id, true, outcome));
    outcome
}

} // verus!

//! What holds of the store over whole runs of change messages and across
//! several snapshots, and of the linking plan for whole classes of targets.

use vstd::prelude::*;
use crate::entity::{Direction, EntityView, NodeView};
use crate::error::GraphError;
use crate::linking::{
    lemma_first_port_at,
    lemma_first_port_none,
    node_with_id,
    pair_plan,
    pairs_into,
    source_ports,
    PortTest,
};
use crate::message::MessageView;
use crate::query::QueryView;
use crate::store::{apply_spec, keyed_by_id, lists_matching, lists_nodes, replay, Graph};
use crate::text::is_substring;
use crate::translate::{translation, ObjectKind, ObjectView};

verus! {

/// Some message creates the id and no later message deletes it.
pub open spec fn created_and_kept(messages: Seq<MessageView>, id: u32) -> bool {
    exists|i: int|
        0 <= i < messages.len() && (#[trigger] messages[i]).is_create() && messages[i].id() == id
            && never_deleted(messages.skip(i + 1), id)
}

/// No message deletes the id.
pub open spec fn never_deleted(messages: Seq<MessageView>, id: u32) -> bool {
    forall|j: int| 0 <= j < messages.len() ==> #[trigger] messages[j] != MessageView::DeleteItem(id)
}

/// One message leaves an id in the graph exactly if it creates the id, or the
/// id was there and the message does not delete it.
pub proof fn lemma_apply_presence(graph: Graph, message: MessageView, id: u32)
    ensures
        apply_spec(graph, message).contains_key(id) <==> (message.is_create() && message.id() == id)
            || (graph.contains_key(id) && message != MessageView::DeleteItem(id)),
{
}

/// After a run of messages the graph holds exactly the ids that a message
/// created with no later delete, and the ids that it held before the run and
/// that no message deleted.
pub proof fn lemma_replay_presence(graph: Graph, messages: Seq<MessageView>, id: u32)
    ensures
        replay(graph, messages).contains_key(id) <==> created_and_kept(messages, id) || (
        graph.contains_key(id) && never_deleted(messages, id)),
    decreases messages.len(),
{
    if messages.len() > 0 {
        let rest = messages.drop_last();
        let last = messages.last();
        let n = rest.len() as int;
        lemma_replay_presence(graph, rest, id);
        lemma_apply_presence(replay(graph, rest), last, id);
        if last == MessageView::DeleteItem(id) {
            // A delete at the end undoes every create before it.
            assert(!created_and_kept(messages, id)) by {
                if created_and_kept(messages, id) {
                    let i = choose|i: int|
                        0 <= i < messages.len() && (#[trigger] messages[i]).is_create()
                            && messages[i].id() == id && never_deleted(messages.skip(i + 1), id);
                    assert(messages.skip(i + 1)[n - i - 1] == messages[n]);
                }
            }
        } else if !(last.is_create() && last.id() == id) {
            // The last message neither creates nor deletes the id: what
            // holds of the whole run holds of the run without it.
            assert(never_deleted(messages, id) <==> never_deleted(rest, id)) by {
                if never_deleted(rest, id) {
                    assert forall|j: int| 0 <= j < messages.len() implies #[trigger] messages[j]
                        != MessageView::DeleteItem(id) by {
                        if j < n {
                            assert(rest[j] == messages[j]);
                        }
                    }
                }
            }
            assert(created_and_kept(messages, id) <==> created_and_kept(rest, id)) by {
                if created_and_kept(rest, id) {
                    let i = choose|i: int|
                        0 <= i < rest.len() && (#[trigger] rest[i]).is_create() && rest[i].id()
                            == id && never_deleted(rest.skip(i + 1), id);
                    assert forall|j: int|
                        0 <= j < messages.skip(i + 1).len() implies #[trigger] messages.skip(
                        i + 1,
                    )[j] != MessageView::DeleteItem(id) by {
                        if j < rest.skip(i + 1).len() {
                            assert(rest.skip(i + 1)[j] == messages.skip(i + 1)[j]);
                        }
                    }
                }
                if created_and_kept(messages, id) {
                    let i = choose|i: int|
                        0 <= i < messages.len() && (#[trigger] messages[i]).is_create()
                            && messages[i].id() == id && never_deleted(messages.skip(i + 1), id);
                    assert(rest[i] == messages[i]);
                    assert forall|j: int| 0 <= j < rest.skip(i + 1).len() implies #[trigger] rest.skip(
                        i + 1,
                    )[j] != MessageView::DeleteItem(id) by {
                        assert(rest.skip(i + 1)[j] == messages.skip(i + 1)[j]);
                    }
                }
            }
        }
    }
}

/// Replayed from an empty graph, a run of messages leaves exactly the ids
/// that a message created with no later delete.
pub proof fn lemma_replay_from_empty(messages: Seq<MessageView>, id: u32)
    ensures
        replay(Map::empty(), messages).contains_key(id) <==> created_and_kept(messages, id),
{
    lemma_replay_presence(Map::empty(), messages, id);
}

/// A run of messages keeps every object under its own id.
pub proof fn lemma_replay_keeps_keys(graph: Graph, messages: Seq<MessageView>)
    requires
        keyed_by_id(graph),
    ensures
        keyed_by_id(replay(graph, messages)),
    decreases messages.len(),
{
    if messages.len() > 0 {
        lemma_replay_keeps_keys(graph, messages.drop_last());
    }
}

/// Creating a node twice under one id leaves one node under that id, the
/// second: the graph is as if only the second had been created, and every
/// listing of the nodes holds the id at one place.
pub proof fn lemma_create_node_twice(graph: Graph, first: NodeView, second: NodeView)
    requires
        first.id == second.id,
    ensures
        ({
            let once = apply_spec(graph, MessageView::CreateNode(first));
            let twice = apply_spec(once, MessageView::CreateNode(second));
            &&& twice == apply_spec(graph, MessageView::CreateNode(second))
            &&& twice.dom() == graph.dom().insert(second.id)
            &&& twice[second.id] == EntityView::Node(second)
            &&& forall|nodes: Seq<NodeView>| #[trigger]
                lists_nodes(twice, nodes) ==> exists|i: int|
                    0 <= i < nodes.len() && nodes[i] == second && forall|j: int|
                        0 <= j < nodes.len() && (#[trigger] nodes[j]).id == second.id ==> j == i
        }),
{
    let once = apply_spec(graph, MessageView::CreateNode(first));
    let twice = apply_spec(once, MessageView::CreateNode(second));
    assert forall|nodes: Seq<NodeView>| #[trigger] lists_nodes(twice, nodes) implies exists|i: int|
        0 <= i < nodes.len() && nodes[i] == second && forall|j: int|
            0 <= j < nodes.len() && (#[trigger] nodes[j]).id == second.id ==> j == i by {
        assert(twice.contains_key(second.id));
    }
}

/// The snapshots by direction lie within the snapshot of all nodes, and a
/// node of unknown direction is in the snapshot of all nodes and in neither
/// the input nor the output snapshot.
pub proof fn lemma_direction_snapshots(
    graph: Graph,
    all: Seq<NodeView>,
    inputs: Seq<NodeView>,
    outputs: Seq<NodeView>,
)
    requires
        lists_nodes(graph, all),
        lists_matching(graph, QueryView::Facing(Direction::Input), inputs),
        lists_matching(graph, QueryView::Facing(Direction::Output), outputs),
    ensures
        forall|i: int| 0 <= i < inputs.len() ==> all.contains(#[trigger] inputs[i]),
        forall|i: int| 0 <= i < outputs.len() ==> all.contains(#[trigger] outputs[i]),
        forall|id: u32|
            graph.contains_key(id) && graph[id] is Node && (#[trigger] graph[id])->Node_0.node_direction
                == Direction::Unknown ==> all.contains(graph[id]->Node_0) && !inputs.contains(
                graph[id]->Node_0,
            ) && !outputs.contains(graph[id]->Node_0),
{
    assert forall|i: int| 0 <= i < inputs.len() implies all.contains(#[trigger] inputs[i]) by {
        lemma_listed(graph, all, inputs[i]);
    }
    assert forall|i: int| 0 <= i < outputs.len() implies all.contains(#[trigger] outputs[i]) by {
        lemma_listed(graph, all, outputs[i]);
    }
    assert forall|id: u32|
        graph.contains_key(id) && graph[id] is Node && (#[trigger] graph[id])->Node_0.node_direction
            == Direction::Unknown implies all.contains(graph[id]->Node_0) && !inputs.contains(
        graph[id]->Node_0,
    ) && !outputs.contains(graph[id]->Node_0) by {
        let node = graph[id]->Node_0;
        lemma_listed(graph, all, node);
    }
}

/// A listing of all nodes holds each node of the graph.
pub proof fn lemma_listed(graph: Graph, all: Seq<NodeView>, node: NodeView)
    requires
        lists_nodes(graph, all),
        graph.contains_key(node.id),
        graph[node.id] == EntityView::Node(node),
    ensures
        all.contains(node),
{
}

/// `MONO` announces neither the right channel nor the left.
pub proof fn lemma_mono_names_no_channel()
    ensures
        !is_substring("MONO"@, "FR"@),
        !is_substring("MONO"@, "FL"@),
{
    reveal_strlit("MONO");
    reveal_strlit("FR");
    reveal_strlit("FL");
    assert forall|start: int| 0 <= start <= 2 implies #[trigger] "MONO"@.subrange(start, start + 2)
        != "FR"@ && "MONO"@.subrange(start, start + 2) != "FL"@ by {
        assert("MONO"@.subrange(start, start + 2)[0] == "MONO"@[start]);
    }
}

/// A target node without input ports resolves nothing: whatever the sources,
/// the plan has no pairs to speak of.
pub proof fn lemma_no_inputs_no_plan(nodes: Seq<NodeView>, name: Seq<char>, target_id: u32)
    requires
        node_with_id(nodes, target_id) matches Some(target) && forall|i: int|
            0 <= i < target.ports.len() ==> (#[trigger] target.ports[i]).direction
                != Direction::Input,
    ensures
        pair_plan(nodes, name, target_id) is None,
{
    let target = node_with_id(nodes, target_id)->0;
    let inputs = target.ports.filter(PortTest::Input.predicate());
    target.ports.lemma_all_neg_filter_empty(PortTest::Input.predicate());
}

/// A target node whose input ports are all called `MONO` takes every
/// channel on the first of them: the right sources first, then the left.
pub proof fn lemma_mono_fallback(nodes: Seq<NodeView>, name: Seq<char>, target_id: u32)
    requires
        node_with_id(nodes, target_id) matches Some(target) && ({
            let inputs = target.ports.filter(PortTest::Input.predicate());
            inputs.len() > 0 && forall|i: int|
                0 <= i < inputs.len() ==> (#[trigger] inputs[i]).name == "MONO"@
        }),
    ensures
        ({
            let target = node_with_id(nodes, target_id)->0;
            let inputs = target.ports.filter(PortTest::Input.predicate());
            let sources = source_ports(nodes, name);
            pair_plan(nodes, name, target_id) == Some(
                pairs_into(
                    inputs[0].id,
                    sources.filter(PortTest::FrontRight.predicate()) + sources.filter(
                        PortTest::FrontLeftOnly.predicate(),
                    ),
                ),
            )
        }),
{
    let target = node_with_id(nodes, target_id)->0;
    let inputs = target.ports.filter(PortTest::Input.predicate());
    lemma_mono_names_no_channel();
    lemma_first_port_none(inputs, PortTest::FrontRight);
    lemma_first_port_at(inputs, PortTest::Mono, 0);
}

/// A message about another id leaves a node in place and never takes a port
/// from its record: the ports recorded before are still there, in their
/// order, with at most the message's port added behind them.
pub proof fn lemma_recorded_ports_stay(graph: Graph, message: MessageView, id: u32)
    requires
        graph.contains_key(id),
        graph[id] is Node,
        message.id() != id,
    ensures
        ({
            let before = graph[id]->Node_0;
            let after = apply_spec(graph, message);
            &&& after.contains_key(id)
            &&& after[id] is Node
            &&& after[id]->Node_0 == NodeView { ports: after[id]->Node_0.ports, ..before }
            &&& before.ports.is_prefix_of(after[id]->Node_0.ports)
            &&& after[id]->Node_0.ports.len() <= before.ports.len() + 1
        }),
{
}

/// A link is announced to the aggregator once: when the message for an
/// announced link has been applied, the same announcement gives no message.
pub proof fn lemma_link_reported_once(graph: Graph, object: ObjectView)
    requires
        object.kind == ObjectKind::Link,
        translation(graph, object) matches Ok(Some(_)),
    ensures
        ({
            let message = translation(graph, object)->Ok_0->0;
            translation(apply_spec(graph, message), object) == Ok::<
                Option<MessageView>,
                GraphError,
            >(None)
        }),
{
}

} // verus!

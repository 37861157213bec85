//! Waiting for a node to appear: the decisions of the polling task, which
//! itself sleeps and measures time outside this library.

use vstd::prelude::*;
use crate::entity::{node_views, NodeView, PipewireNode};
use crate::query::{DirectionFilter, NodeQuery, QueryView};
use crate::store::{lists_matching, Graph, GraphStore};
use crate::text::same_text;

verus! {

/// The time between two polls, in milliseconds.
pub const POLL_INTERVAL_MS: u64 = 500;

/// What the polling task is to do next.
#[derive(Debug, PartialEq, Eq)]
pub enum WaitStep {
    /// Resolve with this node and stop.
    Found(PipewireNode),
    /// Resolve as timed out, which is an outcome and no error, and stop.
    TimedOut,
    /// Sleep for so many milliseconds, then poll again.
    Sleep { millis: u64 },
    /// The wait has resolved before; there is nothing left to report.
    Done,
}

/// A step as mathematics.
pub enum StepView {
    Found(NodeView),
    TimedOut,
    Sleep { millis: u64 },
    Done,
}

impl View for WaitStep {
    type V = StepView;

    open spec fn view(&self) -> StepView {
        match self {
            WaitStep::Found(node) => StepView::Found(node@),
            WaitStep::TimedOut => StepView::TimedOut,
            WaitStep::Sleep { millis } => StepView::Sleep { millis: *millis },
            WaitStep::Done => StepView::Done,
        }
    }
}

/// The ids of the nodes, one for one.
pub open spec fn node_ids(nodes: Seq<NodeView>) -> Seq<u32> {
    nodes.map_values(|node: NodeView| node.id)
}

/// The first node whose id is not in the baseline, if there is one.
pub open spec fn first_new_node(baseline: Seq<u32>, current: Seq<NodeView>) -> Option<NodeView>
    decreases current.len(),
{
    if current.len() == 0 {
        None
    } else if !baseline.contains(current[0].id) {
        Some(current[0])
    } else {
        first_new_node(baseline, current.drop_first())
    }
}

/// The step that one poll comes to: a new node resolves the wait; without
/// one, the wait times out once the time elapsed exceeds the timeout, and
/// goes on after a sleep until then.
pub open spec fn step_spec(
    baseline: Seq<u32>,
    timeout_ms: u128,
    current: Seq<NodeView>,
    elapsed_ms: u128,
) -> StepView {
    match first_new_node(baseline, current) {
        Some(node) => StepView::Found(node),
        None => if elapsed_ms > timeout_ms {
            StepView::TimedOut
        } else {
            StepView::Sleep { millis: POLL_INTERVAL_MS }
        },
    }
}

/// A node outside the baseline, with none before it, is the first new node.
pub proof fn lemma_first_new_node_at(baseline: Seq<u32>, current: Seq<NodeView>, at: int)
    requires
        0 <= at < current.len(),
        !baseline.contains(current[at].id),
        forall|j: int| 0 <= j < at ==> baseline.contains((#[trigger] current[j]).id),
    ensures
        first_new_node(baseline, current) == Some(current[at]),
    decreases at,
{
    if at > 0 {
        let rest = current.drop_first();
        lemma_first_new_node_at(baseline, rest, at - 1);
    }
}

/// Where every node is in the baseline there is no new node.
pub proof fn lemma_first_new_node_none(baseline: Seq<u32>, current: Seq<NodeView>)
    requires
        forall|j: int| 0 <= j < current.len() ==> baseline.contains((#[trigger] current[j]).id),
    ensures
        first_new_node(baseline, current) is None,
    decreases current.len(),
{
    if current.len() > 0 {
        let rest = current.drop_first();
        lemma_first_new_node_none(baseline, rest);
    }
}

/// The filter that a direction name asks for: `Input`, `Output`, and both
/// for any other name.
pub open spec fn filter_named(name: Seq<char>) -> DirectionFilter {
    if name == "Input"@ {
        DirectionFilter::Input
    } else if name == "Output"@ {
        DirectionFilter::Output
    } else {
        DirectionFilter::Any
    }
}

/// The filter that a direction name asks for.
pub fn direction_filter(name: &str) -> (filter: DirectionFilter)
    ensures
        filter == filter_named(name@),
{
    if same_text(name, "Input") {
        DirectionFilter::Input
    } else if same_text(name, "Output") {
        DirectionFilter::Output
    } else {
        DirectionFilter::Any
    }
}

/// Whether the id is in the baseline.
fn in_baseline(baseline: &Vec<u32>, id: u32) -> (known: bool)
    ensures
        known == baseline@.contains(id),
{
    let n = baseline.len();
    let mut i: usize = 0;
    while i < n
        invariant
            i <= n,
            n == baseline@.len(),
            forall|j: int| 0 <= j < i ==> baseline@[j] != id,
        decreases n - i,
    {
        if baseline[i] == id {
            return true;
        }
        i += 1;
    }
    false
}

/// The step that one poll comes to, from the nodes that match at the time of
/// the poll and the time elapsed since the wait began.
pub fn decide(
    baseline: &Vec<u32>,
    timeout_ms: u128,
    current: &Vec<PipewireNode>,
    elapsed_ms: u128,
) -> (step: WaitStep)
    ensures
        step@ == step_spec(baseline@, timeout_ms, node_views(current@), elapsed_ms),
{
    let ghost nodes = node_views(current@);
    let n = current.len();
    let mut i: usize = 0;
    while i < n
        invariant
            i <= n,
            n == current@.len(),
            nodes == node_views(current@),
            forall|j: int| 0 <= j < i ==> baseline@.contains((#[trigger] nodes[j]).id),
        decreases n - i,
    {
        if !in_baseline(baseline, current[i].id) {
            proof {
                lemma_first_new_node_at(baseline@, nodes, i as int);
            }
            return WaitStep::Found(current[i].clone());
        }
        i += 1;
    }
    proof {
        lemma_first_new_node_none(baseline@, nodes);
    }
    if elapsed_ms > timeout_ms {
        WaitStep::TimedOut
    } else {
        WaitStep::Sleep { millis: POLL_INTERVAL_MS }
    }
}

/// A wait for a node that was not there when the wait began.
#[derive(Debug, PartialEq, Eq)]
pub struct NodeWait {
    /// Which nodes count: those whose name holds a fragment and whose
    /// direction a filter accepts.
    pub query: NodeQuery,
    /// The time after which the wait gives up, in milliseconds.
    pub timeout_ms: u128,
    /// The ids of the nodes that matched when the wait began.
    pub baseline: Vec<u32>,
    /// The wait has resolved, with a node or as timed out.
    pub settled: bool,
}

impl NodeWait {
    /// Begins a wait: the nodes that match now are the baseline that a new
    /// node is told from.
    pub fn begin(
        store: &GraphStore,
        name_substring: String,
        direction_filter: DirectionFilter,
        timeout_ms: u128,
    ) -> (wait: NodeWait)
        ensures
            wait.query@ == (QueryView::Named { fragment: name_substring@, facing: direction_filter }),
            wait.timeout_ms == timeout_ms,
            !wait.settled,
            exists|nodes: Seq<NodeView>|
                lists_matching(store@, wait.query@, nodes) && wait.baseline@ == #[trigger] node_ids(
                    nodes,
                ),
    {
        let query = NodeQuery::Named { fragment: name_substring, facing: direction_filter };
        let nodes = store.select_nodes(&query);
        let mut baseline: Vec<u32> = Vec::new();
        let n = nodes.len();
        let mut i: usize = 0;
        while i < n
            invariant
                i <= n,
                n == nodes@.len(),
                baseline@ == node_ids(node_views(nodes@)).take(i as int),
            decreases n - i,
        {
            baseline.push(nodes[i].id);
            i += 1;
        }
        NodeWait { query, timeout_ms, baseline, settled: false }
    }

    /// What a poll of this wait finds, given some snapshot of the matching
    /// nodes; a wait that has resolved has nothing more to find.
    pub open spec fn finds(self, graph: Graph, elapsed_ms: u128, step: StepView) -> bool {
        if self.settled {
            step is Done
        } else {
            exists|current: Seq<NodeView>|
                lists_matching(graph, self.query@, current) && step == #[trigger] step_spec(
                    self.baseline@,
                    self.timeout_ms,
                    current,
                    elapsed_ms,
                )
        }
    }

    /// One poll. The wait resolves at most once: with the first step that is
    /// not a sleep it is settled, and every later poll answers `Done`.
    pub fn poll(&mut self, store: &GraphStore, elapsed_ms: u128) -> (step: WaitStep)
        ensures
            old(self).finds(store@, elapsed_ms, step@),
            final(self).settled == (old(self).settled || !(step is Sleep)),
            final(self).query == old(self).query,
            final(self).timeout_ms == old(self).timeout_ms,
            final(self).baseline == old(self).baseline,
    {
        if self.settled {
            return WaitStep::Done;
        }
        let current = store.select_nodes(&self.query);
        let step = decide(&self.baseline, self.timeout_ms, &current, elapsed_ms);
        match step {
            WaitStep::Sleep { .. } => {},
            _ => {
                self.settled = true;
            },
        }
        step
    }
}

} // verus!

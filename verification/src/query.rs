//! Which nodes a snapshot of the store is to hold.

use vstd::prelude::*;
use crate::entity::{Direction, NodeView, PipewireNode};
use crate::text::{contains, is_substring};

verus! {

/// The directions that a wait for a new node accepts.
#[derive(Clone, Copy, Debug, PartialEq, Eq, Structural)]
pub enum DirectionFilter {
    Input,
    Output,
    /// Input or output; a node of unknown direction is never accepted.
    Any,
}

impl DirectionFilter {
    /// The filter accepts a node of this direction.
    pub open spec fn accepts(self, direction: Direction) -> bool {
        match self {
            DirectionFilter::Input => direction == Direction::Input,
            DirectionFilter::Output => direction == Direction::Output,
            DirectionFilter::Any => direction == Direction::Input || direction
                == Direction::Output,
        }
    }

    /// Whether the filter accepts a node of this direction.
    pub fn test(&self, direction: Direction) -> (accepted: bool)
        ensures
            accepted == self.accepts(direction),
    {
        match self {
            DirectionFilter::Input => direction == Direction::Input,
            DirectionFilter::Output => direction == Direction::Output,
            DirectionFilter::Any => direction == Direction::Input || direction
                == Direction::Output,
        }
    }
}

/// A condition on nodes.
#[derive(Debug, PartialEq, Eq)]
pub enum NodeQuery {
    /// Every node.
    All,
    /// The nodes of one direction.
    Facing(Direction),
    /// The nodes whose name holds the fragment and whose direction the filter
    /// accepts.
    Named { fragment: String, facing: DirectionFilter },
}

/// A condition on nodes as mathematics.
pub enum QueryView {
    All,
    Facing(Direction),
    Named { fragment: Seq<char>, facing: DirectionFilter },
}

impl QueryView {
    /// The node meets the condition.
    pub open spec fn admits(self, node: NodeView) -> bool {
        match self {
            QueryView::All => true,
            QueryView::Facing(direction) => node.node_direction == direction,
            QueryView::Named { fragment, facing } => is_substring(node.name, fragment)
                && facing.accepts(node.node_direction),
        }
    }
}

impl View for NodeQuery {
    type V = QueryView;

    open spec fn view(&self) -> QueryView {
        match self {
            NodeQuery::All => QueryView::All,
            NodeQuery::Facing(direction) => QueryView::Facing(*direction),
            NodeQuery::Named { fragment, facing } => QueryView::Named {
                fragment: fragment@,
                facing: *facing,
            },
        }
    }
}

impl NodeQuery {
    /// Whether the node meets the condition.
    pub fn admits(&self, node: &PipewireNode) -> (admitted: bool)
        ensures
            admitted == self@.admits(node@),
    {
        match self {
            NodeQuery::All => true,
            NodeQuery::Facing(direction) => node.node_direction == *direction,
            NodeQuery::Named { fragment, facing } => contains(
                node.name.as_str(),
                fragment.as_str(),
            ) && facing.test(node.node_direction),
        }
    }
}

} // verus!

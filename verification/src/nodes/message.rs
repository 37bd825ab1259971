//! The typed message that flows between node shells: one sum type in
//! place of runtime down-casting.

use vstd::prelude::*;

use crate::nodes::apply_context_updates::ApplyContextUpdatesInput;
use crate::nodes::create_checkpoint::CreateCheckpointInput;
use crate::types::attractor_graph::AttractorGraph;
use crate::types::execution_state::ExecutionState;
use crate::types::graph_payload::GraphPayload;

verus! {

/// A value travelling between pipeline stages.
pub enum NodeMessage {
    /// Raw DOT text.
    Text(String),
    /// A parsed workflow graph.
    Graph(AttractorGraph),
    /// An execution state for the traversal loop.
    State(ExecutionState),
    /// A payload flowing through a compiled topology.
    Payload(GraphPayload),
    /// A context/outcome pair awaiting merging.
    UpdateInput(ApplyContextUpdatesInput),
    /// Resumable state awaiting snapshotting.
    CheckpointInput(CreateCheckpointInput),
}

} // verus!

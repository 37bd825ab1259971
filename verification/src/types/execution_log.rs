//! The execution log: one entry per executed step, plus run-level
//! metadata, mirroring the on-disk log schema.

use vstd::prelude::*;

use crate::types::context::RunContext;
use crate::types::node_outcome::NodeOutcome;

verus! {

/// One recorded step of a run.
#[derive(Debug, Clone)]
pub struct ExecutionStepEntry {
    /// 1-based step index.
    pub step: u32,
    /// Node that was executed.
    pub node_id: String,
    /// Handler type of that node, when known.
    pub handler_type: Option<String>,
    /// Context before executing the node.
    pub context_before: RunContext,
    /// Outcome of the node execution.
    pub outcome: NodeOutcome,
    /// Context after applying the outcome's updates.
    pub context_after: RunContext,
    /// Next node selected by the edge, if any.
    pub next_node_id: Option<String>,
    /// Completed node list after this step.
    pub completed_nodes_after: Vec<String>,
}

impl ExecutionStepEntry {
    /// Builds a step entry from its parts.
    pub fn new(
        step: u32,
        node_id: &str,
        handler_type: Option<String>,
        context_before: RunContext,
        outcome: NodeOutcome,
        context_after: RunContext,
        next_node_id: Option<String>,
        completed_nodes_after: Vec<String>,
    ) -> (r: ExecutionStepEntry)
        ensures
            r.step == step,
            r.node_id@ == node_id@,
            r.handler_type == handler_type,
            r.context_before == context_before,
            r.outcome == outcome,
            r.context_after == context_after,
            r.next_node_id == next_node_id,
            r.completed_nodes_after == completed_nodes_after,
    {
        ExecutionStepEntry {
            step,
            node_id: node_id.to_owned(),
            handler_type,
            context_before,
            outcome,
            context_after,
            next_node_id,
            completed_nodes_after,
        }
    }
}

/// Root structure of the execution log.
#[derive(Debug, Clone)]
pub struct ExecutionLog {
    /// Log format version.
    pub version: u32,
    /// Goal description.
    pub goal: String,
    /// Timestamp when the run started.
    pub started_at: String,
    /// Timestamp when the run finished; absent while still running.
    pub finished_at: Option<String>,
    /// Final outcome status when the run ended.
    pub final_status: String,
    /// Node ids completed when the run ended.
    pub completed_nodes: Vec<String>,
    /// Recorded steps in order.
    pub steps: Vec<ExecutionStepEntry>,
}

} // verus!

//! Payload that flows along the compiled topology's edges: an immutable
//! snapshot of the run context plus the outcome that produced it.

use vstd::prelude::*;

use crate::strutil;
use crate::types::checkpoint::Checkpoint;
use crate::types::context::RunContext;
use crate::types::node_outcome::NodeOutcome;
use crate::types::resume_state::ResumeState;

verus! {

/// The view of an optional outcome, up to field sameness.
pub open spec fn opt_outcome_same(a: &Option<NodeOutcome>, b: &Option<NodeOutcome>) -> bool {
    match (a, b) {
        (Some(x), Some(y)) => x.same_as(y),
        (None, None) => true,
        _ => false,
    }
}

/// Payload flowing through the compiled graph: context plus the
/// outcome of the node that last emitted, the emitting node's id and
/// the ordered list of completed node ids.
#[derive(Debug, Clone)]
pub struct GraphPayload {
    pub context: RunContext,
    pub outcome: Option<NodeOutcome>,
    /// Node id that last produced this payload.
    pub current_node_id: String,
    /// Ordered list of node ids that have completed.
    pub completed_nodes: Vec<String>,
}

impl GraphPayload {
    /// Builds a payload from its parts.
    pub fn new(
        context: RunContext,
        outcome: Option<NodeOutcome>,
        current_node_id: String,
        completed_nodes: Vec<String>,
    ) -> (r: GraphPayload)
        ensures
            r.context == context,
            r.outcome == outcome,
            r.current_node_id == current_node_id,
            r.completed_nodes == completed_nodes,
    {
        GraphPayload { context, outcome, current_node_id, completed_nodes }
    }

    /// Initial payload for graph entry: no outcome, nothing completed.
    pub fn initial(context: RunContext, start_node_id: &str) -> (r: GraphPayload)
        ensures
            r.context == context,
            r.outcome is None,
            r.current_node_id@ == start_node_id@,
            r.completed_nodes@.len() == 0,
    {
        GraphPayload {
            context,
            outcome: None,
            current_node_id: start_node_id.to_owned(),
            completed_nodes: Vec::new(),
        }
    }

    /// Initial payload for resume: context, current node and completed
    /// nodes taken from recovered resume state.
    pub fn from_resume_state(st: &ResumeState) -> (r: GraphPayload)
        ensures
            r.context.as_map() == st.context.as_map(),
            st.context.wf() ==> r.context.wf(),
            r.outcome is None,
            r.current_node_id@ == st.current_node_id@,
            r.completed_nodes@.len() == st.completed_nodes@.len(),
            forall|i: int|
                0 <= i < st.completed_nodes@.len() ==> r.completed_nodes@[i]@
                    == st.completed_nodes@[i]@,
    {
        GraphPayload {
            context: st.context.duplicate(),
            outcome: None,
            current_node_id: st.current_node_id.clone(),
            completed_nodes: strutil::clone_string_vec(&st.completed_nodes),
        }
    }

    /// Initial payload from an in-graph checkpoint.
    pub fn from_checkpoint(cp: &Checkpoint) -> (r: GraphPayload)
        ensures
            r.context.as_map() == cp.context.as_map(),
            cp.context.wf() ==> r.context.wf(),
            r.outcome is None,
            r.current_node_id@ == cp.current_node_id@,
            r.completed_nodes@.len() == cp.completed_nodes@.len(),
            forall|i: int|
                0 <= i < cp.completed_nodes@.len() ==> r.completed_nodes@[i]@
                    == cp.completed_nodes@[i]@,
    {
        GraphPayload {
            context: cp.context.duplicate(),
            outcome: None,
            current_node_id: cp.current_node_id.clone(),
            completed_nodes: strutil::clone_string_vec(&cp.completed_nodes),
        }
    }

    /// A new payload with this node recorded as current and appended to
    /// the completed list; context and outcome are carried over.
    pub fn with_node_completed(&self, node_id: &str) -> (r: GraphPayload)
        ensures
            r.context.as_map() == self.context.as_map(),
            self.context.wf() ==> r.context.wf(),
            opt_outcome_same(&r.outcome, &self.outcome),
            r.current_node_id@ == node_id@,
            r.completed_nodes@.len() == self.completed_nodes@.len() + 1,
            forall|i: int|
                0 <= i < self.completed_nodes@.len() ==> r.completed_nodes@[i]@
                    == self.completed_nodes@[i]@,
            r.completed_nodes@.last()@ == node_id@,
    {
        let mut completed = strutil::clone_string_vec(&self.completed_nodes);
        completed.push(node_id.to_owned());
        let outcome: Option<NodeOutcome> = match &self.outcome {
            Some(o) => Some(o.duplicate()),
            None => None,
        };
        GraphPayload {
            context: self.context.duplicate(),
            outcome,
            current_node_id: node_id.to_owned(),
            completed_nodes: completed,
        }
    }

    /// An independent copy with the same fields.
    pub fn duplicate(&self) -> (r: GraphPayload)
        ensures
            r.context.as_map() == self.context.as_map(),
            r.context.kvs().len() == self.context.kvs().len(),
            self.context.wf() ==> r.context.wf(),
            opt_outcome_same(&r.outcome, &self.outcome),
            r.current_node_id@ == self.current_node_id@,
            r.completed_nodes@.len() == self.completed_nodes@.len(),
            forall|i: int|
                0 <= i < self.completed_nodes@.len() ==> r.completed_nodes@[i]@
                    == self.completed_nodes@[i]@,
    {
        let outcome: Option<NodeOutcome> = match &self.outcome {
            Some(o) => Some(o.duplicate()),
            None => None,
        };
        GraphPayload {
            context: self.context.duplicate(),
            outcome,
            current_node_id: self.current_node_id.clone(),
            completed_nodes: strutil::clone_string_vec(&self.completed_nodes),
        }
    }
}

} // verus!

//! Checkpoint for resumable execution.

use vstd::prelude::*;

use crate::types::context::RunContext;

verus! {

/// Checkpoint for resumable execution: the context, the node to run
/// next, and the nodes already completed.
#[derive(Debug, Clone)]
pub struct Checkpoint {
    pub context: RunContext,
    pub current_node_id: String,
    pub completed_nodes: Vec<String>,
}

impl Checkpoint {
    /// An independent copy with the same fields.
    pub fn duplicate(&self) -> (r: Checkpoint)
        ensures
            r.context.as_map() == self.context.as_map(),
            self.context.wf() ==> r.context.wf(),
            r.current_node_id@ == self.current_node_id@,
            r.completed_nodes@.len() == self.completed_nodes@.len(),
            forall|i: int|
                0 <= i < self.completed_nodes@.len() ==> r.completed_nodes@[i]@
                    == self.completed_nodes@[i]@,
    {
        Checkpoint {
            context: self.context.duplicate(),
            current_node_id: self.current_node_id.clone(),
            completed_nodes: crate::strutil::clone_string_vec(&self.completed_nodes),
        }
    }
}

} // verus!

//! Execution state for the stepwise traversal loop, and the map of
//! per-node outcomes it records.

use vstd::prelude::*;

use crate::strutil;
use crate::types::attractor_graph::AttractorGraph;
use crate::types::attractor_node::spec_is_exit;
use crate::types::context::RunContext;
use crate::types::execution_log::ExecutionStepEntry;
use crate::types::node_outcome::NodeOutcome;

verus! {

/// A map from node id to the outcome its last execution produced,
/// in insertion order.
#[derive(Debug, Clone)]
pub struct OutcomeMap {
    entries: Vec<(String, NodeOutcome)>,
}

impl OutcomeMap {
    /// The stored entries, in insertion order.
    pub closed spec fn entries(&self) -> Seq<(String, NodeOutcome)> {
        self.entries@
    }

    /// Well-formed: no node id occurs twice.
    pub open spec fn wf(&self) -> bool {
        forall|i: int, j: int|
            0 <= i < j < self.entries().len() ==> self.entries()[i].0@ != self.entries()[j].0@
    }

    /// True when some entry carries the given node id.
    pub open spec fn spec_contains(&self, id: Seq<char>) -> bool {
        exists|i: int| 0 <= i < self.entries().len() && self.entries()[i].0@ == id
    }

    /// The empty map.
    pub fn new() -> (r: OutcomeMap)
        ensures
            r.wf(),
            r.entries().len() == 0,
    {
        OutcomeMap { entries: Vec::new() }
    }

    /// How many entries the map holds.
    pub fn len(&self) -> (r: usize)
        ensures
            r == self.entries().len(),
    {
        self.entries.len()
    }

    /// The node id of entry `i`.
    pub fn key_at(&self, i: usize) -> (r: &String)
        requires
            i < self.entries().len(),
        ensures
            r@ == self.entries()[i as int].0@,
    {
        &self.entries[i].0
    }

    /// The outcome of entry `i`.
    pub fn outcome_at(&self, i: usize) -> (r: &NodeOutcome)
        requires
            i < self.entries().len(),
        ensures
            *r == self.entries()[i as int].1,
    {
        &self.entries[i].1
    }

    /// Records the outcome of a node; a present id keeps its position
    /// and takes the new outcome.
    pub fn insert(&mut self, id: String, outcome: NodeOutcome)
        requires
            old(self).wf(),
        ensures
            final(self).wf(),
            final(self).spec_contains(id@),
            final(self).entries().len() <= old(self).entries().len() + 1,
            exists|i: int|
                0 <= i < final(self).entries().len() && final(self).entries()[i].0@ == id@
                    && final(self).entries()[i].1 == outcome,
            forall|i: int|
                0 <= i < final(self).entries().len() && final(self).entries()[i].0@ != id@
                    ==> 0 <= i < old(self).entries().len() && final(self).entries()[i]
                    == old(self).entries()[i],
    {
        let n = self.entries.len();
        let mut i: usize = 0;
        while i < n
            invariant
                *self == *old(self),
                self.wf(),
                n == self.entries().len(),
                i <= n,
                forall|j: int| 0 <= j < i ==> self.entries()[j].0@ != id@,
            decreases n - i,
        {
            if strutil::str_eq(self.entries[i].0.as_str(), id.as_str()) {
                let ghost gid = id@;
                self.entries.set(i, (id, outcome));
                proof {
                    assert(self.entries()[i as int].0@ == gid);
                }
                return;
            }
            i = i + 1;
        }
        let ghost gid = id@;
        self.entries.push((id, outcome));
        proof {
            assert(self.entries()[self.entries().len() - 1].0@ == gid);
        }
    }
}

/// Execution state for one step of the traversal loop.
#[derive(Debug, Clone)]
pub struct ExecutionState {
    pub graph: AttractorGraph,
    pub context: RunContext,
    pub current_node_id: String,
    pub completed_nodes: Vec<String>,
    pub node_outcomes: OutcomeMap,
    /// Optional step log sink; when present, each executed step pushes
    /// one entry.
    pub step_log: Option<Vec<ExecutionStepEntry>>,
}

impl ExecutionState {
    /// Well-formed: graph, context and outcome map are well-formed.
    pub open spec fn wf(&self) -> bool {
        self.graph.wf() && self.context.wf() && self.node_outcomes.wf()
    }

    /// True when the current node exists and is terminal.
    pub fn is_done(&self) -> (r: bool)
        requires
            self.graph.wf(),
        ensures
            r == (self.graph.nodes.spec_contains(self.current_node_id@) && spec_is_exit(
                &self.graph.nodes.spec_get(self.current_node_id@),
            )),
    {
        match self.graph.nodes.get(self.current_node_id.as_str()) {
            Some(n) => n.is_terminal(),
            None => false,
        }
    }
}

} // verus!

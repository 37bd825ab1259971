//! Builds the initial execution state for a run: the context seeded
//! with the goal, traversal at the start node, nothing completed.

use vstd::prelude::*;

use crate::nodes::message::NodeMessage;
use crate::nodes::ports::port_vec_1;
use crate::types::attractor_graph::AttractorGraph;
use crate::types::attractor_node::spec_is_start;
use crate::types::context::RunContext;
use crate::types::execution_log::ExecutionStepEntry;
use crate::types::execution_state::{ExecutionState, OutcomeMap};
use crate::types::resume_state::ResumeState;

verus! {

/// The id the initial state starts at: the graph's first start node,
/// or the literal `start` when none is found.
pub open spec fn spec_initial_node_id(g: AttractorGraph) -> Seq<char> {
    if exists|i: int| 0 <= i < g.nodes.seq().len() && spec_is_start(&g.nodes.seq()[i]) {
        g.nodes.seq()[choose|i: int|
            0 <= i < g.nodes.seq().len() && spec_is_start(&g.nodes.seq()[i]) && forall|j: int|
                0 <= j < i ==> !spec_is_start(&g.nodes.seq()[j])].id@
    } else {
        "start"@
    }
}

/// Builds the initial execution state: the context carries the goal
/// under `goal` and `graph.goal`, the current node is the start node,
/// and nothing is completed or recorded.
pub fn create_initial_state(graph: AttractorGraph) -> (r: ExecutionState)
    ensures
        r.graph == graph,
        graph.wf() ==> r.wf(),
        r.context.as_map() == Map::<Seq<char>, Seq<char>>::empty().insert(
            "goal"@,
            graph.goal@,
        ).insert("graph.goal"@, graph.goal@),
        r.current_node_id@ == spec_initial_node_id(graph),
        r.completed_nodes@.len() == 0,
        r.node_outcomes.entries().len() == 0,
        r.step_log is None,
{
    let start_id: String = match graph.find_start() {
        Some(n) => n.id.clone(),
        None => "start".to_owned(),
    };
    proof {
        if exists|i: int| 0 <= i < graph.nodes.seq().len() && spec_is_start(&graph.nodes.seq()[i]) {
        }
    }
    let mut context = RunContext::new();
    context.insert("goal".to_owned(), graph.goal.clone());
    context.insert("graph.goal".to_owned(), graph.goal.clone());
    ExecutionState {
        graph,
        context,
        current_node_id: start_id,
        completed_nodes: Vec::new(),
        node_outcomes: OutcomeMap::new(),
        step_log: None,
    }
}

/// Builds the execution state for a resumed run from recovered state.
pub fn create_initial_state_from_resume_state(
    graph: AttractorGraph,
    st: &ResumeState,
    step_log: Option<Vec<ExecutionStepEntry>>,
) -> (r: ExecutionState)
    requires
        graph.wf(),
        st.context.wf(),
    ensures
        r.graph == graph,
        r.wf(),
        r.context.as_map() == st.context.as_map(),
        r.current_node_id@ == st.current_node_id@,
        r.completed_nodes@.len() == st.completed_nodes@.len(),
        forall|i: int|
            0 <= i < st.completed_nodes@.len() ==> r.completed_nodes@[i]@
                == st.completed_nodes@[i]@,
        r.node_outcomes.entries().len() == 0,
        r.step_log == step_log,
{
    ExecutionState {
        graph,
        context: st.context.duplicate(),
        current_node_id: st.current_node_id.clone(),
        completed_nodes: crate::strutil::clone_string_vec(&st.completed_nodes),
        node_outcomes: OutcomeMap::new(),
        step_log,
    }
}

/// Processes one message: a graph yields the initial state.
pub fn process_init_context_item(item: NodeMessage) -> (r: Option<ExecutionState>)
    ensures
        match item {
            NodeMessage::Graph(g) => r matches Some(st) && st.graph == g && st.current_node_id@
                == spec_initial_node_id(g) && (g.wf() ==> st.wf()),
            _ => r is None,
        },
{
    match item {
        NodeMessage::Graph(g) => Some(create_initial_state(g)),
        _ => None,
    }
}

/// Node shell that builds the initial execution state.
#[derive(Debug)]
pub struct InitContextNode {
    /// Node display name.
    pub name: String,
    /// Input port names.
    pub input_ports: Vec<String>,
    /// Output port names.
    pub output_ports: Vec<String>,
}

impl InitContextNode {
    /// Creates the node with the given display name and its fixed
    /// ports.
    pub fn new(name: &str) -> (r: InitContextNode)
        ensures
            r.name@ == name@,
            r.input_ports@.len() == 1,
            r.input_ports@[0]@ == "in"@,
            r.output_ports@.len() == 1,
            r.output_ports@[0]@ == "out"@,
    {
        InitContextNode {
            name: name.to_owned(),
            input_ports: port_vec_1("in"),
            output_ports: port_vec_1("out"),
        }
    }

    /// The node's display name.
    pub fn name(&self) -> (r: &str)
        ensures
            r@ == self.name@,
    {
        self.name.as_str()
    }

    /// Renames the node; the ports stay.
    pub fn set_name(&mut self, name: &str)
        ensures
            final(self).name@ == name@,
            final(self).input_ports == old(self).input_ports,
            final(self).output_ports == old(self).output_ports,
    {
        self.name = name.to_owned();
    }

    /// The input port names.
    pub fn input_port_names(&self) -> (r: &Vec<String>)
        ensures
            r == &self.input_ports,
    {
        &self.input_ports
    }

    /// The output port names.
    pub fn output_port_names(&self) -> (r: &Vec<String>)
        ensures
            r == &self.output_ports,
    {
        &self.output_ports
    }

    /// True for this node's input ports.
    pub fn has_input_port(&self, name: &str) -> (r: bool)
        ensures
            r == (name@ == "in"@),
    {
        crate::strutil::str_eq(name, "in")
    }

    /// True for this node's output ports.
    pub fn has_output_port(&self, name: &str) -> (r: bool)
        ensures
            r == (name@ == "out"@),
    {
        crate::strutil::str_eq(name, "out")
    }
}

} // verus!

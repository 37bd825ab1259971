//! Synchronous handler execution for the stepwise loop: start and exit
//! nodes succeed, codergen nodes record their stage, every other
//! handler kind is a succeeding stub.

use vstd::prelude::*;
use crate::nodes::ports::{port_vec_1, port_vec_2};
use vstd::string::StringExecFns;

use crate::strutil;
use crate::types::attractor_graph::AttractorGraph;
use crate::types::attractor_node::AttractorNode;
use crate::types::context::RunContext;
use crate::types::node_outcome::{NodeOutcome, OutcomeView};
use crate::types::outcome_status::OutcomeStatus;

verus! {

/// Input for one handler execution.
pub struct ExecuteHandlerInput {
    pub node: AttractorNode,
    pub context: RunContext,
    pub graph: AttractorGraph,
}

/// The handler kind of a node: its explicit handler type, or
/// `codergen` when none is set.
pub open spec fn spec_handler_of(n: AttractorNode) -> Seq<char> {
    match strutil::opt_view(n.handler_type) {
        Some(h) => h,
        None => "codergen"@,
    }
}

/// The view of the outcome a codergen stub produces: success, a note
/// naming the stage, and `last_stage` recorded in the updates.
pub open spec fn spec_codergen_outcome(n: AttractorNode) -> OutcomeView {
    OutcomeView {
        status: OutcomeStatus::Success,
        notes: Some("Stage completed: "@ + n.id@),
        failure_reason: None,
        updates: Map::<Seq<char>, Seq<char>>::empty().insert("last_stage"@, n.id@),
        preferred_label: None,
        suggested: Seq::empty(),
    }
}

/// The view of the outcome one synchronous handler execution produces.
pub open spec fn spec_execute_handler(n: AttractorNode) -> OutcomeView {
    let h = spec_handler_of(n);
    if h == "start"@ {
        OutcomeView::of_success("Start"@)
    } else if h == "exit"@ {
        OutcomeView::of_success("Exit"@)
    } else if h == "codergen"@ {
        spec_codergen_outcome(n)
    } else {
        OutcomeView::of_success("Handler "@ + h + " (stub)"@)
    }
}

/// Two nodes with the same field views produce the same handler
/// outcome.
pub proof fn lemma_execute_handler_same(n1: AttractorNode, n2: AttractorNode)
    requires
        n1.same_as(&n2),
    ensures
        spec_execute_handler(n1) == spec_execute_handler(n2),
{
    assert(spec_handler_of(n1) == spec_handler_of(n2));
    let h = spec_handler_of(n1);
    if h == "start"@ || h == "exit"@ {
    } else if h == "codergen"@ {
        assert(spec_codergen_outcome(n1) =~~= spec_codergen_outcome(n2));
    } else {
        assert(spec_execute_handler(n1) =~~= spec_execute_handler(n2));
    }
}

/// The outcome of a codergen stub: success with the stage recorded.
pub fn build_codergen_outcome(node: &AttractorNode) -> (r: NodeOutcome)
    ensures
        r@ == spec_codergen_outcome(*node),
        r.wf(),
{
    let mut updates = RunContext::new();
    updates.insert("last_stage".to_owned(), node.id.clone());
    let r = NodeOutcome {
        status: OutcomeStatus::Success,
        notes: Some("Stage completed: ".to_owned().concat(node.id.as_str())),
        failure_reason: None,
        context_updates: updates,
        preferred_label: None,
        suggested_next_ids: Vec::new(),
    };
    proof {
        assert(r@ =~~= spec_codergen_outcome(*node));
    }
    r
}

/// Executes a node synchronously per its handler kind.
pub fn execute_handler(input: &ExecuteHandlerInput) -> (r: Result<NodeOutcome, String>)
    ensures
        r matches Ok(o) && o@ == spec_execute_handler(input.node) && o.wf(),
{
    let handler: &str = match &input.node.handler_type {
        Some(h) => h.as_str(),
        None => "codergen",
    };
    if strutil::str_eq(handler, "start") {
        let o = NodeOutcome::success("Start");
        proof {
            assert(o@ =~~= OutcomeView::of_success("Start"@));
        }
        Ok(o)
    } else if strutil::str_eq(handler, "exit") {
        let o = NodeOutcome::success("Exit");
        proof {
            assert(o@ =~~= OutcomeView::of_success("Exit"@));
        }
        Ok(o)
    } else if strutil::str_eq(handler, "codergen") {
        Ok(build_codergen_outcome(&input.node))
    } else {
        let msg = "Handler ".to_owned().concat(handler).concat(" (stub)");
        let o = NodeOutcome::success(msg.as_str());
        proof {
            assert(o@ =~~= OutcomeView::of_success("Handler "@ + spec_handler_of(input.node) + " (stub)"@));
        }
        Ok(o)
    }
}


/// Node shell that runs a node's handler.
#[derive(Debug)]
pub struct ExecuteHandlerNode {
    /// Node display name.
    pub name: String,
    /// Input port names.
    pub input_ports: Vec<String>,
    /// Output port names.
    pub output_ports: Vec<String>,
}

impl ExecuteHandlerNode {
    /// Creates the node with the given display name and its fixed
    /// ports.
    pub fn new(name: &str) -> (r: ExecuteHandlerNode)
        ensures
            r.name@ == name@,
            r.input_ports@.len() == 1,
            r.input_ports@[0]@ == "in"@,
            r.output_ports@.len() == 2,
            r.output_ports@[0]@ == "out"@,
            r.output_ports@[1]@ == "error"@,
    {
        ExecuteHandlerNode {
            name: name.to_owned(),
            input_ports: port_vec_1("in"),
            output_ports: port_vec_2("out", "error"),
        }
    }

    /// The node's display name.
    pub fn name(&self) -> (r: &str)
        ensures
            r@ == self.name@,
    {
        self.name.as_str()
    }

    /// Renames the node; the ports stay.
    pub fn set_name(&mut self, name: &str)
        ensures
            final(self).name@ == name@,
            final(self).input_ports == old(self).input_ports,
            final(self).output_ports == old(self).output_ports,
    {
        self.name = name.to_owned();
    }

    /// The input port names.
    pub fn input_port_names(&self) -> (r: &Vec<String>)
        ensures
            r == &self.input_ports,
    {
        &self.input_ports
    }

    /// The output port names.
    pub fn output_port_names(&self) -> (r: &Vec<String>)
        ensures
            r == &self.output_ports,
    {
        &self.output_ports
    }

    /// True for this node's input ports.
    pub fn has_input_port(&self, name: &str) -> (r: bool)
        ensures
            r == (name@ == "in"@),
    {
        crate::strutil::str_eq(name, "in")
    }

    /// True for this node's output ports.
    pub fn has_output_port(&self, name: &str) -> (r: bool)
        ensures
            r == (name@ == "out"@ || name@ == "error"@),
    {
        crate::strutil::str_eq(name, "out") || crate::strutil::str_eq(name, "error")
    }
}

} // verus!

//! Goal-gate checking: at the exit, every gate node's recorded outcome
//! must count as success; the first failing gate names a retry target.

use vstd::prelude::*;

use crate::nodes::ports::port_vec_1;
use crate::strutil;
use crate::types::attractor_graph::AttractorGraph;
use crate::types::execution_state::OutcomeMap;
use crate::types::node_outcome::NodeOutcome;
use crate::types::outcome_status::spec_status_ok;

verus! {

/// Input for the goal-gate check.
pub struct CheckGoalGatesInput {
    pub graph: AttractorGraph,
    pub node_outcomes: OutcomeMap,
    pub at_exit: bool,
}

/// Output of the goal-gate check.
pub struct CheckGoalGatesOutput {
    pub gate_ok: bool,
    pub retry_target: Option<String>,
}

/// True when entry `i` of the outcome map names a gate node whose
/// outcome does not count as success.
pub open spec fn spec_gate_fails(g: AttractorGraph, m: OutcomeMap, i: int) -> bool {
    &&& g.nodes.spec_contains(m.entries()[i].0@)
    &&& g.nodes.spec_get(m.entries()[i].0@).goal_gate
    &&& !spec_status_ok(m.entries()[i].1.status)
}

/// The first failing gate entry at or after `i`, or -1.
pub open spec fn spec_first_failing_gate(g: AttractorGraph, m: OutcomeMap, i: int) -> int
    decreases m.entries().len() - i,
{
    if i < 0 || i >= m.entries().len() {
        -1
    } else if spec_gate_fails(g, m, i) {
        i
    } else {
        spec_first_failing_gate(g, m, i + 1)
    }
}

/// True when the outcome counts as success for a goal gate.
pub fn goal_gate_passed(outcome: &NodeOutcome) -> (r: bool)
    ensures
        r == spec_status_ok(outcome.status),
{
    outcome.status.is_ok()
}

/// Checks goal gates: away from the exit everything passes; at the
/// exit the first failing gate blocks and names the retry target.
pub fn check_goal_gates(input: &CheckGoalGatesInput) -> (r: CheckGoalGatesOutput)
    requires
        input.graph.wf(),
    ensures
        !input.at_exit ==> r.gate_ok && r.retry_target is None,
        input.at_exit ==> ({
            let f = spec_first_failing_gate(input.graph, input.node_outcomes, 0);
            if f >= 0 {
                !r.gate_ok && strutil::opt_view(r.retry_target) == Some(
                    input.node_outcomes.entries()[f].0@,
                )
            } else {
                r.gate_ok && r.retry_target is None
            }
        }),
{
    if !input.at_exit {
        return CheckGoalGatesOutput { gate_ok: true, retry_target: None };
    }
    let n = input.node_outcomes.len();
    let mut i: usize = 0;
    while i < n
        invariant
            input.at_exit,
            input.graph.wf(),
            n == input.node_outcomes.entries().len(),
            i <= n,
            spec_first_failing_gate(input.graph, input.node_outcomes, 0)
                == spec_first_failing_gate(input.graph, input.node_outcomes, i as int),
        decreases n - i,
    {
        let node_id = input.node_outcomes.key_at(i);
        let outcome = input.node_outcomes.outcome_at(i);
        let failing = match input.graph.nodes.get(node_id.as_str()) {
            Some(node) => node.goal_gate && !goal_gate_passed(outcome),
            None => false,
        };
        if failing {
            proof {
                assert(spec_gate_fails(input.graph, input.node_outcomes, i as int));
                assert(spec_first_failing_gate(input.graph, input.node_outcomes, i as int)
                    == i as int);
            }
            return CheckGoalGatesOutput { gate_ok: false, retry_target: Some(node_id.clone()) };
        }
        proof {
            assert(!spec_gate_fails(input.graph, input.node_outcomes, i as int));
        }
        i = i + 1;
    }
    proof {
        assert(spec_first_failing_gate(input.graph, input.node_outcomes, n as int) == -1);
    }
    CheckGoalGatesOutput { gate_ok: true, retry_target: None }
}

/// Node shell that checks goal gates at the exit.
#[derive(Debug)]
pub struct CheckGoalGatesNode {
    /// Node display name.
    pub name: String,
    /// Input port names.
    pub input_ports: Vec<String>,
    /// Output port names.
    pub output_ports: Vec<String>,
}

impl CheckGoalGatesNode {
    /// Creates the node with the given display name and its fixed
    /// ports.
    pub fn new(name: &str) -> (r: CheckGoalGatesNode)
        ensures
            r.name@ == name@,
            r.input_ports@.len() == 1,
            r.input_ports@[0]@ == "in"@,
            r.output_ports@.len() == 1,
            r.output_ports@[0]@ == "out"@,
    {
        CheckGoalGatesNode {
            name: name.to_owned(),
            input_ports: port_vec_1("in"),
            output_ports: port_vec_1("out"),
        }
    }

    /// The node's display name.
    pub fn name(&self) -> (r: &str)
        ensures
            r@ == self.name@,
    {
        self.name.as_str()
    }

    /// Renames the node; the ports stay.
    pub fn set_name(&mut self, name: &str)
        ensures
            final(self).name@ == name@,
            final(self).input_ports == old(self).input_ports,
            final(self).output_ports == old(self).output_ports,
    {
        self.name = name.to_owned();
    }

    /// The input port names.
    pub fn input_port_names(&self) -> (r: &Vec<String>)
        ensures
            r == &self.input_ports,
    {
        &self.input_ports
    }

    /// The output port names.
    pub fn output_port_names(&self) -> (r: &Vec<String>)
        ensures
            r == &self.output_ports,
    {
        &self.output_ports
    }

    /// True for this node's input ports.
    pub fn has_input_port(&self, name: &str) -> (r: bool)
        ensures
            r == (name@ == "in"@),
    {
        crate::strutil::str_eq(name, "in")
    }

    /// True for this node's output ports.
    pub fn has_output_port(&self, name: &str) -> (r: bool)
        ensures
            r == (name@ == "out"@),
    {
        crate::strutil::str_eq(name, "out")
    }
}

} // verus!

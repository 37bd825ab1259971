//! Pass-through node used for start and exit: each payload is
//! forwarded with this node recorded as current and completed.

use vstd::prelude::*;

use crate::nodes::ports::port_vec_1;
use crate::types::graph_payload::{opt_outcome_same, GraphPayload};

verus! {

/// Forwards a payload, appending this node to its completed list; the
/// context and the outcome ride along unchanged.
pub fn identity_forward(name: &str, payload: &GraphPayload) -> (r: GraphPayload)
    ensures
        r.context.as_map() == payload.context.as_map(),
        payload.context.wf() ==> r.context.wf(),
        opt_outcome_same(&r.outcome, &payload.outcome),
        r.current_node_id@ == name@,
        r.completed_nodes@.len() == payload.completed_nodes@.len() + 1,
        forall|i: int|
            0 <= i < payload.completed_nodes@.len() ==> r.completed_nodes@[i]@
                == payload.completed_nodes@[i]@,
        r.completed_nodes@.last()@ == name@,
{
    payload.with_node_completed(name)
}

/// Pass-through node shell used for start and exit.
#[derive(Debug)]
pub struct IdentityNode {
    /// Node display name.
    pub name: String,
    /// Input port names.
    pub input_ports: Vec<String>,
    /// Output port names.
    pub output_ports: Vec<String>,
}

impl IdentityNode {
    /// Creates the node with the given display name and its fixed
    /// ports.
    pub fn new(name: &str) -> (r: IdentityNode)
        ensures
            r.name@ == name@,
            r.input_ports@.len() == 1,
            r.input_ports@[0]@ == "in"@,
            r.output_ports@.len() == 1,
            r.output_ports@[0]@ == "out"@,
    {
        IdentityNode {
            name: name.to_owned(),
            input_ports: port_vec_1("in"),
            output_ports: port_vec_1("out"),
        }
    }

    /// The node's display name.
    pub fn name(&self) -> (r: &str)
        ensures
            r@ == self.name@,
    {
        self.name.as_str()
    }

    /// Renames the node; the ports stay.
    pub fn set_name(&mut self, name: &str)
        ensures
            final(self).name@ == name@,
            final(self).input_ports == old(self).input_ports,
            final(self).output_ports == old(self).output_ports,
    {
        self.name = name.to_owned();
    }

    /// The input port names.
    pub fn input_port_names(&self) -> (r: &Vec<String>)
        ensures
            r == &self.input_ports,
    {
        &self.input_ports
    }

    /// The output port names.
    pub fn output_port_names(&self) -> (r: &Vec<String>)
        ensures
            r == &self.output_ports,
    {
        &self.output_ports
    }

    /// True for this node's input ports.
    pub fn has_input_port(&self, name: &str) -> (r: bool)
        ensures
            r == (name@ == "in"@),
    {
        crate::strutil::str_eq(name, "in")
    }

    /// True for this node's output ports.
    pub fn has_output_port(&self, name: &str) -> (r: bool)
        ensures
            r == (name@ == "out"@),
    {
        crate::strutil::str_eq(name, "out")
    }
}

} // verus!

//! Routes payloads by their outcome: success-like outcomes go to the
//! success port, everything else to the fail port.

use vstd::prelude::*;

use crate::nodes::ports::{port_vec_1, port_vec_2};
use crate::types::graph_payload::GraphPayload;
use crate::types::outcome_status::spec_status_ok;

verus! {

/// True when the payload counts as successful: it carries no outcome,
/// or its outcome's status counts as success.
pub open spec fn spec_payload_ok(p: &GraphPayload) -> bool {
    match p.outcome {
        Some(o) => spec_status_ok(o.status),
        None => true,
    }
}

/// Decides the routing of a payload.
pub fn payload_is_success(p: &GraphPayload) -> (r: bool)
    ensures
        r == spec_payload_ok(p),
{
    match &p.outcome {
        Some(o) => o.status.is_ok(),
        None => true,
    }
}

/// Node shell that routes payloads by outcome.
#[derive(Debug)]
pub struct OutcomeRouterNode {
    /// Node display name.
    pub name: String,
    /// Input port names.
    pub input_ports: Vec<String>,
    /// Output port names.
    pub output_ports: Vec<String>,
}

impl OutcomeRouterNode {
    /// Creates the node with the given display name and its fixed
    /// ports.
    pub fn new(name: &str) -> (r: OutcomeRouterNode)
        ensures
            r.name@ == name@,
            r.input_ports@.len() == 1,
            r.input_ports@[0]@ == "in"@,
            r.output_ports@.len() == 2,
            r.output_ports@[0]@ == "success"@,
            r.output_ports@[1]@ == "fail"@,
    {
        OutcomeRouterNode {
            name: name.to_owned(),
            input_ports: port_vec_1("in"),
            output_ports: port_vec_2("success", "fail"),
        }
    }

    /// The node's display name.
    pub fn name(&self) -> (r: &str)
        ensures
            r@ == self.name@,
    {
        self.name.as_str()
    }

    /// Renames the node; the ports stay.
    pub fn set_name(&mut self, name: &str)
        ensures
            final(self).name@ == name@,
            final(self).input_ports == old(self).input_ports,
            final(self).output_ports == old(self).output_ports,
    {
        self.name = name.to_owned();
    }

    /// The input port names.
    pub fn input_port_names(&self) -> (r: &Vec<String>)
        ensures
            r == &self.input_ports,
    {
        &self.input_ports
    }

    /// The output port names.
    pub fn output_port_names(&self) -> (r: &Vec<String>)
        ensures
            r == &self.output_ports,
    {
        &self.output_ports
    }

    /// True for this node's input ports.
    pub fn has_input_port(&self, name: &str) -> (r: bool)
        ensures
            r == (name@ == "in"@),
    {
        crate::strutil::str_eq(name, "in")
    }

    /// True for this node's output ports.
    pub fn has_output_port(&self, name: &str) -> (r: bool)
        ensures
            r == (name@ == "success"@ || name@ == "fail"@),
    {
        crate::strutil::str_eq(name, "success") || crate::strutil::str_eq(name, "fail")
    }
}

} // verus!

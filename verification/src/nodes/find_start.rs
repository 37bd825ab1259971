//! Finds the start node id of a graph.

use vstd::prelude::*;

use crate::nodes::message::NodeMessage;
use crate::nodes::ports::port_vec_1;
use crate::types::attractor_graph::AttractorGraph;
use crate::types::attractor_node::spec_is_start;

verus! {

/// Returns the start node id if the graph has one.
pub fn find_start_id(graph: &AttractorGraph) -> (r: Option<String>)
    ensures
        match r {
            Some(id) => exists|i: int|
                0 <= i < graph.nodes.seq().len() && (#[trigger] graph.nodes.seq()[i]).id@ == id@
                    && spec_is_start(&graph.nodes.seq()[i]),
            None => forall|i: int|
                0 <= i < graph.nodes.seq().len() ==> !spec_is_start(&graph.nodes.seq()[i]),
        },
{
    match graph.find_start() {
        Some(n) => Some(n.id.clone()),
        None => None,
    }
}

/// Processes one message: a graph yields its start id when one exists.
pub fn process_find_start_item(item: NodeMessage) -> (r: Option<String>)
    ensures
        match item {
            NodeMessage::Graph(g) => match r {
                Some(id) => exists|i: int|
                    0 <= i < g.nodes.seq().len() && (#[trigger] g.nodes.seq()[i]).id@ == id@
                        && spec_is_start(&g.nodes.seq()[i]),
                None => forall|i: int|
                    0 <= i < g.nodes.seq().len() ==> !spec_is_start(&g.nodes.seq()[i]),
            },
            _ => r is None,
        },
{
    match item {
        NodeMessage::Graph(g) => find_start_id(&g),
        _ => None,
    }
}

/// Node shell that finds the start node id.
#[derive(Debug)]
pub struct FindStartNode {
    /// Node display name.
    pub name: String,
    /// Input port names.
    pub input_ports: Vec<String>,
    /// Output port names.
    pub output_ports: Vec<String>,
}

impl FindStartNode {
    /// Creates the node with the given display name and its fixed
    /// ports.
    pub fn new(name: &str) -> (r: FindStartNode)
        ensures
            r.name@ == name@,
            r.input_ports@.len() == 1,
            r.input_ports@[0]@ == "in"@,
            r.output_ports@.len() == 1,
            r.output_ports@[0]@ == "out"@,
    {
        FindStartNode {
            name: name.to_owned(),
            input_ports: port_vec_1("in"),
            output_ports: port_vec_1("out"),
        }
    }

    /// The node's display name.
    pub fn name(&self) -> (r: &str)
        ensures
            r@ == self.name@,
    {
        self.name.as_str()
    }

    /// Renames the node; the ports stay.
    pub fn set_name(&mut self, name: &str)
        ensures
            final(self).name@ == name@,
            final(self).input_ports == old(self).input_ports,
            final(self).output_ports == old(self).output_ports,
    {
        self.name = name.to_owned();
    }

    /// The input port names.
    pub fn input_port_names(&self) -> (r: &Vec<String>)
        ensures
            r == &self.input_ports,
    {
        &self.input_ports
    }

    /// The output port names.
    pub fn output_port_names(&self) -> (r: &Vec<String>)
        ensures
            r == &self.output_ports,
    {
        &self.output_ports
    }

    /// True for this node's input ports.
    pub fn has_input_port(&self, name: &str) -> (r: bool)
        ensures
            r == (name@ == "in"@),
    {
        crate::strutil::str_eq(name, "in")
    }

    /// True for this node's output ports.
    pub fn has_output_port(&self, name: &str) -> (r: bool)
        ensures
            r == (name@ == "out"@),
    {
        crate::strutil::str_eq(name, "out")
    }
}

} // verus!

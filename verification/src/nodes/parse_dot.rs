//! The parsing stage: DOT text in, a graph or a parse error out.

use vstd::prelude::*;

use crate::dot_parser;
use crate::nodes::message::NodeMessage;
use crate::nodes::ports::{port_vec_1, port_vec_2};
use crate::types::attractor_graph::AttractorGraph;

verus! {

/// Parses DOT text into a graph; the result is pinned to the
/// spec-level parse.
pub fn process_dot(s: &str) -> (r: Result<AttractorGraph, String>)
    ensures
        match r {
            Ok(g) => dot_parser::spec_parse_dot(s@) == Ok::<_, Seq<char>>(
                dot_parser::graph_view(g),
            ) && g.wf(),
            Err(e) => dot_parser::spec_parse_dot(s@) == Err::<dot_parser::GraphView, _>(e@),
        },
{
    dot_parser::parse_dot(s)
}

/// What processing one message at the parsing stage produced.
pub enum ParseDotItemResult {
    Graph(AttractorGraph),
    ParseError(String),
    WrongType,
}

/// Processes one message: text parses to a graph or an error; any
/// other message is the wrong type.
pub fn process_parse_dot_item(item: NodeMessage) -> (r: ParseDotItemResult)
    ensures
        match item {
            NodeMessage::Text(s) => match r {
                ParseDotItemResult::Graph(g) => g.wf(),
                ParseDotItemResult::ParseError(_) => true,
                ParseDotItemResult::WrongType => false,
            },
            _ => r is WrongType,
        },
{
    match item {
        NodeMessage::Text(s) => match process_dot(s.as_str()) {
            Ok(g) => ParseDotItemResult::Graph(g),
            Err(e) => ParseDotItemResult::ParseError(e),
        },
        _ => ParseDotItemResult::WrongType,
    }
}

/// Node shell that parses DOT text into a graph.
#[derive(Debug)]
pub struct ParseDotNode {
    /// Node display name.
    pub name: String,
    /// Input port names.
    pub input_ports: Vec<String>,
    /// Output port names.
    pub output_ports: Vec<String>,
}

impl ParseDotNode {
    /// Creates the node with the given display name and its fixed
    /// ports.
    pub fn new(name: &str) -> (r: ParseDotNode)
        ensures
            r.name@ == name@,
            r.input_ports@.len() == 1,
            r.input_ports@[0]@ == "in"@,
            r.output_ports@.len() == 2,
            r.output_ports@[0]@ == "out"@,
            r.output_ports@[1]@ == "error"@,
    {
        ParseDotNode {
            name: name.to_owned(),
            input_ports: port_vec_1("in"),
            output_ports: port_vec_2("out", "error"),
        }
    }

    /// The node's display name.
    pub fn name(&self) -> (r: &str)
        ensures
            r@ == self.name@,
    {
        self.name.as_str()
    }

    /// Renames the node; the ports stay.
    pub fn set_name(&mut self, name: &str)
        ensures
            final(self).name@ == name@,
            final(self).input_ports == old(self).input_ports,
            final(self).output_ports == old(self).output_ports,
    {
        self.name = name.to_owned();
    }

    /// The input port names.
    pub fn input_port_names(&self) -> (r: &Vec<String>)
        ensures
            r == &self.input_ports,
    {
        &self.input_ports
    }

    /// The output port names.
    pub fn output_port_names(&self) -> (r: &Vec<String>)
        ensures
            r == &self.output_ports,
    {
        &self.output_ports
    }

    /// True for this node's input ports.
    pub fn has_input_port(&self, name: &str) -> (r: bool)
        ensures
            r == (name@ == "in"@),
    {
        crate::strutil::str_eq(name, "in")
    }

    /// True for this node's output ports.
    pub fn has_output_port(&self, name: &str) -> (r: bool)
        ensures
            r == (name@ == "out"@ || name@ == "error"@),
    {
        crate::strutil::str_eq(name, "out") || crate::strutil::str_eq(name, "error")
    }
}

} // verus!

//! Structural validation of a parsed graph: exactly one start node,
//! exactly one exit node, and a non-empty command on every `exec` node.

use vstd::prelude::*;
use crate::nodes::ports::{port_vec_1, port_vec_2};
use vstd::string::StringExecFns;

use crate::strutil;
use crate::types::attractor_graph::AttractorGraph;
use crate::types::attractor_node::{spec_is_exit, spec_is_start, AttractorNode};

verus! {

/// True when the node's handler is `exec` but its command is absent or
/// empty.
pub open spec fn spec_missing_command(n: AttractorNode) -> bool {
    strutil::opt_view(n.handler_type) == Some("exec"@) && (match strutil::opt_view(n.command) {
        Some(c) => c.len() == 0,
        None => true,
    })
}

/// The first index at or after `i` of a node missing its command, or -1.
pub open spec fn spec_first_missing_command(s: Seq<AttractorNode>, i: int) -> int
    decreases s.len() - i,
{
    if i < 0 || i >= s.len() {
        -1
    } else if spec_missing_command(s[i]) {
        i
    } else {
        spec_first_missing_command(s, i + 1)
    }
}

/// Validates the graph: exactly one start node, exactly one exit node,
/// and a non-empty command on every `exec` node. The first broken rule
/// names the error.
pub fn validate(graph: &AttractorGraph) -> (r: Result<(), String>)
    requires
        graph.wf(),
    ensures
        ({
            let nodes = graph.nodes.seq();
            let starts = nodes.filter(|n: AttractorNode| spec_is_start(&n)).len();
            let exits = nodes.filter(|n: AttractorNode| spec_is_exit(&n)).len();
            let bad = spec_first_missing_command(nodes, 0);
            match r {
                Ok(_) => starts == 1 && exits == 1 && bad == -1,
                Err(e) => {
                    ||| (starts != 1 && e@ == "Graph must have exactly one start node (shape=Mdiamond)"@)
                    ||| (starts == 1 && exits != 1 && e@
                        == "Graph must have exactly one exit node (shape=Msquare)"@)
                    ||| (starts == 1 && exits == 1 && bad >= 0 && e@ == "exec node '"@
                        + nodes[bad].id@ + "' requires a command attribute"@)
                },
            }
        }),
{
    let ghost nodes = graph.nodes.seq();
    let n = graph.nodes.len();
    let mut starts: usize = 0;
    let mut exits: usize = 0;
    let mut i: usize = 0;
    proof {
        reveal(Seq::filter);
        assert(nodes.take(0) =~= Seq::<AttractorNode>::empty());
    }
    while i < n
        invariant
            n == nodes.len(),
            nodes == graph.nodes.seq(),
            i <= n,
            starts == nodes.take(i as int).filter(|x: AttractorNode| spec_is_start(&x)).len(),
            exits == nodes.take(i as int).filter(|x: AttractorNode| spec_is_exit(&x)).len(),
            starts <= i && exits <= i,
        decreases n - i,
    {
        proof {
            reveal(Seq::filter);
            assert(nodes.take(i + 1).drop_last() =~= nodes.take(i as int));
            assert(nodes.take(i + 1).last() == nodes[i as int]);
            nodes.take(i as int).lemma_filter_len(|x: AttractorNode| spec_is_start(&x));
            nodes.take(i as int).lemma_filter_len(|x: AttractorNode| spec_is_exit(&x));
        }
        let node = graph.nodes.node_at(i);
        if node.is_start() {
            starts = starts + 1;
        }
        if node.is_exit() {
            exits = exits + 1;
        }
        i = i + 1;
    }
    proof {
        assert(nodes.take(n as int) =~= nodes);
    }
    if starts != 1 {
        return Err("Graph must have exactly one start node (shape=Mdiamond)".to_owned());
    }
    if exits != 1 {
        return Err("Graph must have exactly one exit node (shape=Msquare)".to_owned());
    }
    let mut i: usize = 0;
    while i < n
        invariant
            graph.wf(),
            n == nodes.len(),
            nodes == graph.nodes.seq(),
            i <= n,
            spec_first_missing_command(nodes, 0) == spec_first_missing_command(nodes, i as int),
            nodes.filter(|x: AttractorNode| spec_is_start(&x)).len() == 1,
            nodes.filter(|x: AttractorNode| spec_is_exit(&x)).len() == 1,
        decreases n - i,
    {
        let node = graph.nodes.node_at(i);
        let handler_is_exec = match &node.handler_type {
            Some(h) => strutil::str_eq(h.as_str(), "exec"),
            None => false,
        };
        if handler_is_exec {
            let missing = match &node.command {
                Some(c) => c.as_str().unicode_len() == 0,
                None => true,
            };
            if missing {
                proof {
                    assert(spec_missing_command(nodes[i as int]));
                    assert(spec_first_missing_command(nodes, i as int) == i as int);
                }
                let msg = "exec node '".to_owned().concat(node.id.as_str()).concat(
                    "' requires a command attribute",
                );
                return Err(msg);
            }
        }
        proof {
            assert(!spec_missing_command(nodes[i as int]));
        }
        i = i + 1;
    }
    proof {
        assert(spec_first_missing_command(nodes, n as int) == -1);
    }
    Ok(())
}


/// Node shell that validates a parsed graph.
#[derive(Debug)]
pub struct ValidateGraphNode {
    /// Node display name.
    pub name: String,
    /// Input port names.
    pub input_ports: Vec<String>,
    /// Output port names.
    pub output_ports: Vec<String>,
}

impl ValidateGraphNode {
    /// Creates the node with the given display name and its fixed
    /// ports.
    pub fn new(name: &str) -> (r: ValidateGraphNode)
        ensures
            r.name@ == name@,
            r.input_ports@.len() == 1,
            r.input_ports@[0]@ == "in"@,
            r.output_ports@.len() == 2,
            r.output_ports@[0]@ == "out"@,
            r.output_ports@[1]@ == "error"@,
    {
        ValidateGraphNode {
            name: name.to_owned(),
            input_ports: port_vec_1("in"),
            output_ports: port_vec_2("out", "error"),
        }
    }

    /// The node's display name.
    pub fn name(&self) -> (r: &str)
        ensures
            r@ == self.name@,
    {
        self.name.as_str()
    }

    /// Renames the node; the ports stay.
    pub fn set_name(&mut self, name: &str)
        ensures
            final(self).name@ == name@,
            final(self).input_ports == old(self).input_ports,
            final(self).output_ports == old(self).output_ports,
    {
        self.name = name.to_owned();
    }

    /// The input port names.
    pub fn input_port_names(&self) -> (r: &Vec<String>)
        ensures
            r == &self.input_ports,
    {
        &self.input_ports
    }

    /// The output port names.
    pub fn output_port_names(&self) -> (r: &Vec<String>)
        ensures
            r == &self.output_ports,
    {
        &self.output_ports
    }

    /// True for this node's input ports.
    pub fn has_input_port(&self, name: &str) -> (r: bool)
        ensures
            r == (name@ == "in"@),
    {
        crate::strutil::str_eq(name, "in")
    }

    /// True for this node's output ports.
    pub fn has_output_port(&self, name: &str) -> (r: bool)
        ensures
            r == (name@ == "out"@ || name@ == "error"@),
    {
        crate::strutil::str_eq(name, "out") || crate::strutil::str_eq(name, "error")
    }
}

} // verus!

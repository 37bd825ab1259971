//! The shell-command node: it runs its configured command and emits on
//! the success or error port by exit status. The spawning itself is
//! outside work; the decision from exit status to outcome is here.

use vstd::prelude::*;
use vstd::string::StringExecFns;

use crate::nodes::ports::{port_vec_1, port_vec_2};
use crate::strutil;
use crate::types::node_outcome::{NodeOutcome, OutcomeView};

verus! {

/// The outcome of one shell command run: exit 0 succeeds with `ok`;
/// a non-zero exit fails with `exit N`; death by signal fails with
/// `signal`.
pub open spec fn spec_exec_outcome(exit_ok: bool, code: Option<i32>) -> OutcomeView {
    if exit_ok {
        OutcomeView::of_success("ok"@)
    } else {
        match code {
            Some(c) => OutcomeView::of_error("exit "@ + strutil::spec_idec(c as int)),
            None => OutcomeView::of_error("signal"@),
        }
    }
}

/// Builds the outcome of one shell command run from its exit status.
pub fn outcome_from_exec_exit(exit_ok: bool, code: Option<i32>) -> (r: NodeOutcome)
    ensures
        r@ == spec_exec_outcome(exit_ok, code),
        r.wf(),
{
    if exit_ok {
        let o = NodeOutcome::success("ok");
        proof {
            assert(o@ =~~= OutcomeView::of_success("ok"@));
        }
        o
    } else {
        match code {
            Some(c) => {
                let msg = "exit ".to_owned().concat(strutil::i64_to_string(c as i64).as_str());
                let o = NodeOutcome::error(msg.as_str());
                proof {
                    assert(o@ =~~= OutcomeView::of_error("exit "@ + strutil::spec_idec(c as int)));
                }
                o
            },
            None => {
                let o = NodeOutcome::error("signal");
                proof {
                    assert(o@ =~~= OutcomeView::of_error("signal"@));
                }
                o
            },
        }
    }
}

/// Node shell that runs a shell command per payload.
#[derive(Debug)]
pub struct ExecNode {
    /// Node display name.
    pub name: String,
    /// The shell command to run.
    pub command: String,
    /// Input port names.
    pub input_ports: Vec<String>,
    /// Output port names.
    pub output_ports: Vec<String>,
}

impl ExecNode {
    /// Creates the node with its display name and command.
    pub fn new(name: &str, command: &str) -> (r: ExecNode)
        ensures
            r.name@ == name@,
            r.command@ == command@,
            r.input_ports@.len() == 1,
            r.input_ports@[0]@ == "in"@,
            r.output_ports@.len() == 2,
            r.output_ports@[0]@ == "out"@,
            r.output_ports@[1]@ == "error"@,
    {
        ExecNode {
            name: name.to_owned(),
            command: command.to_owned(),
            input_ports: port_vec_1("in"),
            output_ports: port_vec_2("out", "error"),
        }
    }

    /// The node's display name.
    pub fn name(&self) -> (r: &str)
        ensures
            r@ == self.name@,
    {
        self.name.as_str()
    }

    /// Renames the node.
    pub fn set_name(&mut self, name: &str)
        ensures
            final(self).name@ == name@,
            final(self).command == old(self).command,
            final(self).input_ports == old(self).input_ports,
            final(self).output_ports == old(self).output_ports,
    {
        self.name = name.to_owned();
    }

    /// The input port names.
    pub fn input_port_names(&self) -> (r: &Vec<String>)
        ensures
            r == &self.input_ports,
    {
        &self.input_ports
    }

    /// The output port names.
    pub fn output_port_names(&self) -> (r: &Vec<String>)
        ensures
            r == &self.output_ports,
    {
        &self.output_ports
    }

    /// True for this node's input ports.
    pub fn has_input_port(&self, name: &str) -> (r: bool)
        ensures
            r == (name@ == "in"@),
    {
        strutil::str_eq(name, "in")
    }

    /// True for this node's output ports.
    pub fn has_output_port(&self, name: &str) -> (r: bool)
        ensures
            r == (name@ == "out"@ || name@ == "error"@),
    {
        strutil::str_eq(name, "out") || strutil::str_eq(name, "error")
    }
}

} // verus!

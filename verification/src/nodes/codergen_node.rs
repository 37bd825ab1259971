//! The agent node: it feeds its prompt to a configured external agent
//! and reads the agent's outcome file. The spawning and file reading
//! are outside work; every decision from their results is here.

use vstd::prelude::*;
use vstd::string::StringExecFns;

use crate::nodes::ports::{port_vec_1, port_vec_2};
use crate::strutil;
use crate::strutil::{spec_lower, spec_trim};
use crate::types::context::RunContext;
use crate::types::node_outcome::{NodeOutcome, OutcomeView};
use crate::types::outcome_status::OutcomeStatus;

verus! {

/// The directory the agent stages its outcome in: the configured one,
/// or `.attractor` by default.
pub fn stage_path(stage_dir: Option<&str>) -> (r: String)
    ensures
        r@ == (match stage_dir {
            Some(d) => d@,
            None => ".attractor"@,
        }),
{
    match stage_dir {
        Some(d) => d.to_owned(),
        None => ".attractor".to_owned(),
    }
}

/// The outcome the agent node emits when no agent command is set.
pub fn missing_agent_outcome() -> (r: NodeOutcome)
    ensures
        r@ == OutcomeView::of_error("ATTRACTOR_AGENT_CMD (or --agent-cmd) is not set"@),
        r.wf(),
{
    let o = NodeOutcome::error("ATTRACTOR_AGENT_CMD (or --agent-cmd) is not set");
    proof {
        assert(o@ =~~= OutcomeView::of_error(
            "ATTRACTOR_AGENT_CMD (or --agent-cmd) is not set"@,
        ));
    }
    o
}

/// True when the `outcome` field of the agent's outcome file counts as
/// success: anything but `fail` or `error`, compared trimmed and
/// lowercased.
pub open spec fn spec_outcome_field_ok(s: Seq<char>) -> bool {
    !(spec_lower(spec_trim(s)) == "fail"@ || spec_lower(spec_trim(s)) == "error"@)
}

/// Interprets the `outcome` field of the agent's outcome file.
pub fn interpret_outcome_field(s: &str) -> (r: bool)
    ensures
        r == spec_outcome_field_ok(s@),
{
    proof {
        reveal_strlit("fail");
        reveal_strlit("error");
    }
    let t = strutil::lower_str(strutil::trim_str(s));
    !(strutil::str_eq(t.as_str(), "fail") || strutil::str_eq(t.as_str(), "error"))
}

/// What the agent's outcome file contributed: whether its `outcome`
/// field counted as success, and its context updates.
pub struct AgentFileOutcome {
    pub outcome_success: Option<bool>,
    pub updates: RunContext,
}

/// Builds the agent node's outcome from the process exit status and
/// the parsed outcome file: a reported `outcome=fail` forces an error
/// even on exit 0, with the file's updates absorbed either way; a bad
/// exit fails with `agent exit N` or `agent signal`.
pub fn agent_outcome(exit_ok: bool, code: Option<i32>, file: Option<AgentFileOutcome>) -> (r:
    NodeOutcome)
    requires
        match file {
            Some(f) => f.updates.wf(),
            None => true,
        },
    ensures
        r.wf(),
        ({
            match file {
                Some(f) => {
                    if exit_ok && f.outcome_success == Some(false) {
                        r.status == OutcomeStatus::Error && strutil::opt_view(r.failure_reason)
                            == Some("agent reported outcome=fail in outcome.json"@)
                            && r.context_updates.as_map() == f.updates.as_map()
                    } else if exit_ok {
                        r.status == OutcomeStatus::Success && strutil::opt_view(r.notes) == Some(
                            "agent completed"@,
                        ) && r.context_updates.as_map() == f.updates.as_map()
                    } else {
                        r@ == spec_agent_exit_outcome(code)
                    }
                },
                None => {
                    if exit_ok {
                        r.status == OutcomeStatus::Success && strutil::opt_view(r.notes) == Some(
                            "agent completed"@,
                        ) && r.context_updates.kvs().len() == 0
                    } else {
                        r@ == spec_agent_exit_outcome(code)
                    }
                },
            }
        }),
{
    if !exit_ok {
        match code {
            Some(c) => {
                let msg = "agent exit ".to_owned().concat(
                    strutil::i64_to_string(c as i64).as_str(),
                );
                let o = NodeOutcome::error(msg.as_str());
                proof {
                    assert(o@ =~~= spec_agent_exit_outcome(code));
                }
                o
            },
            None => {
                let o = NodeOutcome::error("agent signal");
                proof {
                    assert(o@ =~~= spec_agent_exit_outcome(code));
                }
                o
            },
        }
    } else {
        match file {
            Some(f) => {
                let file_failed = match f.outcome_success {
                    Some(ok) => !ok,
                    None => false,
                };
                if file_failed {
                    let mut o = NodeOutcome::error("agent reported outcome=fail in outcome.json");
                    o.context_updates = f.updates;
                    o
                } else {
                    let mut o = NodeOutcome::success("agent completed");
                    o.context_updates = f.updates;
                    o
                }
            },
            None => NodeOutcome::success("agent completed"),
        }
    }
}

/// The agent-exit error outcome: `agent exit N`, or `agent signal`.
pub open spec fn spec_agent_exit_outcome(code: Option<i32>) -> OutcomeView {
    match code {
        Some(c) => OutcomeView::of_error("agent exit "@ + strutil::spec_idec(c as int)),
        None => OutcomeView::of_error("agent signal"@),
    }
}

/// Node shell that runs the external agent per payload.
#[derive(Debug)]
pub struct CodergenNode {
    /// Node display name.
    pub name: String,
    /// The prompt handed to the agent on its standard input.
    pub prompt: String,
    /// The agent command, whitespace-split into argv; absent means the
    /// node emits an error outcome.
    pub agent_cmd: Option<String>,
    /// The directory the agent stages its outcome file in.
    pub stage_dir: Option<String>,
    /// Input port names.
    pub input_ports: Vec<String>,
    /// Output port names.
    pub output_ports: Vec<String>,
}

impl CodergenNode {
    /// Creates the node with its display name, prompt and agent
    /// configuration.
    pub fn new(name: &str, prompt: &str, agent_cmd: Option<String>, stage_dir: Option<String>)
        -> (r: CodergenNode)
        ensures
            r.name@ == name@,
            r.prompt@ == prompt@,
            r.agent_cmd == agent_cmd,
            r.stage_dir == stage_dir,
            r.input_ports@.len() == 1,
            r.input_ports@[0]@ == "in"@,
            r.output_ports@.len() == 2,
            r.output_ports@[0]@ == "out"@,
            r.output_ports@[1]@ == "error"@,
    {
        CodergenNode {
            name: name.to_owned(),
            prompt: prompt.to_owned(),
            agent_cmd,
            stage_dir,
            input_ports: port_vec_1("in"),
            output_ports: port_vec_2("out", "error"),
        }
    }

    /// The node's display name.
    pub fn name(&self) -> (r: &str)
        ensures
            r@ == self.name@,
    {
        self.name.as_str()
    }

    /// Renames the node.
    pub fn set_name(&mut self, name: &str)
        ensures
            final(self).name@ == name@,
    {
        self.name = name.to_owned();
    }

    /// The input port names.
    pub fn input_port_names(&self) -> (r: &Vec<String>)
        ensures
            r == &self.input_ports,
    {
        &self.input_ports
    }

    /// The output port names.
    pub fn output_port_names(&self) -> (r: &Vec<String>)
        ensures
            r == &self.output_ports,
    {
        &self.output_ports
    }

    /// True for this node's input ports.
    pub fn has_input_port(&self, name: &str) -> (r: bool)
        ensures
            r == (name@ == "in"@),
    {
        strutil::str_eq(name, "in")
    }

    /// True for this node's output ports.
    pub fn has_output_port(&self, name: &str) -> (r: bool)
        ensures
            r == (name@ == "out"@ || name@ == "error"@),
    {
        strutil::str_eq(name, "out") || strutil::str_eq(name, "error")
    }
}

} // verus!

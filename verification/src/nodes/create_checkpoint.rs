//! Snapshots resumable state into a checkpoint.

use vstd::prelude::*;

use crate::nodes::message::NodeMessage;
use crate::nodes::ports::port_vec_1;
use crate::strutil;
use crate::types::checkpoint::Checkpoint;
use crate::types::context::RunContext;

verus! {

/// Input for one checkpoint snapshot.
pub struct CreateCheckpointInput {
    pub context: RunContext,
    pub current_node_id: String,
    pub completed_nodes: Vec<String>,
}

/// Builds a checkpoint holding copies of the resumable state.
pub fn create_checkpoint_from_input(input: &CreateCheckpointInput) -> (r: Checkpoint)
    ensures
        r.context.as_map() == input.context.as_map(),
        input.context.wf() ==> r.context.wf(),
        r.current_node_id@ == input.current_node_id@,
        r.completed_nodes@.len() == input.completed_nodes@.len(),
        forall|i: int|
            0 <= i < input.completed_nodes@.len() ==> r.completed_nodes@[i]@
                == input.completed_nodes@[i]@,
{
    Checkpoint {
        context: input.context.duplicate(),
        current_node_id: input.current_node_id.clone(),
        completed_nodes: strutil::clone_string_vec(&input.completed_nodes),
    }
}

/// Processes one message: checkpoint input yields a checkpoint.
pub fn process_create_checkpoint_item(item: NodeMessage) -> (r: Option<Checkpoint>)
    ensures
        match item {
            NodeMessage::CheckpointInput(input) => r matches Some(cp) && cp.context.as_map()
                == input.context.as_map() && cp.current_node_id@ == input.current_node_id@
                && cp.completed_nodes@.len() == input.completed_nodes@.len(),
            _ => r is None,
        },
{
    match item {
        NodeMessage::CheckpointInput(input) => Some(create_checkpoint_from_input(&input)),
        _ => None,
    }
}

/// Node shell that snapshots resumable state.
#[derive(Debug)]
pub struct CreateCheckpointNode {
    /// Node display name.
    pub name: String,
    /// Input port names.
    pub input_ports: Vec<String>,
    /// Output port names.
    pub output_ports: Vec<String>,
}

impl CreateCheckpointNode {
    /// Creates the node with the given display name and its fixed
    /// ports.
    pub fn new(name: &str) -> (r: CreateCheckpointNode)
        ensures
            r.name@ == name@,
            r.input_ports@.len() == 1,
            r.input_ports@[0]@ == "in"@,
            r.output_ports@.len() == 1,
            r.output_ports@[0]@ == "out"@,
    {
        CreateCheckpointNode {
            name: name.to_owned(),
            input_ports: port_vec_1("in"),
            output_ports: port_vec_1("out"),
        }
    }

    /// The node's display name.
    pub fn name(&self) -> (r: &str)
        ensures
            r@ == self.name@,
    {
        self.name.as_str()
    }

    /// Renames the node; the ports stay.
    pub fn set_name(&mut self, name: &str)
        ensures
            final(self).name@ == name@,
            final(self).input_ports == old(self).input_ports,
            final(self).output_ports == old(self).output_ports,
    {
        self.name = name.to_owned();
    }

    /// The input port names.
    pub fn input_port_names(&self) -> (r: &Vec<String>)
        ensures
            r == &self.input_ports,
    {
        &self.input_ports
    }

    /// The output port names.
    pub fn output_port_names(&self) -> (r: &Vec<String>)
        ensures
            r == &self.output_ports,
    {
        &self.output_ports
    }

    /// True for this node's input ports.
    pub fn has_input_port(&self, name: &str) -> (r: bool)
        ensures
            r == (name@ == "in"@),
    {
        crate::strutil::str_eq(name, "in")
    }

    /// True for this node's output ports.
    pub fn has_output_port(&self, name: &str) -> (r: bool)
        ensures
            r == (name@ == "out"@),
    {
        crate::strutil::str_eq(name, "out")
    }
}

} // verus!

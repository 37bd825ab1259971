//! A node in the parsed workflow graph, with its start/exit classification.

use vstd::prelude::*;

use crate::strutil;
use crate::strutil::spec_lower;

verus! {

/// True when the shape names a start node.
pub open spec fn spec_shape_is_start(shape: Seq<char>) -> bool {
    spec_lower(shape) == spec_lower("Mdiamond"@)
}

/// True when the shape names an exit node.
pub open spec fn spec_shape_is_exit(shape: Seq<char>) -> bool {
    spec_lower(shape) == spec_lower("Msquare"@)
}

/// True when the id names a start node.
pub open spec fn spec_id_is_start(id: Seq<char>) -> bool {
    spec_lower(id) == spec_lower("start"@)
}

/// True when the id names an exit node.
pub open spec fn spec_id_is_exit(id: Seq<char>) -> bool {
    spec_lower(id) == spec_lower("exit"@)
}

/// Returns true if the shape indicates a start node (`Mdiamond`,
/// compared ignoring ASCII case).
pub fn shape_is_start(shape: &str) -> (r: bool)
    ensures
        r == spec_shape_is_start(shape@),
{
    strutil::eq_ignore_case(shape, "Mdiamond")
}

/// Returns true if the shape indicates an exit node (`Msquare`).
pub fn shape_is_exit(shape: &str) -> (r: bool)
    ensures
        r == spec_shape_is_exit(shape@),
{
    strutil::eq_ignore_case(shape, "Msquare")
}

/// Returns true if the id indicates a start node.
pub fn id_is_start(id: &str) -> (r: bool)
    ensures
        r == spec_id_is_start(id@),
{
    strutil::eq_ignore_case(id, "start")
}

/// Returns true if the id indicates an exit node.
pub fn id_is_exit(id: &str) -> (r: bool)
    ensures
        r == spec_id_is_exit(id@),
{
    strutil::eq_ignore_case(id, "exit")
}

/// A node in the parsed workflow graph.
#[derive(Debug, Clone)]
pub struct AttractorNode {
    pub id: String,
    pub shape: String,
    pub handler_type: Option<String>,
    pub label: Option<String>,
    pub prompt: Option<String>,
    /// Command to run for the `exec` handler; success on exit 0.
    pub command: Option<String>,
    pub goal_gate: bool,
    pub max_retries: u32,
}

/// True when the node is a start node: by shape or by id.
pub open spec fn spec_is_start(n: &AttractorNode) -> bool {
    spec_shape_is_start(n.shape@) || spec_id_is_start(n.id@)
}

/// True when the node is an exit node: by shape or by id.
pub open spec fn spec_is_exit(n: &AttractorNode) -> bool {
    spec_shape_is_exit(n.shape@) || spec_id_is_exit(n.id@)
}

impl AttractorNode {
    /// True when this node is the graph's start.
    pub fn is_start(&self) -> (r: bool)
        ensures
            r == spec_is_start(self),
    {
        shape_is_start(self.shape.as_str()) || id_is_start(self.id.as_str())
    }

    /// True when this node is the graph's exit.
    pub fn is_exit(&self) -> (r: bool)
        ensures
            r == spec_is_exit(self),
    {
        shape_is_exit(self.shape.as_str()) || id_is_exit(self.id.as_str())
    }

    /// True when reaching this node terminates the traversal.
    pub fn is_terminal(&self) -> (r: bool)
        ensures
            r == spec_is_exit(self),
    {
        self.is_exit()
    }

    /// Field-wise sameness of two nodes, up to string views.
    pub open spec fn same_as(&self, o: &AttractorNode) -> bool {
        &&& self.id@ == o.id@
        &&& self.shape@ == o.shape@
        &&& strutil::opt_view(self.handler_type) == strutil::opt_view(o.handler_type)
        &&& strutil::opt_view(self.label) == strutil::opt_view(o.label)
        &&& strutil::opt_view(self.prompt) == strutil::opt_view(o.prompt)
        &&& strutil::opt_view(self.command) == strutil::opt_view(o.command)
        &&& self.goal_gate == o.goal_gate
        &&& self.max_retries == o.max_retries
    }

    /// An independent copy with the same fields.
    pub fn duplicate(&self) -> (r: AttractorNode)
        ensures
            r.same_as(self),
    {
        AttractorNode {
            id: self.id.clone(),
            shape: self.shape.clone(),
            handler_type: strutil::clone_opt_string(&self.handler_type),
            label: strutil::clone_opt_string(&self.label),
            prompt: strutil::clone_opt_string(&self.prompt),
            command: strutil::clone_opt_string(&self.command),
            goal_gate: self.goal_gate,
            max_retries: self.max_retries,
        }
    }
}

} // verus!

//! An edge in the parsed workflow graph.

use vstd::prelude::*;

use crate::strutil;

verus! {

/// An edge in the parsed workflow graph.
#[derive(Debug, Clone)]
pub struct AttractorEdge {
    pub from_node: String,
    pub to_node: String,
    pub label: Option<String>,
    pub condition: Option<String>,
    pub weight: i32,
}

impl AttractorEdge {
    /// Field-wise sameness of two edges, up to string views.
    pub open spec fn same_as(&self, o: &AttractorEdge) -> bool {
        &&& self.from_node@ == o.from_node@
        &&& self.to_node@ == o.to_node@
        &&& strutil::opt_view(self.label) == strutil::opt_view(o.label)
        &&& strutil::opt_view(self.condition) == strutil::opt_view(o.condition)
        &&& self.weight == o.weight
    }

    /// An independent copy with the same fields.
    pub fn duplicate(&self) -> (r: AttractorEdge)
        ensures
            r.same_as(self),
    {
        AttractorEdge {
            from_node: self.from_node.clone(),
            to_node: self.to_node.clone(),
            label: strutil::clone_opt_string(&self.label),
            condition: strutil::clone_opt_string(&self.condition),
            weight: self.weight,
        }
    }
}

} // verus!

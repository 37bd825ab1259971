//! Merges a node outcome into the run context: the outcome's updates
//! override the context, the `outcome` key records the status, and a
//! preferred label is copied when present.

use vstd::prelude::*;
use crate::nodes::message::NodeMessage;
use crate::nodes::ports::port_vec_1;

use crate::types::context::RunContext;
use crate::types::node_outcome::{NodeOutcome, OutcomeView};
use crate::types::outcome_status::spec_status_label;

verus! {

/// Input for one context update step.
pub struct ApplyContextUpdatesInput {
    pub context: RunContext,
    pub outcome: NodeOutcome,
}

/// The context after an outcome is applied: overridden by the
/// outcome's updates, the `outcome` key set to the status label, and
/// `preferred_label` set when the outcome carries one.
pub open spec fn spec_ctx_after(
    base: Map<Seq<char>, Seq<char>>,
    o: OutcomeView,
) -> Map<Seq<char>, Seq<char>> {
    let merged = base.union_prefer_right(o.updates).insert(
        "outcome"@,
        spec_status_label(o.status),
    );
    match o.preferred_label {
        Some(l) => merged.insert("preferred_label"@, l),
        None => merged,
    }
}

/// Applies an outcome to the context in place.
pub fn apply_context_updates(context: &mut RunContext, outcome: &NodeOutcome)
    requires
        old(context).wf(),
        outcome.wf(),
    ensures
        final(context).wf(),
        final(context).as_map() == spec_ctx_after(old(context).as_map(), outcome@),
{
    context.merge_from(&outcome.context_updates);
    context.insert("outcome".to_owned(), outcome.status.label());
    if let Some(l) = &outcome.preferred_label {
        context.insert("preferred_label".to_owned(), l.clone());
    }
}

/// Processes one message: a context/outcome pair yields the merged
/// context.
pub fn process_apply_context_updates_item(item: NodeMessage) -> (r: Option<RunContext>)
    ensures
        match item {
            NodeMessage::UpdateInput(input) => (input.context.wf() && input.outcome.wf()) ==> (
            r matches Some(ctx) && ctx.wf() && ctx.as_map() == spec_ctx_after(
                input.context.as_map(),
                input.outcome@,
            )),
            _ => r is None,
        },
{
    match item {
        NodeMessage::UpdateInput(input) => {
            if has_unique_keys(&input.context) && has_unique_keys(&input.outcome.context_updates) {
                Some(apply_updates(&input))
            } else {
                None
            }
        },
        _ => None,
    }
}

/// Checks the unique-key invariant at run time.
fn has_unique_keys(ctx: &RunContext) -> (r: bool)
    ensures
        r == ctx.wf(),
{
    let n = ctx.len();
    let mut i: usize = 0;
    while i < n
        invariant
            n == ctx.kvs().len(),
            i <= n,
            forall|p: int, q: int| 0 <= p < q < i ==> ctx.kvs()[p].0@ != ctx.kvs()[q].0@,
        decreases n - i,
    {
        let (ki, _) = ctx.pair_at(i);
        let mut j: usize = 0;
        while j < i
            invariant
                n == ctx.kvs().len(),
                j <= i < n,
                ki@ == ctx.kvs()[i as int].0@,
                forall|p: int, q: int| 0 <= p < q < i ==> ctx.kvs()[p].0@ != ctx.kvs()[q].0@,
                forall|p: int| 0 <= p < j ==> ctx.kvs()[p].0@ != ctx.kvs()[i as int].0@,
            decreases i - j,
        {
            let (kj, _) = ctx.pair_at(j);
            if crate::strutil::str_eq(kj.as_str(), ki.as_str()) {
                return false;
            }
            j = j + 1;
        }
        i = i + 1;
    }
    true
}

/// Applies an outcome to a copy of the context and returns the copy.
pub fn apply_updates(input: &ApplyContextUpdatesInput) -> (r: RunContext)
    requires
        input.context.wf(),
        input.outcome.wf(),
    ensures
        r.wf(),
        r.as_map() == spec_ctx_after(input.context.as_map(), input.outcome@),
{
    let mut ctx = input.context.duplicate();
    apply_context_updates(&mut ctx, &input.outcome);
    ctx
}


/// Node shell that merges outcomes into the context.
#[derive(Debug)]
pub struct ApplyContextUpdatesNode {
    /// Node display name.
    pub name: String,
    /// Input port names.
    pub input_ports: Vec<String>,
    /// Output port names.
    pub output_ports: Vec<String>,
}

impl ApplyContextUpdatesNode {
    /// Creates the node with the given display name and its fixed
    /// ports.
    pub fn new(name: &str) -> (r: ApplyContextUpdatesNode)
        ensures
            r.name@ == name@,
            r.input_ports@.len() == 1,
            r.input_ports@[0]@ == "in"@,
            r.output_ports@.len() == 1,
            r.output_ports@[0]@ == "out"@,
    {
        ApplyContextUpdatesNode {
            name: name.to_owned(),
            input_ports: port_vec_1("in"),
            output_ports: port_vec_1("out"),
        }
    }

    /// The node's display name.
    pub fn name(&self) -> (r: &str)
        ensures
            r@ == self.name@,
    {
        self.name.as_str()
    }

    /// Renames the node; the ports stay.
    pub fn set_name(&mut self, name: &str)
        ensures
            final(self).name@ == name@,
            final(self).input_ports == old(self).input_ports,
            final(self).output_ports == old(self).output_ports,
    {
        self.name = name.to_owned();
    }

    /// The input port names.
    pub fn input_port_names(&self) -> (r: &Vec<String>)
        ensures
            r == &self.input_ports,
    {
        &self.input_ports
    }

    /// The output port names.
    pub fn output_port_names(&self) -> (r: &Vec<String>)
        ensures
            r == &self.output_ports,
    {
        &self.output_ports
    }

    /// True for this node's input ports.
    pub fn has_input_port(&self, name: &str) -> (r: bool)
        ensures
            r == (name@ == "in"@),
    {
        crate::strutil::str_eq(name, "in")
    }

    /// True for this node's output ports.
    pub fn has_output_port(&self, name: &str) -> (r: bool)
        ensures
            r == (name@ == "out"@),
    {
        crate::strutil::str_eq(name, "out")
    }
}

} // verus!

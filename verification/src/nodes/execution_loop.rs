//! The stepwise traversal loop: execute the current node's handler,
//! merge its outcome into the context, record the step, select the next
//! edge, and repeat until no next node exists or the iteration cap is
//! hit.

use vstd::prelude::*;
use crate::nodes::ports::{port_vec_1, port_vec_2};
use vstd::string::StringExecFns;

pub use crate::nodes::apply_context_updates::apply_context_updates;

use crate::strutil;
use crate::types::attractor_graph::AttractorGraph;
use crate::types::context::RunContext;
use crate::types::execution_log::ExecutionStepEntry;
use crate::types::execution_state::ExecutionState;
use crate::types::node_outcome::{NodeOutcome, OutcomeView};
use crate::nodes::apply_context_updates::spec_ctx_after;
use crate::nodes::execute_handler::{
    execute_handler, lemma_execute_handler_same, spec_execute_handler, ExecuteHandlerInput,
};
use crate::nodes::select_edge::{select_next_in, spec_select_next};

verus! {

/// The traversal's user-visible result.
#[derive(Debug, Clone)]
pub struct AttractorResult {
    pub last_outcome: NodeOutcome,
    pub completed_nodes: Vec<String>,
    pub context: RunContext,
    /// True when the run was recognized as already finished and nothing
    /// was executed.
    pub already_completed: bool,
}

/// Outcome of one whole traversal.
#[derive(Debug)]
pub enum RunLoopResult {
    Done(AttractorResult),
    Failed(String),
}

/// The part of the execution state the loop's meaning depends on.
#[verifier::ext_equal]
pub ghost struct LoopView {
    pub ctx: Map<Seq<char>, Seq<char>>,
    pub current: Seq<char>,
    pub completed: Seq<Seq<char>>,
}

/// What one loop iteration does, abstractly.
#[verifier::ext_equal]
pub ghost enum SpecStep {
    /// Traversal moves on to another node.
    Advance(LoopView),
    /// No next edge: the traversal ends with this context, completed
    /// list and final outcome.
    Finish { ctx: Map<Seq<char>, Seq<char>>, completed: Seq<Seq<char>>, outcome: OutcomeView },
    /// The current node id is not in the graph.
    Fault(Seq<char>),
}

/// Abstract result of the whole loop.
#[verifier::ext_equal]
pub ghost enum SpecLoopOutcome {
    Finished { ctx: Map<Seq<char>, Seq<char>>, completed: Seq<Seq<char>>, outcome: OutcomeView },
    Failed(Seq<char>),
}

/// The view of an execution state that the loop reads and writes.
pub open spec fn spec_loop_view(s: ExecutionState) -> LoopView {
    LoopView {
        ctx: s.context.as_map(),
        current: s.current_node_id@,
        completed: s.completed_nodes@.map_values(|x: String| x@),
    }
}

/// The view of an optionally produced outcome.
pub open spec fn spec_produced_view(p: Option<NodeOutcome>) -> Option<OutcomeView> {
    match p {
        Some(o) => Some(o@),
        None => None,
    }
}

/// The outcome one iteration runs with: the one outside work produced,
/// or the synchronous handler's.
pub open spec fn spec_step_outcome(
    g: AttractorGraph,
    v: LoopView,
    produced: Option<OutcomeView>,
) -> OutcomeView {
    match produced {
        Some(o) => o,
        None => spec_execute_handler(g.nodes.spec_get(v.current)),
    }
}

/// The context after one iteration merges its outcome.
pub open spec fn spec_step_ctx(
    g: AttractorGraph,
    v: LoopView,
    produced: Option<OutcomeView>,
) -> Map<Seq<char>, Seq<char>> {
    spec_ctx_after(v.ctx, spec_step_outcome(g, v, produced))
}

/// The next node one iteration selects, if any.
pub open spec fn spec_step_next(
    g: AttractorGraph,
    v: LoopView,
    produced: Option<OutcomeView>,
) -> Option<Seq<char>> {
    let ov = spec_step_outcome(g, v, produced);
    spec_select_next(
        v.current,
        ov.status,
        ov.preferred_label,
        ov.suggested,
        spec_step_ctx(g, v, produced),
        g.edges@,
    ).0
}

/// One abstract loop iteration: look the node up, take the given
/// outcome (when outside work produced one) or run the synchronous
/// handler, merge the outcome, append the node to the completed list,
/// and select the next edge.
pub open spec fn spec_loop_next_with(
    g: AttractorGraph,
    v: LoopView,
    produced: Option<OutcomeView>,
) -> SpecStep {
    if !g.nodes.spec_contains(v.current) {
        SpecStep::Fault("Node not found: "@ + v.current)
    } else {
        let ov = spec_step_outcome(g, v, produced);
        let ctx2 = spec_step_ctx(g, v, produced);
        let completed2 = v.completed.push(v.current);
        match spec_step_next(g, v, produced) {
            Some(id) => SpecStep::Advance(LoopView { ctx: ctx2, current: id, completed: completed2 }),
            None => SpecStep::Finish { ctx: ctx2, completed: completed2, outcome: ov },
        }
    }
}

/// One abstract loop iteration with the synchronous handler deciding
/// every outcome.
pub open spec fn spec_loop_next(g: AttractorGraph, v: LoopView) -> SpecStep {
    spec_loop_next_with(g, v, None)
}

/// The abstract loop: iterate [`spec_loop_next`] until it finishes or
/// faults, or the fuel runs out.
pub open spec fn spec_loop_run(g: AttractorGraph, v: LoopView, fuel: nat) -> SpecLoopOutcome
    decreases fuel,
{
    if fuel == 0 {
        SpecLoopOutcome::Failed("Max iterations exceeded"@)
    } else {
        match spec_loop_next(g, v) {
            SpecStep::Advance(v2) => spec_loop_run(g, v2, (fuel - 1) as nat),
            SpecStep::Finish { ctx, completed, outcome } => SpecLoopOutcome::Finished {
                ctx,
                completed,
                outcome,
            },
            SpecStep::Fault(e) => SpecLoopOutcome::Failed(e),
        }
    }
}

/// Executes one iteration of the traversal loop: the given outcome
/// (from outside work such as a spawned command or agent) or the
/// synchronous handler decides, the context and completed list
/// advance, a step entry is recorded when a log is kept, and either
/// the next node is set or the final result is returned.
pub fn advance_execution_with(
    state: &mut ExecutionState,
    produced: Option<NodeOutcome>,
) -> (r: Option<RunLoopResult>)
    requires
        old(state).wf(),
        match produced {
            Some(o) => o.wf(),
            None => true,
        },
    ensures
        final(state).wf(),
        final(state).graph == old(state).graph,
        old(state).step_log is None ==> final(state).step_log is None,
        old(state).step_log is Some ==> final(state).step_log is Some,
        match spec_loop_next_with(
            old(state).graph,
            spec_loop_view(*old(state)),
            spec_produced_view(produced),
        ) {
            SpecStep::Advance(v2) => r is None && spec_loop_view(*final(state)) == v2,
            SpecStep::Finish { ctx, completed, outcome } => {
                &&& r matches Some(RunLoopResult::Done(res))
                &&& res.last_outcome@ == outcome
                &&& res.context.as_map() == ctx
                &&& res.completed_nodes@.map_values(|s: String| s@) == completed
                &&& !res.already_completed
                &&& final(state).context.as_map() == ctx
                &&& final(state).completed_nodes@.map_values(|s: String| s@) == completed
            },
            SpecStep::Fault(e) => {
                &&& r matches Some(RunLoopResult::Failed(msg))
                &&& msg@ == e
            },
        },
        !old(state).graph.nodes.spec_contains(spec_loop_view(*old(state)).current)
            ==> *final(state) == *old(state),
        old(state).graph.nodes.spec_contains(spec_loop_view(*old(state)).current)
            ==> (exists|i: int|
            0 <= i < final(state).node_outcomes.entries().len()
                && (#[trigger] final(state).node_outcomes.entries()[i]).0@
                == spec_loop_view(*old(state)).current
                && final(state).node_outcomes.entries()[i].1@ == spec_step_outcome(
                old(state).graph,
                spec_loop_view(*old(state)),
                spec_produced_view(produced),
            )),
        (old(state).graph.nodes.spec_contains(spec_loop_view(*old(state)).current)
            && old(state).step_log is Some) ==> ({
            let g = old(state).graph;
            let v = spec_loop_view(*old(state));
            let pv = spec_produced_view(produced);
            let entries = old(state).step_log.unwrap()@;
            &&& final(state).step_log is Some
            &&& ({
                let entries2 = final(state).step_log.unwrap()@;
                &&& entries2.len() == entries.len() + 1
                &&& (forall|j: int| 0 <= j < entries.len() ==> entries2[j] == entries[j])
                &&& entries2.last().step as int == (if entries.len() < 1000000 {
                    entries.len() + 1
                } else {
                    1000000
                })
                &&& entries2.last().node_id@ == v.current
                &&& strutil::opt_view(entries2.last().handler_type) == strutil::opt_view(
                    g.nodes.spec_get(v.current).handler_type,
                )
                &&& entries2.last().context_before.as_map() == v.ctx
                &&& entries2.last().outcome@ == spec_step_outcome(g, v, pv)
                &&& entries2.last().context_after.as_map() == spec_step_ctx(g, v, pv)
                &&& strutil::opt_view(entries2.last().next_node_id) == spec_step_next(g, v, pv)
                &&& entries2.last().completed_nodes_after@.map_values(|x: String| x@)
                    == v.completed.push(v.current)
            })
        }),
{
    let ghost v0 = spec_loop_view(*state);
    let node = match state.graph.nodes.get(state.current_node_id.as_str()) {
        Some(n) => n.duplicate(),
        None => {
            let msg = "Node not found: ".to_owned().concat(state.current_node_id.as_str());
            return Some(RunLoopResult::Failed(msg));
        },
    };
    proof {
        lemma_execute_handler_same(node, state.graph.nodes.spec_get(v0.current));
    }
    let context_before = state.context.duplicate();
    let handler_input = ExecuteHandlerInput {
        node: node.duplicate(),
        context: state.context.duplicate(),
        graph: state.graph.duplicate(),
    };
    proof {
        lemma_execute_handler_same(handler_input.node, node);
    }
    let outcome = match produced {
        Some(o) => o,
        None => match execute_handler(&handler_input) {
            Ok(o) => o,
            Err(e) => NodeOutcome::error(e.as_str()),
        },
    };
    apply_context_updates(&mut state.context, &outcome);
    let current_id = state.current_node_id.clone();
    state.completed_nodes.push(current_id.clone());
    proof {
        assert(state.completed_nodes@.map_values(|s: String| s@) =~= v0.completed.push(
            v0.current,
        ));
    }
    let recorded = outcome.duplicate();
    proof {
        recorded.lemma_same_as_view(&outcome);
    }
    state.node_outcomes.insert(current_id.clone(), recorded);
    let sel = select_next_in(&state.graph, current_id.as_str(), &outcome, &state.context);
    proof {
        assert(outcome@ == spec_step_outcome(
            old(state).graph,
            v0,
            spec_produced_view(produced),
        ));
        assert(state.context.as_map() == spec_step_ctx(
            old(state).graph,
            v0,
            spec_produced_view(produced),
        ));
        assert(strutil::opt_view(sel.next_node_id) == spec_step_next(
            old(state).graph,
            v0,
            spec_produced_view(produced),
        ));
    }
    if let Some(log) = &mut state.step_log {
        let step_no: u32 = if log.len() < 1000000 {
            (log.len() + 1) as u32
        } else {
            1000000
        };
        let logged_outcome = outcome.duplicate();
        proof {
            logged_outcome.lemma_same_as_view(&outcome);
        }
        let entry = ExecutionStepEntry::new(
            step_no,
            current_id.as_str(),
            strutil::clone_opt_string(&node.handler_type),
            context_before,
            logged_outcome,
            state.context.duplicate(),
            strutil::clone_opt_string(&sel.next_node_id),
            strutil::clone_string_vec(&state.completed_nodes),
        );
        log.push(entry);
        proof {
            assert(log@.last() == entry);
            assert(entry.completed_nodes_after@.map_values(|x: String| x@) =~= v0.completed.push(
                v0.current,
            ));
        }
    }
    match sel.next_node_id {
        Some(next_id) => {
            state.current_node_id = next_id;
            None
        },
        None => {
            let res = AttractorResult {
                last_outcome: outcome,
                completed_nodes: strutil::clone_string_vec(&state.completed_nodes),
                context: state.context.duplicate(),
                already_completed: false,
            };
            proof {
                assert(res.completed_nodes@.map_values(|s: String| s@)
                    =~= state.completed_nodes@.map_values(|s: String| s@));
            }
            Some(RunLoopResult::Done(res))
        },
    }
}

/// Executes one iteration with the synchronous handler deciding.
pub fn advance_execution(state: &mut ExecutionState) -> (r: Option<RunLoopResult>)
    requires
        old(state).wf(),
    ensures
        final(state).wf(),
        final(state).graph == old(state).graph,
        old(state).step_log is None ==> final(state).step_log is None,
        old(state).step_log is Some ==> final(state).step_log is Some,
        match spec_loop_next(old(state).graph, spec_loop_view(*old(state))) {
            SpecStep::Advance(v2) => r is None && spec_loop_view(*final(state)) == v2,
            SpecStep::Finish { ctx, completed, outcome } => {
                &&& r matches Some(RunLoopResult::Done(res))
                &&& res.last_outcome@ == outcome
                &&& res.context.as_map() == ctx
                &&& res.completed_nodes@.map_values(|s: String| s@) == completed
                &&& !res.already_completed
                &&& final(state).context.as_map() == ctx
                &&& final(state).completed_nodes@.map_values(|s: String| s@) == completed
            },
            SpecStep::Fault(e) => {
                &&& r matches Some(RunLoopResult::Failed(msg))
                &&& msg@ == e
            },
        },
{
    advance_execution_with(state, None)
}

/// Runs the traversal loop to completion, with a hard cap of 1000
/// iterations.
pub fn run_execution_loop_once(state: &mut ExecutionState) -> (r: RunLoopResult)
    requires
        old(state).wf(),
    ensures
        final(state).wf(),
        final(state).graph == old(state).graph,
        match r {
            RunLoopResult::Done(res) => spec_loop_run(
                old(state).graph,
                spec_loop_view(*old(state)),
                1000,
            ) matches SpecLoopOutcome::Finished { ctx, completed, outcome }
                && res.last_outcome@ == outcome && res.context.as_map() == ctx
                && res.completed_nodes@.map_values(|s: String| s@) == completed
                && !res.already_completed,
            RunLoopResult::Failed(e) => spec_loop_run(
                old(state).graph,
                spec_loop_view(*old(state)),
                1000,
            ) matches SpecLoopOutcome::Failed(msg) && e@ == msg,
        },
{
    let mut iter: usize = 0;
    loop
        invariant
            state.wf(),
            state.graph == old(state).graph,
            iter <= 1000,
            spec_loop_run(old(state).graph, spec_loop_view(*old(state)), 1000) == spec_loop_run(
                state.graph,
                spec_loop_view(*state),
                (1000 - iter) as nat,
            ),
        decreases 1000 - iter,
    {
        if iter >= 1000 {
            return RunLoopResult::Failed("Max iterations exceeded".to_owned());
        }
        iter = iter + 1;
        match advance_execution(state) {
            Some(r) => {
                return r;
            },
            None => {},
        }
    }
}


/// Node shell that drives the traversal loop.
#[derive(Debug)]
pub struct AttractorExecutionLoopNode {
    /// Node display name.
    pub name: String,
    /// Input port names.
    pub input_ports: Vec<String>,
    /// Output port names.
    pub output_ports: Vec<String>,
}

impl AttractorExecutionLoopNode {
    /// Creates the node with the given display name and its fixed
    /// ports.
    pub fn new(name: &str) -> (r: AttractorExecutionLoopNode)
        ensures
            r.name@ == name@,
            r.input_ports@.len() == 1,
            r.input_ports@[0]@ == "in"@,
            r.output_ports@.len() == 2,
            r.output_ports@[0]@ == "out"@,
            r.output_ports@[1]@ == "error"@,
    {
        AttractorExecutionLoopNode {
            name: name.to_owned(),
            input_ports: port_vec_1("in"),
            output_ports: port_vec_2("out", "error"),
        }
    }

    /// The node's display name.
    pub fn name(&self) -> (r: &str)
        ensures
            r@ == self.name@,
    {
        self.name.as_str()
    }

    /// Renames the node; the ports stay.
    pub fn set_name(&mut self, name: &str)
        ensures
            final(self).name@ == name@,
            final(self).input_ports == old(self).input_ports,
            final(self).output_ports == old(self).output_ports,
    {
        self.name = name.to_owned();
    }

    /// The input port names.
    pub fn input_port_names(&self) -> (r: &Vec<String>)
        ensures
            r == &self.input_ports,
    {
        &self.input_ports
    }

    /// The output port names.
    pub fn output_port_names(&self) -> (r: &Vec<String>)
        ensures
            r == &self.output_ports,
    {
        &self.output_ports
    }

    /// True for this node's input ports.
    pub fn has_input_port(&self, name: &str) -> (r: bool)
        ensures
            r == (name@ == "in"@),
    {
        crate::strutil::str_eq(name, "in")
    }

    /// True for this node's output ports.
    pub fn has_output_port(&self, name: &str) -> (r: bool)
        ensures
            r == (name@ == "out"@ || name@ == "error"@),
    {
        crate::strutil::str_eq(name, "out") || crate::strutil::str_eq(name, "error")
    }
}


/// Running the same graph twice without resume executes the same
/// traversal: the loop's outcome is a function of the graph and the
/// initial view alone, so two runs from equal initial views finish
/// with the same completed-node sequence, context and status.
pub proof fn lemma_loop_run_deterministic(g: AttractorGraph, s1: ExecutionState, s2: ExecutionState)
    requires
        s1.graph == g,
        s2.graph == g,
        spec_loop_view(s1) == spec_loop_view(s2),
    ensures
        spec_loop_run(g, spec_loop_view(s1), 1000) == spec_loop_run(g, spec_loop_view(s2), 1000),
{
}
} // verus!

//! The run controller's decision logic: recognizing already-completed
//! resumes, recovering resume state from an execution log, building
//! the initial payload, and translating a final payload into the
//! user-visible result.

use vstd::prelude::*;

use crate::strutil;
use crate::types::attractor_graph::AttractorGraph;
use crate::types::attractor_node::spec_is_start;
use crate::types::checkpoint::Checkpoint;
use crate::types::context::RunContext;
use crate::types::execution_log::{ExecutionLog, ExecutionStepEntry};
use crate::types::graph_payload::GraphPayload;
use crate::types::node_outcome::{NodeOutcome, OutcomeView};
use crate::types::resume_state::ResumeState;
use crate::nodes::execution_loop::AttractorResult;

verus! {

/// Options for one run.
#[derive(Debug)]
pub struct RunOptions {
    /// Directory for a success checkpoint, when set.
    pub run_dir: Option<String>,
    /// State recovered from a checkpoint to resume from.
    pub resume_state: Option<ResumeState>,
    /// Short-circuit: the resumed run is already complete.
    pub resume_already_completed: bool,
    /// Command for agent nodes.
    pub agent_cmd: Option<String>,
    /// Directory the agent stages its outcome in.
    pub stage_dir: Option<String>,
    /// Path of the execution log; its presence selects the stepwise
    /// loop.
    pub execution_log_path: Option<String>,
}

/// Resume state recovered from an execution log, with the flag that
/// the logged run had already finished.
#[derive(Debug)]
pub struct ResumeFromLog {
    pub checkpoint: Checkpoint,
    pub already_completed: bool,
}

/// Recovers resume state from an execution log.
///
/// A finished log resumes at the exit node (or the last completed
/// node) and is already complete; an unfinished log with steps resumes
/// at the last step's chosen next node; an unfinished log without
/// steps yields nothing.
pub fn resume_state_from_log(log: &ExecutionLog, exit_node_id: Option<&str>) -> (r: Option<
    ResumeFromLog,
>)
    requires
        forall|i: int| 0 <= i < log.steps@.len() ==> (#[trigger] log.steps@[i]).context_after.wf(),
    ensures
        ({
            let steps = log.steps@;
            if log.finished_at is Some {
                &&& r matches Some(rl)
                &&& rl.already_completed
                &&& rl.checkpoint.current_node_id@ == (match exit_node_id {
                    Some(id) => id@,
                    None => if log.completed_nodes@.len() > 0 {
                        log.completed_nodes@.last()@
                    } else {
                        Seq::<char>::empty()
                    },
                })
                &&& rl.checkpoint.completed_nodes@.len() == log.completed_nodes@.len()
                &&& (forall|i: int|
                    0 <= i < log.completed_nodes@.len() ==> rl.checkpoint.completed_nodes@[i]@
                        == log.completed_nodes@[i]@)
                &&& rl.checkpoint.context.as_map() == (if steps.len() > 0 {
                    steps.last().context_after.as_map()
                } else {
                    Map::<Seq<char>, Seq<char>>::empty()
                })
                &&& rl.checkpoint.context.wf()
            } else if steps.len() == 0 {
                r is None
            } else {
                &&& r matches Some(rl)
                &&& !rl.already_completed
                &&& rl.checkpoint.current_node_id@ == (match strutil::opt_view(
                    steps.last().next_node_id,
                ) {
                    Some(nid) => nid,
                    None => if steps.last().completed_nodes_after@.len() > 0 {
                        steps.last().completed_nodes_after@.last()@
                    } else {
                        Seq::<char>::empty()
                    },
                })
                &&& rl.checkpoint.completed_nodes@.len()
                    == steps.last().completed_nodes_after@.len()
                &&& (forall|i: int|
                    0 <= i < steps.last().completed_nodes_after@.len()
                        ==> rl.checkpoint.completed_nodes@[i]@
                        == steps.last().completed_nodes_after@[i]@)
                &&& rl.checkpoint.context.as_map() == steps.last().context_after.as_map()
                &&& rl.checkpoint.context.wf()
            }
        }),
{
    let finished = match &log.finished_at {
        Some(_) => true,
        None => false,
    };
    if finished {
        let current_node_id: String = match exit_node_id {
            Some(id) => id.to_owned(),
            None => {
                if log.completed_nodes.len() > 0 {
                    log.completed_nodes[log.completed_nodes.len() - 1].clone()
                } else {
                    String::new()
                }
            },
        };
        let context: RunContext = if log.steps.len() > 0 {
            log.steps[log.steps.len() - 1].context_after.duplicate()
        } else {
            RunContext::new()
        };
        return Some(
            ResumeFromLog {
                checkpoint: Checkpoint {
                    context,
                    current_node_id,
                    completed_nodes: strutil::clone_string_vec(&log.completed_nodes),
                },
                already_completed: true,
            },
        );
    }
    if log.steps.len() == 0 {
        return None;
    }
    let last = &log.steps[log.steps.len() - 1];
    let current_node_id: String = match &last.next_node_id {
        Some(nid) => nid.clone(),
        None => {
            if last.completed_nodes_after.len() > 0 {
                last.completed_nodes_after[last.completed_nodes_after.len() - 1].clone()
            } else {
                String::new()
            }
        },
    };
    Some(
        ResumeFromLog {
            checkpoint: Checkpoint {
                context: last.context_after.duplicate(),
                current_node_id,
                completed_nodes: strutil::clone_string_vec(&last.completed_nodes_after),
            },
            already_completed: false,
        },
    )
}

/// True when the run must return at once: the caller marked the resume
/// complete, or the resumed position is the exit node and no log-driven
/// continuation is requested.
pub fn resume_short_circuits(
    resume_state: &Option<ResumeState>,
    exit_id: &str,
    resume_already_completed: bool,
    has_log_path: bool,
) -> (r: bool)
    ensures
        r == (match resume_state {
            Some(st) => resume_already_completed || (st.current_node_id@ == exit_id@
                && !has_log_path),
            None => false,
        }),
{
    match resume_state {
        Some(st) => resume_already_completed || (strutil::str_eq(
            st.current_node_id.as_str(),
            exit_id,
        ) && !has_log_path),
        None => false,
    }
}

/// The result of a run recognized as already complete: success, the
/// recovered context and completed list, and the flag set.
pub fn already_completed_result(st: &ResumeState) -> (r: AttractorResult)
    ensures
        r.last_outcome@ == OutcomeView::of_success("Exit"@),
        r.context.as_map() == st.context.as_map(),
        st.context.wf() ==> r.context.wf(),
        r.completed_nodes@.len() == st.completed_nodes@.len(),
        forall|i: int|
            0 <= i < st.completed_nodes@.len() ==> r.completed_nodes@[i]@
                == st.completed_nodes@[i]@,
        r.already_completed,
{
    let o = NodeOutcome::success("Exit");
    proof {
        assert(o@ =~~= OutcomeView::of_success("Exit"@));
    }
    AttractorResult {
        last_outcome: o,
        completed_nodes: strutil::clone_string_vec(&st.completed_nodes),
        context: st.context.duplicate(),
        already_completed: true,
    }
}

/// Builds the initial payload of a dataflow run: the recovered resume
/// state when present, else a fresh payload at the start node with the
/// goal seeded into the context.
pub fn build_initial_payload(ast: &AttractorGraph, resume_state: &Option<ResumeState>) -> (r:
    Result<GraphPayload, String>)
    ensures
        match resume_state {
            Some(st) => r matches Ok(p) && p.context.as_map() == st.context.as_map()
                && p.current_node_id@ == st.current_node_id@ && p.completed_nodes@.len()
                == st.completed_nodes@.len() && p.outcome is None,
            None => {
                if exists|i: int|
                    0 <= i < ast.nodes.seq().len() && spec_is_start(&ast.nodes.seq()[i]) {
                    r matches Ok(p) && p.context.as_map() == Map::<Seq<char>, Seq<char>>::empty()
                        .insert("goal"@, ast.goal@).insert("graph.goal"@, ast.goal@)
                        && p.completed_nodes@.len() == 0 && p.outcome is None && exists|i: int|
                        0 <= i < ast.nodes.seq().len() && (#[trigger] ast.nodes.seq()[i]).id@
                            == p.current_node_id@ && spec_is_start(&ast.nodes.seq()[i])
                } else {
                    r matches Err(e) && e@ == "missing start node"@
                }
            },
        },
{
    match resume_state {
        Some(st) => Ok(GraphPayload::from_resume_state(st)),
        None => {
            let start_id: String = match ast.find_start() {
                Some(n) => n.id.clone(),
                None => {
                    return Err("missing start node".to_owned());
                },
            };
            let mut ctx = RunContext::new();
            ctx.insert("goal".to_owned(), ast.goal.clone());
            ctx.insert("graph.goal".to_owned(), ast.goal.clone());
            Ok(GraphPayload::initial(ctx, start_id.as_str()))
        },
    }
}

/// Translates the first terminal payload of a dataflow run into the
/// user-visible result: its context, completed list, and outcome, with
/// a bare success standing in when the payload carries no outcome and
/// an empty result when no payload arrived.
pub fn final_result_from_payload(payload: Option<GraphPayload>) -> (r: AttractorResult)
    ensures
        !r.already_completed,
        match payload {
            Some(p) => {
                &&& r.context.as_map() == p.context.as_map()
                &&& r.completed_nodes@.len() == p.completed_nodes@.len()
                &&& (forall|i: int|
                    0 <= i < p.completed_nodes@.len() ==> r.completed_nodes@[i]@
                        == p.completed_nodes@[i]@)
                &&& (match p.outcome {
                    Some(o) => r.last_outcome.same_as(&o),
                    None => r.last_outcome@ == OutcomeView::of_success("Exit"@),
                })
            },
            None => {
                &&& r.context.kvs().len() == 0
                &&& r.completed_nodes@.len() == 0
                &&& r.last_outcome@ == OutcomeView::of_success("Exit"@)
            },
        },
{
    match payload {
        Some(p) => {
            let last_outcome = match &p.outcome {
                Some(o) => o.duplicate(),
                None => {
                    let o = NodeOutcome::success("Exit");
                    proof {
                        assert(o@ =~~= OutcomeView::of_success("Exit"@));
                    }
                    o
                },
            };
            AttractorResult {
                last_outcome,
                completed_nodes: strutil::clone_string_vec(&p.completed_nodes),
                context: p.context.duplicate(),
                already_completed: false,
            }
        },
        None => {
            let o = NodeOutcome::success("Exit");
            proof {
                assert(o@ =~~= OutcomeView::of_success("Exit"@));
            }
            AttractorResult {
                last_outcome: o,
                completed_nodes: Vec::new(),
                context: RunContext::new(),
                already_completed: false,
            }
        },
    }
}

/// Builds a log snapshot with the given run metadata, completed list
/// and steps.
pub fn build_log_snapshot(
    goal: &str,
    started_at: &str,
    finished_at: Option<String>,
    final_status: &str,
    completed_nodes: &Vec<String>,
    steps: Vec<ExecutionStepEntry>,
) -> (r: ExecutionLog)
    ensures
        r.version == 1,
        r.goal@ == goal@,
        r.started_at@ == started_at@,
        r.finished_at == finished_at,
        r.final_status@ == final_status@,
        r.completed_nodes@.len() == completed_nodes@.len(),
        forall|i: int|
            0 <= i < completed_nodes@.len() ==> r.completed_nodes@[i]@ == completed_nodes@[i]@,
        r.steps == steps,
{
    ExecutionLog {
        version: 1,
        goal: goal.to_owned(),
        started_at: started_at.to_owned(),
        finished_at,
        final_status: final_status.to_owned(),
        completed_nodes: strutil::clone_string_vec(completed_nodes),
        steps,
    }
}

} // verus!

//! Tests for the outcome status, node outcome, payload, checkpoint and
//! resume state types.

use attractor::types::checkpoint::Checkpoint;
use attractor::types::context::RunContext;
use attractor::types::graph_payload::GraphPayload;
use attractor::types::node_outcome::NodeOutcome;
use attractor::types::outcome_status::OutcomeStatus;
use attractor::types::resume_state::ResumeState;

#[test]
fn display_success() {
    assert_eq!(OutcomeStatus::Success.to_string(), "success");
}

#[test]
fn display_partial_success() {
    assert_eq!(OutcomeStatus::PartialSuccess.to_string(), "partial_success");
}

#[test]
fn display_error() {
    assert_eq!(OutcomeStatus::Error.to_string(), "error");
}

#[test]
fn display_retry() {
    assert_eq!(OutcomeStatus::Retry.to_string(), "retry");
}

#[test]
fn eq_variants() {
    assert_eq!(OutcomeStatus::Success, OutcomeStatus::Success);
    assert_ne!(OutcomeStatus::Success, OutcomeStatus::Error);
}

#[test]
fn success_creates_success_outcome() {
    let o = NodeOutcome::success("done");
    assert_eq!(o.status, OutcomeStatus::Success);
    assert_eq!(o.notes.as_deref(), Some("done"));
    assert!(o.failure_reason.is_none());
    assert!(o.context_updates.is_empty());
    assert!(o.preferred_label.is_none());
    assert!(o.suggested_next_ids.is_empty());
}

#[test]
fn success_accepts_string() {
    let o = NodeOutcome::success(String::from("ok").as_str());
    assert_eq!(o.notes.as_deref(), Some("ok"));
}

#[test]
fn error_creates_error_outcome() {
    let o = NodeOutcome::error("error");
    assert_eq!(o.status, OutcomeStatus::Error);
    assert!(o.notes.is_none());
    assert_eq!(o.failure_reason.as_deref(), Some("error"));
    assert!(o.context_updates.is_empty());
}

#[test]
fn error_accepts_string() {
    let o = NodeOutcome::error(String::from("boom").as_str());
    assert_eq!(o.failure_reason.as_deref(), Some("boom"));
}

#[test]
fn initial_sets_start_node_and_empty_completed() {
    let mut ctx = RunContext::new();
    ctx.insert("goal".to_string(), "build".to_string());
    let p = GraphPayload::initial(ctx, "start");
    assert_eq!(p.current_node_id, "start");
    assert!(p.completed_nodes.is_empty());
    assert!(p.outcome.is_none());
    assert_eq!(p.context.get("goal").map(String::as_str), Some("build"));
}

#[test]
fn from_resume_state_restores_context_and_completed() {
    let mut ctx = RunContext::new();
    ctx.insert("k".to_string(), "v".to_string());
    let st = ResumeState {
        context: ctx,
        current_node_id: "run".to_string(),
        completed_nodes: vec!["start".to_string(), "run".to_string()],
    };
    let p = GraphPayload::from_resume_state(&st);
    assert_eq!(p.context.get("k").map(String::as_str), Some("v"));
    assert_eq!(p.current_node_id, "run");
    assert_eq!(p.completed_nodes, &["start", "run"]);
    assert!(p.outcome.is_none());
}

#[test]
fn construct_checkpoint() {
    let mut ctx = RunContext::new();
    ctx.insert("key".to_string(), "val".to_string());
    let cp = Checkpoint {
        context: ctx.clone(),
        current_node_id: "node1".to_string(),
        completed_nodes: vec!["start".to_string(), "node1".to_string()],
    };
    assert_eq!(cp.context.get("key").map(String::as_str), Some("val"));
    assert_eq!(cp.current_node_id, "node1");
    assert_eq!(cp.completed_nodes.len(), 2);
}

#[test]
fn clone_checkpoint() {
    let mut ctx = RunContext::new();
    ctx.insert("x".to_string(), "y".to_string());
    let cp = Checkpoint {
        context: ctx,
        current_node_id: "here".to_string(),
        completed_nodes: vec!["a".to_string()],
    };
    let c = cp.clone();
    assert_eq!(c.current_node_id, cp.current_node_id);
    assert_eq!(c.completed_nodes, cp.completed_nodes);
}

#[test]
fn construct_resume_state() {
    let mut ctx = RunContext::new();
    ctx.insert("key".to_string(), "val".to_string());
    let st = ResumeState {
        context: ctx.clone(),
        current_node_id: "node1".to_string(),
        completed_nodes: vec!["start".to_string(), "node1".to_string()],
    };
    assert_eq!(st.context.get("key").map(String::as_str), Some("val"));
    assert_eq!(st.current_node_id, "node1");
    assert_eq!(st.completed_nodes.len(), 2);
}

#[test]
fn clone_resume_state() {
    let mut ctx = RunContext::new();
    ctx.insert("x".to_string(), "y".to_string());
    let st = ResumeState {
        context: ctx,
        current_node_id: "here".to_string(),
        completed_nodes: vec!["a".to_string()],
    };
    let c = st.clone();
    assert_eq!(c.current_node_id, st.current_node_id);
    assert_eq!(c.completed_nodes, st.completed_nodes);
}

//! Tests for the stepwise traversal loop.

use attractor::dot_parser::parse_dot;
use attractor::nodes::execution_loop::{
    apply_context_updates, run_execution_loop_once, AttractorExecutionLoopNode, RunLoopResult,
};
use attractor::types::attractor_graph::{AttractorGraph, NodeTable};
use attractor::types::attractor_node::AttractorNode;
use attractor::types::context::RunContext;
use attractor::types::execution_state::{ExecutionState, OutcomeMap};
use attractor::types::node_outcome::NodeOutcome;

#[test]
fn apply_context_updates_merges_outcome() {
    let mut ctx = RunContext::new();
    ctx.insert("a".to_string(), "1".to_string());
    let mut o = NodeOutcome::success("ok");
    o.context_updates.insert("b".to_string(), "2".to_string());
    o.preferred_label = Some("yes".to_string());
    apply_context_updates(&mut ctx, &o);
    assert_eq!(ctx.get("a").map(String::as_str), Some("1"));
    assert_eq!(ctx.get("b").map(String::as_str), Some("2"));
    assert!(ctx.contains_key("outcome"));
    assert_eq!(ctx.get("preferred_label").map(String::as_str), Some("yes"));
}

#[test]
fn execution_loop_test_node_trait_methods() {
    let mut node = AttractorExecutionLoopNode::new("exec");
    assert_eq!(node.name(), "exec");
    node.set_name("loop");
    assert_eq!(node.name(), "loop");
    assert!(node.has_output_port("error"));
}

#[test]
fn execution_loop_test_new_creates_node() {
    let n = AttractorExecutionLoopNode::new("execute");
    assert_eq!(n.name(), "execute");
    assert!(n.has_input_port("in"));
    assert!(n.has_output_port("out"));
    assert!(n.has_output_port("error"));
}

#[test]
fn run_execution_loop_once_returns_ok_for_simple_pipeline() {
    let dot = r#"digraph G { start [shape=Mdiamond] exit [shape=Msquare] start -> exit }"#;
    let graph = parse_dot(dot).unwrap();
    let mut context = RunContext::new();
    context.insert("goal".to_string(), graph.goal.clone());
    let mut state = ExecutionState {
        graph,
        context,
        current_node_id: "start".to_string(),
        completed_nodes: vec![],
        node_outcomes: OutcomeMap::new(),
        step_log: None,
    };
    match run_execution_loop_once(&mut state) {
        RunLoopResult::Done(r) => {
            assert_eq!(r.completed_nodes, vec!["start", "exit"]);
        },
        RunLoopResult::Failed(e) => panic!("expected success, got error: {}", e),
    }
}

#[test]
fn run_execution_loop_once_returns_err_when_node_not_found() {
    let mut nodes = NodeTable::new();
    nodes.insert(AttractorNode {
        id: "start".to_string(),
        shape: "Mdiamond".to_string(),
        handler_type: Some("start".to_string()),
        label: None,
        prompt: None,
        command: None,
        goal_gate: false,
        max_retries: 0,
    });
    let graph =
        AttractorGraph { goal: "test".to_string(), nodes, edges: vec![], default_max_retry: 50 };
    let mut context = RunContext::new();
    context.insert("goal".to_string(), "test".to_string());
    let mut state = ExecutionState {
        graph,
        context,
        current_node_id: "nonexistent".to_string(),
        completed_nodes: vec![],
        node_outcomes: OutcomeMap::new(),
        step_log: None,
    };
    match run_execution_loop_once(&mut state) {
        RunLoopResult::Failed(e) => assert!(e.contains("Node not found")),
        RunLoopResult::Done(_) => panic!("expected an error"),
    }
}

#[test]
fn run_execution_loop_once_records_steps_when_step_log_is_some() {
    let dot = r#"digraph G { start [shape=Mdiamond] exit [shape=Msquare] start -> exit }"#;
    let graph = parse_dot(dot).unwrap();
    let mut context = RunContext::new();
    context.insert("goal".to_string(), graph.goal.clone());
    let mut state = ExecutionState {
        graph,
        context,
        current_node_id: "start".to_string(),
        completed_nodes: vec![],
        node_outcomes: OutcomeMap::new(),
        step_log: Some(Vec::new()),
    };
    match run_execution_loop_once(&mut state) {
        RunLoopResult::Done(r) => {
            assert_eq!(r.completed_nodes, vec!["start", "exit"]);
        },
        RunLoopResult::Failed(e) => panic!("expected success, got error: {}", e),
    }
    let log = state.step_log.unwrap();
    assert_eq!(log.len(), 2, "expected two steps (start, exit)");
    assert_eq!(log[0].step, 1);
    assert_eq!(log[0].node_id, "start");
    assert_eq!(log[0].next_node_id.as_deref(), Some("exit"));
    assert_eq!(log[0].completed_nodes_after, vec!["start"]);
    assert_eq!(log[1].step, 2);
    assert_eq!(log[1].node_id, "exit");
    assert_eq!(log[1].next_node_id, None);
    assert_eq!(log[1].completed_nodes_after, vec!["start", "exit"]);
}

//! Tests for the execution state.

use attractor::types::attractor_graph::{AttractorGraph, NodeTable};
use attractor::types::attractor_node::AttractorNode;
use attractor::types::context::RunContext;
use attractor::types::execution_state::{ExecutionState, OutcomeMap};

fn node(id: &str, shape: &str) -> AttractorNode {
    AttractorNode {
        id: id.to_string(),
        shape: shape.to_string(),
        handler_type: None,
        label: None,
        prompt: None,
        command: None,
        goal_gate: false,
        max_retries: 0,
    }
}

fn graph_with_nodes(nodes: Vec<AttractorNode>) -> AttractorGraph {
    let mut table = NodeTable::new();
    for n in nodes {
        table.insert(n);
    }
    AttractorGraph { goal: "test".to_string(), nodes: table, edges: vec![], default_max_retry: 50 }
}

#[test]
fn is_done_when_at_exit() {
    let g = graph_with_nodes(vec![node("start", "Mdiamond"), node("exit", "Msquare")]);
    let state = ExecutionState {
        graph: g,
        context: RunContext::new(),
        current_node_id: "exit".to_string(),
        completed_nodes: vec![],
        node_outcomes: OutcomeMap::new(),
        step_log: None,
    };
    assert!(state.is_done());
}

#[test]
fn is_done_false_when_at_non_exit() {
    let g = graph_with_nodes(vec![
        node("start", "Mdiamond"),
        node("mid", "ellipse"),
        node("exit", "Msquare"),
    ]);
    let state = ExecutionState {
        graph: g,
        context: RunContext::new(),
        current_node_id: "mid".to_string(),
        completed_nodes: vec![],
        node_outcomes: OutcomeMap::new(),
        step_log: None,
    };
    assert!(!state.is_done());
}

#[test]
fn is_done_false_when_unknown_node() {
    let g = graph_with_nodes(vec![node("start", "Mdiamond"), node("exit", "Msquare")]);
    let state = ExecutionState {
        graph: g,
        context: RunContext::new(),
        current_node_id: "nonexistent".to_string(),
        completed_nodes: vec![],
        node_outcomes: OutcomeMap::new(),
        step_log: None,
    };
    assert!(!state.is_done());
}

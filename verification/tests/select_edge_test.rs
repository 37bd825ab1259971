//! Tests for edge selection.

use attractor::nodes::select_edge::{
    best_by_weight_then_lexical, evaluate_condition, normalize_label, select_edge,
    SelectEdgeInput, SelectEdgeNode,
};
use attractor::types::attractor_edge::AttractorEdge;
use attractor::types::attractor_graph::{AttractorGraph, NodeTable};
use attractor::types::attractor_node::AttractorNode;
use attractor::types::context::RunContext;
use attractor::types::node_outcome::NodeOutcome;

fn node(id: &str, shape: &str) -> AttractorNode {
    AttractorNode {
        id: id.to_string(),
        shape: shape.to_string(),
        handler_type: None,
        label: None,
        prompt: None,
        command: None,
        goal_gate: false,
        max_retries: 0,
    }
}

fn graph(nodes: Vec<AttractorNode>, edges: Vec<AttractorEdge>) -> AttractorGraph {
    let mut table = NodeTable::new();
    for n in nodes {
        table.insert(n);
    }
    AttractorGraph { goal: "test".to_string(), nodes: table, edges, default_max_retry: 50 }
}

#[test]
fn evaluate_condition_outcome_equals() {
    let mut ctx = RunContext::new();
    ctx.insert("outcome".to_string(), "Success".to_string());
    let o = NodeOutcome::success("x");
    assert!(evaluate_condition("outcome=Success", &o, &ctx));
    assert!(evaluate_condition("outcome=success", &o, &ctx));
}

#[test]
fn normalize_label_strips_prefixes() {
    let n = normalize_label("  [Yes]-x  ");
    assert!(n.contains("x"));
}

#[test]
fn best_by_weight_then_lexical_picks_highest_weight() {
    let edges = [
        AttractorEdge {
            from_node: "a".to_string(),
            to_node: "z".to_string(),
            label: None,
            condition: None,
            weight: 1,
        },
        AttractorEdge {
            from_node: "a".to_string(),
            to_node: "b".to_string(),
            label: None,
            condition: None,
            weight: 10,
        },
    ];
    let refs: Vec<_> = edges.iter().collect();
    let best = best_by_weight_then_lexical(refs);
    assert_eq!(best.weight, 10);
    assert_eq!(best.to_node, "b");
}

#[test]
fn select_edge_test_node_trait_methods() {
    let mut node = SelectEdgeNode::new("sel");
    assert_eq!(node.name(), "sel");
    node.set_name("edge");
    assert_eq!(node.name(), "edge");
    assert!(node.has_input_port("in"));
    assert!(node.has_output_port("out"));
}

#[test]
fn select_unconditional_edge() {
    let g = graph(
        vec![node("a", "ellipse"), node("b", "ellipse")],
        vec![AttractorEdge {
            from_node: "a".to_string(),
            to_node: "b".to_string(),
            label: None,
            condition: None,
            weight: 0,
        }],
    );
    let input = SelectEdgeInput {
        node_id: "a".to_string(),
        outcome: NodeOutcome::success("ok"),
        context: RunContext::new(),
        graph: g,
    };
    let out = select_edge(&input);
    assert_eq!(out.next_node_id.as_deref(), Some("b"));
    assert!(!out.done);
}

#[test]
fn done_when_no_edges_and_success() {
    let g = graph(vec![node("exit", "Msquare")], vec![]);
    let input = SelectEdgeInput {
        node_id: "exit".to_string(),
        outcome: NodeOutcome::success("done"),
        context: RunContext::new(),
        graph: g,
    };
    let out = select_edge(&input);
    assert!(out.next_node_id.is_none());
    assert!(out.done);
}

#[test]
fn done_false_when_no_edges_and_fail() {
    let g = graph(vec![node("x", "box")], vec![]);
    let mut ctx = RunContext::new();
    ctx.insert("outcome".to_string(), "FAIL".to_string());
    let input = SelectEdgeInput {
        node_id: "x".to_string(),
        outcome: NodeOutcome::fail("err"),
        context: ctx,
        graph: g,
    };
    let out = select_edge(&input);
    assert!(out.next_node_id.is_none());
    assert!(!out.done);
}

#[test]
fn select_by_condition_outcome_eq() {
    let mut ctx = RunContext::new();
    ctx.insert("outcome".to_string(), "Success".to_string());
    let g = graph(
        vec![node("a", "box"), node("b", "box"), node("c", "box")],
        vec![
            AttractorEdge {
                from_node: "a".to_string(),
                to_node: "b".to_string(),
                label: None,
                condition: Some("outcome=Success".to_string()),
                weight: 5,
            },
            AttractorEdge {
                from_node: "a".to_string(),
                to_node: "c".to_string(),
                label: None,
                condition: Some("outcome=Fail".to_string()),
                weight: 10,
            },
        ],
    );
    let input = SelectEdgeInput {
        node_id: "a".to_string(),
        outcome: NodeOutcome::success("ok"),
        context: ctx,
        graph: g,
    };
    let out = select_edge(&input);
    assert_eq!(out.next_node_id.as_deref(), Some("b"));
}

#[test]
fn select_by_condition_outcome_neq() {
    let mut ctx = RunContext::new();
    ctx.insert("outcome".to_string(), "Fail".to_string());
    let g = graph(
        vec![node("a", "box"), node("b", "box")],
        vec![AttractorEdge {
            from_node: "a".to_string(),
            to_node: "b".to_string(),
            label: None,
            condition: Some("outcome!=Success".to_string()),
            weight: 0,
        }],
    );
    let input = SelectEdgeInput {
        node_id: "a".to_string(),
        outcome: NodeOutcome::fail("x"),
        context: ctx,
        graph: g,
    };
    let out = select_edge(&input);
    assert_eq!(out.next_node_id.as_deref(), Some("b"));
}

#[test]
fn select_by_preferred_label() {
    let g = graph(
        vec![node("a", "box"), node("b", "box"), node("c", "box")],
        vec![
            AttractorEdge {
                from_node: "a".to_string(),
                to_node: "b".to_string(),
                label: Some("Next".to_string()),
                condition: None,
                weight: 0,
            },
            AttractorEdge {
                from_node: "a".to_string(),
                to_node: "c".to_string(),
                label: Some("Other".to_string()),
                condition: None,
                weight: 0,
            },
        ],
    );
    let mut outcome = NodeOutcome::success("ok");
    outcome.preferred_label = Some("Next".to_string());
    let input = SelectEdgeInput {
        node_id: "a".to_string(),
        outcome,
        context: RunContext::new(),
        graph: g,
    };
    let out = select_edge(&input);
    assert_eq!(out.next_node_id.as_deref(), Some("b"));
}

#[test]
fn select_by_suggested_next_ids() {
    let g = graph(
        vec![node("a", "box"), node("b", "box"), node("c", "box")],
        vec![
            AttractorEdge {
                from_node: "a".to_string(),
                to_node: "b".to_string(),
                label: None,
                condition: None,
                weight: 0,
            },
            AttractorEdge {
                from_node: "a".to_string(),
                to_node: "c".to_string(),
                label: None,
                condition: None,
                weight: 0,
            },
        ],
    );
    let mut outcome = NodeOutcome::success("ok");
    outcome.suggested_next_ids = vec!["c".to_string()];
    let input = SelectEdgeInput {
        node_id: "a".to_string(),
        outcome,
        context: RunContext::new(),
        graph: g,
    };
    let out = select_edge(&input);
    assert_eq!(out.next_node_id.as_deref(), Some("c"));
}

#[test]
fn select_best_by_weight_then_lexical() {
    let g = graph(
        vec![node("a", "box"), node("b", "box"), node("c", "box")],
        vec![
            AttractorEdge {
                from_node: "a".to_string(),
                to_node: "b".to_string(),
                label: None,
                condition: None,
                weight: 5,
            },
            AttractorEdge {
                from_node: "a".to_string(),
                to_node: "c".to_string(),
                label: None,
                condition: None,
                weight: 10,
            },
        ],
    );
    let input = SelectEdgeInput {
        node_id: "a".to_string(),
        outcome: NodeOutcome::success("ok"),
        context: RunContext::new(),
        graph: g,
    };
    let out = select_edge(&input);
    assert_eq!(out.next_node_id.as_deref(), Some("c"));
}

#[test]
fn select_fallback_among_unmatched_conditions() {
    let mut ctx = RunContext::new();
    ctx.insert("outcome".to_string(), "Success".to_string());
    let g = graph(
        vec![node("a", "box"), node("b", "box"), node("c", "box")],
        vec![
            AttractorEdge {
                from_node: "a".to_string(),
                to_node: "b".to_string(),
                label: None,
                condition: Some("outcome=fail".to_string()),
                weight: 1,
            },
            AttractorEdge {
                from_node: "a".to_string(),
                to_node: "c".to_string(),
                label: None,
                condition: Some("outcome=retry".to_string()),
                weight: 5,
            },
        ],
    );
    let input = SelectEdgeInput {
        node_id: "a".to_string(),
        outcome: NodeOutcome::success("ok"),
        context: ctx,
        graph: g,
    };
    let out = select_edge(&input);
    assert_eq!(out.next_node_id.as_deref(), Some("c"));
    assert!(!out.done);
}

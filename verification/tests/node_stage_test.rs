//! Tests for the pipeline stages: context application, goal gates,
//! checkpoints, handler execution, parsing stage, validation and the
//! start finder, together with their node shells.

use attractor::dot_parser::parse_dot;
use attractor::nodes::apply_context_updates::{
    apply_updates, process_apply_context_updates_item, ApplyContextUpdatesInput,
    ApplyContextUpdatesNode,
};
use attractor::nodes::check_goal_gates::{
    check_goal_gates, goal_gate_passed, CheckGoalGatesInput, CheckGoalGatesNode,
};
use attractor::nodes::create_checkpoint::{
    create_checkpoint_from_input, process_create_checkpoint_item, CreateCheckpointInput,
    CreateCheckpointNode,
};
use attractor::nodes::execute_handler::{
    build_codergen_outcome, execute_handler, ExecuteHandlerInput, ExecuteHandlerNode,
};
use attractor::nodes::fix_node::FixNode;
use attractor::nodes::init_context::{
    create_initial_state, process_init_context_item, InitContextNode,
};
use attractor::nodes::message::NodeMessage;
use attractor::nodes::parse_dot::{
    process_dot, process_parse_dot_item, ParseDotItemResult, ParseDotNode,
};
use attractor::nodes::validate_graph::{validate, ValidateGraphNode};
use attractor::types::attractor_graph::{AttractorGraph, NodeTable};
use attractor::types::attractor_node::AttractorNode;
use attractor::types::context::RunContext;
use attractor::types::execution_state::OutcomeMap;
use attractor::types::node_outcome::NodeOutcome;
use attractor::types::outcome_status::OutcomeStatus;

fn node(id: &str, shape: &str) -> AttractorNode {
    AttractorNode {
        id: id.to_string(),
        shape: shape.to_string(),
        handler_type: None,
        label: None,
        prompt: None,
        command: None,
        goal_gate: false,
        max_retries: 0,
    }
}

fn typed_node(id: &str, handler: Option<&str>) -> AttractorNode {
    AttractorNode {
        id: id.to_string(),
        shape: "box".to_string(),
        handler_type: handler.map(|h| h.to_string()),
        label: None,
        prompt: None,
        command: None,
        goal_gate: false,
        max_retries: 0,
    }
}

fn gate_node(id: &str, goal_gate: bool) -> AttractorNode {
    AttractorNode {
        id: id.to_string(),
        shape: "ellipse".to_string(),
        handler_type: None,
        label: None,
        prompt: None,
        command: None,
        goal_gate,
        max_retries: 0,
    }
}

fn graph(nodes: Vec<AttractorNode>) -> AttractorGraph {
    let mut table = NodeTable::new();
    for n in nodes {
        table.insert(n);
    }
    AttractorGraph { goal: "test".to_string(), nodes: table, edges: vec![], default_max_retry: 50 }
}

fn empty_graph() -> AttractorGraph {
    graph(vec![])
}

// ---- apply_context_updates ----

#[test]
fn apply_context_updates_test_node_trait_methods() {
    let mut node = ApplyContextUpdatesNode::new("apply");
    assert_eq!(node.name(), "apply");
    node.set_name("updated");
    assert_eq!(node.name(), "updated");
    assert_eq!(node.input_port_names(), &["in"]);
    assert_eq!(node.output_port_names(), &["out"]);
    assert!(node.has_input_port("in"));
    assert!(!node.has_input_port("x"));
    assert!(node.has_output_port("out"));
    assert!(!node.has_output_port("err"));
}

#[test]
fn apply_updates_merges_context() {
    let mut ctx = RunContext::new();
    ctx.insert("a".to_string(), "1".to_string());
    let mut outcome = NodeOutcome::success("ok");
    outcome.context_updates.insert("b".to_string(), "2".to_string());
    let input = ApplyContextUpdatesInput { context: ctx, outcome };
    let result = apply_updates(&input);
    assert_eq!(result.get("a").map(String::as_str), Some("1"));
    assert_eq!(result.get("b").map(String::as_str), Some("2"));
    assert!(result.contains_key("outcome"));
}

#[test]
fn apply_updates_preferred_label() {
    let mut outcome = NodeOutcome::success("ok");
    outcome.preferred_label = Some("yes".to_string());
    let input = ApplyContextUpdatesInput { context: RunContext::new(), outcome };
    let result = apply_updates(&input);
    assert_eq!(result.get("preferred_label").map(String::as_str), Some("yes"));
}

#[test]
fn process_apply_context_updates_item_returns_some_for_valid_input() {
    let input = ApplyContextUpdatesInput {
        context: RunContext::new(),
        outcome: NodeOutcome::success("ok"),
    };
    let item = NodeMessage::UpdateInput(input);
    let ctx = process_apply_context_updates_item(item);
    assert!(ctx.is_some());
    assert!(ctx.unwrap().contains_key("outcome"));
}

#[test]
fn process_apply_context_updates_item_returns_none_for_wrong_type() {
    let item = NodeMessage::Text("wrong".to_string());
    assert!(process_apply_context_updates_item(item).is_none());
}

// ---- check_goal_gates ----

#[test]
fn check_goal_gates_test_node_trait_methods() {
    let mut node = CheckGoalGatesNode::new("check");
    assert_eq!(node.name(), "check");
    node.set_name("gates");
    assert_eq!(node.name(), "gates");
    assert!(node.has_input_port("in"));
    assert!(node.has_output_port("out"));
}

#[test]
fn goal_gate_passed_for_success_and_partial_success() {
    assert!(goal_gate_passed(&NodeOutcome::success("ok")));
    let mut o = NodeOutcome::success("x");
    o.status = OutcomeStatus::PartialSuccess;
    assert!(goal_gate_passed(&o));
}

#[test]
fn goal_gate_passed_false_for_fail() {
    assert!(!goal_gate_passed(&NodeOutcome::fail("err")));
}

#[test]
fn gate_ok_when_not_at_exit() {
    let g = graph(vec![gate_node("a", true)]);
    let mut outcomes = OutcomeMap::new();
    outcomes.insert("a".to_string(), NodeOutcome::fail("err"));
    let input = CheckGoalGatesInput { graph: g, node_outcomes: outcomes, at_exit: false };
    let out = check_goal_gates(&input);
    assert!(out.gate_ok);
}

#[test]
fn gate_ok_when_goal_gate_success() {
    let g = graph(vec![gate_node("gate", true)]);
    let mut outcomes = OutcomeMap::new();
    outcomes.insert("gate".to_string(), NodeOutcome::success("ok"));
    let input = CheckGoalGatesInput { graph: g, node_outcomes: outcomes, at_exit: true };
    let out = check_goal_gates(&input);
    assert!(out.gate_ok);
}

#[test]
fn gate_not_ok_when_goal_gate_fail() {
    let g = graph(vec![gate_node("gate", true)]);
    let mut outcomes = OutcomeMap::new();
    outcomes.insert("gate".to_string(), NodeOutcome::fail("err"));
    let input = CheckGoalGatesInput { graph: g, node_outcomes: outcomes, at_exit: true };
    let out = check_goal_gates(&input);
    assert!(!out.gate_ok);
    assert_eq!(out.retry_target.as_deref(), Some("gate"));
}

// ---- create_checkpoint ----

#[test]
fn create_checkpoint_test_node_trait_methods() {
    let mut node = CreateCheckpointNode::new("cp");
    assert_eq!(node.name(), "cp");
    node.set_name("checkpoint");
    assert_eq!(node.name(), "checkpoint");
    assert!(node.has_input_port("in"));
    assert!(node.has_output_port("out"));
}

#[test]
fn create_checkpoint_test_new_creates_node() {
    let n = CreateCheckpointNode::new("checkpoint");
    assert_eq!(n.name(), "checkpoint");
    assert!(n.has_input_port("in"));
    assert!(n.has_output_port("out"));
}

#[test]
fn create_checkpoint_from_input_builds_checkpoint() {
    let mut ctx = RunContext::new();
    ctx.insert("k".to_string(), "v".to_string());
    let input = CreateCheckpointInput {
        context: ctx,
        current_node_id: "node".to_string(),
        completed_nodes: vec!["a".to_string(), "b".to_string()],
    };
    let cp = create_checkpoint_from_input(&input);
    assert_eq!(cp.current_node_id, "node");
    assert_eq!(cp.completed_nodes, vec!["a", "b"]);
    assert_eq!(cp.context.get("k"), Some(&"v".to_string()));
}

#[test]
fn process_create_checkpoint_item_returns_some_for_valid_input() {
    let input = CreateCheckpointInput {
        context: RunContext::new(),
        current_node_id: "n".to_string(),
        completed_nodes: vec![],
    };
    let item = NodeMessage::CheckpointInput(input);
    let cp = process_create_checkpoint_item(item);
    assert!(cp.is_some());
    assert_eq!(cp.unwrap().current_node_id, "n");
}

#[test]
fn process_create_checkpoint_item_returns_none_for_wrong_type() {
    let item = NodeMessage::Text("wrong".to_string());
    let cp = process_create_checkpoint_item(item);
    assert!(cp.is_none());
}

// ---- execute_handler ----

#[test]
fn execute_handler_test_node_trait_methods() {
    let mut node = ExecuteHandlerNode::new("exec");
    assert_eq!(node.name(), "exec");
    node.set_name("handler");
    assert_eq!(node.name(), "handler");
    assert!(node.has_input_port("in"));
    assert!(node.has_output_port("out"));
    assert!(node.has_output_port("error"));
}

#[test]
fn build_codergen_outcome_includes_last_stage() {
    let n = typed_node("run", Some("codergen"));
    let o = build_codergen_outcome(&n);
    assert_eq!(o.status, OutcomeStatus::Success);
    assert_eq!(o.context_updates.get("last_stage").map(String::as_str), Some("run"));
}

#[test]
fn start_handler() {
    let input = ExecuteHandlerInput {
        node: typed_node("start", Some("start")),
        context: RunContext::new(),
        graph: empty_graph(),
    };
    let out = execute_handler(&input).unwrap();
    assert_eq!(out.status, OutcomeStatus::Success);
    assert_eq!(out.notes.as_deref(), Some("Start"));
}

#[test]
fn exit_handler() {
    let input = ExecuteHandlerInput {
        node: typed_node("exit", Some("exit")),
        context: RunContext::new(),
        graph: empty_graph(),
    };
    let out = execute_handler(&input).unwrap();
    assert_eq!(out.status, OutcomeStatus::Success);
    assert_eq!(out.notes.as_deref(), Some("Exit"));
}

#[test]
fn codergen_handler() {
    let input = ExecuteHandlerInput {
        node: typed_node("run", Some("codergen")),
        context: RunContext::new(),
        graph: empty_graph(),
    };
    let out = execute_handler(&input).unwrap();
    assert_eq!(out.status, OutcomeStatus::Success);
    assert_eq!(out.context_updates.get("last_stage").map(String::as_str), Some("run"));
}

#[test]
fn unknown_handler_stub() {
    let input = ExecuteHandlerInput {
        node: typed_node("x", Some("custom.handler")),
        context: RunContext::new(),
        graph: empty_graph(),
    };
    let out = execute_handler(&input).unwrap();
    assert_eq!(out.status, OutcomeStatus::Success);
    assert!(out.notes.as_deref().unwrap().contains("custom.handler"));
}

// ---- fix node shell ----

#[test]
fn fix_node_test_node_trait_methods() {
    let mut node = FixNode::new("fix");
    assert_eq!(node.name(), "fix");
    node.set_name("fix_retry");
    assert_eq!(node.name(), "fix_retry");
    assert!(node.has_input_port("in"));
    assert!(node.has_output_port("out"));
}

// ---- init_context ----

#[test]
fn init_context_test_node_trait_methods() {
    let mut node = InitContextNode::new("init");
    assert_eq!(node.name(), "init");
    node.set_name("context");
    assert_eq!(node.name(), "context");
    assert!(node.has_input_port("in"));
    assert!(node.has_output_port("out"));
}

#[test]
fn init_context_test_new_creates_node() {
    let n = InitContextNode::new("init");
    assert_eq!(n.name(), "init");
    assert!(n.has_input_port("in"));
    assert!(n.has_output_port("out"));
}

#[test]
fn create_initial_state_populates_context_and_start() {
    let dot = r#"digraph G { start [shape=Mdiamond] exit [shape=Msquare] start -> exit }"#;
    let graph = parse_dot(dot).unwrap();
    let state = create_initial_state(graph);
    assert_eq!(state.current_node_id, "start");
    assert!(state.context.contains_key("goal"));
    assert!(state.context.contains_key("graph.goal"));
    assert!(state.completed_nodes.is_empty());
}

#[test]
fn process_init_context_item_returns_some_for_graph() {
    let dot = r#"digraph G { start [shape=Mdiamond] exit [shape=Msquare] start -> exit }"#;
    let graph = parse_dot(dot).unwrap();
    let item = NodeMessage::Graph(graph);
    let state = process_init_context_item(item);
    assert!(state.is_some());
    assert_eq!(state.unwrap().current_node_id, "start");
}

#[test]
fn process_init_context_item_returns_none_for_wrong_type() {
    let item = NodeMessage::Text("not a graph".to_string());
    let state = process_init_context_item(item);
    assert!(state.is_none());
}

// ---- parse_dot stage ----

#[test]
fn parse_dot_test_node_trait_methods() {
    let mut node = ParseDotNode::new("parse");
    assert_eq!(node.name(), "parse");
    node.set_name("dot");
    assert_eq!(node.name(), "dot");
    assert!(node.has_input_port("in"));
    assert!(node.has_output_port("out"));
    assert!(node.has_output_port("error"));
}

#[test]
fn parse_dot_test_new_creates_node() {
    let n = ParseDotNode::new("parse");
    assert_eq!(n.name(), "parse");
    assert!(n.has_input_port("in"));
    assert!(n.has_output_port("out"));
    assert!(n.has_output_port("error"));
}

#[test]
fn process_dot_parses_valid_dot() {
    let dot = r#"digraph G { start [shape=Mdiamond] exit [shape=Msquare] start -> exit }"#;
    let graph = process_dot(dot).unwrap();
    assert!(graph.nodes.contains_key("start"));
}

#[test]
fn process_dot_returns_err_on_invalid() {
    let result = process_dot("graph foo {}");
    assert!(result.is_err());
}

#[test]
fn process_parse_dot_item_graph_for_valid_dot() {
    let dot = r#"digraph G { start [shape=Mdiamond] exit [shape=Msquare] start -> exit }"#;
    let item = NodeMessage::Text(dot.to_string());
    match process_parse_dot_item(item) {
        ParseDotItemResult::Graph(g) => assert!(g.nodes.contains_key("start")),
        _ => panic!("expected Graph"),
    }
}

#[test]
fn process_parse_dot_item_parse_error_for_invalid_dot() {
    let item = NodeMessage::Text("graph foo {}".to_string());
    match process_parse_dot_item(item) {
        ParseDotItemResult::ParseError(e) => assert!(e.contains("digraph")),
        _ => panic!("expected ParseError"),
    }
}

#[test]
fn process_parse_dot_item_wrong_type_for_non_string() {
    let dot = r#"digraph G { start [shape=Mdiamond] exit [shape=Msquare] start -> exit }"#;
    let g = parse_dot(dot).unwrap();
    let item = NodeMessage::Graph(g);
    match process_parse_dot_item(item) {
        ParseDotItemResult::WrongType => {},
        _ => panic!("expected WrongType"),
    }
}

// ---- validate ----

#[test]
fn validate_graph_test_node_trait_methods() {
    let mut node = ValidateGraphNode::new("validate");
    assert_eq!(node.name(), "validate");
    node.set_name("check");
    assert_eq!(node.name(), "check");
    assert!(node.has_input_port("in"));
    assert!(node.has_output_port("out"));
    assert!(node.has_output_port("error"));
}

#[test]
fn validate_ok_with_start_and_exit() {
    let g = graph(vec![node("start", "Mdiamond"), node("exit", "Msquare")]);
    assert!(validate(&g).is_ok());
}

#[test]
fn validate_err_no_start() {
    let g = graph(vec![node("exit", "Msquare")]);
    let r = validate(&g);
    assert!(r.is_err());
    assert!(r.unwrap_err().contains("start"));
}

#[test]
fn validate_err_no_exit() {
    let g = graph(vec![node("start", "Mdiamond")]);
    let r = validate(&g);
    assert!(r.is_err());
    assert!(r.unwrap_err().contains("exit"));
}

#[test]
fn validate_err_exec_without_command() {
    let mut exec_node = typed_node("run", Some("exec"));
    exec_node.command = None;
    let g = graph(vec![node("start", "Mdiamond"), exec_node, node("exit", "Msquare")]);
    let r = validate(&g);
    assert!(r.is_err());
    let e = r.unwrap_err();
    assert!(e.contains("exec"));
    assert!(e.contains("command"));
}

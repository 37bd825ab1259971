//! Property checks: parser round trips over every recognized node
//! attribute, label normalization, resume recovery, selection
//! determinism, number parsing and the agent decision rules.

use attractor::dot_parser::{parse_dot, parse_node_attrs};
use attractor::nodes::codergen_node::{
    agent_outcome, interpret_outcome_field, missing_agent_outcome, stage_path, AgentFileOutcome,
};
use attractor::nodes::exec_node::outcome_from_exec_exit;
use attractor::nodes::select_edge::{normalize_label, select_edge, SelectEdgeInput};
use attractor::numbers::{parse_i32, parse_u32};
use attractor::runner::{
    already_completed_result, build_initial_payload, resume_short_circuits, resume_state_from_log,
};
use attractor::types::attractor_edge::AttractorEdge;
use attractor::types::attractor_graph::{AttractorGraph, NodeTable};
use attractor::types::attractor_node::AttractorNode;
use attractor::types::context::RunContext;
use attractor::types::execution_log::{ExecutionLog, ExecutionStepEntry};
use attractor::types::node_outcome::NodeOutcome;
use attractor::types::outcome_status::OutcomeStatus;
use attractor::types::resume_state::ResumeState;

/// Every node attribute recognized by the parser survives a parse,
/// re-emission as an attribute list, and a re-parse unchanged.
#[test]
fn parser_round_trip_all_node_attributes() {
    let dot = r#"digraph G {
        start [shape=Mdiamond]
        work [shape=hexagon, type=exec, label="Do work", prompt="think", command="make all", goal_gate=TRUE, max_retries=7]
        exit [shape=Msquare]
        start -> work -> exit
    }"#;
    let g = parse_dot(dot).unwrap();
    let n = g.nodes.get("work").unwrap();
    assert_eq!(n.shape, "hexagon");
    assert_eq!(n.handler_type.as_deref(), Some("exec"));
    assert_eq!(n.label.as_deref(), Some("Do work"));
    assert_eq!(n.prompt.as_deref(), Some("think"));
    assert_eq!(n.command.as_deref(), Some("make all"));
    assert!(n.goal_gate);
    assert_eq!(n.max_retries, 7);
    // Re-emit the recognized attributes and parse them again.
    let attrs: Vec<(String, String)> = vec![
        ("shape".to_string(), n.shape.clone()),
        ("type".to_string(), n.handler_type.clone().unwrap()),
        ("label".to_string(), n.label.clone().unwrap()),
        ("prompt".to_string(), n.prompt.clone().unwrap()),
        ("command".to_string(), n.command.clone().unwrap()),
        ("goal_gate".to_string(), "true".to_string()),
        ("max_retries".to_string(), n.max_retries.to_string()),
    ];
    let reparsed = parse_node_attrs("work", &attrs).unwrap();
    assert_eq!(reparsed.id, n.id);
    assert_eq!(reparsed.shape, n.shape);
    assert_eq!(reparsed.handler_type, n.handler_type);
    assert_eq!(reparsed.label, n.label);
    assert_eq!(reparsed.prompt, n.prompt);
    assert_eq!(reparsed.command, n.command);
    assert_eq!(reparsed.goal_gate, n.goal_gate);
    assert_eq!(reparsed.max_retries, n.max_retries);
}

/// Graph attributes round-trip as well: goal and retry bound.
#[test]
fn parser_round_trip_graph_attributes() {
    let dot = r#"digraph G {
        graph [goal="polish the release", default_max_retry=12]
        start [shape=Mdiamond]
        exit [shape=Msquare]
        start -> exit [label="done", condition="outcome=success", weight=3]
    }"#;
    let g = parse_dot(dot).unwrap();
    assert_eq!(g.goal, "polish the release");
    assert_eq!(g.default_max_retry, 12);
    let e = &g.edges[0];
    assert_eq!(e.label.as_deref(), Some("done"));
    assert_eq!(e.condition.as_deref(), Some("outcome=success"));
    assert_eq!(e.weight, 3);
}

/// Normalizing a decorated label keeps its distinguishing text and
/// leaves no bracket or space at the trimmed end.
#[test]
fn normalize_keeps_core_and_drops_decoration() {
    let n = normalize_label("  [Yes]-x  ");
    assert!(n.contains('x'));
    assert!(!n.ends_with(' '));
    assert!(!n.ends_with('['));
    assert!(!n.ends_with(']'));
    let stripped = normalize_label("Next");
    assert_eq!(stripped, "");
    assert_eq!(normalize_label("[ok) - go2"), "go2");
}

/// Selection is deterministic: the same input selects the same next
/// node on every invocation.
#[test]
fn select_edge_deterministic_across_invocations() {
    let mut table = NodeTable::new();
    for id in ["a", "b", "c"] {
        table.insert(AttractorNode {
            id: id.to_string(),
            shape: "box".to_string(),
            handler_type: None,
            label: None,
            prompt: None,
            command: None,
            goal_gate: false,
            max_retries: 0,
        });
    }
    let edges = vec![
        AttractorEdge {
            from_node: "a".to_string(),
            to_node: "b".to_string(),
            label: None,
            condition: None,
            weight: 1,
        },
        AttractorEdge {
            from_node: "a".to_string(),
            to_node: "c".to_string(),
            label: None,
            condition: None,
            weight: 1,
        },
    ];
    let graph =
        AttractorGraph { goal: String::new(), nodes: table, edges, default_max_retry: 50 };
    let mut first: Option<Option<String>> = None;
    for _ in 0..3 {
        let input = SelectEdgeInput {
            node_id: "a".to_string(),
            outcome: NodeOutcome::success("ok"),
            context: RunContext::new(),
            graph: graph.clone(),
        };
        let out = select_edge(&input);
        match &first {
            None => first = Some(out.next_node_id),
            Some(prev) => assert_eq!(prev, &out.next_node_id),
        }
    }
    assert_eq!(first.unwrap().as_deref(), Some("b"));
}

fn step_entry(next: Option<&str>, completed: Vec<&str>) -> ExecutionStepEntry {
    let mut after = RunContext::new();
    after.insert("outcome".to_string(), "Success".to_string());
    ExecutionStepEntry::new(
        1,
        "start",
        Some("start".to_string()),
        RunContext::new(),
        NodeOutcome::success("ok"),
        after,
        next.map(|s| s.to_string()),
        completed.into_iter().map(|s| s.to_string()).collect(),
    )
}

/// A finished log resumes at the exit node and is already complete.
#[test]
fn resume_from_finished_log_is_already_completed() {
    let log = ExecutionLog {
        version: 1,
        goal: "g".to_string(),
        started_at: "2026-02-14T10:00:00Z".to_string(),
        finished_at: Some("2026-02-14T10:01:00Z".to_string()),
        final_status: "success".to_string(),
        completed_nodes: vec!["start".to_string(), "exit".to_string()],
        steps: vec![step_entry(Some("exit"), vec!["start"])],
    };
    let r = resume_state_from_log(&log, Some("exit")).unwrap();
    assert!(r.already_completed);
    assert_eq!(r.checkpoint.current_node_id, "exit");
    assert_eq!(r.checkpoint.completed_nodes, vec!["start", "exit"]);
    // The short-circuit fires and yields a success result untouched.
    let st = ResumeState {
        context: r.checkpoint.context.duplicate(),
        current_node_id: r.checkpoint.current_node_id.clone(),
        completed_nodes: r.checkpoint.completed_nodes.clone(),
    };
    assert!(resume_short_circuits(&Some(st.clone()), "exit", true, false));
    let result = already_completed_result(&st);
    assert!(result.already_completed);
    assert_eq!(result.last_outcome.status, OutcomeStatus::Success);
    assert_eq!(result.completed_nodes, vec!["start", "exit"]);
}

/// An unfinished log resumes at the recorded next node.
#[test]
fn resume_from_unfinished_log_continues() {
    let log = ExecutionLog {
        version: 1,
        goal: "g".to_string(),
        started_at: "2026-02-14T10:00:00Z".to_string(),
        finished_at: None,
        final_status: "in_progress".to_string(),
        completed_nodes: vec!["start".to_string()],
        steps: vec![step_entry(Some("work"), vec!["start"])],
    };
    let r = resume_state_from_log(&log, Some("exit")).unwrap();
    assert!(!r.already_completed);
    assert_eq!(r.checkpoint.current_node_id, "work");
    assert_eq!(r.checkpoint.completed_nodes, vec!["start"]);
    assert_eq!(
        r.checkpoint.context.get("outcome").map(String::as_str),
        Some("Success")
    );
}

/// An unfinished log without steps yields no resume state.
#[test]
fn resume_from_empty_log_yields_nothing() {
    let log = ExecutionLog {
        version: 1,
        goal: "g".to_string(),
        started_at: "2026-02-14T10:00:00Z".to_string(),
        finished_at: None,
        final_status: "in_progress".to_string(),
        completed_nodes: vec![],
        steps: vec![],
    };
    assert!(resume_state_from_log(&log, Some("exit")).is_none());
}

/// The initial payload of a fresh run seeds the goal and starts at the
/// start node; a graph without one is rejected by name.
#[test]
fn initial_payload_seeds_goal_or_rejects() {
    let dot = r#"digraph G { graph [goal="g"] start [shape=Mdiamond] exit [shape=Msquare] start -> exit }"#;
    let g = parse_dot(dot).unwrap();
    let p = build_initial_payload(&g, &None).unwrap();
    assert_eq!(p.current_node_id, "start");
    assert_eq!(p.context.get("goal").map(String::as_str), Some("g"));
    assert_eq!(p.context.get("graph.goal").map(String::as_str), Some("g"));
    let dot2 = r#"digraph G { exit [shape=Msquare] }"#;
    let g2 = parse_dot(dot2).unwrap();
    let e = build_initial_payload(&g2, &None).unwrap_err();
    assert!(e.contains("start"));
}

/// Decimal parsing accepts the standard grammar and rejects the rest.
#[test]
fn number_parsing_matches_standard_grammar() {
    assert_eq!(parse_i32("42"), Some(42));
    assert_eq!(parse_i32("-1"), Some(-1));
    assert_eq!(parse_i32("+7"), Some(7));
    assert_eq!(parse_i32("2147483647"), Some(2147483647));
    assert_eq!(parse_i32("-2147483648"), Some(-2147483648));
    assert_eq!(parse_i32("2147483648"), None);
    assert_eq!(parse_i32("-2147483649"), None);
    assert_eq!(parse_i32(""), None);
    assert_eq!(parse_i32("-"), None);
    assert_eq!(parse_i32("12x"), None);
    assert_eq!(parse_u32("4294967295"), Some(4294967295));
    assert_eq!(parse_u32("4294967296"), None);
    assert_eq!(parse_u32("-1"), None);
}

/// Exit statuses become outcomes: zero succeeds with `ok`, a code
/// fails with `exit N`, a signal death fails with `signal`.
#[test]
fn exec_exit_status_to_outcome() {
    let ok = outcome_from_exec_exit(true, Some(0));
    assert_eq!(ok.status, OutcomeStatus::Success);
    assert_eq!(ok.notes.as_deref(), Some("ok"));
    let bad = outcome_from_exec_exit(false, Some(3));
    assert_eq!(bad.status, OutcomeStatus::Error);
    assert_eq!(bad.failure_reason.as_deref(), Some("exit 3"));
    let sig = outcome_from_exec_exit(false, None);
    assert_eq!(sig.failure_reason.as_deref(), Some("signal"));
}

/// The agent decision rules: a missing command errors at once; a
/// reported failure in the outcome file overrides a clean exit; the
/// file's updates are absorbed either way.
#[test]
fn agent_outcome_rules() {
    let missing = missing_agent_outcome();
    assert_eq!(missing.status, OutcomeStatus::Error);
    assert!(missing.failure_reason.as_deref().unwrap().contains("agent-cmd"));

    assert!(interpret_outcome_field("success"));
    assert!(!interpret_outcome_field("  FAIL  "));
    assert!(!interpret_outcome_field("Error"));

    let mut updates = RunContext::new();
    updates.insert("k".to_string(), "v".to_string());
    let forced = agent_outcome(
        true,
        Some(0),
        Some(AgentFileOutcome { outcome_success: Some(false), updates }),
    );
    assert_eq!(forced.status, OutcomeStatus::Error);
    assert_eq!(forced.context_updates.get("k").map(String::as_str), Some("v"));

    let mut updates2 = RunContext::new();
    updates2.insert("a".to_string(), "1".to_string());
    let clean = agent_outcome(
        true,
        Some(0),
        Some(AgentFileOutcome { outcome_success: Some(true), updates: updates2 }),
    );
    assert_eq!(clean.status, OutcomeStatus::Success);
    assert_eq!(clean.notes.as_deref(), Some("agent completed"));
    assert_eq!(clean.context_updates.get("a").map(String::as_str), Some("1"));

    let died = agent_outcome(false, Some(9), None);
    assert_eq!(died.failure_reason.as_deref(), Some("agent exit 9"));
    assert_eq!(stage_path(None), ".attractor");
    assert_eq!(stage_path(Some("/tmp/stage")), "/tmp/stage");
}

/// Parse errors name the first failure.
#[test]
fn parse_error_variants() {
    assert_eq!(parse_dot("graph foo { }").unwrap_err(), "Expected 'digraph' at start");
    assert_eq!(parse_dot("digraph ; {").unwrap_err(), "Expected graph name");
    assert_eq!(parse_dot("digraph G exit").unwrap_err(), "Expected '{' after graph name");
    let unterminated = parse_dot(r#"digraph G { a [label="oops }"#).unwrap_err();
    assert!(unterminated.contains("quoted") || unterminated.contains("Expected"));
    let noattr = parse_dot(r#"digraph G { a [x }"#).unwrap_err();
    assert!(noattr.contains("Expected"));
}

/// An empty graph body parses to a graph without nodes or edges.
#[test]
fn parse_empty_digraph() {
    let g = parse_dot("digraph G { }").unwrap();
    assert_eq!(g.nodes.len(), 0);
    assert!(g.edges.is_empty());
}

/// Re-declaring a node id replaces the earlier declaration in place.
#[test]
fn parse_redeclared_node_replaces() {
    let dot = r#"digraph G { start [shape=Mdiamond] a [label="one"] a [label="two"] exit [shape=Msquare] start -> a -> exit }"#;
    let g = parse_dot(dot).unwrap();
    assert_eq!(g.nodes.len(), 3);
    assert_eq!(g.nodes.get("a").unwrap().label.as_deref(), Some("two"));
}

/// Inserting a present key overwrites its value; the map keeps one
/// entry per key.
#[test]
fn context_insert_overwrites() {
    let mut ctx = RunContext::new();
    ctx.insert("k".to_string(), "one".to_string());
    ctx.insert("k".to_string(), "two".to_string());
    assert_eq!(ctx.len(), 1);
    assert_eq!(ctx.get("k").map(String::as_str), Some("two"));
    assert!(!ctx.contains_key("missing"));
}

//! End-to-end scenarios: identity traversal, failing and recovering
//! command nodes, fan-in merging, and cycles torn down by error edges.

use attractor::compiler::{compile_topology, TopologyKind};
use attractor::dot_parser::parse_dot;
use attractor::nodes::exec_node::outcome_from_exec_exit;
use attractor::nodes::execution_loop::{
    advance_execution_with, run_execution_loop_once, RunLoopResult,
};
use attractor::nodes::identity_node::identity_forward;
use attractor::nodes::init_context::create_initial_state;
use attractor::nodes::outcome_router_node::payload_is_success;
use attractor::runner::final_result_from_payload;
use attractor::types::context::RunContext;
use attractor::types::graph_payload::GraphPayload;
use attractor::types::outcome_status::OutcomeStatus;

/// `start -> exit` traverses both nodes and ends in success, with the
/// goal seeded into the context.
#[test]
fn identity_graph_completes_with_goal_in_context() {
    let dot = r#"digraph G { graph [goal="ship it"] start [shape=Mdiamond] exit [shape=Msquare] start -> exit }"#;
    let graph = parse_dot(dot).unwrap();
    let mut state = create_initial_state(graph);
    match run_execution_loop_once(&mut state) {
        RunLoopResult::Done(r) => {
            assert_eq!(r.completed_nodes, vec!["start", "exit"]);
            assert_eq!(r.last_outcome.status, OutcomeStatus::Success);
            assert_eq!(r.context.get("goal").map(String::as_str), Some("ship it"));
        },
        RunLoopResult::Failed(e) => panic!("expected success, got error: {}", e),
    }
}

/// A succeeding command node routes out of its success port and the
/// run finishes at the exit.
#[test]
fn exec_success_routes_to_out_port() {
    let dot = r#"digraph G { start [shape=Mdiamond] ok [type=exec, command="true"] exit [shape=Msquare] start -> ok ok -> exit }"#;
    let graph = parse_dot(dot).unwrap();
    let topology = compile_topology(&graph, None).unwrap();
    assert_eq!(topology.entry_id, "start");
    assert_eq!(topology.exit_id, "exit");
    // Simulated run: start forwards, the command exits 0, routing picks
    // the success port, and the exit forwards.
    let mut ctx = RunContext::new();
    ctx.insert("goal".to_string(), String::new());
    let p0 = GraphPayload::initial(ctx, "start");
    let p1 = identity_forward("start", &p0);
    let outcome = outcome_from_exec_exit(true, Some(0));
    assert_eq!(outcome.notes.as_deref(), Some("ok"));
    let mut p2 = p1.with_node_completed("ok");
    p2.outcome = Some(outcome);
    assert!(payload_is_success(&p2));
    let p3 = identity_forward("exit", &p2);
    let result = final_result_from_payload(Some(p3));
    assert_eq!(result.last_outcome.status, OutcomeStatus::Success);
    assert_eq!(result.completed_nodes.last().map(String::as_str), Some("exit"));
}

/// A failing command routed to the exit over an `outcome=fail`
/// condition ends the run in error, with the failing node completed.
#[test]
fn exec_fail_routes_to_exit_in_error() {
    let dot = r#"digraph G { start [shape=Mdiamond] fail [type=exec, command="false"] exit [shape=Msquare] start -> fail fail -> exit [condition="outcome=fail"] }"#;
    let graph = parse_dot(dot).unwrap();
    let topology = compile_topology(&graph, None).unwrap();
    // The conditional edge is wired from the error port.
    let chan = topology.edge_channels.iter().find(|c| c.from_node == "fail").unwrap();
    assert_eq!(chan.from_port, "error");
    assert_eq!(chan.to_node, "exit");
    // Simulated run: the command exits 1, routing picks the fail port.
    let p0 = GraphPayload::initial(RunContext::new(), "start");
    let p1 = identity_forward("start", &p0);
    let outcome = outcome_from_exec_exit(false, Some(1));
    assert_eq!(outcome.failure_reason.as_deref(), Some("exit 1"));
    let mut p2 = p1.with_node_completed("fail");
    p2.outcome = Some(outcome);
    assert!(!payload_is_success(&p2));
    let p3 = identity_forward("exit", &p2);
    let result = final_result_from_payload(Some(p3));
    assert_eq!(result.last_outcome.status, OutcomeStatus::Error);
    assert!(result.completed_nodes.iter().any(|n| n == "fail"));
}

/// A failing command recovered by a fix node over the error edge ends
/// the run in success, with both nodes completed.
#[test]
fn exec_fail_then_fix_recovers() {
    let dot = r#"digraph G { start [shape=Mdiamond] fail [type=exec, command="false"] fix [type=exec, command="true"] exit [shape=Msquare] start -> fail fail -> fix [condition="outcome=fail"] fix -> exit }"#;
    let graph = parse_dot(dot).unwrap();
    let topology = compile_topology(&graph, None).unwrap();
    let chan = topology.edge_channels.iter().find(|c| c.from_node == "fail").unwrap();
    assert_eq!(chan.from_port, "error");
    assert_eq!(chan.to_node, "fix");
    // Simulated run through the error edge and the fix node.
    let p0 = GraphPayload::initial(RunContext::new(), "start");
    let p1 = identity_forward("start", &p0);
    let mut p2 = p1.with_node_completed("fail");
    p2.outcome = Some(outcome_from_exec_exit(false, Some(1)));
    assert!(!payload_is_success(&p2));
    let mut p3 = p2.with_node_completed("fix");
    p3.outcome = Some(outcome_from_exec_exit(true, Some(0)));
    assert!(payload_is_success(&p3));
    let p4 = identity_forward("exit", &p3);
    let result = final_result_from_payload(Some(p4));
    assert_eq!(result.last_outcome.status, OutcomeStatus::Success);
    assert!(result.completed_nodes.iter().any(|n| n == "fail"));
    assert!(result.completed_nodes.iter().any(|n| n == "fix"));
}

/// Two parents into one child compile to a merge point with one input
/// per parent.
#[test]
fn fan_in_compiles_to_merge() {
    let dot = r#"digraph G { start [shape=Mdiamond] a [] b [] child [] exit [shape=Msquare] start -> a start -> b a -> child b -> child child -> exit }"#;
    let graph = parse_dot(dot).unwrap();
    let topology = compile_topology(&graph, None).unwrap();
    assert_eq!(topology.merges.len(), 1);
    let m = &topology.merges[0];
    assert_eq!(m.target, "child");
    assert_eq!(m.inputs, 2);
    assert_eq!(m.id, "merge_child_in");
    let ports: Vec<&str> = topology
        .edge_channels
        .iter()
        .filter(|c| c.to_node == "merge_child_in")
        .map(|c| c.to_port.as_str())
        .collect();
    assert_eq!(ports, vec!["in_0", "in_1"]);
    let out = &topology.merge_channels[0];
    assert_eq!(out.from_node, "merge_child_in");
    assert_eq!(out.to_node, "child");
}

/// A cycle through a merge compiles, and its error edge to the exit
/// gives the run a way to terminate.
#[test]
fn cycle_with_merge_compiles_and_terminates_on_error() {
    let dot = r#"digraph G {
        start [shape=Mdiamond]
        check [type=exec, command="false"]
        middle []
        loop_back []
        exit [shape=Msquare]
        start -> check
        loop_back -> check
        check -> middle [condition="outcome=success"]
        check -> exit [condition="outcome=fail"]
        middle -> loop_back
    }"#;
    let graph = parse_dot(dot).unwrap();
    let topology = compile_topology(&graph, None).unwrap();
    // `check` has two producers: start and loop_back.
    let m = topology.merges.iter().find(|m| m.target == "check").unwrap();
    assert_eq!(m.inputs, 2);
    // The fail edge leaves from the error port straight to the exit.
    let chan = topology
        .edge_channels
        .iter()
        .find(|c| c.from_node == "check" && c.to_node == "exit")
        .unwrap();
    assert_eq!(chan.from_port, "error");
    // Simulated run: the check fails at once and the error edge ends
    // the traversal.
    let p0 = GraphPayload::initial(RunContext::new(), "start");
    let p1 = identity_forward("start", &p0);
    let mut p2 = p1.with_node_completed("check");
    p2.outcome = Some(outcome_from_exec_exit(false, Some(1)));
    assert!(!payload_is_success(&p2));
    let p3 = identity_forward("exit", &p2);
    let result = final_result_from_payload(Some(p3));
    assert_eq!(result.last_outcome.status, OutcomeStatus::Error);
}

/// Running the same graph twice without a resume flag re-executes the
/// full graph and completes the same nodes in the same order.
#[test]
fn rerun_completes_identical_nodes() {
    let dot = r#"digraph G { start [shape=Mdiamond] a [] b [] exit [shape=Msquare] start -> a -> b -> exit }"#;
    let first = {
        let graph = parse_dot(dot).unwrap();
        let mut state = create_initial_state(graph);
        match run_execution_loop_once(&mut state) {
            RunLoopResult::Done(r) => r.completed_nodes,
            RunLoopResult::Failed(e) => panic!("first run failed: {}", e),
        }
    };
    let second = {
        let graph = parse_dot(dot).unwrap();
        let mut state = create_initial_state(graph);
        match run_execution_loop_once(&mut state) {
            RunLoopResult::Done(r) => r.completed_nodes,
            RunLoopResult::Failed(e) => panic!("second run failed: {}", e),
        }
    };
    assert_eq!(first, second);
    assert_eq!(first, vec!["start", "a", "b", "exit"]);
}

/// Stepwise traversal with outcomes produced by outside work: a
/// failing command's error outcome leaves over the fallback edge to
/// the fix node, whose success leads on to the exit.
#[test]
fn stepwise_fed_outcomes_recover_through_fix() {
    let dot = r#"digraph G {
        start [shape=Mdiamond]
        fail [type=exec, command="false"]
        fix [type=exec, command="true"]
        exit [shape=Msquare]
        start -> fail
        fail -> fix [condition="outcome=fail"]
        fix -> exit
    }"#;
    let graph = parse_dot(dot).unwrap();
    let mut state = create_initial_state(graph);
    state.step_log = Some(Vec::new());
    // start: the synchronous handler decides.
    assert!(advance_execution_with(&mut state, None).is_none());
    assert_eq!(state.current_node_id, "fail");
    // fail: feed the real command result (exit 1).
    let fed = outcome_from_exec_exit(false, Some(1));
    assert!(advance_execution_with(&mut state, Some(fed)).is_none());
    assert_eq!(state.current_node_id, "fix");
    assert_eq!(state.context.get("outcome").map(String::as_str), Some("Error"));
    // fix: feed the real command result (exit 0).
    let fed = outcome_from_exec_exit(true, Some(0));
    assert!(advance_execution_with(&mut state, Some(fed)).is_none());
    assert_eq!(state.current_node_id, "exit");
    // exit: the synchronous handler finishes the run.
    match advance_execution_with(&mut state, None) {
        Some(RunLoopResult::Done(r)) => {
            assert_eq!(r.completed_nodes, vec!["start", "fail", "fix", "exit"]);
            assert_eq!(r.last_outcome.status, OutcomeStatus::Success);
        },
        other => panic!("expected the run to finish, got {:?}", other.is_none()),
    }
    let log = state.step_log.unwrap();
    assert_eq!(log.len(), 4);
    assert_eq!(log[1].node_id, "fail");
    assert_eq!(log[1].next_node_id.as_deref(), Some("fix"));
}

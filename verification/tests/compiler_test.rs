//! Tests for the topology compiler and the dataflow node shells.

use attractor::compiler::{compile_topology, condition_is_outcome_error, TopologyKind};
use attractor::dot_parser::parse_dot;
use attractor::nodes::codergen_node::CodergenNode;
use attractor::nodes::exec_node::ExecNode;
use attractor::nodes::identity_node::IdentityNode;
use attractor::nodes::outcome_router_node::OutcomeRouterNode;
use attractor::nodes::unit_source_node::UnitSourceNode;

#[test]
fn compile_trivial_start_exit() {
    let dot = r#"digraph G { start [shape=Mdiamond] exit [shape=Msquare] start -> exit }"#;
    let g = parse_dot(dot).unwrap();
    let t = compile_topology(&g, None).unwrap();
    assert_eq!(t.entry_id, "start");
    assert_eq!(t.exit_id, "exit");
    assert_eq!(t.nodes.len(), 2);
    assert!(t.merges.is_empty());
    assert_eq!(t.edge_channels.len(), 1);
    assert_eq!(t.edge_channels[0].from_port, "out");
    assert_eq!(t.edge_channels[0].to_port, "in");
}

#[test]
fn compile_rejects_exec_without_command() {
    let dot = r#"digraph G { start [shape=Mdiamond] run [type=exec] exit [shape=Msquare] start -> run -> exit }"#;
    let g = parse_dot(dot).unwrap();
    let e = compile_topology(&g, None).unwrap_err();
    assert!(e.contains("exec"), "expected compile to fail (exec without command)");
    assert!(e.contains("command"));
}

#[test]
fn compile_err_no_start() {
    let dot = r#"
    digraph G {
      graph [goal="test"]
      exit [shape=Msquare]
    }
  "#;
    let g = parse_dot(dot).unwrap();
    let e = compile_topology(&g, None).unwrap_err();
    assert!(e.contains("start"), "expected compile to fail (no start)");
}

#[test]
fn compile_err_no_exit() {
    let dot = r#"
    digraph G {
      graph [goal="test"]
      start [shape=Mdiamond]
    }
  "#;
    let g = parse_dot(dot).unwrap();
    let e = compile_topology(&g, None).unwrap_err();
    assert!(e.contains("exit"), "expected compile to fail (no exit)");
}

#[test]
fn compile_with_conditional_routing() {
    let dot = r#"digraph G {
        start [shape=Mdiamond]
        run [type=exec, command="true"]
        fix [type=exec, command="true"]
        exit [shape=Msquare]
        start -> run
        run -> exit [condition="outcome=success"]
        run -> fix [condition="outcome=fail"]
        fix -> exit
    }"#;
    let g = parse_dot(dot).unwrap();
    let t = compile_topology(&g, None).unwrap();
    let to_fix = t.edge_channels.iter().find(|c| c.to_node == "fix").unwrap();
    assert_eq!(to_fix.from_port, "error");
    let success_edge = t
        .edge_channels
        .iter()
        .find(|c| c.from_node == "run" && c.from_port == "out")
        .unwrap();
    assert!(success_edge.to_node.contains("exit") || success_edge.to_node.contains("merge"));
    // The exit has two producers, so a merge point stands before it.
    assert!(t.merges.iter().any(|m| m.target == "exit" && m.inputs == 2));
}

#[test]
fn compile_respects_entry_override() {
    let dot = r#"digraph G { start [shape=Mdiamond] mid [] exit [shape=Msquare] start -> mid -> exit }"#;
    let g = parse_dot(dot).unwrap();
    let t = compile_topology(&g, Some("mid")).unwrap();
    assert_eq!(t.entry_id, "mid");
    let e = compile_topology(&g, Some("ghost_node")).unwrap_err();
    assert!(e.contains("entry node"));
}

#[test]
fn compile_assigns_node_kinds() {
    let dot = r#"digraph G {
        start [shape=Mdiamond]
        sh [type=exec, command="make"]
        agent [prompt="write code"]
        exit [shape=Msquare]
        start -> sh -> agent -> exit
    }"#;
    let g = parse_dot(dot).unwrap();
    let t = compile_topology(&g, None).unwrap();
    for tn in &t.nodes {
        match tn.id.as_str() {
            "start" | "exit" => assert!(matches!(tn.kind, TopologyKind::Identity)),
            "sh" => match &tn.kind {
                TopologyKind::Exec(c) => assert_eq!(c, "make"),
                _ => panic!("expected an exec kind"),
            },
            "agent" => match &tn.kind {
                TopologyKind::Codergen(p) => assert_eq!(p, "write code"),
                _ => panic!("expected a codergen kind"),
            },
            other => panic!("unexpected node {}", other),
        }
    }
}

#[test]
fn condition_error_port_detection() {
    assert!(condition_is_outcome_error(Some("outcome=fail")));
    assert!(condition_is_outcome_error(Some("  Outcome=Error  ")));
    assert!(condition_is_outcome_error(Some("outcome=failure")));
    assert!(!condition_is_outcome_error(Some("outcome=success")));
    assert!(!condition_is_outcome_error(None));
}

#[test]
fn dataflow_node_shells_expose_ports() {
    let mut id_node = IdentityNode::new("start");
    assert_eq!(id_node.name(), "start");
    id_node.set_name("exit");
    assert_eq!(id_node.name(), "exit");
    assert!(id_node.has_input_port("in"));
    assert!(id_node.has_output_port("out"));

    let exec = ExecNode::new("run", "true");
    assert_eq!(exec.name(), "run");
    assert_eq!(exec.command, "true");
    assert!(exec.has_output_port("error"));

    let agent = CodergenNode::new("gen", "prompt", Some("agent --go".to_string()), None);
    assert_eq!(agent.name(), "gen");
    assert_eq!(agent.prompt, "prompt");
    assert!(agent.has_output_port("out"));

    let router = OutcomeRouterNode::new("route");
    assert!(router.has_output_port("success"));
    assert!(router.has_output_port("fail"));
    assert!(!router.has_output_port("out"));

    let unit = UnitSourceNode::new("unit");
    assert!(!unit.has_input_port("in"));
    assert!(unit.has_output_port("out"));
    assert_eq!(unit.input_port_names().len(), 0);
}

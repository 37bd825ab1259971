//! The pipeline's processing stages: parsing, validation, context
//! initialization, handler execution, edge selection and the stepwise
//! execution loop, together with the port-based node shells that carry
//! them in a dataflow topology.

pub mod apply_context_updates;
pub mod check_goal_gates;
pub mod codergen_node;
pub mod create_checkpoint;
pub mod exec_node;
pub mod execute_handler;
pub mod execution_loop;
pub mod find_start;
pub mod fix_node;
pub mod identity_node;
pub mod init_context;
pub mod message;
pub mod outcome_router_node;
pub mod parse_dot;
pub mod ports;
pub mod select_edge;
pub mod unit_source_node;
pub mod validate_graph;

pub use apply_context_updates::ApplyContextUpdatesNode;
pub use check_goal_gates::CheckGoalGatesNode;
pub use codergen_node::CodergenNode;
pub use create_checkpoint::CreateCheckpointNode;
pub use exec_node::ExecNode;
pub use execute_handler::ExecuteHandlerNode;
pub use execution_loop::{AttractorExecutionLoopNode, AttractorResult};
pub use find_start::FindStartNode;
pub use fix_node::FixNode;
pub use identity_node::IdentityNode;
pub use init_context::InitContextNode;
pub use outcome_router_node::OutcomeRouterNode;
pub use parse_dot::ParseDotNode;
pub use unit_source_node::UnitSourceNode;
pub use validate_graph::ValidateGraphNode;

//! Data model of the workflow runner: the parsed graph, run context,
//! node outcomes, execution state and the execution log.

pub mod attractor_edge;
pub mod attractor_graph;
pub mod attractor_node;
pub mod checkpoint;
pub mod context;
pub mod execution_log;
pub mod execution_state;
pub mod graph_payload;
pub mod node_outcome;
pub mod outcome_status;
pub mod resume_state;

pub use attractor_edge::AttractorEdge;
pub use attractor_graph::{AttractorGraph, NodeTable};
pub use attractor_node::AttractorNode;
pub use checkpoint::Checkpoint;
pub use context::RunContext;
pub use execution_log::{ExecutionLog, ExecutionStepEntry};
pub use execution_state::{ExecutionState, OutcomeMap};
pub use graph_payload::GraphPayload;
pub use resume_state::ResumeState;
pub use node_outcome::NodeOutcome;
pub use outcome_status::OutcomeStatus;

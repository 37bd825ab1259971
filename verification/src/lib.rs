//! Goal-directed workflow runner: a DOT-subset parser, a graph validator,
//! an edge selector, a topology compiler and a stepwise execution loop,
//! with contracts proved by Verus.

pub mod nodes;
pub mod compiler;
pub mod dot_parser;
pub mod numbers;
pub mod runner;
pub mod strutil;
pub mod types;

pub use nodes::{AttractorExecutionLoopNode, AttractorResult};
pub use types::{AttractorGraph, AttractorNode, ExecutionState, NodeOutcome};

//! Typed intermediate representation of block-based programs and the static
//! analysis that classifies each instruction and script by execution kind.
pub mod compute_kind;
pub mod ids;
pub mod operator;
pub mod property;
pub mod list;
pub mod render;
pub mod control_flow;
pub mod instruction;
pub mod ast;
pub mod classify;
pub mod builder;
pub mod laws;
pub mod project;
pub mod sb3;

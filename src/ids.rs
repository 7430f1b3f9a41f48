//! Handles of the nodes and entities held by an [`crate::ast::AST`] arena.
//!
//! A handle is the position of its node in the arena's table of that sort.
use vstd::prelude::*;

verus! {

/// An expression node.
pub type ValueId = usize;

/// A block of instructions.
pub type BlockId = usize;

/// A variable.
pub type VarId = usize;

/// A list.
pub type ListId = usize;

/// A custom block.
pub type FuncId = usize;

/// A sprite together with its scripts.
pub type SpriteId = usize;

/// A broadcast message.
pub type BroadCastId = usize;

/// A sound asset.
pub type SoundId = usize;

} // verus!

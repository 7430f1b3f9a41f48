//! Operations on lists.
use vstd::prelude::*;
use crate::ids::ValueId;

verus! {

#[derive(Clone, Copy, Debug, PartialEq, Eq, Structural)]
pub enum ListInstruction {
    Void(VoidListInstruction),
    Returning(ReturningListInstruction),
}

/// A list operation that produces no value.
#[derive(Clone, Copy, Debug, PartialEq, Eq, Structural)]
pub enum VoidListInstruction {
    /// Replace the element at an index: `(index, value)`.
    Replace(ValueId, ValueId),
    /// Insert at an index: `(index, value)`.
    Insert(ValueId, ValueId),
    Remove(ValueId),
    /// A constant-time insertion at either end.
    Push(ValueId, PushPop),
    Clear(),
}

/// A list operation that produces a value.
#[derive(Clone, Copy, Debug, PartialEq, Eq, Structural)]
pub enum ReturningListInstruction {
    Length(),
    Get(ValueId),
    Pop(PushPop),
    Find(ValueId),
    Contains(ValueId),
    ContainsSeq(ValueId),
    Concat(ValueId),
}

/// Where a push or pop takes place: `index` counts elements from `side`,
/// `0` being the end element itself.
#[derive(Clone, Copy, Debug, PartialEq, Eq, Structural)]
pub struct PushPop {
    pub side: PushPopSide,
    pub index: u8,
}

#[derive(Clone, Copy, Debug, PartialEq, Eq, Structural)]
pub enum PushPopSide {
    Left,
    Right,
}

} // verus!

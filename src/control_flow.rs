//! Instructions that branch, loop, or hand control to the scheduler.
use vstd::prelude::*;
use crate::ids::{BlockId, BroadCastId, SpriteId, ValueId};

verus! {

#[derive(Clone, Copy, Debug, PartialEq, Eq, Structural)]
pub enum ControlFlowInstruction {
    BroadCast(BroadCastInstruction, BroadCastId),
    Wait(ValueId),
    AskAndWait(ValueId),
    Branch { if_block: BlockId, else_block: BlockId },
    While(BlockId),
    Stop(StopInstruction),
    CreateClone(SpriteId),
    DeleteSelf(),
}

#[derive(Clone, Copy, Debug, PartialEq, Eq, Structural)]
pub enum BroadCastInstruction {
    Resume,
    Wait,
}

#[derive(Clone, Copy, Debug, PartialEq, Eq, Structural)]
pub enum StopInstruction {
    /// Stop the script at this index among its sprite's scripts.
    OwnScript(usize),
    OtherScriptsInSprite(SpriteId),
}

} // verus!

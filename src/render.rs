//! Instructions that change what is drawn or heard.
use vstd::prelude::*;
use crate::compute_kind::{Computable, ComputeKind};
use crate::ids::{SoundId, ValueId};

verus! {

#[derive(Clone, Copy, Debug, PartialEq, Eq, Structural)]
pub enum RenderInstruction {
    GlideTo(ValueId),
    SayOrThink(SayOrThink, ValueId, Option<ValueId>),
    ClearVisualEffects(),
    SoundInstruction(SoundInstruction, SoundId),
    StopAllSounds(),
    ClearAudioEffects(),
}

impl Computable for RenderInstruction {
    /// Every render instruction touches the frame, whatever its operands.
    open spec fn kind(&self) -> ComputeKind {
        ComputeKind::Graphical
    }

    fn get_compute_kind(&self) -> (r: ComputeKind) {
        ComputeKind::Graphical
    }
}

#[derive(Clone, Copy, Debug, PartialEq, Eq, Structural)]
pub enum SayOrThink {
    Say,
    Think,
}

#[derive(Clone, Copy, Debug, PartialEq, Eq, Structural)]
pub enum SoundInstruction {
    Play,
    Start,
}

} // verus!

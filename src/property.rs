//! Readable and writable properties of sprites and of the stage.
use vstd::prelude::*;
use crate::compute_kind::{Computable, ComputeKind};
use crate::ids::{ListId, SpriteId, ValueId, VarId};

verus! {

#[derive(Clone, Copy, Debug, PartialEq, Eq, Structural)]
pub enum PropertyInstruction {
    Visibility(VisibleThing),
    Position(),
    MousePointer(),
    Direction(),
    Size(),
    Volume(),
    Loudness(),
    Timer(),
    CurrentTime(TimeUnit),
    Answer(),
    UserName(),
    Named(NamedType, NamedProperty),
    RotationStyle(RotationStyle),
    Draggable(),
    Layer(),
    Stage(StageProperty),
    MouseDown(),
    KeyPressed(char),
    VisualEffect(VisualEffectType),
    AudioEffect(AudioEffectType),
    TouchingColor(ValueId),
    ColorIsTouchingColor(ValueId, ValueId),
}

impl Computable for PropertyInstruction {
    /// Reads of rendered or stage state are graphical; user name, costume and
    /// backdrop lookups are pure, and stage properties decide for themselves.
    open spec fn kind(&self) -> ComputeKind {
        match *self {
            PropertyInstruction::UserName() => ComputeKind::Computational,
            PropertyInstruction::Named(_, _) => ComputeKind::Computational,
            PropertyInstruction::Stage(p) => p.kind(),
            _ => ComputeKind::Graphical,
        }
    }

    fn get_compute_kind(&self) -> (r: ComputeKind) {
        match self {
            PropertyInstruction::UserName() => ComputeKind::Computational,
            PropertyInstruction::Named(_, _) => ComputeKind::Computational,
            PropertyInstruction::Stage(property) => property.get_compute_kind(),
            _ => ComputeKind::Graphical,
        }
    }
}

#[derive(Clone, Copy, Debug, PartialEq, Eq, Structural)]
pub enum VisibleThing {
    Sprite(SpriteId),
    Variable(VarId),
    List(ListId),
}

#[derive(Clone, Copy, Debug, PartialEq, Eq, Structural)]
pub enum TimeUnit {
    Second,
    Minute,
    Hour,
    DayOfWeek,
    Date,
    Month,
    Year,
    DaysSince2000,
}

#[derive(Clone, Copy, Debug, PartialEq, Eq, Structural)]
pub enum NamedType {
    Costume,
    Backdrop,
}

#[derive(Clone, Copy, Debug, PartialEq, Eq, Structural)]
pub enum NamedProperty {
    Number,
    Name,
}

#[derive(Clone, Copy, Debug, PartialEq, Eq, Structural)]
pub enum RotationStyle {
    LeftRight,
    DontRotate,
    AllAround,
}

#[derive(Clone, Copy, Debug, PartialEq, Eq, Structural)]
pub enum StageProperty {
    Backdrop(NamedProperty),
    Volume(),
    Variable(VarId),
}

impl Computable for StageProperty {
    /// Backdrop lookups and stage variables are pure; the stage volume is
    /// observed state.
    open spec fn kind(&self) -> ComputeKind {
        match *self {
            StageProperty::Backdrop(_) => ComputeKind::Computational,
            StageProperty::Volume() => ComputeKind::Graphical,
            StageProperty::Variable(_) => ComputeKind::Computational,
        }
    }

    fn get_compute_kind(&self) -> (r: ComputeKind) {
        match self {
            StageProperty::Backdrop(_) => ComputeKind::Computational,
            StageProperty::Volume() => ComputeKind::Graphical,
            StageProperty::Variable(_) => ComputeKind::Computational,
        }
    }
}

#[derive(Clone, Copy, Debug, PartialEq, Eq, Structural)]
pub enum VisualEffectType {
    Color,
    Fisheye,
    Whirl,
    Pixelate,
    Mosaic,
    Brightness,
    GhostEffect,
}

#[derive(Clone, Copy, Debug, PartialEq, Eq, Structural)]
pub enum AudioEffectType {
    Pitch,
    PanLeftRight,
}

} // verus!

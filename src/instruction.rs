//! Expression nodes, reads, writes and the instruction sum type.
use vstd::prelude::*;
use crate::compute_kind::{Computable, ComputeKind};
use crate::control_flow::ControlFlowInstruction;
use crate::ids::{FuncId, ListId, ValueId, VarId};
use crate::list::{ListInstruction, ReturningListInstruction};
use crate::operator::{BinaryOp, UnaryOp};
use crate::property::PropertyInstruction;
use crate::render::RenderInstruction;

verus! {

/// A numeric literal. A floating-point literal is held as its IEEE-754 bit
/// pattern.
#[derive(Clone, Copy, Debug, PartialEq, Eq, Structural)]
pub enum Number {
    UInt(u64),
    Int(i64),
    Float(u64),
}

/// A literal value.
#[derive(Clone, Debug, PartialEq, Eq)]
pub enum Constant {
    Bool(bool),
    Number(Number),
    String(String),
}

impl Computable for Constant {
    /// A literal is pure.
    open spec fn kind(&self) -> ComputeKind {
        ComputeKind::Computational
    }

    fn get_compute_kind(&self) -> (r: ComputeKind) {
        ComputeKind::Computational
    }
}

/// An expression node. Operands are handles of nodes allocated before it.
#[derive(Clone, Debug, PartialEq, Eq)]
pub enum CallInstruction {
    Id(GetInstruction),
    UnaryOp { op: UnaryOp, value: ValueId },
    BinaryOp { op: BinaryOp, left: ValueId, right: ValueId },
    Function(FunctionCallInstruction),
}

/// What an expression evaluates to is an expression node.
pub type Value = CallInstruction;

/// A call of a custom block with one argument per parameter.
#[derive(Clone, Debug, PartialEq, Eq)]
pub struct FunctionCallInstruction {
    pub function: FuncId,
    pub args: Vec<ValueId>,
}

/// Something that can be read and written: a variable, a whole list, or a
/// property.
#[derive(Clone, Copy, Debug, PartialEq, Eq, Structural)]
pub enum ReadWriteInstruction {
    Variable(VarId),
    List(ListId),
    Property(PropertyInstruction),
}

/// A read.
#[derive(Clone, Debug, PartialEq, Eq)]
pub enum GetInstruction {
    Constant(Constant),
    ReadWrite(ReadWriteInstruction),
    /// An element-level read of the list that the second operand evaluates to.
    Element(ReturningListInstruction, ValueId),
}

/// A write of `value` to `property`.
#[derive(Clone, Copy, Debug, PartialEq, Eq, Structural)]
pub struct SetInstruction {
    pub property: ReadWriteInstruction,
    pub value: ValueId,
}

impl SetInstruction {
    /// The bare write. It records nothing on the target: use
    /// [`crate::ast::AST::set`] to build a write that the target's `writes`
    /// list records.
    pub fn new(property: ReadWriteInstruction, value: ValueId) -> (r: SetInstruction)
        ensures
            r == (SetInstruction { property, value }),
    {
        SetInstruction { property, value }
    }
}

/// One statement of a block.
#[derive(Clone, Debug, PartialEq, Eq)]
pub enum Instruction {
    /// An expression evaluated for its effect, such as a call of a custom block.
    Op(ValueId),
    Get(GetInstruction),
    Assign(SetInstruction),
    /// An operation on the list that the second operand evaluates to.
    List(ListInstruction, ValueId),
    ControlFlow(ControlFlowInstruction),
    Render(RenderInstruction),
}

} // verus!

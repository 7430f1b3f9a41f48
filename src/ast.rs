//! The program entities and the arena that owns every node of one program.
//!
//! Nodes refer to one another by handle. An expression node only refers to
//! nodes allocated before it, and a block only nests blocks allocated before
//! it, so the node graph has no cycles; a call refers to its custom block by
//! handle, which is how a custom block can call itself.
use vstd::prelude::*;
use crate::control_flow::ControlFlowInstruction;
use crate::ids::{BlockId, ListId, ValueId, VarId};
use crate::instruction::{
    CallInstruction, Constant, FunctionCallInstruction, GetInstruction, Instruction,
    ReadWriteInstruction,
};
use crate::list::{ListInstruction, ReturningListInstruction, VoidListInstruction};
use crate::property::{PropertyInstruction, StageProperty, VisibleThing};
use crate::render::RenderInstruction;

verus! {

/// What starts a script.
#[derive(Clone, Copy, Debug, PartialEq, Eq, Structural)]
pub struct Event {}

/// A broadcast message.
#[derive(Clone, Copy, Debug, PartialEq, Eq, Structural)]
pub struct BroadCast {}

/// A sound asset.
#[derive(Clone, Copy, Debug, PartialEq, Eq, Structural)]
pub struct Sound {}

/// A sprite's identity.
#[derive(Clone, Copy, Debug, PartialEq, Eq, Structural)]
pub struct Sprite {}

/// Instructions executed top to bottom.
#[derive(Clone, Debug, PartialEq, Eq)]
pub struct Block {
    pub instructions: Vec<Instruction>,
}

/// A trigger and the block it runs.
#[derive(Clone, Copy, Debug, PartialEq, Eq, Structural)]
pub struct Script {
    pub trigger: Event,
    pub block: BlockId,
}

/// Named variables and lists.
#[derive(Clone, Debug, PartialEq, Eq)]
pub struct Scope {
    pub variables: Vec<VarId>,
    pub lists: Vec<ListId>,
}

/// A sprite, its local scope and its scripts.
#[derive(Clone, Debug, PartialEq, Eq)]
pub struct SpriteScripts {
    pub sprite: Sprite,
    pub locals: Scope,
    pub scripts: Vec<Script>,
}

/// A custom block: parameters and a body.
#[derive(Clone, Debug, PartialEq, Eq)]
pub struct Function {
    pub name: String,
    pub params: Vec<VarId>,
    pub body: BlockId,
}

impl Function {
    pub fn params(&self) -> (r: &[VarId])
        ensures
            r@ == self.params@,
    {
        self.params.as_slice()
    }
}

/// The global scope and the sprites.
#[derive(Clone, Debug, PartialEq, Eq)]
pub struct Program {
    pub globals: Scope,
    pub sprite_scripts: Vec<SpriteScripts>,
}

/// A named storage location, its initial value, and the expression nodes
/// that read it and the values written to it, in the order they were built.
#[derive(Clone, Debug, PartialEq, Eq)]
pub struct Variable {
    pub name: String,
    pub value: Constant,
    pub reads: Vec<ValueId>,
    pub writes: Vec<ValueId>,
}

/// A list: its whole-list identity and its element-level accesses.
#[derive(Clone, Debug, PartialEq, Eq)]
pub struct List {
    pub variable: Variable,
    pub element_reads: Vec<ValueId>,
    pub element_writes: Vec<ValueId>,
}

/// The arena of one program: every expression node, block, variable, list
/// and custom block, each addressed by its position.
#[derive(Clone, Debug, PartialEq, Eq)]
pub struct AST {
    pub values: Vec<CallInstruction>,
    pub blocks: Vec<Block>,
    pub variables: Vec<Variable>,
    pub lists: Vec<List>,
    pub functions: Vec<Function>,
    pub program: Program,
}

impl AST {
    pub open spec fn var_ok(self, v: VarId) -> bool {
        v < self.variables@.len()
    }

    pub open spec fn list_ok(self, l: ListId) -> bool {
        l < self.lists@.len()
    }

    pub open spec fn property_ok(self, p: PropertyInstruction, bound: int) -> bool {
        match p {
            PropertyInstruction::Visibility(VisibleThing::Variable(v)) => self.var_ok(v),
            PropertyInstruction::Visibility(VisibleThing::List(l)) => self.list_ok(l),
            PropertyInstruction::Stage(StageProperty::Variable(v)) => self.var_ok(v),
            PropertyInstruction::TouchingColor(x) => x < bound,
            PropertyInstruction::ColorIsTouchingColor(x, y) => x < bound && y < bound,
            _ => true,
        }
    }

    pub open spec fn rw_ok(self, rw: ReadWriteInstruction, bound: int) -> bool {
        match rw {
            ReadWriteInstruction::Variable(v) => self.var_ok(v),
            ReadWriteInstruction::List(l) => self.list_ok(l),
            ReadWriteInstruction::Property(p) => self.property_ok(p, bound),
        }
    }

    pub open spec fn returning_ok(op: ReturningListInstruction, bound: int) -> bool {
        match op {
            ReturningListInstruction::Get(x) => x < bound,
            ReturningListInstruction::Find(x) => x < bound,
            ReturningListInstruction::Contains(x) => x < bound,
            ReturningListInstruction::ContainsSeq(x) => x < bound,
            ReturningListInstruction::Concat(x) => x < bound,
            _ => true,
        }
    }

    pub open spec fn void_ok(op: VoidListInstruction, bound: int) -> bool {
        match op {
            VoidListInstruction::Replace(i, x) => i < bound && x < bound,
            VoidListInstruction::Insert(i, x) => i < bound && x < bound,
            VoidListInstruction::Remove(i) => i < bound,
            VoidListInstruction::Push(x, _) => x < bound,
            VoidListInstruction::Clear() => true,
        }
    }

    pub open spec fn list_op_ok(op: ListInstruction, bound: int) -> bool {
        match op {
            ListInstruction::Void(o) => Self::void_ok(o, bound),
            ListInstruction::Returning(o) => Self::returning_ok(o, bound),
        }
    }

    pub open spec fn get_ok(self, g: GetInstruction, bound: int) -> bool {
        match g {
            GetInstruction::Constant(_) => true,
            GetInstruction::ReadWrite(rw) => self.rw_ok(rw, bound),
            GetInstruction::Element(op, l) => Self::returning_ok(op, bound) && l < bound,
        }
    }

    /// A call names an existing custom block, passes one argument per
    /// parameter, and its arguments are below `bound`.
    pub open spec fn call_ok(self, c: FunctionCallInstruction, bound: int) -> bool {
        &&& c.function < self.functions@.len()
        &&& c.args@.len() == self.functions@[c.function as int].params@.len()
        &&& forall|i: int| 0 <= i < c.args@.len() ==> #[trigger] c.args@[i] < bound
    }

    /// The expression node stored at position `v` refers only to nodes below it.
    pub open spec fn node_ok(self, n: CallInstruction, v: int) -> bool {
        match n {
            CallInstruction::Id(g) => self.get_ok(g, v),
            CallInstruction::UnaryOp { op: _, value } => value < v,
            CallInstruction::BinaryOp { op: _, left, right } => left < v && right < v,
            CallInstruction::Function(c) => self.call_ok(c, v),
        }
    }

    pub open spec fn render_ok(r: RenderInstruction, bound: int) -> bool {
        match r {
            RenderInstruction::GlideTo(x) => x < bound,
            RenderInstruction::SayOrThink(_, x, None) => x < bound,
            RenderInstruction::SayOrThink(_, x, Some(y)) => x < bound && y < bound,
            _ => true,
        }
    }

    pub open spec fn control_ok(c: ControlFlowInstruction, vbound: int, b: int) -> bool {
        match c {
            ControlFlowInstruction::Wait(x) => x < vbound,
            ControlFlowInstruction::AskAndWait(x) => x < vbound,
            ControlFlowInstruction::Branch { if_block, else_block } => if_block < b && else_block
                < b,
            ControlFlowInstruction::While(x) => x < b,
            _ => true,
        }
    }

    /// An instruction of block `b` refers to existing nodes and nests only
    /// blocks below `b`.
    pub open spec fn instr_ok(self, i: Instruction, b: int) -> bool {
        let n = self.values@.len() as int;
        match i {
            Instruction::Op(x) => x < n,
            Instruction::Get(g) => self.get_ok(g, n),
            Instruction::Assign(s) => self.rw_ok(s.property, n) && s.value < n,
            Instruction::List(op, l) => Self::list_op_ok(op, n) && l < n,
            Instruction::ControlFlow(c) => Self::control_ok(c, n, b),
            Instruction::Render(r) => Self::render_ok(r, n),
        }
    }

    pub open spec fn function_ok(self, f: Function) -> bool {
        &&& f.body < self.blocks@.len()
        &&& forall|i: int| 0 <= i < f.params@.len() ==> self.var_ok(#[trigger] f.params@[i])
    }

    /// Every handle in the arena is in range and the node graph is acyclic.
    pub open spec fn wf(self) -> bool {
        &&& forall|v: int| 0 <= v < self.values@.len() ==> self.node_ok(#[trigger] self.values@[v], v)
        &&& forall|b: int, k: int|
            0 <= b < self.blocks@.len() && 0 <= k < self.blocks@[b].instructions@.len()
                ==> self.instr_ok(#[trigger] self.blocks@[b].instructions@[k], b)
        &&& forall|f: int| 0 <= f < self.functions@.len() ==> self.function_ok(#[trigger] self.functions@[f])
    }
}

} // verus!

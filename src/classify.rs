//! Execution-kind classification of expressions, instructions, blocks and
//! scripts.
//!
//! A custom block's kind depends on its call site: a call binds each
//! parameter to the kind of its argument, and the body is classified under
//! those bindings. The bindings travel with the classification instead of
//! being stored in the parameters, so classification never mutates the
//! program. The custom blocks being classified are marked active; a call of
//! an active custom block is recursion, and is classified `Reactive`.
use vstd::prelude::*;
use crate::ast::{AST, Script};
use crate::compute_kind::{join, kind_max, Computable, ComputeKind};
use crate::control_flow::ControlFlowInstruction;
use crate::ids::{BlockId, SpriteId, ValueId, VarId};
use crate::instruction::{
    CallInstruction, FunctionCallInstruction, GetInstruction, Instruction, ReadWriteInstruction,
    SetInstruction,
};
use crate::list::{ListInstruction, ReturningListInstruction, VoidListInstruction};

verus! {

/// A parameter bound to the kind of its argument.
#[derive(Clone, Copy, Debug, PartialEq, Eq, Structural)]
pub struct Binding {
    pub var: VarId,
    pub kind: ComputeKind,
}

/// The state a classification runs in: the parameter bindings of the
/// innermost call, and for each custom block whether a call of it is being
/// classified.
#[derive(Clone, Debug, PartialEq, Eq)]
pub struct CallContext {
    pub bindings: Vec<Binding>,
    pub active: Vec<bool>,
}

/// The number of custom blocks that are not active.
pub open spec fn idle_count(act: Seq<bool>) -> nat
    decreases act.len(),
{
    if act.len() == 0 {
        0
    } else {
        idle_count(act.drop_last()) + if act.last() {
            0nat
        } else {
            1nat
        }
    }
}

pub proof fn lemma_activate(act: Seq<bool>, f: int)
    requires
        0 <= f < act.len(),
        !act[f],
    ensures
        idle_count(act.update(f, true)) + 1 == idle_count(act),
    decreases act.len(),
{
    let act2 = act.update(f, true);
    if f == act.len() - 1 {
        assert(act2.drop_last() =~= act.drop_last());
    } else {
        assert(act2.drop_last() =~= act.drop_last().update(f, true));
        lemma_activate(act.drop_last(), f);
    }
}

/// The kind bound to `v` by the first binding of `v`, if any.
pub open spec fn lookup(bs: Seq<Binding>, v: VarId) -> Option<ComputeKind>
    decreases bs.len(),
{
    if bs.len() == 0 {
        None
    } else if bs[0].var == v {
        Some(bs[0].kind)
    } else {
        lookup(bs.drop_first(), v)
    }
}

/// A bound parameter has its argument's kind; any other variable and any
/// whole list holds a literal and is pure; a property decides for itself.
pub open spec fn rw_kind(bs: Seq<Binding>, rw: ReadWriteInstruction) -> ComputeKind {
    match rw {
        ReadWriteInstruction::Variable(v) => match lookup(bs, v) {
            Some(k) => k,
            None => ComputeKind::Computational,
        },
        ReadWriteInstruction::List(_) => ComputeKind::Computational,
        ReadWriteInstruction::Property(p) => p.kind(),
    }
}

/// Kind of expression node `v`.
pub open spec fn value_kind(a: AST, bs: Seq<Binding>, act: Seq<bool>, v: int) -> ComputeKind
    decreases idle_count(act), 0int, v, 3int, 0int,
{
    if 0 <= v < a.values@.len() {
        match a.values@[v] {
            CallInstruction::Id(g) => get_kind(a, bs, act, g, v),
            CallInstruction::UnaryOp { op: _, value } => if value < v {
                value_kind(a, bs, act, value as int)
            } else {
                ComputeKind::Reactive
            },
            CallInstruction::BinaryOp { op: _, left, right } => if left < v && right < v {
                kind_max(value_kind(a, bs, act, left as int), value_kind(a, bs, act, right as int))
            } else {
                ComputeKind::Reactive
            },
            CallInstruction::Function(c) => call_kind(a, bs, act, c, v),
        }
    } else {
        ComputeKind::Reactive
    }
}

/// Kind of the node `x` as an operand of a node at `bound`.
pub open spec fn operand_kind(a: AST, bs: Seq<Binding>, act: Seq<bool>, x: ValueId, bound: int) -> ComputeKind
    decreases idle_count(act), 0int, bound, 0int, 0int,
{
    if x < bound {
        value_kind(a, bs, act, x as int)
    } else {
        ComputeKind::Reactive
    }
}

/// Kind of a read whose operands lie below `bound`.
pub open spec fn get_kind(a: AST, bs: Seq<Binding>, act: Seq<bool>, g: GetInstruction, bound: int) -> ComputeKind
    decreases idle_count(act), 0int, bound, 2int, 0int,
{
    match g {
        GetInstruction::Constant(c) => c.kind(),
        GetInstruction::ReadWrite(rw) => rw_kind(bs, rw),
        GetInstruction::Element(op, l) => kind_max(
            returning_kind(a, bs, act, op, bound),
            operand_kind(a, bs, act, l, bound),
        ),
    }
}

/// Kind of a value-producing list operation: the join of its operands.
pub open spec fn returning_kind(
    a: AST,
    bs: Seq<Binding>,
    act: Seq<bool>,
    op: ReturningListInstruction,
    bound: int,
) -> ComputeKind
    decreases idle_count(act), 0int, bound, 1int, 0int,
{
    match op {
        ReturningListInstruction::Length() => ComputeKind::Computational,
        ReturningListInstruction::Get(x) => operand_kind(a, bs, act, x, bound),
        ReturningListInstruction::Pop(_) => ComputeKind::Computational,
        ReturningListInstruction::Find(x) => operand_kind(a, bs, act, x, bound),
        ReturningListInstruction::Contains(x) => operand_kind(a, bs, act, x, bound),
        ReturningListInstruction::ContainsSeq(x) => operand_kind(a, bs, act, x, bound),
        ReturningListInstruction::Concat(x) => operand_kind(a, bs, act, x, bound),
    }
}

/// Kind of a list operation that produces nothing: the join of its operands.
pub open spec fn void_kind(
    a: AST,
    bs: Seq<Binding>,
    act: Seq<bool>,
    op: VoidListInstruction,
    bound: int,
) -> ComputeKind
    decreases idle_count(act), 0int, bound, 1int, 0int,
{
    match op {
        VoidListInstruction::Replace(i, x) => kind_max(
            operand_kind(a, bs, act, i, bound),
            operand_kind(a, bs, act, x, bound),
        ),
        VoidListInstruction::Insert(i, x) => kind_max(
            operand_kind(a, bs, act, i, bound),
            operand_kind(a, bs, act, x, bound),
        ),
        VoidListInstruction::Remove(i) => operand_kind(a, bs, act, i, bound),
        VoidListInstruction::Push(x, _) => operand_kind(a, bs, act, x, bound),
        VoidListInstruction::Clear() => ComputeKind::Computational,
    }
}

pub open spec fn list_kind(a: AST, bs: Seq<Binding>, act: Seq<bool>, op: ListInstruction, bound: int) -> ComputeKind
    decreases idle_count(act), 0int, bound, 2int, 0int,
{
    match op {
        ListInstruction::Void(o) => void_kind(a, bs, act, o, bound),
        ListInstruction::Returning(o) => returning_kind(a, bs, act, o, bound),
    }
}

/// The bindings of the first `n` parameters to their arguments' kinds.
pub open spec fn arg_bindings(
    a: AST,
    bs: Seq<Binding>,
    act: Seq<bool>,
    params: Seq<VarId>,
    args: Seq<ValueId>,
    bound: int,
    n: int,
) -> Seq<Binding>
    decreases idle_count(act), 0int, bound, 1int, n,
{
    if 0 < n <= args.len() && n <= params.len() {
        arg_bindings(a, bs, act, params, args, bound, n - 1).push(
            Binding { var: params[n - 1], kind: operand_kind(a, bs, act, args[n - 1], bound) },
        )
    } else {
        Seq::empty()
    }
}

/// Kind of a call: the kind of the callee's body with each parameter bound
/// to its argument's kind; `Reactive` for a call of an active custom block.
pub open spec fn call_kind(a: AST, bs: Seq<Binding>, act: Seq<bool>, c: FunctionCallInstruction, bound: int) -> ComputeKind
    decreases idle_count(act), 0int, bound, 2int, 0int,
{
    let f = c.function as int;
    if f < a.functions@.len() && f < act.len() && !act[f] {
        let callee = a.functions@[f];
        let inner = arg_bindings(a, bs, act, callee.params@, c.args@, bound, c.args@.len() as int);
        proof {
            lemma_activate(act, f);
        }
        block_kind(a, inner, act.update(f, true), callee.body as int)
    } else {
        ComputeKind::Reactive
    }
}

/// Join of the kinds of the first `k` instructions of block `b`.
pub open spec fn block_prefix_kind(a: AST, bs: Seq<Binding>, act: Seq<bool>, b: int, k: int) -> ComputeKind
    decreases idle_count(act), 1int, b, 1int, k,
{
    if 0 <= b < a.blocks@.len() && 0 < k <= a.blocks@[b].instructions@.len() {
        kind_max(
            block_prefix_kind(a, bs, act, b, k - 1),
            instr_kind(a, bs, act, a.blocks@[b].instructions@[k - 1], b),
        )
    } else {
        ComputeKind::Computational
    }
}

/// Kind of block `b`: the join of its instructions.
pub open spec fn block_kind(a: AST, bs: Seq<Binding>, act: Seq<bool>, b: int) -> ComputeKind
    decreases idle_count(act), 1int, b, 2int, 0int,
{
    if 0 <= b < a.blocks@.len() {
        block_prefix_kind(a, bs, act, b, a.blocks@[b].instructions@.len() as int)
    } else {
        ComputeKind::Computational
    }
}

/// Kind of block `x` nested in block `b`.
pub open spec fn nested_kind(a: AST, bs: Seq<Binding>, act: Seq<bool>, x: BlockId, b: int) -> ComputeKind
    decreases idle_count(act), 1int, b, 0int, 0int,
{
    if x < b {
        block_kind(a, bs, act, x as int)
    } else {
        ComputeKind::Reactive
    }
}

/// Suspending instructions are `Reactive` whatever their operands; a branch
/// or loop is the join of its blocks.
pub open spec fn control_kind(a: AST, bs: Seq<Binding>, act: Seq<bool>, c: ControlFlowInstruction, b: int) -> ComputeKind
    decreases idle_count(act), 1int, b, 0int, 1int,
{
    match c {
        ControlFlowInstruction::Branch { if_block, else_block } => kind_max(
            nested_kind(a, bs, act, if_block, b),
            nested_kind(a, bs, act, else_block, b),
        ),
        ControlFlowInstruction::While(x) => nested_kind(a, bs, act, x, b),
        _ => ComputeKind::Reactive,
    }
}

/// Kind of an instruction of block `b`.
pub open spec fn instr_kind(a: AST, bs: Seq<Binding>, act: Seq<bool>, i: Instruction, b: int) -> ComputeKind
    decreases idle_count(act), 1int, b, 0int, 2int,
{
    let n = a.values@.len() as int;
    match i {
        Instruction::Op(x) => value_kind(a, bs, act, x as int),
        Instruction::Get(g) => get_kind(a, bs, act, g, n),
        Instruction::Assign(s) => kind_max(rw_kind(bs, s.property), value_kind(a, bs, act, s.value as int)),
        Instruction::List(op, l) => kind_max(list_kind(a, bs, act, op, n), value_kind(a, bs, act, l as int)),
        Instruction::ControlFlow(c) => control_kind(a, bs, act, c, b),
        Instruction::Render(r) => r.kind(),
    }
}

/// No custom block is active.
pub open spec fn all_idle(n: nat) -> Seq<bool> {
    Seq::new(n, |i: int| false)
}

/// Kind of a script: the kind of its block, outside any call.
pub open spec fn script_kind(a: AST, s: Script) -> ComputeKind {
    block_kind(a, Seq::empty(), all_idle(a.functions@.len()), s.block as int)
}

impl CallContext {
    /// The context outside any call, for an arena with `n_functions` custom
    /// blocks: nothing bound, nothing active.
    pub fn outside_calls(n_functions: usize) -> (r: CallContext)
        ensures
            r.bindings@ == Seq::<Binding>::empty(),
            r.active@ == all_idle(n_functions as nat),
    {
        let mut active: Vec<bool> = Vec::new();
        let mut j: usize = 0;
        while j < n_functions
            invariant
                j <= n_functions,
                active@ =~= all_idle(j as nat),
            decreases n_functions - j,
        {
            active.push(false);
            j = j + 1;
        }
        let r = CallContext { bindings: Vec::new(), active };
        assert(r.bindings@ =~= Seq::<Binding>::empty());
        r
    }

    /// The context fits the arena: one flag per custom block.
    pub open spec fn fits(&self, a: AST) -> bool {
        self.active@.len() == a.functions@.len()
    }
}

impl ReadWriteInstruction {
    pub fn get_compute_kind(&self, ctx: &CallContext) -> (r: ComputeKind)
        ensures
            r == rw_kind(ctx.bindings@, *self),
    {
        match self {
            ReadWriteInstruction::Variable(v) => match bound_kind(&ctx.bindings, *v) {
                Some(k) => k,
                None => ComputeKind::Computational,
            },
            ReadWriteInstruction::List(_) => ComputeKind::Computational,
            ReadWriteInstruction::Property(p) => p.get_compute_kind(),
        }
    }
}

/// The kind bound to `v`, if any.
fn bound_kind(bs: &Vec<Binding>, v: VarId) -> (r: Option<ComputeKind>)
    ensures
        r == lookup(bs@, v),
{
    let mut i: usize = 0;
    assert(bs@.subrange(0, bs@.len() as int) =~= bs@);
    while i < bs.len()
        invariant
            i <= bs@.len(),
            lookup(bs@, v) == lookup(bs@.subrange(i as int, bs@.len() as int), v),
        decreases bs@.len() - i,
    {
        let ghost rest = bs@.subrange(i as int, bs@.len() as int);
        assert(rest[0] == bs@[i as int]);
        if bs[i].var == v {
            return Some(bs[i].kind);
        }
        assert(rest.drop_first() =~= bs@.subrange(i + 1, bs@.len() as int));
        i = i + 1;
    }
    assert(bs@.subrange(i as int, bs@.len() as int) =~= Seq::<Binding>::empty());
    None
}

impl AST {
    /// Kind of expression node `v` in `ctx`.
    pub fn value_compute_kind(&self, ctx: &CallContext, v: ValueId) -> (r: ComputeKind)
        requires
            self.wf(),
            ctx.fits(*self),
            v < self.values@.len(),
        ensures
            r == value_kind(*self, ctx.bindings@, ctx.active@, v as int),
        decreases idle_count(ctx.active@), 0int, v, 3int, 1int,
    {
        self.values[v].get_compute_kind(self, ctx, v)
    }

    /// Kind of the node `x` as an operand of a node at `bound`.
    fn operand_compute_kind(&self, ctx: &CallContext, x: ValueId, bound: usize) -> (r: ComputeKind)
        requires
            self.wf(),
            ctx.fits(*self),
            x < bound <= self.values@.len(),
        ensures
            r == operand_kind(*self, ctx.bindings@, ctx.active@, x, bound as int),
        decreases idle_count(ctx.active@), 0int, bound, 0int, 0int,
    {
        self.value_compute_kind(ctx, x)
    }

    /// Kind of block `b` in `ctx`: the join of its instructions.
    pub fn block_compute_kind(&self, ctx: &CallContext, b: BlockId) -> (r: ComputeKind)
        requires
            self.wf(),
            ctx.fits(*self),
            b < self.blocks@.len(),
        ensures
            r == block_kind(*self, ctx.bindings@, ctx.active@, b as int),
        decreases idle_count(ctx.active@), 1int, b, 2int, 0int,
    {
        let block = &self.blocks[b];
        let mut acc = ComputeKind::Computational;
        let mut k: usize = 0;
        while k < block.instructions.len()
            invariant
                self.wf(),
                ctx.fits(*self),
                b < self.blocks@.len(),
                *block == self.blocks@[b as int],
                k <= block.instructions@.len(),
                acc == block_prefix_kind(*self, ctx.bindings@, ctx.active@, b as int, k as int),
            decreases block.instructions@.len() - k,
        {
            assert(self.instr_ok(block.instructions@[k as int], b as int));
            let ik = block.instructions[k].get_compute_kind(self, ctx, b);
            acc = join(acc, ik);
            assert(acc == block_prefix_kind(*self, ctx.bindings@, ctx.active@, b as int, k + 1));
            k = k + 1;
        }
        acc
    }
}

impl CallInstruction {
    /// Kind of this node, stored at position `at`: its operands decide, as
    /// the node itself is pure.
    pub fn get_compute_kind(&self, ast: &AST, ctx: &CallContext, at: ValueId) -> (r: ComputeKind)
        requires
            ast.wf(),
            ctx.fits(*ast),
            at < ast.values@.len(),
            ast.values@[at as int] == *self,
        ensures
            r == value_kind(*ast, ctx.bindings@, ctx.active@, at as int),
        decreases idle_count(ctx.active@), 0int, at, 3int, 0int,
    {
        assert(ast.node_ok(ast.values@[at as int], at as int));
        match self {
            CallInstruction::Id(get) => get.get_compute_kind(ast, ctx, at),
            CallInstruction::UnaryOp { op: _, value } => ast.value_compute_kind(ctx, *value),
            CallInstruction::BinaryOp { op: _, left, right } => {
                let l = ast.value_compute_kind(ctx, *left);
                let r = ast.value_compute_kind(ctx, *right);
                join(l, r)
            },
            CallInstruction::Function(function) => function.get_compute_kind(ast, ctx, at),
        }
    }
}

impl GetInstruction {
    /// Kind of a read whose operands lie below `bound`.
    pub fn get_compute_kind(&self, ast: &AST, ctx: &CallContext, bound: usize) -> (r: ComputeKind)
        requires
            ast.wf(),
            ctx.fits(*ast),
            bound <= ast.values@.len(),
            ast.get_ok(*self, bound as int),
        ensures
            r == get_kind(*ast, ctx.bindings@, ctx.active@, *self, bound as int),
        decreases idle_count(ctx.active@), 0int, bound, 2int, 0int,
    {
        match self {
            GetInstruction::Constant(c) => c.get_compute_kind(),
            GetInstruction::ReadWrite(rw) => rw.get_compute_kind(ctx),
            GetInstruction::Element(op, l) => {
                let k1 = op.get_compute_kind(ast, ctx, bound);
                let k2 = ast.operand_compute_kind(ctx, *l, bound);
                join(k1, k2)
            },
        }
    }
}

impl ReturningListInstruction {
    pub fn get_compute_kind(&self, ast: &AST, ctx: &CallContext, bound: usize) -> (r: ComputeKind)
        requires
            ast.wf(),
            ctx.fits(*ast),
            bound <= ast.values@.len(),
            AST::returning_ok(*self, bound as int),
        ensures
            r == returning_kind(*ast, ctx.bindings@, ctx.active@, *self, bound as int),
        decreases idle_count(ctx.active@), 0int, bound, 1int, 0int,
    {
        match self {
            ReturningListInstruction::Length() => ComputeKind::Computational,
            ReturningListInstruction::Get(index) => ast.operand_compute_kind(ctx, *index, bound),
            ReturningListInstruction::Pop(_) => ComputeKind::Computational,
            ReturningListInstruction::Find(value) => ast.operand_compute_kind(ctx, *value, bound),
            ReturningListInstruction::Contains(value) => ast.operand_compute_kind(ctx, *value, bound),
            ReturningListInstruction::ContainsSeq(value) => ast.operand_compute_kind(ctx, *value, bound),
            ReturningListInstruction::Concat(value) => ast.operand_compute_kind(ctx, *value, bound),
        }
    }
}

impl VoidListInstruction {
    pub fn get_compute_kind(&self, ast: &AST, ctx: &CallContext, bound: usize) -> (r: ComputeKind)
        requires
            ast.wf(),
            ctx.fits(*ast),
            bound <= ast.values@.len(),
            AST::void_ok(*self, bound as int),
        ensures
            r == void_kind(*ast, ctx.bindings@, ctx.active@, *self, bound as int),
        decreases idle_count(ctx.active@), 0int, bound, 1int, 0int,
    {
        match self {
            VoidListInstruction::Replace(index, value) => {
                let k1 = ast.operand_compute_kind(ctx, *index, bound);
                let k2 = ast.operand_compute_kind(ctx, *value, bound);
                join(k1, k2)
            },
            VoidListInstruction::Insert(index, value) => {
                let k1 = ast.operand_compute_kind(ctx, *index, bound);
                let k2 = ast.operand_compute_kind(ctx, *value, bound);
                join(k1, k2)
            },
            VoidListInstruction::Remove(index) => ast.operand_compute_kind(ctx, *index, bound),
            VoidListInstruction::Push(value, _) => ast.operand_compute_kind(ctx, *value, bound),
            VoidListInstruction::Clear() => ComputeKind::Computational,
        }
    }
}

impl ListInstruction {
    pub fn get_compute_kind(&self, ast: &AST, ctx: &CallContext, bound: usize) -> (r: ComputeKind)
        requires
            ast.wf(),
            ctx.fits(*ast),
            bound <= ast.values@.len(),
            AST::list_op_ok(*self, bound as int),
        ensures
            r == list_kind(*ast, ctx.bindings@, ctx.active@, *self, bound as int),
        decreases idle_count(ctx.active@), 0int, bound, 2int, 0int,
    {
        match self {
            ListInstruction::Void(op) => op.get_compute_kind(ast, ctx, bound),
            ListInstruction::Returning(op) => op.get_compute_kind(ast, ctx, bound),
        }
    }
}

impl FunctionCallInstruction {
    /// Kind of the call at node `bound`: the callee's body classified with
    /// each parameter bound to its argument's kind.
    pub fn get_compute_kind(&self, ast: &AST, ctx: &CallContext, bound: usize) -> (r: ComputeKind)
        requires
            ast.wf(),
            ctx.fits(*ast),
            bound <= ast.values@.len(),
            ast.call_ok(*self, bound as int),
        ensures
            r == call_kind(*ast, ctx.bindings@, ctx.active@, *self, bound as int),
        decreases idle_count(ctx.active@), 0int, bound, 2int, 0int,
    {
        let f = self.function;
        if ctx.active[f] {
            return ComputeKind::Reactive;
        }
        let callee = &ast.functions[f];
        assert(ast.function_ok(ast.functions@[f as int]));
        let ghost params = callee.params@;
        let mut bindings: Vec<Binding> = Vec::new();
        let mut i: usize = 0;
        while i < self.args.len()
            invariant
                ast.wf(),
                ctx.fits(*ast),
                bound <= ast.values@.len(),
                ast.call_ok(*self, bound as int),
                *callee == ast.functions@[f as int],
                params == callee.params@,
                params.len() == self.args@.len(),
                i <= self.args@.len(),
                bindings@ == arg_bindings(
                    *ast,
                    ctx.bindings@,
                    ctx.active@,
                    params,
                    self.args@,
                    bound as int,
                    i as int,
                ),
            decreases self.args@.len() - i,
        {
            let arg = self.args[i];
            assert(self.args@[i as int] < bound);
            let k = ast.operand_compute_kind(ctx, arg, bound);
            bindings.push(Binding { var: callee.params[i], kind: k });
            i = i + 1;
            assert(bindings@ == arg_bindings(*ast, ctx.bindings@, ctx.active@, params, self.args@, bound as int, i as int));
        }
        let mut active: Vec<bool> = Vec::new();
        let mut j: usize = 0;
        while j < ctx.active.len()
            invariant
                j <= ctx.active@.len(),
                active@.len() == j,
                forall|t: int| 0 <= t < j ==> active@[t] == (if t == f { true } else { ctx.active@[t] }),
            decreases ctx.active@.len() - j,
        {
            active.push(if j == f { true } else { ctx.active[j] });
            j = j + 1;
        }
        assert(active@ =~= ctx.active@.update(f as int, true));
        proof {
            lemma_activate(ctx.active@, f as int);
        }
        let inner = CallContext { bindings, active };
        ast.block_compute_kind(&inner, callee.body)
    }
}

impl Instruction {
    /// Kind of this instruction as a member of block `b`.
    pub fn get_compute_kind(&self, ast: &AST, ctx: &CallContext, b: BlockId) -> (r: ComputeKind)
        requires
            ast.wf(),
            ctx.fits(*ast),
            b < ast.blocks@.len(),
            ast.instr_ok(*self, b as int),
        ensures
            r == instr_kind(*ast, ctx.bindings@, ctx.active@, *self, b as int),
        decreases idle_count(ctx.active@), 1int, b, 0int, 2int,
    {
        let n = ast.values.len();
        match self {
            Instruction::Op(x) => ast.value_compute_kind(ctx, *x),
            Instruction::Get(g) => g.get_compute_kind(ast, ctx, n),
            Instruction::Assign(s) => s.get_compute_kind(ast, ctx),
            Instruction::List(op, l) => {
                let k1 = op.get_compute_kind(ast, ctx, n);
                let k2 = ast.value_compute_kind(ctx, *l);
                join(k1, k2)
            },
            Instruction::ControlFlow(c) => c.get_compute_kind(ast, ctx, b),
            Instruction::Render(r) => r.get_compute_kind(),
        }
    }
}

impl SetInstruction {
    /// The join of the target's kind and the written value's kind.
    pub fn get_compute_kind(&self, ast: &AST, ctx: &CallContext) -> (r: ComputeKind)
        requires
            ast.wf(),
            ctx.fits(*ast),
            self.value < ast.values@.len(),
        ensures
            r == kind_max(rw_kind(ctx.bindings@, self.property), value_kind(*ast, ctx.bindings@, ctx.active@, self.value as int)),
        decreases idle_count(ctx.active@), 0int, ast.values@.len(), 4int, 0int,
    {
        let k1 = self.property.get_compute_kind(ctx);
        let k2 = ast.value_compute_kind(ctx, self.value);
        join(k1, k2)
    }
}

impl ControlFlowInstruction {
    /// Kind of this instruction as a member of block `b`.
    pub fn get_compute_kind(&self, ast: &AST, ctx: &CallContext, b: BlockId) -> (r: ComputeKind)
        requires
            ast.wf(),
            ctx.fits(*ast),
            b < ast.blocks@.len(),
            AST::control_ok(*self, ast.values@.len() as int, b as int),
        ensures
            r == control_kind(*ast, ctx.bindings@, ctx.active@, *self, b as int),
        decreases idle_count(ctx.active@), 1int, b, 0int, 1int,
    {
        match self {
            ControlFlowInstruction::BroadCast(_, _) => ComputeKind::Reactive,
            ControlFlowInstruction::Wait(_) => ComputeKind::Reactive,
            ControlFlowInstruction::AskAndWait(_) => ComputeKind::Reactive,
            ControlFlowInstruction::Branch { if_block, else_block } => {
                let k1 = ast.block_compute_kind(ctx, *if_block);
                let k2 = ast.block_compute_kind(ctx, *else_block);
                join(k1, k2)
            },
            ControlFlowInstruction::While(block) => ast.block_compute_kind(ctx, *block),
            ControlFlowInstruction::Stop(_) => ComputeKind::Reactive,
            ControlFlowInstruction::CreateClone(_) => ComputeKind::Reactive,
            ControlFlowInstruction::DeleteSelf() => ComputeKind::Reactive,
        }
    }
}

impl Script {
    /// Kind of the script: the kind of its block, outside any call.
    pub fn get_compute_kind(&self, ast: &AST) -> (r: ComputeKind)
        requires
            ast.wf(),
            self.block < ast.blocks@.len(),
        ensures
            r == script_kind(*ast, *self),
    {
        let ctx = CallContext::outside_calls(ast.functions.len());
        ast.block_compute_kind(&ctx, self.block)
    }
}

impl AST {
    /// Each script of sprite `sprite`, in order, as its root block paired
    /// with its kind: what a code generator needs to choose how to compile
    /// the script.
    pub fn script_kinds(&self, sprite: SpriteId) -> (r: Vec<(BlockId, ComputeKind)>)
        requires
            self.wf(),
            sprite < self.program.sprite_scripts@.len(),
            forall|i: int|
                0 <= i < self.program.sprite_scripts@[sprite as int].scripts@.len()
                    ==> (#[trigger] self.program.sprite_scripts@[sprite as int].scripts@[i]).block
                    < self.blocks@.len(),
        ensures
            r@.len() == self.program.sprite_scripts@[sprite as int].scripts@.len(),
            forall|i: int|
                0 <= i < r@.len() ==> #[trigger] r@[i] == (
                    self.program.sprite_scripts@[sprite as int].scripts@[i].block,
                    script_kind(*self, self.program.sprite_scripts@[sprite as int].scripts@[i]),
                ),
    {
        let scripts = &self.program.sprite_scripts[sprite].scripts;
        let mut r: Vec<(BlockId, ComputeKind)> = Vec::new();
        let mut i: usize = 0;
        while i < scripts.len()
            invariant
                self.wf(),
                *scripts == self.program.sprite_scripts@[sprite as int].scripts,
                forall|j: int| 0 <= j < scripts@.len() ==> (#[trigger] scripts@[j]).block < self.blocks@.len(),
                i <= scripts@.len(),
                r@.len() == i,
                forall|j: int| 0 <= j < i ==> #[trigger] r@[j] == (scripts@[j].block, script_kind(*self, scripts@[j])),
            decreases scripts@.len() - i,
        {
            let script = scripts[i];
            assert(script == scripts@[i as int]);
            let k = script.get_compute_kind(self);
            r.push((script.block, k));
            i = i + 1;
        }
        r
    }
}

} // verus!

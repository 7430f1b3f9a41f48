//! Properties of the classification, proved over its definition.
use vstd::prelude::*;
use crate::ast::AST;
use crate::classify::{
    arg_bindings, block_kind, block_prefix_kind, call_kind, control_kind, get_kind, idle_count,
    instr_kind, lemma_activate, list_kind, lookup, nested_kind, operand_kind, returning_kind,
    rw_kind, value_kind, void_kind, Binding,
};
use crate::compute_kind::{kind_max, kind_max_all, Computable, ComputeKind};
use crate::control_flow::ControlFlowInstruction;
use crate::ids::{BlockId, ValueId, VarId};
use crate::instruction::{
    CallInstruction, FunctionCallInstruction, GetInstruction, Instruction, ReadWriteInstruction,
};
use crate::list::{ListInstruction, ReturningListInstruction, VoidListInstruction};
use crate::property::PropertyInstruction;
use crate::render::RenderInstruction;

verus! {

/// Raising one kind in a join never lowers the join, and a join with an
/// intrinsic floor never falls below that floor.
pub proof fn lemma_join_monotone(s: Seq<ComputeKind>, i: int, k: ComputeKind, floor: ComputeKind)
    requires
        0 <= i < s.len(),
        s[i].le(k),
    ensures
        kind_max_all(s).le(kind_max_all(s.update(i, k))),
        kind_max(floor, kind_max_all(s)).le(kind_max(floor, kind_max_all(s.update(i, k)))),
        floor.le(kind_max(floor, kind_max_all(s.update(i, k)))),
    decreases s.len(),
{
    let t = s.update(i, k);
    if i == s.len() - 1 {
        assert(t.drop_last() =~= s.drop_last());
    } else {
        assert(t.drop_last() =~= s.drop_last().update(i, k));
        lemma_join_monotone(s.drop_last(), i, k, floor);
    }
}

/// Every element of a sequence is below its join.
pub proof fn lemma_join_upper_bound(s: Seq<ComputeKind>, i: int)
    requires
        0 <= i < s.len(),
    ensures
        s[i].le(kind_max_all(s)),
    decreases s.len(),
{
    if i < s.len() - 1 {
        assert(s.drop_last()[i] == s[i]);
        lemma_join_upper_bound(s.drop_last(), i);
    }
}

/// The empty join is `Computational`, and `Computational` is the identity of
/// the join.
pub proof fn lemma_empty_join(k: ComputeKind)
    ensures
        kind_max_all(Seq::empty()) == ComputeKind::Computational,
        kind_max(ComputeKind::Computational, k) == k,
        kind_max(k, ComputeKind::Computational) == k,
{
}

/// A block with no instructions is `Computational`, whatever the context.
pub proof fn lemma_empty_block(a: AST, bs: Seq<Binding>, act: Seq<bool>, b: BlockId)
    requires
        b < a.blocks@.len(),
        a.blocks@[b as int].instructions@.len() == 0,
    ensures
        block_kind(a, bs, act, b as int) == ComputeKind::Computational,
{
}

/// Render instructions are `Graphical` and suspending control flow is
/// `Reactive`, whatever their operands.
pub proof fn lemma_intrinsic_floors(
    a: AST,
    bs: Seq<Binding>,
    act: Seq<bool>,
    r: RenderInstruction,
    c: ControlFlowInstruction,
    b: BlockId,
)
    ensures
        instr_kind(a, bs, act, Instruction::Render(r), b as int) == ComputeKind::Graphical,
        (c is BroadCast || c is Wait || c is AskAndWait || c is Stop || c is CreateClone
            || c is DeleteSelf) ==> instr_kind(a, bs, act, Instruction::ControlFlow(c), b as int)
            == ComputeKind::Reactive,
{
}

/// The user name and costume or backdrop lookups are `Computational`; every
/// other property that is not a stage property is `Graphical`.
pub proof fn lemma_property_overrides(p: PropertyInstruction)
    ensures
        (p is UserName || p is Named) ==> p.kind() == ComputeKind::Computational,
        !(p is UserName || p is Named || p is Stage) ==> p.kind() == ComputeKind::Graphical,
{
}

/// A branch is the join of its two blocks, and an empty `else` block leaves
/// the `if` block's kind as it is; a loop has its body's kind.
pub proof fn lemma_branch_join(
    a: AST,
    bs: Seq<Binding>,
    act: Seq<bool>,
    if_block: BlockId,
    else_block: BlockId,
    b: BlockId,
)
    requires
        if_block < b,
        else_block < b,
        else_block < a.blocks@.len(),
    ensures
        instr_kind(
            a,
            bs,
            act,
            Instruction::ControlFlow(ControlFlowInstruction::Branch { if_block, else_block }),
            b as int,
        ) == kind_max(block_kind(a, bs, act, if_block as int), block_kind(a, bs, act, else_block as int)),
        instr_kind(a, bs, act, Instruction::ControlFlow(ControlFlowInstruction::While(if_block)), b as int)
            == block_kind(a, bs, act, if_block as int),
        a.blocks@[else_block as int].instructions@.len() == 0 ==> instr_kind(
            a,
            bs,
            act,
            Instruction::ControlFlow(ControlFlowInstruction::Branch { if_block, else_block }),
            b as int,
        ) == block_kind(a, bs, act, if_block as int),
{
}

/// Appending an instruction to a block gives the join of the block's kind
/// and the instruction's kind.
pub proof fn lemma_block_append(a: AST, bs: Seq<Binding>, act: Seq<bool>, b: BlockId, k: int)
    requires
        b < a.blocks@.len(),
        0 <= k < a.blocks@[b as int].instructions@.len(),
    ensures
        block_prefix_kind(a, bs, act, b as int, k + 1) == kind_max(
            block_prefix_kind(a, bs, act, b as int, k),
            instr_kind(a, bs, act, a.blocks@[b as int].instructions@[k], b as int),
        ),
{
}

/// A call of a custom block whose body only reads its one parameter has the
/// kind of its argument: the same custom block classifies differently at
/// call sites with arguments of different kinds.
pub proof fn lemma_parameter_substitution(a: AST, bs: Seq<Binding>, act: Seq<bool>, v: ValueId, p: VarId)
    requires
        a.wf(),
        act.len() == a.functions@.len(),
        v < a.values@.len(),
        a.values@[v as int] matches CallInstruction::Function(c) && {
            &&& !act[c.function as int]
            &&& a.functions@[c.function as int].params@ == seq![p]
            &&& a.blocks@[a.functions@[c.function as int].body as int].instructions@ == seq![
                Instruction::Get(GetInstruction::ReadWrite(ReadWriteInstruction::Variable(p))),
            ]
        },
    ensures
        a.values@[v as int] matches CallInstruction::Function(c) && value_kind(a, bs, act, v as int)
            == value_kind(a, bs, act, c.args@[0] as int),
{
    if let CallInstruction::Function(c) = a.values@[v as int] {
        assert(a.node_ok(a.values@[v as int], v as int));
        let f = c.function as int;
        assert(a.function_ok(a.functions@[f]));
        assert(c.args@[0] < v);
        let callee = a.functions@[f];
        let inner = crate::classify::arg_bindings(a, bs, act, callee.params@, c.args@, v as int, 1);
        assert(crate::classify::arg_bindings(a, bs, act, callee.params@, c.args@, v as int, 0)
            =~= Seq::<Binding>::empty());
        assert(inner[0] == Binding { var: p, kind: value_kind(a, bs, act, c.args@[0] as int) });
        assert(inner.drop_first() =~= Seq::<Binding>::empty());
        let act2 = act.update(f, true);
        let body = callee.body as int;
        assert(block_prefix_kind(a, inner, act2, body, 0) == ComputeKind::Computational);
        assert(call_kind(a, bs, act, c, v as int) == block_kind(a, inner, act2, body));
    }
}

/// `hi` binds the same parameters as `lo`, in the same order, each to a kind
/// at least as high.
pub open spec fn raises(lo: Seq<Binding>, hi: Seq<Binding>) -> bool {
    &&& lo.len() == hi.len()
    &&& forall|i: int| 0 <= i < lo.len() ==> (#[trigger] lo[i]).var == hi[i].var && lo[i].kind.le(hi[i].kind)
}

proof fn lemma_lookup_raises(lo: Seq<Binding>, hi: Seq<Binding>, v: VarId)
    requires
        raises(lo, hi),
    ensures
        lookup(lo, v) is None <==> lookup(hi, v) is None,
        lookup(lo, v) matches Some(k) ==> lookup(hi, v) matches Some(k2) && k.le(k2),
    decreases lo.len(),
{
    if lo.len() > 0 {
        assert(lo[0].var == hi[0].var && lo[0].kind.le(hi[0].kind));
        assert forall|i: int| 0 <= i < lo.drop_first().len() implies (#[trigger] lo.drop_first()[i]).var
            == hi.drop_first()[i].var && lo.drop_first()[i].kind.le(hi.drop_first()[i].kind) by {
            assert(lo.drop_first()[i] == lo[i + 1]);
            assert(hi.drop_first()[i] == hi[i + 1]);
        }
        lemma_lookup_raises(lo.drop_first(), hi.drop_first(), v);
    }
}

proof fn lemma_rw_raises(lo: Seq<Binding>, hi: Seq<Binding>, rw: ReadWriteInstruction)
    requires
        raises(lo, hi),
    ensures
        rw_kind(lo, rw).le(rw_kind(hi, rw)),
{
    if let ReadWriteInstruction::Variable(v) = rw {
        lemma_lookup_raises(lo, hi, v);
    }
}

proof fn lemma_value_raises(a: AST, lo: Seq<Binding>, hi: Seq<Binding>, act: Seq<bool>, v: int)
    requires
        raises(lo, hi),
    ensures
        value_kind(a, lo, act, v).le(value_kind(a, hi, act, v)),
    decreases idle_count(act), 0int, v, 3int, 0int,
{
    if 0 <= v < a.values@.len() {
        match a.values@[v] {
            CallInstruction::Id(g) => lemma_get_raises(a, lo, hi, act, g, v),
            CallInstruction::UnaryOp { op: _, value } => {
                if value < v {
                    lemma_value_raises(a, lo, hi, act, value as int);
                }
            },
            CallInstruction::BinaryOp { op: _, left, right } => {
                if left < v && right < v {
                    lemma_value_raises(a, lo, hi, act, left as int);
                    lemma_value_raises(a, lo, hi, act, right as int);
                }
            },
            CallInstruction::Function(c) => lemma_call_raises(a, lo, hi, act, c, v),
        }
    }
}

proof fn lemma_operand_raises(a: AST, lo: Seq<Binding>, hi: Seq<Binding>, act: Seq<bool>, x: ValueId, bound: int)
    requires
        raises(lo, hi),
    ensures
        operand_kind(a, lo, act, x, bound).le(operand_kind(a, hi, act, x, bound)),
    decreases idle_count(act), 0int, bound, 0int, 0int,
{
    if x < bound {
        lemma_value_raises(a, lo, hi, act, x as int);
    }
}

proof fn lemma_get_raises(a: AST, lo: Seq<Binding>, hi: Seq<Binding>, act: Seq<bool>, g: GetInstruction, bound: int)
    requires
        raises(lo, hi),
    ensures
        get_kind(a, lo, act, g, bound).le(get_kind(a, hi, act, g, bound)),
    decreases idle_count(act), 0int, bound, 2int, 0int,
{
    match g {
        GetInstruction::Constant(_) => {},
        GetInstruction::ReadWrite(rw) => lemma_rw_raises(lo, hi, rw),
        GetInstruction::Element(op, l) => {
            lemma_returning_raises(a, lo, hi, act, op, bound);
            lemma_operand_raises(a, lo, hi, act, l, bound);
        },
    }
}

proof fn lemma_returning_raises(
    a: AST,
    lo: Seq<Binding>,
    hi: Seq<Binding>,
    act: Seq<bool>,
    op: ReturningListInstruction,
    bound: int,
)
    requires
        raises(lo, hi),
    ensures
        returning_kind(a, lo, act, op, bound).le(returning_kind(a, hi, act, op, bound)),
    decreases idle_count(act), 0int, bound, 1int, 0int,
{
    match op {
        ReturningListInstruction::Get(x) => lemma_operand_raises(a, lo, hi, act, x, bound),
        ReturningListInstruction::Find(x) => lemma_operand_raises(a, lo, hi, act, x, bound),
        ReturningListInstruction::Contains(x) => lemma_operand_raises(a, lo, hi, act, x, bound),
        ReturningListInstruction::ContainsSeq(x) => lemma_operand_raises(a, lo, hi, act, x, bound),
        ReturningListInstruction::Concat(x) => lemma_operand_raises(a, lo, hi, act, x, bound),
        _ => {},
    }
}

proof fn lemma_void_raises(
    a: AST,
    lo: Seq<Binding>,
    hi: Seq<Binding>,
    act: Seq<bool>,
    op: VoidListInstruction,
    bound: int,
)
    requires
        raises(lo, hi),
    ensures
        void_kind(a, lo, act, op, bound).le(void_kind(a, hi, act, op, bound)),
    decreases idle_count(act), 0int, bound, 1int, 0int,
{
    match op {
        VoidListInstruction::Replace(i, x) => {
            lemma_operand_raises(a, lo, hi, act, i, bound);
            lemma_operand_raises(a, lo, hi, act, x, bound);
        },
        VoidListInstruction::Insert(i, x) => {
            lemma_operand_raises(a, lo, hi, act, i, bound);
            lemma_operand_raises(a, lo, hi, act, x, bound);
        },
        VoidListInstruction::Remove(i) => lemma_operand_raises(a, lo, hi, act, i, bound),
        VoidListInstruction::Push(x, _) => lemma_operand_raises(a, lo, hi, act, x, bound),
        VoidListInstruction::Clear() => {},
    }
}

proof fn lemma_list_raises(a: AST, lo: Seq<Binding>, hi: Seq<Binding>, act: Seq<bool>, op: ListInstruction, bound: int)
    requires
        raises(lo, hi),
    ensures
        list_kind(a, lo, act, op, bound).le(list_kind(a, hi, act, op, bound)),
    decreases idle_count(act), 0int, bound, 2int, 0int,
{
    match op {
        ListInstruction::Void(o) => lemma_void_raises(a, lo, hi, act, o, bound),
        ListInstruction::Returning(o) => lemma_returning_raises(a, lo, hi, act, o, bound),
    }
}

proof fn lemma_args_raise(
    a: AST,
    lo: Seq<Binding>,
    hi: Seq<Binding>,
    act: Seq<bool>,
    params: Seq<VarId>,
    args: Seq<ValueId>,
    bound: int,
    n: int,
)
    requires
        raises(lo, hi),
    ensures
        raises(
            arg_bindings(a, lo, act, params, args, bound, n),
            arg_bindings(a, hi, act, params, args, bound, n),
        ),
    decreases idle_count(act), 0int, bound, 1int, n,
{
    if 0 < n <= args.len() && n <= params.len() {
        lemma_args_raise(a, lo, hi, act, params, args, bound, n - 1);
        lemma_operand_raises(a, lo, hi, act, args[n - 1], bound);
        let l = arg_bindings(a, lo, act, params, args, bound, n);
        let h = arg_bindings(a, hi, act, params, args, bound, n);
        let l0 = arg_bindings(a, lo, act, params, args, bound, n - 1);
        let h0 = arg_bindings(a, hi, act, params, args, bound, n - 1);
        assert forall|i: int| 0 <= i < l.len() implies (#[trigger] l[i]).var == h[i].var && l[i].kind.le(
            h[i].kind,
        ) by {
            if i < l0.len() {
                assert(l[i] == l0[i]);
                assert(h[i] == h0[i]);
            }
        }
    }
}

proof fn lemma_call_raises(
    a: AST,
    lo: Seq<Binding>,
    hi: Seq<Binding>,
    act: Seq<bool>,
    c: FunctionCallInstruction,
    bound: int,
)
    requires
        raises(lo, hi),
    ensures
        call_kind(a, lo, act, c, bound).le(call_kind(a, hi, act, c, bound)),
    decreases idle_count(act), 0int, bound, 2int, 0int,
{
    let f = c.function as int;
    if f < a.functions@.len() && f < act.len() && !act[f] {
        let callee = a.functions@[f];
        let n = c.args@.len() as int;
        lemma_args_raise(a, lo, hi, act, callee.params@, c.args@, bound, n);
        lemma_activate(act, f);
        lemma_block_raises(
            a,
            arg_bindings(a, lo, act, callee.params@, c.args@, bound, n),
            arg_bindings(a, hi, act, callee.params@, c.args@, bound, n),
            act.update(f, true),
            callee.body as int,
        );
    }
}

proof fn lemma_prefix_raises(a: AST, lo: Seq<Binding>, hi: Seq<Binding>, act: Seq<bool>, b: int, k: int)
    requires
        raises(lo, hi),
    ensures
        block_prefix_kind(a, lo, act, b, k).le(block_prefix_kind(a, hi, act, b, k)),
    decreases idle_count(act), 1int, b, 1int, k,
{
    if 0 <= b < a.blocks@.len() && 0 < k <= a.blocks@[b].instructions@.len() {
        lemma_prefix_raises(a, lo, hi, act, b, k - 1);
        lemma_instr_raises(a, lo, hi, act, a.blocks@[b].instructions@[k - 1], b);
    }
}

proof fn lemma_block_raises(a: AST, lo: Seq<Binding>, hi: Seq<Binding>, act: Seq<bool>, b: int)
    requires
        raises(lo, hi),
    ensures
        block_kind(a, lo, act, b).le(block_kind(a, hi, act, b)),
    decreases idle_count(act), 1int, b, 2int, 0int,
{
    if 0 <= b < a.blocks@.len() {
        lemma_prefix_raises(a, lo, hi, act, b, a.blocks@[b].instructions@.len() as int);
    }
}

proof fn lemma_nested_raises(a: AST, lo: Seq<Binding>, hi: Seq<Binding>, act: Seq<bool>, x: BlockId, b: int)
    requires
        raises(lo, hi),
    ensures
        nested_kind(a, lo, act, x, b).le(nested_kind(a, hi, act, x, b)),
    decreases idle_count(act), 1int, b, 0int, 0int,
{
    if x < b {
        lemma_block_raises(a, lo, hi, act, x as int);
    }
}

proof fn lemma_control_raises(
    a: AST,
    lo: Seq<Binding>,
    hi: Seq<Binding>,
    act: Seq<bool>,
    c: ControlFlowInstruction,
    b: int,
)
    requires
        raises(lo, hi),
    ensures
        control_kind(a, lo, act, c, b).le(control_kind(a, hi, act, c, b)),
    decreases idle_count(act), 1int, b, 0int, 1int,
{
    match c {
        ControlFlowInstruction::Branch { if_block, else_block } => {
            lemma_nested_raises(a, lo, hi, act, if_block, b);
            lemma_nested_raises(a, lo, hi, act, else_block, b);
        },
        ControlFlowInstruction::While(x) => lemma_nested_raises(a, lo, hi, act, x, b),
        _ => {},
    }
}

proof fn lemma_instr_raises(a: AST, lo: Seq<Binding>, hi: Seq<Binding>, act: Seq<bool>, i: Instruction, b: int)
    requires
        raises(lo, hi),
    ensures
        instr_kind(a, lo, act, i, b).le(instr_kind(a, hi, act, i, b)),
    decreases idle_count(act), 1int, b, 0int, 2int,
{
    let n = a.values@.len() as int;
    match i {
        Instruction::Op(x) => lemma_value_raises(a, lo, hi, act, x as int),
        Instruction::Get(g) => lemma_get_raises(a, lo, hi, act, g, n),
        Instruction::Assign(s) => {
            lemma_rw_raises(lo, hi, s.property);
            lemma_value_raises(a, lo, hi, act, s.value as int);
        },
        Instruction::List(op, l) => {
            lemma_list_raises(a, lo, hi, act, op, n);
            lemma_value_raises(a, lo, hi, act, l as int);
        },
        Instruction::ControlFlow(c) => lemma_control_raises(a, lo, hi, act, c, b),
        Instruction::Render(_) => {},
    }
}

/// Raising the kinds plugged into parameters never lowers a classification:
/// every node and every block classifies at least as high when each
/// parameter is bound to a kind at least as high. In particular, replacing
/// the arguments of a call with arguments of higher kinds never lowers the
/// call's kind.
pub proof fn lemma_monotone(a: AST, lo: Seq<Binding>, hi: Seq<Binding>, act: Seq<bool>, v: ValueId, b: BlockId)
    requires
        raises(lo, hi),
    ensures
        value_kind(a, lo, act, v as int).le(value_kind(a, hi, act, v as int)),
        block_kind(a, lo, act, b as int).le(block_kind(a, hi, act, b as int)),
{
    lemma_value_raises(a, lo, hi, act, v as int);
    lemma_block_raises(a, lo, hi, act, b as int);
}

} // verus!

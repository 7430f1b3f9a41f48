//! Building an arena: every construction keeps it well formed and records
//! each read and write on the variable or list it touches.
use vstd::prelude::*;
use crate::ast::{AST, Block, Event, Function, List, Program, Scope, Script, Sprite, SpriteScripts, Variable};
use crate::ids::{BlockId, FuncId, ListId, SpriteId, ValueId, VarId};
use crate::instruction::{
    CallInstruction, Constant, FunctionCallInstruction, GetInstruction, Instruction,
    ReadWriteInstruction, SetInstruction,
};
use crate::list::{ListInstruction, VoidListInstruction};
use crate::operator::{BinaryOp, MathOp, UnaryOp};

verus! {

/// Why an instruction could not be built.
#[derive(Clone, Copy, Debug, PartialEq, Eq, Structural)]
pub enum BuildError {
    /// A call passes `found` arguments to a custom block with `expected`
    /// parameters.
    ArityMismatch { expected: usize, found: usize },
}

/// The node reads variable `v` as a whole.
pub open spec fn reads_variable(n: CallInstruction, v: VarId) -> bool {
    n == CallInstruction::Id(GetInstruction::ReadWrite(ReadWriteInstruction::Variable(v)))
}

/// The node reads list `l` as a whole.
pub open spec fn reads_list(n: CallInstruction, l: ListId) -> bool {
    n == CallInstruction::Id(GetInstruction::ReadWrite(ReadWriteInstruction::List(l)))
}

/// The node, placed after `before`, reads an element of the list that node
/// of `before` reads as a whole.
pub open spec fn reads_element(before: Seq<CallInstruction>, n: CallInstruction, l: ListId) -> bool {
    match n {
        CallInstruction::Id(GetInstruction::Element(_, x)) => x < before.len() && reads_list(
            before[x as int],
            l,
        ),
        _ => false,
    }
}

/// The nodes that read variable `v`, in the order they were built.
pub open spec fn variable_readers(values: Seq<CallInstruction>, v: VarId) -> Seq<ValueId>
    decreases values.len(),
{
    if values.len() == 0 {
        Seq::empty()
    } else {
        let rest = variable_readers(values.drop_last(), v);
        if reads_variable(values.last(), v) {
            rest.push((values.len() - 1) as usize)
        } else {
            rest
        }
    }
}

/// The nodes that read list `l` as a whole, in the order they were built.
pub open spec fn list_readers(values: Seq<CallInstruction>, l: ListId) -> Seq<ValueId>
    decreases values.len(),
{
    if values.len() == 0 {
        Seq::empty()
    } else {
        let rest = list_readers(values.drop_last(), l);
        if reads_list(values.last(), l) {
            rest.push((values.len() - 1) as usize)
        } else {
            rest
        }
    }
}

/// The nodes that read an element of list `l`, in the order they were built.
pub open spec fn element_readers(values: Seq<CallInstruction>, l: ListId) -> Seq<ValueId>
    decreases values.len(),
{
    if values.len() == 0 {
        Seq::empty()
    } else {
        let rest = element_readers(values.drop_last(), l);
        if reads_element(values.drop_last(), values.last(), l) {
            rest.push((values.len() - 1) as usize)
        } else {
            rest
        }
    }
}

/// The value that a list operation stores into one slot of its list.
pub open spec fn stored_value(op: ListInstruction) -> Option<ValueId> {
    match op {
        ListInstruction::Void(VoidListInstruction::Replace(_, x)) => Some(x),
        ListInstruction::Void(VoidListInstruction::Insert(_, x)) => Some(x),
        ListInstruction::Void(VoidListInstruction::Push(x, _)) => Some(x),
        _ => None,
    }
}

impl AST {
    /// The read lists hold exactly the nodes that read each variable and
    /// list, in construction order.
    pub open spec fn tracks_reads(self) -> bool {
        &&& forall|v: usize| v < self.variables@.len() ==> (#[trigger] self.variables@[v as int]).reads@
            == variable_readers(self.values@, v)
        &&& forall|l: usize| l < self.lists@.len() ==> (#[trigger] self.lists@[l as int]).variable.reads@
            == list_readers(self.values@, l)
        &&& forall|l: usize| l < self.lists@.len() ==> (#[trigger] self.lists@[l as int]).element_reads@
            == element_readers(self.values@, l)
    }

    /// `self` is `a` with node `r`, that is `n`, recorded on what it reads.
    pub open spec fn records_read(self, a: AST, n: CallInstruction, r: ValueId) -> bool {
        &&& self.variables@.len() == a.variables@.len()
        &&& self.lists@.len() == a.lists@.len()
        &&& forall|v: usize| v < a.variables@.len() ==> (#[trigger] self.variables@[v as int]).reads@
            == if reads_variable(n, v) {
            a.variables@[v as int].reads@.push(r)
        } else {
            a.variables@[v as int].reads@
        }
        &&& forall|l: usize| l < a.lists@.len() ==> (#[trigger] self.lists@[l as int]).variable.reads@
            == if reads_list(n, l) {
            a.lists@[l as int].variable.reads@.push(r)
        } else {
            a.lists@[l as int].variable.reads@
        }
        &&& forall|l: usize| l < a.lists@.len() ==> (#[trigger] self.lists@[l as int]).element_reads@
            == if reads_element(a.values@, n, l) {
            a.lists@[l as int].element_reads@.push(r)
        } else {
            a.lists@[l as int].element_reads@
        }
    }

    /// Well formed, with complete read tracking.
    pub open spec fn well_built(self) -> bool {
        self.wf() && self.tracks_reads()
    }

    /// `self` is `old` with more nodes or entities, the existing ones
    /// unchanged but for the read and write lists.
    pub open spec fn grows_from(self, old: AST) -> bool {
        &&& old.values@.len() <= self.values@.len()
        &&& forall|i: int| 0 <= i < old.values@.len() ==> #[trigger] self.values@[i] == old.values@[i]
        &&& old.blocks@.len() <= self.blocks@.len()
        &&& forall|i: int| 0 <= i < old.blocks@.len() ==> #[trigger] self.blocks@[i] == old.blocks@[i]
        &&& old.variables@.len() <= self.variables@.len()
        &&& old.lists@.len() <= self.lists@.len()
        &&& old.functions@.len() <= self.functions@.len()
        &&& forall|f: int| 0 <= f < old.functions@.len() ==> (#[trigger] self.functions@[f]).params@
            == old.functions@[f].params@
    }

    /// Names, initial values and write lists are as in `old`.
    pub open spec fn same_writes(self, old: AST) -> bool {
        &&& self.variables@.len() == old.variables@.len()
        &&& self.lists@.len() == old.lists@.len()
        &&& forall|v: int| 0 <= v < old.variables@.len() ==> {
            &&& (#[trigger] self.variables@[v]).name == old.variables@[v].name
            &&& self.variables@[v].value == old.variables@[v].value
            &&& self.variables@[v].writes == old.variables@[v].writes
        }
        &&& forall|l: int| 0 <= l < old.lists@.len() ==> {
            &&& (#[trigger] self.lists@[l]).variable.name == old.lists@[l].variable.name
            &&& self.lists@[l].variable.value == old.lists@[l].variable.value
            &&& self.lists@[l].variable.writes == old.lists@[l].variable.writes
            &&& self.lists@[l].element_writes == old.lists@[l].element_writes
        }
    }
}

proof fn lemma_node_ok_grows(a: AST, a2: AST, n: CallInstruction, v: int)
    requires
        a.wf(),
        a2.grows_from(a),
        a.node_ok(n, v),
    ensures
        a2.node_ok(n, v),
{
    if let CallInstruction::Function(c) = n {
        assert(a.function_ok(a.functions@[c.function as int]));
        assert(a2.functions@[c.function as int].params@ == a.functions@[c.function as int].params@);
    }
}

proof fn lemma_instr_ok_grows(a: AST, a2: AST, i: Instruction, b: int)
    requires
        a2.grows_from(a),
        a.instr_ok(i, b),
    ensures
        a2.instr_ok(i, b),
{
}

/// What `a2` adds to `a` is well formed, so `a2` is.
proof fn lemma_grows_wf(a: AST, a2: AST)
    requires
        a.wf(),
        a2.grows_from(a),
        forall|v: int| a.values@.len() <= v < a2.values@.len() ==> a2.node_ok(#[trigger] a2.values@[v], v),
        forall|b: int, k: int|
            a.blocks@.len() <= b < a2.blocks@.len() && 0 <= k < a2.blocks@[b].instructions@.len()
                ==> a2.instr_ok(#[trigger] a2.blocks@[b].instructions@[k], b),
        forall|f: int| 0 <= f < a2.functions@.len() ==> a2.function_ok(#[trigger] a2.functions@[f]),
    ensures
        a2.wf(),
{
    assert forall|v: int| 0 <= v < a2.values@.len() implies a2.node_ok(#[trigger] a2.values@[v], v) by {
        if v < a.values@.len() {
            assert(a.node_ok(a.values@[v], v));
            lemma_node_ok_grows(a, a2, a.values@[v], v);
        }
    }
    assert forall|b: int, k: int|
        0 <= b < a2.blocks@.len() && 0 <= k < a2.blocks@[b].instructions@.len() implies a2.instr_ok(
        #[trigger] a2.blocks@[b].instructions@[k],
        b,
    ) by {
        if b < a.blocks@.len() {
            assert(a.instr_ok(a.blocks@[b].instructions@[k], b));
            lemma_instr_ok_grows(a, a2, a.blocks@[b].instructions@[k], b);
        }
    }
}

/// Appending node `n` adds its position to the readers of what it reads,
/// and to no others.
proof fn lemma_readers_push(values: Seq<CallInstruction>, n: CallInstruction, v: VarId)
    ensures
        variable_readers(values.push(n), v) == if reads_variable(n, v) {
            variable_readers(values, v).push(values.len() as usize)
        } else {
            variable_readers(values, v)
        },
        list_readers(values.push(n), v) == if reads_list(n, v) {
            list_readers(values, v).push(values.len() as usize)
        } else {
            list_readers(values, v)
        },
        element_readers(values.push(n), v) == if reads_element(values, n, v) {
            element_readers(values, v).push(values.len() as usize)
        } else {
            element_readers(values, v)
        },
{
    assert(values.push(n).drop_last() =~= values);
}

impl AST {
    /// An arena with nothing in it.
    pub fn new() -> (r: AST)
        ensures
            r.well_built(),
            r.values@.len() == 0,
            r.blocks@.len() == 0,
            r.variables@.len() == 0,
            r.lists@.len() == 0,
            r.functions@.len() == 0,
            r.program.sprite_scripts@.len() == 0,
    {
        AST {
            values: Vec::new(),
            blocks: Vec::new(),
            variables: Vec::new(),
            lists: Vec::new(),
            functions: Vec::new(),
            program: Program {
                globals: Scope { variables: Vec::new(), lists: Vec::new() },
                sprite_scripts: Vec::new(),
            },
        }
    }

    /// Appends an expression node, recording it on what it reads.
    fn push_node(&mut self, n: CallInstruction) -> (r: ValueId)
        requires
            old(self).well_built(),
            old(self).node_ok(n, old(self).values@.len() as int),
        ensures
            final(self).well_built(),
            final(self).grows_from(*old(self)),
            final(self).same_writes(*old(self)),
            r == old(self).values@.len(),
            final(self).values@ == old(self).values@.push(n),
            final(self).blocks == old(self).blocks,
            final(self).functions == old(self).functions,
            final(self).program == old(self).program,
    {
        let r = self.values.len();
        let ghost a = *self;
        let element_of: Option<ListId> = match &n {
            CallInstruction::Id(GetInstruction::Element(_, x)) => {
                assert(a.node_ok(a.values@[*x as int], *x as int));
                match &self.values[*x] {
                    CallInstruction::Id(GetInstruction::ReadWrite(ReadWriteInstruction::List(l))) => Some(*l),
                    _ => None,
                }
            },
            _ => None,
        };
        match &n {
            CallInstruction::Id(GetInstruction::ReadWrite(ReadWriteInstruction::Variable(v))) => {
                self.variables[*v].reads.push(r);
            },
            CallInstruction::Id(GetInstruction::ReadWrite(ReadWriteInstruction::List(l))) => {
                self.lists[*l].variable.reads.push(r);
            },
            _ => {
                if let Some(l) = element_of {
                    self.lists[l].element_reads.push(r);
                }
            },
        }
        assert(self.records_read(a, n, r));
        self.values.push(n);
        proof {
            lemma_grows_wf(a, *self);
            assert forall|v: usize| v < self.variables@.len() implies (
            #[trigger] self.variables@[v as int]).reads@ == variable_readers(self.values@, v) by {
                lemma_readers_push(a.values@, n, v);
            }
            assert forall|l: usize| l < self.lists@.len() implies (
            #[trigger] self.lists@[l as int]).variable.reads@ == list_readers(self.values@, l)
                && self.lists@[l as int].element_reads@ == element_readers(self.values@, l) by {
                lemma_readers_push(a.values@, n, l);
            }
        }
        r
    }
}

/// Nodes none of which reads variable `v` have no readers of it.
proof fn lemma_no_variable_readers(values: Seq<CallInstruction>, v: usize)
    requires
        forall|i: int| 0 <= i < values.len() ==> !reads_variable(#[trigger] values[i], v),
    ensures
        variable_readers(values, v) == Seq::<ValueId>::empty(),
    decreases values.len(),
{
    if values.len() > 0 {
        let pre = values.drop_last();
        assert(values.last() == values[values.len() - 1]);
        assert forall|i: int| 0 <= i < pre.len() implies !reads_variable(#[trigger] pre[i], v) by {
            assert(pre[i] == values[i]);
        }
        lemma_no_variable_readers(pre, v);
    }
}

/// Nodes none of which reads list `l` as a whole have no readers of it,
/// whole or by element.
proof fn lemma_no_list_readers(values: Seq<CallInstruction>, l: usize)
    requires
        forall|i: int| 0 <= i < values.len() ==> !reads_list(#[trigger] values[i], l),
    ensures
        list_readers(values, l) == Seq::<ValueId>::empty(),
        element_readers(values, l) == Seq::<ValueId>::empty(),
    decreases values.len(),
{
    if values.len() > 0 {
        let pre = values.drop_last();
        assert(values.last() == values[values.len() - 1]);
        assert forall|i: int| 0 <= i < pre.len() implies !reads_list(#[trigger] pre[i], l) by {
            assert(pre[i] == values[i]);
        }
        lemma_no_list_readers(pre, l);
        if let CallInstruction::Id(GetInstruction::Element(_, x)) = values.last() {
            if x < pre.len() {
                assert(pre[x as int] == values[x as int]);
            }
        }
    }
}

impl AST {
    /// The expression node that performs `get`.
    pub fn id(&mut self, get: GetInstruction) -> (r: ValueId)
        requires
            old(self).well_built(),
            old(self).get_ok(get, old(self).values@.len() as int),
        ensures
            final(self).well_built(),
            final(self).grows_from(*old(self)),
            final(self).same_writes(*old(self)),
            r == old(self).values@.len(),
            final(self).values@ == old(self).values@.push(CallInstruction::Id(get)),
            final(self).blocks == old(self).blocks,
            final(self).functions == old(self).functions,
            final(self).program == old(self).program,
    {
        self.push_node(CallInstruction::Id(get))
    }

    /// The node that applies `op` to `value`.
    pub fn op1(&mut self, op: UnaryOp, value: ValueId) -> (r: ValueId)
        requires
            old(self).well_built(),
            value < old(self).values@.len(),
        ensures
            final(self).well_built(),
            final(self).grows_from(*old(self)),
            final(self).same_writes(*old(self)),
            r == old(self).values@.len(),
            final(self).values@ == old(self).values@.push(CallInstruction::UnaryOp { op, value }),
            final(self).blocks == old(self).blocks,
            final(self).functions == old(self).functions,
            final(self).program == old(self).program,
    {
        self.push_node(CallInstruction::UnaryOp { op, value })
    }

    /// The node that applies `op` to `left` and `right`.
    pub fn op2(&mut self, op: BinaryOp, left: ValueId, right: ValueId) -> (r: ValueId)
        requires
            old(self).well_built(),
            left < old(self).values@.len(),
            right < old(self).values@.len(),
        ensures
            final(self).well_built(),
            final(self).grows_from(*old(self)),
            final(self).same_writes(*old(self)),
            r == old(self).values@.len(),
            final(self).values@ == old(self).values@.push(CallInstruction::BinaryOp { op, left, right }),
            final(self).blocks == old(self).blocks,
            final(self).functions == old(self).functions,
            final(self).program == old(self).program,
    {
        self.push_node(CallInstruction::BinaryOp { op, left, right })
    }

    /// The node that reads `readable`, recorded on the variable or list it
    /// reads.
    pub fn get(&mut self, readable: ReadWriteInstruction) -> (r: ValueId)
        requires
            old(self).well_built(),
            old(self).rw_ok(readable, old(self).values@.len() as int),
        ensures
            final(self).well_built(),
            final(self).grows_from(*old(self)),
            final(self).same_writes(*old(self)),
            r == old(self).values@.len(),
            final(self).values@ == old(self).values@.push(
                CallInstruction::Id(GetInstruction::ReadWrite(readable)),
            ),
            final(self).blocks == old(self).blocks,
            final(self).functions == old(self).functions,
            final(self).program == old(self).program,
    {
        self.id(GetInstruction::ReadWrite(readable))
    }

    /// The node that calls custom block `function` with `args`. A call whose
    /// argument count differs from the parameter count is refused, and the
    /// arena is left as it was.
    pub fn call(&mut self, function: FuncId, args: Vec<ValueId>) -> (r: Result<ValueId, BuildError>)
        requires
            old(self).well_built(),
            function < old(self).functions@.len(),
            forall|i: int| 0 <= i < args@.len() ==> #[trigger] args@[i] < old(self).values@.len(),
        ensures
            final(self).well_built(),
            final(self).grows_from(*old(self)),
            final(self).same_writes(*old(self)),
            final(self).blocks == old(self).blocks,
            final(self).functions == old(self).functions,
            final(self).program == old(self).program,
            args@.len() != old(self).functions@[function as int].params@.len() ==> {
                &&& r == Err::<ValueId, BuildError>(
                    BuildError::ArityMismatch {
                        expected: old(self).functions@[function as int].params@.len() as usize,
                        found: args@.len() as usize,
                    },
                )
                &&& *final(self) == *old(self)
            },
            args@.len() == old(self).functions@[function as int].params@.len() ==> {
                &&& r == Ok::<ValueId, BuildError>(old(self).values@.len() as usize)
                &&& final(self).values@ == old(self).values@.push(
                    CallInstruction::Function(FunctionCallInstruction { function, args }),
                )
            },
    {
        let expected = self.functions[function].params.len();
        if args.len() != expected {
            return Err(BuildError::ArityMismatch { expected, found: args.len() });
        }
        let r = self.push_node(CallInstruction::Function(FunctionCallInstruction { function, args }));
        Ok(r)
    }

    /// The write of `value` to `writable`, recorded on the variable or list
    /// it writes.
    pub fn set(&mut self, writable: ReadWriteInstruction, value: ValueId) -> (r: SetInstruction)
        requires
            old(self).well_built(),
            old(self).rw_ok(writable, old(self).values@.len() as int),
            value < old(self).values@.len(),
        ensures
            final(self).well_built(),
            r == (SetInstruction { property: writable, value }),
            final(self).values == old(self).values,
            final(self).blocks == old(self).blocks,
            final(self).functions == old(self).functions,
            final(self).program == old(self).program,
            final(self).variables@.len() == old(self).variables@.len(),
            final(self).lists@.len() == old(self).lists@.len(),
            forall|v: usize| v < old(self).variables@.len() ==> {
                &&& (#[trigger] final(self).variables@[v as int]).name == old(self).variables@[v as int].name
                &&& final(self).variables@[v as int].value == old(self).variables@[v as int].value
                &&& final(self).variables@[v as int].reads == old(self).variables@[v as int].reads
                &&& final(self).variables@[v as int].writes@ == if writable == ReadWriteInstruction::Variable(v) {
                    old(self).variables@[v as int].writes@.push(value)
                } else {
                    old(self).variables@[v as int].writes@
                }
            },
            forall|l: usize| l < old(self).lists@.len() ==> {
                &&& (#[trigger] final(self).lists@[l as int]).variable.name == old(self).lists@[l as int].variable.name
                &&& final(self).lists@[l as int].variable.value == old(self).lists@[l as int].variable.value
                &&& final(self).lists@[l as int].variable.reads == old(self).lists@[l as int].variable.reads
                &&& final(self).lists@[l as int].element_reads == old(self).lists@[l as int].element_reads
                &&& final(self).lists@[l as int].element_writes == old(self).lists@[l as int].element_writes
                &&& final(self).lists@[l as int].variable.writes@ == if writable == ReadWriteInstruction::List(l) {
                    old(self).lists@[l as int].variable.writes@.push(value)
                } else {
                    old(self).lists@[l as int].variable.writes@
                }
            },
    {
        let ghost a = *self;
        match writable {
            ReadWriteInstruction::Variable(v) => {
                self.variables[v].writes.push(value);
            },
            ReadWriteInstruction::List(l) => {
                self.lists[l].variable.writes.push(value);
            },
            ReadWriteInstruction::Property(_) => {},
        }
        proof {
            lemma_grows_wf(a, *self);
        }
        SetInstruction::new(writable, value)
    }

    /// `property = op(property, change)`: a read of `property`, the node
    /// combining it with `change`, and the write of that node.
    pub fn change_using(&mut self, op: BinaryOp, property: ReadWriteInstruction, change: ValueId) -> (r: SetInstruction)
        requires
            old(self).well_built(),
            old(self).rw_ok(property, old(self).values@.len() as int),
            change < old(self).values@.len(),
        ensures
            final(self).well_built(),
            final(self).values@ == old(self).values@.push(
                CallInstruction::Id(GetInstruction::ReadWrite(property)),
            ).push(
                CallInstruction::BinaryOp {
                    op,
                    left: old(self).values@.len() as usize,
                    right: change,
                },
            ),
            r == (SetInstruction { property, value: (old(self).values@.len() + 1) as usize }),
            final(self).blocks == old(self).blocks,
            final(self).functions == old(self).functions,
            final(self).program == old(self).program,
    {
        let current = self.get(property);
        let combined = self.op2(op, current, change);
        assert(self.rw_ok(property, self.values@.len() as int));
        self.set(property, combined)
    }

    /// `property = property + delta`.
    pub fn change_by(&mut self, property: ReadWriteInstruction, delta: ValueId) -> (r: SetInstruction)
        requires
            old(self).well_built(),
            old(self).rw_ok(property, old(self).values@.len() as int),
            delta < old(self).values@.len(),
        ensures
            final(self).well_built(),
            final(self).values@ == old(self).values@.push(
                CallInstruction::Id(GetInstruction::ReadWrite(property)),
            ).push(
                CallInstruction::BinaryOp {
                    op: BinaryOp::Math(MathOp::Add),
                    left: old(self).values@.len() as usize,
                    right: delta,
                },
            ),
            r == (SetInstruction { property, value: (old(self).values@.len() + 1) as usize }),
            final(self).blocks == old(self).blocks,
            final(self).functions == old(self).functions,
            final(self).program == old(self).program,
    {
        self.change_using(BinaryOp::add(), property, delta)
    }
}

impl AST {
    /// The list operation `op` on the list that `target` evaluates to. When
    /// `target` reads a list as a whole and `op` stores a value into one slot,
    /// that value is recorded on the list's element writes.
    pub fn list_instruction(&mut self, op: ListInstruction, target: ValueId) -> (r: Instruction)
        requires
            old(self).well_built(),
            AST::list_op_ok(op, old(self).values@.len() as int),
            target < old(self).values@.len(),
        ensures
            final(self).well_built(),
            r == Instruction::List(op, target),
            final(self).values == old(self).values,
            final(self).blocks == old(self).blocks,
            final(self).functions == old(self).functions,
            final(self).program == old(self).program,
            final(self).variables == old(self).variables,
            final(self).lists@.len() == old(self).lists@.len(),
            forall|l: usize| l < old(self).lists@.len() ==> {
                &&& (#[trigger] final(self).lists@[l as int]).variable == old(self).lists@[l as int].variable
                &&& final(self).lists@[l as int].element_reads == old(self).lists@[l as int].element_reads
                &&& final(self).lists@[l as int].element_writes@ == match stored_value(op) {
                    Some(x) => if reads_list(old(self).values@[target as int], l) {
                        old(self).lists@[l as int].element_writes@.push(x)
                    } else {
                        old(self).lists@[l as int].element_writes@
                    },
                    None => old(self).lists@[l as int].element_writes@,
                }
            },
    {
        let ghost a = *self;
        assert(a.node_ok(a.values@[target as int], target as int));
        let stored: Option<ValueId> = match op {
            ListInstruction::Void(VoidListInstruction::Replace(_, x)) => Some(x),
            ListInstruction::Void(VoidListInstruction::Insert(_, x)) => Some(x),
            ListInstruction::Void(VoidListInstruction::Push(x, _)) => Some(x),
            _ => None,
        };
        let list: Option<ListId> = match &self.values[target] {
            CallInstruction::Id(GetInstruction::ReadWrite(ReadWriteInstruction::List(l))) => Some(*l),
            _ => None,
        };
        if let Some(x) = stored {
            if let Some(l) = list {
                self.lists[l].element_writes.push(x);
            }
        }
        proof {
            lemma_grows_wf(a, *self);
        }
        Instruction::List(op, target)
    }

    /// A new block holding `instructions`.
    pub fn add_block(&mut self, instructions: Vec<Instruction>) -> (r: BlockId)
        requires
            old(self).well_built(),
            forall|k: int|
                0 <= k < instructions@.len() ==> old(self).instr_ok(
                    #[trigger] instructions@[k],
                    old(self).blocks@.len() as int,
                ),
        ensures
            final(self).well_built(),
            r == old(self).blocks@.len(),
            final(self).blocks@ == old(self).blocks@.push(Block { instructions }),
            final(self).values == old(self).values,
            final(self).variables == old(self).variables,
            final(self).lists == old(self).lists,
            final(self).functions == old(self).functions,
            final(self).program == old(self).program,
    {
        let ghost a = *self;
        let r = self.blocks.len();
        self.blocks.push(Block { instructions });
        proof {
            assert forall|b: int, k: int|
                a.blocks@.len() <= b < self.blocks@.len() && 0 <= k < self.blocks@[b].instructions@.len()
                    implies self.instr_ok(#[trigger] self.blocks@[b].instructions@[k], b) by {
                lemma_instr_ok_grows(a, *self, self.blocks@[b].instructions@[k], b);
            }
            assert forall|f: int| 0 <= f < self.functions@.len() implies self.function_ok(
                #[trigger] self.functions@[f],
            ) by {
                assert(a.function_ok(a.functions@[f]));
            }
            lemma_grows_wf(a, *self);
        }
        r
    }

    /// A new variable with initial value `value`, in no scope.
    pub fn add_variable(&mut self, name: String, value: Constant) -> (r: VarId)
        requires
            old(self).well_built(),
        ensures
            final(self).well_built(),
            r == old(self).variables@.len(),
            final(self).variables@.len() == old(self).variables@.len() + 1,
            forall|v: int| 0 <= v < old(self).variables@.len() ==> #[trigger] final(self).variables@[v]
                == old(self).variables@[v],
            final(self).variables@[r as int].name@ == name@,
            final(self).variables@[r as int].value == value,
            final(self).variables@[r as int].reads@.len() == 0,
            final(self).variables@[r as int].writes@.len() == 0,
            final(self).values == old(self).values,
            final(self).blocks == old(self).blocks,
            final(self).lists == old(self).lists,
            final(self).functions == old(self).functions,
            final(self).program == old(self).program,
    {
        let ghost a = *self;
        let r = self.variables.len();
        self.variables.push(Variable { name, value, reads: Vec::new(), writes: Vec::new() });
        proof {
            assert forall|i: int| 0 <= i < a.values@.len() implies !reads_variable(#[trigger] a.values@[i], r) by {
                assert(a.node_ok(a.values@[i], i));
            }
            lemma_no_variable_readers(a.values@, r);
            assert forall|f: int| 0 <= f < self.functions@.len() implies self.function_ok(
                #[trigger] self.functions@[f],
            ) by {
                assert(a.function_ok(a.functions@[f]));
            }
            lemma_grows_wf(a, *self);
        }
        r
    }

    /// A new list with initial value `value`, in no scope.
    pub fn add_list(&mut self, name: String, value: Constant) -> (r: ListId)
        requires
            old(self).well_built(),
        ensures
            final(self).well_built(),
            r == old(self).lists@.len(),
            final(self).lists@.len() == old(self).lists@.len() + 1,
            forall|l: int| 0 <= l < old(self).lists@.len() ==> #[trigger] final(self).lists@[l]
                == old(self).lists@[l],
            final(self).lists@[r as int].variable.name@ == name@,
            final(self).lists@[r as int].variable.value == value,
            final(self).lists@[r as int].variable.reads@.len() == 0,
            final(self).lists@[r as int].variable.writes@.len() == 0,
            final(self).lists@[r as int].element_reads@.len() == 0,
            final(self).lists@[r as int].element_writes@.len() == 0,
            final(self).values == old(self).values,
            final(self).blocks == old(self).blocks,
            final(self).variables == old(self).variables,
            final(self).functions == old(self).functions,
            final(self).program == old(self).program,
    {
        let ghost a = *self;
        let r = self.lists.len();
        let variable = Variable { name, value, reads: Vec::new(), writes: Vec::new() };
        self.lists.push(List { variable, element_reads: Vec::new(), element_writes: Vec::new() });
        proof {
            assert forall|i: int| 0 <= i < a.values@.len() implies !reads_list(#[trigger] a.values@[i], r) by {
                assert(a.node_ok(a.values@[i], i));
            }
            lemma_no_list_readers(a.values@, r);
            lemma_grows_wf(a, *self);
        }
        r
    }

    /// A new custom block with parameters `params` and an empty body.
    pub fn add_function(&mut self, name: String, params: Vec<VarId>) -> (r: FuncId)
        requires
            old(self).well_built(),
            forall|i: int| 0 <= i < params@.len() ==> #[trigger] params@[i] < old(self).variables@.len(),
        ensures
            final(self).well_built(),
            r == old(self).functions@.len(),
            final(self).functions@.len() == old(self).functions@.len() + 1,
            forall|f: int| 0 <= f < old(self).functions@.len() ==> #[trigger] final(self).functions@[f]
                == old(self).functions@[f],
            final(self).functions@[r as int].name@ == name@,
            final(self).functions@[r as int].params@ == params@,
            final(self).functions@[r as int].body == old(self).blocks@.len(),
            final(self).blocks@.len() == old(self).blocks@.len() + 1,
            forall|b: int| 0 <= b < old(self).blocks@.len() ==> #[trigger] final(self).blocks@[b]
                == old(self).blocks@[b],
            final(self).blocks@[old(self).blocks@.len() as int].instructions@.len() == 0,
            final(self).values == old(self).values,
            final(self).variables == old(self).variables,
            final(self).lists == old(self).lists,
            final(self).program == old(self).program,
    {
        let body = self.add_block(Vec::new());
        let ghost a = *self;
        let r = self.functions.len();
        self.functions.push(Function { name, params, body });
        proof {
            assert forall|f: int| 0 <= f < self.functions@.len() implies self.function_ok(
                #[trigger] self.functions@[f],
            ) by {
                if f < a.functions@.len() {
                    assert(a.function_ok(a.functions@[f]));
                }
            }
            lemma_grows_wf(a, *self);
        }
        r
    }

    /// Makes `body` the body of custom block `function`.
    pub fn set_body(&mut self, function: FuncId, body: BlockId)
        requires
            old(self).well_built(),
            function < old(self).functions@.len(),
            body < old(self).blocks@.len(),
        ensures
            final(self).well_built(),
            final(self).functions@.len() == old(self).functions@.len(),
            forall|f: int| 0 <= f < old(self).functions@.len() && f != function ==> #[trigger] final(self).functions@[f]
                == old(self).functions@[f],
            final(self).functions@[function as int].name == old(self).functions@[function as int].name,
            final(self).functions@[function as int].params == old(self).functions@[function as int].params,
            final(self).functions@[function as int].body == body,
            final(self).values == old(self).values,
            final(self).blocks == old(self).blocks,
            final(self).variables == old(self).variables,
            final(self).lists == old(self).lists,
            final(self).program == old(self).program,
    {
        let ghost a = *self;
        self.functions[function].body = body;
        proof {
            assert forall|f: int| 0 <= f < self.functions@.len() implies self.function_ok(
                #[trigger] self.functions@[f],
            ) by {
                assert(a.function_ok(a.functions@[f]));
            }
            lemma_grows_wf(a, *self);
        }
    }

    /// Adds variable `v` to the global scope.
    pub fn add_global_variable(&mut self, v: VarId)
        requires
            old(self).well_built(),
            v < old(self).variables@.len(),
        ensures
            final(self).well_built(),
            final(self).program.globals.variables@ == old(self).program.globals.variables@.push(v),
            final(self).program.globals.lists == old(self).program.globals.lists,
            final(self).program.sprite_scripts == old(self).program.sprite_scripts,
            final(self).values == old(self).values,
            final(self).blocks == old(self).blocks,
            final(self).variables == old(self).variables,
            final(self).lists == old(self).lists,
            final(self).functions == old(self).functions,
    {
        let ghost a = *self;
        self.program.globals.variables.push(v);
        proof {
            lemma_grows_wf(a, *self);
        }
    }

    /// Adds list `l` to the global scope.
    pub fn add_global_list(&mut self, l: ListId)
        requires
            old(self).well_built(),
            l < old(self).lists@.len(),
        ensures
            final(self).well_built(),
            final(self).program.globals.lists@ == old(self).program.globals.lists@.push(l),
            final(self).program.globals.variables == old(self).program.globals.variables,
            final(self).program.sprite_scripts == old(self).program.sprite_scripts,
            final(self).values == old(self).values,
            final(self).blocks == old(self).blocks,
            final(self).variables == old(self).variables,
            final(self).lists == old(self).lists,
            final(self).functions == old(self).functions,
    {
        let ghost a = *self;
        self.program.globals.lists.push(l);
        proof {
            lemma_grows_wf(a, *self);
        }
    }

    /// A new sprite with an empty local scope and no scripts.
    pub fn add_sprite(&mut self, sprite: Sprite) -> (r: SpriteId)
        requires
            old(self).well_built(),
        ensures
            final(self).well_built(),
            r == old(self).program.sprite_scripts@.len(),
            final(self).program.sprite_scripts@.len() == old(self).program.sprite_scripts@.len() + 1,
            forall|s: int| 0 <= s < old(self).program.sprite_scripts@.len() ==> #[trigger] final(self).program.sprite_scripts@[s]
                == old(self).program.sprite_scripts@[s],
            final(self).program.sprite_scripts@[r as int].sprite == sprite,
            final(self).program.sprite_scripts@[r as int].locals.variables@.len() == 0,
            final(self).program.sprite_scripts@[r as int].locals.lists@.len() == 0,
            final(self).program.sprite_scripts@[r as int].scripts@.len() == 0,
            final(self).program.globals == old(self).program.globals,
            final(self).values == old(self).values,
            final(self).blocks == old(self).blocks,
            final(self).variables == old(self).variables,
            final(self).lists == old(self).lists,
            final(self).functions == old(self).functions,
    {
        let ghost a = *self;
        let r = self.program.sprite_scripts.len();
        self.program.sprite_scripts.push(
            SpriteScripts {
                sprite,
                locals: Scope { variables: Vec::new(), lists: Vec::new() },
                scripts: Vec::new(),
            },
        );
        proof {
            lemma_grows_wf(a, *self);
        }
        r
    }

    /// Adds a script run by `trigger` with body `block` to sprite `sprite`,
    /// and returns its index among the sprite's scripts.
    pub fn add_script(&mut self, sprite: SpriteId, trigger: Event, block: BlockId) -> (r: usize)
        requires
            old(self).well_built(),
            sprite < old(self).program.sprite_scripts@.len(),
            block < old(self).blocks@.len(),
        ensures
            final(self).well_built(),
            r == old(self).program.sprite_scripts@[sprite as int].scripts@.len(),
            final(self).program.sprite_scripts@.len() == old(self).program.sprite_scripts@.len(),
            forall|s: int| 0 <= s < old(self).program.sprite_scripts@.len() && s != sprite
                ==> #[trigger] final(self).program.sprite_scripts@[s] == old(self).program.sprite_scripts@[s],
            final(self).program.sprite_scripts@[sprite as int].scripts@ == old(self).program.sprite_scripts@[sprite as int].scripts@.push(
                Script { trigger, block },
            ),
            final(self).program.sprite_scripts@[sprite as int].sprite == old(self).program.sprite_scripts@[sprite as int].sprite,
            final(self).program.sprite_scripts@[sprite as int].locals == old(self).program.sprite_scripts@[sprite as int].locals,
            final(self).program.globals == old(self).program.globals,
            final(self).values == old(self).values,
            final(self).blocks == old(self).blocks,
            final(self).variables == old(self).variables,
            final(self).lists == old(self).lists,
            final(self).functions == old(self).functions,
    {
        let ghost a = *self;
        let r = self.program.sprite_scripts[sprite].scripts.len();
        self.program.sprite_scripts[sprite].scripts.push(Script { trigger, block });
        proof {
            lemma_grows_wf(a, *self);
        }
        r
    }
}

} // verus!

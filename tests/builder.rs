use scratch_ir::ast::{Sprite, AST};
use scratch_ir::instruction::{CallInstruction, Constant, GetInstruction, Instruction, Number, ReadWriteInstruction, SetInstruction};
use scratch_ir::list::{ListInstruction, ReturningListInstruction, VoidListInstruction};
use scratch_ir::operator::{BinaryOp, MathOp};
use scratch_ir::property::PropertyInstruction;

#[test]
fn reads_are_recorded_in_order() {
    let mut ast = AST::new();
    let x = ast.add_variable("x".to_string(), Constant::Bool(false));
    let y = ast.add_variable("y".to_string(), Constant::Bool(false));
    let r1 = ast.get(ReadWriteInstruction::Variable(x));
    let _ = ast.get(ReadWriteInstruction::Variable(y));
    let r3 = ast.get(ReadWriteInstruction::Variable(x));
    assert_eq!(ast.variables[x].reads, vec![r1, r3]);
    assert_eq!(ast.variables[x].name, "x");
    assert!(ast.variables[x].writes.is_empty());
}

#[test]
fn writes_are_recorded() {
    let mut ast = AST::new();
    let x = ast.add_variable("x".to_string(), Constant::Bool(false));
    let v = ast.id(GetInstruction::Constant(Constant::Number(Number::Float(0x3ff0000000000000))));
    let set = ast.set(ReadWriteInstruction::Variable(x), v);
    assert_eq!(set, SetInstruction::new(ReadWriteInstruction::Variable(x), v));
    assert_eq!(ast.variables[x].writes, vec![v]);
    let _ = ast.set(ReadWriteInstruction::Property(PropertyInstruction::Size()), v);
    assert_eq!(ast.variables[x].writes, vec![v]);
}

#[test]
fn change_by_reads_combines_and_writes() {
    let mut ast = AST::new();
    let x = ast.add_variable("x".to_string(), Constant::Number(Number::UInt(5)));
    let d = ast.id(GetInstruction::Constant(Constant::Number(Number::UInt(2))));
    let set = ast.change_by(ReadWriteInstruction::Variable(x), d);
    assert_eq!(set.property, ReadWriteInstruction::Variable(x));
    assert_eq!(set.value, d + 2);
    assert_eq!(ast.values[d + 1], CallInstruction::Id(GetInstruction::ReadWrite(ReadWriteInstruction::Variable(x))));
    assert_eq!(ast.values[d + 2], CallInstruction::BinaryOp { op: BinaryOp::Math(MathOp::Add), left: d + 1, right: d });
    assert_eq!(ast.variables[x].reads, vec![d + 1]);
    assert_eq!(ast.variables[x].writes, vec![d + 2]);
    let s = ast.change_using(BinaryOp::multiply(), ReadWriteInstruction::Variable(x), d);
    assert_eq!(ast.values[s.value], CallInstruction::BinaryOp { op: BinaryOp::Math(MathOp::Multiply), left: s.value - 1, right: d });
    assert_eq!(ast.variables[x].writes, vec![d + 2, s.value]);
}

#[test]
fn binary_op_constructors() {
    assert_eq!(BinaryOp::add(), BinaryOp::Math(MathOp::Add));
    assert_eq!(BinaryOp::subtract(), BinaryOp::Math(MathOp::Subtract));
    assert_eq!(BinaryOp::multiply(), BinaryOp::Math(MathOp::Multiply));
    assert_eq!(BinaryOp::divide(), BinaryOp::Math(MathOp::Divide));
    assert_eq!(BinaryOp::modulo(), BinaryOp::Math(MathOp::Modulo));
}

#[test]
fn list_accesses_are_recorded_by_level() {
    let mut ast = AST::new();
    let l = ast.add_list("l".to_string(), Constant::String("abc".to_string()));
    let whole = ast.get(ReadWriteInstruction::List(l));
    let i = ast.id(GetInstruction::Constant(Constant::Number(Number::UInt(1))));
    let element = ast.id(GetInstruction::Element(ReturningListInstruction::Get(i), whole));
    assert_eq!(ast.lists[l].variable.reads, vec![whole]);
    assert_eq!(ast.lists[l].element_reads, vec![element]);
    let op = ast.list_instruction(ListInstruction::Void(VoidListInstruction::Replace(i, element)), whole);
    assert_eq!(op, Instruction::List(ListInstruction::Void(VoidListInstruction::Replace(i, element)), whole));
    assert_eq!(ast.lists[l].element_writes, vec![element]);
    let _ = ast.list_instruction(ListInstruction::Void(VoidListInstruction::Remove(i)), whole);
    assert_eq!(ast.lists[l].element_writes, vec![element]);
    let _ = ast.set(ReadWriteInstruction::List(l), i);
    assert_eq!(ast.lists[l].variable.writes, vec![i]);
}

#[test]
fn program_scopes_and_functions() {
    let mut ast = AST::new();
    let x = ast.add_variable("x".to_string(), Constant::Bool(true));
    let l = ast.add_list("l".to_string(), Constant::Bool(true));
    ast.add_global_variable(x);
    ast.add_global_list(l);
    assert_eq!(ast.program.globals.variables, vec![x]);
    assert_eq!(ast.program.globals.lists, vec![l]);
    let f = ast.add_function("f".to_string(), vec![x]);
    assert_eq!(ast.functions[f].params(), &[x][..]);
    assert!(ast.blocks[ast.functions[f].body].instructions.is_empty());
    let s = ast.add_sprite(Sprite {});
    assert_eq!(s, 0);
    assert!(ast.program.sprite_scripts[s].scripts.is_empty());
}

use scratch_ir::ast::{Event, Script, Sprite, AST};
use scratch_ir::builder::BuildError;
use scratch_ir::classify::{Binding, CallContext};
use scratch_ir::compute_kind::{join, join_all, Computable, ComputeKind};
use scratch_ir::control_flow::{BroadCastInstruction, ControlFlowInstruction, StopInstruction};
use scratch_ir::instruction::{Constant, GetInstruction, Instruction, Number, ReadWriteInstruction};
use scratch_ir::list::{ListInstruction, PushPop, PushPopSide, ReturningListInstruction, VoidListInstruction};
use scratch_ir::operator::{BinaryOp, UnaryOp};
use scratch_ir::property::{NamedProperty, NamedType, PropertyInstruction, StageProperty, TimeUnit};
use scratch_ir::render::{RenderInstruction, SayOrThink, SoundInstruction};

fn one(ast: &mut AST) -> usize {
    ast.id(GetInstruction::Constant(Constant::Number(Number::UInt(1))))
}

fn script_kind(ast: &mut AST, instructions: Vec<Instruction>) -> ComputeKind {
    let block = ast.add_block(instructions);
    Script { trigger: Event {}, block }.get_compute_kind(ast)
}

/// A custom block with no parameters whose body waits: calling it is reactive.
fn waiting_call(ast: &mut AST) -> usize {
    let f = ast.add_function("pause".to_string(), vec![]);
    let c = one(ast);
    let body = ast.add_block(vec![Instruction::ControlFlow(ControlFlowInstruction::Wait(c))]);
    ast.set_body(f, body);
    ast.call(f, vec![]).unwrap()
}

/// A custom block with one parameter whose body reads it.
fn identity_function(ast: &mut AST) -> usize {
    let p = ast.add_variable("p".to_string(), Constant::Bool(false));
    let f = ast.add_function("id".to_string(), vec![p]);
    let body = ast.add_block(vec![Instruction::Get(GetInstruction::ReadWrite(ReadWriteInstruction::Variable(p)))]);
    ast.set_body(f, body);
    f
}

#[test]
fn join_is_the_maximum() {
    assert_eq!(join(ComputeKind::Computational, ComputeKind::Graphical), ComputeKind::Graphical);
    assert_eq!(join(ComputeKind::Reactive, ComputeKind::Graphical), ComputeKind::Reactive);
    assert_eq!(join(ComputeKind::Computational, ComputeKind::Computational), ComputeKind::Computational);
    assert_eq!(join_all(&[ComputeKind::Graphical, ComputeKind::Computational]), ComputeKind::Graphical);
    assert_eq!(join_all(&[ComputeKind::Computational, ComputeKind::Reactive, ComputeKind::Graphical]), ComputeKind::Reactive);
    assert!(ComputeKind::Computational < ComputeKind::Graphical);
    assert!(ComputeKind::Graphical < ComputeKind::Reactive);
    assert_eq!(ComputeKind::Reactive.get_compute_kind(), ComputeKind::Reactive);
}

#[test]
fn raising_a_child_never_lowers_the_parent() {
    let base = [ComputeKind::Computational, ComputeKind::Graphical];
    let raised = [ComputeKind::Reactive, ComputeKind::Graphical];
    assert!(join_all(&base) <= join_all(&raised));
    let mut ast = AST::new();
    let c = one(&mut ast);
    let pure = ast.op2(BinaryOp::add(), c, c);
    let w = waiting_call(&mut ast);
    let raised_node = ast.op2(BinaryOp::add(), w, c);
    let ctx = CallContext::outside_calls(ast.functions.len());
    assert_eq!(ast.value_compute_kind(&ctx, pure), ComputeKind::Computational);
    assert_eq!(ast.value_compute_kind(&ctx, raised_node), ComputeKind::Reactive);
}

#[test]
fn empty_join_is_computational() {
    assert_eq!(join_all(&[]), ComputeKind::Computational);
    let mut ast = AST::new();
    assert_eq!(script_kind(&mut ast, vec![]), ComputeKind::Computational);
    let l = ast.add_list("l".to_string(), Constant::String(String::new()));
    let target = ast.get(ReadWriteInstruction::List(l));
    let clear = ast.list_instruction(ListInstruction::Void(VoidListInstruction::Clear()), target);
    assert_eq!(script_kind(&mut ast, vec![clear]), ComputeKind::Computational);
}

#[test]
fn intrinsic_floors_hold() {
    let mut ast = AST::new();
    assert_eq!(
        script_kind(&mut ast, vec![Instruction::Render(RenderInstruction::ClearVisualEffects())]),
        ComputeKind::Graphical
    );
    let c = one(&mut ast);
    assert_eq!(
        script_kind(&mut ast, vec![Instruction::ControlFlow(ControlFlowInstruction::Wait(c))]),
        ComputeKind::Reactive
    );
    assert_eq!(RenderInstruction::SoundInstruction(SoundInstruction::Play, 0).get_compute_kind(), ComputeKind::Graphical);
    for cf in [
        ControlFlowInstruction::BroadCast(BroadCastInstruction::Wait, 0),
        ControlFlowInstruction::AskAndWait(c),
        ControlFlowInstruction::Stop(StopInstruction::OwnScript(0)),
        ControlFlowInstruction::CreateClone(0),
        ControlFlowInstruction::DeleteSelf(),
    ] {
        assert_eq!(script_kind(&mut ast, vec![Instruction::ControlFlow(cf)]), ComputeKind::Reactive);
    }
}

#[test]
fn property_overrides() {
    assert_eq!(PropertyInstruction::UserName().get_compute_kind(), ComputeKind::Computational);
    assert_eq!(
        PropertyInstruction::Named(NamedType::Costume, NamedProperty::Name).get_compute_kind(),
        ComputeKind::Computational
    );
    assert_eq!(PropertyInstruction::Position().get_compute_kind(), ComputeKind::Graphical);
    assert_eq!(PropertyInstruction::Volume().get_compute_kind(), ComputeKind::Graphical);
    assert_eq!(PropertyInstruction::CurrentTime(TimeUnit::Year).get_compute_kind(), ComputeKind::Graphical);
    assert_eq!(PropertyInstruction::Stage(StageProperty::Backdrop(NamedProperty::Number)).get_compute_kind(), ComputeKind::Computational);
    assert_eq!(PropertyInstruction::Stage(StageProperty::Volume()).get_compute_kind(), ComputeKind::Graphical);
    assert_eq!(PropertyInstruction::Stage(StageProperty::Variable(0)).get_compute_kind(), ComputeKind::Computational);
    let mut ast = AST::new();
    let pos = ast.get(ReadWriteInstruction::Property(PropertyInstruction::Position()));
    assert_eq!(script_kind(&mut ast, vec![Instruction::Op(pos)]), ComputeKind::Graphical);
    let name = ast.get(ReadWriteInstruction::Property(PropertyInstruction::UserName()));
    assert_eq!(script_kind(&mut ast, vec![Instruction::Op(name)]), ComputeKind::Computational);
}

#[test]
fn function_substitution() {
    let mut ast = AST::new();
    let f = identity_function(&mut ast);
    let reactive_arg = waiting_call(&mut ast);
    let pure_arg = one(&mut ast);
    let reactive_call = ast.call(f, vec![reactive_arg]).unwrap();
    let pure_call = ast.call(f, vec![pure_arg]).unwrap();
    let ctx = CallContext::outside_calls(ast.functions.len());
    assert_eq!(ast.value_compute_kind(&ctx, reactive_call), ComputeKind::Reactive);
    assert_eq!(ast.value_compute_kind(&ctx, pure_call), ComputeKind::Computational);
    assert_eq!(script_kind(&mut ast, vec![Instruction::Op(reactive_call)]), ComputeKind::Reactive);
    assert_eq!(script_kind(&mut ast, vec![Instruction::Op(pure_call)]), ComputeKind::Computational);
}

#[test]
fn bound_parameter_takes_its_binding() {
    let mut ast = AST::new();
    let p = ast.add_variable("p".to_string(), Constant::Bool(true));
    let read = ast.get(ReadWriteInstruction::Variable(p));
    let ctx = CallContext { bindings: vec![Binding { var: p, kind: ComputeKind::Graphical }], active: vec![] };
    assert_eq!(ast.value_compute_kind(&ctx, read), ComputeKind::Graphical);
    let empty = CallContext::outside_calls(0);
    assert!(empty.bindings.is_empty() && empty.active.is_empty());
    assert_eq!(ast.value_compute_kind(&empty, read), ComputeKind::Computational);
}

#[test]
fn recursive_call_is_reactive() {
    let mut ast = AST::new();
    let f = ast.add_function("again".to_string(), vec![]);
    let call = ast.call(f, vec![]).unwrap();
    let body = ast.add_block(vec![Instruction::Op(call)]);
    ast.set_body(f, body);
    assert_eq!(script_kind(&mut ast, vec![Instruction::Op(call)]), ComputeKind::Reactive);
}

#[test]
fn branch_and_while_join() {
    let mut ast = AST::new();
    let graphical = ast.add_block(vec![Instruction::Render(RenderInstruction::StopAllSounds())]);
    let c = one(&mut ast);
    let reactive = ast.add_block(vec![Instruction::ControlFlow(ControlFlowInstruction::Wait(c))]);
    let empty = ast.add_block(vec![]);
    let both = Instruction::ControlFlow(ControlFlowInstruction::Branch { if_block: graphical, else_block: reactive });
    assert_eq!(script_kind(&mut ast, vec![both]), ComputeKind::Reactive);
    let no_else = Instruction::ControlFlow(ControlFlowInstruction::Branch { if_block: graphical, else_block: empty });
    assert_eq!(script_kind(&mut ast, vec![no_else]), ComputeKind::Graphical);
    let both_empty = Instruction::ControlFlow(ControlFlowInstruction::Branch { if_block: empty, else_block: empty });
    assert_eq!(script_kind(&mut ast, vec![both_empty]), ComputeKind::Computational);
    let looped = Instruction::ControlFlow(ControlFlowInstruction::While(graphical));
    assert_eq!(script_kind(&mut ast, vec![looped]), ComputeKind::Graphical);
}

#[test]
fn counter_script_scenario() {
    let mut ast = AST::new();
    let x = ast.add_variable("x".to_string(), Constant::Number(Number::Int(0)));
    ast.add_global_variable(x);
    let sprite = ast.add_sprite(Sprite {});
    let c = one(&mut ast);
    let increment = ast.change_by(ReadWriteInstruction::Variable(x), c);
    let mut instructions = vec![Instruction::Assign(increment)];
    let b1 = ast.add_block(instructions.clone());
    let i1 = ast.add_script(sprite, Event {}, b1);
    let shown = ast.get(ReadWriteInstruction::Variable(x));
    instructions.push(Instruction::Render(RenderInstruction::SayOrThink(SayOrThink::Say, shown, None)));
    let b2 = ast.add_block(instructions.clone());
    let i2 = ast.add_script(sprite, Event {}, b2);
    let c2 = one(&mut ast);
    instructions.push(Instruction::ControlFlow(ControlFlowInstruction::Wait(c2)));
    let b3 = ast.add_block(instructions);
    let i3 = ast.add_script(sprite, Event {}, b3);
    let scripts = ast.program.sprite_scripts[sprite].scripts.clone();
    assert_eq!(scripts[i1].get_compute_kind(&ast), ComputeKind::Computational);
    assert_eq!(scripts[i2].get_compute_kind(&ast), ComputeKind::Graphical);
    assert_eq!(scripts[i3].get_compute_kind(&ast), ComputeKind::Reactive);
    assert_eq!(
        ast.script_kinds(sprite),
        vec![(b1, ComputeKind::Computational), (b2, ComputeKind::Graphical), (b3, ComputeKind::Reactive)]
    );
}

#[test]
fn arity_mismatch_fails_construction() {
    let mut ast = AST::new();
    let a = ast.add_variable("a".to_string(), Constant::Bool(false));
    let b = ast.add_variable("b".to_string(), Constant::Bool(false));
    let c = ast.add_variable("c".to_string(), Constant::Bool(false));
    let f = ast.add_function("three".to_string(), vec![a, b, c]);
    let x = one(&mut ast);
    let y = one(&mut ast);
    let before = ast.clone();
    assert_eq!(ast.call(f, vec![x, y]), Err(BuildError::ArityMismatch { expected: 3, found: 2 }));
    assert_eq!(ast, before);
    assert!(ast.call(f, vec![x, y, x]).is_ok());
}

#[test]
fn list_operations_join_their_operands() {
    let mut ast = AST::new();
    let l = ast.add_list("l".to_string(), Constant::String(String::new()));
    let target = ast.get(ReadWriteInstruction::List(l));
    let w = waiting_call(&mut ast);
    let c = one(&mut ast);
    let push = ast.list_instruction(ListInstruction::Void(VoidListInstruction::Push(w, PushPop { side: PushPopSide::Right, index: 0 })), target);
    assert_eq!(script_kind(&mut ast, vec![push]), ComputeKind::Reactive);
    let insert = ast.list_instruction(ListInstruction::Void(VoidListInstruction::Insert(c, c)), target);
    assert_eq!(script_kind(&mut ast, vec![insert]), ComputeKind::Computational);
    let item = ast.id(GetInstruction::Element(ReturningListInstruction::Get(c), target));
    assert_eq!(script_kind(&mut ast, vec![Instruction::Op(item)]), ComputeKind::Computational);
    let found = ast.id(GetInstruction::Element(ReturningListInstruction::Find(w), target));
    assert_eq!(script_kind(&mut ast, vec![Instruction::Op(found)]), ComputeKind::Reactive);
    let length = Instruction::List(ListInstruction::Returning(ReturningListInstruction::Length()), target);
    assert_eq!(script_kind(&mut ast, vec![length]), ComputeKind::Computational);
    let neg = ast.op1(UnaryOp::Abs(), w);
    assert_eq!(script_kind(&mut ast, vec![Instruction::Op(neg)]), ComputeKind::Reactive);
}

//! Operators of expression nodes.
use vstd::prelude::*;

verus! {

#[derive(Clone, Copy, Debug, PartialEq, Eq, Structural)]
pub enum UnaryOp {
    VectorIndex(u8),
    Not(),
    Abs(),
    FloatToInt(FloatToIntOp),
    FloatToFloat(FloatToFloatOp),
}

#[derive(Clone, Copy, Debug, PartialEq, Eq, Structural)]
pub enum FloatToIntOp {
    Round,
    Floor,
    Ceiling,
}

#[derive(Clone, Copy, Debug, PartialEq, Eq, Structural)]
pub enum FloatToFloatOp {
    Sqrt,
    Sin,
    Cos,
    Tan,
    ASin,
    ACos,
    ATan,
    Ln,
    Log,
    Exp,
}

#[derive(Clone, Copy, Debug, PartialEq, Eq, Structural)]
pub enum BinaryOp {
    Math(MathOp),
    Comparison(ComparisonOp),
    Logic(LogicOp),
}

impl BinaryOp {
    pub fn add() -> (r: BinaryOp)
        ensures
            r == BinaryOp::Math(MathOp::Add),
    {
        BinaryOp::Math(MathOp::Add)
    }

    pub fn subtract() -> (r: BinaryOp)
        ensures
            r == BinaryOp::Math(MathOp::Subtract),
    {
        BinaryOp::Math(MathOp::Subtract)
    }

    pub fn multiply() -> (r: BinaryOp)
        ensures
            r == BinaryOp::Math(MathOp::Multiply),
    {
        BinaryOp::Math(MathOp::Multiply)
    }

    pub fn divide() -> (r: BinaryOp)
        ensures
            r == BinaryOp::Math(MathOp::Divide),
    {
        BinaryOp::Math(MathOp::Divide)
    }

    pub fn modulo() -> (r: BinaryOp)
        ensures
            r == BinaryOp::Math(MathOp::Modulo),
    {
        BinaryOp::Math(MathOp::Modulo)
    }
}

#[derive(Clone, Copy, Debug, PartialEq, Eq, Structural)]
pub enum MathOp {
    Add,
    Subtract,
    Multiply,
    Divide,
    Modulo,
    Pow,
    Random,
    Distance,
}

#[derive(Clone, Copy, Debug, PartialEq, Eq, Structural)]
pub enum ComparisonOp {
    LessThan,
    GreaterThan,
    Equals,
}

#[derive(Clone, Copy, Debug, PartialEq, Eq, Structural)]
pub enum LogicOp {
    And,
    Or,
}

} // verus!

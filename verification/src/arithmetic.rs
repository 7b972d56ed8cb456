//! Arithmetic functions by operator.
use vstd::prelude::*;

use crate::error::ErrorCode;

verus! {

/// The arithmetic operators on data values.
#[derive(Debug, Clone, Copy, PartialEq, Eq, Structural)]
pub enum DataValueArithmeticOperator {
    Plus,
    Minus,
    Mul,
    Div,
    IntDiv,
    Modulo,
}

/// An arithmetic function: the operator it applies.
#[derive(Debug, Clone, Copy, PartialEq, Eq, Structural)]
pub struct ArithmeticFunction {
    pub op: DataValueArithmeticOperator,
}

impl ArithmeticFunction {
    /// The arithmetic function of an operator.
    pub fn try_create_func(op: DataValueArithmeticOperator) -> (r: Result<
        Box<ArithmeticFunction>,
        ErrorCode,
    >)
        ensures
            r matches Ok(f) && f.op == op,
    {
        Ok(Box::new(ArithmeticFunction { op }))
    }
}

/// The division function.
#[derive(Debug, Clone, Copy)]
pub struct ArithmeticDivFunction;

impl ArithmeticDivFunction {
    /// The arithmetic function that divides, whatever its display name.
    pub fn try_create_func(_display_name: &str) -> (r: Result<Box<ArithmeticFunction>, ErrorCode>)
        ensures
            r matches Ok(f) && f.op == DataValueArithmeticOperator::Div,
    {
        ArithmeticFunction::try_create_func(DataValueArithmeticOperator::Div)
    }
}

} // verus!

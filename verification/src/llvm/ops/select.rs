//! Selection between two values.

use crate::llvm::dialect::Dialect;
use crate::llvm::types::{same_type, Type};
use crate::llvm::value::Value;
use vstd::prelude::*;

verus! {

/// What is wrong with a [`SelectOp`].
#[derive(Clone, Copy, Debug, PartialEq, Eq, Structural)]
pub enum SelectOpVerifyErr {
    ResultTypeErr,
    ConditionTypeErr,
}

impl SelectOpVerifyErr {
    /// The text of the error.
    pub open spec fn text(self) -> Seq<char> {
        match self {
            SelectOpVerifyErr::ResultTypeErr => {
                "Result must be the same as the true and false destination types"@
            },
            SelectOpVerifyErr::ConditionTypeErr => "Condition must be an i1"@,
        }
    }

    /// The text of the error.
    pub fn message(&self) -> (message: &'static str)
        ensures
            message@ == self.text(),
    {
        match self {
            SelectOpVerifyErr::ResultTypeErr => {
                "Result must be the same as the true and false destination types"
            },
            SelectOpVerifyErr::ConditionTypeErr => "Condition must be an i1",
        }
    }
}

/// Gives `true_val` where the condition holds, and `false_val` where not.
#[derive(Debug)]
pub struct SelectOp {
    pub cond: Value,
    pub true_val: Value,
    pub false_val: Value,
    pub result: Type,
}

impl SelectOp {
    /// Selects between two values; the result has the type of `true_val`.
    pub fn new(cond: Value, true_val: Value, false_val: Value) -> (op: SelectOp)
        ensures
            op.cond@ == cond@,
            op.true_val@ == true_val@,
            op.false_val@ == false_val@,
            op.result@ == true_val.ty@,
    {
        let result = true_val.ty.duplicate();
        SelectOp { cond, true_val, false_val, result }
    }

    /// What [`SelectOp::verify`] says.
    pub open spec fn judged(self) -> Result<(), SelectOpVerifyErr> {
        if self.result@ != self.true_val.ty@ || self.result@ != self.false_val.ty@ {
            Err(SelectOpVerifyErr::ResultTypeErr)
        } else if self.cond.ty@ is Integer && self.cond.ty@->width == 1 {
            Ok(())
        } else {
            Err(SelectOpVerifyErr::ConditionTypeErr)
        }
    }

    /// Checks that the result has the type of both values, and that the
    /// condition is an integer of one bit.
    pub fn verify(&self) -> (verdict: Result<(), SelectOpVerifyErr>)
        ensures
            verdict == self.judged(),
    {
        if !same_type(&self.result, &self.true_val.ty) || !same_type(
            &self.result,
            &self.false_val.ty,
        ) {
            return Err(SelectOpVerifyErr::ResultTypeErr);
        }
        match &self.cond.ty {
            Type::Integer { width, .. } => {
                if *width == 1 {
                    Ok(())
                } else {
                    Err(SelectOpVerifyErr::ConditionTypeErr)
                }
            },
            _ => Err(SelectOpVerifyErr::ConditionTypeErr),
        }
    }
}

/// The names of the select operations.
pub open spec fn op_names() -> Set<Seq<char>> {
    set!["llvm.select"@]
}

/// Registers the select operations.
pub fn register(dialect: &mut Dialect)
    ensures
        final(dialect)@ == old(dialect)@.union(op_names()),
{
    dialect.add_op("llvm.select");
    proof {
        assert(dialect@ =~= old(dialect)@.union(op_names()));
    }
}

} // verus!

//! Variadic arguments.

use crate::llvm::dialect::Dialect;
use crate::llvm::types::Type;
use crate::llvm::value::Value;
use vstd::prelude::*;

verus! {

/// What is wrong with a [`VAArgOp`].
#[derive(Clone, Copy, Debug, PartialEq, Eq, Structural)]
pub enum VAArgOpVerifyErr {
    OperandNotPointer,
}

impl VAArgOpVerifyErr {
    /// The text of the error.
    pub open spec fn text(self) -> Seq<char> {
        match self {
            VAArgOpVerifyErr::OperandNotPointer => "Operand must be a pointer type"@,
        }
    }

    /// The text of the error.
    pub fn message(&self) -> (message: &'static str)
        ensures
            message@ == self.text(),
    {
        match self {
            VAArgOpVerifyErr::OperandNotPointer => "Operand must be a pointer type",
        }
    }
}

/// Takes the next argument out of a variadic argument list.
#[derive(Debug)]
pub struct VAArgOp {
    pub list: Value,
    pub result: Type,
}

impl VAArgOp {
    /// Takes an argument of type `ty` out of the list that `list` points to.
    pub fn new(list: Value, ty: Type) -> (op: VAArgOp)
        ensures
            op.list@ == list@,
            op.result@ == ty@,
    {
        VAArgOp { list, result: ty }
    }

    /// Checks that the operand is a pointer.
    pub fn verify(&self) -> (verdict: Result<(), VAArgOpVerifyErr>)
        ensures
            verdict == if self.list.ty@ is Pointer {
                Ok::<(), VAArgOpVerifyErr>(())
            } else {
                Err(VAArgOpVerifyErr::OperandNotPointer)
            },
    {
        match &self.list.ty {
            Type::Pointer { .. } => Ok(()),
            _ => Err(VAArgOpVerifyErr::OperandNotPointer),
        }
    }
}

/// The names of the variadic argument operations.
pub open spec fn op_names() -> Set<Seq<char>> {
    set!["llvm.va_arg"@]
}

/// Registers the variadic argument operations.
pub fn register(dialect: &mut Dialect)
    ensures
        final(dialect)@ == old(dialect)@.union(op_names()),
{
    dialect.add_op("llvm.va_arg");
    proof {
        assert(dialect@ =~= old(dialect)@.union(op_names()));
    }
}

} // verus!

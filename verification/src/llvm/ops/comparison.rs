//! Comparisons of integers, pointers and floating-point numbers.

use crate::llvm::attributes::FastmathFlags;
use crate::llvm::dialect::Dialect;
use crate::llvm::types::{same_type, Signedness, Type, TypeModel, TypeSort, TypedHandleErr};
use crate::llvm::value::Value;
use vstd::prelude::*;

verus! {

/// How two integers or pointers are compared.
#[derive(Clone, Copy, Debug, PartialEq, Eq, Structural)]
pub enum ICmpPredicate {
    EQ,
    NE,
    SLT,
    SLE,
    SGT,
    SGE,
    ULT,
    ULE,
    UGT,
    UGE,
}

/// How two floating-point numbers are compared.
#[derive(Clone, Copy, Debug, PartialEq, Eq, Structural)]
pub enum FCmpPredicate {
    False,
    OEQ,
    OGT,
    OGE,
    OLT,
    OLE,
    ONE,
    ORD,
    UEQ,
    UGT,
    UGE,
    ULT,
    ULE,
    UNE,
    UNO,
    True,
}

/// The type of a truth value: an integer of one bit without a sign.
pub open spec fn truth() -> TypeModel {
    TypeModel::Integer { width: 1, signedness: Signedness::Signless }
}

/// The type of a truth value.
fn truth_type() -> (ty: Type)
    ensures
        ty@ == truth(),
{
    Type::Integer { width: 1, signedness: Signedness::Signless }
}

/// What is wrong with an [`ICmpOp`].
#[derive(Debug)]
pub enum ICmpOpVerifyErr {
    ResultNotBool,
    IncorrectOperandsType,
    PredAttrErr,
    OperandsDiffer,
    /// The result is of another sort than an integer.
    ResultNotInteger(TypedHandleErr),
}

impl ICmpOpVerifyErr {
    /// The text of the error, given how the type of the result prints.
    pub open spec fn text(self, result_text: Seq<char>) -> Seq<char> {
        match self {
            ICmpOpVerifyErr::ResultNotBool => "Result must be 1-bit integer (bool)"@,
            ICmpOpVerifyErr::IncorrectOperandsType => "Operand must be integer or pointer types"@,
            ICmpOpVerifyErr::PredAttrErr => "Missing or incorrect predicate attribute"@,
            ICmpOpVerifyErr::OperandsDiffer => "Op has different operand types"@,
            ICmpOpVerifyErr::ResultNotInteger(err) => err.text(result_text),
        }
    }

    /// The text of the error, given how the type of the result prints.
    pub fn message(&self, result_text: &str) -> (message: String)
        ensures
            message@ == self.text(result_text@),
    {
        match self {
            ICmpOpVerifyErr::ResultNotBool => "Result must be 1-bit integer (bool)".to_owned(),
            ICmpOpVerifyErr::IncorrectOperandsType => {
                "Operand must be integer or pointer types".to_owned()
            },
            ICmpOpVerifyErr::PredAttrErr => "Missing or incorrect predicate attribute".to_owned(),
            ICmpOpVerifyErr::OperandsDiffer => "Op has different operand types".to_owned(),
            ICmpOpVerifyErr::ResultNotInteger(err) => err.message(result_text),
        }
    }
}

/// Compares two integers or pointers.
#[derive(Debug)]
pub struct ICmpOp {
    pub icmp_predicate: Option<ICmpPredicate>,
    pub lhs: Value,
    pub rhs: Value,
    pub result: Type,
}

impl ICmpOp {
    /// Compares `lhs` with `rhs`.
    pub fn new(pred: ICmpPredicate, lhs: Value, rhs: Value) -> (op: ICmpOp)
        ensures
            op.icmp_predicate == Some(pred),
            op.lhs@ == lhs@,
            op.rhs@ == rhs@,
            op.result@ == truth(),
    {
        ICmpOp {
            icmp_predicate: Some(pred),
            lhs,
            rhs,
            result: truth_type(),
        }
    }

    /// How the operands are compared.
    pub fn predicate(&self) -> (pred: ICmpPredicate)
        requires
            self.icmp_predicate is Some,
        ensures
            Some(pred) == self.icmp_predicate,
    {
        match self.icmp_predicate {
            Some(pred) => pred,
            None => vstd::pervasive::unreached(),
        }
    }

    /// What [`ICmpOp::verify`] says.
    pub open spec fn judged(self, verdict: Result<(), ICmpOpVerifyErr>) -> bool {
        if self.lhs.ty@ != self.rhs.ty@ {
            verdict == Err::<(), _>(ICmpOpVerifyErr::OperandsDiffer)
        } else if self.icmp_predicate is None {
            verdict == Err::<(), _>(ICmpOpVerifyErr::PredAttrErr)
        } else if self.result@ !is Integer {
            verdict matches Err(ICmpOpVerifyErr::ResultNotInteger(err)) && err.expected
                == TypeSort::Integer && err.provided@ == self.result@
        } else if self.result@->width != 1 {
            verdict == Err::<(), _>(ICmpOpVerifyErr::ResultNotBool)
        } else if self.lhs.ty@ is Integer || self.lhs.ty@ is Pointer {
            verdict is Ok
        } else {
            verdict == Err::<(), _>(ICmpOpVerifyErr::IncorrectOperandsType)
        }
    }

    /// Checks that the operands have one type, that there is a predicate, that
    /// the result has one bit, and that the operands are of a type that can be
    /// compared, in this order.
    pub fn verify(&self) -> (verdict: Result<(), ICmpOpVerifyErr>)
        ensures
            self.judged(verdict),
    {
        if !same_type(&self.lhs.ty, &self.rhs.ty) {
            return Err(ICmpOpVerifyErr::OperandsDiffer);
        }
        if self.icmp_predicate.is_none() {
            return Err(ICmpOpVerifyErr::PredAttrErr);
        }
        match &self.result {
            Type::Integer { width, .. } => {
                if *width != 1 {
                    return Err(ICmpOpVerifyErr::ResultNotBool);
                }
            },
            _ => {
                return Err(
                    ICmpOpVerifyErr::ResultNotInteger(
                        TypedHandleErr {
                            expected: TypeSort::Integer,
                            provided: self.result.duplicate(),
                        },
                    ),
                );
            },
        }
        match &self.lhs.ty {
            Type::Integer { .. } | Type::Pointer { .. } => Ok(()),
            _ => Err(ICmpOpVerifyErr::IncorrectOperandsType),
        }
    }
}

/// What is wrong with an [`FCmpOp`].
#[derive(Debug)]
pub enum FCmpOpVerifyErr {
    ResultNotBool,
    IncorrectOperandsType,
    PredAttrErr,
    OperandsDiffer,
    /// The result is of another sort than an integer.
    ResultNotInteger(TypedHandleErr),
}

impl FCmpOpVerifyErr {
    /// The text of the error, given how the type of the result prints.
    pub open spec fn text(self, result_text: Seq<char>) -> Seq<char> {
        match self {
            FCmpOpVerifyErr::ResultNotBool => "Result must be 1-bit integer (bool)"@,
            FCmpOpVerifyErr::IncorrectOperandsType => "Operand must be floating point type"@,
            FCmpOpVerifyErr::PredAttrErr => "Missing or incorrect predicate attribute"@,
            FCmpOpVerifyErr::OperandsDiffer => "Op has different operand types"@,
            FCmpOpVerifyErr::ResultNotInteger(err) => err.text(result_text),
        }
    }

    /// The text of the error, given how the type of the result prints.
    pub fn message(&self, result_text: &str) -> (message: String)
        ensures
            message@ == self.text(result_text@),
    {
        match self {
            FCmpOpVerifyErr::ResultNotBool => "Result must be 1-bit integer (bool)".to_owned(),
            FCmpOpVerifyErr::IncorrectOperandsType => {
                "Operand must be floating point type".to_owned()
            },
            FCmpOpVerifyErr::PredAttrErr => "Missing or incorrect predicate attribute".to_owned(),
            FCmpOpVerifyErr::OperandsDiffer => "Op has different operand types".to_owned(),
            FCmpOpVerifyErr::ResultNotInteger(err) => err.message(result_text),
        }
    }
}

/// Compares two floating-point numbers.
#[derive(Debug)]
pub struct FCmpOp {
    pub fcmp_predicate: Option<FCmpPredicate>,
    pub llvm_fast_math_flags: FastmathFlags,
    pub lhs: Value,
    pub rhs: Value,
    pub result: Type,
}

impl FCmpOp {
    /// Compares `lhs` with `rhs`; no fast-math flag is set.
    pub fn new(pred: FCmpPredicate, lhs: Value, rhs: Value) -> (op: FCmpOp)
        ensures
            op.fcmp_predicate == Some(pred),
            op.llvm_fast_math_flags == FastmathFlags(0),
            op.lhs@ == lhs@,
            op.rhs@ == rhs@,
            op.result@ == truth(),
    {
        FCmpOp {
            fcmp_predicate: Some(pred),
            llvm_fast_math_flags: FastmathFlags::default(),
            lhs,
            rhs,
            result: truth_type(),
        }
    }

    /// How the operands are compared.
    pub fn predicate(&self) -> (pred: FCmpPredicate)
        requires
            self.fcmp_predicate is Some,
        ensures
            Some(pred) == self.fcmp_predicate,
    {
        match self.fcmp_predicate {
            Some(pred) => pred,
            None => vstd::pervasive::unreached(),
        }
    }

    /// What [`FCmpOp::verify`] says.
    pub open spec fn judged(self, verdict: Result<(), FCmpOpVerifyErr>) -> bool {
        if self.lhs.ty@ != self.rhs.ty@ {
            verdict == Err::<(), _>(FCmpOpVerifyErr::OperandsDiffer)
        } else if self.fcmp_predicate is None {
            verdict == Err::<(), _>(FCmpOpVerifyErr::PredAttrErr)
        } else if self.result@ !is Integer {
            verdict matches Err(FCmpOpVerifyErr::ResultNotInteger(err)) && err.expected
                == TypeSort::Integer && err.provided@ == self.result@
        } else if self.result@->width != 1 {
            verdict == Err::<(), _>(FCmpOpVerifyErr::ResultNotBool)
        } else if self.lhs.ty@ is Float {
            verdict is Ok
        } else {
            verdict == Err::<(), _>(FCmpOpVerifyErr::IncorrectOperandsType)
        }
    }

    /// Checks that the operands have one type, that there is a predicate, that
    /// the result has one bit, and that the operands are of a type that can be
    /// compared, in this order.
    pub fn verify(&self) -> (verdict: Result<(), FCmpOpVerifyErr>)
        ensures
            self.judged(verdict),
    {
        if !same_type(&self.lhs.ty, &self.rhs.ty) {
            return Err(FCmpOpVerifyErr::OperandsDiffer);
        }
        if self.fcmp_predicate.is_none() {
            return Err(FCmpOpVerifyErr::PredAttrErr);
        }
        match &self.result {
            Type::Integer { width, .. } => {
                if *width != 1 {
                    return Err(FCmpOpVerifyErr::ResultNotBool);
                }
            },
            _ => {
                return Err(
                    FCmpOpVerifyErr::ResultNotInteger(
                        TypedHandleErr {
                            expected: TypeSort::Integer,
                            provided: self.result.duplicate(),
                        },
                    ),
                );
            },
        }
        match &self.lhs.ty {
            Type::Float { .. } => Ok(()),
            _ => Err(FCmpOpVerifyErr::IncorrectOperandsType),
        }
    }
}

/// A comparison of two values of one comparable type passes its check as it is
/// built.
pub proof fn built_comparisons_verify(integers: ICmpOp, floats: FCmpOp)
    requires
        integers.icmp_predicate is Some,
        integers.result@ == truth(),
        integers.lhs.ty@ == integers.rhs.ty@,
        integers.lhs.ty@ is Integer || integers.lhs.ty@ is Pointer,
        floats.fcmp_predicate is Some,
        floats.result@ == truth(),
        floats.lhs.ty@ == floats.rhs.ty@,
        floats.lhs.ty@ is Float,
    ensures
        integers.judged(Ok(())),
        floats.judged(Ok(())),
{
}

/// The names of the comparison operations.
pub open spec fn op_names() -> Set<Seq<char>> {
    set!["llvm.icmp"@, "llvm.fcmp"@]
}

/// Registers the comparison operations.
pub fn register(dialect: &mut Dialect)
    ensures
        final(dialect)@ == old(dialect)@.union(op_names()),
{
    dialect.add_op("llvm.icmp");
    dialect.add_op("llvm.fcmp");
    proof {
        assert(dialect@ =~= old(dialect)@.union(op_names()));
    }
}

} // verus!

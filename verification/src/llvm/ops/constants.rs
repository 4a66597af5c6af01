//! Constants, zeros and undefined values.

use crate::llvm::dialect::Dialect;
use crate::llvm::types::{Type, TypeModel};
use vstd::prelude::*;

verus! {

/// What is wrong with a [`ConstantOp`].
#[derive(Clone, Copy, Debug, PartialEq, Eq, Structural)]
pub enum ConstantOpVerifyErr {
    InvalidValue,
}

impl ConstantOpVerifyErr {
    /// The text of the error.
    pub open spec fn text(self) -> Seq<char> {
        match self {
            ConstantOpVerifyErr::InvalidValue => {
                "ConstantOp must have either an integer or a float value"@
            },
        }
    }

    /// The text of the error.
    pub fn message(&self) -> (message: &'static str)
        ensures
            message@ == self.text(),
    {
        match self {
            ConstantOpVerifyErr::InvalidValue => {
                "ConstantOp must have either an integer or a float value"
            },
        }
    }
}

/// The value of a constant, by its text.
#[derive(Debug)]
pub enum ConstantValue {
    /// An integer.
    Integer { ty: Type, text: String },
    /// A floating-point number.
    Float { ty: Type, text: String },
    /// Any other attribute that has a type.
    Typed { ty: Type, text: String },
}

/// The value of a constant as a mathematical value.
pub enum ConstantModel {
    Integer { ty: TypeModel, text: Seq<char> },
    Float { ty: TypeModel, text: Seq<char> },
    Typed { ty: TypeModel, text: Seq<char> },
}

impl View for ConstantValue {
    type V = ConstantModel;

    open spec fn view(&self) -> ConstantModel {
        match self {
            ConstantValue::Integer { ty, text } => ConstantModel::Integer {
                ty: ty@,
                text: text@,
            },
            ConstantValue::Float { ty, text } => ConstantModel::Float { ty: ty@, text: text@ },
            ConstantValue::Typed { ty, text } => ConstantModel::Typed { ty: ty@, text: text@ },
        }
    }
}

impl ConstantModel {
    /// The type of the value.
    pub open spec fn value_type(self) -> TypeModel {
        match self {
            ConstantModel::Integer { ty, .. } => ty,
            ConstantModel::Float { ty, .. } => ty,
            ConstantModel::Typed { ty, .. } => ty,
        }
    }
}

impl ConstantValue {
    /// The type of the value.
    pub fn get_type(&self) -> (ty: &Type)
        ensures
            ty@ == self@.value_type(),
    {
        match self {
            ConstantValue::Integer { ty, .. } => ty,
            ConstantValue::Float { ty, .. } => ty,
            ConstantValue::Typed { ty, .. } => ty,
        }
    }
}

/// A constant.
#[derive(Debug)]
pub struct ConstantOp {
    pub constant_value: ConstantValue,
    pub result: Type,
}

impl ConstantOp {
    /// The constant `value`; the result has its type.
    pub fn new(value: ConstantValue) -> (op: ConstantOp)
        ensures
            op.constant_value@ == value@,
            op.result@ == value@.value_type(),
    {
        let result = value.get_type().duplicate();
        ConstantOp { constant_value: value, result }
    }

    /// The value of the constant.
    pub fn get_value(&self) -> (value: &ConstantValue)
        ensures
            *value == self.constant_value,
    {
        &self.constant_value
    }

    /// Checks that the value is an integer or a floating-point number.
    pub fn verify(&self) -> (verdict: Result<(), ConstantOpVerifyErr>)
        ensures
            verdict == if self.constant_value@ is Integer || self.constant_value@ is Float {
                Ok::<(), ConstantOpVerifyErr>(())
            } else {
                Err(ConstantOpVerifyErr::InvalidValue)
            },
    {
        match &self.constant_value {
            ConstantValue::Integer { .. } | ConstantValue::Float { .. } => Ok(()),
            ConstantValue::Typed { .. } => Err(ConstantOpVerifyErr::InvalidValue),
        }
    }
}

/// The zero of a type.
#[derive(Debug)]
pub struct ZeroOp {
    pub result: Type,
}

impl ZeroOp {
    /// The zero of type `result_ty`.
    pub fn new(result_ty: Type) -> (op: ZeroOp)
        ensures
            op.result@ == result_ty@,
    {
        ZeroOp { result: result_ty }
    }
}

/// An undefined value of a type.
#[derive(Debug)]
pub struct UndefOp {
    pub result: Type,
}

impl UndefOp {
    /// An undefined value of type `result_ty`.
    pub fn new(result_ty: Type) -> (op: UndefOp)
        ensures
            op.result@ == result_ty@,
    {
        UndefOp { result: result_ty }
    }
}

/// The names of the constant operations.
pub open spec fn op_names() -> Set<Seq<char>> {
    set!["llvm.constant"@, "llvm.zero"@, "llvm.undef"@]
}

/// Registers the constant operations.
pub fn register(dialect: &mut Dialect)
    ensures
        final(dialect)@ == old(dialect)@.union(op_names()),
{
    dialect.add_op("llvm.constant");
    dialect.add_op("llvm.zero");
    dialect.add_op("llvm.undef");
    proof {
        assert(dialect@ =~= old(dialect)@.union(op_names()));
    }
}

} // verus!

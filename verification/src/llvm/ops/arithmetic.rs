//! Integer and floating-point arithmetic, bitwise operations and shifts.

use crate::llvm::attributes::FastmathFlags;
use crate::llvm::dialect::Dialect;
use crate::llvm::types::{same_type, Type, TypeModel};
use crate::llvm::value::Value;
use vstd::prelude::*;

verus! {

/// Promises on the overflow of an integer operation.
#[derive(Clone, Copy, Debug, PartialEq, Eq, Structural)]
pub struct IntegerOverflowFlags {
    /// The result does not overflow as a signed number.
    pub nsw: bool,
    /// The result does not overflow as an unsigned number.
    pub nuw: bool,
}

/// What is wrong with a binary arithmetic operation.
#[derive(Clone, Copy, Debug, PartialEq, Eq, Structural)]
pub enum BinArithVerifyErr {
    OperandTypes,
    ResultType,
    NotInteger,
    NotFloat,
}

impl BinArithVerifyErr {
    /// The text of the error.
    pub open spec fn text(self) -> Seq<char> {
        match self {
            BinArithVerifyErr::OperandTypes => "Operand types must match"@,
            BinArithVerifyErr::ResultType => "Result type must match operands"@,
            BinArithVerifyErr::NotInteger => "Operands must be integer type"@,
            BinArithVerifyErr::NotFloat => "Operands must be float type"@,
        }
    }

    /// The text of the error.
    pub fn message(&self) -> (message: &'static str)
        ensures
            message@ == self.text(),
    {
        match self {
            BinArithVerifyErr::OperandTypes => "Operand types must match",
            BinArithVerifyErr::ResultType => "Result type must match operands",
            BinArithVerifyErr::NotInteger => "Operands must be integer type",
            BinArithVerifyErr::NotFloat => "Operands must be float type",
        }
    }
}

/// What the check of a binary integer operation says.
pub open spec fn integer_operation(lhs: TypeModel, rhs: TypeModel, result: TypeModel) -> Result<
    (),
    BinArithVerifyErr,
> {
    if lhs != rhs {
        Err(BinArithVerifyErr::OperandTypes)
    } else if lhs != result {
        Err(BinArithVerifyErr::ResultType)
    } else if lhs !is Integer {
        Err(BinArithVerifyErr::NotInteger)
    } else {
        Ok(())
    }
}

/// What the check of a binary floating-point operation says.
pub open spec fn float_operation(lhs: TypeModel, rhs: TypeModel, result: TypeModel) -> Result<
    (),
    BinArithVerifyErr,
> {
    if lhs != rhs {
        Err(BinArithVerifyErr::OperandTypes)
    } else if lhs != result {
        Err(BinArithVerifyErr::ResultType)
    } else if lhs !is Float {
        Err(BinArithVerifyErr::NotFloat)
    } else {
        Ok(())
    }
}

/// Checks that operands and result have one integer type.
fn verify_integer(lhs: &Type, rhs: &Type, result: &Type) -> (verdict: Result<
    (),
    BinArithVerifyErr,
>)
    ensures
        verdict == integer_operation(lhs@, rhs@, result@),
{
    if !same_type(lhs, rhs) {
        return Err(BinArithVerifyErr::OperandTypes);
    }
    if !same_type(lhs, result) {
        return Err(BinArithVerifyErr::ResultType);
    }
    match lhs {
        Type::Integer { .. } => Ok(()),
        _ => Err(BinArithVerifyErr::NotInteger),
    }
}

/// Checks that operands and result have one floating-point type.
fn verify_float(lhs: &Type, rhs: &Type, result: &Type) -> (verdict: Result<(), BinArithVerifyErr>)
    ensures
        verdict == float_operation(lhs@, rhs@, result@),
{
    if !same_type(lhs, rhs) {
        return Err(BinArithVerifyErr::OperandTypes);
    }
    if !same_type(lhs, result) {
        return Err(BinArithVerifyErr::ResultType);
    }
    match lhs {
        Type::Float { .. } => Ok(()),
        _ => Err(BinArithVerifyErr::NotFloat),
    }
}

/// Integer addition.
#[derive(Debug)]
pub struct AddOp {
    pub lhs: Value,
    pub rhs: Value,
    pub llvm_integer_overflow_flags: IntegerOverflowFlags,
    pub result: Type,
}

impl AddOp {
    /// The operation on `lhs` and `rhs`; the result has the type of `lhs`.
    pub fn new_with_overflow_flag(lhs: Value, rhs: Value, flags: IntegerOverflowFlags) -> (op: AddOp)
        ensures
            op.lhs@ == lhs@,
            op.rhs@ == rhs@,
            op.llvm_integer_overflow_flags == flags,
            op.result@ == lhs.ty@,
    {
        let result = lhs.ty.duplicate();
        AddOp { lhs, rhs, llvm_integer_overflow_flags: flags, result }
    }

    /// Checks that operands and result have one integer type.
    pub fn verify(&self) -> (verdict: Result<(), BinArithVerifyErr>)
        ensures
            verdict == integer_operation(self.lhs.ty@, self.rhs.ty@, self.result@),
    {
        verify_integer(&self.lhs.ty, &self.rhs.ty, &self.result)
    }
}

/// Integer subtraction.
#[derive(Debug)]
pub struct SubOp {
    pub lhs: Value,
    pub rhs: Value,
    pub llvm_integer_overflow_flags: IntegerOverflowFlags,
    pub result: Type,
}

impl SubOp {
    /// The operation on `lhs` and `rhs`; the result has the type of `lhs`.
    pub fn new_with_overflow_flag(lhs: Value, rhs: Value, flags: IntegerOverflowFlags) -> (op: SubOp)
        ensures
            op.lhs@ == lhs@,
            op.rhs@ == rhs@,
            op.llvm_integer_overflow_flags == flags,
            op.result@ == lhs.ty@,
    {
        let result = lhs.ty.duplicate();
        SubOp { lhs, rhs, llvm_integer_overflow_flags: flags, result }
    }

    /// Checks that operands and result have one integer type.
    pub fn verify(&self) -> (verdict: Result<(), BinArithVerifyErr>)
        ensures
            verdict == integer_operation(self.lhs.ty@, self.rhs.ty@, self.result@),
    {
        verify_integer(&self.lhs.ty, &self.rhs.ty, &self.result)
    }
}

/// Integer multiplication.
#[derive(Debug)]
pub struct MulOp {
    pub lhs: Value,
    pub rhs: Value,
    pub llvm_integer_overflow_flags: IntegerOverflowFlags,
    pub result: Type,
}

impl MulOp {
    /// The operation on `lhs` and `rhs`; the result has the type of `lhs`.
    pub fn new_with_overflow_flag(lhs: Value, rhs: Value, flags: IntegerOverflowFlags) -> (op: MulOp)
        ensures
            op.lhs@ == lhs@,
            op.rhs@ == rhs@,
            op.llvm_integer_overflow_flags == flags,
            op.result@ == lhs.ty@,
    {
        let result = lhs.ty.duplicate();
        MulOp { lhs, rhs, llvm_integer_overflow_flags: flags, result }
    }

    /// Checks that operands and result have one integer type.
    pub fn verify(&self) -> (verdict: Result<(), BinArithVerifyErr>)
        ensures
            verdict == integer_operation(self.lhs.ty@, self.rhs.ty@, self.result@),
    {
        verify_integer(&self.lhs.ty, &self.rhs.ty, &self.result)
    }
}

/// Shift to the left.
#[derive(Debug)]
pub struct ShlOp {
    pub lhs: Value,
    pub rhs: Value,
    pub llvm_integer_overflow_flags: IntegerOverflowFlags,
    pub result: Type,
}

impl ShlOp {
    /// The operation on `lhs` and `rhs`; the result has the type of `lhs`.
    pub fn new_with_overflow_flag(lhs: Value, rhs: Value, flags: IntegerOverflowFlags) -> (op: ShlOp)
        ensures
            op.lhs@ == lhs@,
            op.rhs@ == rhs@,
            op.llvm_integer_overflow_flags == flags,
            op.result@ == lhs.ty@,
    {
        let result = lhs.ty.duplicate();
        ShlOp { lhs, rhs, llvm_integer_overflow_flags: flags, result }
    }

    /// Checks that operands and result have one integer type.
    pub fn verify(&self) -> (verdict: Result<(), BinArithVerifyErr>)
        ensures
            verdict == integer_operation(self.lhs.ty@, self.rhs.ty@, self.result@),
    {
        verify_integer(&self.lhs.ty, &self.rhs.ty, &self.result)
    }
}

/// Unsigned division.
#[derive(Debug)]
pub struct UDivOp {
    pub lhs: Value,
    pub rhs: Value,
    pub result: Type,
}

impl UDivOp {
    /// The operation on `lhs` and `rhs`; the result has the type of `lhs`.
    pub fn new(lhs: Value, rhs: Value) -> (op: UDivOp)
        ensures
            op.lhs@ == lhs@,
            op.rhs@ == rhs@,
            op.result@ == lhs.ty@,
    {
        let result = lhs.ty.duplicate();
        UDivOp { lhs, rhs, result }
    }

    /// Checks that operands and result have one integer type.
    pub fn verify(&self) -> (verdict: Result<(), BinArithVerifyErr>)
        ensures
            verdict == integer_operation(self.lhs.ty@, self.rhs.ty@, self.result@),
    {
        verify_integer(&self.lhs.ty, &self.rhs.ty, &self.result)
    }
}

/// Signed division.
#[derive(Debug)]
pub struct SDivOp {
    pub lhs: Value,
    pub rhs: Value,
    pub result: Type,
}

impl SDivOp {
    /// The operation on `lhs` and `rhs`; the result has the type of `lhs`.
    pub fn new(lhs: Value, rhs: Value) -> (op: SDivOp)
        ensures
            op.lhs@ == lhs@,
            op.rhs@ == rhs@,
            op.result@ == lhs.ty@,
    {
        let result = lhs.ty.duplicate();
        SDivOp { lhs, rhs, result }
    }

    /// Checks that operands and result have one integer type.
    pub fn verify(&self) -> (verdict: Result<(), BinArithVerifyErr>)
        ensures
            verdict == integer_operation(self.lhs.ty@, self.rhs.ty@, self.result@),
    {
        verify_integer(&self.lhs.ty, &self.rhs.ty, &self.result)
    }
}

/// Unsigned remainder.
#[derive(Debug)]
pub struct URemOp {
    pub lhs: Value,
    pub rhs: Value,
    pub result: Type,
}

impl URemOp {
    /// The operation on `lhs` and `rhs`; the result has the type of `lhs`.
    pub fn new(lhs: Value, rhs: Value) -> (op: URemOp)
        ensures
            op.lhs@ == lhs@,
            op.rhs@ == rhs@,
            op.result@ == lhs.ty@,
    {
        let result = lhs.ty.duplicate();
        URemOp { lhs, rhs, result }
    }

    /// Checks that operands and result have one integer type.
    pub fn verify(&self) -> (verdict: Result<(), BinArithVerifyErr>)
        ensures
            verdict == integer_operation(self.lhs.ty@, self.rhs.ty@, self.result@),
    {
        verify_integer(&self.lhs.ty, &self.rhs.ty, &self.result)
    }
}

/// Signed remainder.
#[derive(Debug)]
pub struct SRemOp {
    pub lhs: Value,
    pub rhs: Value,
    pub result: Type,
}

impl SRemOp {
    /// The operation on `lhs` and `rhs`; the result has the type of `lhs`.
    pub fn new(lhs: Value, rhs: Value) -> (op: SRemOp)
        ensures
            op.lhs@ == lhs@,
            op.rhs@ == rhs@,
            op.result@ == lhs.ty@,
    {
        let result = lhs.ty.duplicate();
        SRemOp { lhs, rhs, result }
    }

    /// Checks that operands and result have one integer type.
    pub fn verify(&self) -> (verdict: Result<(), BinArithVerifyErr>)
        ensures
            verdict == integer_operation(self.lhs.ty@, self.rhs.ty@, self.result@),
    {
        verify_integer(&self.lhs.ty, &self.rhs.ty, &self.result)
    }
}

/// Bitwise and.
#[derive(Debug)]
pub struct AndOp {
    pub lhs: Value,
    pub rhs: Value,
    pub result: Type,
}

impl AndOp {
    /// The operation on `lhs` and `rhs`; the result has the type of `lhs`.
    pub fn new(lhs: Value, rhs: Value) -> (op: AndOp)
        ensures
            op.lhs@ == lhs@,
            op.rhs@ == rhs@,
            op.result@ == lhs.ty@,
    {
        let result = lhs.ty.duplicate();
        AndOp { lhs, rhs, result }
    }

    /// Checks that operands and result have one integer type.
    pub fn verify(&self) -> (verdict: Result<(), BinArithVerifyErr>)
        ensures
            verdict == integer_operation(self.lhs.ty@, self.rhs.ty@, self.result@),
    {
        verify_integer(&self.lhs.ty, &self.rhs.ty, &self.result)
    }
}

/// Bitwise or.
#[derive(Debug)]
pub struct OrOp {
    pub lhs: Value,
    pub rhs: Value,
    pub result: Type,
}

impl OrOp {
    /// The operation on `lhs` and `rhs`; the result has the type of `lhs`.
    pub fn new(lhs: Value, rhs: Value) -> (op: OrOp)
        ensures
            op.lhs@ == lhs@,
            op.rhs@ == rhs@,
            op.result@ == lhs.ty@,
    {
        let result = lhs.ty.duplicate();
        OrOp { lhs, rhs, result }
    }

    /// Checks that operands and result have one integer type.
    pub fn verify(&self) -> (verdict: Result<(), BinArithVerifyErr>)
        ensures
            verdict == integer_operation(self.lhs.ty@, self.rhs.ty@, self.result@),
    {
        verify_integer(&self.lhs.ty, &self.rhs.ty, &self.result)
    }
}

/// Bitwise exclusive or.
#[derive(Debug)]
pub struct XorOp {
    pub lhs: Value,
    pub rhs: Value,
    pub result: Type,
}

impl XorOp {
    /// The operation on `lhs` and `rhs`; the result has the type of `lhs`.
    pub fn new(lhs: Value, rhs: Value) -> (op: XorOp)
        ensures
            op.lhs@ == lhs@,
            op.rhs@ == rhs@,
            op.result@ == lhs.ty@,
    {
        let result = lhs.ty.duplicate();
        XorOp { lhs, rhs, result }
    }

    /// Checks that operands and result have one integer type.
    pub fn verify(&self) -> (verdict: Result<(), BinArithVerifyErr>)
        ensures
            verdict == integer_operation(self.lhs.ty@, self.rhs.ty@, self.result@),
    {
        verify_integer(&self.lhs.ty, &self.rhs.ty, &self.result)
    }
}

/// Logical shift to the right.
#[derive(Debug)]
pub struct LShrOp {
    pub lhs: Value,
    pub rhs: Value,
    pub result: Type,
}

impl LShrOp {
    /// The operation on `lhs` and `rhs`; the result has the type of `lhs`.
    pub fn new(lhs: Value, rhs: Value) -> (op: LShrOp)
        ensures
            op.lhs@ == lhs@,
            op.rhs@ == rhs@,
            op.result@ == lhs.ty@,
    {
        let result = lhs.ty.duplicate();
        LShrOp { lhs, rhs, result }
    }

    /// Checks that operands and result have one integer type.
    pub fn verify(&self) -> (verdict: Result<(), BinArithVerifyErr>)
        ensures
            verdict == integer_operation(self.lhs.ty@, self.rhs.ty@, self.result@),
    {
        verify_integer(&self.lhs.ty, &self.rhs.ty, &self.result)
    }
}

/// Arithmetic shift to the right.
#[derive(Debug)]
pub struct AShrOp {
    pub lhs: Value,
    pub rhs: Value,
    pub result: Type,
}

impl AShrOp {
    /// The operation on `lhs` and `rhs`; the result has the type of `lhs`.
    pub fn new(lhs: Value, rhs: Value) -> (op: AShrOp)
        ensures
            op.lhs@ == lhs@,
            op.rhs@ == rhs@,
            op.result@ == lhs.ty@,
    {
        let result = lhs.ty.duplicate();
        AShrOp { lhs, rhs, result }
    }

    /// Checks that operands and result have one integer type.
    pub fn verify(&self) -> (verdict: Result<(), BinArithVerifyErr>)
        ensures
            verdict == integer_operation(self.lhs.ty@, self.rhs.ty@, self.result@),
    {
        verify_integer(&self.lhs.ty, &self.rhs.ty, &self.result)
    }
}

/// Floating-point addition.
#[derive(Debug)]
pub struct FAddOp {
    pub lhs: Value,
    pub rhs: Value,
    pub llvm_fast_math_flags: FastmathFlags,
    pub result: Type,
}

impl FAddOp {
    /// The operation on `lhs` and `rhs`; the result has the type of `lhs`.
    pub fn new_with_fast_math_flags(lhs: Value, rhs: Value, flags: FastmathFlags) -> (op: FAddOp)
        ensures
            op.lhs@ == lhs@,
            op.rhs@ == rhs@,
            op.llvm_fast_math_flags == flags,
            op.result@ == lhs.ty@,
    {
        let result = lhs.ty.duplicate();
        FAddOp { lhs, rhs, llvm_fast_math_flags: flags, result }
    }

    /// Checks that operands and result have one floating-point type.
    pub fn verify(&self) -> (verdict: Result<(), BinArithVerifyErr>)
        ensures
            verdict == float_operation(self.lhs.ty@, self.rhs.ty@, self.result@),
    {
        verify_float(&self.lhs.ty, &self.rhs.ty, &self.result)
    }
}

/// Floating-point subtraction.
#[derive(Debug)]
pub struct FSubOp {
    pub lhs: Value,
    pub rhs: Value,
    pub llvm_fast_math_flags: FastmathFlags,
    pub result: Type,
}

impl FSubOp {
    /// The operation on `lhs` and `rhs`; the result has the type of `lhs`.
    pub fn new_with_fast_math_flags(lhs: Value, rhs: Value, flags: FastmathFlags) -> (op: FSubOp)
        ensures
            op.lhs@ == lhs@,
            op.rhs@ == rhs@,
            op.llvm_fast_math_flags == flags,
            op.result@ == lhs.ty@,
    {
        let result = lhs.ty.duplicate();
        FSubOp { lhs, rhs, llvm_fast_math_flags: flags, result }
    }

    /// Checks that operands and result have one floating-point type.
    pub fn verify(&self) -> (verdict: Result<(), BinArithVerifyErr>)
        ensures
            verdict == float_operation(self.lhs.ty@, self.rhs.ty@, self.result@),
    {
        verify_float(&self.lhs.ty, &self.rhs.ty, &self.result)
    }
}

/// Floating-point multiplication.
#[derive(Debug)]
pub struct FMulOp {
    pub lhs: Value,
    pub rhs: Value,
    pub llvm_fast_math_flags: FastmathFlags,
    pub result: Type,
}

impl FMulOp {
    /// The operation on `lhs` and `rhs`; the result has the type of `lhs`.
    pub fn new_with_fast_math_flags(lhs: Value, rhs: Value, flags: FastmathFlags) -> (op: FMulOp)
        ensures
            op.lhs@ == lhs@,
            op.rhs@ == rhs@,
            op.llvm_fast_math_flags == flags,
            op.result@ == lhs.ty@,
    {
        let result = lhs.ty.duplicate();
        FMulOp { lhs, rhs, llvm_fast_math_flags: flags, result }
    }

    /// Checks that operands and result have one floating-point type.
    pub fn verify(&self) -> (verdict: Result<(), BinArithVerifyErr>)
        ensures
            verdict == float_operation(self.lhs.ty@, self.rhs.ty@, self.result@),
    {
        verify_float(&self.lhs.ty, &self.rhs.ty, &self.result)
    }
}

/// Floating-point division.
#[derive(Debug)]
pub struct FDivOp {
    pub lhs: Value,
    pub rhs: Value,
    pub llvm_fast_math_flags: FastmathFlags,
    pub result: Type,
}

impl FDivOp {
    /// The operation on `lhs` and `rhs`; the result has the type of `lhs`.
    pub fn new_with_fast_math_flags(lhs: Value, rhs: Value, flags: FastmathFlags) -> (op: FDivOp)
        ensures
            op.lhs@ == lhs@,
            op.rhs@ == rhs@,
            op.llvm_fast_math_flags == flags,
            op.result@ == lhs.ty@,
    {
        let result = lhs.ty.duplicate();
        FDivOp { lhs, rhs, llvm_fast_math_flags: flags, result }
    }

    /// Checks that operands and result have one floating-point type.
    pub fn verify(&self) -> (verdict: Result<(), BinArithVerifyErr>)
        ensures
            verdict == float_operation(self.lhs.ty@, self.rhs.ty@, self.result@),
    {
        verify_float(&self.lhs.ty, &self.rhs.ty, &self.result)
    }
}

/// Floating-point remainder.
#[derive(Debug)]
pub struct FRemOp {
    pub lhs: Value,
    pub rhs: Value,
    pub llvm_fast_math_flags: FastmathFlags,
    pub result: Type,
}

impl FRemOp {
    /// The operation on `lhs` and `rhs`; the result has the type of `lhs`.
    pub fn new_with_fast_math_flags(lhs: Value, rhs: Value, flags: FastmathFlags) -> (op: FRemOp)
        ensures
            op.lhs@ == lhs@,
            op.rhs@ == rhs@,
            op.llvm_fast_math_flags == flags,
            op.result@ == lhs.ty@,
    {
        let result = lhs.ty.duplicate();
        FRemOp { lhs, rhs, llvm_fast_math_flags: flags, result }
    }

    /// Checks that operands and result have one floating-point type.
    pub fn verify(&self) -> (verdict: Result<(), BinArithVerifyErr>)
        ensures
            verdict == float_operation(self.lhs.ty@, self.rhs.ty@, self.result@),
    {
        verify_float(&self.lhs.ty, &self.rhs.ty, &self.result)
    }
}

/// What is wrong with an [`FNegOp`].
#[derive(Clone, Copy, Debug, PartialEq, Eq, Structural)]
pub enum FNegOpVerifyErr {
    ArgumentMustBeFloat,
    FastMathFlagsMustBeSet,
    ResultDiffers,
}

impl FNegOpVerifyErr {
    /// The text of the error.
    pub open spec fn text(self) -> Seq<char> {
        match self {
            FNegOpVerifyErr::ArgumentMustBeFloat => "Argument must be a float"@,
            FNegOpVerifyErr::FastMathFlagsMustBeSet => "Fast math flags must be set"@,
            FNegOpVerifyErr::ResultDiffers => "Op has different operand and result types"@,
        }
    }

    /// The text of the error.
    pub fn message(&self) -> (message: &'static str)
        ensures
            message@ == self.text(),
    {
        match self {
            FNegOpVerifyErr::ArgumentMustBeFloat => "Argument must be a float",
            FNegOpVerifyErr::FastMathFlagsMustBeSet => "Fast math flags must be set",
            FNegOpVerifyErr::ResultDiffers => "Op has different operand and result types",
        }
    }
}

/// Floating-point negation.
#[derive(Debug)]
pub struct FNegOp {
    pub arg: Value,
    pub llvm_fast_math_flags: FastmathFlags,
    pub result: Type,
}

impl FNegOp {
    /// The negation of `arg`; the result has its type.
    pub fn new_with_fast_math_flags(arg: Value, fast_math_flags: FastmathFlags) -> (op: FNegOp)
        ensures
            op.arg@ == arg@,
            op.llvm_fast_math_flags == fast_math_flags,
            op.result@ == arg.ty@,
    {
        let result = arg.ty.duplicate();
        FNegOp { arg, llvm_fast_math_flags: fast_math_flags, result }
    }

    /// What [`FNegOp::verify`] says.
    pub open spec fn judged(self) -> Result<(), FNegOpVerifyErr> {
        if self.arg.ty@ != self.result@ {
            Err(FNegOpVerifyErr::ResultDiffers)
        } else if self.arg.ty@ is Float {
            Ok(())
        } else {
            Err(FNegOpVerifyErr::ArgumentMustBeFloat)
        }
    }

    /// Checks that argument and result have one type, and that the argument is a
    /// floating-point number, in this order.
    pub fn verify(&self) -> (verdict: Result<(), FNegOpVerifyErr>)
        ensures
            verdict == self.judged(),
    {
        if !same_type(&self.arg.ty, &self.result) {
            return Err(FNegOpVerifyErr::ResultDiffers);
        }
        match &self.arg.ty {
            Type::Float { .. } => Ok(()),
            _ => Err(FNegOpVerifyErr::ArgumentMustBeFloat),
        }
    }
}

/// A binary operation whose result has the type of its first operand passes
/// its check exactly if the operands have one type of the right sort.
pub proof fn built_arithmetic_is_checked_by_its_operands(lhs: TypeModel, rhs: TypeModel)
    ensures
        integer_operation(lhs, rhs, lhs) is Ok <==> lhs == rhs && lhs is Integer,
        float_operation(lhs, rhs, lhs) is Ok <==> lhs == rhs && lhs is Float,
        !(integer_operation(lhs, rhs, lhs) is Ok && float_operation(lhs, rhs, lhs) is Ok),
{
}

/// The names of the arithmetic operations.
pub open spec fn op_names() -> Set<Seq<char>> {
    set![
        "llvm.add"@,
        "llvm.sub"@,
        "llvm.mul"@,
        "llvm.shl"@,
        "llvm.udiv"@,
        "llvm.sdiv"@,
        "llvm.urem"@,
        "llvm.srem"@,
        "llvm.and"@,
        "llvm.or"@,
        "llvm.xor"@,
        "llvm.lshr"@,
        "llvm.ashr"@,
        "llvm.fadd"@,
        "llvm.fsub"@,
        "llvm.fmul"@,
        "llvm.fdiv"@,
        "llvm.frem"@,
        "llvm.fneg"@,
    ]
}

/// Registers the arithmetic operations.
pub fn register(dialect: &mut Dialect)
    ensures
        final(dialect)@ == old(dialect)@.union(op_names()),
{
    dialect.add_op("llvm.add");
    dialect.add_op("llvm.sub");
    dialect.add_op("llvm.mul");
    dialect.add_op("llvm.shl");
    dialect.add_op("llvm.udiv");
    dialect.add_op("llvm.sdiv");
    dialect.add_op("llvm.urem");
    dialect.add_op("llvm.srem");
    dialect.add_op("llvm.and");
    dialect.add_op("llvm.or");
    dialect.add_op("llvm.xor");
    dialect.add_op("llvm.lshr");
    dialect.add_op("llvm.ashr");
    dialect.add_op("llvm.fadd");
    dialect.add_op("llvm.fsub");
    dialect.add_op("llvm.fmul");
    dialect.add_op("llvm.fdiv");
    dialect.add_op("llvm.frem");
    dialect.add_op("llvm.fneg");
    proof {
        assert(dialect@ =~= old(dialect)@.union(op_names()));
    }
}

} // verus!

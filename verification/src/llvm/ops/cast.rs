//! Conversions between types.

use crate::llvm::attributes::FastmathFlags;
use crate::llvm::dialect::Dialect;
use crate::llvm::ops::comparison::ICmpPredicate;
use crate::llvm::types::{Signedness, Type, TypeModel};
use crate::llvm::value::Value;
use vstd::prelude::*;

verus! {

/// What is wrong with an [`IntToPtrOp`].
#[derive(Clone, Copy, Debug, PartialEq, Eq, Structural)]
pub enum IntToPtrOpErr {
    OperandTypeErr,
    ResultTypeErr,
}

impl IntToPtrOpErr {
    /// The text of the error.
    pub open spec fn text(self) -> Seq<char> {
        match self {
            IntToPtrOpErr::OperandTypeErr => "Operand must be a signless integer"@,
            IntToPtrOpErr::ResultTypeErr => "Result must be a pointer type"@,
        }
    }

    /// The text of the error.
    pub fn message(&self) -> (message: &'static str)
        ensures
            message@ == self.text(),
    {
        match self {
            IntToPtrOpErr::OperandTypeErr => "Operand must be a signless integer",
            IntToPtrOpErr::ResultTypeErr => "Result must be a pointer type",
        }
    }
}

/// What is wrong with a [`PtrToIntOp`].
#[derive(Clone, Copy, Debug, PartialEq, Eq, Structural)]
pub enum PtrToIntOpErr {
    OperandTypeErr,
    ResultTypeErr,
}

impl PtrToIntOpErr {
    /// The text of the error.
    pub open spec fn text(self) -> Seq<char> {
        match self {
            PtrToIntOpErr::OperandTypeErr => "Operand must be a pointer type"@,
            PtrToIntOpErr::ResultTypeErr => "Result must be a signless integer type"@,
        }
    }

    /// The text of the error.
    pub fn message(&self) -> (message: &'static str)
        ensures
            message@ == self.text(),
    {
        match self {
            PtrToIntOpErr::OperandTypeErr => "Operand must be a pointer type",
            PtrToIntOpErr::ResultTypeErr => "Result must be a signless integer type",
        }
    }
}

/// What is wrong with an [`AddrSpaceCastOp`].
#[derive(Clone, Copy, Debug, PartialEq, Eq, Structural)]
pub enum AddrSpaceCastOpErr {
    OperandTypeErr,
    ResultTypeErr,
}

impl AddrSpaceCastOpErr {
    /// The text of the error.
    pub open spec fn text(self) -> Seq<char> {
        match self {
            AddrSpaceCastOpErr::OperandTypeErr => "Operand must be a pointer type"@,
            AddrSpaceCastOpErr::ResultTypeErr => "Result must be a pointer type"@,
        }
    }

    /// The text of the error.
    pub fn message(&self) -> (message: &'static str)
        ensures
            message@ == self.text(),
    {
        match self {
            AddrSpaceCastOpErr::OperandTypeErr => "Operand must be a pointer type",
            AddrSpaceCastOpErr::ResultTypeErr => "Result must be a pointer type",
        }
    }
}

/// What is wrong with an integer cast.
#[derive(Clone, Copy, Debug, PartialEq, Eq, Structural)]
pub enum IntCastVerifyErr {
    ResultTypeErr,
    OperandTypeErr,
    ResultTypeSmallerThanOperand,
    ResultTypeLargerThanOperand,
    ResultTypeEqualToOperand,
    ResultTypeSameAsOperand,
}

impl IntCastVerifyErr {
    /// The text of the error.
    pub open spec fn text(self) -> Seq<char> {
        match self {
            IntCastVerifyErr::ResultTypeErr => "Result must be an integer"@,
            IntCastVerifyErr::OperandTypeErr => "Operand must be an integer"@,
            IntCastVerifyErr::ResultTypeSmallerThanOperand => {
                "Result type must be larger than operand type"@
            },
            IntCastVerifyErr::ResultTypeLargerThanOperand => {
                "Result type must be smaller than operand type"@
            },
            IntCastVerifyErr::ResultTypeEqualToOperand => {
                "Result type must be equal to operand type"@
            },
            IntCastVerifyErr::ResultTypeSameAsOperand => {
                "Result type must be different from operand type"@
            },
        }
    }

    /// The text of the error.
    pub fn message(&self) -> (message: &'static str)
        ensures
            message@ == self.text(),
    {
        match self {
            IntCastVerifyErr::ResultTypeErr => "Result must be an integer",
            IntCastVerifyErr::OperandTypeErr => "Operand must be an integer",
            IntCastVerifyErr::ResultTypeSmallerThanOperand => {
                "Result type must be larger than operand type"
            },
            IntCastVerifyErr::ResultTypeLargerThanOperand => {
                "Result type must be smaller than operand type"
            },
            IntCastVerifyErr::ResultTypeEqualToOperand => {
                "Result type must be equal to operand type"
            },
            IntCastVerifyErr::ResultTypeSameAsOperand => {
                "Result type must be different from operand type"
            },
        }
    }
}

/// What is wrong with a cast from or to a floating-point type.
#[derive(Clone, Copy, Debug, PartialEq, Eq, Structural)]
pub enum FloatCastVerifyErr {
    OperandTypeErr,
    ResultTypeErr,
    ResultTypeSmallerThanOperand,
    OperandTypeSmallerThanResult,
}

impl FloatCastVerifyErr {
    /// The text of the error.
    pub open spec fn text(self) -> Seq<char> {
        match self {
            FloatCastVerifyErr::OperandTypeErr => "Incorrect operand type"@,
            FloatCastVerifyErr::ResultTypeErr => "Incorrect result type"@,
            FloatCastVerifyErr::ResultTypeSmallerThanOperand => {
                "Result type must be bigger than the operand type"@
            },
            FloatCastVerifyErr::OperandTypeSmallerThanResult => {
                "Operand type must be bigger than the result type"@
            },
        }
    }

    /// The text of the error.
    pub fn message(&self) -> (message: &'static str)
        ensures
            message@ == self.text(),
    {
        match self {
            FloatCastVerifyErr::OperandTypeErr => "Incorrect operand type",
            FloatCastVerifyErr::ResultTypeErr => "Incorrect result type",
            FloatCastVerifyErr::ResultTypeSmallerThanOperand => {
                "Result type must be bigger than the operand type"
            },
            FloatCastVerifyErr::OperandTypeSmallerThanResult => {
                "Operand type must be bigger than the result type"
            },
        }
    }
}

/// An integer type without a sign.
pub open spec fn signless(ty: TypeModel) -> bool {
    ty matches TypeModel::Integer { signedness, .. } && signedness == Signedness::Signless
}

/// Tests for an integer type without a sign.
fn is_signless(ty: &Type) -> (found: bool)
    ensures
        found == signless(ty@),
{
    match ty {
        Type::Integer { signedness, .. } => *signedness == Signedness::Signless,
        _ => false,
    }
}

/// Tests for a pointer type.
fn is_pointer(ty: &Type) -> (found: bool)
    ensures
        found == (ty@ is Pointer),
{
    match ty {
        Type::Pointer { .. } => true,
        _ => false,
    }
}

/// Tests for a floating-point type.
fn is_float(ty: &Type) -> (found: bool)
    ensures
        found == (ty@ is Float),
{
    match ty {
        Type::Float { .. } => true,
        _ => false,
    }
}

/// The widths stand in the relationship that the predicate names.
pub open spec fn related(predicate: ICmpPredicate, result: u32, operand: u32) -> bool {
    match predicate {
        ICmpPredicate::SLT | ICmpPredicate::ULT => result < operand,
        ICmpPredicate::SGT | ICmpPredicate::UGT => result > operand,
        ICmpPredicate::SLE | ICmpPredicate::ULE => result <= operand,
        ICmpPredicate::SGE | ICmpPredicate::UGE => result >= operand,
        ICmpPredicate::EQ => result == operand,
        ICmpPredicate::NE => result != operand,
    }
}

/// How widths that are not in the relationship are reported.
pub open spec fn misfit(predicate: ICmpPredicate) -> IntCastVerifyErr {
    match predicate {
        ICmpPredicate::SLT | ICmpPredicate::ULT | ICmpPredicate::SLE | ICmpPredicate::ULE => {
            IntCastVerifyErr::ResultTypeLargerThanOperand
        },
        ICmpPredicate::SGT | ICmpPredicate::UGT | ICmpPredicate::SGE | ICmpPredicate::UGE => {
            IntCastVerifyErr::ResultTypeSmallerThanOperand
        },
        ICmpPredicate::EQ => IntCastVerifyErr::ResultTypeEqualToOperand,
        ICmpPredicate::NE => IntCastVerifyErr::ResultTypeSameAsOperand,
    }
}

/// What the check of an integer cast says.
pub open spec fn integer_cast(
    operand: TypeModel,
    result: TypeModel,
    predicate: ICmpPredicate,
) -> Result<(), IntCastVerifyErr> {
    match result {
        TypeModel::Integer { width: wide, .. } => match operand {
            TypeModel::Integer { width: narrow, .. } => if related(predicate, wide, narrow) {
                Ok(())
            } else {
                Err(misfit(predicate))
            },
            _ => Err(IntCastVerifyErr::OperandTypeErr),
        },
        _ => Err(IntCastVerifyErr::ResultTypeErr),
    }
}

/// Checks that result and operand are integers, and that their widths stand in
/// the relationship that `predicate` names.
pub fn integer_cast_verify(operand: &Type, result: &Type, predicate: ICmpPredicate) -> (verdict:
    Result<(), IntCastVerifyErr>)
    ensures
        verdict == integer_cast(operand@, result@, predicate),
{
    let res_width: u32 = match result {
        Type::Integer { width, .. } => *width,
        _ => {
            return Err(IntCastVerifyErr::ResultTypeErr);
        },
    };
    let opd_width: u32 = match operand {
        Type::Integer { width, .. } => *width,
        _ => {
            return Err(IntCastVerifyErr::OperandTypeErr);
        },
    };
    match predicate {
        ICmpPredicate::SLT | ICmpPredicate::ULT => {
            if res_width >= opd_width {
                return Err(IntCastVerifyErr::ResultTypeLargerThanOperand);
            }
        },
        ICmpPredicate::SGT | ICmpPredicate::UGT => {
            if res_width <= opd_width {
                return Err(IntCastVerifyErr::ResultTypeSmallerThanOperand);
            }
        },
        ICmpPredicate::SLE | ICmpPredicate::ULE => {
            if res_width > opd_width {
                return Err(IntCastVerifyErr::ResultTypeLargerThanOperand);
            }
        },
        ICmpPredicate::SGE | ICmpPredicate::UGE => {
            if res_width < opd_width {
                return Err(IntCastVerifyErr::ResultTypeSmallerThanOperand);
            }
        },
        ICmpPredicate::EQ => {
            if res_width != opd_width {
                return Err(IntCastVerifyErr::ResultTypeEqualToOperand);
            }
        },
        ICmpPredicate::NE => {
            if res_width == opd_width {
                return Err(IntCastVerifyErr::ResultTypeSameAsOperand);
            }
        },
    }
    Ok(())
}

/// Reinterprets the bits of a value. Every conversion passes.
#[derive(Debug)]
pub struct BitcastOp {
    pub arg: Value,
    pub result: Type,
}

impl BitcastOp {
    /// Converts `arg` to `result_ty`.
    pub fn new(arg: Value, result_ty: Type) -> (op: BitcastOp)
        ensures
            op.arg@ == arg@,
            op.result@ == result_ty@,
    {
        BitcastOp { arg, result: result_ty }
    }
}

/// Converts an integer to a pointer.
#[derive(Debug)]
pub struct IntToPtrOp {
    pub arg: Value,
    pub result: Type,
}

impl IntToPtrOp {
    /// Converts `arg` to `result_ty`.
    pub fn new(arg: Value, result_ty: Type) -> (op: IntToPtrOp)
        ensures
            op.arg@ == arg@,
            op.result@ == result_ty@,
    {
        IntToPtrOp { arg, result: result_ty }
    }

    /// What [`IntToPtrOp::verify`] says.
    pub open spec fn judged(self) -> Result<(), IntToPtrOpErr> {
        if !(signless(self.arg.ty@)) {
            Err(IntToPtrOpErr::OperandTypeErr)
        } else if !(self.result@ is Pointer) {
            Err(IntToPtrOpErr::ResultTypeErr)
        } else {
            Ok(())
        }
    }

    /// Checks for a signless integer and a pointer.
    pub fn verify(&self) -> (verdict: Result<(), IntToPtrOpErr>)
        ensures
            verdict == self.judged(),
    {
        if !is_signless(&self.arg.ty) {
            return Err(IntToPtrOpErr::OperandTypeErr);
        }
        if !is_pointer(&self.result) {
            return Err(IntToPtrOpErr::ResultTypeErr);
        }
        Ok(())
    }
}

/// Converts a pointer to an integer.
#[derive(Debug)]
pub struct PtrToIntOp {
    pub arg: Value,
    pub result: Type,
}

impl PtrToIntOp {
    /// Converts `arg` to `result_ty`.
    pub fn new(arg: Value, result_ty: Type) -> (op: PtrToIntOp)
        ensures
            op.arg@ == arg@,
            op.result@ == result_ty@,
    {
        PtrToIntOp { arg, result: result_ty }
    }

    /// What [`PtrToIntOp::verify`] says.
    pub open spec fn judged(self) -> Result<(), PtrToIntOpErr> {
        if !(self.arg.ty@ is Pointer) {
            Err(PtrToIntOpErr::OperandTypeErr)
        } else if !(signless(self.result@)) {
            Err(PtrToIntOpErr::ResultTypeErr)
        } else {
            Ok(())
        }
    }

    /// Checks for a pointer and a signless integer.
    pub fn verify(&self) -> (verdict: Result<(), PtrToIntOpErr>)
        ensures
            verdict == self.judged(),
    {
        if !is_pointer(&self.arg.ty) {
            return Err(PtrToIntOpErr::OperandTypeErr);
        }
        if !is_signless(&self.result) {
            return Err(PtrToIntOpErr::ResultTypeErr);
        }
        Ok(())
    }
}

/// Converts a pointer from one address space to another.
#[derive(Debug)]
pub struct AddrSpaceCastOp {
    pub arg: Value,
    pub result: Type,
}

impl AddrSpaceCastOp {
    /// Converts the pointer `operand` to the address space `target_addrspace`.
    pub fn new(operand: Value, target_addrspace: u32) -> (op: AddrSpaceCastOp)
        ensures
            op.arg@ == operand@,
            op.result@ == (TypeModel::Pointer { address_space: target_addrspace }),
    {
        AddrSpaceCastOp { arg: operand, result: Type::Pointer { address_space: target_addrspace } }
    }

    /// What [`AddrSpaceCastOp::verify`] says.
    pub open spec fn judged(self) -> Result<(), AddrSpaceCastOpErr> {
        if !(self.arg.ty@ is Pointer) {
            Err(AddrSpaceCastOpErr::OperandTypeErr)
        } else if !(self.result@ is Pointer) {
            Err(AddrSpaceCastOpErr::ResultTypeErr)
        } else {
            Ok(())
        }
    }

    /// Checks for a pointer on both sides.
    pub fn verify(&self) -> (verdict: Result<(), AddrSpaceCastOpErr>)
        ensures
            verdict == self.judged(),
    {
        if !is_pointer(&self.arg.ty) {
            return Err(AddrSpaceCastOpErr::OperandTypeErr);
        }
        if !is_pointer(&self.result) {
            return Err(AddrSpaceCastOpErr::ResultTypeErr);
        }
        Ok(())
    }
}

/// Extends an integer by its sign.
#[derive(Debug)]
pub struct SExtOp {
    pub arg: Value,
    pub result: Type,
}

impl SExtOp {
    /// Converts `arg` to `result_ty`.
    pub fn new(arg: Value, result_ty: Type) -> (op: SExtOp)
        ensures
            op.arg@ == arg@,
            op.result@ == result_ty@,
    {
        SExtOp { arg, result: result_ty }
    }

    /// Checks that the result is a wider integer.
    pub fn verify(&self) -> (verdict: Result<(), IntCastVerifyErr>)
        ensures
            verdict == integer_cast(self.arg.ty@, self.result@, ICmpPredicate::SGT),
    {
        integer_cast_verify(&self.arg.ty, &self.result, ICmpPredicate::SGT)
    }
}

/// Extends an integer by zeros. The flag promises that it is not negative.
#[derive(Debug)]
pub struct ZExtOp {
    pub arg: Value,
    pub llvm_nneg_flag: bool,
    pub result: Type,
}

impl ZExtOp {
    /// Converts `arg` to `result_ty`.
    pub fn new_with_nneg(arg: Value, result_ty: Type, nneg: bool) -> (op: ZExtOp)
        ensures
            op.arg@ == arg@,
            op.llvm_nneg_flag == nneg,
            op.result@ == result_ty@,
    {
        ZExtOp { arg, llvm_nneg_flag: nneg, result: result_ty }
    }

    /// Checks that the result is a wider integer.
    pub fn verify(&self) -> (verdict: Result<(), IntCastVerifyErr>)
        ensures
            verdict == integer_cast(self.arg.ty@, self.result@, ICmpPredicate::UGT),
    {
        integer_cast_verify(&self.arg.ty, &self.result, ICmpPredicate::UGT)
    }
}

/// Cuts an integer off.
#[derive(Debug)]
pub struct TruncOp {
    pub arg: Value,
    pub result: Type,
}

impl TruncOp {
    /// Converts `arg` to `result_ty`.
    pub fn new(arg: Value, result_ty: Type) -> (op: TruncOp)
        ensures
            op.arg@ == arg@,
            op.result@ == result_ty@,
    {
        TruncOp { arg, result: result_ty }
    }

    /// Checks that the result is a narrower integer.
    pub fn verify(&self) -> (verdict: Result<(), IntCastVerifyErr>)
        ensures
            verdict == integer_cast(self.arg.ty@, self.result@, ICmpPredicate::ULT),
    {
        integer_cast_verify(&self.arg.ty, &self.result, ICmpPredicate::ULT)
    }
}

/// Extends a floating-point number.
#[derive(Debug)]
pub struct FPExtOp {
    pub arg: Value,
    pub llvm_fast_math_flags: FastmathFlags,
    pub result: Type,
}

impl FPExtOp {
    /// Converts `arg` to `result_ty`.
    pub fn new_with_fast_math_flags(arg: Value, result_ty: Type, flags: FastmathFlags) -> (op: FPExtOp)
        ensures
            op.arg@ == arg@,
            op.llvm_fast_math_flags == flags,
            op.result@ == result_ty@,
    {
        FPExtOp { arg, llvm_fast_math_flags: flags, result: result_ty }
    }

    /// What [`FPExtOp::verify`] says.
    pub open spec fn judged(self) -> Result<(), FloatCastVerifyErr> {
        match self.arg.ty@ {
            TypeModel::Float { bits: narrow, .. } => match self.result@ {
                TypeModel::Float { bits: wide, .. } => if wide > narrow {
                    Ok(())
                } else {
                    Err(FloatCastVerifyErr::ResultTypeSmallerThanOperand)
                },
                _ => Err(FloatCastVerifyErr::ResultTypeErr),
            },
            _ => Err(FloatCastVerifyErr::OperandTypeErr),
        }
    }

    /// Checks that the result is a floating-point type of more bits.
    pub fn verify(&self) -> (verdict: Result<(), FloatCastVerifyErr>)
        ensures
            verdict == self.judged(),
    {
        let opd_size: u32 = match &self.arg.ty {
            Type::Float { bits, .. } => *bits,
            _ => {
                return Err(FloatCastVerifyErr::OperandTypeErr);
            },
        };
        let res_size: u32 = match &self.result {
            Type::Float { bits, .. } => *bits,
            _ => {
                return Err(FloatCastVerifyErr::ResultTypeErr);
            },
        };
        if res_size <= opd_size {
            return Err(FloatCastVerifyErr::ResultTypeSmallerThanOperand);
        }
        Ok(())
    }
}

/// Rounds a floating-point number to fewer bits.
#[derive(Debug)]
pub struct FPTruncOp {
    pub arg: Value,
    pub llvm_fast_math_flags: FastmathFlags,
    pub result: Type,
}

impl FPTruncOp {
    /// Converts `arg` to `result_ty`.
    pub fn new_with_fast_math_flags(arg: Value, result_ty: Type, flags: FastmathFlags) -> (op: FPTruncOp)
        ensures
            op.arg@ == arg@,
            op.llvm_fast_math_flags == flags,
            op.result@ == result_ty@,
    {
        FPTruncOp { arg, llvm_fast_math_flags: flags, result: result_ty }
    }

    /// What [`FPTruncOp::verify`] says.
    pub open spec fn judged(self) -> Result<(), FloatCastVerifyErr> {
        match self.arg.ty@ {
            TypeModel::Float { bits: operand, .. } => match self.result@ {
                TypeModel::Float { bits: result, .. } => if operand > result {
                    Ok(())
                } else {
                    Err(FloatCastVerifyErr::OperandTypeSmallerThanResult)
                },
                _ => Err(FloatCastVerifyErr::ResultTypeErr),
            },
            _ => Err(FloatCastVerifyErr::OperandTypeErr),
        }
    }

    /// Checks that the result is a floating-point type of fewer bits.
    pub fn verify(&self) -> (verdict: Result<(), FloatCastVerifyErr>)
        ensures
            verdict == self.judged(),
    {
        let opd_size: u32 = match &self.arg.ty {
            Type::Float { bits, .. } => *bits,
            _ => {
                return Err(FloatCastVerifyErr::OperandTypeErr);
            },
        };
        let res_size: u32 = match &self.result {
            Type::Float { bits, .. } => *bits,
            _ => {
                return Err(FloatCastVerifyErr::ResultTypeErr);
            },
        };
        if opd_size <= res_size {
            return Err(FloatCastVerifyErr::OperandTypeSmallerThanResult);
        }
        Ok(())
    }
}

/// Converts a floating-point number to a signed integer.
#[derive(Debug)]
pub struct FPToSIOp {
    pub arg: Value,
    pub result: Type,
}

impl FPToSIOp {
    /// Converts `arg` to `result_ty`.
    pub fn new(arg: Value, result_ty: Type) -> (op: FPToSIOp)
        ensures
            op.arg@ == arg@,
            op.result@ == result_ty@,
    {
        FPToSIOp { arg, result: result_ty }
    }

    /// What [`FPToSIOp::verify`] says.
    pub open spec fn judged(self) -> Result<(), FloatCastVerifyErr> {
        if !(self.arg.ty@ is Float) {
            Err(FloatCastVerifyErr::OperandTypeErr)
        } else if !(signless(self.result@)) {
            Err(FloatCastVerifyErr::ResultTypeErr)
        } else {
            Ok(())
        }
    }

    /// Checks for a floating-point number and a signless integer.
    pub fn verify(&self) -> (verdict: Result<(), FloatCastVerifyErr>)
        ensures
            verdict == self.judged(),
    {
        if !is_float(&self.arg.ty) {
            return Err(FloatCastVerifyErr::OperandTypeErr);
        }
        if !is_signless(&self.result) {
            return Err(FloatCastVerifyErr::ResultTypeErr);
        }
        Ok(())
    }
}

/// Converts a floating-point number to an unsigned integer.
#[derive(Debug)]
pub struct FPToUIOp {
    pub arg: Value,
    pub result: Type,
}

impl FPToUIOp {
    /// Converts `arg` to `result_ty`.
    pub fn new(arg: Value, result_ty: Type) -> (op: FPToUIOp)
        ensures
            op.arg@ == arg@,
            op.result@ == result_ty@,
    {
        FPToUIOp { arg, result: result_ty }
    }

    /// What [`FPToUIOp::verify`] says.
    pub open spec fn judged(self) -> Result<(), FloatCastVerifyErr> {
        if !(self.arg.ty@ is Float) {
            Err(FloatCastVerifyErr::OperandTypeErr)
        } else if !(signless(self.result@)) {
            Err(FloatCastVerifyErr::ResultTypeErr)
        } else {
            Ok(())
        }
    }

    /// Checks for a floating-point number and a signless integer.
    pub fn verify(&self) -> (verdict: Result<(), FloatCastVerifyErr>)
        ensures
            verdict == self.judged(),
    {
        if !is_float(&self.arg.ty) {
            return Err(FloatCastVerifyErr::OperandTypeErr);
        }
        if !is_signless(&self.result) {
            return Err(FloatCastVerifyErr::ResultTypeErr);
        }
        Ok(())
    }
}

/// Converts a signed integer to a floating-point number.
#[derive(Debug)]
pub struct SIToFPOp {
    pub arg: Value,
    pub result: Type,
}

impl SIToFPOp {
    /// Converts `arg` to `result_ty`.
    pub fn new(arg: Value, result_ty: Type) -> (op: SIToFPOp)
        ensures
            op.arg@ == arg@,
            op.result@ == result_ty@,
    {
        SIToFPOp { arg, result: result_ty }
    }

    /// What [`SIToFPOp::verify`] says.
    pub open spec fn judged(self) -> Result<(), FloatCastVerifyErr> {
        if !(signless(self.arg.ty@)) {
            Err(FloatCastVerifyErr::OperandTypeErr)
        } else if !(self.result@ is Float) {
            Err(FloatCastVerifyErr::ResultTypeErr)
        } else {
            Ok(())
        }
    }

    /// Checks for a signless integer and a floating-point number.
    pub fn verify(&self) -> (verdict: Result<(), FloatCastVerifyErr>)
        ensures
            verdict == self.judged(),
    {
        if !is_signless(&self.arg.ty) {
            return Err(FloatCastVerifyErr::OperandTypeErr);
        }
        if !is_float(&self.result) {
            return Err(FloatCastVerifyErr::ResultTypeErr);
        }
        Ok(())
    }
}

/// Converts an unsigned integer to a floating-point number. The flag promises
/// that it is not negative.
#[derive(Debug)]
pub struct UIToFPOp {
    pub arg: Value,
    pub llvm_nneg_flag: bool,
    pub result: Type,
}

impl UIToFPOp {
    /// Converts `arg` to `result_ty`.
    pub fn new_with_nneg(arg: Value, result_ty: Type, nneg: bool) -> (op: UIToFPOp)
        ensures
            op.arg@ == arg@,
            op.llvm_nneg_flag == nneg,
            op.result@ == result_ty@,
    {
        UIToFPOp { arg, llvm_nneg_flag: nneg, result: result_ty }
    }

    /// What [`UIToFPOp::verify`] says.
    pub open spec fn judged(self) -> Result<(), FloatCastVerifyErr> {
        if !(signless(self.arg.ty@)) {
            Err(FloatCastVerifyErr::OperandTypeErr)
        } else if !(self.result@ is Float) {
            Err(FloatCastVerifyErr::ResultTypeErr)
        } else {
            Ok(())
        }
    }

    /// Checks for a signless integer and a floating-point number.
    pub fn verify(&self) -> (verdict: Result<(), FloatCastVerifyErr>)
        ensures
            verdict == self.judged(),
    {
        if !is_signless(&self.arg.ty) {
            return Err(FloatCastVerifyErr::OperandTypeErr);
        }
        if !is_float(&self.result) {
            return Err(FloatCastVerifyErr::ResultTypeErr);
        }
        Ok(())
    }
}

/// What an extension accepts, a truncation undoes: between two integer types
/// exactly one of extension, truncation and no cast at all fits.
pub proof fn integer_casts_are_opposite(narrow: TypeModel, wide: TypeModel)
    requires
        narrow is Integer,
        wide is Integer,
    ensures
        integer_cast(narrow, wide, ICmpPredicate::UGT) is Ok <==> integer_cast(
            wide,
            narrow,
            ICmpPredicate::ULT,
        ) is Ok,
        integer_cast(narrow, wide, ICmpPredicate::UGT) is Ok ==> integer_cast(
            narrow,
            wide,
            ICmpPredicate::ULT,
        ) is Err,
        integer_cast(narrow, wide, ICmpPredicate::SGT) == integer_cast(
            narrow,
            wide,
            ICmpPredicate::UGT,
        ),
        narrow->width == wide->width <==> integer_cast(narrow, wide, ICmpPredicate::UGT) is Err
            && integer_cast(narrow, wide, ICmpPredicate::ULT) is Err,
{
}

/// A floating-point extension is accepted exactly if the truncation back is.
pub proof fn float_casts_are_opposite(extend: FPExtOp, truncate: FPTruncOp)
    requires
        truncate.arg.ty@ == extend.result@,
        truncate.result@ == extend.arg.ty@,
    ensures
        extend.judged() is Ok <==> truncate.judged() is Ok,
{
}

/// What is converted to a pointer by one cast can be converted back by the
/// other.
pub proof fn pointer_casts_are_opposite(forth: IntToPtrOp, back: PtrToIntOp)
    requires
        back.arg.ty@ == forth.result@,
        back.result@ == forth.arg.ty@,
    ensures
        forth.judged() is Ok <==> back.judged() is Ok,
{
}

/// The names of the cast operations.
pub open spec fn op_names() -> Set<Seq<char>> {
    set![
        "llvm.bitcast"@,
        "llvm.ptrtoint"@,
        "llvm.inttoptr"@,
        "llvm.addrspacecast"@,
        "llvm.sext"@,
        "llvm.zext"@,
        "llvm.trunc"@,
        "llvm.fptrunc"@,
        "llvm.fpext"@,
        "llvm.fptosi"@,
        "llvm.fptoui"@,
        "llvm.sitofp"@,
        "llvm.uitofp"@,
    ]
}

/// Registers the cast operations.
pub fn register(dialect: &mut Dialect)
    ensures
        final(dialect)@ == old(dialect)@.union(op_names()),
{
    dialect.add_op("llvm.bitcast");
    dialect.add_op("llvm.ptrtoint");
    dialect.add_op("llvm.inttoptr");
    dialect.add_op("llvm.addrspacecast");
    dialect.add_op("llvm.sext");
    dialect.add_op("llvm.zext");
    dialect.add_op("llvm.trunc");
    dialect.add_op("llvm.fptrunc");
    dialect.add_op("llvm.fpext");
    dialect.add_op("llvm.fptosi");
    dialect.add_op("llvm.fptoui");
    dialect.add_op("llvm.sitofp");
    dialect.add_op("llvm.uitofp");
    proof {
        assert(dialect@ =~= old(dialect)@.union(op_names()));
    }
}

} // verus!

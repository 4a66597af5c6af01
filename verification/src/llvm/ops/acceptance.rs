//! What the operations are built of, and which of them their checks accept,
//! each stated by itself.

use crate::llvm::attributes::FastmathFlags;
use crate::llvm::ops::aggregate::{
    ExtractElementErr, ExtractElementOp, ExtractValueOp, InsertExtractValueErr, InsertValueOp,
    InsertValueVerifyErr,
};
use crate::llvm::ops::arithmetic::{
    AShrOp, AddOp, AndOp, BinArithVerifyErr, FAddOp, FDivOp, FMulOp, FNegOp, FNegOpVerifyErr,
    FRemOp, FSubOp, IntegerOverflowFlags, LShrOp, MulOp, OrOp, SDivOp, SRemOp, ShlOp, SubOp,
    UDivOp, URemOp, XorOp,
};
use crate::llvm::ops::assembly::{
    InlineAsmMultiOp, InlineAsmMultiVerifyErr, InlineAsmOp, InlineAsmVerifyErr,
};
use crate::llvm::ops::atomic::{
    AtomicCmpxchgOp, AtomicLoadOp, AtomicRmwOp, AtomicStoreOp, AtomicVerifyErr,
};
use crate::llvm::ops::call::{CallIntrinsicOp, CallIntrinsicVerifyErr, CallOp, CallTypeErr};
use crate::llvm::ops::cast::{
    integer_cast_verify, AddrSpaceCastOp, FPExtOp, FPToSIOp, FPToUIOp, FPTruncOp,
    FloatCastVerifyErr, IntCastVerifyErr, IntToPtrOp, PtrToIntOp, SExtOp, SIToFPOp, TruncOp,
    UIToFPOp, ZExtOp,
};
use crate::llvm::ops::comparison::{FCmpOp, FCmpPredicate, ICmpOp, ICmpPredicate};
use crate::llvm::ops::constants::{ConstantOp, ConstantOpVerifyErr, ConstantValue};
use crate::llvm::ops::select::{SelectOp, SelectOpVerifyErr};
use crate::llvm::ops::symbol::{
    AddressOfOp, AddressOfVerifyErr, FuncOp, GlobalOp, Symbol, SymbolUserOpVerifyErr,
};
use crate::llvm::ops::va::{VAArgOp, VAArgOpVerifyErr};
use crate::llvm::types::{FuncType, Signedness, Type, TypeModel};
use crate::llvm::value::Value;
use vstd::prelude::*;

verus! {

/// The type of integers of so many bits.
pub open spec fn integer(width: u32, signedness: Signedness) -> TypeModel {
    TypeModel::Integer { width, signedness }
}

/// The type of floating-point numbers of so many bits.
pub open spec fn float(bits: u32, precision: u32) -> TypeModel {
    TypeModel::Float { bits, precision }
}

/// The type is an integer type.
pub open spec fn is_integer(ty: TypeModel) -> bool {
    exists|width: u32, signedness: Signedness| ty == #[trigger] integer(width, signedness)
}

/// The type is a floating-point type.
pub open spec fn is_float(ty: TypeModel) -> bool {
    exists|bits: u32, precision: u32| ty == #[trigger] float(bits, precision)
}

/// The type is a pointer type.
pub open spec fn is_pointer(ty: TypeModel) -> bool {
    exists|address_space: u32| ty == #[trigger] pointer(address_space)
}

/// The type of pointers into an address space.
pub open spec fn pointer(address_space: u32) -> TypeModel {
    TypeModel::Pointer { address_space }
}

/// The constructors of the types, as instances.
proof fn lemma_sorts(ty: TypeModel)
    ensures
        is_integer(ty) <==> ty is Integer,
        is_float(ty) <==> ty is Float,
        is_pointer(ty) <==> ty is Pointer,
{
    match ty {
        TypeModel::Integer { width, signedness } => {
            assert(ty == integer(width, signedness));
        },
        TypeModel::Float { bits, precision } => {
            assert(ty == float(bits, precision));
        },
        TypeModel::Pointer { address_space } => {
            assert(ty == pointer(address_space));
        },
        _ => {},
    }
}

/// The verdict on an operation whose operands and result have to be of one
/// integer type. An error says the first thing that is wrong.
pub open spec fn over_one_integer_type(
    lhs: TypeModel,
    rhs: TypeModel,
    result: TypeModel,
    verdict: Result<(), BinArithVerifyErr>,
) -> bool {
    &&& verdict is Ok <==> is_integer(lhs) && rhs == lhs && result == lhs
    &&& verdict matches Err(error) ==> match error {
        BinArithVerifyErr::OperandTypes => lhs != rhs,
        BinArithVerifyErr::ResultType => lhs == rhs && result != rhs,
        BinArithVerifyErr::NotInteger => lhs == rhs && rhs == result && !is_integer(result),
        BinArithVerifyErr::NotFloat => false,
    }
}

/// The verdict on an operation whose operands and result have to be of one
/// floating-point type. An error says the first thing that is wrong.
pub open spec fn over_one_float_type(
    lhs: TypeModel,
    rhs: TypeModel,
    result: TypeModel,
    verdict: Result<(), BinArithVerifyErr>,
) -> bool {
    &&& verdict is Ok <==> is_float(lhs) && rhs == lhs && result == lhs
    &&& verdict matches Err(error) ==> match error {
        BinArithVerifyErr::OperandTypes => lhs != rhs,
        BinArithVerifyErr::ResultType => lhs == rhs && result != rhs,
        BinArithVerifyErr::NotFloat => lhs == rhs && rhs == result && !is_float(result),
        BinArithVerifyErr::NotInteger => false,
    }
}

/// Additions take their operands in order, keep their flags and give the type of the
/// first; they are accepted over one integer type.
pub proof fn additions_are_over_integers(
    lhs: Value,
    rhs: Value,
    flags: IntegerOverflowFlags,
    built: AddOp,
    op: AddOp,
    verdict: Result<(), BinArithVerifyErr>,
)
    requires
        call_ensures(AddOp::new_with_overflow_flag, (lhs, rhs, flags), built),
        call_ensures(AddOp::verify, (&op,), verdict),
    ensures
        built.lhs@ == lhs@,
        built.rhs@ == rhs@,
        built.llvm_integer_overflow_flags == flags,
        built.result@ == lhs@.ty,
        over_one_integer_type(op.lhs@.ty, op.rhs@.ty, op.result@, verdict),
{
    lemma_sorts(op.lhs@.ty);
}

/// Subtractions take their operands in order, keep their flags and give the type of the
/// first; they are accepted over one integer type.
pub proof fn subtractions_are_over_integers(
    lhs: Value,
    rhs: Value,
    flags: IntegerOverflowFlags,
    built: SubOp,
    op: SubOp,
    verdict: Result<(), BinArithVerifyErr>,
)
    requires
        call_ensures(SubOp::new_with_overflow_flag, (lhs, rhs, flags), built),
        call_ensures(SubOp::verify, (&op,), verdict),
    ensures
        built.lhs@ == lhs@,
        built.rhs@ == rhs@,
        built.llvm_integer_overflow_flags == flags,
        built.result@ == lhs@.ty,
        over_one_integer_type(op.lhs@.ty, op.rhs@.ty, op.result@, verdict),
{
    lemma_sorts(op.lhs@.ty);
}

/// Multiplications take their operands in order, keep their flags and give the type of the
/// first; they are accepted over one integer type.
pub proof fn multiplications_are_over_integers(
    lhs: Value,
    rhs: Value,
    flags: IntegerOverflowFlags,
    built: MulOp,
    op: MulOp,
    verdict: Result<(), BinArithVerifyErr>,
)
    requires
        call_ensures(MulOp::new_with_overflow_flag, (lhs, rhs, flags), built),
        call_ensures(MulOp::verify, (&op,), verdict),
    ensures
        built.lhs@ == lhs@,
        built.rhs@ == rhs@,
        built.llvm_integer_overflow_flags == flags,
        built.result@ == lhs@.ty,
        over_one_integer_type(op.lhs@.ty, op.rhs@.ty, op.result@, verdict),
{
    lemma_sorts(op.lhs@.ty);
}

/// Left shifts take their operands in order, keep their flags and give the type of the
/// first; they are accepted over one integer type.
pub proof fn left_shifts_are_over_integers(
    lhs: Value,
    rhs: Value,
    flags: IntegerOverflowFlags,
    built: ShlOp,
    op: ShlOp,
    verdict: Result<(), BinArithVerifyErr>,
)
    requires
        call_ensures(ShlOp::new_with_overflow_flag, (lhs, rhs, flags), built),
        call_ensures(ShlOp::verify, (&op,), verdict),
    ensures
        built.lhs@ == lhs@,
        built.rhs@ == rhs@,
        built.llvm_integer_overflow_flags == flags,
        built.result@ == lhs@.ty,
        over_one_integer_type(op.lhs@.ty, op.rhs@.ty, op.result@, verdict),
{
    lemma_sorts(op.lhs@.ty);
}

/// Unsigned divisions take their operands in order and give the type of the
/// first; they are accepted over one integer type.
pub proof fn unsigned_divisions_are_over_integers(
    lhs: Value,
    rhs: Value,
    built: UDivOp,
    op: UDivOp,
    verdict: Result<(), BinArithVerifyErr>,
)
    requires
        call_ensures(UDivOp::new, (lhs, rhs), built),
        call_ensures(UDivOp::verify, (&op,), verdict),
    ensures
        built.lhs@ == lhs@,
        built.rhs@ == rhs@,
        built.result@ == lhs@.ty,
        over_one_integer_type(op.lhs@.ty, op.rhs@.ty, op.result@, verdict),
{
    lemma_sorts(op.lhs@.ty);
}

/// Signed divisions take their operands in order and give the type of the
/// first; they are accepted over one integer type.
pub proof fn signed_divisions_are_over_integers(
    lhs: Value,
    rhs: Value,
    built: SDivOp,
    op: SDivOp,
    verdict: Result<(), BinArithVerifyErr>,
)
    requires
        call_ensures(SDivOp::new, (lhs, rhs), built),
        call_ensures(SDivOp::verify, (&op,), verdict),
    ensures
        built.lhs@ == lhs@,
        built.rhs@ == rhs@,
        built.result@ == lhs@.ty,
        over_one_integer_type(op.lhs@.ty, op.rhs@.ty, op.result@, verdict),
{
    lemma_sorts(op.lhs@.ty);
}

/// Unsigned remainders take their operands in order and give the type of the
/// first; they are accepted over one integer type.
pub proof fn unsigned_remainders_are_over_integers(
    lhs: Value,
    rhs: Value,
    built: URemOp,
    op: URemOp,
    verdict: Result<(), BinArithVerifyErr>,
)
    requires
        call_ensures(URemOp::new, (lhs, rhs), built),
        call_ensures(URemOp::verify, (&op,), verdict),
    ensures
        built.lhs@ == lhs@,
        built.rhs@ == rhs@,
        built.result@ == lhs@.ty,
        over_one_integer_type(op.lhs@.ty, op.rhs@.ty, op.result@, verdict),
{
    lemma_sorts(op.lhs@.ty);
}

/// Signed remainders take their operands in order and give the type of the
/// first; they are accepted over one integer type.
pub proof fn signed_remainders_are_over_integers(
    lhs: Value,
    rhs: Value,
    built: SRemOp,
    op: SRemOp,
    verdict: Result<(), BinArithVerifyErr>,
)
    requires
        call_ensures(SRemOp::new, (lhs, rhs), built),
        call_ensures(SRemOp::verify, (&op,), verdict),
    ensures
        built.lhs@ == lhs@,
        built.rhs@ == rhs@,
        built.result@ == lhs@.ty,
        over_one_integer_type(op.lhs@.ty, op.rhs@.ty, op.result@, verdict),
{
    lemma_sorts(op.lhs@.ty);
}

/// Bitwise ands take their operands in order and give the type of the
/// first; they are accepted over one integer type.
pub proof fn bitwise_ands_are_over_integers(
    lhs: Value,
    rhs: Value,
    built: AndOp,
    op: AndOp,
    verdict: Result<(), BinArithVerifyErr>,
)
    requires
        call_ensures(AndOp::new, (lhs, rhs), built),
        call_ensures(AndOp::verify, (&op,), verdict),
    ensures
        built.lhs@ == lhs@,
        built.rhs@ == rhs@,
        built.result@ == lhs@.ty,
        over_one_integer_type(op.lhs@.ty, op.rhs@.ty, op.result@, verdict),
{
    lemma_sorts(op.lhs@.ty);
}

/// Bitwise ors take their operands in order and give the type of the
/// first; they are accepted over one integer type.
pub proof fn bitwise_ors_are_over_integers(
    lhs: Value,
    rhs: Value,
    built: OrOp,
    op: OrOp,
    verdict: Result<(), BinArithVerifyErr>,
)
    requires
        call_ensures(OrOp::new, (lhs, rhs), built),
        call_ensures(OrOp::verify, (&op,), verdict),
    ensures
        built.lhs@ == lhs@,
        built.rhs@ == rhs@,
        built.result@ == lhs@.ty,
        over_one_integer_type(op.lhs@.ty, op.rhs@.ty, op.result@, verdict),
{
    lemma_sorts(op.lhs@.ty);
}

/// Bitwise exclusive ors take their operands in order and give the type of the
/// first; they are accepted over one integer type.
pub proof fn bitwise_exclusive_ors_are_over_integers(
    lhs: Value,
    rhs: Value,
    built: XorOp,
    op: XorOp,
    verdict: Result<(), BinArithVerifyErr>,
)
    requires
        call_ensures(XorOp::new, (lhs, rhs), built),
        call_ensures(XorOp::verify, (&op,), verdict),
    ensures
        built.lhs@ == lhs@,
        built.rhs@ == rhs@,
        built.result@ == lhs@.ty,
        over_one_integer_type(op.lhs@.ty, op.rhs@.ty, op.result@, verdict),
{
    lemma_sorts(op.lhs@.ty);
}

/// Logical right shifts take their operands in order and give the type of the
/// first; they are accepted over one integer type.
pub proof fn logical_right_shifts_are_over_integers(
    lhs: Value,
    rhs: Value,
    built: LShrOp,
    op: LShrOp,
    verdict: Result<(), BinArithVerifyErr>,
)
    requires
        call_ensures(LShrOp::new, (lhs, rhs), built),
        call_ensures(LShrOp::verify, (&op,), verdict),
    ensures
        built.lhs@ == lhs@,
        built.rhs@ == rhs@,
        built.result@ == lhs@.ty,
        over_one_integer_type(op.lhs@.ty, op.rhs@.ty, op.result@, verdict),
{
    lemma_sorts(op.lhs@.ty);
}

/// Arithmetic right shifts take their operands in order and give the type of the
/// first; they are accepted over one integer type.
pub proof fn arithmetic_right_shifts_are_over_integers(
    lhs: Value,
    rhs: Value,
    built: AShrOp,
    op: AShrOp,
    verdict: Result<(), BinArithVerifyErr>,
)
    requires
        call_ensures(AShrOp::new, (lhs, rhs), built),
        call_ensures(AShrOp::verify, (&op,), verdict),
    ensures
        built.lhs@ == lhs@,
        built.rhs@ == rhs@,
        built.result@ == lhs@.ty,
        over_one_integer_type(op.lhs@.ty, op.rhs@.ty, op.result@, verdict),
{
    lemma_sorts(op.lhs@.ty);
}

/// Float additions take their operands in order, keep their flags and give the type of the
/// first; they are accepted over one floating-point type.
pub proof fn float_additions_are_over_floats(
    lhs: Value,
    rhs: Value,
    flags: FastmathFlags,
    built: FAddOp,
    op: FAddOp,
    verdict: Result<(), BinArithVerifyErr>,
)
    requires
        call_ensures(FAddOp::new_with_fast_math_flags, (lhs, rhs, flags), built),
        call_ensures(FAddOp::verify, (&op,), verdict),
    ensures
        built.lhs@ == lhs@,
        built.rhs@ == rhs@,
        built.llvm_fast_math_flags == flags,
        built.result@ == lhs@.ty,
        over_one_float_type(op.lhs@.ty, op.rhs@.ty, op.result@, verdict),
{
    lemma_sorts(op.lhs@.ty);
}

/// Float subtractions take their operands in order, keep their flags and give the type of the
/// first; they are accepted over one floating-point type.
pub proof fn float_subtractions_are_over_floats(
    lhs: Value,
    rhs: Value,
    flags: FastmathFlags,
    built: FSubOp,
    op: FSubOp,
    verdict: Result<(), BinArithVerifyErr>,
)
    requires
        call_ensures(FSubOp::new_with_fast_math_flags, (lhs, rhs, flags), built),
        call_ensures(FSubOp::verify, (&op,), verdict),
    ensures
        built.lhs@ == lhs@,
        built.rhs@ == rhs@,
        built.llvm_fast_math_flags == flags,
        built.result@ == lhs@.ty,
        over_one_float_type(op.lhs@.ty, op.rhs@.ty, op.result@, verdict),
{
    lemma_sorts(op.lhs@.ty);
}

/// Float multiplications take their operands in order, keep their flags and give the type of the
/// first; they are accepted over one floating-point type.
pub proof fn float_multiplications_are_over_floats(
    lhs: Value,
    rhs: Value,
    flags: FastmathFlags,
    built: FMulOp,
    op: FMulOp,
    verdict: Result<(), BinArithVerifyErr>,
)
    requires
        call_ensures(FMulOp::new_with_fast_math_flags, (lhs, rhs, flags), built),
        call_ensures(FMulOp::verify, (&op,), verdict),
    ensures
        built.lhs@ == lhs@,
        built.rhs@ == rhs@,
        built.llvm_fast_math_flags == flags,
        built.result@ == lhs@.ty,
        over_one_float_type(op.lhs@.ty, op.rhs@.ty, op.result@, verdict),
{
    lemma_sorts(op.lhs@.ty);
}

/// Float divisions take their operands in order, keep their flags and give the type of the
/// first; they are accepted over one floating-point type.
pub proof fn float_divisions_are_over_floats(
    lhs: Value,
    rhs: Value,
    flags: FastmathFlags,
    built: FDivOp,
    op: FDivOp,
    verdict: Result<(), BinArithVerifyErr>,
)
    requires
        call_ensures(FDivOp::new_with_fast_math_flags, (lhs, rhs, flags), built),
        call_ensures(FDivOp::verify, (&op,), verdict),
    ensures
        built.lhs@ == lhs@,
        built.rhs@ == rhs@,
        built.llvm_fast_math_flags == flags,
        built.result@ == lhs@.ty,
        over_one_float_type(op.lhs@.ty, op.rhs@.ty, op.result@, verdict),
{
    lemma_sorts(op.lhs@.ty);
}

/// Float remainders take their operands in order, keep their flags and give the type of the
/// first; they are accepted over one floating-point type.
pub proof fn float_remainders_are_over_floats(
    lhs: Value,
    rhs: Value,
    flags: FastmathFlags,
    built: FRemOp,
    op: FRemOp,
    verdict: Result<(), BinArithVerifyErr>,
)
    requires
        call_ensures(FRemOp::new_with_fast_math_flags, (lhs, rhs, flags), built),
        call_ensures(FRemOp::verify, (&op,), verdict),
    ensures
        built.lhs@ == lhs@,
        built.rhs@ == rhs@,
        built.llvm_fast_math_flags == flags,
        built.result@ == lhs@.ty,
        over_one_float_type(op.lhs@.ty, op.rhs@.ty, op.result@, verdict),
{
    lemma_sorts(op.lhs@.ty);
}

/// A negation keeps its operand, flags and type; it is accepted for a
/// floating-point operand and a result of the same type.
pub proof fn negations_are_over_floats(
    arg: Value,
    flags: FastmathFlags,
    built: FNegOp,
    op: FNegOp,
    verdict: Result<(), FNegOpVerifyErr>,
)
    requires
        call_ensures(FNegOp::new_with_fast_math_flags, (arg, flags), built),
        call_ensures(FNegOp::verify, (&op,), verdict),
    ensures
        built.arg@ == arg@,
        built.llvm_fast_math_flags == flags,
        built.result@ == arg@.ty,
        verdict is Ok <==> is_float(op.arg@.ty) && op.result@ == op.arg@.ty,
        verdict matches Err(error) ==> match error {
            FNegOpVerifyErr::ResultDiffers => op.result@ != op.arg@.ty,
            FNegOpVerifyErr::ArgumentMustBeFloat => op.result@ == op.arg@.ty && !is_float(
                op.arg@.ty,
            ),
            FNegOpVerifyErr::FastMathFlagsMustBeSet => false,
        },
{
    lemma_sorts(op.arg@.ty);
}

/// The verdict on a cast between integer types whose widths have to satisfy
/// `fits`; where they do not, the error is `misfit`.
pub open spec fn between_integers(
    operand: TypeModel,
    result: TypeModel,
    fits: bool,
    misfit: IntCastVerifyErr,
    verdict: Result<(), IntCastVerifyErr>,
) -> bool {
    &&& verdict is Ok <==> is_integer(operand) && is_integer(result) && fits
    &&& verdict matches Err(error) ==> match error {
        IntCastVerifyErr::ResultTypeErr => !is_integer(result),
        IntCastVerifyErr::OperandTypeErr => is_integer(result) && !is_integer(operand),
        other => is_integer(result) && is_integer(operand) && !fits && other == misfit,
    }
}

/// Sign extensions keep their operand and give the type that is asked for; they
/// are accepted from an integer to a wider one.
pub proof fn sign_extensions_make_integers_wider(
    arg: Value,
    ty: Type,
    built: SExtOp,
    op: SExtOp,
    verdict: Result<(), IntCastVerifyErr>,
)
    requires
        call_ensures(SExtOp::new, (arg, ty), built),
        call_ensures(SExtOp::verify, (&op,), verdict),
    ensures
        built.arg@ == arg@,
        built.result@ == ty@,
        between_integers(
            op.arg@.ty,
            op.result@,
            op.result@->width > op.arg@.ty->width,
            IntCastVerifyErr::ResultTypeSmallerThanOperand,
            verdict,
        ),
{
    lemma_sorts(op.arg@.ty);
    lemma_sorts(op.result@);
}

/// Zero extensions keep their operand and give the type that is asked for; they
/// are accepted from an integer to a wider one.
pub proof fn zero_extensions_make_integers_wider(
    arg: Value,
    ty: Type,
    nneg: bool,
    built: ZExtOp,
    op: ZExtOp,
    verdict: Result<(), IntCastVerifyErr>,
)
    requires
        call_ensures(ZExtOp::new_with_nneg, (arg, ty, nneg), built),
        call_ensures(ZExtOp::verify, (&op,), verdict),
    ensures
        built.arg@ == arg@,
        built.llvm_nneg_flag == nneg,
        built.result@ == ty@,
        between_integers(
            op.arg@.ty,
            op.result@,
            op.result@->width > op.arg@.ty->width,
            IntCastVerifyErr::ResultTypeSmallerThanOperand,
            verdict,
        ),
{
    lemma_sorts(op.arg@.ty);
    lemma_sorts(op.result@);
}

/// Truncations keep their operand and give the type that is asked for; they
/// are accepted from an integer to a narrower one.
pub proof fn truncations_make_integers_narrower(
    arg: Value,
    ty: Type,
    built: TruncOp,
    op: TruncOp,
    verdict: Result<(), IntCastVerifyErr>,
)
    requires
        call_ensures(TruncOp::new, (arg, ty), built),
        call_ensures(TruncOp::verify, (&op,), verdict),
    ensures
        built.arg@ == arg@,
        built.result@ == ty@,
        between_integers(
            op.arg@.ty,
            op.result@,
            op.result@->width < op.arg@.ty->width,
            IntCastVerifyErr::ResultTypeLargerThanOperand,
            verdict,
        ),
{
    lemma_sorts(op.arg@.ty);
    lemma_sorts(op.result@);
}

/// Integer casts by the predicate that the widths have to satisfy: signed and
/// unsigned predicates are the same, two predicates that exclude each other
/// never accept the same types, two that complement each other accept all
/// integer types between them, and "greater" is about the result.
pub proof fn integer_casts_go_by_width(
    operand: Type,
    result: Type,
    eq: Result<(), IntCastVerifyErr>,
    ne: Result<(), IntCastVerifyErr>,
    lt: (Result<(), IntCastVerifyErr>, Result<(), IntCastVerifyErr>),
    le: (Result<(), IntCastVerifyErr>, Result<(), IntCastVerifyErr>),
    gt: (Result<(), IntCastVerifyErr>, Result<(), IntCastVerifyErr>),
    ge: (Result<(), IntCastVerifyErr>, Result<(), IntCastVerifyErr>),
)
    requires
        call_ensures(integer_cast_verify, (&operand, &result, ICmpPredicate::EQ), eq),
        call_ensures(integer_cast_verify, (&operand, &result, ICmpPredicate::NE), ne),
        call_ensures(integer_cast_verify, (&operand, &result, ICmpPredicate::SLT), lt.0),
        call_ensures(integer_cast_verify, (&operand, &result, ICmpPredicate::ULT), lt.1),
        call_ensures(integer_cast_verify, (&operand, &result, ICmpPredicate::SLE), le.0),
        call_ensures(integer_cast_verify, (&operand, &result, ICmpPredicate::ULE), le.1),
        call_ensures(integer_cast_verify, (&operand, &result, ICmpPredicate::SGT), gt.0),
        call_ensures(integer_cast_verify, (&operand, &result, ICmpPredicate::UGT), gt.1),
        call_ensures(integer_cast_verify, (&operand, &result, ICmpPredicate::SGE), ge.0),
        call_ensures(integer_cast_verify, (&operand, &result, ICmpPredicate::UGE), ge.1),
        is_integer(operand@),
        is_integer(result@),
    ensures
        lt.0 == lt.1,
        le.0 == le.1,
        gt.0 == gt.1,
        ge.0 == ge.1,
        gt.0 is Ok <==> result@->width > operand@->width,
        lt.0 is Ok <==> operand@->width > result@->width,
        eq is Ok <==> gt.0 is Err && lt.0 is Err,
        ne is Ok <==> eq is Err,
        ge.0 is Ok <==> lt.0 is Err,
        le.0 is Ok <==> gt.0 is Err,
        eq is Err ==> eq->Err_0 is ResultTypeEqualToOperand,
        ne is Err ==> ne->Err_0 is ResultTypeSameAsOperand,
        gt.0 is Err ==> gt.0->Err_0 is ResultTypeSmallerThanOperand,
        ge.0 is Err ==> ge.0->Err_0 is ResultTypeSmallerThanOperand,
        lt.0 is Err ==> lt.0->Err_0 is ResultTypeLargerThanOperand,
        le.0 is Err ==> le.0->Err_0 is ResultTypeLargerThanOperand,
{
    lemma_sorts(operand@);
    lemma_sorts(result@);
}

/// Floating-point casts keep operand and flags and give the type that is asked
/// for. An extension is accepted to a type of more bits, a truncation to one of
/// fewer bits.
pub proof fn float_casts_go_by_bits(
    arg: Value,
    ty: Type,
    flags: FastmathFlags,
    extended: FPExtOp,
    truncated: FPTruncOp,
    extend: FPExtOp,
    truncate: FPTruncOp,
    wider: Result<(), FloatCastVerifyErr>,
    narrower: Result<(), FloatCastVerifyErr>,
)
    requires
        call_ensures(FPExtOp::new_with_fast_math_flags, (arg, ty, flags), extended),
        call_ensures(FPTruncOp::new_with_fast_math_flags, (arg, ty, flags), truncated),
        call_ensures(FPExtOp::verify, (&extend,), wider),
        call_ensures(FPTruncOp::verify, (&truncate,), narrower),
    ensures
        extended.arg@ == arg@,
        extended.llvm_fast_math_flags == flags,
        extended.result@ == ty@,
        truncated.arg@ == arg@,
        truncated.llvm_fast_math_flags == flags,
        truncated.result@ == ty@,
        wider is Ok <==> is_float(extend.arg@.ty) && is_float(extend.result@)
            && extend.arg@.ty->bits < extend.result@->bits,
        narrower is Ok <==> is_float(truncate.arg@.ty) && is_float(truncate.result@)
            && truncate.result@->bits < truncate.arg@.ty->bits,
        wider matches Err(error) ==> match error {
            FloatCastVerifyErr::OperandTypeErr => !is_float(extend.arg@.ty),
            FloatCastVerifyErr::ResultTypeErr => is_float(extend.arg@.ty) && !is_float(
                extend.result@,
            ),
            FloatCastVerifyErr::ResultTypeSmallerThanOperand => extend.result@->bits
                <= extend.arg@.ty->bits,
            FloatCastVerifyErr::OperandTypeSmallerThanResult => false,
        },
        narrower matches Err(error) ==> match error {
            FloatCastVerifyErr::OperandTypeErr => !is_float(truncate.arg@.ty),
            FloatCastVerifyErr::ResultTypeErr => is_float(truncate.arg@.ty) && !is_float(
                truncate.result@,
            ),
            FloatCastVerifyErr::OperandTypeSmallerThanResult => truncate.arg@.ty->bits
                <= truncate.result@->bits,
            FloatCastVerifyErr::ResultTypeSmallerThanOperand => false,
        },
{
    lemma_sorts(extend.arg@.ty);
    lemma_sorts(extend.result@);
    lemma_sorts(truncate.arg@.ty);
    lemma_sorts(truncate.result@);
}

/// An integer type that does not say how its values are signed.
pub open spec fn is_signless(ty: TypeModel) -> bool {
    exists|width: u32| ty == #[trigger] integer(width, Signedness::Signless)
}

proof fn lemma_signless(ty: TypeModel)
    ensures
        is_signless(ty) <==> crate::llvm::ops::cast::signless(ty),
{
    if crate::llvm::ops::cast::signless(ty) {
        assert(ty == integer(ty->width, Signedness::Signless));
    }
}

/// The verdict on a conversion with a demand on the operand and one on the
/// result. The error names the operand where its demand is not met.
pub open spec fn converts(
    operand_fits: bool,
    result_fits: bool,
    verdict: Result<(), FloatCastVerifyErr>,
) -> bool {
    &&& verdict is Ok <==> operand_fits && result_fits
    &&& verdict matches Err(error) ==> if operand_fits {
        error is ResultTypeErr
    } else {
        error is OperandTypeErr
    }
}

/// A conversion to a signed integer is accepted from a floating-point type to
/// a signless integer type.
pub proof fn floats_become_signed_integers(
    arg: Value,
    ty: Type,
    built: FPToSIOp,
    op: FPToSIOp,
    verdict: Result<(), FloatCastVerifyErr>,
)
    requires
        call_ensures(FPToSIOp::new, (arg, ty), built),
        call_ensures(FPToSIOp::verify, (&op,), verdict),
    ensures
        built.arg@ == arg@,
        built.result@ == ty@,
        converts(is_float(op.arg@.ty), is_signless(op.result@), verdict),
{
    lemma_sorts(op.arg@.ty);
    lemma_sorts(op.result@);
    lemma_signless(op.arg@.ty);
    lemma_signless(op.result@);
}

/// A conversion to an unsigned integer is accepted from a floating-point type to
/// a signless integer type.
pub proof fn floats_become_unsigned_integers(
    arg: Value,
    ty: Type,
    built: FPToUIOp,
    op: FPToUIOp,
    verdict: Result<(), FloatCastVerifyErr>,
)
    requires
        call_ensures(FPToUIOp::new, (arg, ty), built),
        call_ensures(FPToUIOp::verify, (&op,), verdict),
    ensures
        built.arg@ == arg@,
        built.result@ == ty@,
        converts(is_float(op.arg@.ty), is_signless(op.result@), verdict),
{
    lemma_sorts(op.arg@.ty);
    lemma_sorts(op.result@);
    lemma_signless(op.arg@.ty);
    lemma_signless(op.result@);
}

/// A conversion of a signed integer is accepted from a signless integer type to
/// a floating-point type.
pub proof fn signed_integers_become_floats(
    arg: Value,
    ty: Type,
    built: SIToFPOp,
    op: SIToFPOp,
    verdict: Result<(), FloatCastVerifyErr>,
)
    requires
        call_ensures(SIToFPOp::new, (arg, ty), built),
        call_ensures(SIToFPOp::verify, (&op,), verdict),
    ensures
        built.arg@ == arg@,
        built.result@ == ty@,
        converts(is_signless(op.arg@.ty), is_float(op.result@), verdict),
{
    lemma_sorts(op.arg@.ty);
    lemma_sorts(op.result@);
    lemma_signless(op.arg@.ty);
    lemma_signless(op.result@);
}

/// A conversion of an unsigned integer is accepted from a signless integer type
/// to a floating-point type.
pub proof fn unsigned_integers_become_floats(
    arg: Value,
    ty: Type,
    nneg: bool,
    built: UIToFPOp,
    op: UIToFPOp,
    verdict: Result<(), FloatCastVerifyErr>,
)
    requires
        call_ensures(UIToFPOp::new_with_nneg, (arg, ty, nneg), built),
        call_ensures(UIToFPOp::verify, (&op,), verdict),
    ensures
        built.arg@ == arg@,
        built.llvm_nneg_flag == nneg,
        built.result@ == ty@,
        converts(is_signless(op.arg@.ty), is_float(op.result@), verdict),
{
    lemma_sorts(op.arg@.ty);
    lemma_sorts(op.result@);
    lemma_signless(op.arg@.ty);
    lemma_signless(op.result@);
}

/// Conversions between pointers and integers keep their operand and give the
/// type that is asked for; they are accepted between a pointer and a signless
/// integer, in their own direction.
pub proof fn pointers_and_integers_convert(
    arg: Value,
    ty: Type,
    to_pointer: IntToPtrOp,
    to_integer: PtrToIntOp,
    forth: IntToPtrOp,
    back: PtrToIntOp,
)
    requires
        call_ensures(IntToPtrOp::new, (arg, ty), to_pointer),
        call_ensures(PtrToIntOp::new, (arg, ty), to_integer),
    ensures
        to_pointer.arg@ == arg@,
        to_pointer.result@ == ty@,
        to_integer.arg@ == arg@,
        to_integer.result@ == ty@,
        forall|verdict: Result<(), crate::llvm::ops::cast::IntToPtrOpErr>| #[trigger]
            call_ensures(IntToPtrOp::verify, (&forth,), verdict) ==> {
                &&& verdict is Ok <==> is_signless(forth.arg@.ty) && is_pointer(forth.result@)
                &&& verdict is Err ==> (verdict->Err_0 is OperandTypeErr <==> !is_signless(
                    forth.arg@.ty,
                ))
            },
        forall|verdict: Result<(), crate::llvm::ops::cast::PtrToIntOpErr>| #[trigger]
            call_ensures(PtrToIntOp::verify, (&back,), verdict) ==> {
                &&& verdict is Ok <==> is_pointer(back.arg@.ty) && is_signless(back.result@)
                &&& verdict is Err ==> (verdict->Err_0 is OperandTypeErr <==> !is_pointer(
                    back.arg@.ty,
                ))
            },
{
    lemma_sorts(forth.result@);
    lemma_sorts(back.arg@.ty);
    lemma_signless(forth.arg@.ty);
    lemma_signless(back.result@);
}

/// A cast between address spaces gives a pointer into the one that is asked
/// for, and is accepted between pointers.
pub proof fn pointers_change_address_space(
    operand: Value,
    space: u32,
    built: AddrSpaceCastOp,
    op: AddrSpaceCastOp,
    verdict: Result<(), crate::llvm::ops::cast::AddrSpaceCastOpErr>,
)
    requires
        call_ensures(AddrSpaceCastOp::new, (operand, space), built),
        call_ensures(AddrSpaceCastOp::verify, (&op,), verdict),
    ensures
        built.arg@ == operand@,
        built.result@ == pointer(space),
        verdict is Ok <==> is_pointer(op.arg@.ty) && is_pointer(op.result@),
        verdict is Err ==> (verdict->Err_0 is OperandTypeErr <==> !is_pointer(op.arg@.ty)),
{
    lemma_sorts(op.arg@.ty);
    lemma_sorts(op.result@);
}

/// Comparisons take predicate and operands as they are and give one signless
/// bit. One is accepted if it has a predicate, two operands of one comparable
/// type and a result of one bit.
#[verifier::rlimit(50)]
pub proof fn comparisons_give_one_bit(
    lhs: Value,
    rhs: Value,
    integer_predicate: ICmpPredicate,
    float_predicate: FCmpPredicate,
    integers: ICmpOp,
    floats: FCmpOp,
    icmp: ICmpOp,
    fcmp: FCmpOp,
)
    requires
        call_ensures(ICmpOp::new, (integer_predicate, lhs, rhs), integers),
        call_ensures(FCmpOp::new, (float_predicate, lhs, rhs), floats),
    ensures
        integers.icmp_predicate == Some(integer_predicate),
        integers.lhs@ == lhs@,
        integers.rhs@ == rhs@,
        integers.result@ == integer(1, Signedness::Signless),
        floats.fcmp_predicate == Some(float_predicate),
        floats.llvm_fast_math_flags.0 == 0,
        floats.lhs@ == lhs@,
        floats.rhs@ == rhs@,
        floats.result@ == integer(1, Signedness::Signless),
        forall|verdict: Result<(), crate::llvm::ops::comparison::ICmpOpVerifyErr>| #[trigger]
            call_ensures(ICmpOp::verify, (&icmp,), verdict) ==> {
                &&& verdict is Ok <==> icmp.icmp_predicate is Some && icmp.lhs@.ty == icmp.rhs@.ty
                    && (is_integer(icmp.lhs@.ty) || is_pointer(icmp.lhs@.ty)) && is_integer(
                    icmp.result@,
                ) && icmp.result@->width == 1
                &&& verdict is Err ==> {
                    let error = verdict->Err_0;
                    &&& error is OperandsDiffer ==> icmp.lhs@.ty != icmp.rhs@.ty
                    &&& error is PredAttrErr ==> icmp.icmp_predicate is None
                    &&& error is ResultNotInteger ==> !is_integer(icmp.result@)
                    &&& error is ResultNotBool ==> is_integer(icmp.result@)
                        && icmp.result@->width != 1
                    &&& error is IncorrectOperandsType ==> !is_integer(icmp.lhs@.ty)
                        && !is_pointer(icmp.lhs@.ty)
                }
            },
        forall|verdict: Result<(), crate::llvm::ops::comparison::FCmpOpVerifyErr>| #[trigger]
            call_ensures(FCmpOp::verify, (&fcmp,), verdict) ==> {
                &&& verdict is Ok <==> fcmp.fcmp_predicate is Some && fcmp.lhs@.ty == fcmp.rhs@.ty
                    && is_float(fcmp.lhs@.ty) && is_integer(fcmp.result@) && fcmp.result@->width
                    == 1
                &&& verdict is Err ==> {
                    let error = verdict->Err_0;
                    &&& error is OperandsDiffer ==> fcmp.lhs@.ty != fcmp.rhs@.ty
                    &&& error is PredAttrErr ==> fcmp.fcmp_predicate is None
                    &&& error is ResultNotInteger ==> !is_integer(fcmp.result@)
                    &&& error is ResultNotBool ==> is_integer(fcmp.result@)
                        && fcmp.result@->width != 1
                    &&& error is IncorrectOperandsType ==> !is_float(fcmp.lhs@.ty)
                }
            },
{
    lemma_sorts(icmp.lhs@.ty);
    lemma_sorts(icmp.result@);
    lemma_sorts(fcmp.lhs@.ty);
    lemma_sorts(fcmp.result@);
}

/// A selection is between two values of one type, which is that of the result,
/// by one bit. The operands keep their places.
pub proof fn selections_are_between_values_of_one_type(
    cond: Value,
    true_val: Value,
    false_val: Value,
    built: SelectOp,
    op: SelectOp,
    verdict: Result<(), SelectOpVerifyErr>,
)
    requires
        call_ensures(SelectOp::new, (cond, true_val, false_val), built),
        call_ensures(SelectOp::verify, (&op,), verdict),
    ensures
        built.cond@ == cond@,
        built.true_val@ == true_val@,
        built.false_val@ == false_val@,
        built.result@ == true_val@.ty,
        verdict is Ok <==> op.true_val@.ty == op.false_val@.ty && op.true_val@.ty == op.result@
            && exists|signedness: Signedness| op.cond@.ty == #[trigger] integer(1, signedness),
        verdict is Err ==> (verdict->Err_0 is ResultTypeErr <==> !(op.true_val@.ty == op.result@
            && op.false_val@.ty == op.result@)),
{
    if op.cond@.ty is Integer && op.cond@.ty->width == 1 {
        assert(op.cond@.ty == integer(1, op.cond@.ty->signedness));
    }
}

/// Atomic operations are accepted exactly if what they read from or write to is
/// a pointer, whatever the other operands are.
pub proof fn atomic_operations_go_through_pointers(
    rmw: AtomicRmwOp,
    exchange: AtomicCmpxchgOp,
    load: AtomicLoadOp,
    store: AtomicStoreOp,
    rmw_verdict: Result<(), AtomicVerifyErr>,
    exchange_verdict: Result<(), AtomicVerifyErr>,
    load_verdict: Result<(), AtomicVerifyErr>,
    store_verdict: Result<(), AtomicVerifyErr>,
)
    requires
        call_ensures(AtomicRmwOp::verify, (&rmw,), rmw_verdict),
        call_ensures(AtomicCmpxchgOp::verify, (&exchange,), exchange_verdict),
        call_ensures(AtomicLoadOp::verify, (&load,), load_verdict),
        call_ensures(AtomicStoreOp::verify, (&store,), store_verdict),
    ensures
        rmw_verdict is Ok <==> is_pointer(rmw.ptr@.ty),
        exchange_verdict is Ok <==> is_pointer(exchange.ptr@.ty),
        load_verdict is Ok <==> is_pointer(load.ptr@.ty),
        store_verdict is Ok <==> is_pointer(store.ptr@.ty),
        rmw_verdict is Err ==> rmw_verdict->Err_0 is RmwPointer,
        exchange_verdict is Err ==> exchange_verdict->Err_0 is CmpxchgPointer,
        load_verdict is Err ==> load_verdict->Err_0 is LoadPointer,
        store_verdict is Err ==> store_verdict->Err_0 is StorePointer,
{
    lemma_sorts(rmw.ptr@.ty);
    lemma_sorts(exchange.ptr@.ty);
    lemma_sorts(load.ptr@.ty);
    lemma_sorts(store.ptr@.ty);
}

/// A constant is an integer or a floating-point number and has the type of its
/// value. The next variadic argument is taken through a pointer.
pub proof fn constants_are_numbers(
    value: ConstantValue,
    built: ConstantOp,
    op: ConstantOp,
    verdict: Result<(), ConstantOpVerifyErr>,
    list: VAArgOp,
    list_verdict: Result<(), VAArgOpVerifyErr>,
)
    requires
        call_ensures(ConstantOp::new, (value,), built),
        call_ensures(ConstantOp::verify, (&op,), verdict),
        call_ensures(VAArgOp::verify, (&list,), list_verdict),
    ensures
        built.constant_value@ == value@,
        match value {
            ConstantValue::Integer { ty, .. } => built.result@ == ty@,
            ConstantValue::Float { ty, .. } => built.result@ == ty@,
            ConstantValue::Typed { ty, .. } => built.result@ == ty@,
        },
        verdict is Err <==> op.constant_value is Typed,
        list_verdict is Ok <==> is_pointer(list.list@.ty),
{
    lemma_sorts(list.list@.ty);
}

/// What is inserted into an aggregate has the type of the place it goes to, and
/// the result is an aggregate of the same type. What is extracted has the type
/// of the place it comes from. `struct_ty` is a struct with these fields and
/// `array_ty` an array.
pub proof fn members_keep_their_types(
    fields: Seq<TypeModel>,
    name: Option<Seq<char>>,
    size: u64,
    elem: TypeModel,
    index: u32,
    other: TypeModel,
)
    requires
        other !is Struct,
        other !is Array,
    ensures
        ({
            let struct_ty = TypeModel::Struct { name, fields: Some(fields) };
            let opaque_ty = TypeModel::Struct { name, fields: None };
            let array_ty = TypeModel::Array { size, elem: Box::new(elem) };
            let at = seq![index];
            &&& index < fields.len() ==> crate::llvm::ops::aggregate::indexed(struct_ty, at)
                == Some(fields[index as int])
            &&& index >= fields.len() ==> crate::llvm::ops::aggregate::indexed(struct_ty, at)
                is None
            &&& index < size ==> crate::llvm::ops::aggregate::indexed(array_ty, at) == Some(elem)
            &&& index >= size ==> crate::llvm::ops::aggregate::indexed(array_ty, at) is None
            &&& crate::llvm::ops::aggregate::indexed(opaque_ty, at) is None
            &&& crate::llvm::ops::aggregate::indexed(other, at) is None
            &&& crate::llvm::ops::aggregate::indexed(other, seq![]) == Some(other)
        }),
{
    assert(seq![index].drop_first() =~= seq![]);
    reveal_with_fuel(crate::llvm::ops::aggregate::indexed, 2);
}

/// An insertion is built of its operands in order and gives the type of the
/// aggregate; it is accepted exactly if it has indices that lead to a member of
/// the type of the value.
pub proof fn insertions_put_members_in_their_places(
    aggregate: Value,
    value: Value,
    indices: Vec<u32>,
    built: InsertValueOp,
    op: InsertValueOp,
    verdict: Result<(), InsertValueVerifyErr>,
)
    requires
        call_ensures(InsertValueOp::new, (aggregate, value, indices), built),
        call_ensures(InsertValueOp::verify, (&op,), verdict),
    ensures
        built.aggregate@ == aggregate@,
        built.value@ == value@,
        built.insert_value_indices matches Some(kept) && kept@ == indices@,
        built.result@ == aggregate@.ty,
        verdict is Ok <==> (op.insert_value_indices matches Some(path)
            && crate::llvm::ops::aggregate::indexed(op.aggregate@.ty, path@) == Some(
            op.value@.ty,
        )),
        verdict matches Err(InsertValueVerifyErr::Indices(InsertExtractValueErr::IndicesAttrErr))
            <==> op.insert_value_indices is None,
{
}

/// An extraction gives the member that its indices lead to, or is not built;
/// it is accepted exactly if its result has the type of that member.
pub proof fn extractions_take_members_from_their_places(
    aggregate: Value,
    indices: Vec<u32>,
    built: Result<ExtractValueOp, InsertExtractValueErr>,
    op: ExtractValueOp,
    verdict: Result<(), InsertExtractValueErr>,
    built_verdict: Result<(), InsertExtractValueErr>,
)
    requires
        call_ensures(ExtractValueOp::new, (aggregate, indices), built),
        call_ensures(ExtractValueOp::verify, (&op,), verdict),
        built is Ok ==> call_ensures(ExtractValueOp::verify, (&built->Ok_0,), built_verdict),
    ensures
        built matches Ok(made) ==> made.aggregate@ == aggregate@ && built_verdict is Ok,
        built matches Ok(made) ==> (made.extract_value_indices matches Some(kept) && kept@
            == indices@),
        built is Err <==> crate::llvm::ops::aggregate::indexed(aggregate@.ty, indices@) is None,
        verdict is Ok <==> (op.extract_value_indices matches Some(path)
            && crate::llvm::ops::aggregate::indexed(op.aggregate@.ty, path@) == Some(op.result@)),
        verdict is Err ==> (verdict->Err_0 is IndicesAttrErr <==> op.extract_value_indices is None),
{
}

/// An element is taken out of a vector or an array by an integer, and has the
/// type of the elements.
pub proof fn elements_are_taken_by_an_integer(
    vector: Value,
    index: Value,
    built: Result<ExtractElementOp, ExtractElementErr>,
    op: ExtractElementOp,
    verdict: Result<(), ExtractElementErr>,
)
    requires
        call_ensures(ExtractElementOp::new, (vector, index), built),
        call_ensures(ExtractElementOp::verify, (&op,), verdict),
    ensures
        built is Ok <==> vector@.ty is Vector || vector@.ty is Array,
        built is Err ==> built->Err_0 is NotVectorType,
        built matches Ok(made) ==> {
            &&& made.vector@ == vector@
            &&& made.index@ == index@
            &&& match vector@.ty {
                TypeModel::Vector { size, elem } => made.result@ == *elem,
                TypeModel::Array { size, elem } => made.result@ == *elem,
                _ => false,
            }
        },
        verdict is Ok <==> is_integer(op.index@.ty) && match op.vector@.ty {
            TypeModel::Vector { size, elem } => op.result@ == *elem,
            TypeModel::Array { size, elem } => op.result@ == *elem,
            _ => false,
        },
        verdict is Err ==> {
            &&& verdict->Err_0 is NotVectorType <==> !(op.vector@.ty is Vector || op.vector@.ty
                is Array)
            &&& verdict->Err_0 is IndexNotInteger ==> !is_integer(op.index@.ty)
        },
{
    lemma_sorts(op.index@.ty);
}

/// Inline assembly needs a template and constraints, and with several results
/// also the list of tied inputs; what is missing first is named. Only assembly
/// that was built as convergent is.
pub proof fn assembly_needs_its_texts(
    op: InlineAsmOp,
    verdict: Result<(), InlineAsmVerifyErr>,
    convergent: bool,
    several: InlineAsmMultiOp,
    several_verdict: Result<(), InlineAsmMultiVerifyErr>,
    several_convergent: bool,
)
    requires
        call_ensures(InlineAsmOp::verify, (&op,), verdict),
        call_ensures(InlineAsmOp::is_convergent, (&op,), convergent),
        call_ensures(InlineAsmMultiOp::verify, (&several,), several_verdict),
        call_ensures(InlineAsmMultiOp::is_convergent, (&several,), several_convergent),
    ensures
        verdict is Ok <==> op.inline_asm_template is Some && op.inline_asm_constraints is Some,
        verdict is Err ==> (verdict->Err_0 is MissingTemplate <==> op.inline_asm_template is None),
        convergent ==> op.inline_asm_convergent == Some(true),
        op.inline_asm_convergent is None ==> !convergent,
        op.inline_asm_convergent == Some(true) ==> convergent,
        several_verdict is Ok <==> several.multi_asm_template is Some
            && several.multi_asm_constraints is Some && several.multi_asm_tied_inputs is Some,
        several_verdict is Err ==> {
            &&& several_verdict->Err_0 is MissingTemplate <==> several.multi_asm_template is None
            &&& several_verdict->Err_0 is MissingTiedInputs ==> several.multi_asm_tied_inputs
                is None && several.multi_asm_constraints is Some
        },
        several_convergent ==> several.multi_asm_convergent == Some(true),
        several.multi_asm_convergent is None ==> !several_convergent,
        several.multi_asm_convergent == Some(true) ==> several_convergent,
{
}

/// Assembly that is built has a result unless that is void; it is convergent
/// only where it is built so.
pub proof fn built_assembly_keeps_its_parts(
    ty: Type,
    inputs: Vec<Value>,
    template: &str,
    constraints: &str,
    plain: InlineAsmOp,
    convergent: InlineAsmOp,
)
    requires
        call_ensures(InlineAsmOp::new, (ty, inputs, template, constraints), plain),
        call_ensures(InlineAsmOp::new_convergent, (ty, inputs, template, constraints), convergent),
    ensures
        plain.results@.len() == 0 <==> ty@ == TypeModel::Void,
        plain.results@.len() > 0 ==> plain.results@.len() == 1 && plain.results@[0]@ == ty@,
        crate::llvm::types::models(convergent.results@) == crate::llvm::types::models(
            plain.results@,
        ),
        plain.inputs@ == inputs@,
        convergent.inputs@ == inputs@,
        plain.inline_asm_template matches Some(text) && text@ == template@,
        plain.inline_asm_constraints matches Some(text) && text@ == constraints@,
        convergent.inline_asm_template matches Some(text) && text@ == template@,
        convergent.inline_asm_constraints matches Some(text) && text@ == constraints@,
        plain.inline_asm_convergent != Some(true),
        convergent.inline_asm_convergent == Some(true),
{
    let shown = crate::llvm::types::models(plain.results@);
    assert(shown.len() == plain.results@.len());
    if plain.results@.len() > 0 {
        assert(shown[0] == plain.results@[0]@);
    }
}

/// A call fits exactly if it is of a function type, with as many arguments as
/// the type lists, or any number where it is variadic, of which those that the
/// type lists have its types, and gives the type of its result.
#[verifier::rlimit(50)]
pub proof fn calls_fit_their_function_type(
    op: CallOp,
    verdict: Result<(), SymbolUserOpVerifyErr>,
)
    requires
        op.has_callee(),
        call_ensures(CallOp::verify, (&op,), verdict),
    ensures
        verdict is Ok <==> match op.callee_type@ {
            TypeModel::Func { result, args, var_arg } => {
                &&& *result == op.result@
                &&& var_arg || op.arguments().len() == args.len()
                &&& forall|i: int|
                    0 <= i < args.len() && i < op.arguments().len() ==> #[trigger] args[i]
                        == op.arguments()[i].ty
            },
            _ => false,
        },
        verdict matches Err(SymbolUserOpVerifyErr::FuncTypeErr(CallTypeErr::ArgumentType {
            index,
            expected,
            found,
        })) ==> op.callee_type@ matches TypeModel::Func { args, .. } && index < args.len()
            && index < op.arguments().len() && expected@ == args[index as int] && found@
            == op.arguments()[index as int].ty && expected@ != found@ && forall|i: int|
            0 <= i < index ==> #[trigger] args[i] == op.arguments()[i].ty,
{
    let given = crate::llvm::value::value_types(op.arguments());
    match op.callee_type@ {
        TypeModel::Func { result, args, var_arg } => {
            assert forall|i: int| 0 <= i < op.arguments().len() implies #[trigger] given[i]
                == op.arguments()[i].ty by {}
            let count = crate::llvm::ops::call::common(given, args);
            if crate::llvm::ops::call::agree(given, args, count) {
                assert forall|i: int|
                    0 <= i < args.len() && i < op.arguments().len() implies #[trigger] args[i]
                    == op.arguments()[i].ty by {
                    assert(given[i] == args[i]);
                }
            } else {
                let i = choose|i: int| 0 <= i < count && given[i] != args[i];
                assert(args[i] != op.arguments()[i].ty);
            }
            match verdict {
                Err(SymbolUserOpVerifyErr::FuncTypeErr(CallTypeErr::ArgumentType { index, .. })) => {
                    assert forall|i: int| 0 <= i < index implies #[trigger] args[i]
                        == op.arguments()[i].ty by {
                        assert(given[i] == args[i]);
                    }
                },
                _ => {},
            }
        },
        _ => {},
    }
}

/// A call of an intrinsic fits exactly if it has a name and a function type,
/// operands of the types that it lists, and one result of its type. The type
/// is taken literally: a variadic one takes no further operands.
#[verifier::rlimit(50)]
pub proof fn intrinsics_fit_their_function_type(
    op: CallIntrinsicOp,
    verdict: Result<(), CallIntrinsicVerifyErr>,
)
    requires
        call_ensures(CallIntrinsicOp::verify, (&op,), verdict),
    ensures
        verdict is Ok <==> op.llvm_intrinsic_name is Some && op.results@.len() == 1 && (
        op.llvm_intrinsic_type matches Some(ty) && match ty@ {
            TypeModel::Func { result, args, .. } => {
                &&& *result == op.results@[0]@
                &&& op.operands@.len() == args.len()
                &&& forall|i: int|
                    0 <= i < args.len() ==> #[trigger] args[i] == op.operands@[i].ty@
            },
            _ => false,
        }),
        verdict is Err ==> (verdict->Err_0 is MissingIntrinsicNameAttr <==> op.llvm_intrinsic_name
            is None),
{
    let shown = crate::llvm::types::models(op.results@);
    let values = crate::llvm::value::value_models(op.operands@);
    let given = crate::llvm::value::value_types(values);
    assert(shown.len() == op.results@.len());
    assert(given.len() == op.operands@.len());
    assert forall|i: int| 0 <= i < given.len() implies #[trigger] given[i]
        == op.operands@[i].ty@ by {
        assert(values[i] == op.operands@[i]@);
    }
    if op.results@.len() == 1 {
        assert(shown =~= seq![op.results@[0]@]);
    }
    if op.llvm_intrinsic_type is Some {
        match op.llvm_intrinsic_type->Some_0@ {
            TypeModel::Func { result, args, .. } => {
                if given == args {
                    assert forall|i: int| 0 <= i < args.len() implies #[trigger] args[i]
                        == op.operands@[i].ty@ by {
                        assert(given[i] == args[i]);
                    }
                }
                if op.operands@.len() == args.len() && forall|i: int|
                    0 <= i < args.len() ==> #[trigger] args[i] == op.operands@[i].ty@ {
                    assert(given =~= args);
                }
                if shown == seq![*result] {
                    assert(shown[0] == *result);
                }
            },
            _ => {},
        }
    }
}

/// A direct call is linked exactly to a function of the type that it says; an
/// indirect one needs no table, but a pointer.
pub proof fn calls_are_linked_by_name_and_type(
    op: CallOp,
    found: Option<Symbol<'_>>,
    verdict: Result<(), SymbolUserOpVerifyErr>,
)
    requires
        op.has_callee(),
        found matches Some(Symbol::Func(func)) ==> func.signature() is Some,
        call_ensures(CallOp::verify_symbol_uses, (&op, found), verdict),
    ensures
        op.llvm_call_callee is None ==> (verdict is Ok <==> is_pointer(op.operands@[0]@.ty)),
        op.llvm_call_callee matches Some(name) ==> {
            &&& verdict is Ok <==> (found matches Some(Symbol::Func(func)) && func.signature()
                == Some(op.callee_type@))
            &&& found is None ==> (verdict matches Err(SymbolUserOpVerifyErr::SymbolNotFound(
                missing,
            )) && missing@ == name@)
            &&& found matches Some(symbol) ==> symbol is Func || (verdict matches Err(
                SymbolUserOpVerifyErr::NotLlvmFunc(other),
            ) && other@ == name@)
        },
{
    lemma_sorts(op.operands@[0]@.ty);
}

/// The address of a symbol is a pointer into its address space; it is accepted
/// with a name, for a function or a global variable of that name.
pub proof fn addresses_are_of_functions_and_globals(
    name: crate::llvm::identifier::Identifier,
    space: u32,
    built: AddressOfOp,
    op: AddressOfOp,
    verdict: Result<(), AddressOfVerifyErr>,
    found: Option<Symbol<'_>>,
    linked: Result<(), SymbolUserOpVerifyErr>,
)
    requires
        call_ensures(AddressOfOp::new, (name, space), built),
        call_ensures(AddressOfOp::verify, (&op,), verdict),
        op.global_name is Some ==> call_ensures(
            AddressOfOp::verify_symbol_uses,
            (&op, found),
            linked,
        ),
    ensures
        built.global_name matches Some(kept) && kept@ == name@,
        built.result@ == pointer(space),
        verdict is Ok <==> is_pointer(op.result@) && op.global_name is Some,
        verdict is Err ==> (verdict->Err_0 is ResultNotPointer <==> !is_pointer(op.result@)),
        op.global_name is Some ==> {
            &&& linked is Ok <==> found is Some && (found->Some_0 is Func || found->Some_0
                is Global)
            &&& linked is Err ==> (linked->Err_0 is SymbolNotFound <==> found is None)
        },
{
    lemma_sorts(op.result@);
}

/// A function is declared until it has a body, a global variable until it has
/// an initial value or a region that computes it. A variable is accepted with a
/// type and not both of these.
pub proof fn declarations_have_no_body(
    func: FuncOp,
    func_declared: bool,
    global: GlobalOp,
    global_declared: bool,
    verdict: Result<(), crate::llvm::ops::symbol::GlobalOpVerifyErr>,
)
    requires
        call_ensures(FuncOp::is_declaration, (&func,), func_declared),
        call_ensures(GlobalOp::is_declaration, (&global,), global_declared),
        call_ensures(GlobalOp::verify, (&global,), verdict),
    ensures
        func_declared <==> func.region is None,
        ({
            let valued = global.attributes@.contains_key("global_initializer"@);
            let computed = global.regions@.len() > 0;
            &&& global_declared <==> !valued && !computed
            &&& verdict is Ok ==> !(valued && computed) && global.value_type() is Some
            &&& global.value_type() is Some && !(valued && computed) ==> verdict is Ok
        }),
{
}

/// A new global variable has its name and type and nothing else; what it is
/// given further does not touch them. An alignment is kept to 32 bits.
#[verifier::rlimit(50)]
pub proof fn globals_keep_what_they_are_given(
    name: crate::llvm::identifier::Identifier,
    ty: Type,
    space: u32,
    alignment: u64,
    plain: GlobalOp,
    placed: GlobalOp,
    aligned: GlobalOp,
)
    requires
        call_ensures(GlobalOp::new, (name, ty), plain),
        call_ensures(GlobalOp::new_in_address_space, (name, ty, space), placed),
        call_ensures(GlobalOp::new_with_alignment, (name, ty, alignment), aligned),
    ensures
        plain.symbol() == Some(name@),
        plain.value_type() == Some(ty@),
        plain.address_space() == 0,
        plain.alignment() is None,
        placed.symbol() == Some(name@),
        placed.value_type() == Some(ty@),
        placed.address_space() == space,
        placed.alignment() is None,
        aligned.symbol() == Some(name@),
        aligned.value_type() == Some(ty@),
        aligned.address_space() == 0,
        alignment < 0x1_0000_0000 ==> aligned.alignment() == Some(alignment),
        aligned.alignment() matches Some(kept) && kept < 0x1_0000_0000 && (alignment - kept)
            % 0x1_0000_0000 == 0,
        plain.regions@.len() == 0 && placed.regions@.len() == 0 && aligned.regions@.len() == 0,
{
    crate::llvm::ops::symbol::keys_differ();
}

/// A function is built of its name and type, and a call of its callee, type and
/// arguments, with the result that the type says.
pub proof fn functions_and_calls_keep_their_parts(
    name: crate::llvm::identifier::Identifier,
    ty: FuncType,
    func: FuncOp,
    callee: crate::llvm::ops::call::CallOpCallable,
    args: Vec<Value>,
    call: CallOp,
)
    requires
        call_ensures(FuncOp::new, (name, ty), func),
        call_ensures(CallOp::new, (callee, ty, args), call),
    ensures
        func.symbol() == Some(name@),
        func.signature() == Some(ty@),
        func.region is None,
        call.called() == callee@,
        call.callee_type@ == ty@,
        call.result@ == ty.result@,
        call.arguments().len() == args@.len(),
        forall|i: int| 0 <= i < args@.len() ==> call.arguments()[i] == #[trigger] args@[i]@,
        call.llvm_call_callee is Some <==> callee is Direct,
{
    assert(call.arguments() == crate::llvm::value::value_models(args@));
}

} // verus!

use cuda_oxide::llvm::attributes::FastmathFlags;
use cuda_oxide::llvm::dialect::Dialect;
use cuda_oxide::llvm::ops;
use cuda_oxide::llvm::ops::aggregate::{
    ExtractElementErr, ExtractElementOp, ExtractValueOp, InsertExtractValueErr, InsertValueOp,
    InsertValueVerifyErr,
};
use cuda_oxide::llvm::ops::arithmetic::{
    AddOp, BinArithVerifyErr, FAddOp, FNegOp, FNegOpVerifyErr, IntegerOverflowFlags, XorOp,
};
use cuda_oxide::llvm::ops::assembly::{
    InlineAsmMultiOp, InlineAsmMultiVerifyErr, InlineAsmOp, InlineAsmVerifyErr,
};
use cuda_oxide::llvm::ops::atomic::{
    format_ordering, format_rmw_kind, format_syncscope, AtomicCmpxchgOp, AtomicLoadOp, AtomicRmwOp,
    AtomicStoreOp, AtomicVerifyErr, FenceOp, LlvmAtomicOpInterface, LlvmAtomicOrdering,
    LlvmAtomicRmwKind, LlvmSyncScope,
};
use cuda_oxide::llvm::ops::cast::{
    integer_cast_verify, AddrSpaceCastOp, AddrSpaceCastOpErr, FPExtOp, FPToSIOp, FPTruncOp,
    FloatCastVerifyErr, IntCastVerifyErr, IntToPtrOp, IntToPtrOpErr, PtrToIntOp, PtrToIntOpErr,
    SExtOp, SIToFPOp, TruncOp, UIToFPOp, ZExtOp,
};
use cuda_oxide::llvm::ops::comparison::{
    FCmpOp, FCmpOpVerifyErr, FCmpPredicate, ICmpOp, ICmpOpVerifyErr, ICmpPredicate,
};
use cuda_oxide::llvm::ops::constants::{
    ConstantOp, ConstantOpVerifyErr, ConstantValue, UndefOp, ZeroOp,
};
use cuda_oxide::llvm::ops::select::{SelectOp, SelectOpVerifyErr};
use cuda_oxide::llvm::ops::va::{VAArgOp, VAArgOpVerifyErr};
use cuda_oxide::llvm::types::{same_type, same_types, FuncType, Signedness, Type, TypeSort};
use cuda_oxide::llvm::value::Value;

fn integer(width: u32) -> Type {
    Type::Integer {
        width,
        signedness: Signedness::Signless,
    }
}

fn signed(width: u32) -> Type {
    Type::Integer {
        width,
        signedness: Signedness::Signed,
    }
}

fn f32_type() -> Type {
    Type::Float {
        bits: 32,
        precision: 24,
    }
}

fn f64_type() -> Type {
    Type::Float {
        bits: 64,
        precision: 53,
    }
}

fn ptr(address_space: u32) -> Type {
    Type::Pointer { address_space }
}

fn structure(fields: Vec<Type>) -> Type {
    Type::Struct {
        name: None,
        fields: Some(fields),
    }
}

fn array(size: u64, elem: Type) -> Type {
    Type::Array {
        size,
        elem: Box::new(elem),
    }
}

fn value(name: &str, ty: Type) -> Value {
    Value::new(name.to_string(), ty)
}

#[test]
fn types_are_compared_by_structure() {
    let nested = structure(vec![integer(32), array(4, structure(vec![f32_type(), ptr(3)]))]);
    assert!(same_type(&nested, &nested.duplicate()));
    assert!(!same_type(&nested, &structure(vec![integer(32)])));
    assert!(!same_type(&integer(32), &signed(32)));
    assert!(!same_type(&ptr(0), &ptr(1)));
    assert!(!same_type(
        &Type::Struct {
            name: None,
            fields: None
        },
        &structure(vec![])
    ));
    assert!(!same_type(
        &Type::Struct {
            name: Some("a".to_string()),
            fields: Some(vec![])
        },
        &structure(vec![])
    ));
    let func = Type::Func(FuncType::get(integer(32), vec![ptr(0)], false));
    let variadic = Type::Func(FuncType::get(integer(32), vec![ptr(0)], true));
    assert!(same_type(&func, &func.duplicate()));
    assert!(!same_type(&func, &variadic));
    assert!(same_type(
        &Type::Other("mir.x".to_string()),
        &Type::Other("mir.x".to_string())
    ));
    assert!(!same_types(&vec![integer(1), integer(2)], &vec![integer(2), integer(1)]));
}

#[test]
fn indices_lead_into_structs_and_arrays() {
    let ty = structure(vec![integer(8), array(3, structure(vec![f32_type(), ptr(1)]))]);
    assert!(same_type(
        ExtractValueOp::indexed_type(&ty, &[1, 2, 1]).unwrap(),
        &ptr(1)
    ));
    assert!(same_type(
        ExtractValueOp::indexed_type(&ty, &[]).unwrap(),
        &ty
    ));
    for path in [&[2u32][..], &[1, 3], &[0, 0], &[1, 0, 2]] {
        assert_eq!(
            ExtractValueOp::indexed_type(&ty, path).unwrap_err(),
            InsertExtractValueErr::InvalidIndicesErr
        );
    }
    let opaque = Type::Struct {
        name: Some("o".to_string()),
        fields: None,
    };
    assert!(ExtractValueOp::indexed_type(&opaque, &[0]).is_err());
}

#[test]
fn paths_are_followed_step_by_step() {
    let ty = structure(vec![array(2, structure(vec![integer(8), integer(16)]))]);
    let middle = ExtractValueOp::indexed_type(&ty, &[0, 1]).unwrap();
    let last = ExtractValueOp::indexed_type(middle, &[1]).unwrap();
    let whole = ExtractValueOp::indexed_type(&ty, &[0, 1, 1]).unwrap();
    assert!(same_type(last, whole));
}

#[test]
fn insertions_are_checked_against_the_slot() {
    let ty = structure(vec![integer(8), f32_type()]);
    let op = InsertValueOp::new(value("agg", ty.duplicate()), value("v", f32_type()), vec![1]);
    assert!(op.verify().is_ok());
    assert_eq!(op.indices(), &vec![1]);
    assert!(same_type(&op.result, &ty));

    let wrong = InsertValueOp::new(value("agg", ty.duplicate()), value("v", integer(8)), vec![1]);
    let error = wrong.verify().unwrap_err();
    assert!(matches!(error, InsertValueVerifyErr::SlotMismatch { .. }));
    assert_eq!(
        error.message("f32", "i8"),
        "insert_value type mismatch at [1]: slot expects f32 but value is i8"
    );

    let outside = InsertValueOp::new(value("agg", ty.duplicate()), value("v", integer(8)), vec![0, 4]);
    assert_eq!(
        outside.verify().unwrap_err().message("", ""),
        "Invalid indices on insert/extract value instruction"
    );

    let mut bare = InsertValueOp::new(value("agg", ty), value("v", integer(8)), vec![0, 10, 2]);
    bare.insert_value_indices = None;
    assert_eq!(
        bare.verify().unwrap_err().message("", ""),
        "Insert/Extract value instruction has no or incorrect indices attribute"
    );
}

#[test]
fn insert_messages_list_all_indices() {
    let ty = array(3, array(20, array(2, integer(8))));
    let op = InsertValueOp::new(value("agg", ty), value("v", integer(9)), vec![0, 10, 1]);
    assert_eq!(
        op.verify().unwrap_err().message("a", "b"),
        format!(
            "insert_value type mismatch at {:?}: slot expects a but value is b",
            vec![0, 10, 1]
        )
    );
}

#[test]
fn extractions_have_the_type_of_the_slot() {
    let ty = structure(vec![integer(8), f32_type()]);
    let mut op = ExtractValueOp::new(value("agg", ty.duplicate()), vec![1]).unwrap();
    assert!(same_type(&op.result, &f32_type()));
    assert!(op.verify().is_ok());
    op.result = integer(8);
    assert_eq!(op.verify().unwrap_err(), InsertExtractValueErr::ValueTypeErr);
    op.extract_value_indices = Some(vec![7]);
    assert_eq!(
        op.verify().unwrap_err(),
        InsertExtractValueErr::InvalidIndicesErr
    );
    op.extract_value_indices = None;
    assert_eq!(
        op.verify().unwrap_err(),
        InsertExtractValueErr::IndicesAttrErr
    );
    assert!(ExtractValueOp::new(value("agg", ty), vec![2]).is_err());
    assert_eq!(
        InsertExtractValueErr::ValueTypeErr.message(),
        "Value being inserted / extracted does not match the type of the indexed aggregate"
    );
}

#[test]
fn elements_are_extracted_from_vectors_and_arrays() {
    let vector = Type::Vector {
        size: 4,
        elem: Box::new(f32_type()),
    };
    let mut op = ExtractElementOp::new(value("v", vector), value("i", integer(32))).unwrap();
    assert!(same_type(&op.result, &f32_type()));
    assert!(op.verify().is_ok());
    op.index = value("i", f32_type());
    assert_eq!(op.verify().unwrap_err(), ExtractElementErr::IndexNotInteger);
    op.result = integer(8);
    assert_eq!(
        op.verify().unwrap_err(),
        ExtractElementErr::ResultTypeMismatch
    );
    op.vector = value("v", integer(8));
    assert_eq!(op.verify().unwrap_err(), ExtractElementErr::NotVectorType);
    assert!(ExtractElementOp::new(value("a", array(2, integer(8))), value("i", integer(32))).is_ok());
    assert_eq!(
        ExtractElementOp::new(value("a", integer(8)), value("i", integer(32)))
            .unwrap_err()
            .message(),
        "extractelement requires a vector or array type"
    );
}

#[test]
fn arithmetic_needs_one_type_of_the_right_sort() {
    let flags = IntegerOverflowFlags {
        nsw: true,
        nuw: false,
    };
    let mut op = AddOp::new_with_overflow_flag(value("a", integer(32)), value("b", integer(32)), flags);
    assert!(op.verify().is_ok());
    assert!(op.llvm_integer_overflow_flags.nsw);
    op.rhs = value("b", integer(64));
    assert_eq!(op.verify().unwrap_err(), BinArithVerifyErr::OperandTypes);
    let mut op = XorOp::new(value("a", integer(8)), value("b", integer(8)));
    op.result = integer(1);
    assert_eq!(
        op.verify().unwrap_err().message(),
        "Result type must match operands"
    );
    let op = XorOp::new(value("a", f32_type()), value("b", f32_type()));
    assert_eq!(
        op.verify().unwrap_err().message(),
        "Operands must be integer type"
    );
    let op = FAddOp::new_with_fast_math_flags(
        value("a", f32_type()),
        value("b", f32_type()),
        FastmathFlags(3),
    );
    assert!(op.verify().is_ok());
    let op = FAddOp::new_with_fast_math_flags(
        value("a", integer(32)),
        value("b", integer(32)),
        FastmathFlags::default(),
    );
    assert_eq!(
        op.verify().unwrap_err().message(),
        "Operands must be float type"
    );
    let op = FNegOp::new_with_fast_math_flags(value("a", f64_type()), FastmathFlags(1));
    assert!(op.verify().is_ok());
    assert!(same_type(&op.result, &f64_type()));
    let op = FNegOp::new_with_fast_math_flags(value("a", integer(1)), FastmathFlags(1));
    assert_eq!(
        op.verify().unwrap_err(),
        FNegOpVerifyErr::ArgumentMustBeFloat
    );
    let mut op = FNegOp::new_with_fast_math_flags(value("a", f64_type()), FastmathFlags(1));
    op.result = Type::Void;
    assert_eq!(
        op.verify().unwrap_err().message(),
        "Op has different operand and result types"
    );
}

#[test]
fn integer_casts_go_by_width() {
    assert!(SExtOp::new(value("a", integer(8)), integer(32)).verify().is_ok());
    assert!(ZExtOp::new_with_nneg(value("a", integer(8)), integer(16), true)
        .verify()
        .is_ok());
    assert!(TruncOp::new(value("a", integer(32)), integer(8)).verify().is_ok());
    assert_eq!(
        SExtOp::new(value("a", integer(8)), integer(8)).verify().unwrap_err(),
        IntCastVerifyErr::ResultTypeSmallerThanOperand
    );
    assert_eq!(
        TruncOp::new(value("a", integer(8)), integer(8)).verify().unwrap_err(),
        IntCastVerifyErr::ResultTypeLargerThanOperand
    );
    assert_eq!(
        SExtOp::new(value("a", integer(8)), ptr(0)).verify().unwrap_err(),
        IntCastVerifyErr::ResultTypeErr
    );
    assert_eq!(
        SExtOp::new(value("a", f32_type()), integer(64))
            .verify()
            .unwrap_err(),
        IntCastVerifyErr::OperandTypeErr
    );
}

#[test]
fn every_predicate_names_a_relation_of_widths() {
    for (predicate, narrower, equal, wider) in [
        (ICmpPredicate::SLT, true, false, false),
        (ICmpPredicate::ULT, true, false, false),
        (ICmpPredicate::SLE, true, true, false),
        (ICmpPredicate::ULE, true, true, false),
        (ICmpPredicate::SGT, false, false, true),
        (ICmpPredicate::UGT, false, false, true),
        (ICmpPredicate::SGE, false, true, true),
        (ICmpPredicate::UGE, false, true, true),
        (ICmpPredicate::EQ, false, true, false),
        (ICmpPredicate::NE, true, false, true),
    ] {
        for (width, accepted) in [(8, narrower), (16, equal), (32, wider)] {
            assert_eq!(
                integer_cast_verify(&integer(16), &integer(width), predicate).is_ok(),
                accepted,
                "{predicate:?} {width}"
            );
        }
    }
    assert_eq!(
        integer_cast_verify(&integer(16), &integer(8), ICmpPredicate::EQ)
            .unwrap_err()
            .message(),
        "Result type must be equal to operand type"
    );
    assert_eq!(
        integer_cast_verify(&integer(16), &integer(8), ICmpPredicate::EQ)
            .unwrap_err()
            .message(),
        "Result type must be equal to operand type"
    );
    assert_eq!(
        integer_cast_verify(&integer(16), &integer(16), ICmpPredicate::NE)
            .unwrap_err()
            .message(),
        "Result type must be different from operand type"
    );
}

#[test]
fn float_casts_go_by_size() {
    let up = FPExtOp::new_with_fast_math_flags(value("a", f32_type()), f64_type(), FastmathFlags(0));
    assert!(up.verify().is_ok());
    let same =
        FPExtOp::new_with_fast_math_flags(value("a", f32_type()), f32_type(), FastmathFlags(0));
    assert_eq!(
        same.verify().unwrap_err(),
        FloatCastVerifyErr::ResultTypeSmallerThanOperand
    );
    let down =
        FPTruncOp::new_with_fast_math_flags(value("a", f64_type()), f32_type(), FastmathFlags(0));
    assert!(down.verify().is_ok());
    let same =
        FPTruncOp::new_with_fast_math_flags(value("a", f32_type()), f32_type(), FastmathFlags(0));
    assert_eq!(
        same.verify().unwrap_err().message(),
        "Operand type must be bigger than the result type"
    );
    let wrong =
        FPExtOp::new_with_fast_math_flags(value("a", integer(8)), f64_type(), FastmathFlags(0));
    assert_eq!(
        wrong.verify().unwrap_err(),
        FloatCastVerifyErr::OperandTypeErr
    );
    let wrong =
        FPTruncOp::new_with_fast_math_flags(value("a", f64_type()), integer(8), FastmathFlags(0));
    assert_eq!(
        wrong.verify().unwrap_err(),
        FloatCastVerifyErr::ResultTypeErr
    );
}

#[test]
fn conversions_between_sorts_are_checked() {
    assert!(FPToSIOp::new(value("a", f32_type()), integer(32))
        .verify()
        .is_ok());
    assert_eq!(
        FPToSIOp::new(value("a", f32_type()), signed(32))
            .verify()
            .unwrap_err(),
        FloatCastVerifyErr::ResultTypeErr
    );
    assert!(SIToFPOp::new(value("a", integer(32)), f32_type())
        .verify()
        .is_ok());
    assert_eq!(
        UIToFPOp::new_with_nneg(value("a", signed(32)), f32_type(), false)
            .verify()
            .unwrap_err(),
        FloatCastVerifyErr::OperandTypeErr
    );
    assert!(IntToPtrOp::new(value("a", integer(64)), ptr(0)).verify().is_ok());
    assert_eq!(
        IntToPtrOp::new(value("a", signed(64)), ptr(0))
            .verify()
            .unwrap_err(),
        IntToPtrOpErr::OperandTypeErr
    );
    assert_eq!(
        IntToPtrOp::new(value("a", integer(64)), integer(64))
            .verify()
            .unwrap_err()
            .message(),
        "Result must be a pointer type"
    );
    assert!(PtrToIntOp::new(value("a", ptr(0)), integer(64)).verify().is_ok());
    assert_eq!(
        PtrToIntOp::new(value("a", ptr(0)), f32_type())
            .verify()
            .unwrap_err(),
        PtrToIntOpErr::ResultTypeErr
    );
    let cast = AddrSpaceCastOp::new(value("a", ptr(0)), 3);
    assert!(cast.verify().is_ok());
    assert!(same_type(&cast.result, &ptr(3)));
    assert_eq!(
        AddrSpaceCastOp::new(value("a", integer(64)), 3)
            .verify()
            .unwrap_err(),
        AddrSpaceCastOpErr::OperandTypeErr
    );
}

#[test]
fn comparisons_are_checked_in_order() {
    let mut op = ICmpOp::new(ICmpPredicate::SLT, value("a", integer(32)), value("b", integer(32)));
    assert!(op.verify().is_ok());
    assert_eq!(op.predicate(), ICmpPredicate::SLT);
    assert!(same_type(&op.result, &integer(1)));
    assert!(
        ICmpOp::new(ICmpPredicate::EQ, value("a", ptr(0)), value("b", ptr(0)))
            .verify()
            .is_ok()
    );
    op.result = integer(8);
    assert!(matches!(op.verify().unwrap_err(), ICmpOpVerifyErr::ResultNotBool));
    op.result = ptr(0);
    let error = op.verify().unwrap_err();
    assert!(matches!(
        &error,
        ICmpOpVerifyErr::ResultNotInteger(mismatch)
            if mismatch.expected == TypeSort::Integer && same_type(&mismatch.provided, &ptr(0))
    ));
    assert_eq!(
        error.message("llvm.ptr"),
        "TypedHandle mismatch: expected builtin.integer but provided llvm.ptr"
    );
    op.icmp_predicate = None;
    assert!(matches!(op.verify().unwrap_err(), ICmpOpVerifyErr::PredAttrErr));
    op.rhs = value("b", integer(16));
    assert!(matches!(op.verify().unwrap_err(), ICmpOpVerifyErr::OperandsDiffer));
    let op = ICmpOp::new(ICmpPredicate::EQ, value("a", f32_type()), value("b", f32_type()));
    assert_eq!(
        op.verify().unwrap_err().message(""),
        "Operand must be integer or pointer types"
    );
    let op = FCmpOp::new(FCmpPredicate::OLT, value("a", f32_type()), value("b", f32_type()));
    assert!(op.verify().is_ok());
    assert_eq!(op.llvm_fast_math_flags, FastmathFlags(0));
    let op = FCmpOp::new(FCmpPredicate::OLT, value("a", integer(8)), value("b", integer(8)));
    assert!(matches!(
        op.verify().unwrap_err(),
        FCmpOpVerifyErr::IncorrectOperandsType
    ));
    let mut op = FCmpOp::new(FCmpPredicate::OLT, value("a", f32_type()), value("b", f32_type()));
    op.result = f32_type();
    assert_eq!(
        op.verify().unwrap_err().message("builtin.fp32"),
        "TypedHandle mismatch: expected builtin.integer but provided builtin.fp32"
    );
}

#[test]
fn selections_constants_and_arguments_are_checked() {
    let mut op = SelectOp::new(value("c", integer(1)), value("t", f32_type()), value("f", f32_type()));
    assert!(op.verify().is_ok());
    op.cond = value("c", integer(8));
    assert_eq!(op.verify().unwrap_err(), SelectOpVerifyErr::ConditionTypeErr);
    op.false_val = value("f", integer(8));
    assert_eq!(
        op.verify().unwrap_err().message(),
        "Result must be the same as the true and false destination types"
    );

    let op = ConstantOp::new(ConstantValue::Integer {
        ty: integer(32),
        text: "7: i32".to_string(),
    });
    assert!(op.verify().is_ok());
    assert!(same_type(&op.result, &integer(32)));
    assert!(matches!(op.get_value(), ConstantValue::Integer { .. }));
    let op = ConstantOp::new(ConstantValue::Typed {
        ty: ptr(0),
        text: "null".to_string(),
    });
    assert_eq!(op.verify().unwrap_err(), ConstantOpVerifyErr::InvalidValue);
    assert!(same_type(&ZeroOp::new(ptr(1)).result, &ptr(1)));
    assert!(same_type(&UndefOp::new(integer(3)).result, &integer(3)));

    assert!(VAArgOp::new(value("l", ptr(0)), integer(32)).verify().is_ok());
    assert_eq!(
        VAArgOp::new(value("l", integer(32)), integer(32))
            .verify()
            .unwrap_err(),
        VAArgOpVerifyErr::OperandNotPointer
    );
}

#[test]
fn void_assembly_has_no_result() {
    let op = InlineAsmOp::new(Type::Void, vec![value("a", integer(32))], "bar.sync 0;", "r");
    assert!(op.results.is_empty());
    assert!(!op.is_convergent());
    assert_eq!(op.asm_template(), "bar.sync 0;");
    assert_eq!(op.constraints(), "r");
    let mut op = InlineAsmOp::new_convergent(integer(32), vec![], "mov", "=r");
    assert_eq!(op.results.len(), 1);
    assert!(op.is_convergent());
    assert!(op.verify().is_ok());
    op.inline_asm_constraints = None;
    assert_eq!(
        op.verify().unwrap_err(),
        InlineAsmVerifyErr::MissingConstraints
    );
    assert_eq!(op.constraints(), "");
    op.inline_asm_template = None;
    assert_eq!(
        op.verify().unwrap_err().message(),
        "llvm.inline_asm requires 'inline_asm_template' attribute"
    );
}

#[test]
fn tied_inputs_are_read_back() {
    for list in [
        vec![],
        vec![0],
        vec![0, 1, -1, -1],
        vec![i32::MIN, i32::MAX, 0, -10, 100],
    ] {
        let op = InlineAsmMultiOp::new(vec![], vec![], "t", "c", &list);
        assert_eq!(op.tied_inputs(), list);
        let text: Vec<String> = list.iter().map(|n| n.to_string()).collect();
        assert_eq!(op.multi_asm_tied_inputs, Some(text.join(",")));
    }
}

#[test]
fn tied_inputs_take_what_is_no_number_for_none() {
    let mut op = InlineAsmMultiOp::new(vec![], vec![], "t", "c", &[]);
    for text in [
        "1,x,3",
        ",,",
        "+5,-",
        "2147483647,2147483648,-2147483648,-2147483649",
        " 1,2",
        "007,,9",
        "-,+,--1",
    ] {
        op.multi_asm_tied_inputs = Some(text.to_string());
        let expected: Vec<i32> = text
            .split(',')
            .filter(|s| !s.is_empty())
            .map(|s| s.parse::<i32>().unwrap_or(-1))
            .collect();
        assert_eq!(op.tied_inputs(), expected, "{text}");
    }
    op.multi_asm_tied_inputs = None;
    assert!(op.tied_inputs().is_empty());
}

#[test]
fn tied_operations_list_their_constraints() {
    let op = InlineAsmMultiOp::new_tied_convergent(
        2,
        f32_type(),
        vec![value("a", f32_type()), value("b", f32_type())],
        vec![value("x", integer(64)), value("y", integer(64))],
        "wgmma",
        "f",
        "l,l",
    );
    assert_eq!(op.constraints(), "=f,=f,0,1,l,l");
    assert_eq!(op.tied_inputs(), [0, 1, -1, -1]);
    assert_eq!(op.num_results(), 2);
    assert!(op.is_convergent());
    assert_eq!(op.asm_template(), "wgmma");
    let names: Vec<&str> = op.inputs.iter().map(|v| v.name.as_str()).collect();
    assert_eq!(names, ["a", "b", "x", "y"]);

    let op = InlineAsmMultiOp::new_tied_convergent(
        1,
        integer(32),
        vec![value("a", integer(32))],
        vec![],
        "t",
        "r",
        "",
    );
    assert_eq!(op.constraints(), "=r,0");
    let op = InlineAsmMultiOp::new_tied_convergent(0, integer(32), vec![], vec![], "t", "r", "l");
    assert_eq!(op.constraints(), ",l");
}

#[test]
fn multi_result_assembly_is_checked() {
    let mut op = InlineAsmMultiOp::new_convergent(vec![integer(32)], vec![], "t", "=r", &[]);
    assert!(op.verify().is_ok());
    op.multi_asm_tied_inputs = None;
    assert_eq!(
        op.verify().unwrap_err(),
        InlineAsmMultiVerifyErr::MissingTiedInputs
    );
    op.multi_asm_constraints = None;
    assert_eq!(
        op.verify().unwrap_err(),
        InlineAsmMultiVerifyErr::MissingConstraints
    );
    op.multi_asm_template = None;
    assert_eq!(
        op.verify().unwrap_err().message(),
        "llvm.inline_asm_multi requires 'multi_asm_template' attribute"
    );
}

#[test]
fn atomics_are_written_as_llvm_writes_them() {
    assert_eq!(
        format_syncscope(&LlvmSyncScope::Device),
        " syncscope(\"device\")"
    );
    assert_eq!(
        format_syncscope(&LlvmSyncScope::Block),
        " syncscope(\"block\")"
    );
    assert_eq!(format_syncscope(&LlvmSyncScope::System), "");
    let orderings = [
        LlvmAtomicOrdering::Monotonic,
        LlvmAtomicOrdering::Acquire,
        LlvmAtomicOrdering::Release,
        LlvmAtomicOrdering::AcqRel,
        LlvmAtomicOrdering::SeqCst,
    ];
    let texts: Vec<&str> = orderings.iter().map(format_ordering).collect();
    assert_eq!(
        texts,
        ["monotonic", "acquire", "release", "acq_rel", "seq_cst"]
    );
    let kinds = [
        LlvmAtomicRmwKind::Add,
        LlvmAtomicRmwKind::Sub,
        LlvmAtomicRmwKind::Xchg,
        LlvmAtomicRmwKind::And,
        LlvmAtomicRmwKind::Or,
        LlvmAtomicRmwKind::Xor,
        LlvmAtomicRmwKind::Max,
        LlvmAtomicRmwKind::Min,
        LlvmAtomicRmwKind::UMax,
        LlvmAtomicRmwKind::UMin,
        LlvmAtomicRmwKind::FAdd,
    ];
    let texts: Vec<&str> = kinds.iter().map(format_rmw_kind).collect();
    assert_eq!(
        texts,
        ["add", "sub", "xchg", "and", "or", "xor", "max", "min", "umax", "umin", "fadd"]
    );
}

#[test]
fn atomics_need_a_pointer() {
    let ordering = LlvmAtomicOrdering::Acquire;
    let scope = LlvmSyncScope::Device;
    let load = AtomicLoadOp::new(value("p", ptr(1)), integer(32), ordering, scope);
    assert!(load.verify().is_ok());
    assert_eq!(load.ordering(), ordering);
    assert_eq!(load.syncscope(), scope);
    let load = AtomicLoadOp::new(value("p", integer(64)), integer(32), ordering, scope);
    assert_eq!(load.verify().unwrap_err(), AtomicVerifyErr::LoadPointer);
    let store = AtomicStoreOp::new(value("v", ptr(1)), value("p", integer(64)), ordering, scope);
    assert_eq!(
        store.verify().unwrap_err().message(),
        "llvm.atomic_store second operand must be a pointer"
    );
    assert_eq!(store.value_opd().name, "v");
    assert_eq!(store.address_opd().name, "p");
    let rmw = AtomicRmwOp::new(
        value("p", integer(64)),
        value("v", integer(32)),
        integer(32),
        LlvmAtomicRmwKind::UMin,
        ordering,
        scope,
    );
    assert_eq!(rmw.rmw_kind(), LlvmAtomicRmwKind::UMin);
    assert_eq!(rmw.verify().unwrap_err(), AtomicVerifyErr::RmwPointer);
    let swap = AtomicCmpxchgOp::new(
        value("p", ptr(0)),
        value("c", integer(32)),
        value("n", integer(32)),
        integer(32),
        LlvmAtomicOrdering::AcqRel,
        LlvmAtomicOrdering::Monotonic,
        scope,
    );
    assert!(swap.verify().is_ok());
    assert_eq!(swap.ordering(), swap.success_ordering());
    assert_eq!(swap.failure_ordering(), LlvmAtomicOrdering::Monotonic);
    let fence = FenceOp::new(LlvmAtomicOrdering::SeqCst, LlvmSyncScope::System);
    assert_eq!(fence.ordering(), LlvmAtomicOrdering::SeqCst);
    assert_eq!(fence.syncscope(), LlvmSyncScope::System);
}

#[test]
fn registration_covers_every_operation() {
    let mut dialect = Dialect::new();
    assert!(!dialect.knows("llvm.add"));
    ops::register(&mut dialect);
    for name in [
        "llvm.add",
        "llvm.fneg",
        "llvm.cmpxchg",
        "llvm.fcmp",
        "llvm.uitofp",
        "llvm.extractelement",
        "llvm.undef",
        "llvm.addressof",
        "llvm.call_intrinsic",
        "llvm.select",
        "llvm.inline_asm_multi",
        "llvm.va_arg",
    ] {
        assert!(dialect.knows(name), "{name}");
    }
    assert!(!dialect.knows("llvm.nothing"));
}

use cuda_oxide::llvm::ops::atomic::{LlvmAtomicOrdering, LlvmAtomicRmwKind, LlvmSyncScope};
use cuda_oxide::llvm::types::{same_type, Signedness, Type};
use cuda_oxide::llvm::value::Value;
use cuda_oxide::lowering::atomic::{
    convert_atomic_cmpxchg, convert_atomic_load, convert_atomic_rmw, convert_atomic_store,
    map_ordering, map_rmw_kind, map_scope, AtomicOp, AtomicOrdering, AtomicRmwKind, AtomicScope,
    NvvmAtomicCmpxchgOp, NvvmAtomicLoadOp, NvvmAtomicRmwOp, NvvmAtomicStoreOp,
};

fn i32_type() -> Type {
    Type::Integer {
        width: 32,
        signedness: Signedness::Signless,
    }
}

fn value(name: &str) -> Value {
    Value::new(name.to_string(), Type::Pointer { address_space: 0 })
}

fn rmw(ordering: AtomicOrdering) -> NvvmAtomicRmwOp {
    NvvmAtomicRmwOp {
        ptr: value("p"),
        val: value("v"),
        rmw_kind: AtomicRmwKind::UMax,
        ordering,
        scope: AtomicScope::Block,
    }
}

#[test]
fn read_modify_write_is_split_by_fences() {
    for (ordering, before, after) in [
        (AtomicOrdering::Relaxed, None, None),
        (AtomicOrdering::Acquire, None, Some(LlvmAtomicOrdering::Acquire)),
        (AtomicOrdering::Release, Some(LlvmAtomicOrdering::Release), None),
        (AtomicOrdering::AcqRel, Some(LlvmAtomicOrdering::Release), Some(LlvmAtomicOrdering::Acquire)),
        (AtomicOrdering::SeqCst, Some(LlvmAtomicOrdering::SeqCst), Some(LlvmAtomicOrdering::SeqCst)),
    ] {
        let rewrite = convert_atomic_rmw(rmw(ordering), Ok(i32_type())).unwrap();
        let at = rewrite.replacement.unwrap();
        assert_eq!(at, usize::from(before.is_some()));
        assert_eq!(
            rewrite.inserted.len(),
            1 + usize::from(before.is_some()) + usize::from(after.is_some())
        );
        for (index, fence) in [(0, before), (at + 1, after)] {
            if let Some(expected) = fence {
                match &rewrite.inserted[index] {
                    AtomicOp::Fence(op) => {
                        assert_eq!(op.llvm_fence_ordering, expected);
                        assert_eq!(op.llvm_fence_syncscope, LlvmSyncScope::Block);
                    }
                    other => panic!("{other:?}"),
                }
            }
        }
        match &rewrite.inserted[at] {
            AtomicOp::Rmw(op) => {
                assert_eq!(op.llvm_rmw_ordering, LlvmAtomicOrdering::Monotonic);
                assert_eq!(op.llvm_rmw_syncscope, LlvmSyncScope::Block);
                assert_eq!(op.llvm_rmw_kind, LlvmAtomicRmwKind::UMax);
                assert_eq!(op.ptr.name, "p");
                assert_eq!(op.val.name, "v");
                assert!(same_type(&op.result, &i32_type()));
            }
            other => panic!("{other:?}"),
        }
    }
}

#[test]
fn unconverted_result_types_stop_lowering() {
    assert_eq!(
        convert_atomic_rmw(rmw(AtomicOrdering::SeqCst), Err("no type".to_string())).unwrap_err(),
        "no type"
    );
    let load = NvvmAtomicLoadOp {
        ptr: value("p"),
        ordering: AtomicOrdering::Acquire,
        scope: AtomicScope::Device,
    };
    assert_eq!(
        convert_atomic_load(load, Err("no type".to_string())).unwrap_err(),
        "no type"
    );
}

#[test]
fn loads_stores_and_exchanges_keep_their_ordering() {
    let load = NvvmAtomicLoadOp {
        ptr: value("p"),
        ordering: AtomicOrdering::Acquire,
        scope: AtomicScope::Device,
    };
    let rewrite = convert_atomic_load(load, Ok(i32_type())).unwrap();
    assert_eq!(rewrite.replacement, Some(0));
    match &rewrite.inserted[..] {
        [AtomicOp::Load(op)] => {
            assert_eq!(op.llvm_ld_ordering, LlvmAtomicOrdering::Acquire);
            assert_eq!(op.llvm_ld_syncscope, LlvmSyncScope::Device);
        }
        other => panic!("{other:?}"),
    }
    let store = NvvmAtomicStoreOp {
        val: value("v"),
        ptr: value("p"),
        ordering: AtomicOrdering::Release,
        scope: AtomicScope::System,
    };
    let rewrite = convert_atomic_store(store);
    assert_eq!(rewrite.replacement, None);
    match &rewrite.inserted[..] {
        [AtomicOp::Store(op)] => {
            assert_eq!(op.llvm_st_ordering, LlvmAtomicOrdering::Release);
            assert_eq!(op.llvm_st_syncscope, LlvmSyncScope::System);
            assert_eq!(op.val.name, "v");
        }
        other => panic!("{other:?}"),
    }
    let swap = NvvmAtomicCmpxchgOp {
        ptr: value("p"),
        cmp: value("c"),
        new: value("n"),
        success_ordering: AtomicOrdering::AcqRel,
        failure_ordering: AtomicOrdering::Relaxed,
        scope: AtomicScope::Device,
    };
    let rewrite = convert_atomic_cmpxchg(swap, Ok(i32_type())).unwrap();
    match &rewrite.inserted[..] {
        [AtomicOp::Cmpxchg(op)] => {
            assert_eq!(op.llvm_cas_success_ordering, LlvmAtomicOrdering::AcqRel);
            assert_eq!(op.llvm_cas_failure_ordering, LlvmAtomicOrdering::Monotonic);
            assert_eq!(op.cmp.name, "c");
            assert_eq!(op.new.name, "n");
        }
        other => panic!("{other:?}"),
    }
}

#[test]
fn scopes_orderings_and_kinds_are_mapped_by_name() {
    assert_eq!(map_scope(&AtomicScope::System), LlvmSyncScope::System);
    assert_eq!(map_scope(&AtomicScope::Device), LlvmSyncScope::Device);
    assert_eq!(
        map_ordering(&AtomicOrdering::Relaxed),
        LlvmAtomicOrdering::Monotonic
    );
    assert_eq!(
        map_ordering(&AtomicOrdering::SeqCst),
        LlvmAtomicOrdering::SeqCst
    );
    assert_eq!(map_rmw_kind(&AtomicRmwKind::Xchg), LlvmAtomicRmwKind::Xchg);
    assert_eq!(map_rmw_kind(&AtomicRmwKind::FAdd), LlvmAtomicRmwKind::FAdd);
}

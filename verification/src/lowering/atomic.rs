//! Atomic operations: from the NVVM dialect to LLVM instructions.
//!
//! Loads, stores and compare-and-exchange keep their ordering. The ordering of a
//! read-modify-write operation is carried by fences around it, because the
//! instruction itself does not keep it on this target:
//!
//! | ordering | before          | operation   | behind          |
//! |----------|-----------------|-------------|-----------------|
//! | relaxed  |                 | `monotonic` |                 |
//! | acquire  |                 | `monotonic` | `fence acquire` |
//! | release  | `fence release` | `monotonic` |                 |
//! | acq_rel  | `fence release` | `monotonic` | `fence acquire` |
//! | seq_cst  | `fence seq_cst` | `monotonic` | `fence seq_cst` |
//!
//! All of them have the scope of the operation.

use crate::llvm::ops::atomic::{
    AtomicCmpxchgOp, AtomicLoadOp, AtomicRmwOp, AtomicStoreOp, FenceOp, LlvmAtomicOrdering,
    LlvmAtomicRmwKind, LlvmSyncScope,
};
use crate::llvm::types::Type;
use crate::llvm::value::Value;
use vstd::prelude::*;

verus! {

/// The threads that an operation is atomic to.
#[derive(Clone, Copy, Debug, PartialEq, Eq, Structural)]
pub enum AtomicScope {
    Device,
    Block,
    System,
}

/// The ordering of an operation.
#[derive(Clone, Copy, Debug, PartialEq, Eq, Structural)]
pub enum AtomicOrdering {
    Relaxed,
    Acquire,
    Release,
    AcqRel,
    SeqCst,
}

/// What a read-modify-write operation does to the value.
#[derive(Clone, Copy, Debug, PartialEq, Eq, Structural)]
pub enum AtomicRmwKind {
    Add,
    Sub,
    And,
    Or,
    Xor,
    Xchg,
    Min,
    Max,
    UMin,
    UMax,
    FAdd,
}

/// An atomic load.
#[derive(Debug)]
pub struct NvvmAtomicLoadOp {
    pub ptr: Value,
    pub ordering: AtomicOrdering,
    pub scope: AtomicScope,
}

/// An atomic store.
#[derive(Debug)]
pub struct NvvmAtomicStoreOp {
    pub val: Value,
    pub ptr: Value,
    pub ordering: AtomicOrdering,
    pub scope: AtomicScope,
}

/// An atomic read-modify-write operation.
#[derive(Debug)]
pub struct NvvmAtomicRmwOp {
    pub ptr: Value,
    pub val: Value,
    pub rmw_kind: AtomicRmwKind,
    pub ordering: AtomicOrdering,
    pub scope: AtomicScope,
}

/// An atomic compare-and-exchange.
#[derive(Debug)]
pub struct NvvmAtomicCmpxchgOp {
    pub ptr: Value,
    pub cmp: Value,
    pub new: Value,
    pub success_ordering: AtomicOrdering,
    pub failure_ordering: AtomicOrdering,
    pub scope: AtomicScope,
}

/// The LLVM scope of a scope.
pub open spec fn llvm_scope(value: AtomicScope) -> LlvmSyncScope {
    match value {
        AtomicScope::Device => LlvmSyncScope::Device,
        AtomicScope::Block => LlvmSyncScope::Block,
        AtomicScope::System => LlvmSyncScope::System,
    }
}

/// The LLVM scope of a scope.
pub fn map_scope(value: &AtomicScope) -> (mapped: LlvmSyncScope)
    ensures
        mapped == llvm_scope(*value),
{
    match value {
        AtomicScope::Device => LlvmSyncScope::Device,
        AtomicScope::Block => LlvmSyncScope::Block,
        AtomicScope::System => LlvmSyncScope::System,
    }
}

/// The LLVM ordering of an ordering.
pub open spec fn llvm_ordering(value: AtomicOrdering) -> LlvmAtomicOrdering {
    match value {
        AtomicOrdering::Relaxed => LlvmAtomicOrdering::Monotonic,
        AtomicOrdering::Acquire => LlvmAtomicOrdering::Acquire,
        AtomicOrdering::Release => LlvmAtomicOrdering::Release,
        AtomicOrdering::AcqRel => LlvmAtomicOrdering::AcqRel,
        AtomicOrdering::SeqCst => LlvmAtomicOrdering::SeqCst,
    }
}

/// The LLVM ordering of an ordering.
pub fn map_ordering(value: &AtomicOrdering) -> (mapped: LlvmAtomicOrdering)
    ensures
        mapped == llvm_ordering(*value),
{
    match value {
        AtomicOrdering::Relaxed => LlvmAtomicOrdering::Monotonic,
        AtomicOrdering::Acquire => LlvmAtomicOrdering::Acquire,
        AtomicOrdering::Release => LlvmAtomicOrdering::Release,
        AtomicOrdering::AcqRel => LlvmAtomicOrdering::AcqRel,
        AtomicOrdering::SeqCst => LlvmAtomicOrdering::SeqCst,
    }
}

/// The LLVM kind of a read-modify-write operation.
pub open spec fn llvm_rmw_kind(value: AtomicRmwKind) -> LlvmAtomicRmwKind {
    match value {
        AtomicRmwKind::Add => LlvmAtomicRmwKind::Add,
        AtomicRmwKind::Sub => LlvmAtomicRmwKind::Sub,
        AtomicRmwKind::And => LlvmAtomicRmwKind::And,
        AtomicRmwKind::Or => LlvmAtomicRmwKind::Or,
        AtomicRmwKind::Xor => LlvmAtomicRmwKind::Xor,
        AtomicRmwKind::Xchg => LlvmAtomicRmwKind::Xchg,
        AtomicRmwKind::Min => LlvmAtomicRmwKind::Min,
        AtomicRmwKind::Max => LlvmAtomicRmwKind::Max,
        AtomicRmwKind::UMin => LlvmAtomicRmwKind::UMin,
        AtomicRmwKind::UMax => LlvmAtomicRmwKind::UMax,
        AtomicRmwKind::FAdd => LlvmAtomicRmwKind::FAdd,
    }
}

/// The LLVM kind of a read-modify-write operation.
pub fn map_rmw_kind(value: &AtomicRmwKind) -> (mapped: LlvmAtomicRmwKind)
    ensures
        mapped == llvm_rmw_kind(*value),
{
    match value {
        AtomicRmwKind::Add => LlvmAtomicRmwKind::Add,
        AtomicRmwKind::Sub => LlvmAtomicRmwKind::Sub,
        AtomicRmwKind::And => LlvmAtomicRmwKind::And,
        AtomicRmwKind::Or => LlvmAtomicRmwKind::Or,
        AtomicRmwKind::Xor => LlvmAtomicRmwKind::Xor,
        AtomicRmwKind::Xchg => LlvmAtomicRmwKind::Xchg,
        AtomicRmwKind::Min => LlvmAtomicRmwKind::Min,
        AtomicRmwKind::Max => LlvmAtomicRmwKind::Max,
        AtomicRmwKind::UMin => LlvmAtomicRmwKind::UMin,
        AtomicRmwKind::UMax => LlvmAtomicRmwKind::UMax,
        AtomicRmwKind::FAdd => LlvmAtomicRmwKind::FAdd,
    }
}

/// An operation that lowering inserts.
#[derive(Debug)]
pub enum AtomicOp {
    Load(AtomicLoadOp),
    Store(AtomicStoreOp),
    Rmw(AtomicRmwOp),
    Cmpxchg(AtomicCmpxchgOp),
    Fence(FenceOp),
}

/// What takes the place of a lowered operation: the operations to insert, in
/// order, and which of them gives its result. Where none does, the lowered
/// operation is erased.
#[derive(Debug)]
pub struct Rewrite {
    pub inserted: Vec<AtomicOp>,
    pub replacement: Option<usize>,
}

/// The fence in front of a read-modify-write operation.
pub open spec fn fence_before(ordering: AtomicOrdering) -> Option<LlvmAtomicOrdering> {
    match ordering {
        AtomicOrdering::Release | AtomicOrdering::AcqRel => Some(LlvmAtomicOrdering::Release),
        AtomicOrdering::SeqCst => Some(LlvmAtomicOrdering::SeqCst),
        AtomicOrdering::Relaxed | AtomicOrdering::Acquire => None,
    }
}

/// The fence behind a read-modify-write operation.
pub open spec fn fence_after(ordering: AtomicOrdering) -> Option<LlvmAtomicOrdering> {
    match ordering {
        AtomicOrdering::Acquire | AtomicOrdering::AcqRel => Some(LlvmAtomicOrdering::Acquire),
        AtomicOrdering::SeqCst => Some(LlvmAtomicOrdering::SeqCst),
        AtomicOrdering::Relaxed | AtomicOrdering::Release => None,
    }
}

/// `op` is a fence with this ordering and scope.
pub open spec fn fence_of(op: AtomicOp, ordering: LlvmAtomicOrdering, scope: LlvmSyncScope) -> bool {
    op matches AtomicOp::Fence(fence) && fence.llvm_fence_ordering == ordering
        && fence.llvm_fence_syncscope == scope
}

/// Inserts a fence.
fn emit_fence(
    inserted: &mut Vec<AtomicOp>,
    ordering: LlvmAtomicOrdering,
    syncscope: LlvmSyncScope,
)
    ensures
        final(inserted)@.len() == old(inserted)@.len() + 1,
        final(inserted)@.drop_last() == old(inserted)@,
        fence_of(final(inserted)@.last(), ordering, syncscope),
{
    let fence = FenceOp::new(ordering, syncscope);
    inserted.push(AtomicOp::Fence(fence));
    proof {
        assert(inserted@.drop_last() =~= old(inserted)@);
    }
}

/// One operation, which gives the result.
fn single(op: AtomicOp) -> (rewrite: Rewrite)
    ensures
        rewrite.inserted@ == seq![op],
        rewrite.replacement == Some(0usize),
{
    let mut inserted: Vec<AtomicOp> = Vec::new();
    inserted.push(op);
    proof {
        assert(inserted@ =~= seq![op]);
    }
    Rewrite { inserted, replacement: Some(0) }
}

/// Lowers an atomic load. `result_ty` is the lowered type of its result, or why
/// there is none.
pub fn convert_atomic_load(op: NvvmAtomicLoadOp, result_ty: Result<Type, String>) -> (lowered:
    Result<Rewrite, String>)
    ensures
        match result_ty {
            Err(cause) => lowered matches Err(error) && error@ == cause@,
            Ok(ty) => lowered matches Ok(rewrite) && rewrite.inserted@.len() == 1
                && rewrite.replacement == Some(0usize) && (rewrite.inserted@[0] matches AtomicOp::Load(
                load,
            ) && load.ptr@ == op.ptr@ && load.result@ == ty@ && load.llvm_ld_ordering
                == llvm_ordering(op.ordering) && load.llvm_ld_syncscope == llvm_scope(op.scope)),
        },
{
    let ordering = map_ordering(&op.ordering);
    let syncscope = map_scope(&op.scope);
    match result_ty {
        Err(cause) => Err(cause),
        Ok(ty) => Ok(single(AtomicOp::Load(AtomicLoadOp::new(op.ptr, ty, ordering, syncscope)))),
    }
}

/// Lowers an atomic store, which has no result.
pub fn convert_atomic_store(op: NvvmAtomicStoreOp) -> (rewrite: Rewrite)
    ensures
        rewrite.inserted@.len() == 1,
        rewrite.replacement is None,
        rewrite.inserted@[0] matches AtomicOp::Store(store) && store.val@ == op.val@ && store.ptr@
            == op.ptr@ && store.llvm_st_ordering == llvm_ordering(op.ordering)
            && store.llvm_st_syncscope == llvm_scope(op.scope),
{
    let ordering = map_ordering(&op.ordering);
    let syncscope = map_scope(&op.scope);
    let store = AtomicStoreOp::new(op.val, op.ptr, ordering, syncscope);
    let mut rewrite = single(AtomicOp::Store(store));
    rewrite.replacement = None;
    rewrite
}

/// What a read-modify-write operation is lowered to: a relaxed operation of
/// the same kind between the fences that its ordering asks for.
pub open spec fn split(op: NvvmAtomicRmwOp, ty: Type, rewrite: Rewrite) -> bool {
    let scope = llvm_scope(op.scope);
    let before = fence_before(op.ordering);
    let after = fence_after(op.ordering);
    let at: int = if before is Some {
        1
    } else {
        0
    };
    &&& rewrite.inserted@.len() == at + 1 + (if after is Some {
        1int
    } else {
        0int
    })
    &&& rewrite.replacement == Some(at as usize)
    &&& before is Some ==> fence_of(rewrite.inserted@[0], before->Some_0, scope)
    &&& after is Some ==> fence_of(rewrite.inserted@[at + 1], after->Some_0, scope)
    &&& rewrite.inserted@[at] matches AtomicOp::Rmw(rmw) && rmw.ptr@ == op.ptr@ && rmw.val@
        == op.val@ && rmw.result@ == ty@ && rmw.llvm_rmw_kind == llvm_rmw_kind(op.rmw_kind)
        && rmw.llvm_rmw_ordering == LlvmAtomicOrdering::Monotonic && rmw.llvm_rmw_syncscope
        == scope
}

/// Lowers an atomic read-modify-write operation. `result_ty` is the lowered
/// type of its result, or why there is none.
pub fn convert_atomic_rmw(op: NvvmAtomicRmwOp, result_ty: Result<Type, String>) -> (lowered: Result<
    Rewrite,
    String,
>)
    ensures
        match result_ty {
            Err(cause) => lowered matches Err(error) && error@ == cause@,
            Ok(ty) => lowered matches Ok(rewrite) && split(op, ty, rewrite),
        },
{
    let ordering = op.ordering;
    let syncscope = map_scope(&op.scope);
    let rmw_kind = map_rmw_kind(&op.rmw_kind);
    let ty = match result_ty {
        Err(cause) => {
            return Err(cause);
        },
        Ok(ty) => ty,
    };
    let mut inserted: Vec<AtomicOp> = Vec::new();
    match ordering {
        AtomicOrdering::Release | AtomicOrdering::AcqRel => {
            emit_fence(&mut inserted, LlvmAtomicOrdering::Release, syncscope);
        },
        AtomicOrdering::SeqCst => {
            emit_fence(&mut inserted, LlvmAtomicOrdering::SeqCst, syncscope);
        },
        AtomicOrdering::Relaxed | AtomicOrdering::Acquire => {},
    }
    let at: usize = inserted.len();
    proof {
        if at == 1 {
            assert(inserted@[0] == inserted@.last());
        }
    }
    let rmw = AtomicRmwOp::new(
        op.ptr,
        op.val,
        ty,
        rmw_kind,
        LlvmAtomicOrdering::Monotonic,
        syncscope,
    );
    inserted.push(AtomicOp::Rmw(rmw));
    let ghost middle = inserted@;
    match ordering {
        AtomicOrdering::Acquire | AtomicOrdering::AcqRel => {
            emit_fence(&mut inserted, LlvmAtomicOrdering::Acquire, syncscope);
            proof {
                assert(inserted@.last() == inserted@[at + 1]);
                assert forall|k: int| 0 <= k < middle.len() implies #[trigger] middle[k]
                    == inserted@[k] by {
                    assert(inserted@.drop_last()[k] == inserted@[k]);
                }
            }
        },
        AtomicOrdering::SeqCst => {
            emit_fence(&mut inserted, LlvmAtomicOrdering::SeqCst, syncscope);
            proof {
                assert(inserted@.last() == inserted@[at + 1]);
                assert forall|k: int| 0 <= k < middle.len() implies #[trigger] middle[k]
                    == inserted@[k] by {
                    assert(inserted@.drop_last()[k] == inserted@[k]);
                }
            }
        },
        AtomicOrdering::Relaxed | AtomicOrdering::Release => {},
    }
    let rewrite = Rewrite { inserted, replacement: Some(at) };
    proof {
        assert(middle[at as int] is Rmw);
        if at == 1 {
            assert(middle[0] is Fence);
        }
        assert(split(op, ty, rewrite));
    }
    Ok(rewrite)
}

/// Lowers an atomic compare-and-exchange. `result_ty` is the lowered type of
/// its result, or why there is none.
pub fn convert_atomic_cmpxchg(op: NvvmAtomicCmpxchgOp, result_ty: Result<Type, String>) -> (lowered:
    Result<Rewrite, String>)
    ensures
        match result_ty {
            Err(cause) => lowered matches Err(error) && error@ == cause@,
            Ok(ty) => lowered matches Ok(rewrite) && rewrite.inserted@.len() == 1
                && rewrite.replacement == Some(0usize) && (rewrite.inserted@[0] matches AtomicOp::Cmpxchg(
                swap,
            ) && swap.ptr@ == op.ptr@ && swap.cmp@ == op.cmp@ && swap.new@ == op.new@ && swap.result@
                == ty@ && swap.llvm_cas_success_ordering == llvm_ordering(op.success_ordering)
                && swap.llvm_cas_failure_ordering == llvm_ordering(op.failure_ordering)
                && swap.llvm_cas_syncscope == llvm_scope(op.scope)),
        },
{
    let success_ord = map_ordering(&op.success_ordering);
    let failure_ord = map_ordering(&op.failure_ordering);
    let syncscope = map_scope(&op.scope);
    match result_ty {
        Err(cause) => Err(cause),
        Ok(ty) => Ok(
            single(
                AtomicOp::Cmpxchg(
                    AtomicCmpxchgOp::new(
                        op.ptr,
                        op.cmp,
                        op.new,
                        ty,
                        success_ord,
                        failure_ord,
                        syncscope,
                    ),
                ),
            ),
        ),
    }
}

/// What comes behind an operation of this ordering cannot be moved in front of
/// it.
pub open spec fn acquires(ordering: LlvmAtomicOrdering) -> bool {
    ordering is Acquire || ordering is AcqRel || ordering is SeqCst
}

/// What comes in front of an operation of this ordering cannot be moved behind
/// it.
pub open spec fn releases(ordering: LlvmAtomicOrdering) -> bool {
    ordering is Release || ordering is AcqRel || ordering is SeqCst
}

/// The fences around a read-modify-write operation carry its ordering: one
/// behind it acquires exactly if the ordering does, one in front of it releases
/// exactly if the ordering does, sequential consistency is fenced on both
/// sides, and a relaxed operation stands alone.
pub proof fn fences_carry_the_ordering(ordering: AtomicOrdering)
    ensures
        acquires(llvm_ordering(ordering)) <==> (fence_after(ordering) matches Some(fence)
            && acquires(fence)),
        releases(llvm_ordering(ordering)) <==> (fence_before(ordering) matches Some(fence)
            && releases(fence)),
        ordering is SeqCst <==> fence_before(ordering) == Some(LlvmAtomicOrdering::SeqCst)
            && fence_after(ordering) == Some(LlvmAtomicOrdering::SeqCst),
        ordering is Relaxed <==> fence_before(ordering) is None && fence_after(ordering) is None,
{
}

/// Everything that a read-modify-write operation is lowered to has its scope.
pub proof fn lowering_keeps_the_scope(op: NvvmAtomicRmwOp, ty: Type, rewrite: Rewrite)
    requires
        split(op, ty, rewrite),
    ensures
        forall|i: int|
            0 <= i < rewrite.inserted@.len() ==> match #[trigger] rewrite.inserted@[i] {
                AtomicOp::Fence(fence) => fence.llvm_fence_syncscope == llvm_scope(op.scope),
                AtomicOp::Rmw(rmw) => rmw.llvm_rmw_syncscope == llvm_scope(op.scope),
                _ => false,
            },
{
}

/// The mappings of scopes, orderings and kinds keep different ones apart.
pub proof fn mappings_are_one_to_one(
    scopes: (AtomicScope, AtomicScope),
    orderings: (AtomicOrdering, AtomicOrdering),
    kinds: (AtomicRmwKind, AtomicRmwKind),
)
    ensures
        llvm_scope(scopes.0) == llvm_scope(scopes.1) <==> scopes.0 == scopes.1,
        llvm_ordering(orderings.0) == llvm_ordering(orderings.1) <==> orderings.0 == orderings.1,
        llvm_rmw_kind(kinds.0) == llvm_rmw_kind(kinds.1) <==> kinds.0 == kinds.1,
{
}

} // verus!

//! Atomic operations: read-modify-write, compare-and-exchange, load, store and
//! fence. Each has an ordering and a scope.

use crate::llvm::dialect::Dialect;
use crate::llvm::types::Type;
use crate::llvm::value::Value;
use vstd::prelude::*;

verus! {

/// The ordering of an atomic operation.
#[derive(Clone, Copy, Debug, PartialEq, Eq, Structural)]
pub enum LlvmAtomicOrdering {
    Monotonic,
    Acquire,
    Release,
    AcqRel,
    SeqCst,
}

/// The threads that an atomic operation is atomic to.
#[derive(Clone, Copy, Debug, PartialEq, Eq, Structural)]
pub enum LlvmSyncScope {
    System,
    Device,
    Block,
}

/// What a read-modify-write operation does to the value.
#[derive(Clone, Copy, Debug, PartialEq, Eq, Structural)]
pub enum LlvmAtomicRmwKind {
    Add,
    Sub,
    Xchg,
    And,
    Or,
    Xor,
    Max,
    Min,
    UMax,
    UMin,
    FAdd,
}

/// How a scope is written in front of the ordering.
pub open spec fn syncscope_text(scope: LlvmSyncScope) -> Seq<char> {
    match scope {
        LlvmSyncScope::Device => " syncscope(\"device\")"@,
        LlvmSyncScope::Block => " syncscope(\"block\")"@,
        LlvmSyncScope::System => ""@,
    }
}

/// How a scope is written in front of the ordering. The system scope is the
/// default and is not written.
pub fn format_syncscope(scope: &LlvmSyncScope) -> (text: &'static str)
    ensures
        text@ == syncscope_text(*scope),
{
    match scope {
        LlvmSyncScope::Device => " syncscope(\"device\")",
        LlvmSyncScope::Block => " syncscope(\"block\")",
        LlvmSyncScope::System => "",
    }
}

/// How an ordering is written.
pub open spec fn ordering_text(value: LlvmAtomicOrdering) -> Seq<char> {
    match value {
        LlvmAtomicOrdering::Monotonic => "monotonic"@,
        LlvmAtomicOrdering::Acquire => "acquire"@,
        LlvmAtomicOrdering::Release => "release"@,
        LlvmAtomicOrdering::AcqRel => "acq_rel"@,
        LlvmAtomicOrdering::SeqCst => "seq_cst"@,
    }
}

/// How an ordering is written.
pub fn format_ordering(value: &LlvmAtomicOrdering) -> (text: &'static str)
    ensures
        text@ == ordering_text(*value),
{
    match value {
        LlvmAtomicOrdering::Monotonic => "monotonic",
        LlvmAtomicOrdering::Acquire => "acquire",
        LlvmAtomicOrdering::Release => "release",
        LlvmAtomicOrdering::AcqRel => "acq_rel",
        LlvmAtomicOrdering::SeqCst => "seq_cst",
    }
}

/// How the kind of a read-modify-write operation is written.
pub open spec fn rmw_kind_text(value: LlvmAtomicRmwKind) -> Seq<char> {
    match value {
        LlvmAtomicRmwKind::Add => "add"@,
        LlvmAtomicRmwKind::Sub => "sub"@,
        LlvmAtomicRmwKind::Xchg => "xchg"@,
        LlvmAtomicRmwKind::And => "and"@,
        LlvmAtomicRmwKind::Or => "or"@,
        LlvmAtomicRmwKind::Xor => "xor"@,
        LlvmAtomicRmwKind::Max => "max"@,
        LlvmAtomicRmwKind::Min => "min"@,
        LlvmAtomicRmwKind::UMax => "umax"@,
        LlvmAtomicRmwKind::UMin => "umin"@,
        LlvmAtomicRmwKind::FAdd => "fadd"@,
    }
}

/// How the kind of a read-modify-write operation is written.
pub fn format_rmw_kind(value: &LlvmAtomicRmwKind) -> (text: &'static str)
    ensures
        text@ == rmw_kind_text(*value),
{
    match value {
        LlvmAtomicRmwKind::Add => "add",
        LlvmAtomicRmwKind::Sub => "sub",
        LlvmAtomicRmwKind::Xchg => "xchg",
        LlvmAtomicRmwKind::And => "and",
        LlvmAtomicRmwKind::Or => "or",
        LlvmAtomicRmwKind::Xor => "xor",
        LlvmAtomicRmwKind::Max => "max",
        LlvmAtomicRmwKind::Min => "min",
        LlvmAtomicRmwKind::UMax => "umax",
        LlvmAtomicRmwKind::UMin => "umin",
        LlvmAtomicRmwKind::FAdd => "fadd",
    }
}

/// What is wrong with an atomic operation.
#[derive(Clone, Copy, Debug, PartialEq, Eq, Structural)]
pub enum AtomicVerifyErr {
    RmwPointer,
    CmpxchgPointer,
    LoadPointer,
    StorePointer,
}

impl AtomicVerifyErr {
    /// The text of the error.
    pub open spec fn text(self) -> Seq<char> {
        match self {
            AtomicVerifyErr::RmwPointer => "llvm.atomicrmw first operand must be a pointer"@,
            AtomicVerifyErr::CmpxchgPointer => "llvm.cmpxchg first operand must be a pointer"@,
            AtomicVerifyErr::LoadPointer => "llvm.atomic_load operand must be a pointer"@,
            AtomicVerifyErr::StorePointer => "llvm.atomic_store second operand must be a pointer"@,
        }
    }

    /// The text of the error.
    pub fn message(&self) -> (message: &'static str)
        ensures
            message@ == self.text(),
    {
        match self {
            AtomicVerifyErr::RmwPointer => "llvm.atomicrmw first operand must be a pointer",
            AtomicVerifyErr::CmpxchgPointer => "llvm.cmpxchg first operand must be a pointer",
            AtomicVerifyErr::LoadPointer => "llvm.atomic_load operand must be a pointer",
            AtomicVerifyErr::StorePointer => "llvm.atomic_store second operand must be a pointer",
        }
    }
}

/// Tests that the operand is a pointer.
fn check_pointer(operand: &Value, error: AtomicVerifyErr) -> (verdict: Result<(), AtomicVerifyErr>)
    ensures
        verdict == if operand.ty@ is Pointer {
            Ok::<(), AtomicVerifyErr>(())
        } else {
            Err(error)
        },
{
    match &operand.ty {
        Type::Pointer { .. } => Ok(()),
        _ => Err(error),
    }
}

/// What the atomic operations have in common.
pub trait LlvmAtomicOpInterface {
    /// The ordering of the operation.
    spec fn atomic_order(&self) -> LlvmAtomicOrdering;

    /// The scope of the operation.
    spec fn atomic_scope(&self) -> LlvmSyncScope;

    /// The ordering of the operation.
    fn ordering(&self) -> (ordering: LlvmAtomicOrdering)
        ensures
            ordering == self.atomic_order(),
    ;

    /// The scope of the operation.
    fn syncscope(&self) -> (scope: LlvmSyncScope)
        ensures
            scope == self.atomic_scope(),
    ;
}

/// Reads the value at `ptr`, combines it with `val` and writes it back. The result
/// is the value that was read.
#[derive(Debug)]
pub struct AtomicRmwOp {
    pub ptr: Value,
    pub val: Value,
    pub llvm_rmw_kind: LlvmAtomicRmwKind,
    pub llvm_rmw_ordering: LlvmAtomicOrdering,
    pub llvm_rmw_syncscope: LlvmSyncScope,
    pub result: Type,
}

impl AtomicRmwOp {
    /// The operation on these operands.
    pub fn new(
        ptr: Value,
        val: Value,
        result_ty: Type,
        rmw_kind: LlvmAtomicRmwKind,
        ordering: LlvmAtomicOrdering,
        syncscope: LlvmSyncScope,
    ) -> (op: AtomicRmwOp)
        ensures
            op.ptr@ == ptr@,
            op.val@ == val@,
            op.llvm_rmw_kind == rmw_kind,
            op.llvm_rmw_ordering == ordering,
            op.llvm_rmw_syncscope == syncscope,
            op.result@ == result_ty@,
    {
        AtomicRmwOp {
            ptr,
            val,
            llvm_rmw_kind: rmw_kind,
            llvm_rmw_ordering: ordering,
            llvm_rmw_syncscope: syncscope,
            result: result_ty,
        }
    }

    /// What the operation does to the value.
    pub fn rmw_kind(&self) -> (value: LlvmAtomicRmwKind)
        ensures
            value == self.llvm_rmw_kind,
    {
        self.llvm_rmw_kind
    }

    /// Checks that the first operand is a pointer.
    pub fn verify(&self) -> (verdict: Result<(), AtomicVerifyErr>)
        ensures
            verdict == if self.ptr.ty@ is Pointer {
                Ok::<(), AtomicVerifyErr>(())
            } else {
                Err(AtomicVerifyErr::RmwPointer)
            },
    {
        check_pointer(&self.ptr, AtomicVerifyErr::RmwPointer)
    }
}

impl LlvmAtomicOpInterface for AtomicRmwOp {
    open spec fn atomic_order(&self) -> LlvmAtomicOrdering {
        self.llvm_rmw_ordering
    }

    open spec fn atomic_scope(&self) -> LlvmSyncScope {
        self.llvm_rmw_syncscope
    }

    fn ordering(&self) -> LlvmAtomicOrdering {
        self.llvm_rmw_ordering
    }

    fn syncscope(&self) -> LlvmSyncScope {
        self.llvm_rmw_syncscope
    }
}

/// Writes `new` to `ptr` where it holds `cmp`. The result is the value that was
/// read; the ordering of the operation is that of its success.
#[derive(Debug)]
pub struct AtomicCmpxchgOp {
    pub ptr: Value,
    pub cmp: Value,
    pub new: Value,
    pub llvm_cas_success_ordering: LlvmAtomicOrdering,
    pub llvm_cas_failure_ordering: LlvmAtomicOrdering,
    pub llvm_cas_syncscope: LlvmSyncScope,
    pub result: Type,
}

impl AtomicCmpxchgOp {
    /// The operation on these operands.
    pub fn new(
        ptr: Value,
        cmp: Value,
        new: Value,
        result_ty: Type,
        success_ordering: LlvmAtomicOrdering,
        failure_ordering: LlvmAtomicOrdering,
        syncscope: LlvmSyncScope,
    ) -> (op: AtomicCmpxchgOp)
        ensures
            op.ptr@ == ptr@,
            op.cmp@ == cmp@,
            op.new@ == new@,
            op.llvm_cas_success_ordering == success_ordering,
            op.llvm_cas_failure_ordering == failure_ordering,
            op.llvm_cas_syncscope == syncscope,
            op.result@ == result_ty@,
    {
        AtomicCmpxchgOp {
            ptr,
            cmp,
            new,
            llvm_cas_success_ordering: success_ordering,
            llvm_cas_failure_ordering: failure_ordering,
            llvm_cas_syncscope: syncscope,
            result: result_ty,
        }
    }

    /// The ordering of a success.
    pub fn success_ordering(&self) -> (value: LlvmAtomicOrdering)
        ensures
            value == self.llvm_cas_success_ordering,
    {
        self.llvm_cas_success_ordering
    }

    /// The ordering of a failure.
    pub fn failure_ordering(&self) -> (value: LlvmAtomicOrdering)
        ensures
            value == self.llvm_cas_failure_ordering,
    {
        self.llvm_cas_failure_ordering
    }

    /// Checks that the first operand is a pointer.
    pub fn verify(&self) -> (verdict: Result<(), AtomicVerifyErr>)
        ensures
            verdict == if self.ptr.ty@ is Pointer {
                Ok::<(), AtomicVerifyErr>(())
            } else {
                Err(AtomicVerifyErr::CmpxchgPointer)
            },
    {
        check_pointer(&self.ptr, AtomicVerifyErr::CmpxchgPointer)
    }
}

impl LlvmAtomicOpInterface for AtomicCmpxchgOp {
    open spec fn atomic_order(&self) -> LlvmAtomicOrdering {
        self.llvm_cas_success_ordering
    }

    open spec fn atomic_scope(&self) -> LlvmSyncScope {
        self.llvm_cas_syncscope
    }

    fn ordering(&self) -> LlvmAtomicOrdering {
        self.llvm_cas_success_ordering
    }

    fn syncscope(&self) -> LlvmSyncScope {
        self.llvm_cas_syncscope
    }
}

/// Reads the value at `ptr`.
#[derive(Debug)]
pub struct AtomicLoadOp {
    pub ptr: Value,
    pub llvm_ld_ordering: LlvmAtomicOrdering,
    pub llvm_ld_syncscope: LlvmSyncScope,
    pub result: Type,
}

impl AtomicLoadOp {
    /// The operation on these operands.
    pub fn new(
        ptr: Value,
        result_ty: Type,
        ordering: LlvmAtomicOrdering,
        syncscope: LlvmSyncScope,
    ) -> (op: AtomicLoadOp)
        ensures
            op.ptr@ == ptr@,
            op.llvm_ld_ordering == ordering,
            op.llvm_ld_syncscope == syncscope,
            op.result@ == result_ty@,
    {
        AtomicLoadOp {
            ptr,
            llvm_ld_ordering: ordering,
            llvm_ld_syncscope: syncscope,
            result: result_ty,
        }
    }

    /// Checks that the operand is a pointer.
    pub fn verify(&self) -> (verdict: Result<(), AtomicVerifyErr>)
        ensures
            verdict == if self.ptr.ty@ is Pointer {
                Ok::<(), AtomicVerifyErr>(())
            } else {
                Err(AtomicVerifyErr::LoadPointer)
            },
    {
        check_pointer(&self.ptr, AtomicVerifyErr::LoadPointer)
    }
}

impl LlvmAtomicOpInterface for AtomicLoadOp {
    open spec fn atomic_order(&self) -> LlvmAtomicOrdering {
        self.llvm_ld_ordering
    }

    open spec fn atomic_scope(&self) -> LlvmSyncScope {
        self.llvm_ld_syncscope
    }

    fn ordering(&self) -> LlvmAtomicOrdering {
        self.llvm_ld_ordering
    }

    fn syncscope(&self) -> LlvmSyncScope {
        self.llvm_ld_syncscope
    }
}

/// Writes `val` to `ptr`.
#[derive(Debug)]
pub struct AtomicStoreOp {
    pub val: Value,
    pub ptr: Value,
    pub llvm_st_ordering: LlvmAtomicOrdering,
    pub llvm_st_syncscope: LlvmSyncScope,
}

impl AtomicStoreOp {
    /// The operation on these operands.
    pub fn new(
        val: Value,
        ptr: Value,
        ordering: LlvmAtomicOrdering,
        syncscope: LlvmSyncScope,
    ) -> (op: AtomicStoreOp)
        ensures
            op.val@ == val@,
            op.ptr@ == ptr@,
            op.llvm_st_ordering == ordering,
            op.llvm_st_syncscope == syncscope,
    {
        AtomicStoreOp {
            val,
            ptr,
            llvm_st_ordering: ordering,
            llvm_st_syncscope: syncscope,
        }
    }

    /// The value that is written.
    pub fn value_opd(&self) -> (value: &Value)
        ensures
            *value == self.val,
    {
        &self.val
    }

    /// The place that is written to.
    pub fn address_opd(&self) -> (value: &Value)
        ensures
            *value == self.ptr,
    {
        &self.ptr
    }

    /// Checks that the second operand is a pointer.
    pub fn verify(&self) -> (verdict: Result<(), AtomicVerifyErr>)
        ensures
            verdict == if self.ptr.ty@ is Pointer {
                Ok::<(), AtomicVerifyErr>(())
            } else {
                Err(AtomicVerifyErr::StorePointer)
            },
    {
        check_pointer(&self.ptr, AtomicVerifyErr::StorePointer)
    }
}

impl LlvmAtomicOpInterface for AtomicStoreOp {
    open spec fn atomic_order(&self) -> LlvmAtomicOrdering {
        self.llvm_st_ordering
    }

    open spec fn atomic_scope(&self) -> LlvmSyncScope {
        self.llvm_st_syncscope
    }

    fn ordering(&self) -> LlvmAtomicOrdering {
        self.llvm_st_ordering
    }

    fn syncscope(&self) -> LlvmSyncScope {
        self.llvm_st_syncscope
    }
}

/// Orders the operations around it.
#[derive(Debug)]
pub struct FenceOp {
    pub llvm_fence_ordering: LlvmAtomicOrdering,
    pub llvm_fence_syncscope: LlvmSyncScope,
}

impl FenceOp {
    /// The operation on these operands.
    pub fn new(
        ordering: LlvmAtomicOrdering,
        syncscope: LlvmSyncScope,
    ) -> (op: FenceOp)
        ensures
            op.llvm_fence_ordering == ordering,
            op.llvm_fence_syncscope == syncscope,
    {
        FenceOp {
            llvm_fence_ordering: ordering,
            llvm_fence_syncscope: syncscope,
        }
    }
}

impl LlvmAtomicOpInterface for FenceOp {
    open spec fn atomic_order(&self) -> LlvmAtomicOrdering {
        self.llvm_fence_ordering
    }

    open spec fn atomic_scope(&self) -> LlvmSyncScope {
        self.llvm_fence_syncscope
    }

    fn ordering(&self) -> LlvmAtomicOrdering {
        self.llvm_fence_ordering
    }

    fn syncscope(&self) -> LlvmSyncScope {
        self.llvm_fence_syncscope
    }
}

/// Different orderings and different scopes are written differently.
pub proof fn orderings_and_scopes_are_told_apart(
    first: LlvmAtomicOrdering,
    second: LlvmAtomicOrdering,
    near: LlvmSyncScope,
    far: LlvmSyncScope,
)
    ensures
        ordering_text(first) == ordering_text(second) <==> first == second,
        syncscope_text(near) == syncscope_text(far) <==> near == far,
{
    reveal_strlit("monotonic");
    reveal_strlit("acquire");
    reveal_strlit("release");
    reveal_strlit("acq_rel");
    reveal_strlit("seq_cst");
    reveal_strlit(" syncscope(\"device\")");
    reveal_strlit(" syncscope(\"block\")");
    reveal_strlit("");
    assert("monotonic"@.len() == 9);
    assert("acquire"@[0] == 'a' && "acquire"@[3] == 'u');
    assert("release"@[0] == 'r');
    assert("acq_rel"@[0] == 'a' && "acq_rel"@[3] == '_');
    assert("seq_cst"@[0] == 's');
    assert(" syncscope(\"device\")"@.len() == 20);
    assert(" syncscope(\"block\")"@.len() == 19);
    assert(""@.len() == 0);
}

/// The names of the atomic operations.
pub open spec fn op_names() -> Set<Seq<char>> {
    set![
        "llvm.atomicrmw"@,
        "llvm.cmpxchg"@,
        "llvm.atomic_load"@,
        "llvm.atomic_store"@,
        "llvm.fence"@,
    ]
}

/// Registers the atomic operations.
pub fn register(dialect: &mut Dialect)
    ensures
        final(dialect)@ == old(dialect)@.union(op_names()),
{
    dialect.add_op("llvm.atomicrmw");
    dialect.add_op("llvm.cmpxchg");
    dialect.add_op("llvm.atomic_load");
    dialect.add_op("llvm.atomic_store");
    dialect.add_op("llvm.fence");
    proof {
        assert(dialect@ =~= old(dialect)@.union(op_names()));
    }
}

/// An exchange counts with the ordering of its success; every other operation
/// with the one ordering that it was built with, and each with its scope.
pub proof fn operations_count_with_their_ordering(
    op: AtomicCmpxchgOp,
    success: LlvmAtomicOrdering,
    failure: LlvmAtomicOrdering,
    ordering: LlvmAtomicOrdering,
    scope: LlvmSyncScope,
    fence: FenceOp,
    ptr: Value,
    val: Value,
    ty: Type,
    kind: LlvmAtomicRmwKind,
    rmw: AtomicRmwOp,
    load: AtomicLoadOp,
    store: AtomicStoreOp,
)
    requires
        call_ensures(AtomicCmpxchgOp::success_ordering, (&op,), success),
        call_ensures(AtomicCmpxchgOp::failure_ordering, (&op,), failure),
        call_ensures(FenceOp::new, (ordering, scope), fence),
        call_ensures(AtomicRmwOp::new, (ptr, val, ty, kind, ordering, scope), rmw),
        call_ensures(AtomicLoadOp::new, (ptr, ty, ordering, scope), load),
        call_ensures(AtomicStoreOp::new, (val, ptr, ordering, scope), store),
    ensures
        op.atomic_order() == success,
        success == op.llvm_cas_success_ordering,
        failure == op.llvm_cas_failure_ordering,
        op.atomic_scope() == op.llvm_cas_syncscope,
        fence.atomic_order() == ordering && fence.atomic_scope() == scope,
        rmw.atomic_order() == ordering && rmw.atomic_scope() == scope,
        load.atomic_order() == ordering && load.atomic_scope() == scope,
        store.atomic_order() == ordering && store.atomic_scope() == scope,
        rmw.ptr@ == ptr@ && rmw.val@ == val@ && rmw.llvm_rmw_kind == kind,
        load.ptr@ == ptr@ && load.result@ == ty@,
        store.ptr@ == ptr@ && store.val@ == val@,
{
}

} // verus!

//! What the atomic operations mean, on both sides of the lowering, and that the
//! lowering keeps it.
//!
//! A value in memory is a number below the modulus of its width, such as 2^32
//! for 32 bits. On the source side an operation is described by a relation
//! between the old value, the operand and the new value; on the LLVM side by
//! what the instruction computes, and by the text that it is printed with.

use crate::llvm::ops::atomic::{
    format_ordering, format_rmw_kind, format_syncscope, LlvmAtomicOrdering, LlvmAtomicRmwKind,
    LlvmSyncScope,
};
use crate::llvm::types::Type;
use crate::lowering::atomic::{
    convert_atomic_cmpxchg, convert_atomic_load, convert_atomic_rmw, convert_atomic_store,
    map_ordering, map_rmw_kind, map_scope, AtomicOp, AtomicOrdering, AtomicRmwKind, AtomicScope,
    NvvmAtomicCmpxchgOp, NvvmAtomicLoadOp, NvvmAtomicRmwOp, NvvmAtomicStoreOp, Rewrite,
};
use vstd::arithmetic::div_mod::lemma_fundamental_div_mod_converse;
use vstd::prelude::*;

verus! {

/// A number below the modulus, read in two's complement.
pub open spec fn as_signed(n: int, modulus: int) -> int {
    if 2 * n < modulus {
        n
    } else {
        n - modulus
    }
}

/// A source operation of this kind stores `new` where `old` was, given the
/// operand `val`. `float_sum` is the sum of two floating-point numbers, each
/// given by its bits.
pub open spec fn source_stores(
    kind: AtomicRmwKind,
    modulus: int,
    float_sum: spec_fn(u64, u64) -> u64,
    old: u64,
    val: u64,
    new: int,
) -> bool {
    match kind {
        AtomicRmwKind::Add => 0 <= new < modulus && (new == old + val || new + modulus == old
            + val),
        AtomicRmwKind::Sub => 0 <= new < modulus && (new + val == old || new + val == old
            + modulus),
        AtomicRmwKind::And => new == old & val,
        AtomicRmwKind::Or => new == old | val,
        AtomicRmwKind::Xor => new == old ^ val,
        AtomicRmwKind::Xchg => new == val,
        AtomicRmwKind::Min => (new == old || new == val) && as_signed(new, modulus) <= as_signed(
            old as int,
            modulus,
        ) && as_signed(new, modulus) <= as_signed(val as int, modulus),
        AtomicRmwKind::Max => (new == old || new == val) && as_signed(new, modulus) >= as_signed(
            old as int,
            modulus,
        ) && as_signed(new, modulus) >= as_signed(val as int, modulus),
        AtomicRmwKind::UMin => (new == old || new == val) && new <= old && new <= val,
        AtomicRmwKind::UMax => (new == old || new == val) && new >= old && new >= val,
        AtomicRmwKind::FAdd => new == float_sum(old, val),
    }
}

/// What an LLVM instruction of this kind computes from the old value and the
/// operand.
pub open spec fn llvm_computes(
    kind: LlvmAtomicRmwKind,
    modulus: int,
    float_sum: spec_fn(u64, u64) -> u64,
    old: u64,
    val: u64,
) -> int {
    match kind {
        LlvmAtomicRmwKind::Add => (old + val) % modulus,
        LlvmAtomicRmwKind::Sub => (old - val) % modulus,
        LlvmAtomicRmwKind::Xchg => val as int,
        LlvmAtomicRmwKind::And => (old & val) as int,
        LlvmAtomicRmwKind::Or => (old | val) as int,
        LlvmAtomicRmwKind::Xor => (old ^ val) as int,
        LlvmAtomicRmwKind::Max => if as_signed(old as int, modulus) > as_signed(
            val as int,
            modulus,
        ) {
            old as int
        } else {
            val as int
        },
        LlvmAtomicRmwKind::Min => if as_signed(old as int, modulus) <= as_signed(
            val as int,
            modulus,
        ) {
            old as int
        } else {
            val as int
        },
        LlvmAtomicRmwKind::UMax => if old > val {
            old as int
        } else {
            val as int
        },
        LlvmAtomicRmwKind::UMin => if old <= val {
            old as int
        } else {
            val as int
        },
        LlvmAtomicRmwKind::FAdd => float_sum(old, val) as int,
    }
}

/// The modulus of a sum or a difference that does not fit is taken off or
/// added once.
proof fn lemma_wraps_once(old: int, val: int, modulus: int)
    requires
        0 <= old < modulus,
        0 <= val < modulus,
    ensures
        (old + val) % modulus == (if old + val < modulus {
            old + val
        } else {
            old + val - modulus
        }),
        (old - val) % modulus == (if old >= val {
            old - val
        } else {
            old - val + modulus
        }),
{
    if old + val < modulus {
        lemma_fundamental_div_mod_converse(old + val, modulus, 0, old + val);
    } else {
        lemma_fundamental_div_mod_converse(old + val, modulus, 1, old + val - modulus);
    }
    if old >= val {
        lemma_fundamental_div_mod_converse(old - val, modulus, 0, old - val);
    } else {
        lemma_fundamental_div_mod_converse(old - val, modulus, -1, old - val + modulus);
    }
}

/// The kind that a read-modify-write operation is lowered to computes what the
/// source kind stores, for every width, old value and operand, and the source
/// kind stores nothing else.
#[verifier::rlimit(50)]
pub proof fn lowered_kinds_compute_what_the_source_stores(
    kind: AtomicRmwKind,
    mapped: LlvmAtomicRmwKind,
    modulus: int,
    float_sum: spec_fn(u64, u64) -> u64,
    old: u64,
    val: u64,
    new: int,
)
    requires
        call_ensures(map_rmw_kind, (&kind,), mapped),
        old < modulus,
        val < modulus,
    ensures
        new == llvm_computes(mapped, modulus, float_sum, old, val) <==> source_stores(
            kind,
            modulus,
            float_sum,
            old,
            val,
            new,
        ),
{
    lemma_wraps_once(old as int, val as int, modulus);
}

/// The value that the printed name of an LLVM read-modify-write operation
/// stands for, as LLVM defines the names.
pub open spec fn named_operation(
    name: Seq<char>,
    modulus: int,
    float_sum: spec_fn(u64, u64) -> u64,
    old: u64,
    val: u64,
    new: int,
) -> bool {
    &&& name == "add"@ ==> new == (old + val) % modulus
    &&& name == "sub"@ ==> new == (old - val) % modulus
    &&& name == "xchg"@ ==> new == val
    &&& name == "and"@ ==> new == old & val
    &&& name == "or"@ ==> new == old | val
    &&& name == "xor"@ ==> new == old ^ val
    &&& name == "fadd"@ ==> new == float_sum(old, val)
    &&& name == "umax"@ ==> new == (if old > val {
        old
    } else {
        val
    })
    &&& name == "umin"@ ==> new == (if old > val {
        val
    } else {
        old
    })
    &&& name == "max"@ ==> new == (if as_signed(old as int, modulus) > as_signed(
        val as int,
        modulus,
    ) {
        old
    } else {
        val
    })
    &&& name == "min"@ ==> new == (if as_signed(old as int, modulus) > as_signed(
        val as int,
        modulus,
    ) {
        val
    } else {
        old
    })
    &&& {
        ||| name == "add"@
        ||| name == "sub"@
        ||| name == "xchg"@
        ||| name == "and"@
        ||| name == "or"@
        ||| name == "xor"@
        ||| name == "fadd"@
        ||| name == "umax"@
        ||| name == "umin"@
        ||| name == "max"@
        ||| name == "min"@
    }
}

/// The names of the read-modify-write operations are different texts.
proof fn lemma_names_differ()
    ensures
        "add"@[0] == 'a' && "add"@[1] == 'd' && "add"@.len() == 3,
        "sub"@[0] == 's' && "sub"@.len() == 3,
        "xchg"@[0] == 'x' && "xchg"@.len() == 4,
        "and"@[0] == 'a' && "and"@[1] == 'n' && "and"@.len() == 3,
        "or"@[0] == 'o' && "or"@.len() == 2,
        "xor"@[0] == 'x' && "xor"@.len() == 3,
        "fadd"@[0] == 'f' && "fadd"@.len() == 4,
        "umax"@[0] == 'u' && "umax"@[2] == 'a' && "umax"@.len() == 4,
        "umin"@[0] == 'u' && "umin"@[2] == 'i' && "umin"@.len() == 4,
        "max"@[0] == 'm' && "max"@[1] == 'a' && "max"@.len() == 3,
        "min"@[0] == 'm' && "min"@[1] == 'i' && "min"@.len() == 3,
{
    reveal_strlit("add");
    reveal_strlit("sub");
    reveal_strlit("xchg");
    reveal_strlit("and");
    reveal_strlit("or");
    reveal_strlit("xor");
    reveal_strlit("fadd");
    reveal_strlit("umax");
    reveal_strlit("umin");
    reveal_strlit("max");
    reveal_strlit("min");
}

/// From the source to the printed instruction: the name that is printed for a
/// lowered kind stands for what the source kind stores.
#[verifier::rlimit(50)]
pub proof fn printed_kinds_stand_for_what_the_source_stores(
    kind: AtomicRmwKind,
    mapped: LlvmAtomicRmwKind,
    name: &'static str,
    modulus: int,
    float_sum: spec_fn(u64, u64) -> u64,
    old: u64,
    val: u64,
    new: int,
)
    requires
        call_ensures(map_rmw_kind, (&kind,), mapped),
        call_ensures(format_rmw_kind, (&mapped,), name),
        old < modulus,
        val < modulus,
    ensures
        named_operation(name@, modulus, float_sum, old, val, new) <==> source_stores(
            kind,
            modulus,
            float_sum,
            old,
            val,
            new,
        ),
{
    lemma_wraps_once(old as int, val as int, modulus);
    lemma_names_differ();
}

/// What stands behind a source operation in the program cannot be seen to
/// happen before it.
pub open spec fn source_acquires(ordering: AtomicOrdering) -> bool {
    match ordering {
        AtomicOrdering::Relaxed | AtomicOrdering::Release => false,
        AtomicOrdering::Acquire | AtomicOrdering::AcqRel | AtomicOrdering::SeqCst => true,
    }
}

/// What stands in front of a source operation in the program cannot be seen to
/// happen after it.
pub open spec fn source_releases(ordering: AtomicOrdering) -> bool {
    match ordering {
        AtomicOrdering::Relaxed | AtomicOrdering::Acquire => false,
        AtomicOrdering::Release | AtomicOrdering::AcqRel | AtomicOrdering::SeqCst => true,
    }
}

/// All threads see the source operations of this ordering in one order.
pub open spec fn source_is_sequential(ordering: AtomicOrdering) -> bool {
    ordering == AtomicOrdering::SeqCst
}

/// The LLVM ordering gives these guarantees and no others.
pub open spec fn llvm_guarantees(
    ordering: LlvmAtomicOrdering,
    acquire: bool,
    release: bool,
    sequential: bool,
) -> bool {
    match ordering {
        LlvmAtomicOrdering::Monotonic => !acquire && !release && !sequential,
        LlvmAtomicOrdering::Acquire => acquire && !release && !sequential,
        LlvmAtomicOrdering::Release => !acquire && release && !sequential,
        LlvmAtomicOrdering::AcqRel => acquire && release && !sequential,
        LlvmAtomicOrdering::SeqCst => acquire && release && sequential,
    }
}

/// The printed LLVM ordering gives these guarantees and no others.
pub open spec fn printed_guarantees(
    text: Seq<char>,
    acquire: bool,
    release: bool,
    sequential: bool,
) -> bool {
    text == (if sequential {
        "seq_cst"@
    } else if acquire && release {
        "acq_rel"@
    } else if acquire {
        "acquire"@
    } else if release {
        "release"@
    } else {
        "monotonic"@
    })
}

/// An ordering is lowered, and printed, to the one with the same guarantees.
pub proof fn lowered_orderings_guarantee_the_same(
    ordering: AtomicOrdering,
    mapped: LlvmAtomicOrdering,
    text: &'static str,
)
    requires
        call_ensures(map_ordering, (&ordering,), mapped),
        call_ensures(format_ordering, (&mapped,), text),
    ensures
        llvm_guarantees(
            mapped,
            source_acquires(ordering),
            source_releases(ordering),
            source_is_sequential(ordering),
        ),
        printed_guarantees(
            text@,
            source_acquires(ordering),
            source_releases(ordering),
            source_is_sequential(ordering),
        ),
{
}

/// Where a thread runs: the device and the block on it.
pub struct Place {
    pub device: int,
    pub block: int,
}

/// A source operation of this scope, by a thread at `here`, is atomic to a
/// thread at `there`.
pub open spec fn source_reaches(scope: AtomicScope, here: Place, there: Place) -> bool {
    &&& scope == AtomicScope::Device ==> here.device == there.device
    &&& scope == AtomicScope::Block ==> here == there
}

/// An LLVM instruction of this scope, by a thread at `here`, is atomic to a
/// thread at `there`.
pub open spec fn llvm_reaches(scope: LlvmSyncScope, here: Place, there: Place) -> bool {
    match scope {
        LlvmSyncScope::System => true,
        LlvmSyncScope::Device => here.device == there.device,
        LlvmSyncScope::Block => here.device == there.device && here.block == there.block,
    }
}

/// A printed instruction with this scope, by a thread at `here`, is atomic to
/// a thread at `there`. Without a scope it is atomic to all.
pub open spec fn printed_reaches(text: Seq<char>, here: Place, there: Place) -> bool {
    ||| text == ""@
    ||| text == " syncscope(\"device\")"@ && here.device == there.device
    ||| text == " syncscope(\"block\")"@ && here.device == there.device && here.block
        == there.block
}

/// A scope is lowered, and printed, to the one that reaches the same threads.
pub proof fn lowered_scopes_reach_the_same_threads(
    scope: AtomicScope,
    mapped: LlvmSyncScope,
    text: &'static str,
    here: Place,
    there: Place,
)
    requires
        call_ensures(map_scope, (&scope,), mapped),
        call_ensures(format_syncscope, (&mapped,), text),
    ensures
        llvm_reaches(mapped, here, there) <==> source_reaches(scope, here, there),
        printed_reaches(text@, here, there) <==> source_reaches(scope, here, there),
{
    reveal_strlit("");
    reveal_strlit(" syncscope(\"device\")");
    reveal_strlit(" syncscope(\"block\")");
    assert(" syncscope(\"device\")"@.len() == 20);
    assert(" syncscope(\"block\")"@.len() == 19);
    assert(""@.len() == 0);
}

/// `op` is a fence that gives these guarantees, to the threads that the source
/// scope reaches.
pub open spec fn is_fence(
    op: AtomicOp,
    acquire: bool,
    release: bool,
    sequential: bool,
    scope: AtomicScope,
) -> bool {
    op matches AtomicOp::Fence(fence) && llvm_guarantees(
        fence.llvm_fence_ordering,
        acquire,
        release,
        sequential,
    ) && forall|here: Place, there: Place|
        #![trigger llvm_reaches(fence.llvm_fence_syncscope, here, there)]
        llvm_reaches(fence.llvm_fence_syncscope, here, there) <==> source_reaches(
            scope,
            here,
            there,
        )
}

/// What is in front of and behind the read-modify-write instruction of a
/// rewrite.
pub open spec fn before_and_behind(rewrite: Rewrite) -> (Seq<AtomicOp>, Seq<AtomicOp>) {
    let at = rewrite.replacement->Some_0 as int;
    (rewrite.inserted@.take(at), rewrite.inserted@.skip(at + 1))
}

/// A lowered read-modify-write operation: the instruction that gives the
/// result has the operands of the source operation, stores what the source
/// stores and reaches the same threads, but orders nothing; a releasing source
/// operation has one fence in front of it that releases, an acquiring one has
/// one fence behind it that acquires, a sequential one has fences of that
/// guarantee on both sides; and there is nothing else.
#[verifier::rlimit(50)]
pub proof fn lowered_read_modify_writes_do_what_the_source_does(
    op: NvvmAtomicRmwOp,
    ty: Type,
    lowered: Result<Rewrite, String>,
)
    requires
        call_ensures(convert_atomic_rmw, (op, Ok::<Type, String>(ty)), lowered),
    ensures
        lowered matches Ok(rewrite) && {
            let (before, behind) = before_and_behind(rewrite);
            let sequential = source_is_sequential(op.ordering);
            &&& rewrite.replacement is Some
            &&& rewrite.replacement->Some_0 < rewrite.inserted@.len()
            &&& before.len() == (if source_releases(op.ordering) {
                1int
            } else {
                0
            })
            &&& before.len() > 0 ==> is_fence(before[0], sequential, true, sequential, op.scope)
            &&& behind.len() == (if source_acquires(op.ordering) {
                1int
            } else {
                0
            })
            &&& behind.len() > 0 ==> is_fence(behind[0], true, sequential, sequential, op.scope)
            &&& rewrite.inserted@[rewrite.replacement->Some_0 as int] matches AtomicOp::Rmw(rmw) && {
                &&& rmw.ptr@ == op.ptr@
                &&& rmw.val@ == op.val@
                &&& rmw.result@ == ty@
                &&& llvm_guarantees(rmw.llvm_rmw_ordering, false, false, false)
                &&& forall|here: Place, there: Place| #[trigger]
                    llvm_reaches(rmw.llvm_rmw_syncscope, here, there) <==> source_reaches(
                        op.scope,
                        here,
                        there,
                    )
                &&& forall|
                    modulus: int,
                    float_sum: spec_fn(u64, u64) -> u64,
                    old: u64,
                    val: u64,
                |
                    old < modulus && val < modulus ==> source_stores(
                        op.rmw_kind,
                        modulus,
                        float_sum,
                        old,
                        val,
                        #[trigger] llvm_computes(rmw.llvm_rmw_kind, modulus, float_sum, old, val),
                    )
            }
        },
{
    let rewrite = lowered->Ok_0;
    let rmw = rewrite.inserted@[rewrite.replacement->Some_0 as int]->Rmw_0;
    assert forall|modulus: int, float_sum: spec_fn(u64, u64) -> u64, old: u64, val: u64|
        old < modulus && val < modulus implies source_stores(
        op.rmw_kind,
        modulus,
        float_sum,
        old,
        val,
        #[trigger] llvm_computes(rmw.llvm_rmw_kind, modulus, float_sum, old, val),
    ) by {
        lemma_wraps_once(old as int, val as int, modulus);
    }
}

/// A lowered load, store or exchange of ordering `mapped` and scope `reach`
/// orders and reaches what the source operation does.
pub open spec fn keeps_ordering_and_scope(
    ordering: AtomicOrdering,
    scope: AtomicScope,
    mapped: LlvmAtomicOrdering,
    reach: LlvmSyncScope,
) -> bool {
    &&& llvm_guarantees(
        mapped,
        source_acquires(ordering),
        source_releases(ordering),
        source_is_sequential(ordering),
    )
    &&& forall|here: Place, there: Place| #[trigger]
        llvm_reaches(reach, here, there) <==> source_reaches(scope, here, there)
}

/// A lowered load reads from the same address, with the guarantees of the
/// source, and its value takes the place of the source's.
pub proof fn lowered_loads_do_what_the_source_does(
    op: NvvmAtomicLoadOp,
    ty: Type,
    lowered: Result<Rewrite, String>,
)
    requires
        call_ensures(convert_atomic_load, (op, Ok::<Type, String>(ty)), lowered),
    ensures
        lowered matches Ok(rewrite) && rewrite.inserted@.len() == 1 && rewrite.replacement == Some(
            0usize,
        ) && (rewrite.inserted@[0] matches AtomicOp::Load(load) && load.ptr@ == op.ptr@
            && load.result@ == ty@ && keeps_ordering_and_scope(
            op.ordering,
            op.scope,
            load.llvm_ld_ordering,
            load.llvm_ld_syncscope,
        )),
{
}

/// A lowered store writes the same value to the same address, with the
/// guarantees of the source, and gives no result.
pub proof fn lowered_stores_do_what_the_source_does(op: NvvmAtomicStoreOp, rewrite: Rewrite)
    requires
        call_ensures(convert_atomic_store, (op,), rewrite),
    ensures
        rewrite.inserted@.len() == 1,
        rewrite.replacement is None,
        rewrite.inserted@[0] matches AtomicOp::Store(store) && store.ptr@ == op.ptr@ && store.val@
            == op.val@ && keeps_ordering_and_scope(
            op.ordering,
            op.scope,
            store.llvm_st_ordering,
            store.llvm_st_syncscope,
        ),
{
}

/// A lowered compare-and-exchange compares and writes the same values at the
/// same address, with the guarantees of the source on success and on failure.
pub proof fn lowered_exchanges_do_what_the_source_does(
    op: NvvmAtomicCmpxchgOp,
    ty: Type,
    lowered: Result<Rewrite, String>,
)
    requires
        call_ensures(convert_atomic_cmpxchg, (op, Ok::<Type, String>(ty)), lowered),
    ensures
        lowered matches Ok(rewrite) && rewrite.inserted@.len() == 1 && rewrite.replacement == Some(
            0usize,
        ) && (rewrite.inserted@[0] matches AtomicOp::Cmpxchg(swap) && swap.ptr@ == op.ptr@
            && swap.cmp@ == op.cmp@ && swap.new@ == op.new@ && swap.result@ == ty@
            && keeps_ordering_and_scope(
            op.success_ordering,
            op.scope,
            swap.llvm_cas_success_ordering,
            swap.llvm_cas_syncscope,
        ) && keeps_ordering_and_scope(
            op.failure_ordering,
            op.scope,
            swap.llvm_cas_failure_ordering,
            swap.llvm_cas_syncscope,
        )),
{
}

/// A lowering that has no type for the result fails with the reason for it.
pub proof fn missing_types_are_reported(
    load: NvvmAtomicLoadOp,
    rmw: NvvmAtomicRmwOp,
    exchange: NvvmAtomicCmpxchgOp,
    cause: String,
    lowered: Result<Rewrite, String>,
)
    requires
        call_ensures(convert_atomic_load, (load, Err::<Type, String>(cause)), lowered)
            || call_ensures(convert_atomic_rmw, (rmw, Err::<Type, String>(cause)), lowered)
            || call_ensures(convert_atomic_cmpxchg, (exchange, Err::<Type, String>(cause)), lowered),
    ensures
        lowered matches Err(error) && error@ == cause@,
{
}

} // verus!

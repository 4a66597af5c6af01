//! The operations of the dialect.
//!
//! Each operation is built by its constructors and checked by its `verify`,
//! which says what is wrong with operands, results and attributes.

pub mod acceptance;
pub mod aggregate;
pub mod arithmetic;
pub mod assembly;
pub mod atomic;
pub mod call;
pub mod cast;
pub mod comparison;
pub mod constants;
pub mod reading;
pub mod select;
pub mod symbol;
pub mod va;

use crate::llvm::dialect::Dialect;
use vstd::prelude::*;

verus! {

/// The names of all operations.
pub open spec fn op_names() -> Set<Seq<char>> {
    arithmetic::op_names().union(atomic::op_names()).union(comparison::op_names()).union(
        cast::op_names(),
    ).union(aggregate::op_names()).union(constants::op_names()).union(symbol::op_names()).union(
        call::op_names(),
    ).union(select::op_names()).union(assembly::op_names()).union(va::op_names())
}

/// Registers all operations.
pub fn register(dialect: &mut Dialect)
    ensures
        final(dialect)@ == old(dialect)@.union(op_names()),
{
    arithmetic::register(dialect);
    atomic::register(dialect);
    comparison::register(dialect);
    cast::register(dialect);
    aggregate::register(dialect);
    constants::register(dialect);
    symbol::register(dialect);
    call::register(dialect);
    select::register(dialect);
    assembly::register(dialect);
    va::register(dialect);
    proof {
        assert(dialect@ =~= old(dialect)@.union(op_names()));
    }
}

/// The operations that the dialect has, by their own names.
pub open spec fn operation(name: Seq<char>) -> bool {
    ||| name == "add"@
    ||| name == "sub"@
    ||| name == "mul"@
    ||| name == "shl"@
    ||| name == "udiv"@
    ||| name == "sdiv"@
    ||| name == "urem"@
    ||| name == "srem"@
    ||| name == "and"@
    ||| name == "or"@
    ||| name == "xor"@
    ||| name == "lshr"@
    ||| name == "ashr"@
    ||| name == "fadd"@
    ||| name == "fsub"@
    ||| name == "fmul"@
    ||| name == "fdiv"@
    ||| name == "frem"@
    ||| name == "fneg"@
    ||| name == "inline_asm"@
    ||| name == "inline_asm_multi"@
    ||| name == "atomicrmw"@
    ||| name == "cmpxchg"@
    ||| name == "atomic_load"@
    ||| name == "atomic_store"@
    ||| name == "fence"@
    ||| name == "call"@
    ||| name == "call_intrinsic"@
    ||| name == "bitcast"@
    ||| name == "ptrtoint"@
    ||| name == "inttoptr"@
    ||| name == "addrspacecast"@
    ||| name == "sext"@
    ||| name == "zext"@
    ||| name == "trunc"@
    ||| name == "fptrunc"@
    ||| name == "fpext"@
    ||| name == "fptosi"@
    ||| name == "fptoui"@
    ||| name == "sitofp"@
    ||| name == "uitofp"@
    ||| name == "icmp"@
    ||| name == "fcmp"@
    ||| name == "constant"@
    ||| name == "zero"@
    ||| name == "undef"@
    ||| name == "select"@
    ||| name == "func"@
    ||| name == "global"@
    ||| name == "addressof"@
    ||| name == "va_arg"@
    ||| name == "insert_value"@
    ||| name == "extract_value"@
    ||| name == "extractelement"@
}

/// The registered names are `llvm.` and the name of an operation, for each
/// operation and for nothing else.
#[verifier::rlimit(60)]
pub proof fn operations_are_registered_by_name(name: Seq<char>)
    ensures
        op_names().contains("llvm."@ + name) <==> operation(name),
{
    reveal_strlit("llvm.");
    assert(("llvm."@ + name).skip(5) =~= name);
    reveal_strlit("add");
    reveal_strlit("llvm.add");
    assert("llvm."@ + "add"@ =~= "llvm.add"@);
    assert("llvm.add"@.skip(5) =~= "add"@);
    reveal_strlit("sub");
    reveal_strlit("llvm.sub");
    assert("llvm."@ + "sub"@ =~= "llvm.sub"@);
    assert("llvm.sub"@.skip(5) =~= "sub"@);
    reveal_strlit("mul");
    reveal_strlit("llvm.mul");
    assert("llvm."@ + "mul"@ =~= "llvm.mul"@);
    assert("llvm.mul"@.skip(5) =~= "mul"@);
    reveal_strlit("shl");
    reveal_strlit("llvm.shl");
    assert("llvm."@ + "shl"@ =~= "llvm.shl"@);
    assert("llvm.shl"@.skip(5) =~= "shl"@);
    reveal_strlit("udiv");
    reveal_strlit("llvm.udiv");
    assert("llvm."@ + "udiv"@ =~= "llvm.udiv"@);
    assert("llvm.udiv"@.skip(5) =~= "udiv"@);
    reveal_strlit("sdiv");
    reveal_strlit("llvm.sdiv");
    assert("llvm."@ + "sdiv"@ =~= "llvm.sdiv"@);
    assert("llvm.sdiv"@.skip(5) =~= "sdiv"@);
    reveal_strlit("urem");
    reveal_strlit("llvm.urem");
    assert("llvm."@ + "urem"@ =~= "llvm.urem"@);
    assert("llvm.urem"@.skip(5) =~= "urem"@);
    reveal_strlit("srem");
    reveal_strlit("llvm.srem");
    assert("llvm."@ + "srem"@ =~= "llvm.srem"@);
    assert("llvm.srem"@.skip(5) =~= "srem"@);
    reveal_strlit("and");
    reveal_strlit("llvm.and");
    assert("llvm."@ + "and"@ =~= "llvm.and"@);
    assert("llvm.and"@.skip(5) =~= "and"@);
    reveal_strlit("or");
    reveal_strlit("llvm.or");
    assert("llvm."@ + "or"@ =~= "llvm.or"@);
    assert("llvm.or"@.skip(5) =~= "or"@);
    reveal_strlit("xor");
    reveal_strlit("llvm.xor");
    assert("llvm."@ + "xor"@ =~= "llvm.xor"@);
    assert("llvm.xor"@.skip(5) =~= "xor"@);
    reveal_strlit("lshr");
    reveal_strlit("llvm.lshr");
    assert("llvm."@ + "lshr"@ =~= "llvm.lshr"@);
    assert("llvm.lshr"@.skip(5) =~= "lshr"@);
    reveal_strlit("ashr");
    reveal_strlit("llvm.ashr");
    assert("llvm."@ + "ashr"@ =~= "llvm.ashr"@);
    assert("llvm.ashr"@.skip(5) =~= "ashr"@);
    reveal_strlit("fadd");
    reveal_strlit("llvm.fadd");
    assert("llvm."@ + "fadd"@ =~= "llvm.fadd"@);
    assert("llvm.fadd"@.skip(5) =~= "fadd"@);
    reveal_strlit("fsub");
    reveal_strlit("llvm.fsub");
    assert("llvm."@ + "fsub"@ =~= "llvm.fsub"@);
    assert("llvm.fsub"@.skip(5) =~= "fsub"@);
    reveal_strlit("fmul");
    reveal_strlit("llvm.fmul");
    assert("llvm."@ + "fmul"@ =~= "llvm.fmul"@);
    assert("llvm.fmul"@.skip(5) =~= "fmul"@);
    reveal_strlit("fdiv");
    reveal_strlit("llvm.fdiv");
    assert("llvm."@ + "fdiv"@ =~= "llvm.fdiv"@);
    assert("llvm.fdiv"@.skip(5) =~= "fdiv"@);
    reveal_strlit("frem");
    reveal_strlit("llvm.frem");
    assert("llvm."@ + "frem"@ =~= "llvm.frem"@);
    assert("llvm.frem"@.skip(5) =~= "frem"@);
    reveal_strlit("fneg");
    reveal_strlit("llvm.fneg");
    assert("llvm."@ + "fneg"@ =~= "llvm.fneg"@);
    assert("llvm.fneg"@.skip(5) =~= "fneg"@);
    reveal_strlit("inline_asm");
    reveal_strlit("llvm.inline_asm");
    assert("llvm."@ + "inline_asm"@ =~= "llvm.inline_asm"@);
    assert("llvm.inline_asm"@.skip(5) =~= "inline_asm"@);
    reveal_strlit("inline_asm_multi");
    reveal_strlit("llvm.inline_asm_multi");
    assert("llvm."@ + "inline_asm_multi"@ =~= "llvm.inline_asm_multi"@);
    assert("llvm.inline_asm_multi"@.skip(5) =~= "inline_asm_multi"@);
    reveal_strlit("atomicrmw");
    reveal_strlit("llvm.atomicrmw");
    assert("llvm."@ + "atomicrmw"@ =~= "llvm.atomicrmw"@);
    assert("llvm.atomicrmw"@.skip(5) =~= "atomicrmw"@);
    reveal_strlit("cmpxchg");
    reveal_strlit("llvm.cmpxchg");
    assert("llvm."@ + "cmpxchg"@ =~= "llvm.cmpxchg"@);
    assert("llvm.cmpxchg"@.skip(5) =~= "cmpxchg"@);
    reveal_strlit("atomic_load");
    reveal_strlit("llvm.atomic_load");
    assert("llvm."@ + "atomic_load"@ =~= "llvm.atomic_load"@);
    assert("llvm.atomic_load"@.skip(5) =~= "atomic_load"@);
    reveal_strlit("atomic_store");
    reveal_strlit("llvm.atomic_store");
    assert("llvm."@ + "atomic_store"@ =~= "llvm.atomic_store"@);
    assert("llvm.atomic_store"@.skip(5) =~= "atomic_store"@);
    reveal_strlit("fence");
    reveal_strlit("llvm.fence");
    assert("llvm."@ + "fence"@ =~= "llvm.fence"@);
    assert("llvm.fence"@.skip(5) =~= "fence"@);
    reveal_strlit("call");
    reveal_strlit("llvm.call");
    assert("llvm."@ + "call"@ =~= "llvm.call"@);
    assert("llvm.call"@.skip(5) =~= "call"@);
    reveal_strlit("call_intrinsic");
    reveal_strlit("llvm.call_intrinsic");
    assert("llvm."@ + "call_intrinsic"@ =~= "llvm.call_intrinsic"@);
    assert("llvm.call_intrinsic"@.skip(5) =~= "call_intrinsic"@);
    reveal_strlit("bitcast");
    reveal_strlit("llvm.bitcast");
    assert("llvm."@ + "bitcast"@ =~= "llvm.bitcast"@);
    assert("llvm.bitcast"@.skip(5) =~= "bitcast"@);
    reveal_strlit("ptrtoint");
    reveal_strlit("llvm.ptrtoint");
    assert("llvm."@ + "ptrtoint"@ =~= "llvm.ptrtoint"@);
    assert("llvm.ptrtoint"@.skip(5) =~= "ptrtoint"@);
    reveal_strlit("inttoptr");
    reveal_strlit("llvm.inttoptr");
    assert("llvm."@ + "inttoptr"@ =~= "llvm.inttoptr"@);
    assert("llvm.inttoptr"@.skip(5) =~= "inttoptr"@);
    reveal_strlit("addrspacecast");
    reveal_strlit("llvm.addrspacecast");
    assert("llvm."@ + "addrspacecast"@ =~= "llvm.addrspacecast"@);
    assert("llvm.addrspacecast"@.skip(5) =~= "addrspacecast"@);
    reveal_strlit("sext");
    reveal_strlit("llvm.sext");
    assert("llvm."@ + "sext"@ =~= "llvm.sext"@);
    assert("llvm.sext"@.skip(5) =~= "sext"@);
    reveal_strlit("zext");
    reveal_strlit("llvm.zext");
    assert("llvm."@ + "zext"@ =~= "llvm.zext"@);
    assert("llvm.zext"@.skip(5) =~= "zext"@);
    reveal_strlit("trunc");
    reveal_strlit("llvm.trunc");
    assert("llvm."@ + "trunc"@ =~= "llvm.trunc"@);
    assert("llvm.trunc"@.skip(5) =~= "trunc"@);
    reveal_strlit("fptrunc");
    reveal_strlit("llvm.fptrunc");
    assert("llvm."@ + "fptrunc"@ =~= "llvm.fptrunc"@);
    assert("llvm.fptrunc"@.skip(5) =~= "fptrunc"@);
    reveal_strlit("fpext");
    reveal_strlit("llvm.fpext");
    assert("llvm."@ + "fpext"@ =~= "llvm.fpext"@);
    assert("llvm.fpext"@.skip(5) =~= "fpext"@);
    reveal_strlit("fptosi");
    reveal_strlit("llvm.fptosi");
    assert("llvm."@ + "fptosi"@ =~= "llvm.fptosi"@);
    assert("llvm.fptosi"@.skip(5) =~= "fptosi"@);
    reveal_strlit("fptoui");
    reveal_strlit("llvm.fptoui");
    assert("llvm."@ + "fptoui"@ =~= "llvm.fptoui"@);
    assert("llvm.fptoui"@.skip(5) =~= "fptoui"@);
    reveal_strlit("sitofp");
    reveal_strlit("llvm.sitofp");
    assert("llvm."@ + "sitofp"@ =~= "llvm.sitofp"@);
    assert("llvm.sitofp"@.skip(5) =~= "sitofp"@);
    reveal_strlit("uitofp");
    reveal_strlit("llvm.uitofp");
    assert("llvm."@ + "uitofp"@ =~= "llvm.uitofp"@);
    assert("llvm.uitofp"@.skip(5) =~= "uitofp"@);
    reveal_strlit("icmp");
    reveal_strlit("llvm.icmp");
    assert("llvm."@ + "icmp"@ =~= "llvm.icmp"@);
    assert("llvm.icmp"@.skip(5) =~= "icmp"@);
    reveal_strlit("fcmp");
    reveal_strlit("llvm.fcmp");
    assert("llvm."@ + "fcmp"@ =~= "llvm.fcmp"@);
    assert("llvm.fcmp"@.skip(5) =~= "fcmp"@);
    reveal_strlit("constant");
    reveal_strlit("llvm.constant");
    assert("llvm."@ + "constant"@ =~= "llvm.constant"@);
    assert("llvm.constant"@.skip(5) =~= "constant"@);
    reveal_strlit("zero");
    reveal_strlit("llvm.zero");
    assert("llvm."@ + "zero"@ =~= "llvm.zero"@);
    assert("llvm.zero"@.skip(5) =~= "zero"@);
    reveal_strlit("undef");
    reveal_strlit("llvm.undef");
    assert("llvm."@ + "undef"@ =~= "llvm.undef"@);
    assert("llvm.undef"@.skip(5) =~= "undef"@);
    reveal_strlit("select");
    reveal_strlit("llvm.select");
    assert("llvm."@ + "select"@ =~= "llvm.select"@);
    assert("llvm.select"@.skip(5) =~= "select"@);
    reveal_strlit("func");
    reveal_strlit("llvm.func");
    assert("llvm."@ + "func"@ =~= "llvm.func"@);
    assert("llvm.func"@.skip(5) =~= "func"@);
    reveal_strlit("global");
    reveal_strlit("llvm.global");
    assert("llvm."@ + "global"@ =~= "llvm.global"@);
    assert("llvm.global"@.skip(5) =~= "global"@);
    reveal_strlit("addressof");
    reveal_strlit("llvm.addressof");
    assert("llvm."@ + "addressof"@ =~= "llvm.addressof"@);
    assert("llvm.addressof"@.skip(5) =~= "addressof"@);
    reveal_strlit("va_arg");
    reveal_strlit("llvm.va_arg");
    assert("llvm."@ + "va_arg"@ =~= "llvm.va_arg"@);
    assert("llvm.va_arg"@.skip(5) =~= "va_arg"@);
    reveal_strlit("insert_value");
    reveal_strlit("llvm.insert_value");
    assert("llvm."@ + "insert_value"@ =~= "llvm.insert_value"@);
    assert("llvm.insert_value"@.skip(5) =~= "insert_value"@);
    reveal_strlit("extract_value");
    reveal_strlit("llvm.extract_value");
    assert("llvm."@ + "extract_value"@ =~= "llvm.extract_value"@);
    assert("llvm.extract_value"@.skip(5) =~= "extract_value"@);
    reveal_strlit("extractelement");
    reveal_strlit("llvm.extractelement");
    assert("llvm."@ + "extractelement"@ =~= "llvm.extractelement"@);
    assert("llvm.extractelement"@.skip(5) =~= "extractelement"@);
}

} // verus!

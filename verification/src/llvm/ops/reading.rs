//! Symbols and calls are read as they were printed.

use crate::llvm::attributes::{Attr, AttrModel, AttributeDict, FastmathFlags};
use crate::llvm::identifier::valid_identifier;
use crate::llvm::ops::call::{
    call_text, callee_name, callee_text, calls_read_back, CallArguments, CallHeader, CallOp,
    CalleeModel, CalleeName,
};
use crate::llvm::ops::symbol::{
    entry_only, initializer_at, keys_differ, symbol_headers_read_back, FuncAttributed, FuncHeader,
    FuncOp, FuncTyped, GlobalHeader, GlobalNext, GlobalOp, GlobalTyped, Initializer, Region,
    SymbolParseErr,
};
use crate::llvm::syntax::{after_blanks, name_views};
use crate::llvm::types::{FuncType, Type, TypeModel};
use crate::llvm::value::{value_names, Value};
use crate::text::whitespace;
use vstd::prelude::*;

verus! {

/// The text begins with something that is no blank.
pub open spec fn begins_solid(text: Seq<char>) -> bool {
    text.len() > 0 && !whitespace(text[0])
}

/// The printed header of a function is read back: its name, and the type behind
/// it, with everything else behind the type, the body only where it has one. A
/// function that is said to have results is not read.
#[verifier::rlimit(50)]
pub proof fn functions_are_read_as_printed(
    op: FuncOp,
    type_text: &str,
    line_break: &str,
    attributes_text: &str,
    region_text: &str,
    printed: String,
    text: &[char],
    read: Result<(FuncHeader, usize), SymbolParseErr>,
    results: usize,
    refused: Result<(FuncHeader, usize), SymbolParseErr>,
)
    requires
        op.symbol() is Some,
        valid_identifier(op.symbol()->Some_0),
        begins_solid(type_text@),
        call_ensures(
            FuncOp::print,
            (&op, type_text, line_break, attributes_text, region_text),
            printed,
        ),
        text@ == printed@.skip("llvm.func "@.len() as int),
        call_ensures(FuncOp::parse, (0usize, text, 0usize), read),
        results > 0,
        call_ensures(FuncOp::parse, (results, text, 0usize), refused),
    ensures
        printed@.take("llvm.func "@.len() as int) == "llvm.func "@,
        read matches Ok((header, next)) && header.name@ == op.symbol()->Some_0 && text@.skip(
            next as int,
        ) == type_text@ + line_break@ + attributes_text@ + (if op.region is Some {
            seq![' '] + region_text@
        } else {
            seq![]
        }),
        refused matches Err(SymbolParseErr::FuncResults(named)) && named == results,
{
    reveal_strlit("llvm.func ");
    reveal_strlit("llvm.func @");
    reveal_strlit(": ");
    reveal_strlit(" ");
    let name = op.symbol()->Some_0;
    let tail = if op.region is Some {
        " "@ + region_text@
    } else {
        Seq::<char>::empty()
    };
    let rest = type_text@ + line_break@ + attributes_text@ + tail;
    assert(printed@.take(10) =~= "llvm.func "@);
    assert(text@ =~= seq!['@'] + name + Seq::<char>::empty() + seq![':', ' '] + rest);
    assert(rest[0] == type_text@[0]);
    symbol_headers_read_back(name, Seq::<char>::empty(), rest);
    assert(after_blanks(text@, 0) == 0);
    assert(tail =~= if op.region is Some {
        seq![' '] + region_text@
    } else {
        seq![]
    });
}

/// The printed header of a global variable is read back: its name, and the type
/// behind it. An initial value, and a region that computes one, stand behind an
/// equals sign. A variable that is said to have results is not read.
#[verifier::rlimit(50)]
pub proof fn globals_are_read_as_printed(
    op: GlobalOp,
    type_text: &str,
    line_break: &str,
    attributes_text: &str,
    value_text: &str,
    region_text: &str,
    printed: String,
    text: &[char],
    read: Result<(GlobalHeader, usize), SymbolParseErr>,
    results: usize,
    refused: Result<(GlobalHeader, usize), SymbolParseErr>,
)
    requires
        op.symbol() is Some,
        op.value_type() is Some,
        valid_identifier(op.symbol()->Some_0),
        begins_solid(type_text@),
        call_ensures(
            GlobalOp::print,
            (&op, type_text, line_break, attributes_text, value_text, region_text),
            printed,
        ),
        text@ == printed@.skip("llvm.global "@.len() as int),
        call_ensures(GlobalOp::parse, (0usize, text, 0usize), read),
        results > 0,
        call_ensures(GlobalOp::parse, (results, text, 0usize), refused),
    ensures
        printed@.take("llvm.global "@.len() as int) == "llvm.global "@,
        read matches Ok((header, next)) && header.name@ == op.symbol()->Some_0 && text@.skip(
            next as int,
        ) == type_text@ + line_break@ + attributes_text@ + (if op.attributes@.contains_key(
            "global_initializer"@,
        ) {
            seq![' ', '=', ' '] + value_text@
        } else {
            seq![]
        }) + (if op.regions@.len() > 0 {
            seq![' ', '=', ' '] + region_text@
        } else {
            seq![]
        }),
        refused == Err::<(GlobalHeader, usize), _>(SymbolParseErr::GlobalResults),
{
    reveal_strlit("llvm.global ");
    reveal_strlit("llvm.global @");
    reveal_strlit(" : ");
    reveal_strlit(" = ");
    let name = op.symbol()->Some_0;
    let valued = if op.attributes@.contains_key("global_initializer"@) {
        " = "@ + value_text@
    } else {
        Seq::<char>::empty()
    };
    let computed = if op.regions@.len() > 0 {
        " = "@ + region_text@
    } else {
        Seq::<char>::empty()
    };
    assert(" = "@ =~= seq![' ', '=', ' ']);
    let rest = type_text@ + line_break@ + attributes_text@ + valued + computed;
    assert(printed@.take(12) =~= "llvm.global "@);
    assert(text@ =~= seq!['@'] + name + seq![' '] + seq![':', ' '] + rest);
    assert(rest[0] == type_text@[0]);
    symbol_headers_read_back(name, seq![' '], rest);
    assert(after_blanks(text@, 0) == 0);
}

/// An initializer is expected exactly where an equals sign stands behind the
/// attributes, and it begins behind the blanks that follow the sign.
#[verifier::rlimit(50)]
pub proof fn initializers_stand_behind_an_equals_sign(front: Seq<char>, value: Seq<char>)
    requires
        begins_solid(value),
    ensures
        initializer_at(front, front.len() as int) is None,
        initializer_at(front + seq![' ', '=', ' '] + value, front.len() as int) == Some(
            front.len() as int + 3,
        ),
        value[0] != '=' ==> initializer_at(front + value, front.len() as int) is None,
{
    let n = front.len() as int;
    assert(after_blanks(front, n) == n);
    let text = front + seq![' ', '=', ' '] + value;
    assert(text[n] == ' ' && text[n + 1] == '=' && text[n + 2] == ' ' && text[n + 3] == value[0]);
    assert(after_blanks(text, n + 1) == n + 1);
    assert(after_blanks(text, n) == n + 1);
    assert(after_blanks(text, n + 3) == n + 3);
    assert(after_blanks(text, n + 2) == n + 3);
    let other = front + value;
    assert(other[n] == value[0]);
    assert(after_blanks(other, n) == n);
}

/// A function that is put together from what its header says, from the
/// attributes that are printed behind it and from its body is the function that
/// it was, if no attribute is outlined. Where the attributes say something else
/// than the header, the header stays.
#[verifier::rlimit(50)]
pub proof fn functions_are_put_together_again(
    op: FuncOp,
    separate: AttributeDict,
    header: FuncHeader,
    ty: Type,
    text: &[char],
    ends: (usize, usize, usize),
    typed: (FuncTyped, usize),
    attributes: AttributeDict,
    attributed: (FuncAttributed, usize),
    region: Option<Region>,
    read: (FuncOp, usize),
)
    requires
        op.symbol() is Some,
        op.signature() is Some,
        call_ensures(FuncOp::separate_attributes, (&op,), separate),
        header.name@ == op.symbol()->Some_0,
        ty@ == op.signature()->Some_0,
        call_ensures(FuncHeader::with_type, (header, text, ty, ends.0), typed),
        call_ensures(FuncTyped::with_attributes, (typed.0, text, attributes, ends.1), attributed),
        call_ensures(FuncAttributed::with_region, (attributed.0, text, region, ends.2), read),
    ensures
        read.0.symbol() == op.symbol(),
        read.0.signature() == op.signature(),
        read.0.region == region,
        attributes@ == separate@ && (forall|key: Seq<char>| #[trigger]
            op.attributes@.contains_key(key) ==> !op.attributes@[key].outlined())
            ==> read.0.attributes@ == op.attributes@,
{
    keys_differ();
    let keys = FuncOp::header_keys();
    assert(keys[0] == "llvm_func_type"@ && keys[1] == "builtin_sym_name"@);
    if attributes@ == separate@ && (forall|key: Seq<char>| #[trigger]
        op.attributes@.contains_key(key) ==> !op.attributes@[key].outlined()) {
        assert(read.0.attributes@ =~= op.attributes@);
    }
}

/// A global variable that is put together from what its header says, from the
/// attributes that are printed behind it and from its initializer is the
/// variable that it was, if no attribute is outlined and it names its address
/// space.
#[verifier::rlimit(50)]
pub proof fn globals_are_put_together_again(
    op: GlobalOp,
    separate: AttributeDict,
    header: GlobalHeader,
    ty: Type,
    text: &[char],
    ends: (usize, usize),
    typed: (GlobalTyped, usize),
    next: GlobalNext,
    value: Attr,
    valued: GlobalOp,
)
    requires
        op.symbol() is Some,
        op.value_type() is Some,
        op.attributes@.contains_key("llvm_global_address_space"@),
        forall|key: Seq<char>| #[trigger]
            op.attributes@.contains_key(key) ==> !op.attributes@[key].outlined(),
        call_ensures(GlobalOp::separate_attributes, (&op,), separate),
        header.name@ == op.symbol()->Some_0,
        ty@ == op.value_type()->Some_0,
        call_ensures(GlobalHeader::with_type, (header, text, ty, ends.0), typed),
        call_ensures(GlobalTyped::with_attributes, (typed.0, text, separate, ends.1), next),
        next matches GlobalNext::Initializer(partial, _) ==> call_ensures(
            GlobalOp::with_initializer,
            (partial, Initializer::Value(value)),
            valued,
        ),
        op.attributes@.contains_key("global_initializer"@) ==> value@
            == op.attributes@["global_initializer"@],
    ensures
        next is Initializer <==> initializer_at(text@, ends.1 as int) is Some,
        !op.attributes@.contains_key("global_initializer"@) && next is Done ==> next->Done_0.attributes@
            == op.attributes@,
        op.attributes@.contains_key("global_initializer"@) && next is Initializer
            ==> valued.attributes@ == op.attributes@,
{
    keys_differ();
    let keys = GlobalOp::header_keys();
    assert(keys[0] == "llvm_global_type"@ && keys[1] == "builtin_sym_name"@ && keys[2]
        == "global_initializer"@);
    match next {
        GlobalNext::Done(done, _) => {
            if !op.attributes@.contains_key("global_initializer"@) {
                assert(done.attributes@ =~= op.attributes@);
            }
        },
        GlobalNext::Initializer(partial, _) => {
            if op.attributes@.contains_key("global_initializer"@) {
                assert(valued.attributes@ =~= op.attributes@);
            }
        },
    }
}

/// An initializer is taken over as what it is: a value as an attribute, a region
/// as a region, and nothing else is touched.
#[verifier::rlimit(50)]
pub proof fn initializers_are_taken_over(
    op: GlobalOp,
    value: Attr,
    region: Region,
    valued: GlobalOp,
    computed: GlobalOp,
    key: Seq<char>,
)
    requires
        call_ensures(GlobalOp::with_initializer, (op, Initializer::Value(value)), valued),
        call_ensures(GlobalOp::with_initializer, (op, Initializer::Region(region)), computed),
        key != "global_initializer"@,
    ensures
        valued.attributes@.contains_key("global_initializer"@),
        valued.attributes@["global_initializer"@] == value@,
        valued.attributes@.contains_key(key) <==> op.attributes@.contains_key(key),
        op.attributes@.contains_key(key) ==> valued.attributes@[key] == op.attributes@[key],
        valued.regions@ == op.regions@,
        computed.attributes@ == op.attributes@,
        computed.regions@.len() == op.regions@.len() + 1,
        computed.regions@.last() == region,
        computed.regions@.drop_last() == op.regions@,
{
    assert(computed.regions@.drop_last() =~= op.regions@);
}

/// A new body has one block, called `entry`, that takes what the function takes.
#[verifier::rlimit(50)]
pub proof fn entries_take_the_arguments(region: Region, args: Seq<TypeModel>, i: int)
    requires
        entry_only(region, args),
        0 <= i < args.len(),
    ensures
        region.blocks@.len() == 1,
        region.blocks@[0].arg_types@.len() == args.len(),
        region.blocks@[0].arg_types@[i]@ == args[i],
        region.blocks@[0].label matches Some(label) && label@.len() == 5 && label@[0] == 'e'
            && label@[4] == 'y',
{
    reveal_strlit("entry");
    let shown = crate::llvm::types::models(region.blocks@[0].arg_types@);
    assert(shown.len() == args.len());
    assert(shown[i] == args[i]);
}

/// A call is read as it was printed: the callee, with an at sign in front of a
/// name, the flags where there are any, the arguments in order and the type.
#[verifier::rlimit(50)]
pub proof fn calls_are_read_as_printed(
    op: CallOp,
    result_text: &str,
    flags_text: &str,
    type_text: &str,
    printed: String,
    text: &[char],
    read: Option<(CallHeader, usize)>,
    flags: Option<FastmathFlags>,
    end: usize,
    arguments: Option<(CallArguments, usize)>,
)
    requires
        op.has_callee(),
        match op.called() {
            CalleeModel::Direct(name) => valid_identifier(name),
            CalleeModel::Indirect(value) => valid_identifier(value.name),
        },
        forall|k: int|
            0 <= k < op.arguments().len() ==> valid_identifier(
                #[trigger] value_names(op.arguments())[k],
            ),
        begins_solid(flags_text@),
        begins_solid(type_text@),
        call_ensures(CallOp::print, (&op, result_text, flags_text, type_text), printed),
        text@ == printed@.skip((result_text@ + " = llvm.call "@).len() as int),
        call_ensures(CallOp::parse, (text, 0usize), read),
        read is Some ==> call_ensures(
            CallHeader::with_flags,
            (read->Some_0.0, text, flags, end),
            arguments,
        ),
        read matches Some((_, at)) ==> end == at + (if shows_flags(op) {
            flags_text@.len() as int
        } else {
            0
        }),
    ensures
        printed@.take((result_text@ + " = llvm.call "@).len() as int) == result_text@
            + " = llvm.call "@,
        text@[0] == '@' <==> op.llvm_call_callee is Some,
        read matches Some((header, at)) && (match header.callee {
            CalleeName::Direct(name) => op.called() == CalleeModel::Direct(name@),
            CalleeName::Indirect(name) => op.called() is Indirect && op.called()->Indirect_0.name
                == name@,
        }) && (shows_flags(op) ==> text@.subrange(at as int, end as int) == flags_text@),
        arguments matches Some((found, next)) && found.flags == flags && name_views(found.names@)
            == value_names(op.arguments()) && text@.skip(next as int) == type_text@,
{
    let names = value_names(op.arguments());
    let shown = if shows_flags(op) {
        Some(flags_text@)
    } else {
        None
    };
    let begin = result_text@ + " = llvm.call "@;
    let body = call_text(callee_text(op.called()), shown, names, type_text@);
    assert(printed@ == begin + body);
    assert(printed@.take(begin.len() as int) =~= begin);
    assert(text@ =~= body);
    calls_read_back(op.called(), shown, names, type_text@);
    reveal_strlit("@");
    match op.called() {
        CalleeModel::Direct(name) => {
            assert(callee_text(op.called())[0] == '@');
            assert(body[0] == '@');
        },
        CalleeModel::Indirect(value) => {
            assert(callee_text(op.called()) == value.name);
            assert(body[0] == value.name[0]);
        },
    }
}

/// A call shows its flags exactly if it has some that are set.
pub open spec fn shows_flags(op: CallOp) -> bool {
    op.llvm_call_fastmath_flags matches Some(flags) && flags.0 != 0
}

/// A call that was read is put together of what was read, with the values that
/// the names stand for.
#[verifier::rlimit(50)]
pub proof fn calls_are_put_together_again(
    parts: CallArguments,
    pointer: Option<Value>,
    args: Vec<Value>,
    ty: FuncType,
    op: CallOp,
)
    requires
        parts.callee is Indirect ==> pointer is Some,
        call_ensures(CallArguments::finish, (parts, pointer, args, ty), op),
    ensures
        match parts.callee {
            CalleeName::Direct(name) => op.called() == CalleeModel::Direct(name@),
            CalleeName::Indirect(_) => op.called() == CalleeModel::Indirect(pointer->Some_0@),
        },
        op.arguments().len() == args@.len(),
        forall|i: int| 0 <= i < args@.len() ==> op.arguments()[i] == #[trigger] args@[i]@,
        op.callee_type@ == ty@,
        op.result@ == ty.result@,
        op.llvm_call_fastmath_flags == parts.flags,
{
    assert(op.arguments() == crate::llvm::value::value_models(args@));
}

} // verus!

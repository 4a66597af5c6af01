use cuda_oxide::llvm::attributes::{Attr, AttributeDict, FastmathFlags};
use cuda_oxide::llvm::identifier::Identifier;
use cuda_oxide::llvm::ops::call::{
    CallArguments, CallHeader, CallIntrinsicOp, CallIntrinsicVerifyErr, CallOp, CallOpCallable,
    CalleeName, IntrinsicHeader,
};
use cuda_oxide::llvm::ops::symbol::{
    AddressOfOp, AddressOfVerifyErr, FuncOp, FuncOpTypeErr, GlobalNext, GlobalOp,
    GlobalOpVerifyErr, Initializer, Region, Symbol, SymbolParseErr, SymbolUserOpVerifyErr,
    ATTR_KEY_LLVM_FUNC_TYPE, ATTR_KEY_LLVM_GLOBAL_ADDRESS_SPACE, ATTR_KEY_LLVM_GLOBAL_TYPE,
    ATTR_KEY_SYM_NAME,
};
use cuda_oxide::llvm::types::{same_type, FuncType, Signedness, Type, GENERIC};
use cuda_oxide::llvm::value::Value;

fn integer(width: u32) -> Type {
    Type::Integer {
        width,
        signedness: Signedness::Signless,
    }
}

fn ptr() -> Type {
    Type::Pointer { address_space: 0 }
}

fn name(text: &str) -> Identifier {
    Identifier::try_new(text.to_string()).unwrap()
}

fn value(text: &str, ty: Type) -> Value {
    Value::new(text.to_string(), ty)
}

fn binary() -> FuncType {
    FuncType::get(integer(32), vec![integer(32), ptr()], false)
}

fn chars(text: &str) -> Vec<char> {
    text.chars().collect()
}

#[test]
fn identifiers_are_ascii_words() {
    for text in ["a", "_", "__nv_sqrtf", "llvm_x9", "A_1"] {
        assert_eq!(name(text).as_str(), text);
    }
    for text in ["", "9a", "a.b", "a b", "\u{e9}", "a\u{e9}", "-"] {
        let error = Identifier::try_new(text.to_string()).unwrap_err();
        assert_eq!(error.message(), format!("Malformed identifier {text}"));
    }
    assert!(name("x").same(&name("x")));
    assert!(!name("x").same(&name("y")));
}

fn other(text: &str, outlined: bool) -> Attr {
    Attr::Other {
        text: text.to_string(),
        outlined,
    }
}

#[test]
fn dictionaries_keep_one_attribute_per_key() {
    let mut dict = AttributeDict::new();
    dict.set("a", Attr::Alignment(4));
    dict.set("b", other("x", false));
    dict.set("a", Attr::Alignment(8));
    assert!(matches!(dict.get("a"), Some(Attr::Alignment(8))));
    assert!(dict.get("c").is_none());
    let mut more = AttributeDict::new();
    more.set("b", Attr::AddressSpace(3));
    more.set("c", other("hidden", true));
    dict.extend(more);
    assert!(matches!(dict.get("b"), Some(Attr::AddressSpace(3))));
    assert!(dict.get("c").is_some());
    let rest = dict.without(&["a"]);
    assert!(rest.get("a").is_none());
    assert!(rest.get("c").is_none());
    assert!(matches!(rest.get("b"), Some(Attr::AddressSpace(3))));
}

#[test]
fn functions_hold_name_and_type() {
    let func = FuncOp::new(name("kernel"), binary());
    assert_eq!(func.get_symbol_name().as_str(), "kernel");
    assert!(same_type(&func.get_type().result, &integer(32)));
    assert!(func.is_declaration());
    assert!(func.get_entry_block().is_none());
    assert_eq!(
        FuncOpTypeErr.message(),
        "llvm.func op does not have llvm.func type"
    );
}

#[test]
fn entry_blocks_are_created_once() {
    let mut func = FuncOp::new(name("kernel"), binary());
    let entry = func.get_or_create_entry_block();
    assert_eq!(entry.label.as_deref(), Some("entry"));
    assert_eq!(entry.arg_types.len(), 2);
    assert!(same_type(&entry.arg_types[1], &ptr()));
    assert!(!func.is_declaration());
    func.region.as_mut().unwrap().blocks[0].label = Some("start".to_string());
    assert_eq!(
        func.get_or_create_entry_block().label.as_deref(),
        Some("start")
    );
}

#[test]
fn functions_print_header_attributes_and_body() {
    let mut func = FuncOp::new(name("kernel"), binary());
    assert_eq!(
        func.print("ty", "\n  ", "[]", "{}"),
        "llvm.func @kernel: ty\n  []"
    );
    func.get_or_create_entry_block();
    func.attributes.set("llvm_function_linkage", other("External", false));
    assert_eq!(
        func.print("ty", "\n  ", "[l]", "{}"),
        "llvm.func @kernel: ty\n  [l] {}"
    );
    let separate = func.separate_attributes();
    assert!(separate.get(ATTR_KEY_SYM_NAME).is_none());
    assert!(separate.get(ATTR_KEY_LLVM_FUNC_TYPE).is_none());
    assert!(separate.get("llvm_function_linkage").is_some());
}

#[test]
fn printed_functions_read_back() {
    let mut func = FuncOp::new(name("kernel_1"), binary());
    func.attributes.set("llvm_function_linkage", other("External", false));
    let text = chars(&func.print("TYPE", "\n  ", "[DICT]", "")["llvm.func".len()..]);
    let (header, at) = FuncOp::parse(0, &text, 0).unwrap();
    assert_eq!(header.name.as_str(), "kernel_1");
    assert_eq!(text[at..at + 4], ['T', 'Y', 'P', 'E']);
    let (typed, at) = header.with_type(&text, Type::Func(binary()), at + 4);
    assert_eq!(text[at], '[');
    let (attributed, at) = typed.with_attributes(&text, func.separate_attributes(), at + 6);
    assert_eq!(at, text.len());
    let (read, end) = attributed.with_region(&text, None, at);
    assert_eq!(end, text.len());
    assert_eq!(read.get_symbol_name().as_str(), "kernel_1");
    assert!(read.attributes.get("llvm_function_linkage").is_some());
    assert!(read.is_declaration());
}

#[test]
fn function_headers_win_over_attributes() {
    let text = chars(" @f : T [] ");
    let (header, at) = FuncOp::parse(0, &text, 0).unwrap();
    let mut dict = AttributeDict::new();
    dict.set(ATTR_KEY_SYM_NAME, Attr::Identifier(name("g")));
    let (typed, at) = header.with_type(&text, Type::Func(binary()), at + 1);
    let (attributed, at) = typed.with_attributes(&text, dict, at + 2);
    let (read, _) = attributed.with_region(&text, Some(Region { blocks: vec![] }), at);
    assert_eq!(read.get_symbol_name().as_str(), "f");
    assert!(!read.is_declaration());
}

#[test]
fn headers_that_are_no_headers_are_refused() {
    assert_eq!(
        FuncOp::parse(2, &chars("@f: T"), 0).unwrap_err(),
        SymbolParseErr::FuncResults(2)
    );
    assert_eq!(
        SymbolParseErr::FuncResults(2).message(""),
        "Expected 0 result(s), but found 2 results"
    );
    assert_eq!(
        GlobalOp::parse(1, &chars("@f: T"), 0).unwrap_err().message(""),
        "GlobalOp must cannot have results"
    );
    for text in ["f: T", "@: T", "@9: T", "@f T", "@", ""] {
        assert_eq!(
            FuncOp::parse(0, &chars(text), 0).unwrap_err(),
            SymbolParseErr::Syntax
        );
        assert_eq!(
            GlobalOp::parse(0, &chars(text), 0).unwrap_err(),
            SymbolParseErr::Syntax
        );
    }
    assert_eq!(SymbolParseErr::Syntax.message("Unexpected `x`"), "Unexpected `x`");
    assert!(GlobalOp::parse(0, &chars(" @f: T"), 0).is_err());
}

#[test]
fn globals_start_in_the_generic_space() {
    let global = GlobalOp::new(name("g"), integer(32));
    assert_eq!(global.get_address_space(), GENERIC);
    assert_eq!(global.get_alignment(), None);
    assert!(global.is_declaration());
    assert!(global.verify().is_ok());
    assert!(same_type(global.get_type(), &integer(32)));
    let shared = GlobalOp::new_in_address_space(name("s"), integer(8), 3);
    assert_eq!(shared.get_address_space(), 3);
    let aligned = GlobalOp::new_with_alignment(name("a"), integer(8), 128);
    assert_eq!(aligned.get_alignment(), Some(128));
}

#[test]
fn alignments_are_kept_in_32_bits() {
    let mut global = GlobalOp::new(name("g"), integer(32));
    global.set_alignment(0x1_0000_0010);
    assert_eq!(global.get_alignment(), Some(0x1_0000_0010u64 as u32 as u64));
    global.set_address_space(4);
    assert_eq!(global.get_address_space(), 4);
    assert_eq!(global.get_alignment(), Some(16));
}

#[test]
fn globals_have_at_most_one_initializer() {
    let mut global = GlobalOp::new(name("g"), integer(32));
    global.add_initializer_region();
    assert!(global.verify().is_ok());
    assert!(!global.is_declaration());
    assert_eq!(
        global.get_initializer_block().unwrap().label.as_deref(),
        Some("entry")
    );
    assert!(global.get_initializer_region().is_some());
    global.set_initializer_value(other("7", false));
    assert_eq!(global.verify().unwrap_err(), GlobalOpVerifyErr::MissingType);
    let mut bare = GlobalOp::new(name("g"), integer(32));
    bare.attributes.set(ATTR_KEY_LLVM_GLOBAL_TYPE, Attr::Alignment(1));
    assert_eq!(
        bare.verify().unwrap_err().message(),
        "GlobalOp must have a type"
    );
}

#[test]
fn printed_globals_read_back() {
    let mut global = GlobalOp::new_in_address_space(name("tile"), integer(32), 3);
    global.set_initializer_value(other("7", false));
    let printed = global.print("TYPE", "\n  ", "[DICT]", "INIT", "");
    assert_eq!(printed, "llvm.global @tile : TYPE\n  [DICT] = INIT");
    let text = chars(&printed["llvm.global ".len()..]);
    let (header, at) = GlobalOp::parse(0, &text, 0).unwrap();
    assert_eq!(header.name.as_str(), "tile");
    let (typed, at) = header.with_type(&text, integer(32), at + 4);
    assert_eq!(text[at], '[');
    match typed.with_attributes(&text, global.separate_attributes(), at + 6) {
        GlobalNext::Initializer(op, at) => {
            assert_eq!(text[at..], ['I', 'N', 'I', 'T']);
            let read = op.with_initializer(Initializer::Value(other("7", false)));
            assert_eq!(read.get_symbol_name().as_str(), "tile");
            assert_eq!(read.get_address_space(), 3);
            assert!(matches!(
                read.get_initializer_value(),
                Some(Attr::Other { text, .. }) if text == "7"
            ));
        }
        GlobalNext::Done(..) => panic!("an initializer follows"),
    }
}

#[test]
fn global_attributes_win_over_headers() {
    let text = chars("@g : T [] ");
    let (header, at) = GlobalOp::parse(0, &text, 0).unwrap();
    let mut dict = AttributeDict::new();
    dict.set(ATTR_KEY_SYM_NAME, Attr::Identifier(name("h")));
    dict.set(ATTR_KEY_LLVM_GLOBAL_ADDRESS_SPACE, Attr::AddressSpace(1));
    let (typed, at) = header.with_type(&text, integer(8), at + 1);
    match typed.with_attributes(&text, dict, at + 2) {
        GlobalNext::Done(op, end) => {
            assert_eq!(end, text.len());
            assert_eq!(op.get_symbol_name().as_str(), "h");
            assert_eq!(op.get_address_space(), 1);
            let region = op.with_initializer(Initializer::Region(Region { blocks: vec![] }));
            assert_eq!(region.regions.len(), 1);
        }
        GlobalNext::Initializer(..) => panic!("no initializer follows"),
    }
}

#[test]
fn regions_of_globals_print_behind_an_equals_sign() {
    let mut global = GlobalOp::new(name("g"), integer(32));
    assert_eq!(global.print("T", "\n", "[]", "", ""), "llvm.global @g : T\n[]");
    global.add_initializer_region();
    assert_eq!(
        global.print("T", "\n", "[]", "", "{r}"),
        "llvm.global @g : T\n[] = {r}"
    );
}

#[test]
fn addresses_are_of_functions_and_globals() {
    let mut op = AddressOfOp::new(name("f"), 3);
    assert!(op.verify().is_ok());
    assert!(same_type(&op.result, &Type::Pointer { address_space: 3 }));
    assert_eq!(op.get_global_name().as_str(), "f");
    assert_eq!(op.used_symbols()[0].as_str(), "f");
    let func = FuncOp::new(name("f"), binary());
    let global = GlobalOp::new(name("g"), integer(8));
    assert!(op.get_function(Some(Symbol::Func(&func))).is_some());
    assert!(op.get_function(Some(Symbol::Global(&global))).is_none());
    assert!(op.get_global(Some(Symbol::Global(&global))).is_some());
    assert!(op.get_global(None).is_none());
    assert!(op.verify_symbol_uses(Some(Symbol::Func(&func))).is_ok());
    assert!(op.verify_symbol_uses(Some(Symbol::Global(&global))).is_ok());
    assert_eq!(
        op.verify_symbol_uses(Some(Symbol::Other))
            .unwrap_err()
            .message("", ""),
        "AddressOf Op can only refer to a function or a global variable"
    );
    assert_eq!(
        op.verify_symbol_uses(None).unwrap_err().message("", ""),
        "Symbol f not found"
    );
    op.global_name = None;
    assert_eq!(
        op.verify().unwrap_err(),
        AddressOfVerifyErr::MissingGlobalName
    );
    op.result = integer(8);
    assert_eq!(
        op.verify().unwrap_err().message(),
        "AddressOfOp result must be a pointer"
    );
}

fn direct(args: Vec<Value>) -> CallOp {
    CallOp::new(CallOpCallable::Direct(name("callee")), binary(), args)
}

fn good_args() -> Vec<Value> {
    vec![value("x", integer(32)), value("p", ptr())]
}

#[test]
fn calls_check_their_arguments() {
    assert!(direct(good_args()).verify().is_ok());
    let error = direct(vec![value("x", integer(32))]).verify().unwrap_err();
    assert_eq!(
        error.message("", ""),
        "Function call has incorrect type: argument count mismatch."
    );
    let error = direct(vec![value("x", integer(32)), value("p", integer(64))])
        .verify()
        .unwrap_err();
    assert_eq!(
        error.message("ptr", "i64"),
        "Function call has incorrect type: argument 1 type mismatch: expected ptr, got i64"
    );
    let mut op = direct(good_args());
    op.result = ptr();
    assert_eq!(
        op.verify().unwrap_err().message("i32", "ptr"),
        "Function call has incorrect type: result type mismatch: expected i32, got ptr"
    );
    op.callee_type = integer(8);
    assert_eq!(
        op.verify().unwrap_err().message("", ""),
        "Function call has incorrect type: Callee is not a function"
    );
    // The type is looked at first, so a missing callee does not matter there.
    op.llvm_call_callee = None;
    op.operands.clear();
    assert_eq!(
        op.verify().unwrap_err().message("", ""),
        "Function call has incorrect type: Callee is not a function"
    );
}

#[test]
fn variadic_calls_take_more_arguments() {
    let ty = FuncType::get(integer(32), vec![ptr()], true);
    let op = CallOp::new(
        CallOpCallable::Direct(name("vprintf")),
        ty,
        vec![value("f", ptr()), value("x", integer(32))],
    );
    assert!(op.verify().is_ok());
}

#[test]
fn indirect_calls_begin_with_the_pointer() {
    let op = CallOp::new(
        CallOpCallable::Indirect(value("fp", ptr())),
        binary(),
        good_args(),
    );
    assert_eq!(op.operands.len(), 3);
    assert_eq!(op.args().len(), 2);
    assert!(matches!(op.callee(), CallOpCallable::Indirect(v) if v.name == "fp"));
    assert!(op.used_symbols().is_empty());
    assert!(op.verify().is_ok());
    assert!(op.verify_symbol_uses(None).is_ok());
    let bad = CallOp::new(
        CallOpCallable::Indirect(value("fp", integer(64))),
        binary(),
        good_args(),
    );
    assert_eq!(
        bad.verify_symbol_uses(None).unwrap_err().message("", ""),
        "Function call has incorrect type: Callee must be a pointer"
    );
}

#[test]
fn direct_calls_are_linked_to_functions() {
    let op = direct(good_args());
    assert_eq!(op.used_symbols()[0].as_str(), "callee");
    let func = FuncOp::new(name("callee"), binary());
    assert!(op.verify_symbol_uses(Some(Symbol::Func(&func))).is_ok());
    let wrong = FuncOp::new(name("callee"), FuncType::get(Type::Void, vec![], false));
    assert_eq!(
        op.verify_symbol_uses(Some(Symbol::Func(&wrong)))
            .unwrap_err()
            .message("F", "G"),
        "Function call has incorrect type: expected F, got G"
    );
    let global = GlobalOp::new(name("callee"), integer(8));
    assert_eq!(
        op.verify_symbol_uses(Some(Symbol::Global(&global)))
            .unwrap_err()
            .message("", ""),
        "Function callee should have been llvm.func type"
    );
    assert!(matches!(
        op.verify_symbol_uses(None).unwrap_err(),
        SymbolUserOpVerifyErr::SymbolNotFound(n) if n == "callee"
    ));
}

#[test]
fn calls_print_callee_flags_and_arguments() {
    let mut op = direct(good_args());
    assert_eq!(
        op.print("r", "<fast>", "T"),
        "r = llvm.call @callee (x, p) : T"
    );
    op.llvm_call_fastmath_flags = Some(FastmathFlags::default());
    assert_eq!(
        op.print("r", "<fast>", "T"),
        "r = llvm.call @callee (x, p) : T"
    );
    op.llvm_call_fastmath_flags = Some(FastmathFlags(1));
    assert_eq!(
        op.print("r", "<fast>", "T"),
        "r = llvm.call @callee <fast> (x, p) : T"
    );
    let op = CallOp::new(
        CallOpCallable::Indirect(value("fp", ptr())),
        FuncType::get(integer(32), vec![], false),
        vec![],
    );
    assert_eq!(op.print("r", "", "T"), "r = llvm.call fp () : T");
}

fn read_call(text: &[char], flags: usize) -> Option<(CallArguments, usize)> {
    let (header, at): (CallHeader, usize) = CallOp::parse(text, 0)?;
    header.with_flags(text, None, at + flags)
}

#[test]
fn printed_calls_read_back() {
    let op = direct(good_args());
    let text = chars(&op.print("r", "", "TYPE")["r = llvm.call".len()..]);
    let (read, at) = read_call(&text, 0).unwrap();
    assert!(matches!(&read.callee, CalleeName::Direct(n) if n.as_str() == "callee"));
    assert_eq!(read.names, ["x", "p"]);
    assert_eq!(text[at..], ['T', 'Y', 'P', 'E']);
    let again = read.finish(None, good_args(), binary());
    assert!(again.verify().is_ok());
    assert_eq!(again.print("r", "", "TYPE"), op.print("r", "", "TYPE"));

    let mut op = CallOp::new(
        CallOpCallable::Indirect(value("fp", ptr())),
        binary(),
        good_args(),
    );
    op.llvm_call_fastmath_flags = Some(FastmathFlags(1));
    let text = chars(&op.print("r", "<fast>", "T")["r = llvm.call".len()..]);
    let (header, at) = CallOp::parse(&text, 0).unwrap();
    assert_eq!(text[at], '<');
    let (read, at) = header
        .with_flags(&text, Some(FastmathFlags(1)), at + 6)
        .unwrap();
    assert!(matches!(&read.callee, CalleeName::Indirect(n) if n.as_str() == "fp"));
    assert_eq!(text[at..], ['T']);
    let again = read.finish(Some(value("fp", ptr())), good_args(), binary());
    assert_eq!(again.llvm_call_fastmath_flags, Some(FastmathFlags(1)));
    assert_eq!(again.args().len(), 2);
}

#[test]
fn calls_are_read_with_blanks_anywhere() {
    let text = chars("  @f   ( a ,b\t, c )\n :  T");
    let (read, at) = read_call(&text, 0).unwrap();
    assert_eq!(read.names, ["a", "b", "c"]);
    assert_eq!(text[at..], ['T']);
    let text = chars("f():T");
    assert!(read_call(&text, 0).unwrap().0.names.is_empty());
    for text in [
        "@", "@f", "@f (a", "@f (a,) : T", "@f (,a) : T", "@f (a b) : T", "@f a : T", "@f () T", "(a) : T",
    ] {
        assert!(read_call(&chars(text), 0).is_none(), "{text}");
    }
}

#[test]
fn intrinsics_are_checked_against_their_type() {
    let mut op = CallIntrinsicOp::new("llvm.fma.f32".to_string(), binary(), good_args());
    assert!(op.verify().is_ok());
    op.results.push(integer(8));
    assert_eq!(
        op.verify().unwrap_err(),
        CallIntrinsicVerifyErr::ResultsMismatch
    );
    op.operands.pop();
    assert_eq!(
        op.verify().unwrap_err(),
        CallIntrinsicVerifyErr::OperandsMismatch
    );
    op.llvm_intrinsic_type = Some(integer(8));
    assert_eq!(
        op.verify().unwrap_err(),
        CallIntrinsicVerifyErr::MissingIntrinsicTypeAttr
    );
    op.llvm_intrinsic_type = None;
    assert_eq!(
        op.verify().unwrap_err(),
        CallIntrinsicVerifyErr::MissingIntrinsicTypeAttr
    );
    op.llvm_intrinsic_name = None;
    assert_eq!(
        op.verify().unwrap_err().message(),
        "Missing or incorrect intrinsic name attribute"
    );
    let swapped = CallIntrinsicOp::new(
        "i".to_string(),
        binary(),
        vec![value("p", ptr()), value("x", integer(32))],
    );
    assert_eq!(
        swapped.verify().unwrap_err(),
        CallIntrinsicVerifyErr::OperandsMismatch
    );
}

#[test]
fn intrinsic_names_print_in_quotes() {
    let mut op = CallIntrinsicOp::new("llvm.fma.f32".to_string(), binary(), good_args());
    assert_eq!(
        op.print("r", "<fast>", "T"),
        "r = llvm.call_intrinsic @\"llvm.fma.f32\" (x, p) : T"
    );
    op.llvm_intrinsic_fastmath_flags = Some(FastmathFlags(2));
    assert_eq!(
        op.print("r", "<fast>", "T"),
        "r = llvm.call_intrinsic @\"llvm.fma.f32\"  <fast> (x, p) : T"
    );
    op.results.clear();
    op.llvm_intrinsic_fastmath_flags = None;
    op.llvm_intrinsic_name = Some("a\"b\n".to_string());
    assert_eq!(
        op.print("r", "", "T"),
        format!("llvm.call_intrinsic @{:?} (x, p) : T", "a\"b\n")
    );
    assert_eq!(
        op.print_quoted("'n'", "r", "", "T"),
        "llvm.call_intrinsic @'n' (x, p) : T"
    );
}

#[test]
fn printed_intrinsics_read_back() {
    let mut op = CallIntrinsicOp::new("llvm.x".to_string(), binary(), good_args());
    op.llvm_intrinsic_fastmath_flags = Some(FastmathFlags(2));
    let text = chars(&op.print("r", "<f>", "TY")["r = llvm.call_intrinsic".len()..]);
    let (header, at) = CallIntrinsicOp::parse(&text, 0).unwrap();
    assert_eq!(header.name, "llvm.x");
    assert_eq!(text[at..at + 3], ['<', 'f', '>']);
    let (read, at) = header
        .with_flags(&text, Some(FastmathFlags(2)), at + 3)
        .unwrap();
    assert_eq!(read.names, ["x", "p"]);
    assert_eq!(text[at..], ['T', 'Y']);
    let again = read.finish(good_args(), Type::Func(binary())).unwrap();
    assert!(again.verify().is_ok());
    assert_eq!(again.print("r", "<f>", "TY"), op.print("r", "<f>", "TY"));
    let (header, at) = IntrinsicHeader::with_name(&chars("()"), "n".to_string(), 0);
    assert!(header.with_flags(&chars("()"), None, at).is_none());
    assert!(CallIntrinsicOp::parse(&chars(" x"), 0).is_none());
}

#[test]
fn intrinsic_names_are_read_from_their_quotes() {
    let long = "n".repeat(300);
    for name in [
        "",
        "llvm.fma.f32",
        "a\"b\\c'd",
        "\0\t\r\n\u{1b}\u{7f}",
        "\u{301}e\u{301}",
        "\u{1f600}\u{200b}\u{feff}",
        &long,
    ] {
        let op = CallIntrinsicOp::new(name.to_string(), binary(), good_args());
        let text = chars(&op.print("r", "", "T")["r = llvm.call_intrinsic".len()..]);
        let (header, at) = CallIntrinsicOp::parse(&text, 0).unwrap();
        assert_eq!(header.name, name);
        let (read, at) = header.with_flags(&text, None, at).unwrap();
        assert_eq!(read.names, ["x", "p"]);
        assert_eq!(text[at..], ['T']);
    }
    // The rest of the text is left alone, quotes and all.
    let text = chars("x  @\"n\"  \"m\"");
    let (header, at) = CallIntrinsicOp::parse(&text, 1).unwrap();
    assert_eq!(header.name, "n");
    assert_eq!(text[at..], ['"', 'm', '"']);
    for text in ["@", "@n", "@ \"n\"", "@\"n", "@\"\\q\"", "@\"\\u{110000}\"", "\"n\""] {
        assert!(CallIntrinsicOp::parse(&chars(text), 0).is_none(), "{text}");
    }
}

#[test]
fn intrinsics_need_a_function_type() {
    let text = chars("() : T");
    let (header, at) = IntrinsicHeader::with_name(&text, "n".to_string(), 0);
    let (read, _) = header.with_flags(&text, None, at).unwrap();
    assert_eq!(
        read.finish(vec![], integer(8)).unwrap_err().message("builtin.integer i8"),
        "TypedHandle mismatch: expected llvm.func but provided builtin.integer i8"
    );
}

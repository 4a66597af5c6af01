//! Calls: of functions by name or through a pointer, and of intrinsics.

use crate::llvm::attributes::FastmathFlags;
use crate::llvm::dialect::Dialect;
use crate::llvm::identifier::{valid_identifier, Identifier};
use crate::llvm::ops::symbol::{Symbol, SymbolUserOpVerifyErr};
use crate::llvm::syntax::{
    after_blanks, lemma_identifier_bounds, lemma_read_identifier, lemma_read_operands, listed,
    name_views, parse_identifier, parse_mark, parse_operands, read_identifier, read_mark,
    read_operands, skip_blanks,
};
use crate::llvm::types::{
    lemma_members, models, same_type, FuncType, Type, TypeModel, TypeSort, TypedHandleErr,
};
use crate::llvm::value::{
    push_values, value_models, value_names, value_types, Value, ValueModel,
};
use crate::text::{
    chars_of, decimal, finishes_with, occurs_at, push_decimal, string_of, whitespace,
};
use pliron::printable::Printable;
use vstd::prelude::*;
use vstd::slice::slice_subrange;

verus! {

/// How a call does not fit the type of what it calls.
#[derive(Debug)]
pub enum CallTypeErr {
    /// The type of the callee is no function type.
    NotAFunction,
    /// The callee of an indirect call is no pointer.
    NotAPointer,
    /// The number of arguments is wrong.
    ArgumentCount,
    /// An argument has the wrong type.
    ArgumentType { index: usize, expected: Type, found: Type },
    /// The result has the wrong type.
    ResultType { expected: Type, found: Type },
    /// The function has another type than the call says.
    CalleeType { expected: Type, found: Type },
}

impl CallTypeErr {
    /// The text of the error, given how the two types of a mismatch print.
    pub open spec fn text(self, expected_text: Seq<char>, found_text: Seq<char>) -> Seq<char> {
        match self {
            CallTypeErr::NotAFunction => "Callee is not a function"@,
            CallTypeErr::NotAPointer => "Callee must be a pointer"@,
            CallTypeErr::ArgumentCount => "argument count mismatch."@,
            CallTypeErr::ArgumentType { index, .. } => {
                "argument "@ + decimal(index as nat) + " type mismatch: expected "@ + expected_text
                    + ", got "@ + found_text
            },
            CallTypeErr::ResultType { .. } => {
                "result type mismatch: expected "@ + expected_text + ", got "@ + found_text
            },
            CallTypeErr::CalleeType { .. } => {
                "expected "@ + expected_text + ", got "@ + found_text
            },
        }
    }

    /// The text of the error, given how the two types of a mismatch print.
    pub fn message(&self, expected_text: &str, found_text: &str) -> (message: String)
        ensures
            message@ == self.text(expected_text@, found_text@),
    {
        match self {
            CallTypeErr::NotAFunction => "Callee is not a function".to_owned(),
            CallTypeErr::NotAPointer => "Callee must be a pointer".to_owned(),
            CallTypeErr::ArgumentCount => "argument count mismatch.".to_owned(),
            CallTypeErr::ArgumentType { index, .. } => {
                let mut message = "argument ".to_owned();
                push_decimal(&mut message, *index as u64);
                message.append(" type mismatch: expected ");
                message.append(expected_text);
                message.append(", got ");
                message.append(found_text);
                message
            },
            CallTypeErr::ResultType { .. } => {
                let mut message = "result type mismatch: expected ".to_owned();
                message.append(expected_text);
                message.append(", got ");
                message.append(found_text);
                message
            },
            CallTypeErr::CalleeType { .. } => {
                let mut message = "expected ".to_owned();
                message.append(expected_text);
                message.append(", got ");
                message.append(found_text);
                message
            },
        }
    }
}

/// What is called: a function by its name, or whatever a pointer points to.
#[derive(Debug)]
pub enum CallOpCallable {
    Direct(Identifier),
    Indirect(Value),
}

/// A callee as a mathematical value.
pub enum CalleeModel {
    Direct(Seq<char>),
    Indirect(ValueModel),
}

impl View for CallOpCallable {
    type V = CalleeModel;

    open spec fn view(&self) -> CalleeModel {
        match self {
            CallOpCallable::Direct(name) => CalleeModel::Direct(name@),
            CallOpCallable::Indirect(value) => CalleeModel::Indirect(value@),
        }
    }
}

/// A direct or indirect call. The operands of an indirect call begin with the
/// pointer.
#[derive(Debug)]
pub struct CallOp {
    pub llvm_call_callee: Option<Identifier>,
    pub llvm_call_fastmath_flags: Option<FastmathFlags>,
    pub callee_type: Type,
    pub operands: Vec<Value>,
    pub result: Type,
}

/// The first `count` types of the two lists are the same.
pub open spec fn agree(left: Seq<TypeModel>, right: Seq<TypeModel>, count: int) -> bool {
    forall|k: int| 0 <= k < count ==> #[trigger] left[k] == #[trigger] right[k]
}

/// The number of positions that both lists have.
pub open spec fn common(left: Seq<TypeModel>, right: Seq<TypeModel>) -> int {
    if left.len() < right.len() {
        left.len() as int
    } else {
        right.len() as int
    }
}

impl CallOp {
    /// The call names a callee, or has an operand that is one.
    pub open spec fn has_callee(self) -> bool {
        self.llvm_call_callee is Some || self.operands@.len() > 0
    }

    /// What is called.
    pub open spec fn called(self) -> CalleeModel {
        match self.llvm_call_callee {
            Some(name) => CalleeModel::Direct(name@),
            None => CalleeModel::Indirect(self.operands@[0]@),
        }
    }

    /// The arguments of the call.
    pub open spec fn arguments(self) -> Seq<ValueModel> {
        value_models(
            if self.llvm_call_callee is Some {
                self.operands@
            } else {
                self.operands@.skip(1)
            },
        )
    }

    /// A call of `callee`, which has the type `callee_ty`.
    pub fn new(callee: CallOpCallable, callee_ty: FuncType, args: Vec<Value>) -> (op: CallOp)
        ensures
            op.has_callee(),
            op.called() == callee@,
            op.arguments() == value_models(args@),
            op.callee_type@ == callee_ty@,
            op.result@ == callee_ty.result@,
            op.llvm_call_fastmath_flags is None,
    {
        let result = callee_ty.result.duplicate();
        let callee_type = Type::Func(callee_ty);
        proof {
            lemma_members(callee_type);
        }
        match callee {
            CallOpCallable::Direct(name) => CallOp {
                llvm_call_callee: Some(name),
                llvm_call_fastmath_flags: None,
                callee_type,
                operands: args,
                result,
            },
            CallOpCallable::Indirect(pointer) => {
                let mut operands = args;
                let ghost before = operands@;
                operands.insert(0, pointer);
                proof {
                    assert(operands@.skip(1) =~= before);
                }
                CallOp {
                    llvm_call_callee: None,
                    llvm_call_fastmath_flags: None,
                    callee_type,
                    operands,
                    result,
                }
            },
        }
    }

    /// What is called.
    pub fn callee(&self) -> (callee: CallOpCallable)
        requires
            self.has_callee(),
        ensures
            callee@ == self.called(),
    {
        match &self.llvm_call_callee {
            Some(name) => CallOpCallable::Direct(name.duplicate()),
            None => CallOpCallable::Indirect(self.operands[0].duplicate()),
        }
    }

    /// The arguments of the call.
    pub fn args(&self) -> (args: &[Value])
        requires
            self.has_callee(),
        ensures
            value_models(args@) == self.arguments(),
    {
        if self.llvm_call_callee.is_some() {
            self.operands.as_slice()
        } else {
            let rest = slice_subrange(self.operands.as_slice(), 1, self.operands.len());
            proof {
                assert(rest@ =~= self.operands@.skip(1));
            }
            rest
        }
    }

    /// The names that the call uses.
    pub fn used_symbols(&self) -> (names: Vec<Identifier>)
        requires
            self.has_callee(),
        ensures
            match self.called() {
                CalleeModel::Direct(name) => names@.len() == 1 && names@[0]@ == name,
                CalleeModel::Indirect(_) => names@.len() == 0,
            },
    {
        let mut names: Vec<Identifier> = Vec::new();
        match &self.llvm_call_callee {
            Some(name) => {
                names.push(name.duplicate());
            },
            None => {},
        }
        names
    }

    /// What [`CallOp::verify_symbol_uses`] says.
    pub open spec fn linked(
        self,
        found: Option<Symbol<'_>>,
        verdict: Result<(), SymbolUserOpVerifyErr>,
    ) -> bool {
        match self.called() {
            CalleeModel::Direct(name) => match found {
                None => verdict matches Err(SymbolUserOpVerifyErr::SymbolNotFound(missing))
                    && missing@ == name,
                Some(Symbol::Func(func)) => if func.signature() == Some(self.callee_type@) {
                    verdict is Ok
                } else {
                    verdict matches Err(
                        SymbolUserOpVerifyErr::FuncTypeErr(
                            CallTypeErr::CalleeType { expected, found: got },
                        ),
                    ) && Some(expected@) == func.signature() && got@ == self.callee_type@
                },
                Some(_) => verdict matches Err(SymbolUserOpVerifyErr::NotLlvmFunc(other)) && other@
                    == name,
            },
            CalleeModel::Indirect(pointer) => if pointer.ty is Pointer {
                verdict is Ok
            } else {
                verdict == Err::<(), _>(
                    SymbolUserOpVerifyErr::FuncTypeErr(CallTypeErr::NotAPointer),
                )
            },
        }
    }

    /// Checks the callee, given what the nearest table holds under the name of
    /// a direct call: it has to be a function of the type that the call says.
    /// The callee of an indirect call has to be a pointer.
    pub fn verify_symbol_uses(&self, found: Option<Symbol<'_>>) -> (verdict: Result<
        (),
        SymbolUserOpVerifyErr,
    >)
        requires
            self.has_callee(),
            found matches Some(Symbol::Func(func)) ==> func.signature() is Some,
        ensures
            self.linked(found, verdict),
    {
        match &self.llvm_call_callee {
            Some(name) => match found {
                None => Err(SymbolUserOpVerifyErr::SymbolNotFound(name.as_str().to_owned())),
                Some(Symbol::Func(func)) => {
                    let expected = Type::Func(func.get_type().duplicate());
                    proof {
                        lemma_members(expected);
                    }
                    if same_type(&expected, &self.callee_type) {
                        Ok(())
                    } else {
                        Err(
                            SymbolUserOpVerifyErr::FuncTypeErr(
                                CallTypeErr::CalleeType {
                                    expected,
                                    found: self.callee_type.duplicate(),
                                },
                            ),
                        )
                    }
                },
                Some(_) => Err(SymbolUserOpVerifyErr::NotLlvmFunc(name.as_str().to_owned())),
            },
            None => match &self.operands[0].ty {
                Type::Pointer { .. } => Ok(()),
                _ => Err(SymbolUserOpVerifyErr::FuncTypeErr(CallTypeErr::NotAPointer)),
            },
        }
    }

    /// What [`CallOp::verify`] says.
    pub open spec fn judged(self, verdict: Result<(), SymbolUserOpVerifyErr>) -> bool {
        match self.callee_type@ {
            TypeModel::Func { result, args, var_arg } => {
                let given = value_types(self.arguments());
                if !var_arg && given.len() != args.len() {
                    verdict == Err::<(), _>(
                        SymbolUserOpVerifyErr::FuncTypeErr(CallTypeErr::ArgumentCount),
                    )
                } else if !agree(given, args, common(given, args)) {
                    verdict matches Err(
                        SymbolUserOpVerifyErr::FuncTypeErr(
                            CallTypeErr::ArgumentType { index, expected, found },
                        ),
                    ) && index < common(given, args) && agree(given, args, index as int)
                        && expected@ == args[index as int] && found@ == given[index as int]
                        && expected@ != found@
                } else if *result != self.result@ {
                    verdict matches Err(
                        SymbolUserOpVerifyErr::FuncTypeErr(
                            CallTypeErr::ResultType { expected, found },
                        ),
                    ) && expected@ == *result && found@ == self.result@
                } else {
                    verdict is Ok
                }
            },
            _ => verdict == Err::<(), _>(
                SymbolUserOpVerifyErr::FuncTypeErr(CallTypeErr::NotAFunction),
            ),
        }
    }

    /// Checks the arguments and the result against the type of the callee. A
    /// function of variable arity takes any number of arguments; only those
    /// that its type lists are checked.
    pub fn verify(&self) -> (verdict: Result<(), SymbolUserOpVerifyErr>)
        requires
            self.callee_type@ is Func ==> self.has_callee(),
        ensures
            self.judged(verdict),
    {
        proof {
            lemma_members(self.callee_type);
        }
        let callee_ty: &FuncType = match &self.callee_type {
            Type::Func(func) => func,
            _ => {
                return Err(SymbolUserOpVerifyErr::FuncTypeErr(CallTypeErr::NotAFunction));
            },
        };
        let args = self.args();
        let ghost given = value_types(self.arguments());
        let ghost expected_types = models(callee_ty.args@);
        if !callee_ty.var_arg && args.len() != callee_ty.args.len() {
            return Err(SymbolUserOpVerifyErr::FuncTypeErr(CallTypeErr::ArgumentCount));
        }
        let mut i: usize = 0;
        while i < args.len() && i < callee_ty.args.len()
            invariant
                i <= args.len(),
                i <= callee_ty.args.len(),
                value_models(args@) == self.arguments(),
                given == value_types(self.arguments()),
                expected_types == models(callee_ty.args@),
                self.callee_type@ == callee_ty@,
                !callee_ty.var_arg ==> args@.len() == callee_ty.args@.len(),
                agree(given, expected_types, i as int),
            decreases args.len() - i,
        {
            proof {
                assert(self.arguments()[i as int] == args@[i as int]@);
                assert(given[i as int] == args@[i as int].ty@);
                assert(expected_types[i as int] == callee_ty.args@[i as int]@);
            }
            if !same_type(&args[i].ty, &callee_ty.args[i]) {
                proof {
                    assert(!agree(given, expected_types, common(given, expected_types)));
                }
                return Err(
                    SymbolUserOpVerifyErr::FuncTypeErr(
                        CallTypeErr::ArgumentType {
                            index: i,
                            expected: callee_ty.args[i].duplicate(),
                            found: args[i].ty.duplicate(),
                        },
                    ),
                );
            }
            i += 1;
        }
        if !same_type(&callee_ty.result, &self.result) {
            return Err(
                SymbolUserOpVerifyErr::FuncTypeErr(
                    CallTypeErr::ResultType {
                        expected: callee_ty.result.duplicate(),
                        found: self.result.duplicate(),
                    },
                ),
            );
        }
        Ok(())
    }

    /// The flags that the call shows, if it has any.
    pub open spec fn shown_flags(self) -> bool {
        self.llvm_call_fastmath_flags matches Some(flags) && flags != FastmathFlags(0)
    }

    /// The text of the call, given the texts of its result, of its flags and of
    /// the type of the callee.
    pub fn print(&self, result_text: &str, flags_text: &str, type_text: &str) -> (text: String)
        requires
            self.has_callee(),
        ensures
            text@ == result_text@ + " = llvm.call "@ + call_text(
                callee_text(self.called()),
                if self.shown_flags() {
                    Some(flags_text@)
                } else {
                    None
                },
                value_names(self.arguments()),
                type_text@,
            ),
    {
        let mut text = result_text.to_owned();
        text.append(" = llvm.call ");
        let ghost start = text@;
        match &self.llvm_call_callee {
            Some(name) => {
                text.append("@");
                text.append(name.as_str());
            },
            None => {
                text.append(self.operands[0].name.as_str());
            },
        }
        proof {
            assert(text@ =~= start + callee_text(self.called()));
        }
        let shown = match self.llvm_call_fastmath_flags {
            Some(flags) => flags != FastmathFlags::default(),
            None => false,
        };
        if shown {
            text.append(" ");
            text.append(flags_text);
        }
        text.append(" ");
        push_values(&mut text, self.args());
        text.append(" : ");
        text.append(type_text);
        proof {
            assert(text@ =~= start + call_text(
                callee_text(self.called()),
                if self.shown_flags() {
                    Some(flags_text@)
                } else {
                    None
                },
                value_names(self.arguments()),
                type_text@,
            ));
        }
        text
    }

    /// Reads the callee of a call. Says where flags may begin.
    pub fn parse(text: &[char], at: usize) -> (read: Option<(CallHeader, usize)>)
        requires
            at <= text.len(),
        ensures
            match read_callee(text@, at as int) {
                Some((name, next)) => read matches Some(found) && found.0.callee@ == name && found.1
                    == next && found.1 <= text.len(),
                None => read is None,
            },
    {
        let start: usize = skip_blanks(text, at);
        let direct = parse_mark(text, start, '@');
        let begin: usize = match direct {
            Some(behind) => behind,
            None => start,
        };
        match parse_identifier(text, begin) {
            None => None,
            Some((name, end)) => {
                proof {
                    lemma_identifier_bounds(text@, begin as int);
                    assert(valid_identifier(name@));
                }
                match Identifier::try_new(name) {
                    Err(_) => None,
                    Ok(name) => {
                        let callee = if direct.is_some() {
                            CalleeName::Direct(name)
                        } else {
                            CalleeName::Indirect(name)
                        };
                        Some((CallHeader { callee }, skip_blanks(text, end)))
                    },
                }
            },
        }
    }
}

/// A call of which the callee was read.
#[derive(Debug)]
pub struct CallHeader {
    pub callee: CalleeName,
}

/// A call of which all but the type was read; the arguments by their names.
#[derive(Debug)]
pub struct CallArguments {
    pub callee: CalleeName,
    pub flags: Option<FastmathFlags>,
    pub names: Vec<String>,
}

impl CallHeader {
    /// Reads the arguments behind the flags, which ended at `end` if there are
    /// any. Says where the type is expected.
    pub fn with_flags(self, text: &[char], flags: Option<FastmathFlags>, end: usize) -> (read: Option<
        (CallArguments, usize),
    >)
        requires
            end <= text.len(),
        ensures
            match read_arguments(text@, end as int) {
                Some((names, next)) => read matches Some(found) && found.0.callee == self.callee
                    && found.0.flags == flags && name_views(found.0.names@) == names && found.1
                    == next && found.1 <= text.len(),
                None => read is None,
            },
    {
        match parse_arguments(text, end) {
            None => None,
            Some((names, next)) => Some(
                (CallArguments { callee: self.callee, flags, names }, next),
            ),
        }
    }
}

impl CallArguments {
    /// The call of the type that was read, with the values that the names of an
    /// indirect callee and of the arguments stand for.
    pub fn finish(self, pointer: Option<Value>, args: Vec<Value>, ty: FuncType) -> (op: CallOp)
        requires
            self.callee is Indirect ==> pointer is Some,
        ensures
            op.has_callee(),
            op.called() == match self.callee {
                CalleeName::Direct(name) => CalleeModel::Direct(name@),
                CalleeName::Indirect(_) => CalleeModel::Indirect(pointer->Some_0@),
            },
            op.arguments() == value_models(args@),
            op.callee_type@ == ty@,
            op.result@ == ty.result@,
            op.llvm_call_fastmath_flags == self.flags,
    {
        let callee = match self.callee {
            CalleeName::Direct(name) => CallOpCallable::Direct(name),
            CalleeName::Indirect(_) => match pointer {
                Some(value) => CallOpCallable::Indirect(value),
                None => vstd::pervasive::unreached(),
            },
        };
        let mut op = CallOp::new(callee, ty, args);
        op.llvm_call_fastmath_flags = self.flags;
        op
    }
}

/// Reads the arguments of a call. Says where the type begins.
fn parse_arguments(text: &[char], at: usize) -> (read: Option<(Vec<String>, usize)>)
    requires
        at <= text.len(),
    ensures
        match read_arguments(text@, at as int) {
            Some((names, next)) => read matches Some(found) && name_views(found.0@) == names
                && found.1 == next && found.1 <= text.len(),
            None => read is None,
        },
{
    match parse_operands(text, skip_blanks(text, at)) {
        None => None,
        Some((names, end)) => match parse_mark(text, skip_blanks(text, end), ':') {
            None => None,
            Some(behind) => Some((names, skip_blanks(text, behind))),
        },
    }
}

/// How a callee prints.
pub open spec fn callee_text(callee: CalleeModel) -> Seq<char> {
    match callee {
        CalleeModel::Direct(name) => "@"@ + name,
        CalleeModel::Indirect(value) => value.name,
    }
}

/// The text of a call behind the name of the operation.
pub open spec fn call_text(
    callee: Seq<char>,
    flags: Option<Seq<char>>,
    names: Seq<Seq<char>>,
    ty: Seq<char>,
) -> Seq<char> {
    callee + (match flags {
        Some(shown) => " "@ + shown,
        None => seq![],
    }) + " "@ + listed(names) + " : "@ + ty
}

/// A callee as it is written: the name of a function or of a value.
#[derive(Debug)]
pub enum CalleeName {
    Direct(Identifier),
    Indirect(Identifier),
}

/// A written callee as a mathematical value.
pub enum CalleeNameModel {
    Direct(Seq<char>),
    Indirect(Seq<char>),
}

impl View for CalleeName {
    type V = CalleeNameModel;

    open spec fn view(&self) -> CalleeNameModel {
        match self {
            CalleeName::Direct(name) => CalleeNameModel::Direct(name@),
            CalleeName::Indirect(name) => CalleeNameModel::Indirect(name@),
        }
    }
}

/// The callee at `at`, and where the blanks behind it end.
pub open spec fn read_callee(text: Seq<char>, at: int) -> Option<(CalleeNameModel, int)> {
    let start = after_blanks(text, at);
    match read_mark(text, start, '@') {
        Some(behind) => match read_identifier(text, behind) {
            Some((name, end)) => Some((CalleeNameModel::Direct(name), after_blanks(text, end))),
            None => None,
        },
        None => match read_identifier(text, start) {
            Some((name, end)) => Some((CalleeNameModel::Indirect(name), after_blanks(text, end))),
            None => None,
        },
    }
}

/// The names in `(a, b) :` at `at`, and where the blanks behind it end.
pub open spec fn read_arguments(text: Seq<char>, at: int) -> Option<(Seq<Seq<char>>, int)> {
    match read_operands(text, after_blanks(text, at)) {
        None => None,
        Some((names, end)) => match read_mark(text, after_blanks(text, end), ':') {
            None => None,
            Some(behind) => Some((names, after_blanks(text, behind))),
        },
    }
}

/// The name that a callee prints under.
pub open spec fn callee_name(callee: CalleeModel) -> CalleeNameModel {
    match callee {
        CalleeModel::Direct(name) => CalleeNameModel::Direct(name),
        CalleeModel::Indirect(value) => CalleeNameModel::Indirect(value.name),
    }
}

#[verifier::rlimit(50)]
proof fn lemma_read_arguments(text: Seq<char>, at: int, names: Seq<Seq<char>>, ty: Seq<char>)
    requires
        0 <= at <= text.len(),
        text.skip(at) == listed(names) + " : "@ + ty,
        forall|k: int| 0 <= k < names.len() ==> valid_identifier(#[trigger] names[k]),
        ty.len() > 0 ==> !whitespace(ty[0]),
    ensures
        read_arguments(text, at) == Some((names, at + listed(names).len() + 3)),
        at + listed(names).len() + 3 <= text.len(),
        text.skip(at + listed(names).len() + 3) == ty,
        at < text.len() && text[at] == '(',
{
    reveal_strlit(" : ");
    let list = listed(names);
    let tail = text.skip(at);
    assert(" : "@ =~= seq![' ', ':', ' ']);
    assert(tail =~= list + seq![' ', ':', ' '] + ty);
    assert(tail.len() == list.len() + 3 + ty.len());
    assert(text.subrange(at, at + list.len()) =~= tail.subrange(0, list.len() as int));
    assert(tail.subrange(0, list.len() as int) =~= list);
    lemma_read_operands(text, at, names);
    assert(after_blanks(text, at) == at);
    let close = at + list.len();
    let colon = seq![' ', ':', ' '];
    let n = list.len() as int;
    assert((list + colon + ty)[n] == colon[0]);
    assert((list + colon + ty)[n + 1] == colon[1]);
    assert((list + colon + ty)[n + 2] == colon[2]);
    assert(tail[n] == text[close]);
    assert(tail[n + 1] == text[close + 1]);
    assert(tail[n + 2] == text[close + 2]);
    assert(after_blanks(text, close) == after_blanks(text, close + 1));
    assert(after_blanks(text, close + 1) == close + 1);
    let next = close + 3;
    assert(after_blanks(text, close + 2) == after_blanks(text, next));
    assert(text.skip(next) =~= tail.skip(3 + list.len() as int));
    assert(tail.skip(3 + list.len() as int) =~= ty);
    if ty.len() > 0 {
        assert(text[next] == text.skip(next)[0]);
    }
    assert(after_blanks(text, next) == next);
}

#[verifier::rlimit(50)]
proof fn lemma_read_callee(text: Seq<char>, callee: CalleeModel)
    requires
        occurs_at(text, 0, callee_text(callee)),
        valid_identifier(
            match callee {
                CalleeModel::Direct(name) => name,
                CalleeModel::Indirect(value) => value.name,
            },
        ),
        callee_text(callee).len() + 1 < text.len(),
        text[callee_text(callee).len() as int] == ' ',
        !whitespace(text[1 + callee_text(callee).len() as int]),
    ensures
        read_callee(text, 0) == Some((callee_name(callee), 1 + callee_text(callee).len() as int)),
{
    reveal_strlit("@");
    let head = callee_text(callee);
    let end = head.len() as int;
    assert(text.subrange(0, end) == head);
    match callee {
        CalleeModel::Direct(name) => {
            assert(text.subrange(0, end)[0] == text[0]);
            assert(head[0] == "@"@[0]);
            assert(text.subrange(1, end) =~= head.subrange(1, end));
            assert(head.subrange(1, end) =~= name);
            lemma_read_identifier(text, 1, name);
        },
        CalleeModel::Indirect(value) => {
            lemma_read_identifier(text, 0, value.name);
            assert(text[0] == head[0]);
        },
    }
    assert(after_blanks(text, 0) == 0);
    assert(after_blanks(text, end) == after_blanks(text, end + 1));
    assert(after_blanks(text, end + 1) == end + 1);
}

#[verifier::rlimit(50)]
proof fn lemma_call_shape(head: Seq<char>, mid: Seq<char>, list: Seq<char>, ty: Seq<char>)
    ensures
        ({
            let text = head + mid + " "@ + list + " : "@ + ty;
            let open = head.len() + mid.len() + 1;
            &&& open <= text.len()
            &&& text.subrange(0, head.len() as int) == head
            &&& text.subrange(head.len() as int, open - 1) == mid
            &&& text[open - 1] == ' '
            &&& text.skip(open as int) == list + " : "@ + ty
        }),
{
    reveal_strlit(" ");
    let text = head + mid + " "@ + list + " : "@ + ty;
    let open = head.len() + mid.len() + 1;
    assert(text.subrange(0, head.len() as int) =~= head);
    assert(text.subrange(head.len() as int, open - 1) =~= mid);
    assert(text.skip(open as int) =~= list + " : "@ + ty);
}

/// What a call prints is read back: the callee, then the flags at the place
/// where reading the callee ended, then the arguments behind the flags, then
/// the type.
#[verifier::rlimit(50)]
pub proof fn calls_read_back(
    callee: CalleeModel,
    flags: Option<Seq<char>>,
    names: Seq<Seq<char>>,
    ty: Seq<char>,
)
    requires
        match callee {
            CalleeModel::Direct(name) => valid_identifier(name),
            CalleeModel::Indirect(value) => valid_identifier(value.name),
        },
        forall|k: int| 0 <= k < names.len() ==> valid_identifier(#[trigger] names[k]),
        flags matches Some(shown) ==> shown.len() > 0 && !whitespace(shown[0]),
        ty.len() > 0 ==> !whitespace(ty[0]),
    ensures
        ({
            let text = call_text(callee_text(callee), flags, names, ty);
            let at = 1 + callee_text(callee).len() as int;
            let shown = match flags {
                Some(shown) => shown,
                None => seq![],
            };
            let last = text.len() - ty.len();
            &&& read_callee(text, 0) == Some((callee_name(callee), at))
            &&& occurs_at(text, at, shown)
            &&& read_arguments(text, at + shown.len()) == Some((names, last))
            &&& text.skip(last) == ty
        }),
{
    reveal_strlit(" ");
    let head = callee_text(callee);
    let mid = match flags {
        Some(shown) => " "@ + shown,
        None => seq![],
    };
    let text = call_text(head, flags, names, ty);
    let end = head.len() as int;
    let open = end + mid.len() + 1;
    lemma_call_shape(head, mid, listed(names), ty);
    assert(text == head + mid + " "@ + listed(names) + " : "@ + ty);
    lemma_read_arguments(text, open, names, ty);
    assert(text.skip(open).len() == text.len() - open);
    assert((listed(names) + " : "@ + ty).len() == listed(names).len() + " : "@.len() + ty.len());
    reveal_strlit(" : ");
    assert(after_blanks(text, open - 1) == after_blanks(text, open));
    assert(after_blanks(text, open) == open);
    match flags {
        Some(shown) => {
            assert(text[end] == text.subrange(end, open - 1)[0]);
            assert(mid[0] == ' ' && mid[1] == shown[0]);
            assert(text[end + 1] == text.subrange(end, open - 1)[1]);
            assert(text.subrange(end + 1, open - 1) =~= text.subrange(end, open - 1).skip(1));
            assert(mid.skip(1) =~= shown);
        },
        None => {
            assert(text.subrange(end + 1, end + 1) =~= seq![]);
        },
    }
    lemma_read_callee(text, callee);
}

/// What is wrong with a [`CallIntrinsicOp`].
#[derive(Clone, Copy, Debug, PartialEq, Eq, Structural)]
pub enum CallIntrinsicVerifyErr {
    MissingIntrinsicNameAttr,
    MissingIntrinsicTypeAttr,
    OperandsMismatch,
    ResultsMismatch,
    UnknownIntrinsicName,
}

impl CallIntrinsicVerifyErr {
    /// The text of the error.
    pub open spec fn text(self) -> Seq<char> {
        match self {
            CallIntrinsicVerifyErr::MissingIntrinsicNameAttr => {
                "Missing or incorrect intrinsic name attribute"@
            },
            CallIntrinsicVerifyErr::MissingIntrinsicTypeAttr => {
                "Missing or incorrect intrinsic type attribute"@
            },
            CallIntrinsicVerifyErr::OperandsMismatch => {
                "Number or types of operands does not match intrinsic type"@
            },
            CallIntrinsicVerifyErr::ResultsMismatch => {
                "Number or types of results does not match intrinsic type"@
            },
            CallIntrinsicVerifyErr::UnknownIntrinsicName => {
                "Intrinsic name does not correspond to a known LLVM intrinsic"@
            },
        }
    }

    /// The text of the error.
    pub fn message(&self) -> (message: &'static str)
        ensures
            message@ == self.text(),
    {
        match self {
            CallIntrinsicVerifyErr::MissingIntrinsicNameAttr => {
                "Missing or incorrect intrinsic name attribute"
            },
            CallIntrinsicVerifyErr::MissingIntrinsicTypeAttr => {
                "Missing or incorrect intrinsic type attribute"
            },
            CallIntrinsicVerifyErr::OperandsMismatch => {
                "Number or types of operands does not match intrinsic type"
            },
            CallIntrinsicVerifyErr::ResultsMismatch => {
                "Number or types of results does not match intrinsic type"
            },
            CallIntrinsicVerifyErr::UnknownIntrinsicName => {
                "Intrinsic name does not correspond to a known LLVM intrinsic"
            },
        }
    }
}

/// The text that `pliron::irfmt::printers::quoted` prints of a text.
pub uninterp spec fn quoted_text(text: Seq<char>) -> Seq<char>;

/// What `pliron::irfmt::parsers::quoted_string_parser` reads at the beginning of
/// a text, and what it leaves of the text; `None` where it finds no quoted
/// string.
pub uninterp spec fn quoted_reading(text: Seq<char>) -> Option<(Seq<char>, Seq<char>)>;

/// Prints `pliron::irfmt::printers::quoted` of the text: the text in double
/// quotes, with the escapes of Rust's `Debug`. What is printed depends on the
/// text alone. `pliron::irfmt::parsers::quoted_string_parser` is its mirror: it
/// takes back each of those escapes and stops behind the closing quote, so from
/// what is printed, whatever follows, it reads the text.
#[verifier::external_body]
fn quoted(text: &str) -> (shown: String)
    ensures
        shown@ == quoted_text(text@),
        forall|rest: Seq<char>| #[trigger]
            quoted_reading(shown@ + rest) == Some((text@, rest)),
{
    let ctx = pliron::context::Context::new();
    let printed = pliron::irfmt::printers::quoted(text);
    let shown = printed.disp(&ctx).to_string();
    shown
}

/// Runs `pliron::irfmt::parsers::quoted_string_parser` on the text. What it
/// reads depends on the text alone. Returns the string that was read and the
/// characters that the parser left, which end the text, or `None` where the
/// parser fails.
#[verifier::external_body]
fn read_quoted(text: &str) -> (read: Option<(String, String)>)
    ensures
        match read {
            Some(found) => {
                &&& quoted_reading(text@) == Some((found.0@, found.1@))
                &&& finishes_with(text@, found.1@)
            },
            None => quoted_reading(text@) is None,
        },
{
    let mut ctx = pliron::context::Context::new();
    let parser = pliron::combine::Parser::and(
        pliron::irfmt::parsers::quoted_string_parser(),
        pliron::combine::many::<String, _, _>(pliron::combine::any()),
    );
    match pliron::parsable::parse_from_str(parser, &mut ctx, text) {
        Ok(found) => Some(found),
        Err(_) => None,
    }
}

/// A call of an LLVM intrinsic.
#[derive(Debug)]
pub struct CallIntrinsicOp {
    pub llvm_intrinsic_name: Option<String>,
    pub llvm_intrinsic_type: Option<Type>,
    pub llvm_intrinsic_fastmath_flags: Option<FastmathFlags>,
    pub operands: Vec<Value>,
    pub results: Vec<Type>,
}

impl CallIntrinsicOp {
    /// A call of the intrinsic `intrinsic_name`.
    pub fn new(
        intrinsic_name: String,
        intrinsic_type: FuncType,
        operands: Vec<Value>,
    ) -> (op: CallIntrinsicOp)
        ensures
            op.llvm_intrinsic_name matches Some(name) && name@ == intrinsic_name@,
            op.llvm_intrinsic_type matches Some(ty) && ty@ == intrinsic_type@,
            op.llvm_intrinsic_fastmath_flags is None,
            op.operands == operands,
            op.results@.len() == 1,
            op.results@[0]@ == intrinsic_type.result@,
    {
        let mut results: Vec<Type> = Vec::new();
        results.push(intrinsic_type.result.duplicate());
        let ty = Type::Func(intrinsic_type);
        proof {
            lemma_members(ty);
        }
        CallIntrinsicOp {
            llvm_intrinsic_name: Some(intrinsic_name),
            llvm_intrinsic_type: Some(ty),
            llvm_intrinsic_fastmath_flags: None,
            operands,
            results,
        }
    }

    /// What [`CallIntrinsicOp::verify`] says.
    pub open spec fn judged(self) -> Result<(), CallIntrinsicVerifyErr> {
        if self.llvm_intrinsic_name is None {
            Err(CallIntrinsicVerifyErr::MissingIntrinsicNameAttr)
        } else if self.llvm_intrinsic_type is None {
            Err(CallIntrinsicVerifyErr::MissingIntrinsicTypeAttr)
        } else {
            match self.llvm_intrinsic_type->Some_0@ {
                TypeModel::Func { result, args, .. } => {
                    if value_types(value_models(self.operands@)) != args {
                        Err(CallIntrinsicVerifyErr::OperandsMismatch)
                    } else if models(self.results@) != seq![*result] {
                        Err(CallIntrinsicVerifyErr::ResultsMismatch)
                    } else {
                        Ok(())
                    }
                },
                _ => Err(CallIntrinsicVerifyErr::MissingIntrinsicTypeAttr),
            }
        }
    }

    /// Checks that name and type are there, and that the operands and the one
    /// result fit the type.
    pub fn verify(&self) -> (verdict: Result<(), CallIntrinsicVerifyErr>)
        ensures
            verdict == self.judged(),
    {
        if self.llvm_intrinsic_name.is_none() {
            return Err(CallIntrinsicVerifyErr::MissingIntrinsicNameAttr);
        }
        let ty: &FuncType = match &self.llvm_intrinsic_type {
            Some(Type::Func(func)) => func,
            _ => {
                proof {
                    if self.llvm_intrinsic_type is Some {
                        lemma_members(self.llvm_intrinsic_type->Some_0);
                    }
                }
                return Err(CallIntrinsicVerifyErr::MissingIntrinsicTypeAttr);
            },
        };
        proof {
            lemma_members(self.llvm_intrinsic_type->Some_0);
        }
        let ghost given = value_types(value_models(self.operands@));
        let ghost expected = models(ty.args@);
        if self.operands.len() != ty.args.len() {
            proof {
                assert(given.len() != expected.len());
            }
            return Err(CallIntrinsicVerifyErr::OperandsMismatch);
        }
        let mut i: usize = 0;
        while i < self.operands.len()
            invariant
                i <= self.operands.len(),
                self.operands.len() == ty.args.len(),
                self.llvm_intrinsic_name is Some,
                self.llvm_intrinsic_type matches Some(whole) && whole@ == ty@,
                given == value_types(value_models(self.operands@)),
                expected == models(ty.args@),
                forall|k: int| 0 <= k < i ==> #[trigger] given[k] == expected[k],
            decreases self.operands.len() - i,
        {
            proof {
                assert(given[i as int] == self.operands@[i as int].ty@);
                assert(expected[i as int] == ty.args@[i as int]@);
            }
            if !same_type(&self.operands[i].ty, &ty.args[i]) {
                return Err(CallIntrinsicVerifyErr::OperandsMismatch);
            }
            i += 1;
        }
        proof {
            assert(given =~= expected);
        }
        if self.results.len() == 1 && same_type(&self.results[0], &ty.result) {
            proof {
                assert(models(self.results@) =~= seq![ty.result@]);
            }
            Ok(())
        } else {
            proof {
                if models(self.results@) == seq![ty.result@] {
                    assert(models(self.results@).len() == 1);
                    assert(models(self.results@)[0] == self.results@[0]@);
                    assert(seq![ty.result@][0] == ty.result@);
                }
            }
            Err(CallIntrinsicVerifyErr::ResultsMismatch)
        }
    }

    /// The flags that the call shows, if it has any.
    pub open spec fn shown_flags(self) -> bool {
        self.llvm_intrinsic_fastmath_flags matches Some(flags) && flags != FastmathFlags(0)
    }

    /// The flags' text, if the call shows flags.
    pub open spec fn shown_flags_text(self, flags_text: Seq<char>) -> Option<Seq<char>> {
        if self.shown_flags() {
            Some(flags_text)
        } else {
            None
        }
    }

    /// The text of the call, given the texts of its result, of its flags and of
    /// its type. The name of the intrinsic is printed in quotes, and what is
    /// printed behind the name of the operation is read back to its parts.
    pub fn print(&self, result_text: &str, flags_text: &str, type_text: &str) -> (text: String)
        requires
            self.llvm_intrinsic_name is Some,
            self.llvm_intrinsic_type is Some,
        ensures
            text@ == self.shown(
                quoted_text(self.llvm_intrinsic_name->Some_0@),
                result_text@,
                flags_text@,
                type_text@,
            ),
            readable(
                self.shown_flags_text(flags_text@),
                value_names(value_models(self.operands@)),
                type_text@,
            ) ==> reads_back(
                intrinsic_text(
                    quoted_text(self.llvm_intrinsic_name->Some_0@),
                    self.shown_flags_text(flags_text@),
                    value_names(value_models(self.operands@)),
                    type_text@,
                ),
                self.llvm_intrinsic_name->Some_0@,
                self.shown_flags_text(flags_text@),
                value_names(value_models(self.operands@)),
                type_text@,
            ),
    {
        let name = match &self.llvm_intrinsic_name {
            Some(name) => quoted(name.as_str()),
            None => vstd::pervasive::unreached(),
        };
        proof {
            let flags = self.shown_flags_text(flags_text@);
            let names = value_names(value_models(self.operands@));
            if readable(flags, names, type_text@) {
                intrinsics_read_back(
                    self.llvm_intrinsic_name->Some_0@,
                    name@,
                    flags,
                    names,
                    type_text@,
                );
            }
        }
        self.print_quoted(name.as_str(), result_text, flags_text, type_text)
    }

    /// What the call prints, with `name` for the quoted name.
    pub open spec fn shown(
        self,
        name: Seq<char>,
        result_text: Seq<char>,
        flags_text: Seq<char>,
        type_text: Seq<char>,
    ) -> Seq<char> {
        (if self.results@.len() > 0 {
            result_text + " = "@
        } else {
            seq![]
        }) + "llvm.call_intrinsic @"@ + name + " "@ + (if self.shown_flags() {
            " "@ + flags_text + " "@
        } else {
            seq![]
        }) + listed(value_names(value_models(self.operands@))) + " : "@ + type_text
    }

    /// The text of the call, with `name` for the quoted name.
    pub fn print_quoted(
        &self,
        name: &str,
        result_text: &str,
        flags_text: &str,
        type_text: &str,
    ) -> (text: String)
        ensures
            text@ == self.shown(name@, result_text@, flags_text@, type_text@),
    {
        let mut text = String::new();
        if self.results.len() > 0 {
            text.append(result_text);
            text.append(" = ");
        }
        text.append("llvm.call_intrinsic @");
        text.append(name);
        text.append(" ");
        let shown = match self.llvm_intrinsic_fastmath_flags {
            Some(flags) => flags != FastmathFlags::default(),
            None => false,
        };
        if shown {
            text.append(" ");
            text.append(flags_text);
            text.append(" ");
        }
        push_values(&mut text, self.operands.as_slice());
        text.append(" : ");
        text.append(type_text);
        proof {
            assert(text@ =~= self.shown(name@, result_text@, flags_text@, type_text@));
        }
        text
    }

    /// Where the quoted name begins behind the `@`.
    pub open spec fn name_at(text: Seq<char>, at: int) -> Option<int> {
        read_mark(text, after_blanks(text, at), '@')
    }

    /// The name of the intrinsic in quotes behind the `@`, and where the closing
    /// quote ends.
    pub open spec fn read_name(text: Seq<char>, at: int) -> Option<(Seq<char>, int)> {
        match Self::name_at(text, at) {
            None => None,
            Some(begin) => match quoted_reading(text.skip(begin)) {
                None => None,
                Some((name, rest)) => Some((name, text.len() - rest.len())),
            },
        }
    }

    /// Reads the quoted name behind the `@`. Says where flags may begin.
    pub fn parse(text: &[char], at: usize) -> (read: Option<(IntrinsicHeader, usize)>)
        requires
            at <= text.len(),
        ensures
            match Self::read_name(text@, at as int) {
                Some((name, end)) => read matches Some(found) && found.0.name@ == name && found.1
                    == after_blanks(text@, end) && found.1 <= text.len(),
                None => read is None,
            },
    {
        let begin: usize = match parse_mark(text, skip_blanks(text, at), '@') {
            None => {
                return None;
            },
            Some(begin) => begin,
        };
        let behind = slice_subrange(text, begin, text.len());
        proof {
            assert(behind@ =~= text@.skip(begin as int));
        }
        match read_quoted(string_of(behind).as_str()) {
            None => None,
            Some((name, rest)) => {
                let end: usize = text.len() - chars_of(rest.as_str()).len();
                Some(IntrinsicHeader::with_name(text, name, end))
            },
        }
    }
}

/// A call of an intrinsic of which the name was read.
#[derive(Debug)]
pub struct IntrinsicHeader {
    pub name: String,
}

/// A call of an intrinsic of which all but the type was read; the operands by
/// their names.
#[derive(Debug)]
pub struct IntrinsicArguments {
    pub name: String,
    pub flags: Option<FastmathFlags>,
    pub names: Vec<String>,
}

impl IntrinsicHeader {
    /// Goes on behind the name, which ended at `end`. Says where flags may
    /// begin.
    pub fn with_name(text: &[char], name: String, end: usize) -> (read: (IntrinsicHeader, usize))
        requires
            end <= text.len(),
        ensures
            read.0.name == name,
            read.1 == after_blanks(text@, end as int),
            read.1 <= text.len(),
    {
        (IntrinsicHeader { name }, skip_blanks(text, end))
    }

    /// Reads the operands behind the flags, which ended at `end` if there are
    /// any. Says where the type is expected.
    pub fn with_flags(self, text: &[char], flags: Option<FastmathFlags>, end: usize) -> (read: Option<
        (IntrinsicArguments, usize),
    >)
        requires
            end <= text.len(),
        ensures
            match read_arguments(text@, end as int) {
                Some((names, next)) => read matches Some(found) && found.0.name == self.name
                    && found.0.flags == flags && name_views(found.0.names@) == names && found.1
                    == next && found.1 <= text.len(),
                None => read is None,
            },
    {
        match parse_arguments(text, end) {
            None => None,
            Some((names, next)) => Some(
                (IntrinsicArguments { name: self.name, flags, names }, next),
            ),
        }
    }
}

impl IntrinsicArguments {
    /// The call of the type that was read, if that is a function type, with the
    /// values that the names of the operands stand for.
    pub fn finish(self, operands: Vec<Value>, ty: Type) -> (made: Result<
        CallIntrinsicOp,
        TypedHandleErr,
    >)
        ensures
            match ty {
                Type::Func(func) => made matches Ok(op) && (op.llvm_intrinsic_name matches Some(
                    kept,
                ) && kept@ == self.name@) && (op.llvm_intrinsic_type matches Some(whole) && whole@
                    == func@) && op.llvm_intrinsic_fastmath_flags == self.flags && op.operands
                    == operands && models(op.results@) == seq![func.result@],
                _ => made matches Err(err) && err.expected == TypeSort::Func && err.provided@
                    == ty@,
            },
    {
        match ty {
            Type::Func(func) => {
                let mut op = CallIntrinsicOp::new(self.name, func, operands);
                op.llvm_intrinsic_fastmath_flags = self.flags;
                proof {
                    assert(models(op.results@) =~= seq![func.result@]);
                }
                Ok(op)
            },
            _ => Err(TypedHandleErr { expected: TypeSort::Func, provided: ty }),
        }
    }
}

/// The text of a call of an intrinsic behind the name of the operation.
pub open spec fn intrinsic_text(
    name: Seq<char>,
    flags: Option<Seq<char>>,
    names: Seq<Seq<char>>,
    ty: Seq<char>,
) -> Seq<char> {
    "@"@ + name + " "@ + (match flags {
        Some(shown) => " "@ + shown + " "@,
        None => seq![],
    }) + listed(names) + " : "@ + ty
}

/// Blanks can be told apart from the flags and the type, and the operands have
/// names that can be read.
pub open spec fn readable(
    flags: Option<Seq<char>>,
    names: Seq<Seq<char>>,
    ty: Seq<char>,
) -> bool {
    &&& forall|k: int| 0 <= k < names.len() ==> valid_identifier(#[trigger] names[k])
    &&& flags matches Some(shown) ==> shown.len() > 0 && !whitespace(shown[0])
    &&& ty.len() > 0 ==> !whitespace(ty[0])
}

/// From `text` are read, one behind the other: the name of the intrinsic, the
/// text of the flags, the names of the operands, and the text of the type.
pub open spec fn reads_back(
    text: Seq<char>,
    name: Seq<char>,
    flags: Option<Seq<char>>,
    names: Seq<Seq<char>>,
    ty: Seq<char>,
) -> bool {
    match CallIntrinsicOp::read_name(text, 0) {
        None => false,
        Some((read, end)) => {
            let at = after_blanks(text, end);
            let shown = match flags {
                Some(shown) => shown,
                None => seq![],
            };
            let last = text.len() - ty.len();
            &&& read == name
            &&& occurs_at(text, at, shown)
            &&& read_arguments(text, at + shown.len()) == Some((names, last))
            &&& text.skip(last) == ty
        },
    }
}

/// What a call of an intrinsic prints is its result, the name of the operation
/// and [`intrinsic_text`].
#[verifier::rlimit(50)]
pub proof fn intrinsics_print_their_text(
    op: CallIntrinsicOp,
    name: Seq<char>,
    result_text: Seq<char>,
    flags_text: Seq<char>,
    type_text: Seq<char>,
)
    ensures
        op.shown(name, result_text, flags_text, type_text) == (if op.results@.len() > 0 {
            result_text + " = "@
        } else {
            seq![]
        }) + "llvm.call_intrinsic "@ + intrinsic_text(
            name,
            op.shown_flags_text(flags_text),
            value_names(value_models(op.operands@)),
            type_text,
        ),
{
    reveal_strlit("@");
    reveal_strlit("llvm.call_intrinsic @");
    reveal_strlit("llvm.call_intrinsic ");
    assert("llvm.call_intrinsic @"@ =~= "llvm.call_intrinsic "@ + "@"@);
    let front = if op.results@.len() > 0 {
        result_text + " = "@
    } else {
        seq![]
    };
    assert(op.shown(name, result_text, flags_text, type_text) =~= front + "llvm.call_intrinsic "@
        + intrinsic_text(
        name,
        op.shown_flags_text(flags_text),
        value_names(value_models(op.operands@)),
        type_text,
    ));
}

proof fn lemma_intrinsic_shape(name: Seq<char>, mid: Seq<char>, tail: Seq<char>)
    ensures
        ({
            let text = "@"@ + name + " "@ + mid + tail;
            let end = 1 + name.len() as int;
            let open = end + 1 + mid.len();
            &&& open <= text.len()
            &&& text[0] == '@'
            &&& text.subrange(1, end) == name
            &&& text[end] == ' '
            &&& text.subrange(end + 1, open) == mid
            &&& text.skip(open) == tail
        }),
{
    reveal_strlit("@");
    reveal_strlit(" ");
    let text = "@"@ + name + " "@ + mid + tail;
    let end = 1 + name.len() as int;
    let open = end + 1 + mid.len();
    assert(text.subrange(1, end) =~= name);
    assert(text.subrange(end + 1, open) =~= mid);
    assert(text.skip(open) =~= tail);
}

/// What a call of an intrinsic prints behind the name of the operation is read
/// back: the name of the intrinsic from the quotes behind the `@`, then the flags
/// behind the blanks, then the operands, then the type. `quoted` is a text from
/// which the name is read whatever follows, as it is from the quoted name that
/// [`CallIntrinsicOp::print`] prints.
#[verifier::rlimit(50)]
pub proof fn intrinsics_read_back(
    name: Seq<char>,
    quoted: Seq<char>,
    flags: Option<Seq<char>>,
    names: Seq<Seq<char>>,
    ty: Seq<char>,
)
    requires
        forall|rest: Seq<char>| #[trigger] quoted_reading(quoted + rest) == Some((name, rest)),
        readable(flags, names, ty),
    ensures
        reads_back(intrinsic_text(quoted, flags, names, ty), name, flags, names, ty),
{
    match flags {
        Some(shown) => lemma_flagged_text_reads_back(name, quoted, shown, names, ty),
        None => lemma_bare_text_reads_back(name, quoted, names, ty),
    }
}

proof fn lemma_name_reads_back(text: Seq<char>, name: Seq<char>, quoted: Seq<char>)
    requires
        1 + quoted.len() <= text.len(),
        CallIntrinsicOp::name_at(text, 0) == Some(1int),
        text.subrange(1, 1 + quoted.len() as int) == quoted,
        forall|rest: Seq<char>| #[trigger] quoted_reading(quoted + rest) == Some((name, rest)),
    ensures
        CallIntrinsicOp::read_name(text, 0) == Some((name, 1 + quoted.len() as int)),
{
    let end = 1 + quoted.len() as int;
    assert(text.skip(1) =~= quoted + text.skip(end));
}

#[verifier::rlimit(40)]
proof fn lemma_flagged_text_reads_back(
    name: Seq<char>,
    quoted: Seq<char>,
    shown: Seq<char>,
    names: Seq<Seq<char>>,
    ty: Seq<char>,
)
    requires
        forall|rest: Seq<char>| #[trigger] quoted_reading(quoted + rest) == Some((name, rest)),
        readable(Some(shown), names, ty),
    ensures
        reads_back(intrinsic_text(quoted, Some(shown), names, ty), name, Some(shown), names, ty),
{
    let text = intrinsic_text(quoted, Some(shown), names, ty);
    let mid = " "@ + shown + " "@;
    let tail = listed(names) + " : "@ + ty;
    assert(text == "@"@ + quoted + " "@ + mid + tail) by {
        lemma_regroup("@"@ + quoted + " "@ + mid, listed(names), " : "@, ty);
    }
    lemma_intrinsic_shape(quoted, mid, tail);
    lemma_between_blanks(shown);
    lemma_intrinsic_with_flags(text, quoted, shown, names, ty);
    lemma_name_reads_back(text, name, quoted);
}

#[verifier::rlimit(40)]
proof fn lemma_bare_text_reads_back(
    name: Seq<char>,
    quoted: Seq<char>,
    names: Seq<Seq<char>>,
    ty: Seq<char>,
)
    requires
        forall|rest: Seq<char>| #[trigger] quoted_reading(quoted + rest) == Some((name, rest)),
        readable(None, names, ty),
    ensures
        reads_back(intrinsic_text(quoted, None, names, ty), name, None, names, ty),
{
    let text = intrinsic_text(quoted, None, names, ty);
    let mid = Seq::<char>::empty();
    let tail = listed(names) + " : "@ + ty;
    assert(text == "@"@ + quoted + " "@ + mid + tail) by {
        lemma_regroup("@"@ + quoted + " "@ + mid, listed(names), " : "@, ty);
    }
    lemma_intrinsic_shape(quoted, mid, tail);
    lemma_intrinsic_without_flags(text, quoted, names, ty);
    lemma_name_reads_back(text, name, quoted);
}

proof fn lemma_regroup(first: Seq<char>, second: Seq<char>, third: Seq<char>, fourth: Seq<char>)
    ensures
        first + second + third + fourth == first + (second + third + fourth),
{
    assert(first + second + third + fourth =~= first + (second + third + fourth));
}

proof fn lemma_between_blanks(shown: Seq<char>)
    ensures
        (" "@ + shown + " "@).len() == shown.len() + 2,
{
    reveal_strlit(" ");
}

proof fn lemma_intrinsic_without_flags(
    text: Seq<char>,
    name: Seq<char>,
    names: Seq<Seq<char>>,
    ty: Seq<char>,
)
    requires
        2 + name.len() <= text.len(),
        text[0] == '@',
        text.subrange(1, 1 + name.len() as int) == name,
        text[1 + name.len() as int] == ' ',
        text.skip(2 + name.len() as int) == listed(names) + " : "@ + ty,
        forall|k: int| 0 <= k < names.len() ==> valid_identifier(#[trigger] names[k]),
        ty.len() > 0 ==> !whitespace(ty[0]),
    ensures
        CallIntrinsicOp::name_at(text, 0) == Some(1int),
        occurs_at(text, 1, name),
        after_blanks(text, 1 + name.len() as int) == 2 + name.len() as int,
        occurs_at(text, 2 + name.len() as int, seq![]),
        read_arguments(text, 2 + name.len() as int) == Some((names, text.len() - ty.len())),
        text.skip(text.len() - ty.len()) == ty,
{
    reveal_strlit(" : ");
    let tail = listed(names) + " : "@ + ty;
    let open = 2 + name.len() as int;
    lemma_read_arguments(text, open, names, ty);
    assert(text.skip(open).len() == text.len() - open);
    assert(tail.len() == listed(names).len() + 3 + ty.len());
    lemma_one_blank(text, open - 1);
    assert(after_blanks(text, 0) == 0);
    assert(text.subrange(open, open) =~= seq![]);
}

#[verifier::rlimit(40)]
proof fn lemma_intrinsic_with_flags(
    text: Seq<char>,
    name: Seq<char>,
    shown: Seq<char>,
    names: Seq<Seq<char>>,
    ty: Seq<char>,
)
    requires
        4 + name.len() + shown.len() <= text.len(),
        text[0] == '@',
        text.subrange(1, 1 + name.len() as int) == name,
        text[1 + name.len() as int] == ' ',
        text.subrange(2 + name.len() as int, 4 + name.len() as int + shown.len()) == " "@ + shown
            + " "@,
        text.skip(4 + name.len() as int + shown.len()) == listed(names) + " : "@ + ty,
        shown.len() > 0,
        !whitespace(shown[0]),
        forall|k: int| 0 <= k < names.len() ==> valid_identifier(#[trigger] names[k]),
        ty.len() > 0 ==> !whitespace(ty[0]),
    ensures
        CallIntrinsicOp::name_at(text, 0) == Some(1int),
        occurs_at(text, 1, name),
        after_blanks(text, 1 + name.len() as int) == 3 + name.len() as int,
        occurs_at(text, 3 + name.len() as int, shown),
        read_arguments(text, 3 + name.len() as int + shown.len()) == Some(
            (names, text.len() - ty.len()),
        ),
        text.skip(text.len() - ty.len()) == ty,
{
    reveal_strlit(" ");
    reveal_strlit(" : ");
    let mid = " "@ + shown + " "@;
    let tail = listed(names) + " : "@ + ty;
    let end = 1 + name.len() as int;
    let start = end + 2;
    let open = start + shown.len() + 1;
    lemma_read_arguments(text, open, names, ty);
    assert(text.skip(open).len() == text.len() - open);
    assert(tail.len() == listed(names).len() + 3 + ty.len());
    let piece = text.subrange(end + 1, open);
    assert(piece[0] == text[end + 1]);
    assert(piece[1] == text[start]);
    assert(piece[1 + shown.len() as int] == text[start + shown.len()]);
    assert(mid[0] == ' ' && mid[1] == shown[0] && mid[1 + shown.len() as int] == ' ');
    assert(text.subrange(start, start + shown.len()) =~= piece.subrange(
        1,
        1 + shown.len() as int,
    ));
    assert(mid.subrange(1, 1 + shown.len() as int) =~= shown);
    lemma_one_blank(text, end + 1);
    lemma_one_blank(text, open - 1);
    assert(after_blanks(text, end) == after_blanks(text, end + 1));
    assert(after_blanks(text, 0) == 0);
}

proof fn lemma_one_blank(text: Seq<char>, at: int)
    requires
        0 <= at < text.len(),
        text[at] == ' ',
        at + 1 == text.len() || !whitespace(text[at + 1]),
    ensures
        after_blanks(text, at) == at + 1,
        after_blanks(text, at + 1) == at + 1,
{
    assert(after_blanks(text, at + 1) == at + 1);
}

/// A call that was built of a callee, its type and arguments of the types that
/// it takes passes its check.
pub proof fn fitting_calls_verify(op: CallOp, ty: FuncType)
    requires
        op.has_callee(),
        op.callee_type@ == ty@,
        op.result@ == ty.result@,
        value_types(op.arguments()) == models(ty.args@),
    ensures
        op.judged(Ok(())),
{
}

/// The names of the call operations.
pub open spec fn op_names() -> Set<Seq<char>> {
    set!["llvm.call"@, "llvm.call_intrinsic"@]
}

/// Registers the call operations.
pub fn register(dialect: &mut Dialect)
    ensures
        final(dialect)@ == old(dialect)@.union(op_names()),
{
    dialect.add_op("llvm.call");
    dialect.add_op("llvm.call_intrinsic");
    proof {
        assert(dialect@ =~= old(dialect)@.union(op_names()));
    }
}

} // verus!

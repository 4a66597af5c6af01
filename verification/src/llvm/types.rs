//! The types of the LLVM dialect.

use vstd::prelude::*;

verus! {

/// Whether an integer type says how its values are signed.
#[derive(Clone, Copy, Debug, PartialEq, Eq, Structural)]
pub enum Signedness {
    Signless,
    Signed,
    Unsigned,
}

/// The generic address space.
pub const GENERIC: u32 = 0;

/// A type.
#[derive(Debug)]
pub enum Type {
    /// No value.
    Void,
    /// An integer of `width` bits.
    Integer { width: u32, signedness: Signedness },
    /// A floating-point type, by its storage bits and the bits of its
    /// significand.
    Float { bits: u32, precision: u32 },
    /// An opaque pointer.
    Pointer { address_space: u32 },
    /// `size` elements of one type.
    Array { size: u64, elem: Box<Type> },
    /// A vector of `size` elements.
    Vector { size: u32, elem: Box<Type> },
    /// A struct. One without fields is opaque, which is not the same as an
    /// empty struct.
    Struct { name: Option<String>, fields: Option<Vec<Type>> },
    /// A function type.
    Func(FuncType),
    /// A type of another dialect, by its text.
    Other(String),
}

/// The type of a function.
#[derive(Debug)]
pub struct FuncType {
    pub result: Box<Type>,
    pub args: Vec<Type>,
    pub var_arg: bool,
}

/// A type as a mathematical value. Two types are the same type when their
/// models are equal.
pub enum TypeModel {
    Void,
    Integer { width: u32, signedness: Signedness },
    Float { bits: u32, precision: u32 },
    Pointer { address_space: u32 },
    Array { size: u64, elem: Box<TypeModel> },
    Vector { size: u32, elem: Box<TypeModel> },
    Struct { name: Option<Seq<char>>, fields: Option<Seq<TypeModel>> },
    Func { result: Box<TypeModel>, args: Seq<TypeModel>, var_arg: bool },
    Other(Seq<char>),
}

impl Type {
    /// The type as a mathematical value.
    pub open spec fn view(&self) -> TypeModel
        decreases self,
    {
        match self {
            Type::Void => TypeModel::Void,
            Type::Integer { width, signedness } => TypeModel::Integer {
                width: *width,
                signedness: *signedness,
            },
            Type::Float { bits, precision } => TypeModel::Float {
                bits: *bits,
                precision: *precision,
            },
            Type::Pointer { address_space } => TypeModel::Pointer { address_space: *address_space },
            Type::Array { size, elem } => TypeModel::Array {
                size: *size,
                elem: Box::new(elem.view()),
            },
            Type::Vector { size, elem } => TypeModel::Vector {
                size: *size,
                elem: Box::new(elem.view()),
            },
            Type::Struct { name, fields } => TypeModel::Struct {
                name: match name {
                    Some(text) => Some(text@),
                    None => None,
                },
                fields: match fields {
                    Some(list) => Some(
                        Seq::new(
                            list@.len(),
                            |i: int|
                                if 0 <= i < list@.len() {
                                    list@[i].view()
                                } else {
                                    TypeModel::Void
                                },
                        ),
                    ),
                    None => None,
                },
            },
            Type::Func(func) => TypeModel::Func {
                result: Box::new(func.result.view()),
                args: Seq::new(
                    func.args@.len(),
                    |i: int|
                        if 0 <= i < func.args@.len() {
                            func.args@[i].view()
                        } else {
                            TypeModel::Void
                        },
                ),
                var_arg: func.var_arg,
            },
            Type::Other(text) => TypeModel::Other(text@),
        }
    }
}

/// The models of a list of types.
pub open spec fn models(list: Seq<Type>) -> Seq<TypeModel> {
    Seq::new(list.len(), |i: int| list[i]@)
}

impl FuncType {
    /// The function type as a mathematical value.
    pub open spec fn view(&self) -> TypeModel {
        TypeModel::Func {
            result: Box::new(self.result@),
            args: models(self.args@),
            var_arg: self.var_arg,
        }
    }

    /// The type of a function from `args` to `result`.
    pub fn get(result: Type, args: Vec<Type>, var_arg: bool) -> (func: FuncType)
        ensures
            func@ == (TypeModel::Func {
                result: Box::new(result@),
                args: models(args@),
                var_arg,
            }),
    {
        FuncType { result: Box::new(result), args, var_arg }
    }

    /// A second value of the same function type.
    pub fn duplicate(&self) -> (copy: FuncType)
        ensures
            copy@ == self@,
    {
        FuncType {
            result: Box::new(self.result.duplicate()),
            args: duplicate_types(&self.args),
            var_arg: self.var_arg,
        }
    }
}

/// What the view of a struct or a function type holds, member by member.
pub proof fn lemma_members(ty: Type)
    ensures
        ty matches Type::Struct { name, fields: Some(list) } ==> ty@->fields->Some_0 == models(list@),
        ty matches Type::Func(func) ==> ty@ == func@,
{
    match ty {
        Type::Struct { name, fields: Some(list) } => {
            assert(ty@->fields->Some_0 =~= models(list@));
        },
        Type::Func(func) => {
            assert(ty@->args =~= models(func.args@));
        },
        _ => {},
    }
}

/// Whether two names are the same.
fn same_name(left: &Option<String>, right: &Option<String>) -> (same: bool)
    ensures
        same == match (*left, *right) {
            (Some(a), Some(b)) => a@ == b@,
            (None, None) => true,
            _ => false,
        },
{
    match (left, right) {
        (Some(a), Some(b)) => *a == *b,
        (None, None) => true,
        _ => false,
    }
}

/// Whether two lists hold the same types in the same order.
pub fn same_types(left: &Vec<Type>, right: &Vec<Type>) -> (same: bool)
    ensures
        same == (models(left@) == models(right@)),
    decreases left,
{
    if left.len() != right.len() {
        proof {
            assert(models(left@).len() != models(right@).len());
        }
        return false;
    }
    let mut i: usize = 0;
    while i < left.len()
        invariant
            i <= left.len(),
            left.len() == right.len(),
            forall|k: int| 0 <= k < i ==> left@[k]@ == right@[k]@,
        decreases left.len() - i,
    {
        proof {
            assert(decreases_to!(left => left@));
            assert(decreases_to!(left@ => left@[i as int]));
        }
        if !same_type(&left[i], &right[i]) {
            proof {
                assert(models(left@)[i as int] != models(right@)[i as int]);
            }
            return false;
        }
        i += 1;
    }
    proof {
        assert(models(left@) =~= models(right@));
    }
    true
}

/// Whether two types are the same type.
pub fn same_type(left: &Type, right: &Type) -> (same: bool)
    ensures
        same == (left@ == right@),
    decreases left,
{
    proof {
        lemma_members(*left);
        lemma_members(*right);
    }
    match (left, right) {
        (Type::Void, Type::Void) => true,
        (
            Type::Integer { width: a, signedness: s },
            Type::Integer { width: b, signedness: t },
        ) => *a == *b && *s == *t,
        (
            Type::Float { bits: a, precision: p },
            Type::Float { bits: b, precision: q },
        ) => *a == *b && *p == *q,
        (
            Type::Pointer { address_space: a },
            Type::Pointer { address_space: b },
        ) => *a == *b,
        (
            Type::Array { size: a, elem: x },
            Type::Array { size: b, elem: y },
        ) => *a == *b && same_type(x, y),
        (
            Type::Vector { size: a, elem: x },
            Type::Vector { size: b, elem: y },
        ) => *a == *b && same_type(x, y),
        (
            Type::Struct { name: n, fields: None },
            Type::Struct { name: m, fields: None },
        ) => same_name(n, m),
        (
            Type::Struct { name: n, fields: Some(x) },
            Type::Struct { name: m, fields: Some(y) },
        ) => same_name(n, m) && same_types(x, y),
        (Type::Func(f), Type::Func(g)) => f.var_arg == g.var_arg && same_type(&f.result, &g.result)
            && same_types(&f.args, &g.args),
        (Type::Other(a), Type::Other(b)) => *a == *b,
        _ => false,
    }
}

/// A second list of the same types.
pub fn duplicate_types(list: &Vec<Type>) -> (copy: Vec<Type>)
    ensures
        models(copy@) == models(list@),
    decreases list,
{
    let mut copy: Vec<Type> = Vec::new();
    let mut i: usize = 0;
    while i < list.len()
        invariant
            i <= list.len(),
            copy.len() == i,
            forall|k: int| 0 <= k < i ==> copy@[k]@ == list@[k]@,
        decreases list.len() - i,
    {
        proof {
            assert(decreases_to!(list => list@));
            assert(decreases_to!(list@ => list@[i as int]));
        }
        copy.push(list[i].duplicate());
        i += 1;
    }
    proof {
        assert(models(copy@) =~= models(list@));
    }
    copy
}

impl Type {
    /// A second value of the same type.
    pub fn duplicate(&self) -> (copy: Type)
        ensures
            copy@ == self@,
        decreases self,
    {
        let copy = match self {
            Type::Void => Type::Void,
            Type::Integer { width, signedness } => Type::Integer {
                width: *width,
                signedness: *signedness,
            },
            Type::Float { bits, precision } => Type::Float { bits: *bits, precision: *precision },
            Type::Pointer { address_space } => Type::Pointer { address_space: *address_space },
            Type::Array { size, elem } => Type::Array {
                size: *size,
                elem: Box::new(elem.duplicate()),
            },
            Type::Vector { size, elem } => Type::Vector {
                size: *size,
                elem: Box::new(elem.duplicate()),
            },
            Type::Struct { name, fields } => Type::Struct {
                name: match name {
                    Some(text) => Some(text.clone()),
                    None => None,
                },
                fields: match fields {
                    Some(list) => Some(duplicate_types(list)),
                    None => None,
                },
            },
            Type::Func(func) => Type::Func(
                FuncType {
                    result: Box::new(func.result.duplicate()),
                    args: duplicate_types(&func.args),
                    var_arg: func.var_arg,
                },
            ),
            Type::Other(text) => Type::Other(text.clone()),
        };
        proof {
            lemma_members(*self);
            lemma_members(copy);
        }
        copy
    }
}

/// A sort of type that an operation asks for.
#[derive(Clone, Copy, Debug, PartialEq, Eq, Structural)]
pub enum TypeSort {
    Integer,
    Func,
}

impl TypeSort {
    /// The name under which the sort is registered.
    pub open spec fn spelling(self) -> Seq<char> {
        match self {
            TypeSort::Integer => "builtin.integer"@,
            TypeSort::Func => "llvm.func"@,
        }
    }

    /// The name under which the sort is registered.
    pub fn name(self) -> (name: &'static str)
        ensures
            name@ == self.spelling(),
    {
        match self {
            TypeSort::Integer => "builtin.integer",
            TypeSort::Func => "llvm.func",
        }
    }
}

/// A type that is not of the sort that was expected.
#[derive(Debug)]
pub struct TypedHandleErr {
    pub expected: TypeSort,
    pub provided: Type,
}

impl TypedHandleErr {
    /// The text of the error, given how the provided type prints.
    pub open spec fn text(self, provided_text: Seq<char>) -> Seq<char> {
        "TypedHandle mismatch: expected "@ + self.expected.spelling() + " but provided "@
            + provided_text
    }

    /// The text of the error, given how the provided type prints.
    pub fn message(&self, provided_text: &str) -> (message: String)
        ensures
            message@ == self.text(provided_text@),
    {
        let mut message = "TypedHandle mismatch: expected ".to_owned();
        message.append(self.expected.name());
        message.append(" but provided ");
        message.append(provided_text);
        message
    }
}

} // verus!

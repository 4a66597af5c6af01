//! The values that operations take and give.

use crate::llvm::syntax::listed;
use crate::llvm::types::{Type, TypeModel};
use crate::text::joined;
use vstd::prelude::*;

verus! {

/// A value: the name it is printed under, and its type.
#[derive(Debug)]
pub struct Value {
    pub name: String,
    pub ty: Type,
}

/// A value as a mathematical value.
pub struct ValueModel {
    pub name: Seq<char>,
    pub ty: TypeModel,
}

impl View for Value {
    type V = ValueModel;

    open spec fn view(&self) -> ValueModel {
        ValueModel { name: self.name@, ty: self.ty@ }
    }
}

/// The models of a list of values.
pub open spec fn value_models(list: Seq<Value>) -> Seq<ValueModel> {
    Seq::new(list.len(), |i: int| list[i]@)
}

/// The types of a list of values.
pub open spec fn value_types(list: Seq<ValueModel>) -> Seq<TypeModel> {
    Seq::new(list.len(), |i: int| list[i].ty)
}

impl Value {
    /// A value of type `ty`, printed as `name`.
    pub fn new(name: String, ty: Type) -> (value: Value)
        ensures
            value@ == (ValueModel { name: name@, ty: ty@ }),
    {
        Value { name, ty }
    }

    /// A second value of the same name and type.
    pub fn duplicate(&self) -> (copy: Value)
        ensures
            copy@ == self@,
    {
        Value { name: self.name.clone(), ty: self.ty.duplicate() }
    }
}

/// The names of a list of values.
pub open spec fn value_names(list: Seq<ValueModel>) -> Seq<Seq<char>> {
    Seq::new(list.len(), |i: int| list[i].name)
}

/// Appends the names of the values, in round brackets.
pub fn push_values(out: &mut String, values: &[Value])
    ensures
        final(out)@ == old(out)@ + listed(value_names(value_models(values@))),
{
    let ghost names = value_names(value_models(values@));
    out.append("(");
    let ghost start = out@;
    let mut i: usize = 0;
    proof {
        assert(names.take(0) =~= seq![]);
    }
    while i < values.len()
        invariant
            i <= values.len(),
            names == value_names(value_models(values@)),
            start == old(out)@ + "("@,
            out@ =~= start + joined(names.take(i as int), ", "@),
        decreases values.len() - i,
    {
        let ghost parts = names.take(i + 1);
        if i > 0 {
            out.append(", ");
        }
        out.append(values[i].name.as_str());
        proof {
            assert(parts.drop_last() =~= names.take(i as int));
            assert(parts.last() == values@[i as int].name@);
            if i == 0 {
                assert(parts =~= seq![parts.last()]);
            }
        }
        i += 1;
    }
    proof {
        assert(names.take(i as int) =~= names);
    }
    out.append(")");
}

} // verus!

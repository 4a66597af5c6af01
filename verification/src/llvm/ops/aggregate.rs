//! Aggregate value operations: inserting into and extracting from structs,
//! arrays and vectors.
//!
//! `InsertValueOp` and `ExtractValueOp` go by indices that are fixed when the
//! operation is built. `ExtractElementOp` goes by an index that is itself a
//! value.

use crate::llvm::dialect::Dialect;
use crate::llvm::types::{lemma_members, same_type, Type, TypeModel};
use crate::llvm::value::Value;
use crate::text::{list_of, push_list};
use vstd::prelude::*;

verus! {

/// What is wrong with an insert or extract value operation.
#[derive(Clone, Copy, Debug, PartialEq, Eq, Structural)]
pub enum InsertExtractValueErr {
    IndicesAttrErr,
    InvalidIndicesErr,
    ValueTypeErr,
}

impl InsertExtractValueErr {
    /// The text of the error.
    pub open spec fn text(self) -> Seq<char> {
        match self {
            InsertExtractValueErr::IndicesAttrErr => {
                "Insert/Extract value instruction has no or incorrect indices attribute"@
            },
            InsertExtractValueErr::InvalidIndicesErr => {
                "Invalid indices on insert/extract value instruction"@
            },
            InsertExtractValueErr::ValueTypeErr => {
                "Value being inserted / extracted does not match the type of the indexed aggregate"@
            },
        }
    }

    /// The text of the error.
    pub fn message(&self) -> (message: &'static str)
        ensures
            message@ == self.text(),
    {
        match self {
            InsertExtractValueErr::IndicesAttrErr => {
                "Insert/Extract value instruction has no or incorrect indices attribute"
            },
            InsertExtractValueErr::InvalidIndicesErr => {
                "Invalid indices on insert/extract value instruction"
            },
            InsertExtractValueErr::ValueTypeErr => {
                "Value being inserted / extracted does not match the type of the indexed aggregate"
            },
        }
    }
}

/// What is wrong with an [`ExtractElementOp`].
#[derive(Clone, Copy, Debug, PartialEq, Eq, Structural)]
pub enum ExtractElementErr {
    NotVectorType,
    ResultTypeMismatch,
    IndexNotInteger,
}

impl ExtractElementErr {
    /// The text of the error.
    pub open spec fn text(self) -> Seq<char> {
        match self {
            ExtractElementErr::NotVectorType => "extractelement requires a vector or array type"@,
            ExtractElementErr::ResultTypeMismatch => {
                "extractelement result type does not match vector element type"@
            },
            ExtractElementErr::IndexNotInteger => "extractelement index must be an integer type"@,
        }
    }

    /// The text of the error.
    pub fn message(&self) -> (message: &'static str)
        ensures
            message@ == self.text(),
    {
        match self {
            ExtractElementErr::NotVectorType => "extractelement requires a vector or array type",
            ExtractElementErr::ResultTypeMismatch => {
                "extractelement result type does not match vector element type"
            },
            ExtractElementErr::IndexNotInteger => "extractelement index must be an integer type",
        }
    }
}

/// Why an [`InsertValueOp`] was rejected.
#[derive(Debug)]
pub enum InsertValueVerifyErr {
    /// The indices are missing, or name no slot of the aggregate.
    Indices(InsertExtractValueErr),
    /// The slot holds another type than that of the value.
    SlotMismatch { indices: Vec<u32>, expected: Type, found: Type },
}

impl InsertValueVerifyErr {
    /// The text of the error, given how the two types of a mismatch print.
    pub open spec fn text(self, expected_text: Seq<char>, found_text: Seq<char>) -> Seq<char> {
        match self {
            InsertValueVerifyErr::Indices(cause) => cause.text(),
            InsertValueVerifyErr::SlotMismatch { indices, .. } => {
                "insert_value type mismatch at "@ + list_of(indices@) + ": slot expects "@
                    + expected_text + " but value is "@ + found_text
            },
        }
    }

    /// The text of the error, given how the two types of a mismatch print.
    pub fn message(&self, expected_text: &str, found_text: &str) -> (message: String)
        ensures
            message@ == self.text(expected_text@, found_text@),
    {
        match self {
            InsertValueVerifyErr::Indices(cause) => cause.message().to_owned(),
            InsertValueVerifyErr::SlotMismatch { indices, .. } => {
                let mut message = "insert_value type mismatch at ".to_owned();
                push_list(&mut message, indices.as_slice());
                message.append(": slot expects ");
                message.append(expected_text);
                message.append(" but value is ");
                message.append(found_text);
                message
            },
        }
    }
}

/// The type that the indices lead to inside `ty`, if they lead to one. An index
/// selects a field of a struct that is not opaque, or an element of an array.
pub open spec fn indexed(ty: TypeModel, indices: Seq<u32>) -> Option<TypeModel>
    decreases indices.len(),
{
    if indices.len() == 0 {
        Some(ty)
    } else {
        let rest = indices.drop_first();
        match ty {
            TypeModel::Struct { fields: Some(fields), .. } => if indices[0] < fields.len() {
                indexed(fields[indices[0] as int], rest)
            } else {
                None
            },
            TypeModel::Array { size, elem } => if indices[0] < size {
                indexed(*elem, rest)
            } else {
                None
            },
            _ => None,
        }
    }
}

/// The element type of a vector or an array.
pub open spec fn element(ty: TypeModel) -> Option<TypeModel> {
    match ty {
        TypeModel::Vector { elem, .. } => Some(*elem),
        TypeModel::Array { elem, .. } => Some(*elem),
        _ => None,
    }
}

/// Inserts a value into an aggregate at fixed indices. The result is an
/// aggregate of the same type.
#[derive(Debug)]
pub struct InsertValueOp {
    pub aggregate: Value,
    pub value: Value,
    pub insert_value_indices: Option<Vec<u32>>,
    pub result: Type,
}

impl InsertValueOp {
    /// Inserts `value` into `aggregate` at `indices`.
    pub fn new(aggregate: Value, value: Value, indices: Vec<u32>) -> (op: InsertValueOp)
        ensures
            op.aggregate@ == aggregate@,
            op.value@ == value@,
            op.insert_value_indices matches Some(kept) && kept@ == indices@,
            op.result@ == aggregate.ty@,
    {
        let result = aggregate.ty.duplicate();
        InsertValueOp { aggregate, value, insert_value_indices: Some(indices), result }
    }

    /// The indices at which the value goes in.
    pub fn indices(&self) -> (indices: &Vec<u32>)
        requires
            self.insert_value_indices is Some,
        ensures
            *indices == self.insert_value_indices->Some_0,
    {
        match &self.insert_value_indices {
            Some(indices) => indices,
            None => vstd::pervasive::unreached(),
        }
    }

    /// What [`InsertValueOp::verify`] says.
    pub open spec fn judged(self, verdict: Result<(), InsertValueVerifyErr>) -> bool {
        match self.insert_value_indices {
            None => verdict == Err::<(), _>(
                InsertValueVerifyErr::Indices(InsertExtractValueErr::IndicesAttrErr),
            ),
            Some(indices) => match indexed(self.aggregate.ty@, indices@) {
                None => verdict == Err::<(), _>(
                    InsertValueVerifyErr::Indices(InsertExtractValueErr::InvalidIndicesErr),
                ),
                Some(slot) => if slot == self.value.ty@ {
                    verdict is Ok
                } else {
                    verdict matches Err(
                        InsertValueVerifyErr::SlotMismatch { indices: at, expected, found },
                    ) && at@ == indices@ && expected@ == slot && found@ == self.value.ty@
                },
            },
        }
    }

    /// Checks that the value has the type of the slot it goes into.
    pub fn verify(&self) -> (verdict: Result<(), InsertValueVerifyErr>)
        ensures
            self.judged(verdict),
    {
        if self.insert_value_indices.is_none() {
            return Err(InsertValueVerifyErr::Indices(InsertExtractValueErr::IndicesAttrErr));
        }
        let indices = self.indices();
        match ExtractValueOp::indexed_type(&self.aggregate.ty, indices.as_slice()) {
            Err(cause) => Err(InsertValueVerifyErr::Indices(cause)),
            Ok(slot) => {
                if !same_type(slot, &self.value.ty) {
                    return Err(
                        InsertValueVerifyErr::SlotMismatch {
                            indices: indices.clone(),
                            expected: slot.duplicate(),
                            found: self.value.ty.duplicate(),
                        },
                    );
                }
                Ok(())
            },
        }
    }
}

/// Extracts the value at fixed indices of an aggregate.
#[derive(Debug)]
pub struct ExtractValueOp {
    pub aggregate: Value,
    pub extract_value_indices: Option<Vec<u32>>,
    pub result: Type,
}

impl ExtractValueOp {
    /// Extracts what stands at `indices` of `aggregate`; the result has the
    /// type that the indices lead to.
    pub fn new(aggregate: Value, indices: Vec<u32>) -> (made: Result<
        ExtractValueOp,
        InsertExtractValueErr,
    >)
        ensures
            match indexed(aggregate.ty@, indices@) {
                Some(slot) => made matches Ok(op) && op.aggregate@ == aggregate@
                    && (op.extract_value_indices matches Some(kept) && kept@ == indices@)
                    && op.result@ == slot,
                None => made == Err::<ExtractValueOp, _>(InsertExtractValueErr::InvalidIndicesErr),
            },
    {
        let result = match Self::indexed_type(&aggregate.ty, indices.as_slice()) {
            Ok(slot) => slot.duplicate(),
            Err(cause) => {
                return Err(cause);
            },
        };
        Ok(ExtractValueOp { aggregate, extract_value_indices: Some(indices), result })
    }

    /// The indices of the extracted value.
    pub fn indices(&self) -> (indices: &Vec<u32>)
        requires
            self.extract_value_indices is Some,
        ensures
            *indices == self.extract_value_indices->Some_0,
    {
        match &self.extract_value_indices {
            Some(indices) => indices,
            None => vstd::pervasive::unreached(),
        }
    }

    /// The type of the value at `indices` inside `aggr_type`.
    pub fn indexed_type<'a>(aggr_type: &'a Type, indices: &[u32]) -> (found: Result<
        &'a Type,
        InsertExtractValueErr,
    >)
        ensures
            match indexed(aggr_type@, indices@) {
                Some(slot) => found matches Ok(ty) && ty@ == slot,
                None => found == Err::<&'a Type, _>(InsertExtractValueErr::InvalidIndicesErr),
            },
    {
        let mut ty: &'a Type = aggr_type;
        let mut i: usize = 0;
        proof {
            assert(indices@.skip(0) =~= indices@);
        }
        while i < indices.len()
            invariant
                i <= indices.len(),
                indexed(aggr_type@, indices@) == indexed(ty@, indices@.skip(i as int)),
            decreases indices.len() - i,
        {
            let idx: u32 = indices[i];
            proof {
                lemma_members(*ty);
                assert(indices@.skip(i as int)[0] == idx);
                assert(indices@.skip(i as int).drop_first() =~= indices@.skip(i + 1));
            }
            match ty {
                Type::Struct { fields: Some(fields), .. } => {
                    if idx as usize >= fields.len() {
                        return Err(InsertExtractValueErr::InvalidIndicesErr);
                    }
                    ty = &fields[idx as usize];
                },
                Type::Array { size, elem } => {
                    if idx as u64 >= *size {
                        return Err(InsertExtractValueErr::InvalidIndicesErr);
                    }
                    ty = elem;
                },
                _ => {
                    return Err(InsertExtractValueErr::InvalidIndicesErr);
                },
            }
            i += 1;
        }
        Ok(ty)
    }

    /// What [`ExtractValueOp::verify`] says.
    pub open spec fn judged(self) -> Result<(), InsertExtractValueErr> {
        match self.extract_value_indices {
            None => Err(InsertExtractValueErr::IndicesAttrErr),
            Some(indices) => match indexed(self.aggregate.ty@, indices@) {
                None => Err(InsertExtractValueErr::InvalidIndicesErr),
                Some(slot) => if slot == self.result@ {
                    Ok(())
                } else {
                    Err(InsertExtractValueErr::ValueTypeErr)
                },
            },
        }
    }

    /// Checks that the result has the type that the indices lead to.
    pub fn verify(&self) -> (verdict: Result<(), InsertExtractValueErr>)
        ensures
            verdict == self.judged(),
    {
        if self.extract_value_indices.is_none() {
            return Err(InsertExtractValueErr::IndicesAttrErr);
        }
        let indices = self.indices();
        match Self::indexed_type(&self.aggregate.ty, indices.as_slice()) {
            Err(cause) => Err(cause),
            Ok(slot) => if same_type(slot, &self.result) {
                Ok(())
            } else {
                Err(InsertExtractValueErr::ValueTypeErr)
            },
        }
    }
}

/// Extracts the element of a vector at an index that is a value.
#[derive(Debug)]
pub struct ExtractElementOp {
    pub vector: Value,
    pub index: Value,
    pub result: Type,
}

impl ExtractElementOp {
    /// Extracts the element of `vector` at `index`. An array is taken as well.
    pub fn new(vector: Value, index: Value) -> (made: Result<ExtractElementOp, ExtractElementErr>)
        ensures
            match element(vector.ty@) {
                Some(elem) => made matches Ok(op) && op.vector@ == vector@ && op.index@ == index@
                    && op.result@ == elem,
                None => made == Err::<ExtractElementOp, _>(ExtractElementErr::NotVectorType),
            },
    {
        let result = match &vector.ty {
            Type::Vector { elem, .. } => elem.duplicate(),
            Type::Array { elem, .. } => elem.duplicate(),
            _ => {
                return Err(ExtractElementErr::NotVectorType);
            },
        };
        Ok(ExtractElementOp { vector, index, result })
    }

    /// What [`ExtractElementOp::verify`] says.
    pub open spec fn judged(self) -> Result<(), ExtractElementErr> {
        match element(self.vector.ty@) {
            None => Err(ExtractElementErr::NotVectorType),
            Some(elem) => if self.result@ != elem {
                Err(ExtractElementErr::ResultTypeMismatch)
            } else if self.index.ty@ !is Integer {
                Err(ExtractElementErr::IndexNotInteger)
            } else {
                Ok(())
            },
        }
    }

    /// Checks the vector, the result and the index, in this order.
    pub fn verify(&self) -> (verdict: Result<(), ExtractElementErr>)
        ensures
            verdict == self.judged(),
    {
        let elem: &Type = match &self.vector.ty {
            Type::Vector { elem, .. } => elem,
            Type::Array { elem, .. } => elem,
            _ => {
                return Err(ExtractElementErr::NotVectorType);
            },
        };
        if !same_type(&self.result, elem) {
            return Err(ExtractElementErr::ResultTypeMismatch);
        }
        match &self.index.ty {
            Type::Integer { .. } => Ok(()),
            _ => Err(ExtractElementErr::IndexNotInteger),
        }
    }
}

/// Following `first` and then `second` is following the two as one path.
pub proof fn indices_compose(ty: TypeModel, first: Seq<u32>, second: Seq<u32>)
    ensures
        indexed(ty, first + second) == match indexed(ty, first) {
            Some(middle) => indexed(middle, second),
            None => None,
        },
    decreases first.len(),
{
    if first.len() == 0 {
        assert(first + second =~= second);
    } else {
        assert((first + second).drop_first() =~= first.drop_first() + second);
        match ty {
            TypeModel::Struct { fields: Some(fields), .. } => {
                if first[0] < fields.len() {
                    indices_compose(fields[first[0] as int], first.drop_first(), second);
                }
            },
            TypeModel::Array { size, elem } => {
                indices_compose(*elem, first.drop_first(), second);
            },
            _ => {},
        }
    }
}

/// What may be inserted at a path is what is extracted there: the insertion is
/// accepted exactly if an extraction at the same indices gives the type of the
/// value.
pub proof fn insertion_fits_extraction(insert: InsertValueOp, extract: ExtractValueOp)
    requires
        insert.insert_value_indices is Some,
        extract.extract_value_indices is Some,
        insert.insert_value_indices->Some_0@ == extract.extract_value_indices->Some_0@,
        insert.aggregate.ty@ == extract.aggregate.ty@,
        extract.judged() is Ok,
    ensures
        insert.judged(Ok(())) <==> insert.value.ty@ == extract.result@,
{
}

/// The names of the aggregate operations.
pub open spec fn op_names() -> Set<Seq<char>> {
    set!["llvm.insert_value"@, "llvm.extract_value"@, "llvm.extractelement"@]
}

/// Registers the aggregate operations.
pub fn register(dialect: &mut Dialect)
    ensures
        final(dialect)@ == old(dialect)@.union(op_names()),
{
    dialect.add_op("llvm.insert_value");
    dialect.add_op("llvm.extract_value");
    dialect.add_op("llvm.extractelement");
    proof {
        assert(dialect@ =~= old(dialect)@.union(op_names()));
    }
}

} // verus!

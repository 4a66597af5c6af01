//! Inline assembly with one result, or with several and tied operands.
//!
//! A constraint says how an operand is passed: `=r`, `=f` and `=l` for outputs
//! in a general, a floating-point and a 64-bit register, the same letters
//! without `=` for inputs, and a number for an input that shares the register
//! of that output.

use crate::llvm::dialect::Dialect;
use crate::llvm::types::{models, Type, TypeModel};
use crate::llvm::value::{value_models, Value, ValueModel};
use crate::text::{
    chars_of, decimal, joined, lemma_pieces_of_joined, lemma_signed_round_trip,
    parse_signed, pieces, push_decimal, push_signed, signed_decimal, signed_value,
};
use vstd::prelude::*;
use vstd::slice::slice_subrange;

verus! {

/// What is missing in an [`InlineAsmOp`].
#[derive(Clone, Copy, Debug, PartialEq, Eq, Structural)]
pub enum InlineAsmVerifyErr {
    MissingTemplate,
    MissingConstraints,
}

impl InlineAsmVerifyErr {
    /// The text of the error.
    pub open spec fn text(self) -> Seq<char> {
        match self {
            InlineAsmVerifyErr::MissingTemplate => {
                "llvm.inline_asm requires 'inline_asm_template' attribute"@
            },
            InlineAsmVerifyErr::MissingConstraints => {
                "llvm.inline_asm requires 'inline_asm_constraints' attribute"@
            },
        }
    }

    /// The text of the error.
    pub fn message(&self) -> (message: &'static str)
        ensures
            message@ == self.text(),
    {
        match self {
            InlineAsmVerifyErr::MissingTemplate => {
                "llvm.inline_asm requires 'inline_asm_template' attribute"
            },
            InlineAsmVerifyErr::MissingConstraints => {
                "llvm.inline_asm requires 'inline_asm_constraints' attribute"
            },
        }
    }
}

/// The text of an attribute, empty where there is none.
pub open spec fn text_or_empty(attr: Option<String>) -> Seq<char> {
    match attr {
        Some(text) => text@,
        None => seq![],
    }
}

/// The text of an attribute, empty where there is none.
fn text_of(attr: &Option<String>) -> (text: String)
    ensures
        text@ == text_or_empty(*attr),
{
    match attr {
        Some(text) => text.clone(),
        None => String::new(),
    }
}

/// Inline assembly with at most one result.
#[derive(Debug)]
pub struct InlineAsmOp {
    pub inline_asm_template: Option<String>,
    pub inline_asm_constraints: Option<String>,
    pub inline_asm_convergent: Option<bool>,
    pub inputs: Vec<Value>,
    pub results: Vec<Type>,
}

impl InlineAsmOp {
    /// Inline assembly with a result of type `result_ty`, or with none if that
    /// is void.
    pub fn new(
        result_ty: Type,
        inputs: Vec<Value>,
        asm_template: &str,
        constraints: &str,
    ) -> (op: InlineAsmOp)
        ensures
            op.inline_asm_template matches Some(text) && text@ == asm_template@,
            op.inline_asm_constraints matches Some(text) && text@ == constraints@,
            op.inline_asm_convergent is None,
            op.inputs == inputs,
            models(op.results@) == if result_ty@ is Void {
                seq![]
            } else {
                seq![result_ty@]
            },
    {
        let is_void = match result_ty {
            Type::Void => true,
            _ => false,
        };
        let mut results: Vec<Type> = Vec::new();
        let ghost model = result_ty@;
        if !is_void {
            results.push(result_ty);
            proof {
                assert(models(results@) =~= seq![model]);
            }
        } else {
            proof {
                assert(models(results@) =~= seq![]);
            }
        }
        InlineAsmOp {
            inline_asm_template: Some(asm_template.to_owned()),
            inline_asm_constraints: Some(constraints.to_owned()),
            inline_asm_convergent: None,
            inputs,
            results,
        }
    }

    /// Inline assembly that the threads of a warp have to execute together.
    pub fn new_convergent(
        result_ty: Type,
        inputs: Vec<Value>,
        asm_template: &str,
        constraints: &str,
    ) -> (op: InlineAsmOp)
        ensures
            op.inline_asm_template matches Some(text) && text@ == asm_template@,
            op.inline_asm_constraints matches Some(text) && text@ == constraints@,
            op.inline_asm_convergent == Some(true),
            op.inputs == inputs,
            models(op.results@) == if result_ty@ is Void {
                seq![]
            } else {
                seq![result_ty@]
            },
    {
        let mut op = Self::new(result_ty, inputs, asm_template, constraints);
        op.inline_asm_convergent = Some(true);
        op
    }

    /// The assembly template.
    pub fn asm_template(&self) -> (text: String)
        ensures
            text@ == text_or_empty(self.inline_asm_template),
    {
        text_of(&self.inline_asm_template)
    }

    /// The constraints.
    pub fn constraints(&self) -> (text: String)
        ensures
            text@ == text_or_empty(self.inline_asm_constraints),
    {
        text_of(&self.inline_asm_constraints)
    }

    /// Whether the threads of a warp have to execute the assembly together.
    pub fn is_convergent(&self) -> (convergent: bool)
        ensures
            convergent == (self.inline_asm_convergent == Some(true)),
    {
        match self.inline_asm_convergent {
            Some(convergent) => convergent,
            None => false,
        }
    }

    /// Checks that there are a template and constraints.
    pub fn verify(&self) -> (verdict: Result<(), InlineAsmVerifyErr>)
        ensures
            verdict == if self.inline_asm_template is None {
                Err::<(), _>(InlineAsmVerifyErr::MissingTemplate)
            } else if self.inline_asm_constraints is None {
                Err(InlineAsmVerifyErr::MissingConstraints)
            } else {
                Ok(())
            },
    {
        if self.inline_asm_template.is_none() {
            return Err(InlineAsmVerifyErr::MissingTemplate);
        }
        if self.inline_asm_constraints.is_none() {
            return Err(InlineAsmVerifyErr::MissingConstraints);
        }
        Ok(())
    }
}

/// What is missing in an [`InlineAsmMultiOp`].
#[derive(Clone, Copy, Debug, PartialEq, Eq, Structural)]
pub enum InlineAsmMultiVerifyErr {
    MissingTemplate,
    MissingConstraints,
    MissingTiedInputs,
}

impl InlineAsmMultiVerifyErr {
    /// The text of the error.
    pub open spec fn text(self) -> Seq<char> {
        match self {
            InlineAsmMultiVerifyErr::MissingTemplate => {
                "llvm.inline_asm_multi requires 'multi_asm_template' attribute"@
            },
            InlineAsmMultiVerifyErr::MissingConstraints => {
                "llvm.inline_asm_multi requires 'multi_asm_constraints' attribute"@
            },
            InlineAsmMultiVerifyErr::MissingTiedInputs => {
                "llvm.inline_asm_multi requires 'multi_asm_tied_inputs' attribute"@
            },
        }
    }

    /// The text of the error.
    pub fn message(&self) -> (message: &'static str)
        ensures
            message@ == self.text(),
    {
        match self {
            InlineAsmMultiVerifyErr::MissingTemplate => {
                "llvm.inline_asm_multi requires 'multi_asm_template' attribute"
            },
            InlineAsmMultiVerifyErr::MissingConstraints => {
                "llvm.inline_asm_multi requires 'multi_asm_constraints' attribute"
            },
            InlineAsmMultiVerifyErr::MissingTiedInputs => {
                "llvm.inline_asm_multi requires 'multi_asm_tied_inputs' attribute"
            },
        }
    }
}

/// The decimal forms of signed numbers.
pub open spec fn signed_decimals(numbers: Seq<i32>) -> Seq<Seq<char>> {
    Seq::new(numbers.len(), |i: int| signed_decimal(numbers[i] as int))
}

/// The numbers with commas between them.
pub open spec fn tied_text(numbers: Seq<i32>) -> Seq<char> {
    joined(signed_decimals(numbers), ","@)
}

/// The number of each piece that is not empty, `-1` for what is no number.
pub open spec fn tied_pieces(parts: Seq<Seq<char>>) -> Seq<i32>
    decreases parts.len(),
{
    if parts.len() == 0 {
        seq![]
    } else if parts.last().len() == 0 {
        tied_pieces(parts.drop_last())
    } else {
        tied_pieces(parts.drop_last()).push(
            match signed_value(parts.last()) {
                Some(value) => value,
                None => -1i32,
            },
        )
    }
}

/// The numbers that a text lists with commas between them.
pub open spec fn tied_values(text: Seq<char>) -> Seq<i32> {
    tied_pieces(pieces(text, ','))
}

proof fn lemma_tied_pieces(numbers: Seq<i32>)
    ensures
        tied_pieces(signed_decimals(numbers)) == numbers,
    decreases numbers.len(),
{
    let parts = signed_decimals(numbers);
    if numbers.len() > 0 {
        assert(parts.drop_last() =~= signed_decimals(numbers.drop_last()));
        lemma_tied_pieces(numbers.drop_last());
        lemma_signed_round_trip(numbers.last());
        assert(numbers.drop_last().push(numbers.last()) =~= numbers);
    } else {
        assert(numbers =~= seq![]);
    }
}

/// The list of tied inputs is kept as a text, and is read back as the list.
pub proof fn tied_inputs_read_back(numbers: Seq<i32>)
    ensures
        tied_values(tied_text(numbers)) == numbers,
{
    reveal_strlit(",");
    assert(","@ =~= seq![',']);
    let parts = signed_decimals(numbers);
    if numbers.len() == 0 {
        let text = tied_text(numbers);
        assert(text.len() == 0);
        let empty = Seq::<Seq<char>>::empty().push(seq![]);
        assert(pieces(text, ',') =~= empty);
        assert(empty.drop_last() =~= seq![]);
        assert(tied_pieces(empty.drop_last()) =~= seq![]);
        assert(numbers =~= seq![]);
    } else {
        assert forall|i: int, k: int| 0 <= i < parts.len() && 0 <= k < parts[i].len() implies
            #[trigger] parts[i][k] != ',' by {
            lemma_signed_round_trip(numbers[i]);
        }
        lemma_pieces_of_joined(parts, ',');
        lemma_tied_pieces(numbers);
    }
}

/// Which output each of the inputs of a tied operation shares its register
/// with: the first ones with the outputs in turn, the others with none.
pub open spec fn tied_list(num_tied: u32, num_other: nat) -> Seq<i32> {
    Seq::new(
        if num_tied <= i32::MAX {
            num_tied as nat
        } else {
            0
        },
        |i: int| i as i32,
    ) + Seq::new(num_other, |i: int| -1i32)
}

/// `count` outputs of one constraint, with commas between them.
pub open spec fn output_constraints(count: nat, constraint: Seq<char>) -> Seq<char>
    decreases count,
{
    if count == 0 {
        seq![]
    } else {
        output_constraints((count - 1) as nat, constraint) + (if count > 1 {
            seq![',']
        } else {
            seq![]
        }) + seq!['='] + constraint
    }
}

/// The numbers of the first `count` outputs, each behind a comma.
pub open spec fn tied_constraints(count: nat) -> Seq<char>
    decreases count,
{
    if count == 0 {
        seq![]
    } else {
        tied_constraints((count - 1) as nat) + seq![','] + decimal((count - 1) as nat)
    }
}

/// The constraints of a tied operation: its outputs, the inputs that are tied
/// to them, and the other inputs.
pub open spec fn tied_operation_constraints(
    count: nat,
    output: Seq<char>,
    others: Seq<char>,
) -> Seq<char> {
    output_constraints(count, output) + tied_constraints(count) + (if others.len() == 0 {
        seq![]
    } else {
        seq![','] + others
    })
}

/// Inline assembly with any number of results and with tied operands.
#[derive(Debug)]
pub struct InlineAsmMultiOp {
    pub multi_asm_template: Option<String>,
    pub multi_asm_constraints: Option<String>,
    pub multi_asm_tied_inputs: Option<String>,
    pub multi_asm_convergent: Option<bool>,
    pub inputs: Vec<Value>,
    pub results: Vec<Type>,
}

impl InlineAsmMultiOp {
    /// The operation holds these parts.
    pub open spec fn made_of(
        self,
        result_types: Seq<TypeModel>,
        inputs: Seq<ValueModel>,
        asm_template: Seq<char>,
        constraints: Seq<char>,
        tied_inputs: Seq<i32>,
    ) -> bool {
        &&& self.multi_asm_template matches Some(text) && text@ == asm_template
        &&& self.multi_asm_constraints matches Some(text) && text@ == constraints
        &&& self.multi_asm_tied_inputs matches Some(text) && text@ == tied_text(tied_inputs)
        &&& value_models(self.inputs@) == inputs
        &&& models(self.results@) == result_types
    }

    /// Inline assembly with these results. `tied_inputs` says for each input
    /// which output it is tied to, `-1` for none.
    pub fn new(
        result_types: Vec<Type>,
        inputs: Vec<Value>,
        asm_template: &str,
        constraints: &str,
        tied_inputs: &[i32],
    ) -> (op: InlineAsmMultiOp)
        ensures
            op.made_of(
                models(result_types@),
                value_models(inputs@),
                asm_template@,
                constraints@,
                tied_inputs@,
            ),
            op.multi_asm_convergent is None,
    {
        let mut tied_str = String::new();
        let ghost parts = signed_decimals(tied_inputs@);
        let mut i: usize = 0;
        proof {
            assert(parts.take(0) =~= seq![]);
        }
        while i < tied_inputs.len()
            invariant
                i <= tied_inputs.len(),
                parts == signed_decimals(tied_inputs@),
                tied_str@ == joined(parts.take(i as int), ","@),
            decreases tied_inputs.len() - i,
        {
            let ghost more = parts.take(i + 1);
            if i > 0 {
                tied_str.append(",");
            }
            push_signed(&mut tied_str, tied_inputs[i]);
            proof {
                assert(more.drop_last() =~= parts.take(i as int));
                assert(more.last() == signed_decimal(tied_inputs@[i as int] as int));
                if i == 0 {
                    assert(tied_str@ =~= more.last());
                }
            }
            i += 1;
        }
        proof {
            assert(parts.take(i as int) =~= parts);
        }
        InlineAsmMultiOp {
            multi_asm_template: Some(asm_template.to_owned()),
            multi_asm_constraints: Some(constraints.to_owned()),
            multi_asm_tied_inputs: Some(tied_str),
            multi_asm_convergent: None,
            inputs,
            results: result_types,
        }
    }

    /// Inline assembly that the threads of a warp have to execute together.
    pub fn new_convergent(
        result_types: Vec<Type>,
        inputs: Vec<Value>,
        asm_template: &str,
        constraints: &str,
        tied_inputs: &[i32],
    ) -> (op: InlineAsmMultiOp)
        ensures
            op.made_of(
                models(result_types@),
                value_models(inputs@),
                asm_template@,
                constraints@,
                tied_inputs@,
            ),
            op.multi_asm_convergent == Some(true),
    {
        let mut op = Self::new(result_types, inputs, asm_template, constraints, tied_inputs);
        op.multi_asm_convergent = Some(true);
        op
    }

    /// Convergent assembly that reads and writes `tied_inputs`, each of them in
    /// the register of one of as many outputs, and reads `other_inputs`.
    pub fn new_tied_convergent(
        num_tied: u32,
        output_ty: Type,
        tied_inputs: Vec<Value>,
        other_inputs: Vec<Value>,
        asm_template: &str,
        output_constraint: &str,
        other_constraints: &str,
    ) -> (op: InlineAsmMultiOp)
        requires
            tied_inputs@.len() == num_tied,
        ensures
            op.made_of(
                Seq::new(num_tied as nat, |i: int| output_ty@),
                value_models(tied_inputs@ + other_inputs@),
                asm_template@,
                tied_operation_constraints(
                    num_tied as nat,
                    output_constraint@,
                    other_constraints@,
                ),
                tied_list(num_tied, other_inputs@.len()),
            ),
            op.multi_asm_convergent == Some(true),
    {
        let mut result_types: Vec<Type> = Vec::new();
        let mut i: u32 = 0;
        while i < num_tied
            invariant
                i <= num_tied,
                result_types@.len() == i,
                forall|k: int| 0 <= k < i ==> #[trigger] result_types@[k]@ == output_ty@,
            decreases num_tied - i,
        {
            result_types.push(output_ty.duplicate());
            i += 1;
        }
        proof {
            assert(models(result_types@) =~= Seq::new(num_tied as nat, |k: int| output_ty@));
        }

        let num_other: usize = other_inputs.len();
        let mut tied: Vec<i32> = Vec::new();
        if num_tied <= 0x7fff_ffff {
            let mut j: u32 = 0;
            while j < num_tied
                invariant
                    j <= num_tied <= 0x7fff_ffff,
                    tied@ == Seq::new(j as nat, |k: int| k as i32),
                decreases num_tied - j,
            {
                let next: i32 = j as i32;
                tied.push(next);
                j += 1;
                proof {
                    assert(tied@ =~= Seq::new(j as nat, |k: int| k as i32));
                }
            }
        }
        let ghost first = tied@;
        let mut j: usize = 0;
        proof {
            assert(first =~= first + Seq::new(0, |k: int| -1i32));
        }
        while j < num_other
            invariant
                j <= num_other,
                tied@ == first + Seq::new(j as nat, |k: int| -1i32),
            decreases num_other - j,
        {
            tied.push(-1);
            j += 1;
            proof {
                assert(tied@ =~= first + Seq::new(j as nat, |k: int| -1i32));
            }
        }
        proof {
            assert(tied@ =~= tied_list(num_tied, other_inputs@.len()));
        }

        let mut inputs = tied_inputs;
        let mut other_inputs = other_inputs;
        inputs.append(&mut other_inputs);

        let mut constraints = String::new();
        let mut i: u32 = 0;
        while i < num_tied
            invariant
                i <= num_tied,
                constraints@ == output_constraints(i as nat, output_constraint@),
            decreases num_tied - i,
        {
            let ghost before = constraints@;
            if i > 0 {
                constraints.push(',');
            }
            constraints.push('=');
            constraints.append(output_constraint);
            i += 1;
            proof {
                assert(constraints@ =~= output_constraints(i as nat, output_constraint@));
            }
        }
        let ghost outputs = constraints@;
        let mut i: u32 = 0;
        proof {
            assert(outputs =~= outputs + tied_constraints(0));
        }
        while i < num_tied
            invariant
                i <= num_tied,
                constraints@ == outputs + tied_constraints(i as nat),
            decreases num_tied - i,
        {
            constraints.push(',');
            push_decimal(&mut constraints, i as u64);
            i += 1;
            proof {
                assert(constraints@ =~= outputs + tied_constraints(i as nat));
            }
        }
        let ghost numbered = constraints@;
        if !is_empty(other_constraints) {
            constraints.push(',');
            constraints.append(other_constraints);
            proof {
                assert(constraints@ =~= numbered + (seq![','] + other_constraints@));
            }
        } else {
            proof {
                assert(constraints@ =~= numbered + Seq::<char>::empty());
            }
        }
        Self::new_convergent(
            result_types,
            inputs,
            asm_template,
            constraints.as_str(),
            tied.as_slice(),
        )
    }

    /// The assembly template.
    pub fn asm_template(&self) -> (text: String)
        ensures
            text@ == text_or_empty(self.multi_asm_template),
    {
        text_of(&self.multi_asm_template)
    }

    /// The constraints.
    pub fn constraints(&self) -> (text: String)
        ensures
            text@ == text_or_empty(self.multi_asm_constraints),
    {
        text_of(&self.multi_asm_constraints)
    }

    /// Which output each input is tied to, `-1` for none.
    pub fn tied_inputs(&self) -> (tied: Vec<i32>)
        ensures
            tied@ == match self.multi_asm_tied_inputs {
                Some(text) => tied_values(text@),
                None => seq![],
            },
            forall|numbers: Seq<i32>|
                text_or_empty(self.multi_asm_tied_inputs) == #[trigger] tied_text(numbers)
                    && self.multi_asm_tied_inputs is Some ==> tied@ == numbers,
    {
        let mut tied: Vec<i32> = Vec::new();
        match &self.multi_asm_tied_inputs {
            None => {},
            Some(text) => {
                let chars = chars_of(text.as_str());
                let mut start: usize = 0;
                let mut i: usize = 0;
                let ghost mut done: Seq<Seq<char>> = seq![];
                proof {
                    assert(chars@.take(0) =~= seq![]);
                    assert(pieces(chars@.take(0), ',') =~= done.push(chars@.subrange(0, 0)));
                }
                while i < chars.len()
                    invariant
                        start <= i <= chars.len(),
                        pieces(chars@.take(i as int), ',') == done.push(
                            chars@.subrange(start as int, i as int),
                        ),
                        tied@ == tied_pieces(done),
                    decreases chars.len() - i,
                {
                    let ghost grown = chars@.take(i + 1);
                    let ghost piece = chars@.subrange(start as int, i as int);
                    proof {
                        assert(grown.drop_last() =~= chars@.take(i as int));
                        assert(grown.last() == chars@[i as int]);
                        assert(done.push(piece).drop_last() =~= done);
                        assert(done.push(piece).last() == piece);
                    }
                    if chars[i] == ',' {
                        push_tied(&mut tied, slice_subrange(chars.as_slice(), start, i));
                        start = i + 1;
                        proof {
                            done = done.push(piece);
                            assert(chars@.subrange(i + 1, i + 1) =~= seq![]);
                            assert(pieces(grown, ',') =~= done.push(
                                chars@.subrange(start as int, i + 1),
                            ));
                        }
                    } else {
                        proof {
                            assert(piece.push(chars@[i as int]) =~= chars@.subrange(
                                start as int,
                                i + 1,
                            ));
                            assert(pieces(grown, ',') =~= done.push(
                                chars@.subrange(start as int, i + 1),
                            ));
                        }
                    }
                    i += 1;
                }
                let ghost piece = chars@.subrange(start as int, i as int);
                push_tied(&mut tied, slice_subrange(chars.as_slice(), start, chars.len()));
                proof {
                    assert(chars@.take(i as int) =~= text@);
                    assert(done.push(piece).drop_last() =~= done);
                }
            },
        }
        proof {
            assert forall|numbers: Seq<i32>|
                text_or_empty(self.multi_asm_tied_inputs) == #[trigger] tied_text(numbers)
                    && self.multi_asm_tied_inputs is Some implies tied@ == numbers by {
                tied_inputs_read_back(numbers);
            }
        }
        tied
    }

    /// Whether the threads of a warp have to execute the assembly together.
    pub fn is_convergent(&self) -> (convergent: bool)
        ensures
            convergent == (self.multi_asm_convergent == Some(true)),
    {
        match self.multi_asm_convergent {
            Some(convergent) => convergent,
            None => false,
        }
    }

    /// The number of results.
    pub fn num_results(&self) -> (count: usize)
        ensures
            count == self.results@.len(),
    {
        self.results.len()
    }

    /// Checks that there are a template, constraints and a list of ties.
    pub fn verify(&self) -> (verdict: Result<(), InlineAsmMultiVerifyErr>)
        ensures
            verdict == if self.multi_asm_template is None {
                Err::<(), _>(InlineAsmMultiVerifyErr::MissingTemplate)
            } else if self.multi_asm_constraints is None {
                Err(InlineAsmMultiVerifyErr::MissingConstraints)
            } else if self.multi_asm_tied_inputs is None {
                Err(InlineAsmMultiVerifyErr::MissingTiedInputs)
            } else {
                Ok(())
            },
    {
        if self.multi_asm_template.is_none() {
            return Err(InlineAsmMultiVerifyErr::MissingTemplate);
        }
        if self.multi_asm_constraints.is_none() {
            return Err(InlineAsmMultiVerifyErr::MissingConstraints);
        }
        if self.multi_asm_tied_inputs.is_none() {
            return Err(InlineAsmMultiVerifyErr::MissingTiedInputs);
        }
        Ok(())
    }
}

/// Tests for the empty text.
fn is_empty(text: &str) -> (empty: bool)
    ensures
        empty == (text@.len() == 0),
{
    text.unicode_len() == 0
}

/// Appends the number of a piece, `-1` for what is no number, nothing for the
/// empty piece.
fn push_tied(tied: &mut Vec<i32>, piece: &[char])
    ensures
        final(tied)@ == if piece@.len() == 0 {
            old(tied)@
        } else {
            old(tied)@.push(
                match signed_value(piece@) {
                    Some(value) => value,
                    None => -1i32,
                },
            )
        },
{
    if piece.len() > 0 {
        match parse_signed(piece) {
            Some(value) => {
                tied.push(value);
            },
            None => {
                tied.push(-1);
            },
        }
    }
}

/// In an operation that ties inputs to outputs, there is an output for each
/// tied input, and the list of ties names for each input the output that it
/// is tied to.
pub proof fn tied_operations_pair_inputs_with_outputs(
    op: InlineAsmMultiOp,
    num_tied: u32,
    output_ty: TypeModel,
    inputs: Seq<ValueModel>,
    template: Seq<char>,
    constraints: Seq<char>,
)
    requires
        num_tied <= i32::MAX,
        inputs.len() >= num_tied,
        op.made_of(
            Seq::new(num_tied as nat, |i: int| output_ty),
            inputs,
            template,
            constraints,
            tied_list(num_tied, (inputs.len() - num_tied) as nat),
        ),
    ensures
        op.results@.len() == num_tied,
        tied_values(text_or_empty(op.multi_asm_tied_inputs)).len() == op.inputs@.len(),
        forall|i: int|
            0 <= i < op.inputs@.len() ==> #[trigger] tied_values(
                text_or_empty(op.multi_asm_tied_inputs),
            )[i] == if i < num_tied {
                i
            } else {
                -1
            },
{
    tied_inputs_read_back(tied_list(num_tied, (inputs.len() - num_tied) as nat));
    assert(models(op.results@).len() == op.results@.len());
    assert(value_models(op.inputs@).len() == op.inputs@.len());
}

/// The names of the assembly operations.
pub open spec fn op_names() -> Set<Seq<char>> {
    set!["llvm.inline_asm"@, "llvm.inline_asm_multi"@]
}

/// Registers the assembly operations.
pub fn register(dialect: &mut Dialect)
    ensures
        final(dialect)@ == old(dialect)@.union(op_names()),
{
    dialect.add_op("llvm.inline_asm");
    dialect.add_op("llvm.inline_asm_multi");
    proof {
        assert(dialect@ =~= old(dialect)@.union(op_names()));
    }
}

/// The constraints of an operation that ties `count` inputs to its outputs: one
/// for each output, then for each tied input the number of its output.
pub open spec fn constraint_list(count: nat, output: Seq<char>) -> Seq<Seq<char>> {
    Seq::new(
        2 * count,
        |i: int|
            if i < count {
                seq!['='] + output
            } else {
                decimal((i - count) as nat)
            },
    )
}

proof fn lemma_constraint_list(count: nat, output: Seq<char>, k: nat)
    requires
        0 < k <= 2 * count,
    ensures
        joined(constraint_list(count, output).take(k as int), seq![',']) == (if k <= count {
            output_constraints(k, output)
        } else {
            output_constraints(count, output) + tied_constraints((k - count) as nat)
        }),
    decreases k,
{
    let parts = constraint_list(count, output).take(k as int);
    let front = constraint_list(count, output).take(k - 1);
    assert(parts.drop_last() =~= front);
    assert(parts.last() == constraint_list(count, output)[k - 1]);
    if k == 1 {
        assert(output_constraints(0, output) =~= seq![]);
        assert(parts[0] =~= output_constraints(1, output));
    } else {
        lemma_constraint_list(count, output, (k - 1) as nat);
        let whole = joined(parts, seq![',']);
        assert(whole == joined(front, seq![',']) + seq![','] + parts.last());
        if k <= count {
            assert(whole =~= output_constraints(k, output));
        } else {
            let ties = (k - count) as nat;
            assert(tied_constraints(ties) == tied_constraints((ties - 1) as nat) + seq![',']
                + decimal((ties - 1) as nat));
            if ties == 1 {
                assert(tied_constraints(0) =~= seq![]);
            }
            assert(whole =~= output_constraints(count, output) + tied_constraints(ties));
        }
    }
}

/// The constraints of an operation with tied inputs, one by one: each output
/// has its constraint behind an equals sign, each tied input names the output of
/// its own position, and the other constraints stand behind these.
pub proof fn constraints_name_outputs_and_then_ties(
    count: nat,
    output: Seq<char>,
    others: Seq<char>,
)
    requires
        count > 0,
        forall|k: int| 0 <= k < output.len() ==> #[trigger] output[k] != ',',
    ensures
        pieces(tied_operation_constraints(count, output, seq![]), ',') == constraint_list(
            count,
            output,
        ),
        others.len() > 0 ==> tied_operation_constraints(count, output, others)
            == tied_operation_constraints(count, output, seq![]) + seq![','] + others,
{
    let parts = constraint_list(count, output);
    lemma_constraint_list(count, output, 2 * count);
    assert(parts.take(2 * count as int) =~= parts);
    assert forall|i: int, k: int| 0 <= i < parts.len() && 0 <= k < parts[i].len() implies
        #[trigger] parts[i][k] != ',' by {
        if i < count {
            if k > 0 {
                assert(parts[i][k] == output[k - 1]);
            }
        } else {
            crate::text::lemma_decimal_round_trip((i - count) as nat);
        }
    }
    lemma_pieces_of_joined(parts, ',');
    assert(tied_operation_constraints(count, output, seq![]) =~= joined(parts, seq![',']));
    assert(tied_operation_constraints(count, output, others) =~= if others.len() > 0 {
        tied_operation_constraints(count, output, seq![]) + seq![','] + others
    } else {
        tied_operation_constraints(count, output, seq![])
    });
}

} // verus!

//! A module as a tree of operations, and what can be read off it.

use crate::text::{begins_with, chars_of, starts_with};
use vstd::prelude::*;

verus! {

/// What is read of an operation itself.
#[derive(Debug)]
pub enum OpKind {
    /// A function of this name.
    Func(String),
    /// A call of the function of this name.
    DirectCall(String),
    /// Any other operation.
    Other,
}

/// An operation with the operations inside it.
#[derive(Debug)]
pub struct Operation {
    /// What the operation is.
    pub kind: OpKind,
    /// How many regions it has.
    pub regions: usize,
    /// The operations of the blocks of its regions, in order.
    pub nested: Vec<Operation>,
    /// What is wrong with the operation itself, if anything is.
    pub fault: Option<String>,
    /// How the operation prints.
    pub text: String,
}

/// The operation and all operations inside it, each in front of those inside
/// it.
pub open spec fn outside_in(op: Operation) -> Seq<Operation>
    decreases op, 0nat,
{
    seq![op] + outside_in_all(op.nested@, op.nested@.len())
}

/// The first `count` operations of a list, each with those inside it.
pub open spec fn outside_in_all(list: Seq<Operation>, count: nat) -> Seq<Operation>
    decreases list, count,
{
    if 0 < count <= list.len() {
        outside_in_all(list, (count - 1) as nat) + outside_in(list[count - 1])
    } else {
        seq![]
    }
}

/// The operation and all operations inside it, each behind those inside it.
pub open spec fn inside_out(op: Operation) -> Seq<Operation>
    decreases op, 0nat,
{
    inside_out_all(op.nested@, op.nested@.len()) + seq![op]
}

/// The first `count` operations of a list, each behind those inside it.
pub open spec fn inside_out_all(list: Seq<Operation>, count: nat) -> Seq<Operation>
    decreases list, count,
{
    if 0 < count <= list.len() {
        inside_out_all(list, (count - 1) as nat) + inside_out(list[count - 1])
    } else {
        seq![]
    }
}

/// The operation declares or calls a function of CUDA's libdevice.
pub open spec fn names_libdevice(kind: OpKind) -> bool {
    match kind {
        OpKind::Func(name) => begins_with(name@, "__nv_"@),
        OpKind::DirectCall(callee) => begins_with(callee@, "__nv_"@),
        OpKind::Other => false,
    }
}

/// Some operation of the list declares or calls a function of libdevice.
pub open spec fn some_libdevice(list: Seq<Operation>) -> bool {
    exists|i: int| 0 <= i < list.len() && names_libdevice(#[trigger] list[i].kind)
}

proof fn lemma_some_libdevice(left: Seq<Operation>, right: Seq<Operation>)
    ensures
        some_libdevice(left + right) <==> some_libdevice(left) || some_libdevice(right),
{
    let both = left + right;
    if some_libdevice(left) {
        let i = choose|i: int| 0 <= i < left.len() && names_libdevice(#[trigger] left[i].kind);
        assert(both[i] == left[i]);
    }
    if some_libdevice(right) {
        let i = choose|i: int| 0 <= i < right.len() && names_libdevice(#[trigger] right[i].kind);
        assert(both[left.len() + i] == right[i]);
    }
    if some_libdevice(both) {
        let i = choose|i: int| 0 <= i < both.len() && names_libdevice(#[trigger] both[i].kind);
        if i < left.len() {
            assert(both[i] == left[i]);
        } else {
            assert(both[i] == right[i - left.len()]);
        }
    }
}

/// Whether a module needs CUDA's libdevice: whether anything in it declares or
/// directly calls a function whose name begins with `__nv_`.
pub fn module_uses_libdevice(module: &Operation) -> (uses: bool)
    ensures
        uses == some_libdevice(outside_in(*module)),
{
    op_uses_libdevice(module)
}

/// Looks for libdevice in an operation and in those inside it.
fn op_uses_libdevice(op: &Operation) -> (uses: bool)
    ensures
        uses == some_libdevice(outside_in(*op)),
    decreases op,
{
    let ghost inner = outside_in_all(op.nested@, op.nested@.len());
    proof {
        lemma_some_libdevice(seq![*op], inner);
        assert(some_libdevice(seq![*op]) <==> names_libdevice(op.kind)) by {
            assert(seq![*op][0] == *op);
        }
    }
    let own = match &op.kind {
        OpKind::Func(name) => starts_with(chars_of(name.as_str()).as_slice(), "__nv_"),
        OpKind::DirectCall(callee) => starts_with(chars_of(callee.as_str()).as_slice(), "__nv_"),
        OpKind::Other => false,
    };
    if own {
        return true;
    }
    let mut i: usize = 0;
    while i < op.nested.len()
        invariant
            i <= op.nested.len(),
            inner == outside_in_all(op.nested@, op.nested@.len()),
            some_libdevice(outside_in(*op)) <==> some_libdevice(inner),
            !some_libdevice(outside_in_all(op.nested@, i as nat)),
        decreases op.nested.len() - i,
    {
        proof {
            assert(decreases_to!(op => op.nested));
            assert(decreases_to!(op.nested => op.nested@));
            assert(decreases_to!(op.nested@ => op.nested@[i as int]));
            lemma_some_libdevice(
                outside_in_all(op.nested@, i as nat),
                outside_in(op.nested@[i as int]),
            );
            lemma_prefix_libdevice(op.nested@, (i + 1) as nat, op.nested@.len());
        }
        if op_uses_libdevice(&op.nested[i]) {
            return true;
        }
        i += 1;
    }
    false
}

proof fn lemma_prefix_libdevice(list: Seq<Operation>, part: nat, whole: nat)
    requires
        part <= whole <= list.len(),
    ensures
        some_libdevice(outside_in_all(list, part)) ==> some_libdevice(outside_in_all(list, whole)),
    decreases whole,
{
    if part < whole {
        lemma_prefix_libdevice(list, part, (whole - 1) as nat);
        lemma_some_libdevice(
            outside_in_all(list, (whole - 1) as nat),
            outside_in(list[whole - 1]),
        );
    }
}

/// `left` comes before `right` in the order of their characters.
pub open spec fn sorts_before(left: Seq<char>, right: Seq<char>) -> bool
    decreases left.len(),
{
    if right.len() == 0 {
        false
    } else if left.len() == 0 {
        true
    } else if left[0] != right[0] {
        left[0] < right[0]
    } else {
        sorts_before(left.drop_first(), right.drop_first())
    }
}

proof fn lemma_sorts_before_chains(a: Seq<char>, b: Seq<char>, c: Seq<char>)
    requires
        sorts_before(a, b),
        sorts_before(b, c),
    ensures
        sorts_before(a, c),
    decreases a.len(),
{
    if a.len() > 0 && a[0] == b[0] && b[0] == c[0] {
        lemma_sorts_before_chains(a.drop_first(), b.drop_first(), c.drop_first());
    }
}

proof fn lemma_sorts_one_way(a: Seq<char>, b: Seq<char>)
    ensures
        sorts_before(a, b) || sorts_before(b, a) || a == b,
        !(sorts_before(a, b) && sorts_before(b, a)),
        sorts_before(a, b) ==> a != b,
    decreases a.len(),
{
    if a.len() > 0 && b.len() > 0 && a[0] == b[0] {
        lemma_sorts_one_way(a.drop_first(), b.drop_first());
        if a.drop_first() == b.drop_first() {
            assert(a =~= seq![a[0]] + a.drop_first());
            assert(b =~= seq![b[0]] + b.drop_first());
        }
    } else if a.len() == 0 && b.len() == 0 {
        assert(a =~= b);
    }
}

/// Tests whether `left` comes before `right`.
fn comes_before(left: &[char], right: &[char]) -> (before: bool)
    ensures
        before == sorts_before(left@, right@),
{
    let mut i: usize = 0;
    proof {
        assert(left@.skip(0) =~= left@);
        assert(right@.skip(0) =~= right@);
    }
    while i < left.len() && i < right.len() && left[i] == right[i]
        invariant
            i <= left.len(),
            i <= right.len(),
            sorts_before(left@, right@) == sorts_before(
                left@.skip(i as int),
                right@.skip(i as int),
            ),
        decreases left.len() - i,
    {
        proof {
            assert(left@.skip(i as int).drop_first() =~= left@.skip(i + 1));
            assert(right@.skip(i as int).drop_first() =~= right@.skip(i + 1));
        }
        i += 1;
    }
    if i >= right.len() {
        false
    } else if i >= left.len() {
        true
    } else {
        left[i] < right[i]
    }
}

/// The names, each before the next.
pub open spec fn sorted(names: Seq<String>) -> bool {
    forall|i: int, j: int|
        0 <= i < j < names.len() ==> sorts_before(#[trigger] names[i]@, #[trigger] names[j]@)
}

/// `name` is one of the names.
pub open spec fn lists(names: Seq<String>, name: Seq<char>) -> bool {
    exists|i: int| 0 <= i < names.len() && #[trigger] names[i]@ == name
}

/// Puts `name` among the names, unless it is there.
fn insert_name(names: &mut Vec<String>, name: String)
    requires
        sorted(old(names)@),
    ensures
        sorted(final(names)@),
        forall|other: Seq<char>| #[trigger]
            lists(final(names)@, other) <==> lists(old(names)@, other) || other == name@,
{
    let ghost before = names@;
    let chars = chars_of(name.as_str());
    let mut at: usize = 0;
    while at < names.len() && comes_before(
        chars_of(names[at].as_str()).as_slice(),
        chars.as_slice(),
    )
        invariant
            at <= names.len(),
            names@ == before,
            chars@ == name@,
            forall|k: int| 0 <= k < at ==> sorts_before(#[trigger] names@[k]@, name@),
        decreases names.len() - at,
    {
        at += 1;
    }
    if at < names.len() && names[at] == name {
        proof {
            assert(names@[at as int]@ == name@);
            assert forall|other: Seq<char>| #[trigger]
                lists(names@, other) <==> lists(before, other) || other == name@ by {
                if other == name@ {
                    assert(names@[at as int]@ == other);
                }
            }
        }
        return;
    }
    let ghost added = name@;
    names.insert(at, name);
    proof {
        let after = names@;
        if at < before.len() {
            lemma_sorts_one_way(before[at as int]@, added);
        }
        assert forall|i: int, j: int| 0 <= i < j < after.len() implies sorts_before(
            #[trigger] after[i]@,
            #[trigger] after[j]@,
        ) by {
            if i < at && j == at {
                assert(after[i] == before[i]);
            } else if i == at {
                assert(after[j] == before[j - 1]);
                if j - 1 > at {
                    assert(sorts_before(before[at as int]@, before[j - 1]@));
                    lemma_sorts_before_chains(added, before[at as int]@, before[j - 1]@);
                }
            } else {
                let p = if i < at {
                    i
                } else {
                    i - 1
                };
                let q = if j < at {
                    j
                } else {
                    j - 1
                };
                assert(after[i] == before[p] && after[j] == before[q]);
            }
        }
        assert forall|other: Seq<char>| #[trigger]
            lists(after, other) <==> lists(before, other) || other == added by {
            if lists(before, other) {
                let i = choose|i: int| 0 <= i < before.len() && #[trigger] before[i]@ == other;
                if i < at {
                    assert(after[i]@ == other);
                } else {
                    assert(after[i + 1]@ == other);
                }
            }
            if other == added {
                assert(after[at as int]@ == other);
            }
            if lists(after, other) {
                let i = choose|i: int| 0 <= i < after.len() && #[trigger] after[i]@ == other;
                if i < at {
                    assert(before[i]@ == other);
                } else if i > at {
                    assert(before[i - 1]@ == other);
                }
            }
        }
    }
}

/// The operation declares a function that has no body and is no intrinsic.
pub open spec fn unresolved(op: Operation) -> Option<Seq<char>> {
    match op.kind {
        OpKind::Func(name) => if op.regions == 0 && !begins_with(name@, "llvm_"@) {
            Some(name@)
        } else {
            None
        },
        _ => None,
    }
}

/// Some operation of the list declares the unresolved function `name`.
pub open spec fn leaves_open(list: Seq<Operation>, name: Seq<char>) -> bool {
    exists|i: int| 0 <= i < list.len() && unresolved(#[trigger] list[i]) == Some(name)
}

proof fn lemma_leaves_open(left: Seq<Operation>, right: Seq<Operation>, name: Seq<char>)
    ensures
        leaves_open(left + right, name) <==> leaves_open(left, name) || leaves_open(right, name),
{
    let both = left + right;
    if leaves_open(left, name) {
        let i = choose|i: int| 0 <= i < left.len() && unresolved(#[trigger] left[i]) == Some(name);
        assert(both[i] == left[i]);
    }
    if leaves_open(right, name) {
        let i = choose|i: int|
            0 <= i < right.len() && unresolved(#[trigger] right[i]) == Some(name);
        assert(both[left.len() + i] == right[i]);
    }
    if leaves_open(both, name) {
        let i = choose|i: int| 0 <= i < both.len() && unresolved(#[trigger] both[i]) == Some(name);
        if i < left.len() {
            assert(both[i] == left[i]);
        } else {
            assert(both[i] == right[i - left.len()]);
        }
    }
}

/// The functions that the module declares without a body and that are no
/// intrinsics, each once and in order.
pub fn unresolved_external_symbols(module: &Operation) -> (symbols: Vec<String>)
    ensures
        sorted(symbols@),
        forall|name: Seq<char>| #[trigger]
            lists(symbols@, name) <==> leaves_open(outside_in(*module), name),
{
    let mut symbols: Vec<String> = Vec::new();
    collect_unresolved_external_symbols(module, &mut symbols);
    symbols
}

/// Adds what an operation and those inside it leave open.
fn collect_unresolved_external_symbols(op: &Operation, symbols: &mut Vec<String>)
    requires
        sorted(old(symbols)@),
    ensures
        sorted(final(symbols)@),
        forall|name: Seq<char>| #[trigger]
            lists(final(symbols)@, name) <==> lists(old(symbols)@, name) || leaves_open(
                outside_in(*op),
                name,
            ),
    decreases op,
{
    let ghost before = symbols@;
    match &op.kind {
        OpKind::Func(name) => {
            if op.regions == 0 && !starts_with(chars_of(name.as_str()).as_slice(), "llvm_") {
                insert_name(symbols, name.clone());
            }
        },
        _ => {},
    }
    let ghost own = seq![*op];
    proof {
        assert forall|name: Seq<char>| #[trigger]
            lists(symbols@, name) <==> lists(before, name) || leaves_open(
                own + outside_in_all(op.nested@, 0),
                name,
            ) by {
            assert(own + outside_in_all(op.nested@, 0) =~= own);
            assert(own[0] == *op);
        }
    }
    let mut i: usize = 0;
    while i < op.nested.len()
        invariant
            i <= op.nested.len(),
            sorted(symbols@),
            forall|name: Seq<char>| #[trigger]
                lists(symbols@, name) <==> lists(before, name) || leaves_open(
                    own + outside_in_all(op.nested@, i as nat),
                    name,
                ),
        decreases op.nested.len() - i,
    {
        let ghost middle = symbols@;
        let ghost part = own + outside_in_all(op.nested@, i as nat);
        proof {
            assert(decreases_to!(op => op.nested));
            assert(decreases_to!(op.nested => op.nested@));
            assert(decreases_to!(op.nested@ => op.nested@[i as int]));
        }
        collect_unresolved_external_symbols(&op.nested[i], symbols);
        proof {
            let child = outside_in(op.nested@[i as int]);
            assert(own + outside_in_all(op.nested@, (i + 1) as nat) =~= part + child);
            assert forall|name: Seq<char>| #[trigger]
                lists(symbols@, name) <==> lists(before, name) || leaves_open(part + child, name) by {
                lemma_leaves_open(part, child, name);
                assert(lists(middle, name) <==> lists(before, name) || leaves_open(part, name));
            }
        }
        i += 1;
    }
}

proof fn lemma_prefix_leaves_open(list: Seq<Operation>, part: nat, whole: nat, name: Seq<char>)
    requires
        part <= whole <= list.len(),
    ensures
        leaves_open(outside_in_all(list, part), name) ==> leaves_open(
            outside_in_all(list, whole),
            name,
        ),
    decreases whole,
{
    if part < whole {
        lemma_prefix_leaves_open(list, part, (whole - 1) as nat, name);
        lemma_leaves_open(
            outside_in_all(list, (whole - 1) as nat),
            outside_in(list[whole - 1]),
            name,
        );
    }
}

/// What an operation needs from outside the module, every operation around it
/// needs too: libdevice, and each function that is declared without a body.
pub proof fn needs_of_nested_operations_are_inherited(op: Operation, i: int, name: Seq<char>)
    requires
        0 <= i < op.nested@.len(),
    ensures
        some_libdevice(outside_in(op.nested@[i])) ==> some_libdevice(outside_in(op)),
        leaves_open(outside_in(op.nested@[i]), name) ==> leaves_open(outside_in(op), name),
{
    let list = op.nested@;
    let inner = outside_in_all(list, list.len());
    lemma_some_libdevice(outside_in_all(list, i as nat), outside_in(list[i]));
    lemma_prefix_libdevice(list, (i + 1) as nat, list.len());
    lemma_some_libdevice(seq![op], inner);
    lemma_leaves_open(outside_in_all(list, i as nat), outside_in(list[i]), name);
    lemma_prefix_leaves_open(list, (i + 1) as nat, list.len(), name);
    lemma_leaves_open(seq![op], inner, name);
}

/// Names are in the order of a dictionary: of two different names one comes
/// first, a name comes before what it begins, and else the first character in
/// which they differ decides.
pub proof fn names_are_in_dictionary_order(
    a: Seq<char>,
    b: Seq<char>,
    common: Seq<char>,
    x: char,
    y: char,
)
    ensures
        sorts_before(a, b) || sorts_before(b, a) <==> a != b,
        !(sorts_before(a, b) && sorts_before(b, a)),
        b.len() > 0 ==> sorts_before(common, common + b),
        x < y ==> sorts_before(common + seq![x] + a, common + seq![y] + b),
    decreases common.len(),
{
    lemma_sorts_one_way(a, b);
    if common.len() > 0 {
        names_are_in_dictionary_order(a, b, common.drop_first(), x, y);
        assert((common + b).drop_first() =~= common.drop_first() + b);
        assert((common + seq![x] + a).drop_first() =~= common.drop_first() + seq![x] + a);
        assert((common + seq![y] + b).drop_first() =~= common.drop_first() + seq![y] + b);
    } else {
        assert(common + b =~= b);
        assert((common + seq![x] + a)[0] == x);
        assert((common + seq![y] + b)[0] == y);
    }
}

/// A module needs libdevice as soon as it declares or directly calls a function
/// named `__nv_` and anything, and an operation without others inside it for no
/// other reason.
pub proof fn libdevice_functions_are_named_nv(
    op: Operation,
    name: String,
    rest: Seq<char>,
    uses: bool,
)
    requires
        call_ensures(module_uses_libdevice, (&op,), uses),
        op.kind == OpKind::Func(name) || op.kind == OpKind::DirectCall(name),
    ensures
        name@ == "__nv_"@ + rest ==> uses,
        op.nested@.len() == 0 && uses ==> exists|back: Seq<char>|
            name@ == #[trigger] ("__nv_"@ + back),
{
    crate::text::occurrences_split_the_text(name@, "__nv_"@);
    let list = outside_in(op);
    assert(list[0] == op);
    if op.nested@.len() == 0 {
        assert(list =~= seq![op]);
    }
    if name@ == "__nv_"@ + rest {
        assert(begins_with(name@, "__nv_"@));
        assert(names_libdevice(list[0].kind));
    }
}

/// An operation that is neither a function nor a direct call needs libdevice
/// exactly if one inside it does.
pub proof fn other_operations_need_what_is_inside(op: Operation, uses: bool)
    requires
        call_ensures(module_uses_libdevice, (&op,), uses),
        op.kind is Other,
    ensures
        uses <==> exists|i: int|
            0 <= i < op.nested@.len() && some_libdevice(outside_in(#[trigger] op.nested@[i])),
{
    let list = op.nested@;
    lemma_some_libdevice(seq![op], outside_in_all(list, list.len()));
    assert(seq![op][0] == op);
    lemma_listed_libdevice(list, list.len());
}

proof fn lemma_listed_libdevice(list: Seq<Operation>, count: nat)
    requires
        count <= list.len(),
    ensures
        some_libdevice(outside_in_all(list, count)) <==> exists|i: int|
            0 <= i < count && some_libdevice(outside_in(#[trigger] list[i])),
    decreases count,
{
    if count > 0 {
        lemma_listed_libdevice(list, (count - 1) as nat);
        lemma_some_libdevice(
            outside_in_all(list, (count - 1) as nat),
            outside_in(list[count - 1]),
        );
        assert(some_libdevice(outside_in(list[count - 1])) ==> some_libdevice(
            outside_in(list[count - 1]),
        ));
    }
}

/// A function without a body is left open under its own name unless it is named
/// `llvm_` and anything; a function with a body leaves nothing open itself, and
/// neither does any other operation.
pub proof fn declared_functions_are_left_open(
    op: Operation,
    name: String,
    symbols: Vec<String>,
    other: Seq<char>,
)
    requires
        call_ensures(unresolved_external_symbols, (&op,), symbols),
    ensures
        op.kind == OpKind::Func(name) && op.regions == 0 && !(exists|back: Seq<char>|
            name@ == #[trigger] ("llvm_"@ + back)) ==> lists(symbols@, name@),
        op.nested@.len() == 0 && lists(symbols@, other) ==> op.regions == 0 && (
        op.kind matches OpKind::Func(own) && own@ == other && !(exists|back: Seq<char>|
            other == #[trigger] ("llvm_"@ + back))),
{
    let list = outside_in(op);
    assert(list[0] == op);
    crate::text::occurrences_split_the_text(name@, "llvm_"@);
    crate::text::occurrences_split_the_text(other, "llvm_"@);
    if op.kind == OpKind::Func(name) && op.regions == 0 && !(exists|back: Seq<char>|
        name@ == #[trigger] ("llvm_"@ + back)) {
        assert(unresolved(list[0]) == Some(name@));
        assert(leaves_open(list, name@));
        assert(lists(symbols@, name@));
    }
    if op.nested@.len() == 0 && lists(symbols@, other) {
        assert(list =~= seq![op]);
        assert(leaves_open(list, other));
    }
}

/// What operations inside an operation leave open, it leaves open, and beside
/// that no more than its own name.
pub proof fn operations_leave_open_what_is_inside(op: Operation, name: Seq<char>)
    ensures
        leaves_open(outside_in(op), name) <==> unresolved(op) == Some(name) || exists|i: int|
            0 <= i < op.nested@.len() && leaves_open(outside_in(#[trigger] op.nested@[i]), name),
{
    let list = op.nested@;
    lemma_leaves_open(seq![op], outside_in_all(list, list.len()), name);
    assert(seq![op][0] == op);
    lemma_listed_open(list, list.len(), name);
}

proof fn lemma_listed_open(list: Seq<Operation>, count: nat, name: Seq<char>)
    requires
        count <= list.len(),
    ensures
        leaves_open(outside_in_all(list, count), name) <==> exists|i: int|
            0 <= i < count && leaves_open(outside_in(#[trigger] list[i]), name),
    decreases count,
{
    if count > 0 {
        lemma_listed_open(list, (count - 1) as nat, name);
        lemma_leaves_open(
            outside_in_all(list, (count - 1) as nat),
            outside_in(list[count - 1]),
            name,
        );
        assert(leaves_open(outside_in(list[count - 1]), name) ==> leaves_open(
            outside_in(list[count - 1]),
            name,
        ));
    }
}

} // verus!

//! Verification of an operation with all operations inside it.

use crate::error::PipelineError;
use crate::module::{inside_out, inside_out_all, Operation};
use vstd::prelude::*;

verus! {

/// No operation of the list is at fault.
pub open spec fn faultless(list: Seq<Operation>) -> bool {
    forall|i: int| 0 <= i < list.len() ==> (#[trigger] list[i]).fault is None
}

/// `op` is the first of the list that is at fault.
pub open spec fn first_fault(list: Seq<Operation>, op: Operation) -> bool {
    exists|i: int|
        {
            &&& 0 <= i < list.len()
            &&& #[trigger] list[i] == op
            &&& op.fault is Some
            &&& faultless(list.take(i))
        }
}

proof fn lemma_first_fault(left: Seq<Operation>, right: Seq<Operation>, op: Operation)
    ensures
        first_fault(left, op) ==> first_fault(left + right, op),
        faultless(left) && first_fault(right, op) ==> first_fault(left + right, op),
        faultless(left + right) <==> faultless(left) && faultless(right),
{
    let both = left + right;
    if first_fault(left, op) {
        let i = choose|i: int|
            {
                &&& 0 <= i < left.len()
                &&& #[trigger] left[i] == op
                &&& op.fault is Some
                &&& faultless(left.take(i))
            };
        assert(both[i] == op);
        assert(both.take(i) =~= left.take(i));
    }
    if faultless(left) && first_fault(right, op) {
        let i = choose|i: int|
            {
                &&& 0 <= i < right.len()
                &&& #[trigger] right[i] == op
                &&& op.fault is Some
                &&& faultless(right.take(i))
            };
        let at = left.len() + i;
        assert(both[at] == op);
        assert forall|k: int| 0 <= k < at implies (#[trigger] both.take(at)[k]).fault is None by {
            if k < left.len() {
                assert(both.take(at)[k] == left[k]);
            } else {
                assert(both.take(at)[k] == right.take(i)[k - left.len()]);
            }
        }
    }
    if faultless(both) {
        assert forall|k: int| 0 <= k < left.len() implies (#[trigger] left[k]).fault is None by {
            assert(both[k] == left[k]);
        }
        assert forall|k: int| 0 <= k < right.len() implies (#[trigger] right[k]).fault is None by {
            assert(both[left.len() + k] == right[k]);
        }
    }
}

proof fn lemma_prefix_fault(list: Seq<Operation>, part: nat, whole: nat, op: Operation)
    requires
        part <= whole <= list.len(),
        first_fault(inside_out_all(list, part), op),
    ensures
        first_fault(inside_out_all(list, whole), op),
    decreases whole,
{
    if part < whole {
        lemma_prefix_fault(list, part, (whole - 1) as nat, op);
        lemma_first_fault(
            inside_out_all(list, (whole - 1) as nat),
            inside_out(list[whole - 1]),
            op,
        );
    }
}

/// The innermost operation at fault: the first that is, where each operation
/// comes behind those inside it.
pub fn find_inner_verification_error(op: &Operation) -> (found: Option<&Operation>)
    ensures
        match found {
            Some(failing) => first_fault(inside_out(*op), *failing),
            None => faultless(inside_out(*op)),
        },
    decreases op,
{
    let ghost inner = inside_out_all(op.nested@, op.nested@.len());
    let ghost own = seq![*op];
    let mut i: usize = 0;
    while i < op.nested.len()
        invariant
            i <= op.nested.len(),
            inner == inside_out_all(op.nested@, op.nested@.len()),
            own == seq![*op],
            faultless(inside_out_all(op.nested@, i as nat)),
        decreases op.nested.len() - i,
    {
        proof {
            assert(decreases_to!(op => op.nested));
            assert(decreases_to!(op.nested => op.nested@));
            assert(decreases_to!(op.nested@ => op.nested@[i as int]));
        }
        match find_inner_verification_error(&op.nested[i]) {
            Some(failing) => {
                proof {
                    lemma_first_fault(
                        inside_out_all(op.nested@, i as nat),
                        inside_out(op.nested@[i as int]),
                        *failing,
                    );
                    lemma_prefix_fault(op.nested@, (i + 1) as nat, op.nested@.len(), *failing);
                    lemma_first_fault(inner, own, *failing);
                }
                return Some(failing);
            },
            None => {
                proof {
                    lemma_first_fault(
                        inside_out_all(op.nested@, i as nat),
                        inside_out(op.nested@[i as int]),
                        *op,
                    );
                }
            },
        }
        i += 1;
    }
    proof {
        lemma_first_fault(inner, own, *op);
    }
    if op.fault.is_some() {
        proof {
            assert(own[0] == *op);
            assert(own.take(0) =~= seq![]);
            assert(first_fault(own, *op));
        }
        return Some(op);
    }
    proof {
        assert(own[0] == *op);
    }
    None
}

/// Verifies an operation and all operations inside it. Of several faults the
/// innermost is reported, with the operation that is at fault.
pub fn verify_operation(op: &Operation, name: &str) -> (verdict: Result<(), PipelineError>)
    ensures
        faultless(inside_out(*op)) <==> verdict is Ok,
        !faultless(inside_out(*op)) ==> exists|failing: Operation|
            #![trigger first_fault(inside_out(*op), failing)]
            first_fault(inside_out(*op), failing) && (verdict matches Err(
                PipelineError::Verification { name: reported, message, operation: Some(text) },
            ) && reported@ == name@ && message@ == failing.fault->Some_0@ && text@
                == failing.text@),
{
    match find_inner_verification_error(op) {
        None => Ok(()),
        Some(failing) => {
            let message = match &failing.fault {
                Some(message) => message.clone(),
                None => vstd::pervasive::unreached(),
            };
            proof {
                let i = choose|i: int|
                    {
                        &&& 0 <= i < inside_out(*op).len()
                        &&& #[trigger] inside_out(*op)[i] == *failing
                        &&& failing.fault is Some
                        &&& faultless(inside_out(*op).take(i))
                    };
                assert(inside_out(*op)[i].fault is Some);
            }
            Err(
                PipelineError::Verification {
                    name: name.to_owned(),
                    message,
                    operation: Some(failing.text.clone()),
                },
            )
        },
    }
}

/// In the listing of an operation, each operation stands behind its own listing.
proof fn lemma_listing(op: Operation, i: int)
    requires
        0 <= i < inside_out(op).len(),
    ensures
        ({
            let own = inside_out(inside_out(op)[i]);
            own.len() <= i + 1 && inside_out(op).subrange(i + 1 - own.len(), i + 1) == own
        }),
    decreases op, 0nat,
{
    let inner = inside_out_all(op.nested@, op.nested@.len());
    let list = inside_out(op);
    if i < inner.len() {
        lemma_listing_all(op.nested@, op.nested@.len(), i);
        let own = inside_out(inner[i]);
        assert(list[i] == inner[i]);
        assert(list.subrange(i + 1 - own.len(), i + 1) =~= inner.subrange(
            i + 1 - own.len(),
            i + 1,
        ));
    } else {
        assert(list[i] == op);
        assert(list.subrange(0, i + 1) =~= list);
    }
}

proof fn lemma_listing_all(list: Seq<Operation>, count: nat, i: int)
    requires
        count <= list.len(),
        0 <= i < inside_out_all(list, count).len(),
    ensures
        ({
            let own = inside_out(inside_out_all(list, count)[i]);
            own.len() <= i + 1 && inside_out_all(list, count).subrange(i + 1 - own.len(), i + 1)
                == own
        }),
    decreases list, count,
{
    if count > 0 {
        let front = inside_out_all(list, (count - 1) as nat);
        let last = inside_out(list[count - 1]);
        let whole = inside_out_all(list, count);
        if i < front.len() {
            lemma_listing_all(list, (count - 1) as nat, i);
            let own = inside_out(front[i]);
            assert(whole[i] == front[i]);
            assert(whole.subrange(i + 1 - own.len(), i + 1) =~= front.subrange(
                i + 1 - own.len(),
                i + 1,
            ));
        } else {
            let k = i - front.len();
            lemma_listing(list[count - 1], k);
            let own = inside_out(last[k]);
            assert(whole[i] == last[k]);
            assert(whole.subrange(i + 1 - own.len(), i + 1) =~= last.subrange(
                k + 1 - own.len(),
                k + 1,
            ));
        }
    }
}

/// The operation that is reported is the innermost one: nothing inside it is at
/// fault.
pub proof fn reported_faults_are_innermost(op: Operation, failing: Operation)
    requires
        first_fault(inside_out(op), failing),
    ensures
        failing.fault is Some,
        faultless(inside_out_all(failing.nested@, failing.nested@.len())),
{
    let list = inside_out(op);
    let i = choose|i: int|
        {
            &&& 0 <= i < list.len()
            &&& #[trigger] list[i] == failing
            &&& failing.fault is Some
            &&& faultless(list.take(i))
        };
    lemma_listing(op, i);
    let own = inside_out(failing);
    let inner = inside_out_all(failing.nested@, failing.nested@.len());
    let from = i + 1 - own.len();
    assert forall|k: int| 0 <= k < inner.len() implies (#[trigger] inner[k]).fault is None by {
        assert(own[k] == inner[k]);
        assert(list.subrange(from, i + 1)[k] == own[k]);
        assert(list.take(i)[from + k] == inner[k]);
    }
}

/// Verification fails exactly if the operation or one inside it is at fault;
/// what is wrong inside comes first, from the first operation inside on, and an
/// operation is blamed for its own fault only where nothing inside it is wrong.
pub proof fn faults_are_reported_from_the_inside(
    op: Operation,
    name: &str,
    verdict: Result<(), PipelineError>,
)
    requires
        call_ensures(verify_operation, (&op, name), verdict),
    ensures
        verdict is Ok <==> op.fault is None && forall|i: int|
            0 <= i < op.nested@.len() ==> faultless(inside_out(#[trigger] op.nested@[i])),
        (op.fault is Some && forall|i: int|
            0 <= i < op.nested@.len() ==> faultless(inside_out(#[trigger] op.nested@[i])))
            ==> verdict->Err_0.text() == op.fault->Some_0@,
        verdict matches Err(error) ==> error matches PipelineError::Verification {
            name: reported,
            ..
        } && reported@ == name@,
{
    let list = op.nested@;
    let inner = inside_out_all(list, list.len());
    lemma_first_fault(inner, seq![op], op);
    assert(seq![op][0] == op);
    lemma_listed_faultless(list, list.len());
    if op.fault is Some && faultless(inner) {
        let failing = choose|failing: Operation| #[trigger]
            first_fault(inside_out(op), failing) && (verdict matches Err(
                PipelineError::Verification { name: reported, message, operation: Some(text) },
            ) && reported@ == name@ && message@ == failing.fault->Some_0@ && text@
                == failing.text@);
        let i = choose|i: int|
            {
                &&& 0 <= i < inside_out(op).len()
                &&& #[trigger] inside_out(op)[i] == failing
                &&& failing.fault is Some
                &&& faultless(inside_out(op).take(i))
            };
        if i < inner.len() {
            assert(inside_out(op)[i] == inner[i]);
        }
        assert(failing == op);
    }
}

proof fn lemma_listed_faultless(list: Seq<Operation>, count: nat)
    requires
        count <= list.len(),
    ensures
        faultless(inside_out_all(list, count)) <==> forall|i: int|
            0 <= i < count ==> faultless(inside_out(#[trigger] list[i])),
    decreases count,
{
    if count > 0 {
        lemma_listed_faultless(list, (count - 1) as nat);
        let last = list[count - 1];
        lemma_first_fault(inside_out_all(list, (count - 1) as nat), inside_out(last), last);
    }
}

} // verus!

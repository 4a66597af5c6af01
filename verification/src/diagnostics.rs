//! What the diagnostics say: each part that they are given stands behind the
//! phrase that it belongs to.

use vstd::prelude::*;

use crate::arch::CudaArch;
use crate::error::PipelineError;
use crate::kernel_family::{KernelFamilyBuildError, KernelSelectionError};
use crate::llvm::ops::aggregate::InsertValueVerifyErr;
use crate::llvm::ops::call::CallTypeErr;
use crate::target::detect::{detect_module_requirements_in_llvm_file, ModuleRequirements};
use crate::target::features::DetectedFeatures;
use crate::target::select::{
    rejected_message, select_target, selection_is_unique, selects,
    validate_target_features, validate_target_for_llvm_major,
};
use crate::text::{begins_with, decimal, finishes_with, occurs, occurs_at};

verus! {

proof fn lemma_behind(front: Seq<char>, phrase: Seq<char>, value: Seq<char>, back: Seq<char>)
    ensures
        occurs(front + phrase + value + back, phrase + value),
{
    let text = front + phrase + value + back;
    assert(text.subrange(front.len() as int, front.len() as int + (phrase + value).len())
        =~= phrase + value);
    assert(occurs_at(text, front.len() as int, phrase + value));
}

proof fn lemma_begins(front: Seq<char>, back: Seq<char>)
    ensures
        begins_with(front + back, front),
        finishes_with(front + back, back),
{
    let text = front + back;
    assert(text.subrange(0, front.len() as int) =~= front);
    assert(text.subrange(text.len() - back.len(), text.len() - back.len() + back.len()) =~= back);
}

/// A target that lacks a feature is named in the message, and so is the target
/// that would be selected in its place.
pub proof fn rejections_name_both_targets(
    target: CudaArch,
    features: DetectedFeatures,
    valid: Result<(), String>,
    selected: Result<&'static str, String>,
)
    requires
        call_ensures(validate_target_features, (&target, features), valid),
        call_ensures(select_target, (features,), selected),
        selected is Ok,
        valid is Err,
    ensures
        begins_with(valid->Err_0@, "CUDA target "@ + target.sm_name()),
        occurs(
            valid->Err_0@,
            "; cuda-oxide requires a target compatible with "@ + selected->Ok_0@,
        ),
{
    let message = valid->Err_0@;
    let name = target.sm_name();
    let compatible = choose|compatible: Seq<char>|
        selects(features@, compatible) && message == #[trigger] rejected_message(
            name,
            features@,
            compatible,
        );
    selection_is_unique(features@, compatible, selected->Ok_0@);
    let described = crate::target::features::description(features@);
    let head = "CUDA target "@ + name;
    let front = head + " cannot lower detected feature "@ + described;
    lemma_behind(
        front,
        "; cuda-oxide requires a target compatible with "@,
        compatible,
        " for this module"@,
    );
    let rest = " cannot lower detected feature "@ + described
        + "; cuda-oxide requires a target compatible with "@ + compatible + " for this module"@;
    lemma_begins(head, rest);
    assert(message =~= head + rest);
}

/// A backend that cannot build for a target says for which, and its own version
/// where it is known.
pub proof fn backend_rejections_name_target_and_version(
    target: &str,
    major: u32,
    known: Result<(), String>,
    unknown: Result<(), String>,
)
    requires
        call_ensures(validate_target_for_llvm_major, (target, Some(major)), known),
        call_ensures(validate_target_for_llvm_major, (target, None::<u32>), unknown),
    ensures
        known is Err ==> begins_with(known->Err_0@, "CUDA target "@ + target@) && occurs(
            known->Err_0@,
            "LLVM "@ + decimal(major as nat),
        ),
        unknown is Err ==> begins_with(unknown->Err_0@, "CUDA target "@ + target@),
{
    let head = "CUDA target "@ + target@;
    let middle = " requires LLVM 22 or newer; "@;
    let tail = " does not reliably emit valid PTX for this PTX 9.0 target"@;
    if known is Err {
        let backend = "LLVM "@ + decimal(major as nat);
        let rest = middle + backend + tail;
        lemma_begins(head, rest);
        assert(known->Err_0@ =~= head + rest);
        lemma_behind(head + middle, "LLVM "@, decimal(major as nat), tail);
        assert(known->Err_0@ =~= head + middle + "LLVM "@ + decimal(major as nat) + tail);
    }
    if unknown is Err {
        let rest = middle + "an LLVM backend with an unknown version"@ + tail;
        lemma_begins(head, rest);
        assert(unknown->Err_0@ =~= head + rest);
    }
}

/// A file that could not be read is named, and the reason stands at the end.
pub proof fn unread_files_are_named(
    path: &str,
    reason: &str,
    detected: Result<ModuleRequirements, PipelineError>,
)
    requires
        call_ensures(
            detect_module_requirements_in_llvm_file,
            (path, Err::<&str, &str>(reason)),
            detected,
        ),
    ensures
        detected is Err,
        begins_with(detected->Err_0.text(), "failed to inspect generated LLVM IR "@ + path@),
        finishes_with(detected->Err_0.text(), ": "@ + reason@),
{
    let head = "failed to inspect generated LLVM IR "@ + path@;
    lemma_begins(head, ": "@ + reason@);
    assert(detected->Err_0.text() =~= head + (": "@ + reason@));
}

/// A selection that failed names the variant and gives the cause, each in its
/// place.
pub proof fn selection_errors_name_variant_and_cause<Id, Rejection, SelectorError, CacheError>(
    error: KernelSelectionError<Id, Rejection, SelectorError, CacheError>,
    id_text: &str,
    cause: &str,
    message: String,
)
    requires
        call_ensures(
            KernelSelectionError::<Id, Rejection, SelectorError, CacheError>::message,
            (&error, id_text, cause),
            message,
        ),
    ensures
        match error {
            KernelSelectionError::UnknownForcedVariant { .. } => begins_with(
                message@,
                "forced kernel variant "@ + id_text@,
            ),
            KernelSelectionError::IneligibleForcedVariant { .. } => {
                &&& begins_with(message@, "forced kernel variant "@ + id_text@)
                &&& finishes_with(message@, " is ineligible: "@ + cause@)
            },
            KernelSelectionError::NoEligibleVariants { family, variant_count } => {
                &&& begins_with(message@, "no variant in kernel family "@ + family.text())
                &&& finishes_with(
                    message@,
                    " is eligible ("@ + decimal(variant_count as nat) + " checked)"@,
                )
            },
            KernelSelectionError::SelectorFailed(_) => finishes_with(
                message@,
                "selector failed: "@ + cause@,
            ),
            KernelSelectionError::SelectorReturnedUnknownVariant { .. } => finishes_with(
                message@,
                "unknown variant "@ + id_text@,
            ),
            KernelSelectionError::SelectorReturnedIneligibleVariant { .. } => finishes_with(
                message@,
                "ineligible variant "@ + id_text@,
            ),
            KernelSelectionError::CacheLookupFailed(_) => finishes_with(
                message@,
                "lookup failed: "@ + cause@,
            ),
            KernelSelectionError::CacheStoreFailed(_) => finishes_with(
                message@,
                "store failed: "@ + cause@,
            ),
        },
{
    match error {
        KernelSelectionError::UnknownForcedVariant { .. } => {
            lemma_begins("forced kernel variant "@ + id_text@, " is not part of the family"@);
        },
        KernelSelectionError::IneligibleForcedVariant { .. } => {
            let head = "forced kernel variant "@ + id_text@;
            lemma_begins(head, " is ineligible: "@ + cause@);
            assert(message@ =~= head + (" is ineligible: "@ + cause@));
        },
        KernelSelectionError::NoEligibleVariants { family, variant_count } => {
            let head = "no variant in kernel family "@ + family.text();
            let tail = " is eligible ("@ + decimal(variant_count as nat) + " checked)"@;
            lemma_begins(head, tail);
            assert(message@ =~= head + tail);
        },
        KernelSelectionError::SelectorFailed(_) => {
            reveal_strlit("kernel selector failed: ");
            reveal_strlit("kernel ");
            reveal_strlit("selector failed: ");
            lemma_begins("kernel "@, "selector failed: "@ + cause@);
            assert(message@ =~= "kernel "@ + ("selector failed: "@ + cause@));
        },
        KernelSelectionError::SelectorReturnedUnknownVariant { .. } => {
            reveal_strlit("kernel selector returned unknown variant ");
            reveal_strlit("kernel selector returned ");
            reveal_strlit("unknown variant ");
            lemma_begins("kernel selector returned "@, "unknown variant "@ + id_text@);
            assert(message@ =~= "kernel selector returned "@ + ("unknown variant "@ + id_text@));
        },
        KernelSelectionError::SelectorReturnedIneligibleVariant { .. } => {
            reveal_strlit("kernel selector returned ineligible variant ");
            reveal_strlit("kernel selector returned ");
            reveal_strlit("ineligible variant ");
            lemma_begins("kernel selector returned "@, "ineligible variant "@ + id_text@);
            assert(message@ =~= "kernel selector returned "@ + ("ineligible variant "@
                + id_text@));
        },
        KernelSelectionError::CacheLookupFailed(_) => {
            reveal_strlit("kernel selection cache lookup failed: ");
            reveal_strlit("kernel selection cache ");
            reveal_strlit("lookup failed: ");
            lemma_begins("kernel selection cache "@, "lookup failed: "@ + cause@);
            assert(message@ =~= "kernel selection cache "@ + ("lookup failed: "@ + cause@));
        },
        KernelSelectionError::CacheStoreFailed(_) => {
            reveal_strlit("kernel selection cache store failed: ");
            reveal_strlit("kernel selection cache ");
            reveal_strlit("store failed: ");
            lemma_begins("kernel selection cache "@, "store failed: "@ + cause@);
            assert(message@ =~= "kernel selection cache "@ + ("store failed: "@ + cause@));
        },
    }
}

/// Two variants with one ID are reported by their positions, the earlier first.
pub proof fn duplicates_are_reported_by_position(
    first_index: usize,
    duplicate_index: usize,
    message: String,
)
    requires
        call_ensures(
            KernelFamilyBuildError::message,
            (&(KernelFamilyBuildError::DuplicateVariantId { first_index, duplicate_index }),),
            message,
        ),
    ensures
        occurs(message@, " at indices "@ + decimal(first_index as nat)),
        finishes_with(message@, " and "@ + decimal(duplicate_index as nat)),
{
    reveal_strlit("kernel family contains duplicate variant IDs at indices ");
    reveal_strlit("kernel family contains duplicate variant IDs");
    reveal_strlit(" at indices ");
    let front = "kernel family contains duplicate variant IDs"@;
    let first = decimal(first_index as nat);
    let tail = " and "@ + decimal(duplicate_index as nat);
    lemma_behind(front, " at indices "@, first, tail);
    lemma_begins(front + " at indices "@ + first, tail);
    assert(message@ =~= front + " at indices "@ + first + tail);
}

/// A mismatch of types says which type was expected and which was found, each
/// behind its own word.
pub proof fn mismatches_say_what_was_expected_and_found(
    call: CallTypeErr,
    insertion: InsertValueVerifyErr,
    expected: &str,
    found: &str,
    call_message: String,
    insertion_message: String,
)
    requires
        call is ArgumentType || call is ResultType || call is CalleeType,
        insertion is SlotMismatch,
        call_ensures(CallTypeErr::message, (&call, expected, found), call_message),
        call_ensures(
            InsertValueVerifyErr::message,
            (&insertion, expected, found),
            insertion_message,
        ),
    ensures
        occurs(call_message@, "expected "@ + expected@),
        finishes_with(call_message@, ", got "@ + found@),
        call matches CallTypeErr::ArgumentType { index, .. } ==> begins_with(
            call_message@,
            "argument "@ + decimal(index as nat),
        ),
        occurs(insertion_message@, ": slot expects "@ + expected@),
        finishes_with(insertion_message@, " but value is "@ + found@),
{
    let tail = ", got "@ + found@;
    match call {
        CallTypeErr::ArgumentType { index, .. } => {
            reveal_strlit(" type mismatch: expected ");
            reveal_strlit(" type mismatch: ");
            reveal_strlit("expected ");
            let head = "argument "@ + decimal(index as nat);
            let front = head + " type mismatch: "@;
            lemma_behind(front, "expected "@, expected@, tail);
            lemma_begins(front + "expected "@ + expected@, tail);
            assert(call_message@ =~= front + "expected "@ + expected@ + tail);
            let rest = " type mismatch: "@ + "expected "@ + expected@ + tail;
            lemma_begins(head, rest);
            assert(call_message@ =~= head + rest);
        },
        CallTypeErr::ResultType { .. } => {
            reveal_strlit("result type mismatch: expected ");
            reveal_strlit("result type mismatch: ");
            reveal_strlit("expected ");
            let front = "result type mismatch: "@;
            lemma_behind(front, "expected "@, expected@, tail);
            lemma_begins(front + "expected "@ + expected@, tail);
            assert(call_message@ =~= front + "expected "@ + expected@ + tail);
        },
        _ => {
            let front = Seq::<char>::empty();
            lemma_behind(front, "expected "@, expected@, tail);
            lemma_begins(front + "expected "@ + expected@, tail);
            assert(call_message@ =~= front + "expected "@ + expected@ + tail);
        },
    }
    let indices = insertion->SlotMismatch_indices@;
    let front = "insert_value type mismatch at "@ + crate::text::list_of(indices);
    let back = " but value is "@ + found@;
    lemma_behind(front, ": slot expects "@, expected@, back);
    lemma_begins(front + ": slot expects "@ + expected@, back);
    assert(insertion_message@ =~= front + ": slot expects "@ + expected@ + back);
}

} // verus!

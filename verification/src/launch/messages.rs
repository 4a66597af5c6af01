//! What the messages of a refused launch say.

use vstd::prelude::*;

use crate::launch::error::{shape_text, LaunchAxis, LaunchContractError, LaunchDimension};
use crate::text::{begins_with, decimal, occurs, occurs_at};

verus! {

/// A name in front of a phrase that begins with a colon.
proof fn lemma_begun(name: Seq<char>, phrase: Seq<char>)
    requires
        opens(phrase),
    ensures
        begins_with(name + phrase, name + ": "@),
{
    reveal_strlit(": ");
    assert((name + phrase).subrange(0, (name + ": "@).len() as int) =~= name + ": "@);
}

/// The phrase begins with a colon and a space.
spec fn opens(phrase: Seq<char>) -> bool {
    phrase.len() >= 2 && phrase[0] == ':' && phrase[1] == ' '
}

/// The text says this phrase with this value behind it.
pub open spec fn says(text: Seq<char>, phrase: Seq<char>, value: Seq<char>) -> bool {
    occurs(text, phrase + value)
}

proof fn lemma_said(front: Seq<char>, phrase: Seq<char>, value: Seq<char>)
    ensures
        says(front + phrase + value, phrase, value),
{
    let text = front + phrase + value;
    assert(text.subrange(front.len() as int, front.len() as int + (phrase + value).len()) =~= phrase
        + value);
    assert(occurs_at(text, front.len() as int, phrase + value));
}

proof fn lemma_said_in_parts(
    front: Seq<char>,
    phrase: Seq<char>,
    one: Seq<char>,
    two: Seq<char>,
    three: Seq<char>,
)
    ensures
        says(front + phrase + one + two + three, phrase, one + two + three),
{
    lemma_said(front, phrase, one + two + three);
    assert(front + phrase + one + two + three =~= front + phrase + (one + two + three));
}

proof fn lemma_still_said(text: Seq<char>, more: Seq<char>, phrase: Seq<char>, value: Seq<char>)
    requires
        says(text, phrase, value),
    ensures
        says(text + more, phrase, value),
{
    let at = choose|at: int| #[trigger] occurs_at(text, at, phrase + value);
    let n = (phrase + value).len();
    assert((text + more).subrange(at, at + n) =~= text.subrange(at, at + n));
    assert(occurs_at(text + more, at, phrase + value));
}

proof fn lemma_still_begun(text: Seq<char>, more: Seq<char>, begin: Seq<char>)
    requires
        begins_with(text, begin),
    ensures
        begins_with(text + more, begin),
{
    assert((text + more).subrange(0, begin.len() as int) =~= text.subrange(
        0,
        begin.len() as int,
    ));
}

/// A message begins with the kernel that it is about, and says each number under
/// the phrase that belongs to it.
#[verifier::rlimit(60)]
pub proof fn messages_say_their_numbers(
    error: LaunchContractError,
    driver_text: &str,
    message: String,
)
    requires
        call_ensures(LaunchContractError::message, (&error, driver_text), message),
    ensures
        match error {
            LaunchContractError::EmptyKernelName => true,
            LaunchContractError::ZeroDimension { kernel, dimension, axis } => {
                &&& begins_with(message@, kernel@ + ": "@)
                &&& says(message@, ": "@, dimension.spelling())
                &&& says(message@, "."@, axis.spelling())
            },
            LaunchContractError::DimensionProductOverflow { kernel, dimension } => {
                &&& begins_with(message@, kernel@ + ": "@)
                &&& says(message@, ": "@, dimension.spelling())
                &&& says(message@, dimension.spelling(), " dimension product overflowed"@)
            },
            LaunchContractError::InvalidSharedMemoryAlignment { kernel, alignment } => {
                &&& begins_with(message@, kernel@ + ": "@)
                &&& says(message@, ": dynamic shared-memory alignment "@, decimal(alignment as nat))
                &&& says(message@, decimal(alignment as nat), " is not a nonzero power of two"@)
            },
            LaunchContractError::InvalidSharedMemoryRange { kernel, min_bytes, max_bytes } => {
                &&& begins_with(message@, kernel@ + ": "@)
                &&& says(message@, ": dynamic shared-memory range "@, decimal(min_bytes as nat))
                &&& says(message@, "..="@, decimal(max_bytes as nat))
            },
            LaunchContractError::BlockShapeMismatch { kernel, required, actual } => {
                &&& begins_with(message@, kernel@ + ": "@)
                &&& says(message@, ": block "@, shape_text(actual))
                &&& says(message@, " does not match required block "@, shape_text(required))
            },
            LaunchContractError::BlockThreadsExceedContract { kernel, actual, max } => {
                &&& begins_with(message@, kernel@ + ": "@)
                &&& says(message@, ": block has "@, decimal(actual as nat))
                &&& says(message@, " threads; contract maximum is "@, decimal(max as nat))
            },
            LaunchContractError::DynamicSharedMemoryExactMismatch { kernel, required, actual } => {
                &&& begins_with(message@, kernel@ + ": "@)
                &&& says(message@, ": dynamic shared memory is "@, decimal(actual as nat))
                &&& says(message@, " bytes; contract requires "@, decimal(required as nat))
            },
            LaunchContractError::DynamicSharedMemoryOutsideRange { kernel, min, max, actual } => {
                &&& begins_with(message@, kernel@ + ": "@)
                &&& says(message@, ": dynamic shared memory is "@, decimal(actual as nat))
                &&& says(message@, " bytes; contract permits "@, decimal(min as nat))
                &&& says(message@, "..="@, decimal(max as nat))
            },
            LaunchContractError::ClusterDoesNotDivideGrid { kernel, axis, grid, cluster } => {
                &&& begins_with(message@, kernel@ + ": "@)
                &&& says(message@, ": cluster "@, axis.spelling())
                &&& says(message@, " size "@, decimal(cluster as nat))
                &&& says(message@, " does not divide grid size "@, decimal(grid as nat))
            },
            LaunchContractError::DeviceDimensionExceeded { kernel, dimension, axis, actual, max } => {
                &&& begins_with(message@, kernel@ + ": "@)
                &&& says(message@, ": "@, dimension.spelling())
                &&& says(message@, "."@, axis.spelling())
                &&& says(message@, " size "@, decimal(actual as nat))
                &&& says(message@, " exceeds device maximum "@, decimal(max as nat))
            },
            LaunchContractError::DeviceThreadsPerBlockExceeded { kernel, actual, max } => {
                &&& begins_with(message@, kernel@ + ": "@)
                &&& says(message@, ": block has "@, decimal(actual as nat))
                &&& says(message@, " threads; device maximum is "@, decimal(max as nat))
            },
            LaunchContractError::FunctionThreadsPerBlockExceeded { kernel, actual, max } => {
                &&& begins_with(message@, kernel@ + ": "@)
                &&& says(message@, ": block has "@, decimal(actual as nat))
                &&& says(message@, " threads; function maximum is "@, decimal(max as nat))
            },
            LaunchContractError::SharedMemoryTotalOverflow { kernel, static_bytes, dynamic_bytes } => {
                &&& begins_with(message@, kernel@ + ": "@)
                &&& says(message@, decimal(static_bytes as nat), " static + "@)
                &&& says(
                    message@,
                    decimal(dynamic_bytes as nat),
                    " dynamic shared-memory bytes overflowed"@,
                )
            },
            LaunchContractError::DeviceSharedMemoryExceeded { kernel, total, max, opt_in } => {
                &&& begins_with(message@, kernel@ + ": "@)
                &&& says(
                    message@,
                    decimal(total as nat),
                    " shared-memory bytes exceed the device "@,
                )
                &&& says(
                    message@,
                    " shared-memory bytes exceed the device "@,
                    (if opt_in { "opt-in"@ } else { "portable"@ }),
                )
                &&& says(message@, " limit "@, decimal(max as nat))
            },
            LaunchContractError::ComputeCapabilityTooLow { kernel, required, actual } => {
                &&& begins_with(message@, kernel@ + ": "@)
                &&& says(
                    message@,
                    ": compute capability "@,
                    decimal(actual.0 as nat) + "."@ + decimal(actual.1 as nat),
                )
                &&& says(
                    message@,
                    " is below required "@,
                    decimal(required.0 as nat) + "."@ + decimal(required.1 as nat),
                )
            },
            LaunchContractError::CooperativeLaunchUnsupported { kernel } => {
                &&& begins_with(message@, kernel@ + ": "@)
                &&& says(
                    message@,
                    ": device does not support cooperative launch"@,
                    Seq::<char>::empty(),
                )
            },
            LaunchContractError::ClusterLaunchUnsupported { kernel } => {
                &&& begins_with(message@, kernel@ + ": "@)
                &&& says(
                    message@,
                    ": device does not support cluster launch"@,
                    Seq::<char>::empty(),
                )
            },
            LaunchContractError::ClusterSizeExceeded { kernel, blocks, max } => {
                &&& begins_with(message@, kernel@ + ": "@)
                &&& says(message@, ": cluster has "@, decimal(blocks as nat))
                &&& says(message@, " blocks; live maximum is "@, decimal(max as nat))
            },
            LaunchContractError::FunctionClusterShapeMismatch { kernel, declared, required } => {
                &&& begins_with(message@, kernel@ + ": "@)
                &&& says(message@, ": declared cluster "@, shape_text(declared))
                &&& says(
                    message@,
                    " does not match function-required cluster "@,
                    shape_text(required),
                )
            },
            LaunchContractError::RequiredClusterDimensionsMissing { kernel, declared } => {
                &&& begins_with(message@, kernel@ + ": "@)
                &&& says(message@, ": declared cluster "@, shape_text(declared))
                &&& says(
                    message@,
                    shape_text(declared),
                    " is missing from the compiled function metadata"@,
                )
            },
            LaunchContractError::ClusterShapeUnsupported { kernel, cluster } => {
                &&& begins_with(message@, kernel@ + ": "@)
                &&& says(message@, ": cluster shape "@, shape_text(cluster))
                &&& says(message@, shape_text(cluster), " is unsupported for this launch"@)
            },
            LaunchContractError::ClusterHasNoResidency { kernel, cluster } => {
                &&& begins_with(message@, kernel@ + ": "@)
                &&& says(message@, ": no cluster with shape "@, shape_text(cluster))
                &&& says(message@, shape_text(cluster), " can be resident"@)
            },
            LaunchContractError::ClusteredCooperativeValidationUnsupported { kernel } => {
                &&& begins_with(message@, kernel@ + ": "@)
                &&& says(
                    message@,
                    ": clustered cooperative residency cannot be validated by this API"@,
                    Seq::<char>::empty(),
                )
            },
            LaunchContractError::CooperativeGridTooLarge { kernel, blocks, resident_capacity } => {
                &&& begins_with(message@, kernel@ + ": "@)
                &&& says(message@, ": cooperative grid has "@, decimal(blocks as nat))
                &&& says(message@, " blocks but only "@, decimal(resident_capacity as nat))
            },
            LaunchContractError::ContextMismatch { kernel, function_device, stream_device } => {
                &&& begins_with(message@, kernel@ + ": "@)
                &&& says(message@, ": function is on device "@, decimal(function_device as nat))
                &&& says(message@, ", stream is on device "@, decimal(stream_device as nat))
            },
            LaunchContractError::Driver(_) => message@ == driver_text@,
        },
{
    reveal_strlit(": ");
    reveal_strlit(": dynamic shared-memory alignment ");
    reveal_strlit(": dynamic shared-memory range ");
    reveal_strlit(": block ");
    reveal_strlit(": block has ");
    reveal_strlit(": dynamic shared memory is ");
    reveal_strlit(": cluster ");
    reveal_strlit(": compute capability ");
    reveal_strlit(": device does not support cooperative launch");
    reveal_strlit(": device does not support cluster launch");
    reveal_strlit(": cluster has ");
    reveal_strlit(": declared cluster ");
    reveal_strlit(": cluster shape ");
    reveal_strlit(": no cluster with shape ");
    reveal_strlit(": clustered cooperative residency cannot be validated by this API");
    reveal_strlit(": cooperative grid has ");
    reveal_strlit(": function is on device ");
    match error {
        LaunchContractError::EmptyKernelName => {},
        LaunchContractError::ZeroDimension { kernel, dimension, axis } => {
            lemma_said(kernel@, ": "@, dimension.spelling());
            lemma_still_said(
                kernel@ + ": "@ + dimension.spelling(),
                "."@,
                ": "@,
                dimension.spelling(),
            );
            lemma_still_said(
                kernel@ + ": "@ + dimension.spelling() + "."@,
                axis.spelling(),
                ": "@,
                dimension.spelling(),
            );
            lemma_still_said(
                kernel@ + ": "@ + dimension.spelling() + "."@ + axis.spelling(),
                " must be nonzero"@,
                ": "@,
                dimension.spelling(),
            );
            lemma_said(kernel@ + ": "@ + dimension.spelling(), "."@, axis.spelling());
            lemma_still_said(
                kernel@ + ": "@ + dimension.spelling() + "."@ + axis.spelling(),
                " must be nonzero"@,
                "."@,
                axis.spelling(),
            );
            lemma_begun(kernel@, ": "@);
            lemma_still_begun(kernel@ + ": "@, dimension.spelling(), kernel@ + ": "@);
            lemma_still_begun(kernel@ + ": "@ + dimension.spelling(), "."@, kernel@ + ": "@);
            lemma_still_begun(
                kernel@ + ": "@ + dimension.spelling() + "."@,
                axis.spelling(),
                kernel@ + ": "@,
            );
            lemma_still_begun(
                kernel@ + ": "@ + dimension.spelling() + "."@ + axis.spelling(),
                " must be nonzero"@,
                kernel@ + ": "@,
            );
        },
        LaunchContractError::DimensionProductOverflow { kernel, dimension } => {
            lemma_said(kernel@, ": "@, dimension.spelling());
            lemma_still_said(
                kernel@ + ": "@ + dimension.spelling(),
                " dimension product overflowed"@,
                ": "@,
                dimension.spelling(),
            );
            lemma_said(kernel@ + ": "@, dimension.spelling(), " dimension product overflowed"@);
            lemma_begun(kernel@, ": "@);
            lemma_still_begun(kernel@ + ": "@, dimension.spelling(), kernel@ + ": "@);
            lemma_still_begun(
                kernel@ + ": "@ + dimension.spelling(),
                " dimension product overflowed"@,
                kernel@ + ": "@,
            );
        },
        LaunchContractError::InvalidSharedMemoryAlignment { kernel, alignment } => {
            lemma_said(kernel@, ": dynamic shared-memory alignment "@, decimal(alignment as nat));
            lemma_still_said(
                kernel@ + ": dynamic shared-memory alignment "@ + decimal(alignment as nat),
                " is not a nonzero power of two"@,
                ": dynamic shared-memory alignment "@,
                decimal(alignment as nat),
            );
            lemma_said(
                kernel@ + ": dynamic shared-memory alignment "@,
                decimal(alignment as nat),
                " is not a nonzero power of two"@,
            );
            lemma_begun(kernel@, ": dynamic shared-memory alignment "@);
            lemma_still_begun(
                kernel@ + ": dynamic shared-memory alignment "@,
                decimal(alignment as nat),
                kernel@ + ": "@,
            );
            lemma_still_begun(
                kernel@ + ": dynamic shared-memory alignment "@ + decimal(alignment as nat),
                " is not a nonzero power of two"@,
                kernel@ + ": "@,
            );
        },
        LaunchContractError::InvalidSharedMemoryRange { kernel, min_bytes, max_bytes } => {
            lemma_said(kernel@, ": dynamic shared-memory range "@, decimal(min_bytes as nat));
            lemma_still_said(
                kernel@ + ": dynamic shared-memory range "@ + decimal(min_bytes as nat),
                "..="@,
                ": dynamic shared-memory range "@,
                decimal(min_bytes as nat),
            );
            lemma_still_said(
                kernel@ + ": dynamic shared-memory range "@ + decimal(min_bytes as nat) + "..="@,
                decimal(max_bytes as nat),
                ": dynamic shared-memory range "@,
                decimal(min_bytes as nat),
            );
            lemma_still_said(
                kernel@ + ": dynamic shared-memory range "@ + decimal(min_bytes as nat) + "..="@
                    + decimal(max_bytes as nat),
                " is invalid"@,
                ": dynamic shared-memory range "@,
                decimal(min_bytes as nat),
            );
            lemma_said(
                kernel@ + ": dynamic shared-memory range "@ + decimal(min_bytes as nat),
                "..="@,
                decimal(max_bytes as nat),
            );
            lemma_still_said(
                kernel@ + ": dynamic shared-memory range "@ + decimal(min_bytes as nat) + "..="@
                    + decimal(max_bytes as nat),
                " is invalid"@,
                "..="@,
                decimal(max_bytes as nat),
            );
            lemma_begun(kernel@, ": dynamic shared-memory range "@);
            lemma_still_begun(
                kernel@ + ": dynamic shared-memory range "@,
                decimal(min_bytes as nat),
                kernel@ + ": "@,
            );
            lemma_still_begun(
                kernel@ + ": dynamic shared-memory range "@ + decimal(min_bytes as nat),
                "..="@,
                kernel@ + ": "@,
            );
            lemma_still_begun(
                kernel@ + ": dynamic shared-memory range "@ + decimal(min_bytes as nat) + "..="@,
                decimal(max_bytes as nat),
                kernel@ + ": "@,
            );
            lemma_still_begun(
                kernel@ + ": dynamic shared-memory range "@ + decimal(min_bytes as nat) + "..="@
                    + decimal(max_bytes as nat),
                " is invalid"@,
                kernel@ + ": "@,
            );
        },
        LaunchContractError::BlockShapeMismatch { kernel, required, actual } => {
            lemma_said(kernel@, ": block "@, shape_text(actual));
            lemma_still_said(
                kernel@ + ": block "@ + shape_text(actual),
                " does not match required block "@,
                ": block "@,
                shape_text(actual),
            );
            lemma_still_said(
                kernel@ + ": block "@ + shape_text(actual) + " does not match required block "@,
                shape_text(required),
                ": block "@,
                shape_text(actual),
            );
            lemma_said(
                kernel@ + ": block "@ + shape_text(actual),
                " does not match required block "@,
                shape_text(required),
            );
            lemma_begun(kernel@, ": block "@);
            lemma_still_begun(kernel@ + ": block "@, shape_text(actual), kernel@ + ": "@);
            lemma_still_begun(
                kernel@ + ": block "@ + shape_text(actual),
                " does not match required block "@,
                kernel@ + ": "@,
            );
            lemma_still_begun(
                kernel@ + ": block "@ + shape_text(actual) + " does not match required block "@,
                shape_text(required),
                kernel@ + ": "@,
            );
        },
        LaunchContractError::BlockThreadsExceedContract { kernel, actual, max } => {
            lemma_said(kernel@, ": block has "@, decimal(actual as nat));
            lemma_still_said(
                kernel@ + ": block has "@ + decimal(actual as nat),
                " threads; contract maximum is "@,
                ": block has "@,
                decimal(actual as nat),
            );
            lemma_still_said(
                kernel@ + ": block has "@ + decimal(actual as nat)
                    + " threads; contract maximum is "@,
                decimal(max as nat),
                ": block has "@,
                decimal(actual as nat),
            );
            lemma_said(
                kernel@ + ": block has "@ + decimal(actual as nat),
                " threads; contract maximum is "@,
                decimal(max as nat),
            );
            lemma_begun(kernel@, ": block has "@);
            lemma_still_begun(kernel@ + ": block has "@, decimal(actual as nat), kernel@ + ": "@);
            lemma_still_begun(
                kernel@ + ": block has "@ + decimal(actual as nat),
                " threads; contract maximum is "@,
                kernel@ + ": "@,
            );
            lemma_still_begun(
                kernel@ + ": block has "@ + decimal(actual as nat)
                    + " threads; contract maximum is "@,
                decimal(max as nat),
                kernel@ + ": "@,
            );
        },
        LaunchContractError::DynamicSharedMemoryExactMismatch { kernel, required, actual } => {
            lemma_said(kernel@, ": dynamic shared memory is "@, decimal(actual as nat));
            lemma_still_said(
                kernel@ + ": dynamic shared memory is "@ + decimal(actual as nat),
                " bytes; contract requires "@,
                ": dynamic shared memory is "@,
                decimal(actual as nat),
            );
            lemma_still_said(
                kernel@ + ": dynamic shared memory is "@ + decimal(actual as nat)
                    + " bytes; contract requires "@,
                decimal(required as nat),
                ": dynamic shared memory is "@,
                decimal(actual as nat),
            );
            lemma_said(
                kernel@ + ": dynamic shared memory is "@ + decimal(actual as nat),
                " bytes; contract requires "@,
                decimal(required as nat),
            );
            lemma_begun(kernel@, ": dynamic shared memory is "@);
            lemma_still_begun(
                kernel@ + ": dynamic shared memory is "@,
                decimal(actual as nat),
                kernel@ + ": "@,
            );
            lemma_still_begun(
                kernel@ + ": dynamic shared memory is "@ + decimal(actual as nat),
                " bytes; contract requires "@,
                kernel@ + ": "@,
            );
            lemma_still_begun(
                kernel@ + ": dynamic shared memory is "@ + decimal(actual as nat)
                    + " bytes; contract requires "@,
                decimal(required as nat),
                kernel@ + ": "@,
            );
        },
        LaunchContractError::DynamicSharedMemoryOutsideRange { kernel, min, max, actual } => {
            lemma_said(kernel@, ": dynamic shared memory is "@, decimal(actual as nat));
            lemma_still_said(
                kernel@ + ": dynamic shared memory is "@ + decimal(actual as nat),
                " bytes; contract permits "@,
                ": dynamic shared memory is "@,
                decimal(actual as nat),
            );
            lemma_still_said(
                kernel@ + ": dynamic shared memory is "@ + decimal(actual as nat)
                    + " bytes; contract permits "@,
                decimal(min as nat),
                ": dynamic shared memory is "@,
                decimal(actual as nat),
            );
            lemma_still_said(
                kernel@ + ": dynamic shared memory is "@ + decimal(actual as nat)
                    + " bytes; contract permits "@ + decimal(min as nat),
                "..="@,
                ": dynamic shared memory is "@,
                decimal(actual as nat),
            );
            lemma_still_said(
                kernel@ + ": dynamic shared memory is "@ + decimal(actual as nat)
                    + " bytes; contract permits "@ + decimal(min as nat) + "..="@,
                decimal(max as nat),
                ": dynamic shared memory is "@,
                decimal(actual as nat),
            );
            lemma_said(
                kernel@ + ": dynamic shared memory is "@ + decimal(actual as nat),
                " bytes; contract permits "@,
                decimal(min as nat),
            );
            lemma_still_said(
                kernel@ + ": dynamic shared memory is "@ + decimal(actual as nat)
                    + " bytes; contract permits "@ + decimal(min as nat),
                "..="@,
                " bytes; contract permits "@,
                decimal(min as nat),
            );
            lemma_still_said(
                kernel@ + ": dynamic shared memory is "@ + decimal(actual as nat)
                    + " bytes; contract permits "@ + decimal(min as nat) + "..="@,
                decimal(max as nat),
                " bytes; contract permits "@,
                decimal(min as nat),
            );
            lemma_said(
                kernel@ + ": dynamic shared memory is "@ + decimal(actual as nat)
                    + " bytes; contract permits "@ + decimal(min as nat),
                "..="@,
                decimal(max as nat),
            );
            lemma_begun(kernel@, ": dynamic shared memory is "@);
            lemma_still_begun(
                kernel@ + ": dynamic shared memory is "@,
                decimal(actual as nat),
                kernel@ + ": "@,
            );
            lemma_still_begun(
                kernel@ + ": dynamic shared memory is "@ + decimal(actual as nat),
                " bytes; contract permits "@,
                kernel@ + ": "@,
            );
            lemma_still_begun(
                kernel@ + ": dynamic shared memory is "@ + decimal(actual as nat)
                    + " bytes; contract permits "@,
                decimal(min as nat),
                kernel@ + ": "@,
            );
            lemma_still_begun(
                kernel@ + ": dynamic shared memory is "@ + decimal(actual as nat)
                    + " bytes; contract permits "@ + decimal(min as nat),
                "..="@,
                kernel@ + ": "@,
            );
            lemma_still_begun(
                kernel@ + ": dynamic shared memory is "@ + decimal(actual as nat)
                    + " bytes; contract permits "@ + decimal(min as nat) + "..="@,
                decimal(max as nat),
                kernel@ + ": "@,
            );
        },
        LaunchContractError::ClusterDoesNotDivideGrid { kernel, axis, grid, cluster } => {
            lemma_said(kernel@, ": cluster "@, axis.spelling());
            lemma_still_said(
                kernel@ + ": cluster "@ + axis.spelling(),
                " size "@,
                ": cluster "@,
                axis.spelling(),
            );
            lemma_still_said(
                kernel@ + ": cluster "@ + axis.spelling() + " size "@,
                decimal(cluster as nat),
                ": cluster "@,
                axis.spelling(),
            );
            lemma_still_said(
                kernel@ + ": cluster "@ + axis.spelling() + " size "@ + decimal(cluster as nat),
                " does not divide grid size "@,
                ": cluster "@,
                axis.spelling(),
            );
            lemma_still_said(
                kernel@ + ": cluster "@ + axis.spelling() + " size "@ + decimal(cluster as nat)
                    + " does not divide grid size "@,
                decimal(grid as nat),
                ": cluster "@,
                axis.spelling(),
            );
            lemma_said(
                kernel@ + ": cluster "@ + axis.spelling(),
                " size "@,
                decimal(cluster as nat),
            );
            lemma_still_said(
                kernel@ + ": cluster "@ + axis.spelling() + " size "@ + decimal(cluster as nat),
                " does not divide grid size "@,
                " size "@,
                decimal(cluster as nat),
            );
            lemma_still_said(
                kernel@ + ": cluster "@ + axis.spelling() + " size "@ + decimal(cluster as nat)
                    + " does not divide grid size "@,
                decimal(grid as nat),
                " size "@,
                decimal(cluster as nat),
            );
            lemma_said(
                kernel@ + ": cluster "@ + axis.spelling() + " size "@ + decimal(cluster as nat),
                " does not divide grid size "@,
                decimal(grid as nat),
            );
            lemma_begun(kernel@, ": cluster "@);
            lemma_still_begun(kernel@ + ": cluster "@, axis.spelling(), kernel@ + ": "@);
            lemma_still_begun(
                kernel@ + ": cluster "@ + axis.spelling(),
                " size "@,
                kernel@ + ": "@,
            );
            lemma_still_begun(
                kernel@ + ": cluster "@ + axis.spelling() + " size "@,
                decimal(cluster as nat),
                kernel@ + ": "@,
            );
            lemma_still_begun(
                kernel@ + ": cluster "@ + axis.spelling() + " size "@ + decimal(cluster as nat),
                " does not divide grid size "@,
                kernel@ + ": "@,
            );
            lemma_still_begun(
                kernel@ + ": cluster "@ + axis.spelling() + " size "@ + decimal(cluster as nat)
                    + " does not divide grid size "@,
                decimal(grid as nat),
                kernel@ + ": "@,
            );
        },
        LaunchContractError::DeviceDimensionExceeded { kernel, dimension, axis, actual, max } => {
            lemma_said(kernel@, ": "@, dimension.spelling());
            lemma_still_said(
                kernel@ + ": "@ + dimension.spelling(),
                "."@,
                ": "@,
                dimension.spelling(),
            );
            lemma_still_said(
                kernel@ + ": "@ + dimension.spelling() + "."@,
                axis.spelling(),
                ": "@,
                dimension.spelling(),
            );
            lemma_still_said(
                kernel@ + ": "@ + dimension.spelling() + "."@ + axis.spelling(),
                " size "@,
                ": "@,
                dimension.spelling(),
            );
            lemma_still_said(
                kernel@ + ": "@ + dimension.spelling() + "."@ + axis.spelling() + " size "@,
                decimal(actual as nat),
                ": "@,
                dimension.spelling(),
            );
            lemma_still_said(
                kernel@ + ": "@ + dimension.spelling() + "."@ + axis.spelling() + " size "@
                    + decimal(actual as nat),
                " exceeds device maximum "@,
                ": "@,
                dimension.spelling(),
            );
            lemma_still_said(
                kernel@ + ": "@ + dimension.spelling() + "."@ + axis.spelling() + " size "@
                    + decimal(actual as nat) + " exceeds device maximum "@,
                decimal(max as nat),
                ": "@,
                dimension.spelling(),
            );
            lemma_said(kernel@ + ": "@ + dimension.spelling(), "."@, axis.spelling());
            lemma_still_said(
                kernel@ + ": "@ + dimension.spelling() + "."@ + axis.spelling(),
                " size "@,
                "."@,
                axis.spelling(),
            );
            lemma_still_said(
                kernel@ + ": "@ + dimension.spelling() + "."@ + axis.spelling() + " size "@,
                decimal(actual as nat),
                "."@,
                axis.spelling(),
            );
            lemma_still_said(
                kernel@ + ": "@ + dimension.spelling() + "."@ + axis.spelling() + " size "@
                    + decimal(actual as nat),
                " exceeds device maximum "@,
                "."@,
                axis.spelling(),
            );
            lemma_still_said(
                kernel@ + ": "@ + dimension.spelling() + "."@ + axis.spelling() + " size "@
                    + decimal(actual as nat) + " exceeds device maximum "@,
                decimal(max as nat),
                "."@,
                axis.spelling(),
            );
            lemma_said(
                kernel@ + ": "@ + dimension.spelling() + "."@ + axis.spelling(),
                " size "@,
                decimal(actual as nat),
            );
            lemma_still_said(
                kernel@ + ": "@ + dimension.spelling() + "."@ + axis.spelling() + " size "@
                    + decimal(actual as nat),
                " exceeds device maximum "@,
                " size "@,
                decimal(actual as nat),
            );
            lemma_still_said(
                kernel@ + ": "@ + dimension.spelling() + "."@ + axis.spelling() + " size "@
                    + decimal(actual as nat) + " exceeds device maximum "@,
                decimal(max as nat),
                " size "@,
                decimal(actual as nat),
            );
            lemma_said(
                kernel@ + ": "@ + dimension.spelling() + "."@ + axis.spelling() + " size "@
                    + decimal(actual as nat),
                " exceeds device maximum "@,
                decimal(max as nat),
            );
            lemma_begun(kernel@, ": "@);
            lemma_still_begun(kernel@ + ": "@, dimension.spelling(), kernel@ + ": "@);
            lemma_still_begun(kernel@ + ": "@ + dimension.spelling(), "."@, kernel@ + ": "@);
            lemma_still_begun(
                kernel@ + ": "@ + dimension.spelling() + "."@,
                axis.spelling(),
                kernel@ + ": "@,
            );
            lemma_still_begun(
                kernel@ + ": "@ + dimension.spelling() + "."@ + axis.spelling(),
                " size "@,
                kernel@ + ": "@,
            );
            lemma_still_begun(
                kernel@ + ": "@ + dimension.spelling() + "."@ + axis.spelling() + " size "@,
                decimal(actual as nat),
                kernel@ + ": "@,
            );
            lemma_still_begun(
                kernel@ + ": "@ + dimension.spelling() + "."@ + axis.spelling() + " size "@
                    + decimal(actual as nat),
                " exceeds device maximum "@,
                kernel@ + ": "@,
            );
            lemma_still_begun(
                kernel@ + ": "@ + dimension.spelling() + "."@ + axis.spelling() + " size "@
                    + decimal(actual as nat) + " exceeds device maximum "@,
                decimal(max as nat),
                kernel@ + ": "@,
            );
        },
        LaunchContractError::DeviceThreadsPerBlockExceeded { kernel, actual, max } => {
            lemma_said(kernel@, ": block has "@, decimal(actual as nat));
            lemma_still_said(
                kernel@ + ": block has "@ + decimal(actual as nat),
                " threads; device maximum is "@,
                ": block has "@,
                decimal(actual as nat),
            );
            lemma_still_said(
                kernel@ + ": block has "@ + decimal(actual as nat)
                    + " threads; device maximum is "@,
                decimal(max as nat),
                ": block has "@,
                decimal(actual as nat),
            );
            lemma_said(
                kernel@ + ": block has "@ + decimal(actual as nat),
                " threads; device maximum is "@,
                decimal(max as nat),
            );
            lemma_begun(kernel@, ": block has "@);
            lemma_still_begun(kernel@ + ": block has "@, decimal(actual as nat), kernel@ + ": "@);
            lemma_still_begun(
                kernel@ + ": block has "@ + decimal(actual as nat),
                " threads; device maximum is "@,
                kernel@ + ": "@,
            );
            lemma_still_begun(
                kernel@ + ": block has "@ + decimal(actual as nat)
                    + " threads; device maximum is "@,
                decimal(max as nat),
                kernel@ + ": "@,
            );
        },
        LaunchContractError::FunctionThreadsPerBlockExceeded { kernel, actual, max } => {
            lemma_said(kernel@, ": block has "@, decimal(actual as nat));
            lemma_still_said(
                kernel@ + ": block has "@ + decimal(actual as nat),
                " threads; function maximum is "@,
                ": block has "@,
                decimal(actual as nat),
            );
            lemma_still_said(
                kernel@ + ": block has "@ + decimal(actual as nat)
                    + " threads; function maximum is "@,
                decimal(max as nat),
                ": block has "@,
                decimal(actual as nat),
            );
            lemma_said(
                kernel@ + ": block has "@ + decimal(actual as nat),
                " threads; function maximum is "@,
                decimal(max as nat),
            );
            lemma_begun(kernel@, ": block has "@);
            lemma_still_begun(kernel@ + ": block has "@, decimal(actual as nat), kernel@ + ": "@);
            lemma_still_begun(
                kernel@ + ": block has "@ + decimal(actual as nat),
                " threads; function maximum is "@,
                kernel@ + ": "@,
            );
            lemma_still_begun(
                kernel@ + ": block has "@ + decimal(actual as nat)
                    + " threads; function maximum is "@,
                decimal(max as nat),
                kernel@ + ": "@,
            );
        },
        LaunchContractError::SharedMemoryTotalOverflow { kernel, static_bytes, dynamic_bytes } => {
            lemma_said(kernel@ + ": "@, decimal(static_bytes as nat), " static + "@);
            lemma_still_said(
                kernel@ + ": "@ + decimal(static_bytes as nat) + " static + "@,
                decimal(dynamic_bytes as nat),
                decimal(static_bytes as nat),
                " static + "@,
            );
            lemma_still_said(
                kernel@ + ": "@ + decimal(static_bytes as nat) + " static + "@
                    + decimal(dynamic_bytes as nat),
                " dynamic shared-memory bytes overflowed"@,
                decimal(static_bytes as nat),
                " static + "@,
            );
            lemma_said(
                kernel@ + ": "@ + decimal(static_bytes as nat) + " static + "@,
                decimal(dynamic_bytes as nat),
                " dynamic shared-memory bytes overflowed"@,
            );
            lemma_begun(kernel@, ": "@);
            lemma_still_begun(kernel@ + ": "@, decimal(static_bytes as nat), kernel@ + ": "@);
            lemma_still_begun(
                kernel@ + ": "@ + decimal(static_bytes as nat),
                " static + "@,
                kernel@ + ": "@,
            );
            lemma_still_begun(
                kernel@ + ": "@ + decimal(static_bytes as nat) + " static + "@,
                decimal(dynamic_bytes as nat),
                kernel@ + ": "@,
            );
            lemma_still_begun(
                kernel@ + ": "@ + decimal(static_bytes as nat) + " static + "@
                    + decimal(dynamic_bytes as nat),
                " dynamic shared-memory bytes overflowed"@,
                kernel@ + ": "@,
            );
        },
        LaunchContractError::DeviceSharedMemoryExceeded { kernel, total, max, opt_in } => {
            lemma_said(
                kernel@ + ": "@,
                decimal(total as nat),
                " shared-memory bytes exceed the device "@,
            );
            lemma_still_said(
                kernel@ + ": "@ + decimal(total as nat)
                    + " shared-memory bytes exceed the device "@,
                (if opt_in { "opt-in"@ } else { "portable"@ }),
                decimal(total as nat),
                " shared-memory bytes exceed the device "@,
            );
            lemma_still_said(
                kernel@ + ": "@ + decimal(total as nat)
                    + " shared-memory bytes exceed the device "@
                    + (if opt_in { "opt-in"@ } else { "portable"@ }),
                " limit "@,
                decimal(total as nat),
                " shared-memory bytes exceed the device "@,
            );
            lemma_still_said(
                kernel@ + ": "@ + decimal(total as nat)
                    + " shared-memory bytes exceed the device "@
                    + (if opt_in { "opt-in"@ } else { "portable"@ }) + " limit "@,
                decimal(max as nat),
                decimal(total as nat),
                " shared-memory bytes exceed the device "@,
            );
            lemma_said(
                kernel@ + ": "@ + decimal(total as nat),
                " shared-memory bytes exceed the device "@,
                (if opt_in { "opt-in"@ } else { "portable"@ }),
            );
            lemma_still_said(
                kernel@ + ": "@ + decimal(total as nat)
                    + " shared-memory bytes exceed the device "@
                    + (if opt_in { "opt-in"@ } else { "portable"@ }),
                " limit "@,
                " shared-memory bytes exceed the device "@,
                (if opt_in { "opt-in"@ } else { "portable"@ }),
            );
            lemma_still_said(
                kernel@ + ": "@ + decimal(total as nat)
                    + " shared-memory bytes exceed the device "@
                    + (if opt_in { "opt-in"@ } else { "portable"@ }) + " limit "@,
                decimal(max as nat),
                " shared-memory bytes exceed the device "@,
                (if opt_in { "opt-in"@ } else { "portable"@ }),
            );
            lemma_said(
                kernel@ + ": "@ + decimal(total as nat)
                    + " shared-memory bytes exceed the device "@
                    + (if opt_in { "opt-in"@ } else { "portable"@ }),
                " limit "@,
                decimal(max as nat),
            );
            lemma_begun(kernel@, ": "@);
            lemma_still_begun(kernel@ + ": "@, decimal(total as nat), kernel@ + ": "@);
            lemma_still_begun(
                kernel@ + ": "@ + decimal(total as nat),
                " shared-memory bytes exceed the device "@,
                kernel@ + ": "@,
            );
            lemma_still_begun(
                kernel@ + ": "@ + decimal(total as nat)
                    + " shared-memory bytes exceed the device "@,
                (if opt_in { "opt-in"@ } else { "portable"@ }),
                kernel@ + ": "@,
            );
            lemma_still_begun(
                kernel@ + ": "@ + decimal(total as nat)
                    + " shared-memory bytes exceed the device "@
                    + (if opt_in { "opt-in"@ } else { "portable"@ }),
                " limit "@,
                kernel@ + ": "@,
            );
            lemma_still_begun(
                kernel@ + ": "@ + decimal(total as nat)
                    + " shared-memory bytes exceed the device "@
                    + (if opt_in { "opt-in"@ } else { "portable"@ }) + " limit "@,
                decimal(max as nat),
                kernel@ + ": "@,
            );
        },
        LaunchContractError::ComputeCapabilityTooLow { kernel, required, actual } => {
            lemma_said_in_parts(
                kernel@,
                ": compute capability "@,
                decimal(actual.0 as nat),
                "."@,
                decimal(actual.1 as nat),
            );
            lemma_still_said(
                kernel@ + ": compute capability "@ + decimal(actual.0 as nat) + "."@
                    + decimal(actual.1 as nat),
                " is below required "@,
                ": compute capability "@,
                decimal(actual.0 as nat) + "."@ + decimal(actual.1 as nat),
            );
            lemma_still_said(
                kernel@ + ": compute capability "@ + decimal(actual.0 as nat) + "."@
                    + decimal(actual.1 as nat) + " is below required "@,
                decimal(required.0 as nat),
                ": compute capability "@,
                decimal(actual.0 as nat) + "."@ + decimal(actual.1 as nat),
            );
            lemma_still_said(
                kernel@ + ": compute capability "@ + decimal(actual.0 as nat) + "."@
                    + decimal(actual.1 as nat) + " is below required "@
                    + decimal(required.0 as nat),
                "."@,
                ": compute capability "@,
                decimal(actual.0 as nat) + "."@ + decimal(actual.1 as nat),
            );
            lemma_still_said(
                kernel@ + ": compute capability "@ + decimal(actual.0 as nat) + "."@
                    + decimal(actual.1 as nat) + " is below required "@
                    + decimal(required.0 as nat) + "."@,
                decimal(required.1 as nat),
                ": compute capability "@,
                decimal(actual.0 as nat) + "."@ + decimal(actual.1 as nat),
            );
            lemma_said_in_parts(
                kernel@ + ": compute capability "@ + decimal(actual.0 as nat) + "."@
                    + decimal(actual.1 as nat),
                " is below required "@,
                decimal(required.0 as nat),
                "."@,
                decimal(required.1 as nat),
            );
            lemma_begun(kernel@, ": compute capability "@);
            lemma_still_begun(
                kernel@ + ": compute capability "@,
                decimal(actual.0 as nat),
                kernel@ + ": "@,
            );
            lemma_still_begun(
                kernel@ + ": compute capability "@ + decimal(actual.0 as nat),
                "."@,
                kernel@ + ": "@,
            );
            lemma_still_begun(
                kernel@ + ": compute capability "@ + decimal(actual.0 as nat) + "."@,
                decimal(actual.1 as nat),
                kernel@ + ": "@,
            );
            lemma_still_begun(
                kernel@ + ": compute capability "@ + decimal(actual.0 as nat) + "."@
                    + decimal(actual.1 as nat),
                " is below required "@,
                kernel@ + ": "@,
            );
            lemma_still_begun(
                kernel@ + ": compute capability "@ + decimal(actual.0 as nat) + "."@
                    + decimal(actual.1 as nat) + " is below required "@,
                decimal(required.0 as nat),
                kernel@ + ": "@,
            );
            lemma_still_begun(
                kernel@ + ": compute capability "@ + decimal(actual.0 as nat) + "."@
                    + decimal(actual.1 as nat) + " is below required "@
                    + decimal(required.0 as nat),
                "."@,
                kernel@ + ": "@,
            );
            lemma_still_begun(
                kernel@ + ": compute capability "@ + decimal(actual.0 as nat) + "."@
                    + decimal(actual.1 as nat) + " is below required "@
                    + decimal(required.0 as nat) + "."@,
                decimal(required.1 as nat),
                kernel@ + ": "@,
            );
        },
        LaunchContractError::CooperativeLaunchUnsupported { kernel } => {
            lemma_said(
                kernel@,
                ": device does not support cooperative launch"@,
                Seq::<char>::empty(),
            );
            assert(
                kernel@ + ": device does not support cooperative launch"@
                    + Seq::<char>::empty() =~= kernel@
                    + ": device does not support cooperative launch"@
            );
            lemma_begun(kernel@, ": device does not support cooperative launch"@);
        },
        LaunchContractError::ClusterLaunchUnsupported { kernel } => {
            lemma_said(kernel@, ": device does not support cluster launch"@, Seq::<char>::empty());
            assert(
                kernel@ + ": device does not support cluster launch"@
                    + Seq::<char>::empty() =~= kernel@
                    + ": device does not support cluster launch"@
            );
            lemma_begun(kernel@, ": device does not support cluster launch"@);
        },
        LaunchContractError::ClusterSizeExceeded { kernel, blocks, max } => {
            lemma_said(kernel@, ": cluster has "@, decimal(blocks as nat));
            lemma_still_said(
                kernel@ + ": cluster has "@ + decimal(blocks as nat),
                " blocks; live maximum is "@,
                ": cluster has "@,
                decimal(blocks as nat),
            );
            lemma_still_said(
                kernel@ + ": cluster has "@ + decimal(blocks as nat) + " blocks; live maximum is "@,
                decimal(max as nat),
                ": cluster has "@,
                decimal(blocks as nat),
            );
            lemma_said(
                kernel@ + ": cluster has "@ + decimal(blocks as nat),
                " blocks; live maximum is "@,
                decimal(max as nat),
            );
            lemma_begun(kernel@, ": cluster has "@);
            lemma_still_begun(kernel@ + ": cluster has "@, decimal(blocks as nat), kernel@ + ": "@);
            lemma_still_begun(
                kernel@ + ": cluster has "@ + decimal(blocks as nat),
                " blocks; live maximum is "@,
                kernel@ + ": "@,
            );
            lemma_still_begun(
                kernel@ + ": cluster has "@ + decimal(blocks as nat) + " blocks; live maximum is "@,
                decimal(max as nat),
                kernel@ + ": "@,
            );
        },
        LaunchContractError::FunctionClusterShapeMismatch { kernel, declared, required } => {
            lemma_said(kernel@, ": declared cluster "@, shape_text(declared));
            lemma_still_said(
                kernel@ + ": declared cluster "@ + shape_text(declared),
                " does not match function-required cluster "@,
                ": declared cluster "@,
                shape_text(declared),
            );
            lemma_still_said(
                kernel@ + ": declared cluster "@ + shape_text(declared)
                    + " does not match function-required cluster "@,
                shape_text(required),
                ": declared cluster "@,
                shape_text(declared),
            );
            lemma_said(
                kernel@ + ": declared cluster "@ + shape_text(declared),
                " does not match function-required cluster "@,
                shape_text(required),
            );
            lemma_begun(kernel@, ": declared cluster "@);
            lemma_still_begun(
                kernel@ + ": declared cluster "@,
                shape_text(declared),
                kernel@ + ": "@,
            );
            lemma_still_begun(
                kernel@ + ": declared cluster "@ + shape_text(declared),
                " does not match function-required cluster "@,
                kernel@ + ": "@,
            );
            lemma_still_begun(
                kernel@ + ": declared cluster "@ + shape_text(declared)
                    + " does not match function-required cluster "@,
                shape_text(required),
                kernel@ + ": "@,
            );
        },
        LaunchContractError::RequiredClusterDimensionsMissing { kernel, declared } => {
            lemma_said(kernel@, ": declared cluster "@, shape_text(declared));
            lemma_still_said(
                kernel@ + ": declared cluster "@ + shape_text(declared),
                " is missing from the compiled function metadata"@,
                ": declared cluster "@,
                shape_text(declared),
            );
            lemma_said(
                kernel@ + ": declared cluster "@,
                shape_text(declared),
                " is missing from the compiled function metadata"@,
            );
            lemma_begun(kernel@, ": declared cluster "@);
            lemma_still_begun(
                kernel@ + ": declared cluster "@,
                shape_text(declared),
                kernel@ + ": "@,
            );
            lemma_still_begun(
                kernel@ + ": declared cluster "@ + shape_text(declared),
                " is missing from the compiled function metadata"@,
                kernel@ + ": "@,
            );
        },
        LaunchContractError::ClusterShapeUnsupported { kernel, cluster } => {
            lemma_said(kernel@, ": cluster shape "@, shape_text(cluster));
            lemma_still_said(
                kernel@ + ": cluster shape "@ + shape_text(cluster),
                " is unsupported for this launch"@,
                ": cluster shape "@,
                shape_text(cluster),
            );
            lemma_said(
                kernel@ + ": cluster shape "@,
                shape_text(cluster),
                " is unsupported for this launch"@,
            );
            lemma_begun(kernel@, ": cluster shape "@);
            lemma_still_begun(kernel@ + ": cluster shape "@, shape_text(cluster), kernel@ + ": "@);
            lemma_still_begun(
                kernel@ + ": cluster shape "@ + shape_text(cluster),
                " is unsupported for this launch"@,
                kernel@ + ": "@,
            );
        },
        LaunchContractError::ClusterHasNoResidency { kernel, cluster } => {
            lemma_said(kernel@, ": no cluster with shape "@, shape_text(cluster));
            lemma_still_said(
                kernel@ + ": no cluster with shape "@ + shape_text(cluster),
                " can be resident"@,
                ": no cluster with shape "@,
                shape_text(cluster),
            );
            lemma_said(
                kernel@ + ": no cluster with shape "@,
                shape_text(cluster),
                " can be resident"@,
            );
            lemma_begun(kernel@, ": no cluster with shape "@);
            lemma_still_begun(
                kernel@ + ": no cluster with shape "@,
                shape_text(cluster),
                kernel@ + ": "@,
            );
            lemma_still_begun(
                kernel@ + ": no cluster with shape "@ + shape_text(cluster),
                " can be resident"@,
                kernel@ + ": "@,
            );
        },
        LaunchContractError::ClusteredCooperativeValidationUnsupported { kernel } => {
            lemma_said(
                kernel@,
                ": clustered cooperative residency cannot be validated by this API"@,
                Seq::<char>::empty(),
            );
            assert(
                kernel@ + ": clustered cooperative residency cannot be validated by this API"@
                    + Seq::<char>::empty() =~= kernel@
                    + ": clustered cooperative residency cannot be validated by this API"@
            );
            lemma_begun(
                kernel@,
                ": clustered cooperative residency cannot be validated by this API"@,
            );
        },
        LaunchContractError::CooperativeGridTooLarge { kernel, blocks, resident_capacity } => {
            lemma_said(kernel@, ": cooperative grid has "@, decimal(blocks as nat));
            lemma_still_said(
                kernel@ + ": cooperative grid has "@ + decimal(blocks as nat),
                " blocks but only "@,
                ": cooperative grid has "@,
                decimal(blocks as nat),
            );
            lemma_still_said(
                kernel@ + ": cooperative grid has "@ + decimal(blocks as nat)
                    + " blocks but only "@,
                decimal(resident_capacity as nat),
                ": cooperative grid has "@,
                decimal(blocks as nat),
            );
            lemma_still_said(
                kernel@ + ": cooperative grid has "@ + decimal(blocks as nat)
                    + " blocks but only "@ + decimal(resident_capacity as nat),
                " can be resident"@,
                ": cooperative grid has "@,
                decimal(blocks as nat),
            );
            lemma_said(
                kernel@ + ": cooperative grid has "@ + decimal(blocks as nat),
                " blocks but only "@,
                decimal(resident_capacity as nat),
            );
            lemma_still_said(
                kernel@ + ": cooperative grid has "@ + decimal(blocks as nat)
                    + " blocks but only "@ + decimal(resident_capacity as nat),
                " can be resident"@,
                " blocks but only "@,
                decimal(resident_capacity as nat),
            );
            lemma_begun(kernel@, ": cooperative grid has "@);
            lemma_still_begun(
                kernel@ + ": cooperative grid has "@,
                decimal(blocks as nat),
                kernel@ + ": "@,
            );
            lemma_still_begun(
                kernel@ + ": cooperative grid has "@ + decimal(blocks as nat),
                " blocks but only "@,
                kernel@ + ": "@,
            );
            lemma_still_begun(
                kernel@ + ": cooperative grid has "@ + decimal(blocks as nat)
                    + " blocks but only "@,
                decimal(resident_capacity as nat),
                kernel@ + ": "@,
            );
            lemma_still_begun(
                kernel@ + ": cooperative grid has "@ + decimal(blocks as nat)
                    + " blocks but only "@ + decimal(resident_capacity as nat),
                " can be resident"@,
                kernel@ + ": "@,
            );
        },
        LaunchContractError::ContextMismatch { kernel, function_device, stream_device } => {
            lemma_said(kernel@, ": function is on device "@, decimal(function_device as nat));
            lemma_still_said(
                kernel@ + ": function is on device "@ + decimal(function_device as nat),
                ", stream is on device "@,
                ": function is on device "@,
                decimal(function_device as nat),
            );
            lemma_still_said(
                kernel@ + ": function is on device "@ + decimal(function_device as nat)
                    + ", stream is on device "@,
                decimal(stream_device as nat),
                ": function is on device "@,
                decimal(function_device as nat),
            );
            lemma_said(
                kernel@ + ": function is on device "@ + decimal(function_device as nat),
                ", stream is on device "@,
                decimal(stream_device as nat),
            );
            lemma_begun(kernel@, ": function is on device "@);
            lemma_still_begun(
                kernel@ + ": function is on device "@,
                decimal(function_device as nat),
                kernel@ + ": "@,
            );
            lemma_still_begun(
                kernel@ + ": function is on device "@ + decimal(function_device as nat),
                ", stream is on device "@,
                kernel@ + ": "@,
            );
            lemma_still_begun(
                kernel@ + ": function is on device "@ + decimal(function_device as nat)
                    + ", stream is on device "@,
                decimal(stream_device as nat),
                kernel@ + ": "@,
            );
        },
        LaunchContractError::Driver(_) => {},
    }
}

/// A shape is written with its axes in order: it begins with the first, has the
/// second in the middle and ends with the third.
pub proof fn shapes_are_written_in_order(shape: (u32, u32, u32))
    ensures
        begins_with(shape_text(shape), "("@ + decimal(shape.0 as nat)),
        says(shape_text(shape), decimal(shape.0 as nat) + ", "@, decimal(shape.1 as nat)),
        says(shape_text(shape), decimal(shape.1 as nat) + ", "@, decimal(shape.2 as nat) + ")"@),
{
    lemma_three_parts(
        "("@,
        ", "@,
        ")"@,
        decimal(shape.0 as nat),
        decimal(shape.1 as nat),
        decimal(shape.2 as nat),
    );
}

#[verifier::rlimit(50)]
proof fn lemma_three_parts(
    open: Seq<char>,
    comma: Seq<char>,
    close: Seq<char>,
    x: Seq<char>,
    y: Seq<char>,
    z: Seq<char>,
)
    ensures
        ({
            let text = open + x + comma + y + comma + z + close;
            &&& begins_with(text, open + x)
            &&& says(text, x + comma, y)
            &&& says(text, y + comma, z + close)
        }),
{
    let text = open + x + comma + y + comma + z + close;
    assert(text.subrange(0, (open + x).len() as int) =~= open + x);
    lemma_said(open, x + comma, y);
    assert(open + (x + comma) + y =~= open + x + comma + y);
    lemma_still_said(open + x + comma + y, comma, x + comma, y);
    lemma_still_said(open + x + comma + y + comma, z, x + comma, y);
    lemma_still_said(open + x + comma + y + comma + z, close, x + comma, y);
    let front = open + x + comma;
    lemma_said(front, y + comma, z + close);
    assert(front + (y + comma) + (z + close) =~= text);
}

/// Dimensions and axes are called by their own names.
pub proof fn dimensions_and_axes_have_their_names(
    dimension: LaunchDimension,
    axis: LaunchAxis,
    dimension_name: &'static str,
    axis_name: &'static str,
)
    requires
        call_ensures(LaunchDimension::name, (dimension,), dimension_name),
        call_ensures(LaunchAxis::name, (axis,), axis_name),
    ensures
        dimension_name@ == "Grid"@ <==> dimension is Grid,
        dimension_name@ == "Block"@ <==> dimension is Block,
        dimension_name@ == "Cluster"@ <==> dimension is Cluster,
        axis_name@ == "X"@ <==> axis is X,
        axis_name@ == "Y"@ <==> axis is Y,
        axis_name@ == "Z"@ <==> axis is Z,
{
    reveal_strlit("Grid");
    reveal_strlit("Block");
    reveal_strlit("Cluster");
    reveal_strlit("X");
    reveal_strlit("Y");
    reveal_strlit("Z");
    assert("X"@[0] == 'X' && "Y"@[0] == 'Y' && "Z"@[0] == 'Z');
    assert("Grid"@.len() == 4 && "Block"@.len() == 5 && "Cluster"@.len() == 7);
}

} // verus!

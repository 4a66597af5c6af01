//! Detection of feature and PTX ISA requirements in exported LLVM text.
//!
//! A spec function `mentions_*` says what a detector looks for. It speaks of
//! the whole text, of one of its `;`-separated statements, of one of its lines
//! or of one instruction mnemonic.

use vstd::prelude::*;
use vstd::slice::slice_subrange;

use crate::error::PipelineError;
use crate::target::features::{all_features, all_features_lists_each_feature_once, DetectedFeatures,
    Feature};
use crate::text::{chars_of, contains, ends_with, is_whitespace, matches_at, some_line,
    some_statement, starts_with};
use crate::text::{
    any_line, any_statement, begins_with, finishes_with, occurs, occurs_at, whitespace,
};

verus! {

/// Where the search for `pattern` goes on, once every position before `at` has
/// been tried: behind the last match, so that matches do not overlap.
pub open spec fn search_resumes(text: Seq<char>, at: nat, pattern: Seq<char>) -> nat
    decreases at, 0int,
{
    if at == 0 {
        0
    } else {
        let previous = (at - 1) as nat;
        if match_at(text, previous as int, pattern) {
            previous + pattern.len()
        } else {
            search_resumes(text, previous, pattern)
        }
    }
}

/// `pattern` matches at `at` when occurrences are taken from the left and do
/// not overlap.
pub open spec fn match_at(text: Seq<char>, at: int, pattern: Seq<char>) -> bool
    decreases at, 1int,
{
    &&& occurs_at(text, at, pattern)
    &&& search_resumes(text, at as nat, pattern) <= at
}

/// Nothing matches until the search resumes.
proof fn lemma_no_match_before_search_resumes(
    text: Seq<char>,
    from: nat,
    to: nat,
    pattern: Seq<char>,
)
    requires
        from <= to <= search_resumes(text, from, pattern),
    ensures
        search_resumes(text, to, pattern) == search_resumes(text, from, pattern),
        forall|at: int| from <= at < to ==> !match_at(text, at, pattern),
    decreases to,
{
    reveal_with_fuel(search_resumes, 2);
    reveal_with_fuel(match_at, 2);
    if from < to {
        lemma_no_match_before_search_resumes(text, from, (to - 1) as nat, pattern);
    }
}

/// One of the escape sequences that LLVM prints for a control character that
/// separates PTX tokens begins `text`.
pub open spec fn begins_with_escape(text: Seq<char>) -> bool {
    ||| begins_with(text, "\\09"@)
    ||| begins_with(text, "\\0A"@)
    ||| begins_with(text, "\\0B"@)
    ||| begins_with(text, "\\0C"@)
    ||| begins_with(text, "\\0D"@)
}

/// One of the same escape sequences ends `text`.
pub open spec fn ends_with_escape(text: Seq<char>) -> bool {
    ||| finishes_with(text, "\\09"@)
    ||| finishes_with(text, "\\0A"@)
    ||| finishes_with(text, "\\0B"@)
    ||| finishes_with(text, "\\0C"@)
    ||| finishes_with(text, "\\0D"@)
}

/// An instruction can begin after `preceding`: at the start of the text, after
/// whitespace or a PTX token delimiter, or after a comment. `$` and `%` take
/// part in PTX identifiers and are no delimiters.
pub open spec fn instruction_boundary_after(preceding: Seq<char>) -> bool {
    ||| preceding.len() == 0
    ||| whitespace(preceding.last())
    ||| preceding.last() == '"'
    ||| preceding.last() == ';'
    ||| preceding.last() == ':'
    ||| preceding.last() == '{'
    ||| preceding.last() == '}'
    ||| ends_with_escape(preceding)
    ||| finishes_with(preceding, "*/"@)
}

/// A mnemonic can end before `following`.
pub open spec fn instruction_boundary_before(following: Seq<char>) -> bool {
    ||| following.len() > 0 && whitespace(following[0])
    ||| begins_with_escape(following)
}

/// The whole mnemonic stands at `at`, as an instruction of its own.
pub open spec fn instruction_at(text: Seq<char>, at: int, mnemonic: Seq<char>) -> bool {
    &&& match_at(text, at, mnemonic)
    &&& instruction_boundary_after(text.take(at))
    &&& instruction_boundary_before(text.skip(at + mnemonic.len()))
}

/// `text` holds an instruction with exactly this mnemonic.
pub open spec fn mentions_instruction(text: Seq<char>, mnemonic: Seq<char>) -> bool {
    exists|at: int| #[trigger] instruction_at(text, at, mnemonic)
}

fn starts_with_escape(text: &[char]) -> (found: bool)
    ensures
        found == begins_with_escape(text@),
{
    starts_with(text, "\\09") || starts_with(text, "\\0A") || starts_with(text, "\\0B")
        || starts_with(text, "\\0C") || starts_with(text, "\\0D")
}

fn finishes_with_escape(text: &[char]) -> (found: bool)
    ensures
        found == ends_with_escape(text@),
{
    ends_with(text, "\\09") || ends_with(text, "\\0A") || ends_with(text, "\\0B")
        || ends_with(text, "\\0C") || ends_with(text, "\\0D")
}

fn begins_at_instruction_boundary(preceding: &[char]) -> (found: bool)
    ensures
        found == instruction_boundary_after(preceding@),
{
    if preceding.len() == 0 {
        return true;
    }
    let last = preceding[preceding.len() - 1];
    is_whitespace(last) || last == '"' || last == ';' || last == ':' || last == '{' || last == '}'
        || finishes_with_escape(preceding) || ends_with(preceding, "*/")
}

fn ends_at_instruction_boundary(following: &[char]) -> (found: bool)
    ensures
        found == instruction_boundary_before(following@),
{
    (following.len() > 0 && is_whitespace(following[0])) || starts_with_escape(following)
}

/// Looks for an instruction with exactly this mnemonic.
pub fn contains_instruction_mnemonic(contents: &str, mnemonic: &str) -> (found: bool)
    ensures
        found == mentions_instruction(contents@, mnemonic@),
{
    let text = chars_of(contents);
    let needle = chars_of(mnemonic);
    let mut at: usize = 0;
    loop
        invariant
            text@ == contents@,
            needle@ == mnemonic@,
            at <= text.len(),
            search_resumes(text@, at as nat, needle@) <= at,
            forall|before: int| before < at ==> !#[trigger] instruction_at(
                text@,
                before,
                needle@,
            ),
        decreases text.len() - at,
    {
        proof {
            reveal_with_fuel(search_resumes, 2);
            reveal_with_fuel(match_at, 2);
        }
        if matches_at(text.as_slice(), at, needle.as_slice()) {
            assert(match_at(text@, at as int, needle@));
            let end: usize = at + needle.len();
            let preceding = slice_subrange(text.as_slice(), 0, at);
            let following = slice_subrange(text.as_slice(), end, text.len());
            assert(preceding@ =~= text@.take(at as int));
            assert(following@ =~= text@.skip(end as int));
            if begins_at_instruction_boundary(preceding)
                && ends_at_instruction_boundary(following) {
                assert(instruction_at(text@, at as int, needle@));
                return true;
            }
            assert(!instruction_at(text@, at as int, needle@));
            if end > at {
                proof {
                    lemma_no_match_before_search_resumes(
                        text@,
                        (at + 1) as nat,
                        end as nat,
                        needle@,
                    );
                }
                at = end;
                continue;
            }
        } else {
            assert(!match_at(text@, at as int, needle@));
        }
        if at == text.len() {
            assert forall|a: int| !#[trigger] instruction_at(text@, a, needle@) by {
                if a > at {
                    assert(!occurs_at(text@, a, needle@));
                }
            }
            return false;
        }
        at += 1;
    }
}

/// A warpgroup matrix instruction.
pub open spec fn mentions_wgmma(text: Seq<char>) -> bool {
    ||| occurs(text, "wgmma.fence"@)
    ||| occurs(text, "wgmma.commit_group"@)
    ||| occurs(text, "wgmma.wait_group"@)
    ||| occurs(text, "wgmma.mma_async"@)
}

/// Checks for Hopper warpgroup matrix instructions.
pub fn contains_wgmma_features(contents: &str) -> (found: bool)
    ensures
        found == mentions_wgmma(contents@),
{
    let chars = chars_of(contents);
    let text = chars.as_slice();
    contains(text, "wgmma.fence")
        || contains(text, "wgmma.commit_group")
        || contains(text, "wgmma.wait_group")
        || contains(text, "wgmma.mma_async")
}

/// What `contains_cluster_fence_features` looks for in one statement.
pub open spec fn cluster_fence_statement(text: Seq<char>) -> bool {
    ||| occurs(text, "fence.sc.cluster"@)
    ||| occurs(text, "fence.acq_rel.cluster"@)
    ||| occurs(text, "fence.acquire.cluster"@)
    ||| occurs(text, "fence.release.cluster"@)
}

/// Some statement of `text` satisfies `cluster_fence_statement`.
pub open spec fn mentions_cluster_fence(text: Seq<char>) -> bool {
    any_statement(text, |s: Seq<char>| cluster_fence_statement(s))
}

fn is_cluster_fence_statement(s: &[char]) -> (found: bool)
    ensures
        found == cluster_fence_statement(s@),
{
    contains(s, "fence.sc.cluster")
        || contains(s, "fence.acq_rel.cluster")
        || contains(s, "fence.acquire.cluster")
        || contains(s, "fence.release.cluster")
}

/// Checks for fences with cluster scope.
pub fn contains_cluster_fence_features(contents: &str) -> (found: bool)
    ensures
        found == mentions_cluster_fence(contents@),
{
    let text = chars_of(contents);
    some_statement(
        text.as_slice(),
        is_cluster_fence_statement,
        Ghost(|s: Seq<char>| cluster_fence_statement(s)),
    )
}

/// What `contains_cluster_scoped_memory_features` looks for in one statement.
pub open spec fn cluster_scoped_memory_statement(text: Seq<char>) -> bool {
    &&& !occurs(text, "multimem."@)
    &&& occurs(text, ".cluster."@)
    &&& {
        ||| occurs(text, "ld."@)
        ||| occurs(text, "st."@)
        ||| occurs(text, "atom."@)
        ||| occurs(text, "red."@)
    }
}

/// Some statement of `text` satisfies `cluster_scoped_memory_statement`.
pub open spec fn mentions_cluster_scoped_memory(text: Seq<char>) -> bool {
    any_statement(text, |s: Seq<char>| cluster_scoped_memory_statement(s))
}

fn is_cluster_scoped_memory_statement(s: &[char]) -> (found: bool)
    ensures
        found == cluster_scoped_memory_statement(s@),
{
    !contains(s, "multimem.")
        && contains(s, ".cluster.")
        && (contains(s, "ld.") || contains(s, "st.") || contains(s, "atom.") || contains(s, "red."))
}

/// Checks for memory instructions with cluster scope, other than multimem.
pub fn contains_cluster_scoped_memory_features(contents: &str) -> (found: bool)
    ensures
        found == mentions_cluster_scoped_memory(contents@),
{
    let text = chars_of(contents);
    some_statement(
        text.as_slice(),
        is_cluster_scoped_memory_statement,
        Ghost(|s: Seq<char>| cluster_scoped_memory_statement(s)),
    )
}

/// A Thread Block Cluster feature.
pub open spec fn mentions_cluster(text: Seq<char>) -> bool {
    ||| occurs(text, "cluster_ctaid"@)
    ||| occurs(text, "cluster_nctaid"@)
    ||| occurs(text, "cluster_ctarank"@)
    ||| occurs(text, "cluster_nctarank"@)
    ||| occurs(text, "%clusterid"@)
    ||| occurs(text, "%nclusterid"@)
    ||| occurs(text, "%is_explicit_cluster"@)
    ||| occurs(text, "!\"cluster_dim_x\""@)
    ||| occurs(text, "!\"cluster_dim_y\""@)
    ||| occurs(text, "!\"cluster_dim_z\""@)
    ||| occurs(text, "cluster.sync"@)
    ||| occurs(text, "barrier.cluster."@)
    ||| occurs(text, "mapa.shared::cluster"@)
    ||| occurs(text, ".shared::cluster"@)
    ||| mentions_cluster_fence(text)
    ||| mentions_cluster_scoped_memory(text)
}

/// Checks for Thread Block Cluster instructions (sm_90+): special registers,
/// launch metadata, synchronization and distributed shared memory.
pub fn contains_cluster_features(contents: &str) -> (found: bool)
    ensures
        found == mentions_cluster(contents@),
{
    let chars = chars_of(contents);
    let text = chars.as_slice();
    contains(text, "cluster_ctaid")
        || contains(text, "cluster_nctaid")
        || contains(text, "cluster_ctarank")
        || contains(text, "cluster_nctarank")
        || contains(text, "%clusterid")
        || contains(text, "%nclusterid")
        || contains(text, "%is_explicit_cluster")
        || contains(text, "!\"cluster_dim_x\"")
        || contains(text, "!\"cluster_dim_y\"")
        || contains(text, "!\"cluster_dim_z\"")
        || contains(text, "cluster.sync")
        || contains(text, "barrier.cluster.")
        || contains(text, "mapa.shared::cluster")
        || contains(text, ".shared::cluster")
        || contains_cluster_fence_features(contents)
        || contains_cluster_scoped_memory_features(contents)
}

/// What `contains_fence_acquire_release_features` looks for in one statement.
pub open spec fn fence_acquire_release_statement(text: Seq<char>) -> bool {
    ||| occurs(text, "fence.acquire."@)
    ||| occurs(text, "fence.release."@)
}

/// Some statement of `text` satisfies `fence_acquire_release_statement`.
pub open spec fn mentions_fence_acquire_release(text: Seq<char>) -> bool {
    any_statement(text, |s: Seq<char>| fence_acquire_release_statement(s))
}

fn is_fence_acquire_release_statement(s: &[char]) -> (found: bool)
    ensures
        found == fence_acquire_release_statement(s@),
{
    contains(s, "fence.acquire.") || contains(s, "fence.release.")
}

/// Checks the one-way fence semantics added in PTX 8.6.
///
/// Unlike the older `.sc` / `.acq_rel` forms, `.acquire` and `.release`
/// require sm_90 for every scope, not just `.cluster`.
pub fn contains_fence_acquire_release_features(contents: &str) -> (found: bool)
    ensures
        found == mentions_fence_acquire_release(contents@),
{
    let text = chars_of(contents);
    some_statement(
        text.as_slice(),
        is_fence_acquire_release_statement,
        Ghost(|s: Seq<char>| fence_acquire_release_statement(s)),
    )
}

/// One of the multimem instructions stands in `text`.
pub open spec fn mentions_multimem_instruction(text: Seq<char>) -> bool {
    ||| occurs(text, "multimem.ld_reduce"@)
    ||| occurs(text, "multimem.st"@)
    ||| occurs(text, "multimem.red"@)
}

fn is_multimem_instruction(text: &[char]) -> (found: bool)
    ensures
        found == mentions_multimem_instruction(text@),
{
    contains(text, "multimem.ld_reduce")
        || contains(text, "multimem.st")
        || contains(text, "multimem.red")
}

/// What `contains_multimem_features` looks for in one statement.
pub open spec fn multimem_statement(text: Seq<char>) -> bool {
    mentions_multimem_instruction(text)
}

/// Some statement of `text` satisfies `multimem_statement`.
pub open spec fn mentions_multimem(text: Seq<char>) -> bool {
    any_statement(text, |s: Seq<char>| multimem_statement(s))
}

fn is_multimem_statement(s: &[char]) -> (found: bool)
    ensures
        found == multimem_statement(s@),
{
    is_multimem_instruction(s)
}

/// Checks the multimem instruction family introduced for sm_90.
///
/// Base forms need PTX 8.1; PTX 8.6 is the nearest version that can be
/// requested.
pub fn contains_multimem_features(contents: &str) -> (found: bool)
    ensures
        found == mentions_multimem(contents@),
{
    let text = chars_of(contents);
    some_statement(
        text.as_slice(),
        is_multimem_statement,
        Ghost(|s: Seq<char>| multimem_statement(s)),
    )
}

/// What `contains_multimem_blackwell_features` looks for in one statement.
pub open spec fn multimem_blackwell_statement(text: Seq<char>) -> bool {
    &&& mentions_multimem_instruction(text)
    &&& {
        ||| occurs(text, ".e4m3"@)
        ||| occurs(text, ".e5m2"@)
        ||| occurs(text, ".acc::f16"@)
    }
}

/// Some statement of `text` satisfies `multimem_blackwell_statement`.
pub open spec fn mentions_multimem_blackwell(text: Seq<char>) -> bool {
    any_statement(text, |s: Seq<char>| multimem_blackwell_statement(s))
}

fn is_multimem_blackwell_statement(s: &[char]) -> (found: bool)
    ensures
        found == multimem_blackwell_statement(s@),
{
    is_multimem_instruction(s)
        && (contains(s, ".e4m3") || contains(s, ".e5m2") || contains(s, ".acc::f16"))
}

/// Checks PTX 8.6 multimem formats that require a Blackwell family target.
pub fn contains_multimem_blackwell_features(contents: &str) -> (found: bool)
    ensures
        found == mentions_multimem_blackwell(contents@),
{
    let text = chars_of(contents);
    some_statement(
        text.as_slice(),
        is_multimem_blackwell_statement,
        Ghost(|s: Seq<char>| multimem_blackwell_statement(s)),
    )
}

/// What `contains_redux_f32_features` looks for in one statement.
pub open spec fn redux_f32_statement(text: Seq<char>) -> bool {
    &&& occurs(text, "redux.sync"@)
    &&& occurs(text, ".f32"@)
}

/// Some statement of `text` satisfies `redux_f32_statement`.
pub open spec fn mentions_redux_f32(text: Seq<char>) -> bool {
    any_statement(text, |s: Seq<char>| redux_f32_statement(s))
}

fn is_redux_f32_statement(s: &[char]) -> (found: bool)
    ensures
        found == redux_f32_statement(s@),
{
    contains(s, "redux.sync") && contains(s, ".f32")
}

/// Checks the PTX 8.6 floating-point extension to `redux.sync`.
pub fn contains_redux_f32_features(contents: &str) -> (found: bool)
    ensures
        found == mentions_redux_f32(contents@),
{
    let text = chars_of(contents);
    some_statement(
        text.as_slice(),
        is_redux_f32_statement,
        Ghost(|s: Seq<char>| redux_f32_statement(s)),
    )
}

/// A native packed bf16 atomic add.
pub open spec fn mentions_packed_bf16_atomic(text: Seq<char>) -> bool {
    ||| mentions_instruction(text, "atom.global.add.noftz.bf16x2"@)
}

/// Native packed bf16 atomic add was added in PTX 7.8 for sm_90.
pub fn contains_packed_bf16_atomic_features(contents: &str) -> (found: bool)
    ensures
        found == mentions_packed_bf16_atomic(contents@),
{
    contains_instruction_mnemonic(contents, "atom.global.add.noftz.bf16x2")
}

/// A native packed f16 atomic add.
pub open spec fn mentions_packed_f16_atomic(text: Seq<char>) -> bool {
    ||| mentions_instruction(text, "atom.global.add.noftz.f16x2"@)
}

/// Packed f16 atomic add needs PTX 6.2, with no architecture floor of its own.
pub fn contains_packed_f16_atomic_features(contents: &str) -> (found: bool)
    ensures
        found == mentions_packed_f16_atomic(contents@),
{
    contains_instruction_mnemonic(contents, "atom.global.add.noftz.f16x2")
}

/// A leader election.
pub open spec fn mentions_elect(text: Seq<char>) -> bool {
    ||| occurs(text, "elect.sync"@)
}

/// Checks for `elect.sync`.
pub fn contains_elect_features(contents: &str) -> (found: bool)
    ensures
        found == mentions_elect(contents@),
{
    let chars = chars_of(contents);
    let text = chars.as_slice();
    contains(text, "elect.sync")
}

/// A `stmatrix` of any form.
pub open spec fn mentions_stmatrix(text: Seq<char>) -> bool {
    ||| occurs(text, "stmatrix.sync.aligned."@)
}

/// Checks the whole `stmatrix` family, inline assembly included.
pub fn contains_stmatrix_features(contents: &str) -> (found: bool)
    ensures
        found == mentions_stmatrix(contents@),
{
    let chars = chars_of(contents);
    let text = chars.as_slice();
    contains(text, "stmatrix.sync.aligned.")
}

/// A forward-compatible instruction with an sm_90 floor.
pub open spec fn mentions_sm90(text: Seq<char>) -> bool {
    ||| mentions_instruction(text, "add.rn.bf16x2"@)
    ||| mentions_instruction(text, "sub.rn.bf16x2"@)
    ||| mentions_instruction(text, "mul.rn.bf16x2"@)
    ||| mentions_packed_bf16_atomic(text)
    ||| mentions_stmatrix(text)
    ||| mentions_elect(text)
    ||| mentions_fence_acquire_release(text)
    ||| mentions_multimem(text)
}

/// Checks for forward-compatible instructions whose minimum target is sm_90.
pub fn contains_sm90_features(contents: &str) -> (found: bool)
    ensures
        found == mentions_sm90(contents@),
{
    contains_instruction_mnemonic(contents, "add.rn.bf16x2")
        || contains_instruction_mnemonic(contents, "sub.rn.bf16x2")
        || contains_instruction_mnemonic(contents, "mul.rn.bf16x2")
        || contains_packed_bf16_atomic_features(contents)
        || contains_stmatrix_features(contents)
        || contains_elect_features(contents)
        || contains_fence_acquire_release_features(contents)
        || contains_multimem_features(contents)
}

/// The register-only matrix transpose.
pub open spec fn mentions_movmatrix(text: Seq<char>) -> bool {
    ||| mentions_instruction(text, "movmatrix.sync.aligned.m8n8.trans.b16"@)
}

/// Checks for the register-only 8x8 matrix transpose (PTX 7.8, sm_75+).
pub fn contains_movmatrix_features(contents: &str) -> (found: bool)
    ensures
        found == mentions_movmatrix(contents@),
{
    contains_instruction_mnemonic(contents, "movmatrix.sync.aligned.m8n8.trans.b16")
}

/// The dense BF16 MMA operation.
pub open spec fn mentions_mma_m16n8k16_f32_bf16(text: Seq<char>) -> bool {
    ||| mentions_instruction(text, "mma.sync.aligned.m16n8k16.row.col.f32.bf16.bf16.f32"@)
}

/// Checks for the dense BF16 MMA operation (PTX 7.0, sm_80+).
pub fn contains_mma_m16n8k16_f32_bf16_features(contents: &str) -> (found: bool)
    ensures
        found == mentions_mma_m16n8k16_f32_bf16(contents@),
{
    contains_instruction_mnemonic(contents, "mma.sync.aligned.m16n8k16.row.col.f32.bf16.bf16.f32")
}

/// The TF32 MMA operation.
pub open spec fn mentions_mma_m16n8k8_f32_tf32(text: Seq<char>) -> bool {
    ||| mentions_instruction(text, "mma.sync.aligned.m16n8k8.row.col.f32.tf32.tf32.f32"@)
}

/// Checks for the Ampere TF32 MMA operation (PTX 7.0, sm_80+).
pub fn contains_mma_m16n8k8_f32_tf32_features(contents: &str) -> (found: bool)
    ensures
        found == mentions_mma_m16n8k8_f32_tf32(contents@),
{
    contains_instruction_mnemonic(contents, "mma.sync.aligned.m16n8k8.row.col.f32.tf32.tf32.f32")
}

/// The INT8 MMA operation.
pub open spec fn mentions_mma_m16n8k32_s32_s8(text: Seq<char>) -> bool {
    ||| mentions_instruction(text, "mma.sync.aligned.m16n8k32.row.col.s32.s8.s8.s32"@)
    ||| mentions_instruction(text, "mma.sync.aligned.m16n8k32.row.col.satfinite.s32.s8.s8.s32"@)
}

/// Checks for the Ampere INT8 MMA operation (PTX 7.0, sm_80+), with wrapping
/// and with saturating accumulators.
pub fn contains_mma_m16n8k32_s32_s8_features(contents: &str) -> (found: bool)
    ensures
        found == mentions_mma_m16n8k32_s32_s8(contents@),
{
    contains_instruction_mnemonic(contents, "mma.sync.aligned.m16n8k32.row.col.s32.s8.s8.s32")
        || contains_instruction_mnemonic(
        contents,
        "mma.sync.aligned.m16n8k32.row.col.satfinite.s32.s8.s8.s32",
    )
}

/// The FP64 MMA operation.
pub open spec fn mentions_mma_m8n8k4_f64(text: Seq<char>) -> bool {
    ||| mentions_instruction(text, "mma.sync.aligned.m8n8k4.row.col.f64.f64.f64.f64"@)
}

/// Checks for the Ampere FP64 tensor-core MMA operation (PTX 7.0, sm_80+).
pub fn contains_mma_m8n8k4_f64_features(contents: &str) -> (found: bool)
    ensures
        found == mentions_mma_m8n8k4_f64(contents@),
{
    contains_instruction_mnemonic(contents, "mma.sync.aligned.m8n8k4.row.col.f64.f64.f64.f64")
}

/// The dense F16 MMA operation.
pub open spec fn mentions_mma_m16n8k16_f32_f16(text: Seq<char>) -> bool {
    ||| mentions_instruction(text, "mma.sync.aligned.m16n8k16.row.col.f32.f16.f16.f32"@)
}

/// Checks for the dense F16 MMA operation (PTX 7.0, sm_80+).
pub fn contains_mma_m16n8k16_f32_f16_features(contents: &str) -> (found: bool)
    ensures
        found == mentions_mma_m16n8k16_f32_f16(contents@),
{
    contains_instruction_mnemonic(contents, "mma.sync.aligned.m16n8k16.row.col.f32.f16.f16.f32")
}

/// A `ldmatrix` of any form.
pub open spec fn mentions_ldmatrix(text: Seq<char>) -> bool {
    ||| occurs(text, "ldmatrix.sync.aligned."@)
}

/// Checks the whole `ldmatrix` family, inline assembly included.
pub fn contains_ldmatrix_features(contents: &str) -> (found: bool)
    ensures
        found == mentions_ldmatrix(contents@),
{
    let chars = chars_of(contents);
    let text = chars.as_slice();
    contains(text, "ldmatrix.sync.aligned.")
}

/// What `contains_blackwell_matrix_features` looks for in one statement.
pub open spec fn blackwell_matrix_statement(text: Seq<char>) -> bool {
    ||| {
        &&& occurs(text, "ldmatrix.sync.aligned."@)
        &&& {
            ||| occurs(text, ".m16n16."@)
            ||| occurs(text, ".m8n16."@)
            ||| occurs(text, ".b8"@)
            ||| occurs(text, ".src_fmt"@)
            ||| occurs(text, ".dst_fmt"@)
        }
    }
    ||| {
        &&& occurs(text, "stmatrix.sync.aligned."@)
        &&& {
            ||| occurs(text, ".m16n8."@)
            ||| occurs(text, ".b8"@)
        }
    }
}

/// Some statement of `text` satisfies `blackwell_matrix_statement`.
pub open spec fn mentions_blackwell_matrix(text: Seq<char>) -> bool {
    any_statement(text, |s: Seq<char>| blackwell_matrix_statement(s))
}

fn is_blackwell_matrix_statement(s: &[char]) -> (found: bool)
    ensures
        found == blackwell_matrix_statement(s@),
{
    (contains(s, "ldmatrix.sync.aligned.")
        && (contains(s, ".m16n16.")
            || contains(s, ".m8n16.")
            || contains(s, ".b8")
            || contains(s, ".src_fmt")
            || contains(s, ".dst_fmt")))
        || (contains(s, "stmatrix.sync.aligned.") && (contains(s, ".m16n8.") || contains(s, ".b8")))
}

/// PTX 8.6 matrix shapes/types have a Blackwell architecture-family floor.
pub fn contains_blackwell_matrix_features(contents: &str) -> (found: bool)
    ensures
        found == mentions_blackwell_matrix(contents@),
{
    let text = chars_of(contents);
    some_statement(
        text.as_slice(),
        is_blackwell_matrix_statement,
        Ghost(|s: Seq<char>| blackwell_matrix_statement(s)),
    )
}

/// What `contains_ldmatrix_cta_state_space` looks for in one statement.
pub open spec fn ldmatrix_cta_state_space_statement(text: Seq<char>) -> bool {
    &&& occurs(text, "ldmatrix.sync.aligned."@)
    &&& occurs(text, ".shared::cta."@)
}

/// Some statement of `text` satisfies `ldmatrix_cta_state_space_statement`.
pub open spec fn mentions_ldmatrix_cta_state_space(text: Seq<char>) -> bool {
    any_statement(text, |s: Seq<char>| ldmatrix_cta_state_space_statement(s))
}

fn is_ldmatrix_cta_state_space_statement(s: &[char]) -> (found: bool)
    ensures
        found == ldmatrix_cta_state_space_statement(s@),
{
    contains(s, "ldmatrix.sync.aligned.") && contains(s, ".shared::cta.")
}

/// Checks for `ldmatrix` with an explicit CTA state space.
pub fn contains_ldmatrix_cta_state_space(contents: &str) -> (found: bool)
    ensures
        found == mentions_ldmatrix_cta_state_space(contents@),
{
    let text = chars_of(contents);
    some_statement(
        text.as_slice(),
        is_ldmatrix_cta_state_space_statement,
        Ghost(|s: Seq<char>| ldmatrix_cta_state_space_statement(s)),
    )
}

/// What `contains_bf16x2_conversion` looks for in one statement.
pub open spec fn bf16x2_conversion_statement(text: Seq<char>) -> bool {
    &&& occurs(text, "cvt."@)
    &&& occurs(text, ".bf16x2.f32"@)
}

/// Some statement of `text` satisfies `bf16x2_conversion_statement`.
pub open spec fn mentions_bf16x2_conversion(text: Seq<char>) -> bool {
    any_statement(text, |s: Seq<char>| bf16x2_conversion_statement(s))
}

fn is_bf16x2_conversion_statement(s: &[char]) -> (found: bool)
    ensures
        found == bf16x2_conversion_statement(s@),
{
    contains(s, "cvt.") && contains(s, ".bf16x2.f32")
}

/// Checks for conversions from f32 to packed bf16.
pub fn contains_bf16x2_conversion(contents: &str) -> (found: bool)
    ensures
        found == mentions_bf16x2_conversion(contents@),
{
    let text = chars_of(contents);
    some_statement(
        text.as_slice(),
        is_bf16x2_conversion_statement,
        Ghost(|s: Seq<char>| bf16x2_conversion_statement(s)),
    )
}

/// A hardware barrier.
pub open spec fn mentions_mbarrier(text: Seq<char>) -> bool {
    ||| occurs(text, "mbarrier."@)
    ||| occurs(text, "llvm.nvvm.mbarrier"@)
}

/// Checks for hardware barriers, as PTX or as LLVM intrinsics.
pub fn contains_mbarrier_features(contents: &str) -> (found: bool)
    ensures
        found == mentions_mbarrier(contents@),
{
    let chars = chars_of(contents);
    let text = chars.as_slice();
    contains(text, "mbarrier.") || contains(text, "llvm.nvvm.mbarrier")
}

/// A forward-compatible instruction with an sm_80 floor.
pub open spec fn mentions_sm80(text: Seq<char>) -> bool {
    ||| mentions_instruction(text, "fma.rn.bf16x2"@)
    ||| mentions_instruction(text, "fma.rn.relu.bf16x2"@)
    ||| mentions_instruction(text, "min.bf16x2"@)
    ||| mentions_instruction(text, "max.bf16x2"@)
    ||| mentions_instruction(text, "neg.bf16x2"@)
    ||| mentions_instruction(text, "abs.bf16x2"@)
    ||| mentions_mma_m8n8k4_f64(text)
    ||| mentions_bf16x2_conversion(text)
    ||| mentions_mbarrier(text)
    ||| occurs(text, "redux.sync"@)
    ||| occurs(text, "cp.async.ca.shared"@)
    ||| occurs(text, "cp.async.cg.shared"@)
    ||| occurs(text, "cp.async.commit_group"@)
    ||| occurs(text, "cp.async.commit.group"@)
    ||| occurs(text, "cp.async.wait_group"@)
    ||| occurs(text, "cp.async.wait.group"@)
    ||| occurs(text, "cp.async.wait_all"@)
    ||| occurs(text, "cp.async.wait.all"@)
    ||| mentions_mma_m16n8k16_f32_bf16(text)
    ||| mentions_mma_m16n8k16_f32_f16(text)
    ||| mentions_mma_m16n8k8_f32_tf32(text)
    ||| mentions_mma_m16n8k32_s32_s8(text)
}

/// Checks for features whose minimum target is sm_80: packed bf16 operations,
/// the Ampere MMA forms, barriers and non-bulk asynchronous copies.
pub fn contains_sm80_features(contents: &str) -> (found: bool)
    ensures
        found == mentions_sm80(contents@),
{
    let chars = chars_of(contents);
    let text = chars.as_slice();
    contains_instruction_mnemonic(contents, "fma.rn.bf16x2")
        || contains_instruction_mnemonic(contents, "fma.rn.relu.bf16x2")
        || contains_instruction_mnemonic(contents, "min.bf16x2")
        || contains_instruction_mnemonic(contents, "max.bf16x2")
        || contains_instruction_mnemonic(contents, "neg.bf16x2")
        || contains_instruction_mnemonic(contents, "abs.bf16x2")
        || contains_mma_m8n8k4_f64_features(contents)
        || contains_bf16x2_conversion(contents)
        || contains_mbarrier_features(contents)
        || contains(text, "redux.sync")
        || contains(text, "cp.async.ca.shared")
        || contains(text, "cp.async.cg.shared")
        || contains(text, "cp.async.commit_group")
        || contains(text, "cp.async.commit.group")
        || contains(text, "cp.async.wait_group")
        || contains(text, "cp.async.wait.group")
        || contains(text, "cp.async.wait_all")
        || contains(text, "cp.async.wait.all")
        || contains_mma_m16n8k16_f32_bf16_features(contents)
        || contains_mma_m16n8k16_f32_f16_features(contents)
        || contains_mma_m16n8k8_f32_tf32_features(contents)
        || contains_mma_m16n8k32_s32_s8_features(contents)
}

/// A bulk asynchronous copy.
pub open spec fn mentions_cp_async_bulk(text: Seq<char>) -> bool {
    ||| occurs(text, "cp.async.bulk."@)
}

/// Checks for bulk asynchronous copies.
pub fn contains_cp_async_bulk_features(contents: &str) -> (found: bool)
    ensures
        found == mentions_cp_async_bulk(contents@),
{
    let chars = chars_of(contents);
    let text = chars.as_slice();
    contains(text, "cp.async.bulk.")
}

/// What `contains_mbarrier_sm90_features` looks for in one statement.
pub open spec fn mbarrier_sm90_statement(text: Seq<char>) -> bool {
    &&& {
        ||| occurs(text, "mbarrier."@)
        ||| occurs(text, "llvm.nvvm.mbarrier"@)
    }
    &&& {
        ||| occurs(text, "try_wait"@)
        ||| occurs(text, "expect_tx"@)
        ||| occurs(text, "complete_tx"@)
        ||| occurs(text, "shared::cluster"@)
        ||| occurs(text, ".acquire."@)
        ||| occurs(text, ".release."@)
        ||| occurs(text, ".relaxed"@)
    }
}

/// Some statement of `text` satisfies `mbarrier_sm90_statement`.
pub open spec fn mentions_mbarrier_sm90(text: Seq<char>) -> bool {
    any_statement(text, |s: Seq<char>| mbarrier_sm90_statement(s))
}

fn is_mbarrier_sm90_statement(s: &[char]) -> (found: bool)
    ensures
        found == mbarrier_sm90_statement(s@),
{
    (contains(s, "mbarrier.") || contains(s, "llvm.nvvm.mbarrier"))
        && (contains(s, "try_wait")
            || contains(s, "expect_tx")
            || contains(s, "complete_tx")
            || contains(s, "shared::cluster")
            || contains(s, ".acquire.")
            || contains(s, ".release.")
            || contains(s, ".relaxed"))
}

/// Checks for barrier forms with an sm_90 floor.
pub fn contains_mbarrier_sm90_features(contents: &str) -> (found: bool)
    ensures
        found == mentions_mbarrier_sm90(contents@),
{
    let text = chars_of(contents);
    some_statement(
        text.as_slice(),
        is_mbarrier_sm90_statement,
        Ghost(|s: Seq<char>| mbarrier_sm90_statement(s)),
    )
}

/// A TMA copy, an sm_90 barrier form or one of their fences.
pub open spec fn mentions_tma(text: Seq<char>) -> bool {
    ||| mentions_cp_async_bulk(text)
    ||| mentions_mbarrier_sm90(text)
    ||| occurs(text, "fence.mbarrier_init"@)
    ||| occurs(text, "fence.proxy.async"@)
    ||| occurs(text, ".sync_restrict"@)
}

/// Checks for TMA/mbarrier instructions (Hopper+ compatible with Blackwell).
///
/// The architecture floor is generic sm_90; automatic cross-compilation keeps
/// the sm_100 default for forward-compatible Blackwell PTX.
pub fn contains_tma_features(contents: &str) -> (found: bool)
    ensures
        found == mentions_tma(contents@),
{
    let chars = chars_of(contents);
    let text = chars.as_slice();
    contains_cp_async_bulk_features(contents)
        || contains_mbarrier_sm90_features(contents)
        || contains(text, "fence.mbarrier_init")
        || contains(text, "fence.proxy.async")
        || contains(text, ".sync_restrict")
}

/// What `contains_mbarrier_ptx71_features` looks for in one statement.
pub open spec fn mbarrier_ptx71_statement(text: Seq<char>) -> bool {
    &&& occurs(text, "mbarrier.test_wait"@)
    &&& occurs(text, ".parity"@)
}

/// Some statement of `text` satisfies `mbarrier_ptx71_statement`.
pub open spec fn mentions_mbarrier_ptx71(text: Seq<char>) -> bool {
    any_statement(text, |s: Seq<char>| mbarrier_ptx71_statement(s))
}

fn is_mbarrier_ptx71_statement(s: &[char]) -> (found: bool)
    ensures
        found == mbarrier_ptx71_statement(s@),
{
    contains(s, "mbarrier.test_wait") && contains(s, ".parity")
}

/// Checks for barrier forms that need PTX 7.1.
pub fn contains_mbarrier_ptx71_features(contents: &str) -> (found: bool)
    ensures
        found == mentions_mbarrier_ptx71(contents@),
{
    let text = chars_of(contents);
    some_statement(
        text.as_slice(),
        is_mbarrier_ptx71_statement,
        Ghost(|s: Seq<char>| mbarrier_ptx71_statement(s)),
    )
}

/// What `contains_mbarrier_ptx78_features` looks for in one statement.
pub open spec fn mbarrier_ptx78_statement(text: Seq<char>) -> bool {
    &&& occurs(text, "mbarrier."@)
    &&& {
        ||| occurs(text, "try_wait"@)
        ||| occurs(text, "shared::cta"@)
    }
}

/// Some statement of `text` satisfies `mbarrier_ptx78_statement`.
pub open spec fn mentions_mbarrier_ptx78(text: Seq<char>) -> bool {
    any_statement(text, |s: Seq<char>| mbarrier_ptx78_statement(s))
}

fn is_mbarrier_ptx78_statement(s: &[char]) -> (found: bool)
    ensures
        found == mbarrier_ptx78_statement(s@),
{
    contains(s, "mbarrier.") && (contains(s, "try_wait") || contains(s, "shared::cta"))
}

/// Checks for barrier forms that need PTX 7.8.
pub fn contains_mbarrier_ptx78_features(contents: &str) -> (found: bool)
    ensures
        found == mentions_mbarrier_ptx78(contents@),
{
    let text = chars_of(contents);
    some_statement(
        text.as_slice(),
        is_mbarrier_ptx78_statement,
        Ghost(|s: Seq<char>| mbarrier_ptx78_statement(s)),
    )
}

/// What `contains_mbarrier_ptx80_features` looks for in one statement.
pub open spec fn mbarrier_ptx80_statement(text: Seq<char>) -> bool {
    &&& occurs(text, "mbarrier."@)
    &&& {
        ||| occurs(text, "expect_tx"@)
        ||| occurs(text, "complete_tx"@)
        ||| occurs(text, "shared::cluster"@)
        ||| occurs(text, ".acquire."@)
        ||| occurs(text, ".release."@)
    }
}

/// Some statement of `text` satisfies `mbarrier_ptx80_statement`.
pub open spec fn mentions_mbarrier_ptx80(text: Seq<char>) -> bool {
    any_statement(text, |s: Seq<char>| mbarrier_ptx80_statement(s))
}

fn is_mbarrier_ptx80_statement(s: &[char]) -> (found: bool)
    ensures
        found == mbarrier_ptx80_statement(s@),
{
    contains(s, "mbarrier.")
        && (contains(s, "expect_tx")
            || contains(s, "complete_tx")
            || contains(s, "shared::cluster")
            || contains(s, ".acquire.")
            || contains(s, ".release."))
}

/// Checks for barrier forms that need PTX 8.0.
pub fn contains_mbarrier_ptx80_features(contents: &str) -> (found: bool)
    ensures
        found == mentions_mbarrier_ptx80(contents@),
{
    let text = chars_of(contents);
    some_statement(
        text.as_slice(),
        is_mbarrier_ptx80_statement,
        Ghost(|s: Seq<char>| mbarrier_ptx80_statement(s)),
    )
}

/// A tcgen05 instruction.
pub open spec fn mentions_blackwell(text: Seq<char>) -> bool {
    ||| occurs(text, "tcgen05.alloc"@)
    ||| occurs(text, "tcgen05.dealloc"@)
    ||| occurs(text, "tcgen05.relinquish_alloc_permit"@)
    ||| occurs(text, "tcgen05.fence"@)
    ||| occurs(text, "tcgen05.commit"@)
    ||| occurs(text, "tcgen05.mma"@)
    ||| occurs(text, "tcgen05.cp"@)
    ||| occurs(text, "tcgen05.shift"@)
    ||| occurs(text, "tcgen05.ld"@)
    ||| occurs(text, "tcgen05.st"@)
    ||| occurs(text, "tcgen05.wait"@)
}

/// Checks for Blackwell tcgen05 instructions (sm_100a+).
///
/// The match is broad enough for inline PTX and LLVM intrinsic names, but does
/// not take a debug filename such as `tcgen05.rs` for an instruction.
pub fn contains_blackwell_features(contents: &str) -> (found: bool)
    ensures
        found == mentions_blackwell(contents@),
{
    let chars = chars_of(contents);
    let text = chars.as_slice();
    contains(text, "tcgen05.alloc")
        || contains(text, "tcgen05.dealloc")
        || contains(text, "tcgen05.relinquish_alloc_permit")
        || contains(text, "tcgen05.fence")
        || contains(text, "tcgen05.commit")
        || contains(text, "tcgen05.mma")
        || contains(text, "tcgen05.cp")
        || contains(text, "tcgen05.shift")
        || contains(text, "tcgen05.ld")
        || contains(text, "tcgen05.st")
        || contains(text, "tcgen05.wait")
}

/// What `contains_tma_multicast_intrinsic` looks for in one line.
pub open spec fn tma_multicast_intrinsic_line(text: Seq<char>) -> bool {
    &&& occurs(text, "g2s.tile"@)
    &&& {
        ||| occurs(text, ", i1 1, i1"@)
        ||| occurs(text, ", i1 true, i1"@)
    }
}

/// Some line of `text` satisfies `tma_multicast_intrinsic_line`.
pub open spec fn mentions_tma_multicast_intrinsic(text: Seq<char>) -> bool {
    any_line(text, |s: Seq<char>| tma_multicast_intrinsic_line(s))
}

fn is_tma_multicast_intrinsic_line(s: &[char]) -> (found: bool)
    ensures
        found == tma_multicast_intrinsic_line(s@),
{
    contains(s, "g2s.tile") && (contains(s, ", i1 1, i1") || contains(s, ", i1 true, i1"))
}

/// Checks for the LLVM tile-copy intrinsic with its CTA mask in use.
pub fn contains_tma_multicast_intrinsic(contents: &str) -> (found: bool)
    ensures
        found == mentions_tma_multicast_intrinsic(contents@),
{
    let text = chars_of(contents);
    some_line(
        text.as_slice(),
        is_tma_multicast_intrinsic_line,
        Ghost(|s: Seq<char>| tma_multicast_intrinsic_line(s)),
    )
}

/// What `contains_tma_multicast_copy` looks for in one statement.
pub open spec fn tma_multicast_copy_statement(text: Seq<char>) -> bool {
    &&& occurs(text, "cp.async.bulk.tensor"@)
    &&& occurs(text, ".multicast::cluster"@)
}

/// Some statement of `text` satisfies `tma_multicast_copy_statement`.
pub open spec fn mentions_tma_multicast_copy(text: Seq<char>) -> bool {
    any_statement(text, |s: Seq<char>| tma_multicast_copy_statement(s))
}

fn is_tma_multicast_copy_statement(s: &[char]) -> (found: bool)
    ensures
        found == tma_multicast_copy_statement(s@),
{
    contains(s, "cp.async.bulk.tensor") && contains(s, ".multicast::cluster")
}

/// Checks for a tensor copy with the multicast qualifier.
pub fn contains_tma_multicast_copy(contents: &str) -> (found: bool)
    ensures
        found == mentions_tma_multicast_copy(contents@),
{
    let text = chars_of(contents);
    some_statement(
        text.as_slice(),
        is_tma_multicast_copy_statement,
        Ghost(|s: Seq<char>| tma_multicast_copy_statement(s)),
    )
}

/// A base TMA multicast.
pub open spec fn mentions_tma_multicast(text: Seq<char>) -> bool {
    ||| mentions_tma_multicast_intrinsic(text)
    ||| mentions_tma_multicast_copy(text)
}

/// Checks for base TMA multicast in LLVM IR or inline PTX.
///
/// The qualifier broadcasts a tile to all CTAs in a cluster. In the LLVM
/// intrinsic the trailing `use_cta_mask` argument controls it.
pub fn contains_tma_multicast(contents: &str) -> (found: bool)
    ensures
        found == mentions_tma_multicast(contents@),
{
    contains_tma_multicast_intrinsic(contents) || contains_tma_multicast_copy(contents)
}

/// What `contains_tma_cta_group_copy` looks for in one statement.
pub open spec fn tma_cta_group_copy_statement(text: Seq<char>) -> bool {
    &&& occurs(text, "cp.async.bulk.tensor"@)
    &&& {
        ||| occurs(text, ".cta_group::1"@)
        ||| occurs(text, ".cta_group::2"@)
    }
}

/// Some statement of `text` satisfies `tma_cta_group_copy_statement`.
pub open spec fn mentions_tma_cta_group_copy(text: Seq<char>) -> bool {
    any_statement(text, |s: Seq<char>| tma_cta_group_copy_statement(s))
}

fn is_tma_cta_group_copy_statement(s: &[char]) -> (found: bool)
    ensures
        found == tma_cta_group_copy_statement(s@),
{
    contains(s, "cp.async.bulk.tensor")
        && (contains(s, ".cta_group::1") || contains(s, ".cta_group::2"))
}

/// Checks for a tensor copy with an explicit CTA group.
pub fn contains_tma_cta_group_copy(contents: &str) -> (found: bool)
    ensures
        found == mentions_tma_cta_group_copy(contents@),
{
    let text = chars_of(contents);
    some_statement(
        text.as_slice(),
        is_tma_cta_group_copy_statement,
        Ghost(|s: Seq<char>| tma_cta_group_copy_statement(s)),
    )
}

/// What `contains_tma_cta_group_intrinsic` looks for in one line.
pub open spec fn tma_cta_group_intrinsic_line(text: Seq<char>) -> bool {
    &&& occurs(text, "g2s.tile"@)
    &&& {
        ||| occurs(text, ", i32 1)"@)
        ||| occurs(text, ", i32 2)"@)
    }
}

/// Some line of `text` satisfies `tma_cta_group_intrinsic_line`.
pub open spec fn mentions_tma_cta_group_intrinsic(text: Seq<char>) -> bool {
    any_line(text, |s: Seq<char>| tma_cta_group_intrinsic_line(s))
}

fn is_tma_cta_group_intrinsic_line(s: &[char]) -> (found: bool)
    ensures
        found == tma_cta_group_intrinsic_line(s@),
{
    contains(s, "g2s.tile") && (contains(s, ", i32 1)") || contains(s, ", i32 2)"))
}

/// Checks for the LLVM tile-copy intrinsic with an explicit CTA group.
pub fn contains_tma_cta_group_intrinsic(contents: &str) -> (found: bool)
    ensures
        found == mentions_tma_cta_group_intrinsic(contents@),
{
    let text = chars_of(contents);
    some_line(
        text.as_slice(),
        is_tma_cta_group_intrinsic_line,
        Ghost(|s: Seq<char>| tma_cta_group_intrinsic_line(s)),
    )
}

/// A TMA form with an explicit CTA group.
pub open spec fn mentions_tma_cta_group(text: Seq<char>) -> bool {
    ||| mentions_tma_cta_group_copy(text)
    ||| mentions_tma_cta_group_intrinsic(text)
}

/// Checks Blackwell-only TMA forms with an explicit CTA-group qualifier.
pub fn contains_tma_cta_group_features(contents: &str) -> (found: bool)
    ensures
        found == mentions_tma_cta_group(contents@),
{
    contains_tma_cta_group_copy(contents) || contains_tma_cta_group_intrinsic(contents)
}

/// What `contains_tma_shared_cta_destination` looks for in one statement.
pub open spec fn tma_shared_cta_destination_statement(text: Seq<char>) -> bool {
    &&& occurs(text, "cp.async.bulk."@)
    &&& occurs(text, ".shared::cta.global"@)
}

/// Some statement of `text` satisfies `tma_shared_cta_destination_statement`.
pub open spec fn mentions_tma_shared_cta_destination(text: Seq<char>) -> bool {
    any_statement(text, |s: Seq<char>| tma_shared_cta_destination_statement(s))
}

fn is_tma_shared_cta_destination_statement(s: &[char]) -> (found: bool)
    ensures
        found == tma_shared_cta_destination_statement(s@),
{
    contains(s, "cp.async.bulk.") && contains(s, ".shared::cta.global")
}

/// Checks TMA copies whose destination is CTA-local shared memory.
///
/// `.shared::cta` is a source state space too, so the `.global` source
/// qualifier that follows is part of the match.
pub fn contains_tma_shared_cta_destination(contents: &str) -> (found: bool)
    ensures
        found == mentions_tma_shared_cta_destination(contents@),
{
    let text = chars_of(contents);
    some_statement(
        text.as_slice(),
        is_tma_shared_cta_destination_statement,
        Ghost(|s: Seq<char>| tma_shared_cta_destination_statement(s)),
    )
}

/// The gather mode, or an `im2col::w` mode other than `im2col::w::128`.
pub open spec fn mentions_tma_gather_or_im2col(text: Seq<char>) -> bool {
    ||| occurs(text, ".tile::gather4"@)
    ||| {
        &&& occurs(text, ".im2col::w"@)
        &&& !occurs(text, ".im2col::w::128"@)
    }
}

fn is_tma_gather_or_im2col(text: &[char]) -> (found: bool)
    ensures
        found == mentions_tma_gather_or_im2col(text@),
{
    contains(text, ".tile::gather4")
        || (contains(text, ".im2col::w") && !contains(text, ".im2col::w::128"))
}

/// What `contains_tma_sm100_features` looks for in one statement.
pub open spec fn tma_sm100_statement(text: Seq<char>) -> bool {
    &&& occurs(text, "cp.async.bulk."@)
    &&& {
        ||| occurs(text, ".cp_mask"@)
        ||| {
            &&& mentions_tma_gather_or_im2col(text)
            &&& occurs(text, ".shared::cta.global"@)
        }
    }
}

/// Some statement of `text` satisfies `tma_sm100_statement`.
pub open spec fn mentions_tma_sm100(text: Seq<char>) -> bool {
    any_statement(text, |s: Seq<char>| tma_sm100_statement(s))
}

fn is_tma_sm100_statement(s: &[char]) -> (found: bool)
    ensures
        found == tma_sm100_statement(s@),
{
    contains(s, "cp.async.bulk.")
        && (contains(s, ".cp_mask")
            || (is_tma_gather_or_im2col(s) && contains(s, ".shared::cta.global")))
}

/// Checks PTX 8.6 TMA modifiers with a generic sm_100 architecture floor.
pub fn contains_tma_sm100_features(contents: &str) -> (found: bool)
    ensures
        found == mentions_tma_sm100(contents@),
{
    let text = chars_of(contents);
    some_statement(
        text.as_slice(),
        is_tma_sm100_statement,
        Ghost(|s: Seq<char>| tma_sm100_statement(s)),
    )
}

/// What `contains_tma_blackwell_accelerated_features` looks for in one statement.
pub open spec fn tma_blackwell_accelerated_statement(text: Seq<char>) -> bool {
    &&& occurs(text, "cp.async.bulk."@)
    &&& {
        ||| occurs(text, ".tile::scatter4"@)
        ||| occurs(text, ".im2col::w::128"@)
        ||| {
            &&& mentions_tma_gather_or_im2col(text)
            &&& !occurs(text, ".shared::cta.global"@)
        }
    }
}

/// Some statement of `text` satisfies `tma_blackwell_accelerated_statement`.
pub open spec fn mentions_tma_blackwell_accelerated(text: Seq<char>) -> bool {
    any_statement(text, |s: Seq<char>| tma_blackwell_accelerated_statement(s))
}

fn is_tma_blackwell_accelerated_statement(s: &[char]) -> (found: bool)
    ensures
        found == tma_blackwell_accelerated_statement(s@),
{
    contains(s, "cp.async.bulk.")
        && (contains(s, ".tile::scatter4")
            || contains(s, ".im2col::w::128")
            || (is_tma_gather_or_im2col(s) && !contains(s, ".shared::cta.global")))
}

/// Checks PTX 8.6 TMA modes restricted to datacenter Blackwell targets.
pub fn contains_tma_blackwell_accelerated_features(contents: &str) -> (found: bool)
    ensures
        found == mentions_tma_blackwell_accelerated(contents@),
{
    let text = chars_of(contents);
    some_statement(
        text.as_slice(),
        is_tma_blackwell_accelerated_statement,
        Ghost(|s: Seq<char>| tma_blackwell_accelerated_statement(s)),
    )
}

/// What `contains_relaxed_mbarrier` looks for in one statement.
pub open spec fn relaxed_mbarrier_statement(text: Seq<char>) -> bool {
    &&& occurs(text, "mbarrier."@)
    &&& occurs(text, ".relaxed"@)
}

/// Some statement of `text` satisfies `relaxed_mbarrier_statement`.
pub open spec fn mentions_relaxed_mbarrier(text: Seq<char>) -> bool {
    any_statement(text, |s: Seq<char>| relaxed_mbarrier_statement(s))
}

fn is_relaxed_mbarrier_statement(s: &[char]) -> (found: bool)
    ensures
        found == relaxed_mbarrier_statement(s@),
{
    contains(s, "mbarrier.") && contains(s, ".relaxed")
}

/// Checks for relaxed barrier forms.
pub fn contains_relaxed_mbarrier(contents: &str) -> (found: bool)
    ensures
        found == mentions_relaxed_mbarrier(contents@),
{
    let text = chars_of(contents);
    some_statement(
        text.as_slice(),
        is_relaxed_mbarrier_statement,
        Ghost(|s: Seq<char>| relaxed_mbarrier_statement(s)),
    )
}

/// A TMA or barrier form that needs PTX 8.6.
pub open spec fn mentions_tma_ptx86(text: Seq<char>) -> bool {
    ||| mentions_tma_sm100(text)
    ||| mentions_tma_blackwell_accelerated(text)
    ||| occurs(text, ".sync_restrict"@)
    ||| mentions_relaxed_mbarrier(text)
}

/// Checks for TMA and barrier forms that need PTX 8.6.
pub fn contains_tma_ptx86_features(contents: &str) -> (found: bool)
    ensures
        found == mentions_tma_ptx86(contents@),
{
    let chars = chars_of(contents);
    let text = chars.as_slice();
    contains_tma_sm100_features(contents)
        || contains_tma_blackwell_accelerated_features(contents)
        || contains(text, ".sync_restrict")
        || contains_relaxed_mbarrier(contents)
}

/// Cluster launch control.
pub open spec fn mentions_clc(text: Seq<char>) -> bool {
    ||| occurs(text, "clusterlaunchcontrol."@)
}

/// Checks for cluster launch control.
pub fn contains_clc_features(contents: &str) -> (found: bool)
    ensures
        found == mentions_clc(contents@),
{
    let chars = chars_of(contents);
    let text = chars.as_slice();
    contains(text, "clusterlaunchcontrol.")
}

/// What `contains_clc_multicast_features` looks for in one statement.
pub open spec fn clc_multicast_statement(text: Seq<char>) -> bool {
    &&& occurs(text, "clusterlaunchcontrol."@)
    &&& occurs(text, ".multicast::cluster::all"@)
}

/// Some statement of `text` satisfies `clc_multicast_statement`.
pub open spec fn mentions_clc_multicast(text: Seq<char>) -> bool {
    any_statement(text, |s: Seq<char>| clc_multicast_statement(s))
}

fn is_clc_multicast_statement(s: &[char]) -> (found: bool)
    ensures
        found == clc_multicast_statement(s@),
{
    contains(s, "clusterlaunchcontrol.") && contains(s, ".multicast::cluster::all")
}

/// Checks for cluster launch control with multicast.
pub fn contains_clc_multicast_features(contents: &str) -> (found: bool)
    ensures
        found == mentions_clc_multicast(contents@),
{
    let text = chars_of(contents);
    some_statement(
        text.as_slice(),
        is_clc_multicast_statement,
        Ghost(|s: Seq<char>| clc_multicast_statement(s)),
    )
}

/// What `contains_cluster_ptx80_features` looks for in one statement.
pub open spec fn cluster_ptx80_statement(text: Seq<char>) -> bool {
    &&& occurs(text, "barrier.cluster."@)
    &&& {
        ||| occurs(text, ".release"@)
        ||| occurs(text, ".relaxed"@)
        ||| occurs(text, ".acquire"@)
    }
}

/// Some statement of `text` satisfies `cluster_ptx80_statement`.
pub open spec fn mentions_cluster_ptx80(text: Seq<char>) -> bool {
    any_statement(text, |s: Seq<char>| cluster_ptx80_statement(s))
}

fn is_cluster_ptx80_statement(s: &[char]) -> (found: bool)
    ensures
        found == cluster_ptx80_statement(s@),
{
    contains(s, "barrier.cluster.")
        && (contains(s, ".release") || contains(s, ".relaxed") || contains(s, ".acquire"))
}

/// Checks for cluster barriers with memory semantics.
pub fn contains_cluster_ptx80_features(contents: &str) -> (found: bool)
    ensures
        found == mentions_cluster_ptx80(contents@),
{
    let text = chars_of(contents);
    some_statement(
        text.as_slice(),
        is_cluster_ptx80_statement,
        Ghost(|s: Seq<char>| cluster_ptx80_statement(s)),
    )
}

/// `text` makes `feature` necessary. `Basic` stands for the absence of all
/// others and is no requirement of its own.
pub open spec fn calls_for(text: Seq<char>, feature: Feature) -> bool {
    match feature {
        Feature::Blackwell => mentions_blackwell(text),
        Feature::TmaCtaGroup => mentions_tma_cta_group(text),
        Feature::BlackwellAccelerated => mentions_tma_blackwell_accelerated(text),
        Feature::BlackwellFamily => mentions_clc_multicast(text),
        Feature::ReduxF32 => mentions_redux_f32(text),
        Feature::MultimemFp8 => mentions_multimem_blackwell(text),
        Feature::TmaMulticast => mentions_tma_multicast(text),
        Feature::MatrixBlackwell => mentions_blackwell_matrix(text),
        Feature::Wgmma => mentions_wgmma(text),
        Feature::Tma => mentions_tma(text),
        Feature::Cluster => mentions_cluster(text),
        Feature::Sm90 => mentions_sm90(text),
        Feature::Sm80 => mentions_sm80(text),
        Feature::Movmatrix => mentions_movmatrix(text),
        Feature::Ldmatrix => mentions_ldmatrix(text),
        Feature::Sm100 => mentions_tma_sm100(text) || mentions_clc(text),
        Feature::Basic => false,
    }
}

/// Every feature that `text` calls for, or `Basic` where it calls for none.
pub open spec fn required_features(text: Seq<char>) -> Set<Feature> {
    Set::new(
        |feature: Feature|
            calls_for(text, feature) || (feature == Feature::Basic && forall|other: Feature|
                !calls_for(text, other)),
    )
}

/// `text` calls for PTX 6.2.
pub open spec fn calls_for_ptx62(text: Seq<char>) -> bool {
    mentions_packed_f16_atomic(text)
}

/// `text` calls for PTX 6.5.
pub open spec fn calls_for_ptx65(text: Seq<char>) -> bool {
    mentions_ldmatrix(text)
}

/// `text` calls for PTX 7.0.
pub open spec fn calls_for_ptx70(text: Seq<char>) -> bool {
    ||| mentions_mbarrier(text)
    ||| occurs(text, "redux.sync"@)
    ||| mentions_mma_m16n8k16_f32_bf16(text)
    ||| mentions_mma_m16n8k16_f32_f16(text)
    ||| mentions_mma_m16n8k8_f32_tf32(text)
    ||| mentions_mma_m16n8k32_s32_s8(text)
    ||| mentions_mma_m8n8k4_f64(text)
}

/// `text` calls for PTX 7.1.
pub open spec fn calls_for_ptx71(text: Seq<char>) -> bool {
    mentions_mbarrier_ptx71(text)
}

/// `text` calls for PTX 7.8.
pub open spec fn calls_for_ptx78(text: Seq<char>) -> bool {
    ||| mentions_movmatrix(text)
    ||| mentions_stmatrix(text)
    ||| mentions_ldmatrix_cta_state_space(text)
    ||| mentions_cluster(text)
    ||| mentions_mbarrier_ptx78(text)
    ||| mentions_packed_bf16_atomic(text)
}

/// `text` calls for PTX 8.0.
pub open spec fn calls_for_ptx80(text: Seq<char>) -> bool {
    ||| mentions_cp_async_bulk(text)
    ||| mentions_wgmma(text)
    ||| mentions_cluster_ptx80(text)
    ||| mentions_elect(text)
    ||| mentions_mbarrier_ptx80(text)
    ||| occurs(text, "fence.mbarrier_init"@)
    ||| occurs(text, "fence.proxy.async"@)
}

/// `text` calls for PTX 8.6.
pub open spec fn calls_for_ptx86(text: Seq<char>) -> bool {
    ||| mentions_blackwell_matrix(text)
    ||| mentions_tma_cta_group(text)
    ||| mentions_tma_shared_cta_destination(text)
    ||| mentions_tma_ptx86(text)
    ||| mentions_clc(text)
    ||| mentions_blackwell(text)
    ||| mentions_fence_acquire_release(text)
    ||| mentions_multimem(text)
    ||| mentions_redux_f32(text)
}

/// The newest PTX ISA that `text` calls for.
pub open spec fn required_isa(text: Seq<char>) -> PtxIsaRequirement {
    if calls_for_ptx86(text) {
        PtxIsaRequirement::Ptx86
    } else if calls_for_ptx80(text) {
        PtxIsaRequirement::Ptx80
    } else if calls_for_ptx78(text) {
        PtxIsaRequirement::Ptx78
    } else if calls_for_ptx71(text) {
        PtxIsaRequirement::Ptx71
    } else if calls_for_ptx70(text) {
        PtxIsaRequirement::Ptx70
    } else if calls_for_ptx65(text) {
        PtxIsaRequirement::Ptx65
    } else if calls_for_ptx62(text) {
        PtxIsaRequirement::Ptx62
    } else {
        PtxIsaRequirement::Default
    }
}

/// PTX ISA requirements are independent of the GPU architecture floor.
///
/// A module may need sm_80 because it uses `cp.async` and still need PTX 7.8
/// because it also uses `movmatrix`.
#[derive(Debug, Clone, Copy, PartialEq, Eq, PartialOrd, Ord, Structural)]
pub enum PtxIsaRequirement {
    Default,
    Ptx62,
    Ptx65,
    Ptx70,
    Ptx71,
    Ptx78,
    Ptx80,
    Ptx86,
}

/// What a module asks of the GPU architecture and of the PTX ISA.
#[derive(Debug, Clone, Copy, PartialEq, Eq)]
pub struct ModuleRequirements {
    pub features: DetectedFeatures,
    pub ptx_isa: PtxIsaRequirement,
}

proof fn lemma_required_features(text: Seq<char>, called: Set<Feature>)
    requires
        forall|feature: Feature| called.contains(feature) == #[trigger] calls_for(text, feature),
    ensures
        required_features(text) == if called == Set::<Feature>::empty() {
            called.insert(Feature::Basic)
        } else {
            called
        },
{
    if called == Set::<Feature>::empty() {
        assert forall|other: Feature| !calls_for(text, other) by {
            assert(!called.contains(other));
        }
        assert(required_features(text) =~= called.insert(Feature::Basic));
    } else {
        let some = choose|some: Feature| called.contains(some);
        assert(exists|some: Feature| called.contains(some)) by {
            if forall|some: Feature| !called.contains(some) {
                assert(called =~= Set::<Feature>::empty());
            }
        }
        assert(calls_for(text, some));
        assert(required_features(text) =~= called);
    }
}

/// Does the text call for `feature`?
fn detects(contents: &str, feature: Feature) -> (found: bool)
    ensures
        found == calls_for(contents@, feature),
{
    match feature {
        Feature::Blackwell => contains_blackwell_features(contents),
        Feature::TmaCtaGroup => contains_tma_cta_group_features(contents),
        Feature::BlackwellAccelerated => contains_tma_blackwell_accelerated_features(contents),
        Feature::BlackwellFamily => contains_clc_multicast_features(contents),
        Feature::ReduxF32 => contains_redux_f32_features(contents),
        Feature::MultimemFp8 => contains_multimem_blackwell_features(contents),
        Feature::TmaMulticast => contains_tma_multicast(contents),
        Feature::MatrixBlackwell => contains_blackwell_matrix_features(contents),
        Feature::Wgmma => contains_wgmma_features(contents),
        Feature::Tma => contains_tma_features(contents),
        Feature::Cluster => contains_cluster_features(contents),
        Feature::Sm90 => contains_sm90_features(contents),
        Feature::Sm80 => contains_sm80_features(contents),
        Feature::Movmatrix => contains_movmatrix_features(contents),
        Feature::Ldmatrix => contains_ldmatrix_features(contents),
        Feature::Sm100 => contains_tma_sm100_features(contents) || contains_clc_features(contents),
        Feature::Basic => false,
    }
}

/// Detect every architecture requirement in exported LLVM text.
///
/// Both the ordinary PTX path and automatic libdevice mode use this exact
/// detector. The latter renders an in-memory preview before choosing the NVVM
/// pointer dialect.
pub fn detect_features_in_llvm_text(contents: &str) -> (features: DetectedFeatures)
    ensures
        features.wf(),
        features@ == required_features(contents@),
{
    let ghost text = contents@;
    let all = Feature::all();
    let mut features = DetectedFeatures::empty();
    for k in 0..all.len()
        invariant
            text == contents@,
            all@ == all_features(),
            features.wf(),
            forall|feature: Feature| #[trigger] features@.contains(feature)
                == (all_features().take(k as int).contains(feature) && calls_for(text, feature)),
    {
        let feature = all[k];
        proof {
            let before = all_features().take(k as int);
            let after = all_features().take(k + 1);
            assert(after =~= before.push(feature));
            assert forall|other: Feature| after.contains(other) == (before.contains(other) || other
                == feature) by {
                if before.contains(other) {
                    let j = before.index_of(other);
                    assert(after[j] == other);
                }
                assert(after[k as int] == feature);
            }
        }
        if detects(contents, feature) {
            features.insert(feature);
        }
    }
    proof {
        assert(all_features().take(17) =~= all_features());
        assert forall|feature: Feature| features@.contains(feature) == #[trigger] calls_for(
            text,
            feature,
        ) by {
            all_features_lists_each_feature_once(feature);
        }
        lemma_required_features(text, features@);
    }
    if features.is_empty() {
        features.insert(Feature::Basic);
    }
    features
}

/// Detect the architecture and PTX ISA requirements of exported LLVM text.
pub fn detect_module_requirements_in_llvm_text(contents: &str) -> (requirements: ModuleRequirements)
    ensures
        requirements.features.wf(),
        requirements.features@ == required_features(contents@),
        requirements.ptx_isa == required_isa(contents@),
{
    let chars = chars_of(contents);
    let text = chars.as_slice();
    let mut ptx_isa = PtxIsaRequirement::Default;
    if contains_packed_f16_atomic_features(contents) {
        ptx_isa = PtxIsaRequirement::Ptx62;
    }
    if contains_ldmatrix_features(contents) {
        ptx_isa = PtxIsaRequirement::Ptx65;
    }
    if contains_mbarrier_features(contents) || contains(text, "redux.sync")
        || contains_mma_m16n8k16_f32_bf16_features(contents)
        || contains_mma_m16n8k16_f32_f16_features(contents)
        || contains_mma_m16n8k8_f32_tf32_features(contents)
        || contains_mma_m16n8k32_s32_s8_features(contents) || contains_mma_m8n8k4_f64_features(
        contents,
    ) {
        ptx_isa = PtxIsaRequirement::Ptx70;
    }
    if contains_mbarrier_ptx71_features(contents) {
        ptx_isa = PtxIsaRequirement::Ptx71;
    }
    if contains_movmatrix_features(contents) || contains_stmatrix_features(contents)
        || contains_ldmatrix_cta_state_space(contents) || contains_cluster_features(contents)
        || contains_mbarrier_ptx78_features(contents) || contains_packed_bf16_atomic_features(
        contents,
    ) {
        ptx_isa = PtxIsaRequirement::Ptx78;
    }
    if contains_cp_async_bulk_features(contents) || contains_wgmma_features(contents)
        || contains_cluster_ptx80_features(contents) || contains_elect_features(contents)
        || contains_mbarrier_ptx80_features(contents) || contains(text, "fence.mbarrier_init")
        || contains(text, "fence.proxy.async") {
        ptx_isa = PtxIsaRequirement::Ptx80;
    }
    if contains_blackwell_matrix_features(contents) || contains_tma_cta_group_features(contents)
        || contains_tma_shared_cta_destination(contents) || contains_tma_ptx86_features(contents)
        || contains_clc_features(contents) || contains_blackwell_features(contents)
        || contains_fence_acquire_release_features(contents) || contains_multimem_features(contents)
        || contains_redux_f32_features(contents) {
        ptx_isa = PtxIsaRequirement::Ptx86;
    }
    ModuleRequirements { features: detect_features_in_llvm_text(contents), ptx_isa }
}

/// The diagnostic for LLVM IR that could not be read.
pub open spec fn uninspected_message(path: Seq<char>, error: Seq<char>) -> Seq<char> {
    "failed to inspect generated LLVM IR "@ + path + ": "@ + error
}

/// Detect the requirements of the LLVM text that was read from a file, or
/// report why it could not be read.
pub fn detect_module_requirements_in_llvm_file(
    ll_path: &str,
    contents: Result<&str, &str>,
) -> (detected: Result<ModuleRequirements, PipelineError>)
    ensures
        match contents {
            Ok(text) => detected matches Ok(requirements) && requirements.features@
                == required_features(text@) && requirements.ptx_isa == required_isa(text@),
            Err(error) => detected matches Err(PipelineError::PtxGeneration(message)) && message@
                == uninspected_message(ll_path@, error@),
        },
{
    match contents {
        Ok(text) => Ok(detect_module_requirements_in_llvm_text(text)),
        Err(error) => {
            let mut message = "failed to inspect generated LLVM IR ".to_owned();
            message.append(ll_path);
            message.append(": ");
            message.append(error);
            Err(PipelineError::PtxGeneration(message))
        },
    }
}

} // verus!

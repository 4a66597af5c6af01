//! Which words and instructions make a feature or a PTX ISA necessary.
//!
//! The lists here are kept by feature and by ISA, apart from the searches that
//! find them. The laws tie the two together in both directions: each listed
//! piece of evidence makes its feature or ISA necessary in every text, and
//! nothing is found necessary without a listed piece of evidence.

use vstd::prelude::*;

use crate::target::detect::{
    bf16x2_conversion_statement, blackwell_matrix_statement, calls_for, calls_for_ptx71,
    calls_for_ptx78, calls_for_ptx80, calls_for_ptx86, clc_multicast_statement,
    cluster_fence_statement, cluster_ptx80_statement, cluster_scoped_memory_statement,
    fence_acquire_release_statement, instruction_at, ldmatrix_cta_state_space_statement, match_at,
    mbarrier_ptx71_statement, mbarrier_ptx78_statement, mbarrier_ptx80_statement,
    mbarrier_sm90_statement, mentions_bf16x2_conversion, mentions_blackwell_matrix,
    mentions_clc_multicast, mentions_cluster, mentions_cluster_fence, mentions_cluster_ptx80,
    mentions_cluster_scoped_memory, mentions_fence_acquire_release, mentions_instruction,
    mentions_ldmatrix_cta_state_space, mentions_mbarrier_ptx71, mentions_mbarrier_ptx78,
    mentions_mbarrier_ptx80, mentions_mbarrier_sm90, mentions_multimem,
    mentions_multimem_blackwell, mentions_redux_f32, mentions_relaxed_mbarrier,
    mentions_tma_blackwell_accelerated, mentions_tma_cta_group_copy,
    mentions_tma_cta_group_intrinsic, mentions_tma_multicast_copy,
    mentions_tma_multicast_intrinsic, mentions_tma_shared_cta_destination, mentions_tma_sm100,
    multimem_blackwell_statement, multimem_statement, PtxIsaRequirement, redux_f32_statement,
    relaxed_mbarrier_statement, required_features, required_isa, search_resumes,
    tma_blackwell_accelerated_statement, tma_cta_group_copy_statement,
    tma_cta_group_intrinsic_line, tma_multicast_copy_statement, tma_multicast_intrinsic_line,
    tma_shared_cta_destination_statement, tma_sm100_statement,
};
use crate::target::features::Feature;
use crate::target::join::isa_order;
use crate::text::{any_line, any_statement, line_at, occurs, occurs_at, statement_at, whitespace};

verus! {

/// The character does not stand in the text.
pub open spec fn without(text: Seq<char>, c: char) -> bool {
    forall|k: int| 0 <= k < text.len() ==> #[trigger] text[k] != c
}

/// The mnemonic stands in the text as an instruction: at the beginning or behind a
/// blank, a quote, a bracket, a colon or the end of a statement, and in front of a
/// blank.
pub open spec fn stands_alone(text: Seq<char>, mnemonic: Seq<char>) -> bool {
    exists|at: int| #[trigger]
        occurs_at(text, at, mnemonic) && (at == 0 || delimits(text[at - 1])) && at + mnemonic.len()
            < text.len() && blank_character(text[at + mnemonic.len()])
}

/// The blanks between the words of an instruction.
pub open spec fn blank_character(c: char) -> bool {
    c == ' ' || c == '\t' || c == '\n' || c == '\r'
}

/// The characters behind which an instruction can begin.
pub open spec fn delimits(c: char) -> bool {
    blank_character(c) || c == '"' || c == ';' || c == ':' || c == '{' || c == '}'
}

/// What stands in a part of a text stands in the text.
proof fn lemma_within(outer: Seq<char>, inner: Seq<char>, word: Seq<char>)
    requires
        occurs(outer, inner),
        occurs(inner, word),
    ensures
        occurs(outer, word),
{
    let i = choose|i: int| occurs_at(outer, i, inner);
    let j = choose|j: int| occurs_at(inner, j, word);
    assert(outer.subrange(i + j, i + j + word.len()) =~= outer.subrange(
        i,
        i + inner.len(),
    ).subrange(j, j + word.len()));
    assert(occurs_at(outer, i + j, word));
}

/// What stands in a subrange of a text stands in the text.
proof fn lemma_part(text: Seq<char>, from: int, to: int, word: Seq<char>)
    requires
        0 <= from <= to <= text.len(),
    ensures
        occurs(text.subrange(from, to), word) ==> occurs(text, word),
{
    if occurs(text.subrange(from, to), word) {
        assert(occurs_at(text, from, text.subrange(from, to)));
        lemma_within(text, text.subrange(from, to), word);
    }
}

/// Where the stretch without `c` begins that ends at `at`.
proof fn lemma_stretch_begin(text: Seq<char>, at: int, c: char) -> (from: int)
    requires
        0 <= at <= text.len(),
    ensures
        0 <= from <= at,
        from == 0 || text[from - 1] == c,
        forall|k: int| from <= k < at ==> text[k] != c,
    decreases at,
{
    if at == 0 || text[at - 1] == c {
        at
    } else {
        lemma_stretch_begin(text, at - 1, c)
    }
}

/// Where the stretch without `c` ends that begins at `at`.
proof fn lemma_stretch_end(text: Seq<char>, at: int, c: char) -> (to: int)
    requires
        0 <= at <= text.len(),
    ensures
        at <= to <= text.len(),
        to == text.len() || text[to] == c,
        forall|k: int| at <= k < to ==> text[k] != c,
    decreases text.len() - at,
{
    if at == text.len() || text[at] == c {
        at
    } else {
        lemma_stretch_end(text, at + 1, c)
    }
}

/// A run without `;` stands inside one statement.
proof fn lemma_run(text: Seq<char>, run: Seq<char>) -> (bounds: (int, int))
    requires
        occurs(text, run),
        without(run, ';'),
    ensures
        statement_at(text, bounds.0, bounds.1),
        occurs(text.subrange(bounds.0, bounds.1), run),
{
    let at = choose|at: int| occurs_at(text, at, run);
    let end = at + run.len();
    let from = lemma_stretch_begin(text, at, ';');
    let to = lemma_stretch_end(text, end, ';');
    assert forall|k: int| from <= k < to implies text[k] != ';' by {
        if at <= k < end {
            assert(text.subrange(at, end)[k - at] == run[k - at]);
        }
    }
    let statement = text.subrange(from, to);
    assert(statement.subrange(at - from, end - from) =~= text.subrange(at, end));
    assert(occurs_at(statement, at - from, run));
    (from, to)
}

/// A run without line breaks stands inside one line.
proof fn lemma_line_run(text: Seq<char>, run: Seq<char>) -> (bounds: (int, int))
    requires
        occurs(text, run),
        run.len() > 0,
        without(run, '\n'),
        without(run, '\r'),
    ensures
        line_at(text, bounds.0, bounds.1),
        occurs(text.subrange(bounds.0, bounds.1), run),
{
    let at = choose|at: int| occurs_at(text, at, run);
    let end = at + run.len();
    let from = lemma_stretch_begin(text, at, '\n');
    let stop = lemma_stretch_end(text, end, '\n');
    assert forall|k: int| from <= k < stop implies text[k] != '\n' by {
        if at <= k < end {
            assert(text.subrange(at, end)[k - at] == run[k - at]);
        }
    }
    assert(text.subrange(at, end)[run.len() - 1] == text[end - 1]);
    let to = if stop < text.len() && text[stop - 1] == '\r' {
        stop - 1
    } else {
        stop
    };
    let line = text.subrange(from, to);
    assert(line.subrange(at - from, end - from) =~= text.subrange(at, end));
    assert(occurs_at(line, at - from, run));
    (from, to)
}

/// A match that ends behind `at` covers the character in front of `at`.
proof fn lemma_search_stops(text: Seq<char>, at: nat, seen: nat, mnemonic: Seq<char>)
    requires
        seen <= at <= text.len(),
        at > 0 ==> delimits(text[at - 1]),
        forall|k: int| 0 <= k < mnemonic.len() ==> !delimits(#[trigger] mnemonic[k]),
        mnemonic.len() > 0,
    ensures
        search_resumes(text, seen, mnemonic) <= at,
    decreases seen,
{
    reveal_with_fuel(search_resumes, 2);
    reveal_with_fuel(match_at, 2);
    if seen > 0 {
        let previous = (seen - 1) as nat;
        lemma_search_stops(text, at, previous, mnemonic);
        if match_at(text, previous as int, mnemonic) && previous + mnemonic.len() > at {
            let k = at - 1 - previous;
            assert(text.subrange(previous as int, previous as int + mnemonic.len())[k] == text[at - 1]);
            assert(!delimits(mnemonic[k]));
        }
    }
}

/// A mnemonic without blanks that stands alone is found as an instruction.
proof fn lemma_alone(text: Seq<char>, mnemonic: Seq<char>)
    requires
        stands_alone(text, mnemonic),
        mnemonic.len() > 0,
        forall|k: int| 0 <= k < mnemonic.len() ==> !delimits(#[trigger] mnemonic[k]),
    ensures
        mentions_instruction(text, mnemonic),
{
    let at = choose|at: int| #[trigger]
        occurs_at(text, at, mnemonic) && (at == 0 || delimits(text[at - 1])) && at + mnemonic.len()
            < text.len() && blank_character(text[at + mnemonic.len()]);
    reveal_with_fuel(match_at, 2);
    lemma_search_stops(text, at as nat, at as nat, mnemonic);
    let front = text.take(at);
    if at > 0 {
        assert(front.last() == text[at - 1]);
    }
    assert(text.skip(at + mnemonic.len())[0] == text[at + mnemonic.len()]);
    assert(instruction_at(text, at, mnemonic));
}

/// A mnemonic that is found as an instruction stands in the text.
proof fn lemma_instruction_occurs(text: Seq<char>, mnemonic: Seq<char>)
    ensures
        mentions_instruction(text, mnemonic) ==> occurs(text, mnemonic),
{
    if mentions_instruction(text, mnemonic) {
        let at = choose|at: int| #[trigger] instruction_at(text, at, mnemonic);
        reveal_with_fuel(match_at, 2);
        assert(occurs_at(text, at, mnemonic));
    }
}

/// A word that makes the feature necessary wherever it stands.
pub open spec fn needs_word(feature: Feature, word: Seq<char>) -> bool {
    match feature {
        Feature::Blackwell => {
            ||| word == "tcgen05.alloc"@
            ||| word == "tcgen05.dealloc"@
            ||| word == "tcgen05.relinquish_alloc_permit"@
            ||| word == "tcgen05.fence"@
            ||| word == "tcgen05.commit"@
            ||| word == "tcgen05.mma"@
            ||| word == "tcgen05.cp"@
            ||| word == "tcgen05.shift"@
            ||| word == "tcgen05.ld"@
            ||| word == "tcgen05.st"@
            ||| word == "tcgen05.wait"@
        },
        Feature::Wgmma => {
            ||| word == "wgmma.fence"@
            ||| word == "wgmma.commit_group"@
            ||| word == "wgmma.wait_group"@
            ||| word == "wgmma.mma_async"@
        },
        Feature::Tma => {
            ||| word == "cp.async.bulk."@
            ||| word == "fence.mbarrier_init"@
            ||| word == "fence.proxy.async"@
            ||| word == ".sync_restrict"@
        },
        Feature::Cluster => {
            ||| word == "cluster_ctaid"@
            ||| word == "cluster_nctaid"@
            ||| word == "cluster_ctarank"@
            ||| word == "cluster_nctarank"@
            ||| word == "%clusterid"@
            ||| word == "%nclusterid"@
            ||| word == "%is_explicit_cluster"@
            ||| word == "!\"cluster_dim_x\""@
            ||| word == "!\"cluster_dim_y\""@
            ||| word == "!\"cluster_dim_z\""@
            ||| word == "cluster.sync"@
            ||| word == "barrier.cluster."@
            ||| word == "mapa.shared::cluster"@
            ||| word == ".shared::cluster"@
            ||| word == "fence.sc.cluster"@
            ||| word == "fence.acq_rel.cluster"@
            ||| word == "fence.acquire.cluster"@
            ||| word == "fence.release.cluster"@
        },
        Feature::Sm90 => {
            ||| word == "elect.sync"@
            ||| word == "stmatrix.sync.aligned."@
            ||| word == "fence.acquire."@
            ||| word == "fence.release."@
            ||| word == "multimem.ld_reduce"@
            ||| word == "multimem.st"@
            ||| word == "multimem.red"@
        },
        Feature::Sm80 => {
            ||| word == "mbarrier."@
            ||| word == "llvm.nvvm.mbarrier"@
            ||| word == "redux.sync"@
            ||| word == "cp.async.ca.shared"@
            ||| word == "cp.async.cg.shared"@
            ||| word == "cp.async.commit_group"@
            ||| word == "cp.async.commit.group"@
            ||| word == "cp.async.wait_group"@
            ||| word == "cp.async.wait.group"@
            ||| word == "cp.async.wait_all"@
            ||| word == "cp.async.wait.all"@
        },
        Feature::Ldmatrix => word == "ldmatrix.sync.aligned."@,
        Feature::Sm100 => word == "clusterlaunchcontrol."@,
        _ => false,
    }
}

/// Two words that make the feature necessary together in one statement.
pub open spec fn needs_pair(feature: Feature, one: Seq<char>, other: Seq<char>) -> bool {
    match feature {
        Feature::TmaCtaGroup => {
            ||| one == "cp.async.bulk.tensor"@ && other == ".cta_group::1"@
            ||| one == "cp.async.bulk.tensor"@ && other == ".cta_group::2"@
        },
        Feature::BlackwellAccelerated => {
            ||| one == "cp.async.bulk."@ && other == ".tile::scatter4"@
            ||| one == "cp.async.bulk."@ && other == ".im2col::w::128"@
        },
        Feature::BlackwellFamily => one == "clusterlaunchcontrol."@ && other == ".multicast::cluster::all"@,
        Feature::ReduxF32 => one == "redux.sync"@ && other == ".f32"@,
        Feature::MultimemFp8 => {
            ||| one == "multimem.ld_reduce"@ && other == ".e4m3"@
            ||| one == "multimem.ld_reduce"@ && other == ".e5m2"@
            ||| one == "multimem.ld_reduce"@ && other == ".acc::f16"@
            ||| one == "multimem.st"@ && other == ".e4m3"@
            ||| one == "multimem.st"@ && other == ".e5m2"@
            ||| one == "multimem.st"@ && other == ".acc::f16"@
            ||| one == "multimem.red"@ && other == ".e4m3"@
            ||| one == "multimem.red"@ && other == ".e5m2"@
            ||| one == "multimem.red"@ && other == ".acc::f16"@
        },
        Feature::TmaMulticast => one == "cp.async.bulk.tensor"@ && other == ".multicast::cluster"@,
        Feature::MatrixBlackwell => {
            ||| one == "ldmatrix.sync.aligned."@ && other == ".m16n16."@
            ||| one == "ldmatrix.sync.aligned."@ && other == ".m8n16."@
            ||| one == "ldmatrix.sync.aligned."@ && other == ".b8"@
            ||| one == "ldmatrix.sync.aligned."@ && other == ".src_fmt"@
            ||| one == "ldmatrix.sync.aligned."@ && other == ".dst_fmt"@
            ||| one == "stmatrix.sync.aligned."@ && other == ".m16n8."@
            ||| one == "stmatrix.sync.aligned."@ && other == ".b8"@
        },
        Feature::Tma => {
            ||| one == "mbarrier."@ && other == "try_wait"@
            ||| one == "mbarrier."@ && other == "expect_tx"@
            ||| one == "mbarrier."@ && other == "complete_tx"@
            ||| one == "mbarrier."@ && other == "shared::cluster"@
            ||| one == "mbarrier."@ && other == ".acquire."@
            ||| one == "mbarrier."@ && other == ".release."@
            ||| one == "mbarrier."@ && other == ".relaxed"@
            ||| one == "llvm.nvvm.mbarrier"@ && other == "try_wait"@
            ||| one == "llvm.nvvm.mbarrier"@ && other == "expect_tx"@
            ||| one == "llvm.nvvm.mbarrier"@ && other == "complete_tx"@
            ||| one == "llvm.nvvm.mbarrier"@ && other == "shared::cluster"@
            ||| one == "llvm.nvvm.mbarrier"@ && other == ".acquire."@
            ||| one == "llvm.nvvm.mbarrier"@ && other == ".release."@
            ||| one == "llvm.nvvm.mbarrier"@ && other == ".relaxed"@
        },
        Feature::Sm80 => one == "cvt."@ && other == ".bf16x2.f32"@,
        Feature::Sm100 => one == "cp.async.bulk."@ && other == ".cp_mask"@,
        _ => false,
    }
}

/// Two words that make the feature necessary together in one line.
pub open spec fn needs_line_pair(feature: Feature, one: Seq<char>, other: Seq<char>) -> bool {
    match feature {
        Feature::TmaCtaGroup => {
            ||| one == "g2s.tile"@ && other == ", i32 1)"@
            ||| one == "g2s.tile"@ && other == ", i32 2)"@
        },
        Feature::TmaMulticast => {
            ||| one == "g2s.tile"@ && other == ", i1 1, i1"@
            ||| one == "g2s.tile"@ && other == ", i1 true, i1"@
        },
        _ => false,
    }
}

/// A mnemonic that makes the feature necessary as an instruction of its own.
pub open spec fn needs_mnemonic(feature: Feature, word: Seq<char>) -> bool {
    match feature {
        Feature::Sm90 => {
            ||| word == "add.rn.bf16x2"@
            ||| word == "sub.rn.bf16x2"@
            ||| word == "mul.rn.bf16x2"@
            ||| word == "atom.global.add.noftz.bf16x2"@
        },
        Feature::Sm80 => {
            ||| word == "fma.rn.bf16x2"@
            ||| word == "fma.rn.relu.bf16x2"@
            ||| word == "min.bf16x2"@
            ||| word == "max.bf16x2"@
            ||| word == "neg.bf16x2"@
            ||| word == "abs.bf16x2"@
            ||| word == "mma.sync.aligned.m16n8k16.row.col.f32.bf16.bf16.f32"@
            ||| word == "mma.sync.aligned.m16n8k16.row.col.f32.f16.f16.f32"@
            ||| word == "mma.sync.aligned.m16n8k8.row.col.f32.tf32.tf32.f32"@
            ||| word == "mma.sync.aligned.m16n8k32.row.col.s32.s8.s8.s32"@
            ||| word == "mma.sync.aligned.m16n8k32.row.col.satfinite.s32.s8.s8.s32"@
            ||| word == "mma.sync.aligned.m8n8k4.row.col.f64.f64.f64.f64"@
        },
        Feature::Movmatrix => word == "movmatrix.sync.aligned.m8n8.trans.b16"@,
        _ => false,
    }
}

/// A word that makes the PTX ISA necessary wherever it stands.
pub open spec fn isa_word(isa: PtxIsaRequirement, word: Seq<char>) -> bool {
    match isa {
        PtxIsaRequirement::Ptx65 => word == "ldmatrix.sync.aligned."@,
        PtxIsaRequirement::Ptx70 => {
            ||| word == "mbarrier."@
            ||| word == "llvm.nvvm.mbarrier"@
            ||| word == "redux.sync"@
        },
        PtxIsaRequirement::Ptx78 => {
            ||| word == "stmatrix.sync.aligned."@
            ||| word == "cluster_ctaid"@
            ||| word == "cluster_nctaid"@
            ||| word == "cluster_ctarank"@
            ||| word == "cluster_nctarank"@
            ||| word == "%clusterid"@
            ||| word == "%nclusterid"@
            ||| word == "%is_explicit_cluster"@
            ||| word == "!\"cluster_dim_x\""@
            ||| word == "!\"cluster_dim_y\""@
            ||| word == "!\"cluster_dim_z\""@
            ||| word == "cluster.sync"@
            ||| word == "barrier.cluster."@
            ||| word == "mapa.shared::cluster"@
            ||| word == ".shared::cluster"@
            ||| word == "fence.sc.cluster"@
            ||| word == "fence.acq_rel.cluster"@
            ||| word == "fence.acquire.cluster"@
            ||| word == "fence.release.cluster"@
        },
        PtxIsaRequirement::Ptx80 => {
            ||| word == "cp.async.bulk."@
            ||| word == "wgmma.fence"@
            ||| word == "wgmma.commit_group"@
            ||| word == "wgmma.wait_group"@
            ||| word == "wgmma.mma_async"@
            ||| word == "elect.sync"@
            ||| word == "fence.mbarrier_init"@
            ||| word == "fence.proxy.async"@
        },
        PtxIsaRequirement::Ptx86 => {
            ||| word == ".sync_restrict"@
            ||| word == "clusterlaunchcontrol."@
            ||| word == "tcgen05.alloc"@
            ||| word == "tcgen05.dealloc"@
            ||| word == "tcgen05.relinquish_alloc_permit"@
            ||| word == "tcgen05.fence"@
            ||| word == "tcgen05.commit"@
            ||| word == "tcgen05.mma"@
            ||| word == "tcgen05.cp"@
            ||| word == "tcgen05.shift"@
            ||| word == "tcgen05.ld"@
            ||| word == "tcgen05.st"@
            ||| word == "tcgen05.wait"@
            ||| word == "fence.acquire."@
            ||| word == "fence.release."@
            ||| word == "multimem.ld_reduce"@
            ||| word == "multimem.st"@
            ||| word == "multimem.red"@
        },
        _ => false,
    }
}

/// Two words that make the PTX ISA necessary together in one statement.
pub open spec fn isa_pair(isa: PtxIsaRequirement, one: Seq<char>, other: Seq<char>) -> bool {
    match isa {
        PtxIsaRequirement::Ptx71 => one == "mbarrier.test_wait"@ && other == ".parity"@,
        PtxIsaRequirement::Ptx78 => {
            ||| one == "ldmatrix.sync.aligned."@ && other == ".shared::cta."@
            ||| one == "mbarrier."@ && other == "try_wait"@
            ||| one == "mbarrier."@ && other == "shared::cta"@
        },
        PtxIsaRequirement::Ptx80 => {
            ||| one == "barrier.cluster."@ && other == ".release"@
            ||| one == "barrier.cluster."@ && other == ".relaxed"@
            ||| one == "barrier.cluster."@ && other == ".acquire"@
            ||| one == "mbarrier."@ && other == "expect_tx"@
            ||| one == "mbarrier."@ && other == "complete_tx"@
            ||| one == "mbarrier."@ && other == "shared::cluster"@
            ||| one == "mbarrier."@ && other == ".acquire."@
            ||| one == "mbarrier."@ && other == ".release."@
        },
        PtxIsaRequirement::Ptx86 => {
            ||| one == "ldmatrix.sync.aligned."@ && other == ".m16n16."@
            ||| one == "ldmatrix.sync.aligned."@ && other == ".m8n16."@
            ||| one == "ldmatrix.sync.aligned."@ && other == ".b8"@
            ||| one == "ldmatrix.sync.aligned."@ && other == ".src_fmt"@
            ||| one == "ldmatrix.sync.aligned."@ && other == ".dst_fmt"@
            ||| one == "stmatrix.sync.aligned."@ && other == ".m16n8."@
            ||| one == "stmatrix.sync.aligned."@ && other == ".b8"@
            ||| one == "cp.async.bulk.tensor"@ && other == ".cta_group::1"@
            ||| one == "cp.async.bulk.tensor"@ && other == ".cta_group::2"@
            ||| one == "cp.async.bulk."@ && other == ".shared::cta.global"@
            ||| one == "cp.async.bulk."@ && other == ".cp_mask"@
            ||| one == "cp.async.bulk."@ && other == ".tile::scatter4"@
            ||| one == "cp.async.bulk."@ && other == ".tile::gather4"@
            ||| one == "cp.async.bulk."@ && other == ".im2col::w"@
            ||| one == "cp.async.bulk."@ && other == ".im2col::w::128"@
            ||| one == "mbarrier."@ && other == ".relaxed"@
            ||| one == "redux.sync"@ && other == ".f32"@
        },
        _ => false,
    }
}

/// Two words that make the PTX ISA necessary together in one line.
pub open spec fn isa_line_pair(isa: PtxIsaRequirement, one: Seq<char>, other: Seq<char>) -> bool {
    match isa {
        PtxIsaRequirement::Ptx86 => {
            ||| one == "g2s.tile"@ && other == ", i32 1)"@
            ||| one == "g2s.tile"@ && other == ", i32 2)"@
        },
        _ => false,
    }
}

/// A mnemonic that makes the PTX ISA necessary as an instruction of its own.
pub open spec fn isa_mnemonic(isa: PtxIsaRequirement, word: Seq<char>) -> bool {
    match isa {
        PtxIsaRequirement::Ptx62 => word == "atom.global.add.noftz.f16x2"@,
        PtxIsaRequirement::Ptx70 => {
            ||| word == "mma.sync.aligned.m16n8k16.row.col.f32.bf16.bf16.f32"@
            ||| word == "mma.sync.aligned.m16n8k16.row.col.f32.f16.f16.f32"@
            ||| word == "mma.sync.aligned.m16n8k8.row.col.f32.tf32.tf32.f32"@
            ||| word == "mma.sync.aligned.m16n8k32.row.col.s32.s8.s8.s32"@
            ||| word == "mma.sync.aligned.m16n8k32.row.col.satfinite.s32.s8.s8.s32"@
            ||| word == "mma.sync.aligned.m8n8k4.row.col.f64.f64.f64.f64"@
        },
        PtxIsaRequirement::Ptx78 => {
            ||| word == "movmatrix.sync.aligned.m8n8.trans.b16"@
            ||| word == "atom.global.add.noftz.bf16x2"@
        },
        _ => false,
    }
}

/// A listed word makes its feature necessary in every text in which it stands.
#[verifier::rlimit(50)]
pub proof fn words_need_their_feature(text: Seq<char>, feature: Feature, word: Seq<char>)
    requires
        needs_word(feature, word),
        occurs(text, word),
    ensures
        required_features(text).contains(feature),
{
    match feature {
        Feature::Cluster => lemma_cluster_word(text, word),
        Feature::Sm90 => {
            lemma_one_way_fence(text, word);
            lemma_multimem_word(text, word);
        },
        _ => {},
    }
    assert(calls_for(text, feature));
}

proof fn lemma_cluster_word(text: Seq<char>, word: Seq<char>)
    requires
        needs_word(Feature::Cluster, word),
        occurs(text, word),
    ensures
        mentions_cluster(text),
{
    if (word == "fence.sc.cluster"@ || word == "fence.acq_rel.cluster"@ || word == "fence.acquire.cluster"@ || word == "fence.release.cluster"@) {
        reveal_strlit("fence.sc.cluster");
        reveal_strlit("fence.acq_rel.cluster");
        reveal_strlit("fence.acquire.cluster");
        reveal_strlit("fence.release.cluster");
        let (from, to) = lemma_run(text, word);
        assert(cluster_fence_statement(text.subrange(from, to)));
        assert(mentions_cluster_fence(text));
    }
}

proof fn lemma_one_way_fence(text: Seq<char>, word: Seq<char>)
    requires
        occurs(text, word),
    ensures
        (word == "fence.acquire."@ || word == "fence.release."@) ==> mentions_fence_acquire_release(text),
{
    if (word == "fence.acquire."@ || word == "fence.release."@) {
        reveal_strlit("fence.acquire.");
        reveal_strlit("fence.release.");
        let (from, to) = lemma_run(text, word);
        assert(fence_acquire_release_statement(text.subrange(from, to)));
    }
}

proof fn lemma_multimem_word(text: Seq<char>, word: Seq<char>)
    requires
        occurs(text, word),
    ensures
        (word == "multimem.ld_reduce"@ || word == "multimem.st"@ || word == "multimem.red"@) ==> mentions_multimem(text),
{
    if (word == "multimem.ld_reduce"@ || word == "multimem.st"@ || word == "multimem.red"@) {
        reveal_strlit("multimem.ld_reduce");
        reveal_strlit("multimem.st");
        reveal_strlit("multimem.red");
        let (from, to) = lemma_run(text, word);
        assert(multimem_statement(text.subrange(from, to)));
    }
}

/// Two listed words make their feature necessary in every text in which they
/// stand together in a run without `;`.
#[verifier::rlimit(50)]
pub proof fn pairs_need_their_feature(
    text: Seq<char>,
    feature: Feature,
    run: Seq<char>,
    one: Seq<char>,
    other: Seq<char>,
)
    requires
        needs_pair(feature, one, other),
        occurs(text, run),
        without(run, ';'),
        occurs(run, one),
        occurs(run, other),
    ensures
        required_features(text).contains(feature),
{
    let (from, to) = lemma_run(text, run);
    let statement = text.subrange(from, to);
    lemma_within(statement, run, one);
    lemma_within(statement, run, other);
    match feature {
        Feature::TmaCtaGroup => assert(tma_cta_group_copy_statement(statement)),
        Feature::BlackwellAccelerated => assert(tma_blackwell_accelerated_statement(statement)),
        Feature::BlackwellFamily => assert(clc_multicast_statement(statement)),
        Feature::ReduxF32 => assert(redux_f32_statement(statement)),
        Feature::MultimemFp8 => assert(multimem_blackwell_statement(statement)),
        Feature::TmaMulticast => assert(tma_multicast_copy_statement(statement)),
        Feature::MatrixBlackwell => assert(blackwell_matrix_statement(statement)),
        Feature::Tma => assert(mbarrier_sm90_statement(statement)),
        Feature::Sm80 => assert(bf16x2_conversion_statement(statement)),
        Feature::Sm100 => assert(tma_sm100_statement(statement)),
        _ => {},
    }
    assert(calls_for(text, feature));
}

/// Two listed words make their feature necessary in every text in which they
/// stand together in a run without a line break.
#[verifier::rlimit(50)]
pub proof fn line_pairs_need_their_feature(
    text: Seq<char>,
    feature: Feature,
    run: Seq<char>,
    one: Seq<char>,
    other: Seq<char>,
)
    requires
        needs_line_pair(feature, one, other),
        occurs(text, run),
        without(run, '\n'),
        without(run, '\r'),
        occurs(run, one),
        occurs(run, other),
    ensures
        required_features(text).contains(feature),
{
    assert(run.len() > 0) by {
        reveal_strlit("g2s.tile");
        let at = choose|at: int| occurs_at(run, at, one);
        assert(occurs_at(run, at, one));
    }
    let (from, to) = lemma_line_run(text, run);
    let line = text.subrange(from, to);
    lemma_within(line, run, one);
    lemma_within(line, run, other);
    match feature {
        Feature::TmaCtaGroup => assert(tma_cta_group_intrinsic_line(line)),
        Feature::TmaMulticast => assert(tma_multicast_intrinsic_line(line)),
        _ => {},
    }
    assert(calls_for(text, feature));
}

/// A listed mnemonic makes its feature necessary in every text in which it stands
/// as an instruction.
#[verifier::rlimit(50)]
pub proof fn mnemonics_need_their_feature(text: Seq<char>, feature: Feature, word: Seq<char>)
    requires
        needs_mnemonic(feature, word),
        stands_alone(text, word),
    ensures
        required_features(text).contains(feature),
{
    assert(mentions_instruction(text, word)) by {
        if word == "add.rn.bf16x2"@ {
            reveal_strlit("add.rn.bf16x2");
        }
        if word == "sub.rn.bf16x2"@ {
            reveal_strlit("sub.rn.bf16x2");
        }
        if word == "mul.rn.bf16x2"@ {
            reveal_strlit("mul.rn.bf16x2");
        }
        if word == "atom.global.add.noftz.bf16x2"@ {
            reveal_strlit("atom.global.add.noftz.bf16x2");
        }
        if word == "fma.rn.bf16x2"@ {
            reveal_strlit("fma.rn.bf16x2");
        }
        if word == "fma.rn.relu.bf16x2"@ {
            reveal_strlit("fma.rn.relu.bf16x2");
        }
        if word == "min.bf16x2"@ {
            reveal_strlit("min.bf16x2");
        }
        if word == "max.bf16x2"@ {
            reveal_strlit("max.bf16x2");
        }
        if word == "neg.bf16x2"@ {
            reveal_strlit("neg.bf16x2");
        }
        if word == "abs.bf16x2"@ {
            reveal_strlit("abs.bf16x2");
        }
        if word == "mma.sync.aligned.m16n8k16.row.col.f32.bf16.bf16.f32"@ {
            reveal_strlit("mma.sync.aligned.m16n8k16.row.col.f32.bf16.bf16.f32");
        }
        if word == "mma.sync.aligned.m16n8k16.row.col.f32.f16.f16.f32"@ {
            reveal_strlit("mma.sync.aligned.m16n8k16.row.col.f32.f16.f16.f32");
        }
        if word == "mma.sync.aligned.m16n8k8.row.col.f32.tf32.tf32.f32"@ {
            reveal_strlit("mma.sync.aligned.m16n8k8.row.col.f32.tf32.tf32.f32");
        }
        if word == "mma.sync.aligned.m16n8k32.row.col.s32.s8.s8.s32"@ {
            reveal_strlit("mma.sync.aligned.m16n8k32.row.col.s32.s8.s8.s32");
        }
        if word == "mma.sync.aligned.m16n8k32.row.col.satfinite.s32.s8.s8.s32"@ {
            reveal_strlit("mma.sync.aligned.m16n8k32.row.col.satfinite.s32.s8.s8.s32");
        }
        if word == "mma.sync.aligned.m8n8k4.row.col.f64.f64.f64.f64"@ {
            reveal_strlit("mma.sync.aligned.m8n8k4.row.col.f64.f64.f64.f64");
        }
        if word == "movmatrix.sync.aligned.m8n8.trans.b16"@ {
            reveal_strlit("movmatrix.sync.aligned.m8n8.trans.b16");
        }
        lemma_alone(text, word);
    }
    assert(calls_for(text, feature));
}

/// A memory instruction with cluster scope makes clusters and PTX 7.8 necessary,
/// unless it is one on multicast addresses.
pub proof fn cluster_scope_needs_clusters(
    text: Seq<char>,
    from: int,
    to: int,
    mnemonic: Seq<char>,
)
    requires
        statement_at(text, from, to),
        occurs(text.subrange(from, to), ".cluster."@),
        mnemonic == "ld."@ || mnemonic == "st."@ || mnemonic == "atom."@ || mnemonic == "red."@,
        occurs(text.subrange(from, to), mnemonic),
        !occurs(text.subrange(from, to), "multimem."@),
    ensures
        required_features(text).contains(Feature::Cluster),
        isa_order(required_isa(text)) >= 78,
{
    assert(cluster_scoped_memory_statement(text.subrange(from, to)));
    assert(mentions_cluster(text));
    assert(calls_for(text, Feature::Cluster));
}

/// A bulk copy that gathers, or that goes by columns, needs a generic Blackwell
/// target where it goes to the memory of its own block, and a datacenter one
/// where it does not.
pub proof fn gathering_copies_need_blackwell(text: Seq<char>, from: int, to: int)
    requires
        statement_at(text, from, to),
        occurs(text.subrange(from, to), "cp.async.bulk."@),
        occurs(text.subrange(from, to), ".tile::gather4"@) || (occurs(
            text.subrange(from, to),
            ".im2col::w"@,
        ) && !occurs(text.subrange(from, to), ".im2col::w::128"@)),
    ensures
        occurs(text.subrange(from, to), ".shared::cta.global"@) ==> required_features(
            text,
        ).contains(Feature::Sm100),
        !occurs(text.subrange(from, to), ".shared::cta.global"@) ==> required_features(
            text,
        ).contains(Feature::BlackwellAccelerated),
{
    let statement = text.subrange(from, to);
    if occurs(statement, ".shared::cta.global"@) {
        assert(tma_sm100_statement(statement));
        assert(calls_for(text, Feature::Sm100));
    } else {
        assert(tma_blackwell_accelerated_statement(statement));
        assert(calls_for(text, Feature::BlackwellAccelerated));
    }
}

/// A listed word makes its PTX ISA, or a newer one, necessary in every text in
/// which it stands.
#[verifier::rlimit(50)]
pub proof fn words_need_their_isa(text: Seq<char>, isa: PtxIsaRequirement, word: Seq<char>)
    requires
        isa_word(isa, word),
        occurs(text, word),
    ensures
        isa_order(required_isa(text)) >= isa_order(isa),
{
    match isa {
        PtxIsaRequirement::Ptx78 => {
            if word != "stmatrix.sync.aligned."@ {
                lemma_cluster_word(text, word);
            }
            assert(calls_for_ptx78(text));
        },
        PtxIsaRequirement::Ptx86 => {
            lemma_one_way_fence(text, word);
            lemma_multimem_word(text, word);
            assert(calls_for_ptx86(text));
        },
        _ => {},
    }
}

/// Two listed words make their PTX ISA, or a newer one, necessary in every text in
/// which they stand together in a run without `;`.
#[verifier::rlimit(50)]
pub proof fn pairs_need_their_isa(
    text: Seq<char>,
    isa: PtxIsaRequirement,
    run: Seq<char>,
    one: Seq<char>,
    other: Seq<char>,
)
    requires
        isa_pair(isa, one, other),
        occurs(text, run),
        without(run, ';'),
        occurs(run, one),
        occurs(run, other),
    ensures
        isa_order(required_isa(text)) >= isa_order(isa),
{
    let (from, to) = lemma_run(text, run);
    let statement = text.subrange(from, to);
    lemma_within(statement, run, one);
    lemma_within(statement, run, other);
    match isa {
        PtxIsaRequirement::Ptx71 => {
            assert(mbarrier_ptx71_statement(statement));
            assert(calls_for_ptx71(text));
        },
        PtxIsaRequirement::Ptx78 => {
            assert(ldmatrix_cta_state_space_statement(statement) || mbarrier_ptx78_statement(
                statement,
            ));
            assert(calls_for_ptx78(text));
        },
        PtxIsaRequirement::Ptx80 => {
            assert(cluster_ptx80_statement(statement) || mbarrier_ptx80_statement(statement));
            assert(calls_for_ptx80(text));
        },
        PtxIsaRequirement::Ptx86 => {
            assert(blackwell_matrix_statement(statement) || tma_cta_group_copy_statement(statement)
                || tma_shared_cta_destination_statement(statement) || tma_sm100_statement(statement)
                || tma_blackwell_accelerated_statement(statement) || relaxed_mbarrier_statement(
                statement,
            ) || redux_f32_statement(statement));
            assert(calls_for_ptx86(text));
        },
        _ => {},
    }
}

/// Two listed words make their PTX ISA, or a newer one, necessary in every text in
/// which they stand together in a run without a line break.
#[verifier::rlimit(50)]
pub proof fn line_pairs_need_their_isa(
    text: Seq<char>,
    isa: PtxIsaRequirement,
    run: Seq<char>,
    one: Seq<char>,
    other: Seq<char>,
)
    requires
        isa_line_pair(isa, one, other),
        occurs(text, run),
        without(run, '\n'),
        without(run, '\r'),
        occurs(run, one),
        occurs(run, other),
    ensures
        isa_order(required_isa(text)) >= isa_order(isa),
{
    assert(run.len() > 0) by {
        reveal_strlit("g2s.tile");
        let at = choose|at: int| occurs_at(run, at, one);
        assert(occurs_at(run, at, one));
    }
    let (from, to) = lemma_line_run(text, run);
    let line = text.subrange(from, to);
    lemma_within(line, run, one);
    lemma_within(line, run, other);
    assert(tma_cta_group_intrinsic_line(line));
    assert(calls_for_ptx86(text));
}

/// A listed mnemonic makes its PTX ISA, or a newer one, necessary in every text in
/// which it stands as an instruction.
#[verifier::rlimit(50)]
pub proof fn mnemonics_need_their_isa(text: Seq<char>, isa: PtxIsaRequirement, word: Seq<char>)
    requires
        isa_mnemonic(isa, word),
        stands_alone(text, word),
    ensures
        isa_order(required_isa(text)) >= isa_order(isa),
{
    assert(mentions_instruction(text, word)) by {
        if word == "atom.global.add.noftz.f16x2"@ {
            reveal_strlit("atom.global.add.noftz.f16x2");
        }
        if word == "mma.sync.aligned.m16n8k16.row.col.f32.bf16.bf16.f32"@ {
            reveal_strlit("mma.sync.aligned.m16n8k16.row.col.f32.bf16.bf16.f32");
        }
        if word == "mma.sync.aligned.m16n8k16.row.col.f32.f16.f16.f32"@ {
            reveal_strlit("mma.sync.aligned.m16n8k16.row.col.f32.f16.f16.f32");
        }
        if word == "mma.sync.aligned.m16n8k8.row.col.f32.tf32.tf32.f32"@ {
            reveal_strlit("mma.sync.aligned.m16n8k8.row.col.f32.tf32.tf32.f32");
        }
        if word == "mma.sync.aligned.m16n8k32.row.col.s32.s8.s8.s32"@ {
            reveal_strlit("mma.sync.aligned.m16n8k32.row.col.s32.s8.s8.s32");
        }
        if word == "mma.sync.aligned.m16n8k32.row.col.satfinite.s32.s8.s8.s32"@ {
            reveal_strlit("mma.sync.aligned.m16n8k32.row.col.satfinite.s32.s8.s8.s32");
        }
        if word == "mma.sync.aligned.m8n8k4.row.col.f64.f64.f64.f64"@ {
            reveal_strlit("mma.sync.aligned.m8n8k4.row.col.f64.f64.f64.f64");
        }
        if word == "movmatrix.sync.aligned.m8n8.trans.b16"@ {
            reveal_strlit("movmatrix.sync.aligned.m8n8.trans.b16");
        }
        if word == "atom.global.add.noftz.bf16x2"@ {
            reveal_strlit("atom.global.add.noftz.bf16x2");
        }
        lemma_alone(text, word);
    }
}

/// What was found in the text is listed for the feature.
pub open spec fn evidence(text: Seq<char>, feature: Feature) -> bool {
    ||| exists|word: Seq<char>| #[trigger] occurs(text, word) && needs_word(feature, word)
    ||| exists|from: int, to: int, one: Seq<char>, other: Seq<char>|
        {
            &&& #[trigger] statement_at(text, from, to)
            &&& #[trigger] needs_pair(feature, one, other)
            &&& occurs(text.subrange(from, to), one)
            &&& occurs(text.subrange(from, to), other)
        }
    ||| exists|from: int, to: int, one: Seq<char>, other: Seq<char>|
        {
            &&& #[trigger] line_at(text, from, to)
            &&& #[trigger] needs_line_pair(feature, one, other)
            &&& occurs(text.subrange(from, to), one)
            &&& occurs(text.subrange(from, to), other)
        }
    ||| exists|word: Seq<char>| #[trigger] occurs(text, word) && needs_mnemonic(feature, word)
    ||| exists|from: int, to: int|
        {
            &&& #[trigger] statement_at(text, from, to)
            &&& special(text.subrange(from, to), feature)
        }
}

/// A statement that makes the feature necessary by what it does not hold: a memory
/// instruction with cluster scope that is not on multicast addresses, or a
/// gathering copy to a destination of one sort or the other.
pub open spec fn special(statement: Seq<char>, feature: Feature) -> bool {
    let gathers = occurs(statement, "cp.async.bulk."@) && (occurs(statement, ".tile::gather4"@)
        || (occurs(statement, ".im2col::w"@) && !occurs(statement, ".im2col::w::128"@)));
    match feature {
        Feature::Cluster => {
            &&& occurs(statement, ".cluster."@)
            &&& !occurs(statement, "multimem."@)
            &&& occurs(statement, "ld."@) || occurs(statement, "st."@) || occurs(
                statement,
                "atom."@,
            ) || occurs(statement, "red."@)
        },
        Feature::Sm100 => gathers && occurs(statement, ".shared::cta.global"@),
        Feature::BlackwellAccelerated => gathers && !occurs(statement, ".shared::cta.global"@),
        _ => false,
    }
}

/// No feature is found necessary without something in the text that is listed for
/// it.
#[verifier::rlimit(50)]
pub proof fn features_need_evidence(text: Seq<char>, feature: Feature)
    requires
        required_features(text).contains(feature),
        feature != Feature::Basic,
    ensures
        evidence(text, feature),
{
    assert(calls_for(text, feature));
    match feature {
        Feature::TmaCtaGroup => {
            if mentions_tma_cta_group_copy(text) {
                let (from, to) = choose|from: int, to: int| #[trigger]
                    statement_at(text, from, to) && tma_cta_group_copy_statement(text.subrange(from, to));
                assert(needs_pair(feature, "cp.async.bulk.tensor"@, ".cta_group::1"@));
                assert(needs_pair(feature, "cp.async.bulk.tensor"@, ".cta_group::2"@));
            }
            if mentions_tma_cta_group_intrinsic(text) {
                let (from, to) = choose|from: int, to: int| #[trigger]
                    line_at(text, from, to) && tma_cta_group_intrinsic_line(text.subrange(from, to));
                assert(needs_line_pair(feature, "g2s.tile"@, ", i32 1)"@));
                assert(needs_line_pair(feature, "g2s.tile"@, ", i32 2)"@));
            }
        },
        Feature::BlackwellAccelerated => {
            if mentions_tma_blackwell_accelerated(text) {
                let (from, to) = choose|from: int, to: int| #[trigger]
                    statement_at(text, from, to) && tma_blackwell_accelerated_statement(text.subrange(from, to));
                assert(needs_pair(feature, "cp.async.bulk."@, ".tile::scatter4"@));
                assert(needs_pair(feature, "cp.async.bulk."@, ".im2col::w::128"@));
            }
        },
        Feature::BlackwellFamily => {
            if mentions_clc_multicast(text) {
                let (from, to) = choose|from: int, to: int| #[trigger]
                    statement_at(text, from, to) && clc_multicast_statement(text.subrange(from, to));
                assert(needs_pair(feature, "clusterlaunchcontrol."@, ".multicast::cluster::all"@));
            }
        },
        Feature::ReduxF32 => {
            if mentions_redux_f32(text) {
                let (from, to) = choose|from: int, to: int| #[trigger]
                    statement_at(text, from, to) && redux_f32_statement(text.subrange(from, to));
                assert(needs_pair(feature, "redux.sync"@, ".f32"@));
            }
        },
        Feature::MultimemFp8 => {
            if mentions_multimem_blackwell(text) {
                let (from, to) = choose|from: int, to: int| #[trigger]
                    statement_at(text, from, to) && multimem_blackwell_statement(text.subrange(from, to));
                assert(needs_pair(feature, "multimem.ld_reduce"@, ".e4m3"@));
                assert(needs_pair(feature, "multimem.ld_reduce"@, ".e5m2"@));
                assert(needs_pair(feature, "multimem.ld_reduce"@, ".acc::f16"@));
                assert(needs_pair(feature, "multimem.st"@, ".e4m3"@));
                assert(needs_pair(feature, "multimem.st"@, ".e5m2"@));
                assert(needs_pair(feature, "multimem.st"@, ".acc::f16"@));
                assert(needs_pair(feature, "multimem.red"@, ".e4m3"@));
                assert(needs_pair(feature, "multimem.red"@, ".e5m2"@));
                assert(needs_pair(feature, "multimem.red"@, ".acc::f16"@));
            }
        },
        Feature::TmaMulticast => {
            if mentions_tma_multicast_copy(text) {
                let (from, to) = choose|from: int, to: int| #[trigger]
                    statement_at(text, from, to) && tma_multicast_copy_statement(text.subrange(from, to));
                assert(needs_pair(feature, "cp.async.bulk.tensor"@, ".multicast::cluster"@));
            }
            if mentions_tma_multicast_intrinsic(text) {
                let (from, to) = choose|from: int, to: int| #[trigger]
                    line_at(text, from, to) && tma_multicast_intrinsic_line(text.subrange(from, to));
                assert(needs_line_pair(feature, "g2s.tile"@, ", i1 1, i1"@));
                assert(needs_line_pair(feature, "g2s.tile"@, ", i1 true, i1"@));
            }
        },
        Feature::MatrixBlackwell => {
            if mentions_blackwell_matrix(text) {
                let (from, to) = choose|from: int, to: int| #[trigger]
                    statement_at(text, from, to) && blackwell_matrix_statement(text.subrange(from, to));
                assert(needs_pair(feature, "ldmatrix.sync.aligned."@, ".m16n16."@));
                assert(needs_pair(feature, "ldmatrix.sync.aligned."@, ".m8n16."@));
                assert(needs_pair(feature, "ldmatrix.sync.aligned."@, ".b8"@));
                assert(needs_pair(feature, "ldmatrix.sync.aligned."@, ".src_fmt"@));
                assert(needs_pair(feature, "ldmatrix.sync.aligned."@, ".dst_fmt"@));
                assert(needs_pair(feature, "stmatrix.sync.aligned."@, ".m16n8."@));
                assert(needs_pair(feature, "stmatrix.sync.aligned."@, ".b8"@));
            }
        },
        Feature::Tma => {
            if mentions_mbarrier_sm90(text) {
                let (from, to) = choose|from: int, to: int| #[trigger]
                    statement_at(text, from, to) && mbarrier_sm90_statement(text.subrange(from, to));
                assert(needs_pair(feature, "mbarrier."@, "try_wait"@));
                assert(needs_pair(feature, "mbarrier."@, "expect_tx"@));
                assert(needs_pair(feature, "mbarrier."@, "complete_tx"@));
                assert(needs_pair(feature, "mbarrier."@, "shared::cluster"@));
                assert(needs_pair(feature, "mbarrier."@, ".acquire."@));
                assert(needs_pair(feature, "mbarrier."@, ".release."@));
                assert(needs_pair(feature, "mbarrier."@, ".relaxed"@));
                assert(needs_pair(feature, "llvm.nvvm.mbarrier"@, "try_wait"@));
                assert(needs_pair(feature, "llvm.nvvm.mbarrier"@, "expect_tx"@));
                assert(needs_pair(feature, "llvm.nvvm.mbarrier"@, "complete_tx"@));
                assert(needs_pair(feature, "llvm.nvvm.mbarrier"@, "shared::cluster"@));
                assert(needs_pair(feature, "llvm.nvvm.mbarrier"@, ".acquire."@));
                assert(needs_pair(feature, "llvm.nvvm.mbarrier"@, ".release."@));
                assert(needs_pair(feature, "llvm.nvvm.mbarrier"@, ".relaxed"@));
            }
        },
        Feature::Cluster => {
            if mentions_cluster_fence(text) {
                let (from, to) = choose|from: int, to: int| #[trigger]
                    statement_at(text, from, to) && cluster_fence_statement(text.subrange(from, to));
                lemma_part(text, from, to, "fence.sc.cluster"@);
                lemma_part(text, from, to, "fence.acq_rel.cluster"@);
                lemma_part(text, from, to, "fence.acquire.cluster"@);
                lemma_part(text, from, to, "fence.release.cluster"@);
            }
            if mentions_cluster_scoped_memory(text) {
                let (from, to) = choose|from: int, to: int| #[trigger]
                    statement_at(text, from, to) && cluster_scoped_memory_statement(text.subrange(from, to));
                assert(special(text.subrange(from, to), feature));
            }
        },
        Feature::Sm90 => {
            if mentions_fence_acquire_release(text) {
                let (from, to) = choose|from: int, to: int| #[trigger]
                    statement_at(text, from, to) && fence_acquire_release_statement(text.subrange(from, to));
                lemma_part(text, from, to, "fence.acquire."@);
                lemma_part(text, from, to, "fence.release."@);
            }
            if mentions_multimem(text) {
                let (from, to) = choose|from: int, to: int| #[trigger]
                    statement_at(text, from, to) && multimem_statement(text.subrange(from, to));
                lemma_part(text, from, to, "multimem.ld_reduce"@);
                lemma_part(text, from, to, "multimem.st"@);
                lemma_part(text, from, to, "multimem.red"@);
            }
            lemma_instruction_occurs(text, "add.rn.bf16x2"@);
            lemma_instruction_occurs(text, "sub.rn.bf16x2"@);
            lemma_instruction_occurs(text, "mul.rn.bf16x2"@);
            lemma_instruction_occurs(text, "atom.global.add.noftz.bf16x2"@);
        },
        Feature::Sm80 => {
            if mentions_bf16x2_conversion(text) {
                let (from, to) = choose|from: int, to: int| #[trigger]
                    statement_at(text, from, to) && bf16x2_conversion_statement(text.subrange(from, to));
                assert(needs_pair(feature, "cvt."@, ".bf16x2.f32"@));
            }
            lemma_instruction_occurs(text, "fma.rn.bf16x2"@);
            lemma_instruction_occurs(text, "fma.rn.relu.bf16x2"@);
            lemma_instruction_occurs(text, "min.bf16x2"@);
            lemma_instruction_occurs(text, "max.bf16x2"@);
            lemma_instruction_occurs(text, "neg.bf16x2"@);
            lemma_instruction_occurs(text, "abs.bf16x2"@);
            lemma_instruction_occurs(text, "mma.sync.aligned.m16n8k16.row.col.f32.bf16.bf16.f32"@);
            lemma_instruction_occurs(text, "mma.sync.aligned.m16n8k16.row.col.f32.f16.f16.f32"@);
            lemma_instruction_occurs(text, "mma.sync.aligned.m16n8k8.row.col.f32.tf32.tf32.f32"@);
            lemma_instruction_occurs(text, "mma.sync.aligned.m16n8k32.row.col.s32.s8.s8.s32"@);
            lemma_instruction_occurs(text, "mma.sync.aligned.m16n8k32.row.col.satfinite.s32.s8.s8.s32"@);
            lemma_instruction_occurs(text, "mma.sync.aligned.m8n8k4.row.col.f64.f64.f64.f64"@);
        },
        Feature::Movmatrix => {
            lemma_instruction_occurs(text, "movmatrix.sync.aligned.m8n8.trans.b16"@);
        },
        Feature::Sm100 => {
            if mentions_tma_sm100(text) {
                let (from, to) = choose|from: int, to: int| #[trigger]
                    statement_at(text, from, to) && tma_sm100_statement(text.subrange(from, to));
                assert(needs_pair(feature, "cp.async.bulk."@, ".cp_mask"@));
            }
        },
        _ => {},
    }
}

/// What was found in the text is listed for the PTX ISA.
pub open spec fn isa_evidence(text: Seq<char>, isa: PtxIsaRequirement) -> bool {
    ||| exists|word: Seq<char>| #[trigger] occurs(text, word) && isa_word(isa, word)
    ||| exists|from: int, to: int, one: Seq<char>, other: Seq<char>|
        {
            &&& #[trigger] statement_at(text, from, to)
            &&& #[trigger] isa_pair(isa, one, other)
            &&& occurs(text.subrange(from, to), one)
            &&& occurs(text.subrange(from, to), other)
        }
    ||| exists|from: int, to: int, one: Seq<char>, other: Seq<char>|
        {
            &&& #[trigger] line_at(text, from, to)
            &&& #[trigger] isa_line_pair(isa, one, other)
            &&& occurs(text.subrange(from, to), one)
            &&& occurs(text.subrange(from, to), other)
        }
    ||| exists|word: Seq<char>| #[trigger] occurs(text, word) && isa_mnemonic(isa, word)
    ||| isa == PtxIsaRequirement::Ptx78 && exists|from: int, to: int|
        {
            &&& #[trigger] statement_at(text, from, to)
            &&& special(text.subrange(from, to), Feature::Cluster)
        }
}

/// No PTX ISA is found necessary without something in the text that is listed for
/// it.
#[verifier::rlimit(50)]
pub proof fn isas_need_evidence(text: Seq<char>)
    requires
        required_isa(text) != PtxIsaRequirement::Default,
    ensures
        isa_evidence(text, required_isa(text)),
{
    match required_isa(text) {
        PtxIsaRequirement::Ptx62 => {
            let isa = PtxIsaRequirement::Ptx62;
            lemma_instruction_occurs(text, "atom.global.add.noftz.f16x2"@);
        },
        PtxIsaRequirement::Ptx70 => {
            let isa = PtxIsaRequirement::Ptx70;
            lemma_instruction_occurs(text, "mma.sync.aligned.m16n8k16.row.col.f32.bf16.bf16.f32"@);
            lemma_instruction_occurs(text, "mma.sync.aligned.m16n8k16.row.col.f32.f16.f16.f32"@);
            lemma_instruction_occurs(text, "mma.sync.aligned.m16n8k8.row.col.f32.tf32.tf32.f32"@);
            lemma_instruction_occurs(text, "mma.sync.aligned.m16n8k32.row.col.s32.s8.s8.s32"@);
            lemma_instruction_occurs(text, "mma.sync.aligned.m16n8k32.row.col.satfinite.s32.s8.s8.s32"@);
            lemma_instruction_occurs(text, "mma.sync.aligned.m8n8k4.row.col.f64.f64.f64.f64"@);
        },
        PtxIsaRequirement::Ptx71 => {
            let isa = PtxIsaRequirement::Ptx71;
            if mentions_mbarrier_ptx71(text) {
                let (from, to) = choose|from: int, to: int| #[trigger]
                    statement_at(text, from, to) && mbarrier_ptx71_statement(text.subrange(from, to));
                assert(isa_pair(isa, "mbarrier.test_wait"@, ".parity"@));
            }
        },
        PtxIsaRequirement::Ptx78 => {
            let isa = PtxIsaRequirement::Ptx78;
            if mentions_cluster_fence(text) {
                let (from, to) = choose|from: int, to: int| #[trigger]
                    statement_at(text, from, to) && cluster_fence_statement(text.subrange(from, to));
                lemma_part(text, from, to, "fence.sc.cluster"@);
                lemma_part(text, from, to, "fence.acq_rel.cluster"@);
                lemma_part(text, from, to, "fence.acquire.cluster"@);
                lemma_part(text, from, to, "fence.release.cluster"@);
            }
            if mentions_cluster_scoped_memory(text) {
                let (from, to) = choose|from: int, to: int| #[trigger]
                    statement_at(text, from, to) && cluster_scoped_memory_statement(text.subrange(from, to));
                assert(special(text.subrange(from, to), Feature::Cluster));
            }
            if mentions_ldmatrix_cta_state_space(text) {
                let (from, to) = choose|from: int, to: int| #[trigger]
                    statement_at(text, from, to) && ldmatrix_cta_state_space_statement(text.subrange(from, to));
                assert(isa_pair(isa, "ldmatrix.sync.aligned."@, ".shared::cta."@));
            }
            if mentions_mbarrier_ptx78(text) {
                let (from, to) = choose|from: int, to: int| #[trigger]
                    statement_at(text, from, to) && mbarrier_ptx78_statement(text.subrange(from, to));
                assert(isa_pair(isa, "mbarrier."@, "try_wait"@));
                assert(isa_pair(isa, "mbarrier."@, "shared::cta"@));
            }
            lemma_instruction_occurs(text, "movmatrix.sync.aligned.m8n8.trans.b16"@);
            lemma_instruction_occurs(text, "atom.global.add.noftz.bf16x2"@);
        },
        PtxIsaRequirement::Ptx80 => {
            let isa = PtxIsaRequirement::Ptx80;
            if mentions_cluster_ptx80(text) {
                let (from, to) = choose|from: int, to: int| #[trigger]
                    statement_at(text, from, to) && cluster_ptx80_statement(text.subrange(from, to));
                assert(isa_pair(isa, "barrier.cluster."@, ".release"@));
                assert(isa_pair(isa, "barrier.cluster."@, ".relaxed"@));
                assert(isa_pair(isa, "barrier.cluster."@, ".acquire"@));
            }
            if mentions_mbarrier_ptx80(text) {
                let (from, to) = choose|from: int, to: int| #[trigger]
                    statement_at(text, from, to) && mbarrier_ptx80_statement(text.subrange(from, to));
                assert(isa_pair(isa, "mbarrier."@, "expect_tx"@));
                assert(isa_pair(isa, "mbarrier."@, "complete_tx"@));
                assert(isa_pair(isa, "mbarrier."@, "shared::cluster"@));
                assert(isa_pair(isa, "mbarrier."@, ".acquire."@));
                assert(isa_pair(isa, "mbarrier."@, ".release."@));
            }
        },
        PtxIsaRequirement::Ptx86 => {
            let isa = PtxIsaRequirement::Ptx86;
            if mentions_fence_acquire_release(text) {
                let (from, to) = choose|from: int, to: int| #[trigger]
                    statement_at(text, from, to) && fence_acquire_release_statement(text.subrange(from, to));
                lemma_part(text, from, to, "fence.acquire."@);
                lemma_part(text, from, to, "fence.release."@);
            }
            if mentions_multimem(text) {
                let (from, to) = choose|from: int, to: int| #[trigger]
                    statement_at(text, from, to) && multimem_statement(text.subrange(from, to));
                lemma_part(text, from, to, "multimem.ld_reduce"@);
                lemma_part(text, from, to, "multimem.st"@);
                lemma_part(text, from, to, "multimem.red"@);
            }
            if mentions_blackwell_matrix(text) {
                let (from, to) = choose|from: int, to: int| #[trigger]
                    statement_at(text, from, to) && blackwell_matrix_statement(text.subrange(from, to));
                assert(isa_pair(isa, "ldmatrix.sync.aligned."@, ".m16n16."@));
                assert(isa_pair(isa, "ldmatrix.sync.aligned."@, ".m8n16."@));
                assert(isa_pair(isa, "ldmatrix.sync.aligned."@, ".b8"@));
                assert(isa_pair(isa, "ldmatrix.sync.aligned."@, ".src_fmt"@));
                assert(isa_pair(isa, "ldmatrix.sync.aligned."@, ".dst_fmt"@));
                assert(isa_pair(isa, "stmatrix.sync.aligned."@, ".m16n8."@));
                assert(isa_pair(isa, "stmatrix.sync.aligned."@, ".b8"@));
            }
            if mentions_tma_cta_group_copy(text) {
                let (from, to) = choose|from: int, to: int| #[trigger]
                    statement_at(text, from, to) && tma_cta_group_copy_statement(text.subrange(from, to));
                assert(isa_pair(isa, "cp.async.bulk.tensor"@, ".cta_group::1"@));
                assert(isa_pair(isa, "cp.async.bulk.tensor"@, ".cta_group::2"@));
            }
            if mentions_tma_cta_group_intrinsic(text) {
                let (from, to) = choose|from: int, to: int| #[trigger]
                    line_at(text, from, to) && tma_cta_group_intrinsic_line(text.subrange(from, to));
                assert(isa_line_pair(isa, "g2s.tile"@, ", i32 1)"@));
                assert(isa_line_pair(isa, "g2s.tile"@, ", i32 2)"@));
            }
            if mentions_tma_shared_cta_destination(text) {
                let (from, to) = choose|from: int, to: int| #[trigger]
                    statement_at(text, from, to) && tma_shared_cta_destination_statement(text.subrange(from, to));
                assert(isa_pair(isa, "cp.async.bulk."@, ".shared::cta.global"@));
            }
            if mentions_tma_sm100(text) {
                let (from, to) = choose|from: int, to: int| #[trigger]
                    statement_at(text, from, to) && tma_sm100_statement(text.subrange(from, to));
                assert(isa_pair(isa, "cp.async.bulk."@, ".shared::cta.global"@));
                assert(isa_pair(isa, "cp.async.bulk."@, ".cp_mask"@));
                assert(isa_pair(isa, "cp.async.bulk."@, ".tile::scatter4"@));
                assert(isa_pair(isa, "cp.async.bulk."@, ".tile::gather4"@));
                assert(isa_pair(isa, "cp.async.bulk."@, ".im2col::w"@));
                assert(isa_pair(isa, "cp.async.bulk."@, ".im2col::w::128"@));
            }
            if mentions_tma_blackwell_accelerated(text) {
                let (from, to) = choose|from: int, to: int| #[trigger]
                    statement_at(text, from, to) && tma_blackwell_accelerated_statement(text.subrange(from, to));
                assert(isa_pair(isa, "cp.async.bulk."@, ".shared::cta.global"@));
                assert(isa_pair(isa, "cp.async.bulk."@, ".cp_mask"@));
                assert(isa_pair(isa, "cp.async.bulk."@, ".tile::scatter4"@));
                assert(isa_pair(isa, "cp.async.bulk."@, ".tile::gather4"@));
                assert(isa_pair(isa, "cp.async.bulk."@, ".im2col::w"@));
                assert(isa_pair(isa, "cp.async.bulk."@, ".im2col::w::128"@));
            }
            if mentions_relaxed_mbarrier(text) {
                let (from, to) = choose|from: int, to: int| #[trigger]
                    statement_at(text, from, to) && relaxed_mbarrier_statement(text.subrange(from, to));
                assert(isa_pair(isa, "mbarrier."@, ".relaxed"@));
            }
            if mentions_redux_f32(text) {
                let (from, to) = choose|from: int, to: int| #[trigger]
                    statement_at(text, from, to) && redux_f32_statement(text.subrange(from, to));
                assert(isa_pair(isa, "redux.sync"@, ".f32"@));
            }
        },
        _ => {},
    }
}

} // verus!

//! Two modules in one text: what is detected in the texts of both, one after the
//! other, is what is detected in either.

use vstd::prelude::*;

use crate::target::detect::{
    bf16x2_conversion_statement, blackwell_matrix_statement, calls_for, calls_for_ptx62,
    calls_for_ptx65, calls_for_ptx70, calls_for_ptx71, calls_for_ptx78, calls_for_ptx80,
    calls_for_ptx86, clc_multicast_statement, cluster_fence_statement, cluster_ptx80_statement,
    cluster_scoped_memory_statement, fence_acquire_release_statement, instruction_at,
    instruction_boundary_after, instruction_boundary_before, ldmatrix_cta_state_space_statement,
    match_at, mbarrier_ptx71_statement, mbarrier_ptx78_statement, mbarrier_ptx80_statement,
    mbarrier_sm90_statement, mentions_bf16x2_conversion, mentions_blackwell,
    mentions_blackwell_matrix, mentions_clc, mentions_clc_multicast, mentions_cluster,
    mentions_cluster_fence, mentions_cluster_ptx80, mentions_cluster_scoped_memory,
    mentions_cp_async_bulk, mentions_elect, mentions_fence_acquire_release, mentions_instruction,
    mentions_ldmatrix, mentions_ldmatrix_cta_state_space, mentions_mbarrier,
    mentions_mbarrier_ptx71, mentions_mbarrier_ptx78, mentions_mbarrier_ptx80,
    mentions_mbarrier_sm90, mentions_mma_m16n8k16_f32_bf16, mentions_mma_m16n8k16_f32_f16,
    mentions_mma_m16n8k32_s32_s8, mentions_mma_m16n8k8_f32_tf32, mentions_mma_m8n8k4_f64,
    mentions_movmatrix, mentions_multimem, mentions_multimem_blackwell,
    mentions_packed_bf16_atomic, mentions_packed_f16_atomic, mentions_redux_f32,
    mentions_relaxed_mbarrier, mentions_sm80, mentions_sm90, mentions_stmatrix, mentions_tma,
    mentions_tma_blackwell_accelerated, mentions_tma_cta_group, mentions_tma_cta_group_copy,
    mentions_tma_cta_group_intrinsic, mentions_tma_multicast, mentions_tma_multicast_copy,
    mentions_tma_multicast_intrinsic, mentions_tma_ptx86, mentions_tma_shared_cta_destination,
    mentions_tma_sm100, mentions_wgmma, multimem_blackwell_statement, multimem_statement,
    PtxIsaRequirement, redux_f32_statement, relaxed_mbarrier_statement, required_features,
    required_isa, search_resumes, tma_blackwell_accelerated_statement,
    tma_cta_group_copy_statement, tma_cta_group_intrinsic_line, tma_multicast_copy_statement,
    tma_multicast_intrinsic_line, tma_shared_cta_destination_statement, tma_sm100_statement,
};
use crate::target::features::Feature;
use crate::text::{any_line, any_statement, finishes_with, line_at, occurs, occurs_at, statement_at};

verus! {

/// The second text behind the first, with the statement of the first that may
/// be open closed and on a line of its own.
pub open spec fn appended(first: Seq<char>, second: Seq<char>) -> Seq<char> {
    first + ";\n"@ + second
}

/// Where a PTX ISA stands among the others; what the target chooses by itself
/// stands before all of them.
pub open spec fn isa_order(isa: PtxIsaRequirement) -> int {
    match isa {
        PtxIsaRequirement::Default => 0,
        PtxIsaRequirement::Ptx62 => 62,
        PtxIsaRequirement::Ptx65 => 65,
        PtxIsaRequirement::Ptx70 => 70,
        PtxIsaRequirement::Ptx71 => 71,
        PtxIsaRequirement::Ptx78 => 78,
        PtxIsaRequirement::Ptx80 => 80,
        PtxIsaRequirement::Ptx86 => 86,
    }
}

/// The newer of two PTX ISAs.
pub open spec fn newer_isa(a: PtxIsaRequirement, b: PtxIsaRequirement) -> PtxIsaRequirement {
    if isa_order(a) < isa_order(b) {
        b
    } else {
        a
    }
}

/// A pattern that reaches over the end of no statement and of no line.
spec fn plain(pattern: Seq<char>) -> bool {
    &&& pattern.len() > 0
    &&& forall|k: int| 0 <= k < pattern.len() ==> #[trigger] pattern[k] != ';' && pattern[k] != '\n'
}

/// The statement behind a line break.
spec fn broken(statement: Seq<char>) -> Seq<char> {
    seq!['\n'] + statement
}

/// The line with the end of its statement.
spec fn ended(line: Seq<char>) -> Seq<char> {
    line.push(';')
}

/// The characters of the joint, and what stands on its two sides.
proof fn lemma_appended(a: Seq<char>, b: Seq<char>)
    ensures
        appended(a, b).len() == a.len() + 2 + b.len(),
        forall|k: int| 0 <= k < a.len() ==> #[trigger] appended(a, b)[k] == a[k],
        appended(a, b)[a.len() as int] == ';',
        appended(a, b)[a.len() as int + 1] == '\n',
        forall|k: int|
            a.len() + 2 <= k < appended(a, b).len() ==> #[trigger] appended(a, b)[k] == b[k
                - a.len() - 2],
{
    reveal_strlit(";\n");
}

/// A plain pattern stands in the joined text where it stands in one of the two,
/// and nowhere else.
proof fn lemma_occurs_at(a: Seq<char>, b: Seq<char>, at: int, pattern: Seq<char>)
    requires
        plain(pattern),
    ensures
        at <= a.len() ==> occurs_at(appended(a, b), at, pattern) == occurs_at(a, at, pattern),
        at == a.len() + 1 ==> !occurs_at(appended(a, b), at, pattern),
        at >= a.len() + 2 ==> occurs_at(appended(a, b), at, pattern) == occurs_at(
            b,
            at - a.len() - 2,
            pattern,
        ),
{
    let c = appended(a, b);
    let n = a.len() as int;
    let end = at + pattern.len();
    lemma_appended(a, b);
    if occurs_at(c, at, pattern) {
        let piece = c.subrange(at, end);
        if at <= n < end {
            assert(piece[n - at] == c[n]);
            assert(pattern[n - at] != ';');
        } else if at == n + 1 {
            assert(piece[0] == c[n + 1]);
            assert(pattern[0] != '\n');
        } else if at < n {
            assert(a.subrange(at, end) =~= piece);
        } else {
            assert(b.subrange(at - n - 2, end - n - 2) =~= piece);
        }
    }
    if occurs_at(a, at, pattern) {
        assert(c.subrange(at, end) =~= a.subrange(at, end));
    }
    if occurs_at(b, at - n - 2, pattern) {
        assert(c.subrange(at, end) =~= b.subrange(at - n - 2, end - n - 2));
    }
}

/// A plain pattern stands somewhere in the joined text exactly if it stands
/// somewhere in one of the two.
proof fn lemma_occurs(a: Seq<char>, b: Seq<char>)
    ensures
        forall|pattern: Seq<char>|
            plain(pattern) ==> #[trigger] occurs(appended(a, b), pattern) == (occurs(a, pattern)
                || occurs(b, pattern)),
{
    let c = appended(a, b);
    assert forall|pattern: Seq<char>| plain(pattern) implies #[trigger] occurs(c, pattern) == (
    occurs(a, pattern) || occurs(b, pattern)) by {
        if occurs(c, pattern) {
            let at = choose|at: int| occurs_at(c, at, pattern);
            lemma_occurs_at(a, b, at, pattern);
        }
        if occurs(a, pattern) {
            let at = choose|at: int| occurs_at(a, at, pattern);
            lemma_occurs_at(a, b, at, pattern);
            assert(occurs_at(c, at, pattern));
        }
        if occurs(b, pattern) {
            let at = choose|at: int| occurs_at(b, at, pattern);
            lemma_occurs_at(a, b, at + a.len() + 2, pattern);
            assert(occurs_at(c, at + a.len() + 2, pattern));
        }
    }
}

/// A line break in front of a text adds no plain pattern to it.
proof fn lemma_broken()
    ensures
        forall|s: Seq<char>, pattern: Seq<char>|
            plain(pattern) ==> #[trigger] occurs(broken(s), pattern) == occurs(s, pattern),
{
    assert forall|s: Seq<char>, pattern: Seq<char>| plain(pattern) implies #[trigger] occurs(
        broken(s),
        pattern,
    ) == occurs(s, pattern) by {
        let c = broken(s);
        let len = pattern.len();
        if occurs(c, pattern) {
            let at = choose|at: int| occurs_at(c, at, pattern);
            assert(c.subrange(at, at + len)[0] == c[at]);
            assert(pattern[0] != '\n');
            assert(s.subrange(at - 1, at - 1 + len) =~= c.subrange(at, at + len));
            assert(occurs_at(s, at - 1, pattern));
        }
        if occurs(s, pattern) {
            let at = choose|at: int| occurs_at(s, at, pattern);
            assert(c.subrange(at + 1, at + 1 + len) =~= s.subrange(at, at + len));
            assert(occurs_at(c, at + 1, pattern));
        }
    }
}

/// The end of a statement behind a text adds no plain pattern to it.
proof fn lemma_ended()
    ensures
        forall|s: Seq<char>, pattern: Seq<char>|
            plain(pattern) ==> #[trigger] occurs(ended(s), pattern) == occurs(s, pattern),
{
    assert forall|s: Seq<char>, pattern: Seq<char>| plain(pattern) implies #[trigger] occurs(
        ended(s),
        pattern,
    ) == occurs(s, pattern) by {
        let c = ended(s);
        let len = pattern.len();
        if occurs(c, pattern) {
            let at = choose|at: int| occurs_at(c, at, pattern);
            if at + len == c.len() {
                assert(c.subrange(at, at + len)[len - 1] == ';');
                assert(pattern[len - 1] != ';');
            }
            assert(s.subrange(at, at + len) =~= c.subrange(at, at + len));
            assert(occurs_at(s, at, pattern));
        }
        if occurs(s, pattern) {
            let at = choose|at: int| occurs_at(s, at, pattern);
            assert(c.subrange(at, at + len) =~= s.subrange(at, at + len));
            assert(occurs_at(c, at, pattern));
        }
    }
}

/// No plain pattern stands in the empty text.
proof fn lemma_empty()
    ensures
        forall|pattern: Seq<char>|
            plain(pattern) ==> !#[trigger] occurs(Seq::<char>::empty(), pattern),
{
}

/// Some statement of the joined text satisfies `pred` exactly if one of either
/// text does, where `pred` does not depend on a line break in front.
proof fn lemma_statements(a: Seq<char>, b: Seq<char>, pred: spec_fn(Seq<char>) -> bool)
    requires
        forall|s: Seq<char>| pred(#[trigger] broken(s)) == pred(s),
    ensures
        any_statement(appended(a, b), pred) == (any_statement(a, pred) || any_statement(b, pred)),
{
    let c = appended(a, b);
    let n = a.len() as int;
    lemma_appended(a, b);
    if any_statement(c, pred) {
        let (from, to) = choose|from: int, to: int| #[trigger]
            statement_at(c, from, to) && pred(c.subrange(from, to));
        if to <= n {
            assert(statement_at(a, from, to)) by {
                assert forall|k: int| from <= k < to implies a[k] != ';' by {
                    assert(c[k] != ';');
                }
            }
            assert(a.subrange(from, to) =~= c.subrange(from, to));
        } else {
            assert(from > n);
            if from == n + 1 {
                let s = b.subrange(0, to - n - 2);
                assert(statement_at(b, 0, to - n - 2)) by {
                    assert forall|k: int| 0 <= k < to - n - 2 implies b[k] != ';' by {
                        assert(c[k + n + 2] != ';');
                    }
                }
                assert(c.subrange(from, to) =~= broken(s));
            } else {
                assert(statement_at(b, from - n - 2, to - n - 2)) by {
                    assert forall|k: int| from - n - 2 <= k < to - n - 2 implies b[k] != ';' by {
                        assert(c[k + n + 2] != ';');
                    }
                }
                assert(b.subrange(from - n - 2, to - n - 2) =~= c.subrange(from, to));
            }
        }
    }
    if any_statement(a, pred) {
        let (from, to) = choose|from: int, to: int| #[trigger]
            statement_at(a, from, to) && pred(a.subrange(from, to));
        assert(statement_at(c, from, to)) by {
            assert forall|k: int| from <= k < to implies c[k] != ';' by {
                assert(a[k] != ';');
            }
        }
        assert(c.subrange(from, to) =~= a.subrange(from, to));
    }
    if any_statement(b, pred) {
        let (from, to) = choose|from: int, to: int| #[trigger]
            statement_at(b, from, to) && pred(b.subrange(from, to));
        let s = b.subrange(from, to);
        let begin = if from == 0 {
            n + 1
        } else {
            from + n + 2
        };
        let end = to + n + 2;
        assert(statement_at(c, begin, end)) by {
            assert forall|k: int| begin <= k < end implies c[k] != ';' by {
                if k >= n + 2 {
                    assert(b[k - n - 2] != ';');
                }
            }
        }
        if from == 0 {
            assert(c.subrange(begin, end) =~= broken(s));
        } else {
            assert(c.subrange(begin, end) =~= s);
        }
    }
}

/// Some line of the joined text satisfies `pred` exactly if one of either text
/// does, where `pred` does not depend on a `;` behind and the empty line does
/// not satisfy it.
proof fn lemma_lines(a: Seq<char>, b: Seq<char>, pred: spec_fn(Seq<char>) -> bool)
    requires
        forall|s: Seq<char>| pred(#[trigger] ended(s)) == pred(s),
        !pred(Seq::<char>::empty()),
    ensures
        any_line(appended(a, b), pred) == (any_line(a, pred) || any_line(b, pred)),
{
    let c = appended(a, b);
    let n = a.len() as int;
    lemma_appended(a, b);
    if any_line(c, pred) {
        let (from, to) = choose|from: int, to: int| #[trigger]
            line_at(c, from, to) && pred(c.subrange(from, to));
        if from <= n {
            assert(to <= n + 1) by {
                if to > n + 1 {
                    assert(c[n + 1] != '\n');
                }
            }
            if to == n + 1 {
                let s = a.subrange(from, n);
                assert(c.subrange(from, to) =~= ended(s));
                if from == n {
                    assert(s =~= Seq::<char>::empty());
                } else {
                    assert(line_at(a, from, n)) by {
                        assert forall|k: int| from <= k < n implies a[k] != '\n' by {
                            assert(c[k] != '\n');
                        }
                    }
                }
            } else {
                assert(to < n);
                assert(line_at(a, from, to)) by {
                    assert forall|k: int| from <= k < to implies a[k] != '\n' by {
                        assert(c[k] != '\n');
                    }
                }
                assert(a.subrange(from, to) =~= c.subrange(from, to));
            }
        } else {
            assert(from >= n + 2);
            assert(line_at(b, from - n - 2, to - n - 2)) by {
                assert forall|k: int| from - n - 2 <= k < to - n - 2 implies b[k] != '\n' by {
                    assert(c[k + n + 2] != '\n');
                }
            }
            assert(b.subrange(from - n - 2, to - n - 2) =~= c.subrange(from, to));
        }
    }
    if any_line(a, pred) {
        let (from, to) = choose|from: int, to: int| #[trigger]
            line_at(a, from, to) && pred(a.subrange(from, to));
        let s = a.subrange(from, to);
        let end = if to == n {
            n + 1
        } else {
            to
        };
        assert(line_at(c, from, end)) by {
            assert forall|k: int| from <= k < end implies c[k] != '\n' by {
                if k < n {
                    assert(a[k] != '\n');
                }
            }
        }
        if to == n {
            assert(c.subrange(from, end) =~= ended(s));
        } else {
            assert(c.subrange(from, end) =~= s);
        }
    }
    if any_line(b, pred) {
        let (from, to) = choose|from: int, to: int| #[trigger]
            line_at(b, from, to) && pred(b.subrange(from, to));
        assert(line_at(c, from + n + 2, to + n + 2)) by {
            assert forall|k: int| from + n + 2 <= k < to + n + 2 implies c[k] != '\n' by {
                assert(b[k - n - 2] != '\n');
            }
        }
        assert(c.subrange(from + n + 2, to + n + 2) =~= b.subrange(from, to));
    }
}

/// The search through the first part of the joined text goes as through the
/// first text.
proof fn lemma_search_first(a: Seq<char>, b: Seq<char>, at: nat, pattern: Seq<char>)
    requires
        plain(pattern),
        at <= a.len() + 1,
    ensures
        search_resumes(appended(a, b), at, pattern) == search_resumes(a, at, pattern),
        search_resumes(a, at, pattern) <= a.len(),
        at <= a.len() ==> match_at(appended(a, b), at as int, pattern) == match_at(
            a,
            at as int,
            pattern,
        ),
    decreases at,
{
    reveal_with_fuel(search_resumes, 2);
    reveal_with_fuel(match_at, 2);
    lemma_occurs_at(a, b, at as int, pattern);
    if at > 0 {
        lemma_search_first(a, b, (at - 1) as nat, pattern);
    }
}

/// The search through the second part of the joined text goes as through the
/// second text.
proof fn lemma_search_second(a: Seq<char>, b: Seq<char>, at: nat, pattern: Seq<char>)
    requires
        plain(pattern),
    ensures
        ({
            let offset = a.len() + 2;
            let resumed = search_resumes(b, at, pattern);
            let there = search_resumes(appended(a, b), offset + at, pattern);
            &&& resumed == 0 ==> there <= offset
            &&& resumed > 0 ==> there == offset + resumed
            &&& match_at(appended(a, b), (offset + at) as int, pattern) == match_at(
                b,
                at as int,
                pattern,
            )
        }),
    decreases at,
{
    let offset = a.len() + 2;
    reveal_with_fuel(search_resumes, 2);
    reveal_with_fuel(match_at, 2);
    lemma_occurs_at(a, b, (offset + at) as int, pattern);
    if at > 0 {
        lemma_search_second(a, b, (at - 1) as nat, pattern);
        assert(offset + at - 1 == offset + (at - 1) as nat);
    } else {
        lemma_occurs_at(a, b, a.len() as int + 1, pattern);
        lemma_search_first(a, b, a.len() + 1, pattern);
        assert(offset - 1 == a.len() + 1);
    }
}

/// The escapes and the end of a comment are plain.
proof fn lemma_boundaries_are_plain()
    ensures
        plain("\\09"@),
        plain("\\0A"@),
        plain("\\0B"@),
        plain("\\0C"@),
        plain("\\0D"@),
        plain("*/"@),
{
    reveal_strlit("\\09");
    reveal_strlit("\\0A");
    reveal_strlit("\\0B");
    reveal_strlit("\\0C");
    reveal_strlit("\\0D");
    reveal_strlit("*/");
}

/// What can follow a mnemonic of the first text does not depend on the second.
proof fn lemma_boundary_before(a: Seq<char>, b: Seq<char>, end: int)
    requires
        0 <= end <= a.len(),
    ensures
        instruction_boundary_before(appended(a, b).skip(end)) == instruction_boundary_before(
            a.skip(end),
        ),
{
    let rest = a.skip(end);
    lemma_appended(a, b);
    lemma_appended(rest, b);
    assert(appended(a, b).skip(end) =~= appended(rest, b));
    lemma_boundaries_are_plain();
    lemma_occurs_at(rest, b, 0, "\\09"@);
    lemma_occurs_at(rest, b, 0, "\\0A"@);
    lemma_occurs_at(rest, b, 0, "\\0B"@);
    lemma_occurs_at(rest, b, 0, "\\0C"@);
    lemma_occurs_at(rest, b, 0, "\\0D"@);
}

/// The joined text ends with a plain pattern exactly if the second text does.
proof fn lemma_finishes(a: Seq<char>, b: Seq<char>, pattern: Seq<char>)
    requires
        plain(pattern),
    ensures
        finishes_with(appended(a, b), pattern) == finishes_with(b, pattern),
{
    let at = appended(a, b).len() - pattern.len();
    lemma_appended(a, b);
    lemma_occurs_at(a, b, at, pattern);
}

/// What can stand in front of a mnemonic of the second text does not depend on
/// the first.
proof fn lemma_boundary_after(a: Seq<char>, b: Seq<char>, at: int)
    requires
        0 <= at <= b.len(),
    ensures
        instruction_boundary_after(appended(a, b).take(a.len() + 2 + at))
            == instruction_boundary_after(b.take(at)),
{
    let front = b.take(at);
    lemma_appended(a, b);
    lemma_appended(a, front);
    assert(appended(a, b).take(a.len() + 2 + at) =~= appended(a, front));
    lemma_boundaries_are_plain();
    lemma_finishes(a, front, "\\09"@);
    lemma_finishes(a, front, "\\0A"@);
    lemma_finishes(a, front, "\\0B"@);
    lemma_finishes(a, front, "\\0C"@);
    lemma_finishes(a, front, "\\0D"@);
    lemma_finishes(a, front, "*/"@);
    if at > 0 {
        assert(appended(a, front).last() == front.last());
    } else {
        assert(appended(a, front).last() == '\n');
    }
}

/// The joined text holds an instruction exactly if one of the two does.
proof fn lemma_instructions(a: Seq<char>, b: Seq<char>)
    ensures
        forall|mnemonic: Seq<char>|
            plain(mnemonic) ==> #[trigger] mentions_instruction(appended(a, b), mnemonic) == (
            mentions_instruction(a, mnemonic) || mentions_instruction(b, mnemonic)),
{
    let c = appended(a, b);
    let offset = a.len() + 2;
    lemma_appended(a, b);
    assert forall|m: Seq<char>| plain(m) implies #[trigger] mentions_instruction(c, m) == (
    mentions_instruction(a, m) || mentions_instruction(b, m)) by {
        if mentions_instruction(c, m) {
            let at = choose|at: int| #[trigger] instruction_at(c, at, m);
            lemma_occurs_at(a, b, at, m);
            if at <= a.len() {
                lemma_instruction_first(a, b, at, m);
                assert(instruction_at(a, at, m));
            } else {
                lemma_instruction_second(a, b, at - offset, m);
                assert(instruction_at(b, at - offset, m));
            }
        }
        if mentions_instruction(a, m) {
            let at = choose|at: int| #[trigger] instruction_at(a, at, m);
            lemma_instruction_first(a, b, at, m);
            assert(instruction_at(c, at, m));
        }
        if mentions_instruction(b, m) {
            let at = choose|at: int| #[trigger] instruction_at(b, at, m);
            lemma_instruction_second(a, b, at, m);
            assert(instruction_at(c, at + offset, m));
        }
    }
}

proof fn lemma_instruction_first(a: Seq<char>, b: Seq<char>, at: int, mnemonic: Seq<char>)
    requires
        plain(mnemonic),
        0 <= at <= a.len(),
    ensures
        instruction_at(appended(a, b), at, mnemonic) == instruction_at(a, at, mnemonic),
{
    lemma_appended(a, b);
    lemma_search_first(a, b, at as nat, mnemonic);
    reveal_with_fuel(match_at, 2);
    if match_at(a, at, mnemonic) {
        lemma_boundary_before(a, b, at + mnemonic.len());
        assert(appended(a, b).take(at) =~= a.take(at));
    }
}

proof fn lemma_instruction_second(a: Seq<char>, b: Seq<char>, at: int, mnemonic: Seq<char>)
    requires
        plain(mnemonic),
        at >= 0,
    ensures
        instruction_at(appended(a, b), a.len() + 2 + at, mnemonic) == instruction_at(
            b,
            at,
            mnemonic,
        ),
{
    let c = appended(a, b);
    let offset = a.len() + 2;
    lemma_appended(a, b);
    lemma_search_second(a, b, at as nat, mnemonic);
    reveal_with_fuel(match_at, 2);
    if match_at(b, at, mnemonic) {
        let end = at + mnemonic.len();
        lemma_boundary_after(a, b, at);
        assert(c.skip(offset + end) =~= b.skip(end));
        assert(offset + at + mnemonic.len() == offset + end);
    }
}

// What is looked for, one by one: each thing is mentioned in the joined text
// exactly if it is mentioned in one of the two.

proof fn lemma_wgmma(a: Seq<char>, b: Seq<char>)
    ensures
        mentions_wgmma(appended(a, b)) == (mentions_wgmma(a) || mentions_wgmma(b)),
{
    reveal_strlit("wgmma.fence");
    reveal_strlit("wgmma.commit_group");
    reveal_strlit("wgmma.wait_group");
    reveal_strlit("wgmma.mma_async");
    lemma_occurs(a, b);
}

proof fn lemma_cluster_fence(a: Seq<char>, b: Seq<char>)
    ensures
        mentions_cluster_fence(appended(a, b)) == (mentions_cluster_fence(a)
            || mentions_cluster_fence(b)),
{
    reveal_strlit("fence.sc.cluster");
    reveal_strlit("fence.acq_rel.cluster");
    reveal_strlit("fence.acquire.cluster");
    reveal_strlit("fence.release.cluster");
    lemma_broken();
    lemma_statements(a, b, |s: Seq<char>| cluster_fence_statement(s));
}

proof fn lemma_cluster_scoped_memory(a: Seq<char>, b: Seq<char>)
    ensures
        mentions_cluster_scoped_memory(appended(a, b)) == (mentions_cluster_scoped_memory(a)
            || mentions_cluster_scoped_memory(b)),
{
    reveal_strlit("multimem.");
    reveal_strlit(".cluster.");
    reveal_strlit("ld.");
    reveal_strlit("st.");
    reveal_strlit("atom.");
    reveal_strlit("red.");
    lemma_broken();
    lemma_statements(a, b, |s: Seq<char>| cluster_scoped_memory_statement(s));
}

#[verifier::rlimit(40)]
proof fn lemma_cluster(a: Seq<char>, b: Seq<char>)
    ensures
        mentions_cluster(appended(a, b)) == (mentions_cluster(a) || mentions_cluster(b)),
{
    reveal_strlit("cluster_ctaid");
    reveal_strlit("cluster_nctaid");
    reveal_strlit("cluster_ctarank");
    reveal_strlit("cluster_nctarank");
    reveal_strlit("%clusterid");
    reveal_strlit("%nclusterid");
    reveal_strlit("%is_explicit_cluster");
    reveal_strlit("!\"cluster_dim_x\"");
    reveal_strlit("!\"cluster_dim_y\"");
    reveal_strlit("!\"cluster_dim_z\"");
    reveal_strlit("cluster.sync");
    reveal_strlit("barrier.cluster.");
    reveal_strlit("mapa.shared::cluster");
    reveal_strlit(".shared::cluster");
    lemma_occurs(a, b);
    lemma_cluster_fence(a, b);
    lemma_cluster_scoped_memory(a, b);
}

proof fn lemma_fence_acquire_release(a: Seq<char>, b: Seq<char>)
    ensures
        mentions_fence_acquire_release(appended(a, b)) == (mentions_fence_acquire_release(a)
            || mentions_fence_acquire_release(b)),
{
    reveal_strlit("fence.acquire.");
    reveal_strlit("fence.release.");
    lemma_broken();
    lemma_statements(a, b, |s: Seq<char>| fence_acquire_release_statement(s));
}

proof fn lemma_multimem(a: Seq<char>, b: Seq<char>)
    ensures
        mentions_multimem(appended(a, b)) == (mentions_multimem(a) || mentions_multimem(b)),
{
    reveal_strlit("multimem.ld_reduce");
    reveal_strlit("multimem.st");
    reveal_strlit("multimem.red");
    lemma_broken();
    lemma_statements(a, b, |s: Seq<char>| multimem_statement(s));
}

proof fn lemma_multimem_blackwell(a: Seq<char>, b: Seq<char>)
    ensures
        mentions_multimem_blackwell(appended(a, b)) == (mentions_multimem_blackwell(a)
            || mentions_multimem_blackwell(b)),
{
    reveal_strlit(".e4m3");
    reveal_strlit(".e5m2");
    reveal_strlit(".acc::f16");
    reveal_strlit("multimem.ld_reduce");
    reveal_strlit("multimem.st");
    reveal_strlit("multimem.red");
    lemma_broken();
    lemma_statements(a, b, |s: Seq<char>| multimem_blackwell_statement(s));
}

proof fn lemma_redux_f32(a: Seq<char>, b: Seq<char>)
    ensures
        mentions_redux_f32(appended(a, b)) == (mentions_redux_f32(a) || mentions_redux_f32(b)),
{
    reveal_strlit("redux.sync");
    reveal_strlit(".f32");
    lemma_broken();
    lemma_statements(a, b, |s: Seq<char>| redux_f32_statement(s));
}

proof fn lemma_packed_bf16_atomic(a: Seq<char>, b: Seq<char>)
    ensures
        mentions_packed_bf16_atomic(appended(a, b)) == (mentions_packed_bf16_atomic(a)
            || mentions_packed_bf16_atomic(b)),
{
    reveal_strlit("atom.global.add.noftz.bf16x2");
    lemma_instructions(a, b);
}

proof fn lemma_packed_f16_atomic(a: Seq<char>, b: Seq<char>)
    ensures
        mentions_packed_f16_atomic(appended(a, b)) == (mentions_packed_f16_atomic(a)
            || mentions_packed_f16_atomic(b)),
{
    reveal_strlit("atom.global.add.noftz.f16x2");
    lemma_instructions(a, b);
}

proof fn lemma_elect(a: Seq<char>, b: Seq<char>)
    ensures
        mentions_elect(appended(a, b)) == (mentions_elect(a) || mentions_elect(b)),
{
    reveal_strlit("elect.sync");
    lemma_occurs(a, b);
}

proof fn lemma_stmatrix(a: Seq<char>, b: Seq<char>)
    ensures
        mentions_stmatrix(appended(a, b)) == (mentions_stmatrix(a) || mentions_stmatrix(b)),
{
    reveal_strlit("stmatrix.sync.aligned.");
    lemma_occurs(a, b);
}

#[verifier::rlimit(40)]
proof fn lemma_sm90(a: Seq<char>, b: Seq<char>)
    ensures
        mentions_sm90(appended(a, b)) == (mentions_sm90(a) || mentions_sm90(b)),
{
    reveal_strlit("add.rn.bf16x2");
    reveal_strlit("sub.rn.bf16x2");
    reveal_strlit("mul.rn.bf16x2");
    lemma_instructions(a, b);
    lemma_packed_bf16_atomic(a, b);
    lemma_stmatrix(a, b);
    lemma_elect(a, b);
    lemma_fence_acquire_release(a, b);
    lemma_multimem(a, b);
}

proof fn lemma_movmatrix(a: Seq<char>, b: Seq<char>)
    ensures
        mentions_movmatrix(appended(a, b)) == (mentions_movmatrix(a) || mentions_movmatrix(b)),
{
    reveal_strlit("movmatrix.sync.aligned.m8n8.trans.b16");
    lemma_instructions(a, b);
}

proof fn lemma_mma_m16n8k16_f32_bf16(a: Seq<char>, b: Seq<char>)
    ensures
        mentions_mma_m16n8k16_f32_bf16(appended(a, b)) == (mentions_mma_m16n8k16_f32_bf16(a)
            || mentions_mma_m16n8k16_f32_bf16(b)),
{
    reveal_strlit("mma.sync.aligned.m16n8k16.row.col.f32.bf16.bf16.f32");
    lemma_instructions(a, b);
}

proof fn lemma_mma_m16n8k8_f32_tf32(a: Seq<char>, b: Seq<char>)
    ensures
        mentions_mma_m16n8k8_f32_tf32(appended(a, b)) == (mentions_mma_m16n8k8_f32_tf32(a)
            || mentions_mma_m16n8k8_f32_tf32(b)),
{
    reveal_strlit("mma.sync.aligned.m16n8k8.row.col.f32.tf32.tf32.f32");
    lemma_instructions(a, b);
}

proof fn lemma_mma_m16n8k32_s32_s8(a: Seq<char>, b: Seq<char>)
    ensures
        mentions_mma_m16n8k32_s32_s8(appended(a, b)) == (mentions_mma_m16n8k32_s32_s8(a)
            || mentions_mma_m16n8k32_s32_s8(b)),
{
    reveal_strlit("mma.sync.aligned.m16n8k32.row.col.s32.s8.s8.s32");
    reveal_strlit("mma.sync.aligned.m16n8k32.row.col.satfinite.s32.s8.s8.s32");
    lemma_instructions(a, b);
}

proof fn lemma_mma_m8n8k4_f64(a: Seq<char>, b: Seq<char>)
    ensures
        mentions_mma_m8n8k4_f64(appended(a, b)) == (mentions_mma_m8n8k4_f64(a)
            || mentions_mma_m8n8k4_f64(b)),
{
    reveal_strlit("mma.sync.aligned.m8n8k4.row.col.f64.f64.f64.f64");
    lemma_instructions(a, b);
}

proof fn lemma_mma_m16n8k16_f32_f16(a: Seq<char>, b: Seq<char>)
    ensures
        mentions_mma_m16n8k16_f32_f16(appended(a, b)) == (mentions_mma_m16n8k16_f32_f16(a)
            || mentions_mma_m16n8k16_f32_f16(b)),
{
    reveal_strlit("mma.sync.aligned.m16n8k16.row.col.f32.f16.f16.f32");
    lemma_instructions(a, b);
}

proof fn lemma_ldmatrix(a: Seq<char>, b: Seq<char>)
    ensures
        mentions_ldmatrix(appended(a, b)) == (mentions_ldmatrix(a) || mentions_ldmatrix(b)),
{
    reveal_strlit("ldmatrix.sync.aligned.");
    lemma_occurs(a, b);
}

#[verifier::rlimit(40)]
proof fn lemma_blackwell_matrix(a: Seq<char>, b: Seq<char>)
    ensures
        mentions_blackwell_matrix(appended(a, b)) == (mentions_blackwell_matrix(a)
            || mentions_blackwell_matrix(b)),
{
    reveal_strlit("ldmatrix.sync.aligned.");
    reveal_strlit(".m16n16.");
    reveal_strlit(".m8n16.");
    reveal_strlit(".b8");
    reveal_strlit(".src_fmt");
    reveal_strlit(".dst_fmt");
    reveal_strlit("stmatrix.sync.aligned.");
    reveal_strlit(".m16n8.");
    lemma_broken();
    lemma_statements(a, b, |s: Seq<char>| blackwell_matrix_statement(s));
}

proof fn lemma_ldmatrix_cta_state_space(a: Seq<char>, b: Seq<char>)
    ensures
        mentions_ldmatrix_cta_state_space(appended(a, b)) == (mentions_ldmatrix_cta_state_space(a)
            || mentions_ldmatrix_cta_state_space(b)),
{
    reveal_strlit("ldmatrix.sync.aligned.");
    reveal_strlit(".shared::cta.");
    lemma_broken();
    lemma_statements(a, b, |s: Seq<char>| ldmatrix_cta_state_space_statement(s));
}

proof fn lemma_bf16x2_conversion(a: Seq<char>, b: Seq<char>)
    ensures
        mentions_bf16x2_conversion(appended(a, b)) == (mentions_bf16x2_conversion(a)
            || mentions_bf16x2_conversion(b)),
{
    reveal_strlit("cvt.");
    reveal_strlit(".bf16x2.f32");
    lemma_broken();
    lemma_statements(a, b, |s: Seq<char>| bf16x2_conversion_statement(s));
}

proof fn lemma_mbarrier(a: Seq<char>, b: Seq<char>)
    ensures
        mentions_mbarrier(appended(a, b)) == (mentions_mbarrier(a) || mentions_mbarrier(b)),
{
    reveal_strlit("mbarrier.");
    reveal_strlit("llvm.nvvm.mbarrier");
    lemma_occurs(a, b);
}

#[verifier::rlimit(40)]
proof fn lemma_sm80(a: Seq<char>, b: Seq<char>)
    ensures
        mentions_sm80(appended(a, b)) == (mentions_sm80(a) || mentions_sm80(b)),
{
    reveal_strlit("fma.rn.bf16x2");
    reveal_strlit("fma.rn.relu.bf16x2");
    reveal_strlit("min.bf16x2");
    reveal_strlit("max.bf16x2");
    reveal_strlit("neg.bf16x2");
    reveal_strlit("abs.bf16x2");
    reveal_strlit("redux.sync");
    reveal_strlit("cp.async.ca.shared");
    reveal_strlit("cp.async.cg.shared");
    reveal_strlit("cp.async.commit_group");
    reveal_strlit("cp.async.commit.group");
    reveal_strlit("cp.async.wait_group");
    reveal_strlit("cp.async.wait.group");
    reveal_strlit("cp.async.wait_all");
    reveal_strlit("cp.async.wait.all");
    lemma_occurs(a, b);
    lemma_instructions(a, b);
    lemma_mma_m8n8k4_f64(a, b);
    lemma_bf16x2_conversion(a, b);
    lemma_mbarrier(a, b);
    lemma_mma_m16n8k16_f32_bf16(a, b);
    lemma_mma_m16n8k16_f32_f16(a, b);
    lemma_mma_m16n8k8_f32_tf32(a, b);
    lemma_mma_m16n8k32_s32_s8(a, b);
}

proof fn lemma_cp_async_bulk(a: Seq<char>, b: Seq<char>)
    ensures
        mentions_cp_async_bulk(appended(a, b)) == (mentions_cp_async_bulk(a)
            || mentions_cp_async_bulk(b)),
{
    reveal_strlit("cp.async.bulk.");
    lemma_occurs(a, b);
}

#[verifier::rlimit(40)]
proof fn lemma_mbarrier_sm90(a: Seq<char>, b: Seq<char>)
    ensures
        mentions_mbarrier_sm90(appended(a, b)) == (mentions_mbarrier_sm90(a)
            || mentions_mbarrier_sm90(b)),
{
    reveal_strlit("mbarrier.");
    reveal_strlit("llvm.nvvm.mbarrier");
    reveal_strlit("try_wait");
    reveal_strlit("expect_tx");
    reveal_strlit("complete_tx");
    reveal_strlit("shared::cluster");
    reveal_strlit(".acquire.");
    reveal_strlit(".release.");
    reveal_strlit(".relaxed");
    lemma_broken();
    lemma_statements(a, b, |s: Seq<char>| mbarrier_sm90_statement(s));
}

proof fn lemma_tma(a: Seq<char>, b: Seq<char>)
    ensures
        mentions_tma(appended(a, b)) == (mentions_tma(a) || mentions_tma(b)),
{
    reveal_strlit("fence.mbarrier_init");
    reveal_strlit("fence.proxy.async");
    reveal_strlit(".sync_restrict");
    lemma_occurs(a, b);
    lemma_cp_async_bulk(a, b);
    lemma_mbarrier_sm90(a, b);
}

proof fn lemma_mbarrier_ptx71(a: Seq<char>, b: Seq<char>)
    ensures
        mentions_mbarrier_ptx71(appended(a, b)) == (mentions_mbarrier_ptx71(a)
            || mentions_mbarrier_ptx71(b)),
{
    reveal_strlit("mbarrier.test_wait");
    reveal_strlit(".parity");
    lemma_broken();
    lemma_statements(a, b, |s: Seq<char>| mbarrier_ptx71_statement(s));
}

proof fn lemma_mbarrier_ptx78(a: Seq<char>, b: Seq<char>)
    ensures
        mentions_mbarrier_ptx78(appended(a, b)) == (mentions_mbarrier_ptx78(a)
            || mentions_mbarrier_ptx78(b)),
{
    reveal_strlit("mbarrier.");
    reveal_strlit("try_wait");
    reveal_strlit("shared::cta");
    lemma_broken();
    lemma_statements(a, b, |s: Seq<char>| mbarrier_ptx78_statement(s));
}

proof fn lemma_mbarrier_ptx80(a: Seq<char>, b: Seq<char>)
    ensures
        mentions_mbarrier_ptx80(appended(a, b)) == (mentions_mbarrier_ptx80(a)
            || mentions_mbarrier_ptx80(b)),
{
    reveal_strlit("mbarrier.");
    reveal_strlit("expect_tx");
    reveal_strlit("complete_tx");
    reveal_strlit("shared::cluster");
    reveal_strlit(".acquire.");
    reveal_strlit(".release.");
    lemma_broken();
    lemma_statements(a, b, |s: Seq<char>| mbarrier_ptx80_statement(s));
}

#[verifier::rlimit(40)]
proof fn lemma_blackwell(a: Seq<char>, b: Seq<char>)
    ensures
        mentions_blackwell(appended(a, b)) == (mentions_blackwell(a) || mentions_blackwell(b)),
{
    reveal_strlit("tcgen05.alloc");
    reveal_strlit("tcgen05.dealloc");
    reveal_strlit("tcgen05.relinquish_alloc_permit");
    reveal_strlit("tcgen05.fence");
    reveal_strlit("tcgen05.commit");
    reveal_strlit("tcgen05.mma");
    reveal_strlit("tcgen05.cp");
    reveal_strlit("tcgen05.shift");
    reveal_strlit("tcgen05.ld");
    reveal_strlit("tcgen05.st");
    reveal_strlit("tcgen05.wait");
    lemma_occurs(a, b);
}

proof fn lemma_tma_multicast_intrinsic(a: Seq<char>, b: Seq<char>)
    ensures
        mentions_tma_multicast_intrinsic(appended(a, b)) == (mentions_tma_multicast_intrinsic(a)
            || mentions_tma_multicast_intrinsic(b)),
{
    reveal_strlit("g2s.tile");
    reveal_strlit(", i1 1, i1");
    reveal_strlit(", i1 true, i1");
    lemma_ended();
    lemma_empty();
    lemma_lines(a, b, |s: Seq<char>| tma_multicast_intrinsic_line(s));
}

proof fn lemma_tma_multicast_copy(a: Seq<char>, b: Seq<char>)
    ensures
        mentions_tma_multicast_copy(appended(a, b)) == (mentions_tma_multicast_copy(a)
            || mentions_tma_multicast_copy(b)),
{
    reveal_strlit("cp.async.bulk.tensor");
    reveal_strlit(".multicast::cluster");
    lemma_broken();
    lemma_statements(a, b, |s: Seq<char>| tma_multicast_copy_statement(s));
}

proof fn lemma_tma_multicast(a: Seq<char>, b: Seq<char>)
    ensures
        mentions_tma_multicast(appended(a, b)) == (mentions_tma_multicast(a)
            || mentions_tma_multicast(b)),
{
    lemma_tma_multicast_intrinsic(a, b);
    lemma_tma_multicast_copy(a, b);
}

proof fn lemma_tma_cta_group_copy(a: Seq<char>, b: Seq<char>)
    ensures
        mentions_tma_cta_group_copy(appended(a, b)) == (mentions_tma_cta_group_copy(a)
            || mentions_tma_cta_group_copy(b)),
{
    reveal_strlit("cp.async.bulk.tensor");
    reveal_strlit(".cta_group::1");
    reveal_strlit(".cta_group::2");
    lemma_broken();
    lemma_statements(a, b, |s: Seq<char>| tma_cta_group_copy_statement(s));
}

proof fn lemma_tma_cta_group_intrinsic(a: Seq<char>, b: Seq<char>)
    ensures
        mentions_tma_cta_group_intrinsic(appended(a, b)) == (mentions_tma_cta_group_intrinsic(a)
            || mentions_tma_cta_group_intrinsic(b)),
{
    reveal_strlit("g2s.tile");
    reveal_strlit(", i32 1)");
    reveal_strlit(", i32 2)");
    lemma_ended();
    lemma_empty();
    lemma_lines(a, b, |s: Seq<char>| tma_cta_group_intrinsic_line(s));
}

proof fn lemma_tma_cta_group(a: Seq<char>, b: Seq<char>)
    ensures
        mentions_tma_cta_group(appended(a, b)) == (mentions_tma_cta_group(a)
            || mentions_tma_cta_group(b)),
{
    lemma_tma_cta_group_copy(a, b);
    lemma_tma_cta_group_intrinsic(a, b);
}

proof fn lemma_tma_shared_cta_destination(a: Seq<char>, b: Seq<char>)
    ensures
        mentions_tma_shared_cta_destination(appended(a, b)) == (mentions_tma_shared_cta_destination(a)
            || mentions_tma_shared_cta_destination(b)),
{
    reveal_strlit("cp.async.bulk.");
    reveal_strlit(".shared::cta.global");
    lemma_broken();
    lemma_statements(a, b, |s: Seq<char>| tma_shared_cta_destination_statement(s));
}

proof fn lemma_tma_sm100(a: Seq<char>, b: Seq<char>)
    ensures
        mentions_tma_sm100(appended(a, b)) == (mentions_tma_sm100(a) || mentions_tma_sm100(b)),
{
    reveal_strlit("cp.async.bulk.");
    reveal_strlit(".cp_mask");
    reveal_strlit(".shared::cta.global");
    reveal_strlit(".tile::gather4");
    reveal_strlit(".im2col::w");
    reveal_strlit(".im2col::w::128");
    lemma_broken();
    lemma_statements(a, b, |s: Seq<char>| tma_sm100_statement(s));
}

proof fn lemma_tma_blackwell_accelerated(a: Seq<char>, b: Seq<char>)
    ensures
        mentions_tma_blackwell_accelerated(appended(a, b)) == (mentions_tma_blackwell_accelerated(a)
            || mentions_tma_blackwell_accelerated(b)),
{
    reveal_strlit("cp.async.bulk.");
    reveal_strlit(".tile::scatter4");
    reveal_strlit(".im2col::w::128");
    reveal_strlit(".shared::cta.global");
    reveal_strlit(".tile::gather4");
    reveal_strlit(".im2col::w");
    lemma_broken();
    lemma_statements(a, b, |s: Seq<char>| tma_blackwell_accelerated_statement(s));
}

proof fn lemma_relaxed_mbarrier(a: Seq<char>, b: Seq<char>)
    ensures
        mentions_relaxed_mbarrier(appended(a, b)) == (mentions_relaxed_mbarrier(a)
            || mentions_relaxed_mbarrier(b)),
{
    reveal_strlit("mbarrier.");
    reveal_strlit(".relaxed");
    lemma_broken();
    lemma_statements(a, b, |s: Seq<char>| relaxed_mbarrier_statement(s));
}

proof fn lemma_tma_ptx86(a: Seq<char>, b: Seq<char>)
    ensures
        mentions_tma_ptx86(appended(a, b)) == (mentions_tma_ptx86(a) || mentions_tma_ptx86(b)),
{
    reveal_strlit(".sync_restrict");
    lemma_occurs(a, b);
    lemma_tma_sm100(a, b);
    lemma_tma_blackwell_accelerated(a, b);
    lemma_relaxed_mbarrier(a, b);
}

proof fn lemma_clc(a: Seq<char>, b: Seq<char>)
    ensures
        mentions_clc(appended(a, b)) == (mentions_clc(a) || mentions_clc(b)),
{
    reveal_strlit("clusterlaunchcontrol.");
    lemma_occurs(a, b);
}

proof fn lemma_clc_multicast(a: Seq<char>, b: Seq<char>)
    ensures
        mentions_clc_multicast(appended(a, b)) == (mentions_clc_multicast(a)
            || mentions_clc_multicast(b)),
{
    reveal_strlit("clusterlaunchcontrol.");
    reveal_strlit(".multicast::cluster::all");
    lemma_broken();
    lemma_statements(a, b, |s: Seq<char>| clc_multicast_statement(s));
}

proof fn lemma_cluster_ptx80(a: Seq<char>, b: Seq<char>)
    ensures
        mentions_cluster_ptx80(appended(a, b)) == (mentions_cluster_ptx80(a)
            || mentions_cluster_ptx80(b)),
{
    reveal_strlit("barrier.cluster.");
    reveal_strlit(".release");
    reveal_strlit(".relaxed");
    reveal_strlit(".acquire");
    lemma_broken();
    lemma_statements(a, b, |s: Seq<char>| cluster_ptx80_statement(s));
}

proof fn lemma_ptx62(a: Seq<char>, b: Seq<char>)
    ensures
        calls_for_ptx62(appended(a, b)) == (calls_for_ptx62(a) || calls_for_ptx62(b)),
{
    lemma_packed_f16_atomic(a, b);
}

proof fn lemma_ptx65(a: Seq<char>, b: Seq<char>)
    ensures
        calls_for_ptx65(appended(a, b)) == (calls_for_ptx65(a) || calls_for_ptx65(b)),
{
    lemma_ldmatrix(a, b);
}

proof fn lemma_ptx70(a: Seq<char>, b: Seq<char>)
    ensures
        calls_for_ptx70(appended(a, b)) == (calls_for_ptx70(a) || calls_for_ptx70(b)),
{
    reveal_strlit("redux.sync");
    lemma_occurs(a, b);
    lemma_mbarrier(a, b);
    lemma_mma_m16n8k16_f32_bf16(a, b);
    lemma_mma_m16n8k16_f32_f16(a, b);
    lemma_mma_m16n8k8_f32_tf32(a, b);
    lemma_mma_m16n8k32_s32_s8(a, b);
    lemma_mma_m8n8k4_f64(a, b);
}

proof fn lemma_ptx71(a: Seq<char>, b: Seq<char>)
    ensures
        calls_for_ptx71(appended(a, b)) == (calls_for_ptx71(a) || calls_for_ptx71(b)),
{
    lemma_mbarrier_ptx71(a, b);
}

#[verifier::rlimit(40)]
proof fn lemma_ptx78(a: Seq<char>, b: Seq<char>)
    ensures
        calls_for_ptx78(appended(a, b)) == (calls_for_ptx78(a) || calls_for_ptx78(b)),
{
    lemma_movmatrix(a, b);
    lemma_stmatrix(a, b);
    lemma_ldmatrix_cta_state_space(a, b);
    lemma_cluster(a, b);
    lemma_mbarrier_ptx78(a, b);
    lemma_packed_bf16_atomic(a, b);
}

#[verifier::rlimit(40)]
proof fn lemma_ptx80(a: Seq<char>, b: Seq<char>)
    ensures
        calls_for_ptx80(appended(a, b)) == (calls_for_ptx80(a) || calls_for_ptx80(b)),
{
    reveal_strlit("fence.mbarrier_init");
    reveal_strlit("fence.proxy.async");
    lemma_occurs(a, b);
    lemma_cp_async_bulk(a, b);
    lemma_wgmma(a, b);
    lemma_cluster_ptx80(a, b);
    lemma_elect(a, b);
    lemma_mbarrier_ptx80(a, b);
}

#[verifier::rlimit(40)]
proof fn lemma_ptx86(a: Seq<char>, b: Seq<char>)
    ensures
        calls_for_ptx86(appended(a, b)) == (calls_for_ptx86(a) || calls_for_ptx86(b)),
{
    lemma_blackwell_matrix(a, b);
    lemma_tma_cta_group(a, b);
    lemma_tma_shared_cta_destination(a, b);
    lemma_tma_ptx86(a, b);
    lemma_clc(a, b);
    lemma_blackwell(a, b);
    lemma_fence_acquire_release(a, b);
    lemma_multimem(a, b);
    lemma_redux_f32(a, b);
}

/// A feature is called for by the joined text exactly if one of the two calls
/// for it.
proof fn lemma_calls_for(a: Seq<char>, b: Seq<char>, feature: Feature)
    ensures
        calls_for(appended(a, b), feature) == (calls_for(a, feature) || calls_for(b, feature)),
{
    match feature {
        Feature::Blackwell => lemma_blackwell(a, b),
        Feature::TmaCtaGroup => lemma_tma_cta_group(a, b),
        Feature::BlackwellAccelerated => lemma_tma_blackwell_accelerated(a, b),
        Feature::BlackwellFamily => lemma_clc_multicast(a, b),
        Feature::ReduxF32 => lemma_redux_f32(a, b),
        Feature::MultimemFp8 => lemma_multimem_blackwell(a, b),
        Feature::TmaMulticast => lemma_tma_multicast(a, b),
        Feature::MatrixBlackwell => lemma_blackwell_matrix(a, b),
        Feature::Wgmma => lemma_wgmma(a, b),
        Feature::Tma => lemma_tma(a, b),
        Feature::Cluster => lemma_cluster(a, b),
        Feature::Sm90 => lemma_sm90(a, b),
        Feature::Sm80 => lemma_sm80(a, b),
        Feature::Movmatrix => lemma_movmatrix(a, b),
        Feature::Ldmatrix => lemma_ldmatrix(a, b),
        Feature::Sm100 => {
            lemma_tma_sm100(a, b);
            lemma_clc(a, b);
        },
        Feature::Basic => {},
    }
}

/// Every requirement of either text is one of the joined text, and no other is:
/// no feature hides another, whichever text comes first. `Basic` stands for the
/// absence of all others, so the joined text has it exactly if both texts have.
pub proof fn features_of_appended_texts_add_up(first: Seq<char>, second: Seq<char>)
    ensures
        forall|feature: Feature|
            feature != Feature::Basic ==> #[trigger] required_features(
                appended(first, second),
            ).contains(feature) == (required_features(first).contains(feature)
                || required_features(second).contains(feature)),
        required_features(appended(first, second)).contains(Feature::Basic) == (required_features(
            first,
        ).contains(Feature::Basic) && required_features(second).contains(Feature::Basic)),
        required_features(appended(first, second)) == required_features(appended(second, first)),
{
    let both = appended(first, second);
    let turned = appended(second, first);
    assert forall|feature: Feature|
        #![trigger calls_for(both, feature)]
        #![trigger calls_for(turned, feature)]
        #![trigger calls_for(first, feature)]
        #![trigger calls_for(second, feature)]
        {
            &&& calls_for(both, feature) == (calls_for(first, feature) || calls_for(
                second,
                feature,
            ))
            &&& calls_for(turned, feature) == calls_for(both, feature)
        } by {
        lemma_calls_for(first, second, feature);
        lemma_calls_for(second, first, feature);
    }
    assert(required_features(both) =~= required_features(turned));
}

/// The PTX ISA that the joined text calls for is the newer of those that the two
/// texts call for, whichever text comes first and whatever else they require.
pub proof fn isa_of_appended_texts_is_the_newer(first: Seq<char>, second: Seq<char>)
    ensures
        required_isa(appended(first, second)) == newer_isa(
            required_isa(first),
            required_isa(second),
        ),
{
    lemma_ptx62(first, second);
    lemma_ptx65(first, second);
    lemma_ptx70(first, second);
    lemma_ptx71(first, second);
    lemma_ptx78(first, second);
    lemma_ptx80(first, second);
    lemma_ptx86(first, second);
}

} // verus!

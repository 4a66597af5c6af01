//! What detection and selection come to, from the text of a module to the
//! target and the PTX ISA that it is built for.

use vstd::prelude::*;

use crate::arch::{arch_name, CudaArch};
use crate::error::PipelineError;
use crate::target::detect::{
    contains_instruction_mnemonic, detect_features_in_llvm_text,
    detect_module_requirements_in_llvm_file, detect_module_requirements_in_llvm_text,
    instruction_at, instruction_boundary_after, instruction_boundary_before, match_at,
    mentions_instruction, search_resumes, ModuleRequirements, PtxIsaRequirement,
};
use crate::target::evidence::{
    evidence, features_need_evidence, isa_evidence, isa_mnemonic, isa_word, isas_need_evidence,
    mnemonics_need_their_feature, mnemonics_need_their_isa, needs_mnemonic, needs_word,
    stands_alone, words_need_their_feature, words_need_their_isa,
};
use crate::target::features::{DetectedFeatures, Feature};
use crate::target::generations::{
    in_use, introduces, nothing_is_requested_for_blackwell, older_targets_are_raised,
    switches_spell_their_isa, targets_start_from_the_isa_that_introduced_them,
};
use crate::target::join::isa_order;
use crate::target::select::{
    arch_compute_capability, arch_major, arch_satisfies, cuda_target, incompatible,
    lemma_real_name, name_satisfies, real_arch, required_ptx_feature, resolve_ptx_target,
    select_target, selects, target_minimum_ptx_isa, target_satisfies,
    validate_target_features, validate_target_for_llvm_major,
};
use crate::text::{begins_with, decimal, finishes_with, occurs, occurs_at, whitespace};

verus! {

/// The last character of the text that LLVM prints for a control character that
/// separates words: tab, line feed, vertical tab, form feed, carriage return.
pub open spec fn escape_digit(c: char) -> bool {
    c == '9' || c == 'A' || c == 'B' || c == 'C' || c == 'D'
}

/// What stands in front of `at` separates words: nothing, whitespace or its
/// escape, a quote, a bracket, a colon, the end of a statement or of a comment.
pub open spec fn separated_in_front(text: Seq<char>, at: int) -> bool {
    at == 0 || {
        let c = text[at - 1];
        ||| whitespace(c)
        ||| c == '"' || c == ';' || c == ':' || c == '{' || c == '}'
        ||| at >= 3 && text[at - 3] == '\\' && text[at - 2] == '0' && escape_digit(c)
        ||| at >= 2 && text[at - 2] == '*' && c == '/'
    }
}

/// What stands at `end` separates words: whitespace or its escape.
pub open spec fn separated_behind(text: Seq<char>, end: int) -> bool {
    end < text.len() && {
        ||| whitespace(text[end])
        ||| end + 2 < text.len() && text[end] == '\\' && text[end + 1] == '0' && escape_digit(
            text[end + 2],
        )
    }
}

/// The text ends with an escape of this digit exactly if its last three
/// characters are.
proof fn lemma_escape(text: Seq<char>, at: int, literal: Seq<char>, d: char)
    requires
        0 <= at <= text.len(),
        literal =~= seq!['\\', '0', d],
    ensures
        finishes_with(text.take(at), literal) <==> at >= 3 && text[at - 3] == '\\' && text[at - 2]
            == '0' && text[at - 1] == d,
        begins_with(text.skip(at), literal) <==> at + 2 < text.len() && text[at] == '\\' && text[at
            + 1] == '0' && text[at + 2] == d,
{
    let front = text.take(at);
    if at >= 3 {
        let last = front.subrange(at - 3, at - 3 + 3);
        assert(last[0] == text[at - 3] && last[1] == text[at - 2] && last[2] == text[at - 1]);
        if last[0] == '\\' && last[1] == '0' && last[2] == d {
            assert(last =~= literal);
        }
    }
    let back = text.skip(at);
    if at + 2 < text.len() {
        let first = back.subrange(0, 3);
        assert(first[0] == text[at] && first[1] == text[at + 1] && first[2] == text[at + 2]);
        if first[0] == '\\' && first[1] == '0' && first[2] == d {
            assert(first =~= literal);
        }
    }
}

/// An instruction begins where words are separated, and its mnemonic ends where
/// they are. Nothing else separates them: `$`, `%`, `_`, `.`, letters and digits
/// take part in words.
#[verifier::rlimit(50)]
pub proof fn instructions_stand_between_separators(text: Seq<char>, at: int)
    requires
        0 <= at <= text.len(),
    ensures
        instruction_boundary_after(text.take(at)) <==> separated_in_front(text, at),
        instruction_boundary_before(text.skip(at)) <==> separated_behind(text, at),
{
    reveal_strlit("\\09");
    reveal_strlit("\\0A");
    reveal_strlit("\\0B");
    reveal_strlit("\\0C");
    reveal_strlit("\\0D");
    reveal_strlit("*/");
    lemma_escape(text, at, "\\09"@, '9');
    lemma_escape(text, at, "\\0A"@, 'A');
    lemma_escape(text, at, "\\0B"@, 'B');
    lemma_escape(text, at, "\\0C"@, 'C');
    lemma_escape(text, at, "\\0D"@, 'D');
    let front = text.take(at);
    if at > 0 {
        assert(front.last() == text[at - 1]);
    }
    if at >= 2 {
        let last = front.subrange(at - 2, at - 2 + 2);
        assert(last[0] == text[at - 2] && last[1] == text[at - 1]);
        if last[0] == '*' && last[1] == '/' {
            assert(last =~= "*/"@);
        }
    }
    if at < text.len() {
        assert(text.skip(at)[0] == text[at]);
    }
}

/// A mnemonic as they are written: a small letter, then small letters, digits,
/// dots and underscores.
pub open spec fn plain_mnemonic(mnemonic: Seq<char>) -> bool {
    &&& mnemonic.len() > 0
    &&& 'a' <= mnemonic[0] <= 'z'
    &&& forall|k: int|
        0 <= k < mnemonic.len() ==> {
            ||| 'a' <= #[trigger] mnemonic[k] <= 'z'
            ||| '0' <= mnemonic[k] <= '9'
            ||| mnemonic[k] == '.'
            ||| mnemonic[k] == '_'
        }
}

/// No match of a mnemonic reaches over a separator.
proof fn lemma_separators_stop_matches(text: Seq<char>, at: nat, seen: nat, mnemonic: Seq<char>)
    requires
        seen <= at <= text.len(),
        separated_in_front(text, at as int),
        plain_mnemonic(mnemonic),
    ensures
        search_resumes(text, seen, mnemonic) <= at,
    decreases seen,
{
    reveal_with_fuel(search_resumes, 2);
    reveal_with_fuel(match_at, 2);
    if seen > 0 {
        let previous = (seen - 1) as nat;
        lemma_separators_stop_matches(text, at, previous, mnemonic);
        if match_at(text, previous as int, mnemonic) && previous + mnemonic.len() > at {
            let found = text.subrange(previous as int, previous as int + mnemonic.len());
            assert(found == mnemonic);
            assert(found[0] == text[previous as int]);
            assert(found[at - 1 - previous] == text[at - 1]);
            if at >= 3 && previous + 3 <= at {
                assert(found[at - 3 - previous] == text[at - 3]);
            }
        }
    }
}

/// A mnemonic is found exactly if it stands somewhere between separators.
#[verifier::rlimit(50)]
pub proof fn mnemonics_are_found_between_separators(
    text: &str,
    mnemonic: &str,
    found: bool,
)
    requires
        call_ensures(contains_instruction_mnemonic, (text, mnemonic), found),
        plain_mnemonic(mnemonic@),
    ensures
        found <==> exists|at: int| #[trigger]
            occurs_at(text@, at, mnemonic@) && separated_in_front(text@, at) && separated_behind(
                text@,
                at + mnemonic@.len(),
            ),
{
    reveal_with_fuel(match_at, 2);
    if found {
        let at = choose|at: int| #[trigger] instruction_at(text@, at, mnemonic@);
        instructions_stand_between_separators(text@, at);
        instructions_stand_between_separators(text@, at + mnemonic@.len());
        assert(occurs_at(text@, at, mnemonic@));
    }
    assert forall|at: int| #[trigger]
        occurs_at(text@, at, mnemonic@) && separated_in_front(text@, at) && separated_behind(
            text@,
            at + mnemonic@.len(),
        ) implies found by {
        instructions_stand_between_separators(text@, at);
        instructions_stand_between_separators(text@, at + mnemonic@.len());
        lemma_separators_stop_matches(text@, at as nat, at as nat, mnemonic@);
        assert(match_at(text@, at, mnemonic@));
        assert(instruction_at(text@, at, mnemonic@));
    }
}

/// What is detected in a module is what its text makes necessary: every listed
/// word and mnemonic brings its feature and its ISA, and nothing is detected
/// that nothing in the text is listed for. A module without any of it is a basic
/// one. Reading the text from a file makes no difference.
#[verifier::rlimit(50)]
pub proof fn detection_finds_what_is_listed(
    text: &str,
    path: &str,
    requirements: ModuleRequirements,
    features: DetectedFeatures,
    from_file: Result<ModuleRequirements, PipelineError>,
    feature: Feature,
    isa: PtxIsaRequirement,
    word: Seq<char>,
)
    requires
        call_ensures(detect_module_requirements_in_llvm_text, (text,), requirements),
        call_ensures(detect_features_in_llvm_text, (text,), features),
        call_ensures(
            detect_module_requirements_in_llvm_file,
            (path, Ok::<&str, &str>(text)),
            from_file,
        ),
    ensures
        requirements.features@ == features@,
        from_file matches Ok(read) && read.features@ == features@ && read.ptx_isa
            == requirements.ptx_isa,
        needs_word(feature, word) && occurs(text@, word) ==> features@.contains(feature),
        needs_mnemonic(feature, word) && stands_alone(text@, word) ==> features@.contains(feature),
        isa_word(isa, word) && occurs(text@, word) ==> isa_order(requirements.ptx_isa)
            >= isa_order(isa),
        isa_mnemonic(isa, word) && stands_alone(text@, word) ==> isa_order(requirements.ptx_isa)
            >= isa_order(isa),
        features@.contains(feature) && feature != Feature::Basic ==> evidence(text@, feature),
        requirements.ptx_isa != PtxIsaRequirement::Default ==> isa_evidence(
            text@,
            requirements.ptx_isa,
        ),
        features@.contains(Feature::Basic) <==> forall|other: Feature|
            other != Feature::Basic ==> !#[trigger] features@.contains(other),
{
    if needs_word(feature, word) && occurs(text@, word) {
        words_need_their_feature(text@, feature, word);
    }
    if needs_mnemonic(feature, word) && stands_alone(text@, word) {
        mnemonics_need_their_feature(text@, feature, word);
    }
    if isa_word(isa, word) && occurs(text@, word) {
        words_need_their_isa(text@, isa, word);
    }
    if isa_mnemonic(isa, word) && stands_alone(text@, word) {
        mnemonics_need_their_isa(text@, isa, word);
    }
    if features@.contains(feature) && feature != Feature::Basic {
        features_need_evidence(text@, feature);
    }
    if requirements.ptx_isa != PtxIsaRequirement::Default {
        isas_need_evidence(text@);
    }
    if features@.contains(Feature::Basic) {
        assert forall|other: Feature| other != Feature::Basic implies !#[trigger] features@.contains(
            other,
        ) by {
            assert(!crate::target::detect::calls_for(text@, other));
        }
    }
    if forall|other: Feature| other != Feature::Basic ==> !#[trigger] features@.contains(other) {
        assert forall|other: Feature| !crate::target::detect::calls_for(text@, other) by {
            assert(other != Feature::Basic ==> !features@.contains(other));
        }
    }
}

/// The capability of a real architecture is the number in its name, and its
/// major number is that without the last digit.
pub proof fn capabilities_are_read_from_the_name(
    name: &str,
    capability: u32,
    suffix: Option<char>,
    read: Option<u32>,
    major: Option<u32>,
)
    requires
        crate::arch::known_suffix(suffix),
        name@ == arch_name("sm_"@, capability, suffix),
        call_ensures(arch_compute_capability, (name,), read),
        call_ensures(arch_major, (name,), major),
    ensures
        read == Some(capability),
        major matches Some(tens) && 10 * tens <= capability < 10 * tens + 10,
{
    lemma_real_name(name@, capability, suffix);
}

/// A name that does not begin with `sm_` has no capability, no features and no
/// ISA to request.
pub proof fn other_names_are_no_targets(
    name: &str,
    features: DetectedFeatures,
    requirement: PtxIsaRequirement,
    read: Option<u32>,
    major: Option<u32>,
    satisfied: bool,
    switch: Option<&'static str>,
)
    requires
        !begins_with(name@, "sm_"@),
        call_ensures(arch_compute_capability, (name,), read),
        call_ensures(arch_major, (name,), major),
        call_ensures(arch_satisfies, (name, features), satisfied),
        call_ensures(required_ptx_feature, (name, requirement), switch),
    ensures
        read is None,
        major is None,
        !satisfied,
        switch is None,
{
}

/// What one target can run, it can run part of; and what two modules need
/// together, a target has exactly if it has what each of them needs.
pub proof fn more_features_leave_fewer_targets(
    name: &str,
    less: DetectedFeatures,
    more: DetectedFeatures,
    runs_less: bool,
    runs_more: bool,
)
    requires
        call_ensures(arch_satisfies, (name, less), runs_less),
        call_ensures(arch_satisfies, (name, more), runs_more),
        forall|feature: Feature| #[trigger]
            less@.contains(feature) ==> more@.contains(feature),
    ensures
        runs_more ==> runs_less,
{
}

/// A target that is selected runs the features, and one is selected whenever
/// some target runs them. An explicit target is held to the same.
pub proof fn selected_targets_run_the_features(
    features: DetectedFeatures,
    selected: Result<&'static str, String>,
    runs: bool,
    target: CudaArch,
    name: &str,
    valid: Result<(), String>,
    target_runs: bool,
)
    requires
        call_ensures(select_target, (features,), selected),
        selected is Ok ==> call_ensures(arch_satisfies, (selected->Ok_0, features), runs),
        name@ == target.sm_name(),
        call_ensures(validate_target_features, (&target, features), valid),
        call_ensures(arch_satisfies, (name, features), target_runs),
    ensures
        selected is Ok ==> runs,
        selected is Err ==> !target_runs,
        valid is Ok <==> target_runs,
{
    if selected is Err {
        assert(!name_satisfies(name@, features@));
    }
}

/// The target of a build: an explicit one that names an architecture with the
/// features, and no other in its place; without one the GPU of this machine
/// where it has the features, and else the selected target. The source says
/// which of the three it was.
#[verifier::rlimit(50)]
pub proof fn explicit_targets_come_first_and_local_ones_second(
    explicit: Option<&str>,
    local: Option<&str>,
    features: DetectedFeatures,
    resolved: Result<(String, &'static str), PipelineError>,
    selected: Result<&'static str, String>,
    local_runs: bool,
)
    requires
        call_ensures(resolve_ptx_target, (explicit, local, features), resolved),
        call_ensures(select_target, (features,), selected),
        local is Some ==> call_ensures(arch_satisfies, (local->Some_0, features), local_runs),
    ensures
        resolved matches Ok((target, source)) ==> {
            &&& name_satisfies(target@, features@)
            &&& source@ == "CUDA_OXIDE_TARGET"@ || source@ == "detected GPU"@ || source@
                == "feature requirement"@
        },
        explicit matches Some(name) ==> {
            &&& resolved is Ok ==> crate::arch::named_arch(resolved->Ok_0.0@)
                == crate::arch::named_arch(name@) && resolved->Ok_0.1@ == "CUDA_OXIDE_TARGET"@
            &&& crate::arch::named_arch(name@) is None ==> resolved is Err
        },
        explicit is None && local is Some && local_runs ==> resolved is Ok
            && resolved->Ok_0.0@ == local->Some_0@ && resolved->Ok_0.1@ == "detected GPU"@,
        explicit is None && (local is None || !local_runs) ==> {
            &&& resolved is Ok <==> selected is Ok
            &&& resolved is Ok ==> resolved->Ok_0.0@ == selected->Ok_0@ && resolved->Ok_0.1@
                == "feature requirement"@
        },
        resolved matches Err(error) ==> error is PtxGeneration,
{
    if explicit is Some && resolved is Ok {
        let (capability, suffix) = crate::arch::named_arch(explicit->Some_0@)->Some_0;
        crate::arch::lemma_name_reads_back("sm_"@, capability, suffix);
    }
    if explicit is None && (local is None || !local_runs) && resolved is Ok && selected is Ok {
        crate::target::select::selection_is_unique(
            features@,
            resolved->Ok_0.0@,
            selected->Ok_0@,
        );
    }
}

/// Every target in use starts from the ISA that introduced it. A newer ISA is
/// requested for it by its own switch, and nothing is requested where the target
/// starts from one that is as new; so nothing ever is for Blackwell.
pub proof fn isas_are_requested_for_older_targets(
    name: &str,
    capability: u32,
    suffix: Option<char>,
    introduction: u32,
    minimum: Option<u32>,
    requirement: PtxIsaRequirement,
    switch: Option<&'static str>,
)
    requires
        crate::arch::known_suffix(suffix),
        name@ == arch_name("sm_"@, capability, suffix),
        introduces(introduction, capability),
        call_ensures(target_minimum_ptx_isa, (capability,), minimum),
        call_ensures(required_ptx_feature, (name, requirement), switch),
    ensures
        in_use(capability),
        minimum == Some(introduction),
        switch is Some <==> isa_order(requirement) > introduction,
        switch matches Some(text) ==> text@ == "+ptx"@ + decimal(isa_order(requirement) as nat),
        capability >= 100 ==> introduction >= 86 && switch is None,
{
    lemma_real_name(name@, capability, suffix);
    targets_start_from_the_isa_that_introduced_them(introduction, capability);
    older_targets_are_raised(name@, capability, suffix, requirement, introduction);
    if switch is Some {
        switches_spell_their_isa(requirement);
    }
}

/// A capability that no ISA introduced has no minimum, and nothing is requested
/// for it.
pub proof fn unknown_targets_have_no_minimum(
    capability: u32,
    minimum: Option<u32>,
    name: &str,
    suffix: Option<char>,
    requirement: PtxIsaRequirement,
    switch: Option<&'static str>,
)
    requires
        !in_use(capability),
        crate::arch::known_suffix(suffix),
        name@ == arch_name("sm_"@, capability, suffix),
        call_ensures(target_minimum_ptx_isa, (capability,), minimum),
        call_ensures(required_ptx_feature, (name, requirement), switch),
    ensures
        minimum is None,
        switch is None,
{
    lemma_real_name(name@, capability, suffix);
}

/// A backend of LLVM 22 or later takes every target; an older one, or one of
/// unknown version, takes all but those that PTX 9.0 introduced. What one
/// backend takes, a later one takes too.
pub proof fn backends_before_llvm22_lack_the_newest_targets(
    name: &str,
    capability: u32,
    suffix: Option<char>,
    major: u32,
    later: u32,
    valid: Result<(), String>,
    later_valid: Result<(), String>,
    unknown_valid: Result<(), String>,
)
    requires
        crate::arch::known_suffix(suffix),
        name@ == arch_name("sm_"@, capability, suffix),
        major <= later,
        call_ensures(validate_target_for_llvm_major, (name, Some(major)), valid),
        call_ensures(validate_target_for_llvm_major, (name, Some(later)), later_valid),
        call_ensures(validate_target_for_llvm_major, (name, None::<u32>), unknown_valid),
    ensures
        valid is Ok ==> later_valid is Ok,
        unknown_valid is Ok <==> !introduces(90, capability),
        unknown_valid is Ok ==> valid is Ok,
        introduces(90, capability) ==> (valid is Ok <==> major > 21),
{
    lemma_real_name(name@, capability, suffix);
}

/// The targets that run plain kernels are the ones in use, with the suffixes that
/// exist for them; and each runs what its generation can.
pub proof fn targets_in_use_run_plain_kernels(
    name: &str,
    capability: u32,
    suffix: Option<char>,
    features: DetectedFeatures,
    runs: bool,
)
    requires
        crate::arch::known_suffix(suffix),
        name@ == arch_name("sm_"@, capability, suffix),
        call_ensures(arch_satisfies, (name, features), runs),
    ensures
        !in_use(capability) ==> !runs,
        suffix == Some('a') && capability < 90 ==> !runs,
        suffix == Some('f') && capability < 100 ==> !runs,
        features@ =~= set![Feature::Basic] && in_use(capability) && suffix is None ==> runs,
        features@ =~= set![Feature::Basic] && in_use(capability) && suffix == Some('a')
            && capability >= 90 ==> runs,
        features@ =~= set![Feature::Basic] && in_use(capability) && suffix == Some('f')
            && capability >= 100 ==> runs,
        features@.contains(Feature::Sm80) && capability < 80 ==> !runs,
        features@.contains(Feature::Ldmatrix) && capability < 75 ==> !runs,
        features@.contains(Feature::Movmatrix) && capability < 75 ==> !runs,
        (features@.contains(Feature::Sm90) || features@.contains(Feature::Cluster)
            || features@.contains(Feature::Tma) || features@.contains(Feature::TmaMulticast))
            && capability < 90 ==> !runs,
        features@.contains(Feature::Sm100) && capability < 100 ==> !runs,
        features@.contains(Feature::Wgmma) && runs ==> name@ == arch_name("sm_"@, 90, Some('a')),
{
    lemma_real_name(name@, capability, suffix);
}

/// The feature that a name in a diagnostic stands for.
pub open spec fn feature_called(name: Seq<char>, feature: Feature) -> bool {
    &&& name == "Blackwell"@ ==> feature == Feature::Blackwell
    &&& name == "TmaMulticast"@ ==> feature == Feature::TmaMulticast
    &&& name == "TmaCtaGroup"@ ==> feature == Feature::TmaCtaGroup
    &&& name == "MatrixBlackwell"@ ==> feature == Feature::MatrixBlackwell
    &&& name == "Wgmma"@ ==> feature == Feature::Wgmma
    &&& name == "Tma"@ ==> feature == Feature::Tma
    &&& name == "Cluster"@ ==> feature == Feature::Cluster
    &&& name == "Sm90"@ ==> feature == Feature::Sm90
    &&& name == "Sm80"@ ==> feature == Feature::Sm80
    &&& name == "Movmatrix"@ ==> feature == Feature::Movmatrix
    &&& name == "Ldmatrix"@ ==> feature == Feature::Ldmatrix
    &&& name == "Basic"@ ==> feature == Feature::Basic
    &&& name == "Sm100"@ ==> feature == Feature::Sm100
    &&& name == "BlackwellFamily"@ ==> feature == Feature::BlackwellFamily
    &&& name == "BlackwellAccelerated"@ ==> feature == Feature::BlackwellAccelerated
    &&& name == "ReduxF32"@ ==> feature == Feature::ReduxF32
    &&& name == "MultimemFp8"@ ==> feature == Feature::MultimemFp8
}

/// Diagnostics call a feature by its own name, and no two by the same.
#[verifier::rlimit(50)]
pub proof fn features_are_told_apart_by_name(
    feature: Feature,
    other: Feature,
    name: &'static str,
    other_name: &'static str,
)
    requires
        call_ensures(Feature::name, (feature,), name),
        call_ensures(Feature::name, (other,), other_name),
    ensures
        feature_called(name@, feature),
        name@ == other_name@ <==> feature == other,
{
    reveal_strlit("Blackwell");
    assert("Blackwell"@.len() == 9 && "Blackwell"@[0] == 'B' && "Blackwell"@[2] == 'a');
    reveal_strlit("TmaMulticast");
    assert("TmaMulticast"@.len() == 12 && "TmaMulticast"@[0] == 'T' && "TmaMulticast"@[2] == 'a');
    reveal_strlit("TmaCtaGroup");
    assert("TmaCtaGroup"@.len() == 11 && "TmaCtaGroup"@[0] == 'T' && "TmaCtaGroup"@[2] == 'a');
    reveal_strlit("MatrixBlackwell");
    assert("MatrixBlackwell"@.len() == 15 && "MatrixBlackwell"@[0] == 'M' && "MatrixBlackwell"@[2] == 't');
    reveal_strlit("Wgmma");
    assert("Wgmma"@.len() == 5 && "Wgmma"@[0] == 'W' && "Wgmma"@[2] == 'm');
    reveal_strlit("Tma");
    assert("Tma"@.len() == 3 && "Tma"@[0] == 'T' && "Tma"@[2] == 'a');
    reveal_strlit("Cluster");
    assert("Cluster"@.len() == 7 && "Cluster"@[0] == 'C' && "Cluster"@[2] == 'u');
    reveal_strlit("Sm90");
    assert("Sm90"@.len() == 4 && "Sm90"@[0] == 'S' && "Sm90"@[2] == '9');
    reveal_strlit("Sm80");
    assert("Sm80"@.len() == 4 && "Sm80"@[0] == 'S' && "Sm80"@[2] == '8');
    reveal_strlit("Movmatrix");
    assert("Movmatrix"@.len() == 9 && "Movmatrix"@[0] == 'M' && "Movmatrix"@[2] == 'v');
    reveal_strlit("Ldmatrix");
    assert("Ldmatrix"@.len() == 8 && "Ldmatrix"@[0] == 'L' && "Ldmatrix"@[2] == 'm');
    reveal_strlit("Basic");
    assert("Basic"@.len() == 5 && "Basic"@[0] == 'B' && "Basic"@[2] == 's');
    reveal_strlit("Sm100");
    assert("Sm100"@.len() == 5 && "Sm100"@[0] == 'S' && "Sm100"@[2] == '1');
    reveal_strlit("BlackwellFamily");
    assert("BlackwellFamily"@.len() == 15 && "BlackwellFamily"@[0] == 'B' && "BlackwellFamily"@[2] == 'a');
    reveal_strlit("BlackwellAccelerated");
    assert("BlackwellAccelerated"@.len() == 20 && "BlackwellAccelerated"@[0] == 'B' && "BlackwellAccelerated"@[2] == 'a');
    reveal_strlit("ReduxF32");
    assert("ReduxF32"@.len() == 8 && "ReduxF32"@[0] == 'R' && "ReduxF32"@[2] == 'd');
    reveal_strlit("MultimemFp8");
    assert("MultimemFp8"@.len() == 11 && "MultimemFp8"@[0] == 'M' && "MultimemFp8"@[2] == 'l');
}

} // verus!

//! What holds of the GPU generations as a whole: which targets there are, since
//! when, and what each of them can do.

use vstd::prelude::*;

use crate::arch::arch_name;
use crate::target::detect::PtxIsaRequirement;
use crate::target::features::Feature;
use crate::target::join::isa_order;
use crate::target::select::{
    cuda_target, incompatible, isa_number, isa_switch, lemma_candidate_names,
    lemma_real_name, name_satisfies, needs_llvm22, oldest_isa, raised_isa, real_arch, selects,
    target_has, target_satisfies,
};
use crate::text::decimal;

verus! {

/// The PTX ISA of this number was the first that could name the target.
pub open spec fn introduces(isa: u32, capability: u32) -> bool {
    match isa {
        60 => capability == 70,
        61 => capability == 72,
        63 => capability == 75,
        70 => capability == 80,
        71 => capability == 86,
        74 => capability == 87,
        78 => capability == 89 || capability == 90,
        86 => capability == 100 || capability == 101,
        87 => capability == 120,
        88 => capability == 103 || capability == 121,
        90 => capability == 88 || capability == 110,
        _ => false,
    }
}

/// A target starts from the ISA that introduced it, and from no other.
pub proof fn targets_start_from_the_isa_that_introduced_them(isa: u32, capability: u32)
    ensures
        oldest_isa(capability) == Some(isa) <==> introduces(isa, capability),
{
}

/// The targets that are known are those that some ISA can name.
pub proof fn known_targets_are_those_that_an_isa_names(capability: u32)
    ensures
        cuda_target(capability, None) <==> oldest_isa(capability) is Some,
        cuda_target(capability, None) <==> exists|isa: u32| #[trigger] introduces(isa, capability),
{
    targets_start_from_the_isa_that_introduced_them(
        match oldest_isa(capability) {
            Some(isa) => isa,
            None => 0,
        },
        capability,
    );
}

/// Architecture-specific targets begin with Hopper and family targets with
/// Blackwell; there is no other suffix.
pub proof fn suffixes_come_with_hopper_and_blackwell(capability: u32, suffix: char)
    ensures
        cuda_target(capability, Some(suffix)) <==> cuda_target(capability, None) && ((suffix == 'a'
            && capability >= 90) || (suffix == 'f' && capability >= 100)),
{
}

/// Every known target from Ampere on has what Ampere has, and every one from
/// Hopper on has what Hopper has but for the instructions of Hopper alone. The
/// suffix does not matter.
pub proof fn generic_features_are_kept(capability: u32, suffix: Option<char>)
    requires
        cuda_target(capability, suffix),
    ensures
        target_has(capability, suffix, Feature::Basic),
        target_has(capability, suffix, Feature::Movmatrix) <==> capability >= 75,
        target_has(capability, suffix, Feature::Ldmatrix) <==> capability >= 75,
        target_has(capability, suffix, Feature::Sm80) <==> capability >= 80,
        target_has(capability, suffix, Feature::Sm90) <==> capability >= 90,
        target_has(capability, suffix, Feature::Cluster) <==> capability >= 90,
        target_has(capability, suffix, Feature::Tma) <==> capability >= 90,
        target_has(capability, suffix, Feature::TmaMulticast) <==> capability >= 90,
        target_has(capability, suffix, Feature::Sm100) <==> capability >= 100,
{
}

/// One of the targets that are in use.
pub open spec fn in_use(capability: u32) -> bool {
    ||| capability == 70
    ||| capability == 72
    ||| capability == 75
    ||| capability == 80
    ||| capability == 86
    ||| capability == 87
    ||| capability == 88
    ||| capability == 89
    ||| capability == 90
    ||| capability == 100
    ||| capability == 101
    ||| capability == 103
    ||| capability == 110
    ||| capability == 120
    ||| capability == 121
}

/// The name of every target in use is a target for plain kernels, and from Ampere
/// on for whatever Ampere can do; no other name is.
pub proof fn targets_in_use_are_accepted(capability: u32, features: Set<Feature>)
    requires
        forall|feature: Feature| #[trigger]
            features.contains(feature) ==> feature == Feature::Basic || feature == Feature::Sm80
                || feature == Feature::Ldmatrix || feature == Feature::Movmatrix,
    ensures
        in_use(capability) && capability >= 80 ==> name_satisfies(
            arch_name("sm_"@, capability, None),
            features,
        ),
        in_use(capability) ==> name_satisfies(
            arch_name("sm_"@, capability, None),
            set![Feature::Basic],
        ),
        !in_use(capability) ==> !name_satisfies(arch_name("sm_"@, capability, None), features),
{
    lemma_real_name(arch_name("sm_"@, capability, None), capability, None);
}

/// Tensor Memory and what belongs to it are on the datacenter targets with a
/// suffix, whichever suffix it is.
pub proof fn tensor_memory_is_on_datacenter_targets(capability: u32, suffix: Option<char>)
    ensures
        ({
            let datacenter = capability == 100 || capability == 101 || capability == 103
                || capability == 110;
            let suffixed = suffix == Some('a') || suffix == Some('f');
            &&& target_has(capability, suffix, Feature::Blackwell) <==> datacenter && suffixed
            &&& target_has(capability, suffix, Feature::TmaCtaGroup) <==> datacenter && suffixed
            &&& target_has(capability, suffix, Feature::BlackwellAccelerated) <==> datacenter
                && suffixed
            &&& target_has(capability, suffix, Feature::ReduxF32) <==> suffixed && (capability
                == 100 || capability == 103)
        }),
{
}

/// What the suffixed consumer and newer datacenter targets can do, target by
/// target: a family target has the family-wide matrix forms, an
/// architecture-specific one the FP8 multicast forms.
pub proof fn family_features_by_target(capability: u32)
    requires
        100 <= capability,
        cuda_target(capability, None),
    ensures
        target_has(capability, Some('f'), Feature::BlackwellFamily),
        target_has(capability, Some('f'), Feature::MatrixBlackwell),
        target_has(capability, Some('a'), Feature::MultimemFp8),
        target_has(capability, Some('f'), Feature::MultimemFp8) <==> capability < 120,
        target_has(capability, Some('a'), Feature::BlackwellFamily) <==> capability != 103
            && capability != 121,
        target_has(capability, Some('a'), Feature::MatrixBlackwell) <==> capability != 103
            && capability != 121,
{
}

/// The features that a generic target never has, and that no target before
/// Blackwell has.
pub proof fn conditional_features_need_a_suffix(
    capability: u32,
    suffix: Option<char>,
    feature: Feature,
)
    requires
        feature == Feature::Blackwell || feature == Feature::TmaCtaGroup || feature
            == Feature::BlackwellAccelerated || feature == Feature::BlackwellFamily || feature
            == Feature::MatrixBlackwell || feature == Feature::ReduxF32 || feature
            == Feature::MultimemFp8,
        target_has(capability, suffix, feature),
    ensures
        suffix == Some('a') || suffix == Some('f'),
        cuda_target(capability, suffix),
        capability >= 100,
{
}

/// Warpgroup matrix instructions are on `sm_90a` and nowhere else, so nothing that
/// asks for Blackwell can be built together with them.
pub proof fn warpgroup_instructions_are_for_hopper_alone(
    capability: u32,
    suffix: Option<char>,
    features: Set<Feature>,
)
    ensures
        target_has(capability, suffix, Feature::Wgmma) <==> capability == 90 && suffix == Some('a'),
        features.contains(Feature::Wgmma) && target_satisfies(capability, suffix, features) ==> (
        capability == 90 && suffix == Some('a') && !features.contains(Feature::Sm100)),
{
}

/// No ISA before 8.6 can name a Blackwell target, so no ISA that a module can ask
/// for is ever requested for one.
pub proof fn nothing_is_requested_for_blackwell(
    target: Seq<char>,
    capability: u32,
    suffix: Option<char>,
    requirement: PtxIsaRequirement,
)
    requires
        real_arch(target) == Some((capability, suffix)),
        cuda_target(capability, suffix),
        capability >= 100,
    ensures
        oldest_isa(capability) matches Some(isa) && isa >= 86,
        raised_isa(target, requirement) is None,
{
}

/// An ISA is requested exactly for the known targets that are older than it: those
/// that another ISA introduced before it.
pub proof fn older_targets_are_raised(
    target: Seq<char>,
    capability: u32,
    suffix: Option<char>,
    requirement: PtxIsaRequirement,
    introduction: u32,
)
    requires
        real_arch(target) == Some((capability, suffix)),
        introduces(introduction, capability),
    ensures
        raised_isa(target, requirement) is Some <==> isa_order(requirement) > introduction,
        raised_isa(target, requirement) matches Some(isa) ==> isa == isa_order(requirement),
{
    targets_start_from_the_isa_that_introduced_them(introduction, capability);
}

/// A switch is `+ptx` and the number of its ISA, and the numbers go up with the
/// requirement.
#[verifier::rlimit(50)]
pub proof fn switches_spell_their_isa(requirement: PtxIsaRequirement)
    requires
        requirement != PtxIsaRequirement::Default,
    ensures
        isa_number(requirement) == Some(isa_order(requirement) as u32),
        isa_switch(requirement) == "+ptx"@ + decimal(isa_order(requirement) as nat),
        60 < isa_order(requirement) < 90,
{
    reveal_strlit("+ptx");
    reveal_strlit("+ptx62");
    reveal_strlit("+ptx65");
    reveal_strlit("+ptx70");
    reveal_strlit("+ptx71");
    reveal_strlit("+ptx78");
    reveal_strlit("+ptx80");
    reveal_strlit("+ptx86");
    reveal_with_fuel(decimal, 3);
    assert(isa_switch(requirement) =~= "+ptx"@ + decimal(isa_order(requirement) as nat));
}

/// The targets that LLVM 21 mishandles are those that PTX 9.0 introduced.
pub proof fn new_targets_need_a_new_backend(
    target: Seq<char>,
    capability: u32,
    suffix: Option<char>,
)
    requires
        real_arch(target) == Some((capability, suffix)),
    ensures
        needs_llvm22(target) <==> introduces(90, capability),
{
}

/// Only the names of real architectures are targets.
pub proof fn virtual_architectures_are_no_targets(name: Seq<char>, features: Set<Feature>)
    requires
        name.len() < 3 || name[0] != 's' || name[1] != 'm' || name[2] != '_',
    ensures
        !name_satisfies(name, features),
{
    reveal_strlit("sm_");
    if crate::text::begins_with(name, "sm_"@) {
        let front = name.subrange(0, 3);
        assert(front[0] == name[0] && front[1] == name[1] && front[2] == name[2]);
    }
}

/// The feature is of Ampere or older.
pub open spec fn up_to_ampere(feature: Feature) -> bool {
    feature == Feature::Basic || feature == Feature::Sm80 || feature == Feature::Movmatrix
        || feature == Feature::Ldmatrix
}

/// The feature is of Hopper or older, and every later target has it.
pub open spec fn up_to_hopper(feature: Feature) -> bool {
    up_to_ampere(feature) || feature == Feature::Cluster || feature == Feature::Sm90
}

/// The feature is one that the generic Blackwell target has.
pub open spec fn up_to_blackwell(feature: Feature) -> bool {
    up_to_hopper(feature) || feature == Feature::Tma || feature == Feature::Sm100
}

/// The feature is one for which a suffixed Blackwell target is chosen.
pub open spec fn wants_suffix(feature: Feature) -> bool {
    !up_to_blackwell(feature) && feature != Feature::Wgmma
}

/// All features of the set are of a sort.
pub open spec fn all_are(features: Set<Feature>, sort: spec_fn(Feature) -> bool) -> bool {
    forall|feature: Feature| #[trigger] features.contains(feature) ==> sort(feature)
}

/// Some feature of the set is of a sort.
pub open spec fn some_is(features: Set<Feature>, sort: spec_fn(Feature) -> bool) -> bool {
    exists|feature: Feature| #[trigger] features.contains(feature) && sort(feature)
}

/// Which target a set of features selects, by the generations that its members
/// belong to.
#[verifier::rlimit(50)]
pub proof fn selection_goes_by_generation(features: Set<Feature>, target: Seq<char>)
    requires
        selects(features, target),
    ensures
        target == "sm_75"@ <==> all_are(
            features,
            |f: Feature| f == Feature::Movmatrix || f == Feature::Ldmatrix || f == Feature::Basic,
        ) && some_is(features, |f: Feature| f == Feature::Movmatrix || f == Feature::Ldmatrix),
        target == "sm_80"@ <==> all_are(features, |f: Feature| up_to_ampere(f)) && (
        features.contains(Feature::Sm80) || !some_is(
            features,
            |f: Feature| f == Feature::Movmatrix || f == Feature::Ldmatrix,
        )),
        target == "sm_90"@ <==> all_are(features, |f: Feature| up_to_hopper(f)) && !all_are(
            features,
            |f: Feature| up_to_ampere(f),
        ),
        target == "sm_100"@ <==> all_are(features, |f: Feature| up_to_blackwell(f)) && !all_are(
            features,
            |f: Feature| up_to_hopper(f),
        ),
        target == "sm_90a"@ <==> features.contains(Feature::Wgmma),
        target == "sm_100a"@ <==> some_is(features, |f: Feature| wants_suffix(f))
            && !features.contains(Feature::Wgmma),
{
    lemma_candidate_names();
    assert(name_satisfies(target, features));
    assert forall|feature: Feature| #[trigger] features.contains(feature) implies feature
        == Feature::Basic || feature == Feature::Sm80 || feature == Feature::Movmatrix || feature
        == Feature::Ldmatrix || feature == Feature::Cluster || feature == Feature::Sm90 || feature
        == Feature::Tma || feature == Feature::Sm100 || feature == Feature::Wgmma || wants_suffix(
        feature,
    ) by {}
    let matrix = |f: Feature| f == Feature::Movmatrix || f == Feature::Ldmatrix;
    let suffixed = |f: Feature| wants_suffix(f);
    if features.contains(Feature::Movmatrix) {
        assert(matrix(Feature::Movmatrix));
    }
    if features.contains(Feature::Ldmatrix) {
        assert(matrix(Feature::Ldmatrix));
    }
    assert(suffixed(Feature::Blackwell)
        && suffixed(Feature::TmaCtaGroup)
        && suffixed(Feature::BlackwellAccelerated)
        && suffixed(Feature::BlackwellFamily)
        && suffixed(Feature::ReduxF32)
        && suffixed(Feature::MultimemFp8)
        && suffixed(Feature::TmaMulticast)
        && suffixed(Feature::MatrixBlackwell));
}

/// Only features of Hopper alone and of Blackwell clash.
#[verifier::rlimit(50)]
pub proof fn only_hopper_and_blackwell_clash(features: Set<Feature>)
    ensures
        incompatible(features) <==> features.contains(Feature::Wgmma) && some_is(
            features,
            |f: Feature| f == Feature::Sm100 || (wants_suffix(f) && f != Feature::TmaMulticast),
        ),
{
    lemma_candidate_names();
    let sort = |f: Feature| f == Feature::Sm100 || (wants_suffix(f) && f != Feature::TmaMulticast);
    crate::target::select::candidates_cover_every_architecture(features);
    if some_is(features, sort) && features.contains(Feature::Wgmma) {
        let f = choose|f: Feature| #[trigger] features.contains(f) && sort(f);
        assert forall|name: Seq<char>| !name_satisfies(name, features) by {
            if name_satisfies(name, features) {
                assert(features.contains(f));
                assert(features.contains(Feature::Wgmma));
            }
        }
    } else if features.contains(Feature::Wgmma) {
        assert forall|f: Feature| #[trigger] features.contains(f) implies target_has(
            90,
            Some('a'),
            f,
        ) by {
            assert(!sort(f));
        }
        assert(name_satisfies("sm_90a"@, features));
    } else {
        assert(name_satisfies("sm_100a"@, features));
    }
}

} // verus!

//! Which GPU architectures can run a feature, and which one to build for.

use vstd::prelude::*;

use crate::arch::{arch_name, lemma_name_reads_back, named_arch, CudaArch};
use crate::error::PipelineError;
use crate::target::detect::PtxIsaRequirement;
use crate::target::features::{all_features_lists_each_feature_once, description, members,
    DetectedFeatures, Feature};
use crate::text::{begins_with, chars_of, decimal, push_decimal, starts_with};

verus! {

/// The capabilities of the Blackwell generation.
pub open spec fn blackwell_capability(capability: u32) -> bool {
    ||| capability == 100
    ||| capability == 101
    ||| capability == 103
    ||| capability == 110
    ||| capability == 120
    ||| capability == 121
}

/// The targets that CUDA knows: an `a` target needs Hopper or Blackwell, an
/// `f` target needs Blackwell.
pub open spec fn cuda_target(capability: u32, suffix: Option<char>) -> bool {
    &&& {
        ||| capability == 70
        ||| capability == 72
        ||| capability == 75
        ||| capability == 80
        ||| capability == 86
        ||| capability == 87
        ||| capability == 88
        ||| capability == 89
        ||| capability == 90
        ||| blackwell_capability(capability)
    }
    &&& match suffix {
        None => true,
        Some(c) => {
            ||| c == 'a' && (capability == 90 || blackwell_capability(capability))
            ||| c == 'f' && blackwell_capability(capability)
        },
    }
}

/// Datacenter Blackwell, as an architecture-specific or a family target.
pub open spec fn datacenter_target(capability: u32, suffix: Option<char>) -> bool {
    &&& suffix == Some('a') || suffix == Some('f')
    &&& capability == 100 || capability == 101 || capability == 103 || capability == 110
}

/// Blackwell targets with the family-wide instructions.
pub open spec fn blackwell_family_target(capability: u32, suffix: Option<char>) -> bool {
    ||| suffix == Some('a') && (capability == 100 || capability == 101 || capability == 110
        || capability == 120)
    ||| suffix == Some('f') && blackwell_capability(capability)
}

/// The sm_100/sm_103 family.
pub open spec fn redux_f32_target(capability: u32, suffix: Option<char>) -> bool {
    &&& suffix == Some('a') || suffix == Some('f')
    &&& capability == 100 || capability == 103
}

/// Targets with the FP8 multimem forms: every architecture-specific Blackwell
/// target, and the datacenter families.
pub open spec fn multimem_fp8_target(capability: u32, suffix: Option<char>) -> bool {
    ||| suffix == Some('a') && blackwell_capability(capability)
    ||| suffix == Some('f') && datacenter_target(capability, suffix)
}

/// The target has `feature`.
pub open spec fn target_has(capability: u32, suffix: Option<char>, feature: Feature) -> bool {
    match feature {
        Feature::Blackwell => datacenter_target(capability, suffix),
        Feature::TmaCtaGroup => datacenter_target(capability, suffix),
        Feature::BlackwellAccelerated => datacenter_target(capability, suffix),
        Feature::BlackwellFamily => blackwell_family_target(capability, suffix),
        Feature::MatrixBlackwell => blackwell_family_target(capability, suffix),
        Feature::ReduxF32 => redux_f32_target(capability, suffix),
        Feature::MultimemFp8 => multimem_fp8_target(capability, suffix),
        Feature::TmaMulticast => capability >= 90,
        Feature::Wgmma => capability == 90 && suffix == Some('a'),
        Feature::Sm100 => blackwell_capability(capability),
        Feature::Tma => capability >= 90,
        Feature::Cluster => capability >= 90,
        Feature::Sm90 => capability >= 90,
        Feature::Sm80 => capability >= 80,
        Feature::Movmatrix => capability >= 75,
        Feature::Ldmatrix => capability >= 75,
        Feature::Basic => capability >= 70,
    }
}

/// The capability and suffix of a name that begins with `sm_`.
pub open spec fn real_arch(name: Seq<char>) -> Option<(u32, Option<char>)> {
    if begins_with(name, "sm_"@) {
        named_arch(name)
    } else {
        None
    }
}

/// The target is known and has every feature of the set.
pub open spec fn target_satisfies(
    capability: u32,
    suffix: Option<char>,
    features: Set<Feature>,
) -> bool {
    &&& cuda_target(capability, suffix)
    &&& forall|feature: Feature| #[trigger]
        features.contains(feature) ==> target_has(capability, suffix, feature)
}

/// `name` is a known target with every feature of the set.
pub open spec fn name_satisfies(name: Seq<char>, features: Set<Feature>) -> bool {
    match real_arch(name) {
        Some((capability, suffix)) => target_satisfies(capability, suffix, features),
        None => false,
    }
}

fn is_known_blackwell_capability(capability: u32) -> (known: bool)
    ensures
        known == blackwell_capability(capability),
{
    match capability {
        100 | 101 | 103 | 110 | 120 | 121 => true,
        _ => false,
    }
}

fn is_known_cuda_target(capability: u32, suffix: Option<char>) -> (known: bool)
    ensures
        known == cuda_target(capability, suffix),
{
    let known_capability = match capability {
        70 | 72 | 75 | 80 | 86 | 87 | 88 | 89 | 90 | 100 | 101 | 103 | 110 | 120 | 121 => true,
        _ => false,
    };
    known_capability && match suffix {
        None => true,
        Some('a') => capability == 90 || is_known_blackwell_capability(capability),
        Some('f') => is_known_blackwell_capability(capability),
        _ => false,
    }
}

/// tcgen05/TMEM exists only on the datacenter Blackwell architecture or family
/// targets. Architecture-specific targets are exact, not forward compatible.
/// `sm_101a` is the PTX 8.x spelling of `sm_110a`.
fn supports_tcgen_target(capability: u32, suffix: Option<char>) -> (supported: bool)
    ensures
        supported == datacenter_target(capability, suffix),
{
    (suffix == Some('a') || suffix == Some('f')) && (capability == 100 || capability == 101
        || capability == 103 || capability == 110)
}

fn supports_blackwell_accelerated_target(capability: u32, suffix: Option<char>) -> (supported: bool)
    ensures
        supported == datacenter_target(capability, suffix),
{
    supports_tcgen_target(capability, suffix)
}

fn supports_blackwell_family_target(capability: u32, suffix: Option<char>) -> (supported: bool)
    ensures
        supported == blackwell_family_target(capability, suffix),
{
    match suffix {
        Some('a') => capability == 100 || capability == 101 || capability == 110 || capability
            == 120,
        Some('f') => is_known_blackwell_capability(capability),
        _ => false,
    }
}

/// Floating-point `redux.sync` is scoped to the sm_100/sm_103 family.
fn supports_redux_f32_target(capability: u32, suffix: Option<char>) -> (supported: bool)
    ensures
        supported == redux_f32_target(capability, suffix),
{
    (suffix == Some('a') || suffix == Some('f')) && (capability == 100 || capability == 103)
}

/// FP8 / f16-accumulator multimem forms span several Blackwell architecture
/// targets, but consumer family (`f`) targets do not support the sm_120 line.
fn supports_multimem_fp8_target(capability: u32, suffix: Option<char>) -> (supported: bool)
    ensures
        supported == multimem_fp8_target(capability, suffix),
{
    match suffix {
        Some('a') => is_known_blackwell_capability(capability),
        Some('f') => supports_tcgen_target(capability, suffix),
        _ => false,
    }
}

fn arch_satisfies_feature(
    capability: u32,
    suffix: Option<char>,
    feature: Feature,
) -> (supported: bool)
    ensures
        supported == target_has(capability, suffix, feature),
{
    let major: u32 = capability / 10;
    match feature {
        Feature::Blackwell => supports_tcgen_target(capability, suffix),
        Feature::TmaCtaGroup => supports_tcgen_target(capability, suffix),
        Feature::BlackwellAccelerated => supports_blackwell_accelerated_target(capability, suffix),
        Feature::BlackwellFamily => supports_blackwell_family_target(capability, suffix),
        Feature::MatrixBlackwell => supports_blackwell_family_target(capability, suffix),
        Feature::ReduxF32 => supports_redux_f32_target(capability, suffix),
        Feature::MultimemFp8 => supports_multimem_fp8_target(capability, suffix),
        // The PTX ISA requires only sm_90+. The suffixed targets are advised
        // for performance, so target selection still prefers sm_100a.
        Feature::TmaMulticast => major >= 9,
        Feature::Wgmma => capability == 90 && suffix == Some('a'),
        Feature::Sm100 => is_known_blackwell_capability(capability),
        Feature::Tma => major >= 9,
        Feature::Cluster => major >= 9,
        Feature::Sm90 => major >= 9,
        Feature::Sm80 => major >= 8,
        Feature::Movmatrix => capability >= 75,
        Feature::Ldmatrix => capability >= 75,
        // Basic kernels are supported on the Volta+ floor. The
        // cross-compilation default remains sm_80.
        Feature::Basic => major >= 7,
    }
}

fn arch_compute_capability_and_suffix(arch: &str) -> (parsed: Option<(u32, Option<char>)>)
    ensures
        parsed == real_arch(arch@),
{
    if !starts_with(chars_of(arch).as_slice(), "sm_") {
        return None;
    }
    match CudaArch::parse(arch) {
        Ok(target) => Some((target.capability(), target.suffix())),
        Err(_) => None,
    }
}

/// Extract the numeric compute capability from an `sm_…` target.
pub fn arch_compute_capability(arch: &str) -> (capability: Option<u32>)
    ensures
        capability == match real_arch(arch@) {
            Some((capability, _)) => Some(capability),
            None => None,
        },
{
    match arch_compute_capability_and_suffix(arch) {
        Some((capability, _)) => Some(capability),
        None => None,
    }
}

/// Extract the compute-capability *major* version from an `sm_…` target.
///
/// CUDA concatenates major+minor without a separator, so `"sm_120a"` is cc 12.0
/// (major 12), `"sm_90"` is cc 9.0, `"sm_103a"` is cc 10.3.
pub fn arch_major(arch: &str) -> (major: Option<u32>)
    ensures
        major == match real_arch(arch@) {
            Some((capability, _)) => Some((capability / 10) as u32),
            None => None,
        },
{
    match arch_compute_capability(arch) {
        Some(capability) => Some(capability / 10),
        None => None,
    }
}

/// Does `arch` (e.g. `"sm_120a"`, `"sm_90"`) support the kernel's detected
/// features?
///
/// tcgen05/TMEM and explicit `cta_group` TMA forms exist only in the sm_100
/// datacenter-Blackwell family: consumer Blackwell (sm_120) and Hopper (sm_90)
/// lack them, even though 120 > 100. WGMMA is Hopper-only. The remaining
/// features are forward compatible from their floor.
pub fn arch_satisfies(arch: &str, features: DetectedFeatures) -> (satisfied: bool)
    ensures
        satisfied == name_satisfies(arch@, features@),
{
    let (capability, suffix) = match arch_compute_capability_and_suffix(arch) {
        Some(parsed) => parsed,
        None => {
            return false;
        },
    };
    if !is_known_cuda_target(capability, suffix) {
        return false;
    }
    let listed = features.iter();
    for k in 0..listed.len()
        invariant
            listed@ == members(features@),
            forall|j: int| 0 <= j < k ==> target_has(capability, suffix, #[trigger] listed@[j]),
            real_arch(arch@) == Some((capability, suffix)),
    {
        if !arch_satisfies_feature(capability, suffix, listed[k]) {
            proof {
                lemma_members(features@, listed@[k as int]);
                assert(listed@.contains(listed@[k as int]));
            }
            return false;
        }
    }
    proof {
        assert forall|feature: Feature| #[trigger] features@.contains(feature) implies target_has(
            capability,
            suffix,
            feature,
        ) by {
            lemma_members(features@, feature);
            let j = listed@.index_of(feature);
            assert(listed@[j] == feature);
        }
    }
    true
}

/// The list of members holds exactly the members.
proof fn lemma_members(features: Set<Feature>, feature: Feature)
    ensures
        members(features).contains(feature) == features.contains(feature),
{
    let pred = |feature: Feature| features.contains(feature);
    all_features_lists_each_feature_once(feature);
    broadcast use vstd::seq_lib::group_filter_ensures;

    let all = crate::target::features::all_features();
    if features.contains(feature) {
        let i = all.index_of(feature);
        assert(all[i] == feature && pred(all[i]));
        assert(all.filter(pred).contains(feature));
    }
    if members(features).contains(feature) {
        let i = all.filter(pred).index_of(feature);
        assert(pred(all.filter(pred)[i]));
    }
}

/// The established default for a module's most restrictive-looking feature.
pub open spec fn preferred_target(features: Set<Feature>) -> Seq<char> {
    if features.contains(Feature::Blackwell) || features.contains(Feature::TmaCtaGroup)
        || features.contains(Feature::BlackwellAccelerated) || features.contains(
        Feature::BlackwellFamily,
    ) || features.contains(Feature::ReduxF32) || features.contains(Feature::MultimemFp8)
        || features.contains(Feature::TmaMulticast) || features.contains(
        Feature::MatrixBlackwell,
    ) {
        "sm_100a"@
    } else if features.contains(Feature::Wgmma) {
        "sm_90a"@
    } else if features.contains(Feature::Sm100) || features.contains(Feature::Tma) {
        "sm_100"@
    } else if features.contains(Feature::Cluster) || features.contains(Feature::Sm90) {
        "sm_90"@
    } else if features.contains(Feature::Sm80) {
        "sm_80"@
    } else if features.contains(Feature::Movmatrix) || features.contains(Feature::Ldmatrix) {
        "sm_75"@
    } else {
        "sm_80"@
    }
}

/// The targets that selection tries, in order.
pub open spec fn candidates(features: Set<Feature>) -> Seq<Seq<char>> {
    seq![
        preferred_target(features),
        "sm_100a"@,
        "sm_90a"@,
        "sm_100"@,
        "sm_90"@,
        "sm_80"@,
        "sm_75"@,
    ]
}

/// `target` is the first candidate that satisfies every feature.
pub open spec fn selects(features: Set<Feature>, target: Seq<char>) -> bool {
    exists|k: int|
        {
            &&& 0 <= k < candidates(features).len()
            &&& #[trigger] candidates(features)[k] == target
            &&& name_satisfies(target, features)
            &&& forall|j: int|
                0 <= j < k ==> !name_satisfies(#[trigger] candidates(features)[j], features)
        }
}

/// No architecture has every feature of the set.
pub open spec fn incompatible(features: Set<Feature>) -> bool {
    forall|name: Seq<char>| !name_satisfies(name, features)
}

/// The diagnostic for features without a common architecture.
pub open spec fn incompatible_message(features: Set<Feature>) -> Seq<char> {
    "detected CUDA features "@ + description(features)
        + " do not share a compatible GPU architecture"@
}

/// The candidates' names, read.
pub proof fn lemma_candidate_names()
    ensures
        real_arch("sm_100a"@) == Some((100u32, Some('a'))),
        real_arch("sm_90a"@) == Some((90u32, Some('a'))),
        real_arch("sm_100"@) == Some((100u32, None::<char>)),
        real_arch("sm_90"@) == Some((90u32, None::<char>)),
        real_arch("sm_80"@) == Some((80u32, None::<char>)),
        real_arch("sm_75"@) == Some((75u32, None::<char>)),
        "sm_100a"@ == arch_name("sm_"@, 100, Some('a')),
        "sm_90a"@ == arch_name("sm_"@, 90, Some('a')),
        "sm_100"@ == arch_name("sm_"@, 100, None),
        "sm_90"@ == arch_name("sm_"@, 90, None),
        "sm_80"@ == arch_name("sm_"@, 80, None),
        "sm_75"@ == arch_name("sm_"@, 75, None),
{
    reveal_strlit("sm_");
    reveal_strlit("sm_100a");
    reveal_strlit("sm_90a");
    reveal_strlit("sm_100");
    reveal_strlit("sm_90");
    reveal_strlit("sm_80");
    reveal_strlit("sm_75");
    reveal_with_fuel(decimal, 4);
    assert(decimal(100) =~= seq!['1', '0', '0']);
    assert(decimal(90) =~= seq!['9', '0']);
    assert(decimal(80) =~= seq!['8', '0']);
    assert(decimal(75) =~= seq!['7', '5']);
    lemma_real_name("sm_100a"@, 100, Some('a'));
    lemma_real_name("sm_90a"@, 90, Some('a'));
    lemma_real_name("sm_100"@, 100, None);
    lemma_real_name("sm_90"@, 90, None);
    lemma_real_name("sm_80"@, 80, None);
    lemma_real_name("sm_75"@, 75, None);
}

pub proof fn lemma_real_name(name: Seq<char>, capability: u32, suffix: Option<char>)
    requires
        name =~= arch_name("sm_"@, capability, suffix),
        crate::arch::known_suffix(suffix),
    ensures
        real_arch(name) == Some((capability, suffix)),
{
    lemma_name_reads_back("sm_"@, capability, suffix);
    assert(name.subrange(0, "sm_"@.len() as int) =~= "sm_"@);
}

/// A selected target is spelled as the architecture that it names is spelled.
pub proof fn lemma_selected_names_are_canonical(features: Set<Feature>, target: Seq<char>)
    requires
        selects(features, target),
    ensures
        named_arch(target) == real_arch(target),
        real_arch(target) matches Some((capability, suffix)) && target == arch_name(
            "sm_"@,
            capability,
            suffix,
        ),
{
    lemma_candidate_names();
    let k = choose|k: int|
        {
            &&& 0 <= k < candidates(features).len()
            &&& #[trigger] candidates(features)[k] == target
            &&& name_satisfies(target, features)
            &&& forall|j: int|
                0 <= j < k ==> !name_satisfies(#[trigger] candidates(features)[j], features)
        };
    if k == 0 {
        assert(target == preferred_target(features));
    }
}

/// Selection tries enough candidates: where any architecture at all has every
/// feature of the set, one of the candidates has.
pub proof fn candidates_cover_every_architecture(features: Set<Feature>)
    ensures
        incompatible(features) <==> forall|k: int|
            0 <= k < candidates(features).len() ==> !name_satisfies(
                #[trigger] candidates(features)[k],
                features,
            ),
{
    lemma_candidate_names();
    let tried = candidates(features);
    if !incompatible(features) {
        let name = choose|name: Seq<char>| name_satisfies(name, features);
        if features.contains(Feature::Wgmma) {
            assert(real_arch(name) == Some((90u32, Some('a'))));
            assert(name_satisfies(tried[2], features));
        } else {
            assert(target_satisfies(100, Some('a'), features));
            assert(name_satisfies(tried[1], features));
        }
    }
}

/// A target satisfies the features of two modules together exactly where it
/// satisfies those of each.
pub proof fn requirements_add_up(name: Seq<char>, a: Set<Feature>, b: Set<Feature>)
    ensures
        name_satisfies(name, a.union(b)) <==> name_satisfies(name, a) && name_satisfies(name, b),
{
    if name_satisfies(name, a.union(b)) {
        let (capability, suffix) = real_arch(name).unwrap();
        assert forall|feature: Feature| #[trigger] a.contains(feature) implies target_has(
            capability,
            suffix,
            feature,
        ) by {
            assert(a.union(b).contains(feature));
        }
        assert forall|feature: Feature| #[trigger] b.contains(feature) implies target_has(
            capability,
            suffix,
            feature,
        ) by {
            assert(a.union(b).contains(feature));
        }
    }
}

/// A set of features selects at most one target, and its established default
/// wherever that default has every feature.
pub proof fn selection_is_unique(features: Set<Feature>, a: Seq<char>, b: Seq<char>)
    requires
        selects(features, a),
        selects(features, b),
    ensures
        a == b,
        name_satisfies(preferred_target(features), features) ==> a == preferred_target(features),
{
    assert(candidates(features)[0] == preferred_target(features));
}

/// Select a concrete architecture that satisfies every detected feature.
///
/// The first candidate preserves the established default for a module's most
/// restrictive-looking feature. The remaining candidates handle intersections
/// such as WGMMA + TMA multicast, whose only common target is `sm_90a`.
pub fn select_target(features: DetectedFeatures) -> (selected: Result<&'static str, String>)
    ensures
        selected matches Ok(target) ==> selects(features@, target@),
        selected is Err <==> incompatible(features@),
        selected matches Err(message) ==> message@ == incompatible_message(features@),
{
    let preferred: &'static str = if features.contains(Feature::Blackwell) || features.contains(
        Feature::TmaCtaGroup,
    ) || features.contains(Feature::BlackwellAccelerated) || features.contains(
        Feature::BlackwellFamily,
    ) || features.contains(Feature::ReduxF32) || features.contains(Feature::MultimemFp8)
        || features.contains(Feature::TmaMulticast) || features.contains(
        Feature::MatrixBlackwell,
    ) {
        "sm_100a"
    } else if features.contains(Feature::Wgmma) {
        "sm_90a"
    } else if features.contains(Feature::Sm100) {
        "sm_100"
    } else if features.contains(Feature::Tma) {
        // Plain TMA is compatible with Hopper, but sm_100 is the
        // cross-compilation default because it produces forward-compatible
        // PTX for generic Blackwell devices.
        "sm_100"
    } else if features.contains(Feature::Cluster) || features.contains(Feature::Sm90) {
        "sm_90"
    } else if features.contains(Feature::Sm80) {
        "sm_80"
    } else if features.contains(Feature::Movmatrix) || features.contains(Feature::Ldmatrix) {
        "sm_75"
    } else {
        "sm_80"
    };
    let tried: Vec<&'static str> = vec![
        preferred,
        "sm_100a",
        "sm_90a",
        "sm_100",
        "sm_90",
        "sm_80",
        "sm_75",
    ];
    for k in 0..tried.len()
        invariant
            tried.len() == 7,
            forall|j: int| 0 <= j < 7 ==> #[trigger] tried@[j]@ == candidates(features@)[j],
            forall|j: int|
                0 <= j < k ==> !name_satisfies(#[trigger] candidates(features@)[j], features@),
    {
        if arch_satisfies(tried[k], features) {
            proof {
                assert(candidates(features@)[k as int] == tried@[k as int]@);
                candidates_cover_every_architecture(features@);
            }
            return Ok(tried[k]);
        }
        assert(tried@[k as int]@ == candidates(features@)[k as int]);
    }
    proof {
        candidates_cover_every_architecture(features@);
    }
    let mut message = "detected CUDA features ".to_owned();
    message.append(features.describe().as_str());
    message.append(" do not share a compatible GPU architecture");
    Err(message)
}

/// The diagnostic for a target that lacks a detected feature.
pub open spec fn rejected_message(
    target: Seq<char>,
    features: Set<Feature>,
    compatible: Seq<char>,
) -> Seq<char> {
    "CUDA target "@ + target + " cannot lower detected feature "@ + description(features)
        + "; cuda-oxide requires a target compatible with "@ + compatible + " for this module"@
}

/// The diagnostic of `validate_target_features`.
pub open spec fn validation_message(
    target: Seq<char>,
    features: Set<Feature>,
    message: Seq<char>,
) -> bool {
    if incompatible(features) {
        message == incompatible_message(features)
    } else {
        exists|compatible: Seq<char>|
            selects(features, compatible) && message == #[trigger] rejected_message(
                target,
                features,
                compatible,
            )
    }
}

/// Rejects a target that lacks one of the detected features.
pub fn validate_target_features(target: &CudaArch, features: DetectedFeatures) -> (valid: Result<
    (),
    String,
>)
    ensures
        valid is Ok <==> name_satisfies(target.sm_name(), features@),
        valid matches Err(message) ==> validation_message(
            target.sm_name(),
            features@,
            message@,
        ),
{
    let compatible_default = match select_target(features) {
        Ok(compatible) => compatible,
        Err(message) => {
            return Err(message);
        },
    };
    let sm = target.sm();
    if arch_satisfies(sm.as_str(), features) {
        return Ok(());
    }
    let mut message = "CUDA target ".to_owned();
    message.append(sm.as_str());
    message.append(" cannot lower detected feature ");
    message.append(features.describe().as_str());
    message.append("; cuda-oxide requires a target compatible with ");
    message.append(compatible_default);
    message.append(" for this module");
    assert(message@ == rejected_message(target.sm_name(), features@, compatible_default@));
    Err(message)
}

/// The diagnostic for an override that names no architecture.
pub open spec fn invalid_override_message(target: Seq<char>) -> Seq<char> {
    "invalid CUDA_OXIDE_TARGET `"@ + target + "`: "@
        + "expected `sm_` or `compute_`, a compute capability and an optional `a` or `f`"@
}

/// Chooses the PTX target and says where the choice came from: an explicit
/// override, which must fit; the GPU of this machine, where it fits; or the
/// features alone.
pub fn resolve_ptx_target(
    explicit_override: Option<&str>,
    device_hint: Option<&str>,
    detected: DetectedFeatures,
) -> (resolved: Result<(String, &'static str), PipelineError>)
    ensures
        match explicit_override {
            Some(target) => match named_arch(target@) {
                None => resolved matches Err(PipelineError::PtxGeneration(message)) && message@
                    == invalid_override_message(target@),
                Some((capability, suffix)) => {
                    let name = arch_name("sm_"@, capability, suffix);
                    if name_satisfies(name, detected@) {
                        resolved matches Ok((chosen, source)) && chosen@ == name && source@
                            == "CUDA_OXIDE_TARGET"@
                    } else {
                        resolved matches Err(PipelineError::PtxGeneration(message))
                            && validation_message(name, detected@, message@)
                    }
                },
            },
            None => if device_hint matches Some(device) && name_satisfies(device@, detected@) {
                resolved matches Ok((chosen, source)) && chosen@ == device_hint.unwrap()@
                    && source@ == "detected GPU"@
            } else if incompatible(detected@) {
                resolved matches Err(PipelineError::PtxGeneration(message)) && message@
                    == incompatible_message(detected@)
            } else {
                resolved matches Ok((chosen, source)) && selects(detected@, chosen@) && source@
                    == "feature requirement"@
            },
        },
        resolved matches Ok((chosen, _)) ==> name_satisfies(chosen@, detected@),
{
    if let Some(target) = explicit_override {
        let parsed = match CudaArch::parse(target) {
            Ok(parsed) => parsed,
            Err(error) => {
                let mut message = "invalid CUDA_OXIDE_TARGET `".to_owned();
                message.append(target);
                message.append("`: ");
                message.append(error.message());
                return Err(PipelineError::PtxGeneration(message));
            },
        };
        return match validate_target_features(&parsed, detected) {
            Ok(()) => Ok((parsed.sm(), "CUDA_OXIDE_TARGET")),
            Err(message) => Err(PipelineError::PtxGeneration(message)),
        };
    }
    if let Some(device) = device_hint {
        if arch_satisfies(device, detected) {
            return Ok((device.to_owned(), "detected GPU"));
        }
    }
    match select_target(detected) {
        Ok(target) => Ok((target.to_owned(), "feature requirement")),
        Err(message) => Err(PipelineError::PtxGeneration(message)),
    }
}

/// The number of the PTX ISA, without its point.
pub open spec fn isa_number(requirement: PtxIsaRequirement) -> Option<u32> {
    match requirement {
        PtxIsaRequirement::Default => None,
        PtxIsaRequirement::Ptx62 => Some(62),
        PtxIsaRequirement::Ptx65 => Some(65),
        PtxIsaRequirement::Ptx70 => Some(70),
        PtxIsaRequirement::Ptx71 => Some(71),
        PtxIsaRequirement::Ptx78 => Some(78),
        PtxIsaRequirement::Ptx80 => Some(80),
        PtxIsaRequirement::Ptx86 => Some(86),
    }
}

/// The oldest PTX ISA that can name the target.
pub open spec fn oldest_isa(capability: u32) -> Option<u32> {
    if capability == 70 {
        Some(60)
    } else if capability == 72 {
        Some(61)
    } else if capability == 75 {
        Some(63)
    } else if capability == 80 {
        Some(70)
    } else if capability == 86 {
        Some(71)
    } else if capability == 87 {
        Some(74)
    } else if capability == 88 {
        Some(90)
    } else if capability == 89 || capability == 90 {
        Some(78)
    } else if capability == 100 || capability == 101 {
        Some(86)
    } else if capability == 103 {
        Some(88)
    } else if capability == 110 {
        Some(90)
    } else if capability == 120 {
        Some(87)
    } else if capability == 121 {
        Some(88)
    } else {
        None
    }
}

/// The ISA that must be requested for `target`: the required one, where it is
/// newer than the oldest ISA of a known target.
pub open spec fn raised_isa(target: Seq<char>, requirement: PtxIsaRequirement) -> Option<u32> {
    match (real_arch(target), isa_number(requirement)) {
        (Some((capability, _)), Some(requested)) => match oldest_isa(capability) {
            Some(minimum) if requested > minimum => Some(requested),
            _ => None,
        },
        _ => None,
    }
}

/// Minimum PTX ISA accepted by LLVM for each concrete target. Passing an
/// older `+ptxNN` feature does not merely do nothing: LLVM aborts because that
/// ISA cannot name the selected processor.
pub fn target_minimum_ptx_isa(capability: u32) -> (minimum: Option<u32>)
    ensures
        minimum == oldest_isa(capability),
{
    match capability {
        70 => Some(60),
        72 => Some(61),
        75 => Some(63),
        80 => Some(70),
        86 => Some(71),
        87 => Some(74),
        88 => Some(90),
        89 | 90 => Some(78),
        100 | 101 => Some(86),
        103 => Some(88),
        110 => Some(90),
        120 => Some(87),
        121 => Some(88),
        _ => None,
    }
}

/// The LLVM feature that requests a PTX ISA.
pub open spec fn isa_switch(requirement: PtxIsaRequirement) -> Seq<char> {
    match requirement {
        PtxIsaRequirement::Default => ""@,
        PtxIsaRequirement::Ptx62 => "+ptx62"@,
        PtxIsaRequirement::Ptx65 => "+ptx65"@,
        PtxIsaRequirement::Ptx70 => "+ptx70"@,
        PtxIsaRequirement::Ptx71 => "+ptx71"@,
        PtxIsaRequirement::Ptx78 => "+ptx78"@,
        PtxIsaRequirement::Ptx80 => "+ptx80"@,
        PtxIsaRequirement::Ptx86 => "+ptx86"@,
    }
}

/// Select the PTX ISA independently from the GPU architecture.
///
/// LLVM GPU CPUs select a default PTX ISA independently from the hardware
/// feature floor. Raise that ISA only when the selected CPU's default is too
/// old; never force a newer target back to an older PTX version.
pub fn required_ptx_feature(target: &str, requirement: PtxIsaRequirement) -> (feature: Option<
    &'static str,
>)
    ensures
        feature is Some <==> raised_isa(target@, requirement) is Some,
        feature matches Some(switch) ==> switch@ == isa_switch(requirement),
{
    let capability: u32 = match arch_compute_capability(target) {
        Some(capability) => capability,
        None => {
            return None;
        },
    };
    let minimum: u32 = match target_minimum_ptx_isa(capability) {
        Some(minimum) => minimum,
        None => {
            return None;
        },
    };
    let (requested, switch): (u32, &'static str) = match requirement {
        PtxIsaRequirement::Default => {
            return None;
        },
        PtxIsaRequirement::Ptx62 => (62, "+ptx62"),
        PtxIsaRequirement::Ptx65 => (65, "+ptx65"),
        PtxIsaRequirement::Ptx70 => (70, "+ptx70"),
        PtxIsaRequirement::Ptx71 => (71, "+ptx71"),
        PtxIsaRequirement::Ptx78 => (78, "+ptx78"),
        PtxIsaRequirement::Ptx80 => (80, "+ptx80"),
        PtxIsaRequirement::Ptx86 => (86, "+ptx86"),
    };
    if requested <= minimum {
        return None;
    }
    Some(switch)
}

/// A requested ISA is never older than what its target starts from, and the
/// requirement is met whether or not anything is requested.
pub proof fn isa_is_raised_and_never_lowered(target: Seq<char>, requirement: PtxIsaRequirement)
    requires
        real_arch(target) is Some,
        oldest_isa(real_arch(target).unwrap().0) is Some,
    ensures
        ({
            let minimum = oldest_isa(real_arch(target).unwrap().0).unwrap();
            let effective = match raised_isa(target, requirement) {
                Some(requested) => requested,
                None => minimum,
            };
            &&& effective >= minimum
            &&& isa_number(requirement) matches Some(requested) ==> effective >= requested
        }),
{
}

/// Targets whose PTX 9.0 spelling LLVM 21 mishandles.
pub open spec fn needs_llvm22(target: Seq<char>) -> bool {
    match real_arch(target) {
        Some((capability, _)) => capability == 88 || capability == 110,
        None => false,
    }
}

/// How a diagnostic names the backend.
pub open spec fn backend_name(llc_major: Option<u32>) -> Seq<char> {
    match llc_major {
        None => "an LLVM backend with an unknown version"@,
        Some(major) => "LLVM "@ + decimal(major as nat),
    }
}

/// Reject targets that the supported LLVM 21 backend silently mishandles.
///
/// LLVM 21 accepts `-mcpu=sm_88` / `sm_110*` but only prints a warning and
/// emits PTX 6.0, which ptxas then rejects. An unknown version is rejected
/// because it cannot prove that the backend knows the processor.
pub fn validate_target_for_llvm_major(target: &str, llc_major: Option<u32>) -> (valid: Result<
    (),
    String,
>)
    ensures
        valid is Err <==> needs_llvm22(target@) && match llc_major {
            Some(major) => major < 22,
            None => true,
        },
        valid matches Err(message) ==> message@ == "CUDA target "@ + target@
            + " requires LLVM 22 or newer; "@ + backend_name(llc_major)
            + " does not reliably emit valid PTX for this PTX 9.0 target"@,
{
    let affected = match arch_compute_capability(target) {
        Some(capability) => capability == 88 || capability == 110,
        None => false,
    };
    let unproven = match llc_major {
        Some(major) => major < 22,
        None => true,
    };
    if !(affected && unproven) {
        return Ok(());
    }
    let mut backend: String;
    match llc_major {
        None => {
            backend = "an LLVM backend with an unknown version".to_owned();
        },
        Some(major) => {
            backend = "LLVM ".to_owned();
            push_decimal(&mut backend, major as u64);
        },
    }
    let mut message = "CUDA target ".to_owned();
    message.append(target);
    message.append(" requires LLVM 22 or newer; ");
    message.append(backend.as_str());
    message.append(" does not reliably emit valid PTX for this PTX 9.0 target");
    Err(message)
}

} // verus!

//! The set of GPU feature requirements of one module.

use vstd::prelude::*;

use crate::text::joined;

verus! {

/// One GPU requirement that an instruction can place on its target.
#[derive(Debug, Clone, Copy, PartialEq, Eq, Structural)]
pub enum Feature {
    /// tcgen05/TMEM (Blackwell datacenter, sm_100a).
    Blackwell,
    /// Base TMA multicast (sm_90+, with architecture/family targets preferred).
    TmaMulticast,
    /// Explicit CTA-group TMA forms (Blackwell datacenter family).
    TmaCtaGroup,
    /// PTX 8.6 ldmatrix/stmatrix shapes supported on Blackwell family targets.
    MatrixBlackwell,
    /// WGMMA (Hopper only, sm_90a - not forward-compatible).
    Wgmma,
    /// TMA/mbarrier (Hopper+ compatible).
    Tma,
    /// Thread Block Clusters (sm_90+, forward-compatible).
    Cluster,
    /// Forward-compatible instructions with an sm_90 floor.
    Sm90,
    /// Forward-compatible instructions with an sm_80 floor.
    Sm80,
    /// Warp matrix register transpose introduced in PTX 7.8 on sm_75.
    Movmatrix,
    /// Warp matrix shared-memory load introduced in PTX 6.5 on sm_75.
    Ldmatrix,
    /// No special features (Volta+, with an sm_80 cross-compile default).
    Basic,
    /// Generic Blackwell-or-newer operations such as base CLC and TMA cp_mask.
    Sm100,
    /// Architecture/family-specific Blackwell features also available on consumers.
    BlackwellFamily,
    /// Architecture/family-specific datacenter Blackwell TMA modes.
    BlackwellAccelerated,
    /// Floating-point `redux.sync` (the sm_100/sm_103 architecture family).
    ReduxF32,
    /// FP8 / f16-accumulator multimem forms on supported Blackwell families.
    MultimemFp8,
}

/// Every feature, in the order in which a set lists its members.
pub open spec fn all_features() -> Seq<Feature> {
    seq![
        Feature::Blackwell,
        Feature::TmaCtaGroup,
        Feature::BlackwellAccelerated,
        Feature::BlackwellFamily,
        Feature::ReduxF32,
        Feature::MultimemFp8,
        Feature::TmaMulticast,
        Feature::MatrixBlackwell,
        Feature::Wgmma,
        Feature::Tma,
        Feature::Cluster,
        Feature::Sm90,
        Feature::Sm80,
        Feature::Movmatrix,
        Feature::Ldmatrix,
        Feature::Sm100,
        Feature::Basic,
    ]
}

impl Feature {
    /// The position of the feature's bit.
    spec fn position(self) -> u32 {
        match self {
            Feature::Blackwell => 0,
            Feature::TmaMulticast => 1,
            Feature::TmaCtaGroup => 2,
            Feature::MatrixBlackwell => 3,
            Feature::Wgmma => 4,
            Feature::Tma => 5,
            Feature::Cluster => 6,
            Feature::Sm90 => 7,
            Feature::Sm80 => 8,
            Feature::Movmatrix => 9,
            Feature::Ldmatrix => 10,
            Feature::Basic => 11,
            Feature::Sm100 => 12,
            Feature::BlackwellFamily => 13,
            Feature::BlackwellAccelerated => 14,
            Feature::ReduxF32 => 15,
            Feature::MultimemFp8 => 16,
        }
    }

    /// The feature's bit.
    spec fn mask(self) -> u32 {
        1u32 << self.position()
    }

    /// The bit that stands for this feature.
    fn bit(self) -> (bit: u32)
        ensures
            bit == self.mask(),
    {
        let position: u32 = match self {
            Feature::Blackwell => 0,
            Feature::TmaMulticast => 1,
            Feature::TmaCtaGroup => 2,
            Feature::MatrixBlackwell => 3,
            Feature::Wgmma => 4,
            Feature::Tma => 5,
            Feature::Cluster => 6,
            Feature::Sm90 => 7,
            Feature::Sm80 => 8,
            Feature::Movmatrix => 9,
            Feature::Ldmatrix => 10,
            Feature::Basic => 11,
            Feature::Sm100 => 12,
            Feature::BlackwellFamily => 13,
            Feature::BlackwellAccelerated => 14,
            Feature::ReduxF32 => 15,
            Feature::MultimemFp8 => 16,
        };
        1u32 << position
    }

    /// Every feature, in the order in which a set lists its members.
    pub fn all() -> (all: Vec<Feature>)
        ensures
            all@ == all_features(),
    {
        let all: Vec<Feature> = vec![
            Feature::Blackwell,
            Feature::TmaCtaGroup,
            Feature::BlackwellAccelerated,
            Feature::BlackwellFamily,
            Feature::ReduxF32,
            Feature::MultimemFp8,
            Feature::TmaMulticast,
            Feature::MatrixBlackwell,
            Feature::Wgmma,
            Feature::Tma,
            Feature::Cluster,
            Feature::Sm90,
            Feature::Sm80,
            Feature::Movmatrix,
            Feature::Ldmatrix,
            Feature::Sm100,
            Feature::Basic,
        ];
        assert(all@ =~= all_features());
        all
    }

    /// The feature's name, as diagnostics spell it.
    pub open spec fn spelling(self) -> Seq<char> {
        match self {
            Feature::Blackwell => "Blackwell"@,
            Feature::TmaMulticast => "TmaMulticast"@,
            Feature::TmaCtaGroup => "TmaCtaGroup"@,
            Feature::MatrixBlackwell => "MatrixBlackwell"@,
            Feature::Wgmma => "Wgmma"@,
            Feature::Tma => "Tma"@,
            Feature::Cluster => "Cluster"@,
            Feature::Sm90 => "Sm90"@,
            Feature::Sm80 => "Sm80"@,
            Feature::Movmatrix => "Movmatrix"@,
            Feature::Ldmatrix => "Ldmatrix"@,
            Feature::Basic => "Basic"@,
            Feature::Sm100 => "Sm100"@,
            Feature::BlackwellFamily => "BlackwellFamily"@,
            Feature::BlackwellAccelerated => "BlackwellAccelerated"@,
            Feature::ReduxF32 => "ReduxF32"@,
            Feature::MultimemFp8 => "MultimemFp8"@,
        }
    }

    /// The feature's name.
    pub fn name(self) -> (name: &'static str)
        ensures
            name@ == self.spelling(),
    {
        match self {
            Feature::Blackwell => "Blackwell",
            Feature::TmaMulticast => "TmaMulticast",
            Feature::TmaCtaGroup => "TmaCtaGroup",
            Feature::MatrixBlackwell => "MatrixBlackwell",
            Feature::Wgmma => "Wgmma",
            Feature::Tma => "Tma",
            Feature::Cluster => "Cluster",
            Feature::Sm90 => "Sm90",
            Feature::Sm80 => "Sm80",
            Feature::Movmatrix => "Movmatrix",
            Feature::Ldmatrix => "Ldmatrix",
            Feature::Basic => "Basic",
            Feature::Sm100 => "Sm100",
            Feature::BlackwellFamily => "BlackwellFamily",
            Feature::BlackwellAccelerated => "BlackwellAccelerated",
            Feature::ReduxF32 => "ReduxF32",
            Feature::MultimemFp8 => "MultimemFp8",
        }
    }
}

/// GPU feature requirements detected in one LLVM module.
///
/// This is a set rather than a single "strongest" feature: architecture
/// families are not totally ordered. WGMMA requires Hopper `sm_90a`, while
/// the PTX 8.6 matrix forms require Blackwell. Keeping every member lets
/// target validation enforce the intersection.
#[derive(Debug, Clone, Copy, PartialEq, Eq, Structural)]
pub struct DetectedFeatures {
    bits: u32,
}

impl View for DetectedFeatures {
    type V = Set<Feature>;

    closed spec fn view(&self) -> Set<Feature> {
        Set::new(|feature: Feature| self.bits & feature.mask() != 0)
    }
}

/// Distinct features have distinct bits, inside the low 17.
proof fn lemma_masks(a: Feature, b: Feature)
    ensures
        a.mask() & b.mask() != 0 <==> a == b,
        0 < a.mask() < 0x2_0000,
{
    let i = a.position();
    let j = b.position();
    assert((1u32 << i) & (1u32 << j) != 0 <==> i == j) by (bit_vector)
        requires
            i < 17,
            j < 17,
    ;
    assert(0 < (1u32 << i) < 0x2_0000) by (bit_vector)
        requires
            i < 17,
    ;
}

/// Every feature stands in `all_features`, once.
pub proof fn all_features_lists_each_feature_once(feature: Feature)
    ensures
        all_features().contains(feature),
        all_features().no_duplicates(),
        all_features().len() == 17,
{
    let all = all_features();
    match feature {
        Feature::Blackwell => assert(all[0] == feature),
        Feature::TmaCtaGroup => assert(all[1] == feature),
        Feature::BlackwellAccelerated => assert(all[2] == feature),
        Feature::BlackwellFamily => assert(all[3] == feature),
        Feature::ReduxF32 => assert(all[4] == feature),
        Feature::MultimemFp8 => assert(all[5] == feature),
        Feature::TmaMulticast => assert(all[6] == feature),
        Feature::MatrixBlackwell => assert(all[7] == feature),
        Feature::Wgmma => assert(all[8] == feature),
        Feature::Tma => assert(all[9] == feature),
        Feature::Cluster => assert(all[10] == feature),
        Feature::Sm90 => assert(all[11] == feature),
        Feature::Sm80 => assert(all[12] == feature),
        Feature::Movmatrix => assert(all[13] == feature),
        Feature::Ldmatrix => assert(all[14] == feature),
        Feature::Sm100 => assert(all[15] == feature),
        Feature::Basic => assert(all[16] == feature),
    }
}

/// Two sets with the same members are the same value.
pub proof fn sets_with_equal_members_are_equal(a: DetectedFeatures, b: DetectedFeatures)
    requires
        a.wf(),
        b.wf(),
        a@ == b@,
    ensures
        a == b,
{
    let x = a.bits;
    let y = b.bits;
    assert forall|feature: Feature| (x & #[trigger] feature.mask() != 0) == (y & feature.mask()
        != 0) by {
        assert(a@.contains(feature) == (x & feature.mask() != 0));
        assert(b@.contains(feature) == (y & feature.mask() != 0));
    }
    let m0 = Feature::Blackwell.mask();
    let m1 = Feature::TmaMulticast.mask();
    let m2 = Feature::TmaCtaGroup.mask();
    let m3 = Feature::MatrixBlackwell.mask();
    let m4 = Feature::Wgmma.mask();
    let m5 = Feature::Tma.mask();
    let m6 = Feature::Cluster.mask();
    let m7 = Feature::Sm90.mask();
    let m8 = Feature::Sm80.mask();
    let m9 = Feature::Movmatrix.mask();
    let m10 = Feature::Ldmatrix.mask();
    let m11 = Feature::Basic.mask();
    let m12 = Feature::Sm100.mask();
    let m13 = Feature::BlackwellFamily.mask();
    let m14 = Feature::BlackwellAccelerated.mask();
    let m15 = Feature::ReduxF32.mask();
    let m16 = Feature::MultimemFp8.mask();
    assert(x == y) by (bit_vector)
        requires
            x < 0x2_0000,
            y < 0x2_0000,
            (x & (1u32 << 0u32) != 0) == (y & (1u32 << 0u32) != 0),
            (x & (1u32 << 1u32) != 0) == (y & (1u32 << 1u32) != 0),
            (x & (1u32 << 2u32) != 0) == (y & (1u32 << 2u32) != 0),
            (x & (1u32 << 3u32) != 0) == (y & (1u32 << 3u32) != 0),
            (x & (1u32 << 4u32) != 0) == (y & (1u32 << 4u32) != 0),
            (x & (1u32 << 5u32) != 0) == (y & (1u32 << 5u32) != 0),
            (x & (1u32 << 6u32) != 0) == (y & (1u32 << 6u32) != 0),
            (x & (1u32 << 7u32) != 0) == (y & (1u32 << 7u32) != 0),
            (x & (1u32 << 8u32) != 0) == (y & (1u32 << 8u32) != 0),
            (x & (1u32 << 9u32) != 0) == (y & (1u32 << 9u32) != 0),
            (x & (1u32 << 10u32) != 0) == (y & (1u32 << 10u32) != 0),
            (x & (1u32 << 11u32) != 0) == (y & (1u32 << 11u32) != 0),
            (x & (1u32 << 12u32) != 0) == (y & (1u32 << 12u32) != 0),
            (x & (1u32 << 13u32) != 0) == (y & (1u32 << 13u32) != 0),
            (x & (1u32 << 14u32) != 0) == (y & (1u32 << 14u32) != 0),
            (x & (1u32 << 15u32) != 0) == (y & (1u32 << 15u32) != 0),
            (x & (1u32 << 16u32) != 0) == (y & (1u32 << 16u32) != 0),
    ;
}

/// The members of `features`, in the order of `all_features`.
pub open spec fn members(features: Set<Feature>) -> Seq<Feature> {
    all_features().filter(|feature: Feature| features.contains(feature))
}

/// The names of the members, separated by ` + `.
pub open spec fn description(features: Set<Feature>) -> Seq<char> {
    joined(
        members(features).map_values(|feature: Feature| feature.spelling()),
        " + "@,
    )
}

impl DetectedFeatures {
    /// Only the bits of known features are set.
    #[verifier::type_invariant]
    pub closed spec fn wf(self) -> bool {
        self.bits < 0x2_0000
    }

    /// The set with the members of both.
    pub closed spec fn either(self, other: DetectedFeatures) -> DetectedFeatures {
        DetectedFeatures { bits: self.bits | other.bits }
    }

    /// No requirement at all.
    pub fn empty() -> (features: DetectedFeatures)
        ensures
            features.wf(),
            features@ == Set::<Feature>::empty(),
    {
        let features = DetectedFeatures { bits: 0 };
        proof {
            assert forall|feature: Feature| !features@.contains(feature) by {
                let m = feature.mask();
                assert(0u32 & m == 0) by (bit_vector);
            }
            assert(features@ =~= Set::<Feature>::empty());
        }
        features
    }

    /// The set with one member.
    pub fn of(feature: Feature) -> (features: DetectedFeatures)
        ensures
            features.wf(),
            features@ == Set::<Feature>::empty().insert(feature),
    {
        proof {
            lemma_masks(feature, feature);
        }
        let features = DetectedFeatures { bits: feature.bit() };
        proof {
            assert forall|other: Feature| features@.contains(other) <==> other == feature by {
                lemma_masks(feature, other);
            }
            assert(features@ =~= Set::<Feature>::empty().insert(feature));
        }
        features
    }

    /// Has the set no member?
    pub fn is_empty(self) -> (found: bool)
        ensures
            found == (self@ == Set::<Feature>::empty()),
    {
        let none = DetectedFeatures::empty();
        proof {
            use_type_invariant(&self);
            if self@ == none@ {
                sets_with_equal_members_are_equal(self, none);
            }
        }
        self == none
    }

    /// Is `feature` a member?
    pub fn contains(self, feature: Feature) -> (found: bool)
        ensures
            found == self@.contains(feature),
    {
        self.bits & feature.bit() != 0
    }

    /// Adds `feature`.
    pub fn insert(&mut self, feature: Feature)
        ensures
            final(self).wf(),
            final(self)@ == old(self)@.insert(feature),
    {
        let single = DetectedFeatures::of(feature);
        let both = self.union(single);
        *self = both;
        assert(self@ =~= old(self)@.insert(feature));
    }

    /// The members of either set.
    pub fn union(self, other: DetectedFeatures) -> (features: DetectedFeatures)
        ensures
            features.wf(),
            features@ == self@.union(other@),
            features == self.either(other),
    {
        proof {
            use_type_invariant(&self);
            use_type_invariant(&other);
            let x = self.bits;
            let y = other.bits;
            assert(x | y < 0x2_0000) by (bit_vector)
                requires
                    x < 0x2_0000,
                    y < 0x2_0000,
            ;
        }
        let features = DetectedFeatures { bits: self.bits | other.bits };
        proof {
            let x = self.bits;
            let y = other.bits;
            assert forall|feature: Feature| #[trigger]
                features@.contains(feature) <==> self@.contains(feature) || other@.contains(
                feature,
            ) by {
                let m = feature.mask();
                assert((x | y) & m != 0 <==> x & m != 0 || y & m != 0) by (bit_vector);
            }
            assert(features@ =~= self@.union(other@));
        }
        features
    }

    /// The members, the most restrictive families first.
    pub fn iter(self) -> (listed: Vec<Feature>)
        ensures
            listed@ == members(self@),
    {
        let all = Feature::all();
        let mut listed: Vec<Feature> = Vec::new();
        let ghost pred = |feature: Feature| self@.contains(feature);
        proof {
            reveal(Seq::filter);
        }
        for k in 0..all.len()
            invariant
                all@ == all_features(),
                pred == (|feature: Feature| self@.contains(feature)),
                listed@ == all_features().take(k as int).filter(pred),
        {
            proof {
                reveal(Seq::filter);
                let next = all_features().take(k + 1);
                assert(next.drop_last() =~= all_features().take(k as int));
                assert(next.last() == all_features()[k as int]);
            }
            if self.contains(all[k]) {
                listed.push(all[k]);
            }
        }
        assert(all_features().take(17) =~= all_features());
        listed
    }

    /// The names of the members, separated by ` + `.
    pub fn describe(self) -> (text: String)
        ensures
            text@ == description(self@),
    {
        let listed = self.iter();
        let mut text = String::new();
        let ghost names = listed@.map_values(|feature: Feature| feature.spelling());
        for k in 0..listed.len()
            invariant
                names == listed@.map_values(|feature: Feature| feature.spelling()),
                text@ == joined(names.take(k as int), " + "@),
        {
            proof {
                assert(names.take(k + 1).drop_last() =~= names.take(k as int));
                assert(names.take(k + 1).last() == names[k as int]);
            }
            if k > 0 {
                text.append(" + ");
            }
            text.append(listed[k].name());
            assert(text@ =~= joined(names.take(k + 1), " + "@));
        }
        assert(names.take(names.len() as int) =~= names);
        text
    }
}

impl vstd::std_specs::ops::BitOrSpecImpl for DetectedFeatures {
    open spec fn obeys_bitor_spec() -> bool {
        true
    }

    open spec fn bitor_req(self, rhs: DetectedFeatures) -> bool {
        true
    }

    closed spec fn bitor_spec(self, rhs: DetectedFeatures) -> DetectedFeatures {
        self.either(rhs)
    }
}

impl std::ops::BitOr for DetectedFeatures {
    type Output = DetectedFeatures;

    fn bitor(self, rhs: DetectedFeatures) -> (features: DetectedFeatures)
        ensures
            features.wf(),
            features@ == self@.union(rhs@),
    {
        self.union(rhs)
    }
}

/// Sets of features are sets: the empty one has no member, a single one has that
/// member, a union has the members of both, and asking for a member tells
/// whether it is one.
pub proof fn feature_sets_are_sets(
    feature: Feature,
    other: Feature,
    empty: DetectedFeatures,
    single: DetectedFeatures,
    a: DetectedFeatures,
    b: DetectedFeatures,
    both: DetectedFeatures,
    is_member: bool,
    none: bool,
)
    requires
        call_ensures(DetectedFeatures::empty, (), empty),
        call_ensures(DetectedFeatures::of, (feature,), single),
        call_ensures(DetectedFeatures::union, (a, b), both),
        call_ensures(DetectedFeatures::contains, (a, feature), is_member),
        call_ensures(DetectedFeatures::is_empty, (a,), none),
    ensures
        !empty@.contains(other),
        single@.contains(other) <==> other == feature,
        both@.contains(other) <==> a@.contains(other) || b@.contains(other),
        is_member <==> a@.contains(feature),
        none ==> !a@.contains(other),
        a@.contains(other) ==> !none,
{
}

/// A set lists each of its members once, and nothing else.
pub proof fn feature_sets_list_their_members(
    features: DetectedFeatures,
    listed: Vec<Feature>,
    feature: Feature,
)
    requires
        call_ensures(DetectedFeatures::iter, (features,), listed),
    ensures
        listed@.contains(feature) <==> features@.contains(feature),
        listed@.no_duplicates(),
{
    let pred = |member: Feature| features@.contains(member);
    all_features_lists_each_feature_once(feature);
    broadcast use vstd::seq_lib::group_filter_ensures;

    let all = all_features();
    if features@.contains(feature) {
        let i = all.index_of(feature);
        assert(all[i] == feature && pred(all[i]));
        assert(all.filter(pred).contains(feature));
    }
    if listed@.contains(feature) {
        let i = listed@.index_of(feature);
        assert(pred(all.filter(pred)[i]));
    }
    assert(all.no_duplicates());
    lemma_filter_keeps_distinct(all, pred);
}

proof fn lemma_filter_keeps_distinct(all: Seq<Feature>, pred: spec_fn(Feature) -> bool)
    requires
        all.no_duplicates(),
    ensures
        all.filter(pred).no_duplicates(),
        forall|feature: Feature| #[trigger]
            all.filter(pred).contains(feature) ==> all.contains(feature),
    decreases all.len(),
{
    reveal(Seq::filter);
    if all.len() > 0 {
        let front = all.drop_last();
        lemma_filter_keeps_distinct(front, pred);
        let kept = front.filter(pred);
        if pred(all.last()) {
            assert(!kept.contains(all.last())) by {
                if kept.contains(all.last()) {
                    assert(front.contains(all.last()));
                }
            }
            assert forall|i: int, j: int|
                0 <= i < kept.push(all.last()).len() && 0 <= j < kept.push(all.last()).len() && i
                    != j implies kept.push(all.last())[i] != kept.push(all.last())[j] by {
                if i < kept.len() {
                    assert(kept.contains(kept[i]));
                }
                if j < kept.len() {
                    assert(kept.contains(kept[j]));
                }
            }
        }
        assert forall|feature: Feature| #[trigger]
            all.filter(pred).contains(feature) implies all.contains(feature) by {
            if kept.contains(feature) {
                assert(front.contains(feature));
                let k = front.index_of(feature);
                assert(all[k] == feature);
            } else {
                assert(all[all.len() - 1] == all.last());
            }
        }
    }
}

} // verus!

//! Architecture feature detection and PTX target selection.

use cuda_oxide::arch::CudaArch;
use cuda_oxide::error::PipelineError;
use cuda_oxide::target::detect::{
    contains_blackwell_features, contains_cluster_features,
    contains_mma_m16n8k16_f32_bf16_features, contains_mma_m16n8k16_f32_f16_features,
    contains_mma_m16n8k32_s32_s8_features, contains_mma_m16n8k8_f32_tf32_features,
    contains_mma_m8n8k4_f64_features, contains_movmatrix_features,
    contains_packed_bf16_atomic_features, contains_packed_f16_atomic_features,
    contains_sm80_features, contains_sm90_features, contains_tma_blackwell_accelerated_features,
    contains_tma_cta_group_features, contains_tma_features, contains_tma_multicast,
    contains_tma_shared_cta_destination, contains_tma_sm100_features, contains_wgmma_features,
    contains_instruction_mnemonic, detect_features_in_llvm_text,
    detect_module_requirements_in_llvm_file, detect_module_requirements_in_llvm_text,
    ModuleRequirements, PtxIsaRequirement,
};
use cuda_oxide::target::features::{DetectedFeatures, Feature};
use cuda_oxide::target::select::{
    arch_compute_capability, arch_major, arch_satisfies, required_ptx_feature, resolve_ptx_target,
    select_target, target_minimum_ptx_isa, validate_target_features,
    validate_target_for_llvm_major,
};

#[test]
fn test_feature_detection_reads_llvm_ir_snippets() {
    let llvm = r#"
        call void asm sideeffect "wgmma.fence.sync.aligned", ""()
        call void @llvm.nvvm.tcgen05.alloc()
        call void asm sideeffect "cluster.sync.aligned", ""()
        call void asm sideeffect "cp.async.bulk.tensor.2d.shared::cluster.global", ""()
        call void asm sideeffect "cp.async.ca.shared.global", ""()
    "#;

    assert!(contains_wgmma_features(llvm));
    assert!(contains_blackwell_features(llvm));
    assert!(contains_cluster_features(llvm));
    assert!(contains_tma_features(llvm));
    assert!(contains_sm80_features(llvm));
    let detected = detect_features_in_llvm_text(llvm);
    for feature in [
        Feature::Blackwell,
        Feature::Wgmma,
        Feature::Cluster,
        Feature::Tma,
        Feature::Sm80,
    ] {
        assert!(detected.contains(feature), "missing {feature:?}");
    }
    assert!(
        select_target(detected).is_err(),
        "Hopper-only WGMMA and Blackwell-only tcgen05 are incompatible"
    );
}

#[test]
fn test_sm80_detection_accepts_inline_ptx_and_nvvm_intrinsics() {
    for llvm in [
        r#"call void asm sideeffect "cp.async.ca.shared.global [%0], [%1], 4;", "l,l"()"#,
        "call void @llvm.nvvm.cp.async.ca.shared.global.8(ptr addrspace(3) %dst, ptr addrspace(1) %src)",
        r#"call void asm sideeffect "cp.async.commit_group;", ""()"#,
        "call void @llvm.nvvm.cp.async.wait.all()",
    ] {
        assert!(contains_sm80_features(llvm), "missed cp.async in {llvm}");
        assert_eq!(detect_features_in_llvm_text(llvm), DetectedFeatures::of(Feature::Sm80));
    }
}

#[test]
fn test_bf16x2_detection_matches_exact_architecture_floors() {
    for mnemonic in [
        "add.rn.bf16x2 $0, $1, $2;",
        "sub.rn.bf16x2 $0, $1, $2;",
        "mul.rn.bf16x2 $0, $1, $2;",
    ] {
        assert!(contains_sm90_features(mnemonic));
        assert!(!contains_sm80_features(mnemonic));
        assert_eq!(
            detect_features_in_llvm_text(mnemonic),
            DetectedFeatures::of(Feature::Sm90)
        );
    }

    for mnemonic in ["add.rn.bf16x2\t$0, $1, $2;", "sub.rn.bf16x2\\09$0, $1, $2;"] {
        assert_eq!(
            detect_features_in_llvm_text(mnemonic),
            DetectedFeatures::of(Feature::Sm90),
            "{mnemonic:?}"
        );
    }

    for mnemonic in [
        "fma.rn.bf16x2 $0, $1, $2, $3;",
        "fma.rn.relu.bf16x2 $0, $1, $2, $3;",
        "min.bf16x2 $0, $1, $2;",
        "max.bf16x2 $0, $1, $2;",
        "neg.bf16x2 $0, $1;",
        "abs.bf16x2 $0, $1;",
    ] {
        assert!(!contains_sm90_features(mnemonic));
        assert!(contains_sm80_features(mnemonic));
        assert_eq!(
            detect_features_in_llvm_text(mnemonic),
            DetectedFeatures::of(Feature::Sm80)
        );
    }

    for near_miss in [
        "add.rn.bf16x2x $0, $1, $2;",
        "fma.rn.bf16x2x $0, $1, $2, $3;",
        "add.rn.bf16x2\\5C09$0, $1, $2;",
    ] {
        assert!(!contains_sm90_features(near_miss));
        assert!(!contains_sm80_features(near_miss));
        assert_eq!(
            detect_features_in_llvm_text(near_miss),
            DetectedFeatures::of(Feature::Basic)
        );
    }
}

#[test]
fn dense_bf16_mma_detection_applies_exact_sm80_and_ptx70_floors() {
    let mnemonic =
        "mma.sync.aligned.m16n8k16.row.col.f32.bf16.bf16.f32 {$0}, {$1}, {$2}, {$3};";
    for spelling in [
        mnemonic,
        "mma.sync.aligned.m16n8k16.row.col.f32.bf16.bf16.f32\t{$0}, {$1}, {$2}, {$3};",
        "mma.sync.aligned.m16n8k16.row.col.f32.bf16.bf16.f32\\09{$0}, {$1}, {$2}, {$3};",
        ";mma.sync.aligned.m16n8k16.row.col.f32.bf16.bf16.f32 {$0}, {$1}, {$2}, {$3};",
        "prefix\\0Amma.sync.aligned.m16n8k16.row.col.f32.bf16.bf16.f32 {$0}, {$1}, {$2}, {$3};",
        "\"mma.sync.aligned.m16n8k16.row.col.f32.bf16.bf16.f32 {$0}, {$1}, {$2}, {$3};",
        "{mma.sync.aligned.m16n8k16.row.col.f32.bf16.bf16.f32 {$0}, {$1}, {$2}, {$3};",
        "$L:mma.sync.aligned.m16n8k16.row.col.f32.bf16.bf16.f32 {$0}, {$1}, {$2}, {$3};",
        "/* comment */mma.sync.aligned.m16n8k16.row.col.f32.bf16.bf16.f32 {$0}, {$1}, {$2}, {$3};",
        "@p mma.sync.aligned.m16n8k16.row.col.f32.bf16.bf16.f32 {$0}, {$1}, {$2}, {$3};",
        "@!%p\\09mma.sync.aligned.m16n8k16.row.col.f32.bf16.bf16.f32 {$0}, {$1}, {$2}, {$3};",
    ] {
        assert!(
            contains_mma_m16n8k16_f32_bf16_features(spelling),
            "missed {spelling:?}"
        );
    }

    let requirements = detect_module_requirements_in_llvm_text(mnemonic);
    assert_eq!(
        requirements,
        ModuleRequirements {
            features: DetectedFeatures::of(Feature::Sm80),
            ptx_isa: PtxIsaRequirement::Ptx70,
        }
    );
    assert_eq!(select_target(requirements.features).unwrap(), "sm_80");

    let lower_target =
        resolve_ptx_target(Some("sm_75"), None, requirements.features).unwrap_err();
    assert!(
        lower_target
            .message()
            .contains("cannot lower detected feature Sm80"),
        "{lower_target:?}"
    );
    let (target, _) = resolve_ptx_target(Some("sm_80"), None, requirements.features).unwrap();
    assert_eq!(target, "sm_80");

    for near_miss in [
        "mma.sync.aligned.m16n8k16.row.col.f32.f16.f16.f32 {$0}, {$1}, {$2}, {$3};",
        "mma.sync.aligned.m16n8k8.row.col.f32.bf16.bf16.f32 {$0}, {$1}, {$2}, {$3};",
        "mma.sp.sync.aligned.m16n8k16.row.col.f32.bf16.bf16.f32 {$0}, {$1}, {$2}, {$3};",
        "mma.sync.aligned.m16n8k16.row.col.f32.bf16.bf16.f32x {$0}, {$1}, {$2}, {$3};",
        "not_mma.sync.aligned.m16n8k16.row.col.f32.bf16.bf16.f32 {$0}, {$1}, {$2}, {$3};",
        "$mma.sync.aligned.m16n8k16.row.col.f32.bf16.bf16.f32 {$0}, {$1}, {$2}, {$3};",
        "%mma.sync.aligned.m16n8k16.row.col.f32.bf16.bf16.f32 {$0}, {$1}, {$2}, {$3};",
        "@mma.sync.aligned.m16n8k16.row.col.f32.bf16.bf16.f32 {$0}, {$1}, {$2}, {$3};",
        "!mma.sync.aligned.m16n8k16.row.col.f32.bf16.bf16.f32 {$0}, {$1}, {$2}, {$3};",
        "@!mma.sync.aligned.m16n8k16.row.col.f32.bf16.bf16.f32 {$0}, {$1}, {$2}, {$3};",
        "not$mma.sync.aligned.m16n8k16.row.col.f32.bf16.bf16.f32 {$0}, {$1}, {$2}, {$3};",
        "/mma.sync.aligned.m16n8k16.row.col.f32.bf16.bf16.f32 {$0}, {$1}, {$2}, {$3};",
        ")mma.sync.aligned.m16n8k16.row.col.f32.bf16.bf16.f32 {$0}, {$1}, {$2}, {$3};",
    ] {
        assert!(
            !contains_mma_m16n8k16_f32_bf16_features(near_miss),
            "matched {near_miss:?}"
        );
    }

    let combined = format!(
        "{mnemonic}\n{}",
        "movmatrix.sync.aligned.m8n8.trans.b16 $0, $1;"
    );
    assert_eq!(
        detect_module_requirements_in_llvm_text(&combined),
        ModuleRequirements {
            features: DetectedFeatures::of(Feature::Sm80) | DetectedFeatures::of(Feature::Movmatrix),
            ptx_isa: PtxIsaRequirement::Ptx78,
        }
    );
}

#[test]
fn packed_atomic_detection_enforces_native_architecture_and_ptx_floors() {
    for f16 in [
        "atom.global.add.noftz.f16x2 $0, [$1], $2;",
        "atom.global.add.noftz.f16x2\t$0, [$1], $2;",
        "atom.global.add.noftz.f16x2\\09$0, [$1], $2;",
        ";atom.global.add.noftz.f16x2 $0, [$1], $2;",
        "prefix\\0Aatom.global.add.noftz.f16x2 $0, [$1], $2;",
        "\"atom.global.add.noftz.f16x2 $0, [$1], $2;",
        "{atom.global.add.noftz.f16x2 $0, [$1], $2;",
        "$L:atom.global.add.noftz.f16x2 $0, [$1], $2;",
        "/* comment */atom.global.add.noftz.f16x2 $0, [$1], $2;",
        "@p atom.global.add.noftz.f16x2 $0, [$1], $2;",
        "@!%p\\09atom.global.add.noftz.f16x2 $0, [$1], $2;",
    ] {
        assert!(contains_packed_f16_atomic_features(f16), "{f16:?}");
        assert!(!contains_packed_bf16_atomic_features(f16), "{f16:?}");
        assert_eq!(detect_features_in_llvm_text(f16), DetectedFeatures::of(Feature::Basic));
        assert_eq!(
            detect_module_requirements_in_llvm_text(f16).ptx_isa,
            PtxIsaRequirement::Ptx62
        );
    }
    assert_eq!(
        required_ptx_feature("sm_70", PtxIsaRequirement::Ptx62),
        Some("+ptx62")
    );
    assert_eq!(
        resolve_ptx_target(Some("sm_70"), None, DetectedFeatures::of(Feature::Basic))
            .unwrap()
            .0,
        "sm_70"
    );

    for bf16 in [
        "atom.global.add.noftz.bf16x2 $0, [$1], $2;",
        "atom.global.add.noftz.bf16x2\t$0, [$1], $2;",
        "atom.global.add.noftz.bf16x2\\0A$0, [$1], $2;",
    ] {
        assert!(contains_packed_bf16_atomic_features(bf16), "{bf16:?}");
        assert!(!contains_packed_f16_atomic_features(bf16), "{bf16:?}");
        assert_eq!(detect_features_in_llvm_text(bf16), DetectedFeatures::of(Feature::Sm90));
        assert_eq!(
            detect_module_requirements_in_llvm_text(bf16).ptx_isa,
            PtxIsaRequirement::Ptx78
        );
    }
    assert_eq!(select_target(DetectedFeatures::of(Feature::Sm90)).unwrap(), "sm_90");
    let rejected = resolve_ptx_target(Some("sm_80"), None, DetectedFeatures::of(Feature::Sm90))
        .expect_err("native bf16x2 atomic add must reject sm_80")
        .message()
        .to_string();
    assert!(rejected.contains("cannot lower detected feature Sm90"));
    let near_miss = resolve_ptx_target(Some("sm_89"), None, DetectedFeatures::of(Feature::Sm90))
        .expect_err("the architecture immediately below sm_90 must be rejected")
        .message()
        .to_string();
    assert!(near_miss.contains("cannot lower detected feature Sm90"));

    let both = "atom.global.add.noftz.f16x2 $0, [$1], $2; \
                atom.global.add.noftz.bf16x2 $0, [$1], $2;";
    let requirements = detect_module_requirements_in_llvm_text(both);
    assert_eq!(requirements.features, DetectedFeatures::of(Feature::Sm90));
    assert_eq!(requirements.ptx_isa, PtxIsaRequirement::Ptx78);

    let dense_bf16_mma =
        "mma.sync.aligned.m16n8k16.row.col.f32.bf16.bf16.f32 {$0}, {$1}, {$2}, {$3};";
    let mma_f16_requirements = detect_module_requirements_in_llvm_text(&format!(
        "{dense_bf16_mma}\natom.global.add.noftz.f16x2 $0, [$1], $2;"
    ));
    assert_eq!(
        mma_f16_requirements,
        ModuleRequirements {
            features: DetectedFeatures::of(Feature::Sm80),
            ptx_isa: PtxIsaRequirement::Ptx70,
        }
    );
    assert_eq!(
        select_target(mma_f16_requirements.features).unwrap(),
        "sm_80"
    );

    let mma_bf16_requirements = detect_module_requirements_in_llvm_text(&format!(
        "{dense_bf16_mma}\natom.global.add.noftz.bf16x2 $0, [$1], $2;"
    ));
    assert_eq!(
        mma_bf16_requirements,
        ModuleRequirements {
            features: DetectedFeatures::of(Feature::Sm90) | DetectedFeatures::of(Feature::Sm80),
            ptx_isa: PtxIsaRequirement::Ptx78,
        }
    );
    assert_eq!(
        select_target(mma_bf16_requirements.features).unwrap(),
        "sm_90"
    );

    for near_miss in [
        "atom.global.add.noftz.f16x2x $0, [$1], $2;",
        "atom.global.add.noftz.bf16x2x $0, [$1], $2;",
        "not_atom.global.add.noftz.f16x2 $0, [$1], $2;",
        "not_atom.global.add.noftz.bf16x2 $0, [$1], $2;",
        "not.atom.global.add.noftz.f16x2 $0, [$1], $2;",
        "not.atom.global.add.noftz.bf16x2 $0, [$1], $2;",
        "$atom.global.add.noftz.f16x2 $0, [$1], $2;",
        "%atom.global.add.noftz.bf16x2 $0, [$1], $2;",
        "@atom.global.add.noftz.f16x2 $0, [$1], $2;",
        "!atom.global.add.noftz.bf16x2 $0, [$1], $2;",
        "@!atom.global.add.noftz.f16x2 $0, [$1], $2;",
        "not$atom.global.add.noftz.f16x2 $0, [$1], $2;",
        "/atom.global.add.noftz.bf16x2 $0, [$1], $2;",
        ")atom.global.add.noftz.f16x2 $0, [$1], $2;",
        "atom.shared.add.noftz.f16x2 $0, [$1], $2;",
        "atom.global.add.bf16x2 $0, [$1], $2;",
        "red.global.add.noftz.bf16x2 [$0], $1;",
        "atom.global.add.noftz.f16x2\\5C09$0, [$1], $2;",
    ] {
        assert!(!contains_packed_f16_atomic_features(near_miss));
        assert!(!contains_packed_bf16_atomic_features(near_miss));
        assert_eq!(
            detect_module_requirements_in_llvm_text(near_miss),
            ModuleRequirements {
                features: DetectedFeatures::of(Feature::Basic),
                ptx_isa: PtxIsaRequirement::Default,
            },
            "{near_miss:?}"
        );
    }
}

#[test]
fn fp64_mma_and_packed_atomics_take_the_strongest_target_floor() {
    let dense_bf16_mma =
        "mma.sync.aligned.m16n8k16.row.col.f32.bf16.bf16.f32 {$0}, {$1}, {$2}, {$3};";
    let dense_fp64_mma =
        "mma.sync.aligned.m8n8k4.row.col.f64.f64.f64.f64 {$0, $1}, {$2}, {$3}, {$4, $5};";

    let fp64_f16_requirements = detect_module_requirements_in_llvm_text(&format!(
        "{dense_fp64_mma}\natom.global.add.noftz.f16x2 $0, [$1], $2;"
    ));
    assert_eq!(
        fp64_f16_requirements,
        ModuleRequirements {
            features: DetectedFeatures::of(Feature::Sm80),
            ptx_isa: PtxIsaRequirement::Ptx70,
        }
    );
    assert_eq!(
        select_target(fp64_f16_requirements.features).unwrap(),
        "sm_80"
    );

    let fp64_bf16_requirements = detect_module_requirements_in_llvm_text(&format!(
        "{dense_fp64_mma}\natom.global.add.noftz.bf16x2 $0, [$1], $2;"
    ));
    assert_eq!(
        fp64_bf16_requirements,
        ModuleRequirements {
            features: DetectedFeatures::of(Feature::Sm90) | DetectedFeatures::of(Feature::Sm80),
            ptx_isa: PtxIsaRequirement::Ptx78,
        }
    );
    assert_eq!(
        select_target(fp64_bf16_requirements.features).unwrap(),
        "sm_90"
    );

    let all_four = format!(
        "{dense_bf16_mma}\n{dense_fp64_mma}\n\
         atom.global.add.noftz.f16x2 $0, [$1], $2;\n\
         atom.global.add.noftz.bf16x2 $0, [$1], $2;"
    );
    let all_four_requirements = detect_module_requirements_in_llvm_text(&all_four);
    assert_eq!(
        all_four_requirements,
        ModuleRequirements {
            features: DetectedFeatures::of(Feature::Sm90) | DetectedFeatures::of(Feature::Sm80),
            ptx_isa: PtxIsaRequirement::Ptx78,
        }
    );
    assert_eq!(
        select_target(all_four_requirements.features).unwrap(),
        "sm_90"
    );
}

#[test]
fn dense_f16_mma_detection_applies_exact_sm80_and_ptx70_floors() {
    let mnemonic = "mma.sync.aligned.m16n8k16.row.col.f32.f16.f16.f32 {$0}, {$1}, {$2}, {$3};";
    for spelling in [
        mnemonic,
        "mma.sync.aligned.m16n8k16.row.col.f32.f16.f16.f32\t{$0}, {$1}, {$2}, {$3};",
        "mma.sync.aligned.m16n8k16.row.col.f32.f16.f16.f32\\09{$0}, {$1}, {$2}, {$3};",
        ";mma.sync.aligned.m16n8k16.row.col.f32.f16.f16.f32 {$0}, {$1}, {$2}, {$3};",
        "prefix\\0Amma.sync.aligned.m16n8k16.row.col.f32.f16.f16.f32 {$0}, {$1}, {$2}, {$3};",
        "\"mma.sync.aligned.m16n8k16.row.col.f32.f16.f16.f32 {$0}, {$1}, {$2}, {$3};",
        "{mma.sync.aligned.m16n8k16.row.col.f32.f16.f16.f32 {$0}, {$1}, {$2}, {$3};",
        "$L:mma.sync.aligned.m16n8k16.row.col.f32.f16.f16.f32 {$0}, {$1}, {$2}, {$3};",
        "/* comment */mma.sync.aligned.m16n8k16.row.col.f32.f16.f16.f32 {$0}, {$1}, {$2}, {$3};",
        "@p mma.sync.aligned.m16n8k16.row.col.f32.f16.f16.f32 {$0}, {$1}, {$2}, {$3};",
        "@!%p\\09mma.sync.aligned.m16n8k16.row.col.f32.f16.f16.f32 {$0}, {$1}, {$2}, {$3};",
    ] {
        assert!(
            contains_mma_m16n8k16_f32_f16_features(spelling),
            "missed {spelling:?}"
        );
    }

    let requirements = detect_module_requirements_in_llvm_text(mnemonic);
    assert_eq!(
        requirements,
        ModuleRequirements {
            features: DetectedFeatures::of(Feature::Sm80),
            ptx_isa: PtxIsaRequirement::Ptx70,
        }
    );
    assert_eq!(select_target(requirements.features).unwrap(), "sm_80");

    let lower_target =
        resolve_ptx_target(Some("sm_75"), None, requirements.features).unwrap_err();
    assert!(
        lower_target
            .message()
            .contains("cannot lower detected feature Sm80"),
        "{lower_target:?}"
    );
    let (target, _) = resolve_ptx_target(Some("sm_80"), None, requirements.features).unwrap();
    assert_eq!(target, "sm_80");

    for near_miss in [
        "mma.sync.aligned.m16n8k16.row.col.f32.bf16.bf16.f32 {$0}, {$1}, {$2}, {$3};",
        "mma.sync.aligned.m16n8k8.row.col.f32.f16.f16.f32 {$0}, {$1}, {$2}, {$3};",
        "mma.sp.sync.aligned.m16n8k16.row.col.f32.f16.f16.f32 {$0}, {$1}, {$2}, {$3};",
        "mma.sync.aligned.m16n8k16.row.col.f32.f16.f16.f32x {$0}, {$1}, {$2}, {$3};",
        "not_mma.sync.aligned.m16n8k16.row.col.f32.f16.f16.f32 {$0}, {$1}, {$2}, {$3};",
        "$mma.sync.aligned.m16n8k16.row.col.f32.f16.f16.f32 {$0}, {$1}, {$2}, {$3};",
        "%mma.sync.aligned.m16n8k16.row.col.f32.f16.f16.f32 {$0}, {$1}, {$2}, {$3};",
        "@mma.sync.aligned.m16n8k16.row.col.f32.f16.f16.f32 {$0}, {$1}, {$2}, {$3};",
        "!mma.sync.aligned.m16n8k16.row.col.f32.f16.f16.f32 {$0}, {$1}, {$2}, {$3};",
        "@!mma.sync.aligned.m16n8k16.row.col.f32.f16.f16.f32 {$0}, {$1}, {$2}, {$3};",
        "not$mma.sync.aligned.m16n8k16.row.col.f32.f16.f16.f32 {$0}, {$1}, {$2}, {$3};",
        "/mma.sync.aligned.m16n8k16.row.col.f32.f16.f16.f32 {$0}, {$1}, {$2}, {$3};",
        ")mma.sync.aligned.m16n8k16.row.col.f32.f16.f16.f32 {$0}, {$1}, {$2}, {$3};",
    ] {
        assert!(
            !contains_mma_m16n8k16_f32_f16_features(near_miss),
            "matched {near_miss:?}"
        );
    }

    let combined = format!(
        "{mnemonic}\n{}",
        "movmatrix.sync.aligned.m8n8.trans.b16 $0, $1;"
    );
    assert_eq!(
        detect_module_requirements_in_llvm_text(&combined),
        ModuleRequirements {
            features: DetectedFeatures::of(Feature::Sm80) | DetectedFeatures::of(Feature::Movmatrix),
            ptx_isa: PtxIsaRequirement::Ptx78,
        }
    );
}

#[test]
fn tf32_mma_detection_applies_exact_sm80_and_ptx70_floors() {
    let mnemonic = "mma.sync.aligned.m16n8k8.row.col.f32.tf32.tf32.f32 {$0, $1, $2, $3}, {$4, $5, $6, $7}, {$8, $9}, {$10, $11, $12, $13};";
    for spelling in [
        mnemonic,
        "mma.sync.aligned.m16n8k8.row.col.f32.tf32.tf32.f32\t{$0}, {$1}, {$2}, {$3};",
        "mma.sync.aligned.m16n8k8.row.col.f32.tf32.tf32.f32\\09{$0}, {$1}, {$2}, {$3};",
        ";mma.sync.aligned.m16n8k8.row.col.f32.tf32.tf32.f32 {$0}, {$1}, {$2}, {$3};",
        "prefix\\0Amma.sync.aligned.m16n8k8.row.col.f32.tf32.tf32.f32 {$0}, {$1}, {$2}, {$3};",
        "\"mma.sync.aligned.m16n8k8.row.col.f32.tf32.tf32.f32 {$0}, {$1}, {$2}, {$3};",
        "{mma.sync.aligned.m16n8k8.row.col.f32.tf32.tf32.f32 {$0}, {$1}, {$2}, {$3};",
        "$L:mma.sync.aligned.m16n8k8.row.col.f32.tf32.tf32.f32 {$0}, {$1}, {$2}, {$3};",
        "/* comment */mma.sync.aligned.m16n8k8.row.col.f32.tf32.tf32.f32 {$0}, {$1}, {$2}, {$3};",
        "@p mma.sync.aligned.m16n8k8.row.col.f32.tf32.tf32.f32 {$0}, {$1}, {$2}, {$3};",
        "@!%p\\09mma.sync.aligned.m16n8k8.row.col.f32.tf32.tf32.f32 {$0}, {$1}, {$2}, {$3};",
    ] {
        assert!(
            contains_mma_m16n8k8_f32_tf32_features(spelling),
            "missed {spelling:?}"
        );
    }

    let requirements = detect_module_requirements_in_llvm_text(mnemonic);
    assert_eq!(requirements.features, DetectedFeatures::of(Feature::Sm80));
    assert_eq!(requirements.ptx_isa, PtxIsaRequirement::Ptx70);
    let (target, _) =
        resolve_ptx_target(None, None, requirements.features).expect("auto-resolve");
    assert_eq!(target, "sm_80");

    for near_miss in [
        "mma.sync.aligned.m16n8k8.row.col.f32.f16.f16.f32 {$0}, {$1}, {$2}, {$3};",
        "mma.sync.aligned.m16n8k16.row.col.f32.tf32.tf32.f32 {$0}, {$1}, {$2}, {$3};",
        "mma.sp.sync.aligned.m16n8k8.row.col.f32.tf32.tf32.f32 {$0}, {$1}, {$2}, {$3};",
        "mma.sync.aligned.m16n8k8.row.col.f32.tf32.tf32.f32x {$0}, {$1}, {$2}, {$3};",
        "not_mma.sync.aligned.m16n8k8.row.col.f32.tf32.tf32.f32 {$0}, {$1}, {$2}, {$3};",
        "$mma.sync.aligned.m16n8k8.row.col.f32.tf32.tf32.f32 {$0}, {$1}, {$2}, {$3};",
        "%mma.sync.aligned.m16n8k8.row.col.f32.tf32.tf32.f32 {$0}, {$1}, {$2}, {$3};",
        "@mma.sync.aligned.m16n8k8.row.col.f32.tf32.tf32.f32 {$0}, {$1}, {$2}, {$3};",
        "!mma.sync.aligned.m16n8k8.row.col.f32.tf32.tf32.f32 {$0}, {$1}, {$2}, {$3};",
        "@!mma.sync.aligned.m16n8k8.row.col.f32.tf32.tf32.f32 {$0}, {$1}, {$2}, {$3};",
        "not$mma.sync.aligned.m16n8k8.row.col.f32.tf32.tf32.f32 {$0}, {$1}, {$2}, {$3};",
        "/mma.sync.aligned.m16n8k8.row.col.f32.tf32.tf32.f32 {$0}, {$1}, {$2}, {$3};",
        ")mma.sync.aligned.m16n8k8.row.col.f32.tf32.tf32.f32 {$0}, {$1}, {$2}, {$3};",
    ] {
        assert!(
            !contains_mma_m16n8k8_f32_tf32_features(near_miss),
            "matched {near_miss:?}"
        );
    }

    let sm_75: CudaArch = CudaArch::parse("sm_75").unwrap();
    let sm_80: CudaArch = CudaArch::parse("sm_80").unwrap();
    assert!(validate_target_features(&sm_75, requirements.features).is_err());
    assert!(validate_target_features(&sm_80, requirements.features).is_ok());
    let error = resolve_ptx_target(Some("sm_75"), None, requirements.features)
        .expect_err("sm_75 must not accept TF32 tensor-core MMA")
        .message()
        .to_string();
    assert!(
        error.contains("cannot lower detected feature Sm80"),
        "{error}"
    );

    let combined = format!("{mnemonic}\nmovmatrix.sync.aligned.m8n8.trans.b16 $0, $1;");
    assert_eq!(
        detect_module_requirements_in_llvm_text(&combined),
        ModuleRequirements {
            features: DetectedFeatures::of(Feature::Sm80) | DetectedFeatures::of(Feature::Movmatrix),
            ptx_isa: PtxIsaRequirement::Ptx78,
        }
    );
}

#[test]
fn int8_mma_detection_applies_exact_sm80_and_ptx70_floors() {
    let mnemonic = "mma.sync.aligned.m16n8k32.row.col.s32.s8.s8.s32 {$0, $1, $2, $3}, {$4, $5, $6, $7}, {$8, $9}, {$10, $11, $12, $13};";
    let satfinite_mnemonic = "mma.sync.aligned.m16n8k32.row.col.satfinite.s32.s8.s8.s32 {$0, $1, $2, $3}, {$4, $5, $6, $7}, {$8, $9}, {$10, $11, $12, $13};";
    for spelling in [
        mnemonic,
        satfinite_mnemonic,
        "mma.sync.aligned.m16n8k32.row.col.s32.s8.s8.s32\t{$0}, {$1}, {$2}, {$3};",
        "mma.sync.aligned.m16n8k32.row.col.s32.s8.s8.s32\\09{$0}, {$1}, {$2}, {$3};",
        "mma.sync.aligned.m16n8k32.row.col.satfinite.s32.s8.s8.s32\t{$0}, {$1}, {$2}, {$3};",
        "mma.sync.aligned.m16n8k32.row.col.satfinite.s32.s8.s8.s32\\09{$0}, {$1}, {$2}, {$3};",
        ";mma.sync.aligned.m16n8k32.row.col.s32.s8.s8.s32 {$0}, {$1}, {$2}, {$3};",
        ";mma.sync.aligned.m16n8k32.row.col.satfinite.s32.s8.s8.s32 {$0}, {$1}, {$2}, {$3};",
        "prefix\\0Amma.sync.aligned.m16n8k32.row.col.s32.s8.s8.s32 {$0}, {$1}, {$2}, {$3};",
        "\"mma.sync.aligned.m16n8k32.row.col.s32.s8.s8.s32 {$0}, {$1}, {$2}, {$3};",
        "{mma.sync.aligned.m16n8k32.row.col.s32.s8.s8.s32 {$0}, {$1}, {$2}, {$3};",
        "$L:mma.sync.aligned.m16n8k32.row.col.s32.s8.s8.s32 {$0}, {$1}, {$2}, {$3};",
        "/* comment */mma.sync.aligned.m16n8k32.row.col.s32.s8.s8.s32 {$0}, {$1}, {$2}, {$3};",
        "@p mma.sync.aligned.m16n8k32.row.col.s32.s8.s8.s32 {$0}, {$1}, {$2}, {$3};",
        "@!%p\\09mma.sync.aligned.m16n8k32.row.col.s32.s8.s8.s32 {$0}, {$1}, {$2}, {$3};",
        "@p mma.sync.aligned.m16n8k32.row.col.satfinite.s32.s8.s8.s32 {$0}, {$1}, {$2}, {$3};",
    ] {
        assert!(
            contains_mma_m16n8k32_s32_s8_features(spelling),
            "missed {spelling:?}"
        );
    }

    for spelling in [mnemonic, satfinite_mnemonic] {
        let requirements = detect_module_requirements_in_llvm_text(spelling);
        assert_eq!(requirements.features, DetectedFeatures::of(Feature::Sm80), "{spelling}");
        assert_eq!(requirements.ptx_isa, PtxIsaRequirement::Ptx70, "{spelling}");
    }
    let requirements = detect_module_requirements_in_llvm_text(mnemonic);
    let (target, _) =
        resolve_ptx_target(None, None, requirements.features).expect("auto-resolve");
    assert_eq!(target, "sm_80");

    for near_miss in [
        "mma.sync.aligned.m16n8k16.row.col.s32.s8.s8.s32 {$0}, {$1}, {$2}, {$3};",
        "mma.sync.aligned.m16n8k32.col.row.s32.s8.s8.s32 {$0}, {$1}, {$2}, {$3};",
        "mma.sp.sync.aligned.m16n8k32.row.col.s32.s8.s8.s32 {$0}, {$1}, {$2}, {$3};",
        "mma.sync.aligned.m16n8k32.row.col.s32.s8.s8.s32x {$0}, {$1}, {$2}, {$3};",
        "mma.sync.aligned.m16n8k32.row.col.s32.s8.s8.s32.satfinite {$0}, {$1}, {$2}, {$3};",
        "mma.sync.aligned.m16n8k32.row.col.satfiniteX.s32.s8.s8.s32 {$0}, {$1}, {$2}, {$3};",
        "mma.sync.aligned.m16n8k32.row.col.satfinite.s32.s8.s8.s32x {$0}, {$1}, {$2}, {$3};",
        "mma.sync.aligned.m16n8k32.row.col.satfinite.s32.s8.s8.u32 {$0}, {$1}, {$2}, {$3};",
        "mma.sync.aligned.m16n8k32.row.col.satfinite.s32.s8.s32 {$0}, {$1}, {$2}, {$3};",
        "not_mma.sync.aligned.m16n8k32.row.col.s32.s8.s8.s32 {$0}, {$1}, {$2}, {$3};",
        "$mma.sync.aligned.m16n8k32.row.col.s32.s8.s8.s32 {$0}, {$1}, {$2}, {$3};",
        "$mma.sync.aligned.m16n8k32.row.col.satfinite.s32.s8.s8.s32 {$0}, {$1}, {$2}, {$3};",
        "%mma.sync.aligned.m16n8k32.row.col.s32.s8.s8.s32 {$0}, {$1}, {$2}, {$3};",
        "@mma.sync.aligned.m16n8k32.row.col.s32.s8.s8.s32 {$0}, {$1}, {$2}, {$3};",
        "!mma.sync.aligned.m16n8k32.row.col.s32.s8.s8.s32 {$0}, {$1}, {$2}, {$3};",
        "@!mma.sync.aligned.m16n8k32.row.col.s32.s8.s8.s32 {$0}, {$1}, {$2}, {$3};",
        "not$mma.sync.aligned.m16n8k32.row.col.s32.s8.s8.s32 {$0}, {$1}, {$2}, {$3};",
        "/mma.sync.aligned.m16n8k32.row.col.s32.s8.s8.s32 {$0}, {$1}, {$2}, {$3};",
        ")mma.sync.aligned.m16n8k32.row.col.s32.s8.s8.s32 {$0}, {$1}, {$2}, {$3};",
    ] {
        assert!(
            !contains_mma_m16n8k32_s32_s8_features(near_miss),
            "matched {near_miss:?}"
        );
    }

    let sm_75: CudaArch = CudaArch::parse("sm_75").unwrap();
    let sm_80: CudaArch = CudaArch::parse("sm_80").unwrap();
    assert!(validate_target_features(&sm_75, requirements.features).is_err());
    assert!(validate_target_features(&sm_80, requirements.features).is_ok());
    let error = resolve_ptx_target(Some("sm_75"), None, requirements.features)
        .expect_err("sm_75 must not accept INT8 tensor-core MMA")
        .message()
        .to_string();
    assert!(
        error.contains("cannot lower detected feature Sm80"),
        "{error}"
    );

    let combined = format!("{mnemonic}\nmovmatrix.sync.aligned.m8n8.trans.b16 $0, $1;");
    assert_eq!(
        detect_module_requirements_in_llvm_text(&combined),
        ModuleRequirements {
            features: DetectedFeatures::of(Feature::Sm80) | DetectedFeatures::of(Feature::Movmatrix),
            ptx_isa: PtxIsaRequirement::Ptx78,
        }
    );
}

#[test]
fn mma_m8n8k4_f64_detection_enforces_sm80_and_ptx70() {
    let mnemonic = "mma.sync.aligned.m8n8k4.row.col.f64.f64.f64.f64 {$0, $1}, {$2}, {$3}, {$4, $5};";
    for spelling in [
        mnemonic,
        "mma.sync.aligned.m8n8k4.row.col.f64.f64.f64.f64\t{$0, $1}, {$2}, {$3}, {$4, $5};",
        "mma.sync.aligned.m8n8k4.row.col.f64.f64.f64.f64\n{$0, $1}, {$2}, {$3}, {$4, $5};",
        "mma.sync.aligned.m8n8k4.row.col.f64.f64.f64.f64\\09{$0, $1}, {$2}, {$3}, {$4, $5};",
        "mma.sync.aligned.m8n8k4.row.col.f64.f64.f64.f64\\0A{$0, $1}, {$2}, {$3}, {$4, $5};",
        ";mma.sync.aligned.m8n8k4.row.col.f64.f64.f64.f64 {$0, $1}, {$2}, {$3}, {$4, $5};",
        "prefix\\0Amma.sync.aligned.m8n8k4.row.col.f64.f64.f64.f64 {$0, $1}, {$2}, {$3}, {$4, $5};",
        "\"mma.sync.aligned.m8n8k4.row.col.f64.f64.f64.f64 {$0, $1}, {$2}, {$3}, {$4, $5};",
        "{mma.sync.aligned.m8n8k4.row.col.f64.f64.f64.f64 {$0, $1}, {$2}, {$3}, {$4, $5};",
        "$L:mma.sync.aligned.m8n8k4.row.col.f64.f64.f64.f64 {$0, $1}, {$2}, {$3}, {$4, $5};",
        "/* comment */mma.sync.aligned.m8n8k4.row.col.f64.f64.f64.f64 {$0, $1}, {$2}, {$3}, {$4, $5};",
        "@p mma.sync.aligned.m8n8k4.row.col.f64.f64.f64.f64 {$0, $1}, {$2}, {$3}, {$4, $5};",
        "@!%p\\09mma.sync.aligned.m8n8k4.row.col.f64.f64.f64.f64 {$0, $1}, {$2}, {$3}, {$4, $5};",
    ] {
        assert!(contains_mma_m8n8k4_f64_features(spelling), "{spelling:?}");
    }

    let requirements = detect_module_requirements_in_llvm_text(mnemonic);
    assert_eq!(
        requirements,
        ModuleRequirements {
            features: DetectedFeatures::of(Feature::Sm80),
            ptx_isa: PtxIsaRequirement::Ptx70,
        }
    );
    assert_eq!(select_target(requirements.features).unwrap(), "sm_80");

    for near_miss in [
        "mma.sync.aligned.m16n8k4.row.col.f64.f64.f64.f64 {$0, $1}, {$2}, {$3}, {$4, $5};",
        "mma.sync.aligned.m8n8k4.col.row.f64.f64.f64.f64 {$0, $1}, {$2}, {$3}, {$4, $5};",
        "mma.sync.aligned.m8n8k4.row.col.f32.f64.f64.f64 {$0, $1}, {$2}, {$3}, {$4, $5};",
        "mma.sync.aligned.m8n8k4.row.col.f64.f64.f64.f64x2 {$0, $1}, {$2}, {$3}, {$4, $5};",
        "mma.sync.aligned.m8n8k4.row.col.f64.f64.f64.f64\\5C09{$0, $1}, {$2}, {$3}, {$4, $5};",
        "not_mma.sync.aligned.m8n8k4.row.col.f64.f64.f64.f64 {$0, $1}, {$2}, {$3}, {$4, $5};",
        "$mma.sync.aligned.m8n8k4.row.col.f64.f64.f64.f64 {$0, $1}, {$2}, {$3}, {$4, $5};",
        "%mma.sync.aligned.m8n8k4.row.col.f64.f64.f64.f64 {$0, $1}, {$2}, {$3}, {$4, $5};",
        "@mma.sync.aligned.m8n8k4.row.col.f64.f64.f64.f64 {$0, $1}, {$2}, {$3}, {$4, $5};",
        "!mma.sync.aligned.m8n8k4.row.col.f64.f64.f64.f64 {$0, $1}, {$2}, {$3}, {$4, $5};",
        "@!mma.sync.aligned.m8n8k4.row.col.f64.f64.f64.f64 {$0, $1}, {$2}, {$3}, {$4, $5};",
        "not$mma.sync.aligned.m8n8k4.row.col.f64.f64.f64.f64 {$0, $1}, {$2}, {$3}, {$4, $5};",
        "/mma.sync.aligned.m8n8k4.row.col.f64.f64.f64.f64 {$0, $1}, {$2}, {$3}, {$4, $5};",
        ")mma.sync.aligned.m8n8k4.row.col.f64.f64.f64.f64 {$0, $1}, {$2}, {$3}, {$4, $5};",
    ] {
        assert!(!contains_mma_m8n8k4_f64_features(near_miss));
        assert_eq!(
            detect_module_requirements_in_llvm_text(near_miss),
            ModuleRequirements {
                features: DetectedFeatures::of(Feature::Basic),
                ptx_isa: PtxIsaRequirement::Default,
            },
            "matched near-miss {near_miss}"
        );
    }

    let sm_75: CudaArch = CudaArch::parse("sm_75").unwrap();
    let sm_80: CudaArch = CudaArch::parse("sm_80").unwrap();
    assert!(validate_target_features(&sm_75, requirements.features).is_err());
    assert!(validate_target_features(&sm_80, requirements.features).is_ok());
    let error = resolve_ptx_target(Some("sm_75"), None, requirements.features)
        .expect_err("sm_75 must not accept FP64 tensor-core MMA")
        .message()
        .to_string();
    assert!(
        error.contains("cannot lower detected feature Sm80"),
        "{error}"
    );

    let combined = format!("{mnemonic}\nmovmatrix.sync.aligned.m8n8.trans.b16 $0, $1;");
    assert_eq!(
        detect_module_requirements_in_llvm_text(&combined),
        ModuleRequirements {
            features: DetectedFeatures::of(Feature::Sm80) | DetectedFeatures::of(Feature::Movmatrix),
            ptx_isa: PtxIsaRequirement::Ptx78,
        }
    );
}

#[test]
fn test_movmatrix_detection_separates_sm75_from_the_ptx78_floor() {
    let mnemonic = "movmatrix.sync.aligned.m8n8.trans.b16 $0, $1;";
    for spelling in [
        mnemonic,
        "movmatrix.sync.aligned.m8n8.trans.b16\t$0, $1;",
        "movmatrix.sync.aligned.m8n8.trans.b16\n$0, $1;",
        "movmatrix.sync.aligned.m8n8.trans.b16\\09$0, $1;",
        "movmatrix.sync.aligned.m8n8.trans.b16\\0A$0, $1;",
        "movmatrix.sync.aligned.m8n8.trans.b16\\0D\\0A$0, $1;",
    ] {
        assert!(contains_movmatrix_features(spelling), "{spelling:?}");
    }
    assert_eq!(
        detect_features_in_llvm_text(mnemonic),
        DetectedFeatures::of(Feature::Movmatrix)
    );
    assert_eq!(select_target(DetectedFeatures::of(Feature::Movmatrix)).unwrap(), "sm_75");
    assert_eq!(
        detect_module_requirements_in_llvm_text(mnemonic).ptx_isa,
        PtxIsaRequirement::Ptx78
    );

    for near_miss in [
        "movmatrix.sync.aligned.m8n8.b16 $0, $1;",
        "movmatrix.sync.aligned.m16n8.trans.b16 $0, $1;",
        "movmatrix.sync.aligned.m8n8.trans.b32 $0, $1;",
        "movmatrix.sync.aligned.m8n8.trans.b16x2 $0, $1;",
        "movmatrix.sync.aligned.m8n8.trans.b16\\5C09$0, $1;",
    ] {
        assert!(
            !contains_movmatrix_features(near_miss),
            "matched {near_miss}"
        );
        assert_eq!(
            detect_module_requirements_in_llvm_text(near_miss),
            ModuleRequirements {
                features: DetectedFeatures::of(Feature::Basic),
                ptx_isa: PtxIsaRequirement::Default,
            }
        );
    }

    let combined = format!("{mnemonic}\ncp.async.ca.shared.global [$0], [$1], 4;");
    assert_eq!(
        detect_module_requirements_in_llvm_text(&combined),
        ModuleRequirements {
            features: DetectedFeatures::of(Feature::Sm80) | DetectedFeatures::of(Feature::Movmatrix),
            ptx_isa: PtxIsaRequirement::Ptx78,
        },
        "the architecture and PTX ISA floors must compose independently"
    );

    let sm_70: CudaArch = CudaArch::parse("sm_70").unwrap();
    let sm_75: CudaArch = CudaArch::parse("sm_75").unwrap();
    let sm_80: CudaArch = CudaArch::parse("sm_80").unwrap();
    assert!(validate_target_features(&sm_70, DetectedFeatures::of(Feature::Movmatrix)).is_err());
    assert!(validate_target_features(&sm_75, DetectedFeatures::of(Feature::Movmatrix)).is_ok());
    assert!(validate_target_features(&sm_80, DetectedFeatures::of(Feature::Movmatrix)).is_ok());

    for target in ["sm_75", "sm_80", "sm_86", "sm_87"] {
        assert_eq!(
            required_ptx_feature(target, PtxIsaRequirement::Ptx78),
            Some("+ptx78"),
            "{target} needs an explicit PTX 7.8 floor"
        );
    }
    assert_eq!(
        required_ptx_feature("sm_90", PtxIsaRequirement::Ptx78),
        None
    );
    for target in ["sm_88", "sm_89"] {
        assert_eq!(
            required_ptx_feature(target, PtxIsaRequirement::Ptx78),
            None,
            "{target} already requires PTX 7.8 or newer"
        );
    }
    assert_eq!(
        required_ptx_feature("sm_75", PtxIsaRequirement::Default),
        None
    );
}

#[test]
fn matrix_memory_detection_composes_architecture_and_ptx_isa_floors() {
    let base_ldmatrix = "ldmatrix.sync.aligned.m8n8.x4.b16 {$0, $1, $2, $3}, [$4];";
    assert_eq!(
        detect_module_requirements_in_llvm_text(base_ldmatrix),
        ModuleRequirements {
            features: DetectedFeatures::of(Feature::Ldmatrix),
            ptx_isa: PtxIsaRequirement::Ptx65,
        }
    );

    let cta_ldmatrix = "ldmatrix.sync.aligned.m8n8.x1.shared::cta.b16 {$0}, [$1];";
    assert_eq!(
        detect_module_requirements_in_llvm_text(cta_ldmatrix),
        ModuleRequirements {
            features: DetectedFeatures::of(Feature::Ldmatrix),
            ptx_isa: PtxIsaRequirement::Ptx78,
        }
    );

    for stmatrix in [
        "stmatrix.sync.aligned.m8n8.x1.b16 [$0], {$1};",
        "stmatrix.sync.aligned.m8n8.x4.trans.shared::cta.b16 [$0], {$1, $2, $3, $4};",
    ] {
        assert_eq!(
            detect_module_requirements_in_llvm_text(stmatrix),
            ModuleRequirements {
                features: DetectedFeatures::of(Feature::Sm90),
                ptx_isa: PtxIsaRequirement::Ptx78,
            }
        );
    }

    for newer in [
        "ldmatrix.sync.aligned.m16n16.x1.trans.shared.b8 {$0, $1}, [$2];",
        "ldmatrix.sync.aligned.m8n16.x2.shared::cta.b8x16.b6x16_p32 {$0, $1}, [$2];",
        "stmatrix.sync.aligned.m16n8.x1.trans.shared.b8 [$0], {$1};",
    ] {
        assert_eq!(
            detect_module_requirements_in_llvm_text(newer),
            ModuleRequirements {
                features: DetectedFeatures::of(Feature::MatrixBlackwell)
                    | if newer.starts_with("ldmatrix") {
                        DetectedFeatures::of(Feature::Ldmatrix)
                    } else {
                        DetectedFeatures::of(Feature::Sm90)
                    },
                ptx_isa: PtxIsaRequirement::Ptx86,
            },
            "{newer}"
        );
    }

    let mixed = format!(
        "{base_ldmatrix}\n{}",
        "movmatrix.sync.aligned.m8n8.trans.b16 $0, $1;"
    );
    assert_eq!(
        detect_module_requirements_in_llvm_text(&mixed),
        ModuleRequirements {
            features: DetectedFeatures::of(Feature::Movmatrix) | DetectedFeatures::of(Feature::Ldmatrix),
            ptx_isa: PtxIsaRequirement::Ptx78,
        },
        "the strongest PTX ISA floor must survive equal sm_75 feature families"
    );

    assert_eq!(
        required_ptx_feature("sm_75", PtxIsaRequirement::Ptx65),
        Some("+ptx65")
    );
    assert_eq!(
        required_ptx_feature("sm_80", PtxIsaRequirement::Ptx65),
        None
    );
    assert_eq!(
        required_ptx_feature("sm_100a", PtxIsaRequirement::Ptx86),
        None
    );

    let adjacent_unrelated_b8 = "ldmatrix.sync.aligned.m8n8.x1.shared.b16 {$0}, [$1]; mov.b8 $2, $3;";
    assert_eq!(
        detect_module_requirements_in_llvm_text(adjacent_unrelated_b8),
        ModuleRequirements {
            features: DetectedFeatures::of(Feature::Ldmatrix),
            ptx_isa: PtxIsaRequirement::Ptx65,
        },
        "an unrelated b8 instruction must not raise the ldmatrix family"
    );
}

#[test]
fn tma_and_wgmma_raise_their_independent_ptx_floors() {
    for tma in [
        "cp.async.bulk.tensor.2d.shared::cluster.global.tile.mbarrier::complete_tx::bytes;",
        "cp.async.bulk.commit_group;",
        "cp.async.bulk.wait_group 0;",
        "cp.async.bulk.wait_group.read 0;",
    ] {
        let requirements = detect_module_requirements_in_llvm_text(tma);
        assert!(
            requirements.features.contains(Feature::Tma),
            "{tma}"
        );
        assert_eq!(requirements.ptx_isa, PtxIsaRequirement::Ptx80, "{tma}");
    }

    let non_bulk = "cp.async.commit_group;";
    assert_eq!(
        detect_module_requirements_in_llvm_text(non_bulk),
        ModuleRequirements {
            features: DetectedFeatures::of(Feature::Sm80),
            ptx_isa: PtxIsaRequirement::Default,
        }
    );

    let tma_and_movmatrix = "cp.async.bulk.commit_group; movmatrix.sync.aligned.m8n8.trans.b16 $0, $1;";
    assert_eq!(
        detect_module_requirements_in_llvm_text(tma_and_movmatrix).ptx_isa,
        PtxIsaRequirement::Ptx80
    );

    let wgmma = "wgmma.fence.sync.aligned;";
    assert_eq!(
        detect_module_requirements_in_llvm_text(wgmma),
        ModuleRequirements {
            features: DetectedFeatures::of(Feature::Wgmma),
            ptx_isa: PtxIsaRequirement::Ptx80,
        }
    );

    let shared_cta =
        "cp.async.bulk.tensor.2d.shared::cta.global.tile.mbarrier::complete_tx::bytes;";
    assert!(contains_tma_shared_cta_destination(shared_cta));
    let shared_cta_requirements = detect_module_requirements_in_llvm_text(shared_cta);
    assert_eq!(shared_cta_requirements.features, DetectedFeatures::of(Feature::Tma));
    assert_eq!(shared_cta_requirements.ptx_isa, PtxIsaRequirement::Ptx86);

    let shared_source = "cp.async.bulk.tensor.2d.global.shared::cta.tile.bulk_group;";
    assert!(!contains_tma_shared_cta_destination(shared_source));
    assert_eq!(
        detect_module_requirements_in_llvm_text(shared_source).ptx_isa,
        PtxIsaRequirement::Ptx80
    );

    let cta_group = "cp.async.bulk.tensor.2d.shared::cta.global.tile.mbarrier::complete_tx::bytes.cta_group::1;";
    assert_eq!(
        detect_module_requirements_in_llvm_text(cta_group).ptx_isa,
        PtxIsaRequirement::Ptx86
    );

    assert_eq!(
        required_ptx_feature("sm_90", PtxIsaRequirement::Ptx80),
        Some("+ptx80")
    );
    assert_eq!(
        required_ptx_feature("sm_90a", PtxIsaRequirement::Ptx86),
        Some("+ptx86")
    );
    assert_eq!(
        required_ptx_feature("sm_100a", PtxIsaRequirement::Ptx80),
        None
    );
}

#[test]
fn related_cluster_mbarrier_and_clc_requirements_are_detected() {
    for ptx in [
        "mbarrier.arrive.release.cluster.shared::cluster.b64 _, [$0];",
        "fence.mbarrier_init.release.cluster;",
    ] {
        let requirements = detect_module_requirements_in_llvm_text(ptx);
        assert!(
            requirements.features.contains(Feature::Tma),
            "{ptx}"
        );
        assert_eq!(requirements.ptx_isa, PtxIsaRequirement::Ptx80, "{ptx}");
        assert!(arch_satisfies("sm_90", requirements.features));
    }

    for (ptx, expected_isa) in [
        (
            "mbarrier.init.shared.b64 [$0], 1;",
            PtxIsaRequirement::Ptx70,
        ),
        (
            "mbarrier.test_wait.parity.shared.b64 $0, [$1], $2;",
            PtxIsaRequirement::Ptx71,
        ),
        (
            "mbarrier.try_wait.parity.shared::cta.b64 $0, [$1], $2;",
            PtxIsaRequirement::Ptx78,
        ),
    ] {
        let requirements = detect_module_requirements_in_llvm_text(ptx);
        assert!(
            requirements.features.contains(Feature::Sm80),
            "{ptx}"
        );
        assert_eq!(requirements.ptx_isa, expected_isa, "{ptx}");
        if ptx.contains("try_wait") {
            assert!(requirements.features.contains(Feature::Tma));
            assert!(!arch_satisfies("sm_80", requirements.features));
        } else {
            assert!(arch_satisfies("sm_80", requirements.features));
            assert!(!arch_satisfies("sm_75", requirements.features));
        }
    }

    for ptx in [
        "redux.sync.add.u32 $0, $1, $2;",
        "cvt.rn.bf16x2.f32 $0, $1, $2;",
        "cvt.rn.relu.bf16x2.f32 $0, $1, $2;",
        "cvt.rz.bf16x2.f32 $0, $1, $2;",
    ] {
        assert!(
            detect_features_in_llvm_text(ptx).contains(Feature::Sm80),
            "{ptx}"
        );
    }
    assert_eq!(
        required_ptx_feature("sm_80", PtxIsaRequirement::Ptx70),
        None
    );
    assert_eq!(
        required_ptx_feature("sm_80", PtxIsaRequirement::Ptx71),
        Some("+ptx71")
    );
    for target in ["sm_86", "sm_87", "sm_88", "sm_89"] {
        assert_eq!(
            required_ptx_feature(target, PtxIsaRequirement::Ptx71),
            None,
            "{target} cannot be downgraded below its minimum PTX ISA"
        );
    }

    for ptx in [
        "mbarrier.arrive.expect_tx.relaxed.cluster.shared::cta.b64 $0, [$1], $2;",
        "fence.proxy.async::generic.release.sync_restrict::shared::cta.cluster;",
        "fence.acquire.sync_restrict::shared::cluster.cluster;",
    ] {
        let requirements = detect_module_requirements_in_llvm_text(ptx);
        assert!(
            requirements.features.contains(Feature::Tma),
            "{ptx}"
        );
        assert_eq!(requirements.ptx_isa, PtxIsaRequirement::Ptx86, "{ptx}");
        assert!(!arch_satisfies("sm_80", requirements.features));
    }

    for ptx in [
        "mbarrier.test_wait.acquire.cta.shared::cta.b64 $0, [$1], $2;",
        "mbarrier.arrive.release.cta.shared::cta.b64 $0, [$1];",
    ] {
        let requirements = detect_module_requirements_in_llvm_text(ptx);
        assert!(requirements.features.contains(Feature::Tma));
        assert_eq!(requirements.ptx_isa, PtxIsaRequirement::Ptx80);
        assert!(!arch_satisfies("sm_80", requirements.features));
    }

    let cluster_sync = "barrier.cluster.arrive.aligned; barrier.cluster.wait.aligned;";
    assert_eq!(
        detect_module_requirements_in_llvm_text(cluster_sync),
        ModuleRequirements {
            features: DetectedFeatures::of(Feature::Cluster),
            ptx_isa: PtxIsaRequirement::Ptx78,
        }
    );
    assert_eq!(select_target(DetectedFeatures::of(Feature::Cluster)).unwrap(), "sm_90");

    let cluster_release = "barrier.cluster.arrive.release;";
    assert_eq!(
        detect_module_requirements_in_llvm_text(cluster_release).ptx_isa,
        PtxIsaRequirement::Ptx80
    );

    for ptx in [
        "fence.sc.cluster;",
        "fence.acq_rel.cluster;",
        "ld.shared::cluster.u32 $0, [$1];",
        "ld.acquire.cluster.global.u32 $0, [$1];",
        "getctarank.shared::cluster.u32 $0, $1;",
    ] {
        let requirements = detect_module_requirements_in_llvm_text(ptx);
        assert!(requirements.features.contains(Feature::Cluster));
        assert_eq!(requirements.ptx_isa, PtxIsaRequirement::Ptx78);
        assert!(!arch_satisfies("sm_80", requirements.features));
    }

    for ptx in [
        "fence.acquire.cta;",
        "fence.release.gpu;",
        "fence.acquire.cluster;",
        "fence.release.sys;",
    ] {
        let requirements = detect_module_requirements_in_llvm_text(ptx);
        assert!(
            requirements.features.contains(Feature::Sm90),
            "{ptx}"
        );
        assert_eq!(requirements.ptx_isa, PtxIsaRequirement::Ptx86, "{ptx}");
        assert_eq!(
            requirements.features.contains(Feature::Cluster),
            ptx.contains(".cluster"),
            "{ptx}"
        );
        assert!(!arch_satisfies("sm_80", requirements.features));
    }

    let multimem = "multimem.red.relaxed.cluster.global.add.u32 [$0], $1;";
    let requirements = detect_module_requirements_in_llvm_text(multimem);
    assert_eq!(requirements.features, DetectedFeatures::of(Feature::Sm90));
    assert_eq!(requirements.ptx_isa, PtxIsaRequirement::Ptx86);
    assert_eq!(select_target(requirements.features).unwrap(), "sm_90");
    let multimem_debug_filename = r#"!9 = !DIFile(filename: "multimem.rs", directory: "/tmp")"#;
    assert_eq!(
        detect_module_requirements_in_llvm_text(multimem_debug_filename),
        ModuleRequirements {
            features: DetectedFeatures::of(Feature::Basic),
            ptx_isa: PtxIsaRequirement::Default,
        }
    );

    for multimem in [
        "multimem.ld_reduce.relaxed.cta.add.v4.e4m3 {$0, $1, $2, $3}, [$4];",
        "multimem.st.relaxed.gpu.e5m2 [$0], $1;",
        "multimem.ld_reduce.add.acc::f16.v4.e5m2 {$0, $1, $2, $3}, [$4];",
    ] {
        let requirements = detect_module_requirements_in_llvm_text(multimem);
        assert_eq!(
            requirements.features,
            DetectedFeatures::of(Feature::MultimemFp8) | DetectedFeatures::of(Feature::Sm90),
            "{multimem}"
        );
        assert_eq!(requirements.ptx_isa, PtxIsaRequirement::Ptx86, "{multimem}");
        assert_eq!(select_target(requirements.features).unwrap(), "sm_100a");
        for target in [
            "sm_100a", "sm_103a", "sm_110a", "sm_120a", "sm_121a", "sm_100f", "sm_103f",
            "sm_110f",
        ] {
            assert!(arch_satisfies(target, requirements.features), "{target}");
        }
        for target in ["sm_100", "sm_90a", "sm_120f", "sm_121f"] {
            assert!(!arch_satisfies(target, requirements.features), "{target}");
        }
    }

    let redux_f32 = "redux.sync.min.abs.NaN.f32 $0, $1, $2;";
    let requirements = detect_module_requirements_in_llvm_text(redux_f32);
    assert_eq!(
        requirements.features,
        DetectedFeatures::of(Feature::ReduxF32) | DetectedFeatures::of(Feature::Sm80)
    );
    assert_eq!(requirements.ptx_isa, PtxIsaRequirement::Ptx86);
    assert_eq!(select_target(requirements.features).unwrap(), "sm_100a");
    for target in ["sm_100a", "sm_103a", "sm_100f", "sm_103f"] {
        assert!(arch_satisfies(target, requirements.features), "{target}");
    }
    for target in ["sm_100", "sm_110a", "sm_120a", "sm_121f"] {
        assert!(!arch_satisfies(target, requirements.features), "{target}");
    }

    for sreg in [
        "mov.u32 $0, %clusterid.x;",
        "mov.u32 $0, %nclusterid.z;",
        "mov.u32 $0, %cluster_ctarank;",
        "mov.u32 $0, %cluster_nctarank;",
        "mov.pred $0, %is_explicit_cluster;",
    ] {
        assert_eq!(
            detect_module_requirements_in_llvm_text(sreg),
            ModuleRequirements {
                features: DetectedFeatures::of(Feature::Cluster),
                ptx_isa: PtxIsaRequirement::Ptx78,
            },
            "{sreg}"
        );
    }

    let cluster_metadata = r#"!0 = !{!"cluster_dim_x", i32 2}
        !1 = !{!"cluster_dim_y", i32 1}
        !2 = !{!"cluster_dim_z", i32 1}"#;
    assert_eq!(
        detect_module_requirements_in_llvm_text(cluster_metadata),
        ModuleRequirements {
            features: DetectedFeatures::of(Feature::Cluster),
            ptx_isa: PtxIsaRequirement::Ptx78,
        }
    );
    let cluster_debug_local =
        r#"!8 = !DILocalVariable(name: "cluster_dim_x", scope: !1, file: !2, line: 3)"#;
    assert_eq!(
        detect_module_requirements_in_llvm_text(cluster_debug_local),
        ModuleRequirements {
            features: DetectedFeatures::of(Feature::Basic),
            ptx_isa: PtxIsaRequirement::Default,
        }
    );

    let elect = "elect.sync $0|p, $1;";
    assert_eq!(
        detect_module_requirements_in_llvm_text(elect),
        ModuleRequirements {
            features: DetectedFeatures::of(Feature::Sm90),
            ptx_isa: PtxIsaRequirement::Ptx80,
        }
    );

    let tcgen_wait = "tcgen05.wait::ld.sync.aligned;";
    assert_eq!(
        detect_module_requirements_in_llvm_text(tcgen_wait),
        ModuleRequirements {
            features: DetectedFeatures::of(Feature::Blackwell),
            ptx_isa: PtxIsaRequirement::Ptx86,
        }
    );

    let tcgen_debug_filename = r#"!7 = !DIFile(filename: "tcgen05.rs", directory: "/tmp")"#;
    assert_eq!(
        detect_module_requirements_in_llvm_text(tcgen_debug_filename),
        ModuleRequirements {
            features: DetectedFeatures::of(Feature::Basic),
            ptx_isa: PtxIsaRequirement::Default,
        }
    );

    let clc = "clusterlaunchcontrol.query_cancel.is_canceled.pred.b128 $0, $1;";
    assert_eq!(
        detect_module_requirements_in_llvm_text(clc),
        ModuleRequirements {
            features: DetectedFeatures::of(Feature::Sm100),
            ptx_isa: PtxIsaRequirement::Ptx86,
        }
    );
    assert_eq!(select_target(DetectedFeatures::of(Feature::Sm100)).unwrap(), "sm_100");
    assert!(!arch_satisfies("sm_90", DetectedFeatures::of(Feature::Sm100)));
    assert!(arch_satisfies("sm_120", DetectedFeatures::of(Feature::Sm100)));

    let clc_multicast = "clusterlaunchcontrol.try_cancel.async.shared::cta.mbarrier::complete_tx::bytes.multicast::cluster::all.b128 [$0], [$1];";
    let requirements = detect_module_requirements_in_llvm_text(clc_multicast);
    assert_eq!(
        requirements.features,
        DetectedFeatures::of(Feature::Sm100) | DetectedFeatures::of(Feature::BlackwellFamily)
    );
    assert_eq!(requirements.ptx_isa, PtxIsaRequirement::Ptx86);
    assert_eq!(select_target(requirements.features).unwrap(), "sm_100a");
    assert!(!arch_satisfies("sm_100", requirements.features));
    assert!(arch_satisfies("sm_120a", requirements.features));
    for arch in ["sm_100f", "sm_101f", "sm_110f", "sm_121f"] {
        assert!(arch_satisfies(arch, requirements.features), "{arch}");
    }
    for arch in ["sm_103a", "sm_121a"] {
        assert!(!arch_satisfies(arch, requirements.features), "{arch}");
    }
}

#[test]
fn ptx86_tma_modes_enforce_their_architecture_families() {
    for ptx in [
        "cp.async.bulk.global.shared::cta.bulk_group.cp_mask [$0], [$1], 16, $2;",
        "cp.async.bulk.tensor.2d.shared::cta.global.tile::gather4.mbarrier::complete_tx::bytes;",
        "cp.async.bulk.tensor.3d.shared::cta.global.im2col::w.mbarrier::complete_tx::bytes;",
    ] {
        let requirements = detect_module_requirements_in_llvm_text(ptx);
        assert!(
            requirements.features.contains(Feature::Tma),
            "{ptx}"
        );
        assert!(
            requirements.features.contains(Feature::Sm100),
            "{ptx}"
        );
        assert_eq!(requirements.ptx_isa, PtxIsaRequirement::Ptx86, "{ptx}");
        assert!(!arch_satisfies("sm_90", requirements.features));
        assert!(arch_satisfies("sm_100", requirements.features));
    }

    for ptx in [
        "cp.async.bulk.tensor.2d.shared::cluster.global.tile::gather4.mbarrier::complete_tx::bytes;",
        "cp.async.bulk.tensor.2d.global.shared::cta.tile::scatter4.bulk_group;",
        "cp.async.bulk.tensor.3d.shared::cta.global.im2col::w::128.mbarrier::complete_tx::bytes;",
        "cp.async.bulk.prefetch.tensor.3d.L2.global.im2col::w::128;",
    ] {
        let requirements = detect_module_requirements_in_llvm_text(ptx);
        assert!(
            requirements.features.contains(Feature::Tma),
            "{ptx}"
        );
        assert!(
            requirements
                .features
                .contains(Feature::BlackwellAccelerated),
            "{ptx}"
        );
        assert_eq!(requirements.ptx_isa, PtxIsaRequirement::Ptx86, "{ptx}");
        assert_eq!(select_target(requirements.features).unwrap(), "sm_100a");
        assert!(!arch_satisfies("sm_100", requirements.features));
        assert!(!arch_satisfies("sm_120a", requirements.features));
        assert!(arch_satisfies("sm_103f", requirements.features));
    }

    assert!(!contains_tma_sm100_features("custom.op.cp_mask $0;"));
    assert!(!contains_tma_blackwell_accelerated_features(
        "custom.tile::scatter4 $0;"
    ));
}

#[test]
fn test_sm90_floor_wins_when_sm80_features_are_also_present() {
    let llvm = r#"
        call i32 asm pure "add.rn.bf16x2 $0, $1, $2;", "=r,r,r"(i32 %a, i32 %b)
        call void asm sideeffect "cp.async.ca.shared.global [%0], [%1], 4;", "l,l"()
    "#;

    assert!(contains_sm90_features(llvm));
    assert!(contains_sm80_features(llvm));
    assert_eq!(
        detect_features_in_llvm_text(llvm),
        DetectedFeatures::of(Feature::Sm90) | DetectedFeatures::of(Feature::Sm80)
    );
}

#[test]
fn test_tma_multicast_detection_requires_cta_mask() {
    let multicast = "call void @llvm.nvvm.cp.async.bulk.tensor.g2s.tile(i32 0, i1 1, i1 false)";
    let unicast = "call void @llvm.nvvm.cp.async.bulk.tensor.g2s.tile(i32 0, i1 0, i1 false)";
    let literal_multicast = "cp.async.bulk.tensor.2d.shared::cluster.global.tile.mbarrier::complete_tx::bytes.multicast::cluster";
    let cg1 = "cp.async.bulk.tensor.2d.shared::cta.global.tile.mbarrier::complete_tx::bytes.cta_group::1";
    let cg2 = "cp.async.bulk.tensor.2d.shared::cluster.global.tile.mbarrier::complete_tx::bytes.multicast::cluster.cta_group::2";
    let cg1_intrinsic = "call void @llvm.nvvm.cp.async.bulk.tensor.g2s.tile.2d(ptr addrspace(7) %dst, i1 0, i1 false, i32 1)";
    let cg2_intrinsic = "call void @llvm.nvvm.cp.async.bulk.tensor.g2s.tile.2d(ptr addrspace(7) %dst, i1 1, i1 false, i32 2)";
    let unrelated_i32 = "call void @unrelated(i32 2)";

    assert!(contains_tma_multicast(multicast));
    assert!(contains_tma_multicast(literal_multicast));
    assert!(!contains_tma_multicast(unicast));
    assert_eq!(
        detect_features_in_llvm_text(multicast),
        DetectedFeatures::of(Feature::TmaMulticast) | DetectedFeatures::of(Feature::Tma)
    );
    assert_eq!(
        detect_features_in_llvm_text(literal_multicast),
        DetectedFeatures::of(Feature::TmaMulticast) | DetectedFeatures::of(Feature::Tma) | DetectedFeatures::of(Feature::Cluster)
    );
    assert_eq!(detect_features_in_llvm_text(unicast), DetectedFeatures::of(Feature::Tma));
    assert_eq!(
        detect_features_in_llvm_text(cg1),
        DetectedFeatures::of(Feature::TmaCtaGroup) | DetectedFeatures::of(Feature::Tma)
    );
    assert_eq!(
        detect_features_in_llvm_text(cg1_intrinsic),
        DetectedFeatures::of(Feature::TmaCtaGroup) | DetectedFeatures::of(Feature::Tma)
    );
    assert_eq!(
        detect_features_in_llvm_text(cg2),
        DetectedFeatures::of(Feature::TmaCtaGroup)
            | DetectedFeatures::of(Feature::TmaMulticast)
            | DetectedFeatures::of(Feature::Tma)
            | DetectedFeatures::of(Feature::Cluster)
    );
    assert_eq!(
        detect_features_in_llvm_text(cg2_intrinsic),
        DetectedFeatures::of(Feature::TmaCtaGroup) | DetectedFeatures::of(Feature::TmaMulticast) | DetectedFeatures::of(Feature::Tma)
    );
    assert!(!contains_tma_cta_group_features(unrelated_i32));
}

#[test]
fn test_select_target_prefers_required_architecture() {
    for (features, expected) in [
        (DetectedFeatures::of(Feature::Blackwell), "sm_100a"),
        (DetectedFeatures::of(Feature::TmaCtaGroup), "sm_100a"),
        (DetectedFeatures::of(Feature::BlackwellAccelerated), "sm_100a"),
        (DetectedFeatures::of(Feature::BlackwellFamily), "sm_100a"),
        (DetectedFeatures::of(Feature::ReduxF32), "sm_100a"),
        (DetectedFeatures::of(Feature::MultimemFp8), "sm_100a"),
        (DetectedFeatures::of(Feature::TmaMulticast), "sm_100a"),
        (DetectedFeatures::of(Feature::MatrixBlackwell), "sm_100a"),
        (DetectedFeatures::of(Feature::Wgmma), "sm_90a"),
        (DetectedFeatures::of(Feature::Sm100), "sm_100"),
        (DetectedFeatures::of(Feature::Tma), "sm_100"),
        (DetectedFeatures::of(Feature::Cluster), "sm_90"),
        (DetectedFeatures::of(Feature::Sm90), "sm_90"),
        (DetectedFeatures::of(Feature::Sm80), "sm_80"),
        (DetectedFeatures::of(Feature::Movmatrix), "sm_75"),
        (DetectedFeatures::of(Feature::Ldmatrix), "sm_75"),
        (DetectedFeatures::of(Feature::Basic), "sm_80"),
    ] {
        assert_eq!(select_target(features).unwrap(), expected, "{features:?}");
    }
}

#[test]
fn target_selection_enforces_feature_intersections() {
    let multicast = "cp.async.bulk.tensor.2d.shared::cluster.global.tile.mbarrier::complete_tx::bytes.multicast::cluster";
    let hopper_pair = format!("{multicast};\nwgmma.fence.sync.aligned;");
    let hopper_requirements = detect_features_in_llvm_text(&hopper_pair);
    assert!(hopper_requirements.contains(Feature::TmaMulticast));
    assert!(hopper_requirements.contains(Feature::Wgmma));
    assert_eq!(select_target(hopper_requirements).unwrap(), "sm_90a");
    assert!(arch_satisfies("sm_90a", hopper_requirements));
    assert!(!arch_satisfies("sm_100a", hopper_requirements));

    let blackwell_pair = format!(
        "{multicast};\n{}",
        "ldmatrix.sync.aligned.m16n16.x1.trans.shared.b8 {$0, $1}, [$2];"
    );
    let blackwell_requirements = detect_features_in_llvm_text(&blackwell_pair);
    assert!(blackwell_requirements.contains(Feature::TmaMulticast));
    assert!(blackwell_requirements.contains(Feature::MatrixBlackwell));
    assert_eq!(select_target(blackwell_requirements).unwrap(), "sm_100a");
    assert!(arch_satisfies("sm_100a", blackwell_requirements));
    assert!(!arch_satisfies("sm_90a", blackwell_requirements));

    let impossible = DetectedFeatures::of(Feature::Wgmma) | DetectedFeatures::of(Feature::MatrixBlackwell);
    let error = select_target(impossible).expect_err("families have no common target");
    assert!(error.contains("do not share a compatible GPU architecture"));
    assert!(resolve_ptx_target(Some("sm_90a"), None, impossible).is_err());
    assert!(resolve_ptx_target(Some("sm_100a"), None, impossible).is_err());
}

#[test]
fn test_arch_major_parses_cuda_spelling() {
    assert_eq!(arch_compute_capability("sm_75"), Some(75));
    assert_eq!(arch_compute_capability("sm_100a"), Some(100));
    assert_eq!(arch_major("sm_75"), Some(7));
    assert_eq!(arch_major("sm_80"), Some(8));
    assert_eq!(arch_major("sm_90a"), Some(9));
    assert_eq!(arch_major("sm_100a"), Some(10));
    assert_eq!(arch_major("sm_103a"), Some(10));
    assert_eq!(arch_major("sm_120a"), Some(12));
    assert_eq!(arch_major("nvvm-ir"), None);
    assert_eq!(arch_major("sm_"), None);
}

#[test]
fn ptx9_targets_require_an_llvm22_backend() {
    for target in ["sm_88", "sm_110", "sm_110a", "sm_110f"] {
        assert!(
            validate_target_for_llvm_major(target, Some(21)).is_err(),
            "{target}"
        );
        assert!(
            validate_target_for_llvm_major(target, None).is_err(),
            "{target}"
        );
        assert!(
            validate_target_for_llvm_major(target, Some(22)).is_ok(),
            "{target}"
        );
        assert!(
            validate_target_for_llvm_major(target, Some(23)).is_ok(),
            "{target}"
        );
    }
    for target in ["sm_87", "sm_103a", "sm_120a", "sm_121f"] {
        assert!(
            validate_target_for_llvm_major(target, Some(21)).is_ok(),
            "{target}"
        );
    }
    assert_eq!(target_minimum_ptx_isa(121), Some(88));
}

#[test]
fn test_arch_satisfies_sm100_only_features() {
    // tcgen05 and explicit cta_group TMA are datacenter-Blackwell only:
    // consumer Blackwell (sm_120) and Hopper (sm_90) cannot run them, even
    // though 120 > 100. This is the gemm_sol regression guard.
    for f in [DetectedFeatures::of(Feature::Blackwell), DetectedFeatures::of(Feature::TmaCtaGroup)] {
        assert!(arch_satisfies("sm_100a", f), "sm_100a must satisfy {f:?}");
        assert!(arch_satisfies("sm_103a", f), "sm_103a must satisfy {f:?}");
        assert!(arch_satisfies("sm_103f", f), "sm_103f must satisfy {f:?}");
        assert!(
            !arch_satisfies("sm_100", f),
            "generic sm_100 must NOT satisfy {f:?}"
        );
        assert!(
            !arch_satisfies("sm_120a", f),
            "sm_120a must NOT satisfy {f:?}"
        );
        assert!(
            !arch_satisfies("sm_90a", f),
            "sm_90a must NOT satisfy {f:?}"
        );
        assert!(
            !arch_satisfies("sm_102a", f),
            "unknown architecture-specific targets must not be accepted"
        );
        assert!(
            !arch_satisfies("sm_102f", f),
            "unknown family-specific targets must not be accepted"
        );
    }
}

#[test]
fn test_arch_satisfies_base_tma_multicast_targets() {
    for arch in [
        "sm_90", "sm_90a", "sm_100", "sm_100a", "sm_103f", "sm_110a", "sm_120", "sm_120a",
    ] {
        assert!(
            arch_satisfies(arch, DetectedFeatures::of(Feature::TmaMulticast)),
            "{arch}"
        );
    }
    for arch in ["sm_80", "sm_89", "sm_102a", "sm_102f"] {
        assert!(
            !arch_satisfies(arch, DetectedFeatures::of(Feature::TmaMulticast)),
            "{arch}"
        );
    }
}

#[test]
fn test_arch_satisfies_wgmma_is_hopper_only() {
    assert!(arch_satisfies("sm_90a", DetectedFeatures::of(Feature::Wgmma)));
    assert!(!arch_satisfies("sm_90", DetectedFeatures::of(Feature::Wgmma)));
    assert!(!arch_satisfies("sm_100a", DetectedFeatures::of(Feature::Wgmma)));
    assert!(!arch_satisfies("sm_120a", DetectedFeatures::of(Feature::Wgmma)));
}

#[test]
fn test_arch_satisfies_blackwell_matrix_family_targets() {
    for arch in [
        "sm_100a", "sm_101a", "sm_110a", "sm_120a", "sm_100f", "sm_103f", "sm_120f", "sm_121f",
    ] {
        assert!(
            arch_satisfies(arch, DetectedFeatures::of(Feature::MatrixBlackwell)),
            "{arch}"
        );
        assert!(
            arch_satisfies(arch, DetectedFeatures::of(Feature::BlackwellFamily)),
            "{arch}"
        );
    }
    for arch in [
        "sm_100a", "sm_101a", "sm_103a", "sm_110a", "sm_100f", "sm_103f", "sm_110f",
    ] {
        assert!(
            arch_satisfies(arch, DetectedFeatures::of(Feature::BlackwellAccelerated)),
            "{arch}"
        );
    }
    for arch in ["sm_100", "sm_120a", "sm_120f", "sm_102f"] {
        assert!(
            !arch_satisfies(arch, DetectedFeatures::of(Feature::BlackwellAccelerated)),
            "{arch}"
        );
    }
    for arch in ["sm_100", "sm_103", "sm_110", "sm_120", "sm_121a"] {
        assert!(arch_satisfies(arch, DetectedFeatures::of(Feature::Sm100)), "{arch}");
    }
    for arch in ["sm_90a", "sm_102", "sm_102a"] {
        assert!(!arch_satisfies(arch, DetectedFeatures::of(Feature::Sm100)), "{arch}");
    }
    for arch in ["sm_90a", "sm_100", "sm_102f", "sm_120"] {
        assert!(
            !arch_satisfies(arch, DetectedFeatures::of(Feature::MatrixBlackwell)),
            "{arch}"
        );
        assert!(
            !arch_satisfies(arch, DetectedFeatures::of(Feature::BlackwellFamily)),
            "{arch}"
        );
    }
}

#[test]
fn test_arch_satisfies_forward_compatible_features() {
    // Plain TMA / cluster / sm_90-floor instructions lower on any sm_90+
    // device, sm_80-floor instructions on any sm_80+ device, movmatrix and
    // base ldmatrix on sm_75+, and basic kernels on Volta+.
    // So a consumer sm_120 GPU is a valid target for these (it runs locally
    // instead of being downgraded to the feature floor).
    for arch in ["sm_90a", "sm_100a", "sm_120a"] {
        assert!(arch_satisfies(arch, DetectedFeatures::of(Feature::Tma)));
        assert!(arch_satisfies(arch, DetectedFeatures::of(Feature::Cluster)));
        assert!(arch_satisfies(arch, DetectedFeatures::of(Feature::Sm90)));
        assert!(arch_satisfies(arch, DetectedFeatures::of(Feature::Sm80)));
        assert!(arch_satisfies(arch, DetectedFeatures::of(Feature::Movmatrix)));
        assert!(arch_satisfies(arch, DetectedFeatures::of(Feature::Ldmatrix)));
        assert!(arch_satisfies(arch, DetectedFeatures::of(Feature::Basic)));
    }
    assert!(arch_satisfies("sm_80", DetectedFeatures::of(Feature::Sm80)));
    assert!(!arch_satisfies("sm_75", DetectedFeatures::of(Feature::Sm80)));
    assert!(arch_satisfies("sm_75", DetectedFeatures::of(Feature::Movmatrix)));
    assert!(arch_satisfies("sm_80", DetectedFeatures::of(Feature::Movmatrix)));
    assert!(!arch_satisfies("sm_70", DetectedFeatures::of(Feature::Movmatrix)));
    assert!(arch_satisfies("sm_75", DetectedFeatures::of(Feature::Ldmatrix)));
    assert!(!arch_satisfies("sm_70", DetectedFeatures::of(Feature::Ldmatrix)));
    assert!(arch_satisfies("sm_80", DetectedFeatures::of(Feature::Basic)));
    assert!(arch_satisfies("sm_75", DetectedFeatures::of(Feature::Basic)));
    assert!(arch_satisfies("sm_70", DetectedFeatures::of(Feature::Basic)));
    assert!(!arch_satisfies("sm_80", DetectedFeatures::of(Feature::Tma)));
    assert!(!arch_satisfies("sm_80", DetectedFeatures::of(Feature::Sm90)));
    assert!(!arch_satisfies("sm_80a", DetectedFeatures::of(Feature::Basic)));
    assert!(!arch_satisfies("sm_90f", DetectedFeatures::of(Feature::Tma)));
}

#[test]
fn files_are_inspected_or_reported() {
    let found = detect_module_requirements_in_llvm_file("k.ll", Ok("wgmma.fence.sync.aligned"))
        .expect("readable");
    assert!(found.features == DetectedFeatures::of(Feature::Wgmma));
    assert_eq!(found.ptx_isa, PtxIsaRequirement::Ptx80);
    let error = detect_module_requirements_in_llvm_file("out/k.ll", Err("no such file"))
        .expect_err("unreadable");
    assert!(matches!(error, PipelineError::PtxGeneration(_)));
    assert_eq!(
        error.message(),
        "failed to inspect generated LLVM IR out/k.ll: no such file"
    );
}

#[test]
fn target_diagnostics_are_exact() {
    assert_eq!(
        validate_target_for_llvm_major("sm_110a", Some(21)).unwrap_err(),
        "CUDA target sm_110a requires LLVM 22 or newer; LLVM 21 does not reliably emit valid PTX \
         for this PTX 9.0 target"
    );
    assert_eq!(
        validate_target_for_llvm_major("sm_88", None).unwrap_err(),
        "CUDA target sm_88 requires LLVM 22 or newer; an LLVM backend with an unknown version \
         does not reliably emit valid PTX for this PTX 9.0 target"
    );
    let clash = DetectedFeatures::of(Feature::Wgmma) | DetectedFeatures::of(Feature::Blackwell);
    assert_eq!(
        select_target(clash).unwrap_err(),
        "detected CUDA features Blackwell + Wgmma do not share a compatible GPU architecture"
    );
    let hopper = CudaArch::parse("compute_90").expect("a name");
    assert_eq!(
        validate_target_features(&hopper, DetectedFeatures::of(Feature::Wgmma)).unwrap_err(),
        "CUDA target sm_90 cannot lower detected feature Wgmma; cuda-oxide requires a target \
         compatible with sm_90a for this module"
    );
    assert_eq!(
        resolve_ptx_target(Some("hopper"), None, DetectedFeatures::of(Feature::Basic))
            .unwrap_err()
            .message(),
        "invalid CUDA_OXIDE_TARGET `hopper`: expected `sm_` or `compute_`, a compute capability \
         and an optional `a` or `f`"
    );
}

#[test]
fn ptx_targets_come_from_the_override_the_gpu_or_the_features() {
    let sm80 = DetectedFeatures::of(Feature::Sm80);
    assert_eq!(
        resolve_ptx_target(Some("compute_90"), Some("sm_120"), sm80).unwrap(),
        ("sm_90".to_string(), "CUDA_OXIDE_TARGET")
    );
    assert_eq!(
        resolve_ptx_target(None, Some("sm_120"), sm80).unwrap(),
        ("sm_120".to_string(), "detected GPU")
    );
    assert_eq!(
        resolve_ptx_target(None, Some("sm_75"), sm80).unwrap(),
        ("sm_80".to_string(), "feature requirement")
    );
}

#[test]
fn a_target_satisfies_two_sets_exactly_where_it_satisfies_each() {
    let matrix = DetectedFeatures::of(Feature::MatrixBlackwell);
    let redux = DetectedFeatures::of(Feature::ReduxF32);
    for arch in ["sm_100a", "sm_100f", "sm_103a", "sm_103f", "sm_120a", "sm_90a", "sm_100"] {
        assert_eq!(
            arch_satisfies(arch, matrix | redux),
            arch_satisfies(arch, matrix) && arch_satisfies(arch, redux),
            "{arch}"
        );
    }
    assert!(arch_satisfies("sm_103f", matrix | redux));
    assert!(!arch_satisfies("sm_103a", matrix | redux));
}

#[test]
fn mnemonics_begin_and_end_at_token_boundaries() {
    let mnemonic = "min.bf16x2";
    for text in [
        "min.bf16x2 %r",
        "{min.bf16x2\t",
        "p:min.bf16x2\u{a0}",
        "\\09min.bf16x2\\0A",
        "/* c */min.bf16x2 ",
        "min.bf16x2.x min.bf16x2 ",
    ] {
        assert!(contains_instruction_mnemonic(text, mnemonic), "{text}");
    }
    for text in ["", "min.bf16x2", "min.bf16x2;", "$min.bf16x2 ", "%min.bf16x2 ", "amin.bf16x2 "] {
        assert!(!contains_instruction_mnemonic(text, mnemonic), "{text}");
    }
    // Matches do not overlap: the second copy is part of the first match.
    assert!(!contains_instruction_mnemonic("xa a a ", "a a"));
    assert!(contains_instruction_mnemonic(" a a ", "a a"));
}

#[test]
fn requirements_of_joined_texts_add_up() {
    let texts = [
        "",
        "ret void",
        "wgmma.fence.sync.aligned",
        "{ min.bf16x2 ",
        "x\n{ min.bf16x2\\0",
        "call @g2s.tile(i32 0, i1 true, i1 false",
        "line g2s.tile\r\n, i1 1, i1",
        "\\09fma.rn.bf16x2 ",
        "ld.relaxed.cluster.global",
        "mbarrier.try_wait",
        ".parity; mbarrier.test_wait",
        "tcgen05.alloc",
    ];
    for a in texts {
        for b in texts {
            let joined = detect_module_requirements_in_llvm_text(&format!("{a};\n{b}"));
            let one = detect_module_requirements_in_llvm_text(a);
            let other = detect_module_requirements_in_llvm_text(b);
            for feature in Feature::all() {
                let expected = if feature == Feature::Basic {
                    one.features.contains(feature) && other.features.contains(feature)
                } else {
                    one.features.contains(feature) || other.features.contains(feature)
                };
                assert_eq!(joined.features.contains(feature), expected, "{a} {b} {feature:?}");
            }
            assert_eq!(joined.ptx_isa, one.ptx_isa.max(other.ptx_isa), "{a} {b}");
            assert!(joined.features == detect_features_in_llvm_text(&format!("{b};\n{a}")));
        }
    }
    let joined = detect_module_requirements_in_llvm_text("movmatrix.sync.aligned.m8n8.trans.b16 ;\nredux.sync");
    assert!(
        joined.features
            == DetectedFeatures::of(Feature::Movmatrix) | DetectedFeatures::of(Feature::Sm80)
    );
    assert_eq!(joined.ptx_isa, PtxIsaRequirement::Ptx78);
}

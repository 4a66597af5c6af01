use cuda_oxide::export::{
    choose_backend, render_llvm_ir, resolve_nvvm_target, validate_nvvm_debug_support,
    BackendSettings, DebugKind, DeviceExternAttrs, DeviceExternDecl, DeviceExternType,
    ExportBackend, NvvmIrDialect, PipelineExportConfig,
};
use cuda_oxide::module::{module_uses_libdevice, unresolved_external_symbols, OpKind, Operation};
use cuda_oxide::target::detect::detect_features_in_llvm_text;
use cuda_oxide::target::features::{DetectedFeatures, Feature};
use cuda_oxide::verify::{find_inner_verification_error, verify_operation};
use cuda_oxide::error::PipelineError;

fn of(feature: Feature) -> DetectedFeatures {
    DetectedFeatures::of(feature)
}

fn basic() -> DetectedFeatures {
    DetectedFeatures::of(Feature::Basic)
}

#[test]
fn nvvm_target_resolution_is_concrete_and_strict() {
    let legacy = resolve_nvvm_target(Some("compute_90a"), Some("sm_120"), None).unwrap();
    assert_eq!(legacy.sm(), "sm_90a");
    assert!(legacy.uses_legacy_llvm());

    let modern = resolve_nvvm_target(None, Some("sm_120f"), None).unwrap();
    assert_eq!(modern.compute(), "compute_120f");
    assert!(!modern.uses_legacy_llvm());

    for target in [None, Some("nvvm-ir"), Some("sm_90x"), Some("86")] {
        assert!(
            resolve_nvvm_target(target, None, None).is_err(),
            "{target:?}"
        );
    }
}

#[test]
fn automatic_nvvm_target_uses_the_module_feature_floor() {
    for (features, expected, is_legacy) in [
        (basic(), "sm_80", true),
        (of(Feature::Sm80), "sm_80", true),
        (of(Feature::Sm90), "sm_90", true),
        (of(Feature::Cluster), "sm_90", true),
        (of(Feature::Wgmma), "sm_90a", true),
        (of(Feature::Tma), "sm_100", false),
        (of(Feature::TmaMulticast), "sm_100a", false),
        (of(Feature::Blackwell), "sm_100a", false),
    ] {
        let target = resolve_nvvm_target(None, None, Some(features)).unwrap();
        assert_eq!(target.sm(), expected, "{features:?}");
        assert_eq!(target.uses_legacy_llvm(), is_legacy, "{features:?}");
    }
}

#[test]
fn automatic_nvvm_target_uses_only_a_compatible_device_hint() {
    let turing = resolve_nvvm_target(None, Some("sm_75"), Some(basic())).unwrap();
    assert_eq!(turing.sm(), "sm_75");

    let sm80_on_turing =
        resolve_nvvm_target(None, Some("sm_75"), Some(of(Feature::Sm80))).unwrap();
    assert_eq!(sm80_on_turing.sm(), "sm_80");

    let blackwell = resolve_nvvm_target(None, Some("sm_120a"), Some(basic())).unwrap();
    assert_eq!(blackwell.sm(), "sm_120a");

    let sm80_on_blackwell =
        resolve_nvvm_target(None, Some("sm_120a"), Some(of(Feature::Sm80))).unwrap();
    assert_eq!(sm80_on_blackwell.sm(), "sm_120a");

    let ampere = resolve_nvvm_target(None, Some("sm_80"), Some(of(Feature::Sm80))).unwrap();
    assert_eq!(ampere.sm(), "sm_80");

    let hopper_floor = resolve_nvvm_target(None, Some("sm_80"), Some(of(Feature::Sm90))).unwrap();
    assert_eq!(hopper_floor.sm(), "sm_90");

    let forward_compatible =
        resolve_nvvm_target(None, Some("sm_120"), Some(of(Feature::Sm90))).unwrap();
    assert_eq!(forward_compatible.sm(), "sm_120");

    let hopper = resolve_nvvm_target(None, Some("sm_120a"), Some(of(Feature::Wgmma))).unwrap();
    assert_eq!(hopper.sm(), "sm_90a");

    assert!(resolve_nvvm_target(None, Some("not-an-arch"), Some(basic())).is_err());
}

#[test]
fn explicit_nvvm_target_rejects_a_detected_feature_below_its_floor() {
    let failure = resolve_nvvm_target(Some("sm_70"), None, Some(of(Feature::Movmatrix)))
        .unwrap_err();
    let error = failure.message();
    assert!(
        error.contains("cannot lower detected feature Movmatrix"),
        "{error}"
    );

    let target = resolve_nvvm_target(Some("sm_75"), None, Some(of(Feature::Movmatrix))).unwrap();
    assert_eq!(target.sm(), "sm_75");
}

#[test]
fn compatible_explicit_nvvm_target_wins_over_automatic_selection() {
    let target =
        resolve_nvvm_target(Some("sm_86"), Some("sm_120a"), Some(of(Feature::Sm80))).unwrap();
    assert_eq!(target.sm(), "sm_86");
}

#[test]
fn legacy_nvvm_debug_is_rejected() {
    let legacy = resolve_nvvm_target(Some("sm_90"), None, None).unwrap();
    assert!(
        validate_nvvm_debug_support(&legacy, NvvmIrDialect::LegacyLlvm7, DebugKind::LineTables)
            .is_err()
    );
    validate_nvvm_debug_support(&legacy, NvvmIrDialect::LegacyLlvm7, DebugKind::Off).unwrap();

    let modern = resolve_nvvm_target(Some("sm_120"), None, None).unwrap();
    validate_nvvm_debug_support(&modern, NvvmIrDialect::Modern, DebugKind::Full).unwrap();
}

#[test]
fn test_device_extern_decl_converts_to_export_decl() {
    let decl = DeviceExternDecl {
        export_name: "device_add".to_string(),
        param_types: vec![
            DeviceExternType::pointer_to(DeviceExternType::Float32, 0),
            DeviceExternType::Integer(32),
        ],
        return_type: DeviceExternType::Void,
        attrs: DeviceExternAttrs {
            is_convergent: true,
            is_pure: false,
            is_readonly: true,
        },
    };

    let exported = decl.as_device_extern();

    assert_eq!(exported.export_name, "device_add");
    assert_eq!(
        exported.param_types,
        [
            DeviceExternType::pointer_to(DeviceExternType::Float32, 0),
            DeviceExternType::Integer(32),
        ]
    );
    assert_eq!(exported.return_type, DeviceExternType::Void);
    assert!(exported.attrs.is_convergent);
    assert!(!exported.attrs.is_pure);
    assert!(exported.attrs.is_readonly);
}

fn operation(kind: OpKind, regions: usize, nested: Vec<Operation>) -> Operation {
    Operation {
        kind,
        regions,
        nested,
        fault: None,
        text: String::new(),
    }
}

fn declaration(name: &str) -> Operation {
    operation(OpKind::Func(name.to_string()), 0, vec![])
}

fn build_module_with_func_decl(name: &str) -> Operation {
    operation(OpKind::Other, 1, vec![declaration(name)])
}

#[test]
fn test_module_uses_libdevice_detects_nv_func_decl() {
    assert!(
        module_uses_libdevice(&build_module_with_func_decl("__nv_sqrtf")),
        "module containing `__nv_*` function declaration must be flagged"
    );
}

#[test]
fn in_memory_llvm_preview_uses_the_shared_feature_detector() {
    let text = "declare i32 @llvm.nvvm.tcgen05.alloc(i32)\n".to_string();
    let preview = render_llvm_ir(true, false, None, Ok(text)).unwrap();
    assert!(preview.contains("@llvm.nvvm.tcgen05.alloc"), "{preview}");
    assert_eq!(
        detect_features_in_llvm_text(&preview),
        of(Feature::Blackwell)
    );
}

#[test]
fn test_module_uses_libdevice_ignores_unrelated_funcs() {
    assert!(
        !module_uses_libdevice(&build_module_with_func_decl("kernel_main")),
        "module without any `__nv_*` symbols must not be flagged"
    );
}

#[test]
fn test_module_uses_libdevice_does_not_match_partial_prefix() {
    assert!(
        !module_uses_libdevice(&build_module_with_func_decl("__nvm_foo")),
        "names starting with `__nv` but not `__nv_` must not be flagged"
    );
}

#[test]
fn test_module_uses_libdevice_detects_direct_nv_call() {
    let call = operation(OpKind::DirectCall("__nv_sqrtf".to_string()), 0, vec![]);
    let module = operation(OpKind::Other, 1, vec![call]);
    assert!(
        module_uses_libdevice(&module),
        "direct call to a `__nv_*` symbol must be detected"
    );
}

#[test]
fn libdevice_is_found_deep_inside() {
    let call = operation(OpKind::DirectCall("__nv_expf".to_string()), 0, vec![]);
    let block = operation(OpKind::Other, 1, vec![operation(OpKind::Other, 0, vec![]), call]);
    let kernel = operation(OpKind::Func("kernel".to_string()), 1, vec![block]);
    let module = operation(OpKind::Other, 1, vec![declaration("helper"), kernel]);
    assert!(module_uses_libdevice(&module));
    let other = operation(OpKind::DirectCall("nv_expf".to_string()), 0, vec![]);
    assert!(!module_uses_libdevice(&other));
}

#[test]
fn needs_of_nested_operations_reach_the_module() {
    let inner = operation(
        OpKind::Other,
        1,
        vec![operation(OpKind::DirectCall("__nv_expf".to_string()), 0, Vec::new()),
             declaration("helper")],
    );
    assert!(module_uses_libdevice(&inner));
    assert_eq!(unresolved_external_symbols(&inner), vec!["helper".to_string()]);
    let outer = operation(OpKind::Other, 1, vec![declaration("other"), inner]);
    assert!(module_uses_libdevice(&outer));
    assert_eq!(
        unresolved_external_symbols(&outer),
        vec!["helper".to_string(), "other".to_string()]
    );
}

#[test]
fn unresolved_symbols_are_sorted_and_listed_once() {
    let defined = operation(
        OpKind::Func("kernel".to_string()),
        1,
        vec![declaration("vprintf"), declaration("zeta")],
    );
    let module = operation(
        OpKind::Other,
        1,
        vec![
            declaration("vprintf"),
            declaration("llvm_nvvm_barrier0"),
            defined,
            declaration("__nv_sinf"),
            declaration("abc"),
            declaration("ab"),
        ],
    );
    assert_eq!(
        unresolved_external_symbols(&module),
        ["__nv_sinf", "ab", "abc", "vprintf", "zeta"]
    );
    assert!(unresolved_external_symbols(&declaration("llvm_x")).is_empty());
}

fn faulty(fault: Option<&str>, text: &str, nested: Vec<Operation>) -> Operation {
    Operation {
        kind: OpKind::Other,
        regions: 1,
        nested,
        fault: fault.map(str::to_string),
        text: text.to_string(),
    }
}

#[test]
fn verification_reports_the_innermost_fault() {
    let inner = faulty(Some("bad operand"), "inner", vec![]);
    let later = faulty(Some("later"), "later", vec![]);
    let outer = faulty(Some("bad region"), "outer", vec![faulty(None, "fine", vec![]), inner]);
    let module = faulty(None, "module", vec![outer, later]);
    match verify_operation(&module, "kernel") {
        Err(PipelineError::Verification {
            name,
            message,
            operation,
        }) => {
            assert_eq!(name, "kernel");
            assert_eq!(message, "bad operand");
            assert_eq!(operation.as_deref(), Some("inner"));
        }
        other => panic!("{other:?}"),
    }
    assert_eq!(find_inner_verification_error(&module).unwrap().text, "inner");
}

#[test]
fn verification_passes_a_faultless_tree() {
    let module = faulty(None, "module", vec![faulty(None, "inner", vec![])]);
    assert!(verify_operation(&module, "kernel").is_ok());
    let own = faulty(Some("own"), "module", vec![faulty(None, "inner", vec![])]);
    assert_eq!(verify_operation(&own, "kernel").unwrap_err().message(), "own");
}

#[test]
fn nvvm_diagnostics_are_exact() {
    assert_eq!(
        resolve_nvvm_target(None, None, None).unwrap_err().message(),
        "NVVM IR requires a concrete CUDA target because pre-Blackwell and Blackwell+ use different \
         LLVM dialects; pass `cargo oxide ... --arch sm_XX` (or set CUDA_OXIDE_TARGET)"
    );
    assert!(resolve_nvvm_target(Some("sm_x"), None, None)
        .unwrap_err()
        .message()
        .starts_with("cannot select an NVVM IR dialect from the explicit CUDA target `sm_x`: "));
    assert!(resolve_nvvm_target(None, Some("gpu"), None)
        .unwrap_err()
        .message()
        .starts_with("cannot select an NVVM IR dialect from the detected GPU architecture `gpu`: "));
    let features = of(Feature::Wgmma).union(of(Feature::Blackwell));
    assert!(resolve_nvvm_target(None, None, Some(features))
        .unwrap_err()
        .message()
        .contains("do not share a compatible GPU architecture"));
    let legacy = resolve_nvvm_target(Some("sm_90"), None, None).unwrap();
    assert_eq!(
        validate_nvvm_debug_support(&legacy, NvvmIrDialect::LegacyLlvm7, DebugKind::Full)
            .unwrap_err()
            .message(),
        "legacy LLVM 7 NVVM IR for sm_90 does not yet support cuda-oxide debug metadata; rebuild \
         without device debug information"
    );
}

#[test]
fn backends_are_chosen_by_what_is_asked_for() {
    assert_eq!(
        choose_backend(true, false, Some(NvvmIrDialect::Modern)).unwrap(),
        ExportBackend::Ptx
    );
    assert_eq!(
        choose_backend(true, true, Some(NvvmIrDialect::LegacyLlvm7)).unwrap(),
        ExportBackend::Nvvm(NvvmIrDialect::LegacyLlvm7)
    );
    assert_eq!(
        choose_backend(true, true, None).unwrap_err().message(),
        "NVVM export reached without a selected IR dialect"
    );
    assert_eq!(
        choose_backend(false, true, None).unwrap_err().message(),
        "Not a module op"
    );
    assert_eq!(
        render_llvm_ir(true, false, None, Err("no exporter".to_string())).unwrap_err(),
        PipelineError::Export("no exporter".to_string())
    );
    assert_eq!(
        render_llvm_ir(true, true, None, Ok("text".to_string())).unwrap_err(),
        PipelineError::Export("NVVM export reached without a selected IR dialect".to_string())
    );
}

#[test]
fn export_config_overrides_only_the_debug_kind() {
    let config = PipelineExportConfig {
        inner: BackendSettings {
            datalayout: "e-i64:64".to_string(),
            emit_llvm_used: true,
            emit_nvvmir_version: false,
            nvvmir_version: [2, 0, 3, 1],
            emit_all_kernel_annotations: true,
            emit_ptx_kernel_keyword: false,
            nvvm_ir_dialect: Some(NvvmIrDialect::Modern),
            debug_kind: DebugKind::Off,
        },
        debug_kind: DebugKind::LineTables,
    };
    assert_eq!(config.datalayout(), "e-i64:64");
    assert!(config.emit_llvm_used());
    assert!(!config.emit_nvvmir_version());
    assert_eq!(config.nvvmir_version(), [2, 0, 3, 1]);
    assert!(config.emit_all_kernel_annotations());
    assert!(!config.emit_ptx_kernel_keyword());
    assert_eq!(config.nvvm_ir_dialect(), Some(NvvmIrDialect::Modern));
    assert_eq!(config.debug_kind(), DebugKind::LineTables);
}

#[test]
fn extern_attributes_default_to_no_promise() {
    let attrs = DeviceExternAttrs::default();
    assert!(!attrs.is_convergent && !attrs.is_pure && !attrs.is_readonly);
}

//! Export of a module as LLVM or NVVM IR: which target and which dialect.

use crate::arch::{arch_name, named_arch, CudaArch};
use crate::error::PipelineError;
use crate::target::features::DetectedFeatures;
use crate::target::select::{
    arch_satisfies, incompatible, incompatible_message, lemma_selected_names_are_canonical,
    name_satisfies, select_target, selects, validate_target_features, validation_message,
};
use vstd::prelude::*;

verus! {

/// The dialect of NVVM IR that a target takes.
#[derive(Clone, Copy, Debug, PartialEq, Eq, Structural)]
pub enum NvvmIrDialect {
    /// That of LLVM 7, for targets before Blackwell.
    LegacyLlvm7,
    /// The modern one, for Blackwell and later targets.
    Modern,
}

/// How much debug information is emitted.
#[derive(Clone, Copy, Debug, PartialEq, Eq, Structural)]
pub enum DebugKind {
    Off,
    LineTables,
    Full,
}

/// The type of a parameter or of the result of an external device function.
#[derive(Debug, PartialEq, Eq)]
pub enum DeviceExternType {
    Void,
    /// An integer of so many bits.
    Integer(u32),
    Float32,
    Float64,
    /// A pointer, with the type that it points to.
    Pointer { pointee: Box<DeviceExternType>, address_space: u32 },
}

impl DeviceExternType {
    /// A pointer to `pointee` in an address space.
    pub fn pointer_to(pointee: DeviceExternType, address_space: u32) -> (ty: DeviceExternType)
        ensures
            ty == (DeviceExternType::Pointer { pointee: Box::new(pointee), address_space }),
    {
        DeviceExternType::Pointer { pointee: Box::new(pointee), address_space }
    }

    /// A second value of the same type.
    pub fn duplicate(&self) -> (copy: DeviceExternType)
        ensures
            copy == *self,
        decreases self,
    {
        match self {
            DeviceExternType::Void => DeviceExternType::Void,
            DeviceExternType::Integer(bits) => DeviceExternType::Integer(*bits),
            DeviceExternType::Float32 => DeviceExternType::Float32,
            DeviceExternType::Float64 => DeviceExternType::Float64,
            DeviceExternType::Pointer { pointee, address_space } => DeviceExternType::Pointer {
                pointee: Box::new(pointee.duplicate()),
                address_space: *address_space,
            },
        }
    }
}

/// What is promised of an external device function. None of it is emitted: the
/// definition that is linked in has its own attributes.
#[derive(Clone, Debug, PartialEq, Eq, Hash, Structural)]
pub struct DeviceExternAttrs {
    /// All threads have to execute the function together.
    pub is_convergent: bool,
    /// The function has no side effects.
    pub is_pure: bool,
    /// The function does not write memory.
    pub is_readonly: bool,
}

impl Default for DeviceExternAttrs {
    /// No promise.
    fn default() -> (attrs: DeviceExternAttrs)
        ensures
            attrs == (DeviceExternAttrs {
                is_convergent: false,
                is_pure: false,
                is_readonly: false,
            }),
    {
        DeviceExternAttrs { is_convergent: false, is_pure: false, is_readonly: false }
    }
}

/// An external device function, which is declared here and linked in later.
#[derive(Debug)]
pub struct DeviceExternDecl {
    /// The name of the function.
    pub export_name: String,
    /// The types of its parameters.
    pub param_types: Vec<DeviceExternType>,
    /// The type of its result.
    pub return_type: DeviceExternType,
    /// What is promised of it.
    pub attrs: DeviceExternAttrs,
}

/// The declaration of an external device function as the exporter takes it.
#[derive(Debug)]
pub struct ExportedDecl {
    pub export_name: String,
    pub param_types: Vec<DeviceExternType>,
    pub return_type: DeviceExternType,
    pub attrs: ExportedAttrs,
}

/// What is promised of an external device function, as the exporter takes it.
#[derive(Clone, Copy, Debug, PartialEq, Eq, Structural)]
pub struct ExportedAttrs {
    pub is_convergent: bool,
    pub is_pure: bool,
    pub is_readonly: bool,
}

impl DeviceExternDecl {
    /// The declaration as the exporter takes it.
    pub fn as_device_extern(&self) -> (exported: ExportedDecl)
        ensures
            exported.export_name@ == self.export_name@,
            exported.param_types@ == self.param_types@,
            exported.return_type == self.return_type,
            exported.attrs.is_convergent == self.attrs.is_convergent,
            exported.attrs.is_pure == self.attrs.is_pure,
            exported.attrs.is_readonly == self.attrs.is_readonly,
    {
        let mut param_types: Vec<DeviceExternType> = Vec::new();
        let mut i: usize = 0;
        while i < self.param_types.len()
            invariant
                i <= self.param_types.len(),
                param_types@ == self.param_types@.take(i as int),
            decreases self.param_types.len() - i,
        {
            param_types.push(self.param_types[i].duplicate());
            i += 1;
            proof {
                assert(param_types@ =~= self.param_types@.take(i as int));
            }
        }
        proof {
            assert(self.param_types@.take(i as int) =~= self.param_types@);
        }
        ExportedDecl {
            export_name: self.export_name.clone(),
            param_types,
            return_type: self.return_type.duplicate(),
            attrs: ExportedAttrs {
                is_convergent: self.attrs.is_convergent,
                is_pure: self.attrs.is_pure,
                is_readonly: self.attrs.is_readonly,
            },
        }
    }
}

/// The diagnostic for a name from `source` that is no architecture.
pub open spec fn unread_target_message(source: Seq<char>, target: Seq<char>) -> Seq<char> {
    "cannot select an NVVM IR dialect from the "@ + source + " `"@ + target + "`: "@
        + "expected `sm_` or `compute_`, a compute capability and an optional `a` or `f`"@
}

/// The diagnostic where nothing names a target.
pub open spec fn no_target_message() -> Seq<char> {
    "NVVM IR requires a concrete CUDA target because pre-Blackwell and Blackwell+ use different LLVM dialects; pass `cargo oxide ... --arch sm_XX` (or set CUDA_OXIDE_TARGET)"@
}

/// `resolved` is the architecture that `target` names, or else the diagnostic
/// for the name.
pub open spec fn read_as(
    resolved: Result<CudaArch, PipelineError>,
    target: Seq<char>,
    source: Seq<char>,
) -> bool {
    match named_arch(target) {
        Some(arch) => resolved matches Ok(found) && (found.capability_number(), found.suffix_letter())
            == arch,
        None => resolved matches Err(PipelineError::Export(message)) && message@
            == unread_target_message(source, target),
    }
}

/// Reads the name of an architecture that came from `source`.
fn read_target(target: &str, source: &str) -> (resolved: Result<CudaArch, PipelineError>)
    ensures
        read_as(resolved, target@, source@),
{
    match CudaArch::parse(target) {
        Ok(arch) => Ok(arch),
        Err(error) => {
            let mut message = "cannot select an NVVM IR dialect from the ".to_owned();
            message.append(source);
            message.append(" `");
            message.append(target);
            message.append("`: ");
            message.append(error.message());
            Err(PipelineError::Export(message))
        },
    }
}

/// The name of an architecture has every feature of the set.
pub open spec fn named_target_satisfies(target: Seq<char>, features: DetectedFeatures) -> bool {
    match named_arch(target) {
        Some((capability, suffix)) => name_satisfies(
            arch_name("sm_"@, capability, suffix),
            features@,
        ),
        None => false,
    }
}

/// What [`resolve_nvvm_target`] gives.
pub open spec fn resolves_nvvm(
    explicit_target: Option<&str>,
    device_arch_hint: Option<&str>,
    automatic_features: Option<DetectedFeatures>,
    resolved: Result<CudaArch, PipelineError>,
) -> bool {
    match explicit_target {
        Some(target) => match automatic_features {
            Some(features) => if named_arch(target@) is Some && !named_target_satisfies(
                target@,
                features,
            ) {
                let (capability, suffix) = named_arch(target@)->Some_0;
                resolved matches Err(PipelineError::Export(message)) && validation_message(
                    arch_name("sm_"@, capability, suffix),
                    features@,
                    message@,
                )
            } else {
                read_as(resolved, target@, "explicit CUDA target"@)
            },
            None => read_as(resolved, target@, "explicit CUDA target"@),
        },
        None => match automatic_features {
            Some(features) => if device_arch_hint is Some && (named_arch(
                device_arch_hint->Some_0@,
            ) is None || named_target_satisfies(device_arch_hint->Some_0@, features)) {
                read_as(resolved, device_arch_hint->Some_0@, "detected GPU architecture"@)
            } else if incompatible(features@) {
                resolved matches Err(PipelineError::Export(message)) && message@
                    == incompatible_message(features@)
            } else {
                resolved matches Ok(found) && selects(features@, found.sm_name())
            },
            None => match device_arch_hint {
                Some(target) => read_as(resolved, target@, "detected GPU architecture"@),
                None => resolved matches Err(PipelineError::Export(message)) && message@
                    == no_target_message(),
            },
        },
    }
}

/// Chooses the target of NVVM IR. An explicit target wins, and has to have the
/// detected features. Without one, the GPU of this machine is taken where it
/// has them, and else the target that the features alone select. Where neither
/// features nor a GPU are known, no target is chosen.
pub fn resolve_nvvm_target(
    explicit_target: Option<&str>,
    device_arch_hint: Option<&str>,
    automatic_features: Option<DetectedFeatures>,
) -> (resolved: Result<CudaArch, PipelineError>)
    ensures
        resolves_nvvm(explicit_target, device_arch_hint, automatic_features, resolved),
{
    if let Some(target) = explicit_target {
        let parsed = match read_target(target, "explicit CUDA target") {
            Ok(parsed) => parsed,
            Err(error) => {
                return Err(error);
            },
        };
        if let Some(features) = automatic_features {
            match validate_target_features(&parsed, features) {
                Ok(_) => {},
                Err(message) => {
                    return Err(PipelineError::Export(message));
                },
            }
        }
        return Ok(parsed);
    }
    if let Some(features) = automatic_features {
        if let Some(target) = device_arch_hint {
            let parsed = match read_target(target, "detected GPU architecture") {
                Ok(parsed) => parsed,
                Err(error) => {
                    return Err(error);
                },
            };
            if arch_satisfies(parsed.sm().as_str(), features) {
                return Ok(parsed);
            }
        }
        let target = match select_target(features) {
            Ok(target) => target,
            Err(message) => {
                return Err(PipelineError::Export(message));
            },
        };
        proof {
            lemma_selected_names_are_canonical(features@, target@);
        }
        return read_target(target, "feature-based compiler default");
    }
    if let Some(target) = device_arch_hint {
        return read_target(target, "detected GPU architecture");
    }
    Err(
        PipelineError::Export(
            "NVVM IR requires a concrete CUDA target because pre-Blackwell and Blackwell+ use different LLVM dialects; pass `cargo oxide ... --arch sm_XX` (or set CUDA_OXIDE_TARGET)".to_owned(),
        ),
    )
}

/// The diagnostic for debug information that a target cannot take.
pub open spec fn no_debug_message(target: Seq<char>) -> Seq<char> {
    "legacy LLVM 7 NVVM IR for "@ + target
        + " does not yet support cuda-oxide debug metadata; rebuild without device debug information"@
}

/// Rejects debug information in the dialect of LLVM 7.
pub fn validate_nvvm_debug_support(
    target: &CudaArch,
    dialect: NvvmIrDialect,
    debug_kind: DebugKind,
) -> (verdict: Result<(), PipelineError>)
    ensures
        if dialect == NvvmIrDialect::LegacyLlvm7 && debug_kind != DebugKind::Off {
            verdict matches Err(PipelineError::Export(message)) && message@ == no_debug_message(
                target.sm_name(),
            )
        } else {
            verdict is Ok
        },
{
    if dialect == NvvmIrDialect::LegacyLlvm7 && debug_kind != DebugKind::Off {
        let mut message = "legacy LLVM 7 NVVM IR for ".to_owned();
        message.append(target.sm().as_str());
        message.append(
            " does not yet support cuda-oxide debug metadata; rebuild without device debug information",
        );
        return Err(PipelineError::Export(message));
    }
    Ok(())
}

/// What a backend settles about the IR that is exported for it.
#[derive(Debug)]
pub struct BackendSettings {
    pub datalayout: String,
    pub emit_llvm_used: bool,
    pub emit_nvvmir_version: bool,
    pub nvvmir_version: [i32; 4],
    pub emit_all_kernel_annotations: bool,
    pub emit_ptx_kernel_keyword: bool,
    pub nvvm_ir_dialect: Option<NvvmIrDialect>,
    pub debug_kind: DebugKind,
}

/// The settings of a backend, but with the debug information that was asked
/// for.
#[derive(Debug)]
pub struct PipelineExportConfig {
    pub inner: BackendSettings,
    pub debug_kind: DebugKind,
}

impl PipelineExportConfig {
    /// The data layout of the backend.
    pub fn datalayout(&self) -> (layout: &str)
        ensures
            layout@ == self.inner.datalayout@,
    {
        self.inner.datalayout.as_str()
    }

    /// Whether the backend keeps its symbols by `llvm.used`.
    pub fn emit_llvm_used(&self) -> (emitted: bool)
        ensures
            emitted == self.inner.emit_llvm_used,
    {
        self.inner.emit_llvm_used
    }

    /// Whether the backend states the version of NVVM IR.
    pub fn emit_nvvmir_version(&self) -> (emitted: bool)
        ensures
            emitted == self.inner.emit_nvvmir_version,
    {
        self.inner.emit_nvvmir_version
    }

    /// The version of NVVM IR.
    pub fn nvvmir_version(&self) -> (version: [i32; 4])
        ensures
            version == self.inner.nvvmir_version,
    {
        self.inner.nvvmir_version
    }

    /// Whether the backend annotates all kernels.
    pub fn emit_all_kernel_annotations(&self) -> (emitted: bool)
        ensures
            emitted == self.inner.emit_all_kernel_annotations,
    {
        self.inner.emit_all_kernel_annotations
    }

    /// Whether the backend marks kernels by `ptx_kernel`.
    pub fn emit_ptx_kernel_keyword(&self) -> (emitted: bool)
        ensures
            emitted == self.inner.emit_ptx_kernel_keyword,
    {
        self.inner.emit_ptx_kernel_keyword
    }

    /// The dialect of NVVM IR, if the backend takes NVVM IR.
    pub fn nvvm_ir_dialect(&self) -> (dialect: Option<NvvmIrDialect>)
        ensures
            dialect == self.inner.nvvm_ir_dialect,
    {
        self.inner.nvvm_ir_dialect
    }

    /// The debug information that was asked for.
    pub fn debug_kind(&self) -> (debug_kind: DebugKind)
        ensures
            debug_kind == self.debug_kind,
    {
        self.debug_kind
    }
}

/// The backend that a module is exported for.
#[derive(Clone, Copy, Debug, PartialEq, Eq, Structural)]
pub enum ExportBackend {
    /// Standard LLVM IR, for PTX.
    Ptx,
    /// NVVM IR in a dialect.
    Nvvm(NvvmIrDialect),
}

/// Chooses the backend to export for: NVVM IR in the dialect that was selected
/// where it is asked for, and else LLVM IR. Only a module is exported.
pub fn choose_backend(
    is_module: bool,
    emit_nvvm_ir: bool,
    nvvm_dialect: Option<NvvmIrDialect>,
) -> (chosen: Result<ExportBackend, PipelineError>)
    ensures
        if !is_module {
            chosen matches Err(PipelineError::Export(message)) && message@ == "Not a module op"@
        } else if !emit_nvvm_ir {
            chosen == Ok::<ExportBackend, PipelineError>(ExportBackend::Ptx)
        } else {
            match nvvm_dialect {
                Some(dialect) => chosen == Ok::<ExportBackend, PipelineError>(
                    ExportBackend::Nvvm(dialect),
                ),
                None => chosen matches Err(PipelineError::Export(message)) && message@
                    == "NVVM export reached without a selected IR dialect"@,
            }
        },
{
    if !is_module {
        return Err(PipelineError::Export("Not a module op".to_owned()));
    }
    if emit_nvvm_ir {
        match nvvm_dialect {
            Some(dialect) => Ok(ExportBackend::Nvvm(dialect)),
            None => Err(
                PipelineError::Export(
                    "NVVM export reached without a selected IR dialect".to_owned(),
                ),
            ),
        }
    } else {
        Ok(ExportBackend::Ptx)
    }
}

/// Chooses the backend and hands on what the exporter made of the module for
/// it. `rendered` is the exporter's reply for the backend that
/// `choose_backend` gives on the same arguments: the text or a diagnostic.
pub fn render_llvm_ir(
    is_module: bool,
    emit_nvvm_ir: bool,
    nvvm_dialect: Option<NvvmIrDialect>,
    rendered: Result<String, String>,
) -> (text: Result<String, PipelineError>)
    ensures
        !is_module || (emit_nvvm_ir && nvvm_dialect is None) ==> text is Err,
        !is_module ==> (text matches Err(PipelineError::Export(message)) && message@
            == "Not a module op"@),
        is_module && emit_nvvm_ir && nvvm_dialect is None ==> (text matches Err(
            PipelineError::Export(message),
        ) && message@ == "NVVM export reached without a selected IR dialect"@),
        is_module && (!emit_nvvm_ir || nvvm_dialect is Some) ==> match rendered {
            Ok(module_text) => text matches Ok(handed) && handed@ == module_text@,
            Err(cause) => text matches Err(PipelineError::Export(message)) && message@ == cause@,
        },
{
    match choose_backend(is_module, emit_nvvm_ir, nvvm_dialect) {
        Err(error) => Err(error),
        Ok(_) => match rendered {
            Ok(module_text) => Ok(module_text),
            Err(cause) => Err(PipelineError::Export(cause)),
        },
    }
}

/// A target that is chosen by the detected features alone, or as the GPU of
/// this machine, or that is explicit, has the features.
pub proof fn resolved_nvvm_targets_have_the_features(
    explicit_target: Option<&str>,
    device_arch_hint: Option<&str>,
    features: DetectedFeatures,
    resolved: Result<CudaArch, PipelineError>,
)
    requires
        resolves_nvvm(explicit_target, device_arch_hint, Some(features), resolved),
        resolved is Ok,
    ensures
        name_satisfies(resolved->Ok_0.sm_name(), features@),
{
}

/// An explicit target that has the features wins over everything else.
pub proof fn explicit_nvvm_targets_win(
    target: &str,
    device_arch_hint: Option<&str>,
    automatic_features: Option<DetectedFeatures>,
    resolved: Result<CudaArch, PipelineError>,
)
    requires
        resolves_nvvm(Some(target), device_arch_hint, automatic_features, resolved),
        named_arch(target@) is Some,
        automatic_features matches Some(features) ==> named_target_satisfies(target@, features),
    ensures
        resolved matches Ok(found) && named_arch(target@) == Some(
            (found.capability_number(), found.suffix_letter()),
        ),
{
}

/// Without an explicit target, a GPU of this machine that has the features is
/// the target, and one that lacks them is passed over for a target that has
/// them, unless no target has.
pub proof fn local_gpus_are_taken_where_they_fit(
    hint: &str,
    features: DetectedFeatures,
    resolved: Result<CudaArch, PipelineError>,
)
    requires
        call_ensures(resolve_nvvm_target, (None::<&str>, Some(hint), Some(features)), resolved),
        named_arch(hint@) is Some,
    ensures
        named_target_satisfies(hint@, features) ==> (resolved matches Ok(found) && named_arch(
            hint@,
        ) == Some((found.capability_number(), found.suffix_letter()))),
        !named_target_satisfies(hint@, features) ==> match resolved {
            Ok(found) => name_satisfies(found.sm_name(), features@) && named_arch(hint@) != Some(
                (found.capability_number(), found.suffix_letter()),
            ),
            Err(_) => incompatible(features@),
        },
{
}

/// Without detected features a GPU of this machine is taken as it is, an
/// explicit target too, and without either there is no target.
pub proof fn targets_without_features_are_taken_as_named(
    name: &str,
    hint: Option<&str>,
    explicit: Result<CudaArch, PipelineError>,
    local: Result<CudaArch, PipelineError>,
    neither: Result<CudaArch, PipelineError>,
)
    requires
        call_ensures(
            resolve_nvvm_target,
            (Some(name), hint, None::<DetectedFeatures>),
            explicit,
        ),
        call_ensures(
            resolve_nvvm_target,
            (None::<&str>, Some(name), None::<DetectedFeatures>),
            local,
        ),
        call_ensures(
            resolve_nvvm_target,
            (None::<&str>, None::<&str>, None::<DetectedFeatures>),
            neither,
        ),
    ensures
        explicit is Ok <==> named_arch(name@) is Some,
        local is Ok <==> named_arch(name@) is Some,
        explicit matches Ok(found) ==> named_arch(name@) == Some(
            (found.capability_number(), found.suffix_letter()),
        ),
        local matches Ok(found) ==> named_arch(name@) == Some(
            (found.capability_number(), found.suffix_letter()),
        ),
        neither is Err,
{
}

/// An explicit target that lacks a detected feature is an error, whatever GPU
/// this machine has.
pub proof fn explicit_targets_need_the_features(
    target: &str,
    hint: Option<&str>,
    features: DetectedFeatures,
    resolved: Result<CudaArch, PipelineError>,
)
    requires
        call_ensures(resolve_nvvm_target, (Some(target), hint, Some(features)), resolved),
    ensures
        resolved is Ok <==> named_arch(target@) is Some && named_target_satisfies(
            target@,
            features,
        ),
        resolved matches Ok(found) ==> named_arch(target@) == Some(
            (found.capability_number(), found.suffix_letter()),
        ),
        resolved matches Err(error) ==> error is Export,
{
}

/// Debug information of any kind is refused exactly in the dialect that cannot
/// hold it, and no debug information is never refused.
pub proof fn debug_information_needs_the_modern_dialect(
    target: CudaArch,
    dialect: NvvmIrDialect,
    debug_kind: DebugKind,
    verdict: Result<(), PipelineError>,
)
    requires
        call_ensures(validate_nvvm_debug_support, (&target, dialect, debug_kind), verdict),
    ensures
        debug_kind is Off ==> verdict is Ok,
        dialect is Modern ==> verdict is Ok,
        debug_kind is LineTables && dialect is LegacyLlvm7 ==> verdict is Err,
        debug_kind is Full && dialect is LegacyLlvm7 ==> verdict is Err,
        verdict matches Err(error) ==> error matches PipelineError::Export(message)
            && crate::text::occurs(message@, target.sm_name()),
{
    if verdict is Err {
        crate::text::occurrences_split_the_text(
            verdict->Err_0->Export_0@,
            target.sm_name(),
        );
    }
}

/// A module is exported as NVVM IR exactly if that is asked for, and then in
/// the dialect that was selected. What is no module is never exported.
pub proof fn backends_are_what_was_asked_for(
    is_module: bool,
    emit_nvvm_ir: bool,
    dialect: Option<NvvmIrDialect>,
    chosen: Result<ExportBackend, PipelineError>,
)
    requires
        call_ensures(choose_backend, (is_module, emit_nvvm_ir, dialect), chosen),
    ensures
        chosen matches Ok(ExportBackend::Ptx) ==> is_module && !emit_nvvm_ir,
        chosen matches Ok(ExportBackend::Nvvm(taken)) ==> is_module && emit_nvvm_ir && dialect
            == Some(taken),
        chosen is Err <==> !is_module || (emit_nvvm_ir && dialect is None),
{
}

/// What the exporter made is handed on as it is, text or diagnostic, where a
/// backend was chosen, and nothing is handed on where none was.
pub proof fn exported_texts_are_handed_on(
    is_module: bool,
    emit_nvvm_ir: bool,
    dialect: Option<NvvmIrDialect>,
    rendered: Result<String, String>,
    chosen: Result<ExportBackend, PipelineError>,
    text: Result<String, PipelineError>,
)
    requires
        call_ensures(choose_backend, (is_module, emit_nvvm_ir, dialect), chosen),
        call_ensures(render_llvm_ir, (is_module, emit_nvvm_ir, dialect, rendered), text),
    ensures
        text is Ok <==> chosen is Ok && rendered is Ok,
        text matches Ok(handed) ==> handed@ == rendered->Ok_0@,
        chosen is Ok && rendered is Err ==> text->Err_0.text() == rendered->Err_0@,
        chosen is Err ==> text->Err_0.text() == chosen->Err_0.text(),
{
}

/// A declaration is handed to the exporter with every part of it in its place.
pub proof fn declarations_are_handed_on(decl: DeviceExternDecl, exported: ExportedDecl)
    requires
        call_ensures(DeviceExternDecl::as_device_extern, (&decl,), exported),
    ensures
        exported.export_name@ == decl.export_name@,
        exported.param_types@.len() == decl.param_types@.len(),
        forall|i: int|
            0 <= i < decl.param_types@.len() ==> exported.param_types@[i]
                == #[trigger] decl.param_types@[i],
        exported.return_type == decl.return_type,
        exported.attrs.is_convergent <==> decl.attrs.is_convergent,
        exported.attrs.is_pure <==> decl.attrs.is_pure,
        exported.attrs.is_readonly <==> decl.attrs.is_readonly,
{
}

} // verus!

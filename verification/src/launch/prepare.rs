//! Preparation of a launch: which question to put to the driver next, and what
//! the answers add up to.
//!
//! A [`Preparation`] holds the answers so far. [`Preparation::step`] decides
//! from them: ask the driver something, give up with an error, or be ready. The
//! caller performs the question and records the reply.

use std::marker::PhantomData;

use vstd::prelude::*;

use crate::driver::{CudaFunction, CudaStream, DriverError, CUDA_ERROR_INVALID_CLUSTER_SIZE,
    CUDA_ERROR_INVALID_VALUE};
use crate::launch::config::{KernelLaunchConfig, LaunchConfig};
use crate::launch::contract::{DeviceLaunchLimits, KernelLaunchContract, LaunchContractSpec};
use crate::launch::error::{LaunchContractError, LaunchDimension};
use crate::launch::validate::{capability_reaches, dynamic_shared_memory_max,
    largest_allocation, live_shape_checks_are_complete, live_shape_fault, shape_product,
    shared_memory_total, static_checks_are_complete, static_fault, statically_valid,
    validate_cluster_residency, validate_cluster_size, validate_cluster_support,
    validate_compute_capability, validate_cooperative_residency, validate_cooperative_support,
    validate_live_shape, validate_required_cluster, validate_shared_memory_limit, validate_static,
    volume, within};

verus! {

/// A question to the CUDA driver, or the one change that preparation makes.
#[derive(Clone, Copy, Debug, PartialEq, Eq)]
pub enum DriverQuery {
    /// The launch limits of the function's device.
    LaunchLimits,
    /// The function's maximum threads per block.
    FunctionMaxThreads,
    /// The function's static shared memory, in bytes.
    StaticSharedMemory,
    /// The dynamic shared memory that the function may use now, in bytes.
    MaxDynamicSharedMemory,
    /// The device's opt-in shared-memory limit per block, in bytes.
    OptInSharedMemory,
    /// The device's compute capability.
    ComputeCapability,
    /// Does the device launch clusters?
    ClusterSupport,
    /// The cluster dimensions compiled into the function.
    RequiredCluster,
    /// Does the device launch cooperatively?
    CooperativeSupport,
    /// Raise the function's dynamic shared-memory maximum to this many bytes.
    SetMaxDynamicSharedMemory(u32),
    /// The largest cluster that the function and launch shape allow, in blocks.
    MaxPotentialClusterSize { grid: (u32, u32, u32), block: (u32, u32, u32), shared_bytes: u32 },
    /// The clusters of this shape that can be active.
    MaxActiveClusters {
        grid: (u32, u32, u32),
        block: (u32, u32, u32),
        shared_bytes: u32,
        cluster: (u32, u32, u32),
    },
    /// The blocks that one multiprocessor can hold.
    MaxActiveBlocks { threads: u32, shared_bytes: u32 },
    /// The device's multiprocessors.
    MultiprocessorCount,
}

/// What the driver said so far. `None` stands for a question not asked yet.
#[derive(Clone, Copy, Debug)]
pub struct LiveFacts {
    pub limits: Option<Result<DeviceLaunchLimits, DriverError>>,
    pub function_max_threads: Option<Result<u32, DriverError>>,
    pub static_shared: Option<Result<u32, DriverError>>,
    pub max_dynamic_shared: Option<Result<u32, DriverError>>,
    pub opt_in_shared: Option<Result<u32, DriverError>>,
    pub compute_capability: Option<Result<(i32, i32), DriverError>>,
    pub cluster_support: Option<Result<bool, DriverError>>,
    pub required_cluster: Option<Result<Option<(u32, u32, u32)>, DriverError>>,
    pub cooperative_support: Option<Result<bool, DriverError>>,
    pub max_dynamic_shared_set: Option<Result<(), DriverError>>,
    pub max_cluster_size: Option<Result<u32, DriverError>>,
    pub active_clusters: Option<Result<u32, DriverError>>,
    pub active_blocks: Option<Result<u32, DriverError>>,
    pub multiprocessors: Option<Result<u32, DriverError>>,
}

/// The driver's reply to one question.
#[derive(Clone, Copy, Debug)]
pub enum DriverReply {
    LaunchLimits(Result<DeviceLaunchLimits, DriverError>),
    FunctionMaxThreads(Result<u32, DriverError>),
    StaticSharedMemory(Result<u32, DriverError>),
    MaxDynamicSharedMemory(Result<u32, DriverError>),
    OptInSharedMemory(Result<u32, DriverError>),
    ComputeCapability(Result<(i32, i32), DriverError>),
    ClusterSupport(Result<bool, DriverError>),
    RequiredCluster(Result<Option<(u32, u32, u32)>, DriverError>),
    CooperativeSupport(Result<bool, DriverError>),
    SetMaxDynamicSharedMemory(Result<(), DriverError>),
    MaxPotentialClusterSize(Result<u32, DriverError>),
    MaxActiveClusters(Result<u32, DriverError>),
    MaxActiveBlocks(Result<u32, DriverError>),
    MultiprocessorCount(Result<u32, DriverError>),
}

/// What preparation does next.
#[derive(Debug)]
pub enum Step {
    /// Put this to the driver and record the reply.
    Ask(DriverQuery),
    /// The launch is refused.
    Fail(LaunchContractError),
    /// Every check has passed.
    Ready,
}

/// No question has been asked.
pub open spec fn nothing_known() -> LiveFacts {
    LiveFacts {
        limits: None,
        function_max_threads: None,
        static_shared: None,
        max_dynamic_shared: None,
        opt_in_shared: None,
        compute_capability: None,
        cluster_support: None,
        required_cluster: None,
        cooperative_support: None,
        max_dynamic_shared_set: None,
        max_cluster_size: None,
        active_clusters: None,
        active_blocks: None,
        multiprocessors: None,
    }
}

/// The facts with one more reply.
pub open spec fn with_reply(facts: LiveFacts, reply: DriverReply) -> LiveFacts {
    match reply {
        DriverReply::LaunchLimits(answer) => LiveFacts { limits: Some(answer), ..facts },
        DriverReply::FunctionMaxThreads(answer) => LiveFacts {
            function_max_threads: Some(answer),
            ..facts
        },
        DriverReply::StaticSharedMemory(answer) => LiveFacts {
            static_shared: Some(answer),
            ..facts
        },
        DriverReply::MaxDynamicSharedMemory(answer) => LiveFacts {
            max_dynamic_shared: Some(answer),
            ..facts
        },
        DriverReply::OptInSharedMemory(answer) => LiveFacts {
            opt_in_shared: Some(answer),
            ..facts
        },
        DriverReply::ComputeCapability(answer) => LiveFacts {
            compute_capability: Some(answer),
            ..facts
        },
        DriverReply::ClusterSupport(answer) => LiveFacts {
            cluster_support: Some(answer),
            ..facts
        },
        DriverReply::RequiredCluster(answer) => LiveFacts {
            required_cluster: Some(answer),
            ..facts
        },
        DriverReply::CooperativeSupport(answer) => LiveFacts {
            cooperative_support: Some(answer),
            ..facts
        },
        DriverReply::SetMaxDynamicSharedMemory(answer) => LiveFacts {
            max_dynamic_shared_set: Some(answer),
            ..facts
        },
        DriverReply::MaxPotentialClusterSize(answer) => LiveFacts {
            max_cluster_size: Some(answer),
            ..facts
        },
        DriverReply::MaxActiveClusters(answer) => LiveFacts {
            active_clusters: Some(answer),
            ..facts
        },
        DriverReply::MaxActiveBlocks(answer) => LiveFacts { active_blocks: Some(answer), ..facts },
        DriverReply::MultiprocessorCount(answer) => LiveFacts {
            multiprocessors: Some(answer),
            ..facts
        },
    }
}

/// The question has been answered.
pub open spec fn answered(facts: LiveFacts, query: DriverQuery) -> bool {
    match query {
        DriverQuery::LaunchLimits => facts.limits is Some,
        DriverQuery::FunctionMaxThreads => facts.function_max_threads is Some,
        DriverQuery::StaticSharedMemory => facts.static_shared is Some,
        DriverQuery::MaxDynamicSharedMemory => facts.max_dynamic_shared is Some,
        DriverQuery::OptInSharedMemory => facts.opt_in_shared is Some,
        DriverQuery::ComputeCapability => facts.compute_capability is Some,
        DriverQuery::ClusterSupport => facts.cluster_support is Some,
        DriverQuery::RequiredCluster => facts.required_cluster is Some,
        DriverQuery::CooperativeSupport => facts.cooperative_support is Some,
        DriverQuery::SetMaxDynamicSharedMemory(_) => facts.max_dynamic_shared_set is Some,
        DriverQuery::MaxPotentialClusterSize { .. } => facts.max_cluster_size is Some,
        DriverQuery::MaxActiveClusters { .. } => facts.active_clusters is Some,
        DriverQuery::MaxActiveBlocks { .. } => facts.active_blocks is Some,
        DriverQuery::MultiprocessorCount => facts.multiprocessors is Some,
    }
}

/// The reply answers the question.
pub open spec fn answers(reply: DriverReply, query: DriverQuery) -> bool {
    match query {
        DriverQuery::LaunchLimits => reply is LaunchLimits,
        DriverQuery::FunctionMaxThreads => reply is FunctionMaxThreads,
        DriverQuery::StaticSharedMemory => reply is StaticSharedMemory,
        DriverQuery::MaxDynamicSharedMemory => reply is MaxDynamicSharedMemory,
        DriverQuery::OptInSharedMemory => reply is OptInSharedMemory,
        DriverQuery::ComputeCapability => reply is ComputeCapability,
        DriverQuery::ClusterSupport => reply is ClusterSupport,
        DriverQuery::RequiredCluster => reply is RequiredCluster,
        DriverQuery::CooperativeSupport => reply is CooperativeSupport,
        DriverQuery::SetMaxDynamicSharedMemory(_) => reply is SetMaxDynamicSharedMemory,
        DriverQuery::MaxPotentialClusterSize { .. } => reply is MaxPotentialClusterSize,
        DriverQuery::MaxActiveClusters { .. } => reply is MaxActiveClusters,
        DriverQuery::MaxActiveBlocks { .. } => reply is MaxActiveBlocks,
        DriverQuery::MultiprocessorCount => reply is MultiprocessorCount,
    }
}

/// The value that the driver gave, or the step to take without one.
pub open spec fn known<T>(answer: Option<Result<T, DriverError>>, query: DriverQuery) -> Result<
    T,
    Step,
> {
    match answer {
        None => Err(Step::Ask(query)),
        Some(Err(error)) => Err(Step::Fail(LaunchContractError::Driver(error))),
        Some(Ok(value)) => Ok(value),
    }
}

/// The step of `earlier`, where it has one.
pub open spec fn unless(earlier: Option<Step>, later: Option<Step>) -> Option<Step> {
    if earlier is Some {
        earlier
    } else {
        later
    }
}

/// Gives up with a fault, where there is one.
pub open spec fn refuse(fault: Option<LaunchContractError>) -> Option<Step> {
    match fault {
        Some(error) => Some(Step::Fail(error)),
        None => None,
    }
}

/// What the device and the function offer.
#[derive(Clone, Copy, Debug)]
pub struct Resources {
    pub limits: DeviceLaunchLimits,
    pub function_max_threads: u32,
    pub static_shared: u32,
    pub max_dynamic_shared: u32,
}

/// The four answers that every preparation needs, asked in this order.
pub open spec fn resources(facts: LiveFacts) -> Result<Resources, Step> {
    match known(facts.limits, DriverQuery::LaunchLimits) {
        Err(step) => Err(step),
        Ok(limits) => match known(facts.function_max_threads, DriverQuery::FunctionMaxThreads) {
            Err(step) => Err(step),
            Ok(function_max_threads) => match known(
                facts.static_shared,
                DriverQuery::StaticSharedMemory,
            ) {
                Err(step) => Err(step),
                Ok(static_shared) => match known(
                    facts.max_dynamic_shared,
                    DriverQuery::MaxDynamicSharedMemory,
                ) {
                    Err(step) => Err(step),
                    Ok(max_dynamic_shared) => Ok(
                        Resources {
                            limits,
                            function_max_threads,
                            static_shared,
                            max_dynamic_shared,
                        },
                    ),
                },
            },
        },
    }
}

/// Static shared memory plus the contract's dynamic maximum.
pub open spec fn shared_demand(spec: LaunchContractSpec, found: Resources) -> int {
    found.static_shared + largest_allocation(spec.shared_memory_rule())
}

/// The demand must fit the portable limit or, failing that, the opt-in limit,
/// which is asked for only then.
pub open spec fn shared_memory_step(
    spec: LaunchContractSpec,
    facts: LiveFacts,
    found: Resources,
) -> Option<Step> {
    let total = shared_demand(spec, found);
    if total > u32::MAX {
        Some(
            Step::Fail(
                LaunchContractError::SharedMemoryTotalOverflow {
                    kernel: spec.kernel(),
                    static_bytes: found.static_shared,
                    dynamic_bytes: largest_allocation(spec.shared_memory_rule()),
                },
            ),
        )
    } else if total <= found.limits.max_shared_memory_per_block {
        None
    } else {
        match known(facts.opt_in_shared, DriverQuery::OptInSharedMemory) {
            Err(step) => Some(step),
            Ok(max) => if total <= max {
                None
            } else {
                Some(
                    Step::Fail(
                        LaunchContractError::DeviceSharedMemoryExceeded {
                            kernel: spec.kernel(),
                            total: total as u64,
                            max,
                            opt_in: true,
                        },
                    ),
                )
            },
        }
    }
}

/// A declared minimum capability must be reached.
pub open spec fn capability_step(spec: LaunchContractSpec, facts: LiveFacts) -> Option<Step> {
    match spec.capability_floor() {
        None => None,
        Some(required) => match known(facts.compute_capability, DriverQuery::ComputeCapability) {
            Err(step) => Some(step),
            Ok((major, minor)) => if major < 0 || minor < 0 {
                Some(
                    Step::Fail(
                        LaunchContractError::Driver(DriverError(CUDA_ERROR_INVALID_VALUE)),
                    ),
                )
            } else if capability_reaches((major as u32, minor as u32), required) {
                None
            } else {
                Some(
                    Step::Fail(
                        LaunchContractError::ComputeCapabilityTooLow {
                            kernel: spec.kernel(),
                            required,
                            actual: (major as u32, minor as u32),
                        },
                    ),
                )
            },
        },
    }
}

/// A declared cluster needs device support and the same compiled dimensions.
pub open spec fn cluster_support_step(spec: LaunchContractSpec, facts: LiveFacts) -> Option<Step> {
    match spec.cluster_shape() {
        None => None,
        Some(declared) => match known(facts.cluster_support, DriverQuery::ClusterSupport) {
            Err(step) => Some(step),
            Ok(false) => Some(
                Step::Fail(
                    LaunchContractError::ClusterLaunchUnsupported { kernel: spec.kernel() },
                ),
            ),
            Ok(true) => match known(facts.required_cluster, DriverQuery::RequiredCluster) {
                Err(step) => Some(step),
                Ok(None) => Some(
                    Step::Fail(
                        LaunchContractError::RequiredClusterDimensionsMissing {
                            kernel: spec.kernel(),
                            declared,
                        },
                    ),
                ),
                Ok(Some(required)) => if declared == required {
                    None
                } else {
                    Some(
                        Step::Fail(
                            LaunchContractError::FunctionClusterShapeMismatch {
                                kernel: spec.kernel(),
                                declared,
                                required,
                            },
                        ),
                    )
                },
            },
        },
    }
}

/// A cooperative launch needs device support, and no cluster.
pub open spec fn cooperative_support_step(
    spec: LaunchContractSpec,
    facts: LiveFacts,
) -> Option<Step> {
    if !spec.is_cooperative() {
        None
    } else {
        match known(facts.cooperative_support, DriverQuery::CooperativeSupport) {
            Err(step) => Some(step),
            Ok(false) => Some(
                Step::Fail(
                    LaunchContractError::CooperativeLaunchUnsupported { kernel: spec.kernel() },
                ),
            ),
            Ok(true) => if spec.cluster_shape() is Some {
                Some(
                    Step::Fail(
                        LaunchContractError::ClusteredCooperativeValidationUnsupported {
                            kernel: spec.kernel(),
                        },
                    ),
                )
            } else {
                None
            },
        }
    }
}

/// The function's dynamic maximum is raised to the contract's, never lowered.
pub open spec fn configuration_step(
    spec: LaunchContractSpec,
    facts: LiveFacts,
    found: Resources,
) -> Option<Step> {
    let wanted = largest_allocation(spec.shared_memory_rule());
    if wanted <= found.max_dynamic_shared {
        None
    } else {
        match known(
            facts.max_dynamic_shared_set,
            DriverQuery::SetMaxDynamicSharedMemory(wanted),
        ) {
            Err(step) => Some(step),
            Ok(_) => None,
        }
    }
}

/// A cluster must fit, and at least one must be able to be resident.
pub open spec fn cluster_occupancy_step(
    spec: LaunchContractSpec,
    config: LaunchConfig,
    facts: LiveFacts,
) -> Option<Step> {
    match spec.cluster_shape() {
        None => None,
        Some(cluster) => match known(
            facts.max_cluster_size,
            DriverQuery::MaxPotentialClusterSize {
                grid: config.grid_dim,
                block: config.block_dim,
                shared_bytes: config.shared_mem_bytes,
            },
        ) {
            Err(step) => Some(step),
            Ok(max) => if volume(cluster) > max {
                Some(
                    Step::Fail(
                        LaunchContractError::ClusterSizeExceeded {
                            kernel: spec.kernel(),
                            blocks: volume(cluster) as u64,
                            max,
                        },
                    ),
                )
            } else {
                match facts.active_clusters {
                    None => Some(
                        Step::Ask(
                            DriverQuery::MaxActiveClusters {
                                grid: config.grid_dim,
                                block: config.block_dim,
                                shared_bytes: config.shared_mem_bytes,
                                cluster,
                            },
                        ),
                    ),
                    Some(Err(error)) => if error.0 == CUDA_ERROR_INVALID_CLUSTER_SIZE {
                        Some(
                            Step::Fail(
                                LaunchContractError::ClusterShapeUnsupported {
                                    kernel: spec.kernel(),
                                    cluster,
                                },
                            ),
                        )
                    } else {
                        Some(Step::Fail(LaunchContractError::Driver(error)))
                    },
                    Some(Ok(active)) => if active != 0 {
                        None
                    } else {
                        Some(
                            Step::Fail(
                                LaunchContractError::ClusterHasNoResidency {
                                    kernel: spec.kernel(),
                                    cluster,
                                },
                            ),
                        )
                    },
                }
            },
        },
    }
}

/// A cooperative grid must be able to be resident as a whole.
pub open spec fn cooperative_occupancy_step(
    spec: LaunchContractSpec,
    config: LaunchConfig,
    facts: LiveFacts,
) -> Option<Step> {
    if !spec.is_cooperative() {
        None
    } else {
        match known(
            facts.active_blocks,
            DriverQuery::MaxActiveBlocks {
                threads: volume(config.block_dim) as u32,
                shared_bytes: config.shared_mem_bytes,
            },
        ) {
            Err(step) => Some(step),
            Ok(active) => match known(facts.multiprocessors, DriverQuery::MultiprocessorCount) {
                Err(step) => Some(step),
                Ok(multiprocessors) => if volume(config.grid_dim) <= active * multiprocessors {
                    None
                } else {
                    Some(
                        Step::Fail(
                            LaunchContractError::CooperativeGridTooLarge {
                                kernel: spec.kernel(),
                                blocks: volume(config.grid_dim) as u64,
                                resident_capacity: (active * multiprocessors) as u64,
                            },
                        ),
                    )
                },
            },
        }
    }
}

/// The checks that do not depend on the raised dynamic maximum, once the
/// resources are known.
pub open spec fn checks_before_configuration(
    spec: LaunchContractSpec,
    config: LaunchConfig,
    facts: LiveFacts,
    found: Resources,
) -> Option<Step> {
    unless(
        refuse(live_shape_fault(spec, config, found.limits, found.function_max_threads)),
        unless(
            shared_memory_step(spec, facts, found),
            unless(
                capability_step(spec, facts),
                unless(cluster_support_step(spec, facts), cooperative_support_step(spec, facts)),
            ),
        ),
    )
}

/// What preparation does, given the answers so far.
pub open spec fn decision(
    spec: LaunchContractSpec,
    config: LaunchConfig,
    facts: LiveFacts,
) -> Step {
    match static_fault(spec, config) {
        Some(error) => Step::Fail(error),
        None => match resources(facts) {
            Err(step) => step,
            Ok(found) => match unless(
                checks_before_configuration(spec, config, facts, found),
                unless(
                    configuration_step(spec, facts, found),
                    unless(
                        cluster_occupancy_step(spec, config, facts),
                        cooperative_occupancy_step(spec, config, facts),
                    ),
                ),
            ) {
                Some(step) => step,
                None => Step::Ready,
            },
        },
    }
}

/// What holds of a launch that is ready: the contract holds, the shape is
/// within the live limits, and every resource that the contract asks for is
/// there.
pub open spec fn launchable(
    spec: LaunchContractSpec,
    config: LaunchConfig,
    facts: LiveFacts,
    found: Resources,
) -> bool {
    &&& statically_valid(spec, config)
    &&& facts.limits == Some(Ok::<DeviceLaunchLimits, DriverError>(found.limits))
    &&& facts.function_max_threads == Some(Ok::<u32, DriverError>(found.function_max_threads))
    &&& facts.static_shared == Some(Ok::<u32, DriverError>(found.static_shared))
    &&& facts.max_dynamic_shared == Some(Ok::<u32, DriverError>(found.max_dynamic_shared))
    &&& within(config.grid_dim, found.limits.max_grid_dim)
    &&& within(config.block_dim, found.limits.max_block_dim)
    &&& volume(config.block_dim) <= found.limits.max_threads_per_block
    &&& volume(config.block_dim) <= found.function_max_threads
    &&& shared_demand(spec, found) <= u32::MAX
    &&& {
        ||| shared_demand(spec, found) <= found.limits.max_shared_memory_per_block
        ||| facts.opt_in_shared matches Some(Ok(max)) && shared_demand(spec, found) <= max
    }
    &&& spec.capability_floor() matches Some(required) ==> {
        facts.compute_capability matches Some(Ok((major, minor))) && major >= 0 && minor >= 0
            && capability_reaches((major as u32, minor as u32), required)
    }
    &&& spec.cluster_shape() matches Some(cluster) ==> {
        &&& facts.cluster_support == Some(Ok::<bool, DriverError>(true))
        &&& facts.required_cluster == Some(
            Ok::<Option<(u32, u32, u32)>, DriverError>(Some(cluster)),
        )
        &&& !spec.is_cooperative()
        &&& facts.max_cluster_size matches Some(Ok(max)) && volume(cluster) <= max
        &&& facts.active_clusters matches Some(Ok(active)) && active != 0
    }
    &&& spec.is_cooperative() ==> {
        &&& facts.cooperative_support == Some(Ok::<bool, DriverError>(true))
        &&& facts.active_blocks matches Some(Ok(active)) && facts.multiprocessors matches Some(
            Ok(multiprocessors),
        ) && volume(config.grid_dim) <= active * multiprocessors
    }
    &&& {
        ||| largest_allocation(spec.shared_memory_rule()) <= found.max_dynamic_shared
        ||| facts.max_dynamic_shared_set == Some(Ok::<(), DriverError>(()))
    }
}

/// Preparation is ready exactly for the launchable launches: it admits no
/// other and refuses none of them.
pub proof fn ready_means_launchable(
    spec: LaunchContractSpec,
    config: LaunchConfig,
    facts: LiveFacts,
)
    ensures
        decision(spec, config, facts) is Ready <==> exists|found: Resources| #[trigger]
            launchable(spec, config, facts, found),
{
    static_checks_are_complete(spec, config);
    match resources(facts) {
        Ok(found) => {
            live_shape_checks_are_complete(
                spec,
                config,
                found.limits,
                found.function_max_threads,
            );
            assert(decision(spec, config, facts) is Ready <==> launchable(
                spec,
                config,
                facts,
                found,
            ));
        },
        Err(_) => {},
    }
}

/// A question is put only while its answer is missing, so each is put at most
/// once, and a reply to it is progress.
pub proof fn questions_are_put_once(
    spec: LaunchContractSpec,
    config: LaunchConfig,
    facts: LiveFacts,
    reply: DriverReply,
)
    ensures
        decision(spec, config, facts) matches Step::Ask(query) ==> {
            &&& !answered(facts, query)
            &&& answers(reply, query) ==> answered(with_reply(facts, reply), query)
            &&& forall|other: DriverQuery|
                answered(facts, other) ==> #[trigger] answered(with_reply(facts, reply), other)
        },
{
}

/// The function is changed only after every check that does not depend on the
/// change has passed, only upwards, and only to the contract's own maximum, so
/// that two preparations of one kernel write the same value.
pub proof fn the_function_is_changed_last_and_upwards(
    spec: LaunchContractSpec,
    config: LaunchConfig,
    facts: LiveFacts,
    bytes: u32,
)
    requires
        decision(spec, config, facts) == Step::Ask(DriverQuery::SetMaxDynamicSharedMemory(bytes)),
    ensures
        bytes == largest_allocation(spec.shared_memory_rule()),
        config.shared_mem_bytes <= bytes,
        statically_valid(spec, config),
        resources(facts) matches Ok(found) && found.max_dynamic_shared < bytes
            && checks_before_configuration(spec, config, facts, found) is None,
{
    static_checks_are_complete(spec, config);
}

/// The opt-in limit is asked for only where the portable limit is exceeded.
pub proof fn opt_in_limit_is_a_fallback(
    spec: LaunchContractSpec,
    config: LaunchConfig,
    facts: LiveFacts,
)
    requires
        decision(spec, config, facts) == Step::Ask(DriverQuery::OptInSharedMemory),
    ensures
        resources(facts) matches Ok(found) && shared_demand(spec, found)
            > found.limits.max_shared_memory_per_block,
{
}

fn ask<T>(answer: Option<Result<T, DriverError>>, query: DriverQuery) -> (value: Result<T, Step>)
    ensures
        value == known(answer, query),
{
    match answer {
        None => Err(Step::Ask(query)),
        Some(Err(error)) => Err(Step::Fail(LaunchContractError::Driver(error))),
        Some(Ok(value)) => Ok(value),
    }
}

fn collect_resources(facts: &LiveFacts) -> (found: Result<Resources, Step>)
    ensures
        found == resources(*facts),
{
    let limits = match ask(facts.limits, DriverQuery::LaunchLimits) {
        Ok(limits) => limits,
        Err(step) => {
            return Err(step);
        },
    };
    let function_max_threads: u32 = match ask(
        facts.function_max_threads,
        DriverQuery::FunctionMaxThreads,
    ) {
        Ok(max) => max,
        Err(step) => {
            return Err(step);
        },
    };
    let static_shared: u32 = match ask(facts.static_shared, DriverQuery::StaticSharedMemory) {
        Ok(bytes) => bytes,
        Err(step) => {
            return Err(step);
        },
    };
    let max_dynamic_shared: u32 = match ask(
        facts.max_dynamic_shared,
        DriverQuery::MaxDynamicSharedMemory,
    ) {
        Ok(bytes) => bytes,
        Err(step) => {
            return Err(step);
        },
    };
    Ok(Resources { limits, function_max_threads, static_shared, max_dynamic_shared })
}

fn check_shared_memory(
    spec: LaunchContractSpec,
    facts: &LiveFacts,
    found: Resources,
) -> (step: Option<Step>)
    ensures
        step == shared_memory_step(spec, *facts, found),
{
    let kernel = spec.kernel_name();
    let wanted: u32 = dynamic_shared_memory_max(spec.dynamic_shared_memory());
    let total: u64 = match shared_memory_total(kernel, found.static_shared, wanted) {
        Ok(total) => total,
        Err(error) => {
            return Some(Step::Fail(error));
        },
    };
    if validate_shared_memory_limit(
        kernel,
        total,
        found.limits.max_shared_memory_per_block,
        false,
    ).is_ok() {
        return None;
    }
    let opt_in_max: u32 = match ask(facts.opt_in_shared, DriverQuery::OptInSharedMemory) {
        Ok(max) => max,
        Err(step) => {
            return Some(step);
        },
    };
    match validate_shared_memory_limit(kernel, total, opt_in_max, true) {
        Ok(()) => None,
        Err(error) => Some(Step::Fail(error)),
    }
}

fn check_capability(spec: LaunchContractSpec, facts: &LiveFacts) -> (step: Option<Step>)
    ensures
        step == capability_step(spec, *facts),
{
    let required = match spec.min_compute_capability() {
        Some(required) => required,
        None => {
            return None;
        },
    };
    let (major, minor): (i32, i32) = match ask(
        facts.compute_capability,
        DriverQuery::ComputeCapability,
    ) {
        Ok(capability) => capability,
        Err(step) => {
            return Some(step);
        },
    };
    if major < 0 || minor < 0 {
        return Some(
            Step::Fail(LaunchContractError::Driver(DriverError(CUDA_ERROR_INVALID_VALUE))),
        );
    }
    match validate_compute_capability(
        spec.kernel_name(),
        required,
        (major as u32, minor as u32),
    ) {
        Ok(()) => None,
        Err(error) => Some(Step::Fail(error)),
    }
}

fn check_cluster_support(spec: LaunchContractSpec, facts: &LiveFacts) -> (step: Option<Step>)
    ensures
        step == cluster_support_step(spec, *facts),
{
    let cluster = match spec.cluster() {
        Some(cluster) => cluster,
        None => {
            return None;
        },
    };
    let supported = match ask(facts.cluster_support, DriverQuery::ClusterSupport) {
        Ok(supported) => supported,
        Err(step) => {
            return Some(step);
        },
    };
    if let Err(error) = validate_cluster_support(spec.kernel_name(), supported) {
        return Some(Step::Fail(error));
    }
    let required = match ask(facts.required_cluster, DriverQuery::RequiredCluster) {
        Ok(required) => required,
        Err(step) => {
            return Some(step);
        },
    };
    match validate_required_cluster(spec.kernel_name(), cluster, required) {
        Ok(()) => None,
        Err(error) => Some(Step::Fail(error)),
    }
}

fn check_cooperative_support(spec: LaunchContractSpec, facts: &LiveFacts) -> (step: Option<Step>)
    ensures
        step == cooperative_support_step(spec, *facts),
{
    if !spec.cooperative() {
        return None;
    }
    let supported = match ask(facts.cooperative_support, DriverQuery::CooperativeSupport) {
        Ok(supported) => supported,
        Err(step) => {
            return Some(step);
        },
    };
    if let Err(error) = validate_cooperative_support(spec.kernel_name(), supported) {
        return Some(Step::Fail(error));
    }
    if spec.cluster().is_some() {
        return Some(
            Step::Fail(
                LaunchContractError::ClusteredCooperativeValidationUnsupported {
                    kernel: spec.kernel_name(),
                },
            ),
        );
    }
    None
}

fn configure(spec: LaunchContractSpec, facts: &LiveFacts, found: Resources) -> (step: Option<Step>)
    ensures
        step == configuration_step(spec, *facts, found),
{
    // Configure the immutable contract maximum, not this particular launch's
    // chosen size. Concurrent preparations of two range values therefore write
    // the same function attribute and cannot lower the maximum underneath an
    // already prepared launch.
    let wanted: u32 = dynamic_shared_memory_max(spec.dynamic_shared_memory());
    if wanted <= found.max_dynamic_shared {
        return None;
    }
    match ask(
        facts.max_dynamic_shared_set,
        DriverQuery::SetMaxDynamicSharedMemory(wanted),
    ) {
        Ok(_) => None,
        Err(step) => Some(step),
    }
}

fn check_cluster_occupancy(
    spec: LaunchContractSpec,
    config: LaunchConfig,
    facts: &LiveFacts,
) -> (step: Option<Step>)
    requires
        spec.cluster_shape() matches Some(cluster) ==> volume(cluster) <= u64::MAX,
    ensures
        step == cluster_occupancy_step(spec, config, *facts),
{
    let kernel = spec.kernel_name();
    let cluster = match spec.cluster() {
        Some(cluster) => cluster,
        None => {
            return None;
        },
    };
    let max: u32 = match ask(
        facts.max_cluster_size,
        DriverQuery::MaxPotentialClusterSize {
            grid: config.grid_dim,
            block: config.block_dim,
            shared_bytes: config.shared_mem_bytes,
        },
    ) {
        Ok(max) => max,
        Err(step) => {
            return Some(step);
        },
    };
    proof {
        lemma_volume_is_natural(cluster);
    }
    let blocks: u64 = match shape_product(kernel, LaunchDimension::Cluster, cluster) {
        Ok(blocks) => blocks,
        Err(error) => {
            return Some(Step::Fail(error));
        },
    };
    if let Err(error) = validate_cluster_size(kernel, blocks, max) {
        return Some(Step::Fail(error));
    }
    let active: u32 = match facts.active_clusters {
        None => {
            return Some(
                Step::Ask(
                    DriverQuery::MaxActiveClusters {
                        grid: config.grid_dim,
                        block: config.block_dim,
                        shared_bytes: config.shared_mem_bytes,
                        cluster,
                    },
                ),
            );
        },
        Some(Err(error)) => {
            if error.0 == CUDA_ERROR_INVALID_CLUSTER_SIZE {
                return Some(
                    Step::Fail(LaunchContractError::ClusterShapeUnsupported { kernel, cluster }),
                );
            }
            return Some(Step::Fail(LaunchContractError::Driver(error)));
        },
        Some(Ok(active)) => active,
    };
    match validate_cluster_residency(kernel, cluster, active) {
        Ok(()) => None,
        Err(error) => Some(Step::Fail(error)),
    }
}

proof fn lemma_volume_is_natural(shape: (u32, u32, u32))
    ensures
        volume(shape) >= 0,
{
    assert(shape.0 * shape.1 * shape.2 >= 0) by (nonlinear_arith)
        requires
            shape.0 >= 0,
            shape.1 >= 0,
            shape.2 >= 0,
    ;
}

fn check_cooperative_occupancy(
    spec: LaunchContractSpec,
    config: LaunchConfig,
    facts: &LiveFacts,
) -> (step: Option<Step>)
    requires
        volume(config.block_dim) <= u32::MAX,
        volume(config.grid_dim) <= u64::MAX,
    ensures
        step == cooperative_occupancy_step(spec, config, *facts),
{
    if !spec.cooperative() {
        return None;
    }
    let kernel = spec.kernel_name();
    proof {
        lemma_volume_is_natural(config.block_dim);
        lemma_volume_is_natural(config.grid_dim);
    }
    let threads: u64 = match shape_product(kernel, LaunchDimension::Block, config.block_dim) {
        Ok(threads) => threads,
        Err(error) => {
            return Some(Step::Fail(error));
        },
    };
    let active: u32 = match ask(
        facts.active_blocks,
        DriverQuery::MaxActiveBlocks {
            threads: threads as u32,
            shared_bytes: config.shared_mem_bytes,
        },
    ) {
        Ok(active) => active,
        Err(step) => {
            return Some(step);
        },
    };
    let multiprocessors: u32 = match ask(
        facts.multiprocessors,
        DriverQuery::MultiprocessorCount,
    ) {
        Ok(count) => count,
        Err(step) => {
            return Some(step);
        },
    };
    assert(0 <= active * multiprocessors <= u64::MAX) by (nonlinear_arith)
        requires
            active <= u32::MAX,
            multiprocessors <= u32::MAX,
    ;
    let resident_capacity: u64 = active as u64 * multiprocessors as u64;
    let blocks: u64 = match shape_product(kernel, LaunchDimension::Grid, config.grid_dim) {
        Ok(blocks) => blocks,
        Err(error) => {
            return Some(Step::Fail(error));
        },
    };
    match validate_cooperative_residency(kernel, blocks, resident_capacity) {
        Ok(()) => None,
        Err(error) => Some(Step::Fail(error)),
    }
}

/// Decides what to do next, given the answers so far.
pub fn decide(spec: LaunchContractSpec, config: LaunchConfig, facts: &LiveFacts) -> (step: Step)
    ensures
        step == decision(spec, config, *facts),
{
    if let Err(error) = validate_static(spec, config) {
        return Step::Fail(error);
    }
    proof {
        static_checks_are_complete(spec, config);
    }
    let found = match collect_resources(facts) {
        Ok(found) => found,
        Err(step) => {
            return step;
        },
    };
    proof {
        live_shape_checks_are_complete(spec, config, found.limits, found.function_max_threads);
    }
    if let Err(error) = validate_live_shape(
        spec,
        config,
        found.limits,
        found.function_max_threads,
    ) {
        return Step::Fail(error);
    }
    if let Some(step) = check_shared_memory(spec, facts, found) {
        return step;
    }
    if let Some(step) = check_capability(spec, facts) {
        return step;
    }
    if let Some(step) = check_cluster_support(spec, facts) {
        return step;
    }
    if let Some(step) = check_cooperative_support(spec, facts) {
        return step;
    }
    // Perform the only persistent function mutation after all checks that do
    // not themselves depend on the opted-in maximum. Occupancy is checked next
    // and may leave this monotonic increase in place.
    if let Some(step) = configure(spec, facts, found) {
        return step;
    }
    if let Some(step) = check_cluster_occupancy(spec, config, facts) {
        return step;
    }
    if let Some(step) = check_cooperative_occupancy(spec, config, facts) {
        return step;
    }
    Step::Ready
}

/// A launch on its way to being prepared.
pub struct Preparation<C: KernelLaunchContract> {
    function: CudaFunction,
    contract: LaunchContractSpec,
    config: LaunchConfig,
    facts: LiveFacts,
    brand: PhantomData<C>,
}

/// A kernel function and launch configuration whose contract has been checked.
///
/// Preparation performs all device/function resource queries. Reusing this
/// value performs no contract query; it only compares the stream's context
/// handle before the normal launch path binds that context.
pub struct PreparedLaunch<C: KernelLaunchContract> {
    function: CudaFunction,
    contract: LaunchContractSpec,
    config: LaunchConfig,
    facts: Ghost<LiveFacts>,
    brand: PhantomData<C>,
}

impl<C: KernelLaunchContract> Preparation<C> {
    /// The function to launch.
    pub closed spec fn target(self) -> CudaFunction {
        self.function
    }

    /// The kernel's contract.
    pub closed spec fn terms(self) -> LaunchContractSpec {
        self.contract
    }

    /// The configuration to launch with.
    pub closed spec fn shape(self) -> LaunchConfig {
        self.config
    }

    /// The answers so far.
    pub closed spec fn knowledge(self) -> LiveFacts {
        self.facts
    }

    /// What to do next.
    pub fn step(&self) -> (step: Step)
        ensures
            step == decision(self.terms(), self.shape(), self.knowledge()),
    {
        decide(self.contract, self.config, &self.facts)
    }

    /// Records the driver's reply to a question.
    pub fn answer(&mut self, reply: DriverReply)
        ensures
            final(self).target() == old(self).target(),
            final(self).terms() == old(self).terms(),
            final(self).shape() == old(self).shape(),
            final(self).knowledge() == with_reply(old(self).knowledge(), reply),
    {
        match reply {
            DriverReply::LaunchLimits(answer) => {
                self.facts.limits = Some(answer);
            },
            DriverReply::FunctionMaxThreads(answer) => {
                self.facts.function_max_threads = Some(answer);
            },
            DriverReply::StaticSharedMemory(answer) => {
                self.facts.static_shared = Some(answer);
            },
            DriverReply::MaxDynamicSharedMemory(answer) => {
                self.facts.max_dynamic_shared = Some(answer);
            },
            DriverReply::OptInSharedMemory(answer) => {
                self.facts.opt_in_shared = Some(answer);
            },
            DriverReply::ComputeCapability(answer) => {
                self.facts.compute_capability = Some(answer);
            },
            DriverReply::ClusterSupport(answer) => {
                self.facts.cluster_support = Some(answer);
            },
            DriverReply::RequiredCluster(answer) => {
                self.facts.required_cluster = Some(answer);
            },
            DriverReply::CooperativeSupport(answer) => {
                self.facts.cooperative_support = Some(answer);
            },
            DriverReply::SetMaxDynamicSharedMemory(answer) => {
                self.facts.max_dynamic_shared_set = Some(answer);
            },
            DriverReply::MaxPotentialClusterSize(answer) => {
                self.facts.max_cluster_size = Some(answer);
            },
            DriverReply::MaxActiveClusters(answer) => {
                self.facts.active_clusters = Some(answer);
            },
            DriverReply::MaxActiveBlocks(answer) => {
                self.facts.active_blocks = Some(answer);
            },
            DriverReply::MultiprocessorCount(answer) => {
                self.facts.multiprocessors = Some(answer);
            },
        }
    }

    /// Hands the prepared launch over, once every check has passed.
    pub fn finish(self) -> (prepared: Option<PreparedLaunch<C>>)
        ensures
            prepared is Some <==> decision(self.terms(), self.shape(), self.knowledge()) is Ready,
            prepared matches Some(launch) ==> {
                &&& launch.target() == self.target()
                &&& launch.terms() == self.terms()
                &&& launch.shape() == self.shape()
                &&& launch.knowledge() == self.knowledge()
            },
    {
        match decide(self.contract, self.config, &self.facts) {
            Step::Ready => Some(
                PreparedLaunch {
                    function: self.function,
                    contract: self.contract,
                    config: self.config,
                    facts: Ghost(self.facts),
                    brand: PhantomData,
                },
            ),
            _ => None,
        }
    }
}

impl<C: KernelLaunchContract> PreparedLaunch<C> {
    /// Every check has passed.
    #[verifier::type_invariant]
    pub closed spec fn wf(self) -> bool {
        decision(self.contract, self.config, self.facts@) is Ready
    }

    /// The function to launch.
    pub closed spec fn target(self) -> CudaFunction {
        self.function
    }

    /// The kernel's contract.
    pub closed spec fn terms(self) -> LaunchContractSpec {
        self.contract
    }

    /// The configuration to launch with.
    pub closed spec fn shape(self) -> LaunchConfig {
        self.config
    }

    /// What the driver said while the launch was prepared.
    pub closed spec fn knowledge(self) -> LiveFacts {
        self.facts@
    }

    /// Begins to validate and prepare one kernel launch. Nothing has been asked
    /// of the driver yet.
    ///
    /// `C::spec()` must truthfully describe the compiled device function,
    /// including its rank, fixed block assumptions, shared-memory layout, and
    /// launch mode.
    pub fn __prepare(function: CudaFunction, config: C::Config) -> (preparation: Preparation<C>)
        ensures
            preparation.target() == function,
            call_ensures(C::spec, (), preparation.terms()),
            preparation.shape() == config.raw(),
            preparation.knowledge() == nothing_known(),
    {
        Preparation {
            function,
            contract: C::spec(),
            config: config.__raw(),
            facts: LiveFacts {
                limits: None,
                function_max_threads: None,
                static_shared: None,
                max_dynamic_shared: None,
                opt_in_shared: None,
                compute_capability: None,
                cluster_support: None,
                required_cluster: None,
                cooperative_support: None,
                max_dynamic_shared_set: None,
                max_cluster_size: None,
                active_clusters: None,
                active_blocks: None,
                multiprocessors: None,
            },
            brand: PhantomData,
        }
    }

    /// Returns the prepared CUDA function.
    pub fn function(&self) -> (function: &CudaFunction)
        ensures
            *function == self.target(),
    {
        &self.function
    }

    /// Returns a copy of the validated raw launch configuration.
    ///
    /// Mutating the copy cannot change the prepared launch.
    pub fn __raw_config(&self) -> (config: LaunchConfig)
        ensures
            config == self.shape(),
            exists|found: Resources| #[trigger]
                launchable(self.terms(), config, self.knowledge(), found),
    {
        proof {
            use_type_invariant(self);
            ready_means_launchable(self.contract, self.config, self.facts@);
            let found = choose|found: Resources|
                launchable(self.contract, self.config, self.facts@, found);
            assert(launchable(self.terms(), self.shape(), self.knowledge(), found));
        }
        self.config
    }

    /// Rejects a stream from a different context without making a driver call.
    pub fn validate_stream(&self, stream: &CudaStream) -> (valid: Result<(), LaunchContractError>)
        ensures
            valid == if self.target().context.cu_ctx == stream.context.cu_ctx {
                Ok::<(), LaunchContractError>(())
            } else {
                Err(
                    LaunchContractError::ContextMismatch {
                        kernel: self.terms().kernel(),
                        function_device: self.target().context.ordinal,
                        stream_device: stream.context.ordinal,
                    },
                )
            },
    {
        if self.function.context.cu_ctx == stream.context.cu_ctx {
            Ok(())
        } else {
            Err(
                LaunchContractError::ContextMismatch {
                    kernel: self.contract.kernel_name(),
                    function_device: self.function.context.ordinal,
                    stream_device: stream.context.ordinal,
                },
            )
        }
    }
}

impl<C: KernelLaunchContract> Clone for PreparedLaunch<C> {
    fn clone(&self) -> (copy: PreparedLaunch<C>)
        ensures
            copy == *self,
    {
        proof {
            use_type_invariant(self);
        }
        PreparedLaunch {
            function: self.function,
            contract: self.contract,
            config: self.config,
            facts: self.facts,
            brand: PhantomData,
        }
    }
}

/// A prepared launch accepts the streams of its function's context and no
/// others, and a refusal names both devices.
pub proof fn launches_stay_in_their_context<C: KernelLaunchContract>(
    launch: PreparedLaunch<C>,
    stream: CudaStream,
    valid: Result<(), LaunchContractError>,
)
    requires
        call_ensures(PreparedLaunch::<C>::validate_stream, (&launch, &stream), valid),
    ensures
        valid is Ok <==> stream.context.cu_ctx == launch.target().context.cu_ctx,
        valid matches Err(error) ==> error == (LaunchContractError::ContextMismatch {
            kernel: launch.terms().kernel(),
            function_device: launch.target().context.ordinal,
            stream_device: stream.context.ordinal,
        }),
{
}

/// What is handed over is what was prepared, and only once it is launchable. A
/// preparation begins with nothing answered.
pub proof fn launches_are_what_was_prepared<C: KernelLaunchContract>(
    function: CudaFunction,
    config: C::Config,
    begun: Preparation<C>,
    preparation: Preparation<C>,
    prepared: Option<PreparedLaunch<C>>,
    query: DriverQuery,
)
    requires
        call_ensures(PreparedLaunch::<C>::__prepare, (function, config), begun),
        call_ensures(Preparation::<C>::finish, (preparation,), prepared),
    ensures
        begun.target() == function,
        begun.shape() == config.raw(),
        !answered(begun.knowledge(), query),
        prepared is Some <==> exists|found: Resources| #[trigger]
            launchable(
                preparation.terms(),
                preparation.shape(),
                preparation.knowledge(),
                found,
            ),
        prepared matches Some(launch) ==> launch.target() == preparation.target()
            && launch.terms() == preparation.terms() && launch.shape() == preparation.shape(),
{
    ready_means_launchable(
        preparation.terms(),
        preparation.shape(),
        preparation.knowledge(),
    );
}

} // verus!

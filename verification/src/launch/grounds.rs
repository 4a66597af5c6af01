//! Why launches are refused: every refusal has its ground in the contract, the
//! configuration or an answer of the driver, and a launch without such a ground
//! is not refused.

use vstd::arithmetic::div_mod::{lemma_fundamental_div_mod, lemma_mod_multiples_basic};
use vstd::arithmetic::power2::is_pow2;
use vstd::prelude::*;

use crate::driver::DriverError;
use crate::launch::config::{KernelLaunchConfig, LaunchConfig, LaunchConfig1D, LaunchConfig2D,
    LaunchConfig3D};
use crate::launch::contract::{BlockRequirement, DeviceLaunchLimits, DynamicSharedMemoryRequirement,
    LaunchContractSpec};
use crate::launch::error::{LaunchAxis, LaunchContractError, LaunchDimension};
use crate::launch::prepare::{decide, with_reply, DriverQuery, DriverReply, LiveFacts, Step};
use crate::launch::validate::{dynamic_shared_memory_max, shape_product, shared_memory_total,
    validate_alignment, validate_axes, validate_cluster_residency, validate_cluster_size,
    validate_cluster_support, validate_cooperative_residency, validate_cooperative_support,
    validate_division, validate_live_shape, validate_required_cluster, validate_shape,
    validate_shared_memory_limit, validate_static, volume};
use crate::text::blank;

verus! {

/// The size of a shape along an axis.
pub open spec fn along(shape: (u32, u32, u32), axis: LaunchAxis) -> u32 {
    match axis {
        LaunchAxis::X => shape.0,
        LaunchAxis::Y => shape.1,
        LaunchAxis::Z => shape.2,
    }
}

/// `count` things can be laid out as a box of this shape: layers along z, each
/// of rows along y, each of things along x.
pub open spec fn fills(shape: (u32, u32, u32), count: int) -> bool {
    exists|row: int, layer: int|
        row == shape.0 && layer == row * shape.1 && count == #[trigger] (layer * shape.2)
            && #[trigger] (row * shape.1) == layer
}

/// The shape is one that the launch has in this dimension: its grid, its block
/// or the block that the contract wants, or the cluster of the contract.
pub open spec fn has_shape(
    spec: LaunchContractSpec,
    config: LaunchConfig,
    dimension: LaunchDimension,
    shape: (u32, u32, u32),
) -> bool {
    match dimension {
        LaunchDimension::Grid => shape == config.grid_dim,
        LaunchDimension::Block => shape == config.block_dim || spec.block_rule()
            == BlockRequirement::Exact(shape),
        LaunchDimension::Cluster => spec.cluster_shape() == Some(shape),
    }
}

/// The alignment that the contract states.
pub open spec fn alignment_of(rule: DynamicSharedMemoryRequirement) -> u32 {
    match rule {
        DynamicSharedMemoryRequirement::Exact { min_alignment, .. } => min_alignment,
        DynamicSharedMemoryRequirement::Range { min_alignment, .. } => min_alignment,
    }
}

/// The rule accepts an allocation of this many bytes.
pub open spec fn accepts(rule: DynamicSharedMemoryRequirement, size: u32) -> bool {
    match rule {
        DynamicSharedMemoryRequirement::Exact { bytes, .. } => size == bytes,
        DynamicSharedMemoryRequirement::Range { min_bytes, max_bytes, .. } => min_bytes <= size
            <= max_bytes,
    }
}

/// The rule's upper end: no more than this many bytes are accepted, and, unless
/// the rule accepts nothing, this many are.
pub open spec fn upper_end(rule: DynamicSharedMemoryRequirement, size: u32) -> bool {
    match rule {
        DynamicSharedMemoryRequirement::Exact { bytes, .. } => size == bytes,
        DynamicSharedMemoryRequirement::Range { max_bytes, .. } => size == max_bytes,
    }
}

/// The driver answered a question with this error.
pub open spec fn driver_said(facts: LiveFacts, error: DriverError) -> bool {
    ||| facts.limits == Some(Err::<DeviceLaunchLimits, DriverError>(error))
    ||| facts.function_max_threads == Some(Err::<u32, DriverError>(error))
    ||| facts.static_shared == Some(Err::<u32, DriverError>(error))
    ||| facts.max_dynamic_shared == Some(Err::<u32, DriverError>(error))
    ||| facts.opt_in_shared == Some(Err::<u32, DriverError>(error))
    ||| facts.compute_capability == Some(Err::<(i32, i32), DriverError>(error))
    ||| facts.cluster_support == Some(Err::<bool, DriverError>(error))
    ||| facts.required_cluster == Some(Err::<Option<(u32, u32, u32)>, DriverError>(error))
    ||| facts.cooperative_support == Some(Err::<bool, DriverError>(error))
    ||| facts.max_dynamic_shared_set == Some(Err::<(), DriverError>(error))
    ||| facts.max_cluster_size == Some(Err::<u32, DriverError>(error))
    ||| facts.active_clusters == Some(Err::<u32, DriverError>(error)) && error.0 != 912
    ||| facts.active_blocks == Some(Err::<u32, DriverError>(error))
    ||| facts.multiprocessors == Some(Err::<u32, DriverError>(error))
}

/// The launch has a fault that needs no device to be seen, and `error` names it
/// with the numbers of this launch.
pub open spec fn static_ground(
    spec: LaunchContractSpec,
    config: LaunchConfig,
    error: LaunchContractError,
) -> bool {
    match error {
        LaunchContractError::EmptyKernelName => blank(spec.kernel()@),
        LaunchContractError::ZeroDimension { kernel, dimension, axis } => {
            &&& kernel == spec.kernel()
            &&& exists|shape: (u32, u32, u32)| #[trigger]
                has_shape(spec, config, dimension, shape) && along(shape, axis) == 0
        },
        LaunchContractError::DimensionProductOverflow { kernel, dimension } => {
            &&& kernel == spec.kernel()
            &&& exists|shape: (u32, u32, u32)| #[trigger]
                has_shape(spec, config, dimension, shape) && !exists|count: u64| #[trigger]
                fills(shape, count as int)
        },
        LaunchContractError::InvalidSharedMemoryAlignment { kernel, alignment } => {
            &&& kernel == spec.kernel()
            &&& alignment == alignment_of(spec.shared_memory_rule())
            &&& !is_pow2(alignment as int)
        },
        LaunchContractError::InvalidSharedMemoryRange { kernel, min_bytes, max_bytes } => {
            &&& kernel == spec.kernel()
            &&& spec.shared_memory_rule() matches DynamicSharedMemoryRequirement::Range {
                min_bytes: least,
                max_bytes: most,
                ..
            } && least == min_bytes && most == max_bytes && most < least
        },
        LaunchContractError::BlockShapeMismatch { kernel, required, actual } => {
            &&& kernel == spec.kernel()
            &&& spec.block_rule() == BlockRequirement::Exact(required)
            &&& actual == config.block_dim
            &&& actual != required
        },
        LaunchContractError::BlockThreadsExceedContract { kernel, actual, max } => {
            &&& kernel == spec.kernel()
            &&& spec.block_rule() == BlockRequirement::MaxThreads(max)
            &&& fills(config.block_dim, actual as int)
            &&& actual > max
        },
        LaunchContractError::DynamicSharedMemoryExactMismatch { kernel, required, actual } => {
            &&& kernel == spec.kernel()
            &&& spec.shared_memory_rule() matches DynamicSharedMemoryRequirement::Exact {
                bytes,
                ..
            } && bytes == required
            &&& actual == config.shared_mem_bytes
            &&& actual != required
        },
        LaunchContractError::DynamicSharedMemoryOutsideRange { kernel, min, max, actual } => {
            &&& kernel == spec.kernel()
            &&& spec.shared_memory_rule() matches DynamicSharedMemoryRequirement::Range {
                min_bytes,
                max_bytes,
                ..
            } && min_bytes == min && max_bytes == max
            &&& actual == config.shared_mem_bytes
            &&& min <= max
            &&& actual < min || max < actual
        },
        LaunchContractError::ClusterDoesNotDivideGrid { kernel, axis, grid, cluster } => {
            &&& kernel == spec.kernel()
            &&& spec.cluster_shape() matches Some(shape) && along(shape, axis) == cluster
            &&& grid == along(config.grid_dim, axis)
            &&& cluster > 0
            &&& forall|tiles: int| #[trigger] (tiles * cluster) != grid
        },
        _ => false,
    }
}

/// The shape of the launch is beyond a limit of the device or the function,
/// and `error` names it with the numbers of this launch.
pub open spec fn shape_ground(
    spec: LaunchContractSpec,
    config: LaunchConfig,
    limits: DeviceLaunchLimits,
    function_max_threads: u32,
    error: LaunchContractError,
) -> bool {
    match error {
        LaunchContractError::DeviceDimensionExceeded { kernel, dimension, axis, actual, max } => {
            &&& kernel == spec.kernel()
            &&& match dimension {
                LaunchDimension::Grid => actual == along(config.grid_dim, axis) && max == along(
                    limits.max_grid_dim,
                    axis,
                ),
                LaunchDimension::Block => actual == along(config.block_dim, axis) && max == along(
                    limits.max_block_dim,
                    axis,
                ),
                LaunchDimension::Cluster => false,
            }
            &&& actual > max
        },
        LaunchContractError::DeviceThreadsPerBlockExceeded { kernel, actual, max } => {
            &&& kernel == spec.kernel()
            &&& fills(config.block_dim, actual as int)
            &&& max == limits.max_threads_per_block
            &&& actual > max
        },
        LaunchContractError::FunctionThreadsPerBlockExceeded { kernel, actual, max } => {
            &&& kernel == spec.kernel()
            &&& fills(config.block_dim, actual as int)
            &&& max == function_max_threads
            &&& actual > max
        },
        LaunchContractError::DimensionProductOverflow { kernel, dimension } => {
            &&& kernel == spec.kernel()
            &&& dimension is Block
            &&& !exists|count: u64| #[trigger] fills(config.block_dim, count as int)
        },
        _ => false,
    }
}

/// An answer of the driver stands against the launch, and `error` names it.
pub open spec fn driver_ground(
    spec: LaunchContractSpec,
    config: LaunchConfig,
    facts: LiveFacts,
    error: LaunchContractError,
) -> bool {
    match error {
        LaunchContractError::SharedMemoryTotalOverflow { kernel, static_bytes, dynamic_bytes } => {
            &&& kernel == spec.kernel()
            &&& facts.static_shared == Some(Ok::<u32, DriverError>(static_bytes))
            &&& upper_end(spec.shared_memory_rule(), dynamic_bytes)
            &&& static_bytes + dynamic_bytes >= 0x1_0000_0000
        },
        LaunchContractError::DeviceSharedMemoryExceeded { kernel, total, max, opt_in } => {
            &&& kernel == spec.kernel()
            &&& opt_in
            &&& facts.opt_in_shared == Some(Ok::<u32, DriverError>(max))
            &&& facts.static_shared matches Some(Ok(static_bytes)) && total >= static_bytes
                && total - static_bytes <= u32::MAX && upper_end(
                spec.shared_memory_rule(),
                (total - static_bytes) as u32,
            )
            &&& facts.limits matches Some(Ok(limits)) && total
                > limits.max_shared_memory_per_block
            &&& total > max
        },
        LaunchContractError::ComputeCapabilityTooLow { kernel, required, actual } => {
            &&& kernel == spec.kernel()
            &&& spec.capability_floor() == Some(required)
            &&& facts.compute_capability matches Some(Ok((major, minor))) && major == actual.0
                && minor == actual.1
            &&& actual.0 < required.0 || (actual.0 == required.0 && actual.1 < required.1)
        },
        LaunchContractError::CooperativeLaunchUnsupported { kernel } => {
            &&& kernel == spec.kernel()
            &&& spec.is_cooperative()
            &&& facts.cooperative_support == Some(Ok::<bool, DriverError>(false))
        },
        LaunchContractError::ClusterLaunchUnsupported { kernel } => {
            &&& kernel == spec.kernel()
            &&& spec.cluster_shape() is Some
            &&& facts.cluster_support == Some(Ok::<bool, DriverError>(false))
        },
        LaunchContractError::ClusterSizeExceeded { kernel, blocks, max } => {
            &&& kernel == spec.kernel()
            &&& spec.cluster_shape() matches Some(cluster) && fills(cluster, blocks as int)
            &&& facts.max_cluster_size == Some(Ok::<u32, DriverError>(max))
            &&& blocks > max
        },
        LaunchContractError::FunctionClusterShapeMismatch { kernel, declared, required } => {
            &&& kernel == spec.kernel()
            &&& spec.cluster_shape() == Some(declared)
            &&& facts.required_cluster == Some(
                Ok::<Option<(u32, u32, u32)>, DriverError>(Some(required)),
            )
            &&& declared != required
        },
        LaunchContractError::RequiredClusterDimensionsMissing { kernel, declared } => {
            &&& kernel == spec.kernel()
            &&& spec.cluster_shape() == Some(declared)
            &&& facts.required_cluster == Some(Ok::<Option<(u32, u32, u32)>, DriverError>(None))
        },
        LaunchContractError::ClusterShapeUnsupported { kernel, cluster } => {
            &&& kernel == spec.kernel()
            &&& spec.cluster_shape() == Some(cluster)
            &&& facts.active_clusters == Some(Err::<u32, DriverError>(DriverError(912)))
        },
        LaunchContractError::ClusterHasNoResidency { kernel, cluster } => {
            &&& kernel == spec.kernel()
            &&& spec.cluster_shape() == Some(cluster)
            &&& facts.active_clusters == Some(Ok::<u32, DriverError>(0))
        },
        LaunchContractError::ClusteredCooperativeValidationUnsupported { kernel } => {
            &&& kernel == spec.kernel()
            &&& spec.is_cooperative()
            &&& spec.cluster_shape() is Some
        },
        LaunchContractError::CooperativeGridTooLarge { kernel, blocks, resident_capacity } => {
            &&& kernel == spec.kernel()
            &&& spec.is_cooperative()
            &&& fills(config.grid_dim, blocks as int)
            &&& facts.active_blocks matches Some(Ok(active)) && facts.multiprocessors matches Some(
                Ok(multiprocessors),
            ) && resident_capacity == active * multiprocessors
            &&& blocks > resident_capacity
        },
        LaunchContractError::Driver(error) => {
            ||| driver_said(facts, error)
            ||| {
                &&& error == DriverError(1)
                &&& spec.capability_floor() is Some
                &&& facts.compute_capability matches Some(Ok((major, minor))) && (major < 0
                    || minor < 0)
            }
        },
        _ => false,
    }
}

/// `error` names what stands against the launch.
pub open spec fn ground(
    spec: LaunchContractSpec,
    config: LaunchConfig,
    facts: LiveFacts,
    error: LaunchContractError,
) -> bool {
    ||| static_ground(spec, config, error)
    ||| facts.limits matches Some(Ok(limits)) && facts.function_max_threads matches Some(
        Ok(function_max_threads),
    ) && shape_ground(spec, config, limits, function_max_threads, error)
    ||| driver_ground(spec, config, facts, error)
}

/// A box holds as many things as the product of its sides, and no other number.
proof fn lemma_fills(shape: (u32, u32, u32), count: int)
    ensures
        fills(shape, count) <==> count == shape.0 * shape.1 * shape.2,
        shape.0 * shape.1 * shape.2 >= 0,
{
    let row = shape.0 as int;
    let layer = row * shape.1;
    assert(layer * shape.2 == shape.0 * shape.1 * shape.2);
    assert(shape.0 * shape.1 * shape.2 >= 0) by (nonlinear_arith)
        requires
            shape.0 >= 0,
            shape.1 >= 0,
            shape.2 >= 0,
    ;
}

/// A number that a tile does not divide is no multiple of it.
proof fn lemma_no_multiple(n: u32, tile: u32)
    requires
        tile > 0,
    ensures
        n % tile != 0 <==> forall|tiles: int| #[trigger] (tiles * tile) != n,
{
    if n % tile == 0 {
        lemma_fundamental_div_mod(n as int, tile as int);
        let tiles = n as int / tile as int;
        assert(tiles * tile == n) by (nonlinear_arith)
            requires
                n as int == tile as int * tiles,
        ;
    } else {
        assert forall|tiles: int| #[trigger] (tiles * tile) != n by {
            lemma_mod_multiples_basic(tiles, tile as int);
        }
    }
}

/// What the proofs below need to know of the shapes of a launch.
proof fn lemma_shapes(spec: LaunchContractSpec, config: LaunchConfig)
    ensures
        forall|shape: (u32, u32, u32), count: int| #[trigger]
            fills(shape, count) <==> count == shape.0 * shape.1 * shape.2,
        forall|shape: (u32, u32, u32)|
            (#[trigger] volume(shape)) >= 0 && (volume(shape) > u64::MAX <==> !exists|count: u64| #[trigger] fills(shape, count as int)),
        spec.cluster_shape() matches Some(cluster) ==> {
            &&& cluster.0 > 0 ==> (config.grid_dim.0 % cluster.0 != 0 <==> forall|tiles: int|
                #[trigger] (tiles * cluster.0) != config.grid_dim.0)
            &&& cluster.1 > 0 ==> (config.grid_dim.1 % cluster.1 != 0 <==> forall|tiles: int|
                #[trigger] (tiles * cluster.1) != config.grid_dim.1)
            &&& cluster.2 > 0 ==> (config.grid_dim.2 % cluster.2 != 0 <==> forall|tiles: int|
                #[trigger] (tiles * cluster.2) != config.grid_dim.2)
        },
{
    assert forall|shape: (u32, u32, u32), count: int| #[trigger]
        fills(shape, count) <==> count == shape.0 * shape.1 * shape.2 by {
        lemma_fills(shape, count);
    }
    assert forall|shape: (u32, u32, u32)|
        (#[trigger] volume(shape)) >= 0 && (volume(shape) > u64::MAX <==> !exists|count: u64| #[trigger] fills(shape, count as int)) by {
        lemma_fills(shape, 0);
        let all = shape.0 * shape.1 * shape.2;
        if all <= u64::MAX {
            assert(fills(shape, (all as u64) as int));
        }
    }
    match spec.cluster_shape() {
        Some(cluster) => {
            if cluster.0 > 0 {
                lemma_no_multiple(config.grid_dim.0, cluster.0);
            }
            if cluster.1 > 0 {
                lemma_no_multiple(config.grid_dim.1, cluster.1);
            }
            if cluster.2 > 0 {
                lemma_no_multiple(config.grid_dim.2, cluster.2);
            }
        },
        None => {},
    }
}

/// The shapes of a launch, as instances.
proof fn lemma_has_shapes(spec: LaunchContractSpec, config: LaunchConfig)
    ensures
        has_shape(spec, config, LaunchDimension::Grid, config.grid_dim),
        has_shape(spec, config, LaunchDimension::Block, config.block_dim),
        spec.block_rule() matches BlockRequirement::Exact(required) ==> has_shape(
            spec,
            config,
            LaunchDimension::Block,
            required,
        ),
        spec.cluster_shape() matches Some(cluster) ==> has_shape(
            spec,
            config,
            LaunchDimension::Cluster,
            cluster,
        ),
{
}

/// The static checks refuse a launch exactly where something that needs no
/// device stands against it, and the error that they report names it.
#[verifier::rlimit(60)]
pub proof fn static_refusals_have_a_ground(
    spec: LaunchContractSpec,
    config: LaunchConfig,
    valid: Result<(), LaunchContractError>,
)
    requires
        call_ensures(validate_static, (spec, config), valid),
    ensures
        valid matches Err(error) ==> static_ground(spec, config, error),
        valid is Ok ==> !exists|error: LaunchContractError| #[trigger]
            static_ground(spec, config, error),
{
    lemma_shapes(spec, config);
    lemma_has_shapes(spec, config);
}

/// The live shape checks refuse a launch exactly where its shape is beyond a
/// limit, and the error that they report names it.
#[verifier::rlimit(60)]
pub proof fn shape_refusals_have_a_ground(
    spec: LaunchContractSpec,
    config: LaunchConfig,
    limits: DeviceLaunchLimits,
    function_max_threads: u32,
    valid: Result<(), LaunchContractError>,
)
    requires
        call_ensures(validate_live_shape, (spec, config, limits, function_max_threads), valid),
    ensures
        valid matches Err(error) ==> shape_ground(
            spec,
            config,
            limits,
            function_max_threads,
            error,
        ),
        valid is Ok ==> !exists|error: LaunchContractError| #[trigger]
            shape_ground(spec, config, limits, function_max_threads, error),
{
    lemma_shapes(spec, config);
}

/// Preparation refuses a launch only where something stands against it, which
/// the error names.
#[verifier::rlimit(60)]
pub proof fn refusals_have_a_ground(
    spec: LaunchContractSpec,
    config: LaunchConfig,
    facts: LiveFacts,
    step: Step,
)
    requires
        call_ensures(decide, (spec, config, &facts), step),
    ensures
        step matches Step::Fail(error) ==> ground(spec, config, facts, error),
{
    lemma_shapes(spec, config);
    lemma_has_shapes(spec, config);
}

/// A launch that is ready has nothing standing against it, but for errors of
/// the driver on questions that the launch did not need.
#[verifier::rlimit(60)]
pub proof fn ready_launches_have_no_ground_against_them(
    spec: LaunchContractSpec,
    config: LaunchConfig,
    facts: LiveFacts,
    step: Step,
    error: LaunchContractError,
)
    requires
        call_ensures(decide, (spec, config, &facts), step),
        step is Ready,
        ground(spec, config, facts, error),
    ensures
        error is Driver,
{
    lemma_shapes(spec, config);
    lemma_has_shapes(spec, config);
}

/// Preparation asks only what it does not know yet and this launch needs, and
/// asks it about this launch.
#[verifier::rlimit(60)]
pub proof fn questions_are_about_this_launch(
    spec: LaunchContractSpec,
    config: LaunchConfig,
    facts: LiveFacts,
    step: Step,
)
    requires
        call_ensures(decide, (spec, config, &facts), step),
    ensures
        step matches Step::Ask(query) ==> {
            &&& !exists|error: LaunchContractError| #[trigger] static_ground(spec, config, error)
            &&& match query {
                DriverQuery::LaunchLimits => facts.limits is None,
                DriverQuery::FunctionMaxThreads => facts.function_max_threads is None,
                DriverQuery::StaticSharedMemory => facts.static_shared is None,
                DriverQuery::MaxDynamicSharedMemory => facts.max_dynamic_shared is None,
                DriverQuery::OptInSharedMemory => {
                    &&& facts.opt_in_shared is None
                    &&& facts.limits matches Some(Ok(limits)) && facts.static_shared matches Some(
                        Ok(static_bytes),
                    ) && forall|size: u32| #[trigger]
                        upper_end(spec.shared_memory_rule(), size) ==> static_bytes + size
                            > limits.max_shared_memory_per_block
                },
                DriverQuery::ComputeCapability => facts.compute_capability is None
                    && spec.capability_floor() is Some,
                DriverQuery::ClusterSupport => facts.cluster_support is None
                    && spec.cluster_shape() is Some,
                DriverQuery::RequiredCluster => facts.required_cluster is None
                    && spec.cluster_shape() is Some && facts.cluster_support == Some(
                    Ok::<bool, DriverError>(true),
                ),
                DriverQuery::CooperativeSupport => facts.cooperative_support is None
                    && spec.is_cooperative(),
                DriverQuery::SetMaxDynamicSharedMemory(bytes) => {
                    &&& facts.max_dynamic_shared_set is None
                    &&& upper_end(spec.shared_memory_rule(), bytes)
                    &&& facts.max_dynamic_shared matches Some(Ok(now)) && now < bytes
                },
                DriverQuery::MaxPotentialClusterSize { grid, block, shared_bytes } => {
                    &&& facts.max_cluster_size is None
                    &&& spec.cluster_shape() is Some
                    &&& grid == config.grid_dim
                    &&& block == config.block_dim
                    &&& shared_bytes == config.shared_mem_bytes
                },
                DriverQuery::MaxActiveClusters { grid, block, shared_bytes, cluster } => {
                    &&& facts.active_clusters is None
                    &&& spec.cluster_shape() == Some(cluster)
                    &&& grid == config.grid_dim
                    &&& block == config.block_dim
                    &&& shared_bytes == config.shared_mem_bytes
                },
                DriverQuery::MaxActiveBlocks { threads, shared_bytes } => {
                    &&& facts.active_blocks is None
                    &&& spec.is_cooperative()
                    &&& fills(config.block_dim, threads as int)
                    &&& shared_bytes == config.shared_mem_bytes
                },
                DriverQuery::MultiprocessorCount => facts.multiprocessors is None
                    && spec.is_cooperative(),
            }
        },
{
    lemma_shapes(spec, config);
    lemma_has_shapes(spec, config);
    crate::launch::validate::static_checks_are_complete(spec, config);
}

/// A reply is kept as the answer to its own question, and replies to different
/// questions do not disturb each other.
pub proof fn replies_are_kept(facts: LiveFacts, reply: DriverReply)
    ensures
        ({
            let after = with_reply(facts, reply);
            &&& after.limits == (match reply {
                DriverReply::LaunchLimits(answer) => Some(answer),
                _ => facts.limits,
            })
            &&& after.function_max_threads == (match reply {
                DriverReply::FunctionMaxThreads(answer) => Some(answer),
                _ => facts.function_max_threads,
            })
            &&& after.static_shared == (match reply {
                DriverReply::StaticSharedMemory(answer) => Some(answer),
                _ => facts.static_shared,
            })
            &&& after.max_dynamic_shared == (match reply {
                DriverReply::MaxDynamicSharedMemory(answer) => Some(answer),
                _ => facts.max_dynamic_shared,
            })
            &&& after.opt_in_shared == (match reply {
                DriverReply::OptInSharedMemory(answer) => Some(answer),
                _ => facts.opt_in_shared,
            })
            &&& after.compute_capability == (match reply {
                DriverReply::ComputeCapability(answer) => Some(answer),
                _ => facts.compute_capability,
            })
            &&& after.cluster_support == (match reply {
                DriverReply::ClusterSupport(answer) => Some(answer),
                _ => facts.cluster_support,
            })
            &&& after.required_cluster == (match reply {
                DriverReply::RequiredCluster(answer) => Some(answer),
                _ => facts.required_cluster,
            })
            &&& after.cooperative_support == (match reply {
                DriverReply::CooperativeSupport(answer) => Some(answer),
                _ => facts.cooperative_support,
            })
            &&& after.max_dynamic_shared_set == (match reply {
                DriverReply::SetMaxDynamicSharedMemory(answer) => Some(answer),
                _ => facts.max_dynamic_shared_set,
            })
            &&& after.max_cluster_size == (match reply {
                DriverReply::MaxPotentialClusterSize(answer) => Some(answer),
                _ => facts.max_cluster_size,
            })
            &&& after.active_clusters == (match reply {
                DriverReply::MaxActiveClusters(answer) => Some(answer),
                _ => facts.active_clusters,
            })
            &&& after.active_blocks == (match reply {
                DriverReply::MaxActiveBlocks(answer) => Some(answer),
                _ => facts.active_blocks,
            })
            &&& after.multiprocessors == (match reply {
                DriverReply::MultiprocessorCount(answer) => Some(answer),
                _ => facts.multiprocessors,
            })
        }),
{
}

/// Limits are inclusive: a cluster, a grid or an amount of shared memory is
/// refused exactly if it is greater than what there is, and the error gives
/// both numbers and whose limit it is.
pub proof fn limits_are_inclusive(
    kernel: &'static str,
    demand: u64,
    limit: u32,
    capacity: u64,
    opt_in: bool,
    memory: Result<(), LaunchContractError>,
    cluster: Result<(), LaunchContractError>,
    grid: Result<(), LaunchContractError>,
)
    requires
        call_ensures(validate_shared_memory_limit, (kernel, demand, limit, opt_in), memory),
        call_ensures(validate_cluster_size, (kernel, demand, limit), cluster),
        call_ensures(validate_cooperative_residency, (kernel, demand, capacity), grid),
    ensures
        memory is Err <==> demand > limit,
        cluster is Err <==> demand > limit,
        grid is Err <==> demand > capacity,
        memory matches Err(error) ==> error == (LaunchContractError::DeviceSharedMemoryExceeded {
            kernel,
            total: demand,
            max: limit,
            opt_in,
        }),
        cluster matches Err(error) ==> error == (LaunchContractError::ClusterSizeExceeded {
            kernel,
            blocks: demand,
            max: limit,
        }),
        grid matches Err(error) ==> error == (LaunchContractError::CooperativeGridTooLarge {
            kernel,
            blocks: demand,
            resident_capacity: capacity,
        }),
{
}

/// A device without a feature is refused with the error of that feature, and so
/// is a cluster of which none fits.
pub proof fn missing_support_is_refused(
    kernel: &'static str,
    supported: bool,
    shape: (u32, u32, u32),
    active: u32,
    clusters: Result<(), LaunchContractError>,
    cooperation: Result<(), LaunchContractError>,
    residency: Result<(), LaunchContractError>,
)
    requires
        call_ensures(validate_cluster_support, (kernel, supported), clusters),
        call_ensures(validate_cooperative_support, (kernel, supported), cooperation),
        call_ensures(validate_cluster_residency, (kernel, shape, active), residency),
    ensures
        clusters is Ok <==> supported,
        cooperation is Ok <==> supported,
        residency is Ok <==> active >= 1,
        clusters matches Err(error) ==> error == (LaunchContractError::ClusterLaunchUnsupported {
            kernel,
        }),
        cooperation matches Err(error) ==> error == (
        LaunchContractError::CooperativeLaunchUnsupported { kernel }),
        residency matches Err(error) ==> error == (LaunchContractError::ClusterHasNoResidency {
            kernel,
            cluster: shape,
        }),
{
}

/// The cluster that a contract declares is accepted only if the function was
/// compiled for one of the same size along each axis.
pub proof fn declared_clusters_are_the_compiled_ones(
    kernel: &'static str,
    declared: (u32, u32, u32),
    compiled: Option<(u32, u32, u32)>,
    valid: Result<(), LaunchContractError>,
)
    requires
        call_ensures(validate_required_cluster, (kernel, declared, compiled), valid),
    ensures
        valid is Ok <==> compiled is Some && forall|axis: LaunchAxis| #[trigger]
            along(declared, axis) == along(compiled->Some_0, axis),
        valid matches Err(error) ==> match compiled {
            None => error == (LaunchContractError::RequiredClusterDimensionsMissing {
                kernel,
                declared,
            }),
            Some(required) => error == (LaunchContractError::FunctionClusterShapeMismatch {
                kernel,
                declared,
                required,
            }),
        },
{
    if compiled is Some {
        let other = compiled->Some_0;
        assert(along(declared, LaunchAxis::X) == declared.0 && along(other, LaunchAxis::X)
            == other.0);
        assert(along(declared, LaunchAxis::Y) == declared.1 && along(other, LaunchAxis::Y)
            == other.1);
        assert(along(declared, LaunchAxis::Z) == declared.2 && along(other, LaunchAxis::Z)
            == other.2);
    }
}

/// The shared memory of a block is the sum of its two parts, refused where 32
/// bits do not hold it.
pub proof fn shared_memory_adds_up(
    kernel: &'static str,
    static_bytes: u32,
    dynamic_bytes: u32,
    total: Result<u64, LaunchContractError>,
)
    requires
        call_ensures(shared_memory_total, (kernel, static_bytes, dynamic_bytes), total),
    ensures
        total matches Ok(sum) ==> sum - static_bytes == dynamic_bytes,
        total is Err <==> static_bytes + dynamic_bytes >= 0x1_0000_0000,
        total matches Err(error) ==> error == (LaunchContractError::SharedMemoryTotalOverflow {
            kernel,
            static_bytes,
            dynamic_bytes,
        }),
{
}

/// The largest allocation of a rule is accepted by it, unless it accepts none,
/// and no larger one is.
pub proof fn largest_allocations_are_accepted(
    rule: DynamicSharedMemoryRequirement,
    most: u32,
    size: u32,
)
    requires
        call_ensures(dynamic_shared_memory_max, (rule,), most),
    ensures
        accepts(rule, size) ==> size <= most && accepts(rule, most),
        upper_end(rule, size) <==> size == most,
{
}

/// The product of a shape is the number of things in a box of that shape.
pub proof fn products_count_the_box(
    kernel: &'static str,
    dimension: LaunchDimension,
    shape: (u32, u32, u32),
    product: Result<u64, LaunchContractError>,
)
    requires
        call_ensures(shape_product, (kernel, dimension, shape), product),
    ensures
        product matches Ok(count) ==> fills(shape, count as int),
        product is Err <==> forall|count: int| #[trigger]
            fills(shape, count) ==> count >= 0x1_0000_0000_0000_0000,
        product matches Err(error) ==> error == (LaunchContractError::DimensionProductOverflow {
            kernel,
            dimension,
        }),
{
    lemma_fills(shape, shape.0 * shape.1 * shape.2);
    assert forall|count: int| #[trigger] fills(shape, count) implies count == shape.0 * shape.1
        * shape.2 by {
        lemma_fills(shape, count);
    }
    if product is Ok {
        lemma_fills(shape, product->Ok_0 as int);
    }
}

/// A shape is refused for its first axis without extent, and otherwise only
/// where it holds more than 64 bits can count.
pub proof fn shapes_need_extent(
    kernel: &'static str,
    dimension: LaunchDimension,
    shape: (u32, u32, u32),
    valid: Result<(), LaunchContractError>,
)
    requires
        call_ensures(validate_shape, (kernel, dimension, shape), valid),
    ensures
        valid matches Err(LaunchContractError::ZeroDimension { kernel: k, dimension: d, axis })
            ==> k == kernel && d == dimension && along(shape, axis) == 0 && match axis {
            LaunchAxis::X => true,
            LaunchAxis::Y => shape.0 > 0,
            LaunchAxis::Z => shape.0 > 0 && shape.1 > 0,
        },
        (exists|axis: LaunchAxis| #[trigger] along(shape, axis) == 0) ==> valid matches Err(
            LaunchContractError::ZeroDimension { .. },
        ),
        (forall|axis: LaunchAxis| #[trigger] along(shape, axis) > 0) ==> {
            &&& valid is Ok <==> exists|count: u64| #[trigger] fills(shape, count as int)
            &&& valid matches Err(error) ==> error == (
            LaunchContractError::DimensionProductOverflow { kernel, dimension })
        },
{
    assert(along(shape, LaunchAxis::X) == shape.0);
    assert(along(shape, LaunchAxis::Y) == shape.1);
    assert(along(shape, LaunchAxis::Z) == shape.2);
    let all = shape.0 * shape.1 * shape.2;
    lemma_fills(shape, all);
    assert forall|count: u64| #[trigger] fills(shape, count as int) implies count == all by {
        lemma_fills(shape, count as int);
    }
    if all <= u64::MAX {
        assert(fills(shape, (all as u64) as int));
    }
}

/// An axis is refused exactly if it is longer than its limit, and the first
/// such axis is the one that is named.
pub proof fn axes_are_held_to_their_limits(
    kernel: &'static str,
    dimension: LaunchDimension,
    shape: (u32, u32, u32),
    limit: (u32, u32, u32),
    valid: Result<(), LaunchContractError>,
)
    requires
        call_ensures(validate_axes, (kernel, dimension, shape, limit), valid),
    ensures
        valid is Err <==> exists|axis: LaunchAxis|
            #![trigger along(shape, axis)]
            along(shape, axis) > along(limit, axis),
        valid matches Err(error) ==> exists|axis: LaunchAxis|
            #![trigger along(shape, axis)]
            {
                &&& along(shape, axis) > along(limit, axis)
                &&& axis is Y ==> shape.0 <= limit.0
                &&& axis is Z ==> shape.0 <= limit.0 && shape.1 <= limit.1
                &&& error == (LaunchContractError::DeviceDimensionExceeded {
                    kernel,
                    dimension,
                    axis,
                    actual: along(shape, axis),
                    max: along(limit, axis),
                })
            },
{
    assert(along(shape, LaunchAxis::X) == shape.0 && along(limit, LaunchAxis::X) == limit.0);
    assert(along(shape, LaunchAxis::Y) == shape.1 && along(limit, LaunchAxis::Y) == limit.1);
    assert(along(shape, LaunchAxis::Z) == shape.2 && along(limit, LaunchAxis::Z) == limit.2);
}

/// A cluster is accepted exactly if whole clusters fill the grid along every
/// axis.
pub proof fn clusters_tile_the_grid(
    kernel: &'static str,
    grid: (u32, u32, u32),
    cluster: (u32, u32, u32),
    valid: Result<(), LaunchContractError>,
)
    requires
        cluster.0 > 0,
        cluster.1 > 0,
        cluster.2 > 0,
        call_ensures(validate_division, (kernel, grid, cluster), valid),
    ensures
        valid is Ok <==> {
            &&& exists|tiles: int| #[trigger] (tiles * cluster.0) == grid.0
            &&& exists|tiles: int| #[trigger] (tiles * cluster.1) == grid.1
            &&& exists|tiles: int| #[trigger] (tiles * cluster.2) == grid.2
        },
        valid matches Err(error) ==> exists|axis: LaunchAxis|
            #![trigger along(cluster, axis)]
            {
                &&& forall|tiles: int| #[trigger]
                    (tiles * along(cluster, axis)) != along(grid, axis)
                &&& error == (LaunchContractError::ClusterDoesNotDivideGrid {
                    kernel,
                    axis,
                    grid: along(grid, axis),
                    cluster: along(cluster, axis),
                })
            },
{
    lemma_no_multiple(grid.0, cluster.0);
    lemma_no_multiple(grid.1, cluster.1);
    lemma_no_multiple(grid.2, cluster.2);
    assert(along(cluster, LaunchAxis::X) == cluster.0 && along(grid, LaunchAxis::X) == grid.0);
    assert(along(cluster, LaunchAxis::Y) == cluster.1 && along(grid, LaunchAxis::Y) == grid.1);
    assert(along(cluster, LaunchAxis::Z) == cluster.2 && along(grid, LaunchAxis::Z) == grid.2);
}

/// An alignment is accepted exactly if it is one or twice an accepted one.
pub proof fn alignments_double(
    kernel: &'static str,
    alignment: u32,
    half: u32,
    valid: Result<(), LaunchContractError>,
    half_valid: Result<(), LaunchContractError>,
)
    requires
        call_ensures(validate_alignment, (kernel, alignment), valid),
        call_ensures(validate_alignment, (kernel, half), half_valid),
    ensures
        alignment == 0 ==> valid is Err,
        alignment == 1 ==> valid is Ok,
        alignment > 1 && alignment == 2 * half ==> (valid is Ok <==> half_valid is Ok),
        alignment > 1 && alignment % 2 == 1 ==> valid is Err,
        valid matches Err(error) ==> error == (LaunchContractError::InvalidSharedMemoryAlignment {
            kernel,
            alignment,
        }),
{
    reveal(is_pow2);
}

/// An element-wise launch is one row of blocks of 256 threads, the shortest
/// that has a thread for each of the `n` elements, without shared memory.
pub proof fn element_wise_launches_are_shortest(n: u32, config: LaunchConfig, blocks: int)
    requires
        call_ensures(LaunchConfig::for_num_elems, (n,), config),
    ensures
        config.block_dim == (256u32, 1u32, 1u32),
        config.grid_dim.1 == 1,
        config.grid_dim.2 == 1,
        config.shared_mem_bytes == 0,
        blocks * 256 >= n <==> blocks >= config.grid_dim.0,
{
}

/// A configuration gives back what it was made from, and is one wide along the
/// axes that it does not have.
pub proof fn configurations_keep_their_dimensions(
    grid: (u32, u32, u32),
    block: (u32, u32, u32),
    bytes: u32,
    one: LaunchConfig1D,
    two: LaunchConfig2D,
    three: LaunchConfig3D,
)
    requires
        call_ensures(LaunchConfig1D::new, (grid.0, block.0, bytes), one),
        call_ensures(LaunchConfig2D::new, ((grid.0, grid.1), (block.0, block.1), bytes), two),
        call_ensures(LaunchConfig3D::new, (grid, block, bytes), three),
    ensures
        along(one.raw().grid_dim, LaunchAxis::X) == along(grid, LaunchAxis::X),
        along(one.raw().block_dim, LaunchAxis::X) == along(block, LaunchAxis::X),
        forall|axis: LaunchAxis| axis !is X ==> #[trigger] along(one.raw().grid_dim, axis) == 1,
        forall|axis: LaunchAxis| axis !is X ==> #[trigger] along(one.raw().block_dim, axis) == 1,
        forall|axis: LaunchAxis|
            axis !is Z ==> #[trigger] along(two.raw().grid_dim, axis) == along(grid, axis),
        forall|axis: LaunchAxis|
            axis !is Z ==> #[trigger] along(two.raw().block_dim, axis) == along(block, axis),
        along(two.raw().grid_dim, LaunchAxis::Z) == 1,
        along(two.raw().block_dim, LaunchAxis::Z) == 1,
        forall|axis: LaunchAxis| #[trigger] along(three.raw().grid_dim, axis) == along(grid, axis),
        forall|axis: LaunchAxis| #[trigger]
            along(three.raw().block_dim, axis) == along(block, axis),
        one.raw().shared_mem_bytes == bytes,
        two.raw().shared_mem_bytes == bytes,
        three.raw().shared_mem_bytes == bytes,
{
}

/// A requirement is added to a contract without touching the others, so the
/// order in which requirements are added does not matter.
pub proof fn requirements_are_independent(
    plain: LaunchContractSpec,
    cluster: (u32, u32, u32),
    major: u32,
    minor: u32,
    steps: (LaunchContractSpec, LaunchContractSpec, LaunchContractSpec),
    others: (LaunchContractSpec, LaunchContractSpec, LaunchContractSpec),
)
    requires
        call_ensures(LaunchContractSpec::with_cluster, (plain, cluster), steps.0),
        call_ensures(LaunchContractSpec::with_cooperative, (steps.0,), steps.1),
        call_ensures(
            LaunchContractSpec::with_min_compute_capability,
            (steps.1, major, minor),
            steps.2,
        ),
        call_ensures(
            LaunchContractSpec::with_min_compute_capability,
            (plain, major, minor),
            others.0,
        ),
        call_ensures(LaunchContractSpec::with_cooperative, (others.0,), others.1),
        call_ensures(LaunchContractSpec::with_cluster, (others.1, cluster), others.2),
    ensures
        steps.2 == others.2,
        steps.2.kernel() == plain.kernel(),
        steps.2.block_rule() == plain.block_rule(),
        steps.2.shared_memory_rule() == plain.shared_memory_rule(),
        steps.2.cluster_shape() == Some(cluster),
        steps.2.is_cooperative(),
        steps.2.capability_floor() == Some((major, minor)),
        steps.0.is_cooperative() == plain.is_cooperative(),
        others.0.is_cooperative() == plain.is_cooperative(),
        others.1.cluster_shape() == plain.cluster_shape(),
{
    crate::launch::contract::contracts_with_equal_terms_are_equal(steps.2, others.2);
}

/// Where the check that finds an error stands among the checks: the name, the
/// grid, the block, what the contract says of the block and of shared memory,
/// the cluster, and then the device: shapes, shared memory, capability, support
/// for clusters and for cooperation, and what fits at a time.
pub open spec fn stage(error: LaunchContractError) -> int {
    match error {
        LaunchContractError::EmptyKernelName => 0,
        LaunchContractError::ZeroDimension { dimension, axis, .. } => match dimension {
            LaunchDimension::Grid => 10 + axis_place(axis),
            LaunchDimension::Block => 20,
            LaunchDimension::Cluster => 50 + axis_place(axis),
        },
        LaunchContractError::DimensionProductOverflow { dimension, .. } => match dimension {
            LaunchDimension::Grid => 13,
            LaunchDimension::Block => 20,
            LaunchDimension::Cluster => 53,
        },
        LaunchContractError::BlockShapeMismatch { .. } => 30,
        LaunchContractError::BlockThreadsExceedContract { .. } => 30,
        LaunchContractError::InvalidSharedMemoryAlignment { .. } => 40,
        LaunchContractError::InvalidSharedMemoryRange { .. } => 41,
        LaunchContractError::DynamicSharedMemoryExactMismatch { .. } => 42,
        LaunchContractError::DynamicSharedMemoryOutsideRange { .. } => 42,
        LaunchContractError::ClusterDoesNotDivideGrid { axis, .. } => 54 + axis_place(axis),
        LaunchContractError::DeviceDimensionExceeded { dimension, axis, .. } => match dimension {
            LaunchDimension::Grid => 60 + axis_place(axis),
            _ => 63 + axis_place(axis),
        },
        LaunchContractError::DeviceThreadsPerBlockExceeded { .. } => 66,
        LaunchContractError::FunctionThreadsPerBlockExceeded { .. } => 67,
        LaunchContractError::SharedMemoryTotalOverflow { .. } => 70,
        LaunchContractError::DeviceSharedMemoryExceeded { .. } => 71,
        LaunchContractError::ComputeCapabilityTooLow { .. } => 72,
        LaunchContractError::ClusterLaunchUnsupported { .. } => 73,
        LaunchContractError::RequiredClusterDimensionsMissing { .. } => 74,
        LaunchContractError::FunctionClusterShapeMismatch { .. } => 74,
        LaunchContractError::CooperativeLaunchUnsupported { .. } => 75,
        LaunchContractError::ClusteredCooperativeValidationUnsupported { .. } => 76,
        LaunchContractError::ClusterSizeExceeded { .. } => 77,
        LaunchContractError::ClusterShapeUnsupported { .. } => 78,
        LaunchContractError::ClusterHasNoResidency { .. } => 79,
        LaunchContractError::CooperativeGridTooLarge { .. } => 80,
        LaunchContractError::ContextMismatch { .. } => 90,
        LaunchContractError::Driver(_) => 100,
    }
}

/// The place of an axis among the three.
pub open spec fn axis_place(axis: LaunchAxis) -> int {
    match axis {
        LaunchAxis::X => 0,
        LaunchAxis::Y => 1,
        LaunchAxis::Z => 2,
    }
}

/// Of all that stands against a launch, the static checks report what the
/// first of them finds.
#[verifier::rlimit(60)]
pub proof fn static_refusals_come_in_order(
    spec: LaunchContractSpec,
    config: LaunchConfig,
    valid: Result<(), LaunchContractError>,
    other: LaunchContractError,
)
    requires
        call_ensures(validate_static, (spec, config), valid),
        static_ground(spec, config, other),
    ensures
        valid matches Err(error) && stage(error) <= stage(other),
{
    lemma_shapes(spec, config);
    lemma_has_shapes(spec, config);
}

/// Of all that stands against a launch, preparation reports what the first of
/// its checks finds, unless the driver itself failed.
#[verifier::rlimit(60)]
pub proof fn refusals_come_in_order(
    spec: LaunchContractSpec,
    config: LaunchConfig,
    facts: LiveFacts,
    step: Step,
    other: LaunchContractError,
)
    requires
        call_ensures(decide, (spec, config, &facts), step),
        ground(spec, config, facts, other),
        other !is Driver,
    ensures
        step matches Step::Fail(error) ==> error is Driver || stage(error) <= stage(other),
        step !is Ready,
{
    lemma_shapes(spec, config);
    lemma_has_shapes(spec, config);
}

/// Preparation asks in a fixed order: what it asks later, it asks only with the
/// earlier answers at hand.
#[verifier::rlimit(60)]
pub proof fn questions_come_in_order(
    spec: LaunchContractSpec,
    config: LaunchConfig,
    facts: LiveFacts,
    step: Step,
)
    requires
        call_ensures(decide, (spec, config, &facts), step),
    ensures
        step matches Step::Ask(query) ==> {
            let limits = facts.limits matches Some(Ok(_));
            let threads = limits && (facts.function_max_threads matches Some(Ok(_)));
            let shared = threads && (facts.static_shared matches Some(Ok(_)));
            let resources = shared && (facts.max_dynamic_shared matches Some(Ok(_)));
            let capability = resources && (spec.capability_floor() is None
                || facts.compute_capability matches Some(Ok(_)));
            let clusters = capability && (spec.cluster_shape() is None
                || facts.required_cluster matches Some(Ok(_)));
            let supported = clusters && (!spec.is_cooperative()
                || facts.cooperative_support matches Some(Ok(_)));
            let fitting = supported && (spec.cluster_shape() is None
                || facts.active_clusters matches Some(Ok(_)));
            match query {
                DriverQuery::LaunchLimits => true,
                DriverQuery::FunctionMaxThreads => limits,
                DriverQuery::StaticSharedMemory => threads,
                DriverQuery::MaxDynamicSharedMemory => shared,
                DriverQuery::OptInSharedMemory => resources,
                DriverQuery::ComputeCapability => resources,
                DriverQuery::ClusterSupport => capability,
                DriverQuery::RequiredCluster => capability,
                DriverQuery::CooperativeSupport => clusters,
                DriverQuery::SetMaxDynamicSharedMemory(_) => supported,
                DriverQuery::MaxPotentialClusterSize { .. } => supported,
                DriverQuery::MaxActiveClusters { .. } => supported
                    && facts.max_cluster_size matches Some(Ok(_)),
                DriverQuery::MaxActiveBlocks { .. } => fitting,
                DriverQuery::MultiprocessorCount => fitting && facts.active_blocks matches Some(
                    Ok(_),
                ),
            }
        },
{
}

} // verus!

//! The checks between a launch, its kernel's contract and the live device.
//!
//! A spec function `*_fault` names the first fault in the order in which the
//! checks run; the check of the same name reports exactly that fault.

use vstd::arithmetic::power2::is_pow2;
use vstd::prelude::*;

use crate::launch::config::LaunchConfig;
use crate::launch::contract::{BlockRequirement, DeviceLaunchLimits, DynamicSharedMemoryRequirement,
    LaunchContractSpec};
use crate::launch::error::{LaunchAxis, LaunchContractError, LaunchDimension};
use crate::text::{blank, is_blank};

verus! {

/// The earlier of two faults.
pub open spec fn first(
    earlier: Option<LaunchContractError>,
    later: Option<LaunchContractError>,
) -> Option<LaunchContractError> {
    if earlier is Some {
        earlier
    } else {
        later
    }
}

/// A check that reports `fault`, and succeeds where there is none.
pub open spec fn reported(fault: Option<LaunchContractError>) -> Result<(), LaunchContractError> {
    match fault {
        Some(error) => Err(error),
        None => Ok(()),
    }
}

/// The number of elements of a shape.
pub open spec fn volume(shape: (u32, u32, u32)) -> int {
    shape.0 * shape.1 * shape.2
}

/// Every axis of the shape is nonzero.
pub open spec fn nonzero(shape: (u32, u32, u32)) -> bool {
    shape.0 != 0 && shape.1 != 0 && shape.2 != 0
}

/// Every axis is within its limit.
pub open spec fn within(shape: (u32, u32, u32), limit: (u32, u32, u32)) -> bool {
    shape.0 <= limit.0 && shape.1 <= limit.1 && shape.2 <= limit.2
}

/// Every cluster axis divides its grid axis.
pub open spec fn divides(cluster: (u32, u32, u32), grid: (u32, u32, u32)) -> bool {
    grid.0 % cluster.0 == 0 && grid.1 % cluster.1 == 0 && grid.2 % cluster.2 == 0
}

/// A shape whose volume does not fit in 64 bits.
pub open spec fn volume_fault(
    kernel: &'static str,
    dimension: LaunchDimension,
    shape: (u32, u32, u32),
) -> Option<LaunchContractError> {
    if volume(shape) > u64::MAX {
        Some(LaunchContractError::DimensionProductOverflow { kernel, dimension })
    } else {
        None
    }
}

/// The first zero axis of a shape, or its overflowing volume.
pub open spec fn shape_fault(
    kernel: &'static str,
    dimension: LaunchDimension,
    shape: (u32, u32, u32),
) -> Option<LaunchContractError> {
    if shape.0 == 0 {
        Some(LaunchContractError::ZeroDimension { kernel, dimension, axis: LaunchAxis::X })
    } else if shape.1 == 0 {
        Some(LaunchContractError::ZeroDimension { kernel, dimension, axis: LaunchAxis::Y })
    } else if shape.2 == 0 {
        Some(LaunchContractError::ZeroDimension { kernel, dimension, axis: LaunchAxis::Z })
    } else {
        volume_fault(kernel, dimension, shape)
    }
}

/// The block that the contract does not accept.
pub open spec fn block_fault(
    spec: LaunchContractSpec,
    block: (u32, u32, u32),
) -> Option<LaunchContractError> {
    match spec.block_rule() {
        BlockRequirement::Exact(required) => first(
            shape_fault(spec.kernel(), LaunchDimension::Block, required),
            if block != required {
                Some(
                    LaunchContractError::BlockShapeMismatch {
                        kernel: spec.kernel(),
                        required,
                        actual: block,
                    },
                )
            } else {
                None
            },
        ),
        BlockRequirement::MaxThreads(max) => first(
            volume_fault(spec.kernel(), LaunchDimension::Block, block),
            if volume(block) > max {
                Some(
                    LaunchContractError::BlockThreadsExceedContract {
                        kernel: spec.kernel(),
                        actual: volume(block) as u64,
                        max,
                    },
                )
            } else {
                None
            },
        ),
    }
}

/// An alignment that is not a nonzero power of two.
pub open spec fn alignment_fault(
    kernel: &'static str,
    alignment: u32,
) -> Option<LaunchContractError> {
    if is_pow2(alignment as int) {
        None
    } else {
        Some(LaunchContractError::InvalidSharedMemoryAlignment { kernel, alignment })
    }
}

/// The dynamic shared memory that the contract does not accept.
pub open spec fn shared_memory_fault(
    spec: LaunchContractSpec,
    bytes_requested: u32,
) -> Option<LaunchContractError> {
    match spec.shared_memory_rule() {
        DynamicSharedMemoryRequirement::Exact { bytes, min_alignment } => first(
            alignment_fault(spec.kernel(), min_alignment),
            if bytes_requested != bytes {
                Some(
                    LaunchContractError::DynamicSharedMemoryExactMismatch {
                        kernel: spec.kernel(),
                        required: bytes,
                        actual: bytes_requested,
                    },
                )
            } else {
                None
            },
        ),
        DynamicSharedMemoryRequirement::Range { min_bytes, max_bytes, min_alignment } => first(
            alignment_fault(spec.kernel(), min_alignment),
            if min_bytes > max_bytes {
                Some(
                    LaunchContractError::InvalidSharedMemoryRange {
                        kernel: spec.kernel(),
                        min_bytes,
                        max_bytes,
                    },
                )
            } else if !(min_bytes <= bytes_requested <= max_bytes) {
                Some(
                    LaunchContractError::DynamicSharedMemoryOutsideRange {
                        kernel: spec.kernel(),
                        min: min_bytes,
                        max: max_bytes,
                        actual: bytes_requested,
                    },
                )
            } else {
                None
            },
        ),
    }
}

/// The first grid axis that the cluster does not divide.
pub open spec fn division_fault(
    kernel: &'static str,
    grid: (u32, u32, u32),
    cluster: (u32, u32, u32),
) -> Option<LaunchContractError> {
    if grid.0 % cluster.0 != 0 {
        Some(
            LaunchContractError::ClusterDoesNotDivideGrid {
                kernel,
                axis: LaunchAxis::X,
                grid: grid.0,
                cluster: cluster.0,
            },
        )
    } else if grid.1 % cluster.1 != 0 {
        Some(
            LaunchContractError::ClusterDoesNotDivideGrid {
                kernel,
                axis: LaunchAxis::Y,
                grid: grid.1,
                cluster: cluster.1,
            },
        )
    } else if grid.2 % cluster.2 != 0 {
        Some(
            LaunchContractError::ClusterDoesNotDivideGrid {
                kernel,
                axis: LaunchAxis::Z,
                grid: grid.2,
                cluster: cluster.2,
            },
        )
    } else {
        None
    }
}

/// The cluster that the contract cannot have on this grid.
pub open spec fn cluster_fault(
    spec: LaunchContractSpec,
    grid: (u32, u32, u32),
) -> Option<LaunchContractError> {
    match spec.cluster_shape() {
        None => None,
        Some(cluster) => first(
            shape_fault(spec.kernel(), LaunchDimension::Cluster, cluster),
            division_fault(spec.kernel(), grid, cluster),
        ),
    }
}

/// The first fault that needs no device to be seen.
pub open spec fn static_fault(
    spec: LaunchContractSpec,
    config: LaunchConfig,
) -> Option<LaunchContractError> {
    if blank(spec.kernel()@) {
        Some(LaunchContractError::EmptyKernelName)
    } else {
        first(
            shape_fault(spec.kernel(), LaunchDimension::Grid, config.grid_dim),
            first(
                shape_fault(spec.kernel(), LaunchDimension::Block, config.block_dim),
                first(
                    block_fault(spec, config.block_dim),
                    first(
                        shared_memory_fault(spec, config.shared_mem_bytes),
                        cluster_fault(spec, config.grid_dim),
                    ),
                ),
            ),
        )
    }
}

/// The first axis beyond its device limit.
pub open spec fn axis_fault(
    kernel: &'static str,
    dimension: LaunchDimension,
    shape: (u32, u32, u32),
    limit: (u32, u32, u32),
) -> Option<LaunchContractError> {
    if shape.0 > limit.0 {
        Some(
            LaunchContractError::DeviceDimensionExceeded {
                kernel,
                dimension,
                axis: LaunchAxis::X,
                actual: shape.0,
                max: limit.0,
            },
        )
    } else if shape.1 > limit.1 {
        Some(
            LaunchContractError::DeviceDimensionExceeded {
                kernel,
                dimension,
                axis: LaunchAxis::Y,
                actual: shape.1,
                max: limit.1,
            },
        )
    } else if shape.2 > limit.2 {
        Some(
            LaunchContractError::DeviceDimensionExceeded {
                kernel,
                dimension,
                axis: LaunchAxis::Z,
                actual: shape.2,
                max: limit.2,
            },
        )
    } else {
        None
    }
}

/// A block with too many threads for the device or the function.
pub open spec fn thread_count_fault(
    kernel: &'static str,
    block: (u32, u32, u32),
    device_max: u32,
    function_max: u32,
) -> Option<LaunchContractError> {
    if volume(block) > u64::MAX {
        Some(
            LaunchContractError::DimensionProductOverflow {
                kernel,
                dimension: LaunchDimension::Block,
            },
        )
    } else if volume(block) > device_max {
        Some(
            LaunchContractError::DeviceThreadsPerBlockExceeded {
                kernel,
                actual: volume(block) as u64,
                max: device_max,
            },
        )
    } else if volume(block) > function_max {
        Some(
            LaunchContractError::FunctionThreadsPerBlockExceeded {
                kernel,
                actual: volume(block) as u64,
                max: function_max,
            },
        )
    } else {
        None
    }
}

/// The first fault between the launch shape and the live limits.
pub open spec fn live_shape_fault(
    spec: LaunchContractSpec,
    config: LaunchConfig,
    limits: DeviceLaunchLimits,
    function_max_threads: u32,
) -> Option<LaunchContractError> {
    first(
        axis_fault(
            spec.kernel(),
            LaunchDimension::Grid,
            config.grid_dim,
            limits.max_grid_dim,
        ),
        first(
            axis_fault(
                spec.kernel(),
                LaunchDimension::Block,
                config.block_dim,
                limits.max_block_dim,
            ),
            thread_count_fault(
                spec.kernel(),
                config.block_dim,
                limits.max_threads_per_block,
                function_max_threads,
            ),
        ),
    )
}

/// What a launch must satisfy before any device is asked.
pub open spec fn statically_valid(spec: LaunchContractSpec, config: LaunchConfig) -> bool {
    &&& !blank(spec.kernel()@)
    &&& nonzero(config.grid_dim) && volume(config.grid_dim) <= u64::MAX
    &&& nonzero(config.block_dim) && volume(config.block_dim) <= u64::MAX
    &&& match spec.block_rule() {
        BlockRequirement::Exact(required) => config.block_dim == required,
        BlockRequirement::MaxThreads(max) => volume(config.block_dim) <= max,
    }
    &&& match spec.shared_memory_rule() {
        DynamicSharedMemoryRequirement::Exact { bytes, min_alignment } => {
            &&& is_pow2(min_alignment as int)
            &&& config.shared_mem_bytes == bytes
        },
        DynamicSharedMemoryRequirement::Range { min_bytes, max_bytes, min_alignment } => {
            &&& is_pow2(min_alignment as int)
            &&& min_bytes <= config.shared_mem_bytes <= max_bytes
        },
    }
    &&& match spec.cluster_shape() {
        None => true,
        Some(cluster) => {
            &&& nonzero(cluster) && volume(cluster) <= u64::MAX
            &&& divides(cluster, config.grid_dim)
        },
    }
}

/// The static checks find no fault exactly in the statically valid launches.
pub proof fn static_checks_are_complete(spec: LaunchContractSpec, config: LaunchConfig)
    ensures
        static_fault(spec, config) is None <==> statically_valid(spec, config),
{
}

/// The live checks find no fault exactly where the shape is within every limit.
pub proof fn live_shape_checks_are_complete(
    spec: LaunchContractSpec,
    config: LaunchConfig,
    limits: DeviceLaunchLimits,
    function_max_threads: u32,
)
    ensures
        live_shape_fault(spec, config, limits, function_max_threads) is None <==> {
            &&& within(config.grid_dim, limits.max_grid_dim)
            &&& within(config.block_dim, limits.max_block_dim)
            &&& volume(config.block_dim) <= limits.max_threads_per_block
            &&& volume(config.block_dim) <= function_max_threads
        },
{
}

/// Every fault of a check names the kernel, but for the missing name itself.
pub open spec fn names_kernel(error: LaunchContractError, kernel: &'static str) -> bool {
    match error {
        LaunchContractError::EmptyKernelName => false,
        LaunchContractError::ZeroDimension { kernel: k, .. } => k == kernel,
        LaunchContractError::DimensionProductOverflow { kernel: k, .. } => k == kernel,
        LaunchContractError::InvalidSharedMemoryAlignment { kernel: k, .. } => k == kernel,
        LaunchContractError::InvalidSharedMemoryRange { kernel: k, .. } => k == kernel,
        LaunchContractError::BlockShapeMismatch { kernel: k, .. } => k == kernel,
        LaunchContractError::BlockThreadsExceedContract { kernel: k, .. } => k == kernel,
        LaunchContractError::DynamicSharedMemoryExactMismatch { kernel: k, .. } => k == kernel,
        LaunchContractError::DynamicSharedMemoryOutsideRange { kernel: k, .. } => k == kernel,
        LaunchContractError::ClusterDoesNotDivideGrid { kernel: k, .. } => k == kernel,
        LaunchContractError::DeviceDimensionExceeded { kernel: k, .. } => k == kernel,
        LaunchContractError::DeviceThreadsPerBlockExceeded { kernel: k, .. } => k == kernel,
        LaunchContractError::FunctionThreadsPerBlockExceeded { kernel: k, .. } => k == kernel,
        LaunchContractError::SharedMemoryTotalOverflow { kernel: k, .. } => k == kernel,
        LaunchContractError::DeviceSharedMemoryExceeded { kernel: k, .. } => k == kernel,
        LaunchContractError::ComputeCapabilityTooLow { kernel: k, .. } => k == kernel,
        LaunchContractError::CooperativeLaunchUnsupported { kernel: k } => k == kernel,
        LaunchContractError::ClusterLaunchUnsupported { kernel: k } => k == kernel,
        LaunchContractError::ClusterSizeExceeded { kernel: k, .. } => k == kernel,
        LaunchContractError::FunctionClusterShapeMismatch { kernel: k, .. } => k == kernel,
        LaunchContractError::RequiredClusterDimensionsMissing { kernel: k, .. } => k == kernel,
        LaunchContractError::ClusterShapeUnsupported { kernel: k, .. } => k == kernel,
        LaunchContractError::ClusterHasNoResidency { kernel: k, .. } => k == kernel,
        LaunchContractError::ClusteredCooperativeValidationUnsupported { kernel: k } => k == kernel,
        LaunchContractError::CooperativeGridTooLarge { kernel: k, .. } => k == kernel,
        LaunchContractError::ContextMismatch { kernel: k, .. } => k == kernel,
        LaunchContractError::Driver(_) => false,
    }
}

/// Static faults point at the kernel whose assumptions were violated.
pub proof fn static_faults_name_the_kernel(spec: LaunchContractSpec, config: LaunchConfig)
    ensures
        static_fault(spec, config) matches Some(error) ==> (names_kernel(error, spec.kernel()) || (
        blank(spec.kernel()@) && error is EmptyKernelName)),
{
}

/// Checks everything that needs no device.
pub fn validate_static(spec: LaunchContractSpec, config: LaunchConfig) -> (valid: Result<
    (),
    LaunchContractError,
>)
    ensures
        valid == reported(static_fault(spec, config)),
{
    let kernel = spec.kernel_name();
    if is_blank(kernel) {
        return Err(LaunchContractError::EmptyKernelName);
    }
    if let Err(error) = validate_shape(kernel, LaunchDimension::Grid, config.grid_dim) {
        return Err(error);
    }
    if let Err(error) = validate_shape(kernel, LaunchDimension::Block, config.block_dim) {
        return Err(error);
    }
    match spec.block() {
        BlockRequirement::Exact(required) => {
            if let Err(error) = validate_shape(kernel, LaunchDimension::Block, required) {
                return Err(error);
            }
            if !same_shape(config.block_dim, required) {
                return Err(
                    LaunchContractError::BlockShapeMismatch {
                        kernel,
                        required,
                        actual: config.block_dim,
                    },
                );
            }
        },
        BlockRequirement::MaxThreads(max) => {
            let actual: u64 = match shape_product(
                kernel,
                LaunchDimension::Block,
                config.block_dim,
            ) {
                Ok(actual) => actual,
                Err(error) => {
                    return Err(error);
                },
            };
            if actual > max as u64 {
                return Err(
                    LaunchContractError::BlockThreadsExceedContract { kernel, actual, max },
                );
            }
        },
    }
    match spec.dynamic_shared_memory() {
        DynamicSharedMemoryRequirement::Exact { bytes, min_alignment } => {
            if let Err(error) = validate_alignment(kernel, min_alignment) {
                return Err(error);
            }
            if config.shared_mem_bytes != bytes {
                return Err(
                    LaunchContractError::DynamicSharedMemoryExactMismatch {
                        kernel,
                        required: bytes,
                        actual: config.shared_mem_bytes,
                    },
                );
            }
        },
        DynamicSharedMemoryRequirement::Range { min_bytes, max_bytes, min_alignment } => {
            if let Err(error) = validate_alignment(kernel, min_alignment) {
                return Err(error);
            }
            if min_bytes > max_bytes {
                return Err(
                    LaunchContractError::InvalidSharedMemoryRange { kernel, min_bytes, max_bytes },
                );
            }
            if !(min_bytes <= config.shared_mem_bytes && config.shared_mem_bytes <= max_bytes) {
                return Err(
                    LaunchContractError::DynamicSharedMemoryOutsideRange {
                        kernel,
                        min: min_bytes,
                        max: max_bytes,
                        actual: config.shared_mem_bytes,
                    },
                );
            }
        },
    }
    if let Some(cluster) = spec.cluster() {
        if let Err(error) = validate_shape(kernel, LaunchDimension::Cluster, cluster) {
            return Err(error);
        }
        if let Err(error) = validate_division(kernel, config.grid_dim, cluster) {
            return Err(error);
        }
    }
    Ok(())
}

/// Checks the launch shape against the live device and function.
pub fn validate_live_shape(
    spec: LaunchContractSpec,
    config: LaunchConfig,
    limits: DeviceLaunchLimits,
    function_max_threads: u32,
) -> (valid: Result<(), LaunchContractError>)
    ensures
        valid == reported(live_shape_fault(spec, config, limits, function_max_threads)),
{
    let kernel = spec.kernel_name();
    if let Err(error) = validate_axes(
        kernel,
        LaunchDimension::Grid,
        config.grid_dim,
        limits.max_grid_dim,
    ) {
        return Err(error);
    }
    if let Err(error) = validate_axes(
        kernel,
        LaunchDimension::Block,
        config.block_dim,
        limits.max_block_dim,
    ) {
        return Err(error);
    }
    let threads: u64 = match shape_product(kernel, LaunchDimension::Block, config.block_dim) {
        Ok(threads) => threads,
        Err(error) => {
            return Err(error);
        },
    };
    if threads > limits.max_threads_per_block as u64 {
        return Err(
            LaunchContractError::DeviceThreadsPerBlockExceeded {
                kernel,
                actual: threads,
                max: limits.max_threads_per_block,
            },
        );
    }
    if threads > function_max_threads as u64 {
        return Err(
            LaunchContractError::FunctionThreadsPerBlockExceeded {
                kernel,
                actual: threads,
                max: function_max_threads,
            },
        );
    }
    Ok(())
}

/// Adds the static and the dynamic shared memory of a block.
pub fn shared_memory_total(
    kernel: &'static str,
    static_bytes: u32,
    dynamic_bytes: u32,
) -> (total: Result<u64, LaunchContractError>)
    ensures
        total == if static_bytes + dynamic_bytes > u32::MAX {
            Err::<u64, LaunchContractError>(
                LaunchContractError::SharedMemoryTotalOverflow {
                    kernel,
                    static_bytes,
                    dynamic_bytes,
                },
            )
        } else {
            Ok((static_bytes + dynamic_bytes) as u64)
        },
{
    match static_bytes.checked_add(dynamic_bytes) {
        Some(total) => Ok(total as u64),
        None => Err(
            LaunchContractError::SharedMemoryTotalOverflow { kernel, static_bytes, dynamic_bytes },
        ),
    }
}

/// The largest allocation that the requirement allows.
pub open spec fn largest_allocation(requirement: DynamicSharedMemoryRequirement) -> u32 {
    match requirement {
        DynamicSharedMemoryRequirement::Exact { bytes, .. } => bytes,
        DynamicSharedMemoryRequirement::Range { max_bytes, .. } => max_bytes,
    }
}

/// Whatever size a valid launch chooses, the contract's maximum covers it.
pub proof fn contract_maximum_covers_every_launch(spec: LaunchContractSpec, config: LaunchConfig)
    requires
        statically_valid(spec, config),
    ensures
        config.shared_mem_bytes <= largest_allocation(spec.shared_memory_rule()),
{
}

/// The largest allocation that the requirement allows.
pub fn dynamic_shared_memory_max(requirement: DynamicSharedMemoryRequirement) -> (max: u32)
    ensures
        max == largest_allocation(requirement),
{
    match requirement {
        DynamicSharedMemoryRequirement::Exact { bytes, .. } => bytes,
        DynamicSharedMemoryRequirement::Range { max_bytes, .. } => max_bytes,
    }
}

/// Checks a block's shared memory against a device limit.
pub fn validate_shared_memory_limit(
    kernel: &'static str,
    total: u64,
    max: u32,
    opt_in: bool,
) -> (valid: Result<(), LaunchContractError>)
    ensures
        valid == if total <= max {
            Ok::<(), LaunchContractError>(())
        } else {
            Err(LaunchContractError::DeviceSharedMemoryExceeded { kernel, total, max, opt_in })
        },
{
    if total <= max as u64 {
        Ok(())
    } else {
        Err(LaunchContractError::DeviceSharedMemoryExceeded { kernel, total, max, opt_in })
    }
}

/// `actual` is no older than `required`: major first, then minor.
pub open spec fn capability_reaches(actual: (u32, u32), required: (u32, u32)) -> bool {
    actual.0 > required.0 || (actual.0 == required.0 && actual.1 >= required.1)
}

/// Compute capabilities are in one line: of two, one reaches the other, and both
/// only if they are the same. A later major number reaches every earlier one,
/// whatever the minor numbers are, and minor numbers below ten count as tenths.
pub proof fn capabilities_are_in_one_line(a: (u32, u32), b: (u32, u32), c: (u32, u32))
    ensures
        capability_reaches(a, b) || capability_reaches(b, a),
        capability_reaches(a, b) && capability_reaches(b, a) <==> a == b,
        capability_reaches(a, b) && capability_reaches(b, c) ==> capability_reaches(a, c),
        a.0 > b.0 ==> capability_reaches(a, b),
        a.0 == b.0 ==> (capability_reaches(a, b) <==> a.1 >= b.1),
        a.1 < 10 && b.1 < 10 ==> (capability_reaches(a, b) <==> 10 * a.0 + a.1 >= 10 * b.0 + b.1),
{
}

/// A device is accepted exactly if its capability does not come before the one
/// that the contract asks for, and the error names both.
pub proof fn devices_are_accepted_by_capability(
    kernel: &'static str,
    required: (u32, u32),
    actual: (u32, u32),
    valid: Result<(), LaunchContractError>,
)
    requires
        call_ensures(validate_compute_capability, (kernel, required, actual), valid),
    ensures
        valid is Err <==> actual.0 < required.0 || (actual.0 == required.0 && actual.1
            < required.1),
        valid matches Err(error) ==> error == (LaunchContractError::ComputeCapabilityTooLow {
            kernel,
            required,
            actual,
        }),
{
}

/// Checks the device's compute capability.
pub fn validate_compute_capability(
    kernel: &'static str,
    required: (u32, u32),
    actual: (u32, u32),
) -> (valid: Result<(), LaunchContractError>)
    ensures
        valid == if capability_reaches(actual, required) {
            Ok::<(), LaunchContractError>(())
        } else {
            Err(LaunchContractError::ComputeCapabilityTooLow { kernel, required, actual })
        },
{
    if actual.0 > required.0 || (actual.0 == required.0 && actual.1 >= required.1) {
        Ok(())
    } else {
        Err(LaunchContractError::ComputeCapabilityTooLow { kernel, required, actual })
    }
}

/// Checks that the device has thread-block clusters.
pub fn validate_cluster_support(kernel: &'static str, supported: bool) -> (valid: Result<
    (),
    LaunchContractError,
>)
    ensures
        valid == if supported {
            Ok::<(), LaunchContractError>(())
        } else {
            Err(LaunchContractError::ClusterLaunchUnsupported { kernel })
        },
{
    if supported {
        Ok(())
    } else {
        Err(LaunchContractError::ClusterLaunchUnsupported { kernel })
    }
}

/// Checks the blocks of a cluster against the live maximum.
pub fn validate_cluster_size(kernel: &'static str, blocks: u64, max: u32) -> (valid: Result<
    (),
    LaunchContractError,
>)
    ensures
        valid == if blocks <= max {
            Ok::<(), LaunchContractError>(())
        } else {
            Err(LaunchContractError::ClusterSizeExceeded { kernel, blocks, max })
        },
{
    if blocks <= max as u64 {
        Ok(())
    } else {
        Err(LaunchContractError::ClusterSizeExceeded { kernel, blocks, max })
    }
}

/// Checks the declared cluster against the one compiled into the function.
pub fn validate_required_cluster(
    kernel: &'static str,
    declared: (u32, u32, u32),
    required: Option<(u32, u32, u32)>,
) -> (valid: Result<(), LaunchContractError>)
    ensures
        valid == match required {
            Some(required) => if declared == required {
                Ok::<(), LaunchContractError>(())
            } else {
                Err(
                    LaunchContractError::FunctionClusterShapeMismatch {
                        kernel,
                        declared,
                        required,
                    },
                )
            },
            None => Err(LaunchContractError::RequiredClusterDimensionsMissing { kernel, declared }),
        },
{
    match required {
        Some(required) => if same_shape(declared, required) {
            Ok(())
        } else {
            Err(LaunchContractError::FunctionClusterShapeMismatch { kernel, declared, required })
        },
        None => Err(LaunchContractError::RequiredClusterDimensionsMissing { kernel, declared }),
    }
}

/// Checks that a cluster can be resident at all.
pub fn validate_cluster_residency(
    kernel: &'static str,
    cluster: (u32, u32, u32),
    active_clusters: u32,
) -> (valid: Result<(), LaunchContractError>)
    ensures
        valid == if active_clusters != 0 {
            Ok::<(), LaunchContractError>(())
        } else {
            Err(LaunchContractError::ClusterHasNoResidency { kernel, cluster })
        },
{
    if active_clusters != 0 {
        Ok(())
    } else {
        Err(LaunchContractError::ClusterHasNoResidency { kernel, cluster })
    }
}

/// Checks that the device has cooperative launches.
pub fn validate_cooperative_support(kernel: &'static str, supported: bool) -> (valid: Result<
    (),
    LaunchContractError,
>)
    ensures
        valid == if supported {
            Ok::<(), LaunchContractError>(())
        } else {
            Err(LaunchContractError::CooperativeLaunchUnsupported { kernel })
        },
{
    if supported {
        Ok(())
    } else {
        Err(LaunchContractError::CooperativeLaunchUnsupported { kernel })
    }
}

/// Checks that a cooperative grid can be resident as a whole.
pub fn validate_cooperative_residency(
    kernel: &'static str,
    blocks: u64,
    resident_capacity: u64,
) -> (valid: Result<(), LaunchContractError>)
    ensures
        valid == if blocks <= resident_capacity {
            Ok::<(), LaunchContractError>(())
        } else {
            Err(LaunchContractError::CooperativeGridTooLarge { kernel, blocks, resident_capacity })
        },
{
    if blocks <= resident_capacity {
        Ok(())
    } else {
        Err(LaunchContractError::CooperativeGridTooLarge { kernel, blocks, resident_capacity })
    }
}

/// Is `n` a power of two? Zero is none.
fn is_power_of_two(n: u32) -> (found: bool)
    ensures
        found == is_pow2(n as int),
    decreases n,
{
    proof {
        reveal(is_pow2);
    }
    if n == 0 {
        false
    } else if n == 1 {
        true
    } else {
        n % 2 == 0 && is_power_of_two(n / 2)
    }
}

/// Checks that an alignment is a nonzero power of two.
pub fn validate_alignment(kernel: &'static str, alignment: u32) -> (valid: Result<
    (),
    LaunchContractError,
>)
    ensures
        valid == reported(alignment_fault(kernel, alignment)),
{
    if is_power_of_two(alignment) {
        Ok(())
    } else {
        Err(LaunchContractError::InvalidSharedMemoryAlignment { kernel, alignment })
    }
}

/// Checks that a shape has no zero axis and a volume that fits.
pub fn validate_shape(
    kernel: &'static str,
    dimension: LaunchDimension,
    shape: (u32, u32, u32),
) -> (valid: Result<(), LaunchContractError>)
    ensures
        valid == reported(shape_fault(kernel, dimension, shape)),
{
    if shape.0 == 0 {
        return Err(LaunchContractError::ZeroDimension { kernel, dimension, axis: LaunchAxis::X });
    }
    if shape.1 == 0 {
        return Err(LaunchContractError::ZeroDimension { kernel, dimension, axis: LaunchAxis::Y });
    }
    if shape.2 == 0 {
        return Err(LaunchContractError::ZeroDimension { kernel, dimension, axis: LaunchAxis::Z });
    }
    match shape_product(kernel, dimension, shape) {
        Ok(_) => Ok(()),
        Err(error) => Err(error),
    }
}

/// The volume of a shape, where it fits in 64 bits.
pub fn shape_product(
    kernel: &'static str,
    dimension: LaunchDimension,
    shape: (u32, u32, u32),
) -> (product: Result<u64, LaunchContractError>)
    ensures
        product == match volume_fault(kernel, dimension, shape) {
            Some(error) => Err::<u64, LaunchContractError>(error),
            None => Ok(volume(shape) as u64),
        },
{
    let x: u64 = shape.0 as u64;
    let y: u64 = shape.1 as u64;
    assert(0 <= x * y <= u64::MAX) by (nonlinear_arith)
        requires
            x <= u32::MAX,
            y <= u32::MAX,
    ;
    let xy: u64 = x * y;
    assert(volume(shape) >= 0) by (nonlinear_arith)
        requires
            volume(shape) == xy * shape.2,
            xy >= 0,
            shape.2 >= 0,
    ;
    match xy.checked_mul(shape.2 as u64) {
        Some(product) => Ok(product),
        None => Err(LaunchContractError::DimensionProductOverflow { kernel, dimension }),
    }
}

fn same_shape(a: (u32, u32, u32), b: (u32, u32, u32)) -> (same: bool)
    ensures
        same == (a == b),
{
    a.0 == b.0 && a.1 == b.1 && a.2 == b.2
}

/// Checks each axis of a shape against a device limit.
pub fn validate_axes(
    kernel: &'static str,
    dimension: LaunchDimension,
    shape: (u32, u32, u32),
    limit: (u32, u32, u32),
) -> (valid: Result<(), LaunchContractError>)
    ensures
        valid == reported(axis_fault(kernel, dimension, shape, limit)),
{
    let (axis, actual, max): (LaunchAxis, u32, u32) = if shape.0 > limit.0 {
        (LaunchAxis::X, shape.0, limit.0)
    } else if shape.1 > limit.1 {
        (LaunchAxis::Y, shape.1, limit.1)
    } else if shape.2 > limit.2 {
        (LaunchAxis::Z, shape.2, limit.2)
    } else {
        return Ok(());
    };
    Err(LaunchContractError::DeviceDimensionExceeded { kernel, dimension, axis, actual, max })
}

/// Checks that a cluster tiles the grid.
pub fn validate_division(
    kernel: &'static str,
    grid: (u32, u32, u32),
    cluster: (u32, u32, u32),
) -> (valid: Result<(), LaunchContractError>)
    requires
        nonzero(cluster),
    ensures
        valid == reported(division_fault(kernel, grid, cluster)),
{
    let (axis, blocks, tile): (LaunchAxis, u32, u32) = if grid.0 % cluster.0 != 0 {
        (LaunchAxis::X, grid.0, cluster.0)
    } else if grid.1 % cluster.1 != 0 {
        (LaunchAxis::Y, grid.1, cluster.1)
    } else if grid.2 % cluster.2 != 0 {
        (LaunchAxis::Z, grid.2, cluster.2)
    } else {
        return Ok(());
    };
    Err(
        LaunchContractError::ClusterDoesNotDivideGrid {
            kernel,
            axis,
            grid: blocks,
            cluster: tile,
        },
    )
}

} // verus!

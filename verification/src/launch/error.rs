//! Why a launch cannot be prepared.

use vstd::prelude::*;

use crate::driver::DriverError;
use crate::text::{decimal, push_decimal};

verus! {

/// Which launch dimension is named by a validation error.
#[derive(Clone, Copy, Debug, PartialEq, Eq, Structural)]
pub enum LaunchDimension {
    /// Grid dimensions, measured in blocks.
    Grid,
    /// Block dimensions, measured in threads.
    Block,
    /// Thread-block cluster dimensions, measured in blocks.
    Cluster,
}

/// Axis named by a dimension validation error.
#[derive(Clone, Copy, Debug, PartialEq, Eq, Structural)]
pub enum LaunchAxis {
    /// X axis.
    X,
    /// Y axis.
    Y,
    /// Z axis.
    Z,
}

impl LaunchDimension {
    /// The dimension's name.
    pub open spec fn spelling(self) -> Seq<char> {
        match self {
            LaunchDimension::Grid => "Grid"@,
            LaunchDimension::Block => "Block"@,
            LaunchDimension::Cluster => "Cluster"@,
        }
    }

    /// The dimension's name.
    pub fn name(self) -> (name: &'static str)
        ensures
            name@ == self.spelling(),
    {
        match self {
            LaunchDimension::Grid => "Grid",
            LaunchDimension::Block => "Block",
            LaunchDimension::Cluster => "Cluster",
        }
    }
}

impl LaunchAxis {
    /// The axis' name.
    pub open spec fn spelling(self) -> Seq<char> {
        match self {
            LaunchAxis::X => "X"@,
            LaunchAxis::Y => "Y"@,
            LaunchAxis::Z => "Z"@,
        }
    }

    /// The axis' name.
    pub fn name(self) -> (name: &'static str)
        ensures
            name@ == self.spelling(),
    {
        match self {
            LaunchAxis::X => "X",
            LaunchAxis::Y => "Y",
            LaunchAxis::Z => "Z",
        }
    }
}

/// Why preparation of a typed kernel launch failed.
#[derive(Debug)]
#[allow(inconsistent_fields)]
#[non_exhaustive]
pub enum LaunchContractError {
    /// The contract omitted a useful kernel name.
    EmptyKernelName,
    /// A grid, block, or cluster dimension was zero.
    ZeroDimension { kernel: &'static str, dimension: LaunchDimension, axis: LaunchAxis },
    /// Multiplying a three-dimensional shape exceeded the representable range.
    DimensionProductOverflow { kernel: &'static str, dimension: LaunchDimension },
    /// A shared-memory alignment was not a nonzero power of two.
    InvalidSharedMemoryAlignment { kernel: &'static str, alignment: u32 },
    /// A shared-memory range had its endpoints reversed.
    InvalidSharedMemoryRange { kernel: &'static str, min_bytes: u32, max_bytes: u32 },
    /// The launch block did not equal the contract's exact block.
    BlockShapeMismatch { kernel: &'static str, required: (u32, u32, u32), actual: (u32, u32, u32) },
    /// The block contained more threads than the contract permits.
    BlockThreadsExceedContract { kernel: &'static str, actual: u64, max: u32 },
    /// Dynamic shared memory did not equal the contract's exact size.
    DynamicSharedMemoryExactMismatch { kernel: &'static str, required: u32, actual: u32 },
    /// Dynamic shared memory fell outside the contract's inclusive range.
    DynamicSharedMemoryOutsideRange { kernel: &'static str, min: u32, max: u32, actual: u32 },
    /// A cluster axis did not evenly divide the corresponding grid axis.
    ClusterDoesNotDivideGrid { kernel: &'static str, axis: LaunchAxis, grid: u32, cluster: u32 },
    /// A launch dimension exceeded a live device limit.
    DeviceDimensionExceeded {
        kernel: &'static str,
        dimension: LaunchDimension,
        axis: LaunchAxis,
        actual: u32,
        max: u32,
    },
    /// The block contained more threads than the device permits.
    DeviceThreadsPerBlockExceeded { kernel: &'static str, actual: u64, max: u32 },
    /// The block contained more threads than this function permits.
    FunctionThreadsPerBlockExceeded { kernel: &'static str, actual: u64, max: u32 },
    /// Static plus dynamic shared-memory arithmetic overflowed.
    SharedMemoryTotalOverflow { kernel: &'static str, static_bytes: u32, dynamic_bytes: u32 },
    /// Static plus dynamic shared memory exceeded the device limit, the opt-in
    /// limit where `opt_in` holds.
    DeviceSharedMemoryExceeded { kernel: &'static str, total: u64, max: u32, opt_in: bool },
    /// The device compute capability is below the contract minimum.
    ComputeCapabilityTooLow { kernel: &'static str, required: (u32, u32), actual: (u32, u32) },
    /// The live device does not support cooperative launch.
    CooperativeLaunchUnsupported { kernel: &'static str },
    /// The live device does not support thread-block clusters.
    ClusterLaunchUnsupported { kernel: &'static str },
    /// The requested cluster contains more blocks than this function and
    /// launch shape support on the live device.
    ClusterSizeExceeded { kernel: &'static str, blocks: u64, max: u32 },
    /// The contract disagrees with cluster dimensions compiled into the
    /// function.
    FunctionClusterShapeMismatch {
        kernel: &'static str,
        declared: (u32, u32, u32),
        required: (u32, u32, u32),
    },
    /// The host contract declares a fixed cluster but the compiled function
    /// does not contain matching required-cluster metadata.
    RequiredClusterDimensionsMissing { kernel: &'static str, declared: (u32, u32, u32) },
    /// CUDA rejected the concrete cluster shape for this function and launch
    /// configuration.
    ClusterShapeUnsupported { kernel: &'static str, cluster: (u32, u32, u32) },
    /// CUDA reported that no cluster of the requested shape can be resident.
    ClusterHasNoResidency { kernel: &'static str, cluster: (u32, u32, u32) },
    /// Safe cooperative-residency validation for clustered launches is not
    /// available through the non-cluster occupancy query.
    ClusteredCooperativeValidationUnsupported { kernel: &'static str },
    /// A cooperative grid cannot be fully resident on the device.
    CooperativeGridTooLarge { kernel: &'static str, blocks: u64, resident_capacity: u64 },
    /// A stream belongs to a different CUDA context from the prepared function.
    ContextMismatch { kernel: &'static str, function_device: usize, stream_device: usize },
    /// A CUDA driver query or one-time function configuration failed.
    Driver(DriverError),
}

/// A shape as `(x, y, z)`.
pub open spec fn shape_text(shape: (u32, u32, u32)) -> Seq<char> {
    "("@ + decimal(shape.0 as nat) + ", "@ + decimal(shape.1 as nat) + ", "@ + decimal(
        shape.2 as nat,
    ) + ")"@
}

fn push_shape(out: &mut String, shape: (u32, u32, u32))
    ensures
        final(out)@ == old(out)@ + shape_text(shape),
{
    out.append("(");
    push_decimal(out, shape.0 as u64);
    out.append(", ");
    push_decimal(out, shape.1 as u64);
    out.append(", ");
    push_decimal(out, shape.2 as u64);
    out.append(")");
    assert(out@ =~= old(out)@ + shape_text(shape));
}

/// The name of a shared-memory limit.
pub open spec fn limit_kind(opt_in: bool) -> Seq<char> {
    if opt_in {
        "opt-in"@
    } else {
        "portable"@
    }
}

impl LaunchContractError {
    /// The diagnostic. A driver error has the text that the driver gives it.
    pub open spec fn text(self, driver_text: Seq<char>) -> Seq<char> {
        match self {
            LaunchContractError::EmptyKernelName => "kernel launch contract has an empty name"@,
            LaunchContractError::ZeroDimension { kernel, dimension, axis } =>
                kernel@ + ": "@ + dimension.spelling() + "."@ + axis.spelling()
                    + " must be nonzero"@,
            LaunchContractError::DimensionProductOverflow { kernel, dimension } =>
                kernel@ + ": "@ + dimension.spelling() + " dimension product overflowed"@,
            LaunchContractError::InvalidSharedMemoryAlignment { kernel, alignment } =>
                kernel@ + ": dynamic shared-memory alignment "@ + decimal(alignment as nat)
                    + " is not a nonzero power of two"@,
            LaunchContractError::InvalidSharedMemoryRange { kernel, min_bytes, max_bytes } =>
                kernel@ + ": dynamic shared-memory range "@ + decimal(min_bytes as nat) + "..="@
                    + decimal(max_bytes as nat) + " is invalid"@,
            LaunchContractError::BlockShapeMismatch { kernel, required, actual } =>
                kernel@ + ": block "@ + shape_text(actual) + " does not match required block "@
                    + shape_text(required),
            LaunchContractError::BlockThreadsExceedContract { kernel, actual, max } =>
                kernel@ + ": block has "@ + decimal(actual as nat)
                    + " threads; contract maximum is "@ + decimal(max as nat),
            LaunchContractError::DynamicSharedMemoryExactMismatch { kernel, required, actual } =>
                kernel@ + ": dynamic shared memory is "@ + decimal(actual as nat)
                    + " bytes; contract requires "@ + decimal(required as nat),
            LaunchContractError::DynamicSharedMemoryOutsideRange { kernel, min, max, actual } =>
                kernel@ + ": dynamic shared memory is "@ + decimal(actual as nat)
                    + " bytes; contract permits "@ + decimal(min as nat) + "..="@
                    + decimal(max as nat),
            LaunchContractError::ClusterDoesNotDivideGrid { kernel, axis, grid, cluster } =>
                kernel@ + ": cluster "@ + axis.spelling() + " size "@ + decimal(cluster as nat)
                    + " does not divide grid size "@ + decimal(grid as nat),
            LaunchContractError::DeviceDimensionExceeded { kernel, dimension, axis, actual, max } =>
                kernel@ + ": "@ + dimension.spelling() + "."@ + axis.spelling() + " size "@
                    + decimal(actual as nat) + " exceeds device maximum "@ + decimal(max as nat),
            LaunchContractError::DeviceThreadsPerBlockExceeded { kernel, actual, max } =>
                kernel@ + ": block has "@ + decimal(actual as nat)
                    + " threads; device maximum is "@ + decimal(max as nat),
            LaunchContractError::FunctionThreadsPerBlockExceeded { kernel, actual, max } =>
                kernel@ + ": block has "@ + decimal(actual as nat)
                    + " threads; function maximum is "@ + decimal(max as nat),
            LaunchContractError::SharedMemoryTotalOverflow { kernel, static_bytes, dynamic_bytes } =>
                kernel@ + ": "@ + decimal(static_bytes as nat) + " static + "@
                    + decimal(dynamic_bytes as nat) + " dynamic shared-memory bytes overflowed"@,
            LaunchContractError::DeviceSharedMemoryExceeded { kernel, total, max, opt_in } =>
                kernel@ + ": "@ + decimal(total as nat)
                    + " shared-memory bytes exceed the device "@ + limit_kind(opt_in)
                    + " limit "@ + decimal(max as nat),
            LaunchContractError::ComputeCapabilityTooLow { kernel, required, actual } =>
                kernel@ + ": compute capability "@ + decimal(actual.0 as nat) + "."@
                    + decimal(actual.1 as nat) + " is below required "@
                    + decimal(required.0 as nat) + "."@ + decimal(required.1 as nat),
            LaunchContractError::CooperativeLaunchUnsupported { kernel } =>
                kernel@ + ": device does not support cooperative launch"@,
            LaunchContractError::ClusterLaunchUnsupported { kernel } =>
                kernel@ + ": device does not support cluster launch"@,
            LaunchContractError::ClusterSizeExceeded { kernel, blocks, max } =>
                kernel@ + ": cluster has "@ + decimal(blocks as nat)
                    + " blocks; live maximum is "@ + decimal(max as nat),
            LaunchContractError::FunctionClusterShapeMismatch { kernel, declared, required } =>
                kernel@ + ": declared cluster "@ + shape_text(declared)
                    + " does not match function-required cluster "@ + shape_text(required),
            LaunchContractError::RequiredClusterDimensionsMissing { kernel, declared } =>
                kernel@ + ": declared cluster "@ + shape_text(declared)
                    + " is missing from the compiled function metadata"@,
            LaunchContractError::ClusterShapeUnsupported { kernel, cluster } =>
                kernel@ + ": cluster shape "@ + shape_text(cluster)
                    + " is unsupported for this launch"@,
            LaunchContractError::ClusterHasNoResidency { kernel, cluster } =>
                kernel@ + ": no cluster with shape "@ + shape_text(cluster)
                    + " can be resident"@,
            LaunchContractError::ClusteredCooperativeValidationUnsupported { kernel } =>
                kernel@ + ": clustered cooperative residency cannot be validated by this API"@,
            LaunchContractError::CooperativeGridTooLarge { kernel, blocks, resident_capacity } =>
                kernel@ + ": cooperative grid has "@ + decimal(blocks as nat)
                    + " blocks but only "@ + decimal(resident_capacity as nat)
                    + " can be resident"@,
            LaunchContractError::ContextMismatch { kernel, function_device, stream_device } =>
                kernel@ + ": function is on device "@ + decimal(function_device as nat)
                    + ", stream is on device "@ + decimal(stream_device as nat),
            LaunchContractError::Driver(_) => driver_text,
        }
    }

    /// Renders the diagnostic. `driver_text` is what the driver says of its own
    /// error; only `Driver` uses it.
    pub fn message(&self, driver_text: &str) -> (text: String)
        ensures
            text@ == self.text(driver_text@),
    {
        match self {
            LaunchContractError::EmptyKernelName => {
                "kernel launch contract has an empty name".to_owned()
            },
            LaunchContractError::ZeroDimension { kernel, dimension, axis } => {
                let mut out = (*kernel).to_owned();
                out.append(": ");
                out.append(dimension.name());
                out.append(".");
                out.append(axis.name());
                out.append(" must be nonzero");
                out
            },
            LaunchContractError::DimensionProductOverflow { kernel, dimension } => {
                let mut out = (*kernel).to_owned();
                out.append(": ");
                out.append(dimension.name());
                out.append(" dimension product overflowed");
                out
            },
            LaunchContractError::InvalidSharedMemoryAlignment { kernel, alignment } => {
                let mut out = (*kernel).to_owned();
                out.append(": dynamic shared-memory alignment ");
                push_decimal(&mut out, *alignment as u64);
                out.append(" is not a nonzero power of two");
                out
            },
            LaunchContractError::InvalidSharedMemoryRange { kernel, min_bytes, max_bytes } => {
                let mut out = (*kernel).to_owned();
                out.append(": dynamic shared-memory range ");
                push_decimal(&mut out, *min_bytes as u64);
                out.append("..=");
                push_decimal(&mut out, *max_bytes as u64);
                out.append(" is invalid");
                out
            },
            LaunchContractError::BlockShapeMismatch { kernel, required, actual } => {
                let mut out = (*kernel).to_owned();
                out.append(": block ");
                push_shape(&mut out, *actual);
                out.append(" does not match required block ");
                push_shape(&mut out, *required);
                out
            },
            LaunchContractError::BlockThreadsExceedContract { kernel, actual, max } => {
                let mut out = (*kernel).to_owned();
                out.append(": block has ");
                push_decimal(&mut out, *actual as u64);
                out.append(" threads; contract maximum is ");
                push_decimal(&mut out, *max as u64);
                out
            },
            LaunchContractError::DynamicSharedMemoryExactMismatch { kernel, required, actual } => {
                let mut out = (*kernel).to_owned();
                out.append(": dynamic shared memory is ");
                push_decimal(&mut out, *actual as u64);
                out.append(" bytes; contract requires ");
                push_decimal(&mut out, *required as u64);
                out
            },
            LaunchContractError::DynamicSharedMemoryOutsideRange { kernel, min, max, actual } => {
                let mut out = (*kernel).to_owned();
                out.append(": dynamic shared memory is ");
                push_decimal(&mut out, *actual as u64);
                out.append(" bytes; contract permits ");
                push_decimal(&mut out, *min as u64);
                out.append("..=");
                push_decimal(&mut out, *max as u64);
                out
            },
            LaunchContractError::ClusterDoesNotDivideGrid { kernel, axis, grid, cluster } => {
                let mut out = (*kernel).to_owned();
                out.append(": cluster ");
                out.append(axis.name());
                out.append(" size ");
                push_decimal(&mut out, *cluster as u64);
                out.append(" does not divide grid size ");
                push_decimal(&mut out, *grid as u64);
                out
            },
            LaunchContractError::DeviceDimensionExceeded { kernel, dimension, axis, actual, max } => {
                let mut out = (*kernel).to_owned();
                out.append(": ");
                out.append(dimension.name());
                out.append(".");
                out.append(axis.name());
                out.append(" size ");
                push_decimal(&mut out, *actual as u64);
                out.append(" exceeds device maximum ");
                push_decimal(&mut out, *max as u64);
                out
            },
            LaunchContractError::DeviceThreadsPerBlockExceeded { kernel, actual, max } => {
                let mut out = (*kernel).to_owned();
                out.append(": block has ");
                push_decimal(&mut out, *actual as u64);
                out.append(" threads; device maximum is ");
                push_decimal(&mut out, *max as u64);
                out
            },
            LaunchContractError::FunctionThreadsPerBlockExceeded { kernel, actual, max } => {
                let mut out = (*kernel).to_owned();
                out.append(": block has ");
                push_decimal(&mut out, *actual as u64);
                out.append(" threads; function maximum is ");
                push_decimal(&mut out, *max as u64);
                out
            },
            LaunchContractError::SharedMemoryTotalOverflow { kernel, static_bytes, dynamic_bytes } => {
                let mut out = (*kernel).to_owned();
                out.append(": ");
                push_decimal(&mut out, *static_bytes as u64);
                out.append(" static + ");
                push_decimal(&mut out, *dynamic_bytes as u64);
                out.append(" dynamic shared-memory bytes overflowed");
                out
            },
            LaunchContractError::DeviceSharedMemoryExceeded { kernel, total, max, opt_in } => {
                let mut out = (*kernel).to_owned();
                out.append(": ");
                push_decimal(&mut out, *total as u64);
                out.append(" shared-memory bytes exceed the device ");
                out.append(if *opt_in { "opt-in" } else { "portable" });
                out.append(" limit ");
                push_decimal(&mut out, *max as u64);
                out
            },
            LaunchContractError::ComputeCapabilityTooLow { kernel, required, actual } => {
                let mut out = (*kernel).to_owned();
                out.append(": compute capability ");
                push_decimal(&mut out, actual.0 as u64);
                out.append(".");
                push_decimal(&mut out, actual.1 as u64);
                out.append(" is below required ");
                push_decimal(&mut out, required.0 as u64);
                out.append(".");
                push_decimal(&mut out, required.1 as u64);
                out
            },
            LaunchContractError::CooperativeLaunchUnsupported { kernel } => {
                let mut out = (*kernel).to_owned();
                out.append(": device does not support cooperative launch");
                out
            },
            LaunchContractError::ClusterLaunchUnsupported { kernel } => {
                let mut out = (*kernel).to_owned();
                out.append(": device does not support cluster launch");
                out
            },
            LaunchContractError::ClusterSizeExceeded { kernel, blocks, max } => {
                let mut out = (*kernel).to_owned();
                out.append(": cluster has ");
                push_decimal(&mut out, *blocks as u64);
                out.append(" blocks; live maximum is ");
                push_decimal(&mut out, *max as u64);
                out
            },
            LaunchContractError::FunctionClusterShapeMismatch { kernel, declared, required } => {
                let mut out = (*kernel).to_owned();
                out.append(": declared cluster ");
                push_shape(&mut out, *declared);
                out.append(" does not match function-required cluster ");
                push_shape(&mut out, *required);
                out
            },
            LaunchContractError::RequiredClusterDimensionsMissing { kernel, declared } => {
                let mut out = (*kernel).to_owned();
                out.append(": declared cluster ");
                push_shape(&mut out, *declared);
                out.append(" is missing from the compiled function metadata");
                out
            },
            LaunchContractError::ClusterShapeUnsupported { kernel, cluster } => {
                let mut out = (*kernel).to_owned();
                out.append(": cluster shape ");
                push_shape(&mut out, *cluster);
                out.append(" is unsupported for this launch");
                out
            },
            LaunchContractError::ClusterHasNoResidency { kernel, cluster } => {
                let mut out = (*kernel).to_owned();
                out.append(": no cluster with shape ");
                push_shape(&mut out, *cluster);
                out.append(" can be resident");
                out
            },
            LaunchContractError::ClusteredCooperativeValidationUnsupported { kernel } => {
                let mut out = (*kernel).to_owned();
                out.append(": clustered cooperative residency cannot be validated by this API");
                out
            },
            LaunchContractError::CooperativeGridTooLarge { kernel, blocks, resident_capacity } => {
                let mut out = (*kernel).to_owned();
                out.append(": cooperative grid has ");
                push_decimal(&mut out, *blocks as u64);
                out.append(" blocks but only ");
                push_decimal(&mut out, *resident_capacity as u64);
                out.append(" can be resident");
                out
            },
            LaunchContractError::ContextMismatch { kernel, function_device, stream_device } => {
                let mut out = (*kernel).to_owned();
                out.append(": function is on device ");
                push_decimal(&mut out, *function_device as u64);
                out.append(", stream is on device ");
                push_decimal(&mut out, *stream_device as u64);
                out
            },
            LaunchContractError::Driver(_) => driver_text.to_owned(),
        }
    }
}

impl From<DriverError> for LaunchContractError {
    fn from(value: DriverError) -> (error: LaunchContractError) {
        LaunchContractError::Driver(value)
    }
}

impl vstd::std_specs::convert::FromSpecImpl<DriverError> for LaunchContractError {
    open spec fn obeys_from_spec() -> bool {
        true
    }

    open spec fn from_spec(value: DriverError) -> LaunchContractError {
        LaunchContractError::Driver(value)
    }
}

} // verus!

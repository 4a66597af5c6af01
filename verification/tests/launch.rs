//! Launch configuration, contract validation and preparation.

use cuda_oxide::driver::{
    CudaContext, CudaFunction, CudaStream, DriverError, CUDA_ERROR_INVALID_CLUSTER_SIZE,
    CUDA_ERROR_INVALID_VALUE,
};
use cuda_oxide::launch::config::{
    KernelLaunchConfig, LaunchConfig, LaunchConfig1D, LaunchConfig2D, LaunchConfig3D,
};
use cuda_oxide::launch::contract::{
    BlockRequirement, DeviceLaunchLimits, DynamicSharedMemoryRequirement, KernelLaunchContract,
    LaunchContractSpec,
};
use cuda_oxide::launch::error::{LaunchAxis, LaunchContractError, LaunchDimension};
use cuda_oxide::launch::prepare::{DriverQuery, DriverReply, Preparation, PreparedLaunch, Step};
use cuda_oxide::launch::validate::{
    dynamic_shared_memory_max, shared_memory_total, validate_cluster_residency,
    validate_cluster_size, validate_cluster_support, validate_compute_capability,
    validate_cooperative_residency, validate_cooperative_support, validate_live_shape,
    validate_required_cluster, validate_shared_memory_limit, validate_static,
};


const KERNEL: &str = "test_kernel";

struct NonCloneContract;

impl KernelLaunchContract for NonCloneContract {
    type Config = LaunchConfig1D;

    fn spec() -> LaunchContractSpec {
        LaunchContractSpec::new(
            "non_clone",
            BlockRequirement::Exact((1, 1, 1)),
            DynamicSharedMemoryRequirement::Exact {
                bytes: 0,
                min_alignment: 1,
            },
        )
    }
}

fn exact_spec(block: (u32, u32, u32)) -> LaunchContractSpec {
    LaunchContractSpec::new(
        KERNEL,
        BlockRequirement::Exact(block),
        DynamicSharedMemoryRequirement::Exact {
            bytes: 0,
            min_alignment: 1,
        },
    )
}

fn raw(
    grid_dim: (u32, u32, u32),
    block_dim: (u32, u32, u32),
    shared_mem_bytes: u32,
) -> LaunchConfig {
    LaunchConfig {
        grid_dim,
        block_dim,
        shared_mem_bytes,
    }
}

fn generous_limits() -> DeviceLaunchLimits {
    DeviceLaunchLimits {
        max_threads_per_block: 1024,
        max_block_dim: (1024, 1024, 64),
        max_grid_dim: (u32::MAX, 65_535, 65_535),
        max_shared_memory_per_block: 48 * 1024,
    }
}

#[test]
fn typed_configs_fix_trailing_dimensions() {
    let one = LaunchConfig1D::new(7, 64, 16).__raw();
    assert_eq!(one.grid_dim, (7, 1, 1));
    assert_eq!(one.block_dim, (64, 1, 1));
    assert_eq!(one.shared_mem_bytes, 16);

    let two = LaunchConfig2D::new((7, 5), (16, 8), 32).__raw();
    assert_eq!(two.grid_dim, (7, 5, 1));
    assert_eq!(two.block_dim, (16, 8, 1));

    let three = LaunchConfig3D::new((7, 5, 3), (16, 8, 2), 64).__raw();
    assert_eq!(three.grid_dim, (7, 5, 3));
    assert_eq!(three.block_dim, (16, 8, 2));
}

#[test]
fn prepared_launch_clone_does_not_require_clone_brand() {
    fn assert_clone<T: Clone>() {}
    assert_clone::<PreparedLaunch<NonCloneContract>>();
}

#[test]
fn rejects_zero_and_overflowing_shapes() {
    let zero = validate_static(exact_spec((32, 1, 1)), raw((0, 1, 1), (32, 1, 1), 0));
    assert!(matches!(
        zero,
        Err(LaunchContractError::ZeroDimension {
            dimension: LaunchDimension::Grid,
            axis: LaunchAxis::X,
            ..
        })
    ));

    let overflow = validate_static(
        exact_spec((1, 1, 1)),
        raw((u32::MAX, u32::MAX, 2), (1, 1, 1), 0),
    );
    assert!(matches!(
        overflow,
        Err(LaunchContractError::DimensionProductOverflow {
            dimension: LaunchDimension::Grid,
            ..
        })
    ));
}

#[test]
fn exact_block_requires_the_whole_shape() {
    let result = validate_static(exact_spec((32, 4, 1)), raw((1, 1, 1), (64, 2, 1), 0));
    assert!(matches!(
        result,
        Err(LaunchContractError::BlockShapeMismatch {
            required: (32, 4, 1),
            actual: (64, 2, 1),
            ..
        })
    ));
}

#[test]
fn max_threads_applies_to_the_block_product_and_checks_overflow() {
    let spec = LaunchContractSpec::new(
        KERNEL,
        BlockRequirement::MaxThreads(256),
        DynamicSharedMemoryRequirement::Exact {
            bytes: 0,
            min_alignment: 1,
        },
    );
    assert!(validate_static(spec, raw((1, 1, 1), (128, 1, 1), 0)).is_ok());
    assert!(validate_static(spec, raw((1, 1, 1), (16, 16, 1), 0)).is_ok());
    assert!(matches!(
        validate_static(spec, raw((1, 1, 1), (17, 16, 1), 0)),
        Err(LaunchContractError::BlockThreadsExceedContract {
            actual: 272,
            max: 256,
            ..
        })
    ));

    let overflowing_spec = LaunchContractSpec::new(
        KERNEL,
        BlockRequirement::MaxThreads(u32::MAX),
        DynamicSharedMemoryRequirement::Exact {
            bytes: 0,
            min_alignment: 1,
        },
    );
    assert!(matches!(
        validate_static(overflowing_spec, raw((1, 1, 1), (u32::MAX, u32::MAX, 2), 0),),
        Err(LaunchContractError::DimensionProductOverflow {
            dimension: LaunchDimension::Block,
            ..
        })
    ));
}

#[test]
fn validates_dynamic_shared_memory_exact_range_and_alignment() {
    let exact = LaunchContractSpec::new(
        KERNEL,
        BlockRequirement::Exact((32, 1, 1)),
        DynamicSharedMemoryRequirement::Exact {
            bytes: 1024,
            min_alignment: 16,
        },
    );
    assert!(validate_static(exact, raw((1, 1, 1), (32, 1, 1), 1024)).is_ok());
    assert!(matches!(
        validate_static(exact, raw((1, 1, 1), (32, 1, 1), 512)),
        Err(LaunchContractError::DynamicSharedMemoryExactMismatch { .. })
    ));

    let range = LaunchContractSpec::new(
        KERNEL,
        BlockRequirement::Exact((32, 1, 1)),
        DynamicSharedMemoryRequirement::Range {
            min_bytes: 512,
            max_bytes: 2048,
            min_alignment: 32,
        },
    );
    assert!(validate_static(range, raw((1, 1, 1), (32, 1, 1), 512)).is_ok());
    assert!(validate_static(range, raw((1, 1, 1), (32, 1, 1), 2048)).is_ok());
    assert!(matches!(
        validate_static(range, raw((1, 1, 1), (32, 1, 1), 256)),
        Err(LaunchContractError::DynamicSharedMemoryOutsideRange { .. })
    ));

    let reversed = LaunchContractSpec::new(
        KERNEL,
        BlockRequirement::Exact((32, 1, 1)),
        DynamicSharedMemoryRequirement::Range {
            min_bytes: 2,
            max_bytes: 1,
            min_alignment: 1,
        },
    );
    assert!(matches!(
        validate_static(reversed, raw((1, 1, 1), (32, 1, 1), 1)),
        Err(LaunchContractError::InvalidSharedMemoryRange { .. })
    ));

    let bad_alignment = LaunchContractSpec::new(
        KERNEL,
        BlockRequirement::Exact((32, 1, 1)),
        DynamicSharedMemoryRequirement::Exact {
            bytes: 0,
            min_alignment: 3,
        },
    );
    assert!(matches!(
        validate_static(bad_alignment, raw((1, 1, 1), (32, 1, 1), 0)),
        Err(LaunchContractError::InvalidSharedMemoryAlignment { alignment: 3, .. })
    ));
}

#[test]
fn cluster_dimensions_must_be_nonzero_and_divide_grid() {
    let spec = exact_spec((32, 1, 1)).with_cluster((2, 2, 1));
    assert!(validate_static(spec, raw((8, 4, 1), (32, 1, 1), 0)).is_ok());
    assert!(matches!(
        validate_static(spec, raw((7, 4, 1), (32, 1, 1), 0)),
        Err(LaunchContractError::ClusterDoesNotDivideGrid {
            axis: LaunchAxis::X,
            grid: 7,
            cluster: 2,
            ..
        })
    ));

    let zero = exact_spec((32, 1, 1)).with_cluster((2, 0, 1));
    assert!(matches!(
        validate_static(zero, raw((8, 4, 1), (32, 1, 1), 0)),
        Err(LaunchContractError::ZeroDimension {
            dimension: LaunchDimension::Cluster,
            axis: LaunchAxis::Y,
            ..
        })
    ));
}

#[test]
fn validates_device_and_function_block_limits() {
    let spec = LaunchContractSpec::new(
        KERNEL,
        BlockRequirement::MaxThreads(2048),
        DynamicSharedMemoryRequirement::Exact {
            bytes: 0,
            min_alignment: 1,
        },
    );
    let limits = generous_limits();

    assert!(matches!(
        validate_live_shape(spec, raw((1, 1, 1), (1025, 1, 1), 0), limits, 1024),
        Err(LaunchContractError::DeviceDimensionExceeded {
            dimension: LaunchDimension::Block,
            axis: LaunchAxis::X,
            ..
        })
    ));
    assert!(matches!(
        validate_live_shape(spec, raw((1, 1, 1), (33, 33, 1), 0), limits, 2048),
        Err(LaunchContractError::DeviceThreadsPerBlockExceeded { actual: 1089, .. })
    ));
    assert!(matches!(
        validate_live_shape(spec, raw((1, 1, 1), (32, 16, 1), 0), limits, 256),
        Err(LaunchContractError::FunctionThreadsPerBlockExceeded {
            actual: 512,
            max: 256,
            ..
        })
    ));
    assert!(matches!(
        validate_live_shape(
            spec,
            raw((u32::MAX, 65_536, 1), (32, 1, 1), 0),
            limits,
            1024,
        ),
        Err(LaunchContractError::DeviceDimensionExceeded {
            dimension: LaunchDimension::Grid,
            axis: LaunchAxis::Y,
            ..
        })
    ));
}

#[test]
fn validates_static_plus_dynamic_shared_resources() {
    let total = shared_memory_total(KERNEL, 16 * 1024, 40 * 1024).unwrap();
    assert!(matches!(
        validate_shared_memory_limit(KERNEL, total, 48 * 1024, false),
        Err(LaunchContractError::DeviceSharedMemoryExceeded {
            total: 57_344,
            max: 49_152,
            opt_in: false,
            ..
        })
    ));
    assert!(validate_shared_memory_limit(KERNEL, total, 96 * 1024, true).is_ok());
    assert!(matches!(
        validate_shared_memory_limit(KERNEL, 100 * 1024, 96 * 1024, true),
        Err(LaunchContractError::DeviceSharedMemoryExceeded { opt_in: true, .. })
    ));
    assert!(matches!(
        shared_memory_total(KERNEL, u32::MAX, 1),
        Err(LaunchContractError::SharedMemoryTotalOverflow { .. })
    ));
    assert_eq!(
        dynamic_shared_memory_max(DynamicSharedMemoryRequirement::Range {
            min_bytes: 1024,
            max_bytes: 8192,
            min_alignment: 16,
        }),
        8192
    );
}

#[test]
fn shared_memory_range_requires_support_for_its_advertised_maximum() {
    let requirement = DynamicSharedMemoryRequirement::Range {
        min_bytes: 1024,
        max_bytes: 96 * 1024,
        min_alignment: 16,
    };
    let spec =
        LaunchContractSpec::new(KERNEL, BlockRequirement::Exact((32, 1, 1)), requirement);

    // The concrete 32 KiB choice belongs to the range.
    assert!(validate_static(spec, raw((1, 1, 1), (32, 1, 1), 32 * 1024)).is_ok());

    // Preparation nevertheless validates the immutable contract maximum,
    // so every value advertised by the range is safe on this device.
    let total = shared_memory_total(KERNEL, 0, dynamic_shared_memory_max(requirement)).unwrap();
    assert!(matches!(
        validate_shared_memory_limit(KERNEL, total, 64 * 1024, true),
        Err(LaunchContractError::DeviceSharedMemoryExceeded {
            total: 98_304,
            max: 65_536,
            opt_in: true,
            ..
        })
    ));
}

#[test]
fn validates_architecture_and_optional_capabilities() {
    assert!(validate_compute_capability(KERNEL, (9, 0), (10, 0)).is_ok());
    assert!(matches!(
        validate_compute_capability(KERNEL, (9, 0), (8, 9)),
        Err(LaunchContractError::ComputeCapabilityTooLow { .. })
    ));
    assert!(matches!(
        validate_cluster_support(KERNEL, false),
        Err(LaunchContractError::ClusterLaunchUnsupported { .. })
    ));
    assert!(validate_cluster_size(KERNEL, 8, 8).is_ok());
    assert!(matches!(
        validate_cluster_size(KERNEL, 16, 8),
        Err(LaunchContractError::ClusterSizeExceeded {
            blocks: 16,
            max: 8,
            ..
        })
    ));
    assert!(validate_required_cluster(KERNEL, (2, 1, 1), Some((2, 1, 1))).is_ok());
    assert!(matches!(
        validate_required_cluster(KERNEL, (2, 1, 1), Some((4, 1, 1))),
        Err(LaunchContractError::FunctionClusterShapeMismatch { .. })
    ));
    assert!(matches!(
        validate_required_cluster(KERNEL, (2, 1, 1), None),
        Err(LaunchContractError::RequiredClusterDimensionsMissing { .. })
    ));
    assert!(validate_cluster_residency(KERNEL, (2, 1, 1), 1).is_ok());
    assert!(matches!(
        validate_cluster_residency(KERNEL, (2, 1, 1), 0),
        Err(LaunchContractError::ClusterHasNoResidency { .. })
    ));
    assert!(matches!(
        validate_cooperative_support(KERNEL, false),
        Err(LaunchContractError::CooperativeLaunchUnsupported { .. })
    ));
}

#[test]
fn validates_cooperative_residency_capacity() {
    assert!(validate_cooperative_residency(KERNEL, 80, 80).is_ok());
    assert!(matches!(
        validate_cooperative_residency(KERNEL, 81, 80),
        Err(LaunchContractError::CooperativeGridTooLarge {
            blocks: 81,
            resident_capacity: 80,
            ..
        })
    ));
}

#[test]
fn spec_builders_preserve_diagnostic_metadata() {
    let spec = exact_spec((32, 1, 1))
        .with_cluster((2, 1, 1))
        .with_cooperative()
        .with_min_compute_capability(9, 0);
    assert_eq!(spec.kernel_name(), KERNEL);
    assert_eq!(spec.block(), BlockRequirement::Exact((32, 1, 1)));
    assert_eq!(spec.cluster(), Some((2, 1, 1)));
    assert!(spec.cooperative());
    assert_eq!(spec.min_compute_capability(), Some((9, 0)));
}

#[test]
fn builders_can_come_in_any_order() {
    let spec = exact_spec((32, 1, 1));
    assert_eq!(
        spec.with_cluster((2, 1, 1)).with_cooperative().with_min_compute_capability(9, 0),
        spec.with_min_compute_capability(9, 0).with_cooperative().with_cluster((2, 1, 1))
    );
    assert_eq!(
        spec.with_cluster((4, 1, 1)).with_cluster((2, 1, 1)),
        spec.with_cluster((2, 1, 1))
    );
    assert_ne!(spec.with_cooperative(), spec);
}

#[test]
fn element_wise_configuration_covers_every_element() {
    for (n, blocks) in [(0, 0), (1, 1), (256, 1), (257, 2), (u32::MAX, 16_777_216)] {
        let config = LaunchConfig::for_num_elems(n);
        assert_eq!(config.grid_dim, (blocks, 1, 1));
        assert_eq!(config.block_dim, (256, 1, 1));
        assert_eq!(config.shared_mem_bytes, 0);
        let threads = u64::from(blocks) * 256;
        assert!(threads >= u64::from(n));
        assert!(threads < u64::from(n) + 256);
    }
}

#[test]
fn blank_kernel_names_are_rejected_first() {
    for name in ["", "  ", "\t\u{a0}"] {
        let spec = LaunchContractSpec::new(
            name,
            BlockRequirement::Exact((1, 1, 1)),
            DynamicSharedMemoryRequirement::Exact { bytes: 0, min_alignment: 1 },
        );
        assert!(matches!(
            validate_static(spec, raw((0, 1, 1), (1, 1, 1), 0)),
            Err(LaunchContractError::EmptyKernelName)
        ));
    }
}

fn message(error: LaunchContractError) -> String {
    error.message("driver text")
}

#[test]
fn diagnostics_name_the_kernel_and_the_numbers() {
    let kernel = KERNEL;
    for (error, expected) in [
        (
            LaunchContractError::EmptyKernelName,
            "kernel launch contract has an empty name",
        ),
        (
            LaunchContractError::DimensionProductOverflow {
                kernel,
                dimension: LaunchDimension::Cluster,
            },
            "test_kernel: Cluster dimension product overflowed",
        ),
        (
            LaunchContractError::InvalidSharedMemoryAlignment { kernel, alignment: 3 },
            "test_kernel: dynamic shared-memory alignment 3 is not a nonzero power of two",
        ),
        (
            LaunchContractError::InvalidSharedMemoryRange { kernel, min_bytes: 20, max_bytes: 10 },
            "test_kernel: dynamic shared-memory range 20..=10 is invalid",
        ),
        (
            LaunchContractError::BlockShapeMismatch {
                kernel,
                required: (32, 4, 1),
                actual: (64, 2, 1),
            },
            "test_kernel: block (64, 2, 1) does not match required block (32, 4, 1)",
        ),
        (
            LaunchContractError::BlockThreadsExceedContract { kernel, actual: 272, max: 256 },
            "test_kernel: block has 272 threads; contract maximum is 256",
        ),
        (
            LaunchContractError::DynamicSharedMemoryExactMismatch {
                kernel,
                required: 1024,
                actual: 0,
            },
            "test_kernel: dynamic shared memory is 0 bytes; contract requires 1024",
        ),
        (
            LaunchContractError::DynamicSharedMemoryOutsideRange {
                kernel,
                min: 1,
                max: 20,
                actual: 300,
            },
            "test_kernel: dynamic shared memory is 300 bytes; contract permits 1..=20",
        ),
        (
            LaunchContractError::ClusterDoesNotDivideGrid {
                kernel,
                axis: LaunchAxis::Z,
                grid: 7,
                cluster: 2,
            },
            "test_kernel: cluster Z size 2 does not divide grid size 7",
        ),
        (
            LaunchContractError::DeviceDimensionExceeded {
                kernel,
                dimension: LaunchDimension::Block,
                axis: LaunchAxis::X,
                actual: 1025,
                max: 1024,
            },
            "test_kernel: Block.X size 1025 exceeds device maximum 1024",
        ),
        (
            LaunchContractError::DeviceThreadsPerBlockExceeded { kernel, actual: 1089, max: 1024 },
            "test_kernel: block has 1089 threads; device maximum is 1024",
        ),
        (
            LaunchContractError::FunctionThreadsPerBlockExceeded { kernel, actual: 512, max: 256 },
            "test_kernel: block has 512 threads; function maximum is 256",
        ),
        (
            LaunchContractError::SharedMemoryTotalOverflow {
                kernel,
                static_bytes: u32::MAX,
                dynamic_bytes: 1,
            },
            "test_kernel: 4294967295 static + 1 dynamic shared-memory bytes overflowed",
        ),
        (
            LaunchContractError::DeviceSharedMemoryExceeded {
                kernel,
                total: 98_304,
                max: 65_536,
                opt_in: true,
            },
            "test_kernel: 98304 shared-memory bytes exceed the device opt-in limit 65536",
        ),
        (
            LaunchContractError::DeviceSharedMemoryExceeded {
                kernel,
                total: 98_304,
                max: 65_536,
                opt_in: false,
            },
            "test_kernel: 98304 shared-memory bytes exceed the device portable limit 65536",
        ),
        (
            LaunchContractError::ComputeCapabilityTooLow {
                kernel,
                required: (9, 0),
                actual: (8, 9),
            },
            "test_kernel: compute capability 8.9 is below required 9.0",
        ),
        (
            LaunchContractError::CooperativeLaunchUnsupported { kernel },
            "test_kernel: device does not support cooperative launch",
        ),
        (
            LaunchContractError::ClusterLaunchUnsupported { kernel },
            "test_kernel: device does not support cluster launch",
        ),
        (
            LaunchContractError::ClusterSizeExceeded { kernel, blocks: 16, max: 8 },
            "test_kernel: cluster has 16 blocks; live maximum is 8",
        ),
        (
            LaunchContractError::FunctionClusterShapeMismatch {
                kernel,
                declared: (2, 1, 1),
                required: (4, 1, 1),
            },
            "test_kernel: declared cluster (2, 1, 1) does not match function-required cluster (4, 1, 1)",
        ),
        (
            LaunchContractError::RequiredClusterDimensionsMissing { kernel, declared: (2, 1, 1) },
            "test_kernel: declared cluster (2, 1, 1) is missing from the compiled function metadata",
        ),
        (
            LaunchContractError::ClusterShapeUnsupported { kernel, cluster: (2, 1, 1) },
            "test_kernel: cluster shape (2, 1, 1) is unsupported for this launch",
        ),
        (
            LaunchContractError::ClusterHasNoResidency { kernel, cluster: (2, 1, 1) },
            "test_kernel: no cluster with shape (2, 1, 1) can be resident",
        ),
        (
            LaunchContractError::ClusteredCooperativeValidationUnsupported { kernel },
            "test_kernel: clustered cooperative residency cannot be validated by this API",
        ),
        (
            LaunchContractError::CooperativeGridTooLarge {
                kernel,
                blocks: 81,
                resident_capacity: 80,
            },
            "test_kernel: cooperative grid has 81 blocks but only 80 can be resident",
        ),
        (
            LaunchContractError::ContextMismatch {
                kernel,
                function_device: 0,
                stream_device: 1,
            },
            "test_kernel: function is on device 0, stream is on device 1",
        ),
        (LaunchContractError::from(DriverError(700)), "driver text"),
    ] {
        assert_eq!(message(error), expected);
    }
    assert_eq!(
        message(LaunchContractError::ZeroDimension {
            kernel,
            dimension: LaunchDimension::Grid,
            axis: LaunchAxis::Y,
        }),
        "test_kernel: Grid.Y must be nonzero"
    );
}

struct Clustered;

impl KernelLaunchContract for Clustered {
    type Config = LaunchConfig2D;

    fn spec() -> LaunchContractSpec {
        LaunchContractSpec::new(
            "clustered",
            BlockRequirement::MaxThreads(256),
            DynamicSharedMemoryRequirement::Range {
                min_bytes: 0,
                max_bytes: 64 * 1024,
                min_alignment: 16,
            },
        )
        .with_cluster((2, 1, 1))
        .with_min_compute_capability(9, 0)
    }
}

struct Cooperative;

impl KernelLaunchContract for Cooperative {
    type Config = LaunchConfig1D;

    fn spec() -> LaunchContractSpec {
        LaunchContractSpec::new(
            "cooperative",
            BlockRequirement::Exact((128, 1, 1)),
            DynamicSharedMemoryRequirement::Exact { bytes: 0, min_alignment: 1 },
        )
        .with_cooperative()
    }
}

struct Both;

impl KernelLaunchContract for Both {
    type Config = LaunchConfig1D;

    fn spec() -> LaunchContractSpec {
        Cooperative::spec().with_cluster((2, 1, 1))
    }
}

fn function() -> CudaFunction {
    CudaFunction {
        cu_function: 7,
        context: CudaContext { cu_ctx: 11, ordinal: 0 },
    }
}

/// A device that answers every question the same way.
#[derive(Clone, Copy)]
struct Device {
    max_dynamic: u32,
    opt_in: u32,
    capability: (i32, i32),
    clusters: bool,
    required: Option<(u32, u32, u32)>,
    cooperative: bool,
    cluster_size: u32,
    active_clusters: Result<u32, DriverError>,
    active_blocks: u32,
    multiprocessors: u32,
}

fn device() -> Device {
    Device {
        max_dynamic: 48 * 1024,
        opt_in: 227 * 1024,
        capability: (9, 0),
        clusters: true,
        required: Some((2, 1, 1)),
        cooperative: true,
        cluster_size: 8,
        active_clusters: Ok(4),
        active_blocks: 2,
        multiprocessors: 40,
    }
}

impl Device {
    fn reply(&self, query: DriverQuery) -> DriverReply {
        match query {
            DriverQuery::LaunchLimits => DriverReply::LaunchLimits(Ok(generous_limits())),
            DriverQuery::FunctionMaxThreads => DriverReply::FunctionMaxThreads(Ok(1024)),
            DriverQuery::StaticSharedMemory => DriverReply::StaticSharedMemory(Ok(1024)),
            DriverQuery::MaxDynamicSharedMemory => {
                DriverReply::MaxDynamicSharedMemory(Ok(self.max_dynamic))
            }
            DriverQuery::OptInSharedMemory => DriverReply::OptInSharedMemory(Ok(self.opt_in)),
            DriverQuery::ComputeCapability => DriverReply::ComputeCapability(Ok(self.capability)),
            DriverQuery::ClusterSupport => DriverReply::ClusterSupport(Ok(self.clusters)),
            DriverQuery::RequiredCluster => DriverReply::RequiredCluster(Ok(self.required)),
            DriverQuery::CooperativeSupport => {
                DriverReply::CooperativeSupport(Ok(self.cooperative))
            }
            DriverQuery::SetMaxDynamicSharedMemory(_) => {
                DriverReply::SetMaxDynamicSharedMemory(Ok(()))
            }
            DriverQuery::MaxPotentialClusterSize { .. } => {
                DriverReply::MaxPotentialClusterSize(Ok(self.cluster_size))
            }
            DriverQuery::MaxActiveClusters { .. } => {
                DriverReply::MaxActiveClusters(self.active_clusters)
            }
            DriverQuery::MaxActiveBlocks { .. } => {
                DriverReply::MaxActiveBlocks(Ok(self.active_blocks))
            }
            DriverQuery::MultiprocessorCount => {
                DriverReply::MultiprocessorCount(Ok(self.multiprocessors))
            }
        }
    }
}

/// Runs a preparation to its end and returns the questions in order.
fn run<C: KernelLaunchContract>(
    mut preparation: Preparation<C>,
    device: Device,
) -> (Vec<DriverQuery>, Result<PreparedLaunch<C>, LaunchContractError>) {
    let mut asked = Vec::new();
    loop {
        match preparation.step() {
            Step::Ask(query) => {
                asked.push(query);
                preparation.answer(device.reply(query));
            }
            Step::Fail(error) => return (asked, Err(error)),
            Step::Ready => return (asked, Ok(preparation.finish().unwrap())),
        }
    }
}

fn clustered(device: Device) -> (Vec<DriverQuery>, Result<PreparedLaunch<Clustered>, LaunchContractError>) {
    run(
        PreparedLaunch::<Clustered>::__prepare(
            function(),
            LaunchConfig2D::new((8, 4), (16, 16), 1024),
        ),
        device,
    )
}

#[test]
fn clustered_preparation_asks_in_order_and_each_question_once() {
    let (asked, prepared) = clustered(device());
    assert_eq!(
        asked,
        vec![
            DriverQuery::LaunchLimits,
            DriverQuery::FunctionMaxThreads,
            DriverQuery::StaticSharedMemory,
            DriverQuery::MaxDynamicSharedMemory,
            DriverQuery::OptInSharedMemory,
            DriverQuery::ComputeCapability,
            DriverQuery::ClusterSupport,
            DriverQuery::RequiredCluster,
            DriverQuery::SetMaxDynamicSharedMemory(64 * 1024),
            DriverQuery::MaxPotentialClusterSize {
                grid: (8, 4, 1),
                block: (16, 16, 1),
                shared_bytes: 1024,
            },
            DriverQuery::MaxActiveClusters {
                grid: (8, 4, 1),
                block: (16, 16, 1),
                shared_bytes: 1024,
                cluster: (2, 1, 1),
            },
        ]
    );
    let prepared = prepared.unwrap_or_else(|error| panic!("{error:?}"));
    assert_eq!(prepared.__raw_config().grid_dim, (8, 4, 1));
    assert_eq!(prepared.function(), &function());
}

#[test]
fn clustered_preparation_reports_each_device_fault() {
    assert!(matches!(
        clustered(Device { opt_in: 60 * 1024, ..device() }).1,
        Err(LaunchContractError::DeviceSharedMemoryExceeded { total: 66_560, opt_in: true, .. })
    ));
    assert!(matches!(
        clustered(Device { capability: (8, 9), ..device() }).1,
        Err(LaunchContractError::ComputeCapabilityTooLow { actual: (8, 9), .. })
    ));
    assert!(matches!(
        clustered(Device { capability: (-1, 0), ..device() }).1,
        Err(LaunchContractError::Driver(DriverError(CUDA_ERROR_INVALID_VALUE)))
    ));
    assert!(matches!(
        clustered(Device { clusters: false, ..device() }).1,
        Err(LaunchContractError::ClusterLaunchUnsupported { .. })
    ));
    assert!(matches!(
        clustered(Device { required: None, ..device() }).1,
        Err(LaunchContractError::RequiredClusterDimensionsMissing { .. })
    ));
    assert!(matches!(
        clustered(Device { cluster_size: 1, ..device() }).1,
        Err(LaunchContractError::ClusterSizeExceeded { blocks: 2, max: 1, .. })
    ));
    let unsupported = DriverError(CUDA_ERROR_INVALID_CLUSTER_SIZE);
    assert!(matches!(
        clustered(Device { active_clusters: Err(unsupported), ..device() }).1,
        Err(LaunchContractError::ClusterShapeUnsupported { .. })
    ));
    assert!(matches!(
        clustered(Device { active_clusters: Err(DriverError(700)), ..device() }).1,
        Err(LaunchContractError::Driver(DriverError(700)))
    ));
    assert!(matches!(
        clustered(Device { active_clusters: Ok(0), ..device() }).1,
        Err(LaunchContractError::ClusterHasNoResidency { .. })
    ));
}

#[test]
fn a_large_enough_function_is_not_reconfigured() {
    let (asked, prepared) = clustered(Device { max_dynamic: 64 * 1024, ..device() });
    assert!(prepared.is_ok());
    assert!(!asked
        .iter()
        .any(|query| matches!(query, DriverQuery::SetMaxDynamicSharedMemory(_))));
}

#[test]
fn cooperative_preparation_checks_residency() {
    let start = |grid| {
        PreparedLaunch::<Cooperative>::__prepare(function(), LaunchConfig1D::new(grid, 128, 0))
    };
    let (asked, prepared) = run(start(80), device());
    assert!(prepared.is_ok());
    assert_eq!(
        asked[asked.len() - 2],
        DriverQuery::MaxActiveBlocks { threads: 128, shared_bytes: 0 }
    );
    assert!(matches!(
        run(start(81), device()).1,
        Err(LaunchContractError::CooperativeGridTooLarge {
            blocks: 81,
            resident_capacity: 80,
            ..
        })
    ));
    assert!(matches!(
        run(start(80), Device { cooperative: false, ..device() }).1,
        Err(LaunchContractError::CooperativeLaunchUnsupported { .. })
    ));
    let both = PreparedLaunch::<Both>::__prepare(function(), LaunchConfig1D::new(2, 128, 0));
    assert!(matches!(
        run(both, device()).1,
        Err(LaunchContractError::ClusteredCooperativeValidationUnsupported { .. })
    ));
}

#[test]
fn static_faults_need_no_driver_and_driver_failures_stop_preparation() {
    let zero = PreparedLaunch::<Cooperative>::__prepare(function(), LaunchConfig1D::new(0, 128, 0));
    let (asked, result) = run(zero, device());
    assert!(asked.is_empty());
    assert!(matches!(result, Err(LaunchContractError::ZeroDimension { .. })));

    let mut failing =
        PreparedLaunch::<Cooperative>::__prepare(function(), LaunchConfig1D::new(1, 128, 0));
    failing.answer(DriverReply::LaunchLimits(Err(DriverError(3))));
    assert!(matches!(
        failing.step(),
        Step::Fail(LaunchContractError::Driver(DriverError(3)))
    ));
    assert!(failing.finish().is_none());
}

#[test]
fn streams_of_another_context_are_rejected() {
    let (_, prepared) = clustered(device());
    let prepared = prepared.unwrap_or_else(|error| panic!("{error:?}"));
    let same = CudaStream { cu_stream: 1, context: CudaContext { cu_ctx: 11, ordinal: 0 } };
    assert!(prepared.validate_stream(&same).is_ok());
    assert!(prepared.clone().validate_stream(&same).is_ok());
    let other = CudaStream { cu_stream: 1, context: CudaContext { cu_ctx: 12, ordinal: 1 } };
    assert!(matches!(
        prepared.validate_stream(&other),
        Err(LaunchContractError::ContextMismatch {
            kernel: "clustered",
            function_device: 0,
            stream_device: 1,
        })
    ));
}

#[test]
fn device_limits_are_reported_as_given() {
    let limits = generous_limits();
    assert_eq!(limits.max_threads_per_block(), 1024);
    assert_eq!(limits.max_block_dim(), (1024, 1024, 64));
    assert_eq!(limits.max_grid_dim(), (u32::MAX, 65_535, 65_535));
    assert_eq!(limits.max_shared_memory_per_block(), 48 * 1024);
}

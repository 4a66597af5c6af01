//! What a kernel assumes of its launch, and what a device allows.

use vstd::prelude::*;

use crate::launch::config::KernelLaunchConfig;

verus! {

/// The block shapes accepted by a kernel.
#[derive(Clone, Copy, Debug, PartialEq, Eq)]
pub enum BlockRequirement {
    /// The launch must use exactly these `(x, y, z)` block dimensions.
    Exact((u32, u32, u32)),
    /// The block may contain at most this many threads in total.
    ///
    /// This matches CUDA `__launch_bounds__` / PTX `.maxntid` semantics: the
    /// product `block.x * block.y * block.z` is bounded, not each axis.
    /// `MaxThreads(256)` therefore accepts both `(256, 1, 1)` and
    /// `(16, 16, 1)`.
    MaxThreads(u32),
}

/// The dynamic shared-memory sizes accepted by a kernel.
#[derive(Clone, Copy, Debug, PartialEq, Eq)]
pub enum DynamicSharedMemoryRequirement {
    /// The launch must allocate exactly `bytes` bytes.
    Exact {
        /// Required bytes per block.
        bytes: u32,
        /// Minimum alignment assumed by the generated device code.
        min_alignment: u32,
    },
    /// The launch may allocate any size in the inclusive range.
    ///
    /// Preparation requires the live function/device to support `max_bytes`,
    /// even when one prepared configuration chooses fewer bytes. This proves
    /// the function's dynamic-memory capacity for the full interval and lets
    /// concurrent preparations install one monotonic, race-safe maximum.
    Range {
        /// Smallest valid allocation in bytes.
        min_bytes: u32,
        /// Largest valid allocation in bytes.
        max_bytes: u32,
        /// Minimum alignment assumed by the generated device code.
        min_alignment: u32,
    },
}

/// An immutable description of a kernel's launch-time assumptions.
///
/// The name is retained in every validation error so failures point at the
/// kernel whose assumptions were violated.
#[derive(Clone, Copy, Debug, PartialEq, Eq)]
pub struct LaunchContractSpec {
    kernel_name: &'static str,
    block: BlockRequirement,
    dynamic_shared_memory: DynamicSharedMemoryRequirement,
    cluster: Option<(u32, u32, u32)>,
    cooperative: bool,
    min_compute_capability: Option<(u32, u32)>,
}

impl LaunchContractSpec {
    /// The diagnostic kernel name.
    pub closed spec fn kernel(self) -> &'static str {
        self.kernel_name
    }

    /// The block-shape requirement.
    pub closed spec fn block_rule(self) -> BlockRequirement {
        self.block
    }

    /// The dynamic shared-memory requirement.
    pub closed spec fn shared_memory_rule(self) -> DynamicSharedMemoryRequirement {
        self.dynamic_shared_memory
    }

    /// The required cluster dimensions.
    pub closed spec fn cluster_shape(self) -> Option<(u32, u32, u32)> {
        self.cluster
    }

    /// The kernel requires a cooperative launch.
    pub closed spec fn is_cooperative(self) -> bool {
        self.cooperative
    }

    /// The minimum compute capability.
    pub closed spec fn capability_floor(self) -> Option<(u32, u32)> {
        self.min_compute_capability
    }

    /// Creates a contract without cluster, cooperative, or architecture
    /// requirements.
    pub fn new(
        kernel_name: &'static str,
        block: BlockRequirement,
        dynamic_shared_memory: DynamicSharedMemoryRequirement,
    ) -> (spec: LaunchContractSpec)
        ensures
            spec.kernel() == kernel_name,
            spec.block_rule() == block,
            spec.shared_memory_rule() == dynamic_shared_memory,
            spec.cluster_shape() is None,
            !spec.is_cooperative(),
            spec.capability_floor() is None,
    {
        LaunchContractSpec {
            kernel_name,
            block,
            dynamic_shared_memory,
            cluster: None,
            cooperative: false,
            min_compute_capability: None,
        }
    }

    /// Requires fixed thread-block cluster dimensions.
    #[must_use]
    pub fn with_cluster(self, cluster: (u32, u32, u32)) -> (spec: LaunchContractSpec)
        ensures
            spec.kernel() == self.kernel(),
            spec.block_rule() == self.block_rule(),
            spec.shared_memory_rule() == self.shared_memory_rule(),
            spec.cluster_shape() == Some(cluster),
            spec.is_cooperative() == self.is_cooperative(),
            spec.capability_floor() == self.capability_floor(),
    {
        LaunchContractSpec { cluster: Some(cluster), ..self }
    }

    /// Requires a cooperative launch.
    #[must_use]
    pub fn with_cooperative(self) -> (spec: LaunchContractSpec)
        ensures
            spec.kernel() == self.kernel(),
            spec.block_rule() == self.block_rule(),
            spec.shared_memory_rule() == self.shared_memory_rule(),
            spec.cluster_shape() == self.cluster_shape(),
            spec.is_cooperative(),
            spec.capability_floor() == self.capability_floor(),
    {
        LaunchContractSpec { cooperative: true, ..self }
    }

    /// Requires at least the supplied CUDA compute capability.
    #[must_use]
    pub fn with_min_compute_capability(self, major: u32, minor: u32) -> (spec: LaunchContractSpec)
        ensures
            spec.kernel() == self.kernel(),
            spec.block_rule() == self.block_rule(),
            spec.shared_memory_rule() == self.shared_memory_rule(),
            spec.cluster_shape() == self.cluster_shape(),
            spec.is_cooperative() == self.is_cooperative(),
            spec.capability_floor() == Some((major, minor)),
    {
        LaunchContractSpec { min_compute_capability: Some((major, minor)), ..self }
    }

    /// Returns the diagnostic kernel name.
    pub fn kernel_name(&self) -> (name: &'static str)
        ensures
            name == self.kernel(),
    {
        self.kernel_name
    }

    /// Returns the block-shape requirement.
    pub fn block(&self) -> (block: BlockRequirement)
        ensures
            block == self.block_rule(),
    {
        self.block
    }

    /// Returns the dynamic shared-memory requirement.
    pub fn dynamic_shared_memory(&self) -> (requirement: DynamicSharedMemoryRequirement)
        ensures
            requirement == self.shared_memory_rule(),
    {
        self.dynamic_shared_memory
    }

    /// Returns the required cluster dimensions, if any.
    pub fn cluster(&self) -> (cluster: Option<(u32, u32, u32)>)
        ensures
            cluster == self.cluster_shape(),
    {
        self.cluster
    }

    /// Returns whether the kernel requires a cooperative launch.
    pub fn cooperative(&self) -> (cooperative: bool)
        ensures
            cooperative == self.is_cooperative(),
    {
        self.cooperative
    }

    /// Returns the minimum compute capability, if one was declared.
    pub fn min_compute_capability(&self) -> (capability: Option<(u32, u32)>)
        ensures
            capability == self.capability_floor(),
    {
        self.min_compute_capability
    }
}

/// A contract is what it says: two contracts with the same terms are the same
/// contract, whichever builders made them.
pub proof fn contracts_with_equal_terms_are_equal(a: LaunchContractSpec, b: LaunchContractSpec)
    requires
        a.kernel() == b.kernel(),
        a.block_rule() == b.block_rule(),
        a.shared_memory_rule() == b.shared_memory_rule(),
        a.cluster_shape() == b.cluster_shape(),
        a.is_cooperative() == b.is_cooperative(),
        a.capability_floor() == b.capability_floor(),
    ensures
        a == b,
{
}

/// A kernel marker implements this trait to bind a launch rank to one
/// immutable contract.
pub trait KernelLaunchContract {
    /// Rank-preserving host launch configuration for this kernel.
    type Config: KernelLaunchConfig;

    /// Launch assumptions of the kernel.
    fn spec() -> LaunchContractSpec;
}

/// Device launch limits that apply independently of a particular kernel.
#[derive(Clone, Copy, Debug, PartialEq, Eq)]
pub struct DeviceLaunchLimits {
    pub max_threads_per_block: u32,
    pub max_block_dim: (u32, u32, u32),
    pub max_grid_dim: (u32, u32, u32),
    pub max_shared_memory_per_block: u32,
}

impl DeviceLaunchLimits {
    /// Maximum threads in one block.
    pub fn max_threads_per_block(&self) -> (max: u32)
        ensures
            max == self.max_threads_per_block,
    {
        self.max_threads_per_block
    }

    /// Maximum block dimensions `(x, y, z)`.
    pub fn max_block_dim(&self) -> (max: (u32, u32, u32))
        ensures
            max == self.max_block_dim,
    {
        self.max_block_dim
    }

    /// Maximum grid dimensions `(x, y, z)`.
    pub fn max_grid_dim(&self) -> (max: (u32, u32, u32))
        ensures
            max == self.max_grid_dim,
    {
        self.max_grid_dim
    }

    /// Portable shared-memory limit per block, including static and dynamic
    /// shared memory.
    pub fn max_shared_memory_per_block(&self) -> (max: u32)
        ensures
            max == self.max_shared_memory_per_block,
    {
        self.max_shared_memory_per_block
    }
}

} // verus!

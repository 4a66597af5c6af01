//! Raw and rank-preserving launch configurations.

use vstd::prelude::*;

use crate::launch::sealed::Sealed;

verus! {

/// Grid and block dimensions plus dynamic shared memory size for a kernel
/// launch.
///
/// Each dimension tuple is `(x, y, z)`. This is inert configuration data: it
/// does not know which kernel will consume it and therefore cannot prove the
/// kernel's indexing, resource, or synchronization assumptions.
#[derive(Clone, Copy, Debug)]
pub struct LaunchConfig {
    /// Grid dimensions `(x, y, z)` in blocks.
    pub grid_dim: (u32, u32, u32),
    /// Block dimensions `(x, y, z)` in threads.
    pub block_dim: (u32, u32, u32),
    /// Bytes of dynamic shared memory allocated per block.
    pub shared_mem_bytes: u32,
}

/// Blocks of 256 threads along x, as many as `n` elements need.
pub open spec fn element_wise(n: u32) -> LaunchConfig {
    LaunchConfig {
        grid_dim: (((n + 255) / 256) as u32, 1, 1),
        block_dim: (256, 1, 1),
        shared_mem_bytes: 0,
    }
}

impl LaunchConfig {
    /// Creates a 1-D launch configuration for `n` elements.
    ///
    /// Uses a block size of 256 threads and computes the grid size via
    /// ceiling division. No dynamic shared memory is requested.
    pub fn for_num_elems(n: u32) -> (config: LaunchConfig)
        ensures
            config == element_wise(n),
    {
        let grid_x: u32 = if n % 256 == 0 {
            n / 256
        } else {
            n / 256 + 1
        };
        LaunchConfig { grid_dim: (grid_x, 1, 1), block_dim: (256, 1, 1), shared_mem_bytes: 0 }
    }

    /// The number of threads along the x axis of the whole grid.
    pub open spec fn threads_x(self) -> int {
        self.grid_dim.0 * self.block_dim.0
    }
}

/// An element-wise launch has a thread for each of the `n` elements, and less
/// than one block beyond them.
pub proof fn element_wise_launch_covers_every_element(n: u32)
    ensures
        n <= element_wise(n).threads_x() < n + 256,
{
}

/// A rank-preserving launch configuration accepted by a typed kernel contract.
///
/// This trait is sealed. Use [`LaunchConfig1D`], [`LaunchConfig2D`], or
/// [`LaunchConfig3D`]; downstream crates cannot provide a configuration that
/// bypasses their fixed trailing dimensions.
pub trait KernelLaunchConfig: Sealed + Copy {
    /// The raw configuration that this one stands for.
    spec fn raw(self) -> LaunchConfig;

    /// Widens the configuration to three dimensions.
    fn __raw(self) -> (config: LaunchConfig)
        ensures
            config == self.raw(),
    ;
}

/// A one-dimensional launch configuration.
///
/// The hidden `y` and `z` grid and block dimensions are always `1`.
#[derive(Clone, Copy, Debug, PartialEq, Eq)]
pub struct LaunchConfig1D {
    grid_x: u32,
    block_x: u32,
    shared_mem_bytes: u32,
}

impl LaunchConfig1D {
    /// Creates a one-dimensional launch configuration.
    ///
    /// Zero dimensions are reported when the configuration is prepared for a
    /// concrete kernel, where the error can include that kernel's name.
    pub fn new(grid_x: u32, block_x: u32, shared_mem_bytes: u32) -> (config: LaunchConfig1D)
        ensures
            config.raw() == (LaunchConfig {
                grid_dim: (grid_x, 1, 1),
                block_dim: (block_x, 1, 1),
                shared_mem_bytes,
            }),
    {
        LaunchConfig1D { grid_x, block_x, shared_mem_bytes }
    }
}

impl Sealed for LaunchConfig1D {

}

impl KernelLaunchConfig for LaunchConfig1D {
    closed spec fn raw(self) -> LaunchConfig {
        LaunchConfig {
            grid_dim: (self.grid_x, 1, 1),
            block_dim: (self.block_x, 1, 1),
            shared_mem_bytes: self.shared_mem_bytes,
        }
    }

    fn __raw(self) -> (config: LaunchConfig) {
        LaunchConfig {
            grid_dim: (self.grid_x, 1, 1),
            block_dim: (self.block_x, 1, 1),
            shared_mem_bytes: self.shared_mem_bytes,
        }
    }
}

/// A two-dimensional launch configuration.
///
/// The hidden `z` grid and block dimensions are always `1`.
#[derive(Clone, Copy, Debug, PartialEq, Eq)]
pub struct LaunchConfig2D {
    grid: (u32, u32),
    block: (u32, u32),
    shared_mem_bytes: u32,
}

impl LaunchConfig2D {
    /// Creates a two-dimensional launch configuration.
    pub fn new(grid: (u32, u32), block: (u32, u32), shared_mem_bytes: u32) -> (config:
        LaunchConfig2D)
        ensures
            config.raw() == (LaunchConfig {
                grid_dim: (grid.0, grid.1, 1),
                block_dim: (block.0, block.1, 1),
                shared_mem_bytes,
            }),
    {
        LaunchConfig2D { grid, block, shared_mem_bytes }
    }
}

impl Sealed for LaunchConfig2D {

}

impl KernelLaunchConfig for LaunchConfig2D {
    closed spec fn raw(self) -> LaunchConfig {
        LaunchConfig {
            grid_dim: (self.grid.0, self.grid.1, 1),
            block_dim: (self.block.0, self.block.1, 1),
            shared_mem_bytes: self.shared_mem_bytes,
        }
    }

    fn __raw(self) -> (config: LaunchConfig) {
        LaunchConfig {
            grid_dim: (self.grid.0, self.grid.1, 1),
            block_dim: (self.block.0, self.block.1, 1),
            shared_mem_bytes: self.shared_mem_bytes,
        }
    }
}

/// A three-dimensional launch configuration.
#[derive(Clone, Copy, Debug, PartialEq, Eq)]
pub struct LaunchConfig3D {
    grid: (u32, u32, u32),
    block: (u32, u32, u32),
    shared_mem_bytes: u32,
}

impl LaunchConfig3D {
    /// Creates a three-dimensional launch configuration.
    pub fn new(grid: (u32, u32, u32), block: (u32, u32, u32), shared_mem_bytes: u32) -> (config:
        LaunchConfig3D)
        ensures
            config.raw() == (LaunchConfig {
                grid_dim: grid,
                block_dim: block,
                shared_mem_bytes,
            }),
    {
        LaunchConfig3D { grid, block, shared_mem_bytes }
    }
}

impl Sealed for LaunchConfig3D {

}

impl KernelLaunchConfig for LaunchConfig3D {
    closed spec fn raw(self) -> LaunchConfig {
        LaunchConfig {
            grid_dim: self.grid,
            block_dim: self.block,
            shared_mem_bytes: self.shared_mem_bytes,
        }
    }

    fn __raw(self) -> (config: LaunchConfig) {
        LaunchConfig {
            grid_dim: self.grid,
            block_dim: self.block,
            shared_mem_bytes: self.shared_mem_bytes,
        }
    }
}

/// A one-dimensional configuration is one wide along y and z, a
/// two-dimensional one along z, whatever it was made from.
pub proof fn trailing_dimensions_are_one(one: LaunchConfig1D, two: LaunchConfig2D)
    ensures
        one.raw().grid_dim.1 == 1,
        one.raw().grid_dim.2 == 1,
        one.raw().block_dim.1 == 1,
        one.raw().block_dim.2 == 1,
        two.raw().grid_dim.2 == 1,
        two.raw().block_dim.2 == 1,
{
}

} // verus!

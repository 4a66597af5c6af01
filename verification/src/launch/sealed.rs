//! The seal of the launch configuration trait.

use vstd::prelude::*;

verus! {

/// Only this crate can implement it.
pub trait Sealed {

}

} // verus!

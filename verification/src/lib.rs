//! Decoding of the capability list that a PCI function keeps in the
//! device dependent region of its configuration space, and naming of PCI
//! class codes.

use vstd::prelude::*;

pub mod bytes;
pub mod capabilities;
pub mod header;

verus! {

/// Offset in configuration space at which the device dependent region starts.
pub const DDR_OFFSET: usize = 0x40;

/// Offset in configuration space at which the extended configuration space
/// starts, which is where the device dependent region ends.
pub const ECS_OFFSET: usize = 0x100;

} // verus!

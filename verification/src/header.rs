//! The parts of the configuration space header that capability decoding reads.

use vstd::prelude::*;

pub mod class_code;

verus! {

/// Layout of the configuration space header, which tells what kind of
/// function owns it.
#[derive(Debug, Clone, Copy, PartialEq, Eq, Structural)]
pub enum HeaderType {
    /// A general device.
    Normal,
    /// A PCI-to-PCI bridge.
    Bridge,
    /// A PCI-to-CardBus bridge.
    Cardbus,
}

/// What capability decoding needs to know of the function that owns a
/// capability list. Decoding reads it and never changes it.
#[derive(Debug, Clone, Copy, PartialEq, Eq, Structural)]
pub struct Header {
    /// Manufacturer of the device.
    pub vendor_id: u16,
    /// Device identifier allocated by the vendor.
    pub device_id: u16,
    /// Layout of the header.
    pub header_type: HeaderType,
    /// Offset of the first capability, or zero if the function has none.
    pub capabilities_pointer: u8,
}

} // verus!

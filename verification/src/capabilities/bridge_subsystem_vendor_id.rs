//! PCI Bridge Subsystem Vendor ID

use super::CapabilityDataError;
use crate::bytes::{read_word, word};
use vstd::prelude::*;
use vstd::std_specs::convert::TryFromSpecImpl;

verus! {

/// Registers of the PCI Bridge Subsystem Vendor ID capability.
#[derive(Debug, Clone, Copy, PartialEq, Eq, Structural)]
pub struct BridgeSubsystemVendorId {
    /// Reserved register.
    pub reserved: u16,
    /// Vendor of the add-in card or subsystem.
    pub subsystem_vendor_id: u16,
    /// Identifier that the vendor gives the add-in card or subsystem.
    pub subsystem_id: u16,
}

impl BridgeSubsystemVendorId {
    /// Name of the capability in errors.
    pub const NAME: &'static str = "Bridge Subsystem Vendor ID";

    /// Number of bytes after the capability header that the registers take.
    pub const SIZE: usize = 6;

    /// The registers that the bytes after the capability header hold, or the
    /// error that tells how many bytes they take when there are fewer.
    pub open spec fn decode(payload: Seq<u8>) -> Result<Self, CapabilityDataError> {
        if payload.len() < Self::SIZE {
            Err(CapabilityDataError { name: Self::NAME, size: Self::SIZE })
        } else {
            Ok(
                BridgeSubsystemVendorId {
                    reserved: word(payload, 0),
                    subsystem_vendor_id: word(payload, 2),
                    subsystem_id: word(payload, 4),
                },
            )
        }
    }
}

impl<'a> TryFrom<&'a [u8]> for BridgeSubsystemVendorId {
    type Error = CapabilityDataError;

    fn try_from(slice: &'a [u8]) -> (registers: Result<Self, Self::Error>) {
        if slice.len() < Self::SIZE {
            Err(CapabilityDataError { name: Self::NAME, size: Self::SIZE })
        } else {
            Ok(
                BridgeSubsystemVendorId {
                    reserved: read_word(slice, 0),
                    subsystem_vendor_id: read_word(slice, 2),
                    subsystem_id: read_word(slice, 4),
                },
            )
        }
    }
}

impl<'a> TryFromSpecImpl<&'a [u8]> for BridgeSubsystemVendorId {
    open spec fn obeys_try_from_spec() -> bool {
        true
    }

    open spec fn try_from_spec(slice: &'a [u8]) -> Result<Self, Self::Error> {
        Self::decode(slice@)
    }
}

} // verus!

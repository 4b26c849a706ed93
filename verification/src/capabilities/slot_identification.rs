//! Slot Identification

use super::CapabilityDataError;
use vstd::prelude::*;
use vstd::std_specs::convert::TryFromSpecImpl;

verus! {

/// Registers of the Slot Identification capability.
#[derive(Debug, Clone, Copy, PartialEq, Eq, Structural)]
pub struct SlotIdentification {
    /// Expansion slot register.
    pub expansion_slot: u8,
    /// Number of the chassis that holds the slots.
    pub chassis_number: u8,
}

impl SlotIdentification {
    /// Name of the capability in errors.
    pub const NAME: &'static str = "Slot Identification";

    /// Number of bytes after the capability header that the registers take.
    pub const SIZE: usize = 2;

    /// The registers that the bytes after the capability header hold, or the
    /// error that tells how many bytes they take when there are fewer.
    pub open spec fn decode(payload: Seq<u8>) -> Result<Self, CapabilityDataError> {
        if payload.len() < Self::SIZE {
            Err(CapabilityDataError { name: Self::NAME, size: Self::SIZE })
        } else {
            Ok(
                SlotIdentification {
                    expansion_slot: payload[0],
                    chassis_number: payload[1],
                },
            )
        }
    }
}

impl<'a> TryFrom<&'a [u8]> for SlotIdentification {
    type Error = CapabilityDataError;

    fn try_from(slice: &'a [u8]) -> (registers: Result<Self, Self::Error>) {
        if slice.len() < Self::SIZE {
            Err(CapabilityDataError { name: Self::NAME, size: Self::SIZE })
        } else {
            Ok(
                SlotIdentification {
                    expansion_slot: slice[0],
                    chassis_number: slice[1],
                },
            )
        }
    }
}

impl<'a> TryFromSpecImpl<&'a [u8]> for SlotIdentification {
    open spec fn obeys_try_from_spec() -> bool {
        true
    }

    open spec fn try_from_spec(slice: &'a [u8]) -> Result<Self, Self::Error> {
        Self::decode(slice@)
    }
}

} // verus!

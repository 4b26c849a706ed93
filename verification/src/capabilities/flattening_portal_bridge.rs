//! Flattening Portal Bridge

use super::CapabilityDataError;
use crate::bytes::{dword, read_dword};
use vstd::prelude::*;
use vstd::std_specs::convert::TryFromSpecImpl;

verus! {

/// Registers of the Flattening Portal Bridge capability.
#[derive(Debug, Clone, Copy, PartialEq, Eq, Structural)]
pub struct FlatteningPortalBridge {
    /// FPB Capabilities register.
    pub capabilities: u32,
    /// FPB RID Vector Control 1 register.
    pub rid_vector_control_1: u32,
    /// FPB RID Vector Control 2 register.
    pub rid_vector_control_2: u32,
    /// FPB MEM Low Vector Control register.
    pub mem_low_vector_control: u32,
    /// FPB MEM High Vector Control 1 register.
    pub mem_high_vector_control_1: u32,
    /// FPB MEM High Vector Control 2 register.
    pub mem_high_vector_control_2: u32,
    /// FPB Vector Access Control register.
    pub vector_access_control: u32,
    /// FPB Vector Access Data register.
    pub vector_access_data: u32,
}

impl FlatteningPortalBridge {
    /// Name of the capability in errors.
    pub const NAME: &'static str = "Flattening Portal Bridge";

    /// Number of bytes after the capability header that the registers take.
    pub const SIZE: usize = 34;

    /// The registers that the bytes after the capability header hold, or the
    /// error that tells how many bytes they take when there are fewer.
    pub open spec fn decode(payload: Seq<u8>) -> Result<Self, CapabilityDataError> {
        if payload.len() < Self::SIZE {
            Err(CapabilityDataError { name: Self::NAME, size: Self::SIZE })
        } else {
            Ok(
                FlatteningPortalBridge {
                    capabilities: dword(payload, 2),
                    rid_vector_control_1: dword(payload, 6),
                    rid_vector_control_2: dword(payload, 10),
                    mem_low_vector_control: dword(payload, 14),
                    mem_high_vector_control_1: dword(payload, 18),
                    mem_high_vector_control_2: dword(payload, 22),
                    vector_access_control: dword(payload, 26),
                    vector_access_data: dword(payload, 30),
                },
            )
        }
    }
}

impl<'a> TryFrom<&'a [u8]> for FlatteningPortalBridge {
    type Error = CapabilityDataError;

    fn try_from(slice: &'a [u8]) -> (registers: Result<Self, Self::Error>) {
        if slice.len() < Self::SIZE {
            Err(CapabilityDataError { name: Self::NAME, size: Self::SIZE })
        } else {
            Ok(
                FlatteningPortalBridge {
                    capabilities: read_dword(slice, 2),
                    rid_vector_control_1: read_dword(slice, 6),
                    rid_vector_control_2: read_dword(slice, 10),
                    mem_low_vector_control: read_dword(slice, 14),
                    mem_high_vector_control_1: read_dword(slice, 18),
                    mem_high_vector_control_2: read_dword(slice, 22),
                    vector_access_control: read_dword(slice, 26),
                    vector_access_data: read_dword(slice, 30),
                },
            )
        }
    }
}

impl<'a> TryFromSpecImpl<&'a [u8]> for FlatteningPortalBridge {
    open spec fn obeys_try_from_spec() -> bool {
        true
    }

    open spec fn try_from_spec(slice: &'a [u8]) -> Result<Self, Self::Error> {
        Self::decode(slice@)
    }
}

} // verus!

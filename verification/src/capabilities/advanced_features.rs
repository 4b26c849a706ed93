//! Advanced Features

use super::CapabilityDataError;
use vstd::prelude::*;
use vstd::std_specs::convert::TryFromSpecImpl;

verus! {

/// Registers of the Advanced Features capability.
#[derive(Debug, Clone, Copy, PartialEq, Eq, Structural)]
pub struct AdvancedFeatures {
    /// Length of the capability structure in bytes.
    pub length: u8,
    /// AF Capabilities register.
    pub capabilities: u8,
    /// AF Control register.
    pub control: u8,
    /// AF Status register.
    pub status: u8,
}

impl AdvancedFeatures {
    /// Name of the capability in errors.
    pub const NAME: &'static str = "Advanced Features";

    /// Number of bytes after the capability header that the registers take.
    pub const SIZE: usize = 4;

    /// The registers that the bytes after the capability header hold, or the
    /// error that tells how many bytes they take when there are fewer.
    pub open spec fn decode(payload: Seq<u8>) -> Result<Self, CapabilityDataError> {
        if payload.len() < Self::SIZE {
            Err(CapabilityDataError { name: Self::NAME, size: Self::SIZE })
        } else {
            Ok(
                AdvancedFeatures {
                    length: payload[0],
                    capabilities: payload[1],
                    control: payload[2],
                    status: payload[3],
                },
            )
        }
    }
}

impl<'a> TryFrom<&'a [u8]> for AdvancedFeatures {
    type Error = CapabilityDataError;

    fn try_from(slice: &'a [u8]) -> (registers: Result<Self, Self::Error>) {
        if slice.len() < Self::SIZE {
            Err(CapabilityDataError { name: Self::NAME, size: Self::SIZE })
        } else {
            Ok(
                AdvancedFeatures {
                    length: slice[0],
                    capabilities: slice[1],
                    control: slice[2],
                    status: slice[3],
                },
            )
        }
    }
}

impl<'a> TryFromSpecImpl<&'a [u8]> for AdvancedFeatures {
    open spec fn obeys_try_from_spec() -> bool {
        true
    }

    open spec fn try_from_spec(slice: &'a [u8]) -> Result<Self, Self::Error> {
        Self::decode(slice@)
    }
}

} // verus!

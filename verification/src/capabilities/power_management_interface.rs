//! PCI Power Management Interface

use super::CapabilityDataError;
use crate::bytes::{read_word, word};
use vstd::prelude::*;
use vstd::std_specs::convert::TryFromSpecImpl;

verus! {

/// Registers of the PCI Power Management Interface capability.
#[derive(Debug, Clone, Copy, PartialEq, Eq, Structural)]
pub struct PowerManagementInterface {
    /// Power Management Capabilities register.
    pub capabilities: u16,
    /// Power Management Control/Status register.
    pub control: u16,
    /// Bridge support extensions of the control register.
    pub bridge: u8,
    /// Data register.
    pub data: u8,
}

impl PowerManagementInterface {
    /// Name of the capability in errors.
    pub const NAME: &'static str = "Power Management Interface";

    /// Number of bytes after the capability header that the registers take.
    pub const SIZE: usize = 6;

    /// The registers that the bytes after the capability header hold, or the
    /// error that tells how many bytes they take when there are fewer.
    pub open spec fn decode(payload: Seq<u8>) -> Result<Self, CapabilityDataError> {
        if payload.len() < Self::SIZE {
            Err(CapabilityDataError { name: Self::NAME, size: Self::SIZE })
        } else {
            Ok(
                PowerManagementInterface {
                    capabilities: word(payload, 0),
                    control: word(payload, 2),
                    bridge: payload[4],
                    data: payload[5],
                },
            )
        }
    }
}

impl<'a> TryFrom<&'a [u8]> for PowerManagementInterface {
    type Error = CapabilityDataError;

    fn try_from(slice: &'a [u8]) -> (registers: Result<Self, Self::Error>) {
        if slice.len() < Self::SIZE {
            Err(CapabilityDataError { name: Self::NAME, size: Self::SIZE })
        } else {
            Ok(
                PowerManagementInterface {
                    capabilities: read_word(slice, 0),
                    control: read_word(slice, 2),
                    bridge: slice[4],
                    data: slice[5],
                },
            )
        }
    }
}

impl<'a> TryFromSpecImpl<&'a [u8]> for PowerManagementInterface {
    open spec fn obeys_try_from_spec() -> bool {
        true
    }

    open spec fn try_from_spec(slice: &'a [u8]) -> Result<Self, Self::Error> {
        Self::decode(slice@)
    }
}

} // verus!

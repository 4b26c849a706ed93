//! Accelerated Graphics Port

use super::CapabilityDataError;
use crate::bytes::{dword, read_dword};
use vstd::prelude::*;
use vstd::std_specs::convert::TryFromSpecImpl;

verus! {

/// Registers of the Accelerated Graphics Port capability.
#[derive(Debug, Clone, Copy, PartialEq, Eq, Structural)]
pub struct AcceleratedGraphicsPort {
    /// Revision of the interface specification: major number in the high
    /// four bits, minor number in the low four.
    pub revision: u8,
    /// AGP status register.
    pub status: u32,
    /// AGP command register.
    pub command: u32,
}

impl AcceleratedGraphicsPort {
    /// Name of the capability in errors.
    pub const NAME: &'static str = "Accelerated Graphics Port";

    /// Number of bytes after the capability header that the registers take.
    pub const SIZE: usize = 10;

    /// The registers that the bytes after the capability header hold, or the
    /// error that tells how many bytes they take when there are fewer.
    pub open spec fn decode(payload: Seq<u8>) -> Result<Self, CapabilityDataError> {
        if payload.len() < Self::SIZE {
            Err(CapabilityDataError { name: Self::NAME, size: Self::SIZE })
        } else {
            Ok(
                AcceleratedGraphicsPort {
                    revision: payload[0],
                    status: dword(payload, 2),
                    command: dword(payload, 6),
                },
            )
        }
    }
}

impl<'a> TryFrom<&'a [u8]> for AcceleratedGraphicsPort {
    type Error = CapabilityDataError;

    fn try_from(slice: &'a [u8]) -> (registers: Result<Self, Self::Error>) {
        if slice.len() < Self::SIZE {
            Err(CapabilityDataError { name: Self::NAME, size: Self::SIZE })
        } else {
            Ok(
                AcceleratedGraphicsPort {
                    revision: slice[0],
                    status: read_dword(slice, 2),
                    command: read_dword(slice, 6),
                },
            )
        }
    }
}

impl<'a> TryFromSpecImpl<&'a [u8]> for AcceleratedGraphicsPort {
    open spec fn obeys_try_from_spec() -> bool {
        true
    }

    open spec fn try_from_spec(slice: &'a [u8]) -> Result<Self, Self::Error> {
        Self::decode(slice@)
    }
}

} // verus!

//! Serial ATA Data/Index Configuration

use super::CapabilityDataError;
use crate::bytes::{dword, read_dword};
use vstd::prelude::*;
use vstd::std_specs::convert::TryFromSpecImpl;

verus! {

/// Registers of the Serial ATA Data/Index Configuration capability.
#[derive(Debug, Clone, Copy, PartialEq, Eq, Structural)]
pub struct Sata {
    /// Revision of the capability: major number in the high four bits,
    /// minor number in the low four.
    pub revision: u8,
    /// Serial ATA capability register 1, which locates the index-data pair.
    pub bar: u32,
}

impl Sata {
    /// Name of the capability in errors.
    pub const NAME: &'static str = "Serial ATA";

    /// Number of bytes after the capability header that the registers take.
    pub const SIZE: usize = 6;

    /// The registers that the bytes after the capability header hold, or the
    /// error that tells how many bytes they take when there are fewer.
    pub open spec fn decode(payload: Seq<u8>) -> Result<Self, CapabilityDataError> {
        if payload.len() < Self::SIZE {
            Err(CapabilityDataError { name: Self::NAME, size: Self::SIZE })
        } else {
            Ok(
                Sata {
                    revision: payload[0],
                    bar: dword(payload, 2),
                },
            )
        }
    }
}

impl<'a> TryFrom<&'a [u8]> for Sata {
    type Error = CapabilityDataError;

    fn try_from(slice: &'a [u8]) -> (registers: Result<Self, Self::Error>) {
        if slice.len() < Self::SIZE {
            Err(CapabilityDataError { name: Self::NAME, size: Self::SIZE })
        } else {
            Ok(
                Sata {
                    revision: slice[0],
                    bar: read_dword(slice, 2),
                },
            )
        }
    }
}

impl<'a> TryFromSpecImpl<&'a [u8]> for Sata {
    open spec fn obeys_try_from_spec() -> bool {
        true
    }

    open spec fn try_from_spec(slice: &'a [u8]) -> Result<Self, Self::Error> {
        Self::decode(slice@)
    }
}

} // verus!

//! Vital Product Data

use super::CapabilityDataError;
use crate::bytes::{dword, read_dword, read_word, word};
use vstd::prelude::*;
use vstd::std_specs::convert::TryFromSpecImpl;

verus! {

/// Registers of the Vital Product Data capability.
#[derive(Debug, Clone, Copy, PartialEq, Eq, Structural)]
pub struct VitalProductData {
    /// Address of the data to transfer, with the flag that tells when the
    /// transfer is done in the highest bit.
    pub address: u16,
    /// Four bytes of vital product data.
    pub data: u32,
}

impl VitalProductData {
    /// Name of the capability in errors.
    pub const NAME: &'static str = "Vital Product Data";

    /// Number of bytes after the capability header that the registers take.
    pub const SIZE: usize = 6;

    /// The registers that the bytes after the capability header hold, or the
    /// error that tells how many bytes they take when there are fewer.
    pub open spec fn decode(payload: Seq<u8>) -> Result<Self, CapabilityDataError> {
        if payload.len() < Self::SIZE {
            Err(CapabilityDataError { name: Self::NAME, size: Self::SIZE })
        } else {
            Ok(
                VitalProductData {
                    address: word(payload, 0),
                    data: dword(payload, 2),
                },
            )
        }
    }
}

impl<'a> TryFrom<&'a [u8]> for VitalProductData {
    type Error = CapabilityDataError;

    fn try_from(slice: &'a [u8]) -> (registers: Result<Self, Self::Error>) {
        if slice.len() < Self::SIZE {
            Err(CapabilityDataError { name: Self::NAME, size: Self::SIZE })
        } else {
            Ok(
                VitalProductData {
                    address: read_word(slice, 0),
                    data: read_dword(slice, 2),
                },
            )
        }
    }
}

impl<'a> TryFromSpecImpl<&'a [u8]> for VitalProductData {
    open spec fn obeys_try_from_spec() -> bool {
        true
    }

    open spec fn try_from_spec(slice: &'a [u8]) -> Result<Self, Self::Error> {
        Self::decode(slice@)
    }
}

} // verus!

//! MSI-X

use super::CapabilityDataError;
use crate::bytes::{dword, read_dword, read_word, word};
use vstd::prelude::*;
use vstd::std_specs::convert::TryFromSpecImpl;

verus! {

/// Registers of the MSI-X capability.
#[derive(Debug, Clone, Copy, PartialEq, Eq, Structural)]
pub struct MsiX {
    /// Message Control register.
    pub message_control: u16,
    /// Offset of the MSI-X table, with the number of the base address
    /// register that maps it in the low three bits.
    pub table: u32,
    /// Offset of the pending bit array, with the number of the base
    /// address register that maps it in the low three bits.
    pub pending_bit_array: u32,
}

impl MsiX {
    /// Name of the capability in errors.
    pub const NAME: &'static str = "MSI-X";

    /// Number of bytes after the capability header that the registers take.
    pub const SIZE: usize = 10;

    /// The registers that the bytes after the capability header hold, or the
    /// error that tells how many bytes they take when there are fewer.
    pub open spec fn decode(payload: Seq<u8>) -> Result<Self, CapabilityDataError> {
        if payload.len() < Self::SIZE {
            Err(CapabilityDataError { name: Self::NAME, size: Self::SIZE })
        } else {
            Ok(
                MsiX {
                    message_control: word(payload, 0),
                    table: dword(payload, 2),
                    pending_bit_array: dword(payload, 6),
                },
            )
        }
    }
}

impl<'a> TryFrom<&'a [u8]> for MsiX {
    type Error = CapabilityDataError;

    fn try_from(slice: &'a [u8]) -> (registers: Result<Self, Self::Error>) {
        if slice.len() < Self::SIZE {
            Err(CapabilityDataError { name: Self::NAME, size: Self::SIZE })
        } else {
            Ok(
                MsiX {
                    message_control: read_word(slice, 0),
                    table: read_dword(slice, 2),
                    pending_bit_array: read_dword(slice, 6),
                },
            )
        }
    }
}

impl<'a> TryFromSpecImpl<&'a [u8]> for MsiX {
    open spec fn obeys_try_from_spec() -> bool {
        true
    }

    open spec fn try_from_spec(slice: &'a [u8]) -> Result<Self, Self::Error> {
        Self::decode(slice@)
    }
}

} // verus!

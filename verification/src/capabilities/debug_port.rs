//! Debug port

use super::CapabilityDataError;
use crate::bytes::{read_word, word};
use vstd::prelude::*;
use vstd::std_specs::convert::TryFromSpecImpl;

verus! {

/// Register of the Debug port capability.
#[derive(Debug, Clone, Copy, PartialEq, Eq, Structural)]
pub struct DebugPort {
    /// Offset of the debug port registers in the low thirteen bits, number
    /// of the base address register that maps them in the high three.
    pub port: u16,
}

impl DebugPort {
    /// Name of the capability in errors.
    pub const NAME: &'static str = "Debug port";

    /// Number of bytes after the capability header that the registers take.
    pub const SIZE: usize = 2;

    /// The registers that the bytes after the capability header hold, or the
    /// error that tells how many bytes they take when there are fewer.
    pub open spec fn decode(payload: Seq<u8>) -> Result<Self, CapabilityDataError> {
        if payload.len() < Self::SIZE {
            Err(CapabilityDataError { name: Self::NAME, size: Self::SIZE })
        } else {
            Ok(
                DebugPort {
                    port: word(payload, 0),
                },
            )
        }
    }
}

impl<'a> TryFrom<&'a [u8]> for DebugPort {
    type Error = CapabilityDataError;

    fn try_from(slice: &'a [u8]) -> (registers: Result<Self, Self::Error>) {
        if slice.len() < Self::SIZE {
            Err(CapabilityDataError { name: Self::NAME, size: Self::SIZE })
        } else {
            Ok(
                DebugPort {
                    port: read_word(slice, 0),
                },
            )
        }
    }
}

impl<'a> TryFromSpecImpl<&'a [u8]> for DebugPort {
    open spec fn obeys_try_from_spec() -> bool {
        true
    }

    open spec fn try_from_spec(slice: &'a [u8]) -> Result<Self, Self::Error> {
        Self::decode(slice@)
    }
}

} // verus!

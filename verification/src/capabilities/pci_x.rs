//! PCI-X
//!
//! The capability has one shape in a function with an ordinary header and
//! another in a PCI-to-PCI bridge. In both, a version field tells whether
//! the ECC registers follow the registers that every version has.

use crate::bytes::{dword, read_dword, read_word, word};
use vstd::prelude::*;
use vstd::std_specs::convert::TryFromSpecImpl;

verus! {

/// The registers that a PCI-X capability of version 1 or 2 adds.
#[derive(Debug, Clone, Copy, PartialEq, Eq, Structural)]
pub struct Ecc {
    /// ECC Control and Status register.
    pub control_and_status: u32,
    /// ECC First Address register.
    pub first_address: u32,
    /// ECC Second Address register.
    pub second_address: u32,
    /// ECC Attribute register.
    pub attribute: u32,
}

impl Ecc {
    /// Number of bytes that the ECC registers take.
    pub const SIZE: usize = 16;

    /// Whether the register that holds the version field, which is PCI-X
    /// Command in a device and PCI-X Secondary Status in a bridge, announces
    /// ECC registers: every version but 0 does.
    pub open spec fn spec_is_announced(register: u16) -> bool {
        register & 0x3000 != 0
    }

    /// Whether the register that holds the version field announces ECC
    /// registers.
    #[verifier::when_used_as_spec(spec_is_announced)]
    pub fn is_announced(register: u16) -> (announced: bool)
        ensures
            announced == Self::spec_is_announced(register),
    {
        register & 0x3000 != 0
    }

    /// The ECC registers that start at `at`.
    pub open spec fn at(payload: Seq<u8>, at: int) -> Ecc
        recommends
            0 <= at,
            at + Self::SIZE <= payload.len(),
    {
        Ecc {
            control_and_status: dword(payload, at),
            first_address: dword(payload, at + 4),
            second_address: dword(payload, at + 8),
            attribute: dword(payload, at + 12),
        }
    }

    /// Reads the ECC registers that start at `at`.
    pub(crate) fn read(slice: &[u8], at: usize) -> (ecc: Ecc)
        requires
            at + Self::SIZE <= slice.len(),
        ensures
            ecc == Self::at(slice@, at as int),
    {
        Ecc {
            control_and_status: read_dword(slice, at),
            first_address: read_dword(slice, at + 4),
            second_address: read_dword(slice, at + 8),
            attribute: read_dword(slice, at + 12),
        }
    }
}

/// Registers of the PCI-X capability of a device.
#[derive(Debug, Clone, Copy, PartialEq, Eq)]
pub struct PciX {
    /// PCI-X Command register.
    pub command: u16,
    /// PCI-X Status register.
    pub status: u32,
    /// ECC registers, where the version in the command register announces
    /// them.
    pub ecc: Option<Ecc>,
}

/// What is wrong with the bytes of the PCI-X capability of a device.
#[derive(Debug, Clone, Copy, PartialEq, Eq, Structural)]
pub enum PciXError {
    /// The command and status registers are not all there.
    Registers,
    /// The command register announces ECC registers, and they are not all
    /// there.
    Ecc,
}

impl PciX {
    /// Number of bytes after the capability header that the command and
    /// status registers take.
    pub const SIZE: usize = 6;

    /// The registers that the bytes after the capability header hold, or
    /// what is wrong with the bytes.
    pub open spec fn decode(payload: Seq<u8>) -> Result<Self, PciXError> {
        let command = word(payload, 0);
        if payload.len() < Self::SIZE {
            Err(PciXError::Registers)
        } else if !Ecc::is_announced(command) {
            Ok(PciX { command, status: dword(payload, 2), ecc: None })
        } else if payload.len() < Self::SIZE + Ecc::SIZE {
            Err(PciXError::Ecc)
        } else {
            Ok(
                PciX {
                    command,
                    status: dword(payload, 2),
                    ecc: Some(Ecc::at(payload, Self::SIZE as int)),
                },
            )
        }
    }
}

impl<'a> TryFrom<&'a [u8]> for PciX {
    type Error = PciXError;

    fn try_from(slice: &'a [u8]) -> (registers: Result<Self, Self::Error>) {
        if slice.len() < Self::SIZE {
            return Err(PciXError::Registers);
        }
        let command = read_word(slice, 0);
        let status = read_dword(slice, 2);
        if !Ecc::is_announced(command) {
            Ok(PciX { command, status, ecc: None })
        } else if slice.len() < Self::SIZE + Ecc::SIZE {
            Err(PciXError::Ecc)
        } else {
            Ok(PciX { command, status, ecc: Some(Ecc::read(slice, Self::SIZE)) })
        }
    }
}

impl<'a> TryFromSpecImpl<&'a [u8]> for PciX {
    open spec fn obeys_try_from_spec() -> bool {
        true
    }

    open spec fn try_from_spec(slice: &'a [u8]) -> Result<Self, Self::Error> {
        Self::decode(slice@)
    }
}

/// Registers of the PCI-X capability of a PCI-to-PCI bridge.
#[derive(Debug, Clone, Copy, PartialEq, Eq)]
pub struct PciXBridge {
    /// PCI-X Secondary Status register.
    pub secondary_status: u16,
    /// PCI-X Bridge Status register.
    pub bridge_status: u32,
    /// Upstream Split Transaction Control register.
    pub upstream_split_transaction_control: u32,
    /// Downstream Split Transaction Control register.
    pub downstream_split_transaction_control: u32,
    /// ECC registers, where the version in the secondary status register
    /// announces them.
    pub ecc: Option<Ecc>,
}

/// What is wrong with the bytes of the PCI-X capability of a bridge.
#[derive(Debug, Clone, Copy, PartialEq, Eq, Structural)]
pub enum PciXBridgeError {
    /// The status and split transaction control registers are not all there.
    Registers,
    /// The secondary status register announces ECC registers, and they are
    /// not all there.
    Ecc,
}

impl PciXBridge {
    /// Number of bytes after the capability header that the status and split
    /// transaction control registers take.
    pub const SIZE: usize = 14;

    /// The registers that the bytes after the capability header hold, or
    /// what is wrong with the bytes.
    pub open spec fn decode(payload: Seq<u8>) -> Result<Self, PciXBridgeError> {
        let secondary_status = word(payload, 0);
        if payload.len() < Self::SIZE {
            Err(PciXBridgeError::Registers)
        } else if Ecc::is_announced(secondary_status) && payload.len() < Self::SIZE + Ecc::SIZE {
            Err(PciXBridgeError::Ecc)
        } else {
            Ok(
                PciXBridge {
                    secondary_status,
                    bridge_status: dword(payload, 2),
                    upstream_split_transaction_control: dword(payload, 6),
                    downstream_split_transaction_control: dword(payload, 10),
                    ecc: if Ecc::is_announced(secondary_status) {
                        Some(Ecc::at(payload, Self::SIZE as int))
                    } else {
                        None
                    },
                },
            )
        }
    }
}

impl<'a> TryFrom<&'a [u8]> for PciXBridge {
    type Error = PciXBridgeError;

    fn try_from(slice: &'a [u8]) -> (registers: Result<Self, Self::Error>) {
        if slice.len() < Self::SIZE {
            return Err(PciXBridgeError::Registers);
        }
        let secondary_status = read_word(slice, 0);
        let ecc = if !Ecc::is_announced(secondary_status) {
            None
        } else if slice.len() < Self::SIZE + Ecc::SIZE {
            return Err(PciXBridgeError::Ecc);
        } else {
            Some(Ecc::read(slice, Self::SIZE))
        };
        Ok(
            PciXBridge {
                secondary_status,
                bridge_status: read_dword(slice, 2),
                upstream_split_transaction_control: read_dword(slice, 6),
                downstream_split_transaction_control: read_dword(slice, 10),
                ecc,
            },
        )
    }
}

impl<'a> TryFromSpecImpl<&'a [u8]> for PciXBridge {
    open spec fn obeys_try_from_spec() -> bool {
        true
    }

    open spec fn try_from_spec(slice: &'a [u8]) -> Result<Self, Self::Error> {
        Self::decode(slice@)
    }
}

} // verus!

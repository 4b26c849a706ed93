//! HyperTransport
//!
//! A function may hold several HyperTransport capabilities. The high bits of
//! the command register tell which one a capability is, and with that which
//! registers follow. Decoding stops after the command register.

use crate::bytes::{read_word, word};
use vstd::prelude::*;
use vstd::std_specs::convert::TryFromSpecImpl;

verus! {

/// Which of the HyperTransport capabilities a capability is.
#[derive(Debug, Clone, Copy, PartialEq, Eq, Structural)]
pub enum CapabilityType {
    /// Slave or Primary Interface.
    SlaveOrPrimaryInterface,
    /// Host or Secondary Interface.
    HostOrSecondaryInterface,
    /// Switch.
    Switch,
    /// Interrupt Discovery and Configuration.
    InterruptDiscoveryAndConfiguration,
    /// Revision ID.
    RevisionId,
    /// UnitID Clumping.
    UnitIdClumping,
    /// Extended Configuration Space Access.
    ExtendedConfigurationSpaceAccess,
    /// Address Mapping.
    AddressMapping,
    /// MSI Mapping.
    MsiMapping,
    /// DirectRoute.
    DirectRoute,
    /// VCSet.
    VcSet,
    /// Retry Mode.
    RetryMode,
    /// X86 Encoding.
    X86Encoding,
    /// Gen3.
    Gen3,
    /// Function-Level Extension.
    FunctionLevelExtension,
    /// Power Management.
    PowerManagement,
    /// High Node Count.
    HighNodeCount,
}

/// The command register of a HyperTransport capability.
#[derive(Debug, Clone, Copy, PartialEq, Eq, Structural)]
pub struct Hypertransport {
    /// Command register.
    pub command: u16,
    /// The capability that the command register names.
    pub capability_type: CapabilityType,
}

/// What is wrong with the bytes of a HyperTransport capability.
#[derive(Debug, Clone, Copy, PartialEq, Eq, Structural)]
pub enum HypertransportError {
    /// The command register is not all there.
    Command,
    /// The five highest bits of the command register hold `code`, which
    /// names no capability.
    CapabilityType { code: u8 },
}

impl CapabilityType {
    /// The capability that the five highest bits of the command register
    /// name, if they name one. The two interface capabilities are named by
    /// the three highest bits alone.
    pub open spec fn spec_from_code(code: u8) -> Option<CapabilityType> {
        match code {
            0 | 1 | 2 | 3 => Some(CapabilityType::SlaveOrPrimaryInterface),
            4 | 5 | 6 | 7 => Some(CapabilityType::HostOrSecondaryInterface),
            8 => Some(CapabilityType::Switch),
            16 => Some(CapabilityType::InterruptDiscoveryAndConfiguration),
            17 => Some(CapabilityType::RevisionId),
            18 => Some(CapabilityType::UnitIdClumping),
            19 => Some(CapabilityType::ExtendedConfigurationSpaceAccess),
            20 => Some(CapabilityType::AddressMapping),
            21 => Some(CapabilityType::MsiMapping),
            22 => Some(CapabilityType::DirectRoute),
            23 => Some(CapabilityType::VcSet),
            24 => Some(CapabilityType::RetryMode),
            25 => Some(CapabilityType::X86Encoding),
            26 => Some(CapabilityType::Gen3),
            27 => Some(CapabilityType::FunctionLevelExtension),
            28 => Some(CapabilityType::PowerManagement),
            29 => Some(CapabilityType::HighNodeCount),
            _ => None,
        }
    }

    /// The capability that the five highest bits of the command register
    /// name, if they name one.
    #[verifier::when_used_as_spec(spec_from_code)]
    pub fn from_code(code: u8) -> (capability_type: Option<CapabilityType>)
        ensures
            capability_type == Self::spec_from_code(code),
    {
        match code {
            0 | 1 | 2 | 3 => Some(CapabilityType::SlaveOrPrimaryInterface),
            4 | 5 | 6 | 7 => Some(CapabilityType::HostOrSecondaryInterface),
            8 => Some(CapabilityType::Switch),
            16 => Some(CapabilityType::InterruptDiscoveryAndConfiguration),
            17 => Some(CapabilityType::RevisionId),
            18 => Some(CapabilityType::UnitIdClumping),
            19 => Some(CapabilityType::ExtendedConfigurationSpaceAccess),
            20 => Some(CapabilityType::AddressMapping),
            21 => Some(CapabilityType::MsiMapping),
            22 => Some(CapabilityType::DirectRoute),
            23 => Some(CapabilityType::VcSet),
            24 => Some(CapabilityType::RetryMode),
            25 => Some(CapabilityType::X86Encoding),
            26 => Some(CapabilityType::Gen3),
            27 => Some(CapabilityType::FunctionLevelExtension),
            28 => Some(CapabilityType::PowerManagement),
            29 => Some(CapabilityType::HighNodeCount),
            _ => None,
        }
    }
}

impl Hypertransport {
    /// Number of bytes after the capability header that the command
    /// register takes.
    pub const SIZE: usize = 2;

    /// The five highest bits of the command register, which are the five
    /// highest bits of its high byte.
    pub open spec fn capability_type_code(payload: Seq<u8>) -> u8
        recommends
            payload.len() >= Self::SIZE,
    {
        payload[1] / 8
    }

    /// The command register that the bytes after the capability header hold
    /// and the capability that it names, or what is wrong with the bytes.
    pub open spec fn decode(payload: Seq<u8>) -> Result<Self, HypertransportError> {
        let code = Self::capability_type_code(payload);
        if payload.len() < Self::SIZE {
            Err(HypertransportError::Command)
        } else if CapabilityType::from_code(code) is None {
            Err(HypertransportError::CapabilityType { code })
        } else {
            Ok(
                Hypertransport {
                    command: word(payload, 0),
                    capability_type: CapabilityType::from_code(code)->Some_0,
                },
            )
        }
    }
}

impl<'a> TryFrom<&'a [u8]> for Hypertransport {
    type Error = HypertransportError;

    fn try_from(slice: &'a [u8]) -> (registers: Result<Self, Self::Error>) {
        if slice.len() < Self::SIZE {
            return Err(HypertransportError::Command);
        }
        let code = slice[1] / 8;
        match CapabilityType::from_code(code) {
            Some(capability_type) => Ok(
                Hypertransport { command: read_word(slice, 0), capability_type },
            ),
            None => Err(HypertransportError::CapabilityType { code }),
        }
    }
}

impl<'a> TryFromSpecImpl<&'a [u8]> for Hypertransport {
    open spec fn obeys_try_from_spec() -> bool {
        true
    }

    open spec fn try_from_spec(slice: &'a [u8]) -> Result<Self, Self::Error> {
        Self::decode(slice@)
    }
}

} // verus!

//! PCI Express
//!
//! Which registers the capability holds depends on its version and on the
//! kind of function. Decoding stops after the device registers, which every
//! function has.

use crate::bytes::{dword, read_dword, read_word, word};
use vstd::prelude::*;
use vstd::std_specs::convert::TryFromSpecImpl;

verus! {

/// Kind of PCI Express function, from the Device/Port Type field.
#[derive(Debug, Clone, Copy, PartialEq, Eq, Structural)]
pub enum DeviceType {
    /// PCI Express Endpoint.
    Endpoint,
    /// Legacy PCI Express Endpoint.
    LegacyEndpoint,
    /// Root Port of a PCI Express Root Complex.
    RootPort,
    /// Upstream Port of a PCI Express Switch.
    UpstreamPort,
    /// Downstream Port of a PCI Express Switch.
    DownstreamPort,
    /// PCI Express to PCI/PCI-X Bridge.
    PcieToPciBridge,
    /// PCI/PCI-X to PCI Express Bridge.
    PciToPcieBridge,
    /// Root Complex Integrated Endpoint.
    RootComplexIntegratedEndpoint,
    /// Root Complex Event Collector.
    RootComplexEventCollector,
}

/// The device registers of the PCI Express capability.
#[derive(Debug, Clone, Copy, PartialEq, Eq, Structural)]
pub struct Device {
    /// Device Capabilities register.
    pub capabilities: u32,
    /// Device Control register.
    pub control: u16,
    /// Device Status register.
    pub status: u16,
}

/// The registers of the PCI Express capability that every function has.
#[derive(Debug, Clone, Copy, PartialEq, Eq, Structural)]
pub struct PciExpress {
    /// PCI Express Capabilities register.
    pub capabilities: u16,
    /// Kind of function that the capabilities register names.
    pub device_type: DeviceType,
    /// Device registers.
    pub device: Device,
}

/// What is wrong with the bytes of a PCI Express capability.
#[derive(Debug, Clone, Copy, PartialEq, Eq, Structural)]
pub enum PciExpressError {
    /// The PCI Express Capabilities register is not all there.
    Capabilities,
    /// The Device/Port Type field holds `code`, which names no kind of
    /// function.
    DeviceType { code: u8 },
    /// The device registers are not all there.
    Device,
}

impl DeviceType {
    /// The kind of function that a value of the Device/Port Type field
    /// names, if it names one.
    pub open spec fn spec_from_code(code: u8) -> Option<DeviceType> {
        match code {
            0 => Some(DeviceType::Endpoint),
            1 => Some(DeviceType::LegacyEndpoint),
            4 => Some(DeviceType::RootPort),
            5 => Some(DeviceType::UpstreamPort),
            6 => Some(DeviceType::DownstreamPort),
            7 => Some(DeviceType::PcieToPciBridge),
            8 => Some(DeviceType::PciToPcieBridge),
            9 => Some(DeviceType::RootComplexIntegratedEndpoint),
            10 => Some(DeviceType::RootComplexEventCollector),
            _ => None,
        }
    }

    /// The kind of function that a value of the Device/Port Type field
    /// names, if it names one.
    #[verifier::when_used_as_spec(spec_from_code)]
    pub fn from_code(code: u8) -> (device_type: Option<DeviceType>)
        ensures
            device_type == Self::spec_from_code(code),
    {
        match code {
            0 => Some(DeviceType::Endpoint),
            1 => Some(DeviceType::LegacyEndpoint),
            4 => Some(DeviceType::RootPort),
            5 => Some(DeviceType::UpstreamPort),
            6 => Some(DeviceType::DownstreamPort),
            7 => Some(DeviceType::PcieToPciBridge),
            8 => Some(DeviceType::PciToPcieBridge),
            9 => Some(DeviceType::RootComplexIntegratedEndpoint),
            10 => Some(DeviceType::RootComplexEventCollector),
            _ => None,
        }
    }
}

impl PciExpress {
    /// Number of bytes after the capability header that the capabilities
    /// register and the device registers take.
    pub const SIZE: usize = 10;

    /// The Device/Port Type field, which is bits 7:4 of the capabilities
    /// register and so the high half of its low byte.
    pub open spec fn device_type_code(payload: Seq<u8>) -> u8
        recommends
            payload.len() > 0,
    {
        payload[0] / 16
    }

    /// The registers that the bytes after the capability header hold, or
    /// what is wrong with the bytes.
    pub open spec fn decode(payload: Seq<u8>) -> Result<Self, PciExpressError> {
        let code = Self::device_type_code(payload);
        if payload.len() < 2 {
            Err(PciExpressError::Capabilities)
        } else if DeviceType::from_code(code) is None {
            Err(PciExpressError::DeviceType { code })
        } else if payload.len() < Self::SIZE {
            Err(PciExpressError::Device)
        } else {
            Ok(
                PciExpress {
                    capabilities: word(payload, 0),
                    device_type: DeviceType::from_code(code)->Some_0,
                    device: Device {
                        capabilities: dword(payload, 2),
                        control: word(payload, 6),
                        status: word(payload, 8),
                    },
                },
            )
        }
    }
}

impl<'a> TryFrom<&'a [u8]> for PciExpress {
    type Error = PciExpressError;

    fn try_from(slice: &'a [u8]) -> (registers: Result<Self, Self::Error>) {
        if slice.len() < 2 {
            return Err(PciExpressError::Capabilities);
        }
        let code = slice[0] / 16;
        let device_type = match DeviceType::from_code(code) {
            Some(device_type) => device_type,
            None => {
                return Err(PciExpressError::DeviceType { code });
            },
        };
        if slice.len() < Self::SIZE {
            return Err(PciExpressError::Device);
        }
        Ok(
            PciExpress {
                capabilities: read_word(slice, 0),
                device_type,
                device: Device {
                    capabilities: read_dword(slice, 2),
                    control: read_word(slice, 6),
                    status: read_word(slice, 8),
                },
            },
        )
    }
}

impl<'a> TryFromSpecImpl<&'a [u8]> for PciExpress {
    open spec fn obeys_try_from_spec() -> bool {
        true
    }

    open spec fn try_from_spec(slice: &'a [u8]) -> Result<Self, Self::Error> {
        Self::decode(slice@)
    }
}

} // verus!
